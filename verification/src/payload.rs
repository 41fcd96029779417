//! Framing of the analytics notification body.
//!
//! When a fresh identifier is created, a notification announcing it is sent
//! to the analytics endpoint.  Its body is a small JSON object holding the
//! event name, the identifier, and the platform label.  The library builds
//! that body itself, escaping the embedded strings as JSON requires.

use vstd::prelude::*;

verus! {

/// The JSON escape of one character inside a string literal: quote and
/// backslash get a backslash escape, control characters a `\u00XX` escape,
/// and every other character stands for itself.
pub open spec fn json_escaped_char(c: char) -> Seq<char> {
    if c == '"' {
        "\\\""@
    } else if c == '\\' {
        "\\\\"@
    } else if c == '\u{00}' {
        "\\u0000"@
    } else if c == '\u{01}' {
        "\\u0001"@
    } else if c == '\u{02}' {
        "\\u0002"@
    } else if c == '\u{03}' {
        "\\u0003"@
    } else if c == '\u{04}' {
        "\\u0004"@
    } else if c == '\u{05}' {
        "\\u0005"@
    } else if c == '\u{06}' {
        "\\u0006"@
    } else if c == '\u{07}' {
        "\\u0007"@
    } else if c == '\u{08}' {
        "\\u0008"@
    } else if c == '\u{09}' {
        "\\u0009"@
    } else if c == '\u{0a}' {
        "\\u000a"@
    } else if c == '\u{0b}' {
        "\\u000b"@
    } else if c == '\u{0c}' {
        "\\u000c"@
    } else if c == '\u{0d}' {
        "\\u000d"@
    } else if c == '\u{0e}' {
        "\\u000e"@
    } else if c == '\u{0f}' {
        "\\u000f"@
    } else if c == '\u{10}' {
        "\\u0010"@
    } else if c == '\u{11}' {
        "\\u0011"@
    } else if c == '\u{12}' {
        "\\u0012"@
    } else if c == '\u{13}' {
        "\\u0013"@
    } else if c == '\u{14}' {
        "\\u0014"@
    } else if c == '\u{15}' {
        "\\u0015"@
    } else if c == '\u{16}' {
        "\\u0016"@
    } else if c == '\u{17}' {
        "\\u0017"@
    } else if c == '\u{18}' {
        "\\u0018"@
    } else if c == '\u{19}' {
        "\\u0019"@
    } else if c == '\u{1a}' {
        "\\u001a"@
    } else if c == '\u{1b}' {
        "\\u001b"@
    } else if c == '\u{1c}' {
        "\\u001c"@
    } else if c == '\u{1d}' {
        "\\u001d"@
    } else if c == '\u{1e}' {
        "\\u001e"@
    } else if c == '\u{1f}' {
        "\\u001f"@
    } else {
        seq![c]
    }
}

/// The JSON escape of a whole string, character by character.
pub open spec fn json_escape(s: Seq<char>) -> Seq<char>
    decreases s.len(),
{
    if s.len() == 0 {
        Seq::<char>::empty()
    } else {
        json_escaped_char(s[0]) + json_escape(s.drop_first())
    }
}

/// Escaping distributes over appending one character at the end.
proof fn lemma_json_escape_push(s: Seq<char>, c: char)
    ensures
        json_escape(s.push(c)) == json_escape(s) + json_escaped_char(c),
    decreases s.len(),
{
    if s.len() == 0 {
        assert(s.push(c)[0] == c);
        assert(s.push(c).drop_first() =~= Seq::<char>::empty());
        assert(json_escape(Seq::<char>::empty()) == Seq::<char>::empty());
        assert(json_escape(s.push(c)) == json_escaped_char(c) + Seq::<char>::empty());
        assert(json_escape(s.push(c)) =~= json_escape(s) + json_escaped_char(c));
    } else {
        assert(s.push(c)[0] == s[0]);
        assert(s.push(c).drop_first() =~= s.drop_first().push(c));
        lemma_json_escape_push(s.drop_first(), c);
        assert(json_escaped_char(s[0]) + (json_escape(s.drop_first()) + json_escaped_char(c))
            =~= (json_escaped_char(s[0]) + json_escape(s.drop_first())) + json_escaped_char(c));
    }
}

/// The replacement text for a character that JSON escapes, `None` for a
/// character that stands for itself.
fn escape_replacement(c: char) -> (r: Option<&'static str>)
    ensures
        match r {
            Some(t) => t@ == json_escaped_char(c),
            None => json_escaped_char(c) == seq![c],
        },
{
    if c == '"' {
        Some("\\\"")
    } else if c == '\\' {
        Some("\\\\")
    } else if c == '\u{00}' {
        Some("\\u0000")
    } else if c == '\u{01}' {
        Some("\\u0001")
    } else if c == '\u{02}' {
        Some("\\u0002")
    } else if c == '\u{03}' {
        Some("\\u0003")
    } else if c == '\u{04}' {
        Some("\\u0004")
    } else if c == '\u{05}' {
        Some("\\u0005")
    } else if c == '\u{06}' {
        Some("\\u0006")
    } else if c == '\u{07}' {
        Some("\\u0007")
    } else if c == '\u{08}' {
        Some("\\u0008")
    } else if c == '\u{09}' {
        Some("\\u0009")
    } else if c == '\u{0a}' {
        Some("\\u000a")
    } else if c == '\u{0b}' {
        Some("\\u000b")
    } else if c == '\u{0c}' {
        Some("\\u000c")
    } else if c == '\u{0d}' {
        Some("\\u000d")
    } else if c == '\u{0e}' {
        Some("\\u000e")
    } else if c == '\u{0f}' {
        Some("\\u000f")
    } else if c == '\u{10}' {
        Some("\\u0010")
    } else if c == '\u{11}' {
        Some("\\u0011")
    } else if c == '\u{12}' {
        Some("\\u0012")
    } else if c == '\u{13}' {
        Some("\\u0013")
    } else if c == '\u{14}' {
        Some("\\u0014")
    } else if c == '\u{15}' {
        Some("\\u0015")
    } else if c == '\u{16}' {
        Some("\\u0016")
    } else if c == '\u{17}' {
        Some("\\u0017")
    } else if c == '\u{18}' {
        Some("\\u0018")
    } else if c == '\u{19}' {
        Some("\\u0019")
    } else if c == '\u{1a}' {
        Some("\\u001a")
    } else if c == '\u{1b}' {
        Some("\\u001b")
    } else if c == '\u{1c}' {
        Some("\\u001c")
    } else if c == '\u{1d}' {
        Some("\\u001d")
    } else if c == '\u{1e}' {
        Some("\\u001e")
    } else if c == '\u{1f}' {
        Some("\\u001f")
    } else {
        None
    }
}

/// Escape `s` for inclusion in a JSON string literal.
pub fn json_escape_str(s: &str) -> (r: String)
    ensures
        r@ == json_escape(s@),
{
    let n = s.unicode_len();
    let mut out = String::new();
    let mut i: usize = 0;
    while i < n
        invariant
            i <= n,
            n == s@.len(),
            out@ == json_escape(s@.subrange(0, i as int)),
        decreases n - i,
    {
        let c = s.get_char(i);
        proof {
            lemma_json_escape_push(s@.subrange(0, i as int), c);
            assert(s@.subrange(0, i as int).push(c) =~= s@.subrange(0, i as int + 1));
        }
        match escape_replacement(c) {
            Some(t) => out.append(t),
            None => {
                let piece = s.substring_char(i, i + 1);
                proof {
                    assert(piece@ =~= seq![c]);
                }
                out.append(piece);
            },
        }
        i += 1;
    }
    proof {
        assert(s@.subrange(0, n as int) =~= s@);
    }
    out
}

/// The analytics notification body announcing a newly created identifier.
pub open spec fn spec_analytics_payload(client_id: Seq<char>, os: Seq<char>) -> Seq<char> {
    "{\"event\":\"init\",\"client_id\":\""@ + json_escape(client_id) + "\",\"os\":\""@
        + json_escape(os) + "\"}"@
}

/// Build the analytics notification body for a newly created identifier and
/// the platform label of the machine it was created on.
pub fn analytics_payload(client_id: &str, os: &str) -> (r: String)
    ensures
        r@ == spec_analytics_payload(client_id@, os@),
{
    let mut out = String::from_str("{\"event\":\"init\",\"client_id\":\"");
    let escaped_id = json_escape_str(client_id);
    out.append(escaped_id.as_str());
    out.append("\",\"os\":\"");
    let escaped_os = json_escape_str(os);
    out.append(escaped_os.as_str());
    out.append("\"}");
    proof {
        assert(out@ =~= spec_analytics_payload(client_id@, os@));
    }
    out
}

} // verus!
