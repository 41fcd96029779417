//! The get-or-create decision for the per-installation identifier.
//!
//! The store is a single file whose whole content, trimmed of surrounding
//! whitespace, is the identifier.  Non-empty trimmed content is authoritative
//! and is returned as it stands; absent, empty or whitespace-only content
//! makes the operation mint a fresh time-ordered identifier, which the caller
//! must then persist and announce.

use vstd::prelude::*;

use crate::text::{
    is_space_char, lemma_all_space_trims_empty, lemma_no_space_trims_identity, spec_trimmed,
    trim_spaces,
};

verus! {

/// Whether `c` is a lowercase hexadecimal digit.
pub open spec fn is_lower_hex_char(c: char) -> bool {
    (('0' as u32) <= c as u32 && c as u32 <= ('9' as u32)) || (('a' as u32) <= c as u32
        && c as u32 <= ('f' as u32))
}

/// The positions of the four separators in the hyphenated identifier form.
pub open spec fn is_hyphen_position(i: int) -> bool {
    i == 8 || i == 13 || i == 18 || i == 23
}

/// What the character at position `i` of an identifier may be.
pub open spec fn client_id_char_ok(c: char, i: int) -> bool {
    if is_hyphen_position(i) {
        c == '-'
    } else {
        is_lower_hex_char(c)
    }
}

/// A time-ordered identifier in text form: a hyphenated, lowercase
/// version-7 UUID of 36 characters, with the version digit `7`.
pub open spec fn is_client_id_text(s: Seq<char>) -> bool {
    &&& s.len() == 36
    &&& forall|i: int| 0 <= i < 36 ==> client_id_char_ok(#[trigger] s[i], i)
    &&& s[14] == '7'
}

/// The identifier that stored file content yields, if any: its trimmed text
/// when that is non-empty.  `None` stands for an absent store as well as for
/// empty or whitespace-only content.
pub open spec fn spec_stored_id(content: Option<Seq<char>>) -> Option<Seq<char>> {
    match content {
        Some(c) => if spec_trimmed(c).len() > 0 {
            Some(spec_trimmed(c))
        } else {
            None
        },
        None => None,
    }
}

/// The view of optionally read store content.
pub open spec fn stored_view(stored: Option<&str>) -> Option<Seq<char>> {
    match stored {
        Some(s) => Some(s@),
        None => None,
    }
}

/// How one run of the get-or-create operation concluded: the store already
/// held this identifier, or a fresh one was minted and the caller must now
/// persist and announce it.
pub enum ClientIdResolution {
    Existing(String),
    Created(String),
}

/// An identifier contains only hyphens and hexadecimal digits, so trimming
/// whitespace from one gives it back unchanged: persisting a fresh
/// identifier verbatim lets every later read yield that same identifier.
pub proof fn lemma_client_id_trims_to_itself(s: Seq<char>)
    requires
        is_client_id_text(s),
    ensures
        spec_trimmed(s) == s,
{
    assert forall|i: int| 0 <= i < s.len() implies !is_space_char(#[trigger] s[i]) by {
        assert(client_id_char_ok(s[i], i));
    }
    lemma_no_space_trims_identity(s);
}

/// Once a fresh identifier is written as the whole store content, the store
/// is populated with exactly that identifier, so two sequential calls on a
/// populated store return the identical value.
pub proof fn lemma_created_id_reads_back(id: Seq<char>)
    requires
        is_client_id_text(id),
    ensures
        spec_stored_id(Some(id)) == Some(id),
{
    lemma_client_id_trims_to_itself(id);
}

/// Two sequential calls on a populated store return the identical value:
/// the read path writes nothing, so both calls see the same content, and
/// the identifier a store yields is a function of that content alone.
pub proof fn lemma_sequential_calls_identical(content: Seq<char>, id1: Seq<char>, id2: Seq<char>)
    requires
        spec_stored_id(Some(content)) == Some(id1),
        spec_stored_id(Some(content)) == Some(id2),
    ensures
        id1 == id2,
{
}

/// Whitespace-only store content yields no identifier: the operation treats
/// it exactly as an absent store.
pub proof fn lemma_whitespace_store_is_absent(content: Seq<char>)
    requires
        forall|i: int| 0 <= i < content.len() ==> is_space_char(#[trigger] content[i]),
    ensures
        spec_stored_id(Some(content)) is None,
{
    lemma_all_space_trims_empty(content);
}

/// Relies on `uuid::Uuid::now_v7` and the `Display` impl of `Uuid`: a fresh
/// version-7 UUID rendered in the hyphenated, lowercase text form
/// (8-4-4-4-12 lowercase hexadecimal digits with the version digit `7`).
#[verifier::external_body]
fn fresh_uuid_v7_text() -> (r: String)
    ensures
        is_client_id_text(r@),
{
    uuid::Uuid::now_v7().to_string()
}

/// Return the identifier the store already holds, or mint a fresh one.
///
/// `stored` is the content of the identifier file, `None` if it could not be
/// read.  Non-empty trimmed content is returned as the existing identifier;
/// otherwise a fresh time-ordered identifier is minted, ready to be written
/// verbatim as the new store content.
pub fn get_or_create_client_id(stored: Option<&str>) -> (r: ClientIdResolution)
    ensures
        match spec_stored_id(stored_view(stored)) {
            Some(id) => r matches ClientIdResolution::Existing(e) && e@ == id,
            None => r matches ClientIdResolution::Created(n) && is_client_id_text(n@)
                && spec_trimmed(n@) == n@,
        },
{
    if let Some(content) = stored {
        let t = trim_spaces(content);
        if t.as_str().unicode_len() > 0 {
            return ClientIdResolution::Existing(t);
        }
    }
    let id = fresh_uuid_v7_text();
    proof {
        lemma_client_id_trims_to_itself(id@);
    }
    ClientIdResolution::Created(id)
}

/// Whether `s` is a well-formed identifier in the time-ordered text form.
pub fn is_valid_client_id(s: &str) -> (r: bool)
    ensures
        r == is_client_id_text(s@),
{
    let n = s.unicode_len();
    if n != 36 {
        return false;
    }
    if s.get_char(14) != '7' {
        return false;
    }
    let mut i: usize = 0;
    while i < 36
        invariant
            i <= 36,
            s@.len() == 36,
            s@[14] == '7',
            forall|j: int| 0 <= j < i ==> client_id_char_ok(#[trigger] s@[j], j),
        decreases 36 - i,
    {
        let c = s.get_char(i);
        let ok = if i == 8 || i == 13 || i == 18 || i == 23 {
            c == '-'
        } else {
            let u = c as u32;
            (('0' as u32) <= u && u <= ('9' as u32)) || (('a' as u32) <= u && u <= ('f' as u32))
        };
        if !ok {
            return false;
        }
        i += 1;
    }
    true
}

} // verus!
