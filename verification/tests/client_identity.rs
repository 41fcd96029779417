use client_identity::error::ClientIdError;
use client_identity::identity::{get_or_create_client_id, is_valid_client_id, ClientIdResolution};
use client_identity::payload::{analytics_payload, json_escape_str};
use client_identity::text::trim_spaces;

#[test]
fn absent_store_creates_valid_id() {
    match get_or_create_client_id(None) {
        ClientIdResolution::Created(id) => {
            assert!(is_valid_client_id(&id));
        }
        ClientIdResolution::Existing(_) => panic!("an absent store must mint a fresh identifier"),
    }
}

#[test]
fn populated_store_returns_content_verbatim() {
    match get_or_create_client_id(Some("abc-123")) {
        ClientIdResolution::Existing(id) => assert_eq!(id, "abc-123"),
        ClientIdResolution::Created(_) => panic!("populated content is authoritative"),
    }
}

#[test]
fn populated_store_content_is_trimmed() {
    match get_or_create_client_id(Some("  abc-123\n")) {
        ClientIdResolution::Existing(id) => assert_eq!(id, "abc-123"),
        ClientIdResolution::Created(_) => panic!("populated content is authoritative"),
    }
}

#[test]
fn empty_store_behaves_as_absent() {
    match get_or_create_client_id(Some("")) {
        ClientIdResolution::Created(id) => assert!(is_valid_client_id(&id)),
        ClientIdResolution::Existing(_) => panic!("empty content must mint a fresh identifier"),
    }
}

#[test]
fn whitespace_only_store_behaves_as_absent() {
    match get_or_create_client_id(Some(" \t\r\n ")) {
        ClientIdResolution::Created(id) => assert!(is_valid_client_id(&id)),
        ClientIdResolution::Existing(_) => {
            panic!("whitespace-only content must mint a fresh identifier")
        }
    }
}

#[test]
fn unicode_whitespace_only_store_behaves_as_absent() {
    // no-break space, en quad, and ideographic space are White_Space too
    match get_or_create_client_id(Some("\u{a0}\u{2000}\u{3000}")) {
        ClientIdResolution::Created(id) => assert!(is_valid_client_id(&id)),
        ClientIdResolution::Existing(_) => {
            panic!("whitespace-only content must mint a fresh identifier")
        }
    }
}

#[test]
fn created_id_reads_back_identically() {
    let created = match get_or_create_client_id(None) {
        ClientIdResolution::Created(id) => id,
        ClientIdResolution::Existing(_) => panic!("an absent store must mint a fresh identifier"),
    };
    let first = match get_or_create_client_id(Some(&created)) {
        ClientIdResolution::Existing(id) => id,
        ClientIdResolution::Created(_) => panic!("a populated store must be read back"),
    };
    let second = match get_or_create_client_id(Some(&created)) {
        ClientIdResolution::Existing(id) => id,
        ClientIdResolution::Created(_) => panic!("a populated store must be read back"),
    };
    assert_eq!(first, created);
    assert_eq!(first, second);
}

#[test]
fn valid_id_shape_is_checked() {
    assert!(is_valid_client_id("017f22e2-79b0-7cc3-98c4-dc0c0c07398f"));
    assert!(!is_valid_client_id(""));
    assert!(!is_valid_client_id("abc-123"));
    // right shape, wrong version digit
    assert!(!is_valid_client_id("017f22e2-79b0-4cc3-98c4-dc0c0c07398f"));
    // uppercase digits are not the stored form
    assert!(!is_valid_client_id("017F22E2-79B0-7CC3-98C4-DC0C0C07398F"));
    // a separator out of place
    assert!(!is_valid_client_id("017f22e2x79b0-7cc3-98c4-dc0c0c07398f"));
}

#[test]
fn trim_strips_surrounding_whitespace_only() {
    assert_eq!(trim_spaces(""), "");
    assert_eq!(trim_spaces("   \t\n"), "");
    assert_eq!(trim_spaces("abc-123"), "abc-123");
    assert_eq!(trim_spaces("\t a b \n"), "a b");
    assert_eq!(trim_spaces("\u{a0}\u{2028}x\u{205f}\u{3000}"), "x");
    assert_eq!(trim_spaces("\u{85}\u{1680}\u{200a}\u{202f}\u{2029}"), "");
}

#[test]
fn payload_has_exact_json_form() {
    assert_eq!(
        analytics_payload("abc-123", "linux"),
        "{\"event\":\"init\",\"client_id\":\"abc-123\",\"os\":\"linux\"}"
    );
}

#[test]
fn payload_escapes_embedded_strings() {
    assert_eq!(
        analytics_payload("a\"b", "l\\x"),
        "{\"event\":\"init\",\"client_id\":\"a\\\"b\",\"os\":\"l\\\\x\"}"
    );
}

#[test]
fn json_escape_handles_controls_and_quotes() {
    assert_eq!(json_escape_str("plain"), "plain");
    assert_eq!(json_escape_str("a\"b\\c\nd"), "a\\\"b\\\\c\\u000ad");
    assert_eq!(json_escape_str("\u{0}\u{1f}"), "\\u0000\\u001f");
}

#[test]
fn error_messages_are_exact() {
    assert_eq!(
        ClientIdError::DirectoryResolution.message(),
        "Failed to resolve app data directory"
    );
    assert_eq!(
        ClientIdError::DirectoryCreation(String::from("/data/app")).message(),
        "Failed to create directory: /data/app"
    );
    assert_eq!(
        ClientIdError::FileWrite(String::from("/data/app/client_id.txt")).message(),
        "Failed to write client ID to: /data/app/client_id.txt"
    );
}
