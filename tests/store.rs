use spotic::auth::AuthError;
use spotic::store::{
    app_data_dir, credentials_path, data_dir, decode_credentials, encode_credentials, join,
    load_identity_from, tokens_path, ClientCredentials, StoredFile,
};

#[test]
fn identity_round_trip() {
    for id in ["abc123", "with \"quotes\" and \\ slash", "", "ünïcödé", "\u{1f}\t\u{8}\u{c}\r"] {
        let c = ClientCredentials::new(id.to_string());
        let text = encode_credentials(&c);
        let back = load_identity_from(StoredFile::Text(text)).ok().unwrap();
        assert_eq!(back.client_id, id);
    }
}

#[test]
fn identity_written_form() {
    let c = ClientCredentials::new("abc".to_string());
    assert_eq!(encode_credentials(&c), "{\"client_id\":\"abc\"}");
    let c = ClientCredentials::new("a\"b".to_string());
    assert_eq!(encode_credentials(&c), "{\"client_id\":\"a\\\"b\"}");
    let c = ClientCredentials::new("a\u{1}\n\u{7f}é\\".to_string());
    assert_eq!(encode_credentials(&c), "{\"client_id\":\"a\\u0001\\n\u{7f}é\\\\\"}");
}

#[test]
fn truncated_identity_is_corrupt_not_missing() {
    assert!(matches!(
        load_identity_from(StoredFile::Text(String::new())),
        Err(AuthError::Corruption)
    ));
    assert!(matches!(load_identity_from(StoredFile::Absent), Err(AuthError::NotFound)));
    assert!(matches!(load_identity_from(StoredFile::Unreadable), Err(AuthError::Storage)));
}

#[test]
fn malformed_identity_is_corrupt() {
    for text in ["{", "[]", "{\"client\":\"x\"}", "{\"client_id\":5}", "null"] {
        assert!(matches!(decode_credentials(text), Err(AuthError::Corruption)), "{}", text);
    }
    let c = decode_credentials(" { \"client_id\" : \"x\", \"extra\": 1 } ").ok().unwrap();
    assert_eq!(c.client_id, "x");
}

#[test]
fn storage_paths() {
    assert_eq!(join("/home/a/.local/share", "spotic"), "/home/a/.local/share/spotic");
    assert_eq!(join("/data/", "spotic"), "/data/spotic");
    assert_eq!(join("", "x"), "x");
    assert_eq!(app_data_dir(None), "./spotic");
    assert_eq!(app_data_dir(Some("/d".to_string())), "/d/spotic");
    let dir = data_dir();
    assert!(dir.ends_with("spotic"));
    assert_eq!(tokens_path(), format!("{}/tokens.json", dir));
    assert_eq!(credentials_path(), format!("{}/credentials.json", dir));
}
