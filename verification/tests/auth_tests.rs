use syezw_sync_backend::auth::check_api_key;

#[test]
fn empty_secret_allows_everything() {
    let expected: Vec<u8> = Vec::new();
    assert!(check_api_key(&expected, None));
    let anything = b"whatever".to_vec();
    assert!(check_api_key(&expected, Some(&anything)));
}

#[test]
fn matching_credential_is_allowed() {
    let expected = b"s3cr3t".to_vec();
    let provided = b"s3cr3t".to_vec();
    assert!(check_api_key(&expected, Some(&provided)));
}

#[test]
fn missing_credential_is_denied() {
    let expected = b"s3cr3t".to_vec();
    assert!(!check_api_key(&expected, None));
}

#[test]
fn wrong_length_credential_is_denied() {
    let expected = b"s3cr3t".to_vec();
    let provided = b"s3cr3t-long".to_vec();
    assert!(!check_api_key(&expected, Some(&provided)));
}

#[test]
fn same_length_wrong_credential_is_denied() {
    let expected = b"s3cr3t".to_vec();
    let provided = b"s3cr3x".to_vec();
    assert!(!check_api_key(&expected, Some(&provided)));
}

#[test]
fn single_differing_middle_byte_is_denied() {
    let expected = b"abcdef".to_vec();
    let provided = b"abcXef".to_vec();
    assert!(!check_api_key(&expected, Some(&provided)));
}
