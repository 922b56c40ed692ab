use featherfly::auth::validate_bearer_header;

#[test]
fn accepts_valid_bearer_token() {
    assert!(validate_bearer_header("Bearer secret-token", "secret-token"));
}

#[test]
fn rejects_missing_bearer_prefix() {
    assert!(!validate_bearer_header("secret-token", "secret-token"));
}

#[test]
fn rejects_wrong_token() {
    assert!(!validate_bearer_header("Bearer wrong", "secret-token"));
}

#[test]
fn rejects_empty_header() {
    assert!(!validate_bearer_header("", "secret-token"));
}

#[test]
fn rejects_lowercase_scheme_and_extra_space() {
    assert!(!validate_bearer_header("bearer secret-token", "secret-token"));
    assert!(!validate_bearer_header("Bearer  secret-token", "secret-token"));
    assert!(!validate_bearer_header("Bearer secret-token ", "secret-token"));
}
