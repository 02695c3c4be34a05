use cica::setup::{detect_credential_type, validate_oauth_token, CredentialType};

#[test]
fn credentials_are_told_apart_by_their_beginning() {
    assert_eq!(detect_credential_type("sk-ant-oat01-abc"), CredentialType::OAuthToken);
    assert_eq!(detect_credential_type("sk-ant-api03-abc"), CredentialType::ApiKey);
    assert_eq!(detect_credential_type(" sk-ant-oat01"), CredentialType::ApiKey);
    assert_eq!(detect_credential_type(""), CredentialType::ApiKey);
}

#[test]
fn setup_tokens_are_checked_by_form() {
    let good = format!("sk-ant-oat01-{}", "x".repeat(67));
    assert_eq!(good.len(), 80);
    assert_eq!(validate_oauth_token(&good), Ok(()));
    assert_eq!(validate_oauth_token(&format!("  {}\n", good)), Ok(()));
    assert_eq!(
        validate_oauth_token("sk-ant-api03-abc").unwrap_err(),
        "Invalid token format: expected token starting with sk-ant-oat"
    );
    assert_eq!(
        validate_oauth_token(&good[..79]).unwrap_err(),
        "Token looks too short (got 79 chars, expected at least 80). Paste the full setup token."
    );
    assert_eq!(
        validate_oauth_token("sk-ant-oat").unwrap_err(),
        "Token looks too short (got 10 chars, expected at least 80). Paste the full setup token."
    );
}
