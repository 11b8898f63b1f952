use collabs_code::oidc::{authorization_code, authorization_scopes, code_from_query_pairs, OidcError, OidcState};

fn state(revocation: Option<&str>, redirect: &str) -> OidcState {
    OidcState {
        client_id: "id".to_string(),
        client_secret: "secret".to_string(),
        issuer_url: "https://accounts.google.com".to_string(),
        redirect_url: redirect.to_string(),
        revocation_endpoint: revocation.map(|s| s.to_string()),
        access_token: Some("tok".to_string()),
        refresh_token: Some("ref".to_string()),
        code_verifier: Some("ver".to_string()),
    }
}

#[test]
fn new_state_resets_session() {
    let old = state(Some("https://oauth2.googleapis.com/revoke"), "http://x/");
    let s = old.new("cid".to_string(), "csecret".to_string(), "https://issuer.example".to_string());
    assert_eq!(s.client_id, "cid");
    assert_eq!(s.client_secret, "csecret");
    assert_eq!(s.issuer_url, "https://issuer.example");
    assert_eq!(s.redirect_url, "http://localhost:8080/api/auth/google_auth/callback");
    assert_eq!(s.revocation_endpoint.as_deref(), Some("https://oauth2.googleapis.com/revoke"));
    assert!(s.access_token.is_none() && s.refresh_token.is_none() && s.code_verifier.is_none());
}

#[test]
fn scopes_requested() {
    assert_eq!(authorization_scopes(), vec!["email".to_string(), "profile".to_string()]);
}

#[test]
fn code_from_pairs_takes_first() {
    let pairs = vec![
        ("state".to_string(), "s".to_string()),
        ("code".to_string(), "first".to_string()),
        ("code".to_string(), "second".to_string()),
    ];
    assert_eq!(code_from_query_pairs(&pairs), Some("first".to_string()));
    assert_eq!(code_from_query_pairs(&vec![]), None);
}

#[test]
fn code_from_query_string() {
    assert_eq!(authorization_code("state=xyz&code=abc"), Some("abc".to_string()));
    assert_eq!(authorization_code("code=a%20b+c"), Some("a b c".to_string()));
    assert_eq!(authorization_code("state=xyz"), None);
    assert_eq!(authorization_code(""), None);
}

#[test]
fn client_settings_checks() {
    let ok = state(Some("https://oauth2.googleapis.com/revoke"), "http://localhost:8080/cb");
    let c = ok.client_settings().unwrap();
    assert_eq!(c.client_id, "id");
    assert_eq!(c.client_secret, "secret");
    assert_eq!(c.redirect_url, "http://localhost:8080/cb");
    assert_eq!(c.revocation_url, "https://oauth2.googleapis.com/revoke");
    assert_eq!(state(None, "http://localhost/").client_settings().err(), Some(OidcError::MissingRevocationEndpoint));
    assert_eq!(state(None, "not a url").client_settings().err(), Some(OidcError::InvalidRedirectUrl));
    assert_eq!(
        state(Some("revoke"), "http://localhost/").client_settings().err(),
        Some(OidcError::InvalidRevocationUrl)
    );
}

#[test]
fn client_settings_given_checks() {
    let s = state(Some("https://r"), "http://x/");
    assert_eq!(s.client_settings_checked(false, true).err(), Some(OidcError::InvalidRedirectUrl));
    assert_eq!(s.client_settings_checked(true, false).err(), Some(OidcError::InvalidRevocationUrl));
    assert!(s.client_settings_checked(true, true).is_ok());
}

#[test]
fn discovery_issuer_checks() {
    let s = state(None, "http://x/");
    assert_eq!(s.discovery_issuer().unwrap(), "https://accounts.google.com");
    let mut bad = state(None, "http://x/");
    bad.issuer_url = "accounts.google.com".to_string();
    assert_eq!(bad.discovery_issuer().err(), Some(OidcError::InvalidIssuerUrl));
    assert_eq!(s.discovery_issuer_checked(false).err(), Some(OidcError::InvalidIssuerUrl));
}
