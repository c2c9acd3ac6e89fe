use spotify_core::credential::Credential;
use spotify_core::errors::FacadeError;
use spotify_core::http::HttpOutcome;
use spotify_core::store::TokenStore;
use spotify_core::token::plan_exchange;
use spotify_core::token::plan_refresh;
use spotify_core::token::token_outcome;

fn response(status: u16, body: &str) -> HttpOutcome {
    HttpOutcome::Response { status, body: String::from(body) }
}

#[test]
fn exchange_success_without_refresh_token() {
    let body = r#"{"access_token":"T","token_type":"Bearer","expires_in":3600,"scope":"s"}"#;
    let c = token_outcome(response(200, body), None).expect("a valid envelope");
    assert_eq!(c.access_token, "T");
    assert_eq!(c.token_type, "Bearer");
    assert_eq!(c.expires_in, 3600);
    assert_eq!(c.scope, "s");
    assert_eq!(c.refresh_token, None);
}

#[test]
fn stored_credential_reads_back_the_same() {
    let body = r#"{"access_token":"T","token_type":"Bearer","expires_in":3600,"scope":"s"}"#;
    let c = token_outcome(response(200, body), None).expect("a valid envelope");
    let mut store = TokenStore::new();
    store.set_credential(c);
    let back = store.get_credential().expect("a credential was stored");
    assert_eq!(back.access_token, "T");
    assert_eq!(back.token_type, "Bearer");
    assert_eq!(back.expires_in, 3600);
    assert_eq!(back.scope, "s");
    assert_eq!(back.refresh_token, None);
}

#[test]
fn refresh_token_is_kept_when_the_envelope_brings_one() {
    let body = r#"{"access_token":"T","token_type":"Bearer","expires_in":1,"scope":"s","refresh_token":"R2"}"#;
    let c = token_outcome(response(200, body), Some(String::from("R1"))).unwrap();
    assert_eq!(c.refresh_token.as_deref(), Some("R2"));
}

#[test]
fn previous_refresh_token_is_carried_forward_when_omitted() {
    let body = r#"{"access_token":"T","token_type":"Bearer","expires_in":1,"scope":"s"}"#;
    let c = token_outcome(response(200, body), Some(String::from("R1"))).unwrap();
    assert_eq!(c.refresh_token.as_deref(), Some("R1"));
}

#[test]
fn missing_required_field_is_a_parse_error() {
    let body = r#"{"token_type":"Bearer","expires_in":3600,"scope":"s"}"#;
    let r = token_outcome(response(200, body), None);
    assert!(matches!(r, Err(FacadeError::ParseError(_))));
}

#[test]
fn malformed_json_is_a_parse_error() {
    let r = token_outcome(response(200, "not json"), None);
    assert!(matches!(r, Err(FacadeError::ParseError(_))));
}

#[test]
fn rejection_status_is_a_provider_error_with_the_body() {
    let r = token_outcome(response(400, r#"{"error":"invalid_grant"}"#), None);
    match r {
        Err(FacadeError::ProviderError(body)) => {
            assert_eq!(body, r#"{"error":"invalid_grant"}"#);
        }
        other => panic!("expected a provider error, got {:?}", other.is_ok()),
    }
}

#[test]
fn transport_failure_is_a_transport_error() {
    let r = token_outcome(
        HttpOutcome::Transport { detail: String::from("timed out") },
        None,
    );
    match r {
        Err(FacadeError::TransportError(detail)) => assert_eq!(detail, "timed out"),
        other => panic!("expected a transport error, got {:?}", other.is_ok()),
    }
}

#[test]
fn exchange_request_is_form_encoded() {
    let req = plan_exchange("id", "secret", "http://127.0.0.1:4242/callback", "CODE").unwrap();
    assert_eq!(req.url, "https://accounts.spotify.com/api/token");
    assert_eq!(
        req.form_body,
        "grant_type=authorization_code&code=CODE&redirect_uri=http%3A%2F%2F127.0.0.1%3A4242%2Fcallback&client_id=id&client_secret=secret"
    );
}

#[test]
fn refresh_request_omits_the_redirect_uri() {
    let req = plan_refresh("id", "secret", "R1").unwrap();
    assert_eq!(req.url, "https://accounts.spotify.com/api/token");
    assert_eq!(
        req.form_body,
        "grant_type=refresh_token&refresh_token=R1&client_id=id&client_secret=secret"
    );
    assert!(!req.form_body.contains("redirect_uri"));
}

#[test]
fn missing_client_credentials_are_a_configuration_error() {
    assert!(matches!(
        plan_exchange("", "secret", "uri", "c"),
        Err(FacadeError::ConfigurationError)
    ));
    assert!(matches!(
        plan_exchange("id", "", "uri", "c"),
        Err(FacadeError::ConfigurationError)
    ));
    assert!(matches!(
        plan_refresh("", "secret", "r"),
        Err(FacadeError::ConfigurationError)
    ));
}

#[test]
fn duplicate_copies_every_field() {
    let c = Credential {
        access_token: String::from("T"),
        token_type: String::from("Bearer"),
        expires_in: 7,
        refresh_token: Some(String::from("R")),
        scope: String::from("s"),
    };
    let d = c.duplicate();
    assert_eq!(d.access_token, c.access_token);
    assert_eq!(d.token_type, c.token_type);
    assert_eq!(d.expires_in, c.expires_in);
    assert_eq!(d.refresh_token, c.refresh_token);
    assert_eq!(d.scope, c.scope);
}
