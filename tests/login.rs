use lrapiut::credentials::Credentials;
use lrapiut::error::{ClientError, TokenStage};
use lrapiut::login::{LoginFlow, LoginState};

#[test]
fn full_login_flow() {
    let creds = Credentials::new("alice".to_string(), "secret".to_string());
    let mut flow = LoginFlow::new();
    assert_eq!(flow.state(), LoginState::Unauthenticated);
    assert_eq!(flow.outcome(), None);
    flow.on_login_page(Some(r#"<form><input name="execution" value="tok-1"></form>"#));
    assert_eq!(flow.state(), LoginState::TokenFetched);
    let form = flow.submission_form(&creds).unwrap();
    let expected: Vec<(String, String)> = vec![
        ("username".to_string(), "alice".to_string()),
        ("password".to_string(), "secret".to_string()),
        ("execution".to_string(), "tok-1".to_string()),
        ("_eventId".to_string(), "submit".to_string()),
        ("geolocation".to_string(), "".to_string()),
    ];
    assert_eq!(form, expected);
    assert_eq!(flow.state(), LoginState::Submitted);
    assert!(flow.submission_form(&creds).is_none());
    flow.on_submitted(true);
    assert_eq!(flow.state(), LoginState::Authenticated);
    assert_eq!(flow.outcome(), Some(Ok(())));
}

#[test]
fn login_page_unreachable() {
    let mut flow = LoginFlow::new();
    flow.on_login_page(None);
    assert_eq!(flow.outcome(), Some(Err(ClientError::Network)));
}

#[test]
fn login_page_without_token() {
    let creds = Credentials::new("a".to_string(), "b".to_string());
    let mut flow = LoginFlow::new();
    flow.on_login_page(Some("<html><body>maintenance</body></html>"));
    assert_eq!(flow.state(), LoginState::Failed(ClientError::TokenNotFound(TokenStage::NoMatch)));
    assert!(flow.submission_form(&creds).is_none());
}

#[test]
fn submission_transport_failure() {
    let creds = Credentials::new("a".to_string(), "b".to_string());
    let mut flow = LoginFlow::new();
    flow.on_login_page(Some(r#"<input name="execution" value="t">"#));
    assert!(flow.submission_form(&creds).is_some());
    flow.on_submitted(false);
    assert_eq!(flow.outcome(), Some(Err(ClientError::AuthSubmission)));
}

#[test]
fn events_out_of_order_change_nothing() {
    let mut flow = LoginFlow::new();
    flow.on_submitted(true);
    assert_eq!(flow.state(), LoginState::Unauthenticated);
    flow.on_login_page(Some(r#"<input name="execution" value="t">"#));
    flow.on_login_page(None);
    assert_eq!(flow.state(), LoginState::TokenFetched);
}
