use lrapiut::envelope::{read_envelope, Envelope};
use lrapiut::error::{ClientError, TokenStage};
use lrapiut::gateway::{FetchCall, FetchPhase, FetchStep};
use serde_json::Value;

/// Drives one fetch against canned responses, counting GETs and logins.
fn drive(responses: &[&[u8]]) -> (Result<Value, ClientError>, usize, usize) {
    let mut call = FetchCall::new();
    let mut step = call.start();
    let (mut gets, mut logins) = (0usize, 0usize);
    loop {
        step = match step {
            FetchStep::Get => {
                let body = responses[gets.min(responses.len() - 1)];
                gets += 1;
                call.on_response(read_envelope(Some(b"application/json"), body))
            },
            FetchStep::Login => {
                logins += 1;
                call.on_login_finished(Ok(()))
            },
            FetchStep::Deliver(env) => return (Ok(env.into_value()), gets, logins),
            FetchStep::Fail(e) => return (Err(e), gets, logins),
            FetchStep::Idle => panic!("fetch stalled"),
        };
    }
}

fn envelope(body: &[u8]) -> Envelope {
    read_envelope(Some(b"application/json"), body).unwrap()
}

#[test]
fn always_expired_fails_after_one_retry() {
    let (r, gets, logins) = drive(&[br#"{"redirect":"/cas"}"#]);
    assert_eq!(r, Err(ClientError::AuthenticationFailed));
    assert_eq!((gets, logins), (2, 1));
}

#[test]
fn recovers_after_login() {
    let (r, gets, logins) = drive(&[br#"{"redirect":"/cas"}"#, br#"{"ok":2}"#]);
    assert_eq!(r.unwrap(), serde_json::from_str::<Value>(r#"{"ok":2}"#).unwrap());
    assert_eq!((gets, logins), (2, 1));
}

#[test]
fn valid_session_takes_one_get() {
    let (r, gets, logins) = drive(&[br#"[1,2,3]"#]);
    assert_eq!(r.unwrap(), serde_json::from_str::<Value>("[1,2,3]").unwrap());
    assert_eq!((gets, logins), (1, 0));
}

#[test]
fn transport_failure_is_surfaced() {
    let mut call = FetchCall::new();
    assert!(matches!(call.start(), FetchStep::Get));
    assert!(matches!(call.on_response(Err(ClientError::Network)), FetchStep::Fail(ClientError::Network)));
    assert_eq!(call.phase(), FetchPhase::Finished);
}

#[test]
fn finished_fetch_stays_idle() {
    let mut call = FetchCall::new();
    call.start();
    assert!(matches!(call.on_response(Ok(envelope(b"{}"))), FetchStep::Deliver(_)));
    assert!(matches!(call.on_login_finished(Ok(())), FetchStep::Idle));
    assert!(matches!(call.on_response(Ok(envelope(b"{}"))), FetchStep::Idle));
    assert!(matches!(call.start(), FetchStep::Idle));
}

#[test]
fn login_before_response_is_ignored() {
    let mut call = FetchCall::new();
    assert!(matches!(call.on_login_finished(Ok(())), FetchStep::Idle));
    assert_eq!(call.phase(), FetchPhase::Ready);
}

#[test]
fn failed_login_is_surfaced() {
    let mut call = FetchCall::new();
    assert!(matches!(call.start(), FetchStep::Get));
    assert!(matches!(call.on_response(Ok(envelope(br#"{"redirect":"/cas"}"#))), FetchStep::Login));
    let step = call.on_login_finished(Err(ClientError::TokenNotFound(TokenStage::NoMatch)));
    assert!(matches!(step, FetchStep::Fail(ClientError::TokenNotFound(TokenStage::NoMatch))));
    assert_eq!(call.phase(), FetchPhase::Finished);
}

#[test]
fn plain_text_is_delivered_as_null() {
    let mut call = FetchCall::new();
    call.start();
    match call.on_response(read_envelope(Some(b"text/plain"), b"OK done")) {
        FetchStep::Deliver(env) => assert_eq!(env.into_value(), Value::Null),
        _ => panic!("plain text was not delivered"),
    }
}
