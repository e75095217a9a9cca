use b2::api::{ApiError, ApiInfo, AuthReply, AuthResponse, StorageApi};
use b2::config::Config;
use b2::error::Error;
use b2::executor::{is_success, Executor, RetryAction, RetryEvent, RetryPhase, REAUTH_BUDGET};

fn session() -> Config {
    let mut cfg = Config::default();
    cfg.key_id = "id".to_string();
    cfg.key = "key".to_string();
    cfg.auth_token = "tok0".to_string();
    cfg
}

fn granted(token: &str) -> AuthReply {
    AuthReply::Granted(AuthResponse {
        account_id: "acct".to_string(),
        api_info: ApiInfo {
            storage_api: StorageApi {
                absolute_minimum_part_size: 5_000_000,
                api_url: "https://api.example".to_string(),
                bucket_id: None,
                bucket_name: None,
                capabilities: Vec::new(),
                download_url: "https://dl.example".to_string(),
                info_type: "storageApi".to_string(),
                name_prefix: None,
                recommended_part_size: 100_000_000,
                s3_api_url: String::new(),
            },
        },
        application_key_expiration_timestamp: None,
        authorization_token: token.to_string(),
    })
}

fn error(code: &str) -> ApiError {
    ApiError { code: code.to_string(), message: "said the service".to_string(), status: 401 }
}

/// Drives one call against scripted responses: each entry is a status and the
/// code of its error body. Gives the final action, the number of invocations
/// and the number of reauthorizations asked for.
fn drive(cfg: &mut Config, script: &[(u16, &str)]) -> (RetryAction, usize, usize, Executor) {
    let mut retry = Executor::new();
    let mut invocations = 0;
    let mut reauthorizations = 0;
    loop {
        let (status, code) = script[invocations];
        invocations += 1;
        match cfg.send_request_res(&mut retry, RetryEvent::Responded { status }) {
            RetryAction::ReadError => {}
            done => return (done, invocations, reauthorizations, retry),
        }
        let event = RetryEvent::ErrorRead { error: error(code), url: "https://api.example/call".to_string() };
        match cfg.send_request_res(&mut retry, event) {
            RetryAction::Reauthorize { authorization } => {
                assert_eq!(authorization, "BasicaWQ6a2V5");
            }
            done => return (done, invocations, reauthorizations, retry),
        }
        reauthorizations += 1;
        let token = format!("tok{}", reauthorizations);
        match cfg.send_request_res(&mut retry, RetryEvent::Reauthorized(granted(&token))) {
            RetryAction::Invoke => {}
            done => return (done, invocations, reauthorizations, retry),
        }
    }
}

#[test]
fn success_is_returned_at_once() {
    let mut cfg = session();
    let (action, invocations, reauthorizations, retry) = drive(&mut cfg, &[(200, "")]);
    assert!(matches!(action, RetryAction::Return));
    assert_eq!(invocations, 1);
    assert_eq!(reauthorizations, 0);
    assert_eq!(retry.phase, RetryPhase::Returned);
    assert_eq!(cfg.auth_token, "tok0");
}

#[test]
fn two_expiries_then_success_returns_the_third_response() {
    let mut cfg = session();
    let script = [(401, "expired_auth_token"), (401, "expired_auth_token"), (200, "")];
    let (action, invocations, reauthorizations, retry) = drive(&mut cfg, &script);
    assert!(matches!(action, RetryAction::Return));
    assert_eq!(invocations, 3);
    assert_eq!(reauthorizations, 2);
    assert_eq!(retry.reauthorizations, 2);
    assert_eq!(retry.loops, 3);
    assert_eq!(cfg.auth_token, "tok2");
}

#[test]
fn five_expiries_exhaust_the_budget() {
    let mut cfg = session();
    let script = [
        (401, "expired_auth_token"),
        (401, "expired_auth_token"),
        (401, "expired_auth_token"),
        (401, "expired_auth_token"),
        (401, "expired_auth_token"),
        (401, "expired_auth_token"),
    ];
    let (action, invocations, reauthorizations, retry) = drive(&mut cfg, &script);
    assert!(matches!(action, RetryAction::Fail(Error::AuthExhausted)));
    assert_eq!(invocations, 6);
    assert_eq!(reauthorizations, 5);
    assert_eq!(retry.phase, RetryPhase::Exhausted);
    assert_eq!(retry.loops, 0);
}

#[test]
fn success_after_five_expiries_comes_too_late() {
    let mut cfg = session();
    let script = [
        (401, "expired_auth_token"),
        (401, "expired_auth_token"),
        (401, "expired_auth_token"),
        (401, "expired_auth_token"),
        (401, "expired_auth_token"),
        (200, ""),
    ];
    let (action, _, reauthorizations, _) = drive(&mut cfg, &script);
    assert!(matches!(action, RetryAction::Fail(Error::AuthExhausted)));
    assert_eq!(reauthorizations, 5);
}

#[test]
fn four_expiries_then_success_still_returns() {
    let mut cfg = session();
    let script = [
        (401, "expired_auth_token"),
        (401, "expired_auth_token"),
        (401, "expired_auth_token"),
        (401, "expired_auth_token"),
        (200, ""),
    ];
    let (action, invocations, reauthorizations, _) = drive(&mut cfg, &script);
    assert!(matches!(action, RetryAction::Return));
    assert_eq!(invocations, 5);
    assert_eq!(reauthorizations, 4);
}

#[test]
fn other_rejections_are_not_retried() {
    let mut cfg = session();
    let (action, invocations, reauthorizations, retry) = drive(&mut cfg, &[(400, "bad_request"), (200, "")]);
    match action {
        RetryAction::Fail(Error::Api { code, message, url }) => {
            assert_eq!(code, "bad_request");
            assert_eq!(message, "said the service");
            assert_eq!(url, "https://api.example/call");
        }
        other => panic!("unexpected {:?}", other),
    }
    assert_eq!(invocations, 1);
    assert_eq!(reauthorizations, 0);
    assert_eq!(retry.phase, RetryPhase::Rejected);
}

#[test]
fn only_status_200_is_success() {
    assert!(is_success(200));
    assert!(!is_success(201));
    assert!(!is_success(401));
    assert_eq!(REAUTH_BUDGET, 5);
    let mut retry = Executor::new();
    assert!(matches!(retry.on_response(201), RetryAction::ReadError));
    let mut retry = Executor::new();
    assert!(matches!(retry.on_response(200), RetryAction::Return));
}

#[test]
fn refused_reauthorization_ends_the_call() {
    let mut cfg = session();
    let mut retry = Executor::new();
    cfg.send_request_res(&mut retry, RetryEvent::Responded { status: 401 });
    cfg.send_request_res(
        &mut retry,
        RetryEvent::ErrorRead { error: error("expired_auth_token"), url: "u".to_string() },
    );
    let refusal = AuthReply::Refused(error("unauthorized"));
    let action = cfg.send_request_res(&mut retry, RetryEvent::Reauthorized(refusal));
    match action {
        RetryAction::Fail(Error::Auth { code, .. }) => assert_eq!(code, "unauthorized"),
        other => panic!("unexpected {:?}", other),
    }
    assert_eq!(retry.phase, RetryPhase::Refused);
    assert_eq!(cfg.auth_token, "tok0");
}
