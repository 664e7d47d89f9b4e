use fcm_client::{
    send_endpoint, FcmClientError, OauthError, OauthErrorAccessTokenStatus, SendAttempts, SendStep,
    MAX_SEND_ATTEMPTS,
};

#[derive(Debug)]
struct BackendError;

impl OauthError for BackendError {}

impl OauthErrorAccessTokenStatus for BackendError {
    fn access_token_missing(&self) -> bool {
        false
    }

    fn is_access_token_missing_even_if_server_requests_completed(&self) -> bool {
        false
    }
}

fn step(
    attempts: &mut SendAttempts,
    status: u16,
    retry_after: Option<&[u8]>,
    now: i64,
) -> Result<SendStep, FcmClientError<BackendError>> {
    attempts.on_response::<BackendError>(status, retry_after, now)
}

#[test]
fn endpoint_holds_project_id() {
    assert_eq!(
        send_endpoint("my-project"),
        "https://fcm.googleapis.com/v1/projects/my-project/messages:send"
    );
}

#[test]
fn success_is_delivered() {
    let mut a = SendAttempts::new();
    assert_eq!(a.attempts(), 1);
    assert_eq!(step(&mut a, 200, None, 0).unwrap(), SendStep::Deliver);
    assert_eq!(step(&mut a, 204, Some(b"junk\xff"), 0).unwrap(), SendStep::Deliver);
    assert_eq!(a.attempts(), 1);
}

#[test]
fn auth_failure_is_not_retried() {
    let mut a = SendAttempts::new();
    assert_eq!(step(&mut a, 401, None, 0).unwrap(), SendStep::RejectAuth);
    assert_eq!(step(&mut a, 403, Some(b"5"), 0).unwrap(), SendStep::RejectAuth);
    assert_eq!(a.attempts(), 1);
}

#[test]
fn backoff_with_delay_is_retried() {
    let mut a = SendAttempts::new();
    assert_eq!(step(&mut a, 429, Some(b"3"), 0).unwrap(), SendStep::Retry { wait_secs: 3 });
    assert_eq!(a.attempts(), 2);
    assert_eq!(step(&mut a, 503, Some(b"7"), 0).unwrap(), SendStep::Retry { wait_secs: 7 });
    assert_eq!(a.attempts(), 3);
}

#[test]
fn backoff_with_date_waits_until_it() {
    let mut a = SendAttempts::new();
    let now = 1_445_412_480 - 30;
    let s = step(&mut a, 500, Some(b"Wed, 21 Oct 2015 07:28:00 GMT"), now).unwrap();
    assert_eq!(s, SendStep::Retry { wait_secs: 30 });
    let s = step(&mut a, 500, Some(b"Wed, 21 Oct 2015 07:28:00 GMT"), now + 100).unwrap();
    assert_eq!(s, SendStep::Retry { wait_secs: 0 });
}

#[test]
fn failure_without_hint_is_not_retried() {
    let mut a = SendAttempts::new();
    assert_eq!(step(&mut a, 500, None, 0).unwrap(), SendStep::Fail);
    assert_eq!(step(&mut a, 429, None, 0).unwrap(), SendStep::Fail);
    assert_eq!(step(&mut a, 404, Some(b"5"), 0).unwrap(), SendStep::Fail);
    assert_eq!(step(&mut a, 400, Some(b"\xff"), 0).unwrap(), SendStep::Fail);
    assert_eq!(a.attempts(), 1);
}

#[test]
fn retries_stop_at_bound() {
    let mut a = SendAttempts::new();
    let mut retries = 0;
    while let SendStep::Retry { .. } = step(&mut a, 429, Some(b"1"), 0).unwrap() {
        retries += 1;
    }
    assert_eq!(retries, MAX_SEND_ATTEMPTS - 1);
    assert_eq!(a.attempts(), MAX_SEND_ATTEMPTS);
    assert_eq!(step(&mut a, 503, Some(b"1"), 0).unwrap(), SendStep::Fail);
}

#[test]
fn undecodable_hint_fails_without_retry() {
    let mut a = SendAttempts::new();
    let r = step(&mut a, 429, Some(b"\x80\x81"), 0);
    assert!(matches!(r, Err(FcmClientError::RetryAfterHttpHeaderIsNotString)));
    assert_eq!(a.attempts(), 1);
}

#[test]
fn unreadable_hint_fails_without_retry() {
    let mut a = SendAttempts::new();
    match step(&mut a, 503, Some(b"later please"), 0) {
        Err(FcmClientError::RetryAfterHttpHeaderInvalid { value, .. }) => {
            assert_eq!(value, "later please")
        }
        _ => panic!("expected an invalid Retry-After error"),
    }
    assert_eq!(a.attempts(), 1);
}
