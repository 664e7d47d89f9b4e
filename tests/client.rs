use std::time::Duration;

use fcm_client::{
    FcmClient, FcmClientBuilder, FcmClientError, OauthClient, OauthError,
    OauthErrorAccessTokenStatus,
};

#[derive(Debug)]
struct BackendError {
    token_missing: bool,
}

impl OauthError for BackendError {}

impl OauthErrorAccessTokenStatus for BackendError {
    fn access_token_missing(&self) -> bool {
        self.token_missing
    }

    fn is_access_token_missing_even_if_server_requests_completed(&self) -> bool {
        self.token_missing
    }
}

struct Backend;

impl OauthClient for Backend {
    type Error = BackendError;
}

#[test]
fn builder_starts_empty() {
    let b: FcmClientBuilder<Backend> = FcmClient::<Backend>::builder();
    assert!(b.service_account_key_json_path_value().is_none());
    assert!(b.token_cache_json_path_value().is_none());
    assert!(b.fcm_request_timeout_value().is_none());
    let n: FcmClientBuilder<Backend> = FcmClientBuilder::new();
    assert!(n.service_account_key_json_path_value().is_none());
}

#[test]
fn builder_keeps_settings() {
    let b = FcmClientBuilder::<Backend>::new()
        .service_account_key_json_path("/keys/service.json")
        .token_cache_json_path("/cache/token.json")
        .fcm_request_timeout(Duration::from_secs(600));
    assert_eq!(b.service_account_key_json_path_value().unwrap(), "/keys/service.json");
    assert_eq!(b.token_cache_json_path_value().unwrap(), "/cache/token.json");
    assert_eq!(b.fcm_request_timeout_value(), Some(Duration::from_secs(600)));
    let c = b.clone().fcm_request_timeout(Duration::from_millis(1));
    assert_eq!(c.fcm_request_timeout_value(), Some(Duration::from_millis(1)));
    assert_eq!(c.service_account_key_json_path_value().unwrap(), "/keys/service.json");
}

#[test]
fn explicit_key_path_wins() {
    let b = FcmClientBuilder::<Backend>::new().service_account_key_json_path("/keys/a.json");
    let r = b.resolve_key_path(|| -> Result<String, dotenvy::Error> {
        panic!("the environment is not read when a path is set")
    });
    assert_eq!(r.unwrap(), "/keys/a.json");
}

#[test]
fn key_path_from_environment() {
    let b = FcmClientBuilder::<Backend>::new();
    let r = b.resolve_key_path(|| Ok(String::from("/env/key.json")));
    assert_eq!(r.unwrap(), "/env/key.json");
}

#[test]
fn missing_key_path_is_configuration_error() {
    let b = FcmClientBuilder::<Backend>::new();
    let r = b.resolve_key_path(|| dotenvy::var("FCM_CLIENT_KEY_PATH_THAT_IS_NEVER_SET"));
    assert!(matches!(r, Err(FcmClientError::Dotenvy(_))));
    let r = b.resolve_key_path(|| Err(dotenvy::Error::LineParse(String::from("x=\"y"), 2)));
    assert!(matches!(r, Err(FcmClientError::Dotenvy(dotenvy::Error::LineParse(_, 2)))));
}

#[test]
fn http_client_is_made() {
    let b = FcmClientBuilder::<Backend>::new().fcm_request_timeout(Duration::from_millis(1));
    let timed = b.http_client().unwrap();
    assert_eq!(timed.request_timeout(), Some(Duration::from_millis(1)));
    let client = FcmClient::from_parts(Backend, timed);
    assert_eq!(client.http_client().request_timeout(), Some(Duration::from_millis(1)));
    let plain = FcmClientBuilder::<Backend>::new();
    let http = plain.http_client().unwrap();
    assert_eq!(http.request_timeout(), None);
    let client = FcmClient::from_parts(Backend, http);
    let _backend: &Backend = client.oauth_client();
    let _http: &reqwest::Client = client.http_client().client();
    assert_eq!(client.http_client().request_timeout(), None);
}

#[test]
fn access_token_missing_only_from_backend() {
    let dead: FcmClientError<BackendError> = FcmClientError::Oauth(BackendError { token_missing: true });
    assert!(dead.is_access_token_missing_even_if_server_requests_completed());
    let transient: FcmClientError<BackendError> =
        FcmClientError::Oauth(BackendError { token_missing: false });
    assert!(!transient.is_access_token_missing_even_if_server_requests_completed());
    let other: FcmClientError<BackendError> = FcmClientError::RetryAfterHttpHeaderIsNotString;
    assert!(!other.is_access_token_missing_even_if_server_requests_completed());
    let status: FcmClientError<BackendError> =
        FcmClientError::UnexpectedHttpStatus { status: 302, body: String::new() };
    assert!(!status.is_access_token_missing_even_if_server_requests_completed());
    let env: FcmClientError<BackendError> =
        FcmClientError::Dotenvy(dotenvy::Error::LineParse(String::from("a"), 0));
    assert!(!env.is_access_token_missing_even_if_server_requests_completed());
}
