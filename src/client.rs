use vstd::prelude::*;
use std::marker::PhantomData;
use std::time::Duration;
use crate::error::FcmClientError;
use crate::oauth::OauthClient;

verus! {

/// The environment variable that names the service account key file when
/// no path is set on the builder; it may also come from a `.env` file.
pub const SERVICE_ACCOUNT_KEY_ENV: &'static str = "GOOGLE_APPLICATION_CREDENTIALS";

/// The OAuth scope under which tokens for the messaging endpoint are asked.
pub const FIREBASE_OAUTH_SCOPE: &'static str = "https://www.googleapis.com/auth/firebase.messaging";

#[verifier::external_type_specification]
#[verifier::external_body]
pub struct ExReqwestClient(reqwest::Client);

/// The HTTP client that carries the requests of one `FcmClient`, with the
/// request timeout that it was made with.
pub struct HttpClient {
    client: reqwest::Client,
    timeout: Option<Duration>,
}

impl HttpClient {
    /// The request timeout of this client; `None` is no timeout at all.
    pub closed spec fn timeout(&self) -> Option<Duration> {
        self.timeout
    }

    /// The request timeout that this client was made with.
    pub fn request_timeout(&self) -> (r: Option<Duration>)
        ensures
            r == self.timeout(),
    {
        self.timeout
    }

    /// The reqwest client itself.
    pub fn client(&self) -> (r: &reqwest::Client) {
        &self.client
    }
}

/// Relies on reqwest's `ClientBuilder::new` and `ClientBuilder::build`: a
/// fresh builder sets no request timeout, so the client has none; or the
/// error that kept it from starting (its TLS backend, say).
#[verifier::external_body]
fn http_client_without_timeout() -> (r: Result<HttpClient, reqwest::Error>)
    ensures
        r matches Ok(c) ==> c.timeout() is None,
{
    match reqwest::ClientBuilder::new().build() {
        Ok(client) => Ok(HttpClient { client, timeout: None }),
        Err(e) => Err(e),
    }
}

/// Relies on reqwest's `ClientBuilder::timeout` and `ClientBuilder::build`:
/// `timeout` becomes the request timeout of the client, whose requests then
/// fail once it has passed; or the error that kept the client from starting.
#[verifier::external_body]
fn http_client_with_timeout(timeout: Duration) -> (r: Result<HttpClient, reqwest::Error>)
    ensures
        r matches Ok(c) ==> c.timeout() == Some(timeout),
{
    match reqwest::ClientBuilder::new().timeout(timeout).build() {
        Ok(client) => Ok(HttpClient { client, timeout: Some(timeout) }),
        Err(e) => Err(e),
    }
}

/// The configuration of a client, for the backend `T`.
pub struct FcmClientBuilder<T: OauthClient> {
    service_account_key_json_path: Option<String>,
    token_cache_json_path: Option<String>,
    fcm_request_timeout: Option<Duration>,
    _phantom: PhantomData<T>,
}

impl<T: OauthClient> Clone for FcmClientBuilder<T> {
    fn clone(&self) -> (r: Self)
        ensures
            r.key_path() == self.key_path(),
            r.token_cache_path() == self.token_cache_path(),
            r.timeout() == self.timeout(),
    {
        let key = match &self.service_account_key_json_path {
            Some(p) => Some(p.clone()),
            None => None,
        };
        let cache = match &self.token_cache_json_path {
            Some(p) => Some(p.clone()),
            None => None,
        };
        FcmClientBuilder {
            service_account_key_json_path: key,
            token_cache_json_path: cache,
            fcm_request_timeout: self.fcm_request_timeout,
            _phantom: PhantomData,
        }
    }
}

impl<T: OauthClient> Default for FcmClientBuilder<T> {
    fn default() -> (r: Self)
        ensures
            r.key_path() is None,
            r.token_cache_path() is None,
            r.timeout() is None,
    {
        FcmClientBuilder {
            service_account_key_json_path: None,
            token_cache_json_path: None,
            fcm_request_timeout: None,
            _phantom: PhantomData,
        }
    }
}

impl<T: OauthClient> FcmClientBuilder<T> {
    /// The explicit path of the service account key file, if one was set.
    pub closed spec fn key_path(&self) -> Option<Seq<char>> {
        match &self.service_account_key_json_path {
            Some(p) => Some(p@),
            None => None,
        }
    }

    /// The path of the token cache file, if one was set.
    pub closed spec fn token_cache_path(&self) -> Option<Seq<char>> {
        match &self.token_cache_json_path {
            Some(p) => Some(p@),
            None => None,
        }
    }

    /// The request timeout, if one was set.
    pub closed spec fn timeout(&self) -> Option<Duration> {
        self.fcm_request_timeout
    }

    /// A builder with nothing set: the key path comes from the environment,
    /// there is no token cache and no request timeout.
    pub fn new() -> (r: Self)
        ensures
            r.key_path() is None,
            r.token_cache_path() is None,
            r.timeout() is None,
    {
        Self::default()
    }

    /// Set path to the service account key JSON file. Default is to use
    /// path from the `GOOGLE_APPLICATION_CREDENTIALS` environment variable
    /// (which can be also located in `.env` file).
    pub fn service_account_key_json_path(self, service_account_key_json_path: &str) -> (r: Self)
        ensures
            r.key_path() == Some(service_account_key_json_path@),
            r.token_cache_path() == self.token_cache_path(),
            r.timeout() == self.timeout(),
    {
        let mut b = self;
        b.service_account_key_json_path = Some(String::from_str(service_account_key_json_path));
        b
    }

    /// Set timeout for FCM requests. Default is no timeout.
    ///
    /// Google recommends at least 10 minute timeout for FCM requests.
    pub fn fcm_request_timeout(self, fcm_request_timeout: Duration) -> (r: Self)
        ensures
            r.timeout() == Some(fcm_request_timeout),
            r.key_path() == self.key_path(),
            r.token_cache_path() == self.token_cache_path(),
    {
        let mut b = self;
        b.fcm_request_timeout = Some(fcm_request_timeout);
        b
    }

    /// Set path to the token cache JSON file, for a backend that keeps its
    /// tokens there. Default is no token cache JSON file.
    pub fn token_cache_json_path(self, token_cache_json_path: &str) -> (r: Self)
        ensures
            r.token_cache_path() == Some(token_cache_json_path@),
            r.key_path() == self.key_path(),
            r.timeout() == self.timeout(),
    {
        let mut b = self;
        b.token_cache_json_path = Some(String::from_str(token_cache_json_path));
        b
    }

    /// The explicit path of the service account key file, if one was set.
    pub fn service_account_key_json_path_value(&self) -> (r: Option<&String>)
        ensures
            match r {
                Some(p) => self.key_path() == Some(p@),
                None => self.key_path() is None,
            },
    {
        self.service_account_key_json_path.as_ref()
    }

    /// The path of the token cache file, if one was set.
    pub fn token_cache_json_path_value(&self) -> (r: Option<&String>)
        ensures
            match r {
                Some(p) => self.token_cache_path() == Some(p@),
                None => self.token_cache_path() is None,
            },
    {
        self.token_cache_json_path.as_ref()
    }

    /// The request timeout, if one was set.
    pub fn fcm_request_timeout_value(&self) -> (r: Option<Duration>)
        ensures
            r == self.timeout(),
    {
        self.fcm_request_timeout
    }

    /// The path of the service account key file: the one set on the builder,
    /// else what `from_environment` finds (it is called only then). When the
    /// environment has none, the client cannot be built: that is a
    /// configuration error, never an empty path taken for a key.
    pub fn resolve_key_path<F>(&self, from_environment: F) -> (r: Result<String, FcmClientError<T::Error>>)
        where
            F: FnOnce() -> Result<String, dotenvy::Error>,
        requires
            self.key_path() is None ==> from_environment.requires(()),
        ensures
            match self.key_path() {
                Some(p) => r matches Ok(s) && s@ == p,
                None => exists|found: Result<String, dotenvy::Error>|
                    #[trigger] from_environment.ensures((), found) && match found {
                        Ok(v) => r matches Ok(s) && s@ == v@,
                        Err(e) => r == Err::<String, FcmClientError<T::Error>>(
                            FcmClientError::Dotenvy(e),
                        ),
                    },
            },
    {
        match &self.service_account_key_json_path {
            Some(p) => Ok(p.clone()),
            None => {
                let found = from_environment();
                match found {
                    Ok(v) => Ok(v),
                    Err(e) => Err(FcmClientError::Dotenvy(e)),
                }
            },
        }
    }

    /// The HTTP client for the messaging endpoint, with the configured
    /// request timeout if one was set and none otherwise. The only failure
    /// is the HTTP layer's.
    pub fn http_client(&self) -> (r: Result<HttpClient, FcmClientError<T::Error>>)
        ensures
            r matches Ok(c) ==> c.timeout() == self.timeout(),
            r is Err ==> r->Err_0 is Reqwest,
    {
        let made = match self.fcm_request_timeout {
            Some(timeout) => http_client_with_timeout(timeout),
            None => http_client_without_timeout(),
        };
        match made {
            Ok(client) => Ok(client),
            Err(e) => Err(FcmClientError::Reqwest(e)),
        }
    }
}

/// A client for sending the notification payload. It owns one backend
/// instance for its whole life, and one HTTP client.
pub struct FcmClient<T: OauthClient> {
    oauth_client: T,
    http_client: HttpClient,
}

impl<T: OauthClient> FcmClient<T> {
    /// The backend that this client was built with.
    pub closed spec fn backend(&self) -> T {
        self.oauth_client
    }

    /// The request timeout of the HTTP client that carries every `send`.
    pub closed spec fn request_timeout(&self) -> Option<Duration> {
        self.http_client.timeout()
    }

    /// A builder for a client over the backend `T`, with nothing set.
    pub fn builder() -> (r: FcmClientBuilder<T>)
        ensures
            r.key_path() is None,
            r.token_cache_path() is None,
            r.timeout() is None,
    {
        FcmClientBuilder::new()
    }

    /// A client over a backend instance and an HTTP client made from the
    /// same builder.
    pub fn from_parts(oauth_client: T, http_client: HttpClient) -> (r: Self)
        ensures
            r.backend() == oauth_client,
            r.request_timeout() == http_client.timeout(),
    {
        FcmClient { oauth_client, http_client }
    }

    /// The backend instance, shared by every `send`.
    pub fn oauth_client(&self) -> (r: &T)
        ensures
            *r == self.backend(),
    {
        &self.oauth_client
    }

    /// The HTTP client that carries the requests.
    pub fn http_client(&self) -> (r: &HttpClient)
        ensures
            r.timeout() == self.request_timeout(),
    {
        &self.http_client
    }
}

} // verus!
