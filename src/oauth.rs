use vstd::prelude::*;

verus! {

/// An authentication backend that produces bearer tokens for one service
/// identity. The token and project operations themselves may suspend, so
/// they are driven by the caller; here the backend names its error type.
pub trait OauthClient {
    type Error: OauthError;
}

/// Marker for the error type of an authentication backend.
pub trait OauthError {
}

/// A backend error that can tell whether the access token is permanently
/// unobtainable.
pub trait OauthErrorAccessTokenStatus: OauthError {
    /// The backend's own classification of this error: `true` when the
    /// access token stays missing even though the token server answered,
    /// which most likely means that the service account key is invalid.
    /// A backend written outside of verified code defines it as an ordinary
    /// method that returns the same value as the executable one below.
    spec fn access_token_missing(&self) -> bool;

    /// If this is `true` then most likely current service account
    /// key is invalid.
    fn is_access_token_missing_even_if_server_requests_completed(&self) -> (r: bool)
        ensures
            r == self.access_token_missing(),
    ;
}

} // verus!
