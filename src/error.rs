use vstd::prelude::*;
use crate::oauth::{OauthError, OauthErrorAccessTokenStatus};

verus! {

#[verifier::external_type_specification]
#[verifier::external_body]
pub struct ExReqwestError(reqwest::Error);

#[verifier::external_type_specification]
#[verifier::external_body]
pub struct ExDotenvyError(dotenvy::Error);

#[verifier::external_type_specification]
#[verifier::external_body]
pub struct ExChronoParseError(chrono::ParseError);

/// Every way in which building a client or sending a message can fail.
#[derive(Debug)]
pub enum FcmClientError<T: OauthError> {
    /// The HTTP layer failed: connection, TLS, timeout, or an error status.
    Reqwest(reqwest::Error),
    /// The authentication backend failed.
    Oauth(T),
    /// The service account key path could not be read from the environment.
    Dotenvy(dotenvy::Error),
    /// The server answered with a status that is neither a success nor one
    /// that the HTTP layer counts as an error (an informational or a
    /// redirection status), with the body of the answer.
    UnexpectedHttpStatus { status: u16, body: String },
    /// A `Retry-After` header value holds bytes that are not visible ASCII.
    RetryAfterHttpHeaderIsNotString,
    /// A `Retry-After` header value is neither a number of seconds nor a date.
    RetryAfterHttpHeaderInvalid { error: chrono::ParseError, value: String },
}

impl<T: OauthErrorAccessTokenStatus> FcmClientError<T> {
    /// Whether the access token is permanently missing: only an
    /// authentication error can say so, and then as the backend classifies it.
    pub open spec fn access_token_missing(&self) -> bool {
        match self {
            FcmClientError::Oauth(e) => e.access_token_missing(),
            _ => false,
        }
    }

    /// If this is `true` then most likely current service account
    /// key is invalid.
    pub fn is_access_token_missing_even_if_server_requests_completed(&self) -> (r: bool)
        ensures
            r == self.access_token_missing(),
    {
        match self {
            FcmClientError::Oauth(error) => error.is_access_token_missing_even_if_server_requests_completed(),
            _ => false,
        }
    }
}

} // verus!
