//! Client library for sending push notifications to a cloud messaging
//! endpoint, with bearer tokens from a pluggable OAuth backend.
//!
//! The decisions of the client (configuration, the endpoint address, the
//! reading of `Retry-After` hints and the retry policy) are verified here;
//! the network and file work is done by the caller around them.
pub mod oauth;
pub mod error;
pub mod retry_after;
pub mod dispatch;
pub mod client;

pub use oauth::{OauthClient, OauthError, OauthErrorAccessTokenStatus};
pub use error::FcmClientError;
pub use retry_after::{parse_delay_seconds, parse_retry_after, RetryAfter};
pub use dispatch::{send_endpoint, SendAttempts, SendStep, MAX_SEND_ATTEMPTS};
pub use client::{FcmClient, FcmClientBuilder, HttpClient, FIREBASE_OAUTH_SCOPE, SERVICE_ACCOUNT_KEY_ENV};
