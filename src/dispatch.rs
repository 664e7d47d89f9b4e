use vstd::prelude::*;
use crate::error::FcmClientError;
use crate::oauth::OauthError;
use crate::retry_after::{
    ascii_chars, delay_of, is_header_text, is_invalid_retry_after, parse_retry_after,
    retry_after_of, rfc2822_timestamp, RetryAfter,
};

verus! {

/// The most requests that one `send` makes, the first one included.
pub const MAX_SEND_ATTEMPTS: u32 = 5;

/// Where the messaging endpoint of every project begins.
pub const FCM_ENDPOINT_PREFIX: &'static str = "https://fcm.googleapis.com/v1/projects/";

/// Where the messaging endpoint of every project ends.
pub const FCM_ENDPOINT_SUFFIX: &'static str = "/messages:send";

/// The address to which the messages of a project are sent.
pub open spec fn endpoint_of(project_id: Seq<char>) -> Seq<char> {
    FCM_ENDPOINT_PREFIX@ + project_id + FCM_ENDPOINT_SUFFIX@
}

/// The address to which the messages of the project `project_id` are sent.
pub fn send_endpoint(project_id: &str) -> (r: String)
    ensures
        r@ == endpoint_of(project_id@),
{
    let url = String::from_str(FCM_ENDPOINT_PREFIX);
    let url = url.concat(project_id);
    url.concat(FCM_ENDPOINT_SUFFIX)
}

/// What to do after the server has answered a request.
#[derive(Debug, Clone, Copy, PartialEq, Eq, Structural)]
pub enum SendStep {
    /// The request succeeded: read the body and return it.
    Deliver,
    /// The server refused the credentials: return the failure at once.
    RejectAuth,
    /// Wait this many seconds, then fetch a token and send again.
    Retry { wait_secs: u64 },
    /// Any other failure, or a retry past the bound: return it as an error
    /// of the HTTP layer, which carries the status.
    Fail,
}

pub open spec fn is_success_status(status: u16) -> bool {
    200 <= status && status < 300
}

pub open spec fn is_auth_failure_status(status: u16) -> bool {
    status == 401 || status == 403
}

/// A status with which the server may ask to be tried again later.
pub open spec fn is_backoff_status(status: u16) -> bool {
    status == 429 || (500 <= status && status < 600)
}

/// The step for a status after `attempts` requests, when the response
/// asks for nothing, or asks for a wait read as `hint`.
pub open spec fn step_of(status: u16, hint: Option<RetryAfter>, now: i64, attempts: u32) -> SendStep {
    if is_success_status(status) {
        SendStep::Deliver
    } else if is_auth_failure_status(status) {
        SendStep::RejectAuth
    } else {
        match hint {
            Some(ra) => if is_backoff_status(status) && attempts < MAX_SEND_ATTEMPTS {
                SendStep::Retry { wait_secs: ra.wait_at(now) as u64 }
            } else {
                SendStep::Fail
            },
            None => SendStep::Fail,
        }
    }
}

/// The outcome owed for a response with `status` and the raw `Retry-After`
/// header `raw`, if any, after `attempts` requests. The header is read only
/// for a status that can ask for a wait; when it cannot be read, that error
/// is the outcome and nothing is retried.
pub open spec fn response_outcome<E: OauthError>(
    status: u16,
    raw: Option<Seq<u8>>,
    now: i64,
    attempts: u32,
    r: Result<SendStep, FcmClientError<E>>,
) -> bool {
    match raw {
        Some(bytes) if is_backoff_status(status) => if !is_header_text(bytes) {
            r == Err::<SendStep, FcmClientError<E>>(FcmClientError::RetryAfterHttpHeaderIsNotString)
        } else {
            match retry_after_of(ascii_chars(bytes)) {
                Some(ra) => r == Ok::<SendStep, FcmClientError<E>>(
                    step_of(status, Some(ra), now, attempts),
                ),
                None => r is Err && is_invalid_retry_after(r->Err_0, ascii_chars(bytes)),
            }
        },
        _ => r == Ok::<SendStep, FcmClientError<E>>(step_of(status, None, now, attempts)),
    }
}

/// A `Retry-After` header that is not text ends the `send` with
/// `RetryAfterHttpHeaderIsNotString`, and nothing is retried.
pub proof fn lemma_undecodable_retry_after_fails<E: OauthError>(
    status: u16,
    raw: Seq<u8>,
    now: i64,
    attempts: u32,
    r: Result<SendStep, FcmClientError<E>>,
)
    requires
        response_outcome(status, Some(raw), now, attempts, r),
        is_backoff_status(status),
        !is_header_text(raw),
    ensures
        r == Err::<SendStep, FcmClientError<E>>(FcmClientError::RetryAfterHttpHeaderIsNotString),
{
}

/// A `Retry-After` text that is neither a number of seconds nor a date ends
/// the `send` with `RetryAfterHttpHeaderInvalid` carrying that text, and
/// nothing is retried.
pub proof fn lemma_unreadable_retry_after_fails<E: OauthError>(
    status: u16,
    raw: Seq<u8>,
    now: i64,
    attempts: u32,
    r: Result<SendStep, FcmClientError<E>>,
)
    requires
        response_outcome(status, Some(raw), now, attempts, r),
        is_backoff_status(status),
        is_header_text(raw),
        delay_of(ascii_chars(raw)) is None,
        rfc2822_timestamp(ascii_chars(raw)) is None,
    ensures
        r matches Err(FcmClientError::RetryAfterHttpHeaderInvalid { value, .. }) && value@ == ascii_chars(raw),
{
}

/// Once a `send` has made the most requests allowed, no response makes it
/// try again.
pub proof fn lemma_retries_bounded<E: OauthError>(
    status: u16,
    raw: Option<Seq<u8>>,
    now: i64,
    r: Result<SendStep, FcmClientError<E>>,
)
    requires
        response_outcome(status, raw, now, MAX_SEND_ATTEMPTS, r),
    ensures
        !(r matches Ok(SendStep::Retry { .. })),
{
}

/// A success status is delivered, whatever else the response carries.
pub proof fn lemma_success_delivered<E: OauthError>(
    status: u16,
    raw: Option<Seq<u8>>,
    now: i64,
    attempts: u32,
    r: Result<SendStep, FcmClientError<E>>,
)
    requires
        response_outcome(status, raw, now, attempts, r),
        is_success_status(status),
    ensures
        r == Ok::<SendStep, FcmClientError<E>>(SendStep::Deliver),
{
}

/// A refusal of the credentials is returned at once, never retried, even
/// when the response carries a `Retry-After` header.
pub proof fn lemma_auth_failure_not_retried<E: OauthError>(
    status: u16,
    raw: Option<Seq<u8>>,
    now: i64,
    attempts: u32,
    r: Result<SendStep, FcmClientError<E>>,
)
    requires
        response_outcome(status, raw, now, attempts, r),
        is_auth_failure_status(status),
    ensures
        r == Ok::<SendStep, FcmClientError<E>>(SendStep::RejectAuth),
{
}

/// The retry state of one `send`: how many requests it has made.
pub struct SendAttempts {
    attempts: u32,
}

impl SendAttempts {
    pub closed spec fn count(&self) -> u32 {
        self.attempts
    }

    /// A `send` has made at least one request and never more than the bound.
    pub open spec fn wf(&self) -> bool {
        1 <= self.count() <= MAX_SEND_ATTEMPTS
    }

    /// The state of a `send` whose first request is under way.
    pub fn new() -> (r: SendAttempts)
        ensures
            r.count() == 1,
            r.wf(),
    {
        SendAttempts { attempts: 1 }
    }

    /// How many requests this `send` has made.
    pub fn attempts(&self) -> (r: u32)
        ensures
            r == self.count(),
    {
        self.attempts
    }

    /// Decides what follows a response with `status` and the raw
    /// `Retry-After` header `retry_after`, if any, at `now` (seconds since
    /// the Unix epoch). A retry counts the request that it will make.
    pub fn on_response<E: OauthError>(
        &mut self,
        status: u16,
        retry_after: Option<&[u8]>,
        now: i64,
    ) -> (r: Result<SendStep, FcmClientError<E>>)
        requires
            old(self).wf(),
        ensures
            final(self).wf(),
            response_outcome(
                status,
                match retry_after {
                    Some(b) => Some(b@),
                    None => None,
                },
                now,
                old(self).count(),
                r,
            ),
            final(self).count() == (if r matches Ok(SendStep::Retry { .. }) {
                old(self).count() + 1
            } else {
                old(self).count() as int
            }),
    {
        let hint = match retry_after {
            Some(raw) => if status == 429 || (500 <= status && status < 600) {
                match parse_retry_after::<E>(raw) {
                    Ok(ra) => Some(ra),
                    Err(e) => {
                        return Err(e);
                    },
                }
            } else {
                None
            },
            None => None,
        };
        let step = if 200 <= status && status < 300 {
            SendStep::Deliver
        } else if status == 401 || status == 403 {
            SendStep::RejectAuth
        } else {
            match hint {
                Some(ra) => if (status == 429 || (500 <= status && status < 600))
                    && self.attempts < MAX_SEND_ATTEMPTS {
                    SendStep::Retry { wait_secs: ra.wait_seconds(now) }
                } else {
                    SendStep::Fail
                },
                None => SendStep::Fail,
            }
        };
        if let SendStep::Retry { .. } = step {
            self.attempts = self.attempts + 1;
        }
        Ok(step)
    }
}

} // verus!
