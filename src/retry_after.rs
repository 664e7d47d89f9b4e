use vstd::prelude::*;
use crate::error::FcmClientError;
use crate::oauth::OauthError;

verus! {

/// What `DateTime::<FixedOffset>::parse_from_rfc2822` makes of a text,
/// as seconds since the Unix epoch; `None` where it refuses the text.
pub uninterp spec fn rfc2822_timestamp(s: Seq<char>) -> Option<i64>;

/// Relies on chrono's `DateTime::<FixedOffset>::parse_from_rfc2822`, read
/// back as seconds since the Unix epoch with `DateTime::timestamp`.
#[verifier::external_body]
fn parse_http_date(s: &str) -> (r: Result<i64, chrono::ParseError>)
    ensures
        r is Ok <==> rfc2822_timestamp(s@) is Some,
        r is Ok ==> rfc2822_timestamp(s@) == Some(r->Ok_0),
{
    match chrono::DateTime::parse_from_rfc2822(s) {
        Ok(date) => Ok(date.timestamp()),
        Err(error) => Err(error),
    }
}

/// Relies on `std::str::from_utf8`: ASCII bytes are valid UTF-8, each byte
/// one character.
#[verifier::external_body]
fn ascii_str(bytes: &[u8]) -> (r: Option<&str>)
    ensures
        (forall|i: int| 0 <= i < bytes@.len() ==> bytes@[i] < 128) ==> r is Some
            && r->Some_0@ == ascii_chars(bytes@),
{
    std::str::from_utf8(bytes).ok()
}

/// A byte that an HTTP header value may hold when it is read as text:
/// visible ASCII or a horizontal tab.
pub open spec fn is_header_text_byte(b: u8) -> bool {
    (32 <= b && b < 127) || b == 9
}

/// A header value that can be read as text.
pub open spec fn is_header_text(bytes: Seq<u8>) -> bool {
    forall|i: int| 0 <= i < bytes.len() ==> is_header_text_byte(#[trigger] bytes[i])
}

/// The characters of ASCII bytes, one for each byte.
pub open spec fn ascii_chars(bytes: Seq<u8>) -> Seq<char> {
    bytes.map_values(|b: u8| b as char)
}

pub open spec fn is_digit(c: char) -> bool {
    '0' <= c && c <= '9'
}

/// A delay in seconds as HTTP writes it: one or more decimal digits.
pub open spec fn is_delay_seconds(s: Seq<char>) -> bool {
    s.len() > 0 && forall|i: int| 0 <= i < s.len() ==> is_digit(#[trigger] s[i])
}

/// The number that a string of decimal digits stands for.
pub open spec fn digits_value(s: Seq<char>) -> nat
    decreases s.len(),
{
    if s.len() == 0 {
        0
    } else {
        digits_value(s.drop_last()) * 10 + (s.last() as nat - '0' as nat) as nat
    }
}

/// The delay that a `Retry-After` text gives as a whole number of seconds,
/// where it is one and fits in 64 bits.
pub open spec fn delay_of(s: Seq<char>) -> Option<u64> {
    if is_delay_seconds(s) && digits_value(s) <= u64::MAX {
        Some(digits_value(s) as u64)
    } else {
        None
    }
}

/// Reads a `Retry-After` text as a number of seconds: `None` unless it is
/// one or more decimal digits whose value fits in a `u64`.
pub fn parse_delay_seconds(s: &str) -> (r: Option<u64>)
    ensures
        r == delay_of(s@),
{
    let n = s.unicode_len();
    if n == 0 {
        return None;
    }
    let mut value: u64 = 0;
    let mut i: usize = 0;
    while i < n
        invariant
            n == s@.len(),
            0 <= i <= n,
            forall|j: int| 0 <= j < i ==> is_digit(#[trigger] s@[j]),
            value == digits_value(s@.subrange(0, i as int)),
        decreases n - i,
    {
        let c = s.get_char(i);
        if !('0' <= c && c <= '9') {
            assert(!is_delay_seconds(s@));
            return None;
        }
        let d: u64 = (c as u32 - '0' as u32) as u64;
        let ghost prefix = s@.subrange(0, i as int + 1);
        assert(prefix.drop_last() =~= s@.subrange(0, i as int));
        assert(prefix.last() == c);
        if value > (u64::MAX - d) / 10 {
            proof {
                assert(value * 10 + d > u64::MAX) by (nonlinear_arith)
                    requires value > (u64::MAX - d) / 10, d <= 9;
                if is_delay_seconds(s@) {
                    lemma_digits_value_monotone(s@, i as int + 1);
                }
            }
            return None;
        }
        value = value * 10 + d;
        i = i + 1;
    }
    assert(s@.subrange(0, n as int) =~= s@);
    Some(value)
}

/// A longer string of digits never stands for a smaller number.
proof fn lemma_digits_value_monotone(s: Seq<char>, k: int)
    requires
        0 <= k <= s.len(),
        forall|j: int| 0 <= j < s.len() ==> is_digit(#[trigger] s[j]),
    ensures
        digits_value(s.subrange(0, k)) <= digits_value(s),
    decreases s.len() - k,
{
    if k < s.len() {
        lemma_digits_value_monotone(s, k + 1);
        let p = s.subrange(0, k + 1);
        assert(p.drop_last() =~= s.subrange(0, k));
    } else {
        assert(s.subrange(0, k) =~= s);
    }
}

/// A server's hint of when to try again, read from a `Retry-After` header.
#[derive(Debug, Clone, Copy, PartialEq, Eq, Structural)]
pub enum RetryAfter {
    /// Wait this many seconds.
    Delay(u64),
    /// Wait until this moment, in seconds since the Unix epoch.
    DateTime(i64),
}

/// What a `Retry-After` text says: a number of seconds where it is one,
/// else the date that it gives, else nothing.
pub open spec fn retry_after_of(s: Seq<char>) -> Option<RetryAfter> {
    match delay_of(s) {
        Some(n) => Some(RetryAfter::Delay(n)),
        None => match rfc2822_timestamp(s) {
            Some(t) => Some(RetryAfter::DateTime(t)),
            None => None,
        },
    }
}

/// Whether `e` is the error for a `Retry-After` text that says nothing,
/// carrying that text.
pub open spec fn is_invalid_retry_after<E: OauthError>(e: FcmClientError<E>, text: Seq<char>) -> bool {
    match e {
        FcmClientError::RetryAfterHttpHeaderInvalid { value, .. } => value@ == text,
        _ => false,
    }
}

/// The outcome of reading the raw bytes of a `Retry-After` header.
pub open spec fn retry_after_outcome<E: OauthError>(
    raw: Seq<u8>,
    r: Result<RetryAfter, FcmClientError<E>>,
) -> bool {
    if !is_header_text(raw) {
        r == Err::<RetryAfter, FcmClientError<E>>(FcmClientError::RetryAfterHttpHeaderIsNotString)
    } else {
        match retry_after_of(ascii_chars(raw)) {
            Some(ra) => r == Ok::<RetryAfter, FcmClientError<E>>(ra),
            None => r is Err && is_invalid_retry_after(r->Err_0, ascii_chars(raw)),
        }
    }
}

/// Reads the raw bytes of a `Retry-After` header. A value that is not
/// header text fails with `RetryAfterHttpHeaderIsNotString`; text that is
/// neither a number of seconds nor an RFC 2822 date fails with
/// `RetryAfterHttpHeaderInvalid`, carrying the text.
pub fn parse_retry_after<E: OauthError>(raw: &[u8]) -> (r: Result<RetryAfter, FcmClientError<E>>)
    ensures
        retry_after_outcome(raw@, r),
{
    let n = raw.len();
    let mut i: usize = 0;
    while i < n
        invariant
            n == raw@.len(),
            0 <= i <= n,
            forall|j: int| 0 <= j < i ==> is_header_text_byte(#[trigger] raw@[j]),
        decreases n - i,
    {
        let b = raw[i];
        if !((32 <= b && b < 127) || b == 9) {
            return Err(FcmClientError::RetryAfterHttpHeaderIsNotString);
        }
        i = i + 1;
    }
    assert forall|j: int| 0 <= j < raw@.len() implies raw@[j] < 128 by {
        assert(is_header_text_byte(raw@[j]));
    }
    let text = match ascii_str(raw) {
        Some(text) => text,
        None => {
            return Err(FcmClientError::RetryAfterHttpHeaderIsNotString);
        },
    };
    match parse_delay_seconds(text) {
        Some(secs) => Ok(RetryAfter::Delay(secs)),
        None => match parse_http_date(text) {
            Ok(t) => Ok(RetryAfter::DateTime(t)),
            Err(error) => Err(FcmClientError::RetryAfterHttpHeaderInvalid { error, value: text.to_owned() }),
        },
    }
}

impl RetryAfter {
    /// The number of seconds to wait at `now` (seconds since the Unix
    /// epoch): a delay as given, a date in the future less `now`, a date
    /// that has passed none at all.
    pub open spec fn wait_at(self, now: i64) -> nat {
        match self {
            RetryAfter::Delay(n) => n as nat,
            RetryAfter::DateTime(t) => if t > now {
                (t - now) as nat
            } else {
                0
            },
        }
    }

    /// How many seconds to wait at `now`, given in seconds since the Unix
    /// epoch; never negative.
    pub fn wait_seconds(&self, now: i64) -> (r: u64)
        ensures
            r == self.wait_at(now),
    {
        match self {
            RetryAfter::Delay(n) => *n,
            RetryAfter::DateTime(t) => if *t > now {
                (*t as i128 - now as i128) as u64
            } else {
                0
            },
        }
    }
}

/// A `Retry-After` value that is a whole number of seconds is read as
/// exactly that many seconds, whatever the time.
pub proof fn lemma_delay_seconds_exact<E: OauthError>(
    raw: Seq<u8>,
    r: Result<RetryAfter, FcmClientError<E>>,
    now: i64,
)
    requires
        retry_after_outcome(raw, r),
        is_delay_seconds(ascii_chars(raw)),
        digits_value(ascii_chars(raw)) <= u64::MAX,
    ensures
        r == Ok::<RetryAfter, FcmClientError<E>>(
            RetryAfter::Delay(digits_value(ascii_chars(raw)) as u64),
        ),
        r->Ok_0.wait_at(now) == digits_value(ascii_chars(raw)),
{
    assert forall|i: int| 0 <= i < raw.len() implies is_header_text_byte(#[trigger] raw[i]) by {
        assert(is_digit(ascii_chars(raw)[i]));
    }
}

/// A `Retry-After` value that is a date is waited for until that date:
/// the wait is the time from `now` to the date, and none once it has passed.
pub proof fn lemma_http_date_wait<E: OauthError>(
    raw: Seq<u8>,
    r: Result<RetryAfter, FcmClientError<E>>,
    now: i64,
    date: i64,
)
    requires
        retry_after_outcome(raw, r),
        is_header_text(raw),
        !is_delay_seconds(ascii_chars(raw)),
        rfc2822_timestamp(ascii_chars(raw)) == Some(date),
    ensures
        r == Ok::<RetryAfter, FcmClientError<E>>(RetryAfter::DateTime(date)),
        date > now ==> r->Ok_0.wait_at(now) == date - now,
        date <= now ==> r->Ok_0.wait_at(now) == 0,
{
}

} // verus!
