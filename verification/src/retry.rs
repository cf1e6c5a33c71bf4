use crate::api::WebApi;
use crate::error::Error;
use crate::text::{concat, decimal, decimal_text, parse_decimal, parse_seconds};
use vstd::prelude::*;

verus! {

/// The status by which the service says that the caller must slow down.
pub const RATE_LIMITED: u16 = 429;

/// The name of the header by which a rate-limited response says how many
/// seconds to wait.
pub const RETRY_AFTER: &'static str = "Retry-After";

/// The seconds to wait where a rate-limited response names no delay that
/// can be read.
pub const DEFAULT_RETRY_AFTER: u64 = 2;

/// The first of the statuses by which the service reports a failure.
pub const FIRST_ERROR_STATUS: u16 = 400;

/// What leads the status in the text of a status error.
pub const STATUS_CODE: &'static str = "status code ";

/// What the transport received: the status, the value of the
/// [`RETRY_AFTER`] header where there is one, the content type, and the body
/// in whatever form the caller holds it, read or not yet read.  A response
/// of any status is a response, not a failure of the transport.
#[derive(Debug, PartialEq, Eq)]
pub struct Response<B> {
    pub status: u16,
    pub retry_after: Option<String>,
    pub content_type: String,
    pub body: B,
}

/// Tells whether `status` reports a failure.
pub open spec fn is_error_status(status: u16) -> bool {
    status >= FIRST_ERROR_STATUS
}

/// The text of the error that stands for a response of the status `status`.
pub open spec fn status_text(status: u16) -> Seq<char> {
    STATUS_CODE@ + decimal_text(status as nat)
}

impl<B> Response<B> {
    /// Tells whether the service asks the caller to slow down.
    pub fn is_rate_limited(&self) -> (limited: bool)
        ensures
            limited == (self.status == RATE_LIMITED),
    {
        self.status == RATE_LIMITED
    }

    /// Tells whether the status reports a failure.
    pub fn is_error(&self) -> (failed: bool)
        ensures
            failed == is_error_status(self.status),
    {
        self.status >= FIRST_ERROR_STATUS
    }

    /// The error that stands for this response where its status reports a
    /// failure.
    pub fn status_error(&self) -> (err: Error)
        ensures
            err.message() == status_text(self.status),
    {
        let status = decimal(self.status as usize);
        Error::WebApiError(concat(STATUS_CODE, status.as_str()))
    }
}

/// How to go on after one attempt at a request.
#[derive(Debug, PartialEq, Eq)]
pub enum Retry<B> {
    /// The attempt stands: hand its outcome to the caller as it is.
    Done(Result<Response<B>, Error>),
    /// Suspend the caller for that many seconds, then send the same request
    /// again.
    Wait(u64),
}

/// The delay in seconds that a [`RETRY_AFTER`] header asks for: the number it
/// holds, or the default where it is missing or holds no number.
pub open spec fn retry_delay(header: Option<String>) -> u64 {
    match header {
        Some(text) => match parse_decimal(text@) {
            Some(secs) => secs,
            None => DEFAULT_RETRY_AFTER,
        },
        None => DEFAULT_RETRY_AFTER,
    }
}

/// What follows from one attempt at a request.
pub open spec fn retry_step<B>(attempt: Result<Response<B>, Error>) -> Retry<B> {
    match attempt {
        Ok(response) => if response.status == RATE_LIMITED {
            Retry::Wait(retry_delay(response.retry_after))
        } else {
            Retry::Done(Ok(response))
        },
        Err(err) => Retry::Done(Err(err)),
    }
}

/// Rate-limit back-off.
impl WebApi {
    /// Decides what follows from one attempt at a request.
    ///
    /// A rate-limited response asks for a wait of as many seconds as its
    /// [`RETRY_AFTER`] header holds, or of [`DEFAULT_RETRY_AFTER`], and for
    /// another attempt after it; there is no limit to the number of
    /// attempts.  Every other response, whatever its status, and every
    /// transport failure goes to the caller unchanged.
    pub fn with_retry<B>(attempt: Result<Response<B>, Error>) -> (retry: Retry<B>)
        ensures
            retry == retry_step(attempt),
    {
        match attempt {
            Ok(response) => {
                if response.is_rate_limited() {
                    let secs = match &response.retry_after {
                        Some(text) => match parse_seconds(text.as_str()) {
                            Some(secs) => secs,
                            None => DEFAULT_RETRY_AFTER,
                        },
                        None => DEFAULT_RETRY_AFTER,
                    };
                    Retry::Wait(secs)
                } else {
                    Retry::Done(Ok(response))
                }
            },
            Err(err) => Retry::Done(Err(err)),
        }
    }
}

} // verus!
