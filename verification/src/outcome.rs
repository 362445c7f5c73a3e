//! The result of one delivery attempt and the rule that maps an HTTP status to it.

use reqwest::StatusCode;
use vstd::prelude::*;

verus! {

/// What one delivery attempt came to.
#[derive(Clone, Copy, Debug, PartialEq, Eq, Structural)]
pub enum DispatchResult {
    /// The receiver accepted the notification.
    Success,
    /// Retrying cannot help: the message is dropped.
    FatalError,
    /// A transient failure: the message may be queued again.
    RetryableError,
}

/// Whether `status` lies in the 2xx range.
pub open spec fn is_success_status(status: u16) -> bool {
    200 <= status <= 299
}

/// Whether `status` marks a transient failure: rate limiting (429), a request
/// timeout (408) or a server error (5xx).
pub open spec fn is_retryable_status(status: u16) -> bool {
    status == 429 || status == 408 || 500 <= status <= 599
}

/// The outcome that belongs to a received HTTP status.
pub open spec fn outcome_of_status(status: u16) -> DispatchResult {
    if is_success_status(status) {
        DispatchResult::Success
    } else if is_retryable_status(status) {
        DispatchResult::RetryableError
    } else {
        DispatchResult::FatalError
    }
}

/// Classifies the status of a received HTTP response.
pub fn classify_status(status: u16) -> (outcome: DispatchResult)
    ensures
        outcome == outcome_of_status(status),
{
    if 200 <= status && status <= 299 {
        DispatchResult::Success
    } else if status == 429 || status == 408 || (500 <= status && status <= 599) {
        DispatchResult::RetryableError
    } else {
        DispatchResult::FatalError
    }
}

/// The mapping from status to outcome is total and exact: a status from 200
/// to 299 is a success; 429, 408 and 500 to 599 are transient failures; every
/// other status is a failure for good.
pub proof fn lemma_status_mapping(status: u16)
    ensures
        200 <= status <= 299 <==> outcome_of_status(status) == DispatchResult::Success,
        status == 429 || status == 408 || 500 <= status <= 599 <==> outcome_of_status(status)
            == DispatchResult::RetryableError,
        !(200 <= status <= 299) && status != 429 && status != 408 && !(500 <= status <= 599)
            <==> outcome_of_status(status) == DispatchResult::FatalError,
{
}

/// The status of a received HTTP response: a number from 100 to 999.
#[derive(Clone, Copy, Debug, PartialEq, Eq)]
pub struct HttpStatus {
    code: u16,
}

impl View for HttpStatus {
    type V = u16;

    closed spec fn view(&self) -> u16 {
        self.code
    }
}

impl HttpStatus {
    #[verifier::type_invariant]
    spec fn in_range(self) -> bool {
        100 <= self.code <= 999
    }

    /// The status with the number `code`, where that is a status code.
    pub fn new(code: u16) -> (status: Option<HttpStatus>)
        ensures
            status is Some <==> 100 <= code <= 999,
            status is Some ==> status.unwrap()@ == code,
    {
        if 100 <= code && code <= 999 {
            Some(HttpStatus { code })
        } else {
            None
        }
    }

    /// The status's number.
    pub fn code(&self) -> (code: u16)
        ensures
            code == self@,
            100 <= code <= 999,
    {
        proof {
            use_type_invariant(self);
        }
        self.code
    }
}

/// The text that `StatusCode` writes for the status `code`: the number and
/// the reason phrase that belongs to it.
pub uninterp spec fn status_line(code: u16) -> Seq<char>;

/// Calls `StatusCode::from_u16` and writes the status out with its
/// `Display`. Trusted: the text is what `status_line` names for the code.
/// `from_u16` takes every number from 100 to 999.
#[verifier::external_body]
pub(crate) fn status_text(code: u16) -> (text: String)
    requires
        100 <= code <= 999,
    ensures
        text@ == status_line(code),
{
    StatusCode::from_u16(code).unwrap().to_string()
}

} // verus!
