//! Response statuses: which of them are worth a report, and the error value that stands for
//! a response that carried one.

use vstd::prelude::*;

verus! {

/// The status that marks a throttled request.
pub const TOO_MANY_REQUESTS: u16 = 429;

/// A status is reportable when it is 429 or lies in the server-error range 500..=599.
pub open spec fn reportable(status: u16) -> bool {
    status == TOO_MANY_REQUESTS || 500 <= status < 600
}

/// The numbers that are status codes: three decimal digits, the first of them not zero.
pub open spec fn is_status_code(status: u16) -> bool {
    100 <= status < 1000
}

/// Every reportable status is a status code.
pub proof fn lemma_reportable_is_status_code(status: u16)
    requires
        reportable(status),
    ensures
        is_status_code(status),
{
}

/// Decides whether an outcome with this status is reported.
pub fn is_reportable(status: u16) -> (r: bool)
    ensures
        r == reportable(status),
{
    status == TOO_MANY_REQUESTS || (500 <= status && status < 600)
}

/// How `actix_web::http::StatusCode` prints the status code with this number.
pub uninterp spec fn status_line(status: u16) -> Seq<char>;

/// Prints a status code as `actix_web::http::StatusCode` does through its `Display`: the
/// number, a space, and the standard reason phrase of the code, or a fixed text where the
/// code has none. `StatusCode::from_u16` accepts the numbers from 100 to 999 and no others.
#[verifier::external_body]
fn print_status(status: u16) -> (line: String)
    requires
        is_status_code(status),
    ensures
        line@ == status_line(status),
{
    match actix_web::http::StatusCode::from_u16(status) {
        Ok(code) => code.to_string(),
        Err(_) => String::new(),
    }
}

/// The error that is reported for a response which carried a reportable status and no error
/// value of its own.
#[derive(Debug)]
pub struct ErrorStatus {
    status: u16,
}

impl View for ErrorStatus {
    type V = u16;

    closed spec fn view(&self) -> u16 {
        self.status
    }
}

impl ErrorStatus {
    #[verifier::type_invariant]
    spec fn holds_status_code(self) -> bool {
        is_status_code(self.status)
    }

    /// What every message of this error starts with.
    pub open spec fn message_prefix() -> Seq<char> {
        "Unknown Error Response: "@
    }

    /// The error for `status`, where that is a status code.
    pub fn new(status: u16) -> (r: Option<Self>)
        ensures
            match r {
                Some(error) => is_status_code(status) && error@ == status,
                None => !is_status_code(status),
            },
    {
        if 100 <= status && status < 1000 {
            Some(ErrorStatus { status })
        } else {
            None
        }
    }

    /// The error for a status code.
    pub(crate) fn of_code(status: u16) -> (error: Self)
        requires
            is_status_code(status),
        ensures
            error@ == status,
    {
        ErrorStatus { status }
    }

    /// The status that the response carried.
    pub fn status(&self) -> (status: u16)
        ensures
            status == self@,
            is_status_code(status),
    {
        proof {
            use_type_invariant(self);
        }
        self.status
    }

    /// The message of the error: a fixed prefix, then the status as it is printed.
    pub fn message(&self) -> (text: String)
        ensures
            text@ == Self::message_prefix() + status_line(self@),
    {
        proof {
            use_type_invariant(self);
        }
        let line = print_status(self.status);
        let mut text = String::from_str("Unknown Error Response: ");
        text.append(line.as_str());
        text
    }
}

} // verus!
