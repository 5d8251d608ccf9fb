//! The report builder: it holds what was captured of a request, and decides from the outcome
//! of the request whether and what to report.

use vstd::prelude::*;
use crate::payload::{
    build_payload, headers_view, payload_of, valid_values_decoded, ErrorReportPayload, Header,
    PayloadView,
};
use crate::status::{is_reportable, lemma_reportable_is_status_code, reportable, ErrorStatus};

verus! {

/// What a handler made of a request: a response, or a failure. Either carries the status
/// code that it stands for.
#[derive(Debug, PartialEq, Eq)]
pub enum Outcome<R, E> {
    /// The handler answered.
    Success { response: R, status: u16 },
    /// The handler failed; `status` is the status that the error is rendered with.
    Failure { error: E, status: u16 },
}

impl<R, E> Outcome<R, E> {
    /// The status code of the outcome.
    pub open spec fn status_code(self) -> u16 {
        match self {
            Outcome::Success { status, .. } => status,
            Outcome::Failure { status, .. } => status,
        }
    }

    /// The outcome of a handler that returned `result`, which stands for `status`.
    pub open spec fn of_result(result: Result<R, E>, status: u16) -> Self {
        match result {
            Ok(response) => Outcome::Success { response, status },
            Err(error) => Outcome::Failure { error, status },
        }
    }

    /// Makes the outcome of a handler that returned `result`, which stands for `status`.
    pub fn from_result(result: Result<R, E>, status: u16) -> (outcome: Self)
        ensures
            outcome == Self::of_result(result, status),
    {
        match result {
            Ok(response) => Outcome::Success { response, status },
            Err(error) => Outcome::Failure { error, status },
        }
    }

    /// What the handler returned.
    pub open spec fn result(self) -> Result<R, E> {
        match self {
            Outcome::Success { response, .. } => Ok(response),
            Outcome::Failure { error, .. } => Err(error),
        }
    }

    /// Gives back what the handler returned.
    pub fn into_result(self) -> (result: Result<R, E>)
        ensures
            result == self.result(),
    {
        match self {
            Outcome::Success { response, .. } => Ok(response),
            Outcome::Failure { error, .. } => Err(error),
        }
    }

    /// The status code of the outcome.
    pub fn status(&self) -> (status: u16)
        ensures
            status == self.status_code(),
    {
        match self {
            Outcome::Success { status, .. } => *status,
            Outcome::Failure { status, .. } => *status,
        }
    }

    /// Whether the handler failed.
    pub fn is_failure(&self) -> (failed: bool)
        ensures
            failed == (*self is Failure),
    {
        match self {
            Outcome::Success { .. } => false,
            Outcome::Failure { .. } => true,
        }
    }
}

/// Which of the two notifications a report is sent with.
#[derive(Debug)]
pub enum Notification {
    /// The handler's own error is reported.
    Error,
    /// The handler answered without an error: this error is reported in its place.
    Status(ErrorStatus),
}

/// A notification, with the status where it carries one.
pub enum Notice {
    Error,
    Status(u16),
}

impl View for Notification {
    type V = Notice;

    open spec fn view(&self) -> Notice {
        match self {
            Notification::Error => Notice::Error,
            Notification::Status(error) => Notice::Status(error@),
        }
    }
}

/// What a report holds, as text and mappings.
pub struct ReportView {
    pub payload: PayloadView,
    pub notice: Notice,
}

/// A report that is to be sent: what it tells about the request, and how it is sent.
pub struct Report {
    pub payload: ErrorReportPayload,
    pub notification: Notification,
}

impl View for Report {
    type V = ReportView;

    open spec fn view(&self) -> ReportView {
        ReportView { payload: self.payload@, notice: self.notification@ }
    }
}

/// What was captured of a request: its target and its headers.
pub struct RequestSnapshot {
    pub target: Seq<char>,
    pub headers: Seq<(Seq<char>, Seq<u8>)>,
}

/// The notification for an outcome: a failure is reported with its own error, a response
/// with an error made of its status.
pub open spec fn notice_of(failed: bool, status: u16) -> Notice {
    if failed {
        Notice::Error
    } else {
        Notice::Status(status)
    }
}

/// The report that is owed for a request and its outcome: one for a reportable status, none
/// for any other.
pub open spec fn report_of(snapshot: RequestSnapshot, failed: bool, status: u16) -> Option<
    ReportView,
> {
    if reportable(status) {
        Some(
            ReportView {
                payload: payload_of(snapshot.target, snapshot.headers),
                notice: notice_of(failed, status),
            },
        )
    } else {
        None
    }
}

/// A report, where there is one, as text and mappings.
pub open spec fn report_view(report: Option<Report>) -> Option<ReportView> {
    match report {
        Some(report) => Some(report@),
        None => None,
    }
}

/// Holds what was captured of a request before it was handled, and builds the report on its
/// outcome.
#[derive(Debug)]
pub struct Reporter {
    uri: String,
    headers: Vec<Header>,
}

impl View for Reporter {
    type V = RequestSnapshot;

    closed spec fn view(&self) -> RequestSnapshot {
        RequestSnapshot { target: self.uri@, headers: headers_view(self.headers@) }
    }
}

impl Reporter {
    /// Captures a request: copies its target, which is its path and, behind a `?`, its query
    /// string, and its headers in their order.
    pub fn new(target: &str, headers: &Vec<Header>) -> (reporter: Self)
        ensures
            reporter@ == (RequestSnapshot { target: target@, headers: headers_view(headers@) }),
    {
        let mut copied: Vec<Header> = Vec::new();
        let mut i: usize = 0;
        while i < headers.len()
            invariant
                i <= headers@.len(),
                headers_view(copied@) == headers_view(headers@).take(i as int),
            decreases headers@.len() - i,
        {
            let header = headers[i].duplicate();
            proof {
                let all = headers_view(headers@);
                assert(all.take(i + 1) == all.take(i as int).push(header@));
                assert(headers_view(copied@.push(header)) == headers_view(copied@).push(header@));
            }
            copied.push(header);
            i += 1;
        }
        assert(headers_view(headers@).take(headers@.len() as int) == headers_view(headers@));
        Reporter { uri: String::from_str(target), headers: copied }
    }

    /// The target that was captured.
    pub fn uri(&self) -> (target: &str)
        ensures
            target@ == self@.target,
    {
        self.uri.as_str()
    }

    /// The headers that were captured.
    pub fn headers(&self) -> (headers: &Vec<Header>)
        ensures
            headers_view(headers@) == self@.headers,
    {
        &self.headers
    }

    /// The payload that describes the captured request.
    pub fn payload(&self) -> (payload: ErrorReportPayload)
        ensures
            payload@ == payload_of(self@.target, self@.headers),
            valid_values_decoded(self@.headers),
    {
        build_payload(self.uri.as_str(), &self.headers)
    }

    /// Decides on the outcome of the request. An outcome with a reportable status gives a
    /// report: the payload of the captured request, to be sent with the handler's error
    /// where it failed, and with an error made of the status where it answered. Any other
    /// outcome gives none.
    pub fn report<R, E>(&self, outcome: &Outcome<R, E>) -> (report: Option<Report>)
        ensures
            report_view(report) == report_of(self@, *outcome is Failure, outcome.status_code()),
            report is Some ==> valid_values_decoded(self@.headers),
    {
        let status = outcome.status();
        if !is_reportable(status) {
            return None;
        }
        let notification = if outcome.is_failure() {
            Notification::Error
        } else {
            proof {
                lemma_reportable_is_status_code(status);
            }
            Notification::Status(ErrorStatus::of_code(status))
        };
        Some(Report { payload: self.payload(), notification })
    }
}

} // verus!
