//! What holds of the interceptor as a whole, proved from the definitions that the contracts
//! of the library are stated with.

use vstd::prelude::*;
use crate::fields::lemma_pairs_map_last_wins;
use crate::middleware::{next_phase, step_report, Phase, Polled};
use crate::payload::{cgi_data_of, cgi_pairs, payload_of, report_url, url_base};
use crate::query::{form_pairs, params_of};
use crate::reporter::{notice_of, report_of, Notice, Outcome, RequestSnapshot};
use crate::status::reportable;
use crate::target::{lemma_path_exists, path_len, path_of, query_of, QUERY_MARK};
use crate::text::{env_char, env_key, env_prefix, lossy_text};

verus! {

/// What a handler returned comes back as it was: made into an outcome with whatever status,
/// and taken out of the outcome again, it is the same value, a response as much as an error.
pub proof fn law_result_comes_back<R, E>(result: Result<R, E>, status: u16)
    ensures
        Outcome::of_result(result, status).result() == result,
        Outcome::of_result(result, status).status_code() == status,
        Outcome::of_result(result, status) is Failure <==> result is Err,
        Polled::Ready(Outcome::of_result(result, status)).ready_value() == Some(
            Outcome::of_result(result, status),
        ),
{
}

/// A report is owed exactly for the statuses 429 and 500 to 599, whatever the request was
/// and whether the handler answered or failed.
pub proof fn law_report_iff_reportable(snapshot: RequestSnapshot, failed: bool, status: u16)
    ensures
        report_of(snapshot, failed, status) is Some <==> status == 429 || 500 <= status <= 599,
{
}

/// A report that is owed describes the captured request, and says how it is sent: with the
/// handler's error where the handler failed, with the status where it answered.
pub proof fn law_report_content(snapshot: RequestSnapshot, failed: bool, status: u16)
    requires
        reportable(status),
    ensures
        report_of(snapshot, failed, status) matches Some(report) && report.payload == payload_of(
            snapshot.target,
            snapshot.headers,
        ) && (failed ==> report.notice == Notice::Error) && (!failed ==> report.notice
            == Notice::Status(status)),
{
}

/// While the inner handler is pending nothing is reported and the request stays where it
/// stands.
pub proof fn law_pending_changes_nothing<R, E>(snapshot: RequestSnapshot, phase: Phase)
    ensures
        step_report::<R, E>(snapshot, phase, Polled::Pending) is None,
        next_phase::<Outcome<R, E>>(phase, Polled::Pending) == phase,
{
}

/// The first outcome of a request is reported exactly when its status is reportable.
pub proof fn law_first_outcome_reported<R, E>(snapshot: RequestSnapshot, outcome: Outcome<R, E>)
    ensures
        step_report(snapshot, Phase::Awaiting, Polled::Ready(outcome)) is Some <==> reportable(
            outcome.status_code(),
        ),
        next_phase(Phase::Awaiting, Polled::Ready(outcome)) == Phase::Done,
{
}

/// At most one report is made per request: once asking the inner handler gave a report,
/// asking it again gives none, whatever comes back.
pub proof fn law_at_most_one_report<R, E>(
    snapshot: RequestSnapshot,
    phase: Phase,
    first: Polled<Outcome<R, E>>,
    second: Polled<Outcome<R, E>>,
)
    requires
        step_report(snapshot, phase, first) is Some,
    ensures
        step_report(snapshot, next_phase(phase, first), second) is None,
{
}

/// A request that is done stays done and is never reported again.
pub proof fn law_done_is_final<R, E>(snapshot: RequestSnapshot, polled: Polled<Outcome<R, E>>)
    ensures
        step_report(snapshot, Phase::Done, polled) is None,
        next_phase(Phase::Done, polled) == Phase::Done,
{
}

/// A target without a query mark is its own path and has no query string; one with a query
/// mark is its path, the mark, and its query string.
pub proof fn law_target_parts(target: Seq<char>)
    ensures
        !path_of(target).contains(QUERY_MARK),
        match query_of(target) {
            Some(query) => target == path_of(target) + seq![QUERY_MARK] + query,
            None => target == path_of(target),
        },
{
    lemma_path_exists(target);
    let at = path_len(target);
    let path = path_of(target);
    if path.contains(QUERY_MARK) {
        let i = choose|i: int| 0 <= i < path.len() && path[i] == QUERY_MARK;
        assert(target[i] == QUERY_MARK);
    }
    match query_of(target) {
        Some(query) => {
            assert(target =~= path + seq![QUERY_MARK] + query);
        },
        None => {
            assert(target =~= path);
        },
    }
}

/// The reported URL is the fixed base followed by the path: nothing of the query string is
/// in it, and no query mark.
pub proof fn law_url_excludes_query(target: Seq<char>, headers: Seq<(Seq<char>, Seq<u8>)>)
    ensures
        payload_of(target, headers).url == url_base() + path_of(target),
        !payload_of(target, headers).url.contains(QUERY_MARK),
{
    law_target_parts(target);
    reveal_strlit("http://localhost");
    let base = url_base();
    let path = path_of(target);
    let url = report_url(path);
    if url.contains(QUERY_MARK) {
        let i = choose|i: int| 0 <= i < url.len() && url[i] == QUERY_MARK;
        if i < base.len() {
            assert(url[i] == base[i]);
        } else {
            assert(url[i] == path[i - base.len()]);
        }
    }
}

/// A request without a query string has no parameters, and so has one whose query string
/// the decoder refuses.
pub proof fn law_params_fall_back_to_empty(target: Seq<char>, headers: Seq<(Seq<char>, Seq<u8>)>)
    requires
        query_of(target) matches Some(query) ==> form_pairs(query) is None,
    ensures
        payload_of(target, headers).params == Map::<Seq<char>, Seq<char>>::empty(),
{
}

/// An environment-style key is `HTTP_` followed by one character for each character of the
/// name. It holds no `-`, and no ASCII lower-case letter.
pub proof fn law_env_key_shape(name: Seq<char>)
    ensures
        env_key(name).len() == 5 + name.len(),
        env_key(name).take(5) == env_prefix(),
        forall|i: int| 0 <= i < name.len() ==> env_key(name)[5 + i] == env_char(name[i]),
        forall|i: int|
            0 <= i < env_key(name).len() ==> #[trigger] env_key(name)[i] != '-' && !('a'
                <= env_key(name)[i] <= 'z'),
{
    let key = env_key(name);
    assert(key.take(5) =~= env_prefix());
    assert forall|i: int| 0 <= i < key.len() implies #[trigger] key[i] != '-' && !('a' <= key[i]
        <= 'z') by {
        if i >= 5 {
            assert(key[i] == env_char(name[i - 5]));
        }
    }
}

/// Names that differ only in the case of ASCII letters, or in `-` against `_`, have the same
/// key.
pub proof fn law_env_key_ignores_case(a: Seq<char>, b: Seq<char>)
    requires
        a.len() == b.len(),
        forall|i: int| 0 <= i < a.len() ==> env_char(a[i]) == env_char(b[i]),
    ensures
        env_key(a) == env_key(b),
{
    assert(a.map_values(|c: char| env_char(c)) =~= b.map_values(|c: char| env_char(c)));
}

/// Every header is found under its key with its value as text, unless a later header has
/// the same key: of headers with one key the last one stays.
pub proof fn law_last_header_wins(headers: Seq<(Seq<char>, Seq<u8>)>, at: int)
    requires
        0 <= at < headers.len(),
        forall|j: int| at < j < headers.len() ==> env_key(headers[j].0) != env_key(headers[at].0),
    ensures
        cgi_data_of(headers).contains_key(env_key(headers[at].0)),
        cgi_data_of(headers)[env_key(headers[at].0)] == lossy_text(headers[at].1),
{
    let pairs = cgi_pairs(headers);
    assert forall|j: int| at < j < pairs.len() implies (#[trigger] pairs[j]).0 != pairs[at].0 by {
        assert(pairs[j].0 == env_key(headers[j].0));
    }
    lemma_pairs_map_last_wins(pairs, at);
}

/// The payload depends on the captured request alone: the outcome decides whether there is
/// a report and how it is sent, never what it tells about the request.
pub proof fn law_payload_ignores_outcome(
    snapshot: RequestSnapshot,
    failed: bool,
    status: u16,
    other_failed: bool,
    other_status: u16,
)
    requires
        reportable(status),
        reportable(other_status),
    ensures
        report_of(snapshot, failed, status)->0.payload == report_of(
            snapshot,
            other_failed,
            other_status,
        )->0.payload,
        report_of(snapshot, failed, status)->0.notice == notice_of(failed, status),
{
}

} // verus!
