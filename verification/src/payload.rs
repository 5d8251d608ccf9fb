//! The payload of an error report: what is told about the request that failed.

use vstd::prelude::*;
use vstd::slice::slice_to_vec;
use vstd::utf8::{decode_utf8, valid_utf8};
use crate::fields::{lemma_pairs_map_push, pairs_map, FieldMap};
use crate::query::{params_of, parse_params, query_view};
use crate::target::{path_of, query_of, split_target};
use crate::text::{cgi_key, decode_lossy, env_key, lossy_text};

verus! {

/// One header of a request: its name, and its value as the bytes that were sent.
#[derive(Debug)]
pub struct Header {
    pub name: String,
    pub value: Vec<u8>,
}

impl View for Header {
    type V = (Seq<char>, Seq<u8>);

    open spec fn view(&self) -> (Seq<char>, Seq<u8>) {
        (self.name@, self.value@)
    }
}

impl Header {
    /// A header with a copy of this name and of these bytes.
    pub fn new(name: &str, value: &[u8]) -> (header: Self)
        ensures
            header@ == (name@, value@),
    {
        Header { name: String::from_str(name), value: slice_to_vec(value) }
    }

    /// A copy of the header.
    pub fn duplicate(&self) -> (header: Self)
        ensures
            header@ == self@,
    {
        Header { name: self.name.clone(), value: self.value.clone() }
    }
}

/// The headers as pairs of name and bytes.
pub open spec fn headers_view(headers: Seq<Header>) -> Seq<(Seq<char>, Seq<u8>)> {
    headers.map_values(|h: Header| h@)
}

/// The entry that a header gives: its name in environment style, and its value as text.
pub open spec fn cgi_pair(header: (Seq<char>, Seq<u8>)) -> (Seq<char>, Seq<char>) {
    (env_key(header.0), lossy_text(header.1))
}

/// The entries that the headers give, one each, in their order.
pub open spec fn cgi_pairs(headers: Seq<(Seq<char>, Seq<u8>)>) -> Seq<(Seq<char>, Seq<char>)> {
    headers.map_values(|h: (Seq<char>, Seq<u8>)| cgi_pair(h))
}

/// The headers as a mapping from environment-style keys to text. Where two headers give the
/// same key, the later one's value stays.
pub open spec fn cgi_data_of(headers: Seq<(Seq<char>, Seq<u8>)>) -> Map<Seq<char>, Seq<char>> {
    pairs_map(cgi_pairs(headers))
}

/// The text of every header value that is valid UTF-8 is the text that the value encodes.
pub open spec fn valid_values_decoded(headers: Seq<(Seq<char>, Seq<u8>)>) -> bool {
    forall|i: int|
        0 <= i < headers.len() && valid_utf8((#[trigger] headers[i]).1) ==> lossy_text(
            headers[i].1,
        ) == decode_utf8(headers[i].1)
}

/// The scheme and authority that every reported URL starts with.
pub open spec fn url_base() -> Seq<char> {
    "http://localhost"@
}

/// The URL that is reported for a request with this path.
pub open spec fn report_url(path: Seq<char>) -> Seq<char> {
    url_base() + path
}

/// What a payload holds, as text and mappings.
pub struct PayloadView {
    pub url: Seq<char>,
    pub cgi_data: Map<Seq<char>, Seq<char>>,
    pub params: Map<Seq<char>, Seq<char>>,
}

/// The payload that describes a request with this target and these headers.
pub open spec fn payload_of(target: Seq<char>, headers: Seq<(Seq<char>, Seq<u8>)>) -> PayloadView {
    PayloadView {
        url: report_url(path_of(target)),
        cgi_data: cgi_data_of(headers),
        params: params_of(query_of(target)),
    }
}

/// What an error report tells about the request.
pub struct ErrorReportPayload {
    /// An absolute URL made of a fixed scheme and authority and the request's path.
    pub url: String,
    /// The request's headers under environment-style keys.
    pub cgi_data: FieldMap,
    /// The request's query parameters.
    pub params: FieldMap,
}

impl View for ErrorReportPayload {
    type V = PayloadView;

    open spec fn view(&self) -> PayloadView {
        PayloadView { url: self.url@, cgi_data: self.cgi_data@, params: self.params@ }
    }
}

/// Builds the URL that is reported for a request with this path.
pub fn build_url(path: &str) -> (url: String)
    ensures
        url@ == report_url(path@),
{
    let mut url = String::from_str("http://localhost");
    url.append(path);
    url
}

/// Builds the mapping of the headers: each under its environment-style key, its value
/// decoded as UTF-8 with replacement characters for what is not.
pub fn build_cgi_data(headers: &Vec<Header>) -> (cgi_data: FieldMap)
    ensures
        cgi_data@ == cgi_data_of(headers_view(headers@)),
        valid_values_decoded(headers_view(headers@)),
{
    let mut cgi_data = FieldMap::new();
    let mut i: usize = 0;
    while i < headers.len()
        invariant
            i <= headers@.len(),
            cgi_data@ == cgi_data_of(headers_view(headers@).take(i as int)),
            valid_values_decoded(headers_view(headers@).take(i as int)),
        decreases headers@.len() - i,
    {
        let key = cgi_key(headers[i].name.as_str());
        let value = decode_lossy(headers[i].value.as_slice());
        proof {
            let all = headers_view(headers@);
            let done = all.take(i as int);
            assert(all[i as int] == headers@[i as int]@);
            assert(all.take(i + 1) == done.push(all[i as int]));
            assert(cgi_pairs(done.push(all[i as int])) == cgi_pairs(done).push((key@, value@)));
            lemma_pairs_map_push(cgi_pairs(done), key@, value@);
        }
        cgi_data.insert(key, value);
        i += 1;
    }
    assert(headers_view(headers@).take(headers@.len() as int) == headers_view(headers@));
    cgi_data
}

/// Builds the payload that describes a request with this target and these headers.
pub fn build_payload(target: &str, headers: &Vec<Header>) -> (payload: ErrorReportPayload)
    ensures
        payload@ == payload_of(target@, headers_view(headers@)),
        valid_values_decoded(headers_view(headers@)),
{
    let (path, query) = split_target(target);
    let url = build_url(path.as_str());
    let cgi_data = build_cgi_data(headers);
    let params = match &query {
        Some(text) => parse_params(Some(text.as_str())),
        None => parse_params(None),
    };
    ErrorReportPayload { url, cgi_data, params }
}

} // verus!
