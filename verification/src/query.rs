//! Query strings as form-encoded pairs.

use vstd::prelude::*;
use crate::fields::{pairs_map, pairs_view, FieldMap};

verus! {

/// What `serde_urlencoded::from_str` makes of a query string when asked for a list of pairs
/// of strings: the decoded pairs in their order, or nothing where it reports an error.
pub uninterp spec fn form_pairs(query: Seq<char>) -> Option<Seq<(Seq<char>, Seq<char>)>>;

/// Decodes a form-encoded string with `serde_urlencoded::from_str` into its pairs of key and
/// value, in the order in which they stand in the string. An error of the decoder comes out
/// as `None`.
#[verifier::external_body]
fn decode_form(query: &str) -> (decoded: Option<Vec<(String, String)>>)
    ensures
        decoded matches Some(pairs) ==> form_pairs(query@) == Some(pairs_view(pairs@)),
        decoded is None ==> form_pairs(query@) is None,
{
    serde_urlencoded::from_str::<Vec<(String, String)>>(query).ok()
}

/// The parameters that decoded pairs stand for: the mapping of the pairs, where the last
/// value of a repeated key stays, or the empty mapping where nothing was decoded.
pub open spec fn decoded_params(decoded: Option<Seq<(Seq<char>, Seq<char>)>>) -> Map<
    Seq<char>,
    Seq<char>,
> {
    match decoded {
        Some(pairs) => pairs_map(pairs),
        None => Map::empty(),
    }
}

/// The parameters of a request with this query string.
pub open spec fn params_of(query: Option<Seq<char>>) -> Map<Seq<char>, Seq<char>> {
    match query {
        Some(text) => decoded_params(form_pairs(text)),
        None => Map::empty(),
    }
}

/// The decoder's result as text.
pub open spec fn decoded_view(decoded: Option<Vec<(String, String)>>) -> Option<
    Seq<(Seq<char>, Seq<char>)>,
> {
    match decoded {
        Some(pairs) => Some(pairs_view(pairs@)),
        None => None,
    }
}

/// A query string, where there is one, as text.
pub open spec fn query_view(query: Option<&str>) -> Option<Seq<char>> {
    match query {
        Some(text) => Some(text@),
        None => None,
    }
}

/// Turns what the decoder gave into parameters. Where it gave nothing, there are none.
pub fn params_from(decoded: &Option<Vec<(String, String)>>) -> (params: FieldMap)
    ensures
        params@ == decoded_params(decoded_view(*decoded)),
{
    match decoded {
        Some(pairs) => FieldMap::from_pairs(pairs),
        None => FieldMap::new(),
    }
}

/// The parameters of a request: its query string decoded as form-encoded pairs. A request
/// without a query string, or with one that the decoder refuses, has none.
pub fn parse_params(query: Option<&str>) -> (params: FieldMap)
    ensures
        params@ == params_of(query_view(query)),
{
    match query {
        Some(text) => {
            let decoded = decode_form(text);
            params_from(&decoded)
        },
        None => FieldMap::new(),
    }
}

} // verus!
