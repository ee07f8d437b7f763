//! What the library reads from a URL: its host component and the keys of its
//! query pairs, as plain values. The `url` crate does the parsing behind
//! trusted items; everything downstream of them is verified.

use vstd::prelude::*;

verus! {

/// Whether `url::Url::parse` accepts the text.
pub uninterp spec fn url_ok(s: Seq<char>) -> bool;

/// The host component `url::Url::host` reports for the text (for text that
/// parses), rendered as a string.
pub uninterp spec fn url_host_of(s: Seq<char>) -> Option<Seq<char>>;

/// The query keys `url::Url::query_pairs` reports for the text (for text
/// that parses), in query order, one entry per pair.
pub uninterp spec fn url_query_keys_of(s: Seq<char>) -> Seq<Seq<char>>;

/// What `url::Url::parse_with_params` serializes for a base URL and a list
/// of query pairs (for a base that parses).
pub uninterp spec fn url_with_params_of(base: Seq<char>, params: Seq<(Seq<char>, Seq<char>)>) -> Seq<
    char,
>;

/// The views of a list of string pairs.
pub open spec fn pairs_view(s: Seq<(String, String)>) -> Seq<(Seq<char>, Seq<char>)> {
    s.map(|i: int, p: (String, String)| (p.0@, p.1@))
}

/// The parts of a URL that the filter rules read.
pub struct UrlParts {
    /// The host component, if the URL has one.
    pub host: Option<String>,
    /// The keys of the query pairs, in query order.
    pub query_keys: Vec<String>,
}

/// Relies on the `url` crate: `Url::parse` decides success, `Url::host`
/// yields the host component, and `Url::query_pairs` yields the query keys
/// in order. Each is a function of the URL text alone.
#[verifier::external_body]
pub fn parse_url(s: &str) -> (r: Option<UrlParts>)
    ensures
        r is Some <==> url_ok(s@),
        r is Some ==> r->0.host.deep_view() == url_host_of(s@),
        r is Some ==> r->0.query_keys.deep_view() == url_query_keys_of(s@),
{
    match url::Url::parse(s) {
        Ok(u) => Some(
            UrlParts {
                host: u.host().map(|h| h.to_string()),
                query_keys: u.query_pairs().map(|p| p.0.to_string()).collect(),
            },
        ),
        Err(_) => None,
    }
}

/// Relies on `url::Url::parse_with_params`: parses the base URL, appends the
/// pairs form-urlencoded, and serializes the result. It succeeds exactly
/// when the base parses (appending query pairs cannot fail), and the result
/// is a function of the arguments alone.
#[verifier::external_body]
pub fn url_with_params(base: &str, params: &Vec<(String, String)>) -> (r: Option<String>)
    ensures
        r is Some <==> url_ok(base@),
        r is Some ==> r->0@ == url_with_params_of(base@, pairs_view(params@)),
{
    match url::Url::parse_with_params(base, params.iter().map(|p| (p.0.as_str(), p.1.as_str()))) {
        Ok(u) => Some(u.as_str().to_owned()),
        Err(_) => None,
    }
}

} // verus!
