//! Helpers shared by the endpoint modules: URL handling and the description of
//! an HTTP exchange.

pub mod http;
pub mod json;
pub mod text;

use vstd::prelude::*;
use crate::error::Error;

verus! {

/// A list of key and value strings, as sequences of characters.
pub open spec fn pairs_view(pairs: Vec<(String, String)>) -> Seq<(Seq<char>, Seq<char>)> {
    pairs@.map_values(|p: (String, String)| (p.0@, p.1@))
}

/// The normal form that `url::Url::parse` gives to the text of an absolute
/// URL, or `None` where the text is no absolute URL.
pub uninterp spec fn spec_parse_url(url: Seq<char>) -> Option<Seq<char>>;

/// The key and value pairs that `url::Url::query_pairs` finds in the query of
/// a URL's text, or `None` where the text is no absolute URL.
pub uninterp spec fn spec_parse_query(url: Seq<char>) -> Option<Seq<(Seq<char>, Seq<char>)>>;

/// Trusted: `url::Url::parse`, followed by the conversion of the URL into its
/// serialization. The result is named by [`spec_parse_url`].
#[verifier::external_body]
fn normalized_url(url: &str) -> (r: Option<String>)
    ensures
        r.is_some() == spec_parse_url(url@).is_some(),
        r.is_some() ==> r.unwrap()@ == spec_parse_url(url@).unwrap(),
{
    match url::Url::parse(url) {
        Ok(parsed) => Some(String::from(parsed)),
        Err(_) => None,
    }
}

/// Trusted: `url::Url::parse`, followed by `url::Url::query_pairs`, each pair
/// copied into owned strings. The result is named by [`spec_parse_query`].
#[verifier::external_body]
fn query_pairs(url: &str) -> (r: Option<Vec<(String, String)>>)
    ensures
        r.is_some() == spec_parse_query(url@).is_some(),
        r.is_some() ==> pairs_view(r.unwrap()) == spec_parse_query(url@).unwrap(),
{
    match url::Url::parse(url) {
        Ok(parsed) => Some(
            parsed.query_pairs().map(|(k, v)| (k.into_owned(), v.into_owned())).collect(),
        ),
        Err(_) => None,
    }
}

/// The normal form of the URL `url` after `url::Url::query_pairs_mut` has
/// appended the pairs of `query` to its query, encoded as a form; `None`
/// where `url` is no absolute URL.
pub uninterp spec fn spec_url_with_query(
    url: Seq<char>,
    query: Seq<(Seq<char>, Seq<char>)>,
) -> Option<Seq<char>>;

/// Trusted: `url::Url::parse`, then `url::Url::query_pairs_mut` and
/// `extend_pairs` with the pairs, then the conversion of the URL into its
/// serialization. The result is named by [`spec_url_with_query`].
#[verifier::external_body]
fn url_with_query(url: &str, query: &Vec<(String, String)>) -> (r: Option<String>)
    ensures
        crate::utils::text::optional_chars(r) == spec_url_with_query(url@, pairs_view(*query)),
{
    match url::Url::parse(url) {
        Ok(mut parsed) => {
            parsed.query_pairs_mut().extend_pairs(query.iter());
            Some(String::from(parsed))
        },
        Err(_) => None,
    }
}

/// The address that a request to `url` with the query pairs `query` goes to:
/// the normal form of `url` where there are no pairs, and else that form with
/// the pairs appended to its query; `None` where `url` is no absolute URL.
pub open spec fn spec_address(url: Seq<char>, query: Seq<(Seq<char>, Seq<char>)>) -> Option<
    Seq<char>,
> {
    if query.len() == 0 {
        spec_parse_url(url)
    } else {
        spec_url_with_query(url, query)
    }
}

/// The address that a request to `url` with the query pairs `query` goes to.
/// A text that is no absolute URL is an invalid parameter.
pub fn address(url: &str, query: &Vec<(String, String)>) -> (r: Result<String, Error>)
    ensures
        r.is_ok() == spec_address(url@, pairs_view(*query)).is_some(),
        r matches Ok(text) ==> Some(text@) == spec_address(url@, pairs_view(*query)),
        r matches Err(e) ==> e == Error::InvalidParameter(e->InvalidParameter_0) && e@.1
            == invalid_url_message(),
{
    if query.len() == 0 {
        parse_url(url)
    } else {
        match url_with_query(url, query) {
            Some(text) => Ok(text),
            None => Err(Error::InvalidParameter("invalid url".to_string())),
        }
    }
}

/// The message of the failure that a text which is no absolute URL gives.
pub open spec fn invalid_url_message() -> Seq<char> {
    "invalid url"@
}

/// Parses `url` as an absolute URL and returns its normal form. A text that
/// is no absolute URL is an invalid parameter.
pub fn parse_url(url: &str) -> (r: Result<String, Error>)
    ensures
        r.is_ok() == spec_parse_url(url@).is_some(),
        r matches Ok(text) ==> text@ == spec_parse_url(url@).unwrap(),
        r matches Err(e) ==> e == Error::InvalidParameter(e->InvalidParameter_0) && e@.1
            == invalid_url_message(),
{
    match normalized_url(url) {
        Some(text) => Ok(text),
        None => Err(Error::InvalidParameter("invalid url".to_string())),
    }
}

/// Parses `url` as an absolute URL and returns the key and value pairs of its
/// query, in order. A text that is no absolute URL is an invalid parameter.
pub fn parse_query(url: &str) -> (r: Result<Vec<(String, String)>, Error>)
    ensures
        r.is_ok() == spec_parse_query(url@).is_some(),
        r matches Ok(pairs) ==> pairs_view(pairs) == spec_parse_query(url@).unwrap(),
        r matches Err(e) ==> e == Error::InvalidParameter(e->InvalidParameter_0) && e@.1
            == invalid_url_message(),
{
    match query_pairs(url) {
        Some(pairs) => Ok(pairs),
        None => Err(Error::InvalidParameter("invalid url".to_string())),
    }
}

} // verus!
