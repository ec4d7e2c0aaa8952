//! The network edge: URL construction against the fixed site base and one
//! blocking GET. The URL functions are deterministic in their argument and
//! are named as such; of a GET nothing is promised beyond its error kind.

use vstd::prelude::*;

use crate::model::FetchError;

verus! {

/// The search URL with the query percent-encoded as its single parameter;
/// a function of the query alone.
pub uninterp spec fn search_url_for(q: Seq<char>) -> Seq<char>;

/// The absolute URL a detail locator resolves to against the fixed site
/// base, if it joins at all; a function of the locator alone.
pub uninterp spec fn joined_url_for(locator: Seq<char>) -> Option<Seq<char>>;

/// The normalized form an absolute URL string parses to, if it parses at
/// all; a function of the string alone.
pub uninterp spec fn parsed_url_for(s: Seq<char>) -> Option<Seq<char>>;

/// Relies on url::Url::parse_with_params (url is reqwest's URL type): the
/// fixed search endpoint with the query attached as one percent-encoded
/// parameter; the result depends on the query alone. Only parsing the base
/// can fail, and the fixed base is valid, so a URL always comes back.
#[verifier::external_body]
pub(crate) fn build_search_url(query: &str) -> (r: Option<String>)
    ensures
        r is Some,
        r matches Some(u) ==> u@ == search_url_for(query@),
{
    reqwest::Url::parse_with_params("https://emojipedia.org/search/", &[("q", query)])
        .ok()
        .map(|u| u.as_str().to_owned())
}

/// Relies on url::Url::join against the parsed fixed base
/// "https://emojipedia.org"; the result depends on the locator alone.
#[verifier::external_body]
pub(crate) fn resolve_locator_url(locator: &str) -> (r: Option<String>)
    ensures
        r matches Some(u) ==> joined_url_for(locator@) == Some(u@),
        r is None ==> joined_url_for(locator@) is None,
{
    let base = reqwest::Url::parse("https://emojipedia.org").ok()?;
    base.join(locator).ok().map(|u| u.as_str().to_owned())
}

/// Relies on url::Url::parse; the result depends on the string alone.
#[verifier::external_body]
pub(crate) fn parse_absolute_url(s: &str) -> (r: Option<String>)
    ensures
        r matches Some(u) ==> parsed_url_for(s@) == Some(u@),
        r is None ==> parsed_url_for(s@) is None,
{
    reqwest::Url::parse(s).ok().map(|u| u.as_str().to_owned())
}

/// Relies on reqwest::blocking::get, Response::status and Response::bytes:
/// one blocking GET, handing back the status code and the raw body; the
/// default blocking client bounds each request's wait (30 s), so an
/// unresponsive host surfaces as an error for this call alone. The outcome
/// depends on the network, so nothing more is promised of it. reqwest's
/// blocking API panics when invoked from inside an async runtime; this
/// crate is wholly synchronous, so no caller does.
#[verifier::external_body]
pub(crate) fn http_get(url: &str) -> (r: Result<(u16, Vec<u8>), FetchError>)
    ensures
        r matches Err(e) ==> e == FetchError::Network,
{
    match reqwest::blocking::get(url) {
        Ok(resp) => {
            let status = resp.status().as_u16();
            match resp.bytes() {
                Ok(b) => Ok((status, b.to_vec())),
                Err(_) => Err(FetchError::Network),
            }
        },
        Err(_) => Err(FetchError::Network),
    }
}

/// A response status counts as success exactly when it lies in the 2xx range.
pub fn status_is_success(code: u16) -> (r: bool)
    ensures
        r == (200 <= code && code < 300),
{
    200 <= code && code < 300
}

} // verus!
