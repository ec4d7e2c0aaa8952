//! The detail side: one entry's locator is joined against the site base,
//! its detail page fetched, the vendor image's lazy-load source attribute
//! read and resolved, and the image bytes fetched and handed back unchanged
//! (byte-for-byte, format-agnostic).

use vstd::prelude::*;

use crate::model::FetchError;
use crate::net;
use select::document::Document;
use select::predicate::{Class, Name};

verus! {

/// The detail page's vendor-image source: the image's lazy-load attribute,
/// or its direct source attribute when the lazy one is absent; None when
/// the region, the image element, or both attributes are missing. A
/// function of the document bytes alone.
pub uninterp spec fn image_src_in(body: Seq<u8>) -> Option<Seq<char>>;

/// Relies on select (Document::from_read, the Class/Name selectors,
/// Node::find, Node::attr) to read the detail page: the source of the
/// image inside the vendor-image region, from whichever of the lazy-load
/// and direct attributes is present (the site drifts between the two);
/// a function of the bytes alone.
#[verifier::external_body]
fn extract_image_src(body: &[u8]) -> (r: Option<String>)
    ensures
        r matches Some(s) ==> image_src_in(body@) == Some(s@),
        r is None ==> image_src_in(body@) is None,
{
    let doc = Document::from_read(body).ok()?;
    let region = doc.find(Class("vendor-image")).next()?;
    let img = region.find(Name("img")).next()?;
    img.attr("data-cfsrc").or(img.attr("src")).map(|s| s.to_string())
}

/// Finds the absolute image URL on a fetched detail page: Err(Malformed)
/// exactly when the image attribute is missing or does not parse as an
/// absolute URL.
pub fn image_url_from_page(body: &[u8]) -> (r: Result<String, FetchError>)
    ensures
        r matches Ok(u) ==> image_src_in(body@) matches Some(src) && net::parsed_url_for(src)
            == Some(u@),
        r matches Err(e) ==> e == FetchError::Malformed,
        r is Err <==> (image_src_in(body@) is None || (image_src_in(body@) matches Some(src)
            && net::parsed_url_for(src) is None)),
{
    match extract_image_src(body) {
        None => Err(FetchError::Malformed),
        Some(src) => match net::parse_absolute_url(src.as_str()) {
            Some(u) => Ok(u),
            None => Err(FetchError::Malformed),
        },
    }
}

/// Decides the image URL from the detail-page GET's whole outcome: a
/// non-success status is Err(Network); on success the page is read — a
/// missing or unparseable image attribute is Err(Malformed), otherwise the
/// absolute image URL.
pub fn consume_detail_response(status: u16, body: &[u8]) -> (r: Result<String, FetchError>)
    ensures
        !(200 <= status && status < 300) ==> r == Result::<String, FetchError>::Err(
            FetchError::Network,
        ),
        (200 <= status && status < 300) ==> (r matches Ok(u) ==> image_src_in(body@) matches Some(
            src,
        ) && net::parsed_url_for(src) == Some(u@)),
        (200 <= status && status < 300) ==> (r matches Err(e) ==> e == FetchError::Malformed),
        (200 <= status && status < 300) ==> (r is Err <==> (image_src_in(body@) is None || (
        image_src_in(body@) matches Some(src) && net::parsed_url_for(src) is None))),
{
    if !net::status_is_success(status) {
        return Err(FetchError::Network);
    }
    image_url_from_page(body)
}

/// Accepts the image GET's outcome: a success status hands the body back
/// byte-for-byte, untransformed; anything else is Err(Network).
pub fn accept_image_response(status: u16, bytes: Vec<u8>) -> (r: Result<Vec<u8>, FetchError>)
    ensures
        (200 <= status && status < 300) ==> r == Result::<Vec<u8>, FetchError>::Ok(bytes),
        !(200 <= status && status < 300) ==> r == Result::<Vec<u8>, FetchError>::Err(
            FetchError::Network,
        ),
{
    if net::status_is_success(status) {
        Ok(bytes)
    } else {
        Err(FetchError::Network)
    }
}

/// Resolves one entry's image to its raw bytes. A locator that cannot be
/// joined into a valid URL is Err(Malformed); transport failure or a
/// non-success status on either fetch is Err(Network); a detail page
/// without a readable image attribute is Err(Malformed). The bytes of a
/// successful image fetch pass through undecoded and unvalidated.
pub fn resolve_image(locator: &str) -> (r: Result<Vec<u8>, FetchError>)
    ensures
        net::joined_url_for(locator@) is None ==> r == Result::<Vec<u8>, FetchError>::Err(
            FetchError::Malformed,
        ),
{
    let url = match net::resolve_locator_url(locator) {
        Some(u) => u,
        None => {
            return Err(FetchError::Malformed);
        },
    };
    let fetched = match net::http_get(url.as_str()) {
        Ok(p) => p,
        Err(e) => {
            return Err(e);
        },
    };
    let (status, page) = fetched;
    let image_url = match consume_detail_response(status, page.as_slice()) {
        Ok(u) => u,
        Err(e) => {
            return Err(e);
        },
    };
    let image_fetched = match net::http_get(image_url.as_str()) {
        Ok(p) => p,
        Err(e) => {
            return Err(e);
        },
    };
    let (image_status, bytes) = image_fetched;
    accept_image_response(image_status, bytes)
}

} // verus!
