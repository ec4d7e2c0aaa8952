//! The search side of the pipeline: one query URL, one GET, and the parse
//! of the results page into entry references. A missing results container
//! is a malformed page; anchors that lack a piece are skipped one by one;
//! the list is capped to bound the fan-out on broad queries.

use vstd::prelude::*;

use crate::model::{EntryReference, FetchError};
use crate::net;
use select::document::Document;
use select::predicate::{Class, Name, Predicate};

verus! {

/// The bound on how many entries one search may fan out to.
pub const MAX_RESULTS: usize = 15;

/// The raw pieces found for one result anchor, before validation: the link
/// attribute, the glyph of the nested emoji element, and the label text.
pub struct RawAnchor {
    pub href: Option<String>,
    pub symbol: Option<String>,
    pub label: Option<String>,
}

/// What the search page's results container holds, if the container is
/// present at all; a function of the document bytes alone.
pub uninterp spec fn search_anchors_in(body: Seq<u8>) -> Option<Seq<RawAnchor>>;

/// Relies on select (Document::from_read, the Class/Name/Predicate
/// selectors, Node::find, Node::attr, Node::children, Node::text) to read
/// the search page: None when no results container is present, otherwise
/// the pieces of each result heading's anchor, in page order; a function
/// of the bytes alone.
#[verifier::external_body]
fn extract_search_anchors(body: &[u8]) -> (r: Option<Vec<RawAnchor>>)
    ensures
        r matches Some(v) ==> search_anchors_in(body@) == Some(v@),
        r is None ==> search_anchors_in(body@) is None,
{
    let doc = Document::from_read(body).ok()?;
    doc.find(Class("search-results")).next()?;
    let anchors = doc
        .find(Class("search-results").descendant(Name("h2").descendant(Name("a"))))
        .map(|node| RawAnchor {
            href: node.attr("href").map(|s| s.to_string()),
            symbol: node.find(Class("emoji")).next().map(|e| e.text()),
            label: node.children().nth(1).map(|c| c.text()),
        })
        .collect();
    Some(anchors)
}

/// A raw anchor yields an entry exactly when all three pieces are present.
pub open spec fn anchor_entry(a: RawAnchor) -> Option<EntryReference> {
    if a.href is Some && a.symbol is Some && a.label is Some {
        Some(
            EntryReference {
                locator: a.href->0,
                symbol: a.symbol->0,
                label: a.label->0,
            },
        )
    } else {
        None
    }
}

/// The entries of the parseable anchors, in page order.
pub open spec fn parsed_entries(s: Seq<RawAnchor>) -> Seq<EntryReference>
    decreases s.len(),
{
    if s.len() == 0 {
        Seq::empty()
    } else {
        match anchor_entry(s.first()) {
            Some(e) => seq![e] + parsed_entries(s.drop_first()),
            None => parsed_entries(s.drop_first()),
        }
    }
}

/// The first `n` elements of a sequence, or all of them when fewer.
pub open spec fn capped<A>(s: Seq<A>, n: int) -> Seq<A> {
    if s.len() <= n {
        s
    } else {
        s.take(n)
    }
}

/// Validates one raw anchor: an entry needs its locator, glyph and label;
/// an anchor that lacks any of them is skipped, not a total failure.
pub fn parse_anchor(a: RawAnchor) -> (r: Option<EntryReference>)
    ensures
        r == anchor_entry(a),
{
    match (a.href, a.symbol, a.label) {
        (Some(h), Some(s), Some(l)) => Some(EntryReference { locator: h, symbol: s, label: l }),
        _ => None,
    }
}

/// Keeps the anchors that parse, in page order, capped at MAX_RESULTS.
pub fn entries_from_anchors(anchors: Vec<RawAnchor>) -> (r: Vec<EntryReference>)
    ensures
        r@ == capped(parsed_entries(anchors@), MAX_RESULTS as int),
{
    let ghost orig = anchors@;
    let mut rest = anchors;
    let mut out: Vec<EntryReference> = Vec::new();
    proof {
        assert(out@ + parsed_entries(rest@) =~= parsed_entries(orig));
    }
    while rest.len() > 0
        invariant
            parsed_entries(orig) == out@ + parsed_entries(rest@),
        decreases rest.len(),
    {
        let ghost prev = rest@;
        let a = rest.remove(0);
        proof {
            assert(prev.remove(0) =~= prev.drop_first());
            assert(a == prev.first());
        }
        match parse_anchor(a) {
            Some(e) => {
                proof {
                    assert(parsed_entries(prev) == seq![e] + parsed_entries(prev.drop_first()));
                }
                out.push(e);
                proof {
                    assert(out@ + parsed_entries(rest@) =~= parsed_entries(orig));
                }
            },
            None => {
                proof {
                    assert(parsed_entries(prev) == parsed_entries(prev.drop_first()));
                }
            },
        }
    }
    proof {
        assert(parsed_entries(rest@) =~= Seq::<EntryReference>::empty());
        assert(out@ =~= parsed_entries(orig));
    }
    let ghost full = parsed_entries(orig);
    out.truncate(MAX_RESULTS);
    proof {
        if full.len() <= MAX_RESULTS as int {
            assert(out@ =~= capped(full, MAX_RESULTS as int));
        } else {
            assert(out@ =~= full.take(MAX_RESULTS as int));
        }
    }
    out
}

/// Turns the extraction outcome into the search result: a missing results
/// container is Err(Malformed); otherwise the parseable anchors become the
/// (possibly empty) entry list.
pub fn entries_from_page(page: Option<Vec<RawAnchor>>) -> (r: Result<
    Vec<EntryReference>,
    FetchError,
>)
    ensures
        page is None ==> r == Result::<Vec<EntryReference>, FetchError>::Err(FetchError::Malformed),
        page matches Some(v) ==> r matches Ok(es) && es@ == capped(
            parsed_entries(v@),
            MAX_RESULTS as int,
        ),
{
    match page {
        None => Err(FetchError::Malformed),
        Some(v) => Ok(entries_from_anchors(v)),
    }
}

/// Parses a fetched search page: Err(Malformed) exactly when the results
/// container is absent; a container with no parseable anchor is an empty,
/// successful list; otherwise the capped entries, in page order.
pub fn parse_search_page(body: &[u8]) -> (r: Result<Vec<EntryReference>, FetchError>)
    ensures
        search_anchors_in(body@) is None <==> r == Result::<Vec<EntryReference>, FetchError>::Err(
            FetchError::Malformed,
        ),
        search_anchors_in(body@) matches Some(v) ==> r matches Ok(es) && es@ == capped(
            parsed_entries(v),
            MAX_RESULTS as int,
        ),
{
    let page = extract_search_anchors(body);
    entries_from_page(page)
}

/// Decides the search result from one GET's whole outcome: a non-success
/// status is Err(Network); on success the body is parsed — no results
/// container is Err(Malformed), otherwise the capped entries in page order.
pub fn consume_search_response(status: u16, body: &[u8]) -> (r: Result<
    Vec<EntryReference>,
    FetchError,
>)
    ensures
        !(200 <= status && status < 300) ==> r == Result::<Vec<EntryReference>, FetchError>::Err(
            FetchError::Network,
        ),
        (200 <= status && status < 300) ==> (search_anchors_in(body@) is None <==> r
            == Result::<Vec<EntryReference>, FetchError>::Err(FetchError::Malformed)),
        (200 <= status && status < 300) ==> (search_anchors_in(body@) matches Some(v) ==> r matches
            Ok(es) && es@ == capped(parsed_entries(v), MAX_RESULTS as int)),
        r matches Ok(es) ==> es@.len() <= MAX_RESULTS as int,
{
    if !net::status_is_success(status) {
        return Err(FetchError::Network);
    }
    parse_search_page(body)
}

/// Runs one search call: builds the encoded query URL, performs the GET,
/// and decides from its outcome. Transport failure or a non-success status
/// is Err(Network); a page without the results container is Err(Malformed);
/// otherwise at most MAX_RESULTS entries, in page order.
pub fn search(query: &str) -> (r: Result<Vec<EntryReference>, FetchError>)
    ensures
        r matches Ok(es) ==> es@.len() <= MAX_RESULTS as int,
{
    let url = net::build_search_url(query).unwrap();
    let fetched = match net::http_get(url.as_str()) {
        Ok(p) => p,
        Err(e) => {
            return Err(e);
        },
    };
    let (status, body) = fetched;
    consume_search_response(status, body.as_slice())
}

} // verus!
