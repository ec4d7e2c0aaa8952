//! The data model: entry references produced by the search page, result
//! items shown to the launcher, the response wrapper, and the error taxonomy.

use vstd::prelude::*;

verus! {

/// A failure while fetching or reading a remote document.
#[derive(Clone, Copy, Debug, PartialEq, Eq, Structural)]
pub enum FetchError {
    /// Transport failure or a non-success response status.
    Network,
    /// An expected structural element was absent from a fetched document.
    Malformed,
}

/// A failure anywhere in the per-entry pipeline: a fetch failure carried
/// through unchanged, or a cache-root / cache-write failure.
#[derive(Clone, Copy, Debug, PartialEq, Eq, Structural)]
pub enum PipelineError {
    Fetch(FetchError),
    Cache,
}

/// One search match, before its image is resolved: the detail-page locator,
/// the emoji glyph, and the display name.
#[derive(Clone, Debug, PartialEq, Eq)]
pub struct EntryReference {
    pub locator: String,
    pub symbol: String,
    pub label: String,
}

/// The externally visible unit: one per successfully resolved entry, or a
/// single synthetic placeholder when the pipeline yields no usable item.
#[derive(Clone, Debug, PartialEq, Eq)]
pub struct ResultItem {
    pub uid: String,
    pub title: String,
    pub arg: String,
    pub icon_path: String,
}

/// The ordered list of result items produced by one invocation.
#[derive(Clone, Debug, PartialEq, Eq)]
pub struct Response {
    pub items: Vec<ResultItem>,
}

/// A result item is displayable: its icon path is never empty.
pub open spec fn item_displayable(it: ResultItem) -> bool {
    it.icon_path@.len() > 0
}

/// The diagnostic message shown when the initial search fails.
pub open spec fn diagnostic_message(e: FetchError) -> Seq<char> {
    match e {
        FetchError::Network => "Unable to reach the emoji site"@,
        FetchError::Malformed => "Unexpected page layout from the emoji site"@,
    }
}

/// The fixed icon shown beside the search-failure diagnostic.
pub open spec fn error_icon() -> Seq<char> {
    "error.png"@
}

/// The fixed message and icon of the empty-state placeholder.
pub open spec fn empty_message() -> Seq<char> {
    "No results found"@
}

pub open spec fn empty_icon() -> Seq<char> {
    "broken_heart.png"@
}

/// The single placeholder item that reports a failed search (its title is
/// the human-readable diagnostic, its icon the fixed error marker).
pub open spec fn is_error_item(it: ResultItem, e: FetchError) -> bool {
    &&& it.uid@ == Seq::<char>::empty()
    &&& it.title@ == diagnostic_message(e)
    &&& it.arg@ == Seq::<char>::empty()
    &&& it.icon_path@ == error_icon()
}

/// The single placeholder item that reports an empty result list.
pub open spec fn is_empty_item(it: ResultItem) -> bool {
    &&& it.uid@ == Seq::<char>::empty()
    &&& it.title@ == empty_message()
    &&& it.arg@ == Seq::<char>::empty()
    &&& it.icon_path@ == empty_icon()
}

} // verus!
