//! The orchestration: one search, a parallel fan-out of per-entry
//! resolution with per-item failure isolation, and the merge into the final
//! ordered response. Entries that fail are dropped; the survivors keep the
//! search-result order whatever order their fetches completed in; a failed
//! search or an empty surviving list becomes a single placeholder item.

use vstd::prelude::*;

use crate::cache;
use crate::keys;
use crate::model::{
    diagnostic_message, is_empty_item, is_error_item, item_displayable, EntryReference, FetchError,
    Response, ResultItem,
};
use crate::resolver;
use crate::search;
use rayon::iter::{IntoParallelRefIterator, ParallelIterator};

verus! {

/// What may come back for one entry: nothing, or an item carrying the
/// entry's glyph as uid and action value, its label as title, and a
/// non-empty icon path that ends with the entry's deterministic cache key.
pub open spec fn entry_outcome(e: EntryReference, o: Option<ResultItem>) -> bool {
    o matches Some(it) ==> {
        &&& it.uid@ == e.symbol@
        &&& it.title@ == e.label@
        &&& it.arg@ == e.symbol@
        &&& cache::path_ends_with(it.icon_path@, keys::cache_key(e.locator@))
        &&& item_displayable(it)
    }
}

/// Builds the launcher item for a resolved entry.
pub fn make_item(e: &EntryReference, icon_path: String) -> (it: ResultItem)
    ensures
        it.uid@ == e.symbol@,
        it.title@ == e.label@,
        it.arg@ == e.symbol@,
        it.icon_path == icon_path,
{
    ResultItem {
        uid: e.symbol.clone(),
        title: e.label.clone(),
        arg: e.symbol.clone(),
        icon_path,
    }
}

/// Resolves one entry end to end: derives the cache key from the locator,
/// reuses or fetches-and-stores the image, and yields the item. Any
/// failure — fetch, parse or cache — drops this entry and only this entry.
pub fn resolve_entry(e: &EntryReference) -> (r: Option<ResultItem>)
    ensures
        entry_outcome(*e, r),
{
    let key = keys::cache_key_of(e.locator.as_str());
    proof {
        keys::lemma_cache_key_nonempty(e.locator@);
    }
    let fetched = cache::get_or_fetch(key.as_str(), || resolver::resolve_image(e.locator.as_str()));
    match fetched {
        Ok(path) => Some(make_item(e, path)),
        Err(_) => None,
    }
}

/// Relies on rayon (par_iter, ParallelIterator::map and collect): applies
/// resolve_entry to every entry on the worker pool; collecting an indexed
/// parallel iterator keeps the input order, so slot i holds entry i's
/// outcome, and one entry's failure cannot touch another's slot.
#[verifier::external_body]
fn resolve_all(entries: &Vec<EntryReference>) -> (r: Vec<Option<ResultItem>>)
    ensures
        r@.len() == entries@.len(),
        forall|i: int| 0 <= i < r@.len() ==> entry_outcome(entries@[i], #[trigger] r@[i]),
{
    entries.par_iter().map(resolve_entry).collect()
}

/// The items of the successful outcomes, in their original order.
pub open spec fn somes_of(s: Seq<Option<ResultItem>>) -> Seq<ResultItem>
    decreases s.len(),
{
    if s.len() == 0 {
        Seq::empty()
    } else {
        match s.first() {
            Some(it) => seq![it] + somes_of(s.drop_first()),
            None => somes_of(s.drop_first()),
        }
    }
}

/// Keeps the items of the entries that resolved, dropping failed entries,
/// without disturbing the original order.
pub fn merge_outcomes(outcomes: Vec<Option<ResultItem>>) -> (r: Vec<ResultItem>)
    ensures
        r@ == somes_of(outcomes@),
{
    let ghost orig = outcomes@;
    let mut rest = outcomes;
    let mut r: Vec<ResultItem> = Vec::new();
    proof {
        assert(r@ + somes_of(rest@) =~= somes_of(orig));
    }
    while rest.len() > 0
        invariant
            somes_of(orig) == r@ + somes_of(rest@),
        decreases rest.len(),
    {
        let ghost prev = rest@;
        let x = rest.remove(0);
        proof {
            assert(prev.remove(0) =~= prev.drop_first());
            assert(x == prev.first());
        }
        match x {
            Some(it) => {
                proof {
                    assert(somes_of(prev) == seq![it] + somes_of(prev.drop_first()));
                }
                r.push(it);
                proof {
                    assert(r@ + somes_of(rest@) =~= somes_of(orig));
                }
            },
            None => {
                proof {
                    assert(somes_of(prev) == somes_of(prev.drop_first()));
                }
            },
        }
    }
    proof {
        assert(somes_of(rest@) =~= Seq::<ResultItem>::empty());
        assert(r@ =~= somes_of(orig));
    }
    r
}

/// Order is preserved under any split: the survivors of a front part
/// always precede the survivors of the back part, however the outcomes
/// interleave — so each surviving item's position follows its entry's
/// position in the original search order, never resolution timing.
pub proof fn lemma_somes_of_split(s: Seq<Option<ResultItem>>, k: int)
    requires
        0 <= k <= s.len(),
    ensures
        somes_of(s) == somes_of(s.take(k)) + somes_of(s.skip(k)),
    decreases k,
{
    if k == 0 {
        assert(s.take(0) =~= Seq::<Option<ResultItem>>::empty());
        assert(s.skip(0) =~= s);
        assert(somes_of(s.take(0)) + somes_of(s.skip(0)) =~= somes_of(s));
    } else {
        let t = s.drop_first();
        lemma_somes_of_split(t, k - 1);
        assert(s.take(k).first() == s.first());
        assert(s.take(k).drop_first() =~= t.take(k - 1));
        assert(s.skip(k) =~= t.skip(k - 1));
        match s.first() {
            Some(it) => {
                assert(somes_of(s) == seq![it] + somes_of(t));
                assert(somes_of(s.take(k)) == seq![it] + somes_of(t.take(k - 1)));
                assert(seq![it] + (somes_of(t.take(k - 1)) + somes_of(t.skip(k - 1))) =~= (seq![it]
                    + somes_of(t.take(k - 1))) + somes_of(t.skip(k - 1)));
            },
            None => {
                assert(somes_of(s) == somes_of(t));
                assert(somes_of(s.take(k)) == somes_of(t.take(k - 1)));
            },
        }
    }
}

/// When every entry resolves, nothing is dropped: the merge yields one
/// item per slot, each in its slot's position.
pub proof fn lemma_somes_of_total(s: Seq<Option<ResultItem>>)
    requires
        forall|i: int| 0 <= i < s.len() ==> (#[trigger] s[i]) is Some,
    ensures
        somes_of(s).len() == s.len(),
        forall|i: int| 0 <= i < s.len() ==> somes_of(s)[i] == (#[trigger] s[i])->0,
    decreases s.len(),
{
    if s.len() == 0 {
    } else {
        let t = s.drop_first();
        assert(forall|i: int| 0 <= i < t.len() ==> t[i] == s[i + 1]);
        lemma_somes_of_total(t);
        assert(s[0] is Some);
        let it = s.first()->0;
        assert(somes_of(s) == seq![it] + somes_of(t));
        assert forall|i: int| 0 <= i < s.len() implies somes_of(s)[i] == (#[trigger] s[i])->0 by {
            if i == 0 {
                assert(somes_of(s)[0] == it);
            } else {
                assert(somes_of(s)[i] == somes_of(t)[i - 1]);
                assert(somes_of(t)[i - 1] == t[i - 1]->0);
            }
        }
    }
}

/// The merge invents nothing: every surviving item was one slot's
/// successful outcome, and a dropped slot contributes nothing.
pub proof fn lemma_somes_of_membership(s: Seq<Option<ResultItem>>)
    ensures
        forall|j: int|
            0 <= j < somes_of(s).len() ==> exists|i: int|
                0 <= i < s.len() && s[i] == Some(#[trigger] somes_of(s)[j]),
    decreases s.len(),
{
    if s.len() == 0 {
    } else {
        let t = s.drop_first();
        assert(forall|i: int| 0 <= i < t.len() ==> t[i] == s[i + 1]);
        lemma_somes_of_membership(t);
        assert forall|j: int| 0 <= j < somes_of(s).len() implies exists|i: int|
            0 <= i < s.len() && s[i] == Some(#[trigger] somes_of(s)[j]) by {
            match s.first() {
                Some(it) => {
                    assert(somes_of(s) == seq![it] + somes_of(t));
                    if j == 0 {
                        assert(somes_of(s)[0] == it);
                        assert(s[0] == Some(it));
                    } else {
                        assert(somes_of(s)[j] == somes_of(t)[j - 1]);
                        let i0 = choose|i: int|
                            0 <= i < t.len() && t[i] == Some(somes_of(t)[j - 1]);
                        assert(s[i0 + 1] == Some(somes_of(s)[j]));
                    }
                },
                None => {
                    assert(somes_of(s) == somes_of(t));
                    let i0 = choose|i: int| 0 <= i < t.len() && t[i] == Some(somes_of(t)[j]);
                    assert(s[i0 + 1] == Some(somes_of(s)[j]));
                },
            }
        }
    }
}

/// Every surviving item is displayable when every successful outcome was.
proof fn lemma_somes_of_displayable(s: Seq<Option<ResultItem>>)
    requires
        forall|i: int| 0 <= i < s.len() ==> (#[trigger] s[i] matches Some(it) ==> item_displayable(
            it,
        )),
    ensures
        forall|j: int|
            0 <= j < somes_of(s).len() ==> item_displayable(#[trigger] somes_of(s)[j]),
    decreases s.len(),
{
    if s.len() == 0 {
    } else {
        let t = s.drop_first();
        assert(forall|i: int| 0 <= i < t.len() ==> t[i] == s[i + 1]);
        lemma_somes_of_displayable(t);
        match s.first() {
            Some(it) => {
                assert(s[0] matches Some(x) && x == it);
                assert(somes_of(s) == seq![it] + somes_of(t));
                assert(forall|j: int|
                    1 <= j < somes_of(s).len() ==> somes_of(s)[j] == somes_of(t)[j - 1]);
            },
            None => {
                assert(somes_of(s) == somes_of(t));
            },
        }
    }
}

/// The single-item response for a failed search: its title is the
/// non-empty human-readable diagnostic for the failure, its icon the fixed
/// error marker.
pub fn error_response(e: FetchError) -> (r: Response)
    ensures
        r.items@.len() == 1,
        is_error_item(r.items@[0], e),
        diagnostic_message(e).len() > 0,
{
    proof {
        reveal_strlit("Unable to reach the emoji site");
        reveal_strlit("Unexpected page layout from the emoji site");
    }
    let title = match e {
        FetchError::Network => "Unable to reach the emoji site",
        FetchError::Malformed => "Unexpected page layout from the emoji site",
    };
    let it = ResultItem {
        uid: String::new(),
        title: title.to_owned(),
        arg: String::new(),
        icon_path: "error.png".to_owned(),
    };
    let mut items: Vec<ResultItem> = Vec::new();
    items.push(it);
    Response { items }
}

/// The final response: the surviving items as they are, or the single
/// empty-state placeholder when none survived — a zero-match search and a
/// search whose every entry failed resolution end the same way.
pub fn finish(items: Vec<ResultItem>) -> (r: Response)
    ensures
        items@.len() == 0 ==> r.items@.len() == 1 && is_empty_item(r.items@[0]),
        items@.len() > 0 ==> r.items@ == items@,
{
    if items.len() == 0 {
        let it = ResultItem {
            uid: String::new(),
            title: "No results found".to_owned(),
            arg: String::new(),
            icon_path: "broken_heart.png".to_owned(),
        };
        let mut out: Vec<ResultItem> = Vec::new();
        out.push(it);
        Response { items: out }
    } else {
        Response { items }
    }
}

/// Runs the whole pipeline for one query. This never fails outward: a
/// failed search becomes the single diagnostic item, no surviving entry
/// becomes the single empty-state item, and otherwise the resolved items
/// stand in search-result order. Every response holds at least one item,
/// and every item is displayable.
pub fn assemble(query: &str) -> (r: Response)
    ensures
        r.items@.len() >= 1,
        forall|i: int| 0 <= i < r.items@.len() ==> item_displayable(#[trigger] r.items@[i]),
{
    match search::search(query) {
        Err(e) => {
            let r = error_response(e);
            proof {
                reveal_strlit("error.png");
            }
            r
        },
        Ok(entries) => {
            let outcomes = resolve_all(&entries);
            let ghost osnap = outcomes@;
            let items = merge_outcomes(outcomes);
            proof {
                lemma_somes_of_displayable(osnap);
                reveal_strlit("broken_heart.png");
            }
            finish(items)
        },
    }
}

} // verus!
