use emoji_search::assembler::{error_response, finish, make_item, merge_outcomes};
use emoji_search::model::{EntryReference, FetchError, ResultItem};

fn item(tag: &str) -> ResultItem {
    ResultItem {
        uid: format!("uid-{}", tag),
        title: format!("title-{}", tag),
        arg: format!("arg-{}", tag),
        icon_path: format!("{}.png", tag),
    }
}

#[test]
fn zero_matches_yield_single_empty_marker() {
    let r = finish(Vec::new());
    assert_eq!(r.items.len(), 1);
    assert_eq!(r.items[0].title, "No results found");
    assert_eq!(r.items[0].icon_path, "broken_heart.png");
    assert_eq!(r.items[0].uid, "");
    assert_eq!(r.items[0].arg, "");
}

#[test]
fn failed_search_yields_single_diagnostic_item() {
    let network = error_response(FetchError::Network);
    assert_eq!(network.items.len(), 1);
    assert!(!network.items[0].title.is_empty());
    assert_eq!(network.items[0].icon_path, "error.png");

    let malformed = error_response(FetchError::Malformed);
    assert_eq!(malformed.items.len(), 1);
    assert!(!malformed.items[0].title.is_empty());
    assert_eq!(malformed.items[0].icon_path, "error.png");
    assert_ne!(malformed.items[0].title, network.items[0].title);
}

#[test]
fn merge_keeps_search_order_and_drops_failures() {
    let a = item("a");
    let c = item("c");
    let merged = merge_outcomes(vec![Some(a.clone()), None, Some(c.clone())]);
    assert_eq!(merged, vec![a, c]);
}

#[test]
fn merge_of_all_failures_is_empty() {
    let merged = merge_outcomes(vec![None, None, None]);
    assert!(merged.is_empty());
}

#[test]
fn all_entries_failing_resolution_ends_empty_displayed() {
    let merged = merge_outcomes(vec![None, None]);
    let r = finish(merged);
    assert_eq!(r.items.len(), 1);
    assert_eq!(r.items[0].title, "No results found");
    assert_eq!(r.items[0].icon_path, "broken_heart.png");
}

#[test]
fn surviving_items_pass_through_unchanged() {
    let a = item("a");
    let b = item("b");
    let r = finish(vec![a.clone(), b.clone()]);
    assert_eq!(r.items, vec![a, b]);
}

#[test]
fn heart_scenario_assembles_two_items_in_order() {
    let heart = EntryReference {
        locator: "/heart/".to_string(),
        symbol: "\u{2764}\u{fe0f}".to_string(),
        label: "Red Heart".to_string(),
    };
    let broken = EntryReference {
        locator: "/broken-heart/".to_string(),
        symbol: "\u{1f494}".to_string(),
        label: "Broken Heart".to_string(),
    };
    let first = make_item(&heart, "cache/heart.png".to_string());
    let second = make_item(&broken, "cache/broken-heart.png".to_string());
    let r = finish(merge_outcomes(vec![Some(first), Some(second)]));
    assert_eq!(r.items.len(), 2);
    assert_eq!(r.items[0].title, "Red Heart");
    assert_eq!(r.items[0].uid, "\u{2764}\u{fe0f}");
    assert_eq!(r.items[0].arg, "\u{2764}\u{fe0f}");
    assert_eq!(r.items[1].title, "Broken Heart");
    assert!(!r.items[0].icon_path.is_empty());
    assert!(!r.items[1].icon_path.is_empty());
}

#[test]
fn make_item_carries_glyph_and_label() {
    let e = EntryReference {
        locator: "/x/".to_string(),
        symbol: "X".to_string(),
        label: "Letter X".to_string(),
    };
    let it = make_item(&e, "p.png".to_string());
    assert_eq!(it.uid, "X");
    assert_eq!(it.title, "Letter X");
    assert_eq!(it.arg, "X");
    assert_eq!(it.icon_path, "p.png");
}
