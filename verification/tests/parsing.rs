use emoji_search::model::{EntryReference, FetchError};
use emoji_search::net::status_is_success;
use emoji_search::resolver::{
    accept_image_response, consume_detail_response, image_url_from_page, resolve_image,
};
use emoji_search::search::{
    consume_search_response, entries_from_page, parse_anchor, parse_search_page, RawAnchor,
    MAX_RESULTS,
};

fn search_page(inner: &str) -> String {
    format!(
        "<html><body><div class=\"search-results\">{}</div></body></html>",
        inner
    )
}

fn anchor(href: &str, glyph: &str, label: &str) -> String {
    format!(
        "<h2><a href=\"{}\"><span class=\"emoji\">{}</span>{}</a></h2>",
        href, glyph, label
    )
}

#[test]
fn container_with_zero_headings_is_empty_success() {
    let html = search_page("");
    let r = parse_search_page(html.as_bytes());
    match r {
        Ok(entries) => assert!(entries.is_empty()),
        Err(_) => panic!("a container with no headings must parse as an empty list"),
    }
}

#[test]
fn missing_container_is_malformed() {
    let html = "<html><body><p>no results container here</p></body></html>";
    let r = parse_search_page(html.as_bytes());
    assert!(matches!(r, Err(FetchError::Malformed)));
}

#[test]
fn container_with_unparseable_anchors_is_empty_success() {
    let html = search_page("<h2><a>no pieces at all</a></h2><h2><a href=\"/x/\">no glyph</a></h2>");
    let r = parse_search_page(html.as_bytes());
    match r {
        Ok(entries) => assert!(entries.is_empty()),
        Err(_) => panic!("unparseable anchors are skipped, not a total failure"),
    }
}

#[test]
fn heart_query_page_parses_in_order() {
    let inner = format!(
        "{}{}",
        anchor("/heart/", "\u{2764}\u{fe0f}", "Red Heart"),
        anchor("/broken-heart/", "\u{1f494}", "Broken Heart")
    );
    let html = search_page(&inner);
    let r = parse_search_page(html.as_bytes()).unwrap();
    assert_eq!(
        r,
        vec![
            EntryReference {
                locator: "/heart/".to_string(),
                symbol: "\u{2764}\u{fe0f}".to_string(),
                label: "Red Heart".to_string(),
            },
            EntryReference {
                locator: "/broken-heart/".to_string(),
                symbol: "\u{1f494}".to_string(),
                label: "Broken Heart".to_string(),
            },
        ]
    );
}

#[test]
fn anchor_missing_href_is_skipped_others_kept() {
    let inner = format!(
        "{}{}",
        "<h2><a><span class=\"emoji\">x</span>No Link</a></h2>",
        anchor("/kept/", "y", "Kept")
    );
    let html = search_page(&inner);
    let r = parse_search_page(html.as_bytes()).unwrap();
    assert_eq!(r.len(), 1);
    assert_eq!(r[0].locator, "/kept/");
    assert_eq!(r[0].label, "Kept");
}

#[test]
fn entry_list_is_capped() {
    let mut inner = String::new();
    for i in 0..20 {
        inner.push_str(&anchor(
            &format!("/e{}/", i),
            "z",
            &format!("Entry {}", i),
        ));
    }
    let html = search_page(&inner);
    let r = parse_search_page(html.as_bytes()).unwrap();
    assert_eq!(r.len(), MAX_RESULTS);
    assert_eq!(r[0].locator, "/e0/");
    assert_eq!(r[MAX_RESULTS - 1].locator, "/e14/");
}

#[test]
fn parse_anchor_needs_all_three_pieces() {
    let full = RawAnchor {
        href: Some("/a/".to_string()),
        symbol: Some("s".to_string()),
        label: Some("l".to_string()),
    };
    let e = parse_anchor(full).unwrap();
    assert_eq!(e.locator, "/a/");
    assert_eq!(e.symbol, "s");
    assert_eq!(e.label, "l");

    let no_href = RawAnchor {
        href: None,
        symbol: Some("s".to_string()),
        label: Some("l".to_string()),
    };
    assert!(parse_anchor(no_href).is_none());

    let no_symbol = RawAnchor {
        href: Some("/a/".to_string()),
        symbol: None,
        label: Some("l".to_string()),
    };
    assert!(parse_anchor(no_symbol).is_none());

    let no_label = RawAnchor {
        href: Some("/a/".to_string()),
        symbol: Some("s".to_string()),
        label: None,
    };
    assert!(parse_anchor(no_label).is_none());
}

#[test]
fn entries_from_page_none_is_malformed() {
    let r = entries_from_page(None);
    assert!(matches!(r, Err(FetchError::Malformed)));
}

#[test]
fn vendor_image_attribute_is_found_and_parsed() {
    let html = "<html><body><div class=\"vendor-image\">\
                <img data-cfsrc=\"https://example.com/heart.png\">\
                </div></body></html>";
    let r = image_url_from_page(html.as_bytes()).unwrap();
    assert_eq!(r, "https://example.com/heart.png");
}

#[test]
fn direct_src_attribute_is_used_when_lazy_absent() {
    let html = "<html><body><div class=\"vendor-image\">\
                <img src=\"https://example.com/heart.png\">\
                </div></body></html>";
    let r = image_url_from_page(html.as_bytes()).unwrap();
    assert_eq!(r, "https://example.com/heart.png");
}

#[test]
fn lazy_attribute_is_preferred_when_both_present() {
    let html = "<html><body><div class=\"vendor-image\">\
                <img data-cfsrc=\"https://example.com/lazy.png\" \
                src=\"https://example.com/direct.png\">\
                </div></body></html>";
    let r = image_url_from_page(html.as_bytes()).unwrap();
    assert_eq!(r, "https://example.com/lazy.png");
}

#[test]
fn image_with_neither_attribute_is_malformed() {
    let html = "<html><body><div class=\"vendor-image\">\
                <img alt=\"heart\">\
                </div></body></html>";
    let r = image_url_from_page(html.as_bytes());
    assert!(matches!(r, Err(FetchError::Malformed)));
}

#[test]
fn missing_vendor_image_region_is_malformed() {
    let html = "<html><body><p>no image</p></body></html>";
    let r = image_url_from_page(html.as_bytes());
    assert!(matches!(r, Err(FetchError::Malformed)));
}

#[test]
fn unjoinable_locator_is_malformed_before_any_fetch() {
    let r = resolve_image("http://[");
    assert!(matches!(r, Err(FetchError::Malformed)));
}

#[test]
fn non_success_search_status_is_a_network_error() {
    let html = search_page(&anchor("/heart/", "h", "Heart"));
    let r = consume_search_response(500, html.as_bytes());
    assert!(matches!(r, Err(FetchError::Network)));
    let r = consume_search_response(301, html.as_bytes());
    assert!(matches!(r, Err(FetchError::Network)));
}

#[test]
fn successful_search_status_parses_the_body() {
    let html = search_page(&anchor("/heart/", "h", "Heart"));
    let r = consume_search_response(200, html.as_bytes()).unwrap();
    assert_eq!(r.len(), 1);
    assert_eq!(r[0].locator, "/heart/");

    let bare = "<html><body></body></html>";
    let r = consume_search_response(200, bare.as_bytes());
    assert!(matches!(r, Err(FetchError::Malformed)));
}

#[test]
fn non_success_detail_status_is_a_network_error() {
    let html = "<html><body><div class=\"vendor-image\">\
                <img data-cfsrc=\"https://example.com/heart.png\">\
                </div></body></html>";
    let r = consume_detail_response(404, html.as_bytes());
    assert!(matches!(r, Err(FetchError::Network)));
    let r = consume_detail_response(200, html.as_bytes()).unwrap();
    assert_eq!(r, "https://example.com/heart.png");
}

#[test]
fn image_bytes_pass_through_on_success_only() {
    let bytes = vec![0u8, 155, 7, 255, 42];
    let r = accept_image_response(200, bytes.clone());
    assert_eq!(r, Ok(bytes.clone()));
    let r = accept_image_response(503, bytes);
    assert_eq!(r, Err(FetchError::Network));
}

#[test]
fn only_2xx_statuses_count_as_success() {
    assert!(!status_is_success(199));
    assert!(status_is_success(200));
    assert!(status_is_success(299));
    assert!(!status_is_success(300));
    assert!(!status_is_success(404));
    assert!(!status_is_success(500));
}

#[test]
fn relative_image_attribute_is_malformed() {
    let html = "<html><body><div class=\"vendor-image\">\
                <img data-cfsrc=\"/static/heart.png\">\
                </div></body></html>";
    let r = image_url_from_page(html.as_bytes());
    assert!(matches!(r, Err(FetchError::Malformed)));
}
