use gcs_index::listing::{ListingAggregator, PageStep};
use gcs_index::model::{ListingPage, ObjectEntry, Timestamp};
use gcs_index::render::{render_directory, render_listing_error, Body};

fn ts() -> Timestamp {
    Timestamp { year: 2024, month: 1, day: 2, hour: 3, minute: 4 }
}

fn entry(name: &str, size: u64, updated: Option<Timestamp>) -> ObjectEntry {
    ObjectEntry { name: name.to_string(), size, updated }
}

#[test]
fn merge_keeps_every_pages_prefixes_and_items_in_order() {
    let mut agg = ListingAggregator::new("sub/".to_string());
    let step = agg.absorb_page(ListingPage {
        prefixes: vec!["sub/docs/".to_string()],
        items: vec![entry("sub/a.txt", 500, Some(ts()))],
        next_page_token: Some("t2".to_string()),
    });
    match step {
        PageStep::Continue(t) => assert_eq!(t, "t2"),
        PageStep::Done => panic!("a token was returned, so another page is owed"),
    }
    // Prefixes on a later page are captured too, not only on the first.
    let step = agg.absorb_page(ListingPage {
        prefixes: vec!["sub/img/".to_string()],
        items: vec![entry("sub/b.txt", 1500, Some(ts()))],
        next_page_token: None,
    });
    assert!(matches!(step, PageStep::Done));
    let listing = agg.finish();
    assert_eq!(listing.folders, vec!["sub/docs/".to_string(), "sub/img/".to_string()]);
    assert_eq!(listing.files.len(), 2);
    assert_eq!(listing.files[0].0, "sub/a.txt");
    assert_eq!(listing.files[0].1, "500");
    assert_eq!(listing.files[0].2, "2024-01-02 03:04");
    assert_eq!(listing.files[1].0, "sub/b.txt");
    assert_eq!(listing.files[1].1, "1K");
}

#[test]
fn own_path_and_untimestamped_entries_are_suppressed() {
    let mut agg = ListingAggregator::new("sub/".to_string());
    let step = agg.absorb_page(ListingPage {
        prefixes: vec![],
        items: vec![
            // The directory's own placeholder object is not a file row.
            entry("sub/", 0, Some(ts())),
            // An entry without a modification timestamp is dropped entirely.
            entry("sub/ghost.txt", 10, None),
            entry("sub/kept.txt", 10, Some(ts())),
        ],
        next_page_token: None,
    });
    assert!(matches!(step, PageStep::Done));
    let listing = agg.finish();
    assert!(listing.folders.is_empty());
    assert_eq!(listing.files.len(), 1);
    assert_eq!(listing.files[0].0, "sub/kept.txt");
}

#[test]
fn root_scenario_lists_folder_and_file_without_parent_link() {
    let mut agg = ListingAggregator::new("".to_string());
    agg.absorb_page(ListingPage {
        prefixes: vec!["sub/".to_string()],
        items: vec![entry("a.txt", 500, Some(ts()))],
        next_page_token: None,
    });
    let r = render_directory("".to_string(), agg.finish());
    assert_eq!(r.status, 200);
    assert_eq!(r.headers.len(), 1);
    assert_eq!(r.headers[0].0, "Content-Type");
    assert_eq!(r.headers[0].1, "text/html");
    let html = match r.body {
        Body::Text(t) => t,
        Body::Bytes(_) => panic!("a directory page is text"),
    };
    assert!(html.contains("<title>Index of /</title>"));
    assert!(html.contains("<a href=\"/sub/\">sub</a>"));
    assert!(html.contains("<a href=\"/a.txt\">a.txt</a>"));
    assert!(html.contains("<td align=\"right\">500</td>"));
    assert!(!html.contains("../"));
}

#[test]
fn failed_page_discards_partial_results() {
    let mut agg = ListingAggregator::new("big/".to_string());
    let step = agg.absorb_page(ListingPage {
        prefixes: vec!["big/one/".to_string()],
        items: vec![entry("big/a", 1, Some(ts()))],
        next_page_token: Some("t2".to_string()),
    });
    assert!(matches!(step, PageStep::Continue(_)));
    // The second page's call fails: the whole request answers 500 and the
    // partial merge is dropped, never rendered.
    let r = render_listing_error();
    assert_eq!(r.status, 500);
    assert!(r.headers.is_empty());
    match r.body {
        Body::Text(t) => assert_eq!(t, "Error listing content"),
        Body::Bytes(_) => panic!("the listing error body is text"),
    }
    drop(agg);
}

#[test]
fn identical_listings_render_identical_pages() {
    let build = || {
        let mut agg = ListingAggregator::new("sub/".to_string());
        agg.absorb_page(ListingPage {
            prefixes: vec!["sub/docs/".to_string()],
            items: vec![entry("sub/a.txt", 500, Some(ts()))],
            next_page_token: None,
        });
        let r = render_directory("sub/".to_string(), agg.finish());
        match r.body {
            Body::Text(t) => t,
            Body::Bytes(_) => panic!("a directory page is text"),
        }
    };
    let first = build();
    let second = build();
    assert_eq!(first.into_bytes(), second.into_bytes());
}
