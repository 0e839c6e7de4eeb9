use gcs_index::classify::{
    classify_plan, decide_directory_probe, decide_object_probe, Classification, ClassifyPlan,
    ProbeOutcome, RequestPath,
};
use gcs_index::handler::{action_for, RequestAction};
use gcs_index::model::{ListingPage, ObjectEntry, ObjectMetadata};
use gcs_index::render::Body;

fn empty_page() -> ListingPage {
    ListingPage { prefixes: vec![], items: vec![], next_page_token: None }
}

fn page_with_prefix(prefix: &str) -> ListingPage {
    ListingPage { prefixes: vec![prefix.to_string()], items: vec![], next_page_token: None }
}

fn page_with_item(name: &str) -> ListingPage {
    ListingPage {
        prefixes: vec![],
        items: vec![ObjectEntry { name: name.to_string(), size: 1, updated: None }],
        next_page_token: None,
    }
}

fn meta_for(key: &str) -> ObjectMetadata {
    ObjectMetadata { key: key.to_string(), content_type: None }
}

#[test]
fn raw_paths_lose_leading_slashes() {
    assert_eq!(RequestPath::from_raw("/a/b").as_str(), "a/b");
    assert_eq!(RequestPath::from_raw("///x").as_str(), "x");
    assert_eq!(RequestPath::from_raw("/").as_str(), "");
    assert_eq!(RequestPath::from_raw("").as_str(), "");
}

#[test]
fn root_is_always_a_directory() {
    let p = RequestPath::from_raw("/");
    assert!(matches!(classify_plan(&p), ClassifyPlan::AlreadyDirectory));
}

#[test]
fn slash_path_probes_its_canonical_prefix() {
    let p = RequestPath::from_raw("/sub/");
    match classify_plan(&p) {
        ClassifyPlan::ProbeDirectory { prefix } => assert_eq!(prefix, "sub/"),
        _ => panic!("expected a directory probe"),
    }
    let p = RequestPath::from_raw("/a//");
    match classify_plan(&p) {
        ClassifyPlan::ProbeDirectory { prefix } => assert_eq!(prefix, "a/"),
        _ => panic!("expected a directory probe"),
    }
}

#[test]
fn plain_path_probes_object_and_shadow() {
    let p = RequestPath::from_raw("/a.txt");
    match classify_plan(&p) {
        ClassifyPlan::ProbeObject { key, shadow_prefix } => {
            assert_eq!(key, "a.txt");
            assert_eq!(shadow_prefix, "a.txt/");
        },
        _ => panic!("expected an object probe"),
    }
}

#[test]
fn directory_probe_decides_by_contents() {
    assert!(matches!(
        decide_directory_probe(ProbeOutcome::Page(page_with_prefix("sub/x/"))),
        Classification::IsDirectory
    ));
    assert!(matches!(
        decide_directory_probe(ProbeOutcome::Page(page_with_item("sub/a"))),
        Classification::IsDirectory
    ));
    assert!(matches!(
        decide_directory_probe(ProbeOutcome::Page(empty_page())),
        Classification::NotFound
    ));
    assert!(matches!(decide_directory_probe(ProbeOutcome::Error), Classification::NotFound));
}

#[test]
fn object_without_shadow_is_a_file() {
    let p = RequestPath::from_raw("/docs/readme");
    let c = decide_object_probe(&p, Some(meta_for("docs/readme")), ProbeOutcome::Page(empty_page()));
    match c {
        Classification::IsFile(m) => assert_eq!(m.key, "docs/readme"),
        _ => panic!("expected a file"),
    }
}

#[test]
fn shadowed_object_redirects_to_canonical_path() {
    let p = RequestPath::from_raw("/docs");
    let c = decide_object_probe(
        &p,
        Some(meta_for("docs")),
        ProbeOutcome::Page(page_with_item("docs/inner")),
    );
    match &c {
        Classification::IsDirectoryNeedsRedirect(loc) => assert_eq!(loc, "docs/"),
        _ => panic!("expected a redirect"),
    }
    match action_for(&p, c) {
        RequestAction::Respond(r) => {
            assert_eq!(r.status, 302);
            assert_eq!(r.headers.len(), 1);
            assert_eq!(r.headers[0].0, "Location");
            assert_eq!(r.headers[0].1, "/docs/");
            match r.body {
                Body::Bytes(b) => assert!(b.is_empty()),
                Body::Text(_) => panic!("a redirect has an empty byte body"),
            }
        },
        _ => panic!("expected an immediate response"),
    }
}

#[test]
fn missing_object_with_shadow_also_redirects() {
    let p = RequestPath::from_raw("/docs");
    let c = decide_object_probe(&p, None, ProbeOutcome::Page(page_with_prefix("docs/sub/")));
    match c {
        Classification::IsDirectoryNeedsRedirect(loc) => assert_eq!(loc, "docs/"),
        _ => panic!("expected a redirect"),
    }
}

#[test]
fn probe_errors_fail_open() {
    let p = RequestPath::from_raw("/a.txt");
    // A failing shadow probe never hides an existing object.
    let c = decide_object_probe(&p, Some(meta_for("a.txt")), ProbeOutcome::Error);
    assert!(matches!(c, Classification::IsFile(_)));
    // With no object either, the path is simply not found.
    let c = decide_object_probe(&p, None, ProbeOutcome::Error);
    assert!(matches!(c, Classification::NotFound));
}

#[test]
fn unmatched_path_is_not_found() {
    let p = RequestPath::from_raw("/missing/path");
    let c = decide_object_probe(&p, None, ProbeOutcome::Page(empty_page()));
    assert!(matches!(c, Classification::NotFound));
    match action_for(&p, c) {
        RequestAction::Respond(r) => {
            assert_eq!(r.status, 404);
            match r.body {
                Body::Text(t) => assert_eq!(t, "Not Found"),
                Body::Bytes(_) => panic!("the not-found body is text"),
            }
        },
        _ => panic!("expected an immediate response"),
    }
}

#[test]
fn file_action_carries_key_and_metadata() {
    let p = RequestPath::from_raw("/docs/readme");
    let c = decide_object_probe(&p, Some(meta_for("docs/readme")), ProbeOutcome::Page(empty_page()));
    match action_for(&p, c) {
        RequestAction::ServeFile { key, meta } => {
            assert_eq!(key, "docs/readme");
            assert_eq!(meta.key, "docs/readme");
        },
        _ => panic!("expected a download action"),
    }
}

#[test]
fn directory_action_lists_canonical_prefix() {
    let p = RequestPath::from_raw("/sub/");
    let c = decide_directory_probe(ProbeOutcome::Page(page_with_item("sub/a")));
    match action_for(&p, c) {
        RequestAction::ListDirectory { prefix, path } => {
            assert_eq!(prefix.as_deref(), Some("sub/"));
            assert_eq!(path, "sub/");
        },
        _ => panic!("expected a listing action"),
    }
    let root = RequestPath::from_raw("/");
    match action_for(&root, Classification::IsDirectory) {
        RequestAction::ListDirectory { prefix, path } => {
            assert!(prefix.is_none());
            assert_eq!(path, "");
        },
        _ => panic!("expected a listing action"),
    }
}
