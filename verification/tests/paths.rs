use nix_inspect::path::BrowserPath;

#[test]
fn render_joins_segments_with_dots() {
    let p = BrowserPath(vec!["a".to_string(), "b".to_string(), "c".to_string()]);
    assert_eq!(p.to_expr(), "a.b.c");
}

#[test]
fn parse_splits_on_dots() {
    let p = BrowserPath::parse("a.b.c");
    assert_eq!(p.0, vec!["a".to_string(), "b".to_string(), "c".to_string()]);
}

#[test]
fn parse_render_round_trip() {
    let p = BrowserPath::parse("nixosConfigurations.host.config");
    let rendered = p.to_expr();
    assert_eq!(rendered, "nixosConfigurations.host.config");
    let q = BrowserPath::parse(&rendered);
    assert!(p == q);
}

#[test]
fn root_renders_empty_and_parses_back() {
    // The root is pinned to the zero-segment path: it renders as the
    // empty string, and the empty string parses back to the root.
    let root = BrowserPath(Vec::new());
    assert_eq!(root.to_expr(), "");
    let back = BrowserPath::parse("");
    assert!(back == root);
    assert_eq!(back.0.len(), 0);
}

#[test]
fn parent_drops_last_segment() {
    let p = BrowserPath::parse("a.b.c");
    let parent = p.parent().unwrap();
    assert_eq!(parent.to_expr(), "a.b");
}

#[test]
fn parent_of_single_segment_is_root() {
    let p = BrowserPath::parse("a");
    let parent = p.parent().unwrap();
    assert_eq!(parent.0.len(), 0);
}

#[test]
fn parent_of_root_is_none() {
    let root = BrowserPath(Vec::new());
    assert!(root.parent().is_none());
}

#[test]
fn child_appends_segment() {
    let p = BrowserPath::parse("a.b");
    let c = p.child("c".to_string());
    assert_eq!(c.to_expr(), "a.b.c");
}

#[test]
fn extend_appends_all_segments() {
    let p = BrowserPath::parse("a.b");
    let q = BrowserPath::parse("c.d");
    let r = p.extend(&q);
    assert_eq!(r.to_expr(), "a.b.c.d");
}

#[test]
fn take_prefix_keeps_leading_segments() {
    let p = BrowserPath::parse("a.b.c");
    assert_eq!(p.take_prefix(2).to_expr(), "a.b");
    assert_eq!(p.take_prefix(0).to_expr(), "");
}

#[test]
fn last_segment_of_path() {
    let p = BrowserPath::parse("a.b.c");
    assert_eq!(p.last_segment().unwrap(), "c");
    let root = BrowserPath(Vec::new());
    assert!(root.last_segment().is_none());
}

#[test]
fn paths_compare_by_segments() {
    assert!(BrowserPath::parse("a.b") == BrowserPath::parse("a.b"));
    assert!(!(BrowserPath::parse("a.b") == BrowserPath::parse("a.c")));
    assert!(!(BrowserPath::parse("a.b") == BrowserPath::parse("a.b.c")));
}
