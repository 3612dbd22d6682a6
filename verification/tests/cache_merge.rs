use nix_inspect::cache::PathDataMap;
use nix_inspect::data::ListData;
use nix_inspect::data::PathData;
use nix_inspect::path::BrowserPath;

fn list_of(names: &[&str]) -> PathData {
    PathData::List(ListData {
        cursor: 0,
        list: names.iter().map(|s| s.to_string()).collect(),
    })
}

#[test]
fn get_and_contains_follow_inserts() {
    let mut cache = PathDataMap::new();
    let p = BrowserPath::parse("a.b");
    assert!(!cache.contains(&p));
    assert!(cache.get(&p).is_none());
    cache.insert_or_merge(p.clone(), PathData::Int(3));
    assert!(cache.contains(&p));
    assert!(matches!(cache.get(&p), Some(PathData::Int(3))));
    assert!(!cache.contains(&BrowserPath::parse("a")));
}

#[test]
fn merge_identical_list_twice_keeps_cursor() {
    let mut cache = PathDataMap::new();
    let p = BrowserPath::parse("pkgs");
    cache.insert_or_merge(p.clone(), list_of(&["a", "b", "c"]));
    cache.set_list_cursor(&p, 2);
    cache.insert_or_merge(p.clone(), list_of(&["a", "b", "c"]));
    let l = cache.current_list(&p).unwrap();
    assert_eq!(l.cursor, 2);
    assert_eq!(l.list, vec!["a".to_string(), "b".to_string(), "c".to_string()]);
}

#[test]
fn merge_shorter_list_clamps_cursor_to_last_entry() {
    let mut cache = PathDataMap::new();
    let p = BrowserPath::parse("pkgs");
    cache.insert_or_merge(p.clone(), list_of(&["a", "b", "c"]));
    cache.set_list_cursor(&p, 2);
    cache.insert_or_merge(p.clone(), list_of(&["x"]));
    let l = cache.current_list(&p).unwrap();
    assert_eq!(l.cursor, 0);
    assert_eq!(l.list, vec!["x".to_string()]);
}

#[test]
fn merge_into_empty_list_rests_cursor_at_zero() {
    let mut cache = PathDataMap::new();
    let p = BrowserPath::parse("pkgs");
    cache.insert_or_merge(p.clone(), list_of(&["a", "b", "c"]));
    cache.set_list_cursor(&p, 1);
    cache.insert_or_merge(p.clone(), list_of(&[]));
    let l = cache.current_list(&p).unwrap();
    assert_eq!(l.cursor, 0);
    assert_eq!(l.list.len(), 0);
}

#[test]
fn non_list_values_overwrite_wholesale() {
    let mut cache = PathDataMap::new();
    let p = BrowserPath::parse("x");
    cache.insert_or_merge(p.clone(), PathData::Loading);
    cache.insert_or_merge(p.clone(), list_of(&["a", "b"]));
    cache.set_list_cursor(&p, 1);
    cache.insert_or_merge(p.clone(), PathData::Error("gone".to_string()));
    assert!(matches!(cache.get(&p), Some(PathData::Error(_))));
    // A list arriving over a non-list entry starts with the incoming
    // cursor, not a remembered one.
    cache.insert_or_merge(p.clone(), list_of(&["a", "b"]));
    assert_eq!(cache.current_list(&p).unwrap().cursor, 0);
}

#[test]
fn selected_child_points_at_cursor_entry() {
    let mut cache = PathDataMap::new();
    let p = BrowserPath::parse("pkgs");
    cache.insert_or_merge(p.clone(), list_of(&["a", "b", "c"]));
    cache.set_list_cursor(&p, 1);
    let child = cache.selected_child(&p).unwrap();
    assert_eq!(child.to_expr(), "pkgs.b");
    // No list, no selected child.
    let q = BrowserPath::parse("other");
    cache.insert_or_merge(q.clone(), PathData::Int(1));
    assert!(cache.selected_child(&q).is_none());
    // An empty list has no selected child.
    let r = BrowserPath::parse("empty");
    cache.insert_or_merge(r.clone(), list_of(&[]));
    assert!(cache.selected_child(&r).is_none());
}
