use nix_inspect::search::closest_match;
use nix_inspect::search::first_prefix_match;
use nix_inspect::search::index_of_name;
use nix_inspect::search::scan_next;
use nix_inspect::search::scan_prev;
use nix_inspect::text::str_contains;
use nix_inspect::text::str_starts_with;

fn strings(names: &[&str]) -> Vec<String> {
    names.iter().map(|s| s.to_string()).collect()
}

#[test]
fn contains_finds_substrings() {
    assert!(str_contains("food", "foo"));
    assert!(str_contains("food", "ood"));
    assert!(str_contains("food", ""));
    assert!(!str_contains("food", "bar"));
    assert!(!str_contains("fo", "food"));
}

#[test]
fn starts_with_checks_prefix() {
    assert!(str_starts_with("alphb", "alp"));
    assert!(str_starts_with("alp", "alp"));
    assert!(!str_starts_with("al", "alp"));
    assert!(!str_starts_with("balp", "alp"));
}

#[test]
fn closest_match_takes_minimum_distance_first_on_tie() {
    let list = strings(&["foo", "bar", "food", "baz"]);
    // Matches sit at indices 0 and 2; from the top the nearest is 0.
    assert_eq!(closest_match(&list, &"foo".to_string(), 0), Some(0));
    // From index 2 the nearest is 2 itself.
    assert_eq!(closest_match(&list, &"foo".to_string(), 2), Some(2));
    // From index 1 both are one step away: the first found wins.
    assert_eq!(closest_match(&list, &"foo".to_string(), 1), Some(0));
    // No entry matches.
    assert_eq!(closest_match(&list, &"quux".to_string(), 0), None);
}

#[test]
fn scan_next_finds_first_match_after_cursor_and_wraps() {
    let list = strings(&["alpha", "beta", "alphb", "gamma"]);
    let pat = "alp".to_string();
    assert_eq!(scan_next(&list, &pat, 0, true), Some(2));
    assert_eq!(scan_next(&list, &pat, 2, true), Some(0));
    assert_eq!(scan_next(&list, &"zz".to_string(), 1, true), None);
}

#[test]
fn scan_prev_finds_last_match_before_cursor_and_wraps() {
    let list = strings(&["alpha", "beta", "alphb", "gamma"]);
    let pat = "alp".to_string();
    assert_eq!(scan_prev(&list, &pat, 2, true), Some(0));
    assert_eq!(scan_prev(&list, &pat, 0, true), Some(2));
    assert_eq!(scan_prev(&list, &"zz".to_string(), 1, true), None);
}

#[test]
fn substring_scans_serve_the_search_mode() {
    let list = strings(&["foo", "bar", "food", "baz"]);
    let pat = "oo".to_string();
    assert_eq!(scan_next(&list, &pat, 0, false), Some(2));
    assert_eq!(scan_next(&list, &pat, 2, false), Some(0));
    assert_eq!(scan_prev(&list, &pat, 2, false), Some(0));
}

#[test]
fn first_prefix_match_scans_from_the_top() {
    let list = strings(&["alpha", "beta", "alphb", "gamma"]);
    assert_eq!(first_prefix_match(&list, &"alp".to_string()), Some(0));
    assert_eq!(first_prefix_match(&list, &"g".to_string()), Some(3));
    assert_eq!(first_prefix_match(&list, &"zz".to_string()), None);
}

#[test]
fn index_of_name_finds_first_equal_entry() {
    let list = strings(&["a", "b", "a"]);
    assert_eq!(index_of_name(&list, &"a".to_string()), Some(0));
    assert_eq!(index_of_name(&list, &"b".to_string()), Some(1));
    assert_eq!(index_of_name(&list, &"c".to_string()), None);
}
