use jolt::favorites::{order, ordered_indices, repo_key, runner_key, workflow_key, FavoriteSet, SortKey};

fn key(favorite: bool, k: &str, index: usize) -> SortKey {
    SortKey { favorite, key: k.to_string(), index }
}

#[test]
fn favorites_come_first_then_by_key() {
    let entries = vec![key(false, "b", 0), key(true, "z", 1), key(false, "a", 2), key(true, "c", 3)];
    assert_eq!(ordered_indices(entries), vec![3, 1, 2, 0]);
}

#[test]
fn ordering_twice_changes_nothing() {
    let entries = vec![key(false, "b", 0), key(true, "z", 1), key(false, "a", 2), key(true, "c", 3), key(false, "a", 4)];
    let once = order(entries);
    let idx1: Vec<usize> = once.iter().map(|e| e.index).collect();
    let twice = order(once);
    let idx2: Vec<usize> = twice.iter().map(|e| e.index).collect();
    assert_eq!(idx1, idx2);
    assert_eq!(idx1, vec![3, 1, 2, 4, 0]);
}

#[test]
fn equal_keys_keep_their_order() {
    let entries = vec![key(false, "x", 0), key(false, "x", 1), key(false, "x", 2)];
    assert_eq!(ordered_indices(entries), vec![0, 1, 2]);
}

#[test]
fn toggle_adds_then_removes() {
    let mut favs = FavoriteSet::new();
    assert!(!favs.contains("alice"));
    assert!(favs.toggle("alice"));
    assert!(favs.contains("alice"));
    assert!(!favs.toggle("alice"));
    assert!(!favs.contains("alice"));
    let set = FavoriteSet::from_keys(vec!["a".to_string(), "a".to_string(), "b".to_string()]);
    assert_eq!(set.keys().len(), 2);
}

#[test]
fn favorite_keys_have_their_formats() {
    assert_eq!(repo_key("o", "r"), "o/r");
    assert_eq!(workflow_key("o", "r", 77), "o/r/77");
    assert_eq!(runner_key("o", "r", "mac"), "o/r/mac");
}
