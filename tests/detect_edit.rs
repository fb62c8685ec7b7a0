use simplekanainput::detect_edit::{detect_edit, detect_edit_update_index_map, update_index_map};
use std::collections::HashMap;

#[test]
fn test_no_change() {
    let slice1 = &[0, 1, 2];
    let slice2 = &[0, 1, 2];
    assert_eq!(detect_edit(slice1, slice2).1, 0);
}

#[test]
fn test_various() {
    let slice1 = &["watashi", "no", "yume"];
    // Insertion of one item at index 2
    let slice2 = &["watashi", "no", "daijina", "yume"];
    assert_eq!(detect_edit(slice1, slice2), (2, 1));
    //  Deletion of two items at index 1
    let slice3 = &["watashi", "yume"];
    assert_eq!(detect_edit(slice2, slice3), (1, -2));
    // Add two items at index 0
    let slice4 = &["kore", "ha", "watashi", "yume"];
    assert_eq!(detect_edit(slice3, slice4), (0, 2));
}

#[test]
fn index_tracking_proof_of_concept() {
    let tok = |s: &'static str| s.split(' ').collect::<Vec<_>>();
    let tokens1 = tok("watashi ha ningen desu.");
    let mut attr_map = HashMap::from([(0usize, "私"), (2, "人間")]);
    // Insert 3 tokens at 0
    let tokens2 = tok("hai, sou desu. watashi ha ningen desu.");
    detect_edit_update_index_map(&mut attr_map, &tokens1, &tokens2);
    assert_eq!(attr_map[&3], "私");
    assert_eq!(attr_map[&5], "人間");
    let tokens3 = tok("ningen desu.");
    // Remove 5 tokens at 0
    detect_edit_update_index_map(&mut attr_map, &tokens2, &tokens3);
    assert_eq!(attr_map[&0], "人間");
}

#[test]
fn remap_after_insertion_and_deletion() {
    let old = ["x", "y", "z"];
    let mut map = HashMap::from([(0usize, 'A'), (2, 'B')]);
    let inserted = ["x", "new", "y", "z"];
    assert_eq!(detect_edit(&old, &inserted), (1, 1));
    detect_edit_update_index_map(&mut map, &old, &inserted);
    assert_eq!(map, HashMap::from([(0usize, 'A'), (3, 'B')]));

    let mut map = HashMap::from([(0usize, 'A'), (2, 'B')]);
    let deleted = ["y", "z"];
    assert_eq!(detect_edit(&old, &deleted), (0, -1));
    detect_edit_update_index_map(&mut map, &old, &deleted);
    assert_eq!(map, HashMap::from([(1usize, 'B')]));
}

#[test]
fn same_length_leaves_map_alone() {
    let mut map = HashMap::from([(0usize, 'A'), (7, 'B')]);
    detect_edit_update_index_map(&mut map, &["a", "b"], &["a", "c"]);
    assert_eq!(map, HashMap::from([(0usize, 'A'), (7, 'B')]));
}

#[test]
fn moved_keys_past_the_end_are_dropped_and_kept_keys_win() {
    let mut map = HashMap::from([(0usize, 'A'), (1, 'B'), (5, 'C')]);
    update_index_map(&mut map, 1, 1, 4);
    assert_eq!(map, HashMap::from([(0usize, 'A'), (2, 'B')]));

    let mut map = HashMap::from([(0usize, 'A'), (2, 'B'), (3, 'C')]);
    update_index_map(&mut map, 2, -2, 2);
    assert_eq!(map, HashMap::from([(0usize, 'A'), (1, 'C')]));
}
