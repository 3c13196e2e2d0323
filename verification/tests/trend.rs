use market_agent::client::trend::{
    bump, level, observe, reset, SIMILAR_TAG_LEVEL_INCREASE, TAG_LEVEL_BUY_THRESHOLD,
    TAG_LEVEL_INCREASE,
};
use market_agent::client::types::Tag;
use std::collections::HashMap;

fn levels_with(entries: &[(usize, usize)]) -> HashMap<usize, usize> {
    let mut levels = HashMap::new();
    for (tag, l) in entries {
        levels.insert(*tag, *l);
    }
    levels
}

#[test]
fn unobserved_tag_has_level_zero() {
    let levels: HashMap<usize, usize> = HashMap::new();
    assert_eq!(level(&levels, 5), 0);
    let some = levels_with(&[(1, 3)]);
    assert_eq!(level(&some, 5), 0);
    assert_eq!(level(&some, 1), 3);
}

#[test]
fn bumps_add_up() {
    let mut levels = levels_with(&[(1, 0), (2, 7)]);
    assert!(bump(&mut levels, 1, 4));
    assert!(bump(&mut levels, 1, 1));
    assert!(bump(&mut levels, 1, 4));
    assert_eq!(level(&levels, 1), 9);
    assert_eq!(level(&levels, 2), 7);
}

#[test]
fn bump_of_an_unknown_tag_changes_nothing() {
    let mut levels = levels_with(&[(1, 2)]);
    assert!(!bump(&mut levels, 9, 4));
    assert_eq!(levels.len(), 1);
    assert_eq!(level(&levels, 9), 0);
    assert_eq!(level(&levels, 1), 2);
}

#[test]
fn bump_stops_at_the_largest_level() {
    let mut levels = levels_with(&[(1, usize::MAX - 2)]);
    assert!(bump(&mut levels, 1, 4));
    assert_eq!(level(&levels, 1), usize::MAX);
    assert!(bump(&mut levels, 1, 1));
    assert_eq!(level(&levels, 1), usize::MAX);
    let mut exact = levels_with(&[(1, usize::MAX - 4)]);
    assert!(bump(&mut exact, 1, 4));
    assert_eq!(level(&exact, 1), usize::MAX);
    let mut below = levels_with(&[(1, usize::MAX - 5)]);
    assert!(bump(&mut below, 1, 4));
    assert_eq!(level(&below, 1), usize::MAX - 1);
}

#[test]
fn reset_yields_zero_whatever_the_level() {
    let mut levels = levels_with(&[(1, 12), (2, 0), (3, usize::MAX)]);
    assert!(reset(&mut levels, 1));
    assert!(reset(&mut levels, 2));
    assert!(reset(&mut levels, 3));
    assert_eq!(level(&levels, 1), 0);
    assert_eq!(level(&levels, 2), 0);
    assert_eq!(level(&levels, 3), 0);
    assert!(!reset(&mut levels, 4));
    assert_eq!(level(&levels, 4), 0);
    assert_eq!(levels.len(), 3);
}

#[test]
fn observe_starts_new_tags_at_zero_and_keeps_known_levels() {
    let mut levels = levels_with(&[(1, 5)]);
    let tags = vec![
        Tag { id: 1, similar_tags: vec![2] },
        Tag { id: 2, similar_tags: vec![] },
        Tag { id: 2, similar_tags: vec![1] },
    ];
    observe(&mut levels, &tags);
    assert_eq!(levels.len(), 2);
    assert_eq!(level(&levels, 1), 5);
    assert_eq!(level(&levels, 2), 0);
    assert!(levels.contains_key(&2));
    observe(&mut levels, &Vec::new());
    assert_eq!(levels.len(), 2);
}

#[test]
fn trend_constants() {
    assert_eq!(TAG_LEVEL_INCREASE, 4);
    assert_eq!(SIMILAR_TAG_LEVEL_INCREASE, 1);
    assert_eq!(TAG_LEVEL_BUY_THRESHOLD, 0);
}
