use market_agent::client::history::ArticlePriceHistory;
use market_agent::client::types::Listing;
use market_agent::game::undercut::{
    lowest_prices_below, note_competitor, undercut_listing, undercut_listings,
    NEGLIGIBLE_PRICE_CHANGE,
};
use market_agent::game::ListingUpdate;
use std::collections::HashMap;

fn ours(id: usize, article: usize, count: usize, price: i64) -> Listing {
    Listing { id, player: 1, article, count, price }
}

fn theirs(id: usize, article: usize, price: i64) -> Listing {
    Listing { id, player: 2, article, count: 1, price }
}

fn worth(entries: &[(usize, u64)]) -> HashMap<usize, ArticlePriceHistory> {
    let mut histories = HashMap::new();
    for (article, price) in entries {
        histories.insert(*article, ArticlePriceHistory::new(*price));
    }
    histories
}

#[test]
fn lowest_price_is_taken_over_all_competitors_of_an_article() {
    let others = vec![theirs(1, 1, 20_000_000), theirs(2, 1, 15_000_000), theirs(3, 2, 50_000_000)];
    let lowest = lowest_prices_below(&others, &worth(&[(1, 10_000_000), (2, 10_000_000)]), false);
    assert_eq!(lowest.len(), 2);
    assert_eq!(lowest[&1], 13_500_000);
    assert_eq!(lowest[&2], 45_000_000);
}

#[test]
fn competitors_are_not_followed_below_the_floor() {
    let others = vec![theirs(1, 1, 12_000_000), theirs(2, 1, 3_000_000), theirs(3, 1, -9_000_000)];
    let lowest = lowest_prices_below(&others, &worth(&[(1, 10_000_000)]), false);
    assert_eq!(lowest[&1], 11_000_000);
    let late = lowest_prices_below(&others, &worth(&[(1, 10_000_000)]), true);
    assert_eq!(late[&1], -8_100_000);
}

#[test]
fn competitors_of_unknown_articles_are_ignored() {
    let others = vec![theirs(1, 1, 20_000_000), theirs(2, 2, 15_000_000)];
    let lowest = lowest_prices_below(&others, &worth(&[(2, 10_000_000)]), false);
    assert_eq!(lowest.len(), 1);
    assert_eq!(lowest[&2], 13_500_000);
    assert!(lowest_prices_below(&Vec::new(), &worth(&[(2, 10_000_000)]), false).is_empty());
}

#[test]
fn competitors_are_noted_one_by_one() {
    let histories = worth(&[(2, 10_000_000)]);
    let mut lowest: HashMap<usize, i128> = HashMap::new();
    assert!(!note_competitor(&mut lowest, &theirs(1, 1, 20_000_000), &histories, false));
    assert!(lowest.is_empty());
    assert!(note_competitor(&mut lowest, &theirs(2, 2, 20_000_000), &histories, false));
    assert_eq!(lowest[&2], 18_000_000);
    assert!(note_competitor(&mut lowest, &theirs(3, 2, 30_000_000), &histories, false));
    assert_eq!(lowest[&2], 18_000_000);
    assert!(note_competitor(&mut lowest, &theirs(4, 2, 15_000_000), &histories, false));
    assert_eq!(lowest[&2], 13_500_000);
    assert!(note_competitor(&mut lowest, &theirs(5, 2, 1_000_000), &histories, true));
    assert_eq!(lowest[&2], 900_000);
    assert_eq!(lowest.len(), 1);
}

#[test]
fn own_listing_is_held_against_the_lowest_price() {
    let mut lowest: HashMap<usize, i128> = HashMap::new();
    lowest.insert(1, 13_500_000);
    assert_eq!(
        undercut_listing(&ours(10, 1, 4, 14_000_000), &lowest),
        Some(ListingUpdate { listing_id: 10, count: 4, price: 13_500_000 })
    );
    assert_eq!(undercut_listing(&ours(10, 1, 4, 13_500_000), &lowest), None);
    assert_eq!(undercut_listing(&ours(10, 1, 4, 13_000_000), &lowest), None);
    assert_eq!(undercut_listing(&ours(10, 2, 4, 14_000_000), &lowest), None);
    lowest.insert(2, i128::MIN);
    assert_eq!(
        undercut_listing(&ours(11, 2, 0, i64::MIN), &lowest),
        Some(ListingUpdate { listing_id: 11, count: 0, price: i128::MIN })
    );
    lowest.insert(3, i128::MAX);
    assert_eq!(undercut_listing(&ours(12, 3, 0, i64::MAX), &lowest), None);
}

#[test]
fn own_listing_goes_down_to_the_lowest_price() {
    let others = vec![theirs(1, 1, 20_000_000), theirs(2, 1, 15_000_000)];
    let own = vec![ours(10, 1, 4, 14_000_000), ours(11, 1, 2, 13_500_000), ours(12, 1, 1, 13_000_000)];
    let updates = undercut_listings(&own, &others, &worth(&[(1, 10_000_000)]), 0);
    assert_eq!(
        updates,
        vec![Some(ListingUpdate { listing_id: 10, count: 4, price: 13_500_000 }), None, None]
    );
}

#[test]
fn negligible_changes_are_not_made() {
    assert_eq!(NEGLIGIBLE_PRICE_CHANGE, 10);
    let others = vec![theirs(1, 1, 15_000_000)];
    let own = vec![ours(10, 1, 4, 13_500_009), ours(11, 1, 4, 13_500_010), ours(12, 1, 4, 13_500_001)];
    let updates = undercut_listings(&own, &others, &worth(&[(1, 10_000_000)]), 0);
    assert_eq!(
        updates,
        vec![None, Some(ListingUpdate { listing_id: 11, count: 4, price: 13_500_000 }), None]
    );
}

#[test]
fn listings_without_competitors_stay() {
    let others = vec![theirs(1, 2, 1_000_000)];
    let own = vec![ours(10, 1, 4, 14_000_000), ours(11, 3, 4, 14_000_000)];
    let updates = undercut_listings(&own, &others, &worth(&[(1, 10_000_000), (2, 10_000_000)]), 0);
    assert_eq!(updates, vec![None, None]);
    assert_eq!(
        undercut_listings(&Vec::new(), &others, &worth(&[]), 0),
        Vec::<Option<ListingUpdate>>::new()
    );
}

#[test]
fn late_game_follows_competitors_below_the_average() {
    let others = vec![theirs(1, 1, 5_000_000)];
    let own = vec![ours(10, 1, 4, 14_000_000)];
    let histories = worth(&[(1, 10_000_000)]);
    assert_eq!(
        undercut_listings(&own, &others, &histories, 82_800),
        vec![Some(ListingUpdate { listing_id: 10, count: 4, price: 11_000_000 })]
    );
    assert_eq!(
        undercut_listings(&own, &others, &histories, 82_801),
        vec![Some(ListingUpdate { listing_id: 10, count: 4, price: 4_500_000 })]
    );
}

#[test]
fn extreme_prices_do_not_overflow() {
    let others = vec![theirs(1, 1, i64::MIN)];
    let own = vec![ours(10, 1, 4, i64::MAX)];
    assert_eq!(
        undercut_listings(&own, &others, &worth(&[(1, 0)]), 90_000),
        vec![Some(ListingUpdate { listing_id: 10, count: 4, price: -8301034833169298228 })]
    );
}
