use market_agent::client::history::ArticlePriceHistory;
use market_agent::client::types::{Article, Listing, Tag};
use market_agent::client::Client;
use market_agent::game::pricing::{record_no_sale, record_sale, sold_since, Repricing};
use market_agent::game::ListingUpdate;
use std::collections::HashMap;

fn market() -> Client {
    let mut client = Client::new();
    client.store_articles(vec![
        Article { id: 1, tags: vec![10] },
        Article { id: 2, tags: vec![11, 12] },
        Article { id: 3, tags: vec![99] },
    ]);
    client.store_tags(vec![
        Tag { id: 10, similar_tags: vec![11, 12] },
        Tag { id: 11, similar_tags: vec![10] },
        Tag { id: 12, similar_tags: vec![] },
    ]);
    client.article_price_history.insert(1, ArticlePriceHistory::new(10_000_000));
    client.article_price_history.insert(2, ArticlePriceHistory::new(10_000_000));
    client
}

fn own(id: usize, article: usize, count: usize, price: i64) -> Listing {
    Listing { id, player: 1, article, count, price }
}

fn update(listing_id: usize, count: u128, price: i128) -> Repricing {
    Repricing::Update(ListingUpdate { listing_id, count, price })
}

#[test]
fn unsold_listing_resets_trend_and_lowers_price() {
    let mut client = market();
    client.tag_trend_levels.insert(10, 8);
    client.tag_trend_levels.insert(11, 3);
    let now = vec![own(1, 1, 5, 100_000_000)];
    let before = vec![own(1, 1, 5, 100_000_000)];
    let decisions = client.reprice_listings(&now, &before, 0).decisions;
    assert_eq!(decisions, vec![update(1, 5, 90_000_000)]);
    assert_eq!(client.tag_trend_levels[&10], 0);
    assert_eq!(client.tag_trend_levels[&11], 3);
    assert_eq!(client.tag_trend_levels[&12], 0);
}

#[test]
fn unsold_listing_resets_every_tag_of_its_article() {
    let mut client = market();
    client.tag_trend_levels.insert(10, 8);
    client.tag_trend_levels.insert(11, 3);
    client.tag_trend_levels.insert(12, 6);
    let now = vec![own(1, 2, 5, 100_000_000)];
    let before = vec![own(1, 2, 5, 100_000_000)];
    client.reprice_listings(&now, &before, 0);
    assert_eq!(client.tag_trend_levels[&10], 8);
    assert_eq!(client.tag_trend_levels[&11], 0);
    assert_eq!(client.tag_trend_levels[&12], 0);
}

#[test]
fn restocked_listing_counts_as_unsold() {
    let mut client = market();
    let now = vec![own(1, 1, 9, 100_000_000)];
    let before = vec![own(1, 1, 5, 100_000_000)];
    assert_eq!(client.reprice_listings(&now, &before, 0).decisions, vec![update(1, 9, 90_000_000)]);
}

#[test]
fn unsold_price_stops_at_the_low_selling_price() {
    let mut client = market();
    let now = vec![own(1, 1, 5, 12_000_000), own(2, 1, 5, 11_000_000), own(3, 1, 5, 5_000_000)];
    let before = now.clone();
    let decisions = client.reprice_listings(&now, &before, 82_800).decisions;
    assert_eq!(
        decisions,
        vec![update(1, 5, 11_000_000), update(2, 5, 11_000_000), update(3, 5, 11_000_000)]
    );
}

#[test]
fn unsold_price_falls_freely_in_the_late_game() {
    let mut client = market();
    let now = vec![own(1, 1, 5, 12_000_000), own(2, 1, 5, 11_000_000), own(3, 1, 5, 5_000_000)];
    let before = now.clone();
    let decisions = client.reprice_listings(&now, &before, 82_801).decisions;
    assert_eq!(
        decisions,
        vec![update(1, 5, 10_800_000), update(2, 5, 9_900_000), update(3, 5, 4_500_000)]
    );
}

#[test]
fn sold_listing_raises_price_and_trend() {
    let mut client = market();
    let now = vec![own(1, 1, 3, 100_000_000)];
    let before = vec![own(1, 1, 5, 100_000_000)];
    let decisions = client.reprice_listings(&now, &before, 0).decisions;
    assert_eq!(decisions, vec![update(1, 3, 105_000_000)]);
    assert_eq!(client.tag_trend_levels[&10], 4);
    assert_eq!(client.tag_trend_levels[&11], 1);
    assert_eq!(client.tag_trend_levels[&12], 1);
}

#[test]
fn sold_price_does_not_depend_on_time_or_average() {
    let mut client = market();
    let now = vec![own(1, 1, 3, 1_000_000)];
    let before = vec![own(1, 1, 5, 1_000_000)];
    assert_eq!(
        client.reprice_listings(&now, &before, 90_000).decisions,
        vec![update(1, 3, 1_050_000)]
    );
}

#[test]
fn tag_that_is_direct_and_similar_gains_both() {
    let mut client = market();
    let now = vec![own(1, 2, 0, 100_000_000), own(2, 1, 1, 100_000_000)];
    let before = vec![own(1, 2, 1, 100_000_000), own(2, 1, 2, 100_000_000)];
    client.reprice_listings(&now, &before, 0);
    assert_eq!(client.tag_trend_levels[&10], 5);
    assert_eq!(client.tag_trend_levels[&11], 5);
    assert_eq!(client.tag_trend_levels[&12], 5);
}

#[test]
fn listings_are_dealt_with_in_order() {
    let mut client = market();
    let sold_then_unsold = vec![own(1, 1, 1, 100_000_000), own(2, 1, 4, 100_000_000)];
    let before = vec![own(1, 1, 2, 100_000_000), own(2, 1, 4, 100_000_000)];
    client.reprice_listings(&sold_then_unsold, &before, 0);
    assert_eq!(client.tag_trend_levels[&10], 0);
    assert_eq!(client.tag_trend_levels[&11], 1);
    let mut again = market();
    let unsold_then_sold = vec![own(2, 1, 4, 100_000_000), own(1, 1, 1, 100_000_000)];
    again.reprice_listings(&unsold_then_sold, &before, 0);
    assert_eq!(again.tag_trend_levels[&10], 4);
    assert_eq!(again.tag_trend_levels[&11], 1);
}

#[test]
fn listing_without_a_previous_one_is_left_alone() {
    let mut client = market();
    client.tag_trend_levels.insert(10, 8);
    let now = vec![own(1, 1, 5, 100_000_000)];
    let before = vec![own(2, 1, 5, 100_000_000)];
    let decisions = client.reprice_listings(&now, &before, 0).decisions;
    assert_eq!(decisions, vec![Repricing::NoPreviousListing { listing_id: 1 }]);
    assert_eq!(client.tag_trend_levels[&10], 8);
}

#[test]
fn listing_without_a_price_history_is_left_alone() {
    let mut client = market();
    client.tag_trend_levels.insert(10, 8);
    let now = vec![own(1, 3, 5, 100_000_000), own(2, 1, 1, 100_000_000)];
    let before = vec![own(1, 3, 6, 100_000_000), own(2, 1, 2, 100_000_000)];
    let decisions = client.reprice_listings(&now, &before, 0).decisions;
    assert_eq!(
        decisions,
        vec![
            Repricing::NoPriceHistory { listing_id: 1, article_id: 3 },
            update(2, 1, 105_000_000)
        ]
    );
    assert_eq!(client.tag_trend_levels[&10], 12);
}

#[test]
fn sale_of_an_article_with_unknown_tags_changes_no_level() {
    let mut client = market();
    client.article_price_history.insert(3, ArticlePriceHistory::new(10_000_000));
    let now = vec![own(1, 3, 5, 100_000_000)];
    let before = vec![own(1, 3, 6, 100_000_000)];
    let outcome = client.reprice_listings(&now, &before, 0);
    assert_eq!(outcome.decisions, vec![update(1, 5, 105_000_000)]);
    assert_eq!(outcome.unknown_tags, vec![99]);
    assert_eq!(client.tag_trend_levels.len(), 3);
    assert_eq!(client.tag_trend_levels[&10], 0);
    assert!(!client.tag_trend_levels.contains_key(&99));
}

#[test]
fn reprice_leaves_the_rest_of_the_client_alone() {
    let mut client = market();
    let now = vec![own(1, 1, 3, 100_000_000)];
    let before = vec![own(1, 1, 5, 100_000_000)];
    client.reprice_listings(&now, &before, 0);
    assert_eq!(client.articles.len(), 3);
    assert_eq!(client.tags.len(), 3);
    assert_eq!(client.article_price_history.len(), 2);
    assert!(client.listings.is_empty());
    assert!(client.bedazzlement_listings.is_empty());
}

#[test]
fn units_sold_since_the_previous_tick() {
    let before = vec![own(1, 1, 5, 1), own(2, 1, 7, 1), own(1, 1, 9, 1)];
    assert_eq!(sold_since(&before, &own(1, 1, 2, 1)), Some(3));
    assert_eq!(sold_since(&before, &own(1, 1, 5, 1)), Some(0));
    assert_eq!(sold_since(&before, &own(1, 1, 8, 1)), Some(0));
    assert_eq!(sold_since(&before, &own(2, 1, 0, 1)), Some(7));
    assert_eq!(sold_since(&before, &own(3, 1, 0, 1)), None);
}

#[test]
fn sale_and_no_sale_on_plain_levels() {
    let mut levels: HashMap<usize, usize> = HashMap::new();
    levels.insert(1, 2);
    levels.insert(2, 0);
    let tags = vec![(1, vec![2, 2, 3]), (2, vec![1])];
    assert_eq!(record_sale(&mut levels, &tags), vec![3]);
    assert_eq!(levels[&1], 7);
    assert_eq!(levels[&2], 6);
    assert!(!levels.contains_key(&3));
    assert_eq!(record_no_sale(&mut levels, &vec![(1, vec![2])]), Vec::<usize>::new());
    assert_eq!(levels[&1], 0);
    assert_eq!(levels[&2], 6);
    assert_eq!(record_no_sale(&mut levels, &vec![(4, vec![2]), (2, vec![]), (5, vec![])]), vec![4, 5]);
    assert_eq!(levels[&2], 0);
    assert_eq!(record_sale(&mut levels, &vec![(6, vec![7, 1, 8]), (9, vec![])]), vec![6, 7, 8, 9]);
    assert_eq!(levels[&1], 1);
}

#[test]
fn tags_of_unknown_level_are_reported_in_order() {
    let mut client = market();
    client.store_articles(vec![
        Article { id: 1, tags: vec![10, 50] },
        Article { id: 2, tags: vec![51, 11] },
    ]);
    client.store_tags(vec![
        Tag { id: 10, similar_tags: vec![52, 11] },
        Tag { id: 11, similar_tags: vec![53] },
    ]);
    client.tag_trend_levels.remove(&12);
    let now = vec![own(1, 1, 1, 100_000_000), own(2, 2, 4, 100_000_000), own(3, 2, 4, 1)];
    let before = vec![own(1, 1, 2, 100_000_000), own(2, 2, 4, 100_000_000)];
    let outcome = client.reprice_listings(&now, &before, 0);
    assert_eq!(outcome.unknown_tags, vec![52, 50, 51]);
    assert_eq!(outcome.decisions.len(), 3);
    assert_eq!(client.tag_trend_levels.len(), 2);
    assert_eq!(client.tag_trend_levels[&10], 4);
    assert_eq!(client.tag_trend_levels[&11], 0);
}

#[test]
fn known_tags_are_not_reported() {
    let mut client = market();
    let now = vec![own(1, 1, 3, 100_000_000), own(2, 2, 3, 100_000_000)];
    let before = vec![own(1, 1, 5, 100_000_000), own(2, 2, 3, 100_000_000)];
    assert_eq!(client.reprice_listings(&now, &before, 0).unknown_tags, Vec::<usize>::new());
}
