use market_agent::client::helper::{contains_id, copy_ids};
use market_agent::client::types::{Article, Listing, Player, PlayerStock, Stock, Supplier, Tag};
use market_agent::client::{is_same_catalog, same_ids, Client};

fn listing(id: usize, player: usize, article: usize, count: usize, price: i64) -> Listing {
    Listing { id, player, article, count, price }
}

#[test]
fn new_client_has_seen_nothing() {
    let client = Client::new();
    assert_eq!(client.player.id, 0);
    assert_eq!(client.player.money, i64::MAX);
    assert!(client.player.stock.is_empty());
    assert!(client.articles.is_empty());
    assert!(client.article_price_history.is_empty());
    assert!(client.tags.is_empty());
    assert!(client.tag_trend_levels.is_empty());
    assert!(client.suppliers.is_empty());
    assert!(client.listings.is_empty());
    assert!(client.bedazzlement_listings.is_empty());
}

#[test]
fn store_player_takes_exactly_one_player() {
    let mut client = Client::new();
    let player =
        Player { id: 4, money: 1_000_000, stock: vec![PlayerStock { article_id: 1, stock: 2 }] };
    assert!(client.store_player(vec![player.clone()]));
    assert_eq!(client.player, player);
}

#[test]
fn store_player_refuses_none_and_several() {
    let mut client = Client::new();
    let first = Player { id: 4, money: 1_000_000, stock: Vec::new() };
    let second = Player { id: 5, money: 2_000_000, stock: Vec::new() };
    assert!(!client.store_player(Vec::new()));
    assert_eq!(client.player.id, 0);
    assert_eq!(client.player.money, i64::MAX);
    assert!(!client.store_player(vec![first, second]));
    assert_eq!(client.player.id, 0);
    assert_eq!(client.player.money, i64::MAX);
}

#[test]
fn store_articles_replaces_the_catalog() {
    let mut client = Client::new();
    client.store_articles(vec![Article { id: 1, tags: vec![3] }]);
    client.store_articles(vec![Article { id: 2, tags: vec![] }, Article { id: 3, tags: vec![1] }]);
    assert_eq!(
        client.articles,
        vec![Article { id: 2, tags: vec![] }, Article { id: 3, tags: vec![1] }]
    );
}

#[test]
fn store_tags_starts_unknown_tags_at_zero() {
    let mut client = Client::new();
    client.store_tags(vec![Tag { id: 1, similar_tags: vec![2] }, Tag { id: 2, similar_tags: vec![] }]);
    assert_eq!(client.tag_trend_levels.len(), 2);
    assert_eq!(client.tag_trend_levels[&1], 0);
    assert_eq!(client.tag_trend_levels[&2], 0);
    assert_eq!(client.tags.len(), 2);
}

#[test]
fn store_tags_keeps_levels_across_catalogs() {
    let mut client = Client::new();
    client.store_tags(vec![Tag { id: 1, similar_tags: vec![] }]);
    client.tag_trend_levels.insert(1, 9);
    client.store_tags(vec![Tag { id: 2, similar_tags: vec![] }]);
    assert_eq!(client.tag_trend_levels[&1], 9);
    assert_eq!(client.tag_trend_levels[&2], 0);
    assert_eq!(client.tags, vec![Tag { id: 2, similar_tags: vec![] }]);
}

#[test]
fn store_suppliers_records_prices() {
    let mut client = Client::new();
    let suppliers = vec![
        Supplier { id: 1, stock: vec![Stock { article_id: 7, stock: 5, price: 10_000_000 }] },
        Supplier { id: 2, stock: vec![Stock { article_id: 7, stock: 1, price: 10_000_000 }] },
    ];
    client.store_suppliers(suppliers.clone());
    assert_eq!(client.suppliers, suppliers);
    assert_eq!(client.article_price_history[&7].supplier_price_history, vec![10_000_000]);
    client.store_suppliers(vec![Supplier {
        id: 1,
        stock: vec![Stock { article_id: 7, stock: 5, price: 12_000_000 }],
    }]);
    assert_eq!(
        client.article_price_history[&7].supplier_price_history,
        vec![10_000_000, 12_000_000]
    );
    assert_eq!(client.article_price_history[&7].average_price(), Some(11_000_000));
}

#[test]
fn store_listings_replaces_the_snapshot() {
    let mut client = Client::new();
    client.store_listings(vec![listing(1, 1, 1, 1, 1)]);
    client.store_listings(vec![listing(2, 1, 1, 1, 1), listing(3, 2, 1, 1, 1)]);
    assert_eq!(client.listings, vec![listing(2, 1, 1, 1, 1), listing(3, 2, 1, 1, 1)]);
}

#[test]
fn tags_for_an_article_come_with_their_similar_tags() {
    let mut client = Client::new();
    client.store_articles(vec![
        Article { id: 1, tags: vec![10, 12, 11] },
        Article { id: 2, tags: vec![] },
        Article { id: 1, tags: vec![13] },
    ]);
    client.store_tags(vec![
        Tag { id: 10, similar_tags: vec![11, 12] },
        Tag { id: 11, similar_tags: vec![] },
        Tag { id: 10, similar_tags: vec![13] },
    ]);
    assert_eq!(
        client.get_tags_for_article_id(1),
        vec![(10, vec![11, 12]), (12, vec![]), (11, vec![])]
    );
    assert_eq!(client.get_tags_for_article_id(2), Vec::<(usize, Vec<usize>)>::new());
    assert_eq!(client.get_tags_for_article_id(3), Vec::<(usize, Vec<usize>)>::new());
}

#[test]
fn own_listings_leave_out_other_players_and_bedazzlements() {
    let mut client = Client::new();
    assert!(client.store_player(vec![Player { id: 4, money: 0, stock: Vec::new() }]));
    client.store_listings(vec![
        listing(1, 4, 7, 2, 10),
        listing(2, 5, 7, 2, 10),
        listing(3, 4, 8, 0, 10),
        listing(4, 4, 9, 1, 10),
    ]);
    client.register_bedazzlement(4);
    assert_eq!(client.get_own_listings(), vec![listing(1, 4, 7, 2, 10), listing(3, 4, 8, 0, 10)]);
}

#[test]
fn other_listings_leave_out_own_empty_and_bedazzled_ones() {
    let mut client = Client::new();
    assert!(client.store_player(vec![Player { id: 4, money: 0, stock: Vec::new() }]));
    client.store_listings(vec![
        listing(1, 4, 7, 2, 10),
        listing(2, 5, 7, 2, 10),
        listing(3, 5, 8, 0, 10),
        listing(4, 6, 9, 1, -10),
        listing(5, 6, 9, 1, 10),
    ]);
    client.register_bedazzlement(5);
    assert_eq!(client.get_other_listings(), vec![listing(2, 5, 7, 2, 10), listing(4, 6, 9, 1, -10)]);
}

#[test]
fn identifier_lists() {
    let ids = vec![3, 1, 2];
    assert!(contains_id(&ids, 1));
    assert!(!contains_id(&ids, 4));
    assert!(!contains_id(&Vec::new(), 0));
    assert_eq!(copy_ids(&ids), ids);
    assert_eq!(copy_ids(&Vec::new()), Vec::<usize>::new());
}

#[test]
fn store_tags_looks_at_a_catalog_only_when_it_changed() {
    let mut client = Client::new();
    let catalog = vec![Tag { id: 1, similar_tags: vec![2] }, Tag { id: 2, similar_tags: vec![] }];
    client.store_tags(catalog.clone());
    client.tag_trend_levels.remove(&2);
    client.store_tags(catalog.clone());
    assert!(!client.tag_trend_levels.contains_key(&2));
    client.store_tags(vec![Tag { id: 1, similar_tags: vec![] }, Tag { id: 2, similar_tags: vec![] }]);
    assert_eq!(client.tag_trend_levels[&2], 0);
    client.tag_trend_levels.remove(&2);
    client.store_tags(vec![Tag { id: 2, similar_tags: vec![] }, Tag { id: 1, similar_tags: vec![] }]);
    assert_eq!(client.tag_trend_levels[&2], 0);
    client.tag_trend_levels.remove(&1);
    client.store_tags(vec![Tag { id: 2, similar_tags: vec![] }]);
    assert!(!client.tag_trend_levels.contains_key(&1));
    assert_eq!(client.tags.len(), 1);
}

#[test]
fn catalogs_are_compared_tag_by_tag() {
    let one = vec![Tag { id: 1, similar_tags: vec![2, 3] }, Tag { id: 2, similar_tags: vec![] }];
    assert!(is_same_catalog(&one, &one.clone()));
    assert!(is_same_catalog(&Vec::new(), &Vec::new()));
    assert!(!is_same_catalog(&one, &Vec::new()));
    assert!(!is_same_catalog(
        &one,
        &vec![Tag { id: 1, similar_tags: vec![3, 2] }, Tag { id: 2, similar_tags: vec![] }]
    ));
    assert!(!is_same_catalog(
        &one,
        &vec![Tag { id: 1, similar_tags: vec![2, 3] }, Tag { id: 3, similar_tags: vec![] }]
    ));
    assert!(same_ids(&vec![1, 2], &vec![1, 2]));
    assert!(!same_ids(&vec![1, 2], &vec![1]));
    assert!(!same_ids(&vec![1, 2], &vec![2, 1]));
}
