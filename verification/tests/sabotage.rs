use market_agent::client::types::{Listing, Player, PlayerStock};
use market_agent::client::Client;
use market_agent::game::sabotage::{decoy_for, decoy_listings, DECOY_PRICE_HIGH, DECOY_PRICE_LOW};
use market_agent::game::{ListingUpdate, NewListing};

fn mine(id: usize, article: usize, count: usize, price: i64) -> Listing {
    Listing { id, player: 1, article, count, price }
}

fn holdings() -> Vec<PlayerStock> {
    vec![
        PlayerStock { article_id: 3, stock: 2 },
        PlayerStock { article_id: 5, stock: 0 },
        PlayerStock { article_id: 3, stock: 1 },
    ]
}

#[test]
fn no_sabotage_before_the_threshold() {
    let mut client = Client::new();
    let own = vec![mine(1, 3, 0, 10_000_000), mine(2, 4, 5, 10_000_000)];
    assert_eq!(client.bedazzle_empty_listings(&own, 0), Vec::<ListingUpdate>::new());
    assert_eq!(client.bedazzle_empty_listings(&own, 600), Vec::<ListingUpdate>::new());
    assert!(client.bedazzlement_listings.is_empty());
    assert_eq!(decoy_listings(&holdings(), 0), Vec::<NewListing>::new());
    assert_eq!(decoy_listings(&holdings(), 600), Vec::<NewListing>::new());
}

#[test]
fn empty_listings_are_bedazzled_after_the_threshold() {
    let mut client = Client::new();
    client.register_bedazzlement(77);
    let own = vec![
        mine(1, 3, 0, 10_000_000),
        mine(2, 4, 5, 10_000_000),
        mine(3, 4, 0, -2_000_000),
        mine(4, 5, 0, 0),
    ];
    let updates = client.bedazzle_empty_listings(&own, 601);
    assert_eq!(
        updates,
        vec![
            ListingUpdate { listing_id: 1, count: 0, price: 1_000_000_000 },
            ListingUpdate { listing_id: 3, count: 0, price: -200_000_000 },
            ListingUpdate { listing_id: 4, count: 0, price: 0 },
        ]
    );
    assert_eq!(client.bedazzlement_listings, vec![77, 1, 3, 4]);
}

#[test]
fn bedazzled_listings_are_no_longer_own_listings() {
    let mut client = Client::new();
    assert!(client.store_player(vec![Player { id: 1, money: 0, stock: Vec::new() }]));
    client.store_listings(vec![mine(1, 3, 0, 10_000_000), mine(2, 4, 5, 10_000_000)]);
    let own = client.get_own_listings();
    assert_eq!(own.len(), 2);
    client.bedazzle_empty_listings(&own, 1_000);
    assert_eq!(client.get_own_listings(), vec![mine(2, 4, 5, 10_000_000)]);
}

#[test]
fn one_decoy_for_each_position_of_the_stock() {
    let stock = holdings();
    let decoys = decoy_listings(&stock, 601);
    assert_eq!(decoys.len(), 3);
    for (decoy, position) in decoys.iter().zip(stock.iter()) {
        assert_eq!(decoy.article_id, position.article_id);
        assert_eq!(decoy.count, 0);
        assert!(decoy.price >= -1_000_000_000);
        assert!(decoy.price <= 0);
    }
    assert_eq!(decoy_listings(&Vec::new(), 601), Vec::<NewListing>::new());
}

#[test]
fn decoy_prices_are_drawn_at_random() {
    let mut stock = Vec::new();
    for article_id in 0..200 {
        stock.push(PlayerStock { article_id, stock: 1 });
    }
    let decoys = decoy_listings(&stock, 601);
    assert_eq!(decoys.len(), 200);
    assert!(decoys.iter().any(|d| d.price != DECOY_PRICE_LOW as i128));
    assert!(decoys.iter().any(|d| d.price != DECOY_PRICE_HIGH as i128));
    assert!(decoys.iter().any(|d| d.price != decoys[0].price));
}

#[test]
fn decoy_takes_the_article_and_the_price() {
    let position = PlayerStock { article_id: 3, stock: 9 };
    assert_eq!(
        decoy_for(&position, -5_000_000),
        NewListing { article_id: 3, count: 0, price: -5_000_000 }
    );
    assert_eq!(DECOY_PRICE_LOW, -1_000_000_000);
    assert_eq!(DECOY_PRICE_HIGH, 0);
}

#[test]
fn registered_decoys_are_remembered_in_order() {
    let mut client = Client::new();
    client.register_bedazzlement(5);
    client.register_bedazzlement(2);
    client.register_bedazzlement(5);
    assert_eq!(client.bedazzlement_listings, vec![5, 2, 5]);
}
