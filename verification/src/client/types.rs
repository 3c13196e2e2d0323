//! The records that the marketplace hands out.

use vstd::prelude::*;

verus! {

/// An article of the catalog and the tags it carries.
#[derive(Debug, Clone, PartialEq, Eq)]
pub struct Article {
    pub id: usize,
    pub tags: Vec<usize>,
}

/// A tag and the tags that a sale under it also makes more popular.
#[derive(Debug, Clone, PartialEq, Eq)]
pub struct Tag {
    pub id: usize,
    pub similar_tags: Vec<usize>,
}

/// A supplier and what it has on offer.
#[derive(Debug, Clone, PartialEq, Eq)]
pub struct Supplier {
    pub id: usize,
    pub stock: Vec<Stock>,
}

/// One position of a supplier's stock; `price` is the unit price in micros.
#[derive(Debug, Clone, Copy, PartialEq, Eq, Structural)]
pub struct Stock {
    pub article_id: usize,
    pub stock: usize,
    pub price: u64,
}

/// The player's own state; `money` is in micros.
#[derive(Debug, Clone, PartialEq, Eq)]
pub struct Player {
    pub id: usize,
    pub money: i64,
    pub stock: Vec<PlayerStock>,
}

/// One position of the player's stock.
#[derive(Debug, Clone, Copy, PartialEq, Eq, Structural)]
pub struct PlayerStock {
    pub article_id: usize,
    pub stock: usize,
}

/// An offer on the marketplace; `price` is the unit price in micros.
#[derive(Debug, Clone, Copy, PartialEq, Eq, Structural)]
pub struct Listing {
    pub id: usize,
    pub player: usize,
    pub article: usize,
    pub count: usize,
    pub price: i64,
}

} // verus!
