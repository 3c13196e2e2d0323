//! The rules by which the trader plays one tick.
//!
//! A tick goes through them in the order of `schedule::Step`: the piggybank
//! gets its share of the earnings (`TickMemory::save_earnings`), the pricing
//! policy looks at every listing (`pricing`), the purchase planner buys
//! (`demand`, `planner`), competitors are misled (`sabotage`), fresh stock
//! is put up for sale (`liquidation`), and for the rest of the tick the
//! trader stays below the prices of its competitors (`undercut`).

pub mod demand;
pub mod liquidation;
pub mod planner;
pub mod pricing;
pub mod sabotage;
pub mod schedule;
pub mod undercut;

use vstd::prelude::*;
use crate::client::helper::own_listing;
use crate::client::types::Listing;
use crate::client::Client;

verus! {

/// A change to make to a listing: its new count and its new unit price in
/// micros.
#[derive(Debug, Clone, Copy, PartialEq, Eq, Structural)]
pub struct ListingUpdate {
    pub listing_id: usize,
    pub count: u128,
    pub price: i128,
}

/// A listing to open: the article, the count and the unit price in micros.
#[derive(Debug, Clone, Copy, PartialEq, Eq, Structural)]
pub struct NewListing {
    pub article_id: usize,
    pub count: usize,
    pub price: i128,
}

/// The piggybank gets one part in this many of what a tick earned.
pub const PIGGYBANK_DIVIDER: u64 = 3;

/// Nothing goes into the piggybank unless the money exceeds it by more than
/// this many micros.
pub const PIGGYBANK_BUFFER: i64 = 500_000_000;

/// The piggybank after a tick that began with `money`, when the tick before
/// it ended with `previous_money`: while the money exceeds the piggybank by
/// more than the buffer, a positive difference between the two is earnings,
/// and the piggybank grows by its share of them, rounded down.
pub open spec fn saved(piggybank: nat, money: int, previous_money: int) -> nat {
    if money - piggybank > PIGGYBANK_BUFFER && money - previous_money > 0 {
        piggybank + ((money - previous_money) / (PIGGYBANK_DIVIDER as int)) as nat
    } else {
        piggybank
    }
}

/// What the trader carries from one tick to the next.
pub struct TickMemory {
    /// Savings that no purchase may touch, in micros. They only ever grow.
    pub piggybank: u64,
    /// The player's money at the end of the previous tick, in micros.
    pub old_money: i64,
    /// The trader's listings at the end of the previous tick.
    pub old_own_listings: Vec<Listing>,
}

impl TickMemory {
    /// The memory before the first tick: an empty piggybank, and the client's
    /// present picture as the previous tick's.
    pub fn new(client: &Client) -> (memory: Self)
        ensures
            memory.piggybank == 0,
            memory.old_money == client.player.money,
            memory.old_own_listings@ == client.listings@.filter(
                own_listing(client.player.id, client.bedazzlement_listings@),
            ),
    {
        TickMemory {
            piggybank: 0,
            old_money: client.player.money,
            old_own_listings: client.get_own_listings(),
        }
    }

    /// Puts the piggybank's share of the last tick's earnings aside, given
    /// the money that the player has now. The piggybank never shrinks.
    pub fn save_earnings(&mut self, money: i64)
        ensures
            final(self).piggybank == saved(
                old(self).piggybank as nat,
                money as int,
                old(self).old_money as int,
            ),
            final(self).piggybank >= old(self).piggybank,
            final(self).old_money == old(self).old_money,
            final(self).old_own_listings == old(self).old_own_listings,
    {
        let earnings: i128 = money as i128 - self.old_money as i128;
        if money as i128 - self.piggybank as i128 > PIGGYBANK_BUFFER as i128 && earnings > 0 {
            let share: i128 = earnings / (PIGGYBANK_DIVIDER as i128);
            self.piggybank = (self.piggybank as i128 + share) as u64;
        }
    }

    /// Remembers the client's picture at the end of a tick for the next one.
    pub fn remember(&mut self, client: &Client)
        ensures
            final(self).piggybank == old(self).piggybank,
            final(self).old_money == client.player.money,
            final(self).old_own_listings@ == client.listings@.filter(
                own_listing(client.player.id, client.bedazzlement_listings@),
            ),
    {
        self.old_money = client.player.money;
        self.old_own_listings = client.get_own_listings();
    }
}

} // verus!
