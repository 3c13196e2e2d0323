//! Decision engine of an autonomous trader in a simulated marketplace.
//!
//! Every tick the engine looks at a snapshot of the market (articles, tags,
//! suppliers, listings and the player's own state) and decides which prices
//! to change, what to buy, which listings to open and how to mislead
//! competitors. Talking to the marketplace is left to the caller: the
//! functions here take plain values and hand back the actions to perform.
//!
//! * `money`: fixed-point amounts and the multipliers of the rules. All money
//!   is counted in whole millionths of a currency unit.
//! * `client`: the trader's picture of the marketplace, with the price
//!   history of each article and the trend level of each tag.
//! * `game`: the rules of a tick, from the pricing policy to the undercut
//!   loop, and the order of its steps.
//! * `find`: the first item of a sequence that meets a condition.

pub mod client;
pub mod find;
pub mod game;
pub mod money;
