//! The clock of the game: which rules are in force how long after the start,
//! and how long a tick lasts.

use vstd::prelude::*;

verus! {

/// Length of one tick, in milliseconds.
pub const SIMULATION_TICK_TIMER_IN_MS: u128 = 30000;

/// Pause between two looks at the competitors, in milliseconds.
pub const UNDERCUT_PAUSE_IN_MS: u64 = 100;

/// After this many seconds prices may fall below the low selling price.
pub const SELL_BELOW_AVERAGE_AFTER_SECONDS: u64 = 82800;

/// After this many seconds trend levels no longer cause purchases.
pub const DONT_BUY_BASED_ON_TAG_LEVEL_AFTER_SECONDS: u64 = 82800;

/// After this many seconds missing articles are no longer bought.
pub const DONT_BUY_ONE_OF_EVERYTHING_AFTER_SECONDS: u64 = 82800;

/// After this many seconds the trader starts to mislead competitors.
pub const BEDAZZLE_AFTER_SECONDS: u64 = 600;

/// Whether the floor under the prices is lifted, so that stock can be sold
/// off below the low selling price.
pub open spec fn floor_lifted(elapsed_secs: u64) -> bool {
    elapsed_secs > SELL_BELOW_AVERAGE_AFTER_SECONDS
}

/// Whether trend levels cause purchases.
pub open spec fn buys_by_trend(elapsed_secs: u64) -> bool {
    elapsed_secs < DONT_BUY_BASED_ON_TAG_LEVEL_AFTER_SECONDS
}

/// Whether articles that the trader neither holds nor offers are bought.
pub open spec fn buys_missing(elapsed_secs: u64) -> bool {
    elapsed_secs < DONT_BUY_ONE_OF_EVERYTHING_AFTER_SECONDS
}

/// Whether the trader misleads competitors.
pub open spec fn bedazzles(elapsed_secs: u64) -> bool {
    elapsed_secs > BEDAZZLE_AFTER_SECONDS
}

/// Whether a tick that has run for `elapsed_ms` has time left.
pub open spec fn tick_has_time(elapsed_ms: u128) -> bool {
    SIMULATION_TICK_TIMER_IN_MS > elapsed_ms
}

/// Whether a tick that has run for `elapsed_ms` has used up its time.
pub open spec fn tick_is_over(elapsed_ms: u128) -> bool {
    SIMULATION_TICK_TIMER_IN_MS < elapsed_ms
}

/// Whether the floor under the prices is lifted `elapsed_secs` after the
/// start.
pub fn is_floor_lifted(elapsed_secs: u64) -> (lifted: bool)
    ensures
        lifted == floor_lifted(elapsed_secs),
{
    elapsed_secs > SELL_BELOW_AVERAGE_AFTER_SECONDS
}

/// Whether trend levels cause purchases `elapsed_secs` after the start.
pub fn is_buying_by_trend(elapsed_secs: u64) -> (buying: bool)
    ensures
        buying == buys_by_trend(elapsed_secs),
{
    elapsed_secs < DONT_BUY_BASED_ON_TAG_LEVEL_AFTER_SECONDS
}

/// Whether missing articles are bought `elapsed_secs` after the start.
pub fn is_buying_missing(elapsed_secs: u64) -> (buying: bool)
    ensures
        buying == buys_missing(elapsed_secs),
{
    elapsed_secs < DONT_BUY_ONE_OF_EVERYTHING_AFTER_SECONDS
}

/// Whether the trader misleads competitors `elapsed_secs` after the start.
pub fn is_bedazzling(elapsed_secs: u64) -> (active: bool)
    ensures
        active == bedazzles(elapsed_secs),
{
    elapsed_secs > BEDAZZLE_AFTER_SECONDS
}

/// Whether a tick that has run for `elapsed_ms` may start another look at the
/// competitors.
pub fn has_time_left(elapsed_ms: u128) -> (left: bool)
    ensures
        left == tick_has_time(elapsed_ms),
{
    SIMULATION_TICK_TIMER_IN_MS > elapsed_ms
}

/// Whether a tick that has run for `elapsed_ms` must stop at once.
pub fn is_over(elapsed_ms: u128) -> (over: bool)
    ensures
        over == tick_is_over(elapsed_ms),
{
    SIMULATION_TICK_TIMER_IN_MS < elapsed_ms
}

/// The steps of a tick. Each says what the trader does next; what follows
/// it depends on how it went and on the time that the tick has run.
#[derive(Debug, Clone, Copy, PartialEq, Eq, Structural)]
pub enum Step {
    /// A tick begins: its clock starts, and the player's state is fetched.
    FetchPlayer,
    /// The article catalog is fetched.
    FetchArticles,
    /// The tag catalog is fetched.
    FetchTags,
    /// The suppliers are fetched.
    FetchSuppliers,
    /// The listings are fetched.
    FetchListings,
    /// The piggybank gets its share, and the pricing policy is applied.
    Reprice,
    /// The purchase planner buys.
    Buy,
    /// The player's state is fetched again, for the stock that was bought.
    RefreshPlayer,
    /// Competitors are misled.
    Bedazzle,
    /// The listings are fetched again, for what the sabotage changed.
    RefreshListings,
    /// The player's stock is put up for sale.
    Liquidate,
    /// The listings are fetched again and kept for the next tick.
    Remember,
    /// The trader waits a moment before it looks at its competitors.
    Pause,
    /// One round of the undercut loop.
    Undercut,
}

/// Whether a step is one of the fetches with which a tick begins. If one of
/// them fails, the tick is given up.
pub open spec fn opens_tick(step: Step) -> bool {
    step is FetchPlayer || step is FetchArticles || step is FetchTags || step is FetchSuppliers
        || step is FetchListings
}

/// The step after `step`, given whether `step` succeeded and how long the
/// tick has run when it ends.
///
/// The fetches that open a tick follow each other while they succeed; the
/// first that fails gives the tick up, and the next tick begins. After them
/// the steps follow in their order, however they went. Once the tick's work
/// is done, pauses and rounds of the undercut loop alternate while the tick
/// has time; then the next tick begins.
pub open spec fn next_step(step: Step, succeeded: bool, tick_ms: u128) -> Step {
    if opens_tick(step) && !succeeded {
        Step::FetchPlayer
    } else {
        match step {
            Step::FetchPlayer => Step::FetchArticles,
            Step::FetchArticles => Step::FetchTags,
            Step::FetchTags => Step::FetchSuppliers,
            Step::FetchSuppliers => Step::FetchListings,
            Step::FetchListings => Step::Reprice,
            Step::Reprice => Step::Buy,
            Step::Buy => Step::RefreshPlayer,
            Step::RefreshPlayer => Step::Bedazzle,
            Step::Bedazzle => Step::RefreshListings,
            Step::RefreshListings => Step::Liquidate,
            Step::Liquidate => Step::Remember,
            Step::Pause => Step::Undercut,
            Step::Remember | Step::Undercut => if tick_has_time(tick_ms) {
                Step::Pause
            } else {
                Step::FetchPlayer
            },
        }
    }
}

/// The step after `step`, given whether `step` succeeded and how long the
/// tick has run when it ends.
pub fn following(step: Step, succeeded: bool, tick_ms: u128) -> (next: Step)
    ensures
        next == next_step(step, succeeded, tick_ms),
{
    match step {
        Step::FetchPlayer => if succeeded {
            Step::FetchArticles
        } else {
            Step::FetchPlayer
        },
        Step::FetchArticles => if succeeded {
            Step::FetchTags
        } else {
            Step::FetchPlayer
        },
        Step::FetchTags => if succeeded {
            Step::FetchSuppliers
        } else {
            Step::FetchPlayer
        },
        Step::FetchSuppliers => if succeeded {
            Step::FetchListings
        } else {
            Step::FetchPlayer
        },
        Step::FetchListings => if succeeded {
            Step::Reprice
        } else {
            Step::FetchPlayer
        },
        Step::Reprice => Step::Buy,
        Step::Buy => Step::RefreshPlayer,
        Step::RefreshPlayer => Step::Bedazzle,
        Step::Bedazzle => Step::RefreshListings,
        Step::RefreshListings => Step::Liquidate,
        Step::Liquidate => Step::Remember,
        Step::Pause => Step::Undercut,
        Step::Remember | Step::Undercut => if has_time_left(tick_ms) {
            Step::Pause
        } else {
            Step::FetchPlayer
        },
    }
}

/// A failed fetch gives the tick up: it leads back to the first step. The
/// first step after the fetches is reached only from the last of them, when
/// it succeeded. How any later step went does not matter for what follows
/// it.
pub proof fn lemma_failed_fetch_gives_the_tick_up(step: Step, succeeded: bool, tick_ms: u128)
    ensures
        opens_tick(step) && !succeeded ==> next_step(step, succeeded, tick_ms) is FetchPlayer,
        next_step(step, succeeded, tick_ms) is Reprice ==> step is FetchListings && succeeded,
        !opens_tick(step) ==> next_step(step, succeeded, tick_ms) == next_step(
            step,
            !succeeded,
            tick_ms,
        ),
{
}

/// A tick does not go on past its time: once it is used up, the step after
/// the tick's work, and after each round of the undercut loop, is the first
/// step of the next tick. A round of the undercut loop begins only after a
/// pause, and a pause only while the tick has time.
pub proof fn lemma_tick_ends_in_time(step: Step, succeeded: bool, tick_ms: u128)
    ensures
        (step is Remember || step is Undercut) && !tick_has_time(tick_ms) ==> next_step(
            step,
            succeeded,
            tick_ms,
        ) is FetchPlayer,
        next_step(step, succeeded, tick_ms) is Undercut ==> step is Pause,
        next_step(step, succeeded, tick_ms) is Pause ==> tick_has_time(tick_ms) && (step is Remember
            || step is Undercut),
{
}

} // verus!
