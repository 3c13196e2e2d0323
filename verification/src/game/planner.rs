//! The purchase planner: it serves the orders of a tick, one offer at a time,
//! from a budget that is fixed when the pass begins.
//!
//! Buying is the caller's business. The pass hands out the next purchase to
//! attempt, is told whether it went through, and goes on from there.

use std::collections::HashMap;
use vstd::prelude::*;
use vstd::arithmetic::div_mod::{lemma_fundamental_div_mod, lemma_mod_bound};
use vstd::arithmetic::mul::lemma_mul_inequality;
use crate::client::history::{average_of, known_average, series, ArticlePriceHistory};
use crate::client::types::{Listing, Stock, Supplier};
use crate::client::Client;
use crate::find::{first, first_from, lemma_first_from_is, lemma_first_from_is_none};
use crate::find::{lemma_first_is, lemma_first_is_none};
use crate::game::demand::{by_descending_count, descending, desired, desired_purchases, Order};
use crate::game::schedule::{buys_by_trend, buys_missing};
use crate::money::{buy_limit, buying_limit};

verus! {

/// A purchase to attempt: `count` units of an article from a supplier, at
/// `price` micros each.
#[derive(Debug, Clone, Copy, PartialEq, Eq, Structural)]
pub struct Purchase {
    pub supplier_id: usize,
    pub article_id: usize,
    pub count: usize,
    pub price: u64,
}

/// What a purchase costs in all.
pub open spec fn cost(purchase: Purchase) -> int {
    purchase.price * purchase.count
}

/// The positions of a stock that hold units of a given article.
pub open spec fn offered(article_id: usize) -> spec_fn(Stock) -> bool {
    |position: Stock| position.article_id == article_id && position.stock > 0
}

/// What a supplier offers of an article: the first position of its stock
/// that holds units of it.
pub open spec fn offer_of(supplier: Supplier, article_id: usize) -> Option<Stock> {
    match first(supplier.stock@, offered(article_id)) {
        Some(i) => Some(supplier.stock@[i]),
        None => None,
    }
}

/// How many of `wanted` units at `price` each a budget pays for.
pub open spec fn affordable(wanted: nat, price: nat, budget: int) -> nat {
    if budget < 0 {
        0
    } else if price == 0 {
        wanted
    } else if budget / (price as int) < wanted {
        (budget / (price as int)) as nat
    } else {
        wanted
    }
}

/// How many units to buy from an offer while `open` units are still wanted:
/// none where the article's average price is unknown or the offer is above
/// the buying limit; else as many as are wanted, on offer and paid for by
/// the budget.
pub open spec fn amount_to_buy(offer: Stock, average: Option<int>, open: nat, budget: int) -> nat {
    match average {
        Some(average) => if offer.price > buying_limit(average) {
            0
        } else if offer.stock < open {
            affordable(offer.stock as nat, offer.price as nat, budget)
        } else {
            affordable(open, offer.price as nat, budget)
        },
        None => 0,
    }
}

/// The suppliers from which units of an article are bought, given its average
/// price, the units still wanted and the budget.
pub open spec fn takes(article_id: usize, average: Option<int>, open: nat, budget: int) -> spec_fn(
    Supplier,
) -> bool {
    |supplier: Supplier|
        match offer_of(supplier, article_id) {
            Some(offer) => amount_to_buy(offer, average, open, budget) > 0,
            None => false,
        }
}

/// The orders of which some supplier sells units within the budget.
pub open spec fn serves(
    suppliers: Seq<Supplier>,
    series: Map<usize, Seq<u64>>,
    budget: int,
) -> spec_fn(Order) -> bool {
    |order: Order|
        first(
            suppliers,
            takes(
                order.article_id,
                known_average(series, order.article_id),
                order.count as nat,
                budget,
            ),
        ) is Some
}

/// Where a pass stands.
pub struct PassState {
    /// The orders, in the order in which they are served.
    pub orders: Seq<Order>,
    /// The budget with which the pass began.
    pub starting_budget: int,
    /// What is left of the budget.
    pub budget: int,
    /// The order being served; the number of orders once the pass is over.
    pub order: int,
    /// The next supplier to ask for the order being served.
    pub supplier: int,
    /// The units of the order being served that are still wanted.
    pub open: nat,
    /// The purchase that was handed out and awaits its outcome.
    pub pending: Option<Purchase>,
}

/// The units wanted of order `i` when the pass gets to it.
pub open spec fn open_at(state: PassState, i: int) -> nat {
    if i == state.order {
        state.open
    } else {
        state.orders[i].count as nat
    }
}

/// The next purchase: the order and the supplier of the first offer, from
/// where the pass stands, of which units are bought. The suppliers left for
/// the order being served come first, then the later orders with all
/// suppliers.
pub open spec fn next_position(
    state: PassState,
    suppliers: Seq<Supplier>,
    series: Map<usize, Seq<u64>>,
) -> Option<(int, int)> {
    if state.order < 0 || state.order >= state.orders.len() {
        None
    } else {
        let current = state.orders[state.order];
        match first_from(
            suppliers,
            takes(
                current.article_id,
                known_average(series, current.article_id),
                state.open,
                state.budget,
            ),
            state.supplier,
        ) {
            Some(j) => Some((state.order, j)),
            None => match first_from(
                state.orders,
                serves(suppliers, series, state.budget),
                state.order + 1,
            ) {
                Some(i) => {
                    let order = state.orders[i];
                    match first(
                        suppliers,
                        takes(
                            order.article_id,
                            known_average(series, order.article_id),
                            order.count as nat,
                            state.budget,
                        ),
                    ) {
                        Some(j) => Some((i, j)),
                        None => None,
                    }
                },
                None => None,
            },
        }
    }
}

/// The purchase made for order `i` at supplier `j`.
pub open spec fn purchase_at(
    state: PassState,
    suppliers: Seq<Supplier>,
    series: Map<usize, Seq<u64>>,
    i: int,
    j: int,
) -> Purchase {
    let order = state.orders[i];
    let offer = offer_of(suppliers[j], order.article_id).unwrap();
    Purchase {
        supplier_id: suppliers[j].id,
        article_id: order.article_id,
        count: amount_to_buy(
            offer,
            known_average(series, order.article_id),
            open_at(state, i),
            state.budget,
        ) as usize,
        price: offer.price,
    }
}

/// The pass after it went on to its next purchase, or to its end where
/// nothing is left to buy.
pub open spec fn advanced(
    state: PassState,
    suppliers: Seq<Supplier>,
    series: Map<usize, Seq<u64>>,
) -> PassState {
    match next_position(state, suppliers, series) {
        Some((i, j)) => PassState {
            order: i,
            supplier: j,
            open: open_at(state, i),
            pending: Some(purchase_at(state, suppliers, series, i, j)),
            ..state
        },
        None => PassState {
            order: state.orders.len() as int,
            supplier: 0,
            open: 0,
            pending: None,
            ..state
        },
    }
}

/// The pass after the outcome of its pending purchase is known. A purchase
/// that went through is paid from the budget and taken off the order. An
/// order that is filled gives way to the next order, any other goes on with
/// the next supplier.
pub open spec fn settled(state: PassState, bought: bool) -> PassState {
    match state.pending {
        Some(purchase) => {
            let budget = if bought {
                state.budget - cost(purchase)
            } else {
                state.budget
            };
            let open = if bought {
                (state.open - purchase.count) as nat
            } else {
                state.open
            };
            if open == 0 {
                PassState {
                    budget,
                    order: state.order + 1,
                    supplier: 0,
                    open: if state.order + 1 < state.orders.len() {
                        state.orders[state.order + 1].count as nat
                    } else {
                        0
                    },
                    pending: None,
                    ..state
                }
            } else {
                PassState { budget, supplier: state.supplier + 1, open, pending: None, ..state }
            }
        },
        None => state,
    }
}

/// The amount that a budget pays for is the largest that it pays for: it is
/// within what is wanted, its cost is within the budget, and every larger
/// amount that is wanted costs more than the budget holds.
pub proof fn lemma_affordable_is_largest(wanted: nat, price: nat, budget: int)
    ensures
        affordable(wanted, price, budget) <= wanted,
        affordable(wanted, price, budget) > 0 ==> price * affordable(wanted, price, budget)
            <= budget,
        forall|more: nat|
            affordable(wanted, price, budget) < more <= wanted ==> #[trigger] (price * more)
                > budget,
{
    let amount = affordable(wanted, price, budget);
    if budget >= 0 && price > 0 {
        let p = price as int;
        let q = budget / p;
        lemma_fundamental_div_mod(budget, p);
        lemma_mod_bound(budget, p);
        assert(p * (q + 1) == p * q + p) by (nonlinear_arith);
        if amount > 0 {
            assert(price * amount <= budget) by {
                if amount < q {
                    lemma_mul_inequality(amount as int, q, p);
                    assert(amount * p == price * amount) by (nonlinear_arith)
                        requires
                            p == price,
                    ;
                    assert(q * p == p * q) by (nonlinear_arith);
                }
            }
        }
        assert forall|more: nat| amount < more <= wanted implies #[trigger] (price * more)
            > budget by {
            lemma_mul_inequality(q + 1, more as int, p);
            assert((q + 1) * p == p * (q + 1)) by (nonlinear_arith);
            assert(more * p == price * more) by (nonlinear_arith)
                requires
                    p == price,
            ;
        }
    } else if budget < 0 {
        assert forall|more: nat| amount < more <= wanted implies #[trigger] (price * more)
            > budget by {
            assert(price * more >= 0) by (nonlinear_arith)
                requires
                    price >= 0,
                    more >= 0,
            ;
        }
    } else {
        assert(price * amount == 0) by (nonlinear_arith)
            requires
                price == 0,
        ;
    }
}

/// The units bought from an offer are wanted, on offer and paid for by the
/// budget, at a price within the buying limit of the article.
pub proof fn lemma_amount_to_buy_is_sound(
    offer: Stock,
    average: Option<int>,
    open: nat,
    budget: int,
)
    requires
        amount_to_buy(offer, average, open, budget) > 0,
    ensures
        amount_to_buy(offer, average, open, budget) <= open,
        amount_to_buy(offer, average, open, budget) <= offer.stock,
        offer.price * amount_to_buy(offer, average, open, budget) <= budget,
        average is Some,
        offer.price <= buying_limit(average.unwrap()),
{
    if offer.stock < open {
        lemma_affordable_is_largest(offer.stock as nat, offer.price as nat, budget);
    } else {
        lemma_affordable_is_largest(open, offer.price as nat, budget);
    }
}

/// What a supplier offers of an article.
pub fn find_offer(supplier: &Supplier, article_id: usize) -> (offer: Option<Stock>)
    ensures
        offer == offer_of(*supplier, article_id),
{
    let mut i: usize = 0;
    while i < supplier.stock.len()
        invariant
            i <= supplier.stock@.len(),
            forall|k: int| 0 <= k < i ==> !offered(article_id)(#[trigger] supplier.stock@[k]),
        decreases supplier.stock@.len() - i,
    {
        let position: Stock = supplier.stock[i];
        if position.article_id == article_id && position.stock > 0 {
            proof {
                lemma_first_is(supplier.stock@, offered(article_id), i as int);
            }
            return Some(position);
        }
        i = i + 1;
    }
    proof {
        lemma_first_is_none(supplier.stock@, offered(article_id));
    }
    None
}

/// How many of `wanted` units at `price` each a budget pays for.
pub fn affordable_amount(wanted: usize, price: u64, budget: i128) -> (amount: usize)
    ensures
        amount == affordable(wanted as nat, price as nat, budget as int),
{
    if budget < 0 {
        0
    } else if price == 0 {
        wanted
    } else {
        let paid_for: i128 = budget / (price as i128);
        if paid_for < wanted as i128 {
            paid_for as usize
        } else {
            wanted
        }
    }
}

/// How many units to buy from an offer while `open` units are still wanted.
pub fn amount_for(offer: &Stock, average: Option<u64>, open: u128, budget: i128) -> (amount: usize)
    ensures
        amount == amount_to_buy(
            *offer,
            match average {
                Some(a) => Some(a as int),
                None => None,
            },
            open as nat,
            budget as int,
        ),
{
    match average {
        Some(average) => {
            if offer.price as i128 > buy_limit(average) {
                0
            } else if (offer.stock as u128) < open {
                affordable_amount(offer.stock, offer.price, budget)
            } else {
                affordable_amount(open as usize, offer.price, budget)
            }
        },
        None => 0,
    }
}

/// The suppliers that offer units of a given article.
pub open spec fn sells(article_id: usize) -> spec_fn(Supplier) -> bool {
    |supplier: Supplier| offer_of(supplier, article_id) is Some
}

/// The articles of those of the first `n` orders that cannot be served though
/// a supplier offers the article, because the average price of the article
/// is unknown; in the order of the orders.
pub open spec fn unpriced_among(
    orders: Seq<Order>,
    suppliers: Seq<Supplier>,
    series: Map<usize, Seq<u64>>,
    n: int,
) -> Seq<usize>
    decreases n,
{
    if n <= 0 {
        Seq::empty()
    } else if known_average(series, orders[n - 1].article_id) is None && first(
        suppliers,
        sells(orders[n - 1].article_id),
    ) is Some {
        unpriced_among(orders, suppliers, series, n - 1).push(orders[n - 1].article_id)
    } else {
        unpriced_among(orders, suppliers, series, n - 1)
    }
}

/// The articles that a pass over the given orders does not buy for lack of
/// a price history, though a supplier offers them.
pub fn unpriced_orders(
    orders: &Vec<Order>,
    suppliers: &Vec<Supplier>,
    histories: &HashMap<usize, ArticlePriceHistory>,
) -> (articles: Vec<usize>)
    ensures
        articles@ == unpriced_among(
            orders@,
            suppliers@,
            series(histories@),
            orders@.len() as int,
        ),
{
    let mut articles: Vec<usize> = Vec::new();
    let mut i: usize = 0;
    while i < orders.len()
        invariant
            i <= orders@.len(),
            articles@ == unpriced_among(orders@, suppliers@, series(histories@), i as int),
        decreases orders@.len() - i,
    {
        let article_id: usize = orders[i].article_id;
        match average_of(histories, article_id) {
            Some(_) => {},
            None => {
                let mut j: usize = 0;
                let mut offered: bool = false;
                while j < suppliers.len() && !offered
                    invariant
                        j <= suppliers@.len(),
                        !offered ==> forall|k: int|
                            0 <= k < j ==> !sells(article_id)(#[trigger] suppliers@[k]),
                        offered ==> first(suppliers@, sells(article_id)) is Some,
                    decreases suppliers@.len() - j + (if offered { 0int } else { 1int }),
                {
                    match find_offer(&suppliers[j], article_id) {
                        Some(_) => {
                            proof {
                                lemma_first_is(suppliers@, sells(article_id), j as int);
                            }
                            offered = true;
                        },
                        None => {
                            j = j + 1;
                        },
                    }
                }
                if offered {
                    articles.push(article_id);
                } else {
                    proof {
                        lemma_first_is_none(suppliers@, sells(article_id));
                    }
                }
            },
        }
        i = i + 1;
    }
    articles
}

/// One pass of the purchase planner over the orders of a tick.
pub struct PurchasePass {
    orders: Vec<Order>,
    starting_budget: i128,
    budget: i128,
    order: usize,
    supplier: usize,
    open: u128,
    pending: Option<Purchase>,
}

impl View for PurchasePass {
    type V = PassState;

    closed spec fn view(&self) -> PassState {
        PassState {
            orders: self.orders@,
            starting_budget: self.starting_budget as int,
            budget: self.budget as int,
            order: self.order as int,
            supplier: self.supplier as int,
            open: self.open as nat,
            pending: self.pending,
        }
    }
}

impl PurchasePass {
    #[verifier::type_invariant]
    spec fn consistent(&self) -> bool {
        &&& self.budget <= self.starting_budget
        &&& self.order <= self.orders@.len()
        &&& match self.pending {
            Some(purchase) => {
                &&& 0 < purchase.count <= self.open
                &&& purchase.price * purchase.count <= self.budget
                &&& self.supplier < usize::MAX
                &&& self.order < self.orders@.len()
            },
            None => true,
        }
    }

    /// A pass over `orders`, in their order, with the money that the
    /// piggybank leaves as its budget.
    pub fn begin(orders: Vec<Order>, money: i64, piggybank: u64) -> (pass: Self)
        ensures
            pass@ == (PassState {
                orders: orders@,
                starting_budget: money - piggybank,
                budget: money - piggybank,
                order: 0,
                supplier: 0,
                open: if orders@.len() > 0 {
                    orders@[0].count as nat
                } else {
                    0
                },
                pending: None,
            }),
    {
        let budget: i128 = money as i128 - piggybank as i128;
        let open: u128 = if orders.len() > 0 {
            orders[0].count
        } else {
            0
        };
        PurchasePass {
            orders,
            starting_budget: budget,
            budget,
            order: 0,
            supplier: 0,
            open,
            pending: None,
        }
    }

    /// The orders of the pass, in the order in which it serves them.
    pub fn orders(&self) -> (orders: &Vec<Order>)
        ensures
            orders@ == self@.orders,
    {
        &self.orders
    }

    /// What is left of the budget.
    pub fn budget(&self) -> (budget: i128)
        ensures
            budget == self@.budget,
            budget <= self@.starting_budget,
    {
        proof {
            use_type_invariant(self);
        }
        self.budget
    }

    /// The budget with which the pass began.
    pub fn starting_budget(&self) -> (budget: i128)
        ensures
            budget == self@.starting_budget,
    {
        self.starting_budget
    }

    /// The purchase that awaits its outcome.
    pub fn pending(&self) -> (purchase: Option<Purchase>)
        ensures
            purchase == self@.pending,
    {
        self.pending
    }

    /// The next purchase to attempt, `None` once the pass is over. The pass
    /// remembers the purchase until `settle` tells it the outcome; asked
    /// again before that, it hands out the same purchase.
    ///
    /// No purchase costs more than what is left of the budget, and so none
    /// costs more than the budget with which the pass began; none is made at
    /// a price above the buying limit of its article.
    pub fn next_purchase(
        &mut self,
        suppliers: &Vec<Supplier>,
        histories: &HashMap<usize, ArticlePriceHistory>,
    ) -> (purchase: Option<Purchase>)
        ensures
            purchase == final(self)@.pending,
            old(self)@.pending is Some ==> final(self)@ == old(self)@,
            old(self)@.pending is None ==> final(self)@ == advanced(
                old(self)@,
                suppliers@,
                series(histories@),
            ),
            match purchase {
                Some(p) => {
                    &&& 0 < p.count <= final(self)@.open
                    &&& cost(p) <= final(self)@.budget <= final(self)@.starting_budget
                    &&& old(self)@.pending is None ==> {
                        &&& known_average(series(histories@), p.article_id) is Some
                        &&& p.price <= buying_limit(
                            known_average(series(histories@), p.article_id).unwrap(),
                        )
                    }
                },
                None => true,
            },
    {
        proof {
            use_type_invariant(&*self);
        }
        match self.pending {
            Some(purchase) => {
                return Some(purchase);
            },
            None => {},
        }
        let ghost state = self@;
        let ghost known = series(histories@);
        let mut i: usize = self.order;
        let mut j: usize = self.supplier;
        let mut open: u128 = self.open;
        while i < self.orders.len()
            invariant
                self@ == state,
                state == old(self)@,
                state.pending is None,
                self.orders@ == state.orders,
                self.budget == state.budget,
                self.budget <= self.starting_budget,
                self.pending is None,
                known == series(histories@),
                state.order <= i <= state.orders.len(),
                i < state.orders.len() ==> open == open_at(state, i as int),
                i == state.order ==> j == state.supplier,
                i > state.order ==> j == 0,
                i > state.order ==> first_from(
                    suppliers@,
                    takes(
                        state.orders[state.order].article_id,
                        known_average(known, state.orders[state.order].article_id),
                        state.open,
                        state.budget,
                    ),
                    state.supplier,
                ) is None,
                forall|k: int|
                    state.order < k < i ==> !serves(suppliers@, known, state.budget)(
                        #[trigger] state.orders[k],
                    ),
            decreases state.orders.len() - i,
        {
            let order: Order = self.orders[i];
            let average: Option<u64> = average_of(histories, order.article_id);
            let ghost from = j as int;
            let ghost taking = takes(
                order.article_id,
                known_average(known, order.article_id),
                open as nat,
                state.budget,
            );
            while j < suppliers.len()
                invariant
                    self@ == state,
                    state == old(self)@,
                    state.pending is None,
                    self.orders@ == state.orders,
                    self.budget == state.budget,
                    self.budget <= self.starting_budget,
                    self.pending is None,
                    known == series(histories@),
                    state.order <= i < state.orders.len(),
                    order == state.orders[i as int],
                    open == open_at(state, i as int),
                    match average {
                        Some(a) => known_average(known, order.article_id) == Some(a as int),
                        None => known_average(known, order.article_id) is None,
                    },
                    taking == takes(
                        order.article_id,
                        known_average(known, order.article_id),
                        open as nat,
                        state.budget,
                    ),
                    from == (if i == state.order {
                        state.supplier
                    } else {
                        0
                    }),
                    from <= j,
                    forall|k: int| from <= k < j ==> !taking(#[trigger] suppliers@[k]),
                    i > state.order ==> first_from(
                        suppliers@,
                        takes(
                            state.orders[state.order].article_id,
                            known_average(known, state.orders[state.order].article_id),
                            state.open,
                            state.budget,
                        ),
                        state.supplier,
                    ) is None,
                    forall|k: int|
                        state.order < k < i ==> !serves(suppliers@, known, state.budget)(
                            #[trigger] state.orders[k],
                        ),
                decreases suppliers@.len() - j,
            {
                match find_offer(&suppliers[j], order.article_id) {
                    Some(offer) => {
                        let amount: usize = amount_for(&offer, average, open, self.budget);
                        if amount > 0 {
                            let purchase = Purchase {
                                supplier_id: suppliers[j].id,
                                article_id: order.article_id,
                                count: amount,
                                price: offer.price,
                            };
                            proof {
                                lemma_amount_to_buy_is_sound(
                                    offer,
                                    known_average(known, order.article_id),
                                    open as nat,
                                    state.budget,
                                );
                                lemma_first_from_is(suppliers@, taking, from, j as int);
                                if i > state.order {
                                    lemma_first_from_is(
                                        state.orders,
                                        serves(suppliers@, known, state.budget),
                                        state.order + 1,
                                        i as int,
                                    );
                                }
                            }
                            self.order = i;
                            self.supplier = j;
                            self.open = open;
                            self.pending = Some(purchase);
                            return Some(purchase);
                        }
                    },
                    None => {},
                }
                j = j + 1;
            }
            proof {
                lemma_first_from_is_none(suppliers@, taking, from);
            }
            i = i + 1;
            j = 0;
            if i < self.orders.len() {
                open = self.orders[i].count;
            }
        }
        proof {
            if state.order < state.orders.len() {
                lemma_first_from_is_none(
                    state.orders,
                    serves(suppliers@, known, state.budget),
                    state.order + 1,
                );
            }
        }
        self.order = self.orders.len();
        self.supplier = 0;
        self.open = 0;
        None
    }

    /// Tells the pass whether the purchase that it handed out went through.
    /// Without a pending purchase this changes nothing.
    pub fn settle(&mut self, bought: bool)
        ensures
            final(self)@ == settled(old(self)@, bought),
            final(self)@.budget <= old(self)@.budget,
            old(self)@.budget >= 0 ==> final(self)@.budget >= 0,
    {
        proof {
            use_type_invariant(&*self);
        }
        match self.pending {
            Some(purchase) => {
                let orders: usize = self.orders.len();
                self.pending = None;
                if bought {
                    assert(0 <= purchase.price * purchase.count) by (nonlinear_arith);
                    let spent: i128 = (purchase.price as i128) * (purchase.count as i128);
                    self.budget = self.budget - spent;
                    self.open = self.open - purchase.count as u128;
                }
                if self.open == 0 {
                    let next: usize = self.order + 1;
                    if next < orders {
                        self.open = self.orders[next].count;
                    }
                    self.order = next;
                    self.supplier = 0;
                } else {
                    self.supplier = self.supplier + 1;
                }
            },
            None => {},
        }
    }
}

impl Client {
    /// Begins the purchase pass of a tick: the orders that the catalog, the
    /// trend levels, the player's stock and the given listings call for, the
    /// largest first, and as budget the player's money without the
    /// piggybank.
    pub fn plan_purchases(&self, own: &Vec<Listing>, piggybank: u64, elapsed_secs: u64) -> (pass:
        PurchasePass)
        ensures
            descending(pass@.orders),
            pass@.orders.to_multiset() == desired(
                self.articles@,
                self.tag_trend_levels@,
                self.player.stock@,
                own@,
                buys_by_trend(elapsed_secs),
                buys_missing(elapsed_secs),
                self.articles@.len() as int,
            ).to_multiset(),
            pass@.starting_budget == self.player.money - piggybank,
            pass@.budget == self.player.money - piggybank,
            pass@.order == 0,
            pass@.supplier == 0,
            pass@.open == if pass@.orders.len() > 0 {
                pass@.orders[0].count as nat
            } else {
                0
            },
            pass@.pending is None,
    {
        let orders = desired_purchases(
            &self.articles,
            &self.tag_trend_levels,
            &self.player.stock,
            own,
            elapsed_secs,
        );
        PurchasePass::begin(by_descending_count(&orders), self.player.money, piggybank)
    }
}

} // verus!
