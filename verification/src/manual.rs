//! Orders placed by hand: live, or over candles of the past.

use crate::data::Wick;
use crate::keymap::KeyMap;
use crate::live::LiveInfo;
use crate::message::{BinInstructs, ClientInstruct};
use crate::num;
use crate::num::Number;
use crate::orders::LiveOrders;
use crate::reader;
use crate::single::{Round, SingleOrderMode};
use crate::time::Stamp;
use crate::trade::{BasicOrderType, HistTrade, LimitStatus, Order, Quant, StopStatus};
use vstd::prelude::*;

verus! {

/// `==` on parts.
pub open spec fn same_quant<F: Number>(a: Quant<F>, b: Quant<F>) -> bool {
    match (a, b) {
        (Quant::Q100, Quant::Q100) => true,
        (Quant::Q75, Quant::Q75) => true,
        (Quant::Q50, Quant::Q50) => true,
        (Quant::Q25, Quant::Q25) => true,
        (Quant::Q { q: x }, Quant::Q { q: y }) => num::equal(x, y),
        _ => false,
    }
}

fn is_same_quant<F: Number>(a: &Quant<F>, b: &Quant<F>) -> (r: bool)
    requires
        num::lawful::<F>(),
    ensures
        r == same_quant(*a, *b),
{
    match (a, b) {
        (Quant::Q100, Quant::Q100) => true,
        (Quant::Q75, Quant::Q75) => true,
        (Quant::Q50, Quant::Q50) => true,
        (Quant::Q25, Quant::Q25) => true,
        (Quant::Q { q: x }, Quant::Q { q: y }) => *x == *y,
        _ => false,
    }
}

/// The percentage that a named part stands for.
pub open spec fn named_percent<F: Number>(q: Quant<F>) -> Option<F> {
    match q {
        Quant::Q25 => Some(num::lit(25)),
        Quant::Q50 => Some(num::lit(50)),
        Quant::Q75 => Some(num::lit(75)),
        Quant::Q100 => Some(num::lit(100)),
        Quant::Q { .. } => None,
    }
}

/// The named part that a percentage stands for.
pub open spec fn percent_name<F: Number>(x: F) -> Option<Quant<F>> {
    if num::equal(x, num::lit(25)) {
        Some(Quant::Q25)
    } else if num::equal(x, num::lit(50)) {
        Some(Quant::Q50)
    } else if num::equal(x, num::lit(75)) {
        Some(Quant::Q75)
    } else if num::equal(x, num::lit(100)) {
        Some(Quant::Q100)
    } else {
        None
    }
}

/// The part to trade, as it is chosen: by name or by percentage.
#[derive(Debug, Clone, Copy)]
pub struct Choice<F> {
    pub quant: Quant<F>,
    pub quant_selector: Quant<F>,
    pub last_quant: Quant<F>,
    pub scalar: F,
}

impl<F: Number> Choice<F> {
    /// A part that was newly chosen by name counts, and sets the percentage.
    /// Otherwise the percentage counts: one that has a name becomes that name,
    /// any other one is taken as it is, and zero changes nothing.
    pub open spec fn chosen(self) -> Self {
        if !same_quant(self.quant_selector, self.last_quant) {
            Choice {
                quant: self.quant_selector,
                last_quant: self.quant_selector,
                scalar: match named_percent(self.quant_selector) {
                    Some(p) => p,
                    None => self.scalar,
                },
                ..self
            }
        } else if num::equal(self.scalar, num::lit(0)) {
            self
        } else {
            match percent_name(self.scalar) {
                Some(q) => Choice {
                    quant: q,
                    quant_selector: q,
                    last_quant: q,
                    scalar: named_percent(q)->0,
                },
                None => Choice {
                    quant: Quant::Q { q: self.scalar },
                    quant_selector: Quant::Q { q: self.scalar },
                    ..self
                },
            }
        }
    }

    /// Settles which part is to be traded.
    pub fn choose_part(self) -> (r: Self)
        requires
            num::lawful::<F>(),
        ensures
            r == self.chosen(),
    {
        let mut c = self;
        let zero: F = num::whole(0);
        let p25: F = num::whole(25);
        let p50: F = num::whole(50);
        let p75: F = num::whole(75);
        let p100: F = num::whole(100);
        if !is_same_quant(&c.quant_selector, &c.last_quant) {
            c.quant = c.quant_selector;
            c.last_quant = c.quant_selector;
            match c.quant {
                Quant::Q25 => {
                    c.scalar = p25;
                },
                Quant::Q50 => {
                    c.scalar = p50;
                },
                Quant::Q75 => {
                    c.scalar = p75;
                },
                Quant::Q100 => {
                    c.scalar = p100;
                },
                Quant::Q { .. } => {},
            }
            c
        } else if c.scalar == zero {
            c
        } else if c.scalar == p25 {
            Choice {
                quant: Quant::Q25,
                quant_selector: Quant::Q25,
                last_quant: Quant::Q25,
                scalar: p25,
            }
        } else if c.scalar == p50 {
            Choice {
                quant: Quant::Q50,
                quant_selector: Quant::Q50,
                last_quant: Quant::Q50,
                scalar: p50,
            }
        } else if c.scalar == p75 {
            Choice {
                quant: Quant::Q75,
                quant_selector: Quant::Q75,
                last_quant: Quant::Q75,
                scalar: p75,
            }
        } else if c.scalar == p100 {
            Choice {
                quant: Quant::Q100,
                quant_selector: Quant::Q100,
                last_quant: Quant::Q100,
                scalar: p100,
            }
        } else {
            c.quant = Quant::Q { q: c.scalar };
            c.quant_selector = Quant::Q { q: c.scalar };
            c
        }
    }
}

/// What is free and what is locked of the two assets.
#[derive(Debug, Clone, Copy)]
pub struct Purse<F> {
    pub asset1: F,
    pub asset2: F,
    pub asset1_locked: F,
    pub asset2_locked: F,
}

/// The amounts that an order sets aside, out of `a1` of the first asset and `a2`
/// of the second: all of the one it is not paid with, and its part of the other.
pub open spec fn set_aside<F: Number, S: Copy>(o: Order<F, S>, a1: F, a2: F) -> (F, F) {
    let part = o.size().part();
    if o.buys() {
        (a1, num::product(a2, part))
    } else {
        (num::product(a1, part), a2)
    }
}

/// Each operation that [`set_aside`] stands for is defined.
pub open spec fn set_aside_defined<F: Number, S: Copy>(o: Order<F, S>, a1: F, a2: F) -> bool {
    let part = o.size().part();
    if o.buys() {
        num::multiplies(a2, part)
    } else {
        num::multiplies(a1, part)
    }
}

fn aside<F: Number, S: Copy>(o: &Order<F, S>, a1: F, a2: F) -> (r: (F, F))
    requires
        num::lawful::<F>(),
        *o != Order::<F, S>::Nothing,
        set_aside_defined(*o, a1, a2),
    ensures
        r == set_aside(*o, a1, a2),
{
    let part = o.get_qnt();
    if o.get_side() {
        (a1, a2 * part)
    } else {
        (a1 * part, a2)
    }
}

impl<F: Number> Purse<F> {
    /// What deleting an order frees again.
    pub open spec fn freed<S: Copy>(self, o: Order<F, S>) -> Self {
        let (u1, u2) = set_aside(o, self.asset1_locked, self.asset2_locked);
        Purse {
            asset1: num::sum(self.asset1, u1),
            asset2: num::sum(self.asset2, u2),
            asset1_locked: num::difference(self.asset1_locked, u1),
            asset2_locked: num::difference(self.asset2_locked, u2),
        }
    }

    /// Each operation that [`Purse::freed`] stands for is defined.
    pub open spec fn frees<S: Copy>(self, o: Order<F, S>) -> bool {
        let (u1, u2) = set_aside(o, self.asset1_locked, self.asset2_locked);
        &&& set_aside_defined(o, self.asset1_locked, self.asset2_locked)
        &&& num::sums(self.asset1, u1)
        &&& num::sums(self.asset2, u2)
        &&& num::subtracts(self.asset1_locked, u1)
        &&& num::subtracts(self.asset2_locked, u2)
    }

    /// Frees what an order had set aside.
    pub fn hist_del_order<S: Copy>(self, o: &Order<F, S>) -> (r: Self)
        requires
            num::lawful::<F>(),
            *o != Order::<F, S>::Nothing,
            self.frees(*o),
        ensures
            r == self.freed(*o),
    {
        let (u1, u2) = aside(o, self.asset1_locked, self.asset2_locked);
        Purse {
            asset1: self.asset1 + u1,
            asset2: self.asset2 + u2,
            asset1_locked: self.asset1_locked - u1,
            asset2_locked: self.asset2_locked - u2,
        }
    }

    /// The order can be taken: it has a price above zero, there is something of
    /// the asset that it is paid with, and what it leaves of the asset that it
    /// buys, or of the money that it sells for, is not below zero.
    pub open spec fn takes<S: Copy>(self, o: Order<F, S>) -> bool {
        let zero = num::lit::<F>(0);
        let (l1, l2) = set_aside(o, self.asset1, self.asset2);
        let price = match o {
            Order::Limit { price, .. } => price,
            Order::StopLimit { price, .. } => price,
            Order::StopMarket { price, .. } => price,
            _ => zero,
        };
        &&& !num::at_most(price, zero)
        &&& if o.buys() {
            &&& !num::equal(self.asset2, zero)
            &&& !num::less(num::difference(self.asset1, l1), zero)
        } else {
            &&& !num::equal(self.asset1, zero)
            &&& !num::less(num::difference(self.asset2, l2), zero)
        }
    }

    /// What is free and what is locked once the order is taken.
    pub open spec fn with_order<S: Copy>(self, o: Order<F, S>) -> Self {
        let (l1, l2) = set_aside(o, self.asset1, self.asset2);
        Purse {
            asset1: num::difference(self.asset1, l1),
            asset2: num::difference(self.asset2, l2),
            asset1_locked: l1,
            asset2_locked: l2,
        }
    }

    /// Each operation that [`Purse::with_order`] stands for is defined.
    pub open spec fn locks<S: Copy>(self, o: Order<F, S>) -> bool {
        let (l1, l2) = set_aside(o, self.asset1, self.asset2);
        &&& set_aside_defined(o, self.asset1, self.asset2)
        &&& num::subtracts(self.asset1, l1)
        &&& num::subtracts(self.asset2, l2)
    }

    /// What is free and what is locked once the order is taken; nothing where it
    /// cannot be.
    pub fn hist_validate_order<S: Copy>(self, o: &Order<F, S>) -> (r: Option<Self>)
        requires
            num::lawful::<F>(),
            *o != Order::<F, S>::Nothing,
            self.locks(*o),
        ensures
            r == (if self.takes(*o) {
                Some(self.with_order(*o))
            } else {
                None
            }),
    {
        let zero: F = num::whole(0);
        let price = o.get_price();
        if price <= zero {
            return None;
        }
        let buy = o.get_side();
        if buy {
            if self.asset2 == zero {
                return None;
            }
        } else {
            if self.asset1 == zero {
                return None;
            }
        }
        let (locked_a1, locked_a2) = aside(o, self.asset1, self.asset2);
        let a1 = self.asset1 - locked_a1;
        let a2 = self.asset2 - locked_a2;
        if buy {
            if a1 < zero {
                return None;
            }
        } else {
            if a2 < zero {
                return None;
            }
        }
        Some(
            Purse { asset1: a1, asset2: a2, asset1_locked: locked_a1, asset2_locked: locked_a2 },
        )
    }
}

/// A market order has no price, so that it is never taken over candles of the
/// past.
pub proof fn market_order_is_not_taken<F: Number, S: Copy>(
    purse: Purse<F>,
    buy: bool,
    quant: Quant<F>,
)
    requires
        num::at_most(num::lit::<F>(0), num::lit(0)),
    ensures
        !purse.takes::<S>(Order::Market { buy, quant }),
{
}

/// Deleting an order moves amounts from what is locked to what is free: it neither
/// makes nor loses any.
pub proof fn deleting_keeps_the_amounts<F: Number, S: Copy>(purse: Purse<F>, o: Order<F, S>)
    requires
        num::exact::<F>(),
    ensures
        ({
            let after = purse.freed(o);
            &&& num::sum(after.asset1, after.asset1_locked) == num::sum(
                purse.asset1,
                purse.asset1_locked,
            )
            &&& num::sum(after.asset2, after.asset2_locked) == num::sum(
                purse.asset2,
                purse.asset2_locked,
            )
        }),
{
    let (u1, u2) = set_aside(o, purse.asset1_locked, purse.asset2_locked);
    num::moving_keeps_the_sum(purse.asset1_locked, purse.asset1, u1);
    num::moving_keeps_the_sum(purse.asset2_locked, purse.asset2, u2);
}

/// Placing an order moves amounts from what is free to what is locked: it neither
/// makes nor loses any.
pub proof fn placing_keeps_the_amounts<F: Number, S: Copy>(purse: Purse<F>, o: Order<F, S>)
    requires
        num::exact::<F>(),
    ensures
        ({
            let after = purse.with_order(o);
            &&& num::sum(after.asset1, after.asset1_locked) == purse.asset1
            &&& num::sum(after.asset2, after.asset2_locked) == purse.asset2
        }),
{
}

/// Deleting an order over all that is held undoes placing it.
pub proof fn deleting_undoes_placing<F: Number, S: Copy>(purse: Purse<F>, o: Order<F, S>)
    requires
        num::exact::<F>(),
        o.size().part() == num::lit::<F>(1),
    ensures
        purse.with_order(o).freed(o) == (Purse {
            asset1: purse.asset1,
            asset2: purse.asset2,
            asset1_locked: num::lit::<F>(0),
            asset2_locked: num::lit::<F>(0),
        }),
{
    let zero = num::lit::<F>(0);
    assert(num::difference(purse.asset1, purse.asset1) == zero);
    assert(num::difference(purse.asset2, purse.asset2) == zero);
    assert(num::sum(zero, purse.asset1) == num::sum(purse.asset1, zero));
    assert(num::sum(zero, purse.asset2) == num::sum(purse.asset2, zero));
}

/// Canceling an order right after it was added under a number of its own leaves
/// the orders as they were.
pub proof fn cancel_undoes_add<F, S>(
    orders: Map<u64, (Order<F, S>, bool)>,
    id: u64,
    o: Order<F, S>,
)
    requires
        !orders.dom().contains(id),
    ensures
        orders.insert(id, (o, true)).remove(id) == orders,
{
}

/// The order of the same kind as `kind`, made anew.
pub open spec fn order_like<F, S>(
    kind: Order<F, S>,
    before: Order<F, S>,
    buy: bool,
    quant: Quant<F>,
    price: F,
    stop_market_price: F,
    stop_price: S,
) -> Order<F, S> {
    match kind {
        Order::Nothing => before,
        Order::Market { .. } => Order::Market { buy, quant },
        Order::Limit { .. } => Order::Limit {
            buy,
            quant,
            price,
            limit_status: LimitStatus::Untouched,
        },
        Order::StopLimit { .. } => Order::StopLimit {
            buy,
            quant,
            price,
            limit_status: LimitStatus::Untouched,
            stop_price,
            stop_status: StopStatus::Untouched,
        },
        Order::StopMarket { .. } => Order::StopMarket {
            buy,
            quant,
            price: stop_market_price,
            stop_status: StopStatus::Untouched,
        },
    }
}

fn make_like<F: Copy, S: Copy>(
    kind: &Order<F, S>,
    before: Order<F, S>,
    buy: bool,
    quant: Quant<F>,
    price: F,
    stop_market_price: F,
    stop_price: S,
) -> (r: Order<F, S>)
    ensures
        r == order_like(*kind, before, buy, quant, price, stop_market_price, stop_price),
{
    match kind {
        Order::Nothing => before,
        Order::Market { .. } => Order::Market { buy, quant },
        Order::Limit { .. } => Order::Limit {
            buy,
            quant,
            price,
            limit_status: LimitStatus::Untouched,
        },
        Order::StopLimit { .. } => Order::StopLimit {
            buy,
            quant,
            price,
            limit_status: LimitStatus::Untouched,
            stop_price,
            stop_status: StopStatus::Untouched,
        },
        Order::StopMarket { .. } => Order::StopMarket {
            buy,
            quant,
            price: stop_market_price,
            stop_status: StopStatus::Untouched,
        },
    }
}

/// The orders placed by hand, and the order that is being made.
#[derive(Debug)]
pub struct ManualOrders<F, S> {
    pub order_set: bool,
    pub last_slice_time: Stamp,
    pub single_order_mode: bool,
    pub so_mode: Option<SingleOrderMode<F, S>>,
    pub current_symbol: String,
    pub choice: Choice<F>,
    pub order: Order<F, S>,
    pub new_order: Order<F, S>,
    pub buy: bool,
    pub price_string: String,
    pub stop_price_string: String,
    pub orders: LiveOrders<F, S>,
    pub purse: Purse<F>,
    pub last_id: u64,
    pub asset1_name: String,
    pub asset2_name: String,
    pub price: F,
    pub stop_price: F,
}

/// One line of the table of orders: the number, the part in percent, the price,
/// the kind and the side.
#[derive(Debug)]
pub struct OrderRow<F> {
    pub id: u64,
    pub percent: F,
    pub price: F,
    pub kind: String,
    pub side: String,
}

/// The orders of the first `n` entries that are active, or those that are not.
pub open spec fn orders_where<F, S>(
    entries: Seq<(u64, (Order<F, S>, bool))>,
    active: bool,
    n: int,
) -> Seq<(u64, Order<F, S>)>
    decreases n,
{
    if n <= 0 {
        Seq::empty()
    } else {
        let e = entries[n - 1];
        let before = orders_where(entries, active, n - 1);
        if e.1.1 == active {
            before.push((e.0, e.1.0))
        } else {
            before
        }
    }
}

/// The orders that are active, or those that are not, in their order.
pub fn select_orders<F: Copy, S: Copy>(orders: &LiveOrders<F, S>, active: bool) -> (r: Vec<
    (u64, Order<F, S>),
>)
    ensures
        r@ == orders_where(orders.listed(), active, orders.listed().len() as int),
{
    let mut out: Vec<(u64, Order<F, S>)> = Vec::new();
    let mut i: usize = 0;
    assert(out@ =~= orders_where(orders.listed(), active, 0));
    while i < orders.len()
        invariant
            i <= orders.listed().len(),
            out@ == orders_where(orders.listed(), active, i as int),
        decreases orders.listed().len() - i,
    {
        let (id, (order, is_active)) = *orders.entry(i);
        if is_active == active {
            out.push((id, order));
        }
        i += 1;
    }
    out
}

/// `m` with the first `n` of `list` put in, active or not.
pub open spec fn with_list<F, S>(
    m: Map<u64, (Order<F, S>, bool)>,
    list: Seq<(u64, Order<F, S>)>,
    active: bool,
    n: int,
) -> Map<u64, (Order<F, S>, bool)>
    decreases n,
{
    if n <= 0 {
        m
    } else {
        with_list(m, list, active, n - 1).insert(list[n - 1].0, (list[n - 1].1, active))
    }
}

fn put_list<F: Copy, S: Copy>(
    orders: &mut LiveOrders<F, S>,
    list: &Vec<(u64, Order<F, S>)>,
    active: bool,
)
    requires
        old(orders).wf(),
    ensures
        final(orders).wf(),
        final(orders)@ == with_list(old(orders)@, list@, active, list@.len() as int),
{
    let ghost start = orders@;
    let mut i: usize = 0;
    while i < list.len()
        invariant
            orders.wf(),
            i <= list@.len(),
            orders@ == with_list(start, list@, active, i as int),
        decreases list@.len() - i,
    {
        let (id, order) = list[i];
        let _ = orders.insert(id, (order, active));
        i += 1;
    }
}

/// What is entered in one round of the window of orders.
#[derive(Debug)]
pub struct Entry<F> {
    pub single_order_mode: bool,
    /// The part that is chosen by name.
    pub quant_selector: Quant<F>,
    /// The percentage, where it was moved.
    pub scalar: Option<F>,
    pub buy: bool,
    /// The kind of order, where another one was picked.
    pub kind: Option<BasicOrderType>,
    pub price_string: String,
    pub stop_price_string: String,
    /// Add the order.
    pub add: bool,
    /// Cancel all orders.
    pub cancel_all: bool,
    /// Cancel the order of this number.
    pub cancel: Option<u64>,
}

/// An untouched order of this kind.
pub open spec fn order_of_kind<F, S>(
    kind: BasicOrderType,
    buy: bool,
    quant: Quant<F>,
    price: F,
    stop_price: S,
) -> Order<F, S> {
    match kind {
        BasicOrderType::Market => Order::Market { buy, quant },
        BasicOrderType::Limit => Order::Limit {
            buy,
            quant,
            price,
            limit_status: LimitStatus::Untouched,
        },
        BasicOrderType::StopLimit => Order::StopLimit {
            buy,
            quant,
            price,
            limit_status: LimitStatus::Untouched,
            stop_price,
            stop_status: StopStatus::Untouched,
        },
        BasicOrderType::StopMarket => Order::StopMarket {
            buy,
            quant,
            price,
            stop_status: StopStatus::Untouched,
        },
    }
}

/// The window of orders, its texts as their characters, and the messages sent.
pub struct Desk<F, S> {
    pub single_order_mode: bool,
    pub choice: Choice<F>,
    pub order: Order<F, S>,
    pub new_order: Order<F, S>,
    pub buy: bool,
    pub price: F,
    pub stop_price: F,
    pub price_text: Seq<char>,
    pub stop_price_text: Seq<char>,
    pub orders: Map<u64, (Order<F, S>, bool)>,
    pub purse: Purse<F>,
    pub last_id: u64,
    pub order_set: bool,
    pub symbol: String,
    pub sent: Seq<ClientInstruct<F, S>>,
}

impl<F: Number + From<S>, S: Number> Desk<F, S> {
    /// The part was chosen by name.
    pub open spec fn part_chosen(self, e: Entry<F>) -> Self {
        Desk {
            single_order_mode: e.single_order_mode,
            choice: (Choice { quant_selector: e.quant_selector, ..self.choice }).chosen(),
            ..self
        }
    }

    /// The percentage, the side, the kind and the prices were entered. A kind that
    /// was picked starts from the part and the prices that are there.
    pub open spec fn entered<N: Fn(F) -> S>(self, e: Entry<F>, narrow: N) -> Self {
        let choice = match e.scalar {
            Some(x) => Choice { scalar: x, ..self.choice },
            None => self.choice,
        };
        Desk {
            choice,
            buy: e.buy,
            new_order: match e.kind {
                Some(k) => order_of_kind(
                    k,
                    e.buy,
                    choice.quant,
                    self.price,
                    reader::result::<F, S, N>(narrow, self.stop_price),
                ),
                None => self.new_order,
            },
            price_text: e.price_string@,
            stop_price_text: e.stop_price_string@,
            ..self
        }
    }

    /// The order is made anew, of the kind that was chosen.
    pub open spec fn remade<N: Fn(F) -> S>(self, narrow: N) -> Self {
        Desk {
            order: order_like(
                self.new_order,
                self.order,
                self.buy,
                self.choice.quant,
                self.price,
                self.price,
                reader::result::<F, S, N>(narrow, self.stop_price),
            ),
            ..self
        }
    }

    /// The order to add, at the typed prices. A stop market order is at the stop
    /// price.
    pub open spec fn to_add<R: Fn(&str) -> Option<F>, N: Fn(F) -> S>(
        self,
        read: R,
        narrow: N,
    ) -> Order<F, S> {
        let sp = typed::<F, R>(self.stop_price_text, read);
        order_like(
            self.new_order,
            self.order,
            self.buy,
            self.choice.quant,
            typed::<F, R>(self.price_text, read),
            sp,
            reader::result::<F, S, N>(narrow, sp),
        )
    }

    /// Each operation that adding the order takes is defined.
    pub open spec fn adds<R: Fn(&str) -> Option<F>, N: Fn(F) -> S>(
        self,
        live: Option<String>,
        read: R,
        narrow: N,
    ) -> bool {
        live is None ==> {
            let o = self.to_add::<R, N>(read, narrow);
            &&& o != Order::<F, S>::Nothing
            &&& self.purse.locks(o)
            &&& self.purse.takes(o) ==> self.last_id < u64::MAX
        }
    }

    /// The order was added: live it is sent; over candles of the past it stands
    /// active under the next number, where it can be taken.
    pub open spec fn added<R: Fn(&str) -> Option<F>, N: Fn(F) -> S>(
        self,
        live: Option<String>,
        read: R,
        narrow: N,
    ) -> Self {
        let o = self.to_add::<R, N>(read, narrow);
        let read_in = Desk {
            order: o,
            price: typed::<F, R>(self.price_text, read),
            stop_price: typed::<F, R>(self.stop_price_text, read),
            price_text: kept::<F, R>(self.price_text, read),
            stop_price_text: kept::<F, R>(self.stop_price_text, read),
            ..self
        };
        match live {
            Some(symbol) => Desk {
                sent: self.sent.push(
                    ClientInstruct::SendBinInstructs(BinInstructs::PlaceOrder { symbol, o }),
                ),
                ..read_in
            },
            None => if self.purse.takes(o) {
                let id = (self.last_id + 1) as u64;
                Desk {
                    purse: self.purse.with_order(o),
                    orders: self.orders.insert(id, (o, true)),
                    last_id: id,
                    order_set: true,
                    ..read_in
                }
            } else {
                read_in
            },
        }
    }

    /// All orders were canceled: where they are live that is sent.
    pub open spec fn all_canceled(self, live: Option<String>) -> Self {
        match live {
            Some(symbol) => Desk {
                sent: self.sent.push(
                    ClientInstruct::SendBinInstructs(BinInstructs::CancelAllOrders { symbol }),
                ),
                ..self
            },
            None => self,
        }
    }

    /// The open orders and the asset on show are those of the exchange.
    pub open spec fn synced(self, live: Option<LiveInfo<F, S>>) -> Self {
        match live {
            Some(l) => Desk {
                orders: l.live_orders@,
                symbol: l.live_asset_symbol_changed.1,
                ..self
            },
            None => self,
        }
    }

    /// Each operation that canceling the order of this number takes is defined.
    pub open spec fn cancels(self, id: u64, live: bool) -> bool {
        !live && self.orders.dom().contains(id) ==> {
            let o = self.orders[id].0;
            o != Order::<F, S>::Nothing && self.purse.frees(o)
        }
    }

    /// The order of this number was canceled: live that is sent; over candles of
    /// the past the order is gone and what it had set aside is free again.
    pub open spec fn canceled(self, id: u64, live: bool) -> Self {
        if !self.orders.dom().contains(id) {
            self
        } else if live {
            Desk {
                sent: self.sent.push(
                    ClientInstruct::SendBinInstructs(
                        BinInstructs::CancelOrder {
                            id,
                            symbol: self.symbol,
                            o: self.orders[id].0,
                        },
                    ),
                ),
                ..self
            }
        } else {
            Desk {
                orders: self.orders.remove(id),
                purse: self.purse.freed(self.orders[id].0),
                order_set: false,
                ..self
            }
        }
    }

    /// The first half of a round: what was chosen and entered, and the order that
    /// is made of it.
    pub open spec fn prepared<N: Fn(F) -> S>(self, e: Entry<F>, narrow: N) -> Self {
        self.part_chosen(e).entered(e, narrow).remade(narrow)
    }

    /// The order was added, where that was asked for.
    pub open spec fn maybe_added<R: Fn(&str) -> Option<F>, N: Fn(F) -> S>(
        self,
        e: Entry<F>,
        live: Option<String>,
        read: R,
        narrow: N,
    ) -> Self {
        if e.add {
            self.added::<R, N>(live, read, narrow)
        } else {
            self
        }
    }

    /// The second half of a round up to the table of orders: what was added, what
    /// was canceled altogether, and what the exchange has.
    pub open spec fn placed<R: Fn(&str) -> Option<F>, N: Fn(F) -> S>(
        self,
        e: Entry<F>,
        live: Option<LiveInfo<F, S>>,
        read: R,
        narrow: N,
    ) -> Self {
        let s = live_symbol_of(live);
        let d = self.maybe_added::<R, N>(e, s, read, narrow);
        let d = if e.cancel_all {
            d.all_canceled(s)
        } else {
            d
        };
        d.synced(live)
    }

    /// What one round comes to.
    pub open spec fn round<R: Fn(&str) -> Option<F>, N: Fn(F) -> S>(
        self,
        e: Entry<F>,
        live: Option<LiveInfo<F, S>>,
        read: R,
        narrow: N,
    ) -> Self {
        let d = self.prepared::<N>(e, narrow).placed::<R, N>(e, live, read, narrow);
        match e.cancel {
            Some(id) => d.canceled(id, live is Some),
            None => d,
        }
    }

    /// Each operation that the round takes is defined.
    pub open spec fn round_defined<R: Fn(&str) -> Option<F>, N: Fn(F) -> S>(
        self,
        e: Entry<F>,
        live: Option<LiveInfo<F, S>>,
        read: R,
        narrow: N,
    ) -> bool {
        let d = self.prepared::<N>(e, narrow);
        &&& e.add ==> d.adds::<R, N>(live_symbol_of(live), read, narrow)
        &&& e.cancel matches Some(id) ==> d.placed::<R, N>(e, live, read, narrow).cancels(
            id,
            live is Some,
        )
    }
}

/// What is known of the exchange.
pub open spec fn live_of<F, S>(live_info: Option<&LiveInfo<F, S>>) -> Option<LiveInfo<F, S>> {
    match live_info {
        Some(l) => Some(*l),
        None => None,
    }
}

/// The asset that the exchange has on show.
pub open spec fn live_symbol_of<F, S>(live: Option<LiveInfo<F, S>>) -> Option<String> {
    match live {
        Some(l) => Some(l.live_asset_symbol_changed.1),
        None => None,
    }
}

/// The price that was typed, and zero where it is no number.
pub open spec fn typed<F: Number, N: Fn(&str) -> Option<F>>(text: Seq<char>, read: N) -> F {
    match reader::number::<F, N>(read, text) {
        Some(p) => p,
        None => num::lit(0),
    }
}

/// The text that stays once it was read as a price.
pub open spec fn kept<F: Number, N: Fn(&str) -> Option<F>>(text: Seq<char>, read: N) -> Seq<char> {
    if reader::number::<F, N>(read, text) is Some {
        text
    } else {
        "0.0"@
    }
}

/// Over candles of the past a round of the window sends nothing.
pub proof fn past_round_sends_nothing<
    F: Number + From<S>,
    S: Number,
    R: Fn(&str) -> Option<F>,
    N: Fn(F) -> S,
>(d: Desk<F, S>, e: Entry<F>, read: R, narrow: N)
    ensures
        d.round::<R, N>(e, None, read, narrow).sent == d.sent,
{
}

/// Live a round of the window shows the orders of the exchange, sets nothing
/// aside, and sends what it was asked to: adding, canceling all, and canceling
/// one.
pub proof fn live_round_shows_the_exchange<
    F: Number + From<S>,
    S: Number,
    R: Fn(&str) -> Option<F>,
    N: Fn(F) -> S,
>(d: Desk<F, S>, e: Entry<F>, live: LiveInfo<F, S>, read: R, narrow: N)
    ensures
        ({
            let after = d.round::<R, N>(e, Some(live), read, narrow);
            &&& after.orders == live.live_orders@
            &&& after.purse == d.purse
            &&& after.symbol == live.live_asset_symbol_changed.1
            &&& after.sent.len() <= d.sent.len() + 3
            &&& !e.add && !e.cancel_all && e.cancel is None ==> after.sent == d.sent
        }),
{
}

/// The parts of `amount` that the first `n` orders on one side trade, added up.
pub open spec fn parts_of<F: Number, S: Copy>(
    list: Seq<(u64, Order<F, S>)>,
    buys: bool,
    amount: F,
    n: int,
) -> F
    decreases n,
{
    if n <= 0 {
        num::lit(0)
    } else {
        let o = list[n - 1].1;
        let before = parts_of(list, buys, amount, n - 1);
        if o.buys() == buys {
            num::sum(before, num::product(o.size().part(), amount))
        } else {
            before
        }
    }
}

/// Each operation that [`parts_of`] stands for is defined, for orders that are
/// some.
pub open spec fn parts_defined<F: Number, S: Copy>(
    list: Seq<(u64, Order<F, S>)>,
    buys: bool,
    amount: F,
) -> bool {
    forall|i: int|
        0 <= i < list.len() ==> {
            let o = (#[trigger] list[i]).1;
            &&& o != Order::<F, S>::Nothing
            &&& o.buys() == buys ==> num::multiplies(o.size().part(), amount) && num::sums(
                parts_of(list, buys, amount, i),
                num::product(o.size().part(), amount),
            )
        }
}

fn add_parts<F: Number, S: Copy>(list: &Vec<(u64, Order<F, S>)>, buys: bool, amount: F) -> (r: F)
    requires
        num::lawful::<F>(),
        parts_defined(list@, buys, amount),
    ensures
        r == parts_of(list@, buys, amount, list@.len() as int),
{
    let mut total: F = num::whole(0);
    let mut i: usize = 0;
    while i < list.len()
        invariant
            num::lawful::<F>(),
            parts_defined(list@, buys, amount),
            i <= list@.len(),
            total == parts_of(list@, buys, amount, i as int),
        decreases list@.len() - i,
    {
        let (_, o) = list[i];
        assert(list@[i as int].1 == o);
        if o.get_side() == buys {
            total = total + o.get_qnt() * amount;
        }
        i += 1;
    }
    total
}

impl<F: Number + From<S>, S: Number> ManualOrders<F, S> {
    /// Each number has one order.
    pub open spec fn wf(&self) -> bool {
        self.orders.wf()
    }

    /// There are no orders, and a market order that buys is being made.
    pub open spec fn fresh(&self) -> bool {
        &&& self.wf()
        &&& !self.order_set
        &&& self.last_slice_time.ms == 0
        &&& !self.single_order_mode
        &&& self.so_mode matches Some(m) && m.fresh()
        &&& self.current_symbol@ == Seq::<char>::empty()
        &&& self.choice == (Choice {
            quant: Quant::Q100,
            quant_selector: Quant::Q100,
            last_quant: Quant::Q100,
            scalar: num::lit::<F>(100),
        })
        &&& self.order == (Order::<F, S>::Market { buy: true, quant: Quant::Q100 })
        &&& self.new_order == self.order
        &&& self.buy
        &&& self.price_string@ == "0.0"@
        &&& self.stop_price_string@ == "0.0"@
        &&& self.orders@ == Map::<u64, (Order<F, S>, bool)>::empty()
        &&& self.purse == (Purse {
            asset1: num::lit::<F>(0),
            asset2: num::lit::<F>(0),
            asset1_locked: num::lit::<F>(0),
            asset2_locked: num::lit::<F>(0),
        })
        &&& self.last_id == 0
        &&& self.asset1_name@ == Seq::<char>::empty()
        &&& self.asset2_name@ == Seq::<char>::empty()
        &&& self.price == num::lit::<F>(0)
        &&& self.stop_price == num::lit::<F>(0)
    }

    /// No orders, and a market order that buys being made.
    pub fn new() -> (r: Self)
        requires
            num::lawful::<F>(),
            num::lawful::<S>(),
        ensures
            r.fresh(),
    {
        let zero: F = num::whole(0);
        ManualOrders {
            order_set: false,
            last_slice_time: Stamp::epoch(),
            single_order_mode: false,
            so_mode: Some(SingleOrderMode::new()),
            current_symbol: String::new(),
            choice: Choice {
                quant: Quant::Q100,
                quant_selector: Quant::Q100,
                last_quant: Quant::Q100,
                scalar: num::whole(100),
            },
            order: Order::Market { buy: true, quant: Quant::Q100 },
            new_order: Order::Market { buy: true, quant: Quant::Q100 },
            buy: true,
            price_string: "0.0".to_owned(),
            stop_price_string: "0.0".to_owned(),
            orders: KeyMap::new(),
            purse: Purse { asset1: zero, asset2: zero, asset1_locked: zero, asset2_locked: zero },
            last_id: 0,
            asset1_name: String::new(),
            asset2_name: String::new(),
            price: zero,
            stop_price: zero,
        }
    }

    /// While single order mode is chosen, its hotkeys are on.
    pub fn enter_single_mode(&mut self)
        ensures
            (match old(self).so_mode {
                Some(m) => if old(self).single_order_mode {
                    final(self).so_mode == Some(SingleOrderMode { hk_active: true, ..m })
                } else {
                    final(self).so_mode == old(self).so_mode
                },
                None => final(self).so_mode is None,
            }),
            *final(self) == (ManualOrders { so_mode: final(self).so_mode, ..*old(self) }),
    {
        if self.single_order_mode {
            if let Some(mut m) = self.so_mode.take() {
                m.hk_active = true;
                self.so_mode = Some(m);
            }
        }
    }

    /// Settles which part is to be traded.
    pub fn choose_part(&mut self)
        requires
            num::lawful::<F>(),
        ensures
            *final(self) == (ManualOrders { choice: old(self).choice.chosen(), ..*old(self) }),
    {
        self.choice = self.choice.choose_part();
    }

    /// Makes the order anew, of the kind that was chosen.
    pub fn remake_order<N: Fn(F) -> S>(&mut self, narrow: &N)
        requires
            reader::pure::<F, S, N>(*narrow),
        ensures
            *final(self) == (ManualOrders {
                order: order_like(
                    old(self).new_order,
                    old(self).order,
                    old(self).buy,
                    old(self).choice.quant,
                    old(self).price,
                    old(self).price,
                    reader::result::<F, S, N>(*narrow, old(self).stop_price),
                ),
                ..*old(self)
            }),
    {
        let stop = reader::apply(narrow, self.stop_price);
        self.order =
        make_like(
            &self.new_order,
            self.order,
            self.buy,
            self.choice.quant,
            self.price,
            self.price,
            stop,
        );
    }

    /// The order that adding makes: of the kind that was chosen, at the typed
    /// prices. A stop market order is at the stop price.
    pub open spec fn order_to_add<R: Fn(&str) -> Option<F>, N: Fn(F) -> S>(
        &self,
        read: R,
        narrow: N,
    ) -> Order<F, S> {
        let p = typed::<F, R>(self.price_string@, read);
        let sp = typed::<F, R>(self.stop_price_string@, read);
        order_like(
            self.new_order,
            self.order,
            self.buy,
            self.choice.quant,
            p,
            sp,
            reader::result::<F, S, N>(narrow, sp),
        )
    }

    /// Reads the typed prices and makes the order to add.
    fn make_order<R: Fn(&str) -> Option<F>, N: Fn(F) -> S>(&mut self, read: &R, narrow: &N)
        requires
            num::lawful::<F>(),
            reader::steady::<F, R>(*read),
            reader::pure::<F, S, N>(*narrow),
        ensures
            final(self).order == old(self).order_to_add::<R, N>(*read, *narrow),
            final(self).price == typed::<F, R>(old(self).price_string@, *read),
            final(self).stop_price == typed::<F, R>(old(self).stop_price_string@, *read),
            final(self).price_string@ == kept::<F, R>(old(self).price_string@, *read),
            final(self).stop_price_string@ == kept::<F, R>(
                old(self).stop_price_string@,
                *read,
            ),
            *final(self) == (ManualOrders {
                order: final(self).order,
                price: final(self).price,
                stop_price: final(self).stop_price,
                price_string: final(self).price_string,
                stop_price_string: final(self).stop_price_string,
                ..*old(self)
            }),
    {
        self.price =
        match reader::read_number(read, self.price_string.as_str()) {
            Some(p) => p,
            None => {
                self.price_string = "0.0".to_owned();
                num::whole(0)
            },
        };
        self.stop_price =
        match reader::read_number(read, self.stop_price_string.as_str()) {
            Some(p) => p,
            None => {
                self.stop_price_string = "0.0".to_owned();
                num::whole(0)
            },
        };
        let stop = reader::apply(narrow, self.stop_price);
        self.order =
        make_like(
            &self.new_order,
            self.order,
            self.buy,
            self.choice.quant,
            self.price,
            self.stop_price,
            stop,
        );
    }

    /// The order was to be added. Live it goes to the exchange, on the asset
    /// `live_symbol`. Over candles of the past it is taken where it can be: what
    /// it needs is set aside, and it stands active under the next number.
    pub fn on_add<R: Fn(&str) -> Option<F>, N: Fn(F) -> S>(
        &mut self,
        live_symbol: Option<&String>,
        read: &R,
        narrow: &N,
    ) -> (r: Option<ClientInstruct<F, S>>)
        requires
            num::lawful::<F>(),
            reader::steady::<F, R>(*read),
            reader::pure::<F, S, N>(*narrow),
            old(self).wf(),
            live_symbol is None ==> {
                let o = old(self).order_to_add::<R, N>(*read, *narrow);
                &&& o != Order::<F, S>::Nothing
                &&& old(self).purse.locks(o)
                &&& old(self).purse.takes(o) ==> old(self).last_id < u64::MAX
            },
        ensures
            final(self).wf(),
            ({
                let o = old(self).order_to_add::<R, N>(*read, *narrow);
                let taken = live_symbol is None && old(self).purse.takes(o);
                &&& final(self).order == o
                &&& r == (match live_symbol {
                    Some(s) => Some(
                        ClientInstruct::SendBinInstructs(
                            BinInstructs::PlaceOrder { symbol: *s, o },
                        ),
                    ),
                    None => None,
                })
                &&& final(self).purse == (if taken {
                    old(self).purse.with_order(o)
                } else {
                    old(self).purse
                })
                &&& final(self).orders@ == (if taken {
                    old(self).orders@.insert((old(self).last_id + 1) as u64, (o, true))
                } else {
                    old(self).orders@
                })
                &&& final(self).last_id == (if taken {
                    old(self).last_id + 1
                } else {
                    old(self).last_id as int
                })
                &&& final(self).order_set == (taken || old(self).order_set)
            }),
            final(self).price == typed::<F, R>(old(self).price_string@, *read),
            final(self).stop_price == typed::<F, R>(old(self).stop_price_string@, *read),
            final(self).price_string@ == kept::<F, R>(old(self).price_string@, *read),
            final(self).stop_price_string@ == kept::<F, R>(
                old(self).stop_price_string@,
                *read,
            ),
            *final(self) == (ManualOrders {
                order: final(self).order,
                price: final(self).price,
                stop_price: final(self).stop_price,
                price_string: final(self).price_string,
                stop_price_string: final(self).stop_price_string,
                purse: final(self).purse,
                orders: final(self).orders,
                last_id: final(self).last_id,
                order_set: final(self).order_set,
                ..*old(self)
            }),
    {
        self.make_order(read, narrow);
        let o = self.order;
        match live_symbol {
            Some(s) => Some(
                ClientInstruct::SendBinInstructs(
                    BinInstructs::PlaceOrder { symbol: s.clone(), o },
                ),
            ),
            None => {
                if let Some(purse) = self.purse.hist_validate_order(&o) {
                    self.purse = purse;
                    self.order_set = true;
                    self.last_id = self.last_id + 1;
                    let _ = self.orders.insert(self.last_id, (o, true));
                }
                None
            },
        }
    }

    /// All orders were to be canceled: a message, where they are live.
    pub fn on_cancel_all(live_symbol: Option<&String>) -> (r: Option<ClientInstruct<F, S>>)
        ensures
            r == (match live_symbol {
                Some(s) => Some(
                    ClientInstruct::<F, S>::SendBinInstructs(
                        BinInstructs::CancelAllOrders { symbol: *s },
                    ),
                ),
                None => None,
            }),
    {
        match live_symbol {
            Some(s) => Some(
                ClientInstruct::SendBinInstructs(
                    BinInstructs::CancelAllOrders { symbol: s.clone() },
                ),
            ),
            None => None,
        }
    }

    /// Takes the open orders and the asset on show over from the exchange.
    pub fn sync_live(&mut self, live_info: &LiveInfo<F, S>)
        requires
            live_info.wf(),
        ensures
            final(self).wf(),
            final(self).orders@ == live_info.live_orders@,
            *final(self) == (ManualOrders {
                orders: final(self).orders,
                current_symbol: live_info.live_asset_symbol_changed.1,
                ..*old(self)
            }),
    {
        self.orders = live_info.live_orders.duplicate();
        self.current_symbol = live_info.live_asset_symbol_changed.1.clone();
    }

    /// The order under the number `id` was to be canceled. Live that goes to the
    /// exchange. Over candles of the past the order is gone, and what it had set
    /// aside is free again.
    pub fn on_cancel(&mut self, id: u64, live: bool) -> (r: Option<ClientInstruct<F, S>>)
        requires
            num::lawful::<F>(),
            old(self).wf(),
            !live && old(self).orders@.dom().contains(id) ==> {
                let o = old(self).orders@[id].0;
                o != Order::<F, S>::Nothing && old(self).purse.frees(o)
            },
        ensures
            final(self).wf(),
            (if !old(self).orders@.dom().contains(id) {
                r is None && *final(self) == *old(self)
            } else if live {
                &&& r == Some(
                    ClientInstruct::<F, S>::SendBinInstructs(
                        BinInstructs::CancelOrder {
                            id,
                            symbol: old(self).current_symbol,
                            o: old(self).orders@[id].0,
                        },
                    ),
                )
                &&& *final(self) == *old(self)
            } else {
                &&& r is None
                &&& final(self).orders@ == old(self).orders@.remove(id)
                &&& *final(self) == (ManualOrders {
                    orders: final(self).orders,
                    purse: old(self).purse.freed(old(self).orders@[id].0),
                    order_set: false,
                    ..*old(self)
                })
            }),
    {
        let o = match self.orders.get(&id) {
            Some(e) => e.0,
            None => return None,
        };
        if live {
            Some(
                ClientInstruct::SendBinInstructs(
                    BinInstructs::CancelOrder { id, symbol: self.current_symbol.clone(), o },
                ),
            )
        } else {
            self.purse = self.purse.hist_del_order(&o);
            self.order_set = false;
            let _ = self.orders.remove(&id);
            None
        }
    }

    /// The window with these messages sent.
    pub open spec fn desk(&self, sent: Seq<ClientInstruct<F, S>>) -> Desk<F, S> {
        Desk {
            single_order_mode: self.single_order_mode,
            choice: self.choice,
            order: self.order,
            new_order: self.new_order,
            buy: self.buy,
            price: self.price,
            stop_price: self.stop_price,
            price_text: self.price_string@,
            stop_price_text: self.stop_price_string@,
            orders: self.orders@,
            purse: self.purse,
            last_id: self.last_id,
            order_set: self.order_set,
            symbol: self.current_symbol,
            sent,
        }
    }

    /// What no round changes is as in `before`; the hotkeys are on once single
    /// order mode is chosen.
    pub open spec fn beside(&self, before: &Self, single_order_mode: bool) -> bool {
        &&& self.last_slice_time == before.last_slice_time
        &&& self.asset1_name == before.asset1_name
        &&& self.asset2_name == before.asset2_name
        &&& match before.so_mode {
            Some(m) => self.so_mode == Some(
                SingleOrderMode { hk_active: m.hk_active || single_order_mode, ..m },
            ),
            None => self.so_mode is None,
        }
    }

    /// Another kind of order was picked.
    fn pick_kind<N: Fn(F) -> S>(&mut self, kind: BasicOrderType, narrow: &N)
        requires
            reader::pure::<F, S, N>(*narrow),
        ensures
            *final(self) == (ManualOrders {
                new_order: order_of_kind(
                    kind,
                    old(self).buy,
                    old(self).choice.quant,
                    old(self).price,
                    reader::result::<F, S, N>(*narrow, old(self).stop_price),
                ),
                ..*old(self)
            }),
    {
        let buy = self.buy;
        let quant = self.choice.quant;
        let price = self.price;
        let stop_price = reader::apply(narrow, self.stop_price);
        self.new_order =
        match kind {
            BasicOrderType::Market => Order::Market { buy, quant },
            BasicOrderType::Limit => Order::Limit {
                buy,
                quant,
                price,
                limit_status: LimitStatus::Untouched,
            },
            BasicOrderType::StopLimit => Order::StopLimit {
                buy,
                quant,
                price,
                limit_status: LimitStatus::Untouched,
                stop_price,
                stop_status: StopStatus::Untouched,
            },
            BasicOrderType::StopMarket => Order::StopMarket {
                buy,
                quant,
                price,
                stop_status: StopStatus::Untouched,
            },
        };
    }

    fn prepare<N: Fn(F) -> S>(&mut self, entry: &Entry<F>, narrow: &N)
        requires
            num::lawful::<F>(),
            reader::pure::<F, S, N>(*narrow),
            old(self).wf(),
        ensures
            final(self).wf(),
            final(self).desk(Seq::empty()) == old(self).desk(Seq::empty()).prepared::<N>(
                *entry,
                *narrow,
            ),
            final(self).beside(old(self), entry.single_order_mode),
    {
        self.single_order_mode = entry.single_order_mode;
        self.enter_single_mode();
        self.choice.quant_selector = entry.quant_selector;
        self.choose_part();
        if let Some(x) = entry.scalar {
            self.choice.scalar = x;
        }
        self.buy = entry.buy;
        if let Some(kind) = entry.kind {
            self.pick_kind(kind, narrow);
        }
        self.price_string = entry.price_string.clone();
        self.stop_price_string = entry.stop_price_string.clone();
        self.remake_order(narrow);
    }

    fn place<R: Fn(&str) -> Option<F>, N: Fn(F) -> S>(
        &mut self,
        entry: &Entry<F>,
        live_info: Option<&LiveInfo<F, S>>,
        read: &R,
        narrow: &N,
    ) -> (r: Vec<ClientInstruct<F, S>>)
        requires
            num::lawful::<F>(),
            reader::steady::<F, R>(*read),
            reader::pure::<F, S, N>(*narrow),
            old(self).wf(),
            live_info matches Some(l) ==> l.wf(),
            entry.add ==> old(self).desk(Seq::empty()).adds::<R, N>(
                live_symbol_of(live_of(live_info)),
                *read,
                *narrow,
            ),
        ensures
            final(self).wf(),
            final(self).desk(r@) == old(self).desk(Seq::empty()).placed::<R, N>(
                *entry,
                live_of(live_info),
                *read,
                *narrow,
            ),
            final(self).so_mode == old(self).so_mode,
            final(self).last_slice_time == old(self).last_slice_time,
            final(self).asset1_name == old(self).asset1_name,
            final(self).asset2_name == old(self).asset2_name,
    {
        let mut sent: Vec<ClientInstruct<F, S>> = Vec::new();
        let symbol: Option<&String> = match live_info {
            Some(l) => Some(&l.live_asset_symbol_changed.1),
            None => None,
        };
        assert(sent@ =~= Seq::empty());
        let ghost start = self.desk(Seq::empty());
        let ghost s = live_symbol_of(live_of(live_info));
        if entry.add {
            if let Some(m) = self.on_add(symbol, read, narrow) {
                sent.push(m);
            }
        }
        assert(self.desk(sent@).sent =~= start.maybe_added::<R, N>(*entry, s, *read, *narrow).sent);
        assert(self.desk(sent@) == start.maybe_added::<R, N>(*entry, s, *read, *narrow));
        if entry.cancel_all {
            if let Some(m) = Self::on_cancel_all(symbol) {
                sent.push(m);
            }
        }
        if let Some(l) = live_info {
            self.sync_live(l);
        }
        sent
    }

    /// One round of the window: what was entered makes the order anew; it is
    /// added where that was asked for, orders are canceled, and live the orders
    /// are those of the exchange. Hands out the messages to send.
    pub fn show_multiorder<R: Fn(&str) -> Option<F>, N: Fn(F) -> S>(
        &mut self,
        entry: &Entry<F>,
        live_info: Option<&LiveInfo<F, S>>,
        read: &R,
        narrow: &N,
    ) -> (r: Vec<ClientInstruct<F, S>>)
        requires
            num::lawful::<F>(),
            reader::steady::<F, R>(*read),
            reader::pure::<F, S, N>(*narrow),
            old(self).wf(),
            live_info matches Some(l) ==> l.wf(),
            old(self).desk(Seq::empty()).round_defined::<R, N>(
                *entry,
                live_of(live_info),
                *read,
                *narrow,
            ),
        ensures
            final(self).wf(),
            final(self).desk(r@) == old(self).desk(Seq::empty()).round::<R, N>(
                *entry,
                live_of(live_info),
                *read,
                *narrow,
            ),
            final(self).beside(old(self), entry.single_order_mode),
    {
        self.prepare(entry, narrow);
        let mut sent = self.place(entry, live_info, read, narrow);
        if let Some(id) = entry.cancel {
            let ghost d = self.desk(sent@);
            if let Some(m) = self.on_cancel(id, live_info.is_some()) {
                sent.push(m);
            }
            assert(self.desk(sent@) == d.canceled(id, live_info is Some));
        }
        sent
    }

    /// One round of single order mode on the orders of this window. Hands out the
    /// messages to send.
    pub fn show_singleorder<
        N: Fn(&str) -> Option<S>,
        R: Fn(i64) -> F,
        T: Fn(i64) -> S,
        W: Fn(F) -> S,
    >(&mut self, round: &Round<F>, read: &N, long: &R, short: &T, narrow: &W) -> (r: Vec<
        ClientInstruct<F, S>,
    >)
        requires
            num::lawful::<F>(),
            num::lawful::<S>(),
            num::widens::<S, F>(),
            reader::steady::<S, N>(*read),
            reader::pure::<i64, F, R>(*long),
            reader::pure::<i64, S, T>(*short),
            reader::pure::<F, S, W>(*narrow),
            old(self).wf(),
            old(self).so_mode matches Some(m) ==> {
                &&& m.order_id <= u64::MAX - 2
                &&& m.shapes::<N, R, T, W>(
                    old(self).current_symbol,
                    *round,
                    *read,
                    *long,
                    *short,
                    *narrow,
                )
            },
        ensures
            final(self).wf(),
            match old(self).so_mode {
                Some(m) => {
                    &&& final(self).so_mode matches Some(after) && after.hk_active == m.hk_active
                        && after.show_hotkey_hints == m.show_hotkey_hints && after.scene(
                        final(self).orders@,
                        r@,
                    ) == m.after_round::<N, R, T, W>(
                        old(self).orders@,
                        old(self).current_symbol,
                        *round,
                        *read,
                        *long,
                        *short,
                        *narrow,
                    )
                    &&& *final(self) == (ManualOrders {
                        so_mode: final(self).so_mode,
                        orders: final(self).orders,
                        ..*old(self)
                    })
                },
                None => r@.len() == 0 && *final(self) == *old(self),
            },
    {
        match self.so_mode.take() {
            Some(mut m) => {
                let symbol = self.current_symbol.clone();
                let sent = m.show(&mut self.orders, &symbol, round, read, long, short, narrow);
                self.so_mode = Some(m);
                sent
            },
            None => Vec::new(),
        }
    }

    /// The line of the table for an order.
    pub open spec fn is_row(e: (u64, (Order<F, S>, bool)), row: OrderRow<F>) -> bool {
        let o = e.1.0;
        &&& row.id == e.0
        &&& row.percent == num::product(o.size().part(), num::lit(100))
        &&& row.price == (match o {
            Order::Limit { price, .. } => price,
            Order::StopLimit { price, .. } => price,
            Order::StopMarket { price, .. } => price,
            _ => num::lit(0),
        })
        &&& row.kind@ == (match o {
            Order::Nothing => ""@,
            Order::Market { .. } => "Market"@,
            Order::Limit { .. } => "Limit"@,
            Order::StopLimit { .. } => "Stop Limit"@,
            Order::StopMarket { .. } => "Stop Market"@,
        })
        &&& row.side@ == (if o.buys() {
            "BUY"@
        } else {
            "SELL"@
        })
    }

    /// The table of orders.
    pub fn rows(&self) -> (r: Vec<OrderRow<F>>)
        requires
            num::lawful::<F>(),
            forall|i: int|
                0 <= i < self.orders.listed().len() ==> {
                    let o = (#[trigger] self.orders.listed()[i]).1.0;
                    o != Order::<F, S>::Nothing && num::multiplies(o.size().part(), num::lit(100))
                },
        ensures
            r@.len() == self.orders.listed().len(),
            forall|i: int|
                0 <= i < r@.len() ==> Self::is_row(self.orders.listed()[i], #[trigger] r@[i]),
    {
        let hundred: F = num::whole(100);
        let mut out: Vec<OrderRow<F>> = Vec::new();
        let mut i: usize = 0;
        while i < self.orders.len()
            invariant
                num::lawful::<F>(),
                hundred == num::lit::<F>(100),
                forall|i: int|
                    0 <= i < self.orders.listed().len() ==> {
                        let o = (#[trigger] self.orders.listed()[i]).1.0;
                        o != Order::<F, S>::Nothing && num::multiplies(
                            o.size().part(),
                            num::lit(100),
                        )
                    },
                i <= self.orders.listed().len(),
                out@.len() == i,
                forall|j: int|
                    0 <= j < i ==> Self::is_row(self.orders.listed()[j], #[trigger] out@[j]),
            decreases self.orders.listed().len() - i,
        {
            let (id, (order, _)) = *self.orders.entry(i);
            assert(self.orders.listed()[i as int].1.0 == order);
            out.push(
                OrderRow {
                    id,
                    percent: order.get_qnt() * hundred,
                    price: order.get_price(),
                    kind: order.to_str(),
                    side: order.get_side_str(),
                },
            );
            i += 1;
        }
        out
    }

    /// The window once it took over the amounts of a run over candles of the past,
    /// unless an order has set some aside, and the names of the pair.
    pub open spec fn synced_past(
        self,
        asset1: F,
        asset2: F,
        symbol_info: Option<&(String, String, String)>,
    ) -> Self {
        ManualOrders {
            purse: if self.order_set {
                self.purse
            } else {
                Purse { asset1, asset2, ..self.purse }
            },
            current_symbol: match symbol_info {
                Some(i) => i.0,
                None => self.current_symbol,
            },
            asset1_name: match symbol_info {
                Some(i) => i.1,
                None => self.asset1_name,
            },
            asset2_name: match symbol_info {
                Some(i) => i.2,
                None => self.asset2_name,
            },
            ..self
        }
    }

    /// Takes over the amounts of a run over candles of the past, unless an order
    /// has set some aside, and the names of the pair.
    pub fn sync_past(
        &mut self,
        asset1: F,
        asset2: F,
        symbol_info: Option<&(String, String, String)>,
    )
        ensures
            *final(self) == old(self).synced_past(asset1, asset2, symbol_info),
    {
        if !self.order_set {
            self.purse.asset1 = asset1;
            self.purse.asset2 = asset2;
        }
        if let Some(info) = symbol_info {
            self.current_symbol = info.0.clone();
            self.asset1_name = info.1.clone();
            self.asset2_name = info.2.clone();
        }
    }

    /// The orders that are to run over a slice of candles whose last one opened
    /// at `last_time`: the active ones. None where that slice has been run.
    pub fn orders_to_run(&self, last_time: Stamp) -> (r: Option<Vec<(u64, Order<F, S>)>>)
        ensures
            match r {
                Some(v) => {
                    &&& last_time != self.last_slice_time
                    &&& v@ == orders_where(
                        self.orders.listed(),
                        true,
                        self.orders.listed().len() as int,
                    )
                },
                None => last_time == self.last_slice_time,
            },
    {
        if self.last_slice_time == last_time {
            None
        } else {
            Some(select_orders(&self.orders, true))
        }
    }

    /// What is free and what is locked, with `a1` and `a2` held and the orders
    /// `remaining` still open.
    pub open spec fn purse_after<B: Fn(F) -> F>(
        remaining: Seq<(u64, Order<F, S>)>,
        a1: F,
        a2: F,
        abs: B,
    ) -> Purse<F> {
        let n = remaining.len() as int;
        let l1 = reader::result::<F, F, B>(abs, parts_of(remaining, false, a1, n));
        let l2 = reader::result::<F, F, B>(abs, parts_of(remaining, true, a2, n));
        Purse {
            asset1: num::difference(a1, l1),
            asset2: num::difference(a2, l2),
            asset1_locked: l1,
            asset2_locked: l2,
        }
    }

    /// The active orders have run over a slice whose last candle opened at
    /// `last_time`. `remaining` are those still open, `a1` and `a2` the amounts
    /// held then. Orders that were not active stay. `abs` drops a sign.
    pub fn after_run<B: Fn(F) -> F>(
        &mut self,
        remaining: &Vec<(u64, Order<F, S>)>,
        a1: F,
        a2: F,
        last_time: Stamp,
        abs: &B,
    )
        requires
            num::lawful::<F>(),
            reader::pure::<F, F, B>(*abs),
            parts_defined(remaining@, false, a1),
            parts_defined(remaining@, true, a2),
            ({
                let p = Self::purse_after::<B>(remaining@, a1, a2, *abs);
                num::subtracts(a1, p.asset1_locked) && num::subtracts(a2, p.asset2_locked)
            }),
        ensures
            final(self).wf(),
            ({
                let kept = orders_where(
                    old(self).orders.listed(),
                    false,
                    old(self).orders.listed().len() as int,
                );
                final(self).orders@ == with_list(
                    with_list(Map::empty(), kept, false, kept.len() as int),
                    remaining@,
                    true,
                    remaining@.len() as int,
                )
            }),
            *final(self) == (ManualOrders {
                orders: final(self).orders,
                purse: Self::purse_after::<B>(remaining@, a1, a2, *abs),
                last_slice_time: last_time,
                ..*old(self)
            }),
    {
        let inactive = select_orders(&self.orders, false);
        let mut orders: LiveOrders<F, S> = KeyMap::new();
        put_list(&mut orders, &inactive, false);
        put_list(&mut orders, remaining, true);
        self.orders = orders;
        let a1_locked = reader::apply(abs, add_parts(remaining, false, a1));
        let a2_locked = reader::apply(abs, add_parts(remaining, true, a2));
        self.purse =
        Purse {
            asset1: a1 - a1_locked,
            asset2: a2 - a2_locked,
            asset1_locked: a1_locked,
            asset2_locked: a2_locked,
        };
        self.last_slice_time = last_time;
    }

    /// The active orders.
    pub open spec fn active(&self) -> Seq<(u64, Order<F, S>)> {
        orders_where(self.orders.listed(), true, self.orders.listed().len() as int)
    }

    /// The orders once those that were active have run and `remaining` are left of
    /// them.
    pub open spec fn orders_after(&self, remaining: Seq<(u64, Order<F, S>)>) -> Map<
        u64,
        (Order<F, S>, bool),
    > {
        let kept = orders_where(
            self.orders.listed(),
            false,
            self.orders.listed().len() as int,
        );
        with_list(
            with_list(Map::empty(), kept, false, kept.len() as int),
            remaining,
            true,
            remaining.len() as int,
        )
    }

    /// Each operation that running the active orders over `k` takes is defined.
    pub open spec fn past_runs<B: Fn(F) -> F>(
        &self,
        h_trade: HistTrade<F, S>,
        k: Seq<Wick<F>>,
        abs: B,
    ) -> bool {
        let run = h_trade.ran(k, self.active(), self.active().len() as int);
        let p = Self::purse_after::<B>(run.remaining, run.asset1, run.asset2, abs);
        &&& h_trade.runs(k, self.active())
        &&& parts_defined(run.remaining, false, run.asset1)
        &&& parts_defined(run.remaining, true, run.asset2)
        &&& num::subtracts(run.asset1, p.asset1_locked)
        &&& num::subtracts(run.asset2, p.asset2_locked)
    }

    /// The active orders are to run over the slice `k`: it is not empty and was not
    /// run already.
    pub open spec fn runs_on(&self, k: Seq<Wick<F>>) -> bool {
        k.len() > 0 && k.last().0 != self.last_slice_time
    }

    /// This is the window `before` once the amounts of the run `h_trade` and the
    /// names of the pair were taken over, and the active orders ran over the slice
    /// `k`, where they are to.
    pub open spec fn past_shown<B: Fn(F) -> F>(
        &self,
        before: Self,
        h_trade: HistTrade<F, S>,
        k: Seq<Wick<F>>,
        symbol_info: Option<&(String, String, String)>,
        abs: B,
    ) -> bool {
        let synced = before.synced_past(h_trade.asset1, h_trade.asset2, symbol_info);
        let run = h_trade.ran(k, before.active(), before.active().len() as int);
        if before.runs_on(k) {
            &&& self.orders@ == before.orders_after(run.remaining)
            &&& *self == (ManualOrders {
                orders: self.orders,
                purse: Self::purse_after::<B>(run.remaining, run.asset1, run.asset2, abs),
                last_slice_time: k.last().0,
                ..synced
            })
        } else {
            *self == synced
        }
    }

    /// The run `after` is `before` once the active orders ran over the slice `k`,
    /// where they are to.
    pub open spec fn traded_on(
        &self,
        before: HistTrade<F, S>,
        after: HistTrade<F, S>,
        k: Seq<Wick<F>>,
    ) -> bool {
        let run = before.ran(k, self.active(), self.active().len() as int);
        if self.runs_on(k) {
            &&& after.asset1 == run.asset1
            &&& after.asset2 == run.asset2
            &&& after.trade_record@ == run.trade_record
            &&& after.current_order == before.current_order
            &&& after.same_but_trade(&before)
        } else {
            after == before
        }
    }

    /// One round over candles of the past: takes over the amounts of the run
    /// `h_trade` and the names of the pair, and runs the active orders over the
    /// slice `k`, unless it is empty or was run already.
    pub fn show_past<B: Fn(F) -> F>(
        &mut self,
        h_trade: &mut HistTrade<F, S>,
        k: &[Wick<F>],
        symbol_info: Option<&(String, String, String)>,
        abs: &B,
    )
        requires
            num::lawful::<F>(),
            num::widens::<S, F>(),
            reader::pure::<F, F, B>(*abs),
            old(self).wf(),
            old(self).runs_on(k@) ==> old(self).past_runs::<B>(*old(h_trade), k@, *abs),
        ensures
            final(self).wf(),
            final(self).past_shown::<B>(*old(self), *old(h_trade), k@, symbol_info, *abs),
            old(self).traded_on(*old(h_trade), *final(h_trade), k@),
    {
        self.sync_past(h_trade.asset1, h_trade.asset2, symbol_info);
        if k.len() == 0 {
            return;
        }
        let last_time = k[k.len() - 1].0;
        if let Some(active) = self.orders_to_run(last_time) {
            assert(active@ == old(self).active());
            let remaining = h_trade.run_orders(k, &active);
            self.after_run(&remaining, h_trade.asset1, h_trade.asset2, last_time, abs);
        }
    }

    /// Takes over the names and the balances of the pair on show.
    pub fn sync_pair(&mut self, live_info: &LiveInfo<F, S>)
        ensures
            *final(self) == (ManualOrders {
                asset1_name: live_info.current_pair_strings.0,
                asset2_name: live_info.current_pair_strings.1,
                purse: Purse {
                    asset1: live_info.current_pair_free_balances.0,
                    asset2: live_info.current_pair_free_balances.1,
                    asset1_locked: live_info.current_pair_locked_balances.0,
                    asset2_locked: live_info.current_pair_locked_balances.1,
                },
                ..*old(self)
            }),
    {
        self.asset1_name = live_info.current_pair_strings.0.clone();
        self.asset2_name = live_info.current_pair_strings.1.clone();
        self.purse =
        Purse {
            asset1: live_info.current_pair_free_balances.0,
            asset2: live_info.current_pair_free_balances.1,
            asset1_locked: live_info.current_pair_locked_balances.0,
            asset2_locked: live_info.current_pair_locked_balances.1,
        };
    }
}

/// Two named parts are the same where they have the same name, and two numbers where they
/// are equal; a name and a number never are.
pub proof fn parts_are_told_apart(a: Quant<u64>, b: Quant<u64>)
    ensures
        same_quant(a, b) <==> a == b,
{
    if let (Quant::Q { q: x }, Quant::Q { q: y }) = (a, b) {
        num::unsigned_compare(x, y);
    }
}

/// A part that was newly chosen by name is the part to trade, and sets the percentage that
/// its name says. A number chosen so leaves the percentage.
pub proof fn newly_chosen_part_counts<F: Number>(c: Choice<F>)
    requires
        !same_quant(c.quant_selector, c.last_quant),
    ensures
        c.chosen().quant == c.quant_selector,
        c.chosen().quant_selector == c.quant_selector,
        c.chosen().last_quant == c.quant_selector,
        c.quant_selector is Q25 ==> c.chosen().scalar == num::lit::<F>(25),
        c.quant_selector is Q50 ==> c.chosen().scalar == num::lit::<F>(50),
        c.quant_selector is Q75 ==> c.chosen().scalar == num::lit::<F>(75),
        c.quant_selector is Q100 ==> c.chosen().scalar == num::lit::<F>(100),
        c.quant_selector is Q ==> c.chosen().scalar == c.scalar,
{
}

/// Else the percentage decides: a quarter, a half, three quarters and all of it go by their
/// names, any other percentage is taken as it is, and none changes nothing.
pub proof fn percentage_decides_the_part(c: Choice<u64>)
    requires
        c.quant_selector == c.last_quant,
    ensures
        ({
            let r = c.chosen();
            &&& c.scalar == 0 ==> r == c
            &&& r.scalar == c.scalar
            &&& c.scalar == 25 ==> r.quant == Quant::<u64>::Q25
            &&& c.scalar == 50 ==> r.quant == Quant::<u64>::Q50
            &&& c.scalar == 75 ==> r.quant == Quant::<u64>::Q75
            &&& c.scalar == 100 ==> r.quant == Quant::<u64>::Q100
            &&& c.scalar != 0 && c.scalar != 25 && c.scalar != 50 && c.scalar != 75 && c.scalar
                != 100 ==> r.quant == (Quant::Q { q: c.scalar }) && r.last_quant == c.last_quant
            &&& c.scalar != 0 ==> r.quant_selector == r.quant
            &&& r.quant is Q25 || r.quant is Q50 || r.quant is Q75 || r.quant is Q100 ==> c.scalar
                == 0 || r.last_quant == r.quant
        }),
{
    parts_are_told_apart(c.quant_selector, c.last_quant);
    num::unsigned_constants(0, 1, 0);
    num::unsigned_constants(25, 1, 0);
    num::unsigned_constants(50, 1, 0);
    num::unsigned_constants(75, 1, 0);
    num::unsigned_constants(100, 1, 0);
    num::unsigned_compare(c.scalar, 0);
    num::unsigned_compare(c.scalar, 25);
    num::unsigned_compare(c.scalar, 50);
    num::unsigned_compare(c.scalar, 75);
    num::unsigned_compare(c.scalar, 100);
}

/// An order that buys sets its part of the second asset aside, one that sells its part of the
/// first, and either all of the other one.
pub proof fn order_sets_its_part_aside<F: Number, S: Copy>(o: Order<F, S>, a1: F, a2: F)
    ensures
        o.buys() ==> set_aside(o, a1, a2) == (a1, num::product(a2, o.size().part())),
        !o.buys() ==> set_aside(o, a1, a2) == (num::product(a1, o.size().part()), a2),
{
}

/// What is locked by an order is what it sets aside of what is free, and the rest stays free.
pub proof fn placed_order_locks_its_part<F: Number, S: Copy>(purse: Purse<F>, o: Order<F, S>)
    ensures
        ({
            let after = purse.with_order(o);
            &&& o.buys() ==> after.asset2_locked == num::product(purse.asset2, o.size().part())
                && after.asset1_locked == purse.asset1
            &&& !o.buys() ==> after.asset1_locked == num::product(purse.asset1, o.size().part())
                && after.asset2_locked == purse.asset2
            &&& after.asset1 == num::difference(purse.asset1, after.asset1_locked)
            &&& after.asset2 == num::difference(purse.asset2, after.asset2_locked)
        }),
{
}

/// Deleting an order frees its part of what is locked of the asset that it is paid with, and
/// all of the other one.
pub proof fn deleted_order_frees_its_part<F: Number, S: Copy>(purse: Purse<F>, o: Order<F, S>)
    ensures
        ({
            let after = purse.freed(o);
            let u1 = if o.buys() {
                purse.asset1_locked
            } else {
                num::product(purse.asset1_locked, o.size().part())
            };
            let u2 = if o.buys() {
                num::product(purse.asset2_locked, o.size().part())
            } else {
                purse.asset2_locked
            };
            &&& after.asset1 == num::sum(purse.asset1, u1)
            &&& after.asset2 == num::sum(purse.asset2, u2)
            &&& after.asset1_locked == num::difference(purse.asset1_locked, u1)
            &&& after.asset2_locked == num::difference(purse.asset2_locked, u2)
        }),
{
}

/// An order is taken exactly where it has a price above zero and there is something of the
/// asset that it is paid with.
pub proof fn order_is_taken_where_it_can_be_paid(purse: Purse<u64>, o: Order<u64, u32>)
    requires
        o.size() is Q100,
    ensures
        purse.takes(o) <==> (match o {
            Order::Limit { price, .. } => price > 0,
            Order::StopLimit { price, .. } => price > 0,
            Order::StopMarket { price, .. } => price > 0,
            _ => false,
        }) && (if o.buys() {
            purse.asset2 > 0
        } else {
            purse.asset1 > 0
        }),
{
    num::unsigned_constants(0, 1, 0);
    num::unsigned_constants(1, 1, 0);
    let price = match o {
        Order::Limit { price, .. } => price,
        Order::StopLimit { price, .. } => price,
        Order::StopMarket { price, .. } => price,
        _ => 0u64,
    };
    num::unsigned_compare(price, 0);
    num::unsigned_compare(purse.asset1, 0);
    num::unsigned_compare(purse.asset2, 0);
    num::unsigned_compare(num::difference(purse.asset1, purse.asset1), 0);
    num::unsigned_compare(num::difference(purse.asset2, purse.asset2), 0);
}

/// An order that is taken leaves nothing below zero of the asset that it is not paid with.
pub proof fn taken_order_leaves_nothing_below_zero<F: Number, S: Copy>(
    purse: Purse<F>,
    o: Order<F, S>,
)
    requires
        purse.takes(o),
    ensures
        o.buys() ==> !num::less(purse.with_order(o).asset1, num::lit(0)) && !num::equal(
            purse.asset2,
            num::lit(0),
        ),
        !o.buys() ==> !num::less(purse.with_order(o).asset2, num::lit(0)) && !num::equal(
            purse.asset1,
            num::lit(0),
        ),
{
}

/// Where every operation of the number type is defined, what any order sets aside and frees
/// can be computed, for any amount.
pub proof fn every_order_can_be_set_aside<F: Number, S: Copy>(
    purse: Purse<F>,
    o: Order<F, S>,
    a1: F,
    a2: F,
    list: Seq<(u64, Order<F, S>)>,
    buys: bool,
)
    requires
        num::total::<F>(),
        forall|i: int| 0 <= i < list.len() ==> !((#[trigger] list[i]).1 is Nothing),
    ensures
        set_aside_defined(o, a1, a2),
        purse.frees(o),
        purse.locks(o),
        parts_defined(list, buys, a1),
{
}

/// An order that is made like another one is of its kind, on the side and of the part given,
/// untouched; a limit and a stop limit lie at the price, a stop market order at the price for
/// it. What is no order leaves the one before.
pub proof fn order_made_anew_is_of_its_kind<F: Number, S: Copy>(
    kind: Order<F, S>,
    before: Order<F, S>,
    buy: bool,
    quant: Quant<F>,
    price: F,
    stop_market_price: F,
    stop_price: S,
)
    ensures
        ({
            let o = order_like(kind, before, buy, quant, price, stop_market_price, stop_price);
            &&& kind is Nothing ==> o == before
            &&& !(kind is Nothing) ==> o.buys() == buy && o.size() == quant
            &&& kind is Market ==> o is Market
            &&& kind is Limit ==> (o matches Order::Limit { price: p, limit_status, .. } && p
                == price && limit_status is Untouched)
            &&& kind is StopLimit ==> (o matches Order::StopLimit {
                price: p,
                limit_status,
                stop_price: s,
                stop_status,
                ..
            } && p == price && s == stop_price && limit_status is Untouched && stop_status
                == StopStatus::Untouched)
            &&& kind is StopMarket ==> (o matches Order::StopMarket { price: p, stop_status, .. }
                && p == stop_market_price && stop_status == StopStatus::Untouched)
        }),
{
}

/// An order of a kind that was picked is of that kind, on the side and of the part given, at
/// the price given, untouched.
pub proof fn picked_order_is_of_its_kind<F: Number, S: Copy>(
    kind: BasicOrderType,
    buy: bool,
    quant: Quant<F>,
    price: F,
    stop_price: S,
)
    ensures
        ({
            let o = order_of_kind(kind, buy, quant, price, stop_price);
            &&& o.buys() == buy && o.size() == quant
            &&& kind == BasicOrderType::Market <==> o is Market
            &&& kind == BasicOrderType::Limit <==> (o matches Order::Limit {
                price: p,
                limit_status,
                ..
            } && p == price && limit_status is Untouched)
            &&& kind == BasicOrderType::StopLimit <==> (o matches Order::StopLimit {
                price: p,
                limit_status,
                stop_price: s,
                stop_status,
                ..
            } && p == price && s == stop_price && limit_status is Untouched && stop_status
                == StopStatus::Untouched)
            &&& kind == BasicOrderType::StopMarket <==> (o matches Order::StopMarket {
                price: p,
                stop_status,
                ..
            } && p == price && stop_status == StopStatus::Untouched)
        }),
{
}

/// Each entry that is active, or that is not, is selected, with its own number and order, and
/// no other one is; the active and the inactive ones together are all.
pub proof fn selected_orders_are_those_asked_for<F, S>(
    entries: Seq<(u64, (Order<F, S>, bool))>,
    active: bool,
    n: int,
)
    requires
        0 <= n <= entries.len(),
    ensures
        forall|i: int|
            0 <= i < n && (#[trigger] entries[i]).1.1 == active ==> orders_where(
                entries,
                active,
                n,
            ).contains((entries[i].0, entries[i].1.0)),
        forall|j: int|
            0 <= j < orders_where(entries, active, n).len() ==> exists|i: int|
                0 <= i < n && (#[trigger] entries[i]).1.1 == active && (
                entries[i].0,
                entries[i].1.0,
            ) == #[trigger] orders_where(entries, active, n)[j],
        orders_where(entries, true, n).len() + orders_where(entries, false, n).len() == n,
    decreases n,
{
    if n > 0 {
        selected_orders_are_those_asked_for(entries, active, n - 1);
        let before = orders_where(entries, active, n - 1);
        let after = orders_where(entries, active, n);
        let e = entries[n - 1];
        assert forall|i: int| 0 <= i < n && (#[trigger] entries[i]).1.1 == active implies after.contains(
            (entries[i].0, entries[i].1.0),
        ) by {
            if i < n - 1 {
                let x = (entries[i].0, entries[i].1.0);
                let j = choose|j: int| 0 <= j < before.len() && before[j] == x;
                assert(after[j] == x);
            } else {
                assert(after[before.len() as int] == (e.0, e.1.0));
            }
        }
        assert forall|j: int| 0 <= j < after.len() implies exists|i: int|
            0 <= i < n && (#[trigger] entries[i]).1.1 == active && (entries[i].0, entries[i].1.0)
                == #[trigger] after[j] by {
            if j < before.len() {
                assert(after[j] == before[j]);
                let i = choose|i: int|
                    0 <= i < n - 1 && (#[trigger] entries[i]).1.1 == active && (
                    entries[i].0,
                    entries[i].1.0,
                ) == before[j];
                assert(entries[i].1.1 == active);
            } else {
                assert(entries[n - 1].1.1 == active);
            }
        }
    }
}

/// After a list was put in, each of its numbers has the last order of that number, active as
/// told, and every other number is as it was.
pub proof fn list_is_put_in_under_its_numbers<F, S>(
    m: Map<u64, (Order<F, S>, bool)>,
    list: Seq<(u64, Order<F, S>)>,
    active: bool,
    n: int,
    id: u64,
)
    requires
        0 <= n <= list.len(),
    ensures
        ({
            let after = with_list(m, list, active, n);
            &&& (forall|i: int| 0 <= i < n ==> (#[trigger] list[i]).0 != id) ==> (
            after.dom().contains(id) <==> m.dom().contains(id)) && after[id] == m[id]
            &&& forall|i: int|
                0 <= i < n && (#[trigger] list[i]).0 == id && (forall|j: int|
                    i < j < n ==> (#[trigger] list[j]).0 != id) ==> after.dom().contains(id)
                    && after[id] == (list[i].1, active)
        }),
    decreases n,
{
    if n > 0 {
        list_is_put_in_under_its_numbers(m, list, active, n - 1, id);
    }
}

/// A part that is chosen by name in a round settles the part, and nothing else of the window
/// but the mode changes by it.
pub proof fn choosing_a_part_changes_the_choice<F: Number + From<S>, S: Number>(
    d: Desk<F, S>,
    e: Entry<F>,
)
    ensures
        ({
            let r = d.part_chosen(e);
            &&& r.single_order_mode == e.single_order_mode
            &&& r.choice == (Choice { quant_selector: e.quant_selector, ..d.choice }).chosen()
            &&& r == (Desk {
                single_order_mode: r.single_order_mode,
                choice: r.choice,
                ..d
            })
        }),
{
}

/// What is entered is taken over: a percentage that was moved, the side, both prices as they
/// are typed, and an order of the kind that was picked, at the prices and of the part that
/// were there. Amounts, orders and messages stay.
pub proof fn what_is_entered_is_taken_over<F: Number + From<S>, S: Number, N: Fn(F) -> S>(
    d: Desk<F, S>,
    e: Entry<F>,
    narrow: N,
)
    ensures
        ({
            let r = d.entered::<N>(e, narrow);
            &&& r.buy == e.buy
            &&& r.price_text == e.price_string@
            &&& r.stop_price_text == e.stop_price_string@
            &&& r.choice.quant == d.choice.quant
            &&& e.scalar matches Some(x) ==> r.choice.scalar == x
            &&& e.scalar is None ==> r.choice == d.choice
            &&& e.kind is None ==> r.new_order == d.new_order
            &&& e.kind matches Some(k) ==> r.new_order.buys() == e.buy && r.new_order.size()
                == d.choice.quant && (r.new_order is Market <==> k == BasicOrderType::Market) && (
            r.new_order is Limit <==> k == BasicOrderType::Limit) && (r.new_order is StopLimit <==> k
                == BasicOrderType::StopLimit) && (r.new_order is StopMarket <==> k
                == BasicOrderType::StopMarket)
            &&& r.order == d.order && r.orders == d.orders && r.purse == d.purse && r.sent == d.sent
                && r.last_id == d.last_id && r.order_set == d.order_set && r.price == d.price
                && r.stop_price == d.stop_price && r.symbol == d.symbol
        }),
{
}

/// The order that a round makes anew is of the kind being made, on the side and of the part
/// that are chosen, at the price that was read last.
pub proof fn order_is_remade_as_chosen<F: Number + From<S>, S: Number, N: Fn(F) -> S>(
    d: Desk<F, S>,
    narrow: N,
)
    ensures
        ({
            let r = d.remade::<N>(narrow);
            &&& !(d.new_order is Nothing) ==> r.order.buys() == d.buy && r.order.size()
                == d.choice.quant
            &&& d.new_order is Nothing ==> r.order == d.order
            &&& d.new_order is Market ==> r.order is Market
            &&& d.new_order is Limit ==> (r.order matches Order::Limit { price, .. } && price
                == d.price)
            &&& d.new_order is StopLimit ==> (r.order matches Order::StopLimit {
                price,
                stop_price,
                ..
            } && price == d.price && stop_price == reader::result::<F, S, N>(narrow, d.stop_price))
            &&& d.new_order is StopMarket ==> (r.order matches Order::StopMarket { price, .. }
                && price == d.price)
            &&& r == (Desk { order: r.order, ..d })
        }),
{
}

/// The order to add is of the kind being made, at the typed prices; a stop market order is at
/// the typed stop. A text that is no number counts as zero, and is put back to it.
pub proof fn order_to_add_is_at_the_typed_prices<
    F: Number + From<S>,
    S: Number,
    R: Fn(&str) -> Option<F>,
    N: Fn(F) -> S,
>(d: Desk<F, S>, read: R, narrow: N)
    ensures
        ({
            let o = d.to_add::<R, N>(read, narrow);
            let p = match reader::number::<F, R>(read, d.price_text) {
                Some(x) => x,
                None => num::lit::<F>(0),
            };
            let sp = match reader::number::<F, R>(read, d.stop_price_text) {
                Some(x) => x,
                None => num::lit::<F>(0),
            };
            &&& !(d.new_order is Nothing) ==> o.buys() == d.buy && o.size() == d.choice.quant
            &&& d.new_order is Nothing ==> o == d.order
            &&& d.new_order is Market ==> o is Market
            &&& d.new_order is Limit ==> (o matches Order::Limit { price, .. } && price == p)
            &&& d.new_order is StopLimit ==> (o matches Order::StopLimit { price, stop_price, .. }
                && price == p && stop_price == reader::result::<F, S, N>(narrow, sp))
            &&& d.new_order is StopMarket ==> (o matches Order::StopMarket { price, .. } && price
                == sp)
        }),
{
}

/// A price that was typed is the number in the text, and a text that is none becomes a zero.
pub proof fn typed_price_is_the_number_in_its_text<F: Number, R: Fn(&str) -> Option<F>>(
    text: Seq<char>,
    read: R,
)
    ensures
        reader::number::<F, R>(read, text) matches Some(p) ==> typed::<F, R>(text, read) == p
            && kept::<F, R>(text, read) == text,
        reader::number::<F, R>(read, text) is None ==> typed::<F, R>(text, read) == num::lit::<F>(0)
            && kept::<F, R>(text, read) == "0.0"@,
{
}

/// Adding live sends the order for the asset on show and sets nothing aside. Over candles of
/// the past nothing is sent; an order that can be taken stands active under the next number,
/// with its part set aside, and any other one leaves orders and amounts alone.
pub proof fn adding_sends_or_takes_the_order<
    F: Number + From<S>,
    S: Number,
    R: Fn(&str) -> Option<F>,
    N: Fn(F) -> S,
>(d: Desk<F, S>, live: Option<String>, read: R, narrow: N)
    requires
        d.last_id < u64::MAX,
    ensures
        ({
            let r = d.added::<R, N>(live, read, narrow);
            let o = d.to_add::<R, N>(read, narrow);
            let id = (d.last_id + 1) as u64;
            &&& r.order == o
            &&& r.price == typed::<F, R>(d.price_text, read)
            &&& r.stop_price == typed::<F, R>(d.stop_price_text, read)
            &&& live matches Some(symbol) ==> r.sent.last() == ClientInstruct::<
                F,
                S,
            >::SendBinInstructs(BinInstructs::PlaceOrder { symbol, o }) && r.sent.len()
                == d.sent.len() + 1 && r.sent.drop_last() == d.sent && r.orders == d.orders
                && r.purse == d.purse && r.last_id == d.last_id && r.order_set == d.order_set
            &&& live is None ==> r.sent == d.sent
            &&& live is None && !d.purse.takes(o) ==> r.orders == d.orders && r.purse == d.purse
                && r.last_id == d.last_id && r.order_set == d.order_set
            &&& live is None && d.purse.takes(o) ==> r.last_id == d.last_id + 1
                && r.orders.dom().contains(id) && r.orders[id] == (o, true) && r.orders.remove(id)
                == d.orders.remove(id) && r.purse == d.purse.with_order(o) && r.order_set
        }),
{
    let r = d.added::<R, N>(live, read, narrow);
    let id = (d.last_id + 1) as u64;
    assert(r.orders.remove(id) =~= d.orders.remove(id));
    if live is Some {
        assert(r.sent.drop_last() =~= d.sent);
    }
}

/// Canceling all orders sends one message for the asset on show, and only live.
pub proof fn canceling_all_is_sent_live<F: Number + From<S>, S: Number>(
    d: Desk<F, S>,
    live: Option<String>,
)
    ensures
        live is None ==> d.all_canceled(live) == d,
        live matches Some(symbol) ==> {
            let r = d.all_canceled(live);
            &&& r.sent.last() == ClientInstruct::<F, S>::SendBinInstructs(
                BinInstructs::CancelAllOrders { symbol },
            )
            &&& r.sent.drop_last() == d.sent
            &&& r.sent.len() == d.sent.len() + 1
            &&& r == (Desk { sent: r.sent, ..d })
        },
{
    assert(d.all_canceled(live).sent.drop_last() =~= d.sent || live is None);
}

/// Live the orders and the asset on show are those of the exchange; else they stay.
pub proof fn live_orders_are_those_of_the_exchange<F: Number + From<S>, S: Number>(
    d: Desk<F, S>,
    live: Option<LiveInfo<F, S>>,
)
    ensures
        live is None ==> d.synced(live) == d && live_symbol_of(live) is None,
        live matches Some(l) ==> d.synced(live).orders == l.live_orders@ && d.synced(live).symbol
            == l.live_asset_symbol_changed.1 && d.synced(live).purse == d.purse && d.synced(
            live,
        ).sent == d.sent && live_symbol_of(live) == Some(l.live_asset_symbol_changed.1),
{
}

/// Canceling an order that is not there does nothing. Live the cancellation is sent, and the
/// orders stay until the exchange answers. Over candles of the past the order is gone, no
/// other one is, and what it had set aside is free again.
pub proof fn canceling_takes_one_order_away<F: Number + From<S>, S: Number>(
    d: Desk<F, S>,
    id: u64,
    live: bool,
    other: u64,
)
    ensures
        ({
            let r = d.canceled(id, live);
            &&& !d.orders.dom().contains(id) ==> r == d
            &&& d.orders.dom().contains(id) && live ==> r.orders == d.orders && r.purse == d.purse
                && r.order_set == d.order_set && r.sent.len() == d.sent.len() + 1
                && r.sent.drop_last() == d.sent && r.sent.last() == ClientInstruct::<
                F,
                S,
            >::SendBinInstructs(
                BinInstructs::CancelOrder { id, symbol: d.symbol, o: d.orders[id].0 },
            )
            &&& d.orders.dom().contains(id) && !live ==> r.sent == d.sent && !r.orders.dom().contains(
                id,
            ) && r.purse == d.purse.freed(d.orders[id].0) && !r.order_set
            &&& other != id ==> (r.orders.dom().contains(other) <==> d.orders.dom().contains(other))
                && (d.orders.dom().contains(other) ==> r.orders[other] == d.orders[other])
            &&& r.last_id == d.last_id && r.choice == d.choice && r.order == d.order
        }),
{
    let r = d.canceled(id, live);
    if d.orders.dom().contains(id) && live {
        assert(r.sent.drop_last() =~= d.sent);
    }
}

/// A round chooses the part, takes over what was entered, and makes the order anew before it
/// adds, cancels and shows what the exchange has, in this order.
pub proof fn a_round_goes_in_its_order<
    F: Number + From<S>,
    S: Number,
    R: Fn(&str) -> Option<F>,
    N: Fn(F) -> S,
>(d: Desk<F, S>, e: Entry<F>, live: Option<LiveInfo<F, S>>, read: R, narrow: N)
    ensures
        ({
            let ready = d.part_chosen(e).entered::<N>(e, narrow).remade::<N>(narrow);
            let s = match live {
                Some(l) => Some(l.live_asset_symbol_changed.1),
                None => None,
            };
            let r = d.round::<R, N>(e, live, read, narrow);
            let added = if e.add {
                ready.added::<R, N>(s, read, narrow)
            } else {
                ready
            };
            let all = if e.cancel_all {
                added.all_canceled(s)
            } else {
                added
            };
            &&& e.cancel is None ==> r == all.synced(live)
            &&& e.cancel matches Some(id) ==> r == all.synced(live).canceled(id, live is Some)
        }),
{
}

/// The parts of the orders on one side are added up one by one, and the other side does not
/// count.
pub proof fn parts_add_up<F: Number, S: Copy>(
    list: Seq<(u64, Order<F, S>)>,
    buys: bool,
    amount: F,
    n: int,
)
    requires
        0 <= n < list.len(),
    ensures
        parts_of(list, buys, amount, 0) == num::lit::<F>(0),
        list[n].1.buys() != buys ==> parts_of(list, buys, amount, n + 1) == parts_of(
            list,
            buys,
            amount,
            n,
        ),
        list[n].1.buys() == buys ==> parts_of(list, buys, amount, n + 1) == num::sum(
            parts_of(list, buys, amount, n),
            num::product(list[n].1.size().part(), amount),
        ),
{
}

/// A window of orders starts without orders and amounts, with a market order that buys for
/// all of what is held.
pub proof fn a_fresh_window_is_empty<F: Number + From<S>, S: Number>(w: ManualOrders<F, S>)
    requires
        w.fresh(),
    ensures
        w.orders@ == Map::<u64, (Order<F, S>, bool)>::empty(),
        w.order is Market && w.order.buys() && w.order.size() is Q100 && w.new_order == w.order,
        w.buy && !w.order_set && !w.single_order_mode && w.last_id == 0,
        w.choice.quant is Q100 && w.choice.quant_selector is Q100 && w.choice.scalar == num::lit::<
            F,
        >(100),
        w.purse.asset1 == num::lit::<F>(0) && w.purse.asset2 == num::lit::<F>(0),
        w.purse.asset1_locked == num::lit::<F>(0) && w.purse.asset2_locked == num::lit::<F>(0),
        w.price == num::lit::<F>(0) && w.stop_price == num::lit::<F>(0),
        w.price_string@ == "0.0"@ && w.stop_price_string@ == "0.0"@,
        w.last_slice_time.ms == 0,
        w.so_mode is Some,
{
}

/// The window is read as it stands: each field of the desk is that of the window.
pub proof fn the_desk_is_the_window<F: Number + From<S>, S: Number>(
    w: ManualOrders<F, S>,
    sent: Seq<ClientInstruct<F, S>>,
)
    ensures
        ({
            let d = w.desk(sent);
            &&& d.orders == w.orders@ && d.purse == w.purse && d.last_id == w.last_id && d.order_set
                == w.order_set
            &&& d.order == w.order && d.new_order == w.new_order && d.buy == w.buy && d.choice
                == w.choice
            &&& d.price == w.price && d.stop_price == w.stop_price && d.price_text == w.price_string@
                && d.stop_price_text == w.stop_price_string@
            &&& d.symbol == w.current_symbol && d.sent == sent && d.single_order_mode
                == w.single_order_mode
        }),
{
}

/// No round touches the time of the last slice and the names of the pair. Single order mode
/// stays what it is, but for its hotkeys, which are on once it was chosen.
pub proof fn a_round_keeps_what_is_beside<F: Number + From<S>, S: Number>(
    after: ManualOrders<F, S>,
    before: ManualOrders<F, S>,
    mode: bool,
)
    requires
        after.beside(&before, mode),
    ensures
        after.last_slice_time == before.last_slice_time,
        after.asset1_name == before.asset1_name && after.asset2_name == before.asset2_name,
        before.so_mode is None <==> after.so_mode is None,
        (before.so_mode, after.so_mode) matches (Some(b), Some(a)) ==> a == (SingleOrderMode {
            hk_active: a.hk_active,
            ..b
        }) && (a.hk_active <==> b.hk_active || mode),
{
}

/// A line of the table shows the number of its order, its part in percent, its price, its kind
/// and its side.
pub proof fn a_line_shows_its_order<F: Number + From<S>, S: Number>(
    e: (u64, (Order<F, S>, bool)),
    row: OrderRow<F>,
)
    requires
        ManualOrders::<F, S>::is_row(e, row),
    ensures
        row.id == e.0,
        row.percent == num::product(e.1.0.size().part(), num::lit(100)),
        e.1.0.buys() ==> row.side@ == "BUY"@,
        !e.1.0.buys() ==> row.side@ == "SELL"@,
        e.1.0 is Market ==> row.kind@ == "Market"@ && row.price == num::lit::<F>(0),
        e.1.0 matches Order::Limit { price, .. } ==> row.kind@ == "Limit"@ && row.price == price,
        e.1.0 matches Order::StopLimit { price, .. } ==> row.kind@ == "Stop Limit"@ && row.price
            == price,
        e.1.0 matches Order::StopMarket { price, .. } ==> row.kind@ == "Stop Market"@ && row.price
            == price,
{
}

/// The amounts of a run are taken over unless an order has set some aside; what is locked
/// stays. The names of the pair are taken over where they are told.
pub proof fn amounts_of_a_run_are_taken_over<F: Number + From<S>, S: Number>(
    w: ManualOrders<F, S>,
    asset1: F,
    asset2: F,
    info: Option<&(String, String, String)>,
)
    ensures
        ({
            let r = w.synced_past(asset1, asset2, info);
            &&& w.order_set ==> r.purse == w.purse
            &&& !w.order_set ==> r.purse.asset1 == asset1 && r.purse.asset2 == asset2
            &&& r.purse.asset1_locked == w.purse.asset1_locked && r.purse.asset2_locked
                == w.purse.asset2_locked
            &&& info matches Some(i) ==> r.current_symbol == i.0 && r.asset1_name == i.1
                && r.asset2_name == i.2
            &&& info is None ==> r.current_symbol == w.current_symbol && r.asset1_name
                == w.asset1_name && r.asset2_name == w.asset2_name
            &&& r.orders == w.orders && r.order == w.order && r.order_set == w.order_set
                && r.last_id == w.last_id && r.last_slice_time == w.last_slice_time
        }),
{
}

/// After a run the parts of the orders that still sell are locked of the first asset, those of
/// the orders that still buy of the second, and the rest of the amounts held is free. Without
/// open orders nothing is locked.
pub proof fn open_orders_lock_their_parts<F: Number + From<S>, S: Number, B: Fn(F) -> F>(
    remaining: Seq<(u64, Order<F, S>)>,
    a1: F,
    a2: F,
    abs: B,
)
    ensures
        ({
            let p = ManualOrders::<F, S>::purse_after::<B>(remaining, a1, a2, abs);
            let n = remaining.len() as int;
            &&& p.asset1_locked == reader::result::<F, F, B>(abs, parts_of(remaining, false, a1, n))
            &&& p.asset2_locked == reader::result::<F, F, B>(abs, parts_of(remaining, true, a2, n))
            &&& p.asset1 == num::difference(a1, p.asset1_locked)
            &&& p.asset2 == num::difference(a2, p.asset2_locked)
            &&& n == 0 ==> p.asset1_locked == reader::result::<F, F, B>(abs, num::lit(0))
                && p.asset2_locked == p.asset1_locked
        }),
{
}

/// After a run an order is there, active, where it is left of those that ran, and inactive
/// where it did not run; no other one is.
pub proof fn orders_after_a_run_are_those_left<F: Number + From<S>, S: Number>(
    w: ManualOrders<F, S>,
    remaining: Seq<(u64, Order<F, S>)>,
    id: u64,
)
    ensures
        ({
            let after = w.orders_after(remaining);
            let kept = orders_where(w.orders.listed(), false, w.orders.listed().len() as int);
            &&& forall|i: int|
                0 <= i < remaining.len() && (#[trigger] remaining[i]).0 == id && (forall|j: int|
                    i < j < remaining.len() ==> (#[trigger] remaining[j]).0 != id)
                    ==> after.dom().contains(id) && after[id] == (remaining[i].1, true)
            &&& (forall|i: int| 0 <= i < remaining.len() ==> (#[trigger] remaining[i]).0 != id) && (
            forall|i: int| 0 <= i < kept.len() ==> (#[trigger] kept[i]).0 != id)
                ==> !after.dom().contains(id)
            &&& (forall|i: int| 0 <= i < remaining.len() ==> (#[trigger] remaining[i]).0 != id)
                ==> forall|i: int|
                0 <= i < kept.len() && (#[trigger] kept[i]).0 == id && (forall|j: int|
                    i < j < kept.len() ==> (#[trigger] kept[j]).0 != id) ==> after.dom().contains(
                    id,
                ) && after[id] == (kept[i].1, false)
        }),
{
    let kept = orders_where(w.orders.listed(), false, w.orders.listed().len() as int);
    let base = with_list(Map::<u64, (Order<F, S>, bool)>::empty(), kept, false, kept.len() as int);
    list_is_put_in_under_its_numbers(
        Map::<u64, (Order<F, S>, bool)>::empty(),
        kept,
        false,
        kept.len() as int,
        id,
    );
    list_is_put_in_under_its_numbers(base, remaining, true, remaining.len() as int, id);
}

/// The active orders run over a slice that holds a candle, once: not where the last candle is
/// the one that the slice before ended with.
pub proof fn a_slice_is_run_once<F: Number + From<S>, S: Number>(
    w: ManualOrders<F, S>,
    k: Seq<Wick<F>>,
)
    ensures
        k.len() == 0 ==> !w.runs_on(k),
        k.len() > 0 ==> (w.runs_on(k) <==> k[k.len() - 1].0 != w.last_slice_time),
        w.active() == orders_where(w.orders.listed(), true, w.orders.listed().len() as int),
{
}

/// What a round over candles of the past leaves in the window: after a run the orders that are
/// left, the amounts with their parts locked, and the time of the last candle, so that the same
/// slice is not run again; without one the amounts of the run. The pair is taken over either
/// way, and nothing else changes.
pub proof fn a_past_round_ends_with_its_slice<F: Number + From<S>, S: Number, B: Fn(F) -> F>(
    after: ManualOrders<F, S>,
    before: ManualOrders<F, S>,
    h: HistTrade<F, S>,
    k: Seq<Wick<F>>,
    info: Option<&(String, String, String)>,
    abs: B,
)
    requires
        after.past_shown::<B>(before, h, k, info, abs),
    ensures
        k.len() > 0 ==> !after.runs_on(k),
        !before.runs_on(k) ==> after == before.synced_past(h.asset1, h.asset2, info),
        before.runs_on(k) ==> {
            let run = h.ran(k, before.active(), before.active().len() as int);
            &&& after.orders@ == before.orders_after(run.remaining)
            &&& after.purse == ManualOrders::<F, S>::purse_after::<B>(
                run.remaining,
                run.asset1,
                run.asset2,
                abs,
            )
            &&& after.last_slice_time == k.last().0
        },
        info matches Some(i) ==> after.current_symbol == i.0,
        after.order == before.order && after.order_set == before.order_set && after.last_id
            == before.last_id && after.choice == before.choice,
{
}

/// What a round over candles of the past leaves of the run: after one the amounts and the
/// record that the active orders come to; else the run as it was.
pub proof fn a_past_round_trades_the_active_orders<F: Number + From<S>, S: Number>(
    w: ManualOrders<F, S>,
    before: HistTrade<F, S>,
    after: HistTrade<F, S>,
    k: Seq<Wick<F>>,
)
    requires
        w.traded_on(before, after, k),
    ensures
        !w.runs_on(k) ==> after == before,
        w.runs_on(k) ==> {
            let run = before.ran(k, w.active(), w.active().len() as int);
            &&& after.asset1 == run.asset1
            &&& after.asset2 == run.asset2
            &&& after.trade_record@ == run.trade_record
            &&& after.asset_pair == before.asset_pair
            &&& after.current_order == before.current_order
            &&& after.trade_time == before.trade_time
        },
{
}

/// Where every operation of the number type is defined, an order can be added wherever its kind
/// is chosen and there is a number left for it, and any order that stands can be canceled.
pub proof fn every_chosen_order_can_be_added<
    F: Number + From<S>,
    S: Number,
    R: Fn(&str) -> Option<F>,
    N: Fn(F) -> S,
>(d: Desk<F, S>, id: u64, live: bool, symbol: Option<String>, read: R, narrow: N)
    requires
        num::total::<F>(),
        forall|n: u64| d.orders.dom().contains(n) ==> !((#[trigger] d.orders[n]).0 is Nothing),
    ensures
        d.cancels(id, live),
        symbol is Some ==> d.adds::<R, N>(symbol, read, narrow),
        d.last_id < u64::MAX && !(d.to_add::<R, N>(read, narrow) is Nothing) ==> d.adds::<R, N>(
            symbol,
            read,
            narrow,
        ),
{
}

/// What is known of the exchange is what was handed over, and nothing where nothing was.
pub proof fn the_exchange_is_the_one_handed_over<F, S>(l: &LiveInfo<F, S>)
    ensures
        live_of::<F, S>(Some(l)) == Some(*l),
        live_of::<F, S>(None) is None,
{
}

} // verus!
