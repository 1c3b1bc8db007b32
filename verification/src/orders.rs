//! Orders as the exchange takes them and hands them out.

use crate::keymap::KeyMap;
use crate::num;
use crate::num::Number;
use crate::reader;
use crate::trade::{LimitStatus, Order, Quant, StopStatus};
use vstd::prelude::*;

verus! {

/// Buying or selling.
#[derive(Debug, Clone, Copy, PartialEq, Eq, Structural)]
pub enum OrderSide {
    Buy,
    Sell,
}

/// The kinds of orders at the exchange.
#[derive(Debug, Clone, Copy, PartialEq, Eq, Structural)]
pub enum OrderType {
    Market,
    Limit,
    StopLoss,
    StopLossLimit,
    /// Any other kind.
    Other,
}

/// How long an order stays: until it is canceled.
#[derive(Debug, Clone, Copy, PartialEq, Eq, Structural)]
pub enum TimeInForce {
    GTC,
}

/// The request to place an order.
#[derive(Debug)]
pub struct OrderRequest<F> {
    pub symbol: String,
    pub side: OrderSide,
    pub order_type: OrderType,
    pub time_in_force: Option<TimeInForce>,
    /// How much of the first asset to trade.
    pub quantity: Option<F>,
    /// How much of the second asset to spend.
    pub quote_order_qty: Option<F>,
    pub price: Option<F>,
    pub stop_price: Option<F>,
}

/// A hundred thousand.
pub open spec fn lakh<T: Number>() -> T {
    num::product(num::lit(100), num::lit(1000))
}

/// `x` with what lies behind its fifth decimal cut off. `trunc` cuts off
/// everything behind the point.
pub open spec fn six_figures<T: Number, C: Fn(T) -> T>(x: T, trunc: C) -> T {
    num::quotient(reader::result::<T, T, C>(trunc, num::product(x, lakh())), lakh())
}

/// Each operation that [`six_figures`] stands for is defined.
pub open spec fn six_defined<T: Number, C: Fn(T) -> T>(x: T, trunc: C) -> bool {
    &&& num::multiplies(num::lit::<T>(100), num::lit(1000))
    &&& num::multiplies(x, lakh())
    &&& num::divides(reader::result::<T, T, C>(trunc, num::product(x, lakh())), lakh())
}

/// `x` with what lies behind its fifth decimal cut off.
pub fn to_6fig<T: Number, C: Fn(T) -> T>(x: T, trunc: &C) -> (r: T)
    requires
        num::lawful::<T>(),
        reader::pure::<T, T, C>(*trunc),
        six_defined(x, *trunc),
    ensures
        r == six_figures(x, *trunc),
{
    let lakh: T = num::whole::<T>(100) * num::whole(1000);
    let cut = reader::apply(trunc, x * lakh);
    cut / lakh
}

/// The price by which an order that buys turns money into an amount; a market
/// order has none.
pub open spec fn order_price<F, S>(o: Order<F, S>) -> Option<F> {
    match o {
        Order::Limit { price, .. } => Some(price),
        Order::StopLimit { price, .. } => Some(price),
        Order::StopMarket { price, .. } => Some(price),
        _ => None,
    }
}

/// The amount that an order trades, with `a1` of the second asset to spend and
/// `a2` of the first to sell.
pub open spec fn amount<F: Number, S: Copy>(o: Order<F, S>, a1: F, a2: F) -> F {
    let part = o.size().part();
    if o.buys() {
        match order_price(o) {
            Some(p) => num::quotient(num::product(part, a1), p),
            None => num::product(part, a1),
        }
    } else {
        num::product(part, a2)
    }
}

/// The request that places the order `o` on `sym`. An order that buys at the
/// market says how much it spends; any other one how much it trades. Amounts and
/// stops are cut to six figures, but not what is sold at the market nor the
/// price of a limit order.
pub open spec fn request_of<
    F: Number + From<S>,
    S: Number,
    C: Fn(F) -> F,
    D: Fn(S) -> S,
>(sym: String, o: Order<F, S>, a1: F, a2: F, trunc: C, trunc_short: D) -> OrderRequest<F> {
    let amount = amount(o, a1, a2);
    let cut = six_figures(amount, trunc);
    let side = if o.buys() {
        OrderSide::Buy
    } else {
        OrderSide::Sell
    };
    match o {
        Order::Limit { price, .. } => OrderRequest {
            symbol: sym,
            side,
            order_type: OrderType::Limit,
            time_in_force: Some(TimeInForce::GTC),
            quantity: Some(cut),
            quote_order_qty: None,
            price: Some(price),
            stop_price: None,
        },
        Order::StopLimit { price, stop_price, .. } => OrderRequest {
            symbol: sym,
            side,
            order_type: OrderType::StopLossLimit,
            time_in_force: Some(TimeInForce::GTC),
            quantity: Some(cut),
            quote_order_qty: None,
            price: Some(six_figures(price, trunc)),
            stop_price: Some(num::widened::<S, F>(six_figures(stop_price, trunc_short))),
        },
        Order::StopMarket { price, .. } => OrderRequest {
            symbol: sym,
            side,
            order_type: OrderType::StopLoss,
            time_in_force: None,
            quantity: Some(cut),
            quote_order_qty: None,
            price: None,
            stop_price: Some(six_figures(price, trunc)),
        },
        _ => OrderRequest {
            symbol: sym,
            side,
            order_type: OrderType::Market,
            time_in_force: None,
            quantity: if o.buys() {
                None
            } else {
                Some(amount)
            },
            quote_order_qty: if o.buys() {
                Some(cut)
            } else {
                None
            },
            price: None,
            stop_price: None,
        },
    }
}

/// Each operation that [`request_of`] stands for is defined.
pub open spec fn requests<F: Number + From<S>, S: Number, C: Fn(F) -> F, D: Fn(S) -> S>(
    o: Order<F, S>,
    a1: F,
    a2: F,
    trunc: C,
    trunc_short: D,
) -> bool {
    let part = o.size().part();
    &&& if o.buys() {
        &&& num::multiplies(part, a1)
        &&& order_price(o) matches Some(p) ==> num::divides(num::product(part, a1), p)
    } else {
        num::multiplies(part, a2)
    }
    &&& (o is Market && !o.buys()) || six_defined(amount(o, a1, a2), trunc)
    &&& o matches Order::StopLimit { price, stop_price, .. } ==> six_defined(price, trunc)
        && six_defined(stop_price, trunc_short)
    &&& o matches Order::StopMarket { price, .. } ==> six_defined(price, trunc)
}

/// The request that places the order `o` on `sym`, with `a1` of the second asset
/// to spend and `a2` of the first to sell. `trunc` and `trunc_short` cut off what
/// lies behind the point.
pub fn parse_to_binance<F: Number + From<S>, S: Number, C: Fn(F) -> F, D: Fn(S) -> S>(
    sym: &String,
    o: &Order<F, S>,
    a1: F,
    a2: F,
    trunc: &C,
    trunc_short: &D,
) -> (r: OrderRequest<F>)
    requires
        num::lawful::<F>(),
        num::lawful::<S>(),
        num::widens::<S, F>(),
        reader::pure::<F, F, C>(*trunc),
        reader::pure::<S, S, D>(*trunc_short),
        *o != Order::<F, S>::Nothing,
        requests(*o, a1, a2, *trunc, *trunc_short),
    ensures
        r == request_of(*sym, *o, a1, a2, *trunc, *trunc_short),
{
    let part = o.get_qnt();
    let buys = o.get_side();
    let side = if buys {
        OrderSide::Buy
    } else {
        OrderSide::Sell
    };
    let symbol = sym.clone();
    match *o {
        Order::Limit { price, .. } => {
            let amount = if buys {
                part * a1 / price
            } else {
                part * a2
            };
            OrderRequest {
                symbol,
                side,
                order_type: OrderType::Limit,
                time_in_force: Some(TimeInForce::GTC),
                quantity: Some(to_6fig(amount, trunc)),
                quote_order_qty: None,
                price: Some(price),
                stop_price: None,
            }
        },
        Order::StopLimit { price, stop_price, .. } => {
            let amount = if buys {
                part * a1 / price
            } else {
                part * a2
            };
            OrderRequest {
                symbol,
                side,
                order_type: OrderType::StopLossLimit,
                time_in_force: Some(TimeInForce::GTC),
                quantity: Some(to_6fig(amount, trunc)),
                quote_order_qty: None,
                price: Some(to_6fig(price, trunc)),
                stop_price: Some(F::from(to_6fig(stop_price, trunc_short))),
            }
        },
        Order::StopMarket { price, .. } => {
            let amount = if buys {
                part * a1 / price
            } else {
                part * a2
            };
            OrderRequest {
                symbol,
                side,
                order_type: OrderType::StopLoss,
                time_in_force: None,
                quantity: Some(to_6fig(amount, trunc)),
                quote_order_qty: None,
                price: None,
                stop_price: Some(to_6fig(price, trunc)),
            }
        },
        _ => {
            let (quantity, quote_order_qty) = if buys {
                (None, Some(to_6fig(part * a1, trunc)))
            } else {
                (Some(part * a2), None)
            };
            OrderRequest {
                symbol,
                side,
                order_type: OrderType::Market,
                time_in_force: None,
                quantity,
                quote_order_qty,
                price: None,
                stop_price: None,
            }
        },
    }
}

/// The shape of a request: it is for the asset asked for, on the side of the order.
/// Only an order that buys at the market says how much money it spends; any other
/// order says how much of the first asset it trades. A limit and a stop limit have a
/// price and stay until they are canceled, a stop limit and a stop market order have
/// a stop, and no other order has any of these.
pub proof fn request_has_the_shape_of_its_order<
    F: Number + From<S>,
    S: Number,
    C: Fn(F) -> F,
    D: Fn(S) -> S,
>(sym: String, o: Order<F, S>, a1: F, a2: F, trunc: C, trunc_short: D)
    requires
        o != Order::<F, S>::Nothing,
    ensures
        ({
            let r = request_of(sym, o, a1, a2, trunc, trunc_short);
            &&& r.quote_order_qty is Some <==> o is Market && o.buys()
            &&& r.quantity is Some <==> !(o is Market && o.buys())
            &&& r.side == OrderSide::Buy <==> o.buys()
            &&& r.symbol == sym
            &&& r.price is Some <==> o is Limit || o is StopLimit
            &&& r.time_in_force == Some(TimeInForce::GTC) <==> o is Limit || o is StopLimit
            &&& r.stop_price is Some <==> o is StopLimit || o is StopMarket
        }),
{
}

/// An open order as the exchange hands it out.
#[derive(Debug, Clone, Copy)]
pub struct BinanceOrder<F> {
    pub order_id: u64,
    pub side: OrderSide,
    pub order_type: OrderType,
    /// Whether its status is that of a trade.
    pub traded: bool,
    pub orig_qty: F,
    pub executed_qty: F,
    pub price: F,
    pub stop_price: F,
}

/// Free and locked amounts of the two assets of a pair.
#[derive(Debug, Clone, Copy)]
pub struct PairBalance<F> {
    pub locked_a1: F,
    pub locked_a2: F,
    pub free_a1: F,
    pub free_a2: F,
}

/// An order of the exchange is of a kind that is not known here.
#[derive(Debug, Clone, Copy, PartialEq, Eq, Structural)]
pub struct UnsupportedOrder;

impl UnsupportedOrder {
    /// What went wrong, for a log.
    pub fn to_str(&self) -> (r: &'static str)
        ensures
            r@ == "Unsupporder order type from Binance!"@,
    {
        "Unsupporder order type from Binance!"
    }
}

/// The part of what is held that an open order trades: of all the money, for one
/// that buys at the price `p`; of all of the first asset, for one that sells.
pub open spec fn open_part<F: Number>(bo: BinanceOrder<F>, b: PairBalance<F>, p: F) -> F {
    if bo.side == OrderSide::Buy {
        num::quotient(num::product(bo.orig_qty, p), num::sum(b.free_a2, b.locked_a2))
    } else {
        num::quotient(bo.orig_qty, num::sum(b.locked_a1, b.free_a1))
    }
}

/// Each operation that [`open_part`] stands for is defined.
pub open spec fn open_part_defined<F: Number>(bo: BinanceOrder<F>, b: PairBalance<F>, p: F) -> bool {
    if bo.side == OrderSide::Buy {
        &&& num::multiplies(bo.orig_qty, p)
        &&& num::sums(b.free_a2, b.locked_a2)
        &&& num::divides(num::product(bo.orig_qty, p), num::sum(b.free_a2, b.locked_a2))
    } else {
        &&& num::sums(b.locked_a1, b.free_a1)
        &&& num::divides(bo.orig_qty, num::sum(b.locked_a1, b.free_a1))
    }
}

/// Some of the order was executed, and no more than was asked for.
pub open spec fn in_part<F: Number>(bo: BinanceOrder<F>) -> bool {
    num::at_most(num::lit(0), bo.executed_qty) && num::at_most(bo.executed_qty, bo.orig_qty)
}

/// How far an open limit order was filled. `narrow` makes a short number of a
/// long one.
pub open spec fn fill_of<F: Number, S, N: Fn(F) -> S>(bo: BinanceOrder<F>, narrow: N) -> LimitStatus<
    S,
> {
    if num::equal(bo.executed_qty, num::lit(0)) {
        LimitStatus::Untouched
    } else if in_part(bo) {
        LimitStatus::PartFilled {
            percent_fill: reader::result::<F, S, N>(
                narrow,
                num::quotient(bo.orig_qty, bo.executed_qty),
            ),
        }
    } else {
        LimitStatus::FullyFilled
    }
}

/// The order that an open order of the exchange stands for.
pub open spec fn order_of<F: Number + From<S>, S: Copy, N: Fn(F) -> S>(
    bo: BinanceOrder<F>,
    b: PairBalance<F>,
    narrow: N,
) -> Result<Order<F, S>, UnsupportedOrder> {
    let buy = bo.side == OrderSide::Buy;
    match bo.order_type {
        OrderType::Market => Ok(
            Order::Market { buy, quant: Quant::Q { q: open_part(bo, b, bo.price) } },
        ),
        OrderType::Limit => Ok(
            Order::Limit {
                buy,
                quant: Quant::Q { q: open_part(bo, b, bo.price) },
                price: bo.price,
                limit_status: fill_of::<F, S, N>(bo, narrow),
            },
        ),
        OrderType::StopLoss => Ok(
            Order::StopMarket {
                buy,
                quant: Quant::Q { q: open_part(bo, b, bo.stop_price) },
                price: bo.stop_price,
                stop_status: if num::equal(bo.executed_qty, num::lit(0)) {
                    StopStatus::Untouched
                } else {
                    StopStatus::Triggered
                },
            },
        ),
        OrderType::StopLossLimit => Ok(
            Order::StopLimit {
                buy,
                quant: Quant::Q { q: open_part(bo, b, bo.price) },
                price: bo.price,
                limit_status: fill_of::<F, S, N>(bo, narrow),
                stop_price: reader::result::<F, S, N>(narrow, bo.stop_price),
                stop_status: if bo.traded {
                    StopStatus::Triggered
                } else {
                    StopStatus::Untouched
                },
            },
        ),
        OrderType::Other => Err(UnsupportedOrder),
    }
}

/// Each operation that [`order_of`] stands for is defined.
pub open spec fn order_defined<F: Number>(bo: BinanceOrder<F>, b: PairBalance<F>) -> bool {
    let fill = !num::equal(bo.executed_qty, num::lit(0)) && in_part(bo) ==> num::divides(
        bo.orig_qty,
        bo.executed_qty,
    );
    match bo.order_type {
        OrderType::Market => open_part_defined(bo, b, bo.price),
        OrderType::Limit => open_part_defined(bo, b, bo.price) && fill,
        OrderType::StopLoss => open_part_defined(bo, b, bo.stop_price),
        OrderType::StopLossLimit => open_part_defined(bo, b, bo.price) && fill,
        OrderType::Other => true,
    }
}

fn part_at<F: Number>(bo: &BinanceOrder<F>, b: &PairBalance<F>, p: F) -> (r: Quant<F>)
    requires
        num::lawful::<F>(),
        open_part_defined(*bo, *b, p),
    ensures
        r == (Quant::Q { q: open_part(*bo, *b, p) }),
{
    match bo.side {
        OrderSide::Buy => Quant::from_f64(bo.orig_qty * p / (b.free_a2 + b.locked_a2)),
        OrderSide::Sell => Quant::from_f64(bo.orig_qty / (b.locked_a1 + b.free_a1)),
    }
}

fn fill_status<F: Number, S, N: Fn(F) -> S>(bo: &BinanceOrder<F>, narrow: &N) -> (r: LimitStatus<S>)
    requires
        num::lawful::<F>(),
        reader::pure::<F, S, N>(*narrow),
        !num::equal(bo.executed_qty, num::lit(0)) && in_part(*bo) ==> num::divides(
            bo.orig_qty,
            bo.executed_qty,
        ),
    ensures
        r == fill_of::<F, S, N>(*bo, *narrow),
{
    let zero: F = num::whole(0);
    if bo.executed_qty == zero {
        LimitStatus::Untouched
    } else if zero <= bo.executed_qty && bo.executed_qty <= bo.orig_qty {
        LimitStatus::PartFilled { percent_fill: reader::apply(narrow, bo.orig_qty / bo.executed_qty) }
    } else {
        LimitStatus::FullyFilled
    }
}

/// The order that an open order of the exchange stands for. `narrow` makes a
/// short number of a long one.
pub fn from_binance_order<F: Number + From<S>, S: Copy, N: Fn(F) -> S>(
    bo: &BinanceOrder<F>,
    b: &PairBalance<F>,
    narrow: &N,
) -> (r: Result<Order<F, S>, UnsupportedOrder>)
    requires
        num::lawful::<F>(),
        reader::pure::<F, S, N>(*narrow),
        order_defined(*bo, *b),
    ensures
        r == order_of::<F, S, N>(*bo, *b, *narrow),
{
    let zero: F = num::whole(0);
    let buy = match bo.side {
        OrderSide::Buy => true,
        OrderSide::Sell => false,
    };
    match bo.order_type {
        OrderType::Market => Ok(Order::Market { buy, quant: part_at(bo, b, bo.price) }),
        OrderType::Limit => Ok(
            Order::Limit {
                buy,
                quant: part_at(bo, b, bo.price),
                price: bo.price,
                limit_status: fill_status(bo, narrow),
            },
        ),
        OrderType::StopLoss => {
            let stop_status = if bo.executed_qty == zero {
                StopStatus::Untouched
            } else {
                StopStatus::Triggered
            };
            Ok(
                Order::StopMarket {
                    buy,
                    quant: part_at(bo, b, bo.stop_price),
                    price: bo.stop_price,
                    stop_status,
                },
            )
        },
        OrderType::StopLossLimit => {
            let stop_status = if bo.traded {
                StopStatus::Triggered
            } else {
                StopStatus::Untouched
            };
            Ok(
                Order::StopLimit {
                    buy,
                    quant: part_at(bo, b, bo.price),
                    price: bo.price,
                    limit_status: fill_status(bo, narrow),
                    stop_price: reader::apply(narrow, bo.stop_price),
                    stop_status,
                },
            )
        },
        OrderType::Other => Err(UnsupportedOrder),
    }
}

/// Open orders by their number, and whether each is active.
pub type LiveOrders<F, S> = KeyMap<u64, (Order<F, S>, bool)>;

/// `m` with the first `n` open orders put in, each active under its number;
/// those of an unknown kind are passed over.
pub open spec fn with_orders<F: Number + From<S>, S: Copy, N: Fn(F) -> S>(
    m: Map<u64, (Order<F, S>, bool)>,
    orders: Seq<BinanceOrder<F>>,
    b: PairBalance<F>,
    narrow: N,
    n: int,
) -> Map<u64, (Order<F, S>, bool)>
    decreases n,
{
    if n <= 0 {
        m
    } else {
        let before = with_orders(m, orders, b, narrow, n - 1);
        match order_of::<F, S, N>(orders[n - 1], b, narrow) {
            Ok(o) => before.insert(orders[n - 1].order_id, (o, true)),
            Err(_) => before,
        }
    }
}

/// Each operation that [`with_orders`] stands for is defined.
pub open spec fn orders_defined<F: Number>(orders: Seq<BinanceOrder<F>>, b: PairBalance<F>) -> bool {
    forall|i: int| 0 <= i < orders.len() ==> order_defined(#[trigger] orders[i], b)
}

/// Puts open orders into `live`, each active under its number.
pub fn put_orders<F: Number + From<S>, S: Copy, N: Fn(F) -> S>(
    live: &mut LiveOrders<F, S>,
    orders: &Vec<BinanceOrder<F>>,
    b: &PairBalance<F>,
    narrow: &N,
)
    requires
        num::lawful::<F>(),
        reader::pure::<F, S, N>(*narrow),
        old(live).wf(),
        orders_defined(orders@, *b),
    ensures
        final(live).wf(),
        final(live)@ == with_orders::<F, S, N>(
            old(live)@,
            orders@,
            *b,
            *narrow,
            orders@.len() as int,
        ),
{
    let ghost start = live@;
    let mut i: usize = 0;
    while i < orders.len()
        invariant
            num::lawful::<F>(),
            reader::pure::<F, S, N>(*narrow),
            live.wf(),
            orders_defined(orders@, *b),
            i <= orders@.len(),
            live@ == with_orders::<F, S, N>(start, orders@, *b, *narrow, i as int),
        decreases orders@.len() - i,
    {
        let bo = orders[i];
        match from_binance_order(&bo, b, narrow) {
            Ok(o) => {
                let _ = live.insert(bo.order_id, (o, true));
            },
            Err(_) => {},
        }
        i += 1;
    }
}

/// An open order that was placed with a request of the library comes back on the
/// same side and of the same kind.
pub proof fn placed_order_comes_back<
    F: Number + From<S>,
    S: Number,
    C: Fn(F) -> F,
    D: Fn(S) -> S,
    N: Fn(F) -> S,
>(
    sym: String,
    o: Order<F, S>,
    a1: F,
    a2: F,
    trunc: C,
    trunc_short: D,
    bo: BinanceOrder<F>,
    b: PairBalance<F>,
    narrow: N,
)
    requires
        o != Order::<F, S>::Nothing,
        bo.side == request_of(sym, o, a1, a2, trunc, trunc_short).side,
        bo.order_type == request_of(sym, o, a1, a2, trunc, trunc_short).order_type,
    ensures
        order_of::<F, S, N>(bo, b, narrow) matches Ok(back) && back.buys() == o.buys() && (
        back is Market <==> o is Market) && (back is Limit <==> o is Limit) && (back is StopLimit
            <==> o is StopLimit) && (back is StopMarket <==> o is StopMarket),
{
}

/// The kind, the side, the price, the stop and the part of an order, in the form
/// of the futures requests: a market order has no price, and only a stop limit
/// has a stop of its own.
pub fn parse_order_to_ba<F: Number + From<S>, S: Number>(order: &Order<F, S>) -> (r: (
    OrderType,
    OrderSide,
    F,
    F,
    F,
))
    requires
        num::lawful::<F>(),
        num::widens::<S, F>(),
        *order != Order::<F, S>::Nothing,
    ensures
        r == (
            match *order {
                Order::Limit { .. } => OrderType::Limit,
                Order::StopLimit { .. } => OrderType::StopLossLimit,
                Order::StopMarket { .. } => OrderType::StopLoss,
                _ => OrderType::Market,
            },
            if order.buys() {
                OrderSide::Buy
            } else {
                OrderSide::Sell
            },
            match order_price(*order) {
                Some(p) => p,
                None => num::lit(0),
            },
            match *order {
                Order::StopLimit { stop_price, .. } => num::widened::<S, F>(stop_price),
                _ => num::lit(0),
            },
            order.size().part(),
        ),
{
    let zero: F = num::whole(0);
    let side = if order.get_side() {
        OrderSide::Buy
    } else {
        OrderSide::Sell
    };
    let part = order.get_qnt();
    match *order {
        Order::Limit { price, .. } => (OrderType::Limit, side, price, zero, part),
        Order::StopLimit { price, stop_price, .. } => (
            OrderType::StopLossLimit,
            side,
            price,
            F::from(stop_price),
            part,
        ),
        Order::StopMarket { price, .. } => (OrderType::StopLoss, side, price, zero, part),
        _ => (OrderType::Market, side, zero, zero, part),
    }
}

/// A hundred thousand is what its name says.
pub proof fn lakh_is_a_hundred_thousand()
    ensures
        lakh::<u64>() == 100_000,
{
    num::unsigned_constants(100, 1, 0);
    num::unsigned_constants(1000, 1, 0);
    num::unsigned_compute(100, 1000);
}

/// The cut of a number is as many hundred-thousandths as are left of it when what lies
/// behind the point of its hundred-thousandths is cut off: two numbers that have those
/// in common have the same cut, and a number that has nothing there keeps its value.
pub proof fn cut_counts_hundred_thousandths<T: Number, C: Fn(T) -> T>(x: T, y: T, trunc: C)
    ensures
        ({
            let unit = num::product(num::lit::<T>(100), num::lit(1000));
            let whole_x = reader::result::<T, T, C>(trunc, num::product(x, unit));
            let whole_y = reader::result::<T, T, C>(trunc, num::product(y, unit));
            &&& six_figures(x, trunc) == num::quotient(whole_x, unit)
            &&& whole_x == whole_y ==> six_figures(x, trunc) == six_figures(y, trunc)
            &&& whole_x == num::product(x, unit) && num::quotient(num::product(x, unit), unit) == x
                ==> six_figures(x, trunc) == x
        }),
{
}

/// A whole number is its own cut.
pub proof fn whole_numbers_are_not_cut<C: Fn(u64) -> u64>(x: u64, trunc: C)
    requires
        x * 100_000 <= u64::MAX,
        reader::result::<u64, u64, C>(trunc, (x * 100_000) as u64) == x * 100_000,
    ensures
        six_figures(x, trunc) == x,
{
    lakh_is_a_hundred_thousand();
    num::unsigned_compute(x, 100_000);
    num::unsigned_compute((x * 100_000) as u64, 100_000);
}

/// An order that sells asks for its part of what is held of the first asset, whatever
/// there is of the second: cut for a limit, a stop limit and a stop market order, as it is
/// for a market order. It never says how much money it spends.
pub proof fn sale_sells_its_part_of_the_balance<
    F: Number + From<S>,
    S: Number,
    C: Fn(F) -> F,
    D: Fn(S) -> S,
>(sym: String, o: Order<F, S>, a1: F, other: F, a2: F, trunc: C, trunc_short: D)
    requires
        !(o is Nothing),
        !o.buys(),
    ensures
        ({
            let r = request_of(sym, o, a1, a2, trunc, trunc_short);
            let sold = num::product(o.size().part(), a2);
            &&& r.side == OrderSide::Sell
            &&& r.quote_order_qty is None
            &&& o is Market ==> r.quantity == Some(sold)
            &&& !(o is Market) ==> r.quantity == Some(six_figures(sold, trunc))
            &&& r == request_of(sym, o, other, a2, trunc, trunc_short)
        }),
{
}

/// An order that buys asks for what its part of the money comes to at its price, cut,
/// whatever there is of the first asset; at the market it says how much of the money it
/// spends instead.
pub proof fn purchase_spends_its_part_of_the_balance<
    F: Number + From<S>,
    S: Number,
    C: Fn(F) -> F,
    D: Fn(S) -> S,
>(sym: String, o: Order<F, S>, a1: F, a2: F, other: F, trunc: C, trunc_short: D)
    requires
        o.buys(),
    ensures
        ({
            let r = request_of(sym, o, a1, a2, trunc, trunc_short);
            let spent = num::product(o.size().part(), a1);
            &&& r.side == OrderSide::Buy
            &&& o is Market ==> r.quantity is None && r.quote_order_qty == Some(
                six_figures(spent, trunc),
            )
            &&& o matches Order::Limit { price, .. } ==> r.quantity == Some(
                six_figures(num::quotient(spent, price), trunc),
            )
            &&& o matches Order::StopLimit { price, .. } ==> r.quantity == Some(
                six_figures(num::quotient(spent, price), trunc),
            )
            &&& o matches Order::StopMarket { price, .. } ==> r.quantity == Some(
                six_figures(num::quotient(spent, price), trunc),
            )
            &&& !(o is Market) ==> r.quote_order_qty is None
            &&& r == request_of(sym, o, a1, other, trunc, trunc_short)
        }),
{
}

/// A whole balance: selling all of `a2` asks for `a2`, buying for all of `a1` at the
/// market spends `a1`, and buying for it at the price `p` asks for as often as `p` goes
/// into it.
pub proof fn whole_balances_are_traded_whole<C: Fn(u64) -> u64, D: Fn(u32) -> u32>(
    sym: String,
    buy: bool,
    p: u64,
    a1: u64,
    a2: u64,
    trunc: C,
    trunc_short: D,
)
    requires
        p > 0,
    ensures
        ({
            let limit: Order<u64, u32> = Order::Limit {
                buy,
                quant: Quant::Q100,
                price: p,
                limit_status: LimitStatus::Untouched,
            };
            let market: Order<u64, u32> = Order::Market { buy, quant: Quant::Q100 };
            let l = request_of(sym, limit, a1, a2, trunc, trunc_short);
            let m = request_of(sym, market, a1, a2, trunc, trunc_short);
            &&& !buy ==> l.quantity == Some(six_figures(a2, trunc)) && m.quantity == Some(a2)
            &&& buy ==> l.quantity == Some(six_figures((a1 / p) as u64, trunc))
                && m.quote_order_qty == Some(six_figures(a1, trunc))
            &&& l.price == Some(p)
        }),
{
    num::unsigned_constants(1, 1, 0);
    num::unsigned_compute(1, a1);
    num::unsigned_compute(1, a2);
    num::unsigned_compute(a1, p);
}

/// The prices of a request are those of its order: that of a limit order as it is, that of
/// a stop limit cut, and no other order has one. The stop of a stop limit is its own, cut;
/// that of a stop market order is its price, cut. Each kind of order asks for its own kind.
pub proof fn request_has_the_prices_of_its_order<
    F: Number + From<S>,
    S: Number,
    C: Fn(F) -> F,
    D: Fn(S) -> S,
>(sym: String, o: Order<F, S>, a1: F, a2: F, trunc: C, trunc_short: D)
    requires
        !(o is Nothing),
    ensures
        ({
            let r = request_of(sym, o, a1, a2, trunc, trunc_short);
            &&& o is Market ==> r.order_type == OrderType::Market && r.price is None
                && r.stop_price is None && r.time_in_force is None
            &&& o matches Order::Limit { price, .. } ==> r.order_type == OrderType::Limit && r.price
                == Some(price) && r.stop_price is None && r.time_in_force == Some(TimeInForce::GTC)
            &&& o matches Order::StopLimit { price, stop_price, .. } ==> r.order_type
                == OrderType::StopLossLimit && r.price == Some(six_figures(price, trunc))
                && r.stop_price == Some(
                num::widened::<S, F>(six_figures(stop_price, trunc_short)),
            ) && r.time_in_force == Some(TimeInForce::GTC)
            &&& o matches Order::StopMarket { price, .. } ==> r.order_type == OrderType::StopLoss
                && r.price is None && r.stop_price == Some(six_figures(price, trunc))
                && r.time_in_force is None
            &&& r.symbol@ == sym@
        }),
{
}

/// The price of an order is the one that it was made with; a market order has none.
pub proof fn order_price_is_the_one_given<F, S>(o: Order<F, S>)
    ensures
        o is Market || o is Nothing ==> order_price(o) is None,
        o matches Order::Limit { price, .. } ==> order_price(o) == Some(price),
        o matches Order::StopLimit { price, .. } ==> order_price(o) == Some(price),
        o matches Order::StopMarket { price, .. } ==> order_price(o) == Some(price),
{
}

/// Where every operation of the number types is defined, every order has a request, and
/// every open order can be read.
pub proof fn every_order_has_a_request<
    F: Number + From<S>,
    S: Number,
    C: Fn(F) -> F,
    D: Fn(S) -> S,
>(
    o: Order<F, S>,
    a1: F,
    a2: F,
    trunc: C,
    trunc_short: D,
    orders: Seq<BinanceOrder<F>>,
    bo: BinanceOrder<F>,
    b: PairBalance<F>,
)
    requires
        num::total::<F>(),
        num::total::<S>(),
    ensures
        requests(o, a1, a2, trunc, trunc_short),
        order_defined(bo, b),
        orders_defined(orders, b),
{
}

/// The part that an open order trades: what it buys is worth, at its price, that part of
/// all of the money; what it sells is that part of all of the first asset. Free and locked
/// amounts count alike.
pub proof fn open_part_is_of_the_whole_balance(bo: BinanceOrder<u64>, b: PairBalance<u64>, p: u64)
    requires
        b.free_a1 + b.locked_a1 <= u64::MAX,
        b.free_a2 + b.locked_a2 <= u64::MAX,
        bo.orig_qty * p <= u64::MAX,
    ensures
        bo.side == OrderSide::Buy && b.free_a2 + b.locked_a2 > 0 ==> open_part(bo, b, p) == (
        bo.orig_qty * p) / (b.free_a2 + b.locked_a2),
        bo.side == OrderSide::Sell && b.free_a1 + b.locked_a1 > 0 ==> open_part(bo, b, p)
            == bo.orig_qty as int / (b.free_a1 + b.locked_a1),
{
    num::unsigned_compute(bo.orig_qty, p);
    num::unsigned_compute(b.free_a2, b.locked_a2);
    num::unsigned_compute(b.locked_a1, b.free_a1);
    if bo.side == OrderSide::Buy {
        num::unsigned_compute((bo.orig_qty * p) as u64, (b.free_a2 + b.locked_a2) as u64);
    } else {
        num::unsigned_compute(bo.orig_qty, (b.free_a1 + b.locked_a1) as u64);
    }
}

/// How far an open order was filled: not at all where nothing was executed; in part where
/// something was, up to what was asked for; and else in full. The percentage is what was
/// asked for over what was executed.
pub proof fn fill_follows_what_was_executed<N: Fn(u64) -> u32>(bo: BinanceOrder<u64>, narrow: N)
    ensures
        ({
            let f = fill_of::<u64, u32, N>(bo, narrow);
            &&& f is Untouched <==> bo.executed_qty == 0
            &&& f is PartFilled <==> 0 < bo.executed_qty <= bo.orig_qty
            &&& f is FullyFilled <==> bo.executed_qty > bo.orig_qty && bo.executed_qty > 0
            &&& f matches LimitStatus::PartFilled { percent_fill } ==> percent_fill
                == reader::result::<u64, u32, N>(
                narrow,
                (bo.orig_qty / bo.executed_qty) as u64,
            )
        }),
{
    num::unsigned_constants(0, 1, 0);
    num::unsigned_compare(bo.executed_qty, 0);
    num::unsigned_compare(0, bo.executed_qty);
    num::unsigned_compare(bo.executed_qty, bo.orig_qty);
    num::unsigned_compute(bo.orig_qty, bo.executed_qty);
}

/// An open order stands for an order of its own kind, on its own side, at its own price and
/// stop, for the part of the balance that it trades. It is triggered where a stop market
/// order was executed, and where a stop limit was traded. An unknown kind stands for none.
pub proof fn open_order_stands_for_its_like<F: Number + From<S>, S: Copy, N: Fn(F) -> S>(
    bo: BinanceOrder<F>,
    b: PairBalance<F>,
    narrow: N,
)
    ensures
        ({
            let r = order_of::<F, S, N>(bo, b, narrow);
            let buy = bo.side != OrderSide::Sell;
            let none_executed = num::equal(bo.executed_qty, num::lit(0));
            &&& r is Err <==> bo.order_type == OrderType::Other
            &&& r matches Ok(o) ==> o.buys() == buy && !(o is Nothing)
            &&& bo.order_type == OrderType::Market ==> (r matches Ok(
                Order::Market { quant, .. },
            ) && quant.part() == open_part(bo, b, bo.price))
            &&& bo.order_type == OrderType::Limit ==> (r matches Ok(
                Order::Limit { quant, price, limit_status, .. },
            ) && quant.part() == open_part(bo, b, bo.price) && price == bo.price && limit_status
                == fill_of::<F, S, N>(bo, narrow))
            &&& bo.order_type == OrderType::StopLoss ==> (r matches Ok(
                Order::StopMarket { quant, price, stop_status, .. },
            ) && quant.part() == open_part(bo, b, bo.stop_price) && price == bo.stop_price && (
            stop_status == StopStatus::Untouched <==> none_executed))
            &&& bo.order_type == OrderType::StopLossLimit ==> (r matches Ok(
                Order::StopLimit { quant, price, limit_status, stop_price, stop_status, .. },
            ) && quant.part() == open_part(bo, b, bo.price) && price == bo.price && limit_status
                == fill_of::<F, S, N>(bo, narrow) && stop_price == reader::result::<F, S, N>(
                narrow,
                bo.stop_price,
            ) && (stop_status == StopStatus::Triggered <==> bo.traded))
        }),
{
}

/// After open orders were put in, each of a known kind is there, active, under its number,
/// as the last one of that number says, and orders of other numbers are as they were.
pub proof fn open_orders_are_kept_under_their_numbers<
    F: Number + From<S>,
    S: Copy,
    N: Fn(F) -> S,
>(
    m: Map<u64, (Order<F, S>, bool)>,
    orders: Seq<BinanceOrder<F>>,
    b: PairBalance<F>,
    narrow: N,
    n: int,
    id: u64,
)
    requires
        0 <= n <= orders.len(),
    ensures
        ({
            let after = with_orders::<F, S, N>(m, orders, b, narrow, n);
            &&& (forall|i: int|
                0 <= i < n && orders[i].order_id == id ==> order_of::<F, S, N>(
                    #[trigger] orders[i],
                    b,
                    narrow,
                ) is Err) ==> (after.dom().contains(id) <==> m.dom().contains(id)) && after[id]
                == m[id]
            &&& forall|i: int|
                0 <= i < n && orders[i].order_id == id && order_of::<F, S, N>(
                    #[trigger] orders[i],
                    b,
                    narrow,
                ) is Ok && (forall|j: int|
                    i < j < n && orders[j].order_id == id ==> order_of::<F, S, N>(
                        #[trigger] orders[j],
                        b,
                        narrow,
                    ) is Err) ==> after.dom().contains(id) && after[id] == (
                    order_of::<F, S, N>(orders[i], b, narrow)->Ok_0,
                    true,
                )
        }),
    decreases n,
{
    if n > 0 {
        open_orders_are_kept_under_their_numbers::<F, S, N>(m, orders, b, narrow, n - 1, id);
    }
}

/// Where every operation of the number type is defined, every number can be cut, and every open
/// order can be read off.
pub proof fn every_open_order_can_be_read<F: Number, C: Fn(F) -> F>(
    x: F,
    bo: BinanceOrder<F>,
    orders: Seq<BinanceOrder<F>>,
    b: PairBalance<F>,
    p: F,
    trunc: C,
)
    requires
        num::total::<F>(),
    ensures
        six_defined(x, trunc),
        open_part_defined(bo, b, p),
        order_defined(bo, b),
        orders_defined(orders, b),
{
}

} // verus!
