//! Orders, and what they do to the amounts held when they are run over candles
//! of the past.
//!
//! `F` is the type of prices and amounts, `S` that of stop factors and fill
//! percentages.

use crate::data::{AssetData, Intv, Wick};
use crate::num;
use crate::num::Number;
use crate::time::Stamp;
use vstd::prelude::*;

verus! {

/// What became of an order at one candle.
#[derive(Debug, Clone, Copy, PartialEq, Eq, Structural)]
pub enum OrderCondition {
    Untouched,
    Filled,
    StopTriggered,
}

/// The kinds of orders.
#[derive(Debug, Clone, Copy, PartialEq, Eq, Structural)]
pub enum BasicOrderType {
    Market,
    Limit,
    StopLimit,
    StopMarket,
}

/// How far a limit order has been filled.
#[derive(Debug, Clone, Copy, PartialEq)]
pub enum LimitStatus<S> {
    Untouched,
    PartFilled { percent_fill: S },
    FullyFilled,
}

/// Whether a stop has been reached.
#[derive(Debug, Clone, Copy, PartialEq, Eq, Structural)]
pub enum StopStatus {
    Untouched,
    Triggered,
}

impl<S> Default for LimitStatus<S> {
    fn default() -> (r: LimitStatus<S>)
        ensures
            r == LimitStatus::<S>::Untouched,
    {
        LimitStatus::Untouched
    }
}

impl Default for StopStatus {
    fn default() -> (r: StopStatus)
        ensures
            r == StopStatus::Untouched,
    {
        StopStatus::Untouched
    }
}

/// The part of what is held that an order is to trade.
#[derive(Debug, Clone, Copy, PartialEq)]
pub enum Quant<F> {
    Q100,
    Q75,
    Q50,
    Q25,
    Q { q: F },
}

impl<F: Number> Quant<F> {
    /// The part as a number: all of it is one.
    pub open spec fn part(self) -> F {
        match self {
            Quant::Q100 => num::lit(1),
            Quant::Q75 => num::frac(3, 4),
            Quant::Q50 => num::frac(1, 2),
            Quant::Q25 => num::frac(1, 4),
            Quant::Q { q } => q,
        }
    }

    /// The part as a number.
    pub fn get_f64(&self) -> (r: F)
        requires
            num::lawful::<F>(),
        ensures
            r == self.part(),
    {
        match self {
            Quant::Q100 => num::whole(1),
            Quant::Q75 => num::fraction(3, 4),
            Quant::Q50 => num::fraction(1, 2),
            Quant::Q25 => num::fraction(1, 4),
            Quant::Q { q: qq } => *qq,
        }
    }

    /// The part `qq`.
    pub fn from_f64(qq: F) -> (r: Self)
        ensures
            r == (Quant::Q { q: qq }),
    {
        Quant::Q { q: qq }
    }

    /// What was made of a number gives that number back.
    pub proof fn part_of_number(qq: F)
        ensures
            (Quant::Q { q: qq }).part() == qq,
    {
    }
}

/// An order to trade the first asset of a pair against the second.
#[derive(Debug, Clone, Copy, PartialEq)]
pub enum Order<F, S> {
    Nothing,
    Market { buy: bool, quant: Quant<F> },
    Limit { buy: bool, quant: Quant<F>, price: F, limit_status: LimitStatus<S> },
    StopLimit {
        buy: bool,
        quant: Quant<F>,
        price: F,
        limit_status: LimitStatus<S>,
        stop_price: S,
        stop_status: StopStatus,
    },
    StopMarket { buy: bool, quant: Quant<F>, price: F, stop_status: StopStatus },
}

impl<F, S> Default for Order<F, S> {
    fn default() -> (r: Order<F, S>)
        ensures
            r == Order::<F, S>::Nothing,
    {
        Order::Nothing
    }
}

impl<F: Number, S: Copy> Order<F, S> {
    /// Whether the order buys.
    pub open spec fn buys(self) -> bool {
        match self {
            Order::Nothing => false,
            Order::Market { buy, .. } => buy,
            Order::Limit { buy, .. } => buy,
            Order::StopLimit { buy, .. } => buy,
            Order::StopMarket { buy, .. } => buy,
        }
    }

    /// The part of what is held that the order trades.
    pub open spec fn size(self) -> Quant<F> {
        match self {
            Order::Nothing => Quant::Q100,
            Order::Market { quant, .. } => quant,
            Order::Limit { quant, .. } => quant,
            Order::StopLimit { quant, .. } => quant,
            Order::StopMarket { quant, .. } => quant,
        }
    }

    /// Whether the order buys.
    pub fn get_side(&self) -> (r: bool)
        requires
            *self != Order::<F, S>::Nothing,
        ensures
            r == self.buys(),
    {
        match self {
            Order::Nothing => false,
            Order::Market { buy, .. } => *buy,
            Order::Limit { buy, .. } => *buy,
            Order::StopLimit { buy, .. } => *buy,
            Order::StopMarket { buy, .. } => *buy,
        }
    }

    /// `BUY` or `SELL`.
    pub fn get_side_str(&self) -> (r: String)
        requires
            *self != Order::<F, S>::Nothing,
        ensures
            r@ == (if self.buys() {
                "BUY"@
            } else {
                "SELL"@
            }),
    {
        if self.get_side() {
            "BUY".to_owned()
        } else {
            "SELL".to_owned()
        }
    }

    /// The part of what is held that the order trades, as a number.
    pub fn get_qnt(&self) -> (r: F)
        requires
            num::lawful::<F>(),
            *self != Order::<F, S>::Nothing,
        ensures
            r == self.size().part(),
    {
        match self {
            Order::Nothing => num::whole(1),
            Order::Market { quant, .. } => quant.get_f64(),
            Order::Limit { quant, .. } => quant.get_f64(),
            Order::StopLimit { quant, .. } => quant.get_f64(),
            Order::StopMarket { quant, .. } => quant.get_f64(),
        }
    }

    /// The price of the order; a market order has none, which is zero.
    pub fn get_price(&self) -> (r: F)
        requires
            num::lawful::<F>(),
            *self != Order::<F, S>::Nothing,
        ensures
            r == (match *self {
                Order::Limit { price, .. } => price,
                Order::StopLimit { price, .. } => price,
                Order::StopMarket { price, .. } => price,
                _ => num::lit(0),
            }),
    {
        match self {
            Order::Limit { price, .. } => *price,
            Order::StopLimit { price, .. } => *price,
            Order::StopMarket { price, .. } => *price,
            _ => num::whole(0),
        }
    }

    /// The kind of the order, for a person to read.
    pub fn to_str(&self) -> (r: String)
        ensures
            r@ == (match *self {
                Order::Nothing => ""@,
                Order::Market { .. } => "Market"@,
                Order::Limit { .. } => "Limit"@,
                Order::StopLimit { .. } => "Stop Limit"@,
                Order::StopMarket { .. } => "Stop Market"@,
            }),
    {
        match self {
            Order::Nothing => "".to_owned(),
            Order::Market { .. } => "Market".to_owned(),
            Order::Limit { .. } => "Limit".to_owned(),
            Order::StopLimit { .. } => "Stop Limit".to_owned(),
            Order::StopMarket { .. } => "Stop Market".to_owned(),
        }
    }
}

/// Orders made of more than one basic order.
#[derive(Debug, Clone, Copy)]
pub enum AdvOrder<F, S> {
    TrailingStop,
    OcoStopMarket {
        buy: bool,
        limit_price: F,
        stop_price: S,
        limit_stats: LimitStatus<S>,
        stop_status: StopStatus,
    },
    OcoStopLimit { buy: bool, limit1_price: F, stop_price: S, limit2_price: S },
}

/// The fee on every trade: 0.15 percent.
pub open spec fn fee<F: Number>() -> F {
    num::frac(15, 10_000)
}

/// What is left of `amount` after the part `quant` of it was traded and the fee
/// `fee` was paid: `amount * quant * (1 - fee)`.
pub open spec fn traded<F: Number>(amount: F, quant: F, fee: F) -> F {
    num::product(num::product(amount, quant), num::difference(num::lit(1), fee))
}

/// The amounts of the first and the second asset after a trade at the price `p`.
/// Buying turns the second asset into the first; of what was bought, the part
/// that was not to be traded is then worth `p` apiece in the second. Selling
/// goes the other way.
pub open spec fn after_trade<F: Number>(
    asset1: F,
    asset2: F,
    p: F,
    quant: F,
    buy: bool,
    fee: F,
) -> (F, F) {
    let rest = num::difference(num::lit(1), quant);
    if buy {
        let bought = traded(num::quotient(asset2, p), quant, fee);
        (bought, num::product(num::product(bought, p), rest))
    } else {
        let got = traded(num::product(asset1, p), quant, fee);
        (num::product(num::quotient(got, p), rest), got)
    }
}

/// Each operation that [`after_trade`] stands for is defined.
pub open spec fn tradable<F: Number>(
    asset1: F,
    asset2: F,
    p: F,
    quant: F,
    buy: bool,
    fee: F,
) -> bool {
    let one = num::lit::<F>(1);
    let after_fee = num::difference(one, fee);
    let rest = num::difference(one, quant);
    &&& num::subtracts(one, fee)
    &&& num::subtracts(one, quant)
    &&& if buy {
        let worth = num::quotient(asset2, p);
        let bought = traded(worth, quant, fee);
        &&& num::divides(asset2, p)
        &&& num::multiplies(worth, quant)
        &&& num::multiplies(num::product(worth, quant), after_fee)
        &&& num::multiplies(bought, p)
        &&& num::multiplies(num::product(bought, p), rest)
    } else {
        let worth = num::product(asset1, p);
        let got = traded(worth, quant, fee);
        &&& num::multiplies(asset1, p)
        &&& num::multiplies(worth, quant)
        &&& num::multiplies(num::product(worth, quant), after_fee)
        &&& num::divides(got, p)
        &&& num::multiplies(num::quotient(got, p), rest)
    }
}

/// The amounts held after a trade at the price `p`.
pub fn exec_order<F: Number>(
    asset1: F,
    asset2: F,
    p: F,
    quant: F,
    buy_sell: bool,
    fee: F,
) -> (r: (F, F))
    requires
        num::lawful::<F>(),
        tradable(asset1, asset2, p, quant, buy_sell, fee),
    ensures
        r == after_trade(asset1, asset2, p, quant, buy_sell, fee),
{
    let one: F = num::whole(1);
    if buy_sell {
        let asset1 = (asset2 / p) * quant * (one - fee);
        let asset2 = asset1 * p * (one - quant);
        (asset1, asset2)
    } else {
        let asset2 = (asset1 * p) * quant * (one - fee);
        let asset1 = (asset2 / p) * (one - quant);
        (asset1, asset2)
    }
}

/// The price at which a candle runs into a stop. One that opens above it does so
/// at its lowest price, one that opens on it there, one that opens below it at
/// its highest price, if they get that far.
pub open spec fn stop_hit<F: Number>(stop: F, h: F, o: F, l: F) -> Option<F> {
    if num::greater(o, stop) {
        if num::at_most(l, stop) {
            Some(l)
        } else {
            None
        }
    } else if num::equal(o, stop) {
        Some(o)
    } else if num::at_least(h, stop) {
        Some(h)
    } else {
        None
    }
}

/// The price at which a candle runs into a stop.
pub fn eval_stop<F: Number>(stop: F, h: F, o: F, _c: F, l: F) -> (r: Option<F>)
    requires
        num::lawful::<F>(),
    ensures
        r == stop_hit(stop, h, o, l),
{
    if o > stop {
        if l <= stop {
            return Some(l);
        } else {
            return None;
        }
    }
    if o == stop {
        Some(o)
    } else if h >= stop {
        Some(h)
    } else {
        None
    }
}

/// A candle reaches a limit: on its low side for a buyer, on its high side for a
/// seller.
pub open spec fn limit_hit<F: Number>(limit: F, h: F, l: F, buy: bool) -> bool {
    if buy {
        num::at_most(l, limit)
    } else {
        num::at_least(h, limit)
    }
}

/// The limit itself, where the candle reaches it.
pub fn eval_limit<F: Number>(
    limit: F,
    h: F,
    _o: F,
    _c: F,
    l: F,
    buy_sell: bool,
    _eval_mode: i32,
) -> (r: Option<F>)
    requires
        num::lawful::<F>(),
    ensures
        r == (if limit_hit(limit, h, l, buy_sell) {
            Some(limit)
        } else {
            None
        }),
{
    if buy_sell {
        if l <= limit {
            Some(limit)
        } else {
            None
        }
    } else {
        if h >= limit {
            Some(limit)
        } else {
            None
        }
    }
}

/// How a limit is held against a candle: by its highest and lowest price.
pub const EVAL_MODE: i32 = 1;

/// What a candle does to an order: the condition that the order is in then, and
/// the price at which the amounts change hands. Nothing where the candle does
/// not touch the order.
pub open spec fn touched<F: Number + From<S>, S: Copy>(
    h: F,
    o: F,
    l: F,
    order: Order<F, S>,
) -> Option<(OrderCondition, F)> {
    match order {
        Order::Nothing => None,
        Order::Market { .. } => Some((OrderCondition::Filled, o)),
        Order::Limit { buy, price, .. } => if limit_hit(price, h, l, buy) {
            Some((OrderCondition::Filled, price))
        } else {
            None
        },
        Order::StopLimit { buy, price, stop_price, .. } => {
            let stop = num::product(price, num::widened::<S, F>(stop_price));
            match stop_hit(stop, h, o, l) {
                Some(at) => if limit_hit(price, h, l, buy) {
                    Some((OrderCondition::Filled, price))
                } else {
                    Some((OrderCondition::StopTriggered, at))
                },
                None => None,
            }
        },
        Order::StopMarket { price, .. } => match stop_hit(price, h, o, l) {
            Some(at) => Some((OrderCondition::Filled, at)),
            None => None,
        },
    }
}

/// What a candle does to an order and to the amounts held: the condition, both
/// amounts, and the opening price of the candle.
pub open spec fn outcome<F: Number + From<S>, S: Copy>(
    h: F,
    o: F,
    l: F,
    asset1: F,
    asset2: F,
    order: Order<F, S>,
) -> Option<(OrderCondition, F, F, F)> {
    match touched(h, o, l, order) {
        Some((condition, at)) => {
            let (a1, a2) = after_trade(
                asset1,
                asset2,
                at,
                order.size().part(),
                order.buys(),
                fee(),
            );
            Some((condition, a1, a2, o))
        },
        None => None,
    }
}

/// Each operation that [`outcome`] stands for is defined.
pub open spec fn computes<F: Number + From<S>, S: Copy>(
    h: F,
    o: F,
    l: F,
    asset1: F,
    asset2: F,
    order: Order<F, S>,
) -> bool {
    &&& order matches Order::StopLimit { price, stop_price, .. } ==> num::multiplies(
        price,
        num::widened::<S, F>(stop_price),
    )
    &&& touched(h, o, l, order) matches Some((_, at)) ==> tradable(
        asset1,
        asset2,
        at,
        order.size().part(),
        order.buys(),
        fee(),
    )
}

/// Holds an order against one candle: the condition that the order is in then,
/// the amounts held then, and the opening price of the candle.
pub fn eval_order_basic<F: Number + From<S>, S: Copy>(
    h: F,
    o: F,
    c: F,
    l: F,
    asset1: F,
    asset2: F,
    order: Order<F, S>,
) -> (r: Option<(OrderCondition, F, F, F)>)
    requires
        num::lawful::<F>(),
        num::widens::<S, F>(),
        order != Order::<F, S>::Nothing,
        computes(h, o, l, asset1, asset2, order),
    ensures
        r == outcome(h, o, l, asset1, asset2, order),
{
    let fee: F = num::fraction(15, 10_000);
    let (condition, at) = match order {
        Order::Nothing => return None,
        Order::Market { .. } => (OrderCondition::Filled, o),
        Order::Limit { buy, price, .. } => {
            match eval_limit(price, h, o, c, l, buy, EVAL_MODE) {
                Some(at) => (OrderCondition::Filled, at),
                None => return None,
            }
        },
        Order::StopLimit { buy, price, stop_price, .. } => {
            let stop: F = price * F::from(stop_price);
            match eval_stop(stop, h, o, c, l) {
                Some(at) => match eval_limit(price, h, o, c, l, buy, EVAL_MODE) {
                    Some(limit) => (OrderCondition::Filled, limit),
                    None => (OrderCondition::StopTriggered, at),
                },
                None => return None,
            }
        },
        Order::StopMarket { price, .. } => {
            match eval_stop(price, h, o, c, l) {
                Some(at) => (OrderCondition::Filled, at),
                None => return None,
            }
        },
    };
    let quant = order.get_qnt();
    let buy = order.get_side();
    let (asset1, asset2) = exec_order(asset1, asset2, at, quant, buy, fee);
    Some((condition, asset1, asset2, o))
}

/// An order of this kind can be in this condition.
pub open spec fn can_be<F, S>(condition: OrderCondition, order: Order<F, S>) -> bool {
    match order {
        Order::Nothing => false,
        Order::Market { .. } => condition == OrderCondition::Filled,
        Order::Limit { .. } => condition != OrderCondition::StopTriggered,
        Order::StopLimit { .. } => true,
        Order::StopMarket { .. } => condition != OrderCondition::StopTriggered,
    }
}

/// What an order becomes in a condition: a stop limit whose stop was reached is
/// an untouched limit order from then on; any other order stays what it is.
pub open spec fn continued<F, S>(condition: OrderCondition, order: Order<F, S>) -> (
    OrderCondition,
    Order<F, S>,
) {
    match (condition, order) {
        (
            OrderCondition::StopTriggered,
            Order::StopLimit { buy, quant, price, limit_status, .. },
        ) => (OrderCondition::Untouched, Order::Limit { buy, quant, price, limit_status }),
        _ => (condition, order),
    }
}

/// What an order becomes in a condition.
pub fn eval_basic_condition<F: Copy, S: Copy>(
    condition: OrderCondition,
    order_type: Order<F, S>,
) -> (r: (OrderCondition, Order<F, S>))
    requires
        can_be(condition, order_type),
    ensures
        r == continued(condition, order_type),
{
    match order_type {
        Order::StopLimit { buy, quant, price, limit_status, .. } => match condition {
            OrderCondition::StopTriggered => (
                OrderCondition::Untouched,
                Order::Limit { buy, quant, price, limit_status },
            ),
            _ => (condition, order_type),
        },
        _ => (condition, order_type),
    }
}

/// The condition that a candle puts an order into is one that an order of its
/// kind can be in, and never the untouched one.
pub proof fn touched_can_be<F: Number + From<S>, S: Copy>(h: F, o: F, l: F, order: Order<F, S>)
    ensures
        touched(h, o, l, order) matches Some((condition, _)) ==> can_be(condition, order)
            && condition != OrderCondition::Untouched,
{
}

/// A market order fills at any candle, at its opening price.
pub proof fn market_order_fills<F: Number + From<S>, S: Copy>(
    h: F,
    o: F,
    l: F,
    buy: bool,
    quant: Quant<F>,
)
    ensures
        touched::<F, S>(h, o, l, Order::Market { buy, quant }) == Some((OrderCondition::Filled, o)),
{
}

/// A limit order that fills does so at its own price.
pub proof fn limit_order_fills_at_its_price<F: Number + From<S>, S: Copy>(
    h: F,
    o: F,
    l: F,
    order: Order<F, S>,
)
    ensures
        order matches Order::Limit { price, .. } ==> (touched(h, o, l, order) matches Some(
            (condition, at),
        ) ==> condition == OrderCondition::Filled && at == price),
{
}

/// Once its stop was reached, a stop limit trades as the limit order that it has
/// become: at the same price, on the same side, the same part.
pub proof fn triggered_stop_limit_is_a_limit<F: Number, S: Copy>(order: Order<F, S>)
    requires
        order is StopLimit,
    ensures
        continued(OrderCondition::StopTriggered, order).1 is Limit,
        continued(OrderCondition::StopTriggered, order).1.buys() == order.buys(),
        continued(OrderCondition::StopTriggered, order).1.size() == order.size(),
        (order matches Order::StopLimit { price, .. } ==> continued(
            OrderCondition::StopTriggered,
            order,
        ).1 matches Order::Limit { price: p, .. } && p == price),
{
}

/// The candle `k` fills the order.
pub open spec fn fills<F: Number + From<S>, S: Copy>(k: Wick<F>, order: Order<F, S>) -> bool {
    touched(k.2, k.1, k.3, order) matches Some((condition, _)) && condition
        == OrderCondition::Filled
}

/// What is left of an order that the candle `k` filled: when, and both amounts.
pub open spec fn filled_at<F: Number + From<S>, S: Copy>(
    k: Wick<F>,
    order: Order<F, S>,
    asset1: F,
    asset2: F,
) -> (Stamp, F, F, Order<F, S>) {
    let (_, a1, a2, _) = outcome(k.2, k.1, k.3, asset1, asset2, order)->0;
    (k.0, a1, a2, order)
}

/// Candle number `i` is the first that fills the order.
pub open spec fn first_fill<F: Number + From<S>, S: Copy>(
    kline: Seq<Wick<F>>,
    order: Order<F, S>,
    i: int,
) -> bool {
    &&& 0 <= i < kline.len()
    &&& fills(kline[i], order)
    &&& forall|j: int| 0 <= j < i ==> !fills(#[trigger] kline[j], order)
}

/// What running an order over candles comes to: nothing where no candle fills
/// it, else what the first one that does makes of it.
pub open spec fn run_over<F: Number + From<S>, S: Copy>(
    kline: Seq<Wick<F>>,
    order: Order<F, S>,
    asset1: F,
    asset2: F,
) -> Option<(Stamp, F, F, Order<F, S>)>
    decreases kline.len(),
{
    if kline.len() == 0 {
        None
    } else if fills(kline[0], order) {
        Some(filled_at(kline[0], order, asset1, asset2))
    } else {
        run_over(kline.drop_first(), order, asset1, asset2)
    }
}

/// Each operation that holding the order against a candle of `kline` takes is
/// defined.
pub open spec fn computes_over<F: Number + From<S>, S: Copy>(
    kline: Seq<Wick<F>>,
    order: Order<F, S>,
    asset1: F,
    asset2: F,
) -> bool {
    forall|i: int|
        0 <= i < kline.len() ==> {
            let k = #[trigger] kline[i];
            computes(k.2, k.1, k.3, asset1, asset2, order)
        }
}

/// Running an order over candles ends at the first one that fills it.
pub proof fn run_ends_at_first_fill<F: Number + From<S>, S: Copy>(
    kline: Seq<Wick<F>>,
    order: Order<F, S>,
    asset1: F,
    asset2: F,
    i: int,
)
    requires
        first_fill(kline, order, i),
    ensures
        run_over(kline, order, asset1, asset2) == Some(
            filled_at(kline[i], order, asset1, asset2),
        ),
    decreases i,
{
    if i > 0 {
        assert(!fills(kline[0], order));
        let rest = kline.drop_first();
        assert forall|j: int| 0 <= j < i - 1 implies !fills(#[trigger] rest[j], order) by {
            assert(rest[j] == kline[j + 1]);
        }
        run_ends_at_first_fill(rest, order, asset1, asset2, i - 1);
    }
}

/// Running an order over candles comes to nothing where none of them fills it.
pub proof fn run_without_fill<F: Number + From<S>, S: Copy>(
    kline: Seq<Wick<F>>,
    order: Order<F, S>,
    asset1: F,
    asset2: F,
)
    requires
        forall|i: int| 0 <= i < kline.len() ==> !fills(#[trigger] kline[i], order),
    ensures
        run_over(kline, order, asset1, asset2) is None,
    decreases kline.len(),
{
    if kline.len() > 0 {
        let rest = kline.drop_first();
        assert forall|i: int| 0 <= i < rest.len() implies !fills(#[trigger] rest[i], order) by {
            assert(rest[i] == kline[i + 1]);
        }
        run_without_fill(rest, order, asset1, asset2);
    }
}

/// What running an order over candles comes to: nothing exactly where none of them
/// fills it; else what the first one that does makes of it. Candles before that one
/// have no effect, though they reach its stop.
pub proof fn run_is_its_first_fill<F: Number + From<S>, S: Copy>(
    kline: Seq<Wick<F>>,
    order: Order<F, S>,
    asset1: F,
    asset2: F,
)
    ensures
        run_over(kline, order, asset1, asset2) is None <==> forall|i: int|
            0 <= i < kline.len() ==> !fills(#[trigger] kline[i], order),
        run_over(kline, order, asset1, asset2) matches Some(r) ==> exists|i: int|
            {
                &&& #[trigger] first_fill(kline, order, i)
                &&& outcome(
                    kline[i].2,
                    kline[i].1,
                    kline[i].3,
                    asset1,
                    asset2,
                    order,
                ) matches Some((condition, a1, a2, _)) && condition == OrderCondition::Filled && r
                    == (kline[i].0, a1, a2, order)
            },
    decreases kline.len(),
{
    if kline.len() > 0 {
        let rest = kline.drop_first();
        assert(forall|i: int| 0 <= i < rest.len() ==> rest[i] == kline[i + 1]);
        if fills(kline[0], order) {
            assert(first_fill(kline, order, 0));
        } else {
            run_is_its_first_fill(rest, order, asset1, asset2);
            if run_over(rest, order, asset1, asset2) is None {
                assert forall|i: int| 0 <= i < kline.len() implies !fills(
                    #[trigger] kline[i],
                    order,
                ) by {
                    if i > 0 {
                        assert(!fills(rest[i - 1], order));
                    }
                }
            } else {
                let i = choose|i: int| #[trigger] first_fill(rest, order, i);
                assert forall|j: int| 0 <= j < i + 1 implies !fills(#[trigger] kline[j], order) by {
                    if j > 0 {
                        assert(!fills(rest[j - 1], order));
                    }
                }
                assert(first_fill(kline, order, i + 1));
                run_ends_at_first_fill(kline, order, asset1, asset2, i + 1);
            }
        }
    }
}

/// Trading everything leaves nothing of the asset that is paid with, and none of
/// what was held of the other counts: buying gives `asset2 / p` less the fee, selling
/// `asset1 * p` less the fee.
pub proof fn trading_everything<F: Number>(asset1: F, asset2: F, p: F, fee: F)
    requires
        num::exact::<F>(),
    ensures
        after_trade(asset1, asset2, p, num::lit(1), true, fee) == (
            num::product(num::quotient(asset2, p), num::difference(num::lit(1), fee)),
            num::lit::<F>(0),
        ),
        after_trade(asset1, asset2, p, num::lit(1), false, fee) == (
            num::lit::<F>(0),
            num::product(num::product(asset1, p), num::difference(num::lit(1), fee)),
        ),
{
}

/// Buying for everything and selling all of it at the same price, without a fee,
/// gives the amount back, where the price divides it.
pub proof fn selling_back_gives_the_amount_back<F: Number>(asset1: F, asset2: F, p: F)
    requires
        num::exact::<F>(),
        num::product(num::quotient(asset2, p), p) == asset2,
    ensures
        ({
            let (a1, a2) = after_trade(asset1, asset2, p, num::lit(1), true, num::lit(0));
            after_trade(a1, a2, p, num::lit(1), false, num::lit(0)) == (num::lit::<F>(0), asset2)
        }),
{
    let zero = num::lit::<F>(0);
    let one = num::lit::<F>(1);
    trading_everything(asset1, asset2, p, zero);
    assert(num::difference(one, zero) == one) by {
        assert(num::sum(num::difference(one, zero), zero) == one);
    }
    trading_everything(num::quotient(asset2, p), zero, p, zero);
}

/// Runs an order over candles until one fills it: when that was, the amounts
/// held then, and the order.
pub fn hist_eval_kline<F: Number + From<S>, S: Copy>(
    kline: &[Wick<F>],
    order: Order<F, S>,
    asset1: F,
    asset2: F,
) -> (r: Option<(Stamp, F, F, Order<F, S>)>)
    requires
        num::lawful::<F>(),
        num::widens::<S, F>(),
        order != Order::<F, S>::Nothing,
        computes_over(kline@, order, asset1, asset2),
    ensures
        r == run_over(kline@, order, asset1, asset2),
{
    let mut i: usize = 0;
    while i < kline.len()
        invariant
            i <= kline@.len(),
            num::lawful::<F>(),
            num::widens::<S, F>(),
            order != Order::<F, S>::Nothing,
            computes_over(kline@, order, asset1, asset2),
            forall|j: int| 0 <= j < i ==> !fills(#[trigger] kline@[j], order),
        decreases kline@.len() - i,
    {
        let (t, o, h, l, c, _) = kline[i];
        assert(computes(kline@[i as int].2, kline@[i as int].1, kline@[i as int].3, asset1, asset2, order));
        match eval_order_basic(h, o, c, l, asset1, asset2, order) {
            Some((condition, a1, a2, _)) => {
                proof {
                    touched_can_be(h, o, l, order);
                }
                let (condition, order_next) = eval_basic_condition(condition, order);
                match condition {
                    OrderCondition::Untouched => {},
                    _ => {
                        proof {
                            assert(first_fill(kline@, order, i as int));
                            run_ends_at_first_fill(kline@, order, asset1, asset2, i as int);
                        }
                        return Some((t, a1, a2, order_next));
                    },
                }
            },
            None => {},
        }
        i += 1;
    }
    proof {
        run_without_fill(kline@, order, asset1, asset2);
    }
    None
}

/// What was held when an order was filled.
#[derive(Debug, Clone, Copy, PartialEq)]
pub struct TradeRecord<F> {
    pub transaction_time: Stamp,
    pub trades_made: i32,
    pub asset1_held: bool,
    pub asset1: F,
    pub asset2: F,
    pub last_asset1: F,
    pub last_asset2: F,
    pub ch1: F,
    pub ch2: F,
}

impl<F: Number> TradeRecord<F> {
    /// Nothing traded, at the start of 1970.
    pub fn new() -> (r: Self)
        requires
            num::lawful::<F>(),
        ensures
            r == (TradeRecord {
                transaction_time: Stamp { ms: 0 },
                trades_made: 0,
                asset1_held: false,
                asset1: num::lit::<F>(0),
                asset2: num::lit::<F>(0),
                last_asset1: num::lit::<F>(0),
                last_asset2: num::lit::<F>(0),
                ch1: num::lit::<F>(0),
                ch2: num::lit::<F>(0),
            }),
    {
        let zero: F = num::whole(0);
        TradeRecord {
            transaction_time: Stamp::epoch(),
            trades_made: 0,
            asset1_held: false,
            asset1: zero,
            asset2: zero,
            last_asset1: zero,
            last_asset2: zero,
            ch1: zero,
            ch2: zero,
        }
    }
}

/// What running orders comes to: the amounts held, what was recorded, and the
/// orders that are still open.
pub struct OrdersRun<F, S> {
    pub asset1: F,
    pub asset2: F,
    pub trade_record: Seq<TradeRecord<F>>,
    pub remaining: Seq<(u64, Order<F, S>)>,
}

/// A run of trades over candles of the past.
#[derive(Debug)]
pub struct HistTrade<F, S> {
    pub asset_pair: String,
    pub asset1: F,
    pub asset2: F,
    pub last_ch_a1: S,
    pub last_ch_a2: S,
    pub trades_made: i32,
    pub asset1_held: bool,
    pub last_asset1: F,
    pub last_asset2: F,
    pub ch1: F,
    pub ch2: F,
    pub start_time: i64,
    pub trade_time: i64,
    pub current_intv: Intv,
    pub trade_record: Vec<TradeRecord<F>>,
    pub current_data_end_index: usize,
    pub current_index: usize,
    pub current_order: Option<Order<F, S>>,
    /// Where buys and sells are marked on the chart: the place on the time axis, and
    /// the price.
    pub buy_points: Vec<(i64, F)>,
    pub sell_points: Vec<(i64, F)>,
}

impl<F: Number + From<S>, S: Number> HistTrade<F, S> {
    /// The state before any trade: ten thousand of the first asset, nothing of
    /// the second, no order.
    pub open spec fn fresh(&self) -> bool {
        let zero = num::lit::<F>(0);
        &&& self.asset1 == num::lit::<F>(10_000)
        &&& self.asset2 == zero
        &&& self.last_ch_a1 == num::lit::<S>(0)
        &&& self.last_ch_a2 == num::lit::<S>(0)
        &&& self.trades_made == 0
        &&& !self.asset1_held
        &&& self.last_asset1 == zero
        &&& self.last_asset2 == zero
        &&& self.ch1 == zero
        &&& self.ch2 == zero
        &&& self.trade_time == 0
        &&& self.current_intv == Intv::Min15
        &&& self.trade_record@.len() == 0
        &&& self.current_data_end_index == 0
        &&& self.current_index == 0
        &&& self.current_order is None
        &&& self.buy_points@.len() == 0
        &&& self.sell_points@.len() == 0
    }

    /// A run for the pair BTCUSDT from the start of 1970 on.
    pub fn new() -> (r: Self)
        requires
            num::lawful::<F>(),
            num::lawful::<S>(),
        ensures
            r.fresh(),
            r.asset_pair@ == "BTCUSDT"@,
            r.start_time == 0,
    {
        HistTrade::start("BTCUSDT".to_owned(), 0)
    }

    /// A run for the pair `asset_pair` from `start_time` on.
    pub fn start(asset_pair: String, start_time: i64) -> (r: Self)
        requires
            num::lawful::<F>(),
            num::lawful::<S>(),
        ensures
            r.fresh(),
            r.asset_pair@ == asset_pair@,
            r.start_time == start_time,
    {
        let zero: F = num::whole(0);
        HistTrade {
            asset_pair,
            asset1: num::whole(10_000),
            asset2: zero,
            last_ch_a1: num::whole(0),
            last_ch_a2: num::whole(0),
            trades_made: 0,
            asset1_held: false,
            last_asset1: zero,
            last_asset2: zero,
            ch1: zero,
            ch2: zero,
            start_time,
            trade_time: 0,
            current_intv: Intv::Min15,
            trade_record: Vec::new(),
            current_data_end_index: 0,
            current_index: 0,
            current_order: None,
            buy_points: Vec::new(),
            sell_points: Vec::new(),
        }
    }

    /// Everything but the order is as in `before`.
    pub open spec fn same_but_order(&self, before: &Self) -> bool {
        &&& self.same_but_trade(before)
        &&& self.asset1 == before.asset1
        &&& self.asset2 == before.asset2
        &&& self.trade_record == before.trade_record
    }

    /// Everything but the order, the amounts and the record is as in `before`.
    pub open spec fn same_but_trade(&self, before: &Self) -> bool {
        &&& self.asset_pair == before.asset_pair
        &&& self.last_ch_a1 == before.last_ch_a1
        &&& self.last_ch_a2 == before.last_ch_a2
        &&& self.trades_made == before.trades_made
        &&& self.asset1_held == before.asset1_held
        &&& self.last_asset1 == before.last_asset1
        &&& self.last_asset2 == before.last_asset2
        &&& self.ch1 == before.ch1
        &&& self.ch2 == before.ch2
        &&& self.start_time == before.start_time
        &&& self.trade_time == before.trade_time
        &&& self.current_intv == before.current_intv
        &&& self.current_data_end_index == before.current_data_end_index
        &&& self.current_index == before.current_index
        &&& self.buy_points == before.buy_points
        &&& self.sell_points == before.sell_points
    }

    /// Makes `order` the order to run.
    pub fn place_order(&mut self, order: &Order<F, S>)
        ensures
            final(self).current_order == Some(*order),
            final(self).same_but_order(old(self)),
    {
        self.current_order = Some(*order);
    }

    /// The candles that the next run of `next_wicks` goes over; nothing where
    /// none is loaded.
    pub open spec fn next_slice(&self, asset_data: &AssetData<F>, next_wicks: u16) -> Option<
        Seq<Wick<F>>,
    > {
        let pair = self.asset_pair@;
        if asset_data.loaded(pair, self.current_intv) && asset_data.wicks(
            pair,
            self.current_intv,
        ).len() > 0 {
            let k = asset_data.wicks(pair, self.current_intv);
            let from = crate::data::wick_offset(k[0].0.ms);
            Some(k.subrange(from, from + next_wicks))
        } else {
            None
        }
    }

    /// What the next run of `next_wicks` candles comes to; nothing where there
    /// are no candles, no order, or no candle that fills it.
    pub open spec fn next_fill(&self, asset_data: &AssetData<F>, next_wicks: u16) -> Option<
        (Stamp, F, F, Order<F, S>),
    > {
        match (self.next_slice(asset_data, next_wicks), self.current_order) {
            (Some(k), Some(order)) => run_over(k, order, self.asset1, self.asset2),
            _ => None,
        }
    }

    /// The record of what is held now, for a trade at `at`.
    pub open spec fn recorded(&self, at: Stamp) -> TradeRecord<F> {
        TradeRecord {
            transaction_time: at,
            trades_made: self.trades_made,
            asset1_held: self.asset1_held,
            asset1: self.asset1,
            asset2: self.asset2,
            last_asset1: self.last_asset1,
            last_asset2: self.last_asset2,
            ch1: self.ch1,
            ch2: self.ch1,
        }
    }

    /// Runs the order over the next `next_wicks` candles. Where one fills it, the
    /// amounts held until then are recorded and the new ones take their place;
    /// else nothing changes.
    pub fn trade_forward(&mut self, asset_data: &AssetData<F>, next_wicks: u16)
        requires
            num::lawful::<F>(),
            num::widens::<S, F>(),
            asset_data.wf(),
            asset_data.reaches(
                old(self).asset_pair@,
                old(self).current_intv,
                old(self).trade_time,
                next_wicks,
            ),
            (old(self).next_slice(asset_data, next_wicks), old(self).current_order) matches (
                Some(k),
                Some(order),
            ) ==> order != Order::<F, S>::Nothing && computes_over(
                k,
                order,
                old(self).asset1,
                old(self).asset2,
            ),
        ensures
            match old(self).next_fill(asset_data, next_wicks) {
                Some((at, a1, a2, order)) => {
                    &&& final(self).asset1 == a1
                    &&& final(self).asset2 == a2
                    &&& final(self).current_order == Some(order)
                    &&& final(self).trade_record@ == old(self).trade_record@.push(
                        old(self).recorded(at),
                    )
                    &&& final(self).same_but_trade(old(self))
                },
                None => {
                    &&& final(self).current_order == old(self).current_order
                    &&& final(self).same_but_order(old(self))
                },
            },
    {
        let slice = asset_data.find_slice_n(
            self.asset_pair.as_str(),
            &self.current_intv,
            &self.trade_time,
            next_wicks,
        );
        if let (Some(ts), Some(order)) = (slice, self.current_order) {
            match hist_eval_kline(ts, order, self.asset1, self.asset2) {
                Some((transaction_time, asset1, asset2, order)) => {
                    let record = TradeRecord {
                        transaction_time,
                        trades_made: self.trades_made,
                        asset1_held: self.asset1_held,
                        asset1: self.asset1,
                        asset2: self.asset2,
                        last_asset1: self.last_asset1,
                        last_asset2: self.last_asset2,
                        ch1: self.ch1,
                        ch2: self.ch1,
                    };
                    self.trade_record.push(record);
                    self.asset1 = asset1;
                    self.asset2 = asset2;
                    self.current_order = Some(order);
                },
                None => {},
            }
        }
    }

    /// What running the first `n` of the orders `active` over the candles `k` comes
    /// to, one after the other.
    pub open spec fn ran(
        &self,
        k: Seq<Wick<F>>,
        active: Seq<(u64, Order<F, S>)>,
        n: int,
    ) -> OrdersRun<F, S>
        decreases n,
    {
        if n <= 0 {
            OrdersRun {
                asset1: self.asset1,
                asset2: self.asset2,
                trade_record: self.trade_record@,
                remaining: Seq::empty(),
            }
        } else {
            let before = self.ran(k, active, n - 1);
            match run_over(k, active[n - 1].1, before.asset1, before.asset2) {
                Some((at, a1, a2, _)) => OrdersRun {
                    asset1: a1,
                    asset2: a2,
                    trade_record: before.trade_record.push(
                        TradeRecord {
                            asset1: before.asset1,
                            asset2: before.asset2,
                            ..self.recorded(at)
                        },
                    ),
                    remaining: before.remaining,
                },
                None => OrdersRun { remaining: before.remaining.push(active[n - 1]), ..before },
            }
        }
    }

    /// Each operation that running the orders takes is defined, and each is one.
    pub open spec fn runs(&self, k: Seq<Wick<F>>, active: Seq<(u64, Order<F, S>)>) -> bool {
        forall|i: int|
            0 <= i < active.len() ==> {
                let o = (#[trigger] active[i]).1;
                let before = self.ran(k, active, i);
                o != Order::<F, S>::Nothing && computes_over(k, o, before.asset1, before.asset2)
            }
    }

    /// Runs the orders `active` over the candles `k`, one after the other. Each one
    /// that is filled is recorded with the amounts held until then, and the new
    /// ones take their place. Hands out those that are not.
    pub fn run_orders(&mut self, k: &[Wick<F>], active: &Vec<(u64, Order<F, S>)>) -> (r: Vec<
        (u64, Order<F, S>),
    >)
        requires
            num::lawful::<F>(),
            num::widens::<S, F>(),
            old(self).runs(k@, active@),
        ensures
            ({
                let run = old(self).ran(k@, active@, active@.len() as int);
                &&& final(self).asset1 == run.asset1
                &&& final(self).asset2 == run.asset2
                &&& final(self).trade_record@ == run.trade_record
                &&& r@ == run.remaining
            }),
            final(self).current_order == old(self).current_order,
            final(self).same_but_trade(old(self)),
    {
        let mut remaining: Vec<(u64, Order<F, S>)> = Vec::new();
        let mut i: usize = 0;
        assert(remaining@ =~= old(self).ran(k@, active@, 0).remaining);
        while i < active.len()
            invariant
                num::lawful::<F>(),
                num::widens::<S, F>(),
                old(self).runs(k@, active@),
                i <= active@.len(),
                self.asset1 == old(self).ran(k@, active@, i as int).asset1,
                self.asset2 == old(self).ran(k@, active@, i as int).asset2,
                self.trade_record@ == old(self).ran(k@, active@, i as int).trade_record,
                remaining@ == old(self).ran(k@, active@, i as int).remaining,
                self.current_order == old(self).current_order,
                self.same_but_trade(old(self)),
            decreases active@.len() - i,
        {
            let (id, order) = active[i];
            assert(active@[i as int].1 == order);
            match hist_eval_kline(k, order, self.asset1, self.asset2) {
                Some((transaction_time, asset1, asset2, _)) => {
                    let record = TradeRecord {
                        transaction_time,
                        trades_made: self.trades_made,
                        asset1_held: self.asset1_held,
                        asset1: self.asset1,
                        asset2: self.asset2,
                        last_asset1: self.last_asset1,
                        last_asset2: self.last_asset2,
                        ch1: self.ch1,
                        ch2: self.ch1,
                    };
                    self.trade_record.push(record);
                    self.asset1 = asset1;
                    self.asset2 = asset2;
                },
                None => {
                    remaining.push((id, order));
                },
            }
            i += 1;
        }
        remaining
    }

    /// By how many percent `now` differs from `last`.
    pub open spec fn percent(now: F, last: F) -> F {
        num::product(
            num::lit(100),
            num::difference(num::quotient(now, last), num::lit(1)),
        )
    }

    /// Each operation that [`HistTrade::percent`] stands for is defined.
    pub open spec fn percent_defined(now: F, last: F) -> bool {
        let q = num::quotient(now, last);
        let one = num::lit::<F>(1);
        &&& num::divides(now, last)
        &&& num::subtracts(q, one)
        &&& num::multiplies(num::lit(100), num::difference(q, one))
    }

    /// From the second trade on, takes the change of the amount of the asset
    /// held, in percent, and remembers that amount. An amount of zero is passed
    /// over.
    pub fn calculate_change(&mut self)
        requires
            num::lawful::<F>(),
            old(self).trades_made < i32::MAX,
            old(self).trades_made > 0 ==> {
                if old(self).asset1_held {
                    !num::equal(old(self).asset1, num::lit(0)) ==> Self::percent_defined(
                        old(self).asset1,
                        old(self).last_asset1,
                    )
                } else {
                    !num::equal(old(self).asset2, num::lit(0)) ==> Self::percent_defined(
                        old(self).asset2,
                        old(self).last_asset2,
                    )
                }
            },
        ensures
            final(self).trades_made == old(self).trades_made + 1,
            ({
                let b = *old(self);
                let a = *final(self);
                let zero = num::lit::<F>(0);
                let counts = b.trades_made > 0;
                let first = counts && b.asset1_held && !num::equal(b.asset1, zero);
                let second = counts && !b.asset1_held && !num::equal(b.asset2, zero);
                &&& a.last_asset1 == (if first {
                    b.asset1
                } else {
                    b.last_asset1
                })
                &&& a.last_asset2 == (if second {
                    b.asset2
                } else {
                    b.last_asset2
                })
                &&& a.ch2 == (if first {
                    Self::percent(b.asset1, b.last_asset1)
                } else if second {
                    Self::percent(b.asset2, b.last_asset2)
                } else {
                    b.ch2
                })
            }),
            final(self).ch1 == old(self).ch1,
            final(self).asset1 == old(self).asset1,
            final(self).asset2 == old(self).asset2,
            final(self).current_order == old(self).current_order,
            final(self).trade_record == old(self).trade_record,
            final(self).asset1_held == old(self).asset1_held,
            final(self).asset_pair == old(self).asset_pair,
            final(self).trade_time == old(self).trade_time,
            final(self).start_time == old(self).start_time,
            final(self).current_intv == old(self).current_intv,
            final(self).last_ch_a1 == old(self).last_ch_a1,
            final(self).last_ch_a2 == old(self).last_ch_a2,
            final(self).current_data_end_index == old(self).current_data_end_index,
            final(self).current_index == old(self).current_index,
            final(self).buy_points == old(self).buy_points,
            final(self).sell_points == old(self).sell_points,
    {
        let zero: F = num::whole(0);
        let one: F = num::whole(1);
        let hundred: F = num::whole(100);
        self.trades_made = self.trades_made + 1;
        if self.trades_made > 1 {
            if !self.asset1_held {
                if self.asset2 == zero {
                } else {
                    let c = (self.asset2 / self.last_asset2) - one;
                    self.ch2 = hundred * c;
                    self.last_asset2 = self.asset2;
                }
            } else {
                if self.asset1 == zero {
                } else {
                    let c = (self.asset1 / self.last_asset1) - one;
                    self.ch2 = hundred * c;
                    self.last_asset1 = self.asset1;
                }
            }
        }
    }
}

/// Of the orders that are run, each one either stays open or is recorded once.
pub proof fn each_order_fills_or_stays<F: Number + From<S>, S: Number>(
    h: HistTrade<F, S>,
    k: Seq<Wick<F>>,
    active: Seq<(u64, Order<F, S>)>,
    n: int,
)
    requires
        0 <= n <= active.len(),
    ensures
        h.ran(k, active, n).remaining.len() + h.ran(k, active, n).trade_record.len() == n
            + h.trade_record@.len(),
    decreases n,
{
    if n > 0 {
        each_order_fills_or_stays(h, k, active, n - 1);
    }
}

/// Where no candle fills any of the orders, all of them stay open and the amounts
/// held stay as they are.
pub proof fn unfilled_orders_change_nothing<F: Number + From<S>, S: Number>(
    h: HistTrade<F, S>,
    k: Seq<Wick<F>>,
    active: Seq<(u64, Order<F, S>)>,
    n: int,
)
    requires
        0 <= n <= active.len(),
        forall|i: int, j: int|
            0 <= i < n && 0 <= j < k.len() ==> !fills(#[trigger] k[j], (#[trigger] active[i]).1),
    ensures
        h.ran(k, active, n) == (OrdersRun {
            asset1: h.asset1,
            asset2: h.asset2,
            trade_record: h.trade_record@,
            remaining: active.take(n),
        }),
    decreases n,
{
    if n > 0 {
        unfilled_orders_change_nothing(h, k, active, n - 1);
        let o = active[n - 1].1;
        assert forall|j: int| 0 <= j < k.len() implies !fills(#[trigger] k[j], o) by {
            assert(!fills(k[j], active[n - 1].1));
        }
        run_without_fill(k, o, h.asset1, h.asset2);
        assert(active.take(n) =~= active.take(n - 1).push(active[n - 1]));
    } else {
        assert(active.take(0) =~= Seq::empty());
    }
}

/// All of what is held is one, and the other parts are three quarters, a half and a
/// quarter of it.
pub proof fn parts_are_quarters<F: Number>()
    ensures
        Quant::<F>::Q100.part() == num::lit::<F>(1),
        Quant::<F>::Q75.part() == num::quotient(num::lit::<F>(3), num::lit(4)),
        Quant::<F>::Q50.part() == num::quotient(Quant::<F>::Q100.part(), num::lit(2)),
        Quant::<F>::Q25.part() == num::quotient(Quant::<F>::Q100.part(), num::lit(4)),
{
}

/// The side and the size of an order are those that it was made with.
pub proof fn side_and_size_are_those_given<F: Number, S: Copy>(o: Order<F, S>)
    ensures
        o matches Order::Market { buy, quant } ==> o.buys() == buy && o.size() == quant,
        o matches Order::Limit { buy, quant, .. } ==> o.buys() == buy && o.size() == quant,
        o matches Order::StopLimit { buy, quant, .. } ==> o.buys() == buy && o.size() == quant,
        o matches Order::StopMarket { buy, quant, .. } ==> o.buys() == buy && o.size() == quant,
{
}

/// A sale gives the price for the part that is sold, less the fee. Of the first asset
/// it leaves what the received amount buys back at that price, times the part that was
/// not to be sold. What was held of the second asset does not count.
pub proof fn sale_leaves_the_unsold_part<F: Number>(
    asset1: F,
    asset2: F,
    other: F,
    p: F,
    q: F,
    fee: F,
)
    ensures
        ({
            let (left, got) = after_trade(asset1, asset2, p, q, false, fee);
            let one = num::lit::<F>(1);
            &&& left == num::product(num::quotient(got, p), num::difference(one, q))
            &&& got == num::product(
                num::product(num::product(asset1, p), q),
                num::difference(one, fee),
            )
            &&& after_trade(asset1, other, p, q, false, fee) == (left, got)
        }),
{
}

/// A sale of a part other than all, from which something was received, leaves some of
/// the first asset, as long as no two of the numbers in play multiply to zero.
pub proof fn partial_sale_leaves_something<F: Number>(asset1: F, asset2: F, p: F, q: F, fee: F)
    requires
        ({
            let got = after_trade(asset1, asset2, p, q, false, fee).1;
            let apiece = num::quotient(got, p);
            let rest = num::difference(num::lit(1), q);
            let zero = num::lit::<F>(0);
            apiece != zero && rest != zero ==> num::product(apiece, rest) != zero
        }),
        num::difference(num::lit(1), q) != num::lit::<F>(0),
        num::quotient(after_trade(asset1, asset2, p, q, false, fee).1, p) != num::lit::<F>(0),
    ensures
        after_trade(asset1, asset2, p, q, false, fee).0 != num::lit::<F>(0),
{
}

/// A purchase gives what the part of the second asset that is spent buys at the price,
/// less the fee. Of the second asset it leaves what the bought amount is worth, times
/// the part that was not to be spent. What was held of the first asset does not count.
pub proof fn purchase_leaves_the_unspent_part<F: Number>(
    asset1: F,
    other: F,
    asset2: F,
    p: F,
    q: F,
    fee: F,
)
    ensures
        ({
            let (bought, left) = after_trade(asset1, asset2, p, q, true, fee);
            let one = num::lit::<F>(1);
            &&& left == num::product(num::product(bought, p), num::difference(one, q))
            &&& bought == num::product(
                num::product(num::quotient(asset2, p), q),
                num::difference(one, fee),
            )
            &&& after_trade(other, asset2, p, q, true, fee) == (bought, left)
        }),
{
}

/// On whole numbers, without a fee: spending all of the second asset buys as often as
/// the price goes into it, and selling all of the first gives the price for each.
pub proof fn whole_trades(asset1: u64, asset2: u64, p: u64)
    requires
        p > 0,
        asset1 * p <= u64::MAX,
    ensures
        after_trade(asset1, asset2, p, 1u64, true, 0u64).0 == asset2 / p,
        after_trade(asset1, asset2, p, 1u64, true, 0u64).1 == 0,
        after_trade(asset1, asset2, p, 1u64, false, 0u64).1 == asset1 * p,
        after_trade(asset1, asset2, p, 1u64, false, 0u64).0 == 0,
{
    num::unsigned_constants(1, 1, 0);
    num::unsigned_constants(0, 1, 0);
    num::unsigned_compute(1, 0);
    num::unsigned_compute(1, 1);
    num::unsigned_compute(asset2, p);
    num::unsigned_compute((asset2 / p) as u64, 1);
    num::unsigned_compute(asset1, p);
    num::unsigned_compute((asset1 * p) as u64, 1);
}

/// The fee is fifteen parts in ten thousand.
pub proof fn fee_is_fifteen_in_ten_thousand<F: Number>()
    ensures
        fee::<F>() == num::quotient(num::lit::<F>(15), num::lit(10_000)),
{
}

/// A candle whose opening price lies between its lowest and its highest runs into a
/// stop exactly where that lies between them too: at its lowest price from above, at
/// its highest from below, and at its opening price where it opens on the stop.
pub proof fn stop_is_hit_within_the_candle(stop: u64, h: u64, o: u64, l: u64)
    requires
        l <= o <= h,
    ensures
        stop_hit(stop, h, o, l) is Some <==> l <= stop <= h,
        l <= stop < o ==> stop_hit(stop, h, o, l) == Some(l),
        stop == o ==> stop_hit(stop, h, o, l) == Some(o),
        o < stop <= h ==> stop_hit(stop, h, o, l) == Some(h),
{
    num::unsigned_compare(o, stop);
    num::unsigned_compare(l, stop);
    num::unsigned_compare(h, stop);
}

/// Which side of the candle a stop is held against follows from where the candle
/// opens: the other side does not count.
pub proof fn stop_is_held_against_one_side<F: Number>(stop: F, h: F, g: F, o: F, l: F, m: F)
    ensures
        num::greater(o, stop) ==> stop_hit(stop, h, o, l) == stop_hit(stop, g, o, l) && (stop_hit(
            stop,
            h,
            o,
            l,
        ) == Some(l) <==> num::at_most(l, stop)) && (stop_hit(stop, h, o, l) is None
            <==> !num::at_most(l, stop)),
        !num::greater(o, stop) && num::equal(o, stop) ==> stop_hit(stop, h, o, l) == Some(o),
        !num::greater(o, stop) && !num::equal(o, stop) ==> stop_hit(stop, h, o, l) == stop_hit(
            stop,
            h,
            o,
            m,
        ) && (stop_hit(stop, h, o, l) == Some(h) <==> num::at_least(h, stop)) && (stop_hit(
            stop,
            h,
            o,
            l,
        ) is None <==> !num::at_least(h, stop)),
{
}

/// A candle reaches the limit of a buyer where it goes down to it, and that of a seller
/// where it goes up to it.
pub proof fn limit_is_reached_on_its_side(limit: u64, h: u64, l: u64)
    ensures
        limit_hit(limit, h, l, true) <==> l <= limit,
        limit_hit(limit, h, l, false) <==> h >= limit,
{
    num::unsigned_compare(l, limit);
    num::unsigned_compare(h, limit);
}

/// A limit order fills at its own price, at exactly the candles that reach its limit on
/// its side.
pub proof fn limit_order_fills_where_reached<F: Number + From<S>, S: Copy>(
    k: Wick<F>,
    buy: bool,
    quant: Quant<F>,
    price: F,
    limit_status: LimitStatus<S>,
)
    ensures
        ({
            let o: Order<F, S> = Order::Limit { buy, quant, price, limit_status };
            let reached = if buy {
                num::at_most(k.3, price)
            } else {
                num::at_least(k.2, price)
            };
            &&& fills(k, o) <==> reached
            &&& !reached ==> touched(k.2, k.1, k.3, o) is None
            &&& reached ==> touched(k.2, k.1, k.3, o) == Some((OrderCondition::Filled, price))
        }),
{
}

/// A market order fills at every candle, at the price at which it opens.
pub proof fn market_order_fills_at_every_candle<F: Number + From<S>, S: Copy>(
    k: Wick<F>,
    buy: bool,
    quant: Quant<F>,
)
    ensures
        fills::<F, S>(k, Order::Market { buy, quant }),
        touched::<F, S>(k.2, k.1, k.3, Order::Market { buy, quant }) == Some(
            (OrderCondition::Filled, k.1),
        ),
{
}

/// A stop market order fills at exactly the candles that run into its stop, at the price
/// at which they do, whichever side it is on.
pub proof fn stop_market_fills_at_its_stop<F: Number + From<S>, S: Copy>(
    k: Wick<F>,
    buy: bool,
    quant: Quant<F>,
    price: F,
    stop_status: StopStatus,
)
    ensures
        ({
            let o: Order<F, S> = Order::StopMarket { buy, quant, price, stop_status };
            &&& fills(k, o) <==> stop_hit(price, k.2, k.1, k.3) is Some
            &&& stop_hit(price, k.2, k.1, k.3) matches Some(at) ==> touched(k.2, k.1, k.3, o)
                == Some((OrderCondition::Filled, at))
            &&& stop_hit(price, k.2, k.1, k.3) is None ==> touched(k.2, k.1, k.3, o) is None
        }),
{
}

/// A stop limit is left alone by a candle that does not run into its stop, which lies at
/// its price times the stop factor. One that does fills it at its price where it reaches
/// the limit too, and else triggers it at the price at which it ran into the stop.
pub proof fn stop_limit_needs_its_stop<F: Number + From<S>, S: Copy>(
    k: Wick<F>,
    buy: bool,
    quant: Quant<F>,
    price: F,
    limit_status: LimitStatus<S>,
    stop_price: S,
    stop_status: StopStatus,
)
    ensures
        ({
            let o: Order<F, S> = Order::StopLimit {
                buy,
                quant,
                price,
                limit_status,
                stop_price,
                stop_status,
            };
            let stop = num::product(price, num::widened::<S, F>(stop_price));
            let reached = if buy {
                num::at_most(k.3, price)
            } else {
                num::at_least(k.2, price)
            };
            let t = touched(k.2, k.1, k.3, o);
            &&& t is None <==> stop_hit(stop, k.2, k.1, k.3) is None
            &&& fills(k, o) <==> stop_hit(stop, k.2, k.1, k.3) is Some && reached
            &&& fills(k, o) ==> t == Some((OrderCondition::Filled, price))
            &&& stop_hit(stop, k.2, k.1, k.3) matches Some(at) ==> !reached ==> t == Some(
                (OrderCondition::StopTriggered, at),
            )
        }),
{
}

/// No candle touches what is no order.
pub proof fn nothing_is_not_touched<F: Number + From<S>, S: Copy>(k: Wick<F>)
    ensures
        touched::<F, S>(k.2, k.1, k.3, Order::Nothing) is None,
        !fills::<F, S>(k, Order::Nothing),
{
}

/// A candle that touches an order trades the part of the order, on its side, at the
/// price at which it touches it, for the fee. Its opening price comes along. One that
/// does not touch it has no outcome.
pub proof fn outcome_is_the_trade_of_the_order<F: Number + From<S>, S: Copy>(
    h: F,
    o: F,
    l: F,
    asset1: F,
    asset2: F,
    order: Order<F, S>,
)
    ensures
        outcome(h, o, l, asset1, asset2, order) is None <==> touched(h, o, l, order) is None,
        (outcome(h, o, l, asset1, asset2, order), touched(h, o, l, order)) matches (
            Some((condition, a1, a2, open)),
            Some((c, at)),
        ) ==> {
            let q = order.size().part();
            let one = num::lit::<F>(1);
            let kept = num::difference(one, num::quotient(num::lit(15), num::lit(10_000)));
            let rest = num::difference(one, q);
            &&& condition == c
            &&& open == o
            &&& order.buys() ==> a1 == num::product(
                num::product(num::quotient(asset2, at), q),
                kept,
            ) && a2 == num::product(num::product(a1, at), rest)
            &&& !order.buys() ==> a2 == num::product(num::product(num::product(asset1, at), q), kept)
                && a1 == num::product(num::quotient(a2, at), rest)
        },
{
}

/// An order that is filled or untouched stays what it is, and so does any order that is
/// no stop limit. A stop limit whose stop was reached goes on as an untouched limit order
/// with its fill.
pub proof fn only_a_triggered_stop_limit_changes<F, S>(condition: OrderCondition, o: Order<F, S>)
    ensures
        condition != OrderCondition::StopTriggered || !(o is StopLimit) ==> continued(condition, o)
            == (condition, o),
        o matches Order::StopLimit { buy, quant, price, limit_status, .. } ==> continued(
            OrderCondition::StopTriggered,
            o,
        ) == (OrderCondition::Untouched, Order::<F, S>::Limit { buy, quant, price, limit_status }),
{
}

/// What a run hands out is of the candle that filled the order: its time, the amounts
/// after the trade at its prices, and the order as it was placed.
pub proof fn run_hands_out_the_fill<F: Number + From<S>, S: Copy>(
    kline: Seq<Wick<F>>,
    order: Order<F, S>,
    asset1: F,
    asset2: F,
    i: int,
)
    requires
        0 <= i < kline.len(),
        touched(kline[i].2, kline[i].1, kline[i].3, order) matches Some((condition, _))
            && condition == OrderCondition::Filled,
        forall|j: int|
            0 <= j < i ==> !(touched(
                (#[trigger] kline[j]).2,
                kline[j].1,
                kline[j].3,
                order,
            ) matches Some((condition, _)) && condition == OrderCondition::Filled),
    ensures
        run_over(kline, order, asset1, asset2) matches Some((at, a1, a2, o)) && at == kline[i].0
            && o == order && outcome(kline[i].2, kline[i].1, kline[i].3, asset1, asset2, order)
            == Some((OrderCondition::Filled, a1, a2, kline[i].1)),
{
    assert(first_fill(kline, order, i));
    run_ends_at_first_fill(kline, order, asset1, asset2, i);
}

/// More candles behind the one that fills an order change nothing of its run.
pub proof fn run_does_not_look_behind_its_fill<F: Number + From<S>, S: Copy>(
    kline: Seq<Wick<F>>,
    more: Seq<Wick<F>>,
    order: Order<F, S>,
    asset1: F,
    asset2: F,
)
    requires
        run_over(kline, order, asset1, asset2) is Some,
    ensures
        run_over(kline + more, order, asset1, asset2) == run_over(kline, order, asset1, asset2),
    decreases kline.len(),
{
    let all = kline + more;
    assert(all[0] == kline[0]);
    if !fills(kline[0], order) {
        assert(all.drop_first() =~= kline.drop_first() + more);
        run_does_not_look_behind_its_fill(kline.drop_first(), more, order, asset1, asset2);
    }
}

/// Each order that fills is recorded with the time of its fill and the amounts held
/// until then, and the amounts after it are those that the next order starts with. One
/// that does not fill stays open behind those before it and leaves the rest alone.
pub proof fn orders_follow_on_each_other<F: Number + From<S>, S: Number>(
    h: HistTrade<F, S>,
    k: Seq<Wick<F>>,
    active: Seq<(u64, Order<F, S>)>,
    n: int,
)
    requires
        0 <= n < active.len(),
    ensures
        ({
            let before = h.ran(k, active, n);
            let after = h.ran(k, active, n + 1);
            match run_over(k, active[n].1, before.asset1, before.asset2) {
                Some((at, a1, a2, _)) => {
                    let r = after.trade_record.last();
                    &&& after.asset1 == a1
                    &&& after.asset2 == a2
                    &&& after.remaining == before.remaining
                    &&& after.trade_record.drop_last() == before.trade_record
                    &&& after.trade_record.len() == before.trade_record.len() + 1
                    &&& r.transaction_time == at
                    &&& r.asset1 == before.asset1
                    &&& r.asset2 == before.asset2
                    &&& r.trades_made == h.trades_made
                    &&& r.asset1_held == h.asset1_held
                    &&& r.last_asset1 == h.last_asset1
                    &&& r.last_asset2 == h.last_asset2
                    &&& r.ch1 == h.ch1
                },
                None => {
                    &&& after.asset1 == before.asset1
                    &&& after.asset2 == before.asset2
                    &&& after.trade_record == before.trade_record
                    &&& after.remaining.last() == active[n]
                    &&& after.remaining.drop_last() == before.remaining
                    &&& after.remaining.len() == before.remaining.len() + 1
                },
            }
        }),
        h.ran(k, active, 0).asset1 == h.asset1,
        h.ran(k, active, 0).asset2 == h.asset2,
        h.ran(k, active, 0).trade_record == h.trade_record@,
        h.ran(k, active, 0).remaining.len() == 0,
{
    let before = h.ran(k, active, n);
    let after = h.ran(k, active, n + 1);
    if run_over(k, active[n].1, before.asset1, before.asset2) is Some {
        assert(after.trade_record.drop_last() =~= before.trade_record);
    } else {
        assert(after.remaining.drop_last() =~= before.remaining);
    }
}

/// What a run records is held at the time of the fill: the amounts and the state of the
/// run as they are.
pub proof fn record_is_what_is_held<F: Number + From<S>, S: Number>(h: HistTrade<F, S>, at: Stamp)
    ensures
        ({
            let r = h.recorded(at);
            &&& r.transaction_time == at
            &&& r.trades_made == h.trades_made
            &&& r.asset1_held == h.asset1_held
            &&& r.asset1 == h.asset1
            &&& r.asset2 == h.asset2
            &&& r.last_asset1 == h.last_asset1
            &&& r.last_asset2 == h.last_asset2
            &&& r.ch1 == h.ch1
        }),
{
}

/// The next run goes over as many candles as are asked for, one behind the other, of the
/// pair and the interval of the run; there is none where none is loaded.
pub proof fn next_run_is_over_its_candles<F: Number + From<S>, S: Number>(
    h: HistTrade<F, S>,
    ad: AssetData<F>,
    next_wicks: u16,
)
    requires
        ad.wicks(h.asset_pair@, h.current_intv).len() == 0 || 2 + next_wicks <= ad.wicks(
            h.asset_pair@,
            h.current_intv,
        ).len(),
    ensures
        h.next_slice(&ad, next_wicks) is None <==> !ad.loaded(h.asset_pair@, h.current_intv)
            || ad.wicks(h.asset_pair@, h.current_intv).len() == 0,
        h.next_slice(&ad, next_wicks) matches Some(k) ==> {
            let all = ad.wicks(h.asset_pair@, h.current_intv);
            let from: int = if all[0].0.ms == 0 {
                0
            } else {
                1
            };
            &&& k.len() == next_wicks
            &&& forall|i: int| 0 <= i < next_wicks ==> #[trigger] k[i] == all[from + i]
        },
        h.next_fill(&ad, next_wicks) == (match (h.next_slice(&ad, next_wicks), h.current_order) {
            (Some(k), Some(order)) => run_over(k, order, h.asset1, h.asset2),
            _ => None,
        }),
{
}

/// By how many percent an amount has grown to a whole multiple of itself: by a hundred
/// for each time that it is more than once itself.
pub proof fn percent_of_a_multiple(last: u64, k: u64)
    requires
        last > 0,
        k > 0,
        last * k <= u64::MAX,
        100 * (k - 1) <= u64::MAX,
    ensures
        HistTrade::<u64, u32>::percent((last * k) as u64, last) == 100 * (k - 1),
{
    let now = (last * k) as u64;
    vstd::arithmetic::div_mod::lemma_div_multiples_vanish(k as int, last as int);
    assert(now as int / last as int == k);
    num::unsigned_constants(1, 1, 0);
    num::unsigned_constants(100, 1, 0);
    num::unsigned_compute(now, last);
    num::unsigned_compute(k, 1);
    num::unsigned_compute(100, (k - 1) as u64);
}

/// Where every operation of the number type is defined, every trade and every order can
/// be computed at every candle.
pub proof fn every_trade_computes<F: Number + From<S>, S: Copy>(
    h: F,
    o: F,
    l: F,
    p: F,
    q: F,
    buy: bool,
    fee: F,
    asset1: F,
    asset2: F,
    order: Order<F, S>,
    kline: Seq<Wick<F>>,
)
    requires
        num::total::<F>(),
    ensures
        tradable(asset1, asset2, p, q, buy, fee),
        computes(h, o, l, asset1, asset2, order),
        computes_over(kline, order, asset1, asset2),
{
}

/// An order can be in every condition that a candle can put it into.
pub proof fn every_outcome_can_be<F, S>(o: Order<F, S>)
    requires
        !(o is Nothing),
    ensures
        can_be(OrderCondition::Filled, o),
        !(o is Market) ==> can_be(OrderCondition::Untouched, o),
        o is StopLimit ==> can_be(OrderCondition::StopTriggered, o),
{
}

/// A run starts with ten thousand of the first asset and nothing else.
pub proof fn a_fresh_run_holds_ten_thousand<F: Number + From<S>, S: Number>(h: HistTrade<F, S>)
    requires
        h.fresh(),
    ensures
        h.asset1 == num::lit::<F>(10_000),
        h.asset2 == num::lit::<F>(0),
        h.last_asset1 == num::lit::<F>(0),
        h.last_asset2 == num::lit::<F>(0),
        h.ch1 == num::lit::<F>(0),
        h.ch2 == num::lit::<F>(0),
        h.trades_made == 0,
        !h.asset1_held,
        h.trade_time == 0,
        h.current_intv == Intv::Min15,
        h.current_order is None,
        h.trade_record@ == Seq::<TradeRecord<F>>::empty(),
        h.last_ch_a1 == num::lit::<S>(0),
        h.last_ch_a2 == num::lit::<S>(0),
        h.current_data_end_index == 0,
        h.current_index == 0,
        h.buy_points@.len() == 0,
        h.sell_points@.len() == 0,
{
}

/// Two states of a run that differ in a trade alone have the pair, the interval, the
/// times and the figures of the trades before in common; two that differ in the order
/// alone have the amounts and the record in common too.
pub proof fn a_trade_changes_nothing_else<F: Number + From<S>, S: Number>(
    a: HistTrade<F, S>,
    b: HistTrade<F, S>,
)
    ensures
        a.same_but_trade(&b) ==> a.asset_pair == b.asset_pair && a.current_intv == b.current_intv
            && a.start_time == b.start_time && a.trade_time == b.trade_time && a.trades_made
            == b.trades_made && a.asset1_held == b.asset1_held && a.last_asset1 == b.last_asset1
            && a.last_asset2 == b.last_asset2 && a.ch1 == b.ch1 && a.ch2 == b.ch2 && a.last_ch_a1
            == b.last_ch_a1 && a.last_ch_a2 == b.last_ch_a2 && a.current_index == b.current_index
            && a.current_data_end_index == b.current_data_end_index && a.buy_points == b.buy_points
            && a.sell_points == b.sell_points,
        a.same_but_order(&b) ==> a.same_but_trade(&b) && a.asset1 == b.asset1 && a.asset2
            == b.asset2 && a.trade_record == b.trade_record,
{
}

/// What is left of the orders after a run was among them, in their order: an order that no candle
/// filled stays at the end of what is left, and one that was filled is gone.
pub proof fn what_is_left_was_not_filled<F: Number + From<S>, S: Number>(
    h: HistTrade<F, S>,
    k: Seq<Wick<F>>,
    active: Seq<(u64, Order<F, S>)>,
    n: int,
    j: int,
)
    requires
        0 <= n <= active.len(),
        0 <= j < h.ran(k, active, n).remaining.len(),
    ensures
        h.ran(k, active, n).remaining.len() <= n,
        active.contains(h.ran(k, active, n).remaining[j]),
    decreases n,
{
    let before = h.ran(k, active, n - 1).remaining;
    if n > 0 && j < before.len() {
        what_is_left_was_not_filled(h, k, active, n - 1, j);
    } else if n > 1 && before.len() > 0 {
        what_is_left_was_not_filled(h, k, active, n - 1, 0);
    }
}

/// Where every operation of the number type is defined, every list of orders can be run over all
/// candles, and every change can be told in percent.
pub proof fn every_list_of_orders_runs<F: Number + From<S>, S: Number>(
    h: HistTrade<F, S>,
    k: Seq<Wick<F>>,
    active: Seq<(u64, Order<F, S>)>,
    now: F,
    last: F,
)
    requires
        num::total::<F>(),
        forall|i: int| 0 <= i < active.len() ==> !((#[trigger] active[i]).1 is Nothing),
    ensures
        h.runs(k, active),
        HistTrade::<F, S>::percent_defined(now, last),
{
}

/// No order is on no side and in no condition.
pub proof fn nothing_is_in_no_condition<F: Number, S: Copy>(c: OrderCondition)
    ensures
        !Order::<F, S>::Nothing.buys(),
        !can_be(c, Order::<F, S>::Nothing),
{
}

} // verus!
