//! The hotkeys that shape one order: which one it is, and how its prices move.

use crate::num;
use crate::num::Number;
use crate::reader;
use crate::trade::{LimitStatus, Order, Quant, StopStatus};
use vstd::prelude::*;

verus! {

/// The hotkeys that were pressed.
#[derive(Debug, Clone, Copy, PartialEq, Eq, Structural)]
pub struct Presses {
    /// Turn the order on or off.
    pub activate: bool,
    /// Delete it.
    pub delete: bool,
    /// Place a market order.
    pub market: bool,
    /// Place a limit order.
    pub limit: bool,
    /// Place a stop limit order.
    pub stop_limit: bool,
    /// Place a stop market order.
    pub stop_market: bool,
    /// Move the price up.
    pub up: bool,
    /// Move the stop up.
    pub stop_up: bool,
    /// Move the price down.
    pub down: bool,
    /// Move the stop down.
    pub stop_down: bool,
}

/// No hotkey.
pub open spec fn no_presses() -> Presses {
    Presses {
        activate: false,
        delete: false,
        market: false,
        limit: false,
        stop_limit: false,
        stop_market: false,
        up: false,
        stop_up: false,
        down: false,
        stop_down: false,
    }
}

impl Presses {
    /// The presses that count: none while the hotkeys are off.
    pub fn counted(self, hk_active: bool) -> (r: Presses)
        ensures
            r == (if hk_active {
                self
            } else {
                no_presses()
            }),
    {
        if hk_active {
            self
        } else {
            Presses {
                activate: false,
                delete: false,
                market: false,
                limit: false,
                stop_limit: false,
                stop_market: false,
                up: false,
                stop_up: false,
                down: false,
                stop_down: false,
            }
        }
    }
}

/// The key that is held down with another one.
#[derive(Debug, Clone, Copy, PartialEq, Eq, Structural)]
pub enum Held {
    Shift,
    Alt,
}

/// The keys of the hotkeys.
#[derive(Debug, Clone, Copy, PartialEq, Eq, Structural)]
pub enum HotKey {
    A,
    D,
    J,
    K,
    L,
    R,
    Num1,
    Num2,
    Num3,
    Num4,
}

/// What a hotkey asks for.
#[derive(Debug, Clone, Copy, PartialEq, Eq, Structural)]
pub enum Press {
    /// Turn the order on or off.
    Activate,
    /// Delete all open orders.
    Delete,
    Market,
    Limit,
    StopLimit,
    StopMarket,
    /// Move the price up.
    Up,
    /// Move the stop up.
    StopUp,
    /// Move the price down.
    Down,
    /// Move the stop down.
    StopDown,
    /// Sell everything at once.
    SellNow,
    /// Trade on over candles of the past.
    TradeForward,
}

/// The hotkey of each press.
pub open spec fn hotkey_of(p: Press) -> (Held, HotKey) {
    match p {
        Press::Activate => (Held::Shift, HotKey::A),
        Press::Delete => (Held::Shift, HotKey::D),
        Press::Market => (Held::Shift, HotKey::Num1),
        Press::Limit => (Held::Shift, HotKey::Num2),
        Press::StopLimit => (Held::Shift, HotKey::Num3),
        Press::StopMarket => (Held::Shift, HotKey::Num4),
        Press::Up => (Held::Shift, HotKey::J),
        Press::StopUp => (Held::Alt, HotKey::J),
        Press::Down => (Held::Shift, HotKey::K),
        Press::StopDown => (Held::Alt, HotKey::K),
        Press::SellNow => (Held::Shift, HotKey::R),
        Press::TradeForward => (Held::Shift, HotKey::L),
    }
}

impl Press {
    /// The hotkey of this press.
    pub fn hotkey(&self) -> (r: (Held, HotKey))
        ensures
            r == hotkey_of(*self),
    {
        match self {
            Press::Activate => (Held::Shift, HotKey::A),
            Press::Delete => (Held::Shift, HotKey::D),
            Press::Market => (Held::Shift, HotKey::Num1),
            Press::Limit => (Held::Shift, HotKey::Num2),
            Press::StopLimit => (Held::Shift, HotKey::Num3),
            Press::StopMarket => (Held::Shift, HotKey::Num4),
            Press::Up => (Held::Shift, HotKey::J),
            Press::StopUp => (Held::Alt, HotKey::J),
            Press::Down => (Held::Shift, HotKey::K),
            Press::StopDown => (Held::Alt, HotKey::K),
            Press::SellNow => (Held::Shift, HotKey::R),
            Press::TradeForward => (Held::Shift, HotKey::L),
        }
    }
}

/// No two presses share a hotkey.
pub proof fn hotkeys_differ(a: Press, b: Press)
    requires
        hotkey_of(a) == hotkey_of(b),
    ensures
        a == b,
{
}

/// The order that the hotkeys shape.
#[derive(Debug, Clone, Copy)]
pub struct Shaped<F, S> {
    pub order: Order<F, S>,
    pub order_active: bool,
    /// By how many steps the price was moved.
    pub k0_n: i64,
    /// By how many steps the stop was moved.
    pub k1_n: i64,
    /// The sizes of the steps are to be read anew.
    pub parse_ks: bool,
    pub place_order: bool,
    pub order_adjusted: bool,
    pub delete_order: bool,
    /// The price from which the steps are counted.
    pub last_order_price: F,
}

/// What the hotkeys go by.
#[derive(Debug, Clone, Copy)]
pub struct Market<F, S> {
    pub last_price: F,
    /// The first asset is held, so that an order sells it.
    pub asset1_held: bool,
    /// An order that is moved stays active.
    pub order_active_after_change: bool,
    /// The size of a step of the price.
    pub k0_i: S,
    /// The size of a step of the stop.
    pub k1_i: S,
}

/// How far a stop lies from its price at first.
pub open spec fn k1<S: Number>() -> S {
    num::frac(1005, 1000)
}

/// `last` moved by `n` steps of the size `k0_i`: `last * (1 + k0_i * n)`.
pub open spec fn moved_price<F: Number + From<S>, S: Number, R: Fn(i64) -> F>(
    last: F,
    k0_i: S,
    n: i64,
    long: R,
) -> F {
    num::product(
        last,
        num::sum(
            num::lit(1),
            num::product(num::widened::<S, F>(k0_i), reader::result::<i64, F, R>(long, n)),
        ),
    )
}

/// The stop for the price `p`, moved by `m` steps of the size `k1_i`:
/// `p * (1.005 + k1_i * m)`.
pub open spec fn moved_stop<F: Number, S: Number, T: Fn(i64) -> S, N: Fn(F) -> S>(
    p: F,
    k1_i: S,
    m: i64,
    short: T,
    narrow: N,
) -> S {
    num::product(
        reader::result::<F, S, N>(narrow, p),
        num::sum(k1(), num::product(k1_i, reader::result::<i64, S, T>(short, m))),
    )
}

/// Each operation that [`moved_price`] and [`moved_stop`] stand for is defined.
pub open spec fn move_defined<
    F: Number + From<S>,
    S: Number,
    R: Fn(i64) -> F,
    T: Fn(i64) -> S,
    N: Fn(F) -> S,
>(last: F, k0_i: S, k1_i: S, n: i64, m: i64, long: R, short: T, narrow: N) -> bool {
    let k = num::widened::<S, F>(k0_i);
    let rn = reader::result::<i64, F, R>(long, n);
    let sm = reader::result::<i64, S, T>(short, m);
    let one = num::lit::<F>(1);
    &&& num::multiplies(k, rn)
    &&& num::sums(one, num::product(k, rn))
    &&& num::multiplies(last, num::sum(one, num::product(k, rn)))
    &&& num::multiplies(k1_i, sm)
    &&& num::sums(k1::<S>(), num::product(k1_i, sm))
    &&& num::multiplies(
        reader::result::<F, S, N>(narrow, moved_price(last, k0_i, n, long)),
        num::sum(k1::<S>(), num::product(k1_i, sm)),
    )
}

/// The order with the price `p` and the stop `stop`, as far as it has them.
pub open spec fn repriced<F, S>(o: Order<F, S>, p: F, stop: S) -> Order<F, S> {
    match o {
        Order::Limit { buy, quant, limit_status, .. } => Order::Limit {
            buy,
            quant,
            price: p,
            limit_status,
        },
        Order::StopLimit { buy, quant, limit_status, stop_status, .. } => Order::StopLimit {
            buy,
            quant,
            price: p,
            limit_status,
            stop_price: stop,
            stop_status,
        },
        Order::StopMarket { buy, quant, stop_status, .. } => Order::StopMarket {
            buy,
            quant,
            price: p,
            stop_status,
        },
        _ => o,
    }
}

/// A stop limit with the price `p` and the stop `stop`; any other order as it is.
pub open spec fn restopped<F, S>(o: Order<F, S>, p: F, stop: S) -> Order<F, S> {
    if o is StopLimit {
        repriced(o, p, stop)
    } else {
        o
    }
}

fn reprice<F: Copy, S: Copy>(o: Order<F, S>, p: F, stop: S) -> (r: Order<F, S>)
    ensures
        r == repriced(o, p, stop),
{
    match o {
        Order::Limit { buy, quant, limit_status, .. } => Order::Limit {
            buy,
            quant,
            price: p,
            limit_status,
        },
        Order::StopLimit { buy, quant, limit_status, stop_status, .. } => Order::StopLimit {
            buy,
            quant,
            price: p,
            limit_status,
            stop_price: stop,
            stop_status,
        },
        Order::StopMarket { buy, quant, stop_status, .. } => Order::StopMarket {
            buy,
            quant,
            price: p,
            stop_status,
        },
        _ => o,
    }
}

fn restop<F: Copy, S: Copy>(o: Order<F, S>, p: F, stop: S) -> (r: Order<F, S>)
    ensures
        r == restopped(o, p, stop),
{
    match o {
        Order::StopLimit { .. } => reprice(o, p, stop),
        _ => o,
    }
}

impl<F: Number + From<S>, S: Number> Shaped<F, S> {
    /// Placing `o` at the last price.
    pub open spec fn placed(self, o: Order<F, S>, m: Market<F, S>) -> Self {
        Shaped {
            order: o,
            order_active: false,
            parse_ks: true,
            place_order: true,
            last_order_price: m.last_price,
            ..self
        }
    }

    /// Deleting starts the steps anew.
    pub open spec fn deleted(self) -> Self {
        Shaped { order_active: false, k0_n: 0, k1_n: 0, parse_ks: true, ..self }
    }

    /// The order that a hotkey for a limit order makes.
    pub open spec fn limit_order(m: Market<F, S>) -> Order<F, S> {
        Order::Limit {
            buy: !m.asset1_held,
            quant: Quant::Q100,
            price: m.last_price,
            limit_status: LimitStatus::Untouched,
        }
    }

    /// The order that a hotkey for a stop limit makes: its stop lies above the
    /// price where it buys and below where it sells.
    pub open spec fn stop_limit_order<N: Fn(F) -> S>(m: Market<F, S>, narrow: N) -> Order<F, S> {
        let p = reader::result::<F, S, N>(narrow, m.last_price);
        Order::StopLimit {
            buy: !m.asset1_held,
            quant: Quant::Q100,
            price: m.last_price,
            limit_status: LimitStatus::Untouched,
            stop_price: if m.asset1_held {
                num::quotient(p, k1())
            } else {
                num::product(p, k1())
            },
            stop_status: StopStatus::Untouched,
        }
    }

    /// The order that a hotkey for a stop market order makes.
    pub open spec fn stop_market_order(m: Market<F, S>) -> Order<F, S> {
        Order::StopMarket {
            buy: !m.asset1_held,
            quant: Quant::Q100,
            price: m.last_price,
            stop_status: StopStatus::Untouched,
        }
    }

    /// Moving the price by `step`, which is one up or one down.
    pub open spec fn price_moved<R: Fn(i64) -> F, T: Fn(i64) -> S, N: Fn(F) -> S>(
        self,
        step: int,
        m: Market<F, S>,
        long: R,
        short: T,
        narrow: N,
    ) -> Self {
        let n = (self.k0_n + step) as i64;
        let p = moved_price::<F, S, R>(self.last_order_price, m.k0_i, n, long);
        Shaped {
            order: repriced(
                self.order,
                p,
                moved_stop::<F, S, T, N>(p, m.k1_i, self.k1_n, short, narrow),
            ),
            order_active: self.order_active && m.order_active_after_change,
            k0_n: n,
            parse_ks: true,
            order_adjusted: true,
            ..self
        }
    }

    /// Moving the stop up.
    pub open spec fn stop_moved_up<R: Fn(i64) -> F, T: Fn(i64) -> S, N: Fn(F) -> S>(
        self,
        m: Market<F, S>,
        long: R,
        short: T,
        narrow: N,
    ) -> Self {
        let n = (self.k1_n + 1) as i64;
        let p = moved_price::<F, S, R>(self.last_order_price, m.k0_i, self.k0_n, long);
        Shaped {
            order: restopped(
                self.order,
                p,
                moved_stop::<F, S, T, N>(p, m.k1_i, n, short, narrow),
            ),
            order_active: self.order_active && m.order_active_after_change,
            k1_n: n,
            parse_ks: true,
            order_adjusted: true,
            ..self
        }
    }

    /// Moving the stop down. A stop limit keeps its price, and its stop counts
    /// one more step down for the next move.
    pub open spec fn stop_moved_down<R: Fn(i64) -> F, T: Fn(i64) -> S, N: Fn(F) -> S>(
        self,
        m: Market<F, S>,
        long: R,
        short: T,
        narrow: N,
    ) -> Self {
        let n = (self.k1_n - 1) as i64;
        let p = moved_price::<F, S, R>(self.last_order_price, m.k0_i, self.k0_n, long);
        let stop = moved_stop::<F, S, T, N>(p, m.k1_i, n, short, narrow);
        Shaped {
            order: match self.order {
                Order::StopLimit { price, .. } => repriced(self.order, price, stop),
                _ => self.order,
            },
            order_active: self.order_active && m.order_active_after_change,
            k1_n: if self.order is StopLimit {
                (n - 1) as i64
            } else {
                n
            },
            parse_ks: true,
            order_adjusted: true,
            ..self
        }
    }

    /// What a round of presses makes of the order. They count in this order:
    /// activate, delete, the four kinds, price up, stop up, price down, stop
    /// down.
    pub open spec fn pressed<R: Fn(i64) -> F, T: Fn(i64) -> S, N: Fn(F) -> S>(
        self,
        k: Presses,
        m: Market<F, S>,
        long: R,
        short: T,
        narrow: N,
    ) -> Self {
        let s = self.pressed_kinds(k, m, narrow);
        let s = if k.up {
            s.price_moved::<R, T, N>(1, m, long, short, narrow)
        } else {
            s
        };
        let s = if k.stop_up {
            s.stop_moved_up::<R, T, N>(m, long, short, narrow)
        } else {
            s
        };
        let s = if k.down {
            s.price_moved::<R, T, N>(-1, m, long, short, narrow)
        } else {
            s
        };
        if k.stop_down {
            s.stop_moved_down::<R, T, N>(m, long, short, narrow)
        } else {
            s
        }
    }

    /// What the presses before the moves make of the order.
    pub open spec fn pressed_kinds<N: Fn(F) -> S>(
        self,
        k: Presses,
        m: Market<F, S>,
        narrow: N,
    ) -> Self {
        let s = Shaped { order_active: k.activate, delete_order: k.delete, ..self };
        let s = if k.delete {
            s.deleted()
        } else {
            s
        };
        let s = if k.market {
            s.placed(Order::Market { buy: !m.asset1_held, quant: Quant::Q100 }, m)
        } else {
            s
        };
        let s = if k.limit {
            s.placed(Self::limit_order(m), m)
        } else {
            s
        };
        let s = if k.stop_limit {
            s.placed(Self::stop_limit_order::<N>(m, narrow), m)
        } else {
            s
        };
        if k.stop_market {
            s.placed(Self::stop_market_order(m), m)
        } else {
            s
        }
    }

    /// The stop of a new stop limit order can be computed.
    pub open spec fn stop_defined<N: Fn(F) -> S>(m: Market<F, S>, narrow: N) -> bool {
        let p = reader::result::<F, S, N>(narrow, m.last_price);
        if m.asset1_held {
            num::divides(p, k1())
        } else {
            num::multiplies(p, k1())
        }
    }

    /// The order can be moved by `a` steps of its price and `b` of its stop: there is
    /// room to count them, and each operation is defined.
    pub open spec fn can_move<R: Fn(i64) -> F, T: Fn(i64) -> S, N: Fn(F) -> S>(
        self,
        a: int,
        b: int,
        m: Market<F, S>,
        long: R,
        short: T,
        narrow: N,
    ) -> bool {
        &&& i64::MIN <= self.k0_n + a <= i64::MAX
        &&& i64::MIN <= self.k1_n + b <= i64::MAX
        &&& move_defined::<F, S, R, T, N>(
            self.last_order_price,
            m.k0_i,
            m.k1_i,
            (self.k0_n + a) as i64,
            (self.k1_n + b) as i64,
            long,
            short,
            narrow,
        )
    }

    /// Each operation that a round of presses takes is defined, and there is room to
    /// count its steps.
    pub open spec fn presses_defined<R: Fn(i64) -> F, T: Fn(i64) -> S, N: Fn(F) -> S>(
        self,
        k: Presses,
        m: Market<F, S>,
        long: R,
        short: T,
        narrow: N,
    ) -> bool {
        let s0 = self.pressed_kinds(k, m, narrow);
        let s1 = if k.up {
            s0.price_moved::<R, T, N>(1, m, long, short, narrow)
        } else {
            s0
        };
        let s2 = if k.stop_up {
            s1.stop_moved_up::<R, T, N>(m, long, short, narrow)
        } else {
            s1
        };
        let s3 = if k.down {
            s2.price_moved::<R, T, N>(-1, m, long, short, narrow)
        } else {
            s2
        };
        &&& k.stop_limit ==> Self::stop_defined::<N>(m, narrow)
        &&& k.up ==> s0.can_move::<R, T, N>(1, 0, m, long, short, narrow)
        &&& k.stop_up ==> s1.can_move::<R, T, N>(0, 1, m, long, short, narrow)
        &&& k.down ==> s2.can_move::<R, T, N>(-1, 0, m, long, short, narrow)
        &&& k.stop_down ==> s3.can_move::<R, T, N>(0, -1, m, long, short, narrow) && (
        s3.order is StopLimit ==> i64::MIN + 2 <= s3.k1_n)
    }

    /// The presses that come before the moves.
    fn press_kinds<N: Fn(F) -> S>(self, k: Presses, m: &Market<F, S>, narrow: &N) -> (r: Self)
        requires
            num::lawful::<F>(),
            num::lawful::<S>(),
            reader::pure::<F, S, N>(*narrow),
            k.stop_limit ==> Self::stop_defined::<N>(*m, *narrow),
        ensures
            r == self.pressed_kinds::<N>(k, *m, *narrow),
    {
        let mut s = self;
        let buy = !m.asset1_held;
        s.order_active = k.activate;
        s.delete_order = k.delete;
        if k.delete {
            s.parse_ks = true;
            s.order_active = false;
            s.k0_n = 0;
            s.k1_n = 0;
        }
        if k.market {
            s = s.place(Order::Market { buy, quant: Quant::Q100 }, m);
        }
        if k.limit {
            s =
            s.place(
                Order::Limit {
                    buy,
                    quant: Quant::Q100,
                    price: m.last_price,
                    limit_status: LimitStatus::Untouched,
                },
                m,
            );
        }
        if k.stop_limit {
            let p = reader::apply(narrow, m.last_price);
            let k1: S = num::fraction(1005, 1000);
            let stop_price = if buy {
                p * k1
            } else {
                p / k1
            };
            s =
            s.place(
                Order::StopLimit {
                    buy,
                    quant: Quant::Q100,
                    price: m.last_price,
                    limit_status: LimitStatus::Untouched,
                    stop_price,
                    stop_status: StopStatus::Untouched,
                },
                m,
            );
        }
        if k.stop_market {
            s =
            s.place(
                Order::StopMarket {
                    buy,
                    quant: Quant::Q100,
                    price: m.last_price,
                    stop_status: StopStatus::Untouched,
                },
                m,
            );
        }
        s
    }

    fn place(self, o: Order<F, S>, m: &Market<F, S>) -> (r: Self)
        ensures
            r == self.placed(o, *m),
    {
        let mut s = self;
        s.parse_ks = true;
        s.order_active = false;
        s.order = o;
        s.place_order = true;
        s.last_order_price = m.last_price;
        s
    }

    /// The moved price, and the moved stop for it.
    fn moved<R: Fn(i64) -> F, T: Fn(i64) -> S, N: Fn(F) -> S>(
        &self,
        n: i64,
        steps: i64,
        m: &Market<F, S>,
        long: &R,
        short: &T,
        narrow: &N,
    ) -> (r: (F, S))
        requires
            num::lawful::<F>(),
            num::lawful::<S>(),
            num::widens::<S, F>(),
            reader::pure::<i64, F, R>(*long),
            reader::pure::<i64, S, T>(*short),
            reader::pure::<F, S, N>(*narrow),
            move_defined::<F, S, R, T, N>(
                self.last_order_price,
                m.k0_i,
                m.k1_i,
                n,
                steps,
                *long,
                *short,
                *narrow,
            ),
        ensures
            r.0 == moved_price::<F, S, R>(self.last_order_price, m.k0_i, n, *long),
            r.1 == moved_stop::<F, S, T, N>(r.0, m.k1_i, steps, *short, *narrow),
    {
        let one: F = num::whole(1);
        let p = self.last_order_price * (one + F::from(m.k0_i) * reader::apply(long, n));
        let k1: S = num::fraction(1005, 1000);
        let stop = reader::apply(narrow, p) * (k1 + m.k1_i * reader::apply(short, steps));
        (p, stop)
    }

    fn move_price<R: Fn(i64) -> F, T: Fn(i64) -> S, N: Fn(F) -> S>(
        self,
        up: bool,
        m: &Market<F, S>,
        long: &R,
        short: &T,
        narrow: &N,
    ) -> (r: Self)
        requires
            num::lawful::<F>(),
            num::lawful::<S>(),
            num::widens::<S, F>(),
            reader::pure::<i64, F, R>(*long),
            reader::pure::<i64, S, T>(*short),
            reader::pure::<F, S, N>(*narrow),
            self.can_move::<R, T, N>(
                if up {
                    1
                } else {
                    -1
                },
                0,
                *m,
                *long,
                *short,
                *narrow,
            ),
        ensures
            r == self.price_moved::<R, T, N>(
                if up {
                    1
                } else {
                    -1
                },
                *m,
                *long,
                *short,
                *narrow,
            ),
    {
        let mut s = self;
        s.k0_n = if up {
            s.k0_n + 1
        } else {
            s.k0_n - 1
        };
        let (p, stop) = s.moved(s.k0_n, s.k1_n, m, long, short, narrow);
        s.order = reprice(s.order, p, stop);
        s.order_active = s.order_active && m.order_active_after_change;
        s.parse_ks = true;
        s.order_adjusted = true;
        s
    }

    fn move_stop_up<R: Fn(i64) -> F, T: Fn(i64) -> S, N: Fn(F) -> S>(
        self,
        m: &Market<F, S>,
        long: &R,
        short: &T,
        narrow: &N,
    ) -> (r: Self)
        requires
            num::lawful::<F>(),
            num::lawful::<S>(),
            num::widens::<S, F>(),
            reader::pure::<i64, F, R>(*long),
            reader::pure::<i64, S, T>(*short),
            reader::pure::<F, S, N>(*narrow),
            self.can_move::<R, T, N>(0, 1, *m, *long, *short, *narrow),
        ensures
            r == self.stop_moved_up::<R, T, N>(*m, *long, *short, *narrow),
    {
        let mut s = self;
        s.k1_n = s.k1_n + 1;
        let (p, stop) = s.moved(s.k0_n, s.k1_n, m, long, short, narrow);
        s.order = restop(s.order, p, stop);
        s.order_active = s.order_active && m.order_active_after_change;
        s.parse_ks = true;
        s.order_adjusted = true;
        s
    }

    fn move_stop_down<R: Fn(i64) -> F, T: Fn(i64) -> S, N: Fn(F) -> S>(
        self,
        m: &Market<F, S>,
        long: &R,
        short: &T,
        narrow: &N,
    ) -> (r: Self)
        requires
            num::lawful::<F>(),
            num::lawful::<S>(),
            num::widens::<S, F>(),
            reader::pure::<i64, F, R>(*long),
            reader::pure::<i64, S, T>(*short),
            reader::pure::<F, S, N>(*narrow),
            self.can_move::<R, T, N>(0, -1, *m, *long, *short, *narrow),
            self.order is StopLimit ==> i64::MIN + 2 <= self.k1_n,
        ensures
            r == self.stop_moved_down::<R, T, N>(*m, *long, *short, *narrow),
    {
        let mut s = self;
        s.k1_n = s.k1_n - 1;
        let (_, stop) = s.moved(s.k0_n, s.k1_n, m, long, short, narrow);
        if let Order::StopLimit { price, .. } = s.order {
            s.order = reprice(s.order, price, stop);
            s.k1_n = s.k1_n - 1;
        }
        s.order_active = s.order_active && m.order_active_after_change;
        s.parse_ks = true;
        s.order_adjusted = true;
        s
    }

    /// Shapes the order by a round of presses. `long` and `short` make long and
    /// short numbers of whole ones, `narrow` a short number of a long one.
    #[verifier::rlimit(40)]
    pub fn hotkey_order_single<R: Fn(i64) -> F, T: Fn(i64) -> S, N: Fn(F) -> S>(
        self,
        k: Presses,
        m: &Market<F, S>,
        long: &R,
        short: &T,
        narrow: &N,
    ) -> (r: Self)
        requires
            num::lawful::<F>(),
            num::lawful::<S>(),
            num::widens::<S, F>(),
            reader::pure::<i64, F, R>(*long),
            reader::pure::<i64, S, T>(*short),
            reader::pure::<F, S, N>(*narrow),
            self.presses_defined::<R, T, N>(k, *m, *long, *short, *narrow),
        ensures
            r == self.pressed::<R, T, N>(k, *m, *long, *short, *narrow),
    {
        let s = self.press_kinds(k, m, narrow);
        let s = if k.up {
            s.move_price(true, m, long, short, narrow)
        } else {
            s
        };
        let s = if k.stop_up {
            s.move_stop_up(m, long, short, narrow)
        } else {
            s
        };
        let s = if k.down {
            s.move_price(false, m, long, short, narrow)
        } else {
            s
        };
        if k.stop_down {
            s.move_stop_down(m, long, short, narrow)
        } else {
            s
        }
    }
}

/// Without a press, an order keeps its kind, its side and its prices.
pub proof fn no_press_keeps_the_order<
    F: Number + From<S>,
    S: Number,
    R: Fn(i64) -> F,
    T: Fn(i64) -> S,
    N: Fn(F) -> S,
>(s: Shaped<F, S>, m: Market<F, S>, long: R, short: T, narrow: N)
    ensures
        ({
            let r = s.pressed::<R, T, N>(no_presses(), m, long, short, narrow);
            &&& r.order == s.order
            &&& r.k0_n == s.k0_n
            &&& r.k1_n == s.k1_n
            &&& r.last_order_price == s.last_order_price
            &&& !r.order_active
            &&& !r.delete_order
            &&& r.place_order == s.place_order
            &&& r.order_adjusted == s.order_adjusted
        }),
{
}

/// Moving the price of an order up and then down again, with no other press in
/// between, puts the count of steps and the prices back to those of that count.
pub proof fn up_then_down_goes_back<
    F: Number + From<S>,
    S: Number,
    R: Fn(i64) -> F,
    T: Fn(i64) -> S,
    N: Fn(F) -> S,
>(s: Shaped<F, S>, m: Market<F, S>, long: R, short: T, narrow: N)
    requires
        s.k0_n < i64::MAX,
    ensures
        ({
            let up = s.price_moved::<R, T, N>(1, m, long, short, narrow);
            let back = up.price_moved::<R, T, N>(-1, m, long, short, narrow);
            let p = moved_price::<F, S, R>(s.last_order_price, m.k0_i, s.k0_n, long);
            &&& back.k0_n == s.k0_n
            &&& back.k1_n == s.k1_n
            &&& back.order == repriced(
                s.order,
                p,
                moved_stop::<F, S, T, N>(p, m.k1_i, s.k1_n, short, narrow),
            )
        }),
{
}

/// A move changes the prices of an order, never its kind, its side or its size.
pub proof fn move_keeps_kind_and_side<F: Number, S: Copy>(o: Order<F, S>, p: F, stop: S)
    ensures
        repriced(o, p, stop).buys() == o.buys(),
        repriced(o, p, stop).size() == o.size(),
        repriced(o, p, stop) is Limit <==> o is Limit,
        repriced(o, p, stop) is StopLimit <==> o is StopLimit,
        repriced(o, p, stop) is StopMarket <==> o is StopMarket,
        repriced(o, p, stop) is Market <==> o is Market,
        restopped(o, p, stop).buys() == o.buys(),
        restopped(o, p, stop).size() == o.size(),
        !(o is StopLimit) ==> restopped(o, p, stop) == o,
{
}

/// The price moves with Shift and the stop with Alt, up with the key J and down with K. The
/// four kinds of orders lie on Shift and the digits. Each other hotkey is Shift and a letter.
pub proof fn hotkeys_are_where_they_belong()
    ensures
        hotkey_of(Press::Up) == (Held::Shift, HotKey::J),
        hotkey_of(Press::Down) == (Held::Shift, HotKey::K),
        hotkey_of(Press::StopUp) == (Held::Alt, hotkey_of(Press::Up).1),
        hotkey_of(Press::StopDown) == (Held::Alt, hotkey_of(Press::Down).1),
        hotkey_of(Press::Market) == (Held::Shift, HotKey::Num1),
        hotkey_of(Press::Limit) == (Held::Shift, HotKey::Num2),
        hotkey_of(Press::StopLimit) == (Held::Shift, HotKey::Num3),
        hotkey_of(Press::StopMarket) == (Held::Shift, HotKey::Num4),
        hotkey_of(Press::Activate) == (Held::Shift, HotKey::A),
        hotkey_of(Press::Delete) == (Held::Shift, HotKey::D),
        hotkey_of(Press::SellNow) == (Held::Shift, HotKey::R),
        hotkey_of(Press::TradeForward) == (Held::Shift, HotKey::L),
{
}

/// Where no hotkey counts, none was pressed.
pub proof fn no_presses_press_nothing()
    ensures
        ({
            let k = no_presses();
            &&& !k.activate && !k.delete && !k.market && !k.limit && !k.stop_limit && !k.stop_market
            &&& !k.up && !k.stop_up && !k.down && !k.stop_down
        }),
{
}

/// Whichever of the hotkeys for an order is pressed, and whatever else is, the order that
/// results buys exactly where the first asset is not held, and trades all of what is held.
pub proof fn new_order_buys_where_nothing_is_held<
    F: Number + From<S>,
    S: Number,
    R: Fn(i64) -> F,
    T: Fn(i64) -> S,
    N: Fn(F) -> S,
>(s: Shaped<F, S>, k: Presses, m: Market<F, S>, long: R, short: T, narrow: N)
    requires
        k.market || k.limit || k.stop_limit || k.stop_market,
    ensures
        ({
            let o = s.pressed::<R, T, N>(k, m, long, short, narrow).order;
            let before_moves = s.pressed_kinds::<N>(k, m, narrow).order;
            &&& o.buys() == !m.asset1_held
            &&& before_moves.buys() == !m.asset1_held
            &&& o.size() == Quant::<F>::Q100
            &&& o is StopMarket <==> k.stop_market
            &&& o is StopLimit <==> k.stop_limit && !k.stop_market
            &&& o is Limit <==> k.limit && !k.stop_limit && !k.stop_market
            &&& o is Market <==> !k.limit && !k.stop_limit && !k.stop_market
        }),
{
}

/// A new order lies at the last price and nothing has come of it yet. The stop of a stop
/// limit lies half a percent above the price where it buys, and as much below where it sells.
/// It is to be placed, is not active, and its steps are counted from the last price.
pub proof fn new_order_lies_at_the_last_price<F: Number + From<S>, S: Number, N: Fn(F) -> S>(
    s: Shaped<F, S>,
    k: Presses,
    m: Market<F, S>,
    narrow: N,
)
    requires
        k.market || k.limit || k.stop_limit || k.stop_market,
    ensures
        ({
            let r = s.pressed_kinds::<N>(k, m, narrow);
            let short_price = reader::result::<F, S, N>(narrow, m.last_price);
            let factor = num::quotient(num::lit::<S>(1005), num::lit(1000));
            &&& r.last_order_price == m.last_price
            &&& r.place_order
            &&& r.parse_ks
            &&& !r.order_active
            &&& r.order_adjusted == s.order_adjusted
            &&& r.order matches Order::Limit { price, limit_status, .. } ==> price == m.last_price
                && limit_status is Untouched
            &&& r.order matches Order::StopMarket { price, stop_status, .. } ==> price
                == m.last_price && stop_status == StopStatus::Untouched
            &&& r.order matches Order::StopLimit {
                price,
                limit_status,
                stop_price,
                stop_status,
                ..
            } ==> price == m.last_price && limit_status is Untouched && stop_status
                == StopStatus::Untouched && (!m.asset1_held ==> stop_price == num::product(
                short_price,
                factor,
            )) && (m.asset1_held ==> stop_price == num::quotient(short_price, factor))
        }),
{
}

/// Without a hotkey for an order, the presses before the moves leave the order and the price
/// that its steps are counted from, and place nothing.
pub proof fn no_new_order_without_its_hotkey<F: Number + From<S>, S: Number, N: Fn(F) -> S>(
    s: Shaped<F, S>,
    k: Presses,
    m: Market<F, S>,
    narrow: N,
)
    requires
        !k.market && !k.limit && !k.stop_limit && !k.stop_market,
    ensures
        ({
            let r = s.pressed_kinds::<N>(k, m, narrow);
            &&& r.order == s.order
            &&& r.last_order_price == s.last_order_price
            &&& r.place_order == s.place_order
            &&& r.order_active == (k.activate && !k.delete)
        }),
{
}

/// Deleting is asked for exactly where its hotkey is pressed. It starts both counts of steps
/// anew; without it they stay.
pub proof fn deleting_starts_the_steps_anew<F: Number + From<S>, S: Number, N: Fn(F) -> S>(
    s: Shaped<F, S>,
    k: Presses,
    m: Market<F, S>,
    narrow: N,
)
    ensures
        ({
            let r = s.pressed_kinds::<N>(k, m, narrow);
            &&& r.delete_order == k.delete
            &&& k.delete ==> r.k0_n == 0 && r.k1_n == 0 && r.parse_ks && !r.order_active
            &&& !k.delete ==> r.k0_n == s.k0_n && r.k1_n == s.k1_n
        }),
{
}

/// A price that was moved by no step is the price itself, and a stop that was moved by none
/// lies half a percent above its price.
pub proof fn no_step_moves_nothing<
    F: Number + From<S>,
    S: Number,
    R: Fn(i64) -> F,
    T: Fn(i64) -> S,
    N: Fn(F) -> S,
>(last: F, k0_i: S, k1_i: S, long: R, short: T, narrow: N)
    requires
        num::exact::<F>(),
        num::exact::<S>(),
        reader::result::<i64, F, R>(long, 0) == num::lit::<F>(0),
        reader::result::<i64, S, T>(short, 0) == num::lit::<S>(0),
    ensures
        moved_price::<F, S, R>(last, k0_i, 0, long) == last,
        moved_stop::<F, S, T, N>(last, k1_i, 0, short, narrow) == num::product(
            reader::result::<F, S, N>(narrow, last),
            num::quotient(num::lit::<S>(1005), num::lit(1000)),
        ),
{
}

/// Each step moves the price by the same part of the price that the steps are counted from.
pub proof fn steps_are_parts_of_the_price<R: Fn(i64) -> u64>(last: u64, k0_i: u32, n: i64, long: R)
    requires
        n >= 0,
        reader::result::<i64, u64, R>(long, n) == n,
        k0_i * n <= u64::MAX,
        1 + k0_i * n <= u64::MAX,
        last * (1 + k0_i * n) <= u64::MAX,
    ensures
        moved_price::<u64, u32, R>(last, k0_i, n, long) == last + last * (k0_i * n),
{
    let steps = (k0_i * n) as u64;
    num::unsigned_constants(1, 1, k0_i);
    num::unsigned_compute(k0_i as u64, n as u64);
    num::unsigned_compute(1, steps);
    num::unsigned_compute(last, (1 + steps) as u64);
    assert(last * (1 + steps) == last + last * steps) by (nonlinear_arith);
}

/// The stop is the short price times its factor, which grows by one step size for each step
/// of the stop.
pub proof fn stop_lies_by_its_steps<
    F: Number,
    S: Number,
    T: Fn(i64) -> S,
    N: Fn(F) -> S,
>(p: F, k1_i: S, m: i64, short: T, narrow: N)
    ensures
        moved_stop::<F, S, T, N>(p, k1_i, m, short, narrow) == num::product(
            reader::result::<F, S, N>(narrow, p),
            num::sum(
                num::quotient(num::lit::<S>(1005), num::lit(1000)),
                num::product(k1_i, reader::result::<i64, S, T>(short, m)),
            ),
        ),
{
}

/// The prices that an order is given are its prices then, and the rest of it stays. An order
/// without a price stays what it is.
pub proof fn repriced_order_has_its_new_prices<F: Number, S: Copy>(o: Order<F, S>, p: F, stop: S)
    ensures
        o is Market || o is Nothing ==> repriced(o, p, stop) == o,
        o matches Order::Limit { limit_status: before, .. } ==> (repriced(
            o,
            p,
            stop,
        ) matches Order::Limit { price, limit_status, .. } && price == p && limit_status == before),
        o matches Order::StopMarket { stop_status: before, .. } ==> (repriced(
            o,
            p,
            stop,
        ) matches Order::StopMarket { price, stop_status, .. } && price == p && stop_status
            == before),
        o matches Order::StopLimit { limit_status: fill, stop_status: before, .. } ==> (repriced(
            o,
            p,
            stop,
        ) matches Order::StopLimit { price, limit_status, stop_price, stop_status, .. } && price == p
            && stop_price == stop && limit_status == fill && stop_status == before),
        o is StopLimit ==> restopped(o, p, stop) == repriced(o, p, stop),
{
}

/// Moving the price counts one step more or less and nothing of the stop. The new price lies
/// that many steps from the price that they are counted from, and the stop of a stop limit
/// follows it. The order stays active only where it may.
pub proof fn moving_the_price_counts_its_step<
    F: Number + From<S>,
    S: Number,
    R: Fn(i64) -> F,
    T: Fn(i64) -> S,
    N: Fn(F) -> S,
>(s: Shaped<F, S>, step: int, m: Market<F, S>, long: R, short: T, narrow: N)
    requires
        i64::MIN <= s.k0_n + step <= i64::MAX,
    ensures
        ({
            let r = s.price_moved::<R, T, N>(step, m, long, short, narrow);
            let p = moved_price::<F, S, R>(
                s.last_order_price,
                m.k0_i,
                (s.k0_n + step) as i64,
                long,
            );
            &&& r.k0_n == s.k0_n + step
            &&& r.k1_n == s.k1_n
            &&& r.last_order_price == s.last_order_price
            &&& r.order_adjusted && r.parse_ks
            &&& r.place_order == s.place_order && r.delete_order == s.delete_order
            &&& r.order_active <==> s.order_active && m.order_active_after_change
            &&& r.order.buys() == s.order.buys() && r.order.size() == s.order.size()
            &&& s.order is Market || s.order is Nothing ==> r.order == s.order
            &&& s.order is Limit ==> (r.order matches Order::Limit { price, .. } && price == p)
            &&& s.order is StopMarket ==> (r.order matches Order::StopMarket { price, .. } && price
                == p)
            &&& s.order is StopLimit ==> (r.order matches Order::StopLimit {
                price,
                stop_price,
                ..
            } && price == p && stop_price == moved_stop::<F, S, T, N>(
                p,
                m.k1_i,
                s.k1_n,
                short,
                narrow,
            ))
        }),
{
}

/// Moving the stop up counts one step more of the stop and none of the price. A stop limit
/// lies at the price of its count then, with the stop of the new count; any other order stays
/// as it is.
pub proof fn moving_the_stop_up_counts_its_step<
    F: Number + From<S>,
    S: Number,
    R: Fn(i64) -> F,
    T: Fn(i64) -> S,
    N: Fn(F) -> S,
>(s: Shaped<F, S>, m: Market<F, S>, long: R, short: T, narrow: N)
    requires
        s.k1_n < i64::MAX,
    ensures
        ({
            let r = s.stop_moved_up::<R, T, N>(m, long, short, narrow);
            let p = moved_price::<F, S, R>(s.last_order_price, m.k0_i, s.k0_n, long);
            &&& r.k1_n == s.k1_n + 1
            &&& r.k0_n == s.k0_n
            &&& r.last_order_price == s.last_order_price
            &&& r.order_adjusted && r.parse_ks
            &&& r.place_order == s.place_order && r.delete_order == s.delete_order
            &&& r.order_active <==> s.order_active && m.order_active_after_change
            &&& r.order.buys() == s.order.buys() && r.order.size() == s.order.size()
            &&& !(s.order is StopLimit) ==> r.order == s.order
            &&& s.order is StopLimit ==> (r.order matches Order::StopLimit {
                price,
                stop_price,
                ..
            } && price == p && stop_price == moved_stop::<F, S, T, N>(
                p,
                m.k1_i,
                (s.k1_n + 1) as i64,
                short,
                narrow,
            ))
        }),
{
}

/// Moving the stop down puts the stop of a stop limit one step lower and counts one step more
/// for the next move; its price stays. Any other order stays as it is, with one step counted.
pub proof fn moving_the_stop_down_counts_its_steps<
    F: Number + From<S>,
    S: Number,
    R: Fn(i64) -> F,
    T: Fn(i64) -> S,
    N: Fn(F) -> S,
>(s: Shaped<F, S>, m: Market<F, S>, long: R, short: T, narrow: N)
    requires
        i64::MIN + 2 <= s.k1_n,
    ensures
        ({
            let r = s.stop_moved_down::<R, T, N>(m, long, short, narrow);
            let p = moved_price::<F, S, R>(s.last_order_price, m.k0_i, s.k0_n, long);
            &&& r.k0_n == s.k0_n
            &&& r.last_order_price == s.last_order_price
            &&& r.order_adjusted && r.parse_ks
            &&& r.place_order == s.place_order && r.delete_order == s.delete_order
            &&& r.order_active <==> s.order_active && m.order_active_after_change
            &&& r.order.buys() == s.order.buys() && r.order.size() == s.order.size()
            &&& !(s.order is StopLimit) ==> r.order == s.order && r.k1_n == s.k1_n - 1
            &&& s.order matches Order::StopLimit { price: before, .. } ==> r.k1_n == s.k1_n - 2 && (
            r.order matches Order::StopLimit { price, stop_price, .. } && price == before
                && stop_price == moved_stop::<F, S, T, N>(
                p,
                m.k1_i,
                (s.k1_n - 1) as i64,
                short,
                narrow,
            ))
        }),
{
}

/// A round makes its moves behind the new order: the price up, the stop up, the price down,
/// the stop down. With one of these hotkeys pressed alone, the round is that move.
pub proof fn moves_come_behind_the_new_order<
    F: Number + From<S>,
    S: Number,
    R: Fn(i64) -> F,
    T: Fn(i64) -> S,
    N: Fn(F) -> S,
>(s: Shaped<F, S>, k: Presses, m: Market<F, S>, long: R, short: T, narrow: N)
    ensures
        ({
            let r = s.pressed::<R, T, N>(k, m, long, short, narrow);
            let base = s.pressed_kinds::<N>(k, m, narrow);
            let still = Presses { up: false, stop_up: false, down: false, stop_down: false, ..k };
            &&& base == s.pressed::<R, T, N>(still, m, long, short, narrow)
            &&& k == (Presses { up: true, ..still }) ==> r == base.price_moved::<R, T, N>(
                1,
                m,
                long,
                short,
                narrow,
            )
            &&& k == (Presses { down: true, ..still }) ==> r == base.price_moved::<R, T, N>(
                -1,
                m,
                long,
                short,
                narrow,
            )
            &&& k == (Presses { stop_up: true, ..still }) ==> r == base.stop_moved_up::<R, T, N>(
                m,
                long,
                short,
                narrow,
            )
            &&& k == (Presses { stop_down: true, ..still }) ==> r == base.stop_moved_down::<
                R,
                T,
                N,
            >(m, long, short, narrow)
        }),
{
}

/// With several moves in one round, each one starts from what the one before it made.
pub proof fn moves_of_a_round_add_up<
    F: Number + From<S>,
    S: Number,
    R: Fn(i64) -> F,
    T: Fn(i64) -> S,
    N: Fn(F) -> S,
>(s: Shaped<F, S>, k: Presses, m: Market<F, S>, long: R, short: T, narrow: N)
    requires
        s.presses_defined::<R, T, N>(k, m, long, short, narrow),
    ensures
        ({
            let r = s.pressed::<R, T, N>(k, m, long, short, narrow);
            let base = s.pressed_kinds::<N>(k, m, narrow);
            let up: int = if k.up {
                1
            } else {
                0
            };
            let down: int = if k.down {
                1
            } else {
                0
            };
            let stop_up: int = if k.stop_up {
                1
            } else {
                0
            };
            let stop_down: int = if !k.stop_down {
                0
            } else if base.order is StopLimit {
                2
            } else {
                1
            };
            &&& r.k0_n == base.k0_n + up - down
            &&& r.k1_n == base.k1_n + stop_up - stop_down
            &&& r.order_adjusted <==> s.order_adjusted || k.up || k.down || k.stop_up || k.stop_down
            &&& r.last_order_price == base.last_order_price
            &&& r.place_order == base.place_order
            &&& r.delete_order == k.delete
        }),
{
}

/// Where every operation of the number types is defined and there is room to count its steps,
/// every round of presses can be computed.
pub proof fn every_round_of_presses_computes<
    F: Number + From<S>,
    S: Number,
    R: Fn(i64) -> F,
    T: Fn(i64) -> S,
    N: Fn(F) -> S,
>(s: Shaped<F, S>, k: Presses, m: Market<F, S>, long: R, short: T, narrow: N)
    requires
        num::total::<F>(),
        num::total::<S>(),
        i64::MIN + 10 <= s.k0_n <= i64::MAX - 10,
        i64::MIN + 10 <= s.k1_n <= i64::MAX - 10,
    ensures
        s.presses_defined::<R, T, N>(k, m, long, short, narrow),
{
}

} // verus!
