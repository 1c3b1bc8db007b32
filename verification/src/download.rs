//! Downloading candles: over which stretches of time, and how they are read.

use crate::data::{FatWick, Wick};
use crate::intv::Intv;
use crate::num;
use crate::num::Number;
use crate::reader;
use crate::time;
use crate::time::Stamp;
use vstd::prelude::*;

verus! {

/// How many candles the exchange hands out at once.
pub const PER_REQUEST: i64 = 500;

/// How much time one request covers, in milliseconds.
pub open spec fn stretch_ms(intv: Intv) -> int {
    intv.minutes() * 60_000 * PER_REQUEST
}

/// How many requests it takes from `start` to `now`: as many as fit in between,
/// and at least one.
pub open spec fn request_count(start: int, now: int, intv: Intv) -> int {
    let whole = if now <= start {
        0
    } else {
        (now - start) / (intv.minutes() * 60_000) / PER_REQUEST as int
    };
    if whole <= 1 {
        1
    } else {
        whole
    }
}

/// The first and the last millisecond that request number `n` asks for.
pub open spec fn stretch(start: int, intv: Intv, n: int) -> (int, int) {
    (start + stretch_ms(intv) * n + 1, start + stretch_ms(intv) * (n + 1))
}

/// Where the candles from `start_time` on start: at the start of 1970 where no
/// time is given.
pub open spec fn start_of(start_time: Option<i64>) -> int {
    match start_time {
        Some(t) => t as int,
        None => 0,
    }
}

/// The requests that fetch the candles from `start_time` on, or from the start of
/// 1970, up to `now`: the first and the last millisecond of each. A request has
/// no sign, so that times before 1970 wrap around; none may follow on the very
/// last millisecond before 1970.
pub fn get_data_binance(intv: &Intv, start_time: Option<i64>, now: i64) -> (r: Vec<(u64, u64)>)
    requires
        time::nameable(start_of(start_time)),
        0 <= now <= time::LAST_MS,
        forall|n: int|
            0 <= n < request_count(start_of(start_time), now as int, *intv) ==> (
            #[trigger] stretch(start_of(start_time), *intv, n)).0 != 0,
    ensures
        r@.len() == request_count(start_of(start_time), now as int, *intv),
        forall|n: int|
            0 <= n < r@.len() ==> {
                let (a, b) = stretch(start_of(start_time), *intv, n);
                (#[trigger] r@[n]).0 == (a - 1) as u64 + 1 && r@[n].1 == b as u64
            },
{
    let start: i64 = match start_time {
        Some(t) => t,
        None => 0,
    };
    let step = intv.to_ms();
    let whole: i64 = if now <= start {
        0
    } else {
        (now - start) / step / PER_REQUEST
    };
    let count: i64 = if whole <= 1 {
        1
    } else {
        whole
    };
    proof {
        if now > start {
            let d = (now - start) as int;
            vstd::arithmetic::div_mod::lemma_div_denominator(d, step as int, PER_REQUEST as int);
            assert(step * PER_REQUEST == stretch_ms(*intv));
            vstd::arithmetic::div_mod::lemma_fundamental_div_mod(d, stretch_ms(*intv));
            assert(whole as int == d / stretch_ms(*intv));
            vstd::arithmetic::div_mod::lemma_mod_bound(d, stretch_ms(*intv));
            assert(stretch_ms(*intv) * whole <= d);
        }
    }
    let mut out: Vec<(u64, u64)> = Vec::new();
    let mut n: i64 = 0;
    while n < count
        invariant
            0 <= n <= count,
            start == start_of(start_time),
            time::nameable(start as int),
            60_000 <= step <= 2_592_000_000,
            step * PER_REQUEST == stretch_ms(*intv),
            count == request_count(start as int, now as int, *intv),
            0 <= now <= time::LAST_MS,
            count == 1 || stretch_ms(*intv) * count <= now - start,
            forall|n: int|
                0 <= n < count ==> (#[trigger] stretch(start as int, *intv, n)).0 != 0,
            out@.len() == n,
            forall|m: int|
                0 <= m < n ==> {
                    let (a, b) = stretch(start as int, *intv, m);
                    (#[trigger] out@[m]).0 == (a - 1) as u64 + 1 && out@[m].1 == b as u64
                },
        decreases count - n,
    {
        let s: i64 = step * PER_REQUEST;
        assert(0 <= s * n && s * n + s == s * (n + 1)) by (nonlinear_arith)
            requires
                0 <= n,
                0 <= s,
        ;
        assert(s * (n + 1) <= s * count) by (nonlinear_arith)
            requires
                n + 1 <= count,
                0 <= s,
        ;
        let from: i64 = start + s * n;
        let to: i64 = from + s;
        assert(stretch(start as int, *intv, n as int) == (from + 1, to as int));
        let low: u64 = #[verifier::truncate] (from as u64);
        let high: u64 = #[verifier::truncate] (to as u64);
        assert(low < u64::MAX) by {
            assert(from != -1);
            assert(from as u64 == 0xffff_ffff_ffff_ffffu64 ==> from == -1) by (bit_vector);
        }
        out.push((low + 1, high));
        n += 1;
    }
    out
}

/// The stretches of the requests follow on each other: each millisecond behind
/// the start, up to the end of the last stretch, lies in exactly one of them.
pub proof fn stretches_cover_once(start: int, intv: Intv, count: int, ms: int)
    requires
        count > 0,
        start < ms <= start + stretch_ms(intv) * count,
    ensures
        exists|n: int|
            0 <= n < count && #[trigger] stretch(start, intv, n).0 <= ms <= stretch(
                start,
                intv,
                n,
            ).1,
        forall|n: int, m: int|
            #![trigger stretch(start, intv, n), stretch(start, intv, m)]
            stretch(start, intv, n).0 <= ms <= stretch(start, intv, n).1 && stretch(
                start,
                intv,
                m,
            ).0 <= ms <= stretch(start, intv, m).1 ==> n == m,
{
    let s = stretch_ms(intv);
    let n = (ms - start - 1) / s;
    vstd::arithmetic::div_mod::lemma_fundamental_div_mod(ms - start - 1, s);
    vstd::arithmetic::div_mod::lemma_mod_bound(ms - start - 1, s);
    let r = (ms - start - 1) % s;
    assert(ms - start - 1 == s * n + r);
    assert(s * (n + 1) == s * n + s) by (nonlinear_arith);
    assert(0 <= n) by {
        vstd::arithmetic::div_mod::lemma_div_pos_is_pos(ms - start - 1, s);
    }
    assert(n < count) by (nonlinear_arith)
        requires
            s > 0,
            s * n <= ms - start - 1,
            ms - start - 1 < s * count,
    ;
    assert(stretch(start, intv, n).0 <= ms <= stretch(start, intv, n).1);
    assert forall|n: int, m: int|
        #![trigger stretch(start, intv, n), stretch(start, intv, m)]
        stretch(start, intv, n).0 <= ms <= stretch(start, intv, n).1 && stretch(
            start,
            intv,
            m,
        ).0 <= ms <= stretch(start, intv, m).1 implies n == m by {
        assert(n == m) by (nonlinear_arith)
            requires
                s > 0,
                start + s * n + 1 <= ms,
                ms <= start + s * (n + 1),
                start + s * m + 1 <= ms,
                ms <= start + s * (m + 1),
        ;
    }
}

/// A candle as the exchange hands it out: its numbers as texts.
#[derive(Debug)]
pub struct KlineSummary {
    pub open_time: i64,
    pub open: String,
    pub high: String,
    pub low: String,
    pub close: String,
    pub volume: String,
    pub close_time: i64,
    pub quote_asset_volume: String,
    pub number_of_trades: i64,
    pub taker_buy_base_asset_volume: String,
    pub taker_buy_quote_asset_volume: String,
}

/// Why a candle could not be read.
#[derive(Debug, Clone, Copy, PartialEq, Eq, Structural)]
pub enum ConvError {
    /// One of its texts is no number.
    Number,
    /// The calendar cannot name the time at which it closed.
    CloseTime,
}

impl ConvError {
    /// What went wrong, for a log.
    pub fn to_str(&self) -> (r: &'static str)
        ensures
            r@ == (match *self {
                ConvError::Number => "invalid number literal"@,
                ConvError::CloseTime => "Unable to parse ctime"@,
            }),
    {
        match self {
            ConvError::Number => "invalid number literal",
            ConvError::CloseTime => "Unable to parse ctime",
        }
    }
}

/// The number in `s`.
pub open spec fn num_in<F, N: Fn(&str) -> Option<F>>(s: String, read: N) -> Option<F> {
    reader::number::<F, N>(read, s@)
}

impl KlineSummary {
    /// The prices and the volume are numbers.
    pub open spec fn prices_read<F, N: Fn(&str) -> Option<F>>(&self, read: N) -> bool {
        &&& num_in::<F, N>(self.open, read) is Some
        &&& num_in::<F, N>(self.high, read) is Some
        &&& num_in::<F, N>(self.low, read) is Some
        &&& num_in::<F, N>(self.close, read) is Some
        &&& num_in::<F, N>(self.volume, read) is Some
    }

    /// The other volumes are numbers.
    pub open spec fn volumes_read<F, N: Fn(&str) -> Option<F>>(&self, read: N) -> bool {
        &&& num_in::<F, N>(self.quote_asset_volume, read) is Some
        &&& num_in::<F, N>(self.taker_buy_base_asset_volume, read) is Some
        &&& num_in::<F, N>(self.taker_buy_quote_asset_volume, read) is Some
    }

    /// The candle, or the first thing that is wrong with it: the prices are read
    /// before the time at which it closed, and the other volumes after.
    pub open spec fn read<F, N: Fn(&str) -> Option<F>>(&self, read: N) -> Result<
        FatWick<F>,
        ConvError,
    > {
        if !self.prices_read::<F, N>(read) {
            Err(ConvError::Number)
        } else if !time::nameable(self.close_time as int) {
            Err(ConvError::CloseTime)
        } else if !self.volumes_read::<F, N>(read) {
            Err(ConvError::Number)
        } else {
            Ok(
                FatWick {
                    open_ms: self.open_time,
                    open_time: Stamp { ms: self.open_time },
                    open: num_in::<F, N>(self.open, read)->0,
                    high: num_in::<F, N>(self.high, read)->0,
                    low: num_in::<F, N>(self.low, read)->0,
                    close: num_in::<F, N>(self.close, read)->0,
                    volume: num_in::<F, N>(self.volume, read)->0,
                    close_ms: self.close_time,
                    close_time: Stamp { ms: self.close_time },
                    quote_volume: num_in::<F, N>(self.quote_asset_volume, read)->0,
                    trades: self.number_of_trades as u64,
                    taker_base_volume: num_in::<F, N>(self.taker_buy_base_asset_volume, read)->0,
                    taker_quote_volume: num_in::<F, N>(
                        self.taker_buy_quote_asset_volume,
                        read,
                    )->0,
                },
            )
        }
    }

    /// The candle, with its numbers read by `read`.
    pub fn kline_conv<F, N: Fn(&str) -> Option<F>>(&self, read: &N) -> (r: Result<
        FatWick<F>,
        ConvError,
    >)
        requires
            reader::steady::<F, N>(*read),
            time::nameable(self.open_time as int),
        ensures
            r == self.read::<F, N>(*read),
    {
        let open = reader::read_number(read, self.open.as_str());
        let high = reader::read_number(read, self.high.as_str());
        let low = reader::read_number(read, self.low.as_str());
        let close = reader::read_number(read, self.close.as_str());
        let volume = reader::read_number(read, self.volume.as_str());
        let (open, high, low, close, volume) = match (open, high, low, close, volume) {
            (Some(o), Some(h), Some(l), Some(c), Some(v)) => (o, h, l, c, v),
            _ => return Err(ConvError::Number),
        };
        let close_time = match time::from_timestamp_millis(self.close_time) {
            Some(t) => t,
            None => return Err(ConvError::CloseTime),
        };
        let quote = reader::read_number(read, self.quote_asset_volume.as_str());
        let base = reader::read_number(read, self.taker_buy_base_asset_volume.as_str());
        let taker = reader::read_number(read, self.taker_buy_quote_asset_volume.as_str());
        match (quote, base, taker) {
            (Some(q), Some(b), Some(t)) => Ok(
                FatWick {
                    open_ms: self.open_time,
                    open_time: Stamp { ms: self.open_time },
                    open,
                    high,
                    low,
                    close,
                    volume,
                    close_ms: self.close_time,
                    close_time,
                    quote_volume: q,
                    trades: #[verifier::truncate] (self.number_of_trades as u64),
                    taker_base_volume: b,
                    taker_quote_volume: t,
                },
            ),
            _ => Err(ConvError::Number),
        }
    }
}

/// The candles that were handed out, in their order, or what is wrong with the
/// first one that cannot be read.
pub fn read_klines<F, N: Fn(&str) -> Option<F>>(klines: &Vec<KlineSummary>, read: &N) -> (r: Result<
    Vec<FatWick<F>>,
    ConvError,
>)
    requires
        reader::steady::<F, N>(*read),
        forall|i: int|
            0 <= i < klines@.len() ==> time::nameable((#[trigger] klines@[i]).open_time as int),
    ensures
        match r {
            Ok(v) => {
                &&& v@.len() == klines@.len()
                &&& forall|i: int|
                    0 <= i < v@.len() ==> klines@[i].read::<F, N>(*read) == Ok::<
                        FatWick<F>,
                        ConvError,
                    >(#[trigger] v@[i])
            },
            Err(e) => exists|i: int|
                0 <= i < klines@.len() && (#[trigger] klines@[i]).read::<F, N>(*read) == Err::<
                    FatWick<F>,
                    ConvError,
                >(e) && forall|j: int|
                    0 <= j < i ==> (#[trigger] klines@[j]).read::<F, N>(*read) is Ok,
        },
{
    let mut out: Vec<FatWick<F>> = Vec::new();
    let mut i: usize = 0;
    while i < klines.len()
        invariant
            reader::steady::<F, N>(*read),
            forall|i: int|
                0 <= i < klines@.len() ==> time::nameable((#[trigger] klines@[i]).open_time as int),
            i <= klines@.len(),
            out@.len() == i,
            forall|j: int|
                0 <= j < i ==> klines@[j].read::<F, N>(*read) == Ok::<FatWick<F>, ConvError>(
                    #[trigger] out@[j],
                ),
        decreases klines@.len() - i,
    {
        match klines[i].kline_conv(read) {
            Ok(k) => {
                out.push(k);
            },
            Err(e) => {
                proof {
                    assert forall|j: int| 0 <= j < i implies (#[trigger] klines@[j]).read::<F, N>(
                        *read,
                    ) is Ok by {
                        assert(klines@[j].read::<F, N>(*read) == Ok::<FatWick<F>, ConvError>(
                            out@[j],
                        ));
                    }
                    assert(klines@[i as int].read::<F, N>(*read) == Err::<FatWick<F>, ConvError>(
                        e,
                    ));
                }
                return Err(e);
            },
        }
        i += 1;
    }
    Ok(out)
}

/// A candle of another source: its time in seconds, its prices, and its volume,
/// which counts as none where it is not told. Nothing where the calendar cannot
/// name the time. `long` makes a number of a whole one.
pub fn yfcandle_conv<F: Number, L: Fn(u64) -> F>(
    ts: i64,
    prices: (F, F, F, F),
    volume: Option<u64>,
    long: &L,
) -> (r: Option<Wick<F>>)
    requires
        num::lawful::<F>(),
        reader::pure::<u64, F, L>(*long),
    ensures
        r == (if time::nameable(ts * 1000) {
            Some(
                (
                    Stamp { ms: (ts * 1000) as i64 },
                    prices.0,
                    prices.1,
                    prices.2,
                    prices.3,
                    match volume {
                        Some(v) => reader::result::<u64, F, L>(*long, v),
                        None => num::lit(0),
                    },
                ),
            )
        } else {
            None
        }),
{
    match time::from_timestamp(ts) {
        Some(t) => {
            let v = match volume {
                Some(v) => reader::apply(long, v),
                None => num::whole(0),
            };
            Some((t, prices.0, prices.1, prices.2, prices.3, v))
        },
        None => None,
    }
}

/// A request covers five hundred candles.
pub proof fn a_stretch_holds_five_hundred_candles(intv: Intv)
    ensures
        stretch_ms(intv) == 500 * (60_000 * intv.minutes()),
{
}

/// For every interval the requests reach the present up to less than one stretch, and only
/// a single one goes beyond it. There is always at least one.
pub proof fn requests_reach_the_present(start: int, now: int, intv: Intv)
    requires
        start <= now,
        intv.minutes() > 0,
    ensures
        ({
            let count = request_count(start, now, intv);
            &&& count >= 1
            &&& start + stretch_ms(intv) * count > now - stretch_ms(intv)
            &&& count == 1 || start + stretch_ms(intv) * count <= now
        }),
{
    let step = intv.minutes() * 60_000;
    let s = stretch_ms(intv);
    let d = now - start;
    assert(s == step * 500);
    if d > 0 {
        vstd::arithmetic::div_mod::lemma_div_denominator(d, step, 500);
    }
    let whole = d / s;
    vstd::arithmetic::div_mod::lemma_fundamental_div_mod(d, s);
    vstd::arithmetic::div_mod::lemma_mod_bound(d, s);
    assert(d == s * whole + d % s);
    if whole <= 1 {
        assert(s * whole <= s) by (nonlinear_arith)
            requires
                s > 0,
                whole <= 1,
        ;
    }
}

/// Where the start lies in the future there is one request.
pub proof fn one_request_from_the_future(start: int, now: int, intv: Intv)
    requires
        now <= start,
    ensures
        request_count(start, now, intv) == 1,
{
}

/// The first stretch begins right behind the start, each lasts as long as five hundred
/// candles, and each next one begins right behind the one before.
pub proof fn stretches_follow_on_each_other(start: int, intv: Intv, n: int)
    ensures
        stretch(start, intv, 0).0 == start + 1,
        stretch(start, intv, n).1 - stretch(start, intv, n).0 + 1 == 500 * 60_000 * intv.minutes(),
        stretch(start, intv, n + 1).0 == stretch(start, intv, n).1 + 1,
{
    let s = stretch_ms(intv);
    assert(s * 0 == 0) by (nonlinear_arith);
    assert(s * (n + 1) == s * n + s) by (nonlinear_arith);
}

/// Without a time to start at, candles are fetched from the start of 1970 on.
pub proof fn candles_start_where_told(t: i64)
    ensures
        start_of(None) == 0,
        start_of(Some(t)) == t,
{
}

/// A candle that is read has the times, the prices and the volumes of its texts, each in
/// its own place. It is read exactly where all of its texts are numbers and the calendar
/// can name the time at which it closed; that time is at fault only where the prices and
/// the volume are in order.
pub proof fn read_candle_has_the_numbers_of_its_texts<F, N: Fn(&str) -> Option<F>>(
    k: KlineSummary,
    read: N,
)
    ensures
        ({
            let r = k.read::<F, N>(read);
            let n = |s: String| reader::number::<F, N>(read, s@);
            let prices = n(k.open) is Some && n(k.high) is Some && n(k.low) is Some && n(
                k.close,
            ) is Some && n(k.volume) is Some;
            let volumes = n(k.quote_asset_volume) is Some && n(k.taker_buy_base_asset_volume) is Some
                && n(k.taker_buy_quote_asset_volume) is Some;
            &&& r is Ok <==> prices && volumes && time::nameable(k.close_time as int)
            &&& r == Err::<FatWick<F>, ConvError>(ConvError::CloseTime) <==> prices
                && !time::nameable(k.close_time as int)
            &&& r matches Ok(w) ==> {
                &&& w.open_ms == k.open_time
                &&& w.open_time.ms == k.open_time
                &&& w.close_ms == k.close_time
                &&& w.close_time.ms == k.close_time
                &&& Some(w.open) == n(k.open)
                &&& Some(w.high) == n(k.high)
                &&& Some(w.low) == n(k.low)
                &&& Some(w.close) == n(k.close)
                &&& Some(w.volume) == n(k.volume)
                &&& Some(w.quote_volume) == n(k.quote_asset_volume)
                &&& Some(w.taker_base_volume) == n(k.taker_buy_base_asset_volume)
                &&& Some(w.taker_quote_volume) == n(k.taker_buy_quote_asset_volume)
                &&& k.number_of_trades >= 0 ==> w.trades == k.number_of_trades
            }
        }),
{
}

} // verus!
