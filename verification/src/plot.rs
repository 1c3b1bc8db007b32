//! The chart: where candles, orders and trades go, and what part of them is in
//! view.

use crate::data::{AssetData, Missing, Wick};
use crate::intv::Intv;
use crate::num;
use crate::num::Number;
use crate::orders::LiveOrders;
use crate::reader;
use crate::stream::SymbolOutput;
use crate::text;
use crate::tick;
use crate::tick::KlineTick;
use crate::time;
use crate::time::Stamp;
use crate::trade::Order;
use vstd::prelude::*;

verus! {

/// How many candles are in view.
pub const WICKS_VISIBLE: usize = 90;

/// By how many candles the chart is moved where no number is given.
pub const NAVI_WICKS_DEFAULT: u16 = 30;

/// How many candles ahead the chart shows.
pub const CHART_FORWARD: u16 = 40;

/// The seconds of an interval, by which its axis is divided.
pub open spec fn divider(intv: Intv) -> int {
    intv.minutes() * 60
}

/// The numbers that the width of a candle is made of, besides the width of one
/// minute.
pub open spec fn width_factors(intv: Intv) -> Seq<u16> {
    match intv {
        Intv::Min1 => seq![],
        Intv::Min3 => seq![3],
        Intv::Min5 => seq![5],
        Intv::Min15 => seq![15],
        Intv::Min30 => seq![30],
        Intv::Hour1 => seq![60],
        Intv::Hour2 => seq![60, 2],
        Intv::Hour4 => seq![60, 4],
        Intv::Hour6 => seq![60, 6],
        Intv::Hour8 => seq![60, 8],
        Intv::Hour12 => seq![60, 12],
        Intv::Day1 => seq![60, 24],
        Intv::Day3 => seq![60, 72],
        Intv::Week1 => seq![60, 24, 7],
        Intv::Month1 => seq![60, 24, 30],
    }
}

/// The candles of more than a day are a little wider.
pub open spec fn wide(intv: Intv) -> bool {
    intv == Intv::Day3 || intv == Intv::Week1 || intv == Intv::Month1
}

/// `x` times each of the factors, from the first on.
pub open spec fn scaled<F: Number>(x: F, factors: Seq<u16>) -> F
    decreases factors.len(),
{
    if factors.len() == 0 {
        x
    } else {
        num::product(scaled(x, factors.drop_last()), num::lit(factors.last()))
    }
}

/// Each operation that [`scaled`] stands for is defined.
pub open spec fn scales<F: Number>(x: F, factors: Seq<u16>) -> bool {
    forall|n: int|
        0 <= n < factors.len() ==> num::multiplies(
            #[trigger] scaled(x, factors.take(n)),
            num::lit(factors[n]),
        )
}

/// The width of a candle of one minute, in seconds, and a little more of it where
/// the candle is of more than a day.
pub open spec fn base_width<F: Number>(intv: Intv) -> F {
    if wide(intv) {
        num::product(num::frac(12, 10), num::lit(45))
    } else {
        num::lit(45)
    }
}

/// The divider of the axis and the width of a candle.
pub open spec fn chart_params<F: Number, L: Fn(i64) -> F>(intv: Intv, long: L) -> (F, F) {
    let div = reader::result::<i64, F, L>(long, divider(intv) as i64);
    (div, num::quotient(scaled(base_width::<F>(intv), width_factors(intv)), div))
}

/// Each operation that [`chart_params`] stands for is defined.
pub open spec fn chart_defined<F: Number, L: Fn(i64) -> F>(intv: Intv, long: L) -> bool {
    let div = reader::result::<i64, F, L>(long, divider(intv) as i64);
    &&& wide(intv) ==> num::multiplies(num::frac::<F>(12, 10), num::lit(45))
    &&& scales(base_width::<F>(intv), width_factors(intv))
    &&& num::divides(scaled(base_width::<F>(intv), width_factors(intv)), div)
}

fn factors_of(intv: &Intv) -> (r: Vec<u16>)
    ensures
        r@ == width_factors(*intv),
{
    let r: Vec<u16> = match intv {
        Intv::Min1 => Vec::new(),
        Intv::Min3 => vec![3],
        Intv::Min5 => vec![5],
        Intv::Min15 => vec![15],
        Intv::Min30 => vec![30],
        Intv::Hour1 => vec![60],
        Intv::Hour2 => vec![60, 2],
        Intv::Hour4 => vec![60, 4],
        Intv::Hour6 => vec![60, 6],
        Intv::Hour8 => vec![60, 8],
        Intv::Hour12 => vec![60, 12],
        Intv::Day1 => vec![60, 24],
        Intv::Day3 => vec![60, 72],
        Intv::Week1 => vec![60, 24, 7],
        Intv::Month1 => vec![60, 24, 30],
    };
    assert(r@ =~= width_factors(*intv));
    r
}

/// The divider of the axis and the width of a candle. `long` makes a number of a
/// whole one.
pub fn get_chart_params<F: Number, L: Fn(i64) -> F>(intv: &Intv, long: &L) -> (r: (F, F))
    requires
        num::lawful::<F>(),
        reader::pure::<i64, F, L>(*long),
        chart_defined::<F, L>(*intv, *long),
    ensures
        r == chart_params::<F, L>(*intv, *long),
{
    let div = reader::apply(long, intv.to_sec());
    let gap: F = num::whole(45);
    let mut width: F = match intv {
        Intv::Day3 | Intv::Week1 | Intv::Month1 => num::fraction::<F>(12, 10) * gap,
        _ => gap,
    };
    let ghost start = width;
    let factors = factors_of(intv);
    let mut i: usize = 0;
    assert(factors@.take(0) =~= Seq::<u16>::empty());
    while i < factors.len()
        invariant
            num::lawful::<F>(),
            scales(start, factors@),
            i <= factors@.len(),
            width == scaled(start, factors@.take(i as int)),
        decreases factors@.len() - i,
    {
        assert(factors@.take(i + 1).drop_last() =~= factors@.take(i as int));
        width = width * num::whole(factors[i]);
        i += 1;
    }
    assert(factors@.take(factors@.len() as int) =~= factors@);
    (div, width / div)
}

/// A candle on the chart: where it stands, its five prices, and whether it rose.
#[derive(Debug, Clone, Copy)]
pub struct CandleBox<F> {
    pub x: F,
    pub time: Stamp,
    pub low: F,
    pub lower: F,
    pub middle: F,
    pub upper: F,
    pub high: F,
    pub rising: bool,
    pub width: F,
}

/// The volume of a candle on the chart.
#[derive(Debug, Clone, Copy)]
pub struct VolumeBar<F> {
    pub x: F,
    pub volume: F,
    pub rising: bool,
    pub width: F,
}

/// Where the time `t` lies on the axis.
pub open spec fn axis_x<F: Number, L: Fn(i64) -> F>(t: Stamp, divider: F, long: L) -> F {
    num::quotient(reader::result::<i64, F, L>(long, (t.ms as int / 1000) as i64), divider)
}

/// A candle on the chart. It rose where it closed above the price at which it
/// opened.
pub open spec fn box_of<F: Number, L: Fn(i64) -> F>(k: Wick<F>, divider: F, width: F, long: L) -> (
    CandleBox<F>,
    VolumeBar<F>,
) {
    let (time, open, high, low, close, volume) = k;
    let rising = !num::at_least(open, close);
    let x = axis_x::<F, L>(time, divider, long);
    (
        CandleBox {
            x,
            time,
            low,
            lower: if rising {
                open
            } else {
                close
            },
            middle: num::quotient(num::sum(high, low), num::lit(2)),
            upper: if rising {
                close
            } else {
                open
            },
            high,
            rising,
            width,
        },
        VolumeBar { x, volume, rising, width },
    )
}

/// Each operation that [`box_of`] stands for is defined.
pub open spec fn box_defined<F: Number, L: Fn(i64) -> F>(k: Wick<F>, divider: F, long: L) -> bool {
    &&& k.0.wf()
    &&& num::sums(k.2, k.3)
    &&& num::divides(num::sum(k.2, k.3), num::lit(2))
    &&& num::divides(
        reader::result::<i64, F, L>(long, (k.0.ms as int / 1000) as i64),
        divider,
    )
}

/// A candle on the chart.
pub fn box_element<F: Number, L: Fn(i64) -> F>(
    slice: &Wick<F>,
    divider: &F,
    width: &F,
    long: &L,
) -> (r: (CandleBox<F>, VolumeBar<F>))
    requires
        num::lawful::<F>(),
        reader::pure::<i64, F, L>(*long),
        box_defined::<F, L>(*slice, *divider, *long),
    ensures
        r == box_of::<F, L>(*slice, *divider, *width, *long),
{
    let (time, open, high, low, close, volume) = *slice;
    let two: F = num::whole(2);
    let middle = (high + low) / two;
    let x = reader::apply(long, time.timestamp()) / *divider;
    let rising = !(open >= close);
    let (lower, upper) = if rising {
        (open, close)
    } else {
        (close, open)
    };
    (
        CandleBox { x, time, low, lower, middle, upper, high, rising, width: *width },
        VolumeBar { x, volume, rising, width: *width },
    )
}

impl<F: Copy> CandleBox<F> {
    /// The prices at which the candle opened and closed.
    pub open spec fn open_and_close(self) -> (F, F) {
        if self.rising {
            (self.lower, self.upper)
        } else {
            (self.upper, self.lower)
        }
    }

    /// The prices at which the candle opened and closed, to show beside it.
    pub fn time_format(&self) -> (r: (F, F))
        ensures
            r == self.open_and_close(),
    {
        if self.rising {
            (self.lower, self.upper)
        } else {
            (self.upper, self.lower)
        }
    }
}

/// What is shown beside a candle are the prices at which it opened and closed.
pub proof fn box_shows_its_candle<F: Number, L: Fn(i64) -> F>(
    k: Wick<F>,
    divider: F,
    width: F,
    long: L,
)
    ensures
        box_of::<F, L>(k, divider, width, long).0.open_and_close() == (k.1, k.4),
        box_of::<F, L>(k, divider, width, long).0.high == k.2,
        box_of::<F, L>(k, divider, width, long).0.low == k.3,
        box_of::<F, L>(k, divider, width, long).1.volume == k.5,
{
}

/// The time at the mark `mark` of the axis of an interval; the start of 1970
/// where the calendar cannot name it.
pub fn x_format(intv: &Intv, mark: i64) -> (r: Stamp)
    requires
        i64::MIN <= mark * divider(*intv) <= i64::MAX,
    ensures
        r == (if time::nameable(mark * divider(*intv) * 1000) {
            Stamp { ms: (mark * divider(*intv) * 1000) as i64 }
        } else {
            Stamp { ms: 0 }
        }),
        r.wf(),
{
    let secs = mark * intv.to_sec();
    match time::from_timestamp(secs) {
        Some(t) => t,
        None => Stamp::epoch(),
    }
}

/// How far the lines of the grid lie apart on the axis of an interval, the heavy
/// ones first.
pub fn grid_spacer<F: Number>(intv: &Intv) -> (r: (F, F, F))
    requires
        num::lawful::<F>(),
    ensures
        r == (
            num::lit::<F>(grid_step(*intv)),
            num::lit::<F>(grid_step(*intv)),
            num::lit::<F>(1),
        ),
{
    let step: u16 = match intv {
        Intv::Min1 | Intv::Min3 | Intv::Min5 => 60,
        Intv::Min15 | Intv::Min30 => 15,
        Intv::Day1 | Intv::Day3 | Intv::Week1 | Intv::Month1 => 1,
        _ => 4,
    };
    (num::whole(step), num::whole(step), num::whole(1))
}

/// How many candles lie between two heavy lines of the grid.
pub open spec fn grid_step(intv: Intv) -> u16 {
    if intv.minutes() <= 5 {
        60
    } else if intv.minutes() <= 30 {
        15
    } else if intv.minutes() <= 720 {
        4
    } else {
        1
    }
}

/// The names of the chart of candles' link, and of the chart of volumes.
pub fn make_plot(name: &str) -> (r: (String, String))
    ensures
        r.0@ == "plot_id_"@ + name@,
        r.1@ == name@ + "_volume"@,
{
    (text::join2("plot_id_", name), text::join2(name, "_volume"))
}

/// Trades on the chart.
#[derive(Debug)]
pub struct OrderMarkers<F, S> {
    pub buy_markers: Vec<(i64, F)>,
    pub sell_markers: Vec<(i64, F)>,
    pub marker_size: S,
    pub percent_offset: F,
}

/// A trade on the chart, its price scaled by `factor`.
pub open spec fn marker<F: Number, L: Fn(i64) -> F>(m: (i64, F), factor: F, long: L) -> (F, F) {
    (reader::result::<i64, F, L>(long, m.0), num::product(m.1, factor))
}

fn scale_markers<F: Number, L: Fn(i64) -> F>(markers: &Vec<(i64, F)>, factor: F, long: &L) -> (r: Vec<
    (F, F),
>)
    requires
        num::lawful::<F>(),
        reader::pure::<i64, F, L>(*long),
        forall|i: int|
            0 <= i < markers@.len() ==> num::multiplies((#[trigger] markers@[i]).1, factor),
    ensures
        r@ == markers@.map_values(|m: (i64, F)| marker::<F, L>(m, factor, *long)),
{
    let ghost f = |m: (i64, F)| marker::<F, L>(m, factor, *long);
    let mut out: Vec<(F, F)> = Vec::new();
    let mut i: usize = 0;
    while i < markers.len()
        invariant
            num::lawful::<F>(),
            reader::pure::<i64, F, L>(*long),
            f == (|m: (i64, F)| marker::<F, L>(m, factor, *long)),
            forall|i: int|
                0 <= i < markers@.len() ==> num::multiplies((#[trigger] markers@[i]).1, factor),
            i <= markers@.len(),
            out@ == markers@.take(i as int).map_values(f),
        decreases markers@.len() - i,
    {
        let (x, y) = markers[i];
        assert(markers@[i as int].1 == y);
        out.push((reader::apply(long, x), y * factor));
        assert(out@ =~= markers@.take(i + 1).map_values(f));
        i += 1;
    }
    assert(markers@.take(markers@.len() as int) =~= markers@);
    out
}

impl<F: Number, S: Number> OrderMarkers<F, S> {
    /// There are no marks; they would be of size five and lie 0.2 percent beside the
    /// price.
    pub open spec fn fresh(&self) -> bool {
        &&& self.buy_markers@.len() == 0
        &&& self.sell_markers@.len() == 0
        &&& self.marker_size == num::lit::<S>(5)
        &&& self.percent_offset == num::frac::<F>(2, 1000)
    }

    /// No trades. Marks are of size five and lie 0.2 percent beside the price.
    pub fn new() -> (r: Self)
        requires
            num::lawful::<F>(),
            num::lawful::<S>(),
        ensures
            r.fresh(),
    {
        OrderMarkers {
            buy_markers: Vec::new(),
            sell_markers: Vec::new(),
            marker_size: num::whole(5),
            percent_offset: num::fraction(2, 1000),
        }
    }

    /// The marks of the trades: the bought ones below their price, and above.
    pub fn to_points<L: Fn(i64) -> F>(&self, long: &L) -> (r: (Vec<(F, F)>, Vec<(F, F)>))
        requires
            num::lawful::<F>(),
            reader::pure::<i64, F, L>(*long),
            num::subtracts(num::lit::<F>(1), self.percent_offset),
            num::sums(num::lit::<F>(1), self.percent_offset),
            forall|i: int|
                0 <= i < self.buy_markers@.len() ==> {
                    let y = (#[trigger] self.buy_markers@[i]).1;
                    num::multiplies(y, num::difference(num::lit(1), self.percent_offset))
                        && num::multiplies(y, num::sum(num::lit(1), self.percent_offset))
                },
        ensures
            r.0@ == self.buy_markers@.map_values(
                |m: (i64, F)|
                    marker::<F, L>(m, num::difference(num::lit(1), self.percent_offset), *long),
            ),
            r.1@ == self.buy_markers@.map_values(
                |m: (i64, F)|
                    marker::<F, L>(m, num::sum(num::lit(1), self.percent_offset), *long),
            ),
    {
        let one: F = num::whole(1);
        let below = scale_markers(&self.buy_markers, one - self.percent_offset, long);
        let above = scale_markers(&self.buy_markers, one + self.percent_offset, long);
        (below, above)
    }
}

/// The highest of the first `n` candles' highs, or zero where none is above.
pub open spec fn highest<F: Number>(k: Seq<Wick<F>>, n: int) -> F
    decreases n,
{
    if n <= 0 {
        num::lit(0)
    } else {
        let before = highest(k, n - 1);
        if num::greater(k[n - 1].2, before) {
            k[n - 1].2
        } else {
            before
        }
    }
}

/// The largest of the first `n` candles' volumes, or zero where none is above.
pub open spec fn largest_volume<F: Number>(k: Seq<Wick<F>>, n: int) -> F
    decreases n,
{
    if n <= 0 {
        num::lit(0)
    } else {
        let before = largest_volume(k, n - 1);
        if num::greater(k[n - 1].5, before) {
            k[n - 1].5
        } else {
            before
        }
    }
}

/// The lowest of `start` and the first `n` candles' lows.
pub open spec fn lowest<F: Number>(k: Seq<Wick<F>>, start: F, n: int) -> F
    decreases n,
{
    if n <= 0 {
        start
    } else {
        let before = lowest(k, start, n - 1);
        if num::less(k[n - 1].3, before) {
            k[n - 1].3
        } else {
            before
        }
    }
}

/// The highest of `start` and the first `n` candles' highs.
pub open spec fn highest_from<F: Number>(k: Seq<Wick<F>>, start: F, n: int) -> F
    decreases n,
{
    if n <= 0 {
        start
    } else {
        let before = highest_from(k, start, n - 1);
        if num::greater(k[n - 1].2, before) {
            k[n - 1].2
        } else {
            before
        }
    }
}

/// The first `n` candles on the chart, without those that opened in the second
/// `skip`.
pub open spec fn boxes<F: Number, L: Fn(i64) -> F>(
    k: Seq<Wick<F>>,
    divider: F,
    width: F,
    skip: Option<i64>,
    long: L,
    n: int,
) -> Seq<(CandleBox<F>, VolumeBar<F>)>
    decreases n,
{
    if n <= 0 {
        Seq::empty()
    } else {
        let before = boxes::<F, L>(k, divider, width, skip, long, n - 1);
        if skip == Some((k[n - 1].0.ms as int / 1000) as i64) {
            before
        } else {
            before.push(box_of::<F, L>(k[n - 1], divider, width, long))
        }
    }
}

/// The chart of one asset.
#[derive(Debug)]
pub struct KlinePlot<F, S> {
    pub candles: Vec<(CandleBox<F>, VolumeBar<F>)>,
    pub tick_candles: Vec<(CandleBox<F>, VolumeBar<F>)>,
    pub tick_kline: Option<Wick<F>>,
    pub markers: bool,
    pub points: OrderMarkers<F, S>,
    pub intv: Intv,
    pub name: String,
    pub loading: bool,
    pub static_loaded: bool,
    pub chart_params: (F, F),
    pub x_bounds: (F, F),
    pub y_bounds: (F, F),
    pub v_bound: F,
    pub tick_highest: F,
    pub tick_lowest: F,
    pub symbol: String,
    pub hlines: Vec<OrderLine<F>>,
    pub navi_wicks_s: String,
    pub navi_wicks: usize,
    pub get_data_timestamp: Option<i64>,
    pub ticks: usize,
    pub offset: i64,
    pub y_offset: i64,
    pub y_offset_s: String,
    pub y_increment: F,
    pub x_bounds_set: bool,
    pub live_asset_changed: bool,
}

/// What a chart shows.
#[derive(Debug, Clone, Copy, PartialEq, Eq, Structural)]
pub struct PlotPlan {
    /// The candles and volumes; nothing otherwise.
    pub candles: bool,
    /// The latest state of the open candle.
    pub tick: bool,
    /// The lines of the orders.
    pub lines: bool,
    /// The marks of the trades.
    pub markers: bool,
}

/// The first candle in view: ninety before the last, where there are as many.
pub open spec fn first_in_view(len: int) -> int {
    if len > WICKS_VISIBLE + 1 {
        len - 1 - WICKS_VISIBLE
    } else {
        0
    }
}

impl<F: Number, S: Number> KlinePlot<F, S> {
    /// This is the chart without candles, at one minute.
    pub open spec fn fresh(&self) -> bool {
        &&& self.candles@.len() == 0
        &&& self.tick_candles@.len() == 0
        &&& self.tick_kline is None
        &&& self.markers
        &&& self.points.fresh()
        &&& self.intv == Intv::Min1
        &&& self.name@ == Seq::<char>::empty()
        &&& !self.loading
        &&& !self.static_loaded
        &&& self.chart_params == (num::lit::<F>(1), num::lit::<F>(1))
        &&& self.x_bounds == (num::lit::<F>(0), num::lit::<F>(100))
        &&& self.y_bounds == (num::lit::<F>(0), num::lit::<F>(100))
        &&& self.v_bound == num::lit::<F>(100)
        &&& self.tick_highest == num::lit::<F>(0)
        &&& self.tick_lowest == num::lit::<F>(0)
        &&& self.symbol@ == "BTCUSDT"@
        &&& self.hlines@.len() == 0
        &&& self.navi_wicks_s@ == "30"@
        &&& self.navi_wicks == 30
        &&& self.get_data_timestamp is None
        &&& self.ticks == 0
        &&& self.offset == 0
        &&& self.y_offset == 0
        &&& self.y_offset_s@ == "10"@
        &&& self.y_increment == num::frac::<F>(1, 1000)
        &&& !self.x_bounds_set
        &&& !self.live_asset_changed
    }

    /// A chart without candles.
    pub fn new() -> (r: Self)
        requires
            num::lawful::<F>(),
            num::lawful::<S>(),
        ensures
            r.fresh(),
    {
        let zero: F = num::whole(0);
        let one: F = num::whole(1);
        let hundred: F = num::whole(100);
        KlinePlot {
            candles: Vec::new(),
            tick_candles: Vec::new(),
            tick_kline: None,
            markers: true,
            points: OrderMarkers::new(),
            intv: Intv::Min1,
            name: String::new(),
            loading: false,
            static_loaded: false,
            chart_params: (one, one),
            x_bounds: (zero, hundred),
            y_bounds: (zero, hundred),
            v_bound: hundred,
            tick_highest: zero,
            tick_lowest: zero,
            symbol: "BTCUSDT".to_owned(),
            hlines: Vec::new(),
            navi_wicks_s: "30".to_owned(),
            navi_wicks: 30,
            get_data_timestamp: None,
            ticks: 0,
            offset: 0,
            y_offset: 0,
            y_offset_s: "10".to_owned(),
            y_increment: num::fraction(1, 1000),
            x_bounds_set: false,
            live_asset_changed: false,
        }
    }

    /// What the chart shows: nothing until candles were loaded; the lines of the
    /// orders only where no open candle stands beside.
    pub fn show(&self) -> (r: PlotPlan)
        ensures
            ({
                let ready = !self.loading && self.static_loaded;
                r == (PlotPlan {
                    candles: ready,
                    tick: ready && self.tick_kline is Some,
                    lines: ready && self.tick_kline is None,
                    markers: ready && self.markers,
                })
            }),
    {
        let ready = !self.loading && self.static_loaded;
        PlotPlan {
            candles: ready,
            tick: ready && self.tick_kline.is_some(),
            lines: ready && self.tick_kline.is_none(),
            markers: ready && self.markers,
        }
    }

    /// The part of the time axis that is in view, from `t0` to `t1` and some way
    /// ahead, moved by the number of states of the open candle and by the
    /// offset.
    pub open spec fn x_view<L: Fn(i64) -> F>(&self, t0: Stamp, t1: Stamp, long: L) -> (F, F) {
        let sec = reader::result::<i64, F, L>(long, divider(self.intv) as i64);
        let w = num::product(sec, num::lit(CHART_FORWARD));
        let u = num::product(
            sec,
            num::sum(
                reader::result::<i64, F, L>(long, self.ticks as i64),
                reader::result::<i64, F, L>(long, self.offset),
            ),
        );
        let s0 = reader::result::<i64, F, L>(long, (t0.ms as int / 1000) as i64);
        let s1 = reader::result::<i64, F, L>(long, (t1.ms as int / 1000) as i64);
        (
            num::quotient(num::sum(s0, u), self.chart_params.0),
            num::quotient(num::sum(num::sum(s1, w), u), self.chart_params.0),
        )
    }

    /// Each operation that [`KlinePlot::x_view`] stands for is defined.
    pub open spec fn x_view_defined<L: Fn(i64) -> F>(&self, t0: Stamp, t1: Stamp, long: L) -> bool {
        let sec = reader::result::<i64, F, L>(long, divider(self.intv) as i64);
        let w = num::product(sec, num::lit(CHART_FORWARD));
        let n = reader::result::<i64, F, L>(long, self.ticks as i64);
        let m = reader::result::<i64, F, L>(long, self.offset);
        let u = num::product(sec, num::sum(n, m));
        let s0 = reader::result::<i64, F, L>(long, (t0.ms as int / 1000) as i64);
        let s1 = reader::result::<i64, F, L>(long, (t1.ms as int / 1000) as i64);
        &&& self.ticks <= i64::MAX
        &&& t0.wf() && t1.wf()
        &&& num::multiplies(sec, num::lit(CHART_FORWARD))
        &&& num::sums(n, m)
        &&& num::multiplies(sec, num::sum(n, m))
        &&& num::sums(s0, u)
        &&& num::sums(s1, w)
        &&& num::sums(num::sum(s1, w), u)
        &&& num::divides(num::sum(s0, u), self.chart_params.0)
        &&& num::divides(num::sum(num::sum(s1, w), u), self.chart_params.0)
    }

    fn view_x<L: Fn(i64) -> F>(&self, t0: Stamp, t1: Stamp, long: &L) -> (r: (F, F))
        requires
            num::lawful::<F>(),
            reader::pure::<i64, F, L>(*long),
            self.x_view_defined::<L>(t0, t1, *long),
        ensures
            r == self.x_view::<L>(t0, t1, *long),
    {
        let sec = reader::apply(long, self.intv.to_sec());
        let ahead: F = num::whole(CHART_FORWARD);
        let w = sec * ahead;
        let u = sec * (reader::apply(long, self.ticks as i64) + reader::apply(long, self.offset));
        let s0 = reader::apply(long, t0.timestamp());
        let s1 = reader::apply(long, t1.timestamp());
        ((s0 + u) / self.chart_params.0, (s1 + w + u) / self.chart_params.0)
    }

    /// By how much the price axis is stretched.
    pub open spec fn y_factor<L: Fn(i64) -> F>(&self, long: L) -> F {
        num::sum(
            num::lit(1),
            num::product(self.y_increment, reader::result::<i64, F, L>(long, self.y_offset)),
        )
    }

    /// The lowest and the highest price in view. While the open candle is shown
    /// and went beyond the candles `k`, its own lowest and highest count.
    pub open spec fn y_view<L: Fn(i64) -> F>(
        &self,
        k: Seq<Wick<F>>,
        tick: bool,
        tick_lowest: F,
        tick_highest: F,
        long: L,
    ) -> (F, F) {
        let n = k.len() as int;
        let hi = highest(k, n);
        let lo = lowest(k, k[0].3, n);
        let f = self.y_factor::<L>(long);
        if tick && (num::at_least(tick_highest, hi) || num::at_most(tick_lowest, lo)) {
            (num::product(tick_lowest, f), num::product(tick_highest, f))
        } else {
            (num::product(lo, f), num::product(hi, f))
        }
    }

    /// Each operation that drawing the candles `k` takes is defined.
    pub open spec fn draws<L: Fn(i64) -> F>(
        &self,
        k: Seq<Wick<F>>,
        divider: F,
        tick: bool,
        long: L,
    ) -> bool {
        let n = k.len() as int;
        let f = self.y_factor::<L>(long);
        let th = highest_from(k, self.tick_highest, n);
        let tl = lowest(k, self.tick_lowest, n);
        &&& forall|i: int| 0 <= i < n ==> box_defined::<F, L>(#[trigger] k[i], divider, long)
        &&& !self.x_bounds_set ==> self.x_view_defined::<L>(k[first_in_view(n)].0, k.last().0, long)
        &&& num::multiplies(
            self.y_increment,
            reader::result::<i64, F, L>(long, self.y_offset),
        )
        &&& num::sums(
            num::lit::<F>(1),
            num::product(self.y_increment, reader::result::<i64, F, L>(long, self.y_offset)),
        )
        &&& num::multiplies(highest(k, n), f)
        &&& num::multiplies(lowest(k, k[0].3, n), f)
        &&& tick ==> num::multiplies(th, f) && num::multiplies(tl, f)
    }

    /// Draws the candles `kline_input`, in place of those drawn before: those of
    /// the past, or with `tick` the states of the open candle. Of the latter the
    /// candle that the past already ends with is left out.
    pub fn add_live<L: Fn(i64) -> F>(
        &mut self,
        kline_input: &[Wick<F>],
        divider: &F,
        width: &F,
        tick: bool,
        long: &L,
    )
        requires
            num::lawful::<F>(),
            reader::pure::<i64, F, L>(*long),
            kline_input@.len() > 0,
            old(self).draws::<L>(kline_input@, *divider, tick, *long),
        ensures
            ({
                let k = kline_input@;
                let n = k.len() as int;
                let th = if tick {
                    highest_from(k, old(self).tick_highest, n)
                } else {
                    old(self).tick_highest
                };
                let tl = if tick {
                    lowest(k, old(self).tick_lowest, n)
                } else {
                    old(self).tick_lowest
                };
                &&& final(self).candles@ == (if tick {
                    old(self).candles@
                } else {
                    boxes::<F, L>(k, *divider, *width, None, *long, n)
                })
                &&& final(self).tick_candles@ == (if tick {
                    boxes::<F, L>(k, *divider, *width, old(self).get_data_timestamp, *long, n)
                } else {
                    old(self).tick_candles@
                })
                &&& *final(self) == (KlinePlot {
                    candles: final(self).candles,
                    tick_candles: final(self).tick_candles,
                    get_data_timestamp: if tick {
                        old(self).get_data_timestamp
                    } else {
                        Some((k.last().0.ms as int / 1000) as i64)
                    },
                    x_bounds: if old(self).x_bounds_set {
                        old(self).x_bounds
                    } else {
                        old(self).x_view::<L>(k[first_in_view(n)].0, k.last().0, *long)
                    },
                    tick_highest: th,
                    tick_lowest: tl,
                    ticks: if tick {
                        n as usize
                    } else {
                        old(self).ticks
                    },
                    v_bound: largest_volume(k, n),
                    y_bounds: old(self).y_view::<L>(k, tick, tl, th, *long),
                    ..*old(self)
                })
            }),
    {
        let len = kline_input.len();
        let zero: F = num::whole(0);
        let one: F = num::whole(1);
        let ghost k = kline_input@;
        let ghost skip: Option<i64> = if tick {
            self.get_data_timestamp
        } else {
            None
        };
        let t0 = if len > WICKS_VISIBLE + 1 {
            kline_input[len - 1 - WICKS_VISIBLE].0
        } else {
            kline_input[0].0
        };
        let t1 = kline_input[len - 1].0;
        assert(box_defined::<F, L>(k[len - 1], *divider, *long));
        let x_bounds = if self.x_bounds_set {
            self.x_bounds
        } else {
            self.view_x(t0, t1, long)
        };
        let stretch = one + self.y_increment * reader::apply(long, self.y_offset);
        let mut drawn: Vec<(CandleBox<F>, VolumeBar<F>)> = Vec::new();
        let mut high: F = zero;
        let mut volume: F = zero;
        let mut low: F = kline_input[0].3;
        let mut tick_highest = self.tick_highest;
        let mut tick_lowest = self.tick_lowest;
        let last_known = self.get_data_timestamp;
        let mut i: usize = 0;
        assert(drawn@ =~= boxes::<F, L>(k, *divider, *width, skip, *long, 0));
        while i < len
            invariant
                num::lawful::<F>(),
                reader::pure::<i64, F, L>(*long),
                k == kline_input@,
                len == k.len(),
                len > 0,
                i <= len,
                skip == (if tick {
                    last_known
                } else {
                    None::<i64>
                }),
                forall|i: int|
                    0 <= i < k.len() ==> box_defined::<F, L>(#[trigger] k[i], *divider, *long),
                drawn@ == boxes::<F, L>(k, *divider, *width, skip, *long, i as int),
                high == highest(k, i as int),
                volume == largest_volume(k, i as int),
                low == lowest(k, k[0].3, i as int),
                tick ==> tick_highest == highest_from(k, self.tick_highest, i as int),
                tick ==> tick_lowest == lowest(k, self.tick_lowest, i as int),
                !tick ==> tick_highest == self.tick_highest,
                !tick ==> tick_lowest == self.tick_lowest,
            decreases len - i,
        {
            let wick = kline_input[i];
            assert(k[i as int] == wick);
            let (t, _, h, l, _, v) = wick;
            if h > high {
                high = h;
            }
            if v > volume {
                volume = v;
            }
            if l < low {
                low = l;
            }
            let element = box_element(&wick, divider, width, long);
            let t_secs = t.timestamp();
            if tick {
                let known = match last_known {
                    Some(s) => s == t_secs,
                    None => false,
                };
                if !known {
                    drawn.push(element);
                }
                if h > tick_highest {
                    tick_highest = h;
                }
                if l < tick_lowest {
                    tick_lowest = l;
                }
            } else {
                drawn.push(element);
            }
            i += 1;
        }
        self.x_bounds = x_bounds;
        self.v_bound = volume;
        if tick {
            self.tick_candles = drawn;
            self.tick_highest = tick_highest;
            self.tick_lowest = tick_lowest;
            self.ticks = len;
        } else {
            self.candles = drawn;
            self.get_data_timestamp = Some(t1.timestamp());
        }
        self.y_bounds =
        if tick && (tick_highest >= high || tick_lowest <= low) {
            (tick_lowest * stretch, tick_highest * stretch)
        } else {
            (low * stretch, high * stretch)
        };
    }
}

/// A line of an order on the chart.
#[derive(Debug)]
pub struct OrderLine<F> {
    pub buy: bool,
    pub active: bool,
    /// A stop is dotted, a price is solid.
    pub dotted: bool,
    pub price: F,
    pub label: &'static str,
}

/// A line on the chart, apart from the text as it is kept.
pub struct Line<F> {
    pub buy: bool,
    pub active: bool,
    pub dotted: bool,
    pub price: F,
    pub label: Seq<char>,
}

impl<F> OrderLine<F> {
    /// The line.
    pub open spec fn line(self) -> Line<F> {
        Line {
            buy: self.buy,
            active: self.active,
            dotted: self.dotted,
            price: self.price,
            label: self.label@,
        }
    }

    /// The color of the line, as red, green and blue: green where it buys, red
    /// where it sells, pale while the order is not active.
    pub fn color(&self) -> (r: (u8, u8, u8))
        ensures
            r == (match (self.buy, self.active) {
                (true, true) => (0u8, 255u8, 0u8),
                (true, false) => (188u8, 255u8, 188u8),
                (false, true) => (255u8, 0u8, 0u8),
                (false, false) => (255u8, 188u8, 188u8),
            }),
    {
        match (self.buy, self.active) {
            (true, true) => (0, 255, 0),
            (true, false) => (188, 255, 188),
            (false, true) => (255, 0, 0),
            (false, false) => (255, 188, 188),
        }
    }

    /// What the name of the line begins with.
    pub fn side_text(&self) -> (r: &'static str)
        ensures
            r@ == (if self.buy {
                "Buy"@
            } else {
                "Sell"@
            }),
    {
        if self.buy {
            "Buy"
        } else {
            "Sell"
        }
    }
}

/// The lines of an order: its price, and its stop dotted. A market order has
/// none.
pub open spec fn lines_of<F: Number + From<S>, S: Copy>(o: Order<F, S>, active: bool) -> Seq<
    Line<F>,
> {
    let buy = o.buys();
    match o {
        Order::Limit { price, .. } => seq![
            Line { buy, active, dotted: false, price, label: "Limit price"@ },
        ],
        Order::StopLimit { price, stop_price, .. } => seq![
            Line { buy, active, dotted: false, price, label: "Stop Limit stop"@ },
            Line {
                buy,
                active,
                dotted: true,
                price: num::widened::<S, F>(stop_price),
                label: "Stop Limit stop"@,
            },
        ],
        Order::StopMarket { price, .. } => seq![
            Line { buy, active, dotted: true, price, label: "Stop Market"@ },
        ],
        _ => Seq::empty(),
    }
}

/// The lines.
pub open spec fn line_views<F>(lines: Seq<OrderLine<F>>) -> Seq<Line<F>> {
    lines.map_values(|l: OrderLine<F>| l.line())
}

/// The lines of an order.
pub fn hline_order<F: Number + From<S>, S: Copy>(o: &Order<F, S>, active: bool) -> (r: Vec<
    OrderLine<F>,
>)
    requires
        num::widens::<S, F>(),
        *o != Order::<F, S>::Nothing,
    ensures
        line_views(r@) == lines_of(*o, active),
{
    let buy = o.get_side();
    let mut out: Vec<OrderLine<F>> = Vec::new();
    match *o {
        Order::Limit { price, .. } => {
            out.push(OrderLine { buy, active, dotted: false, price, label: "Limit price" });
        },
        Order::StopLimit { price, stop_price, .. } => {
            out.push(OrderLine { buy, active, dotted: false, price, label: "Stop Limit stop" });
            out.push(
                OrderLine {
                    buy,
                    active,
                    dotted: true,
                    price: F::from(stop_price),
                    label: "Stop Limit stop",
                },
            );
        },
        Order::StopMarket { price, .. } => {
            out.push(OrderLine { buy, active, dotted: true, price, label: "Stop Market" });
        },
        _ => {},
    }
    assert(line_views(out@) =~= lines_of(*o, active));
    out
}

/// The lines of the first `n` orders, one after the other.
pub open spec fn all_lines<F: Number + From<S>, S: Copy>(
    entries: Seq<(u64, (Order<F, S>, bool))>,
    n: int,
) -> Seq<Line<F>>
    decreases n,
{
    if n <= 0 {
        Seq::empty()
    } else {
        all_lines(entries, n - 1) + lines_of(entries[n - 1].1.0, entries[n - 1].1.1)
    }
}

/// Draws the lines of the orders, in place of those drawn before.
pub fn link_hline_orders<F: Number + From<S>, S: Copy>(
    orders: &LiveOrders<F, S>,
    hlines: &mut Vec<OrderLine<F>>,
)
    requires
        num::widens::<S, F>(),
        forall|i: int|
            0 <= i < orders.listed().len() ==> (#[trigger] orders.listed()[i]).1.0 != Order::<
                F,
                S,
            >::Nothing,
    ensures
        line_views(final(hlines)@) == all_lines(orders.listed(), orders.listed().len() as int),
{
    hlines.clear();
    let mut i: usize = 0;
    assert(line_views(hlines@) =~= all_lines(orders.listed(), 0));
    while i < orders.len()
        invariant
            num::widens::<S, F>(),
            forall|i: int|
                0 <= i < orders.listed().len() ==> (#[trigger] orders.listed()[i]).1.0 != Order::<
                    F,
                    S,
                >::Nothing,
            i <= orders.listed().len(),
            line_views(hlines@) == all_lines(orders.listed(), i as int),
        decreases orders.listed().len() - i,
    {
        let (_, (order, active)) = *orders.entry(i);
        assert(orders.listed()[i as int].1.0 == order);
        let mut lines = hline_order(&order, active);
        let ghost before = hlines@;
        let ghost added = lines@;
        hlines.append(&mut lines);
        assert(line_views(hlines@) =~= line_views(before) + line_views(added));
        i += 1;
    }
}

/// How the chart was asked to move.
#[derive(Debug, Clone, Copy, PartialEq, Eq, Structural)]
pub enum Navigation {
    Back,
    Forward,
    ResetX,
    Up,
    Down,
    ResetY,
}

/// The number of candles or steps that was typed; thirty where it is no number
/// of that size.
pub open spec fn typed_steps(t: Seq<char>) -> int {
    match text::whole_number(t) {
        Some(n) => if !text::negative(t) && n <= u16::MAX {
            n
        } else {
            NAVI_WICKS_DEFAULT as int
        },
        None => NAVI_WICKS_DEFAULT as int,
    }
}

fn read_steps(t: &str) -> (r: i64)
    ensures
        r == typed_steps(t@),
        0 <= r <= u16::MAX,
{
    match text::parse_unsigned(t, 65_535) {
        Some(n) => n as i64,
        None => NAVI_WICKS_DEFAULT as i64,
    }
}

impl<F: Number, S: Number> KlinePlot<F, S> {
    /// Moves the chart by the number of candles or steps that was typed.
    pub fn navigate(&mut self, to: Navigation)
        requires
            match to {
                Navigation::Back => i64::MIN <= old(self).offset - typed_steps(
                    old(self).navi_wicks_s@,
                ),
                Navigation::Forward => old(self).offset + typed_steps(old(self).navi_wicks_s@)
                    <= i64::MAX,
                Navigation::Up => old(self).y_offset + typed_steps(old(self).y_offset_s@)
                    <= i64::MAX,
                Navigation::Down => i64::MIN <= old(self).y_offset - typed_steps(
                    old(self).y_offset_s@,
                ),
                _ => true,
            },
        ensures
            ({
                let x = typed_steps(old(self).navi_wicks_s@);
                let y = typed_steps(old(self).y_offset_s@);
                *final(self) == (KlinePlot {
                    offset: match to {
                        Navigation::Back => (old(self).offset - x) as i64,
                        Navigation::Forward => (old(self).offset + x) as i64,
                        Navigation::ResetX => 0,
                        _ => old(self).offset,
                    },
                    y_offset: match to {
                        Navigation::Up => (old(self).y_offset + y) as i64,
                        Navigation::Down => (old(self).y_offset - y) as i64,
                        Navigation::ResetY => 0,
                        _ => old(self).y_offset,
                    },
                    ..*old(self)
                })
            }),
    {
        match to {
            Navigation::Back => {
                let n = read_steps(self.navi_wicks_s.as_str());
                self.offset = self.offset - n;
            },
            Navigation::Forward => {
                let n = read_steps(self.navi_wicks_s.as_str());
                self.offset = self.offset + n;
            },
            Navigation::ResetX => {
                self.offset = 0;
            },
            Navigation::Up => {
                let n = read_steps(self.y_offset_s.as_str());
                self.y_offset = self.y_offset + n;
            },
            Navigation::Down => {
                let n = read_steps(self.y_offset_s.as_str());
                self.y_offset = self.y_offset - n;
            },
            Navigation::ResetY => {
                self.y_offset = 0;
            },
        }
    }

    /// The candles of the asset on the chart from number `from` on; nothing where
    /// none are loaded.
    pub fn wicks_from<'a>(&self, ad: &'a AssetData<F>, from: usize) -> (r: Option<&'a [Wick<F>]>)
        requires
            ad.wf(),
            ad.loaded(self.symbol@, self.intv) ==> from <= ad.wicks(self.symbol@, self.intv).len(),
        ensures
            match r {
                Some(s) => ad.loaded(self.symbol@, self.intv) && s@ == ad.wicks(
                    self.symbol@,
                    self.intv,
                ).skip(from as int),
                None => !ad.loaded(self.symbol@, self.intv),
            },
    {
        match ad.load_full_intv(self.symbol.as_str(), &self.intv) {
            Ok(k) => Some(&k[from..k.len()]),
            Err(_) => None,
        }
    }

    /// The price at which the last candle of the asset on the chart closed;
    /// nothing where none is loaded.
    pub fn last_close(&self, ad: &AssetData<F>) -> (r: Option<F>)
        requires
            ad.wf(),
        ensures
            r == (if ad.loaded(self.symbol@, self.intv) && ad.wicks(self.symbol@, self.intv).len()
                > 0 {
                Some(ad.wicks(self.symbol@, self.intv).last().4)
            } else {
                None
            }),
    {
        match ad.load_full_intv(self.symbol.as_str(), &self.intv) {
            Ok(k) => if k.len() == 0 {
                None
            } else {
                Some(k[k.len() - 1].4)
            },
            Err(_) => None,
        }
    }

    /// The last `max_load_points` of the candles `k`.
    pub open spec fn latest(k: Seq<Wick<F>>, max_load_points: usize) -> Seq<Wick<F>> {
        if k.len() <= max_load_points {
            k
        } else {
            k.skip(k.len() - max_load_points)
        }
    }

    /// The chart is about to draw for the interval `intv`.
    pub open spec fn ready_for<L: Fn(i64) -> F>(&self, intv: Intv, long: L) -> Self {
        KlinePlot { chart_params: chart_params::<F, L>(intv, long), ..*self }
    }

    /// Each operation that drawing the last `max_load_points` candles of the asset
    /// `symbol` takes is defined, and there is one where they are loaded.
    pub open spec fn past_draws<L: Fn(i64) -> F>(
        &self,
        ad: AssetData<F>,
        symbol: Seq<char>,
        intv: Intv,
        max_load_points: usize,
        long: L,
    ) -> bool {
        &&& chart_defined::<F, L>(intv, long)
        &&& ad.loaded(symbol, intv) ==> {
            let k = Self::latest(ad.wicks(symbol, intv), max_load_points);
            k.len() > 0 && self.ready_for::<L>(intv, long).draws::<L>(
                k,
                chart_params::<F, L>(intv, long).0,
                false,
                long,
            )
        }
    }

    /// This is the chart `before` once the last `max_load_points` candles of the
    /// asset `symbol` were drawn, and `r` says how that went.
    pub open spec fn past_drawn<L: Fn(i64) -> F>(
        &self,
        before: Self,
        r: Result<(), Missing>,
        ad: AssetData<F>,
        symbol: Seq<char>,
        intv: Intv,
        max_load_points: usize,
        long: L,
    ) -> bool {
        match r {
            Err(e) => {
                &&& *self == before
                &&& e == (if ad.kline_data@.dom().contains(symbol) {
                    Missing::Interval
                } else {
                    Missing::Asset
                })
                &&& !ad.loaded(symbol, intv)
            },
            Ok(_) => {
                let k = Self::latest(ad.wicks(symbol, intv), max_load_points);
                let n = k.len() as int;
                let p = chart_params::<F, L>(intv, long);
                let start = before.ready_for::<L>(intv, long);
                &&& ad.loaded(symbol, intv)
                &&& self.candles@ == boxes::<F, L>(k, p.0, p.1, None, long, n)
                &&& self.tick_candles@ == before.tick_candles@
                &&& *self == (KlinePlot {
                    candles: self.candles,
                    tick_candles: self.tick_candles,
                    get_data_timestamp: Some((k.last().0.ms as int / 1000) as i64),
                    x_bounds: if before.x_bounds_set {
                        before.x_bounds
                    } else {
                        start.x_view::<L>(k[first_in_view(n)].0, k.last().0, long)
                    },
                    v_bound: largest_volume(k, n),
                    y_bounds: start.y_view::<L>(
                        k,
                        false,
                        before.tick_lowest,
                        before.tick_highest,
                        long,
                    ),
                    loading: false,
                    static_loaded: true,
                    ..start
                })
            },
        }
    }

    /// Draws the candles of the asset `symbol`, the last `max_load_points` of
    /// them.
    pub fn live_from_ad<L: Fn(i64) -> F>(
        &mut self,
        ad: &AssetData<F>,
        symbol: &str,
        intv: Intv,
        max_load_points: usize,
        long: &L,
    ) -> (r: Result<(), Missing>)
        requires
            num::lawful::<F>(),
            reader::pure::<i64, F, L>(*long),
            ad.wf(),
            old(self).past_draws::<L>(*ad, symbol@, intv, max_load_points, *long),
        ensures
            final(self).past_drawn::<L>(*old(self), r, *ad, symbol@, intv, max_load_points, *long),
    {
        let k = match ad.load_full_intv(symbol, &intv) {
            Ok(k) => k,
            Err(e) => return Err(e),
        };
        let (div, width) = get_chart_params(&intv, long);
        self.chart_params = (div, width);
        if k.len() <= max_load_points {
            self.add_live(k, &div, &width, false, long);
        } else {
            let from = k.len() - max_load_points;
            let latest = &k[from..k.len()];
            assert(latest@ =~= Self::latest(k@, max_load_points));
            self.add_live(latest, &div, &width, false, long);
        }
        self.loading = false;
        self.static_loaded = true;
        Ok(())
    }

    /// What came in of the candles of an interval: those that closed, and the
    /// last state of the open one.
    pub open spec fn came_in(data: SymbolOutput<F>, intv: Intv) -> Seq<KlineTick<F>> {
        let closed = if data.closed_klines@.dom().contains(intv) {
            data.closed_klines@[intv]@
        } else {
            Seq::empty()
        };
        if data.all_klines@.dom().contains(intv) && data.all_klines@[intv]@.len() > 0 {
            closed.push(data.all_klines@[intv]@.last())
        } else {
            closed
        }
    }

    /// The calendar can name the times of the states that came in.
    pub open spec fn came_in_nameable(data: SymbolOutput<F>, intv: Intv) -> bool {
        &&& data.closed_klines@.dom().contains(intv) ==> forall|i: int|
            0 <= i < data.closed_klines@[intv]@.len() ==> time::nameable(
                (#[trigger] data.closed_klines@[intv]@[i]).t as int,
            )
        &&& data.all_klines@.dom().contains(intv) ==> forall|i: int|
            0 <= i < data.all_klines@[intv]@.len() ==> time::nameable(
                (#[trigger] data.all_klines@[intv]@[i]).t as int,
            )
    }

    fn read_came_in(data: &SymbolOutput<F>, intv: &Intv) -> (r: Vec<Wick<F>>)
        requires
            data.wf(),
            Self::came_in_nameable(*data, *intv),
        ensures
            r@ == Self::came_in(*data, *intv).map_values(|k: KlineTick<F>| tick::tick_wick(k)),
    {
        let ghost f = |k: KlineTick<F>| tick::tick_wick(k);
        let mut k: Vec<Wick<F>> = match data.closed_klines.get(intv) {
            Some(closed) => KlineTick::to_kline_vec(closed.as_slice()),
            None => Vec::new(),
        };
        let ghost closed = k@;
        if let Some(open) = data.all_klines.get(intv) {
            let ok = KlineTick::to_kline_vec(open.as_slice());
            if ok.len() > 0 {
                k.push(ok[ok.len() - 1]);
            }
        }
        assert(k@ =~= Self::came_in(*data, *intv).map_values(f));
        k
    }

    /// The candles that came in for an interval.
    pub open spec fn wicks_in(data: SymbolOutput<F>, intv: Intv) -> Seq<Wick<F>> {
        Self::came_in(data, intv).map_values(|k: KlineTick<F>| tick::tick_wick(k))
    }

    /// Each operation that drawing what came in takes is defined.
    pub open spec fn live_draws<L: Fn(i64) -> F>(
        &self,
        intv: Intv,
        max_load_points: usize,
        data: SymbolOutput<F>,
        long: L,
    ) -> bool {
        let k = Self::wicks_in(data, intv);
        &&& chart_defined::<F, L>(intv, long)
        &&& Self::came_in_nameable(data, intv)
        &&& k.len() > 0 && max_load_points > 0 ==> self.ready_for::<L>(intv, long).draws::<L>(
            k,
            chart_params::<F, L>(intv, long).0,
            true,
            long,
        )
    }

    /// This is the chart `before` once what came in was drawn.
    pub open spec fn live_drawn<L: Fn(i64) -> F>(
        &self,
        before: Self,
        changed: (bool, String),
        intv: Intv,
        max_load_points: usize,
        data: SymbolOutput<F>,
        long: L,
    ) -> bool {
        let k = Self::wicks_in(data, intv);
        let n = k.len() as int;
        let p = chart_params::<F, L>(intv, long);
        let start = before.ready_for::<L>(intv, long);
        let th = highest_from(k, before.tick_highest, n);
        let tl = lowest(k, before.tick_lowest, n);
        let renamed = KlinePlot {
            symbol: if changed.0 {
                changed.1
            } else {
                before.symbol
            },
            live_asset_changed: changed.0 || before.live_asset_changed,
            static_loaded: true,
            ..start
        };
        if n > 0 && max_load_points > 0 {
            &&& self.candles@ == before.candles@
            &&& self.tick_candles@ == boxes::<F, L>(
                k,
                p.0,
                p.1,
                before.get_data_timestamp,
                long,
                n,
            )
            &&& *self == (KlinePlot {
                candles: self.candles,
                tick_candles: self.tick_candles,
                x_bounds: if before.x_bounds_set {
                    before.x_bounds
                } else {
                    start.x_view::<L>(k[first_in_view(n)].0, k.last().0, long)
                },
                tick_highest: th,
                tick_lowest: tl,
                ticks: n as usize,
                v_bound: largest_volume(k, n),
                y_bounds: start.y_view::<L>(k, true, tl, th, long),
                ..renamed
            })
        } else {
            *self == renamed
        }
    }

    /// Draws what came in for an asset: the candles that closed and the last
    /// state of the open one. `changed` is whether another asset came on show,
    /// and which.
    pub fn live_live_from_ad<L: Fn(i64) -> F>(
        &mut self,
        changed: &(bool, String),
        intv: Intv,
        max_load_points: usize,
        data: &SymbolOutput<F>,
        long: &L,
    )
        requires
            num::lawful::<F>(),
            reader::pure::<i64, F, L>(*long),
            data.wf(),
            old(self).live_draws::<L>(intv, max_load_points, *data, *long),
        ensures
            final(self).live_drawn::<L>(*old(self), *changed, intv, max_load_points, *data, *long),
    {
        if changed.0 {
            self.symbol = changed.1.clone();
            self.live_asset_changed = true;
        }
        let k = Self::read_came_in(data, &intv);
        let (div, width) = get_chart_params(&intv, long);
        self.chart_params = (div, width);
        if k.len() > 0 && max_load_points > 0 {
            self.add_live(k.as_slice(), &div, &width, true, long);
        }
        self.static_loaded = true;
    }
}

/// The axis of an interval is divided by its seconds.
pub proof fn the_axis_is_divided_by_the_seconds(i: Intv)
    ensures
        divider(i) == 60 * i.minutes(),
{
}

/// A number times one factor more is what it was before, times that factor; without factors it
/// stays.
pub proof fn scaling_takes_one_factor_more<F: Number>(x: F, factors: Seq<u16>, a: u16)
    ensures
        scaled(x, Seq::empty()) == x,
        scaled(x, factors.push(a)) == num::product(scaled(x, factors), num::lit(a)),
{
    assert(factors.push(a).drop_last() =~= factors);
}

/// One scaled by whole factors is their product.
proof fn one_factor_more(f: Seq<u16>, n: u64, a: u16, m: u64)
    requires
        scaled::<u64>(1, f) == n,
        n * a == m,
    ensures
        scaled::<u64>(1, f.push(a)) == m,
{
    scaling_takes_one_factor_more::<u64>(1, f, a);
    num::unsigned_constants(a, 1, 0);
    num::unsigned_compute(n, a as u64);
}

/// The factors of the width of a candle make up the minutes of its interval.
pub proof fn the_width_goes_with_the_minutes(i: Intv)
    ensures
        scaled::<u64>(1, width_factors(i)) == i.minutes(),
{
    let none = Seq::<u16>::empty();
    let hour = none.push(60);
    let day = hour.push(24);
    one_factor_more(none, 1, 3, 3);
    one_factor_more(none, 1, 5, 5);
    one_factor_more(none, 1, 15, 15);
    one_factor_more(none, 1, 30, 30);
    one_factor_more(none, 1, 60, 60);
    one_factor_more(hour, 60, 2, 120);
    one_factor_more(hour, 60, 4, 240);
    one_factor_more(hour, 60, 6, 360);
    one_factor_more(hour, 60, 8, 480);
    one_factor_more(hour, 60, 12, 720);
    one_factor_more(hour, 60, 24, 1440);
    one_factor_more(hour, 60, 72, 4320);
    one_factor_more(day, 1440, 7, 10080);
    one_factor_more(day, 1440, 30, 43200);
    assert(width_factors(Intv::Hour2) =~= hour.push(2));
    assert(width_factors(Intv::Hour4) =~= hour.push(4));
    assert(width_factors(Intv::Hour6) =~= hour.push(6));
    assert(width_factors(Intv::Hour8) =~= hour.push(8));
    assert(width_factors(Intv::Hour12) =~= hour.push(12));
    assert(width_factors(Intv::Day1) =~= day);
    assert(width_factors(Intv::Day3) =~= hour.push(72));
    assert(width_factors(Intv::Week1) =~= day.push(7));
    assert(width_factors(Intv::Month1) =~= day.push(30));
}

/// The candles of more than a day are a fifth wider; those of one minute are 45 seconds wide.
pub proof fn long_candles_are_a_fifth_wider<F: Number>(i: Intv)
    ensures
        wide(i) <==> i.minutes() > 1440,
        !wide(i) ==> base_width::<F>(i) == num::lit::<F>(45),
        wide(i) ==> base_width::<F>(i) == num::product(
            num::quotient(num::lit::<F>(12), num::lit(10)),
            num::lit(45),
        ),
{
}

/// The axis is divided by the seconds of the interval as a number, and a candle is as wide as its
/// minutes make it, in units of that axis.
pub proof fn candles_are_as_wide_as_their_interval<F: Number, L: Fn(i64) -> F>(i: Intv, long: L)
    ensures
        chart_params::<F, L>(i, long).0 == reader::result::<i64, F, L>(
            long,
            (60 * i.minutes()) as i64,
        ),
        chart_params::<F, L>(i, long).1 == num::quotient(
            scaled(base_width::<F>(i), width_factors(i)),
            chart_params::<F, L>(i, long).0,
        ),
{
}

/// A time lies on the axis at its whole seconds, in units of the axis.
pub proof fn times_lie_at_their_seconds<F: Number, L: Fn(i64) -> F>(t: Stamp, d: F, long: L)
    ensures
        axis_x::<F, L>(t, d, long) == num::quotient(
            reader::result::<i64, F, L>(long, (t.ms as int / 1000) as i64),
            d,
        ),
{
}

/// A candle rose exactly where it closed above its opening price. Its body lies between those two
/// prices, the lower one below, and its middle halfway between its lowest and its highest price.
/// Its volume stands at the same place and in the same color.
pub proof fn a_candle_lies_between_its_prices<L: Fn(i64) -> u64>(
    k: Wick<u64>,
    d: u64,
    width: u64,
    long: L,
)
    requires
        k.2 + k.3 <= u64::MAX,
    ensures
        ({
            let (b, v) = box_of::<u64, L>(k, d, width, long);
            &&& b.rising <==> k.4 > k.1
            &&& b.lower <= b.upper
            &&& b.lower == k.1 && b.upper == k.4 || b.lower == k.4 && b.upper == k.1
            &&& b.middle == (k.2 + k.3) / 2
            &&& b.high == k.2 && b.low == k.3
            &&& b.time == k.0 && b.x == axis_x::<u64, L>(k.0, d, long) && b.width == width
            &&& v.x == b.x && v.rising == b.rising && v.width == width && v.volume == k.5
        }),
{
    num::unsigned_compare(k.1, k.4);
    num::unsigned_constants(2, 1, 0);
    num::unsigned_compute(k.2, k.3);
    num::unsigned_compute((k.2 + k.3) as u64, 2);
}

/// The prices at which a candle opened and closed are its lower and its upper one, in the order
/// in which it went.
pub proof fn a_rising_candle_opens_below<F: Copy>(b: CandleBox<F>)
    ensures
        b.rising ==> b.open_and_close() == (b.lower, b.upper),
        !b.rising ==> b.open_and_close() == (b.upper, b.lower),
{
}

/// The heavy lines of the grid: every hour or so for minutes, every quarter of a day or so for
/// hours, every candle for days.
pub proof fn the_grid_grows_with_the_interval(i: Intv)
    ensures
        i == Intv::Min1 || i == Intv::Min3 || i == Intv::Min5 ==> grid_step(i) == 60,
        i == Intv::Min15 || i == Intv::Min30 ==> grid_step(i) == 15,
        i == Intv::Hour1 || i == Intv::Hour2 || i == Intv::Hour4 || i == Intv::Hour6 || i
            == Intv::Hour8 || i == Intv::Hour12 ==> grid_step(i) == 4,
        i == Intv::Day1 || i == Intv::Day3 || i == Intv::Week1 || i == Intv::Month1 ==> grid_step(i)
            == 1,
{
}

/// A mark lies at the time of its trade, at its price times the factor.
pub proof fn a_mark_lies_at_its_trade<F: Number, L: Fn(i64) -> F>(m: (i64, F), factor: F, long: L)
    ensures
        marker::<F, L>(m, factor, long).0 == reader::result::<i64, F, L>(long, m.0),
        marker::<F, L>(m, factor, long).1 == num::product(m.1, factor),
{
}

/// The highest price of candles is at least each of theirs, is one of theirs unless all are zero,
/// and the largest volume likewise.
pub proof fn the_highest_is_above_all(k: Seq<Wick<u64>>, n: int)
    requires
        0 <= n <= k.len(),
    ensures
        forall|i: int| 0 <= i < n ==> (#[trigger] k[i]).2 <= highest(k, n),
        highest(k, n) == 0 || exists|i: int| 0 <= i < n && (#[trigger] k[i]).2 == highest(k, n),
        forall|i: int| 0 <= i < n ==> (#[trigger] k[i]).5 <= largest_volume(k, n),
        largest_volume(k, n) == 0 || exists|i: int|
            0 <= i < n && (#[trigger] k[i]).5 == largest_volume(k, n),
    decreases n,
{
    num::unsigned_constants(0, 1, 0);
    if n > 0 {
        the_highest_is_above_all(k, n - 1);
        num::unsigned_compare(k[n - 1].2, highest(k, n - 1));
        num::unsigned_compare(k[n - 1].5, largest_volume(k, n - 1));
        if highest(k, n) != 0 {
            if highest(k, n) == highest(k, n - 1) {
                let i = choose|i: int| 0 <= i < n - 1 && (#[trigger] k[i]).2 == highest(k, n - 1);
                assert(k[i].2 == highest(k, n));
            } else {
                assert(k[n - 1].2 == highest(k, n));
            }
        }
        if largest_volume(k, n) != 0 {
            if largest_volume(k, n) == largest_volume(k, n - 1) {
                let i = choose|i: int|
                    0 <= i < n - 1 && (#[trigger] k[i]).5 == largest_volume(k, n - 1);
                assert(k[i].5 == largest_volume(k, n));
            } else {
                assert(k[n - 1].5 == largest_volume(k, n));
            }
        }
    }
}

/// The lowest price is at most the one it starts with and each of the candles', and is one of
/// these; the highest one from a start on likewise.
pub proof fn the_lowest_is_below_all(k: Seq<Wick<u64>>, start: u64, n: int)
    requires
        0 <= n <= k.len(),
    ensures
        lowest(k, start, n) <= start,
        forall|i: int| 0 <= i < n ==> lowest(k, start, n) <= (#[trigger] k[i]).3,
        lowest(k, start, n) == start || exists|i: int|
            0 <= i < n && (#[trigger] k[i]).3 == lowest(k, start, n),
        highest_from(k, start, n) >= start,
        forall|i: int| 0 <= i < n ==> highest_from(k, start, n) >= (#[trigger] k[i]).2,
        highest_from(k, start, n) == start || exists|i: int|
            0 <= i < n && (#[trigger] k[i]).2 == highest_from(k, start, n),
    decreases n,
{
    if n > 0 {
        the_lowest_is_below_all(k, start, n - 1);
        num::unsigned_compare(k[n - 1].3, lowest(k, start, n - 1));
        num::unsigned_compare(k[n - 1].2, highest_from(k, start, n - 1));
        if lowest(k, start, n) != start {
            if lowest(k, start, n) == lowest(k, start, n - 1) {
                let i = choose|i: int|
                    0 <= i < n - 1 && (#[trigger] k[i]).3 == lowest(k, start, n - 1);
                assert(k[i].3 == lowest(k, start, n));
            } else {
                assert(k[n - 1].3 == lowest(k, start, n));
            }
        }
        if highest_from(k, start, n) != start {
            if highest_from(k, start, n) == highest_from(k, start, n - 1) {
                let i = choose|i: int|
                    0 <= i < n - 1 && (#[trigger] k[i]).2 == highest_from(k, start, n - 1);
                assert(k[i].2 == highest_from(k, start, n));
            } else {
                assert(k[n - 1].2 == highest_from(k, start, n));
            }
        }
    }
}

/// Every candle is drawn, in its order, but for those that opened in the second to leave out.
pub proof fn every_candle_is_drawn<F: Number, L: Fn(i64) -> F>(
    k: Seq<Wick<F>>,
    d: F,
    width: F,
    skip: Option<i64>,
    long: L,
    n: int,
)
    requires
        0 <= n < k.len(),
    ensures
        boxes::<F, L>(k, d, width, skip, long, 0).len() == 0,
        skip == Some((k[n].0.ms as int / 1000) as i64) ==> boxes::<F, L>(
            k,
            d,
            width,
            skip,
            long,
            n + 1,
        ) == boxes::<F, L>(k, d, width, skip, long, n),
        skip != Some((k[n].0.ms as int / 1000) as i64) ==> boxes::<F, L>(
            k,
            d,
            width,
            skip,
            long,
            n + 1,
        ) == boxes::<F, L>(k, d, width, skip, long, n).push(box_of::<F, L>(k[n], d, width, long)),
        skip is None ==> boxes::<F, L>(k, d, width, skip, long, n).len() == n,
    decreases n,
{
    if n > 0 {
        every_candle_is_drawn::<F, L>(k, d, width, skip, long, n - 1);
    }
}

/// At most ninety candles before the last one are in view, and all of them where there are no
/// more.
pub proof fn ninety_candles_are_in_view(len: int)
    requires
        len > 0,
    ensures
        0 <= first_in_view(len) < len,
        len - 1 - first_in_view(len) == if len - 1 <= 90 {
            len - 1
        } else {
            90
        },
{
}

/// The view goes from the first time to the last one and forty candles further, both moved by as
/// many candles as there are states of the open one and as the chart was moved.
pub proof fn the_view_reaches_forty_candles_further<F: Number, S: Number, L: Fn(i64) -> F>(
    p: KlinePlot<F, S>,
    t0: Stamp,
    t1: Stamp,
    long: L,
)
    ensures
        ({
            let (left, right) = p.x_view::<L>(t0, t1, long);
            let n = |x: int| reader::result::<i64, F, L>(long, x as i64);
            let candle = n(60 * p.intv.minutes());
            let moved = num::product(candle, num::sum(n(p.ticks as int), n(p.offset as int)));
            let further = num::product(candle, num::lit(40));
            &&& left == num::quotient(num::sum(n(t0.ms as int / 1000), moved), p.chart_params.0)
            &&& right == num::quotient(
                num::sum(num::sum(n(t1.ms as int / 1000), further), moved),
                p.chart_params.0,
            )
        }),
{
}

/// The price axis is stretched by one and the typed steps of its increment, so that it is not at
/// all without a step.
pub proof fn no_step_stretches_nothing<F: Number, S: Number, L: Fn(i64) -> F>(
    p: KlinePlot<F, S>,
    long: L,
)
    ensures
        p.y_factor::<L>(long) == num::sum(
            num::lit(1),
            num::product(p.y_increment, reader::result::<i64, F, L>(long, p.y_offset)),
        ),
        num::exact::<F>() && reader::result::<i64, F, L>(long, p.y_offset) == num::lit::<F>(0)
            ==> p.y_factor::<L>(long) == num::lit::<F>(1),
{
}

/// The prices in view are the lowest and the highest of the candles, stretched; those of the open
/// candle where it is shown and goes as far or further on either side.
pub proof fn the_prices_in_view_hold_the_candles<F: Number, S: Number, L: Fn(i64) -> F>(
    p: KlinePlot<F, S>,
    k: Seq<Wick<F>>,
    tick: bool,
    tl: F,
    th: F,
    long: L,
)
    ensures
        ({
            let n = k.len() as int;
            let f = p.y_factor::<L>(long);
            let lo = lowest(k, k[0].3, n);
            let hi = highest(k, n);
            let (bottom, top) = p.y_view::<L>(k, tick, tl, th, long);
            let beyond = num::at_least(th, hi) || num::at_most(tl, lo);
            &&& !tick || !beyond ==> bottom == num::product(lo, f) && top == num::product(hi, f)
            &&& tick && beyond ==> bottom == num::product(tl, f) && top == num::product(th, f)
        }),
{
}

/// A market order has no line. A limit has a solid one at its price, a stop market order a dotted
/// one; a stop limit has a solid one at its price and a dotted one at its stop. Each line has the
/// side of its order, and is active where the order is.
pub proof fn lines_lie_at_the_prices_of_their_order<F: Number + From<S>, S: Copy>(
    o: Order<F, S>,
    active: bool,
    i: int,
)
    ensures
        ({
            let l = lines_of(o, active);
            &&& 0 <= i < l.len() ==> l[i].buy == o.buys() && l[i].active == active
            &&& o is Market || o is Nothing ==> l.len() == 0
            &&& o matches Order::Limit { price, .. } ==> l.len() == 1 && l[0].price == price
                && !l[0].dotted && l[0].label == "Limit price"@
            &&& o matches Order::StopMarket { price, .. } ==> l.len() == 1 && l[0].price == price
                && l[0].dotted && l[0].label == "Stop Market"@
            &&& o matches Order::StopLimit { price, stop_price, .. } ==> l.len() == 2 && l[0].price
                == price && !l[0].dotted && l[1].price == num::widened::<S, F>(stop_price)
                && l[1].dotted && l[0].label == "Stop Limit stop"@ && l[1].label
                == "Stop Limit stop"@
        }),
{
}

/// The lines of orders follow on each other, order by order, and a line is read off as it is.
pub proof fn lines_follow_their_orders<F: Number + From<S>, S: Copy>(
    entries: Seq<(u64, (Order<F, S>, bool))>,
    n: int,
    l: OrderLine<F>,
    lines: Seq<OrderLine<F>>,
    i: int,
)
    requires
        0 <= n < entries.len(),
    ensures
        all_lines(entries, 0).len() == 0,
        all_lines(entries, n + 1) == all_lines(entries, n) + lines_of(
            entries[n].1.0,
            entries[n].1.1,
        ),
        l.line().buy == l.buy && l.line().active == l.active && l.line().dotted == l.dotted
            && l.line().price == l.price && l.line().label == l.label@,
        line_views(lines).len() == lines.len(),
        0 <= i < lines.len() ==> line_views(lines)[i] == lines[i].line(),
{
}

/// A number of steps that was typed counts as it is, up to the largest short one; any other text
/// counts as thirty.
pub proof fn typed_steps_count_as_typed(t: Seq<char>)
    ensures
        text::whole_number(t) is None ==> typed_steps(t) == 30,
        text::negative(t) ==> typed_steps(t) == 30,
        text::whole_number(t) matches Some(n) ==> !text::negative(t) && n <= 65_535 ==> typed_steps(
            t,
        ) == n,
        text::whole_number(t) matches Some(n) ==> n > 65_535 ==> typed_steps(t) == 30,
{
}

/// The latest candles are the last ones, as many as are asked for, and all where there are fewer.
pub proof fn the_latest_candles_are_the_last<F: Number, S: Number>(
    k: Seq<Wick<F>>,
    max: usize,
    i: int,
)
    ensures
        ({
            let l = KlinePlot::<F, S>::latest(k, max);
            &&& k.len() <= max ==> l == k
            &&& k.len() > max ==> l.len() == max
            &&& 0 <= i < l.len() ==> l[l.len() - 1 - i] == k[k.len() - 1 - i]
        }),
{
}

/// Getting ready for an interval changes what the axis is divided by and how wide candles are, and
/// nothing else.
pub proof fn getting_ready_changes_the_measures<F: Number, S: Number, L: Fn(i64) -> F>(
    p: KlinePlot<F, S>,
    i: Intv,
    long: L,
)
    ensures
        p.ready_for::<L>(i, long).chart_params == chart_params::<F, L>(i, long),
        p.ready_for::<L>(i, long) == (KlinePlot {
            chart_params: p.ready_for::<L>(i, long).chart_params,
            ..p
        }),
{
}

/// Candles of the past are drawn where they are loaded: the latest of them, all of these, and the
/// chart is loaded then. Where they are not, nothing changes, and what is missing is told.
pub proof fn the_past_is_drawn_where_loaded<F: Number, S: Number, L: Fn(i64) -> F>(
    after: KlinePlot<F, S>,
    before: KlinePlot<F, S>,
    r: Result<(), Missing>,
    ad: AssetData<F>,
    symbol: Seq<char>,
    i: Intv,
    max: usize,
    long: L,
)
    requires
        after.past_drawn::<L>(before, r, ad, symbol, i, max, long),
    ensures
        r is Ok <==> ad.loaded(symbol, i),
        r is Err ==> after == before,
        r == Err::<(), Missing>(Missing::Asset) <==> !ad.kline_data@.dom().contains(symbol),
        r is Ok ==> {
            let k = KlinePlot::<F, S>::latest(ad.wicks(symbol, i), max);
            let n = k.len() as int;
            let p = chart_params::<F, L>(i, long);
            &&& after.candles@ == boxes::<F, L>(k, p.0, p.1, None, long, n)
            &&& after.chart_params == p
            &&& after.static_loaded && !after.loading
            &&& after.get_data_timestamp == Some((k.last().0.ms as int / 1000) as i64)
            &&& after.v_bound == largest_volume(k, n)
            &&& before.x_bounds_set ==> after.x_bounds == before.x_bounds
            &&& !before.x_bounds_set ==> after.x_bounds == before.ready_for::<L>(i, long).x_view::<
                L,
            >(k[first_in_view(n)].0, k.last().0, long)
            &&& after.y_bounds == before.ready_for::<L>(i, long).y_view::<L>(
                k,
                false,
                before.tick_lowest,
                before.tick_highest,
                long,
            )
        },
        after.tick_candles@ == before.tick_candles@ && after.symbol == before.symbol && after.intv
            == before.intv && after.offset == before.offset && after.y_offset == before.y_offset
            && after.ticks == before.ticks && after.tick_highest == before.tick_highest
            && after.tick_lowest == before.tick_lowest && after.hlines == before.hlines
            && after.markers == before.markers,
{
}

/// What came in of an interval are its closed candles, in their order, and behind them the last
/// state of the open one, where there is one.
pub proof fn what_came_in_ends_with_the_open_candle<F: Number, S: Number>(
    data: SymbolOutput<F>,
    i: Intv,
)
    ensures
        ({
            let k = KlinePlot::<F, S>::came_in(data, i);
            let open = data.all_klines@.dom().contains(i) && data.all_klines@[i]@.len() > 0;
            &&& open ==> k.len() > 0 && k.last() == data.all_klines@[i]@.last()
            &&& data.closed_klines@.dom().contains(i) && open ==> k.drop_last()
                == data.closed_klines@[i]@
            &&& data.closed_klines@.dom().contains(i) && !open ==> k == data.closed_klines@[i]@
            &&& !data.closed_klines@.dom().contains(i) ==> k.len() == if open {
                1nat
            } else {
                0
            }
            &&& KlinePlot::<F, S>::wicks_in(data, i).len() == k.len()
            &&& forall|j: int|
                0 <= j < k.len() ==> #[trigger] KlinePlot::<F, S>::wicks_in(data, i)[j] == (
                    Stamp { ms: k[j].t },
                    k[j].o,
                    k[j].h,
                    k[j].l,
                    k[j].c,
                    k[j].v,
                )
        }),
{
    let k = KlinePlot::<F, S>::came_in(data, i);
    let open = data.all_klines@.dom().contains(i) && data.all_klines@[i]@.len() > 0;
    if data.closed_klines@.dom().contains(i) && open {
        assert(k.drop_last() =~= data.closed_klines@[i]@);
    }
}

/// What came in is drawn beside the candles of the past, which stay: the candle that these end
/// with is left out. The lowest and the highest price of the open candle grow with it. Another
/// asset that came on show is taken over.
pub proof fn what_came_in_is_drawn_beside<F: Number, S: Number, L: Fn(i64) -> F>(
    after: KlinePlot<F, S>,
    before: KlinePlot<F, S>,
    changed: (bool, String),
    i: Intv,
    max: usize,
    data: SymbolOutput<F>,
    long: L,
)
    requires
        after.live_drawn::<L>(before, changed, i, max, data, long),
    ensures
        ({
            let k = KlinePlot::<F, S>::wicks_in(data, i);
            let n = k.len() as int;
            let p = chart_params::<F, L>(i, long);
            let draws = n > 0 && max > 0;
            &&& after.candles@ == before.candles@
            &&& after.static_loaded
            &&& after.chart_params == p
            &&& changed.0 ==> after.symbol == changed.1 && after.live_asset_changed
            &&& !changed.0 ==> after.symbol == before.symbol && after.live_asset_changed
                == before.live_asset_changed
            &&& draws ==> after.tick_candles@ == boxes::<F, L>(
                k,
                p.0,
                p.1,
                before.get_data_timestamp,
                long,
                n,
            ) && after.tick_highest == highest_from(k, before.tick_highest, n) && after.tick_lowest
                == lowest(k, before.tick_lowest, n) && after.ticks == n as usize && after.v_bound
                == largest_volume(k, n) && after.y_bounds == before.ready_for::<L>(
                i,
                long,
            ).y_view::<L>(k, true, after.tick_lowest, after.tick_highest, long)
            &&& !draws ==> after.tick_candles == before.tick_candles && after.ticks == before.ticks
                && after.x_bounds == before.x_bounds && after.y_bounds == before.y_bounds
            &&& before.x_bounds_set ==> after.x_bounds == before.x_bounds
            &&& draws && !before.x_bounds_set ==> after.x_bounds == before.ready_for::<L>(
                i,
                long,
            ).x_view::<L>(k[first_in_view(n)].0, k.last().0, long)
            &&& after.get_data_timestamp == before.get_data_timestamp && after.intv == before.intv
                && after.offset == before.offset && after.y_offset == before.y_offset
        }),
{
}

/// A chart starts empty, at one minute, with thirty candles to move by.
pub proof fn a_chart_starts_empty<F: Number, S: Number>(p: KlinePlot<F, S>)
    requires
        p.fresh(),
    ensures
        p.candles@.len() == 0 && p.tick_candles@.len() == 0 && p.hlines@.len() == 0,
        !p.loading && !p.static_loaded && !p.x_bounds_set && !p.live_asset_changed && p.markers,
        p.tick_kline is None && p.get_data_timestamp is None,
        p.intv == Intv::Min1 && p.symbol@ == "BTCUSDT"@ && p.name@.len() == 0,
        p.offset == 0 && p.y_offset == 0 && p.ticks == 0 && p.navi_wicks == 30,
        p.navi_wicks_s@ == "30"@ && p.y_offset_s@ == "10"@,
        p.y_increment == num::quotient(num::lit::<F>(1), num::lit(1000)),
        p.chart_params == (num::lit::<F>(1), num::lit::<F>(1)),
        p.x_bounds == (num::lit::<F>(0), num::lit::<F>(100)) && p.y_bounds == p.x_bounds && p.v_bound
            == num::lit::<F>(100),
        p.tick_highest == num::lit::<F>(0) && p.tick_lowest == num::lit::<F>(0),
        p.points.buy_markers@.len() == 0 && p.points.sell_markers@.len() == 0,
        p.points.marker_size == num::lit::<S>(5),
        p.points.percent_offset == num::quotient(num::lit::<F>(2), num::lit(1000)),
{
}

/// Where every operation of the number type is defined, candles whose times the calendar can name
/// can be drawn at every interval.
pub proof fn nameable_candles_can_be_drawn<F: Number, S: Number, L: Fn(i64) -> F>(
    p: KlinePlot<F, S>,
    k: Seq<Wick<F>>,
    i: Intv,
    d: F,
    tick: bool,
    long: L,
)
    requires
        num::total::<F>(),
        k.len() > 0,
        p.ticks <= i64::MAX,
        forall|j: int| 0 <= j < k.len() ==> (#[trigger] k[j]).0.wf(),
    ensures
        chart_defined::<F, L>(i, long),
        box_defined::<F, L>(k[0], d, long),
        p.draws::<L>(k, d, tick, long),
{
}

} // verus!
