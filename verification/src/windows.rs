//! The windows beside the orders: the live chart, the chart of the past, and the
//! list of assets on disk.

use crate::data::{AssetData, DLAsset, Missing, Wick};
use crate::intv::Intv;
use crate::live::{LiveAsset, LiveInfo};
use crate::message::{BinInstructs, ClientInstruct, SQLInstructs};
use crate::num;
use crate::num::Number;
use crate::plot;
use crate::plot::{KlinePlot, OrderMarkers};
use crate::reader;
use crate::stream;
use crate::stream::{Sorted, SymbolOutput};
use crate::text;
use crate::time;
use crate::time::Stamp;
use crate::trade::HistTrade;
use vstd::prelude::*;

verus! {

/// How many candles a trade goes over where no number is given.
pub const DEFAULT_TRADE_WICKS: u16 = 30;

/// How many candles before a time are loaded with it.
pub const BACKLOAD_WICKS: i64 = 720;

/// The milliseconds of a day.
pub const DAY_MS: i64 = 86_400_000;

impl<F: Number, S: Number> KlinePlot<F, S> {
    /// Shows the asset that the exchange has on show, where it has one.
    pub fn follow(&mut self, live_info: &LiveInfo<F, S>)
        ensures
            *final(self) == (KlinePlot {
                symbol: if live_info.live_asset_symbol_changed.1@.len() > 0 {
                    live_info.live_asset_symbol_changed.1
                } else {
                    old(self).symbol
                },
                ..*old(self)
            }),
    {
        if !live_info.live_asset_symbol_changed.1.as_str().is_empty() {
            self.symbol = live_info.live_asset_symbol_changed.1.clone();
        }
    }
}

/// What a round of a chart of the past hands out.
#[derive(Debug)]
pub struct Shown<F> {
    /// The candles from the one asked for on; nothing where none was asked for or
    /// none are loaded.
    pub wicks: Option<Vec<Wick<F>>>,
    /// The price at which the last candle closed, where one is loaded.
    pub last_close: Option<F>,
}

impl<F: Number, S: Number> KlinePlot<F, S> {
    /// The chart once it follows the asset on show.
    pub open spec fn followed(&self, asset: LiveAsset<F>) -> Self {
        if asset.live_asset_symbol_changed.1@.len() > 0 {
            KlinePlot { symbol: asset.live_asset_symbol_changed.1, ..*self }
        } else {
            *self
        }
    }

    /// This is the chart `before` once what came in for its asset was drawn; as it
    /// was where nothing did.
    pub open spec fn tick_drawn<L: Fn(i64) -> F>(
        &self,
        before: Self,
        came: Option<SymbolOutput<F>>,
        changed: (bool, String),
        max_load_points: usize,
        long: L,
    ) -> bool {
        match came {
            Some(data) => self.live_drawn::<L>(
                before,
                changed,
                before.intv,
                max_load_points,
                data,
                long,
            ),
            None => *self == before,
        }
    }

    /// This is the chart `before` once a live round was drawn: first what came in,
    /// then the candles that are loaded, both for the asset and the interval of
    /// `before`.
    pub open spec fn round_drawn<L: Fn(i64) -> F>(
        &self,
        before: Self,
        ad: AssetData<F>,
        came: Option<SymbolOutput<F>>,
        changed: (bool, String),
        max_load_points: usize,
        long: L,
    ) -> bool {
        exists|mid: Self, r: Result<(), Missing>| #[trigger]
            self.past_drawn::<L>(
                mid,
                r,
                ad,
                before.symbol@,
                before.intv,
                max_load_points,
                long,
            ) && mid.tick_drawn::<L>(before, came, changed, max_load_points, long)
    }

    /// Each operation that a live round takes is defined.
    pub open spec fn round_draws<L: Fn(i64) -> F>(
        &self,
        ad: AssetData<F>,
        came: Option<SymbolOutput<F>>,
        max_load_points: usize,
        long: L,
    ) -> bool {
        match came {
            Some(data) => {
                &&& self.live_draws::<L>(self.intv, max_load_points, data, long)
                &&& (KlinePlot {
                    ticks: if Self::wicks_in(data, self.intv).len() > 0 && max_load_points > 0 {
                        Self::wicks_in(data, self.intv).len() as usize
                    } else {
                        self.ticks
                    },
                    ..*self
                }).past_draws::<L>(ad, self.symbol@, self.intv, max_load_points, long)
            },
            None => self.past_draws::<L>(ad, self.symbol@, self.intv, max_load_points, long),
        }
    }

    /// One round of a live chart: `live_info` takes over what is known of the
    /// asset on show, the chart follows it, and draws what came in, `collected` by
    /// asset, and the candles that are loaded.
    pub fn show_live<L: Fn(i64) -> F>(
        &mut self,
        ad: &AssetData<F>,
        asset: &LiveAsset<F>,
        collected: &Sorted<F>,
        live_info: &mut LiveInfo<F, S>,
        max_load_points: usize,
        long: &L,
    )
        requires
            num::lawful::<F>(),
            reader::pure::<i64, F, L>(*long),
            ad.wf(),
            asset.wf(),
            stream::sorted_wf(*collected),
            old(live_info).wf(),
            old(self).followed(*asset).round_draws::<L>(
                *ad,
                came_for(*collected, old(self).followed(*asset).symbol@),
                max_load_points,
                *long,
            ),
        ensures
            final(live_info).wf(),
            final(live_info).took_over(old(live_info), *asset),
            final(self).round_drawn::<L>(
                old(self).followed(*asset),
                *ad,
                came_for(*collected, old(self).followed(*asset).symbol@),
                asset.live_asset_symbol_changed,
                max_load_points,
                *long,
            ),
    {
        live_info.take_over(asset);
        self.follow(live_info);
        let ghost p = *self;
        let symbol = self.symbol.clone();
        let intv = self.intv;
        if let Some(data) = collected.find(symbol.as_str()) {
            assert(came_for(*collected, p.symbol@) == Some(*data));
            self.live_live_from_ad(
                &asset.live_asset_symbol_changed,
                intv,
                max_load_points,
                data,
                long,
            );
        }
        let ghost mid = *self;
        let drawn = self.live_from_ad(ad, symbol.as_str(), intv, max_load_points, long);
        assert(self.past_drawn::<L>(mid, drawn, *ad, p.symbol@, p.intv, max_load_points, *long));
    }

    /// One round of a chart of the past: it draws the candles that are loaded, and
    /// hands out those from number `return_wicks` on.
    pub fn show_past<L: Fn(i64) -> F>(
        &mut self,
        ad: &AssetData<F>,
        return_wicks: Option<usize>,
        max_load_points: usize,
        long: &L,
    ) -> (r: Shown<F>)
        requires
            num::lawful::<F>(),
            reader::pure::<i64, F, L>(*long),
            ad.wf(),
            old(self).hands_out(*ad, return_wicks),
            old(self).past_draws::<L>(
                *ad,
                old(self).symbol@,
                old(self).intv,
                max_load_points,
                *long,
            ),
        ensures
            exists|drawn: Result<(), Missing>| #[trigger]
                final(self).past_drawn::<L>(
                    *old(self),
                    drawn,
                    *ad,
                    old(self).symbol@,
                    old(self).intv,
                    max_load_points,
                    *long,
                ),
            old(self).handed_out(*ad, return_wicks, r.wicks),
            r.last_close == old(self).closed_at(*ad),
    {
        let wicks = match return_wicks {
            Some(n) => match self.wicks_from(ad, n) {
                Some(k) => Some(copy_wicks(k)),
                None => None,
            },
            None => None,
        };
        let last_close = self.last_close(ad);
        let symbol = self.symbol.clone();
        let intv = self.intv;
        let ghost p = *self;
        let drawn = self.live_from_ad(ad, symbol.as_str(), intv, max_load_points, long);
        assert(self.past_drawn::<L>(p, drawn, *ad, p.symbol@, p.intv, max_load_points, *long));
        Shown { wicks, last_close }
    }

    /// There are as many candles as are to be left out before those handed out.
    pub open spec fn hands_out(&self, ad: AssetData<F>, return_wicks: Option<usize>) -> bool {
        return_wicks matches Some(n) ==> (ad.loaded(self.symbol@, self.intv) ==> n <= ad.wicks(
            self.symbol@,
            self.intv,
        ).len())
    }

    /// The candles handed out: those from number `return_wicks` on.
    pub open spec fn handed_out(
        &self,
        ad: AssetData<F>,
        return_wicks: Option<usize>,
        wicks: Option<Vec<Wick<F>>>,
    ) -> bool {
        match (wicks, return_wicks) {
            (Some(w), Some(n)) => ad.loaded(self.symbol@, self.intv) && w@ == ad.wicks(
                self.symbol@,
                self.intv,
            ).skip(n as int),
            (Some(_), None) => false,
            (None, Some(_)) => !ad.loaded(self.symbol@, self.intv),
            (None, None) => true,
        }
    }

    /// The price at which the last candle closed, where one is loaded.
    pub open spec fn closed_at(&self, ad: AssetData<F>) -> Option<F> {
        if ad.loaded(self.symbol@, self.intv) && ad.wicks(self.symbol@, self.intv).len() > 0 {
            Some(ad.wicks(self.symbol@, self.intv).last().4)
        } else {
            None
        }
    }
}

/// What came in for the asset `symbol`.
pub open spec fn came_for<F: Copy>(collected: Sorted<F>, symbol: Seq<char>) -> Option<
    SymbolOutput<F>,
> {
    if collected@.dom().contains(symbol) {
        Some(collected@[symbol])
    } else {
        None
    }
}

/// The same candles once more.
fn copy_wicks<F: Copy>(k: &[Wick<F>]) -> (r: Vec<Wick<F>>)
    ensures
        r@ == k@,
{
    let mut out: Vec<Wick<F>> = Vec::new();
    let mut i: usize = 0;
    while i < k.len()
        invariant
            i <= k@.len(),
            out@ == k@.take(i as int),
        decreases k@.len() - i,
    {
        out.push(k[i]);
        assert(out@ =~= k@.take(i + 1));
        i += 1;
    }
    assert(k@.take(k@.len() as int) =~= k@);
    out
}

/// The same marks once more.
fn copy_marks<F: Copy>(m: &Vec<(i64, F)>) -> (r: Vec<(i64, F)>)
    ensures
        r@ == m@,
{
    let mut out: Vec<(i64, F)> = Vec::new();
    let mut i: usize = 0;
    while i < m.len()
        invariant
            i <= m@.len(),
            out@ == m@.take(i as int),
        decreases m@.len() - i,
    {
        out.push(m[i]);
        assert(out@ =~= m@.take(i + 1));
        i += 1;
    }
    assert(m@.take(m@.len() as int) =~= m@);
    out
}

/// The live chart.
#[derive(Debug)]
pub struct LivePlot<F, S> {
    pub kline_plot: KlinePlot<F, S>,
    pub search_string: String,
    pub symbol: String,
    pub default_symbol: String,
    pub intv: Intv,
    pub last_intv: Intv,
    pub reload: bool,
    pub last_symbol: String,
}

impl<F: Number, S: Number> LivePlot<F, S> {
    /// This is the chart of the asset `symbol` at the interval `intv`, before anything
    /// was drawn.
    pub open spec fn fresh(&self, intv: Intv, symbol: Seq<char>) -> bool {
        &&& self.search_string@ == Seq::<char>::empty()
        &&& self.symbol@ == symbol
        &&& self.default_symbol@ == symbol
        &&& self.intv == intv
        &&& self.last_intv == intv
        &&& !self.reload
        &&& self.last_symbol@ == "BTCUSDT"@
        &&& self.kline_plot.fresh()
    }

    /// The chart of the asset `default_symbol` at the interval `default_intv`.
    pub fn new(default_intv: &Intv, default_symbol: &str) -> (r: Self)
        requires
            num::lawful::<F>(),
            num::lawful::<S>(),
        ensures
            r.fresh(*default_intv, default_symbol@),
    {
        LivePlot {
            kline_plot: KlinePlot::new(),
            search_string: String::new(),
            symbol: default_symbol.to_owned(),
            default_symbol: default_symbol.to_owned(),
            intv: *default_intv,
            last_intv: *default_intv,
            reload: false,
            last_symbol: "BTCUSDT".to_owned(),
        }
    }

    /// The interval is taken over, where it was changed.
    pub open spec fn interval_taken(self) -> Self {
        LivePlot {
            last_intv: self.intv,
            kline_plot: KlinePlot {
                intv: if self.intv != self.last_intv {
                    self.intv
                } else {
                    self.kline_plot.intv
                },
                ..self.kline_plot
            },
            reload: self.reload && self.intv == self.last_intv,
            ..self
        }
    }

    /// One round: takes over the asset that was on show, draws the chart, and then
    /// takes over the interval, where it was changed.
    pub fn show<L: Fn(i64) -> F>(
        &mut self,
        ad: &AssetData<F>,
        asset: &LiveAsset<F>,
        collected: &Sorted<F>,
        live_info: &mut LiveInfo<F, S>,
        max_load_points: usize,
        long: &L,
    )
        requires
            num::lawful::<F>(),
            reader::pure::<i64, F, L>(*long),
            ad.wf(),
            asset.wf(),
            stream::sorted_wf(*collected),
            old(live_info).wf(),
            old(self).kline_plot.followed(*asset).round_draws::<L>(
                *ad,
                came_for(*collected, old(self).kline_plot.followed(*asset).symbol@),
                max_load_points,
                *long,
            ),
        ensures
            final(live_info).wf(),
            final(live_info).took_over(old(live_info), *asset),
            exists|drawn: KlinePlot<F, S>|
                {
                    &&& #[trigger] drawn.round_drawn::<L>(
                        old(self).kline_plot.followed(*asset),
                        *ad,
                        came_for(*collected, old(self).kline_plot.followed(*asset).symbol@),
                        asset.live_asset_symbol_changed,
                        max_load_points,
                        *long,
                    )
                    &&& *final(self) == (LivePlot {
                        symbol: old(live_info).live_asset_symbol_changed.1,
                        kline_plot: drawn,
                        ..*old(self)
                    }).interval_taken()
                },
    {
        self.symbol = live_info.live_asset_symbol_changed.1.clone();
        self.kline_plot.show_live(ad, asset, collected, live_info, max_load_points, long);
        let ghost drawn = self.kline_plot;
        if self.intv != self.last_intv {
            self.last_intv = self.intv;
            self.kline_plot.intv = self.intv;
            self.reload = false;
        }
        assert(*self == (LivePlot {
            symbol: old(live_info).live_asset_symbol_changed.1,
            kline_plot: drawn,
            ..*old(self)
        }).interval_taken());
    }

    /// The message that asks for the asset that was typed.
    pub fn on_search(&self) -> (r: ClientInstruct<F, S>)
        ensures
            r == ClientInstruct::<F, S>::SendBinInstructs(
                BinInstructs::ChangeLiveAsset {
                    symbol: self.search_string,
                    defualt_symbol: self.default_symbol,
                },
            ),
    {
        ClientInstruct::SendBinInstructs(
            BinInstructs::ChangeLiveAsset {
                symbol: self.search_string.clone(),
                defualt_symbol: self.default_symbol.clone(),
            },
        )
    }

    /// The message that lets the stream connect again.
    pub fn on_reload() -> (r: ClientInstruct<F, S>)
        ensures
            r == ClientInstruct::<F, S>::SendBinInstructs(BinInstructs::ReConnectWS),
    {
        ClientInstruct::SendBinInstructs(BinInstructs::ReConnectWS)
    }

    /// The message that closes the stream.
    pub fn on_stop() -> (r: ClientInstruct<F, S>)
        ensures
            r == ClientInstruct::<F, S>::SendBinInstructs(BinInstructs::Disconnect),
    {
        ClientInstruct::SendBinInstructs(BinInstructs::Disconnect)
    }
}

/// What the chart of the past tells the orders beside it.
#[derive(Debug)]
pub struct HistExtras<F> {
    pub last_price: F,
    /// The pair and its two assets.
    pub symbol_info: (String, String, String),
}

impl<F: Number> HistExtras<F> {
    /// No price, and no names.
    pub open spec fn fresh(&self) -> bool {
        &&& self.last_price == num::lit::<F>(0)
        &&& self.symbol_info.0@ == Seq::<char>::empty()
        &&& self.symbol_info.1@ == Seq::<char>::empty()
        &&& self.symbol_info.2@ == Seq::<char>::empty()
    }

    /// Nothing told yet.
    pub fn new() -> (r: Self)
        requires
            num::lawful::<F>(),
        ensures
            r.fresh(),
    {
        HistExtras {
            last_price: num::whole(0),
            symbol_info: (String::new(), String::new(), String::new()),
        }
    }
}

/// The chart of the past.
#[derive(Debug)]
pub struct HistPlot<F, S> {
    pub kline_plot: KlinePlot<F, S>,
    pub search_load_string: String,
    pub intv: Intv,
    pub last_intv: Intv,
    /// When the picked day begins.
    pub picked_day: Stamp,
    pub trade_h_s: String,
    pub trade_min_s: String,
    pub navi_wicks: u16,
    pub trade_wicks: u16,
    pub navi_wicks_s: String,
    pub trade_wicks_s: String,
    pub trade_time: i64,
    pub last_trade_time: i64,
    pub trade_slice_loaded: bool,
}

/// When the day of `now` begins.
pub open spec fn day_start(now: Stamp) -> int {
    now.ms as int / DAY_MS as int * DAY_MS
}

/// What was typed for hours or minutes: zero where it is no number, or one above
/// `max`.
pub open spec fn typed_time(t: Seq<char>, max: int) -> int {
    match text::whole_number(t) {
        Some(n) => if !text::negative(t) && n <= max {
            n
        } else {
            0
        },
        None => 0,
    }
}

/// A small number above `max` was typed: the text is set back.
pub open spec fn too_large(t: Seq<char>, max: int) -> bool {
    text::whole_number(t) matches Some(n) && !text::negative(t) && max < n <= u16::MAX
}

fn read_time(t: &mut String, max: u16) -> (r: i64)
    ensures
        r == typed_time(old(t)@, max as int),
        0 <= r <= max,
        final(t)@ == (if too_large(old(t)@, max as int) {
            "00"@
        } else {
            old(t)@
        }),
{
    match text::parse_unsigned(t.as_str(), 65_535) {
        Some(n) => if n <= max as u64 {
            n as i64
        } else {
            *t = "00".to_owned();
            0
        },
        None => 0,
    }
}

/// The number of candles that was typed; thirty where it is no number of that
/// size.
pub open spec fn typed_wicks(t: Seq<char>) -> int {
    match text::whole_number(t) {
        Some(n) => if !text::negative(t) && n <= u16::MAX {
            n
        } else {
            DEFAULT_TRADE_WICKS as int
        },
        None => DEFAULT_TRADE_WICKS as int,
    }
}

/// The number of candles that was typed is one.
pub open spec fn wicks_typed(t: Seq<char>) -> bool {
    text::whole_number(t) matches Some(n) && !text::negative(t) && n <= u16::MAX
}

/// The last `n` of the candles `k`.
pub open spec fn last_wicks<F>(k: Seq<Wick<F>>, n: int) -> Seq<Wick<F>> {
    if k.len() > n {
        k.skip(k.len() - n)
    } else {
        k
    }
}

/// The price at which the last of the candles `k` closed, and the last
/// `trade_wicks` of them.
pub fn trade_slice<F: Copy>(k: &[Wick<F>], trade_wicks: u16) -> (r: (F, Vec<Wick<F>>))
    requires
        k@.len() > 0,
    ensures
        r.0 == k@.last().4,
        r.1@ == last_wicks(k@, trade_wicks as int),
{
    let n = trade_wicks as usize;
    let from: usize = if k.len() > n {
        k.len() - n
    } else {
        0
    };
    let mut out: Vec<Wick<F>> = Vec::new();
    let mut i: usize = from;
    while i < k.len()
        invariant
            from <= i <= k@.len(),
            out@ == k@.subrange(from as int, i as int),
        decreases k@.len() - i,
    {
        out.push(k[i]);
        assert(out@ =~= k@.subrange(from as int, i + 1));
        i += 1;
    }
    assert(out@ =~= last_wicks(k@, trade_wicks as int));
    (k[k.len() - 1].4, out)
}

impl<F: Number, S: Number> HistPlot<F, S> {
    /// This is the chart at the interval `intv` on the day of `now`, before anything was
    /// drawn. `wicks` candles are traded over.
    pub open spec fn fresh(&self, intv: Intv, wicks: i64, now: Stamp) -> bool {
        &&& self.intv == intv
        &&& self.last_intv == intv
        &&& self.search_load_string@ == Seq::<char>::empty()
        &&& self.picked_day.ms == day_start(now)
        &&& self.trade_h_s@ == "00"@
        &&& self.trade_min_s@ == "00"@
        &&& self.navi_wicks == 200
        &&& self.trade_wicks == wicks as u16
        &&& self.navi_wicks_s@ == text::signed_decimal(wicks as int)
        &&& self.trade_wicks_s@ == "30"@
        &&& self.trade_time == day_start(now)
        &&& self.last_trade_time == day_start(now)
        &&& !self.trade_slice_loaded
        &&& self.kline_plot.fresh()
    }

    /// The chart at the interval `intv`, on the day of `now`.
    pub fn new(intv: &Intv, default_trade_wicks: i64, now: Stamp) -> (r: Self)
        requires
            num::lawful::<F>(),
            num::lawful::<S>(),
            now.wf(),
        ensures
            r.fresh(*intv, default_trade_wicks, now),
    {
        let mut navi_wicks_s = String::new();
        text::push_signed(&mut navi_wicks_s, default_trade_wicks);
        assert(navi_wicks_s@ =~= text::signed_decimal(default_trade_wicks as int));
        let days: i64 = if now.ms >= 0 {
            now.ms / DAY_MS
        } else {
            -((-(now.ms + 1)) / DAY_MS) - 1
        };
        assert(days == now.ms as int / DAY_MS as int);
        let day = Stamp { ms: days * DAY_MS };
        HistPlot {
            kline_plot: KlinePlot::new(),
            search_load_string: String::new(),
            intv: *intv,
            last_intv: *intv,
            picked_day: day,
            trade_h_s: "00".to_owned(),
            trade_min_s: "00".to_owned(),
            navi_wicks: 200,
            trade_wicks: #[verifier::truncate] (default_trade_wicks as u16),
            navi_wicks_s,
            trade_wicks_s: "30".to_owned(),
            trade_time: day.ms,
            last_trade_time: day.ms,
            trade_slice_loaded: false,
        }
    }

    /// This is the chart `before` once the interval was taken over, where it was
    /// changed, and with it the marks of the run.
    pub open spec fn interval_taken(
        &self,
        before: Self,
        buys: Seq<(i64, F)>,
        sells: Seq<(i64, F)>,
    ) -> bool {
        let points = self.kline_plot.points;
        if before.intv != before.last_intv {
            &&& points.buy_markers@ == buys
            &&& points.sell_markers@ == sells
            &&& *self == (HistPlot {
                last_intv: before.intv,
                kline_plot: KlinePlot {
                    intv: before.intv,
                    points: OrderMarkers {
                        buy_markers: points.buy_markers,
                        sell_markers: points.sell_markers,
                        ..before.kline_plot.points
                    },
                    ..before.kline_plot
                },
                ..before
            })
        } else {
            *self == before
        }
    }

    /// One round: draws the chart and takes over the interval, where it was
    /// changed, and with it the marks of the run `h_trade`. Until the trade goes on,
    /// the last price is that of the last candle, and the names are those of the
    /// pair that is loaded. From then on the candles behind the first `trade_wicks` count: the
    /// last price is theirs, and the last `trade_wicks` of them go into `t_slice`.
    pub fn show<L: Fn(i64) -> F>(
        &mut self,
        ad: &AssetData<F>,
        h_trade: &HistTrade<F, S>,
        t_slice: &mut Vec<Wick<F>>,
        hist_extras: &mut HistExtras<F>,
        max_load_points: usize,
        long: &L,
    )
        requires
            num::lawful::<F>(),
            reader::pure::<i64, F, L>(*long),
            ad.wf(),
            old(self).trade_slice_loaded && ad.loaded(
                old(self).kline_plot.symbol@,
                old(self).kline_plot.intv,
            ) ==> old(self).trade_wicks < ad.wicks(
                old(self).kline_plot.symbol@,
                old(self).kline_plot.intv,
            ).len(),
            old(self).kline_plot.past_draws::<L>(
                *ad,
                old(self).kline_plot.symbol@,
                old(self).kline_plot.intv,
                max_load_points,
                *long,
            ),
        ensures
            ({
                let p = old(self).kline_plot;
                let n = old(self).trade_wicks as int;
                let k = ad.wicks(p.symbol@, p.intv);
                let sliced = old(self).trade_slice_loaded && ad.loaded(p.symbol@, p.intv);
                &&& final(t_slice)@ == (if sliced {
                    last_wicks(k.skip(n), n)
                } else {
                    old(t_slice)@
                })
                &&& final(hist_extras).last_price == (if sliced {
                    k.last().4
                } else if old(self).trade_slice_loaded {
                    old(hist_extras).last_price
                } else {
                    match p.closed_at(*ad) {
                        Some(c) => c,
                        None => old(hist_extras).last_price,
                    }
                })
                &&& final(hist_extras).symbol_info == (if !old(self).trade_slice_loaded
                    && ad.kline_data@.dom().contains(p.symbol@) {
                    let kk = ad.kline_data@[p.symbol@];
                    (kk.asset_pair, kk.s1_string, kk.s2_string)
                } else {
                    old(hist_extras).symbol_info
                })
            }),
            exists|drawn: KlinePlot<F, S>, r: Result<(), Missing>|
                {
                    &&& #[trigger] drawn.past_drawn::<L>(
                        old(self).kline_plot,
                        r,
                        *ad,
                        old(self).kline_plot.symbol@,
                        old(self).kline_plot.intv,
                        max_load_points,
                        *long,
                    )
                    &&& final(self).interval_taken(
                        HistPlot { kline_plot: drawn, ..*old(self) },
                        h_trade.buy_points@,
                        h_trade.sell_points@,
                    )
                },
    {
        let ghost p = self.kline_plot;
        if !self.trade_slice_loaded {
            if let Some(kk) = ad.kline_data.find(self.kline_plot.symbol.as_str()) {
                hist_extras.symbol_info = (
                    kk.asset_pair.clone(),
                    kk.s1_string.clone(),
                    kk.s2_string.clone(),
                );
            }
        }
        let loaded = self.trade_slice_loaded;
        let from: Option<usize> = if loaded {
            Some(self.trade_wicks as usize)
        } else {
            None
        };
        let shown = self.kline_plot.show_past(ad, from, max_load_points, long);
        if loaded {
            if let Some(k) = shown.wicks {
                let (last, slice) = trade_slice(k.as_slice(), self.trade_wicks);
                hist_extras.last_price = last;
                *t_slice = slice;
            }
        } else {
            if let Some(c) = shown.last_close {
                hist_extras.last_price = c;
            }
        }
        let ghost drawn = self.kline_plot;
        let ghost r = choose|r: Result<(), Missing>| #[trigger]
            drawn.past_drawn::<L>(p, r, *ad, p.symbol@, p.intv, max_load_points, *long);
        assert(drawn.past_drawn::<L>(p, r, *ad, p.symbol@, p.intv, max_load_points, *long));
        if self.intv != self.last_intv {
            self.last_intv = self.intv;
            self.kline_plot.intv = self.intv;
            self.kline_plot.points.buy_markers = copy_marks(&h_trade.buy_points);
            self.kline_plot.points.sell_markers = copy_marks(&h_trade.sell_points);
        }
        assert(self.interval_taken(
            HistPlot { kline_plot: drawn, ..*old(self) },
            h_trade.buy_points@,
            h_trade.sell_points@,
        ));
    }

    /// A time was to be shown: that of the picked day at the typed hour and
    /// minute. The message asks for the candles up to it.
    pub fn on_go_to(&mut self) -> (r: ClientInstruct<F, S>)
        requires
            old(self).picked_day.wf(),
        ensures
            ({
                let at = old(self).picked_day.ms + typed_time(old(self).trade_h_s@, 23) * 3_600_000
                    + typed_time(old(self).trade_min_s@, 59) * 60_000;
                &&& r == ClientInstruct::<F, S>::SendSQLInstructs(
                    SQLInstructs::LoadHistDataPart2 {
                        symbol: old(self).search_load_string,
                        backload_wicks: BACKLOAD_WICKS,
                        trade_time: at as i64,
                    },
                )
                &&& final(self).trade_time == at
                &&& final(self).trade_h_s@ == (if too_large(old(self).trade_h_s@, 23) {
                    "00"@
                } else {
                    old(self).trade_h_s@
                })
                &&& final(self).trade_min_s@ == (if too_large(old(self).trade_min_s@, 59) {
                    "00"@
                } else {
                    old(self).trade_min_s@
                })
            }),
            *final(self) == (HistPlot {
                trade_h_s: final(self).trade_h_s,
                trade_min_s: final(self).trade_min_s,
                trade_time: final(self).trade_time,
                kline_plot: KlinePlot {
                    symbol: old(self).search_load_string,
                    ..old(self).kline_plot
                },
                ..*old(self)
            }),
    {
        let hours = read_time(&mut self.trade_h_s, 23);
        let minutes = read_time(&mut self.trade_min_s, 59);
        let trade_time = self.picked_day.ms + hours * 3_600_000 + minutes * 60_000;
        self.kline_plot.symbol = self.search_load_string.clone();
        self.trade_time = trade_time;
        ClientInstruct::SendSQLInstructs(
            SQLInstructs::LoadHistDataPart2 {
                symbol: self.search_load_string.clone(),
                backload_wicks: BACKLOAD_WICKS,
                trade_time,
            },
        )
    }

    /// The trade was to go on, over the number of candles that was typed. The
    /// message asks for the candles up to that time.
    pub fn on_trade_forward(&mut self) -> (r: ClientInstruct<F, S>)
        requires
            old(self).trade_time + old(self).intv.minutes() * 60_000 * typed_wicks(
                old(self).trade_wicks_s@,
            ) <= i64::MAX,
        ensures
            ({
                let n = typed_wicks(old(self).trade_wicks_s@);
                let at = old(self).trade_time + old(self).intv.minutes() * 60_000 * n;
                &&& r == ClientInstruct::<F, S>::SendSQLInstructs(
                    SQLInstructs::LoadHistDataPart2 {
                        symbol: old(self).search_load_string,
                        backload_wicks: BACKLOAD_WICKS,
                        trade_time: at as i64,
                    },
                )
                &&& final(self).navi_wicks == n
                &&& final(self).trade_time == at
                &&& final(self).trade_wicks_s@ == (if wicks_typed(old(self).trade_wicks_s@) {
                    old(self).trade_wicks_s@
                } else {
                    "30"@
                })
            }),
            *final(self) == (HistPlot {
                navi_wicks: final(self).navi_wicks,
                trade_time: final(self).trade_time,
                trade_wicks_s: final(self).trade_wicks_s,
                trade_slice_loaded: true,
                ..*old(self)
            }),
    {
        let n: u16 = match text::parse_unsigned(self.trade_wicks_s.as_str(), 65_535) {
            Some(n) => n as u16,
            None => {
                self.trade_wicks_s = "30".to_owned();
                DEFAULT_TRADE_WICKS
            },
        };
        self.navi_wicks = n;
        let step = self.intv.to_ms();
        assert(step * n <= step * u16::MAX) by (nonlinear_arith)
            requires
                0 <= step,
                n <= u16::MAX,
        ;
        assert(0 <= step * n) by (nonlinear_arith)
            requires
                0 <= step,
        ;
        let new_trade_time = self.trade_time + step * (n as i64);
        self.trade_time = new_trade_time;
        self.trade_slice_loaded = true;
        ClientInstruct::SendSQLInstructs(
            SQLInstructs::LoadHistDataPart2 {
                symbol: self.search_load_string.clone(),
                backload_wicks: BACKLOAD_WICKS,
                trade_time: new_trade_time,
            },
        )
    }
}

/// The assets on disk, and what to do about them.
#[derive(Debug)]
pub struct DataManager {
    pub coin_search_string: String,
    pub shortlist_max: usize,
    pub max_backdate_months: usize,
    pub update_success: bool,
    pub update_ran: bool,
    pub update_status: String,
    pub asset_list_loaded: bool,
    pub asset_list: Vec<DLAsset>,
}

/// One line of the list of assets: the asset, the exchange, and between which
/// times its candles lie, where the calendar can name these.
#[derive(Debug)]
pub struct AssetRow {
    pub asset: String,
    pub exchange: String,
    pub start: Option<Stamp>,
    pub end: Option<Stamp>,
}

/// The line of an asset.
pub open spec fn row_of(a: DLAsset) -> AssetRow {
    AssetRow {
        asset: a.asset,
        exchange: a.exchange,
        start: if time::nameable(a.dat_start_t as int) {
            Some(Stamp { ms: a.dat_start_t })
        } else {
            None
        },
        end: if time::nameable(a.dat_end_t as int) {
            Some(Stamp { ms: a.dat_end_t })
        } else {
            None
        },
    }
}

/// The lines of the first `n` assets, without the one for tests.
pub open spec fn rows_of(list: Seq<DLAsset>, n: int) -> Seq<AssetRow>
    decreases n,
{
    if n <= 0 {
        Seq::empty()
    } else if list[n - 1].asset@ == "TEST"@ {
        rows_of(list, n - 1)
    } else {
        rows_of(list, n - 1).push(row_of(list[n - 1]))
    }
}

impl DataManager {
    /// Nothing listed, nothing updated.
    pub fn new() -> (r: Self)
        ensures
            r.coin_search_string@ == Seq::<char>::empty(),
            r.shortlist_max == 10,
            r.max_backdate_months == 120,
            !r.update_success,
            !r.update_ran,
            r.update_status@ == "Not ran"@,
            !r.asset_list_loaded,
            r.asset_list@.len() == 0,
    {
        DataManager {
            coin_search_string: String::new(),
            shortlist_max: 10,
            max_backdate_months: 120,
            update_success: false,
            update_ran: false,
            update_status: "Not ran".to_owned(),
            asset_list_loaded: false,
            asset_list: Vec::new(),
        }
    }

    /// The asset that was typed was to be kept on disk.
    pub fn on_add<F, S>(&mut self) -> (r: ClientInstruct<F, S>)
        ensures
            r matches ClientInstruct::SendSQLInstructs(
                SQLInstructs::InsertDLAsset { symbol, exchange },
            ) && symbol == old(self).coin_search_string && exchange@ == "Binance"@,
            *final(self) == (DataManager { asset_list_loaded: false, ..*old(self) }),
    {
        self.asset_list_loaded = false;
        ClientInstruct::SendSQLInstructs(
            SQLInstructs::InsertDLAsset {
                symbol: self.coin_search_string.clone(),
                exchange: "Binance".to_owned(),
            },
        )
    }

    /// All candles on disk were to be brought up to date.
    pub fn on_update_all<F, S>(&mut self) -> (r: ClientInstruct<F, S>)
        ensures
            r == ClientInstruct::<F, S>::SendSQLInstructs(SQLInstructs::UpdateDataAll),
            final(self).update_status@ == "Ran"@,
            *final(self) == (DataManager {
                update_ran: true,
                update_success: true,
                update_status: final(self).update_status,
                ..*old(self)
            }),
    {
        self.update_ran = true;
        self.update_success = true;
        self.update_status = "Ran".to_owned();
        ClientInstruct::SendSQLInstructs(SQLInstructs::UpdateDataAll)
    }

    /// One round: takes over the list of assets, once it is there.
    pub fn show<F>(&mut self, ad: &AssetData<F>)
        ensures
            ({
                let take = !old(self).asset_list_loaded && ad.downloaded_assets@.len() > 0;
                &&& final(self).asset_list@ == (if take {
                    ad.downloaded_assets@
                } else {
                    old(self).asset_list@
                })
                &&& *final(self) == (DataManager {
                    asset_list: final(self).asset_list,
                    asset_list_loaded: take || old(self).asset_list_loaded,
                    ..*old(self)
                })
            }),
    {
        if !self.asset_list_loaded && ad.downloaded_assets.len() > 0 {
            self.asset_list = copy_assets(&ad.downloaded_assets);
            self.asset_list_loaded = true;
        }
    }

    /// The list was to be loaded again.
    pub fn on_reload<F, S>(&mut self) -> (r: ClientInstruct<F, S>)
        ensures
            r == ClientInstruct::<F, S>::SendSQLInstructs(SQLInstructs::LoadDLAssetList),
            *final(self) == (DataManager { asset_list_loaded: false, ..*old(self) }),
    {
        self.asset_list_loaded = false;
        ClientInstruct::SendSQLInstructs(SQLInstructs::LoadDLAssetList)
    }

    /// An asset was to be deleted.
    pub fn on_delete<F, S>(&mut self, asset: &String) -> (r: ClientInstruct<F, S>)
        ensures
            r == ClientInstruct::<F, S>::SendSQLInstructs(
                SQLInstructs::DelAsset { symbol: *asset },
            ),
            *final(self) == (DataManager { asset_list_loaded: false, ..*old(self) }),
    {
        self.asset_list_loaded = false;
        ClientInstruct::SendSQLInstructs(SQLInstructs::DelAsset { symbol: asset.clone() })
    }

    /// The list of assets.
    pub fn rows(&self) -> (r: Vec<AssetRow>)
        ensures
            r@ == rows_of(self.asset_list@, self.asset_list@.len() as int),
    {
        let mut out: Vec<AssetRow> = Vec::new();
        let mut i: usize = 0;
        assert(out@ =~= rows_of(self.asset_list@, 0));
        while i < self.asset_list.len()
            invariant
                i <= self.asset_list@.len(),
                out@ == rows_of(self.asset_list@, i as int),
            decreases self.asset_list@.len() - i,
        {
            let a = &self.asset_list[i];
            if !text::same(a.asset.as_str(), "TEST") {
                out.push(
                    AssetRow {
                        asset: a.asset.clone(),
                        exchange: a.exchange.clone(),
                        start: time::from_timestamp_millis(a.dat_start_t),
                        end: time::from_timestamp_millis(a.dat_end_t),
                    },
                );
            }
            i += 1;
        }
        out
    }
}

/// The same assets once more.
fn copy_assets(list: &Vec<DLAsset>) -> (r: Vec<DLAsset>)
    ensures
        r@ == list@,
{
    let mut out: Vec<DLAsset> = Vec::new();
    let mut i: usize = 0;
    while i < list.len()
        invariant
            i <= list@.len(),
            out@ == list@.take(i as int),
        decreases list@.len() - i,
    {
        let a = &list[i];
        out.push(
            DLAsset {
                asset: a.asset.clone(),
                exchange: a.exchange.clone(),
                dat_start_t: a.dat_start_t,
                dat_end_t: a.dat_end_t,
            },
        );
        assert(out@ =~= list@.take(i + 1));
        i += 1;
    }
    assert(list@.take(list@.len() as int) =~= list@);
    out
}

/// Where a trade over the past goes on twice, the time moves by both numbers of
/// candles together.
pub proof fn trading_on_adds_up(start: int, intv: Intv, n: int, m: int)
    ensures
        (start + intv.minutes() * 60_000 * n) + intv.minutes() * 60_000 * m == start
            + intv.minutes() * 60_000 * (n + m),
{
    assert((start + intv.minutes() * 60_000 * n) + intv.minutes() * 60_000 * m == start
        + intv.minutes() * 60_000 * (n + m)) by (nonlinear_arith);
}

/// A chart follows the asset on show, where there is one, and changes nothing else.
pub proof fn a_chart_follows_the_asset_on_show<F: Number, S: Number>(
    p: KlinePlot<F, S>,
    asset: LiveAsset<F>,
)
    ensures
        asset.live_asset_symbol_changed.1@.len() > 0 ==> p.followed(asset).symbol
            == asset.live_asset_symbol_changed.1,
        asset.live_asset_symbol_changed.1@.len() == 0 ==> p.followed(asset).symbol == p.symbol,
        p.followed(asset) == (KlinePlot { symbol: p.followed(asset).symbol, ..p }),
{
}

/// What came in for an asset is its own, and nothing where it did not come up.
pub proof fn what_came_in_is_that_of_the_asset<F: Copy>(collected: Sorted<F>, symbol: Seq<char>)
    ensures
        came_for(collected, symbol) is Some <==> collected@.dom().contains(symbol),
        came_for(collected, symbol) matches Some(data) ==> data == collected@[symbol],
{
}

/// Where nothing came in for its asset a chart stays as it is; else that is drawn at its interval.
pub proof fn nothing_new_draws_nothing<F: Number, S: Number, L: Fn(i64) -> F>(
    after: KlinePlot<F, S>,
    before: KlinePlot<F, S>,
    came: Option<SymbolOutput<F>>,
    changed: (bool, String),
    max: usize,
    long: L,
)
    requires
        after.tick_drawn::<L>(before, came, changed, max, long),
    ensures
        came is None ==> after == before,
        came matches Some(data) ==> after.live_drawn::<L>(
            before,
            changed,
            before.intv,
            max,
            data,
            long,
        ),
{
}

/// After a live round the candles that are loaded for the asset and the interval of the chart are
/// drawn, where they are.
pub proof fn a_live_round_draws_what_is_loaded<F: Number, S: Number, L: Fn(i64) -> F>(
    after: KlinePlot<F, S>,
    before: KlinePlot<F, S>,
    ad: AssetData<F>,
    came: Option<SymbolOutput<F>>,
    changed: (bool, String),
    max: usize,
    long: L,
)
    requires
        after.round_drawn::<L>(before, ad, came, changed, max, long),
    ensures
        ad.loaded(before.symbol@, before.intv) ==> {
            let k = KlinePlot::<F, S>::latest(ad.wicks(before.symbol@, before.intv), max);
            let p = plot::chart_params::<F, L>(before.intv, long);
            &&& after.static_loaded && !after.loading
            &&& after.candles@ == plot::boxes::<F, L>(k, p.0, p.1, None, long, k.len() as int)
        },
        !ad.loaded(before.symbol@, before.intv) && came is None ==> after == before,
        !ad.loaded(before.symbol@, before.intv) ==> after.candles@ == before.candles@,
        after.intv == before.intv && after.offset == before.offset,
        came is Some && changed.0 ==> after.symbol == changed.1,
        came is None || !changed.0 ==> after.symbol == before.symbol,
{
    let (mid, r) = choose|mid: KlinePlot<F, S>, r: Result<(), Missing>| #[trigger]
        after.past_drawn::<L>(mid, r, ad, before.symbol@, before.intv, max, long)
            && mid.tick_drawn::<L>(before, came, changed, max, long);
    assert(after.past_drawn::<L>(mid, r, ad, before.symbol@, before.intv, max, long));
}

/// Candles are handed out where they are asked for and loaded: all of the asset's from the one
/// asked for on.
pub proof fn candles_are_handed_out_from_the_one_asked_for<F: Number, S: Number>(
    p: KlinePlot<F, S>,
    ad: AssetData<F>,
    from: Option<usize>,
    wicks: Option<Vec<Wick<F>>>,
)
    requires
        p.handed_out(ad, from, wicks),
        p.hands_out(ad, from),
    ensures
        wicks is Some <==> from is Some && ad.loaded(p.symbol@, p.intv),
        (wicks, from) matches (Some(w), Some(n)) ==> {
            let all = ad.wicks(p.symbol@, p.intv);
            &&& w@.len() == all.len() - n
            &&& forall|i: int| 0 <= i < w@.len() ==> #[trigger] w@[i] == all[n + i]
        },
{
}

/// As many candles as there are can be left out.
pub proof fn any_candle_can_be_the_first<F: Number, S: Number>(
    p: KlinePlot<F, S>,
    ad: AssetData<F>,
    n: usize,
)
    ensures
        p.hands_out(ad, None),
        !ad.loaded(p.symbol@, p.intv) ==> p.hands_out(ad, Some(n)),
        n <= ad.wicks(p.symbol@, p.intv).len() ==> p.hands_out(ad, Some(n)),
{
}

/// The last price is that at which the last candle of the asset and the interval closed.
pub proof fn the_last_price_is_that_of_the_last_candle<F: Number, S: Number>(
    p: KlinePlot<F, S>,
    ad: AssetData<F>,
)
    ensures
        p.closed_at(ad) is Some <==> ad.loaded(p.symbol@, p.intv) && ad.wicks(
            p.symbol@,
            p.intv,
        ).len() > 0,
        p.closed_at(ad) matches Some(c) ==> {
            let k = ad.wicks(p.symbol@, p.intv);
            c == k[k.len() - 1].4
        },
{
}

/// An interval that was changed is taken over by the chart, once; else the chart keeps its own.
pub proof fn a_changed_interval_is_taken_over<F: Number, S: Number>(w: LivePlot<F, S>)
    ensures
        ({
            let r = w.interval_taken();
            &&& w.intv != w.last_intv ==> r.kline_plot.intv == w.intv && !r.reload
            &&& w.intv == w.last_intv ==> r == w
            &&& r.intv == w.intv && r.last_intv == r.intv
            &&& r.interval_taken() == r
            &&& r.symbol == w.symbol && r.search_string == w.search_string && r.default_symbol
                == w.default_symbol
            &&& r.kline_plot == (KlinePlot { intv: r.kline_plot.intv, ..w.kline_plot })
        }),
{
}

/// A live chart starts with the asset and the interval given, and nothing drawn.
pub proof fn a_live_chart_starts_with_its_asset<F: Number, S: Number>(
    w: LivePlot<F, S>,
    i: Intv,
    symbol: Seq<char>,
)
    requires
        w.fresh(i, symbol),
    ensures
        w.symbol@ == symbol && w.default_symbol@ == symbol && w.search_string@.len() == 0,
        w.intv == i && w.last_intv == i && !w.reload,
        w.last_symbol@ == "BTCUSDT"@,
        w.kline_plot.fresh(),
{
}

/// A day begins at a whole number of days since 1970, at most one day before.
pub proof fn a_day_begins_at_midnight(now: Stamp)
    ensures
        day_start(now) % 86_400_000 == 0,
        day_start(now) <= now.ms < day_start(now) + 86_400_000,
{
    let d = now.ms as int / 86_400_000;
    vstd::arithmetic::div_mod::lemma_fundamental_div_mod(now.ms as int, 86_400_000);
    vstd::arithmetic::div_mod::lemma_mod_bound(now.ms as int, 86_400_000);
    vstd::arithmetic::div_mod::lemma_mod_multiples_basic(d, 86_400_000);
}

/// Hours and minutes count as typed up to their largest, and else as zero. Only a small number
/// above it sets the text back.
pub proof fn typed_times_count_as_typed(t: Seq<char>, max: int)
    requires
        0 <= max < 65_535,
    ensures
        text::whole_number(t) matches Some(n) ==> !text::negative(t) && n <= max ==> typed_time(
            t,
            max,
        ) == n && !too_large(t, max),
        text::whole_number(t) matches Some(n) ==> n > max ==> typed_time(t, max) == 0,
        text::whole_number(t) is None || text::negative(t) ==> typed_time(t, max) == 0 && !too_large(
            t,
            max,
        ),
        text::whole_number(t) matches Some(n) ==> !text::negative(t) && max < n <= 65_535
            ==> too_large(t, max),
        too_large(t, max) ==> typed_time(t, max) == 0,
{
}

/// A number of candles counts as typed, up to the largest short one; any other text counts as
/// thirty and as none typed.
pub proof fn typed_candles_count_as_typed(t: Seq<char>)
    ensures
        wicks_typed(t) <==> (text::whole_number(t) matches Some(n) && !text::negative(t) && n
            <= 65_535),
        wicks_typed(t) ==> text::whole_number(t) == Some(typed_wicks(t)),
        !wicks_typed(t) ==> typed_wicks(t) == 30,
{
}

/// The last candles are as many as are asked for, from the end, and all where there are fewer.
pub proof fn the_last_candles_are_at_the_end<F>(k: Seq<Wick<F>>, n: int, i: int)
    requires
        n >= 0,
    ensures
        ({
            let l = last_wicks(k, n);
            &&& k.len() <= n ==> l == k
            &&& k.len() > n ==> l.len() == n
            &&& 0 <= i < l.len() ==> l[l.len() - 1 - i] == k[k.len() - 1 - i]
        }),
{
}

/// A chart of the past starts at its interval at the beginning of the day, with nothing drawn and
/// as many candles to trade over as given.
pub proof fn a_chart_of_the_past_starts_with_the_day<F: Number, S: Number>(
    w: HistPlot<F, S>,
    i: Intv,
    wicks: i64,
    now: Stamp,
)
    requires
        w.fresh(i, wicks, now),
    ensures
        w.intv == i && w.last_intv == i,
        w.picked_day.ms == day_start(now) && w.trade_time == day_start(now) && w.last_trade_time
            == day_start(now),
        0 <= wicks <= u16::MAX ==> w.trade_wicks == wicks,
        w.navi_wicks == 200 && w.trade_wicks_s@ == "30"@ && w.navi_wicks_s@ == text::signed_decimal(
            wicks as int,
        ),
        w.trade_h_s@ == "00"@ && w.trade_min_s@ == "00"@ && w.search_load_string@.len() == 0,
        !w.trade_slice_loaded,
        w.kline_plot.fresh(),
{
}

/// A changed interval is taken over by the chart of the past, and with it the marks of the run;
/// else the chart stays as it is.
pub proof fn a_changed_interval_brings_the_marks<F: Number, S: Number>(
    after: HistPlot<F, S>,
    before: HistPlot<F, S>,
    buys: Seq<(i64, F)>,
    sells: Seq<(i64, F)>,
)
    requires
        after.interval_taken(before, buys, sells),
    ensures
        before.intv == before.last_intv ==> after == before,
        before.intv != before.last_intv ==> after.kline_plot.intv == before.intv && after.last_intv
            == before.intv && after.kline_plot.points.buy_markers@ == buys
            && after.kline_plot.points.sell_markers@ == sells,
        after.intv == before.intv && after.last_intv == after.intv,
        after.kline_plot.symbol == before.kline_plot.symbol && after.kline_plot.candles
            == before.kline_plot.candles && after.trade_time == before.trade_time
            && after.trade_wicks == before.trade_wicks && after.picked_day == before.picked_day
            && after.trade_slice_loaded == before.trade_slice_loaded,
{
}

/// Nothing is told at first: no price and no names.
pub proof fn nothing_is_told_at_first<F: Number>(e: HistExtras<F>)
    requires
        e.fresh(),
    ensures
        e.last_price == num::lit::<F>(0),
        e.symbol_info.0@.len() == 0 && e.symbol_info.1@.len() == 0 && e.symbol_info.2@.len() == 0,
{
}

/// Each asset on disk but the one for tests has a line, with its name, its exchange and the times
/// of its candles as far as the calendar can name them.
pub proof fn every_asset_has_its_line(list: Seq<DLAsset>, n: int)
    requires
        0 <= n < list.len(),
    ensures
        rows_of(list, 0).len() == 0,
        list[n].asset@ == "TEST"@ ==> rows_of(list, n + 1) == rows_of(list, n),
        list[n].asset@ != "TEST"@ ==> {
            let row = rows_of(list, n + 1).last();
            &&& rows_of(list, n + 1).drop_last() == rows_of(list, n)
            &&& rows_of(list, n + 1).len() == rows_of(list, n).len() + 1
            &&& row.asset == list[n].asset
            &&& row.exchange == list[n].exchange
            &&& row.start is Some <==> time::nameable(list[n].dat_start_t as int)
            &&& row.start matches Some(t) ==> t.ms == list[n].dat_start_t
            &&& row.end is Some <==> time::nameable(list[n].dat_end_t as int)
            &&& row.end matches Some(t) ==> t.ms == list[n].dat_end_t
        },
{
    if list[n].asset@ != "TEST"@ {
        assert(rows_of(list, n + 1).drop_last() =~= rows_of(list, n));
    }
}

} // verus!
