//! Candles, and where they are kept.

pub use crate::intv::Intv;
use crate::keymap::KeyMap;
use crate::text;
use crate::time::Stamp;
use vstd::prelude::*;

verus! {

/// One candle: the time at which it opened, the prices at which it opened, was
/// highest, was lowest and closed, and the volume traded.
pub type Wick<F> = (Stamp, F, F, F, F, F);

/// One candle with everything that the exchange tells about it.
#[derive(Debug, Clone, Copy)]
pub struct FatWick<F> {
    pub open_ms: i64,
    pub open_time: Stamp,
    pub open: F,
    pub high: F,
    pub low: F,
    pub close: F,
    pub volume: F,
    pub close_ms: i64,
    pub close_time: Stamp,
    pub quote_volume: F,
    pub trades: u64,
    pub taker_base_volume: F,
    pub taker_quote_volume: F,
}

/// Full candles in the order of time.
#[derive(Debug)]
pub struct FatKline<F> {
    pub kline: Vec<FatWick<F>>,
}

impl<F> FatKline<F> {
    /// The candles `kline`.
    pub fn new(kline: Vec<FatWick<F>>) -> (r: Self)
        ensures
            r.kline == kline,
    {
        FatKline { kline }
    }
}

/// Candles in the order of time.
#[derive(Debug)]
pub struct Kline<F> {
    pub kline: Vec<Wick<F>>,
}

impl<F> Kline<F> {
    /// No candles.
    pub fn new() -> (r: Self)
        ensures
            r.kline@ == Seq::<Wick<F>>::empty(),
    {
        Kline { kline: Vec::new() }
    }

    /// The candles `k`.
    pub fn new_sql(k: Vec<Wick<F>>) -> (r: Self)
        ensures
            r.kline == k,
    {
        Kline { kline: k }
    }

    /// The candles in `no_splits` pieces. With `b` for what is left over when
    /// their number is divided by `no_splits`, piece `n` begins at candle
    /// `n * b` and has `n` candles.
    pub fn split(&self, no_splits: usize) -> (r: Vec<&[Wick<F>]>)
        requires
            no_splits > 0,
            (no_splits - 1) * (self.kline@.len() % no_splits as nat + 1) <= self.kline@.len(),
        ensures
            r@.len() == no_splits,
            forall|n: int|
                0 <= n < no_splits ==> {
                    let b = self.kline@.len() as int % no_splits as int;
                    (#[trigger] r@[n])@ == self.kline@.subrange(n * b, n * (b + 1))
                },
    {
        let len = self.kline.len();
        let batch_size = len % no_splits;
        let mut output: Vec<&[Wick<F>]> = Vec::new();
        let mut n: usize = 0;
        while n < no_splits
            invariant
                n <= no_splits,
                output@.len() == n,
                len == self.kline@.len(),
                batch_size < no_splits,
                batch_size == self.kline@.len() % no_splits as nat,
                (no_splits - 1) * (batch_size + 1) <= self.kline@.len(),
                forall|m: int|
                    0 <= m < n ==> (#[trigger] output@[m])@ == self.kline@.subrange(
                        m * batch_size,
                        m * (batch_size + 1),
                    ),
            decreases no_splits - n,
        {
            assert(n * (batch_size + 1) <= (no_splits - 1) * (batch_size + 1)) by (nonlinear_arith)
                requires
                    n <= no_splits - 1,
                    batch_size >= 0,
            ;
            assert(0 <= n * batch_size <= n * (batch_size + 1)) by (nonlinear_arith)
                requires
                    n >= 0,
                    batch_size >= 0,
            ;
            let from: usize = n * batch_size;
            let to: usize = n * (batch_size + 1);
            output.push(&self.kline[from..to]);
            n += 1;
        }
        output
    }

    /// When the first and the last candle opened.
    pub fn get_start_end(&self) -> (r: (Stamp, Stamp))
        requires
            self.kline@.len() > 0,
        ensures
            r == (self.kline@[0].0, self.kline@.last().0),
    {
        (self.kline[0].0, self.kline[self.kline.len() - 1].0)
    }
}

/// The candles of one asset, for each interval.
#[derive(Debug)]
pub struct Klines<F> {
    /// The pair, and the two assets that it is made of.
    pub asset_pair: String,
    pub s1_string: String,
    pub s2_string: String,
    pub start_time: Stamp,
    pub end_time: Stamp,
    pub full_dat: KeyMap<Intv, FatKline<F>>,
    pub dat: KeyMap<Intv, Kline<F>>,
}

impl<F> Klines<F> {
    /// Each interval stands for one list of candles, and the times can be
    /// named.
    pub open spec fn wf(&self) -> bool {
        &&& self.start_time.wf()
        &&& self.end_time.wf()
        &&& self.full_dat.wf()
        &&& self.dat.wf()
    }

    /// The opening times of the first and the last candle of one minute, among
    /// the full candles or among the short ones; nothing where there is no such
    /// list.
    pub open spec fn times(&self, full: bool) -> Option<(Stamp, Stamp)> {
        if full {
            if self.full_dat@.dom().contains(Intv::Min1) {
                let k = self.full_dat@[Intv::Min1].kline@;
                Some((k[0].open_time, k.last().open_time))
            } else {
                None
            }
        } else {
            if self.dat@.dom().contains(Intv::Min1) {
                let k = self.dat@[Intv::Min1].kline@;
                Some((k[0].0, k.last().0))
            } else {
                None
            }
        }
    }

    /// The list of candles of one minute, where there is one, is not empty.
    pub open spec fn timed(&self, full: bool) -> bool {
        if full {
            self.full_dat@.dom().contains(Intv::Min1) ==> self.full_dat@[Intv::Min1].kline@.len()
                > 0
        } else {
            self.dat@.dom().contains(Intv::Min1) ==> self.dat@[Intv::Min1].kline@.len() > 0
        }
    }

    /// The names are those of `before`.
    pub open spec fn same_names(&self, before: &Self) -> bool {
        &&& self.asset_pair == before.asset_pair
        &&& self.s1_string == before.s1_string
        &&& self.s2_string == before.s2_string
    }

    /// There are no names yet.
    pub open spec fn nameless(&self) -> bool {
        &&& self.asset_pair@ == Seq::<char>::empty()
        &&& self.s1_string@ == Seq::<char>::empty()
        &&& self.s2_string@ == Seq::<char>::empty()
    }

    /// The candles `dat`, between the two times.
    pub fn new(start_time: Stamp, end_time: Stamp, dat: KeyMap<Intv, Kline<F>>) -> (r: Self)
        ensures
            r.start_time == start_time,
            r.end_time == end_time,
            r.dat == dat,
            r.full_dat.wf(),
            r.full_dat@ == Map::<Intv, FatKline<F>>::empty(),
            r.nameless(),
    {
        Klines {
            asset_pair: String::new(),
            s1_string: String::new(),
            s2_string: String::new(),
            start_time,
            end_time,
            full_dat: KeyMap::new(),
            dat,
        }
    }

    /// No candles.
    pub fn new_empty() -> (r: Self)
        ensures
            r.wf(),
            r.start_time.ms == 0,
            r.end_time.ms == 0,
            r.full_dat@ == Map::<Intv, FatKline<F>>::empty(),
            r.dat@ == Map::<Intv, Kline<F>>::empty(),
            r.nameless(),
    {
        Klines {
            asset_pair: String::new(),
            s1_string: String::new(),
            s2_string: String::new(),
            start_time: Stamp::epoch(),
            end_time: Stamp::epoch(),
            full_dat: KeyMap::new(),
            dat: KeyMap::new(),
        }
    }

    /// These are the candles of the pair `asset_pair`, which is made of `s1` and `s2`.
    pub fn name_pair(&mut self, asset_pair: &str, s1: &str, s2: &str)
        ensures
            final(self).asset_pair@ == asset_pair@,
            final(self).s1_string@ == s1@,
            final(self).s2_string@ == s2@,
            *final(self) == (Klines {
                asset_pair: final(self).asset_pair,
                s1_string: final(self).s1_string,
                s2_string: final(self).s2_string,
                ..*old(self)
            }),
    {
        self.asset_pair = asset_pair.to_owned();
        self.s1_string = s1.to_owned();
        self.s2_string = s2.to_owned();
    }

    /// Makes `kl` the candles of the interval `i`.
    pub fn insert(&mut self, i: &Intv, kl: Kline<F>)
        requires
            old(self).wf(),
        ensures
            final(self).wf(),
            final(self).dat@ == old(self).dat@.insert(*i, kl),
            final(self).full_dat == old(self).full_dat,
            final(self).start_time == old(self).start_time,
            final(self).end_time == old(self).end_time,
            final(self).same_names(old(self)),
    {
        let _ = self.dat.insert(*i, kl);
    }

    /// Makes `kl` the full candles of the interval `i`.
    pub fn insert_fat(&mut self, i: &Intv, kl: FatKline<F>)
        requires
            old(self).wf(),
        ensures
            final(self).wf(),
            final(self).full_dat@ == old(self).full_dat@.insert(*i, kl),
            final(self).dat == old(self).dat,
            final(self).start_time == old(self).start_time,
            final(self).end_time == old(self).end_time,
            final(self).same_names(old(self)),
    {
        let _ = self.full_dat.insert(*i, kl);
    }

    /// When the first and the last candle of one minute opened, in
    /// milliseconds.
    pub fn get_times2(&self, full: bool) -> (r: Option<(i64, i64)>)
        requires
            self.wf(),
            self.timed(full),
        ensures
            r == (match self.times(full) {
                Some((s, e)) => Some((s.ms, e.ms)),
                None => None,
            }),
    {
        if full {
            match self.full_dat.get(&Intv::Min1) {
                Some(kl) => Some(
                    (
                        kl.kline[0].open_time.timestamp_millis(),
                        kl.kline[kl.kline.len() - 1].open_time.timestamp_millis(),
                    ),
                ),
                None => None,
            }
        } else {
            match self.dat.get(&Intv::Min1) {
                Some(kl) => Some(
                    (
                        kl.kline[0].0.timestamp_millis(),
                        kl.kline[kl.kline.len() - 1].0.timestamp_millis(),
                    ),
                ),
                None => None,
            }
        }
    }

    /// Takes the times from the candles of one minute, where there are any.
    pub fn get_times(&mut self, full: bool)
        requires
            old(self).wf(),
            old(self).timed(full),
        ensures
            (match old(self).times(full) {
                Some((s, e)) => final(self).start_time == s && final(self).end_time == e,
                None => final(self).start_time == old(self).start_time && final(self).end_time
                    == old(self).end_time,
            }),
            final(self).full_dat == old(self).full_dat,
            final(self).dat == old(self).dat,
            final(self).same_names(old(self)),
    {
        if full {
            if let Some(kl) = self.full_dat.get(&Intv::Min1) {
                let (s, e) = (kl.kline[0].open_time, kl.kline[kl.kline.len() - 1].open_time);
                self.start_time = s;
                self.end_time = e;
            }
        } else {
            if let Some(kl) = self.dat.get(&Intv::Min1) {
                let (s, e) = kl.get_start_end();
                self.start_time = s;
                self.end_time = e;
            }
        }
    }
}

/// An asset whose candles are kept on disk, and the times that they cover.
#[derive(Debug, Clone)]
pub struct DLAsset {
    pub asset: String,
    pub exchange: String,
    pub dat_start_t: i64,
    pub dat_end_t: i64,
}

impl Default for DLAsset {
    fn default() -> (r: DLAsset)
        ensures
            r.asset@ == Seq::<char>::empty(),
            r.exchange@ == Seq::<char>::empty(),
            r.dat_start_t == 0,
            r.dat_end_t == 0,
    {
        DLAsset {
            asset: String::new(),
            exchange: String::new(),
            dat_start_t: 0,
            dat_end_t: 0,
        }
    }
}

/// What is missing where candles are asked for.
#[derive(Debug, Clone, Copy, PartialEq, Eq, Structural)]
pub enum Missing {
    /// Nothing is loaded for the asset.
    Asset,
    /// The asset is loaded, but not for this interval.
    Interval,
}

/// The candles of every asset that is loaded, and the assets on disk.
#[derive(Debug)]
pub struct AssetData<F> {
    pub id: usize,
    pub size: usize,
    pub kline_data: KeyMap<String, Klines<F>>,
    pub downloaded_assets: Vec<DLAsset>,
}

/// How much time lies between `a` and `b`, in milliseconds.
pub open spec fn span_ms(a: Stamp, b: Stamp) -> int {
    if b.ms < a.ms {
        a.ms - b.ms
    } else {
        b.ms - a.ms
    }
}

/// Where the candle lies, in a list whose first candle opened at `first_ms`,
/// from which on `find_slice_n` hands candles out.
pub open spec fn wick_offset(first_ms: i64) -> int {
    if first_ms == 0 {
        0
    } else {
        1
    }
}

impl<F> AssetData<F> {
    /// Each asset stands for one set of candles.
    pub open spec fn wf(&self) -> bool {
        &&& self.kline_data.wf()
        &&& forall|s: Seq<char>| #[trigger]
            self.kline_data@.dom().contains(s) ==> self.kline_data@[s].wf()
    }

    /// The candles of the asset `symbol` at the interval `intv` are loaded.
    pub open spec fn loaded(&self, symbol: Seq<char>, intv: Intv) -> bool {
        &&& self.kline_data@.dom().contains(symbol)
        &&& self.kline_data@[symbol].dat@.dom().contains(intv)
    }

    /// The candles of the asset `symbol` at the interval `intv`.
    pub open spec fn wicks(&self, symbol: Seq<char>, intv: Intv) -> Seq<Wick<F>> {
        self.kline_data@[symbol].dat@[intv].kline@
    }

    /// No candles, under the number `id`.
    pub fn new(id: usize) -> (r: Self)
        ensures
            r.wf(),
            r.id == id,
            r.size == 0,
            r.kline_data@ == Map::<Seq<char>, Klines<F>>::empty(),
            r.downloaded_assets@ == Seq::<DLAsset>::empty(),
    {
        AssetData { id, size: 0, kline_data: KeyMap::new(), downloaded_assets: Vec::new() }
    }

    /// One line on what is loaded.
    pub fn debug(&self) -> (r: String)
        ensures
            r@ == "Available Hashmaps: \n"@ + "  Kline Data id:"@ + text::decimal(self.id as nat)
                + (if self.kline_data.listed().len() > 0 {
                " (size):"@ + text::decimal(self.kline_data.listed().len()) + "\n"@
            } else {
                " :EMPTY \n"@
            }),
    {
        let mut out = text::join2("Available Hashmaps: \n", "  Kline Data id:");
        text::push_decimal(&mut out, self.id as u64);
        let ghost head = out@;
        if !self.kline_data.is_empty() {
            out.append(" (size):");
            text::push_decimal(&mut out, self.kline_data.len() as u64);
            out.append("\n");
            assert(out@ =~= head + (" (size):"@ + text::decimal(self.kline_data.listed().len())
                + "\n"@));
        } else {
            out.append(" :EMPTY \n");
        }
        out
    }

    /// The names of the loaded assets, in the order in which they were loaded.
    pub fn show_all_loaded(&self) -> (r: Vec<&str>)
        ensures
            r@.len() == self.kline_data.listed().len(),
            forall|i: int| 0 <= i < r@.len() ==> (#[trigger] r@[i])@ == self.kline_data.listed()[i].0@,
    {
        let mut out: Vec<&str> = Vec::new();
        let mut i: usize = 0;
        while i < self.kline_data.len()
            invariant
                i <= self.kline_data.listed().len(),
                out@.len() == i,
                forall|j: int| 0 <= j < i ==> (#[trigger] out@[j])@ == self.kline_data.listed()[j].0@,
            decreases self.kline_data.listed().len() - i,
        {
            out.push(self.kline_data.entry(i).0.as_str());
            i += 1;
        }
        out
    }

    /// The list of candles of an asset at an interval.
    fn find_wicks(&self, symbol: &str, intv: &Intv) -> (r: Result<&Vec<Wick<F>>, Missing>)
        requires
            self.wf(),
        ensures
            match r {
                Ok(k) => self.loaded(symbol@, *intv) && k@ == self.wicks(symbol@, *intv),
                Err(Missing::Asset) => !self.kline_data@.dom().contains(symbol@),
                Err(Missing::Interval) => self.kline_data@.dom().contains(symbol@) && !self.loaded(
                    symbol@,
                    *intv,
                ),
            },
    {
        match self.kline_data.find(symbol) {
            None => Err(Missing::Asset),
            Some(klines) => match klines.dat.get(intv) {
                None => Err(Missing::Interval),
                Some(kline) => Ok(&kline.kline),
            },
        }
    }

    /// Every candle of an asset at an interval.
    pub fn load_full_intv(&self, symbol: &str, intv: &Intv) -> (r: Result<&[Wick<F>], Missing>)
        requires
            self.wf(),
        ensures
            match r {
                Ok(k) => self.loaded(symbol@, *intv) && k@ == self.wicks(symbol@, *intv),
                Err(Missing::Asset) => !self.kline_data@.dom().contains(symbol@),
                Err(Missing::Interval) => self.kline_data@.dom().contains(symbol@) && !self.loaded(
                    symbol@,
                    *intv,
                ),
            },
    {
        match self.find_wicks(symbol, intv) {
            Ok(k) => Ok(k.as_slice()),
            Err(e) => Err(e),
        }
    }

    /// What [`AssetData::find_slice_n`] asks of its arguments: at least one
    /// candle is asked for, the time of the last one can be written, more time lies
    /// between the first and the last candle than between 1970 and `start_time`, and
    /// there are enough of them.
    pub open spec fn reaches(
        &self,
        symbol: Seq<char>,
        intv: Intv,
        start_time: i64,
        next_wicks: u16,
    ) -> bool {
        self.loaded(symbol, intv) ==> {
            let k = self.wicks(symbol, intv);
            &&& next_wicks > 0
            &&& start_time + intv.minutes() * 60_000 * next_wicks <= i64::MAX
            &&& k.len() > 0 ==> {
                let span = span_ms(k[0].0, k.last().0);
                &&& k[0].0.wf() && k.last().0.wf()
                &&& -span < start_time < span
                &&& wick_offset(k[0].0.ms) + next_wicks <= k.len()
            }
        }
    }

    /// The `next_wicks` candles from the start on; the very first candle is left
    /// out unless it opened at the start of 1970. Nothing where no candle is
    /// loaded.
    pub fn find_slice_n(
        &self,
        symbol: &str,
        intv: &Intv,
        start_time: &i64,
        next_wicks: u16,
    ) -> (r: Option<&[Wick<F>]>)
        requires
            self.wf(),
            self.reaches(symbol@, *intv, *start_time, next_wicks),
        ensures
            match r {
                Some(s) => {
                    let k = self.wicks(symbol@, *intv);
                    let from = wick_offset(k[0].0.ms);
                    &&& self.loaded(symbol@, *intv)
                    &&& k.len() > 0
                    &&& s@ == k.subrange(from, from + next_wicks)
                },
                None => !self.loaded(symbol@, *intv) || self.wicks(symbol@, *intv).len() == 0,
            },
    {
        match self.find_wicks(symbol, intv) {
            Err(_) => None,
            Ok(k) => {
                if k.len() == 0 {
                    return None;
                }
                let kline_start_t = k[0].0.timestamp_millis();
                let kline_end_t = k[k.len() - 1].0.timestamp_millis();
                let kline_length = k.len();
                let span: i64 = if kline_end_t < kline_start_t {
                    kline_start_t - kline_end_t
                } else {
                    kline_end_t - kline_start_t
                };
                proof {
                    let span = span as int;
                    if *start_time >= 0 {
                        vstd::arithmetic::div_mod::lemma_basic_div(*start_time as int, span);
                    } else {
                        vstd::arithmetic::div_mod::lemma_div_is_ordered(*start_time as int, 0, span);
                    }
                }
                let si: usize = whole_spans(*start_time, span);
                let start_index: usize = si * kline_length;
                let confirm = k[start_index].0.timestamp_millis();
                let start_index: usize = if confirm == 0 {
                    start_index
                } else {
                    start_index + 1
                };
                let end_index: usize = start_index + next_wicks as usize;
                Some(&k[start_index..end_index])
            },
        }
    }

    /// What [`AssetData::find_slice`] asks of its arguments: where the candles
    /// are loaded and both times lie inside of theirs, these are further apart
    /// than the interval is long, and the slice lies inside of the list and does not
    /// end before it starts.
    pub open spec fn spans(
        &self,
        symbol: Seq<char>,
        intv: Intv,
        start_time: Stamp,
        end_time: Stamp,
    ) -> bool {
        self.loaded(symbol, intv) ==> {
            let kk = self.kline_data@[symbol];
            (kk.start_time.ms <= start_time.ms && end_time.ms <= kk.end_time.ms) ==> {
                &&& slice_step(kk.start_time, kk.end_time, intv) != 0
                &&& 0 <= slice_index(kk.start_time, kk.end_time, intv, start_time)
                    <= slice_index(kk.start_time, kk.end_time, intv, end_time) <= self.wicks(
                    symbol,
                    intv,
                ).len()
            }
        }
    }

    /// The candles between two times. Nothing where they are not loaded or where
    /// the two times reach beyond those of the asset.
    pub fn find_slice(
        &self,
        symbol: &str,
        intv: &Intv,
        start_time: &Stamp,
        end_time: &Stamp,
    ) -> (r: Option<&[Wick<F>]>)
        requires
            self.wf(),
            start_time.wf(),
            end_time.wf(),
            self.spans(symbol@, *intv, *start_time, *end_time),
        ensures
            match r {
                Some(s) => {
                    let kk = self.kline_data@[symbol@];
                    &&& self.loaded(symbol@, *intv)
                    &&& kk.start_time.ms <= start_time.ms
                    &&& end_time.ms <= kk.end_time.ms
                    &&& s@ == self.wicks(symbol@, *intv).subrange(
                        slice_index(kk.start_time, kk.end_time, *intv, *start_time),
                        slice_index(kk.start_time, kk.end_time, *intv, *end_time),
                    )
                },
                None => {
                    let kk = self.kline_data@[symbol@];
                    ||| !self.loaded(symbol@, *intv)
                    ||| start_time.ms < kk.start_time.ms
                    ||| end_time.ms > kk.end_time.ms
                },
            },
    {
        match self.kline_data.find(symbol) {
            None => None,
            Some(kk) => {
                if start_time.before(&kk.start_time) {
                    return None;
                }
                if kk.end_time.before(end_time) {
                    return None;
                }
                match kk.dat.get(intv) {
                    None => None,
                    Some(k) => {
                        let kst = kk.start_time.timestamp();
                        let ket = kk.end_time.timestamp();
                        let step: i64 = divide(ket - kst, intv.to_sec());
                        let from: i64 = divide(start_time.timestamp() - kst, step);
                        let to: i64 = divide(end_time.timestamp() - kst, step);
                        assert(0 <= from <= to <= k.kline.len());
                        let from: usize = from as usize;
                        let to: usize = to as usize;
                        Some(&k.kline[from..to])
                    },
                }
            },
        }
    }

    /// The candles from number `start_index` up to `end_index`. Nothing where
    /// they are not loaded.
    pub fn find_slice_index(
        &self,
        symbol: &str,
        intv: &Intv,
        start_index: usize,
        end_index: usize,
    ) -> (r: Option<&[Wick<F>]>)
        requires
            self.wf(),
            self.loaded(symbol@, *intv) ==> start_index <= end_index <= self.wicks(
                symbol@,
                *intv,
            ).len(),
        ensures
            match r {
                Some(s) => self.loaded(symbol@, *intv) && s@ == self.wicks(symbol@, *intv).subrange(
                    start_index as int,
                    end_index as int,
                ),
                None => !self.loaded(symbol@, *intv),
            },
    {
        match self.find_wicks(symbol, intv) {
            Ok(k) => Some(&k[start_index..end_index]),
            Err(_) => None,
        }
    }

    /// Takes the candles of an asset in. Where the asset has some already, those
    /// stay and nothing is taken.
    pub fn add_loaded(&mut self, symbol: &str, klines: Klines<F>) -> (r: bool)
        requires
            old(self).wf(),
            klines.wf(),
        ensures
            final(self).wf(),
            r == !old(self).kline_data@.dom().contains(symbol@),
            final(self).kline_data@ == (if r {
                old(self).kline_data@.insert(symbol@, klines)
            } else {
                old(self).kline_data@
            }),
            final(self).downloaded_assets == old(self).downloaded_assets,
            final(self).id == old(self).id,
            final(self).size == old(self).size,
    {
        if self.kline_data.holds(symbol) {
            false
        } else {
            let _ = self.kline_data.insert(symbol.to_owned(), klines);
            true
        }
    }

    /// Takes the candles of an asset in that were read anew. The asset must have
    /// some already.
    pub fn load_all(&mut self, symbol: &str, klines: Klines<F>) -> (r: Result<(), Missing>)
        requires
            old(self).wf(),
            klines.wf(),
        ensures
            final(self).wf(),
            r == (if old(self).kline_data@.dom().contains(symbol@) {
                Ok(())
            } else {
                Err(Missing::Asset)
            }),
            final(self).kline_data@ == (if r is Ok {
                old(self).kline_data@.insert(symbol@, klines)
            } else {
                old(self).kline_data@
            }),
            final(self).downloaded_assets == old(self).downloaded_assets,
            final(self).id == old(self).id,
            final(self).size == old(self).size,
    {
        if self.kline_data.holds(symbol) {
            self.replace_loaded(symbol, klines);
            Ok(())
        } else {
            Err(Missing::Asset)
        }
    }

    /// Puts the candles of an asset in the place of any that it had.
    pub fn replace_loaded(&mut self, symbol: &str, klines: Klines<F>)
        requires
            old(self).wf(),
            klines.wf(),
        ensures
            final(self).wf(),
            final(self).kline_data@ == old(self).kline_data@.insert(symbol@, klines),
            final(self).downloaded_assets == old(self).downloaded_assets,
            final(self).id == old(self).id,
            final(self).size == old(self).size,
    {
        let _ = self.kline_data.insert(symbol.to_owned(), klines);
    }

    /// Lets the candles of an asset go.
    pub fn unload(&mut self, symbol: &str)
        requires
            old(self).wf(),
        ensures
            final(self).wf(),
            final(self).kline_data@ == old(self).kline_data@.remove(symbol@),
            final(self).downloaded_assets == old(self).downloaded_assets,
            final(self).id == old(self).id,
            final(self).size == old(self).size,
    {
        let key = symbol.to_owned();
        let _ = self.kline_data.remove(&key);
    }
}

/// `a / b`, rounded towards zero.
pub open spec fn toward_zero(a: int, b: int) -> int {
    let size = (if a < 0 {
        -a
    } else {
        a
    }) / (if b < 0 {
        -b
    } else {
        b
    });
    if (a < 0) == (b < 0) {
        size
    } else {
        -size
    }
}

/// Into how many intervals the time between `start` and `end` divides.
pub open spec fn slice_step(start: Stamp, end: Stamp, intv: Intv) -> int {
    toward_zero(end.ms as int / 1000 - start.ms as int / 1000, intv.minutes() * 60)
}

/// The place in the list that the time `at` is given.
pub open spec fn slice_index(start: Stamp, end: Stamp, intv: Intv, at: Stamp) -> int {
    toward_zero(at.ms as int / 1000 - start.ms as int / 1000, slice_step(start, end, intv))
}

/// How many times `span` goes into `t`, as a place in a list; not once where `t`
/// lies less than one `span` before zero.
fn whole_spans(t: i64, span: i64) -> (r: usize)
    requires
        0 < span,
        -span < t,
        t as int / span as int <= usize::MAX,
    ensures
        r == (if t < 0 {
            0
        } else {
            t as int / span as int
        }),
{
    if t < 0 {
        0
    } else {
        (t / span) as usize
    }
}

/// `a / b`, rounded towards zero.
fn divide(a: i64, b: i64) -> (r: i64)
    requires
        b != 0,
        -i64::MAX <= a,
        -i64::MAX <= b,
    ensures
        r == toward_zero(a as int, b as int),
        -i64::MAX <= r,
{
    let p: i64 = if a < 0 {
        -a
    } else {
        a
    };
    let q: i64 = if b < 0 {
        -b
    } else {
        b
    };
    assert(0 <= p as int / q as int <= p) by {
        vstd::arithmetic::div_mod::lemma_div_nonincreasing(p as int, q as int);
        vstd::arithmetic::div_mod::lemma_div_pos_is_pos(p as int, q as int);
    }
    let size: i64 = p / q;
    if (a < 0) == (b < 0) {
        size
    } else {
        -size
    }
}

/// The times of candles are the opening times of the first and the last one of one minute, of
/// the kind that is asked for, whatever the other kind holds.
pub proof fn times_are_those_of_the_minute_candles<F>(k: Klines<F>, full: bool)
    ensures
        k.times(true) is Some <==> k.full_dat@.dom().contains(Intv::Min1),
        k.times(false) is Some <==> k.dat@.dom().contains(Intv::Min1),
        k.times(true) matches Some((first, last)) ==> {
            let list = k.full_dat@[Intv::Min1].kline@;
            first == list[0].open_time && last == list[list.len() - 1].open_time
        },
        k.times(false) matches Some((first, last)) ==> {
            let list = k.dat@[Intv::Min1].kline@;
            first == list[0].0 && last == list[list.len() - 1].0
        },
        k.times(full) is None ==> k.timed(full),
{
}

/// Candles have times wherever a list of candles of one minute is not empty.
pub proof fn candles_of_a_minute_have_times<F>(k: Klines<F>)
    ensures
        k.full_dat@.dom().contains(Intv::Min1) && k.full_dat@[Intv::Min1].kline@.len() > 0
            ==> k.timed(true),
        k.dat@.dom().contains(Intv::Min1) && k.dat@[Intv::Min1].kline@.len() > 0 ==> k.timed(false),
{
}

/// Candles with the same names are of the same pair and the same two assets; those without names
/// have none of the three.
pub proof fn names_are_those_of_the_pair<F>(a: Klines<F>, b: Klines<F>)
    ensures
        a.same_names(&b) <==> a.asset_pair == b.asset_pair && a.s1_string == b.s1_string
            && a.s2_string == b.s2_string,
        a.nameless() <==> a.asset_pair@.len() == 0 && a.s1_string@.len() == 0 && a.s2_string@.len()
            == 0,
{
    if a.asset_pair@.len() == 0 && a.s1_string@.len() == 0 && a.s2_string@.len() == 0 {
        assert(a.asset_pair@ =~= Seq::<char>::empty());
        assert(a.s1_string@ =~= Seq::<char>::empty());
        assert(a.s2_string@ =~= Seq::<char>::empty());
    }
}

/// The time between two points is the same from either end, is never below zero, and is what has
/// to be added to the earlier one.
pub proof fn time_between_is_the_same_from_either_end(a: Stamp, b: Stamp)
    ensures
        span_ms(a, b) == span_ms(b, a),
        span_ms(a, b) >= 0,
        a.ms <= b.ms ==> a.ms + span_ms(a, b) == b.ms,
{
}

/// The first candle is left out unless it opened at the start of 1970.
pub proof fn the_first_candle_is_left_out(first_ms: i64)
    ensures
        wick_offset(first_ms) == 0 <==> first_ms == 0,
        wick_offset(first_ms) == 1 <==> first_ms != 0,
{
}

/// Candles are loaded where the asset and the interval are, and are those of that asset at that
/// interval.
pub proof fn loaded_candles_are_those_of_the_asset<F>(ad: AssetData<F>, symbol: Seq<char>, i: Intv)
    ensures
        ad.loaded(symbol, i) <==> ad.kline_data@.dom().contains(symbol)
            && ad.kline_data@[symbol].dat@.dom().contains(i),
        ad.wicks(symbol, i) == ad.kline_data@[symbol].dat@[i].kline@,
{
}

/// Candles can be handed out for any time between the first and the last one, counted from 1970,
/// and any number of them but the first.
pub proof fn candles_in_between_can_be_handed_out<F>(
    ad: AssetData<F>,
    symbol: Seq<char>,
    i: Intv,
    start_time: i64,
    next_wicks: u16,
)
    requires
        next_wicks > 0,
        start_time + i.minutes() * 60_000 * next_wicks <= i64::MAX,
        ad.loaded(symbol, i) ==> {
            let k = ad.wicks(symbol, i);
            &&& k.len() > next_wicks
            &&& k[0].0.wf()
            &&& k.last().0.wf()
            &&& k[0].0.ms <= k.last().0.ms
            &&& k[0].0.ms - k.last().0.ms < start_time < k.last().0.ms - k[0].0.ms
        },
    ensures
        ad.reaches(symbol, i, start_time, next_wicks),
{
}

/// Rounding towards zero: the quotient times the divisor comes as close to the number as a
/// multiple can without passing it, on the side of zero.
pub proof fn rounding_goes_toward_zero(a: int, b: int)
    requires
        b != 0,
    ensures
        ({
            let q = toward_zero(a, b);
            &&& 0 <= a ==> 0 <= q * b <= a
            &&& 0 <= a && b > 0 ==> a < q * b + b
            &&& 0 <= a && b < 0 ==> a < q * b - b
            &&& toward_zero(-a, b) == -toward_zero(a, b)
            &&& toward_zero(a, -b) == -toward_zero(a, b)
        }),
{
    let x = if a < 0 {
        -a
    } else {
        a
    };
    let y = if b < 0 {
        -b
    } else {
        b
    };
    let s = x / y;
    vstd::arithmetic::div_mod::lemma_fundamental_div_mod(x, y);
    vstd::arithmetic::div_mod::lemma_mod_bound(x, y);
    vstd::arithmetic::div_mod::lemma_div_pos_is_pos(x, y);
    assert(s * y == y * s) by (nonlinear_arith);
    assert((-s) * (-y) == s * y) by (nonlinear_arith);
    assert(0 <= s * y) by (nonlinear_arith)
        requires
            0 <= s,
            0 <= y,
    ;
    assert(0int / y == 0) by {
        vstd::arithmetic::div_mod::lemma_basic_div(0, y);
    }
}

/// The time of the first candle has the first place. A later time has the place that as many
/// steps after it begin as fit in between, in seconds; a step is the time between the first and
/// the last candle in units of the interval.
pub proof fn places_follow_the_time(start: Stamp, end: Stamp, i: Intv, at: Stamp)
    requires
        start.ms <= at.ms,
        slice_step(start, end, i) > 0,
    ensures
        ({
            let step = slice_step(start, end, i);
            let elapsed = at.ms as int / 1000 - start.ms as int / 1000;
            let place = slice_index(start, end, i, at);
            &&& place * step <= elapsed < (place + 1) * step
            &&& place >= 0
        }),
        slice_index(start, end, i, start) == 0,
{
    let step = slice_step(start, end, i);
    let elapsed = at.ms as int / 1000 - start.ms as int / 1000;
    assert(elapsed >= 0) by {
        vstd::arithmetic::div_mod::lemma_div_is_ordered(start.ms as int, at.ms as int, 1000);
    }
    rounding_goes_toward_zero(elapsed, step);
    let place = slice_index(start, end, i, at);
    assert((place + 1) * step == place * step + step) by (nonlinear_arith);
    assert(place >= 0) by {
        vstd::arithmetic::div_mod::lemma_div_pos_is_pos(elapsed, step);
    }
    vstd::arithmetic::div_mod::lemma_basic_div(0, step);
}

/// A step is as many seconds as the interval goes into the time between the first and the last
/// candle.
pub proof fn a_step_divides_the_time_between(start: Stamp, end: Stamp, i: Intv)
    requires
        start.ms <= end.ms,
    ensures
        ({
            let span = end.ms as int / 1000 - start.ms as int / 1000;
            let unit = 60 * i.minutes();
            let step = slice_step(start, end, i);
            step * unit <= span < step * unit + unit
        }),
{
    let span = end.ms as int / 1000 - start.ms as int / 1000;
    assert(span >= 0) by {
        vstd::arithmetic::div_mod::lemma_div_is_ordered(start.ms as int, end.ms as int, 1000);
    }
    rounding_goes_toward_zero(span, i.minutes() * 60);
}

/// Between two times inside of those of the candles a slice can be handed out wherever the
/// candles last longer than the interval and the list reaches far enough.
pub proof fn a_slice_in_between_can_be_handed_out<F>(
    ad: AssetData<F>,
    symbol: Seq<char>,
    i: Intv,
    from: Stamp,
    to: Stamp,
)
    requires
        from.ms <= to.ms,
        ad.loaded(symbol, i) ==> {
            let k = ad.kline_data@[symbol];
            &&& slice_step(k.start_time, k.end_time, i) > 0
            &&& slice_index(k.start_time, k.end_time, i, to) <= ad.wicks(symbol, i).len()
        },
    ensures
        ad.spans(symbol, i, from, to),
{
    if ad.loaded(symbol, i) {
        let k = ad.kline_data@[symbol];
        if k.start_time.ms <= from.ms && to.ms <= k.end_time.ms {
            let step = slice_step(k.start_time, k.end_time, i);
            places_follow_the_time(k.start_time, k.end_time, i, from);
            places_follow_the_time(k.start_time, k.end_time, i, to);
            let a = from.ms as int / 1000 - k.start_time.ms as int / 1000;
            let b = to.ms as int / 1000 - k.start_time.ms as int / 1000;
            vstd::arithmetic::div_mod::lemma_div_is_ordered(from.ms as int, to.ms as int, 1000);
            vstd::arithmetic::div_mod::lemma_div_is_ordered(
                k.start_time.ms as int,
                from.ms as int,
                1000,
            );
            vstd::arithmetic::div_mod::lemma_div_is_ordered(a, b, step);
        }
    }
}

} // verus!
