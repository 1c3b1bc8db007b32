//! What the exchange sends over its stream: trades, and candles as they grow.

use crate::data::{Kline, Wick};
use crate::intv::Intv;
use crate::json;
use crate::num;
use crate::num::Number;
use crate::reader;
use crate::text;
use crate::time;
use crate::time::Stamp;
use serde_json::Value;
use vstd::prelude::*;

verus! {

/// A trade.
#[allow(non_snake_case)]
#[derive(Debug, Clone, Copy, PartialEq)]
pub struct AggTradeWS<F> {
    pub E: i64,
    pub M: bool,
    pub T: i64,
    pub a: i64,
    pub f: i64,
    pub l: i64,
    pub m: bool,
    pub p: F,
    pub q: F,
}

/// A trade, with the asset and what happened.
#[allow(non_snake_case)]
#[derive(Debug)]
pub struct AggTrade<F> {
    pub E: i64,
    pub M: bool,
    pub T: i64,
    pub a: i64,
    pub e: String,
    pub f: i64,
    pub l: i64,
    pub m: bool,
    pub p: F,
    pub q: F,
    pub s: String,
}

/// A candle as it stands.
#[allow(non_snake_case)]
#[derive(Debug, Clone, Copy, PartialEq)]
pub struct KlineTick<F> {
    /// When it opened.
    pub t: i64,
    /// When it closes.
    pub T: i64,
    pub f: i64,
    pub L: i64,
    pub o: F,
    pub c: F,
    pub h: F,
    pub l: F,
    pub v: F,
    /// How many trades it has seen.
    pub n: i64,
    /// Whether it has closed.
    pub x: bool,
    pub q: F,
    pub V: F,
    pub Q: F,
    pub B: i64,
}

/// A message of the stream.
#[derive(Debug, Clone, Copy, PartialEq)]
pub enum BinWSResponse<F> {
    AggTrade(AggTradeWS<F>),
    KlineTick(Intv, KlineTick<F>),
}

impl<F: Number> AggTradeWS<F> {
    /// A trade of nothing.
    pub fn empty() -> (r: Self)
        requires
            num::lawful::<F>(),
        ensures
            r == (AggTradeWS {
                E: 0,
                M: false,
                T: 0,
                a: 0,
                f: 0,
                l: 0,
                m: false,
                p: num::lit::<F>(0),
                q: num::lit::<F>(0),
            }),
    {
        AggTradeWS {
            E: 0,
            M: false,
            T: 0,
            a: 0,
            f: 0,
            l: 0,
            m: false,
            p: num::whole(0),
            q: num::whole(0),
        }
    }
}

/// The candle of a tick: its opening time, its prices and its volume.
pub open spec fn tick_wick<F>(k: KlineTick<F>) -> Wick<F> {
    (Stamp { ms: k.t }, k.o, k.h, k.l, k.c, k.v)
}

impl<F: Copy> KlineTick<F> {
    /// The ticks as candles.
    pub fn to_kline_vec(input: &[KlineTick<F>]) -> (r: Vec<Wick<F>>)
        requires
            forall|i: int| 0 <= i < input@.len() ==> time::nameable((#[trigger] input@[i]).t as int),
        ensures
            r@ == input@.map_values(|k: KlineTick<F>| tick_wick(k)),
    {
        let ghost f = |k: KlineTick<F>| tick_wick(k);
        let mut out: Vec<Wick<F>> = Vec::new();
        let mut i: usize = 0;
        while i < input.len()
            invariant
                i <= input@.len(),
                f == (|k: KlineTick<F>| tick_wick(k)),
                forall|i: int|
                    0 <= i < input@.len() ==> time::nameable((#[trigger] input@[i]).t as int),
                out@ == input@.take(i as int).map_values(f),
            decreases input@.len() - i,
        {
            let k = input[i];
            if let Some(open) = time::from_timestamp_millis(k.t) {
                out.push((open, k.o, k.h, k.l, k.c, k.v));
            }
            assert(out@ =~= input@.take(i + 1).map_values(f));
            i += 1;
        }
        assert(input@.take(input@.len() as int) =~= input@);
        out
    }
}

/// A candle as the exchange hands it out on request: its prices as texts.
#[derive(Debug)]
pub struct GetKline {
    pub open_time: i64,
    pub o: String,
    pub h: String,
    pub l: String,
    pub c: String,
    pub v: String,
    pub close_time: i64,
    pub q: String,
    pub no: i64,
    pub bb: String,
    pub bq: String,
    pub i: String,
}

impl GetKline {
    /// The calendar can name its time, and each price is a number.
    pub open spec fn readable<F, N: Fn(&str) -> Option<F>>(&self, read: N) -> bool {
        &&& time::nameable(self.open_time as int)
        &&& reader::number::<F, N>(read, self.o@) is Some
        &&& reader::number::<F, N>(read, self.h@) is Some
        &&& reader::number::<F, N>(read, self.l@) is Some
        &&& reader::number::<F, N>(read, self.c@) is Some
        &&& reader::number::<F, N>(read, self.v@) is Some
    }

    /// The candle.
    pub open spec fn wick<F, N: Fn(&str) -> Option<F>>(&self, read: N) -> Wick<F> {
        (
            Stamp { ms: self.open_time },
            reader::number::<F, N>(read, self.o@)->0,
            reader::number::<F, N>(read, self.h@)->0,
            reader::number::<F, N>(read, self.l@)->0,
            reader::number::<F, N>(read, self.c@)->0,
            reader::number::<F, N>(read, self.v@)->0,
        )
    }

    /// The candle, where it is readable.
    fn read_wick<F, N: Fn(&str) -> Option<F>>(&self, read: &N) -> (r: Option<Wick<F>>)
        requires
            reader::steady::<F, N>(*read),
        ensures
            r == (if self.readable::<F, N>(*read) {
                Some(self.wick::<F, N>(*read))
            } else {
                None
            }),
    {
        let t = time::from_timestamp_millis(self.open_time);
        let o = reader::read_number(read, self.o.as_str());
        let h = reader::read_number(read, self.h.as_str());
        let l = reader::read_number(read, self.l.as_str());
        let c = reader::read_number(read, self.c.as_str());
        let v = reader::read_number(read, self.v.as_str());
        match (t, o, h, l, c, v) {
            (Some(t), Some(o), Some(h), Some(l), Some(c), Some(v)) => Some((t, o, h, l, c, v)),
            _ => None,
        }
    }

    /// Whether every candle is readable.
    pub fn all_readable<F, N: Fn(&str) -> Option<F>>(input: &Vec<GetKline>, read: &N) -> (r: bool)
        requires
            reader::steady::<F, N>(*read),
        ensures
            r == (forall|i: int|
                0 <= i < input@.len() ==> (#[trigger] input@[i]).readable::<F, N>(*read)),
    {
        let mut i: usize = 0;
        while i < input.len()
            invariant
                i <= input@.len(),
                reader::steady::<F, N>(*read),
                forall|j: int| 0 <= j < i ==> (#[trigger] input@[j]).readable::<F, N>(*read),
            decreases input@.len() - i,
        {
            if input[i].read_wick(read).is_none() {
                assert(!input@[i as int].readable::<F, N>(*read));
                return false;
            }
            i += 1;
        }
        true
    }

    /// The candles, with their prices read by `read`.
    pub fn to_kline<F, N: Fn(&str) -> Option<F>>(input: &Vec<GetKline>, read: &N) -> (r: Kline<F>)
        requires
            reader::steady::<F, N>(*read),
            forall|i: int|
                0 <= i < input@.len() ==> (#[trigger] input@[i]).readable::<F, N>(*read),
        ensures
            r.kline@ == input@.map_values(|k: GetKline| k.wick::<F, N>(*read)),
    {
        let ghost f = |k: GetKline| k.wick::<F, N>(*read);
        let mut out: Vec<Wick<F>> = Vec::new();
        let mut i: usize = 0;
        while i < input.len()
            invariant
                i <= input@.len(),
                reader::steady::<F, N>(*read),
                f == (|k: GetKline| k.wick::<F, N>(*read)),
                forall|i: int|
                    0 <= i < input@.len() ==> (#[trigger] input@[i]).readable::<F, N>(*read),
                out@ == input@.take(i as int).map_values(f),
            decreases input@.len() - i,
        {
            if let Some(k) = input[i].read_wick(read) {
                out.push(k);
            }
            assert(input@[i as int].readable::<F, N>(*read));
            assert(out@ =~= input@.take(i + 1).map_values(f));
            i += 1;
        }
        assert(input@.take(input@.len() as int) =~= input@);
        Kline::new_sql(out)
    }
}

/// Why a message of the stream was not understood.
#[derive(Debug, Clone, Copy, PartialEq, Eq, Structural)]
pub enum TickError {
    /// The message is no JSON document.
    NoJson,
    /// It does not say what happened.
    NoEvent,
    /// It names no asset.
    NoSymbol,
    /// The asset is no text.
    SymbolText,
    /// A candle names no interval.
    NoInterval,
    /// The interval is no text.
    IntervalText,
    /// This part of a trade is missing or not of its kind.
    Trade(char),
    /// This part of a candle is missing or not of its kind.
    Candle(char),
    /// This part is a text, but no number.
    Number(char),
    /// What happened is neither a trade nor a candle.
    UnknownEvent,
    /// What happened is of a kind that is not taken in: the best prices, or a
    /// candle of an interval without a name.
    NotTaken,
}

impl TickError {
    /// What went wrong, for a log.
    pub fn to_text(&self) -> (r: String)
        ensures
            r@ == (match *self {
                TickError::NoJson => "Unable to parse JSON"@,
                TickError::NoEvent => "E not found in binance output"@,
                TickError::NoSymbol => "s Symbol not found in input"@,
                TickError::SymbolText => "Unable to parse s"@,
                TickError::NoInterval => "i Interval not found in input"@,
                TickError::IntervalText => "Unable to parse i"@,
                TickError::Trade(c) => "Unable to parse "@ + trade_letter(c),
                TickError::Candle(c) => "Unable to parse "@ + candle_letter(c),
                TickError::Number(_) => "invalid number literal"@,
                TickError::UnknownEvent => "Unable to parse ws output"@,
                TickError::NotTaken => "Message not taken in"@,
            }),
    {
        match self {
            TickError::NoJson => "Unable to parse JSON".to_owned(),
            TickError::NoEvent => "E not found in binance output".to_owned(),
            TickError::NoSymbol => "s Symbol not found in input".to_owned(),
            TickError::SymbolText => "Unable to parse s".to_owned(),
            TickError::NoInterval => "i Interval not found in input".to_owned(),
            TickError::IntervalText => "Unable to parse i".to_owned(),
            TickError::Trade(c) => {
                let mut r = "Unable to parse ".to_owned();
                if *c != 'm' {
                    push_char(&mut r, *c);
                }
                assert(r@ =~= "Unable to parse "@ + trade_letter(*c));
                r
            },
            TickError::Candle(c) => {
                let mut r = "Unable to parse ".to_owned();
                if *c == 'h' || *c == 'l' || *c == 'c' {
                    push_char(&mut r, 'o');
                } else {
                    push_char(&mut r, *c);
                }
                assert(r@ =~= "Unable to parse "@ + candle_letter(*c));
                r
            },
            TickError::Number(_) => "invalid number literal".to_owned(),
            TickError::UnknownEvent => "Unable to parse ws output".to_owned(),
            TickError::NotTaken => "Message not taken in".to_owned(),
        }
    }
}

/// The letter that stands for a part of a trade in a log.
pub open spec fn trade_letter(c: char) -> Seq<char> {
    if c == 'm' {
        Seq::empty()
    } else {
        seq![c]
    }
}

/// The letter that stands for a part of a candle in a log: all four prices go by
/// the opening one.
pub open spec fn candle_letter(c: char) -> Seq<char> {
    if c == 'h' || c == 'l' || c == 'c' {
        seq!['o']
    } else {
        seq![c]
    }
}

/// Appends `c` to `s`, by `String::push`.
#[verifier::external_body]
fn push_char(s: &mut String, c: char)
    ensures
        final(s)@ == old(s)@.push(c),
{
    s.push(c);
}

/// The whole number at `at`.
pub open spec fn inum(d: json::Leaves, at: Seq<char>) -> Option<i64> {
    if d.ints.dom().contains(at) {
        Some(d.ints[at])
    } else {
        None
    }
}

/// The truth value at `at`.
pub open spec fn flag(d: json::Leaves, at: Seq<char>) -> Option<bool> {
    if d.flags.dom().contains(at) {
        Some(d.flags[at])
    } else {
        None
    }
}

/// The text at `at`.
pub open spec fn txt(d: json::Leaves, at: Seq<char>) -> Option<Seq<char>> {
    if d.texts.dom().contains(at) {
        Some(d.texts[at])
    } else {
        None
    }
}

/// The price at `at`: a text that is a number.
pub open spec fn price<F, N: Fn(&str) -> Option<F>>(d: json::Leaves, at: Seq<char>, read: N) -> Option<
    F,
> {
    match txt(d, at) {
        Some(t) => reader::number::<F, N>(read, t),
        None => None,
    }
}

/// What keeps the price at `at` from being read: `missing` where there is no
/// text, `bad` where it is no number.
pub open spec fn price_fault<F, N: Fn(&str) -> Option<F>>(
    d: json::Leaves,
    at: Seq<char>,
    read: N,
    missing: TickError,
    bad: TickError,
) -> Option<TickError> {
    match txt(d, at) {
        None => Some(missing),
        Some(t) => if reader::number::<F, N>(read, t) is None {
            Some(bad)
        } else {
            None
        },
    }
}

/// The whole number at `at` that is written as a text.
pub open spec fn written_int(d: json::Leaves, at: Seq<char>) -> Option<i64> {
    match txt(d, at) {
        Some(t) => match text::whole_number(t) {
            Some(n) => if i64::MIN <= n <= i64::MAX {
                Some(n as i64)
            } else {
                None
            },
            None => None,
        },
        None => None,
    }
}

/// What comes first among faults that were looked for in this order.
pub open spec fn or_else(a: Option<TickError>, b: Option<TickError>) -> Option<TickError> {
    if a is Some {
        a
    } else {
        b
    }
}

/// A fault where `ok` does not hold.
pub open spec fn unless(ok: bool, e: TickError) -> Option<TickError> {
    if ok {
        None
    } else {
        Some(e)
    }
}

/// The first thing wrong with the name of the asset.
pub open spec fn symbol_fault(d: json::Leaves) -> Option<TickError> {
    or_else(
        unless(d.present.contains("/s"@), TickError::NoSymbol),
        unless(txt(d, "/s"@) is Some, TickError::SymbolText),
    )
}

/// The first thing wrong with a trade, in the order in which its parts are read.
pub open spec fn trade_fault<F, N: Fn(&str) -> Option<F>>(d: json::Leaves, read: N) -> Option<TickError> {
    or_else(symbol_fault(d),
    or_else(unless(inum(d, "/E"@) is Some, TickError::Trade('E')),
    or_else(unless(flag(d, "/M"@) is Some, TickError::Trade('M')),
    or_else(unless(inum(d, "/T"@) is Some, TickError::Trade('T')),
    or_else(unless(inum(d, "/a"@) is Some, TickError::Trade('a')),
    or_else(unless(inum(d, "/f"@) is Some, TickError::Trade('f')),
    or_else(unless(inum(d, "/l"@) is Some, TickError::Trade('l')),
    or_else(price_fault::<F, N>(d, "/p"@, read, TickError::Trade('p'), TickError::Number('p')),
    or_else(price_fault::<F, N>(d, "/q"@, read, TickError::Trade('q'), TickError::Number('q')),
    unless(flag(d, "/m"@) is Some, TickError::Trade('m')))))))))))
}

/// The first thing wrong with the parts of a candle, in the order in which they
/// are read.
pub open spec fn candle_fault<F, N: Fn(&str) -> Option<F>>(d: json::Leaves, read: N) -> Option<TickError> {
    or_else(unless(inum(d, "/k/t"@) is Some, TickError::Candle('t')),
    or_else(unless(inum(d, "/k/T"@) is Some, TickError::Candle('T')),
    or_else(unless(inum(d, "/k/f"@) is Some, TickError::Candle('f')),
    or_else(unless(inum(d, "/k/L"@) is Some, TickError::Candle('L')),
    or_else(price_fault::<F, N>(d, "/k/o"@, read, TickError::Candle('o'), TickError::Number('o')),
    or_else(price_fault::<F, N>(d, "/k/h"@, read, TickError::Candle('h'), TickError::Number('h')),
    or_else(price_fault::<F, N>(d, "/k/l"@, read, TickError::Candle('l'), TickError::Number('l')),
    or_else(price_fault::<F, N>(d, "/k/c"@, read, TickError::Candle('c'), TickError::Number('c')),
    or_else(price_fault::<F, N>(d, "/k/v"@, read, TickError::Candle('v'), TickError::Number('v')),
    or_else(unless(inum(d, "/k/n"@) is Some, TickError::Candle('n')),
    or_else(unless(flag(d, "/k/x"@) is Some, TickError::Candle('x')),
    or_else(price_fault::<F, N>(d, "/k/q"@, read, TickError::Candle('q'), TickError::Number('q')),
    or_else(price_fault::<F, N>(d, "/k/V"@, read, TickError::Candle('V'), TickError::Number('V')),
    or_else(price_fault::<F, N>(d, "/k/Q"@, read, TickError::Candle('Q'), TickError::Number('Q')),
    or_else(unless(txt(d, "/k/B"@) is Some, TickError::Candle('B')), unless(written_int(d, "/k/B"@) is Some, TickError::Number('B')))))))))))))))))
}

/// The trade that a document holds.
pub open spec fn trade_of<F, N: Fn(&str) -> Option<F>>(d: json::Leaves, read: N) -> AggTradeWS<F> {
    AggTradeWS {
        E: inum(d, "/E"@)->0,
        M: flag(d, "/M"@)->0,
        T: inum(d, "/T"@)->0,
        a: inum(d, "/a"@)->0,
        f: inum(d, "/f"@)->0,
        l: inum(d, "/l"@)->0,
        p: price::<F, N>(d, "/p"@, read)->0,
        q: price::<F, N>(d, "/q"@, read)->0,
        m: flag(d, "/m"@)->0,
    }
}

/// The candle that a document holds.
pub open spec fn candle_of<F, N: Fn(&str) -> Option<F>>(d: json::Leaves, read: N) -> KlineTick<F> {
    KlineTick {
        t: inum(d, "/k/t"@)->0,
        T: inum(d, "/k/T"@)->0,
        f: inum(d, "/k/f"@)->0,
        L: inum(d, "/k/L"@)->0,
        o: price::<F, N>(d, "/k/o"@, read)->0,
        h: price::<F, N>(d, "/k/h"@, read)->0,
        l: price::<F, N>(d, "/k/l"@, read)->0,
        c: price::<F, N>(d, "/k/c"@, read)->0,
        v: price::<F, N>(d, "/k/v"@, read)->0,
        n: inum(d, "/k/n"@)->0,
        x: flag(d, "/k/x"@)->0,
        q: price::<F, N>(d, "/k/q"@, read)->0,
        V: price::<F, N>(d, "/k/V"@, read)->0,
        Q: price::<F, N>(d, "/k/Q"@, read)->0,
        B: written_int(d, "/k/B"@)->0,
    }
}

/// The first thing wrong with the interval of a candle.
pub open spec fn interval_fault(d: json::Leaves) -> Option<TickError> {
    or_else(
        unless(d.present.contains("/k/i"@), TickError::NoInterval),
        unless(txt(d, "/k/i"@) is Some, TickError::IntervalText),
    )
}

/// The document is of a kind that is taken in: not the best prices, and a
/// candle, where its interval is read, only of an interval that has a name.
pub open spec fn taken(d: json::Leaves) -> bool {
    match txt(d, "/e"@) {
        None => true,
        Some(e) => {
            &&& e != "bookTicker"@
            &&& (e == "kline"@ && symbol_fault(d) is None && interval_fault(d) is None)
                ==> Intv::is_bin_name(txt(d, "/k/i"@)->0)
        },
    }
}

/// What a document says: an asset, and a trade or a candle of it; or else the
/// first thing that is wrong.
pub open spec fn says<F, N: Fn(&str) -> Option<F>>(
    d: json::Leaves,
    read: N,
    r: Result<(String, BinWSResponse<F>), TickError>,
) -> bool {
    match txt(d, "/e"@) {
        None => r == Err::<(String, BinWSResponse<F>), TickError>(TickError::NoEvent),
        Some(e) => if e == "aggTrade"@ {
            match trade_fault::<F, N>(d, read) {
                Some(fault) => r == Err::<(String, BinWSResponse<F>), TickError>(fault),
                None => r matches Ok((symbol, BinWSResponse::AggTrade(trade))) && symbol@ == txt(
                    d,
                    "/s"@,
                )->0 && trade == trade_of::<F, N>(d, read),
            }
        } else if e == "kline"@ {
            match or_else(
                symbol_fault(d),
                or_else(interval_fault(d), candle_fault::<F, N>(d, read)),
            ) {
                Some(fault) => r == Err::<(String, BinWSResponse<F>), TickError>(fault),
                None => r matches Ok((symbol, BinWSResponse::KlineTick(intv, candle))) && symbol@
                    == txt(d, "/s"@)->0 && intv.bin_name() == txt(d, "/k/i"@)->0 && candle
                    == candle_of::<F, N>(d, read),
            }
        } else {
            r == Err::<(String, BinWSResponse<F>), TickError>(TickError::UnknownEvent)
        },
    }
}

/// The price at `at`.
fn price_at<F, N: Fn(&str) -> Option<F>>(
    v: &Value,
    at: &str,
    read: &N,
    missing: TickError,
    bad: TickError,
) -> (r: Result<F, TickError>)
    requires
        reader::steady::<F, N>(*read),
    ensures
        match r {
            Ok(p) => price_fault::<F, N>(json::leaves(*v), at@, *read, missing, bad) is None
                && price::<F, N>(json::leaves(*v), at@, *read) == Some(p),
            Err(e) => price_fault::<F, N>(json::leaves(*v), at@, *read, missing, bad) == Some(e),
        },
{
    match json::text_at(v, at) {
        None => Err(missing),
        Some(t) => match reader::read_number(read, t) {
            Some(p) => Ok(p),
            None => Err(bad),
        },
    }
}

/// The asset that a document names.
fn symbol_at(v: &Value) -> (r: Result<String, TickError>)
    ensures
        match r {
            Ok(s) => symbol_fault(json::leaves(*v)) is None && txt(json::leaves(*v), "/s"@) == Some(
                s@,
            ),
            Err(e) => symbol_fault(json::leaves(*v)) == Some(e),
        },
{
    if !json::has(v, "/s") {
        return Err(TickError::NoSymbol);
    }
    match json::text_at(v, "/s") {
        Some(s) => Ok(s.to_owned()),
        None => Err(TickError::SymbolText),
    }
}

impl<F: Copy> AggTradeWS<F> {
    /// The trade that a document holds, once it names an asset.
    fn read_from<N: Fn(&str) -> Option<F>>(doc: &Value, read: &N) -> (r: Result<Self, TickError>)
        requires
            reader::steady::<F, N>(*read),
            symbol_fault(json::leaves(*doc)) is None,
        ensures
            match r {
                Ok(t) => trade_fault::<F, N>(json::leaves(*doc), *read) is None && t == trade_of::<
                    F,
                    N,
                >(json::leaves(*doc), *read),
                Err(e) => trade_fault::<F, N>(json::leaves(*doc), *read) == Some(e),
            },
    {
        let ee = match json::int_at(doc, "/E") {
            Some(x) => x,
            None => return Err(TickError::Trade('E')),
        };
        let mm = match json::flag_at(doc, "/M") {
            Some(x) => x,
            None => return Err(TickError::Trade('M')),
        };
        let tt = match json::int_at(doc, "/T") {
            Some(x) => x,
            None => return Err(TickError::Trade('T')),
        };
        let a = match json::int_at(doc, "/a") {
            Some(x) => x,
            None => return Err(TickError::Trade('a')),
        };
        let f = match json::int_at(doc, "/f") {
            Some(x) => x,
            None => return Err(TickError::Trade('f')),
        };
        let l = match json::int_at(doc, "/l") {
            Some(x) => x,
            None => return Err(TickError::Trade('l')),
        };
        let p = match price_at(doc, "/p", read, TickError::Trade('p'), TickError::Number('p')) {
            Ok(x) => x,
            Err(e) => return Err(e),
        };
        let q = match price_at(doc, "/q", read, TickError::Trade('q'), TickError::Number('q')) {
            Ok(x) => x,
            Err(e) => return Err(e),
        };
        let m = match json::flag_at(doc, "/m") {
            Some(x) => x,
            None => return Err(TickError::Trade('m')),
        };
        Ok(AggTradeWS {
            E: ee,
            M: mm,
            T: tt,
            a,
            f,
            l,
            p,
            q,
            m,
        })
    }
}

impl<F: Copy> KlineTick<F> {
    /// The candle that a document holds.
    fn read_from<N: Fn(&str) -> Option<F>>(doc: &Value, read: &N) -> (r: Result<Self, TickError>)
        requires
            reader::steady::<F, N>(*read),
        ensures
            match r {
                Ok(t) => candle_fault::<F, N>(json::leaves(*doc), *read) is None && t == candle_of::<
                    F,
                    N,
                >(json::leaves(*doc), *read),
                Err(e) => candle_fault::<F, N>(json::leaves(*doc), *read) == Some(e),
            },
    {
        let t = match json::int_at(doc, "/k/t") {
            Some(x) => x,
            None => return Err(TickError::Candle('t')),
        };
        let tt = match json::int_at(doc, "/k/T") {
            Some(x) => x,
            None => return Err(TickError::Candle('T')),
        };
        let f = match json::int_at(doc, "/k/f") {
            Some(x) => x,
            None => return Err(TickError::Candle('f')),
        };
        let ll = match json::int_at(doc, "/k/L") {
            Some(x) => x,
            None => return Err(TickError::Candle('L')),
        };
        let o = match price_at(doc, "/k/o", read, TickError::Candle('o'), TickError::Number('o')) {
            Ok(x) => x,
            Err(e) => return Err(e),
        };
        let h = match price_at(doc, "/k/h", read, TickError::Candle('h'), TickError::Number('h')) {
            Ok(x) => x,
            Err(e) => return Err(e),
        };
        let l = match price_at(doc, "/k/l", read, TickError::Candle('l'), TickError::Number('l')) {
            Ok(x) => x,
            Err(e) => return Err(e),
        };
        let c = match price_at(doc, "/k/c", read, TickError::Candle('c'), TickError::Number('c')) {
            Ok(x) => x,
            Err(e) => return Err(e),
        };
        let v = match price_at(doc, "/k/v", read, TickError::Candle('v'), TickError::Number('v')) {
            Ok(x) => x,
            Err(e) => return Err(e),
        };
        let n = match json::int_at(doc, "/k/n") {
            Some(x) => x,
            None => return Err(TickError::Candle('n')),
        };
        let x = match json::flag_at(doc, "/k/x") {
            Some(x) => x,
            None => return Err(TickError::Candle('x')),
        };
        let q = match price_at(doc, "/k/q", read, TickError::Candle('q'), TickError::Number('q')) {
            Ok(x) => x,
            Err(e) => return Err(e),
        };
        let vv = match price_at(doc, "/k/V", read, TickError::Candle('V'), TickError::Number('V')) {
            Ok(x) => x,
            Err(e) => return Err(e),
        };
        let qq = match price_at(doc, "/k/Q", read, TickError::Candle('Q'), TickError::Number('Q')) {
            Ok(x) => x,
            Err(e) => return Err(e),
        };
        let bb = match json::text_at(doc, "/k/B") {
            Some(x) => x,
            None => return Err(TickError::Candle('B')),
        };
        let bb = match text::parse_signed(bb) {
            Some(x) => x,
            None => return Err(TickError::Number('B')),
        };
        Ok(KlineTick {
            t,
            T: tt,
            f,
            L: ll,
            o,
            h,
            l,
            c,
            v,
            n,
            x,
            q,
            V: vv,
            Q: qq,
            B: bb,
        })
    }
}

impl<F: Copy> BinWSResponse<F> {
    /// What a document says, with its prices read by `read`.
    pub fn parse_into_by_str<N: Fn(&str) -> Option<F>>(input: &Value, read: &N) -> (r: Result<
        (String, BinWSResponse<F>),
        TickError,
    >)
        requires
            reader::steady::<F, N>(*read),
            taken(json::leaves(*input)),
        ensures
            says::<F, N>(json::leaves(*input), *read, r),
    {
        let event = match json::text_at(input, "/e") {
            Some(e) => e,
            None => return Err(TickError::NoEvent),
        };
        if text::same(event, "aggTrade") {
            let symbol = match symbol_at(input) {
                Ok(s) => s,
                Err(e) => return Err(e),
            };
            match AggTradeWS::read_from(input, read) {
                Ok(t) => Ok((symbol, BinWSResponse::AggTrade(t))),
                Err(e) => Err(e),
            }
        } else if text::same(event, "kline") {
            let symbol = match symbol_at(input) {
                Ok(s) => s,
                Err(e) => return Err(e),
            };
            if !json::has(input, "/k/i") {
                return Err(TickError::NoInterval);
            }
            let interval = match json::text_at(input, "/k/i") {
                Some(i) => i,
                None => return Err(TickError::IntervalText),
            };
            let intv = Intv::from_bin_str(interval);
            match KlineTick::read_from(input, read) {
                Ok(t) => Ok((symbol, BinWSResponse::KlineTick(intv, t))),
                Err(e) => Err(e),
            }
        } else {
            Err(TickError::UnknownEvent)
        }
    }

    /// Whether a document is of a kind that is taken in.
    pub fn is_taken(input: &Value) -> (r: bool)
        ensures
            r == taken(json::leaves(*input)),
    {
        let event = match json::text_at(input, "/e") {
            Some(e) => e,
            None => return true,
        };
        if text::same(event, "bookTicker") {
            return false;
        }
        if text::same(event, "kline") && symbol_at(input).is_ok() {
            match json::text_at(input, "/k/i") {
                Some(i) => {
                    let found = Intv::find_bin(i);
                    proof {
                        if found is Some {
                            assert(found->0.bin_name() == i@);
                        }
                    }
                    found.is_some()
                },
                None => true,
            }
        } else {
            true
        }
    }
}

/// What a message of the stream comes to: nothing where it only answers a
/// request, which is where it has an `id`; else what it says.
pub fn read_message<F: Copy, N: Fn(&str) -> Option<F>>(message: &str, read: &N) -> (r: Result<
    Option<(String, BinWSResponse<F>)>,
    TickError,
>)
    requires
        reader::steady::<F, N>(*read),
    ensures
        match json::document(message@) {
            None => r == Err::<Option<(String, BinWSResponse<F>)>, TickError>(TickError::NoJson),
            Some(d) => if d.present.contains("/id"@) {
                r == Ok::<Option<(String, BinWSResponse<F>)>, TickError>(None)
            } else if !taken(d) {
                r == Err::<Option<(String, BinWSResponse<F>)>, TickError>(TickError::NotTaken)
            } else {
                match r {
                    Ok(Some(x)) => says::<F, N>(d, *read, Ok(x)),
                    Ok(None) => false,
                    Err(e) => says::<F, N>(d, *read, Err(e)),
                }
            },
        },
{
    match json::read(message) {
        Err(_) => Err(TickError::NoJson),
        Ok(v) => {
            if json::has(&v, "/id") {
                return Ok(None);
            }
            if !BinWSResponse::<F>::is_taken(&v) {
                return Err(TickError::NotTaken);
            }
            match BinWSResponse::parse_into_by_str(&v, read) {
                Ok(x) => Ok(Some(x)),
                Err(e) => Err(e),
            }
        },
    }
}

/// The candle of a tick opens when the tick does, and has its prices and its volume, each in its
/// place: the opening price, the highest, the lowest, the closing one.
pub proof fn a_tick_is_a_candle<F>(k: KlineTick<F>)
    ensures
        ({
            let (open_time, open, high, low, close, volume) = tick_wick(k);
            &&& open_time.ms == k.t
            &&& open == k.o
            &&& high == k.h
            &&& low == k.l
            &&& close == k.c
            &&& volume == k.v
        }),
{
}

/// A candle that was handed out on request has the numbers of its texts, each in its place, and
/// is readable where the calendar can name its time and those five texts are numbers.
pub proof fn a_requested_candle_has_its_numbers<F, N: Fn(&str) -> Option<F>>(k: GetKline, read: N)
    ensures
        k.readable::<F, N>(read) <==> time::nameable(k.open_time as int) && reader::number::<F, N>(
            read,
            k.o@,
        ) is Some && reader::number::<F, N>(read, k.h@) is Some && reader::number::<F, N>(
            read,
            k.l@,
        ) is Some && reader::number::<F, N>(read, k.c@) is Some && reader::number::<F, N>(
            read,
            k.v@,
        ) is Some,
        k.readable::<F, N>(read) ==> {
            let (open_time, open, high, low, close, volume) = k.wick::<F, N>(read);
            &&& open_time.ms == k.open_time
            &&& Some(open) == reader::number::<F, N>(read, k.o@)
            &&& Some(high) == reader::number::<F, N>(read, k.h@)
            &&& Some(low) == reader::number::<F, N>(read, k.l@)
            &&& Some(close) == reader::number::<F, N>(read, k.c@)
            &&& Some(volume) == reader::number::<F, N>(read, k.v@)
        },
{
}

/// What a document holds at a place is there where it has something of that kind there.
pub proof fn what_a_document_holds_is_at_its_place<F, N: Fn(&str) -> Option<F>>(
    d: json::Leaves,
    at: Seq<char>,
    read: N,
)
    ensures
        inum(d, at) is Some <==> d.ints.dom().contains(at),
        inum(d, at) is Some ==> inum(d, at) == Some(d.ints[at]),
        flag(d, at) is Some <==> d.flags.dom().contains(at),
        flag(d, at) is Some ==> flag(d, at) == Some(d.flags[at]),
        txt(d, at) is Some <==> d.texts.dom().contains(at),
        txt(d, at) is Some ==> txt(d, at) == Some(d.texts[at]),
        price::<F, N>(d, at, read) == (if d.texts.dom().contains(at) {
            reader::number::<F, N>(read, d.texts[at])
        } else {
            None
        }),
        written_int(d, at) matches Some(n) ==> d.texts.dom().contains(at) && text::whole_number(
            d.texts[at],
        ) == Some(n as int),
        d.texts.dom().contains(at) ==> (text::whole_number(d.texts[at]) matches Some(n)
            ==> i64::MIN <= n <= i64::MAX ==> written_int(d, at) is Some),
{
}

/// A price is at fault where there is no text, and where the text is no number, and each of
/// these is told apart.
pub proof fn a_price_is_at_fault_in_two_ways<F, N: Fn(&str) -> Option<F>>(
    d: json::Leaves,
    at: Seq<char>,
    read: N,
    missing: TickError,
    bad: TickError,
)
    ensures
        price_fault::<F, N>(d, at, read, missing, bad) is None <==> price::<F, N>(
            d,
            at,
            read,
        ) is Some,
        !d.texts.dom().contains(at) ==> price_fault::<F, N>(d, at, read, missing, bad) == Some(
            missing,
        ),
        d.texts.dom().contains(at) && price::<F, N>(d, at, read) is None ==> price_fault::<F, N>(
            d,
            at,
            read,
            missing,
            bad,
        ) == Some(bad),
{
}

/// The asset of a message is in order where there is a text; where there is something else it is
/// told apart from nothing.
pub proof fn the_asset_of_a_message_is_a_text(d: json::Leaves)
    ensures
        symbol_fault(d) is None <==> d.present.contains("/s"@) && d.texts.dom().contains("/s"@),
        !d.present.contains("/s"@) ==> symbol_fault(d) == Some(TickError::NoSymbol),
        d.present.contains("/s"@) && !d.texts.dom().contains("/s"@) ==> symbol_fault(d) == Some(
            TickError::SymbolText,
        ),
        interval_fault(d) is None <==> d.present.contains("/k/i"@) && d.texts.dom().contains(
            "/k/i"@,
        ),
        !d.present.contains("/k/i"@) ==> interval_fault(d) == Some(TickError::NoInterval),
        d.present.contains("/k/i"@) && !d.texts.dom().contains("/k/i"@) ==> interval_fault(d)
            == Some(TickError::IntervalText),
{
}

/// A trade is in order exactly where its asset is and each of its parts is there and of its
/// kind; what is told to be wrong with one is wrong.
pub proof fn a_trade_needs_all_of_its_parts<F, N: Fn(&str) -> Option<F>>(d: json::Leaves, read: N)
    ensures
        trade_fault::<F, N>(d, read) is None <==> symbol_fault(d) is None && inum(d, "/E"@) is Some
            && flag(d, "/M"@) is Some && inum(d, "/T"@) is Some && inum(d, "/a"@) is Some && inum(
            d,
            "/f"@,
        ) is Some && inum(d, "/l"@) is Some && price::<F, N>(d, "/p"@, read) is Some && price::<
            F,
            N,
        >(d, "/q"@, read) is Some && flag(d, "/m"@) is Some,
        symbol_fault(d) is Some ==> trade_fault::<F, N>(d, read) == symbol_fault(d),
        trade_fault::<F, N>(d, read) == Some(TickError::Trade('E')) ==> inum(d, "/E"@) is None,
        trade_fault::<F, N>(d, read) == Some(TickError::Trade('M')) ==> flag(d, "/M"@) is None,
        trade_fault::<F, N>(d, read) == Some(TickError::Trade('T')) ==> inum(d, "/T"@) is None,
        trade_fault::<F, N>(d, read) == Some(TickError::Trade('a')) ==> inum(d, "/a"@) is None,
        trade_fault::<F, N>(d, read) == Some(TickError::Trade('f')) ==> inum(d, "/f"@) is None,
        trade_fault::<F, N>(d, read) == Some(TickError::Trade('l')) ==> inum(d, "/l"@) is None,
        trade_fault::<F, N>(d, read) == Some(TickError::Trade('p')) ==> txt(d, "/p"@) is None,
        trade_fault::<F, N>(d, read) == Some(TickError::Trade('q')) ==> txt(d, "/q"@) is None,
        trade_fault::<F, N>(d, read) == Some(TickError::Trade('m')) ==> flag(d, "/m"@) is None,
        trade_fault::<F, N>(d, read) == Some(TickError::Number('p')) ==> txt(d, "/p"@) is Some
            && price::<F, N>(d, "/p"@, read) is None,
        trade_fault::<F, N>(d, read) == Some(TickError::Number('q')) ==> txt(d, "/q"@) is Some
            && price::<F, N>(d, "/q"@, read) is None,
{
}

/// A candle is in order exactly where each of its parts is there and of its kind; what is told
/// to be wrong with one is wrong.
pub proof fn a_candle_needs_all_of_its_parts<F, N: Fn(&str) -> Option<F>>(d: json::Leaves, read: N)
    ensures
        candle_fault::<F, N>(d, read) is None <==> inum(d, "/k/t"@) is Some && inum(
            d,
            "/k/T"@,
        ) is Some && inum(d, "/k/f"@) is Some && inum(d, "/k/L"@) is Some && price::<F, N>(
            d,
            "/k/o"@,
            read,
        ) is Some && price::<F, N>(d, "/k/h"@, read) is Some && price::<F, N>(
            d,
            "/k/l"@,
            read,
        ) is Some && price::<F, N>(d, "/k/c"@, read) is Some && price::<F, N>(
            d,
            "/k/v"@,
            read,
        ) is Some && inum(d, "/k/n"@) is Some && flag(d, "/k/x"@) is Some && price::<F, N>(
            d,
            "/k/q"@,
            read,
        ) is Some && price::<F, N>(d, "/k/V"@, read) is Some && price::<F, N>(
            d,
            "/k/Q"@,
            read,
        ) is Some && written_int(d, "/k/B"@) is Some,
        candle_fault::<F, N>(d, read) == Some(TickError::Candle('t')) ==> inum(d, "/k/t"@) is None,
        candle_fault::<F, N>(d, read) == Some(TickError::Candle('T')) ==> inum(d, "/k/T"@) is None,
        candle_fault::<F, N>(d, read) == Some(TickError::Candle('f')) ==> inum(d, "/k/f"@) is None,
        candle_fault::<F, N>(d, read) == Some(TickError::Candle('L')) ==> inum(d, "/k/L"@) is None,
        candle_fault::<F, N>(d, read) == Some(TickError::Candle('o')) ==> txt(d, "/k/o"@) is None,
        candle_fault::<F, N>(d, read) == Some(TickError::Candle('h')) ==> txt(d, "/k/h"@) is None,
        candle_fault::<F, N>(d, read) == Some(TickError::Candle('l')) ==> txt(d, "/k/l"@) is None,
        candle_fault::<F, N>(d, read) == Some(TickError::Candle('c')) ==> txt(d, "/k/c"@) is None,
        candle_fault::<F, N>(d, read) == Some(TickError::Candle('v')) ==> txt(d, "/k/v"@) is None,
        candle_fault::<F, N>(d, read) == Some(TickError::Candle('n')) ==> inum(d, "/k/n"@) is None,
        candle_fault::<F, N>(d, read) == Some(TickError::Candle('x')) ==> flag(d, "/k/x"@) is None,
        candle_fault::<F, N>(d, read) == Some(TickError::Candle('q')) ==> txt(d, "/k/q"@) is None,
        candle_fault::<F, N>(d, read) == Some(TickError::Candle('V')) ==> txt(d, "/k/V"@) is None,
        candle_fault::<F, N>(d, read) == Some(TickError::Candle('Q')) ==> txt(d, "/k/Q"@) is None,
        candle_fault::<F, N>(d, read) == Some(TickError::Candle('B')) ==> txt(d, "/k/B"@) is None,
        candle_fault::<F, N>(d, read) == Some(TickError::Number('B')) ==> txt(d, "/k/B"@) is Some
            && written_int(d, "/k/B"@) is None,
{
}

/// A trade or a candle is not taken in where it is one of the best prices, or a candle of an
/// interval without a name; anything else is.
pub proof fn only_some_messages_are_not_taken(d: json::Leaves)
    ensures
        !taken(d) <==> txt(d, "/e"@) == Some("bookTicker"@) || (txt(d, "/e"@) == Some("kline"@)
            && symbol_fault(d) is None && interval_fault(d) is None && !Intv::is_bin_name(
            txt(d, "/k/i"@)->0,
        )),
{
    reveal_strlit("bookTicker");
    reveal_strlit("kline");
    assert("bookTicker"@.len() != "kline"@.len());
}

/// A message of a trade that is in order says that trade of its asset: each part is what the
/// document holds in its place.
pub proof fn a_message_says_its_trade<F, N: Fn(&str) -> Option<F>>(
    d: json::Leaves,
    read: N,
    r: Result<(String, BinWSResponse<F>), TickError>,
)
    requires
        says::<F, N>(d, read, r),
        txt(d, "/e"@) == Some("aggTrade"@),
    ensures
        r is Ok <==> trade_fault::<F, N>(d, read) is None,
        r matches Err(e) ==> trade_fault::<F, N>(d, read) == Some(e),
        r matches Ok((symbol, said)) ==> Some(symbol@) == txt(d, "/s"@) && (said matches BinWSResponse::AggTrade(
            t,
        ) && Some(t.p) == price::<F, N>(d, "/p"@, read) && Some(t.q) == price::<F, N>(
            d,
            "/q"@,
            read,
        ) && Some(t.E) == inum(d, "/E"@) && Some(t.T) == inum(d, "/T"@) && Some(t.a) == inum(
            d,
            "/a"@,
        ) && Some(t.f) == inum(d, "/f"@) && Some(t.l) == inum(d, "/l"@) && Some(t.m) == flag(
            d,
            "/m"@,
        ) && Some(t.M) == flag(d, "/M"@)),
{
    a_trade_needs_all_of_its_parts::<F, N>(d, read);
    the_asset_of_a_message_is_a_text(d);
}

/// A message of a candle that is in order says that candle of its asset and its interval: each
/// part is what the document holds in its place.
pub proof fn a_message_says_its_candle<F, N: Fn(&str) -> Option<F>>(
    d: json::Leaves,
    read: N,
    r: Result<(String, BinWSResponse<F>), TickError>,
)
    requires
        says::<F, N>(d, read, r),
        txt(d, "/e"@) == Some("kline"@),
    ensures
        r is Ok <==> symbol_fault(d) is None && interval_fault(d) is None && candle_fault::<F, N>(
            d,
            read,
        ) is None,
        symbol_fault(d) matches Some(e) ==> r == Err::<(String, BinWSResponse<F>), TickError>(e),
        symbol_fault(d) is None ==> (interval_fault(d) matches Some(e) ==> r == Err::<
            (String, BinWSResponse<F>),
            TickError,
        >(e)),
        r matches Ok((symbol, said)) ==> Some(symbol@) == txt(d, "/s"@) && (said matches BinWSResponse::KlineTick(
            i,
            k,
        ) && Some(i.bin_name()) == txt(d, "/k/i"@) && Some(k.t) == inum(d, "/k/t"@) && Some(k.T)
            == inum(d, "/k/T"@) && Some(k.f) == inum(d, "/k/f"@) && Some(k.L) == inum(d, "/k/L"@)
            && Some(k.o) == price::<F, N>(d, "/k/o"@, read) && Some(k.h) == price::<F, N>(
            d,
            "/k/h"@,
            read,
        ) && Some(k.l) == price::<F, N>(d, "/k/l"@, read) && Some(k.c) == price::<F, N>(
            d,
            "/k/c"@,
            read,
        ) && Some(k.v) == price::<F, N>(d, "/k/v"@, read) && Some(k.n) == inum(d, "/k/n"@) && Some(
            k.x,
        ) == flag(d, "/k/x"@) && Some(k.q) == price::<F, N>(d, "/k/q"@, read) && Some(k.V)
            == price::<F, N>(d, "/k/V"@, read) && Some(k.Q) == price::<F, N>(d, "/k/Q"@, read)
            && Some(k.B) == written_int(d, "/k/B"@)),
{
    reveal_strlit("aggTrade");
    reveal_strlit("kline");
    assert("aggTrade"@.len() != "kline"@.len());
    a_candle_needs_all_of_its_parts::<F, N>(d, read);
    the_asset_of_a_message_is_a_text(d);
}

/// A message that does not say what happened is told apart from one of which that is unknown.
pub proof fn an_unknown_message_says_nothing<F, N: Fn(&str) -> Option<F>>(
    d: json::Leaves,
    read: N,
    r: Result<(String, BinWSResponse<F>), TickError>,
)
    requires
        says::<F, N>(d, read, r),
    ensures
        txt(d, "/e"@) is None ==> r == Err::<(String, BinWSResponse<F>), TickError>(
            TickError::NoEvent,
        ),
        txt(d, "/e"@) matches Some(e) ==> e != "aggTrade"@ && e != "kline"@ ==> r == Err::<
            (String, BinWSResponse<F>),
            TickError,
        >(TickError::UnknownEvent),
{
}

/// In a log each part goes by its letter, but the last flag of a trade by none and the prices of
/// a candle by that of the first.
pub proof fn parts_go_by_their_letters(c: char)
    ensures
        c != 'm' ==> trade_letter(c) == seq![c],
        trade_letter('m').len() == 0,
        candle_letter('h') == candle_letter('o') && candle_letter('l') == candle_letter('o')
            && candle_letter('c') == candle_letter('o'),
        c != 'h' && c != 'l' && c != 'c' ==> candle_letter(c) == seq![c],
{
}

} // verus!
