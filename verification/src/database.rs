//! The data base: the statements that it is given, and what is decided from its
//! answers.

use crate::data::{AssetData, DLAsset, FatWick, Klines};
use crate::intv;
use crate::intv::Intv;
use crate::message::{GeneralError, SQLInstructs, SQLResponse};
use crate::text;
use crate::time::Stamp;
use vstd::prelude::*;

verus! {

/// How many candles go into one statement.
pub const ITER_SIZE: usize = 100;

/// How many assets go into one statement.
pub const ASSET_CHUNK: usize = 100;

/// The most candles that one statement can take.
pub const APPEND_MAX: usize = 5957;

/// The exchanges that candles come from.
#[derive(Debug, Clone, Copy, PartialEq, Eq, Structural)]
pub enum Exchange {
    Binance,
    Yahoo,
}

impl Exchange {
    /// The exchange that a text names, or its number.
    pub open spec fn named(s: Seq<char>) -> Option<Exchange> {
        if s == "Binance"@ || s == "0"@ {
            Some(Exchange::Binance)
        } else if s == "Yahoo"@ || s == "1"@ {
            Some(Exchange::Yahoo)
        } else {
            None
        }
    }

    /// The exchange that a text names, if it names one.
    pub fn find(input: &str) -> (r: Option<Exchange>)
        ensures
            r == Exchange::named(input@),
    {
        if text::same(input, "Binance") || text::same(input, "0") {
            Some(Exchange::Binance)
        } else if text::same(input, "Yahoo") || text::same(input, "1") {
            Some(Exchange::Yahoo)
        } else {
            None
        }
    }

    /// The exchange that a text names.
    pub fn from(input: &str) -> (r: Exchange)
        requires
            Exchange::named(input@) is Some,
        ensures
            Exchange::named(input@) == Some(r),
    {
        match Exchange::find(input) {
            Some(e) => e,
            None => Exchange::Binance,
        }
    }

    /// The number of the exchange of this name, as the data base keeps it.
    pub fn code(exchange: &str) -> (r: Option<u64>)
        ensures
            r == (if exchange@ == "Binance"@ {
                Some(0u64)
            } else if exchange@ == "Yahoo"@ {
                Some(1u64)
            } else {
                None
            }),
    {
        if text::same(exchange, "Binance") {
            Some(0)
        } else if text::same(exchange, "Yahoo") {
            Some(1)
        } else {
            None
        }
    }
}

/// The table of the candles of an interval.
pub open spec fn table_of(intv: Intv) -> Seq<char> {
    "kline_"@ + intv.name()
}

/// The table of the candles of an interval.
pub fn table_name(intv: &Intv) -> (r: String)
    ensures
        r@ == table_of(*intv),
{
    text::join2("kline_", intv.to_str())
}

/// No two intervals share a table.
pub proof fn tables_differ(a: Intv, b: Intv)
    requires
        table_of(a) == table_of(b),
    ensures
        a == b,
{
    let n = "kline_"@.len() as int;
    assert(table_of(a).skip(n) =~= a.name());
    assert(table_of(b).skip(n) =~= b.name());
    Intv::names_differ(a, b);
}

/// The statement that reads candles from a table: all of them, or those between
/// two times.
pub fn kfrom_sql(table: &str, t: Option<(i64, i64)>) -> (r: String)
    ensures
        r@ == (match t {
            None => "SELECT [Open Time], Open, High, Low, Close, Volume  FROM "@ + table@ + ";"@,
            Some((ts, te)) => "SELECT [Open Time], Open, High, Low, Close, Volume  FROM "@ + table@ + " WHERE "@ + text::signed_decimal(ts as int)
                + " <= [Timestamp ms] AND [Timestamp ms] <= "@ + text::signed_decimal(te as int)
                + ";"@,
        }),
{
    let mut out = text::join2("SELECT [Open Time], Open, High, Low, Close, Volume  FROM ", table);
    if let Some((ts, te)) = t {
        out.append(" WHERE ");
        text::push_signed(&mut out, ts);
        out.append(" <= [Timestamp ms] AND [Timestamp ms] <= ");
        text::push_signed(&mut out, te);
    }
    out.append(";");
    out
}

/// The statements that read the first candle of a table, the last one, and how
/// many there are.
pub fn get_sql_timestamps(table: &str) -> (r: (String, String, String))
    ensures
        r.0@ == "\n    SELECT FIRST([Timestamp MS], [Open Time], Open, High, Low, Close, Volume) AS output \n    FROM "@ + table@ + ";"@,
        r.1@ == "\n    SELECT LAST([Timestamp MS], [Open Time], Open, High, Low, Close, Volume) AS output \n    FROM "@ + table@ + ";"@,
        r.2@ == "\n    SELECT COUNT(*)\n    FROM "@ + table@ + ";"@,
{
    (
        text::join3("\n    SELECT FIRST([Timestamp MS], [Open Time], Open, High, Low, Close, Volume) AS output \n    FROM ", table, ";"),
        text::join3("\n    SELECT LAST([Timestamp MS], [Open Time], Open, High, Low, Close, Volume) AS output \n    FROM ", table, ";"),
        text::join3("\n    SELECT COUNT(*)\n    FROM ", table, ";"),
    )
}

/// The statement that puts candles into a table, before their values.
pub fn append_kline(table: &str) -> (r: String)
    ensures
        r@ == "INSERT OR REPLACE INTO "@ + table@ + "( [Timestamp MS], [Open Time], Open, High, Low, Close, Volume, [Close Timestamp MS], [Close Time], [Quote Asset Volume], [Number of Trades], [Taker Buy Base Asset Volume], [Taker Buy Quote Asset Volume] ) "@,
{
    text::join3("INSERT OR REPLACE INTO ", table, "( [Timestamp MS], [Open Time], Open, High, Low, Close, Volume, [Close Timestamp MS], [Close Time], [Quote Asset Volume], [Number of Trades], [Taker Buy Base Asset Volume], [Taker Buy Quote Asset Volume] ) ")
}

/// The pieces of a list of `len` items, `size` to a piece, as their first item
/// and the one behind their last.
pub open spec fn pieces(len: int, size: int, n: int) -> Seq<(int, int)> {
    Seq::new(
        n as nat,
        |i: int|
            (
                i * size,
                if (i + 1) * size <= len {
                    (i + 1) * size
                } else {
                    len
                },
            ),
    )
}

/// How many pieces of `size` a list of `len` items has.
pub open spec fn piece_count(len: int, size: int) -> int {
    (len + size - 1) / size
}

/// The pieces of a list of `len` items, `size` to a piece.
pub fn chunks(len: usize, size: usize) -> (r: Vec<(usize, usize)>)
    requires
        size > 0,
    ensures
        r@.map_values(|p: (usize, usize)| (p.0 as int, p.1 as int)) == pieces(
            len as int,
            size as int,
            piece_count(len as int, size as int),
        ),
{
    let ghost f = |p: (usize, usize)| (p.0 as int, p.1 as int);
    let ghost (l, s) = (len as int, size as int);
    let mut out: Vec<(usize, usize)> = Vec::new();
    let mut from: usize = 0;
    let ghost mut n: int = 0;
    assert(out@.map_values(f) =~= pieces(l, s, 0));
    assert(piece_count(0, s) == 0) by {
        vstd::arithmetic::div_mod::lemma_basic_div(s - 1, s);
    }
    while from < len
        invariant
            size > 0,
            l == len,
            s == size,
            from <= len,
            n >= 0,
            from < len ==> from == n * s,
            from == len ==> n == piece_count(l, s),
            f == (|p: (usize, usize)| (p.0 as int, p.1 as int)),
            out@.map_values(f) == pieces(l, s, n),
        decreases len - from,
    {
        let to: usize = if len - from > size {
            from + size
        } else {
            len
        };
        out.push((from, to));
        proof {
            assert((n + 1) * s == n * s + s) by (nonlinear_arith);
            assert(out@.map_values(f) =~= pieces(l, s, n).push((from as int, to as int)));
            assert(out@.map_values(f) =~= pieces(l, s, n + 1));
            if to == len {
                let q = l - n * s;
                assert(0 < q <= s);
                assert(l + s - 1 == (n + 1) * s + (q - 1)) by (nonlinear_arith)
                    requires
                        q == l - n * s,
                ;
                vstd::arithmetic::div_mod::lemma_fundamental_div_mod_converse(
                    l + s - 1,
                    s,
                    n + 1,
                    q - 1,
                );
            }
            n = n + 1;
        }
        from = to;
    }
    out
}

/// The pieces follow on each other without a gap, from the first item to the
/// last, and none is longer than `size`.
pub proof fn pieces_cover(len: int, size: int, i: int)
    requires
        len > 0,
        size > 0,
        0 <= i < piece_count(len, size),
    ensures
        pieces(len, size, piece_count(len, size))[0].0 == 0,
        pieces(len, size, piece_count(len, size)).last().1 == len,
        ({
            let p = pieces(len, size, piece_count(len, size));
            &&& p[i].0 < p[i].1
            &&& p[i].1 - p[i].0 <= size
            &&& i + 1 < p.len() ==> p[i].1 == p[i + 1].0
        }),
{
    let n = piece_count(len, size);
    vstd::arithmetic::div_mod::lemma_fundamental_div_mod(len + size - 1, size);
    let m = (len + size - 1) % size;
    assert(len + size - 1 == size * n + m);
    assert(0 <= m < size) by {
        vstd::arithmetic::div_mod::lemma_mod_bound(len + size - 1, size);
    }
    assert(size * n == n * size) by (nonlinear_arith);
    assert((n - 1) * size == n * size - size) by (nonlinear_arith);
    assert((i + 1) * size == i * size + size) by (nonlinear_arith);
    assert((i + 2) * size == i * size + 2 * size) by (nonlinear_arith);
    assert(i * size <= (n - 1) * size) by (nonlinear_arith)
        requires
            i <= n - 1,
            size > 0,
    ;
    if i + 1 < n {
        assert((i + 1) * size <= (n - 1) * size) by (nonlinear_arith)
            requires
                i + 1 <= n - 1,
                size > 0,
        ;
    }
}

/// What to do with candles that are to go behind those of a table.
#[derive(Debug, Clone, Copy, PartialEq, Eq, Structural)]
pub enum Append {
    /// Put all of them in.
    All,
    /// Put those in from this one on; the ones before are there.
    From(usize),
    /// Put none in: there would be a gap.
    Gap,
}

/// How many candles of the interval `intv` opened from `is_ms` up to `oe_ms`, both
/// counted.
pub open spec fn overlap(is_ms: int, oe_ms: int, intv: Intv) -> int {
    (oe_ms - is_ms) / 60_000 / (intv.minutes() as int) + 1
}

/// Candles that follow on each other without a gap, the first one at `is_ms`: the one
/// behind those that overlap opens one step after `oe_ms`.
pub proof fn overlap_ends_behind_the_last(is_ms: int, oe_ms: int, intv: Intv)
    requires
        is_ms <= oe_ms,
        (oe_ms - is_ms) % (60_000 * intv.minutes() as int) == 0,
    ensures
        is_ms + overlap(is_ms, oe_ms, intv) * (60_000 * intv.minutes() as int) == oe_ms
            + 60_000 * intv.minutes() as int,
{
    let d = oe_ms - is_ms;
    let m = intv.minutes() as int;
    vstd::arithmetic::div_mod::lemma_div_denominator(d, 60_000, m);
    vstd::arithmetic::div_mod::lemma_fundamental_div_mod(d, 60_000 * m);
    let q = d / (60_000 * m);
    assert((q + 1) * (60_000 * m) == q * (60_000 * m) + 60_000 * m) by (nonlinear_arith);
    assert((60_000 * m) * q == q * (60_000 * m)) by (nonlinear_arith);
}

/// What to do with candles that are to go behind those of a table whose last one
/// opened at `oe_time`. `delta` is how long a candle lasts, in milliseconds. All of
/// them go in where the first one follows on the last one of the table; where they
/// overlap, those that are there are left out; and where one would be missing
/// between them, none goes in.
pub fn check_append_kline<F>(
    input: &Vec<FatWick<F>>,
    oe_time: Stamp,
    intv: &Intv,
    delta: i64,
) -> (r: Append)
    requires
        input@.len() > 0,
        input@[0].open_time.wf(),
        oe_time.wf(),
        0 <= delta <= 31 * 86_400_000,
    ensures
        ({
            let is_time = input@[0].open_time.ms;
            r == (if is_time == oe_time.ms + delta {
                Append::All
            } else if oe_time.ms >= is_time {
                let n = overlap(is_time as int, oe_time.ms as int, *intv);
                Append::From(
                    if n <= input@.len() {
                        n as usize
                    } else {
                        input@.len() as usize
                    },
                )
            } else {
                Append::Gap
            })
        }),
{
    let is_time = input[0].open_time.ms;
    if is_time == oe_time.ms + delta {
        Append::All
    } else if oe_time.ms >= is_time {
        let minutes: i64 = (oe_time.ms - is_time) / 60_000;
        let n: u64 = minutes as u64 / intv.to_min() + 1;
        if n <= input.len() as u64 {
            Append::From(n as usize)
        } else {
            Append::From(input.len())
        }
    } else {
        Append::Gap
    }
}

/// How many candles go into one statement where a new table takes `len` of them.
pub fn create_chunk(len: usize) -> (r: usize)
    requires
        len > 0,
    ensures
        r == (if len < 4000 {
            len - 1
        } else {
            4000
        }),
{
    if len < 4000 {
        len - 1
    } else {
        4000
    }
}

/// The texts.
pub open spec fn texts(v: Seq<String>) -> Seq<Seq<char>> {
    v.map_values(|s: String| s@)
}

/// The statements that set up the list of assets.
pub open spec fn metadata_statements() -> Seq<Seq<char>> {
    seq![
        "CREATE TABLE assets ( [Asset] TEXT, [Exchange] TEXT, [Status] TEXT, [BaseAsset] TEXT, [QouteAsset] TEXT, [Extras] TEXT, [Extras Multi] TEXT, [Start Time ms] INTEGER, [End Time ms] INTEGER, [Market cap] REAL )"@,
        "CREATE UNIQUE INDEX Asset\n        ON assets ( [Asset] )"@,
        "CREATE TABLE assets_fut ( [Asset] TEXT, [Exchange] TEXT, [Status] TEXT, [BaseAsset] TEXT, [QouteAsset] TEXT, [Extras] TEXT, [Extras Multi] TEXT, [onboardDate] INTEGER, [deliveryDate] INTEGER, [Market cap] REAL )"@,
        "CREATE UNIQUE INDEX AssetFut\n        ON assets_fut ( [Asset] )"@,
        "CREATE TABLE assets_dl ( [Asset] TEXT, [Exchange] TEXT, [Start Time] INTEGER, [End Time] INTEGER )"@,
        "CREATE UNIQUE INDEX Asset_DL\n        ON assets_dl ( [Asset] )"@,
    ]
}

/// The statements that set up the list of assets.
pub fn create_metadata_db() -> (r: Vec<&'static str>)
    ensures
        r@.map_values(|s: &'static str| s@) == metadata_statements(),
{
    let r: Vec<&'static str> = vec![
        "CREATE TABLE assets ( [Asset] TEXT, [Exchange] TEXT, [Status] TEXT, [BaseAsset] TEXT, [QouteAsset] TEXT, [Extras] TEXT, [Extras Multi] TEXT, [Start Time ms] INTEGER, [End Time ms] INTEGER, [Market cap] REAL )",
        "CREATE UNIQUE INDEX Asset\n        ON assets ( [Asset] )",
        "CREATE TABLE assets_fut ( [Asset] TEXT, [Exchange] TEXT, [Status] TEXT, [BaseAsset] TEXT, [QouteAsset] TEXT, [Extras] TEXT, [Extras Multi] TEXT, [onboardDate] INTEGER, [deliveryDate] INTEGER, [Market cap] REAL )",
        "CREATE UNIQUE INDEX AssetFut\n        ON assets_fut ( [Asset] )",
        "CREATE TABLE assets_dl ( [Asset] TEXT, [Exchange] TEXT, [Start Time] INTEGER, [End Time] INTEGER )",
        "CREATE UNIQUE INDEX Asset_DL\n        ON assets_dl ( [Asset] )",
    ];
    assert(r@.map_values(|s: &'static str| s@) =~= metadata_statements());
    r
}

/// The statement that sets up the table of the candles of an interval.
pub open spec fn kline_table(intv: Intv) -> Seq<char> {
    "CREATE TABLE kline_"@ + intv.name() + " ( [Timestamp MS] INTEGER, [Open Time] datetime,  Open REAL,  High REAL,  Low REAL,  Close REAL,  Volume REAL, [Close Timestamp MS] INTEGER, [Close Time] INTEGER,  [Quote Asset Volume] REAL,  [Number of Trades] INTEGER,  [Taker Buy Base Asset Volume] REAL,  [Taker Buy Quote Asset Volume] REAL,[Ignore], [Pattern hash] REAL )"@
}

/// The statement that keeps the candles of a table apart by their time, under an
/// index of its own.
pub open spec fn kline_index(intv: Intv) -> Seq<char> {
    "CREATE UNIQUE INDEX time_index_"@ + intv.name() + "\n            ON kline_"@ + intv.name() + " ( [Timestamp MS] )"@
}

/// The statement that keeps the candles of a table apart by their time.
pub open spec fn plain_index(intv: Intv) -> Seq<char> {
    "CREATE UNIQUE INDEX time_index\n            ON kline_"@ + intv.name() + " ( [Timestamp MS] )"@
}

/// The statement that sets up the table of the candles of an interval.
pub fn kline_table_text(intv: &Intv) -> (r: String)
    ensures
        r@ == kline_table(*intv),
{
    text::join3("CREATE TABLE kline_", intv.to_str(), " ( [Timestamp MS] INTEGER, [Open Time] datetime,  Open REAL,  High REAL,  Low REAL,  Close REAL,  Volume REAL, [Close Timestamp MS] INTEGER, [Close Time] INTEGER,  [Quote Asset Volume] REAL,  [Number of Trades] INTEGER,  [Taker Buy Base Asset Volume] REAL,  [Taker Buy Quote Asset Volume] REAL,[Ignore], [Pattern hash] REAL )")
}

/// The statement that keeps the candles of a table apart by their time.
pub fn plain_index_text(intv: &Intv) -> (r: String)
    ensures
        r@ == plain_index(*intv),
{
    text::join3("CREATE UNIQUE INDEX time_index\n            ON kline_", intv.to_str(), " ( [Timestamp MS] )")
}

fn kline_index_text(intv: &Intv) -> (r: String)
    ensures
        r@ == kline_index(*intv),
{
    let mut out = text::join3("CREATE UNIQUE INDEX time_index_", intv.to_str(), "\n            ON kline_");
    out.append(intv.to_str());
    out.append(" ( [Timestamp MS] )");
    out
}

/// The statements for the tables beside the candles.
pub open spec fn side_tables() -> Seq<Seq<char>> {
    seq![
        "CREATE TABLE colstats ( Column TEXT, Type INTEGER, Mean REAL, [Standard Deviaton] REAL , No INTEGER )"@,
        "CREATE UNIQUE INDEX col_id\n        ON colstats ( Column )"@,
        "CREATE TABLE metadata (Symbol TEXT, Exchange INTEGER, [Start Time] INTEGER, [End Time] INTEGER, [Key asset class 1] INTEGER, [Sub asset class 1] INTEGER ) "@,
        "CREATE UNIQUE INDEX asset_id\n        ON metadata ( Symbol )"@,
    ]
}

/// The statements for the tables of the candles of the first `n` intervals.
pub open spec fn kline_tables(n: int) -> Seq<Seq<char>>
    decreases n,
{
    if n <= 0 {
        Seq::empty()
    } else {
        let i = intv::intervals()[n - 1];
        kline_tables(n - 1).push(kline_table(i)).push(kline_index(i))
    }
}

/// The statements for the tables beside the candles.
pub fn side_table_texts() -> (r: Vec<String>)
    ensures
        texts(r@) == side_tables(),
{
    let mut out: Vec<String> = Vec::new();
    out.push("CREATE TABLE colstats ( Column TEXT, Type INTEGER, Mean REAL, [Standard Deviaton] REAL , No INTEGER )".to_owned());
    out.push("CREATE UNIQUE INDEX col_id\n        ON colstats ( Column )".to_owned());
    out.push("CREATE TABLE metadata (Symbol TEXT, Exchange INTEGER, [Start Time] INTEGER, [End Time] INTEGER, [Key asset class 1] INTEGER, [Sub asset class 1] INTEGER ) ".to_owned());
    out.push("CREATE UNIQUE INDEX asset_id\n        ON metadata ( Symbol )".to_owned());
    assert(texts(out@) =~= side_tables());
    out
}

/// The statements that set up the data base of one asset: a table for each
/// interval, then the others.
pub fn cr_kl_tables() -> (r: Vec<String>)
    ensures
        texts(r@) == kline_tables(intv::INTV_COUNT as int) + side_tables(),
{
    let all = Intv::iter();
    let mut out: Vec<String> = Vec::new();
    let mut i: usize = 0;
    assert(texts(out@) =~= kline_tables(0));
    while i < all.len()
        invariant
            all@ == intv::intervals(),
            i <= all@.len(),
            texts(out@) == kline_tables(i as int),
        decreases all@.len() - i,
    {
        let ghost before = out@;
        out.push(kline_table_text(&all[i]));
        assert(texts(out@) =~= texts(before).push(kline_table(all@[i as int])));
        let ghost before = out@;
        out.push(kline_index_text(&all[i]));
        assert(texts(out@) =~= texts(before).push(kline_index(all@[i as int])));
        i += 1;
    }
    let ghost before = out@;
    let mut rest = side_table_texts();
    let ghost added = rest@;
    out.append(&mut rest);
    assert(texts(out@) =~= texts(before) + texts(added));
    out
}

/// The statement that lists assets, before their values.
pub fn insert_assets() -> (r: &'static str)
    ensures
        r@ == "INSERT OR REPLACE INTO assets(  [Asset] , [Exchange] , [Status] , [BaseAsset] , [QouteAsset])"@,
{
    "INSERT OR REPLACE INTO assets(  [Asset] , [Exchange] , [Status] , [BaseAsset] , [QouteAsset])"
}

/// The statement that lists assets of the futures market, before their values.
pub fn insert_assets_fut() -> (r: &'static str)
    ensures
        r@ == "INSERT OR REPLACE INTO assets_fut(  [Asset] , [Exchange] , [Status] , [BaseAsset] , [QouteAsset] , [onboardDate], [deliveryDate])"@,
{
    "INSERT OR REPLACE INTO assets_fut(  [Asset] , [Exchange] , [Status] , [BaseAsset] , [QouteAsset] , [onboardDate], [deliveryDate])"
}

/// The statement that reads which assets are kept on disk.
pub fn dl_load_asset_list() -> (r: &'static str)
    ensures
        r@ == "SELECT \n[Asset] , [Exchange] FROM assets_dl;"@,
{
    "SELECT \n[Asset] , [Exchange] FROM assets_dl;"
}

/// The statement that reads which assets are kept on disk, and between which
/// times.
pub fn load_asset_list_ad() -> (r: &'static str)
    ensures
        r@ == "SELECT \n[Asset] , [Exchange], [Start Time], [End Time] FROM assets_dl;"@,
{
    "SELECT \n[Asset] , [Exchange], [Start Time], [End Time] FROM assets_dl;"
}

/// The statement that reads every asset.
pub fn load_asset_list() -> (r: &'static str)
    ensures
        r@ == "SELECT \n[Asset] , [Exchange] , [Status] , [BaseAsset] , [QouteAsset] , [Extras] , [Extras Multi] , [Start Time ms] , [End Time ms] , [Market cap] FROM assets;"@,
{
    "SELECT \n[Asset] , [Exchange] , [Status] , [BaseAsset] , [QouteAsset] , [Extras] , [Extras Multi] , [Start Time ms] , [End Time ms] , [Market cap] FROM assets;"
}

/// The assets on disk, from what the data base hands out.
pub fn read_asset_list(rows: Vec<(String, String, i64, i64)>) -> (r: Vec<DLAsset>)
    ensures
        r@ == rows@.map_values(
            |e: (String, String, i64, i64)|
                DLAsset { asset: e.0, exchange: e.1, dat_start_t: e.2, dat_end_t: e.3 },
        ),
{
    let ghost f = |e: (String, String, i64, i64)|
        DLAsset { asset: e.0, exchange: e.1, dat_start_t: e.2, dat_end_t: e.3 };
    let mut out: Vec<DLAsset> = Vec::new();
    let mut i: usize = 0;
    while i < rows.len()
        invariant
            i <= rows@.len(),
            f == (|e: (String, String, i64, i64)|
                DLAsset { asset: e.0, exchange: e.1, dat_start_t: e.2, dat_end_t: e.3 }),
            out@ == rows@.take(i as int).map_values(f),
        decreases rows@.len() - i,
    {
        let e = &rows[i];
        out.push(
            DLAsset {
                asset: e.0.clone(),
                exchange: e.1.clone(),
                dat_start_t: e.2,
                dat_end_t: e.3,
            },
        );
        assert(out@ =~= rows@.take(i + 1).map_values(f));
        i += 1;
    }
    assert(rows@.take(rows@.len() as int) =~= rows@);
    out
}

/// The statement that keeps the times of an asset's candles: both of them, or
/// only the last.
pub fn update_asset_metadata(symbol: &str, start_time: Option<i64>, end_time: i64) -> (r: String)
    ensures
        r@ == (match start_time {
            Some(s) => "\n        INSERT OR REPLACE INTO metadata ( Asset, [Start Time ms], [End Time ms])\n        VALUES('"@ + symbol@ + "', "@ + text::signed_decimal(s as int) + ". "@
                + text::signed_decimal(end_time as int) + ");"@,
            None => "\n        INSERT OR REPLACE INTO assets_dl ( Asset, [End Time ms])\n        VALUES('"@ + symbol@ + "', "@ + text::signed_decimal(end_time as int)
                + ");"@,
        }),
{
    match start_time {
        Some(s) => {
            let mut out = text::join3("\n        INSERT OR REPLACE INTO metadata ( Asset, [Start Time ms], [End Time ms])\n        VALUES('", symbol, "', ");
            text::push_signed(&mut out, s);
            out.append(". ");
            text::push_signed(&mut out, end_time);
            out.append(");");
            out
        },
        None => {
            let mut out = text::join3("\n        INSERT OR REPLACE INTO assets_dl ( Asset, [End Time ms])\n        VALUES('", symbol, "', ");
            text::push_signed(&mut out, end_time);
            out.append(");");
            out
        },
    }
}

/// A row of an asset's times: its name, its exchange, the last time and the
/// first.
pub open spec fn times_row(head: Seq<char>, symbol: Seq<char>, exchange: Seq<char>, et: int, st: int) -> Seq<char> {
    head + symbol + "', '"@ + exchange + "', "@ + text::signed_decimal(et) + ", "@
        + text::signed_decimal(st) + ");"@
}

fn push_times_row(head: &str, symbol: &str, exchange: &str, et: i64, st: i64) -> (r: String)
    ensures
        r@ == times_row(head@, symbol@, exchange@, et as int, st as int),
{
    let mut out = text::join3(head, symbol, "', '");
    out.append(exchange);
    out.append("', ");
    text::push_signed(&mut out, et);
    out.append(", ");
    text::push_signed(&mut out, st);
    out.append(");");
    out
}

/// The statements that keep the times of an asset's candles, in its own data base
/// under the number of the exchange, and in the list of assets under its name;
/// none for an exchange without a number.
pub fn update_asset_metadata_time(symbol: &str, exchange: &str, st: i64, et: i64) -> (r: Option<
    (String, String),
>)
    ensures
        match r {
            Some((own, list)) => {
                &&& exchange@ == "Binance"@ || exchange@ == "Yahoo"@
                &&& own@ == times_row(
                    "\n    INSERT OR REPLACE INTO metadata (Symbol, Exchange, [End Time], [Start Time] )\n    VALUES('"@,
                    symbol@,
                    text::decimal(
                        if exchange@ == "Binance"@ {
                            0
                        } else {
                            1
                        },
                    ),
                    et as int,
                    st as int,
                )
                &&& list@ == times_row("\n    INSERT OR REPLACE INTO assets_dl ( Asset, Exchange, [End Time], [Start Time] )\n    VALUES('"@, symbol@, exchange@, et as int, st as int)
            },
            None => exchange@ != "Binance"@ && exchange@ != "Yahoo"@,
        },
{
    let code = match Exchange::code(exchange) {
        Some(c) => text::decimal_string(c),
        None => return None,
    };
    Some(
        (
            push_times_row("\n    INSERT OR REPLACE INTO metadata (Symbol, Exchange, [End Time], [Start Time] )\n    VALUES('", symbol, code.as_str(), et, st),
            push_times_row("\n    INSERT OR REPLACE INTO assets_dl ( Asset, Exchange, [End Time], [Start Time] )\n    VALUES('", symbol, exchange, et, st),
        ),
    )
}

/// The statements that read the times of an asset's candles, from the list of
/// assets and from that of the futures market.
pub fn get_asset_timestamps(symbol: &str) -> (r: (String, String))
    ensures
        r.0@ == "SELECT [Start time], [End time] FROM assets_dl WHERE Asset = '"@ + symbol@ + "';"@,
        r.1@ == "SELECT [onboardDate], [deliveryDate] FROM assets_fut WHERE Asset = '"@ + symbol@ + "';"@,
{
    (
        text::join3("SELECT [Start time], [End time] FROM assets_dl WHERE Asset = '", symbol, "';"),
        text::join3("SELECT [onboardDate], [deliveryDate] FROM assets_fut WHERE Asset = '", symbol, "';"),
    )
}

/// The times of an asset's candles: those of the list of assets, where it has
/// the first one, else those of the futures market.
pub fn choose_timestamps(
    meta: (Option<i64>, Option<i64>),
    fut: (Option<i64>, Option<i64>),
) -> (r: (Option<i64>, Option<i64>))
    ensures
        r == (if meta.0 is Some {
            meta
        } else {
            fut
        }),
{
    if meta.0.is_some() {
        meta
    } else {
        fut
    }
}

/// The statement that reads what is kept of an asset.
pub fn get_metadata(symbol: &str) -> (r: String)
    ensures
        r@ == "SELECT ( Asset, [Start Time ms], [End Time ms]) FROM asset WHERE Asset = '"@ + symbol@ + "';"@,
{
    text::join3("SELECT ( Asset, [Start Time ms], [End Time ms]) FROM asset WHERE Asset = '", symbol, "';")
}

/// The statement that reads the names of the two assets that a pair is made of.
pub fn pair_names(symbol: &str) -> (r: String)
    ensures
        r@ == "SELECT [BaseAsset], [QouteAsset] FROM assets WHERE Asset = '"@ + symbol@ + "';"@,
{
    text::join3("SELECT [BaseAsset], [QouteAsset] FROM assets WHERE Asset = '", symbol, "';")
}

/// The statement that looks an asset up in the list of assets.
pub fn validate_asset_binance(symbol: &str) -> (r: String)
    ensures
        r@ == "SELECT \n    [Asset] FROM assets WHERE Asset = '"@ + symbol@ + "';"@,
{
    text::join3("SELECT \n    [Asset] FROM assets WHERE Asset = '", symbol, "';")
}

/// The statement that adds an asset to those kept on disk.
pub fn insert_dl_asset(symbol: &str, exchange: &str) -> (r: String)
    ensures
        r@ == "\n        INSERT OR REPLACE INTO metadata (Symbol, Exchange, [End Time], [Start Time] )\n        VALUES('"@ + symbol@ + "', '"@ + exchange@ + "');"@,
{
    let mut out = text::join3("\n        INSERT OR REPLACE INTO metadata (Symbol, Exchange, [End Time], [Start Time] )\n        VALUES('", symbol, "', '");
    out.append(exchange);
    out.append("');");
    out
}

/// The statement that looks a column up in a table.
pub fn check_if_columns_exist(columns: &str, table: &str) -> (r: String)
    ensures
        r@ == "PRAGMA table_info("@ + columns@ + ") WHERE name = '"@ + table@ + "'"@,
{
    let mut out = text::join3("PRAGMA table_info(", columns, ") WHERE name = '");
    out.append(table);
    out.append("'");
    out
}

/// The file of an asset's data base.
pub fn asset_path(asset_symbol: &str) -> (r: String)
    ensures
        r@ == "./databases/Asset"@ + asset_symbol@ + ".db"@,
{
    text::join3("./databases/Asset", asset_symbol, ".db")
}

/// The client of the data base: where its files lie.
#[derive(Debug)]
pub struct SQLConn {
    pub db_path: String,
}

/// The data base is asked for what it can do.
pub open spec fn served<F>(i: SQLInstructs<F>) -> bool {
    match i {
        SQLInstructs::LoadHistData { .. } => true,
        SQLInstructs::UnloadHistData { .. } => true,
        SQLInstructs::UpdateDataBinance { .. } => true,
        SQLInstructs::UpdateDataAll => true,
        SQLInstructs::LoadDLAssetList => true,
        SQLInstructs::InsertDLAsset { .. } => true,
        _ => false,
    }
}

/// What an instruction takes.
#[derive(Debug)]
pub enum SQLWork {
    /// Load the candles of an asset.
    Load { symbol: String },
    /// Let them go.
    Unload { symbol: String },
    /// Bring the candles of an asset on disk up to date.
    Update { symbol: String },
    /// Bring all candles on disk up to date.
    UpdateAll,
    /// Read which assets are on disk.
    LoadList,
    /// Keep another asset on disk.
    Insert { symbol: String, exchange: String },
}

impl SQLConn {
    /// The client whose files lie where they do by default.
    pub fn new() -> (r: Self)
        ensures
            r.db_path@ == "./src/databases"@,
    {
        SQLConn { db_path: "./src/databases".to_owned() }
    }

    /// The client for trials: the same one.
    pub fn new_testing() -> (r: Self)
        ensures
            r.db_path@ == "./src/databases"@,
    {
        SQLConn::new()
    }

    /// The file that the candles of an asset are loaded from.
    pub fn load_path(&self, symbol: &str) -> (r: String)
        ensures
            r@ == self.db_path@ + "/Asset"@ + symbol@ + ".db"@,
    {
        let mut out = text::join3(self.db_path.as_str(), "/Asset", symbol);
        out.append(".db");
        out
    }

    /// What an instruction takes.
    pub fn parse_sql_instructs<F>(i: SQLInstructs<F>) -> (r: SQLWork)
        requires
            served(i),
        ensures
            match i {
                SQLInstructs::LoadHistData { symbol } => r == (SQLWork::Load { symbol }),
                SQLInstructs::UnloadHistData { symbol } => r == (SQLWork::Unload { symbol }),
                SQLInstructs::UpdateDataBinance { symbol } => r == (SQLWork::Update { symbol }),
                SQLInstructs::UpdateDataAll => r == SQLWork::UpdateAll,
                SQLInstructs::LoadDLAssetList => r == SQLWork::LoadList,
                SQLInstructs::InsertDLAsset { symbol, exchange } => r == (SQLWork::Insert {
                    symbol,
                    exchange,
                }),
                _ => true,
            },
    {
        match i {
            SQLInstructs::LoadHistData { symbol } => SQLWork::Load { symbol },
            SQLInstructs::UnloadHistData { symbol } => SQLWork::Unload { symbol },
            SQLInstructs::UpdateDataBinance { symbol } => SQLWork::Update { symbol },
            SQLInstructs::LoadDLAssetList => SQLWork::LoadList,
            SQLInstructs::InsertDLAsset { symbol, exchange } => SQLWork::Insert {
                symbol,
                exchange,
            },
            _ => SQLWork::UpdateAll,
        }
    }

    /// Whether the data base is asked for what it can do.
    pub fn is_served<F>(i: &SQLInstructs<F>) -> (r: bool)
        ensures
            r == served(*i),
    {
        match i {
            SQLInstructs::LoadHistData { .. } => true,
            SQLInstructs::UnloadHistData { .. } => true,
            SQLInstructs::UpdateDataBinance { .. } => true,
            SQLInstructs::UpdateDataAll => true,
            SQLInstructs::LoadDLAssetList => true,
            SQLInstructs::InsertDLAsset { .. } => true,
            _ => false,
        }
    }

    /// Takes the candles of an asset in that were read. They are refused where
    /// the asset has some already.
    pub fn load_all_data<F>(ad: &mut AssetData<F>, symbol: &str, klines: Klines<F>) -> (r: SQLResponse)
        requires
            old(ad).wf(),
            klines.wf(),
        ensures
            final(ad).wf(),
            ({
                let there = old(ad).kline_data@.dom().contains(symbol@);
                &&& there ==> (r matches SQLResponse::Failure((t, k)) && t@ == "Data for "@
                    + symbol@ + " already present"@ && k == GeneralError::Generic)
                &&& !there ==> r == SQLResponse::Success
                &&& final(ad).kline_data@ == (if there {
                    old(ad).kline_data@
                } else {
                    old(ad).kline_data@.insert(symbol@, klines)
                })
            }),
            final(ad).downloaded_assets == old(ad).downloaded_assets,
    {
        if ad.add_loaded(symbol, klines) {
            SQLResponse::Success
        } else {
            SQLResponse::of(Err(text::join3("Data for ", symbol, " already present")))
        }
    }

    /// Lets the candles of an asset go.
    pub fn unload_data<F>(ad: &mut AssetData<F>, symbol: &str) -> (r: SQLResponse)
        requires
            old(ad).wf(),
        ensures
            final(ad).wf(),
            r == SQLResponse::Success,
            final(ad).kline_data@ == old(ad).kline_data@.remove(symbol@),
            final(ad).downloaded_assets == old(ad).downloaded_assets,
    {
        ad.unload(symbol);
        SQLResponse::Success
    }
}

/// Where the candles of an asset were loaded, letting them go puts what is loaded
/// back to what it was.
pub proof fn unload_undoes_load<F>(before: Map<Seq<char>, Klines<F>>, symbol: Seq<char>, klines: Klines<F>)
    requires
        !before.dom().contains(symbol),
    ensures
        before.insert(symbol, klines).remove(symbol) == before,
{
    assert(before.insert(symbol, klines).remove(symbol) =~= before);
}

/// The intervals of which a download brought candles, in their order.
pub open spec fn filled<F>(klines: Klines<F>, n: int) -> Seq<Intv>
    decreases n,
{
    if n <= 0 {
        Seq::empty()
    } else {
        let i = intv::intervals()[n - 1];
        if klines.full_dat@[i].kline@.len() > 0 {
            filled(klines, n - 1).push(i)
        } else {
            filled(klines, n - 1)
        }
    }
}

impl SQLConn {
    /// What a download comes to: the intervals whose candles go to disk. It fails
    /// where an interval is missing altogether.
    pub fn download_single_asset<F>(klines: &Klines<F>) -> (r: Option<Vec<Intv>>)
        requires
            klines.wf(),
        ensures
            match r {
                Some(v) => {
                    &&& forall|i: Intv| #[trigger] klines.full_dat@.dom().contains(i)
                    &&& v@ == filled(*klines, intv::INTV_COUNT as int)
                },
                None => exists|i: Intv| !#[trigger] klines.full_dat@.dom().contains(i),
            },
    {
        let all = Intv::iter();
        let mut out: Vec<Intv> = Vec::new();
        let mut k: usize = 0;
        assert(out@ =~= filled(*klines, 0));
        while k < all.len()
            invariant
                klines.wf(),
                all@ == intv::intervals(),
                k <= all@.len(),
                forall|j: int| 0 <= j < k ==> klines.full_dat@.dom().contains(#[trigger] all@[j]),
                out@ == filled(*klines, k as int),
            decreases all@.len() - k,
        {
            let i = all[k];
            match klines.full_dat.get(&i) {
                None => {
                    return None;
                },
                Some(kline) => {
                    if kline.kline.len() > 0 {
                        out.push(i);
                    }
                },
            }
            k += 1;
        }
        proof {
            assert forall|i: Intv| #[trigger] klines.full_dat@.dom().contains(i) by {
                Intv::intervals_are_all(i);
                assert(klines.full_dat@.dom().contains(all@[i.place()]));
            }
        }
        Some(out)
    }
}

/// The time that a download is said to start from: the known one, or the start of
/// 1970.
pub fn start_timestamp(start_time_ms: Option<i64>) -> (r: i64)
    ensures
        r == (match start_time_ms {
            Some(t) => t,
            None => 0,
        }),
{
    match start_time_ms {
        Some(t) => t,
        None => 0,
    }
}

/// An exchange goes by its name and by its number, and nothing else names one.
pub proof fn exchanges_go_by_name_and_number(s: Seq<char>)
    ensures
        Exchange::named("Binance"@) == Some(Exchange::Binance),
        Exchange::named("0"@) == Some(Exchange::Binance),
        Exchange::named("Yahoo"@) == Some(Exchange::Yahoo),
        Exchange::named("1"@) == Some(Exchange::Yahoo),
        s != "Binance"@ && s != "0"@ && s != "Yahoo"@ && s != "1"@ ==> Exchange::named(s) is None,
{
    reveal_strlit("Binance");
    reveal_strlit("Yahoo");
    reveal_strlit("0");
    reveal_strlit("1");
    assert("Yahoo"@.len() == 5 && "Binance"@.len() == 7 && "0"@.len() == 1 && "1"@.len() == 1);
    assert("0"@[0] != "1"@[0]);
}

/// The table of an interval, and the statements that set it up, are named after it.
pub proof fn tables_are_named_after_their_interval(i: Intv)
    ensures
        table_of(i) == "kline_"@ + i.name(),
        kline_index(i) == "CREATE UNIQUE INDEX time_index_"@ + i.name() + "\n            ON kline_"@
            + i.name() + " ( [Timestamp MS] )"@,
        plain_index(i) == "CREATE UNIQUE INDEX time_index\n            ON kline_"@ + i.name()
            + " ( [Timestamp MS] )"@,
        kline_table(i) == "CREATE TABLE kline_"@ + i.name()
            + " ( [Timestamp MS] INTEGER, [Open Time] datetime,  Open REAL,  High REAL,  Low REAL,  Close REAL,  Volume REAL, [Close Timestamp MS] INTEGER, [Close Time] INTEGER,  [Quote Asset Volume] REAL,  [Number of Trades] INTEGER,  [Taker Buy Base Asset Volume] REAL,  [Taker Buy Quote Asset Volume] REAL,[Ignore], [Pattern hash] REAL )"@,
{
}

/// Every interval has its table and its index, the index right behind the table, in the order
/// of the intervals, and there is nothing else.
pub proof fn every_interval_has_its_table(n: int, i: int)
    requires
        0 <= i < n <= intv::INTV_COUNT,
    ensures
        kline_tables(n).len() == 2 * n,
        kline_tables(n)[2 * i] == kline_table(intv::intervals()[i]),
        kline_tables(n)[2 * i + 1] == kline_index(intv::intervals()[i]),
    decreases n,
{
    if i < n - 1 {
        every_interval_has_its_table(n - 1, i);
    } else if n > 1 {
        every_interval_has_its_table(n - 1, 0);
    } else {
        assert(kline_tables(0).len() == 0);
    }
}

/// The statements that set up the list of assets come in pairs: a table, and the index on its
/// assets. There is one for the spot market, one for the futures and one for what is on disk.
pub proof fn the_list_of_assets_has_three_tables()
    ensures
        metadata_statements().len() == 6,
        metadata_statements()[0]
            == "CREATE TABLE assets ( [Asset] TEXT, [Exchange] TEXT, [Status] TEXT, [BaseAsset] TEXT, [QouteAsset] TEXT, [Extras] TEXT, [Extras Multi] TEXT, [Start Time ms] INTEGER, [End Time ms] INTEGER, [Market cap] REAL )"@,
        metadata_statements()[1] == "CREATE UNIQUE INDEX Asset\n        ON assets ( [Asset] )"@,
        metadata_statements()[2]
            == "CREATE TABLE assets_fut ( [Asset] TEXT, [Exchange] TEXT, [Status] TEXT, [BaseAsset] TEXT, [QouteAsset] TEXT, [Extras] TEXT, [Extras Multi] TEXT, [onboardDate] INTEGER, [deliveryDate] INTEGER, [Market cap] REAL )"@,
        metadata_statements()[3]
            == "CREATE UNIQUE INDEX AssetFut\n        ON assets_fut ( [Asset] )"@,
        metadata_statements()[4]
            == "CREATE TABLE assets_dl ( [Asset] TEXT, [Exchange] TEXT, [Start Time] INTEGER, [End Time] INTEGER )"@,
        metadata_statements()[5]
            == "CREATE UNIQUE INDEX Asset_DL\n        ON assets_dl ( [Asset] )"@,
{
}

/// Beside the candles there are two tables, each followed by its index.
pub proof fn there_are_two_tables_beside_the_candles()
    ensures
        side_tables().len() == 4,
        side_tables()[0]
            == "CREATE TABLE colstats ( Column TEXT, Type INTEGER, Mean REAL, [Standard Deviaton] REAL , No INTEGER )"@,
        side_tables()[1] == "CREATE UNIQUE INDEX col_id\n        ON colstats ( Column )"@,
        side_tables()[2]
            == "CREATE TABLE metadata (Symbol TEXT, Exchange INTEGER, [Start Time] INTEGER, [End Time] INTEGER, [Key asset class 1] INTEGER, [Sub asset class 1] INTEGER ) "@,
        side_tables()[3] == "CREATE UNIQUE INDEX asset_id\n        ON metadata ( Symbol )"@,
{
}

/// Every piece but the last is full, and a list without items has no piece.
pub proof fn pieces_are_full(len: int, size: int, i: int)
    requires
        size > 0,
        len >= 0,
    ensures
        piece_count(0, size) == 0,
        0 <= i < piece_count(len, size) - 1 ==> {
            let p = pieces(len, size, piece_count(len, size));
            &&& p[i].1 - p[i].0 == size
            &&& p[i].0 == i * size
        },
        (piece_count(len, size) - 1) * size < len || len == 0,
        len <= piece_count(len, size) * size,
{
    let n = piece_count(len, size);
    vstd::arithmetic::div_mod::lemma_basic_div(size - 1, size);
    vstd::arithmetic::div_mod::lemma_fundamental_div_mod(len + size - 1, size);
    vstd::arithmetic::div_mod::lemma_mod_bound(len + size - 1, size);
    assert(size * n == n * size) by (nonlinear_arith);
    assert((n - 1) * size == n * size - size) by (nonlinear_arith);
    assert((i + 1) * size == i * size + size) by (nonlinear_arith);
    if 0 <= i < n - 1 {
        assert((i + 1) * size <= (n - 1) * size) by (nonlinear_arith)
            requires
                i + 1 <= n - 1,
                size > 0,
        ;
    }
}

/// Of candles that follow on each other, those that overlap with the table are the ones that
/// opened up to the last one there: at least the first, and none behind it.
pub proof fn overlap_counts_what_is_there(is_ms: int, oe_ms: int, intv: Intv)
    requires
        is_ms <= oe_ms,
    ensures
        ({
            let n = overlap(is_ms, oe_ms, intv);
            let step = 60_000 * intv.minutes();
            &&& n >= 1
            &&& is_ms + (n - 1) * step <= oe_ms
            &&& oe_ms < is_ms + n * step
        }),
{
    let d = oe_ms - is_ms;
    let m = intv.minutes();
    let s = 60_000 * m;
    vstd::arithmetic::div_mod::lemma_div_denominator(d, 60_000, m);
    vstd::arithmetic::div_mod::lemma_fundamental_div_mod(d, s);
    vstd::arithmetic::div_mod::lemma_mod_bound(d, s);
    vstd::arithmetic::div_mod::lemma_div_pos_is_pos(d, s);
    let q = d / s;
    assert(s * q == q * s) by (nonlinear_arith);
    assert((q + 1) * s == q * s + s) by (nonlinear_arith);
}

/// A row of times names the asset, the exchange, the last time and then the first.
pub proof fn a_row_of_times_has_the_last_one_first(
    head: Seq<char>,
    symbol: Seq<char>,
    exchange: Seq<char>,
    et: int,
    st: int,
)
    ensures
        times_row(head, symbol, exchange, et, st) == head + symbol + "', '"@ + exchange + "', "@
            + text::signed_decimal(et) + ", "@ + text::signed_decimal(st) + ");"@,
{
}

/// The data base serves what loads, unloads, updates and lists candles, and nothing else.
pub proof fn the_data_base_serves_its_own<F>(i: SQLInstructs<F>)
    ensures
        served(i) <==> i is LoadHistData || i is UnloadHistData || i is UpdateDataBinance
            || i is UpdateDataAll || i is LoadDLAssetList || i is InsertDLAsset,
{
}

/// Of the intervals those go to disk that a download brought a candle of, each once.
pub proof fn intervals_with_candles_go_to_disk<F>(klines: Klines<F>, n: int, i: Intv)
    requires
        0 <= n <= intv::INTV_COUNT,
    ensures
        filled(klines, n).contains(i) <==> i.place() < n && klines.full_dat@[i].kline@.len() > 0,
        filled(klines, n).len() <= n,
    decreases n,
{
    Intv::intervals_are_all(i);
    if n > 0 {
        intervals_with_candles_go_to_disk(klines, n - 1, i);
        let before = filled(klines, n - 1);
        let after = filled(klines, n);
        let last = intv::intervals()[n - 1];
        Intv::intervals_are_all(last);
        if before.contains(i) {
            let j = choose|j: int| 0 <= j < before.len() && before[j] == i;
            assert(after[j] == i);
        }
        if i == last && klines.full_dat@[i].kline@.len() > 0 {
            assert(after[before.len() as int] == i);
        }
        if after.contains(i) && !before.contains(i) {
            let j = choose|j: int| 0 <= j < after.len() && after[j] == i;
            if j < before.len() {
                assert(before[j] == i);
            }
        }
    }
}

/// The texts are those of the strings, one for one.
pub proof fn texts_are_those_of_the_strings(v: Seq<String>, i: int)
    ensures
        texts(v).len() == v.len(),
        0 <= i < v.len() ==> texts(v)[i] == v[i]@,
{
}

} // verus!
