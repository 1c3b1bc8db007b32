use bintrade_egui::data::{AssetData, FatKline, FatWick, Klines};
use bintrade_egui::database::{
    append_kline, asset_path, check_append_kline, choose_timestamps, chunks, cr_kl_tables, create_chunk,
    create_metadata_db, get_asset_timestamps, get_metadata, get_sql_timestamps, insert_dl_asset, kfrom_sql, pair_names,
    read_asset_list, start_timestamp, table_name, update_asset_metadata, update_asset_metadata_time,
    validate_asset_binance, Append, Exchange, SQLConn, SQLWork,
};
use bintrade_egui::download::{get_data_binance, read_klines, yfcandle_conv, ConvError, KlineSummary};
use bintrade_egui::intv::Intv;
use bintrade_egui::text::{
    decimal_string, join2, join3, parse_signed, parse_unsigned, push_decimal, push_signed,
};
use bintrade_egui::time::Stamp;
use bintrade_egui::{GeneralError, SQLInstructs, SQLResponse};

fn read(s: &str) -> Option<f64> {
    s.parse().ok()
}

fn fat(ms: i64) -> FatWick<f64> {
    FatWick {
        open_ms: ms,
        open_time: Stamp { ms },
        open: 1.0,
        high: 2.0,
        low: 0.5,
        close: 1.5,
        volume: 3.0,
        close_ms: ms + 59_999,
        close_time: Stamp { ms: ms + 59_999 },
        quote_volume: 4.0,
        trades: 5,
        taker_base_volume: 6.0,
        taker_quote_volume: 7.0,
    }
}

#[test]
fn numbers_are_written_and_read_back() {
    for n in [0u64, 7, 10, 1234567890, u64::MAX] {
        assert_eq!(decimal_string(n), n.to_string());
        assert_eq!(parse_unsigned(&decimal_string(n), u64::MAX), Some(n));
    }
    for n in [0i64, -1, 42, i64::MIN, i64::MAX] {
        let mut s = String::from("n");
        push_signed(&mut s, n);
        assert_eq!(s, format!("n{}", n));
        assert_eq!(parse_signed(&s[1..]), Some(n));
    }
    let mut s = String::new();
    push_decimal(&mut s, 12);
    assert_eq!(s, "12");
    assert_eq!(parse_unsigned("+5", 10), Some(5));
    assert_eq!(parse_unsigned("007", 10), Some(7));
    assert_eq!(parse_unsigned("11", 10), None);
    assert_eq!(parse_unsigned("", 10), None);
    assert_eq!(parse_unsigned("-1", 10), None);
    assert_eq!(parse_unsigned("1x", 10), None);
    assert_eq!(parse_unsigned("+", 10), None);
    assert_eq!(parse_signed("-9223372036854775809"), None);
    assert_eq!(parse_signed("-"), None);
    assert_eq!((join2("a", "b"), join3("a", "b", "c")), ("ab".to_string(), "abc".to_string()));
}

#[test]
fn each_interval_has_its_table() {
    assert_eq!(table_name(&Intv::Hour1), "kline_1hour");
    let all = Intv::iter();
    for a in &all {
        for b in &all {
            assert_eq!(table_name(a) == table_name(b), a == b);
        }
    }
    let statements = cr_kl_tables();
    assert_eq!(statements.len(), 34);
    assert!(statements[0].starts_with("CREATE TABLE kline_1min ("));
    assert!(statements[1].starts_with("CREATE UNIQUE INDEX time_index_1min\n"));
    assert_eq!(create_metadata_db().len(), 6);
}

#[test]
fn statements() {
    assert_eq!(
        kfrom_sql("kline_1h", None),
        "SELECT [Open Time], Open, High, Low, Close, Volume  FROM kline_1h;"
    );
    assert_eq!(
        kfrom_sql("kline_1h", Some((-5, 10))),
        "SELECT [Open Time], Open, High, Low, Close, Volume  FROM kline_1h WHERE -5 <= [Timestamp ms] AND [Timestamp ms] <= 10;"
    );
    assert!(append_kline("kline_1h").starts_with("INSERT OR REPLACE INTO kline_1h( [Timestamp MS],"));
    assert_eq!(get_sql_timestamps("t").2, "\n    SELECT COUNT(*)\n    FROM t;");
    assert_eq!(
        get_asset_timestamps("A").0,
        "SELECT [Start time], [End time] FROM assets_dl WHERE Asset = 'A';"
    );
    assert_eq!(validate_asset_binance("A"), "SELECT \n    [Asset] FROM assets WHERE Asset = 'A';");
    assert_eq!(
        pair_names("A"),
        "SELECT [BaseAsset], [QouteAsset] FROM assets WHERE Asset = 'A';"
    );
    assert!(get_metadata("A").ends_with("FROM asset WHERE Asset = 'A';"));
    assert!(insert_dl_asset("A", "Binance").ends_with("VALUES('A', 'Binance');"));
    assert!(update_asset_metadata("A", Some(1), 2).ends_with("VALUES('A', 1. 2);"));
    assert!(update_asset_metadata("A", None, 2).ends_with("VALUES('A', 2);"));
    let (own, list) = update_asset_metadata_time("A", "Yahoo", 1, 2).expect("known");
    assert!(own.ends_with("VALUES('A', '1', 2, 1);"));
    assert!(list.ends_with("VALUES('A', 'Yahoo', 2, 1);"));
    assert_eq!(update_asset_metadata_time("A", "Kraken", 1, 2), None);
    assert_eq!(asset_path("BTCUSDT"), "./databases/AssetBTCUSDT.db");
    assert_eq!(SQLConn::new().load_path("A"), "./src/databases/AssetA.db");
}

#[test]
fn exchanges_have_names_and_numbers() {
    assert_eq!(Exchange::find("Binance"), Some(Exchange::Binance));
    assert_eq!(Exchange::find("1"), Some(Exchange::Yahoo));
    assert_eq!(Exchange::find("2"), None);
    assert_eq!(Exchange::from("Yahoo"), Exchange::Yahoo);
    assert_eq!(Exchange::code("Binance"), Some(0));
    assert_eq!(Exchange::code("0"), None);
}

#[test]
fn pieces_follow_on_each_other() {
    assert_eq!(chunks(250, 100), vec![(0, 100), (100, 200), (200, 250)]);
    assert_eq!(chunks(200, 100), vec![(0, 100), (100, 200)]);
    assert_eq!(chunks(0, 100), vec![]);
    assert_eq!(create_chunk(3999), 3998);
    assert_eq!(create_chunk(4000), 4000);
}

#[test]
fn candles_go_behind_those_on_disk() {
    let input = vec![fat(600_000), fat(660_000)];
    let at = |ms: i64| check_append_kline(&input, Stamp { ms }, &Intv::Min1, 60_000);
    assert_eq!(at(540_000), Append::All);
    assert_eq!(at(660_000), Append::From(2));
    // the candle that is there already is left out
    assert_eq!(at(600_000), Append::From(1));
    assert_eq!(at(720_000), Append::From(2));
    assert_eq!(at(6_000_000), Append::From(2));
    assert_eq!(at(539_999), Append::Gap);
    assert_eq!(at(480_000), Append::Gap);
}

#[test]
fn times_of_assets() {
    assert_eq!(choose_timestamps((Some(1), None), (Some(2), Some(3))), (Some(1), None));
    assert_eq!(choose_timestamps((None, Some(9)), (Some(2), Some(3))), (Some(2), Some(3)));
    assert_eq!((start_timestamp(Some(4)), start_timestamp(None)), (4, 0));
    let list = read_asset_list(vec![("A".to_string(), "Binance".to_string(), 1, 2)]);
    assert_eq!((list[0].asset.as_str(), list[0].dat_start_t, list[0].dat_end_t), ("A", 1, 2));
}

#[test]
fn unloading_undoes_loading() {
    let mut ad: AssetData<f64> = AssetData::new(0);
    assert!(SQLConn::load_all_data(&mut ad, "A", Klines::new_empty()).same(&SQLResponse::Success));
    match SQLConn::load_all_data(&mut ad, "A", Klines::new_empty()) {
        SQLResponse::Failure((t, GeneralError::Generic)) => {
            assert_eq!(t, "Data for A already present")
        }
        other => panic!("{:?}", other),
    }
    assert!(SQLConn::unload_data(&mut ad, "A").same(&SQLResponse::Success));
    assert!(ad.show_all_loaded().is_empty());
}

#[test]
fn what_the_data_base_is_asked_for() {
    let i: SQLInstructs<f64> = SQLInstructs::InsertDLAsset { symbol: "A".to_string(), exchange: "B".to_string() };
    assert!(SQLConn::is_served(&i));
    assert!(matches!(SQLConn::parse_sql_instructs(i), SQLWork::Insert { .. }));
    assert!(!SQLConn::is_served::<f64>(&SQLInstructs::DelAll));
    assert!(matches!(
        SQLConn::parse_sql_instructs::<f64>(SQLInstructs::UpdateDataAll),
        SQLWork::UpdateAll
    ));
}

#[test]
fn a_download_needs_every_interval() {
    let mut klines: Klines<f64> = Klines::new_empty();
    assert_eq!(SQLConn::download_single_asset(&klines), None);
    for i in Intv::iter() {
        klines.insert_fat(&i, FatKline::new(if i == Intv::Hour1 { vec![fat(0)] } else { vec![] }));
    }
    assert_eq!(SQLConn::download_single_asset(&klines), Some(vec![Intv::Hour1]));
}

#[test]
fn requests_cover_the_time_once() {
    let step = 60_000 * 500;
    assert_eq!(get_data_binance(&Intv::Min1, Some(0), 10), vec![(1, step)]);
    let r = get_data_binance(&Intv::Min1, Some(1000), 1000 + 3 * step as i64 + 5);
    assert_eq!(r, vec![(1001, 1000 + step), (1001 + step, 1000 + 2 * step), (1001 + 2 * step, 1000 + 3 * step)]);
    assert_eq!(get_data_binance(&Intv::Min1, None, 0).len(), 1);
    assert_eq!(get_data_binance(&Intv::Min1, Some(-5), 0)[0], (u64::MAX - 3, step - 5));
}

fn summary(open: &str, close_time: i64, quote: &str) -> KlineSummary {
    KlineSummary {
        open_time: 60_000,
        open: open.to_string(),
        high: "3".to_string(),
        low: "1".to_string(),
        close: "2".to_string(),
        volume: "10".to_string(),
        close_time,
        quote_asset_volume: quote.to_string(),
        number_of_trades: -1,
        taker_buy_base_asset_volume: "4".to_string(),
        taker_buy_quote_asset_volume: "5".to_string(),
    }
}

#[test]
fn downloaded_candles_are_read() {
    let k = read_klines(&vec![summary("1.5", 119_999, "7")], &read).expect("readable");
    assert_eq!((k[0].open_ms, k[0].open, k[0].high, k[0].low, k[0].close), (60_000, 1.5, 3.0, 1.0, 2.0));
    assert_eq!((k[0].close_time, k[0].quote_volume, k[0].trades), (Stamp { ms: 119_999 }, 7.0, u64::MAX));
    let bad = |k: KlineSummary| read_klines(&vec![summary("1", 0, "1"), k], &read).map(|v| v.len());
    assert_eq!(bad(summary("x", i64::MAX, "1")), Err(ConvError::Number));
    assert_eq!(bad(summary("1", i64::MAX, "x")), Err(ConvError::CloseTime));
    assert_eq!(bad(summary("1", 0, "x")), Err(ConvError::Number));
    assert_eq!(ConvError::CloseTime.to_str(), "Unable to parse ctime");
    let long = |n: u64| n as f64;
    assert_eq!(
        yfcandle_conv(2, (1.0, 2.0, 0.5, 1.5), Some(9), &long),
        Some((Stamp { ms: 2000 }, 1.0, 2.0, 0.5, 1.5, 9.0))
    );
    assert_eq!(yfcandle_conv(2, (1.0, 2.0, 0.5, 1.5), None, &long).map(|k| k.5), Some(0.0));
    assert_eq!(yfcandle_conv(i64::MAX, (1.0, 2.0, 0.5, 1.5), None, &long), None);
}
