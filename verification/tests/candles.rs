use bintrade_egui::data::{AssetData, FatKline, FatWick, Kline, Klines, Missing, Wick};
use bintrade_egui::intv::{is_leap_year, month_length, Intv};
use bintrade_egui::keymap::KeyMap;
use bintrade_egui::time::{from_timestamp, from_timestamp_millis, Stamp, FIRST_MS, LAST_MS};

fn wick(ms: i64, open: f64) -> Wick<f64> {
    (Stamp { ms }, open, open + 2.0, open - 1.0, open + 1.0, 10.0)
}

fn minutes(first_ms: i64, n: i64) -> Vec<Wick<f64>> {
    (0..n).map(|i| wick(first_ms + i * 60_000, i as f64)).collect()
}

fn loaded(symbol: &str, first_ms: i64, n: i64) -> AssetData<f64> {
    let mut klines = Klines::new_empty();
    klines.insert(&Intv::Min1, Kline::new_sql(minutes(first_ms, n)));
    klines.start_time = Stamp { ms: first_ms };
    klines.end_time = Stamp { ms: first_ms + (n - 1) * 60_000 };
    let mut ad = AssetData::new(7);
    assert!(ad.add_loaded(symbol, klines));
    ad
}

#[test]
fn names_of_intervals_read_back() {
    let all = Intv::iter();
    assert_eq!(all.len(), 15);
    for i in &all {
        assert_eq!(Intv::from_str(i.to_str()), *i);
        assert_eq!(Intv::from_bin_str(i.to_bin_str()), *i);
    }
    for (n, i) in all.iter().enumerate() {
        for (m, j) in all.iter().enumerate() {
            assert_eq!(i.to_str() == j.to_str(), n == m);
            assert_eq!(i.to_bin_str() == j.to_bin_str(), n == m);
        }
    }
    assert_eq!(Intv::find("1min"), Some(Intv::Min1));
    assert_eq!(Intv::find("1m"), None);
    assert_eq!(Intv::find_bin("1M"), Some(Intv::Month1));
    assert_eq!(Intv::find_bin("1m"), Some(Intv::Min1));
    assert_eq!(Intv::find_bin("1month"), None);
    assert_eq!(Intv::default(), Intv::Min1);
}

#[test]
fn intervals_last() {
    assert_eq!(Intv::Min15.to_min(), 15);
    assert_eq!(Intv::Hour12.to_sec(), 43_200);
    assert_eq!(Intv::Week1.to_ms(), 604_800_000);
    assert_eq!(Intv::Day3.to_timedelta(), 259_200_000);
    let month = Intv::Month1.to_timedelta();
    assert!(month >= 28 * 86_400_000 && month <= 31 * 86_400_000);
}

#[test]
fn months_last_as_the_calendar_says() {
    // the first of February 2024, of March 2023, and the last day of April 2023
    let feb_2024 = Stamp { ms: 1_706_745_600_000 };
    let mar_2023 = Stamp { ms: 1_677_628_800_000 };
    let apr_2023 = Stamp { ms: 1_682_812_800_000 };
    let feb_2023 = Stamp { ms: 1_676_000_000_000 };
    assert_eq!(Intv::Month1.month_to_timedelta(feb_2024), 29 * 86_400_000);
    assert_eq!(Intv::Month1.month_to_timedelta(mar_2023), 31 * 86_400_000);
    assert_eq!(Intv::Month1.month_to_timedelta(apr_2023), 30 * 86_400_000);
    assert_eq!(Intv::Month1.timedelta_at(feb_2023), 28 * 86_400_000);
    assert_eq!(Intv::Hour1.timedelta_at(feb_2023), 3_600_000);
    assert_eq!(month_length(2, 1900), 28 * 86_400_000);
    assert_eq!(month_length(2, 2000), 29 * 86_400_000);
    assert!(is_leap_year(-4));
    assert!(!is_leap_year(2100));
}

#[test]
fn the_calendar_has_two_ends() {
    assert_eq!(from_timestamp_millis(0), Some(Stamp { ms: 0 }));
    assert_eq!(from_timestamp_millis(FIRST_MS), Some(Stamp { ms: FIRST_MS }));
    assert_eq!(from_timestamp_millis(FIRST_MS - 1), None);
    assert_eq!(from_timestamp_millis(LAST_MS), Some(Stamp { ms: LAST_MS }));
    assert_eq!(from_timestamp_millis(LAST_MS + 1), None);
    assert_eq!(from_timestamp(12), Some(Stamp { ms: 12_000 }));
    assert_eq!(from_timestamp(i64::MAX), None);
    assert_eq!(from_timestamp(LAST_MS / 1000 + 1), None);
}

#[test]
fn seconds_are_rounded_down() {
    assert_eq!(Stamp { ms: 1999 }.timestamp(), 1);
    assert_eq!(Stamp { ms: -1 }.timestamp(), -1);
    assert_eq!(Stamp { ms: -1000 }.timestamp(), -1);
    assert_eq!(Stamp { ms: -1001 }.timestamp(), -2);
    assert!(Stamp { ms: 1 }.before(&Stamp { ms: 2 }));
    assert!(!Stamp { ms: 2 }.before(&Stamp { ms: 2 }));
    assert_eq!(Stamp::epoch().timestamp_millis(), 0);
}

#[test]
fn candles_split_by_what_is_left_over() {
    let k = Kline::new_sql(minutes(0, 10));
    // ten candles in three pieces leave one over
    let parts: Vec<Vec<f64>> =
        k.split(3).iter().map(|p| p.iter().map(|w| w.1).collect()).collect();
    assert_eq!(parts, vec![vec![], vec![1.0], vec![2.0, 3.0]]);
    assert_eq!(k.get_start_end(), (Stamp { ms: 0 }, Stamp { ms: 540_000 }));
}

#[test]
fn one_set_of_candles_per_interval() {
    let mut klines: Klines<f64> = Klines::new_empty();
    klines.insert(&Intv::Min1, Kline::new_sql(minutes(0, 2)));
    klines.insert(&Intv::Min1, Kline::new_sql(minutes(0, 3)));
    klines.insert(&Intv::Hour1, Kline::new());
    assert_eq!(klines.dat.len(), 2);
    assert_eq!(klines.dat.get(&Intv::Min1).map(|k| k.kline.len()), Some(3));
}

#[test]
fn times_of_a_download() {
    let fat = |ms: i64, end: i64| FatWick {
        open_ms: ms,
        open_time: Stamp { ms },
        open: 1.0,
        high: 2.0,
        low: 0.5,
        close: 1.5,
        volume: 3.0,
        close_ms: end,
        close_time: Stamp { ms: end },
        quote_volume: 4.0,
        trades: 5,
        taker_base_volume: 6.0,
        taker_quote_volume: 7.0,
    };
    let mut klines: Klines<f64> = Klines::new_empty();
    assert_eq!(klines.get_times2(true), None);
    klines.insert_fat(&Intv::Min1, FatKline::new(vec![fat(60_000, 119_999), fat(120_000, 179_999)]));
    klines.insert(&Intv::Min1, Kline::new_sql(minutes(60_000, 4)));
    let full = klines.get_times2(true).expect("a candle is there");
    let short = klines.get_times2(false).expect("a candle is there");
    assert_eq!(full.0, 60_000);
    assert_eq!(short, (60_000, 240_000));
}

#[test]
fn what_is_missing_is_told() {
    let ad = loaded("BTCUSDT", 0, 5);
    assert_eq!(ad.load_full_intv("BTCUSDT", &Intv::Min1).map(|k| k.len()), Ok(5));
    assert_eq!(ad.load_full_intv("BTCUSDT", &Intv::Hour1).map(|k| k.len()), Err(Missing::Interval));
    assert_eq!(ad.load_full_intv("ETHUSDT", &Intv::Min1).map(|k| k.len()), Err(Missing::Asset));
}

#[test]
fn next_candles_start_behind_the_first() {
    let from_zero = loaded("A", 0, 6);
    let k = from_zero.find_slice_n("A", &Intv::Min1, &0, 3).expect("loaded");
    assert_eq!(k.iter().map(|w| w.1).collect::<Vec<f64>>(), vec![0.0, 1.0, 2.0]);
    let later = loaded("A", 60_000, 6);
    let k = later.find_slice_n("A", &Intv::Min1, &0, 3).expect("loaded");
    assert_eq!(k.iter().map(|w| w.1).collect::<Vec<f64>>(), vec![1.0, 2.0, 3.0]);
    assert!(later.find_slice_n("B", &Intv::Min1, &0, 3).is_none());
}

#[test]
fn a_slice_lies_between_two_times() {
    let ad = loaded("A", 0, 13);
    // twelve minutes are 720 seconds; the step is 720 / 60 = 12 seconds
    let k = ad.find_slice("A", &Intv::Min1, &Stamp { ms: 12_000 }, &Stamp { ms: 60_000 });
    assert_eq!(k.map(|k| k.iter().map(|w| w.1).collect::<Vec<f64>>()), Some(vec![1.0, 2.0, 3.0, 4.0]));
    assert!(ad.find_slice("A", &Intv::Min1, &Stamp { ms: -1 }, &Stamp { ms: 60_000 }).is_none());
    assert!(ad.find_slice("A", &Intv::Min1, &Stamp { ms: 0 }, &Stamp { ms: 720_001 }).is_none());
    // two times on one place, also the wrong way round, have nothing between them
    let k = ad.find_slice("A", &Intv::Min1, &Stamp { ms: 30_000 }, &Stamp { ms: 25_000 });
    assert_eq!(k.map(|k| k.len()), Some(0));
    let k = ad.find_slice("A", &Intv::Min1, &Stamp { ms: 24_000 }, &Stamp { ms: 35_999 });
    assert_eq!(k.map(|k| k.len()), Some(0));
    let k = ad.find_slice_index("A", &Intv::Min1, 2, 4).expect("loaded");
    assert_eq!(k.len(), 2);
    assert_eq!(k[0].1, 2.0);
}

#[test]
fn loaded_assets_come_and_go() {
    let mut ad = loaded("A", 0, 2);
    assert!(!ad.add_loaded("A", Klines::new_empty()));
    assert_eq!(ad.load_all("B", Klines::new_empty()), Err(Missing::Asset));
    assert_eq!(ad.load_all("A", Klines::new_empty()), Ok(()));
    assert_eq!(ad.load_full_intv("A", &Intv::Min1).map(|k| k.len()), Err(Missing::Interval));
    ad.replace_loaded("B", Klines::new_empty());
    assert_eq!(ad.show_all_loaded(), vec!["A", "B"]);
    assert_eq!(ad.debug(), "Available Hashmaps: \n  Kline Data id:7 (size):2\n");
    ad.unload("A");
    ad.unload("B");
    assert_eq!(ad.debug(), "Available Hashmaps: \n  Kline Data id:7 :EMPTY \n");
}

#[test]
fn a_key_map_keeps_the_last_value() {
    let mut m: KeyMap<String, u32> = KeyMap::new();
    assert!(m.is_empty());
    assert_eq!(m.insert("a".to_string(), 1), None);
    assert_eq!(m.insert("b".to_string(), 2), None);
    assert_eq!(m.insert("a".to_string(), 3), Some(1));
    assert_eq!(m.len(), 2);
    assert_eq!(m.find("a"), Some(&3));
    assert!(m.holds("b") && !m.holds("c"));
    if let Some(v) = m.get_mut(&"b".to_string()) {
        *v = 9;
    }
    let copy = m.duplicate();
    assert_eq!(m.remove(&"b".to_string()), Some(9));
    assert_eq!(m.remove(&"b".to_string()), None);
    assert!(!m.contains(&"b".to_string()));
    assert_eq!(copy.entry(1), &("b".to_string(), 9));
    m.clear();
    assert_eq!(m.len(), 0);
}
