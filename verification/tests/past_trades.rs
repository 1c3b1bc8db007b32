use bintrade_egui::data::{AssetData, Kline, Klines, Wick};
use bintrade_egui::intv::Intv;
use bintrade_egui::time::Stamp;
use bintrade_egui::trade::{
    eval_basic_condition, eval_limit, eval_order_basic, eval_stop, exec_order, hist_eval_kline,
    HistTrade, LimitStatus, Order, OrderCondition, Quant, StopStatus, TradeRecord,
};

type O = Order<f64, f32>;

fn limit(buy: bool, price: f64) -> O {
    Order::Limit { buy, quant: Quant::Q100, price, limit_status: LimitStatus::Untouched }
}

fn stop_limit(buy: bool, price: f64, stop_price: f32) -> O {
    Order::StopLimit {
        buy,
        quant: Quant::Q100,
        price,
        limit_status: LimitStatus::Untouched,
        stop_price,
        stop_status: StopStatus::Untouched,
    }
}

fn stop_market(buy: bool, price: f64) -> O {
    Order::StopMarket { buy, quant: Quant::Q100, price, stop_status: StopStatus::Untouched }
}

#[test]
fn parts_are_numbers() {
    let parts: Vec<f64> =
        [Quant::Q100, Quant::Q75, Quant::Q50, Quant::Q25].iter().map(|q| q.get_f64()).collect();
    assert_eq!(parts, vec![1.0, 0.75, 0.5, 0.25]);
    assert_eq!(Quant::from_f64(0.3).get_f64(), 0.3);
}

#[test]
fn orders_tell_what_they_are() {
    let m: O = Order::Market { buy: true, quant: Quant::Q50 };
    assert!(m.get_side());
    assert_eq!(m.get_side_str(), "BUY");
    assert_eq!(m.get_qnt(), 0.5);
    assert_eq!(m.get_price(), 0.0);
    assert_eq!(m.to_str(), "Market");
    let s = stop_limit(false, 120.0, 1.1);
    assert_eq!(s.get_side_str(), "SELL");
    assert_eq!(s.get_price(), 120.0);
    assert_eq!(s.to_str(), "Stop Limit");
    assert_eq!(limit(true, 3.0).to_str(), "Limit");
    assert_eq!(stop_market(true, 3.0).to_str(), "Stop Market");
    assert_eq!(O::default().to_str(), "");
    assert_eq!(LimitStatus::<f32>::default(), LimitStatus::Untouched);
    assert_eq!(StopStatus::default(), StopStatus::Untouched);
}

#[test]
fn a_trade_costs_the_fee() {
    assert_eq!(exec_order(0.0, 1000.0, 10.0, 1.0, true, 0.0), (100.0, 0.0));
    assert_eq!(exec_order(100.0, 0.0, 10.0, 1.0, false, 0.0), (0.0, 1000.0));
    let (a1, a2) = exec_order(0.0, 1000.0, 10.0, 0.5, true, 0.0015);
    assert_eq!(a1, 100.0 * 0.5 * (1.0 - 0.0015));
    assert_eq!(a2, a1 * 10.0 * 0.5);
}

#[test]
fn a_stop_is_hit_from_both_sides() {
    assert_eq!(eval_stop(10.0, 12.0, 11.0, 11.0, 9.0), Some(9.0));
    assert_eq!(eval_stop(10.0, 12.0, 11.0, 11.0, 10.5), None);
    assert_eq!(eval_stop(10.0, 12.0, 10.0, 11.0, 9.0), Some(10.0));
    assert_eq!(eval_stop(10.0, 12.0, 9.5, 11.0, 9.0), Some(12.0));
    assert_eq!(eval_stop(10.0, 9.9, 9.5, 9.6, 9.0), None);
}

#[test]
fn a_limit_is_hit_on_its_own_side() {
    assert_eq!(eval_limit(10.0, 12.0, 11.0, 11.0, 9.0, true, 1), Some(10.0));
    assert_eq!(eval_limit(8.0, 12.0, 11.0, 11.0, 9.0, true, 1), None);
    assert_eq!(eval_limit(12.0, 12.0, 11.0, 11.0, 9.0, false, 1), Some(12.0));
    assert_eq!(eval_limit(13.0, 12.0, 11.0, 11.0, 9.0, false, 1), None);
}

#[test]
fn orders_against_one_candle() {
    let fee = 0.0015;
    let (h, o, c, l) = (120.0, 100.0, 110.0, 90.0);
    let market: O = Order::Market { buy: true, quant: Quant::Q100 };
    assert_eq!(
        eval_order_basic(h, o, c, l, 0.0, 1000.0, market),
        Some((OrderCondition::Filled, 10.0 * (1.0 - fee), 0.0, 100.0))
    );
    // a limit order trades at its own price
    assert_eq!(
        eval_order_basic(h, o, c, l, 0.0, 1000.0, limit(true, 95.0)),
        Some((OrderCondition::Filled, (1000.0 / 95.0) * 1.0 * (1.0 - fee), 0.0, 100.0))
    );
    assert_eq!(eval_order_basic(h, o, c, l, 0.0, 1000.0, limit(true, 80.0)), None);
    // the stop of a stop limit is a factor of its price
    assert_eq!(eval_order_basic(h, o, c, l, 0.0, 1000.0, stop_limit(true, 80.0, 2.0)), None);
    let hit = eval_order_basic(h, o, c, l, 0.0, 1000.0, stop_limit(true, 80.0, 1.25));
    assert_eq!(hit, Some((OrderCondition::StopTriggered, 10.0 * (1.0 - fee), 0.0, 100.0)));
    let both = eval_order_basic(h, o, c, l, 0.0, 1000.0, stop_limit(true, 100.0, 1.0));
    assert_eq!(both.map(|r| r.0), Some(OrderCondition::Filled));
    // a stop market trades at the price that ran into its stop
    assert_eq!(
        eval_order_basic(h, o, c, l, 10.0, 0.0, stop_market(false, 95.0)),
        Some((OrderCondition::Filled, 0.0, 900.0 * (1.0 - fee), 100.0))
    );
}

#[test]
fn a_triggered_stop_limit_is_a_limit() {
    let (condition, order) =
        eval_basic_condition(OrderCondition::StopTriggered, stop_limit(false, 120.0, 1.1));
    assert_eq!(condition, OrderCondition::Untouched);
    assert_eq!(order, limit(false, 120.0));
    let (condition, order) = eval_basic_condition(OrderCondition::Filled, stop_limit(false, 1.0, 1.1));
    assert_eq!(condition, OrderCondition::Filled);
    assert_eq!(order, stop_limit(false, 1.0, 1.1));
    assert_eq!(
        eval_basic_condition(OrderCondition::Untouched, limit(true, 2.0)),
        (OrderCondition::Untouched, limit(true, 2.0))
    );
}

fn candle(ms: i64, o: f64, h: f64, l: f64) -> Wick<f64> {
    (Stamp { ms }, o, h, l, o, 1.0)
}

#[test]
fn a_run_ends_at_the_first_fill() {
    let k = [
        candle(1, 100.0, 101.0, 99.0),
        candle(2, 99.0, 99.5, 89.0),
        candle(3, 90.0, 95.0, 80.0),
    ];
    let r = hist_eval_kline(&k, limit(true, 90.0), 0.0, 900.0).expect("the second candle fills it");
    assert_eq!(r.0, Stamp { ms: 2 });
    assert_eq!(r.1, 10.0 * 1.0 * (1.0 - 0.0015));
    assert_eq!(r.3, limit(true, 90.0));
    assert!(hist_eval_kline(&k, limit(true, 70.0), 0.0, 900.0).is_none());
    assert!(hist_eval_kline(&k[..0], limit(true, 90.0), 0.0, 900.0).is_none());
}

fn quarter_hours() -> AssetData<f64> {
    let k: Vec<Wick<f64>> = (0..4)
        .map(|i| candle(i * 900_000, 100.0 - 10.0 * i as f64, 101.0 - 10.0 * i as f64, 95.0 - 10.0 * i as f64))
        .collect();
    let mut klines = Klines::new_empty();
    klines.insert(&Intv::Min15, Kline::new_sql(k));
    let mut ad = AssetData::new(0);
    ad.replace_loaded("BTCUSDT", klines);
    ad
}

#[test]
fn trading_forward_records_what_was_held() {
    let ad = quarter_hours();
    let mut t: HistTrade<f64, f32> = HistTrade::new();
    assert_eq!((t.asset1, t.asset2), (10_000.0, 0.0));
    t.trade_forward(&ad, 3);
    assert!(t.trade_record.is_empty());
    t.place_order(&Order::Market { buy: false, quant: Quant::Q100 });
    t.trade_forward(&ad, 3);
    assert_eq!(t.asset1, 0.0);
    assert_eq!(t.asset2, 1_000_000.0 * 1.0 * (1.0 - 0.0015));
    assert_eq!(
        t.trade_record,
        vec![TradeRecord { asset1: 10_000.0, ..TradeRecord::new() }]
    );
    t.place_order(&limit(false, 1000.0));
    t.trade_forward(&ad, 3);
    assert_eq!(t.trade_record.len(), 1);
    assert_eq!(t.current_order, Some(limit(false, 1000.0)));
}

#[test]
fn change_counts_from_the_second_trade_on() {
    let mut t: HistTrade<f64, f32> = HistTrade::start("ETHUSDT".to_string(), 5);
    assert_eq!(t.asset_pair, "ETHUSDT");
    assert_eq!(t.start_time, 5);
    t.last_asset2 = 100.0;
    t.asset2 = 150.0;
    t.calculate_change();
    assert_eq!((t.trades_made, t.ch2, t.last_asset2), (1, 0.0, 100.0));
    t.calculate_change();
    assert_eq!((t.trades_made, t.ch2, t.last_asset2), (2, 50.0, 150.0));
    t.asset1_held = true;
    t.asset1 = 0.0;
    t.calculate_change();
    assert_eq!((t.trades_made, t.ch2), (3, 50.0));
    t.asset1 = 3.0;
    t.last_asset1 = 4.0;
    t.calculate_change();
    assert_eq!((t.ch2, t.last_asset1), (-25.0, 3.0));
}

#[test]
fn trading_everything_and_back() {
    assert_eq!(exec_order(7.0, 1000.0, 10.0, 1.0, true, 0.5), (50.0, 0.0));
    assert_eq!(exec_order(100.0, 7.0, 10.0, 1.0, false, 0.5), (0.0, 500.0));
    let (a1, a2) = exec_order(3u64, 1000, 10, 1, true, 0);
    assert_eq!(exec_order(a1, a2, 10, 1, false, 0), (0, 1000));
}

#[test]
fn candles_out_of_order_are_sliced_too() {
    let k: Vec<Wick<f64>> = [9i64, 2, 1]
        .iter()
        .map(|m| (Stamp { ms: m * 60_000 }, 1.0, 1.0, 1.0, 1.0, *m as f64))
        .collect();
    let mut klines = Klines::new_empty();
    klines.insert(&Intv::Min1, Kline::new_sql(k));
    let mut ad: AssetData<f64> = AssetData::new(0);
    ad.replace_loaded("A", klines);
    let slice = ad.find_slice_n("A", &Intv::Min1, &5, 2).expect("loaded");
    assert_eq!(slice.iter().map(|w| w.5).collect::<Vec<f64>>(), vec![2.0, 1.0]);
}
