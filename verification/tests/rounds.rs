use bintrade_egui::data::Wick;
use bintrade_egui::hotkeys::Presses;
use bintrade_egui::live::{KeysStatus, LiveInfo};
use bintrade_egui::manual::{Entry, ManualOrders};
use bintrade_egui::plot::OrderLine;
use bintrade_egui::rounds::Input;
use bintrade_egui::settings::{Button, KeysError, Settings};
use bintrade_egui::time::Stamp;
use bintrade_egui::trade::{BasicOrderType, HistTrade, LimitStatus, Order, Quant};
use bintrade_egui::{BinInstructs, ClientInstruct};

type O = Order<f64, f32>;

fn read(s: &str) -> Option<f64> {
    s.parse().ok()
}

fn read_short(s: &str) -> Option<f32> {
    s.parse().ok()
}

fn long(n: i64) -> f64 {
    n as f64
}

fn short(n: i64) -> f32 {
    n as f32
}

fn narrow(x: f64) -> f32 {
    x as f32
}

fn abs(x: f64) -> f64 {
    x.abs()
}

fn limit(buy: bool, price: f64) -> O {
    Order::Limit { buy, quant: Quant::Q100, price, limit_status: LimitStatus::Untouched }
}

fn presses() -> Presses {
    Presses {
        activate: false,
        delete: false,
        market: false,
        limit: false,
        stop_limit: false,
        stop_market: false,
        up: false,
        stop_up: false,
        down: false,
        stop_down: false,
    }
}

fn input() -> Input<f64> {
    Input {
        entry: Entry {
            single_order_mode: false,
            quant_selector: Quant::Q100,
            scalar: None,
            buy: true,
            kind: None,
            price_string: "0.0".to_string(),
            stop_price_string: "0.0".to_string(),
            add: false,
            cancel_all: false,
            cancel: None,
        },
        presses: presses(),
        sell_now: false,
        last_price: 100.0,
    }
}

fn info() -> LiveInfo<f64, f32> {
    let mut info: LiveInfo<f64, f32> = LiveInfo::new();
    info.live_asset_symbol_changed = (false, "ETHUSDT".to_string());
    info.current_pair_strings = ("ETH".to_string(), "USDT".to_string());
    info.current_pair_free_balances = (2.0, 30.0);
    info.current_pair_locked_balances = (1.0, 4.0);
    info.live_orders.insert(5, (limit(true, 90.0), true));
    info
}

#[test]
fn a_live_round_draws_pairs_and_enters() {
    let mut m: ManualOrders<f64, f32> = ManualOrders::new();
    m.orders.insert(1, (limit(false, 120.0), true));
    let mut lines: Vec<OrderLine<f64>> = vec![];
    let mut typed = input();
    typed.entry.kind = Some(BasicOrderType::Limit);
    typed.entry.price_string = "80".to_string();
    typed.entry.add = true;
    let sent =
        m.show_live(&info(), &mut lines, &typed, &read, &read_short, &long, &short, &narrow);
    // the lines are those of the orders before the round
    assert_eq!(lines.iter().map(|l| l.price).collect::<Vec<f64>>(), vec![120.0]);
    assert_eq!((m.asset1_name.as_str(), m.asset2_name.as_str()), ("ETH", "USDT"));
    assert_eq!((m.purse.asset1, m.purse.asset2_locked), (2.0, 4.0));
    assert_eq!(sent.len(), 1);
    match &sent[0] {
        ClientInstruct::SendBinInstructs(BinInstructs::PlaceOrder { symbol, o }) => {
            assert_eq!(symbol, "ETHUSDT");
            assert_eq!(*o, limit(true, 80.0));
        }
        _ => panic!("no order was placed"),
    }
    assert_eq!(m.orders.get(&5), Some(&(limit(true, 90.0), true)));
    let _ = m.show_live(&info(), &mut lines, &input(), &read, &read_short, &long, &short, &narrow);
    assert_eq!(lines.iter().map(|l| l.price).collect::<Vec<f64>>(), vec![90.0]);
}

#[test]
fn in_single_order_mode_the_hotkeys_count() {
    let mut m: ManualOrders<f64, f32> = ManualOrders::new();
    m.single_order_mode = true;
    m.enter_single_mode();
    let mut lines: Vec<OrderLine<f64>> = vec![];
    let mut h: HistTrade<f64, f32> = HistTrade::new();
    let mut pressed = input();
    pressed.entry.add = true;
    pressed.presses.limit = true;
    let sent = m.show_hist(
        &mut h, &[], None, &mut lines, &pressed, &abs, &read, &read_short, &long, &short, &narrow,
    );
    assert!(sent.is_empty() && m.orders.is_empty());
    let sent = m.show_hist(
        &mut h, &[], None, &mut lines, &input(), &abs, &read, &read_short, &long, &short, &narrow,
    );
    assert!(sent.is_empty());
    // ten thousand of the first asset are held, so that the order sells
    assert_eq!(m.orders.get(&0), Some(&(limit(false, 100.0), false)));
    // on the exchange a press of the hotkey sells at once
    let mut sell = input();
    sell.sell_now = true;
    let sent = m.show_live(&info(), &mut lines, &sell, &read, &read_short, &long, &short, &narrow);
    assert_eq!(sent.len(), 2);
}

#[test]
fn a_round_over_the_past_runs_draws_and_enters() {
    let k: Vec<Wick<f64>> = vec![(Stamp { ms: 60_000 }, 100.0, 110.0, 85.0, 100.0, 1.0)];
    let names = ("BTCUSDT".to_string(), "BTC".to_string(), "USDT".to_string());
    let mut h: HistTrade<f64, f32> = HistTrade::new();
    h.asset1 = 0.0;
    h.asset2 = 900.0;
    let mut m: ManualOrders<f64, f32> = ManualOrders::new();
    m.orders.insert(1, (limit(true, 90.0), true));
    m.orders.insert(2, (limit(false, 500.0), true));
    let mut lines: Vec<OrderLine<f64>> = vec![];
    let sent = m.show_hist(
        &mut h,
        &k,
        Some(&names),
        &mut lines,
        &input(),
        &abs,
        &read,
        &read_short,
        &long,
        &short,
        &narrow,
    );
    assert!(sent.is_empty());
    assert_eq!(h.trade_record.len(), 1);
    // the lines are those of the orders that the run left
    assert_eq!(lines.iter().map(|l| l.price).collect::<Vec<f64>>(), vec![500.0]);
    assert_eq!(m.current_symbol, "BTCUSDT");
    assert_eq!((m.purse.asset1, m.purse.asset1_locked), (0.0, h.asset1));
}

#[test]
fn a_round_of_the_settings() {
    let mut s: Settings<f64> = Settings::new();
    let mut told: LiveInfo<f64, f32> = LiveInfo::new();
    told.keys_status = KeysStatus::Valid;
    told.acc_balances.insert("ETH".to_string(), (1.0, 2.0));
    let r = s.show(&told, None);
    assert!(!r.write && matches!(r.sent, Ok(None)));
    assert_eq!(s.key_status, KeysStatus::Valid);
    assert_eq!(s.balances.find("ETH"), Some(&(1.0, 2.0)));

    s.api_key_enter_string = "a".to_string();
    s.priv_api_key_enter_string = "b".to_string();
    s.enc_api_keys = false;
    let r = s.show(&told, Some(Button::Save));
    assert!(r.write);
    assert!(matches!(
        r.sent,
        Ok(Some(ClientInstruct::SendBinInstructs(BinInstructs::AddReplaceApiKeys { .. })))
    ));
    assert_eq!(s.binance_pub_key.as_deref(), Some("a"));

    let r = s.show(&told, Some(Button::Unlock));
    assert!(!r.write && matches!(r.sent, Err(KeysError::NoPublicKey)));
    let r = s.show(&told, Some(Button::Refresh));
    assert!(matches!(
        r.sent,
        Ok(Some(ClientInstruct::SendBinInstructs(BinInstructs::GetAllBalances)))
    ));
    let r = s.show(&told, Some(Button::Remove));
    assert!(r.write && s.binance_pub_key.is_none());
    let mut kept: Settings<f64> = Settings::new();
    kept.default_asset = "ETHUSDT".to_string();
    let r = s.show(&told, Some(Button::Load(Some(kept))));
    assert!(!r.write && matches!(r.sent, Ok(None)));
    assert_eq!(s.default_asset, "ETHUSDT");
}
