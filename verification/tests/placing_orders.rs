use bintrade_egui::hotkeys::{Held, HotKey, Market, Press, Presses, Shaped};
use bintrade_egui::keymap::KeyMap;
use bintrade_egui::live::LiveInfo;
use bintrade_egui::data::Wick;
use bintrade_egui::manual::{select_orders, Choice, Entry, ManualOrders, Purse};
use bintrade_egui::message::{BinInstructs, ClientInstruct};
use bintrade_egui::orders::{
    from_binance_order, parse_order_to_ba, parse_to_binance, put_orders, to_6fig, BinanceOrder,
    LiveOrders, OrderSide, OrderType, PairBalance, TimeInForce, UnsupportedOrder,
};
use bintrade_egui::single::{Round, SingleOrderMode};
use bintrade_egui::time::Stamp;
use bintrade_egui::trade::{BasicOrderType, HistTrade, LimitStatus, Order, Quant, StopStatus};

type O = Order<f64, f32>;

fn trunc(x: f64) -> f64 {
    x.trunc()
}

fn trunc_short(x: f32) -> f32 {
    x.trunc()
}

fn narrow(x: f64) -> f32 {
    x as f32
}

fn long(n: i64) -> f64 {
    n as f64
}

fn short(n: i64) -> f32 {
    n as f32
}

fn read(s: &str) -> Option<f64> {
    s.parse().ok()
}

fn read_short(s: &str) -> Option<f32> {
    s.parse().ok()
}

fn limit(buy: bool, price: f64) -> O {
    Order::Limit { buy, quant: Quant::Q100, price, limit_status: LimitStatus::Untouched }
}

fn sent(v: &Vec<ClientInstruct<f64, f32>>) -> Vec<String> {
    v.iter()
        .map(|i| match i {
            ClientInstruct::SendBinInstructs(b) => b.to_str().to_string(),
            other => other.to_str().to_string(),
        })
        .collect()
}

#[test]
fn amounts_are_cut_behind_the_fifth_decimal() {
    assert_eq!(to_6fig(1.23456789, &trunc), 1.23456);
    assert_eq!(to_6fig(-1.23456789, &trunc), -1.23456);
    assert_eq!(to_6fig(0.000001, &trunc), 0.0);
    assert_eq!(to_6fig(2.5f32, &trunc_short), 2.5);
}

#[test]
fn requests_for_each_kind_of_order() {
    let sym = "BTCUSDT".to_string();
    let buy: O = Order::Market { buy: true, quant: Quant::Q50 };
    let r = parse_to_binance(&sym, &buy, 100.1234567, 2.0, &trunc, &trunc_short);
    assert_eq!((r.symbol.as_str(), r.side, r.order_type), ("BTCUSDT", OrderSide::Buy, OrderType::Market));
    assert_eq!((r.quantity, r.quote_order_qty, r.price, r.stop_price), (None, Some(50.06172), None, None));
    assert_eq!(r.time_in_force, None);

    let sell: O = Order::Market { buy: false, quant: Quant::Q50 };
    let r = parse_to_binance(&sym, &sell, 100.0, 1.23456789, &trunc, &trunc_short);
    assert_eq!((r.side, r.quantity, r.quote_order_qty), (OrderSide::Sell, Some(0.617283945), None));

    let r = parse_to_binance(&sym, &limit(true, 30.0), 100.0, 2.0, &trunc, &trunc_short);
    assert_eq!((r.order_type, r.quantity, r.price), (OrderType::Limit, Some(3.33333), Some(30.0)));
    assert_eq!(r.time_in_force, Some(TimeInForce::GTC));

    let o: O = Order::StopLimit {
        buy: false,
        quant: Quant::Q25,
        price: 30.1234567,
        limit_status: LimitStatus::Untouched,
        stop_price: 1.5,
        stop_status: StopStatus::Untouched,
    };
    let r = parse_to_binance(&sym, &o, 100.0, 2.0, &trunc, &trunc_short);
    assert_eq!((r.order_type, r.quantity), (OrderType::StopLossLimit, Some(0.5)));
    assert_eq!((r.price, r.stop_price), (Some(30.12345), Some(1.5)));
    assert_eq!(r.time_in_force, Some(TimeInForce::GTC));

    let o: O = Order::StopMarket {
        buy: true,
        quant: Quant::Q100,
        price: 40.0,
        stop_status: StopStatus::Untouched,
    };
    let r = parse_to_binance(&sym, &o, 100.0, 2.0, &trunc, &trunc_short);
    assert_eq!((r.order_type, r.quantity), (OrderType::StopLoss, Some(2.5)));
    assert_eq!((r.price, r.stop_price, r.time_in_force), (None, Some(40.0), None));
    assert_eq!(parse_order_to_ba(&o), (OrderType::StopLoss, OrderSide::Buy, 40.0, 0.0, 1.0));
    assert_eq!(parse_order_to_ba(&buy), (OrderType::Market, OrderSide::Buy, 0.0, 0.0, 0.5));
}

fn open_order(order_type: OrderType, side: OrderSide) -> BinanceOrder<f64> {
    BinanceOrder {
        order_id: 17,
        side,
        order_type,
        traded: false,
        orig_qty: 2.0,
        executed_qty: 0.0,
        price: 50.0,
        stop_price: 40.0,
    }
}

const BALANCE: PairBalance<f64> = PairBalance { locked_a1: 1.0, locked_a2: 150.0, free_a1: 3.0, free_a2: 50.0 };

#[test]
fn open_orders_become_orders() {
    let q = |q: f64| Quant::Q { q };
    assert_eq!(
        from_binance_order(&open_order(OrderType::Limit, OrderSide::Buy), &BALANCE, &narrow),
        Ok(Order::Limit { buy: true, quant: q(0.5), price: 50.0, limit_status: LimitStatus::Untouched })
    );
    let half = BinanceOrder { executed_qty: 1.0, ..open_order(OrderType::Limit, OrderSide::Sell) };
    assert_eq!(
        from_binance_order(&half, &BALANCE, &narrow),
        Ok(Order::Limit {
            buy: false,
            quant: q(0.5),
            price: 50.0,
            limit_status: LimitStatus::PartFilled { percent_fill: 2.0 },
        })
    );
    let over = BinanceOrder { executed_qty: 3.0, ..open_order(OrderType::StopLossLimit, OrderSide::Sell) };
    assert_eq!(
        from_binance_order(&BinanceOrder { traded: true, ..over }, &BALANCE, &narrow),
        Ok(Order::StopLimit {
            buy: false,
            quant: q(0.5),
            price: 50.0,
            limit_status: LimitStatus::FullyFilled,
            stop_price: 40.0,
            stop_status: StopStatus::Triggered,
        })
    );
    assert_eq!(
        from_binance_order(&open_order(OrderType::StopLoss, OrderSide::Buy), &BALANCE, &narrow),
        Ok(Order::StopMarket { buy: true, quant: q(0.4), price: 40.0, stop_status: StopStatus::Untouched })
    );
    let none: Result<O, UnsupportedOrder> =
        from_binance_order(&open_order(OrderType::Other, OrderSide::Buy), &BALANCE, &narrow);
    assert_eq!(none, Err(UnsupportedOrder));
    assert_eq!(UnsupportedOrder.to_str(), "Unsupporder order type from Binance!");
}

#[test]
fn a_placed_order_comes_back() {
    for (o, ty) in [
        (limit(true, 50.0), OrderType::Limit),
        (Order::Market { buy: false, quant: Quant::Q100 }, OrderType::Market),
    ] {
        let r = parse_to_binance(&"A".to_string(), &o, 10.0, 10.0, &trunc, &trunc_short);
        assert_eq!(r.order_type, ty);
        let back: O = from_binance_order(&open_order(r.order_type, r.side), &BALANCE, &narrow).expect("known");
        assert_eq!(back.get_side(), o.get_side());
        assert_eq!(back.to_str(), o.to_str());
    }
}

#[test]
fn open_orders_stand_under_their_number() {
    let mut live: LiveOrders<f64, f32> = KeyMap::new();
    let orders = vec![
        open_order(OrderType::Limit, OrderSide::Buy),
        open_order(OrderType::Other, OrderSide::Buy),
        BinanceOrder { order_id: 18, ..open_order(OrderType::Market, OrderSide::Sell) },
    ];
    put_orders(&mut live, &orders, &BALANCE, &narrow);
    assert_eq!(live.len(), 2);
    assert_eq!(live.get(&17).map(|e| e.1), Some(true));
    assert_eq!(live.get(&18).map(|e| e.0.to_str()), Some("Market".to_string()));
}

const NONE: Presses = Presses {
    activate: false,
    delete: false,
    market: false,
    limit: false,
    stop_limit: false,
    stop_market: false,
    up: false,
    stop_up: false,
    down: false,
    stop_down: false,
};

fn shaped(order: O) -> Shaped<f64, f32> {
    Shaped {
        order,
        order_active: false,
        k0_n: 0,
        k1_n: 0,
        parse_ks: false,
        place_order: false,
        order_adjusted: false,
        delete_order: false,
        last_order_price: 100.0,
    }
}

const MARKET: Market<f64, f32> =
    Market { last_price: 100.0, asset1_held: false, order_active_after_change: false, k0_i: 0.25, k1_i: 0.5 };

fn press(s: Shaped<f64, f32>, k: Presses) -> Shaped<f64, f32> {
    s.hotkey_order_single(k, &MARKET, &long, &short, &narrow)
}

#[test]
fn hotkeys_make_orders() {
    let s = press(shaped(Order::Nothing), Presses { limit: true, ..NONE });
    assert_eq!(s.order, limit(true, 100.0));
    assert!(s.place_order && s.parse_ks);
    let s = press(shaped(Order::Nothing), Presses { stop_limit: true, ..NONE });
    assert_eq!(
        s.order,
        Order::StopLimit {
            buy: true,
            quant: Quant::Q100,
            price: 100.0,
            limit_status: LimitStatus::Untouched,
            stop_price: 100.0f32 * 1.005,
            stop_status: StopStatus::Untouched,
        }
    );
    let s = press(shaped(Order::Nothing), Presses { market: true, ..NONE });
    assert_eq!(s.order, Order::Market { buy: true, quant: Quant::Q100 });
    let s = press(shaped(Order::Nothing), Presses { stop_market: true, ..NONE });
    assert_eq!(s.order.to_str(), "Stop Market");
}

#[test]
fn hotkeys_move_the_price() {
    let start = shaped(limit(true, 100.0));
    let up = press(start, Presses { up: true, ..NONE });
    assert_eq!((up.order, up.k0_n), (limit(true, 125.0), 1));
    assert!(up.order_adjusted);
    let back = press(up, Presses { down: true, ..NONE });
    assert_eq!((back.order, back.k0_n), (limit(true, 100.0), 0));
    let down = press(back, Presses { down: true, ..NONE });
    assert_eq!(down.order, limit(true, 75.0));
}

#[test]
fn no_press_keeps_the_order() {
    let start = shaped(limit(true, 90.0));
    let s = press(start, NONE);
    assert_eq!((s.order, s.k0_n, s.k1_n, s.place_order), (limit(true, 90.0), 0, 0, false));
    let all = Presses { activate: true, delete: true, market: true, up: true, ..NONE };
    assert_eq!(all.counted(false), NONE);
    assert_eq!(all.counted(true), all);
}

fn round(hist: bool, presses: Presses) -> Round<f64> {
    Round { last_price: 100.0, asset1: 0.0, asset2: 1000.0, hist_trade: hist, presses, sell_now: false }
}

#[test]
fn single_order_mode_over_the_past_sends_nothing() {
    let mut m: SingleOrderMode<f64, f32> = SingleOrderMode::new();
    let mut orders: LiveOrders<f64, f32> = KeyMap::new();
    let sym = "BTCUSDT".to_string();
    m.hk_active = true;
    for presses in [
        Presses { limit: true, ..NONE },
        Presses { up: true, ..NONE },
        Presses { activate: true, ..NONE },
        NONE,
    ] {
        let v = m.show(&mut orders, &sym, &round(true, presses), &read_short, &long, &short, &narrow);
        assert!(v.is_empty());
    }
    assert_eq!(orders.len(), 1);
    assert_eq!(orders.entry(0).1 .0.to_str(), "Limit");
}

#[test]
fn single_order_mode_live_keeps_the_orders() {
    let mut m: SingleOrderMode<f64, f32> = SingleOrderMode::new();
    let mut orders: LiveOrders<f64, f32> = KeyMap::new();
    orders.insert(5, (limit(true, 1.0), true));
    let sym = "BTCUSDT".to_string();
    m.hk_active = true;
    let steps = [
        Presses { limit: true, ..NONE },
        Presses { activate: true, ..NONE },
        NONE,
        Presses { delete: true, ..NONE },
        NONE,
    ];
    let mut said: Vec<String> = Vec::new();
    for presses in steps {
        let v = m.show(&mut orders, &sym, &round(false, presses), &read_short, &long, &short, &narrow);
        said.extend(sent(&v));
    }
    assert_eq!(orders.len(), 1);
    assert!(!said.is_empty());
    // while the hotkeys are off, nothing is sold
    m.hk_active = false;
    let held = Round { asset1: 5.0, asset2: 1.0, sell_now: true, ..round(false, NONE) };
    let _ = m.show(&mut orders, &sym, &held, &read_short, &long, &short, &narrow);
    let v = m.show(&mut orders, &sym, &held, &read_short, &long, &short, &narrow);
    assert!(v.is_empty());
    m.hk_active = true;
    // everything held is sold at once
    let v = m.show(
        &mut orders,
        &sym,
        &Round { asset1: 5.0, asset2: 1.0, sell_now: true, ..round(false, NONE) },
        &read_short,
        &long,
        &short,
        &narrow,
    );
    let all = sent(&v);
    assert_eq!(all.len() >= 2, true);
    match &v[v.len() - 1] {
        ClientInstruct::SendBinInstructs(BinInstructs::PlaceOrder { symbol, o }) => {
            assert_eq!(symbol, "BTCUSDT");
            assert_eq!(*o, Order::Market { buy: false, quant: Quant::Q100 });
        }
        other => panic!("{:?}", other),
    }
}

#[test]
fn a_step_that_is_no_number_is_zero() {
    let mut m: SingleOrderMode<f64, f32> = SingleOrderMode::new();
    let mut orders: LiveOrders<f64, f32> = KeyMap::new();
    let sym = "A".to_string();
    m.shaped.parse_ks = true;
    m.k0_intv_s = "x".to_string();
    m.k1_intv_s = "0.25".to_string();
    let _ = m.show(&mut orders, &sym, &round(true, NONE), &read_short, &long, &short, &narrow);
    assert_eq!((m.k0_intv_s.as_str(), m.k0_i), ("0.0", 0.0));
    assert_eq!((m.k1_intv_s.as_str(), m.k1_i), ("0.25", 0.25));
}

#[test]
fn the_part_is_chosen_by_name_or_percentage() {
    let start =
        Choice { quant: Quant::Q100, quant_selector: Quant::Q100, last_quant: Quant::Q100, scalar: 100.0 };
    let named = Choice { quant_selector: Quant::Q25, ..start }.choose_part();
    assert_eq!((named.quant, named.scalar), (Quant::Q25, 25.0));
    let percent = Choice { scalar: 50.0, ..start }.choose_part();
    assert_eq!((percent.quant, percent.quant_selector), (Quant::Q50, Quant::Q50));
    let odd = Choice { scalar: 33.0, ..start }.choose_part();
    assert_eq!(odd.quant, Quant::Q { q: 33.0 });
    let zero = Choice { scalar: 0.0, ..start }.choose_part();
    assert_eq!(zero.quant, Quant::Q100);
}

#[test]
fn orders_over_the_past_set_amounts_aside() {
    let purse = Purse { asset1: 4.0, asset2: 100.0, asset1_locked: 0.0, asset2_locked: 0.0 };
    let o: O = Order::Limit { buy: true, quant: Quant::Q25, price: 5.0, limit_status: LimitStatus::Untouched };
    let taken = purse.hist_validate_order(&o).expect("it can be taken");
    assert_eq!((taken.asset1, taken.asset2), (0.0, 75.0));
    assert_eq!((taken.asset1_locked, taken.asset2_locked), (4.0, 25.0));
    let freed = taken.hist_del_order(&o);
    assert_eq!((freed.asset1, freed.asset2), (4.0, 81.25));
    assert_eq!((freed.asset1_locked, freed.asset2_locked), (0.0, 18.75));
    // a market order has no price, one without money is not taken
    let market: O = Order::Market { buy: true, quant: Quant::Q25 };
    assert!(purse.hist_validate_order(&market).is_none());
    assert!(Purse { asset2: 0.0, ..purse }.hist_validate_order(&o).is_none());
}

#[test]
fn adding_and_canceling_over_the_past() {
    let mut m: ManualOrders<f64, f32> = ManualOrders::new();
    m.sync_past(4.0, 100.0, Some(&("BTCUSDT".to_string(), "BTC".to_string(), "USDT".to_string())));
    assert_eq!(m.current_symbol, "BTCUSDT");
    m.new_order = limit(true, 0.0);
    m.price_string = "5".to_string();
    m.stop_price_string = "nothing".to_string();
    assert!(m.on_add(None, &read, &narrow).is_none());
    assert_eq!(m.stop_price_string, "0.0");
    assert_eq!(m.orders.get(&1), Some(&(limit(true, 5.0), true)));
    assert!(m.order_set);
    let rows = m.rows();
    assert_eq!((rows[0].id, rows[0].percent, rows[0].price), (1, 100.0, 5.0));
    assert_eq!((rows[0].kind.as_str(), rows[0].side.as_str()), ("Limit", "BUY"));
    assert!(m.on_cancel(2, false).is_none());
    assert_eq!(m.orders.len(), 1);
    assert!(m.on_cancel(1, false).is_none());
    assert_eq!(m.orders.len(), 0);
    assert!(!m.order_set);
    assert_eq!((m.purse.asset1, m.purse.asset2), (4.0, 100.0));
}

#[test]
fn adding_and_canceling_live() {
    let mut m: ManualOrders<f64, f32> = ManualOrders::new();
    let mut info: LiveInfo<f64, f32> = LiveInfo::new();
    info.live_orders.insert(3, (limit(false, 9.0), true));
    info.live_asset_symbol_changed = (false, "ETHUSDT".to_string());
    info.current_pair_strings = ("ETH".to_string(), "USDT".to_string());
    info.current_pair_free_balances = (1.0, 2.0);
    info.current_pair_locked_balances = (3.0, 4.0);
    m.sync_live(&info);
    m.sync_pair(&info);
    assert_eq!((m.purse.asset1, m.purse.asset2_locked), (1.0, 4.0));
    let sym = "ETHUSDT".to_string();
    match m.on_add(Some(&sym), &read, &narrow) {
        Some(ClientInstruct::SendBinInstructs(BinInstructs::PlaceOrder { symbol, o })) => {
            assert_eq!(symbol, "ETHUSDT");
            assert_eq!(o, Order::Market { buy: true, quant: Quant::Q100 });
        }
        other => panic!("{:?}", other),
    }
    match m.on_cancel(3, true) {
        Some(ClientInstruct::SendBinInstructs(BinInstructs::CancelOrder { id, symbol, o })) => {
            assert_eq!((id, symbol.as_str(), o), (3, "ETHUSDT", limit(false, 9.0)));
        }
        other => panic!("{:?}", other),
    }
    assert!(matches!(
        ManualOrders::<f64, f32>::on_cancel_all(Some(&sym)),
        Some(ClientInstruct::SendBinInstructs(BinInstructs::CancelAllOrders { .. }))
    ));
    assert!(ManualOrders::<f64, f32>::on_cancel_all(None).is_none());
}

#[test]
fn orders_run_once_over_a_slice() {
    let mut m: ManualOrders<f64, f32> = ManualOrders::new();
    m.orders.insert(1, (limit(true, 5.0), true));
    m.orders.insert(2, (limit(false, 6.0), false));
    let at = Stamp { ms: 60_000 };
    let run = m.orders_to_run(at).expect("a new slice");
    assert_eq!(run, vec![(1, limit(true, 5.0))]);
    assert_eq!(select_orders(&m.orders, false), vec![(2, limit(false, 6.0))]);
    m.after_run(&run, 8.0, 100.0, at, &|x: f64| x.abs());
    assert_eq!(m.orders.len(), 2);
    assert_eq!(m.orders.get(&1).map(|e| e.1), Some(true));
    assert_eq!((m.purse.asset1, m.purse.asset2), (8.0, 0.0));
    assert_eq!((m.purse.asset1_locked, m.purse.asset2_locked), (0.0, 100.0));
    assert!(m.orders_to_run(at).is_none());
    m.after_run(&Vec::new(), 8.0, 100.0, Stamp { ms: 120_000 }, &|x: f64| x.abs());
    assert_eq!(m.orders.len(), 1);
}

#[test]
fn the_order_is_remade_as_it_was_chosen() {
    let mut m: ManualOrders<f64, f32> = ManualOrders::new();
    m.new_order = Order::StopMarket {
        buy: true,
        quant: Quant::Q100,
        price: 0.0,
        stop_status: StopStatus::Triggered,
    };
    m.buy = false;
    m.price = 7.0;
    m.choice.quant_selector = Quant::Q75;
    m.choose_part();
    m.remake_order(&narrow);
    assert_eq!(
        m.order,
        Order::StopMarket { buy: false, quant: Quant::Q75, price: 7.0, stop_status: StopStatus::Untouched }
    );
    m.single_order_mode = true;
    m.enter_single_mode();
    assert!(m.so_mode.expect("the mode is there").hk_active);
}

fn entry() -> Entry<f64> {
    Entry {
        single_order_mode: false,
        quant_selector: Quant::Q100,
        scalar: None,
        buy: true,
        kind: None,
        price_string: "0.0".to_string(),
        stop_price_string: "0.0".to_string(),
        add: false,
        cancel_all: false,
        cancel: None,
    }
}

#[test]
fn a_round_over_the_past_sends_nothing() {
    let mut m: ManualOrders<f64, f32> = ManualOrders::new();
    m.sync_past(4.0, 100.0, None);
    let sent_all = m.show_multiorder(
        &Entry {
            quant_selector: Quant::Q50,
            kind: Some(BasicOrderType::Limit),
            price_string: "5".to_string(),
            add: true,
            cancel_all: true,
            ..entry()
        },
        None,
        &read,
        &narrow,
    );
    assert!(sent_all.is_empty());
    assert_eq!(m.choice.scalar, 50.0);
    let o = Order::Limit { buy: true, quant: Quant::Q50, price: 5.0, limit_status: LimitStatus::Untouched };
    assert_eq!(m.orders.get(&1), Some(&(o, true)));
    assert_eq!((m.purse.asset1, m.purse.asset2), (0.0, 50.0));
    let v = m.show_multiorder(
        &Entry { single_order_mode: true, quant_selector: m.choice.quant_selector, cancel: Some(1), ..entry() },
        None,
        &read,
        &narrow,
    );
    assert!(v.is_empty());
    assert_eq!(m.orders.len(), 0);
    assert!(m.single_order_mode);
    assert!(m.so_mode.as_ref().map(|s| s.hk_active).unwrap_or(false));
}

#[test]
fn a_live_round_shows_the_exchange() {
    let mut m: ManualOrders<f64, f32> = ManualOrders::new();
    let mut info: LiveInfo<f64, f32> = LiveInfo::new();
    info.live_orders.insert(3, (limit(false, 9.0), true));
    info.live_asset_symbol_changed = (false, "ETHUSDT".to_string());
    let v = m.show_multiorder(
        &Entry { add: true, cancel_all: true, cancel: Some(3), scalar: Some(20.0), ..entry() },
        Some(&info),
        &read,
        &narrow,
    );
    assert_eq!(
        sent(&v),
        vec!["BinInstruct: Place Order", "BinInstruct: Cancel All Orders", "Cancel and Orderreplace order"]
    );
    assert_eq!(m.orders.len(), 1);
    assert_eq!(m.current_symbol, "ETHUSDT");
    // the percentage counts from the next round on
    assert_eq!(m.choice.quant, Quant::Q100);
    let v = m.show_multiorder(&entry(), Some(&info), &read, &narrow);
    assert!(v.is_empty());
    assert_eq!(m.choice.quant, Quant::Q { q: 20.0 });
}

#[test]
fn single_order_mode_in_its_window() {
    let mut m: ManualOrders<f64, f32> = ManualOrders::new();
    m.single_order_mode = true;
    m.enter_single_mode();
    let r = round(true, Presses { limit: true, ..NONE });
    assert!(m.show_singleorder(&r, &read_short, &long, &short, &narrow).is_empty());
    assert!(m.show_singleorder(&round(true, NONE), &read_short, &long, &short, &narrow).is_empty());
    assert_eq!(m.orders.len(), 1);
    m.so_mode = None;
    assert!(m.show_singleorder(&r, &read_short, &long, &short, &narrow).is_empty());
}

fn candle(minute: i64, o: f64, h: f64, l: f64) -> Wick<f64> {
    (Stamp { ms: minute * 60_000 }, o, h, l, o, 1.0)
}

#[test]
fn orders_run_over_the_past() {
    let k = [candle(1, 100.0, 110.0, 95.0), candle(2, 100.0, 105.0, 89.0)];
    let mut h: HistTrade<f64, f32> = HistTrade::new();
    h.asset1 = 0.0;
    h.asset2 = 900.0;
    let mut m: ManualOrders<f64, f32> = ManualOrders::new();
    m.orders.insert(1, (limit(true, 90.0), true));
    m.orders.insert(2, (limit(false, 500.0), true));
    m.orders.insert(3, (limit(false, 1.0), false));
    m.show_past(&mut h, &k, None, &|x: f64| x.abs());
    // the first one is filled, the second one stays open, the third one is not active
    assert_eq!(h.trade_record.len(), 1);
    assert_eq!((h.trade_record[0].asset2, h.asset2), (900.0, 0.0));
    assert_eq!(h.asset1, 10.0 * 1.0 * (1.0 - 0.0015));
    assert_eq!(m.orders.len(), 2);
    assert_eq!(m.orders.get(&2).map(|e| e.1), Some(true));
    assert_eq!(m.orders.get(&3).map(|e| e.1), Some(false));
    assert_eq!((m.purse.asset1, m.purse.asset1_locked), (0.0, h.asset1));
    assert_eq!(m.last_slice_time, Stamp { ms: 120_000 });
    let before = h.asset1;
    m.show_past(&mut h, &k, None, &|x: f64| x.abs());
    m.show_past(&mut h, &[], None, &|x: f64| x.abs());
    assert_eq!((h.asset1, h.trade_record.len()), (before, 1));
    let rest = h.run_orders(&k, &vec![(7, limit(true, 1.0)), (8, limit(true, 2.0))]);
    assert_eq!(rest, vec![(7, limit(true, 1.0)), (8, limit(true, 2.0))]);
    assert_eq!((h.asset1, h.trade_record.len()), (before, 1));
}

#[test]
fn each_press_has_its_hotkey() {
    assert_eq!(Press::Up.hotkey(), (Held::Shift, HotKey::J));
    assert_eq!(Press::Down.hotkey(), (Held::Shift, HotKey::K));
    assert_eq!(Press::StopUp.hotkey(), (Held::Alt, HotKey::J));
    assert_eq!(Press::SellNow.hotkey(), (Held::Shift, HotKey::R));
    let all = [
        Press::Activate,
        Press::Delete,
        Press::Market,
        Press::Limit,
        Press::StopLimit,
        Press::StopMarket,
        Press::Up,
        Press::StopUp,
        Press::Down,
        Press::StopDown,
        Press::SellNow,
        Press::TradeForward,
    ];
    for a in all {
        for b in all {
            assert_eq!(a.hotkey() == b.hotkey(), a == b);
        }
    }
}

#[test]
fn placing_and_deleting_keep_the_amounts() {
    let purse: Purse<u64> = Purse { asset1: 8, asset2: 100, asset1_locked: 0, asset2_locked: 0 };
    let all: Order<u64, u32> = Order::Limit {
        buy: false,
        quant: Quant::Q100,
        price: 5,
        limit_status: LimitStatus::Untouched,
    };
    let placed = purse.hist_validate_order(&all).expect("taken");
    assert_eq!((placed.asset1 + placed.asset1_locked, placed.asset2 + placed.asset2_locked), (8, 100));
    // deleting an order over everything undoes placing it
    let back = placed.hist_del_order(&all);
    assert_eq!((back.asset1, back.asset2), (8, 100));
    assert_eq!((back.asset1_locked, back.asset2_locked), (0, 0));
    let some: Purse<f64> = Purse { asset1: 1.0, asset2: 3.0, asset1_locked: 4.0, asset2_locked: 8.0 };
    let half: O = Order::Limit {
        buy: true,
        quant: Quant::Q50,
        price: 5.0,
        limit_status: LimitStatus::Untouched,
    };
    let freed = some.hist_del_order(&half);
    assert_eq!((freed.asset1 + freed.asset1_locked, freed.asset2 + freed.asset2_locked), (5.0, 11.0));
}

#[test]
fn requests_have_the_shape_of_their_order() {
    let sym = "BTCUSDT".to_string();
    let stop: O = Order::StopMarket {
        buy: true,
        quant: Quant::Q100,
        price: 10.0,
        stop_status: StopStatus::Untouched,
    };
    let r = parse_to_binance(&sym, &stop, 100.0, 2.0, &trunc, &trunc_short);
    assert!(r.price.is_none() && r.time_in_force.is_none() && r.stop_price.is_some());
    let r = parse_to_binance(&sym, &limit(true, 10.0), 100.0, 2.0, &trunc, &trunc_short);
    assert!(r.price.is_some() && r.time_in_force.is_some() && r.stop_price.is_none());
}
