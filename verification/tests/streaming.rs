use bintrade_egui::intv::Intv;
use bintrade_egui::keymap::KeyMap;
use bintrade_egui::stream::{
    copy_params, get_ws_params, get_ws_params2, place_unsorted, subscribe_all, subscribe_message,
    ChannelKind, CollectStep, Mailbox, PriceSource, Sorted, SymbolOutput, WSTick,
};
use bintrade_egui::tick::{read_message, AggTradeWS, BinWSResponse, GetKline, KlineTick, TickError};
use bintrade_egui::time::Stamp;

fn read(s: &str) -> Option<f64> {
    s.parse().ok()
}

const TRADE: &str = r#"{"e":"aggTrade","E":123456789,"s":"BTCUSDT","a":12345,"p":"0.001","q":"100",
    "f":100,"l":105,"T":123456785,"m":true,"M":false}"#;

fn candle_text(interval: &str, closed: bool, price: &str) -> String {
    format!(
        r#"{{"e":"kline","E":1,"s":"BTCUSDT","k":{{"t":60000,"T":119999,"s":"BTCUSDT","i":"{}",
        "f":100,"L":200,"o":"0.0010","c":"{}","h":"0.0025","l":"0.0015","v":"1000","n":100,
        "x":{},"q":"1.0","V":"500","Q":"0.5","B":"123456"}}}}"#,
        interval, price, closed
    )
}

fn said(message: &str) -> Result<Option<(String, BinWSResponse<f64>)>, TickError> {
    read_message(message, &read)
}

fn fault(message: &str) -> TickError {
    match said(message) {
        Err(e) => e,
        Ok(x) => panic!("{:?}", x),
    }
}

#[test]
fn a_trade_is_read() {
    match said(TRADE) {
        Ok(Some((symbol, BinWSResponse::AggTrade(t)))) => {
            assert_eq!(symbol, "BTCUSDT");
            assert_eq!((t.E, t.T, t.a, t.f, t.l), (123456789, 123456785, 12345, 100, 105));
            assert_eq!((t.p, t.q, t.m, t.M), (0.001, 100.0, true, false));
        }
        other => panic!("{:?}", other),
    }
}

#[test]
fn a_candle_is_read() {
    match said(&candle_text("15m", true, "0.0020")) {
        Ok(Some((symbol, BinWSResponse::KlineTick(i, k)))) => {
            assert_eq!((symbol.as_str(), i), ("BTCUSDT", Intv::Min15));
            assert_eq!((k.t, k.T, k.f, k.L, k.n, k.B), (60_000, 119_999, 100, 200, 100, 123_456));
            assert_eq!((k.o, k.h, k.l, k.c, k.v), (0.001, 0.0025, 0.0015, 0.002, 1000.0));
            assert_eq!((k.q, k.V, k.Q, k.x), (1.0, 500.0, 0.5, true));
            let wicks = KlineTick::to_kline_vec(&[k]);
            assert_eq!(wicks, vec![(Stamp { ms: 60_000 }, 0.001, 0.0025, 0.0015, 0.002, 1000.0)]);
        }
        other => panic!("{:?}", other),
    }
}

#[test]
fn an_answer_to_a_request_says_nothing() {
    assert!(matches!(said(r#"{"result":null,"id":1}"#), Ok(None)));
    assert!(matches!(said(r#"{"result":null,"id":null}"#), Ok(None)));
}

#[test]
fn what_is_not_understood_is_told() {
    assert_eq!(fault("{"), TickError::NoJson);
    assert_eq!(fault("{}"), TickError::NoEvent);
    assert_eq!(fault(r#"{"e":"aggTrade"}"#), TickError::NoSymbol);
    assert_eq!(fault(r#"{"e":"aggTrade","s":5}"#), TickError::SymbolText);
    assert_eq!(fault(r#"{"e":"kline","s":"A","k":{}}"#), TickError::NoInterval);
    assert_eq!(fault(r#"{"e":"kline","s":"A","k":{"i":1}}"#), TickError::IntervalText);
    assert_eq!(fault(r#"{"e":"kline","s":"A","k":{"i":"1m"}}"#), TickError::Candle('t'));
    assert_eq!(fault(r#"{"e":"trade","s":"A"}"#), TickError::UnknownEvent);
    assert_eq!(fault(r#"{"e":"bookTicker"}"#), TickError::NotTaken);
    assert_eq!(fault(&candle_text("7m", true, "1")), TickError::NotTaken);
    assert_eq!(fault(&candle_text("1m", true, "x")), TickError::Number('c'));
    assert!(matches!(fault(&TRADE.replace("\"0.001\"", "1")), TickError::Trade(_)));
    assert!(matches!(fault(&TRADE.replace("0.001", "x")), TickError::Number(_)));
}

#[test]
fn errors_have_texts() {
    let texts: Vec<String> = [
        TickError::NoJson,
        TickError::NoEvent,
        TickError::NoSymbol,
        TickError::SymbolText,
        TickError::NoInterval,
        TickError::IntervalText,
        TickError::Trade('q'),
        TickError::Trade('m'),
        TickError::Candle('L'),
        TickError::Candle('h'),
        TickError::Number('c'),
        TickError::UnknownEvent,
        TickError::NotTaken,
    ]
    .iter()
    .map(|e| e.to_text())
    .collect();
    assert_eq!(
        texts,
        vec![
            "Unable to parse JSON",
            "E not found in binance output",
            "s Symbol not found in input",
            "Unable to parse s",
            "i Interval not found in input",
            "Unable to parse i",
            "Unable to parse q",
            "Unable to parse ",
            "Unable to parse L",
            "Unable to parse o",
            "invalid number literal",
            "Unable to parse ws output",
            "Message not taken in",
        ]
    );
}

#[test]
fn channels_of_an_asset() {
    let c = get_ws_params2("BTCUSDT");
    assert_eq!(c.len(), 16);
    assert_eq!(c[0], "btcusdt@aggTrade");
    assert_eq!(c[1], "btcusdt@kline_1m");
    assert_eq!(c[15], "btcusdt@kline_1M");
    let p = get_ws_params("BTCUSDT");
    assert_eq!(p.find("BTCUSDT"), Some(&c));
    assert_eq!(p.len(), 1);
    let again = copy_params(&p);
    assert_eq!(again.find("BTCUSDT"), Some(&c));
    assert_eq!(ChannelKind::OrderBook.subscribe_key("EthBTC"), "ethbtc@bookTicker");
    assert_eq!(ChannelKind::AggTrade.subscribe_key("A"), "a@aggTrade");
    assert_eq!(ChannelKind::Trade.subscribe_key("A"), "a@Trade");
}

#[test]
fn the_request_that_subscribes() {
    let m = subscribe_message(&vec!["a@aggTrade".to_string(), "b\"".to_string()]);
    assert_eq!(m, r#"{"id":1,"method":"SUBSCRIBE","params":["a@aggTrade","b\""]}"#);
    let v: serde_json::Value = serde_json::from_str(&m).expect("JSON");
    assert_eq!(v["params"].as_array().map(|a| a.len()), Some(2));
    let mut p = KeyMap::new();
    p.insert("A".to_string(), vec!["a@aggTrade".to_string()]);
    p.insert("B".to_string(), vec!["b@aggTrade".to_string()]);
    assert_eq!(subscribe_all(&p), r#"{"id":1,"method":"SUBSCRIBE","params":["a@aggTrade","b@aggTrade"]}"#);
}

fn tick(closed: bool, close: f64) -> BinWSResponse<f64> {
    match said(&candle_text("1m", closed, "1")) {
        Ok(Some((_, BinWSResponse::KlineTick(i, k)))) => {
            BinWSResponse::KlineTick(i, KlineTick { c: close, ..k })
        }
        other => panic!("{:?}", other),
    }
}

fn closes(m: &KeyMap<Intv, Vec<KlineTick<f64>>>) -> Vec<f64> {
    m.get(&Intv::Min1).map(|v| v.iter().map(|k| k.c).collect()).unwrap_or_default()
}

#[test]
fn a_closed_candle_forgets_the_open_one() {
    let mut out: SymbolOutput<f64> = SymbolOutput::new();
    out.take_in(tick(false, 1.0));
    out.take_in(tick(false, 2.0));
    out.take_in(tick(true, 3.0));
    assert_eq!((closes(&out.closed_klines), closes(&out.all_klines)), (vec![3.0], vec![]));
    out.take_in(tick(false, 3.5));
    assert_eq!(closes(&out.all_klines), vec![3.5]);
    out.take_in(tick(true, 4.0));
    assert_eq!((closes(&out.closed_klines), closes(&out.all_klines)), (vec![3.0, 4.0], vec![]));
    let mut sorted: Sorted<f64> = KeyMap::new();
    place_unsorted(&mut sorted, "A".to_string(), tick(true, 1.0));
    place_unsorted(&mut sorted, "B".to_string(), BinWSResponse::AggTrade(AggTradeWS::empty()));
    assert_eq!(sorted.len(), 2);
    assert_eq!(sorted.find("B").map(|o| o.agg_trade.len()), Some(1));
    // nothing was there to forget
    assert_eq!(sorted.find("A").map(|o| o.all_klines.len()), Some(0));
}

#[test]
fn messages_go_through_the_mailbox() {
    let mut ws = WSTick::new();
    let mut mailbox: Mailbox<f64> = Mailbox::new();
    let mut price = 0.0;
    mailbox.change_symbol = Some("ETHUSDT".to_string());
    assert_eq!(ws.on_message(&mut mailbox, &mut price, r#"{"id":1}"#, &read), Ok(false));
    assert_eq!(ws.on_message(&mut mailbox, &mut price, TRADE, &read), Ok(true));
    assert_eq!(price, 0.001);
    assert_eq!(mailbox.queue.len(), 1);
    assert_eq!(mailbox.change_symbol, None);
    let request = ws.before_receive().expect("the asset changes");
    assert!(request.contains("ethusdt@kline_1M"));
    assert_eq!(ws.symbol, "ETHUSDT");
    // what is not of the asset on show does not count as its price
    assert_eq!(ws.on_message(&mut mailbox, &mut price, &TRADE.replace("0.001", "7"), &read), Ok(true));
    assert_eq!(price, 0.001);
    assert_eq!(ws.before_receive(), None);
    assert_eq!(ws.on_message(&mut mailbox, &mut price, "x", &read), Err(TickError::NoJson));
    let mut sorted: Sorted<f64> = KeyMap::new();
    WSTick::sort(&mut mailbox, &mut sorted);
    assert!(mailbox.queue.is_empty());
    // the last one comes first
    let trades: Vec<f64> =
        sorted.find("BTCUSDT").expect("sorted").agg_trade.iter().map(|t| t.p).collect();
    assert_eq!(trades, vec![7.0, 0.001]);
}

#[test]
fn the_price_of_candles() {
    let mut ws = WSTick::new();
    ws.watch_price_ty = PriceSource::Candles;
    let mut mailbox: Mailbox<f64> = Mailbox::new();
    let mut price = 0.0;
    let said = ws.append_tick(&mut mailbox, &mut price, "A".to_string(), tick(false, 5.0));
    assert_eq!(said, (false, false, None));
    assert_eq!(price, 5.0);
    ws.on_message(&mut mailbox, &mut price, TRADE, &read).expect("a trade");
    assert_eq!(price, 5.0);
}

#[test]
fn a_stream_closes_between_two_sortings() {
    let mut ws = WSTick::new();
    let mut mailbox: Mailbox<f64> = Mailbox::new();
    assert_eq!(ws.collect_output(0, 15), CollectStep::Receive);
    assert_eq!(ws.collect_output(15, 15), CollectStep::Sort);
    mailbox.disconnect_ws();
    ws.refresh(&mailbox);
    assert!(ws.disconnect && !ws.reconnect);
    assert_eq!(ws.collect_output(0, 15), CollectStep::Close);
    assert_eq!(ws.collect_output(1, 15), CollectStep::Receive);
    mailbox.reconnect_ws();
    ws.refresh(&mailbox);
    assert!(!ws.disconnect && ws.reconnect);
}

#[test]
fn candles_on_request_are_read() {
    let k = |o: &str| GetKline {
        open_time: 1000,
        o: o.to_string(),
        h: "3".to_string(),
        l: "1".to_string(),
        c: "2.5".to_string(),
        v: "9".to_string(),
        close_time: 1999,
        q: "".to_string(),
        no: 4,
        bb: "".to_string(),
        bq: "".to_string(),
        i: "".to_string(),
    };
    let good = vec![k("2")];
    assert!(GetKline::all_readable(&good, &read));
    assert_eq!(GetKline::to_kline(&good, &read).kline, vec![(Stamp { ms: 1000 }, 2.0, 3.0, 1.0, 2.5, 9.0)]);
    assert!(!GetKline::all_readable(&vec![k("2"), k("two")], &read));
}
