use bintrade_egui::client::{
    is_handled, listen_proc_resp, load_settings, make_chans, parse_frontend_comm, ChanEnd, CliMode,
    ClientAction, Frontend, Tasks,
};
use bintrade_egui::conn::{get_asset_bases_binance, validate_asset_binance, SymbolInfo};
use bintrade_egui::exchange::{
    check_pause_ms, check_wanted, get_latest_wicks2, latest_wicks_url, read_balances, Answer,
    BinanceClient, Chore, Next, Stage,
};
use bintrade_egui::intv::Intv;
use bintrade_egui::live::{KeysStatus, LiveAsset, LiveInfo};
use bintrade_egui::orders::{BinanceOrder, OrderSide, OrderType};
use bintrade_egui::settings::{KeysError, Settings};
use bintrade_egui::stream::Mailbox;
use bintrade_egui::trade::{LimitStatus, Order, Quant};
use bintrade_egui::{
    BinInstructs, BinResponse, ClientInstruct, ClientResponse, GeneralError, ProcResp, SQLInstructs,
    SQLResponse,
};

type Client = BinanceClient<f64, f32>;
type I = BinInstructs<f64, f32>;

const PASS: &str = "correct horse battery";

fn settings_with_keys() -> Settings<f64> {
    let mut s: Settings<f64> = Settings::new();
    s.binance_pub_key = Some("pub-key".to_string());
    s.binance_priv_key = Some("priv-key".to_string());
    s
}

#[test]
fn passwords_have_a_least_length() {
    assert!(!Settings::<f64>::verify_password_req("0123456789abcde"));
    assert!(Settings::<f64>::verify_password_req("0123456789abcdef"));
    assert!(Settings::<f64>::verify_password_req("seventeen letters"));
    // characters count, not bytes
    assert!(!Settings::<f64>::verify_password_req("ééééééééééééééé"));
    assert!(Settings::<f64>::verify_password_req("éééééééééééééééé"));
}

#[test]
fn encrypted_keys_come_back() {
    let mut s = settings_with_keys();
    assert_eq!(s.encrypt_keys(PASS), Ok(()));
    assert_eq!(s.binance_pub_key, None);
    assert_eq!(s.binance_priv_key, None);
    assert_eq!(s.enc_binance_pub_key.as_deref(), Some("t4JHsXqwAxeJat4/zD0IIQ=="));
    assert_eq!(s.enc_binance_priv_key.as_deref(), Some("SeCw1P4y5mwxhVNMQUf4Kg=="));
    assert_eq!(s.decrypt_keys(PASS), Ok(()));
    assert_eq!(s.binance_pub_key.as_deref(), Some("pub-key"));
    assert_eq!(s.binance_priv_key.as_deref(), Some("priv-key"));
    assert_eq!(s.enc_binance_pub_key, None);
}

#[test]
fn keys_that_cannot_be_encrypted_or_decrypted() {
    let mut s: Settings<f64> = Settings::new();
    assert_eq!(s.encrypt_keys(PASS), Err(KeysError::NoPublicKey));
    assert_eq!(s.decrypt_keys(PASS), Err(KeysError::NoPublicKey));
    s.binance_pub_key = Some("p".to_string());
    assert_eq!(s.encrypt_keys("short"), Ok(()));
    assert_eq!(s.binance_pub_key.as_deref(), Some("p"));
    assert_eq!(s.encrypt_keys(PASS), Err(KeysError::NoPrivateKey));
    assert_eq!(s.binance_pub_key, None);
    s.enc_binance_pub_key = Some("no base 64!".to_string());
    assert_eq!(s.decrypt_keys(PASS), Err(KeysError::NoPrivateKey));
    s.enc_binance_pub_key = Some("no base 64!".to_string());
    s.enc_binance_priv_key = Some("SeCw1P4y5mwxhVNMQUf4Kg==".to_string());
    assert_eq!(s.decrypt_keys(PASS), Err(KeysError::PublicKey));
    s.enc_binance_pub_key = Some("t4JHsXqwAxeJat4/zD0IIQ==".to_string());
    s.enc_binance_priv_key = Some("AAAA".to_string());
    assert_eq!(s.decrypt_keys(PASS), Err(KeysError::PrivateKey));
    assert_eq!(KeysError::NoPublicKey.to_str(), "Pub key string not found!");
    assert_eq!(KeysError::NoPrivateKey.to_str(), "Private key string not found!");
}

#[test]
fn settings_are_made_ready_for_the_file() {
    let mut s = settings_with_keys();
    s.password_string = "typed".to_string();
    s.save_api_keys = false;
    s.save_settings_file(None);
    assert_eq!((s.binance_pub_key.clone(), s.password_string.as_str()), (None, ""));
    let mut s = settings_with_keys();
    s.save_settings_file(None);
    assert_eq!(s.binance_pub_key.as_deref(), Some("pub-key"));
    s.save_settings_file(Some(PASS));
    assert!(s.enc_binance_pub_key.is_some() && s.binance_pub_key.is_none());
    let back = Settings::load_settings_file(s.duplicate(), Some(PASS)).expect("the password fits");
    assert_eq!(back.binance_priv_key.as_deref(), Some("priv-key"));
    let closed = Settings::load_settings_file(s, None).expect("no password, no decryption");
    assert_eq!(closed.binance_priv_key, None);
}

fn keys_sent(i: ClientInstruct<f64, f32>) -> (String, String) {
    match i {
        ClientInstruct::SendBinInstructs(BinInstructs::AddReplaceApiKeys { pub_key, priv_key }) => {
            (pub_key, priv_key)
        }
        other => panic!("{:?}", other),
    }
}

#[test]
fn the_settings_window() {
    let mut s: Settings<f64> = Settings::new();
    s.api_key_enter_string = "a".to_string();
    s.priv_api_key_enter_string = "b".to_string();
    s.enc_api_keys = false;
    assert_eq!(keys_sent(s.on_save()), ("a".to_string(), "b".to_string()));
    assert_eq!(s.binance_pub_key.as_deref(), Some("a"));
    assert_eq!(s.api_key_enter_string, "");
    let again = s.on_loaded::<f32>(None).map(keys_sent);
    assert_eq!(again, Some(("a".to_string(), "b".to_string())));
    assert!(matches!(
        s.on_remove::<f32>(),
        ClientInstruct::SendBinInstructs(BinInstructs::RemoveApiKeys)
    ));
    assert!(s.on_loaded::<f32>(None).is_none());

    let mut s = settings_with_keys();
    s.password_string = PASS.to_string();
    let _ = s.on_save::<f32>();
    assert!(s.enc_binance_pub_key.is_some() && s.binance_pub_key.is_none());
    assert!(s.load_password().is_some());
    s.password_string = PASS.to_string();
    assert!(s.load_password().is_none());
    let unlocked = s.on_unlock::<f32>().map(keys_sent);
    assert_eq!(unlocked, Ok(("pub-key".to_string(), "priv-key".to_string())));
    assert!(s.binance_pub_key.is_none());
    assert!(matches!(s.on_unlock::<f32>(), Err(KeysError::NoPublicKey)));
    assert!(matches!(
        Settings::<f64>::on_refresh::<f32>(),
        ClientInstruct::SendBinInstructs(BinInstructs::GetAllBalances)
    ));
    assert_eq!(Settings::<f64>::key_status_text(KeysStatus::Valid), "Api Keys Valid");
}

#[test]
fn empty_balances_are_not_shown() {
    let mut info: LiveInfo<f64, f32> = LiveInfo::new();
    info.acc_balances.insert("BTC".to_string(), (0.0, 0.0));
    info.acc_balances.insert("ETH".to_string(), (0.0, 2.0));
    info.keys_status = KeysStatus::Valid;
    let mut s: Settings<f64> = Settings::new();
    s.sync(&info);
    assert_eq!(s.shown_balances(), vec![("ETH", 0.0, 2.0)]);
    assert_eq!(s.key_status, KeysStatus::Valid);
}

#[test]
fn the_first_start() {
    let s: Settings<f64> = load_settings(None);
    assert_eq!((s.default_asset.as_str(), s.default_intv), ("BTCUSDT", Intv::Min1));
    assert_eq!((s.defalt_next_wicks, s.backload_wicks), (30, 740));
    assert!(s.enc_api_keys && s.save_api_keys);
    let mut other = settings_with_keys();
    other.default_asset = "ETHUSDT".to_string();
    let other = load_settings(Some(other));
    assert_eq!(other.default_asset, "ETHUSDT");
    let tasks = CliMode { mode: Frontend::Desktop }.mode.init(&other);
    let names: Vec<&str> = tasks
        .iter()
        .map(|t| match t {
            Tasks::Task0Cli => "cli",
            Tasks::Task1BinWS { api_key, default_symbol, .. } => {
                assert_eq!(api_key.as_deref(), Some("pub-key"));
                assert_eq!(default_symbol, "ETHUSDT");
                "bin"
            }
            Tasks::Task3SQL => "sql",
        })
        .collect();
    assert_eq!(names.len(), 3);
    assert!(names.contains(&"cli") && names.contains(&"bin") && names.contains(&"sql"));
    // keys count only together
    let mut half = settings_with_keys();
    half.binance_priv_key = None;
    match Tasks::new_binws(&half) {
        Tasks::Task1BinWS { api_key, api_secret, .. } => assert_eq!((api_key, api_secret), (None, None)),
        other => panic!("{:?}", other),
    }
    assert_eq!(make_chans(&Tasks::new_cli()), (ChanEnd::SendClientInstructs, ChanEnd::ReceiveClientResponses));
    assert_eq!(make_chans(&Tasks::new_sql()), (ChanEnd::ReceiveSQLInstructs, ChanEnd::SendSQLResponses));
}

#[test]
fn what_the_frontend_asks_for() {
    let one = |i: ClientInstruct<f64, f32>| parse_frontend_comm(i).len();
    assert!(matches!(
        parse_frontend_comm::<f64, f32>(ClientInstruct::SendSQLInstructs(SQLInstructs::UpdateDataAll))[..],
        [ClientAction::SendSQL(SQLInstructs::UpdateDataAll)]
    ));
    assert!(matches!(
        parse_frontend_comm::<f64, f32>(ClientInstruct::SendBinInstructs(I::Disconnect))[..],
        [ClientAction::SendBin(BinInstructs::Disconnect)]
    ));
    assert!(matches!(parse_frontend_comm::<f64, f32>(ClientInstruct::Stop)[..], [ClientAction::Sleep]));
    assert!(matches!(parse_frontend_comm::<f64, f32>(ClientInstruct::Terminate)[..], [ClientAction::CancelAll]));
    assert!(is_handled::<f64, f32>(&ClientInstruct::Start));
    assert!(one(ClientInstruct::UpdateSettings(Settings::new())) >= 1);
}

#[test]
fn answers_are_handed_on() {
    let none = listen_proc_resp(None, None);
    assert!(none.is_empty());
    let both = listen_proc_resp(Some(BinResponse::Success), Some(SQLResponse::Success));
    assert_eq!(both.len(), 2);
    assert!(both
        .iter()
        .any(|r| r.same(&ClientResponse::ProcResp(ProcResp::BinResp(BinResponse::Success)))));
    let f = BinResponse::of(Err("no".to_string()));
    assert!(f.same(&BinResponse::Failure(("no".to_string(), GeneralError::Generic))));
    assert!(!f.same(&BinResponse::Success));
    assert!(SQLResponse::of(Ok(())).same(&SQLResponse::Success));
    assert!(ProcResp::default().same(&ProcResp::Client));
}

#[test]
fn instructions_have_names() {
    assert_eq!(I::GetAllBalances.to_str(), "Get all balances Binance");
    assert_eq!(SQLInstructs::<f64>::UpdateDataAll.to_str(), "SQLInstructs: Update all data");
    assert_eq!(ClientInstruct::<f64, f32>::Terminate.to_str(), "Terminate");
}

fn trunc(x: f64) -> f64 {
    x.trunc()
}

fn trunc_short(x: f32) -> f32 {
    x.trunc()
}

fn narrow(x: f64) -> f32 {
    x as f32
}

struct World {
    client: Client,
    info: LiveInfo<f64, f32>,
    asset: LiveAsset<f64>,
    mailbox: Mailbox<f64>,
    chores: Vec<String>,
}

impl World {
    fn new() -> World {
        World {
            client: BinanceClient::new(),
            info: LiveInfo::new(),
            asset: LiveAsset::new(),
            mailbox: Mailbox::new(),
            chores: Vec::new(),
        }
    }

    fn answer(&mut self, chore: &Chore<f64>, valid: bool) -> Answer<f64> {
        let (name, answer) = match chore {
            Chore::OpenOrders => (
                "orders",
                Answer::Orders(Ok(vec![BinanceOrder {
                    order_id: 9,
                    side: OrderSide::Buy,
                    order_type: OrderType::Limit,
                    traded: false,
                    orig_qty: 1.0,
                    executed_qty: 0.0,
                    price: 50.0,
                    stop_price: 0.0,
                }])),
            ),
            Chore::Account => (
                "account",
                Answer::Account(Ok(vec![
                    ("BTC".to_string(), 1.0, 2.0),
                    ("USDT".to_string(), 60.0, 40.0),
                ])),
            ),
            Chore::Bases { symbol } => (
                "bases",
                Answer::Bases(Ok(if symbol == "BTCUSDT" {
                    Some(("BTC".to_string(), "USDT".to_string()))
                } else {
                    None
                })),
            ),
            Chore::Validate { .. } => ("validate", Answer::Valid(Ok(valid))),
            Chore::Place { .. } => ("place", Answer::Done(Ok(()))),
            Chore::CancelOrder { .. } => ("cancel", Answer::Done(Ok(()))),
            Chore::CancelAll { .. } => ("cancel all", Answer::Done(Ok(()))),
            Chore::TryKeys { .. } => ("keys", Answer::Done(Ok(()))),
            Chore::DropKeys => ("no keys", Answer::Done(Ok(()))),
            Chore::FirstData { .. } => ("candles", Answer::Done(Ok(()))),
            Chore::Connect { .. } => ("connect", Answer::Done(Ok(()))),
            Chore::UserData => ("user", Answer::Done(Err("no user".to_string()))),
        };
        self.chores.push(name.to_string());
        answer
    }

    fn finish(&mut self, mut next: Next<f64, f32>, valid: bool) -> BinResponse {
        loop {
            match next {
                Next::Done(r) => return r,
                Next::Do(chore, stage) => {
                    let answer = self.answer(&chore, valid);
                    next = self.client.go_on(
                        stage,
                        answer,
                        &mut self.info,
                        &mut self.asset,
                        &mut self.mailbox,
                        &trunc,
                        &trunc_short,
                        &narrow,
                    );
                }
            }
        }
    }

    fn run(&mut self, i: I, valid: bool) -> BinResponse {
        self.chores.clear();
        let next = self.client.parse_binance_instructs(i, &mut self.mailbox, &trunc, &trunc_short);
        self.finish(next, valid)
    }
}

#[test]
fn another_asset_is_shown() {
    let mut w = World::new();
    let r = w.run(I::ChangeLiveAsset2 { symbol: "BTCUSDT".to_string() }, true);
    assert!(r.same(&BinResponse::Success));
    assert_eq!(w.chores, vec!["validate", "candles", "orders", "account", "bases", "bases"]);
    assert_eq!(w.client.base_balances, (1.0, 2.0));
    assert_eq!(w.client.qoute_balances, (60.0, 40.0));
    assert_eq!(w.asset.live_asset_symbol_changed, (true, "BTCUSDT".to_string()));
    assert_eq!(w.asset.current_pair_strings, ("BTC".to_string(), "USDT".to_string()));
    assert_eq!(w.asset.current_pair_free_balances, (1.0, 60.0));
    assert_eq!(w.asset.current_pair_locked_balances, (2.0, 40.0));
    assert!(!w.mailbox.reconnect);
    let r = w.run(
        I::ChangeLiveAsset { symbol: "BTCUSDT".to_string(), defualt_symbol: "".to_string() },
        true,
    );
    assert!(r.same(&BinResponse::Success));
    assert!(w.mailbox.reconnect);
}

#[test]
fn an_unknown_asset_is_refused() {
    let mut w = World::new();
    let r = w.run(I::ChangeLiveAsset2 { symbol: "XX".to_string() }, false);
    assert_eq!(w.chores, vec!["validate"]);
    match r {
        BinResponse::Failure((t, GeneralError::Generic)) => {
            assert_eq!(t, "Cannot find asset on binance:XX")
        }
        other => panic!("{:?}", other),
    }
}

#[test]
fn an_order_is_placed_and_replaced() {
    let mut w = World::new();
    w.client.qoute_balances = (100.0, 0.0);
    let o = Order::Limit { buy: true, quant: Quant::Q50, price: 10.0, limit_status: LimitStatus::Untouched };
    let next = w.client.parse_binance_instructs(
        I::PlaceOrder { symbol: "BTCUSDT".to_string(), o },
        &mut w.mailbox,
        &trunc,
        &trunc_short,
    );
    match &next {
        Next::Do(Chore::Place { request }, Stage::Placing { replaced: false }) => {
            assert_eq!(request.quantity, Some(5.0));
            assert_eq!(request.price, Some(10.0));
        }
        other => panic!("{:?}", other),
    }
    let r = w.finish(next, true);
    assert!(r.same(&BinResponse::Success));
    assert_eq!(w.chores, vec!["place", "account", "orders"]);
    let r = w.run(I::CancelAndReplaceOrder { id: 9, symbol: "BTCUSDT".to_string(), o }, true);
    assert!(r.same(&BinResponse::Success));
    assert_eq!(w.chores, vec!["cancel", "place", "account", "orders"]);
    let r = w.run(I::CancelAllOrders { symbol: "BTCUSDT".to_string() }, true);
    assert!(r.same(&BinResponse::Success));
    assert_eq!(w.chores, vec!["cancel all", "orders"]);
}

#[test]
fn other_instructions() {
    let mut w = World::new();
    assert!(w.run(I::GetUserData, true).same(&BinResponse::of(Err("no user".to_string()))));
    assert!(w.run(I::GetAllBalances, true).same(&BinResponse::Success));
    assert_eq!(w.info.acc_balances.find("BTC"), Some(&(1.0, 2.0)));
    assert!(w.run(I::GetBalance { symbol: "BTCUSDT".to_string() }, true).same(&BinResponse::Success));
    assert!(w.run(I::Disconnect, true).same(&BinResponse::Success));
    assert!(w.mailbox.disconnect);
    assert!(w.run(I::ReConnectWS, true).same(&BinResponse::Success));
    assert!(w.mailbox.reconnect && !w.mailbox.disconnect);
    let keys = I::AddReplaceApiKeys { pub_key: "a".to_string(), priv_key: "b".to_string() };
    assert!(w.run(keys, true).same(&BinResponse::Success));
    assert_eq!(w.info.keys_status, KeysStatus::Valid);
    let mut s: Settings<f64> = Settings::new();
    s.default_asset = "ETHUSDT".to_string();
    assert!(w.run(I::UpdateSettings(s), true).same(&BinResponse::Success));
    assert_eq!(w.client.default_symbol, "ETHUSDT");
}

#[test]
fn an_account_without_the_pair_is_an_error() {
    let mut c: Client = BinanceClient::new();
    let bases = Ok(Some(("BTC".to_string(), "EUR".to_string())));
    let account = Some(vec![("BTC".to_string(), 1.0, 2.0)]);
    assert_eq!(
        c.get_balances(&"BTCEUR".to_string(), &account, &bases),
        Err("Base asset: EUR not found in balances!".to_string())
    );
    assert_eq!(c.get_balances(&"X".to_string(), &None, &Ok(None)), Ok(()));
    assert_eq!(c.get_balances(&"X".to_string(), &None, &Err("e".to_string())), Err("e".to_string()));
    let twice = read_balances(&Some(vec![("A".to_string(), 1.0, 2.0), ("A".to_string(), 3.0, 4.0)]));
    assert_eq!(twice.find("A"), Some(&(3.0, 4.0)));
}

#[test]
fn the_first_data_of_a_stream() {
    let mut w = World::new();
    w.client.default_symbol = "BTCUSDT".to_string();
    let (params, first) = w.client.get_def_ws_params(true);
    assert_eq!(params.find("BTCUSDT").map(|c| c.len()), Some(16));
    let r = w.finish(first.expect("data was asked for"), true);
    assert!(r.same(&BinResponse::Success));
    assert_eq!(w.chores, vec!["validate", "candles", "orders", "account", "bases"]);
    assert_eq!(w.asset.current_pair_free_balances, (1.0, 60.0));
    assert_eq!(w.asset.live_asset_symbol_changed, (true, "BTCUSDT".to_string()));
    w.chores.clear();
    let (_, first) = w.client.get_def_ws_params(true);
    let r = w.finish(first.expect("data was asked for"), false);
    assert!(r.same(&BinResponse::Success));
    assert_eq!(w.chores, vec!["validate"]);
    assert!(w.client.get_curr_ws_params(false).1.is_none());
}

#[test]
fn the_watch_on_open_orders() {
    let mut info: LiveInfo<f64, f32> = LiveInfo::new();
    assert_eq!(check_wanted(&info), (None, None));
    info.current_pair_strings = ("BTC".to_string(), "USDT".to_string());
    assert_eq!(check_wanted(&info), (Some("BTC".to_string()), Some("USDT".to_string())));
    info.current_pair_free_balances = (1.0, 50.0);
    info.current_pair_locked_balances = (1.0, 50.0);
    let orders = vec![BinanceOrder {
        order_id: 4,
        side: OrderSide::Sell,
        order_type: OrderType::Limit,
        traded: false,
        orig_qty: 1.0,
        executed_qty: 0.0,
        price: 50.0,
        stop_price: 0.0,
    }];
    Client::check_live_orders_change(&mut info, &orders, None, None, &narrow);
    assert_eq!(info.live_orders.len(), 0);
    info.keys_status = KeysStatus::Valid;
    Client::check_live_orders_change(&mut info, &orders, Some((3.0, 1.0)), None, &narrow);
    assert_eq!(info.current_pair_free_balances, (1.0, 50.0));
    assert_eq!(info.current_pair_locked_balances, (3.0, 50.0));
    assert_eq!(info.live_orders.get(&4).map(|e| e.0.get_qnt()), Some(0.25));
    assert!(check_pause_ms(None) > check_pause_ms(Some(KeysStatus::Invalid)));
    assert!(check_pause_ms(Some(KeysStatus::Invalid)) > check_pause_ms(Some(KeysStatus::Valid)));
    assert!(get_latest_wicks2(5) && !get_latest_wicks2(6));
    assert_eq!(
        latest_wicks_url("BTCUSDT", &Intv::Hour1),
        "https://api.binance.com/api/v3/klines?symbol=BTCUSDT&interval=1h"
    );
}

#[test]
fn what_the_exchange_has() {
    let info = |symbol: &str, base: &str| SymbolInfo {
        symbol: symbol.to_string(),
        status: "TRADING".to_string(),
        baseAsset: base.to_string(),
        baseAssetPrecision: 8,
        quoteAsset: "USDT".to_string(),
        quotePrecision: 8,
        quoteAssetPrecision: 8,
        baseCommissionPrecision: 8,
        quoteCommissionPrecision: 8,
    };
    let list = vec![info("BTCUSDT", "BTC"), info("ETHUSDT", "ETH")];
    assert!(validate_asset_binance(&list, "ETHUSDT"));
    assert!(!validate_asset_binance(&list, "XX"));
    assert_eq!(
        get_asset_bases_binance(&list, "ETHUSDT"),
        Some(("ETH".to_string(), "USDT".to_string()))
    );
    assert_eq!(get_asset_bases_binance(&list, "XX"), None);
}

#[test]
fn the_frontend_takes_the_asset_over() {
    let mut info: LiveInfo<f64, f32> = LiveInfo::new();
    let mut asset: LiveAsset<f64> = LiveAsset::new();
    asset.live_asset_symbol_changed = (true, "ETHUSDT".to_string());
    asset.current_pair_strings = ("ETH".to_string(), "USDT".to_string());
    asset.current_pair_free_balances = (1.0, 2.0);
    info.take_over(&asset);
    assert_eq!(info.live_asset_symbol_changed, (true, "ETHUSDT".to_string()));
    assert_eq!(info.current_pair_strings.0, "ETH");
    // the balances of the pair are left to the watch on its orders
    assert_eq!(info.current_pair_free_balances, (0.0, 0.0));
}
