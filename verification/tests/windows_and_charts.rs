use bintrade_egui::data::{AssetData, DLAsset, Kline, Klines, Missing, Wick};
use bintrade_egui::intv::Intv;
use bintrade_egui::keymap::KeyMap;
use bintrade_egui::live::{LiveAsset, LiveInfo};
use bintrade_egui::message::{BinInstructs, ClientInstruct, SQLInstructs};
use bintrade_egui::orders::LiveOrders;
use bintrade_egui::panes::{update_procresp, Answers, DesktopApp, Pane, PaneType};
use bintrade_egui::plot::{
    box_element, get_chart_params, grid_spacer, hline_order, link_hline_orders, make_plot, x_format,
    KlinePlot, Navigation, OrderMarkers,
};
use bintrade_egui::stream::{place_unsorted, Sorted, SymbolOutput};
use bintrade_egui::tick::{BinWSResponse, KlineTick};
use bintrade_egui::time::Stamp;
use bintrade_egui::trade::{HistTrade, LimitStatus, Order, Quant, StopStatus};
use bintrade_egui::windows::{trade_slice, DataManager, HistExtras, HistPlot, LivePlot};
use bintrade_egui::{BinResponse, ClientResponse, ProcResp};

fn long(n: i64) -> f64 {
    n as f64
}

fn wick(minute: i64, o: f64, h: f64, l: f64, c: f64, v: f64) -> Wick<f64> {
    (Stamp { ms: minute * 60_000 }, o, h, l, c, v)
}

fn loaded(n: i64) -> AssetData<f64> {
    let k: Vec<Wick<f64>> = (0..n)
        .map(|i| wick(i, 10.0 + i as f64, 12.0 + i as f64, 9.0 + i as f64, 11.0 + i as f64, i as f64))
        .collect();
    let mut klines = Klines::new_empty();
    klines.insert(&Intv::Min1, Kline::new_sql(k));
    let mut ad = AssetData::new(0);
    ad.replace_loaded("BTCUSDT", klines);
    ad
}

#[test]
fn the_axis_of_an_interval() {
    assert_eq!(get_chart_params(&Intv::Min1, &long), (60.0, 0.75));
    assert_eq!(get_chart_params(&Intv::Hour4, &long), (14_400.0, 45.0 * 60.0 * 4.0 / 14_400.0));
    let (div, width) = get_chart_params(&Intv::Week1, &long);
    assert_eq!(div, 604_800.0);
    assert_eq!(width, 1.2 * 45.0 * 60.0 * 24.0 * 7.0 / 604_800.0);
    assert_eq!(x_format(&Intv::Hour1, 2), Stamp { ms: 7_200_000 });
    assert_eq!(x_format(&Intv::Month1, i64::MAX / 2_592_000), Stamp { ms: 0 });
    assert_eq!(grid_spacer::<f64>(&Intv::Min3), (60.0, 60.0, 1.0));
    assert_eq!(grid_spacer::<f64>(&Intv::Min30), (15.0, 15.0, 1.0));
    assert_eq!(grid_spacer::<f64>(&Intv::Hour12), (4.0, 4.0, 1.0));
    assert_eq!(grid_spacer::<f64>(&Intv::Day1), (1.0, 1.0, 1.0));
    assert_eq!(make_plot("x"), ("plot_id_x".to_string(), "x_volume".to_string()));
}

#[test]
fn a_box_shows_its_candle() {
    let (b, v) = box_element(&wick(2, 10.0, 14.0, 8.0, 12.0, 5.0), &60.0, &0.75, &long);
    assert_eq!((b.x, b.low, b.lower, b.middle, b.upper, b.high), (2.0, 8.0, 10.0, 11.0, 12.0, 14.0));
    assert!(b.rising && v.rising);
    assert_eq!((v.x, v.volume, v.width), (2.0, 5.0, 0.75));
    assert_eq!(b.time_format(), (10.0, 12.0));
    let (b, _) = box_element(&wick(2, 12.0, 14.0, 8.0, 10.0, 5.0), &60.0, &0.75, &long);
    assert!(!b.rising);
    assert_eq!(b.time_format(), (12.0, 10.0));
}

#[test]
fn marks_of_trades() {
    let mut m: OrderMarkers<f64, f32> = OrderMarkers::new();
    assert_eq!((m.marker_size, m.percent_offset), (5.0, 0.002));
    m.percent_offset = 0.5;
    m.buy_markers.push((3, 100.0));
    assert_eq!(m.to_points(&long), (vec![(3.0, 50.0)], vec![(3.0, 150.0)]));
}

#[test]
fn candles_are_drawn() {
    let ad = loaded(100);
    let mut p: KlinePlot<f64, f32> = KlinePlot::new();
    assert!(!p.show().candles);
    assert_eq!(p.live_from_ad(&ad, "ETHUSDT", Intv::Min1, 50, &long), Err(Missing::Asset));
    assert_eq!(p.live_from_ad(&ad, "BTCUSDT", Intv::Hour1, 50, &long), Err(Missing::Interval));
    assert_eq!(p.live_from_ad(&ad, "BTCUSDT", Intv::Min1, 95, &long), Ok(()));
    assert_eq!(p.candles.len(), 95);
    assert_eq!(p.get_data_timestamp, Some(99 * 60));
    // ninety candles before the last are in view, and forty ahead
    assert_eq!(p.x_bounds, (9.0, 139.0));
    assert_eq!(p.y_bounds, (14.0, 111.0));
    assert_eq!(p.v_bound, 99.0);
    let plan = p.show();
    assert!(plan.candles && plan.lines && plan.markers && !plan.tick);
    assert_eq!(p.last_close(&ad), Some(110.0));
    assert_eq!(p.wicks_from(&ad, 98).map(|k| k.len()), Some(2));
    p.symbol = "X".to_string();
    assert_eq!(p.last_close(&ad), None);
}

fn tick(minute: i64, high: f64, low: f64, closed: bool) -> BinWSResponse<f64> {
    BinWSResponse::KlineTick(
        Intv::Min1,
        KlineTick {
            t: minute * 60_000,
            T: minute * 60_000 + 59_999,
            f: 0,
            L: 0,
            o: low,
            c: high,
            h: high,
            l: low,
            v: 1.0,
            n: 0,
            x: closed,
            q: 0.0,
            V: 0.0,
            Q: 0.0,
            B: 0,
        },
    )
}

#[test]
fn the_open_candle_is_drawn_beside() {
    let ad = loaded(100);
    let mut p: KlinePlot<f64, f32> = KlinePlot::new();
    p.live_from_ad(&ad, "BTCUSDT", Intv::Min1, 95, &long).expect("loaded");
    let mut out: SymbolOutput<f64> = SymbolOutput::new();
    out.take_in(tick(99, 120.0, 100.0, true));
    out.take_in(tick(100, 125.0, 110.0, false));
    out.take_in(tick(100, 130.0, 110.0, false));
    p.live_live_from_ad(&(true, "ETHUSDT".to_string()), Intv::Min1, 95, &out, &long);
    // the candle that the past ends with is there already
    assert_eq!(p.tick_candles.len(), 1);
    assert_eq!(p.tick_candles[0].0.high, 130.0);
    assert_eq!(p.candles.len(), 95);
    assert_eq!(p.symbol, "ETHUSDT");
    assert!(p.live_asset_changed);
    assert_eq!((p.ticks, p.tick_highest, p.tick_lowest), (2, 130.0, 0.0));
    assert_eq!(p.y_bounds, (0.0, 130.0));
}

#[test]
fn the_chart_is_moved() {
    let mut p: KlinePlot<f64, f32> = KlinePlot::new();
    p.navi_wicks_s = "7".to_string();
    p.y_offset_s = "many".to_string();
    p.navigate(Navigation::Back);
    p.navigate(Navigation::Up);
    assert_eq!((p.offset, p.y_offset), (-7, 30));
    p.navigate(Navigation::Forward);
    p.navigate(Navigation::Forward);
    p.navigate(Navigation::Down);
    assert_eq!((p.offset, p.y_offset), (7, 0));
    p.navigate(Navigation::ResetX);
    p.navigate(Navigation::ResetY);
    assert_eq!((p.offset, p.y_offset), (0, 0));
    p.navi_wicks_s = "65536".to_string();
    p.navigate(Navigation::Forward);
    assert_eq!(p.offset, 30);
}

#[test]
fn lines_of_orders() {
    let o: Order<f64, f32> = Order::StopLimit {
        buy: true,
        quant: Quant::Q100,
        price: 10.0,
        limit_status: LimitStatus::Untouched,
        stop_price: 11.5,
        stop_status: StopStatus::Untouched,
    };
    let lines = hline_order(&o, false);
    assert_eq!(lines.len(), 2);
    assert_eq!((lines[0].price, lines[0].dotted), (10.0, false));
    assert_eq!((lines[1].price, lines[1].dotted), (11.5, true));
    assert_eq!((lines[0].color(), lines[0].side_text()), ((188, 255, 188), "Buy"));
    let mut orders: LiveOrders<f64, f32> = KeyMap::new();
    orders.insert(1, (o, true));
    orders.insert(2, (Order::Market { buy: false, quant: Quant::Q100 }, true));
    orders.insert(
        3,
        (
            Order::Limit { buy: false, quant: Quant::Q100, price: 5.0, limit_status: LimitStatus::Untouched },
            true,
        ),
    );
    let mut drawn = lines;
    link_hline_orders(&orders, &mut drawn);
    assert_eq!(drawn.len(), 3);
    assert_eq!((drawn[2].label, drawn[2].color()), ("Limit price", (255, 0, 0)));
}

#[test]
fn the_live_chart() {
    let mut p: LivePlot<f64, f32> = LivePlot::new(&Intv::Min1, "BTCUSDT");
    let mut info: LiveInfo<f64, f32> = LiveInfo::new();
    p.kline_plot.follow(&info);
    assert_eq!(p.kline_plot.symbol, "BTCUSDT");
    info.live_asset_symbol_changed = (true, "ETHUSDT".to_string());
    p.kline_plot.follow(&info);
    assert_eq!(p.kline_plot.symbol, "ETHUSDT");
    p.intv = Intv::Hour1;
    p.reload = true;
    let ad = loaded(3);
    let mut asset: LiveAsset<f64> = LiveAsset::new();
    asset.live_asset_symbol_changed = (true, "BTCUSDT".to_string());
    let mut collected: Sorted<f64> = KeyMap::new();
    place_unsorted(&mut collected, "BTCUSDT".to_string(), tick(3, 20.0, 10.0, false));
    p.show(&ad, &asset, &collected, &mut info, 100, &long);
    // the asset that was on show before the round, and the new one in the chart
    assert_eq!((p.symbol.as_str(), p.kline_plot.symbol.as_str()), ("ETHUSDT", "BTCUSDT"));
    assert_eq!(info.live_asset_symbol_changed, (true, "BTCUSDT".to_string()));
    assert_eq!((p.kline_plot.candles.len(), p.kline_plot.tick_candles.len()), (3, 1));
    assert_eq!((p.last_intv, p.kline_plot.intv, p.reload), (Intv::Hour1, Intv::Hour1, false));
    p.search_string = "XRPUSDT".to_string();
    match p.on_search() {
        ClientInstruct::SendBinInstructs(BinInstructs::ChangeLiveAsset { symbol, defualt_symbol }) => {
            assert_eq!((symbol.as_str(), defualt_symbol.as_str()), ("XRPUSDT", "BTCUSDT"))
        }
        other => panic!("{:?}", other),
    }
    assert!(matches!(
        LivePlot::<f64, f32>::on_reload(),
        ClientInstruct::SendBinInstructs(BinInstructs::ReConnectWS)
    ));
    assert!(matches!(
        LivePlot::<f64, f32>::on_stop(),
        ClientInstruct::SendBinInstructs(BinInstructs::Disconnect)
    ));
}

fn asked_time(i: ClientInstruct<f64, f32>) -> i64 {
    match i {
        ClientInstruct::SendSQLInstructs(SQLInstructs::LoadHistDataPart2 {
            backload_wicks,
            trade_time,
            ..
        }) => {
            assert_eq!(backload_wicks, 720);
            trade_time
        }
        other => panic!("{:?}", other),
    }
}

#[test]
fn the_chart_of_the_past() {
    let day = 20_000 * 86_400_000;
    let mut p: HistPlot<f64, f32> = HistPlot::new(&Intv::Min1, 30, Stamp { ms: day + 5 });
    assert_eq!((p.picked_day, p.trade_time), (Stamp { ms: day }, day));
    let before: HistPlot<f64, f32> = HistPlot::new(&Intv::Min1, -3, Stamp { ms: -1 });
    assert_eq!(before.picked_day, Stamp { ms: -86_400_000 });
    assert_eq!(before.navi_wicks_s, "-3");
    p.search_load_string = "ETHUSDT".to_string();
    p.trade_h_s = "7".to_string();
    p.trade_min_s = "60".to_string();
    assert_eq!(asked_time(p.on_go_to()), day + 7 * 3_600_000);
    assert_eq!((p.trade_h_s.as_str(), p.trade_min_s.as_str()), ("7", "00"));
    assert_eq!(p.kline_plot.symbol, "ETHUSDT");
    // going on twice adds up
    p.trade_wicks_s = "5".to_string();
    let first = asked_time(p.on_trade_forward());
    let second = asked_time(p.on_trade_forward());
    assert_eq!(first, day + 7 * 3_600_000 + 5 * 60_000);
    assert_eq!(second, first + 5 * 60_000);
    assert!(p.trade_slice_loaded);
    p.trade_wicks_s = "x".to_string();
    assert_eq!(asked_time(p.on_trade_forward()), second + 30 * 60_000);
    assert_eq!((p.trade_wicks_s.as_str(), p.navi_wicks), ("30", 30));
    let mut ad = loaded(10);
    if let Some(k) = ad.kline_data.get_mut(&"BTCUSDT".to_string()) {
        k.name_pair("BTCUSDT", "BTC", "USDT");
    }
    let mut run: HistTrade<f64, f32> = HistTrade::new();
    run.buy_points.push((7, 1.5));
    run.sell_points.push((8, 2.5));
    let mut extras: HistExtras<f64> = HistExtras::new();
    let mut slice: Vec<Wick<f64>> = Vec::new();
    p.kline_plot.symbol = "BTCUSDT".to_string();
    p.trade_slice_loaded = false;
    p.show(&ad, &run, &mut slice, &mut extras, 100, &long);
    assert_eq!((extras.last_price, slice.len()), (20.0, 0));
    let names = ("BTCUSDT".to_string(), "BTC".to_string(), "USDT".to_string());
    assert_eq!(extras.symbol_info, names);
    assert!(p.kline_plot.points.buy_markers.is_empty());
    p.trade_slice_loaded = true;
    p.trade_wicks = 3;
    p.intv = Intv::Hour1;
    p.show(&ad, &run, &mut slice, &mut extras, 100, &long);
    assert_eq!(slice.iter().map(|w| w.5).collect::<Vec<f64>>(), vec![7.0, 8.0, 9.0]);
    assert_eq!((p.last_intv, p.kline_plot.intv), (Intv::Hour1, Intv::Hour1));
    // the marks come with the interval
    assert_eq!(p.kline_plot.points.buy_markers, vec![(7, 1.5)]);
    assert_eq!(p.kline_plot.points.sell_markers, vec![(8, 2.5)]);
    // nothing is loaded for that interval
    p.show(&ad, &run, &mut slice, &mut extras, 100, &long);
    assert_eq!((extras.last_price, slice.len()), (20.0, 3));
    let k: Vec<Wick<f64>> = (0..5).map(|i| wick(i, 0.0, 0.0, 0.0, i as f64, 0.0)).collect();
    let (last, slice) = trade_slice(&k, 2);
    assert_eq!((last, slice.len(), slice[0].4), (4.0, 2, 3.0));
    assert_eq!(trade_slice(&k, 9).1.len(), 5);
    assert_eq!(HistExtras::<f64>::new().last_price, 0.0);
}

#[test]
fn assets_on_disk() {
    let asset = |name: &str, end: i64| DLAsset {
        asset: name.to_string(),
        exchange: "Binance".to_string(),
        dat_start_t: 0,
        dat_end_t: end,
    };
    let mut ad: AssetData<f64> = AssetData::new(0);
    let mut m = DataManager::new();
    m.show(&ad);
    assert!(!m.asset_list_loaded);
    ad.downloaded_assets = vec![asset("TEST", 1), asset("BTCUSDT", i64::MAX), asset("ETHUSDT", 5)];
    m.show(&ad);
    assert!(m.asset_list_loaded);
    let rows = m.rows();
    assert_eq!(rows.len(), 2);
    assert_eq!((rows[0].asset.as_str(), rows[0].start, rows[0].end), ("BTCUSDT", Some(Stamp { ms: 0 }), None));
    assert_eq!(rows[1].end, Some(Stamp { ms: 5 }));
    m.coin_search_string = "XRPUSDT".to_string();
    match m.on_add::<f64, f32>() {
        ClientInstruct::SendSQLInstructs(SQLInstructs::InsertDLAsset { symbol, exchange }) => {
            assert_eq!((symbol.as_str(), exchange.as_str()), ("XRPUSDT", "Binance"))
        }
        other => panic!("{:?}", other),
    }
    assert!(!m.asset_list_loaded);
    let _ = m.on_update_all::<f64, f32>();
    assert!(m.update_ran && m.update_success);
    assert_eq!(m.update_status, "Ran");
    assert!(matches!(
        m.on_delete::<f64, f32>(&"A".to_string()),
        ClientInstruct::SendSQLInstructs(SQLInstructs::DelAsset { .. })
    ));
    assert!(matches!(
        m.on_reload::<f64, f32>(),
        ClientInstruct::SendSQLInstructs(SQLInstructs::LoadDLAssetList)
    ));
}

#[test]
fn panes_come_and_go() {
    let (mut d, first): (DesktopApp<f64, f32>, Pane) = DesktopApp::new();
    assert_eq!(first, Pane::new(0, PaneType::LiveTrade));
    let orders = d.man_orders.get(&0).expect("the first pane has orders");
    assert!(orders.orders.is_empty() && !orders.single_order_mode && orders.last_id == 0);
    assert_eq!(d.open_pane(PaneType::Nothing, &Intv::Min1, 30, Stamp { ms: 0 }), None);
    let now = Stamp { ms: 3 * 86_400_000 + 7 };
    let hist = d.open_pane(PaneType::HistTrade, &Intv::Hour4, 45, now).expect("opened");
    assert_eq!(hist, Pane { nr: 2, ty: PaneType::HistTrade });
    let plot = d.hist_plot.get(&2).expect("the pane has a chart");
    assert_eq!((plot.intv, plot.last_intv, plot.trade_wicks), (Intv::Hour4, Intv::Hour4, 45));
    assert_eq!((plot.picked_day.ms, plot.trade_time), (3 * 86_400_000, 3 * 86_400_000));
    assert!(!plot.trade_slice_loaded);
    let settings = d.open_pane(PaneType::Settings, &Intv::Min1, 30, Stamp { ms: 0 }).expect("opened");
    assert_eq!(settings.nr, 3);
    assert_eq!((d.man_orders.len(), d.hist_plot.len(), d.hist_extras.len()), (2, 1, 1));
    d.on_tab_close(settings);
    d.on_tab_close(hist);
    assert_eq!((d.man_orders.len(), d.hist_plot.len(), d.hist_extras.len()), (1, 0, 0));
    assert_eq!(Pane::default().ty.to_str(), "None");
    let titles: Vec<&str> = PaneType::iter().iter().map(|t| t.to_str()).collect();
    assert_eq!(titles, vec!["None", "Live Trade", "Hist Trade", "Manage Data", "Settings"]);
}

#[test]
fn answers_are_sorted() {
    let mut last = ClientResponse::Nothing;
    let mut buff: Answers = KeyMap::new();
    let ok = || ClientResponse::ProcResp(ProcResp::BinResp(BinResponse::Success));
    update_procresp(&mut last, ok(), &mut buff);
    update_procresp(&mut last, ok(), &mut buff);
    assert_eq!(buff.len(), 1);
    assert_eq!(buff.entry(0).1.len(), 0);
    update_procresp(&mut last, ClientResponse::Success, &mut buff);
    update_procresp(&mut last, ok(), &mut buff);
    assert_eq!(buff.len(), 2);
    assert_eq!(buff.entry(0).1.len(), 1);
    assert!(last.same(&ok()));
}
