//! The stream of the exchange: what to subscribe to, and where what comes in
//! goes.

use crate::intv;
use crate::intv::Intv;
use crate::json;
use crate::keymap::KeyMap;
use crate::reader;
use crate::text;
use crate::tick;
use crate::tick::{AggTradeWS, BinWSResponse, KlineTick, TickError};
use vstd::prelude::*;

verus! {

/// `s` in lower case.
pub uninterp spec fn lower(s: Seq<char>) -> Seq<char>;

/// `s` in lower case, by `str::to_lowercase`. Which characters that changes is
/// a matter of the character tables; it is named, not spelled out.
#[verifier::external_body]
pub(crate) fn lowercase(s: &str) -> (r: String)
    ensures
        r@ == lower(s@),
{
    s.to_lowercase()
}

/// The channels of an asset, `name` being the asset in lower case: its trades,
/// and its candles for each interval.
pub open spec fn channels(name: Seq<char>) -> Seq<Seq<char>> {
    seq![name + "@aggTrade"@] + intv::intervals().map_values(
        |i: Intv| name + "@kline_"@ + i.bin_name(),
    )
}

/// The channels of an asset, `name` being the asset in lower case.
pub fn channels_of(name: &str) -> (r: Vec<String>)
    ensures
        json::views(r@) == channels(name@),
{
    let ghost f = |i: Intv| name@ + "@kline_"@ + i.bin_name();
    let mut out: Vec<String> = Vec::new();
    out.push(text::join2(name, "@aggTrade"));
    let all = Intv::iter();
    let mut k: usize = 0;
    assert(json::views(out@) =~= seq![name@ + "@aggTrade"@] + all@.take(0).map_values(f));
    while k < all.len()
        invariant
            k <= all@.len(),
            all@ == intv::intervals(),
            f == (|i: Intv| name@ + "@kline_"@ + i.bin_name()),
            json::views(out@) == seq![name@ + "@aggTrade"@] + all@.take(k as int).map_values(f),
        decreases all@.len() - k,
    {
        let ghost before = out@;
        out.push(text::join3(name, "@kline_", all[k].to_bin_str()));
        assert(json::views(out@) =~= json::views(before).push(out@.last()@));
        assert(json::views(out@) =~= seq![name@ + "@aggTrade"@] + all@.take(k + 1).map_values(f));
        k += 1;
    }
    assert(all@.take(all@.len() as int) =~= all@);
    out
}

/// The channels of the asset `symbol`.
pub fn get_ws_params2(symbol: &str) -> (r: Vec<String>)
    ensures
        json::views(r@) == channels(lower(symbol@)),
{
    let name = lowercase(symbol);
    channels_of(name.as_str())
}

/// The kinds of channels that an asset has by itself.
#[derive(Debug, Clone, Copy, PartialEq, Eq, Structural)]
pub enum ChannelKind {
    /// The best prices.
    OrderBook,
    /// Trades, those of one order taken together.
    AggTrade,
    /// Single trades.
    Trade,
}

impl ChannelKind {
    /// What the name of the channel ends with.
    pub open spec fn suffix(self) -> Seq<char> {
        match self {
            ChannelKind::OrderBook => "@bookTicker"@,
            ChannelKind::AggTrade => "@aggTrade"@,
            ChannelKind::Trade => "@Trade"@,
        }
    }

    /// The name of the channel, `name` being the asset in lower case.
    pub fn channel(&self, name: &str) -> (r: String)
        ensures
            r@ == name@ + self.suffix(),
    {
        match self {
            ChannelKind::OrderBook => text::join2(name, "@bookTicker"),
            ChannelKind::AggTrade => text::join2(name, "@aggTrade"),
            ChannelKind::Trade => text::join2(name, "@Trade"),
        }
    }

    /// The name of the channel of the asset `symbol`.
    pub fn subscribe_key(&self, symbol: &str) -> (r: String)
        ensures
            r@ == lower(symbol@) + self.suffix(),
    {
        let name = lowercase(symbol);
        self.channel(name.as_str())
    }
}

/// The channels to subscribe to, by asset.
pub type Params = KeyMap<String, Vec<String>>;

/// The channels of the asset `symbol`, under its name.
pub fn get_ws_params(symbol: &str) -> (r: Params)
    ensures
        r.wf(),
        r@.dom() == set![symbol@],
        json::views(r@[symbol@]@) == channels(lower(symbol@)),
{
    let mut params: Params = KeyMap::new();
    let _ = params.insert(symbol.to_owned(), get_ws_params2(symbol));
    assert(params@.dom() =~= set![symbol@]);
    params
}

/// Every channel of the first `n` entries, one after the other.
pub open spec fn all_channels(entries: Seq<(String, Vec<String>)>, n: int) -> Seq<Seq<char>>
    decreases n,
{
    if n <= 0 {
        Seq::empty()
    } else {
        all_channels(entries, n - 1) + json::views(entries[n - 1].1@)
    }
}

/// The request that subscribes to the channels of `params`.
pub fn subscribe_all(params: &Params) -> (r: String)
    ensures
        r@ == subscription(all_channels(params.listed(), params.listed().len() as int)),
{
    let mut out: Vec<String> = Vec::new();
    let mut i: usize = 0;
    assert(json::views(out@) =~= all_channels(params.listed(), 0));
    while i < params.len()
        invariant
            i <= params.listed().len(),
            json::views(out@) == all_channels(params.listed(), i as int),
        decreases params.listed().len() - i,
    {
        let entry = params.entry(i);
        let mut j: usize = 0;
        let ghost before = out@;
        assert(json::views(before) =~= json::views(before) + json::views(entry.1@.take(0)));
        while j < entry.1.len()
            invariant
                j <= entry.1@.len(),
                json::views(out@) == json::views(before) + json::views(entry.1@.take(j as int)),
            decreases entry.1@.len() - j,
        {
            let ghost now = out@;
            out.push(entry.1[j].clone());
            assert(json::views(out@) =~= json::views(now).push(entry.1@[j as int]@));
            assert(json::views(entry.1@.take(j + 1)) =~= json::views(entry.1@.take(j as int)).push(
                entry.1@[j as int]@,
            ));
            assert(json::views(out@) =~= json::views(before) + json::views(entry.1@.take(j + 1)));
            j += 1;
        }
        assert(entry.1@.take(entry.1@.len() as int) =~= entry.1@);
        i += 1;
    }
    subscribe_message(&out)
}

/// The request that subscribes to channels.
pub open spec fn subscription(channels: Seq<Seq<char>>) -> Seq<char> {
    "{\"id\":1,\"method\":\"SUBSCRIBE\",\"params\":"@ + json::list_text(channels) + "}"@
}

/// The request that subscribes to `channels`.
pub fn subscribe_message(channels: &Vec<String>) -> (r: String)
    ensures
        r@ == subscription(json::views(channels@)),
{
    let list = json::write_list(channels);
    text::join3("{\"id\":1,\"method\":\"SUBSCRIBE\",\"params\":", list.as_str(), "}")
}

/// What came in for one asset.
pub struct Collected<F> {
    pub trades: Seq<AggTradeWS<F>>,
    /// Candles that have closed, by interval.
    pub closed: Map<Intv, Seq<KlineTick<F>>>,
    /// The states of the candle that is open, by interval.
    pub open: Map<Intv, Seq<KlineTick<F>>>,
}

/// Nothing came in.
pub open spec fn nothing<F>() -> Collected<F> {
    Collected { trades: Seq::empty(), closed: Map::empty(), open: Map::empty() }
}

/// What has come in once `input` came too. A candle that closes goes to the
/// closed ones, and the states of the open candle of its interval are forgotten.
/// One that is still open goes to those states.
pub open spec fn placed<F>(c: Collected<F>, input: BinWSResponse<F>) -> Collected<F> {
    match input {
        BinWSResponse::AggTrade(t) => Collected { trades: c.trades.push(t), ..c },
        BinWSResponse::KlineTick(i, k) => if k.x {
            let before = if c.closed.dom().contains(i) {
                c.closed[i]
            } else {
                Seq::empty()
            };
            Collected {
                closed: c.closed.insert(i, before.push(k)),
                open: if c.open.dom().contains(i) || c.closed.dom().contains(i) {
                    c.open.insert(i, Seq::empty())
                } else {
                    c.open
                },
                ..c
            }
        } else {
            if c.open.dom().contains(i) {
                Collected { open: c.open.insert(i, c.open[i].push(k)), ..c }
            } else {
                Collected { open: c.open.insert(i, seq![k]), ..c }
            }
        },
    }
}

/// Once a candle has closed, no state of an open candle is left for its interval.
pub proof fn closing_forgets_the_open_states<F>(c: Collected<F>, i: Intv, k: KlineTick<F>)
    requires
        k.x,
    ensures
        ({
            let after = placed(c, BinWSResponse::KlineTick(i, k));
            &&& after.closed[i].last() == k
            &&& after.open.dom().contains(i) ==> after.open[i].len() == 0
        }),
{
}

/// What came in for one asset.
#[derive(Debug)]
pub struct SymbolOutput<F> {
    pub agg_trade: Vec<AggTradeWS<F>>,
    pub closed_klines: KeyMap<Intv, Vec<KlineTick<F>>>,
    pub all_klines: KeyMap<Intv, Vec<KlineTick<F>>>,
}

impl<F: Copy> SymbolOutput<F> {
    /// Each interval has one list of candles.
    pub open spec fn wf(&self) -> bool {
        self.closed_klines.wf() && self.all_klines.wf()
    }

    /// What came in.
    pub open spec fn collected(&self) -> Collected<F> {
        Collected {
            trades: self.agg_trade@,
            closed: self.closed_klines@.map_values(|v: Vec<KlineTick<F>>| v@),
            open: self.all_klines@.map_values(|v: Vec<KlineTick<F>>| v@),
        }
    }

    /// Nothing came in.
    pub fn new() -> (r: Self)
        ensures
            r.wf(),
            r.collected() == nothing::<F>(),
    {
        let r = SymbolOutput {
            agg_trade: Vec::new(),
            closed_klines: KeyMap::new(),
            all_klines: KeyMap::new(),
        };
        assert(r.collected().closed =~= nothing::<F>().closed);
        assert(r.collected().open =~= nothing::<F>().open);
        r
    }

    /// Takes `input` in.
    pub fn take_in(&mut self, input: BinWSResponse<F>)
        requires
            old(self).wf(),
        ensures
            final(self).wf(),
            final(self).collected() == placed(old(self).collected(), input),
    {
        let ghost c = self.collected();
        match input {
            BinWSResponse::AggTrade(t) => {
                self.agg_trade.push(t);
            },
            BinWSResponse::KlineTick(i, k) => {
                if k.x {
                    if self.closed_klines.contains(&i) || self.all_klines.contains(&i) {
                        let _ = self.all_klines.insert(i, Vec::new());
                    }
                    push_for(&mut self.closed_klines, i, k);
                } else {
                    push_for(&mut self.all_klines, i, k);
                }
            },
        }
        assert(self.collected().closed =~= placed(c, input).closed);
        assert(self.collected().open =~= placed(c, input).open);
    }
}

/// Appends `k` to the list for `i`, and begins one where there is none.
fn push_for<F: Copy>(lists: &mut KeyMap<Intv, Vec<KlineTick<F>>>, i: Intv, k: KlineTick<F>)
    requires
        old(lists).wf(),
    ensures
        final(lists).wf(),
        final(lists)@.dom() == old(lists)@.dom().insert(i),
        final(lists)@[i]@ == (if old(lists)@.dom().contains(i) {
            old(lists)@[i]@.push(k)
        } else {
            seq![k]
        }),
        forall|j: Intv|
            j != i && old(lists)@.dom().contains(j) ==> #[trigger] final(lists)@[j] == old(lists)@[j],
{
    let ghost before = lists@;
    if let Some(list) = lists.get_mut(&i) {
        list.push(k);
        assert(before.dom().insert(i) =~= before.dom());
        return;
    }
    let mut list: Vec<KlineTick<F>> = Vec::new();
    list.push(k);
    assert(list@ =~= seq![k]);
    let _ = lists.insert(i, list);
}

/// What came in for every asset.
pub type Sorted<F> = KeyMap<String, SymbolOutput<F>>;

/// Each asset has one output, and that is sound.
pub open spec fn sorted_wf<F: Copy>(s: Sorted<F>) -> bool {
    &&& s.wf()
    &&& forall|k: Seq<char>| #[trigger] s@.dom().contains(k) ==> s@[k].wf()
}

/// What came in for the asset `symbol`.
pub open spec fn collected_for<F: Copy>(s: Sorted<F>, symbol: Seq<char>) -> Collected<F> {
    if s@.dom().contains(symbol) {
        s@[symbol].collected()
    } else {
        nothing()
    }
}

/// Takes in `input` for the asset `symbol`.
pub fn place_unsorted<F: Copy>(sorted: &mut Sorted<F>, symbol: String, input: BinWSResponse<F>)
    requires
        sorted_wf(*old(sorted)),
    ensures
        sorted_wf(*final(sorted)),
        final(sorted)@.dom() == old(sorted)@.dom().insert(symbol@),
        forall|k: Seq<char>| #[trigger]
            collected_for(*final(sorted), k) == (if k == symbol@ {
                placed(collected_for(*old(sorted), k), input)
            } else {
                collected_for(*old(sorted), k)
            }),
{
    let ghost before = sorted@;
    if let Some(queue) = sorted.get_mut(&symbol) {
        queue.take_in(input);
        assert(before.dom().insert(symbol@) =~= before.dom());
        return;
    }
    let mut queue: SymbolOutput<F> = SymbolOutput::new();
    queue.take_in(input);
    let _ = sorted.insert(symbol, queue);
}

/// What the stream and the rest of the program leave for each other.
#[derive(Debug)]
pub struct Mailbox<F> {
    /// What came in and has not been sorted yet.
    pub queue: Vec<(String, BinWSResponse<F>)>,
    /// The stream is to close its connection.
    pub disconnect: bool,
    /// The stream is to connect again.
    pub reconnect: bool,
    /// The channels to subscribe to from the next connection on.
    pub params: Params,
    /// The asset to subscribe to at once.
    pub change_symbol: Option<String>,
}

impl<F: Copy> Mailbox<F> {
    /// The channels are sound.
    pub open spec fn wf(&self) -> bool {
        self.params.wf()
    }

    /// Nothing left for anyone.
    pub fn new() -> (r: Self)
        ensures
            r.wf(),
            r.queue@.len() == 0,
            !r.disconnect,
            !r.reconnect,
            r.params@ == Map::<Seq<char>, Vec<String>>::empty(),
            r.change_symbol is None,
    {
        Mailbox {
            queue: Vec::new(),
            disconnect: false,
            reconnect: false,
            params: KeyMap::new(),
            change_symbol: None,
        }
    }

    /// Asks the stream to connect again.
    pub fn reconnect_ws(&mut self)
        ensures
            !final(self).disconnect,
            final(self).reconnect,
            final(self).queue == old(self).queue,
            final(self).params == old(self).params,
            final(self).change_symbol == old(self).change_symbol,
    {
        self.disconnect = false;
        self.reconnect = true;
    }

    /// Asks the stream to close its connection and stay closed.
    pub fn disconnect_ws(&mut self)
        ensures
            final(self).disconnect,
            !final(self).reconnect,
            final(self).queue == old(self).queue,
            final(self).params == old(self).params,
            final(self).change_symbol == old(self).change_symbol,
    {
        self.disconnect = true;
        self.reconnect = false;
    }
}

/// Which price of the stream is the live one: that of the trades, or the last
/// one of the candle.
#[derive(Debug, Clone, Copy, PartialEq, Eq, Structural)]
pub enum PriceSource {
    Trades,
    Candles,
}

/// What the stream is to do next.
#[derive(Debug, Clone, Copy, PartialEq, Eq, Structural)]
pub enum CollectStep {
    /// Receive one message.
    Receive,
    /// Sort what came in.
    Sort,
    /// Close the connection.
    Close,
}

/// The stream.
#[derive(Debug)]
pub struct WSTick {
    pub watch_price_ty: PriceSource,
    pub sub_params: Params,
    pub disconnect: bool,
    pub reconnect: bool,
    pub change_symbol: Option<String>,
    pub symbol: String,
}

/// The price that `input` brings, where the live one is taken from `source`.
pub open spec fn price_in<F>(source: PriceSource, input: BinWSResponse<F>) -> Option<F> {
    match (input, source) {
        (BinWSResponse::AggTrade(t), PriceSource::Trades) => Some(t.p),
        (BinWSResponse::KlineTick(_, k), PriceSource::Candles) => Some(k.c),
        _ => None,
    }
}

/// Sorting takes what came in from its end: the assets and messages of `queue`
/// were taken in, the last one first.
pub open spec fn sorted_from_end<F: Copy>(
    c: Collected<F>,
    queue: Seq<(String, BinWSResponse<F>)>,
    symbol: Seq<char>,
) -> Collected<F>
    decreases queue.len(),
{
    if queue.len() == 0 {
        c
    } else {
        let (s, input) = queue.last();
        let next = if s@ == symbol {
            placed(c, input)
        } else {
            c
        };
        sorted_from_end(next, queue.drop_last(), symbol)
    }
}

impl WSTick {
    /// The channels are sound.
    pub open spec fn wf(&self) -> bool {
        self.sub_params.wf()
    }

    /// A stream without channels that takes its price from the trades.
    pub fn new() -> (r: Self)
        ensures
            r.wf(),
            r.watch_price_ty == PriceSource::Trades,
            r.sub_params@ == Map::<Seq<char>, Vec<String>>::empty(),
            !r.disconnect,
            !r.reconnect,
            r.change_symbol is None,
            r.symbol@ == Seq::<char>::empty(),
    {
        WSTick {
            watch_price_ty: PriceSource::Trades,
            sub_params: KeyMap::new(),
            disconnect: false,
            reconnect: false,
            change_symbol: None,
            symbol: String::new(),
        }
    }

    /// The live price is that of `symbol`.
    pub open spec fn follows(&self, symbol: Seq<char>) -> bool {
        self.symbol@ == symbol || self.symbol@.len() == 0
    }

    /// Takes what came in into the mailbox, and its price as the live one where
    /// it is of the asset on show. Hands back what the mailbox holds for the
    /// stream: whether to close, whether to connect again, and the asset to
    /// change to, which it then holds no more.
    pub fn append_tick<F: Copy>(
        &self,
        mailbox: &mut Mailbox<F>,
        live_price: &mut F,
        symbol: String,
        input: BinWSResponse<F>,
    ) -> (r: (bool, bool, Option<String>))
        ensures
            r == (old(mailbox).disconnect, old(mailbox).reconnect, old(mailbox).change_symbol),
            final(mailbox).queue@ == old(mailbox).queue@.push((symbol, input)),
            final(mailbox).disconnect == old(mailbox).disconnect,
            final(mailbox).reconnect == old(mailbox).reconnect,
            final(mailbox).params == old(mailbox).params,
            final(mailbox).change_symbol is None,
            *final(live_price) == (match price_in(self.watch_price_ty, input) {
                Some(p) => if self.follows(symbol@) {
                    p
                } else {
                    *old(live_price)
                },
                None => *old(live_price),
            }),
    {
        let follows = self.symbol.as_str().is_empty() || text::same(
            self.symbol.as_str(),
            symbol.as_str(),
        );
        match (input, self.watch_price_ty) {
            (BinWSResponse::AggTrade(t), PriceSource::Trades) => {
                if follows {
                    *live_price = t.p;
                }
            },
            (BinWSResponse::KlineTick(_, k), PriceSource::Candles) => {
                if follows {
                    *live_price = k.c;
                }
            },
            _ => {},
        }
        mailbox.queue.push((symbol, input));
        let change_symbol = mailbox.change_symbol.take();
        (mailbox.disconnect, mailbox.reconnect, change_symbol)
    }

    /// What to do next, with `n` messages taken in since the last sorting.
    pub fn collect_output(&self, n: usize, buffer_size: usize) -> (r: CollectStep)
        ensures
            r == (if n == 0 && self.disconnect {
                CollectStep::Close
            } else if n < buffer_size {
                CollectStep::Receive
            } else {
                CollectStep::Sort
            }),
    {
        if n == 0 && self.disconnect {
            CollectStep::Close
        } else if n < buffer_size {
            CollectStep::Receive
        } else {
            CollectStep::Sort
        }
    }

    /// The request to send before a message is received: where the asset is to
    /// change, it changes, and the request subscribes to the channels of the new
    /// one.
    pub fn before_receive(&mut self) -> (r: Option<String>)
        requires
            old(self).wf(),
        ensures
            final(self).wf(),
            match old(self).change_symbol {
                Some(s) => {
                    &&& r matches Some(m) && m@ == subscription(channels(lower(s@)))
                    &&& final(self).symbol@ == s@
                    &&& final(self).sub_params@.dom() == set![s@]
                    &&& json::views(final(self).sub_params@[s@]@) == channels(lower(s@))
                },
                None => {
                    &&& r is None
                    &&& final(self).symbol == old(self).symbol
                    &&& final(self).sub_params == old(self).sub_params
                },
            },
            final(self).change_symbol == old(self).change_symbol,
            final(self).disconnect == old(self).disconnect,
            final(self).reconnect == old(self).reconnect,
            final(self).watch_price_ty == old(self).watch_price_ty,
    {
        match &self.change_symbol {
            Some(s) => {
                let symbol = s.clone();
                let params = get_ws_params2(symbol.as_str());
                let message = subscribe_message(&params);
                self.sub_params = get_ws_params(symbol.as_str());
                self.symbol = symbol;
                Some(message)
            },
            None => None,
        }
    }

    /// Takes a message in. True where it counts: it was a trade or a candle, not
    /// the answer to a request.
    pub fn on_message<F: Copy, N: Fn(&str) -> Option<F>>(
        &mut self,
        mailbox: &mut Mailbox<F>,
        live_price: &mut F,
        message: &str,
        read: &N,
    ) -> (r: Result<bool, TickError>)
        requires
            reader::steady::<F, N>(*read),
        ensures
            match json::document(message@) {
                None => r == Err::<bool, TickError>(TickError::NoJson),
                Some(d) => if d.present.contains("/id"@) {
                    r == Ok::<bool, TickError>(false)
                } else if !tick::taken(d) {
                    r == Err::<bool, TickError>(TickError::NotTaken)
                } else {
                    match r {
                        Ok(b) => b && exists|symbol: String, input: BinWSResponse<F>| #[trigger]
                            tick::says::<F, N>(d, *read, Ok((symbol, input))) && final(mailbox).queue@ == old(mailbox).queue@.push((symbol, input)) && *final(live_price) == (match price_in(old(self).watch_price_ty, input) {
                                Some(p) => if old(self).follows(symbol@) {
                                    p
                                } else {
                                    *old(live_price)
                                },
                                None => *old(live_price),
                            }),
                        Err(e) => tick::says::<F, N>(d, *read, Err(e)),
                    }
                },
            },
            (if r == Ok::<bool, TickError>(true) {
                &&& final(self).disconnect == old(mailbox).disconnect
                &&& final(self).reconnect == old(mailbox).reconnect
                &&& final(self).change_symbol == old(mailbox).change_symbol
                &&& final(mailbox).change_symbol is None
                &&& final(mailbox).disconnect == old(mailbox).disconnect
                &&& final(mailbox).reconnect == old(mailbox).reconnect
                &&& final(mailbox).params == old(mailbox).params
            } else {
                &&& *final(self) == *old(self)
                &&& *final(mailbox) == *old(mailbox)
                &&& *final(live_price) == *old(live_price)
            }),
            final(self).symbol == old(self).symbol,
            final(self).sub_params == old(self).sub_params,
            final(self).watch_price_ty == old(self).watch_price_ty,
    {
        match tick::read_message(message, read) {
            Err(e) => Err(e),
            Ok(None) => Ok(false),
            Ok(Some((symbol, input))) => {
                let (disconnect, reconnect, change_symbol) = self.append_tick(
                    mailbox,
                    live_price,
                    symbol,
                    input,
                );
                self.disconnect = disconnect;
                self.reconnect = reconnect;
                self.change_symbol = change_symbol;
                Ok(true)
            },
        }
    }

    /// Sorts what came in, the last message first.
    pub fn sort<F: Copy>(mailbox: &mut Mailbox<F>, sorted: &mut Sorted<F>)
        requires
            sorted_wf(*old(sorted)),
        ensures
            sorted_wf(*final(sorted)),
            forall|k: Seq<char>| #[trigger]
                collected_for(*final(sorted), k) == sorted_from_end(
                    collected_for(*old(sorted), k),
                    old(mailbox).queue@,
                    k,
                ),
            final(mailbox).queue@.len() == 0,
            final(mailbox).disconnect == old(mailbox).disconnect,
            final(mailbox).reconnect == old(mailbox).reconnect,
            final(mailbox).params == old(mailbox).params,
            final(mailbox).change_symbol == old(mailbox).change_symbol,
    {
        let ghost start = *sorted;
        let ghost queue = mailbox.queue@;
        while mailbox.queue.len() > 0
            invariant
                sorted_wf(*sorted),
                mailbox.disconnect == old(mailbox).disconnect,
                mailbox.reconnect == old(mailbox).reconnect,
                mailbox.params == old(mailbox).params,
                mailbox.change_symbol == old(mailbox).change_symbol,
                forall|k: Seq<char>|
                    sorted_from_end(#[trigger] collected_for(*sorted, k), mailbox.queue@, k)
                        == sorted_from_end(collected_for(start, k), queue, k),
            decreases mailbox.queue@.len(),
        {
            let ghost q = mailbox.queue@;
            let ghost now = *sorted;
            if let Some((symbol, input)) = mailbox.queue.pop() {
                assert(mailbox.queue@ =~= q.drop_last());
                place_unsorted(sorted, symbol, input);
                assert forall|k: Seq<char>|
                    sorted_from_end(#[trigger] collected_for(*sorted, k), mailbox.queue@, k)
                        == sorted_from_end(collected_for(start, k), queue, k) by {
                    let c = collected_for(now, k);
                    assert(sorted_from_end(c, q, k) == sorted_from_end(
                        collected_for(start, k),
                        queue,
                        k,
                    ));
                }
            }
        }
    }

    /// Between two connections: takes over what the mailbox asks for.
    pub fn refresh<F: Copy>(&mut self, mailbox: &Mailbox<F>)
        requires
            mailbox.wf(),
        ensures
            final(self).wf(),
            final(self).reconnect == mailbox.reconnect,
            final(self).disconnect == mailbox.disconnect,
            same_channels(final(self).sub_params, mailbox.params),
            final(self).symbol == old(self).symbol,
            final(self).change_symbol == old(self).change_symbol,
            final(self).watch_price_ty == old(self).watch_price_ty,
    {
        self.reconnect = mailbox.reconnect;
        self.disconnect = mailbox.disconnect;
        self.sub_params = copy_params(&mailbox.params);
    }
}

/// Both have the same channels for the same assets.
pub open spec fn same_channels(a: Params, b: Params) -> bool {
    &&& a@.dom() == b@.dom()
    &&& forall|k: Seq<char>| #[trigger]
        a@.dom().contains(k) ==> json::views(a@[k]@) == json::views(b@[k]@)
}

/// The same texts once more.
fn copy_texts(v: &Vec<String>) -> (r: Vec<String>)
    ensures
        json::views(r@) == json::views(v@),
{
    let mut out: Vec<String> = Vec::new();
    let mut i: usize = 0;
    while i < v.len()
        invariant
            i <= v@.len(),
            json::views(out@) == json::views(v@.take(i as int)),
        decreases v@.len() - i,
    {
        let ghost before = out@;
        out.push(v[i].clone());
        assert(json::views(out@) =~= json::views(before).push(v@[i as int]@));
        assert(json::views(v@.take(i + 1)) =~= json::views(v@.take(i as int)).push(v@[i as int]@));
        i += 1;
    }
    assert(v@.take(v@.len() as int) =~= v@);
    out
}

/// The same channels once more.
pub fn copy_params(p: &Params) -> (r: Params)
    requires
        p.wf(),
    ensures
        r.wf(),
        same_channels(r, *p),
{
    let mut out: Params = KeyMap::new();
    let mut i: usize = 0;
    let ghost entries = p.listed();
    proof {
        p.listing();
    }
    while i < p.len()
        invariant
            i <= entries.len(),
            entries == p.listed(),
            out.wf(),
            p.wf(),
            forall|j: int|
                0 <= j < entries.len() ==> {
                    let e = #[trigger] entries[j];
                    p@.dom().contains(e.0@) && p@[e.0@] == e.1
                },
            forall|k: Seq<char>| #[trigger]
                out@.dom().contains(k) <==> exists|j: int| 0 <= j < i && entries[j].0@ == k,
            forall|k: Seq<char>| #[trigger]
                out@.dom().contains(k) ==> json::views(out@[k]@) == json::views(p@[k]@),
        decreases entries.len() - i,
    {
        let e = p.entry(i);
        let ghost before = out@;
        let _ = out.insert(e.0.clone(), copy_texts(&e.1));
        assert(p@.dom().contains(entries[i as int].0@));
        assert forall|k: Seq<char>| #[trigger]
            out@.dom().contains(k) <==> exists|j: int| 0 <= j < i + 1 && entries[j].0@ == k by {
            if out@.dom().contains(k) {
                if k == e.0@ {
                    assert(entries[i as int].0@ == k);
                } else {
                    assert(before.dom().contains(k));
                    let j = choose|j: int| 0 <= j < i && entries[j].0@ == k;
                    assert(entries[j].0@ == k);
                }
            }
            if exists|j: int| 0 <= j < i + 1 && entries[j].0@ == k {
                let j = choose|j: int| 0 <= j < i + 1 && entries[j].0@ == k;
                if j < i {
                    assert(before.dom().contains(k));
                }
            }
        }
        i += 1;
    }
    assert forall|k: Seq<char>| out@.dom().contains(k) == p@.dom().contains(k) by {
        if out@.dom().contains(k) {
            let j = choose|j: int| 0 <= j < i && entries[j].0@ == k;
            assert(p@.dom().contains(entries[j].0@));
        }
        if p@.dom().contains(k) {
            assert(p@ == crate::keymap::contents(entries));
            assert(crate::keymap::lists(entries, k));
            let j = choose|j: int| crate::keymap::is_at(entries, k, j);
            assert(entries[j].0@ == k);
        }
    }
    assert(out@.dom() =~= p@.dom());
    out
}

/// A candle leaves the closed ones and the open states of every other interval exactly as
/// they were, and the trades too.
pub proof fn candle_leaves_other_intervals<F>(
    c: Collected<F>,
    i: Intv,
    k: KlineTick<F>,
    j: Intv,
)
    requires
        j != i,
    ensures
        ({
            let after = placed(c, BinWSResponse::KlineTick(i, k));
            &&& after.closed.dom().contains(j) <==> c.closed.dom().contains(j)
            &&& after.closed[j] == c.closed[j]
            &&& after.open.dom().contains(j) <==> c.open.dom().contains(j)
            &&& after.open[j] == c.open[j]
            &&& after.trades == c.trades
        }),
{
}

/// A candle that closes comes behind those of its interval that have closed before; it is
/// the first one where there is none.
pub proof fn closed_candle_comes_behind<F>(c: Collected<F>, i: Intv, k: KlineTick<F>)
    requires
        k.x,
    ensures
        ({
            let after = placed(c, BinWSResponse::KlineTick(i, k));
            &&& after.closed.dom() == c.closed.dom().insert(i)
            &&& after.closed[i].last() == k
            &&& c.closed.dom().contains(i) ==> after.closed[i].drop_last() == c.closed[i]
                && after.closed[i].len() == c.closed[i].len() + 1
            &&& !c.closed.dom().contains(i) ==> after.closed[i].len() == 1
            &&& c.open.dom().contains(i) ==> after.open.dom().contains(i)
        }),
{
    let after = placed(c, BinWSResponse::KlineTick(i, k));
    if c.closed.dom().contains(i) {
        assert(after.closed[i].drop_last() =~= c.closed[i]);
    }
    assert(after.closed.dom() =~= c.closed.dom().insert(i));
}

/// A candle that is still open comes behind the states of its interval, and the candles
/// that have closed stay as they are.
pub proof fn open_candle_comes_behind<F>(c: Collected<F>, i: Intv, k: KlineTick<F>)
    requires
        !k.x,
    ensures
        ({
            let after = placed(c, BinWSResponse::KlineTick(i, k));
            &&& after.closed == c.closed
            &&& after.open.dom() == c.open.dom().insert(i)
            &&& after.open[i].last() == k
            &&& c.open.dom().contains(i) ==> after.open[i].drop_last() == c.open[i]
                && after.open[i].len() == c.open[i].len() + 1
            &&& !c.open.dom().contains(i) ==> after.open[i].len() == 1
        }),
{
    let after = placed(c, BinWSResponse::KlineTick(i, k));
    if c.open.dom().contains(i) {
        assert(after.open[i].drop_last() =~= c.open[i]);
    }
    assert(after.open.dom() =~= c.open.dom().insert(i));
}

/// A trade comes behind those before it, and no candle changes.
pub proof fn trade_comes_behind<F>(c: Collected<F>, t: AggTradeWS<F>)
    ensures
        ({
            let after = placed(c, BinWSResponse::AggTrade(t));
            &&& after.trades.last() == t
            &&& after.trades.drop_last() == c.trades
            &&& after.trades.len() == c.trades.len() + 1
            &&& after.closed == c.closed
            &&& after.open == c.open
        }),
{
    assert(c.trades.push(t).drop_last() =~= c.trades);
}

/// Where nothing came in there is no trade, and no list of candles for any interval.
pub proof fn nothing_holds_nothing<F>(i: Intv)
    ensures
        nothing::<F>().trades.len() == 0,
        !nothing::<F>().closed.dom().contains(i),
        !nothing::<F>().open.dom().contains(i),
{
}

/// What came in for an asset is read off its own lists, interval by interval, and is nothing
/// for an asset of which nothing was heard.
pub proof fn collected_is_read_off_the_lists<F: Copy>(
    out: SymbolOutput<F>,
    sorted: Sorted<F>,
    symbol: Seq<char>,
    i: Intv,
)
    ensures
        out.collected().trades == out.agg_trade@,
        out.collected().closed.dom().contains(i) <==> out.closed_klines@.dom().contains(i),
        out.closed_klines@.dom().contains(i) ==> out.collected().closed[i]
            == out.closed_klines@[i]@,
        out.collected().open.dom().contains(i) <==> out.all_klines@.dom().contains(i),
        out.all_klines@.dom().contains(i) ==> out.collected().open[i] == out.all_klines@[i]@,
        sorted@.dom().contains(symbol) ==> collected_for(sorted, symbol)
            == sorted@[symbol].collected(),
        !sorted@.dom().contains(symbol) ==> collected_for(sorted, symbol).trades.len() == 0
            && !collected_for(sorted, symbol).closed.dom().contains(i) && !collected_for(
            sorted,
            symbol,
        ).open.dom().contains(i),
{
}

/// Sorting one message takes it in for its own asset, and leaves every other asset alone.
pub proof fn one_message_goes_to_its_asset<F: Copy>(
    c: Collected<F>,
    message: (String, BinWSResponse<F>),
    symbol: Seq<char>,
)
    ensures
        sorted_from_end(c, seq![message], symbol) == (if message.0@ == symbol {
            placed(c, message.1)
        } else {
            c
        }),
        sorted_from_end(c, Seq::empty(), symbol) == c,
{
    reveal_with_fuel(sorted_from_end, 3);
    assert(seq![message].drop_last() =~= Seq::empty());
}

/// Sorting the messages `a` and then `b` takes in those of `b` before those of `a`: the one
/// that came last is the first.
pub proof fn later_messages_are_sorted_first<F: Copy>(
    c: Collected<F>,
    a: Seq<(String, BinWSResponse<F>)>,
    b: Seq<(String, BinWSResponse<F>)>,
    symbol: Seq<char>,
)
    ensures
        sorted_from_end(c, a + b, symbol) == sorted_from_end(
            sorted_from_end(c, b, symbol),
            a,
            symbol,
        ),
    decreases b.len(),
{
    if b.len() == 0 {
        assert(a + b =~= a);
    } else {
        assert((a + b).last() == b.last());
        assert((a + b).drop_last() =~= a + b.drop_last());
        let (s, input) = b.last();
        let next = if s@ == symbol {
            placed(c, input)
        } else {
            c
        };
        later_messages_are_sorted_first(next, a, b.drop_last(), symbol);
    }
}

/// Messages of other assets change nothing of an asset.
pub proof fn other_assets_change_nothing<F: Copy>(
    c: Collected<F>,
    queue: Seq<(String, BinWSResponse<F>)>,
    symbol: Seq<char>,
)
    requires
        forall|i: int| 0 <= i < queue.len() ==> (#[trigger] queue[i]).0@ != symbol,
    ensures
        sorted_from_end(c, queue, symbol) == c,
    decreases queue.len(),
{
    if queue.len() > 0 {
        other_assets_change_nothing(c, queue.drop_last(), symbol);
    }
}

/// The live price comes from the trades where those are watched and from the closing price
/// of the candles where these are; a message of the other kind brings none.
pub proof fn live_price_comes_from_its_source<F>(
    t: AggTradeWS<F>,
    i: Intv,
    k: KlineTick<F>,
)
    ensures
        price_in(PriceSource::Trades, BinWSResponse::AggTrade(t)) == Some(t.p),
        price_in(PriceSource::Candles, BinWSResponse::KlineTick(i, k)) == Some(k.c),
        price_in(PriceSource::Trades, BinWSResponse::KlineTick(i, k)) is None,
        price_in(PriceSource::Candles, BinWSResponse::AggTrade(t)) is None,
{
}

/// The live price is that of the asset on show, and that of any asset while none is.
pub proof fn the_asset_on_show_is_followed(ws: WSTick, symbol: Seq<char>)
    ensures
        ws.symbol@.len() == 0 ==> ws.follows(symbol),
        ws.symbol@.len() > 0 ==> (ws.follows(symbol) <==> symbol == ws.symbol@),
{
}

/// The channels of an asset are that of its trades and then one for the candles of each
/// interval, in the order of the intervals.
pub proof fn channels_are_those_of_all_intervals(name: Seq<char>, i: Intv)
    ensures
        channels(name).len() == 1 + intv::INTV_COUNT,
        channels(name)[0] == name + "@aggTrade"@,
        channels(name)[1 + i.place()] == name + "@kline_"@ + i.bin_name(),
{
    Intv::intervals_are_all(i);
}

/// What the channels of an asset end with.
pub proof fn channels_end_with_their_kind()
    ensures
        ChannelKind::OrderBook.suffix() == "@bookTicker"@,
        ChannelKind::AggTrade.suffix() == "@aggTrade"@,
        ChannelKind::Trade.suffix() == "@Trade"@,
{
}

/// The channels of all entries are those of the first ones followed by those of the next.
pub proof fn every_entry_brings_its_channels(
    entries: Seq<(String, Vec<String>)>,
    n: int,
    j: int,
)
    requires
        0 <= n < entries.len(),
        0 <= j < entries[n].1@.len(),
    ensures
        all_channels(entries, 0).len() == 0,
        all_channels(entries, n + 1).len() == all_channels(entries, n).len()
            + entries[n].1@.len(),
        all_channels(entries, n + 1)[all_channels(entries, n).len() + j] == entries[n].1@[j]@,
        all_channels(entries, n + 1).take(all_channels(entries, n).len() as int) == all_channels(
            entries,
            n,
        ),
{
    let before = all_channels(entries, n);
    let after = all_channels(entries, n + 1);
    assert(after == before + json::views(entries[n].1@));
    assert(after.take(before.len() as int) =~= before);
}

/// The request that subscribes names its method and holds the list of the channels.
pub proof fn subscription_holds_the_channels(channels: Seq<Seq<char>>)
    ensures
        subscription(channels) == "{\"id\":1,\"method\":\"SUBSCRIBE\",\"params\":"@
            + json::list_text(channels) + "}"@,
{
}

/// Two sets of channels are the same where they name the same assets, and the same channels
/// for each.
pub proof fn same_channels_name_the_same(a: Params, b: Params, k: Seq<char>, i: int)
    requires
        same_channels(a, b),
    ensures
        a@.dom().contains(k) <==> b@.dom().contains(k),
        a@.dom().contains(k) ==> a@[k]@.len() == b@[k]@.len(),
        a@.dom().contains(k) && 0 <= i < a@[k]@.len() ==> a@[k]@[i]@ == b@[k]@[i]@,
{
    if a@.dom().contains(k) {
        assert(json::views(a@[k]@).len() == json::views(b@[k]@).len());
        if 0 <= i < a@[k]@.len() {
            assert(json::views(a@[k]@)[i] == json::views(b@[k]@)[i]);
        }
    }
}

} // verus!
