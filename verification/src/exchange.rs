//! The client of the exchange: what an instruction takes, step by step, and what
//! each answer changes.
//!
//! The client itself sends nothing. It says which [`Chore`] comes next and takes
//! the [`Answer`] to it, until it has the response to the instruction.

use crate::intv::Intv;
use crate::keymap::KeyMap;
use crate::live::{KeysStatus, LiveAsset, LiveInfo};
use crate::message::{BinInstructs, BinResponse, GeneralError};
use crate::num;
use crate::num::Number;
use crate::orders;
use crate::orders::{BinanceOrder, LiveOrders, OrderRequest, PairBalance};
use crate::reader;
use crate::settings::Settings;
use crate::stream;
use crate::stream::{Mailbox, Params};
use crate::text;
use crate::trade::Order;
use vstd::prelude::*;

verus! {

/// How many messages are taken in between two sortings.
pub const DEFAULT_BUFFER_SIZE: usize = 50;

/// How long to wait between two looks at the open orders, in milliseconds.
pub const ORDER_CHECK_INTV_MS: u64 = 500;

/// The balance of one asset in an account: its name, what is free, what is
/// locked.
pub type AccountEntry<F> = (String, F, F);

/// The balances of the first `n` entries: of an asset that comes twice, the
/// later one.
pub open spec fn balances_of<F>(account: Seq<AccountEntry<F>>, n: int) -> Map<Seq<char>, (F, F)>
    decreases n,
{
    if n <= 0 {
        Map::empty()
    } else {
        let e = account[n - 1];
        balances_of(account, n - 1).insert(e.0@, (e.1, e.2))
    }
}

/// The balances of an account; none where it could not be had.
pub open spec fn account_balances<F>(account: Option<Vec<AccountEntry<F>>>) -> Map<
    Seq<char>,
    (F, F),
> {
    match account {
        Some(a) => balances_of(a@, a@.len() as int),
        None => Map::empty(),
    }
}

/// The balances of an account.
pub fn read_balances<F: Copy>(account: &Option<Vec<AccountEntry<F>>>) -> (r: KeyMap<
    String,
    (F, F),
>)
    ensures
        r.wf(),
        r@ == account_balances(*account),
{
    let mut out: KeyMap<String, (F, F)> = KeyMap::new();
    if let Some(entries) = account {
        let mut i: usize = 0;
        while i < entries.len()
            invariant
                out.wf(),
                i <= entries@.len(),
                out@ == balances_of(entries@, i as int),
            decreases entries@.len() - i,
        {
            let e = &entries[i];
            let _ = out.insert(e.0.clone(), (e.1, e.2));
            i += 1;
        }
    }
    out
}

/// What is asked of the exchange.
#[derive(Debug)]
pub enum Chore<F> {
    /// Cancel one order.
    CancelOrder { symbol: String, id: u64 },
    /// Cancel every order on an asset.
    CancelAll { symbol: String },
    /// Place an order.
    Place { request: OrderRequest<F> },
    /// Fetch the open orders.
    OpenOrders,
    /// Fetch the balances of the account.
    Account,
    /// Look up the two assets that an asset pair is made of.
    Bases { symbol: String },
    /// Look up whether the exchange has an asset.
    Validate { symbol: String },
    /// Run the stream with these channels.
    Connect { params: Params },
    /// Fetch the account with new keys, and use them from then on if that works.
    TryKeys { pub_key: String, priv_key: String },
    /// Use no keys from then on.
    DropKeys,
    /// Begin to fetch the candles of an asset.
    FirstData { symbol: String },
    /// Fetch the account for its own sake.
    UserData,
}

/// What the exchange answered: to each chore an answer of its kind, or the text
/// of the error.
#[derive(Debug)]
pub enum Answer<F> {
    Done(Result<(), String>),
    Orders(Result<Vec<BinanceOrder<F>>, String>),
    Account(Result<Vec<AccountEntry<F>>, String>),
    Bases(Result<Option<(String, String)>, String>),
    Valid(Result<bool, String>),
}

/// Where an instruction stands.
#[derive(Debug)]
pub enum Stage<F, S> {
    /// The response is there.
    Respond(BinResponse),
    /// The answer is the response.
    Answered,
    /// An order was to be canceled.
    Canceling,
    /// An order was to be canceled, so that another can take its place.
    Replacing { symbol: String, o: Order<F, S> },
    /// An order was to be placed; `replaced` where another one was canceled for
    /// it.
    Placing { replaced: bool },
    /// An order was placed; the balances are on their way.
    PlacedBalances,
    /// The open orders are on their way; then this is the response.
    OrdersThen(BinResponse),
    /// The balances of the account are on their way.
    AllBalances,
    /// The balances are on their way, for one pair.
    PairAccount { symbol: String },
    /// The names of that pair are on their way.
    PairBases { symbol: String, account: Option<Vec<AccountEntry<F>>> },
    /// New keys were tried.
    Keys,
    /// Whether the exchange has an asset is on its way; `quick` where the stream
    /// stays connected.
    Validating { symbol: String, quick: bool },
    /// The candles of the asset were asked for.
    Fetching { symbol: String, then: AfterRefresh },
    /// The open orders are on their way, to bring the asset up to date.
    RefreshOrders { symbol: String, then: AfterRefresh },
    /// Then its balances.
    RefreshAccount { symbol: String, then: AfterRefresh },
    /// Then the names of its pair, to find the balances.
    RefreshBalances {
        symbol: String,
        account: Option<Vec<AccountEntry<F>>>,
        then: AfterRefresh,
    },
    /// Then those names, to show them.
    RefreshPair { symbol: String, then: AfterRefresh },
    /// Whether the exchange has the first asset is on its way.
    StartValidating { symbol: String },
    /// The candles of the first asset were asked for.
    StartFetching { symbol: String },
    /// Its open orders are on their way.
    StartOrders { symbol: String },
    /// Then its balances.
    StartAccount { symbol: String },
    /// Then the names of its pair.
    StartBalances { symbol: String, account: Option<Vec<AccountEntry<F>>> },
}

/// What is left to do once an asset is up to date.
#[derive(Debug)]
pub enum AfterRefresh {
    /// Give this response.
    Respond(BinResponse),
    /// Let the stream connect again; that is a success.
    Reconnect,
}

/// What comes next.
#[derive(Debug)]
pub enum Next<F, S> {
    /// This chore; its answer goes to this stage.
    Do(Chore<F>, Stage<F, S>),
    /// The response.
    Done(BinResponse),
}

/// The client.
#[derive(Debug)]
pub struct BinanceClient<F, S> {
    pub current_order_id: u64,
    pub ws_buffer_size: usize,
    /// Whether there is a stream.
    pub has_stream: bool,
    pub api_keys_valid: bool,
    pub current_symbol: String,
    /// Free and locked amounts of the first asset of the pair.
    pub base_balances: (F, F),
    /// Free and locked amounts of the second asset of the pair.
    pub qoute_balances: (F, F),
    pub balances: KeyMap<String, (F, F)>,
    pub current_symbol_bases: (String, String),
    pub live_orders: LiveOrders<F, S>,
    pub stop_client: bool,
    pub ws_connect: bool,
    pub default_symbol: String,
    pub default_intv: Intv,
}

/// The error of a pair whose asset `name` is not in the account.
pub open spec fn missing_text(name: Seq<char>) -> Seq<char> {
    "Base asset: "@ + name + " not found in balances!"@
}

/// The text of the response to an asset that the exchange does not have.
pub open spec fn unknown_asset_text(symbol: Seq<char>) -> Seq<char> {
    "Cannot find asset on binance:"@ + symbol
}

/// The response to an asset that the exchange does not have.
pub open spec fn is_unknown_asset(r: BinResponse, symbol: Seq<char>) -> bool {
    r matches BinResponse::Failure((t, GeneralError::Generic)) && t@ == unknown_asset_text(symbol)
}

/// The response to a result.
pub open spec fn response_of(r: Result<(), String>) -> BinResponse {
    match r {
        Ok(_) => BinResponse::Success,
        Err(e) => BinResponse::Failure((e, GeneralError::Generic)),
    }
}

/// The parts of a client that looking up a pair can change are as in `b`.
pub open spec fn same_pair<F, S>(a: BinanceClient<F, S>, b: BinanceClient<F, S>) -> bool {
    &&& a.current_symbol == b.current_symbol
    &&& a.base_balances == b.base_balances
    &&& a.qoute_balances == b.qoute_balances
    &&& a.balances == b.balances
    &&& a.current_symbol_bases == b.current_symbol_bases
}

/// All other parts of a client, but for the open orders, are as in `b`.
pub open spec fn same_rest<F, S>(a: BinanceClient<F, S>, b: BinanceClient<F, S>) -> bool {
    &&& a.current_order_id == b.current_order_id
    &&& a.ws_buffer_size == b.ws_buffer_size
    &&& a.has_stream == b.has_stream
    &&& a.api_keys_valid == b.api_keys_valid
    &&& a.stop_client == b.stop_client
    &&& a.ws_connect == b.ws_connect
    &&& a.default_symbol == b.default_symbol
    &&& a.default_intv == b.default_intv
}

/// The balances of the pair, as orders are held against them.
pub open spec fn pair_balance<F, S>(c: BinanceClient<F, S>) -> PairBalance<F> {
    PairBalance {
        locked_a1: c.base_balances.1,
        locked_a2: c.qoute_balances.1,
        free_a1: c.base_balances.0,
        free_a2: c.qoute_balances.0,
    }
}

impl<F: Number + From<S>, S: Number> BinanceClient<F, S> {
    /// Each asset has one balance, each number one order.
    pub open spec fn wf(&self) -> bool {
        self.balances.wf() && self.live_orders.wf()
    }

    /// A client that knows nothing yet. Its stream takes in fifteen messages
    /// between two sortings.
    pub fn new() -> (r: Self)
        requires
            num::lawful::<F>(),
        ensures
            r.wf(),
            r.current_order_id == 0,
            r.ws_buffer_size == 15,
            r.has_stream,
            !r.api_keys_valid,
            r.current_symbol@ == Seq::<char>::empty(),
            r.base_balances == (num::lit::<F>(0), num::lit::<F>(0)),
            r.qoute_balances == (num::lit::<F>(0), num::lit::<F>(0)),
            r.balances@ == Map::<Seq<char>, (F, F)>::empty(),
            r.current_symbol_bases.0@ == Seq::<char>::empty(),
            r.current_symbol_bases.1@ == Seq::<char>::empty(),
            r.live_orders@ == Map::<u64, (Order<F, S>, bool)>::empty(),
            !r.stop_client,
            !r.ws_connect,
            r.default_symbol@ == Seq::<char>::empty(),
            r.default_intv == Intv::Min1,
    {
        let zero: F = num::whole(0);
        BinanceClient {
            current_order_id: 0,
            ws_buffer_size: 15,
            has_stream: true,
            api_keys_valid: false,
            current_symbol: String::new(),
            base_balances: (zero, zero),
            qoute_balances: (zero, zero),
            balances: KeyMap::new(),
            current_symbol_bases: (String::new(), String::new()),
            live_orders: KeyMap::new(),
            stop_client: false,
            ws_connect: false,
            default_symbol: String::new(),
            default_intv: Intv::Min1,
        }
    }

    /// Takes the default asset over from the settings.
    pub fn update_settings(&mut self, settings: &Settings<F>)
        ensures
            final(self).default_symbol == settings.default_asset,
            *final(self) == (BinanceClient { default_symbol: settings.default_asset, ..*old(self) }),
    {
        self.default_symbol = settings.default_asset.clone();
    }

    /// Takes the open orders in, each active under its number. An error leaves
    /// them as they were.
    pub fn get_open_orders_binance<N: Fn(F) -> S>(
        &mut self,
        orders: &Result<Vec<BinanceOrder<F>>, String>,
        narrow: &N,
    )
        requires
            num::lawful::<F>(),
            reader::pure::<F, S, N>(*narrow),
            old(self).wf(),
            orders matches Ok(o) ==> orders::orders_defined(o@, pair_balance(*old(self))),
        ensures
            final(self).wf(),
            final(self).live_orders@ == (match *orders {
                Ok(o) => orders::with_orders::<F, S, N>(
                    old(self).live_orders@,
                    o@,
                    pair_balance(*old(self)),
                    *narrow,
                    o@.len() as int,
                ),
                Err(_) => old(self).live_orders@,
            }),
            same_pair(*final(self), *old(self)),
            same_rest(*final(self), *old(self)),
    {
        if let Ok(o) = orders {
            let b = PairBalance {
                locked_a1: self.base_balances.1,
                locked_a2: self.qoute_balances.1,
                free_a1: self.base_balances.0,
                free_a2: self.qoute_balances.0,
            };
            orders::put_orders(&mut self.live_orders, o, &b, narrow);
        }
    }

    /// Takes in the balances of the pair `symbol`, whose two assets are `bases`,
    /// from an account. Where the pair has no assets, nothing changes. Both
    /// assets must be in the account.
    pub fn get_balances(
        &mut self,
        symbol: &String,
        account: &Option<Vec<AccountEntry<F>>>,
        bases: &Result<Option<(String, String)>, String>,
    ) -> (r: Result<(), String>)
        requires
            old(self).wf(),
        ensures
            final(self).wf(),
            ({
                let m = account_balances(*account);
                match *bases {
                    Err(e) => r == Err::<(), String>(e) && same_pair(*final(self), *old(self)),
                    Ok(None) => r is Ok && same_pair(*final(self), *old(self)),
                    Ok(Some((base, qoute))) => {
                        &&& r is Ok <==> m.dom().contains(base@) && m.dom().contains(qoute@)
                        &&& r matches Err(e) ==> e@ == missing_text(
                            if m.dom().contains(base@) {
                                qoute@
                            } else {
                                base@
                            },
                        ) && same_pair(*final(self), *old(self))
                        &&& r is Ok ==> {
                            &&& final(self).current_symbol == *symbol
                            &&& final(self).base_balances == m[base@]
                            &&& final(self).qoute_balances == m[qoute@]
                            &&& final(self).balances@ == m
                            &&& final(self).current_symbol_bases == (base, qoute)
                        }
                    },
                }
            }),
            final(self).live_orders == old(self).live_orders,
            same_rest(*final(self), *old(self)),
    {
        match bases {
            Err(e) => Err(e.clone()),
            Ok(None) => Ok(()),
            Ok(Some((base, qoute))) => {
                let balances = read_balances(account);
                let b = match balances.get(base) {
                    Some(b) => *b,
                    None => return Err(
                        text::join3("Base asset: ", base.as_str(), " not found in balances!"),
                    ),
                };
                let q = match balances.get(qoute) {
                    Some(q) => *q,
                    None => return Err(
                        text::join3("Base asset: ", qoute.as_str(), " not found in balances!"),
                    ),
                };
                self.current_symbol = symbol.clone();
                self.base_balances = b;
                self.qoute_balances = q;
                self.balances = balances;
                self.current_symbol_bases = (base.clone(), qoute.clone());
                Ok(())
            },
        }
    }

    /// Takes the open orders over that the watch on them left.
    pub fn adopt_orders(&mut self, live_info: &LiveInfo<F, S>)
        requires
            old(self).wf(),
            live_info.wf(),
        ensures
            final(self).wf(),
            final(self).live_orders@ == live_info.live_orders@,
            same_pair(*final(self), *old(self)),
            same_rest(*final(self), *old(self)),
    {
        self.live_orders = live_info.live_orders.duplicate();
    }

    /// Tells what is known of the asset `symbol` to those who show it.
    pub fn publish(&self, symbol: &String, asset: &mut LiveAsset<F>)
        requires
            self.wf(),
        ensures
            final(asset).wf(),
            final(asset).acc_balances@ == self.balances@,
            final(asset).live_asset_symbol_changed == (true, *symbol),
            final(asset).current_pair_strings == self.current_symbol_bases,
            final(asset).current_pair_free_balances == (
                self.base_balances.0,
                self.qoute_balances.0,
            ),
            final(asset).current_pair_locked_balances == (
                self.base_balances.1,
                self.qoute_balances.1,
            ),
    {
        asset.acc_balances = self.balances.duplicate();
        asset.live_asset_symbol_changed = (true, symbol.clone());
        asset.current_pair_strings = (
            self.current_symbol_bases.0.clone(),
            self.current_symbol_bases.1.clone(),
        );
        asset.current_pair_free_balances = (self.base_balances.0, self.qoute_balances.0);
        asset.current_pair_locked_balances = (self.base_balances.1, self.qoute_balances.1);
    }

    /// Whether the exchange took new keys.
    pub fn add_replace_api_keys(&mut self, live_info: &mut LiveInfo<F, S>, accepted: bool)
        ensures
            *final(self) == (BinanceClient { api_keys_valid: accepted, ..*old(self) }),
            *final(live_info) == (LiveInfo {
                keys_status: if accepted {
                    KeysStatus::Valid
                } else {
                    KeysStatus::Invalid
                },
                ..*old(live_info)
            }),
    {
        self.api_keys_valid = accepted;
        live_info.keys_status = if accepted {
            KeysStatus::Valid
        } else {
            KeysStatus::Invalid
        };
    }

    /// The response to an asset that the exchange does not have.
    fn unknown_asset(symbol: &String) -> (r: BinResponse)
        ensures
            is_unknown_asset(r, symbol@),
    {
        BinResponse::Failure(
            (
                text::join2("Cannot find asset on binance:", symbol.as_str()),
                GeneralError::Generic,
            ),
        )
    }

    /// An order can be put into a request now.
    pub open spec fn can_place<C: Fn(F) -> F, D: Fn(S) -> S>(
        &self,
        o: Order<F, S>,
        trunc: C,
        trunc_short: D,
    ) -> bool {
        &&& o != Order::<F, S>::Nothing
        &&& orders::requests(
            o,
            self.qoute_balances.0,
            self.base_balances.0,
            trunc,
            trunc_short,
        )
    }

    /// The request that places the order `o` on `symbol` now.
    pub open spec fn place_request<C: Fn(F) -> F, D: Fn(S) -> S>(
        &self,
        symbol: String,
        o: Order<F, S>,
        trunc: C,
        trunc_short: D,
    ) -> OrderRequest<F> {
        orders::request_of(
            symbol,
            o,
            self.qoute_balances.0,
            self.base_balances.0,
            trunc,
            trunc_short,
        )
    }

    /// The request that places the order `o` on `symbol` now.
    pub fn send_new_order<C: Fn(F) -> F, D: Fn(S) -> S>(
        &self,
        symbol: &String,
        o: &Order<F, S>,
        trunc: &C,
        trunc_short: &D,
    ) -> (r: OrderRequest<F>)
        requires
            num::lawful::<F>(),
            num::lawful::<S>(),
            num::widens::<S, F>(),
            reader::pure::<F, F, C>(*trunc),
            reader::pure::<S, S, D>(*trunc_short),
            self.can_place(*o, *trunc, *trunc_short),
        ensures
            r == self.place_request(*symbol, *o, *trunc, *trunc_short),
    {
        orders::parse_to_binance(
            symbol,
            o,
            self.qoute_balances.0,
            self.base_balances.0,
            trunc,
            trunc_short,
        )
    }

    /// The first chore of an instruction, or its response.
    pub open spec fn first<C: Fn(F) -> F, D: Fn(S) -> S>(
        &self,
        i: BinInstructs<F, S>,
        trunc: C,
        trunc_short: D,
        next: Next<F, S>,
    ) -> bool {
        match i {
            BinInstructs::Nothing => next == Next::<F, S>::Done(BinResponse::Nothing),
            BinInstructs::ConnectWS { params } => if self.has_stream {
                next == Next::Do(Chore::Connect { params }, Stage::<F, S>::Answered)
            } else {
                next matches Next::Done(BinResponse::Failure((t, GeneralError::Generic))) && t@
                    == "Should be SOME here"@
            },
            BinInstructs::ReConnectWS => next == Next::Do(
                Chore::FirstData { symbol: self.current_symbol },
                Stage::<F, S>::Fetching {
                    symbol: self.current_symbol,
                    then: AfterRefresh::Respond(BinResponse::Success),
                },
            ),
            BinInstructs::ConnectUserWS { .. } => next == Next::<F, S>::Done(BinResponse::Success),
            BinInstructs::Disconnect => next == Next::<F, S>::Done(BinResponse::Success),
            BinInstructs::GetUserData => next == Next::Do(
                Chore::UserData,
                Stage::<F, S>::Answered,
            ),
            BinInstructs::UpdateSettings(_) => next == Next::<F, S>::Done(BinResponse::Success),
            BinInstructs::GetAllBalances => next == Next::Do(
                Chore::Account,
                Stage::<F, S>::AllBalances,
            ),
            BinInstructs::GetBalance { symbol } => next == Next::Do(
                Chore::Account,
                Stage::<F, S>::PairAccount { symbol },
            ),
            BinInstructs::AddReplaceApiKeys { pub_key, priv_key } => next == Next::Do(
                Chore::TryKeys { pub_key, priv_key },
                Stage::<F, S>::Keys,
            ),
            BinInstructs::RemoveApiKeys => next == Next::Do(
                Chore::DropKeys,
                Stage::<F, S>::Answered,
            ),
            BinInstructs::PlaceOrder { symbol, o } => next == Next::Do(
                Chore::Place { request: self.place_request(symbol, o, trunc, trunc_short) },
                Stage::<F, S>::Placing { replaced: false },
            ),
            BinInstructs::CancelAndReplaceOrder { id, symbol, o } => next == Next::Do(
                Chore::CancelOrder { symbol, id },
                Stage::<F, S>::Replacing { symbol, o },
            ),
            BinInstructs::CancelOrder { id, symbol, .. } => next == Next::Do(
                Chore::CancelOrder { symbol, id },
                Stage::<F, S>::Canceling,
            ),
            BinInstructs::CancelAllOrders { symbol } => next == Next::Do(
                Chore::CancelAll { symbol },
                Stage::<F, S>::Canceling,
            ),
            BinInstructs::ChangeLiveAsset { symbol, .. } => next == Next::Do(
                Chore::Validate { symbol },
                Stage::<F, S>::Validating { symbol, quick: false },
            ),
            BinInstructs::ChangeLiveAsset2 { symbol } => next == Next::Do(
                Chore::Validate { symbol },
                Stage::<F, S>::Validating { symbol, quick: true },
            ),
        }
    }

    /// Begins an instruction: says which chore comes first, or responds. The
    /// settings bring the default asset; a call for another connection or for
    /// none goes into the mailbox, where there is a stream.
    pub fn parse_binance_instructs<C: Fn(F) -> F, D: Fn(S) -> S>(
        &mut self,
        i: BinInstructs<F, S>,
        mailbox: &mut Mailbox<F>,
        trunc: &C,
        trunc_short: &D,
    ) -> (r: Next<F, S>)
        requires
            num::lawful::<F>(),
            num::lawful::<S>(),
            num::widens::<S, F>(),
            reader::pure::<F, F, C>(*trunc),
            reader::pure::<S, S, D>(*trunc_short),
            i matches BinInstructs::PlaceOrder { o, .. } ==> old(self).can_place(
                o,
                *trunc,
                *trunc_short,
            ),
        ensures
            old(self).first(i, *trunc, *trunc_short, r),
            *final(self) == (match i {
                BinInstructs::UpdateSettings(s) => BinanceClient {
                    default_symbol: s.default_asset,
                    ..*old(self)
                },
                _ => *old(self),
            }),
            *final(mailbox) == (match i {
                BinInstructs::ReConnectWS => if old(self).has_stream {
                    Mailbox { disconnect: false, reconnect: true, ..*old(mailbox) }
                } else {
                    *old(mailbox)
                },
                BinInstructs::Disconnect => if old(self).has_stream {
                    Mailbox { disconnect: true, reconnect: false, ..*old(mailbox) }
                } else {
                    *old(mailbox)
                },
                _ => *old(mailbox),
            }),
    {
        match i {
            BinInstructs::Nothing => Next::Done(BinResponse::Nothing),
            BinInstructs::ConnectWS { params } => {
                if self.has_stream {
                    Next::Do(Chore::Connect { params }, Stage::Answered)
                } else {
                    Next::Done(
                        BinResponse::Failure(
                            ("Should be SOME here".to_owned(), GeneralError::Generic),
                        ),
                    )
                }
            },
            BinInstructs::ReConnectWS => {
                self.disconnect_ws(mailbox);
                self.reconnect_ws(mailbox);
                let symbol = self.current_symbol.clone();
                Next::Do(
                    Chore::FirstData { symbol: self.current_symbol.clone() },
                    Stage::Fetching { symbol, then: AfterRefresh::Respond(BinResponse::Success) },
                )
            },
            BinInstructs::ConnectUserWS { .. } => Next::Done(BinResponse::Success),
            BinInstructs::Disconnect => {
                self.disconnect_ws(mailbox);
                Next::Done(BinResponse::Success)
            },
            BinInstructs::GetUserData => Next::Do(Chore::UserData, Stage::Answered),
            BinInstructs::UpdateSettings(settings) => {
                self.update_settings(&settings);
                Next::Done(BinResponse::Success)
            },
            BinInstructs::GetAllBalances => Next::Do(Chore::Account, Stage::AllBalances),
            BinInstructs::GetBalance { symbol } => Next::Do(
                Chore::Account,
                Stage::PairAccount { symbol },
            ),
            BinInstructs::AddReplaceApiKeys { pub_key, priv_key } => Next::Do(
                Chore::TryKeys { pub_key, priv_key },
                Stage::Keys,
            ),
            BinInstructs::RemoveApiKeys => Next::Do(Chore::DropKeys, Stage::Answered),
            BinInstructs::PlaceOrder { symbol, o } => {
                let request = self.send_new_order(&symbol, &o, trunc, trunc_short);
                Next::Do(Chore::Place { request }, Stage::Placing { replaced: false })
            },
            BinInstructs::CancelAndReplaceOrder { id, symbol, o } => Next::Do(
                Chore::CancelOrder { symbol: symbol.clone(), id },
                Stage::Replacing { symbol, o },
            ),
            BinInstructs::CancelOrder { id, symbol, .. } => Next::Do(
                Chore::CancelOrder { symbol, id },
                Stage::Canceling,
            ),
            BinInstructs::CancelAllOrders { symbol } => Next::Do(
                Chore::CancelAll { symbol },
                Stage::Canceling,
            ),
            BinInstructs::ChangeLiveAsset { symbol, .. } => Next::Do(
                Chore::Validate { symbol: symbol.clone() },
                Stage::Validating { symbol, quick: false },
            ),
            BinInstructs::ChangeLiveAsset2 { symbol } => Next::Do(
                Chore::Validate { symbol: symbol.clone() },
                Stage::Validating { symbol, quick: true },
            ),
        }
    }

    /// The answer is of the kind that the stage waits for.
    pub open spec fn fits(stage: Stage<F, S>, answer: Answer<F>) -> bool {
        match stage {
            Stage::Respond(_) => true,
            Stage::Answered => answer is Done,
            Stage::Canceling => answer is Done,
            Stage::Replacing { .. } => answer is Done,
            Stage::Placing { .. } => answer is Done,
            Stage::PlacedBalances => answer is Account,
            Stage::OrdersThen(_) => answer is Orders,
            Stage::AllBalances => answer is Account,
            Stage::PairAccount { .. } => answer is Account,
            Stage::PairBases { .. } => answer is Bases,
            Stage::Keys => answer is Done,
            Stage::Validating { .. } => answer is Valid,
            Stage::Fetching { .. } => answer is Done,
            Stage::RefreshOrders { .. } => answer is Orders,
            Stage::RefreshAccount { .. } => answer is Account,
            Stage::RefreshBalances { .. } => answer is Bases,
            Stage::RefreshPair { .. } => answer is Bases,
            Stage::StartValidating { .. } => answer is Valid,
            Stage::StartFetching { .. } => answer is Done,
            Stage::StartOrders { .. } => answer is Orders,
            Stage::StartAccount { .. } => answer is Account,
            Stage::StartBalances { .. } => answer is Bases,
        }
    }

    /// What comes after an answer.
    pub open spec fn after<C: Fn(F) -> F, D: Fn(S) -> S>(
        &self,
        stage: Stage<F, S>,
        answer: Answer<F>,
        trunc: C,
        trunc_short: D,
        next: Next<F, S>,
    ) -> bool {
        match (stage, answer) {
            (Stage::Respond(r), _) => next == Next::<F, S>::Done(r),
            (Stage::Answered, Answer::Done(r)) => next == Next::<F, S>::Done(response_of(r)),
            (Stage::Canceling, Answer::Done(r)) => next == Next::Do(
                Chore::OpenOrders,
                Stage::<F, S>::OrdersThen(response_of(r)),
            ),
            (Stage::Replacing { symbol, o }, Answer::Done(r)) => match r {
                Ok(_) => next == Next::Do(
                    Chore::Place { request: self.place_request(symbol, o, trunc, trunc_short) },
                    Stage::<F, S>::Placing { replaced: true },
                ),
                Err(_) => next == Next::<F, S>::Done(response_of(r)),
            },
            (Stage::Placing { replaced }, Answer::Done(r)) => match r {
                Ok(_) => next == Next::Do(Chore::Account, Stage::<F, S>::PlacedBalances),
                Err(_) => if replaced {
                    next == Next::Do(
                        Chore::OpenOrders,
                        Stage::<F, S>::OrdersThen(response_of(r)),
                    )
                } else {
                    next == Next::<F, S>::Done(response_of(r))
                },
            },
            (Stage::PlacedBalances, Answer::Account(_)) => next == Next::Do(
                Chore::OpenOrders,
                Stage::<F, S>::OrdersThen(BinResponse::Success),
            ),
            (Stage::OrdersThen(r), Answer::Orders(_)) => next == Next::<F, S>::Done(r),
            (Stage::AllBalances, Answer::Account(_)) => next == Next::<F, S>::Done(
                BinResponse::Success,
            ),
            (Stage::PairAccount { symbol }, Answer::Account(a)) => next == Next::Do(
                Chore::Bases { symbol },
                Stage::<F, S>::PairBases { symbol, account: a.ok() },
            ),
            (Stage::PairBases { account, .. }, Answer::Bases(b)) => {
                let m = account_balances(account);
                match b {
                    Err(e) => next == Next::<F, S>::Done(response_of(Err(e))),
                    Ok(None) => next == Next::<F, S>::Done(BinResponse::Success),
                    Ok(Some((base, qoute))) => if m.dom().contains(base@) && m.dom().contains(
                        qoute@,
                    ) {
                        next == Next::<F, S>::Done(BinResponse::Success)
                    } else {
                        next matches Next::Done(
                            BinResponse::Failure((t, GeneralError::Generic)),
                        ) && t@ == missing_text(
                            if m.dom().contains(base@) {
                                qoute@
                            } else {
                                base@
                            },
                        )
                    },
                }
            },
            (Stage::Keys, Answer::Done(r)) => next == Next::Do(
                Chore::OpenOrders,
                Stage::<F, S>::RefreshOrders {
                    symbol: self.current_symbol,
                    then: AfterRefresh::Respond(response_of(r)),
                },
            ),
            (Stage::Validating { symbol, quick }, Answer::Valid(v)) => match v {
                Err(e) => next == Next::<F, S>::Done(response_of(Err(e))),
                Ok(false) => next matches Next::Done(r) && is_unknown_asset(r, symbol@),
                Ok(true) => next == Next::Do(
                    Chore::FirstData { symbol },
                    Stage::<F, S>::Fetching {
                        symbol,
                        then: if quick {
                            AfterRefresh::Respond(BinResponse::Success)
                        } else {
                            AfterRefresh::Reconnect
                        },
                    },
                ),
            },
            (Stage::Fetching { symbol, then }, Answer::Done(_)) => next == Next::Do(
                Chore::OpenOrders,
                Stage::<F, S>::RefreshOrders { symbol, then },
            ),
            (Stage::RefreshOrders { symbol, then }, Answer::Orders(_)) => next == Next::Do(
                Chore::Account,
                Stage::<F, S>::RefreshAccount { symbol, then },
            ),
            (Stage::RefreshAccount { symbol, then }, Answer::Account(a)) => next == Next::Do(
                Chore::Bases { symbol },
                Stage::<F, S>::RefreshBalances { symbol, account: a.ok(), then },
            ),
            (Stage::RefreshBalances { symbol, then, .. }, Answer::Bases(_)) => next == Next::Do(
                Chore::Bases { symbol },
                Stage::<F, S>::RefreshPair { symbol, then },
            ),
            (Stage::RefreshPair { then, .. }, Answer::Bases(_)) => match then {
                AfterRefresh::Respond(r) => next == Next::<F, S>::Done(r),
                AfterRefresh::Reconnect => next == Next::<F, S>::Done(BinResponse::Success),
            },
            (Stage::StartValidating { symbol }, Answer::Valid(v)) => match v {
                Err(e) => next == Next::<F, S>::Done(response_of(Err(e))),
                Ok(false) => next == Next::<F, S>::Done(BinResponse::Success),
                Ok(true) => next == Next::Do(
                    Chore::FirstData { symbol },
                    Stage::<F, S>::StartFetching { symbol },
                ),
            },
            (Stage::StartFetching { symbol }, Answer::Done(_)) => next == Next::Do(
                Chore::OpenOrders,
                Stage::<F, S>::StartOrders { symbol },
            ),
            (Stage::StartOrders { symbol }, Answer::Orders(_)) => next == Next::Do(
                Chore::Account,
                Stage::<F, S>::StartAccount { symbol },
            ),
            (Stage::StartAccount { symbol }, Answer::Account(a)) => next == Next::Do(
                Chore::Bases { symbol },
                Stage::<F, S>::StartBalances { symbol, account: a.ok() },
            ),
            (Stage::StartBalances { .. }, Answer::Bases(_)) => next == Next::<F, S>::Done(
                BinResponse::Success,
            ),
            _ => false,
        }
    }

    /// What an answer changes in the client.
    pub open spec fn learned<N: Fn(F) -> S>(
        &self,
        before: &Self,
        stage: Stage<F, S>,
        answer: Answer<F>,
        live_info: LiveInfo<F, S>,
        narrow: N,
    ) -> bool {
        match (stage, answer) {
            // The orders that the watch left replace those that just came.
            (Stage::OrdersThen(_), Answer::Orders(_)) => {
                &&& self.live_orders@ == live_info.live_orders@
                &&& same_pair(*self, *before)
                &&& same_rest(*self, *before)
            },
            (Stage::PairBases { symbol, account }, Answer::Bases(b)) => {
                &&& self.paired(before, symbol, account, b)
                &&& self.live_orders == before.live_orders
                &&& same_rest(*self, *before)
            },
            (Stage::Keys, Answer::Done(r)) => *self == (BinanceClient {
                api_keys_valid: r is Ok,
                ..*before
            }),
            (Stage::Validating { symbol, quick }, Answer::Valid(v)) => {
                &&& self.current_symbol == (if quick || v == Ok::<bool, String>(true) {
                    symbol
                } else {
                    before.current_symbol
                })
                &&& *self == (BinanceClient { current_symbol: self.current_symbol, ..*before })
            },
            (Stage::RefreshOrders { .. }, Answer::Orders(o)) | (
                Stage::StartOrders { .. },
                Answer::Orders(o),
            ) => {
                &&& self.live_orders@ == (match o {
                    Ok(o) => orders::with_orders::<F, S, N>(
                        before.live_orders@,
                        o@,
                        pair_balance(*before),
                        narrow,
                        o@.len() as int,
                    ),
                    Err(_) => before.live_orders@,
                })
                &&& same_pair(*self, *before)
                &&& same_rest(*self, *before)
            },
            (Stage::RefreshBalances { symbol, account, .. }, Answer::Bases(b)) | (
                Stage::StartBalances { symbol, account },
                Answer::Bases(b),
            ) => {
                &&& self.paired(before, symbol, account, b)
                &&& self.live_orders == before.live_orders
                &&& same_rest(*self, *before)
            },
            (Stage::RefreshPair { .. }, Answer::Bases(b)) => *self == (match b {
                Ok(Some(pair)) => BinanceClient { current_symbol_bases: pair, ..*before },
                _ => *before,
            }),
            _ => *self == *before,
        }
    }

    /// The balances of the pair were taken in where they could be had, and are as
    /// before where not.
    pub open spec fn paired(
        &self,
        before: &Self,
        symbol: String,
        account: Option<Vec<AccountEntry<F>>>,
        bases: Result<Option<(String, String)>, String>,
    ) -> bool {
        let m = account_balances(account);
        match bases {
            Ok(Some((base, qoute))) => if m.dom().contains(base@) && m.dom().contains(qoute@) {
                &&& self.current_symbol == symbol
                &&& self.base_balances == m[base@]
                &&& self.qoute_balances == m[qoute@]
                &&& self.balances@ == m
                &&& self.current_symbol_bases == (base, qoute)
            } else {
                same_pair(*self, *before)
            },
            _ => same_pair(*self, *before),
        }
    }

    /// What an answer changes in what is known of the account.
    pub open spec fn informed(
        after: LiveInfo<F, S>,
        before: LiveInfo<F, S>,
        stage: Stage<F, S>,
        answer: Answer<F>,
    ) -> bool {
        match (stage, answer) {
            (Stage::PlacedBalances, Answer::Account(a)) | (
                Stage::AllBalances,
                Answer::Account(a),
            ) => {
                &&& after.acc_balances@ == account_balances(a.ok())
                &&& after == (LiveInfo { acc_balances: after.acc_balances, ..before })
            },
            (Stage::Keys, Answer::Done(r)) => after == (LiveInfo {
                keys_status: if r is Ok {
                    KeysStatus::Valid
                } else {
                    KeysStatus::Invalid
                },
                ..before
            }),
            _ => after == before,
        }
    }

    /// What an answer changes in the mailbox of the stream, where there is one. A
    /// new asset that the exchange has is called for at once, or the stream
    /// closes, to come back with the channels of that asset once all is up to
    /// date.
    pub open spec fn posted(
        &self,
        after: Mailbox<F>,
        before: Mailbox<F>,
        stage: Stage<F, S>,
        answer: Answer<F>,
    ) -> bool {
        match (stage, answer) {
            (Stage::Validating { symbol, quick }, Answer::Valid(Ok(true))) => if !self.has_stream {
                after == before
            } else if quick {
                after == (Mailbox { change_symbol: Some(symbol), ..before })
            } else {
                &&& after.params.wf()
                &&& after.params@.dom() == set![symbol@]
                &&& crate::json::views(after.params@[symbol@]@) == stream::channels(
                    stream::lower(symbol@),
                )
                &&& after == (Mailbox {
                    disconnect: true,
                    reconnect: false,
                    params: after.params,
                    ..before
                })
            },
            (Stage::RefreshPair { then: AfterRefresh::Reconnect, .. }, _) => if self.has_stream {
                after == (Mailbox { disconnect: false, reconnect: true, ..before })
            } else {
                after == before
            },
            _ => after == before,
        }
    }

    /// What an answer tells those who show the asset.
    pub open spec fn published(
        &self,
        after: LiveAsset<F>,
        before: LiveAsset<F>,
        stage: Stage<F, S>,
        answer: Answer<F>,
    ) -> bool {
        match (stage, answer) {
            (Stage::StartValidating { symbol }, Answer::Valid(Ok(false))) => after == (LiveAsset {
                live_asset_symbol_changed: (true, symbol),
                ..before
            }),
            (Stage::RefreshPair { symbol, .. }, _) | (Stage::StartBalances { symbol, .. }, _) => {
                &&& after.acc_balances@ == self.balances@
                &&& after.live_asset_symbol_changed == (true, symbol)
                &&& after.current_pair_strings == self.current_symbol_bases
                &&& after.current_pair_free_balances == (
                    self.base_balances.0,
                    self.qoute_balances.0,
                )
                &&& after.current_pair_locked_balances == (
                    self.base_balances.1,
                    self.qoute_balances.1,
                )
            },
            _ => after == before,
        }
    }

    /// Goes on with an instruction: takes the answer to a chore and says what
    /// comes next.
    #[verifier::rlimit(40)]
    pub fn go_on<C: Fn(F) -> F, D: Fn(S) -> S, N: Fn(F) -> S>(
        &mut self,
        stage: Stage<F, S>,
        answer: Answer<F>,
        live_info: &mut LiveInfo<F, S>,
        live_asset: &mut LiveAsset<F>,
        mailbox: &mut Mailbox<F>,
        trunc: &C,
        trunc_short: &D,
        narrow: &N,
    ) -> (r: Next<F, S>)
        requires
            num::lawful::<F>(),
            num::lawful::<S>(),
            num::widens::<S, F>(),
            reader::pure::<F, F, C>(*trunc),
            reader::pure::<S, S, D>(*trunc_short),
            reader::pure::<F, S, N>(*narrow),
            old(self).wf(),
            old(live_info).wf(),
            old(live_asset).wf(),
            Self::fits(stage, answer),
            (stage matches Stage::Replacing { o, .. } && answer matches Answer::Done(Ok(_)))
                ==> old(self).can_place(stage->Replacing_o, *trunc, *trunc_short),
            (stage is OrdersThen || stage is RefreshOrders || stage is StartOrders) ==> (answer matches Answer::Orders(
                Ok(o),
            ) ==> orders::orders_defined(o@, pair_balance(*old(self)))),
        ensures
            final(self).wf(),
            final(live_info).wf(),
            final(live_asset).wf(),
            old(self).after(stage, answer, *trunc, *trunc_short, r),
            final(self).learned(old(self), stage, answer, *old(live_info), *narrow),
            Self::informed(*final(live_info), *old(live_info), stage, answer),
            old(self).posted(*final(mailbox), *old(mailbox), stage, answer),
            final(self).published(*final(live_asset), *old(live_asset), stage, answer),
    {
        match stage {
            Stage::Respond(r) => Next::Done(r),
            Stage::Answered => match answer {
                Answer::Done(r) => Next::Done(BinResponse::of(r)),
                _ => Next::Done(BinResponse::Nothing),
            },
            Stage::Canceling => match answer {
                Answer::Done(r) => Next::Do(
                    Chore::OpenOrders,
                    Stage::OrdersThen(BinResponse::of(r)),
                ),
                _ => Next::Done(BinResponse::Nothing),
            },
            Stage::Replacing { symbol, o } => match answer {
                Answer::Done(Ok(_)) => {
                    let request = self.send_new_order(&symbol, &o, trunc, trunc_short);
                    Next::Do(Chore::Place { request }, Stage::Placing { replaced: true })
                },
                Answer::Done(Err(e)) => Next::Done(
                    BinResponse::Failure((e, GeneralError::Generic)),
                ),
                _ => Next::Done(BinResponse::Nothing),
            },
            Stage::Placing { replaced } => match answer {
                Answer::Done(Ok(_)) => Next::Do(Chore::Account, Stage::PlacedBalances),
                Answer::Done(Err(e)) => {
                    let response = BinResponse::Failure((e, GeneralError::Generic));
                    if replaced {
                        Next::Do(Chore::OpenOrders, Stage::OrdersThen(response))
                    } else {
                        Next::Done(response)
                    }
                },
                _ => Next::Done(BinResponse::Nothing),
            },
            Stage::PlacedBalances => {
                if let Answer::Account(a) = answer {
                    live_info.acc_balances = read_balances(&a.ok());
                }
                Next::Do(Chore::OpenOrders, Stage::OrdersThen(BinResponse::Success))
            },
            Stage::OrdersThen(r) => {
                if let Answer::Orders(o) = answer {
                    self.get_open_orders_binance(&o, narrow);
                }
                self.adopt_orders(live_info);
                Next::Done(r)
            },
            Stage::AllBalances => {
                if let Answer::Account(a) = answer {
                    live_info.acc_balances = read_balances(&a.ok());
                }
                Next::Done(BinResponse::Success)
            },
            Stage::PairAccount { symbol } => match answer {
                Answer::Account(a) => Next::Do(
                    Chore::Bases { symbol: symbol.clone() },
                    Stage::PairBases { symbol, account: a.ok() },
                ),
                _ => Next::Done(BinResponse::Nothing),
            },
            Stage::PairBases { symbol, account } => match answer {
                Answer::Bases(b) => {
                    let r = self.get_balances(&symbol, &account, &b);
                    Next::Done(BinResponse::of(r))
                },
                _ => Next::Done(BinResponse::Nothing),
            },
            Stage::Keys => match answer {
                Answer::Done(r) => {
                    self.add_replace_api_keys(live_info, r.is_ok());
                    let symbol = self.current_symbol.clone();
                    Next::Do(
                        Chore::OpenOrders,
                        Stage::RefreshOrders {
                            symbol,
                            then: AfterRefresh::Respond(BinResponse::of(r)),
                        },
                    )
                },
                _ => Next::Done(BinResponse::Nothing),
            },
            Stage::Validating { symbol, quick } => match answer {
                Answer::Valid(v) => {
                    if quick {
                        self.current_symbol = symbol.clone();
                    }
                    match v {
                        Err(e) => Next::Done(BinResponse::Failure((e, GeneralError::Generic))),
                        Ok(false) => Next::Done(Self::unknown_asset(&symbol)),
                        Ok(true) => {
                            if quick {
                                if self.has_stream {
                                    mailbox.change_symbol = Some(symbol.clone());
                                }
                                Next::Do(
                                    Chore::FirstData { symbol: symbol.clone() },
                                    Stage::Fetching {
                                        symbol,
                                        then: AfterRefresh::Respond(BinResponse::Success),
                                    },
                                )
                            } else {
                                if self.has_stream {
                                    mailbox.disconnect_ws();
                                    mailbox.params = stream::get_ws_params(symbol.as_str());
                                }
                                self.current_symbol = symbol.clone();
                                Next::Do(
                                    Chore::FirstData { symbol: symbol.clone() },
                                    Stage::Fetching { symbol, then: AfterRefresh::Reconnect },
                                )
                            }
                        },
                    }
                },
                _ => Next::Done(BinResponse::Nothing),
            },
            Stage::Fetching { symbol, then } => Self::refresh_balances(symbol, then),
            Stage::RefreshOrders { symbol, then } => {
                if let Answer::Orders(o) = answer {
                    self.get_open_orders_binance(&o, narrow);
                }
                Next::Do(Chore::Account, Stage::RefreshAccount { symbol, then })
            },
            Stage::RefreshAccount { symbol, then } => match answer {
                Answer::Account(a) => Next::Do(
                    Chore::Bases { symbol: symbol.clone() },
                    Stage::RefreshBalances { symbol, account: a.ok(), then },
                ),
                _ => Next::Done(BinResponse::Nothing),
            },
            Stage::RefreshBalances { symbol, account, then } => match answer {
                Answer::Bases(b) => {
                    let _ = self.get_balances(&symbol, &account, &b);
                    Next::Do(
                        Chore::Bases { symbol: symbol.clone() },
                        Stage::RefreshPair { symbol, then },
                    )
                },
                _ => Next::Done(BinResponse::Nothing),
            },
            Stage::RefreshPair { symbol, then } => {
                if let Answer::Bases(Ok(Some(pair))) = answer {
                    self.current_symbol_bases = pair;
                }
                self.publish(&symbol, live_asset);
                match then {
                    AfterRefresh::Respond(r) => Next::Done(r),
                    AfterRefresh::Reconnect => {
                        self.reconnect_ws(mailbox);
                        Next::Done(BinResponse::Success)
                    },
                }
            },
            Stage::StartValidating { symbol } => match answer {
                Answer::Valid(Err(e)) => Next::Done(
                    BinResponse::Failure((e, GeneralError::Generic)),
                ),
                Answer::Valid(Ok(true)) => Next::Do(
                    Chore::FirstData { symbol: symbol.clone() },
                    Stage::StartFetching { symbol },
                ),
                _ => {
                    live_asset.live_asset_symbol_changed = (true, symbol);
                    Next::Done(BinResponse::Success)
                },
            },
            Stage::StartFetching { symbol } => Next::Do(
                Chore::OpenOrders,
                Stage::StartOrders { symbol },
            ),
            Stage::StartOrders { symbol } => {
                if let Answer::Orders(o) = answer {
                    self.get_open_orders_binance(&o, narrow);
                }
                Next::Do(Chore::Account, Stage::StartAccount { symbol })
            },
            Stage::StartAccount { symbol } => match answer {
                Answer::Account(a) => Next::Do(
                    Chore::Bases { symbol: symbol.clone() },
                    Stage::StartBalances { symbol, account: a.ok() },
                ),
                _ => Next::Done(BinResponse::Nothing),
            },
            Stage::StartBalances { symbol, account } => {
                if let Answer::Bases(b) = answer {
                    let _ = self.get_balances(&symbol, &account, &b);
                }
                self.publish(&symbol, live_asset);
                Next::Done(BinResponse::Success)
            },
        }
    }

    /// Lets the stream connect again, where there is one.
    pub fn reconnect_ws(&self, mailbox: &mut Mailbox<F>)
        ensures
            *final(mailbox) == (if self.has_stream {
                Mailbox { disconnect: false, reconnect: true, ..*old(mailbox) }
            } else {
                *old(mailbox)
            }),
    {
        if self.has_stream {
            mailbox.reconnect_ws();
        }
    }

    /// Closes the stream, where there is one.
    pub fn disconnect_ws(&self, mailbox: &mut Mailbox<F>)
        ensures
            *final(mailbox) == (if self.has_stream {
                Mailbox { disconnect: true, reconnect: false, ..*old(mailbox) }
            } else {
                *old(mailbox)
            }),
    {
        if self.has_stream {
            mailbox.disconnect_ws();
        }
    }

    /// The channels of the asset `symbol`, and with `get_initial_data` the first
    /// chore that brings its candles and balances in.
    pub fn get_ws_params(symbol: &String, get_initial_data: bool) -> (r: (
        Params,
        Option<Next<F, S>>,
    ))
        ensures
            r.0.wf(),
            r.0@.dom() == set![symbol@],
            crate::json::views(r.0@[symbol@]@) == stream::channels(stream::lower(symbol@)),
            r.1 == (if get_initial_data {
                Some(
                    Next::Do(
                        Chore::Validate { symbol: *symbol },
                        Stage::<F, S>::StartValidating { symbol: *symbol },
                    ),
                )
            } else {
                None
            }),
    {
        let params = stream::get_ws_params(symbol.as_str());
        let next = if get_initial_data {
            Some(Self::get_initial_data(symbol))
        } else {
            None
        };
        (params, next)
    }

    /// The first chore that brings the orders and balances of the asset `symbol`
    /// up to date: its open orders.
    pub fn refresh_balances(symbol: String, then: AfterRefresh) -> (r: Next<F, S>)
        ensures
            r == Next::Do(Chore::OpenOrders, Stage::<F, S>::RefreshOrders { symbol, then }),
    {
        Next::Do(Chore::OpenOrders, Stage::RefreshOrders { symbol, then })
    }

    /// The first chore that brings in the candles and balances of the asset
    /// `symbol`: whether the exchange has it.
    pub fn get_initial_data(symbol: &String) -> (r: Next<F, S>)
        ensures
            r == Next::Do(
                Chore::Validate { symbol: *symbol },
                Stage::<F, S>::StartValidating { symbol: *symbol },
            ),
    {
        Next::Do(
            Chore::Validate { symbol: symbol.clone() },
            Stage::StartValidating { symbol: symbol.clone() },
        )
    }

    /// The channels of the default asset.
    pub fn get_def_ws_params(&self, get_initial_data: bool) -> (r: (Params, Option<Next<F, S>>))
        ensures
            r.0.wf(),
            r.0@.dom() == set![self.default_symbol@],
            crate::json::views(r.0@[self.default_symbol@]@) == stream::channels(
                stream::lower(self.default_symbol@),
            ),
            r.1 is Some <==> get_initial_data,
            r.1 matches Some(n) ==> n == Next::Do(
                Chore::Validate { symbol: self.default_symbol },
                Stage::<F, S>::StartValidating { symbol: self.default_symbol },
            ),
    {
        Self::get_ws_params(&self.default_symbol, get_initial_data)
    }

    /// The channels of the asset on show.
    pub fn get_curr_ws_params(&self, get_initial_data: bool) -> (r: (Params, Option<Next<F, S>>))
        ensures
            r.0.wf(),
            r.0@.dom() == set![self.current_symbol@],
            crate::json::views(r.0@[self.current_symbol@]@) == stream::channels(
                stream::lower(self.current_symbol@),
            ),
            r.1 is Some <==> get_initial_data,
            r.1 matches Some(n) ==> n == Next::Do(
                Chore::Validate { symbol: self.current_symbol },
                Stage::<F, S>::StartValidating { symbol: self.current_symbol },
            ),
    {
        Self::get_ws_params(&self.current_symbol, get_initial_data)
    }
}

/// How many chores an instruction can still take at a stage.
pub open spec fn chores_left<F, S>(stage: Stage<F, S>) -> nat {
    match stage {
        Stage::Respond(_) => 0,
        Stage::Answered => 1,
        Stage::OrdersThen(_) => 1,
        Stage::AllBalances => 1,
        Stage::PairBases { .. } => 1,
        Stage::RefreshPair { .. } => 1,
        Stage::StartBalances { .. } => 1,
        Stage::StartAccount { .. } => 2,
        Stage::StartOrders { .. } => 3,
        Stage::StartFetching { .. } => 4,
        Stage::StartValidating { .. } => 5,
        Stage::Canceling => 2,
        Stage::PlacedBalances => 2,
        Stage::PairAccount { .. } => 2,
        Stage::RefreshBalances { .. } => 2,
        Stage::Placing { .. } => 3,
        Stage::RefreshAccount { .. } => 3,
        Stage::Replacing { .. } => 4,
        Stage::RefreshOrders { .. } => 4,
        Stage::Keys => 5,
        Stage::Fetching { .. } => 5,
        Stage::Validating { .. } => 6,
    }
}

/// Every instruction comes to its response: each answer brings it closer, so
/// that after at most six chores it is done.
pub proof fn instruction_comes_to_an_end<
    F: Number + From<S>,
    S: Number,
    C: Fn(F) -> F,
    D: Fn(S) -> S,
>(
    client: BinanceClient<F, S>,
    i: BinInstructs<F, S>,
    stage: Stage<F, S>,
    answer: Answer<F>,
    trunc: C,
    trunc_short: D,
    next: Next<F, S>,
)
    ensures
        client.first(i, trunc, trunc_short, next) ==> (next matches Next::Do(_, s) ==> chores_left(
            s,
        ) <= 6),
        client.after(stage, answer, trunc, trunc_short, next) ==> (next matches Next::Do(_, s)
            ==> chores_left(s) < chores_left(stage)),
{
}

/// The chore that a stage waits for an answer to.
pub open spec fn asks_for<F, S>(stage: Stage<F, S>, chore: Chore<F>) -> bool {
    match chore {
        Chore::CancelOrder { .. } => stage is Canceling || stage is Replacing,
        Chore::CancelAll { .. } => stage is Canceling,
        Chore::Place { .. } => stage is Placing,
        Chore::OpenOrders => stage is OrdersThen || stage is RefreshOrders || stage is StartOrders,
        Chore::Account => stage is PlacedBalances || stage is AllBalances || stage is PairAccount
            || stage is RefreshAccount || stage is StartAccount,
        Chore::Bases { .. } => stage is PairBases || stage is RefreshBalances
            || stage is RefreshPair || stage is StartBalances,
        Chore::Validate { .. } => stage is Validating || stage is StartValidating,
        Chore::Connect { .. } => stage is Answered,
        Chore::TryKeys { .. } => stage is Keys,
        Chore::DropKeys => stage is Answered,
        Chore::FirstData { .. } => stage is Fetching || stage is StartFetching,
        Chore::UserData => stage is Answered,
    }
}

/// The answer is of the kind that the chore asks for.
pub open spec fn answers<F>(chore: Chore<F>, answer: Answer<F>) -> bool {
    match chore {
        Chore::OpenOrders => answer is Orders,
        Chore::Account => answer is Account,
        Chore::Bases { .. } => answer is Bases,
        Chore::Validate { .. } => answer is Valid,
        _ => answer is Done,
    }
}

/// A chore comes with a stage that takes any answer to it.
pub proof fn every_answer_fits<
    F: Number + From<S>,
    S: Number,
    C: Fn(F) -> F,
    D: Fn(S) -> S,
>(
    client: BinanceClient<F, S>,
    i: BinInstructs<F, S>,
    stage: Stage<F, S>,
    answer: Answer<F>,
    trunc: C,
    trunc_short: D,
    next: Next<F, S>,
    reply: Answer<F>,
)
    requires
        client.first(i, trunc, trunc_short, next) || client.after(
            stage,
            answer,
            trunc,
            trunc_short,
            next,
        ),
    ensures
        next matches Next::Do(chore, s) ==> asks_for(s, chore) && (answers(chore, reply)
            ==> BinanceClient::<F, S>::fits(s, reply)),
{
}

/// How long the watch on the open orders waits before it looks again. `looked`
/// is whether the exchange takes the keys, where it told its orders at all.
pub fn check_pause_ms(looked: Option<KeysStatus>) -> (r: u64)
    ensures
        r == (match looked {
            None => 60_000 + ORDER_CHECK_INTV_MS,
            Some(KeysStatus::Invalid) => 5_000 + ORDER_CHECK_INTV_MS,
            Some(KeysStatus::Valid) => ORDER_CHECK_INTV_MS as int,
        }),
{
    match looked {
        None => 60_000 + ORDER_CHECK_INTV_MS,
        Some(KeysStatus::Invalid) => 5_000 + ORDER_CHECK_INTV_MS,
        Some(KeysStatus::Valid) => ORDER_CHECK_INTV_MS,
    }
}

/// The assets of the pair whose balances the watch asks for: those that have a
/// name.
pub fn check_wanted<F: Number, S: Number>(live_info: &LiveInfo<F, S>) -> (r: (
    Option<String>,
    Option<String>,
))
    ensures
        r.0 == (if live_info.current_pair_strings.0@.len() > 0 {
            Some(live_info.current_pair_strings.0)
        } else {
            None
        }),
        r.1 == (if live_info.current_pair_strings.1@.len() > 0 {
            Some(live_info.current_pair_strings.1)
        } else {
            None
        }),
{
    let first = if live_info.current_pair_strings.0.as_str().is_empty() {
        None
    } else {
        Some(live_info.current_pair_strings.0.clone())
    };
    let second = if live_info.current_pair_strings.1.as_str().is_empty() {
        None
    } else {
        Some(live_info.current_pair_strings.1.clone())
    };
    (first, second)
}

/// The balances of the pair: those just told, locked and free, and for an asset
/// of which nothing was told the old ones.
pub open spec fn checked_pair<F, S>(
    live_info: LiveInfo<F, S>,
    a1: Option<(F, F)>,
    a2: Option<(F, F)>,
) -> PairBalance<F> {
    PairBalance {
        locked_a1: match a1 {
            Some(b) => b.0,
            None => live_info.current_pair_locked_balances.0,
        },
        locked_a2: match a2 {
            Some(b) => b.0,
            None => live_info.current_pair_locked_balances.1,
        },
        free_a1: match a1 {
            Some(b) => b.1,
            None => live_info.current_pair_free_balances.0,
        },
        free_a2: match a2 {
            Some(b) => b.1,
            None => live_info.current_pair_free_balances.1,
        },
    }
}

impl<F: Number + From<S>, S: Number> BinanceClient<F, S> {
    /// The watch on the open orders: takes the orders in, and the balances of the
    /// pair, `a1` and `a2`, locked and free, as far as they were told. Without valid
    /// keys nothing changes.
    pub fn check_live_orders_change<N: Fn(F) -> S>(
        live_info: &mut LiveInfo<F, S>,
        orders: &Vec<BinanceOrder<F>>,
        a1: Option<(F, F)>,
        a2: Option<(F, F)>,
        narrow: &N,
    )
        requires
            num::lawful::<F>(),
            reader::pure::<F, S, N>(*narrow),
            old(live_info).wf(),
            old(live_info).keys_status == KeysStatus::Valid ==> orders::orders_defined(
                orders@,
                checked_pair(*old(live_info), a1, a2),
            ),
        ensures
            final(live_info).wf(),
            ({
                let b = checked_pair(*old(live_info), a1, a2);
                if old(live_info).keys_status == KeysStatus::Valid {
                    &&& final(live_info).live_orders@ == orders::with_orders::<F, S, N>(
                        Map::empty(),
                        orders@,
                        b,
                        *narrow,
                        orders@.len() as int,
                    )
                    &&& *final(live_info) == (LiveInfo {
                        live_orders: final(live_info).live_orders,
                        current_pair_locked_balances: (b.locked_a1, b.locked_a2),
                        current_pair_free_balances: (b.free_a1, b.free_a2),
                        ..*old(live_info)
                    })
                } else {
                    *final(live_info) == *old(live_info)
                }
            }),
    {
        match live_info.keys_status {
            KeysStatus::Invalid => {},
            KeysStatus::Valid => {
                let (a1_locked, a1_free) = match a1 {
                    Some(b) => b,
                    None => (
                        live_info.current_pair_locked_balances.0,
                        live_info.current_pair_free_balances.0,
                    ),
                };
                let (a2_locked, a2_free) = match a2 {
                    Some(b) => b,
                    None => (
                        live_info.current_pair_locked_balances.1,
                        live_info.current_pair_free_balances.1,
                    ),
                };
                let b = PairBalance {
                    locked_a1: a1_locked,
                    locked_a2: a2_locked,
                    free_a1: a1_free,
                    free_a2: a2_free,
                };
                let mut live: LiveOrders<F, S> = KeyMap::new();
                orders::put_orders(&mut live, orders, &b, narrow);
                live_info.live_orders = live;
                live_info.current_pair_locked_balances = (a1_locked, a2_locked);
                live_info.current_pair_free_balances = (a1_free, a2_free);
            },
        }
    }
}

/// Whether an attempt to fetch candles is made: the first one, and after a
/// failure up to five more.
pub fn get_latest_wicks2(failures: u32) -> (r: bool)
    ensures
        r == (failures <= 5),
{
    failures <= 5
}

/// The address of the latest candles of the asset `symbol` at the interval
/// `intv`.
pub fn latest_wicks_url(symbol: &str, intv: &Intv) -> (r: String)
    ensures
        r@ == "https://api.binance.com/api/v3/klines?symbol="@ + symbol@ + "&interval="@
            + intv.bin_name(),
{
    let mut out = text::join3(
        "https://api.binance.com/api/v3/klines?symbol=",
        symbol,
        "&interval=",
    );
    out.append(intv.to_bin_str());
    out
}

/// The balances of an account name the free and the locked amount of each of its assets, in
/// this order, as the last entry of that name says, and no other asset.
pub proof fn balances_are_those_of_the_account<F>(
    account: Seq<AccountEntry<F>>,
    n: int,
    name: Seq<char>,
)
    requires
        0 <= n <= account.len(),
    ensures
        ({
            let m = balances_of(account, n);
            &&& m.dom().contains(name) <==> exists|i: int|
                0 <= i < n && (#[trigger] account[i]).0@ == name
            &&& forall|i: int|
                0 <= i < n && (#[trigger] account[i]).0@ == name && (forall|j: int|
                    i < j < n ==> (#[trigger] account[j]).0@ != name) ==> m[name] == (
                    account[i].1,
                    account[i].2,
                )
        }),
    decreases n,
{
    if n > 0 {
        balances_are_those_of_the_account(account, n - 1, name);
        let m = balances_of(account, n);
        if m.dom().contains(name) && account[n - 1].0@ != name {
            let i = choose|i: int| 0 <= i < n - 1 && (#[trigger] account[i]).0@ == name;
            assert(account[i].0@ == name);
        }
    }
}

/// An account that could not be had has no balances.
pub proof fn no_account_no_balances<F>(account: Vec<AccountEntry<F>>)
    ensures
        account_balances::<F>(None) == Map::<Seq<char>, (F, F)>::empty(),
        account_balances(Some(account)) == balances_of(account@, account@.len() as int),
{
}

/// The texts of the failures name the asset.
pub proof fn failures_name_their_asset(r: BinResponse, name: Seq<char>)
    ensures
        missing_text(name) == "Base asset: "@ + name + " not found in balances!"@,
        is_unknown_asset(r, name) ==> (r matches BinResponse::Failure((t, e)) && t@
            == "Cannot find asset on binance:"@ + name && e == GeneralError::Generic),
{
}

/// What went well is a success, and an error is a failure with its text.
pub proof fn response_tells_the_result(e: String)
    ensures
        response_of(Ok(())) == BinResponse::Success,
        response_of(Err(e)) == BinResponse::Failure((e, GeneralError::Generic)),
{
}

/// The balances of the pair that orders are held against: the first asset is the base of the
/// pair, the second the one it is priced in, free and locked each in its place.
pub proof fn pair_balance_is_that_of_the_client<F, S>(c: BinanceClient<F, S>)
    ensures
        pair_balance(c).free_a1 == c.base_balances.0,
        pair_balance(c).locked_a1 == c.base_balances.1,
        pair_balance(c).free_a2 == c.qoute_balances.0,
        pair_balance(c).locked_a2 == c.qoute_balances.1,
{
}

/// Two clients that agree on the pair and on the rest differ in their open orders at most.
pub proof fn pair_and_rest_are_all_but_the_orders<F, S>(
    a: BinanceClient<F, S>,
    b: BinanceClient<F, S>,
)
    requires
        same_pair(a, b),
        same_rest(a, b),
    ensures
        a == (BinanceClient { live_orders: a.live_orders, ..b }),
{
}

/// An order that is placed now spends what is free of the second asset of the pair, or sells
/// what is free of the first.
pub proof fn placed_order_trades_what_is_free<
    F: Number + From<S>,
    S: Number,
    C: Fn(F) -> F,
    D: Fn(S) -> S,
>(c: BinanceClient<F, S>, symbol: String, o: Order<F, S>, trunc: C, trunc_short: D)
    requires
        !(o is Nothing),
    ensures
        ({
            let r = c.place_request::<C, D>(symbol, o, trunc, trunc_short);
            let spent = num::product(o.size().part(), c.qoute_balances.0);
            let sold = num::product(o.size().part(), c.base_balances.0);
            &&& r.symbol == symbol
            &&& o is Market && o.buys() ==> r.quote_order_qty == Some(
                orders::six_figures(spent, trunc),
            )
            &&& o is Market && !o.buys() ==> r.quantity == Some(sold)
            &&& o is Limit && !o.buys() ==> r.quantity == Some(orders::six_figures(sold, trunc))
            &&& o is StopLimit && !o.buys() ==> r.quantity == Some(orders::six_figures(sold, trunc))
            &&& o is StopMarket && !o.buys() ==> r.quantity == Some(
                orders::six_figures(sold, trunc),
            )
            &&& o.buys() ==> (o matches Order::Limit { price, .. } ==> r.quantity == Some(
                orders::six_figures(num::quotient(spent, price), trunc),
            ))
            &&& r == orders::request_of(
                symbol,
                o,
                c.qoute_balances.0,
                c.base_balances.0,
                trunc,
                trunc_short,
            )
        }),
{
}

/// Where every operation of the number types is defined, every order can be placed.
pub proof fn every_order_can_be_placed<
    F: Number + From<S>,
    S: Number,
    C: Fn(F) -> F,
    D: Fn(S) -> S,
>(c: BinanceClient<F, S>, o: Order<F, S>, trunc: C, trunc_short: D)
    requires
        num::total::<F>(),
        num::total::<S>(),
        !(o is Nothing),
    ensures
        c.can_place::<C, D>(o, trunc, trunc_short),
{
}

/// How orders begin: placing one asks the exchange to place its request; canceling one asks to
/// cancel it, by its number on its asset; canceling all asks for just that; and replacing one
/// cancels it before the new one is placed.
pub proof fn orders_begin_with_their_chore<
    F: Number + From<S>,
    S: Number,
    C: Fn(F) -> F,
    D: Fn(S) -> S,
>(
    c: BinanceClient<F, S>,
    i: BinInstructs<F, S>,
    trunc: C,
    trunc_short: D,
    next: Next<F, S>,
)
    requires
        c.first::<C, D>(i, trunc, trunc_short, next),
    ensures
        i matches BinInstructs::PlaceOrder { symbol, o } ==> (next matches Next::Do(
            Chore::Place { request },
            Stage::Placing { replaced },
        ) && !replaced && request == c.place_request::<C, D>(symbol, o, trunc, trunc_short)),
        i matches BinInstructs::CancelOrder { id, symbol, .. } ==> (next matches Next::Do(
            Chore::CancelOrder { symbol: s, id: n },
            Stage::Canceling,
        ) && s == symbol && n == id),
        i matches BinInstructs::CancelAllOrders { symbol } ==> (next matches Next::Do(
            Chore::CancelAll { symbol: s },
            Stage::Canceling,
        ) && s == symbol),
        i matches BinInstructs::CancelAndReplaceOrder { id, symbol, o } ==> (next matches Next::Do(
            Chore::CancelOrder { symbol: s, id: n },
            Stage::Replacing { symbol: t, o: p },
        ) && s == symbol && n == id && t == symbol && p == o),
{
}

/// How the other instructions begin. A change of the asset looks the asset up first. New keys
/// are tried, removed ones dropped. Balances begin with the account. A connection runs the
/// stream with its channels and fails without one; another connection fetches the candles of
/// the asset on show. The rest is answered at once.
pub proof fn instructions_begin_with_their_chore<
    F: Number + From<S>,
    S: Number,
    C: Fn(F) -> F,
    D: Fn(S) -> S,
>(
    c: BinanceClient<F, S>,
    i: BinInstructs<F, S>,
    trunc: C,
    trunc_short: D,
    next: Next<F, S>,
)
    requires
        c.first::<C, D>(i, trunc, trunc_short, next),
    ensures
        i matches BinInstructs::ChangeLiveAsset { symbol, .. } ==> (next matches Next::Do(
            Chore::Validate { symbol: s },
            Stage::Validating { symbol: t, quick },
        ) && s == symbol && t == symbol && !quick),
        i matches BinInstructs::ChangeLiveAsset2 { symbol } ==> (next matches Next::Do(
            Chore::Validate { symbol: s },
            Stage::Validating { symbol: t, quick },
        ) && s == symbol && t == symbol && quick),
        i matches BinInstructs::AddReplaceApiKeys { pub_key, priv_key } ==> (next matches Next::Do(
            Chore::TryKeys { pub_key: p, priv_key: q },
            Stage::Keys,
        ) && p == pub_key && q == priv_key),
        i is RemoveApiKeys ==> (next matches Next::Do(Chore::DropKeys, Stage::Answered)),
        i is GetAllBalances ==> (next matches Next::Do(Chore::Account, Stage::AllBalances)),
        i matches BinInstructs::GetBalance { symbol } ==> (next matches Next::Do(
            Chore::Account,
            Stage::PairAccount { symbol: s },
        ) && s == symbol),
        i is GetUserData ==> (next matches Next::Do(Chore::UserData, Stage::Answered)),
        i matches BinInstructs::ConnectWS { params } ==> if c.has_stream {
            next matches Next::Do(Chore::Connect { params: p }, Stage::Answered) && p == params
        } else {
            next matches Next::Done(BinResponse::Failure(_))
        },
        i is ReConnectWS ==> (next matches Next::Do(
            Chore::FirstData { symbol: s },
            Stage::Fetching { symbol: t, then: AfterRefresh::Respond(BinResponse::Success) },
        ) && s == c.current_symbol && t == c.current_symbol),
        i is Nothing ==> next == Next::<F, S>::Done(BinResponse::Nothing),
        i is ConnectUserWS || i is Disconnect || i is UpdateSettings ==> next == Next::<F, S>::Done(
            BinResponse::Success,
        ),
{
}

/// An order is replaced only where the old one could be canceled: then the new one is placed on
/// the same asset, and else the failure is the response. A failure to place the new one is told
/// once the open orders were fetched, and one to place a first order at once. What was placed is
/// followed by the balances and the open orders, and is a success.
pub proof fn placing_goes_its_way<
    F: Number + From<S>,
    S: Number,
    C: Fn(F) -> F,
    D: Fn(S) -> S,
>(
    c: BinanceClient<F, S>,
    stage: Stage<F, S>,
    r: Result<(), String>,
    trunc: C,
    trunc_short: D,
    next: Next<F, S>,
)
    requires
        c.after::<C, D>(stage, Answer::Done(r), trunc, trunc_short, next),
    ensures
        stage matches Stage::Replacing { symbol, o } ==> match r {
            Ok(_) => next matches Next::Do(Chore::Place { request }, Stage::Placing { replaced })
                && replaced && request == c.place_request::<C, D>(symbol, o, trunc, trunc_short),
            Err(e) => next == Next::<F, S>::Done(BinResponse::Failure((e, GeneralError::Generic))),
        },
        stage matches Stage::Placing { replaced } ==> match r {
            Ok(_) => next matches Next::Do(Chore::Account, Stage::PlacedBalances),
            Err(e) => if replaced {
                next matches Next::Do(
                    Chore::OpenOrders,
                    Stage::OrdersThen(BinResponse::Failure((t, GeneralError::Generic))),
                ) && t == e
            } else {
                next == Next::<F, S>::Done(BinResponse::Failure((e, GeneralError::Generic)))
            },
        },
        stage is Canceling ==> (next matches Next::Do(Chore::OpenOrders, Stage::OrdersThen(said))
            && (said == BinResponse::Success <==> r is Ok) && (r matches Err(e) ==> said
            == BinResponse::Failure((e, GeneralError::Generic)))),
        stage is Answered ==> (next matches Next::Done(said) && (said == BinResponse::Success
            <==> r is Ok) && (r matches Err(e) ==> said == BinResponse::Failure(
            (e, GeneralError::Generic),
        ))),
        stage is Keys ==> (next matches Next::Do(
            Chore::OpenOrders,
            Stage::RefreshOrders { symbol, then: AfterRefresh::Respond(said) },
        ) && symbol == c.current_symbol && (said == BinResponse::Success <==> r is Ok)),
        stage matches Stage::Fetching { symbol, then } ==> (next matches Next::Do(
            Chore::OpenOrders,
            Stage::RefreshOrders { symbol: s, then: t },
        ) && s == symbol && t == then),
        stage matches Stage::StartFetching { symbol } ==> (next matches Next::Do(
            Chore::OpenOrders,
            Stage::StartOrders { symbol: s },
        ) && s == symbol),
{
}

/// A new asset that the exchange does not have fails and is asked for no further; one that it
/// has goes on with its candles, and the stream connects again at the end unless it changes over
/// at once. At the start an unknown asset is no failure.
pub proof fn an_unknown_asset_goes_no_further<
    F: Number + From<S>,
    S: Number,
    C: Fn(F) -> F,
    D: Fn(S) -> S,
>(
    c: BinanceClient<F, S>,
    stage: Stage<F, S>,
    v: Result<bool, String>,
    trunc: C,
    trunc_short: D,
    next: Next<F, S>,
)
    requires
        c.after::<C, D>(stage, Answer::Valid(v), trunc, trunc_short, next),
    ensures
        stage matches Stage::Validating { symbol, quick } ==> match v {
            Err(e) => next == Next::<F, S>::Done(BinResponse::Failure((e, GeneralError::Generic))),
            Ok(known) => if known {
                next matches Next::Do(
                    Chore::FirstData { symbol: s },
                    Stage::Fetching { symbol: t, then },
                ) && s == symbol && t == symbol && (then is Reconnect <==> !quick) && (quick ==> then
                    == AfterRefresh::Respond(BinResponse::Success))
            } else {
                next matches Next::Done(BinResponse::Failure((t, _))) && t@
                    == "Cannot find asset on binance:"@ + symbol@
            },
        },
        stage matches Stage::StartValidating { symbol } ==> match v {
            Err(e) => next == Next::<F, S>::Done(BinResponse::Failure((e, GeneralError::Generic))),
            Ok(known) => if known {
                next matches Next::Do(
                    Chore::FirstData { symbol: s },
                    Stage::StartFetching { symbol: t },
                ) && s == symbol && t == symbol
            } else {
                next == Next::<F, S>::Done(BinResponse::Success)
            },
        },
{
}

/// Bringing an asset up to date asks for its open orders, the account, the names of its pair for
/// the balances, and those names again to show them, always for the same asset; an account that
/// could not be had counts as none.
pub proof fn bringing_up_to_date_goes_its_way<
    F: Number + From<S>,
    S: Number,
    C: Fn(F) -> F,
    D: Fn(S) -> S,
>(
    c: BinanceClient<F, S>,
    stage: Stage<F, S>,
    answer: Answer<F>,
    trunc: C,
    trunc_short: D,
    next: Next<F, S>,
)
    requires
        c.after::<C, D>(stage, answer, trunc, trunc_short, next),
    ensures
        stage matches Stage::RefreshOrders { symbol, then } ==> (next matches Next::Do(
            Chore::Account,
            Stage::RefreshAccount { symbol: s, then: t },
        ) && s == symbol && t == then),
        stage matches Stage::RefreshAccount { symbol, then } ==> (next matches Next::Do(
            Chore::Bases { symbol: b },
            Stage::RefreshBalances { symbol: s, account, then: t },
        ) && b == symbol && s == symbol && t == then && (answer matches Answer::Account(a) && account
            == a.ok())),
        stage matches Stage::RefreshBalances { symbol, then, .. } ==> (next matches Next::Do(
            Chore::Bases { symbol: b },
            Stage::RefreshPair { symbol: s, then: t },
        ) && b == symbol && s == symbol && t == then),
        stage matches Stage::RefreshPair { then, .. } ==> (next matches Next::Done(said) && (
        then is Reconnect ==> said == BinResponse::Success) && (then matches AfterRefresh::Respond(
            r,
        ) ==> said == r)),
        stage matches Stage::StartOrders { symbol } ==> (next matches Next::Do(
            Chore::Account,
            Stage::StartAccount { symbol: s },
        ) && s == symbol),
        stage matches Stage::StartAccount { symbol } ==> (next matches Next::Do(
            Chore::Bases { symbol: b },
            Stage::StartBalances { symbol: s, account },
        ) && b == symbol && s == symbol && (answer matches Answer::Account(a) && account == a.ok())),
        stage is StartBalances || stage is AllBalances ==> next == Next::<F, S>::Done(
            BinResponse::Success,
        ),
        stage is PlacedBalances ==> (next matches Next::Do(Chore::OpenOrders, Stage::OrdersThen(r))
            && r == BinResponse::Success),
        stage matches Stage::OrdersThen(r) ==> next == Next::<F, S>::Done(r),
        stage matches Stage::Respond(r) ==> next == Next::<F, S>::Done(r),
        stage matches Stage::PairAccount { symbol } ==> (next matches Next::Do(
            Chore::Bases { symbol: b },
            Stage::PairBases { symbol: s, account },
        ) && b == symbol && s == symbol && (answer matches Answer::Account(a) && account == a.ok())),
{
}

/// The balances of a pair are a success where both of its assets are in the account or it has
/// no assets; else the first one that is missing is named.
pub proof fn balances_of_a_pair_need_both_assets<
    F: Number + From<S>,
    S: Number,
    C: Fn(F) -> F,
    D: Fn(S) -> S,
>(
    c: BinanceClient<F, S>,
    symbol: String,
    account: Option<Vec<AccountEntry<F>>>,
    bases: Result<Option<(String, String)>, String>,
    trunc: C,
    trunc_short: D,
    next: Next<F, S>,
)
    requires
        c.after::<C, D>(
            Stage::PairBases { symbol, account },
            Answer::Bases(bases),
            trunc,
            trunc_short,
            next,
        ),
    ensures
        next matches Next::Done(said) && (said == BinResponse::Success || said is Failure) && (
        said == BinResponse::Success <==> (match bases {
            Err(_) => false,
            Ok(None) => true,
            Ok(Some((base, qoute))) => account_balances(account).dom().contains(base@)
                && account_balances(account).dom().contains(qoute@),
        })),
        bases matches Ok(Some((base, qoute))) ==> (next matches Next::Done(
            BinResponse::Failure((t, _)),
        ) ==> if account_balances(account).dom().contains(base@) {
            t@ == "Base asset: "@ + qoute@ + " not found in balances!"@
        } else {
            t@ == "Base asset: "@ + base@ + " not found in balances!"@
        }),
{
}

/// What an answer teaches the client. Only the keys stage changes whether the keys are valid, and
/// only a lookup of an asset changes the asset on show by itself: at once where the stream changes
/// over at once, and else where the exchange has it. Whatever is not said to change stays.
pub proof fn answers_teach_their_own_part<F: Number + From<S>, S: Number, N: Fn(F) -> S>(
    after: BinanceClient<F, S>,
    before: BinanceClient<F, S>,
    stage: Stage<F, S>,
    answer: Answer<F>,
    live: LiveInfo<F, S>,
    narrow: N,
)
    requires
        BinanceClient::<F, S>::fits(stage, answer),
        after.learned::<N>(&before, stage, answer, live, narrow),
    ensures
        !(stage is Keys) ==> after.api_keys_valid == before.api_keys_valid,
        stage is Keys ==> (answer matches Answer::Done(r) && (after.api_keys_valid <==> r is Ok))
            && after == (BinanceClient { api_keys_valid: after.api_keys_valid, ..before }),
        stage matches Stage::Validating { symbol, quick } ==> (answer matches Answer::Valid(v) && if (
        quick || v == Ok::<bool, String>(true)) {
            after.current_symbol == symbol
        } else {
            after.current_symbol == before.current_symbol
        }) && after == (BinanceClient { current_symbol: after.current_symbol, ..before }),
        stage is OrdersThen ==> after.live_orders@ == live.live_orders@,
        stage is RefreshOrders || stage is StartOrders ==> (answer matches Answer::Orders(o) && (
        o is Err ==> after.live_orders@ == before.live_orders@) && (o matches Ok(list)
            ==> after.live_orders@ == orders::with_orders::<F, S, N>(
            before.live_orders@,
            list@,
            pair_balance(before),
            narrow,
            list@.len() as int,
        ))),
        stage is RefreshPair ==> (answer matches Answer::Bases(b) && (b matches Ok(Some(pair))
            ==> after.current_symbol_bases == pair) && (!(b matches Ok(Some(_)))
            ==> after.current_symbol_bases == before.current_symbol_bases)) && after == (
        BinanceClient { current_symbol_bases: after.current_symbol_bases, ..before }),
        stage is Respond || stage is Answered || stage is Canceling || stage is Replacing
            || stage is Placing || stage is PlacedBalances || stage is AllBalances
            || stage is PairAccount || stage is Fetching || stage is RefreshAccount
            || stage is StartValidating || stage is StartFetching || stage is StartAccount ==> after
            == before,
        after.has_stream == before.has_stream,
        after.ws_buffer_size == before.ws_buffer_size,
        after.current_order_id == before.current_order_id,
        after.default_symbol == before.default_symbol,
        after.default_intv == before.default_intv,
        after.stop_client == before.stop_client,
        after.ws_connect == before.ws_connect,
{
}

/// The balances of a pair are taken in where both of its assets are in the account: those of the
/// first asset as the base, those of the second as the other, and the names and the asset with
/// them. Else the pair stays.
pub proof fn a_pair_is_taken_in_whole<F: Number + From<S>, S: Number>(
    after: BinanceClient<F, S>,
    before: BinanceClient<F, S>,
    symbol: String,
    account: Option<Vec<AccountEntry<F>>>,
    bases: Result<Option<(String, String)>, String>,
)
    requires
        after.paired(&before, symbol, account, bases),
    ensures
        ({
            let m = account_balances(account);
            &&& bases is Err || bases == Ok::<Option<(String, String)>, String>(None)
                ==> after.base_balances == before.base_balances && after.qoute_balances
                == before.qoute_balances && after.balances == before.balances
                && after.current_symbol == before.current_symbol && after.current_symbol_bases
                == before.current_symbol_bases
            &&& bases matches Ok(Some((base, qoute))) ==> if m.dom().contains(base@)
                && m.dom().contains(qoute@) {
                &&& after.current_symbol == symbol
                &&& after.base_balances == m[base@]
                &&& after.qoute_balances == m[qoute@]
                &&& after.balances@ == m
                &&& after.current_symbol_bases.0 == base
                &&& after.current_symbol_bases.1 == qoute
            } else {
                &&& after.base_balances == before.base_balances
                &&& after.qoute_balances == before.qoute_balances
                &&& after.balances == before.balances
                &&& after.current_symbol == before.current_symbol
                &&& after.current_symbol_bases == before.current_symbol_bases
            }
        }),
{
}

/// What is known of the account changes by an answer with balances, which are all of them, and by
/// one to new keys, which tells whether the exchange takes them.
pub proof fn answers_inform_of_balances_and_keys<F: Number + From<S>, S: Number>(
    after: LiveInfo<F, S>,
    before: LiveInfo<F, S>,
    stage: Stage<F, S>,
    answer: Answer<F>,
)
    requires
        BinanceClient::<F, S>::fits(stage, answer),
        BinanceClient::<F, S>::informed(after, before, stage, answer),
    ensures
        stage is PlacedBalances || stage is AllBalances ==> (answer matches Answer::Account(a)
            && after.acc_balances@ == account_balances(a.ok())) && after == (LiveInfo {
            acc_balances: after.acc_balances,
            ..before
        }),
        stage is Keys ==> (answer matches Answer::Done(r) && (after.keys_status == KeysStatus::Valid
            <==> r is Ok)) && after == (LiveInfo { keys_status: after.keys_status, ..before }),
        !(stage is PlacedBalances || stage is AllBalances || stage is Keys) ==> after == before,
{
}

/// What is left for the stream: a new asset that the exchange has is called for at once, or the
/// stream is closed with the channels of that asset; once all is up to date it is to connect
/// again. Nothing else is left, and nothing at all without a stream.
pub proof fn the_stream_is_told_of_a_new_asset<F: Number + From<S>, S: Number>(
    c: BinanceClient<F, S>,
    after: Mailbox<F>,
    before: Mailbox<F>,
    stage: Stage<F, S>,
    answer: Answer<F>,
)
    requires
        c.posted(after, before, stage, answer),
    ensures
        !c.has_stream ==> after == before,
        after.queue == before.queue,
        c.has_stream ==> (stage matches Stage::Validating { symbol, quick } ==> (answer
            == Answer::<F>::Valid(Ok(true)) ==> (quick ==> after.change_symbol == Some(symbol)
            && after.disconnect == before.disconnect && after.reconnect == before.reconnect
            && after.params == before.params) && (!quick ==> after.disconnect && !after.reconnect
            && after.change_symbol == before.change_symbol && after.params@.dom() == set![symbol@]
            && crate::json::views(after.params@[symbol@]@) == stream::channels(
            stream::lower(symbol@),
        )))),
        stage is Validating && answer != Answer::<F>::Valid(Ok(true)) ==> after == before,
        c.has_stream && (stage matches Stage::RefreshPair { then, .. } && then is Reconnect)
            ==> !after.disconnect && after.reconnect && after.params == before.params
            && after.change_symbol == before.change_symbol,
        !(stage is Validating) && !(stage matches Stage::RefreshPair { then, .. }
            && then is Reconnect) ==> after == before,
{
}

/// Those who show the asset are told once it is up to date, of the balances and the names of its
/// pair, free and locked each in its place; at the start they are told of an asset that the
/// exchange does not have, too.
pub proof fn those_who_show_the_asset_are_told<F: Number + From<S>, S: Number>(
    c: BinanceClient<F, S>,
    after: LiveAsset<F>,
    before: LiveAsset<F>,
    stage: Stage<F, S>,
    answer: Answer<F>,
)
    requires
        c.published(after, before, stage, answer),
    ensures
        (stage is RefreshPair || stage is StartBalances) ==> after.acc_balances@ == c.balances@
            && after.current_pair_strings == c.current_symbol_bases
            && after.current_pair_free_balances.0 == c.base_balances.0
            && after.current_pair_free_balances.1 == c.qoute_balances.0
            && after.current_pair_locked_balances.0 == c.base_balances.1
            && after.current_pair_locked_balances.1 == c.qoute_balances.1
            && after.live_asset_symbol_changed.0,
        stage matches Stage::RefreshPair { symbol, .. } ==> after.live_asset_symbol_changed.1
            == symbol,
        stage matches Stage::StartBalances { symbol, .. } ==> after.live_asset_symbol_changed.1
            == symbol,
        stage matches Stage::StartValidating { symbol } ==> if answer == Answer::<F>::Valid(Ok(false)) {
            after.live_asset_symbol_changed == (true, symbol)
        } else {
            after == before
        },
        !(stage is RefreshPair || stage is StartBalances || stage is StartValidating) ==> after
            == before,
{
}

/// The watch on the orders takes what it was told of an asset of the pair, locked and then free,
/// and keeps the old balances of one that it was told nothing of.
pub proof fn the_watch_keeps_what_it_was_not_told<F, S>(
    live: LiveInfo<F, S>,
    a1: Option<(F, F)>,
    a2: Option<(F, F)>,
)
    ensures
        ({
            let b = checked_pair(live, a1, a2);
            &&& a1 matches Some(x) ==> b.locked_a1 == x.0 && b.free_a1 == x.1
            &&& a2 matches Some(x) ==> b.locked_a2 == x.0 && b.free_a2 == x.1
            &&& a1 is None ==> b.locked_a1 == live.current_pair_locked_balances.0 && b.free_a1
                == live.current_pair_free_balances.0
            &&& a2 is None ==> b.locked_a2 == live.current_pair_locked_balances.1 && b.free_a2
                == live.current_pair_free_balances.1
        }),
{
}

} // verus!
