//! The messages between the parts of the program: what the frontend asks for,
//! and what the data base and the exchange answer.

use crate::keymap::KeyMap;
use crate::settings::Settings;
use crate::text;
use crate::trade::Order;
use vstd::prelude::*;

verus! {

/// What kind of thing went wrong.
#[derive(Debug, Clone, Copy, PartialEq, Eq, Structural, Hash)]
pub enum GeneralError {
    SystemError,
    GetError,
    PutError,
    DATAError,
    Generic,
}

/// An answer of the data base.
#[derive(Debug, PartialEq, Eq, Hash)]
pub enum SQLResponse {
    Nothing,
    Success,
    Failure((String, GeneralError)),
}

impl Clone for SQLResponse {
    fn clone(&self) -> (r: SQLResponse)
        ensures
            r == *self,
    {
        match self {
            SQLResponse::Nothing => SQLResponse::Nothing,
            SQLResponse::Success => SQLResponse::Success,
            SQLResponse::Failure((text, kind)) => SQLResponse::Failure((text.clone(), *kind)),
        }
    }
}

impl SQLResponse {
    /// Both are the same answer.
    pub open spec fn same_as(self, other: SQLResponse) -> bool {
        match (self, other) {
            (SQLResponse::Nothing, SQLResponse::Nothing) => true,
            (SQLResponse::Success, SQLResponse::Success) => true,
            (SQLResponse::Failure((a, k)), SQLResponse::Failure((b, l))) => a@ == b@ && k == l,
            _ => false,
        }
    }

    /// Whether both are the same answer.
    pub fn same(&self, other: &SQLResponse) -> (r: bool)
        ensures
            r == self.same_as(*other),
    {
        match (self, other) {
            (SQLResponse::Nothing, SQLResponse::Nothing) => true,
            (SQLResponse::Success, SQLResponse::Success) => true,
            (SQLResponse::Failure((a, k)), SQLResponse::Failure((b, l))) => text::same(
                a.as_str(),
                b.as_str(),
            ) && *k == *l,
            _ => false,
        }
    }

    /// The answer to an instruction: its success, or the text of its error.
    pub fn of(result: Result<(), String>) -> (r: SQLResponse)
        ensures
            match result {
                Ok(_) => r == SQLResponse::Success,
                Err(e) => r == SQLResponse::Failure((e, GeneralError::Generic)),
            },
    {
        match result {
            Ok(_) => SQLResponse::Success,
            Err(e) => SQLResponse::Failure((e, GeneralError::Generic)),
        }
    }
}

/// An answer of the exchange.
#[derive(Debug, PartialEq, Eq, Hash)]
pub enum BinResponse {
    Nothing,
    Success,
    Failure((String, GeneralError)),
    OrderStatus(u64),
}

impl Clone for BinResponse {
    fn clone(&self) -> (r: BinResponse)
        ensures
            r == *self,
    {
        match self {
            BinResponse::Nothing => BinResponse::Nothing,
            BinResponse::Success => BinResponse::Success,
            BinResponse::Failure((text, kind)) => BinResponse::Failure((text.clone(), *kind)),
            BinResponse::OrderStatus(id) => BinResponse::OrderStatus(*id),
        }
    }
}

impl BinResponse {
    /// Both are the same answer.
    pub open spec fn same_as(self, other: BinResponse) -> bool {
        match (self, other) {
            (BinResponse::Nothing, BinResponse::Nothing) => true,
            (BinResponse::Success, BinResponse::Success) => true,
            (BinResponse::Failure((a, k)), BinResponse::Failure((b, l))) => a@ == b@ && k == l,
            (BinResponse::OrderStatus(a), BinResponse::OrderStatus(b)) => a == b,
            _ => false,
        }
    }

    /// Whether both are the same answer.
    pub fn same(&self, other: &BinResponse) -> (r: bool)
        ensures
            r == self.same_as(*other),
    {
        match (self, other) {
            (BinResponse::Nothing, BinResponse::Nothing) => true,
            (BinResponse::Success, BinResponse::Success) => true,
            (BinResponse::Failure((a, k)), BinResponse::Failure((b, l))) => text::same(
                a.as_str(),
                b.as_str(),
            ) && *k == *l,
            (BinResponse::OrderStatus(a), BinResponse::OrderStatus(b)) => *a == *b,
            _ => false,
        }
    }

    /// The answer to an instruction: its success, or the text of its error.
    pub fn of(result: Result<(), String>) -> (r: BinResponse)
        ensures
            match result {
                Ok(_) => r == BinResponse::Success,
                Err(e) => r == BinResponse::Failure((e, GeneralError::Generic)),
            },
    {
        match result {
            Ok(_) => BinResponse::Success,
            Err(e) => BinResponse::Failure((e, GeneralError::Generic)),
        }
    }
}

/// An answer, and which part of the program gave it.
#[derive(Debug, PartialEq, Eq, Hash)]
pub enum ProcResp {
    BinResp(BinResponse),
    SQLResp(SQLResponse),
    Client,
}

impl Clone for ProcResp {
    fn clone(&self) -> (r: ProcResp)
        ensures
            r == *self,
    {
        match self {
            ProcResp::BinResp(r) => ProcResp::BinResp(r.clone()),
            ProcResp::SQLResp(r) => ProcResp::SQLResp(r.clone()),
            ProcResp::Client => ProcResp::Client,
        }
    }
}

impl ProcResp {
    /// Both are the same answer, of the same part of the program.
    pub open spec fn same_as(self, other: ProcResp) -> bool {
        match (self, other) {
            (ProcResp::BinResp(a), ProcResp::BinResp(b)) => a.same_as(b),
            (ProcResp::SQLResp(a), ProcResp::SQLResp(b)) => a.same_as(b),
            (ProcResp::Client, ProcResp::Client) => true,
            _ => false,
        }
    }

    /// Whether both are the same answer, of the same part of the program.
    pub fn same(&self, other: &ProcResp) -> (r: bool)
        ensures
            r == self.same_as(*other),
    {
        match (self, other) {
            (ProcResp::BinResp(a), ProcResp::BinResp(b)) => a.same(b),
            (ProcResp::SQLResp(a), ProcResp::SQLResp(b)) => a.same(b),
            (ProcResp::Client, ProcResp::Client) => true,
            _ => false,
        }
    }
}

impl Default for ProcResp {
    fn default() -> (r: ProcResp)
        ensures
            r == ProcResp::Client,
    {
        ProcResp::Client
    }
}

/// An answer to the frontend.
#[derive(Debug, PartialEq, Eq)]
pub enum ClientResponse {
    Nothing,
    Success,
    Failure((String, u32)),
    ProcResp(ProcResp),
}

impl Clone for ClientResponse {
    fn clone(&self) -> (r: ClientResponse)
        ensures
            r == *self,
    {
        match self {
            ClientResponse::Nothing => ClientResponse::Nothing,
            ClientResponse::Success => ClientResponse::Success,
            ClientResponse::Failure((text, n)) => ClientResponse::Failure((text.clone(), *n)),
            ClientResponse::ProcResp(r) => ClientResponse::ProcResp(r.clone()),
        }
    }
}

impl ClientResponse {
    /// Both are the same answer.
    pub open spec fn same_as(self, other: ClientResponse) -> bool {
        match (self, other) {
            (ClientResponse::Nothing, ClientResponse::Nothing) => true,
            (ClientResponse::Success, ClientResponse::Success) => true,
            (ClientResponse::Failure((a, n)), ClientResponse::Failure((b, m))) => a@ == b@ && n
                == m,
            (ClientResponse::ProcResp(a), ClientResponse::ProcResp(b)) => a.same_as(b),
            _ => false,
        }
    }

    /// Whether both are the same answer.
    pub fn same(&self, other: &ClientResponse) -> (r: bool)
        ensures
            r == self.same_as(*other),
    {
        match (self, other) {
            (ClientResponse::Nothing, ClientResponse::Nothing) => true,
            (ClientResponse::Success, ClientResponse::Success) => true,
            (ClientResponse::Failure((a, n)), ClientResponse::Failure((b, m))) => text::same(
                a.as_str(),
                b.as_str(),
            ) && *n == *m,
            (ClientResponse::ProcResp(a), ClientResponse::ProcResp(b)) => a.same(b),
            _ => false,
        }
    }
}

/// What the data base is asked to do.
#[derive(Debug)]
pub enum SQLInstructs<F> {
    Nothing,
    UpdateSettings(Settings<F>),
    LoadHistData { symbol: String },
    LoadHistDataPart { symbol: String, start: i64, end: i64 },
    LoadHistDataPart2 { symbol: String, backload_wicks: i64, trade_time: i64 },
    UnloadHistData { symbol: String },
    LoadTradeRecord { id: u32 },
    UpdateDataBinance { symbol: String },
    UpdateDataAll,
    DelAsset { symbol: String },
    DelAll,
    LoadDLAssetList,
    InsertDLAsset { symbol: String, exchange: String },
    ValidateDLAsset { symbol: String },
    ValidateBinanceAsset { symbol: String },
}

/// What the exchange is asked to do.
#[derive(Debug)]
pub enum BinInstructs<F, S> {
    Nothing,
    ConnectWS { params: KeyMap<String, Vec<String>> },
    ReConnectWS,
    ConnectUserWS { params: Vec<String> },
    Disconnect,
    GetUserData,
    UpdateSettings(Settings<F>),
    GetAllBalances,
    GetBalance { symbol: String },
    AddReplaceApiKeys { pub_key: String, priv_key: String },
    RemoveApiKeys,
    PlaceOrder { symbol: String, o: Order<F, S> },
    CancelAndReplaceOrder { id: u64, symbol: String, o: Order<F, S> },
    CancelOrder { id: u64, symbol: String, o: Order<F, S> },
    CancelAllOrders { symbol: String },
    ChangeLiveAsset { symbol: String, defualt_symbol: String },
    ChangeLiveAsset2 { symbol: String },
}

/// What the frontend asks for.
#[derive(Debug)]
pub enum ClientInstruct<F, S> {
    Nothing,
    Stop,
    Start,
    Terminate,
    RestartRemote,
    UpdateSettings(Settings<F>),
    StartBinCli,
    StopBinCli,
    SendBinInstructs(BinInstructs<F, S>),
    StartSQL,
    StopSQL,
    SendSQLInstructs(SQLInstructs<F>),
    Ping(i64),
    Pong(i64),
}

impl<F> Default for SQLInstructs<F> {
    fn default() -> (r: SQLInstructs<F>)
        ensures
            r == SQLInstructs::<F>::Nothing,
    {
        SQLInstructs::Nothing
    }
}

impl<F> SQLInstructs<F> {
    /// The name of the instruction, for a log.
    pub fn to_str(&self) -> (r: &'static str)
        ensures
            r@ == (match *self {
                SQLInstructs::Nothing => "SQLInstructs: None"@,
                SQLInstructs::UpdateSettings(_) => "SQLInstructs: update settings"@,
                SQLInstructs::LoadHistData { .. } => "SQLInstructs: Load Hist Data"@,
                SQLInstructs::LoadHistDataPart { .. } => "SQLInstructs: Load Hist Data partially"@,
                SQLInstructs::LoadHistDataPart2 { .. } => "SQLInstructs: Load Hist Data partially2"@,
                SQLInstructs::UnloadHistData { .. } => "SQLInstructs: Unload Hist Data"@,
                SQLInstructs::LoadTradeRecord { .. } => "SQLInstructs: Load Trade Record"@,
                SQLInstructs::UpdateDataBinance { .. } => "SQLInstructs: Update data binance"@,
                SQLInstructs::UpdateDataAll => "SQLInstructs: Update all data"@,
                SQLInstructs::DelAsset { .. } => "SQLInstructs: Delete data for an asset"@,
                SQLInstructs::DelAll => "SQLInstructs: Delete all data"@,
                SQLInstructs::LoadDLAssetList => "Load downloaded asset list"@,
                SQLInstructs::InsertDLAsset { .. } => "SQLInstructs: Insert symbol for download"@,
                SQLInstructs::ValidateDLAsset { .. } => "SQLInstructs: Validate symbol for download"@,
                SQLInstructs::ValidateBinanceAsset { .. } => "SQLInstructs: Validate symbol for download"@,
            }),
    {
        match self {
            SQLInstructs::Nothing => "SQLInstructs: None",
            SQLInstructs::UpdateSettings(_) => "SQLInstructs: update settings",
            SQLInstructs::LoadHistData { .. } => "SQLInstructs: Load Hist Data",
            SQLInstructs::LoadHistDataPart { .. } => "SQLInstructs: Load Hist Data partially",
            SQLInstructs::LoadHistDataPart2 { .. } => "SQLInstructs: Load Hist Data partially2",
            SQLInstructs::UnloadHistData { .. } => "SQLInstructs: Unload Hist Data",
            SQLInstructs::LoadTradeRecord { .. } => "SQLInstructs: Load Trade Record",
            SQLInstructs::UpdateDataBinance { .. } => "SQLInstructs: Update data binance",
            SQLInstructs::UpdateDataAll => "SQLInstructs: Update all data",
            SQLInstructs::DelAsset { .. } => "SQLInstructs: Delete data for an asset",
            SQLInstructs::DelAll => "SQLInstructs: Delete all data",
            SQLInstructs::LoadDLAssetList => "Load downloaded asset list",
            SQLInstructs::InsertDLAsset { .. } => "SQLInstructs: Insert symbol for download",
            SQLInstructs::ValidateDLAsset { .. } => "SQLInstructs: Validate symbol for download",
            SQLInstructs::ValidateBinanceAsset { .. } => "SQLInstructs: Validate symbol for download",
        }
    }
}

impl<F, S> Default for BinInstructs<F, S> {
    fn default() -> (r: BinInstructs<F, S>)
        ensures
            r == BinInstructs::<F, S>::Nothing,
    {
        BinInstructs::Nothing
    }
}

impl<F, S> BinInstructs<F, S> {
    /// The name of the instruction, for a log.
    pub fn to_str(&self) -> (r: &'static str)
        ensures
            r@ == (match *self {
                BinInstructs::Nothing => "BinInstruct: None"@,
                BinInstructs::ConnectWS { .. } => "BinInstruct: Connect WS"@,
                BinInstructs::ConnectUserWS { .. } => "BinInstruct: Connect User WS"@,
                BinInstructs::Disconnect => "BinInstruct: Disconnect"@,
                BinInstructs::ReConnectWS => "BinInstruct: Reconnect"@,
                BinInstructs::UpdateSettings(_) => "BinInstructs: update settings"@,
                BinInstructs::GetUserData => "BinInstruct: GetUserData"@,
                BinInstructs::GetAllBalances => "Get all balances Binance"@,
                BinInstructs::GetBalance { .. } => "Get balance for a Symbol"@,
                BinInstructs::RemoveApiKeys => "Remove API keys"@,
                BinInstructs::AddReplaceApiKeys { .. } => "Add or replace API keys"@,
                BinInstructs::PlaceOrder { .. } => "BinInstruct: Place Order"@,
                BinInstructs::CancelAndReplaceOrder { .. } => "Cancel and replace order"@,
                BinInstructs::CancelOrder { .. } => "Cancel and Orderreplace order"@,
                BinInstructs::CancelAllOrders { .. } => "BinInstruct: Cancel All Orders"@,
                BinInstructs::ChangeLiveAsset { .. } => "BinInstruct: Change symbol"@,
                BinInstructs::ChangeLiveAsset2 { .. } => "BinInstruct: Change symbol2"@,
            }),
    {
        match self {
            BinInstructs::Nothing => "BinInstruct: None",
            BinInstructs::ConnectWS { .. } => "BinInstruct: Connect WS",
            BinInstructs::ConnectUserWS { .. } => "BinInstruct: Connect User WS",
            BinInstructs::Disconnect => "BinInstruct: Disconnect",
            BinInstructs::ReConnectWS => "BinInstruct: Reconnect",
            BinInstructs::UpdateSettings(_) => "BinInstructs: update settings",
            BinInstructs::GetUserData => "BinInstruct: GetUserData",
            BinInstructs::GetAllBalances => "Get all balances Binance",
            BinInstructs::GetBalance { .. } => "Get balance for a Symbol",
            BinInstructs::RemoveApiKeys => "Remove API keys",
            BinInstructs::AddReplaceApiKeys { .. } => "Add or replace API keys",
            BinInstructs::PlaceOrder { .. } => "BinInstruct: Place Order",
            BinInstructs::CancelAndReplaceOrder { .. } => "Cancel and replace order",
            BinInstructs::CancelOrder { .. } => "Cancel and Orderreplace order",
            BinInstructs::CancelAllOrders { .. } => "BinInstruct: Cancel All Orders",
            BinInstructs::ChangeLiveAsset { .. } => "BinInstruct: Change symbol",
            BinInstructs::ChangeLiveAsset2 { .. } => "BinInstruct: Change symbol2",
        }
    }
}

impl<F, S> ClientInstruct<F, S> {
    /// The name of the instruction, for a log.
    pub fn to_str(&self) -> (r: &'static str)
        ensures
            r@ == (match *self {
                ClientInstruct::Nothing => "None"@,
                ClientInstruct::Stop => "Stop"@,
                ClientInstruct::Start => "Start"@,
                ClientInstruct::Terminate => "Terminate"@,
                ClientInstruct::RestartRemote => "Restart Remote"@,
                ClientInstruct::UpdateSettings(_) => "Update Settings"@,
                ClientInstruct::StartBinCli => "Start Bin Client"@,
                ClientInstruct::StopBinCli => "Stop Bin Client"@,
                ClientInstruct::SendBinInstructs(_) => "Send Bin Instructs"@,
                ClientInstruct::StartSQL => "Start SQL"@,
                ClientInstruct::StopSQL => "Stop SQL"@,
                ClientInstruct::SendSQLInstructs(_) => "Send SQL Instructs"@,
                ClientInstruct::Ping(_) => "Ping"@,
                ClientInstruct::Pong(_) => "Pong"@,
            }),
    {
        match self {
            ClientInstruct::Nothing => "None",
            ClientInstruct::Stop => "Stop",
            ClientInstruct::Start => "Start",
            ClientInstruct::Terminate => "Terminate",
            ClientInstruct::RestartRemote => "Restart Remote",
            ClientInstruct::UpdateSettings(_) => "Update Settings",
            ClientInstruct::StartBinCli => "Start Bin Client",
            ClientInstruct::StopBinCli => "Stop Bin Client",
            ClientInstruct::SendBinInstructs(_) => "Send Bin Instructs",
            ClientInstruct::StartSQL => "Start SQL",
            ClientInstruct::StopSQL => "Stop SQL",
            ClientInstruct::SendSQLInstructs(_) => "Send SQL Instructs",
            ClientInstruct::Ping(_) => "Ping",
            ClientInstruct::Pong(_) => "Pong",
        }
    }
}

/// Two answers are the same where they say the same, and a failure says its text and its kind.
pub proof fn the_same_answer_says_the_same(a: BinResponse, b: BinResponse, c: SQLResponse, d: SQLResponse)
    ensures
        a.same_as(a) && c.same_as(c),
        a.same_as(b) == b.same_as(a),
        c.same_as(d) == d.same_as(c),
        a.same_as(b) ==> (a is Nothing <==> b is Nothing) && (a is Success <==> b is Success) && (
        a is Failure <==> b is Failure) && (a is OrderStatus <==> b is OrderStatus),
        c.same_as(d) ==> (c is Nothing <==> d is Nothing) && (c is Success <==> d is Success) && (
        c is Failure <==> d is Failure),
        (a, b) matches (BinResponse::Failure((s, k)), BinResponse::Failure((t, l))) ==> (a.same_as(b)
            <==> s@ == t@ && k == l),
        (a, b) matches (BinResponse::OrderStatus(m), BinResponse::OrderStatus(n)) ==> (a.same_as(b)
            <==> m == n),
        (c, d) matches (SQLResponse::Failure((s, k)), SQLResponse::Failure((t, l))) ==> (c.same_as(d)
            <==> s@ == t@ && k == l),
{
}

/// Answers of different parts of the program are never the same, and those of one part are where
/// their answers are.
pub proof fn the_same_answer_is_of_the_same_part(
    a: BinResponse,
    b: BinResponse,
    c: SQLResponse,
    d: SQLResponse,
    p: ProcResp,
    q: ProcResp,
)
    ensures
        ProcResp::BinResp(a).same_as(ProcResp::BinResp(b)) <==> a.same_as(b),
        ProcResp::SQLResp(c).same_as(ProcResp::SQLResp(d)) <==> c.same_as(d),
        ProcResp::Client.same_as(ProcResp::Client),
        p.same_as(q) ==> (p is BinResp <==> q is BinResp) && (p is SQLResp <==> q is SQLResp),
        ClientResponse::ProcResp(p).same_as(ClientResponse::ProcResp(q)) <==> p.same_as(q),
{
}

/// Two answers to the frontend are the same where they are of the same kind and say the same.
pub proof fn the_same_answer_to_the_frontend(x: ClientResponse, y: ClientResponse)
    ensures
        x.same_as(x),
        x.same_as(y) == y.same_as(x),
        x.same_as(y) ==> (x is Nothing <==> y is Nothing) && (x is Success <==> y is Success) && (
        x is Failure <==> y is Failure) && (x is ProcResp <==> y is ProcResp),
        (x, y) matches (ClientResponse::Failure((s, m)), ClientResponse::Failure((t, n))) ==> (
        x.same_as(y) <==> s@ == t@ && m == n),
        x is Nothing && y is Nothing || x is Success && y is Success ==> x.same_as(y),
{
}

} // verus!
