//! The client: which tasks run, and where what the frontend asks for goes.

use crate::intv::Intv;
use crate::message::{BinInstructs, BinResponse, ClientInstruct, ClientResponse, ProcResp};
use crate::message::{SQLInstructs, SQLResponse};
use crate::num::Number;
use crate::settings;
use crate::settings::Settings;
use vstd::prelude::*;

verus! {

/// The settings to start with: those of the file, or those of a first start.
pub fn load_settings<F: Number>(loaded: Option<Settings<F>>) -> (r: Settings<F>)
    ensures
        match loaded {
            Some(s) => r == s,
            None => r.wf() && r.keys() == settings::no_keys() && r.nothing_typed()
                && r.default_asset@ == "BTCUSDT"@ && r.default_intv == Intv::Min1
                && r.enc_api_keys && r.save_api_keys && r.defalt_next_wicks == 30
                && r.backload_wicks == 740 && r.key_status == crate::live::KeysStatus::Invalid
                && r.balances@ == Map::<Seq<char>, (F, F)>::empty(),
        },
{
    match loaded {
        Some(s) => s,
        None => Settings::new(),
    }
}

/// A task of the client.
#[derive(Debug)]
pub enum Tasks {
    /// The frontend.
    Task0Cli,
    /// The exchange.
    Task1BinWS {
        api_key: Option<String>,
        api_secret: Option<String>,
        default_symbol: String,
        default_interval: Intv,
    },
    /// The data base.
    Task3SQL,
}

impl Tasks {
    /// The task of the frontend.
    pub fn new_cli() -> (r: Tasks)
        ensures
            r == Tasks::Task0Cli,
    {
        Tasks::Task0Cli
    }

    /// The task of the exchange. It has keys only where both are there in the
    /// clear.
    pub fn new_binws<F: Number>(global_settings: &Settings<F>) -> (r: Tasks)
        ensures
            ({
                let both = global_settings.binance_pub_key is Some
                    && global_settings.binance_priv_key is Some;
                r == (Tasks::Task1BinWS {
                    api_key: if both {
                        global_settings.binance_pub_key
                    } else {
                        None
                    },
                    api_secret: if both {
                        global_settings.binance_priv_key
                    } else {
                        None
                    },
                    default_symbol: global_settings.default_asset,
                    default_interval: global_settings.default_intv,
                })
            }),
    {
        let (api_key, api_secret) = match (
            &global_settings.binance_pub_key,
            &global_settings.binance_priv_key,
        ) {
            (Some(key), Some(priv_key)) => (Some(key.clone()), Some(priv_key.clone())),
            _ => (None, None),
        };
        Tasks::Task1BinWS {
            api_key,
            api_secret,
            default_symbol: global_settings.default_asset.clone(),
            default_interval: global_settings.default_intv,
        }
    }

    /// The task of the data base.
    pub fn new_sql() -> (r: Tasks)
        ensures
            r == Tasks::Task3SQL,
    {
        Tasks::Task3SQL
    }
}

/// How the client runs.
#[derive(Debug, Clone, Copy, PartialEq, Eq, Structural)]
pub struct CliMode {
    pub mode: Frontend,
}

/// The frontends.
#[derive(Debug, Clone, Copy, PartialEq, Eq, Structural)]
pub enum Frontend {
    Desktop,
}

impl Frontend {
    /// The tasks that run: the frontend, the exchange and the data base, in this
    /// order.
    pub fn init<F: Number>(&self, settings: &Settings<F>) -> (r: Vec<Tasks>)
        ensures
            r@.len() == 3,
            r@[0] == Tasks::Task0Cli,
            r@[1] is Task1BinWS,
            r@[1]->default_symbol == settings.default_asset,
            r@[1]->default_interval == settings.default_intv,
            r@[1]->api_key == (if settings.binance_priv_key is Some {
                settings.binance_pub_key
            } else {
                None
            }),
            r@[1]->api_secret == (if settings.binance_pub_key is Some {
                settings.binance_priv_key
            } else {
                None
            }),
            r@[2] == Tasks::Task3SQL,
    {
        let mut tasks: Vec<Tasks> = Vec::new();
        tasks.push(Tasks::new_cli());
        tasks.push(Tasks::new_binws(settings));
        tasks.push(Tasks::new_sql());
        tasks
    }
}

/// The ends of channels that a task holds.
#[derive(Debug, Clone, Copy, PartialEq, Eq, Structural)]
pub enum ChanEnd {
    /// Instructions of the frontend go out.
    SendClientInstructs,
    /// Answers to the frontend come in.
    ReceiveClientResponses,
    /// Instructions to the exchange come in.
    ReceiveBinInstructs,
    /// Answers of the exchange go out.
    SendBinResponses,
    /// Instructions to the data base come in.
    ReceiveSQLInstructs,
    /// Answers of the data base go out.
    SendSQLResponses,
}

/// The ends of channels that a task holds; the client holds the other ends.
pub fn make_chans(t: &Tasks) -> (r: (ChanEnd, ChanEnd))
    ensures
        r == (match *t {
            Tasks::Task0Cli => (ChanEnd::SendClientInstructs, ChanEnd::ReceiveClientResponses),
            Tasks::Task1BinWS { .. } => (ChanEnd::ReceiveBinInstructs, ChanEnd::SendBinResponses),
            Tasks::Task3SQL => (ChanEnd::ReceiveSQLInstructs, ChanEnd::SendSQLResponses),
        }),
{
    match t {
        Tasks::Task0Cli => (ChanEnd::SendClientInstructs, ChanEnd::ReceiveClientResponses),
        Tasks::Task1BinWS { .. } => (ChanEnd::ReceiveBinInstructs, ChanEnd::SendBinResponses),
        Tasks::Task3SQL => (ChanEnd::ReceiveSQLInstructs, ChanEnd::SendSQLResponses),
    }
}

/// What the client is to do.
#[derive(Debug)]
pub enum ClientAction<F, S> {
    /// Put itself to sleep, and with it the exchange and the data base.
    Sleep,
    /// Wake up.
    Wake,
    /// End every task.
    CancelAll,
    WakeBin,
    SleepBin,
    WakeSQL,
    SleepSQL,
    SendBin(BinInstructs<F, S>),
    SendSQL(SQLInstructs<F>),
}

/// The client knows what to do about the message.
pub open spec fn handled<F, S>(msg: ClientInstruct<F, S>) -> bool {
    !(msg is RestartRemote || msg is Ping || msg is Pong)
}

/// What a message of the frontend calls for. Settings go to the exchange and to
/// the data base, in this order.
pub fn parse_frontend_comm<F: Number, S: Number>(msg: ClientInstruct<F, S>) -> (r: Vec<
    ClientAction<F, S>,
>)
    requires
        handled(msg),
        msg matches ClientInstruct::UpdateSettings(s) ==> s.wf(),
    ensures
        match msg {
            ClientInstruct::Nothing => r@.len() == 0,
            ClientInstruct::Stop => r@ == seq![ClientAction::<F, S>::Sleep],
            ClientInstruct::Start => r@ == seq![ClientAction::<F, S>::Wake],
            ClientInstruct::Terminate => r@ == seq![ClientAction::<F, S>::CancelAll],
            ClientInstruct::UpdateSettings(s) => {
                &&& r@.len() == 2
                &&& r@[0] matches ClientAction::SendBin(BinInstructs::UpdateSettings(b)) && b.wf()
                    && b.copies(&s)
                &&& r@[1] == ClientAction::<F, S>::SendSQL(SQLInstructs::UpdateSettings(s))
            },
            ClientInstruct::StartBinCli => r@ == seq![ClientAction::<F, S>::WakeBin],
            ClientInstruct::StopBinCli => r@ == seq![ClientAction::<F, S>::SleepBin],
            ClientInstruct::SendBinInstructs(i) => r@ == seq![ClientAction::<F, S>::SendBin(i)],
            ClientInstruct::StartSQL => r@ == seq![ClientAction::<F, S>::WakeSQL],
            ClientInstruct::StopSQL => r@ == seq![ClientAction::<F, S>::SleepSQL],
            ClientInstruct::SendSQLInstructs(i) => r@ == seq![ClientAction::<F, S>::SendSQL(i)],
            _ => true,
        },
{
    let mut out: Vec<ClientAction<F, S>> = Vec::new();
    match msg {
        ClientInstruct::Nothing => {},
        ClientInstruct::Stop => {
            out.push(ClientAction::Sleep);
        },
        ClientInstruct::Start => {
            out.push(ClientAction::Wake);
        },
        ClientInstruct::Terminate => {
            out.push(ClientAction::CancelAll);
        },
        ClientInstruct::UpdateSettings(settings) => {
            out.push(ClientAction::SendBin(BinInstructs::UpdateSettings(settings.duplicate())));
            out.push(ClientAction::SendSQL(SQLInstructs::UpdateSettings(settings)));
        },
        ClientInstruct::StartBinCli => {
            out.push(ClientAction::WakeBin);
        },
        ClientInstruct::StopBinCli => {
            out.push(ClientAction::SleepBin);
        },
        ClientInstruct::SendBinInstructs(instructs) => {
            out.push(ClientAction::SendBin(instructs));
        },
        ClientInstruct::StartSQL => {
            out.push(ClientAction::WakeSQL);
        },
        ClientInstruct::StopSQL => {
            out.push(ClientAction::SleepSQL);
        },
        ClientInstruct::SendSQLInstructs(instructs) => {
            out.push(ClientAction::SendSQL(instructs));
        },
        _ => {},
    }
    out
}

/// Whether the client knows what to do about the message.
pub fn is_handled<F, S>(msg: &ClientInstruct<F, S>) -> (r: bool)
    ensures
        r == handled(*msg),
{
    match msg {
        ClientInstruct::RestartRemote => false,
        ClientInstruct::Ping(_) => false,
        ClientInstruct::Pong(_) => false,
        _ => true,
    }
}

/// The answer of the exchange or of the data base, as the frontend gets it.
pub fn listen_proc_resp(bin: Option<BinResponse>, sql: Option<SQLResponse>) -> (r: Vec<
    ClientResponse,
>)
    ensures
        r@ == (match bin {
            Some(b) => seq![ClientResponse::ProcResp(ProcResp::BinResp(b))],
            None => Seq::empty(),
        }) + (match sql {
            Some(s) => seq![ClientResponse::ProcResp(ProcResp::SQLResp(s))],
            None => Seq::empty(),
        }),
{
    let mut out: Vec<ClientResponse> = Vec::new();
    if let Some(b) = bin {
        out.push(ClientResponse::ProcResp(ProcResp::BinResp(b)));
    }
    if let Some(s) = sql {
        out.push(ClientResponse::ProcResp(ProcResp::SQLResp(s)));
    }
    out
}

/// The client knows what to do about everything but a restart from afar and a sign of life.
pub proof fn most_messages_are_handled<F, S>(msg: ClientInstruct<F, S>)
    ensures
        msg is RestartRemote || msg is Ping || msg is Pong ==> !handled(msg),
        !(msg is RestartRemote) && !(msg is Ping) && !(msg is Pong) ==> handled(msg),
{
}

} // verus!
