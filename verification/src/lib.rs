//! The logic of a desktop program for trading on Binance: candles and where they
//! are kept, orders live and over the past, the streams of the exchange, and
//! what the windows show and ask for.
//!
//! Prices and amounts are numbers of any type that adds, compares and divides;
//! see [`num`]. The program that draws the windows, speaks with the exchange and
//! writes to disk stands around this library.

pub mod client;
pub mod conn;
pub mod crypt;
pub mod data;
pub mod database;
pub mod download;
pub mod exchange;
pub mod hotkeys;
pub mod intv;
pub mod json;
pub mod keymap;
pub mod live;
pub mod manual;
pub mod message;
pub mod num;
pub mod orders;
pub mod panes;
pub mod plot;
pub mod reader;
pub mod rounds;
pub mod settings;
pub mod single;
pub mod stream;
pub mod text;
pub mod tick;
pub mod time;
pub mod trade;
pub mod windows;

pub use message::{BinInstructs, BinResponse, ClientInstruct, ClientResponse};
pub use message::{GeneralError, ProcResp, SQLInstructs, SQLResponse};
