//! The exchange: what it says of its assets, and everything that speaks with it.

pub use crate::exchange::{Answer, BinanceClient, Chore, Next, Stage};
pub use crate::orders::{BinanceOrder, OrderRequest, OrderSide, OrderType};
pub use crate::stream::{get_ws_params2, Mailbox, SymbolOutput, WSTick};
pub use crate::tick::{AggTrade, AggTradeWS, BinWSResponse, GetKline, KlineTick};
use vstd::prelude::*;

verus! {

/// An asset pair of the spot market.
#[allow(non_snake_case)]
#[derive(Debug, Clone)]
pub struct SymbolInfo {
    pub symbol: String,
    pub status: String,
    pub baseAsset: String,
    pub baseAssetPrecision: i64,
    pub quoteAsset: String,
    pub quotePrecision: i64,
    pub quoteAssetPrecision: i64,
    pub baseCommissionPrecision: i64,
    pub quoteCommissionPrecision: i64,
}

/// An asset pair of the futures market.
#[allow(non_snake_case)]
#[derive(Debug)]
pub struct FutSymbolInfo {
    pub symbol: String,
    pub status: String,
    pub deliveryDate: i64,
    pub onboardDate: i64,
    pub baseAsset: String,
    pub baseAssetPrecision: i64,
    pub quoteAsset: String,
    pub quotePrecision: i64,
}

/// The asset pair `symbol` is among `list`.
pub open spec fn listed(list: Seq<SymbolInfo>, symbol: Seq<char>) -> bool {
    exists|i: int| 0 <= i < list.len() && (#[trigger] list[i]).symbol@ == symbol
}

/// The place of the asset pair `symbol` among `list`: the first one that has its
/// name.
fn place_of(list: &Vec<SymbolInfo>, symbol: &str) -> (r: Option<usize>)
    ensures
        match r {
            Some(i) => {
                &&& i < list@.len()
                &&& list@[i as int].symbol@ == symbol@
                &&& forall|j: int| 0 <= j < i ==> (#[trigger] list@[j]).symbol@ != symbol@
            },
            None => !listed(list@, symbol@),
        },
{
    let mut i: usize = 0;
    while i < list.len()
        invariant
            i <= list@.len(),
            forall|j: int| 0 <= j < i ==> (#[trigger] list@[j]).symbol@ != symbol@,
        decreases list@.len() - i,
    {
        if crate::text::same(list[i].symbol.as_str(), symbol) {
            return Some(i);
        }
        i += 1;
    }
    None
}

/// Whether the exchange has the asset pair `symbol`, `list` being all that it
/// has.
pub fn validate_asset_binance(list: &Vec<SymbolInfo>, symbol: &str) -> (r: bool)
    ensures
        r == listed(list@, symbol@),
{
    match place_of(list, symbol) {
        Some(i) => {
            assert(list@[i as int].symbol@ == symbol@);
            true
        },
        None => false,
    }
}

/// The two assets that the pair `symbol` is made of, `list` being all that the
/// exchange has.
pub fn get_asset_bases_binance(list: &Vec<SymbolInfo>, symbol: &str) -> (r: Option<(String, String)>)
    ensures
        match r {
            Some((base, quote)) => exists|i: int|
                0 <= i < list@.len() && (#[trigger] list@[i]).symbol@ == symbol@ && base
                    == list@[i].baseAsset && quote == list@[i].quoteAsset && forall|j: int|
                    0 <= j < i ==> (#[trigger] list@[j]).symbol@ != symbol@,
            None => !listed(list@, symbol@),
        },
{
    match place_of(list, symbol) {
        Some(i) => {
            assert(list@[i as int].symbol@ == symbol@);
            Some((list[i].baseAsset.clone(), list[i].quoteAsset.clone()))
        },
        None => None,
    }
}

/// A pair is among those of the exchange exactly where one of them has its name.
pub proof fn a_listed_pair_has_its_name(list: Seq<SymbolInfo>, i: int, symbol: Seq<char>)
    ensures
        0 <= i < list.len() ==> listed(list, list[i].symbol@),
        (forall|j: int| 0 <= j < list.len() ==> (#[trigger] list[j]).symbol@ != symbol) ==> !listed(
            list,
            symbol,
        ),
{
}

} // verus!
