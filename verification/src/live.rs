//! What is known of the account at the exchange.

use crate::keymap::KeyMap;
use crate::num;
use crate::num::Number;
use crate::trade::Order;
use vstd::prelude::*;

verus! {

/// Whether the exchange takes the keys of the account.
#[derive(Debug, Clone, Copy, PartialEq, Eq, Structural)]
pub enum KeysStatus {
    Invalid,
    Valid,
}

impl Default for KeysStatus {
    fn default() -> (r: KeysStatus)
        ensures
            r == KeysStatus::Invalid,
    {
        KeysStatus::Invalid
    }
}

/// What the exchange last told about the account and the asset on show.
#[derive(Debug)]
pub struct LiveInfo<F, S> {
    /// Whether another asset came on show, and which.
    pub live_asset_symbol_changed: (bool, String),
    /// Free and locked amounts of each asset.
    pub acc_balances: KeyMap<String, (F, F)>,
    /// The two assets of the pair on show.
    pub current_pair_strings: (String, String),
    pub current_pair_free_balances: (F, F),
    pub current_pair_locked_balances: (F, F),
    /// Open orders by their number, and whether each is active.
    pub live_orders: KeyMap<u64, (Order<F, S>, bool)>,
    pub keys_status: KeysStatus,
    pub live_info_changed: bool,
}

impl<F: Number, S: Number> LiveInfo<F, S> {
    /// Each asset has one balance, each number one order.
    pub open spec fn wf(&self) -> bool {
        self.acc_balances.wf() && self.live_orders.wf()
    }

    /// Nothing known.
    pub fn new() -> (r: Self)
        requires
            num::lawful::<F>(),
        ensures
            r.wf(),
            !r.live_asset_symbol_changed.0,
            r.live_asset_symbol_changed.1@ == Seq::<char>::empty(),
            r.acc_balances@ == Map::<Seq<char>, (F, F)>::empty(),
            r.current_pair_strings.0@ == Seq::<char>::empty(),
            r.current_pair_strings.1@ == Seq::<char>::empty(),
            r.current_pair_free_balances == (num::lit::<F>(0), num::lit::<F>(0)),
            r.current_pair_locked_balances == (num::lit::<F>(0), num::lit::<F>(0)),
            r.live_orders@ == Map::<u64, (Order<F, S>, bool)>::empty(),
            r.keys_status == KeysStatus::Invalid,
            !r.live_info_changed,
    {
        let zero: F = num::whole(0);
        LiveInfo {
            live_asset_symbol_changed: (false, String::new()),
            acc_balances: KeyMap::new(),
            current_pair_strings: (String::new(), String::new()),
            current_pair_free_balances: (zero, zero),
            current_pair_locked_balances: (zero, zero),
            live_orders: KeyMap::new(),
            keys_status: KeysStatus::Invalid,
            live_info_changed: false,
        }
    }
}

/// What the exchange last told about the asset that is to come on show.
#[derive(Debug)]
pub struct LiveAsset<F> {
    /// Whether another asset is to come on show, and which.
    pub live_asset_symbol_changed: (bool, String),
    pub acc_balances: KeyMap<String, (F, F)>,
    pub current_pair_strings: (String, String),
    pub current_pair_free_balances: (F, F),
    pub current_pair_locked_balances: (F, F),
}

impl<F: Number> LiveAsset<F> {
    /// Each asset has one balance.
    pub open spec fn wf(&self) -> bool {
        self.acc_balances.wf()
    }

    /// Nothing known.
    pub fn new() -> (r: Self)
        requires
            num::lawful::<F>(),
        ensures
            r.wf(),
            !r.live_asset_symbol_changed.0,
            r.live_asset_symbol_changed.1@ == Seq::<char>::empty(),
            r.acc_balances@ == Map::<Seq<char>, (F, F)>::empty(),
            r.current_pair_strings.0@ == Seq::<char>::empty(),
            r.current_pair_strings.1@ == Seq::<char>::empty(),
            r.current_pair_free_balances == (num::lit::<F>(0), num::lit::<F>(0)),
            r.current_pair_locked_balances == (num::lit::<F>(0), num::lit::<F>(0)),
    {
        let zero: F = num::whole(0);
        LiveAsset {
            live_asset_symbol_changed: (false, String::new()),
            acc_balances: KeyMap::new(),
            current_pair_strings: (String::new(), String::new()),
            current_pair_free_balances: (zero, zero),
            current_pair_locked_balances: (zero, zero),
        }
    }
}

impl<F: Number, S: Number> LiveInfo<F, S> {
    /// This is `before` once it took over what is known of `asset`.
    pub open spec fn took_over(&self, before: &Self, asset: LiveAsset<F>) -> bool {
        &&& self.live_asset_symbol_changed == asset.live_asset_symbol_changed
        &&& self.acc_balances@ == asset.acc_balances@
        &&& self.current_pair_strings == asset.current_pair_strings
        &&& self.current_pair_free_balances == before.current_pair_free_balances
        &&& self.current_pair_locked_balances == before.current_pair_locked_balances
        &&& self.live_orders == before.live_orders
        &&& self.keys_status == before.keys_status
        &&& self.live_info_changed == before.live_info_changed
    }

    /// Takes over what is known of the asset that is to come on show: which one
    /// it is, the balances of the account and the two assets of the pair. The
    /// balances of the pair itself stay, for they are kept by the orders' watch.
    pub fn take_over(&mut self, asset: &LiveAsset<F>)
        requires
            asset.wf(),
            old(self).wf(),
        ensures
            final(self).wf(),
            final(self).took_over(old(self), *asset),
    {
        self.live_asset_symbol_changed = (
            asset.live_asset_symbol_changed.0,
            asset.live_asset_symbol_changed.1.clone(),
        );
        self.acc_balances = asset.acc_balances.duplicate();
        self.current_pair_strings = (
            asset.current_pair_strings.0.clone(),
            asset.current_pair_strings.1.clone(),
        );
    }
}

/// Of the asset that is to come on show, its name, the balances of the account and the names of
/// the pair are taken over; the balances of the pair, the orders and the keys stay.
pub proof fn the_asset_to_come_is_taken_over<F: Number, S: Number>(
    after: LiveInfo<F, S>,
    before: LiveInfo<F, S>,
    asset: LiveAsset<F>,
)
    requires
        after.took_over(&before, asset),
    ensures
        after.live_asset_symbol_changed == asset.live_asset_symbol_changed,
        after.acc_balances@ == asset.acc_balances@,
        after.current_pair_strings == asset.current_pair_strings,
        after == (LiveInfo {
            live_asset_symbol_changed: after.live_asset_symbol_changed,
            acc_balances: after.acc_balances,
            current_pair_strings: after.current_pair_strings,
            ..before
        }),
{
}

} // verus!
