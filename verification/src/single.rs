//! Single order mode: one order, placed, moved and taken back by hotkeys.

use crate::hotkeys;
use crate::hotkeys::{Market, Presses, Shaped};
use crate::message::{BinInstructs, ClientInstruct};
use crate::num;
use crate::num::Number;
use crate::orders::LiveOrders;
use crate::reader;
use crate::trade::{Order, Quant};
use vstd::prelude::*;

verus! {

/// The mode, and how far its order has come.
#[derive(Debug)]
pub struct SingleOrderMode<F, S> {
    pub hk_active: bool,
    pub shaped: Shaped<F, S>,
    pub order_prev_active: bool,
    pub show_hotkey_hints: bool,
    pub order_id: u64,
    pub asset1_held: bool,
    pub order_active_after_change: bool,
    pub k0_intv_s: String,
    pub k1_intv_s: String,
    pub k0_i: S,
    pub k1_i: S,
    pub live_order_placed: bool,
    pub order_placed: bool,
}

/// The mode without the texts as they are kept, its open orders, and the
/// messages sent.
pub struct Scene<F, S> {
    pub shaped: Shaped<F, S>,
    pub order_prev_active: bool,
    pub order_id: u64,
    pub asset1_held: bool,
    pub order_active_after_change: bool,
    pub k0_text: Seq<char>,
    pub k1_text: Seq<char>,
    pub k0_i: S,
    pub k1_i: S,
    pub live_order_placed: bool,
    pub order_placed: bool,
    pub orders: Map<u64, (Order<F, S>, bool)>,
    pub sent: Seq<ClientInstruct<F, S>>,
}

/// The message that cancels every order on an asset.
pub open spec fn cancel_all<F, S>(symbol: String) -> ClientInstruct<F, S> {
    ClientInstruct::SendBinInstructs(BinInstructs::CancelAllOrders { symbol })
}

/// The message that puts an order in the place of another.
pub open spec fn replace<F, S>(id: u64, symbol: String, o: Order<F, S>) -> ClientInstruct<F, S> {
    ClientInstruct::SendBinInstructs(BinInstructs::CancelAndReplaceOrder { id, symbol, o })
}

/// The message that places an order.
pub open spec fn place<F, S>(symbol: String, o: Order<F, S>) -> ClientInstruct<F, S> {
    ClientInstruct::SendBinInstructs(BinInstructs::PlaceOrder { symbol, o })
}

/// The message that cancels an order.
pub open spec fn cancel<F, S>(id: u64, symbol: String, o: Order<F, S>) -> ClientInstruct<F, S> {
    ClientInstruct::SendBinInstructs(BinInstructs::CancelOrder { id, symbol, o })
}

/// The order that sells all of the first asset at once.
pub open spec fn sell_all<F, S>() -> Order<F, S> {
    Order::Market { buy: false, quant: Quant::Q100 }
}

impl<F: Number + From<S>, S: Number> Scene<F, S> {
    /// The first asset counts as held once there was more of it than of the
    /// second.
    pub open spec fn held(self, asset1: F, asset2: F) -> Self {
        Scene { asset1_held: self.asset1_held || num::greater(asset1, asset2), ..self }
    }

    /// The order was to be deleted.
    pub open spec fn deleted(self, symbol: String, hist: bool) -> Self {
        if !self.shaped.delete_order {
            self
        } else if hist {
            Scene {
                orders: Map::empty(),
                shaped: Shaped { order_adjusted: false, order_active: false, ..self.shaped },
                order_placed: false,
                ..self
            }
        } else {
            Scene {
                sent: self.sent.push(cancel_all(symbol)),
                shaped: Shaped { order_adjusted: false, ..self.shaped },
                live_order_placed: false,
                order_placed: false,
                ..self
            }
        }
    }

    /// The order was to be turned on or off. Over candles of the past it is then
    /// the only one, active every second time; live it is put in place, and
    /// every second time taken back.
    pub open spec fn toggled(self, symbol: String, hist: bool) -> Self {
        if !self.shaped.order_active {
            self
        } else if hist {
            Scene {
                orders: Map::empty().insert(
                    self.order_id,
                    (self.shaped.order, self.order_prev_active),
                ),
                order_prev_active: !self.order_prev_active,
                ..self
            }
        } else if self.order_prev_active {
            Scene { sent: self.sent.push(cancel_all(symbol)), order_prev_active: false, ..self }
        } else {
            Scene {
                sent: self.sent.push(replace(self.order_id, symbol, self.shaped.order)),
                live_order_placed: true,
                order_prev_active: true,
                ..self
            }
        }
    }

    /// Everything was to be sold at once.
    pub open spec fn sold(self, symbol: String, hist: bool, sell_now: bool) -> Self {
        if self.asset1_held && sell_now && !hist {
            Scene {
                sent: self.sent.push(cancel_all(symbol)).push(place(symbol, sell_all())),
                ..self
            }
        } else {
            self
        }
    }

    /// The sizes of the steps were to be read. A text that is no number is
    /// replaced by a zero.
    pub open spec fn stepped<N: Fn(&str) -> Option<S>>(self, read: N) -> Self {
        if !self.shaped.parse_ks {
            self
        } else {
            let k0 = reader::number::<S, N>(read, self.k0_text);
            let k1 = reader::number::<S, N>(read, self.k1_text);
            Scene {
                k0_i: match k0 {
                    Some(k) => k,
                    None => num::lit(0),
                },
                k0_text: if k0 is Some {
                    self.k0_text
                } else {
                    "0.0"@
                },
                k1_i: match k1 {
                    Some(k) => k,
                    None => num::lit(0),
                },
                k1_text: if k1 is Some {
                    self.k1_text
                } else {
                    "0.0"@
                },
                shaped: Shaped { parse_ks: false, ..self.shaped },
                ..self
            }
        }
    }

    /// The order was to be placed. Over candles of the past it is there, not yet
    /// active, and the next one has a number of its own; live it is sent only
    /// where it is active.
    pub open spec fn placed(self, symbol: String, hist: bool) -> Self {
        if !self.shaped.place_order {
            self
        } else if hist {
            Scene {
                orders: self.orders.insert(self.order_id, (self.shaped.order, false)),
                order_id: (self.order_id + 1) as u64,
                shaped: Shaped { place_order: false, ..self.shaped },
                order_placed: true,
                ..self
            }
        } else if self.shaped.order_active {
            Scene {
                sent: self.sent.push(place(symbol, self.shaped.order)),
                live_order_placed: true,
                shaped: Shaped { place_order: false, order_adjusted: false, ..self.shaped },
                order_placed: true,
                ..self
            }
        } else {
            Scene {
                shaped: Shaped { place_order: false, ..self.shaped },
                order_placed: true,
                ..self
            }
        }
    }

    /// An order that was placed was moved. It stays active only where that is
    /// asked for.
    pub open spec fn adjusted(self, symbol: String, hist: bool) -> Self {
        if !(self.shaped.order_adjusted && self.order_placed) {
            self
        } else {
            let shaped = Shaped { order_adjusted: false, ..self.shaped };
            if hist {
                let id = (self.order_id + 1) as u64;
                Scene {
                    orders: Map::empty().insert(
                        id,
                        (self.shaped.order, self.order_active_after_change),
                    ),
                    order_id: id,
                    shaped,
                    ..self
                }
            } else if self.order_active_after_change {
                Scene {
                    sent: self.sent.push(replace(self.order_id, symbol, self.shaped.order)),
                    live_order_placed: true,
                    shaped,
                    ..self
                }
            } else {
                Scene {
                    sent: self.sent.push(cancel(self.order_id, symbol, self.shaped.order)),
                    live_order_placed: false,
                    shaped,
                    ..self
                }
            }
        }
    }

    /// What one round comes to before the new presses count.
    pub open spec fn settled<N: Fn(&str) -> Option<S>>(
        self,
        symbol: String,
        hist: bool,
        asset1: F,
        asset2: F,
        sell_now: bool,
        read: N,
    ) -> Self {
        self.taken_back(symbol, hist, asset1, asset2, sell_now).put_in_place(symbol, hist, read)
    }

    /// The first half of a round: what is deleted, turned on or off, and sold.
    pub open spec fn taken_back(
        self,
        symbol: String,
        hist: bool,
        asset1: F,
        asset2: F,
        sell_now: bool,
    ) -> Self {
        self.held(asset1, asset2).deleted(symbol, hist).toggled(symbol, hist).sold(
            symbol,
            hist,
            sell_now,
        )
    }

    /// The second half of a round: the sizes of the steps, what is placed, and
    /// what was moved.
    pub open spec fn put_in_place<N: Fn(&str) -> Option<S>>(
        self,
        symbol: String,
        hist: bool,
        read: N,
    ) -> Self {
        self.stepped(read).placed(symbol, hist).adjusted(symbol, hist)
    }

    /// What the hotkeys go by.
    pub open spec fn market(self, last_price: F) -> Market<F, S> {
        Market {
            last_price,
            asset1_held: self.asset1_held,
            order_active_after_change: self.order_active_after_change,
            k0_i: self.k0_i,
            k1_i: self.k1_i,
        }
    }
}

/// What one round of the mode is given.
#[derive(Debug, Clone, Copy)]
pub struct Round<F> {
    pub last_price: F,
    /// The amounts held.
    pub asset1: F,
    pub asset2: F,
    /// The orders run over candles of the past.
    pub hist_trade: bool,
    pub presses: Presses,
    /// Sell everything at once, where the hotkeys are on.
    pub sell_now: bool,
}

impl<F: Number + From<S>, S: Number> SingleOrderMode<F, S> {
    /// The mode with these open orders, these messages sent.
    pub open spec fn scene(
        &self,
        orders: Map<u64, (Order<F, S>, bool)>,
        sent: Seq<ClientInstruct<F, S>>,
    ) -> Scene<F, S> {
        Scene {
            shaped: self.shaped,
            order_prev_active: self.order_prev_active,
            order_id: self.order_id,
            asset1_held: self.asset1_held,
            order_active_after_change: self.order_active_after_change,
            k0_text: self.k0_intv_s@,
            k1_text: self.k1_intv_s@,
            k0_i: self.k0_i,
            k1_i: self.k1_i,
            live_order_placed: self.live_order_placed,
            order_placed: self.order_placed,
            orders,
            sent,
        }
    }

    /// This is the mode before its first order.
    pub open spec fn fresh(&self) -> bool {
        &&& !self.hk_active
        &&& self.show_hotkey_hints
        &&& self.scene(Map::empty(), Seq::empty()) == (Scene {
            shaped: Shaped {
                order: Order::Nothing,
                order_active: false,
                k0_n: 0,
                k1_n: 0,
                parse_ks: false,
                place_order: false,
                order_adjusted: false,
                delete_order: false,
                last_order_price: num::lit::<F>(0),
            },
            order_prev_active: false,
            order_id: 0,
            asset1_held: false,
            order_active_after_change: false,
            k0_text: "0.002"@,
            k1_text: "0.0005"@,
            k0_i: num::frac::<S>(2, 1000),
            k1_i: num::frac::<S>(5, 10_000),
            live_order_placed: false,
            order_placed: false,
            orders: Map::empty(),
            sent: Seq::empty(),
        })
    }

    /// The mode before its first order.
    pub fn new() -> (r: Self)
        requires
            num::lawful::<F>(),
            num::lawful::<S>(),
        ensures
            r.fresh(),
    {
        SingleOrderMode {
            hk_active: false,
            shaped: Shaped {
                order: Order::Nothing,
                order_active: false,
                k0_n: 0,
                k1_n: 0,
                parse_ks: false,
                place_order: false,
                order_adjusted: false,
                delete_order: false,
                last_order_price: num::whole(0),
            },
            order_prev_active: false,
            show_hotkey_hints: true,
            order_id: 0,
            asset1_held: false,
            order_active_after_change: false,
            k0_intv_s: "0.002".to_owned(),
            k1_intv_s: "0.0005".to_owned(),
            k0_i: num::fraction(2, 1000),
            k1_i: num::fraction(5, 10_000),
            live_order_placed: false,
            order_placed: false,
        }
    }

    fn delete(
        &mut self,
        orders: &mut LiveOrders<F, S>,
        sent: &mut Vec<ClientInstruct<F, S>>,
        symbol: &String,
        hist: bool,
    )
        requires
            old(orders).wf(),
        ensures
            final(orders).wf(),
            final(self).scene(final(orders)@, final(sent)@) == old(self).scene(
                old(orders)@,
                old(sent)@,
            ).deleted(*symbol, hist),
            final(self).order_id == old(self).order_id,
            final(self).hk_active == old(self).hk_active,
            final(self).show_hotkey_hints == old(self).show_hotkey_hints,
    {
        if self.shaped.delete_order {
            if hist {
                orders.clear();
                self.shaped.order_adjusted = false;
                self.shaped.order_active = false;
            } else {
                sent.push(
                    ClientInstruct::SendBinInstructs(
                        BinInstructs::CancelAllOrders { symbol: symbol.clone() },
                    ),
                );
                self.shaped.order_adjusted = false;
                self.live_order_placed = false;
            }
            self.order_placed = false;
        }
    }

    fn toggle(
        &mut self,
        orders: &mut LiveOrders<F, S>,
        sent: &mut Vec<ClientInstruct<F, S>>,
        symbol: &String,
        hist: bool,
    )
        requires
            old(orders).wf(),
        ensures
            final(orders).wf(),
            final(self).scene(final(orders)@, final(sent)@) == old(self).scene(
                old(orders)@,
                old(sent)@,
            ).toggled(*symbol, hist),
            final(self).order_id == old(self).order_id,
            final(self).hk_active == old(self).hk_active,
            final(self).show_hotkey_hints == old(self).show_hotkey_hints,
    {
        if self.shaped.order_active {
            if hist {
                orders.clear();
                let _ = orders.insert(self.order_id, (self.shaped.order, self.order_prev_active));
                self.order_prev_active = !self.order_prev_active;
            } else if self.order_prev_active {
                sent.push(
                    ClientInstruct::SendBinInstructs(
                        BinInstructs::CancelAllOrders { symbol: symbol.clone() },
                    ),
                );
                self.order_prev_active = false;
            } else {
                sent.push(
                    ClientInstruct::SendBinInstructs(
                        BinInstructs::CancelAndReplaceOrder {
                            id: self.order_id,
                            symbol: symbol.clone(),
                            o: self.shaped.order,
                        },
                    ),
                );
                self.live_order_placed = true;
                self.order_prev_active = true;
            }
        }
    }

    fn read_steps<N: Fn(&str) -> Option<S>>(&mut self, read: &N)
        requires
            num::lawful::<S>(),
            reader::steady::<S, N>(*read),
        ensures
            forall|orders: Map<u64, (Order<F, S>, bool)>, sent: Seq<ClientInstruct<F, S>>|
                #[trigger] final(self).scene(orders, sent) == old(self).scene(
                    orders,
                    sent,
                ).stepped::<N>(*read),
            final(self).order_id == old(self).order_id,
            final(self).hk_active == old(self).hk_active,
            final(self).show_hotkey_hints == old(self).show_hotkey_hints,
    {
        if self.shaped.parse_ks {
            self.k0_i =
            match reader::read_number(read, self.k0_intv_s.as_str()) {
                Some(k) => k,
                None => {
                    self.k0_intv_s = "0.0".to_owned();
                    num::whole(0)
                },
            };
            self.k1_i =
            match reader::read_number(read, self.k1_intv_s.as_str()) {
                Some(k) => k,
                None => {
                    self.k1_intv_s = "0.0".to_owned();
                    num::whole(0)
                },
            };
            self.shaped.parse_ks = false;
        }
    }

    fn place(
        &mut self,
        orders: &mut LiveOrders<F, S>,
        sent: &mut Vec<ClientInstruct<F, S>>,
        symbol: &String,
        hist: bool,
    )
        requires
            old(orders).wf(),
            old(self).order_id < u64::MAX,
        ensures
            final(orders).wf(),
            final(self).scene(final(orders)@, final(sent)@) == old(self).scene(
                old(orders)@,
                old(sent)@,
            ).placed(*symbol, hist),
            final(self).order_id <= old(self).order_id + 1,
            final(self).hk_active == old(self).hk_active,
            final(self).show_hotkey_hints == old(self).show_hotkey_hints,
    {
        if self.shaped.place_order {
            if hist {
                let _ = orders.insert(self.order_id, (self.shaped.order, false));
                self.order_id = self.order_id + 1;
            } else if self.shaped.order_active {
                sent.push(
                    ClientInstruct::SendBinInstructs(
                        BinInstructs::PlaceOrder { symbol: symbol.clone(), o: self.shaped.order },
                    ),
                );
                self.live_order_placed = true;
                self.shaped.order_adjusted = false;
            }
            self.shaped.place_order = false;
            self.order_placed = true;
        }
    }

    fn adjust(
        &mut self,
        orders: &mut LiveOrders<F, S>,
        sent: &mut Vec<ClientInstruct<F, S>>,
        symbol: &String,
        hist: bool,
    )
        requires
            old(orders).wf(),
            old(self).order_id < u64::MAX,
        ensures
            final(orders).wf(),
            final(self).scene(final(orders)@, final(sent)@) == old(self).scene(
                old(orders)@,
                old(sent)@,
            ).adjusted(*symbol, hist),
            final(self).hk_active == old(self).hk_active,
            final(self).show_hotkey_hints == old(self).show_hotkey_hints,
    {
        if self.shaped.order_adjusted && self.order_placed {
            if hist {
                orders.clear();
                self.order_id = self.order_id + 1;
                let _ = orders.insert(
                    self.order_id,
                    (self.shaped.order, self.order_active_after_change),
                );
            } else if self.order_active_after_change {
                sent.push(
                    ClientInstruct::SendBinInstructs(
                        BinInstructs::CancelAndReplaceOrder {
                            id: self.order_id,
                            symbol: symbol.clone(),
                            o: self.shaped.order,
                        },
                    ),
                );
                self.live_order_placed = true;
            } else {
                sent.push(
                    ClientInstruct::SendBinInstructs(
                        BinInstructs::CancelOrder {
                            id: self.order_id,
                            symbol: symbol.clone(),
                            o: self.shaped.order,
                        },
                    ),
                );
                self.live_order_placed = false;
            }
            self.shaped.order_adjusted = false;
        }
    }

    fn take_back(
        &mut self,
        orders: &mut LiveOrders<F, S>,
        sent: &mut Vec<ClientInstruct<F, S>>,
        symbol: &String,
        round: &Round<F>,
    )
        requires
            num::lawful::<F>(),
            old(orders).wf(),
        ensures
            final(orders).wf(),
            final(self).scene(final(orders)@, final(sent)@) == old(self).scene(
                old(orders)@,
                old(sent)@,
            ).taken_back(
                *symbol,
                round.hist_trade,
                round.asset1,
                round.asset2,
                old(self).hk_active && round.sell_now,
            ),
            final(self).order_id == old(self).order_id,
            final(self).hk_active == old(self).hk_active,
            final(self).show_hotkey_hints == old(self).show_hotkey_hints,
    {
        let hist = round.hist_trade;
        if round.asset1 > round.asset2 {
            self.asset1_held = true;
        }
        self.delete(orders, sent, symbol, hist);
        self.toggle(orders, sent, symbol, hist);
        if self.asset1_held && self.hk_active && round.sell_now && !hist {
            sent.push(
                ClientInstruct::SendBinInstructs(
                    BinInstructs::CancelAllOrders { symbol: symbol.clone() },
                ),
            );
            sent.push(
                ClientInstruct::SendBinInstructs(
                    BinInstructs::PlaceOrder {
                        symbol: symbol.clone(),
                        o: Order::Market { buy: false, quant: Quant::Q100 },
                    },
                ),
            );
        }
    }

    fn put_in_place<N: Fn(&str) -> Option<S>>(
        &mut self,
        orders: &mut LiveOrders<F, S>,
        sent: &mut Vec<ClientInstruct<F, S>>,
        symbol: &String,
        hist: bool,
        read: &N,
    )
        requires
            num::lawful::<S>(),
            reader::steady::<S, N>(*read),
            old(orders).wf(),
            old(self).order_id <= u64::MAX - 2,
        ensures
            final(orders).wf(),
            final(self).scene(final(orders)@, final(sent)@) == old(self).scene(
                old(orders)@,
                old(sent)@,
            ).put_in_place::<N>(*symbol, hist, *read),
            final(self).hk_active == old(self).hk_active,
            final(self).show_hotkey_hints == old(self).show_hotkey_hints,
    {
        self.read_steps(read);
        self.place(orders, sent, symbol, hist);
        self.adjust(orders, sent, symbol, hist);
    }

    /// The presses of a round that count: none while the hotkeys are off.
    pub open spec fn counting(&self, round: Round<F>) -> Presses {
        if self.hk_active {
            round.presses
        } else {
            hotkeys::no_presses()
        }
    }

    /// What the hotkeys of a round need once it is settled: the steps that they take
    /// are defined, and there is room to count them.
    pub open spec fn shapes<
        N: Fn(&str) -> Option<S>,
        R: Fn(i64) -> F,
        T: Fn(i64) -> S,
        W: Fn(F) -> S,
    >(&self, symbol: String, round: Round<F>, read: N, long: R, short: T, narrow: W) -> bool {
        let s = self.scene(Map::empty(), Seq::empty()).settled::<N>(
            symbol,
            round.hist_trade,
            round.asset1,
            round.asset2,
            self.hk_active && round.sell_now,
            read,
        );
        s.shaped.presses_defined::<R, T, W>(
            self.counting(round),
            s.market(round.last_price),
            long,
            short,
            narrow,
        )
    }

    /// What one round comes to: what the last round asked for is done, then the
    /// presses of this round shape the order, while the hotkeys are on.
    pub open spec fn after_round<
        N: Fn(&str) -> Option<S>,
        R: Fn(i64) -> F,
        T: Fn(i64) -> S,
        W: Fn(F) -> S,
    >(
        &self,
        orders: Map<u64, (Order<F, S>, bool)>,
        symbol: String,
        round: Round<F>,
        read: N,
        long: R,
        short: T,
        narrow: W,
    ) -> Scene<F, S> {
        let s = self.scene(orders, Seq::empty()).settled::<N>(
            symbol,
            round.hist_trade,
            round.asset1,
            round.asset2,
            self.hk_active && round.sell_now,
            read,
        );
        Scene {
            shaped: s.shaped.pressed::<R, T, W>(
                self.counting(round),
                s.market(round.last_price),
                long,
                short,
                narrow,
            ),
            ..s
        }
    }

    /// One round of the mode: what the last round asked for is done to the open
    /// orders or sent, then the presses of this round shape the order. `read`
    /// reads the sizes of the steps, `long` and `short` make numbers of whole
    /// ones, `narrow` makes a short number of a long one.
    pub fn show<N: Fn(&str) -> Option<S>, R: Fn(i64) -> F, T: Fn(i64) -> S, W: Fn(F) -> S>(
        &mut self,
        orders: &mut LiveOrders<F, S>,
        symbol: &String,
        round: &Round<F>,
        read: &N,
        long: &R,
        short: &T,
        narrow: &W,
    ) -> (r: Vec<ClientInstruct<F, S>>)
        requires
            num::lawful::<F>(),
            num::lawful::<S>(),
            num::widens::<S, F>(),
            reader::steady::<S, N>(*read),
            reader::pure::<i64, F, R>(*long),
            reader::pure::<i64, S, T>(*short),
            reader::pure::<F, S, W>(*narrow),
            old(orders).wf(),
            old(self).order_id <= u64::MAX - 2,
            old(self).shapes::<N, R, T, W>(*symbol, *round, *read, *long, *short, *narrow),
        ensures
            final(orders).wf(),
            final(self).scene(final(orders)@, r@) == old(self).after_round::<N, R, T, W>(
                old(orders)@,
                *symbol,
                *round,
                *read,
                *long,
                *short,
                *narrow,
            ),
            final(self).hk_active == old(self).hk_active,
            final(self).show_hotkey_hints == old(self).show_hotkey_hints,
    {
        proof {
            let a = old(self).scene(Map::empty(), Seq::empty());
            let b = old(self).scene(old(orders)@, Seq::empty());
            let sell_now = old(self).hk_active && round.sell_now;
            taken_back_mode_is_its_own(a, b, *symbol, *round, sell_now);
            placed_mode_is_its_own(
                a.taken_back(*symbol, round.hist_trade, round.asset1, round.asset2, sell_now),
                b.taken_back(*symbol, round.hist_trade, round.asset1, round.asset2, sell_now),
                *symbol,
                round.hist_trade,
                *read,
            );
        }
        let mut sent: Vec<ClientInstruct<F, S>> = Vec::new();
        assert(sent@ =~= Seq::empty());
        self.take_back(orders, &mut sent, symbol, round);
        self.put_in_place(orders, &mut sent, symbol, round.hist_trade, read);
        let market = Market {
            last_price: round.last_price,
            asset1_held: self.asset1_held,
            order_active_after_change: self.order_active_after_change,
            k0_i: self.k0_i,
            k1_i: self.k1_i,
        };
        let presses = round.presses.counted(self.hk_active);
        self.shaped =
        self.shaped.hotkey_order_single(presses, &market, long, short, narrow);
        sent
    }
}

/// Both modes are alike, whatever their orders and messages.
pub open spec fn same_mode<F, S>(a: Scene<F, S>, b: Scene<F, S>) -> bool {
    a == (Scene { orders: a.orders, sent: a.sent, ..b })
}

proof fn taken_back_mode_is_its_own<F: Number + From<S>, S: Number>(
    a: Scene<F, S>,
    b: Scene<F, S>,
    symbol: String,
    round: Round<F>,
    sell_now: bool,
)
    requires
        same_mode(a, b),
    ensures
        same_mode(
            a.taken_back(symbol, round.hist_trade, round.asset1, round.asset2, sell_now),
            b.taken_back(symbol, round.hist_trade, round.asset1, round.asset2, sell_now),
        ),
{
}

proof fn placed_mode_is_its_own<F: Number + From<S>, S: Number, N: Fn(&str) -> Option<S>>(
    a: Scene<F, S>,
    b: Scene<F, S>,
    symbol: String,
    hist: bool,
    read: N,
)
    requires
        same_mode(a, b),
    ensures
        same_mode(
            a.put_in_place::<N>(symbol, hist, read),
            b.put_in_place::<N>(symbol, hist, read),
        ),
{
}

/// Over candles of the past nothing goes to the exchange.
pub proof fn past_sends_nothing<F: Number + From<S>, S: Number, N: Fn(&str) -> Option<S>>(
    s: Scene<F, S>,
    symbol: String,
    asset1: F,
    asset2: F,
    sell_now: bool,
    read: N,
)
    ensures
        s.settled::<N>(symbol, true, asset1, asset2, sell_now, read).sent == s.sent,
{
}

/// Live, the open orders are left to the exchange.
pub proof fn live_keeps_the_orders<F: Number + From<S>, S: Number, N: Fn(&str) -> Option<S>>(
    s: Scene<F, S>,
    symbol: String,
    asset1: F,
    asset2: F,
    sell_now: bool,
    read: N,
)
    ensures
        s.settled::<N>(symbol, false, asset1, asset2, sell_now, read).orders == s.orders,
{
}

/// Each message asks for what its name says, on the asset and for the order given.
pub proof fn messages_ask_for_what_they_say<F: Number + From<S>, S: Number>(
    id: u64,
    symbol: String,
    o: Order<F, S>,
)
    ensures
        cancel_all::<F, S>(symbol) == ClientInstruct::<F, S>::SendBinInstructs(
            BinInstructs::CancelAllOrders { symbol },
        ),
        place(symbol, o) == ClientInstruct::<F, S>::SendBinInstructs(
            BinInstructs::PlaceOrder { symbol, o },
        ),
        cancel(id, symbol, o) == ClientInstruct::<F, S>::SendBinInstructs(
            BinInstructs::CancelOrder { id, symbol, o },
        ),
        replace(id, symbol, o) == ClientInstruct::<F, S>::SendBinInstructs(
            BinInstructs::CancelAndReplaceOrder { id, symbol, o },
        ),
        sell_all::<F, S>() is Market && !sell_all::<F, S>().buys() && sell_all::<F, S>().size() is Q100,
{
}

/// The first asset counts as held from the round on in which there is more of it than of the
/// second, and for good.
pub proof fn held_from_the_first_time_on(s: Scene<u64, u32>, asset1: u64, asset2: u64)
    ensures
        s.held(asset1, asset2).asset1_held <==> s.asset1_held || asset1 > asset2,
        s.held(asset1, asset2) == (Scene {
            asset1_held: s.held(asset1, asset2).asset1_held,
            ..s
        }),
{
    num::unsigned_compare(asset1, asset2);
}

/// Deleting happens only where it was asked for. Over candles of the past every open order is
/// gone then; live one message cancels them all. The order counts as placed no more.
pub proof fn deleting_takes_every_order_away<F: Number + From<S>, S: Number>(
    s: Scene<F, S>,
    symbol: String,
    hist: bool,
)
    ensures
        ({
            let r = s.deleted(symbol, hist);
            let asked = s.shaped.delete_order;
            &&& !asked ==> r == s
            &&& asked ==> !r.order_placed && !r.shaped.order_adjusted && r.shaped.order
                == s.shaped.order && r.order_id == s.order_id && r.order_prev_active
                == s.order_prev_active && r.shaped.delete_order
            &&& asked && hist ==> r.orders.dom() == Set::<u64>::empty() && !r.shaped.order_active
                && r.sent == s.sent && r.live_order_placed == s.live_order_placed
            &&& asked && !hist ==> r.orders == s.orders && r.sent == s.sent.push(
                ClientInstruct::<F, S>::SendBinInstructs(BinInstructs::CancelAllOrders { symbol }),
            ) && !r.live_order_placed && r.shaped.order_active == s.shaped.order_active
        }),
{
    let r = s.deleted(symbol, hist);
    if s.shaped.delete_order && hist {
        assert(r.orders.dom() =~= Set::<u64>::empty());
    }
}

/// Turning the order on or off happens only where it was asked for, and each time the other
/// way round. Over candles of the past the order is the only one then, under its number; live
/// it is put in the place of the one there, or every order is canceled.
pub proof fn turning_on_and_off_takes_turns<F: Number + From<S>, S: Number>(
    s: Scene<F, S>,
    symbol: String,
    hist: bool,
    id: u64,
)
    ensures
        ({
            let r = s.toggled(symbol, hist);
            let asked = s.shaped.order_active;
            &&& !asked ==> r == s
            &&& asked ==> r.order_prev_active == !s.order_prev_active && r.shaped == s.shaped
                && r.order_id == s.order_id && r.order_placed == s.order_placed
            &&& asked && hist ==> r.sent == s.sent && (r.orders.dom().contains(id) <==> id
                == s.order_id) && r.orders[s.order_id] == (s.shaped.order, s.order_prev_active)
            &&& asked && !hist ==> r.orders == s.orders && r.sent.len() == s.sent.len() + 1
                && r.sent.drop_last() == s.sent
            &&& asked && !hist && s.order_prev_active ==> r.sent.last() == ClientInstruct::<
                F,
                S,
            >::SendBinInstructs(BinInstructs::CancelAllOrders { symbol }) && r.live_order_placed
                == s.live_order_placed
            &&& asked && !hist && !s.order_prev_active ==> r.sent.last() == ClientInstruct::<
                F,
                S,
            >::SendBinInstructs(
                BinInstructs::CancelAndReplaceOrder { id: s.order_id, symbol, o: s.shaped.order },
            ) && r.live_order_placed
        }),
{
    let r = s.toggled(symbol, hist);
    if s.shaped.order_active && !hist {
        assert(r.sent.drop_last() =~= s.sent);
    }
}

/// Everything is sold at once only live, only where it is asked for, and only while the first
/// asset is held: first every order is canceled, then all of it goes at the market.
pub proof fn selling_at_once_cancels_first<F: Number + From<S>, S: Number>(
    s: Scene<F, S>,
    symbol: String,
    hist: bool,
    sell_now: bool,
)
    ensures
        ({
            let r = s.sold(symbol, hist, sell_now);
            &&& hist || !sell_now || !s.asset1_held ==> r == s
            &&& !hist && sell_now && s.asset1_held ==> r.sent == s.sent + seq![
                ClientInstruct::<F, S>::SendBinInstructs(BinInstructs::CancelAllOrders { symbol }),
                ClientInstruct::<F, S>::SendBinInstructs(
                    BinInstructs::PlaceOrder {
                        symbol,
                        o: Order::Market { buy: false, quant: Quant::Q100 },
                    },
                ),
            ] && r == (Scene { sent: r.sent, ..s })
        }),
{
    let r = s.sold(symbol, hist, sell_now);
    if !hist && sell_now && s.asset1_held {
        assert(r.sent =~= s.sent + seq![
            ClientInstruct::<F, S>::SendBinInstructs(BinInstructs::CancelAllOrders { symbol }),
            ClientInstruct::<F, S>::SendBinInstructs(
                BinInstructs::PlaceOrder {
                    symbol,
                    o: Order::Market { buy: false, quant: Quant::Q100 },
                },
            ),
        ]);
    }
}

/// The sizes of the steps are read only where that was asked for: each is the number in its own
/// text, and a text that is none becomes a zero.
pub proof fn steps_are_read_off_their_texts<
    F: Number + From<S>,
    S: Number,
    N: Fn(&str) -> Option<S>,
>(s: Scene<F, S>, read: N)
    ensures
        ({
            let r = s.stepped::<N>(read);
            &&& !s.shaped.parse_ks ==> r == s
            &&& !r.shaped.parse_ks
            &&& s.shaped.parse_ks ==> match reader::number::<S, N>(read, s.k0_text) {
                Some(k) => r.k0_i == k && r.k0_text == s.k0_text,
                None => r.k0_i == num::lit::<S>(0) && r.k0_text == "0.0"@,
            }
            &&& s.shaped.parse_ks ==> match reader::number::<S, N>(read, s.k1_text) {
                Some(k) => r.k1_i == k && r.k1_text == s.k1_text,
                None => r.k1_i == num::lit::<S>(0) && r.k1_text == "0.0"@,
            }
            &&& r.shaped.order == s.shaped.order && r.orders == s.orders && r.sent == s.sent
                && r.order_id == s.order_id && r.asset1_held == s.asset1_held
        }),
{
}

/// An order is placed only where that was asked for, and once. Over candles of the past it is
/// there beside the others, not yet active, and the next one has the next number; live it is
/// sent where it is active.
pub proof fn placing_puts_the_order_in<F: Number + From<S>, S: Number>(
    s: Scene<F, S>,
    symbol: String,
    hist: bool,
    id: u64,
)
    requires
        s.order_id < u64::MAX,
    ensures
        ({
            let r = s.placed(symbol, hist);
            let asked = s.shaped.place_order;
            &&& !asked ==> r == s
            &&& asked ==> r.order_placed && !r.shaped.place_order && r.shaped.order == s.shaped.order
            &&& asked && hist ==> r.sent == s.sent && r.order_id == s.order_id + 1
                && r.orders.dom().contains(s.order_id) && r.orders[s.order_id] == (
                s.shaped.order,
                false,
            ) && (id != s.order_id ==> (r.orders.dom().contains(id) <==> s.orders.dom().contains(id))
                && (s.orders.dom().contains(id) ==> r.orders[id] == s.orders[id]))
            &&& asked && !hist ==> r.orders == s.orders && r.order_id == s.order_id
            &&& asked && !hist && s.shaped.order_active ==> r.sent == s.sent.push(
                ClientInstruct::<F, S>::SendBinInstructs(
                    BinInstructs::PlaceOrder { symbol, o: s.shaped.order },
                ),
            ) && r.live_order_placed && !r.shaped.order_adjusted
            &&& asked && !hist && !s.shaped.order_active ==> r.sent == s.sent && r.live_order_placed
                == s.live_order_placed
        }),
{
}

/// An order that was placed and moved is put in its new place, once. Over candles of the past
/// it is the only one, under the next number, active where it may be; live it takes the place of
/// the one there where it may stay active, and else that one is canceled.
pub proof fn moved_order_takes_its_new_place<F: Number + From<S>, S: Number>(
    s: Scene<F, S>,
    symbol: String,
    hist: bool,
    id: u64,
)
    requires
        s.order_id < u64::MAX,
    ensures
        ({
            let r = s.adjusted(symbol, hist);
            let due = s.shaped.order_adjusted && s.order_placed;
            &&& !due ==> r == s
            &&& due ==> !r.shaped.order_adjusted && r.shaped.order == s.shaped.order
                && r.order_placed == s.order_placed
            &&& due && hist ==> r.sent == s.sent && r.order_id == s.order_id + 1 && (
            r.orders.dom().contains(id) <==> id == s.order_id + 1) && r.orders[(s.order_id
                + 1) as u64] == (s.shaped.order, s.order_active_after_change)
            &&& due && !hist ==> r.orders == s.orders && r.order_id == s.order_id
                && r.live_order_placed == s.order_active_after_change
            &&& due && !hist && s.order_active_after_change ==> r.sent == s.sent.push(
                ClientInstruct::<F, S>::SendBinInstructs(
                    BinInstructs::CancelAndReplaceOrder {
                        id: s.order_id,
                        symbol,
                        o: s.shaped.order,
                    },
                ),
            )
            &&& due && !hist && !s.order_active_after_change ==> r.sent == s.sent.push(
                ClientInstruct::<F, S>::SendBinInstructs(
                    BinInstructs::CancelOrder { id: s.order_id, symbol, o: s.shaped.order },
                ),
            )
        }),
{
}

/// A round does what the last one asked for, in this order: delete, turn on or off, sell, read
/// the sizes of the steps, place, move.
pub proof fn a_round_settles_in_its_order<
    F: Number + From<S>,
    S: Number,
    N: Fn(&str) -> Option<S>,
>(s: Scene<F, S>, symbol: String, hist: bool, asset1: F, asset2: F, sell_now: bool, read: N)
    ensures
        s.settled::<N>(symbol, hist, asset1, asset2, sell_now, read) == s.held(
            asset1,
            asset2,
        ).deleted(symbol, hist).toggled(symbol, hist).sold(symbol, hist, sell_now).stepped::<N>(
            read,
        ).placed(symbol, hist).adjusted(symbol, hist),
{
}

/// Where nothing is asked for, a round leaves orders and messages alone.
pub proof fn a_quiet_round_changes_nothing<
    F: Number + From<S>,
    S: Number,
    N: Fn(&str) -> Option<S>,
>(s: Scene<F, S>, symbol: String, hist: bool, asset1: F, asset2: F, read: N)
    requires
        !s.shaped.delete_order,
        !s.shaped.order_active,
        !s.shaped.place_order,
        !s.shaped.order_adjusted,
    ensures
        s.settled::<N>(symbol, hist, asset1, asset2, false, read).orders == s.orders,
        s.settled::<N>(symbol, hist, asset1, asset2, false, read).sent == s.sent,
        s.settled::<N>(symbol, hist, asset1, asset2, false, read).order_id == s.order_id,
{
}

/// The hotkeys go by the price given and by what the mode knows.
pub proof fn hotkeys_go_by_the_mode<F: Number + From<S>, S: Number>(s: Scene<F, S>, last_price: F)
    ensures
        ({
            let m = s.market(last_price);
            &&& m.last_price == last_price
            &&& m.asset1_held == s.asset1_held
            &&& m.order_active_after_change == s.order_active_after_change
            &&& m.k0_i == s.k0_i
            &&& m.k1_i == s.k1_i
        }),
{
}

/// The presses of a round count only while the hotkeys are on, and then as they were made. They
/// shape the order that the settled round left, by the market that it left; orders and messages
/// are those of the settled round.
pub proof fn presses_shape_the_settled_order<
    F: Number + From<S>,
    S: Number,
    N: Fn(&str) -> Option<S>,
    R: Fn(i64) -> F,
    T: Fn(i64) -> S,
    W: Fn(F) -> S,
>(
    mode: SingleOrderMode<F, S>,
    orders: Map<u64, (Order<F, S>, bool)>,
    symbol: String,
    round: Round<F>,
    read: N,
    long: R,
    short: T,
    narrow: W,
)
    ensures
        ({
            let settled = mode.scene(orders, Seq::empty()).settled::<N>(
                symbol,
                round.hist_trade,
                round.asset1,
                round.asset2,
                mode.hk_active && round.sell_now,
                read,
            );
            let r = mode.after_round::<N, R, T, W>(orders, symbol, round, read, long, short, narrow);
            let m = settled.market(round.last_price);
            &&& mode.hk_active ==> r.shaped == settled.shaped.pressed::<R, T, W>(
                round.presses,
                m,
                long,
                short,
                narrow,
            ) && mode.counting(round) == round.presses
            &&& !mode.hk_active ==> r.shaped.order == settled.shaped.order && !r.shaped.order_active
                && !r.shaped.delete_order && r.shaped.place_order == settled.shaped.place_order
            &&& r.orders == settled.orders
            &&& r.sent == settled.sent
            &&& r.order_id == settled.order_id
            &&& r.asset1_held == settled.asset1_held
        }),
{
}

/// The mode is read as it stands, with the orders and messages given.
pub proof fn the_scene_is_the_mode<F: Number + From<S>, S: Number>(
    mode: SingleOrderMode<F, S>,
    orders: Map<u64, (Order<F, S>, bool)>,
    sent: Seq<ClientInstruct<F, S>>,
)
    ensures
        ({
            let s = mode.scene(orders, sent);
            &&& s.orders == orders && s.sent == sent && s.shaped == mode.shaped
            &&& s.order_prev_active == mode.order_prev_active && s.order_id == mode.order_id
            &&& s.asset1_held == mode.asset1_held && s.order_active_after_change
                == mode.order_active_after_change
            &&& s.k0_text == mode.k0_intv_s@ && s.k1_text == mode.k1_intv_s@ && s.k0_i == mode.k0_i
                && s.k1_i == mode.k1_i
            &&& s.live_order_placed == mode.live_order_placed && s.order_placed == mode.order_placed
        }),
{
}

/// The mode starts without an order, its hotkeys off and their hints shown. A step of the price
/// is a fifth of a percent, one of the stop a twentieth, and the texts say so.
pub proof fn the_mode_starts_without_an_order<F: Number + From<S>, S: Number>(
    mode: SingleOrderMode<F, S>,
)
    requires
        mode.fresh(),
    ensures
        mode.shaped.order is Nothing,
        !mode.hk_active && mode.show_hotkey_hints,
        !mode.shaped.order_active && !mode.shaped.place_order && !mode.shaped.order_adjusted
            && !mode.shaped.delete_order && !mode.shaped.parse_ks,
        mode.shaped.k0_n == 0 && mode.shaped.k1_n == 0,
        !mode.order_prev_active && !mode.asset1_held && !mode.order_active_after_change
            && !mode.live_order_placed && !mode.order_placed && mode.order_id == 0,
        mode.k0_i == num::quotient(num::lit::<S>(2), num::lit(1000)),
        mode.k1_i == num::quotient(num::lit::<S>(5), num::lit(10_000)),
        mode.k0_intv_s@ == "0.002"@,
        mode.k1_intv_s@ == "0.0005"@,
{
    let s = mode.scene(Map::empty(), Seq::empty());
    assert(s.shaped == mode.shaped);
}

} // verus!
