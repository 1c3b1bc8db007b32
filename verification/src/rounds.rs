//! A whole round of the window of orders: over candles of the past, or on the
//! exchange.

use crate::data::Wick;
use crate::hotkeys::Presses;
use crate::keymap;
use crate::live::LiveInfo;
use crate::manual;
use crate::manual::{Entry, ManualOrders, Purse};
use crate::message::ClientInstruct;
use crate::num;
use crate::num::Number;
use crate::plot;
use crate::plot::OrderLine;
use crate::reader;
use crate::single::Round;
use crate::trade::{HistTrade, Order};
use vstd::prelude::*;

verus! {

/// What is entered in one round: in the form, and with the hotkeys of single order
/// mode.
#[derive(Debug)]
pub struct Input<F> {
    pub entry: Entry<F>,
    pub presses: Presses,
    /// Sell at once, whatever it brings.
    pub sell_now: bool,
    pub last_price: F,
}

/// Each entry of the list is an order.
spec fn are_orders<F, S>(list: Seq<(u64, Order<F, S>)>) -> bool {
    forall|i: int| 0 <= i < list.len() ==> (#[trigger] list[i]).1 != Order::<F, S>::Nothing
}

proof fn chosen_are_orders<F, S>(entries: Seq<(u64, (Order<F, S>, bool))>, active: bool, n: int)
    requires
        0 <= n <= entries.len(),
        forall|i: int|
            0 <= i < entries.len() ==> (#[trigger] entries[i]).1.0 != Order::<F, S>::Nothing,
    ensures
        are_orders(manual::orders_where(entries, active, n)),
    decreases n,
{
    if n > 0 {
        chosen_are_orders(entries, active, n - 1);
    }
}

proof fn remaining_are_orders<F: Number + From<S>, S: Number>(
    h_trade: HistTrade<F, S>,
    k: Seq<Wick<F>>,
    active: Seq<(u64, Order<F, S>)>,
    n: int,
)
    requires
        0 <= n <= active.len(),
        are_orders(active),
    ensures
        are_orders(h_trade.ran(k, active, n).remaining),
    decreases n,
{
    if n > 0 {
        remaining_are_orders(h_trade, k, active, n - 1);
    }
}

proof fn put_in_are_orders<F, S>(
    m: Map<u64, (Order<F, S>, bool)>,
    list: Seq<(u64, Order<F, S>)>,
    active: bool,
    n: int,
)
    requires
        0 <= n <= list.len(),
        are_orders(list),
        forall|id: u64| #[trigger] m.dom().contains(id) ==> m[id].0 != Order::<F, S>::Nothing,
    ensures
        ({
            let after = manual::with_list(m, list, active, n);
            forall|id: u64| #[trigger]
                after.dom().contains(id) ==> after[id].0 != Order::<F, S>::Nothing
        }),
    decreases n,
{
    if n > 0 {
        put_in_are_orders(m, list, active, n - 1);
    }
}

impl<F: Number + From<S>, S: Number> ManualOrders<F, S> {
    /// The window once it has taken over the names and the balances of the pair on
    /// show.
    pub open spec fn paired(self, live_info: LiveInfo<F, S>) -> Self {
        ManualOrders {
            asset1_name: live_info.current_pair_strings.0,
            asset2_name: live_info.current_pair_strings.1,
            purse: Purse {
                asset1: live_info.current_pair_free_balances.0,
                asset2: live_info.current_pair_free_balances.1,
                asset1_locked: live_info.current_pair_locked_balances.0,
                asset2_locked: live_info.current_pair_locked_balances.1,
            },
            ..self
        }
    }

    /// What a round of single order mode is given.
    pub open spec fn keys_round(&self, input: Input<F>, hist_trade: bool) -> Round<F> {
        Round {
            last_price: input.last_price,
            asset1: self.purse.asset1,
            asset2: self.purse.asset2,
            hist_trade,
            presses: input.presses,
            sell_now: input.sell_now,
        }
    }

    /// Each operation that entering `input` takes is defined.
    pub open spec fn enters<
        P: Fn(&str) -> Option<F>,
        Q: Fn(&str) -> Option<S>,
        R: Fn(i64) -> F,
        T: Fn(i64) -> S,
        W: Fn(F) -> S,
    >(
        &self,
        input: Input<F>,
        live: Option<LiveInfo<F, S>>,
        read: P,
        read_short: Q,
        long: R,
        short: T,
        narrow: W,
    ) -> bool {
        if self.single_order_mode {
            self.so_mode matches Some(m) ==> {
                &&& m.order_id <= u64::MAX - 2
                &&& m.shapes::<Q, R, T, W>(
                    self.current_symbol,
                    self.keys_round(input, live is None),
                    read_short,
                    long,
                    short,
                    narrow,
                )
            }
        } else {
            self.desk(Seq::empty()).round_defined::<P, W>(input.entry, live, read, narrow)
        }
    }

    /// This is the window `before` once `input` was entered and `sent` was sent: in
    /// single order mode the hotkeys count, else the form.
    pub open spec fn entered<
        P: Fn(&str) -> Option<F>,
        Q: Fn(&str) -> Option<S>,
        R: Fn(i64) -> F,
        T: Fn(i64) -> S,
        W: Fn(F) -> S,
    >(
        &self,
        before: Self,
        sent: Seq<ClientInstruct<F, S>>,
        input: Input<F>,
        live: Option<LiveInfo<F, S>>,
        read: P,
        read_short: Q,
        long: R,
        short: T,
        narrow: W,
    ) -> bool {
        if before.single_order_mode {
            match before.so_mode {
                Some(m) => {
                    &&& self.so_mode matches Some(after) && after.hk_active == m.hk_active
                        && after.show_hotkey_hints == m.show_hotkey_hints && after.scene(
                        self.orders@,
                        sent,
                    ) == m.after_round::<Q, R, T, W>(
                        before.orders@,
                        before.current_symbol,
                        before.keys_round(input, live is None),
                        read_short,
                        long,
                        short,
                        narrow,
                    )
                    &&& *self == (ManualOrders {
                        so_mode: self.so_mode,
                        orders: self.orders,
                        ..before
                    })
                },
                None => sent.len() == 0 && *self == before,
            }
        } else {
            &&& self.desk(sent) == before.desk(Seq::empty()).round::<P, W>(
                input.entry,
                live,
                read,
                narrow,
            )
            &&& self.beside(&before, input.entry.single_order_mode)
        }
    }

    /// Enters `input`. Hands out the messages to send.
    pub fn enter<
        P: Fn(&str) -> Option<F>,
        Q: Fn(&str) -> Option<S>,
        R: Fn(i64) -> F,
        T: Fn(i64) -> S,
        W: Fn(F) -> S,
    >(
        &mut self,
        input: &Input<F>,
        live_info: Option<&LiveInfo<F, S>>,
        read: &P,
        read_short: &Q,
        long: &R,
        short: &T,
        narrow: &W,
    ) -> (r: Vec<ClientInstruct<F, S>>)
        requires
            num::lawful::<F>(),
            num::lawful::<S>(),
            num::widens::<S, F>(),
            reader::steady::<F, P>(*read),
            reader::steady::<S, Q>(*read_short),
            reader::pure::<i64, F, R>(*long),
            reader::pure::<i64, S, T>(*short),
            reader::pure::<F, S, W>(*narrow),
            old(self).wf(),
            live_info matches Some(l) ==> l.wf(),
            old(self).enters::<P, Q, R, T, W>(
                *input,
                manual::live_of(live_info),
                *read,
                *read_short,
                *long,
                *short,
                *narrow,
            ),
        ensures
            final(self).wf(),
            final(self).entered::<P, Q, R, T, W>(
                *old(self),
                r@,
                *input,
                manual::live_of(live_info),
                *read,
                *read_short,
                *long,
                *short,
                *narrow,
            ),
    {
        if self.single_order_mode {
            let round = Round {
                last_price: input.last_price,
                asset1: self.purse.asset1,
                asset2: self.purse.asset2,
                hist_trade: live_info.is_none(),
                presses: input.presses,
                sell_now: input.sell_now,
            };
            self.show_singleorder(&round, read_short, long, short, narrow)
        } else {
            self.show_multiorder(&input.entry, live_info, read, narrow)
        }
    }

    /// Every order is one.
    pub open spec fn no_empty_order(&self) -> bool {
        forall|id: u64| #[trigger]
            self.orders@.dom().contains(id) ==> self.orders@[id].0 != Order::<F, S>::Nothing
    }

    /// Running orders leaves no order that is none.
    proof fn no_empty_order_after(&self, h_trade: HistTrade<F, S>, k: Seq<Wick<F>>)
        requires
            self.wf(),
            self.no_empty_order(),
        ensures
            ({
                let run = h_trade.ran(k, self.active(), self.active().len() as int);
                let after = self.orders_after(run.remaining);
                forall|id: u64| #[trigger]
                    after.dom().contains(id) ==> after[id].0 != Order::<F, S>::Nothing
            }),
    {
        let listed = self.orders.listed();
        self.orders.listing();
        chosen_are_orders(listed, true, listed.len() as int);
        chosen_are_orders(listed, false, listed.len() as int);
        let active = self.active();
        remaining_are_orders(h_trade, k, active, active.len() as int);
        let kept = manual::orders_where(listed, false, listed.len() as int);
        let run = h_trade.ran(k, active, active.len() as int);
        put_in_are_orders(Map::empty(), kept, false, kept.len() as int);
        put_in_are_orders(
            manual::with_list(Map::empty(), kept, false, kept.len() as int),
            run.remaining,
            true,
            run.remaining.len() as int,
        );
    }

    /// One round on the exchange: the lines of the orders are drawn, the balances of
    /// the pair taken over, and `input` entered. Hands out the messages to send.
    pub fn show_live<
        P: Fn(&str) -> Option<F>,
        Q: Fn(&str) -> Option<S>,
        R: Fn(i64) -> F,
        T: Fn(i64) -> S,
        W: Fn(F) -> S,
    >(
        &mut self,
        live_info: &LiveInfo<F, S>,
        hlines: &mut Vec<OrderLine<F>>,
        input: &Input<F>,
        read: &P,
        read_short: &Q,
        long: &R,
        short: &T,
        narrow: &W,
    ) -> (r: Vec<ClientInstruct<F, S>>)
        requires
            num::lawful::<F>(),
            num::lawful::<S>(),
            num::widens::<S, F>(),
            reader::steady::<F, P>(*read),
            reader::steady::<S, Q>(*read_short),
            reader::pure::<i64, F, R>(*long),
            reader::pure::<i64, S, T>(*short),
            reader::pure::<F, S, W>(*narrow),
            old(self).wf(),
            live_info.wf(),
            old(self).no_empty_order(),
            old(self).paired(*live_info).enters::<P, Q, R, T, W>(
                *input,
                Some(*live_info),
                *read,
                *read_short,
                *long,
                *short,
                *narrow,
            ),
        ensures
            final(self).wf(),
            plot::line_views(final(hlines)@) == plot::all_lines(
                old(self).orders.listed(),
                old(self).orders.listed().len() as int,
            ),
            final(self).entered::<P, Q, R, T, W>(
                old(self).paired(*live_info),
                r@,
                *input,
                Some(*live_info),
                *read,
                *read_short,
                *long,
                *short,
                *narrow,
            ),
    {
        proof {
            self.orders.listing();
        }
        plot::link_hline_orders(&self.orders, hlines);
        self.sync_pair(live_info);
        self.enter(input, Some(live_info), read, read_short, long, short, narrow)
    }

    /// One round over candles of the past: the active orders run over the slice `k`,
    /// the lines of the orders are drawn, and `input` is entered. Hands out the
    /// messages to send.
    pub fn show_hist<
        B: Fn(F) -> F,
        P: Fn(&str) -> Option<F>,
        Q: Fn(&str) -> Option<S>,
        R: Fn(i64) -> F,
        T: Fn(i64) -> S,
        W: Fn(F) -> S,
    >(
        &mut self,
        h_trade: &mut HistTrade<F, S>,
        k: &[Wick<F>],
        symbol_info: Option<&(String, String, String)>,
        hlines: &mut Vec<OrderLine<F>>,
        input: &Input<F>,
        abs: &B,
        read: &P,
        read_short: &Q,
        long: &R,
        short: &T,
        narrow: &W,
    ) -> (r: Vec<ClientInstruct<F, S>>)
        requires
            num::lawful::<F>(),
            num::lawful::<S>(),
            num::widens::<S, F>(),
            reader::pure::<F, F, B>(*abs),
            reader::steady::<F, P>(*read),
            reader::steady::<S, Q>(*read_short),
            reader::pure::<i64, F, R>(*long),
            reader::pure::<i64, S, T>(*short),
            reader::pure::<F, S, W>(*narrow),
            old(self).wf(),
            old(self).no_empty_order(),
            old(self).runs_on(k@) ==> old(self).past_runs::<B>(*old(h_trade), k@, *abs),
            forall|mid: Self| #[trigger]
                mid.past_shown::<B>(*old(self), *old(h_trade), k@, symbol_info, *abs)
                    ==> mid.enters::<P, Q, R, T, W>(
                    *input,
                    None,
                    *read,
                    *read_short,
                    *long,
                    *short,
                    *narrow,
                ),
        ensures
            final(self).wf(),
            old(self).traded_on(*old(h_trade), *final(h_trade), k@),
            exists|mid: Self|
                {
                    &&& #[trigger] mid.past_shown::<B>(
                        *old(self),
                        *old(h_trade),
                        k@,
                        symbol_info,
                        *abs,
                    )
                    &&& plot::line_views(final(hlines)@) == plot::all_lines(
                        mid.orders.listed(),
                        mid.orders.listed().len() as int,
                    )
                    &&& final(self).entered::<P, Q, R, T, W>(
                        mid,
                        r@,
                        *input,
                        None,
                        *read,
                        *read_short,
                        *long,
                        *short,
                        *narrow,
                    )
                },
    {
        proof {
            self.no_empty_order_after(*h_trade, k@);
        }
        self.show_past(h_trade, k, symbol_info, abs);
        let ghost mid = *self;
        proof {
            self.orders.listing();
        }
        plot::link_hline_orders(&self.orders, hlines);
        self.enter(input, None, read, read_short, long, short, narrow)
    }
}

proof fn chosen_from<F, S>(
    entries: Seq<(u64, (Order<F, S>, bool))>,
    active: bool,
    n: int,
    e: (u64, Order<F, S>),
)
    requires
        0 <= n <= entries.len(),
    ensures
        manual::orders_where(entries, active, n).contains(e) <==> exists|j: int|
            0 <= j < n && #[trigger] entries[j] == (e.0, (e.1, active)),
    decreases n,
{
    if n > 0 {
        chosen_from(entries, active, n - 1, e);
        let before = manual::orders_where(entries, active, n - 1);
        let all = manual::orders_where(entries, active, n);
        let last = entries[n - 1];
        if last.1.1 == active {
            assert(all == before.push((last.0, last.1.0)));
            assert(all[before.len() as int] == (last.0, last.1.0));
            if before.contains(e) {
                let i = choose|i: int| 0 <= i < before.len() && before[i] == e;
                assert(all[i] == e);
            }
            if all.contains(e) {
                let i = choose|i: int| 0 <= i < all.len() && all[i] == e;
                if i < before.len() {
                    assert(before[i] == e);
                } else {
                    assert(entries[n - 1] == (e.0, (e.1, active)));
                }
            }
        }
    }
}

proof fn remaining_from_active<F: Number + From<S>, S: Number>(
    h_trade: HistTrade<F, S>,
    k: Seq<Wick<F>>,
    active: Seq<(u64, Order<F, S>)>,
    n: int,
    e: (u64, Order<F, S>),
)
    requires
        0 <= n <= active.len(),
        h_trade.ran(k, active, n).remaining.contains(e),
    ensures
        active.contains(e),
    decreases n,
{
    if n > 0 {
        let before = h_trade.ran(k, active, n - 1).remaining;
        let all = h_trade.ran(k, active, n).remaining;
        let i = choose|i: int| 0 <= i < all.len() && all[i] == e;
        if i < before.len() {
            assert(before[i] == e);
            remaining_from_active(h_trade, k, active, n - 1, e);
        } else {
            assert(active[n - 1] == e);
        }
    }
}

proof fn put_in_beside<F, S>(
    m: Map<u64, (Order<F, S>, bool)>,
    list: Seq<(u64, Order<F, S>)>,
    active: bool,
    n: int,
    id: u64,
)
    requires
        0 <= n <= list.len(),
        forall|j: int| 0 <= j < n ==> (#[trigger] list[j]).0 != id,
    ensures
        manual::with_list(m, list, active, n).dom().contains(id) == m.dom().contains(id),
        manual::with_list(m, list, active, n)[id] == m[id],
    decreases n,
{
    if n > 0 {
        put_in_beside(m, list, active, n - 1, id);
    }
}

proof fn put_in_at<F, S>(
    m: Map<u64, (Order<F, S>, bool)>,
    list: Seq<(u64, Order<F, S>)>,
    active: bool,
    n: int,
    id: u64,
    o: Order<F, S>,
)
    requires
        0 <= n <= list.len(),
        forall|j: int| 0 <= j < n && (#[trigger] list[j]).0 == id ==> list[j].1 == o,
        exists|j: int| 0 <= j < n && (#[trigger] list[j]).0 == id,
    ensures
        manual::with_list(m, list, active, n).dom().contains(id),
        manual::with_list(m, list, active, n)[id] == (o, active),
    decreases n,
{
    if n > 0 && list[n - 1].0 != id {
        let j = choose|j: int| 0 <= j < n && (#[trigger] list[j]).0 == id;
        assert(j < n - 1);
        put_in_at(m, list, active, n - 1, id, o);
    }
}

/// The orders that run are the active ones, and no others.
pub proof fn active_orders_run<F: Number + From<S>, S: Number>(
    window: ManualOrders<F, S>,
    id: u64,
    o: Order<F, S>,
)
    requires
        window.wf(),
    ensures
        window.active().contains((id, o)) <==> window.orders@.dom().contains(id)
            && window.orders@[id] == (o, true),
{
    let listed = window.orders.listed();
    window.orders.listing();
    chosen_from(listed, true, listed.len() as int, (id, o));
    if window.orders@.dom().contains(id) && window.orders@[id] == (o, true) {
        let j = choose|j: int| keymap::is_at(listed, id, j);
        assert(keymap::lists(listed, id));
        assert(listed[j] == (id, (o, true)));
    }
}

/// An order that is not active stays as it is while the others run.
pub proof fn inactive_orders_stay<F: Number + From<S>, S: Number>(
    window: ManualOrders<F, S>,
    h_trade: HistTrade<F, S>,
    k: Seq<Wick<F>>,
    id: u64,
)
    requires
        window.wf(),
        window.orders@.dom().contains(id),
        !window.orders@[id].1,
    ensures
        ({
            let run = h_trade.ran(k, window.active(), window.active().len() as int);
            let after = window.orders_after(run.remaining);
            after.dom().contains(id) && after[id] == window.orders@[id]
        }),
{
    let listed = window.orders.listed();
    let n = listed.len() as int;
    let o = window.orders@[id].0;
    window.orders.listing();
    assert(keymap::lists(listed, id));
    let at = choose|j: int| keymap::is_at(listed, id, j);
    assert(listed[at] == (id, (o, false)));
    let kept = manual::orders_where(listed, false, n);
    chosen_from(listed, false, n, (id, o));
    let place = choose|j: int| 0 <= j < kept.len() && kept[j] == (id, o);
    assert(kept[place].0 == id);
    assert forall|j: int| 0 <= j < kept.len() && (#[trigger] kept[j]).0 == id implies kept[j].1
        == o by {
        assert(kept.contains(kept[j]));
        chosen_from(listed, false, n, kept[j]);
        let l = choose|l: int| 0 <= l < n && #[trigger] listed[l] == (
            kept[j].0,
            (kept[j].1, false),
        );
        assert(window.orders@[listed[l].0] == listed[l].1);
    }
    put_in_at(Map::empty(), kept, false, kept.len() as int, id, o);
    let active = window.active();
    let remaining = h_trade.ran(k, active, active.len() as int).remaining;
    assert forall|j: int| 0 <= j < remaining.len() implies (#[trigger] remaining[j]).0 != id by {
        assert(remaining.contains(remaining[j]));
        remaining_from_active(h_trade, k, active, active.len() as int, remaining[j]);
        active_orders_run(window, remaining[j].0, remaining[j].1);
    }
    put_in_beside(
        manual::with_list(Map::empty(), kept, false, kept.len() as int),
        remaining,
        true,
        remaining.len() as int,
        id,
    );
}

/// Once orders have run over a slice, what is free and what is locked add up to what
/// the run holds, and the same slice is not run again.
pub proof fn run_accounts_for_all<F: Number + From<S>, S: Number, B: Fn(F) -> F>(
    before: ManualOrders<F, S>,
    after: ManualOrders<F, S>,
    h_trade: HistTrade<F, S>,
    k: Seq<Wick<F>>,
    symbol_info: Option<&(String, String, String)>,
    abs: B,
)
    requires
        num::exact::<F>(),
        before.runs_on(k),
        after.past_shown::<B>(before, h_trade, k, symbol_info, abs),
    ensures
        ({
            let run = h_trade.ran(k, before.active(), before.active().len() as int);
            &&& num::sum(after.purse.asset1, after.purse.asset1_locked) == run.asset1
            &&& num::sum(after.purse.asset2, after.purse.asset2_locked) == run.asset2
            &&& after.last_slice_time == k.last().0
            &&& !after.runs_on(k)
        }),
{
}

/// The window takes over the names and the balances of the pair on show, each in its own
/// place, and nothing else.
pub proof fn the_pair_on_show_is_taken_over<F: Number + From<S>, S: Number>(
    w: ManualOrders<F, S>,
    live: LiveInfo<F, S>,
)
    ensures
        ({
            let r = w.paired(live);
            &&& r.asset1_name == live.current_pair_strings.0
            &&& r.asset2_name == live.current_pair_strings.1
            &&& r.purse.asset1 == live.current_pair_free_balances.0
            &&& r.purse.asset2 == live.current_pair_free_balances.1
            &&& r.purse.asset1_locked == live.current_pair_locked_balances.0
            &&& r.purse.asset2_locked == live.current_pair_locked_balances.1
            &&& r == (ManualOrders {
                asset1_name: r.asset1_name,
                asset2_name: r.asset2_name,
                purse: r.purse,
                ..w
            })
        }),
{
}

/// Single order mode is given the free amounts of the window, and what was pressed.
pub proof fn single_order_mode_sees_the_free_amounts<F: Number + From<S>, S: Number>(
    w: ManualOrders<F, S>,
    input: Input<F>,
    hist: bool,
)
    ensures
        ({
            let r = w.keys_round(input, hist);
            &&& r.asset1 == w.purse.asset1
            &&& r.asset2 == w.purse.asset2
            &&& r.last_price == input.last_price
            &&& r.hist_trade == hist
            &&& r.presses == input.presses
            &&& r.sell_now == input.sell_now
        }),
{
}

/// In single order mode the hotkeys count: the amounts, the form and its order stay, and without
/// the mode at hand nothing happens. Else the form counts, and what it comes to is its round.
pub proof fn the_mode_decides_what_counts<
    F: Number + From<S>,
    S: Number,
    P: Fn(&str) -> Option<F>,
    Q: Fn(&str) -> Option<S>,
    R: Fn(i64) -> F,
    T: Fn(i64) -> S,
    W: Fn(F) -> S,
>(
    after: ManualOrders<F, S>,
    before: ManualOrders<F, S>,
    sent: Seq<ClientInstruct<F, S>>,
    input: Input<F>,
    live: Option<LiveInfo<F, S>>,
    read: P,
    read_short: Q,
    long: R,
    short: T,
    narrow: W,
)
    requires
        after.entered::<P, Q, R, T, W>(
            before,
            sent,
            input,
            live,
            read,
            read_short,
            long,
            short,
            narrow,
        ),
    ensures
        before.single_order_mode ==> after.purse == before.purse && after.order == before.order
            && after.choice == before.choice && after.last_id == before.last_id
            && after.single_order_mode,
        before.single_order_mode && before.so_mode is None ==> sent.len() == 0 && after == before,
        before.single_order_mode ==> (before.so_mode matches Some(m) ==> {
            let scene = m.after_round::<Q, R, T, W>(
                before.orders@,
                before.current_symbol,
                before.keys_round(input, live is None),
                read_short,
                long,
                short,
                narrow,
            );
            &&& after.orders@ == scene.orders
            &&& sent == scene.sent
            &&& after.so_mode matches Some(a) && a.shaped == scene.shaped && a.order_id
                == scene.order_id && a.asset1_held == scene.asset1_held && a.hk_active
                == m.hk_active
        }),
        !before.single_order_mode ==> {
            let desk = before.desk(Seq::empty()).round::<P, W>(input.entry, live, read, narrow);
            &&& after.orders@ == desk.orders
            &&& sent == desk.sent
            &&& after.purse == desk.purse
            &&& after.order == desk.order
            &&& after.last_id == desk.last_id
            &&& after.single_order_mode == desk.single_order_mode
        },
{
}

/// A window without an empty order has none under any number.
pub proof fn no_empty_order_under_any_number<F: Number + From<S>, S: Number>(
    w: ManualOrders<F, S>,
    id: u64,
)
    ensures
        w.no_empty_order() && w.orders@.dom().contains(id) ==> !(w.orders@[id].0 is Nothing),
        w.orders@.dom() == Set::<u64>::empty() ==> w.no_empty_order(),
{
}

} // verus!
