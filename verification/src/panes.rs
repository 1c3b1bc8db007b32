//! The panes of the window, what belongs to each of them, and the answers that
//! came in.

use crate::intv::Intv;
use crate::keymap::{Key, KeyMap};
use crate::manual::ManualOrders;
use crate::message::{BinResponse, ClientResponse, GeneralError, ProcResp, SQLResponse};
use crate::num;
use crate::num::Number;
use crate::time::Stamp;
use crate::windows::{HistExtras, HistPlot};
use vstd::prelude::*;

verus! {

/// The kinds of panes.
#[derive(Debug, Clone, Copy, PartialEq, Eq, Structural)]
pub enum PaneType {
    Nothing,
    LiveTrade,
    HistTrade,
    ManageData,
    Settings,
}

impl PaneType {
    /// Every kind, in the order of the menu.
    pub fn iter() -> (r: Vec<PaneType>)
        ensures
            r@ == seq![
                PaneType::Nothing,
                PaneType::LiveTrade,
                PaneType::HistTrade,
                PaneType::ManageData,
                PaneType::Settings,
            ],
    {
        let r = vec![
            PaneType::Nothing,
            PaneType::LiveTrade,
            PaneType::HistTrade,
            PaneType::ManageData,
            PaneType::Settings,
        ];
        assert(r@ =~= seq![
            PaneType::Nothing,
            PaneType::LiveTrade,
            PaneType::HistTrade,
            PaneType::ManageData,
            PaneType::Settings,
        ]);
        r
    }

    /// The title of a pane.
    pub fn to_str(&self) -> (r: &'static str)
        ensures
            r@ == (match *self {
                PaneType::LiveTrade => "Live Trade"@,
                PaneType::HistTrade => "Hist Trade"@,
                PaneType::ManageData => "Manage Data"@,
                PaneType::Settings => "Settings"@,
                PaneType::Nothing => "None"@,
            }),
    {
        match self {
            PaneType::LiveTrade => "Live Trade",
            PaneType::HistTrade => "Hist Trade",
            PaneType::ManageData => "Manage Data",
            PaneType::Settings => "Settings",
            PaneType::Nothing => "None",
        }
    }
}

/// A pane: its number and its kind.
#[derive(Debug, Clone, Copy, PartialEq, Eq, Structural)]
pub struct Pane {
    pub nr: usize,
    pub ty: PaneType,
}

impl Default for Pane {
    fn default() -> (r: Pane)
        ensures
            r == (Pane { nr: 0, ty: PaneType::Nothing }),
    {
        Pane { nr: 0, ty: PaneType::Nothing }
    }
}

impl Pane {
    /// The pane of this number and kind.
    pub fn new(nr: usize, ty: PaneType) -> (r: Self)
        ensures
            r == (Pane { nr, ty }),
    {
        Pane { nr, ty }
    }
}

/// The desktop: what its panes show, by the number of the pane.
#[derive(Debug)]
pub struct DesktopApp<F, S> {
    pub pane_number: usize,
    pub man_orders: KeyMap<u64, ManualOrders<F, S>>,
    pub hist_plot: KeyMap<u64, HistPlot<F, S>>,
    pub hist_extras: KeyMap<u64, HistExtras<F>>,
}

impl<F: Number + From<S>, S: Number> DesktopApp<F, S> {
    /// No window has a number above the last one that was given out.
    pub open spec fn wf(&self) -> bool {
        &&& self.man_orders.wf()
        &&& self.hist_plot.wf()
        &&& self.hist_extras.wf()
        &&& forall|n: u64| #[trigger]
            self.man_orders@.dom().contains(n) ==> n <= self.pane_number
        &&& forall|n: u64| #[trigger] self.hist_plot@.dom().contains(n) ==> n <= self.pane_number
        &&& forall|n: u64| #[trigger]
            self.hist_extras@.dom().contains(n) ==> n <= self.pane_number
    }

    /// The pane has all that it shows: a live one its orders, one of the past its
    /// orders and its chart.
    pub open spec fn serves(&self, pane: Pane) -> bool {
        let n = pane.nr as u64;
        match pane.ty {
            PaneType::LiveTrade => self.man_orders@.dom().contains(n),
            PaneType::HistTrade => self.man_orders@.dom().contains(n)
                && self.hist_plot@.dom().contains(n) && self.hist_extras@.dom().contains(n),
            _ => true,
        }
    }

    /// The windows of the first pane, a live one.
    pub fn new() -> (r: (Self, Pane))
        requires
            num::lawful::<F>(),
            num::lawful::<S>(),
        ensures
            r.0.wf(),
            r.0.pane_number == 1,
            r.0.man_orders@.dom() == set![0u64],
            r.0.man_orders@[0u64].fresh(),
            r.0.hist_plot@ == Map::<u64, HistPlot<F, S>>::empty(),
            r.0.hist_extras@ == Map::<u64, HistExtras<F>>::empty(),
            r.1 == (Pane { nr: 0, ty: PaneType::LiveTrade }),
            r.0.serves(r.1),
    {
        let mut man_orders: KeyMap<u64, ManualOrders<F, S>> = KeyMap::new();
        let _ = man_orders.insert(0, ManualOrders::new());
        assert(man_orders@.dom() =~= set![0u64]);
        (
            DesktopApp {
                pane_number: 1,
                man_orders,
                hist_plot: KeyMap::new(),
                hist_extras: KeyMap::new(),
            },
            Pane::new(0, PaneType::LiveTrade),
        )
    }

    /// A pane of the kind `ty` was to be added: it gets the next number and what
    /// it shows, all of it fresh. What other panes show stays. Nothing happens for
    /// the kind that shows nothing. A chart of the past starts at the interval
    /// `intv` on the day of `now`, and trades over `next_wicks` candles.
    pub fn open_pane(
        &mut self,
        ty: PaneType,
        intv: &Intv,
        next_wicks: i64,
        now: Stamp,
    ) -> (r: Option<Pane>)
        requires
            num::lawful::<F>(),
            num::lawful::<S>(),
            old(self).wf(),
            old(self).pane_number < usize::MAX,
            now.wf(),
        ensures
            final(self).wf(),
            match r {
                None => ty == PaneType::Nothing && *final(self) == *old(self),
                Some(pane) => {
                    let n = pane.nr as u64;
                    &&& ty != PaneType::Nothing
                    &&& pane == (Pane { nr: (old(self).pane_number + 1) as usize, ty })
                    &&& final(self).pane_number == old(self).pane_number + 1
                    &&& final(self).serves(pane)
                    &&& final(self).man_orders@.dom() == (if ty == PaneType::LiveTrade || ty
                        == PaneType::HistTrade {
                        old(self).man_orders@.dom().insert(n)
                    } else {
                        old(self).man_orders@.dom()
                    })
                    &&& final(self).hist_plot@.dom() == (if ty == PaneType::HistTrade {
                        old(self).hist_plot@.dom().insert(n)
                    } else {
                        old(self).hist_plot@.dom()
                    })
                    &&& final(self).hist_extras@.dom() == (if ty == PaneType::HistTrade {
                        old(self).hist_extras@.dom().insert(n)
                    } else {
                        old(self).hist_extras@.dom()
                    })
                    &&& ty == PaneType::LiveTrade || ty == PaneType::HistTrade
                        ==> final(self).man_orders@[n].fresh()
                    &&& ty == PaneType::HistTrade ==> final(self).hist_plot@[n].fresh(
                        *intv,
                        next_wicks,
                        now,
                    ) && final(self).hist_extras@[n].fresh()
                    &&& final(self).keeps(old(self), n)
                },
            },
            forall|p: Pane| #[trigger] old(self).serves(p) ==> final(self).serves(p),
    {
        match ty {
            PaneType::Nothing => {
                return None;
            },
            PaneType::LiveTrade => {
                let n: u64 = self.pane_number as u64 + 1;
                let _ = self.man_orders.insert(n, ManualOrders::new());
            },
            PaneType::HistTrade => {
                let n: u64 = self.pane_number as u64 + 1;
                let _ = self.man_orders.insert(n, ManualOrders::new());
                let _ = self.hist_plot.insert(n, HistPlot::new(intv, next_wicks, now));
                let _ = self.hist_extras.insert(n, HistExtras::new());
            },
            PaneType::ManageData => {},
            PaneType::Settings => {},
        }
        self.pane_number = self.pane_number + 1;
        Some(Pane::new(self.pane_number, ty))
    }

    /// What the panes other than number `n` show is as in `before`.
    pub open spec fn keeps(&self, before: &Self, n: u64) -> bool {
        &&& forall|m: u64|
            m != n && before.man_orders@.dom().contains(m) ==> #[trigger] self.man_orders@[m]
                == before.man_orders@[m]
        &&& forall|m: u64|
            m != n && before.hist_plot@.dom().contains(m) ==> #[trigger] self.hist_plot@[m]
                == before.hist_plot@[m]
        &&& forall|m: u64|
            m != n && before.hist_extras@.dom().contains(m) ==> #[trigger] self.hist_extras@[m]
                == before.hist_extras@[m]
    }

    /// A pane was closed: what it showed is gone, what others show stays.
    pub fn on_tab_close(&mut self, pane: Pane)
        requires
            old(self).wf(),
        ensures
            final(self).wf(),
            final(self).pane_number == old(self).pane_number,
            ({
                let n = pane.nr as u64;
                &&& final(self).man_orders@ == (if pane.ty == PaneType::LiveTrade || pane.ty
                    == PaneType::HistTrade {
                    old(self).man_orders@.remove(n)
                } else {
                    old(self).man_orders@
                })
                &&& final(self).hist_plot@ == (if pane.ty == PaneType::HistTrade {
                    old(self).hist_plot@.remove(n)
                } else {
                    old(self).hist_plot@
                })
                &&& final(self).hist_extras@ == (if pane.ty == PaneType::HistTrade {
                    old(self).hist_extras@.remove(n)
                } else {
                    old(self).hist_extras@
                })
            }),
            forall|p: Pane| #[trigger]
                old(self).serves(p) && p.nr as u64 != pane.nr as u64 ==> final(self).serves(p),
    {
        let n = pane.nr as u64;
        match pane.ty {
            PaneType::LiveTrade => {
                let _ = self.man_orders.remove(&n);
            },
            PaneType::HistTrade => {
                let _ = self.hist_plot.remove(&n);
                let _ = self.man_orders.remove(&n);
                let _ = self.hist_extras.remove(&n);
            },
            _ => {},
        }
    }
}

/// What an answer says.
pub enum Said {
    Nothing,
    Success,
    Failure(Seq<char>, GeneralError),
    Order(u64),
}

/// What an answer says, and who gave it.
pub enum SaidBy {
    Bin(Said),
    Sql(Said),
    Client,
}

/// What an answer of the exchange says.
pub open spec fn bin_said(r: BinResponse) -> Said {
    match r {
        BinResponse::Nothing => Said::Nothing,
        BinResponse::Success => Said::Success,
        BinResponse::Failure((t, k)) => Said::Failure(t@, k),
        BinResponse::OrderStatus(n) => Said::Order(n),
    }
}

/// What an answer of the data base says.
pub open spec fn sql_said(r: SQLResponse) -> Said {
    match r {
        SQLResponse::Nothing => Said::Nothing,
        SQLResponse::Success => Said::Success,
        SQLResponse::Failure((t, k)) => Said::Failure(t@, k),
    }
}

impl Key for ProcResp {
    type Model = SaidBy;

    open spec fn model(&self) -> SaidBy {
        match *self {
            ProcResp::BinResp(r) => SaidBy::Bin(bin_said(r)),
            ProcResp::SQLResp(r) => SaidBy::Sql(sql_said(r)),
            ProcResp::Client => SaidBy::Client,
        }
    }

    fn matches(&self, other: &Self) -> (r: bool) {
        self.same(other)
    }

    fn again(&self) -> (r: Self) {
        self.clone()
    }
}

/// The answers that came in, sorted by what they say.
pub type Answers = KeyMap<ProcResp, Vec<ClientResponse>>;

/// Under what an answer is kept; one that says nothing is not kept.
pub open spec fn kept_under(r: ClientResponse) -> Option<SaidBy> {
    match r {
        ClientResponse::Nothing => None,
        ClientResponse::Success => Some(SaidBy::Client),
        ClientResponse::Failure(_) => Some(SaidBy::Client),
        ClientResponse::ProcResp(p) => Some(p.model()),
    }
}

/// Takes an answer in, unless it is the last one once more. The first answer of
/// its kind begins a list, the later ones go into it.
pub fn update_procresp(last_resp: &mut ClientResponse, resp: ClientResponse, buff: &mut Answers)
    requires
        old(buff).wf(),
    ensures
        final(buff).wf(),
        (if resp.same_as(*old(last_resp)) {
            *final(last_resp) == *old(last_resp)
        } else {
            *final(last_resp) == resp
        }),
        ({
            let before = old(buff)@;
            let after = final(buff)@;
            match kept_under(resp) {
                Some(key) => if resp.same_as(*old(last_resp)) {
                    after == before
                } else {
                    &&& after.dom() == before.dom().insert(key)
                    &&& after[key]@ == (if before.dom().contains(key) {
                        before[key]@.push(resp)
                    } else {
                        Seq::empty()
                    })
                    &&& forall|k: SaidBy|
                        k != key && before.dom().contains(k) ==> #[trigger] after[k] == before[k]
                },
                None => after == before,
            }
        }),
{
    if resp.same(last_resp) {
        return;
    }
    let key = match &resp {
        ClientResponse::Nothing => None,
        ClientResponse::Success => Some(ProcResp::Client),
        ClientResponse::Failure(_) => Some(ProcResp::Client),
        ClientResponse::ProcResp(p) => Some(p.clone()),
    };
    if let Some(key) = key {
        keep(buff, key, &resp);
    }
    *last_resp = resp;
}

fn keep(buff: &mut Answers, key: ProcResp, resp: &ClientResponse)
    requires
        old(buff).wf(),
    ensures
        final(buff).wf(),
        final(buff)@.dom() == old(buff)@.dom().insert(key.model()),
        final(buff)@[key.model()]@ == (if old(buff)@.dom().contains(key.model()) {
            old(buff)@[key.model()]@.push(*resp)
        } else {
            Seq::empty()
        }),
        forall|k: SaidBy|
            k != key.model() && old(buff)@.dom().contains(k) ==> #[trigger] final(buff)@[k] == old(buff)@[k],
{
    let ghost before = buff@;
    if let Some(list) = buff.get_mut(&key) {
        list.push(resp.clone());
        assert(before.dom().insert(key.model()) =~= before.dom());
        return;
    }
    let _ = buff.insert(key, Vec::new());
}

/// A pane has all that it shows where its number does: a live one orders, one of the past orders,
/// a chart and its data; the others need nothing.
pub proof fn a_pane_needs_what_it_shows<F: Number + From<S>, S: Number>(
    app: DesktopApp<F, S>,
    pane: Pane,
)
    requires
        app.serves(pane),
    ensures
        pane.ty == PaneType::LiveTrade || pane.ty == PaneType::HistTrade
            ==> app.man_orders@.dom().contains(pane.nr as u64),
        pane.ty == PaneType::HistTrade ==> app.hist_plot@.dom().contains(pane.nr as u64)
            && app.hist_extras@.dom().contains(pane.nr as u64),
{
}

/// What other panes show stays as it was: their orders, their charts and their data.
pub proof fn other_panes_keep_what_they_show<F: Number + From<S>, S: Number>(
    after: DesktopApp<F, S>,
    before: DesktopApp<F, S>,
    n: u64,
    m: u64,
)
    requires
        after.keeps(&before, n),
        m != n,
    ensures
        before.man_orders@.dom().contains(m) ==> after.man_orders@[m] == before.man_orders@[m],
        before.hist_plot@.dom().contains(m) ==> after.hist_plot@[m] == before.hist_plot@[m],
        before.hist_extras@.dom().contains(m) ==> after.hist_extras@[m] == before.hist_extras@[m],
{
}

/// Answers that say the same are the same ones, and answers that do not are kept apart.
pub proof fn answers_are_sorted_by_what_they_say(
    a: BinResponse,
    b: BinResponse,
    c: SQLResponse,
    d: SQLResponse,
)
    ensures
        bin_said(a) == bin_said(b) <==> a.same_as(b),
        sql_said(c) == sql_said(d) <==> c.same_as(d),
        a is Success <==> bin_said(a) is Success,
        a is Nothing <==> bin_said(a) is Nothing,
        a matches BinResponse::Failure((t, k)) ==> bin_said(a) == Said::Failure(t@, k),
        a matches BinResponse::OrderStatus(n) ==> bin_said(a) == Said::Order(n),
        c is Success <==> sql_said(c) is Success,
        c matches SQLResponse::Failure((t, k)) ==> sql_said(c) == Said::Failure(t@, k),
{
}

/// An answer is kept under what it says and who gave it: those of the exchange, those of the data
/// base, and those of the client apart. One that says nothing is not kept.
pub proof fn answers_are_kept_by_who_gave_them(
    r: ClientResponse,
    a: BinResponse,
    c: SQLResponse,
)
    ensures
        kept_under(r) is None <==> r is Nothing,
        r is Success || r is Failure ==> kept_under(r) == Some(SaidBy::Client),
        kept_under(ClientResponse::ProcResp(ProcResp::BinResp(a))) == Some(
            SaidBy::Bin(bin_said(a)),
        ),
        kept_under(ClientResponse::ProcResp(ProcResp::SQLResp(c))) == Some(
            SaidBy::Sql(sql_said(c)),
        ),
        kept_under(ClientResponse::ProcResp(ProcResp::Client)) == Some(SaidBy::Client),
{
}

} // verus!
