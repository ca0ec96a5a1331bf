//! The trigger loop's core: the per-tick decision and the stop protocol.
//!
//! On each tick the loop takes a snapshot of the registered items, advances
//! every item's clock against "now", and collects the dispatch actions for
//! the items that fired — in storage order, each at most once per tick. A
//! misbehaving item (a graph too deep for its budget) is skipped; it never
//! stops the scheduler. The loop itself — thread, sleep, and channel — is the
//! backend's; the library supplies the decisions.

use crate::dag::spec_run_order;
use crate::schedule_time::ScheduleTime;
use crate::task::{holder_wf, spec_holder_advance, HolderShape, RunnableHolder};
use vstd::prelude::*;

verus! {

/// What the loop asks the execution backend to run after a fire.
#[derive(Debug, Clone, Copy, PartialEq, Eq, Structural)]
pub struct Dispatch {
    /// The task to execute.
    pub task: crate::task::TaskInfo,
    /// Whether completion reporting was requested.
    pub report: bool,
}

/// The depth budget a graph's walk gets: one more than its node count,
/// which suffices for any acyclic graph.
pub open spec fn dag_fuel(d: crate::dag::DagShape) -> nat {
    if d.nodes.len() + 1 <= usize::MAX as nat {
        (d.nodes.len() + 1) as nat
    } else {
        usize::MAX as nat
    }
}

/// The dispatch actions for one registered item: the bare task, or every
/// node of the graph in run order. `None` when the graph is deeper than its
/// budget, which only a cyclic graph can be.
pub open spec fn spec_plan_of(h: HolderShape, report: bool) -> Option<Seq<Dispatch>> {
    match h {
        HolderShape::Task(t) => Some(seq![Dispatch { task: t.task, report }]),
        HolderShape::Dag(d) => match spec_run_order(d, dag_fuel(d)) {
            Some(ord) => Some(
                ord.map_values(|i: int| Dispatch { task: d.nodes[i].task, report }),
            ),
            None => None,
        },
    }
}

/// One tick over the items from position `pos` on: each item's clock is
/// advanced; an item that fired contributes its dispatch actions, in order;
/// an item whose plan cannot be computed is skipped.
pub open spec fn spec_tick_from(items: Seq<HolderShape>, pos: int, now: int) -> (
    Seq<HolderShape>,
    Seq<Dispatch>,
)
    decreases items.len() - pos,
{
    if pos < 0 || pos >= items.len() {
        (items, Seq::empty())
    } else {
        let (h2, fired) = spec_holder_advance(items[pos], now);
        let plan0 = if fired {
            match spec_plan_of(h2, true) {
                Some(p) => p,
                None => Seq::empty(),
            }
        } else {
            Seq::empty()
        };
        let (ri, rp) = spec_tick_from(items.update(pos, h2), pos + 1, now);
        (ri, plan0 + rp)
    }
}

/// One full tick: every item advanced, the fired items' actions collected.
pub open spec fn spec_tick(items: Seq<HolderShape>, now: int) -> (Seq<HolderShape>, Seq<Dispatch>) {
    spec_tick_from(items, 0, now)
}

/// The dispatch actions for one registered item, executed.
pub fn dispatch_plan(h: &RunnableHolder, report: bool) -> (r: Option<Vec<Dispatch>>)
    requires
        match h@ {
            HolderShape::Dag(d) => crate::dag::dag_wf(d),
            HolderShape::Task(_) => true,
        },
    ensures
        ({
            let s = spec_plan_of(h@, report);
            match r {
                Some(v) => s == Some(v@),
                None => s is None,
            }
        }),
{
    match h {
        RunnableHolder::Task(t) => {
            let mut v: Vec<Dispatch> = Vec::new();
            v.push(Dispatch { task: t.task, report });
            proof {
                assert(v@ =~= seq![Dispatch { task: t@.task, report }]);
            }
            Some(v)
        },
        RunnableHolder::Dag(d) => {
            let n = d.node_count();
            let fuel: usize = if n < usize::MAX {
                n + 1
            } else {
                n
            };
            proof {
                assert(fuel as nat == dag_fuel(d@));
            }
            let ord = match d.run_order(fuel) {
                Some(o) => o,
                None => {
                    return None;
                },
            };
            let ghost dv = d@;
            proof {
                crate::dag::lemma_walk_list_valid(dv.nodes, dv.roots, 0, 0, fuel as nat);
                let w = crate::dag::spec_dag_walk(dv, fuel as nat)->0;
                assert forall|k: int| 0 <= k < ord@.len() implies 0 <= #[trigger] ord@[k]
                    < dv.nodes.len() by {
                    assert(crate::dag::idxs(ord@)[k] == ord@[k] as int);
                    assert(spec_run_order(dv, fuel as nat)->0[k] == w[k].0);
                }
            }
            let mut v: Vec<Dispatch> = Vec::new();
            let mut j: usize = 0;
            while j < ord.len()
                invariant
                    j <= ord.len(),
                    v@.len() == j,
                    dv == d@,
                    fuel as nat == dag_fuel(dv),
                    crate::dag::idxs(ord@) == spec_run_order(dv, fuel as nat)->0,
                    spec_run_order(dv, fuel as nat) is Some,
                    crate::dag::dag_wf(dv),
                    forall|k: int|
                        0 <= k < ord@.len() ==> 0 <= #[trigger] ord@[k] < dv.nodes.len(),
                    forall|k: int|
                        0 <= k < j ==> (#[trigger] v@[k]) == (Dispatch {
                            task: dv.nodes[ord@[k] as int].task,
                            report,
                        }),
                decreases ord.len() - j,
            {
                let idx = ord[j];
                v.push(Dispatch { task: d.task_of(idx), report });
                j = j + 1;
            }
            proof {
                let s = spec_plan_of(h@, report);
                assert(v@ =~= s->0);
            }
            Some(v)
        },
    }
}

/// One tick of the trigger loop, executed: advances every item's clock
/// against `now` and returns the dispatch actions of the items that fired,
/// in storage order.
pub fn trigger_tick(items: &mut Vec<RunnableHolder>, now: &ScheduleTime) -> (plan: Vec<Dispatch>)
    requires
        forall|k: int| 0 <= k < old(items)@.len() ==> holder_wf((#[trigger] old(items)@[k])@),
        forall|k: int|
            0 <= k < old(items)@.len() ==> match (#[trigger] old(items)@[k])@ {
                HolderShape::Dag(d) => crate::dag::dag_wf(d),
                HolderShape::Task(_) => true,
            },
    ensures
        ({
            let views = old(items)@.map_values(|h: RunnableHolder| h@);
            let (ri, rp) = spec_tick(views, now@);
            final(items)@.map_values(|h: RunnableHolder| h@) == ri && plan@ == rp
        }),
        final(items)@.len() == old(items)@.len(),
        forall|k: int| 0 <= k < final(items)@.len() ==> holder_wf((#[trigger] final(items)@[k])@),
        forall|k: int|
            0 <= k < final(items)@.len() ==> match (#[trigger] final(items)@[k])@ {
                HolderShape::Dag(d) => crate::dag::dag_wf(d),
                HolderShape::Task(_) => true,
            },
{
    let ghost views0 = items@.map_values(|h: RunnableHolder| h@);
    let mut plan: Vec<Dispatch> = Vec::new();
    let mut i: usize = 0;
    while i < items.len()
        invariant
            i <= items@.len(),
            items@.len() == old(items)@.len(),
            forall|k: int| 0 <= k < items@.len() ==> holder_wf((#[trigger] items@[k])@),
            forall|k: int|
                0 <= k < items@.len() ==> match (#[trigger] items@[k])@ {
                    HolderShape::Dag(d) => crate::dag::dag_wf(d),
                    HolderShape::Task(_) => true,
                },
            views0 == old(items)@.map_values(|h: RunnableHolder| h@),
            ({
                let views = items@.map_values(|h: RunnableHolder| h@);
                let (ri, rp) = spec_tick_from(views, i as int, now@);
                spec_tick(views0, now@) == (ri, (plan@ + rp))
            }),
        decreases items@.len() - i,
    {
        let ghost views_pre = items@.map_values(|h: RunnableHolder| h@);
        let item = &mut items[i];
        let fired = item.advance_clock(now);
        proof {
            let views_post = items@.map_values(|h: RunnableHolder| h@);
            assert(views_post =~= views_pre.update(
                i as int,
                spec_holder_advance(views_pre[i as int], now@).0,
            ));
        }
        if fired {
            match dispatch_plan(&items[i], true) {
                Some(mut p) => {
                    let ghost gplan = plan@;
                    let ghost gp = p@;
                    plan.append(&mut p);
                    proof {
                        assert(plan@ == gplan + gp);
                    }
                },
                None => {
                },
            }
        }
        i = i + 1;
    }
    proof {
        let views = items@.map_values(|h: RunnableHolder| h@);
        assert(spec_tick_from(views, i as int, now@) == (views, Seq::<Dispatch>::empty()));
        assert(plan@ + Seq::<Dispatch>::empty() =~= plan@);
    }
    plan
}

/// The mathematical state of a trigger's stop protocol: whether stop was
/// requested, and the loop ticket that still has to be joined, if any.
#[verifier::ext_equal]
pub struct TriggerState {
    pub is_stop: bool,
    pub join_ticket: Option<u64>,
}

/// What one `stop` call does: the first call marks the trigger stopped and
/// takes the ticket to join; every later call changes nothing and takes
/// nothing.
pub open spec fn spec_stop(s: TriggerState) -> (TriggerState, Option<u64>) {
    if s.is_stop {
        (s, None)
    } else {
        (TriggerState { is_stop: true, join_ticket: None }, s.join_ticket)
    }
}

/// Stopping twice does not double-join: whatever the state, the second stop
/// yields no ticket and leaves the state as the first stop left it.
pub proof fn lemma_stop_twice_no_double_join(s: TriggerState)
    ensures
        spec_stop(spec_stop(s).0).1 is None,
        spec_stop(spec_stop(s).0).0 == spec_stop(s).0,
{
}

/// The stop protocol of a trigger: a stop flag set exactly once, and a
/// ticket for the background loop that is joined exactly once.
pub trait Trigger {
    /// The stop-protocol state.
    spec fn state(&self) -> TriggerState;

    /// Records that the background loop was started under this ticket.
    fn start(&mut self, ticket: u64)
        ensures
            final(self).state() == (TriggerState {
                is_stop: old(self).state().is_stop,
                join_ticket: Some(ticket),
            }),
    ;

    /// Requests the loop to stop; yields the ticket to join on the first
    /// call and nothing afterwards.
    fn stop(&mut self) -> (r: Option<u64>)
        ensures
            final(self).state() == spec_stop(old(self).state()).0,
            r == spec_stop(old(self).state()).1,
    ;

    /// Whether stop has been requested.
    fn sig(&self) -> (r: bool)
        ensures
            r == self.state().is_stop,
    ;
}

/// The OS-thread trigger's stop protocol.
pub struct ThreadTrigger {
    is_stop: bool,
    join_ticket: Option<u64>,
}

impl ThreadTrigger {
    /// A fresh trigger: not stopped, no loop running.
    pub fn new() -> (r: ThreadTrigger)
        ensures
            r.state() == (TriggerState { is_stop: false, join_ticket: None }),
    {
        ThreadTrigger { is_stop: false, join_ticket: None }
    }
}

impl Trigger for ThreadTrigger {
    closed spec fn state(&self) -> TriggerState {
        TriggerState { is_stop: self.is_stop, join_ticket: self.join_ticket }
    }

    fn start(&mut self, ticket: u64) {
        self.join_ticket = Some(ticket);
    }

    fn stop(&mut self) -> (r: Option<u64>) {
        if self.is_stop {
            None
        } else {
            self.is_stop = true;
            let t = self.join_ticket;
            self.join_ticket = None;
            t
        }
    }

    fn sig(&self) -> (r: bool) {
        self.is_stop
    }
}

} // verus!
