//! The schedule manager: assigns monotonic identity to submitted work,
//! registers it, and drives the trigger's decisions over the registry.

use crate::dag::{dag_wf, stamp_nodes, DagShape};
use crate::executor::Executor;
use crate::runtime::MetaShape;
use crate::schedule_time::ScheduleTime;
use crate::store::Storage;
use crate::task::{holder_ok, HolderShape, RunnableHolder, TaskShape};
use crate::trigger::{spec_tick, trigger_tick, Dispatch, Trigger, TriggerState};
use crate::BronzeError;
use vstd::prelude::*;

verus! {

/// The item with its identities assigned: a bare task gets `task_id`; a
/// graph gets `dag_id` on its shared metadata and stamps its nodes from
/// `task_id` on. Items without metadata keep their shape.
pub open spec fn spec_stamp(h: HolderShape, dag_id: u64, task_id: u64) -> HolderShape {
    match h {
        HolderShape::Task(t) => match t.meta {
            Some(m) => HolderShape::Task(
                TaskShape { meta: Some(MetaShape { id: Some(task_id), ..m }), ..t },
            ),
            None => h,
        },
        HolderShape::Dag(d) => {
            let d1 = DagShape { nodes: stamp_nodes(d.nodes, task_id as int), ..d };
            match d.meta {
                Some(m) => HolderShape::Dag(
                    DagShape { meta: Some(MetaShape { id: Some(dag_id), ..m }), ..d1 },
                ),
                None => HolderShape::Dag(d1),
            }
        },
    }
}

/// Whether fresh identities remain for this item.
pub open spec fn spec_can_stamp(h: HolderShape, dag_id: u64, task_id: u64) -> bool {
    match h {
        HolderShape::Task(t) => t.meta is Some ==> task_id < u64::MAX,
        HolderShape::Dag(d) => (d.meta is Some ==> dag_id < u64::MAX) && task_id + d.nodes.len()
            <= u64::MAX,
    }
}

/// How many identities the item consumes: dag ids and task ids.
pub open spec fn spec_id_use(h: HolderShape) -> (int, int) {
    match h {
        HolderShape::Task(t) => (
            0int,
            if t.meta is Some {
                1int
            } else {
                0int
            },
        ),
        HolderShape::Dag(d) => (
            if d.meta is Some {
                1int
            } else {
                0int
            },
            d.nodes.len() as int,
        ),
    }
}

/// Wires a storage, a trigger and an executor together, assigns identity to
/// submitted work, and runs the per-tick scheduling decision.
pub struct ScheduleManager<SG: Storage, TG: Trigger, E: Executor> {
    storage: SG,
    trigger: TG,
    executor: E,
    dag_id: u64,
    task_id: u64,
}

impl<SG: Storage, TG: Trigger, E: Executor> ScheduleManager<SG, TG, E> {
    /// Every registered item is in good standing.
    pub closed spec fn inv(&self) -> bool {
        forall|k: int|
            0 <= k < self.storage_items().len() ==> holder_ok(#[trigger] self.storage_items()[k])
    }

    /// The registered items, in insertion order.
    pub closed spec fn storage_items(&self) -> Seq<HolderShape> {
        self.storage.items()
    }

    /// The trigger's stop-protocol state.
    pub closed spec fn trigger_state(&self) -> TriggerState {
        self.trigger.state()
    }

    /// The next dag id to hand out.
    pub closed spec fn spec_dag_id(&self) -> u64 {
        self.dag_id
    }

    /// The next task id to hand out.
    pub closed spec fn spec_task_id(&self) -> u64 {
        self.task_id
    }

    /// A manager over an empty registry, with fresh id counters.
    pub fn new(storage: SG, trigger: TG, executor: E) -> (r: ScheduleManager<SG, TG, E>)
        requires
            storage.items().len() == 0,
        ensures
            r.inv(),
            r.storage_items().len() == 0,
            r.spec_dag_id() == 0,
            r.spec_task_id() == 0,
            r.trigger_state() == trigger.state(),
    {
        ScheduleManager { storage, trigger, executor, dag_id: 0, task_id: 0 }
    }

    /// The execution backend this manager was wired with.
    pub fn executor_ref(&self) -> &E {
        &self.executor
    }

    /// Assigns fresh identities to the item and registers it. Fails only
    /// when the id counters run out; the item is then not registered and
    /// nothing changes.
    pub fn add_runnable(&mut self, runnable: RunnableHolder) -> (r: Result<(), BronzeError>)
        requires
            old(self).inv(),
            holder_ok(runnable@),
        ensures
            final(self).inv(),
            final(self).trigger_state() == old(self).trigger_state(),
            r is Ok <==> spec_can_stamp(
                runnable@,
                old(self).spec_dag_id(),
                old(self).spec_task_id(),
            ),
            r is Ok ==> final(self).storage_items() == old(self).storage_items().push(
                spec_stamp(runnable@, old(self).spec_dag_id(), old(self).spec_task_id()),
            ) && final(self).spec_dag_id() == old(self).spec_dag_id() + spec_id_use(runnable@).0
                && final(self).spec_task_id() == old(self).spec_task_id() + spec_id_use(
                runnable@,
            ).1,
            r is Err ==> final(self).storage_items() == old(self).storage_items()
                && final(self).spec_dag_id() == old(self).spec_dag_id()
                && final(self).spec_task_id() == old(self).spec_task_id()
                && r->Err_0 == BronzeError::IdSpaceExhausted,
    {
        let mut runnable = runnable;
        let ghost pre = runnable@;
        match &mut runnable {
            RunnableHolder::Dag(d) => {
                let has_meta = d.meta_ref().is_some();
                let n = d.node_count();
                if has_meta && self.dag_id == u64::MAX {
                    return Err(BronzeError::IdSpaceExhausted);
                }
                if self.task_id > u64::MAX - (n as u64) {
                    return Err(BronzeError::IdSpaceExhausted);
                }
                if has_meta {
                    d.set_meta_id(self.dag_id);
                    self.dag_id = self.dag_id + 1;
                }
                self.task_id = d.assign_task_ids(self.task_id);
                proof {
                    assert(runnable@ =~= spec_stamp(pre, old(self).dag_id, old(self).task_id));
                    assert(holder_ok(runnable@)) by {
                        let d0 = pre->Dag_0;
                        let d2 = runnable@->Dag_0;
                        assert(d2.roots == d0.roots && d2.nodes.len() == d0.nodes.len());
                        assert forall|i: int| 0 <= i < d2.nodes.len() implies (
                        #[trigger] d2.nodes[i]).parents == d0.nodes[i].parents
                            && d2.nodes[i].children == d0.nodes[i].children by {}
                        assert(dag_wf(d2)) by {
                            assert forall|i: int, j: int|
                                0 <= i < d2.nodes.len() && 0 <= j < d2.nodes.len() implies ((
                            #[trigger] d2.nodes[i].children.contains(j)) <==> (
                            #[trigger] d2.nodes[j].parents.contains(i))) by {
                                assert(d0.nodes[i].children.contains(j) <==> d0.nodes[
                                    j
                                ].parents.contains(i));
                            }
                        }
                    }
                }
            },
            RunnableHolder::Task(t) => {
                match &mut t.meta {
                    Some(m) => {
                        if self.task_id == u64::MAX {
                            return Err(BronzeError::IdSpaceExhausted);
                        }
                        m.set_id(self.task_id);
                        self.task_id = self.task_id + 1;
                    },
                    None => {
                    },
                }
                proof {
                    assert(runnable@ =~= spec_stamp(pre, old(self).dag_id, old(self).task_id));
                }
            },
        }
        let ghost stamped = runnable@;
        self.storage.save_runnable(runnable);
        proof {
            assert(self.storage_items() == old(self).storage_items().push(stamped));
            assert forall|k: int| 0 <= k < self.storage_items().len() implies holder_ok(
                #[trigger] self.storage_items()[k],
            ) by {
                if k < old(self).storage_items().len() {
                    assert(self.storage_items()[k] == old(self).storage_items()[k]);
                }
            }
        }
        Ok(())
    }

    /// One tick of the trigger loop over the registry: loads the snapshot,
    /// advances every clock against `now`, stores the advanced items back,
    /// and yields the dispatch actions of the items that fired, in order.
    pub fn tick_once(&mut self, now: &ScheduleTime) -> (plan: Vec<Dispatch>)
        requires
            old(self).inv(),
        ensures
            final(self).inv(),
            final(self).trigger_state() == old(self).trigger_state(),
            final(self).spec_dag_id() == old(self).spec_dag_id(),
            final(self).spec_task_id() == old(self).spec_task_id(),
            ({
                let (ri, rp) = spec_tick(old(self).storage_items(), now@);
                final(self).storage_items() == ri && plan@ == rp
            }),
    {
        let mut items = self.storage.load_runnable();
        proof {
            assert(items@.map_values(|h: RunnableHolder| h@) =~= old(self).storage_items());
        }
        let plan = trigger_tick(&mut items, now);
        self.storage.store_all(items);
        plan
    }

    /// Records that the background loop was started under this ticket.
    pub fn start(&mut self, ticket: u64)
        ensures
            old(self).inv() ==> final(self).inv(),
            final(self).storage_items() == old(self).storage_items(),
            final(self).trigger_state() == (TriggerState {
                is_stop: old(self).trigger_state().is_stop,
                join_ticket: Some(ticket),
            }),
    {
        self.trigger.start(ticket);
        proof {
            assert forall|k: int| 0 <= k < self.storage_items().len() && old(self).inv()
                implies holder_ok(#[trigger] self.storage_items()[k]) by {
                assert(self.storage_items()[k] == old(self).storage_items()[k]);
            }
        }
    }

    /// Requests the trigger to stop; yields the loop ticket to join on the
    /// first call and nothing afterwards.
    pub fn stop(&mut self) -> (r: Option<u64>)
        ensures
            old(self).inv() ==> final(self).inv(),
            final(self).storage_items() == old(self).storage_items(),
            final(self).trigger_state() == crate::trigger::spec_stop(old(self).trigger_state()).0,
            r == crate::trigger::spec_stop(old(self).trigger_state()).1,
    {
        let r = self.trigger.stop();
        proof {
            assert forall|k: int| 0 <= k < self.storage_items().len() && old(self).inv()
                implies holder_ok(#[trigger] self.storage_items()[k]) by {
                assert(self.storage_items()[k] == old(self).storage_items()[k]);
            }
        }
        r
    }
}

} // verus!
