//! Sessions: the caller-facing assembly of storage, trigger and executor.
//!
//! A session accepts work together with a schedule expression, prepares the
//! schedule clock, collapses one-node graphs into bare tasks, and registers
//! the result with the manager. Building a session checks the wiring and
//! reports exactly what is missing.

use crate::dag::{dag_wf, spec_dag_walk, DagShape, DAG};
use crate::executor::Executor;
use crate::manager::ScheduleManager;
use crate::schedule_expr::{spec_parse_expr, ExprShape, ScheduleExpr};
use crate::runtime::MetaShape;
use crate::schedule_time::{clock_wf, ScheduleTime};
use crate::store::Storage;
use crate::task::{holder_ok, HolderShape, RunnableHolder};
use crate::trigger::{dag_fuel, Dispatch, Trigger, TriggerState};
use crate::BronzeError;
use vstd::prelude::*;

verus! {

/// Fresh shared metadata as `prepare` builds it from the cron expression
/// `s`: nothing set but an initialized clock.
pub open spec fn fresh_prepared_meta(m: MetaShape, s: Seq<char>) -> bool {
    &&& m.id is None
    &&& m.name is None
    &&& m.maximum_run_times is None
    &&& m.maximum_parallelism is None
    &&& (m.schedule matches Some(c) && clock_wf(c) && c.expr == ExprShape::Cron(s)
        && c.next_run is Some && c.min_interval is Some && c.last_run is None)
}

/// The item a successful submission registers, before identities are
/// assigned: a bare task exactly when the graph's walk visits one node (the
/// task keeps that node's descriptor), otherwise the whole graph unchanged;
/// either way carrying fresh metadata with a clock prepared from `s`.
pub open spec fn spec_submitted_shape(d: DagShape, s: Seq<char>, st: HolderShape) -> bool {
    let w = spec_dag_walk(d, dag_fuel(d));
    &&& w is Some
    &&& (st is Task <==> w->0.len() == 1)
    &&& (st matches HolderShape::Task(t) ==> t.task == d.nodes[d.roots[0]].task && (
    t.meta matches Some(m) && fresh_prepared_meta(m, s)))
    &&& (st matches HolderShape::Dag(d2) ==> d2.nodes == d.nodes && d2.roots == d.roots
        && d2.schedule is None && (d2.meta matches Some(m) && fresh_prepared_meta(m, s)))
}

/// A caller-facing scheduling session.
pub trait Session: Sized {
    /// Whether the session has been wired (its manager exists).
    spec fn ready(&self) -> bool;

    /// The registered items, in insertion order.
    spec fn stored(&self) -> Seq<HolderShape>;

    /// Every registered item is in good standing.
    spec fn session_inv(&self) -> bool;

    /// Registers one item that already carries its clock: the item is stored
    /// as given, with fresh identities assigned.
    fn submit_runnable(&mut self, runnable: RunnableHolder) -> (r: Result<(), BronzeError>)
        requires
            old(self).ready(),
            old(self).session_inv(),
            holder_ok(runnable@),
        ensures
            final(self).ready(),
            final(self).session_inv(),
            r is Ok ==> final(self).stored().len() == old(self).stored().len() + 1,
            r is Ok ==> exists|di: u64, ti: u64|
                final(self).stored() == old(self).stored().push(
                    #[trigger] crate::manager::spec_stamp(runnable@, di, ti),
                ),
            r is Err ==> final(self).stored() == old(self).stored() && r->Err_0
                == BronzeError::IdSpaceExhausted,
    ;

    /// Whether the session's parts are all supplied, the registry is fresh,
    /// and nothing has been wired yet.
    spec fn can_build(&self) -> bool;

    /// The error a failing wiring reports: the first missing part, in the
    /// order storage, trigger, executor.
    spec fn build_failure(&self) -> BronzeError;

    /// Wires the session's parts into a manager.
    fn build_session(&mut self) -> (r: Result<(), BronzeError>)
        ensures
            r is Ok <==> old(self).can_build(),
            r is Ok ==> final(self).ready() && final(self).session_inv()
                && final(self).stored().len() == 0,
            r is Err ==> r->Err_0 == old(self).build_failure() && *final(self) == *old(self),
    ;

    /// Submits work under a schedule expression: parses the expression,
    /// prepares the clock, collapses a one-node graph into a bare task, and
    /// registers the result.
    fn submit(&mut self, s: &str, d: DAG) -> (r: Result<(), BronzeError>)
        requires
            old(self).ready(),
            old(self).session_inv(),
            dag_wf(d@),
        ensures
            final(self).ready(),
            final(self).session_inv(),
            (r is Err && r->Err_0 == BronzeError::ParseError) <==> spec_parse_expr(s@) is None,
            (r is Err && r->Err_0 == BronzeError::NotCron) <==> (spec_parse_expr(s@) matches Some(
                e,
            ) && e is Preset),
            r is Err && r->Err_0 == BronzeError::CycleDetected ==> spec_dag_walk(
                d@,
                dag_fuel(d@),
            ) is None,
            spec_dag_walk(d@, dag_fuel(d@)) is None && (spec_parse_expr(s@) matches Some(e)
                && e is Cron) ==> r is Err,
            r is Ok ==> final(self).stored().len() == old(self).stored().len() + 1,
            r is Ok ==> exists|st: HolderShape, di: u64, ti: u64|
                final(self).stored() == old(self).stored().push(
                    #[trigger] crate::manager::spec_stamp(st, di, ti),
                ) && spec_submitted_shape(d@, s@, st),
            r is Err ==> final(self).stored() == old(self).stored(),
    {
        let ghost dv = d@;
        let expr = match ScheduleExpr::parse(s) {
            Ok(e) => e,
            Err(e) => {
                return Err(e);
            },
        };
        let mut dag = d;
        dag.set_schedule(expr);
        match dag.prepare() {
            Ok(_) => {
            },
            Err(e) => {
                return Err(e);
            },
        }
        let n = dag.node_count();
        let fuel: usize = if n < usize::MAX {
            n + 1
        } else {
            n
        };
        proof {
            assert(fuel as nat == dag_fuel(dv));
            assert(spec_dag_walk(dag@, fuel as nat) == spec_dag_walk(dv, dag_fuel(dv)));
        }
        let count = match dag.cal_task_nums(fuel) {
            Some(c) => c,
            None => {
                return Err(BronzeError::CycleDetected);
            },
        };
        let runnable = if count == 1 {
            proof {
                crate::dag::lemma_single_node_walk(dag@, fuel as nat);
            }
            match dag.to_single_task() {
                Ok(t) => RunnableHolder::Task(t),
                Err(e) => {
                    return Err(e);
                },
            }
        } else {
            RunnableHolder::Dag(dag)
        };
        proof {
            assert(spec_submitted_shape(dv, s@, runnable@));
        }
        let r = self.submit_runnable(runnable);
        proof {
            if r is Ok {
                let (di, ti) = choose|di: u64, ti: u64|
                    final(self).stored() == old(self).stored().push(
                        #[trigger] crate::manager::spec_stamp(runnable@, di, ti),
                    );
            }
        }
        r
    }
}

/// A single-process session over a storage, a trigger, and an executor.
pub struct LocalSession<SG: Storage, TG: Trigger, E: Executor> {
    manager: Option<ScheduleManager<SG, TG, E>>,
    trigger: Option<TG>,
    storage: Option<SG>,
    executor: Option<E>,
}

impl<SG: Storage, TG: Trigger, E: Executor> LocalSession<SG, TG, E> {
    /// The not-yet-built storage's registry is empty.
    pub closed spec fn storage_fresh(&self) -> bool {
        match self.storage {
            Some(ref sg) => sg.items().len() == 0,
            None => true,
        }
    }

    /// The trigger's stop-protocol state, once the session is wired.
    pub closed spec fn trig_state(&self) -> Option<TriggerState> {
        match self.manager {
            Some(ref m) => Some(m.trigger_state()),
            None => None,
        }
    }

    /// A session from its parts; nothing is wired until `build_session`.
    pub fn new(storage: Option<SG>, trigger: Option<TG>, executor: Option<E>) -> (r: LocalSession<
        SG,
        TG,
        E,
    >)
        ensures
            !r.ready(),
            r.storage_fresh() == match storage {
                Some(ref sg) => sg.items().len() == 0,
                None => true,
            },
            r.has_storage() == (storage is Some),
            r.has_trigger() == (trigger is Some),
            r.has_executor() == (executor is Some),
    {
        LocalSession { manager: None, trigger, storage, executor }
    }

    /// Whether a storage was supplied.
    pub closed spec fn has_storage(&self) -> bool {
        self.storage is Some
    }

    /// Whether a trigger was supplied.
    pub closed spec fn has_trigger(&self) -> bool {
        self.trigger is Some
    }

    /// Whether an executor was supplied.
    pub closed spec fn has_executor(&self) -> bool {
        self.executor is Some
    }

    /// Whether the session has been wired: the executable probe the
    /// embedding program tests before driving ticks or the stop protocol.
    pub fn is_ready(&self) -> (r: bool)
        ensures
            r == self.ready(),
    {
        self.manager.is_some()
    }

    /// One tick of the trigger loop over the registry: advances every clock
    /// against `now` and yields the dispatch actions of the items that fired.
    pub fn tick_once(&mut self, now: &ScheduleTime) -> (plan: Vec<Dispatch>)
        requires
            old(self).ready(),
            old(self).session_inv(),
        ensures
            final(self).ready(),
            final(self).session_inv(),
            ({
                let (ri, rp) = crate::trigger::spec_tick(old(self).stored(), now@);
                final(self).stored() == ri && plan@ == rp
            }),
    {
        match &mut self.manager {
            Some(m) => m.tick_once(now),
            None => {
                proof {
                    assert(false);
                }
                Vec::new()
            },
        }
    }

    /// Records that the background loop was started under this ticket.
    pub fn start(&mut self, ticket: u64)
        requires
            old(self).ready(),
            old(self).session_inv(),
        ensures
            final(self).ready(),
            final(self).session_inv(),
            final(self).stored() == old(self).stored(),
    {
        match &mut self.manager {
            Some(m) => m.start(ticket),
            None => {
            },
        }
    }

    /// Requests the trigger to stop; yields the loop ticket to join on the
    /// first call and nothing afterwards.
    pub fn stop(&mut self) -> (r: Option<u64>)
        requires
            old(self).ready(),
            old(self).session_inv(),
        ensures
            final(self).ready(),
            final(self).session_inv(),
            final(self).stored() == old(self).stored(),
            final(self).trig_state() == Some(
                crate::trigger::spec_stop(old(self).trig_state()->0).0,
            ),
            r == crate::trigger::spec_stop(old(self).trig_state()->0).1,
    {
        match &mut self.manager {
            Some(m) => m.stop(),
            None => {
                proof {
                    assert(false);
                }
                None
            },
        }
    }
}

impl<SG: Storage, TG: Trigger, E: Executor> Session for LocalSession<SG, TG, E> {
    closed spec fn ready(&self) -> bool {
        self.manager is Some
    }

    closed spec fn can_build(&self) -> bool {
        &&& self.manager is None
        &&& self.storage is Some
        &&& self.trigger is Some
        &&& self.executor is Some
        &&& self.storage_fresh()
    }

    closed spec fn build_failure(&self) -> BronzeError {
        if self.manager is Some {
            BronzeError::Unsupported
        } else if self.storage is None {
            BronzeError::MissingStorage
        } else if self.trigger is None {
            BronzeError::MissingTrigger
        } else if self.executor is None {
            BronzeError::MissingExecutor
        } else {
            BronzeError::Unsupported
        }
    }

    closed spec fn stored(&self) -> Seq<HolderShape> {
        match self.manager {
            Some(ref m) => m.storage_items(),
            None => Seq::empty(),
        }
    }

    closed spec fn session_inv(&self) -> bool {
        match self.manager {
            Some(ref m) => m.inv(),
            None => true,
        }
    }

    fn submit_runnable(&mut self, runnable: RunnableHolder) -> (r: Result<(), BronzeError>) {
        let r = match &mut self.manager {
            Some(m) => m.add_runnable(runnable),
            None => {
                proof {
                    assert(false);
                }
                Err(BronzeError::MissingStorage)
            },
        };
        proof {
            if r is Ok {
                let m0 = old(self).manager->0;
                assert(self.stored() == old(self).stored().push(
                    crate::manager::spec_stamp(runnable@, m0.spec_dag_id(), m0.spec_task_id()),
                ));
            }
        }
        r
    }

    /// Takes the storage, the trigger, and the executor — reporting exactly
    /// which one is missing, in that order — and wires the manager.
    fn build_session(&mut self) -> (r: Result<(), BronzeError>) {
        if self.manager.is_some() {
            return Err(BronzeError::Unsupported);
        }
        if self.storage.is_none() {
            return Err(BronzeError::MissingStorage);
        }
        if self.trigger.is_none() {
            return Err(BronzeError::MissingTrigger);
        }
        if self.executor.is_none() {
            return Err(BronzeError::MissingExecutor);
        }
        if !self.storage_is_fresh() {
            return Err(BronzeError::Unsupported);
        }
        let storage = match self.storage.take() {
            Some(s) => s,
            None => {
                proof {
                    assert(false);
                }
                return Err(BronzeError::MissingStorage);
            },
        };
        let trigger = match self.trigger.take() {
            Some(t) => t,
            None => {
                proof {
                    assert(false);
                }
                return Err(BronzeError::MissingTrigger);
            },
        };
        let executor = match self.executor.take() {
            Some(e) => e,
            None => {
                proof {
                    assert(false);
                }
                return Err(BronzeError::MissingExecutor);
            },
        };
        self.manager = Some(ScheduleManager::new(storage, trigger, executor));
        Ok(())
    }
}

impl<SG: Storage, TG: Trigger, E: Executor> LocalSession<SG, TG, E> {
    /// Whether the supplied storage's registry is still empty. A session is
    /// only wired over a fresh registry.
    fn storage_is_fresh(&self) -> (r: bool)
        ensures
            r == self.storage_fresh(),
    {
        match &self.storage {
            Some(sg) => sg.load_runnable().len() == 0,
            None => true,
        }
    }
}

/// Assembles a session from a storage, a trigger, and an executor.
pub struct SessionBuilder<SG: Storage, TG: Trigger, E: Executor> {
    uri: Option<String>,
    trigger: Option<TG>,
    storage: Option<SG>,
    executor: Option<E>,
}

impl<SG: Storage, TG: Trigger, E: Executor> SessionBuilder<SG, TG, E> {
    /// The supplied scheduler backend address, if any.
    pub closed spec fn spec_uri(&self) -> Option<Seq<char>> {
        match self.uri {
            Some(ref u) => Some(u@),
            None => None,
        }
    }

    /// The supplied storage, if any.
    pub closed spec fn spec_storage(&self) -> Option<SG> {
        self.storage
    }

    /// The supplied trigger, if any.
    pub closed spec fn spec_trigger(&self) -> Option<TG> {
        self.trigger
    }

    /// The supplied executor, if any.
    pub closed spec fn spec_executor(&self) -> Option<E> {
        self.executor
    }

    /// The supplied storage's registry is still empty (or none is supplied).
    pub closed spec fn builder_storage_fresh(&self) -> bool {
        match self.storage {
            Some(ref sg) => sg.items().len() == 0,
            None => true,
        }
    }

    /// The error `get` and `build` report: the first missing part, in the
    /// order storage, trigger, executor.
    pub open spec fn missing_part(&self) -> BronzeError {
        if self.spec_storage() is None {
            BronzeError::MissingStorage
        } else if self.spec_trigger() is None {
            BronzeError::MissingTrigger
        } else {
            BronzeError::MissingExecutor
        }
    }

    /// Sets the scheduler backend address.
    pub fn set_uri(self, uri: &str) -> (r: SessionBuilder<SG, TG, E>)
        ensures
            r.spec_uri() == Some(uri@),
            r.spec_storage() == self.spec_storage(),
            r.spec_trigger() == self.spec_trigger(),
            r.spec_executor() == self.spec_executor(),
    {
        SessionBuilder { uri: Some(uri.to_owned()), ..self }
    }

    /// Supplies the trigger.
    pub fn trigger(self, trigger: TG) -> (r: SessionBuilder<SG, TG, E>)
        ensures
            r.spec_trigger() == Some(trigger),
            r.spec_uri() == self.spec_uri(),
            r.spec_storage() == self.spec_storage(),
            r.spec_executor() == self.spec_executor(),
    {
        SessionBuilder { trigger: Some(trigger), ..self }
    }

    /// Supplies the storage.
    pub fn storage(self, storage: SG) -> (r: SessionBuilder<SG, TG, E>)
        ensures
            r.spec_storage() == Some(storage),
            r.spec_uri() == self.spec_uri(),
            r.spec_trigger() == self.spec_trigger(),
            r.spec_executor() == self.spec_executor(),
    {
        SessionBuilder { storage: Some(storage), ..self }
    }

    /// Supplies the executor.
    pub fn executor(self, executor: E) -> (r: SessionBuilder<SG, TG, E>)
        ensures
            r.spec_executor() == Some(executor),
            r.spec_uri() == self.spec_uri(),
            r.spec_storage() == self.spec_storage(),
            r.spec_trigger() == self.spec_trigger(),
    {
        SessionBuilder { executor: Some(executor), ..self }
    }

    /// Takes the three parts, reporting exactly which one is missing:
    /// storage first, then trigger, then executor.
    pub fn get(&mut self) -> (r: Result<(SG, TG, E), BronzeError>)
        ensures
            r is Ok <==> old(self).spec_storage() is Some && old(self).spec_trigger() is Some
                && old(self).spec_executor() is Some,
            r matches Ok(p) ==> old(self).spec_storage() == Some(p.0) && old(self).spec_trigger()
                == Some(p.1) && old(self).spec_executor() == Some(p.2)
                && final(self).spec_storage() is None && final(self).spec_trigger() is None
                && final(self).spec_executor() is None,
            r is Err ==> *final(self) == *old(self) && r->Err_0 == old(self).missing_part(),
    {
        if self.storage.is_none() {
            return Err(BronzeError::MissingStorage);
        }
        if self.trigger.is_none() {
            return Err(BronzeError::MissingTrigger);
        }
        if self.executor.is_none() {
            return Err(BronzeError::MissingExecutor);
        }
        let storage = match self.storage.take() {
            Some(s) => s,
            None => {
                return Err(BronzeError::MissingStorage);
            },
        };
        let trigger = match self.trigger.take() {
            Some(t) => t,
            None => {
                return Err(BronzeError::MissingTrigger);
            },
        };
        let executor = match self.executor.take() {
            Some(e) => e,
            None => {
                return Err(BronzeError::MissingExecutor);
            },
        };
        Ok((storage, trigger, executor))
    }

    /// Wires the parts into a ready session. The background loop is started
    /// by the embedding program, which then drives `tick_once`.
    pub fn build(self) -> (r: Result<LocalSession<SG, TG, E>, BronzeError>)
        ensures
            r is Ok <==> self.spec_storage() is Some && self.spec_trigger() is Some
                && self.spec_executor() is Some && self.builder_storage_fresh(),
            r matches Ok(s) ==> s.ready() && s.session_inv() && s.stored().len() == 0,
            r is Err ==> r->Err_0 == (
            if self.spec_storage() is Some && self.spec_trigger() is Some && self.spec_executor()
                is Some {
                BronzeError::Unsupported
            } else {
                self.missing_part()
            }),
    {
        let mut this = self;
        let (storage, trigger, executor) = match this.get() {
            Ok(p) => p,
            Err(e) => {
                return Err(e);
            },
        };
        let mut session = LocalSession::new(Some(storage), Some(trigger), Some(executor));
        match session.build_session() {
            Ok(_) => Ok(session),
            Err(e) => Err(e),
        }
    }
}

/// Builds empty session builders for local wiring.
pub trait LocalSessionFactory: Sized {
    /// A builder with nothing supplied yet.
    fn local() -> Self;
}

impl<SG: Storage, TG: Trigger, E: Executor> LocalSessionFactory for SessionBuilder<SG, TG, E> {
    fn local() -> Self {
        SessionBuilder { uri: None, trigger: None, storage: None, executor: None }
    }
}

/// Builds session builders with the default in-process parts supplied.
pub trait DefaultSessionFactory: Sized {
    /// A builder wired with the in-memory storage, the OS-thread trigger,
    /// and the in-caller-thread executor.
    fn default() -> Self;
}

impl DefaultSessionFactory for SessionBuilder<
    crate::store::MemoryStorage,
    crate::trigger::ThreadTrigger,
    crate::executor::DefaultExecutor,
> {
    fn default() -> Self {
        SessionBuilder {
            uri: None,
            trigger: Some(crate::trigger::ThreadTrigger::new()),
            storage: Some(crate::store::MemoryStorage::new()),
            executor: Some(crate::executor::DefaultExecutor::new()),
        }
    }
}

/// Builds empty session builders for remote wiring; the remote session
/// itself is not part of this library.
pub trait RemoteSessionFactory: Sized {
    /// A builder with nothing supplied yet.
    fn remote() -> Self;
}

impl<SG: Storage, TG: Trigger, E: Executor> RemoteSessionFactory for SessionBuilder<SG, TG, E> {
    fn remote() -> Self {
        SessionBuilder { uri: None, trigger: None, storage: None, executor: None }
    }
}

} // verus!
