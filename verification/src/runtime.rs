//! The execution-runtime abstraction: units of work and how they run.
//!
//! A unit of work is anything implementing [`Runnable`]: a plain closure, a
//! [`SyncFn`] wrapper, or a user-defined type. Running it yields a
//! [`RuntimeJoinHandle`] describing how completion is observed. The
//! synchronous [`ThreadRuntime`] completes the work before returning;
//! asynchronous multiplexed execution is reached through dispatch plans and
//! completion tickets, consumed by a backend outside the library.

use crate::schedule_time::{ClockShape, ScheduleTimeHolder};
use crate::BronzeError;
use vstd::prelude::*;

verus! {

/// How the completion of one dispatched unit of work is observed: a
/// synchronous run is already complete; an asynchronous run hands back a
/// ticket that the backend's completion loop resolves; a blocked-on future
/// carries its output directly.
#[derive(Debug)]
pub enum RuntimeJoinHandle<T> {
    /// The work ran synchronously and is already done.
    SyncJobHandle,
    /// The work was enqueued; the backend reports completion for this ticket.
    AsyncTicket(u64),
    /// The work was a future driven to completion in place.
    FutureBlockJoinHandle(T),
}

/// A unit of work with identity and an execute operation.
pub trait Runnable: Sized {
    /// What must hold before this unit of work may run.
    spec fn run_pre(&self) -> bool;

    /// What one completed run guarantees.
    spec fn run_post(&self, h: RuntimeJoinHandle<()>) -> bool;

    /// Whether this unit of work is asynchronous.
    spec fn spec_is_async(&self) -> bool;

    /// Executes the unit of work.
    fn run_async(&self) -> (h: RuntimeJoinHandle<()>)
        requires
            self.run_pre(),
        ensures
            self.run_post(h),
    ;

    /// Executes the unit of work; same as `run_async`.
    fn run(&self) -> (h: RuntimeJoinHandle<()>)
        requires
            self.run_pre(),
        ensures
            self.run_post(h),
    {
        self.run_async()
    }

    /// Whether this unit of work is asynchronous.
    fn is_async(&self) -> (r: bool)
        ensures
            r == self.spec_is_async(),
    ;

    /// A display name for this unit of work.
    fn name(&self) -> String;
}

/// A synchronous unit of work wrapped around a plain closure.
#[derive(Clone)]
pub struct SyncFn<F: Fn() + Send + Clone + 'static>(pub F);

impl<F: Fn() + Send + Clone + 'static> SyncFn<F> {
    /// Wraps a closure.
    pub fn from(f: F) -> (r: SyncFn<F>)
        ensures
            r.0 == f,
    {
        SyncFn(f)
    }
}

impl<F: Fn() + Send + Clone + 'static> Runnable for SyncFn<F> {
    open spec fn run_pre(&self) -> bool {
        call_requires(self.0, ())
    }

    open spec fn run_post(&self, h: RuntimeJoinHandle<()>) -> bool {
        call_ensures(self.0, (), ()) && h is SyncJobHandle
    }

    open spec fn spec_is_async(&self) -> bool {
        false
    }

    fn run_async(&self) -> (h: RuntimeJoinHandle<()>) {
        (self.0)();
        RuntimeJoinHandle::SyncJobHandle
    }

    fn is_async(&self) -> (r: bool) {
        false
    }

    fn name(&self) -> String {
        "sync function".to_owned()
    }
}

/// A plain closure is itself a synchronous unit of work.
impl<F: Fn() + Send + Clone + 'static> Runnable for F {
    open spec fn run_pre(&self) -> bool {
        call_requires(*self, ())
    }

    open spec fn run_post(&self, h: RuntimeJoinHandle<()>) -> bool {
        call_ensures(*self, (), ()) && h is SyncJobHandle
    }

    open spec fn spec_is_async(&self) -> bool {
        false
    }

    fn run_async(&self) -> (h: RuntimeJoinHandle<()>) {
        self();
        RuntimeJoinHandle::SyncJobHandle
    }

    fn is_async(&self) -> (r: bool) {
        false
    }

    fn name(&self) -> String {
        "function".to_owned()
    }
}

/// An asynchronous unit of work wrapped around a closure that yields a
/// future. The library only carries it and reads its identity; driving the
/// future belongs to an asynchronous backend outside the library.
#[derive(Clone)]
pub struct AsyncFn<F: Send + Clone + 'static>(pub F);

impl<F: Send + Clone + 'static> AsyncFn<F> {
    /// Wraps a future-yielding closure.
    pub fn from(f: F) -> (r: AsyncFn<F>)
        ensures
            r.0 == f,
    {
        AsyncFn(f)
    }

    /// An asynchronous unit of work is asynchronous.
    pub fn is_async(&self) -> (r: bool)
        ensures
            r,
    {
        true
    }
}

/// A runtime that can carry out units of work.
pub trait BronzeRuntime {
    /// Whether the non-reentrant path accepts work at all; a backend that
    /// must own the work refuses it.
    spec fn spec_run_succeeds(&self) -> bool;

    /// Whether the safe, ownership-taking path accepts work.
    spec fn spec_run_safe_succeeds(&self) -> bool;

    /// Runs through the non-reentrant path: the work is completed exactly
    /// when this backend supports the path; a refusal is the
    /// unsupported-operation error and runs nothing.
    fn run<R: Runnable>(&self, runnable: &R, report_msg: bool) -> (r: Result<(), BronzeError>)
        requires
            runnable.run_pre(),
        ensures
            r is Ok <==> self.spec_run_succeeds(),
            r is Ok ==> exists|h: RuntimeJoinHandle<()>| runnable.run_post(h),
            r is Err ==> r->Err_0 == BronzeError::Unsupported,
    ;

    /// Runs a unit of work it may take ownership of, completing it before
    /// returning.
    fn run_safe<R: Runnable + Send + Sync + 'static>(&self, runnable: R, report_msg: bool) -> (r:
        Result<(), BronzeError>)
        requires
            runnable.run_pre(),
        ensures
            r is Ok <==> self.spec_run_safe_succeeds(),
            r is Ok ==> exists|h: RuntimeJoinHandle<()>| runnable.run_post(h),
            r is Err ==> r->Err_0 == BronzeError::Unsupported,
    ;
}

/// The dedicated-thread runtime: work given to `run_safe` is completed
/// before the call returns, so from the caller's point of view it is
/// synchronous.
#[derive(Default)]
pub struct ThreadRuntime {}

impl BronzeRuntime for ThreadRuntime {
    /// The non-reentrant path is never supported here.
    open spec fn spec_run_succeeds(&self) -> bool {
        false
    }

    /// The safe path always completes the work.
    open spec fn spec_run_safe_succeeds(&self) -> bool {
        true
    }

    /// Not supported here: use `run_safe`.
    fn run<R: Runnable>(&self, _runnable: &R, _report_msg: bool) -> (r: Result<(), BronzeError>) {
        Err(BronzeError::Unsupported)
    }

    fn run_safe<R: Runnable + Send + Sync + 'static>(&self, runnable: R, _report_msg: bool) -> (r:
        Result<(), BronzeError>) {
        let h = runnable.run();
        proof {
            assert(runnable.run_post(h));
        }
        Ok(())
    }
}

/// The mathematical state of a unit of work's metadata.
pub struct MetaShape {
    pub id: Option<u64>,
    pub name: Option<Seq<char>>,
    pub maximum_run_times: Option<u64>,
    pub maximum_parallelism: Option<u32>,
    pub schedule: Option<ClockShape>,
}

/// Metadata attached to a registered unit of work: identity, a name, the
/// advisory run limits, and (for scheduled work) its clock.
#[derive(Debug)]
pub struct RunnableMetadata {
    pub id: Option<u64>,
    pub name: Option<String>,
    pub maximum_run_times: Option<u64>,
    pub maximum_parallelism: Option<u32>,
    pub schedule: Option<ScheduleTimeHolder>,
}

impl View for RunnableMetadata {
    type V = MetaShape;

    open spec fn view(&self) -> MetaShape {
        MetaShape {
            id: self.id,
            name: match self.name {
                Some(ref n) => Some(n@),
                None => None,
            },
            maximum_run_times: self.maximum_run_times,
            maximum_parallelism: self.maximum_parallelism,
            schedule: match self.schedule {
                Some(ref s) => Some(s@),
                None => None,
            },
        }
    }
}

impl Default for RunnableMetadata {
    /// Fresh metadata with nothing set.
    fn default() -> (r: RunnableMetadata)
        ensures
            r@ == (MetaShape {
                id: None,
                name: None,
                maximum_run_times: None,
                maximum_parallelism: None,
                schedule: None,
            }),
    {
        RunnableMetadata {
            id: None,
            name: None,
            maximum_run_times: None,
            maximum_parallelism: None,
            schedule: None,
        }
    }
}

impl RunnableMetadata {
    /// Sets the identity assigned by the manager.
    pub fn set_id(&mut self, id: u64)
        ensures
            final(self)@ == (MetaShape { id: Some(id), ..old(self)@ }),
    {
        self.id = Some(id);
    }

    /// Sets the display name.
    pub fn set_name(&mut self, name: String)
        ensures
            final(self)@ == (MetaShape { name: Some(name@), ..old(self)@ }),
    {
        self.name = Some(name);
    }

    /// Sets the advisory maximum number of runs.
    pub fn set_maximum_run_times(&mut self, maximum_run_times: u64)
        ensures
            final(self)@ == (MetaShape {
                maximum_run_times: Some(maximum_run_times),
                ..old(self)@
            }),
    {
        self.maximum_run_times = Some(maximum_run_times);
    }

    /// Sets the advisory maximum parallelism.
    pub fn set_maximum_parallelism(&mut self, maximum_parallelism: u32)
        ensures
            final(self)@ == (MetaShape {
                maximum_parallelism: Some(maximum_parallelism),
                ..old(self)@
            }),
    {
        self.maximum_parallelism = Some(maximum_parallelism);
    }

    /// Attaches a schedule clock.
    pub fn set_schedule(&mut self, schedule: ScheduleTimeHolder)
        ensures
            final(self)@ == (MetaShape { schedule: Some(schedule@), ..old(self)@ }),
    {
        self.schedule = Some(schedule);
    }

    /// Fresh metadata carrying only a name.
    pub fn named(name: &str) -> (r: RunnableMetadata)
        ensures
            r@ == (MetaShape {
                id: None,
                name: Some(name@),
                maximum_run_times: None,
                maximum_parallelism: None,
                schedule: None,
            }),
    {
        RunnableMetadata {
            id: None,
            name: Some(name.to_owned()),
            maximum_run_times: None,
            maximum_parallelism: None,
            schedule: None,
        }
    }

    /// An independent copy with the same state.
    pub fn duplicate(&self) -> (r: RunnableMetadata)
        ensures
            r@ == self@,
    {
        RunnableMetadata {
            id: self.id,
            name: match &self.name {
                Some(n) => Some(n.clone()),
                None => None,
            },
            maximum_run_times: self.maximum_run_times,
            maximum_parallelism: self.maximum_parallelism,
            schedule: match &self.schedule {
                Some(s) => Some(s.duplicate()),
                None => None,
            },
        }
    }
}

} // verus!
