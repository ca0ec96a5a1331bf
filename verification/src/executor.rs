//! Execution backends and the dispatch-side capability checks.
//!
//! An executor submits units of work. The dispatch layer probes the backend
//! with `support_async` and refuses to hand asynchronous work to a backend
//! that cannot take it — a checked precondition instead of a failure inside
//! the backend.

use crate::runtime::{BronzeRuntime, Runnable, RuntimeJoinHandle, ThreadRuntime};
use crate::BronzeError;
use vstd::prelude::*;

verus! {

/// An execution backend: a capability probe and a submit operation.
pub trait Executor {
    /// Whether this backend can take asynchronous work.
    spec fn spec_support_async(&self) -> bool;

    /// Whether the non-reentrant submit path accepts work at all; a backend
    /// that must own the work refuses it.
    spec fn spec_submit_succeeds(&self) -> bool;

    /// Whether the safe, ownership-taking submit path accepts work.
    spec fn spec_submit_safe_succeeds(&self) -> bool;

    /// Capability probe for asynchronous work.
    fn support_async(&self) -> (r: bool)
        ensures
            r == self.spec_support_async(),
    ;

    /// Refuses to pair asynchronous work with a backend that cannot take it.
    fn check_async_support<R: Runnable>(&self, runnable: &R) -> (r: Result<(), BronzeError>)
        ensures
            r is Ok <==> (!runnable.spec_is_async() || self.spec_support_async()),
            r is Err ==> r->Err_0 == BronzeError::Unsupported,
    {
        if runnable.is_async() && !self.support_async() {
            Err(BronzeError::Unsupported)
        } else {
            Ok(())
        }
    }

    /// Submits a unit of work through the non-reentrant path: the work is
    /// completed exactly when this backend supports the path; a refusal is
    /// the unsupported-operation error and runs nothing.
    fn submit<R: Runnable>(&self, runnable: &R, report_msg: bool) -> (r: Result<(), BronzeError>)
        requires
            runnable.run_pre(),
        ensures
            r is Ok <==> self.spec_submit_succeeds(),
            r is Ok ==> exists|h: RuntimeJoinHandle<()>| runnable.run_post(h),
            r is Err ==> r->Err_0 == BronzeError::Unsupported,
    ;

    /// Submits a unit of work the backend may take ownership of; completed
    /// exactly when this backend's safe path accepts work.
    fn submit_safe<R: Runnable + Send + Sync + 'static>(&self, runnable: R, report_msg: bool) -> (r:
        Result<(), BronzeError>)
        requires
            runnable.run_pre(),
        ensures
            r is Ok <==> self.spec_submit_safe_succeeds(),
            r is Ok ==> exists|h: RuntimeJoinHandle<()>| runnable.run_post(h),
            r is Err ==> r->Err_0 == BronzeError::Unsupported,
    ;
}

/// The dispatch contract: checks the capability, then submits. Compatible
/// work offered to an accepting backend is carried out; a failing check or a
/// failing submission is reported, never hidden.
pub trait TriggerCaller {
    /// Whether this caller can take asynchronous work.
    spec fn spec_takes_async(&self) -> bool;

    /// Whether this caller's backend accepts dispatched work at all.
    spec fn spec_dispatch_succeeds(&self) -> bool;

    /// Checks the capability and submits one unit of work.
    fn trigger<R: Runnable>(&self, runnable: &R, report_msg: bool) -> (r: Result<(), BronzeError>)
        requires
            runnable.run_pre(),
        ensures
            runnable.spec_is_async() && !self.spec_takes_async() ==> r is Err && r->Err_0
                == BronzeError::Unsupported,
            (!runnable.spec_is_async() || self.spec_takes_async())
                && self.spec_dispatch_succeeds() ==> r is Ok,
            r is Ok ==> exists|h: RuntimeJoinHandle<()>| runnable.run_post(h),
    ;
}

impl<T: Executor> TriggerCaller for T {
    open spec fn spec_takes_async(&self) -> bool {
        self.spec_support_async()
    }

    open spec fn spec_dispatch_succeeds(&self) -> bool {
        self.spec_submit_succeeds()
    }

    fn trigger<R: Runnable>(&self, runnable: &R, report_msg: bool) -> (r: Result<(), BronzeError>) {
        match self.check_async_support(runnable) {
            Ok(_) => self.submit(runnable, report_msg),
            Err(e) => Err(e),
        }
    }
}

/// The in-caller-thread backend: submitting runs the work directly and
/// returns once it is done.
#[derive(Default)]
pub struct DefaultExecutor {}

impl DefaultExecutor {
    /// A fresh in-caller-thread backend.
    pub fn new() -> (r: DefaultExecutor) {
        DefaultExecutor {}
    }
}

impl Executor for DefaultExecutor {
    open spec fn spec_support_async(&self) -> bool {
        false
    }

    /// Both submit paths run the work in the caller's thread.
    open spec fn spec_submit_succeeds(&self) -> bool {
        true
    }

    open spec fn spec_submit_safe_succeeds(&self) -> bool {
        true
    }

    fn support_async(&self) -> (r: bool) {
        false
    }

    fn submit<R: Runnable>(&self, runnable: &R, _report_msg: bool) -> (r: Result<
        (),
        BronzeError,
    >) {
        let h = runnable.run();
        proof {
            assert(runnable.run_post(h));
        }
        Ok(())
    }

    fn submit_safe<R: Runnable + Send + Sync + 'static>(&self, runnable: R, report_msg: bool) -> (r:
        Result<(), BronzeError>) {
        self.submit(&runnable, report_msg)
    }
}

/// The dedicated-thread backend: the non-reentrant path is refused; the safe
/// path completes the work before returning.
#[derive(Default)]
pub struct ThreadExecutor {
    runtime: ThreadRuntime,
}

impl Executor for ThreadExecutor {
    open spec fn spec_support_async(&self) -> bool {
        false
    }

    /// The non-reentrant path is never supported here.
    open spec fn spec_submit_succeeds(&self) -> bool {
        false
    }

    /// The safe path always completes the work.
    open spec fn spec_submit_safe_succeeds(&self) -> bool {
        true
    }

    fn support_async(&self) -> (r: bool) {
        false
    }

    /// Not supported here: use `submit_safe`.
    fn submit<R: Runnable>(&self, _runnable: &R, _report_msg: bool) -> (r: Result<
        (),
        BronzeError,
    >) {
        Err(BronzeError::Unsupported)
    }

    fn submit_safe<R: Runnable + Send + Sync + 'static>(&self, runnable: R, report_msg: bool) -> (r:
        Result<(), BronzeError>) {
        self.runtime.run_safe(runnable, report_msg)
    }
}

} // verus!
