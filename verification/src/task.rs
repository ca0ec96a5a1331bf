//! Registered units of work: bare tasks and task graphs.
//!
//! The scheduling core works on task descriptors: the identity of a unit of
//! work (whether it is asynchronous, and the payload key under which the
//! caller's backend finds the executable). A registered item is either a
//! bare task with its metadata or a whole dependency graph.

use crate::dag::{DagShape, DAG};
use crate::runtime::{MetaShape, RunnableMetadata};
use crate::schedule_time::{clock_wf, spec_advance, ScheduleTime};
use vstd::prelude::*;

verus! {

/// The descriptor of one unit of work: whether it is asynchronous, and the
/// payload key under which the execution backend finds the executable.
#[derive(Debug, Clone, Copy, PartialEq, Eq, Structural)]
pub struct TaskInfo {
    /// Whether the unit of work needs an asynchronous backend.
    pub is_async: bool,
    /// The key under which the caller's backend finds the executable.
    pub payload: u64,
}

impl TaskInfo {
    /// A synchronous task descriptor.
    pub fn sync(payload: u64) -> (r: TaskInfo)
        ensures
            r == (TaskInfo { is_async: false, payload }),
    {
        TaskInfo { is_async: false, payload }
    }

    /// An asynchronous task descriptor.
    pub fn asynchronous(payload: u64) -> (r: TaskInfo)
        ensures
            r == (TaskInfo { is_async: true, payload }),
    {
        TaskInfo { is_async: true, payload }
    }
}

/// The mathematical state of a bare task.
pub struct TaskShape {
    pub task: TaskInfo,
    pub meta: Option<MetaShape>,
}

/// A bare task together with its metadata.
#[derive(Debug)]
pub struct WrappedTask {
    pub task: TaskInfo,
    pub meta: Option<RunnableMetadata>,
}

impl View for WrappedTask {
    type V = TaskShape;

    open spec fn view(&self) -> TaskShape {
        TaskShape {
            task: self.task,
            meta: match self.meta {
                Some(ref m) => Some(m@),
                None => None,
            },
        }
    }
}

impl WrappedTask {
    /// A bare task from its descriptor and metadata.
    pub fn new(task: TaskInfo, meta: Option<RunnableMetadata>) -> (r: WrappedTask)
        ensures
            r.task == task,
            r@.meta == match meta {
                Some(m) => Some(m@),
                None => None::<MetaShape>,
            },
    {
        WrappedTask { task, meta }
    }

    /// An independent copy with the same state.
    pub fn duplicate(&self) -> (r: WrappedTask)
        ensures
            r@ == self@,
    {
        WrappedTask {
            task: self.task,
            meta: match &self.meta {
                Some(m) => Some(m.duplicate()),
                None => None,
            },
        }
    }
}

/// The mathematical state of a registered item.
pub enum HolderShape {
    Task(TaskShape),
    Dag(DagShape),
}

/// A registered item: a bare task or a dependency graph.
pub enum RunnableHolder {
    Task(WrappedTask),
    Dag(DAG),
}

impl View for RunnableHolder {
    type V = HolderShape;

    open spec fn view(&self) -> HolderShape {
        match self {
            RunnableHolder::Task(t) => HolderShape::Task(t@),
            RunnableHolder::Dag(d) => HolderShape::Dag(d@),
        }
    }
}

/// The clock of a registered item, if it has one: a bare task owns its clock
/// through its metadata; a graph has one shared clock in the graph metadata.
pub open spec fn holder_clock(h: HolderShape) -> Option<crate::schedule_time::ClockShape> {
    match h {
        HolderShape::Task(t) => match t.meta {
            Some(m) => m.schedule,
            None => None,
        },
        HolderShape::Dag(d) => match d.meta {
            Some(m) => m.schedule,
            None => None,
        },
    }
}

/// The item's clock timestamps stay in range.
pub open spec fn holder_wf(h: HolderShape) -> bool {
    match holder_clock(h) {
        Some(c) => clock_wf(c),
        None => true,
    }
}

/// A registered item in good standing: its clock timestamps stay in range
/// and, for a graph, the graph is well-formed.
pub open spec fn holder_ok(h: HolderShape) -> bool {
    holder_wf(h) && match h {
        HolderShape::Dag(d) => crate::dag::dag_wf(d),
        HolderShape::Task(_) => true,
    }
}

/// The registered item after one tick: its clock (if any) advanced by
/// `spec_advance`; everything else unchanged.
pub open spec fn spec_holder_advance(h: HolderShape, now: int) -> (HolderShape, bool) {
    match h {
        HolderShape::Task(t) => match t.meta {
            Some(m) => match m.schedule {
                Some(c) => {
                    let (c2, fired) = spec_advance(c, now);
                    (
                        HolderShape::Task(
                            TaskShape { meta: Some(MetaShape { schedule: Some(c2), ..m }), ..t },
                        ),
                        fired,
                    )
                },
                None => (h, false),
            },
            None => (h, false),
        },
        HolderShape::Dag(d) => {
            let (d2, fired) = crate::dag::spec_dag_advance(d, now);
            (HolderShape::Dag(d2), fired)
        },
    }
}

impl RunnableHolder {
    /// Whether this item carries a schedule clock.
    pub fn has_clock(&self) -> (r: bool)
        ensures
            r == (holder_clock(self@) is Some),
    {
        match self {
            RunnableHolder::Task(t) => match &t.meta {
                Some(m) => m.schedule.is_some(),
                None => false,
            },
            RunnableHolder::Dag(d) => match d.meta_ref() {
                Some(m) => m.schedule.is_some(),
                None => false,
            },
        }
    }

    /// Advances this item's clock by one tick at time `now`; reports whether
    /// the item fired.
    pub fn advance_clock(&mut self, now: &ScheduleTime) -> (r: bool)
        requires
            holder_wf(old(self)@),
        ensures
            holder_wf(final(self)@),
            final(self)@ == spec_holder_advance(old(self)@, now@).0,
            r == spec_holder_advance(old(self)@, now@).1,
    {
        match self {
            RunnableHolder::Task(t) => match &mut t.meta {
                Some(m) => match &mut m.schedule {
                    Some(c) => c.cmp_and_to_next(now),
                    None => false,
                },
                None => false,
            },
            RunnableHolder::Dag(d) => d.advance_clock(now),
        }
    }

    /// An independent copy with the same state.
    pub fn duplicate(&self) -> (r: RunnableHolder)
        ensures
            r@ == self@,
    {
        match self {
            RunnableHolder::Task(t) => RunnableHolder::Task(t.duplicate()),
            RunnableHolder::Dag(d) => RunnableHolder::Dag(d.duplicate()),
        }
    }
}

} // verus!
