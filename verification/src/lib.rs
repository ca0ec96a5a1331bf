//! An embeddable task/workflow scheduler library.
//!
//! Callers register units of work (single tasks or dependency graphs of
//! tasks) together with a schedule expression (cron syntax or a fixed
//! preset); the scheduling core computes concrete "next run" timestamps,
//! decides on every tick which registered items are due, and produces the
//! dispatch actions that an execution backend carries out.

pub mod builder;
pub mod dag;
pub mod event_loop;
pub mod executor;
pub mod manager;
pub mod runtime;
pub mod schedule_expr;
pub mod schedule_time;
pub mod session;
pub mod store;
pub mod task;
pub mod trigger;

use vstd::prelude::*;

verus! {

/// The library's error taxonomy: parse errors, structural errors on graphs,
/// missing wiring at assembly time, and unsupported-operation errors.
#[derive(Clone, Copy, Debug, PartialEq, Eq, Structural)]
pub enum BronzeError {
    /// A schedule expression was neither valid cron syntax nor a recognized preset.
    ParseError,
    /// The expression is a preset, but a cron rule was required.
    NotCron,
    /// The schedule rule yields too few future occurrences to initialize a clock.
    ScheduleExhausted,
    /// A graph with no root nodes cannot be collapsed into a single task.
    EmptyDag,
    /// The sole node of a graph is still referenced by other nodes.
    SharedTask,
    /// A graph was prepared without a schedule expression.
    MissingSchedule,
    /// A traversal ran out of fuel: the graph is deeper than the node count allows.
    CycleDetected,
    /// No storage backend was configured before building a session.
    MissingStorage,
    /// No trigger was configured before building a session.
    MissingTrigger,
    /// No executor was configured before building a session.
    MissingExecutor,
    /// The operation is not supported by this backend; use the safe path.
    Unsupported,
    /// The monotonic id counters ran out of fresh identities.
    IdSpaceExhausted,
    /// An event could not be sent: the receiving end of the channel is gone.
    ChannelClosed,
}

impl BronzeError {
    /// A human-readable description of the error.
    pub fn message(&self) -> (r: &'static str)
        ensures
            r@.len() > 0,
    {
        proof {
            reveal_strlit("error schedule expression");
            reveal_strlit("can't transform to schedule");
            reveal_strlit("schedule has too few future occurrences");
            reveal_strlit("DAG is empty, could not transform to single task");
            reveal_strlit("could not take ownership from task in DAG");
            reveal_strlit("no schedule expression was set");
            reveal_strlit("graph traversal exceeded its depth budget");
            reveal_strlit("please set storage first");
            reveal_strlit("please set trigger first");
            reveal_strlit("please set executor first");
            reveal_strlit("not supported, please use the safe path");
            reveal_strlit("no fresh ids left");
            reveal_strlit("Send message failed");
        }
        match self {
            BronzeError::ParseError => "error schedule expression",
            BronzeError::NotCron => "can't transform to schedule",
            BronzeError::ScheduleExhausted => "schedule has too few future occurrences",
            BronzeError::EmptyDag => "DAG is empty, could not transform to single task",
            BronzeError::SharedTask => "could not take ownership from task in DAG",
            BronzeError::MissingSchedule => "no schedule expression was set",
            BronzeError::CycleDetected => "graph traversal exceeded its depth budget",
            BronzeError::MissingStorage => "please set storage first",
            BronzeError::MissingTrigger => "please set trigger first",
            BronzeError::MissingExecutor => "please set executor first",
            BronzeError::Unsupported => "not supported, please use the safe path",
            BronzeError::IdSpaceExhausted => "no fresh ids left",
            BronzeError::ChannelClosed => "Send message failed",
        }
    }
}

} // verus!
