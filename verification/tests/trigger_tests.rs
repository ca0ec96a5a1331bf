use bronzeflow::dag::{TaskNode, DAG};
use bronzeflow::executor::DefaultExecutor;
use bronzeflow::runtime::RunnableMetadata;
use bronzeflow::schedule_expr::ScheduleExpr;
use bronzeflow::schedule_time::{ScheduleTime, ScheduleTimeHolder};
use bronzeflow::session::{
    DefaultSessionFactory, LocalSession, LocalSessionFactory, RemoteSessionFactory, Session,
    SessionBuilder,
};
use bronzeflow::store::{MemoryStorage, Storage};
use bronzeflow::task::{RunnableHolder, TaskInfo, WrappedTask};
use bronzeflow::trigger::{trigger_tick, ThreadTrigger, Trigger};
use bronzeflow::BronzeError;

// A midnight, long after the epoch.
const T0: i64 = 19000 * 86400;

fn scheduled_task(expr: &str, payload: u64, at: i64) -> RunnableHolder {
    let e = ScheduleExpr::parse(expr).unwrap();
    let mut clock = ScheduleTimeHolder::new(e);
    clock.init_at(ScheduleTime::new(at)).unwrap();
    let mut meta = RunnableMetadata::default();
    meta.set_schedule(clock);
    RunnableHolder::Task(WrappedTask::new(TaskInfo::sync(payload), Some(meta)))
}

fn scheduled_linear_graph(expr: &str, at: i64) -> RunnableHolder {
    // A -> B -> C, payloads 0, 1, 2.
    let nodes = vec![
        TaskNode::new(TaskInfo::sync(0)),
        TaskNode::new(TaskInfo::sync(1)),
        TaskNode::new(TaskInfo::sync(2)),
    ];
    let mut d = DAG::new(nodes, vec![0]);
    d.add_edge(0, 1);
    d.add_edge(1, 2);
    // Install a clock initialized at the chosen virtual time.
    let e = ScheduleExpr::parse(expr).unwrap();
    let mut clock = ScheduleTimeHolder::new(e);
    clock.init_at(ScheduleTime::new(at)).unwrap();
    let mut meta = RunnableMetadata::default();
    meta.set_schedule(clock);
    d.set_meta(meta);
    RunnableHolder::Dag(d)
}

#[test]
fn per_second_task_fires_repeatedly() {
    // A bare synchronous task on a per-second schedule: over two and a half
    // seconds of ticking, it runs at least twice.
    let mut items = vec![scheduled_task("1/1 * * * * *", 9, T0)];
    let mut runs = 0u32;
    // The loop's cadence is half a second; only whole seconds advance time.
    let ticks: Vec<i64> = vec![T0, T0 + 1, T0 + 1, T0 + 2, T0 + 2];
    for t in ticks {
        let plan = trigger_tick(&mut items, &ScheduleTime::new(t));
        for d in plan {
            assert_eq!(d.task.payload, 9);
            assert!(d.report);
            runs += 1;
        }
    }
    assert!(runs >= 2);
}

#[test]
fn tick_without_due_items_dispatches_nothing() {
    let mut items = vec![scheduled_task("0 0 0 * * * *", 1, T0)];
    let plan = trigger_tick(&mut items, &ScheduleTime::new(T0 + 100));
    assert!(plan.is_empty());
    // The same tick again still dispatches nothing.
    let plan = trigger_tick(&mut items, &ScheduleTime::new(T0 + 100));
    assert!(plan.is_empty());
}

#[test]
fn due_item_is_dispatched_exactly_once_per_tick() {
    let mut items = vec![scheduled_task("0 0 0 * * * *", 4, T0)];
    let due = ScheduleTime::new(T0 + 86400);
    let plan = trigger_tick(&mut items, &due);
    assert_eq!(plan.len(), 1);
    assert_eq!(plan[0].task.payload, 4);
    // Without a new due time, the next tick dispatches nothing.
    let plan = trigger_tick(&mut items, &due);
    assert!(plan.is_empty());
}

#[test]
fn graph_fire_dispatches_all_nodes_in_order() {
    let mut items = vec![scheduled_linear_graph("0 0 0 * * * *", T0)];
    let plan = trigger_tick(&mut items, &ScheduleTime::new(T0 + 86400));
    let payloads: Vec<u64> = plan.iter().map(|d| d.task.payload).collect();
    assert_eq!(payloads, vec![0, 1, 2]);
}

#[test]
fn items_are_evaluated_in_storage_order() {
    let mut items = vec![
        scheduled_task("0 0 0 * * * *", 1, T0),
        scheduled_task("0 0 0 * * * *", 2, T0),
    ];
    let plan = trigger_tick(&mut items, &ScheduleTime::new(T0 + 86400));
    let payloads: Vec<u64> = plan.iter().map(|d| d.task.payload).collect();
    assert_eq!(payloads, vec![1, 2]);
}

#[test]
fn stopping_twice_does_not_double_join() {
    let mut trig = ThreadTrigger::new();
    trig.start(7);
    assert!(!trig.sig());
    assert_eq!(trig.stop(), Some(7));
    assert!(trig.sig());
    assert_eq!(trig.stop(), None);
    assert!(trig.sig());
}

#[test]
fn stop_before_start_yields_no_ticket() {
    let mut trig = ThreadTrigger::new();
    assert_eq!(trig.stop(), None);
    assert_eq!(trig.stop(), None);
}

#[test]
fn memory_storage_snapshots_in_order() {
    let mut sg = MemoryStorage::new();
    sg.save_runnable(scheduled_task("0 0 0 * * * *", 1, T0));
    sg.save_runnable(scheduled_task("0 0 0 * * * *", 2, T0));
    let snap = sg.load_runnable();
    assert_eq!(snap.len(), 2);
}

#[test]
fn session_submits_and_ticks() {
    let mut s = SessionBuilder::default().build().unwrap();
    let d = DAG::from_task(TaskInfo::sync(3));
    s.submit("1/1 * * * * *", d).unwrap();
    // The clock was initialized against the real "now": one second later the
    // task is due.
    let now = ScheduleTime::from_now();
    let plan = s.tick_once(&ScheduleTime::new(now.secs() + 2));
    assert_eq!(plan.len(), 1);
    assert_eq!(plan[0].task.payload, 3);
}

#[test]
fn session_rejects_bad_expressions() {
    let mut s = SessionBuilder::default().build().unwrap();
    let d = DAG::from_task(TaskInfo::sync(1));
    assert_eq!(
        s.submit("error str expr", d).unwrap_err(),
        BronzeError::ParseError
    );
    let d = DAG::from_task(TaskInfo::sync(1));
    assert_eq!(s.submit("@none", d).unwrap_err(), BronzeError::NotCron);
}

fn build_err(
    b: SessionBuilder<MemoryStorage, ThreadTrigger, DefaultExecutor>,
) -> BronzeError {
    match b.build() {
        Err(e) => e,
        Ok(_) => panic!("the builder must refuse incomplete wiring"),
    }
}

#[test]
fn builder_reports_missing_parts_in_order() {
    let b: SessionBuilder<MemoryStorage, ThreadTrigger, DefaultExecutor> =
        SessionBuilder::local();
    assert_eq!(build_err(b), BronzeError::MissingStorage);

    let b: SessionBuilder<MemoryStorage, ThreadTrigger, DefaultExecutor> =
        SessionBuilder::local();
    let b = b.storage(MemoryStorage::new());
    assert_eq!(build_err(b), BronzeError::MissingTrigger);

    let b: SessionBuilder<MemoryStorage, ThreadTrigger, DefaultExecutor> =
        SessionBuilder::local();
    let b = b.storage(MemoryStorage::new()).trigger(ThreadTrigger::new());
    assert_eq!(build_err(b), BronzeError::MissingExecutor);
}

#[test]
fn local_builder_wires_a_session() {
    let mut s = SessionBuilder::local()
        .trigger(ThreadTrigger::new())
        .storage(MemoryStorage::new())
        .executor(DefaultExecutor::new())
        .build()
        .unwrap();
    let d = DAG::from_task(TaskInfo::sync(1));
    s.submit("1/10 * * * * *", d).unwrap();
}

#[test]
fn remote_builder_starts_empty() {
    let b: SessionBuilder<MemoryStorage, ThreadTrigger, DefaultExecutor> =
        SessionBuilder::remote();
    assert_eq!(build_err(b), BronzeError::MissingStorage);
}

#[test]
fn session_stop_is_idempotent() {
    let mut s: LocalSession<MemoryStorage, ThreadTrigger, DefaultExecutor> =
        SessionBuilder::default().build().unwrap();
    s.start(11);
    assert_eq!(s.stop(), Some(11));
    assert_eq!(s.stop(), None);
}

#[test]
fn session_cannot_be_wired_twice() {
    let mut s: LocalSession<MemoryStorage, ThreadTrigger, DefaultExecutor> =
        SessionBuilder::default().build().unwrap();
    assert_eq!(s.build_session().unwrap_err(), BronzeError::Unsupported);
}

#[test]
fn submit_rejects_cyclic_graphs() {
    let mut s = SessionBuilder::default().build().unwrap();
    let nodes = vec![
        TaskNode::new(TaskInfo::sync(0)),
        TaskNode::new(TaskInfo::sync(1)),
    ];
    let mut d = DAG::new(nodes, vec![0]);
    d.add_edge(0, 1);
    d.add_edge(1, 0);
    assert_eq!(
        s.submit("1/1 * * * * *", d).unwrap_err(),
        BronzeError::CycleDetected
    );
}
