use bronzeflow::builder::DAGBuilder;
use bronzeflow::dag::{TaskNode, DAG};
use bronzeflow::runtime::RunnableMetadata;
use bronzeflow::schedule_expr::ScheduleExpr;
use bronzeflow::task::TaskInfo;
use bronzeflow::BronzeError;

fn linear_three() -> DAG {
    // A -> B -> C
    let nodes = vec![
        TaskNode::new(TaskInfo::sync(0)),
        TaskNode::new(TaskInfo::sync(1)),
        TaskNode::new(TaskInfo::sync(2)),
    ];
    let mut d = DAG::new(nodes, vec![0]);
    d.add_edge(0, 1);
    d.add_edge(1, 2);
    d
}

#[test]
fn find_roots_two_parents() {
    // Node C has two parents A and B; the roots found above C are exactly
    // {A, B}, never C itself.
    let d = DAGBuilder::new()
        .task(RunnableMetadata::named("C"), TaskInfo::sync(12))
        .parent_task(RunnableMetadata::named("A"), TaskInfo::sync(10))
        .parent_task(RunnableMetadata::named("B"), TaskInfo::sync(11))
        .build()
        .unwrap();
    // C is node 0, A is node 1, B is node 2.
    assert_eq!(d.roots(), vec![1, 2]);
}

#[test]
fn run_order_keeps_dependency_order() {
    // On a single fire of a linear three-node graph, all three nodes are
    // visited, parents before children.
    let d = linear_three();
    let order = d.run_order(4).unwrap();
    assert_eq!(order, vec![0, 1, 2]);
    assert_eq!(d.cal_task_nums(4), Some(3));
}

#[test]
fn collapse_single_node_keeps_identity() {
    let d = DAG::from_task(TaskInfo::sync(77));
    let t = d.to_single_task().unwrap();
    assert_eq!(t.task, TaskInfo::sync(77));
}

#[test]
fn collapse_never_silently_drops_nodes() {
    let d = linear_three();
    assert_eq!(d.to_single_task().unwrap_err(), BronzeError::SharedTask);
}

#[test]
fn collapse_of_empty_graph_fails() {
    let d = DAG::new(Vec::new(), Vec::new());
    assert_eq!(d.to_single_task().unwrap_err(), BronzeError::EmptyDag);
}

#[test]
fn prepare_attaches_clock() {
    let mut d = DAG::from_task(TaskInfo::sync(1));
    d.set_schedule(ScheduleExpr::parse("@daily").unwrap());
    d.prepare().unwrap();
    assert!(d.meta_ref().is_some());
    let m = d.meta_ref().unwrap();
    assert!(m.schedule.is_some());
}

#[test]
fn prepare_rejects_presets() {
    let mut d = DAG::from_task(TaskInfo::sync(1));
    d.set_schedule(ScheduleExpr::parse("@once").unwrap());
    assert_eq!(d.prepare().unwrap_err(), BronzeError::NotCron);
}

#[test]
fn builder_builds_single_task() {
    let d = DAGBuilder::new()
        .task(RunnableMetadata::named("T1"), TaskInfo::sync(1))
        .build()
        .unwrap();
    assert_eq!(d.node_count(), 1);
    assert_eq!(d.roots(), vec![0]);
}

#[test]
fn builder_parent_becomes_root() {
    // C with a parent D: the graph's root is D, and the walk starts there.
    let d = DAGBuilder::new()
        .task(RunnableMetadata::named("Task C"), TaskInfo::sync(0))
        .parent_task(RunnableMetadata::named("Task D"), TaskInfo::sync(1))
        .build()
        .unwrap();
    assert_eq!(d.node_count(), 2);
    assert_eq!(d.roots(), vec![1]);
    assert_eq!(d.run_order(3).unwrap(), vec![1, 0]);
}

#[test]
fn builder_child_stays_below() {
    let d = DAGBuilder::new()
        .task(RunnableMetadata::named("P1A"), TaskInfo::sync(0))
        .child_task(RunnableMetadata::named("P1A1"), TaskInfo::sync(1))
        .build()
        .unwrap();
    assert_eq!(d.roots(), vec![0]);
    assert_eq!(d.run_order(3).unwrap(), vec![0, 1]);
}

#[test]
fn tree_string_renders_names_with_depth() {
    let d = DAGBuilder::new()
        .task(RunnableMetadata::named("root"), TaskInfo::sync(0))
        .child_task(RunnableMetadata::named("leaf"), TaskInfo::sync(1))
        .build()
        .unwrap();
    let s = d.tree_string().unwrap();
    assert_eq!(s, "root\n  leaf\n");
}

#[test]
fn set_name_renames_current_node() {
    let d = DAGBuilder::new()
        .task(RunnableMetadata::named("first"), TaskInfo::sync(0))
        .set_name("Task first")
        .build()
        .unwrap();
    assert_eq!(d.node_name(0), Some(String::from("Task first")));
}

#[test]
fn assign_ids_stamps_every_node() {
    let mut d = linear_three();
    let next = d.assign_task_ids(5);
    assert_eq!(next, 8);
    assert_eq!(d.node_id(0), Some(5));
    assert_eq!(d.node_id(1), Some(6));
    assert_eq!(d.node_id(2), Some(7));
}

#[test]
fn one_level_visit_lists_node_then_neighbors() {
    let d = linear_three();
    assert_eq!(d.handle(false, 0), vec![0, 1]);
    assert_eq!(d.handle(true, 1), vec![1, 0]);
    assert_eq!(d.handle(false, 2), vec![2]);
}

#[test]
fn builder_merge_combines_roots() {
    let left = DAGBuilder::new().task(RunnableMetadata::named("hello"), TaskInfo::sync(0));
    let right = DAGBuilder::new().task(RunnableMetadata::named("name"), TaskInfo::sync(1));
    let d = left.merge(right).build().unwrap();
    assert_eq!(d.node_count(), 2);
    let mut roots = d.roots();
    roots.sort();
    assert_eq!(roots, vec![0, 1]);
}

#[test]
fn builder_merge_takes_current_node() {
    let left = DAGBuilder::new();
    let right = DAGBuilder::new()
        .task(RunnableMetadata::named("fn tas"), TaskInfo::sync(2))
        .child_task(RunnableMetadata::named("Task A"), TaskInfo::sync(3));
    let d = left.merge(right).build().unwrap();
    assert_eq!(d.node_count(), 2);
    assert_eq!(d.roots(), vec![0]);
    assert_eq!(d.run_order(3).unwrap(), vec![0, 1]);
}
