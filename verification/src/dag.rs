//! The dependency graph of tasks.
//!
//! Nodes live in an arena addressed by stable indices; parent/child edges
//! are index lists kept mutually consistent. Traversals carry an explicit
//! depth budget (fuel): the caller is responsible for acyclicity, and a
//! traversal that runs out of fuel reports it instead of diverging.

use crate::runtime::{MetaShape, RunnableMetadata};
use crate::schedule_expr::{ExprShape, ScheduleExpr};
use crate::schedule_time::{
    clock_wf, spec_advance, ClockShape, ScheduleTime, ScheduleTimeHolder,
};
use crate::task::{TaskInfo, WrappedTask};
use crate::BronzeError;
use vstd::prelude::*;

verus! {

/// Index sequences as mathematical integers.
pub open spec fn idxs(s: Seq<usize>) -> Seq<int> {
    s.map_values(|u: usize| u as int)
}

/// An element-for-element copy of an index list.
pub(crate) fn copy_indices(v: &Vec<usize>) -> (r: Vec<usize>)
    ensures
        r@ == v@,
{
    let mut r: Vec<usize> = Vec::new();
    let mut i: usize = 0;
    while i < v.len()
        invariant
            i <= v.len(),
            r@ =~= v@.take(i as int),
        decreases v.len() - i,
    {
        r.push(v[i]);
        i = i + 1;
    }
    proof {
        assert(r@ =~= v@);
    }
    r
}

/// Membership in a sequence after a push: the pushed element, or an element
/// that was already there.
proof fn lemma_contains_push(s: Seq<int>, x: int, y: int)
    ensures
        s.push(x).contains(y) <==> (s.contains(y) || y == x),
{
    if s.contains(y) {
        let k = choose|k: int| 0 <= k < s.len() && s[k] == y;
        assert(s.push(x)[k] == y);
    }
    if y == x {
        assert(s.push(x)[s.len() as int] == y);
    }
    if s.push(x).contains(y) {
        let k = choose|k: int| 0 <= k < s.push(x).len() && s.push(x)[k] == y;
        if k < s.len() {
            assert(s[k] == y);
        }
    }
}

/// The mathematical state of one graph node.
#[verifier::ext_equal]
pub struct NodeShape {
    pub task: TaskInfo,
    pub meta: Option<MetaShape>,
    pub parents: Seq<int>,
    pub children: Seq<int>,
}

/// The mathematical state of a graph.
#[verifier::ext_equal]
pub struct DagShape {
    pub nodes: Seq<NodeShape>,
    pub roots: Seq<int>,
    pub schedule: Option<ExprShape>,
    pub meta: Option<MetaShape>,
}

/// All edge indices of `n` point into an arena of `len` nodes.
pub open spec fn node_edges_in(n: NodeShape, len: int) -> bool {
    &&& (forall|k: int| 0 <= k < n.parents.len() ==> 0 <= #[trigger] n.parents[k] < len)
    &&& (forall|k: int| 0 <= k < n.children.len() ==> 0 <= #[trigger] n.children[k] < len)
}

/// Every node's edges point into the arena.
pub open spec fn nodes_wf(nodes: Seq<NodeShape>) -> bool {
    forall|i: int| 0 <= i < nodes.len() ==> node_edges_in(#[trigger] nodes[i], nodes.len() as int)
}

/// Parent and child edges are mutually consistent: a node lists a child
/// exactly when the child lists it as a parent.
pub open spec fn edges_consistent(nodes: Seq<NodeShape>) -> bool {
    forall|i: int, j: int|
        0 <= i < nodes.len() && 0 <= j < nodes.len() ==> ((#[trigger] nodes[i].children.contains(
            j,
        )) <==> (#[trigger] nodes[j].parents.contains(i)))
}

/// A well-formed graph: root indices and edges point into the arena, and the
/// edges are bidirectionally consistent.
pub open spec fn dag_wf(d: DagShape) -> bool {
    &&& (forall|k: int| 0 <= k < d.roots.len() ==> 0 <= #[trigger] d.roots[k] < d.nodes.len())
    &&& nodes_wf(d.nodes)
    &&& edges_consistent(d.nodes)
}

/// The upward walk from node `i`: a node without parents produces itself; a
/// node with parents produces what its parents produce, left to right. Fuel
/// bounds the depth; `None` means the budget ran out.
pub open spec fn spec_up(nodes: Seq<NodeShape>, i: int, fuel: nat) -> Option<Seq<int>>
    decreases fuel, 0nat, 0nat,
{
    if nodes[i].parents.len() == 0 {
        Some(seq![i])
    } else if fuel == 0 {
        None
    } else {
        spec_up_list(nodes, nodes[i].parents, 0, (fuel - 1) as nat)
    }
}

/// The upward walk over the tail of an index list, starting at `pos`.
pub open spec fn spec_up_list(nodes: Seq<NodeShape>, l: Seq<int>, pos: int, fuel: nat) -> Option<
    Seq<int>,
>
    decreases fuel, l.len() - pos, 1nat,
{
    if pos < 0 || pos >= l.len() {
        Some(Seq::empty())
    } else {
        match spec_up(nodes, l[pos], fuel) {
            None => None,
            Some(a) => match spec_up_list(nodes, l, pos + 1, fuel) {
                None => None,
                Some(b) => Some(a + b),
            },
        }
    }
}

/// The downward walk from node `i` at depth `level`: the node itself, then
/// everything below its children, children left to right.
pub open spec fn spec_walk(nodes: Seq<NodeShape>, i: int, level: int, fuel: nat) -> Option<
    Seq<(int, int)>,
>
    decreases fuel, 0nat, 0nat,
{
    if fuel == 0 {
        None
    } else {
        match spec_walk_list(nodes, nodes[i].children, 0, level + 1, (fuel - 1) as nat) {
            None => None,
            Some(b) => Some(seq![(i, level)] + b),
        }
    }
}

/// The downward walk over the tail of an index list, starting at `pos`.
pub open spec fn spec_walk_list(
    nodes: Seq<NodeShape>,
    l: Seq<int>,
    pos: int,
    level: int,
    fuel: nat,
) -> Option<Seq<(int, int)>>
    decreases fuel, l.len() - pos, 1nat,
{
    if pos < 0 || pos >= l.len() {
        Some(Seq::empty())
    } else {
        match spec_walk(nodes, l[pos], level, fuel) {
            None => None,
            Some(a) => match spec_walk_list(nodes, l, pos + 1, level, fuel) {
                None => None,
                Some(b) => Some(a + b),
            },
        }
    }
}

/// The full walk of a graph: every root in order, each with its descendants.
pub open spec fn spec_dag_walk(d: DagShape, fuel: nat) -> Option<Seq<(int, int)>> {
    spec_walk_list(d.nodes, d.roots, 0, 0, fuel)
}

/// The graph's run order: the nodes of the full walk, without levels.
pub open spec fn spec_run_order(d: DagShape, fuel: nat) -> Option<Seq<int>> {
    match spec_dag_walk(d, fuel) {
        None => None,
        Some(w) => Some(w.map_values(|e: (int, int)| e.0)),
    }
}

/// `n` levels of indentation: two spaces per level.
pub open spec fn spaces(n: int) -> Seq<char> {
    Seq::new(
        if n <= 0 {
            0nat
        } else {
            (2 * n) as nat
        },
        |i: int| ' ',
    )
}

/// The label a node prints under: its metadata name, or nothing.
pub open spec fn node_label(nodes: Seq<NodeShape>, i: int) -> Seq<char> {
    match nodes[i].meta {
        Some(m) => match m.name {
            Some(nm) => nm,
            None => Seq::empty(),
        },
        None => Seq::empty(),
    }
}

/// The rendered walk: one line per visited node, indented by its depth.
pub open spec fn render_entries(nodes: Seq<NodeShape>, w: Seq<(int, int)>, pos: int) -> Seq<char>
    decreases w.len() - pos,
{
    if pos < 0 || pos >= w.len() {
        Seq::empty()
    } else {
        spaces(w[pos].1) + node_label(nodes, w[pos].0) + "\n"@ + render_entries(nodes, w, pos + 1)
    }
}

/// The printable tree of a graph: its full walk, rendered.
pub open spec fn spec_tree_string(d: DagShape, fuel: nat) -> Option<Seq<char>> {
    match spec_dag_walk(d, fuel) {
        Some(w) => Some(render_entries(d.nodes, w, 0)),
        None => None,
    }
}

/// The graph's clock, if `prepare` attached one.
pub open spec fn dag_clock(d: DagShape) -> Option<ClockShape> {
    match d.meta {
        Some(m) => m.schedule,
        None => None,
    }
}

/// The arena with identities assigned: node `k` (when it carries metadata)
/// gets id `start + k`.
pub open spec fn stamp_nodes(nodes: Seq<NodeShape>, start: int) -> Seq<NodeShape> {
    Seq::new(
        nodes.len(),
        |k: int|
            match nodes[k].meta {
                Some(m) => NodeShape {
                    meta: Some(MetaShape { id: Some((start + k) as u64), ..m }),
                    ..nodes[k]
                },
                None => nodes[k],
            },
    )
}

/// The graph after one tick: its clock advanced, everything else unchanged.
pub open spec fn spec_dag_advance(d: DagShape, now: int) -> (DagShape, bool) {
    match dag_clock(d) {
        None => (d, false),
        Some(c) => {
            let (c2, fired) = spec_advance(c, now);
            (
                DagShape { meta: Some(MetaShape { schedule: Some(c2), ..d.meta->0 }), ..d },
                fired,
            )
        },
    }
}

/// Every index in `l` points into an arena of `len` nodes.
pub open spec fn indices_in(l: Seq<int>, len: int) -> bool {
    forall|k: int| 0 <= k < l.len() ==> 0 <= #[trigger] l[k] < len
}

/// Pair sequences as mathematical integers.
pub open spec fn pairs(s: Seq<(usize, usize)>) -> Seq<(int, int)> {
    s.map_values(|p: (usize, usize)| (p.0 as int, p.1 as int))
}

/// Every node an upward walk produces is parentless and points into the
/// arena.
pub proof fn lemma_up_yields_roots(nodes: Seq<NodeShape>, i: int, fuel: nat)
    requires
        nodes_wf(nodes),
        0 <= i < nodes.len(),
    ensures
        spec_up(nodes, i, fuel) matches Some(v) ==> forall|k: int|
            0 <= k < v.len() ==> 0 <= #[trigger] v[k] < nodes.len() && nodes[v[k]].parents.len()
                == 0,
    decreases fuel, 0nat, 0nat,
{
    if nodes[i].parents.len() == 0 {
    } else if fuel == 0 {
    } else {
        lemma_up_list_yields_roots(nodes, nodes[i].parents, 0, (fuel - 1) as nat);
    }
}

/// The list form of `lemma_up_yields_roots`.
pub proof fn lemma_up_list_yields_roots(nodes: Seq<NodeShape>, l: Seq<int>, pos: int, fuel: nat)
    requires
        nodes_wf(nodes),
        indices_in(l, nodes.len() as int),
    ensures
        spec_up_list(nodes, l, pos, fuel) matches Some(v) ==> forall|k: int|
            0 <= k < v.len() ==> 0 <= #[trigger] v[k] < nodes.len() && nodes[v[k]].parents.len()
                == 0,
    decreases fuel, l.len() - pos, 1nat,
{
    if pos < 0 || pos >= l.len() {
    } else {
        lemma_up_yields_roots(nodes, l[pos], fuel);
        lemma_up_list_yields_roots(nodes, l, pos + 1, fuel);
    }
}

/// A downward walk only visits nodes of the arena.
pub proof fn lemma_walk_valid(nodes: Seq<NodeShape>, i: int, level: int, fuel: nat)
    requires
        nodes_wf(nodes),
        0 <= i < nodes.len(),
    ensures
        spec_walk(nodes, i, level, fuel) matches Some(w) ==> forall|k: int|
            0 <= k < w.len() ==> 0 <= (#[trigger] w[k]).0 < nodes.len(),
    decreases fuel, 0nat, 0nat,
{
    if fuel > 0 {
        lemma_walk_list_valid(nodes, nodes[i].children, 0, level + 1, (fuel - 1) as nat);
    }
}

/// The list form of `lemma_walk_valid`.
pub proof fn lemma_walk_list_valid(nodes: Seq<NodeShape>, l: Seq<int>, pos: int, level: int, fuel: nat)
    requires
        nodes_wf(nodes),
        indices_in(l, nodes.len() as int),
    ensures
        spec_walk_list(nodes, l, pos, level, fuel) matches Some(w) ==> forall|k: int|
            0 <= k < w.len() ==> 0 <= (#[trigger] w[k]).0 < nodes.len(),
    decreases fuel, l.len() - pos, 1nat,
{
    if pos < 0 || pos >= l.len() {
    } else {
        lemma_walk_valid(nodes, l[pos], level, fuel);
        lemma_walk_list_valid(nodes, l, pos + 1, level, fuel);
    }
}

/// A downward walk from a node visits at least that node, first.
pub proof fn lemma_walk_starts_at(nodes: Seq<NodeShape>, i: int, level: int, fuel: nat)
    ensures
        spec_walk(nodes, i, level, fuel) matches Some(w) ==> w.len() >= 1 && w[0] == (i, level),
{
}

/// A downward list walk visits at least one node per listed entry.
pub proof fn lemma_walk_list_len(nodes: Seq<NodeShape>, l: Seq<int>, pos: int, level: int, fuel: nat)
    requires
        0 <= pos,
    ensures
        spec_walk_list(nodes, l, pos, level, fuel) matches Some(w) ==> w.len() >= l.len() - pos,
    decreases fuel, l.len() - pos, 1nat,
{
    if pos < 0 || pos >= l.len() {
    } else {
        lemma_walk_starts_at(nodes, l[pos], level, fuel);
        lemma_walk_list_len(nodes, l, pos + 1, level, fuel);
    }
}

/// A graph whose full walk visits exactly one node has exactly one root, and
/// that root has no children.
pub proof fn lemma_single_node_walk(d: DagShape, fuel: nat)
    requires
        dag_wf(d),
        spec_dag_walk(d, fuel) matches Some(w) && w.len() == 1,
    ensures
        d.roots.len() == 1,
        d.nodes[d.roots[0]].children.len() == 0,
{
    let w = spec_dag_walk(d, fuel)->0;
    lemma_walk_list_len(d.nodes, d.roots, 0, 0, fuel);
    assert(d.roots.len() <= 1);
    if d.roots.len() == 0 {
        assert(w.len() == 0);
    }
    let r = d.roots[0];
    let inner = spec_walk(d.nodes, r, 0, fuel);
    assert(inner matches Some(iw) && w == iw + spec_walk_list(d.nodes, d.roots, 1, 0, fuel)->0);
    let cw = spec_walk_list(d.nodes, d.nodes[r].children, 0, 1, (fuel - 1) as nat);
    assert(cw is Some);
    lemma_walk_list_len(d.nodes, d.nodes[r].children, 0, 1, (fuel - 1) as nat);
    assert(inner->0.len() == 1 + cw->0.len());
}

/// The roots found above a node with exactly two parentless parents are
/// exactly those parents, in order; the node itself is not among them.
pub proof fn lemma_find_roots_two_parents(nodes: Seq<NodeShape>, a: int, b: int, c: int, fuel: nat)
    requires
        nodes_wf(nodes),
        0 <= a < nodes.len(),
        0 <= b < nodes.len(),
        0 <= c < nodes.len(),
        nodes[c].parents =~= seq![a, b],
        nodes[a].parents.len() == 0,
        nodes[b].parents.len() == 0,
        fuel >= 1,
    ensures
        spec_up(nodes, c, fuel) == Some(seq![a, b]),
{
    let f1 = (fuel - 1) as nat;
    assert(spec_up(nodes, a, f1) == Some(seq![a]));
    assert(spec_up(nodes, b, f1) == Some(seq![b]));
    assert(spec_up_list(nodes, nodes[c].parents, 2, f1) == Some(Seq::<int>::empty()));
    assert(spec_up_list(nodes, nodes[c].parents, 1, f1) == Some(seq![b] + Seq::<int>::empty()));
    assert(spec_up_list(nodes, nodes[c].parents, 0, f1) == Some(
        seq![a] + (seq![b] + Seq::<int>::empty()),
    ));
    assert(seq![a] + (seq![b] + Seq::<int>::empty()) =~= seq![a, b]);
}

/// On a linear three-node graph, the run order visits the root, then its
/// child, then the grandchild: dependency order is kept.
pub proof fn lemma_run_order_linear_three(d: DagShape, a: int, b: int, c: int, fuel: nat)
    requires
        dag_wf(d),
        0 <= a < d.nodes.len(),
        0 <= b < d.nodes.len(),
        0 <= c < d.nodes.len(),
        d.roots =~= seq![a],
        d.nodes[a].children =~= seq![b],
        d.nodes[b].children =~= seq![c],
        d.nodes[c].children.len() == 0,
        fuel >= 3,
    ensures
        spec_run_order(d, fuel) == Some(seq![a, b, c]),
{
    reveal_with_fuel(spec_walk, 5);
    reveal_with_fuel(spec_walk_list, 10);
    let f1 = (fuel - 1) as nat;
    let f2 = (fuel - 2) as nat;
    let f3 = (fuel - 3) as nat;
    assert(spec_walk_list(d.nodes, d.nodes[c].children, 0, 3, f3) == Some(
        Seq::<(int, int)>::empty(),
    ));
    assert(spec_walk(d.nodes, c, 2, f2) == Some(seq![(c, 2int)] + Seq::<(int, int)>::empty()));
    assert(spec_walk_list(d.nodes, d.nodes[b].children, 1, 2, f2) == Some(
        Seq::<(int, int)>::empty(),
    ));
    assert(spec_walk_list(d.nodes, d.nodes[b].children, 0, 2, f2) is Some);
    assert(spec_walk(d.nodes, b, 1, f1) is Some);
    assert(spec_walk_list(d.nodes, d.nodes[a].children, 1, 1, f1) == Some(
        Seq::<(int, int)>::empty(),
    ));
    assert(spec_walk_list(d.nodes, d.nodes[a].children, 0, 1, f1) is Some);
    assert(spec_walk(d.nodes, a, 0, fuel) is Some);
    assert(spec_walk_list(d.nodes, d.roots, 1, 0, fuel) == Some(Seq::<(int, int)>::empty()));
    assert(spec_dag_walk(d, fuel) is Some);
    let w = spec_dag_walk(d, fuel)->0;
    assert(w =~= seq![(a, 0int), (b, 1int), (c, 2int)]);
    assert(spec_run_order(d, fuel)->0 =~= seq![a, b, c]);
}

/// The upward walk, executed: the parentless ancestors above node `i`.
fn up_from(nodes: &Vec<TaskNode>, i: usize, fuel: usize) -> (r: Option<Vec<usize>>)
    requires
        nodes_wf(nodes_view(nodes@)),
        i < nodes@.len(),
    ensures
        ({
            let s = spec_up(nodes_view(nodes@), i as int, fuel as nat);
            match r {
                Some(v) => s == Some(idxs(v@)),
                None => s is None,
            }
        }),
    decreases fuel, 0int, 0int,
{
    if nodes[i].parents.len() == 0 {
        let mut v: Vec<usize> = Vec::new();
        v.push(i);
        proof {
            assert(idxs(v@) =~= seq![i as int]);
        }
        Some(v)
    } else if fuel == 0 {
        None
    } else {
        up_list(nodes, &nodes[i].parents, 0, fuel - 1)
    }
}

/// The upward walk over the tail of an index list, executed.
fn up_list(nodes: &Vec<TaskNode>, l: &Vec<usize>, pos: usize, fuel: usize) -> (r: Option<
    Vec<usize>,
>)
    requires
        nodes_wf(nodes_view(nodes@)),
        indices_in(idxs(l@), nodes@.len() as int),
        pos <= l@.len(),
    ensures
        ({
            let s = spec_up_list(nodes_view(nodes@), idxs(l@), pos as int, fuel as nat);
            match r {
                Some(v) => s == Some(idxs(v@)),
                None => s is None,
            }
        }),
    decreases fuel, l@.len() - pos, 1int,
{
    if pos >= l.len() {
        let v: Vec<usize> = Vec::new();
        proof {
            assert(idxs(v@) =~= Seq::<int>::empty());
        }
        Some(v)
    } else {
        let mut a = match up_from(nodes, l[pos], fuel) {
            Some(a) => a,
            None => {
                return None;
            },
        };
        let mut b = match up_list(nodes, l, pos + 1, fuel) {
            Some(b) => b,
            None => {
                return None;
            },
        };
        let ghost ga = a@;
        let ghost gb = b@;
        a.append(&mut b);
        proof {
            assert(idxs(ga + gb) =~= idxs(ga) + idxs(gb));
        }
        Some(a)
    }
}

/// The downward walk from node `i` at depth `level`, executed.
fn walk_from(nodes: &Vec<TaskNode>, i: usize, level: usize, fuel: usize) -> (r: Option<
    Vec<(usize, usize)>,
>)
    requires
        nodes_wf(nodes_view(nodes@)),
        i < nodes@.len(),
        level as int + fuel as int <= usize::MAX as int,
    ensures
        ({
            let s = spec_walk(nodes_view(nodes@), i as int, level as int, fuel as nat);
            match r {
                Some(v) => s == Some(pairs(v@)),
                None => s is None,
            }
        }),
    decreases fuel, 0int, 0int,
{
    if fuel == 0 {
        None
    } else {
        let b = match walk_list(nodes, &nodes[i].children, 0, level + 1, fuel - 1) {
            Some(b) => b,
            None => {
                return None;
            },
        };
        let ghost gb = b@;
        let mut v: Vec<(usize, usize)> = Vec::new();
        v.push((i, level));
        let mut b = b;
        v.append(&mut b);
        proof {
            assert(pairs(v@) =~= seq![(i as int, level as int)] + pairs(gb));
        }
        Some(v)
    }
}

/// The downward walk over the tail of an index list, executed.
fn walk_list(nodes: &Vec<TaskNode>, l: &Vec<usize>, pos: usize, level: usize, fuel: usize) -> (r:
    Option<Vec<(usize, usize)>>)
    requires
        nodes_wf(nodes_view(nodes@)),
        indices_in(idxs(l@), nodes@.len() as int),
        pos <= l@.len(),
        level as int + fuel as int <= usize::MAX as int,
    ensures
        ({
            let s = spec_walk_list(nodes_view(nodes@), idxs(l@), pos as int, level as int, fuel as nat);
            match r {
                Some(v) => s == Some(pairs(v@)),
                None => s is None,
            }
        }),
    decreases fuel, l@.len() - pos, 1int,
{
    if pos >= l.len() {
        let v: Vec<(usize, usize)> = Vec::new();
        proof {
            assert(pairs(v@) =~= Seq::<(int, int)>::empty());
        }
        Some(v)
    } else {
        let mut a = match walk_from(nodes, l[pos], level, fuel) {
            Some(a) => a,
            None => {
                return None;
            },
        };
        let mut b = match walk_list(nodes, l, pos + 1, level, fuel) {
            Some(b) => b,
            None => {
                return None;
            },
        };
        let ghost ga = a@;
        let ghost gb = b@;
        a.append(&mut b);
        proof {
            assert(pairs(ga + gb) =~= pairs(ga) + pairs(gb));
        }
        Some(a)
    }
}

/// Inserts a parent/child edge into an arena, updating both nodes so the
/// edges stay mutually consistent.
pub(crate) fn link_nodes(nodes: &mut Vec<TaskNode>, parent: usize, child: usize)
    requires
        nodes_wf(nodes_view(old(nodes)@)),
        edges_consistent(nodes_view(old(nodes)@)),
        parent < old(nodes)@.len(),
        child < old(nodes)@.len(),
    ensures
        nodes_wf(nodes_view(final(nodes)@)),
        edges_consistent(nodes_view(final(nodes)@)),
        final(nodes)@.len() == old(nodes)@.len(),
        nodes_view(final(nodes)@)[parent as int].children == nodes_view(old(nodes)@)[
            parent as int
        ].children.push(child as int),
        nodes_view(final(nodes)@)[child as int].parents == nodes_view(old(nodes)@)[
            child as int
        ].parents.push(parent as int),
        forall|i: int|
            0 <= i < old(nodes)@.len() && i != parent && i != child ==> nodes_view(
                final(nodes)@,
            )[i] == nodes_view(old(nodes)@)[i],
        parent != child ==> nodes_view(final(nodes)@)[parent as int].parents == nodes_view(
            old(nodes)@,
        )[parent as int].parents,
        parent != child ==> nodes_view(final(nodes)@)[child as int].children == nodes_view(
            old(nodes)@,
        )[child as int].children,
        nodes_view(final(nodes)@)[parent as int].task == nodes_view(old(nodes)@)[
            parent as int
        ].task,
        nodes_view(final(nodes)@)[parent as int].meta == nodes_view(old(nodes)@)[
            parent as int
        ].meta,
        nodes_view(final(nodes)@)[child as int].task == nodes_view(old(nodes)@)[child as int].task,
        nodes_view(final(nodes)@)[child as int].meta == nodes_view(old(nodes)@)[child as int].meta,
{
    let ghost pre = nodes_view(nodes@);
    let pnode = &mut nodes[parent];
    pnode.children.push(child);
    let cnode = &mut nodes[child];
    cnode.parents.push(parent);
    proof {
        let post = nodes_view(nodes@);
        assert(post.len() == pre.len());
        assert(post[parent as int].children =~= pre[parent as int].children.push(child as int));
        assert(post[child as int].parents =~= pre[child as int].parents.push(parent as int));
        assert forall|i: int|
            0 <= i < pre.len() && i != parent && i != child implies post[i] == pre[i] by {
            assert(post[i] =~= pre[i]);
        }
        assert forall|i: int| 0 <= i < post.len() implies node_edges_in(
            #[trigger] post[i],
            post.len() as int,
        ) by {
            assert(node_edges_in(pre[i], pre.len() as int));
        }
        if parent != child {
            assert(post[parent as int].parents =~= pre[parent as int].parents);
            assert(post[child as int].children =~= pre[child as int].children);
        }
        assert forall|i: int, j: int|
            0 <= i < post.len() && 0 <= j < post.len() implies ((#[trigger] post[
            i
        ].children.contains(j)) <==> (#[trigger] post[j].parents.contains(i))) by {
            assert(pre[i].children.contains(j) <==> pre[j].parents.contains(i));
            lemma_contains_push(pre[parent as int].children, child as int, j);
            lemma_contains_push(pre[child as int].parents, parent as int, i);
            if i != parent && i != child {
                assert(post[i] == pre[i]);
            }
            if j != parent && j != child {
                assert(post[j] == pre[j]);
            }
        }
    }
}

/// Appends a fresh, edge-free node to an arena; well-formedness is kept and
/// the new node's index is the old length.
pub(crate) fn append_node(nodes: &mut Vec<TaskNode>, node: TaskNode)
    requires
        nodes_wf(nodes_view(old(nodes)@)),
        edges_consistent(nodes_view(old(nodes)@)),
        node@.parents.len() == 0,
        node@.children.len() == 0,
    ensures
        nodes_wf(nodes_view(final(nodes)@)),
        edges_consistent(nodes_view(final(nodes)@)),
        nodes_view(final(nodes)@) == nodes_view(old(nodes)@).push(node@),
{
    let ghost pre = nodes_view(nodes@);
    nodes.push(node);
    proof {
        let post = nodes_view(nodes@);
        assert(post =~= pre.push(node@));
        let n = post.len() as int;
        assert forall|i: int| 0 <= i < n implies node_edges_in(#[trigger] post[i], n) by {
            if i < n - 1 {
                assert(node_edges_in(pre[i], pre.len() as int));
            }
        }
        assert forall|i: int, j: int|
            0 <= i < n && 0 <= j < n implies ((#[trigger] post[i].children.contains(j)) <==> (
        #[trigger] post[j].parents.contains(i))) by {
            if i < n - 1 && j < n - 1 {
                assert(pre[i].children.contains(j) <==> pre[j].parents.contains(i));
            }
            if i == n - 1 {
                assert(!post[i].children.contains(j));
                if j < n - 1 {
                    assert(node_edges_in(pre[j], pre.len() as int));
                    if post[j].parents.contains(i) {
                        let k = choose|k: int|
                            0 <= k < post[j].parents.len() && post[j].parents[k] == i;
                        assert(pre[j].parents[k] < n - 1);
                    }
                }
            }
            if j == n - 1 && i < n - 1 {
                assert(!post[j].parents.contains(i));
                assert(node_edges_in(pre[i], pre.len() as int));
                if post[i].children.contains(j) {
                    let k = choose|k: int|
                        0 <= k < post[i].children.len() && post[i].children[k] == j;
                    assert(pre[i].children[k] < n - 1);
                }
            }
        }
    }
}

/// A node with every edge index moved up by `s`.
pub open spec fn shift_node(n: NodeShape, s: int) -> NodeShape {
    NodeShape {
        parents: n.parents.map_values(|x: int| x + s),
        children: n.children.map_values(|x: int| x + s),
        ..n
    }
}

/// An arena with every edge index moved up by `s`.
pub open spec fn shift_nodes(nodes: Seq<NodeShape>, s: int) -> Seq<NodeShape> {
    nodes.map_values(|n: NodeShape| shift_node(n, s))
}

/// Membership under an index shift.
pub proof fn lemma_shift_contains(l: Seq<int>, s: int, y: int)
    ensures
        l.map_values(|x: int| x + s).contains(y) <==> l.contains(y - s),
{
    let m = l.map_values(|x: int| x + s);
    if m.contains(y) {
        let k = choose|k: int| 0 <= k < m.len() && m[k] == y;
        assert(l[k] == y - s);
    }
    if l.contains(y - s) {
        let k = choose|k: int| 0 <= k < l.len() && l[k] == y - s;
        assert(m[k] == y);
    }
}

/// A member of an in-range index list is in range.
pub proof fn lemma_contains_in_range(l: Seq<int>, len: int, y: int)
    requires
        forall|k: int| 0 <= k < l.len() ==> 0 <= #[trigger] l[k] < len,
        l.contains(y),
    ensures
        0 <= y < len,
{
    let k = choose|k: int| 0 <= k < l.len() && l[k] == y;
}

/// An element-for-element copy of an index list with every index moved up.
pub(crate) fn shift_indices(v: &Vec<usize>, s: usize) -> (r: Vec<usize>)
    requires
        forall|k: int| 0 <= k < v@.len() ==> (#[trigger] v@[k]) + s <= usize::MAX,
    ensures
        idxs(r@) == idxs(v@).map_values(|x: int| x + s as int),
{
    let mut r: Vec<usize> = Vec::new();
    let mut i: usize = 0;
    while i < v.len()
        invariant
            i <= v@.len(),
            forall|k: int| 0 <= k < v@.len() ==> (#[trigger] v@[k]) + s <= usize::MAX,
            r@.len() == i,
            forall|k: int| 0 <= k < i ==> (#[trigger] r@[k]) == v@[k] + s,
        decreases v@.len() - i,
    {
        r.push(v[i] + s);
        i = i + 1;
    }
    proof {
        assert(idxs(r@) =~= idxs(v@).map_values(|x: int| x + s as int));
    }
    r
}

/// One node of the task graph: a task descriptor, optional metadata, and the
/// parent and child edges as arena indices.
pub struct TaskNode {
    pub(crate) task: TaskInfo,
    pub(crate) meta: Option<RunnableMetadata>,
    pub(crate) parents: Vec<usize>,
    pub(crate) children: Vec<usize>,
}

impl View for TaskNode {
    type V = NodeShape;

    closed spec fn view(&self) -> NodeShape {
        NodeShape {
            task: self.task,
            meta: match self.meta {
                Some(ref m) => Some(m@),
                None => None,
            },
            parents: idxs(self.parents@),
            children: idxs(self.children@),
        }
    }
}

impl TaskNode {
    /// A fresh node for a task, with default metadata and no edges.
    pub fn new(task: TaskInfo) -> (r: TaskNode)
        ensures
            r@.task == task,
            r@.meta is Some,
            r@.meta->0.schedule is None,
            r@.meta->0.id is None,
            r@.parents.len() == 0,
            r@.children.len() == 0,
    {
        TaskNode { task, meta: Some(RunnableMetadata::default()), parents: Vec::new(), children: Vec::new() }
    }

    /// A fresh node for a task with the given metadata and no edges.
    pub fn with_meta(meta: RunnableMetadata, task: TaskInfo) -> (r: TaskNode)
        ensures
            r@.task == task,
            r@.meta == Some(meta@),
            r@.parents.len() == 0,
            r@.children.len() == 0,
    {
        TaskNode { task, meta: Some(meta), parents: Vec::new(), children: Vec::new() }
    }

    /// Renames the node, where it carries metadata.
    pub fn set_node_name(&mut self, name: String)
        ensures
            final(self)@ == match old(self)@.meta {
                Some(m) => NodeShape {
                    meta: Some(MetaShape { name: Some(name@), ..m }),
                    ..old(self)@
                },
                None => old(self)@,
            },
    {
        let ghost pre = self@;
        match &mut self.meta {
            Some(m) => m.set_name(name),
            None => {
            },
        }
        proof {
            assert(self@ =~= match pre.meta {
                Some(m) => NodeShape { meta: Some(MetaShape { name: Some(name@), ..m }), ..pre },
                None => pre,
            });
        }
    }

    /// A copy of this node with every edge index moved up by `s`.
    pub fn shifted(&self, s: usize) -> (r: TaskNode)
        requires
            forall|k: int|
                0 <= k < self@.parents.len() ==> (#[trigger] self@.parents[k]) + s
                    <= usize::MAX as int,
            forall|k: int|
                0 <= k < self@.children.len() ==> (#[trigger] self@.children[k]) + s
                    <= usize::MAX as int,
            forall|k: int| 0 <= k < self@.parents.len() ==> 0 <= #[trigger] self@.parents[k],
            forall|k: int| 0 <= k < self@.children.len() ==> 0 <= #[trigger] self@.children[k],
        ensures
            r@ == shift_node(self@, s as int),
    {
        proof {
            assert forall|k: int|
                0 <= k < self.parents@.len() implies (#[trigger] self.parents@[k]) + s
                <= usize::MAX by {
                assert(self@.parents[k] == self.parents@[k] as int);
            }
            assert forall|k: int|
                0 <= k < self.children@.len() implies (#[trigger] self.children@[k]) + s
                <= usize::MAX by {
                assert(self@.children[k] == self.children@[k] as int);
            }
        }
        let r = TaskNode {
            task: self.task,
            meta: match &self.meta {
                Some(m) => Some(m.duplicate()),
                None => None,
            },
            parents: shift_indices(&self.parents, s),
            children: shift_indices(&self.children, s),
        };
        proof {
            assert(r@ =~= shift_node(self@, s as int));
        }
        r
    }

    /// The node's task descriptor.
    pub fn task(&self) -> (r: TaskInfo)
        ensures
            r == self@.task,
    {
        self.task
    }

    /// An independent copy with the same state.
    pub fn duplicate(&self) -> (r: TaskNode)
        ensures
            r@ == self@,
    {
        let r = TaskNode {
            task: self.task,
            meta: match &self.meta {
                Some(m) => Some(m.duplicate()),
                None => None,
            },
            parents: copy_indices(&self.parents),
            children: copy_indices(&self.children),
        };
        proof {
            assert(r@ =~= self@);
        }
        r
    }
}

/// A dependency graph: an arena of nodes, the indices of its root nodes, an
/// optional schedule expression, and optional shared metadata.
pub struct DAG {
    nodes: Vec<TaskNode>,
    roots: Vec<usize>,
    schedule: Option<ScheduleExpr>,
    meta: Option<RunnableMetadata>,
}

/// The arena as a sequence of node shapes.
pub open spec fn nodes_view(nodes: Seq<TaskNode>) -> Seq<NodeShape> {
    nodes.map_values(|n: TaskNode| n@)
}

impl View for DAG {
    type V = DagShape;

    closed spec fn view(&self) -> DagShape {
        DagShape {
            nodes: nodes_view(self.nodes@),
            roots: idxs(self.roots@),
            schedule: match self.schedule {
                Some(ref s) => Some(s@),
                None => None,
            },
            meta: match self.meta {
                Some(ref m) => Some(m@),
                None => None,
            },
        }
    }
}

impl DAG {
    /// A graph over the given arena with the given root indices.
    pub fn new(nodes: Vec<TaskNode>, roots: Vec<usize>) -> (r: DAG)
        ensures
            r@.nodes == nodes_view(nodes@),
            r@.roots == idxs(roots@),
            r@.schedule is None,
            r@.meta is None,
    {
        DAG { nodes, roots, schedule: None, meta: None }
    }

    /// A graph holding a single task.
    pub fn from_task(task: TaskInfo) -> (r: DAG)
        ensures
            dag_wf(r@),
            r@.nodes.len() == 1,
            r@.nodes[0].task == task,
            r@.nodes[0].parents.len() == 0,
            r@.nodes[0].children.len() == 0,
            r@.roots =~= seq![0int],
            r@.schedule is None,
            r@.meta is None,
    {
        let mut nodes: Vec<TaskNode> = Vec::new();
        nodes.push(TaskNode::new(task));
        let mut roots: Vec<usize> = Vec::new();
        roots.push(0);
        let r = DAG { nodes, roots, schedule: None, meta: None };
        proof {
            assert(r@.roots =~= seq![0int]);
            assert forall|i: int| 0 <= i < r@.nodes.len() implies node_edges_in(
                #[trigger] r@.nodes[i],
                r@.nodes.len() as int,
            ) by {}
        }
        r
    }

    /// Sets the schedule expression the graph will be prepared with.
    pub fn set_schedule(&mut self, schedule: ScheduleExpr)
        ensures
            final(self)@ == (DagShape { schedule: Some(schedule@), ..old(self)@ }),
    {
        self.schedule = Some(schedule);
    }

    /// The graph's shared metadata, if `prepare` attached it.
    pub fn meta_ref(&self) -> (r: Option<&RunnableMetadata>)
        ensures
            match r {
                Some(m) => self@.meta == Some(m@),
                None => self@.meta is None,
            },
    {
        match &self.meta {
            Some(m) => Some(m),
            None => None,
        }
    }

    /// The number of nodes in the arena.
    pub fn node_count(&self) -> (r: usize)
        ensures
            r == self@.nodes.len(),
    {
        self.nodes.len()
    }

    /// The root indices.
    pub fn roots(&self) -> (r: Vec<usize>)
        ensures
            idxs(r@) == self@.roots,
    {
        copy_indices(&self.roots)
    }

    /// The task descriptor of one node.
    pub fn task_of(&self, i: usize) -> (r: TaskInfo)
        requires
            i < self@.nodes.len(),
        ensures
            r == self@.nodes[i as int].task,
    {
        self.nodes[i].task
    }

    /// Inserts a parent/child edge, updating both nodes so the edges stay
    /// mutually consistent. No cycle detection is performed: keeping the
    /// graph acyclic is the caller's responsibility.
    pub fn add_edge(&mut self, parent: usize, child: usize)
        requires
            dag_wf(old(self)@),
            parent < old(self)@.nodes.len(),
            child < old(self)@.nodes.len(),
        ensures
            dag_wf(final(self)@),
            final(self)@.nodes.len() == old(self)@.nodes.len(),
            final(self)@.roots == old(self)@.roots,
            final(self)@.schedule == old(self)@.schedule,
            final(self)@.meta == old(self)@.meta,
            final(self)@.nodes[parent as int].children == old(self)@.nodes[
                parent as int
            ].children.push(child as int),
            final(self)@.nodes[child as int].parents == old(self)@.nodes[
                child as int
            ].parents.push(parent as int),
            forall|i: int|
                0 <= i < old(self)@.nodes.len() && i != parent && i != child
                    ==> final(self)@.nodes[i] == old(self)@.nodes[i],
            parent != child ==> final(self)@.nodes[parent as int].parents == old(self)@.nodes[
                parent as int
            ].parents,
            parent != child ==> final(self)@.nodes[child as int].children == old(self)@.nodes[
                child as int
            ].children,
    {
        link_nodes(&mut self.nodes, parent, child);
        proof {
            assert(self@.roots =~= old(self)@.roots);
        }
    }

    /// Advances the graph's shared clock by one tick at time `now`; reports
    /// whether the graph fired.
    pub fn advance_clock(&mut self, now: &ScheduleTime) -> (r: bool)
        requires
            match dag_clock(old(self)@) {
                Some(c) => clock_wf(c),
                None => true,
            },
        ensures
            final(self)@ == spec_dag_advance(old(self)@, now@).0,
            r == spec_dag_advance(old(self)@, now@).1,
            match dag_clock(final(self)@) {
                Some(c) => clock_wf(c),
                None => true,
            },
    {
        let r = match &mut self.meta {
            Some(m) => match &mut m.schedule {
                Some(c) => c.cmp_and_to_next(now),
                None => false,
            },
            None => false,
        };
        proof {
            assert(self@ =~= spec_dag_advance(old(self)@, now@).0);
        }
        r
    }

    /// Walks upward from every start node through parent edges; a node with
    /// no parents is a root. `fuel` bounds the walk's depth: the arena's node
    /// count suffices for any acyclic graph.
    pub fn handle_top_node(nodes: &Vec<TaskNode>, starts: &Vec<usize>, fuel: usize) -> (r: Option<
        Vec<usize>,
    >)
        requires
            nodes_wf(nodes_view(nodes@)),
            indices_in(idxs(starts@), nodes@.len() as int),
        ensures
            ({
                let s = spec_up_list(nodes_view(nodes@), idxs(starts@), 0, fuel as nat);
                match r {
                    Some(v) => s == Some(idxs(v@)),
                    None => s is None,
                }
            }),
    {
        up_list(nodes, starts, 0, fuel)
    }

    /// A one-level visit: the node itself, then its parents or its children,
    /// in edge order. Used for simple neighbor walks.
    pub fn handle(&self, parent: bool, node: usize) -> (r: Vec<usize>)
        requires
            dag_wf(self@),
            node < self@.nodes.len(),
        ensures
            idxs(r@) == seq![node as int] + (if parent {
                self@.nodes[node as int].parents
            } else {
                self@.nodes[node as int].children
            }),
    {
        let mut r: Vec<usize> = Vec::new();
        r.push(node);
        let l = if parent {
            &self.nodes[node].parents
        } else {
            &self.nodes[node].children
        };
        let ghost lv = if parent {
            self@.nodes[node as int].parents
        } else {
            self@.nodes[node as int].children
        };
        let mut k: usize = 0;
        while k < l.len()
            invariant
                k <= l@.len(),
                idxs(l@) == lv,
                r@.len() == k + 1,
                r@[0] == node,
                forall|j: int| 0 <= j < k ==> r@[j + 1] as int == lv[j],
            decreases l@.len() - k,
        {
            r.push(l[k]);
            k = k + 1;
        }
        proof {
            assert(idxs(r@) =~= seq![node as int] + lv);
        }
        r
    }

    /// The full walk of the graph with depth counters: every root in order,
    /// each followed by its transitively reachable children.
    pub fn handle_with_level(&self, fuel: usize) -> (r: Option<Vec<(usize, usize)>>)
        requires
            dag_wf(self@),
            fuel <= usize::MAX,
        ensures
            ({
                let s = spec_dag_walk(self@, fuel as nat);
                match r {
                    Some(v) => s == Some(pairs(v@)),
                    None => s is None,
                }
            }),
    {
        walk_list(&self.nodes, &self.roots, 0, 0, fuel)
    }

    /// The order in which the graph's nodes are handed to execution: the full
    /// walk without the depth counters.
    pub fn run_order(&self, fuel: usize) -> (r: Option<Vec<usize>>)
        requires
            dag_wf(self@),
            fuel <= usize::MAX,
        ensures
            ({
                let s = spec_run_order(self@, fuel as nat);
                match r {
                    Some(v) => s == Some(idxs(v@)),
                    None => s is None,
                }
            }),
    {
        let w = match self.handle_with_level(fuel) {
            Some(w) => w,
            None => {
                return None;
            },
        };
        let mut out: Vec<usize> = Vec::new();
        let mut j: usize = 0;
        while j < w.len()
            invariant
                j <= w.len(),
                out@.len() == j,
                forall|k: int| 0 <= k < j ==> (#[trigger] out@[k]) == w@[k].0,
            decreases w.len() - j,
        {
            out.push(w[j].0);
            j = j + 1;
        }
        proof {
            assert(idxs(out@) =~= pairs(w@).map_values(|e: (int, int)| e.0));
        }
        Some(out)
    }

    /// The number of nodes the full walk visits.
    pub fn cal_task_nums(&self, fuel: usize) -> (r: Option<usize>)
        requires
            dag_wf(self@),
            fuel <= usize::MAX,
        ensures
            ({
                let s = spec_dag_walk(self@, fuel as nat);
                match r {
                    Some(n) => s matches Some(w) && n == w.len(),
                    None => s is None,
                }
            }),
    {
        match self.handle_with_level(fuel) {
            Some(w) => Some(w.len()),
            None => None,
        }
    }

    /// Collapses a one-node graph into a bare task that keeps the node's
    /// descriptor and the graph's metadata. Fails with `EmptyDag` when there
    /// is no root, and with `SharedTask` when other nodes still reference the
    /// sole root (or there is more than one root).
    pub fn to_single_task(self) -> (r: Result<WrappedTask, BronzeError>)
        requires
            dag_wf(self@),
        ensures
            r is Ok <==> self@.roots.len() == 1 && self@.nodes[self@.roots[0]].parents.len() == 0
                && self@.nodes[self@.roots[0]].children.len() == 0,
            r is Ok ==> (r->Ok_0)@.task == self@.nodes[self@.roots[0]].task && (r->Ok_0)@.meta
                == self@.meta,
            self@.roots.len() == 0 ==> r is Err && r->Err_0 == BronzeError::EmptyDag,
            r is Err && self@.roots.len() != 0 ==> r->Err_0 == BronzeError::SharedTask,
    {
        if self.roots.len() == 0 {
            return Err(BronzeError::EmptyDag);
        }
        if self.roots.len() > 1 {
            return Err(BronzeError::SharedTask);
        }
        let root = self.roots[0];
        if self.nodes[root].parents.len() > 0 || self.nodes[root].children.len() > 0 {
            return Err(BronzeError::SharedTask);
        }
        let task = self.nodes[root].task;
        Ok(WrappedTask::new(task, self.meta))
    }

    /// Builds the graph's shared clock from its schedule expression and
    /// initializes it. The expression must have been set; a preset or an
    /// exhausted rule is reported as an error and leaves the graph unchanged.
    pub fn prepare(&mut self) -> (r: Result<(), BronzeError>)
        requires
            old(self)@.schedule is Some,
            dag_wf(old(self)@),
        ensures
            dag_wf(final(self)@),
            final(self)@.nodes == old(self)@.nodes,
            final(self)@.roots == old(self)@.roots,
            r is Ok ==> final(self)@.schedule is None && (final(self)@.meta matches Some(m)
                && m.id is None && m.name is None && m.maximum_run_times is None
                && m.maximum_parallelism is None && (m.schedule matches Some(c) && clock_wf(c)
                && c.expr == old(self)@.schedule->0 && c.next_run is Some && c.min_interval is Some
                && c.last_run is None)),
            r is Err ==> *final(self) == *old(self)
                && (r->Err_0 == BronzeError::NotCron <==> !(old(self)@.schedule->0 is Cron))
                && (r->Err_0 == BronzeError::ScheduleExhausted <==> old(
                self,
            )@.schedule->0 is Cron),
            !(old(self)@.schedule->0 is Cron) ==> r is Err,
    {
        let expr = match &self.schedule {
            Some(e) => e.duplicate(),
            None => {
                proof {
                    assert(false);
                }
                return Err(BronzeError::MissingSchedule);
            },
        };
        let mut holder = ScheduleTimeHolder::new(expr);
        match holder.init() {
            Ok(_) => {
                let mut meta = RunnableMetadata::default();
                meta.set_schedule(holder);
                self.meta = Some(meta);
                self.schedule = None;
                proof {
                    assert(self@.nodes =~= old(self)@.nodes);
                    assert(self@.roots =~= old(self)@.roots);
                }
                Ok(())
            },
            Err(e) => Err(e),
        }
    }

    /// The assigned identity of one node, if it carries metadata with an id.
    pub fn node_id(&self, i: usize) -> (r: Option<u64>)
        requires
            i < self@.nodes.len(),
        ensures
            r == match self@.nodes[i as int].meta {
                Some(m) => m.id,
                None => None::<u64>,
            },
    {
        match &self.nodes[i].meta {
            Some(m) => m.id,
            None => None,
        }
    }

    /// The metadata name of one node, if it has one.
    pub fn node_name(&self, i: usize) -> (r: Option<String>)
        requires
            i < self@.nodes.len(),
        ensures
            match r {
                Some(n) => node_label(self@.nodes, i as int) == n@ && (match self@.nodes[
                    i as int
                ].meta {
                    Some(m) => m.name == Some(n@),
                    None => false,
                }),
                None => node_label(self@.nodes, i as int) == Seq::<char>::empty(),
            },
    {
        match &self.nodes[i].meta {
            Some(m) => match &m.name {
                Some(n) => Some(n.clone()),
                None => None,
            },
            None => None,
        }
    }

    /// The tree rendering of the graph: one line per visited node of the
    /// full walk, each indented two spaces per depth level and labeled with
    /// the node's name. `None` when the walk runs out of depth budget.
    pub fn tree_string(&self) -> (r: Option<String>)
        requires
            dag_wf(self@),
        ensures
            ({
                let s = spec_tree_string(self@, crate::trigger::dag_fuel(self@));
                match r {
                    Some(out) => s == Some(out@),
                    None => s is None,
                }
            }),
    {
        let n = self.node_count();
        let fuel: usize = if n < usize::MAX {
            n + 1
        } else {
            n
        };
        let w = match self.handle_with_level(fuel) {
            Some(w) => w,
            None => {
                return None;
            },
        };
        proof {
            lemma_walk_list_valid(self@.nodes, self@.roots, 0, 0, fuel as nat);
        }
        let ghost gw = pairs(w@);
        let mut out = String::new();
        let mut pos: usize = 0;
        proof {
            reveal_strlit("\n");
            reveal_strlit("  ");
        }
        while pos < w.len()
            invariant
                pos <= w@.len(),
                gw == pairs(w@),
                dag_wf(self@),
                spec_dag_walk(self@, fuel as nat) == Some(gw),
                forall|k: int| 0 <= k < gw.len() ==> 0 <= (#[trigger] gw[k]).0 < self@.nodes.len(),
                render_entries(self@.nodes, gw, 0) == out@ + render_entries(
                    self@.nodes,
                    gw,
                    pos as int,
                ),
                "\n"@.len() == 1,
                "  "@ == seq![' ', ' '],
            decreases w@.len() - pos,
        {
            let (node, level) = w[pos];
            let ghost pre_line = out@;
            let mut j: usize = 0;
            while j < level
                invariant
                    j <= level,
                    out@ == pre_line + spaces(j as int),
                    "  "@ == seq![' ', ' '],
                decreases level - j,
            {
                out.append("  ");
                proof {
                    assert(out@ =~= pre_line + spaces(j + 1 as int));
                }
                j = j + 1;
            }
            proof {
                assert(out@ == pre_line + spaces(level as int));
            }
            match self.node_name(node) {
                Some(name) => out.append(name.as_str()),
                None => {
                },
            }
            out.append("\n");
            proof {
                assert(out@ =~= pre_line + (spaces(gw[pos as int].1) + node_label(
                    self@.nodes,
                    gw[pos as int].0,
                ) + "\n"@));
                assert(render_entries(self@.nodes, gw, pos as int) == spaces(gw[pos as int].1)
                    + node_label(self@.nodes, gw[pos as int].0) + "\n"@ + render_entries(
                    self@.nodes,
                    gw,
                    pos + 1 as int,
                ));
                assert(pre_line + (spaces(gw[pos as int].1) + node_label(self@.nodes, gw[pos as int].0)
                    + "\n"@) + render_entries(self@.nodes, gw, pos + 1 as int) =~= pre_line
                    + render_entries(self@.nodes, gw, pos as int));
            }
            pos = pos + 1;
        }
        proof {
            assert(render_entries(self@.nodes, gw, pos as int) == Seq::<char>::empty());
            assert(out@ + Seq::<char>::empty() =~= out@);
        }
        Some(out)
    }

    /// Attaches shared metadata directly, as `prepare` would; callers use
    /// this to install a clock initialized at a time of their choosing.
    pub fn set_meta(&mut self, meta: RunnableMetadata)
        ensures
            final(self)@ == (DagShape { meta: Some(meta@), ..old(self)@ }),
    {
        self.meta = Some(meta);
    }

    /// Sets the id in the graph's shared metadata, where it has any.
    pub fn set_meta_id(&mut self, id: u64)
        ensures
            old(self)@.meta is Some ==> final(self)@ == (DagShape {
                meta: Some(MetaShape { id: Some(id), ..old(self)@.meta->0 }),
                ..old(self)@
            }),
            old(self)@.meta is None ==> *final(self) == *old(self),
    {
        match &mut self.meta {
            Some(m) => m.set_id(id),
            None => {
            },
        }
    }

    /// Assigns identities to every node that carries metadata: node `k` gets
    /// id `start + k`. Yields the next free id.
    pub fn assign_task_ids(&mut self, start: u64) -> (r: u64)
        requires
            start + old(self)@.nodes.len() <= u64::MAX,
        ensures
            r == start + old(self)@.nodes.len(),
            final(self)@ == (DagShape {
                nodes: stamp_nodes(old(self)@.nodes, start as int),
                ..old(self)@
            }),
    {
        let mut i: usize = 0;
        while i < self.nodes.len()
            invariant
                i <= self.nodes@.len(),
                self.nodes@.len() == old(self)@.nodes.len(),
                start + self.nodes@.len() <= u64::MAX,
                self.roots@ == old(self).roots@,
                self@.schedule == old(self)@.schedule,
                self@.meta == old(self)@.meta,
                forall|k: int|
                    0 <= k < i ==> (#[trigger] self@.nodes[k]) == stamp_nodes(
                        old(self)@.nodes,
                        start as int,
                    )[k],
                forall|k: int|
                    i <= k < self.nodes@.len() ==> (#[trigger] self@.nodes[k]) == old(
                        self,
                    )@.nodes[k],
            decreases self.nodes@.len() - i,
        {
            let ghost prenodes = self@.nodes;
            let node = &mut self.nodes[i];
            match &mut node.meta {
                Some(m) => m.set_id(start + (i as u64)),
                None => {
                },
            }
            proof {
                assert forall|k: int| 0 <= k < self.nodes@.len() && k != i implies (
                #[trigger] self@.nodes[k]) =~= prenodes[k] by {
                    assert(self.nodes@[k]@ == prenodes[k]);
                }
                assert(self@.nodes[i as int] == self.nodes@[i as int]@);
                assert(prenodes[i as int] == old(self)@.nodes[i as int]);
                assert(self@.nodes[i as int] =~= stamp_nodes(old(self)@.nodes, start as int)[
                    i as int
                ]);
            }
            i = i + 1;
        }
        proof {
            assert(self@.nodes =~= stamp_nodes(old(self)@.nodes, start as int));
            assert(self@ =~= (DagShape {
                nodes: stamp_nodes(old(self)@.nodes, start as int),
                ..old(self)@
            }));
        }
        start + (self.nodes.len() as u64)
    }

    /// An independent copy with the same state.
    pub fn duplicate(&self) -> (r: DAG)
        ensures
            r@ == self@,
    {
        let mut nodes: Vec<TaskNode> = Vec::new();
        let mut i: usize = 0;
        while i < self.nodes.len()
            invariant
                i <= self.nodes.len(),
                nodes@.len() == i,
                forall|k: int| 0 <= k < i ==> (#[trigger] nodes@[k])@ == self.nodes@[k]@,
            decreases self.nodes.len() - i,
        {
            nodes.push(self.nodes[i].duplicate());
            i = i + 1;
        }
        let r = DAG {
            nodes,
            roots: copy_indices(&self.roots),
            schedule: match &self.schedule {
                Some(s) => Some(s.duplicate()),
                None => None,
            },
            meta: match &self.meta {
                Some(m) => Some(m.duplicate()),
                None => None,
            },
        };
        proof {
            assert(nodes_view(r.nodes@) =~= nodes_view(self.nodes@));
            assert(r@ =~= self@);
        }
        r
    }
}

} // verus!
