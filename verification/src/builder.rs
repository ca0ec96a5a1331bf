//! A step-by-step builder for task graphs.
//!
//! The builder accumulates nodes in one arena: `task` starts a new current
//! node, `parent_task` and `child_task` grow edges around it, and `build`
//! finds the true root set by walking upward from everything accumulated.

use crate::dag::{
    append_node, dag_wf, edges_consistent, idxs, lemma_contains_in_range, lemma_shift_contains,
    link_nodes, nodes_view, nodes_wf, shift_node, shift_nodes, spec_up_list, NodeShape, TaskNode,
    DAG,
};
use crate::runtime::RunnableMetadata;
use crate::task::TaskInfo;
use crate::BronzeError;
use vstd::prelude::*;

verus! {

/// The mathematical state of a graph under construction.
pub struct BuilderShape {
    pub nodes: Seq<NodeShape>,
    pub curr: Option<int>,
    pub roots: Seq<int>,
}

/// Builds a task graph node by node.
pub struct DAGBuilder {
    nodes: Vec<TaskNode>,
    curr: Option<usize>,
    roots: Vec<usize>,
}

impl View for DAGBuilder {
    type V = BuilderShape;

    closed spec fn view(&self) -> BuilderShape {
        BuilderShape {
            nodes: nodes_view(self.nodes@),
            curr: match self.curr {
                Some(c) => Some(c as int),
                None => None,
            },
            roots: idxs(self.roots@),
        }
    }
}

/// A builder in good standing: its arena is well-formed and its bookkeeping
/// indices point into the arena.
pub open spec fn builder_wf(b: BuilderShape) -> bool {
    &&& nodes_wf(b.nodes)
    &&& edges_consistent(b.nodes)
    &&& (b.curr is Some ==> 0 <= b.curr->0 < b.nodes.len())
    &&& (forall|k: int| 0 <= k < b.roots.len() ==> 0 <= #[trigger] b.roots[k] < b.nodes.len())
}

/// The accumulated start set the final upward walk begins from: the roots
/// gathered so far, then the current node.
pub open spec fn spec_start_set(b: BuilderShape) -> Seq<int> {
    match b.curr {
        Some(c) => b.roots.push(c),
        None => b.roots,
    }
}

/// The depth budget the final upward walk gets: one more than the node
/// count, which suffices for any acyclic arena.
pub open spec fn builder_fuel(b: BuilderShape) -> nat {
    if b.nodes.len() + 1 <= usize::MAX as nat {
        (b.nodes.len() + 1) as nat
    } else {
        usize::MAX as nat
    }
}

impl DAGBuilder {
    /// An empty builder.
    pub fn new() -> (r: DAGBuilder)
        ensures
            builder_wf(r@),
            r@.nodes.len() == 0,
            r@.curr is None,
            r@.roots.len() == 0,
    {
        let r = DAGBuilder { nodes: Vec::new(), curr: None, roots: Vec::new() };
        proof {
            assert(r@.roots =~= Seq::<int>::empty());
        }
        r
    }

    /// Adds a task as a new current node; the previous current node joins
    /// the accumulated roots.
    pub fn task(self, meta: RunnableMetadata, task: TaskInfo) -> (r: DAGBuilder)
        requires
            builder_wf(self@),
        ensures
            builder_wf(r@),
            r@.nodes.len() == self@.nodes.len() + 1,
            r@.nodes.last().task == task,
            r@.nodes.last().meta == Some(meta@),
            r@.curr == Some(self@.nodes.len() as int),
            r@.roots == spec_start_set(self@),
            r@.nodes.last().parents.len() == 0,
            r@.nodes.last().children.len() == 0,
            forall|k: int| 0 <= k < self@.nodes.len() ==> r@.nodes[k] == self@.nodes[k],
    {
        let mut this = self;
        let ghost pre = this@;
        match this.curr {
            Some(c) => {
                this.roots.push(c);
                proof {
                    assert(this@.roots =~= pre.roots.push(c as int));
                }
            },
            None => {
                proof {
                    assert(this@.roots == pre.roots);
                }
            },
        }
        let ghost midroots = this@.roots;
        let idx = this.nodes.len();
        append_node(&mut this.nodes, TaskNode::with_meta(meta, task));
        this.curr = Some(idx);
        proof {
            assert(this@.nodes.last().meta == Some(meta@));
            assert(this@.roots == midroots);
            assert forall|k: int| 0 <= k < this@.roots.len() implies 0 <= #[trigger] this@.roots[k]
                < this@.nodes.len() by {
                if pre.curr is Some && k == pre.roots.len() {
                    assert(this@.roots[k] == pre.curr->0);
                } else {
                    assert(this@.roots[k] == pre.roots[k]);
                }
            }
        }
        this
    }

    /// Renames the current node, where there is one.
    pub fn set_name(self, name: &str) -> (r: DAGBuilder)
        requires
            builder_wf(self@),
        ensures
            builder_wf(r@),
            r@.nodes.len() == self@.nodes.len(),
            r@.curr == self@.curr,
            r@.roots == self@.roots,
    {
        let mut this = self;
        let ghost pre = this@;
        match this.curr {
            Some(c) => {
                let ghost prevec = this@.nodes;
                let node = &mut this.nodes[c];
                node.set_node_name(name.to_owned());
                proof {
                    assert forall|i: int|
                        0 <= i < this@.nodes.len() implies node_edges_in_unchanged(
                        pre.nodes,
                        this@.nodes,
                        i,
                    ) by {
                        assert(this@.nodes[i] == this.nodes@[i]@);
                        if i != c {
                            assert(this@.nodes[i] == prevec[i]);
                        }
                    }
                    assert(this@.nodes.len() == pre.nodes.len());
                    assert(this@.roots =~= pre.roots);
                    assert(this@.curr == pre.curr);
                    assert(builder_wf(this@)) by {
                        assert forall|i: int| 0 <= i < this@.nodes.len() implies
                            crate::dag::node_edges_in(
                            #[trigger] this@.nodes[i],
                            this@.nodes.len() as int,
                        ) by {
                            assert(crate::dag::node_edges_in(pre.nodes[i], pre.nodes.len() as int));
                            assert(node_edges_in_unchanged(pre.nodes, this@.nodes, i));
                        }
                        assert forall|i: int, j: int|
                            0 <= i < this@.nodes.len() && 0 <= j < this@.nodes.len() implies ((
                        #[trigger] this@.nodes[i].children.contains(j)) <==> (
                        #[trigger] this@.nodes[j].parents.contains(i))) by {
                            assert(pre.nodes[i].children.contains(j) <==> pre.nodes[
                                j
                            ].parents.contains(i));
                            assert(node_edges_in_unchanged(pre.nodes, this@.nodes, i));
                            assert(node_edges_in_unchanged(pre.nodes, this@.nodes, j));
                        }
                    }
                    assert(this@.roots =~= pre.roots);
                }
            },
            None => {
            },
        }
        this
    }

    /// Adds a task as a parent of the current node; with no current node it
    /// starts one instead.
    pub fn parent_task(self, meta: RunnableMetadata, task: TaskInfo) -> (r: DAGBuilder)
        requires
            builder_wf(self@),
        ensures
            builder_wf(r@),
            r@.nodes.len() == self@.nodes.len() + 1,
            r@.nodes.last().task == task,
            r@.nodes.last().meta == Some(meta@),
            r@.roots == self@.roots,
            self@.curr is Some ==> r@.curr == self@.curr && r@.nodes[self@.curr->0].parents
                == self@.nodes[self@.curr->0].parents.push(self@.nodes.len() as int)
                && r@.nodes.last().parents.len() == 0 && r@.nodes.last().children == seq![
                self@.curr->0,
            ],
            self@.curr is None ==> r@.curr == Some(self@.nodes.len() as int)
                && r@.nodes.last().parents.len() == 0 && r@.nodes.last().children.len() == 0,
    {
        let mut this = self;
        let ghost pre = this@;
        match this.curr {
            Some(c) => {
                let idx = this.nodes.len();
                append_node(&mut this.nodes, TaskNode::with_meta(meta, task));
                proof {
                    assert(nodes_view(this.nodes@).len() == this.nodes@.len());
                    assert(this.nodes@.len() == pre.nodes.len() + 1);
                }
                link_nodes(&mut this.nodes, idx, c);
                proof {
                    assert(this@.nodes[c as int].parents =~= pre.nodes[c as int].parents.push(
                        idx as int,
                    ));
                    assert(this@.nodes.last().children =~= seq![c as int]);
                    assert(this@.roots =~= pre.roots);
                }
                this
            },
            None => this.task(meta, task),
        }
    }

    /// Adds a task as a child of the current node; with no current node it
    /// starts one instead.
    pub fn child_task(self, meta: RunnableMetadata, task: TaskInfo) -> (r: DAGBuilder)
        requires
            builder_wf(self@),
        ensures
            builder_wf(r@),
            r@.nodes.len() == self@.nodes.len() + 1,
            r@.nodes.last().task == task,
            r@.nodes.last().meta == Some(meta@),
            r@.roots == self@.roots,
            self@.curr is Some ==> r@.curr == self@.curr && r@.nodes[self@.curr->0].children
                == self@.nodes[self@.curr->0].children.push(self@.nodes.len() as int)
                && r@.nodes.last().children.len() == 0 && r@.nodes.last().parents == seq![
                self@.curr->0,
            ],
            self@.curr is None ==> r@.curr == Some(self@.nodes.len() as int)
                && r@.nodes.last().parents.len() == 0 && r@.nodes.last().children.len() == 0,
    {
        let mut this = self;
        let ghost pre = this@;
        match this.curr {
            Some(c) => {
                let idx = this.nodes.len();
                append_node(&mut this.nodes, TaskNode::with_meta(meta, task));
                proof {
                    assert(nodes_view(this.nodes@).len() == this.nodes@.len());
                    assert(this.nodes@.len() == pre.nodes.len() + 1);
                }
                link_nodes(&mut this.nodes, c, idx);
                proof {
                    assert(this@.nodes[c as int].children =~= pre.nodes[c as int].children.push(
                        idx as int,
                    ));
                    assert(this@.nodes.last().parents =~= seq![c as int]);
                    assert(this@.roots =~= pre.roots);
                }
                this
            },
            None => this.task(meta, task),
        }
    }

    /// Folds another builder into this one: the other arena is appended with
    /// its indices shifted, its accumulated roots (and current node) join
    /// this builder's roots, and — when this builder has no current node —
    /// the other's current node becomes current here.
    pub fn merge(self, other: DAGBuilder) -> (r: DAGBuilder)
        requires
            builder_wf(self@),
            builder_wf(other@),
            self@.nodes.len() + other@.nodes.len() <= usize::MAX,
        ensures
            builder_wf(r@),
            r@.nodes == self@.nodes + shift_nodes(other@.nodes, self@.nodes.len() as int),
            self@.curr is Some ==> r@.curr == self@.curr,
            self@.curr is None ==> r@.curr == (match other@.curr {
                Some(c) => Some(c + self@.nodes.len() as int),
                None => None::<int>,
            }),
            r@.roots == self@.roots + (
            if self@.curr is Some && other@.curr is Some {
                other@.roots.push(other@.curr->0)
            } else {
                other@.roots
            }).map_values(|x: int| x + self@.nodes.len() as int),
    {
        let mut this = self;
        let mut other = other;
        let ghost pre = this@;
        let ghost opre = other@;
        let s = this.nodes.len();
        let mut i: usize = 0;
        while i < other.nodes.len()
            invariant
                builder_wf(pre),
                builder_wf(opre),
                pre.nodes.len() + opre.nodes.len() <= usize::MAX,
                s == pre.nodes.len(),
                i <= other.nodes@.len(),
                other@ == opre,
                this@.curr == pre.curr,
                this@.roots == pre.roots,
                this.nodes@.len() == s + i,
                forall|k: int| 0 <= k < s ==> (#[trigger] this@.nodes[k]) == pre.nodes[k],
                forall|k: int|
                    s <= k < s + i ==> (#[trigger] this@.nodes[k]) == shift_node(
                        opre.nodes[k - s],
                        s as int,
                    ),
            decreases other.nodes@.len() - i,
        {
            let src = &other.nodes[i];
            proof {
                assert(src@ == opre.nodes[i as int]);
                assert(crate::dag::node_edges_in(opre.nodes[i as int], opre.nodes.len() as int));
            }
            let ghost nv_pre = this@.nodes;
            let node = src.shifted(s);
            this.nodes.push(node);
            proof {
                assert(this@.nodes =~= nv_pre.push(node@));
            }
            i = i + 1;
        }
        proof {
            assert(this@.nodes =~= pre.nodes + shift_nodes(opre.nodes, s as int));
        }
        let ghost merged = this@.nodes;
        let took_curr = this.curr.is_none();
        if took_curr {
            this.curr = match other.curr {
                Some(c) => Some(c + s),
                None => None,
            };
            other.curr = None;
        }
        let ghost cafter = this@.curr;
        let ghost midroots = this@.roots;
        let mut k: usize = 0;
        while k < other.roots.len()
            invariant
                builder_wf(opre),
                s + opre.nodes.len() <= usize::MAX,
                s == pre.nodes.len(),
                k <= other.roots@.len(),
                idxs(other.roots@) == opre.roots,
                this@.nodes == merged,
                this@.curr == cafter,
                midroots == pre.roots,
                this@.roots.len() == midroots.len() + k,
                forall|j: int| 0 <= j < midroots.len() ==> (#[trigger] this@.roots[j]) == midroots[j],
                forall|j: int|
                    midroots.len() <= j < midroots.len() + k ==> (#[trigger] this@.roots[j])
                        == opre.roots[j - midroots.len()] + s,
            decreases other.roots@.len() - k,
        {
            let ghost rpre = this@.roots;
            let root = other.roots[k];
            proof {
                assert(opre.roots[k as int] == root as int);
                assert(0 <= opre.roots[k as int] < opre.nodes.len());
            }
            this.roots.push(root + s);
            proof {
                assert(this@.roots =~= rpre.push(root as int + s as int));
            }
            k = k + 1;
        }
        let ghost rmid = this@.roots;
        match other.curr {
            Some(c) => {
                proof {
                    assert(opre.curr == Some(c as int));
                    assert((c as int) < opre.nodes.len());
                }
                this.roots.push(c + s);
                proof {
                    assert(this@.roots =~= rmid.push(c as int + s as int));
                }
            },
            None => {
            },
        }
        proof {
            let total = merged.len() as int;
            let added = if pre.curr is Some && opre.curr is Some {
                opre.roots.push(opre.curr->0)
            } else {
                opre.roots
            };
            let shifted_added = added.map_values(|x: int| x + s as int);
            assert forall|j: int|
                0 <= j < shifted_added.len() implies shifted_added[j] == added[j] + s by {}
            assert(this@.roots =~= pre.roots + shifted_added);
            assert forall|i: int| 0 <= i < total implies crate::dag::node_edges_in(
                #[trigger] merged[i],
                total,
            ) by {
                if i < s {
                    assert(crate::dag::node_edges_in(pre.nodes[i], s as int));
                } else {
                    let o = opre.nodes[i - s];
                    assert(crate::dag::node_edges_in(o, opre.nodes.len() as int));
                    assert(merged[i] == shift_node(o, s as int));
                    assert forall|j: int|
                        0 <= j < merged[i].parents.len() implies 0 <= (
                    #[trigger] merged[i].parents[j]) < total by {
                        assert(merged[i].parents[j] == o.parents[j] + s);
                    }
                    assert forall|j: int|
                        0 <= j < merged[i].children.len() implies 0 <= (
                    #[trigger] merged[i].children[j]) < total by {
                        assert(merged[i].children[j] == o.children[j] + s);
                    }
                }
            }
            assert forall|i: int, j: int|
                0 <= i < total && 0 <= j < total implies ((#[trigger] merged[i].children.contains(
                j,
            )) <==> (#[trigger] merged[j].parents.contains(i))) by {
                if i < s && j < s {
                    assert(pre.nodes[i].children.contains(j) <==> pre.nodes[j].parents.contains(
                        i,
                    ));
                } else if i < s && j >= s {
                    assert(crate::dag::node_edges_in(pre.nodes[i], s as int));
                    assert(crate::dag::node_edges_in(opre.nodes[j - s], opre.nodes.len() as int));
                    if merged[i].children.contains(j) {
                        lemma_contains_in_range(pre.nodes[i].children, s as int, j);
                    }
                    lemma_shift_contains(opre.nodes[j - s].parents, s as int, i);
                    if opre.nodes[j - s].parents.contains(i - s) {
                        lemma_contains_in_range(
                            opre.nodes[j - s].parents,
                            opre.nodes.len() as int,
                            i - s,
                        );
                    }
                } else if i >= s && j < s {
                    assert(crate::dag::node_edges_in(pre.nodes[j], s as int));
                    assert(crate::dag::node_edges_in(opre.nodes[i - s], opre.nodes.len() as int));
                    if merged[j].parents.contains(i) {
                        lemma_contains_in_range(pre.nodes[j].parents, s as int, i);
                    }
                    lemma_shift_contains(opre.nodes[i - s].children, s as int, j);
                    if opre.nodes[i - s].children.contains(j - s) {
                        lemma_contains_in_range(
                            opre.nodes[i - s].children,
                            opre.nodes.len() as int,
                            j - s,
                        );
                    }
                } else {
                    lemma_shift_contains(opre.nodes[i - s].children, s as int, j);
                    lemma_shift_contains(opre.nodes[j - s].parents, s as int, i);
                    assert(opre.nodes[i - s].children.contains(j - s) <==> opre.nodes[
                        j - s
                    ].parents.contains(i - s));
                }
            }
            assert forall|j: int| 0 <= j < this@.roots.len() implies 0 <= (
            #[trigger] this@.roots[j]) < total by {
                if j < pre.roots.len() {
                    assert(this@.roots[j] == pre.roots[j]);
                } else {
                    assert(this@.roots[j] == added[j - pre.roots.len()] + s);
                    if pre.curr is Some && opre.curr is Some && j - pre.roots.len()
                        == opre.roots.len() {
                        assert(added[j - pre.roots.len()] == opre.curr->0);
                    } else {
                        assert(added[j - pre.roots.len()] == opre.roots[j - pre.roots.len()]);
                    }
                }
            }
        }
        this
    }

    /// The accumulated start set: the roots gathered so far plus the current
    /// node.
    fn build_vec(self) -> (r: (Vec<TaskNode>, Vec<usize>))
        requires
            builder_wf(self@),
        ensures
            nodes_view(r.0@) == self@.nodes,
            idxs(r.1@) == spec_start_set(self@),
            crate::dag::indices_in(idxs(r.1@), self@.nodes.len() as int),
    {
        let mut this = self;
        let ghost pre = this@;
        match this.curr {
            Some(c) => {
                this.roots.push(c);
                this.curr = None;
                proof {
                    assert(this@.roots =~= pre.roots.push(c as int));
                }
            },
            None => {
                proof {
                    assert(this@.roots == pre.roots);
                }
            },
        }
        proof {
            assert forall|k: int| 0 <= k < this@.roots.len() implies 0 <= #[trigger] this@.roots[k]
                < this@.nodes.len() by {
                if pre.curr is Some && k == pre.roots.len() {
                    assert(this@.roots[k] == pre.curr->0);
                } else {
                    assert(this@.roots[k] == pre.roots[k]);
                }
            }
        }
        (this.nodes, this.roots)
    }

    /// Finishes the graph: walks upward from everything accumulated to find
    /// the true root set. Fails only when the walk runs out of depth budget,
    /// which only a cyclic arena can cause.
    pub fn build(self) -> (r: Result<DAG, BronzeError>)
        requires
            builder_wf(self@),
        ensures
            r is Ok <==> spec_up_list(
                self@.nodes,
                spec_start_set(self@),
                0,
                builder_fuel(self@),
            ) is Some,
            r matches Ok(d) ==> dag_wf(d@) && d@.nodes == self@.nodes && d@.schedule is None
                && d@.meta is None && Some(d@.roots) == spec_up_list(
                self@.nodes,
                spec_start_set(self@),
                0,
                builder_fuel(self@),
            ) && (forall|k: int|
                0 <= k < d@.roots.len() ==> self@.nodes[#[trigger] d@.roots[k]].parents.len()
                    == 0),
            r is Err ==> r->Err_0 == BronzeError::CycleDetected,
    {
        let ghost nv = self@.nodes;
        let n = {
            let l: usize = self.nodes.len();
            l
        };
        let fuel: usize = if n < usize::MAX {
            n + 1
        } else {
            n
        };
        let (nodes, starts) = self.build_vec();
        let tops = match DAG::handle_top_node(&nodes, &starts, fuel) {
            Some(t) => t,
            None => {
                return Err(BronzeError::CycleDetected);
            },
        };
        proof {
            crate::dag::lemma_up_list_yields_roots(nv, idxs(starts@), 0, fuel as nat);
            let s = spec_up_list(nv, idxs(starts@), 0, fuel as nat);
            assert(s == Some(idxs(tops@)));
            assert forall|k: int| 0 <= k < idxs(tops@).len() implies 0 <= #[trigger] idxs(tops@)[k]
                < nv.len() && nv[idxs(tops@)[k]].parents.len() == 0 by {
                assert(idxs(tops@)[k] == s->0[k]);
            }
        }
        Ok(DAG::new(nodes, tops))
    }
}

/// The edge lists of node `i` are the same in both arenas.
pub open spec fn node_edges_in_unchanged(a: Seq<NodeShape>, b: Seq<NodeShape>, i: int) -> bool {
    b[i].parents == a[i].parents && b[i].children == a[i].children
}

} // verus!
