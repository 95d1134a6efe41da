//! The pickable-flag propagator.
//!
//! An imported scene is a finite tree of nodes. A root that still carries
//! the "not yet pickable" tag waits for its children to materialize; once
//! they exist, every descendant that carries a renderable mesh is marked
//! pickable and the tag is removed, so the traversal runs at most once per
//! root. A tagged root with no children yet is silently skipped and
//! retried on the next invocation.
//!
//! Nodes are stored parents-first: every node's parent index is smaller
//! than its own, which is how a loaded hierarchy arrives and what makes
//! the tree finite and cycle-free.

use vstd::prelude::*;
use vstd::pervasive::VecAdditionalExecFns;

verus! {

/// One node of an imported scene hierarchy.
#[derive(Clone, Copy, PartialEq, Eq, Debug)]
pub struct SceneNode {
    /// The node this one hangs under, if any; always an earlier index.
    pub parent: Option<usize>,
    /// Whether the node carries a renderable mesh.
    pub has_mesh: bool,
    /// Whether the node is eligible for pointer hit-testing.
    pub pickable: bool,
    /// The "not yet pickable" tag: the node is a root whose subtree still
    /// awaits propagation.
    pub pending: bool,
}

/// A scene hierarchy, nodes stored parents-first.
#[derive(Clone, PartialEq, Eq, Debug)]
pub struct SceneGraph {
    pub nodes: Vec<SceneNode>,
}

/// Parents precede their children, so the hierarchy is a forest.
pub open spec fn wf_nodes(s: Seq<SceneNode>) -> bool {
    forall|j: int|
        0 <= j < s.len() ==> ((#[trigger] s[j]).parent matches Some(p) ==> (p as int) < j)
}

/// Some node among the first `k` has `r` as its parent.
pub open spec fn has_child_upto(s: Seq<SceneNode>, r: int, k: int) -> bool {
    exists|k2: int| 0 <= k2 < k && (#[trigger] s[k2]).parent == Some(r as usize)
}

/// Node `r` has a materialized child.
pub open spec fn has_child(s: Seq<SceneNode>, r: int) -> bool {
    has_child_upto(s, r, s.len() as int)
}

/// Node `j` lies in the subtree rooted at `root` (the root itself
/// included): `root` is reachable from `j` along parent edges.
pub open spec fn in_subtree(s: Seq<SceneNode>, root: int, j: int) -> bool
    decreases j,
        when wf_nodes(s) && 0 <= j < s.len()
{
    if j == root {
        true
    } else {
        match s[j].parent {
            Some(p) => in_subtree(s, root, p as int),
            None => false,
        }
    }
}

/// A root whose traversal fires this invocation: tagged, and its children
/// have materialized.
pub open spec fn active_root(s: Seq<SceneNode>, r: int) -> bool {
    0 <= r < s.len() && s[r].pending && has_child(s, r)
}

/// Node `j` gets its pickable flag this invocation: it carries a mesh and
/// is a proper descendant of some root whose traversal fires.
pub open spec fn newly_pickable(s: Seq<SceneNode>, j: int) -> bool {
    s[j].has_mesh && exists|r: int|
        #[trigger] active_root(s, r) && r != j && in_subtree(s, r, j)
}

/// What one invocation of the propagator makes of node `j`: the pickable
/// flag is set where owed, the tag is dropped from every root whose
/// traversal fired, and nothing else moves.
pub open spec fn propagate_node(s: Seq<SceneNode>, j: int) -> SceneNode {
    SceneNode {
        parent: s[j].parent,
        has_mesh: s[j].has_mesh,
        pickable: s[j].pickable || newly_pickable(s, j),
        pending: s[j].pending && !has_child(s, j),
    }
}

/// What one invocation of the propagator makes of the whole scene.
pub open spec fn propagate_spec(s: Seq<SceneNode>) -> Seq<SceneNode> {
    Seq::new(s.len(), |j: int| propagate_node(s, j))
}

/// A node reached along parent edges has an index no smaller than the
/// node it is reached from.
proof fn lemma_in_subtree_bounds(s: Seq<SceneNode>, root: int, j: int)
    requires
        wf_nodes(s),
        0 <= j < s.len(),
        in_subtree(s, root, j),
    ensures
        0 <= root <= j,
    decreases j,
{
    if j == root {
    } else {
        match s[j].parent {
            Some(p) => {
                lemma_in_subtree_bounds(s, root, p as int);
            },
            None => {
                assert(false);
            },
        }
    }
}

/// `covered(s, j)` follows parent edges instead of quantifying over roots:
/// node `j` is an active root itself, or hangs under one. This is the
/// shape the propagator computes in one forward pass.
pub open spec fn covered(s: Seq<SceneNode>, j: int) -> bool
    decreases j,
        when wf_nodes(s) && 0 <= j < s.len()
{
    (s[j].pending && has_child(s, j)) || (match s[j].parent {
        Some(p) => covered(s, p as int),
        None => false,
    })
}

/// The forward-pass form agrees with the quantified one: a node is
/// covered exactly when some active root's subtree contains it.
proof fn lemma_covered_iff(s: Seq<SceneNode>, j: int)
    requires
        wf_nodes(s),
        0 <= j < s.len(),
    ensures
        covered(s, j) <==> exists|r: int| #[trigger] active_root(s, r) && in_subtree(s, r, j),
    decreases j,
{
    if covered(s, j) {
        if s[j].pending && has_child(s, j) {
            assert(active_root(s, j));
            assert(in_subtree(s, j, j));
            assert(exists|r: int| #[trigger] active_root(s, r) && in_subtree(s, r, j));
        } else {
            match s[j].parent {
                Some(p) => {
                    lemma_covered_iff(s, p as int);
                    let r = choose|r: int| #[trigger] active_root(s, r) && in_subtree(s, r, p as int);
                    lemma_in_subtree_bounds(s, r, p as int);
                    assert(in_subtree(s, r, j));
                    assert(active_root(s, r) && in_subtree(s, r, j));
                },
                None => {
                    assert(false);
                },
            }
        }
    }
    if exists|r: int| #[trigger] active_root(s, r) && in_subtree(s, r, j) {
        let r = choose|r: int| #[trigger] active_root(s, r) && in_subtree(s, r, j);
        if r == j {
            assert(covered(s, j));
        } else {
            match s[j].parent {
                Some(p) => {
                    assert(in_subtree(s, r, p as int));
                    lemma_covered_iff(s, p as int);
                    assert(exists|r2: int|
                        #[trigger] active_root(s, r2) && in_subtree(s, r2, p as int));
                    assert(covered(s, j));
                },
                None => {
                    assert(false);
                },
            }
        }
    }
}

/// A node owes its pickable flag exactly when it carries a mesh and its
/// parent is covered: subtree membership is proper, so it runs through
/// the parent.
proof fn lemma_newly_pickable_from_parent(s: Seq<SceneNode>, j: int)
    requires
        wf_nodes(s),
        0 <= j < s.len(),
    ensures
        newly_pickable(s, j) <==> (s[j].has_mesh && (match s[j].parent {
            Some(p) => covered(s, p as int),
            None => false,
        })),
{
    match s[j].parent {
        Some(p) => {
            assert(0 <= (p as int) < j);
            lemma_covered_iff(s, p as int);
            if covered(s, p as int) && s[j].has_mesh {
                let r = choose|r: int| #[trigger] active_root(s, r) && in_subtree(s, r, p as int);
                lemma_in_subtree_bounds(s, r, p as int);
                assert(in_subtree(s, r, j));
                assert(active_root(s, r) && r != j && in_subtree(s, r, j));
                assert(newly_pickable(s, j));
            }
            if newly_pickable(s, j) {
                let r = choose|r: int|
                    #[trigger] active_root(s, r) && r != j && in_subtree(s, r, j);
                assert(in_subtree(s, r, p as int));
                assert(exists|r2: int|
                    #[trigger] active_root(s, r2) && in_subtree(s, r2, p as int));
            }
        },
        None => {
            if newly_pickable(s, j) {
                let r = choose|r: int|
                    #[trigger] active_root(s, r) && r != j && in_subtree(s, r, j);
                assert(false);
            }
        },
    }
}

/// Whether the nodes are stored parents-first, checked at run time so an
/// unverified caller can refuse a malformed hierarchy before propagating.
pub fn check_well_formed(scene: &SceneGraph) -> (b: bool)
    ensures
        b == wf_nodes(scene.nodes@),
{
    let n = scene.nodes.len();
    let mut j: usize = 0;
    while j < n
        invariant
            j <= n,
            n == scene.nodes@.len(),
            forall|jj: int|
                0 <= jj < j ==> ((#[trigger] scene.nodes@[jj]).parent matches Some(p) ==> (
                p as int) < jj),
        decreases n - j,
    {
        match scene.nodes[j].parent {
            Some(p) => {
                if p >= j {
                    return false;
                }
            },
            None => {},
        }
        j = j + 1;
    }
    true
}

/// Marks every mesh-bearing proper descendant of `root` pickable, leaving
/// every other flag and the hierarchy untouched. Sibling order plays no
/// role: the flag set is commutative and the end state depends only on
/// which nodes lie under `root`.
pub fn set_pickable_recursive(scene: &mut SceneGraph, root: usize)
    requires
        wf_nodes(old(scene).nodes@),
        root < old(scene).nodes@.len(),
    ensures
        final(scene).nodes@.len() == old(scene).nodes@.len(),
        forall|j: int|
            0 <= j < old(scene).nodes@.len() ==> final(scene).nodes@[j] == mark_node(
                old(scene).nodes@,
                root as int,
                j,
            ),
{
    let ghost s = scene.nodes@;
    let n = scene.nodes.len();

    let mut sub: Vec<bool> = Vec::new();
    let mut j: usize = 0;
    while j < n
        invariant
            j <= n,
            n == s.len(),
            scene.nodes@ == s,
            wf_nodes(s),
            root < n,
            sub@.len() == j,
            forall|jj: int| 0 <= jj < j ==> sub@[jj] == in_subtree(s, root as int, jj),
        decreases n - j,
    {
        let here = if j == root {
            true
        } else {
            match scene.nodes[j].parent {
                Some(p) => sub[p],
                None => false,
            }
        };
        sub.push(here);
        j = j + 1;
    }

    let mut out: Vec<SceneNode> = Vec::new();
    let mut j: usize = 0;
    while j < n
        invariant
            j <= n,
            n == s.len(),
            scene.nodes@ == s,
            wf_nodes(s),
            root < n,
            sub@.len() == n,
            forall|jj: int| 0 <= jj < n ==> sub@[jj] == in_subtree(s, root as int, jj),
            out@.len() == j,
            forall|jj: int| 0 <= jj < j ==> out@[jj] == mark_node(s, root as int, jj),
        decreases n - j,
    {
        let nd = scene.nodes[j];
        let mark = nd.has_mesh && j != root && sub[j];
        out.push(
            SceneNode {
                parent: nd.parent,
                has_mesh: nd.has_mesh,
                pickable: nd.pickable || mark,
                pending: nd.pending,
            },
        );
        j = j + 1;
    }
    scene.nodes = out;
}

/// What marking from `root` makes of node `j`: the pickable flag is set
/// for mesh-bearing proper descendants of `root`, everything else stays.
pub open spec fn mark_node(s: Seq<SceneNode>, root: int, j: int) -> SceneNode {
    SceneNode {
        parent: s[j].parent,
        has_mesh: s[j].has_mesh,
        pickable: s[j].pickable || (s[j].has_mesh && j != root && in_subtree(s, root, j)),
        pending: s[j].pending,
    }
}

/// One invocation of the propagator: for every tagged root whose children
/// have materialized, marks each mesh-bearing proper descendant pickable
/// and drops the tag; a tagged root with no children yet is left for the
/// next invocation.
pub fn make_gltf_scene_pickable(scene: &mut SceneGraph)
    requires
        wf_nodes(old(scene).nodes@),
    ensures
        final(scene).nodes@ == propagate_spec(old(scene).nodes@),
{
    let ghost s = scene.nodes@;
    let n = scene.nodes.len();

    // Which nodes have a materialized child, in one pass over the parent
    // edges.
    let mut hc: Vec<bool> = Vec::new();
    while hc.len() < n
        invariant
            hc@.len() <= n,
            forall|r: int| 0 <= r < hc@.len() ==> !(#[trigger] hc@[r]),
        decreases n - hc.len(),
    {
        hc.push(false);
    }
    let mut k: usize = 0;
    while k < n
        invariant
            k <= n,
            n == s.len(),
            scene.nodes@ == s,
            wf_nodes(s),
            hc@.len() == n,
            forall|r: int| 0 <= r < n ==> hc@[r] == has_child_upto(s, r, k as int),
        decreases n - k,
    {
        let ghost hc_old = hc@;
        match scene.nodes[k].parent {
            Some(p) => {
                hc.set(p, true);
                proof {
                    assert forall|r: int| 0 <= r < n implies hc@[r] == has_child_upto(
                        s,
                        r,
                        k as int + 1,
                    ) by {
                        if r == p as int {
                            assert(s[k as int].parent == Some(r as usize));
                            assert(has_child_upto(s, r, k as int + 1));
                        } else {
                            assert(hc@[r] == hc_old[r]);
                            if has_child_upto(s, r, k as int + 1) {
                                let k2 = choose|k2: int|
                                    0 <= k2 < k as int + 1 && (#[trigger] s[k2]).parent == Some(
                                        r as usize,
                                    );
                                assert(k2 < k as int);
                                assert(has_child_upto(s, r, k as int));
                            }
                            if has_child_upto(s, r, k as int) {
                                let k2 = choose|k2: int|
                                    0 <= k2 < k as int && (#[trigger] s[k2]).parent == Some(
                                        r as usize,
                                    );
                                assert(has_child_upto(s, r, k as int + 1));
                            }
                        }
                    }
                }
            },
            None => {
                proof {
                    assert forall|r: int| 0 <= r < n implies hc@[r] == has_child_upto(
                        s,
                        r,
                        k as int + 1,
                    ) by {
                        if has_child_upto(s, r, k as int + 1) {
                            let k2 = choose|k2: int|
                                0 <= k2 < k as int + 1 && (#[trigger] s[k2]).parent == Some(
                                    r as usize,
                                );
                            assert(k2 < k as int);
                            assert(has_child_upto(s, r, k as int));
                        }
                        if has_child_upto(s, r, k as int) {
                            let k2 = choose|k2: int|
                                0 <= k2 < k as int && (#[trigger] s[k2]).parent == Some(r as usize);
                            assert(has_child_upto(s, r, k as int + 1));
                        }
                    }
                }
            },
        }
        k = k + 1;
    }

    // Which nodes are an active root or hang under one, in one forward
    // pass along parent edges.
    let mut cov: Vec<bool> = Vec::new();
    let mut j: usize = 0;
    while j < n
        invariant
            j <= n,
            n == s.len(),
            scene.nodes@ == s,
            wf_nodes(s),
            hc@.len() == n,
            forall|r: int| 0 <= r < n ==> hc@[r] == has_child(s, r),
            cov@.len() == j,
            forall|jj: int| 0 <= jj < j ==> cov@[jj] == covered(s, jj),
        decreases n - j,
    {
        let here = scene.nodes[j].pending && hc[j];
        let above = match scene.nodes[j].parent {
            Some(p) => cov[p],
            None => false,
        };
        proof {
            assert(covered(s, j as int) == ((s[j as int].pending && has_child(s, j as int)) || (
            match s[j as int].parent {
                Some(p) => covered(s, p as int),
                None => false,
            })));
        }
        cov.push(here || above);
        j = j + 1;
    }

    // Rebuild the nodes with their new flags.
    let mut out: Vec<SceneNode> = Vec::new();
    let mut j: usize = 0;
    while j < n
        invariant
            j <= n,
            n == s.len(),
            scene.nodes@ == s,
            wf_nodes(s),
            hc@.len() == n,
            forall|r: int| 0 <= r < n ==> hc@[r] == has_child(s, r),
            cov@.len() == n,
            forall|jj: int| 0 <= jj < n ==> cov@[jj] == covered(s, jj),
            out@.len() == j,
            forall|jj: int| 0 <= jj < j ==> out@[jj] == propagate_node(s, jj),
        decreases n - j,
    {
        let nd = scene.nodes[j];
        let under_active = match nd.parent {
            Some(p) => cov[p],
            None => false,
        };
        proof {
            lemma_newly_pickable_from_parent(s, j as int);
        }
        out.push(
            SceneNode {
                parent: nd.parent,
                has_mesh: nd.has_mesh,
                pickable: nd.pickable || (nd.has_mesh && under_active),
                pending: nd.pending && !hc[j],
            },
        );
        j = j + 1;
    }
    scene.nodes = out;
    proof {
        assert(scene.nodes@ =~= propagate_spec(s));
    }
}

/// The propagator is idempotent: a second invocation on the scene it
/// produced changes nothing — every root whose traversal fired has lost
/// its tag, and a still-tagged root still has no children to fire on.
pub proof fn lemma_propagate_idempotent(s: Seq<SceneNode>)
    requires
        wf_nodes(s),
    ensures
        propagate_spec(propagate_spec(s)) == propagate_spec(s),
{
    let s1 = propagate_spec(s);
    assert(s1.len() == s.len());
    assert(wf_nodes(s1)) by {
        assert forall|j: int|
            0 <= j < s1.len() implies ((#[trigger] s1[j]).parent matches Some(p) ==> (p as int)
            < j) by {
            assert(s1[j] == propagate_node(s, j));
            assert(s1[j].parent == s[j].parent);
        }
    }
    assert forall|r: int| 0 <= r < s.len() implies has_child(s1, r) == has_child(s, r) by {
        if has_child(s1, r) {
            let k2 = choose|k2: int|
                0 <= k2 < s1.len() && (#[trigger] s1[k2]).parent == Some(r as usize);
            assert(s[k2].parent == Some(r as usize));
            assert(has_child(s, r));
        }
        if has_child(s, r) {
            let k2 = choose|k2: int|
                0 <= k2 < s.len() && (#[trigger] s[k2]).parent == Some(r as usize);
            assert(s1[k2].parent == Some(r as usize));
            assert(has_child(s1, r));
        }
    }
    assert forall|r: int| !(#[trigger] active_root(s1, r)) by {
        if active_root(s1, r) {
            assert(s1[r] == propagate_node(s, r));
            assert(s1[r].pending == (s[r].pending && !has_child(s, r)));
            assert(has_child(s1, r) == has_child(s, r));
            assert(false);
        }
    }
    assert forall|j: int| 0 <= j < s.len() implies #[trigger] propagate_node(s1, j) == s1[j] by {
        assert(!newly_pickable(s1, j)) by {
            if newly_pickable(s1, j) {
                let r = choose|r: int|
                    #[trigger] active_root(s1, r) && r != j && in_subtree(s1, r, j);
                assert(false);
            }
        }
        assert(s1[j] == propagate_node(s, j));
        assert(has_child(s1, j) == has_child(s, j));
        assert(propagate_node(s1, j).pending == (s1[j].pending && !has_child(s1, j)));
        assert(propagate_node(s1, j).pickable == s1[j].pickable);
    }
    assert(propagate_spec(s1) =~= s1);
}

} // verus!
