//! Paths through the node tree, and why they are well defined.
use vstd::prelude::*;
use crate::types::aiNode;
use crate::validate::{node_wf, nodes_wf};

verus! {

/// The nodes met by following parent links from node `i`, `i` first.
pub open spec fn root_path(nodes: Seq<aiNode>, i: usize) -> Seq<usize>
    decreases i,
{
    if (i as int) < nodes.len() && nodes[i as int].parent is Some && nodes[i as int].parent->Some_0
        < i {
        seq![i] + root_path(nodes, nodes[i as int].parent->Some_0)
    } else {
        seq![i]
    }
}

/// `q` is a walk along parent links through nodes of the arena.
pub open spec fn parent_chain(nodes: Seq<aiNode>, q: Seq<usize>) -> bool {
    &&& forall|k: int| 0 <= k < q.len() ==> (#[trigger] q[k] as int) < nodes.len()
    &&& forall|k: int|
        0 <= k < q.len() - 1 ==> nodes[#[trigger] q[k] as int].parent == Some(q[k + 1])
}

/// The path from node `i` is a parent chain from `i` to the root, node 0,
/// along which indices strictly decrease, so no node is its own ancestor.
pub proof fn lemma_root_path(nodes: Seq<aiNode>, mesh_count: nat, i: usize)
    requires
        nodes_wf(nodes, mesh_count),
        (i as int) < nodes.len(),
    ensures
        ({
            let p = root_path(nodes, i);
            &&& p.len() >= 1
            &&& p[0] == i
            &&& p.last() == 0
            &&& nodes[0].parent is None
            &&& parent_chain(nodes, p)
            &&& forall|k: int| 0 < k < p.len() ==> #[trigger] p[k] < p[k - 1]
            &&& forall|k: int| 0 < k < p.len() ==> #[trigger] p[k] < i
        }),
    decreases i,
{
    assert(node_wf(nodes, 0, mesh_count));
    assert(node_wf(nodes, i as int, mesh_count));
    let p = root_path(nodes, i);
    if i > 0 {
        let j = nodes[i as int].parent->Some_0;
        lemma_root_path(nodes, mesh_count, j);
        let t = root_path(nodes, j);
        assert(p == seq![i] + t);
        assert forall|k: int| 0 < k < p.len() implies #[trigger] p[k] < p[k - 1] && p[k] < i by {
            assert(p[k] == t[k - 1]);
            if k > 1 {
                assert(t[k - 1] < t[k - 2]);
            }
        }
        assert forall|k: int| 0 <= k < p.len() - 1 implies nodes[#[trigger] p[k] as int].parent
            == Some(p[k + 1]) by {
            if k > 0 {
                assert(p[k] == t[k - 1]);
                assert(nodes[t[k - 1] as int].parent == Some(t[k]));
            }
        }
        assert forall|k: int| 0 <= k < p.len() implies (#[trigger] p[k] as int) < nodes.len() by {
            if k > 0 {
                assert(p[k] == t[k - 1]);
            }
        }
    }
}

/// Any parent chain from a node to a node without a parent is the path
/// from that node: the path to the root is unique.
pub proof fn lemma_root_path_unique(nodes: Seq<aiNode>, mesh_count: nat, q: Seq<usize>)
    requires
        nodes_wf(nodes, mesh_count),
        q.len() > 0,
        parent_chain(nodes, q),
        nodes[q.last() as int].parent is None,
    ensures
        q == root_path(nodes, q[0]),
    decreases q.len(),
{
    let i = q[0];
    assert((q[0] as int) < nodes.len());
    assert(node_wf(nodes, i as int, mesh_count));
    if q.len() == 1 {
        assert(q =~= seq![i]);
    } else {
        assert(nodes[q[0] as int].parent == Some(q[1]));
        let r = q.drop_first();
        assert forall|k: int| 0 <= k < r.len() implies (#[trigger] r[k] as int) < nodes.len() by {
            assert(r[k] == q[k + 1]);
        }
        assert forall|k: int| 0 <= k < r.len() - 1 implies nodes[#[trigger] r[k] as int].parent
            == Some(r[k + 1]) by {
            assert(r[k] == q[k + 1]);
            assert(nodes[q[k + 1] as int].parent == Some(q[k + 2]));
        }
        assert(r.last() == q.last());
        lemma_root_path_unique(nodes, mesh_count, r);
        assert(q =~= seq![i] + r);
    }
}

} // verus!
