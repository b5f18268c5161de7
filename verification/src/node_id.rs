//! Identifiers of nodes.

use std::collections::BTreeSet;
use vstd::prelude::*;

verus! {

/// The identifier of a node.
pub type NodeId = u64;

/// The set of the given node identifiers.
pub fn set_of(node_ids: &[NodeId]) -> (dealers: BTreeSet<NodeId>)
    ensures
        dealers@ == node_ids@.to_set(),
{
    broadcast use vstd::laws_cmp::group_laws_cmp;

    let mut dealers: BTreeSet<NodeId> = BTreeSet::new();
    let mut i: usize = 0;
    while i < node_ids.len()
        invariant
            i <= node_ids@.len(),
            forall|id: NodeId|
                dealers@.contains(id) <==> exists|j: int| 0 <= j < i && node_ids@[j] == id,
        decreases node_ids@.len() - i,
    {
        dealers.insert(node_ids[i]);
        i = i + 1;
    }
    assert(dealers@ =~= node_ids@.to_set());
    dealers
}

} // verus!
