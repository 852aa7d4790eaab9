//! The scopes by which the place of a node in the cluster is told: the node
//! itself, its zone, its region, and the root that holds them all. Two nodes
//! that share a smaller scope share every greater one.

use vstd::prelude::*;

verus! {

/// A scope of the cluster's topology, from the smallest to the greatest.
#[derive(Clone, Copy, Debug, PartialEq, Eq, Structural, PartialOrd, Ord, Hash)]
pub enum NodeLocationScope {
    /// Special: the smallest scope, a single node.
    Node,
    Zone,
    Region,
    /// Special: the scope that holds all others.
    Root,
}

impl NodeLocationScope {
    /// The place of the scope in the order, `Node` being 0.
    pub open spec fn rank(self) -> int {
        match self {
            NodeLocationScope::Node => 0,
            NodeLocationScope::Zone => 1,
            NodeLocationScope::Region => 2,
            NodeLocationScope::Root => 3,
        }
    }

    /// The scope at a place in the order, for the places that hold one.
    pub open spec fn at_rank(rank: int) -> Option<NodeLocationScope> {
        if rank == 0 {
            Some(NodeLocationScope::Node)
        } else if rank == 1 {
            Some(NodeLocationScope::Zone)
        } else if rank == 2 {
            Some(NodeLocationScope::Region)
        } else if rank == 3 {
            Some(NodeLocationScope::Root)
        } else {
            None
        }
    }

    /// The place of the scope in the order, `Node` being 0.
    pub fn as_u8(self) -> (rank: u8)
        ensures
            rank == self.rank(),
    {
        match self {
            NodeLocationScope::Node => 0,
            NodeLocationScope::Zone => 1,
            NodeLocationScope::Region => 2,
            NodeLocationScope::Root => 3,
        }
    }

    /// The scope just above this one; none above `Root`.
    pub fn next_greater_scope(self) -> (next: Option<Self>)
        ensures
            next == Self::at_rank(self.rank() + 1),
            next is None <==> self == NodeLocationScope::Root,
    {
        // the rank is at most 3, so the sum fits
        let next: u8 = self.as_u8() + 1;
        Self::from_u8(next)
    }

    /// The scope just below this one; none below `Node`.
    pub fn next_smaller_scope(self) -> (next: Option<Self>)
        ensures
            next == Self::at_rank(self.rank() - 1),
            next is None <==> self == NodeLocationScope::Node,
    {
        if matches!(self, NodeLocationScope::Node) {
            None
        } else {
            Self::from_u8(self.as_u8() - 1)
        }
    }

    /// Whether the scope is one of the two ends, which name no real place.
    pub fn is_special(self) -> (special: bool)
        ensures
            special == (self == NodeLocationScope::Root || self == NodeLocationScope::Node),
    {
        matches!(self, NodeLocationScope::Root | NodeLocationScope::Node)
    }

    /// How many scopes are not special.
    pub fn num_scopes() -> (count: usize)
        ensures
            count == NodeLocationScope::Root.rank() - 1,
            count == 2,
    {
        let root: usize = NodeLocationScope::Root.as_u8() as usize;
        root - 1
    }

    /// The scope at place `value` of the order, for 0 to 3.
    pub fn from_u8(value: u8) -> (scope: Option<Self>)
        ensures
            scope == Self::at_rank(value as int),
            scope is Some <==> value <= 3,
            scope matches Some(s) ==> s.rank() == value,
    {
        match value {
            0 => Some(NodeLocationScope::Node),
            1 => Some(NodeLocationScope::Zone),
            2 => Some(NodeLocationScope::Region),
            3 => Some(NodeLocationScope::Root),
            _ => None,
        }
    }
}

/// Every scope stands at its own rank, and the ranks go from 0 to 3.
pub proof fn lemma_rank_names_the_scope(scope: NodeLocationScope)
    ensures
        0 <= scope.rank() <= 3,
        NodeLocationScope::at_rank(scope.rank()) == Some(scope),
{
}

/// Going one scope up and one down again, or down and up, leads back.
pub proof fn lemma_neighbours_are_inverse(scope: NodeLocationScope)
    ensures
        NodeLocationScope::at_rank(scope.rank() + 1) matches Some(above)
            ==> NodeLocationScope::at_rank(above.rank() - 1) == Some(scope),
        NodeLocationScope::at_rank(scope.rank() - 1) matches Some(below)
            ==> NodeLocationScope::at_rank(below.rank() + 1) == Some(scope),
{
}

} // verus!
