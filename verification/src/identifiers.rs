//! Identifiers that the messages and the task table carry.

use vstd::prelude::*;

verus! {

/// The stable number of a cluster member.
#[derive(Clone, Copy, Debug, PartialEq, Eq, Structural, Hash)]
pub struct PlainNodeId(pub u32);

/// A cluster member across restarts: its stable number and the generation
/// that grows with every restart.
#[derive(Clone, Copy, Debug, PartialEq, Eq, Structural, Hash)]
pub struct GenerationalNodeId {
    pub id: PlainNodeId,
    pub generation: u32,
}

impl GenerationalNodeId {
    pub fn new(id: u32, generation: u32) -> (node: Self)
        ensures
            node.id == PlainNodeId(id),
            node.generation == generation,
    {
        GenerationalNodeId { id: PlainNodeId(id), generation }
    }

    /// The stable number without the generation.
    pub fn as_plain(&self) -> (plain: PlainNodeId)
        ensures
            plain == self.id,
    {
        self.id
    }
}

/// The version of one of the cluster's metadata documents.
#[derive(Clone, Copy, Debug, PartialEq, Eq, Structural, Hash)]
pub struct Version(pub u32);

/// The partition that a task works for.
#[derive(Clone, Copy, Debug, PartialEq, Eq, Structural, Hash)]
pub struct PartitionId(pub u16);

/// The number of a task, unique within the process.
#[derive(Clone, Copy, Debug, PartialEq, Eq, Structural, Hash)]
pub struct TaskId(pub u64);

} // verus!
