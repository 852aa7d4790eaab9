//! Helpers on the set of nodes that store a log: whether all of them are out
//! of service, and the order in which a reader tries them.

use vstd::prelude::*;
use vstd::std_specs::convert::FromSpecImpl;
use rand::seq::SliceRandom;
use crate::identifiers::{GenerationalNodeId, PlainNodeId};

verus! {

/// What a log server may be used for.
#[derive(Clone, Copy, Debug, PartialEq, Eq, Structural, Hash)]
pub enum StorageState {
    /// The node was added and has not yet taken up its work.
    Provisioning,
    /// The node stores nothing and takes nothing.
    Disabled,
    /// The node serves reads and takes no writes.
    ReadOnly,
    /// The node serves reads and takes writes.
    ReadWrite,
    /// The node has lost what it stored.
    DataLoss,
}

impl StorageState {
    pub fn is_disabled(&self) -> (disabled: bool)
        ensures
            disabled == (*self == StorageState::Disabled),
    {
        matches!(self, StorageState::Disabled)
    }

    pub fn is_provisioning(&self) -> (provisioning: bool)
        ensures
            provisioning == (*self == StorageState::Provisioning),
    {
        matches!(self, StorageState::Provisioning)
    }
}

/// The storage state that `entries` give for `node`: that of the first entry
/// for the node, and `Disabled` for a node that has none.
pub open spec fn storage_state_in(
    entries: Seq<(PlainNodeId, StorageState)>,
    node: PlainNodeId,
) -> StorageState
    decreases entries.len(),
{
    if entries.len() == 0 {
        StorageState::Disabled
    } else if entries[0].0 == node {
        entries[0].1
    } else {
        storage_state_in(entries.drop_first(), node)
    }
}

/// What the cluster's configuration says of its log servers.
#[derive(Debug)]
pub struct NodesConfiguration {
    pub log_servers: Vec<(PlainNodeId, StorageState)>,
}

impl NodesConfiguration {
    pub fn new() -> (config: Self)
        ensures
            config.log_servers@ == Seq::<(PlainNodeId, StorageState)>::empty(),
    {
        NodesConfiguration { log_servers: Vec::new() }
    }

    /// The storage state of `node_id`; `Disabled` for a node that the
    /// configuration does not know.
    pub fn get_log_server_storage_state(&self, node_id: &PlainNodeId) -> (state: StorageState)
        ensures
            state == storage_state_in(self.log_servers@, *node_id),
    {
        let mut i: usize = 0;
        assert(self.log_servers@.subrange(0, self.log_servers@.len() as int)
            =~= self.log_servers@);
        while i < self.log_servers.len()
            invariant
                i <= self.log_servers.len(),
                storage_state_in(self.log_servers@, *node_id) == storage_state_in(
                    self.log_servers@.subrange(i as int, self.log_servers@.len() as int),
                    *node_id,
                ),
            decreases self.log_servers.len() - i,
        {
            let ghost rest = self.log_servers@.subrange(i as int, self.log_servers@.len() as int);
            if self.log_servers[i].0.0 == node_id.0 {
                assert(rest[0] == self.log_servers@[i as int]);
                return self.log_servers[i].1;
            }
            assert(rest.drop_first() =~= self.log_servers@.subrange(
                i as int + 1,
                self.log_servers@.len() as int,
            ));
            assert(rest[0] == self.log_servers@[i as int]);
            i += 1;
        }
        assert(self.log_servers@.subrange(i as int, self.log_servers@.len() as int).len() == 0);
        StorageState::Disabled
    }
}

/// The nodes that store a log, in an order of their own.
#[derive(Debug)]
pub struct NodeSet {
    pub nodes: Vec<PlainNodeId>,
}

impl View for NodeSet {
    type V = Seq<PlainNodeId>;

    open spec fn view(&self) -> Seq<PlainNodeId> {
        self.nodes@
    }
}

impl From<u32> for PlainNodeId {
    fn from(id: u32) -> (node: PlainNodeId) {
        PlainNodeId(id)
    }
}

impl FromSpecImpl<u32> for PlainNodeId {
    open spec fn obeys_from_spec() -> bool {
        true
    }

    open spec fn from_spec(id: u32) -> PlainNodeId {
        PlainNodeId(id)
    }
}

impl From<GenerationalNodeId> for PlainNodeId {
    fn from(node: GenerationalNodeId) -> (plain: PlainNodeId) {
        node.id
    }
}

impl FromSpecImpl<GenerationalNodeId> for PlainNodeId {
    open spec fn obeys_from_spec() -> bool {
        true
    }

    open spec fn from_spec(node: GenerationalNodeId) -> PlainNodeId {
        node.id
    }
}

/// Whether `node` stands at place `i` of `nodes` and at no earlier place.
pub open spec fn first_at(nodes: Seq<PlainNodeId>, i: int, node: PlainNodeId) -> bool {
    &&& 0 <= i < nodes.len()
    &&& nodes[i] == node
    &&& forall|j: int| 0 <= j < i ==> nodes[j] != node
}

/// `nodes` with the elements at places `a` and `b` exchanged.
pub open spec fn exchanged(nodes: Seq<PlainNodeId>, a: int, b: int) -> Seq<PlainNodeId> {
    nodes.update(a, nodes[b]).update(b, nodes[a])
}

/// What a reader gets from a shuffle of the set: where `node` stands at
/// place `i` of the set's own order, the shuffle with its place `i` and its
/// last place exchanged; where the set does not hold `node`, the shuffle as
/// it is.
pub open spec fn placed_for_reads(
    order: Seq<PlainNodeId>,
    shuffled: Seq<PlainNodeId>,
    node: PlainNodeId,
) -> Seq<PlainNodeId> {
    if order.contains(node) {
        exchanged(shuffled, choose|i: int| first_at(order, i, node), shuffled.len() - 1)
    } else {
        shuffled
    }
}

/// Exchanging two elements of a list leaves each element as often in the
/// list as it was.
pub proof fn lemma_exchange_keeps_elements(nodes: Seq<PlainNodeId>, a: int, b: int)
    requires
        0 <= a < nodes.len(),
        0 <= b < nodes.len(),
    ensures
        exchanged(nodes, a, b).to_multiset() == nodes.to_multiset(),
{
    broadcast use vstd::multiset::group_multiset_axioms;

    let step = nodes.update(a, nodes[b]);
    vstd::seq_lib::to_multiset_update(nodes, a, nodes[b]);
    vstd::seq_lib::to_multiset_update(step, b, nodes[a]);
    nodes.to_multiset_ensures();
    assert(nodes.contains(nodes[a]));
    assert(nodes.contains(nodes[b]));
    assert(step[b] == nodes[b]);
    assert(exchanged(nodes, a, b).to_multiset() =~= nodes.to_multiset());
}

/// Calls `shuffle` of `rand::seq::SliceRandom` on the nodes, with the random
/// number generator of the thread, `rand::thread_rng()`. The shuffle
/// exchanges elements in place, so the nodes are the same ones afterwards,
/// each as often as before; their order is left to chance. The generator
/// faults where the system gives it no seed.
#[verifier::external_body]
fn shuffle_nodes(nodes: &mut Vec<PlainNodeId>)
    ensures
        final(nodes)@.to_multiset() == old(nodes)@.to_multiset(),
{
    nodes.shuffle(&mut rand::thread_rng());
}

/// Helpers for the set of nodes of a log.
pub trait LogNodeSetExt {
    /// Whether every node of the set is disabled.
    fn all_disabled(&self, nodes_config: &NodesConfiguration) -> bool;

    /// Whether every node of the set is provisioning.
    fn all_provisioning(&self, nodes_config: &NodesConfiguration) -> bool;

    /// The nodes in a random order for a reader on `my_node_id`.
    fn shuffle_for_reads<N: Into<PlainNodeId>>(&self, my_node_id: N) -> Vec<PlainNodeId>;
}

impl NodeSet {
    pub fn new() -> (set: Self)
        ensures
            set@ == Seq::<PlainNodeId>::empty(),
    {
        NodeSet { nodes: Vec::new() }
    }

    pub fn len(&self) -> (len: usize)
        ensures
            len == self@.len(),
    {
        self.nodes.len()
    }

    pub fn is_empty(&self) -> (empty: bool)
        ensures
            empty == (self@.len() == 0),
    {
        self.nodes.len() == 0
    }

    /// The first place at which `node` stands, if it stands at any.
    pub fn position(&self, node: PlainNodeId) -> (place: Option<usize>)
        ensures
            place is Some <==> self@.contains(node),
            place matches Some(i) ==> first_at(self@, i as int, node),
    {
        let mut i: usize = 0;
        while i < self.nodes.len()
            invariant
                i <= self.nodes.len(),
                forall|j: int| 0 <= j < i ==> self.nodes@[j] != node,
            decreases self.nodes.len() - i,
        {
            if self.nodes[i].0 == node.0 {
                return Some(i);
            }
            i += 1;
        }
        None
    }

    pub fn contains(&self, node: PlainNodeId) -> (held: bool)
        ensures
            held == self@.contains(node),
    {
        self.position(node).is_some()
    }

    /// Adds `node` unless the set holds it. Says whether it was added.
    pub fn insert(&mut self, node: PlainNodeId) -> (added: bool)
        ensures
            added == !old(self)@.contains(node),
            added ==> final(self)@ == old(self)@.push(node),
            !added ==> final(self)@ == old(self)@,
    {
        if self.contains(node) {
            false
        } else {
            self.nodes.push(node);
            true
        }
    }

    /// The nodes in their own order, copied.
    fn to_vec(&self) -> (nodes: Vec<PlainNodeId>)
        ensures
            nodes@ == self@,
    {
        let mut nodes: Vec<PlainNodeId> = Vec::new();
        let mut i: usize = 0;
        while i < self.nodes.len()
            invariant
                i <= self.nodes.len(),
                nodes@ == self.nodes@.subrange(0, i as int),
            decreases self.nodes.len() - i,
        {
            nodes.push(self.nodes[i]);
            assert(self.nodes@.subrange(0, i as int).push(self.nodes@[i as int])
                =~= self.nodes@.subrange(0, i as int + 1));
            i += 1;
        }
        assert(self.nodes@.subrange(0, i as int) =~= self.nodes@);
        nodes
    }

    /// Puts a shuffle of the set in the order for a reader on `my_node_id`:
    /// where the set holds the reader's node at place `i` of its own order,
    /// place `i` and the last place of the shuffle are exchanged.
    pub fn place_for_reads(&self, shuffled: Vec<PlainNodeId>, my_node_id: PlainNodeId) -> (placed:
        Vec<PlainNodeId>)
        requires
            shuffled@.len() == self@.len(),
        ensures
            placed@ == placed_for_reads(self@, shuffled@, my_node_id),
            placed@.to_multiset() == shuffled@.to_multiset(),
    {
        let mut placed = shuffled;
        match self.position(my_node_id) {
            Some(idx) => {
                let last: usize = placed.len() - 1;
                let at_idx = placed[idx];
                let at_last = placed[last];
                placed[idx] = at_last;
                placed[last] = at_idx;
                proof {
                    let chosen = choose|i: int| first_at(self@, i, my_node_id);
                    assert(first_at(self@, idx as int, my_node_id));
                    assert(chosen == idx) by {
                        if chosen < idx {
                            assert(self@[chosen] != my_node_id);
                        } else if idx < chosen {
                            assert(self@[idx as int] != my_node_id);
                        }
                    }
                    assert(placed@ =~= exchanged(shuffled@, idx as int, last as int));
                    lemma_exchange_keeps_elements(shuffled@, idx as int, last as int);
                }
            },
            None => {},
        }
        placed
    }
}

impl LogNodeSetExt for NodeSet {
    /// Whether every node of the set is disabled; true of the empty set.
    fn all_disabled(&self, nodes_config: &NodesConfiguration) -> (all: bool)
        ensures
            all == (forall|i: int|
                0 <= i < self@.len() ==> storage_state_in(
                    nodes_config.log_servers@,
                    #[trigger] self@[i],
                ) == StorageState::Disabled),
    {
        let mut i: usize = 0;
        while i < self.nodes.len()
            invariant
                i <= self.nodes.len(),
                forall|j: int|
                    0 <= j < i ==> storage_state_in(
                        nodes_config.log_servers@,
                        #[trigger] self.nodes@[j],
                    ) == StorageState::Disabled,
            decreases self.nodes.len() - i,
        {
            if !nodes_config.get_log_server_storage_state(&self.nodes[i]).is_disabled() {
                return false;
            }
            i += 1;
        }
        true
    }

    /// Whether every node of the set is provisioning; true of the empty set.
    fn all_provisioning(&self, nodes_config: &NodesConfiguration) -> (all: bool)
        ensures
            all == (forall|i: int|
                0 <= i < self@.len() ==> storage_state_in(
                    nodes_config.log_servers@,
                    #[trigger] self@[i],
                ) == StorageState::Provisioning),
    {
        let mut i: usize = 0;
        while i < self.nodes.len()
            invariant
                i <= self.nodes.len(),
                forall|j: int|
                    0 <= j < i ==> storage_state_in(
                        nodes_config.log_servers@,
                        #[trigger] self.nodes@[j],
                    ) == StorageState::Provisioning,
            decreases self.nodes.len() - i,
        {
            if !nodes_config.get_log_server_storage_state(&self.nodes[i]).is_provisioning() {
                return false;
            }
            i += 1;
        }
        true
    }

    /// Shuffles the nodes, then exchanges the last place of the shuffle with
    /// the place at which the set's own order holds the reader's node. The
    /// result holds the nodes of the set, each as often as the set does.
    fn shuffle_for_reads<N: Into<PlainNodeId>>(&self, my_node_id: N) -> (nodes: Vec<PlainNodeId>)
        ensures
            nodes@.to_multiset() == self@.to_multiset(),
            exists|node: PlainNodeId, shuffled: Seq<PlainNodeId>|
                {
                    &&& call_ensures(N::into, (my_node_id,), node)
                    &&& shuffled.to_multiset() == self@.to_multiset()
                    &&& #[trigger] placed_for_reads(self@, shuffled, node) == nodes@
                },
    {
        let my_node_id: PlainNodeId = my_node_id.into();
        let mut new_nodeset = self.to_vec();
        shuffle_nodes(&mut new_nodeset);
        let ghost shuffled = new_nodeset@;
        proof {
            shuffled.to_multiset_ensures();
            self@.to_multiset_ensures();
        }
        let placed = self.place_for_reads(new_nodeset, my_node_id);
        assert(placed_for_reads(self@, shuffled, my_node_id) == placed@);
        placed
    }
}

} // verus!
