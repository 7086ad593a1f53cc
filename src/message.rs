use vstd::prelude::*;

use crate::node_state::{bumped, stored, trails_of, with_neighbor, NodeState, NodeStats};
use crate::pheromone::Pheromone;
use crate::types::{ConsensusValue, NodeId};

verus! {

/// The messages nodes exchange.
#[derive(Debug)]
pub enum Message {
    /// A pheromone sent to every peer.
    PheromoneBroadcast { pheromone: Pheromone, sender: NodeId },
    /// An ant moved from one node to another.
    AntMovement {
        ant_id: u64,
        from_node: NodeId,
        to_node: NodeId,
        carried_pheromone: Option<Pheromone>,
    },
    /// A node's list of its neighbors.
    NeighborDiscovery { node_id: NodeId, neighbors: Vec<NodeId> },
    /// A node reached consensus on a value.
    ConsensusAnnouncement { node_id: NodeId, value: ConsensusValue },
    /// A node is alive.
    Heartbeat { node_id: NodeId, timestamp: u64 },
}

/// The neighbor list after learning of each of `list`, in order.
pub open spec fn with_neighbors(ns: Seq<NodeId>, id: NodeId, list: Seq<NodeId>) -> Seq<NodeId>
    decreases list.len(),
{
    if list.len() == 0 {
        ns
    } else {
        with_neighbor(with_neighbors(ns, id, list.drop_last()), id, list.last())
    }
}

/// The node that sent a message.
pub open spec fn sender_of(m: Message) -> NodeId {
    match m {
        Message::PheromoneBroadcast { sender, .. } => sender,
        Message::AntMovement { from_node, .. } => from_node,
        Message::NeighborDiscovery { node_id, .. } => node_id,
        Message::ConsensusAnnouncement { node_id, .. } => node_id,
        Message::Heartbeat { node_id, .. } => node_id,
    }
}

impl Message {
    /// The node that sent this message.
    pub fn sender(&self) -> (r: Option<NodeId>)
        ensures
            r == Some(sender_of(*self)),
    {
        match self {
            Message::PheromoneBroadcast { sender, .. } => Some(*sender),
            Message::AntMovement { from_node, .. } => Some(*from_node),
            Message::NeighborDiscovery { node_id, .. } => Some(*node_id),
            Message::ConsensusAnnouncement { node_id, .. } => Some(*node_id),
            Message::Heartbeat { node_id, .. } => Some(*node_id),
        }
    }
}

impl NodeState {
    /// Apply a message received from the network.
    ///
    /// A pheromone broadcast from another node makes its sender a neighbor
    /// and is stored; an ant arriving here hands over its pheromone; a
    /// discovery or heartbeat from another node makes the announcer (and
    /// the neighbors it lists) neighbors. Consensus announcements change
    /// nothing: a node latches a value only from its own trails.
    pub fn handle_message(&mut self, message: Message)
        requires
            old(self).wf(),
        ensures
            final(self).wf(),
            final(self).id == old(self).id,
            final(self).current_value == old(self).current_value,
            final(self).ants@ == old(self).ants@,
            final(self).evaporation_rate == old(self).evaporation_rate,
            match message {
                Message::PheromoneBroadcast { pheromone, sender } => if sender == old(self).id {
                    final(self).pheromones@ == old(self).pheromones@ && final(self).neighbors@
                        == old(self).neighbors@ && final(self).stats == old(self).stats
                } else {
                    &&& final(self).neighbors@ == with_neighbor(
                        old(self).neighbors@,
                        old(self).id,
                        sender,
                    )
                    &&& trails_of(final(self).pheromones@) == stored(
                        trails_of(old(self).pheromones@),
                        pheromone@,
                    )
                    &&& final(self).stats == (NodeStats {
                        pheromones_received: bumped(old(self).stats.pheromones_received),
                        ..old(self).stats
                    })
                },
                Message::AntMovement { to_node, carried_pheromone, .. } => {
                    &&& final(self).neighbors@ == old(self).neighbors@
                    &&& (to_node == old(self).id && carried_pheromone is Some) ==> trails_of(final(self).pheromones@) == stored(
                        trails_of(old(self).pheromones@),
                        carried_pheromone->Some_0@,
                    ) && final(self).stats == (NodeStats {
                        pheromones_received: bumped(old(self).stats.pheromones_received),
                        ..old(self).stats
                    })
                    &&& !(to_node == old(self).id && carried_pheromone is Some) ==> final(self).pheromones@ == old(self).pheromones@ && final(self).stats == old(self).stats
                },
                Message::NeighborDiscovery { node_id, neighbors } => {
                    &&& final(self).pheromones@ == old(self).pheromones@
                    &&& final(self).stats == old(self).stats
                    &&& final(self).neighbors@ == if node_id == old(self).id {
                        old(self).neighbors@
                    } else {
                        with_neighbors(old(self).neighbors@, old(self).id, seq![node_id] + neighbors@)
                    }
                },
                Message::ConsensusAnnouncement { .. } => {
                    &&& final(self).pheromones@ == old(self).pheromones@
                    &&& final(self).stats == old(self).stats
                    &&& final(self).neighbors@ == old(self).neighbors@
                },
                Message::Heartbeat { node_id, .. } => {
                    &&& final(self).pheromones@ == old(self).pheromones@
                    &&& final(self).stats == old(self).stats
                    &&& final(self).neighbors@ == if node_id == old(self).id {
                        old(self).neighbors@
                    } else {
                        with_neighbor(old(self).neighbors@, old(self).id, node_id)
                    }
                },
            },
    {
        match message {
            Message::PheromoneBroadcast { pheromone, sender } => {
                if sender != self.id {
                    self.add_neighbor(sender);
                    self.receive_pheromone(pheromone);
                }
            },
            Message::AntMovement { to_node, carried_pheromone, .. } => {
                if to_node == self.id {
                    if let Some(pheromone) = carried_pheromone {
                        self.receive_pheromone(pheromone);
                    }
                }
            },
            Message::NeighborDiscovery { node_id, neighbors } => {
                if node_id != self.id {
                    let ghost before = self.neighbors@;
                    self.add_neighbor(node_id);
                    let ghost list = seq![node_id] + neighbors@;
                    assert(list.subrange(0, 1).drop_last() =~= Seq::<NodeId>::empty());
                    assert(list.subrange(0, 1).last() == node_id);
                    assert(with_neighbors(before, self.id, Seq::<NodeId>::empty()) == before);
                    let mut i: usize = 0;
                    while i < neighbors.len()
                        invariant
                            i <= neighbors@.len(),
                            list == seq![node_id] + neighbors@,
                            self.wf(),
                            self.id == old(self).id,
                            self.current_value == old(self).current_value,
                            self.ants@ == old(self).ants@,
                            self.evaporation_rate == old(self).evaporation_rate,
                            self.pheromones@ == old(self).pheromones@,
                            self.stats == old(self).stats,
                            before == old(self).neighbors@,
                            self.neighbors@ == with_neighbors(before, self.id, list.subrange(0, i + 1)),
                        decreases neighbors@.len() - i,
                    {
                        assert(list.subrange(0, i + 2).drop_last() =~= list.subrange(0, i + 1));
                        self.add_neighbor(neighbors[i]);
                        i = i + 1;
                    }
                    assert(list.subrange(0, i + 1) =~= list);
                }
            },
            Message::ConsensusAnnouncement { .. } => {},
            Message::Heartbeat { node_id, .. } => {
                if node_id != self.id {
                    self.add_neighbor(node_id);
                }
            },
        }
    }
}

} // verus!
