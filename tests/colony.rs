use antcolony_consensus::ant_agent::AntAgent;
use antcolony_consensus::colony::NEIGHBOR_PATH_INTENSITY;
use antcolony_consensus::message::Message;
use antcolony_consensus::node_state::NodeState;
use antcolony_consensus::pheromone::{Pheromone, INTENSITY_ONE};
use antcolony_consensus::types::{ConsensusError, ConsensusValue};

fn marker(value: &ConsensusValue, source: u32) -> Pheromone {
    Pheromone::new_at(value.clone(), source, &[], 1_700_000_000).unwrap()
}

#[test]
fn message_sender_and_variant() {
    let value = ConsensusValue::from_string("test");
    let message = Message::PheromoneBroadcast { pheromone: marker(&value, 1), sender: 1 };
    assert_eq!(message.sender(), Some(1));
    match message {
        Message::PheromoneBroadcast { sender, pheromone } => {
            assert_eq!(sender, 1);
            assert_eq!(pheromone.value, value);
        }
        _ => panic!("Wrong message type"),
    }
    let hb = Message::Heartbeat { node_id: 9, timestamp: 3 };
    assert_eq!(hb.sender(), Some(9));
    let mv = Message::AntMovement { ant_id: 1, from_node: 4, to_node: 5, carried_pheromone: None };
    assert_eq!(mv.sender(), Some(4));
}

#[test]
fn broadcast_from_peer_is_stored() {
    let value = ConsensusValue::from_string("test");
    let mut node = NodeState::new(1);
    node.handle_message(Message::PheromoneBroadcast { pheromone: marker(&value, 2), sender: 2 });
    assert_eq!(node.neighbors, vec![2]);
    assert_eq!(node.pheromones.len(), 1);
    assert_eq!(node.get_stats().pheromones_received, 1);
}

#[test]
fn own_broadcast_is_ignored() {
    let value = ConsensusValue::from_string("test");
    let mut node = NodeState::new(1);
    node.handle_message(Message::PheromoneBroadcast { pheromone: marker(&value, 1), sender: 1 });
    assert!(node.neighbors.is_empty());
    assert!(node.pheromones.is_empty());
}

#[test]
fn arriving_ant_hands_over_its_pheromone() {
    let value = ConsensusValue::from_string("test");
    let mut node = NodeState::new(1);
    node.handle_message(Message::AntMovement {
        ant_id: 5,
        from_node: 2,
        to_node: 3,
        carried_pheromone: Some(marker(&value, 2)),
    });
    assert!(node.pheromones.is_empty());
    node.handle_message(Message::AntMovement {
        ant_id: 5,
        from_node: 2,
        to_node: 1,
        carried_pheromone: Some(marker(&value, 2)),
    });
    assert_eq!(node.pheromones.len(), 1);
    assert!(node.neighbors.is_empty());
}

#[test]
fn discovery_and_heartbeat_add_neighbors() {
    let mut node = NodeState::new(1);
    node.handle_message(Message::NeighborDiscovery { node_id: 4, neighbors: vec![1, 5, 4, 6] });
    assert_eq!(node.neighbors, vec![4, 5, 6]);
    node.handle_message(Message::NeighborDiscovery { node_id: 1, neighbors: vec![8] });
    assert_eq!(node.neighbors, vec![4, 5, 6]);
    node.handle_message(Message::Heartbeat { node_id: 7, timestamp: 0 });
    node.handle_message(Message::Heartbeat { node_id: 1, timestamp: 0 });
    assert_eq!(node.neighbors, vec![4, 5, 6, 7]);
    let value = ConsensusValue::from_string("x");
    node.handle_message(Message::ConsensusAnnouncement { node_id: 9, value });
    assert_eq!(node.neighbors, vec![4, 5, 6, 7]);
    assert!(node.current_value.is_none());
}

#[test]
fn step_announces_consensus() {
    let value = ConsensusValue::from_string("test");
    let mut node = NodeState::new(1);
    node.receive_pheromone(marker(&value, 2));
    let outcome = node.step();
    assert_eq!(outcome.consensus, Some(value.clone()));
    assert_eq!(node.current_value, Some(value.clone()));
    match &outcome.outgoing[0] {
        Message::ConsensusAnnouncement { node_id, value: v } => {
            assert_eq!(*node_id, 1);
            assert_eq!(*v, value);
        }
        _ => panic!("Wrong message type"),
    }
    assert_eq!(node.pheromones[0].pheromones[0].intensity, INTENSITY_ONE / 100 * 99);
}

#[test]
fn step_moves_ants_to_neighbors() {
    let mut node = NodeState::new(1);
    node.add_neighbor(2);
    node.add_neighbor(3);
    node.add_ant(AntAgent::new(10, 1));
    node.add_ant(AntAgent::new(11, 9));
    let outcome = node.step();
    assert!(outcome.consensus.is_none());
    assert_eq!(outcome.outgoing.len(), 1);
    match &outcome.outgoing[0] {
        Message::AntMovement { ant_id, from_node, to_node, carried_pheromone } => {
            assert_eq!(*ant_id, 10);
            assert_eq!(*from_node, 1);
            assert!(*to_node == 2 || *to_node == 3);
            assert!(carried_pheromone.is_none());
        }
        _ => panic!("Wrong message type"),
    }
    assert!(node.ants[0].current_node == 2 || node.ants[0].current_node == 3);
    assert_eq!(node.ants[1].current_node, 9);
    assert_eq!(node.ants[0].energy_level, 999);
}

#[test]
fn neighbor_intensities_are_uniform() {
    let mut node = NodeState::new(1);
    node.add_neighbor(2);
    node.add_neighbor(3);
    assert_eq!(
        node.get_pheromone_intensities(),
        vec![(2, NEIGHBOR_PATH_INTENSITY), (3, NEIGHBOR_PATH_INTENSITY)]
    );
    assert_eq!(NEIGHBOR_PATH_INTENSITY, INTENSITY_ONE / 2);
}

#[test]
fn proposal_emits_and_sends_explorers() {
    let value = ConsensusValue::from_string("test");
    let mut node = NodeState::new(1);
    for n in 2..9 {
        node.add_neighbor(n);
    }
    let message = node.emit_proposal(value.clone(), &[0u8; 32]).unwrap();
    match message {
        Message::PheromoneBroadcast { sender, pheromone } => {
            assert_eq!(sender, 1);
            assert_eq!(pheromone.value, value);
        }
        _ => panic!("Wrong message type"),
    }
    let mut next_id: u64 = 1;
    node.create_explorer_ants(value.clone(), &[0u8; 32], &mut next_id).unwrap();
    assert_eq!(next_id, 6);
    assert_eq!(node.ants.len(), 5);
    assert_eq!(node.ants[0].id, 1);
    assert_eq!(node.ants[4].id, 5);
    assert_eq!(node.pheromones[0].pheromones.len(), 6);
    assert_eq!(node.get_stats().pheromones_emitted, 6);
    assert_eq!(node.get_stats().ants_created, 5);
}

#[test]
fn no_explorers_without_neighbors() {
    let value = ConsensusValue::from_string("test");
    let mut node = NodeState::new(1);
    let mut next_id: u64 = 1;
    node.create_explorer_ants(value, &[], &mut next_id).unwrap();
    assert!(node.ants.is_empty());
    assert_eq!(next_id, 1);
}

#[test]
fn proposal_with_malformed_key_fails_with_crypto_error() {
    let value = ConsensusValue::from_string("test");
    let mut node = NodeState::new(1);
    node.add_neighbor(2);
    let r = node.emit_proposal(value.clone(), &[1, 2, 3]);
    assert!(matches!(r, Err(ConsensusError::Crypto(_))));
    let mut next_id: u64 = 10;
    let r = node.create_explorer_ants(value, &[1, 2, 3], &mut next_id);
    assert!(matches!(r, Err(ConsensusError::Crypto(_))));
    assert_eq!(next_id, 11);
    assert!(node.ants.is_empty());
    assert!(node.pheromones.is_empty());
}

#[test]
fn explorer_ids_wrap_at_the_maximum() {
    let value = ConsensusValue::from_string("test");
    let mut node = NodeState::new(1);
    node.add_neighbor(2);
    node.add_neighbor(3);
    let mut next_id: u64 = u64::MAX;
    node.create_explorer_ants(value, &[], &mut next_id).unwrap();
    assert_eq!(node.ants[0].id, u64::MAX);
    assert_eq!(node.ants[1].id, 0);
    assert_eq!(next_id, 1);
}

#[test]
fn movement_message_carries_the_ants_pheromone() {
    let value = ConsensusValue::from_string("test");
    let mut node = NodeState::new(1);
    node.add_neighbor(2);
    node.add_ant(AntAgent::with_pheromone(4, 1, marker(&value, 1)));
    let messages = node.move_ants();
    assert_eq!(messages.len(), 1);
    match &messages[0] {
        Message::AntMovement { ant_id, from_node, to_node, carried_pheromone } => {
            assert_eq!(*ant_id, 4);
            assert_eq!(*from_node, 1);
            assert_eq!(*to_node, 2);
            assert_eq!(carried_pheromone.as_ref().unwrap().value, value);
        }
        _ => panic!("Wrong message type"),
    }
    assert_eq!(node.ants[0].current_node, 2);
    assert!(node.ants[0].visited_nodes.contains(&2));
    assert!(node.move_ants().is_empty());
}

#[test]
fn step_without_consensus_sends_no_announcement() {
    let value = ConsensusValue::from_string("test");
    let mut node = NodeState::new(1);
    let mut p = marker(&value, 2);
    p.intensity = INTENSITY_ONE / 2;
    node.receive_pheromone(p);
    let outcome = node.step();
    assert!(outcome.consensus.is_none());
    assert!(outcome.outgoing.is_empty());
    assert_eq!(node.get_stats().consensus_reached, 0);
}
