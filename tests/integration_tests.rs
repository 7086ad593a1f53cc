use antcolony_consensus::ant_agent::AntAgent;
use antcolony_consensus::node_state::NodeState;
use antcolony_consensus::pheromone::{Pheromone, INTENSITY_ONE};
use antcolony_consensus::types::ConsensusValue;

fn fraction(x: f64) -> u64 {
    (x * INTENSITY_ONE as f64).round() as u64
}

#[test]
fn test_consensus_value_creation() {
    let value1 = ConsensusValue::from_string("test");
    let value2 = ConsensusValue::from_string("test");
    let value3 = ConsensusValue::from_string("different");

    assert_eq!(value1.hash, value2.hash);
    assert_ne!(value1.hash, value3.hash);
}

#[test]
fn test_node_state_operations() {
    let mut node = NodeState::new(1);

    node.add_neighbor(2);
    node.add_neighbor(3);

    assert_eq!(node.get_neighbors().len(), 2);
    assert!(node.get_neighbors().contains(&2));
    assert!(node.get_neighbors().contains(&3));
}

#[test]
fn integration_tests_test_pheromone_evaporation() {
    let value = ConsensusValue::from_string("test");
    let private_key = vec![0u8; 32];

    let mut pheromone = Pheromone::new(value, 1, &private_key).unwrap();
    let initial_intensity = pheromone.intensity;

    pheromone.evaporate(fraction(0.1));
    assert!(pheromone.intensity < initial_intensity);

    for _ in 0..100 {
        pheromone.evaporate(fraction(0.01));
    }

    assert!(pheromone.intensity < fraction(0.5));
}

#[test]
fn test_ant_agent_lifecycle() {
    let mut ant = AntAgent::new(1, 10);

    assert_eq!(ant.current_node, 10);
    assert!(ant.is_alive());

    let initial_energy = ant.energy_level;
    ant.update_energy();
    assert!(ant.energy_level < initial_energy);

    ant.move_to(11);
    assert_eq!(ant.current_node, 11);
    assert!(ant.visited_nodes.contains(&11));
}
