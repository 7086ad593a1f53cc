use antcolony_consensus::ant_agent::{AntAgent, ANT_MEMORY_SIZE, INITIAL_ANT_ENERGY};
use antcolony_consensus::pheromone::{Pheromone, INTENSITY_ONE};
use antcolony_consensus::types::ConsensusValue;

fn fraction(x: f64) -> u64 {
    (x * INTENSITY_ONE as f64).round() as u64
}

#[test]
fn test_ant_creation() {
    let ant = AntAgent::new(1, 10);
    assert_eq!(ant.id, 1);
    assert_eq!(ant.current_node, 10);
    assert_eq!(ant.start_node, 10);
    assert_eq!(ant.energy_level, INITIAL_ANT_ENERGY);
    assert!(ant.is_alive());
}

#[test]
fn test_ant_energy_decay() {
    let mut ant = AntAgent::new(1, 10);
    let initial_energy = ant.energy_level;

    ant.update_energy();
    assert!(ant.energy_level < initial_energy);
}

#[test]
fn test_ant_node_selection() {
    let ant = AntAgent::new(1, 10);
    let neighbors = vec![11, 12, 13];
    let intensities = vec![(11, fraction(0.5)), (12, fraction(0.3)), (13, fraction(0.2))];

    let next = ant.select_next_node(&neighbors, &intensities);
    assert!(next.is_some());
    assert!(neighbors.contains(&next.unwrap()));
}

#[test]
fn ant_movement_scenario() {
    let mut ant = AntAgent::new(1, 10);
    ant.move_to(11);
    assert_eq!(ant.current_node, 11);
    assert!(ant.visited_nodes.contains(&10));
    assert!(ant.visited_nodes.contains(&11));
    assert_eq!(ant.visited_nodes.len(), 2);
}

#[test]
fn ant_energy_runs_out_after_one_thousand_steps() {
    let mut ant = AntAgent::new(1, 10);
    for _ in 0..999 {
        ant.update_energy();
        assert!(ant.is_alive());
    }
    ant.update_energy();
    assert_eq!(ant.energy_level, 0);
    assert!(!ant.is_alive());
    ant.update_energy();
    assert_eq!(ant.energy_level, 0);
}

#[test]
fn ant_memory_forgets_start_when_full() {
    let mut ant = AntAgent::new(1, 0);
    for node in 1..(ANT_MEMORY_SIZE as u32) {
        ant.move_to(node);
    }
    assert_eq!(ant.visited_nodes.len(), ANT_MEMORY_SIZE);
    assert!(ant.visited_nodes.contains(&0));
    ant.move_to(ANT_MEMORY_SIZE as u32);
    assert_eq!(ant.visited_nodes.len(), ANT_MEMORY_SIZE);
    assert!(!ant.visited_nodes.contains(&0));
    assert!(ant.visited_nodes.contains(&(ANT_MEMORY_SIZE as u32)));
    assert_eq!(ant.current_node, ANT_MEMORY_SIZE as u32);
}

#[test]
fn roulette_wheel_follows_the_draw() {
    let ant = AntAgent::new(1, 10);
    let neighbors = vec![11, 12, 13];
    let intensities = vec![(11, fraction(0.5)), (12, fraction(0.3)), (13, fraction(0.2))];
    assert_eq!(ant.select_next_node_with(&neighbors, &intensities, 0), Some(11));
    assert_eq!(ant.select_next_node_with(&neighbors, &intensities, fraction(0.5) as u128), Some(11));
    assert_eq!(ant.select_next_node_with(&neighbors, &intensities, fraction(0.5) as u128 + 1), Some(12));
    assert_eq!(ant.select_next_node_with(&neighbors, &intensities, fraction(0.8) as u128), Some(12));
    assert_eq!(ant.select_next_node_with(&neighbors, &intensities, fraction(0.8) as u128 + 1), Some(13));
    assert_eq!(ant.select_next_node_with(&neighbors, &intensities, fraction(1.0) as u128), Some(11));
}

#[test]
fn roulette_ties_go_to_the_earlier_neighbor() {
    let ant = AntAgent::new(1, 10);
    let neighbors = vec![11, 12];
    let intensities = vec![(11, fraction(0.5)), (12, fraction(0.5))];
    assert_eq!(ant.select_next_node_with(&neighbors, &intensities, fraction(0.5) as u128), Some(11));
}

#[test]
fn roulette_wheel_uses_default_intensity() {
    let ant = AntAgent::new(1, 10);
    let neighbors = vec![11, 12];
    let intensities = vec![(11, fraction(0.3))];
    assert_eq!(ant.select_next_node_with(&neighbors, &intensities, fraction(0.35) as u128), Some(12));
    assert_eq!(ant.select_next_node_with(&neighbors, &intensities, fraction(0.25) as u128), Some(11));
}

#[test]
fn selection_skips_visited_neighbors() {
    let mut ant = AntAgent::new(1, 10);
    ant.move_to(11);
    let neighbors = vec![10, 11, 12];
    assert_eq!(ant.select_next_node_with(&neighbors, &[], 0), Some(12));
    assert_eq!(ant.select_next_node(&neighbors, &[]), Some(12));
}

#[test]
fn selection_falls_back_to_first_neighbor_when_all_visited() {
    let mut ant = AntAgent::new(1, 10);
    ant.move_to(11);
    let neighbors = vec![11, 10];
    assert_eq!(ant.select_next_node(&neighbors, &[]), Some(11));
}

#[test]
fn selection_without_neighbors_is_none() {
    let ant = AntAgent::new(1, 10);
    assert_eq!(ant.select_next_node(&[], &[]), None);
    assert_eq!(ant.select_next_node_with(&[], &[], 5), None);
}

#[test]
fn zero_intensities_pick_uniformly_by_draw() {
    let ant = AntAgent::new(1, 10);
    let neighbors = vec![11, 12, 13];
    let intensities = vec![(11, 0), (12, 0), (13, 0)];
    assert_eq!(ant.select_next_node_with(&neighbors, &intensities, 0), Some(11));
    assert_eq!(ant.select_next_node_with(&neighbors, &intensities, 4), Some(12));
    assert_eq!(ant.select_next_node_with(&neighbors, &intensities, 2), Some(13));
    let r = ant.select_next_node(&neighbors, &intensities).unwrap();
    assert!(neighbors.contains(&r));
}

#[test]
fn carried_pheromone_is_dropped_and_picked_up() {
    let value = ConsensusValue::from_string("test");
    let p = Pheromone::new_at(value.clone(), 1, &[], 7).unwrap();
    let mut ant = AntAgent::with_pheromone(3, 1, p);
    let dropped = ant.drop_pheromone().unwrap();
    assert_eq!(dropped.timestamp, 7);
    assert!(ant.carried_pheromone.is_none());
    assert!(ant.drop_pheromone().is_none());
    ant.pick_up_pheromone(dropped);
    assert_eq!(ant.carried_pheromone.as_ref().unwrap().value, value);
}
