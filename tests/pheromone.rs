use antcolony_consensus::pheromone::{
    Pheromone, CONSENSUS_THRESHOLD, INITIAL_PHEROMONE_INTENSITY, INTENSITY_ONE,
    MIN_PHEROMONE_INTENSITY,
};
use antcolony_consensus::types::{ConsensusError, ConsensusValue};

fn fraction(x: f64) -> u64 {
    (x * INTENSITY_ONE as f64).round() as u64
}

#[test]
fn test_pheromone_creation() {
    let value = ConsensusValue::from_string("test");
    let private_key = vec![0u8; 32];

    let pheromone = Pheromone::new(value.clone(), 1, &private_key);
    assert!(pheromone.is_ok());

    let p = pheromone.unwrap();
    assert_eq!(p.source, 1);
    assert_eq!(p.value, value);
    assert_eq!(p.intensity, INITIAL_PHEROMONE_INTENSITY);
}

#[test]
fn pheromone_test_pheromone_evaporation() {
    let value = ConsensusValue::from_string("test");
    let private_key = vec![0u8; 32];

    let mut pheromone = Pheromone::new(value, 1, &private_key).unwrap();
    let initial_intensity = pheromone.intensity;

    pheromone.evaporate(fraction(0.1));
    assert!(pheromone.intensity < initial_intensity);
}

#[test]
fn pheromone_decay_scenario() {
    let value = ConsensusValue::from_string("test");
    let mut p = Pheromone::new_at(value, 1, &[], 0).unwrap();
    assert_eq!(p.intensity, INTENSITY_ONE);
    p.evaporate(fraction(0.1));
    let as_real = p.intensity as f64 / INTENSITY_ONE as f64;
    assert!((as_real - 0.9).abs() <= 1e-12);
    for _ in 0..100 {
        p.evaporate(fraction(0.01));
    }
    assert!(p.intensity < fraction(0.5));
}

#[test]
fn evaporation_rate_is_clamped() {
    let value = ConsensusValue::from_string("test");
    let mut p = Pheromone::new_at(value, 1, &[], 0).unwrap();
    p.evaporate(0);
    assert_eq!(p.intensity, INTENSITY_ONE);
    p.evaporate(2 * INTENSITY_ONE);
    assert_eq!(p.intensity, 0);
    assert!(p.should_remove());
}

#[test]
fn strength_thresholds() {
    let value = ConsensusValue::from_string("test");
    let mut p = Pheromone::new_at(value, 1, &[], 0).unwrap();
    p.intensity = CONSENSUS_THRESHOLD;
    assert!(p.is_strong_enough());
    assert_eq!(p.strength(), CONSENSUS_THRESHOLD);
    p.intensity = CONSENSUS_THRESHOLD - 1;
    assert!(!p.is_strong_enough());
    p.intensity = MIN_PHEROMONE_INTENSITY;
    assert!(!p.should_remove());
    p.intensity = MIN_PHEROMONE_INTENSITY - 1;
    assert!(p.should_remove());
}

#[test]
fn canonical_message_layout() {
    let value = ConsensusValue::from_string("test");
    let m = Pheromone::create_message(&value, 0x0102030405060708, 0x0a0b0c0d);
    assert_eq!(m.len(), 44);
    assert_eq!(&m[..32], &value.hash[..]);
    assert_eq!(&m[32..40], &[1, 2, 3, 4, 5, 6, 7, 8]);
    assert_eq!(&m[40..], &[10, 11, 12, 13]);
}

#[test]
fn unset_key_gives_placeholder_signature() {
    let value = ConsensusValue::from_string("test");
    let p = Pheromone::new_at(value, 4, &[], 99).unwrap();
    assert_eq!(p.signature, vec![0u8; 64]);
    assert_eq!(p.timestamp, 99);
    assert_eq!(p.source, 4);
}

#[test]
fn malformed_key_is_a_crypto_error() {
    let value = ConsensusValue::from_string("test");
    let r = Pheromone::new_at(value, 4, &[1, 2, 3], 99);
    assert!(matches!(r, Err(ConsensusError::Crypto(_))));
}

#[test]
fn creation_uses_the_clock() {
    let value = ConsensusValue::from_string("test");
    let p = Pheromone::new(value, 1, &[]).unwrap();
    assert!(p.timestamp > 1_600_000_000);
}

#[test]
fn hex_digest_of_test() {
    let value = ConsensusValue::from_string("test");
    assert_eq!(
        value.to_hex(),
        "9f86d081884c7d659a2feaa0c55ad015a3bf4f1b2b0b822cd15d6c15b0f00a08"
    );
    assert!(value.same_as(&ConsensusValue::from_bytes(b"test")));
    assert!(!value.same_as(&ConsensusValue::from_string("different")));
}
