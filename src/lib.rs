//! Leader-less agreement on one opaque value, driven by decaying, signed
//! trail markers ("pheromones") and mobile explorer tokens ("ants").
//!
//! Intensities and energies are fixed-point integers: an intensity of
//! `INTENSITY_ONE` stands for 1.0, and ant energy is counted in tenths.
pub mod ant_agent;
pub mod colony;
pub mod hashing;
pub mod message;
pub mod node_state;
pub mod pheromone;
mod random;
pub mod signing;
pub mod types;
