//! Rate-based model of insect path integration and homing.
//!
//! The library holds the structure of the simulation: the schedule of a
//! flight, the order in which one tick computes the populations of the network
//! and what each of them is handed, the order in which weights are built and
//! noise is drawn, the layout and the integration of plastic weights, and the
//! synthesis of outbound trajectories. It is generic in the type that carries
//! firing rates, weights and kinematic states: the arithmetic on them is
//! handed in by the caller, and every contract is stated in terms of it.

pub mod constants;
pub mod layout;
pub mod memory;
pub mod movement;
pub mod network;
pub mod noise;
pub mod topology;
pub mod trial;
