//! A mock actuator that stands in for a physical robot arm during integration
//! testing: it exposes the command surface of a real robot (home, pick,
//! place, disconnect) and resolves each command instantly through a
//! probabilistic outcome generator instead of driving hardware.

pub mod robot;

mod rng;
