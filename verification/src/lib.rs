//! A flocking simulation on saturating fixed-point numbers.
pub mod fixed;
pub mod vector;
pub mod flock;
pub mod rules;
pub mod motion;
pub mod random;
pub mod simulator;
pub mod laws;
