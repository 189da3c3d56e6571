//! Driver-side logic for a population of independently simulated double
//! pendulums: where each member is placed, when frame statistics are
//! reported, and how one tick advances the members without any member
//! influencing another.
//!
//! The pendulum physics itself is floating-point work and lives with the
//! program that drives this library.
pub mod frames;
pub mod layout;
pub mod population;
pub mod simulation;
