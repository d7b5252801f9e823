//! Handles, solver switches, disjoint access to two bodies, and the broad phase.

pub mod world;

pub use world::{bodies_two_mut, BodyHandle, JointHandle, WorldConfig};
