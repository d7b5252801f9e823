//! Narrow-phase features and the persistent contact manifold.

pub mod arbiter;
pub mod collide;

pub use arbiter::{ArbiterKey, FeaturePair};
pub use collide::{flip, Axis, EdgeNumber};
