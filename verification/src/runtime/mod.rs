//! The turn runtime.

pub mod turn_shape;
