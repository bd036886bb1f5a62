//! Windowed search for valid identifiers in a sparse, odd-valued identifier space.

pub mod laws;
pub mod model;
pub mod predictor;
pub mod probe;
pub mod worker;
