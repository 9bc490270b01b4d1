//! Equi-X backend: primitive bindings, solver engine, and the seed-based
//! solving surface.

pub mod bundle;
pub mod engine;
pub mod primitive;
pub mod solver;
pub mod types;

pub use engine::{EquixEngine, EquixEngineBuilder};

pub use crate::types::{Proof, ProofBundle, ProofConfig};
