//! Column witnessing gadget for a layered-encoding proof circuit.
//!
//! The gadget sits at the boundary where plain cryptographic domain values
//! become proof-system witnesses: a plain per-layer column is turned into a
//! witness column, allocated as constraint-system variables, and folded into
//! a single hash digest that the surrounding circuit checks against a public
//! commitment.

pub mod column;
pub mod system;

pub use column::{AllocatedColumn, Column, PublicParams, VanillaColumn};
pub use system::{ColumnCS, ColumnVariable, SynthesisFailure};
