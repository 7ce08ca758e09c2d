//! A safety and boundary layer over a native coordinate-reference-system
//! transformation engine.
//!
//! The engine is reached through an opaque-handle C ABI. This library holds
//! the decisions of that layer: which engine call comes next, when a resource
//! must be destroyed, how a failure is reported. Each operation is a task that
//! names the engine call it is waiting for and is resumed with the engine's
//! reply; the caller performs the calls.

pub mod boundary;
pub mod channel;
pub mod error;
pub mod handle;
pub mod laws;
pub mod ledger;
pub mod sys;
pub mod text;
pub mod transform;
pub mod translate;

pub use error::ProjError;
pub use handle::Proj;
