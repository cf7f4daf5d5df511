//! The verified core of a safety layer over a native IR engine.
//!
//! The engine hands out raw handles, integer codes and byte buffers. This
//! crate holds every decision the layer takes on them: which codes mean what,
//! when a handle is usable, how a buffer becomes a string, and what a failed
//! verification turns into. The calls into the engine are made by the code
//! around this crate, which passes the engine's answers in as plain values.
mod context;
mod module;
pub mod utils;
pub mod value;

pub use context::Context;
pub use module::{verify_outcome, Module};
