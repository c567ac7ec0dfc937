//! Verified core of the atomr-agents Python bindings: the JSON model that
//! guest adapters exchange with Python, the decoding rules applied to what
//! guests return, the guest factory registry, and the small name tables and
//! defaults that the binding layer owns.

pub mod json;
pub mod text;
pub mod guest;
pub mod harness;
pub mod memory;
pub mod skill;
pub mod adapters;
pub mod eval;
pub mod inference;
pub mod version;
pub mod ctx;
pub mod agent;
pub mod names;
pub mod pipeline;
pub mod retrieval;
pub mod registry;
pub mod org;
pub mod observability;
pub mod projection;

pub use json::{Json, JsonNumber, JsonValue};
