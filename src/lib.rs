//! A registry of sandboxed WebAssembly execution contexts.
//!
//! `registry` holds the identity and lifecycle rules of the entries,
//! `context` wraps one loaded module instance with its capability set,
//! `sandbox` keeps the engine pieces of a context together, and
//! `messages` renders the status texts that both report.

pub mod context;
pub mod messages;
pub mod registry;
pub mod sandbox;
