//! Session/player lifecycle bridge for a streaming engine.
//!
//! The crate models the orchestration layer between a host application and an
//! asynchronous streaming engine: credential resolution, the
//! session -> player -> event-stream lifecycle, track-identifier handling in
//! the compact base-62 text form, and the translation of the engine's event
//! vocabulary into a frozen cross-boundary representation.

pub mod base62;
pub mod credentials;
pub mod events;
pub mod ids;
pub mod lifecycle;

pub use lifecycle::SpeckCore;
