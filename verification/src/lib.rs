//! An addressed cross-thread message-delivery mechanism for a composite UI:
//! addressable per-instance state with an append-only log, a typed envelope
//! and routing rule, and a scope boundary that isolates each instance's state
//! from the application root.

pub mod channel;
pub mod comp;
pub mod laws;
pub mod log;
pub mod router;
pub mod scope;
pub mod text;
