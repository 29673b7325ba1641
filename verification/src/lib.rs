//! Health-check relay: the decisions of a backend that asks a fixed status
//! endpoint for its health on behalf of a caller that cannot reach it.
//!
//! The crate performs no I/O. A host drives one [`relay::RelayState`] per
//! invocation: it carries out each [`relay::Action`] and reports what happened
//! as an [`relay::Event`].

pub mod config;
pub mod document;
pub mod exchange;
pub mod failure;
pub mod link;
pub mod pool;
pub mod relay;
pub mod run;
pub mod status;
pub mod transport;
