//! The decisions of a secret-store adapter.
//!
//! An application keeps its secrets in the operating system's credential
//! store, one entry per key, all under one fixed service name. This crate
//! holds what the adapter decides on the way there and back: which entry a
//! key names ([`entry`]), of what kind a failure of the platform is, and what
//! the caller is told once the platform has answered ([`failure`]).
//! Talking to the platform itself is left to the host.
//!
//! [`store`] describes the platform store as far as the adapter relies on it,
//! and [`laws`] proves what then holds of operations that follow one another.

pub mod entry;
pub mod failure;
pub mod laws;
pub mod store;
