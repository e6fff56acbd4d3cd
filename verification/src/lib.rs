//! Service control and synchronization engine.
//!
//! The library models the state of service units managed by an init daemon:
//! it plans and assembles unit catalogs from bus-level listings, composes the
//! command lines for privileged state changes and log queries, filters the
//! cached catalog, and drives a reconciler state machine that keeps a cached
//! view consistent under asynchronous completions. All host interaction (bus
//! calls, subprocess execution) is performed by the embedding program, which
//! feeds results back into the engine as plain values.

pub mod catalog;
pub mod commands;
pub mod engine;
pub mod message;
pub mod systemd;
pub mod text;
pub mod types;
