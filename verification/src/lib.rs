//! Startup sequencing for a parachain node that runs either as a collator or
//! as a syncing full node beside a relay chain.
//!
//! The services themselves (storage, transaction pool, import queue, network,
//! RPC server, role drivers) live outside this crate. What lives here is every
//! decision of the startup: which role a node takes, in which order the
//! services are built and started, which failure ends a start attempt with
//! which error, and how the informant lines of the two chains are marked.
//! A caller asks for the next action, performs it, and reports what happened.

pub mod assembly;
pub mod config;
pub mod error;
pub mod informant;
pub mod laws;
pub mod orchestrator;
pub mod role;
pub mod rpc;
pub mod wiring;
