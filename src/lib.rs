//! Process streaming and session reconciliation for a coding-agent CLI:
//! a normalizer for the agent's line protocol, a keyed process registry,
//! and the decisions that tie a spawned process to its session.
pub mod json;
pub mod protocol;
pub mod table;
pub mod registry;
pub mod session;
pub mod pump;
pub mod models;
pub mod paths;
pub mod transcript;
pub mod chat;
pub mod records;
