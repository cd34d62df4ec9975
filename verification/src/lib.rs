//! Supervision core for interactive sessions served by stream-producing
//! child processes: launch planning, line decoding, the session registry
//! and the decisions of the orchestrator, each with a verified contract.

pub mod chat;
pub mod commands;
pub mod config;
pub mod error;
pub mod events;
pub mod explorer;
pub mod json;
pub mod launcher;
pub mod orchestrator;
pub mod probe;
pub mod registry;
pub mod session;
pub mod text;
