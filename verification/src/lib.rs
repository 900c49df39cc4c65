//! Process-multiplexing core for a desktop terminal: pseudo-terminal sessions
//! are registered in a store, their raw byte output is classified into typed
//! events (output, bell, title, metrics, exit), and the lifecycle guarantees
//! exactly one exit notification per session.

pub mod config;
pub mod events;
pub mod laws;
pub mod lifecycle;
pub mod metrics;
pub mod pump;
pub mod scanner;
pub mod shell;
pub mod store;
pub mod utils;
pub mod validation;
