//! The bridge service's decisions: provider registry, metrics, and the handling of
//! commands, queries and streamed answers.

pub mod bridge;
pub mod command;
pub mod stream;
