//! A verified core for a commit-message assistant: it assembles a prompt
//! from the staged diff and the operator's options, extracts the suggested
//! subject line from the generation backend's reply, and gates the commit
//! behind an explicit confirmation.

pub mod ai;
pub mod cli;
pub mod config;
pub mod error;
pub mod pipeline;
pub mod prompt;
pub mod text;
