//! Conversations with a language model.

pub mod agents;
pub mod chat;
pub mod prompt;
pub mod tools;
