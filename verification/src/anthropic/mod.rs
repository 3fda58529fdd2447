//! The command-line coding assistant.

pub mod claude;
