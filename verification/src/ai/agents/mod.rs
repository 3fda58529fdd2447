//! Chats that the program holds on its own account.

pub mod agenda;
pub mod email;
