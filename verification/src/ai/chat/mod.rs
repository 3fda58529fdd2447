//! The state of a chat: its transcript and the turns that extend it.

pub mod models;
pub mod session;

pub use models::Transcript;
pub use session::{Action, Chat, ChatBuilder, Persistence, TurnState};
