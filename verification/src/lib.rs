//! A personal index of notes, mail and chats, with the logic verified.
//!
//! The heart of the crate is the chat with a language model. A
//! [`Chat`](ai::chat::Chat) decides, step by step, what a turn of the
//! conversation needs next: a completion of the model, the run of the
//! capabilities that the model asks for, or the storing of the messages.
//! Whoever drives it does the exchanges and reports back. The responses of
//! the model are read by [`openai::response`], and streamed responses are
//! put together from their frames by the
//! [`StreamDecoder`](openai::stream::StreamDecoder), however the transport
//! cuts them into chunks.
//!
//! Around it stand the capabilities that are offered to the model
//! ([`ai::tools`]), the clean-up of mail ([`google::gmail`]), and the types
//! of the HTTP interface ([`api`]) with their JSON forms. JSON is read and
//! written by `serde_json`, patterns are matched by `regex`; everything that
//! is decided on what they return is proved.

pub mod ai;
pub mod anthropic;
pub mod api;
pub mod cli;
pub mod config;
pub mod dates;
pub mod google;
pub mod jobs;
pub mod json;
pub mod members;
pub mod notify;
pub mod openai;
pub mod pattern;
pub mod text;
