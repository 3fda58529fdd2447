//! The types that the HTTP interface takes and gives.

pub mod calendar;
pub mod chat;
pub mod email;
pub mod error;
pub mod metrics;
pub mod notes;
pub mod push;
pub mod state;
pub mod web;
pub mod webhook;

pub use error::ApiError;
