//! The chat completion protocol: messages, requests, responses and the
//! incremental decoder of streamed responses.

pub mod accumulator;
pub mod bytes;
pub mod chat;
pub mod delta;
pub mod frames;
pub mod message;
pub mod rebuild;
pub mod request;
pub mod response;
pub mod stream;
pub mod tool;
pub mod wire;

pub use message::{FunctionCall, FunctionCallFn, Message, Role};
pub use chat::{BoxedToolCall, ChatError};
pub use tool::{
    Function, NamedProperty, Parameters, Property, PropertyList, PropertySet, ToolCall, ToolType,
};
