//! What a completion says: the final text of the assistant, or the tool
//! calls that it asks for.

use crate::json::{values_of, Json, JsonValue};
use vstd::prelude::*;

verus! {

/// The message of the first choice of a response, and `Null` where the
/// response has none.
pub open spec fn message_of(response: JsonValue) -> JsonValue {
    response.at("choices"@).nth(0).at("message"@)
}

/// The value of a [`Completion`].
pub enum CompletionView {
    ToolCalls(Seq<JsonValue>),
    Content(Seq<char>),
    Nothing,
}

/// What a response says. Tool calls come first: a response with a list of
/// tool calls that is not empty asks for them, whatever content it has.
/// Otherwise its content, where that is a string, is the final text.
pub open spec fn completion_of(response: JsonValue) -> CompletionView {
    let message = message_of(response);
    match message.at("tool_calls"@) {
        JsonValue::Array(items) => if items.len() > 0 {
            CompletionView::ToolCalls(items)
        } else {
            content_of(message)
        },
        _ => content_of(message),
    }
}

/// The final text of a message that asks for no tool call.
pub open spec fn content_of(message: JsonValue) -> CompletionView {
    match message.at("content"@) {
        JsonValue::String(text) => CompletionView::Content(text),
        _ => CompletionView::Nothing,
    }
}

/// What a response says.
pub enum Completion<'a> {
    /// The model asks for these tool calls, in this order.
    ToolCalls(&'a Vec<Json>),
    /// The final text of the assistant.
    Content(&'a String),
    /// Neither content nor tool calls.
    Nothing,
}

impl<'a> View for Completion<'a> {
    type V = CompletionView;

    open spec fn view(&self) -> CompletionView {
        match self {
            Completion::ToolCalls(items) => CompletionView::ToolCalls(values_of(items@)),
            Completion::Content(text) => CompletionView::Content(text@),
            Completion::Nothing => CompletionView::Nothing,
        }
    }
}

/// The message of the first choice of a response.
pub fn first_message(response: &Json) -> (r: Option<&Json>)
    ensures
        match r {
            Some(message) => message@ == message_of(response@),
            None => message_of(response@) == JsonValue::Null,
        },
{
    match response.get("choices") {
        Some(choices) => match choices.as_array() {
            Some(items) => if items.len() > 0 {
                assert(values_of(items@)[0] == items@[0]@);
                items[0].get("message")
            } else {
                None
            },
            None => None,
        },
        None => None,
    }
}

/// Reads what a response says.
pub fn read_completion<'a>(response: &'a Json) -> (r: Completion<'a>)
    ensures
        r@ == completion_of(response@),
{
    match first_message(response) {
        Some(message) => {
            match message.get("tool_calls") {
                Some(calls) => match calls.as_array() {
                    Some(items) => if items.len() > 0 {
                        return Completion::ToolCalls(items);
                    },
                    None => {},
                },
                None => {},
            }
            match message.get("content") {
                Some(content) => match content.as_str() {
                    Some(text) => Completion::Content(text),
                    None => Completion::Nothing,
                },
                None => Completion::Nothing,
            }
        },
        None => Completion::Nothing,
    }
}

} // verus!
