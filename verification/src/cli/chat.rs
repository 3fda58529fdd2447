//! The chat on the command line.

use crate::ai::chat::session::{BuilderView, Chat, ChatBuilder};
use crate::json::{values_of, Json};
use crate::openai::chat::{capabilities_fit, ChatError, ChatErrorView};
use crate::openai::message::{messages_of, Message, MessageView, Role};
use crate::text::texts_of;
use vstd::prelude::*;

verus! {

/// Where the services of the program are asked unless the environment
/// says otherwise.
pub const DEFAULT_API_BASE_URL: &'static str = "http://localhost:2222";

/// The completion service that is asked unless the environment names one.
pub const DEFAULT_API_HOSTNAME: &'static str = "https://api.openai.com";

/// The key that is sent where the environment holds none. No service
/// that asks for a key takes it.
pub const DEFAULT_API_KEY: &'static str = "thiswontworkforopenai";

/// The model that is asked unless the environment names one.
pub const DEFAULT_MODEL: &'static str = "gpt-4.1-mini";

/// What the model is told before the chat begins.
pub const SYSTEM_MESSAGE: &'static str = "You are a helpful assistant.";

/// What the chat on the command line is held with.
#[derive(Debug)]
pub struct ChatSettings {
    pub api_base_url: String,
    pub api_hostname: String,
    pub api_key: String,
    pub model: String,
}

/// A value of the environment, or what stands in for one that is not set.
pub open spec fn value_or(value: Option<&str>, default: Seq<char>) -> Seq<char> {
    match value {
        Some(value) => value@,
        None => default,
    }
}

/// A value of the environment, or what stands in for one that is not set.
pub fn text_or(value: Option<&str>, default: &str) -> (r: String)
    ensures
        r@ == value_or(value, default@),
{
    match value {
        Some(value) => value.to_owned(),
        None => default.to_owned(),
    }
}

/// The settings of the chat, from the values of the environment that are
/// set.
pub fn chat_settings(
    note_search_api_url: Option<&str>,
    local_llm_host: Option<&str>,
    openai_api_key: Option<&str>,
    local_llm_model: Option<&str>,
) -> (r: ChatSettings)
    ensures
        r.api_base_url@ == value_or(note_search_api_url, DEFAULT_API_BASE_URL@),
        r.api_hostname@ == value_or(local_llm_host, DEFAULT_API_HOSTNAME@),
        r.api_key@ == value_or(openai_api_key, DEFAULT_API_KEY@),
        r.model@ == value_or(local_llm_model, DEFAULT_MODEL@),
{
    ChatSettings {
        api_base_url: text_or(note_search_api_url, DEFAULT_API_BASE_URL),
        api_hostname: text_or(local_llm_host, DEFAULT_API_HOSTNAME),
        api_key: text_or(openai_api_key, DEFAULT_API_KEY),
        model: text_or(local_llm_model, DEFAULT_MODEL),
    }
}

/// The chat of the command line: it begins with the system message, is
/// buffered and not stored, and has the given capabilities. Capabilities
/// that do not fit are refused.
pub fn chat_session(settings: &ChatSettings, names: Vec<String>, definitions: Vec<Json>) -> (r:
    Result<Chat, ChatError>)
    ensures
        match r {
            Ok(chat) => capabilities_fit(texts_of(names@), values_of(definitions@)) && chat.wf()
                && chat@ == (BuilderView {
                api_hostname: settings.api_hostname@,
                api_key: settings.api_key@,
                model: settings.model@,
                transcript: seq![MessageView::text(Role::System, SYSTEM_MESSAGE@)],
                tool_names: Some(texts_of(names@)),
                tool_definitions: Some(values_of(definitions@)),
                persistence: None,
                streaming: false,
            }).built(),
            Err(e) => !capabilities_fit(texts_of(names@), values_of(definitions@)) && e@
                == ChatErrorView::InvalidCapabilities,
        },
{
    let mut transcript: Vec<Message> = Vec::new();
    transcript.push(Message::new(Role::System, SYSTEM_MESSAGE));
    assert(messages_of(transcript@) =~= seq![MessageView::text(Role::System, SYSTEM_MESSAGE@)]);
    let builder = ChatBuilder::new(
        settings.api_hostname.as_str(),
        settings.api_key.as_str(),
        settings.model.as_str(),
    ).transcript(transcript);
    match builder.capabilities(names, definitions) {
        Ok(builder) => Ok(builder.build()),
        Err(e) => Err(e),
    }
}

} // verus!
