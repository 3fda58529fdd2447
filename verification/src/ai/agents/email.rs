//! The chat that summarises the unread mail.

use crate::ai::chat::session::{BuilderView, Chat, ChatBuilder};
use crate::json::{values_of, Json};
use crate::openai::chat::{capabilities_fit, ChatError, ChatErrorView};
use crate::openai::message::{Message, MessageView, Role};
use crate::text::{join, joined, texts_of};
use vstd::prelude::*;
use vstd::string::StringExecFns;

verus! {

/// What the user asks of the model.
pub const EMAIL_REQUEST: &'static str = "Summarize my unread emails.";

/// What the model is told before it reads the mail: its task, and the
/// accounts that it works for.
pub open spec fn email_system_text(emails: Seq<String>) -> Seq<char> {
    "You are an email assistant AI. Summarize, search, and analyze emails on behalf of the user for the following users: "@
        + joined(emails, ", "@)
}

/// The tags under which the chat is stored.
pub open spec fn email_tags() -> Seq<Seq<char>> {
    seq!["background"@]
}

/// The message of the user that asks for the summary.
pub fn email_chat_request() -> (r: Message)
    ensures
        r@ == MessageView::text(Role::User, EMAIL_REQUEST@),
{
    Message::new(Role::User, EMAIL_REQUEST)
}

/// The chat that summarises the mail of the given accounts: it begins with
/// the system message, is stored under a new id with the tag of the
/// background chats, and has the given capabilities. Capabilities that do
/// not fit are refused.
pub fn email_chat(
    emails: &Vec<String>,
    api_hostname: &str,
    api_key: &str,
    model: &str,
    names: Vec<String>,
    definitions: Vec<Json>,
) -> (r: Result<Chat, ChatError>)
    ensures
        match r {
            Ok(chat) => {
                &&& capabilities_fit(texts_of(names@), values_of(definitions@))
                &&& chat.wf()
                &&& chat@.persistence is Some
                &&& chat@.persistence->0.session_id.len() == 36
                &&& chat@.persistence->0.tags == email_tags()
                &&& chat@ == (BuilderView {
                    api_hostname: api_hostname@,
                    api_key: api_key@,
                    model: model@,
                    transcript: seq![MessageView::text(Role::System, email_system_text(emails@))],
                    tool_names: Some(texts_of(names@)),
                    tool_definitions: Some(values_of(definitions@)),
                    persistence: chat@.persistence,
                    streaming: false,
                }).built()
            },
            Err(e) => !capabilities_fit(texts_of(names@), values_of(definitions@)) && e@
                == ChatErrorView::InvalidCapabilities,
        },
{
    let accounts = join(emails, ", ");
    let system =
        "You are an email assistant AI. Summarize, search, and analyze emails on behalf of the user for the following users: ".to_owned().concat(
        accounts.as_str(),
    );
    let mut transcript: Vec<Message> = Vec::new();
    transcript.push(Message::new(Role::System, system.as_str()));
    let mut tags: Vec<String> = Vec::new();
    tags.push("background".to_owned());
    assert(texts_of(tags@) =~= email_tags());
    let ghost messages = crate::openai::message::messages_of(transcript@);
    assert(messages =~= seq![MessageView::text(Role::System, email_system_text(emails@))]);
    let builder = ChatBuilder::new(api_hostname, api_key, model).transcript(transcript).database(
        None,
        Some(tags),
    );
    match builder.capabilities(names, definitions) {
        Ok(builder) => Ok(builder.build()),
        Err(e) => Err(e),
    }
}

} // verus!
