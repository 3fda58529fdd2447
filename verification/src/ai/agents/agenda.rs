//! The chat that makes the agenda of the day.

use crate::ai::chat::session::{BuilderView, Chat, ChatBuilder};
use crate::json::{values_of, Json};
use crate::openai::chat::{capabilities_fit, ChatError, ChatErrorView};
use crate::openai::message::{Message, MessageView, Role};
use crate::text::{join, joined, texts_of};
use vstd::prelude::*;
use vstd::string::StringExecFns;

verus! {

/// What the model is told before it makes the agenda.
pub const AGENDA_SYSTEM_MESSAGE: &'static str =
    "You are a daily agenda assistant. Create an easy-to-read digest of what needs to happen today.\n\nUse the available tools to gather:\n1. Tasks due today\n2. Tasks scheduled for today\n3. Today's calendar events\n\nWhen displaying calendar events:\n- Ignore DNS blocks\n- Ignore any meeting I declined\n- Adjust time to PST time\n\nFormat the output as a short, scannable summary with:\n- A brief overview of today's priorities\n- Time-sensitive calendar events (with times)\n- Tasks grouped by urgency or category\n- Keep it concise and actionable\n\nAvoid verbose descriptions. Focus on what's most important for the user to know.";

/// The request for the agenda, which names the accounts whose calendars
/// count.
pub open spec fn agenda_request_text(calendar_emails: Seq<String>) -> Seq<char> {
    "Create my daily agenda. My calendar emails are "@ + joined(calendar_emails, "and "@) + "."@
}

/// The tags under which the chat is stored.
pub open spec fn agenda_tags() -> Seq<Seq<char>> {
    seq!["background"@, "agenda"@]
}

/// The message of the user that asks for the agenda.
pub fn daily_agenda_request(calendar_emails: &Vec<String>) -> (r: Message)
    ensures
        r@ == MessageView::text(Role::User, agenda_request_text(calendar_emails@)),
{
    let emails = join(calendar_emails, "and ");
    let text = "Create my daily agenda. My calendar emails are ".to_owned().concat(
        emails.as_str(),
    ).concat(".");
    Message::new(Role::User, text.as_str())
}

/// The chat that makes the agenda: it begins with the system message, is
/// stored under a new id with the tags of the agenda, and has the given
/// capabilities. Capabilities that do not fit are refused.
pub fn daily_agenda_chat(
    api_hostname: &str,
    api_key: &str,
    model: &str,
    names: Vec<String>,
    definitions: Vec<Json>,
) -> (r: Result<Chat, ChatError>)
    ensures
        match r {
            Ok(chat) => {
                &&& capabilities_fit(texts_of(names@), values_of(definitions@))
                &&& chat.wf()
                &&& chat@.persistence is Some
                &&& chat@.persistence->0.session_id.len() == 36
                &&& chat@.persistence->0.tags == agenda_tags()
                &&& chat@ == (BuilderView {
                    api_hostname: api_hostname@,
                    api_key: api_key@,
                    model: model@,
                    transcript: seq![MessageView::text(Role::System, AGENDA_SYSTEM_MESSAGE@)],
                    tool_names: Some(texts_of(names@)),
                    tool_definitions: Some(values_of(definitions@)),
                    persistence: chat@.persistence,
                    streaming: false,
                }).built()
            },
            Err(e) => !capabilities_fit(texts_of(names@), values_of(definitions@)) && e@
                == ChatErrorView::InvalidCapabilities,
        },
{
    let mut transcript: Vec<Message> = Vec::new();
    transcript.push(Message::new(Role::System, AGENDA_SYSTEM_MESSAGE));
    let mut tags: Vec<String> = Vec::new();
    tags.push("background".to_owned());
    tags.push("agenda".to_owned());
    assert(texts_of(tags@) =~= agenda_tags());
    let ghost messages = crate::openai::message::messages_of(transcript@);
    assert(messages =~= seq![MessageView::text(Role::System, AGENDA_SYSTEM_MESSAGE@)]);
    let builder = ChatBuilder::new(api_hostname, api_key, model).transcript(transcript).database(
        None,
        Some(tags),
    );
    match builder.capabilities(names, definitions) {
        Ok(builder) => Ok(builder.build()),
        Err(e) => Err(e),
    }
}

} // verus!
