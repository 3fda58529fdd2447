//! Titles and summaries for chat sessions.

use crate::json::{json_text_value, Json};
use crate::members::{read_string_member, string_member};
use crate::openai::message::{messages_of, Message, MessageView};
use vstd::prelude::*;
use vstd::string::StringExecFns;

verus! {

/// Gives sessions a title and a summary, every two hours.
#[derive(Debug)]
pub struct GenerateSessionTitles;

/// What the model is told to be.
pub const SYSTEM_PROMPT: &'static str =
    "You are an assistant that generates concise titles and summaries for chat sessions based on the conversation content.";

/// What the model is asked, before the conversation.
pub const PROMPT_HEAD: &'static str =
    "Based on this chat conversation, generate a concise title and summary for the session. Return ONLY a JSON object with 'title' and 'summary' fields. The title should be 5-10 words, and the summary should be a short paragraph (2-3 sentences). Do not include any other text, just the JSON object.\n\nConversation:\n";

/// The content of the messages from `from` on, each on a line of its
/// own. A message without content adds nothing.
pub open spec fn conversation_from(transcript: Seq<MessageView>, from: int) -> Seq<char>
    decreases transcript.len() - from,
{
    if from < 0 || from >= transcript.len() {
        Seq::empty()
    } else {
        (match transcript[from].content {
            Some(content) => content + "\n"@,
            None => Seq::empty(),
        }) + conversation_from(transcript, from + 1)
    }
}

/// The prompt that asks for a title and a summary of a conversation.
pub open spec fn session_prompt(transcript: Seq<MessageView>) -> Seq<char> {
    PROMPT_HEAD@ + conversation_from(transcript, 0)
}

/// The prompt that asks for a title and a summary of a conversation.
pub fn create_session_prompt(transcript: &Vec<Message>) -> (r: String)
    ensures
        r@ == session_prompt(messages_of(transcript@)),
{
    let ghost all = messages_of(transcript@);
    let mut out: String = PROMPT_HEAD.to_owned();
    let mut i: usize = 0;
    while i < transcript.len()
        invariant
            i <= transcript@.len(),
            all == messages_of(transcript@),
            session_prompt(all) == out@ + conversation_from(all, i as int),
        decreases transcript@.len() - i,
    {
        let ghost done = out@;
        assert(all[i as int] == transcript@[i as int]@);
        match transcript[i].content() {
            Some(content) => {
                out.append(content.as_str());
                out.append("\n");
                assert((done + content@ + "\n"@) + conversation_from(all, i + 1) == done + ((
                    content@ + "\n"@) + conversation_from(all, i + 1)));
            },
            None => {
                assert(done + (Seq::<char>::empty() + conversation_from(all, i + 1)) == done
                    + conversation_from(all, i + 1));
            },
        }
        i += 1;
    }
    assert(out@ + Seq::<char>::empty() == out@);
    out
}

/// The title and the summary that an answer of the model gives: the texts
/// `title` and `summary` of the JSON document that the answer is.
pub open spec fn session_info_of(answer: Seq<char>) -> Option<(Seq<char>, Seq<char>)> {
    match json_text_value(answer) {
        Some(document) => match (
            string_member(document, "title"@),
            string_member(document, "summary"@),
        ) {
            (Some(title), Some(summary)) => Some((title, summary)),
            _ => None,
        },
        None => None,
    }
}

/// The title and the summary that a JSON document gives.
pub fn session_info(document: &Json) -> (r: Option<(String, String)>)
    ensures
        match r {
            Some((title, summary)) => string_member(document@, "title"@) == Some(title@)
                && string_member(document@, "summary"@) == Some(summary@),
            None => string_member(document@, "title"@) is None || string_member(
                document@,
                "summary"@,
            ) is None,
        },
{
    match (read_string_member(document, "title"), read_string_member(document, "summary")) {
        (Some(title), Some(summary)) => Some((title, summary)),
        _ => None,
    }
}

/// Reads the title and the summary out of an answer of the model.
pub fn read_session_info(answer: &str) -> (r: Option<(String, String)>)
    ensures
        match r {
            Some((title, summary)) => session_info_of(answer@) == Some((title@, summary@)),
            None => session_info_of(answer@) is None,
        },
{
    match Json::parse(answer) {
        Some(document) => session_info(&document),
        None => None,
    }
}

impl GenerateSessionTitles {
    /// The seconds between two runs: two hours.
    pub fn interval_secs(&self) -> (r: u64)
        ensures
            r == 7200,
    {
        60 * 60 * 2
    }
}

} // verus!
