//! The prompts that are sent to the model, as templates.

use vstd::prelude::*;

verus! {

/// A prompt by name.
#[derive(Clone, Copy, Debug, PartialEq, Eq, Structural)]
pub enum Prompt {
    NoteSummary,
    UnreadEmails,
}

/// The template that asks for a summary of notes.
pub const NOTES_PROMPT: &'static str =
    "\nSummarize this context (CONTEXT) concisely. Always include a list of sources (SOURCES) with the title and file name if available.\n\nCONTEXT:\n{{context}}\n";

/// The template that lists unread mail, thread by thread.
pub const UNREAD_EMAILS_PROMPT: &'static str =
    "\nThe following is a list of unread emails and their related email thread in reverse chronological order.\n\n# Unread Emails\n{{#each email_threads}}\n\n## {{subject}}\n\n**ID:** {{id}}\n**From:** {{from}}\n**To:** {{to}}\n**Subject:** {{subject}}\n\n{{#each messages}}\n### Message {{inc @index}}\n\n**From:** {{from}}\n**To:** {{to}}\n**Date:** {{received}}\n**Subject:** {{subject}}\n**Body:**\n{{body}}\n\n---\n\n{{/each}}\n{{/each}}\n";

impl Prompt {
    /// The name under which the template of the prompt is registered.
    pub open spec fn name(self) -> Seq<char> {
        match self {
            Prompt::NoteSummary => "NoteSummary"@,
            Prompt::UnreadEmails => "UnreadEmails"@,
        }
    }

    /// The template of the prompt.
    pub open spec fn template(self) -> Seq<char> {
        match self {
            Prompt::NoteSummary => NOTES_PROMPT@,
            Prompt::UnreadEmails => UNREAD_EMAILS_PROMPT@,
        }
    }

    /// The name under which the template of the prompt is registered.
    pub fn as_str(&self) -> (r: &'static str)
        ensures
            r@ == self.name(),
    {
        match self {
            Prompt::NoteSummary => "NoteSummary",
            Prompt::UnreadEmails => "UnreadEmails",
        }
    }

    /// The template of the prompt.
    pub fn template_text(&self) -> (r: &'static str)
        ensures
            r@ == self.template(),
    {
        match self {
            Prompt::NoteSummary => NOTES_PROMPT,
            Prompt::UnreadEmails => UNREAD_EMAILS_PROMPT,
        }
    }

    /// The number that a template shows for the position `index` of a
    /// list: positions are counted from one.
    pub fn inc(index: i64) -> (r: Option<i64>)
        ensures
            r is Some <==> index < i64::MAX,
            r matches Some(n) ==> n == index + 1,
    {
        index.checked_add(1)
    }
}

} // verus!
