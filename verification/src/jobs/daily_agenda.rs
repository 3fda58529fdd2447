//! The agenda of the day.

use crate::notify::models::PushNotificationPayload;
use crate::text::{chars_of, string_of_range};
use vstd::prelude::*;
use vstd::string::StringExecFns;

verus! {

/// Makes the agenda of the day, once a day.
#[derive(Debug)]
pub struct DailyAgenda;

/// The most characters of the agenda that the notification shows.
pub const PREVIEW_LENGTH: usize = 150;

/// The first [`PREVIEW_LENGTH`] characters of a text, and all of a
/// shorter text.
pub open spec fn preview_of(text: Seq<char>) -> Seq<char> {
    if text.len() <= PREVIEW_LENGTH {
        text
    } else {
        text.take(PREVIEW_LENGTH as int)
    }
}

impl DailyAgenda {
    /// The seconds between two runs: a day.
    pub fn interval_secs(&self) -> (r: u64)
        ensures
            r == 86400,
    {
        60 * 60 * 24
    }

    /// The beginning of the agenda, as the notification shows it.
    pub fn preview(summary: &str) -> (r: String)
        ensures
            r@ == preview_of(summary@),
    {
        let chars = chars_of(summary);
        if chars.len() <= PREVIEW_LENGTH {
            assert(chars@.subrange(0, chars@.len() as int) == chars@);
            string_of_range(&chars, 0, chars.len())
        } else {
            string_of_range(&chars, 0, PREVIEW_LENGTH)
        }
    }

    /// Where a click on the notification leads: to the chat of the session.
    pub fn chat_url(session_id: &str) -> (r: String)
        ensures
            r@ == "/chat/"@ + session_id@,
    {
        "/chat/".to_owned().concat(session_id)
    }

    /// The notification of a new agenda.
    pub fn notification(summary: &str, session_id: &str) -> (r: PushNotificationPayload)
        ensures
            r.title@ == "Daily Agenda"@,
            r.body@ == preview_of(summary@),
            r.data.url@ == "/chat/"@ + session_id@,
            r.actions@.len() == 0,
            r.tag is None,
    {
        let body = DailyAgenda::preview(summary);
        let url = DailyAgenda::chat_url(session_id);
        PushNotificationPayload::new("Daily Agenda", body.as_str(), Some(url.as_str()), None, None)
    }
}

} // verus!
