//! The summary of the unread mail.

use crate::notify::models::PushNotificationPayload;
use vstd::prelude::*;
use vstd::string::StringExecFns;

verus! {

/// Summarises the unread mail, every two hours.
#[derive(Debug)]
pub struct ProcessEmail;

impl ProcessEmail {
    /// The seconds between two runs: two hours.
    pub fn interval_secs(&self) -> (r: u64)
        ensures
            r == 7200,
    {
        60 * 60 * 2
    }

    /// Where a click on the notification leads: to the chat of the session.
    pub fn chat_url(session_id: &str) -> (r: String)
        ensures
            r@ == "/chat?session_id="@ + session_id@,
    {
        "/chat?session_id=".to_owned().concat(session_id)
    }

    /// The notification of a new summary.
    pub fn notification(summary: &str, session_id: &str) -> (r: PushNotificationPayload)
        ensures
            r.title@ == "Unread Email Summary"@,
            r.body@ == "Emails processed! "@ + summary@,
            r.data.url@ == "/chat?session_id="@ + session_id@,
            r.actions@.len() == 0,
            r.tag is None,
    {
        let body = "Emails processed! ".to_owned().concat(summary);
        let url = ProcessEmail::chat_url(session_id);
        PushNotificationPayload::new(
            "Unread Email Summary",
            body.as_str(),
            Some(url.as_str()),
            None,
            None,
        )
    }
}

impl Default for ProcessEmail {
    fn default() -> Self {
        ProcessEmail
    }
}

} // verus!
