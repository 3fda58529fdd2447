//! Notifications that other programs deliver.

use crate::json::{Json, JsonValue};
use crate::members::{
    integer_member, optional_string_member, read_integer_member, read_optional_string_member,
    read_string_member, string_member, text_of,
};
use vstd::prelude::*;

verus! {

/// A notification of the desktop, forwarded by Blurt.
#[derive(Debug)]
pub struct BlurtNotification {
    pub id: i64,
    pub title: String,
    pub subtitle: Option<String>,
    pub body: String,
    pub date: i64,
    pub bundle_id: Option<String>,
}

/// A notification can be read from a value: `id` and `date` are whole
/// numbers, `title` and `body` are texts, and `subtitle` and `bundle_id`
/// are texts where they are there.
pub open spec fn notification_readable(v: JsonValue) -> bool {
    &&& integer_member(v, "id"@) is Some
    &&& string_member(v, "title"@) is Some
    &&& optional_string_member(v, "subtitle"@) is Some
    &&& string_member(v, "body"@) is Some
    &&& integer_member(v, "date"@) is Some
    &&& optional_string_member(v, "bundle_id"@) is Some
}

/// A notification is what a value says.
pub open spec fn notification_matches(n: BlurtNotification, v: JsonValue) -> bool {
    &&& integer_member(v, "id"@) == Some(n.id as int)
    &&& string_member(v, "title"@) == Some(n.title@)
    &&& optional_string_member(v, "subtitle"@) == Some(text_of(n.subtitle))
    &&& string_member(v, "body"@) == Some(n.body@)
    &&& integer_member(v, "date"@) == Some(n.date as int)
    &&& optional_string_member(v, "bundle_id"@) == Some(text_of(n.bundle_id))
}

impl BlurtNotification {
    /// Reads a notification.
    pub fn from_json(v: &Json) -> (r: Option<BlurtNotification>)
        ensures
            r is Some <==> notification_readable(v@),
            r matches Some(n) ==> notification_matches(n, v@),
    {
        match (
            read_integer_member(v, "id"),
            read_string_member(v, "title"),
            read_optional_string_member(v, "subtitle"),
            read_string_member(v, "body"),
            read_integer_member(v, "date"),
            read_optional_string_member(v, "bundle_id"),
        ) {
            (Some(id), Some(title), Some(subtitle), Some(body), Some(date), Some(bundle_id)) => Some(
                BlurtNotification { id, title, subtitle, body, date, bundle_id },
            ),
            _ => None,
        }
    }
}

} // verus!
