//! Push notifications as the HTTP interface takes them.

use crate::json::{Field, Json, JsonValue};
use crate::members::{read_string_member, string_member};
use crate::notify::models::PushNotificationPayload;
use crate::text::str_eq;
use vstd::prelude::*;

verus! {

/// A key of a subscription, by name.
#[derive(Debug)]
pub struct SubscriptionKey {
    pub name: String,
    pub value: String,
}

/// A browser that subscribes to notifications.
#[derive(Debug)]
pub struct PushSubscriptionRequest {
    pub endpoint: String,
    pub keys: Vec<SubscriptionKey>,
}

/// A notification to send to every subscriber.
#[derive(Debug)]
pub struct NotificationRequest {
    pub message: String,
}

/// The value of the first key at or after `from` that is named `name`.
pub open spec fn key_from(keys: Seq<SubscriptionKey>, name: Seq<char>, from: int) -> Option<
    Seq<char>,
>
    decreases keys.len() - from,
{
    if from < 0 || from >= keys.len() {
        None
    } else if keys[from].name@ == name {
        Some(keys[from].value@)
    } else {
        key_from(keys, name, from + 1)
    }
}

impl PushSubscriptionRequest {
    /// The value of the key named `name`.
    pub fn key(&self, name: &str) -> (r: Option<&String>)
        ensures
            r is Some <==> key_from(self.keys@, name@, 0) is Some,
            r matches Some(value) ==> Some(value@) == key_from(self.keys@, name@, 0),
    {
        let mut i: usize = 0;
        while i < self.keys.len()
            invariant
                i <= self.keys@.len(),
                key_from(self.keys@, name@, 0) == key_from(self.keys@, name@, i as int),
            decreases self.keys@.len() - i,
        {
            if str_eq(self.keys[i].name.as_str(), name) {
                return Some(&self.keys[i].value);
            }
            i += 1;
        }
        None
    }
}

/// The keys that the members of an object give: each member with a text
/// as its value, by its name.
pub open spec fn keys_readable(fields: Seq<Field>) -> bool {
    forall|i: int| 0 <= i < fields.len() ==> (#[trigger] fields[i]).value is String
}

/// The keys are what the members of an object say, one for one.
pub open spec fn keys_match(keys: Seq<SubscriptionKey>, fields: Seq<Field>) -> bool {
    keys.len() == fields.len() && forall|i: int|
        0 <= i < fields.len() ==> (#[trigger] keys[i]).name@ == fields[i].name
            && JsonValue::String(keys[i].value@) == fields[i].value
}

impl PushSubscriptionRequest {
    /// Reads a subscription: an object with the text `endpoint` and the
    /// object `keys`, whose members are texts.
    #[verifier::loop_isolation(false)]
    pub fn from_json(v: &Json) -> (r: Option<PushSubscriptionRequest>)
        ensures
            r is Some <==> string_member(v@, "endpoint"@) is Some && (v@.at("keys"@)
                matches JsonValue::Object(fields) && keys_readable(fields)),
            r matches Some(x) ==> string_member(v@, "endpoint"@) == Some(x.endpoint@) && (v@.at(
                "keys"@,
            ) matches JsonValue::Object(fields) && keys_match(x.keys@, fields)),
    {
        let endpoint = match read_string_member(v, "endpoint") {
            Some(endpoint) => endpoint,
            None => {
                return None;
            },
        };
        let members = match v.get("keys") {
            Some(Json::Object(members)) => members,
            _ => {
                return None;
            },
        };
        proof {
            crate::json::lemma_object_view(*members);
        }
        let ghost fields = crate::json::members_of(members@);
        assert(v@.at("keys"@) == JsonValue::Object(fields));
        let mut keys: Vec<SubscriptionKey> = Vec::new();
        let mut i: usize = 0;
        while i < members.len()
            invariant
                i <= members@.len(),
                fields == crate::json::members_of(members@),
                keys@.len() == i,
                forall|k: int| 0 <= k < i ==> (#[trigger] fields[k]).value is String,
                forall|k: int|
                    0 <= k < i ==> (#[trigger] keys@[k]).name@ == fields[k].name
                        && JsonValue::String(keys@[k].value@) == fields[k].value,
            decreases members@.len() - i,
        {
            assert(fields[i as int].value == members@[i as int].value@);
            match members[i].value.as_str() {
                Some(value) => keys.push(
                    SubscriptionKey { name: members[i].name.clone(), value: value.clone() },
                ),
                None => {
                    return None;
                },
            }
            i += 1;
        }
        Some(PushSubscriptionRequest { endpoint, keys })
    }
}

impl NotificationRequest {
    /// What is sent to every subscriber: the message under the title
    /// `Notification`, with the tag `index_updated`, without buttons, and
    /// leading to `/`.
    pub fn payload(&self) -> (r: PushNotificationPayload)
        ensures
            r.title@ == "Notification"@,
            r.body@ == self.message@,
            r.data.url@ == "/"@,
            r.actions@.len() == 0,
            r.tag is Some && r.tag->0@ == "index_updated"@,
    {
        PushNotificationPayload::new(
            "Notification",
            self.message.as_str(),
            None,
            None,
            Some("index_updated"),
        )
    }

    /// Reads a notification to send: an object with the text `message`.
    pub fn from_json(v: &Json) -> (r: Option<NotificationRequest>)
        ensures
            r is Some <==> string_member(v@, "message"@) is Some,
            r matches Some(x) ==> string_member(v@, "message"@) == Some(x.message@),
    {
        match read_string_member(v, "message") {
            Some(message) => Some(NotificationRequest { message }),
            None => None,
        }
    }
}

} // verus!
