//! Reading messages and threads from the JSON that the Gmail API sends.

use crate::google::gmail::{
    ListMessagesResponse, Message, MessageHeader, MessagePart, MessagePartBody, MessagePayload,
    MessageResponse, Thread,
};
use crate::json::{values_of, Json, JsonValue};
use crate::members::{
    optional_string_member, present_member, read_optional_string_member, read_present_member,
    read_string_member, read_unsigned_member, string_member, text_of, unsigned_member,
};
use vstd::prelude::*;

verus! {

/// A header can be read from a value: its `name` and `value` are texts.
pub open spec fn header_readable(v: JsonValue) -> bool {
    string_member(v, "name"@) is Some && string_member(v, "value"@) is Some
}

/// A header is what a value says.
pub open spec fn header_matches(h: MessageHeader, v: JsonValue) -> bool {
    string_member(v, "name"@) == Some(h.name@) && string_member(v, "value"@) == Some(h.value@)
}

/// Every element of an array is a header that can be read.
pub open spec fn headers_readable(items: Seq<JsonValue>) -> bool {
    forall|i: int| 0 <= i < items.len() ==> header_readable(#[trigger] items[i])
}

/// The headers are what the elements of an array say, one for one.
pub open spec fn headers_match(list: Seq<MessageHeader>, items: Seq<JsonValue>) -> bool {
    list.len() == items.len() && forall|i: int|
        0 <= i < items.len() ==> header_matches(#[trigger] list[i], items[i])
}

/// The elements of the array member `key`, which may be missing or `null`;
/// nothing where it is anything but an array or `null`.
pub open spec fn optional_array_member(v: JsonValue, key: Seq<char>) -> Option<
    Option<Seq<JsonValue>>,
> {
    match present_member(v, key) {
        None => Some(None),
        Some(JsonValue::Array(items)) => Some(Some(items)),
        Some(_) => None,
    }
}

/// Reads the array member `key`, which may be missing or `null`.
pub fn read_optional_array_member<'a>(v: &'a Json, key: &str) -> (r: Option<
    Option<&'a Vec<Json>>,
>)
    ensures
        r is Some <==> optional_array_member(v@, key@) is Some,
        r matches Some(items) ==> optional_array_member(v@, key@) == Some(
            match items {
                Some(items) => Some(values_of(items@)),
                None => None,
            },
        ),
{
    match read_present_member(v, key) {
        None => Some(None),
        Some(member) => match member.as_array() {
            Some(items) => Some(Some(items)),
            None => None,
        },
    }
}

/// A body can be read from a value: its `size` is a whole number of 64
/// bits, and `attachmentId` and `data` are texts where they are there.
pub open spec fn body_readable(v: JsonValue) -> bool {
    &&& optional_string_member(v, "attachmentId"@) is Some
    &&& unsigned_member(v, "size"@, u64::MAX as int) is Some
    &&& optional_string_member(v, "data"@) is Some
}

/// A body is what a value says.
pub open spec fn body_matches(b: MessagePartBody, v: JsonValue) -> bool {
    &&& optional_string_member(v, "attachmentId"@) == Some(text_of(b.attachment_id))
    &&& unsigned_member(v, "size"@, u64::MAX as int) == Some(b.size as int)
    &&& optional_string_member(v, "data"@) == Some(text_of(b.data))
}

/// The body in the member `body`, which may be missing or `null`, can be
/// read.
pub open spec fn optional_body_readable(v: JsonValue) -> bool {
    match present_member(v, "body"@) {
        None => true,
        Some(member) => body_readable(member),
    }
}

/// An optional body is what the member `body` says.
pub open spec fn optional_body_matches(b: Option<MessagePartBody>, v: JsonValue) -> bool {
    match present_member(v, "body"@) {
        None => b is None,
        Some(member) => b is Some && body_matches(b->0, member),
    }
}

/// A part can be read from a value: `partId` and `mimeType` are texts, and
/// the body can be read where it is there.
pub open spec fn part_readable(v: JsonValue) -> bool {
    &&& string_member(v, "partId"@) is Some
    &&& string_member(v, "mimeType"@) is Some
    &&& optional_body_readable(v)
}

/// A part is what a value says.
pub open spec fn part_matches(p: MessagePart, v: JsonValue) -> bool {
    &&& string_member(v, "partId"@) == Some(p.part_id@)
    &&& string_member(v, "mimeType"@) == Some(p.mimetype@)
    &&& optional_body_matches(p.body, v)
}

/// Every element of an array is a part that can be read.
pub open spec fn parts_readable(items: Seq<JsonValue>) -> bool {
    forall|i: int| 0 <= i < items.len() ==> part_readable(#[trigger] items[i])
}

/// The parts are what the elements of an array say, one for one.
pub open spec fn parts_match(list: Seq<MessagePart>, items: Seq<JsonValue>) -> bool {
    list.len() == items.len() && forall|i: int|
        0 <= i < items.len() ==> part_matches(#[trigger] list[i], items[i])
}

/// A payload can be read from a value: `mimeType` is a text, and headers,
/// body and parts can be read where they are there.
pub open spec fn payload_readable(v: JsonValue) -> bool {
    &&& string_member(v, "mimeType"@) is Some
    &&& optional_body_readable(v)
    &&& match optional_array_member(v, "headers"@) {
        Some(Some(items)) => headers_readable(items),
        Some(None) => true,
        None => false,
    }
    &&& match optional_array_member(v, "parts"@) {
        Some(Some(items)) => parts_readable(items),
        Some(None) => true,
        None => false,
    }
}

/// A payload is what a value says.
pub open spec fn payload_matches(p: MessagePayload, v: JsonValue) -> bool {
    &&& string_member(v, "mimeType"@) == Some(p.mimetype@)
    &&& optional_body_matches(p.body, v)
    &&& match optional_array_member(v, "headers"@) {
        Some(Some(items)) => p.headers is Some && headers_match(p.headers->0@, items),
        _ => p.headers is None,
    }
    &&& match optional_array_member(v, "parts"@) {
        Some(Some(items)) => p.parts is Some && parts_match(p.parts->0@, items),
        _ => p.parts is None,
    }
}

/// The texts in the array member `key`, which may be missing or `null`;
/// nothing where it is anything but an array of texts or `null`.
pub open spec fn optional_strings_member(v: JsonValue, key: Seq<char>) -> Option<
    Option<Seq<Seq<char>>>,
> {
    match optional_array_member(v, key) {
        None => None,
        Some(None) => Some(None),
        Some(Some(items)) => if forall|i: int|
            0 <= i < items.len() ==> (#[trigger] items[i]).text() is Some {
            Some(Some(Seq::new(items.len(), |i: int| items[i].text()->0)))
        } else {
            None
        },
    }
}

/// The texts of an optional list of strings.
pub open spec fn strings_of(list: Option<Vec<String>>) -> Option<Seq<Seq<char>>> {
    match list {
        Some(list) => Some(Seq::new(list@.len(), |i: int| list@[i]@)),
        None => None,
    }
}

/// A message can be read from a value: `id`, `threadId` and
/// `internalDate` are texts, and snippet, payload and labels can be read
/// where they are there.
pub open spec fn message_readable(v: JsonValue) -> bool {
    &&& string_member(v, "id"@) is Some
    &&& string_member(v, "threadId"@) is Some
    &&& optional_string_member(v, "snippet"@) is Some
    &&& match present_member(v, "payload"@) {
        None => true,
        Some(member) => payload_readable(member),
    }
    &&& optional_strings_member(v, "labelIds"@) is Some
    &&& string_member(v, "internalDate"@) is Some
}

/// A message is what a value says.
pub open spec fn message_matches(m: Message, v: JsonValue) -> bool {
    &&& string_member(v, "id"@) == Some(m.id@)
    &&& string_member(v, "threadId"@) == Some(m.thread_id@)
    &&& optional_string_member(v, "snippet"@) == Some(text_of(m.snippet))
    &&& match present_member(v, "payload"@) {
        None => m.payload is None,
        Some(member) => m.payload is Some && payload_matches(m.payload->0, member),
    }
    &&& optional_strings_member(v, "labelIds"@) == Some(strings_of(m.label_ids))
    &&& string_member(v, "internalDate"@) == Some(m.internal_date@)
}

/// Every element of an array is a message that can be read.
pub open spec fn messages_readable(items: Seq<JsonValue>) -> bool {
    forall|i: int| 0 <= i < items.len() ==> message_readable(#[trigger] items[i])
}

/// The messages are what the elements of an array say, one for one.
pub open spec fn messages_match(list: Seq<Message>, items: Seq<JsonValue>) -> bool {
    list.len() == items.len() && forall|i: int|
        0 <= i < items.len() ==> message_matches(#[trigger] list[i], items[i])
}

/// A thread can be read from a value: `id` is a text and `messages` an
/// array of messages that can be read.
pub open spec fn thread_readable(v: JsonValue) -> bool {
    &&& string_member(v, "id"@) is Some
    &&& v.at("messages"@) matches JsonValue::Array(items) && messages_readable(items)
}

/// A thread is what a value says.
pub open spec fn thread_matches(t: Thread, v: JsonValue) -> bool {
    &&& string_member(v, "id"@) == Some(t.id@)
    &&& v.at("messages"@) matches JsonValue::Array(items) && messages_match(t.messages@, items)
}

impl MessageHeader {
    /// Reads a header.
    pub fn from_json(v: &Json) -> (r: Option<MessageHeader>)
        ensures
            r is Some <==> header_readable(v@),
            r matches Some(h) ==> header_matches(h, v@),
    {
        match (read_string_member(v, "name"), read_string_member(v, "value")) {
            (Some(name), Some(value)) => Some(MessageHeader { name, value }),
            _ => None,
        }
    }
}

impl MessagePartBody {
    /// Reads a body.
    pub fn from_json(v: &Json) -> (r: Option<MessagePartBody>)
        ensures
            r is Some <==> body_readable(v@),
            r matches Some(b) ==> body_matches(b, v@),
    {
        match (
            read_optional_string_member(v, "attachmentId"),
            read_unsigned_member(v, "size", u64::MAX),
            read_optional_string_member(v, "data"),
        ) {
            (Some(attachment_id), Some(size), Some(data)) => Some(
                MessagePartBody { attachment_id, size, data },
            ),
            _ => None,
        }
    }

    /// Reads the body in the member `body`, which may be missing.
    pub fn from_member(v: &Json) -> (r: Option<Option<MessagePartBody>>)
        ensures
            r is Some <==> optional_body_readable(v@),
            r matches Some(b) ==> optional_body_matches(b, v@),
    {
        match read_present_member(v, "body") {
            None => Some(None),
            Some(member) => match MessagePartBody::from_json(member) {
                Some(body) => Some(Some(body)),
                None => None,
            },
        }
    }
}

impl MessagePart {
    /// Reads a part.
    pub fn from_json(v: &Json) -> (r: Option<MessagePart>)
        ensures
            r is Some <==> part_readable(v@),
            r matches Some(p) ==> part_matches(p, v@),
    {
        match (
            read_string_member(v, "partId"),
            read_string_member(v, "mimeType"),
            MessagePartBody::from_member(v),
        ) {
            (Some(part_id), Some(mimetype), Some(body)) => Some(
                MessagePart { part_id, mimetype, body },
            ),
            _ => None,
        }
    }
}

/// Reads the headers in an array.
fn read_headers(items: &Vec<Json>) -> (r: Option<Vec<MessageHeader>>)
    ensures
        r is Some <==> headers_readable(values_of(items@)),
        r matches Some(list) ==> headers_match(list@, values_of(items@)),
{
    let ghost values = values_of(items@);
    let mut out: Vec<MessageHeader> = Vec::new();
    let mut i: usize = 0;
    while i < items.len()
        invariant
            i <= items@.len(),
            values == values_of(items@),
            out@.len() == i,
            forall|k: int| 0 <= k < i ==> header_readable(#[trigger] values[k]),
            forall|k: int| 0 <= k < i ==> header_matches(#[trigger] out@[k], values[k]),
        decreases items@.len() - i,
    {
        assert(values[i as int] == items@[i as int]@);
        match MessageHeader::from_json(&items[i]) {
            Some(header) => out.push(header),
            None => {
                return None;
            },
        }
        i += 1;
    }
    Some(out)
}

/// Reads the parts in an array.
fn read_parts(items: &Vec<Json>) -> (r: Option<Vec<MessagePart>>)
    ensures
        r is Some <==> parts_readable(values_of(items@)),
        r matches Some(list) ==> parts_match(list@, values_of(items@)),
{
    let ghost values = values_of(items@);
    let mut out: Vec<MessagePart> = Vec::new();
    let mut i: usize = 0;
    while i < items.len()
        invariant
            i <= items@.len(),
            values == values_of(items@),
            out@.len() == i,
            forall|k: int| 0 <= k < i ==> part_readable(#[trigger] values[k]),
            forall|k: int| 0 <= k < i ==> part_matches(#[trigger] out@[k], values[k]),
        decreases items@.len() - i,
    {
        assert(values[i as int] == items@[i as int]@);
        match MessagePart::from_json(&items[i]) {
            Some(part) => out.push(part),
            None => {
                return None;
            },
        }
        i += 1;
    }
    Some(out)
}

/// Reads the texts in the array member `key`, which may be missing.
#[verifier::loop_isolation(false)]
pub fn read_optional_strings_member(v: &Json, key: &str) -> (r: Option<Option<Vec<String>>>)
    ensures
        r is Some <==> optional_strings_member(v@, key@) is Some,
        r matches Some(list) ==> optional_strings_member(v@, key@) == Some(strings_of(list)),
{
    match read_optional_array_member(v, key) {
        None => None,
        Some(None) => Some(None),
        Some(Some(items)) => {
            let ghost values = values_of(items@);
            let mut out: Vec<String> = Vec::new();
            let mut i: usize = 0;
            while i < items.len()
                invariant
                    i <= items@.len(),
                    values == values_of(items@),
                    out@.len() == i,
                    forall|k: int| 0 <= k < i ==> (#[trigger] values[k]).text() == Some(out@[k]@),
                decreases items@.len() - i,
            {
                assert(values[i as int] == items@[i as int]@);
                match items[i].as_str() {
                    Some(text) => out.push(text.clone()),
                    None => {
                        assert(values[i as int].text() is None);
                        return None;
                    },
                }
                i += 1;
            }
            assert(strings_of(Some(out))->0 =~= Seq::new(
                values.len(),
                |i: int| values[i].text()->0,
            ));
            Some(Some(out))
        },
    }
}

impl MessagePayload {
    /// Reads a payload.
    pub fn from_json(v: &Json) -> (r: Option<MessagePayload>)
        ensures
            r is Some <==> payload_readable(v@),
            r matches Some(p) ==> payload_matches(p, v@),
    {
        let mimetype = read_string_member(v, "mimeType");
        let body = MessagePartBody::from_member(v);
        let headers = match read_optional_array_member(v, "headers") {
            None => None,
            Some(None) => Some(None),
            Some(Some(items)) => match read_headers(items) {
                Some(list) => Some(Some(list)),
                None => None,
            },
        };
        let parts = match read_optional_array_member(v, "parts") {
            None => None,
            Some(None) => Some(None),
            Some(Some(items)) => match read_parts(items) {
                Some(list) => Some(Some(list)),
                None => None,
            },
        };
        match (mimetype, body, headers, parts) {
            (Some(mimetype), Some(body), Some(headers), Some(parts)) => Some(
                MessagePayload { headers, mimetype, body, parts },
            ),
            _ => None,
        }
    }
}

impl Message {
    /// Reads a message.
    pub fn from_json(v: &Json) -> (r: Option<Message>)
        ensures
            r is Some <==> message_readable(v@),
            r matches Some(m) ==> message_matches(m, v@),
    {
        let payload = match read_present_member(v, "payload") {
            None => Some(None),
            Some(member) => match MessagePayload::from_json(member) {
                Some(payload) => Some(Some(payload)),
                None => None,
            },
        };
        match (
            read_string_member(v, "id"),
            read_string_member(v, "threadId"),
            read_optional_string_member(v, "snippet"),
            payload,
            read_optional_strings_member(v, "labelIds"),
            read_string_member(v, "internalDate"),
        ) {
            (
                Some(id),
                Some(thread_id),
                Some(snippet),
                Some(payload),
                Some(label_ids),
                Some(internal_date),
            ) => Some(Message { id, thread_id, snippet, payload, label_ids, internal_date }),
            _ => None,
        }
    }
}

impl Thread {
    /// Reads a thread.
    #[verifier::loop_isolation(false)]
    pub fn from_json(v: &Json) -> (r: Option<Thread>)
        ensures
            r is Some <==> thread_readable(v@),
            r matches Some(t) ==> thread_matches(t, v@),
    {
        let id = match read_string_member(v, "id") {
            Some(id) => id,
            None => {
                return None;
            },
        };
        let items = match v.get("messages") {
            Some(member) => match member.as_array() {
                Some(items) => items,
                None => {
                    return None;
                },
            },
            None => {
                return None;
            },
        };
        let ghost values = values_of(items@);
        assert(v@.at("messages"@) == JsonValue::Array(values));
        let mut messages: Vec<Message> = Vec::new();
        let mut i: usize = 0;
        while i < items.len()
            invariant
                i <= items@.len(),
                values == values_of(items@),
                messages@.len() == i,
                forall|k: int| 0 <= k < i ==> message_readable(#[trigger] values[k]),
                forall|k: int| 0 <= k < i ==> message_matches(#[trigger] messages@[k], values[k]),
            decreases items@.len() - i,
        {
            assert(values[i as int] == items@[i as int]@);
            match Message::from_json(&items[i]) {
                Some(message) => messages.push(message),
                None => {
                    return None;
                },
            }
            i += 1;
        }
        Some(Thread { id, messages })
    }
}

/// The ids that a listing gives can be read from a value where `id` and
/// `threadId` are texts.
pub open spec fn listed_readable(v: JsonValue) -> bool {
    string_member(v, "id"@) is Some && string_member(v, "threadId"@) is Some
}

/// The ids of a listed message are what a value says.
pub open spec fn listed_matches(m: MessageResponse, v: JsonValue) -> bool {
    string_member(v, "id"@) == Some(m.id@) && string_member(v, "threadId"@) == Some(m.thread_id@)
}

/// Every element of an array holds ids that can be read.
pub open spec fn all_listed_readable(items: Seq<JsonValue>) -> bool {
    forall|i: int| 0 <= i < items.len() ==> listed_readable(#[trigger] items[i])
}

/// The listed messages are what the elements of an array say, one for one.
pub open spec fn all_listed_match(list: Seq<MessageResponse>, items: Seq<JsonValue>) -> bool {
    list.len() == items.len() && forall|i: int|
        0 <= i < items.len() ==> listed_matches(#[trigger] list[i], items[i])
}

/// A page of a listing can be read from a value: `messages`, where it is
/// there, is an array of ids that can be read, and `nextPageToken`, where
/// it is there, is a text.
pub open spec fn listing_readable(v: JsonValue) -> bool {
    &&& v is Object
    &&& optional_string_member(v, "nextPageToken"@) is Some
    &&& match optional_array_member(v, "messages"@) {
        Some(Some(items)) => all_listed_readable(items),
        Some(None) => true,
        None => false,
    }
}

/// A page of a listing is what a value says.
pub open spec fn listing_matches(l: ListMessagesResponse, v: JsonValue) -> bool {
    &&& optional_string_member(v, "nextPageToken"@) == Some(text_of(l.next_page_token))
    &&& match optional_array_member(v, "messages"@) {
        Some(Some(items)) => l.messages is Some && all_listed_match(l.messages->0@, items),
        _ => l.messages is None,
    }
}

impl MessageResponse {
    /// Reads the ids of a listed message.
    pub fn from_json(v: &Json) -> (r: Option<MessageResponse>)
        ensures
            r is Some <==> listed_readable(v@),
            r matches Some(m) ==> listed_matches(m, v@),
    {
        match (read_string_member(v, "id"), read_string_member(v, "threadId")) {
            (Some(id), Some(thread_id)) => Some(MessageResponse { id, thread_id }),
            _ => None,
        }
    }
}

impl ListMessagesResponse {
    /// Reads a page of a listing.
    #[verifier::loop_isolation(false)]
    pub fn from_json(v: &Json) -> (r: Option<ListMessagesResponse>)
        ensures
            r is Some <==> listing_readable(v@),
            r matches Some(l) ==> listing_matches(l, v@),
    {
        if !v.is_object() {
            return None;
        }
        let next_page_token = match read_optional_string_member(v, "nextPageToken") {
            Some(token) => token,
            None => {
                return None;
            },
        };
        match read_optional_array_member(v, "messages") {
            None => None,
            Some(None) => Some(ListMessagesResponse { messages: None, next_page_token }),
            Some(Some(items)) => {
                let ghost values = values_of(items@);
                assert(optional_array_member(v@, "messages"@) == Some(Some(values)));
                let mut messages: Vec<MessageResponse> = Vec::new();
                let mut i: usize = 0;
                while i < items.len()
                    invariant
                        i <= items@.len(),
                        values == values_of(items@),
                        messages@.len() == i,
                        forall|k: int| 0 <= k < i ==> listed_readable(#[trigger] values[k]),
                        forall|k: int|
                            0 <= k < i ==> listed_matches(#[trigger] messages@[k], values[k]),
                    decreases items@.len() - i,
                {
                    assert(values[i as int] == items@[i as int]@);
                    match MessageResponse::from_json(&items[i]) {
                        Some(message) => messages.push(message),
                        None => {
                            return None;
                        },
                    }
                    i += 1;
                }
                Some(ListMessagesResponse { messages: Some(messages), next_page_token })
            },
        }
    }
}

} // verus!
