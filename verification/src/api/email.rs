//! Unread mail as the HTTP interface shows it.

use crate::google::gmail::{
    body_text, extract_body, Message as GmailMessage, MessageHeader, Thread,
};
use crate::json::{members_of, push_member, push_value, values_of, Field, Json, JsonValue, Member};
use crate::members::{read_string_member, string_member, text_of};
use crate::text::{
    lemma_text_le_total, lemma_text_le_transitive, str_eq, str_le, text_le, trim, trim_str,
};
use vstd::seq_lib::to_multiset_insert;
use vstd::prelude::*;

verus! {

/// Whose unread mail is asked for, and of how many days.
#[derive(Debug)]
pub struct EmailUnreadQuery {
    pub email: String,
    pub limit: Option<i64>,
}

/// A message of a thread, with its body as readable text.
#[derive(Clone)]
pub struct EmailMessage {
    pub id: String,
    pub thread_id: String,
    pub from: String,
    pub to: String,
    pub received: String,
    pub subject: String,
    pub body: String,
}

/// A thread, headed by what its first message says of itself.
#[derive(Clone)]
pub struct EmailThread {
    pub id: String,
    pub received: String,
    pub from: String,
    pub to: String,
    pub subject: String,
    pub messages: Vec<EmailMessage>,
}

impl EmailUnreadQuery {
    /// The number of days to look back: seven unless the query says
    /// otherwise.
    pub fn days(&self) -> (r: i64)
        ensures
            r == match self.limit {
                Some(days) => days,
                None => 7,
            },
    {
        match self.limit {
            Some(days) => days,
            None => 7,
        }
    }
}

impl EmailMessage {
    /// The members of the JSON form.
    pub open spec fn members(&self) -> Seq<Field> {
        Seq::empty().push(Field { name: "id"@, value: JsonValue::String(self.id@) }).push(
            Field { name: "thread_id"@, value: JsonValue::String(self.thread_id@) },
        ).push(Field { name: "from"@, value: JsonValue::String(self.from@) }).push(
            Field { name: "to"@, value: JsonValue::String(self.to@) },
        ).push(Field { name: "received"@, value: JsonValue::String(self.received@) }).push(
            Field { name: "subject"@, value: JsonValue::String(self.subject@) },
        ).push(Field { name: "body"@, value: JsonValue::String(self.body@) })
    }

    /// The JSON form of the message.
    pub fn to_json(&self) -> (r: Json)
        ensures
            r@ == JsonValue::Object(self.members()),
    {
        let mut fields: Vec<Member> = Vec::new();
        assert(members_of(fields@) =~= Seq::empty());
        push_member(&mut fields, "id", Json::string(self.id.as_str()));
        push_member(&mut fields, "thread_id", Json::string(self.thread_id.as_str()));
        push_member(&mut fields, "from", Json::string(self.from.as_str()));
        push_member(&mut fields, "to", Json::string(self.to.as_str()));
        push_member(&mut fields, "received", Json::string(self.received.as_str()));
        push_member(&mut fields, "subject", Json::string(self.subject.as_str()));
        push_member(&mut fields, "body", Json::string(self.body.as_str()));
        Json::object(fields)
    }
}

/// The JSON forms of a sequence of messages.
pub open spec fn email_messages_json(messages: Seq<EmailMessage>) -> Seq<JsonValue> {
    Seq::new(messages.len(), |i: int| JsonValue::Object(messages[i].members()))
}

impl EmailThread {
    /// The members of the JSON form.
    pub open spec fn members(&self) -> Seq<Field> {
        Seq::empty().push(Field { name: "id"@, value: JsonValue::String(self.id@) }).push(
            Field { name: "received"@, value: JsonValue::String(self.received@) },
        ).push(Field { name: "from"@, value: JsonValue::String(self.from@) }).push(
            Field { name: "to"@, value: JsonValue::String(self.to@) },
        ).push(Field { name: "subject"@, value: JsonValue::String(self.subject@) }).push(
            Field {
                name: "messages"@,
                value: JsonValue::Array(email_messages_json(self.messages@)),
            },
        )
    }

    /// The JSON form of the thread.
    pub fn to_json(&self) -> (r: Json)
        ensures
            r@ == JsonValue::Object(self.members()),
    {
        let ghost all = email_messages_json(self.messages@);
        let mut items: Vec<Json> = Vec::new();
        let mut i: usize = 0;
        assert(values_of(items@) =~= all.take(0));
        while i < self.messages.len()
            invariant
                i <= self.messages@.len(),
                all == email_messages_json(self.messages@),
                values_of(items@) == all.take(i as int),
            decreases self.messages@.len() - i,
        {
            push_value(&mut items, self.messages[i].to_json());
            assert(all.take(i + 1) =~= all.take(i as int).push(all[i as int]));
            i += 1;
        }
        assert(all.take(self.messages@.len() as int) =~= all);
        let mut fields: Vec<Member> = Vec::new();
        assert(members_of(fields@) =~= Seq::empty());
        push_member(&mut fields, "id", Json::string(self.id.as_str()));
        push_member(&mut fields, "received", Json::string(self.received.as_str()));
        push_member(&mut fields, "from", Json::string(self.from.as_str()));
        push_member(&mut fields, "to", Json::string(self.to.as_str()));
        push_member(&mut fields, "subject", Json::string(self.subject.as_str()));
        push_member(&mut fields, "messages", Json::array(items));
        Json::object(fields)
    }
}

/// What a message of a thread needs to be shown: a payload with the
/// headers `From`, `To` and `Subject`, by these very names.
pub open spec fn showable(message: GmailMessage) -> bool {
    &&& message.payload is Some
    &&& message.payload->0.headers is Some
    &&& exact_header(message.payload->0.headers->0@, "From"@, 0) is Some
    &&& exact_header(message.payload->0.headers->0@, "To"@, 0) is Some
    &&& exact_header(message.payload->0.headers->0@, "Subject"@, 0) is Some
}

/// `shown` is the message as it is shown: with its sender, its recipients
/// and its subject as the headers give them, and its body as readable text
/// without white space around it.
pub open spec fn shows(shown: EmailMessage, message: GmailMessage) -> bool {
    let headers = message.payload->0.headers->0@;
    &&& shown.id@ == message.id@
    &&& shown.thread_id@ == message.thread_id@
    &&& shown.received@ == message.internal_date@
    &&& Some(shown.from@) == exact_header(headers, "From"@, 0)
    &&& Some(shown.to@) == exact_header(headers, "To"@, 0)
    &&& Some(shown.subject@) == exact_header(headers, "Subject"@, 0)
    &&& shown.body@ == trim(body_text(message))
}

/// The value of the first header at or after `from` whose name is `name`.
pub open spec fn exact_header(headers: Seq<MessageHeader>, name: Seq<char>, from: int) -> Option<
    Seq<char>,
>
    decreases headers.len() - from,
{
    if from < 0 || from >= headers.len() {
        None
    } else if headers[from].name@ == name {
        Some(headers[from].value@)
    } else {
        exact_header(headers, name, from + 1)
    }
}

/// The value of the first header whose name is `name`.
pub fn find_header(headers: &Vec<MessageHeader>, name: &str) -> (r: Option<String>)
    ensures
        text_of(r) == exact_header(headers@, name@, 0),
{
    let mut i: usize = 0;
    while i < headers.len()
        invariant
            i <= headers@.len(),
            exact_header(headers@, name@, 0) == exact_header(headers@, name@, i as int),
        decreases headers@.len() - i,
    {
        if str_eq(headers[i].name.as_str(), name) {
            return Some(headers[i].value.clone());
        }
        i += 1;
    }
    None
}

/// A message of a thread as it is shown. Nothing for a message that lacks
/// what it needs to be shown.
pub fn email_message(message: &GmailMessage) -> (r: Option<EmailMessage>)
    ensures
        r is Some <==> showable(*message),
        r matches Some(m) ==> shows(m, *message),
{
    let payload = match &message.payload {
        Some(payload) => payload,
        None => {
            return None;
        },
    };
    let headers = match &payload.headers {
        Some(headers) => headers,
        None => {
            return None;
        },
    };
    match (find_header(headers, "From"), find_header(headers, "To"), find_header(headers, "Subject")) {
        (Some(from), Some(to), Some(subject)) => {
            let body = trim_str(extract_body(message).as_str());
            Some(
                EmailMessage {
                    id: message.id.clone(),
                    thread_id: message.thread_id.clone(),
                    from,
                    to,
                    received: message.internal_date.clone(),
                    subject,
                    body,
                },
            )
        },
        _ => None,
    }
}

/// A thread as it is shown: its messages in their order, headed by what
/// the first message says of itself. Nothing for a thread without messages
/// or with a message that cannot be shown.
pub fn email_thread(thread: &Thread) -> (r: Option<EmailThread>)
    ensures
        r is Some <==> thread.messages@.len() > 0 && forall|i: int|
            0 <= i < thread.messages@.len() ==> showable(#[trigger] thread.messages@[i]),
        r matches Some(t) ==> {
            &&& t.id@ == thread.id@
            &&& t.messages@.len() == thread.messages@.len()
            &&& t.received@ == t.messages@[0].received@
            &&& t.from@ == t.messages@[0].from@
            &&& t.to@ == t.messages@[0].to@
            &&& t.subject@ == t.messages@[0].subject@
            &&& forall|i: int|
                0 <= i < t.messages@.len() ==> shows(
                    #[trigger] t.messages@[i],
                    thread.messages@[i],
                )
        },
{
    let mut messages: Vec<EmailMessage> = Vec::new();
    let mut i: usize = 0;
    while i < thread.messages.len()
        invariant
            i <= thread.messages@.len(),
            messages@.len() == i,
            forall|k: int| 0 <= k < i ==> showable(#[trigger] thread.messages@[k]),
            forall|k: int| 0 <= k < i ==> shows(#[trigger] messages@[k], thread.messages@[k]),
        decreases thread.messages@.len() - i,
    {
        match email_message(&thread.messages[i]) {
            Some(message) => messages.push(message),
            None => {
                return None;
            },
        }
        i += 1;
    }
    if messages.len() == 0 {
        return None;
    }
    Some(
        EmailThread {
            id: thread.id.clone(),
            received: messages[0].received.clone(),
            from: messages[0].from.clone(),
            to: messages[0].to.clone(),
            subject: messages[0].subject.clone(),
            messages,
        },
    )
}

/// Where a thread goes among threads that stand newest first: before the
/// first of them that is not newer than it, at or after `from`.
pub open spec fn place_of(sorted: Seq<EmailThread>, thread: EmailThread, from: int) -> int
    decreases sorted.len() - from,
{
    if from < 0 || from >= sorted.len() || text_le(sorted[from].received@, thread.received@) {
        from
    } else {
        place_of(sorted, thread, from + 1)
    }
}

/// The threads newest first: in the falling order of the time at which
/// each was received, as its text, and threads of the same time in the
/// order in which they were given.
pub open spec fn newest_first_of(threads: Seq<EmailThread>) -> Seq<EmailThread>
    decreases threads.len(),
{
    if threads.len() == 0 {
        threads
    } else {
        let rest = newest_first_of(threads.drop_first());
        rest.insert(place_of(rest, threads[0], 0), threads[0])
    }
}

/// No thread stands before a newer one.
pub open spec fn stands_newest_first(threads: Seq<EmailThread>) -> bool {
    forall|i: int, j: int|
        0 <= i < j < threads.len() ==> text_le(
            #[trigger] threads[j].received@,
            #[trigger] threads[i].received@,
        )
}

/// The place of a thread lies among the threads; all threads before it
/// are newer than the thread, and the thread at it is not.
pub proof fn lemma_place_of(sorted: Seq<EmailThread>, thread: EmailThread, from: int)
    requires
        0 <= from <= sorted.len(),
    ensures
        from <= place_of(sorted, thread, from) <= sorted.len(),
        forall|i: int|
            from <= i < place_of(sorted, thread, from) ==> !text_le(
                (#[trigger] sorted[i]).received@,
                thread.received@,
            ),
        place_of(sorted, thread, from) < sorted.len() ==> text_le(
            sorted[place_of(sorted, thread, from)].received@,
            thread.received@,
        ),
    decreases sorted.len() - from,
{
    if from < sorted.len() && !text_le(sorted[from].received@, thread.received@) {
        lemma_place_of(sorted, thread, from + 1);
    }
}

/// Sorting keeps every thread and puts the newest first: the sorted
/// threads are the given ones, each as often as it was given, and none
/// stands before a newer one.
pub proof fn lemma_newest_first(threads: Seq<EmailThread>)
    ensures
        newest_first_of(threads).len() == threads.len(),
        newest_first_of(threads).to_multiset() == threads.to_multiset(),
        stands_newest_first(newest_first_of(threads)),
    decreases threads.len(),
{
    if threads.len() > 0 {
        let first = threads[0];
        let rest = newest_first_of(threads.drop_first());
        let place = place_of(rest, first, 0);
        let all = rest.insert(place, first);
        lemma_newest_first(threads.drop_first());
        lemma_place_of(rest, first, 0);
        to_multiset_insert(rest, place, first);
        to_multiset_insert(threads.drop_first(), 0, first);
        assert(threads.drop_first().insert(0, first) =~= threads);
        assert forall|i: int, j: int| 0 <= i < j < all.len() implies text_le(
            #[trigger] all[j].received@,
            #[trigger] all[i].received@,
        ) by {
            if j < place {
                assert(all[i] == rest[i] && all[j] == rest[j]);
            } else if j == place {
                assert(all[i] == rest[i]);
                lemma_text_le_total(rest[i].received@, first.received@);
            } else if i < place {
                assert(all[i] == rest[i] && all[j] == rest[j - 1]);
            } else if i == place {
                assert(all[j] == rest[j - 1]);
                if place < j - 1 {
                    assert(text_le(rest[j - 1].received@, rest[place].received@));
                } else {
                    lemma_text_le_total(rest[place].received@, rest[place].received@);
                }
                lemma_text_le_transitive(
                    rest[j - 1].received@,
                    rest[place].received@,
                    first.received@,
                );
            } else {
                assert(all[i] == rest[i - 1] && all[j] == rest[j - 1]);
            }
        }
    }
}

/// Puts threads in the order in which they are shown: the newest first.
pub fn newest_first(threads: Vec<EmailThread>) -> (r: Vec<EmailThread>)
    ensures
        r@ == newest_first_of(threads@),
        r@.to_multiset() == threads@.to_multiset(),
        stands_newest_first(r@),
{
    let mut left = threads;
    let mut out: Vec<EmailThread> = Vec::new();
    assert(threads@.skip(threads@.len() as int) =~= Seq::empty());
    while left.len() > 0
        invariant
            left@ == threads@.take(left@.len() as int),
            left@.len() <= threads@.len(),
            out@ == newest_first_of(threads@.skip(left@.len() as int)),
        decreases left@.len(),
    {
        let ghost before = threads@.skip(left@.len() as int);
        let ghost n = left@.len() - 1;
        let thread = left.pop().unwrap();
        assert(thread == threads@[n]);
        let ghost now = threads@.skip(n);
        assert(now.drop_first() =~= before);
        assert(now[0] == thread);
        assert(left@ =~= threads@.take(n));
        let mut place: usize = 0;
        proof {
            lemma_place_of(out@, thread, 0);
        }
        while place < out.len() && !str_le(out[place].received.as_str(), thread.received.as_str())
            invariant
                place <= out@.len(),
                place_of(out@, thread, 0) == place_of(out@, thread, place as int),
            decreases out@.len() - place,
        {
            place += 1;
        }
        out.insert(place, thread);
    }
    proof {
        assert(threads@.skip(0) =~= threads@);
        lemma_newest_first(threads@);
    }
    out
}

/// A shown message can be read from a value: every one of its members is
/// there and is a text.
pub open spec fn email_message_readable(v: JsonValue) -> bool {
    &&& string_member(v, "id"@) is Some
    &&& string_member(v, "thread_id"@) is Some
    &&& string_member(v, "from"@) is Some
    &&& string_member(v, "to"@) is Some
    &&& string_member(v, "received"@) is Some
    &&& string_member(v, "subject"@) is Some
    &&& string_member(v, "body"@) is Some
}

/// A shown message is what a value says.
pub open spec fn email_message_matches(m: EmailMessage, v: JsonValue) -> bool {
    &&& string_member(v, "id"@) == Some(m.id@)
    &&& string_member(v, "thread_id"@) == Some(m.thread_id@)
    &&& string_member(v, "from"@) == Some(m.from@)
    &&& string_member(v, "to"@) == Some(m.to@)
    &&& string_member(v, "received"@) == Some(m.received@)
    &&& string_member(v, "subject"@) == Some(m.subject@)
    &&& string_member(v, "body"@) == Some(m.body@)
}

/// Every element of an array is a shown message that can be read.
pub open spec fn email_messages_readable(items: Seq<JsonValue>) -> bool {
    forall|i: int| 0 <= i < items.len() ==> email_message_readable(#[trigger] items[i])
}

/// The shown messages are what the elements of an array say, one for one.
pub open spec fn email_messages_match(list: Seq<EmailMessage>, items: Seq<JsonValue>) -> bool {
    list.len() == items.len() && forall|i: int|
        0 <= i < items.len() ==> email_message_matches(#[trigger] list[i], items[i])
}

/// A shown thread can be read from a value: its head is made of texts and
/// `messages` is an array of shown messages that can be read.
pub open spec fn email_thread_readable(v: JsonValue) -> bool {
    &&& string_member(v, "id"@) is Some
    &&& string_member(v, "received"@) is Some
    &&& string_member(v, "from"@) is Some
    &&& string_member(v, "to"@) is Some
    &&& string_member(v, "subject"@) is Some
    &&& v.at("messages"@) matches JsonValue::Array(items) && email_messages_readable(items)
}

/// A shown thread is what a value says.
pub open spec fn email_thread_matches(t: EmailThread, v: JsonValue) -> bool {
    &&& string_member(v, "id"@) == Some(t.id@)
    &&& string_member(v, "received"@) == Some(t.received@)
    &&& string_member(v, "from"@) == Some(t.from@)
    &&& string_member(v, "to"@) == Some(t.to@)
    &&& string_member(v, "subject"@) == Some(t.subject@)
    &&& v.at("messages"@) matches JsonValue::Array(items) && email_messages_match(
        t.messages@,
        items,
    )
}

/// Every element of an array is a shown thread that can be read.
pub open spec fn email_threads_readable(items: Seq<JsonValue>) -> bool {
    forall|i: int| 0 <= i < items.len() ==> email_thread_readable(#[trigger] items[i])
}

/// The shown threads are what the elements of an array say, one for one.
pub open spec fn email_threads_match(list: Seq<EmailThread>, items: Seq<JsonValue>) -> bool {
    list.len() == items.len() && forall|i: int|
        0 <= i < items.len() ==> email_thread_matches(#[trigger] list[i], items[i])
}

impl EmailMessage {
    /// Reads a shown message.
    pub fn from_json(v: &Json) -> (r: Option<EmailMessage>)
        ensures
            r is Some <==> email_message_readable(v@),
            r matches Some(m) ==> email_message_matches(m, v@),
    {
        let id = read_string_member(v, "id");
        let thread_id = read_string_member(v, "thread_id");
        let from = read_string_member(v, "from");
        let to = read_string_member(v, "to");
        let received = read_string_member(v, "received");
        let subject = read_string_member(v, "subject");
        let body = read_string_member(v, "body");
        if id.is_none() || thread_id.is_none() || from.is_none() || to.is_none()
            || received.is_none() || subject.is_none() || body.is_none() {
            return None;
        }
        Some(
            EmailMessage {
                id: id.unwrap(),
                thread_id: thread_id.unwrap(),
                from: from.unwrap(),
                to: to.unwrap(),
                received: received.unwrap(),
                subject: subject.unwrap(),
                body: body.unwrap(),
            },
        )
    }
}

/// Reads the shown messages in an array.
pub fn read_email_messages(items: &Vec<Json>) -> (r: Option<Vec<EmailMessage>>)
    ensures
        r is Some <==> email_messages_readable(values_of(items@)),
        r matches Some(list) ==> email_messages_match(list@, values_of(items@)),
{
    let ghost values = values_of(items@);
    let mut out: Vec<EmailMessage> = Vec::new();
    let mut i: usize = 0;
    while i < items.len()
        invariant
            i <= items@.len(),
            values == values_of(items@),
            out@.len() == i,
            forall|k: int| 0 <= k < i ==> email_message_readable(#[trigger] values[k]),
            forall|k: int| 0 <= k < i ==> email_message_matches(#[trigger] out@[k], values[k]),
        decreases items@.len() - i,
    {
        assert(values[i as int] == items@[i as int]@);
        match EmailMessage::from_json(&items[i]) {
            Some(message) => out.push(message),
            None => {
                return None;
            },
        }
        i += 1;
    }
    Some(out)
}

impl EmailThread {
    /// Reads a shown thread.
    pub fn from_json(v: &Json) -> (r: Option<EmailThread>)
        ensures
            r is Some <==> email_thread_readable(v@),
            r matches Some(t) ==> email_thread_matches(t, v@),
    {
        let messages = match v.get("messages") {
            Some(member) => match member.as_array() {
                Some(items) => read_email_messages(items),
                None => None,
            },
            None => None,
        };
        let id = read_string_member(v, "id");
        let received = read_string_member(v, "received");
        let from = read_string_member(v, "from");
        let to = read_string_member(v, "to");
        let subject = read_string_member(v, "subject");
        if id.is_none() || received.is_none() || from.is_none() || to.is_none()
            || subject.is_none() || messages.is_none() {
            return None;
        }
        Some(
            EmailThread {
                id: id.unwrap(),
                received: received.unwrap(),
                from: from.unwrap(),
                to: to.unwrap(),
                subject: subject.unwrap(),
                messages: messages.unwrap(),
            },
        )
    }
}

/// Reads the shown threads in an array.
pub fn read_email_threads(items: &Vec<Json>) -> (r: Option<Vec<EmailThread>>)
    ensures
        r is Some <==> email_threads_readable(values_of(items@)),
        r matches Some(list) ==> email_threads_match(list@, values_of(items@)),
{
    let ghost values = values_of(items@);
    let mut out: Vec<EmailThread> = Vec::new();
    let mut i: usize = 0;
    while i < items.len()
        invariant
            i <= items@.len(),
            values == values_of(items@),
            out@.len() == i,
            forall|k: int| 0 <= k < i ==> email_thread_readable(#[trigger] values[k]),
            forall|k: int| 0 <= k < i ==> email_thread_matches(#[trigger] out@[k], values[k]),
        decreases items@.len() - i,
    {
        assert(values[i as int] == items@[i as int]@);
        match EmailThread::from_json(&items[i]) {
            Some(thread) => out.push(thread),
            None => {
                return None;
            },
        }
        i += 1;
    }
    Some(out)
}

/// The shown threads as a JSON array, in their order.
pub fn email_threads_to_json(threads: &Vec<EmailThread>) -> (r: Json)
    ensures
        r@ == JsonValue::Array(
            Seq::new(threads@.len(), |i: int| JsonValue::Object(threads@[i].members())),
        ),
{
    let ghost all = Seq::new(threads@.len(), |i: int| JsonValue::Object(threads@[i].members()));
    let mut items: Vec<Json> = Vec::new();
    let mut i: usize = 0;
    assert(values_of(items@) =~= all.take(0));
    while i < threads.len()
        invariant
            i <= threads@.len(),
            all == Seq::new(threads@.len(), |i: int| JsonValue::Object(threads@[i].members())),
            values_of(items@) == all.take(i as int),
        decreases threads@.len() - i,
    {
        push_value(&mut items, threads[i].to_json());
        assert(all.take(i + 1) =~= all.take(i as int).push(all[i as int]));
        i += 1;
    }
    assert(all.take(threads@.len() as int) =~= all);
    Json::array(items)
}

} // verus!
