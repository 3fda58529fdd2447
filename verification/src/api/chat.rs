//! Chat sessions as the HTTP interface shows them.

use crate::json::{members_of, push_member, push_value, values_of, Field, Json, JsonValue, Member};
use crate::members::{
    integer_json, integer_to_json, optional_string_json, optional_string_to_json,
    read_string_member, string_member,
};
use crate::openai::message::{
    messages_json, messages_of, messages_to_json, Message, MessageView, Role,
};
use crate::notify::models::PushNotificationPayload;
use crate::openai::tool::{strings_json, strings_to_json};
use crate::text::{pieces_of, split_on, texts_of};
use vstd::prelude::*;
use vstd::string::StringExecFns;

verus! {

/// A stored chat session.
#[derive(Debug)]
pub struct ChatSession {
    pub id: String,
    pub title: Option<String>,
    pub summary: Option<String>,
    pub tags: Vec<String>,
}

/// A message of the user for a session.
#[derive(Debug)]
pub struct ChatRequest {
    pub session_id: String,
    pub message: String,
}

/// Which sessions are asked for.
#[derive(Debug)]
pub struct ChatSessionsQuery {
    pub page: Option<usize>,
    pub limit: Option<usize>,
    pub tags: Option<Vec<String>>,
    pub exclude_tags: Option<Vec<String>>,
}

/// One page of sessions.
#[derive(Debug)]
pub struct ChatSessionsResponse {
    pub sessions: Vec<ChatSession>,
    pub page: usize,
    pub limit: usize,
    pub total_sessions: i64,
    pub total_pages: i64,
}

/// The answer to a message.
#[derive(Debug)]
pub struct ChatResponse {
    message: String,
}

/// The messages of a session.
#[derive(Debug)]
pub struct ChatTranscriptResponse {
    pub transcript: Vec<Message>,
}

impl ChatResponse {
    /// The text of the answer.
    pub closed spec fn text(&self) -> Seq<char> {
        self.message@
    }

    /// An answer with the given text.
    pub fn new(message: &str) -> (r: Self)
        ensures
            r.text() == message@,
    {
        ChatResponse { message: message.to_owned() }
    }

    /// The text of the answer.
    pub fn message(&self) -> (r: &String)
        ensures
            r@ == self.text(),
    {
        &self.message
    }
}

/// The part of the sessions that a query asks for.
#[derive(Debug)]
pub struct PagePlan {
    pub page: usize,
    pub limit: usize,
    pub offset: usize,
}

impl ChatSessionsQuery {
    /// The page that is asked for, the first unless the query says
    /// otherwise.
    pub open spec fn page_or_default(&self) -> int {
        match self.page {
            Some(page) => page as int,
            None => 1,
        }
    }

    /// The number of sessions on a page, twenty unless the query says
    /// otherwise.
    pub open spec fn limit_or_default(&self) -> int {
        match self.limit {
            Some(limit) => limit as int,
            None => 20,
        }
    }

    /// The number of sessions before the page that is asked for.
    pub open spec fn offset(&self) -> int {
        (self.page_or_default() - 1) * self.limit_or_default()
    }

    /// The page, the page size and the number of sessions to skip; nothing
    /// for a page before the first, or where the sessions to skip cannot
    /// be counted.
    pub fn plan(&self) -> (r: Option<PagePlan>)
        ensures
            r is Some <==> 0 <= self.offset() <= usize::MAX && self.page_or_default() >= 1,
            r matches Some(plan) ==> plan.page == self.page_or_default() && plan.limit
                == self.limit_or_default() && plan.offset == self.offset(),
    {
        let page: usize = match self.page {
            Some(page) => page,
            None => 1,
        };
        let limit: usize = match self.limit {
            Some(limit) => limit,
            None => 20,
        };
        if page == 0 {
            assert(self.offset() <= 0) by (nonlinear_arith)
                requires
                    self.offset() == (0 - 1) * self.limit_or_default(),
                    self.limit_or_default() >= 0,
            ;
            return None;
        }
        match (page - 1).checked_mul(limit) {
            Some(offset) => Some(PagePlan { page, limit, offset }),
            None => {
                assert(self.offset() >= 0) by (nonlinear_arith)
                    requires
                        self.offset() == (page - 1) * limit,
                        page >= 1,
                        limit >= 0,
                ;
                None
            },
        }
    }
}

/// The number of pages that `total` sessions fill with `limit` sessions on
/// each page.
pub open spec fn pages(total: int, limit: int) -> int {
    if total % limit == 0 {
        total / limit
    } else {
        total / limit + 1
    }
}

/// The number of pages that the sessions fill; nothing where the page
/// size is zero or the number of sessions is negative.
pub fn total_pages(total_sessions: i64, limit: usize) -> (r: Option<i64>)
    ensures
        r is Some <==> total_sessions >= 0 && limit > 0,
        r matches Some(n) ==> n == pages(total_sessions as int, limit as int),
{
    if total_sessions < 0 || limit == 0 {
        return None;
    }
    if limit as u64 > i64::MAX as u64 {
        assert(total_sessions as int / limit as int == 0) by (nonlinear_arith)
            requires
                0 <= total_sessions < limit,
        ;
        assert(total_sessions as int % limit as int == total_sessions) by (nonlinear_arith)
            requires
                0 <= total_sessions < limit,
        ;
        return Some(if total_sessions == 0 {
            0
        } else {
            1
        });
    }
    let per_page: i64 = limit as i64;
    let full: i64 = total_sessions / per_page;
    if total_sessions % per_page == 0 {
        Some(full)
    } else {
        assert(full < total_sessions) by (nonlinear_arith)
            requires
                full == total_sessions / per_page,
                total_sessions % per_page != 0,
                per_page > 0,
                total_sessions >= 0,
        ;
        Some(full + 1)
    }
}

/// The transcript that a message of the user is answered from: what is
/// stored of the session, begun with the system message where nothing is
/// stored, and the message of the user at the end.
pub open spec fn seeded(stored: Seq<MessageView>, system: Seq<char>, user: MessageView) -> Seq<
    MessageView,
> {
    if stored.len() == 0 {
        seq![MessageView::text(Role::System, system), user]
    } else {
        stored.push(user)
    }
}

/// The transcript that a message of the user is answered from.
pub fn seed_transcript(stored: Vec<Message>, system_message: &str, user: Message) -> (r: Vec<
    Message,
>)
    ensures
        messages_of(r@) == seeded(messages_of(stored@), system_message@, user@),
{
    let mut transcript = stored;
    let ghost before = messages_of(transcript@);
    if transcript.len() == 0 {
        transcript.push(Message::new(Role::System, system_message));
    }
    transcript.push(user);
    assert(messages_of(transcript@) =~= seeded(before, system_message@, user@));
    transcript
}

/// The chunk that tells a streaming client of a failure: a content delta
/// with the reason, and `error` as its finish reason.
pub open spec fn error_chunk_json(reason: Seq<char>) -> JsonValue {
    JsonValue::Object(
        Seq::empty().push(Field { name: "id"@, value: JsonValue::String("error"@) }).push(
            Field {
                name: "choices"@,
                value: JsonValue::Array(
                    Seq::empty().push(
                        JsonValue::Object(
                            Seq::empty().push(
                                Field {
                                    name: "finish_reason"@,
                                    value: JsonValue::String("error"@),
                                },
                            ).push(
                                Field {
                                    name: "delta"@,
                                    value: JsonValue::Object(
                                        Seq::empty().push(
                                            Field {
                                                name: "content"@,
                                                value: JsonValue::String(
                                                    "Something went wrong: "@ + reason,
                                                ),
                                            },
                                        ),
                                    ),
                                },
                            ),
                        ),
                    ),
                ),
            },
        ),
    )
}

/// The chunk that tells a streaming client of a failure.
pub fn error_chunk(reason: &str) -> (r: Json)
    ensures
        r@ == error_chunk_json(reason@),
{
    let text = "Something went wrong: ".to_owned().concat(reason);
    let mut delta: Vec<Member> = Vec::new();
    assert(members_of(delta@) =~= Seq::empty());
    push_member(&mut delta, "content", Json::string(text.as_str()));
    let mut choice: Vec<Member> = Vec::new();
    assert(members_of(choice@) =~= Seq::empty());
    push_member(&mut choice, "finish_reason", Json::string("error"));
    push_member(&mut choice, "delta", Json::object(delta));
    let mut choices: Vec<Json> = Vec::new();
    assert(values_of(choices@) =~= Seq::empty());
    push_value(&mut choices, Json::object(choice));
    let mut fields: Vec<Member> = Vec::new();
    assert(members_of(fields@) =~= Seq::empty());
    push_member(&mut fields, "id", Json::string("error"));
    push_member(&mut fields, "choices", Json::array(choices));
    Json::object(fields)
}

impl ChatRequest {
    /// Reads a message of the user for a session: an object with the texts
    /// `session_id` and `message`.
    pub fn from_json(v: &Json) -> (r: Option<ChatRequest>)
        ensures
            r is Some <==> string_member(v@, "session_id"@) is Some && string_member(
                v@,
                "message"@,
            ) is Some,
            r matches Some(x) ==> string_member(v@, "session_id"@) == Some(x.session_id@)
                && string_member(v@, "message"@) == Some(x.message@),
    {
        match (read_string_member(v, "session_id"), read_string_member(v, "message")) {
            (Some(session_id), Some(message)) => Some(ChatRequest { session_id, message }),
            _ => None,
        }
    }
}

impl ChatResponse {
    /// The JSON form of the answer.
    pub fn to_json(&self) -> (r: Json)
        ensures
            r@ == JsonValue::Object(
                Seq::empty().push(Field { name: "message"@, value: JsonValue::String(self.text()) }),
            ),
    {
        let mut fields: Vec<Member> = Vec::new();
        assert(members_of(fields@) =~= Seq::empty());
        push_member(&mut fields, "message", Json::string(self.message.as_str()));
        Json::object(fields)
    }
}

impl ChatSession {
    /// The members of the JSON form: id, title, summary and tags. A title
    /// or summary that is missing is written as `null`.
    pub open spec fn members(&self) -> Seq<Field> {
        Seq::empty().push(Field { name: "id"@, value: JsonValue::String(self.id@) }).push(
            Field { name: "title"@, value: optional_string_json(self.title) },
        ).push(Field { name: "summary"@, value: optional_string_json(self.summary) }).push(
            Field { name: "tags"@, value: JsonValue::Array(strings_json(self.tags@)) },
        )
    }

    /// The JSON form of the session.
    pub fn to_json(&self) -> (r: Json)
        ensures
            r@ == JsonValue::Object(self.members()),
    {
        let mut fields: Vec<Member> = Vec::new();
        assert(members_of(fields@) =~= Seq::empty());
        push_member(&mut fields, "id", Json::string(self.id.as_str()));
        push_member(&mut fields, "title", optional_string_to_json(&self.title));
        push_member(&mut fields, "summary", optional_string_to_json(&self.summary));
        push_member(&mut fields, "tags", strings_to_json(&self.tags));
        Json::object(fields)
    }
}

/// The JSON forms of a sequence of sessions.
pub open spec fn sessions_json(sessions: Seq<ChatSession>) -> Seq<JsonValue> {
    Seq::new(sessions.len(), |i: int| JsonValue::Object(sessions[i].members()))
}

impl ChatSessionsResponse {
    /// The members of the JSON form: the sessions, the page, the page size
    /// and the totals.
    pub open spec fn members(&self) -> Seq<Field> {
        Seq::empty().push(
            Field { name: "sessions"@, value: JsonValue::Array(sessions_json(self.sessions@)) },
        ).push(Field { name: "page"@, value: JsonValue::UInt(self.page as int) }).push(
            Field { name: "limit"@, value: JsonValue::UInt(self.limit as int) },
        ).push(
            Field { name: "total_sessions"@, value: integer_json(self.total_sessions as int) },
        ).push(Field { name: "total_pages"@, value: integer_json(self.total_pages as int) })
    }

    /// The JSON form of the page.
    pub fn to_json(&self) -> (r: Json)
        ensures
            r@ == JsonValue::Object(self.members()),
    {
        let ghost all = sessions_json(self.sessions@);
        let mut items: Vec<Json> = Vec::new();
        let mut i: usize = 0;
        assert(values_of(items@) =~= all.take(0));
        while i < self.sessions.len()
            invariant
                i <= self.sessions@.len(),
                all == sessions_json(self.sessions@),
                values_of(items@) == all.take(i as int),
            decreases self.sessions@.len() - i,
        {
            push_value(&mut items, self.sessions[i].to_json());
            assert(all.take(i + 1) =~= all.take(i as int).push(all[i as int]));
            i += 1;
        }
        assert(all.take(self.sessions@.len() as int) =~= all);
        let mut fields: Vec<Member> = Vec::new();
        assert(members_of(fields@) =~= Seq::empty());
        push_member(&mut fields, "sessions", Json::array(items));
        push_member(&mut fields, "page", Json::UInt(self.page as u64));
        push_member(&mut fields, "limit", Json::UInt(self.limit as u64));
        push_member(&mut fields, "total_sessions", integer_to_json(self.total_sessions));
        push_member(&mut fields, "total_pages", integer_to_json(self.total_pages));
        Json::object(fields)
    }
}

impl ChatTranscriptResponse {
    /// The JSON form of the messages of a session.
    pub fn to_json(&self) -> (r: Json)
        ensures
            r@ == JsonValue::Object(
                Seq::empty().push(
                    Field {
                        name: "transcript"@,
                        value: JsonValue::Array(messages_json(messages_of(self.transcript@))),
                    },
                ),
            ),
    {
        let mut fields: Vec<Member> = Vec::new();
        assert(members_of(fields@) =~= Seq::empty());
        push_member(&mut fields, "transcript", messages_to_json(&self.transcript));
        Json::object(fields)
    }
}

/// How the sessions of a listing are selected.
#[derive(Debug)]
pub enum SessionSelection {
    /// Every session counts. The listing then shows no tags.
    All,
    /// A session counts where it bears one of the wanted tags, if any
    /// are given, and none of the unwanted tags. Both lists are handed to
    /// the store as the text of a JSON array, each with its length.
    ByTags { wanted: String, wanted_count: usize, unwanted: String, unwanted_count: usize },
}

/// The selection that the tags of a query ask for: every session where no
/// tag is given, and a selection by tags otherwise.
pub fn session_selection(include_tags: &Vec<String>, exclude_tags: &Vec<String>) -> (r:
    SessionSelection)
    ensures
        match r {
            SessionSelection::All => include_tags@.len() == 0 && exclude_tags@.len() == 0,
            SessionSelection::ByTags { wanted, wanted_count, unwanted, unwanted_count } => {
                &&& include_tags@.len() > 0 || exclude_tags@.len() > 0
                &&& wanted@ == crate::json::rendered(
                    JsonValue::Array(strings_json(include_tags@)),
                )
                &&& wanted_count == include_tags@.len()
                &&& unwanted@ == crate::json::rendered(
                    JsonValue::Array(strings_json(exclude_tags@)),
                )
                &&& unwanted_count == exclude_tags@.len()
            },
        },
{
    if include_tags.len() == 0 && exclude_tags.len() == 0 {
        SessionSelection::All
    } else {
        SessionSelection::ByTags {
            wanted: strings_to_json(include_tags).render(),
            wanted_count: include_tags.len(),
            unwanted: strings_to_json(exclude_tags).render(),
            unwanted_count: exclude_tags.len(),
        }
    }
}

/// The tags of a session as the store lists them: in one text with commas
/// between them, or not at all for a session without tags.
pub open spec fn listed_tags(column: Option<Seq<char>>) -> Seq<Seq<char>> {
    match column {
        Some(text) => pieces_of(text, ','),
        None => Seq::empty(),
    }
}

/// Reads the tags of a session from what the store lists.
pub fn session_tags(column: Option<&str>) -> (r: Vec<String>)
    ensures
        texts_of(r@) == listed_tags(
            match column {
                Some(text) => Some(text@),
                None => None,
            },
        ),
{
    match column {
        Some(text) => split_on(text, ','),
        None => {
            let none: Vec<String> = Vec::new();
            assert(texts_of(none@) =~= Seq::empty());
            none
        },
    }
}

/// What a client is told that went away before its answer came: that
/// there is a new response, with a link to the chat of the session.
pub fn disconnected_notification(session_id: &str) -> (r: PushNotificationPayload)
    ensures
        r.title@ == "New chat response"@,
        r.body@ == "New response after you disconnected."@,
        r.data.url@ == "/chat/?session_id="@ + session_id@,
        r.actions@.len() == 0,
        r.tag is None,
{
    let url = "/chat/?session_id=".to_owned().concat(session_id);
    PushNotificationPayload::new(
        "New chat response",
        "New response after you disconnected.",
        Some(url.as_str()),
        None,
        None,
    )
}

} // verus!
