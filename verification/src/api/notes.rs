//! Searching and viewing notes.

use crate::json::{members_of, push_member, push_value, values_of, Field, Json, JsonValue, Member};
use crate::members::{
    flag_member, optional_string_json, optional_string_member, optional_string_to_json,
    read_flag_member, read_optional_string_member, read_string_member, string_member, text_of,
};
use crate::text::texts_of;
use vstd::prelude::*;
use vstd::string::StringExecFns;

verus! {

/// The number of results of a search that does not say how many it wants.
pub fn default_limit() -> (r: usize)
    ensures
        r == 20,
{
    20
}

/// The setting of an option that is on unless it is switched off.
pub fn default_as_true() -> (r: bool)
    ensures
        r,
{
    true
}

/// The setting of an option that is off unless it is switched on.
pub fn default_as_false() -> (r: bool)
    ensures
        !r,
{
    false
}

/// A search.
#[derive(Debug)]
pub struct SearchRequest {
    pub query: String,
    pub include_similarity: bool,
    pub limit: usize,
    pub truncate: bool,
}

/// A note that a search found.
#[derive(Debug)]
pub struct SearchResult {
    pub id: String,
    pub kind: String,
    pub title: String,
    pub category: String,
    pub file_name: String,
    pub tags: Option<String>,
    pub is_task: bool,
    pub task_status: Option<String>,
    pub task_scheduled: Option<String>,
    pub task_deadline: Option<String>,
    pub task_closed: Option<String>,
    pub meeting_date: Option<String>,
    pub body: String,
}

/// What a search found.
#[derive(Debug)]
pub struct SearchResponse {
    pub raw_query: String,
    pub parsed_query: String,
    pub results: Vec<SearchResult>,
}

/// A note.
#[derive(Debug)]
pub struct ViewNoteResponse {
    pub id: String,
    pub title: String,
    pub body: String,
    pub tags: Option<String>,
}

impl SearchRequest {
    /// A search for `query` with the settings that a request has unless it
    /// says otherwise: the text alone, twenty results, bodies cut short.
    pub fn new(query: &str) -> (r: Self)
        ensures
            r.query@ == query@,
            !r.include_similarity,
            r.limit == 20,
            r.truncate,
    {
        SearchRequest {
            query: query.to_owned(),
            include_similarity: default_as_false(),
            limit: default_limit(),
            truncate: default_as_true(),
        }
    }
}

/// A note can be read from a value: its texts and its flag are there, and
/// what may be missing is a text where it is there.
pub open spec fn result_readable(v: JsonValue) -> bool {
    &&& string_member(v, "id"@) is Some
    &&& string_member(v, "type"@) is Some
    &&& string_member(v, "title"@) is Some
    &&& string_member(v, "category"@) is Some
    &&& string_member(v, "file_name"@) is Some
    &&& optional_string_member(v, "tags"@) is Some
    &&& flag_member(v, "is_task"@) is Some
    &&& optional_string_member(v, "task_status"@) is Some
    &&& optional_string_member(v, "task_scheduled"@) is Some
    &&& optional_string_member(v, "task_deadline"@) is Some
    &&& optional_string_member(v, "task_closed"@) is Some
    &&& optional_string_member(v, "meeting_date"@) is Some
    &&& string_member(v, "body"@) is Some
}

/// A note is what a value says.
pub open spec fn result_matches(r: SearchResult, v: JsonValue) -> bool {
    &&& string_member(v, "id"@) == Some(r.id@)
    &&& string_member(v, "type"@) == Some(r.kind@)
    &&& string_member(v, "title"@) == Some(r.title@)
    &&& string_member(v, "category"@) == Some(r.category@)
    &&& string_member(v, "file_name"@) == Some(r.file_name@)
    &&& optional_string_member(v, "tags"@) == Some(text_of(r.tags))
    &&& flag_member(v, "is_task"@) == Some(r.is_task)
    &&& optional_string_member(v, "task_status"@) == Some(text_of(r.task_status))
    &&& optional_string_member(v, "task_scheduled"@) == Some(text_of(r.task_scheduled))
    &&& optional_string_member(v, "task_deadline"@) == Some(text_of(r.task_deadline))
    &&& optional_string_member(v, "task_closed"@) == Some(text_of(r.task_closed))
    &&& optional_string_member(v, "meeting_date"@) == Some(text_of(r.meeting_date))
    &&& string_member(v, "body"@) == Some(r.body@)
}

/// Every element of an array is a note that can be read.
pub open spec fn results_readable(items: Seq<JsonValue>) -> bool {
    forall|i: int| 0 <= i < items.len() ==> result_readable(#[trigger] items[i])
}

/// The notes are what the elements of an array say, one for one.
pub open spec fn results_match(list: Seq<SearchResult>, items: Seq<JsonValue>) -> bool {
    list.len() == items.len() && forall|i: int|
        0 <= i < items.len() ==> result_matches(#[trigger] list[i], items[i])
}

/// The outcome of a search can be read from a value: the two queries are
/// texts and `results` is an array of notes that can be read.
pub open spec fn response_readable(v: JsonValue) -> bool {
    &&& string_member(v, "raw_query"@) is Some
    &&& string_member(v, "parsed_query"@) is Some
    &&& v.at("results"@) matches JsonValue::Array(items) && results_readable(items)
}

/// The outcome of a search is what a value says.
pub open spec fn response_matches(r: SearchResponse, v: JsonValue) -> bool {
    &&& string_member(v, "raw_query"@) == Some(r.raw_query@)
    &&& string_member(v, "parsed_query"@) == Some(r.parsed_query@)
    &&& v.at("results"@) matches JsonValue::Array(items) && results_match(r.results@, items)
}

impl SearchResult {
    /// Reads a note.
    pub fn from_json(v: &Json) -> (r: Option<SearchResult>)
        ensures
            r is Some <==> result_readable(v@),
            r matches Some(x) ==> result_matches(x, v@),
    {
        let id = read_string_member(v, "id");
        let kind = read_string_member(v, "type");
        let title = read_string_member(v, "title");
        let category = read_string_member(v, "category");
        let file_name = read_string_member(v, "file_name");
        let tags = read_optional_string_member(v, "tags");
        let is_task = read_flag_member(v, "is_task");
        let task_status = read_optional_string_member(v, "task_status");
        let task_scheduled = read_optional_string_member(v, "task_scheduled");
        let task_deadline = read_optional_string_member(v, "task_deadline");
        let task_closed = read_optional_string_member(v, "task_closed");
        let meeting_date = read_optional_string_member(v, "meeting_date");
        let body = read_string_member(v, "body");
        if id.is_none() || kind.is_none() || title.is_none() || category.is_none()
            || file_name.is_none() || tags.is_none() || is_task.is_none() || task_status.is_none()
            || task_scheduled.is_none() || task_deadline.is_none() || task_closed.is_none()
            || meeting_date.is_none() || body.is_none() {
            return None;
        }
        Some(
            SearchResult {
                id: id.unwrap(),
                kind: kind.unwrap(),
                title: title.unwrap(),
                category: category.unwrap(),
                file_name: file_name.unwrap(),
                tags: tags.unwrap(),
                is_task: is_task.unwrap(),
                task_status: task_status.unwrap(),
                task_scheduled: task_scheduled.unwrap(),
                task_deadline: task_deadline.unwrap(),
                task_closed: task_closed.unwrap(),
                meeting_date: meeting_date.unwrap(),
                body: body.unwrap(),
            },
        )
    }
}

/// Reads the notes in an array.
pub fn read_results(items: &Vec<Json>) -> (r: Option<Vec<SearchResult>>)
    ensures
        r is Some <==> results_readable(values_of(items@)),
        r matches Some(list) ==> results_match(list@, values_of(items@)),
{
    let ghost values = values_of(items@);
    let mut out: Vec<SearchResult> = Vec::new();
    let mut i: usize = 0;
    while i < items.len()
        invariant
            i <= items@.len(),
            values == values_of(items@),
            out@.len() == i,
            forall|k: int| 0 <= k < i ==> result_readable(#[trigger] values[k]),
            forall|k: int| 0 <= k < i ==> result_matches(#[trigger] out@[k], values[k]),
        decreases items@.len() - i,
    {
        assert(values[i as int] == items@[i as int]@);
        match SearchResult::from_json(&items[i]) {
            Some(result) => out.push(result),
            None => {
                return None;
            },
        }
        i += 1;
    }
    Some(out)
}

impl SearchResponse {
    /// Reads the outcome of a search.
    pub fn from_json(v: &Json) -> (r: Option<SearchResponse>)
        ensures
            r is Some <==> response_readable(v@),
            r matches Some(x) ==> response_matches(x, v@),
    {
        let results = match v.get("results") {
            Some(member) => match member.as_array() {
                Some(items) => read_results(items),
                None => None,
            },
            None => None,
        };
        match (read_string_member(v, "raw_query"), read_string_member(v, "parsed_query"), results) {
            (Some(raw_query), Some(parsed_query), Some(results)) => Some(
                SearchResponse { raw_query, parsed_query, results },
            ),
            _ => None,
        }
    }
}

impl SearchResult {
    /// The members of the JSON form. What is missing is written as `null`.
    pub open spec fn members(&self) -> Seq<Field> {
        Seq::empty().push(Field { name: "id"@, value: JsonValue::String(self.id@) }).push(
            Field { name: "type"@, value: JsonValue::String(self.kind@) },
        ).push(Field { name: "title"@, value: JsonValue::String(self.title@) }).push(
            Field { name: "category"@, value: JsonValue::String(self.category@) },
        ).push(Field { name: "file_name"@, value: JsonValue::String(self.file_name@) }).push(
            Field { name: "tags"@, value: optional_string_json(self.tags) },
        ).push(Field { name: "is_task"@, value: JsonValue::Bool(self.is_task) }).push(
            Field { name: "task_status"@, value: optional_string_json(self.task_status) },
        ).push(
            Field { name: "task_scheduled"@, value: optional_string_json(self.task_scheduled) },
        ).push(
            Field { name: "task_deadline"@, value: optional_string_json(self.task_deadline) },
        ).push(Field { name: "task_closed"@, value: optional_string_json(self.task_closed) }).push(
            Field { name: "meeting_date"@, value: optional_string_json(self.meeting_date) },
        ).push(Field { name: "body"@, value: JsonValue::String(self.body@) })
    }

    /// The JSON form of the note.
    pub fn to_json(&self) -> (r: Json)
        ensures
            r@ == JsonValue::Object(self.members()),
    {
        let mut fields: Vec<Member> = Vec::new();
        assert(members_of(fields@) =~= Seq::empty());
        push_member(&mut fields, "id", Json::string(self.id.as_str()));
        push_member(&mut fields, "type", Json::string(self.kind.as_str()));
        push_member(&mut fields, "title", Json::string(self.title.as_str()));
        push_member(&mut fields, "category", Json::string(self.category.as_str()));
        push_member(&mut fields, "file_name", Json::string(self.file_name.as_str()));
        push_member(&mut fields, "tags", optional_string_to_json(&self.tags));
        push_member(&mut fields, "is_task", Json::Bool(self.is_task));
        push_member(&mut fields, "task_status", optional_string_to_json(&self.task_status));
        push_member(&mut fields, "task_scheduled", optional_string_to_json(&self.task_scheduled));
        push_member(&mut fields, "task_deadline", optional_string_to_json(&self.task_deadline));
        push_member(&mut fields, "task_closed", optional_string_to_json(&self.task_closed));
        push_member(&mut fields, "meeting_date", optional_string_to_json(&self.meeting_date));
        push_member(&mut fields, "body", Json::string(self.body.as_str()));
        Json::object(fields)
    }
}

/// The JSON forms of a sequence of notes.
pub open spec fn results_json(results: Seq<SearchResult>) -> Seq<JsonValue> {
    Seq::new(results.len(), |i: int| JsonValue::Object(results[i].members()))
}

impl SearchResponse {
    /// The members of the JSON form.
    pub open spec fn members(&self) -> Seq<Field> {
        Seq::empty().push(
            Field { name: "raw_query"@, value: JsonValue::String(self.raw_query@) },
        ).push(Field { name: "parsed_query"@, value: JsonValue::String(self.parsed_query@) }).push(
            Field { name: "results"@, value: JsonValue::Array(results_json(self.results@)) },
        )
    }

    /// The JSON form of the outcome.
    pub fn to_json(&self) -> (r: Json)
        ensures
            r@ == JsonValue::Object(self.members()),
    {
        let ghost all = results_json(self.results@);
        let mut items: Vec<Json> = Vec::new();
        let mut i: usize = 0;
        assert(values_of(items@) =~= all.take(0));
        while i < self.results.len()
            invariant
                i <= self.results@.len(),
                all == results_json(self.results@),
                values_of(items@) == all.take(i as int),
            decreases self.results@.len() - i,
        {
            push_value(&mut items, self.results[i].to_json());
            assert(all.take(i + 1) =~= all.take(i as int).push(all[i as int]));
            i += 1;
        }
        assert(all.take(self.results@.len() as int) =~= all);
        let mut fields: Vec<Member> = Vec::new();
        assert(members_of(fields@) =~= Seq::empty());
        push_member(&mut fields, "raw_query", Json::string(self.raw_query.as_str()));
        push_member(&mut fields, "parsed_query", Json::string(self.parsed_query.as_str()));
        push_member(&mut fields, "results", Json::array(items));
        Json::object(fields)
    }
}

impl ViewNoteResponse {
    /// The members of the JSON form. Tags that are missing are written as
    /// `null`.
    pub open spec fn members(&self) -> Seq<Field> {
        Seq::empty().push(Field { name: "id"@, value: JsonValue::String(self.id@) }).push(
            Field { name: "title"@, value: JsonValue::String(self.title@) },
        ).push(Field { name: "body"@, value: JsonValue::String(self.body@) }).push(
            Field { name: "tags"@, value: optional_string_json(self.tags) },
        )
    }

    /// The JSON form of the note.
    pub fn to_json(&self) -> (r: Json)
        ensures
            r@ == JsonValue::Object(self.members()),
    {
        let mut fields: Vec<Member> = Vec::new();
        assert(members_of(fields@) =~= Seq::empty());
        push_member(&mut fields, "id", Json::string(self.id.as_str()));
        push_member(&mut fields, "title", Json::string(self.title.as_str()));
        push_member(&mut fields, "body", Json::string(self.body.as_str()));
        push_member(&mut fields, "tags", optional_string_to_json(&self.tags));
        Json::object(fields)
    }
}

/// The files to index anew after a change of the notes: each changed file
/// under the directory of the notes, or nothing, which stands for all
/// files, where no file has changed.
pub open spec fn changed_files(notes_path: Seq<char>, files: Seq<String>) -> Option<
    Seq<Seq<char>>,
> {
    if files.len() == 0 {
        None
    } else {
        Some(Seq::new(files.len(), |i: int| notes_path + "/"@ + files[i]@))
    }
}

/// The files to index anew after a change of the notes.
pub fn changed_paths(notes_path: &str, files: &Vec<String>) -> (r: Option<Vec<String>>)
    ensures
        match r {
            Some(paths) => Some(texts_of(paths@)) == changed_files(notes_path@, files@),
            None => changed_files(notes_path@, files@) is None,
        },
{
    if files.len() == 0 {
        return None;
    }
    let mut paths: Vec<String> = Vec::new();
    let mut i: usize = 0;
    while i < files.len()
        invariant
            i <= files@.len(),
            paths@.len() == i,
            forall|k: int| 0 <= k < i ==> (#[trigger] paths@[k])@ == notes_path@ + "/"@ + files@[k]@,
        decreases files@.len() - i,
    {
        paths.push(notes_path.to_owned().concat("/").concat(files[i].as_str()));
        i += 1;
    }
    assert(texts_of(paths@) =~= changed_files(notes_path@, files@)->0);
    Some(paths)
}

} // verus!
