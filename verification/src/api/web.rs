//! Searching the web.

use crate::json::{members_of, push_member, push_value, values_of, Field, Json, JsonValue, Member};
use vstd::prelude::*;

verus! {

/// The number of results of a web search that does not say how many it
/// wants.
pub fn default_web_limit() -> (r: u8)
    ensures
        r == 3,
{
    3
}

/// A web search.
#[derive(Debug)]
pub struct WebSearchParams {
    pub query: String,
    pub limit: u8,
}

/// A page that a web search found.
#[derive(Debug)]
pub struct WebSearchResult {
    pub title: String,
    pub link: String,
    pub snippet: String,
}

/// What a web search found.
#[derive(Debug)]
pub struct WebSearchResponse {
    pub query: String,
    pub results: Vec<WebSearchResult>,
}

impl WebSearchParams {
    /// A search for `query` with three results.
    pub fn new(query: &str) -> (r: Self)
        ensures
            r.query@ == query@,
            r.limit == 3,
    {
        WebSearchParams { query: query.to_owned(), limit: default_web_limit() }
    }
}

impl WebSearchResult {
    /// The members of the JSON form.
    pub open spec fn members(&self) -> Seq<Field> {
        Seq::empty().push(Field { name: "title"@, value: JsonValue::String(self.title@) }).push(
            Field { name: "link"@, value: JsonValue::String(self.link@) },
        ).push(Field { name: "snippet"@, value: JsonValue::String(self.snippet@) })
    }

    /// The JSON form of the page.
    pub fn to_json(&self) -> (r: Json)
        ensures
            r@ == JsonValue::Object(self.members()),
    {
        let mut fields: Vec<Member> = Vec::new();
        assert(members_of(fields@) =~= Seq::empty());
        push_member(&mut fields, "title", Json::string(self.title.as_str()));
        push_member(&mut fields, "link", Json::string(self.link.as_str()));
        push_member(&mut fields, "snippet", Json::string(self.snippet.as_str()));
        Json::object(fields)
    }
}

/// The JSON forms of a sequence of pages.
pub open spec fn web_results_json(results: Seq<WebSearchResult>) -> Seq<JsonValue> {
    Seq::new(results.len(), |i: int| JsonValue::Object(results[i].members()))
}

impl WebSearchResponse {
    /// What a search for `query` found.
    pub fn new(query: &str, results: Vec<WebSearchResult>) -> (r: Self)
        ensures
            r.query@ == query@,
            r.results@ == results@,
    {
        WebSearchResponse { query: query.to_owned(), results }
    }

    /// The members of the JSON form.
    pub open spec fn members(&self) -> Seq<Field> {
        Seq::empty().push(Field { name: "query"@, value: JsonValue::String(self.query@) }).push(
            Field { name: "results"@, value: JsonValue::Array(web_results_json(self.results@)) },
        )
    }

    /// The JSON form of the outcome.
    pub fn to_json(&self) -> (r: Json)
        ensures
            r@ == JsonValue::Object(self.members()),
    {
        let ghost all = web_results_json(self.results@);
        let mut items: Vec<Json> = Vec::new();
        let mut i: usize = 0;
        assert(values_of(items@) =~= all.take(0));
        while i < self.results.len()
            invariant
                i <= self.results@.len(),
                all == web_results_json(self.results@),
                values_of(items@) == all.take(i as int),
            decreases self.results@.len() - i,
        {
            push_value(&mut items, self.results[i].to_json());
            assert(all.take(i + 1) =~= all.take(i as int).push(all[i as int]));
            i += 1;
        }
        assert(all.take(self.results@.len() as int) =~= all);
        let mut fields: Vec<Member> = Vec::new();
        assert(members_of(fields@) =~= Seq::empty());
        push_member(&mut fields, "query", Json::string(self.query.as_str()));
        push_member(&mut fields, "results", Json::array(items));
        Json::object(fields)
    }
}

} // verus!
