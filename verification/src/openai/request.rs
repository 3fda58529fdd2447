//! The request of a completion: where it is sent and what it says.

use crate::json::{members_of, push_member, values_of, Field, Json, JsonValue, Member};
use crate::openai::message::{messages_json, messages_of, messages_to_json, Message, MessageView};
use crate::text::{chars_of, string_of_range};
use vstd::prelude::*;
use vstd::string::StringExecFns;

verus! {

/// `s` without the slashes at its end.
pub open spec fn without_trailing_slashes(s: Seq<char>) -> Seq<char>
    decreases s.len(),
{
    if s.len() > 0 && s.last() == '/' {
        without_trailing_slashes(s.drop_last())
    } else {
        s
    }
}

/// The path of the completion endpoint.
pub open spec fn completions_path() -> Seq<char> {
    "/v1/chat/completions"@
}

/// The address of the completion endpoint of a host.
pub open spec fn completions_url(hostname: Seq<char>) -> Seq<char> {
    without_trailing_slashes(hostname) + completions_path()
}

/// The members of the body of a request: the model and the messages; for
/// a streamed exchange the `stream` flag and the wish for usage numbers;
/// and the tools, where a capability set is configured.
pub open spec fn request_members(
    model: Seq<char>,
    messages: Seq<MessageView>,
    tools: Option<Seq<JsonValue>>,
    stream: bool,
) -> Seq<Field> {
    let base = Seq::empty().push(Field { name: "model"@, value: JsonValue::String(model) }).push(
        Field { name: "messages"@, value: JsonValue::Array(messages_json(messages)) },
    );
    let streamed = if stream {
        base.push(Field { name: "stream"@, value: JsonValue::Bool(true) }).push(
            Field {
                name: "stream_options"@,
                value: JsonValue::Object(
                    Seq::empty().push(
                        Field { name: "include_usage"@, value: JsonValue::Bool(true) },
                    ),
                ),
            },
        )
    } else {
        base
    };
    match tools {
        Some(definitions) => streamed.push(
            Field { name: "tools"@, value: JsonValue::Array(definitions) },
        ),
        None => streamed,
    }
}

/// The values of an optional list of documents.
pub open spec fn optional_values(tools: Option<&Vec<Json>>) -> Option<Seq<JsonValue>> {
    match tools {
        Some(definitions) => Some(values_of(definitions@)),
        None => None,
    }
}

/// Where all of `s` from `k` on are slashes and the character before `k`
/// is none, `s` without its trailing slashes is `s` up to `k`.
pub proof fn lemma_without_trailing_slashes(s: Seq<char>, k: int)
    requires
        0 <= k <= s.len(),
        forall|i: int| k <= i < s.len() ==> s[i] == '/',
        0 < k ==> s[k - 1] != '/',
    ensures
        without_trailing_slashes(s) == s.take(k),
    decreases s.len() - k,
{
    if k == s.len() {
        assert(s.take(k) == s);
    } else {
        let t = s.drop_last();
        lemma_without_trailing_slashes(t, k);
        assert(t.take(k) == s.take(k));
    }
}

/// The address of the completion endpoint of a host.
pub fn completion_url(api_hostname: &str) -> (r: String)
    ensures
        r@ == completions_url(api_hostname@),
{
    let chars = chars_of(api_hostname);
    let mut k: usize = chars.len();
    while k > 0 && chars[k - 1] == '/'
        invariant
            k <= chars@.len(),
            forall|i: int| k <= i < chars@.len() ==> chars@[i] == '/',
        decreases k,
    {
        k -= 1;
    }
    proof {
        lemma_without_trailing_slashes(chars@, k as int);
    }
    string_of_range(&chars, 0, k).concat("/v1/chat/completions")
}

/// Copies a list of documents.
pub fn clone_documents(documents: &Vec<Json>) -> (r: Vec<Json>)
    ensures
        values_of(r@) == values_of(documents@),
{
    let mut out: Vec<Json> = Vec::new();
    let mut i: usize = 0;
    while i < documents.len()
        invariant
            i <= documents@.len(),
            out@.len() == i,
            forall|k: int| 0 <= k < i ==> (#[trigger] out@[k])@ == documents@[k]@,
        decreases documents@.len() - i,
    {
        out.push(documents[i].clone());
        i += 1;
    }
    assert(values_of(out@) =~= values_of(documents@));
    out
}

/// The body of a request.
pub fn completion_payload(
    model: &str,
    messages: &Vec<Message>,
    tools: Option<&Vec<Json>>,
    stream: bool,
) -> (r: Json)
    ensures
        r@ == JsonValue::Object(
            request_members(model@, messages_of(messages@), optional_values(tools), stream),
        ),
{
    let mut fields: Vec<Member> = Vec::new();
    assert(members_of(fields@) =~= Seq::empty());
    push_member(&mut fields, "model", Json::string(model));
    push_member(&mut fields, "messages", messages_to_json(messages));
    if stream {
        let mut options: Vec<Member> = Vec::new();
        assert(members_of(options@) =~= Seq::empty());
        push_member(&mut options, "include_usage", Json::Bool(true));
        push_member(&mut fields, "stream", Json::Bool(true));
        push_member(&mut fields, "stream_options", Json::object(options));
    }
    match tools {
        Some(definitions) => push_member(&mut fields, "tools", Json::array(clone_documents(definitions))),
        None => {},
    }
    Json::object(fields)
}

} // verus!
