//! Conversation messages and their JSON form.

use crate::json::{
    lemma_lookup_push, members_of, push_member, push_value, values_of, Field, Json, JsonValue,
    Member,
};
use crate::members::{present_member, read_present_member, read_string_member, string_member};
use vstd::prelude::*;

verus! {

/// Who speaks in a message.
#[derive(Clone, Copy, Debug, PartialEq, Eq, Structural)]
pub enum Role {
    System,
    Assistant,
    User,
    Tool,
}

impl Role {
    /// The name of the role on the wire.
    pub open spec fn wire_name(self) -> Seq<char> {
        match self {
            Role::System => "system"@,
            Role::Assistant => "assistant"@,
            Role::User => "user"@,
            Role::Tool => "tool"@,
        }
    }

    /// The name of the role on the wire.
    pub fn as_str(&self) -> (r: &'static str)
        ensures
            r@ == self.wire_name(),
    {
        match self {
            Role::System => "system",
            Role::Assistant => "assistant",
            Role::User => "user",
            Role::Tool => "tool",
        }
    }

    /// The role with the given wire name.
    pub fn from_wire(name: &str) -> (r: Option<Role>)
        ensures
            r == role_of(name@),
    {
        if crate::text::str_eq(name, "system") {
            Some(Role::System)
        } else if crate::text::str_eq(name, "assistant") {
            Some(Role::Assistant)
        } else if crate::text::str_eq(name, "user") {
            Some(Role::User)
        } else if crate::text::str_eq(name, "tool") {
            Some(Role::Tool)
        } else {
            None
        }
    }
}

/// The function part of a tool call: the name of the capability and its
/// arguments as JSON text, which this library never looks into.
#[derive(Debug)]
pub struct FunctionCallFn {
    pub arguments: String,
    pub name: String,
}

/// A request of the model to run a capability.
#[derive(Debug)]
pub struct FunctionCall {
    pub function: FunctionCallFn,
    pub id: String,
    pub kind: String,
}

/// The value of a [`FunctionCall`].
pub struct FunctionCallView {
    pub id: Seq<char>,
    pub kind: Seq<char>,
    pub name: Seq<char>,
    pub arguments: Seq<char>,
}

impl View for FunctionCall {
    type V = FunctionCallView;

    open spec fn view(&self) -> FunctionCallView {
        FunctionCallView {
            id: self.id@,
            kind: self.kind@,
            name: self.function.name@,
            arguments: self.function.arguments@,
        }
    }
}

impl Clone for FunctionCallFn {
    fn clone(&self) -> (r: Self)
        ensures
            r.arguments@ == self.arguments@,
            r.name@ == self.name@,
    {
        FunctionCallFn { arguments: self.arguments.clone(), name: self.name.clone() }
    }
}

impl Clone for FunctionCall {
    fn clone(&self) -> (r: Self)
        ensures
            r@ == self@,
    {
        FunctionCall { function: self.function.clone(), id: self.id.clone(), kind: self.kind.clone() }
    }
}

/// The values of a sequence of calls.
pub open spec fn calls_of(calls: Seq<FunctionCall>) -> Seq<FunctionCallView> {
    Seq::new(calls.len(), |i: int| calls[i]@)
}

/// The value of a [`Message`].
pub struct MessageView {
    pub role: Role,
    pub content: Option<Seq<char>>,
    pub tool_call_id: Option<Seq<char>>,
    pub tool_calls: Option<Seq<FunctionCallView>>,
}

impl MessageView {
    /// A message bears either content or tool-call requests, never both;
    /// only an assistant requests tool calls, and only a tool message names
    /// the call it answers.
    pub open spec fn well_formed(self) -> bool {
        &&& self.content is Some <==> self.tool_calls is None
        &&& self.tool_calls is Some ==> self.role == Role::Assistant
        &&& self.tool_call_id is Some ==> self.role == Role::Tool
    }

    /// A message of `role` that says `content`.
    pub open spec fn text(role: Role, content: Seq<char>) -> MessageView {
        MessageView { role, content: Some(content), tool_call_id: None, tool_calls: None }
    }

    /// The assistant's request to run `calls`.
    pub open spec fn request(calls: Seq<FunctionCallView>) -> MessageView {
        MessageView {
            role: Role::Assistant,
            content: None,
            tool_call_id: None,
            tool_calls: Some(calls),
        }
    }

    /// The answer `content` to the call `id`.
    pub open spec fn response(content: Seq<char>, id: Seq<char>) -> MessageView {
        MessageView {
            role: Role::Tool,
            content: Some(content),
            tool_call_id: Some(id),
            tool_calls: None,
        }
    }
}

/// One turn of a conversation.
#[derive(Debug)]
pub struct Message {
    role: Role,
    content: Option<String>,
    tool_call_id: Option<String>,
    tool_calls: Option<Vec<FunctionCall>>,
}

impl View for Message {
    type V = MessageView;

    closed spec fn view(&self) -> MessageView {
        MessageView {
            role: self.role,
            content: match self.content {
                Some(c) => Some(c@),
                None => None,
            },
            tool_call_id: match self.tool_call_id {
                Some(id) => Some(id@),
                None => None,
            },
            tool_calls: match self.tool_calls {
                Some(calls) => Some(calls_of(calls@)),
                None => None,
            },
        }
    }
}

/// Copies a list of calls.
pub fn clone_calls(calls: &Vec<FunctionCall>) -> (r: Vec<FunctionCall>)
    ensures
        calls_of(r@) == calls_of(calls@),
{
    let mut out: Vec<FunctionCall> = Vec::new();
    let mut i: usize = 0;
    while i < calls.len()
        invariant
            i <= calls@.len(),
            out@.len() == i,
            forall|k: int| 0 <= k < i ==> out@[k]@ == calls@[k]@,
        decreases calls@.len() - i,
    {
        out.push(calls[i].clone());
        i += 1;
    }
    assert(calls_of(out@) =~= calls_of(calls@));
    out
}

impl Message {
    #[verifier::type_invariant]
    spec fn inv(self) -> bool {
        self@.well_formed()
    }

    /// A message of `role` that says `content`.
    pub fn new(role: Role, content: &str) -> (r: Self)
        ensures
            r@ == MessageView::text(role, content@),
    {
        Message { role, content: Some(content.to_owned()), tool_call_id: None, tool_calls: None }
    }

    /// The assistant's request to run `tool_calls`.
    pub fn new_tool_call_request(tool_calls: Vec<FunctionCall>) -> (r: Self)
        ensures
            r@ == MessageView::request(calls_of(tool_calls@)),
    {
        Message {
            role: Role::Assistant,
            content: None,
            tool_call_id: None,
            tool_calls: Some(tool_calls),
        }
    }

    /// The answer `content` of a capability to the call `tool_call_id`.
    pub fn new_tool_call_response(content: &str, tool_call_id: &str) -> (r: Self)
        ensures
            r@ == MessageView::response(content@, tool_call_id@),
    {
        Message {
            role: Role::Tool,
            content: Some(content.to_owned()),
            tool_call_id: Some(tool_call_id.to_owned()),
            tool_calls: None,
        }
    }

    /// Who speaks.
    pub fn role(&self) -> (r: Role)
        ensures
            r == self@.role,
            self@.well_formed(),
    {
        proof {
            use_type_invariant(self);
        }
        self.role
    }

    /// What is said, where the message bears content.
    pub fn content(&self) -> (r: Option<&String>)
        ensures
            r is Some <==> self@.content is Some,
            r matches Some(c) ==> Some(c@) == self@.content,
            self@.well_formed(),
    {
        proof {
            use_type_invariant(self);
        }
        self.content.as_ref()
    }

    /// The call that a tool message answers.
    pub fn tool_call_id(&self) -> (r: Option<&String>)
        ensures
            r is Some <==> self@.tool_call_id is Some,
            r matches Some(id) ==> Some(id@) == self@.tool_call_id,
            self@.well_formed(),
    {
        proof {
            use_type_invariant(self);
        }
        self.tool_call_id.as_ref()
    }

    /// The calls that the message requests.
    pub fn tool_calls(&self) -> (r: Option<&Vec<FunctionCall>>)
        ensures
            r is Some <==> self@.tool_calls is Some,
            r matches Some(calls) ==> Some(calls_of(calls@)) == self@.tool_calls,
            self@.well_formed(),
    {
        proof {
            use_type_invariant(self);
        }
        self.tool_calls.as_ref()
    }
}

impl Clone for Message {
    fn clone(&self) -> (r: Self)
        ensures
            r@ == self@,
    {
        proof {
            use_type_invariant(self);
        }
        Message {
            role: self.role,
            content: match &self.content {
                Some(c) => Some(c.clone()),
                None => None,
            },
            tool_call_id: match &self.tool_call_id {
                Some(id) => Some(id.clone()),
                None => None,
            },
            tool_calls: match &self.tool_calls {
                Some(calls) => Some(clone_calls(calls)),
                None => None,
            },
        }
    }
}

/// The JSON form of a tool call.
pub open spec fn function_call_json(call: FunctionCallView) -> JsonValue {
    JsonValue::Object(
        Seq::empty().push(
            Field {
                name: "function"@,
                value: JsonValue::Object(
                    Seq::empty().push(
                        Field { name: "arguments"@, value: JsonValue::String(call.arguments) },
                    ).push(Field { name: "name"@, value: JsonValue::String(call.name) }),
                ),
            },
        ).push(Field { name: "id"@, value: JsonValue::String(call.id) }).push(
            Field { name: "type"@, value: JsonValue::String(call.kind) },
        ),
    )
}

/// The JSON forms of a sequence of tool calls.
pub open spec fn function_calls_json(calls: Seq<FunctionCallView>) -> Seq<JsonValue> {
    Seq::new(calls.len(), |i: int| function_call_json(calls[i]))
}

/// The members of the JSON form of a message: the role, then each of
/// content, call id and tool calls that the message has. A part that the
/// message lacks is left out, not written as `null`.
pub open spec fn message_members(m: MessageView) -> Seq<Field> {
    let role = Seq::empty().push(
        Field { name: "role"@, value: JsonValue::String(m.role.wire_name()) },
    );
    let content = match m.content {
        Some(c) => role.push(Field { name: "content"@, value: JsonValue::String(c) }),
        None => role,
    };
    let id = match m.tool_call_id {
        Some(id) => content.push(Field { name: "tool_call_id"@, value: JsonValue::String(id) }),
        None => content,
    };
    match m.tool_calls {
        Some(calls) => id.push(
            Field { name: "tool_calls"@, value: JsonValue::Array(function_calls_json(calls)) },
        ),
        None => id,
    }
}

/// The JSON form of a message.
pub open spec fn message_json(m: MessageView) -> JsonValue {
    JsonValue::Object(message_members(m))
}

/// The JSON forms of a sequence of messages.
pub open spec fn messages_json(messages: Seq<MessageView>) -> Seq<JsonValue> {
    Seq::new(messages.len(), |i: int| message_json(messages[i]))
}

impl FunctionCallFn {
    /// The JSON form of the function part: the arguments, then the name.
    pub open spec fn json(&self) -> JsonValue {
        JsonValue::Object(
            Seq::empty().push(
                Field { name: "arguments"@, value: JsonValue::String(self.arguments@) },
            ).push(Field { name: "name"@, value: JsonValue::String(self.name@) }),
        )
    }

    /// The JSON form of the function part.
    pub fn to_json(&self) -> (r: Json)
        ensures
            r@ == self.json(),
    {
        let mut function: Vec<Member> = Vec::new();
        assert(members_of(function@) =~= Seq::empty());
        push_member(&mut function, "arguments", Json::string(self.arguments.as_str()));
        push_member(&mut function, "name", Json::string(self.name.as_str()));
        Json::object(function)
    }

    /// Reads the function part of a tool call: an object with the texts
    /// `arguments` and `name`.
    pub fn from_json(v: &Json) -> (r: Option<FunctionCallFn>)
        ensures
            r is Some <==> string_member(v@, "arguments"@) is Some && string_member(v@, "name"@)
                is Some,
            r matches Some(f) ==> Some(f.arguments@) == string_member(v@, "arguments"@) && Some(
                f.name@,
            ) == string_member(v@, "name"@),
    {
        match (read_string_member(v, "arguments"), read_string_member(v, "name")) {
            (Some(arguments), Some(name)) => Some(FunctionCallFn { arguments, name }),
            _ => None,
        }
    }
}

impl FunctionCall {
    /// The JSON form of the call.
    pub fn to_json(&self) -> (r: Json)
        ensures
            r@ == function_call_json(self@),
    {
        let mut fields: Vec<Member> = Vec::new();
        assert(members_of(fields@) =~= Seq::empty());
        push_member(&mut fields, "function", self.function.to_json());
        push_member(&mut fields, "id", Json::string(self.id.as_str()));
        push_member(&mut fields, "type", Json::string(self.kind.as_str()));
        Json::object(fields)
    }
}

/// The JSON forms of a list of calls, as an array.
pub fn calls_to_json(calls: &Vec<FunctionCall>) -> (r: Json)
    ensures
        r@ == JsonValue::Array(function_calls_json(calls_of(calls@))),
{
    let mut items: Vec<Json> = Vec::new();
    let mut i: usize = 0;
    while i < calls.len()
        invariant
            i <= calls@.len(),
            values_of(items@) == function_calls_json(calls_of(calls@)).take(i as int),
        decreases calls@.len() - i,
    {
        let item = calls[i].to_json();
        push_value(&mut items, item);
        assert(function_calls_json(calls_of(calls@)).take(i + 1) =~= function_calls_json(
            calls_of(calls@),
        ).take(i as int).push(function_call_json(calls@[i as int]@)));
        i += 1;
    }
    assert(function_calls_json(calls_of(calls@)).take(calls@.len() as int)
        =~= function_calls_json(calls_of(calls@)));
    Json::array(items)
}

impl Message {
    /// The JSON form of the message.
    pub fn to_json(&self) -> (r: Json)
        ensures
            r@ == message_json(self@),
    {
        let mut fields: Vec<Member> = Vec::new();
        assert(members_of(fields@) =~= Seq::empty());
        push_member(&mut fields, "role", Json::string(self.role.as_str()));
        match &self.content {
            Some(c) => push_member(&mut fields, "content", Json::string(c.as_str())),
            None => {},
        }
        match &self.tool_call_id {
            Some(id) => push_member(&mut fields, "tool_call_id", Json::string(id.as_str())),
            None => {},
        }
        match &self.tool_calls {
            Some(calls) => push_member(&mut fields, "tool_calls", calls_to_json(calls)),
            None => {},
        }
        Json::object(fields)
    }
}

/// The JSON forms of a list of messages, as an array.
pub fn messages_to_json(messages: &Vec<Message>) -> (r: Json)
    ensures
        r@ == JsonValue::Array(messages_json(messages_of(messages@))),
{
    let mut items: Vec<Json> = Vec::new();
    let mut i: usize = 0;
    while i < messages.len()
        invariant
            i <= messages@.len(),
            values_of(items@) == messages_json(messages_of(messages@)).take(i as int),
        decreases messages@.len() - i,
    {
        let item = messages[i].to_json();
        push_value(&mut items, item);
        assert(messages_json(messages_of(messages@)).take(i + 1) =~= messages_json(
            messages_of(messages@),
        ).take(i as int).push(message_json(messages@[i as int]@)));
        i += 1;
    }
    assert(messages_json(messages_of(messages@)).take(messages@.len() as int) =~= messages_json(
        messages_of(messages@),
    ));
    Json::array(items)
}

/// The values of a sequence of messages.
pub open spec fn messages_of(messages: Seq<Message>) -> Seq<MessageView> {
    Seq::new(messages.len(), |i: int| messages[i]@)
}

/// A tool answer built from a text and a call id is written with the role
/// `tool`, the text as its content and the id as its `tool_call_id`, and
/// has no `tool_calls` member.
pub proof fn lemma_tool_response_json(content: Seq<char>, id: Seq<char>)
    ensures
        message_json(MessageView::response(content, id)).field("role"@) == Some(
            JsonValue::String("tool"@),
        ),
        message_json(MessageView::response(content, id)).field("content"@) == Some(
            JsonValue::String(content),
        ),
        message_json(MessageView::response(content, id)).field("tool_call_id"@) == Some(
            JsonValue::String(id),
        ),
        message_json(MessageView::response(content, id)).field("tool_calls"@) is None,
        message_json(MessageView::response(content, id)) is Object,
        message_json(MessageView::response(content, id))->Object_0.len() == 3,
{
    reveal_strlit("role");
    reveal_strlit("content");
    reveal_strlit("tool_call_id");
    reveal_strlit("tool_calls");
    assert("role"@.len() == 4 && "content"@.len() == 7);
    assert("tool_call_id"@.len() == 12 && "tool_calls"@.len() == 10);
    let empty = Seq::<Field>::empty();
    let role = JsonValue::String(Role::Tool.wire_name());
    let text = JsonValue::String(content);
    let call = JsonValue::String(id);
    lemma_lookup_push(empty, "role"@, role, "role"@);
    lemma_lookup_push(empty, "role"@, role, "content"@);
    lemma_lookup_push(empty, "role"@, role, "tool_call_id"@);
    lemma_lookup_push(empty, "role"@, role, "tool_calls"@);
    let f1 = empty.push(Field { name: "role"@, value: role });
    lemma_lookup_push(f1, "content"@, text, "role"@);
    lemma_lookup_push(f1, "content"@, text, "content"@);
    lemma_lookup_push(f1, "content"@, text, "tool_call_id"@);
    lemma_lookup_push(f1, "content"@, text, "tool_calls"@);
    let f2 = f1.push(Field { name: "content"@, value: text });
    lemma_lookup_push(f2, "tool_call_id"@, call, "role"@);
    lemma_lookup_push(f2, "tool_call_id"@, call, "content"@);
    lemma_lookup_push(f2, "tool_call_id"@, call, "tool_call_id"@);
    lemma_lookup_push(f2, "tool_call_id"@, call, "tool_calls"@);
}

/// The tool call that a JSON value stands for: an object with the texts
/// `id` and `type` and a `function` with the texts `arguments` and `name`.
pub open spec fn function_call_of(v: JsonValue) -> Option<FunctionCallView> {
    let function = v.at("function"@);
    match (
        string_member(function, "arguments"@),
        string_member(function, "name"@),
        string_member(v, "id"@),
        string_member(v, "type"@),
    ) {
        (Some(arguments), Some(name), Some(id), Some(kind)) => Some(
            FunctionCallView { id, kind, name, arguments },
        ),
        _ => None,
    }
}

/// The tool calls that the elements of an array stand for, where each
/// element stands for one.
pub open spec fn function_calls_of(items: Seq<JsonValue>) -> Option<Seq<FunctionCallView>> {
    if forall|i: int| 0 <= i < items.len() ==> (#[trigger] function_call_of(items[i])) is Some {
        Some(Seq::new(items.len(), |i: int| function_call_of(items[i])->0))
    } else {
        None
    }
}

/// The role with the given wire name.
pub open spec fn role_of(name: Seq<char>) -> Option<Role> {
    if name == "system"@ {
        Some(Role::System)
    } else if name == "assistant"@ {
        Some(Role::Assistant)
    } else if name == "user"@ {
        Some(Role::User)
    } else if name == "tool"@ {
        Some(Role::Tool)
    } else {
        None
    }
}

/// The message that a JSON value stands for. The role must be there;
/// content, call id and tool calls may be missing or `null`; and what is
/// there must make a well-formed message.
pub open spec fn message_of(v: JsonValue) -> Option<MessageView> {
    let role = match string_member(v, "role"@) {
        Some(name) => role_of(name),
        None => None,
    };
    let content = present_member(v, "content"@);
    let id = present_member(v, "tool_call_id"@);
    let calls = present_member(v, "tool_calls"@);
    match (role, content, id, calls) {
        (Some(role), Some(JsonValue::String(text)), None, None) => Some(
            MessageView::text(role, text),
        ),
        (Some(Role::Tool), Some(JsonValue::String(text)), Some(JsonValue::String(id)), None) => Some(
            MessageView::response(text, id),
        ),
        (Some(Role::Assistant), None, None, Some(JsonValue::Array(items))) => match function_calls_of(
            items,
        ) {
            Some(calls) => Some(MessageView::request(calls)),
            None => None,
        },
        _ => None,
    }
}

impl FunctionCall {
    /// Reads a tool call.
    pub fn from_json(v: &Json) -> (r: Option<FunctionCall>)
        ensures
            r is Some <==> function_call_of(v@) is Some,
            r matches Some(c) ==> Some(c@) == function_call_of(v@),
    {
        let (arguments, name) = match v.get("function") {
            Some(function) => (
                read_string_member(function, "arguments"),
                read_string_member(function, "name"),
            ),
            None => (None, None),
        };
        match (arguments, name, read_string_member(v, "id"), read_string_member(v, "type")) {
            (Some(arguments), Some(name), Some(id), Some(kind)) => Some(
                FunctionCall { function: FunctionCallFn { arguments, name }, id, kind },
            ),
            _ => None,
        }
    }
}

/// Reads the tool calls in an array.
pub fn read_function_calls(items: &Vec<Json>) -> (r: Option<Vec<FunctionCall>>)
    ensures
        r is Some <==> function_calls_of(values_of(items@)) is Some,
        r matches Some(calls) ==> Some(calls_of(calls@)) == function_calls_of(values_of(items@)),
{
    let ghost values = values_of(items@);
    let mut out: Vec<FunctionCall> = Vec::new();
    let mut i: usize = 0;
    while i < items.len()
        invariant
            i <= items@.len(),
            values == values_of(items@),
            out@.len() == i,
            forall|k: int| 0 <= k < i ==> (#[trigger] function_call_of(values[k])) == Some(out@[k]@),
        decreases items@.len() - i,
    {
        match FunctionCall::from_json(&items[i]) {
            Some(call) => out.push(call),
            None => {
                assert(function_call_of(values[i as int]) is None);
                return None;
            },
        }
        i += 1;
    }
    assert(calls_of(out@) =~= function_calls_of(values)->0);
    Some(out)
}

impl Message {
    /// Reads a message.
    pub fn from_json(v: &Json) -> (r: Option<Message>)
        ensures
            r is Some <==> message_of(v@) is Some,
            r matches Some(m) ==> Some(m@) == message_of(v@),
    {
        let role = match read_string_member(v, "role") {
            Some(name) => Role::from_wire(name.as_str()),
            None => None,
        };
        let content = read_present_member(v, "content");
        let id = read_present_member(v, "tool_call_id");
        let calls = read_present_member(v, "tool_calls");
        match (role, content, id, calls) {
            (Some(role), Some(Json::String(text)), None, None) => Some(
                Message::new(role, text.as_str()),
            ),
            (Some(Role::Tool), Some(Json::String(text)), Some(Json::String(id)), None) => Some(
                Message::new_tool_call_response(text.as_str(), id.as_str()),
            ),
            (Some(Role::Assistant), None, None, Some(Json::Array(items))) => {
                proof {
                    crate::json::lemma_array_view(*items);
                }
                match read_function_calls(items) {
                    Some(calls) => Some(Message::new_tool_call_request(calls)),
                    None => None,
                }
            },
            _ => None,
        }
    }
}

/// Reading what was written for a tool call gives the tool call back.
pub proof fn lemma_function_call_round_trip(call: FunctionCallView)
    ensures
        function_call_of(function_call_json(call)) == Some(call),
{
    reveal_strlit("function");
    reveal_strlit("arguments");
    reveal_strlit("name");
    reveal_strlit("id");
    reveal_strlit("type");
    assert("function"@.len() == 8 && "arguments"@.len() == 9 && "name"@.len() == 4);
    assert("id"@.len() == 2 && "type"@.len() == 4);
    assert("name"@[0] == 'n' && "type"@[0] == 't');
    let empty = Seq::<Field>::empty();
    let arguments = JsonValue::String(call.arguments);
    let name = JsonValue::String(call.name);
    lemma_lookup_push(empty, "arguments"@, arguments, "arguments"@);
    lemma_lookup_push(empty, "arguments"@, arguments, "name"@);
    let inner = empty.push(Field { name: "arguments"@, value: arguments });
    lemma_lookup_push(inner, "name"@, name, "arguments"@);
    lemma_lookup_push(inner, "name"@, name, "name"@);
    let function = JsonValue::Object(inner.push(Field { name: "name"@, value: name }));
    let id = JsonValue::String(call.id);
    let kind = JsonValue::String(call.kind);
    lemma_lookup_push(empty, "function"@, function, "function"@);
    lemma_lookup_push(empty, "function"@, function, "id"@);
    lemma_lookup_push(empty, "function"@, function, "type"@);
    let f1 = empty.push(Field { name: "function"@, value: function });
    lemma_lookup_push(f1, "id"@, id, "function"@);
    lemma_lookup_push(f1, "id"@, id, "id"@);
    lemma_lookup_push(f1, "id"@, id, "type"@);
    let f2 = f1.push(Field { name: "id"@, value: id });
    lemma_lookup_push(f2, "type"@, kind, "function"@);
    lemma_lookup_push(f2, "type"@, kind, "id"@);
    lemma_lookup_push(f2, "type"@, kind, "type"@);
}

/// Reading what was written for a list of tool calls gives the list back.
pub proof fn lemma_function_calls_round_trip(calls: Seq<FunctionCallView>)
    ensures
        function_calls_of(function_calls_json(calls)) == Some(calls),
{
    let items = function_calls_json(calls);
    assert forall|i: int| 0 <= i < items.len() implies (#[trigger] function_call_of(items[i]))
        == Some(calls[i]) by {
        lemma_function_call_round_trip(calls[i]);
    }
    assert(function_calls_of(items)->0 =~= calls);
}

/// Reading what was written for a message gives the message back: the
/// JSON form loses nothing of a well-formed message.
pub proof fn lemma_message_round_trip(m: MessageView)
    requires
        m.well_formed(),
    ensures
        message_of(message_json(m)) == Some(m),
{
    reveal_strlit("role");
    reveal_strlit("content");
    reveal_strlit("tool_call_id");
    reveal_strlit("tool_calls");
    reveal_strlit("system");
    reveal_strlit("assistant");
    reveal_strlit("user");
    reveal_strlit("tool");
    assert("role"@.len() == 4 && "content"@.len() == 7);
    assert("tool_call_id"@.len() == 12 && "tool_calls"@.len() == 10);
    assert("system"@.len() == 6 && "assistant"@.len() == 9);
    assert("user"@.len() == 4 && "tool"@.len() == 4);
    assert("user"@[0] == 'u' && "tool"@[0] == 't');
    assert(role_of(m.role.wire_name()) == Some(m.role));
    let empty = Seq::<Field>::empty();
    let role = JsonValue::String(m.role.wire_name());
    lemma_lookup_push(empty, "role"@, role, "role"@);
    lemma_lookup_push(empty, "role"@, role, "content"@);
    lemma_lookup_push(empty, "role"@, role, "tool_call_id"@);
    lemma_lookup_push(empty, "role"@, role, "tool_calls"@);
    let f0 = empty.push(Field { name: "role"@, value: role });
    let f1 = match m.content {
        Some(c) => {
            let text = JsonValue::String(c);
            lemma_lookup_push(f0, "content"@, text, "role"@);
            lemma_lookup_push(f0, "content"@, text, "content"@);
            lemma_lookup_push(f0, "content"@, text, "tool_call_id"@);
            lemma_lookup_push(f0, "content"@, text, "tool_calls"@);
            f0.push(Field { name: "content"@, value: text })
        },
        None => f0,
    };
    let f2 = match m.tool_call_id {
        Some(id) => {
            let text = JsonValue::String(id);
            lemma_lookup_push(f1, "tool_call_id"@, text, "role"@);
            lemma_lookup_push(f1, "tool_call_id"@, text, "content"@);
            lemma_lookup_push(f1, "tool_call_id"@, text, "tool_call_id"@);
            lemma_lookup_push(f1, "tool_call_id"@, text, "tool_calls"@);
            f1.push(Field { name: "tool_call_id"@, value: text })
        },
        None => f1,
    };
    match m.tool_calls {
        Some(calls) => {
            let list = JsonValue::Array(function_calls_json(calls));
            lemma_lookup_push(f2, "tool_calls"@, list, "role"@);
            lemma_lookup_push(f2, "tool_calls"@, list, "content"@);
            lemma_lookup_push(f2, "tool_calls"@, list, "tool_call_id"@);
            lemma_lookup_push(f2, "tool_calls"@, list, "tool_calls"@);
            lemma_function_calls_round_trip(calls);
        },
        None => {},
    }
}

} // verus!
