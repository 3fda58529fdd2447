//! Sessions of the coding assistant, which is run as a command and writes
//! its events as lines of JSON.

use crate::json::{json_text_value, Json, JsonValue};
use crate::members::{
    flag_member, optional_string_member, present_member, read_flag_member,
    read_optional_string_member, read_present_member, read_string_member, read_unsigned_member,
    string_member, text_of, unsigned_member,
};
use crate::text::{join, joined, str_eq, texts_of, trim, trim_str};
use vstd::prelude::*;

verus! {

#[verifier::external_type_specification]
#[verifier::external_body]
pub struct ExUuid(uuid::Uuid);

/// The tools that a session may use unless it is told otherwise.
pub fn default_tools() -> (r: Vec<String>)
    ensures
        r@.len() == 3,
        r@[0]@ == "Read"@,
        r@[1]@ == "Edit"@,
        r@[2]@ == "Bash"@,
{
    let mut tools: Vec<String> = Vec::new();
    tools.push("Read".to_owned());
    tools.push("Edit".to_owned());
    tools.push("Bash".to_owned());
    tools
}

/// A session of the coding assistant.
#[derive(Debug)]
pub struct ClaudeCodeSession {
    session_id: uuid::Uuid,
    /// The id as it is written on the command line, made once from the id
    /// when the session is made.
    id_text: String,
    allowed_tools: Vec<String>,
}

/// Writes an id in the hyphenated form with `Uuid::to_string`, which is 36
/// characters long.
#[verifier::external_body]
fn uuid_text(id: &uuid::Uuid) -> (r: String)
    ensures
        r@.len() == 36,
{
    id.to_string()
}

/// The arguments of the command for a prompt: the output as a stream of
/// JSON with partial messages, the session to begin or to resume, the
/// tools that are allowed with commas between them, and the prompt.
pub open spec fn command_arguments(
    session_id: Seq<char>,
    tools: Seq<String>,
    prompt: Seq<char>,
    resume: bool,
) -> Seq<Seq<char>> {
    seq![
        "code"@,
        "--output-format"@,
        "stream-json"@,
        "--verbose"@,
        "--include-partial-messages"@,
        if resume {
            "--resume"@
        } else {
            "--session-id"@
        },
        session_id,
        "--allowedTools"@,
        joined(tools, ","@),
        "-p"@,
        prompt,
    ]
}

/// The arguments of the command for a prompt.
pub fn command_args(session_id: &str, tools: &Vec<String>, prompt: &str, resume: bool) -> (r: Vec<
    String,
>)
    ensures
        texts_of(r@) == command_arguments(session_id@, tools@, prompt@, resume),
{
    let mut args: Vec<String> = Vec::new();
    args.push("code".to_owned());
    args.push("--output-format".to_owned());
    args.push("stream-json".to_owned());
    args.push("--verbose".to_owned());
    args.push("--include-partial-messages".to_owned());
    if resume {
        args.push("--resume".to_owned());
    } else {
        args.push("--session-id".to_owned());
    }
    args.push(session_id.to_owned());
    args.push("--allowedTools".to_owned());
    args.push(join(tools, ","));
    args.push("-p".to_owned());
    args.push(prompt.to_owned());
    assert(texts_of(args@) =~= command_arguments(session_id@, tools@, prompt@, resume));
    args
}

impl ClaudeCodeSession {
    /// The tools that the session may use.
    pub closed spec fn tools(&self) -> Seq<String> {
        self.allowed_tools@
    }

    /// The id that the session was made with.
    pub closed spec fn id(&self) -> uuid::Uuid {
        self.session_id
    }

    /// The id of the session as it is written: in the hyphenated form,
    /// made from the id when the session was made.
    pub closed spec fn id_text(&self) -> Seq<char> {
        self.id_text@
    }

    /// A session with the given id and tools.
    pub fn new(session_id: uuid::Uuid, allowed_tools: Vec<String>) -> (r: Self)
        ensures
            r.id() == session_id,
            r.id_text().len() == 36,
            r.tools() == allowed_tools@,
    {
        let id_text = uuid_text(&session_id);
        ClaudeCodeSession { session_id, id_text, allowed_tools }
    }

    /// A session with the given id that may read, edit and run commands.
    pub fn with_default_tools(session_id: uuid::Uuid) -> (r: Self)
        ensures
            r.id() == session_id,
            r.id_text().len() == 36,
            r.tools().len() == 3,
            r.tools()[0]@ == "Read"@,
            r.tools()[1]@ == "Edit"@,
            r.tools()[2]@ == "Bash"@,
    {
        let id_text = uuid_text(&session_id);
        ClaudeCodeSession { session_id, id_text, allowed_tools: default_tools() }
    }

    /// The id of the session.
    pub fn session_id(&self) -> (r: uuid::Uuid)
        ensures
            r == self.id(),
    {
        self.session_id
    }

    /// The id of the session as it is written.
    pub fn session_id_text(&self) -> (r: &String)
        ensures
            r@ == self.id_text(),
    {
        &self.id_text
    }

    /// The tools that the session may use.
    pub fn allowed_tools(&self) -> (r: &Vec<String>)
        ensures
            r@ == self.tools(),
    {
        &self.allowed_tools
    }

    /// The arguments of the command that begins or resumes the session
    /// with a prompt: those of [`command_arguments`] for the written id of
    /// the session and its tools.
    pub fn arguments(&self, prompt: &str, resume: bool) -> (r: Vec<String>)
        ensures
            texts_of(r@) == command_arguments(self.id_text(), self.tools(), prompt@, resume),
    {
        command_args(self.id_text.as_str(), &self.allowed_tools, prompt, resume)
    }
}

/// What a content block is.
#[derive(Debug)]
pub struct ContentBlock {
    pub block_type: String,
    pub id: Option<String>,
    pub name: Option<String>,
}

/// What is added to a content block.
#[derive(Debug)]
pub enum Delta {
    /// More of the text.
    TextDelta { text: String },
    /// More of the JSON text of the input of a tool.
    InputJsonDelta { partial_json: String },
}

/// How many tokens went in and came out.
#[derive(Debug)]
pub struct Usage {
    pub input_tokens: u32,
    pub output_tokens: u32,
}

/// What has changed of the message as a whole.
#[derive(Debug)]
pub struct MessageDeltaFields {
    pub stop_reason: Option<String>,
}

/// An event of the stream.
#[derive(Debug)]
pub enum StreamEvent {
    MessageStart,
    ContentBlockStart { content_block: ContentBlock },
    ContentBlockDelta { delta: Delta },
    ContentBlockStop,
    MessageDelta { usage: Option<Usage>, delta: Option<MessageDeltaFields> },
    MessageStop,
}

/// A line of the output: its kind, and the event where it has one.
#[derive(Debug)]
pub struct StreamEventWrapper {
    pub message_type: String,
    pub event: Option<StreamEvent>,
}

/// The last line of the output.
#[derive(Debug)]
pub struct ClaudeCodeResult {
    pub result: Option<String>,
    pub session_id: String,
    pub result_type: String,
    pub subtype: Option<String>,
    pub is_error: bool,
}

/// The value of a [`Delta`].
pub enum DeltaView {
    TextDelta { text: Seq<char> },
    InputJsonDelta { partial_json: Seq<char> },
}

impl View for Delta {
    type V = DeltaView;

    open spec fn view(&self) -> DeltaView {
        match self {
            Delta::TextDelta { text } => DeltaView::TextDelta { text: text@ },
            Delta::InputJsonDelta { partial_json } => DeltaView::InputJsonDelta {
                partial_json: partial_json@,
            },
        }
    }
}

/// The delta that a JSON value stands for: the `type` says which, and the
/// text of that kind must be there.
pub open spec fn delta_of(v: JsonValue) -> Option<DeltaView> {
    match string_member(v, "type"@) {
        Some(kind) => if kind == "text_delta"@ {
            match string_member(v, "text"@) {
                Some(text) => Some(DeltaView::TextDelta { text }),
                None => None,
            }
        } else if kind == "input_json_delta"@ {
            match string_member(v, "partial_json"@) {
                Some(partial_json) => Some(DeltaView::InputJsonDelta { partial_json }),
                None => None,
            }
        } else {
            None
        },
        None => None,
    }
}

impl Delta {
    /// Reads a delta.
    pub fn from_json(v: &Json) -> (r: Option<Delta>)
        ensures
            r is Some <==> delta_of(v@) is Some,
            r matches Some(d) ==> Some(d@) == delta_of(v@),
    {
        match read_string_member(v, "type") {
            Some(kind) => {
                if str_eq(kind.as_str(), "text_delta") {
                    match read_string_member(v, "text") {
                        Some(text) => Some(Delta::TextDelta { text }),
                        None => None,
                    }
                } else if str_eq(kind.as_str(), "input_json_delta") {
                    match read_string_member(v, "partial_json") {
                        Some(partial_json) => Some(Delta::InputJsonDelta { partial_json }),
                        None => None,
                    }
                } else {
                    None
                }
            },
            None => None,
        }
    }
}

/// The value of a [`ContentBlock`].
pub struct ContentBlockView {
    pub block_type: Seq<char>,
    pub id: Option<Seq<char>>,
    pub name: Option<Seq<char>>,
}

impl View for ContentBlock {
    type V = ContentBlockView;

    open spec fn view(&self) -> ContentBlockView {
        ContentBlockView {
            block_type: self.block_type@,
            id: text_of(self.id),
            name: text_of(self.name),
        }
    }
}

/// The content block that a JSON value stands for: its `type` is a text,
/// and `id` and `name` are texts where they are there.
pub open spec fn content_block_of(v: JsonValue) -> Option<ContentBlockView> {
    match (
        string_member(v, "type"@),
        optional_string_member(v, "id"@),
        optional_string_member(v, "name"@),
    ) {
        (Some(block_type), Some(id), Some(name)) => Some(ContentBlockView { block_type, id, name }),
        _ => None,
    }
}

impl ContentBlock {
    /// Reads a content block.
    pub fn from_json(v: &Json) -> (r: Option<ContentBlock>)
        ensures
            r is Some <==> content_block_of(v@) is Some,
            r matches Some(b) ==> Some(b@) == content_block_of(v@),
    {
        match (
            read_string_member(v, "type"),
            read_optional_string_member(v, "id"),
            read_optional_string_member(v, "name"),
        ) {
            (Some(block_type), Some(id), Some(name)) => Some(ContentBlock { block_type, id, name }),
            _ => None,
        }
    }
}

/// The value of a [`Usage`].
pub struct UsageView {
    pub input_tokens: int,
    pub output_tokens: int,
}

impl View for Usage {
    type V = UsageView;

    open spec fn view(&self) -> UsageView {
        UsageView {
            input_tokens: self.input_tokens as int,
            output_tokens: self.output_tokens as int,
        }
    }
}

/// The usage that a JSON value stands for: an object with the counts
/// `input_tokens` and `output_tokens`.
pub open spec fn usage_of(v: JsonValue) -> Option<UsageView> {
    match (unsigned_member(v, "input_tokens"@, u32::MAX as int), unsigned_member(v, "output_tokens"@, u32::MAX as int)) {
        (Some(input_tokens), Some(output_tokens)) => Some(UsageView { input_tokens, output_tokens }),
        _ => None,
    }
}

impl Usage {
    /// Reads a usage.
    pub fn from_json(v: &Json) -> (r: Option<Usage>)
        ensures
            r is Some <==> usage_of(v@) is Some,
            r matches Some(u) ==> Some(u@) == usage_of(v@),
    {
        match (
            read_unsigned_member(v, "input_tokens", u32::MAX as u64),
            read_unsigned_member(v, "output_tokens", u32::MAX as u64),
        ) {
            (Some(input_tokens), Some(output_tokens)) => Some(
                Usage { input_tokens: input_tokens as u32, output_tokens: output_tokens as u32 },
            ),
            _ => None,
        }
    }
}

/// The value of a [`MessageDeltaFields`].
pub struct MessageDeltaFieldsView {
    pub stop_reason: Option<Seq<char>>,
}

impl View for MessageDeltaFields {
    type V = MessageDeltaFieldsView;

    open spec fn view(&self) -> MessageDeltaFieldsView {
        MessageDeltaFieldsView { stop_reason: text_of(self.stop_reason) }
    }
}

/// The changes of a message that a JSON value stands for: an object in
/// which `stop_reason`, if it is there, is a text.
pub open spec fn message_delta_of(v: JsonValue) -> Option<MessageDeltaFieldsView> {
    if !(v is Object) {
        None
    } else {
        match optional_string_member(v, "stop_reason"@) {
            Some(stop_reason) => Some(MessageDeltaFieldsView { stop_reason }),
            None => None,
        }
    }
}

impl MessageDeltaFields {
    /// Reads the changes of a message.
    pub fn from_json(v: &Json) -> (r: Option<MessageDeltaFields>)
        ensures
            r is Some <==> message_delta_of(v@) is Some,
            r matches Some(d) ==> Some(d@) == message_delta_of(v@),
    {
        if !v.is_object() {
            return None;
        }
        match read_optional_string_member(v, "stop_reason") {
            Some(stop_reason) => Some(MessageDeltaFields { stop_reason }),
            None => None,
        }
    }
}

/// The value of a [`StreamEvent`].
pub enum StreamEventView {
    MessageStart,
    ContentBlockStart { content_block: ContentBlockView },
    ContentBlockDelta { delta: DeltaView },
    ContentBlockStop,
    MessageDelta { usage: Option<UsageView>, delta: Option<MessageDeltaFieldsView> },
    MessageStop,
}

impl View for StreamEvent {
    type V = StreamEventView;

    open spec fn view(&self) -> StreamEventView {
        match self {
            StreamEvent::MessageStart => StreamEventView::MessageStart,
            StreamEvent::ContentBlockStart { content_block } => StreamEventView::ContentBlockStart {
                content_block: content_block@,
            },
            StreamEvent::ContentBlockDelta { delta } => StreamEventView::ContentBlockDelta {
                delta: delta@,
            },
            StreamEvent::ContentBlockStop => StreamEventView::ContentBlockStop,
            StreamEvent::MessageDelta { usage, delta } => StreamEventView::MessageDelta {
                usage: match usage {
                    Some(u) => Some(u@),
                    None => None,
                },
                delta: match delta {
                    Some(d) => Some(d@),
                    None => None,
                },
            },
            StreamEvent::MessageStop => StreamEventView::MessageStop,
        }
    }
}

/// The usage of a message delta: none where the member is missing, and
/// nothing at all where it is there and cannot be read.
pub open spec fn optional_usage_of(v: JsonValue) -> Option<Option<UsageView>> {
    match present_member(v, "usage"@) {
        None => Some(None),
        Some(member) => match usage_of(member) {
            Some(usage) => Some(Some(usage)),
            None => None,
        },
    }
}

/// The changes of a message delta: none where the member is missing, and
/// nothing at all where it is there and cannot be read.
pub open spec fn optional_changes_of(v: JsonValue) -> Option<Option<MessageDeltaFieldsView>> {
    match present_member(v, "delta"@) {
        None => Some(None),
        Some(member) => match message_delta_of(member) {
            Some(delta) => Some(Some(delta)),
            None => None,
        },
    }
}

/// The event that a JSON value stands for. The `type` says which; what
/// the event of that type bears must be there.
pub open spec fn stream_event_of(v: JsonValue) -> Option<StreamEventView> {
    match string_member(v, "type"@) {
        None => None,
        Some(kind) => if kind == "message_start"@ {
            Some(StreamEventView::MessageStart)
        } else if kind == "content_block_start"@ {
            match content_block_of(v.at("content_block"@)) {
                Some(content_block) => Some(StreamEventView::ContentBlockStart { content_block }),
                None => None,
            }
        } else if kind == "content_block_delta"@ {
            match delta_of(v.at("delta"@)) {
                Some(delta) => Some(StreamEventView::ContentBlockDelta { delta }),
                None => None,
            }
        } else if kind == "content_block_stop"@ {
            Some(StreamEventView::ContentBlockStop)
        } else if kind == "message_delta"@ {
            match (optional_usage_of(v), optional_changes_of(v)) {
                (Some(usage), Some(delta)) => Some(StreamEventView::MessageDelta { usage, delta }),
                _ => None,
            }
        } else if kind == "message_stop"@ {
            Some(StreamEventView::MessageStop)
        } else {
            None
        },
    }
}

/// Reads the member `key`, and `null` where there is none.
fn read_at<'a>(v: &'a Json, key: &str, null: &'a Json) -> (r: &'a Json)
    requires
        null@ == JsonValue::Null,
    ensures
        r@ == v@.at(key@),
{
    match v.get(key) {
        Some(member) => member,
        None => null,
    }
}

impl StreamEvent {
    /// Reads an event.
    pub fn from_json(v: &Json) -> (r: Option<StreamEvent>)
        ensures
            r is Some <==> stream_event_of(v@) is Some,
            r matches Some(e) ==> Some(e@) == stream_event_of(v@),
    {
        let null = Json::Null;
        let kind = match read_string_member(v, "type") {
            Some(kind) => kind,
            None => {
                return None;
            },
        };
        if str_eq(kind.as_str(), "message_start") {
            Some(StreamEvent::MessageStart)
        } else if str_eq(kind.as_str(), "content_block_start") {
            match ContentBlock::from_json(read_at(v, "content_block", &null)) {
                Some(content_block) => Some(StreamEvent::ContentBlockStart { content_block }),
                None => None,
            }
        } else if str_eq(kind.as_str(), "content_block_delta") {
            match Delta::from_json(read_at(v, "delta", &null)) {
                Some(delta) => Some(StreamEvent::ContentBlockDelta { delta }),
                None => None,
            }
        } else if str_eq(kind.as_str(), "content_block_stop") {
            Some(StreamEvent::ContentBlockStop)
        } else if str_eq(kind.as_str(), "message_delta") {
            let usage = match read_present_member(v, "usage") {
                None => Some(None),
                Some(member) => match Usage::from_json(member) {
                    Some(usage) => Some(Some(usage)),
                    None => None,
                },
            };
            let delta = match read_present_member(v, "delta") {
                None => Some(None),
                Some(member) => match MessageDeltaFields::from_json(member) {
                    Some(delta) => Some(Some(delta)),
                    None => None,
                },
            };
            match (usage, delta) {
                (Some(usage), Some(delta)) => Some(StreamEvent::MessageDelta { usage, delta }),
                _ => None,
            }
        } else if str_eq(kind.as_str(), "message_stop") {
            Some(StreamEvent::MessageStop)
        } else {
            None
        }
    }
}

/// The value of a [`StreamEventWrapper`].
pub struct WrapperView {
    pub message_type: Seq<char>,
    pub event: Option<StreamEventView>,
}

impl View for StreamEventWrapper {
    type V = WrapperView;

    open spec fn view(&self) -> WrapperView {
        WrapperView {
            message_type: self.message_type@,
            event: match self.event {
                Some(e) => Some(e@),
                None => None,
            },
        }
    }
}

/// The line that a JSON value stands for: an object with the text `type`
/// and, if it is there, an event that can be read.
pub open spec fn wrapper_of(v: JsonValue) -> Option<WrapperView> {
    match string_member(v, "type"@) {
        None => None,
        Some(message_type) => match present_member(v, "event"@) {
            None => Some(WrapperView { message_type, event: None }),
            Some(member) => match stream_event_of(member) {
                Some(event) => Some(WrapperView { message_type, event: Some(event) }),
                None => None,
            },
        },
    }
}

impl StreamEventWrapper {
    /// Reads a line of the output.
    pub fn from_json(v: &Json) -> (r: Option<StreamEventWrapper>)
        ensures
            r is Some <==> wrapper_of(v@) is Some,
            r matches Some(w) ==> Some(w@) == wrapper_of(v@),
    {
        let message_type = match read_string_member(v, "type") {
            Some(message_type) => message_type,
            None => {
                return None;
            },
        };
        match read_present_member(v, "event") {
            None => Some(StreamEventWrapper { message_type, event: None }),
            Some(member) => match StreamEvent::from_json(member) {
                Some(event) => Some(StreamEventWrapper { message_type, event: Some(event) }),
                None => None,
            },
        }
    }
}

/// The value of a [`ClaudeCodeResult`].
pub struct ResultView {
    pub result: Option<Seq<char>>,
    pub session_id: Seq<char>,
    pub result_type: Seq<char>,
    pub subtype: Option<Seq<char>>,
    pub is_error: bool,
}

impl View for ClaudeCodeResult {
    type V = ResultView;

    open spec fn view(&self) -> ResultView {
        ResultView {
            result: text_of(self.result),
            session_id: self.session_id@,
            result_type: self.result_type@,
            subtype: text_of(self.subtype),
            is_error: self.is_error,
        }
    }
}

/// The result that a JSON value stands for: an object with the texts
/// `session_id` and `type`, the truth value `is_error` and, if they are
/// there, the texts `result` and `subtype`.
pub open spec fn result_of(v: JsonValue) -> Option<ResultView> {
    match (
        optional_string_member(v, "result"@),
        string_member(v, "session_id"@),
        string_member(v, "type"@),
        optional_string_member(v, "subtype"@),
        flag_member(v, "is_error"@),
    ) {
        (Some(result), Some(session_id), Some(result_type), Some(subtype), Some(is_error)) => Some(
            ResultView { result, session_id, result_type, subtype, is_error },
        ),
        _ => None,
    }
}

impl ClaudeCodeResult {
    /// Reads the last line of the output.
    pub fn from_json(v: &Json) -> (r: Option<ClaudeCodeResult>)
        ensures
            r is Some <==> result_of(v@) is Some,
            r matches Some(x) ==> Some(x@) == result_of(v@),
    {
        let is_error = read_flag_member(v, "is_error");
        match (
            read_optional_string_member(v, "result"),
            read_string_member(v, "session_id"),
            read_string_member(v, "type"),
            read_optional_string_member(v, "subtype"),
            is_error,
        ) {
            (Some(result), Some(session_id), Some(result_type), Some(subtype), Some(is_error)) => Some(
                ClaudeCodeResult { result, session_id, result_type, subtype, is_error },
            ),
            _ => None,
        }
    }
}

/// What a line of the output is.
#[derive(Debug)]
pub enum Line {
    /// Nothing but white space.
    Blank,
    /// An event of the stream, to be handed on.
    Event { event: StreamEvent },
    /// A line of another kind, or a stream event without an event.
    Other,
    /// The result that ends the output.
    Result { result: ClaudeCodeResult },
    /// Neither a line of the stream nor a result.
    Unreadable,
}

/// The value of a [`Line`].
pub enum LineView {
    Blank,
    Event { event: StreamEventView },
    Other,
    Result { result: ResultView },
    Unreadable,
}

impl View for Line {
    type V = LineView;

    open spec fn view(&self) -> LineView {
        match self {
            Line::Blank => LineView::Blank,
            Line::Event { event } => LineView::Event { event: event@ },
            Line::Other => LineView::Other,
            Line::Result { result } => LineView::Result { result: result@ },
            Line::Unreadable => LineView::Unreadable,
        }
    }
}

/// What the document of a line is. It is read as a line of the stream
/// first: a `stream_event` with an event is handed on, any other line of
/// the stream is passed over. What is no line of the stream is read as the
/// result.
pub open spec fn document_line(v: JsonValue) -> LineView {
    match wrapper_of(v) {
        Some(wrapper) => match wrapper.event {
            Some(event) => if wrapper.message_type == "stream_event"@ {
                LineView::Event { event }
            } else {
                LineView::Other
            },
            None => LineView::Other,
        },
        None => match result_of(v) {
            Some(result) => LineView::Result { result },
            None => LineView::Unreadable,
        },
    }
}

/// What a line of the output is. A line of white space is blank; a line
/// that is no JSON document cannot be read.
pub open spec fn line_of(line: Seq<char>) -> LineView {
    if trim(line).len() == 0 {
        LineView::Blank
    } else {
        match json_text_value(line) {
            Some(v) => document_line(v),
            None => LineView::Unreadable,
        }
    }
}

/// Tells what the document of a line is.
pub fn read_document(v: &Json) -> (r: Line)
    ensures
        r@ == document_line(v@),
{
    match StreamEventWrapper::from_json(v) {
        Some(wrapper) => {
            let stream = str_eq(wrapper.message_type.as_str(), "stream_event");
            match wrapper.event {
                Some(event) => if stream {
                    Line::Event { event }
                } else {
                    Line::Other
                },
                None => Line::Other,
            }
        },
        None => match ClaudeCodeResult::from_json(v) {
            Some(result) => Line::Result { result },
            None => Line::Unreadable,
        },
    }
}

/// Tells what a line of the output is.
pub fn read_line(line: &str) -> (r: Line)
    ensures
        r@ == line_of(line@),
{
    if trim_str(line).as_str().is_empty() {
        Line::Blank
    } else {
        match Json::parse(line) {
            Some(v) => read_document(&v),
            None => Line::Unreadable,
        }
    }
}

} // verus!
