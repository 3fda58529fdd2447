//! The chunks of a streamed response and how they are read from JSON.

use crate::json::{values_of, Json, JsonValue};
use crate::members::{
    optional_string_member, read_optional_string_member, read_size_member, read_string_member,
    size_member, string_member, text_of,
};
use vstd::prelude::*;

verus! {

/// One piece of a streamed tool call.
#[derive(Debug)]
pub enum ToolCallChunk {
    /// Opens the call at `index` with its id, its name and the first piece
    /// of its arguments.
    Init { id: String, index: usize, name: String, arguments: String, kind: String },
    /// A further piece of the arguments of the call at `index`.
    ArgsDelta { index: usize, arguments: String },
}

/// The value of a [`ToolCallChunk`].
pub enum ToolCallChunkView {
    Init { id: Seq<char>, index: int, name: Seq<char>, arguments: Seq<char>, kind: Seq<char> },
    ArgsDelta { index: int, arguments: Seq<char> },
}

impl View for ToolCallChunk {
    type V = ToolCallChunkView;

    open spec fn view(&self) -> ToolCallChunkView {
        match self {
            ToolCallChunk::Init { id, index, name, arguments, kind } => ToolCallChunkView::Init {
                id: id@,
                index: *index as int,
                name: name@,
                arguments: arguments@,
                kind: kind@,
            },
            ToolCallChunk::ArgsDelta { index, arguments } => ToolCallChunkView::ArgsDelta {
                index: *index as int,
                arguments: arguments@,
            },
        }
    }
}

impl ToolCallChunkView {
    /// The position of the call that the piece belongs to.
    pub open spec fn index(self) -> int {
        match self {
            ToolCallChunkView::Init { index, .. } => index,
            ToolCallChunkView::ArgsDelta { index, .. } => index,
        }
    }
}

/// The values of a sequence of pieces.
pub open spec fn chunks_of(chunks: Seq<ToolCallChunk>) -> Seq<ToolCallChunkView> {
    Seq::new(chunks.len(), |i: int| chunks[i]@)
}

/// What one frame adds to the response.
#[derive(Debug)]
pub enum Delta {
    Content { content: String },
    Reasoning { reasoning: String },
    ToolCall { tool_calls: Vec<ToolCallChunk> },
    /// Nothing: the turn ends.
    Stop,
}

/// The value of a [`Delta`].
pub enum DeltaView {
    Content { content: Seq<char> },
    Reasoning { reasoning: Seq<char> },
    ToolCall { tool_calls: Seq<ToolCallChunkView> },
    Stop,
}

impl View for Delta {
    type V = DeltaView;

    open spec fn view(&self) -> DeltaView {
        match self {
            Delta::Content { content } => DeltaView::Content { content: content@ },
            Delta::Reasoning { reasoning } => DeltaView::Reasoning { reasoning: reasoning@ },
            Delta::ToolCall { tool_calls } => DeltaView::ToolCall {
                tool_calls: chunks_of(tool_calls@),
            },
            Delta::Stop => DeltaView::Stop,
        }
    }
}

/// One choice of a chunk.
#[derive(Debug)]
pub struct CompletionChunkChoice {
    pub index: usize,
    pub delta: Delta,
    pub finish_reason: Option<String>,
    pub logprobs: Option<String>,
}

/// The value of a [`CompletionChunkChoice`].
pub struct ChoiceView {
    pub index: int,
    pub delta: DeltaView,
    pub finish_reason: Option<Seq<char>>,
    pub logprobs: Option<Seq<char>>,
}

impl View for CompletionChunkChoice {
    type V = ChoiceView;

    open spec fn view(&self) -> ChoiceView {
        ChoiceView {
            index: self.index as int,
            delta: self.delta@,
            finish_reason: text_of(self.finish_reason),
            logprobs: text_of(self.logprobs),
        }
    }
}

/// The values of a sequence of choices.
pub open spec fn choices_of(choices: Seq<CompletionChunkChoice>) -> Seq<ChoiceView> {
    Seq::new(choices.len(), |i: int| choices[i]@)
}

/// The JSON document of one frame.
#[derive(Debug)]
pub struct CompletionChunk {
    pub id: String,
    pub created: usize,
    pub model: String,
    pub system_fingerprint: String,
    pub choices: Vec<CompletionChunkChoice>,
}

/// The value of a [`CompletionChunk`].
pub struct ChunkView {
    pub id: Seq<char>,
    pub created: int,
    pub model: Seq<char>,
    pub system_fingerprint: Seq<char>,
    pub choices: Seq<ChoiceView>,
}

impl View for CompletionChunk {
    type V = ChunkView;

    open spec fn view(&self) -> ChunkView {
        ChunkView {
            id: self.id@,
            created: self.created as int,
            model: self.model@,
            system_fingerprint: self.system_fingerprint@,
            choices: choices_of(self.choices@),
        }
    }
}

/// The piece of a tool call that a JSON value stands for. A value with an
/// index and a `function.arguments` text opens a call where it also has an
/// `id`, a `function.name` and a `type`; otherwise it continues one.
pub open spec fn tool_call_chunk_of(v: JsonValue) -> Option<ToolCallChunkView> {
    let index = size_member(v, "index"@);
    let function = v.at("function"@);
    let arguments = string_member(function, "arguments"@);
    let id = string_member(v, "id"@);
    let name = string_member(function, "name"@);
    let kind = string_member(v, "type"@);
    if index is None || arguments is None {
        None
    } else if id is Some && name is Some && kind is Some {
        Some(
            ToolCallChunkView::Init {
                id: id->0,
                index: index->0,
                name: name->0,
                arguments: arguments->0,
                kind: kind->0,
            },
        )
    } else if optional_string_member(v, "type"@) is Some {
        Some(ToolCallChunkView::ArgsDelta { index: index->0, arguments: arguments->0 })
    } else {
        None
    }
}

/// The pieces that the elements of an array stand for, where each element
/// stands for one.
pub open spec fn tool_call_chunks_of(items: Seq<JsonValue>) -> Option<Seq<ToolCallChunkView>> {
    if forall|i: int| 0 <= i < items.len() ==> (#[trigger] tool_call_chunk_of(items[i])) is Some {
        Some(Seq::new(items.len(), |i: int| tool_call_chunk_of(items[i])->0))
    } else {
        None
    }
}

/// The delta that a JSON value stands for: the first that fits of content,
/// reasoning and tool calls, and a stop for any other object.
pub open spec fn delta_of(v: JsonValue) -> Option<DeltaView> {
    if !(v is Object) {
        None
    } else if string_member(v, "content"@) is Some {
        Some(DeltaView::Content { content: string_member(v, "content"@)->0 })
    } else if string_member(v, "reasoning"@) is Some {
        Some(DeltaView::Reasoning { reasoning: string_member(v, "reasoning"@)->0 })
    } else {
        match v.at("tool_calls"@) {
            JsonValue::Array(items) => match tool_call_chunks_of(items) {
                Some(chunks) => Some(DeltaView::ToolCall { tool_calls: chunks }),
                None => Some(DeltaView::Stop),
            },
            _ => Some(DeltaView::Stop),
        }
    }
}

/// The choice that a JSON value stands for.
pub open spec fn choice_of(v: JsonValue) -> Option<ChoiceView> {
    let index = size_member(v, "index"@);
    let delta = delta_of(v.at("delta"@));
    let finish_reason = optional_string_member(v, "finish_reason"@);
    let logprobs = optional_string_member(v, "logprobs"@);
    if index is Some && delta is Some && finish_reason is Some && logprobs is Some {
        Some(
            ChoiceView {
                index: index->0,
                delta: delta->0,
                finish_reason: finish_reason->0,
                logprobs: logprobs->0,
            },
        )
    } else {
        None
    }
}

/// The choices that the elements of an array stand for, where each element
/// stands for one.
pub open spec fn choice_list_of(items: Seq<JsonValue>) -> Option<Seq<ChoiceView>> {
    if forall|i: int| 0 <= i < items.len() ==> (#[trigger] choice_of(items[i])) is Some {
        Some(Seq::new(items.len(), |i: int| choice_of(items[i])->0))
    } else {
        None
    }
}

/// The chunk that a JSON value stands for: an object with the texts `id`,
/// `model` and `system_fingerprint`, the size `created` and the array
/// `choices`.
pub open spec fn chunk_of(v: JsonValue) -> Option<ChunkView> {
    let id = string_member(v, "id"@);
    let created = size_member(v, "created"@);
    let model = string_member(v, "model"@);
    let system_fingerprint = string_member(v, "system_fingerprint"@);
    let choices = match v.at("choices"@) {
        JsonValue::Array(items) => choice_list_of(items),
        _ => None,
    };
    if id is Some && created is Some && model is Some && system_fingerprint is Some && choices
        is Some {
        Some(
            ChunkView {
                id: id->0,
                created: created->0,
                model: model->0,
                system_fingerprint: system_fingerprint->0,
                choices: choices->0,
            },
        )
    } else {
        None
    }
}

impl ToolCallChunk {
    /// Reads one piece of a tool call.
    pub fn from_json(v: &Json) -> (r: Option<ToolCallChunk>)
        ensures
            r is Some <==> tool_call_chunk_of(v@) is Some,
            r matches Some(c) ==> Some(c@) == tool_call_chunk_of(v@),
    {
        let index = read_size_member(v, "index");
        let function = v.get("function");
        let (arguments, name) = match function {
            Some(f) => (read_string_member(f, "arguments"), read_string_member(f, "name")),
            None => (None, None),
        };
        let id = read_string_member(v, "id");
        let kind = read_string_member(v, "type");
        if index.is_none() || arguments.is_none() {
            return None;
        }
        let index = index.unwrap();
        let arguments = arguments.unwrap();
        if id.is_some() && name.is_some() && kind.is_some() {
            Some(
                ToolCallChunk::Init {
                    id: id.unwrap(),
                    index,
                    name: name.unwrap(),
                    arguments,
                    kind: kind.unwrap(),
                },
            )
        } else if read_optional_string_member(v, "type").is_some() {
            Some(ToolCallChunk::ArgsDelta { index, arguments })
        } else {
            None
        }
    }
}

/// Reads the pieces of tool calls in an array.
pub fn read_tool_call_chunks(items: &Vec<Json>) -> (r: Option<Vec<ToolCallChunk>>)
    ensures
        r is Some <==> tool_call_chunks_of(values_of(items@)) is Some,
        r matches Some(chunks) ==> Some(chunks_of(chunks@)) == tool_call_chunks_of(
            values_of(items@),
        ),
{
    let ghost values = values_of(items@);
    let mut out: Vec<ToolCallChunk> = Vec::new();
    let mut i: usize = 0;
    while i < items.len()
        invariant
            i <= items@.len(),
            values == values_of(items@),
            out@.len() == i,
            forall|k: int| 0 <= k < i ==> (#[trigger] tool_call_chunk_of(values[k])) == Some(out@[k]@),
        decreases items@.len() - i,
    {
        match ToolCallChunk::from_json(&items[i]) {
            Some(chunk) => {
                out.push(chunk);
            },
            None => {
                assert(tool_call_chunk_of(values[i as int]) is None);
                return None;
            },
        }
        i += 1;
    }
    assert(chunks_of(out@) =~= tool_call_chunks_of(values)->0);
    Some(out)
}

impl Delta {
    /// Reads a delta.
    pub fn from_json(v: &Json) -> (r: Option<Delta>)
        ensures
            r is Some <==> delta_of(v@) is Some,
            r matches Some(d) ==> Some(d@) == delta_of(v@),
    {
        if !v.is_object() {
            return None;
        }
        match read_string_member(v, "content") {
            Some(content) => {
                return Some(Delta::Content { content });
            },
            None => {},
        }
        match read_string_member(v, "reasoning") {
            Some(reasoning) => {
                return Some(Delta::Reasoning { reasoning });
            },
            None => {},
        }
        match v.get("tool_calls") {
            Some(member) => match member.as_array() {
                Some(items) => match read_tool_call_chunks(items) {
                    Some(tool_calls) => Some(Delta::ToolCall { tool_calls }),
                    None => Some(Delta::Stop),
                },
                None => Some(Delta::Stop),
            },
            None => Some(Delta::Stop),
        }
    }
}

impl CompletionChunkChoice {
    /// Reads a choice.
    pub fn from_json(v: &Json) -> (r: Option<CompletionChunkChoice>)
        ensures
            r is Some <==> choice_of(v@) is Some,
            r matches Some(c) ==> Some(c@) == choice_of(v@),
    {
        let index = read_size_member(v, "index");
        let delta = match v.get("delta") {
            Some(d) => Delta::from_json(d),
            None => None,
        };
        let finish_reason = read_optional_string_member(v, "finish_reason");
        let logprobs = read_optional_string_member(v, "logprobs");
        if index.is_some() && delta.is_some() && finish_reason.is_some() && logprobs.is_some() {
            Some(
                CompletionChunkChoice {
                    index: index.unwrap(),
                    delta: delta.unwrap(),
                    finish_reason: finish_reason.unwrap(),
                    logprobs: logprobs.unwrap(),
                },
            )
        } else {
            None
        }
    }
}

/// Reads the choices in an array.
pub fn read_choices(items: &Vec<Json>) -> (r: Option<Vec<CompletionChunkChoice>>)
    ensures
        r is Some <==> choice_list_of(values_of(items@)) is Some,
        r matches Some(choices) ==> Some(choices_of(choices@)) == choice_list_of(
            values_of(items@),
        ),
{
    let ghost values = values_of(items@);
    let mut out: Vec<CompletionChunkChoice> = Vec::new();
    let mut i: usize = 0;
    while i < items.len()
        invariant
            i <= items@.len(),
            values == values_of(items@),
            out@.len() == i,
            forall|k: int| 0 <= k < i ==> (#[trigger] choice_of(values[k])) == Some(out@[k]@),
        decreases items@.len() - i,
    {
        match CompletionChunkChoice::from_json(&items[i]) {
            Some(choice) => {
                out.push(choice);
            },
            None => {
                assert(choice_of(values[i as int]) is None);
                return None;
            },
        }
        i += 1;
    }
    assert(choices_of(out@) =~= choice_list_of(values)->0);
    Some(out)
}

impl CompletionChunk {
    /// Reads the document of a frame.
    pub fn from_json(v: &Json) -> (r: Option<CompletionChunk>)
        ensures
            r is Some <==> chunk_of(v@) is Some,
            r matches Some(c) ==> Some(c@) == chunk_of(v@),
    {
        let id = read_string_member(v, "id");
        let created = read_size_member(v, "created");
        let model = read_string_member(v, "model");
        let system_fingerprint = read_string_member(v, "system_fingerprint");
        let choices = match v.get("choices") {
            Some(member) => match member.as_array() {
                Some(items) => read_choices(items),
                None => None,
            },
            None => None,
        };
        if id.is_some() && created.is_some() && model.is_some() && system_fingerprint.is_some()
            && choices.is_some() {
            Some(
                CompletionChunk {
                    id: id.unwrap(),
                    created: created.unwrap(),
                    model: model.unwrap(),
                    system_fingerprint: system_fingerprint.unwrap(),
                    choices: choices.unwrap(),
                },
            )
        } else {
            None
        }
    }
}

} // verus!
