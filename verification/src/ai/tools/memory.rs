//! A memory that lasts from one session to the next.

use crate::json::{members_of, push_member, Field, Json, JsonValue, Member};
use crate::members::{
    optional_string_member, read_optional_string_member, read_string_member, string_member,
};
use crate::openai::tool::{
    tool_definition, tool_json, Function, Parameters, Property, PropertySet, ToolType,
};
use crate::text::{count_words, decimal_text, str_eq, to_decimal, word_count};
use vstd::prelude::*;
use vstd::string::StringExecFns;

verus! {

/// The most words that the memory may hold.
pub const MAX_WORDS: usize = 2000;

/// The name of the file that holds the memory, in the directory
/// `workspace` of the storage.
pub const MEMORY_FILENAME: &'static str = "MEMORY.md";

/// What the tool says where nothing was remembered yet.
pub const NO_MEMORY: &'static str = "No memory yet";

/// What is done with the memory.
#[derive(Clone, Copy, Debug, PartialEq, Eq, Structural)]
pub enum MemoryOperation {
    Read,
    Write,
}

/// The arguments that the tool takes.
#[derive(Debug)]
pub struct MemoryArgs {
    pub operation: MemoryOperation,
    pub content: Option<String>,
}

/// The arguments that the tool describes to the model.
pub struct MemoryProps {
    pub query: Property,
}

impl PropertySet for MemoryProps {
    open spec fn members(&self) -> Seq<Field> {
        Seq::empty().push(Field { name: "query"@, value: JsonValue::Object(self.query.members()) })
    }

    fn to_json(&self) -> (r: Json) {
        let mut fields: Vec<Member> = Vec::new();
        assert(members_of(fields@) =~= Seq::empty());
        push_member(&mut fields, "query", self.query.to_json());
        Json::object(fields)
    }
}

/// The operation that a name stands for.
pub open spec fn operation_of(name: Seq<char>) -> Option<MemoryOperation> {
    if name == "read"@ {
        Some(MemoryOperation::Read)
    } else if name == "write"@ {
        Some(MemoryOperation::Write)
    } else {
        None
    }
}

/// The arguments that a JSON value stands for: an object with the
/// operation `read` or `write` and, if it is there, the text `content`.
pub open spec fn memory_args_of(v: JsonValue) -> Option<(MemoryOperation, Option<Seq<char>>)> {
    match string_member(v, "operation"@) {
        Some(name) => match (operation_of(name), optional_string_member(v, "content"@)) {
            (Some(operation), Some(content)) => Some((operation, content)),
            _ => None,
        },
        None => None,
    }
}

/// Why the memory was not written.
#[derive(Clone, Copy, Debug, PartialEq, Eq, Structural)]
pub enum MemoryError {
    /// A write without content.
    ContentRequired,
    /// The content has more words than the memory may hold.
    TooLong { words: usize },
}

/// What is to be done for a call.
#[derive(Debug)]
pub enum MemoryPlan {
    /// Give the memory, or say that there is none yet.
    Read,
    /// Replace the memory by `content`, which has `words` words.
    Write { content: String, words: usize },
}

impl MemoryArgs {
    /// The value of the arguments.
    pub open spec fn value(&self) -> (MemoryOperation, Option<Seq<char>>) {
        (
            self.operation,
            match self.content {
                Some(content) => Some(content@),
                None => None,
            },
        )
    }

    /// Reads the arguments of a call.
    pub fn from_json(v: &Json) -> (r: Option<MemoryArgs>)
        ensures
            r is Some <==> memory_args_of(v@) is Some,
            r matches Some(args) ==> Some(args.value()) == memory_args_of(v@),
    {
        let name = match read_string_member(v, "operation") {
            Some(name) => name,
            None => {
                return None;
            },
        };
        let operation = if str_eq(name.as_str(), "read") {
            MemoryOperation::Read
        } else if str_eq(name.as_str(), "write") {
            MemoryOperation::Write
        } else {
            return None;
        };
        match read_optional_string_member(v, "content") {
            Some(content) => Some(MemoryArgs { operation, content }),
            None => None,
        }
    }

    /// What is to be done for the arguments: a read is a read; a write
    /// needs content of at most [`MAX_WORDS`] words.
    pub open spec fn planned(&self) -> Result<MemoryPlanView, MemoryError> {
        match self.operation {
            MemoryOperation::Read => Ok(MemoryPlanView::Read),
            MemoryOperation::Write => match self.content {
                None => Err(MemoryError::ContentRequired),
                Some(content) => if word_count(content@) > MAX_WORDS {
                    Err(MemoryError::TooLong { words: word_count(content@) as usize })
                } else {
                    Ok(MemoryPlanView::Write { content: content@, words: word_count(content@) })
                },
            },
        }
    }

    /// Decides what is to be done.
    pub fn plan(self) -> (r: Result<MemoryPlan, MemoryError>)
        ensures
            match r {
                Ok(plan) => self.planned() == Ok::<MemoryPlanView, MemoryError>(plan@),
                Err(e) => self.planned() == Err::<MemoryPlanView, MemoryError>(e),
            },
    {
        match self.operation {
            MemoryOperation::Read => Ok(MemoryPlan::Read),
            MemoryOperation::Write => match self.content {
                None => Err(MemoryError::ContentRequired),
                Some(content) => {
                    let words = count_words(content.as_str());
                    if words > MAX_WORDS {
                        Err(MemoryError::TooLong { words })
                    } else {
                        Ok(MemoryPlan::Write { content, words })
                    }
                },
            },
        }
    }
}

/// The value of a [`MemoryPlan`].
pub enum MemoryPlanView {
    Read,
    Write { content: Seq<char>, words: nat },
}

impl View for MemoryPlan {
    type V = MemoryPlanView;

    open spec fn view(&self) -> MemoryPlanView {
        match self {
            MemoryPlan::Read => MemoryPlanView::Read,
            MemoryPlan::Write { content, words } => MemoryPlanView::Write {
                content: content@,
                words: *words as nat,
            },
        }
    }
}

impl MemoryError {
    /// What the model is told of the failure.
    pub open spec fn text(self) -> Seq<char> {
        match self {
            MemoryError::ContentRequired => "Content is required for write operation"@,
            MemoryError::TooLong { words } => "Memory exceeds "@ + decimal_text(MAX_WORDS as nat)
                + " words (currently "@ + decimal_text(words as nat)
                + "). Please condense the memory."@,
        }
    }

    /// What the model is told of the failure.
    pub fn message(&self) -> (r: String)
        ensures
            r@ == self.text(),
    {
        match self {
            MemoryError::ContentRequired => "Content is required for write operation".to_owned(),
            MemoryError::TooLong { words } => "Memory exceeds ".to_owned().concat(
                to_decimal(MAX_WORDS).as_str(),
            ).concat(" words (currently ").concat(to_decimal(*words).as_str()).concat(
                "). Please condense the memory.",
            ),
        }
    }
}

/// What the tool says after a write.
pub open spec fn saved_text(words: nat, content: Seq<char>) -> Seq<char> {
    "Memory saved ("@ + decimal_text(words) + " words). Current memory:\n\n"@ + content
}

/// What the tool says after a write.
pub fn saved_message(words: usize, content: &str) -> (r: String)
    ensures
        r@ == saved_text(words as nat, content@),
{
    "Memory saved (".to_owned().concat(to_decimal(words).as_str()).concat(
        " words). Current memory:\n\n",
    ).concat(content)
}

/// Lets the model read and write the memory.
pub struct MemoryTool {
    pub kind: ToolType,
    pub function: Function<MemoryProps>,
    pub storage_path: String,
}

impl MemoryTool {
    /// The tool for the memory under `storage_path`.
    pub fn new(storage_path: &str) -> (r: Self)
        ensures
            r.storage_path@ == storage_path@,
            r.kind == ToolType::Function,
            r.function.name@ == "memory"@,
            !r.function.strict,
            r.function.parameters.kind@ == "object"@,
            r.function.parameters.required@.len() == 0,
            !r.function.parameters.additional_properties,
            r.function.parameters.properties.query.kind@ == "string"@,
            r.function.parameters.properties.query.allowed is None,
    {
        MemoryTool {
            kind: ToolType::Function,
            function: Function {
                name: "memory".to_owned(),
                description: "Read from or write to persistent memory that persists across sessions. Use this when you learn something important about the user, their preferences, or context that should be remembered for future conversations. IMPORTANT: Keep memory concise and under 2000 words.".to_owned(),
                parameters: Parameters {
                    kind: "object".to_owned(),
                    properties: MemoryProps {
                        query: Property::new(
                            "string",
                            "The content to write (required for 'write' operation). Keep it concise and under 2000 words total.",
                        ),
                    },
                    required: Vec::new(),
                    additional_properties: false,
                },
                strict: false,
            },
            storage_path: storage_path.to_owned(),
        }
    }

    /// The name of the capability.
    pub fn function_name(&self) -> (r: String)
        ensures
            r@ == self.function.name@,
    {
        self.function.name.clone()
    }

    /// What the model is told of the tool.
    pub fn definition(&self) -> (r: Json)
        ensures
            r@ == tool_json(self.kind, self.function),
    {
        tool_definition(self.kind, &self.function)
    }
}

impl Default for MemoryTool {
    fn default() -> (r: Self)
        ensures
            r.storage_path@ == "./"@,
            r.function.name@ == "memory"@,
    {
        MemoryTool::new("./")
    }
}

} // verus!
