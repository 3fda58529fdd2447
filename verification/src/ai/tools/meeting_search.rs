//! The notes of meetings.

use crate::ai::tools::request::{ToolRequest, ToolRequestView};
use crate::ai::tools::tasks::{format_results, result_text};
use crate::api::notes::SearchResult;
use crate::json::{members_of, push_member, Field, Json, JsonValue, Member};
use crate::members::{read_string_member, string_member};
use crate::openai::tool::{
    tool_definition, tool_json, Function, Parameters, Property, PropertySet, ToolType,
};
use crate::text::joined;
use vstd::prelude::*;
use vstd::string::StringExecFns;

verus! {

/// The arguments that the tool describes to the model.
pub struct MeetingSearchProps {
    pub query: Property,
}

/// The arguments that the tool takes.
#[derive(Debug)]
pub struct MeetingSearchArgs {
    pub query: String,
}

impl PropertySet for MeetingSearchProps {
    open spec fn members(&self) -> Seq<Field> {
        Seq::empty().push(Field { name: "query"@, value: JsonValue::Object(self.query.members()) })
    }

    fn to_json(&self) -> (r: Json) {
        let mut fields: Vec<Member> = Vec::new();
        assert(members_of(fields@) =~= Seq::empty());
        push_member(&mut fields, "query", self.query.to_json());
        Json::object(fields)
    }
}

impl MeetingSearchArgs {
    /// Reads the arguments of a call: an object with the text `query`.
    pub fn from_json(v: &Json) -> (r: Option<MeetingSearchArgs>)
        ensures
            r is Some <==> string_member(v@, "query"@) is Some,
            r matches Some(args) ==> Some(args.query@) == string_member(v@, "query"@),
    {
        match read_string_member(v, "query") {
            Some(query) => Some(MeetingSearchArgs { query }),
            None => None,
        }
    }

    /// The search that is made for the arguments: for notes with the tag
    /// `meeting`.
    pub fn search_query(&self) -> (r: String)
        ensures
            r@ == "tags:meeting "@ + self.query@,
    {
        "tags:meeting ".to_owned().concat(self.query.as_str())
    }
}

/// Lets the model search the notes of meetings.
pub struct MeetingSearchTool {
    pub kind: ToolType,
    pub function: Function<MeetingSearchProps>,
    pub api_base_url: String,
}

impl MeetingSearchTool {
    /// The tool for the service at `api_base_url`.
    pub fn new(api_base_url: &str) -> (r: Self)
        ensures
            r.api_base_url@ == api_base_url@,
            r.kind == ToolType::Function,
            r.function.name@ == "search_meetings"@,
            r.function.description@ == "Find meeting notes the user has written about."@,
            r.function.strict,
            r.function.parameters.kind@ == "object"@,
            r.function.parameters.required@.len() == 1,
            r.function.parameters.required@[0]@ == "query"@,
            !r.function.parameters.additional_properties,
            r.function.parameters.properties.query.kind@ == "string"@,
            r.function.parameters.properties.query.description@
                == "The query to use for searching meeting notes that should be short and optimized for search."@,
            r.function.parameters.properties.query.allowed is None,
    {
        let mut required: Vec<String> = Vec::new();
        required.push("query".to_owned());
        MeetingSearchTool {
            kind: ToolType::Function,
            function: Function {
                name: "search_meetings".to_owned(),
                description: "Find meeting notes the user has written about.".to_owned(),
                parameters: Parameters {
                    kind: "object".to_owned(),
                    properties: MeetingSearchProps {
                        query: Property::new(
                            "string",
                            "The query to use for searching meeting notes that should be short and optimized for search.",
                        ),
                    },
                    required,
                    additional_properties: false,
                },
                strict: true,
            },
            api_base_url: api_base_url.to_owned(),
        }
    }

    /// The name of the capability.
    pub fn function_name(&self) -> (r: String)
        ensures
            r@ == self.function.name@,
    {
        self.function.name.clone()
    }

    /// What the model is told of the tool.
    pub fn definition(&self) -> (r: Json)
        ensures
            r@ == tool_json(self.kind, self.function),
    {
        tool_definition(self.kind, &self.function)
    }

    /// What the tool says of the notes that were found.
    pub fn format(results: &Vec<SearchResult>) -> (r: String)
        ensures
            exists|parts: Seq<String>|
                parts.len() == results@.len() && (forall|i: int|
                    0 <= i < parts.len() ==> (#[trigger] parts[i])@ == result_text(results@[i]))
                    && r@ == joined(parts, "\n\n"@),
    {
        format_results(results)
    }
}

impl MeetingSearchTool {
    /// The request that searches the notes of meetings.
    pub fn request(&self, args: &MeetingSearchArgs) -> (r: ToolRequest)
        ensures
            r@ == (ToolRequestView {
                url: self.api_base_url@ + "/api/notes/search"@,
                pairs: seq![("query"@, "tags:meeting "@ + args.query@)],
            }),
    {
        let url = self.api_base_url.clone().concat("/api/notes/search");
        let query = args.search_query();
        ToolRequest::new(url).with("query", query.as_str())
    }
}

impl Default for MeetingSearchTool {
    fn default() -> (r: Self)
        ensures
            r.api_base_url@ == "http://localhost:2222"@,
            r.function.name@ == "search_meetings"@,
    {
        MeetingSearchTool::new("http://localhost:2222")
    }
}

} // verus!
