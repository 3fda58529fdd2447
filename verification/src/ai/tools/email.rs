//! The unread mail of the user.

use crate::ai::tools::request::{ToolRequest, ToolRequestView};
use crate::json::{members_of, push_member, Field, Json, JsonValue, Member};
use crate::members::{read_string_member, string_member};
use crate::openai::tool::{
    tool_definition, tool_json, Function, Parameters, Property, PropertySet, ToolType,
};
use vstd::prelude::*;
use vstd::string::StringExecFns;

verus! {

/// The arguments that the tool describes to the model.
pub struct EmailUnreadProps {
    pub email: Property,
}

/// The arguments that the tool takes.
#[derive(Debug)]
pub struct EmailUnreadArgs {
    pub email: String,
}

impl PropertySet for EmailUnreadProps {
    open spec fn members(&self) -> Seq<Field> {
        Seq::empty().push(Field { name: "email"@, value: JsonValue::Object(self.email.members()) })
    }

    fn to_json(&self) -> (r: Json) {
        let mut fields: Vec<Member> = Vec::new();
        assert(members_of(fields@) =~= Seq::empty());
        push_member(&mut fields, "email", self.email.to_json());
        Json::object(fields)
    }
}

impl EmailUnreadArgs {
    /// Reads the arguments of a call: an object with the text `email`.
    pub fn from_json(v: &Json) -> (r: Option<EmailUnreadArgs>)
        ensures
            r is Some <==> string_member(v@, "email"@) is Some,
            r matches Some(args) ==> Some(args.email@) == string_member(v@, "email"@),
    {
        match read_string_member(v, "email") {
            Some(email) => Some(EmailUnreadArgs { email }),
            None => None,
        }
    }
}

/// Tells the model of the unread mail of an address.
pub struct EmailUnreadTool {
    pub kind: ToolType,
    pub function: Function<EmailUnreadProps>,
    pub api_base_url: String,
}

impl EmailUnreadTool {
    /// The tool for the service at `api_base_url`.
    pub fn new(api_base_url: &str) -> (r: Self)
        ensures
            r.api_base_url@ == api_base_url@,
            r.kind == ToolType::Function,
            r.function.name@ == "get_unread_emails"@,
            r.function.description@ == "Fetch unread emails for a specific email address."@,
            r.function.strict,
            r.function.parameters.kind@ == "object"@,
            r.function.parameters.required@.len() == 1,
            r.function.parameters.required@[0]@ == "email"@,
            !r.function.parameters.additional_properties,
            r.function.parameters.properties.email.kind@ == "string"@,
            r.function.parameters.properties.email.description@
                == "The email address to fetch unread emails for."@,
            r.function.parameters.properties.email.allowed is None,
    {
        let mut required: Vec<String> = Vec::new();
        required.push("email".to_owned());
        EmailUnreadTool {
            kind: ToolType::Function,
            function: Function {
                name: "get_unread_emails".to_owned(),
                description: "Fetch unread emails for a specific email address.".to_owned(),
                parameters: Parameters {
                    kind: "object".to_owned(),
                    properties: EmailUnreadProps {
                        email: Property::new(
                            "string",
                            "The email address to fetch unread emails for.",
                        ),
                    },
                    required,
                    additional_properties: false,
                },
                strict: true,
            },
            api_base_url: api_base_url.to_owned(),
        }
    }

    /// The name of the capability.
    pub fn function_name(&self) -> (r: String)
        ensures
            r@ == self.function.name@,
    {
        self.function.name.clone()
    }

    /// What the model is told of the tool.
    pub fn definition(&self) -> (r: Json)
        ensures
            r@ == tool_json(self.kind, self.function),
    {
        tool_definition(self.kind, &self.function)
    }
}

impl EmailUnreadTool {
    /// The request that asks for the unread mail of an account.
    pub fn request(&self, args: &EmailUnreadArgs) -> (r: ToolRequest)
        ensures
            r@ == (ToolRequestView {
                url: self.api_base_url@ + "/email/unread"@,
                pairs: seq![("email"@, args.email@)],
            }),
    {
        let url = self.api_base_url.clone().concat("/email/unread");
        ToolRequest::new(url).with("email", args.email.as_str())
    }
}

impl Default for EmailUnreadTool {
    fn default() -> (r: Self)
        ensures
            r.api_base_url@ == "http://localhost:2222"@,
            r.function.name@ == "get_unread_emails"@,
    {
        EmailUnreadTool::new("http://localhost:2222")
    }
}

} // verus!
