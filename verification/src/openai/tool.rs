//! The capability contract: what a tool tells the model about itself and
//! how it is invoked.

use crate::json::{members_of, push_member, push_value, values_of, Field, Json, JsonValue, Member};
use vstd::prelude::*;

verus! {

/// One argument of a capability.
#[derive(Debug)]
pub struct Property {
    pub kind: String,
    pub description: String,
    /// The values that the argument may take, where they are listed.
    pub allowed: Option<Vec<String>>,
}

/// The kind of a tool. The protocol knows functions only.
#[derive(Clone, Copy, Debug, PartialEq, Eq, Structural)]
pub enum ToolType {
    Function,
}

impl ToolType {
    /// The name of the kind on the wire.
    pub open spec fn wire_name(self) -> Seq<char> {
        "function"@
    }

    /// The name of the kind on the wire.
    pub fn as_str(&self) -> (r: &'static str)
        ensures
            r@ == self.wire_name(),
    {
        "function"
    }
}

/// The texts of a sequence of strings, as JSON strings.
pub open spec fn strings_json(strings: Seq<String>) -> Seq<JsonValue> {
    Seq::new(strings.len(), |i: int| JsonValue::String(strings[i]@))
}

/// A list of strings as a JSON array.
pub fn strings_to_json(strings: &Vec<String>) -> (r: Json)
    ensures
        r@ == JsonValue::Array(strings_json(strings@)),
{
    let mut items: Vec<Json> = Vec::new();
    let mut i: usize = 0;
    assert(values_of(items@) =~= strings_json(strings@).take(0));
    while i < strings.len()
        invariant
            i <= strings@.len(),
            values_of(items@) == strings_json(strings@).take(i as int),
        decreases strings@.len() - i,
    {
        push_value(&mut items, Json::string(strings[i].as_str()));
        assert(strings_json(strings@).take(i + 1) =~= strings_json(strings@).take(i as int).push(
            JsonValue::String(strings@[i as int]@),
        ));
        i += 1;
    }
    assert(strings_json(strings@).take(strings@.len() as int) =~= strings_json(strings@));
    Json::array(items)
}

impl Property {
    /// The members of the JSON form: the type, the description and, where
    /// the allowed values are listed, the `enum`.
    pub open spec fn members(&self) -> Seq<Field> {
        let base = Seq::empty().push(
            Field { name: "type"@, value: JsonValue::String(self.kind@) },
        ).push(Field { name: "description"@, value: JsonValue::String(self.description@) });
        match self.allowed {
            Some(values) => base.push(
                Field { name: "enum"@, value: JsonValue::Array(strings_json(values@)) },
            ),
            None => base,
        }
    }

    /// A property of the given type, with any value allowed.
    pub fn new(kind: &str, description: &str) -> (r: Self)
        ensures
            r.kind@ == kind@,
            r.description@ == description@,
            r.allowed is None,
    {
        Property { kind: kind.to_owned(), description: description.to_owned(), allowed: None }
    }

    /// The JSON form of the property.
    pub fn to_json(&self) -> (r: Json)
        ensures
            r@ == JsonValue::Object(self.members()),
    {
        let mut fields: Vec<Member> = Vec::new();
        assert(members_of(fields@) =~= Seq::empty());
        push_member(&mut fields, "type", Json::string(self.kind.as_str()));
        push_member(&mut fields, "description", Json::string(self.description.as_str()));
        match &self.allowed {
            Some(values) => push_member(&mut fields, "enum", strings_to_json(values)),
            None => {},
        }
        Json::object(fields)
    }
}

/// The arguments of a capability, by name.
pub trait PropertySet {
    /// The members of the JSON form: one for each argument.
    spec fn members(&self) -> Seq<Field>;

    /// The JSON form: an object with one member for each argument.
    fn to_json(&self) -> (r: Json)
        ensures
            r@ == JsonValue::Object(self.members()),
    ;
}

/// An argument of a capability with its name.
#[derive(Debug)]
pub struct NamedProperty {
    pub name: String,
    pub property: Property,
}

/// Arguments that are listed by name.
#[derive(Debug)]
pub struct PropertyList {
    pub entries: Vec<NamedProperty>,
}

/// The members for a sequence of named arguments.
pub open spec fn named_members(entries: Seq<NamedProperty>) -> Seq<Field> {
    Seq::new(
        entries.len(),
        |i: int|
            Field { name: entries[i].name@, value: JsonValue::Object(entries[i].property.members()) },
    )
}

impl PropertySet for PropertyList {
    open spec fn members(&self) -> Seq<Field> {
        named_members(self.entries@)
    }

    fn to_json(&self) -> (r: Json) {
        let ghost all = named_members(self.entries@);
        let mut fields: Vec<Member> = Vec::new();
        let mut i: usize = 0;
        assert(members_of(fields@) =~= all.take(0));
        while i < self.entries.len()
            invariant
                i <= self.entries@.len(),
                all == named_members(self.entries@),
                members_of(fields@) == all.take(i as int),
            decreases self.entries@.len() - i,
        {
            push_member(
                &mut fields,
                self.entries[i].name.as_str(),
                self.entries[i].property.to_json(),
            );
            assert(all.take(i + 1) =~= all.take(i as int).push(all[i as int]));
            i += 1;
        }
        assert(all.take(self.entries@.len() as int) =~= all);
        Json::object(fields)
    }
}

/// The argument schema of a capability.
pub struct Parameters<Props: PropertySet> {
    pub kind: String,
    pub properties: Props,
    pub required: Vec<String>,
    pub additional_properties: bool,
}

impl<Props: PropertySet> Parameters<Props> {
    /// The members of the JSON form.
    pub open spec fn members(&self) -> Seq<Field> {
        Seq::empty().push(Field { name: "type"@, value: JsonValue::String(self.kind@) }).push(
            Field { name: "properties"@, value: JsonValue::Object(self.properties.members()) },
        ).push(
            Field { name: "required"@, value: JsonValue::Array(strings_json(self.required@)) },
        ).push(
            Field {
                name: "additionalProperties"@,
                value: JsonValue::Bool(self.additional_properties),
            },
        )
    }

    /// The JSON form of the schema.
    pub fn to_json(&self) -> (r: Json)
        ensures
            r@ == JsonValue::Object(self.members()),
    {
        let mut fields: Vec<Member> = Vec::new();
        assert(members_of(fields@) =~= Seq::empty());
        push_member(&mut fields, "type", Json::string(self.kind.as_str()));
        push_member(&mut fields, "properties", self.properties.to_json());
        push_member(&mut fields, "required", strings_to_json(&self.required));
        push_member(&mut fields, "additionalProperties", Json::Bool(self.additional_properties));
        Json::object(fields)
    }
}

/// What a capability tells the model: its name, what it does and which
/// arguments it takes.
pub struct Function<Props: PropertySet> {
    pub name: String,
    pub description: String,
    pub parameters: Parameters<Props>,
    pub strict: bool,
}

impl<Props: PropertySet> Function<Props> {
    /// The members of the JSON form.
    pub open spec fn members(&self) -> Seq<Field> {
        Seq::empty().push(Field { name: "name"@, value: JsonValue::String(self.name@) }).push(
            Field { name: "description"@, value: JsonValue::String(self.description@) },
        ).push(
            Field { name: "parameters"@, value: JsonValue::Object(self.parameters.members()) },
        ).push(Field { name: "strict"@, value: JsonValue::Bool(self.strict) })
    }

    /// The JSON form of the function.
    pub fn to_json(&self) -> (r: Json)
        ensures
            r@ == JsonValue::Object(self.members()),
    {
        let mut fields: Vec<Member> = Vec::new();
        assert(members_of(fields@) =~= Seq::empty());
        push_member(&mut fields, "name", Json::string(self.name.as_str()));
        push_member(&mut fields, "description", Json::string(self.description.as_str()));
        push_member(&mut fields, "parameters", self.parameters.to_json());
        push_member(&mut fields, "strict", Json::Bool(self.strict));
        Json::object(fields)
    }
}

/// The JSON form of a tool: its kind and its function.
pub open spec fn tool_json<Props: PropertySet>(kind: ToolType, function: Function<Props>) -> JsonValue {
    JsonValue::Object(
        Seq::empty().push(Field { name: "type"@, value: JsonValue::String(kind.wire_name()) }).push(
            Field { name: "function"@, value: JsonValue::Object(function.members()) },
        ),
    )
}

/// The definition of a tool as it is sent to the model.
pub fn tool_definition<Props: PropertySet>(kind: ToolType, function: &Function<Props>) -> (r: Json)
    ensures
        r@ == tool_json(kind, *function),
{
    let mut fields: Vec<Member> = Vec::new();
    assert(members_of(fields@) =~= Seq::empty());
    push_member(&mut fields, "type", Json::string(kind.as_str()));
    push_member(&mut fields, "function", function.to_json());
    Json::object(fields)
}

/// A capability that the model may ask for. The name is stable and unique
/// among the capabilities of a session; the definition is what the model is
/// told; `call` runs the capability on the raw text of its arguments and
/// gives its result, or the reason why it failed. A capability can be
/// shared between threads.
pub trait ToolCall: Send + Sync {
    fn call(&self, args: &str) -> Result<String, String>;

    fn function_name(&self) -> String;

    fn definition(&self) -> Json;
}

} // verus!
