//! JSON documents as plain values.
//!
//! [`Json`] is the executable form of a document and [`JsonValue`] its
//! mathematical value. Reading text into a document and writing a document
//! out as text is the work of `serde_json`; everything between the two is
//! verified here.

use serde_json::Value;
use vstd::prelude::*;

verus! {

/// The mathematical value of a JSON document.
pub enum JsonValue {
    Null,
    Bool(bool),
    /// An integer that is not negative.
    UInt(int),
    /// A negative integer.
    Int(int),
    /// A number that is no 64-bit integer, by its decimal text.
    Real(Seq<char>),
    String(Seq<char>),
    Array(Seq<JsonValue>),
    /// The members of an object, in the order in which they are written.
    Object(Seq<Field>),
}

/// A member of an object: its name and its value.
pub struct Field {
    pub name: Seq<char>,
    pub value: JsonValue,
}

/// A JSON document held as plain values.
#[derive(Debug)]
pub enum Json {
    Null,
    Bool(bool),
    UInt(u64),
    Int(i64),
    Real(String),
    String(String),
    Array(Vec<Json>),
    Object(Vec<Member>),
}

/// A member of an object: its name and its value.
#[derive(Debug)]
pub struct Member {
    pub name: String,
    pub value: Json,
}

/// The first member of `fields` named `key`.
pub open spec fn lookup(fields: Seq<Field>, key: Seq<char>) -> Option<JsonValue>
    decreases fields.len(),
{
    if fields.len() == 0 {
        None
    } else if fields[0].name == key {
        Some(fields[0].value)
    } else {
        lookup(fields.drop_first(), key)
    }
}

impl JsonValue {
    /// The member named `key`, if this is an object that has one.
    pub open spec fn field(self, key: Seq<char>) -> Option<JsonValue> {
        match self {
            JsonValue::Object(fields) => lookup(fields, key),
            _ => None,
        }
    }

    /// The member named `key`, and `Null` where there is none.
    pub open spec fn at(self, key: Seq<char>) -> JsonValue {
        match self.field(key) {
            Some(v) => v,
            None => JsonValue::Null,
        }
    }

    /// The element at `index`, and `Null` where there is none.
    pub open spec fn nth(self, index: int) -> JsonValue {
        match self {
            JsonValue::Array(items) => if 0 <= index < items.len() {
                items[index]
            } else {
                JsonValue::Null
            },
            _ => JsonValue::Null,
        }
    }

    /// The text of a string.
    pub open spec fn text(self) -> Option<Seq<char>> {
        match self {
            JsonValue::String(t) => Some(t),
            _ => None,
        }
    }

    /// The elements of an array.
    pub open spec fn items(self) -> Option<Seq<JsonValue>> {
        match self {
            JsonValue::Array(items) => Some(items),
            _ => None,
        }
    }

    /// The value of an integer that is not negative.
    pub open spec fn unsigned(self) -> Option<int> {
        match self {
            JsonValue::UInt(n) => Some(n),
            _ => None,
        }
    }
}

/// The values of a sequence of documents.
pub open spec fn values_of(items: Seq<Json>) -> Seq<JsonValue> {
    Seq::new(items.len(), |i: int| items[i]@)
}

/// The members of an object, by name and value.
pub open spec fn members_of(fields: Seq<Member>) -> Seq<Field> {
    Seq::new(fields.len(), |i: int| Field { name: fields[i].name@, value: fields[i].value@ })
}

impl View for Json {
    type V = JsonValue;

    open spec fn view(&self) -> JsonValue
        decreases self,
    {
        match self {
            Json::Null => JsonValue::Null,
            Json::Bool(b) => JsonValue::Bool(*b),
            Json::UInt(n) => JsonValue::UInt(*n as int),
            Json::Int(n) => JsonValue::Int(*n as int),
            Json::Real(t) => JsonValue::Real(t@),
            Json::String(t) => JsonValue::String(t@),
            Json::Array(items) => JsonValue::Array(
                Seq::new(
                    items@.len(),
                    |i: int|
                        if 0 <= i < items@.len() {
                            items@[i].view()
                        } else {
                            JsonValue::Null
                        },
                ),
            ),
            Json::Object(fields) => JsonValue::Object(
                Seq::new(
                    fields@.len(),
                    |i: int|
                        if 0 <= i < fields@.len() {
                            Field { name: fields@[i].name@, value: fields@[i].value.view() }
                        } else {
                            Field { name: Seq::empty(), value: JsonValue::Null }
                        },
                ),
            ),
        }
    }
}

/// An array's value is the array of its elements' values.
pub proof fn lemma_array_view(items: Vec<Json>)
    ensures
        Json::Array(items)@ == JsonValue::Array(values_of(items@)),
{
    assert(Json::Array(items)@->Array_0 =~= values_of(items@));
}

/// An object's value is the object of its members' names and values.
pub proof fn lemma_object_view(fields: Vec<Member>)
    ensures
        Json::Object(fields)@ == JsonValue::Object(members_of(fields@)),
{
    assert(Json::Object(fields)@->Object_0 =~= members_of(fields@));
}

/// Looking a name up among members that were extended at the end finds what
/// was found before, and the new member only where the name was not there.
pub proof fn lemma_lookup_push(
    fields: Seq<Field>,
    name: Seq<char>,
    value: JsonValue,
    key: Seq<char>,
)
    ensures
        lookup(fields.push(Field { name, value }), key) == match lookup(fields, key) {
            Some(v) => Some(v),
            None => if name == key {
                Some(value)
            } else {
                None
            },
        },
    decreases fields.len(),
{
    let added = Field { name, value };
    let ext = fields.push(added);
    assert(ext.len() == fields.len() + 1);
    if fields.len() == 0 {
        assert(ext[0] == added);
        assert(ext.drop_first() =~= Seq::<Field>::empty());
        assert(lookup(Seq::<Field>::empty(), key) is None);
        assert(lookup(fields, key) is None);
        assert(lookup(ext, key) == if name == key {
            Some(value)
        } else {
            None::<JsonValue>
        });
    } else {
        assert(ext[0] == fields[0]);
        assert(ext.drop_first() =~= fields.drop_first().push(added));
        lemma_lookup_push(fields.drop_first(), name, value, key);
        if fields[0].name == key {
            assert(lookup(fields, key) == Some(fields[0].value));
            assert(lookup(ext, key) == Some(fields[0].value));
        } else {
            assert(lookup(fields, key) == lookup(fields.drop_first(), key));
            assert(lookup(ext, key) == lookup(ext.drop_first(), key));
        }
    }
}

impl Clone for Json {
    #[verifier::loop_isolation(false)]
    fn clone(&self) -> (r: Self)
        ensures
            r@ == self@,
        decreases self,
    {
        match self {
            Json::Null => Json::Null,
            Json::Bool(b) => Json::Bool(*b),
            Json::UInt(n) => Json::UInt(*n),
            Json::Int(n) => Json::Int(*n),
            Json::Real(t) => Json::Real(t.clone()),
            Json::String(t) => Json::String(t.clone()),
            Json::Array(items) => {
                let mut out: Vec<Json> = Vec::new();
                let mut i: usize = 0;
                while i < items.len()
                    invariant
                        i <= items@.len(),
                        out@.len() == i,
                        self == Json::Array(*items),
                        forall|k: int| 0 <= k < i ==> (#[trigger] out@[k])@ == items@[k]@,
                    decreases items@.len() - i,
                {
                    proof {
                        vstd::std_specs::vec::axiom_vec_index_decreases(*items, i as int);
                    }
                    out.push(items[i].clone());
                    i += 1;
                }
                proof {
                    lemma_array_view(*items);
                    lemma_array_view(out);
                    assert(values_of(out@) =~= values_of(items@));
                }
                Json::Array(out)
            },
            Json::Object(fields) => {
                let mut out: Vec<Member> = Vec::new();
                let mut i: usize = 0;
                while i < fields.len()
                    invariant
                        i <= fields@.len(),
                        out@.len() == i,
                        self == Json::Object(*fields),
                        forall|k: int|
                            0 <= k < i ==> (#[trigger] out@[k]).name@ == fields@[k].name@
                                && out@[k].value@ == fields@[k].value@,
                    decreases fields@.len() - i,
                {
                    proof {
                        vstd::std_specs::vec::axiom_vec_index_decreases(*fields, i as int);
                    }
                    out.push(
                        Member { name: fields[i].name.clone(), value: fields[i].value.clone() },
                    );
                    i += 1;
                }
                proof {
                    lemma_object_view(*fields);
                    lemma_object_view(out);
                    assert(members_of(out@) =~= members_of(fields@));
                }
                Json::Object(out)
            },
        }
    }
}

/// Adds a member at the end of a list of members.
pub fn push_member(fields: &mut Vec<Member>, name: &str, value: Json)
    ensures
        members_of(final(fields)@) == members_of(old(fields)@).push(
            Field { name: name@, value: value@ },
        ),
{
    fields.push(Member { name: name.to_owned(), value });
    assert(members_of(fields@) =~= members_of(old(fields)@).push(
        Field { name: name@, value: value@ },
    ));
}

/// Adds an element at the end of a list of documents.
pub fn push_value(items: &mut Vec<Json>, value: Json)
    ensures
        values_of(final(items)@) == values_of(old(items)@).push(value@),
{
    items.push(value);
    assert(values_of(items@) =~= values_of(old(items)@).push(value@));
}

/// What `serde_json` reads from a text: the value of the document, or
/// nothing where the text is no JSON document.
pub uninterp spec fn json_text_value(text: Seq<char>) -> Option<JsonValue>;

/// The compact text that `serde_json` writes for a value; nothing for a
/// value that holds a real number whose text `serde_json` does not read
/// as a number.
pub uninterp spec fn json_value_text(value: JsonValue) -> Option<Seq<char>>;

/// The text of a value: what `serde_json` writes for it, and `null` for a
/// value that it cannot write.
pub open spec fn rendered(value: JsonValue) -> Seq<char> {
    match json_value_text(value) {
        Some(text) => text,
        None => "null"@,
    }
}

#[verifier::external_type_specification]
#[verifier::external_body]
pub struct ExValue(Value);

/// Copies a `serde_json::Value` into a [`Json`], variant by variant. A
/// number becomes `UInt` where `Number::as_u64` gives it, else `Int` where
/// `Number::as_i64` gives it, else `Real` with the text the number prints.
#[verifier::external_body]
fn json_from_value(value: &Value) -> Json {
    match value {
        Value::Null => Json::Null,
        Value::Bool(b) => Json::Bool(*b),
        Value::Number(n) => match (n.as_u64(), n.as_i64()) {
            (Some(u), _) => Json::UInt(u),
            (None, Some(i)) => Json::Int(i),
            (None, None) => Json::Real(n.to_string()),
        },
        Value::String(s) => Json::String(s.clone()),
        Value::Array(a) => Json::Array(a.iter().map(json_from_value).collect()),
        Value::Object(m) => Json::Object(
            m.iter().map(|(k, v)| Member { name: k.clone(), value: json_from_value(v) }).collect(),
        ),
    }
}

/// Copies a [`Json`] into a `serde_json::Value`, variant by variant. The
/// text of a `Real` is read as a `serde_json::Number`; where that fails,
/// there is no value.
#[verifier::external_body]
fn json_to_value(json: &Json) -> Option<Value> {
    Some(match json {
        Json::Null => Value::Null,
        Json::Bool(b) => Value::Bool(*b),
        Json::UInt(u) => Value::from(*u),
        Json::Int(i) => Value::from(*i),
        Json::Real(t) => Value::Number(t.parse().ok()?),
        Json::String(s) => Value::String(s.clone()),
        Json::Array(a) => Value::Array(a.iter().map(json_to_value).collect::<Option<_>>()?),
        Json::Object(m) => Value::Object(
            m.iter().map(|m| Some((m.name.clone(), json_to_value(&m.value)?))).collect::<Option<_>>()?,
        ),
    })
}

/// Reads a text with `serde_json::from_str`. The result is `None` where
/// `serde_json` reports an error, and otherwise the document it read.
#[verifier::external_body]
fn read_text(text: &str) -> (r: Option<Json>)
    ensures
        r is Some <==> json_text_value(text@) is Some,
        r matches Some(j) ==> Some(j@) == json_text_value(text@),
{
    match serde_json::from_str::<Value>(text) {
        Ok(value) => Some(json_from_value(&value)),
        Err(_) => None,
    }
}

/// Writes a document with `serde_json::to_string`, in its compact form.
/// The result is `None` where the document holds a real number that
/// `serde_json` does not read, or where `serde_json` reports an error.
#[verifier::external_body]
fn write_text(json: &Json) -> (r: Option<String>)
    ensures
        r is Some <==> json_value_text(json@) is Some,
        r matches Some(text) ==> Some(text@) == json_value_text(json@),
{
    serde_json::to_string(&json_to_value(json)?).ok()
}

impl Json {
    /// Reads a JSON text.
    pub fn parse(text: &str) -> (r: Option<Json>)
        ensures
            r is Some <==> json_text_value(text@) is Some,
            r matches Some(j) ==> Some(j@) == json_text_value(text@),
    {
        read_text(text)
    }

    /// Writes the document as compact JSON text; nothing for a document
    /// that cannot be written.
    pub fn try_render(&self) -> (r: Option<String>)
        ensures
            r is Some <==> json_value_text(self@) is Some,
            r matches Some(text) ==> Some(text@) == json_value_text(self@),
    {
        write_text(self)
    }

    /// Writes the document as compact JSON text, and `null` for a
    /// document that cannot be written.
    pub fn render(&self) -> (r: String)
        ensures
            r@ == rendered(self@),
    {
        match write_text(self) {
            Some(text) => text,
            None => "null".to_owned(),
        }
    }

    /// An object with the given members, in their order.
    pub fn object(fields: Vec<Member>) -> (r: Json)
        ensures
            r@ == JsonValue::Object(members_of(fields@)),
    {
        proof {
            lemma_object_view(fields);
        }
        Json::Object(fields)
    }

    /// An array with the given elements.
    pub fn array(items: Vec<Json>) -> (r: Json)
        ensures
            r@ == JsonValue::Array(values_of(items@)),
    {
        proof {
            lemma_array_view(items);
        }
        Json::Array(items)
    }

    /// A string document.
    pub fn string(text: &str) -> (r: Json)
        ensures
            r@ == JsonValue::String(text@),
    {
        Json::String(text.to_owned())
    }

    /// The member named `key`, if this is an object that has one.
    pub fn get(&self, key: &str) -> (r: Option<&Json>)
        ensures
            r is Some <==> self@.field(key@) is Some,
            r matches Some(j) ==> Some(j@) == self@.field(key@),
    {
        match self {
            Json::Object(fields) => {
                proof {
                    lemma_object_view(*fields);
                }
                let ghost members = members_of(fields@);
                let mut i: usize = 0;
                assert(members.skip(0) == members);
                while i < fields.len()
                    invariant
                        i <= fields@.len(),
                        members == members_of(fields@),
                        self@ == JsonValue::Object(members),
                        lookup(members, key@) == lookup(members.skip(i as int), key@),
                    decreases fields@.len() - i,
                {
                    let ghost rest = members.skip(i as int);
                    assert(rest[0] == members[i as int]);
                    assert(rest.drop_first() == members.skip(i + 1));
                    if crate::text::str_eq(fields[i].name.as_str(), key) {
                        return Some(&fields[i].value);
                    }
                    i += 1;
                }
                None
            },
            _ => None,
        }
    }

    /// The text, if this is a string.
    pub fn as_str(&self) -> (r: Option<&String>)
        ensures
            r is Some <==> self@.text() is Some,
            r matches Some(t) ==> Some(t@) == self@.text(),
    {
        match self {
            Json::String(t) => Some(t),
            _ => None,
        }
    }

    /// The elements, if this is an array.
    pub fn as_array(&self) -> (r: Option<&Vec<Json>>)
        ensures
            r is Some <==> self@.items() is Some,
            r matches Some(items) ==> Some(values_of(items@)) == self@.items(),
    {
        match self {
            Json::Array(items) => {
                proof {
                    lemma_array_view(*items);
                }
                Some(items)
            },
            _ => None,
        }
    }

    /// The number, if this is an integer that is not negative.
    pub fn as_u64(&self) -> (r: Option<u64>)
        ensures
            r is Some <==> self@.unsigned() is Some,
            r matches Some(n) ==> Some(n as int) == self@.unsigned(),
    {
        match self {
            Json::UInt(n) => Some(*n),
            _ => None,
        }
    }

    /// Tells whether this is an object.
    pub fn is_object(&self) -> (r: bool)
        ensures
            r == (self@ is Object),
    {
        match self {
            Json::Object(_) => true,
            _ => false,
        }
    }
}

} // verus!
