//! What the server remembers between requests.

use crate::json::{members_of, push_member, Field, Json, JsonValue, Member};
use crate::members::{read_string_member, string_member};
use vstd::prelude::*;

verus! {

/// The note that was selected last.
#[derive(Debug)]
pub struct LastSelection {
    pub id: String,
    pub title: String,
    pub file_name: String,
}

impl LastSelection {
    /// Reads a selection: an object with the texts `id`, `title` and
    /// `file_name`.
    pub fn from_json(v: &Json) -> (r: Option<LastSelection>)
        ensures
            r is Some <==> string_member(v@, "id"@) is Some && string_member(v@, "title"@) is Some
                && string_member(v@, "file_name"@) is Some,
            r matches Some(x) ==> string_member(v@, "id"@) == Some(x.id@) && string_member(
                v@,
                "title"@,
            ) == Some(x.title@) && string_member(v@, "file_name"@) == Some(x.file_name@),
    {
        match (
            read_string_member(v, "id"),
            read_string_member(v, "title"),
            read_string_member(v, "file_name"),
        ) {
            (Some(id), Some(title), Some(file_name)) => Some(LastSelection { id, title, file_name }),
            _ => None,
        }
    }

    /// The members of the JSON form: the id, the file name and the title.
    pub open spec fn members(&self) -> Seq<Field> {
        Seq::empty().push(Field { name: "id"@, value: JsonValue::String(self.id@) }).push(
            Field { name: "file_name"@, value: JsonValue::String(self.file_name@) },
        ).push(Field { name: "title"@, value: JsonValue::String(self.title@) })
    }

    /// The JSON form of the selection.
    pub fn to_json(&self) -> (r: Json)
        ensures
            r@ == JsonValue::Object(self.members()),
    {
        let mut fields: Vec<Member> = Vec::new();
        assert(members_of(fields@) =~= Seq::empty());
        push_member(&mut fields, "id", Json::string(self.id.as_str()));
        push_member(&mut fields, "file_name", Json::string(self.file_name.as_str()));
        push_member(&mut fields, "title", Json::string(self.title.as_str()));
        Json::object(fields)
    }
}

/// The JSON form of the selection that is remembered: the selection, or
/// `null` where there is none.
pub fn selection_to_json(selection: &Option<LastSelection>) -> (r: Json)
    ensures
        r@ == match selection {
            Some(s) => JsonValue::Object(s.members()),
            None => JsonValue::Null,
        },
{
    match selection {
        Some(s) => s.to_json(),
        None => Json::Null,
    }
}

} // verus!
