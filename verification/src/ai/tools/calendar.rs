//! The events of the calendars of the user.

use crate::ai::tools::request::{ToolRequest, ToolRequestView};
use crate::api::calendar::{CalendarAttendee, CalendarResponse};
use crate::json::{members_of, push_member, Field, Json, JsonValue, Member};
use crate::members::{
    optional_integer_member, optional_string_member, read_optional_integer_member,
    read_optional_string_member,
};
use crate::openai::tool::{
    tool_definition, tool_json, Function, Parameters, Property, PropertySet, ToolType,
};
use crate::text::{integer_text, join, joined, signed_decimal};
use vstd::prelude::*;
use vstd::string::StringExecFns;

verus! {

/// The arguments that the tool describes to the model.
pub struct CalendarProps {
    pub days_ahead: Property,
    pub calendar_id: Property,
}

/// The arguments that the tool takes.
#[derive(Debug)]
pub struct CalendarArgs {
    pub days_ahead: Option<i64>,
    pub calendar_id: Option<String>,
}

impl PropertySet for CalendarProps {
    open spec fn members(&self) -> Seq<Field> {
        Seq::empty().push(
            Field { name: "days_ahead"@, value: JsonValue::Object(self.days_ahead.members()) },
        ).push(
            Field { name: "calendar_id"@, value: JsonValue::Object(self.calendar_id.members()) },
        )
    }

    fn to_json(&self) -> (r: Json) {
        let mut fields: Vec<Member> = Vec::new();
        assert(members_of(fields@) =~= Seq::empty());
        push_member(&mut fields, "days_ahead", self.days_ahead.to_json());
        push_member(&mut fields, "calendar_id", self.calendar_id.to_json());
        Json::object(fields)
    }
}

/// The arguments that a JSON value stands for: an object in which
/// `days_ahead`, if it is there, is a whole number and `calendar_id`, if it
/// is there, is a text.
pub open spec fn calendar_args_of(v: JsonValue) -> Option<(Option<int>, Option<Seq<char>>)> {
    if !(v is Object) {
        None
    } else {
        match (
            optional_integer_member(v, "days_ahead"@),
            optional_string_member(v, "calendar_id"@),
        ) {
            (Some(days), Some(id)) => Some((days, id)),
            _ => None,
        }
    }
}

impl CalendarArgs {
    /// The value of the arguments.
    pub open spec fn value(&self) -> (Option<int>, Option<Seq<char>>) {
        (
            match self.days_ahead {
                Some(n) => Some(n as int),
                None => None,
            },
            match self.calendar_id {
                Some(id) => Some(id@),
                None => None,
            },
        )
    }

    /// Reads the arguments of a call.
    pub fn from_json(v: &Json) -> (r: Option<CalendarArgs>)
        ensures
            r is Some <==> calendar_args_of(v@) is Some,
            r matches Some(args) ==> Some(args.value()) == calendar_args_of(v@),
    {
        if !v.is_object() {
            return None;
        }
        match (
            read_optional_integer_member(v, "days_ahead"),
            read_optional_string_member(v, "calendar_id"),
        ) {
            (Some(days_ahead), Some(calendar_id)) => Some(CalendarArgs { days_ahead, calendar_id }),
            _ => None,
        }
    }
}

/// How an attendee is shown: the name, or `No name`, and the address in
/// angle brackets.
pub open spec fn attendee_text(attendee: CalendarAttendee) -> Seq<char> {
    (match attendee.display_name {
        Some(name) => name@,
        None => "No name"@,
    }) + " <"@ + attendee.email@ + ">"@
}

/// How an attendee is shown.
pub fn format_attendee(attendee: &CalendarAttendee) -> (r: String)
    ensures
        r@ == attendee_text(*attendee),
{
    let name = match &attendee.display_name {
        Some(name) => name.clone(),
        None => "No name".to_owned(),
    };
    name.concat(" <").concat(attendee.email.as_str()).concat(">")
}

/// How the attendees of an event are shown: that there are none, or all
/// of them with commas between them.
pub fn format_attendees(attendees: &Option<Vec<CalendarAttendee>>) -> (r: String)
    ensures
        (attendees is None || attendees->0@.len() == 0) ==> r@ == "No attendees"@,
        (attendees is Some && attendees->0@.len() > 0) ==> exists|parts: Seq<String>|
            parts.len() == attendees->0@.len() && (forall|i: int|
                0 <= i < parts.len() ==> (#[trigger] parts[i])@ == attendee_text(
                    attendees->0@[i],
                )) && r@ == "Attendees: "@ + joined(parts, ", "@),
{
    match attendees {
        None => "No attendees".to_owned(),
        Some(list) => {
            if list.len() == 0 {
                return "No attendees".to_owned();
            }
            let mut parts: Vec<String> = Vec::new();
            let mut i: usize = 0;
            while i < list.len()
                invariant
                    i <= list@.len(),
                    parts@.len() == i,
                    forall|k: int|
                        0 <= k < i ==> (#[trigger] parts@[k])@ == attendee_text(list@[k]),
                decreases list@.len() - i,
            {
                parts.push(format_attendee(&list[i]));
                i += 1;
            }
            "Attendees: ".to_owned().concat(join(&parts, ", ").as_str())
        },
    }
}

/// How an event is shown with the given text for its attendees.
pub open spec fn event_text(event: CalendarResponse, attendees: Seq<char>) -> Seq<char> {
    "## "@ + event.summary@ + "\nStart: "@ + event.start@ + "\nEnd: "@ + event.end@ + "\n"@
        + attendees + "\n"@
}

/// How an event is shown.
pub fn format_event(event: &CalendarResponse) -> (r: String)
    ensures
        exists|attendees: Seq<char>| r@ == event_text(*event, attendees),
{
    let attendees = format_attendees(&event.attendees);
    let r = "## ".to_owned().concat(event.summary.as_str()).concat("\nStart: ").concat(
        event.start.as_str(),
    ).concat("\nEnd: ").concat(event.end.as_str()).concat("\n").concat(attendees.as_str()).concat(
        "\n",
    );
    assert(r@ == event_text(*event, attendees@));
    r
}

/// What the tool says where no account is authorised.
pub const NO_ACCOUNTS: &'static str = "No authorized calendar accounts found.";

/// Tells the model of the upcoming events.
pub struct CalendarTool {
    pub kind: ToolType,
    pub function: Function<CalendarProps>,
    pub api_base_url: String,
}

impl CalendarTool {
    /// The tool for the service at `api_base_url`.
    pub fn new(api_base_url: &str) -> (r: Self)
        ensures
            r.api_base_url@ == api_base_url@,
            r.kind == ToolType::Function,
            r.function.name@ == "get_calendar_events"@,
            r.function.description@
                == "Fetch upcoming calendar events for all authorized accounts."@,
            r.function.strict,
            r.function.parameters.kind@ == "object"@,
            r.function.parameters.required@.len() == 0,
            !r.function.parameters.additional_properties,
            r.function.parameters.properties.days_ahead.kind@ == "integer"@,
            r.function.parameters.properties.days_ahead.description@
                == "Number of days ahead to fetch events for (default is 7)."@,
            r.function.parameters.properties.days_ahead.allowed is None,
            r.function.parameters.properties.calendar_id.kind@ == "string"@,
            r.function.parameters.properties.calendar_id.description@
                == "The calendar ID to fetch events from (default is 'primary')."@,
            r.function.parameters.properties.calendar_id.allowed is None,
    {
        CalendarTool {
            kind: ToolType::Function,
            function: Function {
                name: "get_calendar_events".to_owned(),
                description: "Fetch upcoming calendar events for all authorized accounts.".to_owned(),
                parameters: Parameters {
                    kind: "object".to_owned(),
                    properties: CalendarProps {
                        days_ahead: Property::new(
                            "integer",
                            "Number of days ahead to fetch events for (default is 7).",
                        ),
                        calendar_id: Property::new(
                            "string",
                            "The calendar ID to fetch events from (default is 'primary').",
                        ),
                    },
                    required: Vec::new(),
                    additional_properties: false,
                },
                strict: true,
            },
            api_base_url: api_base_url.to_owned(),
        }
    }

    /// The name of the capability.
    pub fn function_name(&self) -> (r: String)
        ensures
            r@ == self.function.name@,
    {
        self.function.name.clone()
    }

    /// What the model is told of the tool.
    pub fn definition(&self) -> (r: Json)
        ensures
            r@ == tool_json(self.kind, self.function),
    {
        tool_definition(self.kind, &self.function)
    }
}

/// The query that asks for the events of an account: the account, then
/// the number of days to look ahead and the calendar, each where the
/// arguments name it.
pub open spec fn calendar_pairs(args: CalendarArgs, email: Seq<char>) -> Seq<
    (Seq<char>, Seq<char>),
> {
    let account = seq![("email"@, email)];
    let days = match args.days_ahead {
        Some(days) => seq![("days_ahead"@, integer_text(days as int))],
        None => Seq::empty(),
    };
    let calendar = match args.calendar_id {
        Some(id) => seq![("calendar_id"@, id@)],
        None => Seq::empty(),
    };
    account + days + calendar
}

impl CalendarTool {
    /// The request that asks for the events of the account `email`.
    pub fn request(&self, args: &CalendarArgs, email: &str) -> (r: ToolRequest)
        ensures
            r@ == (ToolRequestView {
                url: self.api_base_url@ + "/api/calendar"@,
                pairs: calendar_pairs(*args, email@),
            }),
    {
        let url = self.api_base_url.clone().concat("/api/calendar");
        let mut request = ToolRequest::new(url).with("email", email);
        let ghost account = request@.pairs;
        assert(account =~= seq![("email"@, email@)]);
        match args.days_ahead {
            Some(days) => {
                let text = signed_decimal(days);
                request = request.with("days_ahead", text.as_str());
                assert(request@.pairs =~= account + seq![
                    ("days_ahead"@, integer_text(days as int)),
                ]);
            },
            None => {
                assert(request@.pairs =~= account + Seq::empty());
            },
        }
        let ghost with_days = request@.pairs;
        match &args.calendar_id {
            Some(id) => {
                request = request.with("calendar_id", id.as_str());
                assert(request@.pairs =~= with_days + seq![("calendar_id"@, id@)]);
            },
            None => {
                assert(request@.pairs =~= with_days + Seq::empty());
            },
        }
        request
    }
}

} // verus!
