//! Calendar events.

use crate::json::{values_of, Json, JsonValue};
use crate::members::{
    optional_string_member, present_member, read_optional_string_member, read_present_member,
    read_string_member, string_member, text_of,
};
use vstd::prelude::*;

verus! {

/// Which events are asked for.
#[derive(Debug)]
pub struct CalendarQuery {
    pub email: String,
    pub days_ahead: Option<i64>,
    pub calendar_id: Option<String>,
}

/// Someone who is invited to an event.
#[derive(Debug)]
pub struct CalendarAttendee {
    pub email: String,
    pub display_name: Option<String>,
}

/// An event. Times are written as RFC 3339 text.
#[derive(Debug)]
pub struct CalendarResponse {
    pub id: String,
    pub summary: String,
    pub start: String,
    pub end: String,
    pub attendees: Option<Vec<CalendarAttendee>>,
}

impl CalendarQuery {
    /// The number of days to look ahead: seven unless the query says
    /// otherwise.
    pub fn days(&self) -> (r: i64)
        ensures
            r == match self.days_ahead {
                Some(days) => days,
                None => 7,
            },
    {
        match self.days_ahead {
            Some(days) => days,
            None => 7,
        }
    }

    /// The end of the time that the query looks at: as many days after
    /// `now` as it looks ahead. Times are given in seconds since the
    /// beginning of 1970.
    pub open spec fn end_of_window(&self, now: int) -> int {
        now + match self.days_ahead {
            Some(days) => days as int,
            None => 7,
        } * 86400
    }

    /// The time that the query looks at, from `now` to its end; nothing
    /// where the end cannot be counted in seconds.
    pub fn window(&self, now: i64) -> (r: Option<(i64, i64)>)
        ensures
            r == if i64::MIN <= self.end_of_window(now as int) <= i64::MAX {
                Some((now, self.end_of_window(now as int) as i64))
            } else {
                None::<(i64, i64)>
            },
    {
        let end: i128 = now as i128 + self.days() as i128 * 86400;
        if end < i64::MIN as i128 || end > i64::MAX as i128 {
            None
        } else {
            Some((now, end as i64))
        }
    }

    /// The calendar to read: the primary one unless the query says
    /// otherwise.
    pub fn calendar(&self) -> (r: String)
        ensures
            r@ == match self.calendar_id {
                Some(id) => id@,
                None => "primary"@,
            },
    {
        match &self.calendar_id {
            Some(id) => id.clone(),
            None => "primary".to_owned(),
        }
    }
}

/// The title of an event, and `No title` for an event without one.
pub fn event_summary(summary: Option<String>) -> (r: String)
    ensures
        r@ == match summary {
            Some(text) => text@,
            None => "No title"@,
        },
{
    match summary {
        Some(text) => text,
        None => "No title".to_owned(),
    }
}

/// An attendee can be read from a value: `email` is a text, and so is
/// `display_name` where it is there.
pub open spec fn attendee_readable(v: JsonValue) -> bool {
    string_member(v, "email"@) is Some && optional_string_member(v, "display_name"@) is Some
}

/// An attendee is what a value says.
pub open spec fn attendee_matches(a: CalendarAttendee, v: JsonValue) -> bool {
    string_member(v, "email"@) == Some(a.email@) && optional_string_member(v, "display_name"@)
        == Some(text_of(a.display_name))
}

/// Every element of an array is an attendee that can be read.
pub open spec fn attendees_readable(items: Seq<JsonValue>) -> bool {
    forall|i: int| 0 <= i < items.len() ==> attendee_readable(#[trigger] items[i])
}

/// The attendees are what the elements of an array say, one for one.
pub open spec fn attendees_match(list: Seq<CalendarAttendee>, items: Seq<JsonValue>) -> bool {
    list.len() == items.len() && forall|i: int|
        0 <= i < items.len() ==> attendee_matches(#[trigger] list[i], items[i])
}

/// The attendees in the member `attendees`, which may be missing or
/// `null`, can be read.
pub open spec fn optional_attendees_readable(v: JsonValue) -> bool {
    match present_member(v, "attendees"@) {
        None => true,
        Some(JsonValue::Array(items)) => attendees_readable(items),
        Some(_) => false,
    }
}

/// Optional attendees are what the member `attendees` says.
pub open spec fn optional_attendees_match(list: Option<Vec<CalendarAttendee>>, v: JsonValue) -> bool {
    match present_member(v, "attendees"@) {
        Some(JsonValue::Array(items)) => list is Some && attendees_match(list->0@, items),
        _ => list is None,
    }
}

/// An event can be read from a value: `id`, `summary`, `start` and `end`
/// are texts, and the attendees can be read where they are there.
pub open spec fn event_readable(v: JsonValue) -> bool {
    &&& string_member(v, "id"@) is Some
    &&& string_member(v, "summary"@) is Some
    &&& string_member(v, "start"@) is Some
    &&& string_member(v, "end"@) is Some
    &&& optional_attendees_readable(v)
}

/// An event is what a value says.
pub open spec fn event_matches(e: CalendarResponse, v: JsonValue) -> bool {
    &&& string_member(v, "id"@) == Some(e.id@)
    &&& string_member(v, "summary"@) == Some(e.summary@)
    &&& string_member(v, "start"@) == Some(e.start@)
    &&& string_member(v, "end"@) == Some(e.end@)
    &&& optional_attendees_match(e.attendees, v)
}

/// Every element of an array is an event that can be read.
pub open spec fn events_readable(items: Seq<JsonValue>) -> bool {
    forall|i: int| 0 <= i < items.len() ==> event_readable(#[trigger] items[i])
}

/// The events are what the elements of an array say, one for one.
pub open spec fn events_match(list: Seq<CalendarResponse>, items: Seq<JsonValue>) -> bool {
    list.len() == items.len() && forall|i: int|
        0 <= i < items.len() ==> event_matches(#[trigger] list[i], items[i])
}

impl CalendarAttendee {
    /// Reads an attendee.
    pub fn from_json(v: &Json) -> (r: Option<CalendarAttendee>)
        ensures
            r is Some <==> attendee_readable(v@),
            r matches Some(a) ==> attendee_matches(a, v@),
    {
        match (read_string_member(v, "email"), read_optional_string_member(v, "display_name")) {
            (Some(email), Some(display_name)) => Some(CalendarAttendee { email, display_name }),
            _ => None,
        }
    }
}

/// Reads the attendees in an array.
pub fn read_attendees(items: &Vec<Json>) -> (r: Option<Vec<CalendarAttendee>>)
    ensures
        r is Some <==> attendees_readable(values_of(items@)),
        r matches Some(list) ==> attendees_match(list@, values_of(items@)),
{
    let ghost values = values_of(items@);
    let mut out: Vec<CalendarAttendee> = Vec::new();
    let mut i: usize = 0;
    while i < items.len()
        invariant
            i <= items@.len(),
            values == values_of(items@),
            out@.len() == i,
            forall|k: int| 0 <= k < i ==> attendee_readable(#[trigger] values[k]),
            forall|k: int| 0 <= k < i ==> attendee_matches(#[trigger] out@[k], values[k]),
        decreases items@.len() - i,
    {
        assert(values[i as int] == items@[i as int]@);
        match CalendarAttendee::from_json(&items[i]) {
            Some(attendee) => out.push(attendee),
            None => {
                return None;
            },
        }
        i += 1;
    }
    Some(out)
}

impl CalendarResponse {
    /// Reads an event.
    pub fn from_json(v: &Json) -> (r: Option<CalendarResponse>)
        ensures
            r is Some <==> event_readable(v@),
            r matches Some(e) ==> event_matches(e, v@),
    {
        let attendees = match read_present_member(v, "attendees") {
            None => Some(None),
            Some(member) => match member.as_array() {
                Some(items) => match read_attendees(items) {
                    Some(list) => Some(Some(list)),
                    None => None,
                },
                None => None,
            },
        };
        match (
            read_string_member(v, "id"),
            read_string_member(v, "summary"),
            read_string_member(v, "start"),
            read_string_member(v, "end"),
            attendees,
        ) {
            (Some(id), Some(summary), Some(start), Some(end), Some(attendees)) => Some(
                CalendarResponse { id, summary, start, end, attendees },
            ),
            _ => None,
        }
    }
}

/// Reads the events in an array.
pub fn read_events(items: &Vec<Json>) -> (r: Option<Vec<CalendarResponse>>)
    ensures
        r is Some <==> events_readable(values_of(items@)),
        r matches Some(list) ==> events_match(list@, values_of(items@)),
{
    let ghost values = values_of(items@);
    let mut out: Vec<CalendarResponse> = Vec::new();
    let mut i: usize = 0;
    while i < items.len()
        invariant
            i <= items@.len(),
            values == values_of(items@),
            out@.len() == i,
            forall|k: int| 0 <= k < i ==> event_readable(#[trigger] values[k]),
            forall|k: int| 0 <= k < i ==> event_matches(#[trigger] out@[k], values[k]),
        decreases items@.len() - i,
    {
        assert(values[i as int] == items@[i as int]@);
        match CalendarResponse::from_json(&items[i]) {
            Some(event) => out.push(event),
            None => {
                return None;
            },
        }
        i += 1;
    }
    Some(out)
}

} // verus!
