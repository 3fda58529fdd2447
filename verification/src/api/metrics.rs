//! Metrics.

use crate::json::{members_of, push_member, push_value, values_of, Field, Json, JsonValue, Member};
use crate::members::{
    integer_json, integer_member, integer_to_json, read_integer_member, read_string_member,
    string_member,
};
use crate::text::str_eq;
use vstd::prelude::*;

verus! {

/// What is measured.
#[derive(Clone, Copy, Debug, PartialEq, Eq, Structural)]
pub enum MetricName {
    TokenCount,
}

/// A measurement to record.
#[derive(Debug)]
pub struct MetricRequest {
    pub name: MetricName,
    pub value: i64,
}

/// Of how many days the metrics are asked for.
#[derive(Debug)]
pub struct MetricsQuery {
    pub limit_days: Option<i64>,
}

/// The total of a metric on one day.
#[derive(Debug)]
pub struct MetricEvent {
    pub name: MetricName,
    pub timestamp: String,
    pub value: i64,
}

/// The metrics of the days that were asked for.
#[derive(Debug)]
pub struct MetricsResponse {
    pub events: Vec<MetricEvent>,
}

impl MetricName {
    /// The name under which the metric is stored and sent.
    pub open spec fn wire_name(self) -> Seq<char> {
        "token-count"@
    }

    /// The name under which the metric is stored and sent.
    pub fn as_str(&self) -> (r: &'static str)
        ensures
            r@ == self.wire_name(),
    {
        "token-count"
    }

    /// The metric with the given name.
    pub fn from_name(name: &str) -> (r: Option<MetricName>)
        ensures
            r == if name@ == "token-count"@ {
                Some(MetricName::TokenCount)
            } else {
                None
            },
    {
        if str_eq(name, "token-count") {
            Some(MetricName::TokenCount)
        } else {
            None
        }
    }
}

impl MetricsQuery {
    /// The number of days to look back: thirty unless the query says
    /// otherwise.
    pub fn days(&self) -> (r: i64)
        ensures
            r == match self.limit_days {
                Some(days) => days,
                None => 30,
            },
    {
        match self.limit_days {
            Some(days) => days,
            None => 30,
        }
    }
}

impl MetricRequest {
    /// Reads a measurement: an object with the name of a metric and a value
    /// that is a whole number.
    pub fn from_json(v: &Json) -> (r: Option<MetricRequest>)
        ensures
            r is Some <==> string_member(v@, "name"@) == Some("token-count"@) && integer_member(
                v@,
                "value"@,
            ) is Some,
            r matches Some(x) ==> Some(x.value as int) == integer_member(v@, "value"@),
    {
        let name = match read_string_member(v, "name") {
            Some(name) => MetricName::from_name(name.as_str()),
            None => None,
        };
        match (name, read_integer_member(v, "value")) {
            (Some(name), Some(value)) => Some(MetricRequest { name, value }),
            _ => None,
        }
    }
}

impl MetricEvent {
    /// The members of the JSON form: the name, the day and the total.
    pub open spec fn members(&self) -> Seq<Field> {
        Seq::empty().push(
            Field { name: "name"@, value: JsonValue::String(self.name.wire_name()) },
        ).push(Field { name: "timestamp"@, value: JsonValue::String(self.timestamp@) }).push(
            Field { name: "value"@, value: integer_json(self.value as int) },
        )
    }

    /// The JSON form of the total.
    pub fn to_json(&self) -> (r: Json)
        ensures
            r@ == JsonValue::Object(self.members()),
    {
        let mut fields: Vec<Member> = Vec::new();
        assert(members_of(fields@) =~= Seq::empty());
        push_member(&mut fields, "name", Json::string(self.name.as_str()));
        push_member(&mut fields, "timestamp", Json::string(self.timestamp.as_str()));
        push_member(&mut fields, "value", integer_to_json(self.value));
        Json::object(fields)
    }
}

/// The JSON forms of a sequence of totals.
pub open spec fn events_json(events: Seq<MetricEvent>) -> Seq<JsonValue> {
    Seq::new(events.len(), |i: int| JsonValue::Object(events[i].members()))
}

impl MetricsResponse {
    /// The JSON form of the metrics.
    pub fn to_json(&self) -> (r: Json)
        ensures
            r@ == JsonValue::Object(
                Seq::empty().push(
                    Field { name: "events"@, value: JsonValue::Array(events_json(self.events@)) },
                ),
            ),
    {
        let ghost all = events_json(self.events@);
        let mut items: Vec<Json> = Vec::new();
        let mut i: usize = 0;
        assert(values_of(items@) =~= all.take(0));
        while i < self.events.len()
            invariant
                i <= self.events@.len(),
                all == events_json(self.events@),
                values_of(items@) == all.take(i as int),
            decreases self.events@.len() - i,
        {
            push_value(&mut items, self.events[i].to_json());
            assert(all.take(i + 1) =~= all.take(i as int).push(all[i as int]));
            i += 1;
        }
        assert(all.take(self.events@.len() as int) =~= all);
        let mut fields: Vec<Member> = Vec::new();
        assert(members_of(fields@) =~= Seq::empty());
        push_member(&mut fields, "events", Json::array(items));
        Json::object(fields)
    }
}

} // verus!
