//! The tasks that are due or scheduled today.

use crate::ai::tools::request::{ToolRequest, ToolRequestView};
use crate::api::notes::SearchResult;
use crate::dates::{day_text, utc_day_text, DayForm};
use crate::json::{members_of, Field, Json, Member};
use crate::openai::tool::{tool_definition, tool_json, Function, Parameters, PropertySet, ToolType};
use crate::text::{join, joined};
use vstd::prelude::*;
use vstd::string::StringExecFns;

verus! {

/// The arguments that the tool describes to the model: none.
pub struct TasksDueTodayProps {}

/// The arguments that the tool takes: none.
pub struct TasksDueTodayArgs {}

impl PropertySet for TasksDueTodayProps {
    open spec fn members(&self) -> Seq<Field> {
        Seq::empty()
    }

    fn to_json(&self) -> (r: Json) {
        let fields: Vec<Member> = Vec::new();
        assert(members_of(fields@) =~= Seq::empty());
        Json::object(fields)
    }
}

/// The arguments that the tool describes to the model: none.
pub struct TasksScheduledTodayProps {}

/// The arguments that the tool takes: none.
pub struct TasksScheduledTodayArgs {}

impl PropertySet for TasksScheduledTodayProps {
    open spec fn members(&self) -> Seq<Field> {
        Seq::empty()
    }

    fn to_json(&self) -> (r: Json) {
        let fields: Vec<Member> = Vec::new();
        assert(members_of(fields@) =~= Seq::empty());
        Json::object(fields)
    }
}

/// What is said of one note: its title as a heading, then its id and its
/// body, each on a line of its own.
pub open spec fn result_text(result: SearchResult) -> Seq<char> {
    "## "@ + result.title@ + "\n"@ + result.id@ + "\n"@ + result.body@
}

/// What is said of one note.
pub fn format_result(result: &SearchResult) -> (r: String)
    ensures
        r@ == result_text(*result),
{
    "## ".to_owned().concat(result.title.as_str()).concat("\n").concat(result.id.as_str()).concat(
        "\n",
    ).concat(result.body.as_str())
}

/// What is said of each note, in the order of the notes.
pub fn format_each(results: &Vec<SearchResult>) -> (r: Vec<String>)
    ensures
        r@.len() == results@.len(),
        forall|i: int| 0 <= i < results@.len() ==> (#[trigger] r@[i])@ == result_text(results@[i]),
{
    let mut out: Vec<String> = Vec::new();
    let mut i: usize = 0;
    while i < results.len()
        invariant
            i <= results@.len(),
            out@.len() == i,
            forall|k: int| 0 <= k < i ==> (#[trigger] out@[k])@ == result_text(results@[k]),
        decreases results@.len() - i,
    {
        out.push(format_result(&results[i]));
        i += 1;
    }
    out
}

/// What is said of the notes that a search found, with a blank line
/// between two notes.
pub fn format_results(results: &Vec<SearchResult>) -> (r: String)
    ensures
        exists|parts: Seq<String>|
            parts.len() == results@.len() && (forall|i: int|
                0 <= i < parts.len() ==> (#[trigger] parts[i])@ == result_text(results@[i])) && r@
                == joined(parts, "\n\n"@),
{
    let parts = format_each(results);
    join(&parts, "\n\n")
}

/// What the tools say of the tasks that a search found: that there are
/// none, or each of them.
pub fn format_tasks(results: &Vec<SearchResult>) -> (r: String)
    ensures
        results@.len() == 0 ==> r@ == "No results found"@,
        results@.len() > 0 ==> exists|parts: Seq<String>|
            parts.len() == results@.len() && (forall|i: int|
                0 <= i < parts.len() ==> (#[trigger] parts[i])@ == result_text(results@[i])) && r@
                == joined(parts, "\n\n"@),
{
    if results.len() == 0 {
        "No results found".to_owned()
    } else {
        format_results(results)
    }
}

/// Tells the model of the tasks that are due today.
pub struct TasksDueTodayTool {
    pub kind: ToolType,
    pub function: Function<TasksDueTodayProps>,
    pub api_base_url: String,
}

/// Tells the model of the tasks that are scheduled for today.
pub struct TasksScheduledTodayTool {
    pub kind: ToolType,
    pub function: Function<TasksScheduledTodayProps>,
    pub api_base_url: String,
}

/// The search for the open tasks whose date in `field` is `today` or
/// earlier.
pub open spec fn open_tasks_query(field: Seq<char>, today: Seq<char>) -> Seq<char> {
    field + ":<="@ + today + " -status:done -status:canceled"@
}

/// The request that searches the notes for tasks.
pub open spec fn tasks_request(api_base_url: Seq<char>, query: Seq<char>) -> ToolRequestView {
    ToolRequestView {
        url: api_base_url + "/notes/search"@,
        pairs: seq![("query"@, query), ("include_similarity"@, "false"@)],
    }
}

impl TasksDueTodayTool {
    /// The tool for the service at `api_base_url`.
    pub fn new(api_base_url: &str) -> (r: Self)
        ensures
            r.api_base_url@ == api_base_url@,
            r.kind == ToolType::Function,
            r.function.name@ == "tasks_due_today"@,
            r.function.description@
                == "Get a list of tasks that are due today, excluding done and canceled tasks."@,
            r.function.strict,
            r.function.parameters.kind@ == "object"@,
            r.function.parameters.required@.len() == 0,
            !r.function.parameters.additional_properties,
    {
        TasksDueTodayTool {
            kind: ToolType::Function,
            function: Function {
                name: "tasks_due_today".to_owned(),
                description: "Get a list of tasks that are due today, excluding done and canceled tasks.".to_owned(),
                parameters: Parameters {
                    kind: "object".to_owned(),
                    properties: TasksDueTodayProps {  },
                    required: Vec::new(),
                    additional_properties: false,
                },
                strict: true,
            },
            api_base_url: api_base_url.to_owned(),
        }
    }

    /// The name of the capability.
    pub fn function_name(&self) -> (r: String)
        ensures
            r@ == self.function.name@,
    {
        self.function.name.clone()
    }

    /// What the model is told of the tool.
    pub fn definition(&self) -> (r: Json)
        ensures
            r@ == tool_json(self.kind, self.function),
    {
        tool_definition(self.kind, &self.function)
    }

    /// The search that finds the tasks, where `today` is the date of today
    /// written as year, month and day.
    pub fn query(today: &str) -> (r: String)
        ensures
            r@ == open_tasks_query("deadline"@, today@),
    {
        "deadline".to_owned().concat(":<=").concat(today).concat(" -status:done -status:canceled")
    }

    /// The request that finds the tasks: a search of the notes without
    /// their similarity.
    pub fn request(&self, today: &str) -> (r: ToolRequest)
        ensures
            r@ == tasks_request(self.api_base_url@, open_tasks_query("deadline"@, today@)),
    {
        let url = self.api_base_url.clone().concat("/notes/search");
        let query = Self::query(today);
        let r = ToolRequest::new(url).with("query", query.as_str()).with(
            "include_similarity",
            "false",
        );
        assert(r@.pairs =~= seq![("query"@, query@), ("include_similarity"@, "false"@)]);
        r
    }

    /// The request that finds the tasks at the time `now`, which is given
    /// in seconds since the beginning of 1970: that of the day of that
    /// time in UTC. Nothing for a time beyond the calendar.
    pub fn request_at(&self, now: i64) -> (r: Option<ToolRequest>)
        ensures
            match r {
                Some(request) => utc_day_text(now as int, DayForm::Dashes.pattern()) is Some
                    && request@ == tasks_request(
                    self.api_base_url@,
                    open_tasks_query(
                        "deadline"@,
                        utc_day_text(now as int, DayForm::Dashes.pattern())->0,
                    ),
                ),
                None => utc_day_text(now as int, DayForm::Dashes.pattern()) is None,
            },
    {
        match day_text(now, DayForm::Dashes) {
            Some(today) => Some(self.request(today.as_str())),
            None => None,
        }
    }
}

impl Default for TasksDueTodayTool {
    fn default() -> (r: Self)
        ensures
            r.api_base_url@ == "http://localhost:2222"@,
            r.function.name@ == "tasks_due_today"@,
    {
        TasksDueTodayTool::new("http://localhost:2222")
    }
}

impl TasksScheduledTodayTool {
    /// The tool for the service at `api_base_url`.
    pub fn new(api_base_url: &str) -> (r: Self)
        ensures
            r.api_base_url@ == api_base_url@,
            r.kind == ToolType::Function,
            r.function.name@ == "tasks_scheduled_today"@,
            r.function.description@
                == "Get a list of tasks that are scheduled for today, excluding done and canceled tasks."@,
            r.function.strict,
            r.function.parameters.kind@ == "object"@,
            r.function.parameters.required@.len() == 0,
            !r.function.parameters.additional_properties,
    {
        TasksScheduledTodayTool {
            kind: ToolType::Function,
            function: Function {
                name: "tasks_scheduled_today".to_owned(),
                description: "Get a list of tasks that are scheduled for today, excluding done and canceled tasks.".to_owned(),
                parameters: Parameters {
                    kind: "object".to_owned(),
                    properties: TasksScheduledTodayProps {  },
                    required: Vec::new(),
                    additional_properties: false,
                },
                strict: true,
            },
            api_base_url: api_base_url.to_owned(),
        }
    }

    /// The name of the capability.
    pub fn function_name(&self) -> (r: String)
        ensures
            r@ == self.function.name@,
    {
        self.function.name.clone()
    }

    /// What the model is told of the tool.
    pub fn definition(&self) -> (r: Json)
        ensures
            r@ == tool_json(self.kind, self.function),
    {
        tool_definition(self.kind, &self.function)
    }

    /// The search that finds the tasks, where `today` is the date of today
    /// written as year, month and day.
    pub fn query(today: &str) -> (r: String)
        ensures
            r@ == open_tasks_query("scheduled"@, today@),
    {
        "scheduled".to_owned().concat(":<=").concat(today).concat(" -status:done -status:canceled")
    }

    /// The request that finds the tasks: a search of the notes without
    /// their similarity.
    pub fn request(&self, today: &str) -> (r: ToolRequest)
        ensures
            r@ == tasks_request(self.api_base_url@, open_tasks_query("scheduled"@, today@)),
    {
        let url = self.api_base_url.clone().concat("/notes/search");
        let query = Self::query(today);
        let r = ToolRequest::new(url).with("query", query.as_str()).with(
            "include_similarity",
            "false",
        );
        assert(r@.pairs =~= seq![("query"@, query@), ("include_similarity"@, "false"@)]);
        r
    }

    /// The request that finds the tasks at the time `now`, which is given
    /// in seconds since the beginning of 1970: that of the day of that
    /// time in UTC. Nothing for a time beyond the calendar.
    pub fn request_at(&self, now: i64) -> (r: Option<ToolRequest>)
        ensures
            match r {
                Some(request) => utc_day_text(now as int, DayForm::Dashes.pattern()) is Some
                    && request@ == tasks_request(
                    self.api_base_url@,
                    open_tasks_query(
                        "scheduled"@,
                        utc_day_text(now as int, DayForm::Dashes.pattern())->0,
                    ),
                ),
                None => utc_day_text(now as int, DayForm::Dashes.pattern()) is None,
            },
    {
        match day_text(now, DayForm::Dashes) {
            Some(today) => Some(self.request(today.as_str())),
            None => None,
        }
    }
}

impl Default for TasksScheduledTodayTool {
    fn default() -> (r: Self)
        ensures
            r.api_base_url@ == "http://localhost:2222"@,
            r.function.name@ == "tasks_scheduled_today"@,
    {
        TasksScheduledTodayTool::new("http://localhost:2222")
    }
}

} // verus!
