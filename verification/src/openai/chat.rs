//! Tool calls: reading the requests of the model, finding the capability
//! that each one names, and making the messages that record a call and its
//! result.

use crate::json::{values_of, Json, JsonValue};
use crate::openai::message::{
    calls_of, messages_of, FunctionCall, FunctionCallFn, FunctionCallView, Message, MessageView,
};
use crate::openai::stream::StreamError;
use crate::openai::tool::ToolCall;
use crate::text::{str_eq, texts_of};
use vstd::prelude::*;

verus! {

/// Why a turn of the chat failed. Nothing is retried and nothing of a
/// failed turn is kept.
#[derive(Debug)]
pub enum ChatError {
    /// The exchange with the service failed.
    Transport { detail: String },
    /// A frame of a streamed response could not be read.
    Stream { error: StreamError },
    /// The response is no JSON document.
    MalformedResponse,
    /// A tool call of the model has no `id` text.
    MissingToolCallId,
    /// A tool call of the model has no `function.arguments` text.
    MissingToolCallArguments,
    /// A tool call of the model has no `function.name` text.
    MissingToolCallName,
    /// The model asked for a capability that is not registered.
    UnknownTool { name: String },
    /// The model asked for tool calls, and no capability is configured.
    NoTools,
    /// A capability failed.
    ToolFailed { detail: String },
    /// The response has neither content nor tool calls.
    NoFinalMessage,
    /// An event arrived that the state of the turn does not expect.
    UnexpectedEvent,
    /// The capabilities of a session do not fit: two of them have the same
    /// name, or they are not as many as their definitions.
    InvalidCapabilities,
}

/// The value of a [`ChatError`].
pub enum ChatErrorView {
    Transport { detail: Seq<char> },
    Stream { error: StreamError },
    MalformedResponse,
    MissingToolCallId,
    MissingToolCallArguments,
    MissingToolCallName,
    UnknownTool { name: Seq<char> },
    NoTools,
    ToolFailed { detail: Seq<char> },
    NoFinalMessage,
    UnexpectedEvent,
    InvalidCapabilities,
}

impl View for ChatError {
    type V = ChatErrorView;

    open spec fn view(&self) -> ChatErrorView {
        match self {
            ChatError::Transport { detail } => ChatErrorView::Transport { detail: detail@ },
            ChatError::Stream { error } => ChatErrorView::Stream { error: *error },
            ChatError::MalformedResponse => ChatErrorView::MalformedResponse,
            ChatError::MissingToolCallId => ChatErrorView::MissingToolCallId,
            ChatError::MissingToolCallArguments => ChatErrorView::MissingToolCallArguments,
            ChatError::MissingToolCallName => ChatErrorView::MissingToolCallName,
            ChatError::UnknownTool { name } => ChatErrorView::UnknownTool { name: name@ },
            ChatError::NoTools => ChatErrorView::NoTools,
            ChatError::ToolFailed { detail } => ChatErrorView::ToolFailed { detail: detail@ },
            ChatError::NoFinalMessage => ChatErrorView::NoFinalMessage,
            ChatError::UnexpectedEvent => ChatErrorView::UnexpectedEvent,
            ChatError::InvalidCapabilities => ChatErrorView::InvalidCapabilities,
        }
    }
}

/// One request of the model to run a capability.
#[derive(Debug)]
pub struct ToolCallRequest {
    pub id: String,
    pub name: String,
    pub arguments: String,
}

/// The value of a [`ToolCallRequest`].
pub struct ToolRequestView {
    pub id: Seq<char>,
    pub name: Seq<char>,
    pub arguments: Seq<char>,
}

impl View for ToolCallRequest {
    type V = ToolRequestView;

    open spec fn view(&self) -> ToolRequestView {
        ToolRequestView { id: self.id@, name: self.name@, arguments: self.arguments@ }
    }
}

/// The request that a tool call of a response stands for. The id is
/// looked for first, then the arguments, then the name; the first of them
/// that is no text decides the error.
pub open spec fn tool_request_of(call: JsonValue) -> Result<ToolRequestView, ChatErrorView> {
    let function = call.at("function"@);
    match call.at("id"@).text() {
        None => Err(ChatErrorView::MissingToolCallId),
        Some(id) => match function.at("arguments"@).text() {
            None => Err(ChatErrorView::MissingToolCallArguments),
            Some(arguments) => match function.at("name"@).text() {
                None => Err(ChatErrorView::MissingToolCallName),
                Some(name) => Ok(ToolRequestView { id, name, arguments }),
            },
        },
    }
}

/// The position at or after `from` of the first capability named `name`.
pub open spec fn resolve_from(names: Seq<Seq<char>>, name: Seq<char>, from: int) -> Option<int>
    decreases names.len() - from,
{
    if from < 0 || from >= names.len() {
        None
    } else if names[from] == name {
        Some(from)
    } else {
        resolve_from(names, name, from + 1)
    }
}

/// The position of the capability named `name`: the first one, should the
/// names not be unique.
pub open spec fn resolve(names: Seq<Seq<char>>, name: Seq<char>) -> Option<int> {
    resolve_from(names, name, 0)
}

/// A request together with the capability that it names.
#[derive(Debug)]
pub struct PlannedCall {
    pub request: ToolCallRequest,
    /// The position of the capability among the registered ones.
    pub tool: usize,
}

/// The value of a [`PlannedCall`].
pub struct PlannedCallView {
    pub request: ToolRequestView,
    pub tool: int,
}

impl View for PlannedCall {
    type V = PlannedCallView;

    open spec fn view(&self) -> PlannedCallView {
        PlannedCallView { request: self.request@, tool: self.tool as int }
    }
}

/// The values of a sequence of planned calls.
pub open spec fn planned_of(calls: Seq<PlannedCall>) -> Seq<PlannedCallView> {
    Seq::new(calls.len(), |i: int| calls[i]@)
}

/// What is to be done for one tool call: run the capability that it
/// names, or fail because the call is malformed or names none.
pub open spec fn plan_call(names: Seq<Seq<char>>, call: JsonValue) -> Result<
    PlannedCallView,
    ChatErrorView,
> {
    match tool_request_of(call) {
        Err(e) => Err(e),
        Ok(request) => match resolve(names, request.name) {
            None => Err(ChatErrorView::UnknownTool { name: request.name }),
            Some(tool) => Ok(PlannedCallView { request, tool }),
        },
    }
}

/// `done` followed by the calls of `rest`, or the error of `rest`.
pub open spec fn plan_after(
    done: Seq<PlannedCallView>,
    rest: Result<Seq<PlannedCallView>, ChatErrorView>,
) -> Result<Seq<PlannedCallView>, ChatErrorView> {
    match rest {
        Ok(calls) => Ok(done + calls),
        Err(e) => Err(e),
    }
}

/// What is to be done for a batch of tool calls: all of them in their
/// order, or nothing at all where one of them cannot be planned. The first
/// call that cannot be planned decides the error.
pub open spec fn plan_calls(names: Seq<Seq<char>>, calls: Seq<JsonValue>) -> Result<
    Seq<PlannedCallView>,
    ChatErrorView,
>
    decreases calls.len(),
{
    if calls.len() == 0 {
        Ok(Seq::empty())
    } else {
        match plan_call(names, calls[0]) {
            Err(e) => Err(e),
            Ok(first) => plan_after(seq![first], plan_calls(names, calls.drop_first())),
        }
    }
}

/// The message that records a request: the assistant asks for one call of
/// the kind `function`.
pub open spec fn echo_of(request: ToolRequestView) -> MessageView {
    MessageView::request(
        seq![
            FunctionCallView {
                id: request.id,
                kind: "function"@,
                name: request.name,
                arguments: request.arguments,
            },
        ],
    )
}

/// The two messages of one executed call: the request and the answer to
/// it, which bears the id of the request.
pub open spec fn pair_of(request: ToolRequestView, result: Seq<char>) -> Seq<MessageView> {
    seq![echo_of(request), MessageView::response(result, request.id)]
}

/// The messages of a batch of executed calls: the pair of the first call,
/// then the pair of the second, and so on, as far as there are both a call
/// and a result.
pub open spec fn batch_messages(
    calls: Seq<PlannedCallView>,
    results: Seq<Seq<char>>,
) -> Seq<MessageView>
    decreases calls.len(),
{
    if calls.len() == 0 || results.len() == 0 {
        Seq::empty()
    } else {
        pair_of(calls[0].request, results[0]) + batch_messages(
            calls.drop_first(),
            results.drop_first(),
        )
    }
}

impl ToolCallRequest {
    /// Reads a tool call of a response.
    pub fn from_json(call: &Json) -> (r: Result<ToolCallRequest, ChatError>)
        ensures
            match r {
                Ok(request) => tool_request_of(call@) == Ok::<ToolRequestView, ChatErrorView>(
                    request@,
                ),
                Err(e) => tool_request_of(call@) == Err::<ToolRequestView, ChatErrorView>(e@),
            },
    {
        let id = match call.get("id") {
            Some(v) => v.as_str(),
            None => None,
        };
        let function = call.get("function");
        let arguments = match function {
            Some(f) => match f.get("arguments") {
                Some(v) => v.as_str(),
                None => None,
            },
            None => None,
        };
        let name = match function {
            Some(f) => match f.get("name") {
                Some(v) => v.as_str(),
                None => None,
            },
            None => None,
        };
        match id {
            None => Err(ChatError::MissingToolCallId),
            Some(id) => match arguments {
                None => Err(ChatError::MissingToolCallArguments),
                Some(arguments) => match name {
                    None => Err(ChatError::MissingToolCallName),
                    Some(name) => Ok(
                        ToolCallRequest {
                            id: id.clone(),
                            name: name.clone(),
                            arguments: arguments.clone(),
                        },
                    ),
                },
            },
        }
    }
}

/// The position of the first capability named `name`.
pub fn find_tool(names: &Vec<String>, name: &str) -> (r: Option<usize>)
    ensures
        r is Some <==> resolve(texts_of(names@), name@) is Some,
        r matches Some(i) ==> resolve(texts_of(names@), name@) == Some(i as int) && i
            < names@.len(),
{
    let ghost all = texts_of(names@);
    let mut i: usize = 0;
    while i < names.len()
        invariant
            i <= names@.len(),
            all == texts_of(names@),
            resolve(all, name@) == resolve_from(all, name@, i as int),
        decreases names@.len() - i,
    {
        if str_eq(names[i].as_str(), name) {
            return Some(i);
        }
        i += 1;
    }
    None
}

/// Plans one tool call.
pub fn plan_tool_call(names: &Vec<String>, call: &Json) -> (r: Result<PlannedCall, ChatError>)
    ensures
        match r {
            Ok(planned) => plan_call(texts_of(names@), call@) == Ok::<
                PlannedCallView,
                ChatErrorView,
            >(planned@) && planned.tool < names@.len(),
            Err(e) => plan_call(texts_of(names@), call@) == Err::<PlannedCallView, ChatErrorView>(
                e@,
            ),
        },
{
    match ToolCallRequest::from_json(call) {
        Err(e) => Err(e),
        Ok(request) => match find_tool(names, request.name.as_str()) {
            None => Err(ChatError::UnknownTool { name: request.name }),
            Some(tool) => Ok(PlannedCall { request, tool }),
        },
    }
}

/// Plans a batch of tool calls: all of them or none.
pub fn plan_tool_calls(names: &Vec<String>, calls: &Vec<Json>) -> (r: Result<
    Vec<PlannedCall>,
    ChatError,
>)
    ensures
        match r {
            Ok(planned) => plan_calls(texts_of(names@), values_of(calls@)) == Ok::<
                Seq<PlannedCallView>,
                ChatErrorView,
            >(planned_of(planned@)) && planned@.len() == calls@.len() && forall|k: int|
                0 <= k < planned@.len() ==> (#[trigger] planned@[k]).tool < names@.len(),
            Err(e) => plan_calls(texts_of(names@), values_of(calls@)) == Err::<
                Seq<PlannedCallView>,
                ChatErrorView,
            >(e@),
        },
{
    let ghost all = values_of(calls@);
    let ghost registered = texts_of(names@);
    let mut out: Vec<PlannedCall> = Vec::new();
    let mut i: usize = 0;
    assert(all.skip(0) == all);
    assert(planned_of(out@) =~= Seq::empty());
    assert(plan_after(Seq::empty(), plan_calls(registered, all)) == plan_calls(registered, all))
        by {
        if plan_calls(registered, all) is Ok {
            assert(Seq::<PlannedCallView>::empty() + plan_calls(registered, all)->Ok_0
                =~= plan_calls(registered, all)->Ok_0);
        }
    }
    while i < calls.len()
        invariant
            i <= calls@.len(),
            all == values_of(calls@),
            registered == texts_of(names@),
            out@.len() == i,
            forall|k: int| 0 <= k < out@.len() ==> (#[trigger] out@[k]).tool < names@.len(),
            plan_calls(registered, all) == plan_after(
                planned_of(out@),
                plan_calls(registered, all.skip(i as int)),
            ),
        decreases calls@.len() - i,
    {
        let ghost rest = all.skip(i as int);
        let ghost done = planned_of(out@);
        assert(rest[0] == calls@[i as int]@);
        assert(rest.drop_first() == all.skip(i + 1));
        match plan_tool_call(names, &calls[i]) {
            Err(e) => {
                return Err(e);
            },
            Ok(planned) => {
                proof {
                    let tail = plan_calls(registered, all.skip(i + 1));
                    if tail is Ok {
                        assert(done + (seq![planned@] + tail->Ok_0) =~= done.push(planned@)
                            + tail->Ok_0);
                    }
                }
                out.push(planned);
                assert(planned_of(out@) =~= done.push(planned@));
            },
        }
        i += 1;
    }
    assert(planned_of(out@) + Seq::<PlannedCallView>::empty() =~= planned_of(out@));
    Ok(out)
}

/// The two messages of one executed call.
pub fn tool_call_messages(request: &ToolCallRequest, result: &str) -> (r: (Message, Message))
    ensures
        r.0@ == echo_of(request@),
        r.1@ == MessageView::response(result@, request@.id),
{
    let mut calls: Vec<FunctionCall> = Vec::new();
    calls.push(
        FunctionCall {
            function: FunctionCallFn {
                arguments: request.arguments.clone(),
                name: request.name.clone(),
            },
            id: request.id.clone(),
            kind: "function".to_owned(),
        },
    );
    assert(calls_of(calls@) =~= seq![
        FunctionCallView {
            id: request@.id,
            kind: "function"@,
            name: request@.name,
            arguments: request@.arguments,
        },
    ]);
    (
        Message::new_tool_call_request(calls),
        Message::new_tool_call_response(result, request.id.as_str()),
    )
}

/// The messages of a batch of executed calls, where `results` holds the
/// result of each call at the position of the call. Calls without a result
/// and results without a call leave no message.
pub fn tool_batch_messages(calls: &Vec<PlannedCall>, results: &Vec<String>) -> (r: Vec<Message>)
    ensures
        messages_of(r@) == batch_messages(planned_of(calls@), texts_of(results@)),
{
    let ghost planned = planned_of(calls@);
    let ghost texts = texts_of(results@);
    let mut out: Vec<Message> = Vec::new();
    let mut i: usize = 0;
    assert(planned.skip(0) == planned && texts.skip(0) == texts);
    assert(messages_of(out@) =~= Seq::empty());
    assert(Seq::<MessageView>::empty() + batch_messages(planned, texts) =~= batch_messages(
        planned,
        texts,
    ));
    while i < calls.len() && i < results.len()
        invariant
            i <= calls@.len(),
            i <= results@.len(),
            planned == planned_of(calls@),
            texts == texts_of(results@),
            batch_messages(planned, texts) == messages_of(out@) + batch_messages(
                planned.skip(i as int),
                texts.skip(i as int),
            ),
        decreases calls@.len() - i,
    {
        let ghost done = messages_of(out@);
        let ghost rest_calls = planned.skip(i as int);
        let ghost rest_texts = texts.skip(i as int);
        assert(rest_calls[0] == calls@[i as int]@);
        assert(rest_texts[0] == results@[i as int]@);
        assert(rest_calls.drop_first() == planned.skip(i + 1));
        assert(rest_texts.drop_first() == texts.skip(i + 1));
        let (echo, answer) = tool_call_messages(&calls[i].request, results[i].as_str());
        let ghost pair = pair_of(calls@[i as int]@.request, results@[i as int]@);
        out.push(echo);
        out.push(answer);
        assert(messages_of(out@) =~= done + pair);
        assert((done + pair) + batch_messages(planned.skip(i + 1), texts.skip(i + 1)) =~= done + (
            pair + batch_messages(planned.skip(i + 1), texts.skip(i + 1))));
        i += 1;
    }
    assert(messages_of(out@) + Seq::<MessageView>::empty() =~= messages_of(out@));
    out
}

/// A batch of executed calls leaves two messages for each call, in the
/// order of the calls: at `2k` the request of call `k`, at `2k + 1` the
/// answer to it with the result that was handed in for position `k`.
pub proof fn lemma_batch_messages(
    calls: Seq<PlannedCallView>,
    results: Seq<Seq<char>>,
)
    requires
        results.len() == calls.len(),
    ensures
        batch_messages(calls, results).len() == 2 * calls.len(),
        forall|k: int|
            0 <= k < calls.len() ==> #[trigger] batch_messages(calls, results)[2 * k] == echo_of(
                calls[k].request,
            ) && batch_messages(calls, results)[2 * k + 1] == MessageView::response(
                results[k],
                calls[k].request.id,
            ),
    decreases calls.len(),
{
    if calls.len() > 0 {
        let rest_calls = calls.drop_first();
        let rest_results = results.drop_first();
        lemma_batch_messages(rest_calls, rest_results);
        let all = batch_messages(calls, results);
        let tail = batch_messages(rest_calls, rest_results);
        assert forall|k: int| 0 <= k < calls.len() implies #[trigger] all[2 * k] == echo_of(
            calls[k].request,
        ) && all[2 * k + 1] == MessageView::response(results[k], calls[k].request.id) by {
            if k > 0 {
                assert(all[2 * k] == tail[2 * (k - 1)]);
                assert(all[2 * k + 1] == tail[2 * (k - 1) + 1]);
                assert(rest_calls[k - 1] == calls[k]);
                assert(rest_results[k - 1] == results[k]);
            }
        }
    }
}

/// A batch in which every call is well-formed and names a registered
/// capability is planned in full, call for call in its order.
pub proof fn lemma_plan_calls_registered(names: Seq<Seq<char>>, calls: Seq<JsonValue>)
    requires
        forall|k: int| 0 <= k < calls.len() ==> (#[trigger] plan_call(names, calls[k])) is Ok,
    ensures
        plan_calls(names, calls) is Ok,
        plan_calls(names, calls)->Ok_0.len() == calls.len(),
        forall|k: int|
            0 <= k < calls.len() ==> Ok::<PlannedCallView, ChatErrorView>(
                #[trigger] plan_calls(names, calls)->Ok_0[k],
            ) == plan_call(names, calls[k]),
    decreases calls.len(),
{
    if calls.len() > 0 {
        let rest = calls.drop_first();
        assert forall|k: int| 0 <= k < rest.len() implies (#[trigger] plan_call(
            names,
            rest[k],
        )) is Ok by {
            assert(rest[k] == calls[k + 1]);
        }
        lemma_plan_calls_registered(names, rest);
        let all = plan_calls(names, calls)->Ok_0;
        let tail = plan_calls(names, rest)->Ok_0;
        assert forall|k: int| 0 <= k < calls.len() implies Ok::<PlannedCallView, ChatErrorView>(
            #[trigger] all[k],
        ) == plan_call(names, calls[k]) by {
            if k > 0 {
                assert(all[k] == tail[k - 1]);
                assert(rest[k - 1] == calls[k]);
            }
        }
    }
}

/// A batch with a call that is malformed or names no registered
/// capability is not planned at all: it fails and leaves no message.
pub proof fn lemma_plan_calls_fails(names: Seq<Seq<char>>, calls: Seq<JsonValue>, k: int)
    requires
        0 <= k < calls.len(),
        plan_call(names, calls[k]) is Err,
    ensures
        plan_calls(names, calls) is Err,
    decreases calls.len(),
{
    if k > 0 {
        let rest = calls.drop_first();
        assert(rest[k - 1] == calls[k]);
        lemma_plan_calls_fails(names, rest, k - 1);
    }
}

/// A call that names a capability which is not registered fails with
/// `UnknownTool` and the name.
pub proof fn lemma_unknown_tool(names: Seq<Seq<char>>, call: JsonValue)
    requires
        tool_request_of(call) is Ok,
        forall|i: int| 0 <= i < names.len() ==> names[i] != tool_request_of(call)->Ok_0.name,
    ensures
        plan_call(names, call) == Err::<PlannedCallView, ChatErrorView>(
            ChatErrorView::UnknownTool { name: tool_request_of(call)->Ok_0.name },
        ),
{
    lemma_resolve_none(names, tool_request_of(call)->Ok_0.name, 0);
}

/// No capability is found for a name that none of them has.
pub proof fn lemma_resolve_none(names: Seq<Seq<char>>, name: Seq<char>, from: int)
    requires
        0 <= from,
        forall|i: int| from <= i < names.len() ==> names[i] != name,
    ensures
        resolve_from(names, name, from) is None,
    decreases names.len() - from,
{
    if from < names.len() {
        lemma_resolve_none(names, name, from + 1);
    }
}

/// A batch that was planned holds one planned call for each call, which
/// is what the call alone plans.
pub proof fn lemma_plan_calls_ok(names: Seq<Seq<char>>, calls: Seq<JsonValue>)
    requires
        plan_calls(names, calls) is Ok,
    ensures
        plan_calls(names, calls)->Ok_0.len() == calls.len(),
        forall|k: int|
            0 <= k < calls.len() ==> plan_call(names, #[trigger] calls[k]) == Ok::<
                PlannedCallView,
                ChatErrorView,
            >(plan_calls(names, calls)->Ok_0[k]),
    decreases calls.len(),
{
    if calls.len() > 0 {
        let rest = calls.drop_first();
        lemma_plan_calls_ok(names, rest);
        let all = plan_calls(names, calls)->Ok_0;
        let tail = plan_calls(names, rest)->Ok_0;
        assert forall|k: int| 0 <= k < calls.len() implies plan_call(names, #[trigger] calls[k])
            == Ok::<PlannedCallView, ChatErrorView>(all[k]) by {
            if k > 0 {
                assert(all[k] == tail[k - 1]);
                assert(rest[k - 1] == calls[k]);
            }
        }
    }
}

/// A capability behind a pointer, as a session holds it.
pub type BoxedToolCall = Box<dyn ToolCall>;

/// Asks each capability for its name.
pub fn tool_names(tools: &Vec<BoxedToolCall>) -> (r: Vec<String>)
    ensures
        r@.len() == tools@.len(),
{
    let mut out: Vec<String> = Vec::new();
    let mut i: usize = 0;
    while i < tools.len()
        invariant
            i <= tools@.len(),
            out@.len() == i,
        decreases tools@.len() - i,
    {
        out.push(tools[i].function_name());
        i += 1;
    }
    out
}

/// Asks each capability for its definition.
pub fn tool_definitions(tools: &Vec<BoxedToolCall>) -> (r: Vec<Json>)
    ensures
        r@.len() == tools@.len(),
{
    let mut out: Vec<Json> = Vec::new();
    let mut i: usize = 0;
    while i < tools.len()
        invariant
            i <= tools@.len(),
            out@.len() == i,
        decreases tools@.len() - i,
    {
        out.push(tools[i].definition());
        i += 1;
    }
    out
}

/// Runs one tool call and gives the two messages that record it.
///
/// What the capabilities are named and what they answer is theirs to
/// decide. Whatever they say, the call is planned under their names: where
/// it cannot be planned, because it is malformed or names none of them, it
/// fails with the error of the plan and no capability is run; where it is
/// planned, it either fails because the capability failed or leaves the
/// request and the answer that bears the request's id. Without
/// capabilities every call fails.
pub fn handle_tool_call(tools: &Vec<BoxedToolCall>, tool_call: &Json) -> (r: Result<
    Vec<Message>,
    ChatError,
>)
    ensures
        exists|names: Seq<Seq<char>>|
            names.len() == tools@.len() && match #[trigger] plan_call(names, tool_call@) {
                Err(e) => r is Err && r->Err_0@ == e,
                Ok(planned) => match r {
                    Ok(messages) => messages@.len() == 2 && messages@[0]@ == echo_of(
                        planned.request,
                    ) && exists|text: Seq<char>|
                        messages@[1]@ == MessageView::response(text, planned.request.id),
                    Err(e) => e@ is ToolFailed,
                },
            },
        tool_request_of(tool_call@) is Err ==> r is Err && r->Err_0@ == tool_request_of(
            tool_call@,
        )->Err_0,
        tools@.len() == 0 ==> r is Err && plan_call(Seq::empty(), tool_call@) == Err::<
            PlannedCallView,
            ChatErrorView,
        >(r->Err_0@),
        r matches Err(e) ==> e@ is ToolFailed || exists|names: Seq<Seq<char>>|
            names.len() == tools@.len() && #[trigger] plan_call(names, tool_call@) == Err::<
                PlannedCallView,
                ChatErrorView,
            >(e@),
        r matches Ok(messages) ==> tool_request_of(tool_call@) is Ok && messages@.len() == 2
            && messages@[0]@ == echo_of(tool_request_of(tool_call@)->Ok_0) && exists|
            text: Seq<char>,
        |
            messages@[1]@ == MessageView::response(text, tool_request_of(tool_call@)->Ok_0.id),
{
    let names = tool_names(tools);
    let ghost registered = texts_of(names@);
    proof {
        if tools@.len() == 0 {
            assert(registered =~= Seq::empty());
        }
    }
    let planned = match plan_tool_call(&names, tool_call) {
        Err(e) => {
            assert(plan_call(registered, tool_call@) == Err::<PlannedCallView, ChatErrorView>(e@));
            return Err(e);
        },
        Ok(planned) => planned,
    };
    assert(plan_call(registered, tool_call@) == Ok::<PlannedCallView, ChatErrorView>(planned@));
    match tools[planned.tool].call(planned.request.arguments.as_str()) {
        Err(detail) => Err(ChatError::ToolFailed { detail }),
        Ok(text) => {
            let (echo, answer) = tool_call_messages(&planned.request, text.as_str());
            let mut messages: Vec<Message> = Vec::new();
            messages.push(echo);
            messages.push(answer);
            assert(messages@[1]@ == MessageView::response(text@, planned.request@.id));
            Ok(messages)
        },
    }
}

/// Runs a batch of tool calls, one after the other in the order of the
/// batch, and gives the messages that record them.
///
/// What the capabilities are named and what they answer is theirs to
/// decide. Whatever they say, an empty batch succeeds and leaves no
/// message; a batch with a malformed call fails before any capability is
/// run; without capabilities every other batch fails with the error of its
/// first call; a batch that cannot be planned under the names of the
/// capabilities fails with the error of the plan, and no capability is
/// run; a batch that is planned fails only because a capability failed;
/// and a batch that succeeds leaves two messages for each call in the
/// order of the calls: the request, and the answer that bears the
/// request's id.
pub fn handle_tool_calls(tools: &Vec<BoxedToolCall>, tool_calls: &Vec<Json>) -> (r: Result<
    Vec<Message>,
    ChatError,
>)
    ensures
        tool_calls@.len() == 0 ==> r is Ok,
        tools@.len() == 0 && tool_calls@.len() > 0 ==> r is Err && plan_calls(
            Seq::empty(),
            values_of(tool_calls@),
        ) == Err::<Seq<PlannedCallView>, ChatErrorView>(r->Err_0@),
        exists|names: Seq<Seq<char>>|
            names.len() == tools@.len() && match #[trigger] plan_calls(
                names,
                values_of(tool_calls@),
            ) {
                Err(e) => r is Err && r->Err_0@ == e,
                Ok(_) => (r matches Err(e) ==> e@ is ToolFailed),
            },
        r matches Err(e) ==> e@ is ToolFailed || exists|names: Seq<Seq<char>>|
            names.len() == tools@.len() && #[trigger] plan_calls(names, values_of(tool_calls@))
                == Err::<Seq<PlannedCallView>, ChatErrorView>(e@),
        (exists|k: int|
            0 <= k < tool_calls@.len() && tool_request_of(#[trigger] values_of(tool_calls@)[k])
                is Err) ==> r is Err,
        r matches Ok(messages) ==> messages@.len() == 2 * tool_calls@.len() && forall|k: int|
            0 <= k < tool_calls@.len() ==> tool_request_of(#[trigger] values_of(tool_calls@)[k])
                is Ok && messages@[2 * k]@ == echo_of(
                tool_request_of(values_of(tool_calls@)[k])->Ok_0,
            ) && exists|text: Seq<char>|
                messages@[2 * k + 1]@ == MessageView::response(
                    text,
                    tool_request_of(values_of(tool_calls@)[k])->Ok_0.id,
                ),
{
    let ghost values = values_of(tool_calls@);
    let names = tool_names(tools);
    let ghost registered = texts_of(names@);
    let planned = match plan_tool_calls(&names, tool_calls) {
        Err(e) => {
            proof {
                if exists|k: int| 0 <= k < values.len() && tool_request_of(#[trigger] values[k])
                    is Err {
                    let k = choose|k: int|
                        0 <= k < values.len() && tool_request_of(#[trigger] values[k]) is Err;
                    lemma_plan_calls_fails(registered, values, k);
                }
                if tools@.len() == 0 {
                    assert(registered =~= Seq::empty());
                }
                assert(registered.len() == tools@.len());
                assert(plan_calls(registered, values) == Err::<
                    Seq<PlannedCallView>,
                    ChatErrorView,
                >(e@));
            }
            return Err(e);
        },
        Ok(planned) => planned,
    };
    proof {
        lemma_plan_calls_ok(registered, values);
    }
    let mut results: Vec<String> = Vec::new();
    let mut i: usize = 0;
    while i < planned.len()
        invariant
            i <= planned@.len(),
            results@.len() == i,
            names@.len() == tools@.len(),
            planned@.len() == tool_calls@.len(),
            registered.len() == tools@.len(),
            values == values_of(tool_calls@),
            plan_calls(registered, values) is Ok,
            forall|k: int| 0 <= k < planned@.len() ==> (#[trigger] planned@[k]).tool < names@.len(),
        decreases planned@.len() - i,
    {
        match tools[planned[i].tool].call(planned[i].request.arguments.as_str()) {
            Ok(text) => results.push(text),
            Err(detail) => {
                return Err(ChatError::ToolFailed { detail });
            },
        }
        i += 1;
    }
    let messages = tool_batch_messages(&planned, &results);
    proof {
        lemma_batch_messages(planned_of(planned@), texts_of(results@));
        assert forall|k: int| 0 <= k < tool_calls@.len() implies tool_request_of(
            #[trigger] values[k],
        ) is Ok && messages@[2 * k]@ == echo_of(tool_request_of(values[k])->Ok_0) && exists|
            text: Seq<char>,
        |
            messages@[2 * k + 1]@ == MessageView::response(
                text,
                tool_request_of(values[k])->Ok_0.id,
            ) by {
            assert(plan_call(registered, values[k]) is Ok);
            let all = batch_messages(planned_of(planned@), texts_of(results@));
            assert(all[2 * k] == echo_of(planned_of(planned@)[k].request));
            assert(messages_of(messages@)[2 * k] == messages@[2 * k]@);
            assert(messages_of(messages@)[2 * k + 1] == messages@[2 * k + 1]@);
            assert(messages@[2 * k + 1]@ == MessageView::response(
                results@[k]@,
                tool_request_of(values[k])->Ok_0.id,
            ));
        }
    }
    Ok(messages)
}

/// No two capabilities have the same name.
pub open spec fn unique(names: Seq<Seq<char>>) -> bool {
    forall|i: int, j: int| 0 <= i < j < names.len() ==> names[i] != names[j]
}

/// The capabilities of a session fit: no two of them have the same name,
/// and there is one definition for each.
pub open spec fn capabilities_fit(names: Seq<Seq<char>>, definitions: Seq<JsonValue>) -> bool {
    unique(names) && names.len() == definitions.len()
}

/// A capability that is found has the name that was looked for, and no
/// capability before it has.
pub proof fn lemma_resolve_finds_first(names: Seq<Seq<char>>, name: Seq<char>, from: int)
    requires
        0 <= from,
    ensures
        resolve_from(names, name, from) matches Some(i) ==> from <= i < names.len() && names[i]
            == name && forall|k: int| from <= k < i ==> names[k] != name,
    decreases names.len() - from,
{
    if from < names.len() && names[from] != name {
        lemma_resolve_finds_first(names, name, from + 1);
    }
}

/// Among capabilities with unique names, a name stands for exactly one
/// capability: the one that has it is the one that is found.
pub proof fn lemma_resolve_unique(names: Seq<Seq<char>>, i: int)
    requires
        unique(names),
        0 <= i < names.len(),
    ensures
        resolve(names, names[i]) == Some(i),
{
    lemma_resolve_finds_first(names, names[i], 0);
    if resolve(names, names[i]) is None {
        lemma_resolve_some(names, names[i], 0, i);
    }
}

/// A capability with the name that is looked for is found, or one before
/// it.
pub proof fn lemma_resolve_some(names: Seq<Seq<char>>, name: Seq<char>, from: int, i: int)
    requires
        0 <= from <= i < names.len(),
        names[i] == name,
    ensures
        resolve_from(names, name, from) is Some,
    decreases names.len() - from,
{
    if names[from] != name {
        lemma_resolve_some(names, name, from + 1, i);
    }
}

/// Tells whether no two of the names are the same.
pub fn names_are_unique(names: &Vec<String>) -> (r: bool)
    ensures
        r == unique(texts_of(names@)),
{
    let ghost all = texts_of(names@);
    let mut j: usize = 0;
    while j < names.len()
        invariant
            j <= names@.len(),
            all == texts_of(names@),
            forall|a: int, b: int| 0 <= a < b < j ==> all[a] != all[b],
        decreases names@.len() - j,
    {
        let mut i: usize = 0;
        while i < j
            invariant
                i <= j < names@.len(),
                all == texts_of(names@),
                forall|a: int| 0 <= a < i ==> all[a] != all[j as int],
            decreases j - i,
        {
            if str_eq(names[i].as_str(), names[j].as_str()) {
                assert(all[i as int] == all[j as int]);
                return false;
            }
            i += 1;
        }
        j += 1;
    }
    true
}

} // verus!
