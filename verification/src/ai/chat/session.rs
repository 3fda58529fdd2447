//! A chat session and the turns that extend its transcript.
//!
//! A turn begins with a message of the user and ends with the final text
//! of the assistant. In between the model may ask for tool calls any
//! number of times. The session decides what is to be done next; whoever
//! drives it does the exchange with the service, runs the capabilities and
//! stores the messages, and reports back what came of it.

use crate::ai::chat::models::{clone_messages, Transcript};
use crate::json::{json_text_value, values_of, Json, JsonValue};
use crate::openai::accumulator::assembled;
use crate::openai::stream::{DecoderView, StreamDecoder, StreamStatus};
use crate::openai::chat::{
    batch_messages, capabilities_fit, names_are_unique, plan_calls, plan_tool_calls, planned_of,
    tool_batch_messages, tool_definitions, tool_names, unique, BoxedToolCall, ChatError,
    ChatErrorView, PlannedCall, PlannedCallView, ToolCallRequest,
};
use crate::openai::message::{messages_of, Message, MessageView, Role};
use crate::openai::response::{completion_of, read_completion, Completion, CompletionView};
use crate::text::{lowercase, lowercased, texts_of, trim, trim_str};
use vstd::prelude::*;

verus! {

/// Where a session stands in a turn.
#[derive(Clone, Copy, Debug, PartialEq, Eq, Structural)]
pub enum TurnState {
    /// No turn is under way.
    AwaitingUserInput,
    /// The model was asked for a completion.
    ModelRequested,
    /// The capabilities that the model asked for are being run.
    ToolsExecuting,
    /// The messages of the turn are being stored.
    Persisting,
}

/// Where the messages of a session are stored: under a session id, with
/// the tags of the session.
#[derive(Debug)]
pub struct Persistence {
    pub session_id: String,
    pub tags: Vec<String>,
}

/// The value of a [`Persistence`].
pub struct PersistenceView {
    pub session_id: Seq<char>,
    pub tags: Seq<Seq<char>>,
}

impl View for Persistence {
    type V = PersistenceView;

    open spec fn view(&self) -> PersistenceView {
        PersistenceView { session_id: self.session_id@, tags: texts_of(self.tags@) }
    }
}

/// The value of an optional [`Persistence`].
pub open spec fn persistence_of(p: Option<Persistence>) -> Option<PersistenceView> {
    match p {
        Some(p) => Some(p@),
        None => None,
    }
}

/// The texts of an optional list of strings.
pub open spec fn optional_names(names: Option<Vec<String>>) -> Option<Seq<Seq<char>>> {
    match names {
        Some(names) => Some(texts_of(names@)),
        None => None,
    }
}

/// The value of an optional message.
pub open spec fn optional_message(m: Option<Message>) -> Option<MessageView> {
    match m {
        Some(m) => Some(m@),
        None => None,
    }
}

/// What is to be done next in a turn.
#[derive(Debug)]
pub enum Action {
    /// Ask the model to complete these messages, streamed or buffered.
    Complete { messages: Vec<Message>, stream: bool },
    /// Run these capabilities and report the result of each, in this order.
    Invoke { calls: Vec<PlannedCall> },
    /// Make sure the session exists with these tags, then store these
    /// messages in this order.
    Persist { session_id: String, tags: Vec<String>, messages: Vec<Message> },
    /// The turn is complete; these are the messages that it generated.
    Finish { messages: Vec<Message> },
}

/// The value of an [`Action`].
pub enum ActionView {
    Complete { messages: Seq<MessageView>, stream: bool },
    Invoke { calls: Seq<PlannedCallView> },
    Persist { session_id: Seq<char>, tags: Seq<Seq<char>>, messages: Seq<MessageView> },
    Finish { messages: Seq<MessageView> },
}

impl View for Action {
    type V = ActionView;

    open spec fn view(&self) -> ActionView {
        match self {
            Action::Complete { messages, stream } => ActionView::Complete {
                messages: messages_of(messages@),
                stream: *stream,
            },
            Action::Invoke { calls } => ActionView::Invoke { calls: planned_of(calls@) },
            Action::Persist { session_id, tags, messages } => ActionView::Persist {
                session_id: session_id@,
                tags: texts_of(tags@),
                messages: messages_of(messages@),
            },
            Action::Finish { messages } => ActionView::Finish { messages: messages_of(messages@) },
        }
    }
}

/// The value of the outcome of a step.
pub open spec fn outcome_of(r: Result<Action, ChatError>) -> Result<ActionView, ChatErrorView> {
    match r {
        Ok(action) => Ok(action@),
        Err(e) => Err(e@),
    }
}

/// What a capability reported: its result, or why it failed.
pub open spec fn reports_of(results: Seq<Result<String, String>>) -> Seq<
    Result<Seq<char>, Seq<char>>,
> {
    Seq::new(
        results.len(),
        |i: int|
            match results[i] {
                Ok(text) => Ok(text@),
                Err(detail) => Err(detail@),
            },
    )
}

/// The reason of the first capability that failed.
pub open spec fn first_failure(reports: Seq<Result<Seq<char>, Seq<char>>>) -> Option<Seq<char>>
    decreases reports.len(),
{
    if reports.len() == 0 {
        None
    } else {
        match reports[0] {
            Err(detail) => Some(detail),
            Ok(_) => first_failure(reports.drop_first()),
        }
    }
}

/// The results of capabilities that all succeeded.
pub open spec fn results_of(reports: Seq<Result<Seq<char>, Seq<char>>>) -> Seq<Seq<char>> {
    Seq::new(
        reports.len(),
        |i: int|
            match reports[i] {
                Ok(text) => text,
                Err(_) => Seq::empty(),
            },
    )
}

/// The value of a [`Chat`].
pub struct ChatView {
    pub api_hostname: Seq<char>,
    pub api_key: Seq<char>,
    pub model: Seq<char>,
    pub transcript: Seq<MessageView>,
    /// The names of the registered capabilities, where a capability set is
    /// configured.
    pub tool_names: Option<Seq<Seq<char>>>,
    /// The definitions of the registered capabilities.
    pub tool_definitions: Option<Seq<JsonValue>>,
    pub persistence: Option<PersistenceView>,
    pub streaming: bool,
    pub state: TurnState,
    /// The message of the user that began the turn under way.
    pub user: Option<MessageView>,
    /// The messages that the turn under way has generated so far.
    pub generated: Seq<MessageView>,
    /// The calls that are being run.
    pub planned: Seq<PlannedCallView>,
}

impl ChatView {
    /// Between turns nothing of a turn is kept, and in a turn the message
    /// that began it is; calls are planned only while they are run. The
    /// capabilities have names of their own and a definition each.
    pub open spec fn wf(self) -> bool {
        &&& self.state == TurnState::AwaitingUserInput ==> self.user is None
            && self.generated.len() == 0
        &&& self.state != TurnState::AwaitingUserInput ==> self.user is Some
        &&& self.state != TurnState::ToolsExecuting ==> self.planned.len() == 0
        &&& self.state == TurnState::Persisting ==> self.persistence is Some
        &&& self.tool_names is Some <==> self.tool_definitions is Some
        &&& self.tool_names is Some ==> capabilities_fit(
            self.tool_names->0,
            self.tool_definitions->0,
        )
    }

    /// The working history of the turn under way: the transcript, the
    /// message of the user and what the turn has generated so far.
    pub open spec fn history(self) -> Seq<MessageView> {
        match self.user {
            Some(user) => self.transcript.push(user) + self.generated,
            None => self.transcript + self.generated,
        }
    }

    /// The messages that a turn stores: the message of the user, then
    /// every generated message.
    pub open spec fn stored(self) -> Seq<MessageView> {
        match self.user {
            Some(user) => seq![user] + self.generated,
            None => self.generated,
        }
    }

    /// The session with the turn under way dropped: the transcript is as
    /// it was before the turn.
    pub open spec fn dropped(self) -> ChatView {
        ChatView {
            state: TurnState::AwaitingUserInput,
            user: None,
            generated: Seq::empty(),
            planned: Seq::empty(),
            ..self
        }
    }

    /// The session with the turn under way completed: the message of the
    /// user and the generated messages are part of the transcript.
    pub open spec fn committed(self) -> ChatView {
        ChatView { transcript: self.history(), ..self.dropped() }
    }

    /// A message of the user begins a turn: the model is asked to complete
    /// the transcript with the message at its end.
    pub open spec fn next_msg(self, msg: MessageView) -> (
        ChatView,
        Result<ActionView, ChatErrorView>,
    ) {
        if self.state != TurnState::AwaitingUserInput {
            (self, Err(ChatErrorView::UnexpectedEvent))
        } else {
            let next = ChatView { state: TurnState::ModelRequested, user: Some(msg), ..self };
            (
                next,
                Ok(ActionView::Complete { messages: next.history(), stream: self.streaming }),
            )
        }
    }

    /// The turn ends with the final text of the assistant: it is stored,
    /// where the session is persisted, and committed otherwise.
    pub open spec fn conclude(self, text: Seq<char>) -> (
        ChatView,
        Result<ActionView, ChatErrorView>,
    ) {
        let generated = self.generated.push(MessageView::text(Role::Assistant, text));
        let next = ChatView { generated, ..self };
        match self.persistence {
            Some(p) => (
                ChatView { state: TurnState::Persisting, ..next },
                Ok(
                    ActionView::Persist {
                        session_id: p.session_id,
                        tags: p.tags,
                        messages: next.stored(),
                    },
                ),
            ),
            None => (next.committed(), Ok(ActionView::Finish { messages: generated })),
        }
    }

    /// The model has answered. Tool calls are planned and run; content
    /// ends the turn; a response with neither fails it, as do tool calls
    /// without a capability set and tool calls that cannot be planned.
    pub open spec fn on_completion(self, response: JsonValue) -> (
        ChatView,
        Result<ActionView, ChatErrorView>,
    ) {
        if self.state != TurnState::ModelRequested {
            (self, Err(ChatErrorView::UnexpectedEvent))
        } else {
            match completion_of(response) {
                CompletionView::ToolCalls(calls) => match self.tool_names {
                    None => (self.dropped(), Err(ChatErrorView::NoTools)),
                    Some(names) => match plan_calls(names, calls) {
                        Err(e) => (self.dropped(), Err(e)),
                        Ok(planned) => (
                            ChatView { state: TurnState::ToolsExecuting, planned, ..self },
                            Ok(ActionView::Invoke { calls: planned }),
                        ),
                    },
                },
                CompletionView::Content(text) => self.conclude(text),
                CompletionView::Nothing => (self.dropped(), Err(ChatErrorView::NoFinalMessage)),
            }
        }
    }

    /// The capabilities have reported. Where one failed the turn fails;
    /// otherwise the request and the answer of each call join the
    /// generated messages, in the order of the calls, and the model is
    /// asked again.
    pub open spec fn on_tool_results(self, reports: Seq<Result<Seq<char>, Seq<char>>>) -> (
        ChatView,
        Result<ActionView, ChatErrorView>,
    ) {
        if self.state != TurnState::ToolsExecuting {
            (self, Err(ChatErrorView::UnexpectedEvent))
        } else if reports.len() != self.planned.len() {
            (self.dropped(), Err(ChatErrorView::UnexpectedEvent))
        } else {
            match first_failure(reports) {
                Some(detail) => (self.dropped(), Err(ChatErrorView::ToolFailed { detail })),
                None => {
                    let next = ChatView {
                        state: TurnState::ModelRequested,
                        generated: self.generated + batch_messages(
                            self.planned,
                            results_of(reports),
                        ),
                        planned: Seq::empty(),
                        ..self
                    };
                    (
                        next,
                        Ok(
                            ActionView::Complete {
                                messages: next.history(),
                                stream: self.streaming,
                            },
                        ),
                    )
                },
            }
        }
    }

    /// The turn fails for a reason that lies outside the session. Nothing
    /// of the turn is kept.
    pub open spec fn fail(self, error: ChatErrorView) -> (
        ChatView,
        Result<ActionView, ChatErrorView>,
    ) {
        if self.state == TurnState::AwaitingUserInput {
            (self, Err(ChatErrorView::UnexpectedEvent))
        } else {
            (self.dropped(), Err(error))
        }
    }

    /// The model has answered with a text, which is the response where it
    /// is a JSON document and fails the turn where it is none.
    pub open spec fn on_completion_text(self, text: Seq<char>) -> (
        ChatView,
        Result<ActionView, ChatErrorView>,
    ) {
        if self.state != TurnState::ModelRequested {
            (self, Err(ChatErrorView::UnexpectedEvent))
        } else {
            match json_text_value(text) {
                Some(response) => self.on_completion(response),
                None => (self.dropped(), Err(ChatErrorView::MalformedResponse)),
            }
        }
    }

    /// The streamed response has come to its end. A stream that failed
    /// fails the turn; any other gives the response that it added up to.
    pub open spec fn on_stream(self, decoder: DecoderView) -> (
        ChatView,
        Result<ActionView, ChatErrorView>,
    ) {
        if self.state != TurnState::ModelRequested {
            (self, Err(ChatErrorView::UnexpectedEvent))
        } else {
            match decoder.status {
                StreamStatus::Failed(error) => (
                    self.dropped(),
                    Err(ChatErrorView::Stream { error }),
                ),
                _ => self.on_completion(assembled(decoder.acc)),
            }
        }
    }

    /// The messages were stored: the turn is committed.
    pub open spec fn on_persisted(self) -> (ChatView, Result<ActionView, ChatErrorView>) {
        if self.state != TurnState::Persisting {
            (self, Err(ChatErrorView::UnexpectedEvent))
        } else {
            (self.committed(), Ok(ActionView::Finish { messages: self.generated }))
        }
    }
}

/// A chat session.
#[derive(Debug)]
pub struct Chat {
    api_hostname: String,
    api_key: String,
    model: String,
    streaming: bool,
    tool_names: Option<Vec<String>>,
    tool_definitions: Option<Vec<Json>>,
    persistence: Option<Persistence>,
    transcript: Transcript,
    state: TurnState,
    user: Option<Message>,
    generated: Vec<Message>,
    planned: Vec<PlannedCall>,
}

/// The values of an optional list of documents.
pub open spec fn optional_documents(documents: Option<Vec<Json>>) -> Option<Seq<JsonValue>> {
    match documents {
        Some(documents) => Some(values_of(documents@)),
        None => None,
    }
}

impl View for Chat {
    type V = ChatView;

    closed spec fn view(&self) -> ChatView {
        ChatView {
            api_hostname: self.api_hostname@,
            api_key: self.api_key@,
            model: self.model@,
            transcript: self.transcript@,
            tool_names: optional_names(self.tool_names),
            tool_definitions: optional_documents(self.tool_definitions),
            persistence: persistence_of(self.persistence),
            streaming: self.streaming,
            state: self.state,
            user: optional_message(self.user),
            generated: messages_of(self.generated@),
            planned: planned_of(self.planned@),
        }
    }
}

/// Copies a list of strings.
pub fn clone_strings(strings: &Vec<String>) -> (r: Vec<String>)
    ensures
        texts_of(r@) == texts_of(strings@),
{
    let mut out: Vec<String> = Vec::new();
    let mut i: usize = 0;
    while i < strings.len()
        invariant
            i <= strings@.len(),
            out@.len() == i,
            forall|k: int| 0 <= k < i ==> out@[k]@ == strings@[k]@,
        decreases strings@.len() - i,
    {
        out.push(strings[i].clone());
        i += 1;
    }
    assert(texts_of(out@) =~= texts_of(strings@));
    out
}

/// Copies a list of planned calls.
pub fn clone_planned(calls: &Vec<PlannedCall>) -> (r: Vec<PlannedCall>)
    ensures
        planned_of(r@) == planned_of(calls@),
{
    let mut out: Vec<PlannedCall> = Vec::new();
    let mut i: usize = 0;
    while i < calls.len()
        invariant
            i <= calls@.len(),
            out@.len() == i,
            forall|k: int| 0 <= k < i ==> out@[k]@ == calls@[k]@,
        decreases calls@.len() - i,
    {
        out.push(
            PlannedCall {
                request: ToolCallRequest {
                    id: calls[i].request.id.clone(),
                    name: calls[i].request.name.clone(),
                    arguments: calls[i].request.arguments.clone(),
                },
                tool: calls[i].tool,
            },
        );
        i += 1;
    }
    assert(planned_of(out@) =~= planned_of(calls@));
    out
}

/// The results of capabilities that all succeeded, or the reason of the
/// first one that failed.
pub fn collect_results(results: &Vec<Result<String, String>>) -> (r: Result<Vec<String>, String>)
    ensures
        match r {
            Ok(texts) => first_failure(reports_of(results@)) is None && texts_of(texts@)
                == results_of(reports_of(results@)),
            Err(detail) => first_failure(reports_of(results@)) == Some(detail@),
        },
{
    let ghost reports = reports_of(results@);
    let mut out: Vec<String> = Vec::new();
    let mut i: usize = 0;
    assert(reports.skip(0) == reports);
    while i < results.len()
        invariant
            i <= results@.len(),
            reports == reports_of(results@),
            out@.len() == i,
            first_failure(reports) == first_failure(reports.skip(i as int)),
            forall|k: int| 0 <= k < i ==> reports[k] == Ok::<Seq<char>, Seq<char>>(out@[k]@),
        decreases results@.len() - i,
    {
        let ghost rest = reports.skip(i as int);
        assert(rest[0] == reports[i as int]);
        assert(rest.drop_first() == reports.skip(i + 1));
        match &results[i] {
            Ok(text) => out.push(text.clone()),
            Err(detail) => {
                return Err(detail.clone());
            },
        }
        i += 1;
    }
    assert(texts_of(out@) =~= results_of(reports));
    Ok(out)
}

impl Chat {
    /// The state of the session is consistent.
    pub open spec fn wf(&self) -> bool {
        self@.wf()
    }

    /// Where the session stands in a turn.
    pub fn state(&self) -> (r: TurnState)
        ensures
            r == self@.state,
    {
        self.state
    }

    /// The names of the registered capabilities.
    pub fn tool_names(&self) -> (r: Option<&Vec<String>>)
        ensures
            r is Some <==> self@.tool_names is Some,
            r matches Some(names) ==> Some(texts_of(names@)) == self@.tool_names,
    {
        self.tool_names.as_ref()
    }

    /// Where the session is stored, if it is.
    pub fn persistence(&self) -> (r: Option<&Persistence>)
        ensures
            r is Some <==> self@.persistence is Some,
            r matches Some(p) ==> Some(p@) == self@.persistence,
    {
        self.persistence.as_ref()
    }

    /// The id under which the session is stored, where it is persisted.
    pub fn session_id(&self) -> (r: Option<&String>)
        ensures
            r is Some <==> self@.persistence is Some,
            r matches Some(id) ==> id@ == self@.persistence->0.session_id,
    {
        match &self.persistence {
            Some(p) => Some(&p.session_id),
            None => None,
        }
    }

    /// The transcript of the session.
    pub fn transcript(&self) -> (r: &Transcript)
        ensures
            r@ == self@.transcript,
    {
        &self.transcript
    }

    /// The host of the completion service.
    pub fn api_hostname(&self) -> (r: &String)
        ensures
            r@ == self@.api_hostname,
    {
        &self.api_hostname
    }

    /// The key that authorises requests.
    pub fn api_key(&self) -> (r: &String)
        ensures
            r@ == self@.api_key,
    {
        &self.api_key
    }

    /// The model that is asked.
    pub fn model(&self) -> (r: &String)
        ensures
            r@ == self@.model,
    {
        &self.model
    }

    /// Tells whether responses are streamed.
    pub fn is_streaming(&self) -> (r: bool)
        ensures
            r == self@.streaming,
    {
        self.streaming
    }

    /// The definitions of the registered capabilities, as they are sent to
    /// the model.
    pub fn tool_definitions(&self) -> (r: Option<&Vec<Json>>)
        ensures
            r is Some <==> self@.tool_definitions is Some,
            r matches Some(d) ==> Some(values_of(d@)) == self@.tool_definitions,
    {
        self.tool_definitions.as_ref()
    }

    /// The working history: the transcript, the message of the user and
    /// what the turn has generated so far.
    fn working_history(&self) -> (r: Vec<Message>)
        ensures
            messages_of(r@) == self@.history(),
    {
        let mut out = self.transcript.messages();
        let ghost base = messages_of(out@);
        match &self.user {
            Some(user) => {
                out.push(user.clone());
                assert(messages_of(out@) =~= base.push(user@));
            },
            None => {},
        }
        let ghost with_user = messages_of(out@);
        let mut generated = clone_messages(&self.generated);
        let ghost tail = messages_of(generated@);
        out.append(&mut generated);
        assert(messages_of(out@) =~= with_user + tail);
        out
    }

    /// The messages that the turn stores.
    fn stored_messages(&self) -> (r: Vec<Message>)
        ensures
            messages_of(r@) == self@.stored(),
    {
        let mut out: Vec<Message> = Vec::new();
        match &self.user {
            Some(user) => {
                out.push(user.clone());
                assert(messages_of(out@) =~= seq![user@]);
            },
            None => {
                assert(messages_of(out@) =~= Seq::empty());
            },
        }
        let ghost head = messages_of(out@);
        let mut generated = clone_messages(&self.generated);
        let ghost tail = messages_of(generated@);
        out.append(&mut generated);
        assert(messages_of(out@) =~= head + tail);
        assert(Seq::<MessageView>::empty() + tail =~= tail);
        out
    }

    /// Drops the turn under way.
    fn drop_turn(&mut self)
        ensures
            final(self)@ == old(self)@.dropped(),
    {
        self.state = TurnState::AwaitingUserInput;
        self.user = None;
        self.generated = Vec::new();
        self.planned = Vec::new();
        assert(messages_of(self.generated@) =~= Seq::empty());
        assert(planned_of(self.planned@) =~= Seq::empty());
    }

    /// Completes the turn under way.
    fn commit_turn(&mut self)
        ensures
            final(self)@ == old(self)@.committed(),
    {
        let history = self.working_history();
        self.transcript = Transcript::new_with_messages(history);
        self.drop_turn();
    }

    /// Gives the turn up, as after a failure of the exchange with the
    /// service or of the store. Nothing of the turn is kept: the transcript
    /// is as it was before the turn.
    pub fn abort(&mut self)
        ensures
            final(self)@ == old(self)@.dropped(),
            final(self)@.transcript == old(self)@.transcript,
            old(self).wf() ==> final(self).wf(),
    {
        self.drop_turn();
    }

    /// Begins a turn with a message of the user.
    pub fn next_msg(&mut self, msg: Message) -> (r: Result<Action, ChatError>)
        ensures
            (final(self)@, outcome_of(r)) == old(self)@.next_msg(msg@),
            old(self).wf() ==> final(self).wf(),
    {
        match self.state {
            TurnState::AwaitingUserInput => {},
            _ => {
                return Err(ChatError::UnexpectedEvent);
            },
        }
        self.state = TurnState::ModelRequested;
        self.user = Some(msg);
        Ok(Action::Complete { messages: self.working_history(), stream: self.streaming })
    }

    /// Takes the response of the model.
    pub fn on_completion(&mut self, response: &Json) -> (r: Result<Action, ChatError>)
        ensures
            (final(self)@, outcome_of(r)) == old(self)@.on_completion(response@),
            old(self).wf() ==> final(self).wf(),
    {
        match self.state {
            TurnState::ModelRequested => {},
            _ => {
                return Err(ChatError::UnexpectedEvent);
            },
        }
        match read_completion(response) {
            Completion::ToolCalls(calls) => {
                let planned = match &self.tool_names {
                    None => Err(ChatError::NoTools),
                    Some(names) => plan_tool_calls(names, calls),
                };
                match planned {
                    Err(e) => {
                        self.drop_turn();
                        Err(e)
                    },
                    Ok(planned) => {
                        let calls = clone_planned(&planned);
                        self.planned = planned;
                        self.state = TurnState::ToolsExecuting;
                        Ok(Action::Invoke { calls })
                    },
                }
            },
            Completion::Content(text) => {
                let ghost before = messages_of(self.generated@);
                let answer = Message::new(Role::Assistant, text.as_str());
                self.generated.push(answer);
                assert(messages_of(self.generated@) =~= before.push(
                    MessageView::text(Role::Assistant, text@),
                ));
                let generated = clone_messages(&self.generated);
                match &self.persistence {
                    Some(p) => {
                        let session_id = p.session_id.clone();
                        let tags = clone_strings(&p.tags);
                        let messages = self.stored_messages();
                        self.state = TurnState::Persisting;
                        Ok(Action::Persist { session_id, tags, messages })
                    },
                    None => {
                        self.commit_turn();
                        Ok(Action::Finish { messages: generated })
                    },
                }
            },
            Completion::Nothing => {
                self.drop_turn();
                Err(ChatError::NoFinalMessage)
            },
        }
    }

    /// Takes the text of a buffered response.
    pub fn on_completion_text(&mut self, text: &str) -> (r: Result<Action, ChatError>)
        ensures
            (final(self)@, outcome_of(r)) == old(self)@.on_completion_text(text@),
            old(self).wf() ==> final(self).wf(),
    {
        match self.state {
            TurnState::ModelRequested => {},
            _ => {
                return Err(ChatError::UnexpectedEvent);
            },
        }
        match Json::parse(text) {
            Some(response) => self.on_completion(&response),
            None => {
                self.drop_turn();
                Err(ChatError::MalformedResponse)
            },
        }
    }

    /// Takes the end of a streamed response from its decoder.
    pub fn on_stream(&mut self, decoder: &StreamDecoder) -> (r: Result<Action, ChatError>)
        ensures
            (final(self)@, outcome_of(r)) == old(self)@.on_stream(decoder@),
            old(self).wf() ==> final(self).wf(),
    {
        match self.state {
            TurnState::ModelRequested => {},
            _ => {
                return Err(ChatError::UnexpectedEvent);
            },
        }
        match decoder.status() {
            StreamStatus::Failed(error) => {
                self.drop_turn();
                Err(ChatError::Stream { error })
            },
            _ => {
                let response = decoder.finish();
                self.on_completion(&response)
            },
        }
    }

    /// Takes the news that the exchange with the service failed.
    pub fn on_transport_failure(&mut self, detail: &str) -> (r: Result<Action, ChatError>)
        ensures
            (final(self)@, outcome_of(r)) == old(self)@.fail(
                ChatErrorView::Transport { detail: detail@ },
            ),
            old(self).wf() ==> final(self).wf(),
    {
        match self.state {
            TurnState::AwaitingUserInput => Err(ChatError::UnexpectedEvent),
            _ => {
                self.drop_turn();
                Err(ChatError::Transport { detail: detail.to_owned() })
            },
        }
    }

    /// Takes the reports of the capabilities that were run, one for each
    /// planned call and in the order of the calls.
    pub fn on_tool_results(&mut self, results: &Vec<Result<String, String>>) -> (r: Result<
        Action,
        ChatError,
    >)
        ensures
            (final(self)@, outcome_of(r)) == old(self)@.on_tool_results(reports_of(results@)),
            old(self).wf() ==> final(self).wf(),
    {
        match self.state {
            TurnState::ToolsExecuting => {},
            _ => {
                return Err(ChatError::UnexpectedEvent);
            },
        }
        if results.len() != self.planned.len() {
            self.drop_turn();
            return Err(ChatError::UnexpectedEvent);
        }
        match collect_results(results) {
            Err(detail) => {
                self.drop_turn();
                Err(ChatError::ToolFailed { detail })
            },
            Ok(texts) => {
                let ghost before = messages_of(self.generated@);
                let mut messages = tool_batch_messages(&self.planned, &texts);
                let ghost added = messages_of(messages@);
                self.generated.append(&mut messages);
                assert(messages_of(self.generated@) =~= before + added);
                self.planned = Vec::new();
                assert(planned_of(self.planned@) =~= Seq::empty());
                self.state = TurnState::ModelRequested;
                Ok(Action::Complete { messages: self.working_history(), stream: self.streaming })
            },
        }
    }

    /// Takes the news that the messages of the turn were stored.
    pub fn on_persisted(&mut self) -> (r: Result<Action, ChatError>)
        ensures
            (final(self)@, outcome_of(r)) == old(self)@.on_persisted(),
            old(self).wf() ==> final(self).wf(),
    {
        match self.state {
            TurnState::Persisting => {},
            _ => {
                return Err(ChatError::UnexpectedEvent);
            },
        }
        let generated = clone_messages(&self.generated);
        self.commit_turn();
        Ok(Action::Finish { messages: generated })
    }
}

/// Makes a new session id with `uuid::Uuid::new_v4`, written in the
/// hyphenated form, which is 36 characters long. The id is random: two
/// calls give different ids.
#[verifier::external_body]
fn fresh_session_id() -> (r: String)
    ensures
        r@.len() == 36,
{
    uuid::Uuid::new_v4().to_string()
}

/// The value of a [`ChatBuilder`].
pub struct BuilderView {
    pub api_hostname: Seq<char>,
    pub api_key: Seq<char>,
    pub model: Seq<char>,
    pub transcript: Seq<MessageView>,
    pub tool_names: Option<Seq<Seq<char>>>,
    pub tool_definitions: Option<Seq<JsonValue>>,
    pub persistence: Option<PersistenceView>,
    pub streaming: bool,
}

impl BuilderView {
    /// The session that the builder makes: between turns, with what was
    /// configured.
    pub open spec fn built(self) -> ChatView {
        ChatView {
            api_hostname: self.api_hostname,
            api_key: self.api_key,
            model: self.model,
            transcript: self.transcript,
            tool_names: self.tool_names,
            tool_definitions: self.tool_definitions,
            persistence: self.persistence,
            streaming: self.streaming,
            state: TurnState::AwaitingUserInput,
            user: None,
            generated: Seq::empty(),
            planned: Seq::empty(),
        }
    }
}

/// Configures a chat session. What belongs together is set together: a
/// stored session always has both an id and tags, and a capability set
/// always has both names and definitions.
#[derive(Debug)]
pub struct ChatBuilder {
    api_hostname: String,
    api_key: String,
    model: String,
    persistence: Option<Persistence>,
    tool_names: Option<Vec<String>>,
    tool_definitions: Option<Vec<Json>>,
    transcript: Transcript,
    streaming: bool,
}

impl View for ChatBuilder {
    type V = BuilderView;

    closed spec fn view(&self) -> BuilderView {
        BuilderView {
            api_hostname: self.api_hostname@,
            api_key: self.api_key@,
            model: self.model@,
            transcript: self.transcript@,
            tool_names: optional_names(self.tool_names),
            tool_definitions: optional_documents(self.tool_definitions),
            persistence: persistence_of(self.persistence),
            streaming: self.streaming,
        }
    }
}

impl ChatBuilder {
    #[verifier::type_invariant]
    spec fn inv(self) -> bool {
        &&& self.tool_names is Some <==> self.tool_definitions is Some
        &&& self.tool_names matches Some(names) ==> capabilities_fit(
            texts_of(names@),
            values_of(self.tool_definitions->0@),
        )
    }

    /// The host of the completion service.
    pub fn api_hostname(&self) -> (r: &String)
        ensures
            r@ == self@.api_hostname,
    {
        &self.api_hostname
    }

    /// The key that authorises requests.
    pub fn api_key(&self) -> (r: &String)
        ensures
            r@ == self@.api_key,
    {
        &self.api_key
    }

    /// The model that is asked.
    pub fn model(&self) -> (r: &String)
        ensures
            r@ == self@.model,
    {
        &self.model
    }

    /// Tells whether responses are streamed.
    pub fn is_streaming(&self) -> (r: bool)
        ensures
            r == self@.streaming,
    {
        self.streaming
    }

    /// Where the session is stored, if it is.
    pub fn persistence(&self) -> (r: Option<&Persistence>)
        ensures
            r is Some <==> self@.persistence is Some,
            r matches Some(p) ==> Some(p@) == self@.persistence,
    {
        self.persistence.as_ref()
    }

    /// The names of the registered capabilities.
    pub fn tool_names(&self) -> (r: Option<&Vec<String>>)
        ensures
            r is Some <==> self@.tool_names is Some,
            r matches Some(names) ==> Some(texts_of(names@)) == self@.tool_names,
    {
        self.tool_names.as_ref()
    }

    /// The messages that the session begins with.
    pub fn messages(&self) -> (r: &Transcript)
        ensures
            r@ == self@.transcript,
    {
        &self.transcript
    }

    /// A session with the given service and model: buffered, not stored,
    /// without capabilities and with an empty transcript.
    pub fn new(api_hostname: &str, api_key: &str, model: &str) -> (r: Self)
        ensures
            r@ == (BuilderView {
                api_hostname: api_hostname@,
                api_key: api_key@,
                model: model@,
                transcript: Seq::empty(),
                tool_names: None,
                tool_definitions: None,
                persistence: None,
                streaming: false,
            }),
    {
        ChatBuilder {
            api_hostname: api_hostname.to_owned(),
            api_key: api_key.to_owned(),
            model: model.to_owned(),
            persistence: None,
            tool_names: None,
            tool_definitions: None,
            transcript: Transcript::new(),
            streaming: false,
        }
    }

    /// The session as configured, between turns.
    pub fn build(self) -> (r: Chat)
        ensures
            r@ == self@.built(),
            r.wf(),
    {
        proof {
            use_type_invariant(&self);
        }
        let r = Chat {
            api_hostname: self.api_hostname,
            api_key: self.api_key,
            model: self.model,
            streaming: self.streaming,
            tool_names: self.tool_names,
            tool_definitions: self.tool_definitions,
            persistence: self.persistence,
            transcript: self.transcript,
            state: TurnState::AwaitingUserInput,
            user: None,
            generated: Vec::new(),
            planned: Vec::new(),
        };
        assert(messages_of(r.generated@) =~= Seq::empty());
        assert(planned_of(r.planned@) =~= Seq::empty());
        r
    }

    /// Has the session stored, under `session_id` or else under a new id,
    /// and with `tags` or else without tags.
    pub fn database(self, session_id: Option<&str>, tags: Option<Vec<String>>) -> (r: Self)
        ensures
            r@.persistence is Some,
            session_id matches Some(id) ==> r@.persistence->0.session_id == id@,
            session_id is None ==> r@.persistence->0.session_id.len() == 36,
            r@.persistence->0.tags == match tags {
                Some(tags) => texts_of(tags@),
                None => Seq::empty(),
            },
            r@ == (BuilderView { persistence: r@.persistence, ..self@ }),
    {
        let session_id = match session_id {
            Some(id) => id.to_owned(),
            None => fresh_session_id(),
        };
        let tags = match tags {
            Some(tags) => tags,
            None => {
                let empty: Vec<String> = Vec::new();
                assert(texts_of(empty@) =~= Seq::empty());
                empty
            },
        };
        proof {
            use_type_invariant(&self);
        }
        ChatBuilder { persistence: Some(Persistence { session_id, tags }), ..self }
    }

    /// Begins the session with `messages`.
    pub fn transcript(self, messages: Vec<Message>) -> (r: Self)
        ensures
            r@ == (BuilderView { transcript: messages_of(messages@), ..self@ }),
    {
        proof {
            use_type_invariant(&self);
        }
        ChatBuilder { transcript: Transcript::new_with_messages(messages), ..self }
    }

    /// Has the responses streamed.
    pub fn streaming(self) -> (r: Self)
        ensures
            r@ == (BuilderView { streaming: true, ..self@ }),
    {
        proof {
            use_type_invariant(&self);
        }
        ChatBuilder { streaming: true, ..self }
    }

    /// Registers capabilities by their names and definitions. The names
    /// must differ from one another and there must be one definition for
    /// each name; capabilities that do not fit are refused.
    pub fn capabilities(self, names: Vec<String>, definitions: Vec<Json>) -> (r: Result<
        Self,
        ChatError,
    >)
        ensures
            match r {
                Ok(builder) => capabilities_fit(texts_of(names@), values_of(definitions@))
                    && builder@ == (BuilderView {
                    tool_names: Some(texts_of(names@)),
                    tool_definitions: Some(values_of(definitions@)),
                    ..self@
                }),
                Err(e) => !capabilities_fit(texts_of(names@), values_of(definitions@)) && e@
                    == ChatErrorView::InvalidCapabilities,
            },
    {
        if names.len() != definitions.len() || !names_are_unique(&names) {
            return Err(ChatError::InvalidCapabilities);
        }
        Ok(ChatBuilder { tool_names: Some(names), tool_definitions: Some(definitions), ..self })
    }

    /// Registers capabilities, asking each for its name and definition.
    /// What they are named is theirs to decide; capabilities of which two
    /// give the same name are refused, and no or one capability is always
    /// registered.
    pub fn tools(self, tools: &Vec<BoxedToolCall>) -> (r: Result<Self, ChatError>)
        ensures
            tools@.len() <= 1 ==> r is Ok,
            match r {
                Ok(builder) => {
                    &&& builder@.tool_names is Some
                    &&& builder@.tool_definitions is Some
                    &&& builder@.tool_names->0.len() == tools@.len()
                    &&& builder@.tool_definitions->0.len() == tools@.len()
                    &&& unique(builder@.tool_names->0)
                    &&& builder@ == (BuilderView {
                        tool_names: builder@.tool_names,
                        tool_definitions: builder@.tool_definitions,
                        ..self@
                    })
                },
                Err(e) => e@ == ChatErrorView::InvalidCapabilities,
            },
    {
        let names = tool_names(tools);
        let definitions = tool_definitions(tools);
        self.capabilities(names, definitions)
    }
}

/// A turn without tools gives exactly one message. Where the response of
/// the model has content and asks for no tool call, the turn that a
/// message of the user begins ends with that response: it generates one
/// message of the assistant whose content is the content of the response,
/// whatever the transcript holds. A session that is not stored is then
/// between turns again, with the message of the user and the answer at the
/// end of its transcript.
pub proof fn lemma_turn_without_tools(
    chat: ChatView,
    msg: MessageView,
    response: JsonValue,
    text: Seq<char>,
)
    requires
        chat.wf(),
        chat.state == TurnState::AwaitingUserInput,
        completion_of(response) == CompletionView::Content(text),
    ensures
        chat.next_msg(msg).1 == Ok::<ActionView, ChatErrorView>(
            ActionView::Complete {
                messages: chat.transcript.push(msg),
                stream: chat.streaming,
            },
        ),
        chat.persistence is None ==> chat.next_msg(msg).0.on_completion(response).1 == Ok::<
            ActionView,
            ChatErrorView,
        >(ActionView::Finish { messages: seq![MessageView::text(Role::Assistant, text)] }),
        chat.persistence is None ==> chat.next_msg(msg).0.on_completion(response).0 == (ChatView {
            transcript: chat.transcript.push(msg).push(MessageView::text(Role::Assistant, text)),
            ..chat
        }),
        chat.persistence is Some ==> chat.next_msg(msg).0.on_completion(response).1 == Ok::<
            ActionView,
            ChatErrorView,
        >(
            ActionView::Persist {
                session_id: chat.persistence->0.session_id,
                tags: chat.persistence->0.tags,
                messages: seq![msg, MessageView::text(Role::Assistant, text)],
            },
        ),
        chat.persistence is Some ==> chat.next_msg(msg).0.on_completion(
            response,
        ).0.on_persisted().1 == Ok::<ActionView, ChatErrorView>(
            ActionView::Finish { messages: seq![MessageView::text(Role::Assistant, text)] },
        ),
        chat.persistence is Some ==> chat.next_msg(msg).0.on_completion(
            response,
        ).0.on_persisted().0 == (ChatView {
            transcript: chat.transcript.push(msg).push(MessageView::text(Role::Assistant, text)),
            ..chat
        }),
{
    let answer = MessageView::text(Role::Assistant, text);
    let begun = chat.next_msg(msg).0;
    assert(chat.generated =~= Seq::empty());
    assert(begun.history() =~= chat.transcript.push(msg));
    let generated = begun.generated.push(answer);
    assert(generated =~= seq![answer]);
    let ended = ChatView { generated, ..begun };
    assert(ended.history() =~= chat.transcript.push(msg).push(answer));
    assert(ended.stored() =~= seq![msg, answer]);
    assert(chat.planned =~= Seq::empty());
}

/// A turn is committed as a whole or not at all. Whatever a step of a
/// session in a consistent state is given, its transcript is as before
/// unless the step completes the turn; a step that fails leaves the session
/// between turns; and a step that completes the turn adds the message of
/// the user and then every generated message, in their order, and reports
/// the generated messages.
pub proof fn lemma_turn_is_atomic(
    chat: ChatView,
    msg: MessageView,
    response: JsonValue,
    text: Seq<char>,
    decoder: DecoderView,
    reports: Seq<Result<Seq<char>, Seq<char>>>,
    error: ChatErrorView,
)
    requires
        chat.wf(),
    ensures
        step_is_atomic(chat, chat.next_msg(msg)),
        step_is_atomic(chat, chat.on_completion(response)),
        step_is_atomic(chat, chat.on_completion_text(text)),
        step_is_atomic(chat, chat.on_stream(decoder)),
        step_is_atomic(chat, chat.on_tool_results(reports)),
        step_is_atomic(chat, chat.on_persisted()),
        step_is_atomic(chat, chat.fail(error)),
{
    lemma_completion_is_atomic(chat, response);
    match json_text_value(text) {
        Some(document) => lemma_completion_is_atomic(chat, document),
        None => {},
    }
    lemma_completion_is_atomic(chat, assembled(decoder.acc));
    assert(chat.history() =~= chat.transcript + chat.stored());
}

/// A response is taken in as a whole or not at all.
proof fn lemma_completion_is_atomic(chat: ChatView, response: JsonValue)
    requires
        chat.wf(),
    ensures
        step_is_atomic(chat, chat.on_completion(response)),
{
    match completion_of(response) {
        CompletionView::Content(text) => {
            let generated = chat.generated.push(MessageView::text(Role::Assistant, text));
            let next = ChatView { generated, ..chat };
            assert(next.history() =~= chat.transcript + next.stored());
        },
        _ => {},
    }
    assert(chat.history() =~= chat.transcript + chat.stored());
}

/// What a step may do to the transcript.
pub open spec fn step_is_atomic(
    before: ChatView,
    step: (ChatView, Result<ActionView, ChatErrorView>),
) -> bool {
    let after = step.0;
    match step.1 {
        Ok(ActionView::Finish { messages }) => after.transcript == before.transcript
            + after_stored(before, messages) && after.state == TurnState::AwaitingUserInput,
        Ok(_) => after.transcript == before.transcript,
        Err(_) => after.transcript == before.transcript && (after == before || after.state
            == TurnState::AwaitingUserInput),
    }
}

/// The messages that a completed turn adds to the transcript: the message
/// of the user, then the generated messages.
pub open spec fn after_stored(before: ChatView, generated: Seq<MessageView>) -> Seq<MessageView> {
    match before.user {
        Some(user) => seq![user] + generated,
        None => generated,
    }
}

/// The form in which a tag is stored: in lower case and without white
/// space around it.
pub open spec fn stored_tag(tag: Seq<char>) -> Seq<char> {
    trim(lowercased(tag))
}

/// The form in which a tag is stored.
pub fn normalize_tag(tag: &str) -> (r: String)
    ensures
        r@ == stored_tag(tag@),
{
    trim_str(lowercase(tag).as_str())
}

/// The forms in which the tags of a session are stored, in their order.
pub fn normalize_tags(tags: &Vec<String>) -> (r: Vec<String>)
    ensures
        r@.len() == tags@.len(),
        forall|i: int| 0 <= i < tags@.len() ==> (#[trigger] r@[i])@ == stored_tag(tags@[i]@),
{
    let mut out: Vec<String> = Vec::new();
    let mut i: usize = 0;
    while i < tags.len()
        invariant
            i <= tags@.len(),
            out@.len() == i,
            forall|k: int| 0 <= k < i ==> (#[trigger] out@[k])@ == stored_tag(tags@[k]@),
        decreases tags@.len() - i,
    {
        out.push(normalize_tag(tags[i].as_str()));
        i += 1;
    }
    out
}

} // verus!
