//! The turn orchestrator: one session with its conversation, and the state
//! machine that takes it through a turn. Every step takes what happened
//! outside (an event of the stream, an answer of the user, the output of a
//! command) and says what is to be done next.

use crate::accumulator::{content_of, finish_slot, step, Accumulator, ProtocolError, SlotView};
use crate::confirm::{
    approves, decide_unasked, rejection_message, rejection_text, says_yes, unasked, Decision,
    DecisionView,
};
use crate::decode::{decode_event, decoded, outcome_view, DecodeError};
use crate::json::Json;
use crate::types::{
    assistant_items, conversation, lemma_assistant_items_push, lemma_conversation_push,
    AgentPermissions, AssistantContent, AssistantContentView, Message, MessageView, StreamEvent,
    StreamEventView, UserContent, UserContentView,
};
use crate::wire::{request_json, request_to_json};
use vstd::prelude::*;
use vstd::string::*;

verus! {

/// Where a session stands in its turn.
#[derive(Clone, Debug, PartialEq, Eq)]
pub enum Phase {
    /// No turn is under way; the session waits for the user.
    Idle,
    /// A response is being streamed.
    Streaming,
    /// The user is being asked whether `command` may run.
    AwaitingApproval { id: String, command: String },
    /// The user has refused and is being asked why.
    AwaitingReason { id: String },
    /// The command of the tool call `id` is running.
    Running { id: String },
    /// The turn has ended; the session waits for the user.
    Done,
}

pub enum PhaseView {
    Idle,
    Streaming,
    AwaitingApproval { id: Seq<char>, command: Seq<char> },
    AwaitingReason { id: Seq<char> },
    Running { id: Seq<char> },
    Done,
}

impl View for Phase {
    type V = PhaseView;

    open spec fn view(&self) -> PhaseView {
        match self {
            Phase::Idle => PhaseView::Idle,
            Phase::Streaming => PhaseView::Streaming,
            Phase::AwaitingApproval { id, command } => PhaseView::AwaitingApproval {
                id: id@,
                command: command@,
            },
            Phase::AwaitingReason { id } => PhaseView::AwaitingReason { id: id@ },
            Phase::Running { id } => PhaseView::Running { id: id@ },
            Phase::Done => PhaseView::Done,
        }
    }
}

/// What is to be done next, outside the library.
#[derive(Clone, Debug, PartialEq, Eq)]
pub enum Action {
    /// Open a streamed request that carries the whole conversation.
    SendRequest,
    /// Wait for the next event of the stream.
    Await,
    /// Show `text` to the user, then wait for the next event of the stream.
    Show { text: String },
    /// Ask the user whether `command` may run, and hand back the answer.
    AskApproval { command: String },
    /// Ask the user why the command was refused, and hand back the reason.
    AskReason,
    /// Run `command`, and hand back its transcript.
    Run { command: String },
    /// The turn has ended: ask the user for new input.
    Finished,
}

pub enum ActionView {
    SendRequest,
    Await,
    Show { text: Seq<char> },
    AskApproval { command: Seq<char> },
    AskReason,
    Run { command: Seq<char> },
    Finished,
}

impl View for Action {
    type V = ActionView;

    open spec fn view(&self) -> ActionView {
        match self {
            Action::SendRequest => ActionView::SendRequest,
            Action::Await => ActionView::Await,
            Action::Show { text } => ActionView::Show { text: text@ },
            Action::AskApproval { command } => ActionView::AskApproval { command: command@ },
            Action::AskReason => ActionView::AskReason,
            Action::Run { command } => ActionView::Run { command: command@ },
            Action::Finished => ActionView::Finished,
        }
    }
}

/// Why a step of the turn failed.
#[derive(Clone, Copy, Debug, PartialEq, Eq)]
pub enum TurnError {
    /// The session is not in the phase that this step belongs to. Nothing
    /// has changed.
    OutOfTurn,
    /// An event of the stream could not be decoded. The turn has ended.
    Decode(DecodeError),
    /// An event of the stream did not fit the open blocks. The turn has ended.
    Protocol(ProtocolError),
    /// The command could not be started. The turn has ended.
    Launch,
}

impl TurnError {
    /// What the error says.
    pub open spec fn text(self) -> Seq<char> {
        match self {
            TurnError::OutOfTurn => "the session is not at this step of its turn"@,
            TurnError::Decode(e) => "could not decode an event of the stream: "@ + e.text(),
            TurnError::Protocol(e) => "an event of the stream does not fit: "@ + e.text(),
            TurnError::Launch => "Failed to execute command"@,
        }
    }

    /// What the error says, for the operator.
    pub fn message(&self) -> (message: String)
        ensures
            message@ == self.text(),
    {
        match self {
            TurnError::OutOfTurn => "the session is not at this step of its turn".to_owned(),
            TurnError::Decode(e) => {
                let mut message = "could not decode an event of the stream: ".to_owned();
                message.append(e.message().as_str());
                message
            },
            TurnError::Protocol(e) => {
                let mut message = "an event of the stream does not fit: ".to_owned();
                message.append(e.message().as_str());
                message
            },
            TurnError::Launch => "Failed to execute command".to_owned(),
        }
    }
}

/// The view of what a step returns.
pub open spec fn reply_view(reply: Result<Action, TurnError>) -> Result<ActionView, TurnError> {
    match reply {
        Ok(action) => Ok(action@),
        Err(e) => Err(e),
    }
}

/// The text that stands as the result of a tool call whose command could not
/// be started.
pub open spec fn launch_failure_text(why: Seq<char>) -> Seq<char> {
    "Failed to execute command: "@ + why
}

/// A user message that holds the result of the tool call `id`, and nothing
/// else.
pub open spec fn result_message(id: Seq<char>, content: Seq<char>) -> MessageView {
    MessageView::User { content: seq![UserContentView::ToolResult { tool_use_id: id, content }] }
}

/// A session as the contracts see it.
pub struct AgentView {
    pub model: Seq<char>,
    pub api_key: Seq<char>,
    pub permissions: AgentPermissions,
    /// The conversation so far.
    pub history: Seq<MessageView>,
    pub phase: PhaseView,
    /// The blocks of the response that are open.
    pub slots: Map<u32, SlotView>,
    /// The items of the assistant message that is being assembled.
    pub pending: Seq<AssistantContentView>,
    /// Whether a tool call has got its result since the last request went out.
    pub answered: bool,
    /// The most requests that one turn may send; `None` sets no bound.
    pub round_limit: Option<u32>,
    /// The requests that this turn has sent, as far as a `u32` counts.
    pub sent: u32,
}

/// Whether a turn that has sent `sent` requests may send one more.
pub open spec fn may_send_more(round_limit: Option<u32>, sent: u32) -> bool {
    match round_limit {
        Some(most) => sent < most,
        None => true,
    }
}

/// The count of requests after one more has been sent.
pub open spec fn one_more(sent: u32) -> u32 {
    if sent < u32::MAX {
        (sent + 1) as u32
    } else {
        sent
    }
}

impl AgentView {
    /// The session with nothing left of the response that was under way.
    pub open spec fn cleared(self) -> AgentView {
        AgentView { slots: Map::empty(), pending: Seq::empty(), answered: false, ..self }
    }

    /// The session after a failure that ends the turn: it waits for the user
    /// again, and the conversation stays as it is.
    pub open spec fn failed(self) -> AgentView {
        AgentView { phase: PhaseView::Idle, ..self.cleared() }
    }

    /// New input of the user: the messages join the conversation and the
    /// first request of the turn goes out, whatever the bound on requests.
    /// Where there is nothing to send, the turn ends at once.
    pub open spec fn begin(self, input: Seq<MessageView>) -> (
        AgentView,
        Result<ActionView, TurnError>,
    ) {
        if !(self.phase is Idle || self.phase is Done) {
            (self, Err(TurnError::OutOfTurn))
        } else if self.history.len() + input.len() == 0 {
            (
                AgentView { phase: PhaseView::Done, sent: 0, ..self.cleared() },
                Ok(ActionView::Finished),
            )
        } else {
            (
                AgentView {
                    history: self.history + input,
                    phase: PhaseView::Streaming,
                    sent: 1,
                    ..self.cleared()
                },
                Ok(ActionView::SendRequest),
            )
        }
    }

    /// A block of the response has been finished as `item`. It joins the
    /// assistant message under assembly. A tool use closes that message at
    /// once: the message joins the conversation, and the call goes to the
    /// user for confirmation, or straight to the runner where every command is
    /// allowed.
    pub open spec fn content(self, item: AssistantContentView) -> (
        AgentView,
        Result<ActionView, TurnError>,
    ) {
        if !(self.phase is Streaming) {
            (self, Err(TurnError::OutOfTurn))
        } else {
            match item {
                AssistantContentView::ToolUse { id, name, input } => {
                    let closed = AgentView {
                        history: self.history.push(
                            MessageView::Assistant { content: self.pending.push(item) },
                        ),
                        pending: Seq::empty(),
                        ..self
                    };
                    match unasked(self.permissions) {
                        Some(decision) => closed.decided(id, input.command, decision),
                        None => (
                            AgentView {
                                phase: PhaseView::AwaitingApproval { id, command: input.command },
                                ..closed
                            },
                            Ok(ActionView::AskApproval { command: input.command }),
                        ),
                    }
                },
                _ => (AgentView { pending: self.pending.push(item), ..self }, Ok(ActionView::Await)),
            }
        }
    }

    /// An event of the stream, as the decoder gave it.
    pub open spec fn event(self, decoded: Result<Option<StreamEventView>, DecodeError>) -> (
        AgentView,
        Result<ActionView, TurnError>,
    ) {
        if !(self.phase is Streaming) {
            (self, Err(TurnError::OutOfTurn))
        } else {
            match decoded {
                Err(e) => (self.failed(), Err(TurnError::Decode(e))),
                Ok(None) => (self, Ok(ActionView::Await)),
                Ok(Some(event)) => match step(self.slots, event) {
                    Err(e) => (self.failed(), Err(TurnError::Protocol(e))),
                    Ok(next) => {
                        let moved = AgentView { slots: next.slots, ..self };
                        match next.closed {
                            Some(slot) => moved.content(content_of(slot)),
                            None => (
                                moved,
                                Ok(
                                    match next.echo {
                                        Some(text) => ActionView::Show { text },
                                        None => ActionView::Await,
                                    },
                                ),
                            ),
                        }
                    },
                },
            }
        }
    }

    /// The session after the tool call `id` has got `content` as its result.
    pub open spec fn resolved(self, id: Seq<char>, content: Seq<char>) -> AgentView {
        AgentView {
            history: self.history.push(result_message(id, content)),
            phase: PhaseView::Streaming,
            answered: true,
            ..self
        }
    }

    /// The tool call `id` has been decided. An approved command is to be run.
    /// A rejected one is not: its result is the rejection with its reason, and
    /// the stream goes on.
    pub open spec fn decided(self, id: Seq<char>, command: Seq<char>, decision: DecisionView) -> (
        AgentView,
        Result<ActionView, TurnError>,
    ) {
        match decision {
            DecisionView::Approved => (
                AgentView { phase: PhaseView::Running { id }, ..self },
                Ok(ActionView::Run { command }),
            ),
            DecisionView::Rejected { reason } => (
                self.resolved(id, rejection_text(reason)),
                Ok(ActionView::Await),
            ),
        }
    }

    /// A decision on the command that the user is being asked about.
    pub open spec fn decision(self, decision: DecisionView) -> (
        AgentView,
        Result<ActionView, TurnError>,
    ) {
        match self.phase {
            PhaseView::AwaitingApproval { id, command } => self.decided(id, command, decision),
            _ => (self, Err(TurnError::OutOfTurn)),
        }
    }

    /// The user's answer to the question whether the command may run: a yes
    /// approves it, and after anything else the user is asked for the reason.
    pub open spec fn answer(self, text: Seq<char>) -> (AgentView, Result<ActionView, TurnError>) {
        match self.phase {
            PhaseView::AwaitingApproval { id, command } => if says_yes(text) {
                self.decided(id, command, DecisionView::Approved)
            } else {
                (
                    AgentView { phase: PhaseView::AwaitingReason { id }, ..self },
                    Ok(ActionView::AskReason),
                )
            },
            _ => (self, Err(TurnError::OutOfTurn)),
        }
    }

    /// The user's reason for refusing the command: the call is rejected.
    pub open spec fn reason(self, why: Seq<char>) -> (AgentView, Result<ActionView, TurnError>) {
        match self.phase {
            PhaseView::AwaitingReason { id } => self.decided(
                id,
                Seq::empty(),
                DecisionView::Rejected { reason: why },
            ),
            _ => (self, Err(TurnError::OutOfTurn)),
        }
    }

    /// The transcript of the command that ran.
    pub open spec fn output(self, transcript: Seq<char>) -> (
        AgentView,
        Result<ActionView, TurnError>,
    ) {
        match self.phase {
            PhaseView::Running { id } => (self.resolved(id, transcript), Ok(ActionView::Await)),
            _ => (self, Err(TurnError::OutOfTurn)),
        }
    }

    /// The command could not be started. The call still gets a result, which
    /// says so, and the turn ends.
    pub open spec fn launch_failed(self, why: Seq<char>) -> (
        AgentView,
        Result<ActionView, TurnError>,
    ) {
        match self.phase {
            PhaseView::Running { id } => (
                self.resolved(id, launch_failure_text(why)).failed(),
                Err(TurnError::Launch),
            ),
            _ => (self, Err(TurnError::OutOfTurn)),
        }
    }

    /// The stream has ended. What is left of the assistant message joins the
    /// conversation. Where a tool call got its result during this response,
    /// another request goes out, unless the turn has sent as many as it may;
    /// otherwise the turn is done.
    pub open spec fn stream_end(self) -> (AgentView, Result<ActionView, TurnError>) {
        if !(self.phase is Streaming) {
            (self, Err(TurnError::OutOfTurn))
        } else {
            let history = if self.pending.len() > 0 {
                self.history.push(MessageView::Assistant { content: self.pending })
            } else {
                self.history
            };
            if self.answered && may_send_more(self.round_limit, self.sent) {
                (
                    AgentView {
                        history,
                        phase: PhaseView::Streaming,
                        sent: one_more(self.sent),
                        ..self.cleared()
                    },
                    Ok(ActionView::SendRequest),
                )
            } else {
                (
                    AgentView { history, phase: PhaseView::Done, ..self.cleared() },
                    Ok(ActionView::Finished),
                )
            }
        }
    }
}

/// The headers that a request carries, as names and values.
pub open spec fn request_headers(api_key: Seq<char>) -> Seq<(Seq<char>, Seq<char>)> {
    seq![
        ("content-type"@, "application/json"@),
        ("x-api-key"@, api_key),
        ("anthropic-version"@, "2023-06-01"@),
    ]
}

/// The views of the names and values of headers.
pub open spec fn header_views(headers: Seq<(String, String)>) -> Seq<(Seq<char>, Seq<char>)> {
    headers.map_values(|header: (String, String)| (header.0@, header.1@))
}

/// One session: the model it talks to, the conversation, and the turn that is
/// under way.
pub struct Agent {
    model: String,
    messages: Vec<Message>,
    api_key: String,
    permissions: AgentPermissions,
    phase: Phase,
    blocks: Accumulator,
    pending: Vec<AssistantContent>,
    answered: bool,
    round_limit: Option<u32>,
    sent: u32,
}

impl View for Agent {
    type V = AgentView;

    closed spec fn view(&self) -> AgentView {
        AgentView {
            model: self.model@,
            api_key: self.api_key@,
            permissions: self.permissions,
            history: conversation(self.messages@),
            phase: self.phase@,
            slots: self.blocks@,
            pending: assistant_items(self.pending@),
            answered: self.answered,
            round_limit: self.round_limit,
            sent: self.sent,
        }
    }
}

impl Agent {
    /// A session that waits for the user, with `messages` as the conversation
    /// so far. Every command needs the user's yes, unless
    /// [`Agent::with_permissions`] says otherwise, and a turn may send any
    /// number of requests, unless [`Agent::with_round_limit`] sets a bound.
    pub fn new(model: String, messages: Vec<Message>, api_key: String) -> (agent: Agent)
        ensures
            agent@ == (AgentView {
                model: model@,
                api_key: api_key@,
                permissions: AgentPermissions::ConfirmAll,
                history: conversation(messages@),
                phase: PhaseView::Idle,
                slots: Map::empty(),
                pending: Seq::empty(),
                answered: false,
                round_limit: None,
                sent: 0,
            }),
    {
        let agent = Agent {
            model,
            messages,
            api_key,
            permissions: AgentPermissions::ConfirmAll,
            phase: Phase::Idle,
            blocks: Accumulator::new(),
            pending: Vec::new(),
            answered: false,
            round_limit: None,
            sent: 0,
        };
        assert(agent@.pending =~= Seq::empty());
        agent
    }

    /// The same session with other permissions.
    pub fn with_permissions(self, permissions: AgentPermissions) -> (agent: Agent)
        ensures
            agent@ == (AgentView { permissions, ..self@ }),
    {
        Agent {
            model: self.model,
            messages: self.messages,
            api_key: self.api_key,
            permissions,
            phase: self.phase,
            blocks: self.blocks,
            pending: self.pending,
            answered: self.answered,
            round_limit: self.round_limit,
            sent: self.sent,
        }
    }

    /// The same session with another bound on the requests of one turn:
    /// `Some(most)` lets a turn send `most` requests and no more, but for its
    /// first, which always goes out; `None` sets no bound.
    pub fn with_round_limit(self, round_limit: Option<u32>) -> (agent: Agent)
        ensures
            agent@ == (AgentView { round_limit, ..self@ }),
    {
        Agent {
            model: self.model,
            messages: self.messages,
            api_key: self.api_key,
            permissions: self.permissions,
            phase: self.phase,
            blocks: self.blocks,
            pending: self.pending,
            answered: self.answered,
            round_limit,
            sent: self.sent,
        }
    }

    /// The bound on the requests of one turn.
    pub fn round_limit(&self) -> (round_limit: Option<u32>)
        ensures
            round_limit == self@.round_limit,
    {
        self.round_limit
    }

    /// The conversation so far.
    pub fn messages(&self) -> (messages: &Vec<Message>)
        ensures
            conversation(messages@) == self@.history,
    {
        &self.messages
    }

    /// The name of the model.
    pub fn model(&self) -> (model: &String)
        ensures
            model@ == self@.model,
    {
        &self.model
    }

    /// Where the session stands in its turn.
    pub fn phase(&self) -> (phase: &Phase)
        ensures
            phase@ == self@.phase,
    {
        &self.phase
    }

    /// How tool calls are authorised.
    pub fn permissions(&self) -> (permissions: AgentPermissions)
        ensures
            permissions == self@.permissions,
    {
        self.permissions
    }

    /// The headers of a request: the content type, the credential and the
    /// version of the service's interface.
    pub fn headers(&self) -> (headers: Vec<(String, String)>)
        ensures
            header_views(headers@) == request_headers(self@.api_key),
    {
        let mut headers: Vec<(String, String)> = Vec::new();
        headers.push(("content-type".to_owned(), "application/json".to_owned()));
        headers.push(("x-api-key".to_owned(), self.api_key.clone()));
        headers.push(("anthropic-version".to_owned(), "2023-06-01".to_owned()));
        assert(header_views(headers@) =~= request_headers(self@.api_key));
        headers
    }

    /// The body of the request that is to go out: the model, the token budget,
    /// the shell tool, the instructions and the whole conversation.
    pub fn request_body(&self) -> (body: Json)
        ensures
            body@ == request_json(self@.model, self@.history),
    {
        request_to_json(self.model.as_str(), &self.messages)
    }

    /// Forgets what is left of the response that was under way.
    fn clear(&mut self)
        ensures
            final(self)@ == old(self)@.cleared(),
    {
        self.blocks = Accumulator::new();
        self.pending = Vec::new();
        self.answered = false;
        assert(self@.pending =~= Seq::empty());
    }

    /// Ends the turn after a failure.
    fn fail(&mut self)
        ensures
            final(self)@ == old(self)@.failed(),
    {
        self.clear();
        self.phase = Phase::Idle;
    }

    /// Takes new input of the user and starts a turn.
    pub fn begin_turn(&mut self, messages: Vec<Message>) -> (reply: Result<Action, TurnError>)
        ensures
            (final(self)@, reply_view(reply)) == old(self)@.begin(conversation(messages@)),
    {
        match self.phase {
            Phase::Idle | Phase::Done => {},
            _ => {
                return Err(TurnError::OutOfTurn);
            },
        }
        let mut incoming = messages;
        if self.messages.len() == 0 && incoming.len() == 0 {
            self.clear();
            self.phase = Phase::Done;
            self.sent = 0;
            return Ok(Action::Finished);
        }
        self.messages.append(&mut incoming);
        assert(conversation(old(self).messages@ + messages@) =~= conversation(old(self).messages@)
            + conversation(messages@));
        self.clear();
        self.phase = Phase::Streaming;
        self.sent = 1;
        Ok(Action::SendRequest)
    }

    /// Takes in a finished block of the response.
    pub fn on_content(&mut self, item: AssistantContent) -> (reply: Result<Action, TurnError>)
        ensures
            (final(self)@, reply_view(reply)) == old(self)@.content(item@),
    {
        match self.phase {
            Phase::Streaming => {},
            _ => {
                return Err(TurnError::OutOfTurn);
            },
        }
        let call = match &item {
            AssistantContent::ToolUse { id, name, input } => Some(
                (id.clone(), input.command.clone()),
            ),
            _ => None,
        };
        proof {
            lemma_assistant_items_push(self.pending@, item);
        }
        self.pending.push(item);
        match call {
            Some((id, command)) => {
                let mut content: Vec<AssistantContent> = Vec::new();
                std::mem::swap(&mut content, &mut self.pending);
                proof {
                    lemma_conversation_push(self.messages@, Message::Assistant { content });
                    assert(assistant_items(self.pending@) =~= Seq::empty());
                }
                self.messages.push(Message::Assistant { content });
                match decide_unasked(self.permissions) {
                    Some(decision) => Ok(self.settle(id, command, decision)),
                    None => {
                        let shown = command.clone();
                        self.phase = Phase::AwaitingApproval { id, command };
                        Ok(Action::AskApproval { command: shown })
                    },
                }
            },
            None => Ok(Action::Await),
        }
    }

    /// Takes in an event of the stream that has been decoded.
    pub fn on_decoded(&mut self, event: Result<Option<StreamEvent>, DecodeError>) -> (reply: Result<
        Action,
        TurnError,
    >)
        ensures
            (final(self)@, reply_view(reply)) == old(self)@.event(outcome_view(event)),
    {
        match self.phase {
            Phase::Streaming => {},
            _ => {
                return Err(TurnError::OutOfTurn);
            },
        }
        let event = match event {
            Err(e) => {
                self.fail();
                return Err(TurnError::Decode(e));
            },
            Ok(None) => {
                return Ok(Action::Await);
            },
            Ok(Some(event)) => event,
        };
        match self.blocks.apply(event) {
            Err(e) => {
                self.fail();
                Err(TurnError::Protocol(e))
            },
            Ok(progress) => match progress.closed {
                Some(slot) => self.on_content(finish_slot(slot)),
                None => match progress.echo {
                    Some(text) => Ok(Action::Show { text }),
                    None => Ok(Action::Await),
                },
            },
        }
    }

    /// Takes in one message of the stream: its event name and its payload.
    pub fn on_event(&mut self, name: &str, data: &str) -> (reply: Result<Action, TurnError>)
        ensures
            (final(self)@, reply_view(reply)) == old(self)@.event(decoded(name@, data@)),
    {
        match self.phase {
            Phase::Streaming => {},
            _ => {
                return Err(TurnError::OutOfTurn);
            },
        }
        self.on_decoded(decode_event(name, data))
    }

    /// Appends the result of the tool call `id` and goes back to the stream.
    fn resolve(&mut self, id: String, content: String)
        ensures
            final(self)@ == old(self)@.resolved(id@, content@),
    {
        let mut items: Vec<UserContent> = Vec::new();
        items.push(UserContent::ToolResult { tool_use_id: id, content });
        let message = Message::User { content: items };
        proof {
            lemma_conversation_push(self.messages@, message);
            assert(message@ == result_message(id@, content@)) by {
                assert(message@->User_content =~= result_message(id@, content@)->User_content);
            }
        }
        self.messages.push(message);
        self.phase = Phase::Streaming;
        self.answered = true;
    }

    /// Carries out the decision on the tool call `id`.
    fn settle(&mut self, id: String, command: String, decision: Decision) -> (action: Action)
        ensures
            (final(self)@, Ok::<ActionView, TurnError>(action@)) == old(self)@.decided(
                id@,
                command@,
                decision@,
            ),
    {
        match decision {
            Decision::Approved => {
                self.phase = Phase::Running { id };
                Action::Run { command }
            },
            Decision::Rejected { reason } => {
                self.resolve(id, rejection_message(reason.as_str()));
                Action::Await
            },
        }
    }

    /// Takes in a decision on the command that the user is being asked about.
    pub fn on_decision(&mut self, decision: Decision) -> (reply: Result<Action, TurnError>)
        ensures
            (final(self)@, reply_view(reply)) == old(self)@.decision(decision@),
    {
        let mut phase = Phase::Idle;
        std::mem::swap(&mut phase, &mut self.phase);
        match phase {
            Phase::AwaitingApproval { id, command } => Ok(self.settle(id, command, decision)),
            other => {
                self.phase = other;
                Err(TurnError::OutOfTurn)
            },
        }
    }

    /// Takes in the user's answer to the question whether the command may run.
    pub fn on_answer(&mut self, answer: &str) -> (reply: Result<Action, TurnError>)
        ensures
            (final(self)@, reply_view(reply)) == old(self)@.answer(answer@),
    {
        let mut phase = Phase::Idle;
        std::mem::swap(&mut phase, &mut self.phase);
        match phase {
            Phase::AwaitingApproval { id, command } => {
                if approves(answer) {
                    Ok(self.settle(id, command, Decision::Approved))
                } else {
                    self.phase = Phase::AwaitingReason { id };
                    Ok(Action::AskReason)
                }
            },
            other => {
                self.phase = other;
                Err(TurnError::OutOfTurn)
            },
        }
    }

    /// Takes in the user's reason for refusing the command.
    pub fn on_reason(&mut self, why: &str) -> (reply: Result<Action, TurnError>)
        ensures
            (final(self)@, reply_view(reply)) == old(self)@.reason(why@),
    {
        let mut phase = Phase::Idle;
        std::mem::swap(&mut phase, &mut self.phase);
        match phase {
            Phase::AwaitingReason { id } => Ok(
                self.settle(id, String::new(), Decision::Rejected { reason: why.to_owned() }),
            ),
            other => {
                self.phase = other;
                Err(TurnError::OutOfTurn)
            },
        }
    }

    /// Takes in the transcript of the command that ran.
    pub fn on_output(&mut self, transcript: String) -> (reply: Result<Action, TurnError>)
        ensures
            (final(self)@, reply_view(reply)) == old(self)@.output(transcript@),
    {
        let mut phase = Phase::Idle;
        std::mem::swap(&mut phase, &mut self.phase);
        match phase {
            Phase::Running { id } => {
                self.resolve(id, transcript);
                Ok(Action::Await)
            },
            other => {
                self.phase = other;
                Err(TurnError::OutOfTurn)
            },
        }
    }

    /// Takes in that the command could not be started, and why.
    pub fn on_launch_failure(&mut self, why: &str) -> (reply: Result<Action, TurnError>)
        ensures
            (final(self)@, reply_view(reply)) == old(self)@.launch_failed(why@),
    {
        let mut phase = Phase::Idle;
        std::mem::swap(&mut phase, &mut self.phase);
        match phase {
            Phase::Running { id } => {
                let mut content = String::from_str("Failed to execute command: ");
                content.append(why);
                self.resolve(id, content);
                self.fail();
                Err(TurnError::Launch)
            },
            other => {
                self.phase = other;
                Err(TurnError::OutOfTurn)
            },
        }
    }

    /// Takes in that the stream has ended, or was closed after a failure of
    /// the transport.
    pub fn on_stream_end(&mut self) -> (reply: Result<Action, TurnError>)
        ensures
            (final(self)@, reply_view(reply)) == old(self)@.stream_end(),
    {
        match self.phase {
            Phase::Streaming => {},
            _ => {
                return Err(TurnError::OutOfTurn);
            },
        }
        if self.pending.len() > 0 {
            let mut content: Vec<AssistantContent> = Vec::new();
            std::mem::swap(&mut content, &mut self.pending);
            proof {
                lemma_conversation_push(self.messages@, Message::Assistant { content });
            }
            self.messages.push(Message::Assistant { content });
        }
        let again = self.answered && match self.round_limit {
            Some(most) => self.sent < most,
            None => true,
        };
        self.clear();
        if again {
            if self.sent < u32::MAX {
                self.sent = self.sent + 1;
            }
            Ok(Action::SendRequest)
        } else {
            self.phase = Phase::Done;
            Ok(Action::Finished)
        }
    }
}

} // verus!
