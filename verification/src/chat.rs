//! The tool-calling conversation: a counted state machine that alternates
//! between asking the model and running the tools it asks for, until the
//! model answers in plain text or the iteration cap is reached.

use vstd::prelude::*;
use vstd::string::*;
use crate::message::{
    Message, MessageView, Tool, ToolCall, ToolCallView, conversation_view, declarations_view,
    tool_calls_view,
};
use crate::prompt::{
    build_initial_messages, build_tool_definitions, initial_messages, web_search_declaration,
};
use crate::search::SearchProvider;
use crate::text::copy_text;
use crate::tool::{
    ToolError, ToolErrorView, build_tool_message, execute_tool, outcome_view, planned_search,
    request_of, tool_message,
};

verus! {

/// How often the model is asked at most in one conversation.
pub const MAX_ITERATIONS: usize = 10;

/// A capability to ask the model for its next message. The library decides
/// nothing about what an implementation returns.
pub trait ModelClient {
    /// The model's next message for a conversation and the declared tools,
    /// or why there is none.
    ///
    /// The model is always given the one declared tool and a conversation
    /// that opens with the system message and a request and goes on in
    /// complete tool turns.
    fn chat(&mut self, conversation: &Vec<Message>, tools: &Vec<Tool>) -> (reply: Result<
        Message,
        ModelError,
    >)
        requires
            declarations_view(tools@) == seq![web_search_declaration()],
            opens_conversation(conversation_view(conversation@)),
            complete_turns(conversation_view(conversation@), 2),
    ;
}

/// Whether a conversation opens as every conversation does: with the system
/// message, then a request as the user's message.
pub open spec fn opens_conversation(conversation: Seq<MessageView>) -> bool {
    &&& conversation.len() >= 2
    &&& conversation.take(2) == initial_messages(conversation[1].content)
}

/// Why the model gave no message.
#[derive(Debug)]
pub enum ModelError {
    /// The server could not be reached in time, or replied without success;
    /// the text says how.
    TransportFailure(String),
    /// The server's reply does not have the expected shape; the text says
    /// how.
    MalformedResponse(String),
}

pub enum ModelErrorView {
    TransportFailure(Seq<char>),
    MalformedResponse(Seq<char>),
}

impl View for ModelError {
    type V = ModelErrorView;

    open spec fn view(&self) -> ModelErrorView {
        match self {
            ModelError::TransportFailure(text) => ModelErrorView::TransportFailure(text@),
            ModelError::MalformedResponse(text) => ModelErrorView::MalformedResponse(text@),
        }
    }
}

impl ModelErrorView {
    /// The failure of a conversation that a failure of the model makes.
    pub open spec fn ends_chat(self) -> ChatErrorView {
        match self {
            ModelErrorView::TransportFailure(text) => ChatErrorView::TransportFailure(text),
            ModelErrorView::MalformedResponse(text) => ChatErrorView::MalformedResponse(text),
        }
    }
}

/// Why a conversation gave no answer.
#[derive(Debug)]
pub enum ChatError {
    /// The model server could not be reached in time, or replied without
    /// success; the text says how.
    TransportFailure(String),
    /// The model server's reply does not have the expected shape; the text
    /// says how.
    MalformedResponse(String),
    /// The model kept asking for tools until the iteration cap.
    MaxIterationsExceeded,
}

pub enum ChatErrorView {
    TransportFailure(Seq<char>),
    MalformedResponse(Seq<char>),
    MaxIterationsExceeded,
}

impl View for ChatError {
    type V = ChatErrorView;

    open spec fn view(&self) -> ChatErrorView {
        match self {
            ChatError::TransportFailure(text) => ChatErrorView::TransportFailure(text@),
            ChatError::MalformedResponse(text) => ChatErrorView::MalformedResponse(text@),
            ChatError::MaxIterationsExceeded => ChatErrorView::MaxIterationsExceeded,
        }
    }
}

impl ChatError {
    /// The error as a line of text.
    pub open spec fn spec_message(self) -> Seq<char> {
        match self {
            ChatError::TransportFailure(text) => text@,
            ChatError::MalformedResponse(text) => text@,
            ChatError::MaxIterationsExceeded =>
                "Maximum iterations (10) exceeded. The model may be stuck in a tool-calling loop."@,
        }
    }

    /// The error as a line of text.
    pub fn message(&self) -> (line: String)
        ensures
            line@ == self.spec_message(),
    {
        match self {
            ChatError::TransportFailure(text) => copy_text(text.as_str()),
            ChatError::MalformedResponse(text) => copy_text(text.as_str()),
            ChatError::MaxIterationsExceeded => copy_text(
                "Maximum iterations (10) exceeded. The model may be stuck in a tool-calling loop.",
            ),
        }
    }
}

/// Where a conversation stands.
#[derive(Debug)]
pub enum LoopState {
    /// The model is to be asked next.
    AwaitingModel,
    /// The tool invocations of the message at index `assistant` are being
    /// run; the one at index `next` is the next.
    ExecutingTools { assistant: usize, next: usize },
    /// The model has answered in plain text.
    Done { answer: String },
    /// The conversation was given up.
    Failed { error: ChatError },
}

pub enum StateView {
    AwaitingModel,
    ExecutingTools { assistant: nat, next: nat },
    Done { answer: Seq<char> },
    Failed { error: ChatErrorView },
}

impl View for LoopState {
    type V = StateView;

    open spec fn view(&self) -> StateView {
        match self {
            LoopState::AwaitingModel => StateView::AwaitingModel,
            LoopState::ExecutingTools { assistant, next } => StateView::ExecutingTools {
                assistant: *assistant as nat,
                next: *next as nat,
            },
            LoopState::Done { answer } => StateView::Done { answer: answer@ },
            LoopState::Failed { error } => StateView::Failed { error: error@ },
        }
    }
}

/// A tool message: of role `tool`, without tool invocations of its own.
pub open spec fn is_tool_message(message: MessageView) -> bool {
    message.role == "tool"@ && message.tool_calls is None
}

/// Whether the messages from index `at` on are complete tool turns and
/// nothing else: each turn is a message that carries tool invocations,
/// followed at once by exactly one tool message for each of them.
pub open spec fn complete_turns(conversation: Seq<MessageView>, at: int) -> bool
    decreases conversation.len() - at,
{
    if at >= conversation.len() {
        at == conversation.len()
    } else {
        let calls = conversation[at].call_count() as int;
        &&& calls > 0
        &&& at + 1 + calls <= conversation.len()
        &&& forall|j: int| at < j <= at + calls ==> is_tool_message(#[trigger] conversation[j])
        &&& complete_turns(conversation, at + 1 + calls)
    }
}

/// Inside complete turns every tool invocation has its place: the tool
/// message for invocation `k` of the message at index `head` lies within the
/// conversation.
pub proof fn turns_stay_inside(conversation: Seq<MessageView>, at: int, head: int, k: int)
    requires
        0 <= at <= head < conversation.len(),
        complete_turns(conversation, at),
        0 <= k < conversation[head].call_count(),
    ensures
        head + 1 + k < conversation.len(),
    decreases conversation.len() - at,
{
    let calls = conversation[at].call_count() as int;
    if head == at {
    } else if head <= at + calls {
        assert(is_tool_message(conversation[head]));
    } else {
        turns_stay_inside(conversation, at + 1 + calls, head, k);
    }
}

/// What is told to the model about a tool invocation, given what running it
/// gave: an invocation that names an undeclared tool or lacks its query is
/// answered with that error, whatever was handed in.
pub open spec fn settled(call: ToolCallView, outcome: Result<Seq<char>, ToolErrorView>) -> Result<
    Seq<char>,
    ToolErrorView,
> {
    match request_of(call) {
        Err(e) => Err(e),
        Ok(_) => outcome,
    }
}

/// Whether invocation `k` of the message at index `head`, where it names an
/// undeclared tool or lacks its query and its tool message is there already,
/// is answered by the report of exactly that error.
pub open spec fn answers_refusal(conversation: Seq<MessageView>, head: int, k: int) -> bool {
    (2 <= head < conversation.len() && 0 <= k < conversation[head].call_count() && head + 1 + k
        < conversation.len()) ==> match request_of(conversation[head].tool_calls->Some_0[k]) {
        Err(e) => conversation[head + 1 + k] == tool_message(Err(e)),
        Ok(_) => true,
    }
}

/// Whether every tool invocation that names an undeclared tool or lacks its
/// query is answered by the report of that error, in its place.
pub open spec fn refusals_reported(conversation: Seq<MessageView>) -> bool {
    forall|head: int, k: int| #[trigger] answers_refusal(conversation, head, k)
}

/// How many turns the messages from index `at` on hold, where they are
/// complete turns: as many as there are messages of the model among them.
pub open spec fn turn_count(conversation: Seq<MessageView>, at: int) -> nat
    decreases conversation.len() - at,
{
    if at < 0 || at >= conversation.len() {
        0
    } else {
        let next = at + 1 + conversation[at].call_count();
        if next <= conversation.len() {
            1 + turn_count(conversation, next)
        } else {
            1
        }
    }
}

/// Complete turns stay complete, and are one more, when one more complete
/// turn follows them: a message at index `head` that carries tool
/// invocations, and after it one tool message for each, up to the end.
pub proof fn complete_turns_extend(conversation: Seq<MessageView>, head: int, at: int)
    requires
        0 <= at <= head < conversation.len(),
        complete_turns(conversation.take(head), at),
        conversation[head].call_count() > 0,
        conversation.len() == head + 1 + conversation[head].call_count(),
        forall|j: int| head < j < conversation.len() ==> is_tool_message(#[trigger] conversation[j]),
    ensures
        complete_turns(conversation, at),
        turn_count(conversation, at) == turn_count(conversation.take(head), at) + 1,
    decreases head - at,
{
    if at < head {
        let before = conversation.take(head);
        let calls = before[at].call_count() as int;
        assert(before[at] == conversation[at]);
        assert forall|j: int| at < j <= at + calls implies is_tool_message(
            #[trigger] conversation[j],
        ) by {
            assert(before[j] == conversation[j]);
        }
        complete_turns_extend(conversation, head, at + 1 + calls);
    } else {
        assert(complete_turns(conversation, head + 1 + conversation[head].call_count()));
        assert(turn_count(conversation, head + 1 + conversation[head].call_count()) == 0);
        assert(turn_count(conversation.take(head), head) == 0);
    }
}

/// A conversation as a value: the messages so far, how often the model was
/// asked, and the state.
pub struct SessionView {
    pub conversation: Seq<MessageView>,
    pub turns: nat,
    pub state: StateView,
}

impl SessionView {
    /// What holds of every conversation that was started and moved on by the
    /// transitions below: its counters are in bounds and its messages have
    /// the shape that the protocol asks for.
    pub open spec fn wf(self) -> bool {
        self.in_bounds() && self.keeps_protocol()
    }

    /// The counters are in bounds: the model was not asked more often than
    /// the cap allows, the tool invocation that is next exists, and an answer
    /// is the content of the last message.
    pub open spec fn in_bounds(self) -> bool {
        &&& self.turns <= MAX_ITERATIONS
        &&& self.conversation.len() >= 2
        &&& match self.state {
            StateView::AwaitingModel => true,
            StateView::ExecutingTools { assistant, next } => {
                &&& assistant < self.conversation.len()
                &&& next < self.conversation[assistant as int].call_count()
                &&& self.conversation.len() == assistant + 1 + next
            },
            StateView::Done { answer } => {
                &&& self.conversation.last().call_count() == 0
                &&& self.conversation.last().content == answer
            },
            StateView::Failed { error } => error is MaxIterationsExceeded ==> self.turns
                == MAX_ITERATIONS,
        }
    }

    /// The shape that the messages after the opening two have in every
    /// state: complete tool turns, then, while tools are executed, the turn
    /// that is under way, or, when done, the answer.
    pub open spec fn keeps_protocol(self) -> bool {
        &&& refusals_reported(self.conversation)
        &&& self.keeps_turns()
    }

    /// The turns of the conversation, by its state.
    pub open spec fn keeps_turns(self) -> bool {
        match self.state {
            StateView::AwaitingModel => {
                &&& complete_turns(self.conversation, 2)
                &&& turn_count(self.conversation, 2) == self.turns
            },
            StateView::Failed { error } => {
                &&& complete_turns(self.conversation, 2)
                &&& self.turns == turn_count(self.conversation, 2) + if error
                    is MaxIterationsExceeded {
                    0nat
                } else {
                    1nat
                }
            },
            StateView::ExecutingTools { assistant, next } => {
                &&& assistant >= 2
                &&& complete_turns(self.conversation.take(assistant as int), 2)
                &&& turn_count(self.conversation.take(assistant as int), 2) + 1 == self.turns
                &&& forall|j: int|
                    assistant < j < self.conversation.len() ==> is_tool_message(
                        #[trigger] self.conversation[j],
                    )
            },
            StateView::Done { .. } => {
                &&& self.conversation.len() > 2
                &&& complete_turns(self.conversation.drop_last(), 2)
                &&& turn_count(self.conversation.drop_last(), 2) + 1 == self.turns
            },
        }
    }

    /// Whether the conversation has ended.
    pub open spec fn is_terminal(self) -> bool {
        self.state is Done || self.state is Failed
    }

    /// A conversation at its start: the system message, the request, nothing
    /// asked yet.
    pub open spec fn start(user_request: Seq<char>) -> SessionView {
        SessionView {
            conversation: initial_messages(user_request),
            turns: 0,
            state: StateView::AwaitingModel,
        }
    }

    /// Entering a turn. While the model is awaited and was asked as often as
    /// the cap allows, the conversation fails. In any other case nothing
    /// changes.
    pub open spec fn enter_turn(self) -> SessionView {
        if !(self.state is AwaitingModel) {
            self
        } else if self.turns >= MAX_ITERATIONS {
            SessionView {
                state: StateView::Failed { error: ChatErrorView::MaxIterationsExceeded },
                ..self
            }
        } else {
            self
        }
    }

    /// Whether entering a turn leads to asking the model.
    pub open spec fn may_ask(self) -> bool {
        self.state is AwaitingModel && self.turns < MAX_ITERATIONS
    }

    /// Taking the model's reply, which counts as one turn. A failure ends the
    /// conversation. A message is appended; with tool invocations their
    /// execution begins at the first, without any the conversation is done
    /// and the message's content is the answer. At the cap no reply is taken
    /// and the conversation fails. In any state but awaiting the model
    /// nothing changes.
    pub open spec fn take_reply(self, reply: Result<MessageView, ModelErrorView>) -> SessionView {
        if !(self.state is AwaitingModel) || self.turns >= MAX_ITERATIONS {
            self.enter_turn()
        } else {
            match reply {
                Err(error) => SessionView {
                    turns: self.turns + 1,
                    state: StateView::Failed { error: error.ends_chat() },
                    ..self
                },
                Ok(message) => SessionView {
                    conversation: self.conversation.push(message),
                    turns: self.turns + 1,
                    state: if message.call_count() > 0 {
                        StateView::ExecutingTools { assistant: self.conversation.len(), next: 0 }
                    } else {
                        StateView::Done { answer: message.content }
                    },
                },
            }
        }
    }

    /// Taking the outcome of the tool invocation that was next. Its tool
    /// message is appended, failure or not; an invocation that names an
    /// undeclared tool or lacks its query is answered with that error,
    /// whatever the outcome says. After the last invocation of the turn the
    /// model is awaited again. In any state but executing tools nothing
    /// changes.
    pub open spec fn take_tool_outcome(self, outcome: Result<Seq<char>, ToolErrorView>) -> SessionView {
        match self.state {
            StateView::ExecutingTools { assistant, next } => SessionView {
                conversation: self.conversation.push(
                    tool_message(settled(self.current_call(), outcome)),
                ),
                turns: self.turns,
                state: if next + 1 < self.conversation[assistant as int].call_count() {
                    StateView::ExecutingTools { assistant, next: next + 1 }
                } else {
                    StateView::AwaitingModel
                },
            },
            _ => self,
        }
    }

    /// The tool invocation that is next, while tools are executed.
    pub open spec fn current_call(self) -> crate::message::ToolCallView
        recommends
            self.wf(),
            self.state is ExecutingTools,
    {
        self.conversation[self.state->assistant as int].tool_calls->Some_0[self.state->next as int]
    }
}

/// Every transition keeps a conversation well formed and only ever appends
/// to its messages: what was said stays, in its place.
pub proof fn transitions_append_only(
    session: SessionView,
    reply: Result<MessageView, ModelErrorView>,
    outcome: Result<Seq<char>, ToolErrorView>,
)
    requires
        session.wf(),
    ensures
        session.enter_turn().wf(),
        session.take_reply(reply).wf(),
        session.take_tool_outcome(outcome).wf(),
        session.enter_turn().conversation == session.conversation,
        session.conversation.is_prefix_of(session.take_reply(reply).conversation),
        session.conversation.is_prefix_of(session.take_tool_outcome(outcome).conversation),
{
    entering_keeps_protocol(session);
    reply_keeps_protocol(session, reply);
    tool_outcome_keeps_protocol(session, outcome);
}

/// A tool-role message only ever follows a message that carried tool
/// invocations, or another tool message of the same turn, and a turn has
/// exactly one tool message for each invocation: a conversation has this
/// shape at its start.
pub proof fn start_keeps_protocol(user_request: Seq<char>)
    ensures
        SessionView::start(user_request).wf(),
{
}

/// Entering a turn keeps the shape of a conversation.
pub proof fn entering_keeps_protocol(session: SessionView)
    requires
        session.wf(),
    ensures
        session.enter_turn().wf(),
{
}

/// Taking the model's reply keeps the shape of a conversation: the complete
/// turns stay, and the reply opens a turn or is the answer.
pub proof fn reply_keeps_protocol(session: SessionView, reply: Result<MessageView, ModelErrorView>)
    requires
        session.wf(),
    ensures
        session.take_reply(reply).wf(),
{
    let replied = session.take_reply(reply);
    if session.state is AwaitingModel && session.turns < MAX_ITERATIONS && reply is Ok {
        let before = session.conversation;
        assert(replied.conversation.take(before.len() as int) =~= before);
        assert(replied.conversation.drop_last() =~= before);
        assert forall|head: int, k: int| #[trigger]
            answers_refusal(replied.conversation, head, k) by {
            if 2 <= head < before.len() && 0 <= k < before[head].call_count() {
                turns_stay_inside(before, 2, head, k);
                assert(answers_refusal(before, head, k));
            }
        }
    }
}

/// Taking the outcome of a tool invocation keeps the shape of a
/// conversation: the turn under way gets its next tool message, and with the
/// last one the turn is complete.
pub proof fn tool_outcome_keeps_protocol(
    session: SessionView,
    outcome: Result<Seq<char>, ToolErrorView>,
)
    requires
        session.wf(),
    ensures
        session.take_tool_outcome(outcome).wf(),
{
    let told = session.take_tool_outcome(outcome);
    if session.state is ExecutingTools {
        let head = session.state->assistant as int;
        assert(told.conversation.take(head) =~= session.conversation.take(head));
        assert(told.conversation[head] == session.conversation[head]);
        assert forall|j: int| head < j < told.conversation.len() implies is_tool_message(
            #[trigger] told.conversation[j],
        ) by {
            if j < session.conversation.len() {
                assert(told.conversation[j] == session.conversation[j]);
            }
        }
        let before = session.conversation;
        assert forall|a: int, k: int| #[trigger] answers_refusal(told.conversation, a, k) by {
            if 2 <= a < before.len() && 0 <= k < before[a].call_count() {
                assert(answers_refusal(before, a, k));
                if a < head {
                    assert(before.take(head)[a] == before[a]);
                    turns_stay_inside(before.take(head), 2, a, k);
                } else if a > head {
                    assert(is_tool_message(before[a]));
                }
            }
        }
        if told.state is AwaitingModel {
            complete_turns_extend(told.conversation, head, 2);
        }
    }
}

/// A tool invocation that fails does not end the conversation: its report is
/// appended as a tool-role message and the conversation goes on.
pub proof fn tool_failure_is_not_fatal(session: SessionView, error: ToolErrorView)
    requires
        session.wf(),
        session.state is ExecutingTools,
    ensures
        !session.take_tool_outcome(Err(error)).is_terminal(),
        session.take_tool_outcome(Err(error)).conversation == session.conversation.push(
            tool_message(settled(session.current_call(), Err(error))),
        ),
        settled(session.current_call(), Err(error)) is Err,
        session.take_tool_outcome(Err(error)).turns == session.turns,
{
}

/// The model is asked at most `MAX_ITERATIONS` times: at the cap, entering a
/// turn fails the conversation, and no reply is taken any more. Below the
/// cap every reply counts as one turn.
pub proof fn cap_is_never_passed(session: SessionView, reply: Result<MessageView, ModelErrorView>)
    requires
        session.wf(),
        session.state is AwaitingModel,
    ensures
        session.take_reply(reply).turns <= MAX_ITERATIONS,
        session.turns == MAX_ITERATIONS ==> !session.may_ask() && session.enter_turn().state == (
        StateView::Failed { error: ChatErrorView::MaxIterationsExceeded })
            && session.take_reply(reply) == session.enter_turn()
            && session.enter_turn().conversation == session.conversation,
        session.turns < MAX_ITERATIONS ==> session.may_ask() && session.enter_turn() == session
            && session.take_reply(reply).turns == session.turns + 1,
{
}

/// One tool turn as it is played: the model's message and the outcomes of
/// running its tool invocations, in their order.
pub struct TurnView {
    pub reply: MessageView,
    pub outcomes: Seq<Result<Seq<char>, ToolErrorView>>,
}

/// Whether the model asks for tools in a turn, and every invocation is run.
pub open spec fn asks_for_tools(turn: TurnView) -> bool {
    turn.reply.call_count() > 0 && turn.outcomes.len() == turn.reply.call_count()
}

impl SessionView {
    /// Taking the outcomes of several tool invocations, one after the other.
    pub open spec fn take_tool_outcomes(
        self,
        outcomes: Seq<Result<Seq<char>, ToolErrorView>>,
    ) -> SessionView
        decreases outcomes.len(),
    {
        if outcomes.len() == 0 {
            self
        } else {
            self.take_tool_outcomes(outcomes.drop_last()).take_tool_outcome(outcomes.last())
        }
    }

    /// Playing one turn: the turn is entered, the model's message taken, and
    /// then the outcomes of its tool invocations.
    pub open spec fn play_turn(self, turn: TurnView) -> SessionView {
        self.enter_turn().take_reply(Ok(turn.reply)).take_tool_outcomes(turn.outcomes)
    }

    /// Playing several turns, one after the other.
    pub open spec fn play_turns(self, turns: Seq<TurnView>) -> SessionView
        decreases turns.len(),
    {
        if turns.len() == 0 {
            self
        } else {
            self.play_turns(turns.drop_last()).play_turn(turns.last())
        }
    }

    /// The last step of a conversation: a turn is entered and, where the
    /// model was asked once more, its reply taken.
    pub open spec fn end_with(self, ending: Option<Result<MessageView, ModelErrorView>>) -> SessionView {
        match ending {
            Some(reply) => self.enter_turn().take_reply(reply),
            None => self.enter_turn(),
        }
    }
}

/// Whether an outcome is what a conversation in a terminal state hands out:
/// its messages, its count of turns, and its answer or its error.
pub open spec fn shows(outcome: ChatOutcome, session: SessionView) -> bool {
    &&& conversation_view(outcome.conversation@) == session.conversation
    &&& outcome.model_calls == session.turns
    &&& match session.state {
        StateView::Done { answer } => outcome.result is Ok && outcome.result->Ok_0@ == answer,
        StateView::Failed { error } => outcome.result is Err && outcome.result->Err_0@ == error,
        _ => false,
    }
}

/// Whether an outcome is that of a conversation about a request in which the
/// model asked for tools in each of `turns`, every invocation was run, and
/// the last step was `ending`.
pub open spec fn plays_out(
    user_request: Seq<char>,
    turns: Seq<TurnView>,
    ending: Option<Result<MessageView, ModelErrorView>>,
    outcome: ChatOutcome,
) -> bool {
    &&& forall|i: int| 0 <= i < turns.len() ==> asks_for_tools(#[trigger] turns[i])
    &&& shows(outcome, SessionView::start(user_request).play_turns(turns).end_with(ending))
}

/// Outcomes are taken only while tools are executed.
pub proof fn outcomes_need_a_turn(
    session: SessionView,
    outcomes: Seq<Result<Seq<char>, ToolErrorView>>,
)
    requires
        !(session.state is ExecutingTools),
    ensures
        session.take_tool_outcomes(outcomes) == session,
    decreases outcomes.len(),
{
    if outcomes.len() > 0 {
        outcomes_need_a_turn(session, outcomes.drop_last());
    }
}

/// While tools are executed, every outcome moves on to the next invocation
/// of the turn, and the last one hands the turn back to the model.
pub proof fn outcomes_finish_the_turn(
    session: SessionView,
    outcomes: Seq<Result<Seq<char>, ToolErrorView>>,
)
    requires
        session.wf(),
        session.state is ExecutingTools,
        session.state->next + outcomes.len() <= session.conversation[session.state->assistant
            as int].call_count(),
    ensures
        session.take_tool_outcomes(outcomes).wf(),
        session.take_tool_outcomes(outcomes).turns == session.turns,
        session.take_tool_outcomes(outcomes).conversation.len() == session.conversation.len()
            + outcomes.len(),
        session.take_tool_outcomes(outcomes).conversation[session.state->assistant as int]
            == session.conversation[session.state->assistant as int],
        session.take_tool_outcomes(outcomes).state == if session.state->next + outcomes.len()
            < session.conversation[session.state->assistant as int].call_count() {
            StateView::ExecutingTools {
                assistant: session.state->assistant,
                next: session.state->next + outcomes.len(),
            }
        } else {
            StateView::AwaitingModel
        },
    decreases outcomes.len(),
{
    if outcomes.len() > 0 {
        outcomes_finish_the_turn(session, outcomes.drop_last());
        tool_outcome_keeps_protocol(
            session.take_tool_outcomes(outcomes.drop_last()),
            outcomes.last(),
        );
    }
}

/// A model that asks for tools in every turn is asked exactly
/// `MAX_ITERATIONS` times and never once more: after fewer turns the model
/// is asked again, and from the turn that would pass the cap on, entering it
/// fails the conversation with `MaxIterationsExceeded` and nothing is added.
pub proof fn always_asking_ends_at_the_cap(user_request: Seq<char>, turns: Seq<TurnView>)
    requires
        forall|i: int| 0 <= i < turns.len() ==> asks_for_tools(#[trigger] turns[i]),
    ensures
        SessionView::start(user_request).play_turns(turns).wf(),
        !(SessionView::start(user_request).play_turns(turns).state is Done),
        turns.len() < MAX_ITERATIONS ==> {
            &&& SessionView::start(user_request).play_turns(turns).may_ask()
            &&& SessionView::start(user_request).play_turns(turns).turns == turns.len()
        },
        turns.len() == MAX_ITERATIONS ==> {
            &&& SessionView::start(user_request).play_turns(turns).state is AwaitingModel
            &&& !SessionView::start(user_request).play_turns(turns).may_ask()
        },
        turns.len() >= MAX_ITERATIONS ==> {
            &&& SessionView::start(user_request).play_turns(turns).turns == MAX_ITERATIONS
            &&& SessionView::start(user_request).play_turns(turns).enter_turn().state == (
            StateView::Failed { error: ChatErrorView::MaxIterationsExceeded })
            &&& turn_count(SessionView::start(user_request).play_turns(turns).conversation, 2)
                == MAX_ITERATIONS
        },
        turns.len() > MAX_ITERATIONS ==> SessionView::start(user_request).play_turns(turns).state
            == (StateView::Failed { error: ChatErrorView::MaxIterationsExceeded }),
    decreases turns.len(),
{
    let start = SessionView::start(user_request);
    if turns.len() == 0 {
        start_keeps_protocol(user_request);
    } else {
        let earlier = turns.drop_last();
        let turn = turns.last();
        assert forall|i: int| 0 <= i < earlier.len() implies asks_for_tools(
            #[trigger] earlier[i],
        ) by {
            assert(earlier[i] == turns[i]);
        }
        always_asking_ends_at_the_cap(user_request, earlier);
        let before = start.play_turns(earlier);
        entering_keeps_protocol(before);
        let entered = before.enter_turn();
        reply_keeps_protocol(entered, Ok(turn.reply));
        let replied = entered.take_reply(Ok(turn.reply));
        if earlier.len() < MAX_ITERATIONS {
            assert(entered == before);
            assert(replied.conversation[before.conversation.len() as int] == turn.reply);
            outcomes_finish_the_turn(replied, turn.outcomes);
        } else {
            outcomes_need_a_turn(replied, turn.outcomes);
        }
    }
}

/// A conversation in which the model asks for tools every time it is asked,
/// and neither fails nor answers in plain text, ends with
/// `MaxIterationsExceeded` after the model was asked exactly `MAX_ITERATIONS`
/// times.
pub proof fn only_the_cap_ends_endless_asking(
    user_request: Seq<char>,
    turns: Seq<TurnView>,
    outcome: ChatOutcome,
)
    requires
        plays_out(user_request, turns, None, outcome),
    ensures
        turns.len() >= MAX_ITERATIONS,
        outcome.result is Err,
        outcome.result->Err_0@ is MaxIterationsExceeded,
        outcome.model_calls == MAX_ITERATIONS,
        turn_count(conversation_view(outcome.conversation@), 2) == MAX_ITERATIONS,
{
    always_asking_ends_at_the_cap(user_request, turns);
}

/// A running conversation.
pub struct Session {
    conversation: Vec<Message>,
    turns: usize,
    state: LoopState,
}

/// How a conversation ended.
#[derive(Debug)]
pub struct ChatOutcome {
    /// All messages, in the order in which they were said.
    pub conversation: Vec<Message>,
    /// How often the model was asked.
    pub model_calls: usize,
    /// The model's final answer, or why there is none.
    pub result: Result<String, ChatError>,
}

/// The view of a reply of the model.
pub open spec fn reply_view(reply: Result<Message, ModelError>) -> Result<
    MessageView,
    ModelErrorView,
> {
    match reply {
        Ok(message) => Ok(message@),
        Err(error) => Err(error@),
    }
}

impl View for Session {
    type V = SessionView;

    closed spec fn view(&self) -> SessionView {
        SessionView {
            conversation: conversation_view(self.conversation@),
            turns: self.turns as nat,
            state: self.state@,
        }
    }
}

impl Session {
    /// Starts a conversation about a request.
    pub fn start(user_request: &str) -> (session: Session)
        ensures
            session@ == SessionView::start(user_request@),
            session@.wf(),
    {
        proof {
            start_keeps_protocol(user_request@);
        }
        Session {
            conversation: build_initial_messages(user_request),
            turns: 0,
            state: LoopState::AwaitingModel,
        }
    }

    /// The messages so far.
    pub fn conversation(&self) -> (messages: &Vec<Message>)
        ensures
            conversation_view(messages@) == self@.conversation,
    {
        &self.conversation
    }

    /// How often the model was asked.
    pub fn turns(&self) -> (turns: usize)
        ensures
            turns == self@.turns,
    {
        self.turns
    }

    /// Whether the model is to be asked next.
    pub fn is_awaiting_model(&self) -> (awaiting: bool)
        ensures
            awaiting == (self@.state is AwaitingModel),
    {
        match &self.state {
            LoopState::AwaitingModel => true,
            _ => false,
        }
    }

    /// Whether tool invocations are being run.
    pub fn is_executing_tools(&self) -> (executing: bool)
        ensures
            executing == (self@.state is ExecutingTools),
    {
        match &self.state {
            LoopState::ExecutingTools { .. } => true,
            _ => false,
        }
    }

    /// Whether the conversation has ended.
    pub fn is_terminal(&self) -> (terminal: bool)
        ensures
            terminal == self@.is_terminal(),
    {
        match &self.state {
            LoopState::Done { .. } => true,
            LoopState::Failed { .. } => true,
            _ => false,
        }
    }

    /// Enters a turn and says whether the model is to be asked now.
    pub fn begin_turn(&mut self) -> (ask: bool)
        requires
            old(self)@.wf(),
        ensures
            final(self)@ == old(self)@.enter_turn(),
            final(self)@.wf(),
            ask == old(self)@.may_ask(),
    {
        proof {
            entering_keeps_protocol(self@);
        }
        match &self.state {
            LoopState::AwaitingModel => {
                if self.turns >= MAX_ITERATIONS {
                    self.state = LoopState::Failed { error: ChatError::MaxIterationsExceeded };
                    false
                } else {
                    true
                }
            },
            _ => false,
        }
    }

    /// Takes the model's reply.
    pub fn model_replied(&mut self, reply: Result<Message, ModelError>)
        requires
            old(self)@.wf(),
        ensures
            final(self)@ == old(self)@.take_reply(reply_view(reply)),
            final(self)@.wf(),
    {
        proof {
            reply_keeps_protocol(self@, reply_view(reply));
        }
        if !self.begin_turn() {
            return;
        }
        self.turns = self.turns + 1;
        match &self.state {
            LoopState::AwaitingModel => {
                match reply {
                    Err(ModelError::TransportFailure(text)) => {
                        self.state = LoopState::Failed { error: ChatError::TransportFailure(text) };
                    },
                    Err(ModelError::MalformedResponse(text)) => {
                        self.state = LoopState::Failed {
                            error: ChatError::MalformedResponse(text),
                        };
                    },
                    Ok(message) => {
                        let ghost before = conversation_view(self.conversation@);
                        let assistant = self.conversation.len();
                        if message.call_count() > 0 {
                            self.state = LoopState::ExecutingTools { assistant, next: 0 };
                        } else {
                            self.state = LoopState::Done {
                                answer: copy_text(message.content.as_str()),
                            };
                        }
                        self.conversation.push(message);
                        assert(conversation_view(self.conversation@) =~= before.push(message@));
                    },
                }
            },
            _ => {},
        }
    }

    /// The tool invocation that is to be run next, while tools are executed.
    pub fn current_call(&self) -> (call: Option<&ToolCall>)
        requires
            self@.wf(),
        ensures
            call is Some == (self@.state is ExecutingTools),
            call is Some ==> call->Some_0@ == self@.current_call(),
    {
        match &self.state {
            LoopState::ExecutingTools { assistant, next } => {
                let message = &self.conversation[*assistant];
                assert(message@ == self@.conversation[*assistant as int]);
                match &message.tool_calls {
                    Some(calls) => {
                        assert(tool_calls_view(calls@)[*next as int] == calls@[*next as int]@);
                        Some(&calls[*next])
                    },
                    None => None,
                }
            },
            _ => None,
        }
    }

    /// Takes the outcome of the tool invocation that was next.
    pub fn tool_finished(&mut self, outcome: Result<String, ToolError>)
        requires
            old(self)@.wf(),
        ensures
            final(self)@ == old(self)@.take_tool_outcome(outcome_view(outcome)),
            final(self)@.wf(),
    {
        proof {
            tool_outcome_keeps_protocol(self@, outcome_view(outcome));
        }
        let ghost before = conversation_view(self.conversation@);
        let planned = match self.current_call() {
            Some(call) => planned_search(call),
            None => Ok(String::new()),
        };
        let told = match planned {
            Err(e) => Err(e),
            Ok(_) => outcome,
        };
        let ghost shown = outcome_view(told);
        match &self.state {
            LoopState::ExecutingTools { assistant, next } => {
                let assistant: usize = *assistant;
                let next: usize = *next;
                let count = self.conversation[assistant].call_count();
                assert(self.conversation@[assistant as int]@ == before[assistant as int]);
                if next + 1 < count {
                    self.state = LoopState::ExecutingTools { assistant, next: next + 1 };
                } else {
                    self.state = LoopState::AwaitingModel;
                }
                self.conversation.push(build_tool_message(told));
                assert(conversation_view(self.conversation@) =~= before.push(tool_message(shown)));
            },
            _ => {},
        }
    }

    /// Ends a conversation that has reached a terminal state.
    pub fn finish(self) -> (outcome: ChatOutcome)
        requires
            self@.wf(),
            self@.is_terminal(),
        ensures
            shows(outcome, self@),
    {
        let Session { conversation, turns, state } = self;
        let result = match state {
            LoopState::Done { answer } => Ok(answer),
            LoopState::Failed { error } => Err(error),
            _ => Err(ChatError::MaxIterationsExceeded),
        };
        ChatOutcome { conversation, model_calls: turns, result }
    }
}

/// Runs a conversation about a request to its end: asks the model, runs the
/// tools it asks for, one tool message per invocation and in their order, and
/// asks again, at most `MAX_ITERATIONS` times.
///
/// The outcome is the one that the transitions of a conversation give for
/// the turns that were played: turns in which the model asked for tools and
/// every invocation was run, then a last step, which is the last reply of the
/// model or the entry into a turn at the cap.
///
/// Whatever the model and the search backend return, the conversation starts
/// with the system message and the request and goes on in complete tool
/// turns. An answer is the content of the last message, which carries no tool
/// invocation and follows the complete turns. Where the iteration cap is the
/// error, the model was asked `MAX_ITERATIONS` times and asked for tools each
/// time; where the model failed, its last call added nothing.
pub fn chat_with_tools<C: ModelClient, P: SearchProvider>(
    user_request: &str,
    client: &mut C,
    provider: &P,
    max_results: usize,
) -> (outcome: ChatOutcome)
    ensures
        conversation_view(outcome.conversation@).len() >= 2,
        exists|turns: Seq<TurnView>, ending: Option<Result<MessageView, ModelErrorView>>|
            #[trigger] plays_out(user_request@, turns, ending, outcome),
        conversation_view(outcome.conversation@).take(2) == initial_messages(user_request@),
        refusals_reported(conversation_view(outcome.conversation@)),
        1 <= outcome.model_calls <= MAX_ITERATIONS,
        outcome.result is Ok ==> {
            &&& conversation_view(outcome.conversation@).len() > 2
            &&& conversation_view(outcome.conversation@).last().call_count() == 0
            &&& conversation_view(outcome.conversation@).last().content == outcome.result->Ok_0@
            &&& complete_turns(conversation_view(outcome.conversation@).drop_last(), 2)
            &&& outcome.model_calls == turn_count(
                conversation_view(outcome.conversation@).drop_last(),
                2,
            ) + 1
        },
        outcome.result is Err ==> complete_turns(conversation_view(outcome.conversation@), 2),
        outcome.result is Err && outcome.result->Err_0@ is MaxIterationsExceeded ==> {
            &&& outcome.model_calls == MAX_ITERATIONS
            &&& turn_count(conversation_view(outcome.conversation@), 2) == MAX_ITERATIONS
        },
        outcome.result is Err && !(outcome.result->Err_0@ is MaxIterationsExceeded)
            ==> outcome.model_calls == turn_count(conversation_view(outcome.conversation@), 2)
            + 1,
{
    let tools = build_tool_definitions();
    let mut session = Session::start(user_request);
    let ghost start = SessionView::start(user_request@);
    let ghost mut played: Seq<TurnView> = Seq::empty();
    let ghost mut ending: Option<Result<MessageView, ModelErrorView>> = None;
    assert(session@.conversation.take(2) =~= initial_messages(user_request@));
    while session.is_awaiting_model()
        invariant
            declarations_view(tools@) == seq![web_search_declaration()],
            start == SessionView::start(user_request@),
            session@.wf(),
            session@.conversation.take(2) == initial_messages(user_request@),
            session@.state is AwaitingModel || session@.is_terminal(),
            session@.is_terminal() ==> session@.turns >= 1,
            forall|i: int| 0 <= i < played.len() ==> asks_for_tools(#[trigger] played[i]),
            session@.state is AwaitingModel ==> session@ == start.play_turns(played),
            session@.is_terminal() ==> session@ == start.play_turns(played).end_with(ending),
        decreases MAX_ITERATIONS + 1 - session@.turns - (if session@.is_terminal() {
                1nat
            } else {
                0nat
            }),
    {
        let ghost entered = session@;
        if session.begin_turn() {
            let reply = client.chat(session.conversation(), &tools);
            let ghost told = reply_view(reply);
            session.model_replied(reply);
            let ghost replied = session@;
            let ghost counted = session@.turns;
            let ghost mut outcomes: Seq<Result<Seq<char>, ToolErrorView>> = Seq::empty();
            assert(replied.conversation.take(2) =~= entered.conversation.take(2));
            proof {
                if !(replied.state is ExecutingTools) {
                    ending = Some(told);
                }
            }
            loop
                invariant
                    session@.wf(),
                    session@.turns == counted,
                    session@.conversation.take(2) == initial_messages(user_request@),
                    replied.wf(),
                    !(replied.state is ExecutingTools) ==> session@ == replied,
                    replied.state is ExecutingTools ==> {
                        &&& session@ == replied.take_tool_outcomes(outcomes)
                        &&& session@.conversation[replied.state->assistant as int]
                            == replied.conversation[replied.state->assistant as int]
                        &&& session@.state is ExecutingTools ==> session@.state == (
                        StateView::ExecutingTools {
                            assistant: replied.state->assistant,
                            next: outcomes.len(),
                        })
                        &&& !(session@.state is ExecutingTools) ==> session@.state is AwaitingModel
                            && outcomes.len() == replied.conversation[replied.state->assistant
                            as int].call_count()
                    },
                ensures
                    !(session@.state is ExecutingTools),
                decreases remaining_calls(session@),
            {
                let planned = session.current_call();
                if planned.is_none() {
                    break;
                }
                let output = execute_tool(planned.unwrap(), provider, max_results);
                let ghost earlier = session@.conversation;
                let ghost taken = outcomes;
                session.tool_finished(output);
                proof {
                    outcomes = taken.push(outcome_view(output));
                    assert(outcomes.drop_last() =~= taken);
                }
                assert(session@.conversation.take(2) =~= earlier.take(2));
            }
            proof {
                if replied.state is ExecutingTools {
                    let turn = TurnView { reply: told->Ok_0, outcomes };
                    let earlier = played;
                    played = earlier.push(turn);
                    assert(played.drop_last() =~= earlier);
                    assert(replied.conversation[replied.state->assistant as int] == told->Ok_0);
                }
            }
        }
    }
    let outcome = session.finish();
    assert(plays_out(user_request@, played, ending, outcome));
    outcome
}

/// How many tool invocations of the current turn are still to be run.
pub open spec fn remaining_calls(session: SessionView) -> nat {
    match session.state {
        StateView::ExecutingTools { assistant, next } => (
        session.conversation[assistant as int].call_count() - next) as nat,
        _ => 0,
    }
}

} // verus!
