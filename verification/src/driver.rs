//! The conversation driver: a state machine that takes one turn of a
//! conversation from the user's prompt to a plain-text answer.
//!
//! The machine does no outside work. [`Turn::action`] says what is due (a
//! completion call, a tool invocation, or the end of the turn) and
//! [`Turn::step`] takes the outcome of that work. Of a response with several
//! content items only the first is read; the others are dropped.

use vstd::prelude::*;
use vstd::string::*;
use crate::catalog::{definition_views, tool_error_text, ToolDefinition, ToolDefinitionView, ToolError, ToolErrorView};
use crate::failure::{Failure, FailureView};
use crate::message::{
    content_views, message_views, message_views_push, single, Content, ContentView, Message,
    MessageView, Role,
};
use crate::request::{build_request, request_for, CompletionRequest, CompletionRequestView, Settings, SettingsView};

verus! {

/// What the completion backend answered: one or more content items.
#[derive(Debug, PartialEq, Eq)]
pub struct Response {
    pub first: Content,
    pub rest: Vec<Content>,
}

impl View for Response {
    type V = Seq<ContentView>;

    open spec fn view(&self) -> Seq<ContentView> {
        seq![self.first@] + content_views(self.rest@)
    }
}

/// The outcome of the outside work that the machine asked for.
#[derive(Debug, PartialEq, Eq)]
pub enum Event {
    /// The completion backend answered.
    Completed { response: Response },
    /// The completion call failed.
    CompletionFailed { failure: Failure },
    /// The tool answered.
    ToolReturned { text: String },
    /// The tool invocation failed.
    ToolFailed { error: ToolError },
}

/// The mathematical value of an [`Event`].
pub enum EventView {
    Completed { content: Seq<ContentView> },
    CompletionFailed { failure: FailureView },
    ToolReturned { text: Seq<char> },
    ToolFailed { error: ToolErrorView },
}

impl View for Event {
    type V = EventView;

    open spec fn view(&self) -> EventView {
        match *self {
            Event::Completed { response } => EventView::Completed { content: response@ },
            Event::CompletionFailed { failure } => EventView::CompletionFailed { failure: failure@ },
            Event::ToolReturned { text } => EventView::ToolReturned { text: text@ },
            Event::ToolFailed { error } => EventView::ToolFailed { error: error@ },
        }
    }
}

/// Where a turn stands.
#[derive(Debug, PartialEq, Eq)]
pub enum Phase {
    /// A completion call with this pending message is due.
    AwaitingCompletion { pending: Message },
    /// The model asked for a tool; its invocation is due. The pending
    /// message is the one that the model answered with the call.
    AwaitingTool { pending: Message, id: String, name: String, arguments: String },
    /// The model answered in plain text: the turn is over.
    Terminal { text: String },
    /// The turn was given up.
    Failed { failure: Failure },
}

/// The mathematical value of a [`Phase`].
pub enum PhaseView {
    AwaitingCompletion { pending: MessageView },
    AwaitingTool { pending: MessageView, id: Seq<char>, name: Seq<char>, arguments: Seq<char> },
    Terminal { text: Seq<char> },
    Failed { failure: FailureView },
}

impl View for Phase {
    type V = PhaseView;

    open spec fn view(&self) -> PhaseView {
        match *self {
            Phase::AwaitingCompletion { pending } => PhaseView::AwaitingCompletion {
                pending: pending@,
            },
            Phase::AwaitingTool { pending, id, name, arguments } => PhaseView::AwaitingTool {
                pending: pending@,
                id: id@,
                name: name@,
                arguments: arguments@,
            },
            Phase::Terminal { text } => PhaseView::Terminal { text: text@ },
            Phase::Failed { failure } => PhaseView::Failed { failure: failure@ },
        }
    }
}

/// One turn of the conversation: its phase, the number of tool calls that
/// were accepted in it so far, and the most that it accepts.
#[derive(Debug, PartialEq, Eq)]
pub struct Turn {
    pub phase: Phase,
    pub rounds: u64,
    pub limit: u64,
}

/// The mathematical value of a [`Turn`].
pub struct TurnView {
    pub phase: PhaseView,
    pub rounds: u64,
    pub limit: u64,
}

impl View for Turn {
    type V = TurnView;

    open spec fn view(&self) -> TurnView {
        TurnView { phase: self.phase@, rounds: self.rounds, limit: self.limit }
    }
}

/// The outside work that is due, or the end of the turn.
#[derive(Debug, PartialEq, Eq)]
pub enum Action {
    /// Send this request to the completion backend.
    Complete { request: CompletionRequest },
    /// Invoke the tool of this name with these arguments.
    Invoke { name: String, arguments: String },
    /// Hand this answer to the user.
    Return { text: String },
    /// Report this failure.
    Fail { failure: Failure },
}

/// The mathematical value of an [`Action`].
pub enum ActionView {
    Complete { request: CompletionRequestView },
    Invoke { name: Seq<char>, arguments: Seq<char> },
    Return { text: Seq<char> },
    Fail { failure: FailureView },
}

impl View for Action {
    type V = ActionView;

    open spec fn view(&self) -> ActionView {
        match *self {
            Action::Complete { request } => ActionView::Complete { request: request@ },
            Action::Invoke { name, arguments } => ActionView::Invoke {
                name: name@,
                arguments: arguments@,
            },
            Action::Return { text } => ActionView::Return { text: text@ },
            Action::Fail { failure } => ActionView::Fail { failure: failure@ },
        }
    }
}

/// The detail of the failure for a response that opens with a tool result,
/// which only the user side may send.
pub open spec fn stray_result_detail() -> Seq<char> {
    "the completion backend answered with a tool result"@
}

/// The detail of the failure for an event that the turn was not waiting for.
pub open spec fn out_of_turn_detail() -> Seq<char> {
    "the event does not answer the action that was due"@
}

/// The turn that a prompt opens: a completion call is due, with the prompt
/// as the user's message, and no tool call was made yet.
pub open spec fn begin_spec(prompt: Seq<char>, limit: u64) -> TurnView {
    TurnView {
        phase: PhaseView::AwaitingCompletion {
            pending: single(Role::User, ContentView::Text { text: prompt }),
        },
        rounds: 0,
        limit,
    }
}

/// The turn as it ends with the given failure.
pub open spec fn failed(turn: TurnView, failure: FailureView) -> TurnView {
    TurnView { phase: PhaseView::Failed { failure }, rounds: turn.rounds, limit: turn.limit }
}

/// What the backend's answer does to a turn that waits for it, by the first
/// content item of the answer.
///
/// Text ends the turn: the pending message and the answer join the
/// transcript. A tool call within the limit makes the invocation due and
/// leaves the transcript alone; one beyond it ends the turn with a failure.
/// A tool result cannot come from the backend and ends the turn too.
pub open spec fn on_completed(
    turn: TurnView,
    pending: MessageView,
    transcript: Seq<MessageView>,
    first: ContentView,
) -> (TurnView, Seq<MessageView>) {
    match first {
        ContentView::Text { text } => (
            TurnView { phase: PhaseView::Terminal { text }, rounds: turn.rounds, limit: turn.limit },
            transcript.push(pending).push(single(Role::Assistant, ContentView::Text { text })),
        ),
        ContentView::ToolCall { id, name, arguments } => if turn.rounds >= turn.limit {
            (failed(turn, FailureView::ToolLoopExceeded { limit: turn.limit }), transcript)
        } else {
            (
                TurnView {
                    phase: PhaseView::AwaitingTool { pending, id, name, arguments },
                    rounds: (turn.rounds + 1) as u64,
                    limit: turn.limit,
                },
                transcript,
            )
        },
        ContentView::ToolResult { id, text } => (
            failed(turn, FailureView::Protocol { detail: stray_result_detail() }),
            transcript,
        ),
    }
}

/// What a tool's answer, or the text of its error, does to a turn that
/// waits for it: the pending message and the call join the transcript, and
/// the text becomes the next pending message, under the call's id.
pub open spec fn on_tool_text(
    turn: TurnView,
    pending: MessageView,
    id: Seq<char>,
    name: Seq<char>,
    arguments: Seq<char>,
    transcript: Seq<MessageView>,
    text: Seq<char>,
) -> (TurnView, Seq<MessageView>) {
    (
        TurnView {
            phase: PhaseView::AwaitingCompletion {
                pending: single(Role::User, ContentView::ToolResult { id, text }),
            },
            rounds: turn.rounds,
            limit: turn.limit,
        },
        transcript.push(pending).push(
            single(Role::Assistant, ContentView::ToolCall { id, name, arguments }),
        ),
    )
}

/// The transition function of the machine: the turn and the transcript
/// after an event.
///
/// A failed completion call ends the turn with that failure. A failed tool
/// invocation does not: the text of its error stands in for the tool's
/// answer. A turn that is over takes no more events, and an event that the
/// turn was not waiting for ends it. The transcript only ever grows, and
/// only by whole pairs.
pub open spec fn step_spec(turn: TurnView, transcript: Seq<MessageView>, event: EventView) -> (
    TurnView,
    Seq<MessageView>,
) {
    match turn.phase {
        PhaseView::AwaitingCompletion { pending } => match event {
            EventView::Completed { content } => on_completed(turn, pending, transcript, content[0]),
            EventView::CompletionFailed { failure } => (failed(turn, failure), transcript),
            _ => (failed(turn, FailureView::Protocol { detail: out_of_turn_detail() }), transcript),
        },
        PhaseView::AwaitingTool { pending, id, name, arguments } => match event {
            EventView::ToolReturned { text } => on_tool_text(
                turn,
                pending,
                id,
                name,
                arguments,
                transcript,
                text,
            ),
            EventView::ToolFailed { error } => on_tool_text(
                turn,
                pending,
                id,
                name,
                arguments,
                transcript,
                tool_error_text(error),
            ),
            _ => (failed(turn, FailureView::Protocol { detail: out_of_turn_detail() }), transcript),
        },
        _ => (turn, transcript),
    }
}

/// The work that is due in a turn.
pub open spec fn action_spec(
    turn: TurnView,
    settings: SettingsView,
    transcript: Seq<MessageView>,
    tools: Seq<ToolDefinitionView>,
) -> ActionView {
    match turn.phase {
        PhaseView::AwaitingCompletion { pending } => ActionView::Complete {
            request: request_for(settings, transcript, pending, tools),
        },
        PhaseView::AwaitingTool { pending, id, name, arguments } => ActionView::Invoke {
            name,
            arguments,
        },
        PhaseView::Terminal { text } => ActionView::Return { text },
        PhaseView::Failed { failure } => ActionView::Fail { failure },
    }
}

impl Turn {
    /// Opens a turn with the user's prompt. The turn accepts at most `limit`
    /// tool calls.
    pub fn begin(prompt: String, limit: u64) -> (turn: Turn)
        ensures
            turn@ == begin_spec(prompt@, limit),
    {
        Turn { phase: Phase::AwaitingCompletion { pending: Message::user(prompt) }, rounds: 0, limit }
    }

    /// Whether the turn is over, with an answer or with a failure.
    pub fn is_over(&self) -> (over: bool)
        ensures
            over == (self@.phase is Terminal || self@.phase is Failed),
    {
        match &self.phase {
            Phase::Terminal { .. } => true,
            Phase::Failed { .. } => true,
            _ => false,
        }
    }

    /// The work that is due: a completion request built from the pending
    /// message, the transcript and the catalog; the invocation of a tool with
    /// the name and the arguments exactly as the model gave them; or the end
    /// of the turn.
    pub fn action(
        &self,
        settings: &Settings,
        transcript: &Vec<Message>,
        tools: &Vec<ToolDefinition>,
    ) -> (action: Action)
        ensures
            action@ == action_spec(
                self@,
                settings@,
                message_views(transcript@),
                definition_views(tools@),
            ),
    {
        match &self.phase {
            Phase::AwaitingCompletion { pending } => Action::Complete {
                request: build_request(settings, transcript, pending, tools),
            },
            Phase::AwaitingTool { pending, id, name, arguments } => Action::Invoke {
                name: name.clone(),
                arguments: arguments.clone(),
            },
            Phase::Terminal { text } => Action::Return { text: text.clone() },
            Phase::Failed { failure } => Action::Fail { failure: failure.clone() },
        }
    }

    /// Takes the outcome of the work that was due and moves the turn on.
    pub fn step(self, transcript: &mut Vec<Message>, event: Event) -> (next: Turn)
        ensures
            (next@, message_views(final(transcript)@)) == step_spec(
                self@,
                message_views(old(transcript)@),
                event@,
            ),
    {
        let Turn { phase, rounds, limit } = self;
        match phase {
            Phase::AwaitingCompletion { pending } => match event {
                Event::Completed { response } => {
                    assert(response@[0] == response.first@);
                    match response.first {
                        Content::Text { text } => {
                            let answer = Message::assistant(text.clone());
                            proof {
                                message_views_push(transcript@, pending);
                                message_views_push(transcript@.push(pending), answer);
                            }
                            transcript.push(pending);
                            transcript.push(answer);
                            Turn { phase: Phase::Terminal { text }, rounds, limit }
                        },
                        Content::ToolCall { id, name, arguments } => {
                            if rounds >= limit {
                                Turn {
                                    phase: Phase::Failed {
                                        failure: Failure::ToolLoopExceeded { limit },
                                    },
                                    rounds,
                                    limit,
                                }
                            } else {
                                Turn {
                                    phase: Phase::AwaitingTool { pending, id, name, arguments },
                                    rounds: rounds + 1,
                                    limit,
                                }
                            }
                        },
                        Content::ToolResult { .. } => Turn {
                            phase: Phase::Failed {
                                failure: Failure::Protocol {
                                    detail: String::from_str(
                                        "the completion backend answered with a tool result",
                                    ),
                                },
                            },
                            rounds,
                            limit,
                        },
                    }
                },
                Event::CompletionFailed { failure } => Turn {
                    phase: Phase::Failed { failure },
                    rounds,
                    limit,
                },
                _ => Turn { phase: Phase::Failed { failure: out_of_turn() }, rounds, limit },
            },
            Phase::AwaitingTool { pending, id, name, arguments } => {
                let text = match event {
                    Event::ToolReturned { text } => Some(text),
                    Event::ToolFailed { error } => Some(error.message()),
                    _ => None,
                };
                match text {
                    Some(text) => {
                        let call = Message::tool_call(id.clone(), name, arguments);
                        proof {
                            message_views_push(transcript@, pending);
                            message_views_push(transcript@.push(pending), call);
                        }
                        transcript.push(pending);
                        transcript.push(call);
                        Turn {
                            phase: Phase::AwaitingCompletion {
                                pending: Message::tool_result(id, text),
                            },
                            rounds,
                            limit,
                        }
                    },
                    None => Turn {
                        phase: Phase::Failed { failure: out_of_turn() },
                        rounds,
                        limit,
                    },
                }
            },
            Phase::Terminal { text } => Turn { phase: Phase::Terminal { text }, rounds, limit },
            Phase::Failed { failure } => Turn { phase: Phase::Failed { failure }, rounds, limit },
        }
    }
}

/// The failure for an event that the turn was not waiting for.
fn out_of_turn() -> (failure: Failure)
    ensures
        failure@ == (FailureView::Protocol { detail: out_of_turn_detail() }),
{
    Failure::Protocol {
        detail: String::from_str("the event does not answer the action that was due"),
    }
}

} // verus!
