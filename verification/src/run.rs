//! A whole turn against a completion client and a tool invoker that answer
//! on the spot.

use vstd::prelude::*;
use crate::catalog::{ToolDefinition, ToolError};
use crate::driver::{begin_spec, Action, Event, EventView, PhaseView, Response, Turn};
use crate::failure::{Failure, FailureView};
use crate::message::{message_views, Message, MessageView};
use crate::replay::{budget, replay};
use crate::request::{CompletionRequest, Settings};

verus! {

/// The completion backend, as the driver sees it.
pub trait CompletionClient {
    /// Answers one request with one or more content items, or fails.
    fn complete(&mut self, request: CompletionRequest) -> Result<Response, Failure>;
}

/// The remote tools, as the driver sees them.
pub trait ToolInvoker {
    /// Runs the tool of the given name on the given JSON arguments and
    /// hands back its answer as text, or says why there is none.
    fn invoke(&mut self, name: &String, arguments: &String) -> Result<String, ToolError>;
}

/// The events take turns, an outcome of a completion call first and then,
/// each time, the outcome of the other kind.
pub open spec fn in_turn(events: Seq<EventView>) -> bool {
    forall|i: int|
        0 <= i < events.len() ==> if i % 2 == 0 {
            (#[trigger] events[i]) is Completed || events[i] is CompletionFailed
        } else {
            events[i] is ToolReturned || events[i] is ToolFailed
        }
}

/// Whether a turn that began with `prompt` on the transcript `before`, and
/// was handed `events`, ended with `result` on the transcript `after`.
pub open spec fn ends_with(
    prompt: Seq<char>,
    limit: u64,
    before: Seq<MessageView>,
    events: Seq<EventView>,
    result: Result<Seq<char>, FailureView>,
    after: Seq<MessageView>,
) -> bool {
    let end = replay(begin_spec(prompt, limit), before, events);
    &&& in_turn(events)
    &&& events.len() <= 2 * limit + 1
    &&& end.1 == after
    &&& end.0.phase == match result {
        Ok(text) => PhaseView::Terminal { text },
        Err(failure) => PhaseView::Failed { failure },
    }
}

/// The views inside a result of [`run`].
pub open spec fn result_view(result: Result<String, Failure>) -> Result<Seq<char>, FailureView> {
    match result {
        Ok(text) => Ok(text@),
        Err(failure) => Err(failure@),
    }
}

/// Takes one turn from the user's prompt to its end: asks the client, runs
/// the tools that the model asks for, and feeds their answers and errors
/// back, until the model answers in text or the turn fails.
///
/// Whatever the client and the invoker gave, the result and the transcript
/// are those of the machine on the outcomes of the calls, in the order in
/// which they were made: `Ok` with the text if it ended in an answer, `Err`
/// with the failure else. No more than `limit` tools are run.
pub fn run<C: CompletionClient, I: ToolInvoker>(
    prompt: String,
    limit: u64,
    settings: &Settings,
    transcript: &mut Vec<Message>,
    tools: &Vec<ToolDefinition>,
    client: &mut C,
    invoker: &mut I,
) -> (result: Result<String, Failure>)
    ensures
        exists|events: Seq<EventView>| #[trigger]
            ends_with(
                prompt@,
                limit,
                message_views(old(transcript)@),
                events,
                result_view(result),
                message_views(final(transcript)@),
            ),
{
    let ghost asked = prompt@;
    let ghost start = begin_spec(asked, limit);
    let ghost before = message_views(transcript@);
    let ghost mut events: Seq<EventView> = Seq::empty();
    let mut turn = Turn::begin(prompt, limit);
    loop
        invariant
            asked == prompt@,
            start == begin_spec(asked, limit),
            before == message_views(old(transcript)@),
            replay(start, before, events) == (turn@, message_views(transcript@)),
            in_turn(events),
            turn.limit == limit,
            turn.rounds <= limit,
            events.len() + budget(turn@) <= 2 * limit + 1 || turn@.phase is Terminal
                || turn@.phase is Failed,
            events.len() <= 2 * limit + 1,
            turn@.phase is AwaitingCompletion ==> events.len() % 2 == 0,
            turn@.phase is AwaitingTool ==> events.len() % 2 == 1,
        decreases budget(turn@),
    {
        let event = match turn.action(settings, transcript, tools) {
            Action::Complete { request } => match client.complete(request) {
                Ok(response) => Event::Completed { response },
                Err(failure) => Event::CompletionFailed { failure },
            },
            Action::Invoke { name, arguments } => match invoker.invoke(&name, &arguments) {
                Ok(text) => Event::ToolReturned { text },
                Err(error) => Event::ToolFailed { error },
            },
            Action::Return { text } => {
                assert(ends_with(
                    asked,
                    limit,
                    before,
                    events,
                    Ok(text@),
                    message_views(transcript@),
                ));
                return Ok(text);
            },
            Action::Fail { failure } => {
                assert(ends_with(
                    asked,
                    limit,
                    before,
                    events,
                    Err(failure@),
                    message_views(transcript@),
                ));
                return Err(failure);
            },
        };
        proof {
            assert(events.push(event@).drop_last() =~= events);
            events = events.push(event@);
        }
        turn = turn.step(transcript, event);
    }
}

} // verus!
