//! The machine over whole sequences of events, and what holds of the
//! transcript that such a sequence leaves behind.

use vstd::prelude::*;
use crate::catalog::{tool_error_text, ToolDefinitionView, ToolErrorView};
use crate::driver::{
    action_spec, begin_spec, step_spec, ActionView, EventView, PhaseView, TurnView,
};
use crate::message::{single, ContentView, MessageView, Role};
use crate::failure::FailureView;
use crate::request::{request_for, CompletionRequestView, SettingsView};

verus! {

/// The turn and the transcript after the given events, taken in order.
pub open spec fn replay(turn: TurnView, transcript: Seq<MessageView>, events: Seq<EventView>) -> (
    TurnView,
    Seq<MessageView>,
)
    decreases events.len(),
{
    if events.len() == 0 {
        (turn, transcript)
    } else {
        let before = replay(turn, transcript, events.drop_last());
        step_spec(before.0, before.1, events.last())
    }
}

/// How many more events a turn can take at most before it is over.
pub open spec fn budget(turn: TurnView) -> nat {
    let left: nat = if turn.rounds < turn.limit {
        (turn.limit - turn.rounds) as nat
    } else {
        0
    };
    match turn.phase {
        PhaseView::AwaitingCompletion { pending } => 2 * left + 1,
        PhaseView::AwaitingTool { pending, id, name, arguments } => 2 * left + 2,
        _ => 0,
    }
}

/// Every event brings a turn that is not over closer to its end.
pub proof fn step_spends_budget(turn: TurnView, transcript: Seq<MessageView>, event: EventView)
    requires
        budget(turn) > 0,
    ensures
        budget(step_spec(turn, transcript, event).0) < budget(turn),
{
}

/// The id of the tool call that a message opens with, if it opens with one.
pub open spec fn call_id(m: MessageView) -> Option<Seq<char>> {
    if m.content.len() > 0 {
        match m.content[0] {
            ContentView::ToolCall { id, name, arguments } => Some(id),
            _ => None,
        }
    } else {
        None
    }
}

/// The id of the tool result that a message opens with, if it opens with one.
pub open spec fn result_id(m: MessageView) -> Option<Seq<char>> {
    if m.content.len() > 0 {
        match m.content[0] {
            ContentView::ToolResult { id, text } => Some(id),
            _ => None,
        }
    } else {
        None
    }
}

/// From `start` on, the messages are written by the user and the assistant
/// in turn, the user first.
pub open spec fn alternates_from(t: Seq<MessageView>, start: int) -> bool {
    forall|i: int|
        start <= i < t.len() ==> (#[trigger] t[i]).role == if (i - start) % 2 == 0 {
            Role::User
        } else {
            Role::Assistant
        }
}

/// From `start` on, every message that opens with a tool call is directly
/// followed by one that opens with the result of the same id.
pub open spec fn calls_answered_from(t: Seq<MessageView>, start: int) -> bool {
    forall|i: int|
        start <= i < t.len() && call_id(#[trigger] t[i]) is Some ==> i + 1 < t.len() && result_id(
            t[i + 1],
        ) == call_id(t[i])
}

/// As [`calls_answered_from`], but the answer to a call in the last message
/// is the pending message, which has not joined the transcript yet.
pub open spec fn calls_answered_with(t: Seq<MessageView>, start: int, pending: MessageView) -> bool {
    forall|i: int|
        start <= i < t.len() && call_id(#[trigger] t[i]) is Some ==> result_id(
            if i + 1 < t.len() {
                t[i + 1]
            } else {
                pending
            },
        ) == call_id(t[i])
}

/// The event is an answer of the backend that opens with a tool call.
pub open spec fn asks_for_tool(e: EventView) -> bool {
    e matches EventView::Completed { content } && content[0] is ToolCall
}

/// The event is the outcome of a tool invocation, an answer or an error.
pub open spec fn is_tool_outcome(e: EventView) -> bool {
    e is ToolReturned || e is ToolFailed
}

/// The events are `n` tool round trips: a tool call of the backend and the
/// outcome of the invocation, `n` times over.
pub open spec fn round_trips(events: Seq<EventView>, n: nat) -> bool {
    &&& events.len() == 2 * n
    &&& forall|i: int|
        0 <= i < events.len() ==> if i % 2 == 0 {
            asks_for_tool(#[trigger] events[i])
        } else {
            is_tool_outcome(events[i])
        }
}

/// A backend answer that opens with text ends the turn with exactly that
/// text, and the transcript grows by exactly one pair: the pending message
/// and the assistant's answer.
pub proof fn text_ends_turn(
    turn: TurnView,
    pending: MessageView,
    transcript: Seq<MessageView>,
    content: Seq<ContentView>,
    text: Seq<char>,
)
    requires
        turn.phase == (PhaseView::AwaitingCompletion { pending }),
        content[0] == (ContentView::Text { text }),
    ensures
        ({
            let after = step_spec(turn, transcript, EventView::Completed { content });
            &&& after.0.phase == PhaseView::Terminal { text }
            &&& after.1.len() == transcript.len() + 2
            &&& after.1 == transcript + seq![
                pending,
                single(Role::Assistant, ContentView::Text { text }),
            ]
        }),
{
    let after = step_spec(turn, transcript, EventView::Completed { content });
    assert(after.1 =~= transcript + seq![
        pending,
        single(Role::Assistant, ContentView::Text { text }),
    ]);
}

/// The text that a tool outcome hands to the model: the tool's answer, or
/// the text of its error.
pub open spec fn outcome_text(e: EventView) -> Seq<char> {
    match e {
        EventView::ToolReturned { text } => text,
        EventView::ToolFailed { error } => tool_error_text(error),
        _ => Seq::empty(),
    }
}

/// A backend answer that opens with a tool call, within the limit, makes
/// the invocation of exactly that tool with exactly those arguments due.
/// Whatever the invocation gives, answer or error, the turn goes on: the
/// text becomes the next pending message, a tool result under the call's
/// id, and the request that is due next carries it.
pub proof fn tool_call_round_trip(
    turn: TurnView,
    pending: MessageView,
    transcript: Seq<MessageView>,
    content: Seq<ContentView>,
    id: Seq<char>,
    name: Seq<char>,
    arguments: Seq<char>,
    outcome: EventView,
    settings: SettingsView,
    tools: Seq<ToolDefinitionView>,
)
    requires
        turn.phase == (PhaseView::AwaitingCompletion { pending }),
        turn.rounds < turn.limit,
        content[0] == (ContentView::ToolCall { id, name, arguments }),
        is_tool_outcome(outcome),
    ensures
        ({
            let asked = step_spec(turn, transcript, EventView::Completed { content });
            let told = step_spec(asked.0, asked.1, outcome);
            let next = single(
                Role::User,
                ContentView::ToolResult { id, text: outcome_text(outcome) },
            );
            &&& asked.1 == transcript
            &&& action_spec(asked.0, settings, asked.1, tools) == ActionView::Invoke {
                name,
                arguments,
            }
            &&& told.0.phase == PhaseView::AwaitingCompletion { pending: next }
            &&& told.1 == transcript + seq![
                pending,
                single(Role::Assistant, ContentView::ToolCall { id, name, arguments }),
            ]
            &&& action_spec(told.0, settings, told.1, tools) matches ActionView::Complete {
                request,
            } && request.new_message == next && request.history == told.1
        }),
{
    let asked = step_spec(turn, transcript, EventView::Completed { content });
    let told = step_spec(asked.0, asked.1, outcome);
    assert(told.1 =~= transcript + seq![
        pending,
        single(Role::Assistant, ContentView::ToolCall { id, name, arguments }),
    ]);
}

/// A tool of an unknown name does not end the turn: the text of that error
/// goes to the model as the result of the call.
pub proof fn unknown_tool_is_forwarded(
    turn: TurnView,
    pending: MessageView,
    id: Seq<char>,
    name: Seq<char>,
    arguments: Seq<char>,
    transcript: Seq<MessageView>,
)
    requires
        turn.phase == (PhaseView::AwaitingTool { pending, id, name, arguments }),
    ensures
        ({
            let error = ToolErrorView::UnknownTool { name };
            let after = step_spec(turn, transcript, EventView::ToolFailed { error });
            after.0.phase == PhaseView::AwaitingCompletion {
                pending: single(
                    Role::User,
                    ContentView::ToolResult { id, text: "ToolNotFoundError: "@ + name },
                ),
            }
        }),
{
}

/// A failed completion call ends the turn with that failure and leaves the
/// transcript as it was.
pub proof fn completion_failure_keeps_transcript(
    turn: TurnView,
    transcript: Seq<MessageView>,
    event: EventView,
)
    requires
        turn.phase is AwaitingCompletion,
        event is CompletionFailed,
    ensures
        step_spec(turn, transcript, event).1 == transcript,
        step_spec(turn, transcript, event).0.phase == (PhaseView::Failed {
            failure: event->failure,
        }),
{
}

/// A turn ends with an answer only on a backend answer that opens with
/// text, and the answer is that text.
pub proof fn answer_is_backend_text(
    turn: TurnView,
    transcript: Seq<MessageView>,
    event: EventView,
    text: Seq<char>,
)
    requires
        !(turn.phase is Terminal),
        step_spec(turn, transcript, event).0.phase == (PhaseView::Terminal { text }),
    ensures
        turn.phase is AwaitingCompletion,
        event matches EventView::Completed { content } && content[0] == (ContentView::Text {
            text,
        }),
{
}

/// No event ever shortens or rewrites the transcript: what it held stays,
/// in place, and it grows by nothing or by one pair.
pub proof fn transcript_is_append_only(
    turn: TurnView,
    transcript: Seq<MessageView>,
    event: EventView,
)
    ensures
        ({
            let after = step_spec(turn, transcript, event).1;
            &&& after.len() == transcript.len() || after.len() == transcript.len() + 2
            &&& after.subrange(0, transcript.len() as int) == transcript
        }),
{
    let after = step_spec(turn, transcript, event).1;
    assert(after.subrange(0, transcript.len() as int) =~= transcript);
}

/// Tool round trips within the limit keep the turn waiting for the backend
/// and keep the transcript linked: it grows by one pair per round trip, in
/// alternating order, and every call is answered, the last one by the
/// pending message.
pub proof fn round_trips_keep_linked(
    turn: TurnView,
    transcript: Seq<MessageView>,
    events: Seq<EventView>,
    n: nat,
)
    requires
        turn.phase is AwaitingCompletion,
        turn.phase->AwaitingCompletion_pending.role == Role::User,
        call_id(turn.phase->AwaitingCompletion_pending) is None,
        turn.rounds + n <= turn.limit,
        round_trips(events, n),
    ensures
        ({
            let after = replay(turn, transcript, events);
            let start = transcript.len() as int;
            &&& after.0.phase is AwaitingCompletion
            &&& after.0.phase->AwaitingCompletion_pending.role == Role::User
            &&& call_id(after.0.phase->AwaitingCompletion_pending) is None
            &&& after.0.rounds == turn.rounds + n
            &&& after.0.limit == turn.limit
            &&& after.1.len() == transcript.len() + 2 * n
            &&& after.1.subrange(0, start) == transcript
            &&& alternates_from(after.1, start)
            &&& calls_answered_with(after.1, start, after.0.phase->AwaitingCompletion_pending)
        }),
    decreases n,
{
    let start = transcript.len() as int;
    if n == 0 {
        assert(events.len() == 0);
        assert(transcript.subrange(0, start) =~= transcript);
    } else {
        let m = (n - 1) as nat;
        let ask = events[2 * (m as int)];
        let outcome = events[2 * (m as int) + 1];
        let head = events.drop_last().drop_last();
        assert(round_trips(head, m)) by {
            assert forall|i: int| 0 <= i < head.len() implies if i % 2 == 0 {
                asks_for_tool(#[trigger] head[i])
            } else {
                is_tool_outcome(head[i])
            } by {
                assert(head[i] == events[i]);
            }
        }
        round_trips_keep_linked(turn, transcript, head, m);
        let s0 = replay(turn, transcript, head);
        assert(events.drop_last().last() == ask);
        assert(events.last() == outcome);
        assert(asks_for_tool(ask));
        assert(is_tool_outcome(outcome));
        let s1 = step_spec(s0.0, s0.1, ask);
        assert(replay(turn, transcript, events.drop_last()) == s1);
        let s2 = step_spec(s1.0, s1.1, outcome);
        assert(replay(turn, transcript, events) == s2);
        let p = s0.0.phase->AwaitingCompletion_pending;
        assert(s1.1 == s0.1);
        assert(s2.1.len() == s0.1.len() + 2);
        assert(s2.1[s0.1.len() as int] == p);
        assert(s2.1.subrange(0, start) =~= s0.1.subrange(0, start));
        assert forall|i: int| 0 <= i < s0.1.len() implies s2.1[i] == s0.1[i] by {}
        assert(alternates_from(s2.1, start)) by {
            assert forall|i: int| start <= i < s2.1.len() implies (#[trigger] s2.1[i]).role == if (i
                - start) % 2 == 0 {
                Role::User
            } else {
                Role::Assistant
            } by {
                if i < s0.1.len() {
                    assert(s2.1[i] == s0.1[i]);
                }
            }
        }
        let q = s2.0.phase->AwaitingCompletion_pending;
        assert(calls_answered_with(s2.1, start, q)) by {
            assert forall|i: int|
                start <= i < s2.1.len() && call_id(#[trigger] s2.1[i]) is Some implies result_id(
                if i + 1 < s2.1.len() {
                    s2.1[i + 1]
                } else {
                    q
                },
            ) == call_id(s2.1[i]) by {
                if i < s0.1.len() {
                    assert(s2.1[i] == s0.1[i]);
                    if i + 1 < s0.1.len() {
                        assert(s2.1[i + 1] == s0.1[i + 1]);
                    }
                }
            }
        }
    }
}

/// After exactly `n` tool round trips and a final answer in text, a turn
/// that began with a prompt has ended with that text, and the transcript
/// has grown by exactly `2n + 2` messages: they alternate between user and
/// assistant, the user first, and every tool call among them is directly
/// followed by the result of the same id. What the transcript held before
/// is untouched.
pub proof fn transcript_after_round_trips(
    prompt: Seq<char>,
    limit: u64,
    transcript: Seq<MessageView>,
    events: Seq<EventView>,
    n: nat,
    answer: Seq<char>,
)
    requires
        n <= limit,
        events.len() == 2 * n + 1,
        round_trips(events.drop_last(), n),
        events.last() matches EventView::Completed { content } && content[0] == (ContentView::Text {
            text: answer,
        }),
    ensures
        ({
            let after = replay(begin_spec(prompt, limit), transcript, events);
            let start = transcript.len() as int;
            &&& after.0.phase == PhaseView::Terminal { text: answer }
            &&& after.1.len() == transcript.len() + 2 * n + 2
            &&& after.1.subrange(0, start) == transcript
            &&& alternates_from(after.1, start)
            &&& calls_answered_from(after.1, start)
        }),
{
    let start = transcript.len() as int;
    let turn = begin_spec(prompt, limit);
    round_trips_keep_linked(turn, transcript, events.drop_last(), n);
    let s0 = replay(turn, transcript, events.drop_last());
    let s1 = step_spec(s0.0, s0.1, events.last());
    assert(replay(turn, transcript, events) == s1);
    assert(s1.1.subrange(0, start) =~= s0.1.subrange(0, start));
    assert forall|i: int| 0 <= i < s0.1.len() implies s1.1[i] == s0.1[i] by {}
    assert(alternates_from(s1.1, start)) by {
        assert forall|i: int| start <= i < s1.1.len() implies (#[trigger] s1.1[i]).role == if (i
            - start) % 2 == 0 {
            Role::User
        } else {
            Role::Assistant
        } by {
            if i < s0.1.len() {
                assert(s1.1[i] == s0.1[i]);
            }
        }
    }
    assert(calls_answered_from(s1.1, start)) by {
        assert forall|i: int|
            start <= i < s1.1.len() && call_id(#[trigger] s1.1[i]) is Some implies i + 1
            < s1.1.len() && result_id(s1.1[i + 1]) == call_id(s1.1[i]) by {
            if i < s0.1.len() {
                assert(s1.1[i] == s0.1[i]);
                if i + 1 < s0.1.len() {
                    assert(s1.1[i + 1] == s0.1[i + 1]);
                }
            }
        }
    }
}

/// The outcome of the work that is due, as a pure client and a pure
/// invoker give it; none where the turn is over and no work is due.
pub open spec fn answer_to(
    action: ActionView,
    client: spec_fn(CompletionRequestView) -> Result<Seq<ContentView>, FailureView>,
    invoker: spec_fn(Seq<char>, Seq<char>) -> Result<Seq<char>, ToolErrorView>,
) -> Option<EventView> {
    match action {
        ActionView::Complete { request } => Some(
            match client(request) {
                Ok(content) => EventView::Completed { content },
                Err(failure) => EventView::CompletionFailed { failure },
            },
        ),
        ActionView::Invoke { name, arguments } => Some(
            match invoker(name, arguments) {
                Ok(text) => EventView::ToolReturned { text },
                Err(error) => EventView::ToolFailed { error },
            },
        ),
        _ => None,
    }
}

/// A turn taken to its end against a client and an invoker whose answers
/// depend on what they are asked alone.
pub open spec fn drive(
    client: spec_fn(CompletionRequestView) -> Result<Seq<ContentView>, FailureView>,
    invoker: spec_fn(Seq<char>, Seq<char>) -> Result<Seq<char>, ToolErrorView>,
    settings: SettingsView,
    tools: Seq<ToolDefinitionView>,
    turn: TurnView,
    transcript: Seq<MessageView>,
) -> (TurnView, Seq<MessageView>)
    decreases budget(turn),
{
    match answer_to(action_spec(turn, settings, transcript, tools), client, invoker) {
        Some(event) => {
            let next = step_spec(turn, transcript, event);
            drive(client, invoker, settings, tools, next.0, next.1)
        },
        None => (turn, transcript),
    }
}

/// Where the client answers the first request of a turn with text, the
/// turn ends with exactly that text, and the transcript has grown by exactly
/// one pair: the prompt and the answer.
pub proof fn drive_returns_text(
    client: spec_fn(CompletionRequestView) -> Result<Seq<ContentView>, FailureView>,
    invoker: spec_fn(Seq<char>, Seq<char>) -> Result<Seq<char>, ToolErrorView>,
    settings: SettingsView,
    tools: Seq<ToolDefinitionView>,
    prompt: Seq<char>,
    limit: u64,
    transcript: Seq<MessageView>,
    text: Seq<char>,
)
    requires
        ({
            let asked = single(Role::User, ContentView::Text { text: prompt });
            client(request_for(settings, transcript, asked, tools)) matches Ok(content)
                && content[0] == (ContentView::Text { text })
        }),
    ensures
        ({
            let end = drive(client, invoker, settings, tools, begin_spec(prompt, limit), transcript);
            &&& end.0.phase == PhaseView::Terminal { text }
            &&& end.1 == transcript + seq![
                single(Role::User, ContentView::Text { text: prompt }),
                single(Role::Assistant, ContentView::Text { text }),
            ]
        }),
{
    let turn = begin_spec(prompt, limit);
    let asked = single(Role::User, ContentView::Text { text: prompt });
    let content = client(request_for(settings, transcript, asked, tools))->Ok_0;
    let next = step_spec(turn, transcript, EventView::Completed { content });
    text_ends_turn(turn, asked, transcript, content, text);
    assert(drive(client, invoker, settings, tools, turn, transcript) == drive(
        client,
        invoker,
        settings,
        tools,
        next.0,
        next.1,
    ));
    assert(drive(client, invoker, settings, tools, next.0, next.1) == next);
}

/// A conversation: one turn per prompt, each on the transcript that the
/// turns before it left. The result holds the phase in which each turn
/// ended, in order, and the transcript after the last.
pub open spec fn converse(
    client: spec_fn(CompletionRequestView) -> Result<Seq<ContentView>, FailureView>,
    invoker: spec_fn(Seq<char>, Seq<char>) -> Result<Seq<char>, ToolErrorView>,
    settings: SettingsView,
    tools: Seq<ToolDefinitionView>,
    limit: u64,
    prompts: Seq<Seq<char>>,
    transcript: Seq<MessageView>,
) -> (Seq<PhaseView>, Seq<MessageView>)
    decreases prompts.len(),
{
    if prompts.len() == 0 {
        (Seq::empty(), transcript)
    } else {
        let before = converse(
            client,
            invoker,
            settings,
            tools,
            limit,
            prompts.drop_last(),
            transcript,
        );
        let end = drive(
            client,
            invoker,
            settings,
            tools,
            begin_spec(prompts.last(), limit),
            before.1,
        );
        (before.0.push(end.0.phase), end.1)
    }
}

/// A turn depends on the client and the invoker through their answers
/// alone: two clients that answer every request alike, and two invokers
/// that answer every call alike, lead the same turn to the same end and the
/// same transcript.
pub proof fn drive_is_determined(
    client: spec_fn(CompletionRequestView) -> Result<Seq<ContentView>, FailureView>,
    invoker: spec_fn(Seq<char>, Seq<char>) -> Result<Seq<char>, ToolErrorView>,
    other_client: spec_fn(CompletionRequestView) -> Result<Seq<ContentView>, FailureView>,
    other_invoker: spec_fn(Seq<char>, Seq<char>) -> Result<Seq<char>, ToolErrorView>,
    settings: SettingsView,
    tools: Seq<ToolDefinitionView>,
    turn: TurnView,
    transcript: Seq<MessageView>,
)
    requires
        forall|request: CompletionRequestView| #[trigger] client(request) == other_client(request),
        forall|name: Seq<char>, arguments: Seq<char>| #[trigger]
            invoker(name, arguments) == other_invoker(name, arguments),
    ensures
        drive(client, invoker, settings, tools, turn, transcript) == drive(
            other_client,
            other_invoker,
            settings,
            tools,
            turn,
            transcript,
        ),
    decreases budget(turn),
{
    if let Some(event) = answer_to(
        action_spec(turn, settings, transcript, tools),
        client,
        invoker,
    ) {
        let next = step_spec(turn, transcript, event);
        drive_is_determined(
            client,
            invoker,
            other_client,
            other_invoker,
            settings,
            tools,
            next.0,
            next.1,
        );
    }
}

/// Replaying a sequence of prompts reproduces the conversation: against
/// clients and invokers that answer alike, on the same transcript to begin
/// with, the same prompts give the same answers and the same transcript.
pub proof fn converse_is_determined(
    client: spec_fn(CompletionRequestView) -> Result<Seq<ContentView>, FailureView>,
    invoker: spec_fn(Seq<char>, Seq<char>) -> Result<Seq<char>, ToolErrorView>,
    other_client: spec_fn(CompletionRequestView) -> Result<Seq<ContentView>, FailureView>,
    other_invoker: spec_fn(Seq<char>, Seq<char>) -> Result<Seq<char>, ToolErrorView>,
    settings: SettingsView,
    tools: Seq<ToolDefinitionView>,
    limit: u64,
    prompts: Seq<Seq<char>>,
    transcript: Seq<MessageView>,
)
    requires
        forall|request: CompletionRequestView| #[trigger] client(request) == other_client(request),
        forall|name: Seq<char>, arguments: Seq<char>| #[trigger]
            invoker(name, arguments) == other_invoker(name, arguments),
    ensures
        converse(client, invoker, settings, tools, limit, prompts, transcript) == converse(
            other_client,
            other_invoker,
            settings,
            tools,
            limit,
            prompts,
            transcript,
        ),
    decreases prompts.len(),
{
    if prompts.len() > 0 {
        converse_is_determined(
            client,
            invoker,
            other_client,
            other_invoker,
            settings,
            tools,
            limit,
            prompts.drop_last(),
            transcript,
        );
        let before = converse(
            client,
            invoker,
            settings,
            tools,
            limit,
            prompts.drop_last(),
            transcript,
        );
        drive_is_determined(
            client,
            invoker,
            other_client,
            other_invoker,
            settings,
            tools,
            begin_spec(prompts.last(), limit),
            before.1,
        );
    }
}

/// A turn against a pure client and a pure invoker always comes to an end,
/// with an answer or with a failure.
pub proof fn drive_ends(
    client: spec_fn(CompletionRequestView) -> Result<Seq<ContentView>, FailureView>,
    invoker: spec_fn(Seq<char>, Seq<char>) -> Result<Seq<char>, ToolErrorView>,
    settings: SettingsView,
    tools: Seq<ToolDefinitionView>,
    turn: TurnView,
    transcript: Seq<MessageView>,
)
    ensures
        ({
            let end = drive(client, invoker, settings, tools, turn, transcript).0.phase;
            end is Terminal || end is Failed
        }),
    decreases budget(turn),
{
    if let Some(event) = answer_to(
        action_spec(turn, settings, transcript, tools),
        client,
        invoker,
    ) {
        let next = step_spec(turn, transcript, event);
        drive_ends(client, invoker, settings, tools, next.0, next.1);
    }
}

} // verus!
