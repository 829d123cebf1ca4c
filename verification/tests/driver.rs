use tool_agent::catalog::{resolve_call, ToolDefinition, ToolError};
use tool_agent::driver::{Action, Event, Phase, Response, Turn};
use tool_agent::failure::Failure;
use tool_agent::message::{Content, Message, Role};
use tool_agent::request::{CompletionRequest, Settings};
use tool_agent::run::{run, CompletionClient, ToolInvoker};

fn settings() -> Settings {
    Settings::new("gpt-4o".to_string(), "Be brief.".to_string(), 0, 1024).unwrap()
}

fn text(t: &str) -> Response {
    Response { first: Content::Text { text: t.to_string() }, rest: Vec::new() }
}

fn call(id: &str, name: &str, arguments: &str) -> Response {
    Response {
        first: Content::ToolCall {
            id: id.to_string(),
            name: name.to_string(),
            arguments: arguments.to_string(),
        },
        rest: Vec::new(),
    }
}

fn tool(name: &str) -> ToolDefinition {
    ToolDefinition {
        name: name.to_string(),
        description: String::new(),
        parameters: "{}".to_string(),
    }
}

/// Answers from a script, in order, and keeps what it was asked.
struct ScriptedClient {
    script: Vec<Result<Response, Failure>>,
    seen: Vec<CompletionRequest>,
}

impl ScriptedClient {
    fn new(mut script: Vec<Result<Response, Failure>>) -> Self {
        script.reverse();
        ScriptedClient { script, seen: Vec::new() }
    }
}

impl CompletionClient for ScriptedClient {
    fn complete(&mut self, request: CompletionRequest) -> Result<Response, Failure> {
        self.seen.push(request);
        self.script.pop().unwrap()
    }
}

/// Knows the tools of a catalog and answers each call with a text made of
/// the name and the arguments.
struct EchoInvoker {
    tools: Vec<ToolDefinition>,
    calls: Vec<(String, String)>,
}

impl ToolInvoker for EchoInvoker {
    fn invoke(&mut self, name: &String, arguments: &String) -> Result<String, ToolError> {
        self.calls.push((name.clone(), arguments.clone()));
        resolve_call(&self.tools, name)?;
        Ok(format!("{name}({arguments})"))
    }
}

/// Answers every call with one fixed text.
struct FixedInvoker {
    answer: String,
    calls: Vec<(String, String)>,
}

impl ToolInvoker for FixedInvoker {
    fn invoke(&mut self, name: &String, arguments: &String) -> Result<String, ToolError> {
        self.calls.push((name.clone(), arguments.clone()));
        Ok(self.answer.clone())
    }
}

#[test]
fn scenario_list_leads_named_bob() {
    let mut client = ScriptedClient::new(vec![
        Ok(call("1", "list_rows", "{\"filter\":\"Bob\"}")),
        Ok(text("Found 1 matching lead: Bob.")),
    ]);
    let mut invoker = FixedInvoker { answer: "[{\"name\":\"Bob\"}]".to_string(), calls: Vec::new() };
    let mut transcript: Vec<Message> = Vec::new();
    let tools = vec![tool("list_rows")];
    let result = run(
        "List leads named Bob".to_string(),
        8,
        &settings(),
        &mut transcript,
        &tools,
        &mut client,
        &mut invoker,
    );
    assert_eq!(result, Ok("Found 1 matching lead: Bob.".to_string()));
    assert_eq!(transcript.len(), 4);
    assert_eq!(transcript[0], Message::user("List leads named Bob".to_string()));
    assert_eq!(
        transcript[1],
        Message::tool_call(
            "1".to_string(),
            "list_rows".to_string(),
            "{\"filter\":\"Bob\"}".to_string()
        )
    );
    assert_eq!(
        transcript[2],
        Message::tool_result("1".to_string(), "[{\"name\":\"Bob\"}]".to_string())
    );
    assert_eq!(transcript[3], Message::assistant("Found 1 matching lead: Bob.".to_string()));
    assert_eq!(
        invoker.calls,
        vec![("list_rows".to_string(), "{\"filter\":\"Bob\"}".to_string())]
    );
    // The second request carries the exchange so far and the tool's answer.
    assert_eq!(client.seen.len(), 2);
    assert_eq!(client.seen[0].history.len(), 0);
    assert_eq!(client.seen[0].new_message, Message::user("List leads named Bob".to_string()));
    assert_eq!(client.seen[1].history.len(), 2);
    assert_eq!(
        client.seen[1].new_message,
        Message::tool_result("1".to_string(), "[{\"name\":\"Bob\"}]".to_string())
    );
}

#[test]
fn text_answer_ends_turn_and_adds_one_pair() {
    let mut transcript = vec![
        Message::user("earlier".to_string()),
        Message::assistant("reply".to_string()),
    ];
    let turn = Turn::begin("hello".to_string(), 4);
    assert!(!turn.is_over());
    let next = turn.step(&mut transcript, Event::Completed { response: text("hi there") });
    assert!(next.is_over());
    assert_eq!(next.phase, Phase::Terminal { text: "hi there".to_string() });
    assert_eq!(next.rounds, 0);
    assert_eq!(transcript.len(), 4);
    assert_eq!(transcript[0], Message::user("earlier".to_string()));
    assert_eq!(transcript[1], Message::assistant("reply".to_string()));
    assert_eq!(transcript[2], Message::user("hello".to_string()));
    assert_eq!(transcript[3], Message::assistant("hi there".to_string()));
    assert_eq!(
        next.action(&settings(), &transcript, &Vec::new()),
        Action::Return { text: "hi there".to_string() }
    );
}

#[test]
fn tool_call_is_handed_on_unchanged() {
    let mut transcript: Vec<Message> = Vec::new();
    let turn = Turn::begin("sum".to_string(), 4);
    let asked = turn.step(
        &mut transcript,
        Event::Completed { response: call("call-7", "add", "{ \"a\": 1,\"b\":2 }") },
    );
    assert_eq!(transcript.len(), 0);
    assert_eq!(asked.rounds, 1);
    assert_eq!(
        asked.action(&settings(), &transcript, &Vec::new()),
        Action::Invoke { name: "add".to_string(), arguments: "{ \"a\": 1,\"b\":2 }".to_string() }
    );
    let told = asked.step(&mut transcript, Event::ToolReturned { text: " 3\n".to_string() });
    assert_eq!(
        told.phase,
        Phase::AwaitingCompletion {
            pending: Message::tool_result("call-7".to_string(), " 3\n".to_string())
        }
    );
    assert_eq!(transcript.len(), 2);
    assert_eq!(transcript[0], Message::user("sum".to_string()));
    assert_eq!(
        transcript[1],
        Message::tool_call(
            "call-7".to_string(),
            "add".to_string(),
            "{ \"a\": 1,\"b\":2 }".to_string()
        )
    );
}

#[test]
fn three_round_trips_leave_eight_linked_messages() {
    let mut client = ScriptedClient::new(vec![
        Ok(call("a", "first", "1")),
        Ok(call("b", "second", "2")),
        Ok(call("c", "third", "3")),
        Ok(text("done")),
    ]);
    let tools = vec![tool("first"), tool("second"), tool("third")];
    let mut invoker = EchoInvoker { tools: vec![tool("first"), tool("second"), tool("third")], calls: Vec::new() };
    let mut transcript: Vec<Message> = Vec::new();
    let result =
        run("go".to_string(), 3, &settings(), &mut transcript, &tools, &mut client, &mut invoker);
    assert_eq!(result, Ok("done".to_string()));
    assert_eq!(transcript.len(), 2 * 3 + 2);
    for (i, m) in transcript.iter().enumerate() {
        let expected = if i % 2 == 0 { Role::User } else { Role::Assistant };
        assert_eq!(m.role, expected);
        assert!(m.rest.is_empty());
        if let Content::ToolCall { id, .. } = &m.first {
            match &transcript[i + 1].first {
                Content::ToolResult { id: answered, .. } => assert_eq!(answered, id),
                other => panic!("call {id} is followed by {other:?}"),
            }
        }
    }
    assert_eq!(transcript[2], Message::tool_result("a".to_string(), "first(1)".to_string()));
    assert_eq!(transcript[4], Message::tool_result("b".to_string(), "second(2)".to_string()));
    assert_eq!(transcript[6], Message::tool_result("c".to_string(), "third(3)".to_string()));
    assert_eq!(transcript[7], Message::assistant("done".to_string()));
}

fn replay_once() -> (Vec<Result<String, Failure>>, Vec<Message>) {
    let mut client = ScriptedClient::new(vec![
        Ok(call("1", "lookup", "{\"q\":\"x\"}")),
        Ok(text("first answer")),
        Ok(call("2", "missing", "{}")),
        Ok(text("second answer")),
    ]);
    let tools = vec![tool("lookup")];
    let mut invoker = EchoInvoker { tools: vec![tool("lookup")], calls: Vec::new() };
    let mut transcript: Vec<Message> = Vec::new();
    let mut answers = Vec::new();
    for prompt in ["one", "two"] {
        answers.push(run(
            prompt.to_string(),
            5,
            &settings(),
            &mut transcript,
            &tools,
            &mut client,
            &mut invoker,
        ));
    }
    (answers, transcript)
}

#[test]
fn replaying_the_prompts_reproduces_the_conversation() {
    let (answers, transcript) = replay_once();
    let (answers_again, transcript_again) = replay_once();
    assert_eq!(answers, answers_again);
    assert_eq!(transcript, transcript_again);
    assert_eq!(answers, vec![Ok("first answer".to_string()), Ok("second answer".to_string())]);
    assert_eq!(transcript.len(), 8);
}

#[test]
fn unknown_tool_goes_back_to_the_model() {
    let mut client =
        ScriptedClient::new(vec![Ok(call("9", "no_such_tool", "{}")), Ok(text("sorry"))]);
    let tools = vec![tool("list_rows")];
    let mut invoker = EchoInvoker { tools: vec![tool("list_rows")], calls: Vec::new() };
    let mut transcript: Vec<Message> = Vec::new();
    let result =
        run("try".to_string(), 2, &settings(), &mut transcript, &tools, &mut client, &mut invoker);
    assert_eq!(result, Ok("sorry".to_string()));
    assert_eq!(transcript.len(), 4);
    assert_eq!(
        transcript[2],
        Message::tool_result("9".to_string(), "ToolNotFoundError: no_such_tool".to_string())
    );
    assert_eq!(
        client.seen[1].new_message,
        Message::tool_result("9".to_string(), "ToolNotFoundError: no_such_tool".to_string())
    );
}

#[test]
fn tool_failure_does_not_end_the_turn() {
    let mut transcript: Vec<Message> = Vec::new();
    let turn = Turn::begin("p".to_string(), 1);
    let asked = turn.step(&mut transcript, Event::Completed { response: call("k", "t", "[]") });
    let told = asked.step(
        &mut transcript,
        Event::ToolFailed { error: ToolError::Execution { detail: "timeout".to_string() } },
    );
    assert!(!told.is_over());
    assert_eq!(
        told.phase,
        Phase::AwaitingCompletion {
            pending: Message::tool_result("k".to_string(), "ToolCallError: timeout".to_string())
        }
    );
    assert_eq!(transcript.len(), 2);
}

#[test]
fn completion_failure_ends_the_turn_and_keeps_the_transcript() {
    let mut client = ScriptedClient::new(vec![
        Ok(call("1", "list_rows", "{}")),
        Err(Failure::Completion { detail: "rate limit".to_string() }),
    ]);
    let mut invoker = FixedInvoker { answer: "rows".to_string(), calls: Vec::new() };
    let mut transcript: Vec<Message> = Vec::new();
    let result = run(
        "p".to_string(),
        4,
        &settings(),
        &mut transcript,
        &Vec::new(),
        &mut client,
        &mut invoker,
    );
    assert_eq!(result, Err(Failure::Completion { detail: "rate limit".to_string() }));
    // The round trip before the failure stays; the failed call adds nothing.
    assert_eq!(transcript.len(), 2);

    let mut untouched = vec![Message::user("a".to_string()), Message::assistant("b".to_string())];
    let turn = Turn::begin("c".to_string(), 4);
    let next = turn.step(
        &mut untouched,
        Event::CompletionFailed { failure: Failure::Transport { detail: "down".to_string() } },
    );
    assert_eq!(next.phase, Phase::Failed { failure: Failure::Transport { detail: "down".to_string() } });
    assert_eq!(untouched, vec![Message::user("a".to_string()), Message::assistant("b".to_string())]);
    assert_eq!(
        next.action(&settings(), &untouched, &Vec::new()),
        Action::Fail { failure: Failure::Transport { detail: "down".to_string() } }
    );
}

#[test]
fn tool_calls_beyond_the_limit_end_the_turn() {
    let mut client = ScriptedClient::new(vec![
        Ok(call("1", "t", "{}")),
        Ok(call("2", "t", "{}")),
        Ok(call("3", "t", "{}")),
    ]);
    let mut invoker = FixedInvoker { answer: "again".to_string(), calls: Vec::new() };
    let mut transcript: Vec<Message> = Vec::new();
    let result = run(
        "p".to_string(),
        2,
        &settings(),
        &mut transcript,
        &Vec::new(),
        &mut client,
        &mut invoker,
    );
    assert_eq!(result, Err(Failure::ToolLoopExceeded { limit: 2 }));
    assert_eq!(invoker.calls.len(), 2);
    assert_eq!(transcript.len(), 4);
}

#[test]
fn limit_of_zero_admits_text_only() {
    let mut transcript: Vec<Message> = Vec::new();
    let refused = Turn::begin("p".to_string(), 0)
        .step(&mut transcript, Event::Completed { response: call("1", "t", "{}") });
    assert_eq!(refused.phase, Phase::Failed { failure: Failure::ToolLoopExceeded { limit: 0 } });
    assert!(transcript.is_empty());
    let answered =
        Turn::begin("p".to_string(), 0).step(&mut transcript, Event::Completed { response: text("ok") });
    assert_eq!(answered.phase, Phase::Terminal { text: "ok".to_string() });
    assert_eq!(transcript.len(), 2);
}

#[test]
fn only_the_first_content_item_is_read() {
    let mut transcript: Vec<Message> = Vec::new();
    let response = Response {
        first: Content::Text { text: "answer".to_string() },
        rest: vec![Content::ToolCall {
            id: "1".to_string(),
            name: "t".to_string(),
            arguments: "{}".to_string(),
        }],
    };
    let next = Turn::begin("p".to_string(), 3).step(&mut transcript, Event::Completed { response });
    assert_eq!(next.phase, Phase::Terminal { text: "answer".to_string() });
    assert_eq!(transcript[1], Message::assistant("answer".to_string()));
}

#[test]
fn tool_result_from_the_backend_is_a_protocol_failure() {
    let mut transcript: Vec<Message> = Vec::new();
    let response = Response {
        first: Content::ToolResult { id: "1".to_string(), text: "x".to_string() },
        rest: Vec::new(),
    };
    let next = Turn::begin("p".to_string(), 3).step(&mut transcript, Event::Completed { response });
    assert_eq!(
        next.phase,
        Phase::Failed {
            failure: Failure::Protocol {
                detail: "the completion backend answered with a tool result".to_string()
            }
        }
    );
    assert!(transcript.is_empty());
}

#[test]
fn event_out_of_turn_is_a_protocol_failure() {
    let mut transcript: Vec<Message> = Vec::new();
    let expected = Phase::Failed {
        failure: Failure::Protocol {
            detail: "the event does not answer the action that was due".to_string(),
        },
    };
    let next = Turn::begin("p".to_string(), 3)
        .step(&mut transcript, Event::ToolReturned { text: "x".to_string() });
    assert_eq!(next.phase, expected);
    let asked = Turn::begin("p".to_string(), 3)
        .step(&mut transcript, Event::Completed { response: call("1", "t", "{}") });
    let next = asked.step(&mut transcript, Event::Completed { response: text("x") });
    assert_eq!(next.phase, expected);
    assert_eq!(next.rounds, 1);
    assert!(transcript.is_empty());
}

#[test]
fn finished_turn_takes_no_more_events() {
    let mut transcript: Vec<Message> = Vec::new();
    let done =
        Turn::begin("p".to_string(), 3).step(&mut transcript, Event::Completed { response: text("ok") });
    let still = done.step(&mut transcript, Event::Completed { response: text("more") });
    assert_eq!(still.phase, Phase::Terminal { text: "ok".to_string() });
    let still = still.step(&mut transcript, Event::ToolReturned { text: "x".to_string() });
    assert_eq!(still.phase, Phase::Terminal { text: "ok".to_string() });
    assert_eq!(transcript.len(), 2);
}

#[test]
fn first_action_is_a_request_with_the_prompt() {
    let transcript = vec![Message::user("a".to_string()), Message::assistant("b".to_string())];
    let tools = vec![tool("list_rows")];
    let turn = Turn::begin("next".to_string(), 3);
    match turn.action(&settings(), &transcript, &tools) {
        Action::Complete { request } => {
            assert_eq!(request.model, "gpt-4o");
            assert_eq!(request.preamble, "Be brief.");
            assert_eq!(request.history, transcript);
            assert_eq!(request.new_message, Message::user("next".to_string()));
            assert_eq!(request.temperature_milli, 0);
            assert_eq!(request.max_tokens, 1024);
            assert_eq!(request.tools, tools);
        }
        other => panic!("unexpected action {other:?}"),
    }
}
