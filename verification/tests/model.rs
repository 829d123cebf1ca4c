use tool_agent::catalog::{
    find_tool, resolve_call, tool_definitions, ToolDefinition, ToolError, ToolListing,
};
use tool_agent::driver::Phase;
use tool_agent::failure::Failure;
use tool_agent::message::{clone_contents, clone_messages, Content, Message, Role};
use tool_agent::request::{build_request, ConfigError, Settings, MAX_TEMPERATURE_MILLI};
use tool_agent::session::{farewell, greeting, read_command, separator, Command};

fn def(name: &str, description: &str) -> ToolDefinition {
    ToolDefinition {
        name: name.to_string(),
        description: description.to_string(),
        parameters: "{\"type\":\"object\"}".to_string(),
    }
}

#[test]
fn quit_ends_the_session() {
    assert_eq!(read_command("quit".to_string()), Command::Quit);
}

#[test]
fn every_other_line_is_a_prompt() {
    for line in ["", "Quit", "quit ", " quit", "quit\n", "quitt", "qui", "please quit", "hello"] {
        assert_eq!(read_command(line.to_string()), Command::Ask { prompt: line.to_string() });
    }
}

#[test]
fn session_words() {
    assert_eq!(greeting(), "Hi! How can I help you today? (write \"quit\" to exit)");
    assert_eq!(farewell(), "Thanks for using me! I am quitting now.");
    assert_eq!(separator(), "------------");
}

#[test]
fn message_constructors() {
    let m = Message::user("hi".to_string());
    assert_eq!(m.role, Role::User);
    assert_eq!(m.first, Content::Text { text: "hi".to_string() });
    assert!(m.rest.is_empty());
    let m = Message::assistant("yo".to_string());
    assert_eq!(m.role, Role::Assistant);
    assert_eq!(m.first, Content::Text { text: "yo".to_string() });
    let m = Message::tool_call("1".to_string(), "n".to_string(), "{}".to_string());
    assert_eq!(m.role, Role::Assistant);
    assert_eq!(
        m.first,
        Content::ToolCall { id: "1".to_string(), name: "n".to_string(), arguments: "{}".to_string() }
    );
    let m = Message::tool_result("1".to_string(), "r".to_string());
    assert_eq!(m.role, Role::User);
    assert_eq!(m.first, Content::ToolResult { id: "1".to_string(), text: "r".to_string() });
    let m = Message::one(Role::User, Content::Text { text: "x".to_string() });
    assert_eq!(m, Message::user("x".to_string()));
}

#[test]
fn clones_are_equal() {
    let m = Message {
        role: Role::Assistant,
        first: Content::Text { text: "a".to_string() },
        rest: vec![
            Content::ToolCall { id: "1".to_string(), name: "n".to_string(), arguments: "{}".to_string() },
            Content::ToolResult { id: "1".to_string(), text: "r".to_string() },
        ],
    };
    assert_eq!(m.clone(), m);
    assert_eq!(clone_contents(&m.rest), m.rest);
    let all = vec![m, Message::user("b".to_string())];
    assert_eq!(clone_messages(&all), all);
    assert_eq!(clone_messages(&Vec::new()), Vec::new());
}

#[test]
fn settings_accept_the_domain() {
    let s = Settings::new("m".to_string(), "p".to_string(), 0, 1).unwrap();
    assert_eq!(s.model, "m");
    assert_eq!(s.preamble, "p");
    assert_eq!(s.temperature_milli, 0);
    assert_eq!(s.max_tokens, 1);
    let s = Settings::new("m".to_string(), "p".to_string(), 2000, u64::MAX).unwrap();
    assert_eq!(s.temperature_milli, MAX_TEMPERATURE_MILLI);
    assert_eq!(s.max_tokens, u64::MAX);
}

#[test]
fn settings_refuse_bad_numbers() {
    assert_eq!(
        Settings::new("m".to_string(), "p".to_string(), 2001, 10),
        Err(ConfigError::TemperatureOutOfRange)
    );
    assert_eq!(
        Settings::new("m".to_string(), "p".to_string(), 700, 0),
        Err(ConfigError::ZeroMaxTokens)
    );
    assert_eq!(
        Settings::new("m".to_string(), "p".to_string(), u32::MAX, 0),
        Err(ConfigError::TemperatureOutOfRange)
    );
}

#[test]
fn request_is_a_snapshot() {
    let settings = Settings::new("gpt-4o".to_string(), "pre".to_string(), 500, 256).unwrap();
    let transcript = vec![Message::user("a".to_string()), Message::assistant("b".to_string())];
    let pending = Message::tool_result("7".to_string(), "r".to_string());
    let tools = vec![def("one", "first"), def("two", "")];
    let request = build_request(&settings, &transcript, &pending, &tools);
    assert_eq!(request.model, "gpt-4o");
    assert_eq!(request.preamble, "pre");
    assert_eq!(request.history, transcript);
    assert_eq!(request.new_message, pending);
    assert_eq!(request.temperature_milli, 500);
    assert_eq!(request.max_tokens, 256);
    assert_eq!(request.tools, tools);
    // The inputs are as they were.
    assert_eq!(transcript.len(), 2);
    assert_eq!(tools.len(), 2);
}

#[test]
fn listing_becomes_definitions() {
    let listing = vec![
        ToolListing {
            name: "list_rows".to_string(),
            description: Some("Lists rows".to_string()),
            input_schema: "{\"type\":\"object\"}".to_string(),
        },
        ToolListing { name: "bare".to_string(), description: None, input_schema: "{}".to_string() },
    ];
    let defs = tool_definitions(&listing);
    assert_eq!(
        defs,
        vec![
            ToolDefinition {
                name: "list_rows".to_string(),
                description: "Lists rows".to_string(),
                parameters: "{\"type\":\"object\"}".to_string(),
            },
            ToolDefinition {
                name: "bare".to_string(),
                description: String::new(),
                parameters: "{}".to_string(),
            },
        ]
    );
    assert_eq!(tool_definitions(&Vec::new()), Vec::new());
}

#[test]
fn last_definition_of_a_name_stands_for_it() {
    let defs = vec![def("a", "1"), def("b", "2"), def("a", "3"), def("c", "4")];
    assert_eq!(find_tool(&defs, &"a".to_string()), Some(2));
    assert_eq!(find_tool(&defs, &"b".to_string()), Some(1));
    assert_eq!(find_tool(&defs, &"c".to_string()), Some(3));
    assert_eq!(find_tool(&defs, &"d".to_string()), None);
    assert_eq!(find_tool(&Vec::new(), &"a".to_string()), None);
    assert_eq!(resolve_call(&defs, &"a".to_string()), Ok(2));
    assert_eq!(
        resolve_call(&defs, &"A".to_string()),
        Err(ToolError::UnknownTool { name: "A".to_string() })
    );
}

#[test]
fn tool_error_texts() {
    assert_eq!(
        ToolError::UnknownTool { name: "nope".to_string() }.message(),
        "ToolNotFoundError: nope"
    );
    assert_eq!(
        ToolError::InvalidArguments { detail: "expected value".to_string() }.message(),
        "JsonError: expected value"
    );
    assert_eq!(
        ToolError::Execution { detail: "boom".to_string() }.message(),
        "ToolCallError: boom"
    );
}

#[test]
fn failure_texts() {
    assert_eq!(
        Failure::Completion { detail: "rate limit".to_string() }.message(),
        "Error when prompting: rate limit"
    );
    assert_eq!(
        Failure::Transport { detail: "refused".to_string() }.message(),
        "Transport error: refused"
    );
    assert_eq!(
        Failure::Protocol { detail: "bad shape".to_string() }.message(),
        "Protocol error: bad shape"
    );
    assert_eq!(Failure::ToolLoopExceeded { limit: 3 }.message(), "Too many tool calls in one turn");
    let f = Failure::Completion { detail: "x".to_string() };
    assert_eq!(f.clone(), f);
}

#[test]
fn quit_opens_no_turn() {
    assert_eq!(read_command("quit".to_string()).open_turn(5), None);
    let turn = read_command("quit now".to_string()).open_turn(5).unwrap();
    assert_eq!(
        turn.phase,
        Phase::AwaitingCompletion { pending: Message::user("quit now".to_string()) }
    );
    assert_eq!(turn.rounds, 0);
    assert_eq!(turn.limit, 5);
}
