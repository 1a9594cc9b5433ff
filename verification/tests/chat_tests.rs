use term_ai::chat::{chat_with_tools, ChatError, ModelClient, ModelError, Session, MAX_ITERATIONS};
use term_ai::message::{FunctionCall, Message, Tool, ToolCall};
use term_ai::search::{format_results, SearchProvider, SearchResult};
use term_ai::tool::{build_tool_message, execute_tool, planned_search, requested_query, tool_output, ToolError};

fn call(id: &str, name: &str, arguments: &str) -> ToolCall {
    ToolCall {
        id: id.to_string(),
        call_type: Some("function".to_string()),
        function: FunctionCall { index: None, name: name.to_string(), arguments: arguments.to_string() },
    }
}

fn asking(calls: Vec<ToolCall>) -> Message {
    Message { role: "assistant".to_string(), content: String::new(), tool_calls: Some(calls) }
}

fn answer(content: &str) -> Message {
    Message { role: "assistant".to_string(), content: content.to_string(), tool_calls: None }
}

fn roles(conversation: &[Message]) -> Vec<String> {
    conversation.iter().map(|m| m.role.clone()).collect()
}

struct FixedProvider {
    fail: bool,
}

impl SearchProvider for FixedProvider {
    fn name(&self) -> String {
        "fixed".to_string()
    }

    fn search(&self, query: &str, max_results: usize) -> Result<Vec<SearchResult>, String> {
        if self.fail {
            return Err("backend unreachable".to_string());
        }
        let mut results = Vec::new();
        if max_results > 0 {
            results.push(SearchResult {
                title: format!("About {}", query),
                url: "https://example.com".to_string(),
                snippet: "found".to_string(),
            });
        }
        Ok(results)
    }
}

struct AlwaysTools {
    calls: usize,
}

impl ModelClient for AlwaysTools {
    fn chat(&mut self, _conversation: &Vec<Message>, _tools: &Vec<Tool>) -> Result<Message, ModelError> {
        self.calls += 1;
        Ok(asking(vec![call("1", "web_search", "{\"query\":\"rust\"}")]))
    }
}

struct Scripted {
    replies: Vec<Result<Message, ModelError>>,
    seen_lengths: Vec<usize>,
    seen_tools: Vec<usize>,
}

impl Scripted {
    fn new(mut replies: Vec<Result<Message, ModelError>>) -> Scripted {
        replies.reverse();
        Scripted { replies, seen_lengths: Vec::new(), seen_tools: Vec::new() }
    }
}

impl ModelClient for Scripted {
    fn chat(&mut self, conversation: &Vec<Message>, tools: &Vec<Tool>) -> Result<Message, ModelError> {
        self.seen_lengths.push(conversation.len());
        self.seen_tools.push(tools.len());
        match self.replies.pop() {
            Some(reply) => reply,
            None => Err(ModelError::TransportFailure("script exhausted".to_string())),
        }
    }
}

#[test]
fn loop_stops_at_the_iteration_cap() {
    let mut client = AlwaysTools { calls: 0 };
    let outcome = chat_with_tools("install rust", &mut client, &FixedProvider { fail: false }, 5);
    assert_eq!(MAX_ITERATIONS, 10);
    assert_eq!(client.calls, 10);
    assert_eq!(outcome.model_calls, 10);
    assert!(matches!(outcome.result, Err(ChatError::MaxIterationsExceeded)));
    assert_eq!(outcome.conversation.len(), 22);
    match outcome.result {
        Err(e) => assert_eq!(
            e.message(),
            "Maximum iterations (10) exceeded. The model may be stuck in a tool-calling loop."
        ),
        Ok(_) => panic!("an answer was returned"),
    }
}

#[test]
fn one_tool_call_then_an_answer() {
    let mut client = Scripted::new(vec![
        Ok(asking(vec![call("1", "web_search", "{\"query\":\"latest rust\"}")])),
        Ok(answer("brew install rust")),
    ]);
    let outcome = chat_with_tools("install rust", &mut client, &FixedProvider { fail: false }, 5);
    assert_eq!(outcome.result.ok(), Some("brew install rust".to_string()));
    assert_eq!(outcome.model_calls, 2);
    assert_eq!(
        roles(&outcome.conversation),
        vec!["system", "user", "assistant", "tool", "assistant"]
    );
    assert_eq!(outcome.conversation[1].content, "install rust");
    assert_eq!(outcome.conversation[2].tool_calls.as_ref().map(|c| c.len()), Some(1));
    let expected = format_results(&vec![SearchResult {
        title: "About latest rust".to_string(),
        url: "https://example.com".to_string(),
        snippet: "found".to_string(),
    }]);
    assert_eq!(outcome.conversation[3].content, expected);
    assert!(outcome.conversation[3].tool_calls.is_none());
    assert_eq!(outcome.conversation[4].content, "brew install rust");
    assert_eq!(client.seen_lengths, vec![2, 4]);
    assert_eq!(client.seen_tools, vec![1, 1]);
}

#[test]
fn plain_answer_ends_the_conversation_at_once() {
    let mut client = Scripted::new(vec![Ok(answer("ls -la"))]);
    let outcome = chat_with_tools("list files", &mut client, &FixedProvider { fail: false }, 5);
    assert_eq!(outcome.result.ok(), Some("ls -la".to_string()));
    assert_eq!(outcome.model_calls, 1);
    assert_eq!(outcome.conversation.len(), 3);
}

#[test]
fn empty_tool_call_list_counts_as_an_answer() {
    let mut client = Scripted::new(vec![Ok(Message {
        role: "assistant".to_string(),
        content: "pwd".to_string(),
        tool_calls: Some(Vec::new()),
    })]);
    let outcome = chat_with_tools("where am i", &mut client, &FixedProvider { fail: false }, 5);
    assert_eq!(outcome.result.ok(), Some("pwd".to_string()));
    assert_eq!(outcome.conversation.len(), 3);
}

#[test]
fn model_failure_aborts_the_run() {
    let mut client = Scripted::new(vec![
        Ok(asking(vec![call("1", "web_search", "{\"query\":\"x\"}")])),
        Err(ModelError::TransportFailure("Ollama returned status 500: oops".to_string())),
    ]);
    let outcome = chat_with_tools("x", &mut client, &FixedProvider { fail: false }, 5);
    match outcome.result {
        Err(ChatError::TransportFailure(text)) => {
            assert_eq!(text, "Ollama returned status 500: oops")
        }
        _ => panic!("the model's failure was not reported"),
    }
    assert_eq!(outcome.model_calls, 2);
    assert_eq!(outcome.conversation.len(), 4);
}

#[test]
fn malformed_reply_aborts_the_run() {
    let mut client =
        Scripted::new(vec![Err(ModelError::MalformedResponse("missing field".to_string()))]);
    let outcome = chat_with_tools("x", &mut client, &FixedProvider { fail: false }, 5);
    match outcome.result {
        Err(e) => {
            assert!(matches!(e, ChatError::MalformedResponse(_)));
            assert_eq!(e.message(), "missing field");
        }
        Ok(_) => panic!("a malformed reply gave an answer"),
    }
    assert_eq!(outcome.model_calls, 1);
    assert_eq!(outcome.conversation.len(), 2);
}

#[test]
fn tool_messages_follow_the_order_of_the_calls() {
    let mut client = Scripted::new(vec![
        Ok(asking(vec![
            call("1", "web_search", "{\"query\":\"first\"}"),
            call("2", "calculator", "{}"),
            call("3", "web_search", "{}"),
        ])),
        Ok(answer("done")),
    ]);
    let outcome = chat_with_tools("x", &mut client, &FixedProvider { fail: false }, 5);
    assert_eq!(
        roles(&outcome.conversation),
        vec!["system", "user", "assistant", "tool", "tool", "tool", "assistant"]
    );
    assert!(outcome.conversation[3].content.contains("About first"));
    assert_eq!(outcome.conversation[4].content, "Error executing tool: Unknown tool: calculator");
    assert_eq!(
        outcome.conversation[5].content,
        "Error executing tool: Missing 'query' parameter in tool call"
    );
    assert_eq!(outcome.result.ok(), Some("done".to_string()));
    assert_eq!(client.seen_lengths, vec![2, 6]);
}

#[test]
fn provider_failure_is_told_to_the_model() {
    let mut client = Scripted::new(vec![
        Ok(asking(vec![call("1", "web_search", "{\"query\":\"rust\"}")])),
        Ok(answer("echo sorry")),
    ]);
    let outcome = chat_with_tools("x", &mut client, &FixedProvider { fail: true }, 5);
    assert_eq!(outcome.conversation[3].role, "tool");
    assert!(outcome.conversation[3].content.starts_with("Error executing tool:"));
    assert_eq!(outcome.conversation[3].content, "Error executing tool: backend unreachable");
    assert_eq!(outcome.result.ok(), Some("echo sorry".to_string()));
}

#[test]
fn unknown_tool_is_refused() {
    let output = execute_tool(&call("1", "shell", "{\"query\":\"x\"}"), &FixedProvider { fail: false }, 5);
    match output {
        Err(ToolError::UnknownTool(name)) => assert_eq!(name, "shell"),
        _ => panic!("an undeclared tool was run"),
    }
}

#[test]
fn missing_query_is_refused() {
    let provider = FixedProvider { fail: false };
    assert!(matches!(
        execute_tool(&call("1", "web_search", "{}"), &provider, 5),
        Err(ToolError::MissingParameter)
    ));
    assert!(matches!(
        execute_tool(&call("1", "web_search", "{\"query\":7}"), &provider, 5),
        Err(ToolError::MissingParameter)
    ));
    assert!(matches!(
        execute_tool(&call("1", "web_search", "not json"), &provider, 5),
        Err(ToolError::MissingParameter)
    ));
}

#[test]
fn search_results_become_the_tool_result() {
    let provider = FixedProvider { fail: false };
    let output = execute_tool(&call("1", "web_search", "{\"query\":\"zsh\"}"), &provider, 5);
    assert_eq!(
        output.ok(),
        Some(
            "[\n  {\n    \"title\": \"About zsh\",\n    \"url\": \"https://example.com\",\n    \"snippet\": \"found\"\n  }\n]"
                .to_string()
        )
    );
    let none = execute_tool(&call("1", "web_search", "{\"query\":\"zsh\"}"), &provider, 0);
    assert_eq!(none.ok(), Some("[]".to_string()));
}

#[test]
fn query_is_read_from_the_arguments() {
    let planned = planned_search(&call("1", "web_search", "{\"query\":\"latest node\",\"n\":3}"));
    assert_eq!(planned.ok(), Some("latest node".to_string()));
    assert!(matches!(
        requested_query("web_search", None),
        Err(ToolError::MissingParameter)
    ));
    assert_eq!(requested_query("web_search", Some("q".to_string())).ok(), Some("q".to_string()));
    assert!(matches!(
        requested_query("Web_Search", Some("q".to_string())),
        Err(ToolError::UnknownTool(_))
    ));
}

#[test]
fn tool_error_messages() {
    assert_eq!(ToolError::UnknownTool("x".to_string()).message(), "Unknown tool: x");
    assert_eq!(ToolError::MissingParameter.message(), "Missing 'query' parameter in tool call");
    assert_eq!(tool_output(Err("timeout".to_string())), "Error executing tool: timeout");
    assert_eq!(tool_output(Ok(Vec::new())), "[]");
    let message = build_tool_message(Ok("[]".to_string()));
    assert_eq!(message.role, "tool");
    assert_eq!(message.content, "[]");
    assert!(message.tool_calls.is_none());
}

#[test]
fn session_moves_through_its_states() {
    let mut session = Session::start("install rust");
    assert!(session.is_awaiting_model());
    assert_eq!(session.turns(), 0);
    assert_eq!(session.conversation().len(), 2);

    session.tool_finished(Ok("ignored".to_string()));
    assert_eq!(session.conversation().len(), 2);

    assert!(session.begin_turn());
    assert_eq!(session.turns(), 0);
    session.model_replied(Ok(asking(vec![
        call("1", "web_search", "{\"query\":\"a\"}"),
        call("2", "web_search", "{\"query\":\"b\"}"),
    ])));
    assert!(session.is_executing_tools());
    assert_eq!(session.turns(), 1);
    assert_eq!(session.current_call().map(|c| c.id.clone()), Some("1".to_string()));
    assert!(!session.begin_turn());
    assert_eq!(session.turns(), 1);

    session.tool_finished(Ok("first".to_string()));
    assert!(session.is_executing_tools());
    assert_eq!(session.current_call().map(|c| c.id.clone()), Some("2".to_string()));
    session.tool_finished(Err(ToolError::MissingParameter));
    assert!(session.is_awaiting_model());
    assert!(session.current_call().is_none());
    assert_eq!(session.conversation().len(), 5);
    assert_eq!(session.conversation()[3].content, "first");

    assert!(session.begin_turn());
    session.model_replied(Ok(answer("rustup update")));
    assert!(session.is_terminal());
    session.model_replied(Ok(answer("late")));
    assert_eq!(session.conversation().len(), 6);
    let outcome = session.finish();
    assert_eq!(outcome.model_calls, 2);
    assert_eq!(outcome.result.ok(), Some("rustup update".to_string()));
}

#[test]
fn eleventh_turn_is_never_entered() {
    let mut session = Session::start("x");
    let mut asked = 0;
    while session.begin_turn() {
        asked += 1;
        session.model_replied(Ok(asking(vec![call("1", "web_search", "{}")])));
        session.tool_finished(Err(ToolError::MissingParameter));
    }
    assert_eq!(asked, 10);
    assert!(session.is_terminal());
    assert!(!session.begin_turn());
    let outcome = session.finish();
    assert!(matches!(outcome.result, Err(ChatError::MaxIterationsExceeded)));
    assert_eq!(outcome.model_calls, 10);
}

#[test]
fn reply_at_the_cap_is_not_taken() {
    let mut session = Session::start("x");
    for _ in 0..10 {
        session.model_replied(Ok(asking(vec![call("1", "web_search", "{}")])));
        session.tool_finished(Ok("[]".to_string()));
    }
    assert!(session.is_awaiting_model());
    assert_eq!(session.turns(), 10);
    assert_eq!(session.conversation().len(), 22);
    session.model_replied(Ok(answer("late")));
    assert!(session.is_terminal());
    assert_eq!(session.turns(), 10);
    let outcome = session.finish();
    assert_eq!(outcome.conversation.len(), 22);
    assert!(matches!(outcome.result, Err(ChatError::MaxIterationsExceeded)));
}

#[test]
fn provider_failure_is_the_tool_result() {
    let provider = FixedProvider { fail: true };
    let output = execute_tool(&call("1", "web_search", "{\"query\":\"rust\"}"), &provider, 5);
    match output {
        Ok(text) => {
            assert!(text.starts_with("Error executing tool:"));
            assert_eq!(text, "Error executing tool: backend unreachable");
        }
        Err(_) => panic!("a failure of the backend failed the tool"),
    }
}

#[test]
fn refused_invocation_is_answered_with_its_error() {
    let mut session = Session::start("x");
    session.model_replied(Ok(asking(vec![
        call("1", "shell", "{\"query\":\"a\"}"),
        call("2", "web_search", "{}"),
        call("3", "web_search", "{\"query\":\"b\"}"),
    ])));
    session.tool_finished(Ok("made up".to_string()));
    session.tool_finished(Ok("made up".to_string()));
    session.tool_finished(Ok("found".to_string()));
    assert!(session.is_awaiting_model());
    assert_eq!(session.conversation()[3].content, "Error executing tool: Unknown tool: shell");
    assert_eq!(
        session.conversation()[4].content,
        "Error executing tool: Missing 'query' parameter in tool call"
    );
    assert_eq!(session.conversation()[5].content, "found");
}
