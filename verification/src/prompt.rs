//! Assembly of what is first sent to the model: the single-shot prompt, the
//! opening messages of a tool-enabled conversation and the tool declarations.

use vstd::prelude::*;
use vstd::string::*;
use crate::message::{declarations_view, Function, Message, MessageView, ParameterSchema, Property, PropertyView, Tool, ToolView, conversation_view};
use crate::text::{copy_text, trim, trimmed_of};

verus! {

/// The fixed text in front of the request in a single-shot prompt.
pub const PROMPT_HEADER: &'static str = "You are an expert macOS terminal and development environment engineer.

Constraints:
- Respond ONLY with valid shell commands, one per line.
- Do not include explanations, comments, Markdown, or prose.
- Prefer Homebrew for package installation where appropriate.
- Avoid destructive operations (no rm -rf, no disk formatting, no sudo unless clearly necessary and safe).

User request:
";

/// The fixed content of the system message of a tool-enabled conversation.
pub const SYSTEM_TEXT: &'static str = "You are an expert macOS terminal and development environment engineer.

Constraints:
- Respond ONLY with valid shell commands, one per line.
- Do not include explanations, comments, Markdown, or prose.
- Prefer Homebrew for package installation where appropriate.
- Avoid destructive operations (no rm -rf, no disk formatting, no sudo unless clearly necessary and safe).

When you need current information (latest versions, recent releases, current documentation), use the web_search tool to find up-to-date information before responding.";

/// What the web search tool is described as to the model.
pub const WEB_SEARCH_DESCRIPTION: &'static str = "Search the web for current information, latest versions, recent documentation, or up-to-date facts. Use this when you need information that may have changed recently or when the user asks about 'latest' or 'current' versions.";

/// The single-shot prompt for a request: the fixed header, then the request.
pub open spec fn prompt_text(user_request: Seq<char>) -> Seq<char> {
    PROMPT_HEADER@ + user_request
}

/// Builds the single-shot prompt for a request.
pub fn build_prompt(user_request: &str) -> (prompt: String)
    ensures
        prompt@ == prompt_text(user_request@),
{
    let mut prompt = String::from_str(PROMPT_HEADER);
    prompt.append(user_request);
    prompt
}

/// Every prompt ends with its request, character for character, right after
/// the fixed header.
pub proof fn prompt_ends_with_request(user_request: Seq<char>)
    ensures
        prompt_text(user_request).len() == PROMPT_HEADER@.len() + user_request.len(),
        prompt_text(user_request).subrange(0, PROMPT_HEADER@.len() as int) == PROMPT_HEADER@,
        prompt_text(user_request).subrange(
            PROMPT_HEADER@.len() as int,
            prompt_text(user_request).len() as int,
        ) == user_request,
{
    let p = prompt_text(user_request);
    assert(p.subrange(0, PROMPT_HEADER@.len() as int) =~= PROMPT_HEADER@);
    assert(p.subrange(PROMPT_HEADER@.len() as int, p.len() as int) =~= user_request);
}

/// Whether `needle` stands somewhere in `text`, character for character.
pub open spec fn occurs_in(needle: Seq<char>, text: Seq<char>) -> bool {
    exists|i: int|
        0 <= i <= text.len() - needle.len() && #[trigger] text.subrange(i, i + needle.len())
            == needle
}

/// Every prompt contains the fixed header and the exact text of its request.
pub proof fn prompt_contains_request(user_request: Seq<char>)
    ensures
        occurs_in(PROMPT_HEADER@, prompt_text(user_request)),
        occurs_in(user_request, prompt_text(user_request)),
{
    prompt_ends_with_request(user_request);
    let prompt = prompt_text(user_request);
    let start = PROMPT_HEADER@.len() as int;
    assert(prompt.subrange(0int, 0int + PROMPT_HEADER@.len()) == PROMPT_HEADER@);
    assert(prompt.subrange(start, start + user_request.len()) == user_request);
}

/// Two requests have the same prompt exactly when they are the same request.
pub proof fn prompt_tells_requests_apart(first: Seq<char>, second: Seq<char>)
    ensures
        (prompt_text(first) == prompt_text(second)) <==> first == second,
{
    prompt_ends_with_request(first);
    prompt_ends_with_request(second);
}

/// The two messages that every tool-enabled conversation starts with.
pub open spec fn initial_messages(user_request: Seq<char>) -> Seq<MessageView> {
    seq![
        MessageView { role: "system"@, content: SYSTEM_TEXT@, tool_calls: None },
        MessageView { role: "user"@, content: user_request, tool_calls: None },
    ]
}

/// Builds the opening of a conversation: the system message with the fixed
/// constraints, then the request as the user's message.
pub fn build_initial_messages(user_request: &str) -> (messages: Vec<Message>)
    ensures
        messages@.len() == 2,
        conversation_view(messages@) == initial_messages(user_request@),
{
    let mut messages: Vec<Message> = Vec::new();
    messages.push(Message::plain("system", copy_text(SYSTEM_TEXT)));
    messages.push(Message::plain("user", copy_text(user_request)));
    assert(conversation_view(messages@) =~= initial_messages(user_request@));
    messages
}

/// The one tool that is declared to the model: a web search that takes a
/// required text parameter `query`.
pub open spec fn web_search_declaration() -> ToolView {
    ToolView {
        tool_type: "function"@,
        name: "web_search"@,
        description: WEB_SEARCH_DESCRIPTION@,
        schema_type: "object"@,
        properties: seq![
            PropertyView {
                name: "query"@,
                value_type: "string"@,
                description: "The search query to execute"@,
            },
        ],
        required: seq!["query"@],
    }
}

/// Builds the tool declarations: exactly the web search declaration.
pub fn build_tool_definitions() -> (tools: Vec<Tool>)
    ensures
        tools@.len() == 1,
        declarations_view(tools@) == seq![web_search_declaration()],
{
    let mut properties: Vec<Property> = Vec::new();
    properties.push(
        Property {
            name: copy_text("query"),
            value_type: copy_text("string"),
            description: copy_text("The search query to execute"),
        },
    );
    let mut required: Vec<String> = Vec::new();
    required.push(copy_text("query"));
    let tool = Tool {
        tool_type: copy_text("function"),
        function: Function {
            name: copy_text("web_search"),
            description: copy_text(WEB_SEARCH_DESCRIPTION),
            parameters: ParameterSchema { schema_type: copy_text("object"), properties, required },
        },
    };
    assert(tool@.properties =~= web_search_declaration().properties);
    assert(tool@.required =~= web_search_declaration().required);
    let mut tools: Vec<Tool> = Vec::new();
    tools.push(tool);
    assert(declarations_view(tools@) =~= seq![web_search_declaration()]);
    tools
}

/// Why no request could be taken from the input.
#[derive(Debug)]
pub enum InputError {
    /// Nothing but white space was given.
    EmptyInput,
}

impl InputError {
    /// The error as a line of text.
    pub fn message(&self) -> (line: String)
        ensures
            line@ == "No prompt provided via argument or stdin"@,
    {
        copy_text("No prompt provided via argument or stdin")
    }
}

/// The request to work on: the one given on the command line where there is
/// one, else the piped input without surrounding white space, which must not
/// be empty.
pub open spec fn resolved_prompt(cli_prompt: Option<Seq<char>>, piped: Seq<char>) -> Option<
    Seq<char>,
> {
    match cli_prompt {
        Some(p) => Some(p),
        None => if trimmed_of(piped).len() == 0 {
            None
        } else {
            Some(trimmed_of(piped))
        },
    }
}

/// Picks the request from the command line's prompt and the piped input.
pub fn get_user_prompt(cli_prompt: Option<String>, piped: &str) -> (prompt: Result<
    String,
    InputError,
>)
    ensures
        match resolved_prompt(crate::text::optional_text(cli_prompt), piped@) {
            Some(p) => prompt is Ok && prompt->Ok_0@ == p,
            None => prompt is Err,
        },
{
    if let Some(p) = cli_prompt {
        return Ok(p);
    }
    let inner = trim(piped);
    if inner.unicode_len() == 0 {
        Err(InputError::EmptyInput)
    } else {
        Ok(copy_text(inner))
    }
}

} // verus!
