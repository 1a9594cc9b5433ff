//! Execution of the tool invocations that the model issues.

use vstd::prelude::*;
use vstd::string::*;
use crate::json::{json_text_field, text_field};
use crate::message::{Message, MessageView, ToolCall, ToolCallView};
use crate::search::{SearchProvider, SearchResult, format_results, rendered_results, results_view};
use crate::text::{copy_text, optional_text, same_text};

verus! {

/// Why a tool invocation gave no result.
#[derive(Debug)]
pub enum ToolError {
    /// The model asked for a tool that was not declared.
    UnknownTool(String),
    /// The invocation lacks the text parameter `query`.
    MissingParameter,
}

pub enum ToolErrorView {
    UnknownTool(Seq<char>),
    MissingParameter,
}

impl View for ToolError {
    type V = ToolErrorView;

    open spec fn view(&self) -> ToolErrorView {
        match self {
            ToolError::UnknownTool(name) => ToolErrorView::UnknownTool(name@),
            ToolError::MissingParameter => ToolErrorView::MissingParameter,
        }
    }
}

impl ToolErrorView {
    /// The error as a line of text.
    pub open spec fn message(self) -> Seq<char> {
        match self {
            ToolErrorView::UnknownTool(name) => "Unknown tool: "@ + name,
            ToolErrorView::MissingParameter => "Missing 'query' parameter in tool call"@,
        }
    }
}

impl ToolError {
    /// The error as a line of text.
    pub fn message(&self) -> (line: String)
        ensures
            line@ == self@.message(),
    {
        match self {
            ToolError::UnknownTool(name) => {
                let mut line = copy_text("Unknown tool: ");
                line.append(name.as_str());
                line
            },
            ToolError::MissingParameter => copy_text("Missing 'query' parameter in tool call"),
        }
    }
}

/// The view of a text or of the failure to produce one.
pub open spec fn outcome_view(outcome: Result<String, ToolError>) -> Result<
    Seq<char>,
    ToolErrorView,
> {
    match outcome {
        Ok(text) => Ok(text@),
        Err(e) => Err(e@),
    }
}

/// The query that an invocation asks to search for: that of a `web_search`
/// invocation that carries one. Any other tool is unknown; a `web_search`
/// without the parameter lacks it.
pub open spec fn request_for(name: Seq<char>, query: Option<Seq<char>>) -> Result<
    Seq<char>,
    ToolErrorView,
> {
    if name != "web_search"@ {
        Err(ToolErrorView::UnknownTool(name))
    } else {
        match query {
            Some(q) => Ok(q),
            None => Err(ToolErrorView::MissingParameter),
        }
    }
}

/// Looks the tool's name up among the declared tools and takes the query,
/// given what the invocation's arguments hold under `query`.
pub fn requested_query(name: &str, query: Option<String>) -> (request: Result<String, ToolError>)
    ensures
        outcome_view(request) == request_for(name@, optional_text(query)),
{
    if !same_text(name, "web_search") {
        Err(ToolError::UnknownTool(copy_text(name)))
    } else {
        match query {
            Some(q) => Ok(q),
            None => Err(ToolError::MissingParameter),
        }
    }
}

/// The query that a tool invocation asks to search for, as its name and its
/// arguments give it.
pub open spec fn request_of(call: ToolCallView) -> Result<Seq<char>, ToolErrorView> {
    request_for(call.function.name, json_text_field(call.function.arguments, "query"@))
}

/// The query that a tool invocation asks to search for, read from its
/// arguments.
pub fn planned_search(tool_call: &ToolCall) -> (request: Result<String, ToolError>)
    ensures
        outcome_view(request) == request_of(tool_call@),
{
    let query = text_field(tool_call.function.arguments.as_str(), "query");
    requested_query(tool_call.function.name.as_str(), query)
}

/// What a search that ended gives the model: the results as text, or, where
/// the backend failed, a line that reports the failure.
pub open spec fn search_output(
    outcome: Result<Seq<crate::search::SearchResultView>, Seq<char>>,
) -> Seq<char> {
    match outcome {
        Ok(results) => rendered_results(results),
        Err(failure) => "Error executing tool: "@ + failure,
    }
}

/// The view of the outcome of a search.
pub open spec fn search_view(outcome: Result<Vec<SearchResult>, String>) -> Result<
    Seq<crate::search::SearchResultView>,
    Seq<char>,
> {
    match outcome {
        Ok(results) => Ok(results_view(results@)),
        Err(failure) => Err(failure@),
    }
}

/// Turns the outcome of a search into the tool's result. A failure of the
/// backend is no failure of the tool: it is told to the model as text.
pub fn tool_output(outcome: Result<Vec<SearchResult>, String>) -> (text: String)
    ensures
        text@ == search_output(search_view(outcome)),
{
    match outcome {
        Ok(results) => format_results(&results),
        Err(failure) => {
            let mut line = copy_text("Error executing tool: ");
            line.append(failure.as_str());
            line
        },
    }
}

/// Runs one tool invocation. An undeclared tool and a missing query fail
/// without a search. Otherwise the backend is asked once, for the query that
/// the arguments hold, and the tool succeeds whatever the backend returns:
/// with the results as text, or with a line that reports the backend's
/// failure.
pub fn execute_tool<P: SearchProvider>(tool_call: &ToolCall, provider: &P, max_results: usize) -> (output:
    Result<String, ToolError>)
    ensures
        match request_of(tool_call@) {
            Err(e) => outcome_view(output) == Err::<Seq<char>, ToolErrorView>(e),
            Ok(_) => output is Ok,
        },
{
    match planned_search(tool_call) {
        Err(e) => Err(e),
        Ok(query) => {
            let outcome = provider.search(query.as_str(), max_results);
            Ok(tool_output(outcome))
        },
    }
}

/// The message that tells the model how a tool invocation ended: its result,
/// or a line that reports the failure.
pub open spec fn tool_message(outcome: Result<Seq<char>, ToolErrorView>) -> MessageView {
    MessageView {
        role: "tool"@,
        content: match outcome {
            Ok(text) => text,
            Err(e) => "Error executing tool: "@ + e.message(),
        },
        tool_calls: None,
    }
}

/// Builds the tool-role message for the outcome of a tool invocation.
pub fn build_tool_message(outcome: Result<String, ToolError>) -> (message: Message)
    ensures
        message@ == tool_message(outcome_view(outcome)),
{
    let content = match outcome {
        Ok(text) => text,
        Err(e) => {
            let mut line = copy_text("Error executing tool: ");
            line.append(e.message().as_str());
            line
        },
    };
    Message::plain("tool", content)
}

/// A failed tool invocation is reported in a tool-role message whose content
/// starts with `Error executing tool: ` and goes on with the error's text.
pub proof fn failure_is_reported(error: ToolErrorView)
    ensures
        tool_message(Err(error)).role == "tool"@,
        tool_message(Err(error)).tool_calls is None,
        tool_message(Err(error)).content.len() == "Error executing tool: "@.len()
            + error.message().len(),
        tool_message(Err(error)).content.subrange(0, "Error executing tool: "@.len() as int)
            == "Error executing tool: "@,
{
    let content = tool_message(Err(error)).content;
    assert(content.subrange(0, "Error executing tool: "@.len() as int)
        =~= "Error executing tool: "@);
}

/// A failure of the search backend reaches the model as the content of a
/// tool-role message that starts with `Error executing tool: ` and goes on
/// with the failure's text.
pub proof fn backend_failure_is_reported(failure: Seq<char>)
    ensures
        tool_message(Ok(search_output(Err(failure)))).role == "tool"@,
        tool_message(Ok(search_output(Err(failure)))).content == "Error executing tool: "@
            + failure,
        tool_message(Ok(search_output(Err(failure)))).content.subrange(
            0,
            "Error executing tool: "@.len() as int,
        ) == "Error executing tool: "@,
{
    let content = tool_message(Ok(search_output(Err(failure)))).content;
    assert(content.subrange(0, "Error executing tool: "@.len() as int)
        =~= "Error executing tool: "@);
}

} // verus!
