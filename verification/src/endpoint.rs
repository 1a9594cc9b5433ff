//! The addresses of the model server and the lines that report its failures.

use vstd::prelude::*;
use vstd::string::*;
use crate::text::copy_text;

verus! {

/// A text without the slashes at its end.
pub open spec fn without_trailing_slashes(text: Seq<char>) -> Seq<char>
    decreases text.len(),
{
    if text.len() > 0 && text.last() == '/' {
        without_trailing_slashes(text.drop_last())
    } else {
        text
    }
}

/// Cuts the slashes off the end of a text.
pub fn strip_trailing_slashes(text: &str) -> (stripped: &str)
    ensures
        stripped@ == without_trailing_slashes(text@),
{
    let mut n: usize = text.unicode_len();
    assert(text@.take(n as int) =~= text@);
    while n > 0 && text.get_char(n - 1) == '/'
        invariant
            n <= text@.len(),
            without_trailing_slashes(text@) == without_trailing_slashes(text@.take(n as int)),
        decreases n,
    {
        assert(text@.take(n as int).drop_last() =~= text@.take(n - 1));
        n -= 1;
    }
    assert(text@.subrange(0, n as int) =~= text@.take(n as int));
    text.substring_char(0, n)
}

/// The address of the single-shot endpoint of a server.
pub open spec fn generate_address(endpoint: Seq<char>) -> Seq<char> {
    without_trailing_slashes(endpoint) + "/api/generate"@
}

/// The address of the conversation endpoint of a server.
pub open spec fn chat_address(endpoint: Seq<char>) -> Seq<char> {
    without_trailing_slashes(endpoint) + "/api/chat"@
}

/// The address to post a single-shot prompt to.
pub fn generate_url(endpoint: &str) -> (url: String)
    ensures
        url@ == generate_address(endpoint@),
{
    let mut url = copy_text(strip_trailing_slashes(endpoint));
    url.append("/api/generate");
    url
}

/// The address to post a conversation to.
pub fn chat_url(endpoint: &str) -> (url: String)
    ensures
        url@ == chat_address(endpoint@),
{
    let mut url = copy_text(strip_trailing_slashes(endpoint));
    url.append("/api/chat");
    url
}

/// The line that reports a single-shot reply without success, given its
/// status as text.
pub fn generate_failure(status: &str) -> (line: String)
    ensures
        line@ == "Ollama returned status: "@ + status@,
{
    let mut line = copy_text("Ollama returned status: ");
    line.append(status);
    line
}

/// The line that reports a conversation reply without success, given its
/// status as text and its body, where the body could be read.
pub fn chat_failure(status: &str, body: Option<String>) -> (line: String)
    ensures
        line@ == "Ollama returned status "@ + status@ + ": "@ + match body {
            Some(text) => text@,
            None => "Unknown error"@,
        },
{
    let mut line = copy_text("Ollama returned status ");
    line.append(status);
    line.append(": ");
    match body {
        Some(text) => line.append(text.as_str()),
        None => line.append("Unknown error"),
    }
    line
}

} // verus!
