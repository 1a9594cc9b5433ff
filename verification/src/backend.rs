//! The two search backends: where a query is sent, and how the results are
//! read out of what comes back.

use vstd::prelude::*;
use vstd::string::*;
use crate::json::{json_list_at, json_text_field, list_at, text_field, texts_view};
use crate::provider::Provider;
use crate::search::{SearchResult, SearchResultView, collect_results, kept, results_view};
use crate::text::{copy_text, trim, trimmed_of};

verus! {

/// A text with every byte but letters, digits, `-`, `_`, `.` and `~`
/// percent-encoded, as `urlencoding::encode` writes it.
pub uninterp spec fn percent_encoded(text: Seq<char>) -> Seq<char>;

/// The result blocks of an HTML document: for each element that matches the
/// selector `block`, in the order in which the parsed tree yields them, the
/// text of the first element below it that matches `title`, `url` and
/// `snippet`, where there is one. `None` where one of the four is no
/// selector.
pub uninterp spec fn html_blocks(
    html: Seq<char>,
    block: Seq<char>,
    title: Seq<char>,
    url: Seq<char>,
    snippet: Seq<char>,
) -> Option<Seq<(Option<Seq<char>>, Option<Seq<char>>, Option<Seq<char>>)>>;

/// The view of a scraped block: its title, url and snippet, where found.
pub open spec fn block_view(block: (Option<String>, Option<String>, Option<String>)) -> (
    Option<Seq<char>>,
    Option<Seq<char>>,
    Option<Seq<char>>,
) {
    (
        crate::text::optional_text(block.0),
        crate::text::optional_text(block.1),
        crate::text::optional_text(block.2),
    )
}

/// The views of scraped blocks, in order.
pub open spec fn blocks_view(blocks: Seq<(Option<String>, Option<String>, Option<String>)>) -> Seq<
    (Option<Seq<char>>, Option<Seq<char>>, Option<Seq<char>>),
> {
    blocks.map_values(|b: (Option<String>, Option<String>, Option<String>)| block_view(b))
}

/// The view of the outcome of scraping.
pub open spec fn scraped_view(
    blocks: Option<Vec<(Option<String>, Option<String>, Option<String>)>>,
) -> Option<Seq<(Option<Seq<char>>, Option<Seq<char>>, Option<Seq<char>>)>> {
    match blocks {
        Some(list) => Some(blocks_view(list@)),
        None => None,
    }
}

/// Calls `urlencoding::encode`. Trusted: the result is the percent-encoded
/// form of the text, which depends on the text alone.
#[verifier::external_body]
pub(crate) fn percent_encode(text: &str) -> (encoded: String)
    ensures
        encoded@ == percent_encoded(text@),
{
    urlencoding::encode(text).into_owned()
}

/// Parses the document with `scraper::Html::parse_document` and the four
/// selectors with `scraper::Selector::parse`, walks the matches of `block`
/// with `Html::select` and takes, inside each, the text of the first match of
/// each of the other three (`ElementRef::select`, `ElementRef::text`).
/// Trusted: the result is a function of the five texts alone.
#[verifier::external_body]
pub(crate) fn select_blocks(html: &str, block: &str, title: &str, url: &str, snippet: &str) -> (blocks:
    Option<Vec<(Option<String>, Option<String>, Option<String>)>>)
    ensures
        scraped_view(blocks) == html_blocks(html@, block@, title@, url@, snippet@),
{
    let document = scraper::Html::parse_document(html);
    let b = scraper::Selector::parse(block).ok()?;
    let t = scraper::Selector::parse(title).ok()?;
    let u = scraper::Selector::parse(url).ok()?;
    let s = scraper::Selector::parse(snippet).ok()?;
    let text = |e: scraper::ElementRef, f| e.select(f).next().map(|x| x.text().collect());
    Some(document.select(&b).map(|e| (text(e, &t), text(e, &u), text(e, &s))).collect())
}

/// Why a search gave no results.
#[derive(Debug)]
pub enum SearchError {
    /// The backend could not be reached in time, or replied without success;
    /// the text says how.
    TransportFailure(String),
    /// What came back does not have the expected shape.
    MalformedResponse,
}

impl SearchError {
    /// The error as a line of text.
    pub open spec fn spec_message(self) -> Seq<char> {
        match self {
            SearchError::TransportFailure(text) => text@,
            SearchError::MalformedResponse => "Malformed search response"@,
        }
    }

    /// The error as a line of text.
    pub fn message(&self) -> (line: String)
        ensures
            line@ == self.spec_message(),
    {
        match self {
            SearchError::TransportFailure(text) => copy_text(text.as_str()),
            SearchError::MalformedResponse => copy_text("Malformed search response"),
        }
    }
}

/// The character of a decimal digit.
pub open spec fn digit_char(digit: nat) -> char {
    if digit == 0 {
        '0'
    } else if digit == 1 {
        '1'
    } else if digit == 2 {
        '2'
    } else if digit == 3 {
        '3'
    } else if digit == 4 {
        '4'
    } else if digit == 5 {
        '5'
    } else if digit == 6 {
        '6'
    } else if digit == 7 {
        '7'
    } else if digit == 8 {
        '8'
    } else {
        '9'
    }
}

/// A number in decimal, without leading zeros.
pub open spec fn decimal(number: nat) -> Seq<char>
    decreases number,
{
    if number < 10 {
        seq![digit_char(number)]
    } else {
        decimal(number / 10).push(digit_char(number % 10))
    }
}

fn digit_text(digit: usize) -> (text: &'static str)
    requires
        digit < 10,
    ensures
        text@ == seq![digit_char(digit as nat)],
{
    proof {
        reveal_strlit("0");
        reveal_strlit("1");
        reveal_strlit("2");
        reveal_strlit("3");
        reveal_strlit("4");
        reveal_strlit("5");
        reveal_strlit("6");
        reveal_strlit("7");
        reveal_strlit("8");
        reveal_strlit("9");
    }
    let text = if digit == 0 {
        "0"
    } else if digit == 1 {
        "1"
    } else if digit == 2 {
        "2"
    } else if digit == 3 {
        "3"
    } else if digit == 4 {
        "4"
    } else if digit == 5 {
        "5"
    } else if digit == 6 {
        "6"
    } else if digit == 7 {
        "7"
    } else if digit == 8 {
        "8"
    } else {
        "9"
    };
    assert(text@ =~= seq![digit_char(digit as nat)]);
    text
}

/// Appends a number in decimal to a text.
pub fn append_decimal(text: &mut String, number: usize)
    ensures
        final(text)@ == old(text)@ + decimal(number as nat),
    decreases number,
{
    if number >= 10 {
        append_decimal(text, number / 10);
    }
    text.append(digit_text(number % 10));
    assert(text@ =~= old(text)@ + decimal(number as nat));
}

/// Where the scraping backend is asked for a query.
pub open spec fn duckduckgo_address(query: Seq<char>) -> Seq<char> {
    "https://html.duckduckgo.com/html/?q="@ + percent_encoded(query)
}

/// Where the keyed backend is asked for a query and a number of results.
pub open spec fn brave_address(query: Seq<char>, count: nat) -> Seq<char> {
    "https://api.search.brave.com/res/v1/web/search?q="@ + percent_encoded(query) + "&count="@
        + decimal(count)
}

/// A scraped text without surrounding white space; empty where nothing was
/// found.
pub open spec fn trimmed_or_empty(text: Option<Seq<char>>) -> Seq<char> {
    match text {
        Some(t) => trimmed_of(t),
        None => Seq::empty(),
    }
}

/// The record that a scraped block stands for.
pub open spec fn scraped_record(
    block: (Option<Seq<char>>, Option<Seq<char>>, Option<Seq<char>>),
) -> SearchResultView {
    SearchResultView {
        title: trimmed_or_empty(block.0),
        url: trimmed_or_empty(block.1),
        snippet: trimmed_or_empty(block.2),
    }
}

/// The records that scraped blocks stand for, in the blocks' order.
pub open spec fn scraped_records(
    blocks: Seq<(Option<Seq<char>>, Option<Seq<char>>, Option<Seq<char>>)>,
) -> Seq<SearchResultView> {
    blocks.map_values(
        |b: (Option<Seq<char>>, Option<Seq<char>>, Option<Seq<char>>)| scraped_record(b),
    )
}

/// The results in a page of the scraping backend: the blocks of class
/// `result` in the order in which the page holds them, those without a title
/// or a url dropped, up to `max`. `None` where the page could not be read.
pub open spec fn duckduckgo_outcome(html: Seq<char>, max: nat) -> Option<Seq<SearchResultView>> {
    match html_blocks(html, ".result"@, ".result__title"@, ".result__url"@, ".result__snippet"@) {
        Some(blocks) => Some(kept(scraped_records(blocks), max)),
        None => None,
    }
}

/// A text under a key of a JSON object; empty where there is none.
pub open spec fn field_or_empty(item: Seq<char>, key: Seq<char>) -> Seq<char> {
    match json_text_field(item, key) {
        Some(t) => t,
        None => Seq::empty(),
    }
}

/// The record that an entry of the keyed backend's result list stands for.
pub open spec fn listed_record(item: Seq<char>) -> SearchResultView {
    SearchResultView {
        title: field_or_empty(item, "title"@),
        url: field_or_empty(item, "url"@),
        snippet: field_or_empty(item, "description"@),
    }
}

/// The results in a reply of the keyed backend: the entries of the array
/// under `web`, `results` in their order, those without a title or a url
/// dropped, up to `max`; none where there is no such array. `None` where the
/// reply is no JSON.
pub open spec fn brave_outcome(body: Seq<char>, max: nat) -> Option<Seq<SearchResultView>> {
    match json_list_at(body, "web"@, "results"@) {
        None => None,
        Some(None) => Some(Seq::empty()),
        Some(Some(items)) => Some(kept(items.map_values(|i: Seq<char>| listed_record(i)), max)),
    }
}

/// Whether the outcome of reading a reply is the expected one: the expected
/// results, or, where none can be read, a malformed response.
pub open spec fn reads_as(
    outcome: Result<Vec<SearchResult>, SearchError>,
    expected: Option<Seq<SearchResultView>>,
) -> bool {
    match expected {
        Some(results) => outcome is Ok && results_view(outcome->Ok_0@) == results,
        None => outcome is Err && outcome->Err_0 is MalformedResponse,
    }
}

fn trimmed_text(text: &Option<String>) -> (inner: String)
    ensures
        inner@ == trimmed_or_empty(crate::text::optional_text(*text)),
{
    match text {
        Some(t) => copy_text(trim(t.as_str())),
        None => String::new(),
    }
}

fn field_text(item: &str, key: &str) -> (field: String)
    ensures
        field@ == field_or_empty(item@, key@),
{
    match text_field(item, key) {
        Some(t) => t,
        None => String::new(),
    }
}

/// The records that scraped blocks stand for, in the blocks' order.
pub fn records_of_blocks(blocks: &Vec<(Option<String>, Option<String>, Option<String>)>) -> (records:
    Vec<SearchResult>)
    ensures
        results_view(records@) == scraped_records(blocks_view(blocks@)),
{
    let mut records: Vec<SearchResult> = Vec::new();
    let mut i: usize = 0;
    while i < blocks.len()
        invariant
            i <= blocks.len(),
            records@.len() == i,
            forall|j: int|
                0 <= j < i ==> (#[trigger] records@[j])@ == scraped_record(block_view(blocks@[j])),
        decreases blocks.len() - i,
    {
        let block = &blocks[i];
        records.push(
            SearchResult {
                title: trimmed_text(&block.0),
                url: trimmed_text(&block.1),
                snippet: trimmed_text(&block.2),
            },
        );
        i += 1;
    }
    assert(results_view(records@) =~= scraped_records(blocks_view(blocks@)));
    records
}

/// The records that the entries of a result list stand for, in the list's
/// order.
pub fn records_of_items(items: &Vec<String>) -> (records: Vec<SearchResult>)
    ensures
        results_view(records@) == texts_view(items@).map_values(
            |i: Seq<char>| listed_record(i),
        ),
{
    let mut records: Vec<SearchResult> = Vec::new();
    let mut i: usize = 0;
    while i < items.len()
        invariant
            i <= items.len(),
            records@.len() == i,
            forall|j: int| 0 <= j < i ==> (#[trigger] records@[j])@ == listed_record(items@[j]@),
        decreases items.len() - i,
    {
        let item = items[i].as_str();
        records.push(
            SearchResult {
                title: field_text(item, "title"),
                url: field_text(item, "url"),
                snippet: field_text(item, "description"),
            },
        );
        i += 1;
    }
    assert(results_view(records@) =~= texts_view(items@).map_values(
        |i: Seq<char>| listed_record(i),
    ));
    records
}

/// Reads the results out of a page of the scraping backend.
pub fn duckduckgo_results(html: &str, max_results: usize) -> (outcome: Result<
    Vec<SearchResult>,
    SearchError,
>)
    ensures
        reads_as(outcome, duckduckgo_outcome(html@, max_results as nat)),
{
    match select_blocks(html, ".result", ".result__title", ".result__url", ".result__snippet") {
        Some(blocks) => {
            let records = records_of_blocks(&blocks);
            Ok(collect_results(&records, max_results))
        },
        None => Err(SearchError::MalformedResponse),
    }
}

/// Reads the results out of a reply of the keyed backend.
pub fn brave_results(body: &str, max_results: usize) -> (outcome: Result<
    Vec<SearchResult>,
    SearchError,
>)
    ensures
        reads_as(outcome, brave_outcome(body@, max_results as nat)),
{
    match list_at(body, "web", "results") {
        None => Err(SearchError::MalformedResponse),
        Some(None) => {
            let results: Vec<SearchResult> = Vec::new();
            assert(results_view(results@) =~= Seq::<SearchResultView>::empty());
            Ok(results)
        },
        Some(Some(items)) => {
            let records = records_of_items(&items);
            Ok(collect_results(&records, max_results))
        },
    }
}

impl Provider {
    /// Where the backend is asked for a query and a number of results.
    pub open spec fn address(self, query: Seq<char>, max: nat) -> Seq<char> {
        match self {
            Provider::DuckDuckGo => duckduckgo_address(query),
            Provider::Brave { .. } => brave_address(query, max),
        }
    }

    /// What a reply of the backend holds.
    pub open spec fn outcome(self, body: Seq<char>, max: nat) -> Option<Seq<SearchResultView>> {
        match self {
            Provider::DuckDuckGo => duckduckgo_outcome(body, max),
            Provider::Brave { .. } => brave_outcome(body, max),
        }
    }

    /// The address to fetch for a query.
    pub fn search_url(&self, query: &str, max_results: usize) -> (url: String)
        ensures
            url@ == self.address(query@, max_results as nat),
    {
        match self {
            Provider::DuckDuckGo => {
                let mut url = copy_text("https://html.duckduckgo.com/html/?q=");
                url.append(percent_encode(query).as_str());
                url
            },
            Provider::Brave { .. } => {
                let mut url = copy_text("https://api.search.brave.com/res/v1/web/search?q=");
                url.append(percent_encode(query).as_str());
                url.append("&count=");
                append_decimal(&mut url, max_results);
                url
            },
        }
    }

    /// The header that carries the credential, as name and value, where the
    /// backend takes one.
    pub fn credential_header(&self) -> (header: Option<(String, String)>)
        ensures
            match *self {
                Provider::DuckDuckGo => header is None,
                Provider::Brave { api_key } => header is Some && header->Some_0.0@
                    == "X-Subscription-Token"@ && header->Some_0.1@ == api_key@,
            },
    {
        match self {
            Provider::DuckDuckGo => None,
            Provider::Brave { api_key } => Some(
                (copy_text("X-Subscription-Token"), copy_text(api_key.as_str())),
            ),
        }
    }

    /// The failure that a reply without success makes, given its status as
    /// text.
    pub fn status_failure(&self, status: &str) -> (failure: SearchError)
        ensures
            failure is TransportFailure,
            failure.spec_message() == match *self {
                Provider::DuckDuckGo => "DuckDuckGo returned status: "@ + status@,
                Provider::Brave { .. } => "Brave API returned status: "@ + status@,
            },
    {
        let mut line = match self {
            Provider::DuckDuckGo => copy_text("DuckDuckGo returned status: "),
            Provider::Brave { .. } => copy_text("Brave API returned status: "),
        };
        line.append(status);
        SearchError::TransportFailure(line)
    }

    /// Reads the results out of a reply of the backend.
    pub fn read_results(&self, body: &str, max_results: usize) -> (outcome: Result<
        Vec<SearchResult>,
        SearchError,
    >)
        ensures
            reads_as(outcome, self.outcome(body@, max_results as nat)),
    {
        match self {
            Provider::DuckDuckGo => duckduckgo_results(body, max_results),
            Provider::Brave { .. } => brave_results(body, max_results),
        }
    }
}

} // verus!
