use term_ai::backend::{brave_results, duckduckgo_results, SearchError};
use term_ai::endpoint::{chat_failure, chat_url, generate_failure, generate_url, strip_trailing_slashes};
use term_ai::provider::Provider;
use term_ai::search::{collect_results, format_results, SearchResult};

fn record(title: &str, url: &str, snippet: &str) -> SearchResult {
    SearchResult { title: title.to_string(), url: url.to_string(), snippet: snippet.to_string() }
}

fn titles(results: &[SearchResult]) -> Vec<String> {
    results.iter().map(|r| r.title.clone()).collect()
}

#[test]
fn test_search_result_serialization() {
    let result = SearchResult {
        title: "Test Title".to_string(),
        url: "https://example.com".to_string(),
        snippet: "Test snippet".to_string(),
    };

    let json = format_results(&vec![result]);
    assert!(json.contains("Test Title"));
    assert!(json.contains("https://example.com"));
    assert!(json.contains("Test snippet"));
}

#[test]
fn results_are_written_as_indented_json() {
    let results = vec![record("Test Title", "https://example.com", "Test snippet")];
    assert_eq!(
        format_results(&results),
        "[\n  {\n    \"title\": \"Test Title\",\n    \"url\": \"https://example.com\",\n    \"snippet\": \"Test snippet\"\n  }\n]"
    );
}

#[test]
fn two_results_are_separated_by_a_comma() {
    let results = vec![record("A", "a.org", ""), record("B", "b.org", "b")];
    assert_eq!(
        format_results(&results),
        "[\n  {\n    \"title\": \"A\",\n    \"url\": \"a.org\",\n    \"snippet\": \"\"\n  },\n  {\n    \"title\": \"B\",\n    \"url\": \"b.org\",\n    \"snippet\": \"b\"\n  }\n]"
    );
}

#[test]
fn no_results_are_an_empty_array() {
    assert_eq!(format_results(&Vec::new()), "[]");
}

#[test]
fn texts_are_escaped_in_results() {
    let results = vec![record("say \"hi\"", "a\\b", "line\nbreak")];
    let text = format_results(&results);
    assert!(text.contains("\"title\": \"say \\\"hi\\\"\""));
    assert!(text.contains("\"url\": \"a\\\\b\""));
    assert!(text.contains("\"snippet\": \"line\\nbreak\""));
}

#[test]
fn incomplete_records_are_dropped() {
    let records = vec![
        record("", "a.org", "no title"),
        record("B", "", "no url"),
        record("C", "c.org", ""),
        record("", "", ""),
        record("E", "e.org", "e"),
    ];
    let results = collect_results(&records, 5);
    assert_eq!(titles(&results), vec!["C".to_string(), "E".to_string()]);
    assert_eq!(results[0].url, "c.org");
    assert_eq!(results[0].snippet, "");
    assert_eq!(results[1].snippet, "e");
}

#[test]
fn dropped_records_do_not_count_toward_the_cap() {
    let records = vec![
        record("", "x.org", ""),
        record("A", "a.org", ""),
        record("B", "", ""),
        record("C", "c.org", ""),
        record("D", "d.org", ""),
    ];
    let results = collect_results(&records, 2);
    assert_eq!(titles(&results), vec!["A".to_string(), "C".to_string()]);
}

#[test]
fn cap_of_zero_keeps_nothing() {
    let records = vec![record("A", "a.org", "")];
    assert!(collect_results(&records, 0).is_empty());
    assert!(collect_results(&Vec::new(), 3).is_empty());
}

#[test]
fn duckduckgo_page_is_scraped_in_document_order() {
    let html = "<html><body>\
        <div class=\"result\"><h2 class=\"result__title\"><a> Rust <b>Lang</b> </a></h2>\
        <a class=\"result__url\"> rust-lang.org </a><a class=\"result__snippet\">A language</a></div>\
        <div class=\"result\"><h2 class=\"result__title\">  </h2><a class=\"result__url\">x.org</a></div>\
        <div class=\"result\"><h2 class=\"result__title\">No address</h2></div>\
        <div class=\"result\"><h2 class=\"result__title\">Second</h2><a class=\"result__url\">second.org</a></div>\
        <div class=\"result\"><h2 class=\"result__title\">Third</h2><a class=\"result__url\">third.org</a></div>\
        </body></html>";
    let results = duckduckgo_results(html, 2).unwrap();
    assert_eq!(results.len(), 2);
    assert_eq!(results[0].title, "Rust Lang");
    assert_eq!(results[0].url, "rust-lang.org");
    assert_eq!(results[0].snippet, "A language");
    assert_eq!(results[1].title, "Second");
    assert_eq!(results[1].url, "second.org");
    assert_eq!(results[1].snippet, "");
    let all = duckduckgo_results(html, 10).unwrap();
    assert_eq!(titles(&all), vec!["Rust Lang".to_string(), "Second".to_string(), "Third".to_string()]);
}

#[test]
fn page_without_results_gives_none() {
    let results = duckduckgo_results("<html><body><p>nothing</p></body></html>", 5).unwrap();
    assert!(results.is_empty());
}

#[test]
fn brave_reply_is_read_in_array_order() {
    let body = "{\"web\":{\"results\":[\
        {\"title\":\"A\",\"url\":\"a.com\",\"description\":\"first\"},\
        {\"title\":\"\",\"url\":\"b.com\"},\
        {\"url\":\"c.com\",\"description\":\"no title\"},\
        {\"title\":7,\"url\":\"n.com\"},\
        {\"title\":\"D\",\"url\":\"d.com\"},\
        {\"title\":\"E\",\"url\":\"e.com\",\"description\":\"last\"}]}}";
    let results = brave_results(body, 2).unwrap();
    assert_eq!(results.len(), 2);
    assert_eq!(results[0].title, "A");
    assert_eq!(results[0].url, "a.com");
    assert_eq!(results[0].snippet, "first");
    assert_eq!(results[1].title, "D");
    assert_eq!(results[1].url, "d.com");
    assert_eq!(results[1].snippet, "");
    let all = brave_results(body, 5).unwrap();
    assert_eq!(titles(&all), vec!["A".to_string(), "D".to_string(), "E".to_string()]);
}

#[test]
fn brave_reply_without_a_list_gives_none() {
    assert!(brave_results("{\"web\":{}}", 5).unwrap().is_empty());
    assert!(brave_results("{\"web\":{\"results\":\"many\"}}", 5).unwrap().is_empty());
    assert!(brave_results("[]", 5).unwrap().is_empty());
}

#[test]
fn brave_reply_that_is_no_json_is_malformed() {
    match brave_results("<html>", 5) {
        Ok(_) => panic!("a malformed reply was accepted"),
        Err(e) => {
            assert!(matches!(e, SearchError::MalformedResponse));
            assert_eq!(e.message(), "Malformed search response");
        }
    }
}

#[test]
fn search_addresses() {
    let duck = Provider::DuckDuckGo;
    assert_eq!(
        duck.search_url("rust lang & c++", 5),
        "https://html.duckduckgo.com/html/?q=rust%20lang%20%26%20c%2B%2B"
    );
    let brave = Provider::Brave { api_key: "k".to_string() };
    assert_eq!(
        brave.search_url("latest node", 5),
        "https://api.search.brave.com/res/v1/web/search?q=latest%20node&count=5"
    );
    assert!(brave.search_url("q", 0).ends_with("&count=0"));
    assert!(brave.search_url("q", 10).ends_with("&count=10"));
    assert!(brave.search_url("q", 1207).ends_with("&count=1207"));
}

#[test]
fn credential_header_is_for_brave_alone() {
    assert!(Provider::DuckDuckGo.credential_header().is_none());
    let brave = Provider::Brave { api_key: "test-key".to_string() };
    assert_eq!(
        brave.credential_header(),
        Some(("X-Subscription-Token".to_string(), "test-key".to_string()))
    );
}

#[test]
fn status_failures_name_the_backend() {
    let failure = Provider::DuckDuckGo.status_failure("503 Service Unavailable");
    assert!(matches!(failure, SearchError::TransportFailure(_)));
    assert_eq!(failure.message(), "DuckDuckGo returned status: 503 Service Unavailable");
    let brave = Provider::Brave { api_key: "k".to_string() };
    assert_eq!(
        brave.status_failure("401 Unauthorized").message(),
        "Brave API returned status: 401 Unauthorized"
    );
}

#[test]
fn provider_reads_its_own_replies() {
    let brave = Provider::Brave { api_key: "k".to_string() };
    let results = brave
        .read_results("{\"web\":{\"results\":[{\"title\":\"A\",\"url\":\"a.com\"}]}}", 3)
        .unwrap();
    assert_eq!(titles(&results), vec!["A".to_string()]);
    let page = "<div class=\"result\"><span class=\"result__title\">T</span><span class=\"result__url\">u</span></div>";
    let results = Provider::DuckDuckGo.read_results(page, 3).unwrap();
    assert_eq!(titles(&results), vec!["T".to_string()]);
}

#[test]
fn model_addresses() {
    assert_eq!(generate_url("http://localhost:11434"), "http://localhost:11434/api/generate");
    assert_eq!(chat_url("http://localhost:11434/"), "http://localhost:11434/api/chat");
    assert_eq!(chat_url("http://host///"), "http://host/api/chat");
    assert_eq!(strip_trailing_slashes("///"), "");
    assert_eq!(strip_trailing_slashes("a/b"), "a/b");
    assert_eq!(strip_trailing_slashes(""), "");
}

#[test]
fn model_failures() {
    assert_eq!(generate_failure("500 Internal Server Error"), "Ollama returned status: 500 Internal Server Error");
    assert_eq!(
        chat_failure("404 Not Found", Some("model not found".to_string())),
        "Ollama returned status 404 Not Found: model not found"
    );
    assert_eq!(chat_failure("404 Not Found", None), "Ollama returned status 404 Not Found: Unknown error");
}
