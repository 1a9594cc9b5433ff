//! Search results: the records that a backend hands out, the rule by which
//! incomplete records are dropped and the rest capped, and the text in which
//! results are given to the model.

use vstd::prelude::*;
use vstd::string::*;
use crate::text::copy_text;
use crate::json::{json_quoted, quote};

verus! {

/// One search result.
#[derive(Debug)]
pub struct SearchResult {
    pub title: String,
    pub url: String,
    pub snippet: String,
}

pub struct SearchResultView {
    pub title: Seq<char>,
    pub url: Seq<char>,
    pub snippet: Seq<char>,
}

impl View for SearchResult {
    type V = SearchResultView;

    open spec fn view(&self) -> SearchResultView {
        SearchResultView { title: self.title@, url: self.url@, snippet: self.snippet@ }
    }
}

/// The views of a sequence of results, in order.
pub open spec fn results_view(results: Seq<SearchResult>) -> Seq<SearchResultView> {
    results.map_values(|r: SearchResult| r@)
}

/// A capability to search the web. The library decides nothing about what an
/// implementation returns.
pub trait SearchProvider {
    /// The backend's identifier.
    fn name(&self) -> String;

    /// The results for a query, most relevant first, or the failure as text.
    fn search(&self, query: &str, max_results: usize) -> Result<Vec<SearchResult>, String>;
}

/// A record is complete when it has both a title and a url.
pub open spec fn is_complete(record: SearchResultView) -> bool {
    record.title.len() > 0 && record.url.len() > 0
}

/// The complete records among `records`, in their order.
pub open spec fn complete_ones(records: Seq<SearchResultView>) -> Seq<SearchResultView>
    decreases records.len(),
{
    if records.len() == 0 {
        Seq::empty()
    } else if is_complete(records.last()) {
        complete_ones(records.drop_last()).push(records.last())
    } else {
        complete_ones(records.drop_last())
    }
}

/// The results that are handed out of `records` under a cap: the first `max`
/// complete ones, in their order.
pub open spec fn kept(records: Seq<SearchResultView>, max: nat) -> Seq<SearchResultView> {
    let complete = complete_ones(records);
    if complete.len() <= max {
        complete
    } else {
        complete.take(max as int)
    }
}

/// The complete records of a sequence followed by another are those of the
/// first followed by those of the second.
pub proof fn complete_ones_of_concatenation(
    front: Seq<SearchResultView>,
    back: Seq<SearchResultView>,
)
    ensures
        complete_ones(front + back) == complete_ones(front) + complete_ones(back),
    decreases back.len(),
{
    if back.len() == 0 {
        assert(front + back =~= front);
        assert(complete_ones(front) + complete_ones(back) =~= complete_ones(front));
    } else {
        let whole = front + back;
        assert(whole.drop_last() =~= front + back.drop_last());
        assert(whole.last() == back.last());
        complete_ones_of_concatenation(front, back.drop_last());
        if is_complete(back.last()) {
            assert(complete_ones(whole) =~= complete_ones(front) + complete_ones(back));
        }
    }
}

/// An incomplete record is dropped and does not count toward the cap: with or
/// without it, wherever it stands, the same results are handed out.
pub proof fn incomplete_record_changes_nothing(
    front: Seq<SearchResultView>,
    record: SearchResultView,
    back: Seq<SearchResultView>,
    max: nat,
)
    requires
        !is_complete(record),
    ensures
        kept(front + seq![record] + back, max) == kept(front + back, max),
{
    let one = seq![record];
    assert(one.last() == record);
    assert(complete_ones(one.drop_last()) =~= Seq::<SearchResultView>::empty());
    assert(complete_ones(one) =~= Seq::<SearchResultView>::empty());
    complete_ones_of_concatenation(front, one);
    complete_ones_of_concatenation(front + one, back);
    complete_ones_of_concatenation(front, back);
    assert(complete_ones(front) + complete_ones(one) =~= complete_ones(front));
}

/// What is handed out holds complete records only, at most `max` of them.
pub proof fn kept_is_complete_and_capped(records: Seq<SearchResultView>, max: nat)
    ensures
        kept(records, max).len() <= max,
        kept(records, max).len() <= records.len(),
        forall|i: int|
            0 <= i < kept(records, max).len() ==> is_complete(#[trigger] kept(records, max)[i]),
{
    complete_ones_are_complete(records);
}

/// Every record among the complete ones is complete, and there are no more of
/// them than records.
pub proof fn complete_ones_are_complete(records: Seq<SearchResultView>)
    ensures
        complete_ones(records).len() <= records.len(),
        forall|i: int| 0 <= i < complete_ones(records).len() ==> is_complete(#[trigger] complete_ones(records)[i]),
    decreases records.len(),
{
    if records.len() > 0 {
        complete_ones_are_complete(records.drop_last());
    }
}

/// Drops the records that lack a title or a url and hands out the first
/// `max_results` of the rest, in their order.
pub fn collect_results(records: &Vec<SearchResult>, max_results: usize) -> (results: Vec<
    SearchResult,
>)
    ensures
        results_view(results@) == kept(results_view(records@), max_results as nat),
{
    let ghost all = results_view(records@);
    let mut results: Vec<SearchResult> = Vec::new();
    let mut i: usize = 0;
    assert(all.take(0) =~= Seq::<SearchResultView>::empty());
    while i < records.len()
        invariant
            i <= records.len(),
            all == results_view(records@),
            results_view(results@) == kept(all.take(i as int), max_results as nat),
        decreases records.len() - i,
    {
        let record = &records[i];
        let ghost before = results_view(results@);
        proof {
            assert(all.take(i + 1).drop_last() =~= all.take(i as int));
            assert(all.take(i + 1).last() == record@);
            complete_ones_are_complete(all.take(i as int));
        }
        if record.title.as_str().unicode_len() > 0 && record.url.as_str().unicode_len() > 0
            && results.len() < max_results {
            results.push(
                SearchResult {
                    title: copy_text(record.title.as_str()),
                    url: copy_text(record.url.as_str()),
                    snippet: copy_text(record.snippet.as_str()),
                },
            );
            assert(results_view(results@) =~= before.push(record@));
        }
        assert(results_view(results@) =~= kept(all.take(i + 1), max_results as nat));
        i += 1;
    }
    assert(all.take(i as int) =~= all);
    results
}

/// One result as an indented JSON object with its three fields in the order
/// title, url, snippet.
pub open spec fn rendered_result(record: SearchResultView) -> Seq<char> {
    "  {\n    \"title\": "@ + json_quoted(record.title) + ",\n    \"url\": "@ + json_quoted(
        record.url,
    ) + ",\n    \"snippet\": "@ + json_quoted(record.snippet) + "\n  }"@
}

/// The results one after the other, each on lines of its own, with a comma
/// between two of them.
pub open spec fn rendered_rows(records: Seq<SearchResultView>) -> Seq<char>
    decreases records.len(),
{
    if records.len() == 0 {
        Seq::empty()
    } else if records.len() == 1 {
        rendered_result(records.last())
    } else {
        rendered_rows(records.drop_last()) + ",\n"@ + rendered_result(records.last())
    }
}

/// The results as indented JSON text: an array of objects, in the results'
/// order; `[]` where there is none.
pub open spec fn rendered_results(records: Seq<SearchResultView>) -> Seq<char> {
    if records.len() == 0 {
        "[]"@
    } else {
        "[\n"@ + rendered_rows(records) + "\n]"@
    }
}

/// Writes the results as the text that the model is given.
pub fn format_results(results: &Vec<SearchResult>) -> (text: String)
    ensures
        text@ == rendered_results(results_view(results@)),
{
    if results.len() == 0 {
        return copy_text("[]");
    }
    let ghost all = results_view(results@);
    let mut text = copy_text("[\n");
    let mut i: usize = 0;
    assert(all.take(0) =~= Seq::<SearchResultView>::empty());
    assert(text@ =~= "[\n"@ + rendered_rows(all.take(0)));
    while i < results.len()
        invariant
            i <= results.len(),
            all == results_view(results@),
            text@ == "[\n"@ + rendered_rows(all.take(i as int)),
        decreases results.len() - i,
    {
        let record = &results[i];
        proof {
            assert(all.take(i + 1).drop_last() =~= all.take(i as int));
            assert(all.take(i + 1).last() == record@);
        }
        let ghost start = text@;
        if i > 0 {
            text.append(",\n");
        }
        text.append("  {\n    \"title\": ");
        text.append(quote(record.title.as_str()).as_str());
        text.append(",\n    \"url\": ");
        text.append(quote(record.url.as_str()).as_str());
        text.append(",\n    \"snippet\": ");
        text.append(quote(record.snippet.as_str()).as_str());
        text.append("\n  }");
        assert(text@ =~= "[\n"@ + rendered_rows(all.take(i + 1)));
        i += 1;
    }
    assert(all.take(i as int) =~= all);
    text.append("\n]");
    text
}

} // verus!
