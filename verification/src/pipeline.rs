use vstd::prelude::*;
use vstd::string::StringExecFns;

use crate::convert::convert;
use crate::convert::markdown_of;
use crate::errors::RenderError;

verus! {

/// The one outcome a URL's processing yields: either the page's markdown
/// document, handed to the output sink, or a single diagnostic line, logged
/// to the error stream. Every attempted URL yields exactly one of the two.
pub enum PageResult {
    /// The markdown conversion of the page's rendered HTML.
    Document(String),
    /// The diagnostic line for a failed rendering; the run continues.
    Failure(String),
}

impl PageResult {
    /// The emitted text: the markdown document, or the diagnostic line.
    pub fn text(&self) -> (r: &String)
        ensures
            self is Document ==> r@ == self->Document_0@,
            self is Failure ==> r@ == self->Failure_0@,
    {
        match self {
            PageResult::Document(m) => m,
            PageResult::Failure(line) => line,
        }
    }
}

/// The diagnostic line logged for one failed URL.
pub open spec fn diagnostic_of(e: RenderError) -> Seq<char> {
    "Error at fetching URL: "@ + e.spec_detail()
}

/// Build the diagnostic line for a failed rendering.
pub fn diagnostic_line(e: &RenderError) -> (r: String)
    ensures
        r@ == diagnostic_of(*e),
{
    let mut line: String = "Error at fetching URL: ".to_owned();
    let detail = e.detail();
    line.append(detail.as_str());
    line
}

/// What processing one URL must yield, given how its rendering went: a
/// successful rendering yields the markdown conversion of its HTML, and a
/// failed one yields its diagnostic line — never anything else.
pub open spec fn page_result_matches(outcome: Result<String, RenderError>, r: PageResult) -> bool {
    match outcome {
        Ok(h) => r is Document && r->Document_0@ == markdown_of(h@),
        Err(e) => r is Failure && r->Failure_0@ == diagnostic_of(e),
    }
}

/// Process one URL's render outcome: convert a rendered page to markdown,
/// or turn a failure into its diagnostic line. A failure is isolated here:
/// it becomes one line of output, not an abort.
pub fn process_page(outcome: &Result<String, RenderError>) -> (r: PageResult)
    ensures
        page_result_matches(*outcome, r),
{
    match outcome {
        Ok(h) => PageResult::Document(convert(h)),
        Err(e) => PageResult::Failure(diagnostic_line(e)),
    }
}

/// How many of a run's results were emitted documents.
pub open spec fn count_documents(rs: Seq<PageResult>) -> int
    decreases rs.len(),
{
    if rs.len() == 0 {
        0
    } else {
        (if rs[0] is Document { 1int } else { 0int }) + count_documents(rs.drop_first())
    }
}

/// How many of a run's results were logged failures.
pub open spec fn count_failures(rs: Seq<PageResult>) -> int
    decreases rs.len(),
{
    if rs.len() == 0 {
        0
    } else {
        (if rs[0] is Failure { 1int } else { 0int }) + count_failures(rs.drop_first())
    }
}

/// Every URL produces exactly one outcome: over any run's results, the
/// emitted documents and the logged failures together account for every
/// attempted URL.
pub proof fn lemma_batch_accounting(rs: Seq<PageResult>)
    ensures
        count_documents(rs) + count_failures(rs) == rs.len(),
    decreases rs.len(),
{
    if rs.len() > 0 {
        lemma_batch_accounting(rs.drop_first());
    }
}

/// The batch coordinator's compute step: process each URL's render outcome
/// in the given order. One result per input, in input order; a failure in
/// the middle neither stops the loop nor disturbs its neighbours.
pub fn run_batch(outcomes: &Vec<Result<String, RenderError>>) -> (r: Vec<PageResult>)
    ensures
        r@.len() == outcomes@.len(),
        forall|i: int|
            0 <= i < outcomes@.len() ==> page_result_matches(outcomes@[i], #[trigger] r@[i]),
        count_documents(r@) + count_failures(r@) == outcomes@.len(),
{
    let mut results: Vec<PageResult> = Vec::new();
    let n = outcomes.len();
    let mut i: usize = 0;
    while i < n
        invariant
            n == outcomes@.len(),
            i <= n,
            results@.len() == i as int,
            forall|j: int|
                0 <= j < i ==> page_result_matches(outcomes@[j], #[trigger] results@[j]),
        decreases n - i,
    {
        let pr = process_page(&outcomes[i]);
        results.push(pr);
        i = i + 1;
    }
    proof {
        lemma_batch_accounting(results@);
    }
    results
}

} // verus!
