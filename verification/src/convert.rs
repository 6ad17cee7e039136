use vstd::prelude::*;

verus! {

/// The markdown text that the HTML-to-markdown grammar yields for a given
/// HTML text. The grammar itself is outside this library's scope; what the
/// pipeline's contracts need is that the result is a function of the input
/// string alone: the conversion is deterministic, and it is total (every
/// string, well-formed HTML or not, has a markdown rendering).
pub uninterp spec fn markdown_of(html: Seq<char>) -> Seq<char>;

/// Relies on html2md::parse_html: it maps an HTML string to a best-effort
/// markdown string, returns for every input rather than failing on
/// malformed markup, and reads nothing but its argument, so its result
/// depends on the input string alone. An empty input has no content to
/// render, and yields the empty string.
#[verifier::external_body]
fn parse_html_markdown(html: &str) -> (r: String)
    ensures
        r@ == markdown_of(html@),
        html@.len() == 0 ==> r@.len() == 0,
{
    html2md::parse_html(html)
}

/// Convert one rendered page's HTML to markdown. Total: any input string,
/// including the empty string and malformed tag soup, yields a markdown
/// string; the conversion never fails the pipeline.
pub fn convert(html: &String) -> (r: String)
    ensures
        r@ == markdown_of(html@),
        html@.len() == 0 ==> r@.len() == 0,
{
    parse_html_markdown(html.as_str())
}

/// The conversion is deterministic: the same HTML text always yields the
/// same markdown text.
pub proof fn lemma_convert_deterministic(h1: Seq<char>, h2: Seq<char>)
    requires
        h1 == h2,
    ensures
        markdown_of(h1) == markdown_of(h2),
{
}

} // verus!
