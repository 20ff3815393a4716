use vstd::prelude::*;

use crate::markdown::{markdown_events, markdown_html, markdown_to_confluence, markdown_to_html};
use crate::links::paired_links;
use crate::transcode::transcode_spec;

verus! {

/// The placeholder of a page template that receives the rendered HTML.
pub const HTML_SLOT: &'static str = "{{ rendered_html }}";

/// The placeholder of a page template that receives the Confluence markup.
pub const CONFLUENCE_SLOT: &'static str = "{{ confluence_content }}";

/// `s` with each occurrence of `from` replaced by `to`, the occurrences taken
/// from the left without overlap. An empty `from` leaves `s` as it is.
pub open spec fn replace_all(s: Seq<char>, from: Seq<char>, to: Seq<char>) -> Seq<char>
    decreases s.len(),
{
    if from.len() == 0 || s.len() < from.len() {
        s
    } else if s.take(from.len() as int) == from {
        to + replace_all(s.skip(from.len() as int), from, to)
    } else {
        seq![s[0]] + replace_all(s.skip(1), from, to)
    }
}

/// Relies on str::replace: every match of `from`, searched from the left
/// and without overlap, is replaced by `to`.
#[verifier::external_body]
fn replace_str(s: &str, from: &str, to: &str) -> (r: String)
    requires
        from@.len() > 0,
    ensures
        r@ == replace_all(s@, from@, to@),
{
    s.replace(from, to)
}

/// The page for a Markdown document: the template with its HTML placeholder
/// replaced by the rendered HTML, and then its Confluence placeholder
/// replaced by the Confluence markup.
pub open spec fn page_spec(template: Seq<char>, source: Seq<char>) -> Seq<char> {
    replace_all(
        replace_all(template, HTML_SLOT@, markdown_html(source)),
        CONFLUENCE_SLOT@,
        transcode_spec(paired_links(markdown_events(source))),
    )
}

/// Fills a page template with the HTML rendering and the Confluence markup
/// of a Markdown document.
pub fn render_page(template: &str, source: &str) -> (r: String)
    ensures
        r@ == page_spec(template@, source@),
{
    let html = markdown_to_html(source);
    let confluence = markdown_to_confluence(source);
    proof {
        reveal_strlit("{{ rendered_html }}");
        reveal_strlit("{{ confluence_content }}");
    }
    let with_html = replace_str(template, HTML_SLOT, html.as_str());
    replace_str(with_html.as_str(), CONFLUENCE_SLOT, confluence.as_str())
}

} // verus!
