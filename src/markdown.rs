use vstd::prelude::*;

use crate::event::{CodeBlockKind, Event, HeadingLevel, Tag, TagEnd};
use crate::links::{pair_link_titles, paired_links};
use crate::transcode::{transcode, transcode_spec};
use pulldown_cmark::Event as MdEvent;
use pulldown_cmark::HeadingLevel as MdHeadingLevel;
use pulldown_cmark::Tag as MdTag;
use pulldown_cmark::TagEnd as MdTagEnd;
use pulldown_cmark::CodeBlockKind as MdCodeBlockKind;

verus! {

#[verifier::external_type_specification]
#[verifier::external_body]
pub struct ExMdEvent<'a>(MdEvent<'a>);

#[verifier::external_type_specification]
#[verifier::external_body]
pub struct ExMdTag<'a>(MdTag<'a>);

#[verifier::external_type_specification]
#[verifier::external_body]
pub struct ExMdTagEnd(MdTagEnd);

#[verifier::external_type_specification]
#[verifier::external_body]
pub struct ExMdHeadingLevel(MdHeadingLevel);

/// The events that pulldown-cmark reports for a document, with no parser
/// options enabled.
pub uninterp spec fn markdown_events(source: Seq<char>) -> Seq<Event>;

/// The HTML that pulldown-cmark renders for a document, with no parser
/// options enabled.
pub uninterp spec fn markdown_html(source: Seq<char>) -> Seq<char>;

/// Relies on the variants of pulldown_cmark::HeadingLevel: each level is
/// moved across as the level of the same number.
#[verifier::external_body]
fn heading_level_from(level: MdHeadingLevel) -> HeadingLevel {
    match level {
        MdHeadingLevel::H1 => HeadingLevel::H1,
        MdHeadingLevel::H2 => HeadingLevel::H2,
        MdHeadingLevel::H3 => HeadingLevel::H3,
        MdHeadingLevel::H4 => HeadingLevel::H4,
        MdHeadingLevel::H5 => HeadingLevel::H5,
        MdHeadingLevel::H6 => HeadingLevel::H6,
    }
}

/// Relies on the variants of pulldown_cmark::Tag, and on
/// pulldown_cmark::CowStr::into_string for the strings that a tag carries.
#[verifier::external_body]
fn tag_from(t: MdTag) -> Tag {
    match t {
        MdTag::Heading { level, id, .. } => Tag::Heading {
            level: heading_level_from(level),
            id: id.map(|i| i.into_string()),
        },
        MdTag::Emphasis => Tag::Emphasis,
        MdTag::Strong => Tag::Strong,
        MdTag::List(first) => Tag::List(first),
        MdTag::Item => Tag::Item,
        MdTag::CodeBlock(MdCodeBlockKind::Fenced(l)) => Tag::CodeBlock(CodeBlockKind::Fenced(l.into_string())),
        MdTag::CodeBlock(MdCodeBlockKind::Indented) => Tag::CodeBlock(CodeBlockKind::Indented),
        MdTag::Link { dest_url, title, .. } => Tag::Link { dest: dest_url.into_string(), title: title.into_string() },
        _ => Tag::Other,
    }
}

/// Relies on the variants of pulldown_cmark::TagEnd: each closing tag is
/// moved across as the closing tag of the same kind. A link end carries no
/// title there; `pair_link_titles` gives it the title of its link.
#[verifier::external_body]
fn tag_end_from(t: MdTagEnd) -> TagEnd {
    match t {
        MdTagEnd::Heading(level) => TagEnd::Heading(heading_level_from(level)),
        MdTagEnd::Emphasis => TagEnd::Emphasis,
        MdTagEnd::Strong => TagEnd::Strong,
        MdTagEnd::List(ordered) => TagEnd::List(ordered),
        MdTagEnd::Item => TagEnd::Item,
        MdTagEnd::CodeBlock => TagEnd::CodeBlock,
        MdTagEnd::Link => TagEnd::Link { title: String::new() },
        _ => TagEnd::Other,
    }
}

/// Relies on the variants of pulldown_cmark::Event, and on
/// pulldown_cmark::CowStr::into_string for the text of an event.
#[verifier::external_body]
fn event_from(e: MdEvent) -> Event {
    match e {
        MdEvent::Start(t) => Event::Start(tag_from(t)),
        MdEvent::End(t) => Event::End(tag_end_from(t)),
        MdEvent::Text(s) => Event::Text(s.into_string()),
        MdEvent::Code(s) => Event::Code(s.into_string()),
        MdEvent::Html(s) => Event::Html(s.into_string()),
        MdEvent::InlineHtml(s) => Event::InlineHtml(s.into_string()),
        MdEvent::SoftBreak => Event::SoftBreak,
        MdEvent::HardBreak => Event::HardBreak,
        _ => Event::Other,
    }
}

/// Relies on pulldown_cmark::Parser::new (no options) and its `Iterator`
/// impl: the events of `source`, in document order. Parsing depends on the
/// text alone.
#[verifier::external_body]
fn parse_events(source: &str) -> (r: Vec<Event>)
    ensures
        r@ == markdown_events(source@),
{
    pulldown_cmark::Parser::new(source).map(event_from).collect()
}

/// Relies on pulldown_cmark::html::push_html over pulldown_cmark::Parser::new
/// (no options): the HTML for `source`, which depends on the text alone.
#[verifier::external_body]
fn render_html(source: &str) -> (r: String)
    ensures
        r@ == markdown_html(source@),
{
    let mut out = String::new();
    pulldown_cmark::html::push_html(&mut out, pulldown_cmark::Parser::new(source));
    out
}

/// Converts a Markdown document into Confluence wiki markup.
pub fn markdown_to_confluence(source: &str) -> (r: String)
    ensures
        r@ == transcode_spec(paired_links(markdown_events(source@))),
{
    let mut events = parse_events(source);
    pair_link_titles(&mut events);
    transcode(&events)
}

/// Renders a Markdown document as HTML.
pub fn markdown_to_html(source: &str) -> (r: String)
    ensures
        r@ == markdown_html(source@),
{
    render_html(source)
}

} // verus!
