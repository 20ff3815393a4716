use vstd::prelude::*;

verus! {

/// The level of a heading, `h1.` through `h6.` in the output.
#[derive(Clone, Copy, Debug, PartialEq, Eq, Structural)]
pub enum HeadingLevel {
    H1,
    H2,
    H3,
    H4,
    H5,
    H6,
}

/// How a code block was written in the Markdown source.
#[derive(Clone, Debug)]
pub enum CodeBlockKind {
    /// A fenced block with its info string (empty when none was given).
    Fenced(String),
    /// A block introduced by indentation.
    Indented,
}

/// The kind of a structural element that an event opens.
#[derive(Clone, Debug)]
pub enum Tag {
    Heading { level: HeadingLevel, id: Option<String> },
    Emphasis,
    Strong,
    /// A list; `Some(first number)` for an ordered list, `None` for a bulleted one.
    List(Option<u64>),
    Item,
    CodeBlock(CodeBlockKind),
    /// A link; an empty `title` means that the link has none.
    Link { dest: String, title: String },
    /// Any element without a Confluence counterpart.
    Other,
}

/// The kind of a structural element that an event closes.
#[derive(Clone, Debug)]
pub enum TagEnd {
    Heading(HeadingLevel),
    Emphasis,
    Strong,
    /// The end of a list; `true` for an ordered one.
    List(bool),
    Item,
    CodeBlock,
    /// The end of a link, with the link's title (empty when it has none).
    Link { title: String },
    /// Any element without a Confluence counterpart.
    Other,
}

/// One unit of Markdown structure, as a parser reports it.
#[derive(Clone, Debug)]
pub enum Event {
    Start(Tag),
    End(TagEnd),
    Text(String),
    /// Inline code.
    Code(String),
    /// A block of raw HTML.
    Html(String),
    /// Raw HTML inside a paragraph.
    InlineHtml(String),
    SoftBreak,
    HardBreak,
    /// Any event without a Confluence counterpart.
    Other,
}

} // verus!
