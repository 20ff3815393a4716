//! Conversion of Markdown into Confluence wiki markup.
//!
//! The Markdown parser (pulldown-cmark) produces a stream of structural
//! events; [`transcode`] turns such a stream into Confluence markup, and
//! [`markdown_to_confluence`] runs the parser, gives each link end the title
//! of its link ([`pair_link_titles`]) and runs the transcoder.

pub mod event;
pub mod lemmas;
pub mod links;
pub mod markdown;
pub mod page;
pub mod transcode;

pub use event::{CodeBlockKind, Event, HeadingLevel, Tag, TagEnd};
pub use links::pair_link_titles;
pub use markdown::{markdown_to_confluence, markdown_to_html};
pub use page::{render_page, CONFLUENCE_SLOT, HTML_SLOT};
pub use transcode::{transcode, Transcoder};
