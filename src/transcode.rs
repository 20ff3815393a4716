use vstd::prelude::*;
use vstd::string::*;

use crate::event::{CodeBlockKind, Event, HeadingLevel, Tag, TagEnd};

verus! {

/// What the transcoder has built and remembers at some point of the stream.
pub struct TranscodeState {
    /// The markup produced so far.
    pub out: Seq<char>,
    /// One entry per open list, innermost last: `true` for an ordered list.
    pub lists: Seq<bool>,
}

/// The state before the first event.
pub open spec fn initial_state() -> TranscodeState {
    TranscodeState { out: Seq::empty(), lists: Seq::empty() }
}

/// `m` written `n` times in a row.
pub open spec fn repeat_seq(m: Seq<char>, n: nat) -> Seq<char>
    decreases n,
{
    if n == 0 {
        Seq::empty()
    } else {
        repeat_seq(m, (n - 1) as nat) + m
    }
}

/// The digit that numbers a heading of the given level.
pub open spec fn heading_digit(level: HeadingLevel) -> char {
    match level {
        HeadingLevel::H1 => '1',
        HeadingLevel::H2 => '2',
        HeadingLevel::H3 => '3',
        HeadingLevel::H4 => '4',
        HeadingLevel::H5 => '5',
        HeadingLevel::H6 => '6',
    }
}

/// The markup that opens a heading of the given level.
pub open spec fn heading_prefix(level: HeadingLevel) -> Seq<char> {
    match level {
        HeadingLevel::H1 => "\n\nh1. "@,
        HeadingLevel::H2 => "\n\nh2. "@,
        HeadingLevel::H3 => "\n\nh3. "@,
        HeadingLevel::H4 => "\n\nh4. "@,
        HeadingLevel::H5 => "\n\nh5. "@,
        HeadingLevel::H6 => "\n\nh6. "@,
    }
}

/// The language tag given to a fenced code block: Confluence has no
/// `plaintext` highlighter, so such blocks are shown as shell code.
pub open spec fn code_language(lang: Seq<char>) -> Seq<char> {
    if lang == "plaintext"@ {
        "sh"@
    } else {
        lang
    }
}

/// The marker of a list item inside the open lists `lists`, after the kind
/// of the innermost list: in an ordered list a line break, then `#` once per
/// level, then a space; in a bulleted list `*` once per level, then a space.
pub open spec fn item_marker(lists: Seq<bool>) -> Seq<char> {
    if lists.len() == 0 {
        Seq::empty()
    } else if lists.last() {
        "\n"@ + repeat_seq("#"@, lists.len()) + " "@
    } else {
        repeat_seq("*"@, lists.len()) + " "@
    }
}

/// The markup written when an element of kind `t` opens.
pub open spec fn start_fragment(lists: Seq<bool>, t: Tag) -> Seq<char> {
    match t {
        Tag::Heading { level, id } => heading_prefix(level) + match id {
            Some(i) => "[ID: "@ + i@ + "] "@,
            None => Seq::empty(),
        },
        Tag::Emphasis => " _"@,
        Tag::Strong => " *"@,
        Tag::List(_) => Seq::empty(),
        Tag::Item => item_marker(lists),
        Tag::CodeBlock(CodeBlockKind::Fenced(lang)) => "\n{code:language="@ + code_language(lang@)
            + "}\n"@,
        Tag::CodeBlock(CodeBlockKind::Indented) => "\n{code}\n"@,
        Tag::Link { dest, title } => "["@ + dest@,
        Tag::Other => Seq::empty(),
    }
}

/// The markup written when a link with title `title` closes.
pub open spec fn link_close(title: Seq<char>) -> Seq<char> {
    if title.len() == 0 {
        "]"@
    } else {
        "] "@ + title
    }
}

/// The markup written when an element of kind `t` closes. A list end with
/// no list open writes nothing.
pub open spec fn end_fragment(lists: Seq<bool>, t: TagEnd) -> Seq<char> {
    match t {
        TagEnd::Heading(_) => "\n"@,
        TagEnd::Emphasis => "_ "@,
        TagEnd::Strong => "* "@,
        TagEnd::List(_) => if lists.len() == 1 {
            "\n"@
        } else {
            Seq::empty()
        },
        TagEnd::Item => Seq::empty(),
        TagEnd::CodeBlock => "{code}"@,
        TagEnd::Link { title } => link_close(title@),
        TagEnd::Other => Seq::empty(),
    }
}

/// The markup written for event `e` in state `s`.
pub open spec fn fragment(s: TranscodeState, e: Event) -> Seq<char> {
    match e {
        Event::Start(t) => start_fragment(s.lists, t),
        Event::End(t) => end_fragment(s.lists, t),
        Event::Text(t) => t@,
        Event::Code(c) => "' {{"@ + c@ + "}} '"@,
        Event::Html(h) => "{html}"@ + h@ + "{html}"@,
        Event::InlineHtml(h) => "{html}"@ + h@ + "{html}"@,
        Event::SoftBreak => "\n"@,
        Event::HardBreak => "\n"@,
        Event::Other => Seq::empty(),
    }
}

/// The open lists after event `e`: a list start pushes its kind, a list end
/// pops (and does nothing when no list is open).
pub open spec fn next_lists(lists: Seq<bool>, e: Event) -> Seq<bool> {
    match e {
        Event::Start(Tag::List(first)) => lists.push(first is Some),
        Event::End(TagEnd::List(_)) => if lists.len() == 0 {
            lists
        } else {
            lists.drop_last()
        },
        _ => lists,
    }
}

/// The state after event `e` in state `s`.
pub open spec fn step(s: TranscodeState, e: Event) -> TranscodeState {
    TranscodeState {
        out: s.out + fragment(s, e),
        lists: next_lists(s.lists, e),
    }
}

/// The state after the events `evs`, in order, from state `s`.
pub open spec fn run(s: TranscodeState, evs: Seq<Event>) -> TranscodeState
    decreases evs.len(),
{
    if evs.len() == 0 {
        s
    } else {
        step(run(s, evs.drop_last()), evs.last())
    }
}

/// The Confluence markup for the event stream `evs`.
pub open spec fn transcode_spec(evs: Seq<Event>) -> Seq<char> {
    run(initial_state(), evs).out
}

/// A Markdown-to-Confluence transcoder that is fed one event at a time.
///
/// Each conversion owns its own transcoder, so conversions never share state.
pub struct Transcoder {
    output: String,
    list_stack: Vec<bool>,
}

impl View for Transcoder {
    type V = TranscodeState;

    closed spec fn view(&self) -> TranscodeState {
        TranscodeState { out: self.output@, lists: self.list_stack@ }
    }
}

/// Appends `m` to `out` `n` times.
fn append_repeated(out: &mut String, m: &str, n: usize)
    ensures
        final(out)@ == old(out)@ + repeat_seq(m@, n as nat),
{
    let mut i: usize = 0;
    while i < n
        invariant
            i <= n,
            out@ == old(out)@ + repeat_seq(m@, i as nat),
        decreases n - i,
    {
        out.append(m);
        i = i + 1;
        assert(out@ == old(out)@ + repeat_seq(m@, i as nat));
    }
}

/// The markup that opens a heading of the given level.
fn heading_prefix_str(level: HeadingLevel) -> (r: &'static str)
    ensures
        r@ == heading_prefix(level),
{
    match level {
        HeadingLevel::H1 => "\n\nh1. ",
        HeadingLevel::H2 => "\n\nh2. ",
        HeadingLevel::H3 => "\n\nh3. ",
        HeadingLevel::H4 => "\n\nh4. ",
        HeadingLevel::H5 => "\n\nh5. ",
        HeadingLevel::H6 => "\n\nh6. ",
    }
}

impl Transcoder {
    /// A transcoder that has seen no event yet.
    pub fn new() -> (r: Transcoder)
        ensures
            r@ == initial_state(),
    {
        Transcoder { output: String::new(), list_stack: Vec::new() }
    }

    /// The number of lists open at this point of the stream.
    pub fn depth(&self) -> (r: usize)
        ensures
            r == self@.lists.len(),
    {
        self.list_stack.len()
    }

    /// The markup produced so far.
    pub fn output(&self) -> (r: &str)
        ensures
            r@ == self@.out,
    {
        self.output.as_str()
    }

    /// Ends the conversion and hands over the markup.
    pub fn finish(self) -> (r: String)
        ensures
            r@ == self@.out,
    {
        self.output
    }

    fn start_tag(&mut self, t: &Tag)
        ensures
            final(self)@ == step(old(self)@, Event::Start(*t)),
    {
        match t {
            Tag::Heading { level, id } => {
                self.output.append(heading_prefix_str(*level));
                match id {
                    Some(i) => {
                        self.output.append("[ID: ");
                        self.output.append(i.as_str());
                        self.output.append("] ");
                    },
                    None => {},
                }
            },
            Tag::Emphasis => self.output.append(" _"),
            Tag::Strong => self.output.append(" *"),
            Tag::List(first) => {
                let ordered = first.is_some();
                self.list_stack.push(ordered);
            },
            Tag::Item => {
                let d = self.list_stack.len();
                if d > 0 {
                    if self.list_stack[d - 1] {
                        self.output.append("\n");
                        append_repeated(&mut self.output, "#", d);
                    } else {
                        append_repeated(&mut self.output, "*", d);
                    }
                    self.output.append(" ");
                }
            },
            Tag::CodeBlock(CodeBlockKind::Fenced(lang)) => {
                self.output.append("\n{code:language=");
                if *lang == String::from_str("plaintext") {
                    self.output.append("sh");
                } else {
                    self.output.append(lang.as_str());
                }
                self.output.append("}\n");
            },
            Tag::CodeBlock(CodeBlockKind::Indented) => self.output.append("\n{code}\n"),
            Tag::Link { dest, title } => {
                self.output.append("[");
                self.output.append(dest.as_str());
            },
            Tag::Other => {},
        }
        proof {
            let s = old(self)@;
            let e = Event::Start(*t);
            assert(self@.out =~= step(s, e).out);
            assert(self@.lists =~= step(s, e).lists);
        }
    }

    fn end_tag(&mut self, t: &TagEnd)
        ensures
            final(self)@ == step(old(self)@, Event::End(*t)),
    {
        match t {
            TagEnd::Heading(_) => self.output.append("\n"),
            TagEnd::Emphasis => self.output.append("_ "),
            TagEnd::Strong => self.output.append("* "),
            TagEnd::List(_) => {
                let d = self.list_stack.len();
                if d > 0 {
                    self.list_stack.pop();
                    assert(self@.lists =~= old(self)@.lists.drop_last());
                    if d == 1 {
                        self.output.append("\n");
                    }
                }
            },
            TagEnd::Item => {},
            TagEnd::CodeBlock => self.output.append("{code}"),
            TagEnd::Link { title } => {
                if title.as_str().unicode_len() == 0 {
                    self.output.append("]");
                } else {
                    self.output.append("] ");
                    self.output.append(title.as_str());
                }
            },
            TagEnd::Other => {},
        }
        proof {
            let s = old(self)@;
            let e = Event::End(*t);
            assert(self@.out =~= step(s, e).out);
            assert(self@.lists =~= step(s, e).lists);
        }
    }

    /// Feeds one event: appends its markup and updates the open lists.
    pub fn push_event(&mut self, e: &Event)
        ensures
            final(self)@ == step(old(self)@, *e),
    {
        match e {
            Event::Start(t) => self.start_tag(t),
            Event::End(t) => self.end_tag(t),
            Event::Text(t) => self.output.append(t.as_str()),
            Event::Code(c) => {
                self.output.append("' {{");
                self.output.append(c.as_str());
                self.output.append("}} '");
            },
            Event::Html(h) => {
                self.output.append("{html}");
                self.output.append(h.as_str());
                self.output.append("{html}");
            },
            Event::InlineHtml(h) => {
                self.output.append("{html}");
                self.output.append(h.as_str());
                self.output.append("{html}");
            },
            Event::SoftBreak => self.output.append("\n"),
            Event::HardBreak => self.output.append("\n"),
            Event::Other => {},
        }
        proof {
            let s = old(self)@;
            assert(self@.out =~= step(s, *e).out);
            assert(self@.lists =~= step(s, *e).lists);
        }
    }
}

/// Converts a whole event stream into Confluence markup.
pub fn transcode(events: &Vec<Event>) -> (r: String)
    ensures
        r@ == transcode_spec(events@),
{
    let mut t = Transcoder::new();
    let mut i: usize = 0;
    while i < events.len()
        invariant
            i <= events@.len(),
            t@ == run(initial_state(), events@.take(i as int)),
        decreases events@.len() - i,
    {
        t.push_event(&events[i]);
        proof {
            let next = events@.take(i + 1);
            assert(next.drop_last() =~= events@.take(i as int));
        }
        i = i + 1;
    }
    assert(events@.take(events@.len() as int) =~= events@);
    t.finish()
}

} // verus!
