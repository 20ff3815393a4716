use md_confluence::{
    pair_link_titles, transcode, CodeBlockKind, Event, HeadingLevel, Tag, TagEnd, Transcoder,
};

fn text(s: &str) -> Event {
    Event::Text(s.to_string())
}

fn heading(level: HeadingLevel, body: &str) -> Vec<Event> {
    vec![
        Event::Start(Tag::Heading { level, id: None }),
        text(body),
        Event::End(TagEnd::Heading(level)),
    ]
}

#[test]
fn plain_text_is_copied_unchanged() {
    let events = vec![text("Hello, "), text("world * {code} _x_")];
    assert_eq!(transcode(&events), "Hello, world * {code} _x_");
}

#[test]
fn empty_stream_gives_empty_output() {
    assert_eq!(transcode(&Vec::new()), "");
}

#[test]
fn heading_levels_one_to_six() {
    let levels = [
        (HeadingLevel::H1, "h1"),
        (HeadingLevel::H2, "h2"),
        (HeadingLevel::H3, "h3"),
        (HeadingLevel::H4, "h4"),
        (HeadingLevel::H5, "h5"),
        (HeadingLevel::H6, "h6"),
    ];
    for (level, name) in levels {
        let out = transcode(&heading(level, "Title"));
        assert_eq!(out, format!("\n\n{}. Title\n", name));
    }
}

#[test]
fn heading_after_other_content() {
    let mut events = vec![text("intro")];
    events.extend(heading(HeadingLevel::H3, "Part"));
    events.push(text("rest"));
    assert_eq!(transcode(&events), "intro\n\nh3. Part\nrest");
}

#[test]
fn heading_id_is_annotated() {
    let events = vec![
        Event::Start(Tag::Heading { level: HeadingLevel::H2, id: Some("intro".to_string()) }),
        text("Intro"),
        Event::End(TagEnd::Heading(HeadingLevel::H2)),
    ];
    assert_eq!(transcode(&events), "\n\nh2. [ID: intro] Intro\n");
}

#[test]
fn emphasis_and_strong_markers() {
    let events = vec![
        Event::Start(Tag::Emphasis),
        text("em"),
        Event::End(TagEnd::Emphasis),
        Event::Start(Tag::Strong),
        text("bold"),
        Event::End(TagEnd::Strong),
    ];
    assert_eq!(transcode(&events), " _em_  *bold* ");
}

#[test]
fn nested_unordered_lists_repeat_the_bullet() {
    let events = vec![
        Event::Start(Tag::List(None)),
        Event::Start(Tag::Item),
        text("a"),
        Event::Start(Tag::List(None)),
        Event::Start(Tag::Item),
        text("b"),
        Event::Start(Tag::List(None)),
        Event::Start(Tag::Item),
        text("c"),
        Event::End(TagEnd::Item),
        Event::End(TagEnd::List(false)),
        Event::End(TagEnd::Item),
        Event::End(TagEnd::List(false)),
        Event::End(TagEnd::Item),
        Event::End(TagEnd::List(false)),
    ];
    assert_eq!(transcode(&events), "* a** b*** c\n");
}

#[test]
fn nested_ordered_lists_repeat_the_hash() {
    let events = vec![
        Event::Start(Tag::List(Some(1))),
        Event::Start(Tag::Item),
        text("a"),
        Event::Start(Tag::List(Some(1))),
        Event::Start(Tag::Item),
        text("b"),
        Event::End(TagEnd::Item),
        Event::End(TagEnd::List(true)),
        Event::End(TagEnd::Item),
        Event::End(TagEnd::List(true)),
    ];
    assert_eq!(transcode(&events), "\n# a\n## b\n");
}

#[test]
fn mixed_lists_use_the_innermost_kind() {
    let events = vec![
        Event::Start(Tag::List(None)),
        Event::Start(Tag::Item),
        text("a"),
        Event::Start(Tag::List(Some(3))),
        Event::Start(Tag::Item),
        text("b"),
        Event::End(TagEnd::Item),
        Event::End(TagEnd::List(true)),
        Event::End(TagEnd::Item),
        Event::Start(Tag::Item),
        text("c"),
        Event::End(TagEnd::Item),
        Event::End(TagEnd::List(false)),
    ];
    assert_eq!(transcode(&events), "* a\n## b* c\n");
}

#[test]
fn unmatched_ends_are_ignored() {
    let events = vec![
        Event::End(TagEnd::List(false)),
        Event::Start(Tag::Item),
        text("x"),
    ];
    assert_eq!(transcode(&events), "x");
}

#[test]
fn balanced_lists_leave_depth_zero() {
    let mut t = Transcoder::new();
    assert_eq!(t.depth(), 0);
    t.push_event(&Event::Start(Tag::List(None)));
    t.push_event(&Event::Start(Tag::List(Some(1))));
    assert_eq!(t.depth(), 2);
    t.push_event(&Event::Start(Tag::Item));
    assert_eq!(t.output(), "\n## ");
    t.push_event(&Event::End(TagEnd::List(true)));
    assert_eq!(t.depth(), 1);
    t.push_event(&Event::End(TagEnd::List(false)));
    assert_eq!(t.depth(), 0);
    assert_eq!(t.finish(), "\n## \n");
}

#[test]
fn fenced_plaintext_becomes_sh() {
    let events = vec![
        Event::Start(Tag::CodeBlock(CodeBlockKind::Fenced("plaintext".to_string()))),
        text("ls\n"),
        Event::End(TagEnd::CodeBlock),
    ];
    assert_eq!(transcode(&events), "\n{code:language=sh}\nls\n{code}");
}

#[test]
fn fenced_language_passes_through() {
    let events = vec![
        Event::Start(Tag::CodeBlock(CodeBlockKind::Fenced("rust".to_string()))),
        text("fn f() {}\n"),
        Event::End(TagEnd::CodeBlock),
    ];
    assert_eq!(transcode(&events), "\n{code:language=rust}\nfn f() {}\n{code}");
}

#[test]
fn indented_code_has_no_language() {
    let events = vec![
        Event::Start(Tag::CodeBlock(CodeBlockKind::Indented)),
        text("x\n"),
        Event::End(TagEnd::CodeBlock),
    ];
    assert_eq!(transcode(&events), "\n{code}\nx\n{code}");
}

#[test]
fn inline_code_breaks_and_html() {
    let events = vec![
        Event::Code("x = 1".to_string()),
        Event::SoftBreak,
        Event::HardBreak,
        Event::Html("<b>".to_string()),
        Event::InlineHtml("<i>".to_string()),
        Event::Other,
    ];
    assert_eq!(transcode(&events), "' {{x = 1}} '\n\n{html}<b>{html}{html}<i>{html}");
}

#[test]
fn links_with_and_without_title() {
    let events = vec![
        Event::Start(Tag::Link { dest: "http://a".to_string(), title: "A".to_string() }),
        text("one"),
        Event::End(TagEnd::Link { title: "A".to_string() }),
        Event::Start(Tag::Link { dest: "http://b".to_string(), title: String::new() }),
        text("two"),
        Event::End(TagEnd::Link { title: String::new() }),
    ];
    assert_eq!(transcode(&events), "[http://aone] A[http://btwo]");
}

#[test]
fn same_events_give_same_output() {
    let mut events = heading(HeadingLevel::H1, "T");
    events.push(Event::Start(Tag::List(None)));
    events.push(Event::Start(Tag::Item));
    events.push(text("x"));
    events.push(Event::End(TagEnd::Item));
    events.push(Event::End(TagEnd::List(false)));
    assert_eq!(transcode(&events), transcode(&events));
}

#[test]
fn link_ends_get_the_title_of_their_link() {
    let mut events = vec![
        Event::Start(Tag::Link { dest: "http://a".to_string(), title: "Outer".to_string() }),
        Event::Start(Tag::Link { dest: "http://b".to_string(), title: "Inner".to_string() }),
        Event::End(TagEnd::Link { title: String::new() }),
        Event::End(TagEnd::Link { title: String::new() }),
        Event::End(TagEnd::Link { title: "own".to_string() }),
    ];
    pair_link_titles(&mut events);
    let titles: Vec<String> = events[2..]
        .iter()
        .map(|e| match e {
            Event::End(TagEnd::Link { title }) => title.clone(),
            _ => panic!("not a link end"),
        })
        .collect();
    assert_eq!(titles, vec!["Inner".to_string(), "Outer".to_string(), "own".to_string()]);
    assert_eq!(transcode(&events), "[http://a[http://b] Inner] Outer] own");
}

#[test]
fn stream_after_balanced_lists_converts_as_fresh() {
    let first = vec![
        Event::Start(Tag::List(None)),
        Event::Start(Tag::Item),
        text("a"),
        Event::End(TagEnd::Item),
        Event::End(TagEnd::List(false)),
    ];
    let second = vec![Event::Start(Tag::Item), text("b"), Event::End(TagEnd::List(true))];
    let mut both = first.clone();
    both.extend(second.clone());
    assert_eq!(transcode(&both), transcode(&first) + &transcode(&second));
    assert_eq!(transcode(&both), "* a\nb");
}

#[test]
fn prose_paragraph_is_copied_unchanged() {
    let events = vec![
        Event::Start(Tag::Other),
        text("first line"),
        Event::SoftBreak,
        text("second line"),
        Event::End(TagEnd::Other),
    ];
    assert_eq!(transcode(&events), "first line\nsecond line");
}
