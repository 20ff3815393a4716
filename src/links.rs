use vstd::prelude::*;

use crate::event::{Event, Tag, TagEnd};

verus! {

/// The titles of the links that are open after the events `evs`, innermost
/// last. A link end with no link open changes nothing.
pub open spec fn open_link_titles(evs: Seq<Event>) -> Seq<String>
    decreases evs.len(),
{
    if evs.len() == 0 {
        Seq::empty()
    } else {
        let titles = open_link_titles(evs.drop_last());
        match evs.last() {
            Event::Start(Tag::Link { dest, title }) => titles.push(title),
            Event::End(TagEnd::Link { title }) => if titles.len() == 0 {
                titles
            } else {
                titles.drop_last()
            },
            _ => titles,
        }
    }
}

/// Event `e` with, if it ends a link while links are open, the title of the
/// innermost open link.
pub open spec fn with_link_title(titles: Seq<String>, e: Event) -> Event {
    match e {
        Event::End(TagEnd::Link { title }) => if titles.len() == 0 {
            e
        } else {
            Event::End(TagEnd::Link { title: titles.last() })
        },
        _ => e,
    }
}

/// The events `evs`, each link end carrying the title of the link it closes.
pub open spec fn paired_links(evs: Seq<Event>) -> Seq<Event> {
    Seq::new(evs.len(), |i: int| with_link_title(open_link_titles(evs.take(i)), evs[i]))
}

/// Gives each link end the title of the link that it closes, its matching
/// link start being the innermost one still open. A link end with no link
/// open, and every other event, is left as it is.
pub fn pair_link_titles(events: &mut Vec<Event>)
    ensures
        final(events)@ == paired_links(old(events)@),
{
    let ghost orig = events@;
    let mut titles: Vec<String> = Vec::new();
    let mut i: usize = 0;
    while i < events.len()
        invariant
            i <= events@.len(),
            events@.len() == orig.len(),
            titles@ == open_link_titles(orig.take(i as int)),
            forall|j: int| 0 <= j < i ==> #[trigger] events@[j] == with_link_title(
                open_link_titles(orig.take(j)),
                orig[j],
            ),
            forall|j: int| i <= j < events@.len() ==> #[trigger] events@[j] == orig[j],
        decreases events@.len() - i,
    {
        let ghost before = titles@;
        assert(orig.take(i + 1).drop_last() =~= orig.take(i as int));
        assert(orig.take(i + 1).last() == orig[i as int]);
        let mut replacement: Option<Event> = None;
        match &events[i] {
            Event::Start(Tag::Link { dest, title }) => {
                titles.push(title.clone());
            },
            Event::End(TagEnd::Link { title }) => {
                if titles.len() > 0 {
                    let t = titles.pop().unwrap();
                    replacement = Some(Event::End(TagEnd::Link { title: t }));
                }
            },
            _ => {},
        }
        match replacement {
            Some(e) => {
                events.set(i, e);
            },
            None => {},
        }
        assert(titles@ == open_link_titles(orig.take(i + 1)));
        i = i + 1;
    }
    assert(events@ =~= paired_links(orig));
}

} // verus!
