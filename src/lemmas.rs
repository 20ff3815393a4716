use vstd::prelude::*;

use crate::event::{CodeBlockKind, Event, HeadingLevel, Tag, TagEnd};
use crate::transcode::{
    fragment, heading_digit, heading_prefix, initial_state, repeat_seq, run, start_fragment, step,
    transcode_spec, TranscodeState,
};

verus! {

/// Running two streams one after the other is running their concatenation.
pub proof fn lemma_run_concat(s: TranscodeState, a: Seq<Event>, b: Seq<Event>)
    ensures
        run(s, a + b) == run(run(s, a), b),
    decreases b.len(),
{
    if b.len() == 0 {
        assert(a + b =~= a);
    } else {
        lemma_run_concat(s, a, b.drop_last());
        assert((a + b).drop_last() =~= a + b.drop_last());
        assert((a + b).last() == b.last());
    }
}

/// The output only ever grows: what was written stays at the front.
pub proof fn lemma_output_grows(s: TranscodeState, evs: Seq<Event>)
    ensures
        run(s, evs).out.len() >= s.out.len(),
        run(s, evs).out.take(s.out.len() as int) == s.out,
    decreases evs.len(),
{
    if evs.len() > 0 {
        lemma_output_grows(s, evs.drop_last());
        let mid = run(s, evs.drop_last());
        assert(run(s, evs).out =~= mid.out + fragment(mid, evs.last()));
        assert((mid.out + fragment(mid, evs.last())).take(s.out.len() as int) =~= mid.out.take(
            s.out.len() as int,
        ));
    }
}

/// Whether `e` can occur in plain prose: text, a line break, or an event
/// with no Confluence counterpart, such as a paragraph's start and end.
pub open spec fn is_prose_event(e: Event) -> bool {
    match e {
        Event::Text(_) => true,
        Event::SoftBreak => true,
        Event::HardBreak => true,
        Event::Start(Tag::Other) => true,
        Event::End(TagEnd::Other) => true,
        Event::Other => true,
        _ => false,
    }
}

/// The text of a prose stream, in order, with its line breaks as `\n`.
pub open spec fn plain_text(evs: Seq<Event>) -> Seq<char>
    decreases evs.len(),
{
    if evs.len() == 0 {
        Seq::empty()
    } else {
        plain_text(evs.drop_last()) + match evs.last() {
            Event::Text(t) => t@,
            Event::SoftBreak => "\n"@,
            Event::HardBreak => "\n"@,
            _ => Seq::empty(),
        }
    }
}

/// Plain prose, with no structure beyond paragraphs and line breaks, is
/// copied to the output unchanged, and leaves no list open.
pub proof fn lemma_plain_text_unchanged(evs: Seq<Event>)
    requires
        forall|i: int| 0 <= i < evs.len() ==> is_prose_event(#[trigger] evs[i]),
    ensures
        transcode_spec(evs) == plain_text(evs),
        run(initial_state(), evs) == (TranscodeState { out: plain_text(evs), lists: Seq::empty() }),
    decreases evs.len(),
{
    if evs.len() > 0 {
        let front = evs.drop_last();
        assert forall|i: int| 0 <= i < front.len() implies is_prose_event(#[trigger] front[i]) by {
            assert(front[i] == evs[i]);
        }
        lemma_plain_text_unchanged(front);
        assert(is_prose_event(evs[evs.len() - 1]));
    }
}

/// The events of a heading whose content is the text `text`.
pub open spec fn heading_events(level: HeadingLevel, t: String) -> Seq<Event> {
    seq![
        Event::Start(Tag::Heading { level, id: None }),
        Event::Text(t),
        Event::End(TagEnd::Heading(level)),
    ]
}

/// A heading of level `n` wrapping the text `T`, wherever it stands in a
/// document, shows in the output as two line breaks, `hn. `, `T` and a line
/// break, right after the output of what came before it.
pub proof fn lemma_heading(pre: Seq<Event>, level: HeadingLevel, t: String, post: Seq<Event>)
    ensures
        ({
            let k = transcode_spec(pre).len();
            let frag = heading_prefix(level) + t@ + "\n"@;
            let out = transcode_spec(pre + heading_events(level, t) + post);
            &&& out.len() >= k + frag.len()
            &&& out.subrange(k as int, (k + frag.len()) as int) == frag
        }),
        heading_prefix(level) == "\n\nh"@ + seq![heading_digit(level)] + ". "@,
{
    let hs = heading_events(level, t);
    let s0 = initial_state();
    let s1 = run(s0, pre);
    lemma_run_concat(s0, pre + hs, post);
    lemma_run_concat(s0, pre, hs);
    let s2 = run(s1, hs);
    let h1 = hs.drop_last();
    let h0 = h1.drop_last();
    assert(h0.drop_last() =~= Seq::<Event>::empty());
    assert(h0.last() == hs[0]);
    assert(h1.last() == hs[1]);
    assert(run(s1, h0.drop_last()) == s1);
    let a = step(s1, hs[0]);
    assert(run(s1, h0) == a);
    let b = step(a, hs[1]);
    assert(run(s1, h1) == b);
    assert(s2 == step(b, hs[2]));
    let frag = heading_prefix(level) + t@ + "\n"@;
    assert(s2.out =~= s1.out + frag);
    lemma_output_grows(s2, post);
    let out = run(s2, post).out;
    assert(out.take(s2.out.len() as int) == s2.out);
    assert(out.subrange(s1.out.len() as int, (s1.out.len() + frag.len()) as int) =~= s2.out.subrange(
        s1.out.len() as int,
        s2.out.len() as int,
    ));
    reveal_strlit("\n\nh1. ");
    reveal_strlit("\n\nh2. ");
    reveal_strlit("\n\nh3. ");
    reveal_strlit("\n\nh4. ");
    reveal_strlit("\n\nh5. ");
    reveal_strlit("\n\nh6. ");
    reveal_strlit("\n\nh");
    reveal_strlit(". ");
    assert(heading_prefix(level) =~= "\n\nh"@ + seq![heading_digit(level)] + ". "@);
}

/// `n` copies of the character `c`.
pub open spec fn chars_n(c: char, n: nat) -> Seq<char> {
    Seq::new(n, |i: int| c)
}

proof fn lemma_repeat_single(c: char, m: Seq<char>, n: nat)
    requires
        m == seq![c],
    ensures
        repeat_seq(m, n) == chars_n(c, n),
    decreases n,
{
    if n > 0 {
        lemma_repeat_single(c, m, (n - 1) as nat);
        assert(repeat_seq(m, n) =~= chars_n(c, n));
    }
}

/// An item inside `d` open lists is marked after the innermost list, not
/// an outer one: in an ordered list by a line break, exactly `d` copies of
/// `#` and a space; in a bulleted list by exactly `d` copies of `*` and a
/// space. An item outside any list gets no marker.
pub proof fn lemma_item_marker(lists: Seq<bool>)
    ensures
        lists.len() > 0 && lists.last() ==> start_fragment(lists, Tag::Item) == seq!['\n']
            + chars_n('#', lists.len()) + seq![' '],
        lists.len() > 0 && !lists.last() ==> start_fragment(lists, Tag::Item) == chars_n(
            '*',
            lists.len(),
        ) + seq![' '],
        lists.len() == 0 ==> start_fragment(lists, Tag::Item) == Seq::<char>::empty(),
{
    reveal_strlit("#");
    reveal_strlit("*");
    reveal_strlit("\n");
    reveal_strlit(" ");
    if lists.len() > 0 {
        if lists.last() {
            assert("#"@ =~= seq!['#']);
            lemma_repeat_single('#', "#"@, lists.len());
        } else {
            assert("*"@ =~= seq!['*']);
            lemma_repeat_single('*', "*"@, lists.len());
        }
    }
}

/// A fenced code block tagged `plaintext` opens as shell code; any other tag
/// is kept as it is; an indented block opens with no language.
pub proof fn lemma_code_block_language(lists: Seq<bool>, lang: String)
    ensures
        lang@ == "plaintext"@ ==> start_fragment(
            lists,
            Tag::CodeBlock(CodeBlockKind::Fenced(lang)),
        ) == "\n{code:language=sh}\n"@,
        lang@ != "plaintext"@ ==> start_fragment(
            lists,
            Tag::CodeBlock(CodeBlockKind::Fenced(lang)),
        ) == "\n{code:language="@ + lang@ + "}\n"@,
        start_fragment(lists, Tag::CodeBlock(CodeBlockKind::Indented)) == "\n{code}\n"@,
{
    reveal_strlit("\n{code:language=sh}\n");
    reveal_strlit("\n{code:language=");
    reveal_strlit("sh");
    reveal_strlit("}\n");
    assert("\n{code:language="@ + "sh"@ + "}\n"@ =~= "\n{code:language=sh}\n"@);
}

/// How many lists a stream opens, minus how many it closes.
pub open spec fn list_balance(evs: Seq<Event>) -> int
    decreases evs.len(),
{
    if evs.len() == 0 {
        0
    } else {
        list_balance(evs.drop_last()) + match evs.last() {
            Event::Start(Tag::List(_)) => 1int,
            Event::End(TagEnd::List(_)) => -1int,
            _ => 0int,
        }
    }
}

/// Every list that the stream closes was opened earlier in it, and every list
/// that it opens is closed.
pub open spec fn lists_balanced(evs: Seq<Event>) -> bool {
    &&& forall|k: int| 0 <= k <= evs.len() ==> list_balance(#[trigger] evs.take(k)) >= 0
    &&& list_balance(evs) == 0
}

proof fn lemma_depth_follows_balance(s: TranscodeState, evs: Seq<Event>)
    requires
        forall|k: int| 0 <= k <= evs.len() ==> list_balance(#[trigger] evs.take(k)) >= 0,
    ensures
        run(s, evs).lists.len() == s.lists.len() + list_balance(evs),
    decreases evs.len(),
{
    if evs.len() > 0 {
        let front = evs.drop_last();
        assert forall|k: int| 0 <= k <= front.len() implies list_balance(
            #[trigger] front.take(k),
        ) >= 0 by {
            assert(front.take(k) =~= evs.take(k));
        }
        lemma_depth_follows_balance(s, front);
        assert(evs.take(evs.len() as int) =~= evs);
        assert(evs.take(front.len() as int) =~= front);
    }
}

/// After a stream in which every list start is matched by a list end, no list
/// is open: the nesting depth is back to zero.
pub proof fn lemma_balanced_lists_close(evs: Seq<Event>)
    requires
        lists_balanced(evs),
    ensures
        run(initial_state(), evs).lists == Seq::<bool>::empty(),
{
    lemma_depth_follows_balance(initial_state(), evs);
}

/// The state `s` with its output emptied.
pub open spec fn restarted(s: TranscodeState) -> TranscodeState {
    TranscodeState { out: Seq::empty(), lists: s.lists }
}

/// What a stream writes depends only on the lists open before it; the output
/// so far stays in front.
pub proof fn lemma_run_from_lists(s: TranscodeState, evs: Seq<Event>)
    ensures
        run(s, evs).out == s.out + run(restarted(s), evs).out,
        run(s, evs).lists == run(restarted(s), evs).lists,
    decreases evs.len(),
{
    if evs.len() == 0 {
        assert(s.out + Seq::<char>::empty() =~= s.out);
    } else {
        lemma_run_from_lists(s, evs.drop_last());
        let a = run(s, evs.drop_last());
        let b = run(restarted(s), evs.drop_last());
        assert(fragment(a, evs.last()) == fragment(b, evs.last()));
        assert(run(s, evs).out =~= s.out + run(restarted(s), evs).out);
    }
}

/// After a stream in which every list start is matched by a list end, what
/// follows converts as it would from a fresh start.
pub proof fn lemma_balanced_prefix_restarts(e1: Seq<Event>, e2: Seq<Event>)
    requires
        lists_balanced(e1),
    ensures
        transcode_spec(e1 + e2) == transcode_spec(e1) + transcode_spec(e2),
{
    let s0 = initial_state();
    lemma_balanced_lists_close(e1);
    lemma_run_concat(s0, e1, e2);
    lemma_run_from_lists(run(s0, e1), e2);
    assert(restarted(run(s0, e1)) == s0);
}

/// A list end with no list open writes nothing and changes nothing: after a
/// stream that leaves no list open, the stream with such a list end and then
/// more events converts as the two streams without it, one after the other.
pub proof fn lemma_unmatched_list_end(evs: Seq<Event>, ordered: bool, e2: Seq<Event>)
    requires
        run(initial_state(), evs).lists.len() == 0,
    ensures
        transcode_spec(evs + seq![Event::End(TagEnd::List(ordered))] + e2) == transcode_spec(evs)
            + transcode_spec(e2),
{
    let s0 = initial_state();
    let end = seq![Event::End(TagEnd::List(ordered))];
    let s1 = run(s0, evs);
    lemma_run_concat(s0, evs + end, e2);
    lemma_run_concat(s0, evs, end);
    assert(end.drop_last() =~= Seq::<Event>::empty());
    assert(run(s1, end.drop_last()) == s1);
    assert(run(s1, end) == step(s1, end.last()));
    let s2 = run(s1, end);
    assert(s2.out =~= s1.out);
    assert(s2.lists =~= Seq::<bool>::empty());
    lemma_run_from_lists(s2, e2);
    assert(restarted(s2) == s0);
}

/// Converting the same event stream twice gives the same markup.
pub proof fn lemma_deterministic(a: Seq<Event>, b: Seq<Event>)
    requires
        a == b,
    ensures
        transcode_spec(a) == transcode_spec(b),
{
}

} // verus!
