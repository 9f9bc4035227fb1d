use vstd::prelude::*;

use crate::highlight::{
    byte_pos, insert_by_span_start, lemma_line_span_bounds, line_bytes, line_char_spans, line_entries, line_highlights,
    sort_by_span_start, LintHighlight, SpanModel, lint_bytes,
};
use crate::highlight::level_of;
use crate::lint::{LintKind, LintModel};

verus! {

/// The number of `\n` characters in `text`.
pub open spec fn newline_count(text: Seq<char>) -> nat
    decreases text.len(),
{
    if text.len() == 0 {
        0
    } else {
        newline_count(text.drop_last()) + if text.last() == '\n' { 1nat } else { 0nat }
    }
}

/// A text has one line more than it has `\n` characters.
pub proof fn law_line_count(text: Seq<char>)
    ensures
        line_char_spans(text).len() == newline_count(text) + 1,
    decreases text.len(),
{
    if text.len() > 0 {
        law_line_count(text.drop_last());
    }
}

proof fn lemma_byte_pos_monotone(text: Seq<char>, a: int, b: int)
    requires
        0 <= a <= b <= text.len(),
    ensures
        byte_pos(text, a) <= byte_pos(text, b),
{
    assert(text.take(b) =~= text.take(a) + text.subrange(a, b));
    crate::text::lemma_encode_concat(text.take(a), text.subrange(a, b));
}

/// Whether a range lies inside a line of `width` bytes and is not empty.
pub open spec fn span_inside(h: SpanModel, width: int) -> bool {
    0 <= h.start < h.end <= width
}

proof fn lemma_entries_inside(cands: Seq<Option<(int, int, LintHighlight)>>, bs: int, be: int)
    requires
        bs <= be,
    ensures
        forall|i: int| 0 <= i < line_entries(cands, bs, be).len() ==> span_inside(#[trigger] line_entries(cands, bs, be)[i], be - bs),
    decreases cands.len(),
{
    if cands.len() > 0 {
        lemma_entries_inside(cands.drop_last(), bs, be);
        let prev = line_entries(cands.drop_last(), bs, be);
        let cur = line_entries(cands, bs, be);
        assert forall|i: int| 0 <= i < cur.len() implies span_inside(#[trigger] cur[i], be - bs) by {
            if i < prev.len() {
                assert(cur[i] == prev[i]);
            }
        }
    }
}

proof fn lemma_insert_span(s: Seq<SpanModel>, e: SpanModel, width: int)
    requires
        forall|i: int| 0 <= i < s.len() ==> span_inside(#[trigger] s[i], width),
        span_inside(e, width),
        forall|i: int, j: int| 0 <= i < j < s.len() ==> s[i].start <= s[j].start,
    ensures
        insert_by_span_start(s, e).len() == s.len() + 1,
        forall|i: int| 0 <= i < insert_by_span_start(s, e).len() ==> span_inside(#[trigger] insert_by_span_start(s, e)[i], width),
        forall|i: int, j: int|
            0 <= i < j < insert_by_span_start(s, e).len() ==> insert_by_span_start(s, e)[i].start <= insert_by_span_start(s, e)[j].start,
        forall|i: int| 0 <= i < insert_by_span_start(s, e).len() ==> (#[trigger] insert_by_span_start(s, e)[i] == e
            || exists|j: int| 0 <= j < s.len() && s[j] == insert_by_span_start(s, e)[i]),
    decreases s.len(),
{
    if s.len() > 0 && s[0].start <= e.start {
        let t = s.drop_first();
        assert forall|i: int, j: int| 0 <= i < j < t.len() implies t[i].start <= t[j].start by {
            assert(t[i] == s[i + 1] && t[j] == s[j + 1]);
        }
        assert forall|i: int| 0 <= i < t.len() implies span_inside(#[trigger] t[i], width) by {
            assert(t[i] == s[i + 1]);
        }
        lemma_insert_span(t, e, width);
        let r = insert_by_span_start(t, e);
        let out = seq![s[0]] + r;
        assert(insert_by_span_start(s, e) == out);
        assert forall|i: int| 0 <= i < out.len() implies (#[trigger] out[i] == e || exists|j: int|
            0 <= j < s.len() && s[j] == out[i]) by {
            if i == 0 {
                assert(s[0] == out[0]);
            } else {
                assert(out[i] == r[i - 1]);
                if r[i - 1] != e {
                    let j = choose|j: int| 0 <= j < t.len() && t[j] == r[i - 1];
                    assert(s[j + 1] == out[i]);
                }
            }
        }
        assert forall|i: int, j: int| 0 <= i < j < out.len() implies out[i].start <= out[j].start by {
            if i == 0 {
                assert(out[j] == r[j - 1]);
                if r[j - 1] != e {
                    let w = choose|w: int| 0 <= w < t.len() && t[w] == r[j - 1];
                    assert(t[w] == s[w + 1]);
                }
            } else {
                assert(out[i] == r[i - 1] && out[j] == r[j - 1]);
            }
        }
        assert forall|i: int| 0 <= i < out.len() implies span_inside(#[trigger] out[i], width) by {
            if i > 0 {
                assert(out[i] == r[i - 1]);
            }
        }
    } else if s.len() > 0 {
        let out = seq![e] + s;
        assert(insert_by_span_start(s, e) == out);
        assert forall|i: int| 0 <= i < out.len() implies (#[trigger] out[i] == e || exists|j: int|
            0 <= j < s.len() && s[j] == out[i]) by {
            if i > 0 {
                assert(s[i - 1] == out[i]);
            }
        }
        assert forall|i: int, j: int| 0 <= i < j < out.len() implies out[i].start <= out[j].start by {
            assert(out[j] == s[j - 1]);
            if i > 0 {
                assert(out[i] == s[i - 1]);
            } else {
                assert(s[0].start <= s[j - 1].start || j - 1 == 0);
            }
        }
        assert forall|i: int| 0 <= i < out.len() implies span_inside(#[trigger] out[i], width) by {
            if i > 0 {
                assert(out[i] == s[i - 1]);
            }
        }
    } else {
        assert(insert_by_span_start(s, e) == seq![e]);
    }
}

proof fn lemma_sort_spans(s: Seq<SpanModel>, width: int)
    requires
        forall|i: int| 0 <= i < s.len() ==> span_inside(#[trigger] s[i], width),
    ensures
        sort_by_span_start(s).len() == s.len(),
        forall|i: int| 0 <= i < sort_by_span_start(s).len() ==> span_inside(#[trigger] sort_by_span_start(s)[i], width),
        forall|i: int, j: int|
            0 <= i < j < sort_by_span_start(s).len() ==> sort_by_span_start(s)[i].start <= sort_by_span_start(s)[j].start,
    decreases s.len(),
{
    if s.len() > 0 {
        let p = s.drop_last();
        assert forall|i: int| 0 <= i < p.len() implies span_inside(#[trigger] p[i], width) by {
            assert(p[i] == s[i]);
        }
        lemma_sort_spans(p, width);
        lemma_insert_span(sort_by_span_start(p), s.last(), width);
    }
}

/// Every highlight of a line is a non-empty byte range inside that line, and a
/// line's highlights are ordered by where they start.
pub proof fn law_highlights_inside_lines(text: Seq<char>, lints: Seq<LintModel>, k: int)
    requires
        0 <= k < line_char_spans(text).len(),
    ensures
        forall|i: int|
            0 <= i < line_highlights(text, lints, k).len() ==> span_inside(
                #[trigger] line_highlights(text, lints, k)[i],
                line_bytes(text, k).1 - line_bytes(text, k).0,
            ),
        forall|i: int, j: int|
            0 <= i < j < line_highlights(text, lints, k).len() ==> line_highlights(text, lints, k)[i].start
                <= line_highlights(text, lints, k)[j].start,
{
    lemma_line_span_bounds(text, k);
    lemma_byte_pos_monotone(text, line_char_spans(text)[k].0, line_char_spans(text)[k].1);
    let (bs, be) = line_bytes(text, k);
    let cands = lints.map_values(|l: LintModel| lint_bytes(text, l));
    lemma_entries_inside(cands, bs, be);
    lemma_sort_spans(line_entries(cands, bs, be), be - bs);
}

proof fn lemma_insert_by_span_start_multiset(s: Seq<SpanModel>, e: SpanModel)
    ensures
        insert_by_span_start(s, e).to_multiset() == s.to_multiset().insert(e),
    decreases s.len(),
{
    broadcast use vstd::seq_lib::to_multiset_insert;
    if s.len() == 0 {
        assert(seq![e] =~= s.insert(0, e));
    } else if s[0].start <= e.start {
        let t = s.drop_first();
        lemma_insert_by_span_start_multiset(t, e);
        let r = insert_by_span_start(t, e);
        assert(seq![s[0]] + r =~= r.insert(0, s[0]));
        assert(s =~= t.insert(0, s[0]));
        assert(t.to_multiset().insert(e).insert(s[0]) =~= t.to_multiset().insert(s[0]).insert(e));
    } else {
        assert(seq![e] + s =~= s.insert(0, e));
    }
}

proof fn lemma_sort_by_span_start_multiset(s: Seq<SpanModel>)
    ensures
        sort_by_span_start(s).to_multiset() == s.to_multiset(),
    decreases s.len(),
{
    broadcast use vstd::seq_lib::to_multiset_build;
    if s.len() > 0 {
        lemma_sort_by_span_start_multiset(s.drop_last());
        lemma_insert_by_span_start_multiset(sort_by_span_start(s.drop_last()), s.last());
        assert(s =~= s.drop_last().push(s.last()));
        assert(s.drop_last().push(s.last()).to_multiset() =~= s.drop_last().to_multiset().insert(s.last()));
    } else {
        assert(s =~= Seq::<SpanModel>::empty());
    }
}

/// A line's highlights are exactly the parts of the lints that fall in the
/// line, each once, only reordered by where they start.
pub proof fn law_line_highlights_are_lint_parts(text: Seq<char>, lints: Seq<LintModel>, k: int)
    ensures
        line_highlights(text, lints, k).to_multiset() == line_entries(
            lints.map_values(|l: LintModel| lint_bytes(text, l)),
            line_bytes(text, k).0,
            line_bytes(text, k).1,
        ).to_multiset(),
{
    lemma_sort_by_span_start_multiset(
        line_entries(lints.map_values(|l: LintModel| lint_bytes(text, l)), line_bytes(text, k).0, line_bytes(text, k).1),
    );
}

/// The highlight levels, kind by kind: enhancements, style and readability are
/// suggestions; usage, word choice, regionalisms, repetition, redundancy,
/// formatting, miscellany and eggcorns are warnings; agreement, boundary
/// errors, capitalization, grammar, malapropisms, nonstandard usage,
/// punctuation, spelling, typos and any other kind are errors.
pub proof fn law_highlight_levels(kind: LintKind)
    ensures
        (level_of(kind) == LintHighlight::Suggestion) <==> (kind == LintKind::Enhancement || kind == LintKind::Style
            || kind == LintKind::Readability),
        (level_of(kind) == LintHighlight::Warning) <==> (kind == LintKind::Usage || kind == LintKind::WordChoice
            || kind == LintKind::Regionalism || kind == LintKind::Repetition || kind == LintKind::Redundancy || kind
            == LintKind::Formatting || kind == LintKind::Miscellaneous || kind == LintKind::Eggcorn),
        (level_of(kind) == LintHighlight::Error) <==> (kind == LintKind::Agreement || kind
            == LintKind::BoundaryError || kind == LintKind::Capitalization || kind == LintKind::Grammar || kind
            == LintKind::Malapropism || kind == LintKind::Nonstandard || kind == LintKind::Punctuation || kind
            == LintKind::Spelling || kind == LintKind::Typo || kind == LintKind::Other),
{
}

} // verus!
