use vstd::prelude::*;
use vstd::string::StringSliceAdditionalSpecFns;
use vstd::utf8::{encode_utf8, is_char_boundary};

use crate::lint::{Lint, LintKind, LintModel, lint_models};
use crate::text::chars_of;

verus! {

broadcast use vstd::string::group_string_axioms;

/// How strongly a lint is highlighted in the editor.
#[derive(Clone, Copy, PartialEq, Eq, Debug, Structural)]
pub enum LintHighlight {
    Error,
    Warning,
    Suggestion,
}

/// The highlight of a lint kind: enhancements, style and readability are
/// suggestions; usage, word choice, regionalism, repetition, redundancy,
/// formatting, miscellany and eggcorns are warnings; everything else is an error.
pub open spec fn level_of(kind: LintKind) -> LintHighlight {
    match kind {
        LintKind::Enhancement | LintKind::Style | LintKind::Readability => LintHighlight::Suggestion,
        LintKind::Usage | LintKind::WordChoice | LintKind::Regionalism | LintKind::Repetition
        | LintKind::Redundancy | LintKind::Formatting | LintKind::Miscellaneous | LintKind::Eggcorn =>
            LintHighlight::Warning,
        _ => LintHighlight::Error,
    }
}

/// The highlight of a lint kind (see [`level_of`]).
pub fn lint_level_from_kind(kind: LintKind) -> (l: LintHighlight)
    ensures
        l == level_of(kind),
{
    match kind {
        LintKind::Enhancement | LintKind::Style | LintKind::Readability => LintHighlight::Suggestion,
        LintKind::Usage | LintKind::WordChoice | LintKind::Regionalism | LintKind::Repetition
        | LintKind::Redundancy | LintKind::Formatting | LintKind::Miscellaneous | LintKind::Eggcorn =>
            LintHighlight::Warning,
        _ => LintHighlight::Error,
    }
}

/// A highlighted byte range `[start, end)` of one line.
#[derive(Clone, Copy, PartialEq, Eq, Debug, Structural)]
pub struct HighlightSpan {
    pub start: usize,
    pub end: usize,
    pub level: LintHighlight,
}

/// The highlights of each line of a text, line by line.
#[derive(Debug, Clone, PartialEq, Eq)]
pub struct LintHighlightSettings {
    pub lines: Vec<Vec<HighlightSpan>>,
}

/// The byte offset at which character `i` of `text` starts in its UTF-8 form.
pub open spec fn byte_pos(text: Seq<char>, i: int) -> int {
    encode_utf8(text.take(i)).len() as int
}

/// Where a lint offset falls in the UTF-8 form of `text`: the offset itself when
/// it is a character boundary of that form, else the byte offset of character
/// number `off` (up to the end of the text), else nowhere.
pub open spec fn byte_offset(text: Seq<char>, off: int) -> Option<int> {
    if 0 <= off <= encode_utf8(text).len() && is_char_boundary(encode_utf8(text), off) {
        Some(off)
    } else if 0 <= off <= text.len() {
        Some(byte_pos(text, off))
    } else {
        None
    }
}

/// The character ranges `[start, end)` of the lines of `text`, which `\n`
/// separates (the `\n` itself belongs to no line); a text has one line more than
/// it has `\n` characters.
pub open spec fn line_char_spans(text: Seq<char>) -> Seq<(int, int)>
    decreases text.len(),
{
    if text.len() == 0 {
        seq![(0int, 0int)]
    } else {
        let prev = line_char_spans(text.drop_last());
        let n = text.len() - 1;
        if text.last() == '\n' {
            prev.update(prev.len() - 1, (prev.last().0, n)).push((n + 1, n + 1))
        } else {
            prev.update(prev.len() - 1, (prev.last().0, n + 1))
        }
    }
}

/// The byte range of line `k` of `text`.
pub open spec fn line_bytes(text: Seq<char>, k: int) -> (int, int) {
    (byte_pos(text, line_char_spans(text)[k].0), byte_pos(text, line_char_spans(text)[k].1))
}

/// The byte range and highlight that a lint covers in `text`, if it covers any:
/// both ends must fall somewhere, and the span must be non-empty both in
/// characters and in bytes.
pub open spec fn lint_bytes(text: Seq<char>, l: LintModel) -> Option<(int, int, LintHighlight)> {
    if l.start < l.end && byte_offset(text, l.start) is Some && byte_offset(text, l.end) is Some
        && byte_offset(text, l.start)->0 < byte_offset(text, l.end)->0 {
        Some((byte_offset(text, l.start)->0, byte_offset(text, l.end)->0, level_of(l.kind)))
    } else {
        None
    }
}

/// A highlighted range of a line, as numbers.
pub struct SpanModel {
    pub start: int,
    pub end: int,
    pub level: LintHighlight,
}

/// The part of each lint's byte range that falls in the line `[bs, be)`,
/// relative to the line's start, for the lints whose range meets the line, in
/// lint order.
pub open spec fn line_entries(cands: Seq<Option<(int, int, LintHighlight)>>, bs: int, be: int) -> Seq<SpanModel>
    decreases cands.len(),
{
    if cands.len() == 0 {
        Seq::empty()
    } else {
        let prev = line_entries(cands.drop_last(), bs, be);
        match cands.last() {
            Some((sb, eb, level)) => {
                let lo = if sb > bs { sb } else { bs };
                let hi = if eb < be { eb } else { be };
                if lo < hi {
                    prev.push(SpanModel { start: lo - bs, end: hi - bs, level })
                } else {
                    prev
                }
            },
            None => prev,
        }
    }
}

/// Inserts `e` after the leading run of ranges that start at or before it.
pub open spec fn insert_by_span_start(s: Seq<SpanModel>, e: SpanModel) -> Seq<SpanModel>
    decreases s.len(),
{
    if s.len() == 0 {
        seq![e]
    } else if s[0].start <= e.start {
        seq![s[0]] + insert_by_span_start(s.drop_first(), e)
    } else {
        seq![e] + s
    }
}

/// The ranges ordered by start; ranges with the same start keep their order
/// (a stable sort).
pub open spec fn sort_by_span_start(s: Seq<SpanModel>) -> Seq<SpanModel>
    decreases s.len(),
{
    if s.len() == 0 {
        Seq::empty()
    } else {
        insert_by_span_start(sort_by_span_start(s.drop_last()), s.last())
    }
}

/// The highlights of line `k` of `text` for `lints`.
pub open spec fn line_highlights(text: Seq<char>, lints: Seq<LintModel>, k: int) -> Seq<SpanModel> {
    sort_by_span_start(
        line_entries(
            lints.map_values(|l: LintModel| lint_bytes(text, l)),
            line_bytes(text, k).0,
            line_bytes(text, k).1,
        ),
    )
}

impl HighlightSpan {
    /// The numbers of this range.
    pub open spec fn model(self) -> SpanModel {
        SpanModel { start: self.start as int, end: self.end as int, level: self.level }
    }
}

/// The models of a line's ranges.
pub open spec fn span_models(s: Seq<HighlightSpan>) -> Seq<SpanModel> {
    s.map_values(|h: HighlightSpan| h.model())
}


/// The number of bytes of `c` in UTF-8 (as `char::len_utf8`).
pub fn utf8_len(c: char) -> (n: usize)
    ensures
        n == encode_utf8(seq![c]).len(),
{
    proof {
        reveal_with_fuel(encode_utf8, 2);
        assert(seq![c].drop_first() =~= Seq::<char>::empty());
        vstd::utf8::char_is_scalar(c);
    }
    let v = c as u32;
    if v <= 0x7f {
        1
    } else if v <= 0x7ff {
        2
    } else if v <= 0xffff {
        3
    } else {
        4
    }
}

proof fn lemma_byte_pos_step(text: Seq<char>, i: int)
    requires
        0 <= i < text.len(),
    ensures
        byte_pos(text, i + 1) == byte_pos(text, i) + encode_utf8(seq![text[i]]).len(),
{
    assert(text.take(i + 1) =~= text.take(i) + seq![text[i]]);
    crate::text::lemma_encode_concat(text.take(i), seq![text[i]]);
}

/// The byte offset at which each character of `cs` starts, followed by the
/// byte length of the whole text.
pub fn char_byte_offsets(cs: &Vec<char>) -> (pos: Vec<usize>)
    requires
        encode_utf8(cs@).len() <= usize::MAX,
    ensures
        pos@.len() == cs@.len() + 1,
        forall|i: int| 0 <= i <= cs@.len() ==> #[trigger] pos@[i] == byte_pos(cs@, i),
{
    let mut pos: Vec<usize> = Vec::new();
    let mut b: usize = 0;
    let mut i: usize = 0;
    assert(cs@.take(0) =~= Seq::<char>::empty());
    assert(cs@.take(cs@.len() as int) =~= cs@);
    while i < cs.len()
        invariant
            i <= cs@.len(),
            encode_utf8(cs@).len() <= usize::MAX,
            cs@.take(cs@.len() as int) == cs@,
            b == byte_pos(cs@, i as int),
            pos@.len() == i,
            forall|k: int| 0 <= k < i ==> #[trigger] pos@[k] == byte_pos(cs@, k),
        decreases cs@.len() - i,
    {
        pos.push(b);
        proof {
            lemma_byte_pos_step(cs@, i as int);
            crate::text::lemma_encode_concat(cs@.take(i + 1), cs@.skip(i + 1));
            assert(cs@.take(i + 1) + cs@.skip(i + 1) =~= cs@);
        }
        b = b + utf8_len(cs[i]);
        i = i + 1;
    }
    pos.push(b);
    pos
}

/// The character ranges of the lines of `cs` (see [`line_char_spans`]).
pub fn line_spans(cs: &Vec<char>) -> (spans: Vec<(usize, usize)>)
    ensures
        spans@.len() == line_char_spans(cs@).len(),
        forall|k: int| 0 <= k < spans@.len() ==> (#[trigger] spans@[k]).0 == line_char_spans(cs@)[k].0
            && spans@[k].1 == line_char_spans(cs@)[k].1,
{
    let mut spans: Vec<(usize, usize)> = Vec::new();
    let mut line_start: usize = 0;
    let mut i: usize = 0;
    while i < cs.len()
        invariant
            i <= cs@.len(),
            line_start <= i,
            spans@.len() + 1 == line_char_spans(cs@.take(i as int)).len(),
            forall|k: int| 0 <= k < spans@.len() ==> (#[trigger] spans@[k]).0 == line_char_spans(cs@.take(i as int))[k].0
                && spans@[k].1 == line_char_spans(cs@.take(i as int))[k].1,
            line_char_spans(cs@.take(i as int)).last() == (line_start as int, i as int),
        decreases cs@.len() - i,
    {
        let ghost t = cs@.take(i + 1);
        assert(t.drop_last() =~= cs@.take(i as int));
        if cs[i] == '\n' {
            spans.push((line_start, i));
            line_start = i + 1;
        }
        i = i + 1;
    }
    spans.push((line_start, i));
    assert(cs@.take(cs@.len() as int) =~= cs@);
    spans
}


/// Where a lint offset falls in the UTF-8 form of `text` (see [`byte_offset`]).
fn offset_to_byte(offset: usize, text: &str, positions: &Vec<usize>, cs: Ghost<Seq<char>>) -> (r: Option<usize>)
    requires
        cs@ == text@,
        text.spec_bytes().len() <= usize::MAX,
        positions@.len() == cs@.len() + 1,
        forall|i: int| 0 <= i <= cs@.len() ==> #[trigger] positions@[i] == byte_pos(cs@, i),
    ensures
        match r {
            Some(b) => byte_offset(cs@, offset as int) == Some(b as int),
            None => byte_offset(cs@, offset as int) is None,
        },
{
    if offset <= text.len() && text.is_char_boundary(offset) {
        Some(offset)
    } else if offset < positions.len() {
        Some(positions[offset])
    } else {
        None
    }
}

/// The byte range and highlight of each lint in `text` (see [`lint_bytes`]).
fn lint_candidates(text: &str, cs: &Vec<char>, lints: &[Lint]) -> (r: Vec<Option<(usize, usize, LintHighlight)>>)
    requires
        cs@ == text@,
        text.spec_bytes().len() <= usize::MAX,
    ensures
        r@.len() == lints@.len(),
        forall|j: int|
            0 <= j < lints@.len() ==> #[trigger] cand_model(r@[j]) == lint_bytes(cs@, lints@[j]@),
{
    let positions = char_byte_offsets(cs);
    let mut r: Vec<Option<(usize, usize, LintHighlight)>> = Vec::new();
    let mut j: usize = 0;
    while j < lints.len()
        invariant
            j <= lints@.len(),
            cs@ == text@,
            text.spec_bytes().len() <= usize::MAX,
            positions@.len() == cs@.len() + 1,
            forall|i: int| 0 <= i <= cs@.len() ==> #[trigger] positions@[i] == byte_pos(cs@, i),
            r@.len() == j,
            forall|k: int| 0 <= k < j ==> #[trigger] cand_model(r@[k]) == lint_bytes(cs@, lints@[k]@),
        decreases lints@.len() - j,
    {
        let lint = &lints[j];
        let mut c: Option<(usize, usize, LintHighlight)> = None;
        if lint.span_start < lint.span_end {
            let sb = offset_to_byte(lint.span_start, text, &positions, Ghost(cs@));
            let eb = offset_to_byte(lint.span_end, text, &positions, Ghost(cs@));
            match (sb, eb) {
                (Some(a), Some(b)) => {
                    if a < b {
                        c = Some((a, b, lint_level_from_kind(lint.lint_kind)));
                    }
                },
                _ => {},
            }
        }
        r.push(c);
        j = j + 1;
    }
    r
}

/// The numbers of a lint's byte range and highlight.
pub open spec fn cand_model(c: Option<(usize, usize, LintHighlight)>) -> Option<(int, int, LintHighlight)> {
    match c {
        Some((a, b, l)) => Some((a as int, b as int, l)),
        None => None,
    }
}

proof fn lemma_insert_by_span_start(s: Seq<SpanModel>, e: SpanModel, p: int)
    requires
        0 <= p <= s.len(),
        forall|i: int| 0 <= i < p ==> #[trigger] s[i].start <= e.start,
        p < s.len() ==> s[p].start > e.start,
    ensures
        insert_by_span_start(s, e) == s.insert(p, e),
    decreases s.len(),
{
    if s.len() == 0 {
        assert(s.insert(p, e) =~= seq![e]);
    } else if p == 0 {
        assert(s.insert(p, e) =~= seq![e] + s);
    } else {
        let t = s.drop_first();
        assert forall|i: int| 0 <= i < p - 1 implies #[trigger] t[i].start <= e.start by {
            assert(t[i] == s[i + 1]);
        }
        lemma_insert_by_span_start(t, e, p - 1);
        assert(seq![s[0]] + t.insert(p - 1, e) =~= s.insert(p, e));
    }
}

/// The ranges of one line ordered by start, stably (see [`sort_by_span_start`]).
fn sort_spans(spans: &Vec<HighlightSpan>) -> (out: Vec<HighlightSpan>)
    ensures
        span_models(out@) == sort_by_span_start(span_models(spans@)),
{
    let mut out: Vec<HighlightSpan> = Vec::new();
    let mut i: usize = 0;
    while i < spans.len()
        invariant
            i <= spans@.len(),
            span_models(out@) == sort_by_span_start(span_models(spans@).take(i as int)),
        decreases spans@.len() - i,
    {
        let ghost before = span_models(out@);
        let e = spans[i];
        let mut p: usize = 0;
        while p < out.len() && out[p].start <= e.start
            invariant
                p <= out@.len(),
                before == span_models(out@),
                forall|k: int| 0 <= k < p ==> #[trigger] before[k].start <= e.start,
            decreases out@.len() - p,
        {
            p = p + 1;
        }
        proof {
            lemma_insert_by_span_start(before, e.model(), p as int);
            let next = span_models(spans@).take(i + 1);
            assert(next.drop_last() =~= span_models(spans@).take(i as int));
        }
        out.insert(p, e);
        assert(span_models(out@) =~= before.insert(p as int, e.model()));
        i = i + 1;
    }
    assert(span_models(spans@).take(spans@.len() as int) =~= span_models(spans@));
    out
}

/// The ranges of the line `[bs, be)`, in lint order (see [`line_entries`]).
fn entries_for_line(cands: &Vec<Option<(usize, usize, LintHighlight)>>, bs: usize, be: usize) -> (out: Vec<HighlightSpan>)
    ensures
        span_models(out@) == line_entries(cands@.map_values(|c: Option<(usize, usize, LintHighlight)>| cand_model(c)), bs as int, be as int),
{
    let ghost ms = cands@.map_values(|c: Option<(usize, usize, LintHighlight)>| cand_model(c));
    let mut out: Vec<HighlightSpan> = Vec::new();
    let mut j: usize = 0;
    while j < cands.len()
        invariant
            j <= cands@.len(),
            ms == cands@.map_values(|c: Option<(usize, usize, LintHighlight)>| cand_model(c)),
            span_models(out@) == line_entries(ms.take(j as int), bs as int, be as int),
        decreases cands@.len() - j,
    {
        let ghost before = out@;
        assert(ms.take(j + 1).drop_last() =~= ms.take(j as int));
        assert(ms.take(j + 1).last() == cand_model(cands@[j as int]));
        match cands[j] {
            Some((sb, eb, level)) => {
                let lo = if sb > bs { sb } else { bs };
                let hi = if eb < be { eb } else { be };
                if lo < hi {
                    out.push(HighlightSpan { start: lo - bs, end: hi - bs, level });
                    assert(span_models(out@) =~= span_models(before).push(out@.last().model()));
                }
            },
            None => {},
        }
        j = j + 1;
    }
    assert(ms.take(cands@.len() as int) =~= ms);
    out
}

/// The highlights of every line of `text` for `lints`: for each line (lines
/// are separated by `\n`), the part of each lint's byte range that falls in the
/// line, relative to the line's start, ordered by start (see [`line_highlights`]).
pub fn build_lint_highlight_settings(text: &str, lints: &[Lint]) -> (s: LintHighlightSettings)
    requires
        text.spec_bytes().len() <= usize::MAX,
    ensures
        s.lines@.len() == line_char_spans(text@).len(),
        forall|k: int|
            0 <= k < s.lines@.len() ==> span_models(#[trigger] s.lines@[k]@) == line_highlights(
                text@,
                lint_models(lints@),
                k,
            ),
{
    let cs = chars_of(text);
    let cands = lint_candidates(text, &cs, lints);
    let positions = char_byte_offsets(&cs);
    let spans = line_spans(&cs);
    let ghost cms = cands@.map_values(|c: Option<(usize, usize, LintHighlight)>| cand_model(c));
    assert(cms =~= lint_models(lints@).map_values(|l: LintModel| lint_bytes(text@, l)));
    let mut lines: Vec<Vec<HighlightSpan>> = Vec::new();
    let mut k: usize = 0;
    while k < spans.len()
        invariant
            k <= spans@.len(),
            cs@ == text@,
            spans@.len() == line_char_spans(cs@).len(),
            forall|m: int| 0 <= m < spans@.len() ==> (#[trigger] spans@[m]).0 == line_char_spans(cs@)[m].0
                && spans@[m].1 == line_char_spans(cs@)[m].1,
            positions@.len() == cs@.len() + 1,
            forall|i: int| 0 <= i <= cs@.len() ==> #[trigger] positions@[i] == byte_pos(cs@, i),
            cms == cands@.map_values(|c: Option<(usize, usize, LintHighlight)>| cand_model(c)),
            cms == lint_models(lints@).map_values(|l: LintModel| lint_bytes(text@, l)),
            lines@.len() == k,
            forall|m: int|
                0 <= m < k ==> span_models(#[trigger] lines@[m]@) == line_highlights(text@, lint_models(lints@), m),
        decreases spans@.len() - k,
    {
        let (a, b) = spans[k];
        proof {
            lemma_line_span_bounds(cs@, k as int);
        }
        let bs = positions[a];
        let be = positions[b];
        let entries = entries_for_line(&cands, bs, be);
        let sorted = sort_spans(&entries);
        lines.push(sorted);
        k = k + 1;
    }
    LintHighlightSettings { lines }
}

/// Every line's character range lies inside the text, start before end.
pub(crate) proof fn lemma_line_span_bounds(text: Seq<char>, k: int)
    requires
        0 <= k < line_char_spans(text).len(),
    ensures
        0 <= line_char_spans(text)[k].0 <= line_char_spans(text)[k].1 <= text.len(),
    decreases text.len(),
{
    if text.len() > 0 {
        let prev = line_char_spans(text.drop_last());
        if k < prev.len() {
            lemma_line_span_bounds(text.drop_last(), k);
        }
        if prev.len() > 0 {
            lemma_line_span_bounds(text.drop_last(), prev.len() - 1);
        }
        lemma_line_spans_nonempty(text.drop_last());
    }
}

proof fn lemma_line_spans_nonempty(text: Seq<char>)
    ensures
        line_char_spans(text).len() >= 1,
    decreases text.len(),
{
    if text.len() > 0 {
        lemma_line_spans_nonempty(text.drop_last());
    }
}


impl LintHighlightSettings {
    /// The highlights of each line, as numbers.
    pub open spec fn model(&self) -> Seq<Seq<SpanModel>> {
        self.lines@.map_values(|l: Vec<HighlightSpan>| span_models(l@))
    }

    /// A copy of these settings.
    pub fn duplicate(&self) -> (r: LintHighlightSettings)
        ensures
            r.model() == self.model(),
    {
        let mut lines: Vec<Vec<HighlightSpan>> = Vec::new();
        let mut k: usize = 0;
        while k < self.lines.len()
            invariant
                k <= self.lines@.len(),
                lines@.len() == k,
                forall|m: int| 0 <= m < k ==> span_models(#[trigger] lines@[m]@) == span_models(self.lines@[m]@),
            decreases self.lines@.len() - k,
        {
            lines.push(copy_spans(&self.lines[k]));
            k = k + 1;
        }
        let r = LintHighlightSettings { lines };
        assert(r.model() =~= self.model());
        r
    }
}

fn copy_spans(v: &Vec<HighlightSpan>) -> (r: Vec<HighlightSpan>)
    ensures
        span_models(r@) == span_models(v@),
{
    let mut r: Vec<HighlightSpan> = Vec::new();
    let mut i: usize = 0;
    while i < v.len()
        invariant
            i <= v@.len(),
            r@.len() == i,
            forall|m: int| 0 <= m < i ==> (#[trigger] r@[m]).model() == v@[m].model(),
        decreases v@.len() - i,
    {
        r.push(v[i]);
        i = i + 1;
    }
    assert(span_models(r@) =~= span_models(v@));
    r
}

/// What a highlighter holds: the highlights of each line, and the line whose
/// highlights it hands out next.
pub struct HighlighterModel {
    pub settings: Seq<Seq<SpanModel>>,
    pub line: int,
}

/// A highlighter fresh on `settings`: at the first line.
pub open spec fn highlighter_start(settings: Seq<Seq<SpanModel>>) -> HighlighterModel {
    HighlighterModel { settings, line: 0 }
}

/// What the next call of [`LintHighlighter::highlight_line`] hands out: the
/// highlights of the current line, none past the last line.
pub open spec fn highlighter_output(h: HighlighterModel) -> Seq<SpanModel> {
    if 0 <= h.line < h.settings.len() {
        h.settings[h.line]
    } else {
        Seq::empty()
    }
}

/// The highlighter after handing out one line: on the next line.
pub open spec fn highlighter_next(h: HighlighterModel) -> HighlighterModel {
    HighlighterModel { line: h.line + 1, ..h }
}

/// The highlighter after handing out `k` lines one after another.
pub open spec fn highlighter_after(h: HighlighterModel, k: nat) -> HighlighterModel
    decreases k,
{
    if k == 0 {
        h
    } else {
        highlighter_next(highlighter_after(h, (k - 1) as nat))
    }
}

/// Hands the editor the highlights of one line after another.
pub struct LintHighlighter {
    settings: LintHighlightSettings,
    current_line: usize,
}

impl LintHighlighter {
    /// The highlights this highlighter hands out and the line it is on.
    pub closed spec fn state(&self) -> HighlighterModel {
        HighlighterModel { settings: self.settings.model(), line: self.current_line as int }
    }

    /// A highlighter for `settings`, at the first line.
    pub fn new(settings: &LintHighlightSettings) -> (h: LintHighlighter)
        ensures
            h.state() == highlighter_start(settings.model()),
    {
        LintHighlighter { settings: settings.duplicate(), current_line: 0 }
    }

    /// Switches to new settings and starts over at the first line.
    pub fn update(&mut self, new_settings: &LintHighlightSettings)
        ensures
            final(self).state() == highlighter_start(new_settings.model()),
    {
        self.settings = new_settings.duplicate();
        self.current_line = 0;
    }

    /// Moves to line `line`.
    pub fn change_line(&mut self, line: usize)
        ensures
            final(self).state() == (HighlighterModel { line: line as int, ..old(self).state() }),
    {
        self.current_line = line;
    }

    /// The highlights of the current line (none past the last line), after which
    /// the highlighter moves to the next line.
    pub fn highlight_line(&mut self) -> (items: Vec<HighlightSpan>)
        requires
            old(self).state().line < usize::MAX,
        ensures
            span_models(items@) == highlighter_output(old(self).state()),
            final(self).state() == highlighter_next(old(self).state()),
    {
        let items = if self.current_line < self.settings.lines.len() {
            copy_spans(&self.settings.lines[self.current_line])
        } else {
            Vec::new()
        };
        self.current_line = self.current_line + 1;
        assert(span_models(Seq::<HighlightSpan>::empty()) =~= Seq::<SpanModel>::empty());
        items
    }

    /// The line whose highlights are handed out next.
    pub fn current_line(&self) -> (l: usize)
        ensures
            l == self.state().line,
    {
        self.current_line
    }
}

/// A render after a settings change starts at the first line: after a reset to
/// `settings` (by `new` or `update`) and `k` calls of `highlight_line` with no
/// `change_line` between, the highlighter still holds `settings`, is on line
/// `k`, and its next call hands out exactly line `k`'s highlights (none past the
/// last line) and moves it to line `k + 1`.
pub proof fn law_highlighter_walks_lines(settings: Seq<Seq<SpanModel>>, k: nat)
    ensures
        highlighter_after(highlighter_start(settings), k) == (HighlighterModel { settings, line: k as int }),
        highlighter_output(highlighter_after(highlighter_start(settings), k)) == (if k < settings.len() {
            settings[k as int]
        } else {
            Seq::empty()
        }),
        highlighter_next(highlighter_after(highlighter_start(settings), k)) == highlighter_after(
            highlighter_start(settings),
            k + 1,
        ),
    decreases k,
{
    if k > 0 {
        law_highlighter_walks_lines(settings, (k - 1) as nat);
    }
}

} // verus!
