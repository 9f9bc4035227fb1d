use vstd::prelude::*;

use crate::lint::{spliced, Lint, LintModel, Suggestion, SuggestionModel, lint_models};

verus! {

/// A change chosen for one pass: apply `suggestion` to the span `[start, end)`.
pub struct Edit {
    pub start: usize,
    pub end: usize,
    pub suggestion: Suggestion,
}

/// The mathematical value of an [`Edit`].
pub struct EditModel {
    pub start: int,
    pub end: int,
    pub suggestion: SuggestionModel,
}

impl View for Edit {
    type V = EditModel;

    open spec fn view(&self) -> EditModel {
        EditModel { start: self.start as int, end: self.end as int, suggestion: self.suggestion@ }
    }
}

/// The models of a sequence of edits.
pub open spec fn edit_models(edits: Seq<Edit>) -> Seq<EditModel> {
    edits.map_values(|e: Edit| e@)
}

/// Whether some edit of `edits` covers exactly the span `[start, end)`.
pub open spec fn has_span(edits: Seq<EditModel>, start: int, end: int) -> bool {
    exists|i: int| 0 <= i < edits.len() && edits[i].start == start && edits[i].end == end
}

/// The edits of one pass: going through the lints in order, each lint that has a
/// suggestion contributes its first suggestion, unless an earlier lint already
/// contributed one for exactly the same span.
pub open spec fn pass_edits(lints: Seq<LintModel>) -> Seq<EditModel>
    decreases lints.len(),
{
    if lints.len() == 0 {
        Seq::empty()
    } else {
        let prev = pass_edits(lints.drop_last());
        let l = lints.last();
        if l.suggestions.len() > 0 && !has_span(prev, l.start, l.end) {
            prev.push(EditModel { start: l.start, end: l.end, suggestion: l.suggestions[0] })
        } else {
            prev
        }
    }
}

/// Inserts `e` into `s` right after the leading run of edits that start at or
/// after `e`'s start.
pub open spec fn insert_by_start(s: Seq<EditModel>, e: EditModel) -> Seq<EditModel>
    decreases s.len(),
{
    if s.len() == 0 {
        seq![e]
    } else if s[0].start >= e.start {
        seq![s[0]] + insert_by_start(s.drop_first(), e)
    } else {
        seq![e] + s
    }
}

/// The edits ordered by start position, last start first; edits with the same
/// start keep their relative order (a stable sort).
pub open spec fn order_by_start_desc(s: Seq<EditModel>) -> Seq<EditModel>
    decreases s.len(),
{
    if s.len() == 0 {
        Seq::empty()
    } else {
        insert_by_start(order_by_start_desc(s.drop_last()), s.last())
    }
}

/// Whether applying `edits` one after another to a text of `len` characters keeps
/// every span inside the text it is applied to, and every intermediate text
/// short enough to be held in memory.
pub open spec fn edits_fit(len: int, edits: Seq<EditModel>) -> bool
    decreases edits.len(),
{
    if edits.len() == 0 {
        true
    } else {
        let e = edits[0];
        &&& 0 <= e.start <= e.end <= len
        &&& len_after(len, e) <= usize::MAX
        &&& edits_fit(len_after(len, e), edits.drop_first())
    }
}

/// The length of a text of `len` characters after applying edit `e`.
pub open spec fn len_after(len: int, e: EditModel) -> int {
    match e.suggestion {
        SuggestionModel::ReplaceWith(r) => len - (e.end - e.start) + r.len(),
        SuggestionModel::InsertAfter(r) => len + r.len(),
        SuggestionModel::Remove => len - (e.end - e.start),
    }
}

/// The text after applying `edits` one after another.
pub open spec fn apply_edits(text: Seq<char>, edits: Seq<EditModel>) -> Seq<char>
    decreases edits.len(),
{
    if edits.len() == 0 {
        text
    } else {
        let e = edits[0];
        apply_edits(spliced(text, e.suggestion, e.start, e.end), edits.drop_first())
    }
}

proof fn lemma_spliced_len(text: Seq<char>, e: EditModel)
    requires
        0 <= e.start <= e.end <= text.len(),
    ensures
        spliced(text, e.suggestion, e.start, e.end).len() == len_after(text.len() as int, e),
{
}

impl Edit {
    /// A copy of this edit.
    pub fn duplicate(&self) -> (r: Edit)
        ensures
            r@ == self@,
    {
        Edit { start: self.start, end: self.end, suggestion: self.suggestion.duplicate() }
    }
}

proof fn lemma_insert_by_start(s: Seq<EditModel>, e: EditModel, p: int)
    requires
        0 <= p <= s.len(),
        forall|i: int| 0 <= i < p ==> #[trigger] s[i].start >= e.start,
        p < s.len() ==> s[p].start < e.start,
    ensures
        insert_by_start(s, e) == s.insert(p, e),
    decreases s.len(),
{
    if s.len() == 0 {
        assert(s.insert(p, e) =~= seq![e]);
    } else if p == 0 {
        assert(s.insert(p, e) =~= seq![e] + s);
    } else {
        let t = s.drop_first();
        assert forall|i: int| 0 <= i < p - 1 implies #[trigger] t[i].start >= e.start by {
            assert(t[i] == s[i + 1]);
        }
        lemma_insert_by_start(t, e, p - 1);
        assert(seq![s[0]] + t.insert(p - 1, e) =~= s.insert(p, e));
    }
}

/// Orders the edits of a pass so that they are applied from the end of the text
/// towards its start; edits that start at the same place keep their order.
pub fn order_edits(edits: &[Edit]) -> (out: Vec<Edit>)
    ensures
        edit_models(out@) == order_by_start_desc(edit_models(edits@)),
{
    let mut out: Vec<Edit> = Vec::new();
    let mut i: usize = 0;
    while i < edits.len()
        invariant
            i <= edits@.len(),
            edit_models(out@) == order_by_start_desc(edit_models(edits@).take(i as int)),
        decreases edits@.len() - i,
    {
        let ghost before = edit_models(out@);
        let e = edits[i].duplicate();
        let mut p: usize = 0;
        while p < out.len() && out[p].start >= e.start
            invariant
                p <= out@.len(),
                before == edit_models(out@),
                forall|k: int| 0 <= k < p ==> #[trigger] before[k].start >= e.start,
            decreases out@.len() - p,
        {
            p = p + 1;
        }
        proof {
            lemma_insert_by_start(before, e@, p as int);
            let next = edit_models(edits@).take(i + 1);
            assert(next.drop_last() =~= edit_models(edits@).take(i as int));
            assert(next.last() == edits@[i as int]@);
        }
        out.insert(p, e);
        assert(edit_models(out@) =~= before.insert(p as int, e@));
        i = i + 1;
    }
    assert(edit_models(edits@).take(edits@.len() as int) =~= edit_models(edits@));
    out
}

/// Whether the edits, applied in order to a text of `len` characters, stay inside
/// the text they are applied to.
pub fn check_edits_fit(len: usize, edits: &[Edit]) -> (r: bool)
    ensures
        r == edits_fit(len as int, edit_models(edits@)),
{
    let mut cur: usize = len;
    let mut i: usize = 0;
    let ghost ms = edit_models(edits@);
    assert(ms.skip(0) =~= ms);
    while i < edits.len()
        invariant
            i <= edits@.len(),
            ms == edit_models(edits@),
            edits_fit(len as int, ms) == edits_fit(cur as int, ms.skip(i as int)),
        decreases edits@.len() - i,
    {
        let e = &edits[i];
        assert(ms.skip(i as int)[0] == e@);
        assert(ms.skip(i as int).drop_first() =~= ms.skip(i + 1));
        if !(e.start <= e.end && e.end <= cur) {
            return false;
        }
        let next: u128 = match &e.suggestion {
            Suggestion::ReplaceWith(r) => cur as u128 - (e.end - e.start) as u128 + r.len() as u128,
            Suggestion::InsertAfter(r) => cur as u128 + r.len() as u128,
            Suggestion::Remove => cur as u128 - (e.end - e.start) as u128,
        };
        if next > usize::MAX as u128 {
            return false;
        }
        cur = next as usize;
        i = i + 1;
    }
    true
}

/// Collects the edits of one pass from the lints of the current text.
pub fn collect_edits(lints: &[Lint]) -> (edits: Vec<Edit>)
    ensures
        edit_models(edits@) == pass_edits(lint_models(lints@)),
{
    let mut edits: Vec<Edit> = Vec::new();
    let mut i: usize = 0;
    while i < lints.len()
        invariant
            i <= lints@.len(),
            edit_models(edits@) == pass_edits(lint_models(lints@).take(i as int)),
        decreases lints@.len() - i,
    {
        let ghost prefix = lint_models(lints@).take(i as int);
        let ghost next = lint_models(lints@).take(i + 1);
        assert(next.drop_last() =~= prefix);
        assert(next.last() == lints@[i as int]@);
        let lint = &lints[i];
        if lint.suggestions.len() > 0 {
            let mut seen = false;
            let mut j: usize = 0;
            while j < edits.len()
                invariant
                    j <= edits@.len(),
                    seen == has_span(edit_models(edits@).take(j as int), lint.span_start as int, lint.span_end as int),
                decreases edits@.len() - j,
            {
                let ghost ms = edit_models(edits@);
                if edits[j].start == lint.span_start && edits[j].end == lint.span_end {
                    seen = true;
                    assert(ms.take(j + 1)[j as int] == ms[j as int]);
                } else {
                    proof {
                        let a = ms.take(j as int);
                        let b = ms.take(j + 1);
                        if seen {
                            let w = choose|w: int| 0 <= w < a.len() && #[trigger] a[w].start == lint.span_start && a[w].end == lint.span_end;
                            assert(b[w] == a[w]);
                        }
                        if has_span(b, lint.span_start as int, lint.span_end as int) {
                            let w = choose|w: int| 0 <= w < b.len() && #[trigger] b[w].start == lint.span_start && b[w].end == lint.span_end;
                            assert(a[w] == b[w]);
                        }
                    }
                }
                j = j + 1;
            }
            assert(edit_models(edits@).take(edits@.len() as int) =~= edit_models(edits@));
            if !seen {
                let ghost old_edits = edits@;
                let e = Edit {
                    start: lint.span_start,
                    end: lint.span_end,
                    suggestion: lint.suggestions[0].duplicate(),
                };
                edits.push(e);
                assert(edit_models(edits@) =~= edit_models(old_edits).push(e@));
            }
        }
        i = i + 1;
    }
    assert(lint_models(lints@).take(lints@.len() as int) =~= lint_models(lints@));
    edits
}


/// Applies the edits one after another to `text`.
pub fn apply_edit_list(text: &mut Vec<char>, edits: &[Edit])
    requires
        edits_fit(old(text)@.len() as int, edit_models(edits@)),
    ensures
        final(text)@ == apply_edits(old(text)@, edit_models(edits@)),
{
    let ghost ms = edit_models(edits@);
    let ghost start = text@;
    assert(ms.skip(0) =~= ms);
    let mut i: usize = 0;
    while i < edits.len()
        invariant
            i <= edits@.len(),
            ms == edit_models(edits@),
            edits_fit(text@.len() as int, ms.skip(i as int)),
            apply_edits(start, ms) == apply_edits(text@, ms.skip(i as int)),
        decreases edits@.len() - i,
    {
        let e = &edits[i];
        assert(ms.skip(i as int)[0] == e@);
        assert(ms.skip(i as int).drop_first() =~= ms.skip(i + 1));
        proof {
            lemma_spliced_len(text@, e@);
        }
        e.suggestion.apply(e.start, e.end, text);
        i = i + 1;
    }
}

/// The number of passes after which correcting stops in any case.
pub const MAX_PASSES: usize = 8;

/// The state of a correction run: the text as it was given, the text as corrected
/// so far, the number of edits made, the number of passes that made edits, the
/// number of passes run, and whether the run is over.
pub struct SessionModel {
    pub original: Seq<char>,
    pub content: Seq<char>,
    pub corrections: nat,
    pub passes: nat,
    pub pass_index: nat,
    pub finished: bool,
}

/// The state in which correcting `text` starts.
pub open spec fn session_start(text: Seq<char>) -> SessionModel {
    SessionModel {
        original: text,
        content: text,
        corrections: 0,
        passes: 0,
        pass_index: 0,
        finished: false,
    }
}

/// The edits of one pass, in the order in which they are applied.
pub open spec fn ordered_pass_edits(lints: Seq<LintModel>) -> Seq<EditModel> {
    order_by_start_desc(pass_edits(lints))
}

/// The state after one pass over `s.content`, given the lints of `s.content`.
/// A pass without edits ends the run; otherwise its edits are counted, the pass is
/// counted, the edits are applied from the end of the text towards its start, and
/// the run ends if the text did not change or the last allowed pass was run.
pub open spec fn session_step(s: SessionModel, lints: Seq<LintModel>) -> SessionModel {
    let edits = pass_edits(lints);
    if edits.len() == 0 {
        SessionModel { finished: true, ..s }
    } else {
        let updated = apply_edits(s.content, ordered_pass_edits(lints));
        let next_index = s.pass_index + 1;
        SessionModel {
            original: s.original,
            content: updated,
            corrections: s.corrections + edits.len(),
            passes: next_index,
            pass_index: next_index,
            finished: updated == s.content || next_index >= MAX_PASSES,
        }
    }
}

/// Whether a pass with `lints` can be run on `s` without leaving memory's bounds:
/// every edit fits the text it is applied to, and the edit count stays a `usize`.
pub open spec fn step_allowed(s: SessionModel, lints: Seq<LintModel>) -> bool {
    &&& edits_fit(s.content.len() as int, ordered_pass_edits(lints))
    &&& s.corrections + pass_edits(lints).len() <= usize::MAX
}

/// The end state of a run in which every pass is given the lints that `checker`
/// reports for the current text.
pub open spec fn session_run(s: SessionModel, checker: spec_fn(Seq<char>) -> Seq<LintModel>) -> SessionModel
    decreases MAX_PASSES - s.pass_index, if s.finished { 0int } else { 1int },
{
    if s.finished || s.pass_index >= MAX_PASSES {
        s
    } else {
        session_run(session_step(s, checker(s.content)), checker)
    }
}

/// The text and counts of a finished correction run.
#[derive(Debug, Clone)]
pub struct CorrectionResult {
    pub original_text: String,
    pub corrected_text: String,
    pub corrections_count: usize,
    pub passes_count: usize,
}

/// A correction run in progress: corrects a text in up to [`MAX_PASSES`] passes.
/// Each pass takes the lints of the current text (from the grammar checker),
/// keeps one suggestion per exact span, and applies the kept suggestions from the
/// end of the text towards its start.
pub struct CorrectionSession {
    original: String,
    content: Vec<char>,
    corrections: usize,
    passes: usize,
    pass_index: usize,
    finished: bool,
}

impl View for CorrectionSession {
    type V = SessionModel;

    closed spec fn view(&self) -> SessionModel {
        SessionModel {
            original: self.original@,
            content: self.content@,
            corrections: self.corrections as nat,
            passes: self.passes as nat,
            pass_index: self.pass_index as nat,
            finished: self.finished,
        }
    }
}

impl CorrectionSession {
    /// Well-formedness: passes are counted only when they made edits, and no more
    /// than [`MAX_PASSES`] passes are run.
    pub closed spec fn wf(&self) -> bool {
        &&& self.pass_index <= MAX_PASSES
        &&& self.passes <= self.pass_index
        &&& (self.corrections == 0) == (self.passes == 0)
        &&& self.pass_index >= MAX_PASSES ==> self.finished
    }

    /// Starts correcting `text`.
    pub fn new(text: &str) -> (s: CorrectionSession)
        ensures
            s@ == session_start(text@),
            s.wf(),
    {
        CorrectionSession {
            original: text.to_owned(),
            content: crate::text::chars_of(text),
            corrections: 0,
            passes: 0,
            pass_index: 0,
            finished: false,
        }
    }

    /// Whether the run is over.
    pub fn is_finished(&self) -> (r: bool)
        ensures
            r == self@.finished,
    {
        self.finished
    }

    /// The text that the next pass checks.
    pub fn text_to_check(&self) -> (t: String)
        ensures
            t@ == self@.content,
    {
        crate::text::string_from_chars(self.content.as_slice())
    }

    /// Whether the next pass can be run with `lints` (see [`step_allowed`]).
    pub fn pass_allowed(&self, lints: &[Lint]) -> (r: bool)
        ensures
            r == step_allowed(self@, lint_models(lints@)),
    {
        let edits = collect_edits(lints);
        let ordered = order_edits(edits.as_slice());
        if !check_edits_fit(self.content.len(), ordered.as_slice()) {
            return false;
        }
        self.corrections <= usize::MAX - edits.len()
    }

    /// Runs one pass over the current text, given the lints that the grammar
    /// checker reports for it.
    pub fn feed(&mut self, lints: &[Lint])
        requires
            old(self).wf(),
            !old(self)@.finished,
            step_allowed(old(self)@, lint_models(lints@)),
        ensures
            final(self).wf(),
            final(self)@ == session_step(old(self)@, lint_models(lints@)),
    {
        let edits = collect_edits(lints);
        if edits.len() == 0 {
            self.finished = true;
            return;
        }
        self.corrections = self.corrections + edits.len();
        self.pass_index = self.pass_index + 1;
        self.passes = self.pass_index;
        let ordered = order_edits(edits.as_slice());
        let mut updated = crate::lint::copy_chars(&self.content);
        apply_edit_list(&mut updated, ordered.as_slice());
        let unchanged = same_chars(&updated, &self.content);
        self.content = updated;
        if unchanged || self.pass_index >= MAX_PASSES {
            self.finished = true;
        }
    }

    /// The outcome of the run: the text as given, the text as corrected so far,
    /// the number of edits made and the number of passes that made edits.
    pub fn result(&self) -> (r: CorrectionResult)
        ensures
            r.original_text@ == self@.original,
            r.corrected_text@ == self@.content,
            r.corrections_count == self@.corrections,
            r.passes_count == self@.passes,
    {
        CorrectionResult {
            original_text: self.original.clone(),
            corrected_text: crate::text::string_from_chars(self.content.as_slice()),
            corrections_count: self.corrections,
            passes_count: self.passes,
        }
    }
}

/// Whether two character vectors hold the same characters.
pub fn same_chars(a: &Vec<char>, b: &Vec<char>) -> (r: bool)
    ensures
        r == (a@ == b@),
{
    if a.len() != b.len() {
        return false;
    }
    let mut i: usize = 0;
    while i < a.len()
        invariant
            a@.len() == b@.len(),
            i <= a@.len(),
            forall|k: int| 0 <= k < i ==> a@[k] == b@[k],
        decreases a@.len() - i,
    {
        if a[i] != b[i] {
            return false;
        }
        i = i + 1;
    }
    assert(a@ =~= b@);
    true
}

} // verus!
