use vstd::prelude::*;

use crate::correction::{
    apply_edits, has_span, insert_by_start, order_by_start_desc, ordered_pass_edits, pass_edits, session_run,
    session_start, session_step, EditModel, SessionModel, MAX_PASSES,
};
use crate::lint::LintModel;

verus! {

/// Whether the edits are ordered by start position, last start first.
pub open spec fn starts_descending(s: Seq<EditModel>) -> bool {
    forall|i: int, j: int| 0 <= i < j < s.len() ==> s[i].start >= s[j].start
}

proof fn lemma_insert_keeps_order(s: Seq<EditModel>, e: EditModel)
    requires
        starts_descending(s),
    ensures
        starts_descending(insert_by_start(s, e)),
        insert_by_start(s, e).to_multiset() =~= s.to_multiset().insert(e),
        insert_by_start(s, e).len() == s.len() + 1,
    decreases s.len(),
{
    broadcast use vstd::seq_lib::group_to_multiset_ensures;
    if s.len() == 0 {
        assert(seq![e] =~= Seq::<EditModel>::empty().push(e));
    } else if s[0].start >= e.start {
        let t = s.drop_first();
        lemma_insert_keeps_order(t, e);
        let r = insert_by_start(t, e);
        assert(s =~= seq![s[0]] + t);
        assert(seq![s[0]] + r =~= r.insert(0, s[0]));
        assert(s =~= t.insert(0, s[0]));
        assert forall|k: int| 0 <= k < r.len() implies s[0].start >= #[trigger] r[k].start by {
            assert(r.to_multiset().count(r[k]) > 0);
            assert(t.to_multiset().insert(e).count(r[k]) > 0);
            if r[k] != e {
                assert(t.to_multiset().count(r[k]) > 0);
                let w = choose|w: int| 0 <= w < t.len() && t[w] == r[k];
                assert(t[w] == s[w + 1]);
            }
        }
        let out = seq![s[0]] + r;
        assert forall|i: int, j: int| 0 <= i < j < out.len() implies out[i].start >= out[j].start by {
            if i == 0 {
                assert(out[j] == r[j - 1]);
            } else {
                assert(out[i] == r[i - 1]);
                assert(out[j] == r[j - 1]);
            }
        }
    } else {
        let out = seq![e] + s;
        assert(out =~= s.insert(0, e));
        assert forall|i: int, j: int| 0 <= i < j < out.len() implies out[i].start >= out[j].start by {
            if i == 0 {
                assert(out[j] == s[j - 1]);
                assert(s[0].start >= s[j - 1].start || j - 1 == 0);
            } else {
                assert(out[i] == s[i - 1]);
                assert(out[j] == s[j - 1]);
            }
        }
    }
}

/// The edits of a pass are applied from the end of the text towards its start:
/// ordering them puts them in non-increasing order of start position, and keeps
/// exactly the same edits.
pub proof fn law_ordered_edits_descend(edits: Seq<EditModel>)
    ensures
        starts_descending(order_by_start_desc(edits)),
        order_by_start_desc(edits).to_multiset() =~= edits.to_multiset(),
        order_by_start_desc(edits).len() == edits.len(),
    decreases edits.len(),
{
    broadcast use vstd::seq_lib::group_to_multiset_ensures;
    if edits.len() == 0 {
    } else {
        law_ordered_edits_descend(edits.drop_last());
        lemma_insert_keeps_order(order_by_start_desc(edits.drop_last()), edits.last());
        assert(edits =~= edits.drop_last().push(edits.last()));
    }
}

/// Whether lint `k` has a suggestion and no earlier lint with a suggestion has
/// the same span.
pub open spec fn first_with_span(lints: Seq<LintModel>, k: int) -> bool {
    &&& lints[k].suggestions.len() > 0
    &&& forall|m: int|
        #![trigger lints[m]]
        0 <= m < k && lints[m].suggestions.len() > 0 ==> !(lints[m].start == lints[k].start
            && lints[m].end == lints[k].end)
}

/// Whether edit `e` is the first suggestion of lint `k`, the first lint with a
/// suggestion for its span.
pub open spec fn edit_of_lint(lints: Seq<LintModel>, k: int, e: EditModel) -> bool {
    &&& 0 <= k < lints.len()
    &&& first_with_span(lints, k)
    &&& lints[k].start == e.start
    &&& lints[k].end == e.end
    &&& lints[k].suggestions[0] == e.suggestion
}

/// The index of a lint that edit `e` comes from (see [`edit_of_lint`]).
pub open spec fn lint_origin(lints: Seq<LintModel>, e: EditModel) -> int {
    choose|k: int| edit_of_lint(lints, k, e)
}

/// The lint that edit `i` of a pass comes from.
proof fn lemma_edit_origin(lints: Seq<LintModel>, i: int) -> (k: int)
    requires
        0 <= i < pass_edits(lints).len(),
    ensures
        edit_of_lint(lints, k, pass_edits(lints)[i]),
    decreases lints.len(),
{
    let p = lints.drop_last();
    let prev = pass_edits(p);
    let l = lints.last();
    let cur = pass_edits(lints);
    lemma_spans_distinct_and_covered(p);
    if i < prev.len() {
        assert(cur[i] == prev[i]);
        let k = lemma_edit_origin(p, i);
        assert(lints[k] == p[k]);
        assert forall|m: int| #![trigger lints[m]] 0 <= m < k && lints[m].suggestions.len() > 0
            implies !(lints[m].start == lints[k].start && lints[m].end == lints[k].end) by {
            assert(lints[m] == p[m]);
        }
        k
    } else {
        let k = lints.len() - 1;
        assert forall|m: int| #![trigger lints[m]] 0 <= m < k && lints[m].suggestions.len() > 0
            implies !(lints[m].start == lints[k].start && lints[m].end == lints[k].end) by {
            assert(lints[m] == p[m]);
            if lints[m].start == l.start && lints[m].end == l.end {
                assert(p[m].suggestions.len() > 0);
                assert(has_span(prev, p[m].start, p[m].end));
            }
        }
        k
    }
}

proof fn lemma_spans_distinct_and_covered(lints: Seq<LintModel>)
    ensures
        forall|i: int, j: int|
            0 <= i < j < pass_edits(lints).len() ==> !(pass_edits(lints)[i].start == pass_edits(lints)[j].start
                && pass_edits(lints)[i].end == pass_edits(lints)[j].end),
        forall|k: int|
            0 <= k < lints.len() && #[trigger] lints[k].suggestions.len() > 0 ==> has_span(
                pass_edits(lints),
                lints[k].start,
                lints[k].end,
            ),
    decreases lints.len(),
{
    if lints.len() > 0 {
        let p = lints.drop_last();
        lemma_spans_distinct_and_covered(p);
        let prev = pass_edits(p);
        let l = lints.last();
        let cur = pass_edits(lints);
        assert forall|k: int| 0 <= k < lints.len() && #[trigger] lints[k].suggestions.len() > 0 implies has_span(
            cur,
            lints[k].start,
            lints[k].end,
        ) by {
            if k < lints.len() - 1 {
                assert(lints[k] == p[k]);
                let w = choose|w: int| 0 <= w < prev.len() && prev[w].start == p[k].start && prev[w].end == p[k].end;
                assert(cur[w] == prev[w]);
            } else if !has_span(prev, l.start, l.end) {
                assert(cur[prev.len() as int].start == l.start);
            } else {
                let w = choose|w: int| 0 <= w < prev.len() && prev[w].start == l.start && prev[w].end == l.end;
                assert(cur[w] == prev[w]);
            }
        }
        assert forall|i: int, j: int| 0 <= i < j < cur.len() implies !(cur[i].start == cur[j].start
            && cur[i].end == cur[j].end) by {
            if j < prev.len() {
                assert(cur[i] == prev[i] && cur[j] == prev[j]);
            } else {
                assert(cur[i] == prev[i]);
            }
        }
    } else {
        assert(pass_edits(lints) =~= Seq::<EditModel>::empty());
    }
}


/// One suggestion per exact span: the edits of a pass cover pairwise distinct
/// spans; every lint that has a suggestion has its span covered; and each edit is
/// the first suggestion of the first lint with a suggestion for that span.
pub proof fn law_one_edit_per_span(lints: Seq<LintModel>)
    ensures
        forall|i: int, j: int|
            0 <= i < j < pass_edits(lints).len() ==> !(pass_edits(lints)[i].start == pass_edits(lints)[j].start
                && pass_edits(lints)[i].end == pass_edits(lints)[j].end),
        forall|k: int|
            0 <= k < lints.len() && #[trigger] lints[k].suggestions.len() > 0 ==> has_span(
                pass_edits(lints),
                lints[k].start,
                lints[k].end,
            ),
        forall|i: int|
            #![trigger pass_edits(lints)[i]]
            0 <= i < pass_edits(lints).len() ==> edit_of_lint(
                lints,
                lint_origin(lints, pass_edits(lints)[i]),
                pass_edits(lints)[i],
            ),
{
    lemma_spans_distinct_and_covered(lints);
    assert forall|i: int| #![trigger pass_edits(lints)[i]] 0 <= i < pass_edits(lints).len() implies edit_of_lint(
        lints,
        lint_origin(lints, pass_edits(lints)[i]),
        pass_edits(lints)[i],
    ) by {
        let k = lemma_edit_origin(lints, i);
    }
}


/// The bookkeeping that every state of a correction run keeps.
pub open spec fn session_consistent(s: SessionModel) -> bool {
    &&& s.pass_index <= MAX_PASSES
    &&& s.passes <= s.pass_index
    &&& (s.corrections == 0) == (s.passes == 0)
    &&& s.pass_index >= MAX_PASSES ==> s.finished
}

proof fn lemma_run_consistent(s: SessionModel, checker: spec_fn(Seq<char>) -> Seq<LintModel>)
    requires
        session_consistent(s),
    ensures
        session_consistent(session_run(s, checker)),
        session_run(s, checker).finished,
        session_run(s, checker).original == s.original,
    decreases MAX_PASSES - s.pass_index, if s.finished { 0int } else { 1int },
{
    if !(s.finished || s.pass_index >= MAX_PASSES) {
        lemma_run_consistent(session_step(s, checker(s.content)), checker);
    }
}

/// A correction run always ends: whatever the grammar checker reports, the run
/// stops after at most [`MAX_PASSES`] passes, keeps the given text as its
/// original, and counts a pass exactly when edits were made
/// (no edits if and only if no counted passes).
pub proof fn law_run_ends_within_max_passes(text: Seq<char>, checker: spec_fn(Seq<char>) -> Seq<LintModel>)
    ensures
        session_run(session_start(text), checker).finished,
        session_run(session_start(text), checker).passes <= MAX_PASSES,
        session_run(session_start(text), checker).original == text,
        (session_run(session_start(text), checker).corrections == 0) == (session_run(
            session_start(text),
            checker,
        ).passes == 0),
{
    lemma_run_consistent(session_start(text), checker);
}

/// A text on which the checker suggests nothing is left as it is, with no
/// edits and no passes counted.
pub proof fn law_clean_text_unchanged(text: Seq<char>, checker: spec_fn(Seq<char>) -> Seq<LintModel>)
    requires
        pass_edits(checker(text)).len() == 0,
    ensures
        session_run(session_start(text), checker).content == text,
        session_run(session_start(text), checker).corrections == 0,
        session_run(session_start(text), checker).passes == 0,
{
    let s0 = session_start(text);
    let s1 = session_step(s0, checker(text));
    assert(s1.finished);
    assert(session_run(s1, checker) == s1);
    assert(session_run(s0, checker) == session_run(s1, checker));
}

/// Feeding one pass the checker's lints for the current text does not change
/// where the run ends: the run's outcome is a function of the text and the checker.
pub proof fn law_pass_keeps_outcome(s: SessionModel, checker: spec_fn(Seq<char>) -> Seq<LintModel>)
    requires
        !s.finished,
        s.pass_index < MAX_PASSES,
    ensures
        session_run(session_step(s, checker(s.content)), checker) == session_run(s, checker),
{
}

/// Whether `text` is a fixpoint of correcting with `checker`: the checker
/// suggests nothing for it, or applying its suggestions gives it back.
pub open spec fn is_fixpoint(text: Seq<char>, checker: spec_fn(Seq<char>) -> Seq<LintModel>) -> bool {
    pass_edits(checker(text)).len() == 0 || apply_edits(text, ordered_pass_edits(checker(text))) == text
}

proof fn lemma_early_stop_at_fixpoint(s: SessionModel, checker: spec_fn(Seq<char>) -> Seq<LintModel>)
    requires
        !s.finished,
        s.passes == s.pass_index,
        session_run(s, checker).passes < MAX_PASSES,
    ensures
        is_fixpoint(session_run(s, checker).content, checker),
    decreases MAX_PASSES - s.pass_index,
{
    if s.pass_index < MAX_PASSES {
        let s1 = session_step(s, checker(s.content));
        if !s1.finished {
            lemma_early_stop_at_fixpoint(s1, checker);
        }
    }
}

/// A run that stopped before its last allowed pass stopped at a fixpoint: a
/// second run on the corrected text gives the same text back.
pub proof fn law_early_stop_is_fixpoint(text: Seq<char>, checker: spec_fn(Seq<char>) -> Seq<LintModel>)
    ensures
        session_run(session_start(text), checker).passes < MAX_PASSES ==> session_run(
            session_start(session_run(session_start(text), checker).content),
            checker,
        ).content == session_run(session_start(text), checker).content,
{
    let r = session_run(session_start(text), checker);
    if r.passes < MAX_PASSES {
        lemma_early_stop_at_fixpoint(session_start(text), checker);
        let c = r.content;
        let s0 = session_start(c);
        let s1 = session_step(s0, checker(c));
        assert(s1.finished && s1.content == c);
        assert(session_run(s1, checker) == s1);
    }
}

} // verus!
