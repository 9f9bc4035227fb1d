use vstd::prelude::*;

verus! {

/// A suggested change for a flagged span of text, measured in characters.
#[derive(Debug, Clone)]
pub enum Suggestion {
    /// Replace the characters of the span with these characters.
    ReplaceWith(Vec<char>),
    /// Insert these characters right after the span.
    InsertAfter(Vec<char>),
    /// Remove the characters of the span.
    Remove,
}

/// The mathematical value of a [`Suggestion`].
pub enum SuggestionModel {
    ReplaceWith(Seq<char>),
    InsertAfter(Seq<char>),
    Remove,
}

impl View for Suggestion {
    type V = SuggestionModel;

    open spec fn view(&self) -> SuggestionModel {
        match self {
            Suggestion::ReplaceWith(cs) => SuggestionModel::ReplaceWith(cs@),
            Suggestion::InsertAfter(cs) => SuggestionModel::InsertAfter(cs@),
            Suggestion::Remove => SuggestionModel::Remove,
        }
    }
}

/// The category a grammar checker gives to a finding.
#[derive(Clone, Copy, PartialEq, Eq, Debug, Structural)]
pub enum LintKind {
    Agreement,
    BoundaryError,
    Capitalization,
    Eggcorn,
    Enhancement,
    Formatting,
    Grammar,
    Malapropism,
    Miscellaneous,
    Nonstandard,
    Punctuation,
    Readability,
    Redundancy,
    Regionalism,
    Repetition,
    Spelling,
    Style,
    Typo,
    Usage,
    WordChoice,
    /// A category that none of the names above covers.
    Other,
}

/// One finding of the grammar checker: a span of characters `[span_start, span_end)`
/// of the checked text, its category, a message, and the suggested fixes in order
/// of preference.
#[derive(Debug, Clone)]
pub struct Lint {
    pub span_start: usize,
    pub span_end: usize,
    pub lint_kind: LintKind,
    pub message: String,
    pub suggestions: Vec<Suggestion>,
}

/// The mathematical value of a [`Lint`].
pub struct LintModel {
    pub start: int,
    pub end: int,
    pub kind: LintKind,
    pub message: Seq<char>,
    pub suggestions: Seq<SuggestionModel>,
}

impl View for Lint {
    type V = LintModel;

    open spec fn view(&self) -> LintModel {
        LintModel {
            start: self.span_start as int,
            end: self.span_end as int,
            kind: self.lint_kind,
            message: self.message@,
            suggestions: self.suggestions@.map_values(|s: Suggestion| s@),
        }
    }
}

/// The models of a sequence of lints.
pub open spec fn lint_models(lints: Seq<Lint>) -> Seq<LintModel> {
    lints.map_values(|l: Lint| l@)
}

/// The text that results from applying suggestion `s` to the span `[start, end)` of `text`.
pub open spec fn spliced(text: Seq<char>, s: SuggestionModel, start: int, end: int) -> Seq<char> {
    match s {
        SuggestionModel::ReplaceWith(r) => text.take(start) + r + text.skip(end),
        SuggestionModel::InsertAfter(r) => text.take(end) + r + text.skip(end),
        SuggestionModel::Remove => text.take(start) + text.skip(end),
    }
}

/// A copy of a character vector.
pub fn copy_chars(cs: &Vec<char>) -> (r: Vec<char>)
    ensures
        r@ == cs@,
{
    let mut r: Vec<char> = Vec::new();
    let mut i: usize = 0;
    while i < cs.len()
        invariant
            i <= cs@.len(),
            r@ == cs@.take(i as int),
        decreases cs@.len() - i,
    {
        r.push(cs[i]);
        assert(cs@.take(i as int).push(cs@[i as int]) =~= cs@.take(i + 1));
        i = i + 1;
    }
    assert(cs@.take(cs@.len() as int) =~= cs@);
    r
}

impl Suggestion {
    /// A copy of this suggestion.
    pub fn duplicate(&self) -> (r: Suggestion)
        ensures
            r@ == self@,
    {
        match self {
            Suggestion::ReplaceWith(cs) => Suggestion::ReplaceWith(copy_chars(cs)),
            Suggestion::InsertAfter(cs) => Suggestion::InsertAfter(copy_chars(cs)),
            Suggestion::Remove => Suggestion::Remove,
        }
    }

    /// Applies this suggestion to the span `[start, end)` of `chars`.
    pub fn apply(&self, start: usize, end: usize, chars: &mut Vec<char>)
        requires
            start <= end <= old(chars)@.len(),
        ensures
            final(chars)@ == spliced(old(chars)@, self@, start as int, end as int),
    {
        let ghost before = chars@;
        let (keep_until, resume_at) = match self {
            Suggestion::InsertAfter(_) => (end, end),
            _ => (start, end),
        };
        let mut out: Vec<char> = Vec::new();
        let mut i: usize = 0;
        while i < keep_until
            invariant
                keep_until <= end <= before.len(),
                chars@ == before,
                i <= keep_until,
                out@ == before.take(i as int),
            decreases keep_until - i,
        {
            out.push(chars[i]);
            assert(before.take(i as int).push(before[i as int]) =~= before.take(i + 1));
            i = i + 1;
        }
        let ghost head = out@;
        match self {
            Suggestion::ReplaceWith(r) | Suggestion::InsertAfter(r) => {
                let mut j: usize = 0;
                while j < r.len()
                    invariant
                        j <= r@.len(),
                        out@ == head + r@.take(j as int),
                    decreases r@.len() - j,
                {
                    out.push(r[j]);
                    assert(r@.take(j as int).push(r@[j as int]) =~= r@.take(j + 1));
                    assert((head + r@.take(j as int)).push(r@[j as int]) =~= head + r@.take(j + 1));
                    j = j + 1;
                }
                assert(r@.take(r@.len() as int) =~= r@);
            },
            Suggestion::Remove => {},
        }
        let ghost mid = out@;
        let mut k: usize = resume_at;
        while k < chars.len()
            invariant
                resume_at <= k <= before.len(),
                chars@ == before,
                out@ == mid + before.subrange(resume_at as int, k as int),
            decreases before.len() - k,
        {
            out.push(chars[k]);
            assert((mid + before.subrange(resume_at as int, k as int)).push(before[k as int])
                =~= mid + before.subrange(resume_at as int, k + 1));
            k = k + 1;
        }
        assert(before.subrange(resume_at as int, before.len() as int) =~= before.skip(resume_at as int));
        *chars = out;
    }
}

} // verus!
