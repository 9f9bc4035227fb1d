use vstd::prelude::*;
use vstd::string::StrSliceExecFns;

verus! {

/// What a line of a line diff is: kept, removed from the old text, or added in
/// the new text.
#[derive(Clone, Copy, PartialEq, Eq, Debug, Structural)]
pub enum ChangeKind {
    Equal,
    Delete,
    Insert,
}

/// The line changes that the `similar` crate's line diff (`TextDiff::from_lines`)
/// reports between `old` and `new`, in order: each change's kind and its line,
/// line terminator included when the line has one.
pub uninterp spec fn line_changes(old: Seq<char>, new: Seq<char>) -> Seq<(ChangeKind, Seq<char>)>;

/// The models of a sequence of changes.
pub open spec fn change_models(cs: Seq<(ChangeKind, String)>) -> Seq<(ChangeKind, Seq<char>)> {
    cs.map_values(|c: (ChangeKind, String)| (c.0, c.1@))
}

/// Runs `similar::TextDiff::from_lines(old, new)` and lists its changes
/// (`iter_all_changes`), each with its tag and value. The contract claims that
/// the list is the crate's line diff of the two texts, which the default
/// configuration computes without a deadline, so from the texts alone.
#[verifier::external_body]
fn similar_line_diff(old: &str, new: &str) -> (r: Vec<(ChangeKind, String)>)
    ensures
        change_models(r@) == line_changes(old@, new@),
{
    let diff = similar::TextDiff::from_lines(old, new);
    let mut out = Vec::new();
    for change in diff.iter_all_changes() {
        let kind = match change.tag() {
            similar::ChangeTag::Equal => ChangeKind::Equal,
            similar::ChangeTag::Delete => ChangeKind::Delete,
            similar::ChangeTag::Insert => ChangeKind::Insert,
        };
        out.push((kind, change.value().to_string()));
    }
    out
}

/// The sign printed in front of a diff line: `-` for a removed line, `+` for an
/// added one, a space for a kept one.
pub open spec fn change_sign(k: ChangeKind) -> char {
    match k {
        ChangeKind::Delete => '-',
        ChangeKind::Insert => '+',
        ChangeKind::Equal => ' ',
    }
}

/// A diff line as printed: a line that does not end in `\r` or `\n` gets a `\n`.
pub open spec fn displayed_line(v: Seq<char>) -> Seq<char> {
    if v.len() > 0 && (v.last() == '\n' || v.last() == '\r') {
        v
    } else {
        v.push('\n')
    }
}

/// One printed line of a diff: its sign and its text.
pub struct DiffLine {
    pub sign: char,
    pub text: String,
}

/// The printed lines of a list of line changes, in order: each change's sign
/// and its text as printed.
pub fn display_changes(changes: &[(ChangeKind, String)]) -> (r: Vec<DiffLine>)
    ensures
        r@.len() == changes@.len(),
        forall|i: int|
            #![trigger r@[i]]
            0 <= i < r@.len() ==> r@[i].sign == change_sign(changes@[i].0) && r@[i].text@ == displayed_line(
                changes@[i].1@,
            ),
{
    let mut out: Vec<DiffLine> = Vec::new();
    let mut i: usize = 0;
    while i < changes.len()
        invariant
            i <= changes@.len(),
            out@.len() == i,
            forall|k: int|
                #![trigger out@[k]]
                0 <= k < i ==> out@[k].sign == change_sign(changes@[k].0) && out@[k].text@ == displayed_line(
                    changes@[k].1@,
                ),
        decreases changes@.len() - i,
    {
        let kind = changes[i].0;
        let sign = match kind {
            ChangeKind::Delete => '-',
            ChangeKind::Insert => '+',
            ChangeKind::Equal => ' ',
        };
        let value = changes[i].1.as_str();
        let mut text = value.to_owned();
        let n = value.unicode_len();
        let ends_with_newline = n > 0 && {
            let last = value.get_char(n - 1);
            last == '\n' || last == '\r'
        };
        if !ends_with_newline {
            crate::text::push_char(&mut text, '\n');
        }
        out.push(DiffLine { sign, text });
        i = i + 1;
    }
    out
}

/// The lines of the diff between the original and the corrected text, in order,
/// each with its sign and its text as printed.
pub fn diff_lines(original: &str, corrected: &str) -> (r: Vec<DiffLine>)
    ensures
        r@.len() == line_changes(original@, corrected@).len(),
        forall|i: int|
            #![trigger r@[i]]
            0 <= i < r@.len() ==> r@[i].sign == change_sign(line_changes(original@, corrected@)[i].0)
                && r@[i].text@ == displayed_line(line_changes(original@, corrected@)[i].1),
{
    let changes = similar_line_diff(original, corrected);
    let out = display_changes(changes.as_slice());
    assert forall|i: int| 0 <= i < out@.len() implies out@[i].sign == change_sign(
        line_changes(original@, corrected@)[i].0,
    ) && out@[i].text@ == displayed_line(line_changes(original@, corrected@)[i].1) by {
        assert(change_models(changes@)[i] == (changes@[i].0, changes@[i].1@));
    }
    out
}

} // verus!
