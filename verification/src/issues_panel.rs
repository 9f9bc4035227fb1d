use vstd::prelude::*;
use vstd::string::StringExecFns;

use crate::cli::{decimal_digits, push_digits};
use crate::lint::Lint;

verus! {

broadcast use vstd::string::group_string_axioms;

/// The most lints that the issues panel lists.
pub const MAX_LISTED_ISSUES: usize = 10;

/// The status line of the issues panel: `No issues found ✓` without lints,
/// else the number of issues.
pub open spec fn issue_status(count: nat) -> Seq<char> {
    if count == 0 {
        "No issues found \u{2713}"@
    } else {
        decimal_digits(count) + " issue(s)"@
    }
}

/// The status line of the issues panel (see [`issue_status`]).
pub fn issue_status_text(count: usize) -> (r: String)
    ensures
        r@ == issue_status(count as nat),
{
    if count == 0 {
        String::from_str("No issues found \u{2713}")
    } else {
        let mut out = String::new();
        push_digits(&mut out, count as u64);
        out.append(" issue(s)");
        assert(out@ =~= decimal_digits(count as nat) + " issue(s)"@);
        out
    }
}

/// One row of the issues panel: the position of its lint in the list, and
/// whether its Apply button is enabled (the lint has a suggestion).
#[derive(Clone, Copy, PartialEq, Eq, Debug, Structural)]
pub struct IssueRow {
    pub index: usize,
    pub can_apply: bool,
}

/// The number of rows the issues panel shows for `count` lints.
pub open spec fn listed_issue_count(count: nat) -> nat {
    if count < MAX_LISTED_ISSUES {
        count
    } else {
        MAX_LISTED_ISSUES as nat
    }
}

/// The rows of the issues panel: the first lints, at most
/// [`MAX_LISTED_ISSUES`], in order, each with its Apply button enabled exactly
/// when the lint has a suggestion.
pub fn issue_rows(lints: &Vec<Lint>) -> (r: Vec<IssueRow>)
    ensures
        r@.len() == listed_issue_count(lints@.len()),
        forall|i: int|
            0 <= i < r@.len() ==> (#[trigger] r@[i]).index == i && r@[i].can_apply == (lints@[i].suggestions@.len()
                > 0),
{
    let n = if lints.len() < MAX_LISTED_ISSUES {
        lints.len()
    } else {
        MAX_LISTED_ISSUES
    };
    let mut r: Vec<IssueRow> = Vec::new();
    let mut i: usize = 0;
    while i < n
        invariant
            n == listed_issue_count(lints@.len()),
            n <= lints@.len(),
            i <= n,
            r@.len() == i,
            forall|k: int|
                0 <= k < i ==> (#[trigger] r@[k]).index == k && r@[k].can_apply == (lints@[k].suggestions@.len()
                    > 0),
        decreases n - i,
    {
        r.push(IssueRow { index: i, can_apply: lints[i].suggestions.len() > 0 });
        i = i + 1;
    }
    r
}

/// The cursor line of the editor's footer: `Ln <line>, Col <column>`.
pub open spec fn cursor_status(line: nat, column: nat) -> Seq<char> {
    "Ln "@ + decimal_digits(line) + ", Col "@ + decimal_digits(column)
}

/// The cursor line of the editor's footer (see [`cursor_status`]).
pub fn cursor_status_text(line: usize, column: usize) -> (r: String)
    ensures
        r@ == cursor_status(line as nat, column as nat),
{
    let mut out = String::from_str("Ln ");
    push_digits(&mut out, line as u64);
    out.append(", Col ");
    push_digits(&mut out, column as u64);
    assert(out@ =~= cursor_status(line as nat, column as nat));
    out
}

} // verus!
