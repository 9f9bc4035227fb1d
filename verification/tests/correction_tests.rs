use aella::correction::{collect_edits, order_edits, CorrectionSession, MAX_PASSES};
use aella::lint::{Lint, LintKind, Suggestion};

fn replace(start: usize, end: usize, with: &str) -> Lint {
    Lint {
        span_start: start,
        span_end: end,
        lint_kind: LintKind::Grammar,
        message: String::from("fix"),
        suggestions: vec![Suggestion::ReplaceWith(with.chars().collect())],
    }
}

fn no_suggestion(start: usize, end: usize) -> Lint {
    Lint {
        span_start: start,
        span_end: end,
        lint_kind: LintKind::Spelling,
        message: String::from("note"),
        suggestions: Vec::new(),
    }
}

/// Runs a correction with a checker given as a function of the current text.
fn run(text: &str, checker: impl Fn(&str) -> Vec<Lint>) -> aella::CorrectionResult {
    let mut session = CorrectionSession::new(text);
    while !session.is_finished() {
        let current = session.text_to_check();
        let lints = checker(&current);
        assert!(session.pass_allowed(&lints));
        session.feed(&lints);
    }
    session.result()
}

#[test]
fn readme_example_is_corrected() {
    // "I has a pen. She dont like it." -> "I have a pen. She doesn't like it."
    let checker = |t: &str| -> Vec<Lint> {
        let mut out = Vec::new();
        if t.contains("has a pen") {
            out.push(replace(2, 5, "have"));
        }
        if let Some(p) = t.find("dont") {
            let start = t[..p].chars().count();
            out.push(replace(start, start + 4, "doesn't"));
        }
        out
    };
    let r = run("I has a pen. She dont like it.", checker);
    assert_eq!(r.original_text, "I has a pen. She dont like it.");
    assert_eq!(r.corrected_text, "I have a pen. She doesn't like it.");
    assert_eq!(r.corrections_count, 2);
    assert_eq!(r.passes_count, 1);
}

#[test]
fn clean_text_is_left_alone() {
    let r = run("All good.", |_| vec![no_suggestion(0, 3)]);
    assert_eq!(r.corrected_text, "All good.");
    assert_eq!(r.corrections_count, 0);
    assert_eq!(r.passes_count, 0);
}

#[test]
fn one_suggestion_per_exact_span() {
    let lints = vec![replace(0, 3, "one"), replace(0, 3, "two"), replace(0, 4, "three"), no_suggestion(5, 6)];
    let edits = collect_edits(&lints);
    assert_eq!(edits.len(), 2);
    assert_eq!((edits[0].start, edits[0].end), (0, 3));
    match &edits[0].suggestion {
        Suggestion::ReplaceWith(cs) => assert_eq!(cs.iter().collect::<String>(), "one"),
        _ => panic!("unexpected suggestion"),
    }
    assert_eq!((edits[1].start, edits[1].end), (0, 4));
}

#[test]
fn edits_are_applied_from_the_end() {
    let lints = vec![replace(0, 1, "A"), replace(4, 5, "E"), replace(2, 3, "C"), replace(4, 4, "!")];
    let edits = collect_edits(&lints);
    let ordered = order_edits(&edits);
    let starts: Vec<(usize, usize)> = ordered.iter().map(|e| (e.start, e.end)).collect();
    assert_eq!(starts, vec![(4, 5), (4, 4), (2, 3), (0, 1)]);
    let r = run("abcde", |t| if t == "abcde" { lints_copy() } else { Vec::new() });
    assert_eq!(r.corrected_text, "AbCd!E");
    assert_eq!(r.corrections_count, 4);
    assert_eq!(r.passes_count, 1);
}

fn lints_copy() -> Vec<Lint> {
    vec![replace(0, 1, "A"), replace(4, 5, "E"), replace(2, 3, "C"), replace(4, 4, "!")]
}

#[test]
fn insert_and_remove_suggestions() {
    let insert = Lint {
        span_start: 0,
        span_end: 5,
        lint_kind: LintKind::Punctuation,
        message: String::new(),
        suggestions: vec![Suggestion::InsertAfter(vec![','])],
    };
    let remove = Lint {
        span_start: 5,
        span_end: 11,
        lint_kind: LintKind::Repetition,
        message: String::new(),
        suggestions: vec![Suggestion::Remove],
    };
    let r = run("Hello there world", |t| if t == "Hello there world" { vec![insert_copy(&insert), remove_copy(&remove)] } else { Vec::new() });
    assert_eq!(r.corrected_text, "Hello, world");
    assert_eq!(r.corrections_count, 2);
}

fn insert_copy(l: &Lint) -> Lint {
    Lint { span_start: l.span_start, span_end: l.span_end, lint_kind: l.lint_kind, message: l.message.clone(), suggestions: vec![Suggestion::InsertAfter(vec![','])] }
}

fn remove_copy(l: &Lint) -> Lint {
    Lint { span_start: l.span_start, span_end: l.span_end, lint_kind: l.lint_kind, message: l.message.clone(), suggestions: vec![Suggestion::Remove] }
}

#[test]
fn stops_after_max_passes() {
    // A checker that always wants one more exclamation mark.
    let r = run("Wow", |t| {
        let n = t.chars().count();
        vec![Lint {
            span_start: n,
            span_end: n,
            lint_kind: LintKind::Style,
            message: String::new(),
            suggestions: vec![Suggestion::InsertAfter(vec!['!'])],
        }]
    });
    assert_eq!(MAX_PASSES, 8);
    assert_eq!(r.passes_count, 8);
    assert_eq!(r.corrections_count, 8);
    assert_eq!(r.corrected_text, "Wow!!!!!!!!");
}

#[test]
fn unchanged_text_ends_the_run() {
    let mut calls = 0;
    let mut session = CorrectionSession::new("same");
    while !session.is_finished() {
        calls += 1;
        let lints = vec![replace(0, 4, "same")];
        session.feed(&lints);
    }
    let r = session.result();
    assert_eq!(calls, 1);
    assert_eq!(r.corrected_text, "same");
    assert_eq!(r.corrections_count, 1);
    assert_eq!(r.passes_count, 1);
}

#[test]
fn out_of_range_pass_is_refused() {
    let session = CorrectionSession::new("abc");
    assert!(!session.pass_allowed(&[replace(2, 9, "x")]));
    assert!(session.pass_allowed(&[replace(2, 3, "x")]));
}

#[test]
fn text_with_multibyte_characters() {
    let r = run("naïve cafe", |t| if t == "naïve cafe" { vec![replace(6, 10, "café")] } else { Vec::new() });
    assert_eq!(r.corrected_text, "naïve café");
}

#[test]
fn early_stop_is_a_fixpoint() {
    // "teh" becomes "the"; a lint whose suggestion changes nothing stays on "the".
    let checker = |t: &str| -> Vec<Lint> {
        match t.find("teh") {
            Some(i) => vec![replace(i, i + 3, "the")],
            None if t.starts_with("the") => vec![replace(0, 3, "the")],
            None => Vec::new(),
        }
    };
    let first = run("teh cat", checker);
    assert_eq!(first.corrected_text, "the cat");
    assert!(first.passes_count < MAX_PASSES);
    let second = run(&first.corrected_text, checker);
    assert_eq!(second.corrected_text, first.corrected_text);
}
