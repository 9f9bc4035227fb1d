use aella::highlight::{build_lint_highlight_settings, lint_level_from_kind, HighlightSpan, LintHighlight, LintHighlighter};
use aella::lint::{Lint, LintKind};
use aella::issues_panel::{cursor_status_text, issue_rows, issue_status_text};
use aella::desktop::DesktopState;
use aella::sidebar::shown_conversations;
use aella::Suggestion;
use aella::sidebar::{filter_conversations, matches_search};
use aella::desktop::Conversation;
use aella::{compact_title_badge, preview, strip_trailing_shortcut_char};

#[test]
fn previews() {
    assert_eq!(preview(""), "Start writing...");
    assert_eq!(preview("short"), "short");
    let long: String = std::iter::repeat('x').take(60).collect();
    let expected: String = std::iter::repeat('x').take(50).collect::<String>() + "...";
    assert_eq!(preview(&long), expected);
    let fifty: String = std::iter::repeat('é').take(50).collect();
    assert_eq!(preview(&fifty), fifty);
}

#[test]
fn badges() {
    assert_eq!(compact_title_badge("   "), "--");
    assert_eq!(compact_title_badge(""), "--");
    assert_eq!(compact_title_badge("  hello world "), "HE");
    assert_eq!(compact_title_badge("x"), "X");
    assert_eq!(compact_title_badge("\u{3000}ñandu"), "ñA");
    for t in ["my notes", " Ab", "1st", "\tz"] {
        let oracle = t.trim().chars().take(2).collect::<String>().to_ascii_uppercase();
        assert_eq!(compact_title_badge(t), oracle);
    }
}

#[test]
fn shortcut_artifacts() {
    let mut s = String::from("searchK");
    assert!(strip_trailing_shortcut_char(&mut s, 'k'));
    assert_eq!(s, "search");
    let mut s = String::from("draft1");
    assert!(strip_trailing_shortcut_char(&mut s, '1'));
    assert_eq!(s, "draft");
    let mut s = String::from("draft");
    assert!(!strip_trailing_shortcut_char(&mut s, 'k'));
    assert_eq!(s, "draft");
    let mut s = String::new();
    assert!(!strip_trailing_shortcut_char(&mut s, 'f'));
}

fn lint(start: usize, end: usize, kind: LintKind) -> Lint {
    Lint { span_start: start, span_end: end, lint_kind: kind, message: String::new(), suggestions: Vec::new() }
}

#[test]
fn highlight_levels() {
    assert_eq!(lint_level_from_kind(LintKind::Style), LintHighlight::Suggestion);
    assert_eq!(lint_level_from_kind(LintKind::WordChoice), LintHighlight::Warning);
    assert_eq!(lint_level_from_kind(LintKind::Spelling), LintHighlight::Error);
    assert_eq!(lint_level_from_kind(LintKind::Other), LintHighlight::Error);
}

#[test]
fn highlights_per_line() {
    let text = "Hello world\nsecond line";
    let lints = vec![lint(6, 11, LintKind::Spelling), lint(9, 14, LintKind::Style), lint(3, 3, LintKind::Usage)];
    let s = build_lint_highlight_settings(text, &lints);
    assert_eq!(s.lines.len(), 2);
    assert_eq!(
        s.lines[0],
        vec![
            HighlightSpan { start: 6, end: 11, level: LintHighlight::Error },
            HighlightSpan { start: 9, end: 11, level: LintHighlight::Suggestion },
        ]
    );
    assert_eq!(s.lines[1], vec![HighlightSpan { start: 0, end: 2, level: LintHighlight::Suggestion }]);
}

#[test]
fn highlights_use_char_offsets_when_not_a_boundary() {
    // "é" is two bytes; character offset 3 is byte 4 ("é" then "ab").
    let text = "xéab";
    let s = build_lint_highlight_settings(text, &[lint(2, 4, LintKind::Usage)]);
    // 2 is not a boundary (inside 'é'), so it maps to character 2 = byte 3; 4 is a boundary.
    assert_eq!(s.lines[0], vec![HighlightSpan { start: 3, end: 4, level: LintHighlight::Warning }]);
    let s = build_lint_highlight_settings("", &[lint(0, 1, LintKind::Usage)]);
    assert_eq!(s.lines.len(), 1);
    assert!(s.lines[0].is_empty());
}

#[test]
fn highlighter_walks_lines() {
    let s = build_lint_highlight_settings("a b\nc", &[lint(0, 1, LintKind::Grammar)]);
    let mut h = LintHighlighter::new(&s);
    assert_eq!(h.current_line(), 0);
    assert_eq!(h.highlight_line(), vec![HighlightSpan { start: 0, end: 1, level: LintHighlight::Error }]);
    assert_eq!(h.highlight_line(), Vec::new());
    assert_eq!(h.highlight_line(), Vec::new());
    assert_eq!(h.current_line(), 3);
    h.change_line(0);
    assert_eq!(h.highlight_line().len(), 1);
    h.update(&build_lint_highlight_settings("z", &[]));
    assert_eq!(h.current_line(), 0);
    assert_eq!(h.highlight_line(), Vec::new());
}

fn conv(id: i64, title: &str, preview: &str) -> Conversation {
    Conversation { id, title: String::from(title), preview: String::from(preview) }
}

#[test]
fn sidebar_search() {
    let list = vec![conv(1, "Grocery List", "milk"), conv(2, "Essay", "The ÉTÉ was hot"), conv(3, "notes", "")];
    assert_eq!(filter_conversations(&list, ""), vec![0, 1, 2]);
    assert_eq!(filter_conversations(&list, "   "), vec![0, 1, 2]);
    assert_eq!(filter_conversations(&list, "  LIST "), vec![0]);
    assert_eq!(filter_conversations(&list, "été"), vec![1]);
    assert_eq!(filter_conversations(&list, "e"), vec![0, 1, 2]);
    assert_eq!(filter_conversations(&list, "zzz"), Vec::<usize>::new());
}

#[test]
fn issue_status() {
    assert_eq!(issue_status_text(0), "No issues found \u{2713}");
    assert_eq!(issue_status_text(3), "3 issue(s)");
}

#[test]
fn issue_rows_cap_and_apply_buttons() {
    let mut lints = Vec::new();
    for i in 0..12usize {
        let suggestions = if i % 2 == 0 { vec![Suggestion::Remove] } else { Vec::new() };
        lints.push(Lint {
            span_start: i,
            span_end: i + 1,
            lint_kind: LintKind::Spelling,
            message: format!("issue {i}"),
            suggestions,
        });
    }
    let rows = issue_rows(&lints);
    assert_eq!(rows.len(), 10);
    for (i, row) in rows.iter().enumerate() {
        assert_eq!(row.index, i);
        assert_eq!(row.can_apply, i % 2 == 0);
    }
    assert_eq!(issue_rows(&lints[..3].iter().map(|l| Lint {
        span_start: l.span_start,
        span_end: l.span_end,
        lint_kind: l.lint_kind,
        message: l.message.clone(),
        suggestions: Vec::new(),
    }).collect()).len(), 3);
}

#[test]
fn cursor_status_line() {
    assert_eq!(cursor_status_text(1, 1), "Ln 1, Col 1");
    assert_eq!(cursor_status_text(12, 305), "Ln 12, Col 305");
}

#[test]
fn sidebar_shows_the_open_list() {
    let conv = |id: i64, title: &str| Conversation {
        id,
        title: String::from(title),
        preview: String::from("Start writing..."),
    };
    let mut s = DesktopState::new();
    s.conversations = vec![conv(1, "Draft"), conv(2, "Letter")];
    s.trashed_conversations = vec![conv(3, "Old letter")];
    s.search_query = String::from("letter");
    assert_eq!(shown_conversations(&s), vec![1]);
    s.selected_in_trash = true;
    assert_eq!(shown_conversations(&s), vec![0]);
    s.search_query = String::new();
    assert_eq!(shown_conversations(&s), vec![0]);
}

#[test]
fn search_matches_title_or_preview() {
    let chars = |s: &str| s.chars().collect::<Vec<char>>();
    assert!(matches_search(&chars("grocery list"), &chars("milk"), &chars("")));
    assert!(matches_search(&chars("grocery list"), &chars("milk"), &chars("list")));
    assert!(matches_search(&chars("essay"), &chars("the été was hot"), &chars("été")));
    assert!(!matches_search(&chars("essay"), &chars("milk"), &chars("Essay")));
    assert!(!matches_search(&chars("ab"), &chars(""), &chars("abc")));
}

#[test]
fn highlighter_restarts_after_update() {
    let first = build_lint_highlight_settings("ab\ncd\nef", &[lint(0, 1, LintKind::Grammar)]);
    let second = build_lint_highlight_settings("ab\ncd", &[lint(4, 5, LintKind::Style)]);
    let mut h = LintHighlighter::new(&first);
    h.highlight_line();
    h.highlight_line();
    h.update(&second);
    assert_eq!(h.current_line(), 0);
    assert_eq!(h.highlight_line(), second.lines[0]);
    assert_eq!(h.highlight_line(), vec![HighlightSpan { start: 1, end: 2, level: LintHighlight::Suggestion }]);
    assert_eq!(h.current_line(), 2);
    assert_eq!(h.highlight_line(), Vec::new());
}
