use aella::cli::{
    batch_output_path, can_truncate, cli_run_metrics, decimal_string, history_header, history_row, history_rule,
    input_source_label, output_mode, stored_texts, truncate, OutputMode,
};
use aella::diff::{diff_lines, display_changes, ChangeKind};
use aella::records::{inserted_row_id, CliRun, CliRunRow, ConversationData, UiPrefs};
use aella::CorrectionResult;

#[test]
fn truncate_keeps_short_strings() {
    assert_eq!(truncate("2024-05-01 10:00:00", 20), "2024-05-01 10:00:00");
    assert_eq!(truncate("exactly twenty bytes", 20), "exactly twenty bytes");
}

#[test]
fn truncate_cuts_long_strings() {
    let r = truncate("file:/home/user/documents/essay.txt", 20);
    assert_eq!(r, "file:/home/user/d...");
    assert_eq!(r.len(), 20);
}

#[test]
fn truncate_refuses_cutting_a_character() {
    // 17 bytes in, the cut would split the two-byte 'é'.
    let s = "aaaaaaaaaaaaaaaaé-and-more";
    assert!(!can_truncate(s, 20));
    assert!(can_truncate("aaaaaaaaaaaaaaaaaé-and-more", 20));
    assert_eq!(truncate("aaaaaaaaaaaaaaaaaé-and-more", 20).len(), 20);
}

#[test]
fn input_sources() {
    assert_eq!(input_source_label(Some("notes.md")), "file:notes.md");
    assert_eq!(input_source_label(None), "stdin");
}

#[test]
fn output_mode_priority() {
    assert_eq!(output_mode(true, true), OutputMode::Json);
    assert_eq!(output_mode(false, true), OutputMode::Diff);
    assert_eq!(output_mode(false, false), OutputMode::Text);
}

#[test]
fn batch_paths() {
    assert_eq!(batch_output_path("corrected", "a.md"), "corrected/a.md");
}

fn sample_result() -> CorrectionResult {
    CorrectionResult {
        original_text: String::from("I has a pen."),
        corrected_text: String::from("I have a pen."),
        corrections_count: 1,
        passes_count: 1,
    }
}

#[test]
fn metrics_and_stored_texts() {
    let r = sample_result();
    let m = cli_run_metrics(String::from("stdin"), "I has a pen. é", &r, 12);
    assert_eq!(m.input_source, "stdin");
    assert_eq!(m.input_length, 15);
    assert_eq!(m.output_length, 13);
    assert_eq!(m.corrections_count, 1);
    assert_eq!(m.passes_count, 1);
    assert_eq!(m.execution_time_ms, 12);
    let (a, b) = stored_texts(&r, true);
    assert_eq!(a.as_deref(), Some("I has a pen."));
    assert_eq!(b.as_deref(), Some("I have a pen."));
    let (a, b) = stored_texts(&r, false);
    assert!(a.is_none() && b.is_none());
}

#[test]
fn decimal_forms() {
    assert_eq!(decimal_string(0), "0");
    assert_eq!(decimal_string(42), "42");
    assert_eq!(decimal_string(-7), "-7");
    assert_eq!(decimal_string(i64::MAX), i64::MAX.to_string());
    assert_eq!(decimal_string(i64::MIN), i64::MIN.to_string());
}

#[test]
fn history_table_lines() {
    let header = history_header();
    let expected = format!(
        "{:<5} {:<20} {:<20} {:<12} {:<10} {:<10}",
        "ID", "Date", "Source", "Corrections", "Passes", "Time (ms)"
    );
    assert_eq!(header, expected);
    assert_eq!(history_rule(), "-".repeat(85));
    let run = CliRun {
        id: 7,
        input_source: String::from("file:/home/user/documents/essay.txt"),
        input_length: 100,
        output_length: 101,
        corrections_count: 3,
        passes_count: 2,
        execution_time_ms: 45,
        created_at: String::from("2026-02-16 10:00:00"),
        original_text: None,
        corrected_text: None,
    };
    let expected = format!(
        "{:<5} {:<20} {:<20} {:<12} {:<10} {:<10}",
        7, "2026-02-16 10:00:00", "file:/home/user/d...", 3, 2, 45
    );
    assert_eq!(history_row(&run), expected);
}

#[test]
fn diff_of_corrected_text() {
    let lines = diff_lines("I has a pen.\nIt is red.\n", "I have a pen.\nIt is red.\n");
    let shown: Vec<(char, String)> = lines.iter().map(|l| (l.sign, l.text.clone())).collect();
    assert_eq!(
        shown,
        vec![
            ('-', String::from("I has a pen.\n")),
            ('+', String::from("I have a pen.\n")),
            (' ', String::from("It is red.\n")),
        ]
    );
}

#[test]
fn diff_adds_missing_newline() {
    let lines = diff_lines("a\nb", "a\nc");
    let shown: Vec<(char, String)> = lines.iter().map(|l| (l.sign, l.text.clone())).collect();
    assert_eq!(
        shown,
        vec![(' ', String::from("a\n")), ('-', String::from("b\n")), ('+', String::from("c\n"))]
    );
}

#[test]
fn rows_with_missing_columns() {
    let c = ConversationData::from_row(Some(3), None, Some(String::from("text")));
    assert_eq!(c.id, 3);
    assert_eq!(c.title, "");
    assert_eq!(c.content, "text");
    let c = ConversationData::from_row(None, Some(String::from("t")), None);
    assert_eq!(c.id, 0);
    assert_eq!(inserted_row_id(Some(Some(9))), 9);
    assert_eq!(inserted_row_id(Some(None)), 0);
    assert_eq!(inserted_row_id(None), 0);
    let run = CliRun::from_row(CliRunRow {
        id: Some(1),
        input_source: Some(String::from("stdin")),
        input_length: None,
        output_length: Some(5),
        corrections_count: Some(2),
        passes_count: Some(1),
        execution_time_ms: Some(3),
        created_at: None,
        original_text: Some(String::from("x")),
        corrected_text: None,
    });
    assert_eq!(run.input_length, 0);
    assert_eq!(run.output_length, 5);
    assert_eq!(run.created_at, "");
    assert_eq!(run.original_text.as_deref(), Some("x"));
    assert!(run.corrected_text.is_none());
}

#[test]
fn ui_prefs_defaults() {
    let d = UiPrefs::default();
    assert!(!d.sidebar_collapsed);
    assert!(d.errors_panel_collapsed);
    let stored = UiPrefs { sidebar_collapsed: true, errors_panel_collapsed: false };
    assert_eq!(UiPrefs::from_stored(Some(stored)), stored);
    assert_eq!(UiPrefs::from_stored(None), d);
}

#[test]
fn displayed_changes_keep_order_and_signs() {
    let changes = vec![
        (ChangeKind::Equal, String::from("same\n")),
        (ChangeKind::Delete, String::from("old\r")),
        (ChangeKind::Insert, String::from("new")),
        (ChangeKind::Insert, String::new()),
    ];
    let lines = display_changes(&changes);
    let shown: Vec<(char, &str)> = lines.iter().map(|l| (l.sign, l.text.as_str())).collect();
    assert_eq!(shown, vec![(' ', "same\n"), ('-', "old\r"), ('+', "new\n"), ('+', "\n")]);
}
