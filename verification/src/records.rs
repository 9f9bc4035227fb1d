use vstd::prelude::*;

verus! {

/// A stored conversation: its row id, title and text.
#[derive(Debug, Clone)]
pub struct ConversationData {
    pub id: i64,
    pub title: String,
    pub content: String,
}

/// One logged run of the command-line checker, as stored.
#[derive(Debug, Clone)]
pub struct CliRun {
    pub id: i64,
    pub input_source: String,
    pub input_length: i64,
    pub output_length: i64,
    pub corrections_count: i64,
    pub passes_count: i64,
    pub execution_time_ms: i64,
    pub created_at: String,
    pub original_text: Option<String>,
    pub corrected_text: Option<String>,
}

/// The measurements of one run of the command-line checker, as handed to storage.
#[derive(Debug, Clone)]
pub struct CliRunMetrics {
    pub input_source: String,
    pub input_length: usize,
    pub output_length: usize,
    pub corrections_count: usize,
    pub passes_count: usize,
    pub execution_time_ms: u64,
}

/// Layout preferences of the desktop window.
#[derive(Debug, Clone, Copy, PartialEq, Eq, Structural)]
pub struct UiPrefs {
    pub sidebar_collapsed: bool,
    pub errors_panel_collapsed: bool,
}

impl Default for UiPrefs {
    /// The sidebar starts open and the errors panel starts collapsed.
    fn default() -> (p: UiPrefs)
        ensures
            p.sidebar_collapsed == false,
            p.errors_panel_collapsed == true,
    {
        UiPrefs { sidebar_collapsed: false, errors_panel_collapsed: true }
    }
}

impl UiPrefs {
    /// The preferences to use given what was read back from storage: the stored
    /// preferences when they could be read and parsed, the defaults otherwise.
    pub fn from_stored(stored: Option<UiPrefs>) -> (p: UiPrefs)
        ensures
            p == (match stored {
                Some(s) => s,
                None => UiPrefs { sidebar_collapsed: false, errors_panel_collapsed: true },
            }),
    {
        match stored {
            Some(s) => s,
            None => UiPrefs::default(),
        }
    }
}

/// A text column of a stored row: its text, or the empty string when the column
/// is missing or not text.
pub open spec fn text_or_empty(v: Option<Seq<char>>) -> Seq<char> {
    match v {
        Some(t) => t,
        None => Seq::empty(),
    }
}

/// An integer column of a stored row: its value, or 0 when the column is missing
/// or not an integer.
pub open spec fn integer_or_zero(v: Option<i64>) -> i64 {
    match v {
        Some(n) => n,
        None => 0,
    }
}

fn text_column(v: Option<String>) -> (t: String)
    ensures
        t@ == text_or_empty(match v {
            Some(s) => Some(s@),
            None => None,
        }),
{
    match v {
        Some(s) => s,
        None => String::new(),
    }
}

impl ConversationData {
    /// A conversation read from a row `(id, title, content)`; a missing or
    /// mistyped column reads as 0 or the empty string.
    pub fn from_row(id: Option<i64>, title: Option<String>, content: Option<String>) -> (c: ConversationData)
        ensures
            c.id == integer_or_zero(id),
            c.title@ == text_or_empty(match title {
                Some(s) => Some(s@),
                None => None,
            }),
            c.content@ == text_or_empty(match content {
                Some(s) => Some(s@),
                None => None,
            }),
    {
        ConversationData {
            id: match id {
                Some(n) => n,
                None => 0,
            },
            title: text_column(title),
            content: text_column(content),
        }
    }
}

/// The id of a freshly inserted row, given the first row of the id query (if
/// any) and its first column read as an integer (if it is one); 0 otherwise.
pub fn inserted_row_id(first_row: Option<Option<i64>>) -> (id: i64)
    ensures
        id == (match first_row {
            Some(Some(n)) => n,
            _ => 0,
        }),
{
    match first_row {
        Some(Some(n)) => n,
        _ => 0,
    }
}

/// The columns of a stored run of the command-line checker, each read as an
/// integer or a text when it is one.
pub struct CliRunRow {
    pub id: Option<i64>,
    pub input_source: Option<String>,
    pub input_length: Option<i64>,
    pub output_length: Option<i64>,
    pub corrections_count: Option<i64>,
    pub passes_count: Option<i64>,
    pub execution_time_ms: Option<i64>,
    pub created_at: Option<String>,
    pub original_text: Option<String>,
    pub corrected_text: Option<String>,
}

impl CliRun {
    /// A run read from its stored columns: missing numbers read as 0, missing
    /// required texts as the empty string, and the optional texts stay optional.
    pub fn from_row(row: CliRunRow) -> (r: CliRun)
        ensures
            r.id == integer_or_zero(row.id),
            r.input_source@ == text_or_empty(match row.input_source {
                Some(s) => Some(s@),
                None => None,
            }),
            r.input_length == integer_or_zero(row.input_length),
            r.output_length == integer_or_zero(row.output_length),
            r.corrections_count == integer_or_zero(row.corrections_count),
            r.passes_count == integer_or_zero(row.passes_count),
            r.execution_time_ms == integer_or_zero(row.execution_time_ms),
            r.created_at@ == text_or_empty(match row.created_at {
                Some(s) => Some(s@),
                None => None,
            }),
            r.original_text == row.original_text,
            r.corrected_text == row.corrected_text,
    {
        CliRun {
            id: match row.id {
                Some(n) => n,
                None => 0,
            },
            input_source: text_column(row.input_source),
            input_length: match row.input_length {
                Some(n) => n,
                None => 0,
            },
            output_length: match row.output_length {
                Some(n) => n,
                None => 0,
            },
            corrections_count: match row.corrections_count {
                Some(n) => n,
                None => 0,
            },
            passes_count: match row.passes_count {
                Some(n) => n,
                None => 0,
            },
            execution_time_ms: match row.execution_time_ms {
                Some(n) => n,
                None => 0,
            },
            created_at: text_column(row.created_at),
            original_text: row.original_text,
            corrected_text: row.corrected_text,
        }
    }
}

} // verus!
