//! Aella: a grammar checker's decisions, verified. A correction run applies the
//! grammar checker's suggestions pass by pass; the command line tool formats its
//! results and history; the desktop editor is a state machine from messages to
//! state and effects, with its sidebar, badges, previews and lint highlights.
pub mod text;
pub mod lint;
pub mod correction;
pub mod correction_laws;
pub mod records;
pub mod cli;
pub mod diff;
pub mod ui_text;
pub mod highlight;
pub mod highlight_laws;
pub mod keys;
pub mod desktop;
pub mod desktop_laws;
pub mod desktop_message_laws;
pub mod key_laws;
pub mod sidebar;
pub mod issues_panel;
pub mod editor_view;

pub use cli::truncate;
pub use correction::{CorrectionResult, CorrectionSession};
pub use lint::{Lint, LintKind, Suggestion};
pub use records::{CliRun, CliRunMetrics, ConversationData, UiPrefs};
pub use ui_text::{compact_title_badge, preview, strip_trailing_shortcut_char};
