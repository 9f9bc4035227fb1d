use aella::desktop::{Conversation, DesktopState, Effects, Message, Task, ViewMode};
use aella::sidebar::{sidebar_view, RowActions, SidebarEntry};
use aella::editor_view::{editor_view, PanelContent, TitleAction};
use aella::keys::{
    is_app_shortcut_keypress, is_shortcuts_help_shortcut, shortcut_help, shortcuts_hint_text, KeyPress, Modifiers, PhysicalKey,
};
use aella::lint::{Lint, LintKind, Suggestion};
use aella::records::ConversationData;

fn ctrl(c: char) -> KeyPress {
    KeyPress {
        latin: Some(c),
        escape: false,
        physical: PhysicalKey::Other,
        modifiers: Modifiers { logo: false, control: true, shift: false },
        repeat: false,
    }
}

fn data(id: i64, title: &str, content: &str) -> ConversationData {
    ConversationData { id, title: String::from(title), content: String::from(content) }
}

fn no_tasks(e: &Effects) -> bool {
    e.tasks.is_empty() && !e.reload_editor && !e.refresh_cursor && !e.lint_now && !e.run_auto_fix
}

#[test]
fn starts_with_welcome_text() {
    let s = DesktopState::new();
    assert!(s.editor_text.starts_with("# Welcome to Aella\n\nStart typing"));
    assert!(s.editor_text.ends_with("powered by Harper."));
    assert_eq!(s.current_title, "Untitled");
    assert_eq!(s.view_mode, ViewMode::BothViews);
    assert_eq!(s.cursor_position, (1, 1));
    assert_eq!(s.last_checked_text, s.editor_text);
    assert!(!s.database_ready);
}

#[test]
fn toggles_undo_themselves() {
    let mut s = DesktopState::new();
    s.update(Message::ToggleSidebar);
    assert!(s.sidebar_collapsed);
    s.update(Message::ToggleSidebar);
    assert!(!s.sidebar_collapsed);
    s.update(Message::ToggleErrorsPanel);
    assert!(s.errors_panel_collapsed);
    s.update(Message::ToggleShortcutsHelp);
    assert!(s.shortcuts_help_open);
    s.update(Message::ToggleShortcutsHelp);
    assert!(!s.shortcuts_help_open);
}

#[test]
fn view_shortcuts_and_artifacts() {
    let mut s = DesktopState::new();
    s.update(Message::SearchChanged(String::from("notes1")));
    let e = s.update(Message::KeyPressed(ctrl('1')));
    assert!(no_tasks(&e));
    assert_eq!(s.view_mode, ViewMode::RawCode);
    assert_eq!(s.search_query, "notes");
    s.update(Message::KeyPressed(ctrl('3')));
    assert_eq!(s.view_mode, ViewMode::RenderedView);
    let mut digit = ctrl('x');
    digit.latin = None;
    digit.physical = PhysicalKey::Digit2;
    s.update(Message::KeyPressed(digit));
    assert_eq!(s.view_mode, ViewMode::BothViews);
}

#[test]
fn focus_search_and_help_shortcuts() {
    let mut s = DesktopState::new();
    s.update(Message::ToggleSidebar);
    let e = s.update(Message::KeyPressed(ctrl('F')));
    assert!(!s.sidebar_collapsed);
    assert!(matches!(e.tasks.as_slice(), [Task::FocusSearch]));
    s.update(Message::KeyPressed(ctrl('k')));
    assert!(s.shortcuts_help_open);
    let mut esc = ctrl('x');
    esc.latin = None;
    esc.escape = true;
    esc.modifiers = Modifiers { logo: false, control: false, shift: false };
    s.update(Message::KeyPressed(esc));
    assert!(!s.shortcuts_help_open);
}

#[test]
fn shift_b_toggles_issues_panel() {
    let mut s = DesktopState::new();
    let mut k = ctrl('b');
    k.modifiers.shift = true;
    s.update(Message::KeyPressed(k));
    assert!(s.errors_panel_collapsed);
    assert!(!s.sidebar_collapsed);
    s.update(Message::KeyPressed(ctrl('b')));
    assert!(s.sidebar_collapsed);
}

#[test]
fn repeated_and_unmodified_keys_do_nothing() {
    let mut s = DesktopState::new();
    let mut k = ctrl('1');
    k.repeat = true;
    let e = s.update(Message::KeyPressed(k));
    assert!(no_tasks(&e));
    assert_eq!(s.view_mode, ViewMode::BothViews);
    let mut plain = ctrl('1');
    plain.modifiers.control = false;
    s.update(Message::KeyPressed(plain));
    assert_eq!(s.view_mode, ViewMode::BothViews);
}

#[test]
fn new_conversation_without_store() {
    let mut s = DesktopState::new();
    let e = s.update(Message::NewConversation);
    assert!(e.reload_editor);
    assert_eq!(s.conversations.len(), 1);
    assert_eq!(s.conversations[0].id, 1);
    assert_eq!(s.conversations[0].title, "New Conversation 1");
    assert_eq!(s.conversations[0].preview, "Start writing...");
    assert_eq!(s.selected_conversation, Some(1));
    assert_eq!(s.current_title, "New Conversation 1");
    assert_eq!(s.editor_text, "");
    s.update(Message::KeyPressed(ctrl('n')));
    assert_eq!(s.conversations.len(), 2);
    assert_eq!(s.conversations[0].title, "New Conversation 2");
    assert_eq!(s.selected_conversation, Some(2));
}

#[test]
fn new_conversation_with_store() {
    let mut s = DesktopState::new();
    let e = s.update(Message::DatabaseInitialized);
    assert!(matches!(e.tasks.as_slice(), [Task::RefreshLists]));
    let e = s.update(Message::NewConversation);
    match e.tasks.as_slice() {
        [Task::CreateConversation { title, content }] => {
            assert_eq!(title, "New Conversation");
            assert_eq!(content, "");
        },
        _ => panic!("expected a create task"),
    }
    assert!(s.conversations.is_empty());
}

#[test]
fn lists_loaded_select_and_load() {
    let mut s = DesktopState::new();
    s.update(Message::DatabaseInitialized);
    let e = s.update(Message::ConversationsLoaded(vec![data(5, "First", ""), data(6, "Second", "Hello there")]));
    assert_eq!(s.selected_conversation, Some(5));
    assert!(matches!(e.tasks.as_slice(), [Task::LoadConversation(5)]));
    assert_eq!(s.conversations[0].preview, "Start writing...");
    assert_eq!(s.conversations[1].preview, "Hello there");
    s.update(Message::ConversationSelected(6));
    let e = s.update(Message::ConversationsLoaded(vec![data(6, "Second", "x"), data(7, "Third", "")]));
    assert_eq!(s.selected_conversation, Some(6));
    assert!(matches!(e.tasks.as_slice(), [Task::LoadConversation(6)]));
    let e = s.update(Message::ConversationsLoaded(Vec::new()));
    assert_eq!(s.selected_conversation, None);
    assert!(e.tasks.is_empty());
}

#[test]
fn selecting_saves_the_open_conversation_first() {
    let mut s = DesktopState::new();
    s.update(Message::DatabaseInitialized);
    s.update(Message::ConversationsLoaded(vec![data(1, "One", "a"), data(2, "Two", "b")]));
    s.update(Message::TrashedConversationsLoaded(vec![data(9, "Old", "c")]));
    s.update(Message::TitleChanged(String::from("One!")));
    assert_eq!(s.conversations[0].title, "One!");
    let e = s.update(Message::ConversationSelected(9));
    match e.tasks.as_slice() {
        [Task::SaveConversation { id, title, .. }, Task::LoadConversation(9)] => {
            assert_eq!(*id, 1);
            assert_eq!(title, "One!");
        },
        _ => panic!("expected save then load"),
    }
    assert!(s.selected_in_trash);
}

#[test]
fn trash_and_delete_clear_the_open_conversation() {
    let mut s = DesktopState::new();
    s.update(Message::DatabaseInitialized);
    s.update(Message::ConversationsLoaded(vec![data(1, "One", "a")]));
    s.update(Message::ConversationDataLoaded(data(1, "One", "Some text")));
    assert_eq!(s.editor_text, "Some text");
    let e = s.update(Message::MoveConversationToTrash(1));
    assert!(matches!(e.tasks.as_slice(), [Task::TrashConversation(1)]));
    assert!(e.reload_editor);
    assert_eq!(s.selected_conversation, None);
    assert_eq!(s.current_title, "Untitled");
    assert_eq!(s.editor_text, "");
    let e = s.update(Message::DeleteConversationPermanently(4));
    assert!(matches!(e.tasks.as_slice(), [Task::DeleteConversation(4)]));
    assert!(!e.reload_editor);
    let e = s.update(Message::RestoreConversation(4));
    assert!(matches!(e.tasks.as_slice(), [Task::RestoreConversation(4)]));
}

#[test]
fn show_trash_selects_first_trashed() {
    let mut s = DesktopState::new();
    s.update(Message::TrashedConversationsLoaded(vec![data(3, "T", "")]));
    let e = s.update(Message::ShowTrash);
    assert!(s.selected_in_trash);
    assert_eq!(s.selected_conversation, Some(3));
    assert!(e.tasks.is_empty());
    s.update(Message::ShowConversations);
    assert!(!s.selected_in_trash);
    assert_eq!(s.selected_conversation, None);
}

#[test]
fn stale_lints_are_ignored() {
    let mut s = DesktopState::new();
    let lint = Lint {
        span_start: 0,
        span_end: 1,
        lint_kind: LintKind::Spelling,
        message: String::from("m"),
        suggestions: vec![Suggestion::Remove],
    };
    s.update(Message::GrammarChecked { content: String::from("other"), lints: vec![lint] });
    assert!(s.grammar_lints.is_empty());
    let lint = Lint {
        span_start: 0,
        span_end: 1,
        lint_kind: LintKind::Spelling,
        message: String::from("m"),
        suggestions: vec![Suggestion::Remove],
    };
    let current = s.last_checked_text.clone();
    s.update(Message::GrammarChecked { content: current, lints: vec![lint] });
    assert_eq!(s.grammar_lints.len(), 1);
}

#[test]
fn editing_relints_only_changed_text() {
    let mut s = DesktopState::new();
    let text = s.editor_text.clone();
    let e = s.update(Message::EditorEdited { text, line: 2, column: 4 });
    assert!(!e.lint_now);
    assert_eq!(s.cursor_position, (3, 5));
    let e = s.update(Message::EditorEdited { text: String::from("new"), line: 0, column: 3 });
    assert!(e.lint_now);
    assert_eq!(s.last_checked_text, "new");
    assert_eq!(s.markdown_source, "new");
}

#[test]
fn applying_one_suggestion() {
    let mut s = DesktopState::new();
    s.update(Message::EditorEdited { text: String::from("I has a pen."), line: 0, column: 0 });
    let lint = Lint {
        span_start: 2,
        span_end: 5,
        lint_kind: LintKind::Agreement,
        message: String::from("Use have"),
        suggestions: vec![Suggestion::ReplaceWith("have".chars().collect())],
    };
    s.update(Message::GrammarChecked { content: String::from("I has a pen."), lints: vec![lint] });
    let e = s.update(Message::ApplyLintSuggestion(0));
    assert!(e.reload_editor && e.refresh_cursor && e.lint_now);
    assert_eq!(s.editor_text, "I have a pen.");
    assert_eq!(s.last_checked_text, "I have a pen.");
    let e = s.update(Message::ApplyLintSuggestion(5));
    assert!(no_tasks(&e));
    let e = s.update(Message::ApplyAllSuggestions);
    assert!(e.run_auto_fix);
    s.update(Message::SuggestionsApplied(String::from("Done.")));
    assert_eq!(s.editor_text, "Done.");
}

#[test]
fn key_classification() {
    assert!(is_shortcuts_help_shortcut(Some('K'), PhysicalKey::Other));
    assert!(is_shortcuts_help_shortcut(None, PhysicalKey::KeyK));
    assert!(!is_shortcuts_help_shortcut(Some('j'), PhysicalKey::Other));
    assert!(is_app_shortcut_keypress(&ctrl('n')));
    assert!(!is_app_shortcut_keypress(&ctrl('x')));
    let mut k = ctrl('x');
    k.latin = None;
    k.physical = PhysicalKey::Digit3;
    assert!(is_app_shortcut_keypress(&k));
    let mut plain = ctrl('n');
    plain.modifiers.control = false;
    assert!(!is_app_shortcut_keypress(&plain));
}

#[test]
fn allows_only_suggestions_that_fit_the_text() {
    let mut s = DesktopState::new();
    s.editor_text = String::from("abc");
    s.grammar_lints = vec![
        Lint { span_start: 1, span_end: 2, lint_kind: LintKind::Typo, message: String::from("m"), suggestions: vec![Suggestion::Remove] },
        Lint { span_start: 2, span_end: 9, lint_kind: LintKind::Typo, message: String::from("m"), suggestions: vec![Suggestion::Remove] },
        Lint { span_start: 2, span_end: 9, lint_kind: LintKind::Typo, message: String::from("m"), suggestions: Vec::new() },
    ];
    assert!(s.allows(&Message::ApplyLintSuggestion(0)));
    assert!(!s.allows(&Message::ApplyLintSuggestion(1)));
    assert!(s.allows(&Message::ApplyLintSuggestion(2)));
    assert!(s.allows(&Message::ApplyLintSuggestion(7)));
    assert!(s.allows(&Message::ToggleSidebar));
    assert!(!s.allows(&Message::CursorRefreshed { line: usize::MAX, column: 0 }));
    assert!(s.allows(&Message::CursorRefreshed { line: 4, column: 0 }));
}

#[test]
fn shortcut_help_lists_every_shortcut() {
    let help = shortcut_help(false);
    let lines: Vec<(String, String)> = help.iter().map(|h| (h.keys.clone(), h.action.clone())).collect();
    assert_eq!(lines.len(), 9);
    assert_eq!(lines[0], (String::from("Ctrl + F"), String::from("Expand sidebar + focus search")));
    assert_eq!(lines[5], (String::from("Ctrl + Shift + B"), String::from("Toggle issues panel")));
    assert_eq!(lines[8], (String::from("Esc"), String::from("Close shortcut help")));
    assert_eq!(shortcut_help(true)[7].keys, "Cmd + K");
    assert_eq!(shortcuts_hint_text(true), "Press Cmd + K to show shortcuts");
    assert_eq!(shortcuts_hint_text(false), "Press Ctrl + K to show shortcuts");
}

#[test]
fn closing_the_help_keeps_it_closed() {
    let mut s = DesktopState::new();
    assert!(no_tasks(&s.update(Message::CloseShortcutsHelp)));
    assert!(!s.shortcuts_help_open);
    s.update(Message::ToggleShortcutsHelp);
    assert!(s.shortcuts_help_open);
    s.update(Message::CloseShortcutsHelp);
    assert!(!s.shortcuts_help_open);
}

#[test]
fn keys_the_editor_keeps_do_nothing() {
    let mut s = DesktopState::new();
    s.search_query = String::from("notex");
    let k = ctrl('x');
    assert!(!is_app_shortcut_keypress(&k));
    let e = s.update(Message::KeyPressed(k));
    assert!(no_tasks(&e));
    assert_eq!(s.search_query, "notex");
    assert!(!s.sidebar_collapsed);
    assert_eq!(s.view_mode, ViewMode::BothViews);
}

#[test]
fn editor_view_layout() {
    let mut s = DesktopState::new();
    let v = editor_view(&s);
    assert_eq!(v.title_action, TitleAction::Nothing);
    assert_eq!(v.panel_height, 200);
    assert_eq!(v.panel_content, PanelContent::AllClear);
    assert!(!v.apply_all_enabled);
    s.selected_conversation = Some(7);
    s.grammar_lints = vec![Lint {
        span_start: 0,
        span_end: 1,
        lint_kind: LintKind::Typo,
        message: String::from("m"),
        suggestions: Vec::new(),
    }];
    let v = editor_view(&s);
    assert_eq!(v.title_action, TitleAction::MoveToTrash(7));
    assert_eq!(v.panel_content, PanelContent::Issues);
    assert!(v.apply_all_enabled);
    s.selected_in_trash = true;
    s.errors_panel_collapsed = true;
    let v = editor_view(&s);
    assert_eq!(v.title_action, TitleAction::InTrash);
    assert_eq!(v.panel_height, 40);
    assert_eq!(v.panel_content, PanelContent::Collapsed);
}

#[test]
fn view_mode_buttons_follow_the_mode() {
    let mut s = DesktopState::new();
    let v = editor_view(&s);
    assert!(!v.raw_code_highlighted && v.both_views_highlighted && !v.rendered_highlighted);
    s.view_mode = ViewMode::RawCode;
    let v = editor_view(&s);
    assert!(v.raw_code_highlighted && !v.both_views_highlighted && !v.rendered_highlighted);
}

#[test]
fn sidebar_layout() {
    let conv = |id: i64, title: &str| Conversation { id, title: String::from(title), preview: String::from("p") };
    let mut s = DesktopState::new();
    s.conversations = vec![conv(1, "Draft"), conv(2, "Letter"), conv(3, "Notes")];
    s.trashed_conversations = vec![conv(4, "Old")];
    s.selected_conversation = Some(2);
    s.search_query = String::from("e");
    let v = sidebar_view(&s);
    assert_eq!(v.width, 300);
    assert!(!v.compact && v.new_button && !v.trash_tab_highlighted);
    assert_eq!(v.row_actions, RowActions::Trash);
    assert_eq!(v.entries, vec![SidebarEntry { position: 1, selected: true }, SidebarEntry { position: 2, selected: false }]);
    s.sidebar_collapsed = true;
    let v = sidebar_view(&s);
    assert_eq!(v.width, 60);
    assert!(v.compact && v.new_button);
    assert_eq!(v.entries.len(), 3);
    assert!(v.entries[1].selected);
    s.sidebar_collapsed = false;
    s.selected_in_trash = true;
    s.search_query = String::new();
    let v = sidebar_view(&s);
    assert!(!v.new_button && v.trash_tab_highlighted);
    assert_eq!(v.row_actions, RowActions::RestoreAndDelete);
    assert_eq!(v.entries, vec![SidebarEntry { position: 0, selected: false }]);
}
