use vstd::prelude::*;
use vstd::string::StringExecFns;

use crate::cli::decimal_digits;
use crate::keys::{is_help_key, KeyPress, PhysicalKey};
use crate::lint::{Lint, LintModel, lint_models, spliced};
use crate::records::ConversationData;
use crate::ui_text::{ascii_lower, is_shortcut_artifact, preview_of};

verus! {

broadcast use vstd::string::group_string_axioms;

/// How the editor area shows the document.
#[derive(Clone, Copy, PartialEq, Eq, Debug, Structural)]
pub enum ViewMode {
    RawCode,
    BothViews,
    RenderedView,
}

/// A conversation as listed in the sidebar.
#[derive(Debug, Clone)]
pub struct Conversation {
    pub id: i64,
    pub title: String,
    pub preview: String,
}

/// The model of a [`Conversation`].
pub struct ConversationModel {
    pub id: i64,
    pub title: Seq<char>,
    pub preview: Seq<char>,
}

impl View for Conversation {
    type V = ConversationModel;

    open spec fn view(&self) -> ConversationModel {
        ConversationModel { id: self.id, title: self.title@, preview: self.preview@ }
    }
}

/// The models of a list of conversations.
pub open spec fn conversation_models(list: Seq<Conversation>) -> Seq<ConversationModel> {
    list.map_values(|c: Conversation| c@)
}

/// The model of a stored conversation: id, title and text.
pub struct ConversationDataModel {
    pub id: i64,
    pub title: Seq<char>,
    pub content: Seq<char>,
}

/// The model of a [`ConversationData`].
pub open spec fn data_model(d: ConversationData) -> ConversationDataModel {
    ConversationDataModel { id: d.id, title: d.title@, content: d.content@ }
}

/// The models of a list of stored conversations.
pub open spec fn data_models(list: Seq<ConversationData>) -> Seq<ConversationDataModel> {
    list.map_values(|d: ConversationData| data_model(d))
}

/// The state of the desktop application that its decisions depend on.
pub struct DesktopState {
    pub search_query: String,
    pub conversations: Vec<Conversation>,
    pub trashed_conversations: Vec<Conversation>,
    pub selected_conversation: Option<i64>,
    pub selected_in_trash: bool,
    pub current_title: String,
    /// The text in the editor.
    pub editor_text: String,
    pub sidebar_collapsed: bool,
    pub grammar_lints: Vec<Lint>,
    pub view_mode: ViewMode,
    /// The text whose markdown rendering is shown.
    pub markdown_source: String,
    /// The cursor's line and column, counted from 1.
    pub cursor_position: (usize, usize),
    pub errors_panel_collapsed: bool,
    /// Whether the conversation store is open.
    pub database_ready: bool,
    /// The text that the grammar lints belong to.
    pub last_checked_text: String,
    pub shortcuts_help_open: bool,
}

/// The model of a [`DesktopState`].
pub struct StateModel {
    pub search_query: Seq<char>,
    pub conversations: Seq<ConversationModel>,
    pub trashed: Seq<ConversationModel>,
    pub selected: Option<i64>,
    pub in_trash: bool,
    pub title: Seq<char>,
    pub editor_text: Seq<char>,
    pub sidebar_collapsed: bool,
    pub lints: Seq<LintModel>,
    pub view_mode: ViewMode,
    pub markdown_source: Seq<char>,
    pub cursor: (int, int),
    pub errors_panel_collapsed: bool,
    pub database_ready: bool,
    pub last_checked: Seq<char>,
    pub help_open: bool,
}

impl View for DesktopState {
    type V = StateModel;

    open spec fn view(&self) -> StateModel {
        StateModel {
            search_query: self.search_query@,
            conversations: conversation_models(self.conversations@),
            trashed: conversation_models(self.trashed_conversations@),
            selected: self.selected_conversation,
            in_trash: self.selected_in_trash,
            title: self.current_title@,
            editor_text: self.editor_text@,
            sidebar_collapsed: self.sidebar_collapsed,
            lints: lint_models(self.grammar_lints@),
            view_mode: self.view_mode,
            markdown_source: self.markdown_source@,
            cursor: (self.cursor_position.0 as int, self.cursor_position.1 as int),
            errors_panel_collapsed: self.errors_panel_collapsed,
            database_ready: self.database_ready,
            last_checked: self.last_checked_text@,
            help_open: self.shortcuts_help_open,
        }
    }
}

/// Background work that an update asks for; each reports back with a message.
pub enum Task {
    /// Focus the sidebar's search field.
    FocusSearch,
    /// Store a new conversation; then refresh the lists.
    CreateConversation { title: String, content: String },
    /// Store the title and text of a conversation; then report it saved.
    SaveConversation { id: i64, title: String, content: String },
    /// Read a conversation; then hand it over, or do nothing if it is gone.
    LoadConversation(i64),
    /// Move a conversation to the trash; then refresh the lists.
    TrashConversation(i64),
    /// Bring a conversation back from the trash; then refresh the lists.
    RestoreConversation(i64),
    /// Delete a conversation for good; then refresh the lists.
    DeleteConversation(i64),
    /// Read both lists of conversations and hand each over.
    RefreshLists,
    /// Check the grammar of a text; then hand over its lints.
    CheckGrammar(String),
}

/// The model of a [`Task`].
pub enum TaskModel {
    FocusSearch,
    CreateConversation { title: Seq<char>, content: Seq<char> },
    SaveConversation { id: i64, title: Seq<char>, content: Seq<char> },
    LoadConversation(i64),
    TrashConversation(i64),
    RestoreConversation(i64),
    DeleteConversation(i64),
    RefreshLists,
    CheckGrammar(Seq<char>),
}

impl View for Task {
    type V = TaskModel;

    open spec fn view(&self) -> TaskModel {
        match self {
            Task::FocusSearch => TaskModel::FocusSearch,
            Task::CreateConversation { title, content } => TaskModel::CreateConversation {
                title: title@,
                content: content@,
            },
            Task::SaveConversation { id, title, content } => TaskModel::SaveConversation {
                id: *id,
                title: title@,
                content: content@,
            },
            Task::LoadConversation(id) => TaskModel::LoadConversation(*id),
            Task::TrashConversation(id) => TaskModel::TrashConversation(*id),
            Task::RestoreConversation(id) => TaskModel::RestoreConversation(*id),
            Task::DeleteConversation(id) => TaskModel::DeleteConversation(*id),
            Task::RefreshLists => TaskModel::RefreshLists,
            Task::CheckGrammar(t) => TaskModel::CheckGrammar(t@),
        }
    }
}

/// What an update asks of the application around the state: background tasks,
/// and work to do at once (rebuild the editor from `editor_text`, re-read the
/// cursor from the rebuilt editor, lint `last_checked_text` and hand the lints
/// back, or correct the editor's text in full and hand the result back).
pub struct Effects {
    pub tasks: Vec<Task>,
    pub reload_editor: bool,
    pub refresh_cursor: bool,
    pub lint_now: bool,
    pub run_auto_fix: bool,
}

/// The model of [`Effects`].
pub struct EffectsModel {
    pub tasks: Seq<TaskModel>,
    pub reload_editor: bool,
    pub refresh_cursor: bool,
    pub lint_now: bool,
    pub run_auto_fix: bool,
}

impl View for Effects {
    type V = EffectsModel;

    open spec fn view(&self) -> EffectsModel {
        EffectsModel {
            tasks: self.tasks@.map_values(|t: Task| t@),
            reload_editor: self.reload_editor,
            refresh_cursor: self.refresh_cursor,
            lint_now: self.lint_now,
            run_auto_fix: self.run_auto_fix,
        }
    }
}

/// Effects made only of the given tasks.
pub open spec fn only_tasks(tasks: Seq<TaskModel>) -> EffectsModel {
    EffectsModel { tasks, reload_editor: false, refresh_cursor: false, lint_now: false, run_auto_fix: false }
}

/// No effects at all.
pub open spec fn no_effects() -> EffectsModel {
    only_tasks(Seq::empty())
}

/// What the application tells the state.
#[derive(Debug, Clone)]
pub enum Message {
    KeyPressed(KeyPress),
    OtherKeyboardEvent,
    SearchChanged(String),
    TitleChanged(String),
    SaveTitle,
    ConversationSelected(i64),
    NewConversation,
    ShowConversations,
    ShowTrash,
    MoveConversationToTrash(i64),
    RestoreConversation(i64),
    DeleteConversationPermanently(i64),
    ApplyLintSuggestion(usize),
    ApplyAllSuggestions,
    /// The editor performed an edit or a cursor move: its text and its cursor's
    /// line and column, counted from 0.
    EditorEdited { text: String, line: usize, column: usize },
    /// The editor was rebuilt; its cursor's line and column, counted from 0.
    CursorRefreshed { line: usize, column: usize },
    ToggleSidebar,
    SetViewMode(ViewMode),
    MarkdownLinkClicked,
    ToggleErrorsPanel,
    ToggleShortcutsHelp,
    CloseShortcutsHelp,
    DatabaseInitialized,
    ConversationsLoaded(Vec<ConversationData>),
    TrashedConversationsLoaded(Vec<ConversationData>),
    ConversationDataLoaded(ConversationData),
    RefreshLists,
    GrammarChecked { content: String, lints: Vec<Lint> },
    /// The full correction of the editor's text finished with this text.
    SuggestionsApplied(String),
    ConversationSaved,
    Noop,
}

/// The model of a [`Message`].
pub enum MessageModel {
    KeyPressed(KeyPress),
    OtherKeyboardEvent,
    SearchChanged(Seq<char>),
    TitleChanged(Seq<char>),
    SaveTitle,
    ConversationSelected(i64),
    NewConversation,
    ShowConversations,
    ShowTrash,
    MoveConversationToTrash(i64),
    RestoreConversation(i64),
    DeleteConversationPermanently(i64),
    ApplyLintSuggestion(int),
    ApplyAllSuggestions,
    EditorEdited { text: Seq<char>, line: int, column: int },
    CursorRefreshed { line: int, column: int },
    ToggleSidebar,
    SetViewMode(ViewMode),
    MarkdownLinkClicked,
    ToggleErrorsPanel,
    ToggleShortcutsHelp,
    CloseShortcutsHelp,
    DatabaseInitialized,
    ConversationsLoaded(Seq<ConversationDataModel>),
    TrashedConversationsLoaded(Seq<ConversationDataModel>),
    ConversationDataLoaded(ConversationDataModel),
    RefreshLists,
    GrammarChecked { content: Seq<char>, lints: Seq<LintModel> },
    SuggestionsApplied(Seq<char>),
    ConversationSaved,
    Noop,
}

impl View for Message {
    type V = MessageModel;

    open spec fn view(&self) -> MessageModel {
        match self {
            Message::KeyPressed(k) => MessageModel::KeyPressed(*k),
            Message::OtherKeyboardEvent => MessageModel::OtherKeyboardEvent,
            Message::SearchChanged(q) => MessageModel::SearchChanged(q@),
            Message::TitleChanged(t) => MessageModel::TitleChanged(t@),
            Message::SaveTitle => MessageModel::SaveTitle,
            Message::ConversationSelected(id) => MessageModel::ConversationSelected(*id),
            Message::NewConversation => MessageModel::NewConversation,
            Message::ShowConversations => MessageModel::ShowConversations,
            Message::ShowTrash => MessageModel::ShowTrash,
            Message::MoveConversationToTrash(id) => MessageModel::MoveConversationToTrash(*id),
            Message::RestoreConversation(id) => MessageModel::RestoreConversation(*id),
            Message::DeleteConversationPermanently(id) => MessageModel::DeleteConversationPermanently(*id),
            Message::ApplyLintSuggestion(i) => MessageModel::ApplyLintSuggestion(*i as int),
            Message::ApplyAllSuggestions => MessageModel::ApplyAllSuggestions,
            Message::EditorEdited { text, line, column } => MessageModel::EditorEdited {
                text: text@,
                line: *line as int,
                column: *column as int,
            },
            Message::CursorRefreshed { line, column } => MessageModel::CursorRefreshed {
                line: *line as int,
                column: *column as int,
            },
            Message::ToggleSidebar => MessageModel::ToggleSidebar,
            Message::SetViewMode(m) => MessageModel::SetViewMode(*m),
            Message::MarkdownLinkClicked => MessageModel::MarkdownLinkClicked,
            Message::ToggleErrorsPanel => MessageModel::ToggleErrorsPanel,
            Message::ToggleShortcutsHelp => MessageModel::ToggleShortcutsHelp,
            Message::CloseShortcutsHelp => MessageModel::CloseShortcutsHelp,
            Message::DatabaseInitialized => MessageModel::DatabaseInitialized,
            Message::ConversationsLoaded(l) => MessageModel::ConversationsLoaded(data_models(l@)),
            Message::TrashedConversationsLoaded(l) => MessageModel::TrashedConversationsLoaded(data_models(l@)),
            Message::ConversationDataLoaded(d) => MessageModel::ConversationDataLoaded(data_model(*d)),
            Message::RefreshLists => MessageModel::RefreshLists,
            Message::GrammarChecked { content, lints } => MessageModel::GrammarChecked {
                content: content@,
                lints: lint_models(lints@),
            },
            Message::SuggestionsApplied(t) => MessageModel::SuggestionsApplied(t@),
            Message::ConversationSaved => MessageModel::ConversationSaved,
            Message::Noop => MessageModel::Noop,
        }
    }
}

/// The text shown when the application starts.
pub open spec fn welcome_text() -> Seq<char> {
    "# Welcome to Aella\n\nStart typing to check your grammar in real-time.\n\nThis is a markdown editor with built-in grammar checking powered by Harper."@
}

/// The state in which the application starts: the welcome text in the editor and
/// in the rendering, no conversations, no lints, both views, the cursor at line 1
/// column 1, every panel open, no store yet.
pub open spec fn initial_state() -> StateModel {
    StateModel {
        search_query: Seq::empty(),
        conversations: Seq::empty(),
        trashed: Seq::empty(),
        selected: None,
        in_trash: false,
        title: "Untitled"@,
        editor_text: welcome_text(),
        sidebar_collapsed: false,
        lints: Seq::empty(),
        view_mode: ViewMode::BothViews,
        markdown_source: welcome_text(),
        cursor: (1, 1),
        errors_panel_collapsed: false,
        database_ready: false,
        last_checked: welcome_text(),
        help_open: false,
    }
}

/// Whether typing shortcut `c` left its character at the end of `s`.
pub open spec fn ends_with_artifact(s: Seq<char>, c: char) -> bool {
    s.len() > 0 && is_shortcut_artifact(s.last(), c)
}

/// `s` without the character that typing shortcut `c` left at its end.
pub open spec fn strip_artifact(s: Seq<char>, c: char) -> Seq<char> {
    if ends_with_artifact(s, c) {
        s.drop_last()
    } else {
        s
    }
}

/// Whether `i` is the first position of a conversation with id `id` in `list`.
pub open spec fn is_first_with_id(list: Seq<ConversationModel>, id: i64, i: int) -> bool {
    &&& 0 <= i < list.len()
    &&& list[i].id == id
    &&& forall|k: int| 0 <= k < i ==> #[trigger] list[k].id != id
}

/// Whether `list` holds a conversation with id `id`.
pub open spec fn has_id(list: Seq<ConversationModel>, id: i64) -> bool {
    exists|i: int| 0 <= i < list.len() && #[trigger] list[i].id == id
}

/// `list` with the first conversation with id `id` (if any) retitled `title`.
pub open spec fn retitle(list: Seq<ConversationModel>, id: i64, title: Seq<char>) -> Seq<ConversationModel> {
    if exists|i: int| is_first_with_id(list, id, i) {
        let i = choose|i: int| is_first_with_id(list, id, i);
        list.update(i, ConversationModel { title, ..list[i] })
    } else {
        list
    }
}

/// The state with the selected conversation's list entry retitled to the
/// current title.
pub open spec fn propagate_title(s: StateModel) -> StateModel {
    match s.selected {
        Some(id) => if s.in_trash {
            StateModel { trashed: retitle(s.trashed, id, s.title), ..s }
        } else {
            StateModel { conversations: retitle(s.conversations, id, s.title), ..s }
        },
        None => s,
    }
}

/// The state after removing the character that shortcut `c` typed into the
/// search field or the title: both lose a trailing `c`; when only the title
/// lost one, the selected conversation's entry takes the new title.
pub open spec fn without_artifact(s: StateModel, c: char) -> StateModel {
    let s1 = StateModel {
        search_query: strip_artifact(s.search_query, c),
        title: strip_artifact(s.title, c),
        ..s
    };
    if ends_with_artifact(s.search_query, c) || !ends_with_artifact(s.title, c) {
        s1
    } else {
        propagate_title(s1)
    }
}

/// The task that loads conversation `id`, if the store is open.
pub open spec fn load_tasks(s: StateModel, id: i64) -> Seq<TaskModel> {
    if s.database_ready {
        seq![TaskModel::LoadConversation(id)]
    } else {
        Seq::empty()
    }
}

/// The task that saves the selected conversation, if the store is open and a
/// conversation is selected.
pub open spec fn save_tasks(s: StateModel) -> Seq<TaskModel> {
    if s.database_ready && s.selected is Some {
        seq![TaskModel::SaveConversation { id: s.selected->0, title: s.title, content: s.editor_text }]
    } else {
        Seq::empty()
    }
}

/// The task that refreshes both lists, if the store is open.
pub open spec fn refresh_tasks(s: StateModel) -> Seq<TaskModel> {
    if s.database_ready {
        seq![TaskModel::RefreshLists]
    } else {
        Seq::empty()
    }
}

/// The state with no conversation loaded: nothing selected, title `Untitled`,
/// an empty editor, rendering and lint list.
pub open spec fn cleared(s: StateModel) -> StateModel {
    StateModel {
        selected: None,
        title: "Untitled"@,
        editor_text: Seq::empty(),
        markdown_source: Seq::empty(),
        lints: Seq::empty(),
        last_checked: Seq::empty(),
        ..s
    }
}

/// The state and effects after putting `content` into the editor: the editor,
/// the rendering and the checked text become `content`; the editor is rebuilt,
/// the cursor re-read and `content` linted at once.
pub open spec fn set_content(s: StateModel, content: Seq<char>) -> (StateModel, EffectsModel) {
    (
        StateModel { editor_text: content, markdown_source: content, last_checked: content, ..s },
        EffectsModel {
            tasks: Seq::empty(),
            reload_editor: true,
            refresh_cursor: true,
            lint_now: true,
            run_auto_fix: false,
        },
    )
}

/// The title of the `n`-th conversation made without a store.
pub open spec fn numbered_title(n: nat) -> Seq<char> {
    "New Conversation "@ + decimal_digits(n)
}

/// A new conversation: with a store open, one is created there and the lists
/// refreshed; without, a conversation numbered one past the list's length is put
/// first, selected, and opened with an empty editor.
pub open spec fn new_conversation(s: StateModel) -> (StateModel, EffectsModel) {
    if s.database_ready {
        (s, only_tasks(seq![TaskModel::CreateConversation { title: "New Conversation"@, content: Seq::empty() }]))
    } else {
        let n = (s.conversations.len() + 1) as nat;
        let c = ConversationModel { id: n as i64, title: numbered_title(n), preview: "Start writing..."@ };
        (
            StateModel {
                conversations: seq![c] + s.conversations,
                selected: Some(n as i64),
                title: numbered_title(n),
                editor_text: Seq::empty(),
                ..s
            },
            EffectsModel {
                tasks: Seq::empty(),
                reload_editor: true,
                refresh_cursor: false,
                lint_now: false,
                run_auto_fix: false,
            },
        )
    }
}

/// The state and effects after a key press: repeats are ignored; Escape closes
/// the shortcut help; without the primary modifier nothing happens; with it,
/// K toggles the help, F opens the sidebar and focuses the search, 1/2/3 pick
/// the raw, split or rendered view, B toggles the sidebar (with Shift the
/// issues panel), N starts a new conversation. Each shortcut first removes the
/// character it may have typed into the search field or the title.
pub open spec fn key_step(s: StateModel, k: KeyPress) -> (StateModel, EffectsModel) {
    if k.repeat {
        (s, no_effects())
    } else if s.help_open && k.escape {
        (StateModel { help_open: false, ..s }, no_effects())
    } else if !(k.modifiers.logo || k.modifiers.control) {
        (s, no_effects())
    } else if is_help_key(k.latin, k.physical) {
        let s1 = without_artifact(s, 'k');
        (StateModel { help_open: !s1.help_open, ..s1 }, no_effects())
    } else {
        match k.latin {
            Some(ch) => {
                let c = ascii_lower(ch);
                if c == 'f' {
                    (StateModel { sidebar_collapsed: false, ..without_artifact(s, c) }, only_tasks(seq![TaskModel::FocusSearch]))
                } else if c == '1' {
                    (StateModel { view_mode: ViewMode::RawCode, ..without_artifact(s, c) }, no_effects())
                } else if c == '2' {
                    (StateModel { view_mode: ViewMode::BothViews, ..without_artifact(s, c) }, no_effects())
                } else if c == '3' {
                    (StateModel { view_mode: ViewMode::RenderedView, ..without_artifact(s, c) }, no_effects())
                } else if c == 'b' {
                    let s1 = without_artifact(s, c);
                    if k.modifiers.shift {
                        (StateModel { errors_panel_collapsed: !s1.errors_panel_collapsed, ..s1 }, no_effects())
                    } else {
                        (StateModel { sidebar_collapsed: !s1.sidebar_collapsed, ..s1 }, no_effects())
                    }
                } else if c == 'n' {
                    new_conversation(without_artifact(s, c))
                } else {
                    (s, no_effects())
                }
            },
            None => {
                if k.physical == PhysicalKey::Digit1 {
                    (StateModel { view_mode: ViewMode::RawCode, ..without_artifact(s, '1') }, no_effects())
                } else if k.physical == PhysicalKey::Digit2 {
                    (StateModel { view_mode: ViewMode::BothViews, ..without_artifact(s, '2') }, no_effects())
                } else if k.physical == PhysicalKey::Digit3 {
                    (StateModel { view_mode: ViewMode::RenderedView, ..without_artifact(s, '3') }, no_effects())
                } else {
                    (s, no_effects())
                }
            },
        }
    }
}

/// The sidebar entry of a stored conversation: its id, title and preview.
pub open spec fn entry_of(d: ConversationDataModel) -> ConversationModel {
    ConversationModel { id: d.id, title: d.title, preview: preview_of(d.content) }
}

/// The selection after a list is reloaded: the previous selection if the list
/// still holds it, else the first conversation of the list, else none.
pub open spec fn reselect(had: Option<i64>, list: Seq<ConversationModel>) -> Option<i64> {
    match had {
        Some(id) if has_id(list, id) => Some(id),
        _ => if list.len() > 0 {
            Some(list[0].id)
        } else {
            None
        },
    }
}

/// The state and effects after the active list was reloaded with `data`.
pub open spec fn active_loaded(s: StateModel, data: Seq<ConversationDataModel>) -> (StateModel, EffectsModel) {
    let list = data.map_values(|d: ConversationDataModel| entry_of(d));
    let s1 = StateModel { conversations: list, ..s };
    if !s.in_trash {
        let sel = reselect(s.selected, list);
        let s2 = StateModel { selected: sel, ..s1 };
        (s2, only_tasks(if sel is Some { load_tasks(s2, sel->0) } else { Seq::empty() }))
    } else {
        (s1, no_effects())
    }
}

/// The state and effects after the trash list was reloaded with `data`.
pub open spec fn trash_loaded(s: StateModel, data: Seq<ConversationDataModel>) -> (StateModel, EffectsModel) {
    let list = data.map_values(|d: ConversationDataModel| entry_of(d));
    let s1 = StateModel { trashed: list, ..s };
    if s.in_trash {
        let sel = reselect(s.selected, list);
        let s2 = StateModel { selected: sel, ..s1 };
        (s2, only_tasks(if sel is Some { load_tasks(s2, sel->0) } else { Seq::empty() }))
    } else {
        (s1, no_effects())
    }
}

/// The state and effects of showing a list (the trash when `trash`): the first
/// conversation of the list is selected and loaded.
pub open spec fn show_list(s: StateModel, trash: bool) -> (StateModel, EffectsModel) {
    let list = if trash { s.trashed } else { s.conversations };
    let sel = if list.len() > 0 { Some(list[0].id) } else { None };
    let s1 = StateModel { in_trash: trash, selected: sel, ..s };
    (s1, only_tasks(if sel is Some { load_tasks(s1, sel->0) } else { Seq::empty() }))
}

/// The state and effects after applying the first suggestion of lint `index` to
/// the editor's text, when that lint exists and has a suggestion.
pub open spec fn apply_one(s: StateModel, index: int) -> (StateModel, EffectsModel) {
    if 0 <= index < s.lints.len() && s.lints[index].suggestions.len() > 0 {
        let l = s.lints[index];
        set_content(s, spliced(s.editor_text, l.suggestions[0], l.start, l.end))
    } else {
        (s, no_effects())
    }
}

/// Whether a message can be handled without leaving memory's bounds: a lint's
/// suggestion must fit the editor's text, the cursor's position and the number
/// of a conversation made without a store must not overflow.
pub open spec fn message_allowed(s: StateModel, m: MessageModel) -> bool {
    match m {
        MessageModel::ApplyLintSuggestion(index) => 0 <= index < s.lints.len()
            && s.lints[index].suggestions.len() > 0 ==> 0 <= s.lints[index].start <= s.lints[index].end
            <= s.editor_text.len(),
        MessageModel::EditorEdited { line, column, .. } => line < usize::MAX && column < usize::MAX,
        MessageModel::CursorRefreshed { line, column } => line < usize::MAX && column < usize::MAX,
        MessageModel::NewConversation | MessageModel::KeyPressed(_) => !s.database_ready ==> s.conversations.len()
            < usize::MAX,
        _ => true,
    }
}

/// The state and effects after a message: what the desktop application does with it.
pub open spec fn step(s: StateModel, m: MessageModel) -> (StateModel, EffectsModel) {
    match m {
        MessageModel::KeyPressed(k) => key_step(s, k),
        MessageModel::OtherKeyboardEvent => (s, no_effects()),
        MessageModel::SearchChanged(q) => (StateModel { search_query: q, ..s }, no_effects()),
        MessageModel::TitleChanged(t) => (propagate_title(StateModel { title: t, ..s }), no_effects()),
        MessageModel::SaveTitle => (s, only_tasks(save_tasks(s))),
        MessageModel::ConversationSelected(id) => {
            let s1 = StateModel { selected: Some(id), in_trash: has_id(s.trashed, id), ..s };
            (s1, only_tasks(save_tasks(s) + load_tasks(s1, id)))
        },
        MessageModel::NewConversation => new_conversation(s),
        MessageModel::ShowConversations => show_list(s, false),
        MessageModel::ShowTrash => show_list(s, true),
        MessageModel::MoveConversationToTrash(id) => if s.database_ready {
            (if s.selected == Some(id) { cleared(s) } else { s }, EffectsModel {
                tasks: seq![TaskModel::TrashConversation(id)],
                reload_editor: s.selected == Some(id),
                refresh_cursor: false,
                lint_now: false,
                run_auto_fix: false,
            })
        } else {
            (s, no_effects())
        },
        MessageModel::RestoreConversation(id) => if s.database_ready {
            (s, only_tasks(seq![TaskModel::RestoreConversation(id)]))
        } else {
            (s, no_effects())
        },
        MessageModel::DeleteConversationPermanently(id) => if s.database_ready {
            (if s.selected == Some(id) { cleared(s) } else { s }, EffectsModel {
                tasks: seq![TaskModel::DeleteConversation(id)],
                reload_editor: s.selected == Some(id),
                refresh_cursor: false,
                lint_now: false,
                run_auto_fix: false,
            })
        } else {
            (s, no_effects())
        },
        MessageModel::ApplyLintSuggestion(index) => apply_one(s, index),
        MessageModel::ApplyAllSuggestions => (s, EffectsModel { run_auto_fix: true, ..no_effects() }),
        MessageModel::SuggestionsApplied(content) => set_content(s, content),
        MessageModel::EditorEdited { text, line, column } => {
            let changed = text != s.last_checked;
            (
                StateModel {
                    editor_text: text,
                    markdown_source: if changed { text } else { s.markdown_source },
                    last_checked: if changed { text } else { s.last_checked },
                    cursor: (line + 1, column + 1),
                    ..s
                },
                EffectsModel { lint_now: changed, ..no_effects() },
            )
        },
        MessageModel::CursorRefreshed { line, column } => (StateModel { cursor: (line + 1, column + 1), ..s }, no_effects()),
        MessageModel::ToggleSidebar => (StateModel { sidebar_collapsed: !s.sidebar_collapsed, ..s }, no_effects()),
        MessageModel::SetViewMode(mode) => (StateModel { view_mode: mode, ..s }, no_effects()),
        MessageModel::MarkdownLinkClicked => (s, no_effects()),
        MessageModel::ToggleErrorsPanel => (
            StateModel { errors_panel_collapsed: !s.errors_panel_collapsed, ..s },
            no_effects(),
        ),
        MessageModel::ToggleShortcutsHelp => (StateModel { help_open: !s.help_open, ..s }, no_effects()),
        MessageModel::CloseShortcutsHelp => (StateModel { help_open: false, ..s }, no_effects()),
        MessageModel::DatabaseInitialized => {
            let s1 = StateModel { database_ready: true, ..s };
            (s1, only_tasks(refresh_tasks(s1)))
        },
        MessageModel::ConversationsLoaded(data) => active_loaded(s, data),
        MessageModel::TrashedConversationsLoaded(data) => trash_loaded(s, data),
        MessageModel::ConversationDataLoaded(d) => (
            StateModel { title: d.title, editor_text: d.content, markdown_source: d.content, last_checked: d.content, ..s },
            EffectsModel {
                tasks: seq![TaskModel::CheckGrammar(d.content)],
                reload_editor: true,
                refresh_cursor: false,
                lint_now: false,
                run_auto_fix: false,
            },
        ),
        MessageModel::RefreshLists => (s, only_tasks(refresh_tasks(s))),
        MessageModel::GrammarChecked { content, lints } => if s.last_checked == content {
            (StateModel { lints, ..s }, no_effects())
        } else {
            (s, no_effects())
        },
        MessageModel::ConversationSaved => (s, no_effects()),
        MessageModel::Noop => (s, no_effects()),
    }
}


fn no_effect() -> (e: Effects)
    ensures
        e@ == no_effects(),
{
    let e = Effects {
        tasks: Vec::new(),
        reload_editor: false,
        refresh_cursor: false,
        lint_now: false,
        run_auto_fix: false,
    };
    assert(e@.tasks =~= Seq::<TaskModel>::empty());
    e
}

fn task_effect(t: Task) -> (e: Effects)
    ensures
        e@ == only_tasks(seq![t@]),
{
    let mut tasks: Vec<Task> = Vec::new();
    tasks.push(t);
    let e = Effects { tasks, reload_editor: false, refresh_cursor: false, lint_now: false, run_auto_fix: false };
    assert(e@.tasks =~= seq![t@]);
    e
}

fn copy_string(s: &String) -> (r: String)
    ensures
        r@ == s@,
{
    s.clone()
}

/// Renames the first conversation with id `id` in `list` (if any).
fn retitle_first(list: &mut Vec<Conversation>, id: i64, title: &String)
    ensures
        conversation_models(final(list)@) == retitle(conversation_models(old(list)@), id, title@),
{
    let ghost ms = conversation_models(list@);
    let mut i: usize = 0;
    while i < list.len() && list[i].id != id
        invariant
            i <= list@.len(),
            ms == conversation_models(list@),
            forall|k: int| 0 <= k < i ==> #[trigger] ms[k].id != id,
        decreases list@.len() - i,
    {
        i = i + 1;
    }
    if i < list.len() {
        assert(is_first_with_id(ms, id, i as int));
        let ghost w = choose|w: int| is_first_with_id(ms, id, w);
        assert(w == i) by {
            if w < i {
                assert(ms[w].id != id);
            } else if w > i {
                assert(ms[i as int].id != id);
            }
        }
        list[i].title = copy_string(title);
        assert(conversation_models(list@) =~= ms.update(i as int, ConversationModel { title: title@, ..ms[i as int] }));
    } else {
        assert(!exists|w: int| is_first_with_id(ms, id, w)) by {
            if exists|w: int| is_first_with_id(ms, id, w) {
                let w = choose|w: int| is_first_with_id(ms, id, w);
                assert(ms[w].id != id);
            }
        }
    }
}

/// Whether `list` holds a conversation with id `id`.
fn list_has_id(list: &Vec<Conversation>, id: i64) -> (r: bool)
    ensures
        r == has_id(conversation_models(list@), id),
{
    let ghost ms = conversation_models(list@);
    let mut i: usize = 0;
    while i < list.len()
        invariant
            i <= list@.len(),
            ms == conversation_models(list@),
            forall|k: int| 0 <= k < i ==> #[trigger] ms[k].id != id,
        decreases list@.len() - i,
    {
        if list[i].id == id {
            assert(ms[i as int].id == id);
            return true;
        }
        i = i + 1;
    }
    false
}

impl Default for DesktopState {
    /// The state in which the application starts (see [`initial_state`]).
    fn default() -> (s: DesktopState)
        ensures
            s@ == initial_state(),
    {
        DesktopState::new()
    }
}

impl DesktopState {
    /// The state in which the application starts (see [`initial_state`]).
    pub fn new() -> (s: DesktopState)
        ensures
            s@ == initial_state(),
    {
        let welcome = "# Welcome to Aella\n\nStart typing to check your grammar in real-time.\n\nThis is a markdown editor with built-in grammar checking powered by Harper.";
        let s = DesktopState {
            search_query: String::new(),
            conversations: Vec::new(),
            trashed_conversations: Vec::new(),
            selected_conversation: None,
            selected_in_trash: false,
            current_title: String::from_str("Untitled"),
            editor_text: String::from_str(welcome),
            sidebar_collapsed: false,
            grammar_lints: Vec::new(),
            view_mode: ViewMode::BothViews,
            markdown_source: String::from_str(welcome),
            cursor_position: (1, 1),
            errors_panel_collapsed: false,
            database_ready: false,
            last_checked_text: String::from_str(welcome),
            shortcuts_help_open: false,
        };
        assert(s@.conversations =~= Seq::<ConversationModel>::empty());
        assert(s@.trashed =~= Seq::<ConversationModel>::empty());
        assert(s@.lints =~= Seq::<LintModel>::empty());
        s
    }

    /// Puts the current title on the selected conversation's list entry.
    fn propagate_current_title(&mut self)
        ensures
            final(self)@ == propagate_title(old(self)@),
    {
        match self.selected_conversation {
            Some(id) => {
                if self.selected_in_trash {
                    retitle_first(&mut self.trashed_conversations, id, &self.current_title);
                } else {
                    retitle_first(&mut self.conversations, id, &self.current_title);
                }
            },
            None => {},
        }
    }

    /// Removes the character that shortcut `c` typed (see [`without_artifact`]).
    fn remove_shortcut_text_input_artifact(&mut self, c: char)
        ensures
            final(self)@ == without_artifact(old(self)@, c),
    {
        let changed_search = crate::ui_text::strip_trailing_shortcut_char(&mut self.search_query, c);
        let changed_title = crate::ui_text::strip_trailing_shortcut_char(&mut self.current_title, c);
        if changed_search || !changed_title {
            return;
        }
        self.propagate_current_title();
    }

    fn load_effects(&self, id: i64) -> (e: Effects)
        ensures
            e@ == only_tasks(load_tasks(self@, id)),
    {
        if self.database_ready {
            task_effect(Task::LoadConversation(id))
        } else {
            no_effect()
        }
    }

    fn save_task_list(&self) -> (tasks: Vec<Task>)
        ensures
            tasks@.map_values(|t: Task| t@) == save_tasks(self@),
    {
        let mut tasks: Vec<Task> = Vec::new();
        if self.database_ready {
            match self.selected_conversation {
                Some(id) => {
                    tasks.push(Task::SaveConversation {
                        id,
                        title: copy_string(&self.current_title),
                        content: copy_string(&self.editor_text),
                    });
                },
                None => {},
            }
        }
        assert(tasks@.map_values(|t: Task| t@) =~= save_tasks(self@));
        tasks
    }

    fn refresh_effects(&self) -> (e: Effects)
        ensures
            e@ == only_tasks(refresh_tasks(self@)),
    {
        if self.database_ready {
            task_effect(Task::RefreshLists)
        } else {
            no_effect()
        }
    }

    fn clear_loaded_conversation(&mut self)
        ensures
            final(self)@ == cleared(old(self)@),
    {
        self.selected_conversation = None;
        self.current_title = String::from_str("Untitled");
        self.editor_text = String::new();
        self.markdown_source = String::new();
        self.grammar_lints = Vec::new();
        self.last_checked_text = String::new();
        assert(self@.lints =~= Seq::<LintModel>::empty());
    }

    fn set_content_and_relint(&mut self, content: String) -> (e: Effects)
        ensures
            (final(self)@, e@) == set_content(old(self)@, content@),
    {
        self.editor_text = copy_string(&content);
        self.markdown_source = copy_string(&content);
        self.last_checked_text = content;
        let e = Effects {
            tasks: Vec::new(),
            reload_editor: true,
            refresh_cursor: true,
            lint_now: true,
            run_auto_fix: false,
        };
        assert(e@.tasks =~= Seq::<TaskModel>::empty());
        e
    }

    fn new_conversation(&mut self) -> (e: Effects)
        requires
            !old(self)@.database_ready ==> old(self)@.conversations.len() < usize::MAX,
        ensures
            (final(self)@, e@) == new_conversation(old(self)@),
    {
        if self.database_ready {
            return task_effect(Task::CreateConversation {
                title: String::from_str("New Conversation"),
                content: String::new(),
            });
        }
        let n: usize = self.conversations.len() + 1;
        let mut title = String::from_str("New Conversation ");
        crate::cli::push_digits(&mut title, n as u64);
        let ghost old_list = conversation_models(self.conversations@);
        let c = Conversation {
            id: n as i64,
            title: copy_string(&title),
            preview: String::from_str("Start writing..."),
        };
        self.conversations.insert(0, c);
        assert(conversation_models(self.conversations@) =~= seq![c@] + old_list);
        self.selected_conversation = Some(n as i64);
        self.current_title = title;
        self.editor_text = String::new();
        let e = Effects {
            tasks: Vec::new(),
            reload_editor: true,
            refresh_cursor: false,
            lint_now: false,
            run_auto_fix: false,
        };
        assert(e@.tasks =~= Seq::<TaskModel>::empty());
        e
    }

    fn show_list(&mut self, trash: bool) -> (e: Effects)
        ensures
            (final(self)@, e@) == show_list(old(self)@, trash),
    {
        self.selected_in_trash = trash;
        let first = if trash {
            if self.trashed_conversations.len() > 0 {
                Some(self.trashed_conversations[0].id)
            } else {
                None
            }
        } else {
            if self.conversations.len() > 0 {
                Some(self.conversations[0].id)
            } else {
                None
            }
        };
        self.selected_conversation = first;
        match first {
            Some(id) => self.load_effects(id),
            None => no_effect(),
        }
    }

    fn list_loaded(&mut self, data: Vec<ConversationData>, trash: bool) -> (e: Effects)
        ensures
            (final(self)@, e@) == (if trash {
                trash_loaded(old(self)@, data_models(data@))
            } else {
                active_loaded(old(self)@, data_models(data@))
            }),
    {
        let had = self.selected_conversation;
        let mut list: Vec<Conversation> = Vec::new();
        let mut i: usize = 0;
        let ghost target = data_models(data@).map_values(|d: ConversationDataModel| entry_of(d));
        while i < data.len()
            invariant
                i <= data@.len(),
                target == data_models(data@).map_values(|d: ConversationDataModel| entry_of(d)),
                conversation_models(list@) == target.take(i as int),
            decreases data@.len() - i,
        {
            let d = &data[i];
            let c = Conversation {
                id: d.id,
                title: copy_string(&d.title),
                preview: crate::ui_text::preview(d.content.as_str()),
            };
            let ghost before = conversation_models(list@);
            assert(data_models(data@)[i as int] == data_model(data@[i as int]));
            assert(target[i as int] == c@);
            list.push(c);
            assert(conversation_models(list@) =~= before.push(c@));
            assert(target.take(i + 1) =~= target.take(i as int).push(target[i as int]));
            i = i + 1;
        }
        assert(target.take(data@.len() as int) =~= target);
        let showing = if trash { self.selected_in_trash } else { !self.selected_in_trash };
        let keep = match had {
            Some(id) => list_has_id(&list, id),
            None => false,
        };
        let first = if list.len() > 0 { Some(list[0].id) } else { None };
        if trash {
            self.trashed_conversations = list;
        } else {
            self.conversations = list;
        }
        if !showing {
            return no_effect();
        }
        let sel = if keep { had } else { first };
        self.selected_conversation = sel;
        match sel {
            Some(id) => self.load_effects(id),
            None => no_effect(),
        }
    }

    fn handle_key(&mut self, k: KeyPress) -> (e: Effects)
        requires
            !old(self)@.database_ready ==> old(self)@.conversations.len() < usize::MAX,
        ensures
            (final(self)@, e@) == key_step(old(self)@, k),
    {
        if k.repeat {
            return no_effect();
        }
        if self.shortcuts_help_open && k.escape {
            self.shortcuts_help_open = false;
            return no_effect();
        }
        if !crate::keys::primary_shortcut_modifier_pressed(k.modifiers) {
            return no_effect();
        }
        if crate::keys::is_shortcuts_help_shortcut(k.latin, k.physical) {
            self.remove_shortcut_text_input_artifact('k');
            self.shortcuts_help_open = !self.shortcuts_help_open;
            return no_effect();
        }
        match k.latin {
            Some(ch) => {
                let c = crate::ui_text::to_ascii_lower(ch);
                if c == 'f' {
                    self.remove_shortcut_text_input_artifact(c);
                    self.sidebar_collapsed = false;
                    task_effect(Task::FocusSearch)
                } else if c == '1' {
                    self.remove_shortcut_text_input_artifact(c);
                    self.view_mode = ViewMode::RawCode;
                    no_effect()
                } else if c == '2' {
                    self.remove_shortcut_text_input_artifact(c);
                    self.view_mode = ViewMode::BothViews;
                    no_effect()
                } else if c == '3' {
                    self.remove_shortcut_text_input_artifact(c);
                    self.view_mode = ViewMode::RenderedView;
                    no_effect()
                } else if c == 'b' {
                    self.remove_shortcut_text_input_artifact(c);
                    if k.modifiers.shift {
                        self.errors_panel_collapsed = !self.errors_panel_collapsed;
                    } else {
                        self.sidebar_collapsed = !self.sidebar_collapsed;
                    }
                    no_effect()
                } else if c == 'n' {
                    self.remove_shortcut_text_input_artifact(c);
                    self.new_conversation()
                } else {
                    no_effect()
                }
            },
            None => {
                match k.physical {
                    PhysicalKey::Digit1 => {
                        self.remove_shortcut_text_input_artifact('1');
                        self.view_mode = ViewMode::RawCode;
                    },
                    PhysicalKey::Digit2 => {
                        self.remove_shortcut_text_input_artifact('2');
                        self.view_mode = ViewMode::BothViews;
                    },
                    PhysicalKey::Digit3 => {
                        self.remove_shortcut_text_input_artifact('3');
                        self.view_mode = ViewMode::RenderedView;
                    },
                    _ => {},
                }
                no_effect()
            },
        }
    }

    fn apply_single_suggestion(&mut self, index: usize) -> (e: Effects)
        requires
            message_allowed(old(self)@, MessageModel::ApplyLintSuggestion(index as int)),
        ensures
            (final(self)@, e@) == apply_one(old(self)@, index as int),
    {
        if index >= self.grammar_lints.len() {
            return no_effect();
        }
        if self.grammar_lints[index].suggestions.len() == 0 {
            return no_effect();
        }
        let ghost l = self@.lints[index as int];
        assert(self.grammar_lints@[index as int]@ == l);
        assert(self.grammar_lints@[index as int].suggestions@[0]@ == l.suggestions[0]);
        let mut chars = crate::text::chars_of(self.editor_text.as_str());
        let lint = &self.grammar_lints[index];
        lint.suggestions[0].apply(lint.span_start, lint.span_end, &mut chars);
        let updated = crate::text::string_from_chars(chars.as_slice());
        self.set_content_and_relint(updated)
    }

    /// Whether `message` can be handled in this state (see [`message_allowed`]).
    pub fn allows(&self, message: &Message) -> (r: bool)
        ensures
            r == message_allowed(self@, message@),
    {
        match message {
            Message::ApplyLintSuggestion(index) => {
                let i = *index;
                if i < self.grammar_lints.len() && self.grammar_lints[i].suggestions.len() > 0 {
                    let ghost l = self@.lints[i as int];
                    assert(self.grammar_lints@[i as int]@ == l);
                    let lint = &self.grammar_lints[i];
                    lint.span_start <= lint.span_end && lint.span_end <= crate::text::chars_of(
                        self.editor_text.as_str(),
                    ).len()
                } else {
                    true
                }
            },
            Message::EditorEdited { line, column, .. } => *line < usize::MAX && *column < usize::MAX,
            Message::CursorRefreshed { line, column } => *line < usize::MAX && *column < usize::MAX,
            Message::NewConversation | Message::KeyPressed(_) => self.database_ready || self.conversations.len()
                < usize::MAX,
            _ => true,
        }
    }

    /// Handles a message (see [`step`]) and reports the effects it asks for.
    #[verifier::rlimit(60)]
    #[verifier::spinoff_prover]
    pub fn update(&mut self, message: Message) -> (e: Effects)
        requires
            message_allowed(old(self)@, message@),
        ensures
            (final(self)@, e@) == step(old(self)@, message@),
    {
        match message {
            Message::KeyPressed(k) => self.handle_key(k),
            Message::OtherKeyboardEvent => no_effect(),
            Message::SearchChanged(q) => {
                self.search_query = q;
                no_effect()
            },
            Message::TitleChanged(t) => {
                self.current_title = t;
                self.propagate_current_title();
                no_effect()
            },
            Message::SaveTitle => {
                let tasks = self.save_task_list();
                Effects { tasks, reload_editor: false, refresh_cursor: false, lint_now: false, run_auto_fix: false }
            },
            Message::ConversationSelected(id) => {
                let mut tasks = self.save_task_list();
                self.selected_conversation = Some(id);
                self.selected_in_trash = list_has_id(&self.trashed_conversations, id);
                let ghost before = tasks@.map_values(|t: Task| t@);
                if self.database_ready {
                    tasks.push(Task::LoadConversation(id));
                }
                let e = Effects { tasks, reload_editor: false, refresh_cursor: false, lint_now: false, run_auto_fix: false };
                assert(e@.tasks =~= before + load_tasks(self@, id));
                e
            },
            Message::NewConversation => self.new_conversation(),
            Message::ShowConversations => self.show_list(false),
            Message::ShowTrash => self.show_list(true),
            Message::MoveConversationToTrash(id) => {
                if !self.database_ready {
                    return no_effect();
                }
                let selected = match self.selected_conversation {
                    Some(sid) => sid == id,
                    None => false,
                };
                if selected {
                    self.clear_loaded_conversation();
                }
                let mut e = task_effect(Task::TrashConversation(id));
                e.reload_editor = selected;
                e
            },
            Message::RestoreConversation(id) => {
                if !self.database_ready {
                    return no_effect();
                }
                task_effect(Task::RestoreConversation(id))
            },
            Message::DeleteConversationPermanently(id) => {
                if !self.database_ready {
                    return no_effect();
                }
                let selected = match self.selected_conversation {
                    Some(sid) => sid == id,
                    None => false,
                };
                if selected {
                    self.clear_loaded_conversation();
                }
                let mut e = task_effect(Task::DeleteConversation(id));
                e.reload_editor = selected;
                e
            },
            Message::ApplyLintSuggestion(index) => self.apply_single_suggestion(index),
            Message::ApplyAllSuggestions => {
                let mut e = no_effect();
                e.run_auto_fix = true;
                e
            },
            Message::SuggestionsApplied(content) => self.set_content_and_relint(content),
            Message::EditorEdited { text, line, column } => {
                let changed = !(text == self.last_checked_text);
                if changed {
                    self.markdown_source = copy_string(&text);
                    self.last_checked_text = copy_string(&text);
                }
                self.editor_text = text;
                self.cursor_position = (line + 1, column + 1);
                let mut e = no_effect();
                e.lint_now = changed;
                e
            },
            Message::CursorRefreshed { line, column } => {
                self.cursor_position = (line + 1, column + 1);
                no_effect()
            },
            Message::ToggleSidebar => {
                self.sidebar_collapsed = !self.sidebar_collapsed;
                no_effect()
            },
            Message::SetViewMode(mode) => {
                self.view_mode = mode;
                no_effect()
            },
            Message::MarkdownLinkClicked => no_effect(),
            Message::ToggleErrorsPanel => {
                self.errors_panel_collapsed = !self.errors_panel_collapsed;
                no_effect()
            },
            Message::ToggleShortcutsHelp => {
                self.shortcuts_help_open = !self.shortcuts_help_open;
                no_effect()
            },
            Message::CloseShortcutsHelp => {
                self.shortcuts_help_open = false;
                no_effect()
            },
            Message::DatabaseInitialized => {
                self.database_ready = true;
                self.refresh_effects()
            },
            Message::ConversationsLoaded(data) => self.list_loaded(data, false),
            Message::TrashedConversationsLoaded(data) => self.list_loaded(data, true),
            Message::ConversationDataLoaded(d) => {
                self.current_title = d.title;
                self.editor_text = copy_string(&d.content);
                self.markdown_source = copy_string(&d.content);
                self.last_checked_text = copy_string(&d.content);
                let mut e = task_effect(Task::CheckGrammar(d.content));
                e.reload_editor = true;
                e
            },
            Message::RefreshLists => self.refresh_effects(),
            Message::GrammarChecked { content, lints } => {
                if self.last_checked_text == content {
                    self.grammar_lints = lints;
                }
                no_effect()
            },
            Message::ConversationSaved => no_effect(),
            Message::Noop => no_effect(),
        }
    }
}

} // verus!
