use vstd::prelude::*;

use crate::desktop::{
    has_id, key_step, no_effects, numbered_title, reselect, save_tasks, step, ConversationDataModel,
    ConversationModel, MessageModel, StateModel, TaskModel, ViewMode, entry_of, without_artifact,
};
use crate::keys::{is_app_shortcut, KeyPress, Modifiers, PhysicalKey};
use crate::lint::LintModel;

verus! {

/// Toggling the sidebar, the issues panel or the shortcut help twice gives back
/// the state it started from.
pub proof fn law_toggles_undo(s: StateModel)
    ensures
        step(step(s, MessageModel::ToggleSidebar).0, MessageModel::ToggleSidebar).0 == s,
        step(step(s, MessageModel::ToggleErrorsPanel).0, MessageModel::ToggleErrorsPanel).0 == s,
        step(step(s, MessageModel::ToggleShortcutsHelp).0, MessageModel::ToggleShortcutsHelp).0 == s,
        step(s, MessageModel::ToggleSidebar).1 == no_effects(),
{
}

/// Grammar results are kept only for the text they were computed for: lints for
/// any other text leave the state as it was; lints for the last checked text
/// replace the current ones.
pub proof fn law_stale_lints_ignored(s: StateModel, content: Seq<char>, lints: Seq<LintModel>)
    ensures
        content != s.last_checked ==> step(s, (MessageModel::GrammarChecked { content, lints })).0 == s,
        content == s.last_checked ==> step(s, (MessageModel::GrammarChecked { content, lints })).0 == (StateModel {
            lints,
            ..s
        }),
{
}

/// After the shown list is reloaded, the selection is kept if the new list still
/// holds it; otherwise it moves to the list's first conversation; it is empty
/// only when the list is.
pub proof fn law_reload_keeps_selection(s: StateModel, data: Seq<ConversationDataModel>)
    requires
        !s.in_trash,
    ensures
        ({
            let list = data.map_values(|d: ConversationDataModel| entry_of(d));
            let after = step(s, MessageModel::ConversationsLoaded(data)).0;
            &&& after.conversations == list
            &&& (after.selected is None <==> list.len() == 0)
            &&& after.selected is Some ==> has_id(list, after.selected->0)
            &&& (s.selected is Some && has_id(list, s.selected->0)) ==> after.selected == s.selected
        }),
{
    let list = data.map_values(|d: ConversationDataModel| entry_of(d));
    let sel = reselect(s.selected, list);
    if list.len() > 0 {
        assert(list[0].id == list[0].id);
    }
}

/// Automatically repeated key presses do nothing.
pub proof fn law_repeats_ignored(s: StateModel, k: KeyPress)
    requires
        k.repeat,
    ensures
        step(s, MessageModel::KeyPressed(k)) == (s, no_effects()),
{
}

/// The primary modifier with 1, 2 or 3 picks the raw, split or rendered view,
/// after removing the digit the key may have typed into the search field or the
/// title.
pub proof fn law_view_shortcuts(s: StateModel, modifiers: Modifiers, physical: PhysicalKey)
    requires
        modifiers.logo || modifiers.control,
        physical != PhysicalKey::KeyK,
    ensures
        ({
            let k = |c: char| KeyPress { latin: Some(c), escape: false, physical, modifiers, repeat: false };
            &&& step(s, MessageModel::KeyPressed(k('1'))).0 == StateModel {
                view_mode: ViewMode::RawCode,
                ..without_artifact(s, '1')
            }
            &&& step(s, MessageModel::KeyPressed(k('2'))).0 == StateModel {
                view_mode: ViewMode::BothViews,
                ..without_artifact(s, '2')
            }
            &&& step(s, MessageModel::KeyPressed(k('3'))).0 == StateModel {
                view_mode: ViewMode::RenderedView,
                ..without_artifact(s, '3')
            }
        }),
{
}

/// After an edit the checked text is the editor's text, and the text is linted
/// again exactly when it changed.
pub proof fn law_edit_keeps_lints_current(s: StateModel, text: Seq<char>, line: int, column: int)
    ensures
        step(s, (MessageModel::EditorEdited { text, line, column })).0.last_checked == text,
        step(s, (MessageModel::EditorEdited { text, line, column })).0.editor_text == text,
        step(s, (MessageModel::EditorEdited { text, line, column })).1.lint_now == (text != s.last_checked),
{
}

/// Without a store, a new conversation numbered one past the list's length is
/// put first in the list, selected, and opened with an empty editor.
pub proof fn law_new_conversation_offline(s: StateModel)
    requires
        !s.database_ready,
    ensures
        ({
            let n = (s.conversations.len() + 1) as nat;
            let after = step(s, MessageModel::NewConversation).0;
            &&& after.conversations.len() == s.conversations.len() + 1
            &&& after.conversations[0].id == n as i64
            &&& after.conversations[0].title == numbered_title(n)
            &&& after.conversations.skip(1) == s.conversations
            &&& after.selected == Some(n as i64)
            &&& after.title == numbered_title(n)
            &&& after.editor_text.len() == 0
        }),
{
    let n = (s.conversations.len() + 1) as nat;
    let c = ConversationModel { id: n as i64, title: numbered_title(n), preview: "Start writing..."@ };
    assert((seq![c] + s.conversations).skip(1) =~= s.conversations);
}

/// Selecting a conversation first saves the one that was open (with the store
/// open and something selected), then loads the new one.
pub proof fn law_select_saves_first(s: StateModel, id: i64)
    requires
        s.database_ready,
    ensures
        step(s, MessageModel::ConversationSelected(id)).1.tasks == save_tasks(s) + seq![TaskModel::LoadConversation(id)],
        step(s, MessageModel::ConversationSelected(id)).0.selected == Some(id),
        step(s, MessageModel::ConversationSelected(id)).0.in_trash == has_id(s.trashed, id),
{
}

/// The editor and the window agree on the shortcuts: a key press that the text
/// editor keeps for itself (it is no application shortcut) does nothing to the
/// state, unless it is Escape while the shortcut help is open or it comes from
/// the physical K key.
pub proof fn law_editor_keys_leave_state(s: StateModel, k: KeyPress)
    requires
        !is_app_shortcut(k),
        !(s.help_open && k.escape),
        k.physical != PhysicalKey::KeyK,
    ensures
        step(s, MessageModel::KeyPressed(k)) == (s, no_effects()),
{
}

} // verus!
