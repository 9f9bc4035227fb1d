use vstd::prelude::*;

use crate::desktop::{
    step, ConversationDataModel, ConversationModel, EffectsModel, MessageModel, StateModel, TaskModel, ViewMode,
};
use crate::lint::{LintModel, SuggestionModel};
use crate::ui_text::preview_of;

verus! {

/// Effects that ask only for `tasks`, with nothing to do at once.
pub open spec fn tasks_only(tasks: Seq<TaskModel>) -> EffectsModel {
    EffectsModel { tasks, reload_editor: false, refresh_cursor: false, lint_now: false, run_auto_fix: false }
}

/// Saving the title: with the store open and a conversation selected, the
/// state stays as it is and exactly one task stores that conversation under
/// the current title with the editor's text; otherwise nothing happens.
pub proof fn law_save_title_stores_open_conversation(s: StateModel)
    ensures
        step(s, MessageModel::SaveTitle).0 == s,
        (s.database_ready && s.selected is Some) ==> step(s, MessageModel::SaveTitle).1 == tasks_only(
            seq![TaskModel::SaveConversation { id: s.selected->0, title: s.title, content: s.editor_text }],
        ),
        !(s.database_ready && s.selected is Some) ==> step(s, MessageModel::SaveTitle).1 == tasks_only(
            Seq::empty(),
        ),
{
}

/// Selecting conversation `id` selects it (in the trash exactly when the trash
/// list holds it). With the store open it first stores the conversation that
/// was open, if any, under its title with the editor's text, and then loads
/// `id`; without the store it asks for nothing.
pub proof fn law_select_saves_then_loads(s: StateModel, id: i64)
    ensures
        step(s, MessageModel::ConversationSelected(id)).0 == (StateModel {
            selected: Some(id),
            in_trash: exists|i: int| 0 <= i < s.trashed.len() && #[trigger] s.trashed[i].id == id,
            ..s
        }),
        step(s, MessageModel::ConversationSelected(id)).1 == tasks_only(
            if !s.database_ready {
                Seq::empty()
            } else if s.selected is Some {
                seq![
                    TaskModel::SaveConversation { id: s.selected->0, title: s.title, content: s.editor_text },
                    TaskModel::LoadConversation(id),
                ]
            } else {
                seq![TaskModel::LoadConversation(id)]
            },
        ),
{
    if s.database_ready {
        if s.selected is Some {
            assert(seq![
                TaskModel::SaveConversation { id: s.selected->0, title: s.title, content: s.editor_text },
            ] + seq![TaskModel::LoadConversation(id)] =~= seq![
                TaskModel::SaveConversation { id: s.selected->0, title: s.title, content: s.editor_text },
                TaskModel::LoadConversation(id),
            ]);
        } else {
            assert(Seq::<TaskModel>::empty() + seq![TaskModel::LoadConversation(id)] =~= seq![
                TaskModel::LoadConversation(id),
            ]);
        }
    } else {
        assert(Seq::<TaskModel>::empty() + Seq::<TaskModel>::empty() =~= Seq::<TaskModel>::empty());
    }
}

/// Opening stored conversation `d`: the title, the editor's text, the
/// rendering and the checked text become `d`'s; the editor is rebuilt; and
/// exactly one task checks the grammar of `d`'s text.
pub proof fn law_loaded_conversation_is_checked(s: StateModel, d: ConversationDataModel)
    ensures
        step(s, MessageModel::ConversationDataLoaded(d)).0 == (StateModel {
            title: d.title,
            editor_text: d.content,
            markdown_source: d.content,
            last_checked: d.content,
            ..s
        }),
        step(s, MessageModel::ConversationDataLoaded(d)).1 == (EffectsModel {
            tasks: seq![TaskModel::CheckGrammar(d.content)],
            reload_editor: true,
            refresh_cursor: false,
            lint_now: false,
            run_auto_fix: false,
        }),
{
}

/// Showing the trash switches to it and selects its first conversation (none
/// when it is empty); with the store open that conversation is loaded, by
/// exactly one task, and nothing else is asked for.
pub proof fn law_show_trash_opens_first(s: StateModel)
    ensures
        step(s, MessageModel::ShowTrash).0 == (StateModel {
            in_trash: true,
            selected: if s.trashed.len() > 0 {
                Some(s.trashed[0].id)
            } else {
                None
            },
            ..s
        }),
        step(s, MessageModel::ShowTrash).1 == tasks_only(
            if s.database_ready && s.trashed.len() > 0 {
                seq![TaskModel::LoadConversation(s.trashed[0].id)]
            } else {
                Seq::empty()
            },
        ),
{
}

/// Showing the conversations switches away from the trash and selects the
/// first conversation (none when there is none); with the store open it is
/// loaded, by exactly one task, and nothing else is asked for.
pub proof fn law_show_conversations_opens_first(s: StateModel)
    ensures
        step(s, MessageModel::ShowConversations).0 == (StateModel {
            in_trash: false,
            selected: if s.conversations.len() > 0 {
                Some(s.conversations[0].id)
            } else {
                None
            },
            ..s
        }),
        step(s, MessageModel::ShowConversations).1 == tasks_only(
            if s.database_ready && s.conversations.len() > 0 {
                seq![TaskModel::LoadConversation(s.conversations[0].id)]
            } else {
                Seq::empty()
            },
        ),
{
}

/// Opening the store marks it open and asks for both lists once; asking to
/// refresh the lists does so only with the store open.
pub proof fn law_store_opening_refreshes(s: StateModel)
    ensures
        step(s, MessageModel::DatabaseInitialized).0 == (StateModel { database_ready: true, ..s }),
        step(s, MessageModel::DatabaseInitialized).1 == tasks_only(seq![TaskModel::RefreshLists]),
        step(s, MessageModel::RefreshLists).0 == s,
        step(s, MessageModel::RefreshLists).1 == tasks_only(
            if s.database_ready {
                seq![TaskModel::RefreshLists]
            } else {
                Seq::empty()
            },
        ),
{
}

/// With the store open, a new conversation is created there (titled `New
/// Conversation`, empty) by exactly one task, and the state stays as it is.
pub proof fn law_new_conversation_with_store(s: StateModel)
    requires
        s.database_ready,
    ensures
        step(s, MessageModel::NewConversation).0 == s,
        step(s, MessageModel::NewConversation).1 == tasks_only(
            seq![TaskModel::CreateConversation { title: "New Conversation"@, content: Seq::empty() }],
        ),
{
}

/// The state after the open conversation `s.selected == Some(id)` is closed:
/// nothing selected, title `Untitled`, and an empty editor, rendering, checked
/// text and lint list.
pub open spec fn closed_open_conversation(s: StateModel) -> StateModel {
    StateModel {
        selected: None,
        title: "Untitled"@,
        editor_text: Seq::empty(),
        markdown_source: Seq::empty(),
        last_checked: Seq::empty(),
        lints: Seq::empty(),
        ..s
    }
}

/// Moving a conversation to the trash, restoring it or deleting it asks the
/// store for exactly that, once, when it is open, and does nothing otherwise.
/// Trashing or deleting the open conversation closes it and rebuilds the
/// editor; any other conversation leaves the state as it is.
pub proof fn law_trash_restore_delete(s: StateModel, id: i64)
    ensures
        !s.database_ready ==> step(s, MessageModel::MoveConversationToTrash(id)) == (s, tasks_only(Seq::empty())),
        !s.database_ready ==> step(s, MessageModel::RestoreConversation(id)) == (s, tasks_only(Seq::empty())),
        !s.database_ready ==> step(s, MessageModel::DeleteConversationPermanently(id)) == (
            s,
            tasks_only(Seq::empty()),
        ),
        s.database_ready ==> step(s, MessageModel::RestoreConversation(id)) == (
            s,
            tasks_only(seq![TaskModel::RestoreConversation(id)]),
        ),
        s.database_ready ==> step(s, MessageModel::MoveConversationToTrash(id)) == (
            if s.selected == Some(id) {
                closed_open_conversation(s)
            } else {
                s
            },
            EffectsModel { reload_editor: s.selected == Some(id), ..tasks_only(seq![TaskModel::TrashConversation(id)]) },
        ),
        s.database_ready ==> step(s, MessageModel::DeleteConversationPermanently(id)) == (
            if s.selected == Some(id) {
                closed_open_conversation(s)
            } else {
                s
            },
            EffectsModel {
                reload_editor: s.selected == Some(id),
                ..tasks_only(seq![TaskModel::DeleteConversation(id)])
            },
        ),
{
}

/// Applying all suggestions only asks for the full correction of the editor's
/// text; its result becomes the editor's, rendered and checked text, with the
/// editor rebuilt, the cursor re-read and the text linted at once.
pub proof fn law_apply_all_round_trip(s: StateModel, corrected: Seq<char>)
    ensures
        step(s, MessageModel::ApplyAllSuggestions) == (s, EffectsModel { run_auto_fix: true, ..tasks_only(Seq::empty()) }),
        step(s, MessageModel::SuggestionsApplied(corrected)) == (
            StateModel { editor_text: corrected, markdown_source: corrected, last_checked: corrected, ..s },
            EffectsModel {
                tasks: Seq::empty(),
                reload_editor: true,
                refresh_cursor: true,
                lint_now: true,
                run_auto_fix: false,
            },
        ),
{
}

/// The plain setters: the search text, the view mode and the cursor take the
/// given values (the cursor counted from 1), and nothing is asked for.
pub proof fn law_setters(s: StateModel, q: Seq<char>, mode: ViewMode, line: int, column: int)
    ensures
        step(s, MessageModel::SearchChanged(q)) == (StateModel { search_query: q, ..s }, tasks_only(Seq::empty())),
        step(s, MessageModel::SetViewMode(mode)) == (StateModel { view_mode: mode, ..s }, tasks_only(Seq::empty())),
        step(s, (MessageModel::CursorRefreshed { line, column })) == (
            StateModel { cursor: (line + 1, column + 1), ..s },
            tasks_only(Seq::empty()),
        ),
        step(s, MessageModel::ToggleSidebar) == (
            StateModel { sidebar_collapsed: !s.sidebar_collapsed, ..s },
            tasks_only(Seq::empty()),
        ),
        step(s, MessageModel::ToggleErrorsPanel) == (
            StateModel { errors_panel_collapsed: !s.errors_panel_collapsed, ..s },
            tasks_only(Seq::empty()),
        ),
        step(s, MessageModel::ToggleShortcutsHelp) == (StateModel { help_open: !s.help_open, ..s }, tasks_only(Seq::empty())),
        step(s, MessageModel::CloseShortcutsHelp) == (StateModel { help_open: false, ..s }, tasks_only(Seq::empty())),
        step(s, MessageModel::ConversationSaved) == (s, tasks_only(Seq::empty())),
        step(s, MessageModel::Noop) == (s, tasks_only(Seq::empty())),
        step(s, MessageModel::MarkdownLinkClicked) == (s, tasks_only(Seq::empty())),
        step(s, MessageModel::OtherKeyboardEvent) == (s, tasks_only(Seq::empty())),
{
}

/// Whether `list` lists exactly the stored conversations `data`, in order, by
/// id, title and preview of the text.
pub open spec fn lists_data(list: Seq<ConversationModel>, data: Seq<ConversationDataModel>) -> bool {
    &&& list.len() == data.len()
    &&& forall|i: int|
        0 <= i < list.len() ==> (#[trigger] list[i]).id == data[i].id && list[i].title == data[i].title
            && list[i].preview == preview_of(data[i].content)
}

/// Reloading the active list replaces it with the stored conversations. While
/// the trash is shown nothing else changes and nothing is asked for; otherwise
/// the selection is re-picked in the new list and, with the store open, the
/// picked conversation is loaded by exactly one task.
pub proof fn law_active_list_loaded(s: StateModel, data: Seq<ConversationDataModel>)
    ensures
        ({
            let r = step(s, MessageModel::ConversationsLoaded(data));
            &&& lists_data(r.0.conversations, data)
            &&& s.in_trash ==> r == (StateModel { conversations: r.0.conversations, ..s }, tasks_only(Seq::empty()))
            &&& !s.in_trash ==> r.0 == StateModel { conversations: r.0.conversations, selected: r.0.selected, ..s }
            &&& !s.in_trash ==> r.1 == tasks_only(
                if s.database_ready && r.0.selected is Some {
                    seq![TaskModel::LoadConversation(r.0.selected->0)]
                } else {
                    Seq::empty()
                },
            )
        }),
{
}

/// Reloading the trash list replaces it with the stored conversations. Outside
/// the trash nothing else changes and nothing is asked for; in it the
/// selection is re-picked in the new list (kept when the list still holds it,
/// else its first conversation) and, with the store open, loaded by exactly
/// one task.
pub proof fn law_trash_list_loaded(s: StateModel, data: Seq<ConversationDataModel>)
    ensures
        ({
            let r = step(s, MessageModel::TrashedConversationsLoaded(data));
            let list = r.0.trashed;
            &&& lists_data(list, data)
            &&& !s.in_trash ==> r == (StateModel { trashed: list, ..s }, tasks_only(Seq::empty()))
            &&& s.in_trash ==> r.0 == StateModel { trashed: list, selected: r.0.selected, ..s }
            &&& s.in_trash ==> (r.0.selected is None <==> list.len() == 0)
            &&& s.in_trash && r.0.selected is Some ==> exists|i: int|
                0 <= i < list.len() && #[trigger] list[i].id == r.0.selected->0
            &&& s.in_trash && s.selected is Some && (exists|i: int|
                0 <= i < list.len() && #[trigger] list[i].id == s.selected->0) ==> r.0.selected == s.selected
            &&& s.in_trash && list.len() > 0 && !(s.selected is Some && exists|i: int|
                0 <= i < list.len() && #[trigger] list[i].id == s.selected->0) ==> r.0.selected == Some(list[0].id)
            &&& s.in_trash ==> r.1 == tasks_only(
                if s.database_ready && r.0.selected is Some {
                    seq![TaskModel::LoadConversation(r.0.selected->0)]
                } else {
                    Seq::empty()
                },
            )
        }),
{
    let list = step(s, MessageModel::TrashedConversationsLoaded(data)).0.trashed;
    if list.len() > 0 {
        assert(list[0].id == list[0].id);
    }
}

/// An edit puts the editor's text and cursor (counted from 1) into the state;
/// when the text differs from the checked text it becomes the checked and
/// rendered text and is linted at once; otherwise nothing else changes and
/// nothing is asked for.
pub proof fn law_edit(s: StateModel, text: Seq<char>, line: int, column: int)
    ensures
        text != s.last_checked ==> step(s, (MessageModel::EditorEdited { text, line, column })) == (
            StateModel {
                editor_text: text,
                last_checked: text,
                markdown_source: text,
                cursor: (line + 1, column + 1),
                ..s
            },
            EffectsModel { lint_now: true, ..tasks_only(Seq::empty()) },
        ),
        text == s.last_checked ==> step(s, (MessageModel::EditorEdited { text, line, column })) == (
            StateModel { editor_text: text, cursor: (line + 1, column + 1), ..s },
            tasks_only(Seq::empty()),
        ),
{
}

/// Whether position `i` of `list` holds the first conversation with id `id`.
pub open spec fn first_with(list: Seq<ConversationModel>, id: i64, i: int) -> bool {
    list[i].id == id && forall|j: int| 0 <= j < i ==> #[trigger] list[j].id != id
}

proof fn lemma_retitle_entries(list: Seq<ConversationModel>, id: i64, t: Seq<char>)
    ensures
        crate::desktop::retitle(list, id, t).len() == list.len(),
        forall|i: int|
            0 <= i < list.len() ==> (#[trigger] crate::desktop::retitle(list, id, t)[i]).id == list[i].id
                && crate::desktop::retitle(list, id, t)[i].preview == list[i].preview
                && crate::desktop::retitle(list, id, t)[i].title == (if first_with(list, id, i) {
                t
            } else {
                list[i].title
            }),
{
    let r = crate::desktop::retitle(list, id, t);
    if exists|i: int| crate::desktop::is_first_with_id(list, id, i) {
        let w = choose|i: int| crate::desktop::is_first_with_id(list, id, i);
        assert forall|i: int| 0 <= i < list.len() implies (#[trigger] r[i]).id == list[i].id && r[i].preview
            == list[i].preview && r[i].title == (if first_with(list, id, i) {
            t
        } else {
            list[i].title
        }) by {
            if i != w && first_with(list, id, i) {
                if i < w {
                    assert(list[i].id == id);
                } else {
                    assert(list[w].id == id);
                }
            }
        }
    } else {
        assert forall|i: int| 0 <= i < list.len() implies (#[trigger] r[i]).id == list[i].id && r[i].preview
            == list[i].preview && r[i].title == (if first_with(list, id, i) {
            t
        } else {
            list[i].title
        }) by {
            if first_with(list, id, i) {
                assert(crate::desktop::is_first_with_id(list, id, i));
            }
        }
    }
}

/// Renaming: the title becomes `t`; in the list shown, the entry of the open
/// conversation (the first with its id) takes `t` as its title, while every
/// other entry, the other list and the rest of the state stay; nothing is
/// asked for.
pub proof fn law_title_changed(s: StateModel, t: Seq<char>)
    ensures
        ({
            let r = step(s, MessageModel::TitleChanged(t));
            let shown = if s.in_trash { s.trashed } else { s.conversations };
            let shown_after = if s.in_trash { r.0.trashed } else { r.0.conversations };
            &&& r.1 == tasks_only(Seq::empty())
            &&& r.0 == StateModel { title: t, conversations: r.0.conversations, trashed: r.0.trashed, ..s }
            &&& (if s.in_trash { r.0.conversations == s.conversations } else { r.0.trashed == s.trashed })
            &&& s.selected is None ==> r.0.conversations == s.conversations && r.0.trashed == s.trashed
            &&& shown_after.len() == shown.len()
            &&& forall|i: int|
                0 <= i < shown.len() ==> (#[trigger] shown_after[i]).id == shown[i].id && shown_after[i].preview
                    == shown[i].preview && shown_after[i].title == (if s.selected is Some && first_with(
                    shown,
                    s.selected->0,
                    i,
                ) {
                    t
                } else {
                    shown[i].title
                })
        }),
{
    let shown = if s.in_trash { s.trashed } else { s.conversations };
    match s.selected {
        Some(id) => lemma_retitle_entries(shown, id, t),
        None => {},
    }
}

/// Applying lint `index`'s first suggestion, when the lint exists and has one:
/// the editor's text keeps everything before the lint's span and after it,
/// with the span replaced (or removed, or kept with the text inserted after
/// it); the result becomes the editor's, checked and rendered text, with the
/// editor rebuilt, the cursor re-read and the text linted. A lint without a
/// suggestion, or an index past the list, changes nothing.
pub proof fn law_apply_one_suggestion(s: StateModel, index: int)
    ensures
        !(0 <= index < s.lints.len() && s.lints[index].suggestions.len() > 0) ==> step(
            s,
            MessageModel::ApplyLintSuggestion(index),
        ) == (s, tasks_only(Seq::empty())),
        (0 <= index < s.lints.len() && s.lints[index].suggestions.len() > 0) ==> {
            let l = s.lints[index];
            let r = step(s, MessageModel::ApplyLintSuggestion(index));
            let text = r.0.editor_text;
            let inserted = match l.suggestions[0] {
                SuggestionModel::ReplaceWith(w) => w,
                SuggestionModel::InsertAfter(w) => w,
                SuggestionModel::Remove => Seq::empty(),
            };
            let kept_until = match l.suggestions[0] {
                SuggestionModel::InsertAfter(_) => l.end,
                _ => l.start,
            };
            &&& text == s.editor_text.take(kept_until) + inserted + s.editor_text.skip(l.end)
            &&& r.0 == StateModel { editor_text: text, last_checked: text, markdown_source: text, ..s }
            &&& r.1 == EffectsModel {
                tasks: Seq::empty(),
                reload_editor: true,
                refresh_cursor: true,
                lint_now: true,
                run_auto_fix: false,
            }
        },
{
    if 0 <= index < s.lints.len() && s.lints[index].suggestions.len() > 0 {
        let l = s.lints[index];
        match l.suggestions[0] {
            SuggestionModel::Remove => {
                assert(s.editor_text.take(l.start) + Seq::<char>::empty() =~= s.editor_text.take(l.start));
            },
            _ => {},
        }
    }
}

} // verus!
