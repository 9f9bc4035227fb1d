use vstd::prelude::*;

use crate::desktop::{step, without_artifact, MessageModel, StateModel, TaskModel, ViewMode};
use crate::desktop_message_laws::tasks_only;
use crate::keys::{is_app_shortcut, is_help_key, KeyPress, Modifiers, PhysicalKey};

verus! {

/// A fresh (not repeated) press of a key that types `latin` on physical key
/// `physical`, with `modifiers` held.
pub open spec fn press(latin: Option<char>, physical: PhysicalKey, modifiers: Modifiers) -> KeyPress {
    KeyPress { latin, escape: false, physical, modifiers, repeat: false }
}

/// On a layout where the digit keys type no Latin character, the primary
/// modifier with the physical key 1, 2 or 3 picks the raw, split or rendered
/// view, asks for nothing, and changes nothing else but the removal of the
/// digit the key may have typed.
pub proof fn law_physical_digit_shortcuts(s: StateModel, modifiers: Modifiers)
    requires
        modifiers.logo || modifiers.control,
    ensures
        step(s, MessageModel::KeyPressed(press(None, PhysicalKey::Digit1, modifiers))) == (
            StateModel { view_mode: ViewMode::RawCode, ..without_artifact(s, '1') },
            tasks_only(Seq::empty()),
        ),
        step(s, MessageModel::KeyPressed(press(None, PhysicalKey::Digit2, modifiers))) == (
            StateModel { view_mode: ViewMode::BothViews, ..without_artifact(s, '2') },
            tasks_only(Seq::empty()),
        ),
        step(s, MessageModel::KeyPressed(press(None, PhysicalKey::Digit3, modifiers))) == (
            StateModel { view_mode: ViewMode::RenderedView, ..without_artifact(s, '3') },
            tasks_only(Seq::empty()),
        ),
{
}

/// What removing a shortcut's character does: the search text and the title
/// each lose their last character exactly when it is the shortcut's (ASCII
/// letters in either case); the conversation lists change only when the title
/// lost it and the search text did not; nothing else changes.
pub proof fn law_shortcut_artifact_removal(s: StateModel, c: char)
    ensures
        ({
            let r = without_artifact(s, c);
            let ends = |t: Seq<char>|
                t.len() > 0 && (if ('a' <= c && c <= 'z') || ('A' <= c && c <= 'Z') {
                    crate::ui_text::ascii_lower(t.last()) == crate::ui_text::ascii_lower(c)
                } else {
                    t.last() == c
                });
            &&& r.search_query == (if ends(s.search_query) {
                s.search_query.drop_last()
            } else {
                s.search_query
            })
            &&& r.title == (if ends(s.title) {
                s.title.drop_last()
            } else {
                s.title
            })
            &&& (ends(s.search_query) || !ends(s.title)) ==> r.conversations == s.conversations && r.trashed
                == s.trashed
            &&& r == StateModel {
                search_query: r.search_query,
                title: r.title,
                conversations: r.conversations,
                trashed: r.trashed,
                ..s
            }
        }),
{
}

/// The letter shortcuts, with the primary modifier, in either case: F opens
/// the sidebar and asks to focus the search field; B toggles the sidebar, or
/// with Shift the issues panel; K toggles the shortcut help; each asks for
/// nothing else and leaves the view mode as it is.
pub proof fn law_letter_shortcuts(s: StateModel, letter: char, physical: PhysicalKey, modifiers: Modifiers)
    requires
        modifiers.logo || modifiers.control,
        physical != PhysicalKey::KeyK,
    ensures
        (letter == 'f' || letter == 'F') ==> {
            let r = step(s, MessageModel::KeyPressed(press(Some(letter), physical, modifiers)));
            &&& !r.0.sidebar_collapsed
            &&& r.0.view_mode == s.view_mode
            &&& r.0.help_open == s.help_open
            &&& r.1 == tasks_only(seq![TaskModel::FocusSearch])
        },
        (letter == 'b' || letter == 'B') ==> {
            let r = step(s, MessageModel::KeyPressed(press(Some(letter), physical, modifiers)));
            &&& r.0.sidebar_collapsed == (if modifiers.shift { s.sidebar_collapsed } else { !s.sidebar_collapsed })
            &&& r.0.errors_panel_collapsed == (if modifiers.shift {
                !s.errors_panel_collapsed
            } else {
                s.errors_panel_collapsed
            })
            &&& r.0.view_mode == s.view_mode
            &&& r.1 == tasks_only(Seq::empty())
        },
        (letter == 'k' || letter == 'K') ==> {
            let r = step(s, MessageModel::KeyPressed(press(Some(letter), physical, modifiers)));
            &&& r.0.help_open == !s.help_open
            &&& r.0.view_mode == s.view_mode
            &&& r.0.sidebar_collapsed == s.sidebar_collapsed
            &&& r.1 == tasks_only(Seq::empty())
        },
        (letter == 'n' || letter == 'N') && s.database_ready ==> step(
            s,
            MessageModel::KeyPressed(press(Some(letter), physical, modifiers)),
        ).1 == tasks_only(seq![TaskModel::CreateConversation { title: "New Conversation"@, content: Seq::empty() }]),
        (letter == 'n' || letter == 'N') && !s.database_ready ==> step(
            s,
            MessageModel::KeyPressed(press(Some(letter), physical, modifiers)),
        ).0.conversations.len() == s.conversations.len() + 1,
{
}

/// Escape closes the open shortcut help and changes nothing else, with or
/// without modifiers, on any key that reports it.
pub proof fn law_escape_closes_help(s: StateModel, k: KeyPress)
    requires
        s.help_open,
        k.escape,
        !k.repeat,
    ensures
        step(s, MessageModel::KeyPressed(k)) == (StateModel { help_open: false, ..s }, tasks_only(Seq::empty())),
{
}

/// Without the primary modifier (and outside Escape in an open help) no key
/// press changes anything.
pub proof fn law_keys_need_the_modifier(s: StateModel, k: KeyPress)
    requires
        !k.modifiers.logo,
        !k.modifiers.control,
        !(s.help_open && k.escape),
    ensures
        step(s, MessageModel::KeyPressed(k)) == (s, tasks_only(Seq::empty())),
{
}

/// The keys the text editor leaves to the application: with the primary
/// modifier held, exactly F, B, N, K (either case) and 1, 2, 3 among keys that
/// type a Latin character, and the physical keys 1, 2, 3 and K among keys that
/// type none. Without the modifier, none.
pub proof fn law_application_keys(k: KeyPress)
    ensures
        !(k.modifiers.logo || k.modifiers.control) ==> !is_app_shortcut(k),
        (k.modifiers.logo || k.modifiers.control) && k.latin is Some ==> (is_app_shortcut(k) <==> {
            let c = k.latin->0;
            ||| c == 'f' || c == 'F' || c == 'b' || c == 'B' || c == 'n' || c == 'N' || c == 'k' || c == 'K'
            ||| c == '1' || c == '2' || c == '3'
        }),
        (k.modifiers.logo || k.modifiers.control) && k.latin is None ==> (is_app_shortcut(k) <==> (k.physical
            == PhysicalKey::Digit1 || k.physical == PhysicalKey::Digit2 || k.physical == PhysicalKey::Digit3
            || k.physical == PhysicalKey::KeyK)),
{
}

/// The help key is `k` or `K`, or the physical K key whatever it types.
pub proof fn law_help_key(latin: Option<char>, physical: PhysicalKey)
    ensures
        is_help_key(latin, physical) <==> (latin == Some('k') || latin == Some('K') || physical == PhysicalKey::KeyK),
{
}

} // verus!
