use vstd::prelude::*;
use vstd::string::StringExecFns;

use crate::ui_text::ascii_lower;

verus! {

broadcast use vstd::string::group_string_axioms;

/// The modifier keys held during a key press.
#[derive(Clone, Copy, PartialEq, Eq, Debug, Structural)]
pub struct Modifiers {
    pub logo: bool,
    pub control: bool,
    pub shift: bool,
}

/// The physical keys that the shortcuts look at.
#[derive(Clone, Copy, PartialEq, Eq, Debug, Structural)]
pub enum PhysicalKey {
    Digit1,
    Digit2,
    Digit3,
    KeyK,
    Other,
}

/// A key press: the Latin character the key stands for (if any), whether it is
/// the Escape key, its physical key, the held modifiers, and whether it is an
/// automatic repeat.
#[derive(Clone, Copy, PartialEq, Eq, Debug, Structural)]
pub struct KeyPress {
    pub latin: Option<char>,
    pub escape: bool,
    pub physical: PhysicalKey,
    pub modifiers: Modifiers,
    pub repeat: bool,
}

/// Whether the primary shortcut modifier (Command/Windows key or Control) is held.
pub fn primary_shortcut_modifier_pressed(modifiers: Modifiers) -> (r: bool)
    ensures
        r == (modifiers.logo || modifiers.control),
{
    modifiers.logo || modifiers.control
}

/// Whether the physical key is one of the digits 1, 2 or 3.
pub fn key_matches_digit(physical: PhysicalKey) -> (r: bool)
    ensures
        r == (physical == PhysicalKey::Digit1 || physical == PhysicalKey::Digit2 || physical
            == PhysicalKey::Digit3),
{
    match physical {
        PhysicalKey::Digit1 | PhysicalKey::Digit2 | PhysicalKey::Digit3 => true,
        _ => false,
    }
}

/// Whether a key is the shortcut-help key: `k` in either case, or the physical K key.
pub open spec fn is_help_key(latin: Option<char>, physical: PhysicalKey) -> bool {
    (latin is Some && ascii_lower(latin->0) == 'k') || physical == PhysicalKey::KeyK
}

/// Whether a key is the shortcut-help key (see [`is_help_key`]).
pub fn is_shortcuts_help_shortcut(latin: Option<char>, physical: PhysicalKey) -> (r: bool)
    ensures
        r == is_help_key(latin, physical),
{
    let by_char = match latin {
        Some(c) => crate::ui_text::to_ascii_lower(c) == 'k',
        None => false,
    };
    by_char || match physical {
        PhysicalKey::KeyK => true,
        _ => false,
    }
}

/// Whether a key press is one of the application's shortcuts, which the text
/// editor must not handle: the primary modifier together with `f`, `b`, `n`,
/// `k`, `1`, `2` or `3` (letters in either case), or, for a key without a Latin
/// character, with the physical digit 1 to 3 or K key.
pub open spec fn is_app_shortcut(k: KeyPress) -> bool {
    &&& k.modifiers.logo || k.modifiers.control
    &&& match k.latin {
        Some(c) => {
            let l = ascii_lower(c);
            l == 'f' || l == 'b' || l == 'n' || l == 'k' || l == '1' || l == '2' || l == '3'
        },
        None => k.physical != PhysicalKey::Other,
    }
}

/// Whether a key press is one of the application's shortcuts (see [`is_app_shortcut`]).
pub fn is_app_shortcut_keypress(k: &KeyPress) -> (r: bool)
    ensures
        r == is_app_shortcut(*k),
{
    if !primary_shortcut_modifier_pressed(k.modifiers) {
        return false;
    }
    match k.latin {
        Some(c) => {
            let l = crate::ui_text::to_ascii_lower(c);
            l == 'f' || l == 'b' || l == 'n' || l == 'k' || l == '1' || l == '2' || l == '3'
        },
        None => match k.physical {
            PhysicalKey::Other => false,
            _ => true,
        },
    }
}

/// The name of the primary shortcut modifier: `Cmd` on macOS, else `Ctrl`.
pub open spec fn modifier_name(mac: bool) -> Seq<char> {
    if mac {
        "Cmd"@
    } else {
        "Ctrl"@
    }
}

/// The name of the primary shortcut modifier (see [`modifier_name`]).
pub fn modifier_label(mac: bool) -> (r: &'static str)
    ensures
        r@ == modifier_name(mac),
{
    if mac {
        "Cmd"
    } else {
        "Ctrl"
    }
}

/// One line of the shortcut help: the keys and what they do.
#[derive(Debug, Clone)]
pub struct ShortcutHelp {
    pub keys: String,
    pub action: String,
}

/// The shortcut help, in order, for the modifier named `m`.
pub open spec fn shortcut_table(m: Seq<char>) -> Seq<(Seq<char>, Seq<char>)> {
    seq![
        (m + " + F"@, "Expand sidebar + focus search"@),
        (m + " + 1"@, "Raw mode"@),
        (m + " + 2"@, "Split mode"@),
        (m + " + 3"@, "Rendered mode"@),
        (m + " + B"@, "Toggle sidebar"@),
        (m + " + Shift + B"@, "Toggle issues panel"@),
        (m + " + N"@, "New conversation"@),
        (m + " + K"@, "Show/hide this help"@),
        ("Esc"@, "Close shortcut help"@),
    ]
}

/// The model of a line of shortcut help.
pub open spec fn help_model(h: ShortcutHelp) -> (Seq<char>, Seq<char>) {
    (h.keys@, h.action@)
}

fn help_line(m: &str, keys: &str, action: &str) -> (h: ShortcutHelp)
    ensures
        h.keys@ == m@ + keys@,
        h.action@ == action@,
{
    let mut k = String::from_str(m);
    k.append(keys);
    ShortcutHelp { keys: k, action: String::from_str(action) }
}

/// The shortcut help shown on macOS when `mac`, else elsewhere (see
/// [`shortcut_table`]).
pub fn shortcut_help(mac: bool) -> (r: Vec<ShortcutHelp>)
    ensures
        r@.map_values(|h: ShortcutHelp| help_model(h)) == shortcut_table(modifier_name(mac)),
{
    let m = modifier_label(mac);
    let mut r: Vec<ShortcutHelp> = Vec::new();
    r.push(help_line(m, " + F", "Expand sidebar + focus search"));
    r.push(help_line(m, " + 1", "Raw mode"));
    r.push(help_line(m, " + 2", "Split mode"));
    r.push(help_line(m, " + 3", "Rendered mode"));
    r.push(help_line(m, " + B", "Toggle sidebar"));
    r.push(help_line(m, " + Shift + B", "Toggle issues panel"));
    r.push(help_line(m, " + N", "New conversation"));
    r.push(help_line(m, " + K", "Show/hide this help"));
    r.push(ShortcutHelp { keys: String::from_str("Esc"), action: String::from_str("Close shortcut help") });
    assert(r@.map_values(|h: ShortcutHelp| help_model(h)) =~= shortcut_table(modifier_name(mac)));
    r
}

/// The footer's hint: `Press <modifier> + K to show shortcuts`.
pub open spec fn shortcuts_hint(m: Seq<char>) -> Seq<char> {
    "Press "@ + m + " + K to show shortcuts"@
}

/// The footer's hint on macOS when `mac`, else elsewhere (see [`shortcuts_hint`]).
pub fn shortcuts_hint_text(mac: bool) -> (r: String)
    ensures
        r@ == shortcuts_hint(modifier_name(mac)),
{
    let mut r = String::from_str("Press ");
    r.append(modifier_label(mac));
    r.append(" + K to show shortcuts");
    r
}

} // verus!
