use vstd::prelude::*;
use vstd::string::{StrSliceExecFns, StringExecFns};

use crate::text::{chars_of, push_char, string_from_chars};

verus! {

broadcast use vstd::string::group_string_axioms;

/// The upper-case form of an ASCII letter; any other character is unchanged.
pub open spec fn ascii_upper(c: char) -> char {
    if 'a' <= c && c <= 'z' {
        ((c as u32 - 32) as u8) as char
    } else {
        c
    }
}

/// The lower-case form of an ASCII letter; any other character is unchanged.
pub open spec fn ascii_lower(c: char) -> char {
    if 'A' <= c && c <= 'Z' {
        ((c as u32 + 32) as u8) as char
    } else {
        c
    }
}

/// Whether `c` is an ASCII letter.
pub open spec fn is_ascii_letter(c: char) -> bool {
    ('a' <= c && c <= 'z') || ('A' <= c && c <= 'Z')
}

/// Upper-cases an ASCII letter (as `char::to_ascii_uppercase`).
pub fn to_ascii_upper(c: char) -> (r: char)
    ensures
        r == ascii_upper(c),
{
    if 'a' <= c && c <= 'z' {
        ((c as u32 - 32) as u8) as char
    } else {
        c
    }
}

/// Lower-cases an ASCII letter (as `char::to_ascii_lowercase`).
pub fn to_ascii_lower(c: char) -> (r: char)
    ensures
        r == ascii_lower(c),
{
    if 'A' <= c && c <= 'Z' {
        ((c as u32 + 32) as u8) as char
    } else {
        c
    }
}

/// Whether `c` has Unicode's White_Space property (what `char::is_whitespace`
/// and `str::trim` go by).
pub open spec fn is_white_space(c: char) -> bool {
    ||| ('\u{9}' <= c && c <= '\u{d}')
    ||| c == ' '
    ||| c == '\u{85}'
    ||| c == '\u{a0}'
    ||| c == '\u{1680}'
    ||| ('\u{2000}' <= c && c <= '\u{200a}')
    ||| c == '\u{2028}'
    ||| c == '\u{2029}'
    ||| c == '\u{202f}'
    ||| c == '\u{205f}'
    ||| c == '\u{3000}'
}

/// Whether `c` has Unicode's White_Space property.
pub fn white_space(c: char) -> (r: bool)
    ensures
        r == is_white_space(c),
{
    ('\u{9}' <= c && c <= '\u{d}') || c == ' ' || c == '\u{85}' || c == '\u{a0}' || c == '\u{1680}'
        || ('\u{2000}' <= c && c <= '\u{200a}') || c == '\u{2028}' || c == '\u{2029}'
        || c == '\u{202f}' || c == '\u{205f}' || c == '\u{3000}'
}

/// `s` without its leading white space.
pub open spec fn trim_start(s: Seq<char>) -> Seq<char>
    decreases s.len(),
{
    if s.len() > 0 && is_white_space(s[0]) {
        trim_start(s.drop_first())
    } else {
        s
    }
}

/// `s` without its trailing white space.
pub open spec fn trim_end(s: Seq<char>) -> Seq<char>
    decreases s.len(),
{
    if s.len() > 0 && is_white_space(s.last()) {
        trim_end(s.drop_last())
    } else {
        s
    }
}

/// `s` without leading and trailing white space (as `str::trim`).
pub open spec fn trimmed(s: Seq<char>) -> Seq<char> {
    trim_end(trim_start(s))
}

/// The characters of `s` without leading and trailing white space.
pub fn trim_chars(s: &str) -> (r: Vec<char>)
    ensures
        r@ == trimmed(s@),
{
    let cs = chars_of(s);
    let mut a: usize = 0;
    assert(cs@.skip(0) =~= cs@);
    while a < cs.len() && white_space(cs[a])
        invariant
            a <= cs@.len(),
            trim_start(cs@) == trim_start(cs@.skip(a as int)),
        decreases cs@.len() - a,
    {
        assert(cs@.skip(a as int).drop_first() =~= cs@.skip(a + 1));
        a = a + 1;
    }
    let mut b: usize = cs.len();
    assert(cs@.skip(a as int) =~= cs@.subrange(a as int, b as int));
    while b > a && white_space(cs[b - 1])
        invariant
            a <= b <= cs@.len(),
            trim_end(trim_start(cs@)) == trim_end(cs@.subrange(a as int, b as int)),
        decreases b - a,
    {
        assert(cs@.subrange(a as int, b as int).drop_last() =~= cs@.subrange(a as int, b - 1));
        b = b - 1;
    }
    let mut r: Vec<char> = Vec::new();
    let mut i: usize = a;
    while i < b
        invariant
            a <= i <= b <= cs@.len(),
            r@ == cs@.subrange(a as int, i as int),
        decreases b - i,
    {
        r.push(cs[i]);
        assert(cs@.subrange(a as int, i as int).push(cs@[i as int]) =~= cs@.subrange(a as int, i + 1));
        i = i + 1;
    }
    r
}

/// The two-letter badge of a conversation in the collapsed sidebar: `--` for a
/// blank title, else the first two characters of the trimmed title with ASCII
/// letters upper-cased.
pub open spec fn badge(title: Seq<char>) -> Seq<char> {
    if trimmed(title).len() == 0 {
        seq!['-', '-']
    } else {
        trimmed(title).take(if trimmed(title).len() < 2 { trimmed(title).len() as int } else { 2 }).map_values(
            |c: char| ascii_upper(c),
        )
    }
}

/// The badge shown for a conversation in the collapsed sidebar (see [`badge`]).
pub fn compact_title_badge(title: &str) -> (r: String)
    ensures
        r@ == badge(title@),
{
    let t = trim_chars(title);
    if t.len() == 0 {
        let mut out = String::new();
        push_char(&mut out, '-');
        push_char(&mut out, '-');
        assert(out@ =~= seq!['-', '-']);
        return out;
    }
    let n: usize = if t.len() < 2 { t.len() } else { 2 };
    let mut out = String::new();
    let mut i: usize = 0;
    while i < n
        invariant
            n <= t@.len(),
            i <= n,
            out@ == t@.take(i as int).map_values(|c: char| ascii_upper(c)),
        decreases n - i,
    {
        push_char(&mut out, to_ascii_upper(t[i]));
        assert(t@.take(i + 1).map_values(|c: char| ascii_upper(c)) =~= t@.take(i as int).map_values(
            |c: char| ascii_upper(c),
        ).push(ascii_upper(t@[i as int])));
        i = i + 1;
    }
    out
}

/// The preview of a conversation in the sidebar: `Start writing...` for an empty
/// text, else its first 50 characters, followed by `...` when it has more.
pub open spec fn preview_of(content: Seq<char>) -> Seq<char> {
    if content.len() == 0 {
        "Start writing..."@
    } else if content.len() > 50 {
        content.take(50) + "..."@
    } else {
        content
    }
}

/// The preview of a conversation in the sidebar (see [`preview_of`]).
pub fn preview(content: &str) -> (r: String)
    ensures
        r@ == preview_of(content@),
{
    if content.is_empty() {
        return String::from_str("Start writing...");
    }
    let cs = chars_of(content);
    let n: usize = if cs.len() > 50 { 50 } else { cs.len() };
    let mut out = String::new();
    let mut i: usize = 0;
    while i < n
        invariant
            n <= cs@.len(),
            i <= n,
            out@ == cs@.take(i as int),
        decreases n - i,
    {
        push_char(&mut out, cs[i]);
        assert(cs@.take(i as int).push(cs@[i as int]) =~= cs@.take(i + 1));
        i = i + 1;
    }
    if cs.len() > 50 {
        out.append("...");
    } else {
        assert(cs@.take(n as int) =~= cs@);
    }
    out
}

/// Whether typing `shortcut` left `last` behind: ASCII letters compare without
/// regard to case, other characters exactly.
pub open spec fn is_shortcut_artifact(last: char, shortcut: char) -> bool {
    if is_ascii_letter(shortcut) {
        ascii_lower(last) == ascii_lower(shortcut)
    } else {
        last == shortcut
    }
}

/// Removes the character that a keyboard shortcut typed at the end of `value`:
/// when the last character is the shortcut's character (see
/// [`is_shortcut_artifact`]) it is removed and `true` is returned; otherwise
/// `value` is unchanged and `false` is returned.
pub fn strip_trailing_shortcut_char(value: &mut String, shortcut_char: char) -> (stripped: bool)
    ensures
        stripped == (old(value)@.len() > 0 && is_shortcut_artifact(old(value)@.last(), shortcut_char)),
        stripped ==> final(value)@ == old(value)@.drop_last(),
        !stripped ==> final(value)@ == old(value)@,
{
    let mut cs = chars_of(value.as_str());
    if cs.len() == 0 {
        return false;
    }
    let last = cs[cs.len() - 1];
    let is_letter = ('a' <= shortcut_char && shortcut_char <= 'z') || ('A' <= shortcut_char && shortcut_char
        <= 'Z');
    let should_strip = if is_letter {
        to_ascii_lower(last) == to_ascii_lower(shortcut_char)
    } else {
        last == shortcut_char
    };
    if should_strip {
        cs.pop();
        *value = string_from_chars(cs.as_slice());
    }
    should_strip
}


/// A badge is one or two characters long: `--` for a blank title, else the first
/// one or two characters of the trimmed title.
pub proof fn law_badge_short(title: Seq<char>)
    ensures
        1 <= badge(title).len() <= 2,
        trimmed(title).len() == 0 ==> badge(title) == seq!['-', '-'],
        trimmed(title).len() > 0 ==> forall|i: int| 0 <= i < badge(title).len() ==> #[trigger] badge(title)[i] == ascii_upper(trimmed(title)[i]),
{
}

/// A preview is never longer than 53 characters, and a non-empty text's preview
/// starts with its first characters (up to 50 of them).
pub proof fn law_preview_bounded(content: Seq<char>)
    ensures
        preview_of(content).len() <= 53,
        content.len() > 0 ==> preview_of(content).take(if content.len() < 50 { content.len() as int } else { 50 })
            == content.take(if content.len() < 50 { content.len() as int } else { 50 }),
{
    reveal_strlit("Start writing...");
    reveal_strlit("...");
    if content.len() > 50 {
        assert((content.take(50) + "..."@).take(50) =~= content.take(50));
    } else if content.len() > 0 {
        assert(content.take(content.len() as int) =~= content);
    }
}

} // verus!
