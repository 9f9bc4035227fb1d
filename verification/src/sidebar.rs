use vstd::prelude::*;

use crate::desktop::{Conversation, ConversationModel, DesktopState, StateModel, conversation_models};
use crate::ui_text::{trim_chars, trimmed};
use crate::text::{chars_of, string_from_chars};

verus! {

broadcast use vstd::string::group_string_axioms;

/// What std's `str::to_lowercase` returns for a text (the full Unicode
/// lower-case mapping).
pub uninterp spec fn lowercase(s: Seq<char>) -> Seq<char>;

/// Lower-cases a text with std's `str::to_lowercase`; the contract names the
/// result, a function of the text alone.
#[verifier::external_body]
fn to_lowercase(s: &str) -> (r: String)
    ensures
        r@ == lowercase(s@),
{
    s.to_lowercase()
}

/// Whether `needle` occurs in `hay` as a run of consecutive characters (the
/// empty needle occurs everywhere).
pub open spec fn occurs_in(hay: Seq<char>, needle: Seq<char>) -> bool {
    exists|i: int| 0 <= i <= hay.len() - needle.len() && #[trigger] hay.subrange(i, i + needle.len()) == needle
}

/// Whether `needle` occurs in `hay` (see [`occurs_in`]).
pub fn contains_chars(hay: &Vec<char>, needle: &Vec<char>) -> (r: bool)
    ensures
        r == occurs_in(hay@, needle@),
{
    if needle.len() > hay.len() {
        return false;
    }
    if needle.len() == 0 {
        assert(hay@.subrange(0int, 0int + needle@.len()) =~= needle@);
        return true;
    }
    let n = hay.len();
    let last = n - needle.len();
    let mut i: usize = 0;
    while i <= last
        invariant
            n == hay@.len(),
            needle@.len() <= hay@.len(),
            needle@.len() > 0,
            last == hay@.len() - needle@.len(),
            i <= last + 1,
            forall|k: int| 0 <= k < i ==> #[trigger] hay@.subrange(k, k + needle@.len()) != needle@,
        decreases last + 1 - i,
    {
        let mut j: usize = 0;
        while j < needle.len() && hay[i + j] == needle[j]
            invariant
                n == hay@.len(),
                needle@.len() <= hay@.len(),
                i <= last,
                last == hay@.len() - needle@.len(),
                j <= needle@.len(),
                forall|m: int| 0 <= m < j ==> hay@[i + m] == needle@[m],
            decreases needle@.len() - j,
        {
            j = j + 1;
        }
        if j == needle.len() {
            assert(hay@.subrange(i as int, i + needle@.len()) =~= needle@);
            return true;
        }
        assert(hay@.subrange(i as int, i + needle@.len())[j as int] != needle@[j as int]);
        i = i + 1;
    }
    false
}

/// Whether a conversation is listed for the search `query` (already trimmed and
/// lower-cased): every conversation for an empty query, else those whose
/// lower-cased title or preview contains the query.
pub open spec fn listed(c: ConversationModel, query: Seq<char>) -> bool {
    query.len() == 0 || occurs_in(lowercase(c.title), query) || occurs_in(lowercase(c.preview), query)
}

/// The positions, in order, of the conversations listed for `query`.
pub open spec fn listed_positions(list: Seq<ConversationModel>, query: Seq<char>) -> Seq<int>
    decreases list.len(),
{
    if list.len() == 0 {
        Seq::empty()
    } else {
        let prev = listed_positions(list.drop_last(), query);
        if listed(list.last(), query) {
            prev.push(list.len() - 1)
        } else {
            prev
        }
    }
}

/// The search text the sidebar filters by: the search field trimmed and
/// lower-cased.
pub open spec fn search_key(search: Seq<char>) -> Seq<char> {
    lowercase(trimmed(search))
}

/// Whether a conversation whose lower-cased title and preview are `title` and
/// `preview` is listed for the lower-cased search text `query`: always for an
/// empty query, else when the title or the preview contains it.
pub fn matches_search(title: &Vec<char>, preview: &Vec<char>, query: &Vec<char>) -> (r: bool)
    ensures
        r == (query@.len() == 0 || occurs_in(title@, query@) || occurs_in(preview@, query@)),
{
    query.len() == 0 || contains_chars(title, query) || contains_chars(preview, query)
}

/// The positions, in order, of the conversations of `list` that the sidebar
/// shows for the search field's text `search`.
pub fn filter_conversations(list: &Vec<Conversation>, search: &str) -> (r: Vec<usize>)
    ensures
        r@.map_values(|i: usize| i as int) == listed_positions(conversation_models(list@), search_key(search@)),
{
    let t = trim_chars(search);
    let ts = string_from_chars(t.as_slice());
    let q = to_lowercase(ts.as_str());
    let qc = chars_of(q.as_str());
    let ghost ms = conversation_models(list@);
    let ghost key = search_key(search@);
    let mut r: Vec<usize> = Vec::new();
    let mut i: usize = 0;
    while i < list.len()
        invariant
            i <= list@.len(),
            ms == conversation_models(list@),
            qc@ == key,
            r@.map_values(|k: usize| k as int) == listed_positions(ms.take(i as int), key),
        decreases list@.len() - i,
    {
        let c = &list[i];
        let title = chars_of(to_lowercase(c.title.as_str()).as_str());
        let preview = chars_of(to_lowercase(c.preview.as_str()).as_str());
        let keep = matches_search(&title, &preview, &qc);
        let ghost before = r@.map_values(|k: usize| k as int);
        assert(ms.take(i + 1).drop_last() =~= ms.take(i as int));
        assert(ms.take(i + 1).last() == c@);
        if keep {
            r.push(i);
            assert(r@.map_values(|k: usize| k as int) =~= before.push(i as int));
        }
        i = i + 1;
    }
    assert(ms.take(list@.len() as int) =~= ms);
    r
}

/// The list the sidebar draws from: the trash while it is open, else the
/// active conversations.
pub open spec fn source_list(s: StateModel) -> Seq<ConversationModel> {
    if s.in_trash {
        s.trashed
    } else {
        s.conversations
    }
}

/// The positions, in the list the sidebar draws from, of the conversations it
/// shows for the state's search field.
pub fn shown_conversations(state: &DesktopState) -> (r: Vec<usize>)
    ensures
        r@.map_values(|i: usize| i as int) == listed_positions(source_list(state@), search_key(state@.search_query)),
{
    if state.selected_in_trash {
        filter_conversations(&state.trashed_conversations, state.search_query.as_str())
    } else {
        filter_conversations(&state.conversations, state.search_query.as_str())
    }
}

/// The width of the collapsed sidebar.
pub const SIDEBAR_WIDTH_COLLAPSED: u32 = 60;

/// The width of the expanded sidebar.
pub const SIDEBAR_WIDTH_EXPANDED: u32 = 300;

/// The buttons under each conversation of the expanded list: Restore and
/// Delete in the trash, Trash otherwise.
#[derive(Clone, Copy, PartialEq, Eq, Debug, Structural)]
pub enum RowActions {
    RestoreAndDelete,
    Trash,
}

/// One conversation drawn in the sidebar: its position in the list the sidebar
/// draws from, and whether it is the selected one.
#[derive(Clone, Copy, PartialEq, Eq, Debug, Structural)]
pub struct SidebarEntry {
    pub position: usize,
    pub selected: bool,
}

/// The layout decisions of the sidebar.
#[derive(Debug, Clone)]
pub struct SidebarView {
    pub width: u32,
    /// The compact form: badges only.
    pub compact: bool,
    /// Whether the New Conversation button is shown.
    pub new_button: bool,
    /// Whether the Trash tab (rather than the Conversations tab) is highlighted.
    pub trash_tab_highlighted: bool,
    pub row_actions: RowActions,
    pub entries: Vec<SidebarEntry>,
}

/// The positions the sidebar draws: in the compact form every conversation of
/// its list, in order; expanded, those the search lists.
pub open spec fn drawn_positions(s: StateModel) -> Seq<int> {
    if s.sidebar_collapsed {
        Seq::new(source_list(s).len(), |i: int| i)
    } else {
        listed_positions(source_list(s), search_key(s.search_query))
    }
}

/// Whether the sidebar view fits the state: collapsed, it is the narrow
/// compact form with the New button; expanded, the wide list, with the New
/// button only outside the trash; the Trash tab is highlighted exactly in the
/// trash, where rows offer Restore and Delete (else Trash); the entries are the
/// drawn positions, each marked selected exactly when its conversation's id is
/// the selected one.
pub open spec fn sidebar_view_fits(v: SidebarView, s: StateModel) -> bool {
    &&& v.width == (if s.sidebar_collapsed { SIDEBAR_WIDTH_COLLAPSED } else { SIDEBAR_WIDTH_EXPANDED })
    &&& v.compact == s.sidebar_collapsed
    &&& v.new_button == (s.sidebar_collapsed || !s.in_trash)
    &&& v.trash_tab_highlighted == s.in_trash
    &&& v.row_actions == (if s.in_trash { RowActions::RestoreAndDelete } else { RowActions::Trash })
    &&& v.entries@.map_values(|e: SidebarEntry| e.position as int) == drawn_positions(s)
    &&& forall|k: int|
        0 <= k < v.entries@.len() ==> (#[trigger] v.entries@[k]).selected == (s.selected == Some(
            source_list(s)[v.entries@[k].position as int].id,
        ))
}

/// The sidebar's layout for `state` (see [`sidebar_view_fits`]).
pub fn sidebar_view(state: &DesktopState) -> (v: SidebarView)
    ensures
        sidebar_view_fits(v, state@),
{
    proof {
        law_search_narrows_in_order(source_list(state@), search_key(state@.search_query));
    }
    let source = if state.selected_in_trash {
        &state.trashed_conversations
    } else {
        &state.conversations
    };
    let ghost src = source_list(state@);
    assert(conversation_models(source@) == src);
    let positions: Vec<usize> = if state.sidebar_collapsed {
        let mut all: Vec<usize> = Vec::new();
        let mut i: usize = 0;
        while i < source.len()
            invariant
                i <= source@.len(),
                all@.len() == i,
                forall|j: int| 0 <= j < i ==> all@[j] == j,
            decreases source@.len() - i,
        {
            all.push(i);
            i = i + 1;
        }
        assert(all@.map_values(|p: usize| p as int) =~= Seq::new(source@.len(), |j: int| j));
        all
    } else {
        shown_conversations(state)
    };
    let ghost pos = positions@.map_values(|p: usize| p as int);
    assert(pos == drawn_positions(state@));
    let mut entries: Vec<SidebarEntry> = Vec::new();
    let mut k: usize = 0;
    while k < positions.len()
        invariant
            k <= positions@.len(),
            pos == positions@.map_values(|p: usize| p as int),
            pos == drawn_positions(state@),
            forall|m: int| 0 <= m < pos.len() ==> 0 <= #[trigger] pos[m] < src.len(),
            src == conversation_models(source@),
            entries@.len() == k,
            forall|m: int|
                0 <= m < k ==> (#[trigger] entries@[m]).position == positions@[m] && entries@[m].selected == (
                state@.selected == Some(src[positions@[m] as int].id)),
        decreases positions@.len() - k,
    {
        let p = positions[k];
        assert(pos[k as int] == p as int);
        let id = source[p].id;
        let selected = match state.selected_conversation {
            Some(sel) => sel == id,
            None => false,
        };
        entries.push(SidebarEntry { position: p, selected });
        k = k + 1;
    }
    assert(entries@.map_values(|e: SidebarEntry| e.position as int) =~= pos);
    SidebarView {
        width: if state.sidebar_collapsed {
            SIDEBAR_WIDTH_COLLAPSED
        } else {
            SIDEBAR_WIDTH_EXPANDED
        },
        compact: state.sidebar_collapsed,
        new_button: state.sidebar_collapsed || !state.selected_in_trash,
        trash_tab_highlighted: state.selected_in_trash,
        row_actions: if state.selected_in_trash {
            RowActions::RestoreAndDelete
        } else {
            RowActions::Trash
        },
        entries,
    }
}

/// The sidebar's search keeps the list's order and only narrows it: the listed
/// positions are increasing positions of the list, each of a conversation that
/// the query lists, every conversation that the query lists is among them, and
/// an empty query lists every conversation.
pub proof fn law_search_narrows_in_order(list: Seq<ConversationModel>, query: Seq<char>)
    ensures
        forall|i: int, j: int|
            0 <= i < j < listed_positions(list, query).len() ==> #[trigger] listed_positions(list, query)[i]
                < #[trigger] listed_positions(list, query)[j],
        forall|i: int|
            0 <= i < listed_positions(list, query).len() ==> 0 <= #[trigger] listed_positions(list, query)[i]
                < list.len() && listed(list[listed_positions(list, query)[i]], query),
        forall|p: int|
            0 <= p < list.len() && #[trigger] listed(list[p], query) ==> listed_positions(list, query).contains(p),
        query.len() == 0 ==> listed_positions(list, query) == Seq::new(list.len(), |i: int| i),
    decreases list.len(),
{
    if list.len() > 0 {
        let prev_list = list.drop_last();
        law_search_narrows_in_order(prev_list, query);
        let prev = listed_positions(prev_list, query);
        assert forall|k: int| 0 <= k < prev_list.len() implies #[trigger] prev_list[k] == list[k] by {}
        assert forall|p: int| 0 <= p < list.len() && #[trigger] listed(list[p], query) implies listed_positions(
            list,
            query,
        ).contains(p) by {
            if p < list.len() - 1 {
                assert(listed(prev_list[p], query));
                let w = choose|w: int| 0 <= w < prev.len() && prev[w] == p;
                if listed(list.last(), query) {
                    assert(prev.push(list.len() - 1)[w] == p);
                }
            } else {
                assert(listed_positions(list, query).last() == p);
            }
        }
        if query.len() == 0 {
            assert(listed_positions(list, query) =~= Seq::new(list.len(), |i: int| i));
        }
    }
}

} // verus!
