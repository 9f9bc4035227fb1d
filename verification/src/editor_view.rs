use vstd::prelude::*;

use crate::desktop::{DesktopState, StateModel, ViewMode};

verus! {

/// The height of the issues panel when it is collapsed.
pub const PANEL_HEIGHT_COLLAPSED: u32 = 40;

/// The height of the issues panel when it is expanded.
pub const PANEL_HEIGHT_EXPANDED: u32 = 200;

/// What stands beside the title field.
#[derive(Clone, Copy, PartialEq, Eq, Debug, Structural)]
pub enum TitleAction {
    /// The note that the open conversation is in the trash.
    InTrash,
    /// A button that moves the conversation with this id to the trash.
    MoveToTrash(i64),
    /// Nothing: no conversation is open.
    Nothing,
}

/// What the issues panel shows under its status line.
#[derive(Clone, Copy, PartialEq, Eq, Debug, Structural)]
pub enum PanelContent {
    /// Nothing: the panel is collapsed.
    Collapsed,
    /// The note that there are no issues.
    AllClear,
    /// The list of issues.
    Issues,
}

/// The layout decisions of the editor area.
#[derive(Clone, Copy, PartialEq, Eq, Debug, Structural)]
pub struct EditorView {
    pub title_action: TitleAction,
    pub panel_height: u32,
    pub panel_content: PanelContent,
    pub apply_all_enabled: bool,
    /// Whether the Raw Code, Both Views and Rendered buttons are highlighted.
    pub raw_code_highlighted: bool,
    pub both_views_highlighted: bool,
    pub rendered_highlighted: bool,
}

/// The title action: the trash note while the trash is shown, else a
/// move-to-trash button for the selected conversation, else nothing.
pub open spec fn title_action_of(s: StateModel) -> TitleAction {
    if s.in_trash {
        TitleAction::InTrash
    } else {
        match s.selected {
            Some(id) => TitleAction::MoveToTrash(id),
            None => TitleAction::Nothing,
        }
    }
}

/// The editor area's layout for a state: its title action, the issues panel
/// at its collapsed or expanded height, showing nothing when collapsed, else
/// the all-clear note without lints and the issues with them, and Apply All
/// enabled exactly when there are lints; of the view-mode buttons, exactly the
/// one for the current view mode is highlighted.
pub open spec fn editor_view_of(s: StateModel) -> EditorView {
    EditorView {
        title_action: title_action_of(s),
        panel_height: if s.errors_panel_collapsed {
            PANEL_HEIGHT_COLLAPSED
        } else {
            PANEL_HEIGHT_EXPANDED
        },
        panel_content: if s.errors_panel_collapsed {
            PanelContent::Collapsed
        } else if s.lints.len() == 0 {
            PanelContent::AllClear
        } else {
            PanelContent::Issues
        },
        apply_all_enabled: s.lints.len() > 0,
        raw_code_highlighted: s.view_mode == ViewMode::RawCode,
        both_views_highlighted: s.view_mode == ViewMode::BothViews,
        rendered_highlighted: s.view_mode == ViewMode::RenderedView,
    }
}

/// The editor area's layout for `state` (see [`editor_view_of`]).
pub fn editor_view(state: &DesktopState) -> (v: EditorView)
    ensures
        v == editor_view_of(state@),
{
    let title_action = if state.selected_in_trash {
        TitleAction::InTrash
    } else {
        match state.selected_conversation {
            Some(id) => TitleAction::MoveToTrash(id),
            None => TitleAction::Nothing,
        }
    };
    let panel_height = if state.errors_panel_collapsed {
        PANEL_HEIGHT_COLLAPSED
    } else {
        PANEL_HEIGHT_EXPANDED
    };
    let panel_content = if state.errors_panel_collapsed {
        PanelContent::Collapsed
    } else if state.grammar_lints.len() == 0 {
        PanelContent::AllClear
    } else {
        PanelContent::Issues
    };
    EditorView {
        title_action,
        panel_height,
        panel_content,
        apply_all_enabled: state.grammar_lints.len() > 0,
        raw_code_highlighted: state.view_mode == ViewMode::RawCode,
        both_views_highlighted: state.view_mode == ViewMode::BothViews,
        rendered_highlighted: state.view_mode == ViewMode::RenderedView,
    }
}

/// The editor area's layout: the trash note exactly while the trash is shown,
/// else a move-to-trash button for the open conversation, else nothing; the
/// issues panel is 40 high and shows nothing when collapsed, else 200 high
/// with the all-clear note or the issues; Apply All is enabled exactly when
/// there are lints; exactly the current view mode's button is highlighted.
pub proof fn law_editor_layout(s: StateModel)
    ensures
        ({
            let v = editor_view_of(s);
            &&& (v.title_action == TitleAction::InTrash) == s.in_trash
            &&& forall|id: i64| (v.title_action == TitleAction::MoveToTrash(id)) == (!s.in_trash && s.selected == Some(id))
            &&& (v.title_action == TitleAction::Nothing) == (!s.in_trash && s.selected is None)
            &&& v.panel_height == (if s.errors_panel_collapsed { 40u32 } else { 200u32 })
            &&& (v.panel_content == PanelContent::Collapsed) == s.errors_panel_collapsed
            &&& (v.panel_content == PanelContent::AllClear) == (!s.errors_panel_collapsed && s.lints.len() == 0)
            &&& v.apply_all_enabled == (s.lints.len() != 0)
            &&& v.raw_code_highlighted == (s.view_mode == ViewMode::RawCode)
            &&& v.both_views_highlighted == (s.view_mode == ViewMode::BothViews)
            &&& v.rendered_highlighted == (s.view_mode == ViewMode::RenderedView)
        }),
{
}

} // verus!
