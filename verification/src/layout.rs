//! The saved layout of one pane: what is written when the session is
//! stored and read back when it is restored.
use vstd::prelude::*;

use crate::tabs::{opt_view, TabKindView};

verus! {

/// What a saved tab showed.
pub enum TabContentState {
    Terminal { cwd: Option<String> },
    Browser { uri: Option<String> },
    Keybinds {},
}

impl View for TabContentState {
    type V = TabKindView;

    open spec fn view(&self) -> TabKindView {
        match self {
            TabContentState::Terminal { cwd } => TabKindView::Terminal { cwd: opt_view(*cwd) },
            TabContentState::Browser { uri } => TabKindView::Browser { uri: opt_view(*uri) },
            TabContentState::Keybinds {} => TabKindView::Keybinds,
        }
    }
}

/// One saved tab.
pub struct SavedTabState {
    pub id: String,
    pub custom_name: Option<String>,
    pub pinned: bool,
    pub content: TabContentState,
}

pub struct SavedTabView {
    pub id: Seq<char>,
    pub custom_name: Option<Seq<char>>,
    pub pinned: bool,
    pub content: TabKindView,
}

impl View for SavedTabState {
    type V = SavedTabView;

    open spec fn view(&self) -> SavedTabView {
        SavedTabView {
            id: self.id@,
            custom_name: opt_view(self.custom_name),
            pinned: self.pinned,
            content: self.content@,
        }
    }
}

/// The saved tabs of a pane, in strip order, and the id of the tab that
/// was active.
pub struct PaneState {
    pub active_tab_id: Option<String>,
    pub tabs: Vec<SavedTabState>,
}

pub struct PaneStateView {
    pub active: Option<Seq<char>>,
    pub tabs: Seq<SavedTabView>,
}

pub open spec fn saved_tabs_view(tabs: Seq<SavedTabState>) -> Seq<SavedTabView> {
    tabs.map_values(|t: SavedTabState| t@)
}

impl View for PaneState {
    type V = PaneStateView;

    open spec fn view(&self) -> PaneStateView {
        PaneStateView { active: opt_view(self.active_tab_id), tabs: saved_tabs_view(self.tabs@) }
    }
}

} // verus!
