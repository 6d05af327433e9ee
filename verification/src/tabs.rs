//! The tab strip of one pane as plain data: the ordered tabs and the id of
//! the active one. Widgets are kept apart; every operation here is the
//! state change that the pane's UI code performs on its tab list.
use vstd::prelude::*;

use crate::ids::{is_hyphenated_uuid, next_tab_id};
use crate::layout::{PaneState, PaneStateView, SavedTabState, SavedTabView, TabContentState, saved_tabs_view};
use crate::text::{is_blank, str_equal, terminal_title_display, title_cut_ok, title_display, trims_to_empty};

verus! {

/// The view of an optional string.
pub open spec fn opt_view(o: Option<String>) -> Option<Seq<char>> {
    match o {
        Some(s) => Some(s@),
        None => None,
    }
}

/// Copy of an optional string.
pub fn clone_opt_string(o: &Option<String>) -> (r: Option<String>)
    ensures
        opt_view(r) == opt_view(*o),
{
    match o {
        Some(s) => Some(s.clone()),
        None => None,
    }
}

/// What a tab shows, with the data that a snapshot keeps of it.
pub enum TabKind {
    Terminal { cwd: Option<String> },
    Browser { uri: Option<String> },
    Keybinds,
}

pub enum TabKindView {
    Terminal { cwd: Option<Seq<char>> },
    Browser { uri: Option<Seq<char>> },
    Keybinds,
}

impl View for TabKind {
    type V = TabKindView;

    open spec fn view(&self) -> TabKindView {
        match self {
            TabKind::Terminal { cwd } => TabKindView::Terminal { cwd: opt_view(*cwd) },
            TabKind::Browser { uri } => TabKindView::Browser { uri: opt_view(*uri) },
            TabKind::Keybinds => TabKindView::Keybinds,
        }
    }
}

/// The title a new tab of this kind starts with.
pub open spec fn default_title(kind: TabKindView) -> Seq<char> {
    match kind {
        TabKindView::Terminal { .. } => "Terminal"@,
        TabKindView::Browser { .. } => "Browser"@,
        TabKindView::Keybinds => "Keybinds"@,
    }
}

impl TabKind {
    pub fn duplicate(&self) -> (r: TabKind)
        ensures
            r@ == self@,
    {
        match self {
            TabKind::Terminal { cwd } => TabKind::Terminal { cwd: clone_opt_string(cwd) },
            TabKind::Browser { uri } => TabKind::Browser { uri: clone_opt_string(uri) },
            TabKind::Keybinds => TabKind::Keybinds,
        }
    }

    pub fn default_title(&self) -> (r: String)
        ensures
            r@ == default_title(self@),
    {
        proof {
            reveal_strlit("Terminal");
            reveal_strlit("Browser");
            reveal_strlit("Keybinds");
        }
        match self {
            TabKind::Terminal { .. } => "Terminal".to_owned(),
            TabKind::Browser { .. } => "Browser".to_owned(),
            TabKind::Keybinds => "Keybinds".to_owned(),
        }
    }

    pub fn is_keybinds(&self) -> (r: bool)
        ensures
            r == (self@ is Keybinds),
    {
        match self {
            TabKind::Keybinds => true,
            _ => false,
        }
    }
}

/// One tab: its id, the text of its title label, the name the user gave
/// it, whether it is pinned, and what it shows.
pub struct TabEntry {
    pub id: String,
    pub title: String,
    pub custom_name: Option<String>,
    pub pinned: bool,
    pub kind: TabKind,
}

pub struct TabEntryView {
    pub id: Seq<char>,
    pub title: Seq<char>,
    pub custom_name: Option<Seq<char>>,
    pub pinned: bool,
    pub kind: TabKindView,
}

impl View for TabEntry {
    type V = TabEntryView;

    open spec fn view(&self) -> TabEntryView {
        TabEntryView {
            id: self.id@,
            title: self.title@,
            custom_name: opt_view(self.custom_name),
            pinned: self.pinned,
            kind: self.kind@,
        }
    }
}

/// The entry that a new tab starts as: titled by its custom name if it has
/// one, else by its kind.
pub open spec fn new_entry(
    id: Seq<char>,
    kind: TabKindView,
    custom_name: Option<Seq<char>>,
    pinned: bool,
) -> TabEntryView {
    TabEntryView {
        id,
        title: match custom_name {
            Some(n) => n,
            None => default_title(kind),
        },
        custom_name,
        pinned,
        kind,
    }
}

impl TabEntry {
    pub fn new(id: String, kind: TabKind, custom_name: Option<String>, pinned: bool) -> (r: TabEntry)
        ensures
            r@ == new_entry(id@, kind@, opt_view(custom_name), pinned),
    {
        let title = match &custom_name {
            Some(n) => n.clone(),
            None => kind.default_title(),
        };
        TabEntry { id, title, custom_name, pinned, kind }
    }

    pub fn duplicate(&self) -> (r: TabEntry)
        ensures
            r@ == self@,
    {
        TabEntry {
            id: self.id.clone(),
            title: self.title.clone(),
            custom_name: clone_opt_string(&self.custom_name),
            pinned: self.pinned,
            kind: self.kind.duplicate(),
        }
    }
}

/// The tabs of a pane in strip order, and the id of the active tab.
pub struct TabState {
    pub tabs: Vec<TabEntry>,
    pub active_tab: Option<String>,
}

pub struct TabStateView {
    pub tabs: Seq<TabEntryView>,
    pub active: Option<Seq<char>>,
}

pub open spec fn entries_view(tabs: Seq<TabEntry>) -> Seq<TabEntryView> {
    tabs.map_values(|e: TabEntry| e@)
}

impl View for TabState {
    type V = TabStateView;

    open spec fn view(&self) -> TabStateView {
        TabStateView { tabs: entries_view(self.tabs@), active: opt_view(self.active_tab) }
    }
}

/// `i` is the first position whose tab has id `id`.
pub open spec fn is_first_with_id(tabs: Seq<TabEntryView>, id: Seq<char>, i: int) -> bool {
    &&& 0 <= i < tabs.len()
    &&& tabs[i].id == id
    &&& forall|j: int| 0 <= j < i ==> #[trigger] tabs[j].id != id
}

pub open spec fn has_tab(tabs: Seq<TabEntryView>, id: Seq<char>) -> bool {
    exists|i: int| 0 <= i < tabs.len() && #[trigger] tabs[i].id == id
}

/// The position of the first tab with id `id`, if there is one.
pub open spec fn position_of(tabs: Seq<TabEntryView>, id: Seq<char>) -> Option<int> {
    if has_tab(tabs, id) {
        Some(choose|i: int| is_first_with_id(tabs, id, i))
    } else {
        None
    }
}

proof fn lemma_first_exists(tabs: Seq<TabEntryView>, id: Seq<char>, k: int)
    requires
        0 <= k < tabs.len(),
        tabs[k].id == id,
    ensures
        exists|i: int| is_first_with_id(tabs, id, i),
    decreases k,
{
    if exists|j: int| 0 <= j < k && #[trigger] tabs[j].id == id {
        let j = choose|j: int| 0 <= j < k && #[trigger] tabs[j].id == id;
        lemma_first_exists(tabs, id, j);
    } else {
        assert(is_first_with_id(tabs, id, k));
    }
}

/// `position_of` names the first tab with the id, and is `None` exactly
/// when no tab has it.
pub proof fn lemma_position_of(tabs: Seq<TabEntryView>, id: Seq<char>)
    ensures
        position_of(tabs, id) is None <==> !has_tab(tabs, id),
        position_of(tabs, id) matches Some(i) ==> is_first_with_id(tabs, id, i),
        forall|i: int| is_first_with_id(tabs, id, i) ==> position_of(tabs, id) == Some(i),
{
    if has_tab(tabs, id) {
        let k = choose|k: int| 0 <= k < tabs.len() && #[trigger] tabs[k].id == id;
        lemma_first_exists(tabs, id, k);
        let p = choose|i: int| is_first_with_id(tabs, id, i);
        assert forall|i: int| is_first_with_id(tabs, id, i) implies i == p by {
            if i < p {
                assert(tabs[i].id == id);
            } else if p < i {
                assert(tabs[p].id == id);
            }
        }
    }
}

/// The position that becomes active when the tab at `i` leaves a strip
/// that keeps `len` tabs: the tab that took its place, or the new last one.
pub open spec fn neighbor_index(i: int, len: int) -> int {
    if i < len - 1 {
        i
    } else {
        len - 1
    }
}

/// The contract of removing the first tab with id `id` from `pre`, which
/// gave `post` and the outcome `out`.
pub open spec fn removed_as(
    pre: TabStateView,
    id: Seq<char>,
    post: TabStateView,
    out: RemoveOutcome,
) -> bool {
    match position_of(pre.tabs, id) {
        None => out is NotFound && post == pre,
        Some(i) => {
            &&& post.tabs == pre.tabs.remove(i)
            &&& if post.tabs.len() == 0 {
                out is Emptied && post.active == pre.active
            } else {
                let n = neighbor_index(i, post.tabs.len() as int);
                let was_active = pre.active == Some(id);
                &&& out matches RemoveOutcome::Removed { activated }
                &&& opt_view(activated) == (if was_active {
                    Some(post.tabs[n].id)
                } else {
                    None
                })
                &&& post.active == (if was_active {
                    Some(post.tabs[n].id)
                } else {
                    pre.active
                })
            }
        },
    }
}

/// Some tab with id `id` is pinned.
pub open spec fn any_pinned(tabs: Seq<TabEntryView>, id: Seq<char>) -> bool {
    exists|i: int| 0 <= i < tabs.len() && #[trigger] tabs[i].id == id && tabs[i].pinned
}

/// Some tab with id `id` has a name given by the user.
pub open spec fn any_custom_named(tabs: Seq<TabEntryView>, id: Seq<char>) -> bool {
    exists|i: int| 0 <= i < tabs.len() && #[trigger] tabs[i].id == id && tabs[i].custom_name is Some
}

pub open spec fn with_pinned(e: TabEntryView, pinned: bool) -> TabEntryView {
    TabEntryView { id: e.id, title: e.title, custom_name: e.custom_name, pinned, kind: e.kind }
}

pub open spec fn with_title(e: TabEntryView, title: Seq<char>) -> TabEntryView {
    TabEntryView { id: e.id, title, custom_name: e.custom_name, pinned: e.pinned, kind: e.kind }
}

pub open spec fn with_name(e: TabEntryView, name: Seq<char>) -> TabEntryView {
    TabEntryView { id: e.id, title: name, custom_name: Some(name), pinned: e.pinned, kind: e.kind }
}

pub open spec fn with_kind(e: TabEntryView, kind: TabKindView) -> TabEntryView {
    TabEntryView { id: e.id, title: e.title, custom_name: e.custom_name, pinned: e.pinned, kind }
}

/// The tabs after the terminal of tab `id` reported the title `title`:
/// the first tab with the id shows it, unless some tab with that id has a
/// user-given name or the title is empty.
pub open spec fn titled(tabs: Seq<TabEntryView>, id: Seq<char>, title: Seq<char>) -> Seq<
    TabEntryView,
> {
    if any_custom_named(tabs, id) || title.len() == 0 {
        tabs
    } else {
        match position_of(tabs, id) {
            None => tabs,
            Some(i) => tabs.update(i, with_title(tabs[i], title_display(title))),
        }
    }
}

/// The tabs after the user renamed tab `id` to `name`: a name that is all
/// white space is ignored.
pub open spec fn renamed(tabs: Seq<TabEntryView>, id: Seq<char>, name: Seq<char>) -> Seq<
    TabEntryView,
> {
    if is_blank(name) {
        tabs
    } else {
        match position_of(tabs, id) {
            None => tabs,
            Some(i) => tabs.update(i, with_name(tabs[i], name)),
        }
    }
}

/// The tabs after pinning or unpinning the first tab with id `id`.
pub open spec fn pin_toggled(tabs: Seq<TabEntryView>, id: Seq<char>) -> Seq<TabEntryView> {
    match position_of(tabs, id) {
        None => tabs,
        Some(i) => tabs.update(i, with_pinned(tabs[i], !tabs[i].pinned)),
    }
}

/// `k` is the first keybind-editor tab.
pub open spec fn is_first_keybinds(tabs: Seq<TabEntryView>, k: int) -> bool {
    &&& 0 <= k < tabs.len()
    &&& tabs[k].kind is Keybinds
    &&& forall|j: int| 0 <= j < k ==> !(#[trigger] tabs[j].kind is Keybinds)
}


/// Where a tab taken from position `src` lands when it is dropped before
/// position `insert` of the same strip: removing it first shifts the
/// later positions down by one.
pub open spec fn reorder_target(src: int, insert: int) -> int {
    if src < insert {
        insert - 1
    } else {
        insert
    }
}

/// The position that cycling by `delta` from position `from` reaches in a
/// strip of `len` tabs (wrapping around both ends).
pub open spec fn cycle_index(from: int, delta: int, len: int) -> int {
    (from + delta) % len
}

/// The position cycling starts from: the active tab's, else the first.
pub open spec fn active_index(m: TabStateView) -> int {
    match m.active {
        Some(a) => match position_of(m.tabs, a) {
            Some(p) => p,
            None => 0,
        },
        None => 0,
    }
}

pub open spec fn with_id(e: TabEntryView, id: Seq<char>) -> TabEntryView {
    TabEntryView { id, title: e.title, custom_name: e.custom_name, pinned: e.pinned, kind: e.kind }
}

pub open spec fn min_int(a: int, b: int) -> int {
    if a < b {
        a
    } else {
        b
    }
}

/// The contract of moving tab `id` (first found at position `i` of the
/// source) to position `insert` of the target under the new id `new_id`.
pub open spec fn moved_as(
    src: TabStateView,
    tgt: TabStateView,
    id: Seq<char>,
    insert: int,
    i: int,
    new_id: Seq<char>,
    src_post: TabStateView,
    tgt_post: TabStateView,
) -> bool {
    &&& src_post.tabs == src.tabs.remove(i)
    &&& src_post.active == (if src.active == Some(id) && src_post.tabs.len() > 0 {
        Some(src_post.tabs[neighbor_index(i, src_post.tabs.len() as int)].id)
    } else {
        src.active
    })
    &&& tgt_post.tabs == tgt.tabs.insert(
        min_int(insert, tgt.tabs.len() as int),
        with_id(src.tabs[i], new_id),
    )
    &&& tgt_post.active == Some(new_id)
}

/// A tab as it is saved.
pub open spec fn saved_of(e: TabEntryView) -> SavedTabView {
    SavedTabView { id: e.id, custom_name: e.custom_name, pinned: e.pinned, content: e.kind }
}

/// The saved form of a pane's tabs.
pub open spec fn snapshot_of(m: TabStateView) -> PaneStateView {
    PaneStateView { active: m.active, tabs: m.tabs.map_values(|e: TabEntryView| saved_of(e)) }
}

/// What a restored tab shows: a terminal saved without a directory starts
/// in the pane's working directory.
pub open spec fn restored_kind(c: TabKindView, wd: Option<Seq<char>>) -> TabKindView {
    match c {
        TabKindView::Terminal { cwd } => TabKindView::Terminal {
            cwd: match cwd {
                Some(d) => Some(d),
                None => wd,
            },
        },
        _ => c,
    }
}

pub open spec fn restored_entry(s: SavedTabView, wd: Option<Seq<char>>) -> TabEntryView {
    new_entry(s.id, restored_kind(s.content, wd), s.custom_name, s.pinned)
}

/// The tabs after restoring `saved` behind the tabs `pre`.
pub open spec fn restored_tabs(
    pre: Seq<TabEntryView>,
    saved: PaneStateView,
    wd: Option<Seq<char>>,
) -> Seq<TabEntryView> {
    pre + saved.tabs.map_values(|s: SavedTabView| restored_entry(s, wd))
}

/// The tab active after a restore: the saved active tab when some tab has
/// its id, else the first tab.
pub open spec fn restored_active(tabs: Seq<TabEntryView>, saved_active: Option<Seq<char>>) -> Option<
    Seq<char>,
> {
    match saved_active {
        Some(a) => if has_tab(tabs, a) {
            Some(a)
        } else {
            Some(tabs[0].id)
        },
        None => Some(tabs[0].id),
    }
}

/// The result of moving a tab to another pane.
pub struct MoveReport {
    /// The id the tab carries in the target pane.
    pub new_id: String,
    /// The source pane has no tabs left.
    pub source_emptied: bool,
}

/// Moves the first tab with id `src_tab_id` out of `src` and into `tgt`
/// at position `insert_idx` (or at the end, when that is past it), under
/// a fresh id, and makes it the target's active tab. When it was the
/// source's active tab and the source keeps tabs, the tab that took its
/// place (or the new last tab) becomes active there.
pub fn move_tab_between_panes(
    src: &mut TabState,
    tgt: &mut TabState,
    src_tab_id: &str,
    insert_idx: usize,
) -> (r: Option<MoveReport>)
    ensures
        match position_of(old(src)@.tabs, src_tab_id@) {
            None => r is None && final(src)@ == old(src)@ && final(tgt)@ == old(tgt)@,
            Some(i) => {
                &&& r matches Some(rep)
                &&& is_hyphenated_uuid(rep.new_id@)
                &&& rep.source_emptied == (final(src)@.tabs.len() == 0)
                &&& moved_as(
                    old(src)@,
                    old(tgt)@,
                    src_tab_id@,
                    insert_idx as int,
                    i,
                    rep.new_id@,
                    final(src)@,
                    final(tgt)@,
                )
            },
        },
{
    let src_idx = match src.position(src_tab_id) {
        Some(i) => i,
        None => return None,
    };
    let ghost src_tabs = src.tabs@;
    let mut entry = src.tabs.remove(src_idx);
    proof {
        assert(entries_view(src.tabs@) =~= entries_view(src_tabs).remove(src_idx as int));
    }
    let was_active = match &src.active_tab {
        Some(a) => str_equal(a.as_str(), src_tab_id),
        None => false,
    };
    let emptied = src.tabs.len() == 0;
    if was_active && !emptied {
        let last = src.tabs.len() - 1;
        let n = if src_idx < last {
            src_idx
        } else {
            last
        };
        let neighbor = src.tabs[n].id.clone();
        src.activate(neighbor.as_str());
    }
    let new_id = next_tab_id();
    entry.id = new_id.clone();
    let at = if insert_idx < tgt.tabs.len() {
        insert_idx
    } else {
        tgt.tabs.len()
    };
    let ghost tgt_tabs = tgt.tabs@;
    tgt.tabs.insert(at, entry);
    proof {
        assert(entries_view(tgt.tabs@) =~= entries_view(tgt_tabs).insert(at as int, entry@));
    }
    tgt.activate(new_id.as_str());
    Some(MoveReport { new_id, source_emptied: emptied })
}

/// What removing a tab came to.
pub enum RemoveOutcome {
    /// No tab has the id; nothing changed.
    NotFound,
    /// The tab was the last one; the pane is now empty.
    Emptied,
    /// The tab was removed; `activated` is the neighbour that became
    /// active, when the removed tab was the active one.
    Removed { activated: Option<String> },
}

impl TabState {
    pub fn new() -> (r: TabState)
        ensures
            r@.tabs.len() == 0,
            r@.active is None,
    {
        TabState { tabs: Vec::new(), active_tab: None }
    }

    pub fn len(&self) -> (r: usize)
        ensures
            r == self@.tabs.len(),
    {
        self.tabs.len()
    }

    /// The position of the first tab with the given id.
    pub fn position(&self, id: &str) -> (r: Option<usize>)
        ensures
            match r {
                Some(i) => {
                    &&& is_first_with_id(self@.tabs, id@, i as int)
                    &&& position_of(self@.tabs, id@) == Some(i as int)
                },
                None => position_of(self@.tabs, id@) is None && !has_tab(self@.tabs, id@),
            },
    {
        let n = self.tabs.len();
        let mut i: usize = 0;
        while i < n
            invariant
                n == self.tabs.len(),
                0 <= i <= n,
                forall|j: int| 0 <= j < i ==> #[trigger] self@.tabs[j].id != id@,
            decreases n - i,
        {
            if str_equal(self.tabs[i].id.as_str(), id) {
                proof {
                    assert(is_first_with_id(self@.tabs, id@, i as int));
                    lemma_position_of(self@.tabs, id@);
                }
                return Some(i);
            }
            i = i + 1;
        }
        proof {
            lemma_position_of(self@.tabs, id@);
        }
        None
    }

    /// Makes the tab with the given id the active one. The id is recorded
    /// whether or not a tab has it. Returns false when it was already active.
    pub fn activate(&mut self, id: &str) -> (changed: bool)
        ensures
            changed == (old(self)@.active != Some(id@)),
            final(self)@.tabs == old(self)@.tabs,
            final(self)@.active == Some(id@),
    {
        if let Some(current) = &self.active_tab {
            if str_equal(current.as_str(), id) {
                return false;
            }
        }
        self.active_tab = Some(id.to_owned());
        true
    }

    /// Appends a tab to the strip and makes it the active one.
    pub fn push_tab(&mut self, entry: TabEntry)
        ensures
            final(self)@.tabs == old(self)@.tabs.push(entry@),
            final(self)@.active == Some(entry@.id),
    {
        let id = entry.id.clone();
        self.tabs.push(entry);
        proof {
            assert(entries_view(self.tabs@) =~= entries_view(old(self).tabs@).push(entry@));
        }
        self.activate(id.as_str());
    }

    /// Removes the first tab with the given id. When tabs remain and the
    /// removed tab was active, the tab now at its position (or the last
    /// tab) becomes active.
    pub fn remove_tab(&mut self, id: &str) -> (out: RemoveOutcome)
        ensures
            removed_as(old(self)@, id@, final(self)@, out),
    {
        let idx = match self.position(id) {
            Some(i) => i,
            None => return RemoveOutcome::NotFound,
        };
        let ghost old_tabs = self.tabs@;
        let _entry = self.tabs.remove(idx);
        proof {
            assert(entries_view(self.tabs@) =~= entries_view(old_tabs).remove(idx as int));
        }
        if self.tabs.len() == 0 {
            return RemoveOutcome::Emptied;
        }
        let last = self.tabs.len() - 1;
        let new_idx = if idx < last {
            idx
        } else {
            last
        };
        let new_id = self.tabs[new_idx].id.clone();
        let was_active = match &self.active_tab {
            Some(a) => str_equal(a.as_str(), id),
            None => false,
        };
        if was_active {
            self.activate(new_id.as_str());
            RemoveOutcome::Removed { activated: Some(new_id) }
        } else {
            RemoveOutcome::Removed { activated: None }
        }
    }

    /// Replaces the tab at `i`.
    fn replace_tab(&mut self, i: usize, entry: TabEntry)
        requires
            i < old(self)@.tabs.len(),
        ensures
            final(self)@.tabs == old(self)@.tabs.update(i as int, entry@),
            final(self)@.active == old(self)@.active,
    {
        let ghost old_tabs = self.tabs@;
        self.tabs.set(i, entry);
        proof {
            assert(entries_view(self.tabs@) =~= entries_view(old_tabs).update(i as int, entry@));
        }
    }

    /// The close button of a tab: removes it unless a tab with its id is
    /// pinned, in which case nothing changes and `None` comes back.
    pub fn close_tab(&mut self, id: &str) -> (out: Option<RemoveOutcome>)
        ensures
            any_pinned(old(self)@.tabs, id@) ==> out is None && final(self)@ == old(self)@,
            !any_pinned(old(self)@.tabs, id@) ==> (out matches Some(o) && removed_as(
                old(self)@,
                id@,
                final(self)@,
                o,
            )),
    {
        if self.is_pinned(id) {
            None
        } else {
            Some(self.remove_tab(id))
        }
    }

    /// Whether some tab with the id is pinned.
    pub fn is_pinned(&self, id: &str) -> (r: bool)
        ensures
            r == any_pinned(self@.tabs, id@),
    {
        let n = self.tabs.len();
        let mut i: usize = 0;
        while i < n
            invariant
                n == self.tabs.len(),
                0 <= i <= n,
                forall|j: int|
                    0 <= j < i ==> !(#[trigger] self@.tabs[j].id == id@ && self@.tabs[j].pinned),
            decreases n - i,
        {
            if self.tabs[i].pinned && str_equal(self.tabs[i].id.as_str(), id) {
                assert(self@.tabs[i as int].id == id@ && self@.tabs[i as int].pinned);
                return true;
            }
            i = i + 1;
        }
        false
    }

    /// Whether some tab with the id has a user-given name.
    pub fn has_custom_name(&self, id: &str) -> (r: bool)
        ensures
            r == any_custom_named(self@.tabs, id@),
    {
        let n = self.tabs.len();
        let mut i: usize = 0;
        while i < n
            invariant
                n == self.tabs.len(),
                0 <= i <= n,
                forall|j: int|
                    0 <= j < i ==> !(#[trigger] self@.tabs[j].id == id@
                        && self@.tabs[j].custom_name is Some),
            decreases n - i,
        {
            if self.tabs[i].custom_name.is_some() && str_equal(self.tabs[i].id.as_str(), id) {
                assert(self@.tabs[i as int].id == id@ && self@.tabs[i as int].custom_name is Some);
                return true;
            }
            i = i + 1;
        }
        false
    }

    /// The label of the context-menu item that pins or unpins a tab.
    pub fn pin_menu_label(&self, id: &str) -> (r: &'static str)
        ensures
            r@ == (if any_pinned(self@.tabs, id@) {
                "Unpin"@
            } else {
                "Pin"@
            }),
    {
        proof {
            reveal_strlit("Unpin");
            reveal_strlit("Pin");
        }
        if self.is_pinned(id) {
            "Unpin"
        } else {
            "Pin"
        }
    }

    /// Pins or unpins the first tab with the id; returns its new state.
    pub fn toggle_pin(&mut self, id: &str) -> (r: Option<bool>)
        ensures
            final(self)@.active == old(self)@.active,
            final(self)@.tabs == pin_toggled(old(self)@.tabs, id@),
            r == (match position_of(old(self)@.tabs, id@) {
                None => None,
                Some(i) => Some(!old(self)@.tabs[i].pinned),
            }),
    {
        match self.position(id) {
            None => None,
            Some(i) => {
                let mut entry = self.tabs[i].duplicate();
                entry.pinned = !entry.pinned;
                let pinned = entry.pinned;
                self.replace_tab(i, entry);
                Some(pinned)
            },
        }
    }

    /// The user renamed tab `id` to `new_name`. Returns whether the name
    /// was taken (it is not all white space).
    pub fn rename_tab(&mut self, id: &str, new_name: &str) -> (accepted: bool)
        ensures
            accepted == !is_blank(new_name@),
            final(self)@.tabs == renamed(old(self)@.tabs, id@, new_name@),
            final(self)@.active == old(self)@.active,
    {
        if trims_to_empty(new_name) {
            return false;
        }
        match self.position(id) {
            None => {},
            Some(i) => {
                let mut entry = self.tabs[i].duplicate();
                entry.title = new_name.to_owned();
                entry.custom_name = Some(new_name.to_owned());
                self.replace_tab(i, entry);
            },
        }
        true
    }

    /// The terminal of tab `id` reported a new title.
    pub fn set_terminal_title(&mut self, id: &str, title: &str)
        requires
            any_custom_named(old(self)@.tabs, id@) || title_cut_ok(title@),
        ensures
            final(self)@.tabs == titled(old(self)@.tabs, id@, title@),
            final(self)@.active == old(self)@.active,
    {
        if self.has_custom_name(id) {
            return;
        }
        if title.unicode_len() == 0 {
            return;
        }
        match self.position(id) {
            None => {},
            Some(i) => {
                let mut entry = self.tabs[i].duplicate();
                entry.title = terminal_title_display(title);
                self.replace_tab(i, entry);
            },
        }
    }

    /// The terminal of tab `id` reported its working directory.
    pub fn set_terminal_cwd(&mut self, id: &str, pwd: &str)
        ensures
            final(self)@.active == old(self)@.active,
            final(self)@.tabs == (match position_of(old(self)@.tabs, id@) {
                Some(i) => if old(self)@.tabs[i].kind is Terminal {
                    old(self)@.tabs.update(
                        i,
                        with_kind(old(self)@.tabs[i], TabKindView::Terminal { cwd: Some(pwd@) }),
                    )
                } else {
                    old(self)@.tabs
                },
                None => old(self)@.tabs,
            }),
    {
        match self.position(id) {
            None => {},
            Some(i) => {
                if let TabKind::Terminal { .. } = &self.tabs[i].kind {
                    let mut entry = self.tabs[i].duplicate();
                    entry.kind = TabKind::Terminal { cwd: Some(pwd.to_owned()) };
                    self.replace_tab(i, entry);
                }
            },
        }
    }

    /// The browser of tab `id` moved to a new address.
    pub fn set_browser_uri(&mut self, id: &str, uri: &str)
        ensures
            final(self)@.active == old(self)@.active,
            final(self)@.tabs == (match position_of(old(self)@.tabs, id@) {
                Some(i) => if old(self)@.tabs[i].kind is Browser {
                    old(self)@.tabs.update(
                        i,
                        with_kind(old(self)@.tabs[i], TabKindView::Browser { uri: Some(uri@) }),
                    )
                } else {
                    old(self)@.tabs
                },
                None => old(self)@.tabs,
            }),
    {
        match self.position(id) {
            None => {},
            Some(i) => {
                if let TabKind::Browser { .. } = &self.tabs[i].kind {
                    let mut entry = self.tabs[i].duplicate();
                    entry.kind = TabKind::Browser { uri: Some(uri.to_owned()) };
                    self.replace_tab(i, entry);
                }
            },
        }
    }

    /// The title of the first tab with the id.
    pub fn tab_title(&self, id: &str) -> (r: Option<String>)
        ensures
            opt_view(r) == (match position_of(self@.tabs, id@) {
                Some(i) => Some(self@.tabs[i].title),
                None => None,
            }),
    {
        match self.position(id) {
            None => None,
            Some(i) => Some(self.tabs[i].title.clone()),
        }
    }

    /// The working directory of the first tab with the id, when it is a
    /// terminal that has one.
    pub fn tab_working_directory(&self, id: &str) -> (r: Option<String>)
        ensures
            opt_view(r) == (match position_of(self@.tabs, id@) {
                Some(i) => match self@.tabs[i].kind {
                    TabKindView::Terminal { cwd } => cwd,
                    _ => None,
                },
                None => None,
            }),
    {
        match self.position(id) {
            None => None,
            Some(i) => match &self.tabs[i].kind {
                TabKind::Terminal { cwd } => clone_opt_string(cwd),
                _ => None,
            },
        }
    }

    /// The id of the first keybind-editor tab, if the pane has one.
    pub fn existing_keybinds_tab(&self) -> (r: Option<String>)
        ensures
            match r {
                Some(id) => exists|k: int| is_first_keybinds(self@.tabs, k) && self@.tabs[k].id == id@,
                None => forall|j: int| 0 <= j < self@.tabs.len() ==> !(#[trigger] self@.tabs[j].kind is Keybinds),
            },
    {
        let n = self.tabs.len();
        let mut i: usize = 0;
        while i < n
            invariant
                n == self.tabs.len(),
                0 <= i <= n,
                forall|j: int| 0 <= j < i ==> !(#[trigger] self@.tabs[j].kind is Keybinds),
            decreases n - i,
        {
            if self.tabs[i].kind.is_keybinds() {
                assert(is_first_keybinds(self@.tabs, i as int));
                return Some(self.tabs[i].id.clone());
            }
            i = i + 1;
        }
        None
    }

    /// Opens a new tab of the given kind under a fresh id, at the end of
    /// the strip, and makes it active. Returns the id.
    pub fn add_new_tab(&mut self, kind: TabKind) -> (id: String)
        ensures
            is_hyphenated_uuid(id@),
            final(self)@.tabs == old(self)@.tabs.push(new_entry(id@, kind@, None, false)),
            final(self)@.active == Some(id@),
    {
        let id = next_tab_id();
        let entry = TabEntry::new(id.clone(), kind, None, false);
        self.push_tab(entry);
        id
    }

    /// Moves the first tab with id `source_id` so that it lands before the
    /// tab now at `insert_idx` (or at the end when that is the length).
    /// Returns whether a tab was moved.
    pub fn reorder_tab_to_index(&mut self, source_id: &str, insert_idx: usize) -> (moved: bool)
        requires
            has_tab(old(self)@.tabs, source_id@) ==> insert_idx <= old(self)@.tabs.len(),
        ensures
            final(self)@.active == old(self)@.active,
            match position_of(old(self)@.tabs, source_id@) {
                None => !moved && final(self)@.tabs == old(self)@.tabs,
                Some(i) => moved && final(self)@.tabs == old(self)@.tabs.remove(i).insert(
                    reorder_target(i, insert_idx as int),
                    old(self)@.tabs[i],
                ),
            },
    {
        let src_idx = match self.position(source_id) {
            Some(i) => i,
            None => return false,
        };
        let ghost old_tabs = self.tabs@;
        let entry = self.tabs.remove(src_idx);
        let adjusted = if src_idx < insert_idx {
            insert_idx - 1
        } else {
            insert_idx
        };
        self.tabs.insert(adjusted, entry);
        proof {
            assert(entries_view(self.tabs@) =~= entries_view(old_tabs).remove(src_idx as int).insert(
                adjusted as int,
                entry@,
            ));
        }
        true
    }

    /// Activates the tab `delta` places after the active one (before it,
    /// for a negative `delta`), wrapping around; returns its id. A strip of
    /// one tab or none is left alone.
    pub fn cycle_tab_in_pane(&mut self, delta: i32) -> (r: Option<String>)
        ensures
            old(self)@.tabs.len() <= 1 ==> r is None && final(self)@ == old(self)@,
            old(self)@.tabs.len() > 1 ==> {
                let k = cycle_index(
                    active_index(old(self)@),
                    delta as int,
                    old(self)@.tabs.len() as int,
                );
                &&& opt_view(r) == Some(old(self)@.tabs[k].id)
                &&& final(self)@.tabs == old(self)@.tabs
                &&& final(self)@.active == Some(old(self)@.tabs[k].id)
            },
    {
        let len = self.tabs.len();
        if len <= 1 {
            return None;
        }
        let from: usize = match &self.active_tab {
            Some(a) => match self.position(a.as_str()) {
                Some(p) => p,
                None => 0,
            },
            None => 0,
        };
        let k = cycle_position(from, delta, len);
        let id = self.tabs[k].id.clone();
        self.activate(id.as_str());
        Some(id)
    }

    /// The saved form of the pane's tabs.
    pub fn snapshot_pane_state(&self) -> (r: PaneState)
        ensures
            r@ == snapshot_of(self@),
    {
        let mut tabs: Vec<SavedTabState> = Vec::new();
        let n = self.tabs.len();
        let mut i: usize = 0;
        while i < n
            invariant
                n == self.tabs.len(),
                0 <= i <= n,
                tabs@.len() == i,
                forall|j: int| 0 <= j < i ==> #[trigger] tabs@[j]@ == saved_of(self@.tabs[j]),
            decreases n - i,
        {
            let e = &self.tabs[i];
            let content = match &e.kind {
                TabKind::Terminal { cwd } => TabContentState::Terminal { cwd: clone_opt_string(cwd) },
                TabKind::Browser { uri } => TabContentState::Browser { uri: clone_opt_string(uri) },
                TabKind::Keybinds => TabContentState::Keybinds {},
            };
            tabs.push(
                SavedTabState {
                    id: e.id.clone(),
                    custom_name: clone_opt_string(&e.custom_name),
                    pinned: e.pinned,
                    content,
                },
            );
            i = i + 1;
        }
        let r = PaneState { active_tab_id: clone_opt_string(&self.active_tab), tabs };
        proof {
            assert(saved_tabs_view(r.tabs@) =~= self@.tabs.map_values(|e: TabEntryView| saved_of(e)));
        }
        r
    }

    /// Restores saved tabs behind the current ones, then activates the saved
    /// active tab, or the first tab when no tab has that id. With nothing
    /// saved, a terminal tab in `working_directory` is opened instead,
    /// unless `skip_default_tab`; its id comes back.
    pub fn restore_tabs_from_state(
        &mut self,
        working_directory: Option<&str>,
        saved: &PaneState,
        skip_default_tab: bool,
    ) -> (default_id: Option<String>)
        ensures
            saved@.tabs.len() == 0 && skip_default_tab ==> default_id is None && final(self)@
                == old(self)@,
            saved@.tabs.len() == 0 && !skip_default_tab ==> {
                &&& default_id matches Some(id)
                &&& is_hyphenated_uuid(id@)
                &&& final(self)@.tabs == old(self)@.tabs.push(
                    new_entry(id@, TabKindView::Terminal { cwd: str_opt_view(working_directory) }, None, false),
                )
                &&& final(self)@.active == Some(id@)
            },
            saved@.tabs.len() > 0 ==> {
                &&& default_id is None
                &&& final(self)@.tabs == restored_tabs(
                    old(self)@.tabs,
                    saved@,
                    str_opt_view(working_directory),
                )
                &&& final(self)@.active == restored_active(final(self)@.tabs, saved@.active)
            },
    {
        let wd: Option<String> = match working_directory {
            Some(d) => Some(d.to_owned()),
            None => None,
        };
        if saved.tabs.len() == 0 {
            if skip_default_tab {
                return None;
            }
            let id = self.add_new_tab(TabKind::Terminal { cwd: wd });
            return Some(id);
        }
        let ghost pre = self@.tabs;
        let ghost wdv = str_opt_view(working_directory);
        let n = saved.tabs.len();
        let mut i: usize = 0;
        while i < n
            invariant
                n == saved@.tabs.len(),
                0 <= i <= n,
                opt_view(wd) == wdv,
                self@.tabs.len() == pre.len() + i,
                self@.tabs.subrange(0, pre.len() as int) == pre,
                forall|j: int|
                    0 <= j < i ==> #[trigger] self@.tabs[pre.len() + j] == restored_entry(
                        saved@.tabs[j],
                        wdv,
                    ),
            decreases n - i,
        {
            let s = &saved.tabs[i];
            let kind = match &s.content {
                TabContentState::Terminal { cwd } => TabKind::Terminal {
                    cwd: match cwd {
                        Some(d) => Some(d.clone()),
                        None => clone_opt_string(&wd),
                    },
                },
                TabContentState::Browser { uri } => TabKind::Browser { uri: clone_opt_string(uri) },
                TabContentState::Keybinds {} => TabKind::Keybinds,
            };
            let entry = TabEntry::new(s.id.clone(), kind, clone_opt_string(&s.custom_name), s.pinned);
            assert(entry@ == restored_entry(saved@.tabs[i as int], wdv));
            self.push_tab(entry);
            i = i + 1;
        }
        proof {
            let want = restored_tabs(pre, saved@, wdv);
            assert forall|k: int| 0 <= k < self@.tabs.len() implies self@.tabs[k] == want[k] by {
                if k < pre.len() {
                    assert(self@.tabs.subrange(0, pre.len() as int)[k] == pre[k]);
                } else {
                    assert(self@.tabs[pre.len() + (k - pre.len())] == restored_entry(
                        saved@.tabs[k - pre.len()],
                        wdv,
                    ));
                }
            }
            assert(self@.tabs =~= want);
        }
        let target: String = match &saved.active_tab_id {
            Some(a) => if self.position(a.as_str()).is_some() {
                a.clone()
            } else {
                self.tabs[0].id.clone()
            },
            None => self.tabs[0].id.clone(),
        };
        self.activate(target.as_str());
        None
    }

    /// The starting tabs of a new pane: the saved ones when there are saved
    /// tabs, else a terminal tab in `working_directory` unless
    /// `skip_default_tab`.
    pub fn initial_for_pane(
        working_directory: Option<&str>,
        initial_state: Option<&PaneState>,
        skip_default_tab: bool,
    ) -> (r: TabState)
        ensures
            match initial_state {
                Some(saved) => if saved@.tabs.len() > 0 {
                    &&& r@.tabs == restored_tabs(Seq::empty(), saved@, str_opt_view(working_directory))
                    &&& r@.active == restored_active(r@.tabs, saved@.active)
                } else {
                    default_start(r@, working_directory, skip_default_tab)
                },
                None => default_start(r@, working_directory, skip_default_tab),
            },
    {
        let mut state = TabState::new();
        match initial_state {
            Some(saved) => {
                state.restore_tabs_from_state(working_directory, saved, skip_default_tab);
            },
            None => {
                if !skip_default_tab {
                    let wd: Option<String> = match working_directory {
                        Some(d) => Some(d.to_owned()),
                        None => None,
                    };
                    state.add_new_tab(TabKind::Terminal { cwd: wd });
                }
            },
        }
        proof {
            if let Some(saved) = initial_state {
                assert(Seq::<TabEntryView>::empty() == entries_view(Seq::<TabEntry>::empty()));
            }
        }
        state
    }

    /// Opens the keybind editor: activates the pane's first keybind-editor
    /// tab when it has one, else opens a new one at the end.
    pub fn add_keybind_editor_tab_to_pane(&mut self) -> (r: KeybindsTab)
        ensures
            match r {
                KeybindsTab::Existing(id) => {
                    &&& exists|k: int| is_first_keybinds(old(self)@.tabs, k) && old(self)@.tabs[k].id == id@
                    &&& final(self)@.tabs == old(self)@.tabs
                    &&& final(self)@.active == Some(id@)
                },
                KeybindsTab::Created(id) => {
                    &&& forall|j: int| 0 <= j < old(self)@.tabs.len() ==> !(#[trigger] old(self)@.tabs[j].kind is Keybinds)
                    &&& is_hyphenated_uuid(id@)
                    &&& final(self)@.tabs == old(self)@.tabs.push(new_entry(id@, TabKindView::Keybinds, None, false))
                    &&& final(self)@.active == Some(id@)
                },
            },
    {
        match self.existing_keybinds_tab() {
            Some(id) => {
                self.activate(id.as_str());
                KeybindsTab::Existing(id)
            },
            None => KeybindsTab::Created(self.add_new_tab(TabKind::Keybinds)),
        }
    }
}

/// How the keybind editor was opened.
pub enum KeybindsTab {
    /// The pane's existing editor tab was activated.
    Existing(String),
    /// A new editor tab with this id was opened.
    Created(String),
}

/// A new pane with no saved tabs: one terminal tab in `working_directory`
/// under a fresh id, active, unless `skip` asks for an empty pane.
pub open spec fn default_start(m: TabStateView, working_directory: Option<&str>, skip: bool) -> bool {
    if skip {
        m.tabs.len() == 0 && m.active is None
    } else {
        &&& m.tabs.len() == 1
        &&& is_hyphenated_uuid(m.tabs[0].id)
        &&& m.tabs[0] == new_entry(
            m.tabs[0].id,
            TabKindView::Terminal { cwd: str_opt_view(working_directory) },
            None,
            false,
        )
        &&& m.active == Some(m.tabs[0].id)
    }
}

/// Moves a tab to the end of another pane's strip (a drop on a pane in
/// the sidebar).
pub fn move_tab_to_pane(src: &mut TabState, tgt: &mut TabState, source_tab_id: &str) -> (r: Option<
    MoveReport,
>)
    ensures
        match position_of(old(src)@.tabs, source_tab_id@) {
            None => r is None && final(src)@ == old(src)@ && final(tgt)@ == old(tgt)@,
            Some(i) => {
                &&& r matches Some(rep)
                &&& is_hyphenated_uuid(rep.new_id@)
                &&& rep.source_emptied == (final(src)@.tabs.len() == 0)
                &&& moved_as(
                    old(src)@,
                    old(tgt)@,
                    source_tab_id@,
                    old(tgt)@.tabs.len() as int,
                    i,
                    rep.new_id@,
                    final(src)@,
                    final(tgt)@,
                )
            },
        },
{
    let target_len = tgt.tabs.len();
    move_tab_between_panes(src, tgt, source_tab_id, target_len)
}

/// How a tab button shows its pin state.
pub struct PinVisuals {
    /// The text of the pin icon.
    pub icon: &'static str,
    pub icon_visible: bool,
    /// Whether the tab's close button shows (a pinned tab cannot be closed
    /// from its button).
    pub close_visible: bool,
}

pub fn pin_visuals(pinned: bool) -> (r: PinVisuals)
    ensures
        r.icon@ == (if pinned {
            "\u{1F4CC}"@
        } else {
            ""@
        }),
        r.icon_visible == pinned,
        r.close_visible == !pinned,
{
    proof {
        reveal_strlit("\u{1F4CC}");
        reveal_strlit("");
    }
    PinVisuals { icon: if pinned { "\u{1F4CC}" } else { "" }, icon_visible: pinned, close_visible: !pinned }
}

/// The view of an optional string slice.
pub open spec fn str_opt_view(o: Option<&str>) -> Option<Seq<char>> {
    match o {
        Some(s) => Some(s@),
        None => None,
    }
}

/// `(from + delta) mod len`, computed without overflow.
pub fn cycle_position(from: usize, delta: i32, len: usize) -> (k: usize)
    requires
        from < len,
    ensures
        k == cycle_index(from as int, delta as int, len as int),
        k < len,
{
    let l = len as u128;
    let f = from as u128;
    if delta >= 0 {
        let m = (delta as u128) % l;
        let r = (f + m) % l;
        proof {
            vstd::arithmetic::div_mod::lemma_add_mod_noop_right(from as int, delta as int, len as int);
            vstd::arithmetic::div_mod::lemma_mod_bound(from as int + delta as int, len as int);
        }
        r as usize
    } else {
        let e = (-(delta as i64)) as u128;
        let m = e % l;
        let r = (f + l - m) % l;
        proof {
            vstd::arithmetic::div_mod::lemma_mod_bound(e as int, len as int);
            vstd::arithmetic::div_mod::lemma_sub_mod_noop_right(from as int, e as int, len as int);
            vstd::arithmetic::div_mod::lemma_mod_sub_multiples_vanish(
                from as int + len as int - m as int,
                len as int,
            );
            vstd::arithmetic::div_mod::lemma_mod_bound(from as int - e as int, len as int);
            assert(from as int + delta as int == from as int - e as int);
        }
        r as usize
    }
}

} // verus!
