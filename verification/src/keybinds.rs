//! The shortcut editor: the labels it shows, the messages for rejected
//! bindings, and the state of capturing a new binding for a row.
use vstd::prelude::*;

use crate::tabs::opt_view;

verus! {

/// The host actions that can be bound to a key.
#[derive(Clone, Copy, Debug, PartialEq, Eq, Structural)]
pub enum ShortcutId {
    NewWorkspace,
    CloseWorkspace,
    ToggleSidebar,
    NextWorkspace,
    PrevWorkspace,
    CycleTabPrev,
    CycleTabNext,
    SplitDown,
    NewTerminalInFocusedPane,
    SplitRight,
    CloseFocusedPane,
    NewTerminal,
    FocusLeft,
    FocusRight,
    FocusUp,
    FocusDown,
    ActivateWorkspace1,
    ActivateWorkspace2,
    ActivateWorkspace3,
    ActivateWorkspace4,
    ActivateWorkspace5,
    ActivateWorkspace6,
    ActivateWorkspace7,
    ActivateWorkspace8,
    ActivateLastWorkspace,
}

/// The number of host actions.
pub const SHORTCUT_COUNT: usize = 25;

/// The row of an action in the editor, in the order the actions are listed.
pub open spec fn shortcut_index(id: ShortcutId) -> int {
    match id {
        ShortcutId::NewWorkspace => 0,
        ShortcutId::CloseWorkspace => 1,
        ShortcutId::ToggleSidebar => 2,
        ShortcutId::NextWorkspace => 3,
        ShortcutId::PrevWorkspace => 4,
        ShortcutId::CycleTabPrev => 5,
        ShortcutId::CycleTabNext => 6,
        ShortcutId::SplitDown => 7,
        ShortcutId::NewTerminalInFocusedPane => 8,
        ShortcutId::SplitRight => 9,
        ShortcutId::CloseFocusedPane => 10,
        ShortcutId::NewTerminal => 11,
        ShortcutId::FocusLeft => 12,
        ShortcutId::FocusRight => 13,
        ShortcutId::FocusUp => 14,
        ShortcutId::FocusDown => 15,
        ShortcutId::ActivateWorkspace1 => 16,
        ShortcutId::ActivateWorkspace2 => 17,
        ShortcutId::ActivateWorkspace3 => 18,
        ShortcutId::ActivateWorkspace4 => 19,
        ShortcutId::ActivateWorkspace5 => 20,
        ShortcutId::ActivateWorkspace6 => 21,
        ShortcutId::ActivateWorkspace7 => 22,
        ShortcutId::ActivateWorkspace8 => 23,
        ShortcutId::ActivateLastWorkspace => 24,
    }
}

impl ShortcutId {
    pub fn index(self) -> (r: usize)
        ensures
            r == shortcut_index(self),
            r < SHORTCUT_COUNT,
    {
        match self {
            ShortcutId::NewWorkspace => 0,
            ShortcutId::CloseWorkspace => 1,
            ShortcutId::ToggleSidebar => 2,
            ShortcutId::NextWorkspace => 3,
            ShortcutId::PrevWorkspace => 4,
            ShortcutId::CycleTabPrev => 5,
            ShortcutId::CycleTabNext => 6,
            ShortcutId::SplitDown => 7,
            ShortcutId::NewTerminalInFocusedPane => 8,
            ShortcutId::SplitRight => 9,
            ShortcutId::CloseFocusedPane => 10,
            ShortcutId::NewTerminal => 11,
            ShortcutId::FocusLeft => 12,
            ShortcutId::FocusRight => 13,
            ShortcutId::FocusUp => 14,
            ShortcutId::FocusDown => 15,
            ShortcutId::ActivateWorkspace1 => 16,
            ShortcutId::ActivateWorkspace2 => 17,
            ShortcutId::ActivateWorkspace3 => 18,
            ShortcutId::ActivateWorkspace4 => 19,
            ShortcutId::ActivateWorkspace5 => 20,
            ShortcutId::ActivateWorkspace6 => 21,
            ShortcutId::ActivateWorkspace7 => 22,
            ShortcutId::ActivateWorkspace8 => 23,
            ShortcutId::ActivateLastWorkspace => 24,
        }
    }
}

/// The key that names an action in the configuration file.
pub open spec fn config_key(id: ShortcutId) -> Seq<char> {
    match id {
        ShortcutId::NewWorkspace => "new_workspace"@,
        ShortcutId::CloseWorkspace => "close_workspace"@,
        ShortcutId::ToggleSidebar => "toggle_sidebar"@,
        ShortcutId::NextWorkspace => "next_workspace"@,
        ShortcutId::PrevWorkspace => "prev_workspace"@,
        ShortcutId::CycleTabPrev => "cycle_tab_prev"@,
        ShortcutId::CycleTabNext => "cycle_tab_next"@,
        ShortcutId::SplitDown => "split_down"@,
        ShortcutId::NewTerminalInFocusedPane => "new_terminal_in_focused_pane"@,
        ShortcutId::SplitRight => "split_right"@,
        ShortcutId::CloseFocusedPane => "close_focused_pane"@,
        ShortcutId::NewTerminal => "new_terminal"@,
        ShortcutId::FocusLeft => "focus_left"@,
        ShortcutId::FocusRight => "focus_right"@,
        ShortcutId::FocusUp => "focus_up"@,
        ShortcutId::FocusDown => "focus_down"@,
        ShortcutId::ActivateWorkspace1 => "activate_workspace_1"@,
        ShortcutId::ActivateWorkspace2 => "activate_workspace_2"@,
        ShortcutId::ActivateWorkspace3 => "activate_workspace_3"@,
        ShortcutId::ActivateWorkspace4 => "activate_workspace_4"@,
        ShortcutId::ActivateWorkspace5 => "activate_workspace_5"@,
        ShortcutId::ActivateWorkspace6 => "activate_workspace_6"@,
        ShortcutId::ActivateWorkspace7 => "activate_workspace_7"@,
        ShortcutId::ActivateWorkspace8 => "activate_workspace_8"@,
        ShortcutId::ActivateLastWorkspace => "activate_last_workspace"@,
    }
}

impl ShortcutId {
    pub fn config_key(self) -> (r: &'static str)
        ensures
            r@ == config_key(self),
    {
        proof {
            reveal_strlit("new_workspace");
            reveal_strlit("close_workspace");
            reveal_strlit("toggle_sidebar");
            reveal_strlit("next_workspace");
            reveal_strlit("prev_workspace");
            reveal_strlit("cycle_tab_prev");
            reveal_strlit("cycle_tab_next");
            reveal_strlit("split_down");
            reveal_strlit("new_terminal_in_focused_pane");
            reveal_strlit("split_right");
            reveal_strlit("close_focused_pane");
            reveal_strlit("new_terminal");
            reveal_strlit("focus_left");
            reveal_strlit("focus_right");
            reveal_strlit("focus_up");
            reveal_strlit("focus_down");
            reveal_strlit("activate_workspace_1");
            reveal_strlit("activate_workspace_2");
            reveal_strlit("activate_workspace_3");
            reveal_strlit("activate_workspace_4");
            reveal_strlit("activate_workspace_5");
            reveal_strlit("activate_workspace_6");
            reveal_strlit("activate_workspace_7");
            reveal_strlit("activate_workspace_8");
            reveal_strlit("activate_last_workspace");
        }
        match self {
            ShortcutId::NewWorkspace => "new_workspace",
            ShortcutId::CloseWorkspace => "close_workspace",
            ShortcutId::ToggleSidebar => "toggle_sidebar",
            ShortcutId::NextWorkspace => "next_workspace",
            ShortcutId::PrevWorkspace => "prev_workspace",
            ShortcutId::CycleTabPrev => "cycle_tab_prev",
            ShortcutId::CycleTabNext => "cycle_tab_next",
            ShortcutId::SplitDown => "split_down",
            ShortcutId::NewTerminalInFocusedPane => "new_terminal_in_focused_pane",
            ShortcutId::SplitRight => "split_right",
            ShortcutId::CloseFocusedPane => "close_focused_pane",
            ShortcutId::NewTerminal => "new_terminal",
            ShortcutId::FocusLeft => "focus_left",
            ShortcutId::FocusRight => "focus_right",
            ShortcutId::FocusUp => "focus_up",
            ShortcutId::FocusDown => "focus_down",
            ShortcutId::ActivateWorkspace1 => "activate_workspace_1",
            ShortcutId::ActivateWorkspace2 => "activate_workspace_2",
            ShortcutId::ActivateWorkspace3 => "activate_workspace_3",
            ShortcutId::ActivateWorkspace4 => "activate_workspace_4",
            ShortcutId::ActivateWorkspace5 => "activate_workspace_5",
            ShortcutId::ActivateWorkspace6 => "activate_workspace_6",
            ShortcutId::ActivateWorkspace7 => "activate_workspace_7",
            ShortcutId::ActivateWorkspace8 => "activate_workspace_8",
            ShortcutId::ActivateLastWorkspace => "activate_last_workspace",
        }
    }
}

/// Why a binding was refused.
pub enum ShortcutConfigError {
    /// The binding has neither Ctrl nor Alt.
    BaseModifierRequired { shortcut_id: String, input: String },
    /// The binding is a modifier key alone.
    ModifierOnlyBinding { shortcut_id: String, input: String },
    /// Another action already has the binding.
    DuplicateBinding { shortcut_id: String, input: String },
    /// Any other reason the binding cannot be used.
    InvalidBinding { shortcut_id: String, input: String },
}

/// The message shown under a row for a refused binding.
pub open spec fn error_message(e: ShortcutConfigError) -> Seq<char> {
    match e {
        ShortcutConfigError::BaseModifierRequired { .. } => "Use Ctrl or Alt together with another key."@,
        ShortcutConfigError::ModifierOnlyBinding { .. } => "Choose a non-modifier key for this shortcut."@,
        ShortcutConfigError::DuplicateBinding { .. } => "That shortcut is already assigned to another action."@,
        _ => "That shortcut is not valid."@,
    }
}

pub fn validation_error_message(err: &ShortcutConfigError) -> (r: String)
    ensures
        r@ == error_message(*err),
{
    proof {
        reveal_strlit("Use Ctrl or Alt together with another key.");
        reveal_strlit("Choose a non-modifier key for this shortcut.");
        reveal_strlit("That shortcut is already assigned to another action.");
        reveal_strlit("That shortcut is not valid.");
    }
    match err {
        ShortcutConfigError::BaseModifierRequired { .. } => "Use Ctrl or Alt together with another key.".to_owned(),
        ShortcutConfigError::ModifierOnlyBinding { .. } => "Choose a non-modifier key for this shortcut.".to_owned(),
        ShortcutConfigError::DuplicateBinding { .. } => "That shortcut is already assigned to another action.".to_owned(),
        _ => "That shortcut is not valid.".to_owned(),
    }
}

/// The display labels of the actions that have a key bound (such as
/// `Ctrl+Alt+H`), as the resolved shortcut configuration gives them.
pub struct ShortcutLabels {
    bindings: Vec<(ShortcutId, String)>,
}

pub open spec fn bindings_view(b: Seq<(ShortcutId, String)>) -> Seq<(ShortcutId, Seq<char>)> {
    b.map_values(|p: (ShortcutId, String)| (p.0, p.1@))
}

/// The label recorded first for `id`.
pub open spec fn label_lookup(b: Seq<(ShortcutId, Seq<char>)>, id: ShortcutId) -> Option<Seq<char>>
    decreases b.len(),
{
    if b.len() == 0 {
        None
    } else if b[0].0 == id {
        Some(b[0].1)
    } else {
        label_lookup(b.drop_first(), id)
    }
}

impl View for ShortcutLabels {
    type V = Seq<(ShortcutId, Seq<char>)>;

    closed spec fn view(&self) -> Seq<(ShortcutId, Seq<char>)> {
        bindings_view(self.bindings@)
    }
}

/// The label that `labels` gives an action; `None` for an unbound one.
pub open spec fn label_of(labels: ShortcutLabels, id: ShortcutId) -> Option<Seq<char>> {
    label_lookup(labels@, id)
}

/// The tooltip of a button for an action: `base (label)` when the action
/// has a key, else `base`.
pub open spec fn tooltip(base: Seq<char>, label: Option<Seq<char>>) -> Seq<char> {
    match label {
        Some(l) => base + " ("@ + l + ")"@,
        None => base,
    }
}

impl ShortcutLabels {
    /// No action bound.
    pub fn new() -> (r: ShortcutLabels)
        ensures
            forall|id: ShortcutId| label_of(r, id) is None,
    {
        let r = ShortcutLabels { bindings: Vec::new() };
        assert(r@ =~= Seq::<(ShortcutId, Seq<char>)>::empty());
        r
    }

    pub fn clone_labels(&self) -> (r: ShortcutLabels)
        ensures
            r@ == self@,
    {
        let mut bindings: Vec<(ShortcutId, String)> = Vec::new();
        let n = self.bindings.len();
        let mut i: usize = 0;
        while i < n
            invariant
                n == self.bindings@.len(),
                0 <= i <= n,
                bindings@.len() == i,
                forall|j: int|
                    0 <= j < i ==> #[trigger] bindings@[j].0 == self.bindings@[j].0 && bindings@[j].1@
                        == self.bindings@[j].1@,
            decreases n - i,
        {
            bindings.push((self.bindings[i].0, self.bindings[i].1.clone()));
            i = i + 1;
        }
        let r = ShortcutLabels { bindings };
        assert(r@ =~= self@);
        r
    }

    /// Records that `id` is bound to a key shown as `label`.
    pub fn bind(&mut self, id: ShortcutId, label: &str)
        ensures
            label_of(*final(self), id) == Some(label@),
            forall|other: ShortcutId| other != id ==> label_of(*final(self), other) == label_of(*old(self), other),
    {
        let ghost pre = self@;
        self.bindings.insert(0, (id, label.to_owned()));
        assert(self@ =~= seq![(id, label@)] + pre);
        assert(self@.drop_first() =~= pre);
    }

    /// The display label of the key bound to `id`.
    pub fn display_label_for_id(&self, id: ShortcutId) -> (r: Option<String>)
        ensures
            opt_view(r) == label_of(*self, id),
    {
        let n = self.bindings.len();
        let mut i: usize = 0;
        assert(self@.subrange(0, n as int) =~= self@);
        while i < n
            invariant
                n == self.bindings@.len(),
                n == self@.len(),
                0 <= i <= n,
                label_lookup(self@, id) == label_lookup(self@.subrange(i as int, n as int), id),
            decreases n - i,
        {
            let ghost rest = self@.subrange(i as int, n as int);
            assert(rest[0] == (self.bindings@[i as int].0, self.bindings@[i as int].1@));
            if self.bindings[i].0 == id {
                return Some(self.bindings[i].1.clone());
            }
            assert(rest.drop_first() =~= self@.subrange(i + 1, n as int));
            i = i + 1;
        }
        assert(self@.subrange(n as int, n as int) =~= Seq::<(ShortcutId, Seq<char>)>::empty());
        None
    }

    /// The tooltip for a button of action `id` titled `base`.
    pub fn tooltip_text(&self, id: ShortcutId, base: &str) -> (r: String)
        ensures
            r@ == tooltip(base@, label_of(*self, id)),
    {
        proof {
            reveal_strlit(" (");
            reveal_strlit(")");
        }
        match self.display_label_for_id(id) {
            Some(label) => {
                let mut out = base.to_owned();
                out.append(" (");
                out.append(label.as_str());
                out.append(")");
                out
            },
            None => base.to_owned(),
        }
    }
}

/// The tooltip of a pane's action button; buttons without an action keep
/// their plain title.
pub fn pane_action_tooltip(shortcuts: &ShortcutLabels, base: &str, shortcut_id: Option<ShortcutId>) -> (r: String)
    ensures
        r@ == (match shortcut_id {
            Some(id) => tooltip(base@, label_of(*shortcuts, id)),
            None => base@,
        }),
{
    match shortcut_id {
        Some(id) => shortcuts.tooltip_text(id, base),
        None => base.to_owned(),
    }
}

/// The text of a row's binding button.
pub open spec fn button_label(label: Option<Seq<char>>, listening: bool) -> Seq<char> {
    if listening {
        "Press shortcut\u{2026}"@
    } else {
        match label {
            Some(l) => l,
            None => "Unbound"@,
        }
    }
}

pub fn binding_button_label(shortcuts: &ShortcutLabels, id: ShortcutId, listening: bool) -> (r: String)
    ensures
        r@ == button_label(label_of(*shortcuts, id), listening),
{
    proof {
        reveal_strlit("Press shortcut\u{2026}");
        reveal_strlit("Unbound");
    }
    if listening {
        return "Press shortcut\u{2026}".to_owned();
    }
    match shortcuts.display_label_for_id(id) {
        Some(l) => l,
        None => "Unbound".to_owned(),
    }
}

/// A key pressed on a row's binding button, as the host read it.
pub enum KeyPress {
    /// The Escape key: cancel.
    Escape,
    /// A modifier key alone; there is no binding to take.
    ModifierOnly,
    /// A binding that the host refuses, and why.
    Rejected(ShortcutConfigError),
    /// A binding the host accepts for the row.
    Accepted,
}

/// Reads a key pressed on the binding button of `id`: Escape cancels; a
/// modifier key alone has no binding; a binding needs Ctrl or Alt (Shift
/// may come with them); anything else is a binding to capture. `input` is
/// the key's name, quoted in a refusal.
pub fn classify_key(
    id: ShortcutId,
    is_escape: bool,
    is_modifier_key: bool,
    has_ctrl: bool,
    has_alt: bool,
    input: &str,
) -> (r: KeyPress)
    ensures
        is_escape ==> r is Escape,
        !is_escape && is_modifier_key ==> r is ModifierOnly,
        !is_escape && !is_modifier_key && !has_ctrl && !has_alt ==> (r matches KeyPress::Rejected(
            ShortcutConfigError::BaseModifierRequired { shortcut_id, input: i },
        ) && shortcut_id@ == config_key(id) && i@ == input@),
        !is_escape && !is_modifier_key && (has_ctrl || has_alt) ==> r is Accepted,
{
    if is_escape {
        KeyPress::Escape
    } else if is_modifier_key {
        KeyPress::ModifierOnly
    } else if !has_ctrl && !has_alt {
        KeyPress::Rejected(
            ShortcutConfigError::BaseModifierRequired {
                shortcut_id: id.config_key().to_owned(),
                input: input.to_owned(),
            },
        )
    } else {
        KeyPress::Accepted
    }
}

/// What the key handler answers.
#[derive(Debug, PartialEq, Eq, Structural)]
pub enum KeyResponse {
    /// The row is not capturing: let the key through.
    Proceed,
    /// The key was handled.
    Stop,
    /// Hand the binding to the configuration, then report the outcome with
    /// `capture_finished`; the key is handled.
    Capture,
}

/// Which row is capturing a binding, and the error shown under each row.
pub struct KeybindEditorState {
    listening: Option<ShortcutId>,
    errors: Vec<Option<String>>,
}

pub struct KeybindEditorView {
    pub listening: Option<ShortcutId>,
    pub errors: Seq<Option<Seq<char>>>,
}

impl View for KeybindEditorState {
    type V = KeybindEditorView;

    closed spec fn view(&self) -> KeybindEditorView {
        KeybindEditorView {
            listening: self.listening,
            errors: self.errors@.map_values(|e: Option<String>| opt_view(e)),
        }
    }
}

/// The error shown under the row of `id`.
pub open spec fn error_of(v: KeybindEditorView, id: ShortcutId) -> Option<Seq<char>> {
    v.errors[shortcut_index(id)]
}

/// The editor's errors with the one of `id` set to `e`.
pub open spec fn errors_with(v: KeybindEditorView, id: ShortcutId, e: Option<Seq<char>>) -> Seq<Option<Seq<char>>> {
    v.errors.update(shortcut_index(id), e)
}

/// What one row shows.
pub struct RowView {
    pub label: String,
    pub listening: bool,
    pub error: Option<String>,
}

impl KeybindEditorState {
    /// One error slot per action.
    pub open spec fn wf(&self) -> bool {
        self@.errors.len() == SHORTCUT_COUNT
    }

    /// No row capturing, no errors.
    pub fn new() -> (r: KeybindEditorState)
        ensures
            r.wf(),
            r@.listening is None,
            r@.errors.len() == SHORTCUT_COUNT,
            forall|id: ShortcutId| error_of(r@, id) is None,
    {
        let mut errors: Vec<Option<String>> = Vec::new();
        let mut i: usize = 0;
        while i < SHORTCUT_COUNT
            invariant
                0 <= i <= SHORTCUT_COUNT,
                errors@.len() == i,
                forall|j: int| 0 <= j < i ==> #[trigger] errors@[j] is None,
            decreases SHORTCUT_COUNT - i,
        {
            errors.push(None);
            i = i + 1;
        }
        let r = KeybindEditorState { listening: None, errors };
        assert forall|id: ShortcutId| error_of(r@, id) is None by {
            assert(r.errors@[shortcut_index(id)] is None);
        }
        r
    }

    pub fn listening(&self) -> (r: Option<ShortcutId>)
        ensures
            r == self@.listening,
    {
        self.listening
    }

    fn set_error(&mut self, id: ShortcutId, e: Option<String>)
        requires
            old(self).wf(),
        ensures
            final(self).wf(),
            final(self)@.errors.len() == SHORTCUT_COUNT,
            final(self)@.listening == old(self)@.listening,
            final(self)@.errors == errors_with(old(self)@, id, opt_view(e)),
    {
        let ghost pre = self.errors@;
        let k = id.index();
        self.errors.set(k, e);
        assert(self@.errors =~= errors_with(old(self)@, id, opt_view(e)));
    }

    /// The binding button of `id` was clicked: that row starts capturing
    /// and its error is cleared.
    pub fn start_listening(&mut self, id: ShortcutId)
        requires
            old(self).wf(),
        ensures
            final(self).wf(),
            final(self)@.errors.len() == SHORTCUT_COUNT,
            final(self)@.listening == Some(id),
            final(self)@.errors == errors_with(old(self)@, id, None),
    {
        self.listening = Some(id);
        self.set_error(id, None);
    }

    /// A key was pressed on the binding button of `row`.
    pub fn key_pressed(&mut self, row: ShortcutId, key: KeyPress) -> (r: KeyResponse)
        requires
            old(self).wf(),
        ensures
            final(self).wf(),
            final(self)@.errors.len() == SHORTCUT_COUNT,
            old(self)@.listening != Some(row) ==> r == KeyResponse::Proceed && final(self)@ == old(self)@,
            old(self)@.listening == Some(row) ==> match key {
                KeyPress::Accepted => r == KeyResponse::Capture && final(self)@ == old(self)@,
                KeyPress::Escape => {
                    &&& r == KeyResponse::Stop
                    &&& final(self)@.listening is None
                    &&& final(self)@.errors == errors_with(old(self)@, row, None)
                },
                KeyPress::ModifierOnly => {
                    &&& r == KeyResponse::Stop
                    &&& final(self)@.listening is None
                    &&& final(self)@.errors == errors_with(
                        old(self)@,
                        row,
                        Some("Choose a non-modifier key for this shortcut."@),
                    )
                },
                KeyPress::Rejected(e) => {
                    &&& r == KeyResponse::Stop
                    &&& final(self)@.listening is None
                    &&& final(self)@.errors == errors_with(old(self)@, row, Some(error_message(e)))
                },
            },
    {
        let capturing = match self.listening {
            Some(l) => l == row,
            None => false,
        };
        if !capturing {
            return KeyResponse::Proceed;
        }
        match key {
            KeyPress::Escape => {
                self.listening = None;
                self.set_error(row, None);
                KeyResponse::Stop
            },
            KeyPress::ModifierOnly => {
                let err = ShortcutConfigError::ModifierOnlyBinding {
                    shortcut_id: row.config_key().to_owned(),
                    input: String::new(),
                };
                let msg = validation_error_message(&err);
                self.listening = None;
                self.set_error(row, Some(msg));
                KeyResponse::Stop
            },
            KeyPress::Rejected(e) => {
                let msg = validation_error_message(&e);
                self.listening = None;
                self.set_error(row, Some(msg));
                KeyResponse::Stop
            },
            KeyPress::Accepted => KeyResponse::Capture,
        }
    }

    /// The configuration answered a captured binding for `row`: on success
    /// the row's error is cleared, on failure the answer is shown under it.
    /// Capturing ends either way.
    pub fn capture_finished(&mut self, row: ShortcutId, result: Result<(), String>)
        requires
            old(self).wf(),
        ensures
            final(self).wf(),
            final(self)@.errors.len() == SHORTCUT_COUNT,
            final(self)@.listening is None,
            final(self)@.errors == errors_with(
                old(self)@,
                row,
                match result {
                    Ok(_) => None,
                    Err(e) => Some(e@),
                },
            ),
    {
        self.listening = None;
        match result {
            Ok(()) => self.set_error(row, None),
            Err(e) => self.set_error(row, Some(e)),
        }
    }

    /// What the row of `id` shows.
    pub fn row_view(&self, shortcuts: &ShortcutLabels, id: ShortcutId) -> (r: RowView)
        requires
            self.wf(),
        ensures
            r.listening == (self@.listening == Some(id)),
            r.label@ == button_label(label_of(*shortcuts, id), r.listening),
            opt_view(r.error) == error_of(self@, id),
    {
        let listening = match self.listening {
            Some(l) => l == id,
            None => false,
        };
        let k = id.index();
        let error = match &self.errors[k] {
            Some(e) => Some(e.clone()),
            None => None,
        };
        RowView { label: binding_button_label(shortcuts, id, listening), listening, error }
    }
}

} // verus!
