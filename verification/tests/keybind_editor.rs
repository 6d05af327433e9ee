use limux_host_linux::keybinds::{
    binding_button_label, classify_key, pane_action_tooltip, validation_error_message, KeyPress,
    KeyResponse, KeybindEditorState, ShortcutConfigError, ShortcutId, ShortcutLabels,
};

/// The labels of the default bindings that these tests read.
fn default_labels() -> ShortcutLabels {
    let mut labels = ShortcutLabels::new();
    labels.bind(ShortcutId::NewTerminal, "Ctrl+T");
    labels.bind(ShortcutId::SplitRight, "Ctrl+D");
    labels.bind(ShortcutId::SplitDown, "Ctrl+Shift+D");
    labels.bind(ShortcutId::CloseFocusedPane, "Ctrl+W");
    labels
}

#[test]
fn binding_button_label_prefers_current_binding_and_listening_state() {
    let defaults = default_labels();
    assert_eq!(
        binding_button_label(&defaults, ShortcutId::SplitRight, false),
        "Ctrl+D"
    );
    assert_eq!(
        binding_button_label(&defaults, ShortcutId::SplitRight, true),
        "Press shortcut…"
    );

    // `split_right` remapped to `<Ctrl><Alt>h`.
    let mut remapped = default_labels();
    remapped.bind(ShortcutId::SplitRight, "Ctrl+Alt+H");
    assert_eq!(
        binding_button_label(&remapped, ShortcutId::SplitRight, false),
        "Ctrl+Alt+H"
    );
}

#[test]
fn binding_button_label_of_unbound_action() {
    let labels = ShortcutLabels::new();
    assert_eq!(binding_button_label(&labels, ShortcutId::FocusUp, false), "Unbound");
}

#[test]
fn validation_error_message_is_user_facing() {
    let err = ShortcutConfigError::BaseModifierRequired {
        shortcut_id: "split_right".to_string(),
        input: "<Shift>h".to_string(),
    };
    assert_eq!(
        validation_error_message(&err),
        "Use Ctrl or Alt together with another key."
    );
}

#[test]
fn validation_error_message_for_each_reason() {
    let e = |f: fn(String, String) -> ShortcutConfigError| f("split_right".into(), "x".into());
    assert_eq!(
        validation_error_message(&e(|s, i| ShortcutConfigError::ModifierOnlyBinding { shortcut_id: s, input: i })),
        "Choose a non-modifier key for this shortcut."
    );
    assert_eq!(
        validation_error_message(&e(|s, i| ShortcutConfigError::DuplicateBinding { shortcut_id: s, input: i })),
        "That shortcut is already assigned to another action."
    );
    assert_eq!(
        validation_error_message(&e(|s, i| ShortcutConfigError::InvalidBinding { shortcut_id: s, input: i })),
        "That shortcut is not valid."
    );
}

#[test]
fn pane_action_tooltip_reflects_remaps_and_unbinds() {
    let defaults = default_labels();
    assert_eq!(
        pane_action_tooltip(&defaults, "New terminal tab", Some(ShortcutId::NewTerminal)),
        "New terminal tab (Ctrl+T)"
    );
    assert_eq!(
        pane_action_tooltip(&defaults, "New browser tab", None),
        "New browser tab"
    );

    // `split_right` remapped to `<Ctrl><Alt>d`.
    let mut remapped = default_labels();
    remapped.bind(ShortcutId::SplitRight, "Ctrl+Alt+D");
    assert_eq!(
        pane_action_tooltip(&remapped, "Split right", Some(ShortcutId::SplitRight)),
        "Split right (Ctrl+Alt+D)"
    );

    // `close_focused_pane` unbound.
    let mut unbound = ShortcutLabels::new();
    unbound.bind(ShortcutId::NewTerminal, "Ctrl+T");
    assert_eq!(
        pane_action_tooltip(&unbound, "Close pane", Some(ShortcutId::CloseFocusedPane)),
        "Close pane"
    );
}

#[test]
fn keys_reach_only_the_capturing_row() {
    let mut editor = KeybindEditorState::new();
    assert_eq!(
        editor.key_pressed(ShortcutId::SplitRight, KeyPress::Escape),
        KeyResponse::Proceed
    );
    editor.start_listening(ShortcutId::SplitRight);
    assert_eq!(
        editor.key_pressed(ShortcutId::SplitDown, KeyPress::Accepted),
        KeyResponse::Proceed
    );
    assert_eq!(editor.listening(), Some(ShortcutId::SplitRight));
}

#[test]
fn escape_ends_capture_and_clears_error() {
    let labels = default_labels();
    let mut editor = KeybindEditorState::new();
    editor.start_listening(ShortcutId::SplitRight);
    editor.capture_finished(ShortcutId::SplitRight, Err("taken".to_string()));
    assert_eq!(
        editor.row_view(&labels, ShortcutId::SplitRight).error,
        Some("taken".to_string())
    );
    editor.start_listening(ShortcutId::SplitRight);
    let row = editor.row_view(&labels, ShortcutId::SplitRight);
    assert!(row.listening);
    assert_eq!(row.label, "Press shortcut…");
    assert_eq!(row.error, None);
    assert_eq!(
        editor.key_pressed(ShortcutId::SplitRight, KeyPress::Escape),
        KeyResponse::Stop
    );
    assert_eq!(editor.listening(), None);
    let row = editor.row_view(&labels, ShortcutId::SplitRight);
    assert!(!row.listening);
    assert_eq!(row.label, "Ctrl+D");
}

#[test]
fn refused_keys_show_their_message() {
    let labels = default_labels();
    let mut editor = KeybindEditorState::new();
    editor.start_listening(ShortcutId::NewTerminal);
    assert_eq!(
        editor.key_pressed(ShortcutId::NewTerminal, KeyPress::ModifierOnly),
        KeyResponse::Stop
    );
    assert_eq!(
        editor.row_view(&labels, ShortcutId::NewTerminal).error,
        Some("Choose a non-modifier key for this shortcut.".to_string())
    );
    editor.start_listening(ShortcutId::NewTerminal);
    let err = ShortcutConfigError::BaseModifierRequired {
        shortcut_id: "new_terminal".into(),
        input: "<Shift>h".into(),
    };
    assert_eq!(
        editor.key_pressed(ShortcutId::NewTerminal, KeyPress::Rejected(err)),
        KeyResponse::Stop
    );
    assert_eq!(
        editor.row_view(&labels, ShortcutId::NewTerminal).error,
        Some("Use Ctrl or Alt together with another key.".to_string())
    );
    // Other rows keep no error.
    assert_eq!(editor.row_view(&labels, ShortcutId::SplitDown).error, None);
}

#[test]
fn accepted_key_is_captured_then_finished() {
    let mut editor = KeybindEditorState::new();
    editor.start_listening(ShortcutId::FocusLeft);
    assert_eq!(
        editor.key_pressed(ShortcutId::FocusLeft, KeyPress::Accepted),
        KeyResponse::Capture
    );
    assert_eq!(editor.listening(), Some(ShortcutId::FocusLeft));
    editor.capture_finished(ShortcutId::FocusLeft, Ok(()));
    assert_eq!(editor.listening(), None);
    let labels = ShortcutLabels::new();
    assert_eq!(editor.row_view(&labels, ShortcutId::FocusLeft).error, None);
}

#[test]
fn shortcut_rows_have_distinct_indices() {
    assert_eq!(ShortcutId::NewWorkspace.index(), 0);
    assert_eq!(ShortcutId::ActivateLastWorkspace.index(), 24);
}

#[test]
fn keys_are_classified_like_the_editor_hint_says() {
    assert!(matches!(classify_key(ShortcutId::SplitRight, true, false, true, false, "Escape"), KeyPress::Escape));
    assert!(matches!(classify_key(ShortcutId::SplitRight, false, true, false, false, "Shift_L"), KeyPress::ModifierOnly));
    match classify_key(ShortcutId::SplitRight, false, false, false, false, "h") {
        KeyPress::Rejected(ShortcutConfigError::BaseModifierRequired { shortcut_id, input }) => {
            assert_eq!(shortcut_id, "split_right");
            assert_eq!(input, "h");
        }
        _ => panic!("expected a refusal"),
    }
    assert!(matches!(classify_key(ShortcutId::SplitRight, false, false, false, true, "h"), KeyPress::Accepted));
    assert_eq!(ShortcutId::CloseFocusedPane.config_key(), "close_focused_pane");
    assert_eq!(ShortcutId::ActivateWorkspace8.config_key(), "activate_workspace_8");
}
