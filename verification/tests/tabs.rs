use limux_host_linux::layout::{PaneState, SavedTabState, TabContentState};
use limux_host_linux::tabs::{
    cycle_position, move_tab_between_panes, move_tab_to_pane, pin_visuals, KeybindsTab,
    RemoveOutcome, TabEntry, TabKind, TabState,
};

fn terminal(id: &str) -> TabEntry {
    TabEntry::new(id.to_string(), TabKind::Terminal { cwd: None }, None, false)
}

fn strip(ids: &[&str]) -> TabState {
    let mut s = TabState::new();
    for id in ids {
        s.push_tab(terminal(id));
    }
    s
}

fn ids(s: &TabState) -> Vec<String> {
    s.tabs.iter().map(|t| t.id.clone()).collect()
}

fn is_uuid_text(s: &str) -> bool {
    s.len() == 36
        && s.as_bytes()[14] == b'4'
        && matches!(s.as_bytes()[19], b'8' | b'9' | b'a' | b'b')
        && s.char_indices().all(|(i, c)| {
            if [8, 13, 18, 23].contains(&i) {
                c == '-'
            } else {
                c.is_ascii_digit() || ('a'..='f').contains(&c)
            }
        })
}

#[test]
fn pushing_a_tab_activates_it() {
    let s = strip(&["a", "b"]);
    assert_eq!(ids(&s), vec!["a", "b"]);
    assert_eq!(s.active_tab.as_deref(), Some("b"));
    assert_eq!(s.tabs[0].title, "Terminal");
}

#[test]
fn new_tabs_get_fresh_uuid_ids() {
    let mut s = TabState::new();
    let a = s.add_new_tab(TabKind::Browser { uri: None });
    let b = s.add_new_tab(TabKind::Keybinds);
    assert!(is_uuid_text(&a));
    assert!(is_uuid_text(&b));
    assert_ne!(a, b);
    assert_eq!(s.tabs[0].title, "Browser");
    assert_eq!(s.tabs[1].title, "Keybinds");
    assert_eq!(s.active_tab, Some(b));
}

#[test]
fn activate_reports_whether_it_changed() {
    let mut s = strip(&["a", "b"]);
    assert!(!s.activate("b"));
    assert!(s.activate("a"));
    assert_eq!(s.active_tab.as_deref(), Some("a"));
}

#[test]
fn removing_the_active_tab_activates_its_neighbour() {
    let mut s = strip(&["a", "b", "c"]);
    s.activate("b");
    match s.remove_tab("b") {
        RemoveOutcome::Removed { activated } => assert_eq!(activated.as_deref(), Some("c")),
        _ => panic!("expected a removal"),
    }
    assert_eq!(ids(&s), vec!["a", "c"]);
    assert_eq!(s.active_tab.as_deref(), Some("c"));
    // The last tab's neighbour is the new last tab.
    match s.remove_tab("c") {
        RemoveOutcome::Removed { activated } => assert_eq!(activated.as_deref(), Some("a")),
        _ => panic!("expected a removal"),
    }
}

#[test]
fn removing_an_inactive_tab_keeps_the_active_one() {
    let mut s = strip(&["a", "b", "c"]);
    match s.remove_tab("a") {
        RemoveOutcome::Removed { activated } => assert_eq!(activated, None),
        _ => panic!("expected a removal"),
    }
    assert_eq!(s.active_tab.as_deref(), Some("c"));
    assert!(matches!(s.remove_tab("zz"), RemoveOutcome::NotFound));
    assert_eq!(ids(&s), vec!["b", "c"]);
}

#[test]
fn removing_the_last_tab_empties_the_pane() {
    let mut s = strip(&["a"]);
    assert!(matches!(s.remove_tab("a"), RemoveOutcome::Emptied));
    assert_eq!(s.len(), 0);
}

#[test]
fn pinned_tabs_are_not_closed_from_their_button() {
    let mut s = strip(&["a", "b"]);
    assert_eq!(s.pin_menu_label("a"), "Pin");
    assert_eq!(s.toggle_pin("a"), Some(true));
    assert_eq!(s.pin_menu_label("a"), "Unpin");
    assert!(s.close_tab("a").is_none());
    assert_eq!(ids(&s), vec!["a", "b"]);
    assert!(matches!(s.close_tab("b"), Some(RemoveOutcome::Removed { .. })));
    assert_eq!(ids(&s), vec!["a"]);
    // The context menu's Close removes even a pinned tab.
    assert!(matches!(s.remove_tab("a"), RemoveOutcome::Emptied));
}

#[test]
fn pinning_twice_restores_the_tab() {
    let mut s = strip(&["a"]);
    assert_eq!(s.toggle_pin("a"), Some(true));
    assert_eq!(s.toggle_pin("a"), Some(false));
    assert!(!s.tabs[0].pinned);
    assert_eq!(s.toggle_pin("missing"), None);
}

#[test]
fn pin_visuals_hide_the_close_button() {
    let v = pin_visuals(true);
    assert_eq!(v.icon, "📌");
    assert!(v.icon_visible && !v.close_visible);
    let v = pin_visuals(false);
    assert_eq!(v.icon, "");
    assert!(!v.icon_visible && v.close_visible);
}

#[test]
fn renaming_ignores_blank_names() {
    let mut s = strip(&["a"]);
    assert!(!s.rename_tab("a", " \t\u{3000} "));
    assert_eq!(s.tabs[0].custom_name, None);
    assert!(s.rename_tab("a", "build"));
    assert_eq!(s.tabs[0].custom_name.as_deref(), Some("build"));
    assert_eq!(s.tab_title("a").as_deref(), Some("build"));
}

#[test]
fn terminal_titles_are_cut_after_twenty_one_bytes() {
    let mut s = strip(&["a"]);
    s.set_terminal_title("a", "vim");
    assert_eq!(s.tab_title("a").as_deref(), Some("vim"));
    s.set_terminal_title("a", "");
    assert_eq!(s.tab_title("a").as_deref(), Some("vim"));
    // 22 bytes: shown whole.
    s.set_terminal_title("a", "0123456789012345678901");
    assert_eq!(s.tab_title("a").as_deref(), Some("0123456789012345678901"));
    // 23 bytes: cut.
    s.set_terminal_title("a", "01234567890123456789012");
    assert_eq!(s.tab_title("a").as_deref(), Some("012345678901234567890…"));
}

#[test]
fn a_named_tab_keeps_its_name_when_the_terminal_retitles() {
    let mut s = strip(&["a"]);
    s.rename_tab("a", "mine");
    s.set_terminal_title("a", "bash");
    assert_eq!(s.tab_title("a").as_deref(), Some("mine"));
}

#[test]
fn working_directory_of_terminals_only() {
    let mut s = strip(&["t"]);
    s.push_tab(TabEntry::new("w".into(), TabKind::Browser { uri: None }, None, false));
    assert_eq!(s.tab_working_directory("t"), None);
    s.set_terminal_cwd("t", "/home/u");
    s.set_terminal_cwd("w", "/tmp");
    assert_eq!(s.tab_working_directory("t").as_deref(), Some("/home/u"));
    assert_eq!(s.tab_working_directory("w"), None);
    s.set_browser_uri("w", "https://example.org");
    let snap = s.snapshot_pane_state();
    match &snap.tabs[1].content {
        TabContentState::Browser { uri } => assert_eq!(uri.as_deref(), Some("https://example.org")),
        _ => panic!("expected a browser tab"),
    }
}

#[test]
fn reorder_moves_a_tab_before_the_insertion_point() {
    let mut s = strip(&["a", "b", "c", "d"]);
    assert!(s.reorder_tab_to_index("a", 3));
    assert_eq!(ids(&s), vec!["b", "c", "a", "d"]);
    assert!(s.reorder_tab_to_index("d", 0));
    assert_eq!(ids(&s), vec!["d", "b", "c", "a"]);
    assert!(s.reorder_tab_to_index("b", 4));
    assert_eq!(ids(&s), vec!["d", "c", "a", "b"]);
    // Dropping a tab next to itself changes nothing.
    assert!(s.reorder_tab_to_index("c", 2));
    assert_eq!(ids(&s), vec!["d", "c", "a", "b"]);
    assert!(!s.reorder_tab_to_index("zz", 0));
}

#[test]
fn cycling_wraps_both_ways() {
    let mut s = strip(&["a", "b", "c"]);
    assert_eq!(s.cycle_tab_in_pane(1).as_deref(), Some("a"));
    assert_eq!(s.cycle_tab_in_pane(-1).as_deref(), Some("c"));
    assert_eq!(s.cycle_tab_in_pane(-1).as_deref(), Some("b"));
    assert_eq!(s.cycle_tab_in_pane(1).as_deref(), Some("c"));
    let mut one = strip(&["a"]);
    assert_eq!(one.cycle_tab_in_pane(1), None);
}

#[test]
fn cycling_from_an_unknown_active_tab_starts_at_the_first() {
    let mut s = strip(&["a", "b", "c"]);
    s.activate("gone");
    assert_eq!(s.cycle_tab_in_pane(1).as_deref(), Some("b"));
}

#[test]
fn cycle_position_is_euclidean() {
    assert_eq!(cycle_position(0, -1, 3), 2);
    assert_eq!(cycle_position(2, 1, 3), 0);
    assert_eq!(cycle_position(1, -7, 3), 0);
    assert_eq!(cycle_position(1, i32::MIN, 5), (1 + (i32::MIN as i64)).rem_euclid(5) as usize);
    assert_eq!(cycle_position(4, i32::MAX, 7), (4 + i32::MAX as i64).rem_euclid(7) as usize);
}

#[test]
fn moving_a_tab_renames_it_and_activates_neighbours() {
    let mut src = strip(&["a", "b", "c"]);
    src.activate("b");
    let mut tgt = strip(&["x", "y"]);
    let rep = move_tab_between_panes(&mut src, &mut tgt, "b", 1).expect("moved");
    assert!(is_uuid_text(&rep.new_id));
    assert!(!rep.source_emptied);
    assert_eq!(ids(&src), vec!["a", "c"]);
    assert_eq!(src.active_tab.as_deref(), Some("c"));
    assert_eq!(ids(&tgt), vec!["x".to_string(), rep.new_id.clone(), "y".to_string()]);
    assert_eq!(tgt.active_tab.as_deref(), Some(rep.new_id.as_str()));
    assert_eq!(src.len() + tgt.len(), 5);
}

#[test]
fn moving_past_the_end_appends_and_can_empty_the_source() {
    let mut src = strip(&["a"]);
    let mut tgt = strip(&["x"]);
    let rep = move_tab_between_panes(&mut src, &mut tgt, "a", 99).expect("moved");
    assert!(rep.source_emptied);
    assert_eq!(tgt.tabs[1].id, rep.new_id);
    assert!(move_tab_between_panes(&mut src, &mut tgt, "a", 0).is_none());
    let mut other = strip(&["p", "q"]);
    let rep = move_tab_to_pane(&mut tgt, &mut other, "x").expect("moved");
    assert_eq!(other.tabs[2].id, rep.new_id);
}

fn saved(id: &str, content: TabContentState, name: Option<&str>, pinned: bool) -> SavedTabState {
    SavedTabState { id: id.into(), custom_name: name.map(String::from), pinned, content }
}

#[test]
fn restore_fills_in_working_directory_and_active_tab() {
    let state = PaneState {
        active_tab_id: Some("w".into()),
        tabs: vec![
            saved("t", TabContentState::Terminal { cwd: None }, None, false),
            saved("w", TabContentState::Browser { uri: Some("https://a.b".into()) }, Some("docs"), true),
            saved("k", TabContentState::Keybinds {}, None, false),
        ],
    };
    let s = TabState::initial_for_pane(Some("/work"), Some(&state), false);
    assert_eq!(ids(&s), vec!["t", "w", "k"]);
    assert_eq!(s.active_tab.as_deref(), Some("w"));
    assert_eq!(s.tab_working_directory("t").as_deref(), Some("/work"));
    assert_eq!(s.tab_title("w").as_deref(), Some("docs"));
    assert_eq!(s.tab_title("k").as_deref(), Some("Keybinds"));
    assert!(s.tabs[1].pinned);
}

#[test]
fn restore_with_unknown_active_tab_activates_the_first() {
    let state = PaneState {
        active_tab_id: Some("nope".into()),
        tabs: vec![
            saved("t", TabContentState::Terminal { cwd: Some("/x".into()) }, None, false),
            saved("u", TabContentState::Terminal { cwd: None }, None, false),
        ],
    };
    let s = TabState::initial_for_pane(None, Some(&state), true);
    assert_eq!(s.active_tab.as_deref(), Some("t"));
    assert_eq!(s.tab_working_directory("u"), None);
}

#[test]
fn an_empty_save_opens_a_default_terminal_unless_skipped() {
    let empty = PaneState { active_tab_id: None, tabs: vec![] };
    let s = TabState::initial_for_pane(Some("/home"), Some(&empty), false);
    assert_eq!(s.len(), 1);
    assert!(is_uuid_text(&s.tabs[0].id));
    assert_eq!(s.tab_working_directory(&s.tabs[0].id).as_deref(), Some("/home"));
    let s = TabState::initial_for_pane(Some("/home"), Some(&empty), true);
    assert_eq!(s.len(), 0);
    let s = TabState::initial_for_pane(None, None, false);
    assert_eq!(s.len(), 1);
    assert_eq!(s.active_tab.as_deref(), Some(s.tabs[0].id.as_str()));
    let s = TabState::initial_for_pane(None, None, true);
    assert_eq!(s.len(), 0);
}

#[test]
fn snapshot_then_restore_gives_the_same_tabs() {
    let mut s = strip(&["a", "b"]);
    s.push_tab(TabEntry::new("c".into(), TabKind::Keybinds, Some("keys".into()), true));
    s.set_terminal_cwd("a", "/srv");
    s.activate("b");
    let snap = s.snapshot_pane_state();
    assert_eq!(snap.active_tab_id.as_deref(), Some("b"));
    let back = TabState::initial_for_pane(None, Some(&snap), false);
    assert_eq!(ids(&back), ids(&s));
    assert_eq!(back.active_tab, s.active_tab);
    let snap2 = back.snapshot_pane_state();
    assert_eq!(snap2.tabs.len(), snap.tabs.len());
    for (x, y) in snap.tabs.iter().zip(snap2.tabs.iter()) {
        assert_eq!(x.id, y.id);
        assert_eq!(x.custom_name, y.custom_name);
        assert_eq!(x.pinned, y.pinned);
    }
    assert_eq!(back.tab_working_directory("a").as_deref(), Some("/srv"));
}

#[test]
fn keybind_editor_is_opened_once() {
    let mut s = strip(&["a"]);
    let first = match s.add_keybind_editor_tab_to_pane() {
        KeybindsTab::Created(id) => id,
        KeybindsTab::Existing(_) => panic!("expected a new tab"),
    };
    s.activate("a");
    match s.add_keybind_editor_tab_to_pane() {
        KeybindsTab::Existing(id) => assert_eq!(id, first),
        KeybindsTab::Created(_) => panic!("expected the existing tab"),
    }
    assert_eq!(s.len(), 2);
    assert_eq!(s.active_tab, Some(first));
}

#[test]
fn custom_named_tab_ignores_uncuttable_title() {
    let mut s = strip(&["a"]);
    s.rename_tab("a", "mine");
    // Byte 21 falls inside 'é': the title could not be cut, but it is not shown.
    let title = "01234567890123456789é0123";
    assert!(!title.is_char_boundary(21));
    s.set_terminal_title("a", title);
    assert_eq!(s.tab_title("a").as_deref(), Some("mine"));
}
