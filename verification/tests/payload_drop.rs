use limux_host_linux::drop::{
    indicator_position, plan_content_drop, plan_strip_drop, zone_css_class, ContentDrop,
    DropZone, SplitOrientation, StripDrop, TabBounds,
};
use limux_host_linux::payload::{decimal_string, drag_payload, parse_drag_payload, parse_u32};
use limux_host_linux::tabs::{TabEntry, TabKind, TabState};

fn strip(ids: &[&str]) -> TabState {
    let mut s = TabState::new();
    for id in ids {
        s.push_tab(TabEntry::new(id.to_string(), TabKind::Keybinds, None, false));
    }
    s
}

#[test]
fn payload_is_pane_colon_tab() {
    assert_eq!(drag_payload(7, "abc"), "7:abc");
    assert_eq!(drag_payload(0, ""), "0:");
    assert_eq!(drag_payload(4294967295, "x:y"), "4294967295:x:y");
}

#[test]
fn payload_round_trips() {
    for (p, t) in [(0u32, "a"), (12, "1b4e28ba-2fa1-11d2-883f-0016d3cca427"), (u32::MAX, "x:y:z")] {
        assert_eq!(parse_drag_payload(&drag_payload(p, t)), Some((p, t.to_string())));
    }
}

#[test]
fn payloads_that_do_not_parse() {
    assert_eq!(parse_drag_payload("no-colon"), None);
    assert_eq!(parse_drag_payload(":tab"), None);
    assert_eq!(parse_drag_payload("-1:tab"), None);
    assert_eq!(parse_drag_payload("4294967296:tab"), None);
    assert_eq!(parse_drag_payload("1a:tab"), None);
    assert_eq!(parse_drag_payload("+3:tab"), Some((3, "tab".to_string())));
}

#[test]
fn parse_u32_matches_std() {
    for s in ["0", "007", "+5", "+", "", "-0", "4294967295", "4294967296", "99999999999999999999", " 1", "١"] {
        assert_eq!(parse_u32(s), s.parse::<u32>().ok(), "input {s:?}");
    }
    assert_eq!(decimal_string(1234567890), "1234567890");
}

fn bounds(spec: &[(i32, i32)]) -> Vec<TabBounds> {
    spec.iter().map(|&(left, width)| TabBounds { left, width }).collect()
}

#[test]
fn insert_index_uses_tab_middles() {
    let s = strip(&["a", "b", "c"]);
    let b = bounds(&[(0, 100), (100, 100), (200, 100)]);
    // x = 49.5 -> floor(2x) = 99 < 100: before a's middle.
    assert_eq!(s.find_insert_index(&b, 99, false, "a"), 0);
    // x = 50 exactly is not before the middle.
    assert_eq!(s.find_insert_index(&b, 100, false, "a"), 1);
    assert_eq!(s.find_insert_index(&b, 1000, false, "a"), 3);
    // Within one pane the dragged tab is skipped.
    assert_eq!(s.find_insert_index(&b, 10, true, "a"), 1);
}

#[test]
fn indicator_sits_at_a_tab_edge() {
    let b = bounds(&[(0, 100), (100, 101)]);
    assert_eq!(indicator_position(&b, 49), Some(0));
    assert_eq!(indicator_position(&b, 50), Some(100));
    assert_eq!(indicator_position(&b, 149), Some(100));
    assert_eq!(indicator_position(&b, 150), Some(201));
    assert_eq!(indicator_position(&[].to_vec(), 0), None);
    // A negative width halves toward zero, as i32 division does.
    let odd = bounds(&[(10, -3)]);
    assert_eq!(indicator_position(&odd, 8), Some(10));
    assert_eq!(indicator_position(&odd, 9), Some(7));
}

#[test]
fn strip_drop_reorders_or_moves() {
    let s = strip(&["a", "b"]);
    let b = bounds(&[(0, 100), (100, 100)]);
    match plan_strip_drop(&s, 3, "3:a", &b, 1000) {
        Some(StripDrop::Reorder { tab_id, insert_idx }) => {
            assert_eq!(tab_id, "a");
            assert_eq!(insert_idx, 2);
        }
        _ => panic!("expected a reorder"),
    }
    match plan_strip_drop(&s, 3, "4:z", &b, 0) {
        Some(StripDrop::MoveFrom { source_pane, tab_id, insert_idx }) => {
            assert_eq!((source_pane, tab_id.as_str(), insert_idx), (4, "z", 0));
        }
        _ => panic!("expected a move"),
    }
    assert!(plan_strip_drop(&s, 3, "bad", &b, 0).is_none());
}

#[test]
fn content_drop_splits_or_moves() {
    match plan_content_drop("2:t", DropZone::Left, 1) {
        Some(ContentDrop::SplitWithTab { source_pane, tab_id, orientation, before }) => {
            assert_eq!((source_pane, tab_id.as_str(), orientation, before), (2, "t", SplitOrientation::Horizontal, true));
        }
        _ => panic!("expected a split"),
    }
    match plan_content_drop("2:t", DropZone::Bottom, 1) {
        Some(ContentDrop::SplitWithTab { orientation, before, .. }) => {
            assert_eq!((orientation, before), (SplitOrientation::Vertical, false));
        }
        _ => panic!("expected a split"),
    }
    match plan_content_drop("2:t", DropZone::Center, 1) {
        Some(ContentDrop::MoveToEnd { source_pane, tab_id }) => {
            assert_eq!((source_pane, tab_id.as_str()), (2, "t"));
        }
        _ => panic!("expected a move"),
    }
    assert!(plan_content_drop("1:t", DropZone::Center, 1).is_none());
    assert!(plan_content_drop("x", DropZone::Right, 1).is_none());
    assert_eq!(zone_css_class(DropZone::Top), "limux-drop-zone-top");
    assert_eq!(zone_css_class(DropZone::Center), "limux-drop-zone-center");
}
