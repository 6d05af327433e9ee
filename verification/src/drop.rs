//! Where a dragged tab lands: the insertion point in a tab strip, the
//! position of the drop indicator, and what a drop on a strip or on a
//! pane's content area asks the pane to do.
use vstd::prelude::*;

use crate::payload::{parse_drag_payload, parsed_payload};
use crate::tabs::{TabState, TabStateView};
use crate::text::str_equal;

verus! {

/// The horizontal extent of a tab button in the strip, in pixels.
#[derive(Clone, Copy, Debug)]
pub struct TabBounds {
    pub left: i32,
    pub width: i32,
}

/// A pointer at `x` is before the middle of the tab, `left + width / 2.0`.
/// The pointer is given as `x2 = floor(2 * x)`, which decides the
/// comparison exactly: `x < left + width / 2` iff `x2 < 2 * left + width`.
pub open spec fn before_middle(b: TabBounds, x2: int) -> bool {
    x2 < 2 * b.left + b.width
}

/// The tab at `i` can take a drop at `x2`: it is not the dragged tab itself
/// (in a reorder within one pane) and the pointer is before its middle.
pub open spec fn takes_drop(
    m: TabStateView,
    bounds: Seq<TabBounds>,
    x2: int,
    same_pane: bool,
    source: Seq<char>,
    i: int,
) -> bool {
    !(same_pane && m.tabs[i].id == source) && before_middle(bounds[i], x2)
}

impl TabState {
    /// The index a dropped tab is inserted at: that of the first tab whose
    /// middle is past the pointer (the dragged tab itself does not count in
    /// a reorder within the pane), or the number of tabs.
    pub fn find_insert_index(
        &self,
        bounds: &Vec<TabBounds>,
        x2: i64,
        same_pane: bool,
        source_tab_id: &str,
    ) -> (r: usize)
        requires
            bounds@.len() == self@.tabs.len(),
        ensures
            r <= self@.tabs.len(),
            r < self@.tabs.len() ==> takes_drop(self@, bounds@, x2 as int, same_pane, source_tab_id@, r as int),
            forall|j: int|
                0 <= j < r ==> !#[trigger] takes_drop(self@, bounds@, x2 as int, same_pane, source_tab_id@, j),
    {
        let n = self.tabs.len();
        let mut i: usize = 0;
        while i < n
            invariant
                n == self@.tabs.len(),
                bounds@.len() == n,
                0 <= i <= n,
                forall|j: int|
                    0 <= j < i ==> !#[trigger] takes_drop(self@, bounds@, x2 as int, same_pane, source_tab_id@, j),
            decreases n - i,
        {
            let skip = same_pane && str_equal(self.tabs[i].id.as_str(), source_tab_id);
            if !skip {
                let b = bounds[i];
                if (x2 as i128) < 2 * (b.left as i128) + (b.width as i128) {
                    return i;
                }
            }
            i = i + 1;
        }
        n
    }
}

/// The insertion index of a drop is the first tab, other than the dragged
/// tab itself in a reorder within one pane, whose middle
/// `left + width / 2` is past the pointer, i.e. `x2 < 2 * left + width`
/// (`x2 = floor(2 * x)`); every tab before it is skipped or has its middle
/// at or before the pointer. Over tabs at `(0, 100)`, `(100, 100)`,
/// `(200, 100)`, a pointer at `x = 120` gives index 1.
pub proof fn law_insert_index_first_middle_past(
    m: TabStateView,
    bounds: Seq<TabBounds>,
    x2: int,
    same_pane: bool,
    source: Seq<char>,
    r: int,
)
    requires
        bounds.len() == m.tabs.len(),
        0 <= r <= m.tabs.len(),
        r < m.tabs.len() ==> takes_drop(m, bounds, x2, same_pane, source, r),
        forall|j: int| 0 <= j < r ==> !#[trigger] takes_drop(m, bounds, x2, same_pane, source, j),
    ensures
        r < m.tabs.len() ==> x2 < 2 * bounds[r].left + bounds[r].width,
        r < m.tabs.len() ==> !(same_pane && m.tabs[r].id == source),
        forall|j: int|
            0 <= j < r ==> (same_pane && m.tabs[j].id == source) || x2 >= 2 * (#[trigger] bounds[j]).left
                + bounds[j].width,
{
    assert forall|j: int| 0 <= j < r implies (same_pane && m.tabs[j].id == source) || x2 >= 2
        * (#[trigger] bounds[j]).left + bounds[j].width by {
        assert(!takes_drop(m, bounds, x2, same_pane, source, j));
    }
}

/// `w / 2` rounded toward zero, as `i32` division does.
pub open spec fn half_toward_zero(w: int) -> int {
    if w >= 0 {
        w / 2
    } else {
        -((-w) / 2)
    }
}

/// The middle of a tab in whole pixels.
pub open spec fn middle(b: TabBounds) -> int {
    b.left + half_toward_zero(b.width as int)
}

/// The middle of a tab is its left edge plus half its width, the half
/// rounded toward zero: twice the middle is `2 * left + width` or one
/// pixel nearer the left edge.
pub proof fn law_middle_is_half_width(b: TabBounds)
    ensures
        b.width >= 0 ==> 0 <= (2 * b.left + b.width) - 2 * middle(b) <= 1,
        b.width < 0 ==> 0 <= 2 * middle(b) - (2 * b.left + b.width) <= 1,
{
}

/// The right edge of a tab.
pub open spec fn right_edge(b: TabBounds) -> int {
    b.left + b.width
}

/// The edges of every tab fit in an `i32`.
pub open spec fn edges_fit(bounds: Seq<TabBounds>) -> bool {
    forall|i: int| 0 <= i < bounds.len() ==> i32::MIN <= #[trigger] right_edge(bounds[i]) <= i32::MAX
}

/// Where the drop indicator goes for a pointer at `x` (`x = floor` of the
/// pointer's coordinate): the left edge of the first tab whose middle is
/// past the pointer, else the right edge of the last tab; hidden (`None`)
/// when the strip is empty.
pub fn indicator_position(bounds: &Vec<TabBounds>, x: i64) -> (r: Option<i32>)
    requires
        edges_fit(bounds@),
    ensures
        bounds@.len() == 0 <==> r is None,
        r matches Some(pos) ==> {
            ||| exists|k: int|
                0 <= k < bounds@.len() && x < middle(bounds@[k]) && (forall|j: int|
                    0 <= j < k ==> x >= #[trigger] middle(bounds@[j])) && pos == bounds@[k].left
            ||| (forall|j: int| 0 <= j < bounds@.len() ==> x >= #[trigger] middle(bounds@[j]))
                && pos == right_edge(bounds@.last())
        },
{
    let n = bounds.len();
    if n == 0 {
        return None;
    }
    let mut i: usize = 0;
    while i < n
        invariant
            n == bounds@.len(),
            n > 0,
            0 <= i <= n,
            forall|j: int| 0 <= j < i ==> x >= #[trigger] middle(bounds@[j]),
        decreases n - i,
    {
        let b = bounds[i];
        let w = b.width as i64;
        let half: i64 = if w >= 0 {
            w / 2
        } else {
            -((-w) / 2)
        };
        let mid = b.left as i64 + half;
        if x < mid {
            assert(x < middle(bounds@[i as int]));
            return Some(b.left);
        }
        i = i + 1;
    }
    let last = bounds[n - 1];
    assert(edges_fit(bounds@) ==> i32::MIN <= right_edge(bounds@[n - 1]) <= i32::MAX);
    Some(last.left + last.width)
}

/// The split direction of a pane: side by side, or one above the other.
#[derive(Clone, Copy, Debug, PartialEq, Eq, Structural)]
pub enum SplitOrientation {
    Horizontal,
    Vertical,
}

/// The part of a pane's content area under the pointer during a tab drag.
#[derive(Clone, Copy, Debug, PartialEq, Eq, Structural)]
pub enum DropZone {
    Left,
    Right,
    Top,
    Bottom,
    Center,
}

/// The style class that highlights a zone.
pub fn zone_css_class(zone: DropZone) -> (r: &'static str)
    ensures
        r@ == (match zone {
            DropZone::Left => "limux-drop-zone-left"@,
            DropZone::Right => "limux-drop-zone-right"@,
            DropZone::Top => "limux-drop-zone-top"@,
            DropZone::Bottom => "limux-drop-zone-bottom"@,
            DropZone::Center => "limux-drop-zone-center"@,
        }),
{
    proof {
        reveal_strlit("limux-drop-zone-left");
        reveal_strlit("limux-drop-zone-right");
        reveal_strlit("limux-drop-zone-top");
        reveal_strlit("limux-drop-zone-bottom");
        reveal_strlit("limux-drop-zone-center");
    }
    match zone {
        DropZone::Left => "limux-drop-zone-left",
        DropZone::Right => "limux-drop-zone-right",
        DropZone::Top => "limux-drop-zone-top",
        DropZone::Bottom => "limux-drop-zone-bottom",
        DropZone::Center => "limux-drop-zone-center",
    }
}

/// What a tab dropped on a pane's content area asks for.
pub enum ContentDrop {
    /// Split the target pane and put the tab in the new half, on the
    /// left/top side when `before`.
    SplitWithTab { source_pane: u32, tab_id: String, orientation: SplitOrientation, before: bool },
    /// Move the tab to the end of the target pane's strip.
    MoveToEnd { source_pane: u32, tab_id: String },
}

/// The decision for a tab dropped on zone `zone` of pane `target_pane`:
/// nothing for a payload that does not parse, or for a drop on the
/// centre of the pane the tab came from.
pub fn plan_content_drop(payload: &str, zone: DropZone, target_pane: u32) -> (r: Option<ContentDrop>)
    ensures
        match parsed_payload(payload@) {
            None => r is None,
            Some((src, tid)) => match zone {
                DropZone::Center => if src == target_pane {
                    r is None
                } else {
                    r matches Some(ContentDrop::MoveToEnd { source_pane, tab_id }) && source_pane
                        == src && tab_id@ == tid
                },
                _ => r matches Some(
                    ContentDrop::SplitWithTab { source_pane, tab_id, orientation, before },
                ) && source_pane == src && tab_id@ == tid && orientation == (if zone
                    == DropZone::Left || zone == DropZone::Right {
                    SplitOrientation::Horizontal
                } else {
                    SplitOrientation::Vertical
                }) && before == (zone == DropZone::Left || zone == DropZone::Top),
            },
        },
{
    let (src, tid) = match parse_drag_payload(payload) {
        Some(p) => p,
        None => return None,
    };
    match zone {
        DropZone::Left => Some(
            ContentDrop::SplitWithTab {
                source_pane: src,
                tab_id: tid,
                orientation: SplitOrientation::Horizontal,
                before: true,
            },
        ),
        DropZone::Right => Some(
            ContentDrop::SplitWithTab {
                source_pane: src,
                tab_id: tid,
                orientation: SplitOrientation::Horizontal,
                before: false,
            },
        ),
        DropZone::Top => Some(
            ContentDrop::SplitWithTab {
                source_pane: src,
                tab_id: tid,
                orientation: SplitOrientation::Vertical,
                before: true,
            },
        ),
        DropZone::Bottom => Some(
            ContentDrop::SplitWithTab {
                source_pane: src,
                tab_id: tid,
                orientation: SplitOrientation::Vertical,
                before: false,
            },
        ),
        DropZone::Center => if src == target_pane {
            None
        } else {
            Some(ContentDrop::MoveToEnd { source_pane: src, tab_id: tid })
        },
    }
}

/// What a tab dropped on a tab strip asks for.
pub enum StripDrop {
    /// Reorder within the target pane.
    Reorder { tab_id: String, insert_idx: usize },
    /// Move the tab over from another pane.
    MoveFrom { source_pane: u32, tab_id: String, insert_idx: usize },
}

/// The decision for a tab dropped on the strip of pane `target_pane` at
/// `x2` (see `before_middle`).
pub fn plan_strip_drop(
    target: &TabState,
    target_pane: u32,
    payload: &str,
    bounds: &Vec<TabBounds>,
    x2: i64,
) -> (r: Option<StripDrop>)
    requires
        bounds@.len() == target@.tabs.len(),
    ensures
        match parsed_payload(payload@) {
            None => r is None,
            Some((src, tid)) => {
                let same = src == target_pane;
                match r {
                    Some(StripDrop::Reorder { tab_id, insert_idx }) => {
                        &&& same
                        &&& tab_id@ == tid
                        &&& insert_idx <= target@.tabs.len()
                        &&& insert_idx < target@.tabs.len() ==> takes_drop(target@, bounds@, x2 as int, true, tid, insert_idx as int)
                        &&& forall|j: int|
                            0 <= j < insert_idx ==> !#[trigger] takes_drop(target@, bounds@, x2 as int, true, tid, j)
                    },
                    Some(StripDrop::MoveFrom { source_pane, tab_id, insert_idx }) => {
                        &&& !same
                        &&& source_pane == src
                        &&& tab_id@ == tid
                        &&& insert_idx <= target@.tabs.len()
                        &&& insert_idx < target@.tabs.len() ==> takes_drop(target@, bounds@, x2 as int, false, tid, insert_idx as int)
                        &&& forall|j: int|
                            0 <= j < insert_idx ==> !#[trigger] takes_drop(target@, bounds@, x2 as int, false, tid, j)
                    },
                    None => false,
                }
            },
        },
{
    let (src, tid) = match parse_drag_payload(payload) {
        Some(p) => p,
        None => return None,
    };
    let same = src == target_pane;
    let idx = target.find_insert_index(bounds, x2, same, tid.as_str());
    if same {
        Some(StripDrop::Reorder { tab_id: tid, insert_idx: idx })
    } else {
        Some(StripDrop::MoveFrom { source_pane: src, tab_id: tid, insert_idx: idx })
    }
}

} // verus!
