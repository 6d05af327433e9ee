//! Properties of the tab operations taken together.
use vstd::prelude::*;

use crate::layout::PaneStateView;
use crate::tabs::{
    active_index, cycle_index, has_tab, is_first_with_id, lemma_position_of, min_int, moved_as, new_entry,
    opt_view, pin_toggled, position_of, removed_as, reorder_target, restored_active, restored_entry,
    restored_kind, restored_tabs, saved_of, snapshot_of, with_id, with_pinned, RemoveOutcome,
    TabEntryView, TabKindView, TabStateView,
};

verus! {

/// Every saved terminal tab names its working directory.
pub open spec fn terminals_have_cwd(saved: PaneStateView) -> bool {
    forall|i: int|
        0 <= i < saved.tabs.len() ==> (#[trigger] saved.tabs[i].content matches TabKindView::Terminal {
            cwd,
        } ==> cwd is Some)
}

/// The state of a pane that restored `saved` into an empty strip.
pub open spec fn restored_pane(saved: PaneStateView, wd: Option<Seq<char>>) -> TabStateView {
    let tabs = restored_tabs(Seq::empty(), saved, wd);
    TabStateView { tabs, active: restored_active(tabs, saved.active) }
}

/// Restoring a saved pane and saving it again gives back the saved tabs
/// (when every terminal tab was saved with its directory, or the pane has
/// no working directory to fill in), and the saved active tab when some
/// saved tab has its id.
pub proof fn law_restore_then_snapshot(saved: PaneStateView, wd: Option<Seq<char>>)
    requires
        saved.tabs.len() > 0,
        terminals_have_cwd(saved) || wd is None,
    ensures
        snapshot_of(restored_pane(saved, wd)).tabs == saved.tabs,
        (saved.active matches Some(a) && exists|i: int|
            0 <= i < saved.tabs.len() && #[trigger] saved.tabs[i].id == a) ==> snapshot_of(
            restored_pane(saved, wd),
        ) == saved,
{
    let p = restored_pane(saved, wd);
    let tabs = p.tabs;
    assert(tabs =~= saved.tabs.map_values(|s: crate::layout::SavedTabView| restored_entry(s, wd)));
    let snap = snapshot_of(p);
    assert forall|i: int| 0 <= i < saved.tabs.len() implies snap.tabs[i] == saved.tabs[i] by {
        assert(tabs[i] == restored_entry(saved.tabs[i], wd));
        if terminals_have_cwd(saved) {
            assert(saved.tabs[i].content matches TabKindView::Terminal { cwd } ==> cwd is Some);
        }
    }
    assert(snap.tabs =~= saved.tabs);
    if let Some(a) = saved.active {
        if exists|i: int| 0 <= i < saved.tabs.len() && #[trigger] saved.tabs[i].id == a {
            let i = choose|i: int| 0 <= i < saved.tabs.len() && #[trigger] saved.tabs[i].id == a;
            assert(tabs[i].id == a);
            assert(has_tab(tabs, a));
        }
    }
}

/// Saving a pane and restoring the result into an empty pane (with no
/// working directory to fill in) gives the same tabs in the same order,
/// each titled by its user-given name or by its kind, and saving that
/// again gives the first save, active tab included when the pane's
/// active tab is one of its tabs.
pub proof fn law_snapshot_then_restore(m: TabStateView)
    requires
        m.tabs.len() > 0,
    ensures
        restored_pane(snapshot_of(m), None).tabs.len() == m.tabs.len(),
        forall|i: int|
            0 <= i < m.tabs.len() ==> #[trigger] restored_pane(snapshot_of(m), None).tabs[i]
                == new_entry(m.tabs[i].id, m.tabs[i].kind, m.tabs[i].custom_name, m.tabs[i].pinned),
        (m.active matches Some(a) && has_tab(m.tabs, a)) ==> snapshot_of(
            restored_pane(snapshot_of(m), None),
        ) == snapshot_of(m),
{
    let s = snapshot_of(m);
    let p = restored_pane(s, None);
    assert(p.tabs =~= s.tabs.map_values(|t: crate::layout::SavedTabView| restored_entry(t, None)));
    assert forall|i: int| 0 <= i < m.tabs.len() implies #[trigger] p.tabs[i] == new_entry(
        m.tabs[i].id,
        m.tabs[i].kind,
        m.tabs[i].custom_name,
        m.tabs[i].pinned,
    ) by {
        assert(s.tabs[i] == saved_of(m.tabs[i]));
        assert(restored_kind(m.tabs[i].kind, None) == m.tabs[i].kind);
    }
    let snap2 = snapshot_of(p);
    assert forall|i: int| 0 <= i < m.tabs.len() implies snap2.tabs[i] == s.tabs[i] by {
        assert(s.tabs[i] == saved_of(m.tabs[i]));
        assert(restored_kind(m.tabs[i].kind, None) == m.tabs[i].kind);
    }
    assert(snap2.tabs =~= s.tabs);
    if let Some(a) = m.active {
        if has_tab(m.tabs, a) {
            let i = choose|i: int| 0 <= i < m.tabs.len() && #[trigger] m.tabs[i].id == a;
            assert(p.tabs[i].id == a);
            assert(has_tab(p.tabs, a));
        }
    }
}

/// Reordering a tab within a pane keeps the same tabs: the strip after is
/// a permutation of the strip before. Dropping a tab just before or just
/// after itself leaves the strip as it was.
pub proof fn law_reorder_permutes(tabs: Seq<TabEntryView>, i: int, insert: int)
    requires
        0 <= i < tabs.len(),
        0 <= insert <= tabs.len(),
    ensures
        tabs.remove(i).insert(reorder_target(i, insert), tabs[i]).to_multiset() == tabs.to_multiset(),
        tabs.remove(i).insert(reorder_target(i, insert), tabs[i]).len() == tabs.len(),
        (insert == i || insert == i + 1) ==> tabs.remove(i).insert(reorder_target(i, insert), tabs[i])
            == tabs,
{
    broadcast use vstd::seq_lib::group_to_multiset_ensures;

    let r = tabs.remove(i);
    vstd::seq_lib::to_multiset_remove(tabs, i);
    vstd::seq_lib::to_multiset_insert(r, reorder_target(i, insert), tabs[i]);
    assert(r.to_multiset().insert(tabs[i]) =~= tabs.to_multiset());
    if insert == i || insert == i + 1 {
        assert(r.insert(reorder_target(i, insert), tabs[i]) =~= tabs);
    }
}

/// No two tabs share an id.
pub open spec fn ids_distinct(tabs: Seq<TabEntryView>) -> bool {
    forall|i: int, j: int| 0 <= i < j < tabs.len() ==> tabs[i].id != tabs[j].id
}

/// Cycling by `delta` and then by `-delta` comes back to the tab that was
/// active, when the tabs have distinct ids and the active tab is one of
/// them.
pub proof fn law_cycle_back(m: TabStateView, delta: int)
    requires
        m.tabs.len() > 1,
        ids_distinct(m.tabs),
        m.active matches Some(a) && has_tab(m.tabs, a),
    ensures
        ({
            let len = m.tabs.len() as int;
            let k = cycle_index(active_index(m), delta, len);
            let m2 = TabStateView { tabs: m.tabs, active: Some(m.tabs[k].id) };
            Some(m.tabs[cycle_index(active_index(m2), -delta, len)].id) == m.active
        }),
{
    let len = m.tabs.len() as int;
    let a = m.active->0;
    lemma_position_of(m.tabs, a);
    let p = position_of(m.tabs, a)->0;
    assert(active_index(m) == p);
    let k = cycle_index(p, delta, len);
    vstd::arithmetic::div_mod::lemma_mod_bound(p + delta, len);
    let m2 = TabStateView { tabs: m.tabs, active: Some(m.tabs[k].id) };
    assert(is_first_with_id(m.tabs, m.tabs[k].id, k));
    lemma_position_of(m.tabs, m.tabs[k].id);
    assert(active_index(m2) == k);
    vstd::arithmetic::div_mod::lemma_sub_mod_noop(p + delta, -delta, len);
    vstd::arithmetic::div_mod::lemma_sub_mod_noop_right(k, -delta, len);
    vstd::arithmetic::div_mod::lemma_sub_mod_noop_right(p + delta, -delta, len);
    vstd::arithmetic::div_mod::lemma_add_mod_noop_right(k, -delta, len);
    vstd::arithmetic::div_mod::lemma_add_mod_noop(p + delta, -delta, len);
    vstd::arithmetic::div_mod::lemma_mod_twice(p + delta, len);
    vstd::arithmetic::div_mod::lemma_small_mod(p as nat, len as nat);
    assert(cycle_index(k, -delta, len) == p);
}

/// Cycling moves `delta` places along the strip and wraps around: the
/// position reached lies in the strip and differs from `from + delta` by a
/// whole number of turns of the strip. One step forward from the last tab
/// reaches the first, and one step back from the first reaches the last.
pub proof fn law_cycle_steps(from: int, delta: int, len: int)
    requires
        len > 1,
        0 <= from < len,
    ensures
        0 <= cycle_index(from, delta, len) < len,
        (cycle_index(from, delta, len) - (from + delta)) % len == 0,
        delta == 1 ==> cycle_index(from, delta, len) == (if from + 1 < len {
            from + 1
        } else {
            0
        }),
        delta == -1 ==> cycle_index(from, delta, len) == (if from > 0 {
            from - 1
        } else {
            len - 1
        }),
{
    let x = from + delta;
    vstd::arithmetic::div_mod::lemma_mod_bound(x, len);
    vstd::arithmetic::div_mod::lemma_fundamental_div_mod(x, len);
    let q = x / len;
    vstd::arithmetic::div_mod::lemma_mod_multiples_basic(-q, len);
    assert(cycle_index(from, delta, len) - x == -q * len) by (nonlinear_arith)
        requires
            x == len * q + x % len,
            cycle_index(from, delta, len) == x % len,
    ;
    if delta == 1 {
        if from + 1 < len {
            vstd::arithmetic::div_mod::lemma_small_mod((from + 1) as nat, len as nat);
        } else {
            vstd::arithmetic::div_mod::lemma_mod_self_0(len);
        }
    }
    if delta == -1 {
        if from > 0 {
            vstd::arithmetic::div_mod::lemma_small_mod((from - 1) as nat, len as nat);
        } else {
            vstd::arithmetic::div_mod::lemma_mod_add_multiples_vanish(-1, len);
            vstd::arithmetic::div_mod::lemma_small_mod((len - 1) as nat, len as nat);
        }
    }
}

proof fn lemma_position_same_ids(tabs: Seq<TabEntryView>, i: int, e: TabEntryView, id: Seq<char>)
    requires
        0 <= i < tabs.len(),
        e.id == tabs[i].id,
    ensures
        position_of(tabs.update(i, e), id) == position_of(tabs, id),
{
    let u = tabs.update(i, e);
    lemma_position_of(tabs, id);
    lemma_position_of(u, id);
    assert forall|k: int| is_first_with_id(tabs, id, k) <==> is_first_with_id(u, id, k) by {
        if is_first_with_id(tabs, id, k) {
            assert forall|j: int| 0 <= j < k implies #[trigger] u[j].id != id by {
                assert(tabs[j].id != id);
            }
        }
        if is_first_with_id(u, id, k) {
            assert forall|j: int| 0 <= j < k implies #[trigger] tabs[j].id != id by {
                assert(u[j].id != id);
            }
        }
    }
    if has_tab(tabs, id) {
        let k = position_of(tabs, id)->0;
        assert(is_first_with_id(u, id, k));
    } else if has_tab(u, id) {
        let k = position_of(u, id)->0;
        assert(is_first_with_id(tabs, id, k));
    }
}

/// Pinning a tab twice leaves the strip as it was.
pub proof fn law_pin_twice(tabs: Seq<TabEntryView>, id: Seq<char>)
    ensures
        pin_toggled(pin_toggled(tabs, id), id) == tabs,
{
    lemma_position_of(tabs, id);
    if let Some(i) = position_of(tabs, id) {
        let t1 = pin_toggled(tabs, id);
        lemma_position_same_ids(tabs, i, with_pinned(tabs[i], !tabs[i].pinned), id);
        assert(pin_toggled(t1, id) =~= tabs);
    }
}

/// Moving a tab between panes keeps the number of tabs across both panes,
/// and the target's tab at the insertion point is the moved tab under its
/// new id.
pub proof fn law_move_conserves(
    src: TabStateView,
    tgt: TabStateView,
    id: Seq<char>,
    insert: int,
    i: int,
    new_id: Seq<char>,
    src_post: TabStateView,
    tgt_post: TabStateView,
)
    requires
        is_first_with_id(src.tabs, id, i),
        insert >= 0,
        moved_as(src, tgt, id, insert, i, new_id, src_post, tgt_post),
    ensures
        src_post.tabs.len() + tgt_post.tabs.len() == src.tabs.len() + tgt.tabs.len(),
        tgt_post.tabs[min_int(insert, tgt.tabs.len() as int)] == with_id(src.tabs[i], new_id),
        !has_tab(src_post.tabs, id) || exists|j: int|
            0 <= j < src.tabs.len() && j != i && #[trigger] src.tabs[j].id == id,
{
    if has_tab(src_post.tabs, id) {
        let j = choose|j: int| 0 <= j < src_post.tabs.len() && #[trigger] src_post.tabs[j].id == id;
        if j < i {
            assert(src.tabs[j].id == id);
        } else {
            assert(src.tabs[j + 1].id == id);
        }
    }
}

/// The id of the tab that becomes active when the active tab at position
/// `i` of `tabs` goes and others remain: the tab right after it, which
/// takes its place, or the one right before it when it was the last.
/// Removing the active first tab of `[a, b, c]` activates `b`.
pub open spec fn next_active_after(tabs: Seq<TabEntryView>, i: int) -> Seq<char> {
    if i + 1 < tabs.len() {
        tabs[i + 1].id
    } else {
        tabs[i - 1].id
    }
}

/// Removing the tab at position `i` (the first with its id) takes out that
/// tab alone and keeps the others in order. When it was active and tabs
/// remain, the tab right after it (the one now at position `i`) becomes
/// active, or the one right before it when it was the last, and the
/// outcome names that tab; when it was not active, the active tab stays
/// and no tab is named. Removing the only tab empties the strip.
pub proof fn law_remove_activates_neighbor(
    pre: TabStateView,
    id: Seq<char>,
    i: int,
    post: TabStateView,
    out: RemoveOutcome,
)
    requires
        is_first_with_id(pre.tabs, id, i),
        removed_as(pre, id, post, out),
    ensures
        post.tabs.len() == pre.tabs.len() - 1,
        forall|j: int| 0 <= j < i ==> #[trigger] post.tabs[j] == pre.tabs[j],
        forall|j: int| i <= j < post.tabs.len() ==> #[trigger] post.tabs[j] == pre.tabs[j + 1],
        pre.tabs.len() == 1 ==> out is Emptied && post.active == pre.active,
        pre.tabs.len() > 1 && pre.active == Some(id) ==> post.active == Some(
            next_active_after(pre.tabs, i),
        ),
        pre.tabs.len() > 1 && pre.active == Some(id) ==> (out matches RemoveOutcome::Removed {
            activated,
        } && opt_view(activated) == Some(next_active_after(pre.tabs, i))),
        pre.tabs.len() > 1 && pre.active != Some(id) ==> post.active == pre.active,
        pre.tabs.len() > 1 && pre.active != Some(id) ==> (out matches RemoveOutcome::Removed {
            activated,
        } && activated is None),
{
    lemma_position_of(pre.tabs, id);
    assert(position_of(pre.tabs, id) == Some(i));
}

/// `e` is the tab `orig` under the id `new_id`, with its title, name, pin
/// and content unchanged.
pub open spec fn is_copy_with_id(e: TabEntryView, orig: TabEntryView, new_id: Seq<char>) -> bool {
    &&& e.id == new_id
    &&& e.title == orig.title
    &&& e.custom_name == orig.custom_name
    &&& e.pinned == orig.pinned
    &&& e.kind == orig.kind
}

/// Moving a tab to another pane puts it, under its new id, at index
/// `insert` of the target strip when `insert` is at most the target's
/// length (so `insert == 0` makes it the first tab), and at the end only
/// when `insert` is past it; the target's other tabs keep their order
/// around it, and the moved tab becomes the target's active tab. In the
/// source the tab leaves alone; when it was active there and tabs remain,
/// the tab right after it becomes active, or the one right before it when
/// it was the last.
pub proof fn law_move_lands_at_drop_point(
    src: TabStateView,
    tgt: TabStateView,
    id: Seq<char>,
    insert: int,
    i: int,
    new_id: Seq<char>,
    src_post: TabStateView,
    tgt_post: TabStateView,
)
    requires
        is_first_with_id(src.tabs, id, i),
        insert >= 0,
        moved_as(src, tgt, id, insert, i, new_id, src_post, tgt_post),
    ensures
        src_post.tabs.len() == src.tabs.len() - 1,
        forall|j: int| 0 <= j < i ==> #[trigger] src_post.tabs[j] == src.tabs[j],
        forall|j: int| i <= j < src_post.tabs.len() ==> #[trigger] src_post.tabs[j] == src.tabs[j + 1],
        src.tabs.len() > 1 && src.active == Some(id) ==> src_post.active == Some(
            next_active_after(src.tabs, i),
        ),
        !(src.tabs.len() > 1 && src.active == Some(id)) ==> src_post.active == src.active,
        tgt_post.tabs.len() == tgt.tabs.len() + 1,
        tgt_post.active == Some(new_id),
        insert <= tgt.tabs.len() ==> is_copy_with_id(tgt_post.tabs[insert], src.tabs[i], new_id),
        insert > tgt.tabs.len() ==> is_copy_with_id(
            tgt_post.tabs[tgt.tabs.len() as int],
            src.tabs[i],
            new_id,
        ),
        forall|j: int| 0 <= j < tgt.tabs.len() && j < insert ==> #[trigger] tgt_post.tabs[j] == tgt.tabs[j],
        forall|j: int| insert <= j < tgt.tabs.len() ==> #[trigger] tgt_post.tabs[j + 1] == tgt.tabs[j],
{
}

/// A reorder drops the tab just before the tab that was at the insertion
/// point, and at the end when the insertion point is the length; the other
/// tabs keep their order. When the tab came from after the insertion
/// point it ends at that index, and when it came from before, one index
/// earlier (the removal shifted the later tabs down).
pub proof fn law_reorder_lands_before(
    tabs: Seq<TabEntryView>,
    i: int,
    insert: int,
    post: Seq<TabEntryView>,
)
    requires
        0 <= i < tabs.len(),
        0 <= insert <= tabs.len(),
        post == tabs.remove(i).insert(reorder_target(i, insert), tabs[i]),
    ensures
        post.len() == tabs.len(),
        insert < i ==> post[insert] == tabs[i] && post[insert + 1] == tabs[insert],
        insert < i ==> post.remove(insert) == tabs.remove(i),
        i < insert < tabs.len() ==> post[insert - 1] == tabs[i] && post[insert] == tabs[insert],
        i < insert <= tabs.len() ==> post.remove(insert - 1) == tabs.remove(i),
        insert == tabs.len() ==> post.last() == tabs[i] && post.drop_last() == tabs.remove(i),
        insert == i ==> post == tabs,
{
    let r = tabs.remove(i);
    if insert < i {
        assert(post.remove(insert) =~= r);
    } else if i < insert {
        assert(post.remove(insert - 1) =~= r);
    } else {
        assert(post =~= tabs);
    }
    if insert == tabs.len() {
        assert(post.drop_last() =~= r);
    }
}

} // verus!
