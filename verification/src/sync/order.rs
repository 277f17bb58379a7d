//! Which windows a redraw touches, and in what order.
use vstd::prelude::*;

use crate::model::{ContainerId, SyncError, WindowState};

verus! {

/// The ids in the order in which each first occurs.
pub open spec fn unique(ids: Seq<ContainerId>) -> Seq<ContainerId>
    decreases ids.len(),
{
    if ids.len() == 0 {
        seq![]
    } else if ids.drop_last().contains(ids.last()) {
        unique(ids.drop_last())
    } else {
        unique(ids.drop_last()).push(ids.last())
    }
}

/// Dropping repetitions keeps every id, once.
pub proof fn lemma_unique(ids: Seq<ContainerId>)
    ensures
        unique(ids).no_duplicates(),
        forall|id: ContainerId| #[trigger] unique(ids).contains(id) <==> ids.contains(id),
    decreases ids.len(),
{
    if ids.len() > 0 {
        let front = ids.drop_last();
        lemma_unique(front);
        assert forall|id: ContainerId| #[trigger] unique(ids).contains(id) implies ids.contains(
            id,
        ) by {
            if unique(front).contains(id) {
                assert(front.contains(id));
                let k = choose|k: int| 0 <= k < front.len() && front[k] == id;
                assert(ids[k] == id);
            } else {
                assert(id == ids.last());
                assert(ids[ids.len() - 1] == id);
            }
        }
        assert forall|id: ContainerId| ids.contains(id) implies #[trigger] unique(ids).contains(
            id,
        ) by {
            let k = choose|k: int| 0 <= k < ids.len() && ids[k] == id;
            if k < front.len() {
                assert(front[k] == id);
                assert(front.contains(id));
            }
            if front.contains(id) {
                assert(unique(front).contains(id));
                let m = choose|m: int| 0 <= m < unique(front).len() && unique(front)[m] == id;
                assert(unique(ids)[m] == id);
            } else {
                assert(unique(ids)[unique(ids).len() - 1] == id);
            }
        }
        assert(unique(ids).no_duplicates()) by {
            if !front.contains(ids.last()) {
                assert forall|i: int, j: int|
                    0 <= i < unique(ids).len() && 0 <= j < unique(ids).len() && i != j implies unique(
                    ids,
                )[i] != unique(ids)[j] by {
                    let last = unique(front).len() as int;
                    assert(!unique(front).contains(ids.last()));
                    if i < last {
                        assert(unique(front).contains(unique(front)[i]));
                    }
                    if j < last {
                        assert(unique(front).contains(unique(front)[j]));
                    }
                }
            }
        }
    }
}

/// Whether the list holds the id.
pub fn contains_id(ids: &Vec<ContainerId>, id: ContainerId) -> (found: bool)
    ensures
        found == ids@.contains(id),
{
    let mut i: usize = 0;
    while i < ids.len()
        invariant
            i <= ids.len(),
            forall|k: int| 0 <= k < i ==> ids@[k] != id,
        decreases ids.len() - i,
    {
        if ids[i] == id {
            return true;
        }
        i += 1;
    }
    false
}

/// Appends the ids that the list does not hold yet.
fn extend_unique(list: &mut Vec<ContainerId>, ids: &Vec<ContainerId>, Ghost(seen): Ghost<
    Seq<ContainerId>,
>)
    requires
        old(list)@ == unique(seen),
    ensures
        final(list)@ == unique(seen + ids@),
{
    let mut i: usize = 0;
    assert(seen + ids@.take(0) =~= seen);
    while i < ids.len()
        invariant
            i <= ids.len(),
            list@ == unique(seen + ids@.take(i as int)),
        decreases ids.len() - i,
    {
        let ghost upto = seen + ids@.take(i as int);
        let ghost next = seen + ids@.take(i + 1);
        proof {
            lemma_unique(upto);
            assert(next.drop_last() =~= upto);
            assert(next.last() == ids@[i as int]);
        }
        if !contains_id(list, ids[i]) {
            list.push(ids[i]);
        }
        i += 1;
    }
    assert(ids@.take(ids@.len() as int) =~= ids@);
}

/// The ids of both lists, each at its first occurrence.
pub fn unique_ids(first: &Vec<ContainerId>, second: &Vec<ContainerId>) -> (ids: Vec<ContainerId>)
    ensures
        ids@ == unique(first@ + second@),
{
    let mut ids: Vec<ContainerId> = Vec::new();
    extend_unique(&mut ids, first, Ghost(Seq::empty()));
    assert(Seq::empty() + first@ =~= first@);
    extend_unique(&mut ids, second, Ghost(first@));
    ids
}

/// The windows ordered for an update: those that the focus order does not
/// mention, as they come, and then the others from the most recently focused
/// one on.
pub open spec fn update_order(windows: Seq<ContainerId>, focus: Seq<ContainerId>) -> Seq<
    ContainerId,
> {
    windows.filter(|id: ContainerId| !focus.contains(id)) + unique(focus).filter(
        |id: ContainerId| windows.contains(id),
    )
}

/// The windows that a redraw touches: those to redraw and those to bring to the
/// front, each once, the most recently focused first.
pub fn windows_to_update(
    windows_to_redraw: &Vec<ContainerId>,
    windows_to_bring_to_front: &Vec<ContainerId>,
    descendant_focus_order: &Vec<ContainerId>,
) -> (windows: Vec<ContainerId>)
    ensures
        windows@ == update_order(
            unique(windows_to_redraw@ + windows_to_bring_to_front@),
            descendant_focus_order@,
        ),
{
    let candidates = unique_ids(windows_to_redraw, windows_to_bring_to_front);
    let ghost focus = descendant_focus_order@;
    let ghost absent = |id: ContainerId| !focus.contains(id);
    let ghost wanted = |id: ContainerId| candidates@.contains(id);
    let mut windows: Vec<ContainerId> = Vec::new();
    let mut i: usize = 0;
    assert(candidates@.take(0).filter(absent) =~= seq![]) by {
        reveal(Seq::filter);
    }
    while i < candidates.len()
        invariant
            i <= candidates.len(),
            focus == descendant_focus_order@,
            absent == (|id: ContainerId| !focus.contains(id)),
            windows@ == candidates@.take(i as int).filter(absent),
        decreases candidates.len() - i,
    {
        proof {
            reveal(Seq::filter);
            assert(candidates@.take(i + 1).drop_last() =~= candidates@.take(i as int));
        }
        if !contains_id(descendant_focus_order, candidates[i]) {
            windows.push(candidates[i]);
        }
        i += 1;
    }
    assert(candidates@.take(candidates@.len() as int) =~= candidates@);

    let none: Vec<ContainerId> = Vec::new();
    let ranked = unique_ids(descendant_focus_order, &none);
    assert(focus + none@ =~= focus);
    let mut j: usize = 0;
    let ghost head = windows@;
    assert(ranked@.take(0).filter(wanted) =~= seq![]) by {
        reveal(Seq::filter);
    }
    while j < ranked.len()
        invariant
            j <= ranked.len(),
            wanted == (|id: ContainerId| candidates@.contains(id)),
            windows@ == head + ranked@.take(j as int).filter(wanted),
        decreases ranked.len() - j,
    {
        proof {
            reveal(Seq::filter);
            assert(ranked@.take(j + 1).drop_last() =~= ranked@.take(j as int));
        }
        if contains_id(&candidates, ranked[j]) {
            windows.push(ranked[j]);
        }
        j += 1;
    }
    assert(ranked@.take(ranked@.len() as int) =~= ranked@);
    windows
}

/// A window's place in the focus order; windows outside of it come before all
/// others.
pub open spec fn focus_rank(focus: Seq<ContainerId>, id: ContainerId) -> int {
    if focus.contains(id) {
        focus.index_of_first(id)->0
    } else {
        -1
    }
}

/// Later occurrences do not change the rank of an id that is already listed.
proof fn lemma_rank_prefix(focus: Seq<ContainerId>, id: ContainerId)
    requires
        focus.len() > 0,
    ensures
        focus.drop_last().contains(id) ==> focus_rank(focus, id) == focus_rank(
            focus.drop_last(),
            id,
        ) && focus_rank(focus, id) < focus.len() - 1,
        !focus.drop_last().contains(id) && focus.last() == id ==> focus_rank(focus, id)
            == focus.len() - 1,
{
    let front = focus.drop_last();
    focus.index_of_first_ensures(id);
    front.index_of_first_ensures(id);
    if front.contains(id) {
        let k = front.index_of_first(id)->0;
        assert(focus[k] == id);
        assert(focus.contains(id));
        let m = focus.index_of_first(id)->0;
        assert(m <= k);
        if m < k {
            assert(front[m] == id);
        }
    } else if focus.last() == id {
        assert(focus[focus.len() - 1] == id);
        assert(focus.contains(id));
        let m = focus.index_of_first(id)->0;
        if m < focus.len() - 1 {
            assert(front[m] == id);
        }
    }
}

/// Dropping repetitions leaves the ids in the order of their ranks.
proof fn lemma_unique_sorted(focus: Seq<ContainerId>)
    ensures
        forall|i: int, j: int|
            0 <= i < j < unique(focus).len() ==> focus_rank(focus, #[trigger] unique(focus)[i])
                < focus_rank(focus, #[trigger] unique(focus)[j]),
    decreases focus.len(),
{
    if focus.len() > 0 {
        let front = focus.drop_last();
        lemma_unique_sorted(front);
        lemma_unique(front);
        assert forall|i: int, j: int| 0 <= i < j < unique(focus).len() implies focus_rank(
            focus,
            #[trigger] unique(focus)[i],
        ) < focus_rank(focus, #[trigger] unique(focus)[j]) by {
            assert(unique(front).contains(unique(front)[i]));
            lemma_rank_prefix(focus, unique(focus)[i]);
            lemma_rank_prefix(focus, unique(focus)[j]);
            if j < unique(front).len() {
                assert(unique(front).contains(unique(front)[j]));
            }
        }
    }
}

/// A filter keeps the relative order of what it lets through.
proof fn lemma_filter_keeps_order(
    ids: Seq<ContainerId>,
    pred: spec_fn(ContainerId) -> bool,
    key: spec_fn(ContainerId) -> int,
)
    requires
        forall|i: int, j: int| 0 <= i < j < ids.len() ==> key(#[trigger] ids[i]) < key(
            #[trigger] ids[j],
        ),
    ensures
        forall|i: int, j: int|
            0 <= i < j < ids.filter(pred).len() ==> key(#[trigger] ids.filter(pred)[i]) < key(
                #[trigger] ids.filter(pred)[j],
            ),
        forall|id: ContainerId| #[trigger]
            ids.filter(pred).contains(id) <==> ids.contains(id) && pred(id),
    decreases ids.len(),
{
    reveal(Seq::filter);
    if ids.len() > 0 {
        let front = ids.drop_last();
        assert forall|i: int, j: int| 0 <= i < j < front.len() implies key(#[trigger] front[i])
            < key(#[trigger] front[j]) by {
            assert(front[i] == ids[i] && front[j] == ids[j]);
        }
        lemma_filter_keeps_order(front, pred, key);
        let kept = front.filter(pred);
        assert forall|id: ContainerId| #[trigger]
            ids.filter(pred).contains(id) <==> ids.contains(id) && pred(id) by {
            if ids.filter(pred).contains(id) {
                let k = choose|k: int|
                    0 <= k < ids.filter(pred).len() && ids.filter(pred)[k] == id;
                if k < kept.len() {
                    assert(kept[k] == id);
                    assert(kept.contains(id));
                    let m = choose|m: int| 0 <= m < front.len() && front[m] == id;
                    assert(ids[m] == id);
                } else {
                    assert(ids[ids.len() - 1] == id);
                }
            }
            if ids.contains(id) && pred(id) {
                let m = choose|m: int| 0 <= m < ids.len() && ids[m] == id;
                if m < front.len() {
                    assert(front[m] == id);
                    assert(front.contains(id));
                    assert(kept.contains(id));
                    let k = choose|k: int| 0 <= k < kept.len() && kept[k] == id;
                    assert(ids.filter(pred)[k] == id);
                } else {
                    assert(ids.filter(pred).last() == id);
                }
            }
        }
        assert forall|i: int, j: int| 0 <= i < j < ids.filter(pred).len() implies key(
            #[trigger] ids.filter(pred)[i],
        ) < key(#[trigger] ids.filter(pred)[j]) by {
            assert(ids.filter(pred)[i] == kept[i]);
            if j < kept.len() {
                assert(ids.filter(pred)[j] == kept[j]);
            } else {
                assert(kept.contains(kept[i]));
                let m = choose|m: int| 0 <= m < front.len() && front[m] == kept[i];
                assert(ids[m] == kept[i]);
                assert(ids[ids.len() - 1] == ids.last());
            }
        }
    }
}

/// The update order is a stable sort by focus rank: it holds every window once,
/// ranks never decrease along it, and windows of the same rank stay in the
/// order in which they were given.
pub proof fn law_update_order_is_a_stable_sort(
    windows: Seq<ContainerId>,
    focus: Seq<ContainerId>,
)
    requires
        windows.no_duplicates(),
    ensures
        update_order(windows, focus).no_duplicates(),
        forall|id: ContainerId| #[trigger]
            update_order(windows, focus).contains(id) <==> windows.contains(id),
        forall|i: int, j: int|
            0 <= i < j < update_order(windows, focus).len() ==> {
                let a = #[trigger] update_order(windows, focus)[i];
                let b = #[trigger] update_order(windows, focus)[j];
                ||| focus_rank(focus, a) < focus_rank(focus, b)
                ||| focus_rank(focus, a) == focus_rank(focus, b) && windows.index_of(a)
                    < windows.index_of(b)
            },
{
    let absent = |id: ContainerId| !focus.contains(id);
    let wanted = |id: ContainerId| windows.contains(id);
    let head = windows.filter(absent);
    let tail = unique(focus).filter(wanted);
    let order = update_order(windows, focus);
    let place = |id: ContainerId| windows.index_of(id);
    let rank = |id: ContainerId| focus_rank(focus, id);
    assert(order =~= head + tail);
    assert forall|i: int, j: int| 0 <= i < j < windows.len() implies place(#[trigger] windows[i])
        < place(#[trigger] windows[j]) by {
        assert(windows.index_of(windows[i]) == i);
        assert(windows.index_of(windows[j]) == j);
    }
    lemma_filter_keeps_order(windows, absent, place);
    lemma_unique(focus);
    lemma_unique_sorted(focus);
    assert forall|i: int, j: int| 0 <= i < j < unique(focus).len() implies rank(
        #[trigger] unique(focus)[i],
    ) < rank(#[trigger] unique(focus)[j]) by {}
    lemma_filter_keeps_order(unique(focus), wanted, rank);
    assert forall|id: ContainerId| #[trigger] order.contains(id) <==> windows.contains(id) by {
        if order.contains(id) {
            let k = choose|k: int| 0 <= k < order.len() && order[k] == id;
            if k < head.len() {
                assert(head[k] == id);
                assert(head.contains(id));
            } else {
                assert(tail[k - head.len()] == id);
                assert(tail.contains(id));
            }
        }
        if windows.contains(id) {
            if focus.contains(id) {
                assert(unique(focus).contains(id));
                assert(tail.contains(id));
                let k = choose|k: int| 0 <= k < tail.len() && tail[k] == id;
                assert(order[head.len() + k] == id);
            } else {
                assert(head.contains(id));
                let k = choose|k: int| 0 <= k < head.len() && head[k] == id;
                assert(order[k] == id);
            }
        }
    }
    assert forall|i: int, j: int| 0 <= i < j < order.len() implies {
        let a = #[trigger] order[i];
        let b = #[trigger] order[j];
        ||| focus_rank(focus, a) < focus_rank(focus, b)
        ||| focus_rank(focus, a) == focus_rank(focus, b) && windows.index_of(a) < windows.index_of(
            b,
        )
    } by {
        let a = order[i];
        let b = order[j];
        focus.index_of_first_ensures(b);
        if j < head.len() {
            assert(head[i] == a && head[j] == b);
            assert(head.contains(a) && head.contains(b));
            assert(place(head[i]) < place(head[j]));
        } else if i < head.len() {
            assert(head[i] == a);
            assert(head.contains(a));
            assert(tail[j - head.len()] == b);
            assert(tail.contains(b));
            assert(unique(focus).contains(b));
        } else {
            assert(tail[i - head.len()] == a && tail[j - head.len()] == b);
            assert(rank(tail[i - head.len()]) < rank(tail[j - head.len()]));
        }
    }
}

/// A window of a workspace: its id and its state.
#[derive(Clone, Copy, Debug, PartialEq, Eq, Structural)]
pub struct WindowBrief {
    pub id: ContainerId,
    pub state: WindowState,
}

/// A workspace as far as stacking is concerned.
pub struct WorkspaceStack {
    pub id: ContainerId,
    /// State of the most recently focused descendant, if that is a window.
    pub focused_state: Option<WindowState>,
    /// The windows among the descendants.
    pub windows: Vec<WindowBrief>,
}

/// Tiling and floating windows are raised together with a focused window of
/// their own kind.
pub open spec fn raised_with(window: WindowBrief, focused: WindowState) -> bool {
    &&& window.state is Floating || window.state is Tiling
    &&& window.state.same_kind(focused)
}

impl WorkspaceStack {
    /// The windows to raise in this workspace.
    pub open spec fn raised(self) -> Seq<ContainerId> {
        match self.focused_state {
            Some(focused) => self.windows@.filter(
                |window: WindowBrief| raised_with(window, focused),
            ).map_values(|window: WindowBrief| window.id),
            None => seq![],
        }
    }
}

/// The windows to raise in the first `n` workspaces; a workspace that is listed
/// again adds nothing.
pub open spec fn raised_in(workspaces: Seq<WorkspaceStack>, n: nat) -> Seq<ContainerId>
    recommends
        n <= workspaces.len(),
    decreases n,
{
    if n == 0 {
        seq![]
    } else {
        let k = (n - 1) as nat;
        if exists|j: int| 0 <= j < k && #[trigger] workspaces[j].id == workspaces[k as int].id {
            raised_in(workspaces, k)
        } else {
            raised_in(workspaces, k) + workspaces[k as int].raised()
        }
    }
}

/// The workspaces whose stacking order is restored: those queued for it, and
/// the focused one when focus is about to change.
pub open spec fn workspaces_to_reorder(
    queued: Seq<WorkspaceStack>,
    focused_workspace: WorkspaceStack,
    needs_focus_update: bool,
) -> Seq<WorkspaceStack> {
    if needs_focus_update {
        queued.push(focused_workspace)
    } else {
        queued
    }
}

/// Appends the windows to raise in one workspace.
fn raise_workspace(windows: &mut Vec<ContainerId>, workspace: &WorkspaceStack)
    ensures
        final(windows)@ == old(windows)@ + workspace.raised(),
{
    let ghost before = windows@;
    if let Some(focused) = workspace.focused_state {
        let ghost raised = |window: WindowBrief| raised_with(window, focused);
        let ghost id_of = |window: WindowBrief| window.id;
        let mut i: usize = 0;
        assert(workspace.windows@.take(0).filter(raised) =~= seq![]) by {
            reveal(Seq::filter);
        }
        assert(windows@ =~= before + workspace.windows@.take(0).filter(raised).map_values(id_of));
        while i < workspace.windows.len()
            invariant
                i <= workspace.windows.len(),
                raised == (|window: WindowBrief| raised_with(window, focused)),
                id_of == (|window: WindowBrief| window.id),
                windows@ == before + workspace.windows@.take(i as int).filter(raised).map_values(
                    id_of,
                ),
            decreases workspace.windows.len() - i,
        {
            let window = workspace.windows[i];
            proof {
                reveal(Seq::filter);
                assert(workspace.windows@.take(i + 1).drop_last() =~= workspace.windows@.take(
                    i as int,
                ));
            }
            if (window.state.is_floating() || window.state.is_tiling())
                && window.state.is_same_state(&focused) {
                windows.push(window.id);
                assert(windows@ =~= before + workspace.windows@.take(i + 1).filter(
                    raised,
                ).map_values(id_of));
            }
            i += 1;
        }
        assert(workspace.windows@.take(workspace.windows@.len() as int) =~= workspace.windows@);
    } else {
        assert(windows@ =~= before + workspace.raised());
    }
}

/// Finds windows that should be brought to the top of their workspace's
/// z-order.
///
/// Windows are brought to front if they match the focused window's state
/// (floating/tiling), in every workspace that is queued for reordering and, on
/// a focus change, in the focused workspace.
pub fn windows_to_bring_to_front(
    queued: &Vec<WorkspaceStack>,
    focused_workspace: Option<&WorkspaceStack>,
    needs_focus_update: bool,
) -> (windows: Result<Vec<ContainerId>, SyncError>)
    ensures
        focused_workspace is None <==> windows is Err,
        windows matches Err(error) ==> error == SyncError::NoWorkspace,
        windows matches Ok(ids) ==> {
            let all = workspaces_to_reorder(
                queued@,
                *focused_workspace->0,
                needs_focus_update,
            );
            ids@ == raised_in(all, all.len())
        },
{
    let focused_workspace = match focused_workspace {
        Some(workspace) => workspace,
        None => return Err(SyncError::NoWorkspace),
    };
    let ghost all = workspaces_to_reorder(queued@, *focused_workspace, needs_focus_update);
    let mut windows: Vec<ContainerId> = Vec::new();
    let mut i: usize = 0;
    while i < queued.len()
        invariant
            i <= queued.len(),
            all == workspaces_to_reorder(queued@, *focused_workspace, needs_focus_update),
            windows@ == raised_in(all, i as nat),
        decreases queued.len() - i,
    {
        assert(all[i as int] == queued@[i as int]);
        if !listed_before(queued, i, queued[i].id) {
            assert(forall|j: int| 0 <= j < i ==> #[trigger] all[j].id == queued@[j].id);
            raise_workspace(&mut windows, &queued[i]);
        } else {
            let ghost j = choose|j: int| 0 <= j < i && #[trigger] queued@[j].id == queued@[i as int].id;
            assert(all[j].id == all[i as int].id);
        }
        i += 1;
    }
    if needs_focus_update {
        assert(all[i as int] == *focused_workspace);
        if !listed_before(queued, i, focused_workspace.id) {
            assert(forall|j: int| 0 <= j < i ==> #[trigger] all[j].id == queued@[j].id);
            raise_workspace(&mut windows, focused_workspace);
        } else {
            let ghost j = choose|j: int| 0 <= j < i && #[trigger] queued@[j].id == focused_workspace.id;
            assert(all[j].id == all[i as int].id);
        }
        assert(windows@ == raised_in(all, all.len()));
    }
    Ok(windows)
}

/// Whether one of the first `n` workspaces has the id.
fn listed_before(workspaces: &Vec<WorkspaceStack>, n: usize, id: ContainerId) -> (listed: bool)
    requires
        n <= workspaces.len(),
    ensures
        listed == exists|j: int| 0 <= j < n && #[trigger] workspaces@[j].id == id,
{
    let mut j: usize = 0;
    while j < n
        invariant
            j <= n <= workspaces.len(),
            forall|k: int| 0 <= k < j ==> #[trigger] workspaces@[k].id != id,
        decreases n - j,
    {
        if workspaces[j].id == id {
            return true;
        }
        j += 1;
    }
    false
}

/// A fullscreen or minimized window is never brought to the front, and every
/// window that is shares the kind of the window its workspace has focused.
pub proof fn law_only_windows_of_the_focused_kind_are_raised(workspace: WorkspaceStack, i: int)
    requires
        0 <= i < workspace.raised().len(),
    ensures
        workspace.focused_state is Some,
        exists|k: int|
            0 <= k < workspace.windows@.len() && workspace.windows@[k].id == workspace.raised()[i]
                && raised_with(#[trigger] workspace.windows@[k], workspace.focused_state->0),
{
    let focused = workspace.focused_state->0;
    let raised = |window: WindowBrief| raised_with(window, focused);
    let kept = workspace.windows@.filter(raised);
    workspace.windows@.lemma_filter_pred(raised, i);
    assert(kept.contains(kept[i]));
    workspace.windows@.lemma_filter_contains_rev(raised, kept[i]);
    let k = choose|k: int| 0 <= k < workspace.windows@.len() && workspace.windows@[k] == kept[i];
    assert(workspace.raised()[i] == kept[i].id);
    assert(raised_with(workspace.windows@[k], focused));
}

/// Dropping repetitions keeps the first occurrence of every id, in order.
pub proof fn law_first_occurrences_are_kept(ids: Seq<ContainerId>) -> (places: Seq<int>)
    ensures
        crate::selection::selects(
            places,
            ids.len() as int,
            |i: int| crate::selection::first_occurrence(ids, i),
        ),
        unique(ids).len() == places.len(),
        forall|k: int| 0 <= k < places.len() ==> #[trigger] unique(ids)[k] == ids[places[k]],
    decreases ids.len(),
{
    if ids.len() == 0 {
        Seq::empty()
    } else {
        let front = ids.drop_last();
        let n = front.len() as int;
        let before = law_first_occurrences_are_kept(front);
        crate::selection::lemma_first_occurrences(ids);
        let places = crate::selection::lemma_select_next(
            before,
            n,
            |i: int| crate::selection::first_occurrence(front, i),
            |i: int| crate::selection::first_occurrence(ids, i),
        );
        assert forall|k: int| 0 <= k < places.len() implies #[trigger] unique(ids)[k]
            == ids[places[k]] by {
            if k < before.len() {
                assert(unique(front)[k] == front[before[k]]);
                assert(0 <= before[k] < n);
            }
        }
        places
    }
}

/// In an update, windows that were never focused come first and the others from
/// the most recently focused one on.
pub proof fn law_recent_focus_comes_first(
    windows: Seq<ContainerId>,
    focus: Seq<ContainerId>,
    i: int,
    j: int,
)
    requires
        windows.no_duplicates(),
        0 <= i < j < update_order(windows, focus).len(),
    ensures
        ({
            let earlier = update_order(windows, focus)[i];
            let later = update_order(windows, focus)[j];
            &&& focus.contains(earlier) ==> focus.contains(later)
            &&& focus.contains(earlier) ==> focus.index_of_first(earlier)->0
                < focus.index_of_first(later)->0
            &&& !focus.contains(later) ==> windows.index_of(earlier) < windows.index_of(later)
        }),
{
    law_update_order_is_a_stable_sort(windows, focus);
    let earlier = update_order(windows, focus)[i];
    let later = update_order(windows, focus)[j];
    focus.index_of_first_ensures(earlier);
    focus.index_of_first_ensures(later);
    assert(update_order(windows, focus).no_duplicates());
}

/// The windows that a workspace raises are its tiling windows if it has focused
/// a tiling one, its floating windows if it has focused a floating one, and none
/// otherwise.
pub proof fn law_workspaces_raise_the_focused_kind(workspace: WorkspaceStack) -> (places: Seq<int>)
    ensures
        crate::selection::selects(
            places,
            workspace.windows@.len() as int,
            |i: int|
                {
                    let state = workspace.windows@[i].state;
                    &&& workspace.focused_state is Some
                    &&& (workspace.focused_state->0 is Tiling && state is Tiling) || (
                    workspace.focused_state->0 is Floating && state is Floating)
                },
        ),
        workspace.raised().len() == places.len(),
        forall|k: int|
            0 <= k < places.len() ==> #[trigger] workspace.raised()[k]
                == workspace.windows@[places[k]].id,
{
    match workspace.focused_state {
        None => Seq::empty(),
        Some(focused) => {
            let places = crate::selection::lemma_filter_map(
                workspace.windows@,
                |window: WindowBrief| raised_with(window, focused),
                |window: WindowBrief| window.id,
            );
            crate::selection::lemma_selects_alike(
                places,
                workspace.windows@.len() as int,
                |i: int|
                    (|window: WindowBrief| raised_with(window, focused))(workspace.windows@[i]),
                |i: int|
                    {
                        let state = workspace.windows@[i].state;
                        &&& workspace.focused_state is Some
                        &&& (workspace.focused_state->0 is Tiling && state is Tiling) || (
                        workspace.focused_state->0 is Floating && state is Floating)
                    },
            );
            places
        },
    }
}

/// No workspace with the same id comes earlier.
pub open spec fn first_listed(workspaces: Seq<WorkspaceStack>, j: int) -> bool {
    forall|i: int| 0 <= i < j ==> #[trigger] workspaces[i].id != workspaces[j].id
}

/// A window is raised exactly if some workspace, at its first occurrence, raises
/// it.
pub proof fn law_every_listed_workspace_raises_its_windows(
    workspaces: Seq<WorkspaceStack>,
    n: nat,
    id: ContainerId,
)
    requires
        n <= workspaces.len(),
    ensures
        raised_in(workspaces, n).contains(id) <==> exists|j: int|
            0 <= j < n && first_listed(workspaces, j) && (#[trigger] workspaces[j]).raised().contains(
                id,
            ),
    decreases n,
{
    if n > 0 {
        let k = (n - 1) as nat;
        let last = workspaces[k as int];
        law_every_listed_workspace_raises_its_windows(workspaces, k, id);
        let before = raised_in(workspaces, k);
        assert(first_listed(workspaces, k as int) <==> !(exists|j: int|
            0 <= j < k && #[trigger] workspaces[j].id == workspaces[k as int].id));
        if raised_in(workspaces, n).contains(id) {
            let all = raised_in(workspaces, n);
            let m = choose|m: int| 0 <= m < all.len() && all[m] == id;
            if m < before.len() {
                assert(before[m] == id);
                assert(before.contains(id));
                let j = choose|j: int|
                    0 <= j < k && first_listed(workspaces, j) && (
                    #[trigger] workspaces[j]).raised().contains(id);
                assert(workspaces[j].raised().contains(id));
            } else {
                assert(last.raised()[m - before.len()] == id);
                assert(last.raised().contains(id));
            }
        }
        if exists|j: int|
            0 <= j < n && first_listed(workspaces, j) && (#[trigger] workspaces[j]).raised().contains(
                id,
            ) {
            let j = choose|j: int|
                0 <= j < n && first_listed(workspaces, j) && (
                #[trigger] workspaces[j]).raised().contains(id);
            if j < k {
                assert(before.contains(id));
                let m = choose|m: int| 0 <= m < before.len() && before[m] == id;
                assert(raised_in(workspaces, n)[m] == id);
            } else {
                let m = choose|m: int| 0 <= m < last.raised().len() && last.raised()[m] == id;
                assert(raised_in(workspaces, n)[before.len() + m] == id);
            }
        }
    }
}

/// The stacking order is restored in all queued workspaces and, when focus is
/// about to change, in the focused one too.
pub proof fn law_focus_changes_restore_the_focused_workspace(
    queued: Seq<WorkspaceStack>,
    focused_workspace: WorkspaceStack,
    needs_focus_update: bool,
)
    ensures
        ({
            let all = workspaces_to_reorder(queued, focused_workspace, needs_focus_update);
            &&& all.len() == queued.len() + if needs_focus_update {
                1int
            } else {
                0
            }
            &&& forall|i: int| 0 <= i < queued.len() ==> #[trigger] all[i] == queued[i]
            &&& needs_focus_update ==> all.last() == focused_workspace
        }),
{
}

} // verus!
