//! What follows when a window is no longer minimized.
use vstd::prelude::*;

use crate::model::WindowState;
use crate::models::container::{Container, ContainerKind};
use crate::models::tree::ContainerTree;
use crate::state::WmState;

verus! {

/// A managed window as far as its minimization is concerned.
#[derive(Clone, Copy, Debug, PartialEq, Eq, Structural)]
pub struct MinimizableWindow {
    pub state: WindowState,
    /// The last known native state.
    pub is_minimized: bool,
}

/// Takes note that a window's minimization ended. `natively_minimized` is the
/// window's native state, if it could be read.
///
/// Returns the state to put the window in: a window that the manager holds for
/// minimized, but natively is not, goes back to tiling. The event may come
/// twice; the second one changes nothing.
pub fn handle_window_minimize_ended(
    window: &mut MinimizableWindow,
    natively_minimized: Option<bool>,
) -> (new_state: Option<WindowState>)
    ensures
        final(window).state == old(window).state,
        final(window).is_minimized == match natively_minimized {
            Some(is_minimized) => is_minimized,
            None => old(window).is_minimized,
        },
        new_state == if natively_minimized == Some(false) && old(window).state is Minimized {
            Some(WindowState::Tiling)
        } else {
            None
        },
        new_state is Some <==> old(window).state is Minimized && natively_minimized == Some(false),
        new_state is Some ==> !final(window).is_minimized,
{
    let is_minimized = match natively_minimized {
        Some(is_minimized) => is_minimized,
        None => return None,
    };
    window.is_minimized = is_minimized;
    if !is_minimized && window.state.is_minimized() {
        Some(WindowState::Tiling)
    } else {
        None
    }
}

/// Nothing is below a container without children but the container itself.
proof fn lemma_nothing_below(tree: ContainerTree, top: int, slot: int)
    requires
        tree.well_formed(),
        0 <= top < tree.spec_len(),
        0 <= slot < tree.spec_len(),
        tree.children_of(top).len() == 0,
        slot != top,
    ensures
        !tree.under(top, slot),
    decreases tree.rank@[slot],
{
    assert(tree.node_well_formed(slot));
    if let Some(parent) = tree.parent_of(slot) {
        if parent as int != top {
            lemma_nothing_below(tree, top, parent as int);
        }
    }
}

/// The container dies when the window's value is released and the window has
/// left its parent.
pub open spec fn dies(tree: ContainerTree, window: int, slot: int) -> bool {
    tree.under(window, slot) && !tree.survives(window, slot)
}

/// What changes in the tree when a window takes part in tiling again. The window
/// has left its parent and is held once less; if nothing else holds it, it dies
/// together with what is below it. The tiling container is the last child of
/// the parent. Nothing else changes.
pub open spec fn rejoined(
    after: ContainerTree,
    before: ContainerTree,
    window: int,
    parent: int,
    tiling: int,
) -> bool {
    &&& after.spec_len() == before.spec_len() + 1
    &&& tiling == before.spec_len()
    &&& after.nodes@[tiling].id == before.nodes@[window].id
    &&& after.nodes@[tiling].kind is TilingWindow
    &&& after.nodes@[tiling].held == 1
    &&& after.parent_of(tiling) == Some(parent as usize)
    &&& after.children_of(tiling) == Seq::<usize>::empty()
    &&& after.focus_of(tiling) == Seq::<usize>::empty()
    &&& forall|slot: int|
        0 <= slot < before.spec_len() ==> {
            let node = #[trigger] after.nodes@[slot];
            let counterpart = before.nodes@[slot];
            &&& node.id == counterpart.id
            &&& node.kind == counterpart.kind
            &&& node.held == counterpart.held - if slot == window {
                1int
            } else {
                0int
            }
            &&& node.parent == match counterpart.parent {
                Some(above) if slot != window && !dies(before, window, above as int) => Some(above),
                _ => None,
            }
            &&& node.children@ == if dies(before, window, slot) {
                seq![]
            } else if slot == parent {
                counterpart.children@.remove_value(window as usize).push(tiling as usize)
            } else {
                counterpart.children@
            }
            &&& node.focus_order@ == if dies(before, window, slot) {
                seq![]
            } else if slot == parent {
                counterpart.focus_order@.remove_value(window as usize).push(tiling as usize)
            } else {
                counterpart.focus_order@
            }
        }
}

/// Once a window has left its parent, what is below it is kept exactly if it
/// survives the window's release, and what is not is kept if it is alive.
proof fn lemma_kept_or_dies(left: ContainerTree, before: ContainerTree, window: int, slot: int)
    requires
        before.well_formed(),
        left.well_formed(),
        before.spec_len() <= left.spec_len(),
        0 <= window < before.spec_len(),
        0 <= slot < before.spec_len(),
        left.parent_of(window) is None,
        forall|other: int|
            0 <= other < before.spec_len() ==> {
                let node = #[trigger] left.nodes@[other];
                &&& node.held == before.nodes@[other].held
                &&& other != window ==> node.parent == before.nodes@[other].parent
            },
    ensures
        before.under(window, slot) ==> left.kept(window, slot) == before.survives(window, slot),
        !before.under(window, slot) ==> left.kept(window, slot) == before.alive(slot),
    decreases before.rank@[slot],
{
    assert(before.node_well_formed(slot));
    assert(left.node_well_formed(slot));
    assert(left.nodes@[slot].held == before.nodes@[slot].held);
    if slot != window {
        if let Some(above) = before.parent_of(slot) {
            lemma_kept_or_dies(left, before, window, above as int);
            assert(before.node_well_formed(above as int));
            assert(before.children_of(above as int).len() > 0);
        }
    }
}

/// Leaving the parent, creating the tiling container, attaching it and releasing
/// the window add up.
proof fn lemma_rejoined(
    after: ContainerTree,
    attached: ContainerTree,
    created: ContainerTree,
    without: ContainerTree,
    before: ContainerTree,
    window: int,
    parent: int,
)
    requires
        before.well_formed(),
        attached.well_formed(),
        0 <= window < before.spec_len(),
        0 <= parent < before.spec_len(),
        window != parent,
        !before.under(window, parent),
        before.nodes@[parent].held > 0,
        before.spec_len() < usize::MAX,
        without.detached(before, window, parent),
        created.spec_len() == without.spec_len() + 1,
        forall|slot: int|
            0 <= slot < without.spec_len() ==> #[trigger] created.nodes@[slot]
                == without.nodes@[slot],
        created.nodes@.last().id == before.nodes@[window].id,
        created.nodes@.last().kind is TilingWindow,
        created.nodes@.last().held == 1,
        created.nodes@.last().children@ == Seq::<usize>::empty(),
        created.nodes@.last().focus_order@ == Seq::<usize>::empty(),
        attached.attached(created, before.spec_len() as int, parent),
        after.released(attached, window),
    ensures
        rejoined(after, before, window, parent, before.spec_len() as int),
{
    let tiling = before.spec_len() as int;
    assert forall|slot: int| 0 <= slot < before.spec_len() implies {
        let node = #[trigger] attached.nodes@[slot];
        let counterpart = before.nodes@[slot];
        &&& node.id == counterpart.id
        &&& node.kind == counterpart.kind
        &&& node.held == counterpart.held
        &&& node.parent == if slot == window {
            None
        } else {
            counterpart.parent
        }
        &&& slot != parent ==> node.children@ == counterpart.children@ && node.focus_order@
            == counterpart.focus_order@
    } by {
        assert(created.nodes@[slot] == without.nodes@[slot]);
        assert(without.nodes@[slot].id == before.nodes@[slot].id);
    }
    assert(attached.nodes@[tiling].id == created.nodes@[tiling].id);
    assert(after.nodes@[tiling].id == attached.nodes@[tiling].id);
    assert(created.nodes@[parent] == without.nodes@[parent]);
    assert(attached.nodes@[parent].held == before.nodes@[parent].held);
    assert(attached.kept(window, parent));
    assert(attached.kept(window, tiling));
    assert forall|slot: int| 0 <= slot < before.spec_len() implies {
        let node = #[trigger] after.nodes@[slot];
        let counterpart = before.nodes@[slot];
        &&& node.id == counterpart.id
        &&& node.kind == counterpart.kind
        &&& node.held == counterpart.held - if slot == window {
            1int
        } else {
            0int
        }
        &&& node.parent == match counterpart.parent {
            Some(above) if slot != window && !dies(before, window, above as int) => Some(above),
            _ => None,
        }
        &&& node.children@ == if dies(before, window, slot) {
            seq![]
        } else if slot == parent {
            counterpart.children@.remove_value(window as usize).push(tiling as usize)
        } else {
            counterpart.children@
        }
        &&& node.focus_order@ == if dies(before, window, slot) {
            seq![]
        } else if slot == parent {
            counterpart.focus_order@.remove_value(window as usize).push(tiling as usize)
        } else {
            counterpart.focus_order@
        }
    } by {
        assert(attached.nodes@[slot].id == before.nodes@[slot].id);
        assert(before.node_well_formed(slot));
        assert(attached.node_well_formed(slot));
        lemma_kept_or_dies(attached, before, window, slot);
        if let Some(above) = before.parent_of(slot) {
            lemma_kept_or_dies(attached, before, window, above as int);
            assert(before.node_well_formed(above as int));
            assert(before.children_of(above as int).len() > 0);
        }
        if !before.alive(slot) {
            lemma_no_focus(before, slot);
        }
    }
}

/// A container without children has none in its focus order.
proof fn lemma_no_focus(tree: ContainerTree, slot: int)
    requires
        tree.well_formed(),
        0 <= slot < tree.spec_len(),
        tree.children_of(slot).len() == 0,
    ensures
        tree.children_of(slot) == Seq::<usize>::empty(),
        tree.focus_of(slot) == Seq::<usize>::empty(),
{
    assert(tree.node_well_formed(slot));
    if tree.focus_of(slot).len() > 0 {
        assert(tree.nodes@[slot].focus_order@.contains(tree.focus_of(slot)[0]));
    }
}

/// A window that takes part in tiling again is found below whatever its parent
/// was found below, such as the root. Whatever was not below the window is found
/// where it was.
pub proof fn law_rejoined_windows_are_found(
    after: ContainerTree,
    before: ContainerTree,
    window: int,
    parent: int,
    tiling: int,
    top: int,
    slot: int,
)
    requires
        before.well_formed(),
        after.well_formed(),
        0 <= window < before.spec_len(),
        0 <= parent < before.spec_len(),
        before.parent_of(window) == Some(parent as usize),
        rejoined(after, before, window, parent, tiling),
        0 <= slot < before.spec_len(),
        !before.under(window, slot),
    ensures
        after.under(top, slot) == before.under(top, slot),
        before.under(top, parent) ==> after.under(top, tiling),
{
    assert(before.node_well_formed(slot));
    assert(after.node_well_formed(slot));
    assert(after.node_well_formed(tiling));
    lemma_same_place(after, before, window, parent, tiling, top, slot);
    crate::models::tree::law_no_container_is_its_own_ancestor(before, window);
    lemma_same_place(after, before, window, parent, tiling, top, parent);
}

/// What was not below the window stays where it was.
proof fn lemma_same_place(
    after: ContainerTree,
    before: ContainerTree,
    window: int,
    parent: int,
    tiling: int,
    top: int,
    slot: int,
)
    requires
        before.well_formed(),
        after.well_formed(),
        0 <= window < before.spec_len(),
        rejoined(after, before, window, parent, tiling),
        0 <= slot < before.spec_len(),
        !before.under(window, slot),
    ensures
        after.under(top, slot) == before.under(top, slot),
    decreases before.rank@[slot],
{
    assert(before.node_well_formed(slot));
    assert(after.node_well_formed(slot));
    assert(after.nodes@[slot].id == before.nodes@[slot].id);
    if let Some(above) = before.parent_of(slot) {
        lemma_same_place(after, before, window, parent, tiling, top, above as int);
    }
}

/// Lets a window take part in tiling again: a tiling container with the id of
/// the window takes the place of the one that did not tile, last among its
/// siblings, and the tiling siblings are redrawn.
pub fn rejoin_tiling(
    tree: &mut ContainerTree,
    state: &mut WmState,
    window: Container,
    parent: &Container,
) -> (tiling: Container)
    requires
        old(tree).well_formed(),
        old(tree).spec_len() < usize::MAX,
        old(tree).holds(window),
        old(tree).holds(*parent),
        old(tree).parent_of(window.inner().slot as int) == Some(parent.inner().slot),
    ensures
        final(tree).well_formed(),
        final(tree).follows(*old(tree)),
        final(tree).holds(*parent),
        final(tree).holds(tiling),
        tiling.spec_kind() is TilingWindow,
        tiling.inner().id == window.inner().id,
        tiling.inner().slot == old(tree).spec_len(),
        rejoined(
            *final(tree),
            *old(tree),
            window.inner().slot as int,
            parent.inner().slot as int,
            tiling.inner().slot as int,
        ),
        final(state).pending_sync.containers_to_redraw@ == crate::state::queued_all(
            old(state).pending_sync.containers_to_redraw@,
            final(tree).tiling_ids(final(tree).children_of(parent.inner().slot as int)),
        ),
        final(state).pending_sync == (crate::state::PendingSync {
            containers_to_redraw: final(state).pending_sync.containers_to_redraw,
            ..old(state).pending_sync
        }),
        *final(state) == (WmState { pending_sync: final(state).pending_sync, ..*old(state) }),
{
    let ghost before = *tree;
    let ghost window_slot = window.inner().slot as int;
    let ghost parent_slot = parent.inner().slot as int;
    proof {
        assert(before.node_well_formed(window_slot));
    }
    let id: u128 = window.id();
    let _ = tree.detach(&window);
    let ghost without = *tree;
    proof {
        assert(without.nodes@[window_slot].id == before.nodes@[window_slot].id);
        assert(without.nodes@[parent_slot].id == before.nodes@[parent_slot].id);
    }
    let tiling = tree.create(ContainerKind::TilingWindow, id);
    let ghost created = *tree;
    let ghost slot = tiling.inner().slot as int;
    proof {
        assert(created.nodes@[window_slot] == without.nodes@[window_slot]);
        assert(created.nodes@[parent_slot] == without.nodes@[parent_slot]);
        lemma_nothing_below(created, slot, parent_slot);
    }
    let _ = tree.attach(&tiling, parent);
    let ghost attached = *tree;
    proof {
        assert(attached.nodes@[window_slot].id == created.nodes@[window_slot].id);
        assert(attached.nodes@[parent_slot].id == created.nodes@[parent_slot].id);
        assert(attached.nodes@[slot].id == created.nodes@[slot].id);
    }
    tree.release(window);
    proof {
        crate::models::tree::law_no_container_is_its_own_ancestor(before, window_slot);
        lemma_rejoined(*tree, attached, created, without, before, window_slot, parent_slot);
        assert(tree.nodes@[parent_slot].id == before.nodes@[parent_slot].id);
    }
    let siblings = tree.tiling_children(parent);
    state.pending_sync.queue_containers_to_redraw(&siblings);
    tiling
}

/// A window that takes part in tiling again is its parent's last child, with a
/// new container of the same id. The old container has no parent anymore, and
/// the siblings are still there.
pub proof fn law_rejoined_windows_come_last(
    after: ContainerTree,
    before: ContainerTree,
    window: int,
    parent: int,
    tiling: int,
    sibling: usize,
)
    requires
        before.well_formed(),
        0 <= window < before.spec_len(),
        0 <= parent < before.spec_len(),
        before.spec_len() < usize::MAX,
        before.parent_of(window) == Some(parent as usize),
        rejoined(after, before, window, parent, tiling),
    ensures
        after.nodes@[tiling].id == before.nodes@[window].id,
        after.nodes@[tiling].parent == Some(parent as usize),
        after.nodes@[window].parent is None,
        after.nodes@[parent].children@.len() > 0,
        after.nodes@[parent].children@.last() == tiling,
        after.nodes@[parent].focus_order@.last() == tiling,
        after.nodes@[parent].children@.contains(sibling) <==> sibling == tiling
            || before.nodes@[parent].children@.contains(sibling) && sibling != window,
{
    assert(before.node_well_formed(window));
    assert(before.node_well_formed(parent));
    crate::models::tree::law_no_container_is_its_own_ancestor(before, window);
    assert(!dies(before, window, parent));
    assert(after.nodes@[window].id == before.nodes@[window].id);
    assert(after.nodes@[parent].id == before.nodes@[parent].id);
    let children = before.children_of(parent);
    let rest = children.remove_value(window as usize);
    let all = after.nodes@[parent].children@;
    assert(all =~= rest.push(tiling as usize));
    children.index_of_first_ensures(window as usize);
    assert(children.contains(window as usize));
    let place = children.index_of_first(window as usize)->0;
    assert(rest =~= children.remove(place));
    if all.contains(sibling) {
        let k = choose|k: int| 0 <= k < all.len() && all[k] == sibling;
        if k < place {
            assert(children[k] == sibling);
        } else if k < rest.len() {
            assert(children[k + 1] == sibling);
        }
    }
    if children.contains(sibling) && sibling != window {
        let k = choose|k: int| 0 <= k < children.len() && children[k] == sibling;
        if k < place {
            assert(all[k] == sibling);
        } else {
            assert(all[k - 1] == sibling);
        }
    }
    assert(all[rest.len() as int] == tiling as usize);
}

/// What is held by another value survives the window's release, and so does
/// everything below a window that another value holds. What nobody else holds
/// dies with the window.
pub proof fn law_only_unheld_containers_die(tree: ContainerTree, window: int, slot: int)
    requires
        tree.well_formed(),
        0 <= window < tree.spec_len(),
        0 <= slot < tree.spec_len(),
        tree.under(window, slot),
    ensures
        slot != window && tree.nodes@[slot].held > 0 ==> !dies(tree, window, slot),
        tree.nodes@[window].held > 1 ==> !dies(tree, window, slot),
        tree.nodes@[window].held <= 1 && (forall|other: int|
            0 <= other < tree.spec_len() && other != window && tree.under(window, other)
                ==> (#[trigger] tree.nodes@[other]).held == 0) ==> dies(tree, window, slot),
    decreases tree.rank@[slot],
{
    assert(tree.node_well_formed(slot));
    if slot != window {
        assert(tree.nodes@[slot].held >= 0);
        law_only_unheld_containers_die(tree, window, tree.parent_of(slot)->0 as int);
    }
}

} // verus!
