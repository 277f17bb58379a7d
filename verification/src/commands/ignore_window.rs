//! Taking a window out of the layout for good.
use vstd::prelude::*;

use crate::model::{NativeHandle, SyncError, WindowState};
use crate::models::container::{Container, WeakContainer};
use crate::models::tree::{ContainerTree, TreeError};
use crate::platform::window_position_queue::Queue;
use crate::state::WmState;

verus! {

/// How many ancestors of an ignored window may have become redundant.
pub const FLATTENED_ANCESTORS: usize = 3;

/// The ancestors that may have become redundant, from the parent up.
pub open spec fn nearby_ancestors(ancestors: Seq<usize>) -> Seq<usize> {
    if ancestors.len() > FLATTENED_ANCESTORS {
        ancestors.take(FLATTENED_ANCESTORS as int)
    } else {
        ancestors
    }
}

/// Starts ignoring a window: queued positions are cancelled, the window goes on
/// record and leaves the tree. The returned ancestors are to be flattened, from
/// the last to the first.
///
/// For example, the layout `V[1 H[2]]` becomes `V[H[2]]` when the container `1`
/// is detached, which then needs to be flattened to `V[2]`.
pub fn ignore_window(
    tree: &mut ContainerTree,
    state: &mut WmState,
    positions: &mut Queue,
    window: &Container,
    native: NativeHandle,
) -> (ancestors: Result<Vec<WeakContainer>, TreeError>)
    requires
        old(tree).well_formed(),
        old(tree).holds(*window),
        old(positions).well_formed(),
    ensures
        final(tree).well_formed(),
        final(tree).follows(*old(tree)),
        final(positions).well_formed(),
        final(positions)@ == old(positions)@.remove(native),
        final(state).ignored_windows@ == old(state).ignored_windows@.push(native),
        *final(state) == (WmState {
            ignored_windows: final(state).ignored_windows,
            ..*old(state)
        }),
        match old(tree).parent_of(window.inner().slot as int) {
            Some(parent) => {
                &&& ancestors matches Ok(ancestors) && ContainerTree::slots_of(ancestors@)
                    == nearby_ancestors(old(tree).ancestors_of(window.inner().slot as int)) && (
                forall|i: int|
                    0 <= i < ancestors@.len() ==> final(tree).knows(#[trigger] ancestors@[i]))
                &&& final(tree).detached(*old(tree), window.inner().slot as int, parent as int)
            },
            None => ancestors == Err::<Vec<WeakContainer>, TreeError>(TreeError::NotAttached)
                && *final(tree) == *old(tree),
        },
{
    positions.cancel(native);
    let mut ancestors = tree.ancestors(window);
    let ghost all = ancestors@;
    if ancestors.len() > FLATTENED_ANCESTORS {
        ancestors.truncate(FLATTENED_ANCESTORS);
    }
    assert(ContainerTree::slots_of(ancestors@) =~= nearby_ancestors(
        ContainerTree::slots_of(all),
    ));
    state.ignored_windows.push(native);
    match tree.detach(window) {
        Ok(()) => Ok(ancestors),
        Err(error) => Err(error),
    }
}

/// The first of the containers that is still attached.
pub open spec fn first_attached(tree: ContainerTree, ancestors: Seq<Container>) -> Option<Container>
    decreases ancestors.len(),
{
    if ancestors.len() == 0 {
        None
    } else {
        match first_attached(tree, ancestors.drop_last()) {
            Some(found) => Some(found),
            None => if tree.parent_of(ancestors.last().inner().slot as int) is Some {
                Some(ancestors.last())
            } else {
                None
            },
        }
    }
}

/// Ends ignoring a window, its ancestors having been flattened. If the window
/// was tiling, its siblings are redrawn: those in the closest ancestor that is
/// still attached.
pub fn finish_ignore(
    tree: &ContainerTree,
    state: &mut WmState,
    window_state: WindowState,
    ancestors: &Vec<Container>,
) -> (result: Result<(), SyncError>)
    requires
        tree.well_formed(),
        forall|i: int| 0 <= i < ancestors@.len() ==> tree.holds(#[trigger] ancestors@[i]),
    ensures
        result is Err <==> window_state is Tiling && first_attached(*tree, ancestors@) is None,
        result matches Err(error) ==> error == SyncError::NoAncestorToRedraw,
        result is Err || !(window_state is Tiling) ==> *final(state) == *old(state),
        result is Ok && window_state is Tiling ==> {
            let found = first_attached(*tree, ancestors@)->0;
            &&& final(state).pending_sync.containers_to_redraw@ == crate::state::queued_all(
                old(state).pending_sync.containers_to_redraw@,
                tree.tiling_ids(tree.children_of(found.inner().slot as int)),
            )
            &&& final(state).pending_sync == (crate::state::PendingSync {
                containers_to_redraw: final(state).pending_sync.containers_to_redraw,
                ..old(state).pending_sync
            })
            &&& *final(state) == (WmState {
                pending_sync: final(state).pending_sync,
                ..*old(state)
            })
        },
{
    if !window_state.is_tiling() {
        return Ok(());
    }
    let ghost before = *state;
    let mut i: usize = 0;
    assert(ancestors@.take(0) =~= seq![]);
    while i < ancestors.len()
        invariant
            before == *old(state),
            *state == before,
            window_state is Tiling,
            tree.well_formed(),
            forall|i: int| 0 <= i < ancestors@.len() ==> tree.holds(#[trigger] ancestors@[i]),
            i <= ancestors.len(),
            first_attached(*tree, ancestors@.take(i as int)) is None,
        decreases ancestors.len() - i,
    {
        assert(ancestors@.take(i + 1).drop_last() =~= ancestors@.take(i as int));
        if !tree.is_detached(&ancestors[i]) {
            proof {
                lemma_first_attached(*tree, ancestors@, i as int);
            }
            let children = tree.tiling_children(&ancestors[i]);
            state.pending_sync.queue_containers_to_redraw(&children);
            return Ok(());
        }
        i += 1;
    }
    assert(ancestors@.take(ancestors@.len() as int) =~= ancestors@);
    Err(SyncError::NoAncestorToRedraw)
}

/// The first attached container stays the first, whatever follows it.
proof fn lemma_first_attached(tree: ContainerTree, ancestors: Seq<Container>, i: int)
    requires
        0 <= i < ancestors.len(),
        first_attached(tree, ancestors.take(i)) is None,
        tree.parent_of(ancestors[i].inner().slot as int) is Some,
    ensures
        first_attached(tree, ancestors) == Some(ancestors[i]),
    decreases ancestors.len(),
{
    if i == ancestors.len() - 1 {
        assert(ancestors.drop_last() =~= ancestors.take(i));
    } else {
        assert(ancestors.drop_last().take(i) =~= ancestors.take(i));
        lemma_first_attached(tree, ancestors.drop_last(), i);
    }
}

/// The ancestors to flatten are the closest ones, at most three, from the parent
/// up.
pub proof fn law_the_closest_ancestors_are_flattened(ancestors: Seq<usize>)
    ensures
        nearby_ancestors(ancestors).is_prefix_of(ancestors),
        ancestors.len() <= 3 ==> nearby_ancestors(ancestors).len() == ancestors.len(),
        ancestors.len() >= 3 ==> nearby_ancestors(ancestors).len() == 3,
{
}

/// The siblings are redrawn in the closest ancestor that is still attached: all
/// closer ones are detached, and if none is attached there is nothing to redraw.
pub proof fn law_the_closest_attached_ancestor_is_found(
    tree: ContainerTree,
    ancestors: Seq<Container>,
) -> (place: int)
    ensures
        first_attached(tree, ancestors) is None <==> place == ancestors.len(),
        0 <= place <= ancestors.len(),
        forall|i: int|
            0 <= i < place ==> tree.parent_of(
                (#[trigger] ancestors[i]).inner().slot as int,
            ) is None,
        place < ancestors.len() ==> first_attached(tree, ancestors) == Some(ancestors[place])
            && tree.parent_of(ancestors[place].inner().slot as int) is Some,
    decreases ancestors.len(),
{
    if ancestors.len() == 0 {
        0
    } else {
        let front = ancestors.drop_last();
        let place = law_the_closest_attached_ancestor_is_found(tree, front);
        assert forall|i: int| 0 <= i < place implies tree.parent_of(
            (#[trigger] ancestors[i]).inner().slot as int,
        ) is None by {
            assert(ancestors[i] == front[i]);
        }
        if place < front.len() {
            place
        } else if tree.parent_of(ancestors.last().inner().slot as int) is Some {
            place
        } else {
            place + 1
        }
    }
}

} // verus!
