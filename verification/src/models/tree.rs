//! Who is whose child, and who is held.
use vstd::prelude::*;

use crate::model::ContainerId;
use crate::models::container::{Container, ContainerKind, WeakContainer};

verus! {

/// A container in the tree.
pub struct Node {
    pub id: ContainerId,
    pub kind: ContainerKind,
    pub parent: Option<usize>,
    pub children: Vec<usize>,
    /// The children, from the most recently focused one on.
    pub focus_order: Vec<usize>,
    /// How many values hold the container.
    pub held: usize,
}

/// The containers, by slot. Slots are never reused.
pub struct ContainerTree {
    pub nodes: Vec<Node>,
    /// Grows from parent to child, so that no container is its own ancestor.
    pub rank: Ghost<Seq<nat>>,
}

/// Why a container could not be attached or detached.
#[derive(Clone, Copy, Debug, PartialEq, Eq, Structural)]
pub enum TreeError {
    /// The container already has a parent.
    AlreadyAttached,
    /// The container would become its own ancestor.
    Cycle,
    /// The container has no parent.
    NotAttached,
}

impl Node {
    /// Held, or someone's child.
    pub open spec fn alive(self) -> bool {
        self.held > 0 || self.parent is Some
    }
}

impl ContainerTree {
    pub open spec fn spec_len(self) -> nat {
        self.nodes@.len()
    }

    pub open spec fn alive(self, slot: int) -> bool {
        0 <= slot < self.spec_len() && self.nodes@[slot].alive()
    }

    pub open spec fn parent_of(self, slot: int) -> Option<usize> {
        self.nodes@[slot].parent
    }

    pub open spec fn children_of(self, slot: int) -> Seq<usize> {
        self.nodes@[slot].children@
    }

    pub open spec fn focus_of(self, slot: int) -> Seq<usize> {
        self.nodes@[slot].focus_order@
    }

    /// The slot's node agrees with its neighbours.
    pub open spec fn node_well_formed(self, slot: int) -> bool {
        let node = self.nodes@[slot];
        &&& node.parent matches Some(parent) ==> {
            &&& parent < self.spec_len()
            &&& self.rank@[parent as int] < self.rank@[slot]
            &&& self.children_of(parent as int).contains(slot as usize)
        }
        &&& node.children@.no_duplicates()
        &&& node.focus_order@.no_duplicates()
        &&& forall|k: int|
            0 <= k < node.children@.len() ==> (#[trigger] node.children@[k]) < self.spec_len()
                && self.parent_of(node.children@[k] as int) == Some(slot as usize)
        &&& forall|child: usize| #[trigger]
            node.focus_order@.contains(child) <==> node.children@.contains(child)
        &&& !node.alive() ==> node.children@.len() == 0
    }

    /// Parents and children agree, no container is its own ancestor, and what
    /// is not alive has no children.
    pub open spec fn well_formed(self) -> bool {
        &&& self.rank@.len() == self.spec_len()
        &&& self.spec_len() <= usize::MAX
        &&& forall|slot: int|
            0 <= slot < self.spec_len() ==> #[trigger] self.node_well_formed(slot)
    }

    /// The value stands for a container of this tree, and holds it.
    pub open spec fn holds(self, container: Container) -> bool {
        let inner = container.inner();
        &&& inner.slot < self.spec_len()
        &&& self.nodes@[inner.slot as int].id == inner.id
        &&& self.nodes@[inner.slot as int].kind == container.spec_kind()
        &&& self.nodes@[inner.slot as int].held > 0
    }

    /// The link was made from a container of this tree.
    pub open spec fn knows(self, weak: WeakContainer) -> bool {
        &&& weak.spec_slot() < self.spec_len()
        &&& self.nodes@[weak.spec_slot() as int].id == weak.spec_id()
        &&& self.nodes@[weak.spec_slot() as int].kind == weak.spec_kind()
    }

    /// The container is `top` or below it.
    pub open spec fn under(self, top: int, slot: int) -> bool
        decreases self.rank@[slot],
    {
        slot == top || match self.parent_of(slot) {
            Some(parent) => self.rank@[parent as int] < self.rank@[slot] && self.under(
                top,
                parent as int,
            ),
            None => false,
        }
    }

    /// The ancestors, from the parent up.
    pub open spec fn ancestors_of(self, slot: int) -> Seq<usize>
        decreases self.rank@[slot],
    {
        match self.parent_of(slot) {
            Some(parent) => if self.rank@[parent as int] < self.rank@[slot] {
                seq![parent] + self.ancestors_of(parent as int)
            } else {
                seq![]
            },
            None => seq![],
        }
    }

    /// The container or one of its ancestors is held by a value other than the
    /// one being released; `released` is the slot of that one, or negative.
    pub open spec fn kept(self, released: int, slot: int) -> bool
        decreases self.rank@[slot],
    {
        self.nodes@[slot].held > (if slot == released {
            1int
        } else {
            0int
        }) || match self.parent_of(slot) {
            Some(parent) => self.rank@[parent as int] < self.rank@[slot] && self.kept(
                released,
                parent as int,
            ),
            None => false,
        }
    }

    /// Once the value of `top` is released and `top` has no parent: the
    /// container, which is `top` or below it, lives on. Another value holds it
    /// or a container between it and `top`.
    pub open spec fn survives(self, top: int, slot: int) -> bool
        decreases self.rank@[slot],
    {
        if slot == top {
            self.nodes@[slot].held > 1
        } else {
            self.nodes@[slot].held > 0 || match self.parent_of(slot) {
                Some(parent) => self.rank@[parent as int] < self.rank@[slot] && self.survives(
                    top,
                    parent as int,
                ),
                None => false,
            }
        }
    }

    /// The tree may have come from `before`: the containers are the same ones
    /// and maybe more, and none has come back to life.
    pub open spec fn follows(self, before: ContainerTree) -> bool {
        &&& before.spec_len() <= self.spec_len()
        &&& forall|slot: int|
            0 <= slot < before.spec_len() ==> {
                let node = #[trigger] self.nodes@[slot];
                let counterpart = before.nodes@[slot];
                &&& node.id == counterpart.id
                &&& node.kind == counterpart.kind
                &&& node.alive() ==> counterpart.alive()
            }
    }

    pub fn new() -> (tree: ContainerTree)
        ensures
            tree.well_formed(),
            tree.spec_len() == 0,
    {
        ContainerTree { nodes: Vec::new(), rank: Ghost(Seq::empty()) }
    }

    /// Creates a container without parent or children, and holds it.
    pub fn create(&mut self, kind: ContainerKind, id: ContainerId) -> (container: Container)
        requires
            old(self).well_formed(),
            old(self).spec_len() < usize::MAX,
        ensures
            final(self).well_formed(),
            final(self).follows(*old(self)),
            final(self).holds(container),
            container.inner().slot == old(self).spec_len(),
            container.inner().id == id,
            container.spec_kind() == kind,
            final(self).spec_len() == old(self).spec_len() + 1,
            final(self).nodes@.last().parent is None,
            final(self).nodes@.last().held == 1,
            final(self).nodes@.last().children@ == Seq::<usize>::empty(),
            final(self).nodes@.last().focus_order@ == Seq::<usize>::empty(),
            forall|slot: int|
                0 <= slot < old(self).spec_len() ==> #[trigger] final(self).nodes@[slot]
                    == old(self).nodes@[slot],
    {
        let slot: usize = self.nodes.len();
        let ghost before = *self;
        self.nodes.push(
            Node {
                id,
                kind,
                parent: None,
                children: Vec::new(),
                focus_order: Vec::new(),
                held: 1,
            },
        );
        self.rank = Ghost(self.rank@.push(0));
        proof {
            assert forall|slot: int| 0 <= slot < self.spec_len() implies #[trigger] self.node_well_formed(
            slot) by {
                if slot < before.spec_len() {
                    assert(before.node_well_formed(slot));
                    assert(self.nodes@[slot] == before.nodes@[slot]);
                    if let Some(parent) = before.nodes@[slot].parent {
                        assert(self.nodes@[parent as int] == before.nodes@[parent as int]);
                    }
                    assert forall|k: int| 0 <= k < self.children_of(slot).len() implies (
                    #[trigger] self.nodes@[slot].children@[k]) < self.spec_len() && self.parent_of(
                        self.nodes@[slot].children@[k] as int,
                    ) == Some(slot as usize) by {
                        let child = before.nodes@[slot].children@[k];
                        assert(before.parent_of(child as int) == Some(slot as usize));
                        assert(self.nodes@[child as int] == before.nodes@[child as int]);
                    }
                }
            }
        }
        Container::of_kind(kind, slot, id)
    }

    /// Only who is held has changed, and nothing died.
    pub open spec fn same_shape(self, other: ContainerTree) -> bool {
        &&& self.rank@ == other.rank@
        &&& self.spec_len() == other.spec_len()
        &&& forall|slot: int|
            0 <= slot < self.spec_len() ==> {
                let node = #[trigger] self.nodes@[slot];
                let counterpart = other.nodes@[slot];
                &&& node.id == counterpart.id
                &&& node.kind == counterpart.kind
                &&& node.parent == counterpart.parent
                &&& node.children@ == counterpart.children@
                &&& node.focus_order@ == counterpart.focus_order@
            }
    }

    proof fn lemma_same_shape(self, other: ContainerTree)
        requires
            self.well_formed(),
            other.same_shape(self),
            forall|slot: int|
                0 <= slot < self.spec_len() && !(#[trigger] other.nodes@[slot]).alive()
                    ==> other.nodes@[slot].children@.len() == 0,
        ensures
            other.well_formed(),
    {
        assert forall|slot: int| 0 <= slot < other.spec_len() implies #[trigger] other.node_well_formed(
        slot) by {
            assert(self.node_well_formed(slot));
            let node = other.nodes@[slot];
            assert(node.children@ == self.nodes@[slot].children@);
            if let Some(parent) = node.parent {
                assert(other.nodes@[parent as int].children@
                    == self.nodes@[parent as int].children@);
            }
            assert forall|k: int| 0 <= k < node.children@.len() implies (
            #[trigger] node.children@[k]) < other.spec_len() && other.parent_of(
                node.children@[k] as int,
            ) == Some(slot as usize) by {
                let child = self.nodes@[slot].children@[k];
                assert(self.parent_of(child as int) == Some(slot as usize));
                assert(other.nodes@[child as int].parent == self.nodes@[child as int].parent);
            }
        }
    }

    /// Sets how many values hold a container.
    fn set_held(&mut self, slot: usize, held: usize)
        requires
            slot < old(self).spec_len(),
        ensures
            final(self).same_shape(*old(self)),
            final(self).nodes@[slot as int].held == held,
            forall|other: int|
                0 <= other < old(self).spec_len() && other != slot ==> (
                #[trigger] final(self).nodes@[other]).held == old(self).nodes@[other].held,
    {
        self.nodes[slot].held = held;
    }

    /// One more value that holds the container.
    pub fn share(&mut self, container: &Container) -> (copy: Container)
        requires
            old(self).well_formed(),
            old(self).holds(*container),
            old(self).nodes@[container.inner().slot as int].held < usize::MAX,
        ensures
            final(self).well_formed(),
            final(self).follows(*old(self)),
            final(self).same_shape(*old(self)),
            copy.inner() == container.inner(),
            copy.spec_kind() == container.spec_kind(),
            final(self).nodes@[container.inner().slot as int].held == old(
                self,
            ).nodes@[container.inner().slot as int].held + 1,
            forall|other: int|
                0 <= other < old(self).spec_len() && other != container.inner().slot ==> (
                #[trigger] final(self).nodes@[other]).held == old(self).nodes@[other].held,
            final(self).holds(copy),
    {
        let ghost before = *self;
        let slot: usize = container.slot();
        let held: usize = self.nodes[slot].held;
        self.set_held(slot, held + 1);
        proof {
            assert forall|other: int|
                0 <= other < before.spec_len() && !(#[trigger] self.nodes@[other]).alive() implies self.nodes@[other].children@.len()
                == 0 by {
                assert(before.node_well_formed(other));
            }
            before.lemma_same_shape(*self);
        }
        Container::of_kind(container.kind(), slot, container.id())
    }

    /// Whether the container, or one of its ancestors, is held.
    fn is_kept(&self, slot: usize) -> (kept: bool)
        requires
            self.rank@.len() == self.spec_len(),
            forall|slot: int|
                0 <= slot < self.spec_len() ==> ((#[trigger] self.nodes@[slot]).parent
                    matches Some(parent) ==> parent < self.spec_len() && self.rank@[parent as int]
                    < self.rank@[slot]),
            slot < self.spec_len(),
        ensures
            kept == self.kept(-1, slot as int),
    {
        let mut current: usize = slot;
        while self.nodes[current].held == 0
            invariant
                self.rank@.len() == self.spec_len(),
                forall|slot: int|
                    0 <= slot < self.spec_len() ==> ((#[trigger] self.nodes@[slot]).parent
                        matches Some(parent) ==> parent < self.spec_len()
                        && self.rank@[parent as int] < self.rank@[slot]),
                current < self.spec_len(),
                self.kept(-1, slot as int) == self.kept(-1, current as int),
            decreases self.rank@[current as int],
        {
            match self.nodes[current].parent {
                Some(parent) => {
                    current = parent;
                },
                None => return false,
            }
        }
        true
    }

    /// The slots that the links lead to.
    pub open spec fn slots_of(links: Seq<WeakContainer>) -> Seq<usize> {
        links.map_values(|link: WeakContainer| link.spec_slot())
    }

    /// Links to the ancestors of a container, from its parent up.
    pub fn ancestors(&self, container: &Container) -> (ancestors: Vec<WeakContainer>)
        requires
            self.well_formed(),
            self.holds(*container),
        ensures
            Self::slots_of(ancestors@) == self.ancestors_of(container.inner().slot as int),
            forall|i: int| 0 <= i < ancestors@.len() ==> self.knows(#[trigger] ancestors@[i]),
    {
        let mut ancestors: Vec<WeakContainer> = Vec::new();
        let mut current: usize = container.slot();
        let ghost all = self.ancestors_of(current as int);
        assert(Self::slots_of(ancestors@) + self.ancestors_of(current as int) =~= all);
        while self.nodes[current].parent.is_some()
            invariant
                self.well_formed(),
                current < self.spec_len(),
                Self::slots_of(ancestors@) + self.ancestors_of(current as int) == all,
                forall|i: int| 0 <= i < ancestors@.len() ==> self.knows(#[trigger] ancestors@[i]),
            ensures
                self.parent_of(current as int) is None,
                Self::slots_of(ancestors@) + self.ancestors_of(current as int) == all,
                forall|i: int| 0 <= i < ancestors@.len() ==> self.knows(#[trigger] ancestors@[i]),
            decreases self.rank@[current as int],
        {
            assert(self.node_well_formed(current as int));
            let ghost before = Self::slots_of(ancestors@);
            match self.nodes[current].parent {
                Some(parent) => {
                    ancestors.push(
                        WeakContainer::to(
                            self.nodes[parent].kind,
                            parent,
                            self.nodes[parent].id,
                        ),
                    );
                    assert(Self::slots_of(ancestors@) =~= before.push(parent));
                    assert(before + (seq![parent] + self.ancestors_of(parent as int))
                        =~= Self::slots_of(ancestors@) + self.ancestors_of(parent as int));
                    current = parent;
                },
                None => break,
            }
        }
        assert(Self::slots_of(ancestors@) =~= all);
        ancestors
    }

    /// Whether the container is `top` or below it.
    fn is_under(&self, top: usize, slot: usize) -> (under: bool)
        requires
            self.well_formed(),
            slot < self.spec_len(),
        ensures
            under == self.under(top as int, slot as int),
    {
        let mut current: usize = slot;
        while current != top
            invariant
                self.well_formed(),
                current < self.spec_len(),
                self.under(top as int, slot as int) == self.under(top as int, current as int),
            decreases self.rank@[current as int],
        {
            assert(self.node_well_formed(current as int));
            match self.nodes[current].parent {
                Some(parent) => {
                    current = parent;
                },
                None => return false,
            }
        }
        true
    }

    /// The ranks after the subtree of `child` was moved below `parent`.
    spec fn reranked(self, child: int, parent: int) -> Seq<nat> {
        Seq::new(
            self.spec_len(),
            |slot: int|
                if self.under(child, slot) {
                    self.rank@[slot] + self.rank@[parent] + 1
                } else {
                    self.rank@[slot]
                },
        )
    }

    /// What attaching changes.
    pub open spec fn attached(self, before: ContainerTree, child: int, parent: int) -> bool {
        &&& self.spec_len() == before.spec_len()
        &&& self.parent_of(child) == Some(parent as usize)
        &&& self.children_of(parent) == before.children_of(parent).push(child as usize)
        &&& self.focus_of(parent) == before.focus_of(parent).push(child as usize)
        &&& forall|slot: int|
            0 <= slot < self.spec_len() ==> {
                let node = #[trigger] self.nodes@[slot];
                let counterpart = before.nodes@[slot];
                &&& node.id == counterpart.id
                &&& node.kind == counterpart.kind
                &&& node.held == counterpart.held
                &&& slot != child ==> node.parent == counterpart.parent
                &&& slot != parent ==> node.children@ == counterpart.children@
                    && node.focus_order@ == counterpart.focus_order@
            }
    }

    proof fn lemma_attached(self, before: ContainerTree, child: int, parent: int)
        requires
            before.well_formed(),
            0 <= child < before.spec_len(),
            0 <= parent < before.spec_len(),
            before.parent_of(child) is None,
            !before.under(child, parent),
            before.nodes@[parent].alive(),
            self.attached(before, child, parent),
            self.rank@ == before.reranked(child, parent),
        ensures
            self.well_formed(),
    {
        assert(child != parent);
        assert(before.node_well_formed(child));
        assert(before.node_well_formed(parent));
        assert(!before.children_of(parent).contains(child as usize)) by {
            if before.children_of(parent).contains(child as usize) {
                let k = choose|k: int|
                    0 <= k < before.children_of(parent).len() && before.children_of(parent)[k]
                        == child as usize;
                assert(before.nodes@[parent].children@[k] == child as usize);
            }
        }
        assert forall|slot: int| 0 <= slot < self.spec_len() implies #[trigger] self.node_well_formed(
        slot) by {
            assert(before.node_well_formed(slot));
            let node = self.nodes@[slot];
            let counterpart = before.nodes@[slot];
            if let Some(above) = node.parent {
                let above_node = self.nodes@[above as int];
                if slot == child {
                    assert(above_node.children@.last() == child as usize);
                    assert(before.under(child, child));
                } else {
                    assert(counterpart.parent == Some(above));
                    assert(before.under(child, slot) == before.under(child, above as int));
                    let k = choose|k: int|
                        0 <= k < before.children_of(above as int).len() && before.children_of(
                            above as int,
                        )[k] == slot as usize;
                    assert(above_node.children@[k] == slot as usize);
                }
            }
            if slot == parent {
                assert(node.children@ == counterpart.children@.push(child as usize));
                assert forall|c: usize| #[trigger] node.focus_order@.contains(c) <==> node.children@.contains(
                    c,
                ) by {
                    lemma_push_contains(counterpart.children@, child as usize, c);
                    lemma_push_contains(counterpart.focus_order@, child as usize, c);
                    assert(counterpart.focus_order@.contains(c)
                        <==> counterpart.children@.contains(c));
                }
                assert(!counterpart.focus_order@.contains(child as usize));
            }
            assert forall|k: int| 0 <= k < node.children@.len() implies (
            #[trigger] node.children@[k]) < self.spec_len() && self.parent_of(
                node.children@[k] as int,
            ) == Some(slot as usize) by {
                if slot == parent && k == counterpart.children@.len() {
                    assert(node.children@[k] == child as usize);
                } else {
                    let c = counterpart.children@[k];
                    assert(node.children@[k] == c);
                    assert(before.parent_of(c as int) == Some(slot as usize));
                    assert(c != child);
                    assert(self.nodes@[c as int].parent == before.nodes@[c as int].parent);
                }
            }
        }
    }

    /// Attaches a container, last among its siblings and least recently
    /// focused.
    pub fn attach(&mut self, child: &Container, parent: &Container) -> (result: Result<
        (),
        TreeError,
    >)
        requires
            old(self).well_formed(),
            old(self).holds(*child),
            old(self).holds(*parent),
        ensures
            final(self).well_formed(),
            final(self).follows(*old(self)),
            ({
                let child = child.inner().slot as int;
                let parent = parent.inner().slot as int;
                &&& result == if old(self).parent_of(child) is Some {
                    Err::<(), TreeError>(TreeError::AlreadyAttached)
                } else if old(self).under(child, parent) {
                    Err(TreeError::Cycle)
                } else {
                    Ok(())
                }
                &&& result is Ok ==> final(self).attached(*old(self), child, parent)
                &&& result is Err ==> *final(self) == *old(self)
            }),
    {
        let ghost before = *self;
        let child_slot: usize = child.slot();
        let parent_slot: usize = parent.slot();
        if self.nodes[child_slot].parent.is_some() {
            return Err(TreeError::AlreadyAttached);
        }
        if self.is_under(child_slot, parent_slot) {
            return Err(TreeError::Cycle);
        }
        self.nodes[child_slot].parent = Some(parent_slot);
        self.nodes[parent_slot].children.push(child_slot);
        self.nodes[parent_slot].focus_order.push(child_slot);
        self.rank = Ghost(before.reranked(child_slot as int, parent_slot as int));
        proof {
            self.lemma_attached(before, child_slot as int, parent_slot as int);
        }
        Ok(())
    }

    /// What detaching changes.
    pub open spec fn detached(self, before: ContainerTree, child: int, parent: int) -> bool {
        &&& self.rank@ == before.rank@
        &&& self.spec_len() == before.spec_len()
        &&& self.parent_of(child) is None
        &&& self.children_of(parent) == before.children_of(parent).remove_value(child as usize)
        &&& self.focus_of(parent) == before.focus_of(parent).remove_value(child as usize)
        &&& forall|slot: int|
            0 <= slot < self.spec_len() ==> {
                let node = #[trigger] self.nodes@[slot];
                let counterpart = before.nodes@[slot];
                &&& node.id == counterpart.id
                &&& node.kind == counterpart.kind
                &&& node.held == counterpart.held
                &&& slot != child ==> node.parent == counterpart.parent
                &&& slot != parent ==> node.children@ == counterpart.children@
                    && node.focus_order@ == counterpart.focus_order@
            }
    }

    proof fn lemma_detached(self, before: ContainerTree, child: int, parent: int)
        requires
            before.well_formed(),
            0 <= child < before.spec_len(),
            before.parent_of(child) == Some(parent as usize),
            0 <= parent < before.spec_len(),
            before.nodes@[child].held > 0,
            self.detached(before, child, parent),
        ensures
            self.well_formed(),
    {
        assert(before.node_well_formed(child));
        assert(before.node_well_formed(parent));
        lemma_remove_value(before.children_of(parent), child as usize);
        lemma_remove_value(before.focus_of(parent), child as usize);
        assert forall|slot: int| 0 <= slot < self.spec_len() implies #[trigger] self.node_well_formed(
        slot) by {
            assert(before.node_well_formed(slot));
            let node = self.nodes@[slot];
            let counterpart = before.nodes@[slot];
            if let Some(above) = node.parent {
                assert(slot != child);
                assert(counterpart.parent == Some(above));
                assert(before.children_of(above as int).contains(slot as usize));
                assert(self.children_of(above as int).contains(slot as usize));
            }
            assert forall|k: int| 0 <= k < node.children@.len() implies (
            #[trigger] node.children@[k]) < self.spec_len() && self.parent_of(
                node.children@[k] as int,
            ) == Some(slot as usize) by {
                let c = node.children@[k];
                assert(node.children@.contains(c));
                assert(counterpart.children@.contains(c));
                let m = choose|m: int|
                    0 <= m < counterpart.children@.len() && counterpart.children@[m] == c;
                assert(counterpart.children@[m] < before.spec_len());
                if c == child {
                    assert(before.parent_of(child) == Some(slot as usize));
                    assert(slot == parent);
                    assert(false);
                }
                assert(self.nodes@[c as int].parent == before.nodes@[c as int].parent);
            }
            if slot == parent {
                assert forall|c: usize| #[trigger] node.focus_order@.contains(c) <==> node.children@.contains(
                    c,
                ) by {
                    assert(counterpart.focus_order@.contains(c)
                        <==> counterpart.children@.contains(c));
                }
            }
        }
    }

    /// Detaches a container from its parent.
    pub fn detach(&mut self, child: &Container) -> (result: Result<(), TreeError>)
        requires
            old(self).well_formed(),
            old(self).holds(*child),
        ensures
            final(self).well_formed(),
            final(self).follows(*old(self)),
            match old(self).parent_of(child.inner().slot as int) {
                Some(parent) => result is Ok && final(self).detached(
                    *old(self),
                    child.inner().slot as int,
                    parent as int,
                ),
                None => result == Err::<(), TreeError>(TreeError::NotAttached) && *final(self)
                    == *old(self),
            },
    {
        let ghost before = *self;
        let child_slot: usize = child.slot();
        assert(before.node_well_formed(child_slot as int));
        let parent_slot: usize = match self.nodes[child_slot].parent {
            Some(parent) => parent,
            None => return Err(TreeError::NotAttached),
        };
        self.nodes[child_slot].parent = None;
        remove_slot(&mut self.nodes[parent_slot].children, child_slot);
        remove_slot(&mut self.nodes[parent_slot].focus_order, child_slot);
        proof {
            self.lemma_detached(before, child_slot as int, parent_slot as int);
        }
        Ok(())
    }

    /// What releasing a value changes: whatever is no longer kept dies. A dead
    /// container has no children, and the children that survive it have no
    /// parent.
    pub open spec fn released(self, before: ContainerTree, released: int) -> bool {
        &&& self.rank@ == before.rank@
        &&& self.spec_len() == before.spec_len()
        &&& forall|slot: int|
            0 <= slot < self.spec_len() ==> {
                let node = #[trigger] self.nodes@[slot];
                let counterpart = before.nodes@[slot];
                &&& node.id == counterpart.id
                &&& node.kind == counterpart.kind
                &&& node.held == counterpart.held - if slot == released {
                    1int
                } else {
                    0int
                }
                &&& node.parent == match counterpart.parent {
                    Some(parent) if before.kept(released, parent as int) => Some(parent),
                    _ => None,
                }
                &&& node.children@ == if before.kept(released, slot) {
                    counterpart.children@
                } else {
                    seq![]
                }
                &&& node.focus_order@ == if before.kept(released, slot) {
                    counterpart.focus_order@
                } else {
                    seq![]
                }
            }
    }

    proof fn lemma_released(self, before: ContainerTree, released: int)
        requires
            before.well_formed(),
            0 <= released < before.spec_len(),
            before.nodes@[released].held > 0,
            self.released(before, released),
        ensures
            self.well_formed(),
            forall|slot: int|
                0 <= slot < self.spec_len() ==> (#[trigger] self.alive(slot) <==> before.kept(
                    released,
                    slot,
                )),
    {
        assert forall|slot: int| 0 <= slot < self.spec_len() implies (#[trigger] self.alive(slot)
            <==> before.kept(released, slot)) by {
            assert(before.node_well_formed(slot));
            assert(self.nodes@[slot].id == before.nodes@[slot].id);
        }
        assert forall|slot: int| 0 <= slot < self.spec_len() implies #[trigger] self.node_well_formed(
        slot) by {
            assert(before.node_well_formed(slot));
            assert(self.alive(slot) <==> before.kept(released, slot));
            let node = self.nodes@[slot];
            let counterpart = before.nodes@[slot];
            if let Some(above) = node.parent {
                assert(self.nodes@[above as int].children@
                    == before.nodes@[above as int].children@);
            }
            assert forall|k: int| 0 <= k < node.children@.len() implies (
            #[trigger] node.children@[k]) < self.spec_len() && self.parent_of(
                node.children@[k] as int,
            ) == Some(slot as usize) by {
                let c = counterpart.children@[k];
                assert(before.parent_of(c as int) == Some(slot as usize));
                assert(self.nodes@[c as int].id == before.nodes@[c as int].id);
            }
        }
    }

    /// Who is kept does not change when the release is carried out.
    proof fn lemma_kept(self, before: ContainerTree, released: int, slot: int)
        requires
            before.well_formed(),
            self.same_shape(before),
            0 <= slot < before.spec_len(),
            forall|slot: int|
                0 <= slot < before.spec_len() ==> (#[trigger] self.nodes@[slot]).held
                    == before.nodes@[slot].held - if slot == released {
                    1int
                } else {
                    0int
                },
        ensures
            self.kept(-1, slot) == before.kept(released, slot),
        decreases before.rank@[slot],
    {
        assert(before.node_well_formed(slot));
        assert(self.nodes@[slot].parent == before.nodes@[slot].parent);
        if let Some(parent) = before.nodes@[slot].parent {
            self.lemma_kept(before, released, parent as int);
        }
    }

    /// Releases a value. If nothing else keeps its container alive, the
    /// container dies together with all descendants that nothing else keeps.
    pub fn release(&mut self, container: Container)
        requires
            old(self).well_formed(),
            old(self).holds(container),
        ensures
            final(self).well_formed(),
            final(self).follows(*old(self)),
            final(self).released(*old(self), container.inner().slot as int),
            forall|slot: int|
                0 <= slot < old(self).spec_len() ==> (#[trigger] final(self).alive(slot) <==> old(
                    self,
                ).kept(container.inner().slot as int, slot)),
    {
        let ghost before = *self;
        let slot: usize = container.slot();
        let ghost released = slot as int;
        let held: usize = self.nodes[slot].held;
        self.set_held(slot, held - 1);
        let ghost dropped = *self;
        proof {
            assert forall|other: int| 0 <= other < before.spec_len() implies (
            #[trigger] dropped.nodes@[other]).parent matches Some(parent) ==> parent
                < dropped.spec_len() && dropped.rank@[parent as int] < dropped.rank@[other] by {
                assert(before.node_well_formed(other));
            }
            assert forall|other: int| 0 <= other < before.spec_len() implies #[trigger] dropped.kept(
                -1,
                other,
            ) == before.kept(released, other) by {
                dropped.lemma_kept(before, released, other);
            }
        }
        let count: usize = self.nodes.len();
        let mut keep: Vec<bool> = Vec::new();
        while keep.len() < count
            invariant
                *self == dropped,
                count == self.spec_len(),
                self.spec_len() == before.spec_len(),
                self.rank@.len() == self.spec_len(),
                keep@.len() <= count,
                forall|other: int|
                    0 <= other < before.spec_len() ==> ((#[trigger] dropped.nodes@[other]).parent
                        matches Some(parent) ==> parent < dropped.spec_len()
                        && dropped.rank@[parent as int] < dropped.rank@[other]),
                forall|other: int|
                    0 <= other < before.spec_len() ==> #[trigger] dropped.kept(-1, other)
                        == before.kept(released, other),
                forall|other: int|
                    0 <= other < keep@.len() ==> #[trigger] keep@[other] == before.kept(
                        released,
                        other,
                    ),
            decreases count - keep.len(),
        {
            let next: usize = keep.len();
            let kept = self.is_kept(next);
            assert(dropped.kept(-1, next as int) == before.kept(released, next as int));
            keep.push(kept);
        }
        let mut i: usize = 0;
        while i < count
            invariant
                i <= count,
                count == before.spec_len(),
                keep@.len() == count,
                before.well_formed(),
                dropped.same_shape(before),
                self.rank@ == before.rank@,
                self.spec_len() == count,
                forall|other: int|
                    0 <= other < count ==> (#[trigger] dropped.nodes@[other]).held
                        == before.nodes@[other].held - if other == released {
                        1int
                    } else {
                        0int
                    },
                forall|other: int|
                    0 <= other < count ==> #[trigger] keep@[other] == before.kept(released, other),
                forall|other: int|
                    i <= other < count ==> #[trigger] self.nodes@[other] == dropped.nodes@[other],
                forall|other: int|
                    0 <= other < i ==> {
                        let node = #[trigger] self.nodes@[other];
                        let counterpart = before.nodes@[other];
                        &&& node.id == counterpart.id
                        &&& node.kind == counterpart.kind
                        &&& node.held == counterpart.held - if other == released {
                            1int
                        } else {
                            0int
                        }
                        &&& node.parent == match counterpart.parent {
                            Some(parent) if before.kept(released, parent as int) => Some(parent),
                            _ => None,
                        }
                        &&& node.children@ == if before.kept(released, other) {
                            counterpart.children@
                        } else {
                            seq![]
                        }
                        &&& node.focus_order@ == if before.kept(released, other) {
                            counterpart.focus_order@
                        } else {
                            seq![]
                        }
                    },
            decreases count - i,
        {
            assert(before.node_well_formed(i as int));
            assert(self.nodes@[i as int] == dropped.nodes@[i as int]);
            assert(dropped.nodes@[i as int].parent == before.nodes@[i as int].parent);
            if let Some(parent) = self.nodes[i].parent {
                assert(keep@[parent as int] == before.kept(released, parent as int));
                if !keep[parent] {
                    self.nodes[i].parent = None;
                }
            }
            if !keep[i] {
                self.nodes[i].children.clear();
                self.nodes[i].focus_order.clear();
            }
            i += 1;
        }
        proof {
            self.lemma_released(before, released);
        }
    }

    /// How many children the container has.
    pub fn child_count(&self, container: &Container) -> (count: usize)
        requires
            self.holds(*container),
        ensures
            count == self.children_of(container.inner().slot as int).len(),
    {
        self.nodes[container.slot()].children.len()
    }

    /// Whether the container has no parent.
    pub fn is_detached(&self, container: &Container) -> (detached: bool)
        requires
            self.holds(*container),
        ensures
            detached == self.parent_of(container.inner().slot as int) is None,
    {
        self.nodes[container.slot()].parent.is_none()
    }

    /// The ids of the containers in the slots.
    pub open spec fn ids_of(self, slots: Seq<usize>) -> Seq<ContainerId> {
        slots.map_values(|slot: usize| self.nodes@[slot as int].id)
    }

    /// The ids of the children, from the most recently focused one on.
    pub fn child_focus_order(&self, container: &Container) -> (ids: Vec<ContainerId>)
        requires
            self.well_formed(),
            self.holds(*container),
        ensures
            ids@ == self.ids_of(self.focus_of(container.inner().slot as int)),
    {
        let slot: usize = container.slot();
        let mut ids: Vec<ContainerId> = Vec::new();
        let mut i: usize = 0;
        proof {
            self.lemma_focus_order_in_range(slot as int);
        }
        while i < self.nodes[slot].focus_order.len()
            invariant
                slot < self.spec_len(),
                i <= self.focus_of(slot as int).len(),
                forall|k: int|
                    0 <= k < self.focus_of(slot as int).len() ==> #[trigger] self.focus_of(
                        slot as int,
                    )[k] < self.spec_len(),
                ids@ =~= self.ids_of(self.focus_of(slot as int).take(i as int)),
            decreases self.focus_of(slot as int).len() - i,
        {
            let child: usize = self.nodes[slot].focus_order[i];
            assert(self.focus_of(slot as int)[i as int] == child);
            ids.push(self.nodes[child].id);
            i += 1;
        }
        assert(self.focus_of(slot as int).take(i as int) =~= self.focus_of(slot as int));
        ids
    }

    proof fn lemma_focus_order_in_range(self, slot: int)
        requires
            self.well_formed(),
            0 <= slot < self.spec_len(),
        ensures
            forall|k: int|
                0 <= k < self.focus_of(slot).len() ==> #[trigger] self.focus_of(slot)[k]
                    < self.spec_len(),
    {
        assert(self.node_well_formed(slot));
        assert forall|k: int| 0 <= k < self.focus_of(slot).len() implies #[trigger] self.focus_of(
            slot,
        )[k] < self.spec_len() by {
            let child = self.focus_of(slot)[k];
            assert(self.nodes@[slot].focus_order@.contains(child));
            assert(self.nodes@[slot].children@.contains(child));
            let m = choose|m: int|
                0 <= m < self.children_of(slot).len() && self.children_of(slot)[m] == child;
            assert(self.nodes@[slot].children@[m] == child);
        }
    }

    /// The container takes part in tiling.
    pub open spec fn tiles(self, slot: usize) -> bool {
        self.nodes@[slot as int].kind is Split || self.nodes@[slot as int].kind is TilingWindow
    }

    /// The ids of the children that take part in tiling.
    pub open spec fn tiling_ids(self, slots: Seq<usize>) -> Seq<ContainerId> {
        self.ids_of(slots.filter(|slot: usize| self.tiles(slot)))
    }

    pub fn tiling_children(&self, container: &Container) -> (ids: Vec<ContainerId>)
        requires
            self.well_formed(),
            self.holds(*container),
        ensures
            ids@ == self.tiling_ids(self.children_of(container.inner().slot as int)),
    {
        let slot: usize = container.slot();
        let ghost children = self.children_of(slot as int);
        let mut ids: Vec<ContainerId> = Vec::new();
        let mut i: usize = 0;
        assert(self.node_well_formed(slot as int));
        assert(self.tiling_ids(children.take(0)) =~= seq![]) by {
            reveal(Seq::filter);
        }
        while i < self.nodes[slot].children.len()
            invariant
                self.well_formed(),
                slot < self.spec_len(),
                children == self.children_of(slot as int),
                i <= children.len(),
                forall|k: int|
                    0 <= k < children.len() ==> (#[trigger] children[k]) < self.spec_len(),
                ids@ =~= self.tiling_ids(children.take(i as int)),
            decreases children.len() - i,
        {
            proof {
                reveal(Seq::filter);
                assert(children.take(i + 1).drop_last() =~= children.take(i as int));
            }
            let child: usize = self.nodes[slot].children[i];
            assert(children[i as int] == child);
            let tiles = match self.nodes[child].kind {
                ContainerKind::Split | ContainerKind::TilingWindow => true,
                _ => false,
            };
            if tiles {
                ids.push(self.nodes[child].id);
            }
            i += 1;
        }
        assert(children.take(i as int) =~= children);
        ids
    }
}

impl WeakContainer {
    /// The container of the link, held once more, as long as it is alive.
    pub fn upgrade(&self, tree: &mut ContainerTree) -> (container: Option<Container>)
        requires
            old(tree).well_formed(),
            old(tree).knows(*self),
            old(tree).nodes@[self.spec_slot() as int].held < usize::MAX,
        ensures
            final(tree).well_formed(),
            final(tree).follows(*old(tree)),
            final(tree).same_shape(*old(tree)),
            container is Some <==> old(tree).alive(self.spec_slot() as int),
            container is None ==> *final(tree) == *old(tree),
            container matches Some(container) ==> {
                &&& container.inner().slot == self.spec_slot()
                &&& container.inner().id == self.spec_id()
                &&& container.spec_kind() == self.spec_kind()
                &&& final(tree).holds(container)
                &&& final(tree).nodes@[self.spec_slot() as int].held == old(
                    tree,
                ).nodes@[self.spec_slot() as int].held + 1
            },
            forall|other: int|
                0 <= other < old(tree).spec_len() && other != self.spec_slot() ==> (
                #[trigger] final(tree).nodes@[other]).held == old(tree).nodes@[other].held,
    {
        let ghost before = *tree;
        let slot: usize = self.slot();
        let held: usize = tree.nodes[slot].held;
        if held == 0 && tree.nodes[slot].parent.is_none() {
            return None;
        }
        tree.set_held(slot, held + 1);
        proof {
            assert forall|other: int|
                0 <= other < before.spec_len() && !(#[trigger] tree.nodes@[other]).alive() implies tree.nodes@[other].children@.len()
                == 0 by {
                assert(before.node_well_formed(other));
            }
            before.lemma_same_shape(*tree);
        }
        Some(Container::of_kind(self.kind(), slot, self.id()))
    }
}

/// A container is alive exactly if it or one of its ancestors is held.
pub proof fn law_only_held_trees_are_alive(tree: ContainerTree, slot: int)
    requires
        tree.well_formed(),
        0 <= slot < tree.spec_len(),
    ensures
        tree.alive(slot) <==> tree.kept(-1, slot),
    decreases tree.rank@[slot],
{
    assert(tree.node_well_formed(slot));
    if let Some(parent) = tree.parent_of(slot) {
        law_only_held_trees_are_alive(tree, parent as int);
        assert(tree.node_well_formed(parent as int));
        assert(tree.children_of(parent as int).len() > 0);
    }
}

/// A container that died stays dead, whatever happens to the tree: its link
/// leads nowhere for ever. As long as a container is held, its link leads to it.
pub proof fn law_the_dead_stay_dead(
    history: Seq<ContainerTree>,
    link: WeakContainer,
    earlier: int,
    later: int,
)
    requires
        forall|i: int| 0 < i < history.len() ==> (#[trigger] history[i]).follows(history[i - 1]),
        0 <= earlier <= later < history.len(),
        history[earlier].knows(link),
    ensures
        history[later].knows(link),
        history[later].nodes@[link.spec_slot() as int].held > 0 ==> history[later].alive(
            link.spec_slot() as int,
        ),
        !history[earlier].alive(link.spec_slot() as int) ==> !history[later].alive(
            link.spec_slot() as int,
        ),
    decreases later - earlier,
{
    if earlier < later {
        law_the_dead_stay_dead(history, link, earlier, later - 1);
        let slot = link.spec_slot() as int;
        assert(history[later].follows(history[later - 1]));
        assert(history[later].nodes@[slot].id == history[later - 1].nodes@[slot].id);
    }
}

/// Nothing leaks: once no value holds any container, none is alive.
pub proof fn law_nothing_leaks(tree: ContainerTree, slot: int)
    requires
        tree.well_formed(),
        0 <= slot < tree.spec_len(),
        forall|other: int|
            0 <= other < tree.spec_len() ==> (#[trigger] tree.nodes@[other]).held == 0,
    ensures
        !tree.alive(slot),
    decreases tree.rank@[slot],
{
    assert(tree.node_well_formed(slot));
    if let Some(parent) = tree.parent_of(slot) {
        law_nothing_leaks(tree, parent as int);
        assert(tree.node_well_formed(parent as int));
        assert(tree.children_of(parent as int).len() > 0);
    }
}

/// No container is its own ancestor, so walking up from it comes to an end.
pub proof fn law_no_container_is_its_own_ancestor(tree: ContainerTree, slot: int)
    requires
        tree.well_formed(),
        0 <= slot < tree.spec_len(),
        tree.parent_of(slot) is Some,
    ensures
        !tree.under(slot, tree.parent_of(slot)->0 as int),
{
    assert(tree.node_well_formed(slot));
    let parent = tree.parent_of(slot)->0 as int;
    if tree.under(slot, parent) {
        lemma_under_ranks(tree, slot, parent);
    }
}

/// Whatever is below a container has at least its rank.
proof fn lemma_under_ranks(tree: ContainerTree, top: int, slot: int)
    requires
        tree.well_formed(),
        0 <= slot < tree.spec_len(),
        tree.under(top, slot),
    ensures
        tree.rank@[top] <= tree.rank@[slot],
    decreases tree.rank@[slot],
{
    assert(tree.node_well_formed(slot));
    if slot != top {
        lemma_under_ranks(tree, top, tree.parent_of(slot)->0 as int);
    }
}

/// A surviving child does not keep its parent alive: a parent that only its
/// child is left of dies with its last value, and the child is detached.
pub proof fn law_children_do_not_keep_parents(
    before: ContainerTree,
    after: ContainerTree,
    parent: int,
    child: int,
)
    requires
        before.well_formed(),
        0 <= parent < before.spec_len(),
        0 <= child < before.spec_len(),
        before.parent_of(child) == Some(parent as usize),
        before.parent_of(parent) is None,
        before.nodes@[parent].held == 1,
        before.nodes@[child].held > 0,
        after.released(before, parent),
    ensures
        !after.alive(parent),
        after.alive(child),
        after.parent_of(child) is None,
        after.ancestors_of(child) == Seq::<usize>::empty(),
{
    assert(before.node_well_formed(child));
    assert(after.nodes@[parent].id == before.nodes@[parent].id);
    assert(after.nodes@[child].id == before.nodes@[child].id);
}

/// Removes a slot from a list that holds it at most once.
fn remove_slot(list: &mut Vec<usize>, slot: usize)
    ensures
        final(list)@ == old(list)@.remove_value(slot),
{
    let ghost before = list@;
    let mut i: usize = 0;
    while i < list.len()
        invariant
            before == old(list)@,
            list@ == before,
            i <= list.len(),
            forall|k: int| 0 <= k < i ==> list@[k] != slot,
        decreases list.len() - i,
    {
        if list[i] == slot {
            proof {
                before.index_of_first_ensures(slot);
                assert(before.contains(slot));
                assert(before.index_of_first(slot) == Some(i as int));
            }
            list.remove(i);
            return;
        }
        i += 1;
    }
    proof {
        before.index_of_first_ensures(slot);
    }
}

/// What a sequence without repetitions holds after a removal.
proof fn lemma_remove_value(list: Seq<usize>, removed: usize)
    requires
        list.no_duplicates(),
    ensures
        list.remove_value(removed).no_duplicates(),
        forall|slot: usize| #[trigger]
            list.remove_value(removed).contains(slot) <==> list.contains(slot) && slot != removed,
{
    list.index_of_first_ensures(removed);
    let rest = list.remove_value(removed);
    if list.contains(removed) {
        let i = list.index_of_first(removed)->0;
        assert(rest == list.remove(i));
        assert forall|slot: usize| #[trigger] rest.contains(slot) <==> list.contains(slot) && slot
            != removed by {
            if rest.contains(slot) {
                let k = choose|k: int| 0 <= k < rest.len() && rest[k] == slot;
                if k < i {
                    assert(list[k] == slot);
                } else {
                    assert(list[k + 1] == slot);
                }
            }
            if list.contains(slot) && slot != removed {
                let k = choose|k: int| 0 <= k < list.len() && list[k] == slot;
                if k < i {
                    assert(rest[k] == slot);
                } else {
                    assert(rest[k - 1] == slot);
                }
            }
        }
    }
}

/// What a sequence holds after a push.
proof fn lemma_push_contains(list: Seq<usize>, added: usize, slot: usize)
    ensures
        list.push(added).contains(slot) <==> list.contains(slot) || slot == added,
{
    if list.contains(slot) {
        let k = choose|k: int| 0 <= k < list.len() && list[k] == slot;
        assert(list.push(added)[k] == slot);
    }
    if slot == added {
        assert(list.push(added)[list.len() as int] == slot);
    }
}

/// Every container is the same in both trees.
pub open spec fn same_containers(after: ContainerTree, before: ContainerTree) -> bool {
    &&& after.nodes@.len() == before.nodes@.len()
    &&& forall|slot: int|
        0 <= slot < after.nodes@.len() ==> {
            let node = #[trigger] after.nodes@[slot];
            let counterpart = before.nodes@[slot];
            &&& node.id == counterpart.id
            &&& node.kind == counterpart.kind
            &&& node.parent == counterpart.parent
            &&& node.children@ == counterpart.children@
            &&& node.focus_order@ == counterpart.focus_order@
            &&& node.held == counterpart.held
        }
}

/// An attached container is its parent's last child, and the least recently
/// focused one; the siblings keep their places.
pub proof fn law_attached_containers_come_last(
    before: ContainerTree,
    after: ContainerTree,
    child: int,
    parent: int,
    i: int,
)
    requires
        before.well_formed(),
        0 <= child < before.spec_len(),
        0 <= parent < before.spec_len(),
        after.attached(before, child, parent),
        0 <= i < before.nodes@[parent].children@.len(),
    ensures
        after.nodes@[child].parent == Some(parent as usize),
        after.nodes@[parent].children@.len() == before.nodes@[parent].children@.len() + 1,
        after.nodes@[parent].children@.last() == child,
        after.nodes@[parent].children@[i] == before.nodes@[parent].children@[i],
        after.nodes@[parent].focus_order@.last() == child,
        before.nodes@[parent].focus_order@.is_prefix_of(after.nodes@[parent].focus_order@),
{
}

/// Detaching undoes attaching: afterwards every container is as it was before.
pub proof fn law_detaching_undoes_attaching(
    before: ContainerTree,
    attached: ContainerTree,
    after: ContainerTree,
    child: int,
    parent: int,
)
    requires
        before.well_formed(),
        0 <= child < before.spec_len(),
        0 <= parent < before.spec_len(),
        before.parent_of(child) is None,
        attached.attached(before, child, parent),
        after.detached(attached, child, parent),
    ensures
        same_containers(after, before),
{
    let children = before.children_of(parent);
    let focus = before.focus_of(parent);
    assert(before.node_well_formed(parent));
    assert(!children.contains(child as usize)) by {
        if children.contains(child as usize) {
            let k = choose|k: int| 0 <= k < children.len() && children[k] == child as usize;
            assert(before.nodes@[parent].children@[k] == child as usize);
        }
    }
    assert(!before.nodes@[parent].focus_order@.contains(child as usize));
    lemma_remove_last(children, child as usize);
    lemma_remove_last(focus, child as usize);
    assert forall|slot: int| 0 <= slot < after.nodes@.len() implies {
        let node = #[trigger] after.nodes@[slot];
        let counterpart = before.nodes@[slot];
        &&& node.id == counterpart.id
        &&& node.kind == counterpart.kind
        &&& node.parent == counterpart.parent
        &&& node.children@ == counterpart.children@
        &&& node.focus_order@ == counterpart.focus_order@
        &&& node.held == counterpart.held
    } by {
        assert(attached.nodes@[slot].id == before.nodes@[slot].id);
    }
}

/// Removing what was just pushed gives back the list.
proof fn lemma_remove_last(list: Seq<usize>, last: usize)
    requires
        !list.contains(last),
    ensures
        list.push(last).remove_value(last) == list,
{
    let pushed = list.push(last);
    pushed.index_of_first_ensures(last);
    assert(pushed[list.len() as int] == last);
    assert(pushed.contains(last));
    let i = pushed.index_of_first(last)->0;
    if i < list.len() {
        assert(list[i] == last);
    }
    assert(pushed.remove(i) =~= list);
}

/// A detached container leaves its siblings in their order.
pub proof fn law_siblings_keep_their_order(
    before: ContainerTree,
    after: ContainerTree,
    child: int,
    parent: int,
    place: int,
    i: int,
)
    requires
        before.well_formed(),
        0 <= child < before.spec_len(),
        0 <= parent < before.spec_len(),
        after.detached(before, child, parent),
        0 <= place < before.nodes@[parent].children@.len(),
        before.nodes@[parent].children@[place] == child,
        0 <= i < before.nodes@[parent].children@.len() - 1,
    ensures
        after.nodes@[child].parent is None,
        after.nodes@[parent].children@.len() == before.nodes@[parent].children@.len() - 1,
        after.nodes@[parent].children@[i] == if i < place {
            before.nodes@[parent].children@[i]
        } else {
            before.nodes@[parent].children@[i + 1]
        },
        !after.nodes@[parent].focus_order@.contains(child as usize),
{
    assert(before.node_well_formed(parent));
    let children = before.children_of(parent);
    children.index_of_first_ensures(child as usize);
    assert(children.contains(child as usize));
    lemma_remove_value(before.focus_of(parent), child as usize);
}

/// A tree is kept as it is when a value is released that was only held in
/// addition: releasing undoes sharing.
pub proof fn law_releasing_undoes_sharing(
    before: ContainerTree,
    shared: ContainerTree,
    after: ContainerTree,
    slot: int,
)
    requires
        before.well_formed(),
        shared.well_formed(),
        0 <= slot < before.spec_len(),
        before.nodes@[slot].held > 0,
        shared.same_shape(before),
        shared.nodes@[slot].held == before.nodes@[slot].held + 1,
        forall|other: int|
            0 <= other < before.spec_len() && other != slot ==> (
            #[trigger] shared.nodes@[other]).held == before.nodes@[other].held,
        after.released(shared, slot),
    ensures
        same_containers(after, before),
{
    assert forall|other: int| 0 <= other < after.nodes@.len() implies {
        let node = #[trigger] after.nodes@[other];
        let counterpart = before.nodes@[other];
        &&& node.id == counterpart.id
        &&& node.kind == counterpart.kind
        &&& node.parent == counterpart.parent
        &&& node.children@ == counterpart.children@
        &&& node.focus_order@ == counterpart.focus_order@
        &&& node.held == counterpart.held
    } by {
        assert(before.node_well_formed(other));
        assert(shared.node_well_formed(other));
        assert(shared.nodes@[other].id == before.nodes@[other].id);
        lemma_shared_kept(before, shared, slot, other);
        if let Some(parent) = before.parent_of(other) {
            assert(before.node_well_formed(parent as int));
            assert(before.children_of(parent as int).len() > 0);
            lemma_shared_kept(before, shared, slot, parent as int);
        }
        if !before.alive(other) {
            assert(before.nodes@[other].children@.len() == 0);
            if before.nodes@[other].focus_order@.len() > 0 {
                assert(before.nodes@[other].focus_order@.contains(
                    before.nodes@[other].focus_order@[0],
                ));
            }
            assert(before.nodes@[other].focus_order@ =~= seq![]);
            assert(before.nodes@[other].children@ =~= seq![]);
        }
    }
}

proof fn lemma_shared_kept(before: ContainerTree, shared: ContainerTree, slot: int, other: int)
    requires
        before.well_formed(),
        0 <= slot < before.spec_len(),
        0 <= other < before.spec_len(),
        before.nodes@[slot].held > 0,
        shared.same_shape(before),
        shared.nodes@[slot].held == before.nodes@[slot].held + 1,
        forall|other: int|
            0 <= other < before.spec_len() && other != slot ==> (
            #[trigger] shared.nodes@[other]).held == before.nodes@[other].held,
    ensures
        shared.kept(slot, other) == before.alive(other),
    decreases before.rank@[other],
{
    assert(before.node_well_formed(other));
    assert(shared.nodes@[other].id == before.nodes@[other].id);
    if let Some(parent) = before.parent_of(other) {
        lemma_shared_kept(before, shared, slot, parent as int);
        assert(before.node_well_formed(parent as int));
        assert(before.children_of(parent as int).len() > 0);
    }
}

/// The ancestors of a container are exactly those that it is below, the parent
/// first.
pub proof fn law_ancestors_are_what_a_container_is_below(
    tree: ContainerTree,
    slot: int,
    top: usize,
)
    requires
        tree.well_formed(),
        0 <= slot < tree.spec_len(),
    ensures
        tree.under(top as int, slot) <==> slot == top || tree.ancestors_of(slot).contains(top),
        tree.nodes@[slot].parent is None ==> tree.ancestors_of(slot).len() == 0,
        tree.nodes@[slot].parent is Some ==> tree.ancestors_of(slot).len() > 0
            && tree.nodes@[slot].parent == Some(tree.ancestors_of(slot)[0]),
    decreases tree.rank@[slot],
{
    assert(tree.node_well_formed(slot));
    if let Some(parent) = tree.parent_of(slot) {
        law_ancestors_are_what_a_container_is_below(tree, parent as int, top);
        let above = tree.ancestors_of(parent as int);
        let all = tree.ancestors_of(slot);
        assert(all =~= seq![parent] + above);
        if above.contains(top) {
            let k = choose|k: int| 0 <= k < above.len() && above[k] == top;
            assert(all[k + 1] == top);
        }
        if all.contains(top) {
            let k = choose|k: int| 0 <= k < all.len() && all[k] == top;
            if k > 0 {
                assert(above[k - 1] == top);
            }
        }
        assert(all[0] == parent);
    }
}

/// Every ancestor is the parent of the one before it.
pub proof fn law_ancestors_go_up_one_by_one(tree: ContainerTree, slot: int, i: int)
    requires
        tree.well_formed(),
        0 <= slot < tree.spec_len(),
        0 <= i < tree.ancestors_of(slot).len(),
    ensures
        tree.ancestors_of(slot)[i] < tree.nodes@.len(),
        i + 1 < tree.ancestors_of(slot).len() ==> tree.nodes@[tree.ancestors_of(
            slot,
        )[i] as int].parent == Some(tree.ancestors_of(slot)[i + 1]),
        i + 1 == tree.ancestors_of(slot).len() ==> tree.nodes@[tree.ancestors_of(
            slot,
        )[i] as int].parent is None,
    decreases tree.rank@[slot],
{
    assert(tree.node_well_formed(slot));
    let parent = tree.parent_of(slot)->0;
    let above = tree.ancestors_of(parent as int);
    assert(tree.ancestors_of(slot) =~= seq![parent] + above);
    assert(tree.node_well_formed(parent as int));
    if i > 0 {
        law_ancestors_go_up_one_by_one(tree, parent as int, i - 1);
    }
}

/// The tiling children are exactly the split containers and tiling windows among
/// the children, in order.
pub proof fn law_splits_and_tiling_windows_tile(tree: ContainerTree, slots: Seq<usize>) -> (places:
    Seq<int>)
    ensures
        crate::selection::selects(
            places,
            slots.len() as int,
            |i: int|
                {
                    let kind = tree.nodes@[slots[i] as int].kind;
                    !(kind is Root || kind is Monitor || kind is Workspace || kind
                        is NonTilingWindow)
                },
        ),
        tree.tiling_ids(slots).len() == places.len(),
        forall|k: int|
            0 <= k < places.len() ==> #[trigger] tree.tiling_ids(slots)[k]
                == tree.nodes@[slots[places[k]] as int].id,
{
    let tiles = |slot: usize| tree.tiles(slot);
    let places = crate::selection::lemma_filter_map(
        slots,
        tiles,
        |slot: usize| tree.nodes@[slot as int].id,
    );
    crate::selection::lemma_selects_alike(
        places,
        slots.len() as int,
        |i: int| tiles(slots[i]),
        |i: int|
            {
                let kind = tree.nodes@[slots[i] as int].kind;
                !(kind is Root || kind is Monitor || kind is Workspace || kind is NonTilingWindow)
            },
    );
    places
}

/// A container is alive exactly if it is held or has a parent. The containers
/// keep their identity and their kind, and none comes back to life.
pub proof fn law_containers_keep_their_identity(
    before: ContainerTree,
    after: ContainerTree,
    slot: int,
)
    requires
        after.follows(before),
        0 <= slot < before.nodes@.len(),
    ensures
        before.alive(slot) <==> before.nodes@[slot].held > 0 || before.nodes@[slot].parent is Some,
        slot < after.nodes@.len(),
        after.nodes@[slot].id == before.nodes@[slot].id,
        after.nodes@[slot].kind == before.nodes@[slot].kind,
        before.nodes@[slot].held == 0 && before.nodes@[slot].parent is None
            ==> after.nodes@[slot].held == 0 && after.nodes@[slot].parent is None,
{
    assert(after.nodes@[slot].id == before.nodes@[slot].id);
}

/// What dies with a released value is what no other value holds, directly or
/// through an ancestor; everything else stays as it is.
pub proof fn law_only_what_nobody_keeps_dies(
    before: ContainerTree,
    after: ContainerTree,
    released: int,
    slot: int,
)
    requires
        before.well_formed(),
        0 <= released < before.spec_len(),
        before.nodes@[released].held > 0,
        after.released(before, released),
        0 <= slot < before.spec_len(),
    ensures
        after.nodes@[slot].held == before.nodes@[slot].held - (if slot == released {
            1int
        } else {
            0
        }),
        after.nodes@[slot].held > 0 ==> after.nodes@[slot].children@ == before.nodes@[slot].children@
            && after.nodes@[slot].focus_order@ == before.nodes@[slot].focus_order@,
        after.nodes@[slot].parent is Some ==> after.nodes@[slot].parent
            == before.nodes@[slot].parent,
        before.nodes@[slot].parent matches Some(parent) ==> (after.nodes@[slot].parent is None
            <==> after.nodes@[parent as int].held == 0 && after.nodes@[parent as int].parent
            is None),
{
    assert(before.node_well_formed(slot));
    assert(after.nodes@[slot].id == before.nodes@[slot].id);
    after.lemma_released(before, released);
    if let Some(parent) = before.parent_of(slot) {
        assert(before.node_well_formed(parent as int));
        assert(after.nodes@[parent as int].id == before.nodes@[parent as int].id);
        assert(after.alive(parent as int) <==> before.kept(released, parent as int));
    }
}

} // verus!
