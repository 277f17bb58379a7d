//! The tree of containers.
//!
//! A container lives as long as someone holds it or a living parent has it
//! among its children. Children never keep their ancestors alive: once a parent
//! is gone its surviving children are detached.
use vstd::prelude::*;

use crate::model::ContainerId;

verus! {

#[derive(Clone, Copy, Debug, PartialEq, Eq, Structural)]
pub enum ContainerKind {
    Root,
    Monitor,
    Workspace,
    Split,
    TilingWindow,
    NonTilingWindow,
}

/// A container's place in the tree and its identity.
#[derive(Debug)]
pub struct ContainerRef {
    pub slot: usize,
    pub id: ContainerId,
}

/// A container of any type. Every value of it holds its container until it is
/// released.
#[derive(Debug)]
pub enum Container {
    Root(ContainerRef),
    Monitor(ContainerRef),
    Workspace(ContainerRef),
    Split(ContainerRef),
    TilingWindow(ContainerRef),
    NonTilingWindow(ContainerRef),
}

/// Subset of containers that take part in tiling.
#[derive(Debug)]
pub enum TilingContainer {
    Split(ContainerRef),
    TilingWindow(ContainerRef),
}

/// Subset of containers that are windows.
#[derive(Debug)]
pub enum WindowContainer {
    TilingWindow(ContainerRef),
    NonTilingWindow(ContainerRef),
}

/// Subset of containers that have a tiling direction.
#[derive(Debug)]
pub enum DirectionContainer {
    Workspace(ContainerRef),
    Split(ContainerRef),
}

/// Non-owning parent link. Children own their descendants, never ancestors.
#[derive(Clone, Copy, Debug, PartialEq, Eq, Structural)]
pub struct WeakContainer {
    kind: ContainerKind,
    slot: usize,
    id: ContainerId,
}

impl Container {
    pub open spec fn inner(self) -> ContainerRef {
        match self {
            Container::Root(inner) => inner,
            Container::Monitor(inner) => inner,
            Container::Workspace(inner) => inner,
            Container::Split(inner) => inner,
            Container::TilingWindow(inner) => inner,
            Container::NonTilingWindow(inner) => inner,
        }
    }

    pub open spec fn spec_kind(self) -> ContainerKind {
        match self {
            Container::Root(_) => ContainerKind::Root,
            Container::Monitor(_) => ContainerKind::Monitor,
            Container::Workspace(_) => ContainerKind::Workspace,
            Container::Split(_) => ContainerKind::Split,
            Container::TilingWindow(_) => ContainerKind::TilingWindow,
            Container::NonTilingWindow(_) => ContainerKind::NonTilingWindow,
        }
    }

    pub(crate) fn of_kind(kind: ContainerKind, slot: usize, id: ContainerId) -> (container:
        Container)
        ensures
            container.spec_kind() == kind,
            container.inner() == (ContainerRef { slot, id }),
    {
        let inner = ContainerRef { slot, id };
        match kind {
            ContainerKind::Root => Container::Root(inner),
            ContainerKind::Monitor => Container::Monitor(inner),
            ContainerKind::Workspace => Container::Workspace(inner),
            ContainerKind::Split => Container::Split(inner),
            ContainerKind::TilingWindow => Container::TilingWindow(inner),
            ContainerKind::NonTilingWindow => Container::NonTilingWindow(inner),
        }
    }

    fn as_inner(&self) -> (inner: &ContainerRef)
        ensures
            *inner == self.inner(),
    {
        match self {
            Container::Root(inner) => inner,
            Container::Monitor(inner) => inner,
            Container::Workspace(inner) => inner,
            Container::Split(inner) => inner,
            Container::TilingWindow(inner) => inner,
            Container::NonTilingWindow(inner) => inner,
        }
    }

    pub fn id(&self) -> (id: ContainerId)
        ensures
            id == self.inner().id,
    {
        self.as_inner().id
    }

    pub fn slot(&self) -> (slot: usize)
        ensures
            slot == self.inner().slot,
    {
        self.as_inner().slot
    }

    pub fn kind(&self) -> (kind: ContainerKind)
        ensures
            kind == self.spec_kind(),
    {
        match self {
            Container::Root(_) => ContainerKind::Root,
            Container::Monitor(_) => ContainerKind::Monitor,
            Container::Workspace(_) => ContainerKind::Workspace,
            Container::Split(_) => ContainerKind::Split,
            Container::TilingWindow(_) => ContainerKind::TilingWindow,
            Container::NonTilingWindow(_) => ContainerKind::NonTilingWindow,
        }
    }

    /// A link that does not hold the container.
    pub fn downgrade(&self) -> (weak: WeakContainer)
        ensures
            weak.spec_slot() == self.inner().slot,
            weak.spec_id() == self.inner().id,
            weak.spec_kind() == self.spec_kind(),
    {
        WeakContainer { kind: self.kind(), slot: self.slot(), id: self.id() }
    }

    /// The container as a window; any other container is handed back.
    pub fn as_window_container(self) -> (window: Result<WindowContainer, Container>)
        ensures
            match window {
                Ok(window) => window.container() == self,
                Err(other) => other == self,
            },
            window is Ok <==> self is TilingWindow || self is NonTilingWindow,
    {
        match self {
            Container::TilingWindow(inner) => Ok(WindowContainer::TilingWindow(inner)),
            Container::NonTilingWindow(inner) => Ok(WindowContainer::NonTilingWindow(inner)),
            other => Err(other),
        }
    }

    /// The container as one that takes part in tiling; any other is handed
    /// back.
    pub fn as_tiling_container(self) -> (tiling: Result<TilingContainer, Container>)
        ensures
            match tiling {
                Ok(tiling) => tiling.container() == self,
                Err(other) => other == self,
            },
            tiling is Ok <==> self is Split || self is TilingWindow,
    {
        match self {
            Container::Split(inner) => Ok(TilingContainer::Split(inner)),
            Container::TilingWindow(inner) => Ok(TilingContainer::TilingWindow(inner)),
            other => Err(other),
        }
    }

    /// The container as one with a tiling direction; any other is handed back.
    pub fn as_direction_container(self) -> (direction: Result<DirectionContainer, Container>)
        ensures
            match direction {
                Ok(direction) => direction.container() == self,
                Err(other) => other == self,
            },
            direction is Ok <==> self is Workspace || self is Split,
    {
        match self {
            Container::Workspace(inner) => Ok(DirectionContainer::Workspace(inner)),
            Container::Split(inner) => Ok(DirectionContainer::Split(inner)),
            other => Err(other),
        }
    }
}

impl PartialEq for Container {
    /// Containers are equal if they have the same identity.
    fn eq(&self, other: &Self) -> (same: bool) {
        self.id() == other.id()
    }
}

impl Eq for Container {

}

impl vstd::std_specs::cmp::PartialEqSpecImpl for Container {
    open spec fn obeys_eq_spec() -> bool {
        true
    }

    open spec fn eq_spec(&self, other: &Self) -> bool {
        self.inner().id == other.inner().id
    }
}

impl TilingContainer {
    pub open spec fn container(self) -> Container {
        match self {
            TilingContainer::Split(inner) => Container::Split(inner),
            TilingContainer::TilingWindow(inner) => Container::TilingWindow(inner),
        }
    }

    pub fn as_container(self) -> (container: Container)
        ensures
            container == self.container(),
    {
        match self {
            TilingContainer::Split(inner) => Container::Split(inner),
            TilingContainer::TilingWindow(inner) => Container::TilingWindow(inner),
        }
    }

    pub fn id(&self) -> (id: ContainerId)
        ensures
            id == self.container().inner().id,
    {
        match self {
            TilingContainer::Split(inner) | TilingContainer::TilingWindow(inner) => inner.id,
        }
    }
}

impl PartialEq for TilingContainer {
    fn eq(&self, other: &Self) -> (same: bool) {
        self.id() == other.id()
    }
}

impl Eq for TilingContainer {

}

impl vstd::std_specs::cmp::PartialEqSpecImpl for TilingContainer {
    open spec fn obeys_eq_spec() -> bool {
        true
    }

    open spec fn eq_spec(&self, other: &Self) -> bool {
        self.container().inner().id == other.container().inner().id
    }
}

impl WindowContainer {
    pub open spec fn container(self) -> Container {
        match self {
            WindowContainer::TilingWindow(inner) => Container::TilingWindow(inner),
            WindowContainer::NonTilingWindow(inner) => Container::NonTilingWindow(inner),
        }
    }

    pub fn as_container(self) -> (container: Container)
        ensures
            container == self.container(),
    {
        match self {
            WindowContainer::TilingWindow(inner) => Container::TilingWindow(inner),
            WindowContainer::NonTilingWindow(inner) => Container::NonTilingWindow(inner),
        }
    }

    pub fn id(&self) -> (id: ContainerId)
        ensures
            id == self.container().inner().id,
    {
        match self {
            WindowContainer::TilingWindow(inner) | WindowContainer::NonTilingWindow(inner) => {
                inner.id
            },
        }
    }
}

impl PartialEq for WindowContainer {
    fn eq(&self, other: &Self) -> (same: bool) {
        self.id() == other.id()
    }
}

impl Eq for WindowContainer {

}

impl vstd::std_specs::cmp::PartialEqSpecImpl for WindowContainer {
    open spec fn obeys_eq_spec() -> bool {
        true
    }

    open spec fn eq_spec(&self, other: &Self) -> bool {
        self.container().inner().id == other.container().inner().id
    }
}

impl DirectionContainer {
    pub open spec fn container(self) -> Container {
        match self {
            DirectionContainer::Workspace(inner) => Container::Workspace(inner),
            DirectionContainer::Split(inner) => Container::Split(inner),
        }
    }

    pub fn as_container(self) -> (container: Container)
        ensures
            container == self.container(),
    {
        match self {
            DirectionContainer::Workspace(inner) => Container::Workspace(inner),
            DirectionContainer::Split(inner) => Container::Split(inner),
        }
    }

    pub fn id(&self) -> (id: ContainerId)
        ensures
            id == self.container().inner().id,
    {
        match self {
            DirectionContainer::Workspace(inner) | DirectionContainer::Split(inner) => inner.id,
        }
    }
}

impl PartialEq for DirectionContainer {
    fn eq(&self, other: &Self) -> (same: bool) {
        self.id() == other.id()
    }
}

impl Eq for DirectionContainer {

}

impl vstd::std_specs::cmp::PartialEqSpecImpl for DirectionContainer {
    open spec fn obeys_eq_spec() -> bool {
        true
    }

    open spec fn eq_spec(&self, other: &Self) -> bool {
        self.container().inner().id == other.container().inner().id
    }
}

impl WeakContainer {
    pub closed spec fn spec_slot(self) -> usize {
        self.slot
    }

    pub closed spec fn spec_id(self) -> ContainerId {
        self.id
    }

    pub closed spec fn spec_kind(self) -> ContainerKind {
        self.kind
    }

    pub(crate) fn to(kind: ContainerKind, slot: usize, id: ContainerId) -> (weak: WeakContainer)
        ensures
            weak.spec_slot() == slot,
            weak.spec_id() == id,
            weak.spec_kind() == kind,
    {
        WeakContainer { kind, slot, id }
    }

    pub fn slot(&self) -> (slot: usize)
        ensures
            slot == self.spec_slot(),
    {
        self.slot
    }

    pub fn id(&self) -> (id: ContainerId)
        ensures
            id == self.spec_id(),
    {
        self.id
    }

    pub fn kind(&self) -> (kind: ContainerKind)
        ensures
            kind == self.spec_kind(),
    {
        self.kind
    }
}

/// The kind of a container names its variant.
pub proof fn law_kinds_name_the_variants(container: Container)
    ensures
        container.spec_kind() is Root <==> container is Root,
        container.spec_kind() is Monitor <==> container is Monitor,
        container.spec_kind() is Workspace <==> container is Workspace,
        container.spec_kind() is Split <==> container is Split,
        container.spec_kind() is TilingWindow <==> container is TilingWindow,
        container.spec_kind() is NonTilingWindow <==> container is NonTilingWindow,
{
}

/// Every value, of whatever variant, stands for the container that it was made
/// for.
pub proof fn law_values_stand_for_their_containers(inner: ContainerRef)
    ensures
        Container::Root(inner).inner() == inner,
        Container::Monitor(inner).inner() == inner,
        Container::Workspace(inner).inner() == inner,
        Container::Split(inner).inner() == inner,
        Container::TilingWindow(inner).inner() == inner,
        Container::NonTilingWindow(inner).inner() == inner,
        TilingContainer::Split(inner).container() == Container::Split(inner),
        TilingContainer::TilingWindow(inner).container() == Container::TilingWindow(inner),
        WindowContainer::TilingWindow(inner).container() == Container::TilingWindow(inner),
        WindowContainer::NonTilingWindow(inner).container() == Container::NonTilingWindow(inner),
        DirectionContainer::Workspace(inner).container() == Container::Workspace(inner),
        DirectionContainer::Split(inner).container() == Container::Split(inner),
{
}

} // verus!
