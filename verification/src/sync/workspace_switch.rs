//! Animating the switch from one workspace to another.
//!
//! Before any real window is moved, every window that comes, goes or is passed
//! on the way gets a surrogate that takes its place during the animation.
use vstd::prelude::*;

use crate::geometry::Rect;
use crate::model::{ContainerId, SyncError};
use crate::sync::effects::WindowEffectsConfig;
use crate::sync::order::WindowBrief;

verus! {

/// How a switch is animated.
#[derive(Clone, Copy, Debug, PartialEq, Eq, Structural)]
pub struct SwitchStyle {
    /// Workspaces slide past one after the other.
    pub slide: bool,
    /// The style has no slide offset.
    pub no_slide: bool,
}

/// A workspace that may be passed on the way.
pub struct PassedWorkspace {
    /// The workspace's place in the configuration, if it has one.
    pub config_index: Option<usize>,
    pub monitor: Option<ContainerId>,
    /// The windows among the workspace's descendants.
    pub windows: Vec<WindowBrief>,
}

/// The way from one workspace to another.
#[derive(Clone, Copy, Debug, PartialEq, Eq, Structural)]
pub struct SwitchRoute {
    pub from_index: Option<usize>,
    pub to_index: Option<usize>,
    /// The destination exists.
    pub destination_exists: bool,
    /// The destination's monitor.
    pub destination_monitor: Option<ContainerId>,
}

impl SwitchRoute {
    /// Both ends are configured and the destination exists.
    pub open spec fn known(self) -> bool {
        self.from_index is Some && self.to_index is Some && self.destination_exists
    }

    /// The workspace lies strictly between the ends, on the destination's
    /// monitor.
    pub open spec fn passes(self, workspace: PassedWorkspace) -> bool {
        &&& workspace.monitor == self.destination_monitor
        &&& workspace.config_index matches Some(index) && {
            ||| self.from_index->0 < index < self.to_index->0
            ||| self.to_index->0 < index < self.from_index->0
        }
    }
}

impl PassedWorkspace {
    /// The windows of a passed workspace that are shown on the way.
    pub open spec fn transit(self) -> Seq<ContainerId> {
        self.windows@.filter(|window: WindowBrief| window.state !is Minimized).map_values(
            |window: WindowBrief| window.id,
        )
    }
}

/// The windows of the workspaces that the route passes, in order.
pub open spec fn transit_of(route: SwitchRoute, workspaces: Seq<PassedWorkspace>) -> Seq<
    ContainerId,
>
    decreases workspaces.len(),
{
    if workspaces.len() == 0 {
        seq![]
    } else {
        let front = transit_of(route, workspaces.drop_last());
        if route.passes(workspaces.last()) {
            front + workspaces.last().transit()
        } else {
            front
        }
    }
}

/// The windows that are shown on the way: none, unless workspaces slide past
/// and the route is known.
pub open spec fn transit_windows_of(
    style: SwitchStyle,
    route: Option<SwitchRoute>,
    workspaces: Seq<PassedWorkspace>,
) -> Seq<ContainerId> {
    match route {
        Some(route) if style.slide && route.known() => transit_of(route, workspaces),
        _ => seq![],
    }
}

fn passed(route: &SwitchRoute, workspace: &PassedWorkspace) -> (passed: bool)
    requires
        route.known(),
    ensures
        passed == route.passes(*workspace),
{
    match (route.from_index, route.to_index, workspace.config_index) {
        (Some(from), Some(to), Some(index)) => {
            let between = (from < index && index < to) || (to < index && index < from);
            between && workspace.monitor == route.destination_monitor
        },
        _ => false,
    }
}

/// Appends the windows of a passed workspace.
fn pass_workspace(windows: &mut Vec<ContainerId>, workspace: &PassedWorkspace)
    ensures
        final(windows)@ == old(windows)@ + workspace.transit(),
{
    let ghost before = windows@;
    let ghost shown = |window: WindowBrief| window.state !is Minimized;
    let ghost id_of = |window: WindowBrief| window.id;
    let mut i: usize = 0;
    assert(workspace.windows@.take(0).filter(shown) =~= seq![]) by {
        reveal(Seq::filter);
    }
    assert(windows@ =~= before + workspace.windows@.take(0).filter(shown).map_values(id_of));
    while i < workspace.windows.len()
        invariant
            i <= workspace.windows.len(),
            shown == (|window: WindowBrief| window.state !is Minimized),
            id_of == (|window: WindowBrief| window.id),
            windows@ == before + workspace.windows@.take(i as int).filter(shown).map_values(id_of),
        decreases workspace.windows.len() - i,
    {
        proof {
            reveal(Seq::filter);
            assert(workspace.windows@.take(i + 1).drop_last() =~= workspace.windows@.take(
                i as int,
            ));
        }
        if !workspace.windows[i].state.is_minimized() {
            windows.push(workspace.windows[i].id);
            assert(windows@ =~= before + workspace.windows@.take(i + 1).filter(shown).map_values(
                id_of,
            ));
        }
        i += 1;
    }
    assert(workspace.windows@.take(workspace.windows@.len() as int) =~= workspace.windows@);
}

/// Finds the windows of hidden intermediate workspaces. They contribute
/// thumbnails only: the real windows stay hidden and never receive focus.
pub fn transit_windows(
    style: SwitchStyle,
    route: Option<SwitchRoute>,
    workspaces: &Vec<PassedWorkspace>,
) -> (windows: Vec<ContainerId>)
    ensures
        windows@ == transit_windows_of(style, route, workspaces@),
{
    let mut windows: Vec<ContainerId> = Vec::new();
    let route = match route {
        Some(route) => route,
        None => return windows,
    };
    if !style.slide || route.from_index.is_none() || route.to_index.is_none()
        || !route.destination_exists {
        return windows;
    }
    let mut i: usize = 0;
    assert(workspaces@.take(0) =~= seq![]);
    while i < workspaces.len()
        invariant
            i <= workspaces.len(),
            route.known(),
            windows@ == transit_of(route, workspaces@.take(i as int)),
        decreases workspaces.len() - i,
    {
        assert(workspaces@.take(i + 1).drop_last() =~= workspaces@.take(i as int));
        if passed(&route, &workspaces[i]) {
            pass_workspace(&mut windows, &workspaces[i]);
        }
        i += 1;
    }
    assert(workspaces@.take(workspaces@.len() as int) =~= workspaces@);
    windows
}

/// The monitor that a switch plays on. A width of zero stands for none.
#[derive(Clone, Copy, Debug, PartialEq, Eq, Structural)]
pub struct Viewport {
    pub x: i32,
    pub y: i32,
    pub width: i32,
    pub height: i32,
    pub handle: isize,
}

impl Viewport {
    pub open spec fn none() -> Viewport {
        Viewport { x: 0, y: 0, width: 0, height: 0, handle: 0 }
    }
}

/// A window that may take part in a switch.
#[derive(Clone, Copy, Debug, PartialEq, Eq, Structural)]
pub struct SwitchWindow {
    pub id: ContainerId,
    /// The window is carried from one workspace to the other.
    pub transfer: bool,
    pub incoming: bool,
    pub outgoing: bool,
    /// The window is passed on the way.
    pub transit: bool,
    /// The running switch already animates the window.
    pub in_running_switch: bool,
    pub monitor: Option<Viewport>,
    pub has_workspace: bool,
}

impl SwitchWindow {
    /// The window gets a surrogate in this switch.
    pub open spec fn takes_part(self, continuing: bool) -> bool {
        &&& !self.transfer
        &&& self.incoming || self.outgoing || self.transit
        &&& !(continuing && self.in_running_switch)
    }
}

/// A surrogate to create.
#[derive(Clone, Copy, Debug, PartialEq, Eq, Structural)]
pub struct SwitchEntry {
    pub id: ContainerId,
    /// The window belongs to the destination and is revealed at the end.
    pub incoming: bool,
    pub transit: bool,
    /// The surrogate is placed at the window's frame in the layout; otherwise
    /// it is placed where the window was last sent to.
    pub at_target: bool,
    pub viewport: Viewport,
    /// The opacity that the window's effects ask for.
    pub opacity: u8,
}

/// Which monitor the switch plays on, judging by the first `n` windows: the
/// first one that a participant is on.
pub open spec fn viewport_of(
    windows: Seq<SwitchWindow>,
    continuing: bool,
    n: nat,
) -> Viewport
    recommends
        n <= windows.len(),
    decreases n,
{
    if n == 0 {
        Viewport::none()
    } else {
        let before = viewport_of(windows, continuing, (n - 1) as nat);
        let window = windows[n - 1];
        match window.monitor {
            Some(monitor) if window.takes_part(continuing) && before.width == 0 => monitor,
            _ => before,
        }
    }
}

/// The surrogates for the first `n` windows.
pub open spec fn entries_of(
    windows: Seq<SwitchWindow>,
    continuing: bool,
    focused: ContainerId,
    effects: WindowEffectsConfig,
    n: nat,
) -> Seq<SwitchEntry>
    recommends
        n <= windows.len(),
    decreases n,
{
    if n == 0 {
        seq![]
    } else {
        let before = entries_of(windows, continuing, focused, effects, (n - 1) as nat);
        let window = windows[n - 1];
        if window.takes_part(continuing) {
            before.push(
                SwitchEntry {
                    id: window.id,
                    incoming: window.incoming,
                    transit: window.transit,
                    at_target: window.incoming || window.transit,
                    viewport: viewport_of(windows, continuing, n),
                    opacity: effects.of_window(window.id == focused).effective_opacity(),
                },
            )
        } else {
            before
        }
    }
}

/// The surrogates of a switch.
pub struct SwitchPlan {
    pub entries: Vec<SwitchEntry>,
    pub viewport: Viewport,
}

/// Whether there is a switch to animate in this redraw: some window comes, goes
/// or is passed, or a running switch is continued.
pub fn switch_wanted(windows: &Vec<SwitchWindow>, continuing: bool) -> (wanted: bool)
    ensures
        wanted == (continuing || exists|i: int|
            0 <= i < windows@.len() && {
                let window = #[trigger] windows@[i];
                window.incoming || window.outgoing || window.transit
            }),
{
    if continuing {
        return true;
    }
    let mut i: usize = 0;
    while i < windows.len()
        invariant
            i <= windows.len(),
            forall|k: int|
                0 <= k < i ==> {
                    let window = #[trigger] windows@[k];
                    !window.incoming && !window.outgoing && !window.transit
                },
        decreases windows.len() - i,
    {
        let window = windows[i];
        if window.incoming || window.outgoing || window.transit {
            assert(windows@[i as int] == window);
            return true;
        }
        i += 1;
    }
    false
}

/// Lays out the surrogates of a switch. All windows are given once, those to
/// update first and those on the way after them.
pub fn plan_switch(
    windows: &Vec<SwitchWindow>,
    continuing: bool,
    focused: ContainerId,
    effects: &WindowEffectsConfig,
) -> (plan: Result<SwitchPlan, SyncError>)
    ensures
        plan is Err <==> exists|i: int|
            0 <= i < windows@.len() && {
                let window = #[trigger] windows@[i];
                window.takes_part(continuing) && !window.has_workspace
            },
        plan matches Err(error) ==> error == SyncError::NoTransitionWorkspace,
        plan matches Ok(plan) ==> {
            &&& plan.entries@ == entries_of(
                windows@,
                continuing,
                focused,
                *effects,
                windows@.len(),
            )
            &&& plan.viewport == viewport_of(windows@, continuing, windows@.len())
        },
{
    let mut entries: Vec<SwitchEntry> = Vec::new();
    let mut viewport = Viewport { x: 0, y: 0, width: 0, height: 0, handle: 0 };
    let mut i: usize = 0;
    while i < windows.len()
        invariant
            i <= windows.len(),
            entries@ == entries_of(windows@, continuing, focused, *effects, i as nat),
            viewport == viewport_of(windows@, continuing, i as nat),
            forall|k: int|
                0 <= k < i ==> {
                    let window = #[trigger] windows@[k];
                    window.takes_part(continuing) ==> window.has_workspace
                },
        decreases windows.len() - i,
    {
        let window = windows[i];
        assert(windows@[i as int] == window);
        let has_role = window.incoming || window.outgoing || window.transit;
        if !window.transfer && has_role && !(continuing && window.in_running_switch) {
            if viewport.width == 0 {
                if let Some(monitor) = window.monitor {
                    viewport = monitor;
                }
            }
            if !window.has_workspace {
                return Err(SyncError::NoTransitionWorkspace);
            }
            entries.push(
                SwitchEntry {
                    id: window.id,
                    incoming: window.incoming,
                    transit: window.transit,
                    at_target: window.incoming || window.transit,
                    viewport,
                    opacity: effects.for_window(window.id == focused).alpha(),
                },
            );
        }
        i += 1;
    }
    Ok(SwitchPlan { entries, viewport })
}

/// Where the surrogate of a window that leaves is placed: where the window was
/// last sent to or, failing that, where it is. An unknown place is empty.
pub fn outgoing_frame(recorded: Option<Rect>, native: Option<Rect>) -> (frame: Rect)
    ensures
        frame == match (recorded, native) {
            (Some(rect), _) => rect,
            (None, Some(rect)) => rect,
            (None, None) => Rect { left: 0, top: 0, right: 0, bottom: 0 },
        },
{
    match (recorded, native) {
        (Some(rect), _) => rect,
        (None, Some(rect)) => rect,
        (None, None) => Rect { left: 0, top: 0, right: 0, bottom: 0 },
    }
}

/// What becomes of the surrogates.
#[derive(Clone, Copy, Debug, PartialEq, Eq, Structural)]
pub enum SwitchDecision {
    /// Add the surrogates to the running switch and send it to the new
    /// destination.
    Retarget,
    Start,
    /// The workspaces are switched at once.
    Skip,
}

/// Decides what becomes of the surrogates. A slide without a direction is not
/// played: its workspaces are not configured, so everything would flash at its
/// final place.
pub fn decide_switch(
    continuing: bool,
    has_route: bool,
    entries: usize,
    direction: i32,
    style: SwitchStyle,
) -> (decision: SwitchDecision)
    ensures
        decision is Retarget <==> continuing && has_route,
        decision is Start <==> !continuing && entries > 0 && (direction != 0 || style.no_slide),
{
    if continuing {
        if has_route {
            SwitchDecision::Retarget
        } else {
            SwitchDecision::Skip
        }
    } else if entries > 0 && (direction != 0 || style.no_slide) {
        SwitchDecision::Start
    } else {
        SwitchDecision::Skip
    }
}

/// How a switch is set in motion.
#[derive(Clone, Copy, Debug, PartialEq, Eq, Structural)]
pub enum SwitchAction {
    /// Shows the surrogate of a window that leaves, over the window itself.
    ShowInitial(ContainerId),
    /// Shows the surrogate of a window that comes, at its start opacity.
    ShowIncoming(ContainerId),
    /// Lets the surrogates be composited before the windows below change.
    Flush,
    Start,
}

/// The surrogate is shown before the switch starts. Surrogates on the way, and
/// incoming ones of a slide, start off screen.
pub open spec fn shown_first(entry: SwitchEntry, style: SwitchStyle) -> bool {
    !entry.transit && !(entry.incoming && style.slide)
}

/// How the surrogate is shown before the switch starts.
pub open spec fn show(entry: SwitchEntry) -> SwitchAction {
    if entry.incoming {
        SwitchAction::ShowIncoming(entry.id)
    } else {
        SwitchAction::ShowInitial(entry.id)
    }
}

/// The surrogates to show before the switch starts.
pub open spec fn shows_of(entries: Seq<SwitchEntry>, style: SwitchStyle) -> Seq<SwitchAction> {
    entries.filter(|entry: SwitchEntry| shown_first(entry, style)).map_values(
        |entry: SwitchEntry| show(entry),
    )
}

/// Sets a switch in motion. The entries are those whose surrogate could be
/// created.
pub fn start_switch(entries: &Vec<SwitchEntry>, style: SwitchStyle) -> (actions: Vec<SwitchAction>)
    ensures
        actions@ == shows_of(entries@, style) + seq![SwitchAction::Flush, SwitchAction::Start],
        actions@.last() is Start,
        actions@[actions@.len() - 2] is Flush,
{
    let ghost shown = |entry: SwitchEntry| shown_first(entry, style);
    let ghost how = |entry: SwitchEntry| show(entry);
    let mut actions: Vec<SwitchAction> = Vec::new();
    let mut i: usize = 0;
    assert(entries@.take(0).filter(shown) =~= seq![]) by {
        reveal(Seq::filter);
    }
    assert(actions@ =~= entries@.take(0).filter(shown).map_values(how));
    while i < entries.len()
        invariant
            i <= entries.len(),
            shown == (|entry: SwitchEntry| shown_first(entry, style)),
            how == (|entry: SwitchEntry| show(entry)),
            actions@ == entries@.take(i as int).filter(shown).map_values(how),
        decreases entries.len() - i,
    {
        proof {
            reveal(Seq::filter);
            assert(entries@.take(i + 1).drop_last() =~= entries@.take(i as int));
        }
        let entry = entries[i];
        if !entry.transit {
            if !entry.incoming {
                actions.push(SwitchAction::ShowInitial(entry.id));
                assert(actions@ =~= entries@.take(i + 1).filter(shown).map_values(how));
            } else if !style.slide {
                actions.push(SwitchAction::ShowIncoming(entry.id));
                assert(actions@ =~= entries@.take(i + 1).filter(shown).map_values(how));
            }
        }
        i += 1;
    }
    assert(entries@.take(entries@.len() as int) =~= entries@);
    let ghost shows = actions@;
    actions.push(SwitchAction::Flush);
    actions.push(SwitchAction::Start);
    assert(actions@ =~= shows + seq![SwitchAction::Flush, SwitchAction::Start]);
    actions
}

/// What a redraw ends with.
#[derive(Clone, Copy, Debug, PartialEq, Eq, Structural)]
pub enum SwitchCleanup {
    /// Moves all surrogates in one transaction.
    FlushSurrogateUpdates,
    /// Lets what replaces the old thumbnails be composited first.
    Flush,
    /// Releases the carried window's thumbnail in its old workspace.
    RemoveWorkspaceWindow(ContainerId),
    /// Gives outgoing surrogates their opacity, the real windows being cloaked.
    ApplyOutgoingOpacities,
}

/// Ends a redraw. `transfers` are the carried windows, of which
/// `transfer_in_switch` tells whether the running switch shows one.
pub fn finish_redraw(
    transfers: &Vec<ContainerId>,
    transfer_in_switch: bool,
    has_route: bool,
    continuing: bool,
) -> (actions: Vec<SwitchCleanup>)
    ensures
        actions@ == seq![SwitchCleanup::FlushSurrogateUpdates] + (if transfer_in_switch {
            seq![SwitchCleanup::Flush] + transfers@.map_values(
                |id: ContainerId| SwitchCleanup::RemoveWorkspaceWindow(id),
            )
        } else {
            seq![]
        }) + (if has_route && !continuing {
            seq![SwitchCleanup::ApplyOutgoingOpacities]
        } else {
            seq![]
        }),
        actions@[0] is FlushSurrogateUpdates,
        actions@.last() is ApplyOutgoingOpacities <==> has_route && !continuing,
        transfer_in_switch ==> actions@[1] is Flush && forall|i: int|
            0 <= i < transfers@.len() ==> actions@[i + 2] == SwitchCleanup::RemoveWorkspaceWindow(
                #[trigger] transfers@[i],
            ),
        !transfer_in_switch ==> actions@.len() <= 2,
{
    let mut actions: Vec<SwitchCleanup> = Vec::new();
    actions.push(SwitchCleanup::FlushSurrogateUpdates);
    if transfer_in_switch {
        actions.push(SwitchCleanup::Flush);
        let mut i: usize = 0;
        while i < transfers.len()
            invariant
                i <= transfers.len(),
                actions@ =~= seq![SwitchCleanup::FlushSurrogateUpdates] + (seq![
                    SwitchCleanup::Flush,
                ] + transfers@.take(i as int).map_values(
                    |id: ContainerId| SwitchCleanup::RemoveWorkspaceWindow(id),
                )),
            decreases transfers.len() - i,
        {
            actions.push(SwitchCleanup::RemoveWorkspaceWindow(transfers[i]));
            i += 1;
        }
        assert(transfers@.take(transfers@.len() as int) =~= transfers@);
    }
    if has_route && !continuing {
        actions.push(SwitchCleanup::ApplyOutgoingOpacities);
    }
    actions
}

/// A carried window never gets a surrogate of the switch, and every surrogate
/// stands for a window that comes, goes or is passed.
pub proof fn law_every_surrogate_has_a_role(
    windows: Seq<SwitchWindow>,
    continuing: bool,
    focused: ContainerId,
    effects: WindowEffectsConfig,
    n: nat,
    i: int,
)
    requires
        n <= windows.len(),
        0 <= i < entries_of(windows, continuing, focused, effects, n).len(),
    ensures
        exists|k: int|
            0 <= k < n && {
                let window = #[trigger] windows[k];
                let entry = entries_of(windows, continuing, focused, effects, n)[i];
                &&& window.id == entry.id
                &&& !window.transfer
                &&& window.takes_part(continuing)
                &&& entry.incoming == window.incoming
                &&& !entry.at_target ==> window.outgoing
            },
    decreases n,
{
    let m = (n - 1) as nat;
    if i < entries_of(windows, continuing, focused, effects, m).len() {
        law_every_surrogate_has_a_role(windows, continuing, focused, effects, m, i);
        let k = choose|k: int|
            0 <= k < m && {
                let window = #[trigger] windows[k];
                let entry = entries_of(windows, continuing, focused, effects, m)[i];
                &&& window.id == entry.id
                &&& !window.transfer
                &&& window.takes_part(continuing)
                &&& entry.incoming == window.incoming
                &&& !entry.at_target ==> window.outgoing
            };
        assert(windows[k].id == entries_of(windows, continuing, focused, effects, n)[i].id);
    } else {
        assert(windows[m as int].takes_part(continuing));
    }
}

/// A minimized window is never shown on the way.
pub proof fn law_minimized_windows_are_not_passed(workspace: PassedWorkspace, i: int)
    requires
        0 <= i < workspace.transit().len(),
    ensures
        exists|k: int|
            0 <= k < workspace.windows@.len() && {
                let window = #[trigger] workspace.windows@[k];
                window.id == workspace.transit()[i] && window.state !is Minimized
            },
{
    let shown = |window: WindowBrief| window.state !is Minimized;
    let kept = workspace.windows@.filter(shown);
    workspace.windows@.lemma_filter_pred(shown, i);
    assert(kept.contains(kept[i]));
    workspace.windows@.lemma_filter_contains_rev(shown, kept[i]);
    let k = choose|k: int| 0 <= k < workspace.windows@.len() && workspace.windows@[k] == kept[i];
    assert(workspace.transit()[i] == kept[i].id);
    assert(workspace.windows@[k].id == workspace.transit()[i]);
}

/// A passed workspace shows exactly its windows that are not minimized, in order.
pub proof fn law_passed_windows_are_shown(workspace: PassedWorkspace) -> (places: Seq<int>)
    ensures
        crate::selection::selects(
            places,
            workspace.windows@.len() as int,
            |i: int| workspace.windows@[i].state !is Minimized,
        ),
        workspace.transit().len() == places.len(),
        forall|k: int|
            0 <= k < places.len() ==> #[trigger] workspace.transit()[k]
                == workspace.windows@[places[k]].id,
{
    let shown = |window: WindowBrief| window.state !is Minimized;
    let places = crate::selection::lemma_filter_map(
        workspace.windows@,
        shown,
        |window: WindowBrief| window.id,
    );
    crate::selection::lemma_selects_alike(
        places,
        workspace.windows@.len() as int,
        |i: int| shown(workspace.windows@[i]),
        |i: int| workspace.windows@[i].state !is Minimized,
    );
    places
}

/// A workspace lies on the way exactly if it is on the destination's monitor and
/// its place in the configuration separates the two ends.
pub proof fn law_routes_pass_what_lies_between(route: SwitchRoute, workspace: PassedWorkspace)
    requires
        route.from_index is Some,
        route.to_index is Some,
    ensures
        route.passes(workspace) <==> {
            &&& workspace.monitor == route.destination_monitor
            &&& workspace.config_index is Some
            &&& workspace.config_index != route.from_index
            &&& workspace.config_index != route.to_index
            &&& (route.from_index->0 < workspace.config_index->0) == (workspace.config_index->0
                < route.to_index->0)
        },
        route.passes(workspace) == (SwitchRoute {
            from_index: route.to_index,
            to_index: route.from_index,
            ..route
        }).passes(workspace),
{
}

/// The workspace holds the window, not minimized.
pub open spec fn holds_shown(workspace: PassedWorkspace, id: ContainerId) -> bool {
    exists|k: int|
        0 <= k < workspace.windows@.len() && #[trigger] workspace.windows@[k].id == id
            && workspace.windows@[k].state !is Minimized
}

proof fn lemma_transit_holds(workspace: PassedWorkspace, id: ContainerId)
    ensures
        workspace.transit().contains(id) <==> holds_shown(workspace, id),
{
    let places = law_passed_windows_are_shown(workspace);
    if workspace.transit().contains(id) {
        let m = choose|m: int| 0 <= m < workspace.transit().len() && workspace.transit()[m] == id;
        assert(workspace.windows@[places[m]].id == id);
    }
    if holds_shown(workspace, id) {
        let k = choose|k: int|
            0 <= k < workspace.windows@.len() && #[trigger] workspace.windows@[k].id == id
                && workspace.windows@[k].state !is Minimized;
        let shown = |i: int| workspace.windows@[i].state !is Minimized;
        assert(shown(k));
        assert(places.contains(k));
        let m = choose|m: int| 0 <= m < places.len() && places[m] == k;
        assert(workspace.transit()[m] == id);
    }
}

proof fn lemma_transit_of_holds(
    route: SwitchRoute,
    workspaces: Seq<PassedWorkspace>,
    id: ContainerId,
)
    ensures
        transit_of(route, workspaces).contains(id) <==> exists|j: int|
            0 <= j < workspaces.len() && route.passes(#[trigger] workspaces[j]) && holds_shown(
                workspaces[j],
                id,
            ),
    decreases workspaces.len(),
{
    if workspaces.len() > 0 {
        let front = workspaces.drop_last();
        let last = workspaces.last();
        let before = transit_of(route, front);
        let all = transit_of(route, workspaces);
        lemma_transit_of_holds(route, front, id);
        lemma_transit_holds(last, id);
        if all.contains(id) {
            let m = choose|m: int| 0 <= m < all.len() && all[m] == id;
            if m < before.len() {
                assert(before[m] == id);
                let j = choose|j: int|
                    0 <= j < front.len() && route.passes(#[trigger] front[j]) && holds_shown(
                        front[j],
                        id,
                    );
                assert(workspaces[j] == front[j]);
            } else {
                assert(last.transit()[m - before.len()] == id);
                assert(workspaces[workspaces.len() - 1] == last);
            }
        }
        if exists|j: int|
            0 <= j < workspaces.len() && route.passes(#[trigger] workspaces[j]) && holds_shown(
                workspaces[j],
                id,
            ) {
            let j = choose|j: int|
                0 <= j < workspaces.len() && route.passes(#[trigger] workspaces[j]) && holds_shown(
                    workspaces[j],
                    id,
                );
            if j < front.len() {
                assert(front[j] == workspaces[j]);
                let m = choose|m: int| 0 <= m < before.len() && before[m] == id;
                assert(all[m] == id);
            } else {
                let m = choose|m: int| 0 <= m < last.transit().len() && last.transit()[m] == id;
                assert(all[before.len() + m] == id);
            }
        }
    }
}

/// A window is shown on the way exactly if workspaces slide past, both ends of
/// the route are configured, its destination exists, and the window stands, not
/// minimized, in a workspace between the ends on the destination's monitor.
pub proof fn law_slides_show_what_lies_between(
    style: SwitchStyle,
    route: SwitchRoute,
    workspaces: Seq<PassedWorkspace>,
    id: ContainerId,
)
    ensures
        transit_windows_of(style, None, workspaces).len() == 0,
        transit_windows_of(style, Some(route), workspaces).contains(id) <==> {
            &&& style.slide
            &&& route.destination_exists
            &&& route.from_index is Some
            &&& route.to_index is Some
            &&& exists|j: int|
                0 <= j < workspaces.len() && (#[trigger] workspaces[j]).monitor
                    == route.destination_monitor && workspaces[j].config_index is Some && ({
                    ||| route.from_index->0 < workspaces[j].config_index->0 < route.to_index->0
                    ||| route.to_index->0 < workspaces[j].config_index->0 < route.from_index->0
                }) && holds_shown(workspaces[j], id)
        },
{
    lemma_transit_of_holds(route, workspaces, id);
    if route.from_index is Some && route.to_index is Some {
        assert forall|j: int| 0 <= j < workspaces.len() implies route.passes(
            #[trigger] workspaces[j],
        ) == (workspaces[j].monitor == route.destination_monitor
            && workspaces[j].config_index is Some && ({
            ||| route.from_index->0 < workspaces[j].config_index->0 < route.to_index->0
            ||| route.to_index->0 < workspaces[j].config_index->0 < route.from_index->0
        })) by {
            law_routes_pass_what_lies_between(route, workspaces[j]);
        }
    }
}

/// A window gets a surrogate exactly if it comes, goes or is passed, is not
/// carried along, and is not yet part of a running switch. The surrogate of a
/// window that only goes is placed where the window was; the others at their
/// place in the layout. It has the opacity of its window, and it stands on the
/// monitor that the windows so far play on.
pub proof fn law_surrogates_stand_for_their_windows(
    windows: Seq<SwitchWindow>,
    continuing: bool,
    focused: ContainerId,
    effects: WindowEffectsConfig,
    n: nat,
) -> (places: Seq<int>)
    requires
        n <= windows.len(),
    ensures
        crate::selection::selects(
            places,
            n as int,
            |i: int|
                {
                    &&& windows[i].incoming || windows[i].outgoing || windows[i].transit
                    &&& !windows[i].transfer
                    &&& !continuing || !windows[i].in_running_switch
                },
        ),
        entries_of(windows, continuing, focused, effects, n).len() == places.len(),
        forall|k: int|
            0 <= k < places.len() ==> {
                let entry = #[trigger] entries_of(windows, continuing, focused, effects, n)[k];
                let window = windows[places[k]];
                let group = if window.id == focused {
                    effects.focused_window
                } else {
                    effects.other_windows
                };
                &&& entry.id == window.id
                &&& entry.incoming == window.incoming
                &&& entry.transit == window.transit
                &&& !entry.at_target <==> !window.incoming && !window.transit
                &&& group.transparency_enabled ==> entry.opacity == group.opacity
                &&& !group.transparency_enabled ==> entry.opacity == u8::MAX
                &&& entry.viewport == viewport_of(windows, continuing, (places[k] + 1) as nat)
            },
    decreases n,
{
    if n == 0 {
        Seq::empty()
    } else {
        let m = (n - 1) as nat;
        let before = law_surrogates_stand_for_their_windows(
            windows,
            continuing,
            focused,
            effects,
            m,
        );
        let wanted = |i: int|
            {
                &&& windows[i].incoming || windows[i].outgoing || windows[i].transit
                &&& !windows[i].transfer
                &&& !continuing || !windows[i].in_running_switch
            };
        let places = crate::selection::lemma_select_next(before, m as int, wanted, wanted);
        assert(wanted(m as int) == windows[m as int].takes_part(continuing));
        let entries = entries_of(windows, continuing, focused, effects, n);
        let earlier = entries_of(windows, continuing, focused, effects, m);
        assert forall|k: int| 0 <= k < before.len() implies #[trigger] entries[k] == earlier[k]
            && places[k] == before[k] by {}
        places
    }
}

/// The window takes part in the switch and is on a monitor of some width.
pub open spec fn settles_viewport(window: SwitchWindow, continuing: bool) -> bool {
    &&& window.incoming || window.outgoing || window.transit
    &&& !window.transfer
    &&& !continuing || !window.in_running_switch
    &&& window.monitor is Some
    &&& window.monitor->0.width != 0
}

/// The first window that takes part and is on a monitor settles where the switch
/// plays. While there is none, the switch plays nowhere.
pub proof fn law_the_first_window_settles_the_monitor(
    windows: Seq<SwitchWindow>,
    continuing: bool,
    n: nat,
    first: int,
)
    requires
        n <= windows.len(),
        0 <= first <= n,
        forall|i: int| 0 <= i < first ==> !settles_viewport(#[trigger] windows[i], continuing),
        first < n ==> settles_viewport(windows[first], continuing),
    ensures
        first < n ==> Some(viewport_of(windows, continuing, n)) == windows[first].monitor,
        first == n ==> viewport_of(windows, continuing, n).width == 0,
    decreases n,
{
    if n > 0 {
        let m = (n - 1) as nat;
        if first < n {
            law_the_first_window_settles_the_monitor(windows, continuing, m, first);
        } else {
            assert(!settles_viewport(windows[m as int], continuing));
            law_the_first_window_settles_the_monitor(windows, continuing, m, m as int);
        }
    }
}

/// Before the switch starts, exactly the surrogates that are on screen by then
/// are shown: those of windows that leave and, unless workspaces slide past,
/// those of windows that come; never those on the way.
pub proof fn law_surrogates_are_shown_in_place(
    entries: Seq<SwitchEntry>,
    style: SwitchStyle,
) -> (places: Seq<int>)
    ensures
        crate::selection::selects(
            places,
            entries.len() as int,
            |i: int| !entries[i].transit && (!entries[i].incoming || !style.slide),
        ),
        shows_of(entries, style).len() == places.len(),
        forall|k: int|
            0 <= k < places.len() ==> {
                let shown = #[trigger] shows_of(entries, style)[k];
                let entry = entries[places[k]];
                &&& entry.incoming ==> shown == SwitchAction::ShowIncoming(entry.id)
                &&& !entry.incoming ==> shown == SwitchAction::ShowInitial(entry.id)
            },
{
    let first = |entry: SwitchEntry| shown_first(entry, style);
    let places = crate::selection::lemma_filter_map(
        entries,
        first,
        |entry: SwitchEntry| show(entry),
    );
    crate::selection::lemma_selects_alike(
        places,
        entries.len() as int,
        |i: int| first(entries[i]),
        |i: int| !entries[i].transit && (!entries[i].incoming || !style.slide),
    );
    places
}

/// The workspaces on the way follow each other: the windows of a further one
/// come after all others.
pub proof fn law_workspaces_are_passed_in_order(
    route: SwitchRoute,
    workspaces: Seq<PassedWorkspace>,
    next: PassedWorkspace,
)
    requires
        route.from_index is Some,
        route.to_index is Some,
    ensures
        ({
            let before = transit_of(route, workspaces);
            let after = transit_of(route, workspaces.push(next));
            let between = next.config_index is Some && ({
                ||| route.from_index->0 < next.config_index->0 < route.to_index->0
                ||| route.to_index->0 < next.config_index->0 < route.from_index->0
            });
            &&& before.is_prefix_of(after)
            &&& between && next.monitor == route.destination_monitor ==> after.skip(
                before.len() as int,
            ) == next.transit()
            &&& !between || next.monitor != route.destination_monitor ==> after == before
        }),
{
    let before = transit_of(route, workspaces);
    let after = transit_of(route, workspaces.push(next));
    assert(workspaces.push(next).drop_last() =~= workspaces);
    law_routes_pass_what_lies_between(route, next);
    if route.passes(next) {
        assert(after =~= before + next.transit());
        assert(after.skip(before.len() as int) =~= next.transit());
    }
}

} // verus!
