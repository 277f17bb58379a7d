//! Hiding all windows to show the desktop, and bringing them back.
//!
//! The layout tree and the native geometry stay as they are; only previews of
//! the windows are animated.
use vstd::prelude::*;

use crate::animation::{animation_progress_at, Progress};
use crate::geometry::Rect;
use crate::model::{NativeHandle, SyncError, WindowState};
use crate::state::WmState;
use crate::sync::effects::WindowEffectsConfig;

verus! {

/// The visibility of a fully visible window. Visibilities are shares of it.
pub const FULLY_VISIBLE: u32 = 0x4000_0000;

/// Nanoseconds in a millisecond.
pub const NANOS_PER_MILLI: u64 = 1_000_000;

#[derive(Clone, Copy, Debug, PartialEq, Eq, Structural)]
pub struct DesktopToggleOptions {
    pub enabled: bool,
    pub show_duration_ms: u32,
    pub hide_duration_ms: u32,
}

/// The motion of the previews between visible and hidden.
#[derive(Clone, Copy, Debug, PartialEq, Eq, Structural)]
pub struct DesktopMotion {
    /// When the motion began, in nanoseconds.
    pub started: u64,
    /// How long the motion takes, in nanoseconds.
    pub duration: u64,
    pub from: u32,
    pub to: u32,
    pub options: DesktopToggleOptions,
}

/// The visibility after the given eased share of the way.
pub open spec fn mixed(from: int, to: int, eased: int) -> int {
    if to >= from {
        from + ((to - from) * eased) / (FULLY_VISIBLE as int)
    } else {
        from - ((from - to) * eased) / (FULLY_VISIBLE as int)
    }
}

/// A share of a distance lies between zero and the distance.
proof fn lemma_share(distance: int, eased: int)
    requires
        0 <= distance,
        0 <= eased <= FULLY_VISIBLE,
    ensures
        0 <= distance * eased,
        0 <= (distance * eased) / (FULLY_VISIBLE as int) <= distance,
        eased == 0 ==> (distance * eased) / (FULLY_VISIBLE as int) == 0,
{
    let full = FULLY_VISIBLE as int;
    assert(0 <= distance * eased <= distance * full) by (nonlinear_arith)
        requires
            0 <= distance,
            0 <= eased <= full,
    ;
    vstd::arithmetic::div_mod::lemma_div_is_ordered(distance * eased, distance * full, full);
    vstd::arithmetic::div_mod::lemma_div_by_multiple(distance, full);
    vstd::arithmetic::div_mod::lemma_div_pos_is_pos(distance * eased, full);
    if eased == 0 {
        assert(distance * eased == 0) by (nonlinear_arith)
            requires
                eased == 0,
        ;
        vstd::arithmetic::div_mod::lemma_basic_div(0, full);
    }
}

impl DesktopMotion {
    /// The motion leads to an end and has come from somewhere on the way.
    pub open spec fn well_formed(self) -> bool {
        &&& self.to == 0 || self.to == FULLY_VISIBLE
        &&& self.from <= FULLY_VISIBLE
    }

    /// The visibility at `now`; `eased` is the eased share of the motion that
    /// has run by then.
    pub open spec fn visibility(self, now: u64, eased: u32) -> int {
        if crate::animation::elapsed_at(self.started, now) >= self.duration {
            self.to as int
        } else {
            mixed(
                self.from as int,
                self.to as int,
                if eased <= FULLY_VISIBLE {
                    eased as int
                } else {
                    FULLY_VISIBLE as int
                },
            )
        }
    }

    /// How long a motion in the direction of `to` takes from one end to the
    /// other, in milliseconds.
    pub open spec fn full_duration(options: DesktopToggleOptions, to: u32) -> u32 {
        if to == FULLY_VISIBLE {
            options.show_duration_ms
        } else {
            options.hide_duration_ms
        }
    }

    pub fn new(showing: bool, options: DesktopToggleOptions, now: u64) -> (motion: DesktopMotion)
        ensures
            motion.well_formed(),
            motion.started == now,
            motion.options == options,
            motion.from == if showing {
                0
            } else {
                FULLY_VISIBLE
            },
            motion.to == if showing {
                FULLY_VISIBLE
            } else {
                0
            },
            motion.duration == Self::full_duration(options, motion.to) * NANOS_PER_MILLI,
    {
        let millis: u64 = if showing {
            options.show_duration_ms as u64
        } else {
            options.hide_duration_ms as u64
        };
        DesktopMotion {
            started: now,
            duration: millis * NANOS_PER_MILLI,
            from: if showing {
                0
            } else {
                FULLY_VISIBLE
            },
            to: if showing {
                FULLY_VISIBLE
            } else {
                0
            },
            options,
        }
    }

    /// The share of the motion that has run at `now`.
    pub fn progress(&self, now: u64) -> (progress: Progress)
        ensures
            progress == crate::animation::progress_at(self.started, self.duration, now),
            progress.well_formed(),
    {
        animation_progress_at(self.started, self.duration, now)
    }

    /// The visibility at `now`. A finished motion is at its end, whatever
    /// `eased` is; an `eased` beyond one counts as one.
    pub fn sample(&self, now: u64, eased: u32) -> (visibility: u32)
        requires
            self.well_formed(),
        ensures
            visibility == self.visibility(now, eased),
            visibility <= FULLY_VISIBLE,
    {
        let progress = self.progress(now);
        if progress.is_finished() {
            return self.to;
        }
        let share: u64 = if eased <= FULLY_VISIBLE {
            eased as u64
        } else {
            FULLY_VISIBLE as u64
        };
        let distance: u64 = if self.to >= self.from {
            (self.to - self.from) as u64
        } else {
            (self.from - self.to) as u64
        };
        proof {
            lemma_share(distance as int, share as int);
            assert(distance * share <= 0x4000_0000 * 0x4000_0000) by (nonlinear_arith)
                requires
                    0 <= distance <= 0x4000_0000,
                    0 <= share <= 0x4000_0000,
            ;
        }
        let step: u32 = (distance * share / (FULLY_VISIBLE as u64)) as u32;
        if self.to >= self.from {
            self.from + step
        } else {
            self.from - step
        }
    }

    /// How long the remaining distance takes at the speed of a full motion.
    pub open spec fn scaled_duration(options: DesktopToggleOptions, from: int, to: u32) -> int {
        let distance = if to >= from {
            to - from
        } else {
            from - to
        };
        (Self::full_duration(options, to) * NANOS_PER_MILLI * distance) / (FULLY_VISIBLE as int)
    }

    /// Turns the motion around at `now`, from where it is.
    pub fn reverse(&mut self, now: u64, eased: u32)
        requires
            old(self).well_formed(),
        ensures
            final(self).well_formed(),
            final(self).started == now,
            final(self).options == old(self).options,
            final(self).from == old(self).visibility(now, eased),
            final(self).to == FULLY_VISIBLE - old(self).to,
            final(self).duration == Self::scaled_duration(
                old(self).options,
                final(self).from as int,
                final(self).to,
            ),
    {
        self.from = self.sample(now, eased);
        self.to = FULLY_VISIBLE - self.to;
        let millis: u128 = if self.to == FULLY_VISIBLE {
            self.options.show_duration_ms as u128
        } else {
            self.options.hide_duration_ms as u128
        };
        let distance: u128 = if self.to >= self.from {
            (self.to - self.from) as u128
        } else {
            (self.from - self.to) as u128
        };
        assert(millis <= 0xffff_ffff);
        let full: u128 = millis * 1_000_000;
        proof {
            lemma_share(full as int, distance as int);
            assert(full * distance <= 0xffff_ffff * 1_000_000 * 0x4000_0000) by (nonlinear_arith)
                requires
                    0 <= full <= 0xffff_ffff * 1_000_000,
                    0 <= distance <= 0x4000_0000,
            ;
        }
        self.duration = (full * distance / (FULLY_VISIBLE as u128)) as u64;
        self.started = now;
    }
}

/// Turning around does not jump: as long as the way back takes any time, the
/// visibility right after it is the one right before.
pub proof fn law_reversing_preserves_visibility(
    before: DesktopMotion,
    after: DesktopMotion,
    now: u64,
    eased: u32,
)
    requires
        before.well_formed(),
        after.well_formed(),
        after.started == now,
        after.from == before.visibility(now, eased),
        after.duration > 0 || after.from == after.to,
    ensures
        after.visibility(now, 0) == before.visibility(now, eased),
{
    if after.to >= after.from {
        lemma_share(after.to - after.from, 0);
    } else {
        lemma_share(after.from - after.to, 0);
    }
}

/// Every motion ends exactly at fully visible or fully hidden.
pub proof fn law_motion_reaches_its_end(motion: DesktopMotion, now: u64, eased: u32)
    requires
        motion.well_formed(),
        now >= motion.started + motion.duration,
    ensures
        motion.visibility(now, eased) == motion.to,
        motion.visibility(now, eased) == 0 || motion.visibility(now, eased) == FULLY_VISIBLE,
{
}

/// The visibility never leaves the span between the motion's ends.
pub proof fn law_visibility_stays_between(motion: DesktopMotion, now: u64, eased: u32)
    requires
        motion.well_formed(),
    ensures
        0 <= motion.visibility(now, eased) <= FULLY_VISIBLE,
        motion.from <= motion.to ==> motion.from <= motion.visibility(now, eased) <= motion.to,
        motion.to <= motion.from ==> motion.to <= motion.visibility(now, eased) <= motion.from,
{
    let share = if eased <= FULLY_VISIBLE {
        eased as int
    } else {
        FULLY_VISIBLE as int
    };
    if motion.to >= motion.from {
        lemma_share(motion.to - motion.from, share);
    } else {
        lemma_share(motion.from - motion.to, share);
    }
}

/// A managed window as far as the desktop is concerned.
#[derive(Clone, Copy, Debug, PartialEq, Eq, Structural)]
pub struct DesktopWindow {
    pub handle: NativeHandle,
    pub state: WindowState,
    /// The window is in a workspace that is on screen.
    pub workspace_displayed: bool,
}

/// The window covers the desktop.
pub open spec fn covers_desktop(window: DesktopWindow) -> bool {
    window.state !is Minimized && window.workspace_displayed
}

/// The handles of the windows that cover the desktop.
pub open spec fn covering(windows: Seq<DesktopWindow>) -> Seq<NativeHandle> {
    windows.filter(|window: DesktopWindow| covers_desktop(window)).map_values(
        |window: DesktopWindow| window.handle,
    )
}

/// Finds the windows that cover the desktop.
pub fn covering_windows(windows: &Vec<DesktopWindow>) -> (handles: Vec<NativeHandle>)
    ensures
        handles@ == covering(windows@),
{
    let mut handles: Vec<NativeHandle> = Vec::new();
    let mut i: usize = 0;
    assert(covering(windows@.take(0)) =~= seq![]) by {
        reveal(Seq::filter);
    }
    while i < windows.len()
        invariant
            i <= windows.len(),
            handles@ =~= covering(windows@.take(i as int)),
        decreases windows.len() - i,
    {
        proof {
            reveal(Seq::filter);
            assert(windows@.take(i + 1).drop_last() =~= windows@.take(i as int));
        }
        if !windows[i].state.is_minimized() && windows[i].workspace_displayed {
            handles.push(windows[i].handle);
        }
        i += 1;
    }
    assert(windows@.take(windows@.len() as int) =~= windows@);
    handles
}

/// A managed window as far as its preview is concerned.
#[derive(Clone, Copy, Debug, PartialEq, Eq, Structural)]
pub struct PreviewWindow {
    pub window: DesktopWindow,
    pub has_focus: bool,
    /// The bounds of the window's monitor, if it is on one.
    pub monitor: Option<Rect>,
}

/// A preview to create over a window's native frame.
#[derive(Clone, Copy, Debug, PartialEq, Eq, Structural)]
pub struct Preview {
    pub handle: NativeHandle,
    pub viewport: Rect,
    /// The opacity of the visible window.
    pub opacity: u8,
    /// The preview appears; otherwise it starts out in place of the window.
    pub incoming: bool,
}

/// The window gets a preview.
pub open spec fn previewed(window: PreviewWindow) -> bool {
    covers_desktop(window.window) && window.monitor is Some
}

/// The preview of the window.
pub open spec fn preview_of(
    window: PreviewWindow,
    effects: WindowEffectsConfig,
    showing: bool,
) -> Preview {
    Preview {
        handle: window.window.handle,
        viewport: window.monitor->0,
        opacity: if window.has_focus {
            effects.focused_window.effective_opacity()
        } else {
            effects.other_windows.effective_opacity()
        },
        incoming: showing,
    }
}

/// The previews of the windows that cover the desktop.
pub open spec fn previews_of(
    windows: Seq<PreviewWindow>,
    effects: WindowEffectsConfig,
    showing: bool,
) -> Seq<Preview> {
    windows.filter(|window: PreviewWindow| previewed(window)).map_values(
        |window: PreviewWindow| preview_of(window, effects, showing),
    )
}

/// Lays out the previews of the windows that cover the desktop. A window that
/// is on no monitor gets none.
pub fn create_animation(
    windows: &Vec<PreviewWindow>,
    effects: &WindowEffectsConfig,
    showing: bool,
) -> (previews: Vec<Preview>)
    ensures
        previews@ == previews_of(windows@, *effects, showing),
{
    let mut previews: Vec<Preview> = Vec::new();
    let mut i: usize = 0;
    assert(previews_of(windows@.take(0), *effects, showing) =~= seq![]) by {
        reveal(Seq::filter);
    }
    while i < windows.len()
        invariant
            i <= windows.len(),
            previews@ =~= previews_of(windows@.take(i as int), *effects, showing),
        decreases windows.len() - i,
    {
        proof {
            reveal(Seq::filter);
            assert(windows@.take(i + 1).drop_last() =~= windows@.take(i as int));
        }
        let window = windows[i];
        if !window.window.state.is_minimized() && window.window.workspace_displayed {
            if let Some(viewport) = window.monitor {
                let opacity: u8 = effects.for_window(window.has_focus).alpha();
                previews.push(
                    Preview {
                        handle: window.window.handle,
                        viewport,
                        opacity,
                        incoming: showing,
                    },
                );
            }
        }
        i += 1;
    }
    assert(windows@.take(windows@.len() as int) =~= windows@);
    previews
}

/// What a toggle does first.
#[derive(Clone, Copy, Debug, PartialEq, Eq, Structural)]
pub enum ToggleStart {
    /// The running animation was turned around.
    Reversed,
    /// Create the previews of the windows that come back.
    CreateShowPreview,
    /// Bring the windows back at once.
    Restore,
    /// End the animations, synchronise, and hide the windows that cover the
    /// desktop.
    Hide,
}

/// Starts toggling the desktop.
///
/// Toggling during the animation turns it around. Otherwise windows that are
/// hidden come back, and windows that are not are hidden.
pub fn toggle_desktop(
    state: &mut WmState,
    options: DesktopToggleOptions,
    now: u64,
    eased: u32,
) -> (start: ToggleStart)
    requires
        old(state).desktop_animation matches Some(motion) ==> motion.well_formed(),
    ensures
        start == if old(state).desktop_animation is Some {
            ToggleStart::Reversed
        } else if old(state).desktop_windows is None {
            ToggleStart::Hide
        } else if options.enabled && options.show_duration_ms > 0 {
            ToggleStart::CreateShowPreview
        } else {
            ToggleStart::Restore
        },
        start is Reversed <==> old(state).desktop_animation is Some,
        start is Hide ==> old(state).desktop_windows is None,
        start is CreateShowPreview || start is Restore ==> old(state).desktop_windows is Some,
        start is CreateShowPreview ==> options.enabled && options.show_duration_ms > 0,
        start is Restore ==> !options.enabled || options.show_duration_ms == 0,
        *final(state) == (WmState {
            desktop_animation: final(state).desktop_animation,
            ..*old(state)
        }),
        old(state).desktop_animation is None ==> final(state).desktop_animation is None,
        old(state).desktop_animation matches Some(before) ==> {
            &&& final(state).desktop_animation matches Some(after)
            &&& after.well_formed()
            &&& after.started == now
            &&& after.options == before.options
            &&& after.from == before.visibility(now, eased)
            &&& after.to == FULLY_VISIBLE - before.to
            &&& after.duration == DesktopMotion::scaled_duration(
                before.options,
                after.from as int,
                after.to,
            )
        },
{
    if let Some(motion) = state.desktop_animation {
        let mut reversed = motion;
        reversed.reverse(now, eased);
        state.desktop_animation = Some(reversed);
        return ToggleStart::Reversed;
    }
    if state.desktop_windows.is_none() {
        return ToggleStart::Hide;
    }
    if options.enabled && options.show_duration_ms > 0 {
        ToggleStart::CreateShowPreview
    } else {
        ToggleStart::Restore
    }
}

/// Takes note that the previews of the windows that come back could be created
/// or not. Returns whether they are to be drawn and animated; otherwise the
/// windows are brought back at once.
pub fn show_preview_ready(
    state: &mut WmState,
    options: DesktopToggleOptions,
    created: bool,
    now: u64,
) -> (animating: bool)
    ensures
        animating == created,
        *final(state) == (WmState {
            desktop_animation: final(state).desktop_animation,
            ..*old(state)
        }),
        !created ==> final(state).desktop_animation == old(state).desktop_animation,
        created ==> {
            &&& final(state).desktop_animation matches Some(motion)
            &&& motion.well_formed()
            &&& motion.started == now
            &&& motion.options == options
            &&& motion.from == 0
            &&& motion.to == FULLY_VISIBLE
            &&& motion.duration == options.show_duration_ms * NANOS_PER_MILLI
        },
{
    if created {
        state.desktop_animation = Some(DesktopMotion::new(true, options, now));
    }
    created
}

/// How the windows that cover the desktop are hidden.
#[derive(Clone, Copy, Debug, PartialEq, Eq, Structural)]
pub enum HideStart {
    /// No window covers the desktop.
    Nothing,
    /// Create the previews of the windows first.
    CreateHidePreview,
    /// Hide the windows without a preview.
    Cloak,
}

/// Decides how the windows that cover the desktop are hidden.
pub fn begin_hide(covering: &Vec<NativeHandle>, options: DesktopToggleOptions) -> (start: HideStart)
    ensures
        start == if covering@.len() == 0 {
            HideStart::Nothing
        } else if options.enabled && options.hide_duration_ms > 0 {
            HideStart::CreateHidePreview
        } else {
            HideStart::Cloak
        },
        start is Nothing <==> covering@.len() == 0,
        start is CreateHidePreview <==> covering@.len() > 0 && options.enabled
            && options.hide_duration_ms > 0,
{
    if covering.len() == 0 {
        HideStart::Nothing
    } else if options.enabled && options.hide_duration_ms > 0 {
        HideStart::CreateHidePreview
    } else {
        HideStart::Cloak
    }
}

/// How the hiding of the windows goes on.
pub enum HideNext {
    Cloak(NativeHandle),
    /// Uncloak these windows again and give up.
    RollBack(Vec<NativeHandle>),
    /// All windows are hidden.
    Hidden,
}

/// The windows being hidden, one after the other.
pub struct Hiding {
    pub windows: Vec<NativeHandle>,
    /// How many of them are hidden.
    pub hidden: usize,
}

impl Hiding {
    pub open spec fn well_formed(self) -> bool {
        self.hidden < self.windows@.len()
    }

    /// Starts with the first window.
    pub fn begin(windows: Vec<NativeHandle>) -> (result: (Hiding, NativeHandle))
        requires
            windows@.len() > 0,
        ensures
            result.0.windows@ == windows@,
            result.0.hidden == 0,
            result.0.well_formed(),
            result.1 == windows@[0],
    {
        let first: NativeHandle = windows[0];
        (Hiding { windows, hidden: 0 }, first)
    }

    /// Takes note that the window could be cloaked or not. If it could not, the
    /// windows that were cloaked before are uncloaked again.
    pub fn cloaked(&mut self, succeeded: bool) -> (next: HideNext)
        requires
            old(self).well_formed(),
        ensures
            final(self).windows == old(self).windows,
            final(self).hidden == if succeeded {
                old(self).hidden + 1
            } else {
                old(self).hidden as int
            },
            !succeeded ==> (next matches HideNext::RollBack(windows) && windows@
                == old(self).windows@.take(old(self).hidden as int)),
            succeeded && old(self).hidden + 1 < old(self).windows@.len() ==> next
                == HideNext::Cloak(old(self).windows@[old(self).hidden + 1])
                && final(self).well_formed(),
            succeeded && old(self).hidden + 1 == old(self).windows@.len() ==> next is Hidden,
    {
        if !succeeded {
            let mut hidden: Vec<NativeHandle> = Vec::new();
            let mut i: usize = 0;
            while i < self.hidden
                invariant
                    i <= self.hidden < self.windows@.len(),
                    hidden@ =~= self.windows@.take(i as int),
                decreases self.hidden - i,
            {
                hidden.push(self.windows[i]);
                i += 1;
            }
            return HideNext::RollBack(hidden);
        }
        let count: usize = self.windows.len();
        self.hidden += 1;
        if self.hidden < count {
            HideNext::Cloak(self.windows[self.hidden])
        } else {
            HideNext::Hidden
        }
    }
}

/// Takes note that all windows are hidden. Native focus goes to the desktop
/// next. Returns whether there is a preview to draw and animate; its clock
/// starts only now, since cloaking several windows can be slow.
pub fn desktop_shown(
    state: &mut WmState,
    hidden: Vec<NativeHandle>,
    options: DesktopToggleOptions,
    preview: bool,
    now: u64,
) -> (animating: bool)
    ensures
        animating == preview,
        *final(state) == (WmState {
            desktop_windows: final(state).desktop_windows,
            desktop_animation: final(state).desktop_animation,
            focus_outline: false,
            resize_cursor_clip: false,
            ..*old(state)
        }),
        final(state).desktop_windows == Some(hidden),
        final(state).desktop_animation is Some <==> preview,
        final(state).desktop_animation matches Some(motion) ==> {
            &&& motion.well_formed()
            &&& motion.started == now
            &&& motion.options == options
            &&& motion.from == FULLY_VISIBLE
            &&& motion.to == 0
            &&& motion.duration == options.hide_duration_ms * NANOS_PER_MILLI
        },
{
    state.desktop_windows = Some(hidden);
    state.desktop_animation = if preview {
        Some(DesktopMotion::new(false, options, now))
    } else {
        None
    };
    state.focus_outline = false;
    state.resize_cursor_clip = false;
    preview
}

/// Starts bringing the windows back, for instance before another command, a
/// pause or a change of monitors. The animation is over; its last preview is
/// kept until the returned windows are uncloaked.
pub fn restore_desktop(state: &mut WmState) -> (windows: Option<Vec<NativeHandle>>)
    ensures
        windows == old(state).desktop_windows,
        *final(state) == (WmState {
            desktop_windows: None,
            desktop_animation: None,
            ..*old(state)
        }),
{
    state.desktop_animation = None;
    state.desktop_windows.take()
}

/// What became of a hidden window.
#[derive(Clone, Copy, Debug, PartialEq, Eq, Structural)]
pub enum RestoreResult {
    /// The window no longer exists.
    Gone,
    Uncloaked,
    Failed,
}

/// A hidden window and what became of it.
#[derive(Clone, Copy, Debug, PartialEq, Eq, Structural)]
pub struct RestoreOutcome {
    pub handle: NativeHandle,
    pub result: RestoreResult,
}

/// The windows that are still hidden although they exist.
pub open spec fn still_hidden(outcomes: Seq<RestoreOutcome>) -> Seq<NativeHandle> {
    outcomes.filter(|outcome: RestoreOutcome| outcome.result is Failed).map_values(
        |outcome: RestoreOutcome| outcome.handle,
    )
}

/// Ends the restoration of hidden windows.
///
/// Windows that could not be uncloaked stay on record, so that the toggle can
/// be tried again. If there are none, everything is redrawn without animations
/// and focus and effects are brought back.
pub fn finish_restore(state: &mut WmState, outcomes: &Vec<RestoreOutcome>) -> (result: Result<
    (),
    SyncError,
>)
    requires
        old(state).desktop_windows is None,
    ensures
        result is Err <==> still_hidden(outcomes@).len() > 0,
        result matches Err(error) ==> {
            &&& error == SyncError::Native
            &&& final(state).desktop_windows matches Some(windows)
            &&& windows@ == still_hidden(outcomes@)
            &&& *final(state) == (WmState {
                desktop_windows: final(state).desktop_windows,
                ..*old(state)
            })
        },
        result is Ok ==> {
            &&& *final(state) == (WmState {
                pending_sync: final(state).pending_sync,
                ..*old(state)
            })
            &&& final(state).pending_sync.animations_suppressed
            &&& final(state).pending_sync.needs_focus_update
            &&& final(state).pending_sync.needs_all_effects_update
            &&& final(state).pending_sync.containers_to_redraw@ == crate::state::queued(
                old(state).pending_sync.containers_to_redraw@,
                old(state).root,
            )
            &&& final(state).pending_sync.workspaces_to_reorder == old(
                state,
            ).pending_sync.workspaces_to_reorder
            &&& final(state).pending_sync.needs_cursor_jump == old(
                state,
            ).pending_sync.needs_cursor_jump
            &&& final(state).pending_sync.needs_focused_effect_update == old(
                state,
            ).pending_sync.needs_focused_effect_update
        },
{
    let mut failed: Vec<NativeHandle> = Vec::new();
    let mut i: usize = 0;
    assert(still_hidden(outcomes@.take(0)) =~= seq![]) by {
        reveal(Seq::filter);
    }
    while i < outcomes.len()
        invariant
            i <= outcomes.len(),
            failed@ =~= still_hidden(outcomes@.take(i as int)),
        decreases outcomes.len() - i,
    {
        proof {
            reveal(Seq::filter);
            assert(outcomes@.take(i + 1).drop_last() =~= outcomes@.take(i as int));
        }
        if matches!(outcomes[i].result, RestoreResult::Failed) {
            failed.push(outcomes[i].handle);
        }
        i += 1;
    }
    assert(outcomes@.take(outcomes@.len() as int) =~= outcomes@);
    if failed.len() > 0 {
        state.desktop_windows = Some(failed);
        return Err(SyncError::Native);
    }
    state.pending_sync.animations_suppressed = true;
    let root: u128 = state.root;
    state.pending_sync.queue_container_to_redraw(root);
    state.pending_sync.needs_focus_update = true;
    state.pending_sync.needs_all_effects_update = true;
    Ok(())
}

/// What a frame of the desktop animation amounts to.
#[derive(Clone, Copy, Debug, PartialEq, Eq, Structural)]
pub enum DesktopTick {
    /// No animation is running.
    Idle,
    /// Draw the previews; the animation goes on.
    Running,
    /// Draw the previews, bring the windows back and synchronise.
    Restore,
    /// Draw the previews; the animation is over and the windows stay hidden.
    Ended,
}

/// Moves the desktop animation on to `now`.
pub fn tick_desktop_animation(state: &mut WmState, now: u64) -> (tick: DesktopTick)
    requires
        old(state).desktop_animation matches Some(motion) ==> motion.well_formed(),
    ensures
        tick == match old(state).desktop_animation {
            None => DesktopTick::Idle,
            Some(motion) => if crate::animation::elapsed_at(motion.started, now)
                < motion.duration {
                DesktopTick::Running
            } else if motion.to == FULLY_VISIBLE {
                DesktopTick::Restore
            } else {
                DesktopTick::Ended
            },
        },
        tick is Idle <==> old(state).desktop_animation is None,
        old(state).desktop_animation matches Some(motion) ==> {
            &&& tick is Running <==> motion.duration > 0 && now < motion.started + motion.duration
            &&& tick is Restore ==> motion.to == FULLY_VISIBLE
            &&& tick is Ended ==> motion.to == 0
        },
        *final(state) == (WmState {
            desktop_animation: if tick is Ended {
                None
            } else {
                old(state).desktop_animation
            },
            ..*old(state)
        }),
{
    let motion = match state.desktop_animation {
        Some(motion) => motion,
        None => return DesktopTick::Idle,
    };
    if now.saturating_sub(motion.started) < motion.duration {
        return DesktopTick::Running;
    }
    if motion.to == FULLY_VISIBLE {
        DesktopTick::Restore
    } else {
        state.desktop_animation = None;
        DesktopTick::Ended
    }
}

/// Hiding the windows and bringing them all back leaves no window on record:
/// if no window failed to come back, nothing stays hidden.
pub proof fn law_nothing_stays_hidden(outcomes: Seq<RestoreOutcome>)
    requires
        forall|i: int| 0 <= i < outcomes.len() ==> !((#[trigger] outcomes[i]).result is Failed),
    ensures
        still_hidden(outcomes).len() == 0,
{
    let failed = |outcome: RestoreOutcome| outcome.result is Failed;
    if outcomes.filter(failed).len() > 0 {
        outcomes.lemma_filter_pred(failed, 0);
        let kept = outcomes.filter(failed);
        assert(kept.contains(kept[0]));
        outcomes.lemma_filter_contains_rev(failed, kept[0]);
        let k = choose|k: int| 0 <= k < outcomes.len() && outcomes[k] == kept[0];
        assert(outcomes[k].result is Failed);
    }
}

/// A quotient is the largest whole number that does not exceed the fraction.
proof fn lemma_quotient(n: int, d: int)
    requires
        0 < d,
    ensures
        (n / d) * d <= n < (n / d + 1) * d,
{
    vstd::arithmetic::div_mod::lemma_fundamental_div_mod(n, d);
    vstd::arithmetic::div_mod::lemma_mod_bound(n, d);
    assert((n / d + 1) * d == (n / d) * d + d) by (nonlinear_arith);
    assert((n / d) * d == d * (n / d)) by (nonlinear_arith);
}

/// While a motion runs, the visibility has covered the eased share of the way,
/// rounded down. Before and after, it stands at the ends.
pub proof fn law_visibility_covers_the_eased_share(motion: DesktopMotion, now: u64, eased: u32)
    requires
        motion.from <= 0x4000_0000,
        motion.to <= 0x4000_0000,
        eased <= 0x4000_0000,
    ensures
        ({
            let value = motion.visibility(now, eased);
            let running = 0 < motion.duration && now < motion.started + motion.duration;
            &&& running && motion.from <= motion.to ==> (value - motion.from) * 0x4000_0000 <= (
            motion.to - motion.from) * eased < (value - motion.from + 1) * 0x4000_0000
            &&& running && motion.to <= motion.from ==> (motion.from - value) * 0x4000_0000 <= (
            motion.from - motion.to) * eased < (motion.from - value + 1) * 0x4000_0000
            &&& !running ==> value == motion.to
        }),
{
    lemma_quotient((motion.to - motion.from) * eased, FULLY_VISIBLE as int);
    lemma_quotient((motion.from - motion.to) * eased, FULLY_VISIBLE as int);
    if motion.from == motion.to {
        assert((motion.from - motion.to) * eased == 0) by (nonlinear_arith)
            requires
                motion.from == motion.to,
        ;
    }
}

/// An eased share beyond one counts as one.
pub proof fn law_overshoots_end_the_motion(motion: DesktopMotion, now: u64, eased: u32)
    requires
        motion.from <= 0x4000_0000,
        motion.to <= 0x4000_0000,
        0x4000_0000 <= eased,
    ensures
        motion.visibility(now, eased) == motion.to,
{
    let full = FULLY_VISIBLE as int;
    if motion.from <= motion.to {
        vstd::arithmetic::div_mod::lemma_div_by_multiple(motion.to - motion.from, full);
    } else {
        vstd::arithmetic::div_mod::lemma_div_by_multiple(motion.from - motion.to, full);
    }
}

/// A motion takes the share of its direction's duration that its distance is of
/// the whole way, rounded down to nanoseconds.
pub proof fn law_shorter_ways_take_less_time(options: DesktopToggleOptions, from: u32)
    requires
        from <= 0x4000_0000,
    ensures
        ({
            let showing = DesktopMotion::scaled_duration(options, from as int, 0x4000_0000);
            let hiding = DesktopMotion::scaled_duration(options, from as int, 0);
            &&& showing * 0x4000_0000 <= options.show_duration_ms * 1_000_000 * (0x4000_0000
                - from) < (showing + 1) * 0x4000_0000
            &&& hiding * 0x4000_0000 <= options.hide_duration_ms * 1_000_000 * from < (hiding + 1)
                * 0x4000_0000
        }),
{
    lemma_quotient(
        options.show_duration_ms * 1_000_000 * (0x4000_0000 - from),
        FULLY_VISIBLE as int,
    );
    lemma_quotient(options.hide_duration_ms * 1_000_000 * from, FULLY_VISIBLE as int);
}

/// The windows that cover the desktop are exactly those of displayed workspaces
/// that are not minimized, in order.
pub proof fn law_displayed_windows_cover_the_desktop(windows: Seq<DesktopWindow>) -> (places: Seq<
    int,
>)
    ensures
        crate::selection::selects(
            places,
            windows.len() as int,
            |i: int| windows[i].workspace_displayed && windows[i].state !is Minimized,
        ),
        covering(windows).len() == places.len(),
        forall|k: int|
            0 <= k < places.len() ==> #[trigger] covering(windows)[k] == windows[places[k]].handle,
{
    let covers = |window: DesktopWindow| covers_desktop(window);
    let places = crate::selection::lemma_filter_map(
        windows,
        covers,
        |window: DesktopWindow| window.handle,
    );
    crate::selection::lemma_selects_alike(
        places,
        windows.len() as int,
        |i: int| covers(windows[i]),
        |i: int| windows[i].workspace_displayed && windows[i].state !is Minimized,
    );
    places
}

/// Exactly the windows that cover the desktop and are on a monitor get a
/// preview, in order. It is drawn on the window's monitor, with the opacity that
/// the window has when it is visible.
pub proof fn law_previews_stand_for_their_windows(
    windows: Seq<PreviewWindow>,
    effects: WindowEffectsConfig,
    showing: bool,
) -> (places: Seq<int>)
    ensures
        crate::selection::selects(
            places,
            windows.len() as int,
            |i: int|
                {
                    &&& windows[i].window.workspace_displayed
                    &&& windows[i].window.state !is Minimized
                    &&& windows[i].monitor is Some
                },
        ),
        previews_of(windows, effects, showing).len() == places.len(),
        forall|k: int|
            0 <= k < places.len() ==> {
                let preview = #[trigger] previews_of(windows, effects, showing)[k];
                let window = windows[places[k]];
                let group = if window.has_focus {
                    effects.focused_window
                } else {
                    effects.other_windows
                };
                &&& preview.handle == window.window.handle
                &&& window.monitor == Some(preview.viewport)
                &&& group.transparency_enabled ==> preview.opacity == group.opacity
                &&& !group.transparency_enabled ==> preview.opacity == u8::MAX
                &&& preview.incoming == showing
            },
{
    let picked = |window: PreviewWindow| previewed(window);
    let places = crate::selection::lemma_filter_map(
        windows,
        picked,
        |window: PreviewWindow| preview_of(window, effects, showing),
    );
    let wanted = |i: int|
        {
            &&& windows[i].window.workspace_displayed
            &&& windows[i].window.state !is Minimized
            &&& windows[i].monitor is Some
        };
    crate::selection::lemma_selects_alike(
        places,
        windows.len() as int,
        |i: int| picked(windows[i]),
        wanted,
    );
    places
}

/// The windows that stay on record are exactly those that could not be brought
/// back, in order.
pub proof fn law_failed_windows_stay_on_record(outcomes: Seq<RestoreOutcome>) -> (places: Seq<int>)
    ensures
        crate::selection::selects(
            places,
            outcomes.len() as int,
            |i: int| outcomes[i].result !is Gone && outcomes[i].result !is Uncloaked,
        ),
        still_hidden(outcomes).len() == places.len(),
        forall|k: int|
            0 <= k < places.len() ==> #[trigger] still_hidden(outcomes)[k]
                == outcomes[places[k]].handle,
{
    let failed = |outcome: RestoreOutcome| outcome.result is Failed;
    let places = crate::selection::lemma_filter_map(
        outcomes,
        failed,
        |outcome: RestoreOutcome| outcome.handle,
    );
    crate::selection::lemma_selects_alike(
        places,
        outcomes.len() as int,
        |i: int| failed(outcomes[i]),
        |i: int| outcomes[i].result !is Gone && outcomes[i].result !is Uncloaked,
    );
    places
}

} // verus!
