//! Borders, title bars, corners and transparency.
use vstd::prelude::*;

use crate::model::{ContainerId, CornerStyle, WindowState};
use crate::state::WmState;

verus! {

#[derive(Clone, Copy, Debug, PartialEq, Eq, Structural)]
pub struct Color {
    pub r: u8,
    pub g: u8,
    pub b: u8,
    pub a: u8,
}

/// The effects of a group of windows.
#[derive(Clone, Copy, Debug, PartialEq, Eq, Structural)]
pub struct WindowEffectConfig {
    pub border_enabled: bool,
    pub border_color: Color,
    pub hide_title_bar_enabled: bool,
    pub corner_style_enabled: bool,
    pub corner_style: CornerStyle,
    pub transparency_enabled: bool,
    /// The opacity as an alpha value.
    pub opacity: u8,
}

/// The effects of all windows.
#[derive(Clone, Copy, Debug, PartialEq, Eq, Structural)]
pub struct WindowEffectsConfig {
    pub focused_window: WindowEffectConfig,
    pub other_windows: WindowEffectConfig,
}

/// A native effect.
#[derive(Clone, Copy, Debug, PartialEq, Eq, Structural)]
pub enum EffectAction {
    /// Sets the border, or removes it.
    SetBorderColor(Option<Color>),
    /// Sets the border once more after a short while, for windows that change
    /// it themselves.
    ScheduleBorderColor(Option<Color>),
    SetTitleBarVisibility(bool),
    SetCornerStyle(CornerStyle),
    SetTransparency(u8),
}

impl WindowEffectConfig {
    /// The border that the window gets. A fullscreen window has none.
    pub open spec fn border(self, state: WindowState) -> Option<Color> {
        if self.border_enabled && state !is Fullscreen {
            Some(self.border_color)
        } else {
            None
        }
    }

    /// The opacity that the window gets; a disabled effect makes it opaque.
    pub open spec fn effective_opacity(self) -> u8 {
        if self.transparency_enabled {
            self.opacity
        } else {
            255
        }
    }

    pub open spec fn effective_corner_style(self) -> CornerStyle {
        if self.corner_style_enabled {
            self.corner_style
        } else {
            CornerStyle::Default
        }
    }

    pub fn alpha(&self) -> (alpha: u8)
        ensures
            alpha == self.effective_opacity(),
    {
        if self.transparency_enabled {
            self.opacity
        } else {
            255
        }
    }

    pub fn corners(&self) -> (style: CornerStyle)
        ensures
            style == self.effective_corner_style(),
    {
        if self.corner_style_enabled {
            self.corner_style
        } else {
            CornerStyle::Default
        }
    }
}

impl WindowEffectsConfig {
    /// The effects of a window. The focused window's border may be coloured by
    /// the active binding mode.
    pub open spec fn effective(
        self,
        is_focused: bool,
        focused_border_color: Color,
    ) -> WindowEffectConfig {
        if is_focused {
            WindowEffectConfig { border_color: focused_border_color, ..self.focused_window }
        } else {
            self.other_windows
        }
    }

    pub open spec fn border_actions(self, state: WindowState, config: WindowEffectConfig) -> Seq<
        EffectAction,
    > {
        if self.focused_window.border_enabled || self.other_windows.border_enabled {
            seq![
                EffectAction::SetBorderColor(config.border(state)),
                EffectAction::ScheduleBorderColor(config.border(state)),
            ]
        } else {
            seq![]
        }
    }

    pub open spec fn title_bar_actions(self, config: WindowEffectConfig) -> Seq<EffectAction> {
        if self.focused_window.hide_title_bar_enabled || self.other_windows.hide_title_bar_enabled {
            seq![EffectAction::SetTitleBarVisibility(!config.hide_title_bar_enabled)]
        } else {
            seq![]
        }
    }

    pub open spec fn corner_actions(self, config: WindowEffectConfig) -> Seq<EffectAction> {
        if self.focused_window.corner_style_enabled || self.other_windows.corner_style_enabled {
            seq![EffectAction::SetCornerStyle(config.effective_corner_style())]
        } else {
            seq![]
        }
    }

    pub open spec fn transparency_actions(self, config: WindowEffectConfig) -> Seq<EffectAction> {
        if self.focused_window.transparency_enabled || self.other_windows.transparency_enabled {
            seq![EffectAction::SetTransparency(config.effective_opacity())]
        } else {
            seq![]
        }
    }

    /// The native effects of a window. An effect that is disabled for all
    /// windows is left alone; one that is enabled for some is set or reset.
    pub open spec fn actions(
        self,
        state: WindowState,
        is_focused: bool,
        focused_border_color: Color,
    ) -> Seq<EffectAction> {
        let config = self.effective(is_focused, focused_border_color);
        self.border_actions(state, config) + self.title_bar_actions(config) + self.corner_actions(
            config,
        ) + self.transparency_actions(config)
    }

    /// The effects of the group that the window belongs to.
    pub open spec fn of_window(self, is_focused: bool) -> WindowEffectConfig {
        if is_focused {
            self.focused_window
        } else {
            self.other_windows
        }
    }

    /// The effects of the group that the window belongs to.
    pub fn for_window(&self, is_focused: bool) -> (config: WindowEffectConfig)
        ensures
            config == self.of_window(is_focused),
    {
        if is_focused {
            self.focused_window
        } else {
            self.other_windows
        }
    }

    /// Sets the border of a window, now and once more a little later.
    fn apply_border_effect(
        &self,
        actions: &mut Vec<EffectAction>,
        state: WindowState,
        config: &WindowEffectConfig,
    )
        ensures
            final(actions)@ =~= old(actions)@ + self.border_actions(state, *config),
    {
        if self.focused_window.border_enabled || self.other_windows.border_enabled {
            let color = if config.border_enabled && !state.is_fullscreen() {
                Some(config.border_color)
            } else {
                None
            };
            actions.push(EffectAction::SetBorderColor(color));
            actions.push(EffectAction::ScheduleBorderColor(color));
        }
    }

    fn apply_hide_title_bar_effect(
        &self,
        actions: &mut Vec<EffectAction>,
        config: &WindowEffectConfig,
    )
        ensures
            final(actions)@ =~= old(actions)@ + self.title_bar_actions(*config),
    {
        if self.focused_window.hide_title_bar_enabled || self.other_windows.hide_title_bar_enabled {
            actions.push(EffectAction::SetTitleBarVisibility(!config.hide_title_bar_enabled));
        }
    }

    fn apply_corner_effect(&self, actions: &mut Vec<EffectAction>, config: &WindowEffectConfig)
        ensures
            final(actions)@ =~= old(actions)@ + self.corner_actions(*config),
    {
        if self.focused_window.corner_style_enabled || self.other_windows.corner_style_enabled {
            actions.push(EffectAction::SetCornerStyle(config.corners()));
        }
    }

    fn apply_transparency_effect(
        &self,
        actions: &mut Vec<EffectAction>,
        config: &WindowEffectConfig,
    )
        ensures
            final(actions)@ =~= old(actions)@ + self.transparency_actions(*config),
    {
        if self.focused_window.transparency_enabled || self.other_windows.transparency_enabled {
            actions.push(EffectAction::SetTransparency(config.alpha()));
        }
    }
}

/// Works out the native effects of a window.
pub fn apply_window_effects(
    state: WindowState,
    is_focused: bool,
    config: &WindowEffectsConfig,
    focused_border_color: Color,
) -> (actions: Vec<EffectAction>)
    ensures
        actions@ == config.actions(state, is_focused, focused_border_color),
{
    let effect_config = if is_focused {
        WindowEffectConfig { border_color: focused_border_color, ..config.focused_window }
    } else {
        config.other_windows
    };
    let mut actions: Vec<EffectAction> = Vec::new();
    config.apply_border_effect(&mut actions, state, &effect_config);
    assert(actions@ =~= config.border_actions(state, effect_config));
    config.apply_hide_title_bar_effect(&mut actions, &effect_config);
    config.apply_corner_effect(&mut actions, &effect_config);
    config.apply_transparency_effect(&mut actions, &effect_config);
    actions
}

/// The border to set when a scheduled one comes due: none at all if effects
/// were updated or paused since, and no border for a window that was natively
/// maximized in the meantime.
pub fn due_border_color(
    scheduled_generation: u64,
    current_generation: u64,
    natively_maximized: Option<bool>,
    color: Option<Color>,
) -> (due: Option<Option<Color>>)
    ensures
        due is Some <==> scheduled_generation == current_generation,
        due matches Some(due) ==> due == if natively_maximized == Some(true) {
            None
        } else {
            color
        },
{
    if scheduled_generation != current_generation {
        return None;
    }
    match natively_maximized {
        Some(true) => Some(None),
        _ => Some(color),
    }
}

/// A part of an update of the effects.
#[derive(Clone, Copy, Debug, PartialEq, Eq, Structural)]
pub enum EffectStep {
    /// Moves the outline to the focused container.
    SyncFocusOutline,
    /// Gives the window its effects.
    Apply { id: ContainerId, is_focused: bool },
    /// Gives the window the opacity of its running animation, if that has one:
    /// the effects may have reset it.
    ReapplyAnimatedOpacity(ContainerId),
}

/// The windows that may lose the effects of the focused window: all windows,
/// or only the one that had them before.
pub open spec fn effect_candidates(
    prev: Option<ContainerId>,
    windows: Seq<ContainerId>,
    update_all: bool,
) -> Seq<ContainerId> {
    if update_all {
        windows
    } else if prev is Some {
        seq![prev->0]
    } else {
        seq![]
    }
}

/// The effects of the candidates that are not focused.
pub open spec fn unfocused_steps(candidates: Seq<ContainerId>, focused: ContainerId) -> Seq<
    EffectStep,
> {
    candidates.filter(|id: ContainerId| id != focused).map_values(
        |id: ContainerId| EffectStep::Apply { id, is_focused: false },
    )
}

/// The parts of an update: the outline, the focused window, of the others
/// either all or only the one that had focus before, and last the focused
/// window's animation.
pub open spec fn effect_steps(
    prev: Option<ContainerId>,
    focused: ContainerId,
    focused_is_window: bool,
    windows: Seq<ContainerId>,
    update_all: bool,
) -> Seq<EffectStep> {
    let unfocused = unfocused_steps(effect_candidates(prev, windows, update_all), focused);
    if focused_is_window {
        seq![
            EffectStep::SyncFocusOutline,
            EffectStep::Apply { id: focused, is_focused: true },
        ] + unfocused + seq![EffectStep::ReapplyAnimatedOpacity(focused)]
    } else {
        seq![EffectStep::SyncFocusOutline] + unfocused
    }
}

/// Moves the generation on and works out which windows' effects to update, in
/// order.
pub fn update_effects(
    state: &mut WmState,
    focused: ContainerId,
    focused_is_window: bool,
    windows: &Vec<ContainerId>,
    update_all: bool,
) -> (steps: Vec<EffectStep>)
    ensures
        *final(state) == (WmState {
            border_effect_generation: old(state).border_effect_generation.wrapping_add(1),
            prev_effects_window: if focused_is_window {
                Some(focused)
            } else {
                None
            },
            ..*old(state)
        }),
        steps@ == effect_steps(
            old(state).prev_effects_window,
            focused,
            focused_is_window,
            windows@,
            update_all,
        ),
{
    let prev = state.prev_effects_window;
    state.invalidate_borders();
    let mut steps: Vec<EffectStep> = Vec::new();
    steps.push(EffectStep::SyncFocusOutline);
    if focused_is_window {
        steps.push(EffectStep::Apply { id: focused, is_focused: true });
        state.prev_effects_window = Some(focused);
    } else {
        state.prev_effects_window = None;
    }
    let ghost head = steps@;
    let mut single: Vec<ContainerId> = Vec::new();
    if let Some(id) = prev {
        single.push(id);
    }
    let candidates: &Vec<ContainerId> = if update_all {
        windows
    } else {
        &single
    };
    assert(candidates@ =~= effect_candidates(prev, windows@, update_all));
    let mut i: usize = 0;
    assert(unfocused_steps(candidates@.take(0), focused) =~= seq![]) by {
        reveal(Seq::filter);
    }
    while i < candidates.len()
        invariant
            i <= candidates.len(),
            steps@ =~= head + unfocused_steps(candidates@.take(i as int), focused),
        decreases candidates.len() - i,
    {
        proof {
            reveal(Seq::filter);
            assert(candidates@.take(i + 1).drop_last() =~= candidates@.take(i as int));
        }
        if candidates[i] != focused {
            steps.push(EffectStep::Apply { id: candidates[i], is_focused: false });
        }
        i += 1;
    }
    assert(candidates@.take(candidates@.len() as int) =~= candidates@);
    assert(steps@ =~= head + unfocused_steps(candidates@, focused));
    if focused_is_window {
        steps.push(EffectStep::ReapplyAnimatedOpacity(focused));
    }
    assert(steps@ =~= effect_steps(prev, focused, focused_is_window, windows@, update_all));
    steps
}

proof fn lemma_unfocused_steps(candidates: Seq<ContainerId>, focused: ContainerId)
    ensures
        forall|k: int|
            0 <= k < unfocused_steps(candidates, focused).len() ==> {
                &&& #[trigger] unfocused_steps(candidates, focused)[k] is Apply
                &&& !unfocused_steps(candidates, focused)[k]->is_focused
                &&& unfocused_steps(candidates, focused)[k]->id != focused
            },
    decreases candidates.len(),
{
    reveal(Seq::filter);
    if candidates.len() > 0 {
        let front = unfocused_steps(candidates.drop_last(), focused);
        lemma_unfocused_steps(candidates.drop_last(), focused);
        assert(unfocused_steps(candidates, focused) =~= if candidates.last() != focused {
            front.push(EffectStep::Apply { id: candidates.last(), is_focused: false })
        } else {
            front
        });
    }
}

/// An update of the effects treats the focused window, and no other, as
/// focused.
pub proof fn law_only_the_focused_window_is_treated_as_focused(
    prev: Option<ContainerId>,
    focused: ContainerId,
    focused_is_window: bool,
    windows: Seq<ContainerId>,
    update_all: bool,
    i: int,
)
    requires
        0 <= i < effect_steps(prev, focused, focused_is_window, windows, update_all).len(),
    ensures
        effect_steps(
            prev,
            focused,
            focused_is_window,
            windows,
            update_all,
        )[i] matches EffectStep::Apply { id, is_focused } ==> is_focused == (id == focused),
{
    let candidates = effect_candidates(prev, windows, update_all);
    let unfocused = unfocused_steps(candidates, focused);
    lemma_unfocused_steps(candidates, focused);
    let head: int = if focused_is_window {
        2
    } else {
        1
    };
    if head <= i < head + unfocused.len() {
        assert(effect_steps(prev, focused, focused_is_window, windows, update_all)[i]
            == unfocused[i - head]);
    }
}

/// A border scheduled before an update of the effects is not set after it.
pub proof fn law_updates_cancel_scheduled_borders(generation: u64)
    ensures
        generation.wrapping_add(1) != generation,
{
}

/// A fullscreen window never has a border.
pub proof fn law_fullscreen_windows_have_no_border(
    config: WindowEffectsConfig,
    state: WindowState,
    is_focused: bool,
    color: Color,
    i: int,
)
    requires
        state is Fullscreen,
        0 <= i < config.actions(state, is_focused, color).len(),
    ensures
        config.actions(state, is_focused, color)[i] matches EffectAction::SetBorderColor(border)
            ==> border is None,
        config.actions(state, is_focused, color)[i] matches EffectAction::ScheduleBorderColor(
            border,
        ) ==> border is None,
{
}

/// Every effect of a window is that of its group: the focused window's, or that
/// of all others. The border's colour is the given one for the focused window
/// and the configured one for any other; a fullscreen window has none. An effect
/// that the window's group does not enable is reset.
pub proof fn law_windows_get_the_effects_of_their_group(
    config: WindowEffectsConfig,
    state: WindowState,
    is_focused: bool,
    focused_border_color: Color,
    i: int,
)
    requires
        0 <= i < config.actions(state, is_focused, focused_border_color).len(),
    ensures
        ({
            let action = config.actions(state, is_focused, focused_border_color)[i];
            let group = if is_focused {
                config.focused_window
            } else {
                config.other_windows
            };
            match action {
                EffectAction::SetBorderColor(border) | EffectAction::ScheduleBorderColor(border) => {
                    &&& border is Some <==> group.border_enabled && !(state is Fullscreen)
                    &&& border is Some && is_focused ==> border == Some(focused_border_color)
                    &&& border is Some && !is_focused ==> border == Some(
                        config.other_windows.border_color,
                    )
                },
                EffectAction::SetTitleBarVisibility(visible) => visible
                    != group.hide_title_bar_enabled,
                EffectAction::SetCornerStyle(style) => {
                    &&& group.corner_style_enabled ==> style == group.corner_style
                    &&& !group.corner_style_enabled ==> style is Default
                },
                EffectAction::SetTransparency(alpha) => {
                    &&& group.transparency_enabled ==> alpha == group.opacity
                    &&& !group.transparency_enabled ==> alpha == u8::MAX
                },
            }
        }),
{
}

/// What the focused window's border looks like is nothing to any other window.
pub proof fn law_other_windows_ignore_the_focused_color(
    config: WindowEffectsConfig,
    state: WindowState,
    first: Color,
    second: Color,
)
    ensures
        config.actions(state, false, first) == config.actions(state, false, second),
{
}

/// The kind of an effect.
pub open spec fn kind_of(action: EffectAction) -> int {
    match action {
        EffectAction::SetBorderColor(_) => 0,
        EffectAction::ScheduleBorderColor(_) => 1,
        EffectAction::SetTitleBarVisibility(_) => 2,
        EffectAction::SetCornerStyle(_) => 3,
        EffectAction::SetTransparency(_) => 4,
    }
}

/// Some effect of the kind is applied.
pub open spec fn has_kind(actions: Seq<EffectAction>, kind: int) -> bool {
    exists|i: int| 0 <= i < actions.len() && kind_of(#[trigger] actions[i]) == kind
}

/// An effect is applied to a window, focused or not, exactly if it is enabled
/// for some group of windows, and once; a border is set now and once more later,
/// in the same colour.
pub proof fn law_enabled_effects_are_applied(
    config: WindowEffectsConfig,
    state: WindowState,
    is_focused: bool,
    color: Color,
)
    ensures
        ({
            let actions = config.actions(state, is_focused, color);
            let border = config.focused_window.border_enabled || config.other_windows.border_enabled;
            &&& has_kind(actions, 0) <==> border
            &&& has_kind(actions, 1) <==> border
            &&& border ==> (actions[0] matches EffectAction::SetBorderColor(now) && actions[1]
                == EffectAction::ScheduleBorderColor(now))
            &&& has_kind(actions, 2) <==> config.focused_window.hide_title_bar_enabled
                || config.other_windows.hide_title_bar_enabled
            &&& has_kind(actions, 3) <==> config.focused_window.corner_style_enabled
                || config.other_windows.corner_style_enabled
            &&& has_kind(actions, 4) <==> config.focused_window.transparency_enabled
                || config.other_windows.transparency_enabled
            &&& forall|i: int, j: int|
                0 <= i < j < actions.len() ==> kind_of(#[trigger] actions[i]) < kind_of(
                    #[trigger] actions[j],
                )
        }),
{
    let actions = config.actions(state, is_focused, color);
    let border = config.focused_window.border_enabled || config.other_windows.border_enabled;
    let title = config.focused_window.hide_title_bar_enabled
        || config.other_windows.hide_title_bar_enabled;
    let corner = config.focused_window.corner_style_enabled
        || config.other_windows.corner_style_enabled;
    let transparent = config.focused_window.transparency_enabled
        || config.other_windows.transparency_enabled;
    let a: int = if border { 2 } else { 0 };
    let b: int = if title { a + 1 } else { a };
    let c: int = if corner { b + 1 } else { b };
    let d: int = if transparent { c + 1 } else { c };
    assert(actions.len() == d);
    assert(border ==> kind_of(actions[0]) == 0 && kind_of(actions[1]) == 1);
    assert(title ==> kind_of(actions[a]) == 2);
    assert(corner ==> kind_of(actions[b]) == 3);
    assert(transparent ==> kind_of(actions[c]) == 4);
}

/// An overlay of a window looks like the window: it has the opacity and the
/// corners of the window's group.
pub proof fn law_overlays_look_like_their_window(config: WindowEffectsConfig, is_focused: bool)
    ensures
        config.of_window(is_focused) == (if is_focused {
            config.focused_window
        } else {
            config.other_windows
        }),
        config.of_window(is_focused).transparency_enabled ==> config.of_window(
            is_focused,
        ).effective_opacity() == config.of_window(is_focused).opacity,
        !config.of_window(is_focused).transparency_enabled ==> config.of_window(
            is_focused,
        ).effective_opacity() == u8::MAX,
        config.of_window(is_focused).corner_style_enabled ==> config.of_window(
            is_focused,
        ).effective_corner_style() == config.of_window(is_focused).corner_style,
        !config.of_window(is_focused).corner_style_enabled ==> config.of_window(
            is_focused,
        ).effective_corner_style() is Default,
{
}

proof fn lemma_unfocused_contains(
    candidates: Seq<ContainerId>,
    focused: ContainerId,
    id: ContainerId,
)
    ensures
        unfocused_steps(candidates, focused).contains(
            EffectStep::Apply { id, is_focused: false },
        ) <==> candidates.contains(id) && id != focused,
    decreases candidates.len(),
{
    reveal(Seq::filter);
    let steps = unfocused_steps(candidates, focused);
    let step = EffectStep::Apply { id, is_focused: false };
    if candidates.len() > 0 {
        let front = candidates.drop_last();
        let before = unfocused_steps(front, focused);
        lemma_unfocused_contains(front, focused, id);
        assert(steps =~= if candidates.last() != focused {
            before.push(EffectStep::Apply { id: candidates.last(), is_focused: false })
        } else {
            before
        });
        if steps.contains(step) {
            let k = choose|k: int| 0 <= k < steps.len() && steps[k] == step;
            if k < before.len() {
                assert(before[k] == step);
                let m = choose|m: int| 0 <= m < front.len() && front[m] == id;
                assert(candidates[m] == id);
            } else {
                assert(candidates[candidates.len() - 1] == id);
            }
        }
        if candidates.contains(id) && id != focused {
            let m = choose|m: int| 0 <= m < candidates.len() && candidates[m] == id;
            if m < front.len() {
                assert(front[m] == id);
                let k = choose|k: int| 0 <= k < before.len() && before[k] == step;
                assert(steps[k] == step);
            } else {
                assert(steps[steps.len() - 1] == step);
            }
        }
    }
}

/// Which windows an update reaches: the focused one, if it is a window, and of
/// the others either all or the one that had focus before. The outline comes
/// first, and the focused window's animation last.
pub proof fn law_updates_reach_their_windows(
    prev: Option<ContainerId>,
    focused: ContainerId,
    focused_is_window: bool,
    windows: Seq<ContainerId>,
    update_all: bool,
    id: ContainerId,
)
    ensures
        ({
            let steps = effect_steps(prev, focused, focused_is_window, windows, update_all);
            &&& steps.len() > 0
            &&& steps[0] is SyncFocusOutline
            &&& steps.contains(EffectStep::Apply { id, is_focused: true }) <==> focused_is_window
                && id == focused
            &&& steps.contains(EffectStep::Apply { id, is_focused: false }) <==> id != focused && (
            if update_all {
                windows.contains(id)
            } else {
                prev == Some(id)
            })
            &&& focused_is_window ==> steps.last() == EffectStep::ReapplyAnimatedOpacity(focused)
            &&& !focused_is_window ==> !steps.contains(EffectStep::ReapplyAnimatedOpacity(id))
        }),
{
    let candidates = effect_candidates(prev, windows, update_all);
    let unfocused = unfocused_steps(candidates, focused);
    let steps = effect_steps(prev, focused, focused_is_window, windows, update_all);
    lemma_unfocused_steps(candidates, focused);
    lemma_unfocused_contains(candidates, focused, id);
    let head: int = if focused_is_window {
        2
    } else {
        1
    };
    let other = EffectStep::Apply { id, is_focused: false };
    assert forall|k: int| 0 <= k < unfocused.len() implies steps[head + k] == #[trigger] unfocused[k] by {}
    if unfocused.contains(other) {
        let k = choose|k: int| 0 <= k < unfocused.len() && unfocused[k] == other;
        assert(steps[head + k] == other);
    }
    if steps.contains(other) {
        let k = choose|k: int| 0 <= k < steps.len() && steps[k] == other;
        assert(unfocused[k - head] == other);
    }
    let own = EffectStep::Apply { id, is_focused: true };
    if steps.contains(own) {
        let k = choose|k: int| 0 <= k < steps.len() && steps[k] == own;
        if head <= k < head + unfocused.len() {
            assert(steps[k] == unfocused[k - head]);
        }
    }
    if focused_is_window {
        assert(steps[1] == EffectStep::Apply { id: focused, is_focused: true });
    } else if steps.contains(EffectStep::ReapplyAnimatedOpacity(id)) {
        let k = choose|k: int|
            0 <= k < steps.len() && steps[k] == EffectStep::ReapplyAnimatedOpacity(id);
        assert(steps[k] == unfocused[k - head]);
    }
    if !update_all && prev is Some {
        assert(candidates[0] == prev->0);
    }
}

/// Of the candidates, those that are not focused are gone through in order.
proof fn lemma_unfocused_places(candidates: Seq<ContainerId>, focused: ContainerId) -> (places: Seq<
    int,
>)
    ensures
        crate::selection::selects(
            places,
            candidates.len() as int,
            |i: int| candidates[i] != focused,
        ),
        unfocused_steps(candidates, focused).len() == places.len(),
        forall|k: int|
            0 <= k < places.len() ==> unfocused_steps(candidates, focused)[k] == (
            EffectStep::Apply { id: candidates[#[trigger] places[k]], is_focused: false }),
    decreases candidates.len(),
{
    reveal(Seq::filter);
    let steps = unfocused_steps(candidates, focused);
    if candidates.len() == 0 {
        assert(steps =~= seq![]);
        Seq::empty()
    } else {
        let front = candidates.drop_last();
        let n = front.len() as int;
        let before = unfocused_steps(front, focused);
        let earlier = lemma_unfocused_places(front, focused);
        assert(steps =~= if candidates.last() != focused {
            before.push(EffectStep::Apply { id: candidates.last(), is_focused: false })
        } else {
            before
        });
        let places = crate::selection::lemma_select_next(
            earlier,
            n,
            |i: int| front[i] != focused,
            |i: int| candidates[i] != focused,
        );
        assert forall|k: int| 0 <= k < places.len() implies steps[k] == (EffectStep::Apply {
            id: candidates[#[trigger] places[k]],
            is_focused: false,
        }) by {
            if k < earlier.len() {
                assert(places[k] == earlier[k]);
                assert(0 <= earlier[k] < n);
                assert(steps[k] == before[k]);
            }
        }
        places
    }
}

/// An update of all windows goes through those that are not focused in their
/// order, each once, right behind the focused one. One of the focused window
/// alone reaches at most one other window.
pub proof fn law_updates_keep_the_order(
    prev: Option<ContainerId>,
    focused: ContainerId,
    focused_is_window: bool,
    windows: Seq<ContainerId>,
) -> (places: Seq<int>)
    ensures
        crate::selection::selects(places, windows.len() as int, |i: int| windows[i] != focused),
        ({
            let steps = effect_steps(prev, focused, focused_is_window, windows, true);
            let few = effect_steps(prev, focused, focused_is_window, windows, false);
            let head: int = if focused_is_window {
                2
            } else {
                1
            };
            let tail: int = if focused_is_window {
                1
            } else {
                0
            };
            &&& steps.len() == head + places.len() + tail
            &&& forall|k: int|
                0 <= k < places.len() ==> steps[head + k] == (EffectStep::Apply {
                    id: windows[#[trigger] places[k]],
                    is_focused: false,
                })
            &&& few.len() == head + tail + (if prev is Some && prev != Some(focused) {
                1int
            } else {
                0
            })
        }),
{
    let places = lemma_unfocused_places(windows, focused);
    let unfocused = unfocused_steps(windows, focused);
    let steps = effect_steps(prev, focused, focused_is_window, windows, true);
    let head: int = if focused_is_window {
        2
    } else {
        1
    };
    assert forall|k: int| 0 <= k < places.len() implies steps[head + k] == (EffectStep::Apply {
        id: windows[#[trigger] places[k]],
        is_focused: false,
    }) by {
        assert(steps[head + k] == unfocused[k]);
    }
    let candidates = effect_candidates(prev, windows, false);
    let single = lemma_unfocused_places(candidates, focused);
    let wanted = |i: int| candidates[i] != focused;
    if single.len() > 0 {
        assert(0 <= single[0] < candidates.len() && wanted(single[0]));
    }
    if single.len() > 1 {
        assert(single[0] < single[1]);
        assert(0 <= single[1] < candidates.len());
    }
    if prev is Some && prev != Some(focused) {
        assert(candidates[0] == prev->0);
        assert(wanted(0));
        assert(single.contains(0));
    }
    places
}

} // verus!
