//! The iris wipe of a workspace switch: a hole that grows from a point until
//! it uncovers the whole monitor.
use vstd::prelude::*;

use crate::geometry::{Point, Rect};

verus! {

/// A queued iris wipe.
#[derive(Clone, Copy, Debug, PartialEq, Eq, Structural)]
pub struct IrisSwitchRequest {
    pub monitor_x: i32,
    pub monitor_y: i32,
    pub monitor_width: i32,
    pub monitor_height: i32,
    pub monitor_handle: isize,
    pub origin_x: i32,
    pub origin_y: i32,
}

/// The square of the distance between the point and the origin of the wipe.
pub open spec fn squared_distance(x: int, y: int, origin_x: int, origin_y: int) -> int {
    (x - origin_x) * (x - origin_x) + (y - origin_y) * (y - origin_y)
}

impl IrisSwitchRequest {
    pub open spec fn right(self) -> int {
        self.monitor_x + self.monitor_width
    }

    pub open spec fn bottom(self) -> int {
        self.monitor_y + self.monitor_height
    }

    /// The monitor's corners, and their distances from the origin, are 32-bit
    /// integers.
    pub open spec fn computable(self) -> bool {
        &&& crate::geometry::fits_i32(self.right())
        &&& crate::geometry::fits_i32(self.bottom())
        &&& crate::geometry::fits_i32(self.monitor_x - self.origin_x)
        &&& crate::geometry::fits_i32(self.right() - self.origin_x)
        &&& crate::geometry::fits_i32(self.monitor_y - self.origin_y)
        &&& crate::geometry::fits_i32(self.bottom() - self.origin_y)
    }

    /// A point lies within the radius around the origin.
    pub open spec fn reaches(self, radius: int, x: int, y: int) -> bool {
        squared_distance(x, y, self.origin_x as int, self.origin_y as int) <= radius * radius
    }

    /// A hole of the radius uncovers all corners of the monitor.
    pub open spec fn uncovers(self, radius: int) -> bool {
        &&& self.reaches(radius, self.monitor_x as int, self.monitor_y as int)
        &&& self.reaches(radius, self.right(), self.monitor_y as int)
        &&& self.reaches(radius, self.monitor_x as int, self.bottom())
        &&& self.reaches(radius, self.right(), self.bottom())
    }
}

/// A larger factor gives a larger square.
proof fn lemma_square_monotone(a: int, b: int)
    requires
        0 <= a <= b,
    ensures
        a * a <= b * b,
{
    assert(a * a <= b * b) by (nonlinear_arith)
        requires
            0 <= a <= b,
    ;
}

fn distance(x: i32, y: i32, origin: Point) -> (squared: u64)
    requires
        crate::geometry::fits_i32(x - origin.x),
        crate::geometry::fits_i32(y - origin.y),
    ensures
        squared == squared_distance(x as int, y as int, origin.x as int, origin.y as int),
{
    let dx: i64 = x as i64 - origin.x as i64;
    let dy: i64 = y as i64 - origin.y as i64;
    proof {
        assert(0 <= dx * dx <= 0x8000_0000 * 0x8000_0000) by (nonlinear_arith)
            requires
                -0x8000_0000 <= dx <= 0x8000_0000,
        ;
        assert(0 <= dy * dy <= 0x8000_0000 * 0x8000_0000) by (nonlinear_arith)
            requires
                -0x8000_0000 <= dy <= 0x8000_0000,
        ;
    }
    (dx * dx) as u64 + (dy * dy) as u64
}

fn larger(a: u64, b: u64) -> (max: u64)
    ensures
        max >= a,
        max >= b,
        max == a || max == b,
{
    if a >= b {
        a
    } else {
        b
    }
}

/// Returns the smallest iris radius that fully covers the monitor from the
/// origin: the distance to the farthest monitor corner, rounded up.
///
/// A distance beyond the range of the result gives the largest radius there is.
pub fn iris_max_radius(req: &IrisSwitchRequest) -> (radius: i32)
    requires
        req.computable(),
    ensures
        radius >= 0,
        req.uncovers(radius as int) || radius == i32::MAX,
        radius > 0 ==> !req.uncovers(radius - 1),
{
    let right: i32 = req.monitor_x + req.monitor_width;
    let bottom: i32 = req.monitor_y + req.monitor_height;
    let origin = Point { x: req.origin_x, y: req.origin_y };
    let farthest: u64 = larger(
        larger(
            distance(req.monitor_x, req.monitor_y, origin),
            distance(right, req.monitor_y, origin),
        ),
        larger(distance(req.monitor_x, bottom, origin), distance(right, bottom, origin)),
    );
    assert(forall|radius: int| req.uncovers(radius) <==> farthest <= radius * radius);
    // All radii below `low` are too small; `high` is large enough, or the largest.
    let mut low: u64 = 0;
    let mut high: u64 = 0x7fff_ffff;
    while low < high
        invariant
            low <= high <= 0x7fff_ffff,
            low > 0 ==> (low - 1) * (low - 1) < farthest,
            high < 0x7fff_ffff ==> farthest <= high * high,
        decreases high - low,
    {
        let middle: u64 = low + (high - low) / 2;
        proof {
            assert(0 <= middle * middle <= 0x7fff_ffff * 0x7fff_ffff) by (nonlinear_arith)
                requires
                    0 <= middle <= 0x7fff_ffff,
            ;
        }
        if middle * middle >= farthest {
            high = middle;
        } else {
            low = middle + 1;
            assert((low - 1) * (low - 1) == middle * middle);
        }
    }
    low as i32
}

/// A wipe that is about to start.
#[derive(Clone, Copy, Debug, PartialEq, Eq, Structural)]
pub struct IrisSwitch {
    pub monitor: Rect,
    pub origin: Point,
    pub max_radius: i32,
    pub monitor_handle: isize,
}

/// A step towards a wipe.
#[derive(Clone, Copy, Debug, PartialEq, Eq, Structural)]
pub enum IrisAction {
    /// Drops the overlay of a running wipe.
    ClearRunning,
    /// Covers the monitor with a picture of itself.
    CreateOverlay(Rect),
    Start(IrisSwitch),
    /// Composites the overlay before the windows below it are switched.
    Flush,
}

/// Takes the queued wipe, unless workspace switches are not animated.
pub fn begin_iris_switch(
    pending: &mut Option<IrisSwitchRequest>,
    switch_animation_enabled: bool,
    suppress_animations: bool,
) -> (switch: Option<IrisSwitch>)
    requires
        *old(pending) matches Some(req) ==> req.computable(),
    ensures
        !switch_animation_enabled || suppress_animations ==> switch is None && *final(pending)
            == *old(pending),
        switch_animation_enabled && !suppress_animations ==> {
            &&& *final(pending) is None
            &&& switch is Some <==> *old(pending) is Some
            &&& switch matches Some(switch) ==> {
                let req = (*old(pending))->0;
                &&& switch.monitor == (Rect {
                    left: req.monitor_x,
                    top: req.monitor_y,
                    right: req.right() as i32,
                    bottom: req.bottom() as i32,
                })
                &&& switch.origin == (Point { x: req.origin_x, y: req.origin_y })
                &&& switch.monitor_handle == req.monitor_handle
                &&& switch.max_radius >= 0
                &&& req.uncovers(switch.max_radius as int) || switch.max_radius == i32::MAX
                &&& switch.max_radius > 0 ==> !req.uncovers(switch.max_radius - 1)
            }
        },
{
    if !switch_animation_enabled || suppress_animations {
        return None;
    }
    match pending.take() {
        None => None,
        Some(req) => Some(
            IrisSwitch {
                monitor: Rect::from_xy(
                    req.monitor_x,
                    req.monitor_y,
                    req.monitor_width,
                    req.monitor_height,
                ),
                origin: Point { x: req.origin_x, y: req.origin_y },
                max_radius: iris_max_radius(&req),
                monitor_handle: req.monitor_handle,
            },
        ),
    }
}

/// Covers the monitor. A running wipe is dropped first, so that the new overlay
/// shows the workspace and not the old overlay.
pub fn before_iris_overlay(switch: IrisSwitch) -> (actions: Vec<IrisAction>)
    ensures
        actions@ == seq![IrisAction::ClearRunning, IrisAction::CreateOverlay(switch.monitor)],
{
    let mut actions: Vec<IrisAction> = Vec::new();
    actions.push(IrisAction::ClearRunning);
    actions.push(IrisAction::CreateOverlay(switch.monitor));
    actions
}

/// Starts the wipe once its overlay is there. Without an overlay the
/// workspaces are switched at once.
pub fn after_iris_overlay(switch: IrisSwitch, created: bool) -> (actions: Vec<IrisAction>)
    ensures
        created ==> actions@ == seq![IrisAction::Start(switch), IrisAction::Flush],
        !created ==> actions@ == Seq::<IrisAction>::empty(),
{
    let mut actions: Vec<IrisAction> = Vec::new();
    if created {
        actions.push(IrisAction::Start(switch));
        actions.push(IrisAction::Flush);
    }
    actions
}

/// Every larger hole uncovers the monitor too, so the wipe ends with the
/// monitor fully uncovered.
pub proof fn law_larger_holes_uncover_more(req: IrisSwitchRequest, radius: int, larger: int)
    requires
        0 <= radius <= larger,
        req.uncovers(radius),
    ensures
        req.uncovers(larger),
{
    lemma_square_monotone(radius, larger);
}

/// A square grows with the distance from zero, on either side.
proof fn lemma_square_between(low: int, value: int, high: int, bound: int)
    requires
        low <= value <= high,
        low * low <= bound,
        high * high <= bound,
    ensures
        value * value <= bound,
{
    assert(value * value <= low * low || value * value <= high * high) by (nonlinear_arith)
        requires
            low <= value <= high,
    ;
}

/// A hole uncovers the monitor exactly if no point of the monitor lies farther
/// from the origin than its radius.
pub proof fn law_uncovering_reaches_every_point(
    req: IrisSwitchRequest,
    radius: int,
    x: int,
    y: int,
) -> (far: (int, int))
    requires
        req.monitor_x <= x <= req.monitor_x + req.monitor_width,
        req.monitor_y <= y <= req.monitor_y + req.monitor_height,
    ensures
        req.monitor_x <= far.0 <= req.monitor_x + req.monitor_width,
        req.monitor_y <= far.1 <= req.monitor_y + req.monitor_height,
        !req.uncovers(radius) ==> (far.0 - req.origin_x) * (far.0 - req.origin_x) + (far.1
            - req.origin_y) * (far.1 - req.origin_y) > radius * radius,
        req.uncovers(radius) ==> (x - req.origin_x) * (x - req.origin_x) + (y - req.origin_y) * (y
            - req.origin_y) <= radius * radius,
{
    let left = req.monitor_x - req.origin_x;
    let right = req.monitor_x + req.monitor_width - req.origin_x;
    let top = req.monitor_y - req.origin_y;
    let bottom = req.monitor_y + req.monitor_height - req.origin_y;
    let dx = x - req.origin_x;
    let dy = y - req.origin_y;
    if req.uncovers(radius) {
        let high = if top * top >= bottom * bottom {
            top * top
        } else {
            bottom * bottom
        };
        lemma_square_between(top, dy, bottom, high);
        lemma_square_between(left, dx, right, radius * radius - high);
    }
    let far_x = req.monitor_x + req.monitor_width;
    let far_y = req.monitor_y + req.monitor_height;
    if left * left + top * top > radius * radius {
        (req.monitor_x as int, req.monitor_y as int)
    } else if right * right + top * top > radius * radius {
        (far_x, req.monitor_y as int)
    } else if left * left + bottom * bottom > radius * radius {
        (req.monitor_x as int, far_y)
    } else {
        (far_x, far_y)
    }
}

} // verus!
