//! Screen geometry in integer pixels.
use vstd::prelude::*;

use crate::animation::Progress;

verus! {

/// A point on the virtual screen.
#[derive(Clone, Copy, Debug, PartialEq, Eq, Structural)]
pub struct Point {
    pub x: i32,
    pub y: i32,
}

/// An axis-aligned rectangle given by its four edges.
#[derive(Clone, Copy, Debug, PartialEq, Eq, Structural)]
pub struct Rect {
    pub left: i32,
    pub top: i32,
    pub right: i32,
    pub bottom: i32,
}

/// Whether `v` is a 32-bit signed integer.
pub open spec fn fits_i32(v: int) -> bool {
    i32::MIN <= v <= i32::MAX
}

/// `start` moved towards `end` by `progress` of the distance, with the step
/// rounded down to whole pixels.
pub open spec fn interpolated(start: int, end: int, progress: Progress) -> int {
    if end >= start {
        start + ((end - start) * progress.elapsed) / (progress.duration as int)
    } else {
        start - ((start - end) * progress.elapsed) / (progress.duration as int)
    }
}

impl Rect {
    /// The horizontal extent as an exact integer.
    pub open spec fn spec_width(self) -> int {
        self.right - self.left
    }

    /// The vertical extent as an exact integer.
    pub open spec fn spec_height(self) -> int {
        self.bottom - self.top
    }

    /// The rectangle's width and height are 32-bit integers.
    pub open spec fn measurable(self) -> bool {
        fits_i32(self.spec_width()) && fits_i32(self.spec_height())
    }

    /// Creates a rectangle from its top-left corner and its size.
    pub fn from_xy(x: i32, y: i32, width: i32, height: i32) -> (rect: Rect)
        requires
            fits_i32(x + width),
            fits_i32(y + height),
        ensures
            rect == (Rect {
                left: x,
                top: y,
                right: (x + width) as i32,
                bottom: (y + height) as i32,
            }),
            rect.measurable(),
            rect.spec_width() == width,
            rect.spec_height() == height,
    {
        Rect { left: x, top: y, right: x + width, bottom: y + height }
    }

    /// The left edge.
    pub fn x(&self) -> (x: i32)
        ensures
            x == self.left,
    {
        self.left
    }

    /// The top edge.
    pub fn y(&self) -> (y: i32)
        ensures
            y == self.top,
    {
        self.top
    }

    pub fn width(&self) -> (width: i32)
        requires
            self.measurable(),
        ensures
            width == self.spec_width(),
    {
        self.right - self.left
    }

    pub fn height(&self) -> (height: i32)
        requires
            self.measurable(),
        ensures
            height == self.spec_height(),
    {
        self.bottom - self.top
    }

    /// Whether both rectangles have the same width and the same height.
    pub fn same_size(&self, other: &Rect) -> (same: bool)
        ensures
            same == (self.spec_width() == other.spec_width() && self.spec_height()
                == other.spec_height()),
    {
        let width: i64 = self.right as i64 - self.left as i64;
        let height: i64 = self.bottom as i64 - self.top as i64;
        let other_width: i64 = other.right as i64 - other.left as i64;
        let other_height: i64 = other.bottom as i64 - other.top as i64;
        width == other_width && height == other_height
    }

    /// The coordinate halfway between `low` and `high`, rounded towards `low`.
    pub open spec fn midpoint(low: int, high: int) -> int {
        if high >= low {
            low + (high - low) / 2
        } else {
            low - (low - high) / 2
        }
    }

    /// The point halfway between the edges.
    pub fn center_point(&self) -> (point: Point)
        ensures
            point.x == Self::midpoint(self.left as int, self.right as int),
            point.y == Self::midpoint(self.top as int, self.bottom as int),
    {
        Point { x: halfway(self.left, self.right), y: halfway(self.top, self.bottom) }
    }

    /// Whether the point lies inside the rectangle or on one of its edges.
    pub open spec fn covers(self, point: Point) -> bool {
        self.left <= point.x <= self.right && self.top <= point.y <= self.bottom
    }

    pub fn contains_point(&self, point: &Point) -> (inside: bool)
        ensures
            inside == self.covers(*point),
    {
        point.x >= self.left && point.x <= self.right && point.y >= self.top && point.y
            <= self.bottom
    }

    /// The rectangle on the way from this one to `end`: every edge has covered
    /// the given share of its distance.
    pub fn interpolate(&self, end: &Rect, progress: Progress) -> (rect: Rect)
        requires
            progress.well_formed(),
        ensures
            rect.left == interpolated(self.left as int, end.left as int, progress),
            rect.top == interpolated(self.top as int, end.top as int, progress),
            rect.right == interpolated(self.right as int, end.right as int, progress),
            rect.bottom == interpolated(self.bottom as int, end.bottom as int, progress),
    {
        Rect {
            left: step_towards(self.left, end.left, progress),
            top: step_towards(self.top, end.top, progress),
            right: step_towards(self.right, end.right, progress),
            bottom: step_towards(self.bottom, end.bottom, progress),
        }
    }
}

/// The coordinate halfway between two edges.
fn halfway(low: i32, high: i32) -> (mid: i32)
    ensures
        mid == Rect::midpoint(low as int, high as int),
{
    if high >= low {
        let half: i64 = (high as i64 - low as i64) / 2;
        (low as i64 + half) as i32
    } else {
        let half: i64 = (low as i64 - high as i64) / 2;
        (low as i64 - half) as i32
    }
}

/// A share of a distance never exceeds the distance.
proof fn lemma_share_bounded(distance: int, elapsed: int, duration: int)
    requires
        0 <= distance,
        0 <= elapsed <= duration,
        0 < duration,
    ensures
        0 <= (distance * elapsed) / duration <= distance,
        0 <= distance * elapsed <= distance * duration,
{
    assert(0 <= distance * elapsed <= distance * duration) by (nonlinear_arith)
        requires
            0 <= distance,
            0 <= elapsed <= duration,
    ;
    vstd::arithmetic::div_mod::lemma_div_is_ordered(
        distance * elapsed,
        distance * duration,
        duration,
    );
    vstd::arithmetic::div_mod::lemma_div_by_multiple(distance, duration);
    vstd::arithmetic::div_mod::lemma_div_pos_is_pos(distance * elapsed, duration);
}

/// One coordinate's step towards its end.
fn step_towards(start: i32, end: i32, progress: Progress) -> (value: i32)
    requires
        progress.well_formed(),
    ensures
        value == interpolated(start as int, end as int, progress),
{
    let elapsed: u128 = progress.elapsed as u128;
    let duration: u128 = progress.duration as u128;
    if end >= start {
        let distance: u128 = (end as i64 - start as i64) as u128;
        proof {
            lemma_share_bounded(end - start, progress.elapsed as int, progress.duration as int);
            assert((end - start) * progress.duration <= 0x1_0000_0000 * 0x1_0000_0000_0000_0000)
                by (nonlinear_arith)
                requires
                    0 <= end - start <= 0x1_0000_0000,
                    0 <= progress.duration <= 0x1_0000_0000_0000_0000,
            ;
        }
        let step: u128 = distance * elapsed / duration;
        (start as i64 + step as i64) as i32
    } else {
        let distance: u128 = (start as i64 - end as i64) as u128;
        proof {
            lemma_share_bounded(start - end, progress.elapsed as int, progress.duration as int);
            assert((start - end) * progress.duration <= 0x1_0000_0000 * 0x1_0000_0000_0000_0000)
                by (nonlinear_arith)
                requires
                    0 <= start - end <= 0x1_0000_0000,
                    0 <= progress.duration <= 0x1_0000_0000_0000_0000,
            ;
        }
        let step: u128 = distance * elapsed / duration;
        (start as i64 - step as i64) as i32
    }
}

/// An interpolated rectangle starts at its start, ends at its end and never
/// leaves the span between the two.
pub proof fn law_interpolation_stays_between(start: int, end: int, progress: Progress)
    requires
        progress.well_formed(),
    ensures
        progress.elapsed == 0 ==> interpolated(start, end, progress) == start,
        progress.elapsed == progress.duration ==> interpolated(start, end, progress) == end,
        start <= end ==> start <= interpolated(start, end, progress) <= end,
        end <= start ==> end <= interpolated(start, end, progress) <= start,
{
    let distance = if end >= start { end - start } else { start - end };
    lemma_share_bounded(distance, progress.elapsed as int, progress.duration as int);
    vstd::arithmetic::div_mod::lemma_div_by_multiple(distance, progress.duration as int);
    if progress.elapsed == 0 {
        assert(distance * progress.elapsed == 0);
        vstd::arithmetic::div_mod::lemma_basic_div(0, progress.duration as int);
    }
}

/// A quotient is the largest whole number that does not exceed the fraction.
proof fn lemma_quotient(n: int, d: int)
    requires
        0 < d,
    ensures
        (n / d) * d <= n < (n / d + 1) * d,
{
    vstd::arithmetic::div_mod::lemma_fundamental_div_mod(n, d);
    vstd::arithmetic::div_mod::lemma_mod_bound(n, d);
    assert((n / d + 1) * d == (n / d) * d + d) by (nonlinear_arith);
    assert((n / d) * d == d * (n / d)) by (nonlinear_arith);
}

/// The step that an interpolation takes is the elapsed share of the distance,
/// rounded down to whole pixels.
pub proof fn law_interpolation_takes_the_share(start: int, end: int, progress: Progress)
    requires
        0 < progress.duration,
    ensures
        ({
            let value = interpolated(start, end, progress);
            &&& start <= end ==> (value - start) * progress.duration <= (end - start)
                * progress.elapsed < (value - start + 1) * progress.duration
            &&& end <= start ==> (start - value) * progress.duration <= (start - end)
                * progress.elapsed < (start - value + 1) * progress.duration
        }),
{
    lemma_quotient((end - start) * progress.elapsed, progress.duration as int);
    lemma_quotient((start - end) * progress.elapsed, progress.duration as int);
    if start == end {
        assert((start - end) * progress.elapsed == 0) by (nonlinear_arith)
            requires
                start == end,
        ;
        vstd::arithmetic::div_mod::lemma_basic_div(0, progress.duration as int);
    }
}

/// The point halfway is equally far from both ends, but for one pixel that
/// falls to the far end.
pub proof fn law_the_midpoint_is_halfway(low: int, high: int)
    ensures
        ({
            let mid = Rect::midpoint(low, high);
            &&& low <= high ==> 0 <= (high - mid) - (mid - low) <= 1
            &&& high <= low ==> 0 <= (mid - high) - (low - mid) <= 1
        }),
{
}

/// The points that a rectangle covers are those that no edge keeps out.
pub proof fn law_edges_keep_points_out(rect: Rect, point: Point)
    ensures
        !rect.covers(point) <==> point.x < rect.left || rect.right < point.x || point.y < rect.top
            || rect.bottom < point.y,
{
}

} // verus!
