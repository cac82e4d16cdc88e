//! Decides whether two watched positions are close enough for a trigger to
//! fire.
//!
//! Two distance policies exist side by side. Under [`DistancePolicy::RootOfSum`]
//! the distance is the square root of the sum of the two axis gaps, measured in
//! world units. Under [`DistancePolicy::Euclidean`] it is the square root of the
//! sum of their squares. A trigger fires when its distance is at most the
//! radius. Both sides of that comparison are non-negative, so it is decided on
//! their squares, which are whole numbers.

use vstd::prelude::*;
use crate::geometry::Position;
use crate::units::{gap, span, UNIT};

verus! {

/// How a trigger measures the distance between two positions.
#[derive(Clone, Copy, Debug, PartialEq, Eq, Structural)]
pub enum DistancePolicy {
    /// Square root of `|dx| + |dy|`.
    RootOfSum,
    /// Square root of `dx * dx + dy * dy`.
    Euclidean,
}

/// The sum of the two axis gaps between `a` and `b`, in thousandths.
pub open spec fn axis_sum(a: Position, b: Position) -> int {
    gap(a.x as int, b.x as int) + gap(a.y as int, b.y as int)
}

/// The sum of the squared axis gaps between `a` and `b`.
pub open spec fn square_sum(a: Position, b: Position) -> int {
    gap(a.x as int, b.x as int) * gap(a.x as int, b.x as int) + gap(a.y as int, b.y as int) * gap(
        a.y as int,
        b.y as int,
    )
}

/// The square of the distance from `a` to `b` under `policy`, on the scale of
/// a squared radius in thousandths.
///
/// An axis sum of `s` thousandths is `s / UNIT` world units. Its root, brought
/// back to thousandths, is `UNIT * sqrt(s / UNIT)`, whose square is `UNIT * s`.
pub open spec fn squared_distance(policy: DistancePolicy, a: Position, b: Position) -> int {
    match policy {
        DistancePolicy::RootOfSum => UNIT * axis_sum(a, b),
        DistancePolicy::Euclidean => square_sum(a, b),
    }
}

/// Whether a trigger of the given radius fires: the distance is at most the
/// radius, the bound included.
pub open spec fn activated_spec(
    policy: DistancePolicy,
    a: Position,
    b: Position,
    radius: u32,
) -> bool {
    squared_distance(policy, a, b) <= radius * radius
}

/// Decides whether a trigger at `a` with the given radius fires for a body at
/// `b`.
#[verifier::when_used_as_spec(activated_spec)]
pub fn activated(policy: DistancePolicy, a: Position, b: Position, radius: u32) -> (fires: bool)
    ensures
        fires == activated_spec(policy, a, b, radius),
{
    let dx: u64 = span(a.x, b.x);
    let dy: u64 = span(a.y, b.y);
    assert(radius * radius <= 0xffff_ffff * 0xffff_ffff) by (nonlinear_arith)
        requires
            radius <= 0xffff_ffff,
    ;
    let reach: u128 = (radius as u128) * (radius as u128);
    match policy {
        DistancePolicy::RootOfSum => {
            let sum: u128 = (dx + dy) as u128;
            let unit: u128 = UNIT as u128;
            assert(unit * sum <= 1000 * 0x2_0000_0000) by (nonlinear_arith)
                requires
                    unit == 1000,
                    sum <= 0x2_0000_0000,
            ;
            unit * sum <= reach
        },
        DistancePolicy::Euclidean => {
            assert(dx * dx <= 0xffff_ffff * 0xffff_ffff) by (nonlinear_arith)
                requires
                    dx <= 0xffff_ffff,
            ;
            assert(dy * dy <= 0xffff_ffff * 0xffff_ffff) by (nonlinear_arith)
                requires
                    dy <= 0xffff_ffff,
            ;
            let squares: u128 = (dx as u128) * (dx as u128) + (dy as u128) * (dy as u128);
            squares <= reach
        },
    }
}

/// Whether a trigger fires between two nodes of which either may be unknown:
/// both are known, and they are within the radius of each other.
pub open spec fn reached_spec(
    policy: DistancePolicy,
    own: Option<Position>,
    other: Option<Position>,
    radius: u32,
) -> bool {
    own is Some && other is Some && activated_spec(policy, own->0, other->0, radius)
}

/// Decides whether a trigger fires between two nodes of which either may be
/// unknown. Nothing fires on a node that is not known.
#[verifier::when_used_as_spec(reached_spec)]
pub fn reached(
    policy: DistancePolicy,
    own: Option<Position>,
    other: Option<Position>,
    radius: u32,
) -> (fires: bool)
    ensures
        fires == reached_spec(policy, own, other, radius),
{
    match (own, other) {
        (Some(a), Some(b)) => activated(policy, a, b, radius),
        _ => false,
    }
}

/// Swapping the two positions does not change whether a trigger fires, under
/// either policy.
pub proof fn lemma_activated_symmetric(
    policy: DistancePolicy,
    a: Position,
    b: Position,
    radius: u32,
)
    ensures
        activated_spec(policy, a, b, radius) == activated_spec(policy, b, a, radius),
        reached_spec(policy, Some(a), Some(b), radius) == reached_spec(
            policy,
            Some(b),
            Some(a),
            radius,
        ),
{
}

/// A trigger that fires at one radius fires at every larger radius.
pub proof fn lemma_activated_monotonic(
    policy: DistancePolicy,
    a: Position,
    b: Position,
    small: u32,
    large: u32,
)
    requires
        small <= large,
        activated_spec(policy, a, b, small),
    ensures
        activated_spec(policy, a, b, large),
{
    assert(small * small <= large * large) by (nonlinear_arith)
        requires
            0 <= small <= large,
    ;
}

} // verus!
