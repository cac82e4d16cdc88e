//! Plain values that describe where a body is and how it moves.

use vstd::prelude::*;

verus! {

/// A point of the plane, in thousandths of a world unit.
#[derive(Clone, Copy, Debug, PartialEq, Eq, Structural)]
pub struct Position {
    pub x: i32,
    pub y: i32,
}

/// A linear velocity, in thousandths of a world unit per second. Its parts
/// are wider than a speed, so that every speed can be turned round.
#[derive(Clone, Copy, Debug, PartialEq, Eq, Structural)]
pub struct Velocity {
    pub x: i64,
    pub y: i64,
}

/// The direction a body faces, given by the sine and cosine of its rotation
/// angle in thousandths. Neither is ever beyond one whole, 1000.
#[derive(Debug)]
pub struct Heading {
    sin: i32,
    cos: i32,
}

/// How a body is turned and, where a place for it is known, where it is put.
/// Without a place the body stays where it is.
#[derive(Clone, Copy, Debug)]
pub struct Placement {
    pub position: Option<Position>,
    pub heading: Heading,
}

/// The position an entity keeps of a node it watches: what was just seen of
/// it, or else what was known before. A node that was never found has no
/// known position.
pub open spec fn latest_spec(known: Option<Position>, seen: Option<Position>) -> Option<
    Position,
> {
    match seen {
        Some(p) => Some(p),
        None => known,
    }
}

/// Takes over a freshly seen position, and keeps the known one when the node
/// could not be found.
pub fn latest(known: Option<Position>, seen: Option<Position>) -> (p: Option<Position>)
    ensures
        p == latest_spec(known, seen),
{
    match seen {
        Some(p) => Some(p),
        None => known,
    }
}

impl Position {
    /// The world origin.
    pub open spec fn origin_spec() -> Position {
        Position { x: 0, y: 0 }
    }

    /// Returns the world origin.
    #[verifier::when_used_as_spec(origin_spec)]
    pub fn origin() -> (p: Position)
        ensures
            p == Position::origin_spec(),
    {
        Position { x: 0, y: 0 }
    }
}

impl Velocity {
    /// The velocity of a body at rest.
    pub open spec fn zero_spec() -> Velocity {
        Velocity { x: 0, y: 0 }
    }

    /// Returns the velocity of a body at rest.
    #[verifier::when_used_as_spec(zero_spec)]
    pub fn zero() -> (v: Velocity)
        ensures
            v == Velocity::zero_spec(),
    {
        Velocity { x: 0, y: 0 }
    }
}

impl Heading {
    /// Sine and cosine are each between minus one and one.
    #[verifier::type_invariant]
    pub closed spec fn valid(self) -> bool {
        &&& -1000 <= self.sin <= 1000
        &&& -1000 <= self.cos <= 1000
    }

    /// The sine of the rotation angle, in thousandths.
    pub closed spec fn sin_spec(self) -> i32 {
        self.sin
    }

    /// The cosine of the rotation angle, in thousandths.
    pub closed spec fn cos_spec(self) -> i32 {
        self.cos
    }

    /// Whether two numbers can be the sine and cosine of a heading.
    pub open spec fn in_range(sin: i32, cos: i32) -> bool {
        &&& -1000 <= sin <= 1000
        &&& -1000 <= cos <= 1000
    }

    /// Proves that a valid heading has its sine and cosine in range.
    pub proof fn lemma_valid(self)
        requires
            self.valid(),
        ensures
            Heading::in_range(self.sin_spec(), self.cos_spec()),
    {
    }

    /// Makes a heading from a sine and a cosine in thousandths, and refuses
    /// the pair exactly when one of them is beyond one whole.
    pub fn new(sin: i32, cos: i32) -> (h: Option<Heading>)
        ensures
            h is Some <==> Heading::in_range(sin, cos),
            h is Some ==> h->0.valid() && h->0.sin_spec() == sin && h->0.cos_spec() == cos,
    {
        if -1000 <= sin && sin <= 1000 && -1000 <= cos && cos <= 1000 {
            Some(Heading { sin, cos })
        } else {
            None
        }
    }

    /// The heading of a body that has not been rotated: sine zero, cosine
    /// one.
    pub closed spec fn upright() -> Heading {
        Heading { sin: 0, cos: 1000 }
    }

    /// Proves what the sine and cosine of the upright heading are.
    pub proof fn lemma_upright()
        ensures
            Heading::upright().valid(),
            Heading::upright().sin_spec() == 0,
            Heading::upright().cos_spec() == 1000,
    {
    }

    /// Returns the heading of a body that has not been rotated.
    pub fn identity() -> (h: Heading)
        ensures
            h == Heading::upright(),
            h.sin_spec() == 0,
            h.cos_spec() == 1000,
    {
        Heading { sin: 0, cos: 1000 }
    }

    /// Returns the sine of the rotation angle, in thousandths.
    pub fn sin(&self) -> (s: i32)
        ensures
            s == self.sin_spec(),
            -1000 <= s <= 1000,
    {
        proof {
            use_type_invariant(self);
        }
        self.sin
    }

    /// Returns the cosine of the rotation angle, in thousandths.
    pub fn cos(&self) -> (c: i32)
        ensures
            c == self.cos_spec(),
            -1000 <= c <= 1000,
    {
        proof {
            use_type_invariant(self);
        }
        self.cos
    }
}

impl Clone for Heading {
    /// Copies the heading.
    fn clone(&self) -> (copy: Heading)
        ensures
            copy == *self,
    {
        proof {
            use_type_invariant(self);
        }
        Heading { sin: self.sin, cos: self.cos }
    }
}

impl Copy for Heading {

}

} // verus!
