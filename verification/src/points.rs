//! The score display: three digit sprites that show how far the player is
//! from the start.

use vstd::prelude::*;
use crate::animation::{AnimationClip, SpriteFrame};
use crate::geometry::Position;
use crate::score::{clamped, digits_of, display_digits, distance_score, rounded_units, Digits};

verus! {

/// The display's state.
#[derive(Clone, Debug)]
pub struct Points {
    /// The score: the player's horizontal distance from the world origin in
    /// whole world units, as last measured.
    pub value: i32,
    /// The clips of the display. The first one holds the ten digits: its
    /// frame at index `d` shows the digit `d`.
    pub values: Vec<AnimationClip>,
}

/// The display's state as a plain value.
pub struct PointsView {
    pub value: i32,
    pub values: Seq<AnimationClip>,
}

/// The frames of the three digit sprites. `None` leaves a sprite as it is.
#[derive(Clone, Copy, Debug, PartialEq, Eq, Structural)]
pub struct PointsEffects {
    pub hundreds: Option<SpriteFrame>,
    pub tens: Option<SpriteFrame>,
    pub units: Option<SpriteFrame>,
}

impl View for Points {
    type V = PointsView;

    open spec fn view(&self) -> PointsView {
        PointsView { value: self.value, values: self.values@ }
    }
}

/// The frame that shows `digit`: the frame at that index of the first clip,
/// if there is such a clip and it has such a frame.
pub open spec fn digit_frame(values: Seq<AnimationClip>, digit: u8) -> Option<SpriteFrame> {
    if values.len() > 0 {
        values[0].frame_at_spec(digit as usize)
    } else {
        None
    }
}

impl PointsView {
    /// The score after a tick: measured anew where the player's body was
    /// found, and kept otherwise.
    pub open spec fn value_after(self, body: Option<Position>) -> i32 {
        match body {
            Some(position) => rounded_units(position.x as int) as i32,
            None => self.value,
        }
    }

    /// The digits on show after a tick: those of the score, or of the
    /// nearest score that three digits can show.
    pub open spec fn digits_after(self, body: Option<Position>) -> Digits {
        digits_of(clamped(self.value_after(body) as int))
    }

    /// The frames of a tick: each sprite shows the frame of its digit. In a
    /// tick that did not find the player's body, the sprites are left as
    /// they are.
    pub open spec fn effects(self, body: Option<Position>) -> PointsEffects {
        if body is Some {
            PointsEffects {
                hundreds: digit_frame(self.values, self.digits_after(body).hundreds),
                tens: digit_frame(self.values, self.digits_after(body).tens),
                units: digit_frame(self.values, self.digits_after(body).units),
            }
        } else {
            PointsEffects { hundreds: None, tens: None, units: None }
        }
    }
}

impl Default for Points {
    /// Makes a display that shows zero, without clips.
    fn default() -> (made: Points)
        ensures
            made@ == (PointsView { value: 0, values: Seq::empty() }),
    {
        Points::new(Vec::new())
    }
}

impl Points {
    /// Makes a display whose score is zero.
    pub fn new(values: Vec<AnimationClip>) -> (points: Points)
        ensures
            points@ == (PointsView { value: 0, values: values@ }),
    {
        Points { value: 0, values }
    }

    /// Runs one tick: measures the score and looks up the three frames. No
    /// clip plays; the clips stay as they are. Without the player's body
    /// nothing is measured and nothing is shown anew.
    pub fn on_update(&mut self, body: Option<Position>) -> (effects: PointsEffects)
        ensures
            final(self).value == old(self)@.value_after(body),
            final(self).values == old(self).values,
            effects == old(self)@.effects(body),
    {
        let position: Position = match body {
            Some(position) => position,
            None => {
                return PointsEffects { hundreds: None, tens: None, units: None };
            },
        };
        self.value = distance_score(position.x);
        let digits: Digits = display_digits(self.value);
        if self.values.len() > 0 {
            PointsEffects {
                hundreds: self.values[0].frame_at(digits.hundreds as usize),
                tens: self.values[0].frame_at(digits.tens as usize),
                units: self.values[0].frame_at(digits.units as usize),
            }
        } else {
            PointsEffects { hundreds: None, tens: None, units: None }
        }
    }
}

} // verus!
