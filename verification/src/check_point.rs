//! A checkpoint: when the player comes near, the floating marker that shows
//! the current respawn point moves onto the checkpoint.

use vstd::prelude::*;
use crate::animation::{play, played, shown, AnimationClip, SpriteFrame};
use crate::geometry::{latest, latest_spec, Position};
use crate::proximity::{reached, reached_spec, DistancePolicy};

verus! {

/// The checkpoint's state.
#[derive(Clone, Debug)]
pub struct CheckPoint {
    /// The trigger radius, in thousandths.
    pub size: u32,
    /// Where the checkpoint was when it was last found, if it ever was.
    pub position: Option<Position>,
    pub animations: Vec<AnimationClip>,
}

/// The checkpoint's state as a plain value.
pub struct CheckPointView {
    pub size: u32,
    pub position: Option<Position>,
    pub animations: Seq<AnimationClip>,
}

/// What the checkpoint reads of the scene in one tick.
#[derive(Clone, Copy, Debug)]
pub struct CheckPointInputs {
    /// Where the checkpoint's own sprite is, if it could be found.
    pub own: Option<Position>,
    /// Where the player is, if it could be found.
    pub player: Option<Position>,
    /// The microseconds since the last tick.
    pub dt: u64,
}

/// The commands of one tick. `None` leaves the thing as it is.
#[derive(Clone, Copy, Debug, PartialEq, Eq, Structural)]
pub struct CheckPointEffects {
    /// Move the floating marker here.
    pub marker: Option<Position>,
    /// The frame to show on the checkpoint's sprite.
    pub sprite: Option<SpriteFrame>,
}

impl View for CheckPoint {
    type V = CheckPointView;

    open spec fn view(&self) -> CheckPointView {
        CheckPointView { size: self.size, position: self.position, animations: self.animations@ }
    }
}

impl CheckPointView {
    /// The state after a tick: the position is taken over where it was
    /// found, and the first clip has played.
    pub open spec fn next(self, inputs: CheckPointInputs) -> CheckPointView {
        CheckPointView {
            size: self.size,
            position: latest_spec(self.position, inputs.own),
            animations: played(self.animations, 0, inputs.dt),
        }
    }

    /// Whether the player was found within the radius of the checkpoint's
    /// position of this tick. A checkpoint that was never found does not
    /// fire.
    pub open spec fn fires(self, inputs: CheckPointInputs) -> bool {
        reached_spec(
            DistancePolicy::RootOfSum,
            self.next(inputs).position,
            inputs.player,
            self.size,
        )
    }

    /// The commands of a tick: the marker goes to the checkpoint when the
    /// trigger fires, and the sprite shows the frame of the first clip.
    pub open spec fn effects(self, inputs: CheckPointInputs) -> CheckPointEffects {
        CheckPointEffects {
            marker: if self.fires(inputs) {
                self.next(inputs).position
            } else {
                None
            },
            sprite: shown(self.next(inputs).animations, 0),
        }
    }
}

impl Default for CheckPoint {
    /// Makes a checkpoint of radius zero without clips.
    fn default() -> (made: CheckPoint)
        ensures
            made@ == (CheckPointView {
                size: 0,
                position: None,
                animations: Seq::empty(),
            }),
    {
        CheckPoint::new(0, Vec::new())
    }
}

impl CheckPoint {
    /// Makes a checkpoint that has not yet found its own place.
    pub fn new(size: u32, animations: Vec<AnimationClip>) -> (check_point: CheckPoint)
        ensures
            check_point@ == (CheckPointView {
                size,
                position: None,
                animations: animations@,
            }),
    {
        CheckPoint { size, position: None, animations }
    }

    /// Runs one tick.
    pub fn on_update(&mut self, inputs: CheckPointInputs) -> (effects: CheckPointEffects)
        ensures
            final(self)@ == old(self)@.next(inputs),
            effects == old(self)@.effects(inputs),
    {
        self.position = latest(self.position, inputs.own);
        let marker: Option<Position> = if reached(
            DistancePolicy::RootOfSum,
            self.position,
            inputs.player,
            self.size,
        ) {
            self.position
        } else {
            None
        };
        let sprite: Option<SpriteFrame> = play(&mut self.animations, 0, inputs.dt);
        CheckPointEffects { marker, sprite }
    }
}

/// A second tick on the same inputs asks for what the first asked: the
/// checkpoint's position and the marker's target are the same as after one.
pub proof fn lemma_check_point_repeats(state: CheckPointView, inputs: CheckPointInputs)
    ensures
        state.next(inputs).next(inputs).position == state.next(inputs).position,
        state.next(inputs).next(inputs).size == state.next(inputs).size,
        state.next(inputs).effects(inputs).marker == state.effects(inputs).marker,
{
}

/// While no time passes, a second tick on the same inputs changes nothing at
/// all and asks for exactly what the first asked.
pub proof fn lemma_check_point_settles(state: CheckPointView, inputs: CheckPointInputs)
    requires
        inputs.dt == 0,
        state.animations.len() > 0 ==> state.animations[0].valid(),
    ensures
        state.next(inputs).next(inputs) == state.next(inputs),
        state.next(inputs).effects(inputs) == state.effects(inputs),
{
    if state.animations.len() > 0 {
        state.animations[0].lemma_after_nothing();
    }
    assert(state.next(inputs).animations =~= state.animations);
    assert(state.next(inputs).next(inputs).animations =~= state.animations);
}

} // verus!
