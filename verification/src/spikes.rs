//! Spikes: a hazard that sends the player back to the checkpoint.

use vstd::prelude::*;
use crate::animation::{play, played, shown, AnimationClip, SpriteFrame};
use crate::geometry::{latest, latest_spec, Position};
use crate::proximity::{reached, reached_spec, DistancePolicy};

verus! {

/// The hazard's state.
#[derive(Clone, Debug)]
pub struct Spikes {
    /// The trigger radius, in thousandths.
    pub size: u32,
    /// Where the hazard was when it was last found, if it ever was.
    pub position: Option<Position>,
    pub animations: Vec<AnimationClip>,
}

/// The hazard's state as a plain value.
pub struct SpikesView {
    pub size: u32,
    pub position: Option<Position>,
    pub animations: Seq<AnimationClip>,
}

/// What the hazard reads of the scene in one tick.
#[derive(Clone, Copy, Debug)]
pub struct SpikesInputs {
    /// Where the checkpoint is, if it could be found.
    pub check_point: Option<Position>,
    /// Where the hazard's own body is, if it could be found.
    pub own: Option<Position>,
    /// Where the player is, if it could be found.
    pub player: Option<Position>,
    /// The microseconds since the last tick.
    pub dt: u64,
}

/// The commands of one tick. `None` leaves the thing as it is.
#[derive(Clone, Copy, Debug, PartialEq, Eq, Structural)]
pub struct SpikesEffects {
    /// Put the player here.
    pub teleport: Option<Position>,
    /// The frame to show on the hazard's sprite.
    pub sprite: Option<SpriteFrame>,
}

impl View for Spikes {
    type V = SpikesView;

    open spec fn view(&self) -> SpikesView {
        SpikesView {
            size: self.size,
            position: self.position,
            animations: self.animations@,
        }
    }
}

impl SpikesView {
    /// The state after a tick: the position is taken over where it was found,
    /// and the first clip has played if the hazard's body was found.
    pub open spec fn next(self, inputs: SpikesInputs) -> SpikesView {
        SpikesView {
            size: self.size,
            position: latest_spec(self.position, inputs.own),
            animations: if inputs.own is Some {
                played(self.animations, 0, inputs.dt)
            } else {
                self.animations
            },
        }
    }

    /// Whether the player was found within the radius of the hazard's
    /// position of this tick. A hazard that was never found does not fire.
    pub open spec fn fires(self, inputs: SpikesInputs) -> bool {
        reached_spec(
            DistancePolicy::RootOfSum,
            self.next(inputs).position,
            inputs.player,
            self.size,
        )
    }

    /// The commands of a tick: when the trigger fires, the player goes to
    /// where the checkpoint was found in this tick, and stays where it is if
    /// the checkpoint was not found. The sprite shows the frame of the first
    /// clip if the hazard's body was found.
    pub open spec fn effects(self, inputs: SpikesInputs) -> SpikesEffects {
        SpikesEffects {
            teleport: if self.fires(inputs) {
                inputs.check_point
            } else {
                None
            },
            sprite: if inputs.own is Some {
                shown(self.next(inputs).animations, 0)
            } else {
                None
            },
        }
    }
}

impl Default for Spikes {
    /// Makes a hazard of radius zero without clips.
    fn default() -> (made: Spikes)
        ensures
            made@ == (SpikesView {
                size: 0,
                position: None,
                animations: Seq::empty(),
            }),
    {
        Spikes::new(0, Vec::new())
    }
}

impl Spikes {
    /// Makes a hazard that has not yet found its own place.
    pub fn new(size: u32, animations: Vec<AnimationClip>) -> (spikes: Spikes)
        ensures
            spikes@ == (SpikesView {
                size,
                position: None,
                animations: animations@,
            }),
    {
        Spikes { size, position: None, animations }
    }

    /// Takes over the hazard's own position once every entity is set up.
    pub fn on_start(&mut self, own: Option<Position>)
        ensures
            final(self)@ == (SpikesView {
                position: latest_spec(old(self).position, own),
                ..old(self)@
            }),
    {
        self.position = latest(self.position, own);
    }

    /// Runs one tick.
    pub fn on_update(&mut self, inputs: SpikesInputs) -> (effects: SpikesEffects)
        ensures
            final(self)@ == old(self)@.next(inputs),
            effects == old(self)@.effects(inputs),
    {
        let mut sprite: Option<SpriteFrame> = None;
        if inputs.own.is_some() {
            self.position = inputs.own;
            sprite = play(&mut self.animations, 0, inputs.dt);
        }
        let teleport: Option<Position> = if reached(
            DistancePolicy::RootOfSum,
            self.position,
            inputs.player,
            self.size,
        ) {
            inputs.check_point
        } else {
            None
        };
        SpikesEffects { teleport, sprite }
    }
}

/// A second tick on the same inputs asks for what the first asked: the
/// hazard's position and the player's target are the same as after one.
pub proof fn lemma_spikes_repeat(state: SpikesView, inputs: SpikesInputs)
    ensures
        state.next(inputs).next(inputs).position == state.next(inputs).position,
        state.next(inputs).next(inputs).size == state.next(inputs).size,
        state.next(inputs).effects(inputs).teleport == state.effects(inputs).teleport,
{
}

/// A hazard whose checkpoint was not found in a tick leaves the player where
/// it is, wherever the player stands.
pub proof fn lemma_spikes_skip_lost_checkpoint(state: SpikesView, inputs: SpikesInputs)
    requires
        inputs.check_point is None,
    ensures
        state.effects(inputs).teleport is None,
{
}

/// While no time passes, a second tick on the same inputs changes nothing at
/// all and asks for exactly what the first asked.
pub proof fn lemma_spikes_settle(state: SpikesView, inputs: SpikesInputs)
    requires
        inputs.dt == 0,
        state.animations.len() > 0 ==> state.animations[0].valid(),
    ensures
        state.next(inputs).next(inputs) == state.next(inputs),
        state.next(inputs).effects(inputs) == state.effects(inputs),
{
    if state.animations.len() > 0 {
        state.animations[0].lemma_after_nothing();
    }
    assert(state.next(inputs).animations =~= state.animations);
    assert(state.next(inputs).next(inputs).animations =~= state.animations);
}

} // verus!
