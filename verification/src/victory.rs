//! The victory zone: reaching it wins the game, sends the player back to the
//! start and shows the victory message for a set time.

use vstd::prelude::*;
use crate::animation::{play, played, shown, AnimationClip, SpriteFrame};
use crate::geometry::{latest, latest_spec, Position};
use crate::proximity::{reached, reached_spec, DistancePolicy};

verus! {

/// The zone's state.
#[derive(Clone, Debug)]
pub struct Victory {
    /// The trigger radius, in thousandths.
    pub size: u32,
    /// Where the zone was when it was last found, if it ever was.
    pub position: Option<Position>,
    /// The microseconds for which the game has been won.
    pub timer: u64,
    /// Whether the game is won and the message is on show.
    pub won: bool,
    /// The microseconds for which the message stays.
    pub time: u64,
    pub animations: Vec<AnimationClip>,
}

/// The zone's state as a plain value.
pub struct VictoryView {
    pub size: u32,
    pub position: Option<Position>,
    pub timer: u64,
    pub won: bool,
    pub time: u64,
    pub animations: Seq<AnimationClip>,
}

/// What the zone reads of the scene in one tick.
#[derive(Clone, Copy, Debug)]
pub struct VictoryInputs {
    /// Where the zone's own sprite is, if it could be found.
    pub own: Option<Position>,
    /// Where the player is, if it could be found.
    pub player: Option<Position>,
    /// The microseconds since the last tick.
    pub dt: u64,
}

/// The commands of one tick. `None` leaves the thing as it is.
#[derive(Clone, Copy, Debug, PartialEq, Eq, Structural)]
pub struct VictoryEffects {
    /// Put the player here.
    pub teleport: Option<Position>,
    /// Show or hide the victory message.
    pub info_visible: Option<bool>,
    /// Move the floating marker here.
    pub marker: Option<Position>,
    /// The frame to show on the zone's sprite.
    pub sprite: Option<SpriteFrame>,
}

impl View for Victory {
    type V = VictoryView;

    open spec fn view(&self) -> VictoryView {
        VictoryView {
            size: self.size,
            position: self.position,
            timer: self.timer,
            won: self.won,
            time: self.time,
            animations: self.animations@,
        }
    }
}

/// The time that a run of ticks takes.
pub open spec fn total_time(ticks: Seq<VictoryInputs>) -> nat
    decreases ticks.len(),
{
    if ticks.len() == 0 {
        0
    } else {
        total_time(ticks.drop_last()) + ticks.last().dt as nat
    }
}

impl VictoryView {
    /// What holds of a zone from its making on: while the game is not won,
    /// the timer stands at zero.
    pub open spec fn rested(self) -> bool {
        !self.won ==> self.timer == 0
    }

    /// Whether the message has been on show for its whole time by the end
    /// of this tick.
    pub open spec fn expires(self, inputs: VictoryInputs) -> bool {
        self.won && self.timer + inputs.dt >= self.time
    }

    /// Whether the player was found within the radius of the zone's position
    /// of this tick, in a straight line. A zone that was never found does not
    /// fire.
    pub open spec fn fires(self, inputs: VictoryInputs) -> bool {
        reached_spec(
            DistancePolicy::Euclidean,
            latest_spec(self.position, inputs.own),
            inputs.player,
            self.size,
        )
    }

    /// The state after a tick.
    ///
    /// While the game is won the timer counts the tick's time, and goes back
    /// to zero when the message's time is over. The game is won after the
    /// tick if the trigger fires, or if it was won and the time is not over.
    /// Firing does not touch the timer.
    pub open spec fn next(self, inputs: VictoryInputs) -> VictoryView {
        VictoryView {
            size: self.size,
            position: latest_spec(self.position, inputs.own),
            timer: if !self.won {
                self.timer
            } else if self.expires(inputs) {
                0
            } else {
                (self.timer + inputs.dt) as u64
            },
            won: self.fires(inputs) || (self.won && !self.expires(inputs)),
            time: self.time,
            animations: played(self.animations, 0, inputs.dt),
        }
    }

    /// The commands of a tick.
    ///
    /// When the trigger fires, the player and the floating marker go to the
    /// world origin and the message is shown. When it does not fire and the
    /// message's time is over, the message is hidden.
    pub open spec fn effects(self, inputs: VictoryInputs) -> VictoryEffects {
        VictoryEffects {
            teleport: if self.fires(inputs) {
                Some(Position::origin_spec())
            } else {
                None
            },
            info_visible: if self.fires(inputs) {
                Some(true)
            } else if self.expires(inputs) {
                Some(false)
            } else {
                None
            },
            marker: if self.fires(inputs) {
                Some(Position::origin_spec())
            } else {
                None
            },
            sprite: shown(self.next(inputs).animations, 0),
        }
    }

    /// The state after a run of ticks, the first tick first.
    pub open spec fn run(self, ticks: Seq<VictoryInputs>) -> VictoryView
        decreases ticks.len(),
    {
        if ticks.len() == 0 {
            self
        } else {
            self.run(ticks.drop_last()).next(ticks.last())
        }
    }
}

impl Default for Victory {
    /// Makes a zone of radius zero whose message takes no time, without clips.
    fn default() -> (made: Victory)
        ensures
            made@ == (VictoryView {
                size: 0,
                position: None,
                timer: 0,
                won: false,
                time: 0,
                animations: Seq::empty(),
            }),
    {
        Victory::new(0, 0, Vec::new())
    }
}

impl Victory {
    /// Makes a zone in which the game is not won and that has not yet found
    /// its own place.
    pub fn new(size: u32, time: u64, animations: Vec<AnimationClip>) -> (victory: Victory)
        ensures
            victory@ == (VictoryView {
                size,
                position: None,
                timer: 0,
                won: false,
                time,
                animations: animations@,
            }),
            victory@.rested(),
    {
        Victory { size, position: None, timer: 0, won: false, time, animations }
    }

    /// Takes over the zone's own position once every entity is set up, and
    /// returns whether the victory message is to be on show: it is not.
    pub fn on_start(&mut self, own: Option<Position>) -> (info_visible: bool)
        ensures
            final(self)@ == (VictoryView {
                position: latest_spec(old(self).position, own),
                ..old(self)@
            }),
            !info_visible,
    {
        self.position = latest(self.position, own);
        false
    }

    /// Runs one tick.
    pub fn on_update(&mut self, inputs: VictoryInputs) -> (effects: VictoryEffects)
        ensures
            final(self)@ == old(self)@.next(inputs),
            effects == old(self)@.effects(inputs),
    {
        self.position = latest(self.position, inputs.own);
        let mut info_visible: Option<bool> = None;
        if self.won {
            let sum: u128 = self.timer as u128 + inputs.dt as u128;
            if sum >= self.time as u128 {
                self.won = false;
                self.timer = 0;
                info_visible = Some(false);
            } else {
                self.timer = sum as u64;
            }
        }
        let mut teleport: Option<Position> = None;
        let mut marker: Option<Position> = None;
        if reached(DistancePolicy::Euclidean, self.position, inputs.player, self.size) {
            teleport = Some(Position::origin());
            self.won = true;
            info_visible = Some(true);
            marker = Some(Position::origin());
        }
        let sprite: Option<SpriteFrame> = play(&mut self.animations, 0, inputs.dt);
        VictoryEffects { teleport, info_visible, marker, sprite }
    }
}

/// Entering the zone wins the game: the game is won after the tick, the
/// message is shown, and the player and the marker go to the world origin.
pub proof fn lemma_victory_begins(state: VictoryView, inputs: VictoryInputs)
    requires
        state.fires(inputs),
    ensures
        state.next(inputs).won,
        state.effects(inputs).info_visible == Some(true),
        state.effects(inputs).teleport == Some(Position { x: 0, y: 0 }),
        state.effects(inputs).marker == Some(Position { x: 0, y: 0 }),
{
}

/// The message never goes early: over any run of ticks that, together with
/// the time already counted, takes less than the message's time, the game
/// stays won and the timer holds all the time that has passed.
pub proof fn lemma_victory_lasts(state: VictoryView, ticks: Seq<VictoryInputs>)
    requires
        state.won,
        state.timer + total_time(ticks) < state.time,
    ensures
        state.run(ticks).won,
        state.run(ticks).timer == state.timer + total_time(ticks),
        state.run(ticks).time == state.time,
    decreases ticks.len(),
{
    if ticks.len() > 0 {
        lemma_victory_lasts(state, ticks.drop_last());
    }
}

/// While the game is won and the message's time is not over, a tick neither
/// shows nor hides the message unless the trigger fires.
pub proof fn lemma_victory_waits(state: VictoryView, inputs: VictoryInputs)
    requires
        state.won,
        state.timer + inputs.dt < state.time,
        !state.fires(inputs),
    ensures
        state.next(inputs).won,
        state.effects(inputs).info_visible is None,
{
}

/// The message goes when its time is over: in the tick that brings the time
/// counted up to the message's time, the game is no longer won, the message is
/// hidden and the timer is back at zero, unless the player is in the zone.
pub proof fn lemma_victory_ends(state: VictoryView, inputs: VictoryInputs)
    requires
        state.won,
        state.timer + inputs.dt >= state.time,
        !state.fires(inputs),
    ensures
        !state.next(inputs).won,
        state.next(inputs).timer == 0,
        state.effects(inputs).info_visible == Some(false),
{
}

/// A second tick on the same inputs asks the same of the player and of the
/// marker, and the zone's position is the same as after one. Where the trigger
/// fires, the game is won after one tick and after two.
pub proof fn lemma_victory_repeats(state: VictoryView, inputs: VictoryInputs)
    ensures
        state.next(inputs).next(inputs).position == state.next(inputs).position,
        state.next(inputs).next(inputs).size == state.next(inputs).size,
        state.next(inputs).next(inputs).time == state.next(inputs).time,
        state.next(inputs).effects(inputs).teleport == state.effects(inputs).teleport,
        state.next(inputs).effects(inputs).marker == state.effects(inputs).marker,
        state.fires(inputs) ==> state.next(inputs).won && state.next(inputs).next(inputs).won,
{
}

/// A tick keeps the timer at zero while the game is not won.
pub proof fn lemma_victory_stays_rested(state: VictoryView, inputs: VictoryInputs)
    requires
        state.rested(),
    ensures
        state.next(inputs).rested(),
{
}

/// While no time passes, a second tick on the same inputs leaves the zone as
/// the first left it.
pub proof fn lemma_victory_settles(state: VictoryView, inputs: VictoryInputs)
    requires
        inputs.dt == 0,
        state.rested(),
        state.animations.len() > 0 ==> state.animations[0].valid(),
    ensures
        state.next(inputs).next(inputs) == state.next(inputs),
{
    if state.animations.len() > 0 {
        state.animations[0].lemma_after_nothing();
    }
    assert(state.next(inputs).animations =~= state.animations);
    assert(state.next(inputs).next(inputs).animations =~= state.animations);
}

} // verus!
