//! The death ball: a hazard that patrols along one axis and turns round
//! whenever it is stopped, and that sends the player back to the start.
//!
//! The ball holds no waypoints. It keeps its course until the body reports
//! that it has come to a stop on both axes, which happens where it runs into
//! something, and then goes the other way.

use vstd::prelude::*;
use crate::animation::{play, played, shown, AnimationClip, SpriteFrame};
use crate::geometry::{Position, Velocity};
use crate::proximity::{reached, reached_spec, DistancePolicy};
use crate::units::{reversed, size, within};

verus! {

/// A body whose speed is at most this on both axes counts as stopped.
pub const STALL_SPEED: u32 = 100;

/// The height above the world origin to which the ball sends the player.
pub const RESPAWN_HEIGHT: i32 = 2000;

/// Where the ball sends the player: straight above the world origin.
pub open spec fn respawn_point() -> Position {
    Position { x: 0, y: 2000 }
}

/// The axis along which a ball patrols.
#[derive(Clone, Copy, Debug, PartialEq, Eq, Structural)]
pub enum Axis {
    Horizontal,
    Vertical,
}

/// What the ball reads of its own body.
#[derive(Clone, Copy, Debug, PartialEq, Eq, Structural)]
pub struct BallBody {
    pub position: Position,
    pub velocity: Velocity,
}

/// The ball's state.
#[derive(Clone, Debug)]
pub struct DeathBall {
    /// The trigger radius, in thousandths.
    pub size: u32,
    /// The speed the ball was set up with; its sign says which way the ball
    /// goes first.
    pub speed: i32,
    /// Whether the ball has turned round an odd number of times, and so goes
    /// at the opposite of the speed it was set up with.
    pub turned: bool,
    pub axis: Axis,
    /// The velocity that the ball last commanded.
    pub velocity: Velocity,
    /// Where the ball was when it was last found, if it ever was.
    pub position: Option<Position>,
    pub animations: Vec<AnimationClip>,
}

/// The ball's state as a plain value.
pub struct DeathBallView {
    pub size: u32,
    pub speed: i32,
    pub turned: bool,
    pub axis: Axis,
    pub velocity: Velocity,
    pub position: Option<Position>,
    pub animations: Seq<AnimationClip>,
}

/// What the ball reads of the scene in one tick.
#[derive(Clone, Copy, Debug)]
pub struct DeathBallInputs {
    /// The ball's own body, if it could be found.
    pub own: Option<BallBody>,
    /// Where the player is, if it could be found.
    pub player: Option<Position>,
    /// The microseconds since the last tick.
    pub dt: u64,
}

/// What the ball asks of its body when it starts.
#[derive(Clone, Copy, Debug, PartialEq, Eq, Structural)]
pub struct Launch {
    /// The body's gravity scale, in thousandths.
    pub gravity_scale: i32,
    pub velocity: Velocity,
}

/// The commands of one tick. `None` leaves the thing as it is.
#[derive(Clone, Copy, Debug, PartialEq, Eq, Structural)]
pub struct DeathBallEffects {
    /// The ball's new velocity.
    pub velocity: Option<Velocity>,
    /// Put the player here.
    pub teleport: Option<Position>,
    /// The frame to show on the ball's sprite.
    pub sprite: Option<SpriteFrame>,
}

/// The speed of a ball set up with `speed`: that speed, or its opposite once
/// the ball has turned.
pub open spec fn course(speed: i32, turned: bool) -> int {
    if turned {
        -speed
    } else {
        speed as int
    }
}

/// The velocity of `speed` along `axis`, with nothing on the other axis.
pub open spec fn along_spec(axis: Axis, speed: int) -> Velocity {
    match axis {
        Axis::Horizontal => Velocity { x: speed as i64, y: 0 },
        Axis::Vertical => Velocity { x: 0, y: speed as i64 },
    }
}

/// Whether a body that moves at `velocity` has been stopped: it is slow on
/// both axes.
pub open spec fn stalled_spec(velocity: Velocity) -> bool {
    size(velocity.x as int) <= 100 && size(velocity.y as int) <= 100
}

/// Makes the velocity of `speed` along `axis`.
pub fn along(axis: Axis, speed: i64) -> (v: Velocity)
    ensures
        v == along_spec(axis, speed as int),
{
    match axis {
        Axis::Horizontal => Velocity { x: speed, y: 0 },
        Axis::Vertical => Velocity { x: 0, y: speed },
    }
}

/// Decides whether a body that moves at `velocity` has been stopped.
pub fn stalled(velocity: Velocity) -> (stopped: bool)
    ensures
        stopped == stalled_spec(velocity),
{
    within(velocity.x, STALL_SPEED) && within(velocity.y, STALL_SPEED)
}

impl View for DeathBall {
    type V = DeathBallView;

    open spec fn view(&self) -> DeathBallView {
        DeathBallView {
            size: self.size,
            speed: self.speed,
            turned: self.turned,
            axis: self.axis,
            velocity: self.velocity,
            position: self.position,
            animations: self.animations@,
        }
    }
}

impl DeathBallView {
    /// The speed at which the ball goes.
    pub open spec fn current_speed(self) -> int {
        course(self.speed, self.turned)
    }

    /// Whether the ball's body was found and has been stopped.
    pub open spec fn turns(self, inputs: DeathBallInputs) -> bool {
        inputs.own is Some && stalled_spec(inputs.own->0.velocity)
    }

    /// The state after the ball has started: it goes along its axis at its
    /// speed, if its body was found.
    pub open spec fn started(self, found: bool) -> DeathBallView {
        if found {
            DeathBallView { velocity: along_spec(self.axis, self.current_speed()), ..self }
        } else {
            self
        }
    }

    /// The state after a tick. Without its body the ball stays as it is. With
    /// it, the ball takes over its position and plays its first clip, and a
    /// ball that has been stopped goes the other way at the same speed.
    pub open spec fn next(self, inputs: DeathBallInputs) -> DeathBallView {
        match inputs.own {
            None => self,
            Some(body) => DeathBallView {
                size: self.size,
                speed: self.speed,
                turned: if self.turns(inputs) {
                    !self.turned
                } else {
                    self.turned
                },
                axis: self.axis,
                velocity: if self.turns(inputs) {
                    along_spec(self.axis, -self.current_speed())
                } else {
                    self.velocity
                },
                position: Some(body.position),
                animations: played(self.animations, 0, inputs.dt),
            },
        }
    }

    /// Whether the player was found within the radius of the ball's position
    /// of this tick. A ball that was never found does not fire.
    pub open spec fn fires(self, inputs: DeathBallInputs) -> bool {
        reached_spec(
            DistancePolicy::RootOfSum,
            self.next(inputs).position,
            inputs.player,
            self.size,
        )
    }

    /// The commands of a tick: a ball that turns commands its new velocity,
    /// the player goes to [`respawn_point`] when the trigger fires, and the
    /// sprite shows the frame of the first clip if the ball's body was found.
    pub open spec fn effects(self, inputs: DeathBallInputs) -> DeathBallEffects {
        DeathBallEffects {
            velocity: if self.turns(inputs) {
                Some(self.next(inputs).velocity)
            } else {
                None
            },
            teleport: if self.fires(inputs) {
                Some(respawn_point())
            } else {
                None
            },
            sprite: if inputs.own is Some {
                shown(self.next(inputs).animations, 0)
            } else {
                None
            },
        }
    }
}

impl Default for DeathBall {
    /// Makes a ball of radius zero and speed zero on the horizontal axis, without clips.
    fn default() -> (made: DeathBall)
        ensures
            made@ == (DeathBallView {
                size: 0,
                speed: 0,
                turned: false,
                axis: Axis::Horizontal,
                velocity: Velocity::zero_spec(),
                position: None,
                animations: Seq::empty(),
            }),
    {
        DeathBall::new(0, 0, Axis::Horizontal, Vec::new())
    }
}

impl DeathBall {
    /// Makes a ball at rest that has not yet found its own place.
    pub fn new(size: u32, speed: i32, axis: Axis, animations: Vec<AnimationClip>) -> (ball:
        DeathBall)
        ensures
            ball@ == (DeathBallView {
                size,
                speed,
                turned: false,
                axis,
                velocity: Velocity::zero_spec(),
                position: None,
                animations: animations@,
            }),
    {
        DeathBall {
            size,
            speed,
            turned: false,
            axis,
            velocity: Velocity::zero(),
            position: None,
            animations,
        }
    }

    /// Returns the speed at which the ball goes.
    pub fn current_speed(&self) -> (speed: i64)
        ensures
            speed == self@.current_speed(),
    {
        if self.turned {
            reversed(self.speed)
        } else {
            self.speed as i64
        }
    }

    /// Starts the patrol once every entity is set up.
    ///
    /// If the ball's body was found, the ball asks for no gravity and for its
    /// speed along its axis. Otherwise nothing happens.
    pub fn on_start(&mut self, found: bool) -> (launch: Option<Launch>)
        ensures
            final(self)@ == old(self)@.started(found),
            launch == (if found {
                Some(
                    Launch {
                        gravity_scale: 0,
                        velocity: along_spec(old(self).axis, old(self)@.current_speed()),
                    },
                )
            } else {
                None
            }),
    {
        if found {
            self.velocity = along(self.axis, self.current_speed());
            Some(Launch { gravity_scale: 0, velocity: self.velocity })
        } else {
            None
        }
    }

    /// Runs one tick.
    pub fn on_update(&mut self, inputs: DeathBallInputs) -> (effects: DeathBallEffects)
        ensures
            final(self)@ == old(self)@.next(inputs),
            effects == old(self)@.effects(inputs),
    {
        let mut velocity: Option<Velocity> = None;
        let mut sprite: Option<SpriteFrame> = None;
        if let Some(body) = inputs.own {
            self.position = Some(body.position);
            if stalled(body.velocity) {
                self.turned = !self.turned;
                self.velocity = along(self.axis, self.current_speed());
                velocity = Some(self.velocity);
            }
            sprite = play(&mut self.animations, 0, inputs.dt);
        }
        let teleport: Option<Position> = if reached(
            DistancePolicy::RootOfSum,
            self.position,
            inputs.player,
            self.size,
        ) {
            Some(Position { x: 0, y: RESPAWN_HEIGHT })
        } else {
            None
        };
        DeathBallEffects { velocity, teleport, sprite }
    }
}

/// A ball that has been stopped goes the other way at the same speed,
/// whatever its speed: the new speed is the exact opposite of the old one, so
/// it has the same size and the other sign. The ball commands it along its
/// axis, and nothing on the other axis.
pub proof fn lemma_stall_reverses(state: DeathBallView, inputs: DeathBallInputs)
    requires
        inputs.own is Some,
        stalled_spec(inputs.own->0.velocity),
    ensures
        state.next(inputs).current_speed() == -state.current_speed(),
        size(state.next(inputs).current_speed()) == size(state.current_speed()),
        state.current_speed() > 0 ==> state.next(inputs).current_speed() < 0,
        state.current_speed() < 0 ==> state.next(inputs).current_speed() > 0,
        state.next(inputs).axis == state.axis,
        state.next(inputs).velocity == along_spec(state.axis, -state.current_speed()),
        state.effects(inputs).velocity == Some(along_spec(state.axis, -state.current_speed())),
        state.effects(inputs).velocity is Some,
        state.axis == Axis::Horizontal ==> state.effects(inputs).velocity->0.x
            == -state.current_speed() && state.effects(inputs).velocity->0.y == 0,
        state.axis == Axis::Vertical ==> state.effects(inputs).velocity->0.y
            == -state.current_speed() && state.effects(inputs).velocity->0.x == 0,
{
}

/// The velocity along an axis holds the speed as it is: no speed is too large
/// or too small for it.
pub proof fn lemma_course_fits(speed: i32, turned: bool, axis: Axis)
    ensures
        axis == Axis::Horizontal ==> along_spec(axis, course(speed, turned)).x == course(
            speed,
            turned,
        ),
        axis == Axis::Vertical ==> along_spec(axis, course(speed, turned)).y == course(
            speed,
            turned,
        ),
        along_spec(axis, -course(speed, turned)) == along_spec(axis, course(speed, !turned)),
{
}

/// Stopped twice, a ball goes again as it went at first.
pub proof fn lemma_two_stalls_restore(state: DeathBallView, inputs: DeathBallInputs)
    requires
        state.turns(inputs),
    ensures
        state.next(inputs).next(inputs).current_speed() == state.current_speed(),
        state.next(inputs).next(inputs).turned == state.turned,
{
}

/// A ball that has not been stopped keeps its speed and commands no velocity.
pub proof fn lemma_moving_ball_keeps_course(state: DeathBallView, inputs: DeathBallInputs)
    requires
        !state.turns(inputs),
    ensures
        state.next(inputs).current_speed() == state.current_speed(),
        state.next(inputs).velocity == state.velocity,
        state.effects(inputs).velocity is None,
{
}

/// A second tick on the same inputs asks the same of the player: the ball's
/// position and the player's target are the same as after one. A ball that
/// has not been stopped also keeps its speed and its velocity.
pub proof fn lemma_death_ball_repeats(state: DeathBallView, inputs: DeathBallInputs)
    ensures
        state.next(inputs).next(inputs).position == state.next(inputs).position,
        state.next(inputs).next(inputs).size == state.next(inputs).size,
        state.next(inputs).next(inputs).axis == state.next(inputs).axis,
        state.next(inputs).next(inputs).speed == state.next(inputs).speed,
        state.next(inputs).effects(inputs).teleport == state.effects(inputs).teleport,
        !state.turns(inputs) ==> state.next(inputs).next(inputs).turned == state.next(
            inputs,
        ).turned && state.next(inputs).next(inputs).velocity == state.next(inputs).velocity,
{
}

} // verus!
