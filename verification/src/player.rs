//! The player's movement: two modes, four direction flags and a toggle.
//!
//! Once per tick the player reads where its body is and how it moves, and
//! answers with the commands for that body and for its sprite. It never touches
//! the scene itself: a node that could not be found is handed in as `None`, and
//! then nothing is commanded.

use vstd::prelude::*;
use crate::animation::{play, played, shown, AnimationClip, SpriteFrame};
use crate::geometry::{latest, latest_spec, Heading, Placement, Position, Velocity};
use crate::units::{
    lemma_scaled_nothing,
    lemma_scaled_opposite,
    lemma_scaled_room,
    reversed,
    scaled,
    scaled_spec,
    size,
    within,
};

verus! {

/// A vertical speed of at most this size counts as standing: a jump may start.
/// From this size on the body counts as airborne.
pub const REST_SPEED: u32 = 10;

/// The gravity scale of a body that falls as usual.
pub const NORMAL_GRAVITY: i32 = 1000;

/// The clip shown while the player stands still.
pub const CLIP_IDLE: u32 = 0;

/// The clip shown while the player walks.
pub const CLIP_WALK: u32 = 1;

/// The clip shown while the player is in the air.
pub const CLIP_AIRBORNE: u32 = 2;

/// The clip shown while the player flies freely.
pub const CLIP_FREE_FLY: u32 = 3;

/// The two ways the player moves.
#[derive(Clone, Copy, Debug, PartialEq, Eq, Structural)]
pub enum MovementMode {
    /// Platform movement: walking, jumping and falling.
    Grounded,
    /// Free movement without gravity: turning, and moving along the heading.
    FreeFly,
}

/// A key of the keyboard, as the player sees it.
#[derive(Clone, Copy, Debug, PartialEq, Eq, Structural)]
pub enum Key {
    Left,
    Right,
    Up,
    Down,
    Toggle,
    /// Any key that the player does not listen to.
    Other,
}

/// The sign of a sprite's horizontal scale.
#[derive(Clone, Copy, Debug, PartialEq, Eq, Structural)]
pub enum ScaleSign {
    Positive,
    Negative,
}

/// What the player reads of its own body.
#[derive(Clone, Copy, Debug)]
pub struct PlayerBody {
    pub position: Position,
    pub velocity: Velocity,
    pub heading: Heading,
}

/// What the player reads of the scene in one tick.
#[derive(Clone, Copy, Debug)]
pub struct PlayerInputs {
    /// Where the active checkpoint is, if it could be found.
    pub checkpoint: Option<Position>,
    /// The player's own body, if it could be found.
    pub body: Option<PlayerBody>,
    /// The microseconds since the last tick.
    pub dt: u64,
}

/// What a change of mode asks of the body.
#[derive(Clone, Copy, Debug, PartialEq, Eq, Structural)]
pub struct ModeChange {
    /// The new gravity scale, in thousandths.
    pub gravity_scale: i32,
    /// The new angular velocity, where the change sets one.
    pub angular_velocity: Option<i64>,
}

/// The commands of one tick. `None` leaves the thing as it is.
#[derive(Clone, Copy, Debug)]
pub struct PlayerEffects {
    /// Put the body here, turned as given.
    pub respawn: Option<Placement>,
    pub linear_velocity: Option<Velocity>,
    pub angular_velocity: Option<i64>,
    /// The body's gravity scale, in thousandths.
    pub gravity_scale: Option<i32>,
    /// The sign to give the sprite's horizontal scale, so that it faces the
    /// way the player walks.
    pub mirror: Option<ScaleSign>,
    /// The frame to show on the sprite.
    pub sprite: Option<SpriteFrame>,
}

/// The player's state.
#[derive(Clone, Debug)]
pub struct Player {
    /// Where the active checkpoint was when it was last found, if it ever
    /// was.
    pub checkpoint: Option<Position>,
    /// The upward speed that a jump gives.
    pub jump: i32,
    /// The speed of walking, flying and turning.
    pub speed: i32,
    pub move_left: bool,
    pub move_right: bool,
    pub move_up: bool,
    pub move_down: bool,
    /// Set by a press of the toggle key until an update has acted on it.
    pub reset: bool,
    pub animations: Vec<AnimationClip>,
    /// The index of the clip that plays.
    pub current_animation: u32,
    pub mode: MovementMode,
    /// At this height or below it the player is put back at the checkpoint.
    pub death_line: i32,
}

/// The other of the two modes.
pub open spec fn other_mode(mode: MovementMode) -> MovementMode {
    match mode {
        MovementMode::Grounded => MovementMode::FreeFly,
        MovementMode::FreeFly => MovementMode::Grounded,
    }
}

/// What entering `mode` asks of the body: no gravity in free flight; normal
/// gravity and no turning on the ground.
pub open spec fn mode_change(mode: MovementMode) -> ModeChange {
    match mode {
        MovementMode::FreeFly => ModeChange { gravity_scale: 0, angular_velocity: None },
        MovementMode::Grounded => ModeChange {
            gravity_scale: 1000,
            angular_velocity: Some(0i64),
        },
    }
}

/// The placement of a body put back at the checkpoint: upright, and at the
/// checkpoint's last known place. While the checkpoint was never found the
/// body is turned upright where it is.
pub open spec fn respawn_at(checkpoint: Option<Position>) -> Placement {
    Placement { position: checkpoint, heading: Heading::upright() }
}

/// The speed that a pair of opposed keys asks for: `speed` for the first key
/// alone, its opposite for the second alone, none for both or neither.
pub open spec fn axis_speed(first: bool, second: bool, speed: i32) -> int {
    if first && !second {
        speed as int
    } else if second && !first {
        -speed
    } else {
        0
    }
}

/// The sign that the sprite's horizontal scale takes for a walking speed: the
/// sign of its opposite.
pub open spec fn mirror_sign(x_speed: int) -> ScaleSign {
    if x_speed > 0 {
        ScaleSign::Negative
    } else {
        ScaleSign::Positive
    }
}

impl Default for Player {
    /// Makes a player on the ground whose settings are all zero, without clips.
    fn default() -> (made: Player)
        ensures
            made.jump == 0 && made.speed == 0 && made.death_line == 0,
            made.animations@ == Seq::<AnimationClip>::empty(),
            made.checkpoint is None,
            made.mode == MovementMode::Grounded,
            made.current_animation == 0,
            !made.move_left && !made.move_right && !made.move_up && !made.move_down,
            !made.reset,
    {
        Player::new(0, 0, 0, Vec::new())
    }
}

impl Player {
    /// The horizontal speed that the keys ask for.
    pub open spec fn x_speed(self) -> int {
        axis_speed(self.move_left, self.move_right, self.speed)
    }

    /// The speed along the heading that the keys ask for.
    pub open spec fn y_speed(self) -> int {
        axis_speed(self.move_up, self.move_down, self.speed)
    }

    /// Whether a body at `position` has fallen to the death line.
    pub open spec fn fell(self, position: Position) -> bool {
        position.y <= self.death_line
    }

    /// The linear velocity that the player commands for a body that moves at
    /// `velocity` and faces `heading`.
    ///
    /// On the ground the keys set the horizontal speed. The vertical speed
    /// stays as it is, but for a jump, which starts when up is held and the
    /// body stands. In free flight the body moves along its heading while up
    /// or down is held, and rests otherwise.
    pub open spec fn linear_velocity(self, velocity: Velocity, heading: Heading) -> Velocity {
        match self.mode {
            MovementMode::Grounded => {
                if self.move_up && size(velocity.y as int) <= 10 {
                    Velocity { x: self.x_speed() as i64, y: self.jump as i64 }
                } else {
                    Velocity { x: self.x_speed() as i64, y: velocity.y }
                }
            },
            MovementMode::FreeFly => {
                if self.move_up || self.move_down {
                    Velocity {
                        x: (-scaled_spec(heading.sin_spec() as int, self.y_speed())) as i64,
                        y: scaled_spec(heading.cos_spec() as int, self.y_speed()) as i64,
                    }
                } else {
                    Velocity { x: 0, y: 0 }
                }
            },
        }
    }

    /// The clip that plays after an update in which the body was found.
    ///
    /// On the ground: idle, or walking when the keys ask for a horizontal
    /// speed, or airborne when the commanded vertical speed is not at rest.
    /// Entering free flight selects the free-flight clip. Otherwise the clip
    /// stays.
    pub open spec fn animation_after(self, velocity: Velocity, heading: Heading) -> u32 {
        if self.reset && self.mode == MovementMode::Grounded {
            3
        } else if self.mode == MovementMode::Grounded {
            if size(self.linear_velocity(velocity, heading).y as int) >= 10 {
                2
            } else if self.x_speed() != 0 {
                1
            } else {
                0
            }
        } else {
            self.current_animation
        }
    }

    /// The mode after an update in which the body was found: the other mode
    /// when the toggle is set.
    pub open spec fn mode_after(self) -> MovementMode {
        if self.reset {
            other_mode(self.mode)
        } else {
            self.mode
        }
    }

    /// The angular velocity that the player commands: in free flight the
    /// opposite of the horizontal speed, or zero when the toggle brings the
    /// player to the ground. On the ground nothing is commanded.
    pub open spec fn angular_velocity(self) -> Option<i64> {
        match self.mode {
            MovementMode::FreeFly => if self.reset {
                Some(0i64)
            } else {
                Some((-self.x_speed()) as i64)
            },
            MovementMode::Grounded => None,
        }
    }

    /// The commands of an update for the body `body`, where `checkpoint` is
    /// the checkpoint's last known place; the sprite's frame is left out.
    pub open spec fn body_effects(
        self,
        body: PlayerBody,
        checkpoint: Option<Position>,
    ) -> PlayerEffects {
        PlayerEffects {
            respawn: if self.reset || self.fell(body.position) {
                Some(respawn_at(checkpoint))
            } else {
                None
            },
            linear_velocity: Some(self.linear_velocity(body.velocity, body.heading)),
            angular_velocity: self.angular_velocity(),
            gravity_scale: if self.reset {
                Some(mode_change(self.mode_after()).gravity_scale)
            } else {
                None
            },
            mirror: if self.x_speed() != 0 && self.mode_after() == MovementMode::Grounded {
                Some(mirror_sign(self.x_speed()))
            } else {
                None
            },
            sprite: None,
        }
    }

    /// Whether `after` has the settings and the direction flags of `self`.
    pub open spec fn same_controls(self, after: Player) -> bool {
        &&& after.jump == self.jump
        &&& after.speed == self.speed
        &&& after.death_line == self.death_line
        &&& after.move_left == self.move_left
        &&& after.move_right == self.move_right
        &&& after.move_up == self.move_up
        &&& after.move_down == self.move_down
    }

    /// Makes a player on the ground with no key held, that has not yet found
    /// its checkpoint.
    pub fn new(jump: i32, speed: i32, death_line: i32, animations: Vec<AnimationClip>) -> (player:
        Player)
        ensures
            player.jump == jump,
            player.speed == speed,
            player.death_line == death_line,
            player.animations@ == animations@,
            player.checkpoint is None,
            player.mode == MovementMode::Grounded,
            player.current_animation == 0,
            !player.move_left && !player.move_right && !player.move_up && !player.move_down,
            !player.reset,
    {
        Player {
            checkpoint: None,
            jump,
            speed,
            move_left: false,
            move_right: false,
            move_up: false,
            move_down: false,
            reset: false,
            animations,
            current_animation: CLIP_IDLE,
            mode: MovementMode::Grounded,
            death_line,
        }
    }

    /// Takes note of a key that went down (`pressed`) or up.
    ///
    /// The key's flag becomes `pressed`; every other flag, and the rest of
    /// the player, stays. A key that the player does not listen to changes
    /// nothing.
    pub fn on_os_event(&mut self, key: Key, pressed: bool)
        ensures
            final(self).move_left == (if key == Key::Left {
                pressed
            } else {
                old(self).move_left
            }),
            final(self).move_right == (if key == Key::Right {
                pressed
            } else {
                old(self).move_right
            }),
            final(self).move_up == (if key == Key::Up {
                pressed
            } else {
                old(self).move_up
            }),
            final(self).move_down == (if key == Key::Down {
                pressed
            } else {
                old(self).move_down
            }),
            final(self).reset == (if key == Key::Toggle {
                pressed
            } else {
                old(self).reset
            }),
            final(self).jump == old(self).jump,
            final(self).speed == old(self).speed,
            final(self).death_line == old(self).death_line,
            final(self).checkpoint == old(self).checkpoint,
            final(self).mode == old(self).mode,
            final(self).current_animation == old(self).current_animation,
            final(self).animations == old(self).animations,
    {
        match key {
            Key::Left => {
                self.move_left = pressed;
            },
            Key::Right => {
                self.move_right = pressed;
            },
            Key::Up => {
                self.move_up = pressed;
            },
            Key::Down => {
                self.move_down = pressed;
            },
            Key::Toggle => {
                self.reset = pressed;
            },
            Key::Other => {},
        }
    }

    /// Runs one tick.
    ///
    /// The checkpoint's position is taken over when the checkpoint was found.
    /// Without a body nothing else happens and nothing is commanded. With a
    /// body, the commands are those of [`Player::body_effects`] and the frame
    /// of the clip that plays; a set toggle changes the mode and is then
    /// cleared.
    pub fn on_update(&mut self, inputs: PlayerInputs) -> (effects: PlayerEffects)
        ensures
            old(self).same_controls(*final(self)),
            final(self).checkpoint == latest_spec(old(self).checkpoint, inputs.checkpoint),
            inputs.body is None ==> {
                &&& final(self).reset == old(self).reset
                &&& final(self).mode == old(self).mode
                &&& final(self).current_animation == old(self).current_animation
                &&& final(self).animations@ == old(self).animations@
                &&& effects.respawn is None
                &&& effects.linear_velocity is None
                &&& effects.angular_velocity is None
                &&& effects.gravity_scale is None
                &&& effects.mirror is None
                &&& effects.sprite is None
            },
            inputs.body is Some ==> {
                let body = inputs.body->0;
                let plan = old(self).body_effects(body, final(self).checkpoint);
                &&& !final(self).reset
                &&& final(self).mode == old(self).mode_after()
                &&& final(self).current_animation == old(self).animation_after(
                    body.velocity,
                    body.heading,
                )
                &&& final(self).animations@ == played(
                    old(self).animations@,
                    final(self).current_animation as int,
                    inputs.dt,
                )
                &&& effects.respawn == plan.respawn
                &&& effects.linear_velocity == plan.linear_velocity
                &&& effects.angular_velocity == plan.angular_velocity
                &&& effects.gravity_scale == plan.gravity_scale
                &&& effects.mirror == plan.mirror
                &&& effects.sprite == shown(
                    final(self).animations@,
                    final(self).current_animation as int,
                )
            },
    {
        self.checkpoint = latest(self.checkpoint, inputs.checkpoint);
        let body: PlayerBody = match inputs.body {
            Some(body) => body,
            None => {
                return PlayerEffects {
                    respawn: None,
                    linear_velocity: None,
                    angular_velocity: None,
                    gravity_scale: None,
                    mirror: None,
                    sprite: None,
                };
            },
        };
        let mut respawn: Option<Placement> = None;
        if body.position.y <= self.death_line {
            respawn = Some(Placement { position: self.checkpoint, heading: Heading::identity() });
        }
        let x_speed: i64 = steer(self.move_left, self.move_right, self.speed);
        let mut angular_velocity: Option<i64> = None;
        let linear_velocity: Velocity;
        match self.mode {
            MovementMode::FreeFly => {
                angular_velocity = Some(-x_speed);
                let along_x: i64 = scaled(body.heading.sin(), self.speed);
                let along_y: i64 = scaled(body.heading.cos(), self.speed);
                proof {
                    lemma_scaled_opposite(body.heading.sin_spec() as int, self.speed as int);
                    lemma_scaled_opposite(body.heading.cos_spec() as int, self.speed as int);
                    lemma_scaled_nothing(body.heading.sin_spec() as int, 0);
                    lemma_scaled_nothing(body.heading.cos_spec() as int, 0);
                }
                if self.move_up && !self.move_down {
                    linear_velocity = Velocity { x: -along_x, y: along_y };
                } else if self.move_down && !self.move_up {
                    linear_velocity = Velocity { x: along_x, y: -along_y };
                } else {
                    linear_velocity = Velocity::zero();
                }
            },
            MovementMode::Grounded => {
                if self.move_up && within(body.velocity.y, REST_SPEED) {
                    linear_velocity = Velocity { x: x_speed, y: self.jump as i64 };
                } else {
                    linear_velocity = Velocity { x: x_speed, y: body.velocity.y };
                }
                if x_speed != 0 {
                    self.current_animation = CLIP_WALK;
                } else {
                    self.current_animation = CLIP_IDLE;
                }
                if !within(linear_velocity.y, REST_SPEED - 1) {
                    self.current_animation = CLIP_AIRBORNE;
                }
            },
        }
        let mut gravity_scale: Option<i32> = None;
        if self.reset {
            let change: ModeChange = change_mode(&mut self.mode, &mut self.current_animation);
            gravity_scale = Some(change.gravity_scale);
            if change.angular_velocity.is_some() {
                angular_velocity = change.angular_velocity;
            }
            respawn = Some(reset(&mut self.reset, self.checkpoint));
        }
        let mut mirror: Option<ScaleSign> = None;
        if x_speed != 0 {
            match self.mode {
                MovementMode::Grounded => {
                    mirror = Some(
                        if x_speed > 0 {
                            ScaleSign::Negative
                        } else {
                            ScaleSign::Positive
                        },
                    );
                },
                MovementMode::FreeFly => {},
            }
        }
        let sprite: Option<SpriteFrame> = play(
            &mut self.animations,
            self.current_animation as usize,
            inputs.dt,
        );
        PlayerEffects {
            respawn,
            linear_velocity: Some(linear_velocity),
            angular_velocity,
            gravity_scale,
            mirror,
            sprite,
        }
    }
}

/// Works out the speed that a pair of opposed keys asks for.
pub fn steer(first: bool, second: bool, speed: i32) -> (v: i64)
    ensures
        v == axis_speed(first, second, speed),
{
    if first && !second {
        speed as i64
    } else if second && !first {
        reversed(speed)
    } else {
        0
    }
}

/// Acts on the toggle: clears the flag and returns how the body is placed:
/// upright, and at the checkpoint's last known place if there is one.
pub fn reset(flag: &mut bool, checkpoint: Option<Position>) -> (placement: Placement)
    ensures
        !*final(flag),
        placement == respawn_at(checkpoint),
{
    *flag = false;
    Placement { position: checkpoint, heading: Heading::identity() }
}

/// Changes to the other mode and returns what that asks of the body.
/// Entering free flight also selects the free-flight clip.
pub fn change_mode(mode: &mut MovementMode, current_animation: &mut u32) -> (change: ModeChange)
    ensures
        *final(mode) == other_mode(*old(mode)),
        *final(current_animation) == (if *final(mode) == MovementMode::FreeFly {
            3
        } else {
            *old(current_animation)
        }),
        change == mode_change(*final(mode)),
{
    match *mode {
        MovementMode::Grounded => {
            *mode = MovementMode::FreeFly;
            *current_animation = CLIP_FREE_FLY;
            ModeChange { gravity_scale: 0, angular_velocity: None }
        },
        MovementMode::FreeFly => {
            *mode = MovementMode::Grounded;
            ModeChange { gravity_scale: NORMAL_GRAVITY, angular_velocity: Some(0) }
        },
    }
}

/// The mode changes only on the toggle: an update without it keeps the mode.
/// An update that finds the body clears the toggle, so one press changes the
/// mode once.
pub proof fn lemma_mode_changes_on_toggle_only(player: Player)
    ensures
        !player.reset ==> player.mode_after() == player.mode,
        player.reset ==> player.mode_after() != player.mode,
        other_mode(other_mode(player.mode)) == player.mode,
{
}

/// A toggle in free flight brings the player back to the ground: the mode
/// after the update is grounded, the body is put upright at the checkpoint as
/// last known, normal gravity is back, and the body no longer turns.
pub proof fn lemma_reset_in_free_fly(player: Player, body: PlayerBody, checkpoint: Position)
    requires
        player.mode == MovementMode::FreeFly,
        player.reset,
    ensures
        player.mode_after() == MovementMode::Grounded,
        player.body_effects(body, Some(checkpoint)).respawn == Some(
            Placement { position: Some(checkpoint), heading: Heading::upright() },
        ),
        Heading::upright().sin_spec() == 0,
        Heading::upright().cos_spec() == 1000,
        player.body_effects(body, Some(checkpoint)).gravity_scale == Some(1000i32),
        player.body_effects(body, Some(checkpoint)).angular_velocity == Some(0i64),
{
    Heading::lemma_upright();
}

/// A player that never found its checkpoint is not moved by a reset: it is
/// turned upright where it is.
pub proof fn lemma_reset_without_checkpoint(player: Player, body: PlayerBody)
    requires
        player.reset || player.fell(body.position),
    ensures
        player.body_effects(body, None).respawn is Some,
        player.body_effects(body, None).respawn->0.position is None,
        player.body_effects(body, None).respawn->0.heading == Heading::upright(),
{
}

/// In free flight the commands hold their values as they are, whatever the
/// speed: the body turns at the exact opposite of the horizontal speed, and
/// moves along its heading at the part of the speed that falls on each axis.
pub proof fn lemma_free_flight_is_exact(player: Player, velocity: Velocity, heading: Heading)
    requires
        player.mode == MovementMode::FreeFly,
        !player.reset,
        player.move_up || player.move_down,
    ensures
        player.angular_velocity() is Some,
        player.angular_velocity()->0 == -player.x_speed(),
        player.linear_velocity(velocity, heading).x == -scaled_spec(
            heading.sin_spec() as int,
            player.y_speed(),
        ),
        player.linear_velocity(velocity, heading).y == scaled_spec(
            heading.cos_spec() as int,
            player.y_speed(),
        ),
{
    lemma_scaled_room(heading.sin_spec() as int, player.y_speed());
    lemma_scaled_room(heading.cos_spec() as int, player.y_speed());
}

/// The keys ask for the speed as it is set, whatever it is: the first key
/// alone for the speed, the second alone for its exact opposite, and the body
/// takes it over unchanged on the ground.
pub proof fn lemma_keys_give_the_speed(player: Player, velocity: Velocity, heading: Heading)
    requires
        player.mode == MovementMode::Grounded,
    ensures
        player.move_left && !player.move_right ==> player.linear_velocity(velocity, heading).x
            == player.speed,
        player.move_right && !player.move_left ==> player.linear_velocity(velocity, heading).x
            == -player.speed,
        player.move_left == player.move_right ==> player.linear_velocity(velocity, heading).x
            == 0,
{
}

} // verus!
