use game::animation::{AnimationClip, Cell};
use game::check_point::{CheckPoint, CheckPointInputs};
use game::death_ball::{
    along, stalled, Axis, BallBody, DeathBall, DeathBallInputs, Launch, RESPAWN_HEIGHT,
    STALL_SPEED,
};
use game::geometry::{latest, Position, Velocity};
use game::proximity::{reached, DistancePolicy};
use game::spikes::{Spikes, SpikesInputs};

fn at(x: i32, y: i32) -> Position {
    Position { x, y }
}

fn clips() -> Vec<AnimationClip> {
    let frames: Vec<Cell> = (0..4).map(|column| Cell { column, row: 0 }).collect();
    vec![AnimationClip::new(3, 4, 1, frames, 100_000)]
}

fn moving(x: i32, y: i32, vx: i64, vy: i64) -> BallBody {
    BallBody { position: at(x, y), velocity: Velocity { x: vx, y: vy } }
}

#[test]
fn latest_prefers_what_was_seen() {
    assert_eq!(latest(Some(at(1, 2)), Some(at(3, 4))), Some(at(3, 4)));
    assert_eq!(latest(Some(at(1, 2)), None), Some(at(1, 2)));
    assert_eq!(latest(None, Some(at(3, 4))), Some(at(3, 4)));
    assert_eq!(latest(None, None), None);
}

#[test]
fn origin_and_rest() {
    assert_eq!(Position::origin(), at(0, 0));
    assert_eq!(Velocity::zero(), Velocity { x: 0, y: 0 });
}

#[test]
fn nothing_is_reached_from_an_unknown_place() {
    for policy in [DistancePolicy::RootOfSum, DistancePolicy::Euclidean] {
        assert!(reached(policy, Some(at(5, 5)), Some(at(5, 5)), 0));
        assert!(!reached(policy, None, Some(at(5, 5)), u32::MAX));
        assert!(!reached(policy, Some(at(5, 5)), None, u32::MAX));
        assert!(!reached(policy, None, None, u32::MAX));
    }
    assert!(reached(DistancePolicy::RootOfSum, Some(at(0, 0)), Some(at(3000, 1000)), 2000));
    assert!(!reached(DistancePolicy::Euclidean, Some(at(0, 0)), Some(at(3000, 1000)), 2000));
}

#[test]
fn a_checkpoint_moves_the_marker_onto_itself() {
    let mut c = CheckPoint::new(2000, clips());
    // Four units apart by the axis sum: exactly at the radius of two.
    let e = c.on_update(CheckPointInputs {
        own: Some(at(10_000, 5000)),
        player: Some(at(13_000, 4000)),
        dt: 16_667,
    });
    assert_eq!(e.marker, Some(at(10_000, 5000)));
    assert_eq!(c.position, Some(at(10_000, 5000)));
    assert_eq!(c.size, 2000);
    assert_eq!(e.sprite.unwrap().cell, Cell { column: 0, row: 0 });
}

#[test]
fn a_checkpoint_out_of_reach_leaves_the_marker() {
    let mut c = CheckPoint::new(2000, clips());
    let e = c.on_update(CheckPointInputs {
        own: Some(at(10_000, 5000)),
        player: Some(at(13_000, 3999)),
        dt: 16_667,
    });
    assert_eq!(e.marker, None);
    assert_eq!(c.position, Some(at(10_000, 5000)));
}

#[test]
fn a_checkpoint_without_a_player_does_nothing() {
    let mut c = CheckPoint::new(2000, clips());
    let e = c.on_update(CheckPointInputs { own: Some(at(0, 0)), player: None, dt: 250_000 });
    assert_eq!(e.marker, None);
    assert_eq!(e.sprite.unwrap().cell, Cell { column: 2, row: 0 });
    assert_eq!(c.animations[0].elapsed(), 50_000);
}

#[test]
fn a_checkpoint_that_is_not_found_uses_its_known_place() {
    let mut c = CheckPoint::new(1000, clips());
    c.on_update(CheckPointInputs { own: Some(at(700, 700)), player: None, dt: 0 });
    let e = c.on_update(CheckPointInputs { own: None, player: Some(at(800, 700)), dt: 0 });
    assert_eq!(c.position, Some(at(700, 700)));
    assert_eq!(e.marker, Some(at(700, 700)));
}

#[test]
fn a_checkpoint_that_was_never_found_does_not_fire() {
    let mut c = CheckPoint::new(u32::MAX, clips());
    assert_eq!(c.position, None);
    let e = c.on_update(CheckPointInputs { own: None, player: Some(at(0, 0)), dt: 100_000 });
    assert_eq!(e.marker, None);
    assert_eq!(c.position, None);
    assert_eq!(e.sprite.unwrap().cell, Cell { column: 1, row: 0 });
}

#[test]
fn a_checkpoint_without_clips_shows_no_frame() {
    let mut c = CheckPoint::new(1000, Vec::new());
    let e = c.on_update(CheckPointInputs { own: Some(at(0, 0)), player: Some(at(0, 0)), dt: 5 });
    assert_eq!(e.marker, Some(at(0, 0)));
    assert_eq!(e.sprite, None);
}

#[test]
fn a_checkpoint_repeats_itself() {
    let inputs =
        CheckPointInputs { own: Some(at(10_000, 5000)), player: Some(at(11_000, 5000)), dt: 0 };
    let mut once = CheckPoint::new(2000, clips());
    let first = once.on_update(inputs);
    let mut twice = CheckPoint::new(2000, clips());
    twice.on_update(inputs);
    let second = twice.on_update(inputs);
    assert_eq!(first, second);
    assert_eq!(once.position, twice.position);
    assert_eq!(once.size, twice.size);
    assert_eq!(once.animations[0].current_index(), twice.animations[0].current_index());
    assert_eq!(once.animations[0].elapsed(), twice.animations[0].elapsed());
}

#[test]
fn spikes_send_the_player_to_the_checkpoint() {
    let mut s = Spikes::new(1500, clips());
    s.on_start(Some(at(4000, 0)));
    assert_eq!(s.position, Some(at(4000, 0)));
    let e = s.on_update(SpikesInputs {
        check_point: Some(at(-2000, 1000)),
        own: Some(at(4000, 0)),
        player: Some(at(5000, -1000)),
        dt: 100_000,
    });
    assert_eq!(e.teleport, Some(at(-2000, 1000)));
    assert_eq!(e.sprite.unwrap().cell, Cell { column: 1, row: 0 });
}

#[test]
fn spikes_out_of_reach_do_nothing() {
    let mut s = Spikes::new(1500, clips());
    let e = s.on_update(SpikesInputs {
        check_point: Some(at(-2000, 1000)),
        own: Some(at(4000, 0)),
        player: Some(at(5000, -1251)),
        dt: 0,
    });
    assert_eq!(e.teleport, None);
    let e = s.on_update(SpikesInputs {
        check_point: Some(at(-2000, 1000)),
        own: Some(at(4000, 0)),
        player: Some(at(5000, -1250)),
        dt: 0,
    });
    assert_eq!(e.teleport, Some(at(-2000, 1000)));
}

#[test]
fn spikes_leave_the_player_when_the_checkpoint_is_not_found() {
    let mut s = Spikes::new(1000, clips());
    // Never seen: the player stays, also at the world origin.
    let e = s.on_update(SpikesInputs {
        check_point: None,
        own: Some(at(0, 0)),
        player: Some(at(0, 0)),
        dt: 0,
    });
    assert_eq!(e.teleport, None);
    // Seen once, then lost: the place seen before is not used.
    let e = s.on_update(SpikesInputs {
        check_point: Some(at(900, 900)),
        own: Some(at(0, 0)),
        player: Some(at(100, 0)),
        dt: 0,
    });
    assert_eq!(e.teleport, Some(at(900, 900)));
    let e = s.on_update(SpikesInputs {
        check_point: None,
        own: Some(at(0, 0)),
        player: Some(at(100, 0)),
        dt: 0,
    });
    assert_eq!(e.teleport, None);
    assert_eq!(s.position, Some(at(0, 0)));
}

#[test]
fn spikes_without_a_body_keep_their_place_and_their_frame() {
    let mut s = Spikes::new(1000, clips());
    s.on_start(Some(at(300, 300)));
    s.on_start(None);
    assert_eq!(s.position, Some(at(300, 300)));
    let e = s.on_update(SpikesInputs {
        check_point: Some(at(5, 5)),
        own: None,
        player: Some(at(300, 400)),
        dt: 150_000,
    });
    assert_eq!(e.sprite, None);
    assert_eq!(e.teleport, Some(at(5, 5)));
    assert_eq!(s.animations[0].current_index(), 0);
    assert_eq!(s.animations[0].elapsed(), 0);
}

#[test]
fn spikes_that_were_never_found_do_not_fire() {
    let mut s = Spikes::new(u32::MAX, clips());
    s.on_start(None);
    assert_eq!(s.position, None);
    let e = s.on_update(SpikesInputs {
        check_point: Some(at(5, 5)),
        own: None,
        player: Some(at(0, 0)),
        dt: 0,
    });
    assert_eq!(e.teleport, None);
}

#[test]
fn spikes_repeat_themselves() {
    let inputs = SpikesInputs {
        check_point: Some(at(-2000, 1000)),
        own: Some(at(4000, 0)),
        player: Some(at(4100, 0)),
        dt: 0,
    };
    let mut s = Spikes::new(1500, clips());
    let first = s.on_update(inputs);
    let position = s.position;
    let second = s.on_update(inputs);
    assert_eq!(first, second);
    assert_eq!(s.position, position);
}

#[test]
fn death_ball_constants() {
    assert_eq!(STALL_SPEED, 100);
    assert_eq!(RESPAWN_HEIGHT, 2000);
}

#[test]
fn velocity_along_an_axis() {
    assert_eq!(along(Axis::Horizontal, -7), Velocity { x: -7, y: 0 });
    assert_eq!(along(Axis::Vertical, -7), Velocity { x: 0, y: -7 });
}

#[test]
fn a_body_is_stopped_when_slow_on_both_axes() {
    assert!(stalled(Velocity { x: 0, y: 0 }));
    assert!(stalled(Velocity { x: 100, y: -100 }));
    assert!(!stalled(Velocity { x: 101, y: 0 }));
    assert!(!stalled(Velocity { x: 0, y: -101 }));
    assert!(!stalled(Velocity { x: i64::MIN, y: 0 }));
}

#[test]
fn a_ball_starts_along_its_axis() {
    let mut ball = DeathBall::new(1000, 2500, Axis::Horizontal, clips());
    assert_eq!(ball.velocity, Velocity { x: 0, y: 0 });
    assert_eq!(ball.current_speed(), 2500);
    let launch = ball.on_start(true);
    assert_eq!(launch, Some(Launch { gravity_scale: 0, velocity: Velocity { x: 2500, y: 0 } }));
    assert_eq!(ball.velocity, Velocity { x: 2500, y: 0 });

    let mut ball = DeathBall::new(1000, -2500, Axis::Vertical, clips());
    let launch = ball.on_start(true);
    assert_eq!(launch, Some(Launch { gravity_scale: 0, velocity: Velocity { x: 0, y: -2500 } }));
}

#[test]
fn a_ball_without_a_body_does_not_start() {
    let mut ball = DeathBall::new(1000, 2500, Axis::Horizontal, clips());
    assert_eq!(ball.on_start(false), None);
    assert_eq!(ball.velocity, Velocity { x: 0, y: 0 });
    assert_eq!(ball.current_speed(), 2500);
}

#[test]
fn a_stopped_ball_turns_round() {
    let mut ball = DeathBall::new(1000, 2500, Axis::Horizontal, clips());
    ball.on_start(true);
    let e = ball.on_update(DeathBallInputs {
        own: Some(moving(9000, 0, 40, -100)),
        player: None,
        dt: 16_667,
    });
    assert_eq!(e.velocity, Some(Velocity { x: -2500, y: 0 }));
    assert_eq!(ball.current_speed(), -2500);
    assert!(ball.turned);
    assert_eq!(ball.speed, 2500);
    assert_eq!(ball.velocity, Velocity { x: -2500, y: 0 });
    assert_eq!(ball.axis, Axis::Horizontal);
    // Stopped at the other wall, it comes back.
    let e = ball.on_update(DeathBallInputs { own: Some(moving(0, 0, 0, 0)), player: None, dt: 0 });
    assert_eq!(e.velocity, Some(Velocity { x: 2500, y: 0 }));
    assert_eq!(ball.current_speed(), 2500);
    assert!(!ball.turned);
}

#[test]
fn a_stopped_vertical_ball_turns_round() {
    let mut ball = DeathBall::new(1000, -800, Axis::Vertical, clips());
    ball.on_start(true);
    let e = ball.on_update(DeathBallInputs { own: Some(moving(0, 0, 0, 0)), player: None, dt: 0 });
    assert_eq!(e.velocity, Some(Velocity { x: 0, y: 800 }));
    assert_eq!(ball.current_speed(), 800);
}

#[test]
fn a_moving_ball_keeps_its_course() {
    let mut ball = DeathBall::new(1000, 2500, Axis::Horizontal, clips());
    ball.on_start(true);
    let e = ball.on_update(DeathBallInputs {
        own: Some(moving(100, 0, 101, 0)),
        player: None,
        dt: 0,
    });
    assert_eq!(e.velocity, None);
    assert_eq!(ball.current_speed(), 2500);
    // Slow on one axis only is not stopped.
    let e = ball.on_update(DeathBallInputs {
        own: Some(moving(100, 0, 0, -2000)),
        player: None,
        dt: 0,
    });
    assert_eq!(e.velocity, None);
    assert_eq!(ball.velocity, Velocity { x: 2500, y: 0 });
    assert_eq!(ball.position, Some(at(100, 0)));
}

#[test]
fn a_ball_sends_the_player_above_the_origin() {
    let mut ball = DeathBall::new(1000, 2500, Axis::Horizontal, clips());
    let e = ball.on_update(DeathBallInputs {
        own: Some(moving(6000, 6000, 2500, 0)),
        player: Some(at(6500, 5500)),
        dt: 100_000,
    });
    assert_eq!(e.teleport, Some(at(0, 2000)));
    assert_eq!(e.sprite.unwrap().cell, Cell { column: 1, row: 0 });
    let e = ball.on_update(DeathBallInputs {
        own: Some(moving(6000, 6000, 2500, 0)),
        player: Some(at(6500, 5499)),
        dt: 0,
    });
    assert_eq!(e.teleport, None);
}

#[test]
fn a_ball_without_a_body_stays_as_it_is() {
    let mut ball = DeathBall::new(1000, 2500, Axis::Horizontal, clips());
    ball.on_start(true);
    ball.on_update(DeathBallInputs { own: Some(moving(50, 60, 2500, 0)), player: None, dt: 0 });
    let e = ball.on_update(DeathBallInputs { own: None, player: Some(at(50, 70)), dt: 150_000 });
    assert_eq!(e.velocity, None);
    assert_eq!(e.sprite, None);
    assert_eq!(e.teleport, Some(at(0, 2000)));
    assert_eq!(ball.current_speed(), 2500);
    assert_eq!(ball.position, Some(at(50, 60)));
    assert_eq!(ball.animations[0].elapsed(), 0);
}

#[test]
fn a_ball_that_was_never_found_does_not_fire() {
    let mut ball = DeathBall::new(u32::MAX, 2500, Axis::Horizontal, clips());
    assert_eq!(ball.on_start(false), None);
    let e = ball.on_update(DeathBallInputs { own: None, player: Some(at(0, 0)), dt: 0 });
    assert_eq!(e.teleport, None);
    assert_eq!(ball.position, None);
}

#[test]
fn a_ball_repeats_what_it_asks_of_the_player() {
    let inputs = DeathBallInputs {
        own: Some(moving(6000, 6000, 2500, 0)),
        player: Some(at(6100, 6000)),
        dt: 0,
    };
    let mut ball = DeathBall::new(1000, 2500, Axis::Horizontal, clips());
    ball.on_start(true);
    let first = ball.on_update(inputs);
    let second = ball.on_update(inputs);
    assert_eq!(first, second);
    assert_eq!(ball.current_speed(), 2500);
    assert_eq!(ball.position, Some(at(6000, 6000)));
}

#[test]
fn the_least_speed_turns_round_exactly() {
    let mut ball = DeathBall::new(0, i32::MIN, Axis::Horizontal, Vec::new());
    assert_eq!(ball.on_start(true).unwrap().velocity, Velocity { x: -2_147_483_648, y: 0 });
    let e = ball.on_update(DeathBallInputs { own: Some(moving(0, 0, 0, 0)), player: None, dt: 0 });
    assert_eq!(e.velocity, Some(Velocity { x: 2_147_483_648, y: 0 }));
    assert_eq!(ball.current_speed(), 2_147_483_648);
    let e = ball.on_update(DeathBallInputs { own: Some(moving(0, 0, 0, 0)), player: None, dt: 0 });
    assert_eq!(e.velocity, Some(Velocity { x: -2_147_483_648, y: 0 }));
    assert_eq!(ball.current_speed(), -2_147_483_648);
}
