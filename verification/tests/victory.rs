use game::animation::{AnimationClip, Cell};
use game::geometry::Position;
use game::victory::{Victory, VictoryInputs};

fn at(x: i32, y: i32) -> Position {
    Position { x, y }
}

fn clips() -> Vec<AnimationClip> {
    let frames: Vec<Cell> = (0..4).map(|column| Cell { column, row: 0 }).collect();
    vec![AnimationClip::new(3, 4, 1, frames, 100_000)]
}

fn zone() -> Victory {
    // Radius 5 units, message on show for 3 seconds.
    let mut v = Victory::new(5000, 3_000_000, clips());
    assert!(!v.on_start(Some(at(50_000, 20_000))));
    v
}

fn away(dt: u64) -> VictoryInputs {
    VictoryInputs { own: Some(at(50_000, 20_000)), player: Some(at(0, 0)), dt }
}

fn inside(dt: u64) -> VictoryInputs {
    VictoryInputs { own: Some(at(50_000, 20_000)), player: Some(at(53_000, 24_000)), dt }
}

#[test]
fn a_new_zone_is_not_won() {
    let v = zone();
    assert!(!v.won);
    assert_eq!(v.timer, 0);
    assert_eq!(v.time, 3_000_000);
    assert_eq!(v.size, 5000);
    assert_eq!(v.position, Some(at(50_000, 20_000)));
}

#[test]
fn on_start_keeps_the_known_place_when_not_found() {
    let mut v = zone();
    assert!(!v.on_start(None));
    assert_eq!(v.position, Some(at(50_000, 20_000)));
}

#[test]
fn entering_the_zone_wins() {
    let mut v = zone();
    let e = v.on_update(inside(16_667));
    assert!(v.won);
    assert_eq!(v.timer, 0);
    assert_eq!(e.teleport, Some(at(0, 0)));
    assert_eq!(e.marker, Some(at(0, 0)));
    assert_eq!(e.info_visible, Some(true));
    assert_eq!(e.sprite.unwrap().cell, Cell { column: 0, row: 0 });
}

#[test]
fn the_zone_measures_in_a_straight_line() {
    let mut v = zone();
    // Three and four units apart: five in a straight line, the root of seven by the axis sum.
    let e = v.on_update(VictoryInputs {
        own: Some(at(50_000, 20_000)),
        player: Some(at(53_000, 24_001)),
        dt: 0,
    });
    assert_eq!(e.teleport, None);
    assert!(!v.won);
    let e = v.on_update(inside(0));
    assert_eq!(e.teleport, Some(at(0, 0)));
}

#[test]
fn staying_away_changes_nothing() {
    let mut v = zone();
    let e = v.on_update(away(1_000_000));
    assert!(!v.won);
    assert_eq!(v.timer, 0);
    assert_eq!(e.teleport, None);
    assert_eq!(e.marker, None);
    assert_eq!(e.info_visible, None);
    assert_eq!(e.sprite.unwrap().cell, Cell { column: 2, row: 0 });
}

#[test]
fn victory_flow_from_entering_to_expiry() {
    let mut v = zone();
    let e = v.on_update(inside(1_000_000));
    assert!(v.won);
    assert_eq!(e.info_visible, Some(true));

    let e = v.on_update(away(1_000_000));
    assert!(v.won);
    assert_eq!(v.timer, 1_000_000);
    assert_eq!(e.info_visible, None);

    let e = v.on_update(away(1_999_999));
    assert!(v.won);
    assert_eq!(v.timer, 2_999_999);
    assert_eq!(e.info_visible, None);

    let e = v.on_update(away(1));
    assert!(!v.won);
    assert_eq!(v.timer, 0);
    assert_eq!(e.info_visible, Some(false));
    assert_eq!(e.teleport, None);

    let e = v.on_update(away(1_000_000));
    assert!(!v.won);
    assert_eq!(v.timer, 0);
    assert_eq!(e.info_visible, None);
}

#[test]
fn the_message_goes_in_the_tick_that_passes_its_time() {
    let mut v = zone();
    v.on_update(inside(0));
    v.on_update(away(2_000_000));
    let e = v.on_update(away(5_000_000));
    assert!(!v.won);
    assert_eq!(v.timer, 0);
    assert_eq!(e.info_visible, Some(false));
}

#[test]
fn entering_again_does_not_restart_the_timer() {
    let mut v = zone();
    v.on_update(inside(0));
    v.on_update(away(2_000_000));
    let e = v.on_update(inside(500_000));
    assert!(v.won);
    assert_eq!(v.timer, 2_500_000);
    assert_eq!(e.info_visible, Some(true));
    assert_eq!(e.teleport, Some(at(0, 0)));
    let e = v.on_update(away(500_000));
    assert!(!v.won);
    assert_eq!(e.info_visible, Some(false));
}

#[test]
fn entering_as_the_time_runs_out_wins_anew() {
    let mut v = zone();
    v.on_update(inside(0));
    v.on_update(away(2_000_000));
    let e = v.on_update(inside(1_000_000));
    assert!(v.won);
    assert_eq!(v.timer, 0);
    assert_eq!(e.info_visible, Some(true));
}

#[test]
fn a_zone_without_a_player_only_counts() {
    let mut v = zone();
    v.on_update(inside(0));
    let e = v.on_update(VictoryInputs { own: None, player: None, dt: 10 });
    assert!(v.won);
    assert_eq!(v.timer, 10);
    assert_eq!(v.position, Some(at(50_000, 20_000)));
    assert_eq!(e.teleport, None);
    assert_eq!(e.marker, None);
}

#[test]
fn a_zone_that_was_never_found_does_not_fire() {
    let mut v = Victory::new(5000, 3_000_000, clips());
    assert!(!v.on_start(None));
    assert_eq!(v.position, None);
    let e = v.on_update(VictoryInputs { own: None, player: Some(at(0, 0)), dt: 10 });
    assert!(!v.won);
    assert_eq!(e.teleport, None);
    assert_eq!(e.marker, None);
    assert_eq!(e.info_visible, None);
    let e = v.on_update(VictoryInputs { own: Some(at(0, 0)), player: Some(at(0, 0)), dt: 10 });
    assert!(v.won);
    assert_eq!(e.teleport, Some(at(0, 0)));
}

#[test]
fn the_timer_does_not_overflow() {
    let mut v = Victory::new(1, u64::MAX, Vec::new());
    v.on_update(VictoryInputs { own: Some(at(0, 0)), player: Some(at(0, 0)), dt: 0 });
    let e = v.on_update(VictoryInputs { own: None, player: None, dt: u64::MAX - 1 });
    assert!(v.won);
    assert_eq!(v.timer, u64::MAX - 1);
    assert_eq!(e.info_visible, None);
    assert_eq!(e.sprite, None);
    let e = v.on_update(VictoryInputs { own: None, player: None, dt: u64::MAX });
    assert!(!v.won);
    assert_eq!(v.timer, 0);
    assert_eq!(e.info_visible, Some(false));
}

#[test]
fn a_message_of_no_time_goes_at_once() {
    let mut v = Victory::new(1000, 0, clips());
    let e = v.on_update(VictoryInputs { own: Some(at(0, 0)), player: Some(at(0, 0)), dt: 0 });
    assert!(v.won);
    assert_eq!(e.info_visible, Some(true));
    let e = v.on_update(VictoryInputs { own: None, player: Some(at(9000, 0)), dt: 0 });
    assert!(!v.won);
    assert_eq!(e.info_visible, Some(false));
}

#[test]
fn a_zone_repeats_what_it_asks() {
    let mut v = zone();
    let first = v.on_update(inside(0));
    let position = v.position;
    let second = v.on_update(inside(0));
    assert_eq!(first, second);
    assert!(v.won);
    assert_eq!(v.position, position);
    assert_eq!(v.timer, 0);
}
