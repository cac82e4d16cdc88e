use game::units::{magnitude, reversed, scaled, span, within, UNIT};

#[test]
fn unit_is_one_thousand() {
    assert_eq!(UNIT, 1000);
}

#[test]
fn span_is_the_distance_on_the_line() {
    assert_eq!(span(3, 10), 7);
    assert_eq!(span(10, 3), 7);
    assert_eq!(span(-5, 5), 10);
    assert_eq!(span(4, 4), 0);
}

#[test]
fn span_of_the_extremes_does_not_overflow() {
    assert_eq!(span(i32::MIN, i32::MAX), 4_294_967_295);
    assert_eq!(span(i32::MAX, i32::MIN), 4_294_967_295);
}

#[test]
fn magnitude_drops_the_sign() {
    assert_eq!(magnitude(0), 0);
    assert_eq!(magnitude(17), 17);
    assert_eq!(magnitude(-17), 17);
    assert_eq!(magnitude(i32::MIN), 2_147_483_648);
}

#[test]
fn reversed_changes_the_sign() {
    assert_eq!(reversed(250), -250);
    assert_eq!(reversed(-250), 250);
    assert_eq!(reversed(0), 0);
    assert_eq!(reversed(i32::MAX), -2_147_483_647);
}

#[test]
fn every_speed_has_an_opposite() {
    assert_eq!(reversed(i32::MIN), 2_147_483_648);
}

#[test]
fn within_compares_the_size() {
    assert!(within(0, 0));
    assert!(within(10, 10));
    assert!(within(-10, 10));
    assert!(!within(11, 10));
    assert!(!within(-11, 10));
    assert!(!within(1, 0));
    assert!(!within(i64::MIN, u32::MAX));
    assert!(!within(i64::MAX, u32::MAX));
    assert!(within(-4_294_967_295, u32::MAX));
}

#[test]
fn scaled_takes_a_part_and_rounds_toward_zero() {
    assert_eq!(scaled(500, 3001), 1500);
    assert_eq!(scaled(-500, 3001), -1500);
    assert_eq!(scaled(500, -3001), -1500);
    assert_eq!(scaled(-500, -3001), 1500);
    assert_eq!(scaled(1, 999), 0);
    assert_eq!(scaled(-1, 999), 0);
}

#[test]
fn scaled_by_a_whole_keeps_the_amount() {
    assert_eq!(scaled(1000, -7), -7);
    assert_eq!(scaled(-1000, -7), 7);
    assert_eq!(scaled(1000, i32::MAX), 2_147_483_647);
    assert_eq!(scaled(-1000, i32::MIN), 2_147_483_648);
    assert_eq!(scaled(0, 123_456), 0);
}

#[test]
fn scaled_has_room_for_the_largest_product() {
    assert_eq!(scaled(i32::MIN, i32::MIN), 4_611_686_018_427_387);
    assert_eq!(scaled(i32::MIN, i32::MAX), -4_611_686_016_279_904);
}
