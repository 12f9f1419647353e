use nablo::animation::{blend, blend_vec2, remaining, turn_time, PROGRESS_ONE};
use nablo::clock::{Duration, Instant};
use nablo::math::{sat_add, sat_sub, Area, Vec2};

#[test]
fn saturating_sums_stay_in_range() {
    assert_eq!(sat_add(3, 4), 7);
    assert_eq!(sat_add(i64::MAX, 1), i64::MAX);
    assert_eq!(sat_add(i64::MIN, -1), i64::MIN);
    assert_eq!(sat_sub(3, 4), -1);
    assert_eq!(sat_sub(i64::MIN, 1), i64::MIN);
    assert_eq!(sat_sub(0, i64::MIN), i64::MAX);
    assert_eq!(Vec2::new(1, 2).plus(Vec2::new(10, 20)), Vec2::new(11, 22));
    assert_eq!(Vec2::new(1, 2).minus(Vec2::new(10, 20)), Vec2::new(-9, -18));
    assert_eq!(Vec2::same(3), Vec2::new(3, 3));
    assert_eq!(Vec2::x(3), Vec2::new(3, 0));
    assert_eq!(Vec2::y(3), Vec2::new(0, 3));
    assert_eq!(Vec2::zero(), Vec2::new(0, 0));
}

#[test]
fn area_is_spanned_by_corners_in_either_order() {
    let a = Area::new(Vec2::new(50, 20), Vec2::new(0, 0));
    assert_eq!(a.left_top(), Vec2::new(0, 0));
    assert_eq!(a.right_bottom(), Vec2::new(50, 20));
    assert_eq!(a.left_bottom(), Vec2::new(0, 20));
    assert_eq!(a.right_top(), Vec2::new(50, 0));
    assert_eq!(a.width(), 50);
    assert_eq!(a.height(), 20);
    assert_eq!(a.width_and_height(), Vec2::new(50, 20));
    assert_eq!(Area::new_with_origin(Vec2::new(640, 480)), Area::new(Vec2::zero(), Vec2::new(640, 480)));
    assert!(Area::zero().is_empty());
    assert!(!a.is_empty());
}

#[test]
fn points_on_the_far_edges_are_outside() {
    let a = Area::new(Vec2::new(0, 0), Vec2::new(50, 20));
    assert!(a.is_point_inside(&Vec2::new(0, 0)));
    assert!(a.is_point_inside(&Vec2::new(49, 19)));
    assert!(!a.is_point_inside(&Vec2::new(50, 19)));
    assert!(!a.is_point_inside(&Vec2::new(49, 20)));
    assert!(!a.is_point_inside(&Vec2::new(-1, 0)));
    assert!(!Area::zero().is_point_inside(&Vec2::new(0, 0)));
}

#[test]
fn common_part_of_two_areas() {
    let a = Area::new(Vec2::new(0, 0), Vec2::new(50, 20));
    let b = Area::new(Vec2::new(30, 10), Vec2::new(80, 40));
    assert_eq!(a.cross_part(&b), Area::new(Vec2::new(30, 10), Vec2::new(50, 20)));
    let c = Area::new(Vec2::new(50, 0), Vec2::new(60, 20));
    assert_eq!(a.cross_part(&c), Area::zero());
    for x in -2..60 {
        for y in -2..30 {
            let p = Vec2::new(x, y);
            assert_eq!(a.cross_part(&b).is_point_inside(&p), a.is_point_inside(&p) && b.is_point_inside(&p));
        }
    }
}

#[test]
fn combination_of_areas() {
    let mut a = Area::zero();
    a.combine(&Area::new(Vec2::new(10, 10), Vec2::new(20, 20)));
    assert_eq!(a, Area::new(Vec2::new(10, 10), Vec2::new(20, 20)));
    a.combine(&Area::new(Vec2::new(0, 15), Vec2::new(12, 40)));
    assert_eq!(a, Area::new(Vec2::new(0, 10), Vec2::new(20, 40)));
    a.combine(&Area::zero());
    assert_eq!(a, Area::new(Vec2::new(0, 10), Vec2::new(20, 40)));
}

#[test]
fn moving_and_shrinking() {
    let mut a = Area::new(Vec2::new(0, 0), Vec2::new(50, 20));
    a.move_by(Vec2::new(-5, 7));
    assert_eq!(a, Area::new(Vec2::new(-5, 7), Vec2::new(45, 27)));
    let s = a.shrink(Vec2::same(16));
    assert_eq!(s.left_top, Vec2::new(11, 23));
    assert_eq!(s.right_bottom, Vec2::new(29, 11));
    assert!(s.is_empty());
}

#[test]
fn blending_by_progress() {
    assert_eq!(blend(0, 100, 0), 0);
    assert_eq!(blend(0, 100, PROGRESS_ONE), 100);
    assert_eq!(blend(0, 100, 250_000), 25);
    assert_eq!(blend(100, 0, 250_000), 75);
    assert_eq!(blend(-10, 10, 500_000), 0);
    assert_eq!(blend(0, 3, 500_000), 1);
    assert_eq!(blend(3, 0, 500_000), 2);
    assert_eq!(blend(0, 100, -5), 0);
    assert_eq!(blend(0, 100, PROGRESS_ONE + 5), 100);
    assert_eq!(blend(i64::MIN, i64::MAX, PROGRESS_ONE), i64::MAX);
    assert_eq!(blend(i64::MAX, i64::MIN, PROGRESS_ONE), i64::MIN);
    assert_eq!(blend_vec2(Vec2::new(0, 10), Vec2::new(10, 0), 300_000), Vec2::new(3, 7));
    assert_eq!(remaining(0), PROGRESS_ONE);
    assert_eq!(remaining(PROGRESS_ONE), 0);
    assert_eq!(remaining(400_000), 600_000);
    assert_eq!(remaining(-1), PROGRESS_ONE);
    assert_eq!(remaining(PROGRESS_ONE + 1), 0);
}

#[test]
fn blending_never_goes_back() {
    let mut before = blend(-7, 1000, 0);
    for step in 1..=1000 {
        let now = blend(-7, 1000, step * 1000);
        assert!(now >= before);
        before = now;
    }
    assert_eq!(before, 1000);
}

#[test]
fn durations_and_instants() {
    assert_eq!(Duration::milliseconds(250).nanos, 250_000_000);
    assert_eq!(Duration::seconds(3).nanos, 3_000_000_000);
    assert_eq!(Duration::seconds(-1).nanos, -1_000_000_000);
    assert_eq!(Duration::zero().nanos, 0);
    assert!(Duration::milliseconds(1).is_positive());
    assert!(!Duration::zero().is_positive());
    assert!(Duration::milliseconds(2).is_longer_than(Duration::milliseconds(1)));
    assert!(!Duration::milliseconds(1).is_longer_than(Duration::milliseconds(1)));
    assert_eq!(Duration { nanos: 5 }.plus(Duration { nanos: 7 }).nanos, 12);
    assert_eq!(Duration { nanos: 5 }.minus(Duration { nanos: 7 }).nanos, -2);
    assert_eq!(Duration { nanos: i128::MAX }.plus(Duration { nanos: 1 }).nanos, i128::MAX);
    assert_eq!(Duration { nanos: i128::MIN }.minus(Duration { nanos: 1 }).nanos, i128::MIN);
    assert_eq!(Duration { nanos: i128::MIN }.plus(Duration { nanos: -1 }).nanos, i128::MIN);
    assert_eq!(Duration { nanos: i128::MAX }.minus(Duration { nanos: -1 }).nanos, i128::MAX);
    assert_eq!(Instant::from_unix_nanos(17).nanos, 17);
    assert_eq!(Instant::from_unix_nanos(i128::MAX).nanos, i64::MAX);
    assert_eq!(Instant::from_unix_nanos(i128::MIN).nanos, i64::MIN);
    let early = Instant { nanos: i64::MIN };
    let late = Instant { nanos: i64::MAX };
    assert_eq!(late.since(early).nanos, i64::MAX as i128 - i64::MIN as i128);
    assert_eq!(early.elapsed_at(late).nanos, i64::MAX as i128 - i64::MIN as i128);
    assert_eq!(late.elapsed_at(early).nanos, i64::MIN as i128 - i64::MAX as i128);
}

#[test]
fn interrupted_transition_does_not_jump() {
    let at = |ms: i64| Instant { nanos: ms * 1_000_000 };
    let window = Duration::milliseconds(250);
    assert_eq!(turn_time(None, None, window, at(5)), None);
    assert_eq!(turn_time(None, Some(at(100)), window, at(130)), Some(Duration::milliseconds(30)));
    assert_eq!(turn_time(Some(at(0)), Some(at(100)), window, at(130)), Some(Duration::milliseconds(130)));
    assert_eq!(turn_time(Some(at(0)), Some(at(250)), window, at(260)), Some(Duration::milliseconds(260)));
    assert_eq!(turn_time(Some(at(0)), Some(at(251)), window, at(260)), Some(Duration::milliseconds(9)));
    assert_eq!(turn_time(Some(at(0)), None, window, at(260)), None);
}
