use newtons_cradle::audio::{
    impact_speed_sq, impact_volume, max_impact_speed_sq, unpack_collision_event,
    volume_for_speed_sq, CollisionEvent, ImpactAudioState, COOLDOWN_US, FULL_SPEED_SQ,
    FULL_VOLUME, TRIGGER_SPEED_SQ,
};
use newtons_cradle::{BodyId, Vec3};

fn id(n: u64) -> BodyId {
    BodyId::new(n)
}

fn still() -> Vec3 {
    Vec3::new(0, 0, 0)
}

/// Velocity along x in whole units per second.
fn along_x(units: i64) -> Vec3 {
    Vec3::new(units * 1000, 0, 0)
}

fn ready_state() -> ImpactAudioState {
    let mut s = ImpactAudioState::new();
    // Let more than the cooldown pass with no impacts.
    assert_eq!(s.trigger(0, COOLDOWN_US + 1), None);
    s
}

#[test]
fn unpack_gives_both_participants() {
    assert_eq!(unpack_collision_event(&CollisionEvent::Started(id(1), id(2))), (id(1), id(2), true));
    assert_eq!(unpack_collision_event(&CollisionEvent::Stopped(id(3), id(4))), (id(3), id(4), false));
}

#[test]
fn volume_scales_with_relative_speed() {
    assert_eq!(impact_volume(along_x(5), still()), 500);
    assert_eq!(impact_volume(along_x(1), still()), 100);
    assert_eq!(impact_volume(still(), still()), 0);
    assert_eq!(impact_volume(along_x(2), along_x(-2)), 400);
    // 3-4-5 triangle: a relative speed of 5 units per second.
    assert_eq!(impact_volume(Vec3::new(3000, 4000, 0), still()), 500);
    // Rounded down to the thousandth.
    assert_eq!(impact_volume(Vec3::new(0, 0, 1239), still()), 123);
}

#[test]
fn volume_saturates_at_ten_units_per_second() {
    assert_eq!(impact_volume(along_x(10), still()), FULL_VOLUME);
    assert_eq!(impact_volume(along_x(25), still()), FULL_VOLUME);
    assert_eq!(impact_volume(Vec3::new(i64::MAX, i64::MIN, 0), Vec3::new(i64::MIN, i64::MAX, 0)), FULL_VOLUME);
    assert_eq!(impact_volume(Vec3::new(9999, 0, 0), still()), 999);
}

#[test]
fn volume_is_bounded_and_non_decreasing() {
    let mut last = 0;
    for milli in (0..20_000i64).step_by(37) {
        let v = impact_volume(Vec3::new(milli, 0, 0), still());
        assert!(v <= FULL_VOLUME);
        assert!(v >= last);
        last = v;
    }
    assert_eq!(last, FULL_VOLUME);
}

#[test]
fn loudest_event_of_the_tick_wins() {
    let velocities = vec![(id(1), along_x(5)), (id(2), still()), (id(3), along_x(-3))];
    let events = vec![
        CollisionEvent::Started(id(1), id(2)),
        CollisionEvent::Started(id(1), id(3)),
        CollisionEvent::Stopped(id(2), id(3)),
    ];
    assert_eq!(max_impact_speed_sq(&events, &velocities), 64_000_000);
    assert_eq!(volume_for_speed_sq(max_impact_speed_sq(&events, &velocities)), 800);
    assert_eq!(max_impact_speed_sq(&vec![], &velocities), 0);
}

#[test]
fn events_with_a_body_without_velocity_are_silent() {
    // Body 9 is a fixed anchor: it has no velocity.
    let velocities = vec![(id(1), along_x(8))];
    let events = vec![CollisionEvent::Started(id(1), id(9)), CollisionEvent::Started(id(9), id(1))];
    assert_eq!(max_impact_speed_sq(&events, &velocities), 0);
    let mut s = ready_state();
    assert_eq!(s.handle_ball_impact_sounds(&events, &velocities, 16_000), None);
}

#[test]
fn impact_at_five_units_per_second_plays_at_half_volume() {
    let velocities = vec![(id(1), along_x(5)), (id(2), still())];
    let events = vec![CollisionEvent::Started(id(1), id(2))];
    let mut s = ready_state();
    assert_eq!(s.handle_ball_impact_sounds(&events, &velocities, 16_000), Some(500));
    assert_eq!(s.elapsed_us, 16_000);
}

#[test]
fn impact_at_one_unit_per_second_is_too_quiet() {
    let velocities = vec![(id(1), along_x(1)), (id(2), still())];
    let events = vec![CollisionEvent::Started(id(1), id(2))];
    let mut s = ready_state();
    let before = s.elapsed_us;
    assert_eq!(s.handle_ball_impact_sounds(&events, &velocities, 16_000), None);
    assert_eq!(s.elapsed_us, before + 16_000);
}

#[test]
fn threshold_is_strict() {
    let mut s = ready_state();
    // Exactly 2 units per second: a volume of exactly one fifth, not heard.
    assert_eq!(s.trigger(TRIGGER_SPEED_SQ, 1000), None);
    // Just above 2 units per second: heard, though rounded down to 0.200.
    assert_eq!(s.trigger(TRIGGER_SPEED_SQ + 1, 1000), Some(200));
}

#[test]
fn speed_just_above_threshold_is_heard() {
    let velocities = vec![(id(1), Vec3::new(2005, 0, 0)), (id(2), still())];
    let events = vec![CollisionEvent::Started(id(1), id(2))];
    let mut s = ready_state();
    assert_eq!(s.handle_ball_impact_sounds(&events, &velocities, 16_000), Some(200));
}

#[test]
fn speed_sq_is_exact_below_saturation_and_capped_above() {
    assert_eq!(impact_speed_sq(Vec3::new(3000, 4000, 0), still()), 25_000_000);
    assert_eq!(impact_speed_sq(along_x(-2), along_x(1)), 9_000_000);
    assert_eq!(impact_speed_sq(along_x(11), still()), FULL_SPEED_SQ);
    assert_eq!(impact_speed_sq(Vec3::new(i64::MIN, 0, 0), Vec3::new(i64::MAX, 0, 0)), FULL_SPEED_SQ);
    assert_eq!(volume_for_speed_sq(u64::MAX), FULL_VOLUME);
    assert_eq!(volume_for_speed_sq(99_999_999), 999);
}

#[test]
fn no_sound_before_the_cooldown_has_passed() {
    let mut s = ImpactAudioState::new();
    assert_eq!(s.trigger(81_000_000, 20_000), None);
    assert_eq!(s.elapsed_us, 20_000);
    // Exactly the cooldown is not enough.
    assert_eq!(s.trigger(81_000_000, 1), None);
    assert_eq!(s.elapsed_us, 20_001);
    assert_eq!(s.trigger(81_000_000, 1), Some(900));
    assert_eq!(s.elapsed_us, 1);
    // Many loud ticks inside the window play nothing.
    for _ in 0..19 {
        assert_eq!(s.trigger(FULL_SPEED_SQ, 1000), None);
    }
    assert_eq!(s.elapsed_us, 19_001);
    assert_eq!(s.trigger(FULL_SPEED_SQ, 1000), None);
    assert_eq!(s.elapsed_us, 20_001);
    assert_eq!(s.trigger(FULL_SPEED_SQ, 1000), Some(1000));
    assert_eq!(s.elapsed_us, 1000);
}

#[test]
fn many_collisions_in_one_tick_play_one_sound() {
    let velocities = vec![(id(1), along_x(9)), (id(2), still()), (id(3), along_x(-6))];
    let events: Vec<CollisionEvent> = (0..50)
        .map(|k| if k % 2 == 0 { CollisionEvent::Started(id(1), id(2)) } else { CollisionEvent::Started(id(3), id(2)) })
        .collect();
    let mut s = ready_state();
    assert_eq!(s.handle_ball_impact_sounds(&events, &velocities, 5_000), Some(900));
    assert_eq!(s.handle_ball_impact_sounds(&events, &velocities, 5_000), None);
}

#[test]
fn elapsed_time_saturates() {
    let mut s = ImpactAudioState::new();
    assert_eq!(s.trigger(0, u64::MAX - 5), None);
    assert_eq!(s.trigger(0, 100), None);
    assert_eq!(s.elapsed_us, u64::MAX);
}
