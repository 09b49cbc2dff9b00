use dip_panel::animation::SwitchAnimation;
use dip_panel::animation::TRAVEL_MICROS;

fn fraction(a: &SwitchAnimation) -> f64 {
    a.position() as f64 / TRAVEL_MICROS as f64
}

#[test]
fn test_new_animation_is_settled() {
    let a = SwitchAnimation::new(false);
    assert_eq!(a.position(), 0);
    assert!(!a.animating);
    assert!(!a.target_state);

    let b = SwitchAnimation::new(true);
    assert_eq!(b.position(), TRAVEL_MICROS);
    assert!(!b.animating);
    assert!(b.target_state);
}

#[test]
fn test_half_then_full_traverse() {
    // 75 ms is half the 150 ms traverse; another 75 ms completes it.
    let mut a = SwitchAnimation::new(false);
    a.start_animation(true);
    assert!(a.animating);

    a.update(75_000);
    assert_eq!(a.position(), TRAVEL_MICROS / 2);
    assert!((fraction(&a) - 0.5).abs() < 1e-9);
    assert!(a.animating);

    a.update(75_000);
    assert_eq!(a.position(), TRAVEL_MICROS);
    assert!((fraction(&a) - 1.0).abs() < 1e-9);
    assert!(!a.animating);
}

#[test]
fn test_retrigger_mid_flight_redirects_without_jump() {
    // Halfway toward RIGHT, retarget to LEFT: the position is untouched by
    // the retrigger and every later tick moves it downward, never by more
    // than the elapsed time.
    let mut a = SwitchAnimation::new(false);
    a.start_animation(true);
    a.update(75_000);
    assert_eq!(a.position(), 75_000);

    a.start_animation(false);
    assert_eq!(a.position(), 75_000); // no teleport
    assert!(a.animating);

    let before = a.position();
    a.update(30_000);
    assert_eq!(a.position(), 45_000);
    assert!(a.position() < before);
    assert!(before - a.position() <= 30_000);
    assert!(a.animating);

    a.update(60_000);
    assert_eq!(a.position(), 0);
    assert!(!a.animating);
}

#[test]
fn test_overshoot_is_clamped() {
    let mut a = SwitchAnimation::new(false);
    a.start_animation(true);
    a.update(u64::MAX);
    assert_eq!(a.position(), TRAVEL_MICROS);
    assert!(!a.animating);
}

#[test]
fn test_zero_delta_stalls_without_settling() {
    let mut a = SwitchAnimation::new(false);
    a.start_animation(true);
    a.update(10_000);
    a.update(0);
    assert_eq!(a.position(), 10_000);
    assert!(a.animating);
}

#[test]
fn test_retrigger_to_same_state_settles_next_tick() {
    // Re-arming an already settled tween briefly reports animating until
    // the next tick clears it.
    let mut a = SwitchAnimation::new(false);
    a.start_animation(false);
    assert!(a.animating);
    a.update(0);
    assert!(!a.animating);
    assert_eq!(a.position(), 0);
}

#[test]
fn test_update_when_idle_is_a_no_op() {
    let mut a = SwitchAnimation::new(true);
    a.update(99_999);
    assert_eq!(a.position(), TRAVEL_MICROS);
    assert!(!a.animating);
    assert!(a.target_state);
}
