use std::time::Duration;

use wayclick_input::engine::{
    next_delay, pace, should_continue, sleep_slice, ClickConfig, ClickKind, ClickSession,
    ClickStep, Repeat, Rng, Target,
};
use wayclick_input::mouse::MouseButton;

#[test]
fn fixed_interval_ignores_jitter() {
    let mut rng = Rng::new(42);
    let d = next_delay(Duration::from_millis(100), Duration::ZERO, &mut rng);
    assert_eq!(d, Duration::from_millis(100));
}

#[test]
fn jitter_is_symmetric_around_base() {
    let mut rng = Rng::new(12345);
    let base = Duration::from_millis(100);
    let jitter = Duration::from_millis(50);
    let (mut lo, mut hi) = (Duration::MAX, Duration::ZERO);
    for _ in 0..10_000 {
        let d = next_delay(base, jitter, &mut rng);
        assert!(d >= base - jitter, "delay {d:?} below base-jitter");
        assert!(d <= base + jitter, "delay {d:?} above base+jitter");
        lo = lo.min(d);
        hi = hi.max(d);
    }
    // Both halves of the ± range are actually used.
    assert!(lo < base, "no delay ever fell below base ({lo:?})");
    assert!(hi > base, "no delay ever rose above base ({hi:?})");
}

#[test]
fn jitter_larger_than_base_saturates_at_zero() {
    let mut rng = Rng::new(99);
    let base = Duration::from_millis(10);
    let jitter = Duration::from_millis(50);
    for _ in 0..1_000 {
        let d = next_delay(base, jitter, &mut rng);
        assert!(d <= base + jitter);
    }
}

#[test]
fn count_terminates() {
    assert!(should_continue(Repeat::Count(3), 0));
    assert!(should_continue(Repeat::Count(3), 2));
    assert!(!should_continue(Repeat::Count(3), 3));
    assert!(!should_continue(Repeat::Count(3), 4));
}

#[test]
fn infinite_never_terminates() {
    assert!(should_continue(Repeat::Infinite, 0));
    assert!(should_continue(Repeat::Infinite, 1_000_000));
}

#[test]
fn rng_is_deterministic() {
    let mut a = Rng::new(7);
    let mut b = Rng::new(7);
    for _ in 0..100 {
        assert_eq!(a.next_u64(), b.next_u64());
    }
}

/// The xorshift64* sequence computed by hand for the first output of seed 1.
#[test]
fn rng_first_output_of_seed_one() {
    let mut x: u64 = 1;
    x ^= x >> 12;
    x ^= x << 25;
    x ^= x >> 27;
    let expected = x.wrapping_mul(0x2545F4914F6CDD1D);
    let mut rng = Rng::new(0);
    assert_eq!(rng.next_u64(), expected);
    // seed 0 and seed 1 both start from state 1.
    let mut one = Rng::new(1);
    assert_eq!(one.next_u64(), expected);
}

#[test]
fn in_range_stays_in_range() {
    let mut rng = Rng::new(5);
    assert_eq!(rng.in_range(0), 0);
    for _ in 0..1000 {
        assert!(rng.in_range(6) <= 6);
    }
}

#[test]
fn zero_jitter_leaves_generator_untouched() {
    let mut a = Rng::new(3);
    let mut b = Rng::new(3);
    let _ = next_delay(Duration::from_millis(5), Duration::ZERO, &mut a);
    assert_eq!(a.next_u64(), b.next_u64());
}

#[test]
fn jitter_delay_matches_draw() {
    // With jitter 1µs the offset is in_range(2) µs, so the delay is
    // interval - 1µs + offset.
    let mut a = Rng::new(11);
    let mut b = Rng::new(11);
    let d = next_delay(Duration::from_millis(1), Duration::from_micros(1), &mut a);
    let offset = b.in_range(2);
    assert_eq!(d, Duration::from_millis(1) + Duration::from_micros(offset) - Duration::from_micros(1));
}

#[test]
fn default_config() {
    let c = ClickConfig::default();
    assert_eq!(c.button, MouseButton::Left);
    assert_eq!(c.kind, ClickKind::Single);
    assert_eq!(c.interval, Duration::from_millis(100));
    assert_eq!(c.jitter, Duration::ZERO);
    assert_eq!(c.repeat, Repeat::Infinite);
    assert_eq!(c.target, Target::FollowCursor);
    assert_eq!(c.hold, Duration::from_millis(40));
    assert_eq!(c.double_gap, Duration::from_millis(40));
    assert!(!c.reposition_each_click);
}

#[test]
fn session_counts_ticks() {
    let cfg = ClickConfig { repeat: Repeat::Count(3), ..ClickConfig::default() };
    let mut s = ClickSession::new(cfg, 9);
    assert_eq!(s.initial_position(), None);
    let mut ticks = 0;
    while s.running(false) {
        let steps = s.tick();
        assert_eq!(steps.len(), 1);
        ticks += 1;
        match s.complete_tick() {
            Some(d) => assert_eq!(d, Duration::from_millis(100)),
            None => break,
        }
    }
    assert_eq!(ticks, 3);
    assert!(s.next_delay_fits());
    assert_eq!(s.done(), 3);
    assert!(!s.running(false));
}

#[test]
fn session_stops_on_request() {
    let s = ClickSession::new(ClickConfig::default(), 1);
    assert!(s.running(false));
    assert!(!s.running(true));
}

#[test]
fn double_click_with_reposition() {
    let cfg = ClickConfig {
        kind: ClickKind::Double,
        target: Target::Fixed { x: 10, y: 20 },
        reposition_each_click: true,
        button: MouseButton::Right,
        ..ClickConfig::default()
    };
    let s = ClickSession::new(cfg, 1);
    assert_eq!(s.initial_position(), Some((10, 20)));
    let steps = s.tick();
    assert_eq!(steps.len(), 4);
    assert!(matches!(steps[0], ClickStep::MoveTo { x: 10, y: 20 }));
    assert!(matches!(steps[1], ClickStep::Click { button: MouseButton::Right, .. }));
    assert!(matches!(steps[2], ClickStep::Pause(d) if d == Duration::from_millis(40)));
    assert!(matches!(steps[3], ClickStep::Click { button: MouseButton::Right, .. }));
}

#[test]
fn fixed_target_without_reposition_moves_once() {
    let cfg = ClickConfig { target: Target::Fixed { x: 1, y: 2 }, ..ClickConfig::default() };
    let s = ClickSession::new(cfg, 1);
    assert_eq!(s.initial_position(), Some((1, 2)));
    let steps = s.tick();
    assert_eq!(steps.len(), 1);
    assert!(matches!(steps[0], ClickStep::Click { .. }));
}

#[test]
fn pacing_keeps_period_and_drops_backlog() {
    let ms = Duration::from_millis;
    // On time: the next deadline is one delay after the previous one.
    assert_eq!(pace(ms(100), ms(100), ms(150)), (ms(200), ms(50)));
    // Overdue: the deadline moves up to now, with no sleep.
    assert_eq!(pace(ms(100), ms(100), ms(350)), (ms(350), ms(0)));
}

#[test]
fn sleep_is_sliced() {
    let ms = Duration::from_millis;
    assert_eq!(sleep_slice(ms(25)), Some((ms(10), ms(15))));
    assert_eq!(sleep_slice(ms(5)), Some((ms(5), ms(0))));
    assert_eq!(sleep_slice(ms(0)), None);
}
