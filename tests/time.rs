use spelunking_clock::duration::{mul_dur_by_factor, Duration, TimeFactor, MAX_NANOS};
use spelunking_clock::time::{DirectedTime, Instant, Timekeeper};

#[test]
fn sim_delta() {
    let mut timekeeper = Timekeeper::new();
    assert_eq!(timekeeper.delta(), DirectedTime::Still);
    timekeeper.update_real_time(Duration::from_secs(2));
    assert_eq!(timekeeper.delta(), DirectedTime::Still);
    timekeeper.add_simulation_time(Duration::from_secs(8));
    timekeeper.update_real_time(Duration::from_secs(2));
    assert_eq!(
        timekeeper.delta(),
        DirectedTime::Future(Duration::from_secs(2))
    );
    timekeeper.update_real_time(Duration::from_secs(2));
    assert_eq!(
        timekeeper.delta(),
        DirectedTime::Future(Duration::from_secs(2))
    );
    timekeeper.update_real_time(Duration::from_secs(3));
    assert_eq!(
        timekeeper.delta(),
        DirectedTime::Future(Duration::from_secs(3))
    );
    timekeeper.update_real_time(Duration::from_secs(2));
    assert_eq!(
        timekeeper.delta(),
        DirectedTime::Future(Duration::from_secs(1))
    );
    timekeeper.update_real_time(Duration::from_secs(1));
    assert_eq!(timekeeper.delta(), DirectedTime::Still);
}

#[test]
fn sim_now() {
    let mut timekeeper = Timekeeper::new();
    let start = timekeeper.now();
    timekeeper.update_real_time(Duration::from_secs(1));
    assert_eq!(timekeeper.now(), start);
    timekeeper.add_simulation_time(Duration::from_secs(8));
    assert_eq!(timekeeper.now(), start);
    timekeeper.update_real_time(Duration::from_secs(1));
    assert_ne!(timekeeper.now(), start);
    assert_eq!(
        timekeeper.now().compare_to(start),
        DirectedTime::Past(Duration::from_secs(1))
    );
    timekeeper.update_real_time(Duration::from_secs(1));
    assert_eq!(
        timekeeper.now().compare_to(start),
        DirectedTime::Past(Duration::from_secs(2))
    );
}

#[test]
fn sim_now_backwards() {
    let mut timekeeper = Timekeeper::new();
    timekeeper.add_simulation_time(Duration::from_secs(8));
    timekeeper.update_real_time(Duration::from_secs(8));
    let start = timekeeper.now();
    timekeeper.set_time_factor(TimeFactor::whole(-1));
    timekeeper.update_real_time(Duration::from_secs(1));
    assert_eq!(timekeeper.now(), start);
    timekeeper.add_simulation_time(Duration::from_secs(8));
    assert_eq!(timekeeper.now(), start);
    timekeeper.update_real_time(Duration::from_secs(1));
    assert_ne!(timekeeper.now(), start);
    assert_eq!(
        timekeeper.now().compare_to(start),
        DirectedTime::Future(Duration::from_secs(1))
    );
    timekeeper.update_real_time(Duration::from_secs(1));
    assert_eq!(
        timekeeper.now().compare_to(start),
        DirectedTime::Future(Duration::from_secs(2))
    );
}

#[test]
fn time_factor() {
    let mut timekeeper = Timekeeper::new();
    timekeeper.add_simulation_time(Duration::from_secs(8));
    timekeeper.update_real_time(Duration::from_secs(2));
    assert_eq!(
        timekeeper.delta(),
        DirectedTime::Future(Duration::from_secs(2))
    );
    timekeeper.set_time_factor(TimeFactor::whole(2));
    assert_eq!(
        timekeeper.delta(),
        DirectedTime::Future(Duration::from_secs(2))
    );
    timekeeper.update_real_time(Duration::from_secs(2));
    assert_eq!(
        timekeeper.delta(),
        DirectedTime::Future(Duration::from_secs(4))
    );
    timekeeper.update_real_time(Duration::from_secs(2));
    assert_eq!(
        timekeeper.delta(),
        DirectedTime::Future(Duration::from_secs(2))
    );
    timekeeper.update_real_time(Duration::from_secs(2));
    assert_eq!(timekeeper.delta(), DirectedTime::Still);
    timekeeper.set_time_factor(TimeFactor::new(1, 2));
    timekeeper.add_simulation_time(Duration::from_secs(8));
    assert_eq!(timekeeper.delta(), DirectedTime::Still);
    timekeeper.update_real_time(Duration::from_secs(2));
    assert_eq!(
        timekeeper.delta(),
        DirectedTime::Future(Duration::from_secs(1))
    );
    timekeeper.update_real_time(Duration::from_secs(4));
    assert_eq!(
        timekeeper.delta(),
        DirectedTime::Future(Duration::from_secs(2))
    );
    timekeeper.set_time_factor(TimeFactor::whole(1));
    timekeeper.update_real_time(Duration::from_secs(2));
    assert_eq!(
        timekeeper.delta(),
        DirectedTime::Future(Duration::from_secs(2))
    );
    timekeeper.update_real_time(Duration::from_secs(8));
    assert_eq!(
        timekeeper.delta(),
        DirectedTime::Future(Duration::from_secs(3))
    );
    timekeeper.set_time_factor(TimeFactor::whole(-1));
    timekeeper.add_simulation_time(Duration::from_secs(8));
    timekeeper.update_real_time(Duration::from_secs(2));
    assert_eq!(
        timekeeper.delta(),
        DirectedTime::Past(Duration::from_secs(2))
    );
    timekeeper.set_time_factor(TimeFactor::new(-1, 2));
    timekeeper.update_real_time(Duration::from_secs(2));
    assert_eq!(
        timekeeper.delta(),
        DirectedTime::Past(Duration::from_secs(1))
    );
    timekeeper.set_time_factor(TimeFactor::whole(-5));
    timekeeper.update_real_time(Duration::from_secs(2));
    assert_eq!(
        timekeeper.delta(),
        DirectedTime::Past(Duration::from_secs(5))
    );
}

#[test]
fn duration_multiplication() {
    assert_eq!(
        mul_dur_by_factor(Duration::new(4, 600_000_000), TimeFactor::new(1, 2)),
        Duration::new(2, 300_000_000)
    );
    assert_eq!(
        mul_dur_by_factor(Duration::new(4, 600_000_000), TimeFactor::whole(2)),
        Duration::new(9, 200_000_000)
    );
    assert_eq!(
        mul_dur_by_factor(Duration::new(5, 600_000_000), TimeFactor::new(1, 2)),
        Duration::new(2, 800_000_000)
    );
}

#[test]
fn scale_by_one_keeps_and_by_zero_empties() {
    let d = Duration::new(123_456, 789_012_345);
    assert_eq!(mul_dur_by_factor(d, TimeFactor::whole(1)), d);
    assert_eq!(mul_dur_by_factor(d, TimeFactor::new(7, 7)), d);
    assert_eq!(mul_dur_by_factor(d, TimeFactor::whole(0)), Duration::zero());
}

#[test]
fn scale_keeps_nanoseconds_of_long_spans() {
    let d = Duration::new(10_000_000_000, 1);
    assert_eq!(
        mul_dur_by_factor(d, TimeFactor::whole(3)),
        Duration::new(30_000_000_000, 3)
    );
    assert_eq!(
        mul_dur_by_factor(Duration::from_nanos(7), TimeFactor::new(1, 2)),
        Duration::from_nanos(3)
    );
}

#[test]
fn duration_parts() {
    let d = Duration::new(3, 1_500_000_000);
    assert_eq!(d.as_secs(), 4);
    assert_eq!(d.subsec_nanos(), 500_000_000);
    assert_eq!(d.as_nanos(), 4_500_000_000);
    assert_eq!(Duration::from_millis(250).as_nanos(), 250_000_000);
    assert_eq!(d.minus(Duration::from_secs(1)), Duration::new(3, 500_000_000));
    assert_eq!(d.plus(Duration::from_millis(500)), Duration::from_secs(5));
    assert_eq!(d.min(Duration::from_secs(1)), Duration::from_secs(1));
}

#[test]
fn budget_is_conserved() {
    let mut timekeeper = Timekeeper::new();
    timekeeper.add_simulation_time(Duration::from_secs(3));
    timekeeper.update_real_time(Duration::from_millis(500));
    timekeeper.add_simulation_time(Duration::from_secs(1));
    timekeeper.update_real_time(Duration::from_secs(2));
    timekeeper.update_real_time(Duration::from_secs(5));
    // added 4s; consumed 0.5s + 2s + 1.5s
    assert_eq!(timekeeper.delta(), DirectedTime::Future(Duration::from_millis(1_500)));
    assert_eq!(timekeeper.remaining_simulation_time(), Duration::zero());
    assert_eq!(timekeeper.now(), Instant::at(Duration::from_secs(4)));
}

#[test]
fn advance_is_clamped_to_budget() {
    let mut timekeeper = Timekeeper::new();
    timekeeper.set_time_factor(TimeFactor::whole(2));
    timekeeper.add_simulation_time(Duration::from_secs(8));
    timekeeper.update_real_time(Duration::from_secs(2));
    assert_eq!(timekeeper.delta(), DirectedTime::Future(Duration::from_secs(4)));
    timekeeper.update_real_time(Duration::from_secs(2));
    assert_eq!(timekeeper.delta(), DirectedTime::Future(Duration::from_secs(4)));
    timekeeper.add_simulation_time(Duration::from_secs(2));
    timekeeper.update_real_time(Duration::from_secs(2));
    assert_eq!(timekeeper.delta(), DirectedTime::Future(Duration::from_secs(2)));
    assert_eq!(timekeeper.remaining_simulation_time(), Duration::zero());
}

#[test]
fn rewind_returns_to_start() {
    let mut timekeeper = Timekeeper::new();
    timekeeper.add_simulation_time(Duration::from_secs(8));
    let before = timekeeper.now();
    timekeeper.update_real_time(Duration::from_secs(3));
    assert_eq!(timekeeper.now(), Instant::at(Duration::from_secs(3)));
    timekeeper.set_time_factor(TimeFactor::whole(-1));
    timekeeper.update_real_time(Duration::from_secs(3));
    assert_eq!(timekeeper.delta(), DirectedTime::Past(Duration::from_secs(3)));
    assert_eq!(timekeeper.now(), before);
}

#[test]
fn rewind_from_eight_seconds() {
    let mut timekeeper = Timekeeper::new();
    timekeeper.add_simulation_time(Duration::from_secs(8));
    timekeeper.update_real_time(Duration::from_secs(8));
    timekeeper.add_simulation_time(Duration::from_secs(8));
    timekeeper.set_time_factor(TimeFactor::whole(-1));
    timekeeper.update_real_time(Duration::from_secs(2));
    assert_eq!(timekeeper.delta(), DirectedTime::Past(Duration::from_secs(2)));
    assert_eq!(timekeeper.now(), Instant::at(Duration::from_secs(6)));
}

#[test]
fn zero_rate_stands_still_and_keeps_budget() {
    let mut timekeeper = Timekeeper::new();
    timekeeper.add_simulation_time(Duration::from_secs(8));
    timekeeper.set_time_factor(TimeFactor::whole(0));
    timekeeper.update_real_time(Duration::from_secs(2));
    assert_eq!(timekeeper.delta(), DirectedTime::Still);
    assert_eq!(timekeeper.remaining_simulation_time(), Duration::from_secs(8));
    assert_eq!(timekeeper.real_time_delta(), Duration::from_secs(2));
}

#[test]
fn rewind_past_epoch_is_refused() {
    let mut timekeeper = Timekeeper::new();
    timekeeper.add_simulation_time(Duration::from_secs(8));
    timekeeper.set_time_factor(TimeFactor::whole(-1));
    assert!(!timekeeper.can_advance(Duration::from_secs(1)));
    assert!(timekeeper.can_advance(Duration::from_secs(0)));
    timekeeper.set_time_factor(TimeFactor::whole(1));
    assert!(timekeeper.can_advance(Duration::from_secs(1)));
}

#[test]
fn compare_instants() {
    let a = Instant::at(Duration::from_secs(2));
    let b = Instant::at(Duration::from_secs(5));
    assert_eq!(a.compare_to(b), DirectedTime::Future(Duration::from_secs(3)));
    assert_eq!(b.compare_to(a), DirectedTime::Past(Duration::from_secs(3)));
    assert_eq!(a.compare_to(a), DirectedTime::Still);
    assert_eq!(a.plus(Duration::from_secs(3)), b);
    assert_eq!(b.minus(Duration::from_secs(3)), a);
}

#[test]
fn time_factor_parts() {
    let f = TimeFactor::new(-3, 4);
    assert_eq!(f.numerator(), -3);
    assert_eq!(f.denominator(), 4);
    assert!(f.is_backward());
    assert!(!f.is_forward());
    assert_eq!(f.abs(), TimeFactor::new(3, 4));
}

#[test]
fn budget_overflow_is_refused() {

    let mut timekeeper = Timekeeper::new();
    assert!(timekeeper.can_add_simulation_time(Duration::from_nanos(MAX_NANOS)));
    timekeeper.add_simulation_time(Duration::from_secs(1));
    assert!(!timekeeper.can_add_simulation_time(Duration::from_nanos(MAX_NANOS)));
    assert!(timekeeper.can_add_simulation_time(Duration::from_nanos(MAX_NANOS - 1_000_000_000)));
}
