use frame_engine::format::Fraction;
use frame_engine::pacer::{FramePacer, MAX_DELAY_MICROS};

#[test]
fn period_follows_the_frame_rate() {
    assert_eq!(
        FramePacer::period_micros_for(&Fraction { numer: 30, denom: 1 }),
        Some(33_333)
    );
    assert_eq!(
        FramePacer::period_micros_for(&Fraction { numer: 60, denom: 1 }),
        Some(16_666)
    );
    assert_eq!(
        FramePacer::period_micros_for(&Fraction { numer: 30000, denom: 1001 }),
        Some(33_366)
    );
    assert_eq!(FramePacer::period_micros_for(&Fraction { numer: 0, denom: 1 }), None);
}

#[test]
fn delay_is_capped_at_one_second() {
    let mut p = FramePacer::new(10_000_000);
    // first frame due immediately; the second is ten seconds out
    assert_eq!(p.next_delay(0), 0);
    let d = p.next_delay(0);
    assert_eq!(d, MAX_DELAY_MICROS);
}

#[test]
fn caller_behind_schedule_is_released_immediately() {
    let mut p = FramePacer::new(33_333);
    assert_eq!(p.next_delay(1_000_000), 0);
    // the schedule still advanced: no frame count is skipped
    assert_eq!(p.next_frame_micros, 33_333);
}

#[test]
fn schedule_advances_by_exactly_one_period_per_call() {
    let mut p = FramePacer::new(33_333);
    for i in 0..10u64 {
        assert_eq!(p.next_frame_micros, i * 33_333);
        p.next_delay(0);
    }
    assert_eq!(p.next_frame_micros, 10 * 33_333);
}

#[test]
fn pacing_converges_without_drift() {
    // a caller that sleeps exactly the returned delay and spends 1000
    // microseconds producing each frame: after n frames the clock stands
    // within one period of n times the period
    let period: u64 = 33_333;
    let mut p = FramePacer::new(period);
    let mut clock: u64 = 0;
    for _ in 0..90 {
        let delay = p.next_delay(clock);
        assert!(delay <= MAX_DELAY_MICROS);
        clock += delay; // sleep
        clock += 1_000; // render work
    }
    let target = 90 * period;
    assert!(clock + period > target, "stream ran too fast: {clock} vs {target}");
    assert!(clock < target + period, "stream drifted late: {clock} vs {target}");
}
