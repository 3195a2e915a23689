use led_effects::error::EffectError;
use led_effects::timing::{span_between, Pace, RateMeter, Scheduler, TimeInfo, MAX_DELTA};

#[test]
fn span_is_zero_when_the_clock_runs_backwards() {
    assert_eq!(span_between(10, 25), 15);
    assert_eq!(span_between(25, 10), 0);
    assert_eq!(span_between(0, u64::MAX), u64::MAX);
}

#[test]
fn measure_gives_elapsed_and_capped_delta() {
    assert_eq!(
        TimeInfo::measure(1_000, 4_000, 5_000),
        TimeInfo { elapsed: 4_000, delta: 1_000 }
    );
    assert_eq!(
        TimeInfo::measure(0, 0, MAX_DELTA),
        TimeInfo { elapsed: MAX_DELTA, delta: MAX_DELTA }
    );
    // a stall of three seconds shows as a tenth of a second
    assert_eq!(
        TimeInfo::measure(0, 1_000_000_000, 4_000_000_000),
        TimeInfo { elapsed: 4_000_000_000, delta: 100_000_000 }
    );
    assert_eq!(TimeInfo::measure(50, 60, 40), TimeInfo { elapsed: 0, delta: 0 });
}

#[test]
fn no_scheduler_for_zero_hertz() {
    assert_eq!(Scheduler::new(0), None);
    assert_eq!(Scheduler::new(1).unwrap().interval(), 1_000_000_000);
    assert_eq!(Scheduler::new(240).unwrap().interval(), 4_166_666);
    assert_eq!(Scheduler::new(u32::MAX).unwrap().interval(), 0);
}

#[test]
fn after_tick_waits_for_the_rest_of_the_interval() {
    let s = Scheduler::new(100).unwrap();
    assert_eq!(s.after_tick(Ok(()), 0), Pace::Wait(10_000_000));
    assert_eq!(s.after_tick(Ok(()), 9_999_999), Pace::Wait(1));
    assert_eq!(s.after_tick(Ok(()), 10_000_000), Pace::Proceed);
    assert_eq!(s.after_tick(Ok(()), 55_000_000), Pace::Proceed);
}

#[test]
fn after_tick_stops_on_an_error() {
    let s = Scheduler::new(100).unwrap();
    assert_eq!(
        s.after_tick(Err(EffectError::NotMounted), 1),
        Pace::Stop(EffectError::NotMounted)
    );
    assert_eq!(
        s.after_tick(Err(EffectError::MissingBuffer), 99_000_000),
        Pace::Stop(EffectError::MissingBuffer)
    );
}

#[test]
fn scheduler_at_240_hertz_ticks_480_times_in_two_seconds() {
    let s = Scheduler::new(240).unwrap();
    let mut now: u64 = 0;
    let mut ticks: u64 = 0;
    while now < 2_000_000_000 {
        ticks += 1;
        let spent: u64 = 1_000_000 + (ticks % 7) * 100_000;
        now += spent;
        match s.after_tick(Ok(()), spent) {
            Pace::Wait(rest) => now += rest,
            Pace::Proceed => {}
            Pace::Stop(_) => panic!("the tick did not fail"),
        }
    }
    assert!(ticks * 100 >= 480 * 95, "{} ticks", ticks);
    assert!(ticks * 100 <= 480 * 105, "{} ticks", ticks);
    assert_eq!(ticks, 481);
}

#[test]
fn an_overrun_is_not_made_up_for() {
    let s = Scheduler::new(10).unwrap();
    // one tick takes three intervals, the next is short again
    assert_eq!(s.after_tick(Ok(()), 300_000_000), Pace::Proceed);
    assert_eq!(s.after_tick(Ok(()), 1_000_000), Pace::Wait(99_000_000));
}

#[test]
fn rate_meter_reports_once_per_window() {
    let mut m = RateMeter::new(0);
    for i in 1..=480u64 {
        assert_eq!(m.tick(i * 4_166_666), None);
    }
    assert_eq!(m.updates, 480);
    // the 481st tick falls after the two seconds: 481 ticks in two seconds
    assert_eq!(m.tick(2_000_000_001), Some(2405));
    assert_eq!(m, RateMeter { updates: 0, window_start: 2_000_000_001 });
    assert_eq!(m.tick(2_000_000_002), None);
    assert_eq!(m.updates, 1);
}

#[test]
fn rate_meter_waits_for_more_than_the_window() {
    let mut m = RateMeter::new(1_000);
    assert_eq!(m.tick(2_000_001_000), None);
    assert_eq!(m.tick(2_000_001_001), Some(10));
    let mut full = RateMeter { updates: u64::MAX, window_start: 0 };
    assert_eq!(full.tick(5), None);
    assert_eq!(full.updates, u64::MAX);
    assert_eq!(full.tick(3_000_000_000), Some(u64::MAX));
}
