use loom::timestep::{ConfigError, Scheduler, TimeStep, MAX_CATCH_UP_TICKS};

fn scheduler(tps: i64) -> Scheduler {
    Scheduler::new(TimeStep::new(tps).unwrap())
}

#[test]
fn zero_rate_is_refused() {
    assert_eq!(
        TimeStep::new(0),
        Err(ConfigError::NonPositiveRate { ticks_per_second: 0 })
    );
}

#[test]
fn negative_rate_is_refused() {
    assert_eq!(
        TimeStep::new(-60),
        Err(ConfigError::NonPositiveRate { ticks_per_second: -60 })
    );
}

#[test]
fn positive_rate_is_kept() {
    let step = TimeStep::new(60).unwrap();
    assert_eq!(step.ticks_per_second(), 60);
    assert_eq!(scheduler(60).accumulator(), 0);
}

#[test]
fn three_display_frames_at_sixty() {
    let mut s = scheduler(60);
    let counts = s.advance_all(&vec![16_600_000, 16_600_000, 16_600_000]);
    assert_eq!(counts, vec![0, 1, 1]);
    let total: u64 = counts.iter().sum();
    assert!(total == 2 || total == 3);
    // 3 * 16.6 ms = 49.8 ms; 2 ticks of 16.67 ms leave 16.47 ms carried.
    assert_eq!(s.accumulator(), 988_000_000);
}

#[test]
fn one_second_stall_is_capped() {
    let mut s = scheduler(60);
    let ticks = s.advance(1_000_000_000);
    assert_eq!(ticks, MAX_CATCH_UP_TICKS);
    assert!(ticks < 60);
    assert_eq!(s.accumulator(), 0);
}

#[test]
fn exact_steps_leave_nothing() {
    let mut s = scheduler(60);
    assert_eq!(s.advance(50_000_000), 3);
    assert_eq!(s.accumulator(), 0);
}

#[test]
fn remainder_carries_over() {
    let mut s = scheduler(10);
    assert_eq!(s.advance(150_000_000), 1);
    assert_eq!(s.accumulator(), 500_000_000);
    assert_eq!(s.advance(50_000_000), 1);
    assert_eq!(s.accumulator(), 0);
}

#[test]
fn zero_elapsed_runs_no_tick() {
    let mut s = scheduler(60);
    assert_eq!(s.advance(0), 0);
    assert_eq!(s.accumulator(), 0);
}

#[test]
fn tick_count_matches_floor_without_stalls() {
    let samples: Vec<u64> = vec![
        7_000_000, 33_000_000, 16_000_000, 1_000_000, 40_000_000, 12_345_678, 20_000_000,
    ];
    let mut s = scheduler(60);
    let counts = s.advance_all(&samples);
    let total_ticks: u64 = counts.iter().sum();
    let total_nanos: u128 = samples.iter().map(|&e| e as u128).sum();
    assert_eq!(total_ticks as u128, total_nanos * 60 / 1_000_000_000);
    assert!(s.accumulator() < 1_000_000_000);
}

#[test]
fn tick_count_stays_under_floor_with_a_stall() {
    let samples: Vec<u64> = vec![16_000_000, 2_000_000_000, 16_000_000];
    let mut s = scheduler(60);
    let counts = s.advance_all(&samples);
    let total_ticks: u64 = counts.iter().sum();
    let total_nanos: u128 = samples.iter().map(|&e| e as u128).sum();
    assert!((total_ticks as u128) < total_nanos * 60 / 1_000_000_000);
    assert!(counts.iter().all(|&c| c <= MAX_CATCH_UP_TICKS));
}

#[test]
fn largest_rate_and_elapsed_do_not_overflow() {
    let mut s = scheduler(i64::MAX);
    assert_eq!(s.advance(u64::MAX), MAX_CATCH_UP_TICKS);
    assert_eq!(s.accumulator(), 0);
}
