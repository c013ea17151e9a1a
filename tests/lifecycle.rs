use loom::lifecycle::{failure_report, Hook, HookFailure, HookOutcome, Lifecycle, Phase};
use loom::timestep::TimeStep;

fn run() -> Lifecycle {
    Lifecycle::new(TimeStep::new(60).unwrap())
}

#[test]
fn init_fires_once() {
    let mut l = run();
    assert_eq!(l.phase(), Phase::Uninitialized);
    assert_eq!(l.start(), Some(Hook::Init));
    assert_eq!(l.phase(), Phase::Running);
    assert_eq!(l.start(), None);
}

#[test]
fn no_frame_before_start() {
    let mut l = run();
    assert_eq!(l.begin_frame(16_000_000), None);
}

#[test]
fn frame_plan_carries_delta_and_ticks() {
    let mut l = run();
    l.start();
    let plan = l.begin_frame(50_000_000).unwrap();
    assert_eq!(plan.ticks, 3);
    assert_eq!(plan.delta_nanos, 50_000_000);
}

#[test]
fn failed_frame_does_not_stop_loop() {
    let mut l = run();
    l.start();
    let mut frames = 0;
    let mut reports = Vec::new();
    for i in 1..=4 {
        l.begin_frame(16_000_000).unwrap();
        frames += 1;
        let outcome = if i == 3 {
            HookOutcome::Failed("boom".to_string())
        } else {
            HookOutcome::Completed
        };
        let (goes_on, report) = l.end_frame(outcome, false);
        assert!(goes_on);
        reports.extend(report);
    }
    assert_eq!(frames, 4);
    assert_eq!(
        reports,
        vec![HookFailure { hook: Hook::Frame, message: "boom".to_string() }]
    );
}

#[test]
fn stop_ends_loop_and_shutdown_fires_once() {
    let mut l = run();
    l.start();
    let mut iterations = 0;
    loop {
        l.begin_frame(16_000_000).unwrap();
        iterations += 1;
        let (goes_on, _) = l.end_frame(HookOutcome::Completed, iterations == 5);
        if !goes_on {
            break;
        }
    }
    assert_eq!(iterations, 5);
    assert_eq!(l.phase(), Phase::ShuttingDown);
    assert_eq!(l.begin_frame(16_000_000), None);
    assert_eq!(l.finish(), Some(Hook::Shutdown));
    assert_eq!(l.phase(), Phase::Terminated);
    assert_eq!(l.finish(), None);
}

#[test]
fn finish_before_stop_does_nothing() {
    let mut l = run();
    l.start();
    assert_eq!(l.finish(), None);
    assert_eq!(l.phase(), Phase::Running);
}

#[test]
fn absent_and_completed_hooks_leave_no_report() {
    assert_eq!(failure_report(Hook::Init, HookOutcome::Absent), None);
    assert_eq!(failure_report(Hook::Shutdown, HookOutcome::Completed), None);
    assert_eq!(
        failure_report(Hook::Tick, HookOutcome::Failed("e".to_string())),
        Some(HookFailure { hook: Hook::Tick, message: "e".to_string() })
    );
}
