use pomodoro_timer::TimerDriver;
use pomodoro_timer::TimerState;

/// Starts the paused driver and fires the clock until the current phase
/// completes, returning the notification message and how many firings it took.
fn run_phase_to_completion(driver: &mut TimerDriver) -> (String, u32) {
    driver.on_toggle();
    assert!(driver.armed);
    let mut firings: u32 = 0;
    loop {
        firings += 1;
        if let Some(message) = driver.on_clock_fire() {
            assert!(!driver.armed);
            assert!(!driver.machine.running);
            return (message, firings);
        }
        assert!(driver.armed);
    }
}

#[test]
fn full_work_session_ends_in_a_short_break() {
    let mut driver = TimerDriver::new();
    assert_eq!(driver.machine.phase, TimerState::Work);
    assert_eq!(driver.machine.remaining_seconds, 1500);
    assert!(!driver.machine.running);
    assert_eq!(driver.machine.completed_work_sessions, 0);

    driver.on_toggle();
    let mut notifications: u32 = 0;
    for _ in 0..1500 {
        if driver.on_clock_fire().is_some() {
            notifications += 1;
        }
    }
    // Each of the first 1500 firings only took a second off; the countdown is
    // spent but the transition waits for the firing that finds zero left.
    assert_eq!(notifications, 0);
    assert_eq!(driver.machine.remaining_seconds, 0);
    assert!(driver.machine.running);

    let message = driver.on_clock_fire().expect("the exhausting tick notifies");
    assert_eq!(message, "Work Time finished! Time for Short Break");
    assert_eq!(driver.machine.phase, TimerState::ShortBreak);
    assert_eq!(driver.machine.remaining_seconds, 300);
    assert!(!driver.machine.running);
    assert_eq!(driver.machine.completed_work_sessions, 1);
    assert!(!driver.armed);

    // Idle clock: nothing fires, nothing changes until the next toggle.
    let settled = driver;
    driver.on_clock_fire();
    assert_eq!(driver, settled);
}

#[test]
fn fourth_work_completion_earns_a_long_break() {
    let mut driver = TimerDriver::new();
    for cycle in 1..=4u32 {
        let (message, firings) = run_phase_to_completion(&mut driver);
        assert_eq!(firings, 1501);
        assert_eq!(driver.machine.completed_work_sessions, cycle);
        if cycle < 4 {
            assert_eq!(message, "Work Time finished! Time for Short Break");
            assert_eq!(driver.machine.phase, TimerState::ShortBreak);
            let (back, firings) = run_phase_to_completion(&mut driver);
            assert_eq!(back, "Short Break finished! Time for Work Time");
            assert_eq!(firings, 301);
            assert_eq!(driver.machine.phase, TimerState::Work);
            assert_eq!(driver.machine.remaining_seconds, 1500);
        } else {
            assert_eq!(message, "Work Time finished! Time for Long Break");
            assert_eq!(driver.machine.phase, TimerState::LongBreak);
            assert_eq!(driver.machine.remaining_seconds, 900);
        }
    }
}
