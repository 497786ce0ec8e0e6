use clack_boundary::timers::{TimerError, TimerId, Timers};

#[test]
fn two_timers_fire_and_report_pending_time() {
    let mut timers = Timers::new();
    let slow = timers.register_new(50).unwrap();
    let fast = timers.register_new(30).unwrap();
    assert_eq!(slow, TimerId(1));
    assert_eq!(fast, TimerId(2));

    let mut fired_slow = 0;
    let mut fired_fast = 0;
    let mut now = 0u64;
    while now <= 70 {
        for id in timers.tick_all(now) {
            if id == slow {
                fired_slow += 1;
            }
            if id == fast {
                fired_fast += 1;
            }
        }
        now += 10;
    }
    // The last tick happened at 70 ms, past 60 ms.
    assert!(fired_slow >= 1);
    assert!(fired_fast >= 1);
    assert_eq!(timers.smallest_duration(), Some(30));
    // 5 ms after the last tick, the 30 ms timer has 25 ms left.
    assert_eq!(timers.smallest_pending_duration(75), Some(25));
}

#[test]
fn first_tick_fires_and_period_must_pass() {
    let mut timers = Timers::new();
    let id = timers.register_new(10).unwrap();
    assert_eq!(timers.tick_all(100), vec![id]);
    assert_eq!(timers.tick_all(105), vec![]);
    assert_eq!(timers.tick_all(116), vec![id]);
    assert_eq!(timers.tick_all(126), vec![]);
}

#[test]
fn unregister_recomputes_smallest_duration() {
    let mut timers = Timers::new();
    let a = timers.register_new(50).unwrap();
    let b = timers.register_new(30).unwrap();
    assert_eq!(timers.smallest_duration(), Some(30));
    assert!(timers.unregister(b));
    assert_eq!(timers.smallest_duration(), Some(50));
    assert!(!timers.unregister(b));
    assert!(timers.unregister(a));
    assert_eq!(timers.smallest_duration(), None);
    assert_eq!(timers.smallest_pending_duration(0), None);
    assert_eq!(timers.len(), 0);
}

#[test]
fn unregistering_an_unknown_timer_fails() {
    let mut timers = Timers::new();
    let id = timers.register_new(20).unwrap();
    assert_eq!(timers.unregister_timer(TimerId(99)), Err(TimerError::UnregisterError));
    assert_eq!(timers.unregister_timer(id), Ok(()));
    assert_eq!(timers.unregister_timer(id), Err(TimerError::UnregisterError));
}
