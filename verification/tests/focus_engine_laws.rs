use march_7th_app_lib::focus::model::{
    Command, Data, Engine, Feedback, Outcome, Session, Time, MIN_DURATION_MS, VERSION,
};

fn at(utc_ms: i64, monotonic_ms: u64) -> Time {
    Time {
        utc_ms,
        monotonic_ms,
    }
}

fn remaining(e: &Engine) -> u64 {
    match e.data.session {
        Session::Running { remaining_ms, .. }
        | Session::Paused { remaining_ms, .. }
        | Session::Interrupted { remaining_ms, .. } => remaining_ms,
        _ => 0,
    }
}

#[test]
fn pause_and_resume_keep_the_remaining_time() {
    let duration_ms = MIN_DURATION_MS * 2;
    let mut e = Engine::new();
    e.step(Command::Start { duration_ms }, at(1_000_000, 100))
        .unwrap();
    e.step(Command::Pause, at(1_000_000 + 5_000, 5_100)).unwrap();
    assert_eq!(
        e.data.session,
        Session::Paused {
            duration_ms,
            remaining_ms: duration_ms - 5_000
        }
    );
    e.step(Command::Resume, at(9_000_000, 9_000)).unwrap();
    assert_eq!(remaining(&e), duration_ms - 5_000);
    assert!(matches!(e.data.session, Session::Running { .. }));
}

#[test]
fn untrustworthy_clock_keeps_remaining_and_never_extends() {
    let duration_ms = MIN_DURATION_MS * 2;
    let mut e = Engine::new();
    e.step(Command::Start { duration_ms }, at(1_000_000, 100))
        .unwrap();
    e.step(Command::Tick, at(1_000_000 + 1_000, 1_100)).unwrap();
    let before = remaining(&e);
    assert_eq!(before, duration_ms - 1_000);
    // The wall clock jumps far ahead of the monotonic clock.
    e.step(Command::Tick, at(1_000_000 + 600_000, 1_200)).unwrap();
    assert_eq!(
        e.data.session,
        Session::Interrupted {
            duration_ms,
            remaining_ms: before
        }
    );
    e.step(Command::Resume, at(5_000_000, 2_000)).unwrap();
    assert_eq!(remaining(&e), before);
}

#[test]
fn restore_never_replays_a_completion() {
    let running = |remaining_ms: u64| Data {
        version: VERSION,
        session: Session::Running {
            duration_ms: MIN_DURATION_MS,
            remaining_ms,
            anchor_utc_ms: 1_000_000,
        },
    };
    let mut passed = Engine::restore(running(1_000), at(1_000_000 + 5_000, 7)).unwrap();
    assert_eq!(
        passed.data.session,
        Session::Finished {
            duration_ms: MIN_DURATION_MS,
            outcome: Outcome::Natural,
            feedback: Feedback::Pending
        }
    );
    assert!(!passed.step(Command::Tick, at(1_000_000 + 5_000, 7)).unwrap().completed_now);
    let mut live = Engine::restore(running(10_000), at(1_000_000 + 5_000, 7)).unwrap();
    assert_eq!(remaining(&live), 5_000);
    assert!(!live.step(Command::Tick, at(1_000_000 + 5_000, 7)).unwrap().completed_now);
    assert!(live.step(Command::Tick, at(1_000_000 + 10_000, 5_007)).unwrap().completed_now);
}
