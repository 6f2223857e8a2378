use march_7th_app_lib::focus::model::{
    Code, Command, Data, Error, Feedback, Outcome, Session, Time, MIN_DURATION_MS,
};
use march_7th_app_lib::focus::service::{
    accept_command, checkpoint_due, export_allowed, next_wake, Core, Snapshot, Storage,
    CHECKPOINT_MS,
};
use std::sync::atomic::{AtomicBool, Ordering};
use std::sync::Arc;

fn put(out: &mut Vec<u8>, n: u64) {
    out.extend_from_slice(&n.to_le_bytes());
}

fn take(bytes: &[u8], at: &mut usize) -> Option<u64> {
    let chunk = bytes.get(*at..*at + 8)?;
    *at += 8;
    Some(u64::from_le_bytes(chunk.try_into().ok()?))
}

fn encode(data: &Data) -> Vec<u8> {
    let mut out = vec![data.version];
    match data.session {
        Session::Idle {} => out.push(0),
        Session::Running {
            duration_ms,
            remaining_ms,
            anchor_utc_ms,
        } => {
            out.push(1);
            put(&mut out, duration_ms);
            put(&mut out, remaining_ms);
            put(&mut out, anchor_utc_ms as u64);
        }
        Session::Paused {
            duration_ms,
            remaining_ms,
        } => {
            out.push(2);
            put(&mut out, duration_ms);
            put(&mut out, remaining_ms);
        }
        Session::Interrupted {
            duration_ms,
            remaining_ms,
        } => {
            out.push(3);
            put(&mut out, duration_ms);
            put(&mut out, remaining_ms);
        }
        Session::Finished {
            duration_ms,
            outcome,
            feedback,
        } => {
            out.push(4);
            put(&mut out, duration_ms);
            out.push(outcome as u8);
            out.push(feedback as u8);
        }
    }
    out
}

fn decode(bytes: &[u8]) -> Result<Data, Error> {
    let invalid = Error::new(Code::InvalidFile);
    let version = *bytes.first().ok_or(invalid)?;
    let mut at = 2;
    let session = match bytes.get(1).ok_or(invalid)? {
        0 => Session::Idle {},
        1 => Session::Running {
            duration_ms: take(bytes, &mut at).ok_or(invalid)?,
            remaining_ms: take(bytes, &mut at).ok_or(invalid)?,
            anchor_utc_ms: take(bytes, &mut at).ok_or(invalid)? as i64,
        },
        2 => Session::Paused {
            duration_ms: take(bytes, &mut at).ok_or(invalid)?,
            remaining_ms: take(bytes, &mut at).ok_or(invalid)?,
        },
        3 => Session::Interrupted {
            duration_ms: take(bytes, &mut at).ok_or(invalid)?,
            remaining_ms: take(bytes, &mut at).ok_or(invalid)?,
        },
        4 => {
            let duration_ms = take(bytes, &mut at).ok_or(invalid)?;
            let outcome = match bytes.get(at).ok_or(invalid)? {
                0 => Outcome::Natural,
                1 => Outcome::EndedEarly,
                _ => Outcome::Abandoned,
            };
            let feedback = match bytes.get(at + 1).ok_or(invalid)? {
                0 => Feedback::Absent,
                1 => Feedback::Pending,
                _ => Feedback::Dismissed,
            };
            Session::Finished {
                duration_ms,
                outcome,
                feedback,
            }
        }
        _ => return Err(invalid),
    };
    Ok(Data { version, session })
}

struct Memory {
    bytes: Vec<u8>,
    fail: Arc<AtomicBool>,
}

impl Storage for Memory {
    fn load(&mut self) -> Result<Vec<u8>, Error> {
        Ok(self.bytes.clone())
    }
    fn save(&mut self, bytes: &[u8]) -> Result<(), Error> {
        if self.fail.load(Ordering::SeqCst) {
            return Err(Error::new(Code::WriteFailed));
        }
        self.bytes = bytes.to_vec();
        Ok(())
    }
    fn decode(&self, bytes: &[u8]) -> Result<Data, Error> {
        decode(bytes)
    }
    fn encode(&self, data: &Data) -> Option<Vec<u8>> {
        Some(encode(data))
    }
}

fn time(ms: u64) -> Time {
    Time {
        utc_ms: ms as i64,
        monotonic_ms: ms,
    }
}

fn memory(data: Data) -> (Memory, Arc<AtomicBool>) {
    let fail = Arc::new(AtomicBool::new(false));
    (
        Memory {
            bytes: encode(&data),
            fail: fail.clone(),
        },
        fail,
    )
}

fn running() -> Data {
    Data {
        version: 1,
        session: Session::Running {
            duration_ms: MIN_DURATION_MS,
            remaining_ms: MIN_DURATION_MS,
            anchor_utc_ms: 0,
        },
    }
}

#[test]
fn failed_write_keeps_engine_snapshot_and_export_bytes() {
    let (store, fail) = memory(Data::default());
    let mut core = Core::load(store);
    core.pump(Command::Tick, time(0)).unwrap();
    let before = core.snapshot();
    let bytes = core.bytes().to_vec();
    fail.store(true, Ordering::SeqCst);
    assert_eq!(
        core.pump(
            Command::Start {
                duration_ms: MIN_DURATION_MS
            },
            time(0)
        )
        .unwrap_err()
        .code
        .as_str(),
        "writeFailed"
    );
    assert_eq!(core.snapshot(), before);
    assert_eq!(core.bytes(), &bytes[..]);
    fail.store(false, Ordering::SeqCst);
    core.pump(
        Command::Start {
            duration_ms: MIN_DURATION_MS,
        },
        time(0),
    )
    .unwrap();
    assert!(matches!(
        core.snapshot().data.unwrap().session,
        Session::Running { .. }
    ));
}

#[test]
fn restore_is_durable_without_live_completion_and_repeated_pause_is_idempotent() {
    let (store, _) = memory(running());
    let mut core = Core::load(store);
    core.pump(Command::Tick, time(MIN_DURATION_MS)).unwrap();
    assert!(matches!(
        core.snapshot().data.unwrap().session,
        Session::Finished { .. }
    ));
    assert_eq!(decode(core.bytes()).unwrap(), core.snapshot().data.unwrap());
    core.pump(
        Command::Start {
            duration_ms: MIN_DURATION_MS,
        },
        time(MIN_DURATION_MS),
    )
    .unwrap();
    core.pump(Command::Pause, time(MIN_DURATION_MS + 5)).unwrap();
    let paused = core.snapshot();
    assert!(!core.pump(Command::Pause, time(MIN_DURATION_MS + 10)).unwrap());
    assert_eq!(core.snapshot(), paused);
}

#[test]
fn failed_restore_keeps_the_original_session_until_a_successful_retry() {
    let data = running();
    let (store, fail) = memory(data);
    let mut core = Core::load(store);
    let bytes = core.bytes().to_vec();
    fail.store(true, Ordering::SeqCst);
    assert_eq!(
        core.pump(Command::Tick, time(MIN_DURATION_MS))
            .unwrap_err()
            .code
            .as_str(),
        "writeFailed"
    );
    assert_eq!(core.snapshot().data, Some(data));
    assert_eq!(core.bytes(), &bytes[..]);
    assert!(core.engine().is_none());
    fail.store(false, Ordering::SeqCst);
    core.pump(Command::Tick, time(MIN_DURATION_MS)).unwrap();
    assert!(matches!(
        core.snapshot().data.unwrap().session,
        Session::Finished { .. }
    ));
}

#[test]
fn command_sequence_persists_every_transition_and_restart_preserves_dismissal() {
    let (store, _) = memory(Data::default());
    let mut core = Core::load(store);
    for (command, ms) in [
        (Command::Tick, 0),
        (
            Command::Start {
                duration_ms: MIN_DURATION_MS,
            },
            0,
        ),
        (Command::Pause, 1000),
        (Command::Resume, 2000),
        (Command::Tick, 61000),
        (Command::DismissFeedback, 61000),
    ] {
        core.pump(command, time(ms)).unwrap();
        assert_eq!(decode(core.bytes()).unwrap(), core.snapshot().data.unwrap());
    }
    let saved = core.snapshot().data.unwrap();
    let mut restarted = Core::load(core.into_store());
    restarted.pump(Command::Tick, time(100000)).unwrap();
    assert_eq!(restarted.snapshot().data, Some(saved));
    assert!(!restarted
        .pump(Command::DismissFeedback, time(100000))
        .unwrap());
    restarted
        .pump(
            Command::Start {
                duration_ms: MIN_DURATION_MS,
            },
            time(100000),
        )
        .unwrap();
    assert_eq!(
        restarted
            .pump(
                Command::Start {
                    duration_ms: MIN_DURATION_MS
                },
                time(100000)
            )
            .unwrap_err()
            .code
            .as_str(),
        "alreadyActive"
    );
    restarted.pump(Command::Abandon, time(100000)).unwrap();
    assert!(!restarted.pump(Command::Abandon, time(100000)).unwrap());
    restarted
        .pump(
            Command::Start {
                duration_ms: MIN_DURATION_MS,
            },
            time(100000),
        )
        .unwrap();
    restarted.pump(Command::EndEarly, time(100000)).unwrap();
    assert!(!restarted.pump(Command::EndEarly, time(100000)).unwrap());
}

#[test]
fn recovering_initial_clock_failure_advances_revision_even_when_data_is_unchanged() {
    let (store, _) = memory(Data::default());
    let mut core = Core::load(store);
    core.report_failure(Error::new(Code::InvalidTime));
    let old = core.snapshot();
    assert_eq!(old.error, Some(Code::InvalidTime));
    assert!(core.pump(Command::Tick, time(0)).unwrap());
    assert_eq!(core.snapshot().error, None);
    assert!(core.snapshot().revision > old.revision);
}

#[test]
fn initial_tick_failure_is_published_as_an_error() {
    let (store, _) = memory(Data::default());
    let mut core = Core::load(store);
    core.start(Err(Error::new(Code::InvalidTime)));
    assert_eq!(core.snapshot().error, Some(Code::InvalidTime));
    assert_eq!(core.snapshot().data, Some(Data::default()));
    let mut fine = Core::load(memory(Data::default()).0);
    fine.start(Ok(time(0)));
    assert_eq!(fine.snapshot().error, None);
    assert!(fine.engine().is_some());
}

#[test]
fn failed_pause_does_not_advance_hidden_clock_and_completion_retries_once() {
    let (store, fail) = memory(Data::default());
    let mut core = Core::load(store);
    core.pump(
        Command::Start {
            duration_ms: MIN_DURATION_MS,
        },
        time(0),
    )
    .unwrap();
    let old = core.snapshot();
    fail.store(true, Ordering::SeqCst);
    assert!(core.pump(Command::Pause, time(1000)).is_err());
    assert_eq!(core.snapshot(), old);
    fail.store(false, Ordering::SeqCst);
    core.pump(Command::Tick, time(2000)).unwrap();
    assert!(matches!(
        core.snapshot().data.unwrap().session,
        Session::Running {
            remaining_ms: 58000,
            ..
        }
    ));
    let running = core.snapshot();
    fail.store(true, Ordering::SeqCst);
    assert!(core.pump(Command::Tick, time(MIN_DURATION_MS)).is_err());
    assert_eq!(core.snapshot(), running);
    fail.store(false, Ordering::SeqCst);
    core.pump(Command::Tick, time(MIN_DURATION_MS + 1000)).unwrap();
    assert!(matches!(
        core.snapshot().data.unwrap().session,
        Session::Finished { .. }
    ));
    assert!(!core.pump(Command::Tick, time(MIN_DURATION_MS + 2000)).unwrap());
}

#[test]
fn completion_signal_only_follows_a_successful_live_commit_never_restore_or_retry() {
    let (store, _) = memory(running());
    let mut restored = Core::load(store);
    restored.pump(Command::Tick, time(MIN_DURATION_MS)).unwrap();
    assert!(!restored.completed_now());
    let (store, fail) = memory(Data::default());
    let mut core = Core::load(store);
    core.pump(
        Command::Start {
            duration_ms: MIN_DURATION_MS,
        },
        time(0),
    )
    .unwrap();
    fail.store(true, Ordering::SeqCst);
    assert!(core.pump(Command::Tick, time(MIN_DURATION_MS)).is_err());
    assert!(!core.completed_now());
    fail.store(false, Ordering::SeqCst);
    core.pump(Command::Tick, time(MIN_DURATION_MS)).unwrap();
    assert!(core.completed_now());
    core.pump(Command::Tick, time(MIN_DURATION_MS + 1)).unwrap();
    assert!(!core.completed_now());
}

#[test]
fn checkpoint_wait_is_bounded_by_one_minute_and_remaining_time_with_exact_completion() {
    let (store, _) = memory(Data::default());
    let mut core = Core::load(store);
    assert_eq!(core.checkpoint_delay(), None);
    core.pump(
        Command::Start {
            duration_ms: 25 * 60_000,
        },
        time(0),
    )
    .unwrap();
    let mut now = 0;
    let mut checkpoints = 0;
    let mut completions = 0;
    while let Some(delay) = core.checkpoint_delay() {
        assert!(delay <= 60_000);
        now += delay;
        core.pump(Command::Tick, time(now)).unwrap();
        checkpoints += 1;
        completions += usize::from(core.completed_now());
        assert_eq!(decode(core.bytes()).unwrap(), core.snapshot().data.unwrap());
    }
    assert_eq!(now, 25 * 60_000);
    assert_eq!(checkpoints, 25);
    assert_eq!(completions, 1);
    core.pump(
        Command::Start {
            duration_ms: 65_000,
        },
        time(now),
    )
    .unwrap();
    core.pump(Command::Tick, time(now + 60_000)).unwrap();
    assert_eq!(core.checkpoint_delay(), Some(5_000));
    core.pump(Command::Pause, time(now + 61_000)).unwrap();
    assert_eq!(core.checkpoint_delay(), None);
    core.pump(Command::Resume, time(now + 62_000)).unwrap();
    assert_eq!(core.checkpoint_delay(), Some(4_000));
}

#[test]
fn checkpoint_gaps_restore_elapsed_time_and_detect_untrusted_sleep_without_replay() {
    let (store, _) = memory(Data::default());
    let mut core = Core::load(store);
    core.pump(
        Command::Start {
            duration_ms: 150_000,
        },
        time(0),
    )
    .unwrap();
    core.pump(Command::Tick, time(60_000)).unwrap();
    let mut restored = Core::load(core.into_store());
    restored.pump(Command::Tick, time(100_000)).unwrap();
    assert!(matches!(
        restored.snapshot().data.unwrap().session,
        Session::Running {
            remaining_ms: 50_000,
            ..
        }
    ));
    assert_eq!(restored.checkpoint_delay(), Some(50_000));
    assert!(!restored.completed_now());
    restored
        .pump(
            Command::Tick,
            Time {
                utc_ms: 200_000,
                monotonic_ms: 150_000,
            },
        )
        .unwrap();
    assert!(matches!(
        restored.snapshot().data.unwrap().session,
        Session::Interrupted {
            remaining_ms: 50_000,
            ..
        }
    ));
    assert_eq!(restored.checkpoint_delay(), None);
    assert!(!restored.completed_now());
    restored.pump(Command::Resume, time(210_000)).unwrap();
    restored.pump(Command::Tick, time(300_000)).unwrap();
    assert!(restored.completed_now());
    assert!(!restored.pump(Command::Tick, time(310_000)).unwrap());
    assert!(!restored.completed_now());
}

#[test]
fn unreadable_or_invalid_files_publish_their_error_and_no_data() {
    let mut broken = Memory {
        bytes: vec![9, 9],
        fail: Arc::new(AtomicBool::new(false)),
    };
    let core = Core::load(broken);
    assert_eq!(core.snapshot().data, None);
    assert_eq!(core.snapshot().error, Some(Code::InvalidFile));
    assert_eq!(core.snapshot().revision, 1);
    broken = core.into_store();
    broken.bytes = encode(&Data {
        version: 2,
        ..Data::default()
    });
    let mut core = Core::load(broken);
    assert_eq!(core.snapshot().error, Some(Code::UnsupportedVersion));
    assert_eq!(
        core.pump(Command::Tick, time(0)).unwrap_err().code,
        Code::UnsupportedVersion
    );
    let mut invalid = running();
    invalid.session = Session::Paused {
        duration_ms: MIN_DURATION_MS,
        remaining_ms: 0,
    };
    let core = Core::load(memory(invalid).0);
    assert_eq!(core.snapshot().error, Some(Code::InvalidState));
}

#[test]
fn worker_wakes_at_checkpoints_anchored_before_the_pump() {
    assert_eq!(next_wake(Some(7), true, false, Some(500), 1_000, 9_000), Some(1_500));
    assert_eq!(next_wake(Some(7), true, true, None, 1_000, 9_000), None);
    assert_eq!(
        next_wake(Some(7), false, true, Some(500), 1_000, 9_000),
        Some(9_000 + CHECKPOINT_MS)
    );
    assert_eq!(next_wake(Some(7), false, false, Some(500), 1_000, 9_000), Some(7));
    assert_eq!(next_wake(None, true, false, Some(1), u64::MAX, 0), Some(u64::MAX));
    assert!(checkpoint_due(Some(10), 10));
    assert!(!checkpoint_due(Some(10), 9));
    assert!(!checkpoint_due(None, u64::MAX));
}

#[test]
fn export_and_commands_follow_the_published_state() {
    let mut core = Core::load(memory(Data::default()).0);
    core.pump(Command::Tick, time(0)).unwrap();
    assert!(export_allowed(&core.snapshot()).is_ok());
    assert_eq!(
        export_allowed(&Snapshot::initial()).unwrap_err().code,
        Code::Loading
    );
    let stopped = Snapshot {
        stopped: true,
        ..core.snapshot()
    };
    assert_eq!(export_allowed(&stopped).unwrap_err().code, Code::Stopped);
    assert!(accept_command(false, 127).is_ok());
    assert_eq!(accept_command(false, 128).unwrap_err().code, Code::QueueFull);
    assert_eq!(accept_command(true, 0).unwrap_err().code, Code::Stopped);
}
