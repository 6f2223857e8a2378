use march_7th_app_lib::reminders::model::{
    ActiveHours, Code, Command, Data, Error, Id, Mode, Response, Settings, Time, MAX_UTC, MINUTE,
};
use march_7th_app_lib::reminders::service::{accept_command, Core, Snapshot, QUEUE_LIMIT};
use march_7th_app_lib::reminders::store::{Persistence, SaveStatus, Storage};
use std::sync::atomic::{AtomicUsize, Ordering};
use std::sync::{Arc, Mutex};

fn time(ms: i64) -> Time {
    Time {
        utc_ms: ms,
        local_minute: 600,
        monotonic_ms: ms as u64,
    }
}

fn enabled() -> Settings {
    let mut s = Settings {
        active_hours: ActiveHours::AllDay {},
        ..Settings::default()
    };
    for item in &mut s.items {
        item.enabled = true;
        item.interval_minutes = 1;
    }
    s
}

struct MemoryStore {
    data: Arc<Mutex<Data>>,
    writes: Arc<AtomicUsize>,
    fail: Arc<AtomicUsize>,
    initial: Persistence,
}

impl Storage for MemoryStore {
    fn load(&mut self) -> (Data, Persistence) {
        (*self.data.lock().unwrap(), self.initial)
    }
    fn save(&mut self, data: &Data) -> Persistence {
        self.writes.fetch_add(1, Ordering::SeqCst);
        if self.fail.load(Ordering::SeqCst) > 0 {
            return Persistence::new(SaveStatus::Unsaved, Some(Code::WriteFailed));
        }
        *self.data.lock().unwrap() = *data;
        Persistence::new(SaveStatus::Saved, None)
    }
}

struct Fixture {
    worker: Core<MemoryStore>,
    stored: Arc<Mutex<Data>>,
    writes: Arc<AtomicUsize>,
    fail: Arc<AtomicUsize>,
}

fn fixture(data: Data, initial: Persistence) -> Fixture {
    let stored = Arc::new(Mutex::new(data));
    let writes = Arc::new(AtomicUsize::new(0));
    let fail = Arc::new(AtomicUsize::new(0));
    let worker = Core::load(MemoryStore {
        data: stored.clone(),
        writes: writes.clone(),
        fail: fail.clone(),
        initial,
    });
    Fixture {
        worker,
        stored,
        writes,
        fail,
    }
}

fn fresh() -> Fixture {
    fixture(
        Data::default(),
        Persistence::new(SaveStatus::Default, None),
    )
}

#[test]
fn saves_only_actual_data_changes_and_noop_retry_recovers_unsaved() {
    let Fixture {
        worker: mut c,
        stored,
        writes,
        fail,
    } = fresh();
    c.pump(None, Ok(time(0))).unwrap();
    assert_eq!(writes.load(Ordering::SeqCst), 0);
    fail.store(1, Ordering::SeqCst);
    let result = c
        .pump(
            Some(Command::UpdateSettings {
                settings: enabled(),
            }),
            Ok(time(0)),
        )
        .unwrap()
        .unwrap();
    assert_eq!(result.snapshot.persistence.status, SaveStatus::Unsaved);
    assert!(result.snapshot.settings.items[0].enabled);
    assert_eq!(*stored.lock().unwrap(), Data::default());
    let rev = result.snapshot.revision;
    assert!(c.pump(None, Ok(time(1))).unwrap().is_none());
    assert_eq!(writes.load(Ordering::SeqCst), 1);
    assert_eq!(c.snapshot().revision, rev);
    fail.store(0, Ordering::SeqCst);
    c.pump(
        Some(Command::UpdateSettings {
            settings: enabled(),
        }),
        Ok(time(2)),
    )
    .unwrap();
    assert_eq!(c.snapshot().persistence.status, SaveStatus::Saved);
    assert_eq!(writes.load(Ordering::SeqCst), 2);
    c.pump(None, Ok(time(MINUTE))).unwrap();
    let writes_before = writes.load(Ordering::SeqCst);
    let id = c.snapshot().presentation.as_ref().unwrap().id;
    c.pump(
        Some(Command::Dismiss {
            presentation_id: id,
        }),
        Ok(time(MINUTE + 1)),
    )
    .unwrap();
    assert_eq!(writes.load(Ordering::SeqCst), writes_before);
    assert!(c.pump(None, Ok(time(MINUTE + 2))).unwrap().is_none());
}

#[test]
fn response_event_only_on_applied_action_and_invalid_input_has_no_effect() {
    let Fixture { worker: mut c, .. } = fresh();
    let before = c.snapshot();
    let mut invalid = enabled();
    invalid.items[0].interval_minutes = 0;
    assert!(c
        .pump(
            Some(Command::UpdateSettings { settings: invalid }),
            Ok(time(0))
        )
        .is_err());
    assert_eq!(c.snapshot(), before);
    c.pump(
        Some(Command::UpdateSettings {
            settings: enabled(),
        }),
        Ok(time(0)),
    )
    .unwrap();
    c.pump(None, Ok(time(MINUTE))).unwrap();
    assert_eq!(
        c.pump(Some(Command::Complete { id: Id::Water }), Ok(time(MINUTE)))
            .unwrap()
            .unwrap()
            .response,
        Some(Response::Complete { id: Id::Water })
    );
    assert!(c
        .pump(
            Some(Command::Complete { id: Id::Water }),
            Ok(time(MINUTE + 1))
        )
        .unwrap()
        .is_none());
    assert_eq!(
        c.pump(Some(Command::SnoozeAll {}), Ok(time(MINUTE + 1)))
            .unwrap()
            .unwrap()
            .response,
        Some(Response::SnoozeAll)
    );
}

#[test]
fn invalid_clock_report_is_stable_and_recovers_without_mutating_progress() {
    let Fixture { worker: mut c, .. } = fresh();
    let before = c.snapshot();
    let change = c
        .pump(None, Err(Error::new(Code::InvalidTime)))
        .unwrap()
        .unwrap();
    assert_eq!(change.snapshot.runtime_error, Some(Code::InvalidTime));
    assert!(c.pump(None, Err(Error::new(Code::InvalidTime))).is_err());
    assert_eq!(c.snapshot().progress, before.progress);
    assert_eq!(c.snapshot().settings, before.settings);
    c.pump(None, Ok(time(0))).unwrap();
    assert_eq!(c.snapshot().runtime_error, None);
}

#[test]
fn arithmetic_limit_is_visible_without_mutating_due_state() {
    let Fixture { worker: mut c, .. } = fresh();
    let before = c.snapshot();
    let change = c
        .pump(
            Some(Command::UpdateSettings {
                settings: enabled(),
            }),
            Ok(Time {
                utc_ms: MAX_UTC,
                ..time(0)
            }),
        )
        .unwrap()
        .unwrap();
    assert_eq!(change.snapshot.runtime_error, Some(Code::InvalidTime));
    assert_eq!(change.snapshot.runtime_error.unwrap().as_str(), "invalidTime");
    assert_eq!(c.snapshot().settings, before.settings);
    assert_eq!(c.snapshot().progress, before.progress);
}

#[test]
fn invalid_stored_data_loads_protected_defaults_and_never_saves() {
    let mut data = Data::default();
    data.progress[0].pending = true;
    let Fixture { worker: mut c, .. } = fixture(data, Persistence::new(SaveStatus::Saved, None));
    let snapshot = c.snapshot();
    assert_eq!(snapshot.revision, 1);
    assert_eq!(snapshot.persistence.status, SaveStatus::ReadOnly);
    assert_eq!(snapshot.persistence.code, Some(Code::InvalidFile));
    assert_eq!(
        c.pump(
            Some(Command::UpdateSettings {
                settings: enabled()
            }),
            Ok(time(0))
        )
        .err()
        .unwrap()
        .code,
        Code::ReadOnly
    );
    c.pump(Some(Command::ShowPending {}), Ok(time(0))).unwrap();
    assert_eq!(c.snapshot().presentation.unwrap().mode, Mode::Manual);
}

#[test]
fn clock_is_needed_only_for_enabled_items_snooze_or_automatic_view() {
    let Fixture { worker: mut c, .. } = fresh();
    assert!(!c.needs_clock());
    c.pump(
        Some(Command::UpdateSettings {
            settings: enabled(),
        }),
        Ok(time(0)),
    )
    .unwrap();
    assert!(c.needs_clock());
}

#[test]
fn stopping_hides_the_presentation_once() {
    let mut s = Snapshot::initial();
    assert_eq!(s.revision, 0);
    assert_eq!(s.persistence.status, SaveStatus::Loading);
    assert!(!s.settings.items[0].enabled);
    s.stop();
    assert!(s.stopped);
    assert_eq!(s.revision, 1);
    s.stop();
    assert_eq!(s.revision, 1);
}

#[test]
fn commands_are_refused_after_stop_or_beyond_the_queue_limit() {
    assert!(accept_command(false, 0).is_ok());
    assert!(accept_command(false, QUEUE_LIMIT - 1).is_ok());
    assert_eq!(accept_command(false, 128).unwrap_err().code.as_str(), "queueFull");
    assert_eq!(accept_command(true, 0).unwrap_err().code.as_str(), "stopped");
}

#[test]
fn reply_carries_the_runtime_error() {
    let Fixture { worker: mut c, .. } = fresh();
    assert_eq!(c.reply().unwrap(), c.snapshot());
    c.pump(None, Err(Error::new(Code::InvalidTime))).unwrap();
    assert_eq!(c.reply().unwrap_err().code, Code::InvalidTime);
}
