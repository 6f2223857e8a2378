//! What the focus worker publishes. Publication is a commit: a snapshot
//! only ever holds data that was saved.
use crate::focus::model::{
    lemma_restore_valid, lemma_step_keeps_valid, restore_spec, step_spec, Code, Command, Data,
    Engine, Error, Session, Time, Transition, MAX_SAFE,
};
use vstd::prelude::*;

verus! {

/// Background progress is saved at least once a minute.
pub const CHECKPOINT_MS: u64 = 60_000;

#[derive(Clone, Copy, Debug, PartialEq, Eq, Structural)]
pub struct Snapshot {
    pub revision: u64,
    pub data: Option<Data>,
    pub error: Option<Code>,
    pub stopped: bool,
}

impl Snapshot {
    /// Nothing is known before the first load.
    pub fn initial() -> (s: Self)
        ensures
            s == (Snapshot { revision: 0, data: None, error: Some(Code::Loading), stopped: false }),
    {
        Snapshot { revision: 0, data: None, error: Some(Code::Loading), stopped: false }
    }
}

/// `completed_now` is true only for a live, successfully committed
/// completion; it is never recovered from the file.
#[derive(Clone, Copy, Debug, PartialEq, Eq, Structural)]
pub struct Change {
    pub snapshot: Snapshot,
    pub completed_now: bool,
    /// A transient worker error; never part of the durable snapshot.
    pub error: Option<Code>,
}

/// How long the worker may wait before checkpointing a running session: a
/// minute, or the remaining time when that is shorter.
pub open spec fn checkpoint_delay_spec(snapshot: Snapshot) -> Option<u64> {
    if snapshot.error is Some {
        None
    } else {
        match snapshot.data {
            Some(d) => match d.session {
                Session::Running { remaining_ms, .. } => Some(
                    if remaining_ms < CHECKPOINT_MS {
                        remaining_ms
                    } else {
                        CHECKPOINT_MS
                    },
                ),
                _ => None,
            },
            None => None,
        }
    }
}

/// The checkpoint wait for a published snapshot.
pub fn checkpoint_delay_ms(snapshot: &Snapshot) -> (r: Option<u64>)
    ensures
        r == checkpoint_delay_spec(*snapshot),
{
    if snapshot.error.is_some() {
        return None;
    }
    match snapshot.data {
        Some(d) => match d.session {
            Session::Running { remaining_ms, .. } => Some(
                if remaining_ms < CHECKPOINT_MS {
                    remaining_ms
                } else {
                    CHECKPOINT_MS
                },
            ),
            _ => None,
        },
        None => None,
    }
}

/// How many commands may wait for the worker.
pub const QUEUE_LIMIT: usize = 128;

/// Whether a new command may be queued: never after stop, and never beyond
/// the queue limit.
pub fn accept_command(stopped: bool, queued: usize) -> (r: Result<(), Error>)
    ensures
        r == if stopped {
            Err::<(), Error>(Error { code: Code::Stopped })
        } else if queued >= QUEUE_LIMIT {
            Err(Error { code: Code::QueueFull })
        } else {
            Ok(())
        },
{
    if stopped {
        Err(Error::new(Code::Stopped))
    } else if queued >= QUEUE_LIMIT {
        Err(Error::new(Code::QueueFull))
    } else {
        Ok(())
    }
}

/// Only the last published commit is exported: never after stop and never
/// while the snapshot carries an error.
pub fn export_allowed(snapshot: &Snapshot) -> (r: Result<(), Error>)
    ensures
        r == if snapshot.stopped {
            Err::<(), Error>(Error { code: Code::Stopped })
        } else {
            match snapshot.error {
                Some(code) => Err(Error { code }),
                None => Ok(()),
            }
        },
{
    if snapshot.stopped {
        return Err(Error::new(Code::Stopped));
    }
    match snapshot.error {
        Some(code) => Err(Error::new(code)),
        None => Ok(()),
    }
}

/// When the worker next wakes for a checkpoint, on its monotonic clock in
/// milliseconds. A successful pump anchors the wait at the sample taken
/// before it, so slow saves never extend a session; a failed background tick
/// retries a checkpoint later instead of spinning; a failed command keeps
/// the previous deadline.
pub fn next_wake(
    previous: Option<u64>,
    succeeded: bool,
    background: bool,
    delay: Option<u64>,
    sampled_at: u64,
    now: u64,
) -> (r: Option<u64>)
    ensures
        r == if succeeded {
            match delay {
                Some(d) => Some(
                    if sampled_at + d > u64::MAX {
                        u64::MAX
                    } else {
                        (sampled_at + d) as u64
                    },
                ),
                None => None,
            }
        } else if background {
            match delay {
                Some(_) => Some(
                    if now + CHECKPOINT_MS > u64::MAX {
                        u64::MAX
                    } else {
                        (now + CHECKPOINT_MS) as u64
                    },
                ),
                None => None,
            }
        } else {
            previous
        },
{
    if succeeded {
        match delay {
            Some(d) => Some(sampled_at.saturating_add(d)),
            None => None,
        }
    } else if background {
        match delay {
            Some(_) => Some(now.saturating_add(CHECKPOINT_MS)),
            None => None,
        }
    } else {
        previous
    }
}

/// A failed pump is reported only for a background tick, and only when its
/// error differs from the one last reported: one report per failure streak.
pub fn report_tick_error(background: bool, last: Option<Code>, code: Code) -> (r: bool)
    ensures
        r == (background && last != Some(code)),
{
    background && match last {
        Some(l) => l != code,
        None => true,
    }
}

/// A due checkpoint is served before queued commands, so a flood of
/// commands cannot postpone a natural completion.
pub fn checkpoint_due(wake_at: Option<u64>, now: u64) -> (r: bool)
    ensures
        r == match wake_at {
            Some(w) => now >= w,
            None => false,
        },
{
    match wake_at {
        Some(w) => now >= w,
        None => false,
    }
}

/// Where the focus file's bytes are kept, and how they read as data (a
/// strict JSON codec in the application). Nothing is assumed of what an
/// implementation returns.
pub trait Storage {
    fn load(&mut self) -> Result<Vec<u8>, Error>;

    fn save(&mut self, bytes: &[u8]) -> Result<(), Error>;

    /// Stored bytes read as focus data.
    fn decode(&self, bytes: &[u8]) -> Result<Data, Error>;

    /// The bytes that store `data`, or `None` when it cannot be encoded.
    fn encode(&self, data: &Data) -> Option<Vec<u8>>;
}

/// The worker's state: the engine (created on first use), the last
/// committed snapshot and its bytes, and what the store held at load.
pub struct Core<S: Storage> {
    completed_now: bool,
    store: S,
    engine: Option<Engine>,
    snapshot: Snapshot,
    bytes: Vec<u8>,
    loaded: Result<Data, Error>,
}

pub struct CoreView {
    /// The last successful pump committed a live natural completion.
    pub completed_now: bool,
    pub engine: Option<Engine>,
    pub snapshot: Snapshot,
    /// The bytes of the last committed data, as the store holds them.
    pub bytes: Seq<u8>,
    pub loaded: Result<Data, Error>,
}

impl<S: Storage> View for Core<S> {
    type V = CoreView;

    closed spec fn view(&self) -> CoreView {
        CoreView {
            completed_now: self.completed_now,
            engine: self.engine,
            snapshot: self.snapshot,
            bytes: self.bytes@,
            loaded: self.loaded,
        }
    }
}

/// Everything the core holds or publishes is valid data.
pub open spec fn core_valid(v: CoreView) -> bool {
    &&& (v.loaded matches Ok(d) ==> d.valid())
    &&& (v.engine matches Some(e) ==> e.data.valid())
    &&& (v.snapshot.data matches Some(d) ==> d.valid())
}

/// The engine a pump starts from: the live one, or one restored from the
/// loaded data at `time`.
pub open spec fn pump_base(v: CoreView, time: Time) -> Result<Engine, Error> {
    match v.engine {
        Some(e) => Ok(e),
        None => match v.loaded {
            Ok(d) => restore_spec(d, time),
            Err(e) => Err(e),
        },
    }
}

pub open spec fn pump_target(v: CoreView, command: Command, time: Time) -> Result<
    (Engine, Transition),
    Error,
> {
    match pump_base(v, time) {
        Ok(e) => step_spec(e, command, time),
        Err(x) => Err(x),
    }
}

/// The snapshot a successful pump publishes for the new engine `e`.
pub open spec fn committed(s: Snapshot, e: Engine) -> Snapshot {
    if s.data != Some(e.data) || s.error is Some {
        Snapshot { revision: (s.revision + 1) as u64, data: Some(e.data), error: None, ..s }
    } else {
        s
    }
}

/// What one pump does. A failure leaves everything as it was; a success
/// installs the new engine and publishes a new revision exactly when the
/// data or the error changed. Success is owed whenever nothing has to be saved.
pub open spec fn pump_post(v0: CoreView, command: Command, time: Time, r: Result<bool, Error>, v1: CoreView) -> bool {
    match pump_target(v0, command, time) {
        Err(x) => r == Err::<bool, Error>(x) && v1 == v0,
        Ok((e, t)) => {
            let data_changed = v0.snapshot.data != Some(e.data);
            let changed = data_changed || v0.snapshot.error is Some;
            if changed && v0.snapshot.revision >= MAX_SAFE {
                r == Err::<bool, Error>(Error { code: Code::SequenceExhausted }) && v1 == v0
            } else {
                &&& !data_changed ==> r is Ok
                &&& r is Err ==> v1 == v0
                &&& r is Ok ==> {
                    &&& r == Ok::<bool, Error>(changed)
                    &&& v1.engine == Some(e)
                    &&& v1.completed_now == t.completed_now
                    &&& v1.snapshot == committed(v0.snapshot, e)
                    &&& v1.loaded == v0.loaded
                    &&& !data_changed ==> v1.bytes == v0.bytes
                }
            }
        },
    }
}

impl<S: Storage> Core<S> {
    /// Read the store once. Bytes that are unreadable, undecodable or invalid
    /// publish their error and no data.
    pub fn load(store: S) -> (c: Self)
        ensures
            core_valid(c@),
            !c@.completed_now,
            c@.engine is None,
            c@.snapshot.revision == 1,
            !c@.snapshot.stopped,
            c@.snapshot.data == match c@.loaded {
                Ok(d) => Some(d),
                Err(_) => None::<Data>,
            },
            c@.snapshot.error == match c@.loaded {
                Ok(_) => None::<Code>,
                Err(e) => Some(e.code),
            },
    {
        let mut store = store;
        let result = store.load();
        let loaded = match &result {
            Ok(bytes) => match store.decode(bytes.as_slice()) {
                Ok(d) => match d.validate() {
                    Ok(()) => Ok(d),
                    Err(e) => Err(e),
                },
                Err(e) => Err(e),
            },
            Err(e) => Err(*e),
        };
        let snapshot = Snapshot {
            revision: 1,
            data: match loaded {
                Ok(d) => Some(d),
                Err(_) => None,
            },
            error: match loaded {
                Ok(_) => None,
                Err(e) => Some(e.code),
            },
            stopped: false,
        };
        let bytes = match result {
            Ok(b) => b,
            Err(_) => Vec::new(),
        };
        Core { completed_now: false, store, engine: None, snapshot, bytes, loaded }
    }

    /// Apply one command (a clock tick included) and commit it: changed data
    /// is encoded and saved before anything becomes visible.
    pub fn pump(&mut self, command: Command, time: Time) -> (r: Result<bool, Error>)
        requires
            core_valid(old(self)@),
        ensures
            core_valid(final(self)@),
            pump_post(old(self)@, command, time, r, final(self)@),
    {
        let base = match self.engine {
            Some(e) => e,
            None => match self.loaded {
                Ok(d) => match Engine::restore(d, time) {
                    Ok(e) => e,
                    Err(x) => {
                        return Err(x);
                    },
                },
                Err(x) => {
                    return Err(x);
                },
            },
        };
        proof {
            if let Ok(d) = self.loaded {
                lemma_restore_valid(d, time);
            }
            lemma_step_keeps_valid(base, command, time);
        }
        let mut next = base;
        let transition = match next.step(command, time) {
            Ok(t) => t,
            Err(x) => {
                return Err(x);
            },
        };
        let data_changed = match self.snapshot.data {
            Some(d) => d != next.data,
            None => true,
        };
        let changed = data_changed || self.snapshot.error.is_some();
        if changed {
            if self.snapshot.revision >= MAX_SAFE {
                return Err(Error::new(Code::SequenceExhausted));
            }
            if data_changed {
                let bytes = match self.store.encode(&next.data) {
                    Some(b) => b,
                    None => {
                        return Err(Error::new(Code::InvalidState));
                    },
                };
                match self.store.save(bytes.as_slice()) {
                    Ok(()) => {},
                    Err(x) => {
                        return Err(x);
                    },
                }
                self.bytes = bytes;
                self.snapshot.data = Some(next.data);
            }
            self.snapshot.error = None;
            self.snapshot.revision = self.snapshot.revision + 1;
        }
        self.completed_now = transition.completed_now;
        self.engine = Some(next);
        Ok(changed)
    }

    /// Record a failure of the worker's first tick (such as an unusable
    /// clock); the next successful pump publishes a new revision.
    pub fn report_failure(&mut self, error: Error)
        ensures
            final(self)@ == (CoreView {
                snapshot: Snapshot { error: Some(error.code), ..old(self)@.snapshot },
                ..old(self)@
            }),
    {
        self.snapshot.error = Some(error.code);
    }

    /// The worker's first step: a tick at the sampled time, or the record of
    /// why there was none.
    pub fn start(&mut self, time: Result<Time, Error>)
        requires
            core_valid(old(self)@),
        ensures
            core_valid(final(self)@),
            match time {
                Err(x) => final(self)@ == (CoreView {
                    snapshot: Snapshot { error: Some(x.code), ..old(self)@.snapshot },
                    ..old(self)@
                }),
                Ok(t) => exists|r: Result<bool, Error>, v: CoreView|
                    pump_post(old(self)@, Command::Tick, t, r, v) && match r {
                        Ok(_) => final(self)@ == v,
                        Err(x) => final(self)@ == (CoreView {
                            snapshot: Snapshot { error: Some(x.code), ..v.snapshot },
                            ..v
                        }),
                    },
            },
    {
        let result = match time {
            Ok(t) => {
                let ghost before = self@;
                let r = self.pump(Command::Tick, t);
                proof {
                    assert(pump_post(before, Command::Tick, t, r, self@));
                }
                r
            },
            Err(x) => Err(x),
        };
        match result {
            Ok(_) => {},
            Err(x) => self.report_failure(x),
        }
    }

    pub fn snapshot(&self) -> (s: Snapshot)
        ensures
            s == self@.snapshot,
    {
        self.snapshot
    }

    pub fn bytes(&self) -> (b: &[u8])
        ensures
            b@ == self@.bytes,
    {
        self.bytes.as_slice()
    }

    pub fn completed_now(&self) -> (b: bool)
        ensures
            b == self@.completed_now,
    {
        self.completed_now
    }

    pub fn engine(&self) -> (e: Option<Engine>)
        ensures
            e == self@.engine,
    {
        self.engine
    }

    /// How long the worker may wait before the next checkpoint tick.
    pub fn checkpoint_delay(&self) -> (r: Option<u64>)
        ensures
            r == checkpoint_delay_spec(self@.snapshot),
    {
        checkpoint_delay_ms(&self.snapshot)
    }

    /// The store this core reads and writes.
    pub closed spec fn storage(&self) -> S {
        self.store
    }

    /// Hand the store back, as a restart would find it.
    pub fn into_store(self) -> (s: S)
        ensures
            s == self.storage(),
    {
        self.store
    }
}

} // verus!
