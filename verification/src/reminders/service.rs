//! The reminder worker's core: one engine, its store and the published
//! snapshot. Threads and clocks live with the caller.
use crate::reminders::model::{
    err, is_automatic, opt_view, spec_step, Code, Command, Data, Engine, EngineView, Error, Id,
    Mode, Presentation, PresentationView, Progress, Quiet, Response, Settings, SettingsView, Time,
    MAX_SAFE,
};
use crate::reminders::store::{Persistence, SaveStatus, Storage};
use vstd::prelude::*;

verus! {

#[derive(Clone, Debug, PartialEq, Eq)]
pub struct Snapshot {
    pub revision: u64,
    pub settings: Settings,
    pub progress: [Progress; 3],
    pub paused: bool,
    pub quiet: Option<Quiet>,
    pub snooze_pending: bool,
    pub presentation: Option<Presentation>,
    pub persistence: Persistence,
    pub runtime_error: Option<Code>,
    pub stopped: bool,
}

pub struct SnapshotView {
    pub revision: u64,
    pub settings: SettingsView,
    pub progress: Seq<Progress>,
    pub paused: bool,
    pub quiet: Option<Quiet>,
    pub snooze_pending: bool,
    pub presentation: Option<PresentationView>,
    pub persistence: Persistence,
    pub runtime_error: Option<Code>,
    pub stopped: bool,
}

impl View for Snapshot {
    type V = SnapshotView;

    open spec fn view(&self) -> SnapshotView {
        SnapshotView {
            revision: self.revision,
            settings: self.settings@,
            progress: self.progress@,
            paused: self.paused,
            quiet: self.quiet,
            snooze_pending: self.snooze_pending,
            presentation: opt_view(self.presentation),
            persistence: self.persistence,
            runtime_error: self.runtime_error,
            stopped: self.stopped,
        }
    }
}

/// The published projection of an engine, before a revision is assigned.
pub open spec fn snapshot_of(e: EngineView, persistence: Persistence) -> SnapshotView {
    SnapshotView {
        revision: 0,
        settings: e.data.settings,
        progress: e.data.progress,
        paused: e.data.paused,
        quiet: e.data.quiet,
        snooze_pending: e.data.snooze_pending,
        presentation: e.presentation,
        persistence,
        runtime_error: None,
        stopped: false,
    }
}

pub open spec fn with_revision(s: SnapshotView, revision: u64) -> SnapshotView {
    SnapshotView { revision, ..s }
}

pub struct Change {
    pub snapshot: Snapshot,
    pub response: Option<Response>,
}

fn same_ids(a: &Vec<Id>, b: &Vec<Id>) -> (r: bool)
    ensures
        r == (a@ == b@),
{
    if a.len() != b.len() {
        return false;
    }
    let mut i: usize = 0;
    while i < a.len()
        invariant
            i <= a.len(),
            a.len() == b.len(),
            forall|j: int| 0 <= j < i ==> a@[j] == b@[j],
        decreases a.len() - i,
    {
        if a[i] != b[i] {
            return false;
        }
        i += 1;
    }
    assert(a@ =~= b@);
    true
}

fn same_presentation(a: &Option<Presentation>, b: &Option<Presentation>) -> (r: bool)
    ensures
        r == (opt_view(*a) == opt_view(*b)),
{
    match (a, b) {
        (None, None) => true,
        (Some(x), Some(y)) => x.id == y.id && x.mode == y.mode && x.closes_at == y.closes_at
            && x.monotonic_deadline == y.monotonic_deadline && same_ids(&x.items, &y.items),
        _ => false,
    }
}

fn same_settings(a: &Settings, b: &Settings) -> (r: bool)
    ensures
        r == (a@ == b@),
{
    let r = a.items[0] == b.items[0] && a.items[1] == b.items[1] && a.items[2] == b.items[2]
        && a.active_hours == b.active_hours && a.snooze_minutes == b.snooze_minutes;
    if r {
        assert(a.items@ =~= b.items@);
    }
    r
}

fn same_progress(a: &[Progress; 3], b: &[Progress; 3]) -> (r: bool)
    ensures
        r == (a@ == b@),
{
    let r = a[0] == b[0] && a[1] == b[1] && a[2] == b[2];
    if r {
        assert(a@ =~= b@);
    }
    r
}

/// Whether two data sets are equal.
pub fn same_data(a: &Data, b: &Data) -> (r: bool)
    ensures
        r == (a@ == b@),
{
    a.version == b.version && same_settings(&a.settings, &b.settings) && same_progress(
        &a.progress,
        &b.progress,
    ) && a.paused == b.paused && a.quiet == b.quiet && a.snooze_pending == b.snooze_pending
}

fn copy_items(v: &Vec<Id>) -> (r: Vec<Id>)
    ensures
        r@ == v@,
{
    let mut out: Vec<Id> = Vec::new();
    let mut i: usize = 0;
    while i < v.len()
        invariant
            i <= v.len(),
            out@ =~= v@.take(i as int),
        decreases v.len() - i,
    {
        out.push(v[i]);
        i += 1;
    }
    assert(out@ =~= v@);
    out
}

fn copy_presentation(p: &Option<Presentation>) -> (r: Option<Presentation>)
    ensures
        opt_view(r) == opt_view(*p),
{
    match p {
        Some(p) => Some(
            Presentation {
                id: p.id,
                mode: p.mode,
                items: copy_items(&p.items),
                closes_at: p.closes_at,
                monotonic_deadline: p.monotonic_deadline,
            },
        ),
        None => None,
    }
}

impl Snapshot {
    pub fn duplicate(&self) -> (r: Snapshot)
        ensures
            r@ == self@,
    {
        Snapshot {
            revision: self.revision,
            settings: self.settings,
            progress: self.progress,
            paused: self.paused,
            quiet: self.quiet,
            snooze_pending: self.snooze_pending,
            presentation: copy_presentation(&self.presentation),
            persistence: self.persistence,
            runtime_error: self.runtime_error,
            stopped: self.stopped,
        }
    }

    pub fn same(&self, other: &Snapshot) -> (r: bool)
        ensures
            r == (self@ == other@),
    {
        self.revision == other.revision && same_settings(&self.settings, &other.settings)
            && same_progress(&self.progress, &other.progress) && self.paused == other.paused
            && self.quiet == other.quiet && self.snooze_pending == other.snooze_pending
            && same_presentation(&self.presentation, &other.presentation) && self.persistence
            == other.persistence && self.runtime_error == other.runtime_error && self.stopped
            == other.stopped
    }

    /// What is published before the store has been read.
    pub fn initial() -> (r: Snapshot)
        ensures
            r.revision == 0,
            r@.settings.items =~= seq![
                crate::reminders::model::default_item(0),
                crate::reminders::model::default_item(1),
                crate::reminders::model::default_item(2),
            ],
            r.settings.active_hours == (crate::reminders::model::ActiveHours::Daily {
                start: 540,
                end: 1320,
            }),
            r.settings.snooze_minutes == 10,
            r@.progress =~= seq![
                crate::reminders::model::idle_progress(0),
                crate::reminders::model::idle_progress(1),
                crate::reminders::model::idle_progress(2),
            ],
            !r.paused,
            r.quiet is None,
            !r.snooze_pending,
            r.presentation is None,
            r.persistence == (Persistence { status: SaveStatus::Loading, code: None }),
            r.runtime_error is None,
            !r.stopped,
    {
        let engine = Engine {
            data: Data::default_data(),
            presentation: None,
            next_id: 0,
            protected: false,
        };
        Snapshot::from_engine(&engine, Persistence::new(SaveStatus::Loading, None))
    }

    /// The service stopped: nothing is presented any more and the stop is
    /// one more revision (kept within the safe range). Stopping twice is a no-op.
    pub fn stop(&mut self)
        ensures
            old(self).stopped ==> final(self)@ == old(self)@,
            !old(self).stopped ==> final(self)@ == (SnapshotView {
                stopped: true,
                presentation: None,
                revision: if old(self).revision < MAX_SAFE {
                    (old(self).revision + 1) as u64
                } else {
                    MAX_SAFE
                },
                ..old(self)@
            }),
    {
        if self.stopped {
            return;
        }
        self.stopped = true;
        self.presentation = None;
        self.revision = if self.revision < MAX_SAFE {
            self.revision + 1
        } else {
            MAX_SAFE
        };
    }

    pub fn from_engine(engine: &Engine, persistence: Persistence) -> (r: Snapshot)
        ensures
            r@ == snapshot_of(engine@, persistence),
    {
        Snapshot {
            revision: 0,
            settings: engine.data.settings,
            progress: engine.data.progress,
            paused: engine.data.paused,
            quiet: engine.data.quiet,
            snooze_pending: engine.data.snooze_pending,
            presentation: copy_presentation(&engine.presentation),
            persistence,
            runtime_error: None,
            stopped: false,
        }
    }
}

/// A read-only store protects the engine: no settings changes and no
/// automatic presentation.
pub open spec fn protect(e: EngineView) -> EngineView {
    EngineView {
        protected: true,
        presentation: if is_automatic(e.presentation) {
            None
        } else {
            e.presentation
        },
        ..e
    }
}

/// How many commands may wait for the worker.
pub const QUEUE_LIMIT: usize = 128;

/// Whether a new command may be queued: never after stop, and never beyond
/// the queue limit.
pub fn accept_command(stopped: bool, queued: usize) -> (r: Result<(), Error>)
    ensures
        r == if stopped {
            Err::<(), Error>(Error { code: Code::Stopped })
        } else if queued >= QUEUE_LIMIT {
            Err(Error { code: Code::QueueFull })
        } else {
            Ok(())
        },
{
    if stopped {
        Err(Error::new(Code::Stopped))
    } else if queued >= QUEUE_LIMIT {
        Err(Error::new(Code::QueueFull))
    } else {
        Ok(())
    }
}

pub struct Core<S: Storage> {
    engine: Engine,
    store: S,
    snapshot: Snapshot,
}

impl<S: Storage> Core<S> {
    pub closed spec fn engine_view(&self) -> EngineView {
        self.engine@
    }

    pub closed spec fn snapshot_view(&self) -> SnapshotView {
        self.snapshot@
    }

    /// The engine's data is valid and the snapshot revision is in range.
    pub closed spec fn wf(&self) -> bool {
        self.engine.data@.valid() && self.snapshot.revision <= MAX_SAFE
    }

    /// Load from the store; data that fails validation becomes the protected
    /// defaults with an `invalidFile` read-only status.
    pub fn load(store: S) -> (c: Self)
        ensures
            c.wf(),
            c.snapshot_view() == with_revision(
                snapshot_of(c.engine_view(), c.snapshot_view().persistence),
                1,
            ),
            c.engine_view().presentation is None,
            c.snapshot_view().persistence.status == SaveStatus::ReadOnly ==> c.engine_view().protected,
    {
        let mut store = store;
        let (data, persistence) = store.load();
        let mut persistence = persistence;
        let engine = match Engine::new(data, persistence.protected()) {
            Ok(e) => e,
            Err(_) => {
                persistence = Persistence::new(SaveStatus::ReadOnly, Some(Code::InvalidFile));
                Engine { data: Data::default_data(), presentation: None, next_id: 0, protected: true }
            },
        };
        let mut snapshot = Snapshot::from_engine(&engine, persistence);
        snapshot.revision = 1;
        Core { engine, store, snapshot }
    }

    pub fn snapshot(&self) -> (r: Snapshot)
        ensures
            r@ == self.snapshot_view(),
    {
        self.snapshot.duplicate()
    }

    /// The answer a command gets after its pump: the published snapshot, or
    /// the runtime error that the snapshot carries.
    pub fn reply(&self) -> (r: Result<Snapshot, Error>)
        ensures
            match self.snapshot_view().runtime_error {
                Some(code) => r == Err::<Snapshot, Error>(Error { code }),
                None => r matches Ok(s) && s@ == self.snapshot_view(),
            },
    {
        match self.snapshot.runtime_error {
            Some(code) => Err(Error::new(code)),
            None => Ok(self.snapshot.duplicate()),
        }
    }

    pub fn needs_clock(&self) -> (r: bool)
        ensures
            r == (self.engine_view().data.settings.items[0].enabled
                || self.engine_view().data.settings.items[1].enabled
                || self.engine_view().data.settings.items[2].enabled
                || self.engine_view().data.quiet is Some || is_automatic(
                self.engine_view().presentation,
            )),
    {
        self.engine.needs_clock()
    }

    /// Report a clock failure once: it closes an automatic presentation and
    /// publishes the error; the same error again is returned without a change.
    fn clock_failure(&mut self, error: Error) -> (r: Result<Option<Change>, Error>)
        requires
            old(self).wf(),
            old(self).snapshot.revision < MAX_SAFE,
        ensures
            final(self).wf(),
            clock_failure_post(old(self).engine_view(), old(self).snapshot_view(), error, r,
                final(self).engine_view(), final(self).snapshot_view()),
    {
        if self.snapshot.runtime_error == Some(error.code) {
            return Err(error);
        }
        self.snapshot.runtime_error = Some(error.code);
        let automatic = match &self.engine.presentation {
            Some(p) => p.mode == Mode::Automatic,
            None => false,
        };
        if automatic {
            self.engine.presentation = None;
            self.snapshot.presentation = None;
        }
        self.snapshot.revision = self.snapshot.revision + 1;
        Ok(Some(Change { snapshot: self.snapshot.duplicate(), response: None }))
    }

    /// Sample the clock and apply at most one command; save when the data
    /// changed (or a command retries an unsaved state) and publish a new
    /// revision when the snapshot changed or the command produced a response.
    pub fn pump(&mut self, command: Option<Command>, time: Result<Time, Error>) -> (r: Result<
        Option<Change>,
        Error,
    >)
        requires
            old(self).wf(),
        ensures
            final(self).wf(),
            pump_post(old(self).engine_view(), old(self).snapshot_view(), command, time, r,
                final(self).engine_view(), final(self).snapshot_view()),
    {
        if self.snapshot.revision >= MAX_SAFE {
            return Err(Error::new(Code::SequenceExhausted));
        }
        let time = match time {
            Ok(t) => match t.validate() {
                Ok(()) => t,
                Err(e) => {
                    return self.clock_failure(e);
                },
            },
            Err(e) => {
                return self.clock_failure(e);
            },
        };
        let previous = self.engine.data;
        let retry = command.is_some() && self.snapshot.persistence.status == SaveStatus::Unsaved;
        let response = match self.engine.step(command, time) {
            Ok(r) => r,
            Err(e) => {
                if e.code == Code::InvalidTime {
                    return self.clock_failure(e);
                }
                return Err(e);
            },
        };
        let ghost stepped = self.engine@;
        let mut persistence = self.snapshot.persistence;
        if !same_data(&previous, &self.engine.data) || retry {
            persistence = self.store.save(&self.engine.data);
            if persistence.protected() {
                self.engine.protected = true;
                let automatic = match &self.engine.presentation {
                    Some(p) => p.mode == Mode::Automatic,
                    None => false,
                };
                if automatic {
                    self.engine.presentation = None;
                }
            }
        }
        let mut snapshot = Snapshot::from_engine(&self.engine, persistence);
        snapshot.revision = self.snapshot.revision;
        if !snapshot.same(&self.snapshot) {
            snapshot.revision = snapshot.revision + 1;
            self.snapshot = snapshot.duplicate();
            Ok(Some(Change { snapshot, response }))
        } else if response.is_some() {
            // Repeating SnoozeAll at the same instant is still an explicit action.
            self.snapshot.revision = self.snapshot.revision + 1;
            Ok(Some(Change { snapshot: self.snapshot.duplicate(), response }))
        } else {
            Ok(None)
        }
    }
}

pub open spec fn clock_failure_post(
    e0: EngineView,
    s0: SnapshotView,
    error: Error,
    r: Result<Option<Change>, Error>,
    e1: EngineView,
    s1: SnapshotView,
) -> bool {
    if s0.runtime_error == Some(error.code) {
        r == Err::<Option<Change>, Error>(error) && e1 == e0 && s1 == s0
    } else {
        &&& e1 == if is_automatic(e0.presentation) {
            EngineView { presentation: None, ..e0 }
        } else {
            e0
        }
        &&& s1 == SnapshotView {
            runtime_error: Some(error.code),
            presentation: if is_automatic(e0.presentation) {
                None
            } else {
                s0.presentation
            },
            revision: (s0.revision + 1) as u64,
            ..s0
        }
        &&& r matches Ok(Some(c)) && c.snapshot@ == s1 && c.response is None
    }
}

/// What one pump does, given whatever the store answered to a save.
pub open spec fn pump_post(
    e0: EngineView,
    s0: SnapshotView,
    command: Option<Command>,
    time: Result<Time, Error>,
    r: Result<Option<Change>, Error>,
    e1: EngineView,
    s1: SnapshotView,
) -> bool {
    if s0.revision >= MAX_SAFE {
        r == Err::<Option<Change>, Error>(err(Code::SequenceExhausted)) && e1 == e0 && s1 == s0
    } else {
        match time {
            Err(x) => clock_failure_post(e0, s0, x, r, e1, s1),
            Ok(t) => if !t.valid() {
                clock_failure_post(e0, s0, err(Code::InvalidTime), r, e1, s1)
            } else {
                match spec_step(e0, command, t) {
                    Err(x) => if x.code == Code::InvalidTime {
                        clock_failure_post(e0, s0, x, r, e1, s1)
                    } else {
                        r == Err::<Option<Change>, Error>(x) && e1 == e0 && s1 == s0
                    },
                    Ok((stepped, response)) => {
                        let saved = stepped.data != e0.data || (command is Some
                            && s0.persistence.status == SaveStatus::Unsaved);
                        let p = s1.persistence;
                        let expected = with_revision(snapshot_of(e1, p), s0.revision);
                        &&& !saved ==> p == s0.persistence && e1 == stepped
                        &&& saved ==> e1 == if p.status == SaveStatus::ReadOnly {
                            protect(stepped)
                        } else {
                            stepped
                        }
                        &&& if expected != s0 {
                            s1 == with_revision(expected, (s0.revision + 1) as u64) && (r matches Ok(
                                Some(c),
                            ) && c.snapshot@ == s1 && c.response == response)
                        } else if response is Some {
                            s1 == with_revision(s0, (s0.revision + 1) as u64) && (r matches Ok(
                                Some(c),
                            ) && c.snapshot@ == s1 && c.response == response)
                        } else {
                            s1 == s0 && r == Ok::<Option<Change>, Error>(None)
                        }
                    },
                }
            },
        }
    }
}

} // verus!
