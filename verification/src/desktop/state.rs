//! Desktop window session: save scheduling, display-scale corrections and
//! shutdown. Instants are milliseconds of a monotonic clock; placements,
//! monitors and startup plans are opaque to these rules.
use vstd::prelude::*;

verus! {

/// Delay between the last move and its save.
pub const SAVE_DELAY_MS: u64 = 500;

#[derive(Clone, Copy, Debug, PartialEq, Eq, Structural)]
pub enum Lifecycle {
    Running,
    Stopping,
    ExitReady,
}

#[derive(Clone, Copy, Debug, PartialEq, Eq, Structural)]
pub enum Availability {
    Saved,
    Pending,
    Unavailable,
}

impl Availability {
    pub fn label(self) -> (s: &'static str)
        ensures
            s@ == match self {
                Availability::Saved => "位置：已保存"@,
                Availability::Pending => "位置：待保存"@,
                Availability::Unavailable => "位置：不可用"@,
            },
    {
        match self {
            Availability::Saved => "位置：已保存",
            Availability::Pending => "位置：待保存",
            Availability::Unavailable => "位置：不可用",
        }
    }
}

#[derive(Clone, Copy, Debug, Default, PartialEq, Eq, Structural)]
pub enum Mode {
    #[default]
    Interaction,
    ClickThrough,
}

impl Mode {
    /// Ask the host to change mouse pass-through; commit only on success.
    pub fn change<F: FnOnce(bool) -> Result<(), String>>(&mut self, next: Self, host: F) -> (r:
        Result<(), String>)
        requires
            call_requires(host, (next == Mode::ClickThrough,)),
        ensures
            call_ensures(host, (next == Mode::ClickThrough,), r),
            r is Ok ==> *final(self) == next,
            r is Err ==> *final(self) == *old(self),
    {
        let ignore = next == Mode::ClickThrough;
        let result = host(ignore);
        if result.is_ok() {
            *self = next;
        }
        result
    }
}

/// At most one value waits for its deadline; after `stop` nothing is accepted.
pub struct Pending<T> {
    entry: Option<(u64, T)>,
    stopped: bool,
}

pub struct PendingView<T> {
    pub entry: Option<(u64, T)>,
    pub stopped: bool,
}

impl<T> View for Pending<T> {
    type V = PendingView<T>;

    closed spec fn view(&self) -> PendingView<T> {
        PendingView { entry: self.entry, stopped: self.stopped }
    }
}

impl<T> PendingView<T> {
    pub open spec fn deadline(self) -> Option<u64> {
        match self.entry {
            Some((d, _)) => Some(d),
            None => None,
        }
    }

    pub open spec fn value(self) -> Option<T> {
        match self.entry {
            Some((_, v)) => Some(v),
            None => None,
        }
    }
}

impl<T> Pending<T> {
    pub fn new() -> (p: Self)
        ensures
            p@.entry is None,
            !p@.stopped,
    {
        Pending { entry: None, stopped: false }
    }

    /// Replace any waiting value; the deadline restarts from `now`.
    pub fn schedule(&mut self, now: u64, value: T)
        requires
            now <= u64::MAX - SAVE_DELAY_MS,
        ensures
            final(self)@.stopped == old(self)@.stopped,
            final(self)@.entry == if old(self)@.stopped {
                old(self)@.entry
            } else {
                Some(((now + SAVE_DELAY_MS) as u64, value))
            },
    {
        if !self.stopped {
            self.entry = Some((now + SAVE_DELAY_MS, value));
        }
    }

    /// The waiting value once its deadline has passed.
    pub fn take_due(&mut self, now: u64) -> (r: Option<T>)
        ensures
            final(self)@.stopped == old(self)@.stopped,
            match old(self)@.entry {
                Some((d, v)) if d <= now => r == Some(v) && final(self)@.entry is None,
                _ => r is None && final(self)@.entry == old(self)@.entry,
            },
    {
        let due = match &self.entry {
            Some((d, _)) => *d <= now,
            None => false,
        };
        if due {
            match self.entry.take() {
                Some((_, v)) => Some(v),
                None => None,
            }
        } else {
            None
        }
    }

    pub fn deadline(&self) -> (r: Option<u64>)
        ensures
            r == self@.deadline(),
    {
        match &self.entry {
            Some((d, _)) => Some(*d),
            None => None,
        }
    }

    pub fn cancel(&mut self)
        ensures
            final(self)@.entry is None,
            final(self)@.stopped == old(self)@.stopped,
    {
        self.entry = None;
    }

    /// Stop accepting values. The first stop returns `latest`, or else the
    /// waiting value; a later stop returns nothing.
    pub fn stop(&mut self, latest: Option<T>) -> (r: Option<T>)
        ensures
            final(self)@.stopped,
            old(self)@.stopped ==> r is None && final(self)@.entry == old(self)@.entry,
            !old(self)@.stopped ==> final(self)@.entry is None && r == match latest {
                Some(v) => Some(v),
                None => old(self)@.value(),
            },
    {
        if self.stopped {
            return None;
        }
        self.stopped = true;
        let pending = match self.entry.take() {
            Some((_, v)) => Some(v),
            None => None,
        };
        match latest {
            Some(v) => Some(v),
            None => pending,
        }
    }
}

impl<T> Default for Pending<T> {
    fn default() -> (p: Self)
        ensures
            p@.entry is None,
            !p@.stopped,
    {
        Pending::new()
    }
}

pub struct Save<P> {
    pub revision: u64,
    pub placement: P,
}

#[derive(Clone, Copy, Debug, PartialEq, Eq, Structural)]
pub struct ScaleRequest {
    pub position_revision: u64,
}

/// The main window's placement session. `P` is a saved placement, `M` a
/// monitor description and `R` a startup restore plan.
pub struct Session<P, M, R> {
    pub mode: Mode,
    pub lifecycle: Lifecycle,
    pub latest: Option<P>,
    pub topology: Vec<M>,
    pub pending: Pending<Save<P>>,
    pub quit: Option<(Option<Save<P>>, i32)>,
    pub revision: u64,
    pub availability: Availability,
    pub writable: bool,
    pub scale_pending: Option<ScaleRequest>,
    pub scale_due: Option<u64>,
    pub scale_needed: bool,
    pub position_revision: u64,
    pub startup: Option<R>,
    pub startup_due: Option<u64>,
}

impl<P: Clone, M, R> Session<P, M, R> {
    /// Counters and the clock can still advance.
    pub open spec fn room(&self, now: u64) -> bool {
        &&& self.revision < u64::MAX
        &&& self.position_revision < u64::MAX
        &&& now <= u64::MAX - SAVE_DELAY_MS
    }

    pub fn new(latest: Option<P>, topology: Vec<M>, availability: Availability, writable: bool) -> (s:
        Self)
        ensures
            s.mode == Mode::Interaction,
            s.lifecycle == Lifecycle::Running,
            s.latest == latest,
            s.topology == topology,
            s.pending@.entry is None,
            !s.pending@.stopped,
            s.quit is None,
            s.revision == 0,
            s.availability == availability,
            s.writable == writable,
            s.scale_pending is None,
            s.scale_due is None,
            !s.scale_needed,
            s.position_revision == 0,
            s.startup is None,
            s.startup_due is None,
    {
        Session {
            mode: Mode::Interaction,
            lifecycle: Lifecycle::Running,
            latest,
            topology,
            pending: Pending::new(),
            quit: None,
            revision: 0,
            availability,
            writable,
            scale_pending: None,
            scale_due: None,
            scale_needed: false,
            position_revision: 0,
            startup: None,
            startup_due: None,
        }
    }

    /// A new position makes any queued scale check stale; while a scale
    /// check is needed it is queued again for the settled rectangle.
    fn revise_position(&mut self, now: u64)
        requires
            old(self).position_revision < u64::MAX,
            now <= u64::MAX - SAVE_DELAY_MS,
        ensures
            final(self).position_revision == old(self).position_revision + 1,
            old(self).scale_needed ==> final(self).scale_pending == Some(
                ScaleRequest { position_revision: final(self).position_revision },
            ) && final(self).scale_due == Some((now + SAVE_DELAY_MS) as u64),
            !old(self).scale_needed ==> final(self).scale_pending == old(self).scale_pending
                && final(self).scale_due == old(self).scale_due,
            final(self).mode == old(self).mode,
            final(self).lifecycle == old(self).lifecycle,
            final(self).latest == old(self).latest,
            final(self).pending@ == old(self).pending@,
            final(self).quit == old(self).quit,
            final(self).revision == old(self).revision,
            final(self).availability == old(self).availability,
            final(self).writable == old(self).writable,
            final(self).scale_needed == old(self).scale_needed,
            final(self).startup == old(self).startup,
            final(self).startup_due == old(self).startup_due,
    {
        self.position_revision = self.position_revision + 1;
        if self.scale_needed {
            self.scale_pending = Some(ScaleRequest { position_revision: self.position_revision });
            self.scale_due = Some(now + SAVE_DELAY_MS);
        }
    }

    /// The user moved the window to `placement`.
    pub fn schedule(&mut self, now: u64, placement: P)
        requires
            old(self).room(now),
        ensures
            old(self).lifecycle != Lifecycle::Running || old(self).startup is Some ==> *final(self)
                == *old(self),
            old(self).lifecycle == Lifecycle::Running && old(self).startup is None ==> {
                &&& final(self).position_revision == old(self).position_revision + 1
                &&& final(self).latest matches Some(l) && cloned(placement, l)
                &&& final(self).lifecycle == old(self).lifecycle
                &&& final(self).writable == old(self).writable
                &&& final(self).startup == old(self).startup
                &&& final(self).startup_due == old(self).startup_due
                &&& final(self).mode == old(self).mode
                &&& final(self).quit == old(self).quit
                &&& final(self).scale_needed == old(self).scale_needed
                &&& (old(self).scale_needed ==> final(self).scale_pending == Some(
                    ScaleRequest { position_revision: final(self).position_revision },
                ) && final(self).scale_due == Some((now + SAVE_DELAY_MS) as u64))
                &&& (!old(self).scale_needed ==> final(self).scale_pending == old(
                    self,
                ).scale_pending && final(self).scale_due == old(self).scale_due)
                &&& if old(self).writable {
                    &&& final(self).revision == old(self).revision + 1
                    &&& final(self).availability == Availability::Pending
                    &&& old(self).pending@.stopped ==> final(self).pending@ == old(self).pending@
                    &&& !old(self).pending@.stopped ==> (final(self).pending@.entry matches Some(
                        (d, save),
                    ) && d == now + SAVE_DELAY_MS && save.revision == final(self).revision
                        && save.placement == placement) && !final(self).pending@.stopped
                } else {
                    &&& final(self).revision == old(self).revision
                    &&& final(self).availability == old(self).availability
                    &&& final(self).pending@ == old(self).pending@
                }
            },
    {
        if self.lifecycle != Lifecycle::Running || self.startup.is_some() {
            return;
        }
        self.revise_position(now);
        self.latest = Some(placement.clone());
        if self.writable {
            self.revision = self.revision + 1;
            self.pending.schedule(now, Save { revision: self.revision, placement });
            self.availability = Availability::Pending;
        }
    }

    /// The display scale changed; the settled rectangle needs checking.
    pub fn request_scale(&mut self, now: u64)
        requires
            old(self).room(now),
        ensures
            old(self).startup is Some || old(self).lifecycle != Lifecycle::Running ==> *final(self)
                == *old(self),
            old(self).startup is None && old(self).lifecycle == Lifecycle::Running ==> {
                &&& final(self).scale_needed
                &&& final(self).latest == old(self).latest
                &&& final(self).revision == old(self).revision
                &&& final(self).availability == old(self).availability
                &&& final(self).pending@ == old(self).pending@
                &&& final(self).lifecycle == old(self).lifecycle
                &&& final(self).writable == old(self).writable
                &&& final(self).mode == old(self).mode
                &&& final(self).quit == old(self).quit
                &&& final(self).startup == old(self).startup
                &&& final(self).startup_due == old(self).startup_due
                &&& final(self).position_revision == old(self).position_revision + 1
                &&& final(self).scale_pending == Some(
                    ScaleRequest { position_revision: final(self).position_revision },
                )
                &&& final(self).scale_due == Some((now + SAVE_DELAY_MS) as u64)
            },
    {
        if self.startup.is_some() || self.lifecycle != Lifecycle::Running {
            return;
        }
        self.scale_needed = true;
        self.revise_position(now);
    }

    pub fn take_scale_due(&mut self, now: u64) -> (r: Option<ScaleRequest>)
        ensures
            match old(self).scale_due {
                Some(due) if due <= now => r == old(self).scale_pending && final(self).scale_due
                    is None && final(self).scale_pending is None,
                _ => r is None && final(self).scale_due == old(self).scale_due
                    && final(self).scale_pending == old(self).scale_pending,
            },
            final(self).position_revision == old(self).position_revision,
            final(self).scale_needed == old(self).scale_needed,
    {
        let due = match self.scale_due {
            Some(d) => d <= now,
            None => false,
        };
        if due {
            self.scale_due = None;
            self.scale_pending.take()
        } else {
            None
        }
    }

    /// Whether a dequeued scale check still describes the current position.
    pub fn scale_is_current(&self, request: &ScaleRequest) -> (r: bool)
        ensures
            r == (self.lifecycle == Lifecycle::Running && self.startup is None && self.scale_needed
                && self.position_revision == request.position_revision),
    {
        self.lifecycle == Lifecycle::Running && self.startup.is_none() && self.scale_needed
            && self.position_revision == request.position_revision
    }

    pub fn complete_scale(&mut self, request: &ScaleRequest) -> (r: bool)
        ensures
            r == (old(self).lifecycle == Lifecycle::Running && old(self).startup is None
                && old(self).scale_needed && old(self).position_revision
                == request.position_revision),
            r ==> !final(self).scale_needed && final(self).scale_pending is None
                && final(self).scale_due is None,
            !r ==> *final(self) == *old(self),
    {
        if !self.scale_is_current(request) {
            return false;
        }
        self.scale_needed = false;
        self.scale_pending = None;
        self.scale_due = None;
        true
    }

    pub fn begin_startup(&mut self, startup: R, now: u64)
        ensures
            old(self).lifecycle != Lifecycle::Running ==> *final(self) == *old(self),
            old(self).lifecycle == Lifecycle::Running ==> final(self).startup == Some(startup)
                && final(self).startup_due == Some(now),
    {
        if self.lifecycle != Lifecycle::Running {
            return;
        }
        self.startup = Some(startup);
        self.startup_due = Some(now);
    }

    /// An explicit position intent (such as a reset) invalidates queued checks.
    pub fn position_intent(&mut self, now: u64)
        requires
            old(self).room(now),
        ensures
            final(self).position_revision == old(self).position_revision + 1,
            old(self).scale_needed ==> final(self).scale_pending == Some(
                ScaleRequest { position_revision: final(self).position_revision },
            ),
    {
        self.revise_position(now);
    }

    /// A save of `revision` finished. Only the latest revision decides the
    /// status; a read-only directory stops all further saves.
    pub fn finish_save(&mut self, revision: u64, success: bool, writable: bool)
        ensures
            final(self).writable == writable,
            !writable ==> final(self).availability == Availability::Unavailable
                && final(self).pending@.stopped && (old(self).pending@.stopped
                || final(self).pending@.entry is None),
            writable ==> final(self).pending@ == old(self).pending@ && final(self).availability
                == if old(self).lifecycle == Lifecycle::Running && old(self).revision == revision {
                if success {
                    Availability::Saved
                } else {
                    Availability::Unavailable
                }
            } else {
                old(self).availability
            },
            final(self).revision == old(self).revision,
            final(self).latest == old(self).latest,
    {
        self.writable = writable;
        if self.lifecycle == Lifecycle::Running && self.revision == revision {
            self.availability = if success {
                Availability::Saved
            } else {
                Availability::Unavailable
            };
        }
        if !writable {
            self.availability = Availability::Unavailable;
            self.pending.stop(None);
        }
    }

    /// Reading the window position failed: a waiting save must not run.
    pub fn capture_failed(&mut self, now: u64)
        requires
            old(self).room(now),
        ensures
            old(self).lifecycle != Lifecycle::Running ==> *final(self) == *old(self),
            old(self).lifecycle == Lifecycle::Running ==> {
                &&& final(self).revision == old(self).revision + 1
                &&& final(self).position_revision == old(self).position_revision + 1
                &&& final(self).pending@.entry is None
                &&& final(self).availability == Availability::Unavailable
            },
    {
        if self.lifecycle == Lifecycle::Running {
            self.revise_position(now);
            self.revision = self.revision + 1;
            self.pending.cancel();
            self.availability = Availability::Unavailable;
        }
    }

    /// Begin shutdown with exit `code`: flush the latest placement once.
    pub fn stop(&mut self, latest: Option<P>, code: i32)
        ensures
            old(self).lifecycle != Lifecycle::Running ==> *final(self) == *old(self),
            old(self).lifecycle == Lifecycle::Running ==> {
                &&& final(self).lifecycle == Lifecycle::Stopping
                &&& final(self).scale_pending is None
                &&& final(self).scale_due is None
                &&& !final(self).scale_needed
                &&& final(self).startup is None
                &&& final(self).startup_due is None
                &&& final(self).pending@.stopped
                &&& final(self).quit matches Some((save, c)) && c == code && (old(self).startup
                    is Some ==> save is None) && (old(self).startup is None
                    && !old(self).pending@.stopped ==> match latest {
                    Some(l) => if old(self).writable {
                        save matches Some(s) && s.placement == l && s.revision
                            == old(self).revision
                    } else {
                        save == old(self).pending@.value()
                    },
                    None => match old(self).latest {
                        Some(_) => if old(self).writable {
                            save matches Some(s) && cloned(old(self).latest->0, s.placement)
                                && s.revision == old(self).revision
                        } else {
                            save == old(self).pending@.value()
                        },
                        None => save == old(self).pending@.value(),
                    },
                }) && (old(self).pending@.stopped ==> save is None)
            },
    {
        if self.lifecycle != Lifecycle::Running {
            return;
        }
        self.lifecycle = Lifecycle::Stopping;
        self.scale_pending = None;
        self.scale_due = None;
        self.scale_needed = false;
        self.startup_due = None;
        if self.startup.take().is_some() {
            self.pending.stop(None);
            self.quit = Some((None, code));
            return;
        }
        let latest = match latest {
            Some(l) => Some(l),
            None => match &self.latest {
                Some(l) => Some(l.clone()),
                None => None,
            },
        };
        let save = if self.writable {
            match latest {
                Some(placement) => Some(Save { revision: self.revision, placement }),
                None => None,
            }
        } else {
            None
        };
        let flushed = self.pending.stop(save);
        self.quit = Some((flushed, code));
    }
}

} // verus!
