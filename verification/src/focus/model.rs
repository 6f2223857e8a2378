//! Single-session focus timer rules. The caller supplies both clocks and owns
//! persistence and presentation.
use vstd::prelude::*;

verus! {

pub const VERSION: u8 = 1;
pub const MIN_DURATION_MS: u64 = 60_000;
pub const MAX_DURATION_MS: u64 = 14_400_000;
pub const MAX_TRUSTED_GAP_MS: u64 = 86_400_000;
pub const MAX_SAFE: u64 = 9_007_199_254_740_991;
pub const MAX_UTC: i64 = 253_402_300_799_999;
/// Sampling jitter tolerated between the wall and monotonic clocks.
pub const MAX_CLOCK_DRIFT_MS: u64 = 1_000;

#[derive(Clone, Copy, Debug, PartialEq, Eq, Structural)]
pub enum Code {
    InvalidTime,
    InvalidState,
    UnsupportedVersion,
    InvalidDuration,
    AlreadyActive,
    InvalidTransition,
    Loading,
    SequenceExhausted,
    ReadFailed,
    InvalidFile,
    DirectoryUnavailable,
    WriteFailed,
    EncodeFailed,
    Stopped,
    QueueFull,
    WorkerUnavailable,
    InvalidWindow,
    InvalidCommand,
    ReadOnly,
    FileChanged,
}

impl Code {
    pub open spec fn text(self) -> Seq<char> {
        match self {
            Code::InvalidTime => "invalidTime"@,
            Code::InvalidState => "invalidState"@,
            Code::UnsupportedVersion => "unsupportedVersion"@,
            Code::InvalidDuration => "invalidDuration"@,
            Code::AlreadyActive => "alreadyActive"@,
            Code::InvalidTransition => "invalidTransition"@,
            Code::Loading => "loading"@,
            Code::SequenceExhausted => "sequenceExhausted"@,
            Code::ReadFailed => "readFailed"@,
            Code::InvalidFile => "invalidFile"@,
            Code::DirectoryUnavailable => "directoryUnavailable"@,
            Code::WriteFailed => "writeFailed"@,
            Code::EncodeFailed => "encodeFailed"@,
            Code::Stopped => "stopped"@,
            Code::QueueFull => "queueFull"@,
            Code::WorkerUnavailable => "workerUnavailable"@,
            Code::InvalidWindow => "invalidWindow"@,
            Code::InvalidCommand => "invalidCommand"@,
            Code::ReadOnly => "readOnly"@,
            Code::FileChanged => "fileChanged"@,
        }
    }

    pub fn as_str(self) -> (s: &'static str)
        ensures
            s@ == self.text(),
    {
        match self {
            Code::InvalidTime => "invalidTime",
            Code::InvalidState => "invalidState",
            Code::UnsupportedVersion => "unsupportedVersion",
            Code::InvalidDuration => "invalidDuration",
            Code::AlreadyActive => "alreadyActive",
            Code::InvalidTransition => "invalidTransition",
            Code::Loading => "loading",
            Code::SequenceExhausted => "sequenceExhausted",
            Code::ReadFailed => "readFailed",
            Code::InvalidFile => "invalidFile",
            Code::DirectoryUnavailable => "directoryUnavailable",
            Code::WriteFailed => "writeFailed",
            Code::EncodeFailed => "encodeFailed",
            Code::Stopped => "stopped",
            Code::QueueFull => "queueFull",
            Code::WorkerUnavailable => "workerUnavailable",
            Code::InvalidWindow => "invalidWindow",
            Code::InvalidCommand => "invalidCommand",
            Code::ReadOnly => "readOnly",
            Code::FileChanged => "fileChanged",
        }
    }
}

#[derive(Clone, Copy, Debug, PartialEq, Eq, Structural)]
pub struct Error {
    pub code: Code,
}

impl Error {
    pub fn new(code: Code) -> (e: Self)
        ensures
            e.code == code,
    {
        Self { code }
    }
}

pub open spec fn err(code: Code) -> Error {
    Error { code }
}

#[derive(Clone, Copy, Debug, PartialEq, Eq)]
pub struct Time {
    pub utc_ms: i64,
    pub monotonic_ms: u64,
}

impl Time {
    pub open spec fn valid(self) -> bool {
        0 <= self.utc_ms <= MAX_UTC && self.monotonic_ms <= MAX_SAFE
    }

    pub fn validate(self) -> (r: Result<(), Error>)
        ensures
            r is Ok <==> self.valid(),
            r matches Err(e) ==> e == err(Code::InvalidTime),
    {
        if !(0 <= self.utc_ms && self.utc_ms <= MAX_UTC) || self.monotonic_ms > MAX_SAFE {
            return Err(Error::new(Code::InvalidTime));
        }
        Ok(())
    }
}

#[derive(Clone, Copy, Debug, PartialEq, Eq, Structural)]
pub enum Outcome {
    Natural,
    EndedEarly,
    Abandoned,
}

#[derive(Clone, Copy, Debug, PartialEq, Eq, Structural)]
pub enum Feedback {
    /// No completion feedback is owed (the wire name is `none`).
    Absent,
    Pending,
    Dismissed,
}

#[derive(Clone, Copy, Debug, PartialEq, Eq, Structural)]
pub enum Session {
    Idle {},
    Running { duration_ms: u64, remaining_ms: u64, anchor_utc_ms: i64 },
    Paused { duration_ms: u64, remaining_ms: u64 },
    /// The clocks did not give a trustworthy elapsed time. Resuming is an
    /// explicit decision; the last known remaining time is kept.
    Interrupted { duration_ms: u64, remaining_ms: u64 },
    Finished { duration_ms: u64, outcome: Outcome, feedback: Feedback },
}

#[derive(Clone, Copy, Debug, PartialEq, Eq, Structural)]
pub struct Data {
    pub version: u8,
    pub session: Session,
}

/// A deadline `anchor + remaining` that is a representable UTC instant.
pub open spec fn deadline_ok(anchor_utc_ms: int, remaining_ms: int) -> bool {
    0 <= anchor_utc_ms <= MAX_UTC && anchor_utc_ms + remaining_ms <= MAX_UTC
}

pub open spec fn duration_ok(duration_ms: int) -> bool {
    MIN_DURATION_MS <= duration_ms <= MAX_DURATION_MS
}

pub open spec fn session_valid(s: Session) -> bool {
    match s {
        Session::Idle {  } => true,
        Session::Running { duration_ms, remaining_ms, anchor_utc_ms } => remaining_ms != 0
            && remaining_ms <= duration_ms && deadline_ok(anchor_utc_ms as int, remaining_ms as int)
            && duration_ok(duration_ms as int),
        Session::Paused { duration_ms, remaining_ms } => remaining_ms != 0 && remaining_ms
            <= duration_ms && duration_ok(duration_ms as int),
        Session::Interrupted { duration_ms, remaining_ms } => remaining_ms != 0 && remaining_ms
            <= duration_ms && duration_ok(duration_ms as int),
        Session::Finished { duration_ms, outcome, feedback } => (outcome == Outcome::Natural)
            == (feedback != Feedback::Absent) && duration_ok(duration_ms as int),
    }
}

impl Data {
    pub open spec fn valid(self) -> bool {
        self.version == VERSION && session_valid(self.session)
    }

    pub open spec fn validate_error(self) -> Error {
        if self.version != VERSION {
            err(Code::UnsupportedVersion)
        } else {
            err(Code::InvalidState)
        }
    }

    pub fn default_data() -> (d: Data)
        ensures
            d == (Data { version: VERSION, session: Session::Idle {  } }),
    {
        Data { version: VERSION, session: Session::Idle {  } }
    }

    pub fn validate(&self) -> (r: Result<(), Error>)
        ensures
            r is Ok <==> self.valid(),
            r matches Err(e) ==> e == self.validate_error(),
    {
        if self.version != VERSION {
            return Err(Error::new(Code::UnsupportedVersion));
        }
        let duration = match self.session {
            Session::Idle {  } => {
                return Ok(());
            },
            Session::Running { duration_ms, remaining_ms, anchor_utc_ms } => {
                if remaining_ms == 0 || remaining_ms > duration_ms || !valid_deadline(
                    anchor_utc_ms,
                    remaining_ms,
                ) {
                    return Err(Error::new(Code::InvalidState));
                }
                duration_ms
            },
            Session::Paused { duration_ms, remaining_ms } | Session::Interrupted {
                duration_ms,
                remaining_ms,
            } => {
                if remaining_ms == 0 || remaining_ms > duration_ms {
                    return Err(Error::new(Code::InvalidState));
                }
                duration_ms
            },
            Session::Finished { duration_ms, outcome, feedback } => {
                if (outcome == Outcome::Natural && feedback == Feedback::Absent) || (outcome
                    != Outcome::Natural && feedback != Feedback::Absent) {
                    return Err(Error::new(Code::InvalidState));
                }
                duration_ms
            },
        };
        if !(MIN_DURATION_MS <= duration && duration <= MAX_DURATION_MS) {
            return Err(Error::new(Code::InvalidState));
        }
        Ok(())
    }
}

impl Default for Data {
    fn default() -> (d: Data)
        ensures
            d == (Data { version: VERSION, session: Session::Idle {  } }),
    {
        Data::default_data()
    }
}

#[derive(Clone, Copy, Debug, PartialEq, Eq, Structural)]
pub enum Command {
    Tick,
    Start { duration_ms: u64 },
    Pause,
    Resume,
    EndEarly,
    Abandon,
    DismissFeedback,
}

/// Only a live transition reports `completed_now`. Restoring an expired
/// snapshot keeps feedback pending but reports nothing.
#[derive(Clone, Copy, Debug, Default, PartialEq, Eq, Structural)]
pub struct Transition {
    pub completed_now: bool,
}

#[derive(Clone, Copy, Debug, PartialEq, Eq, Structural)]
pub struct Engine {
    pub data: Data,
    /// Monotonic instant that corresponds to a running session's UTC anchor.
    pub monotonic_anchor_ms: Option<u64>,
}

pub fn valid_deadline(anchor_utc_ms: i64, remaining_ms: u64) -> (r: bool)
    ensures
        r == deadline_ok(anchor_utc_ms as int, remaining_ms as int),
{
    if !(0 <= anchor_utc_ms && anchor_utc_ms <= MAX_UTC) {
        return false;
    }
    if remaining_ms > i64::MAX as u64 {
        return false;
    }
    match anchor_utc_ms.checked_add(remaining_ms as i64) {
        Some(deadline) => deadline <= MAX_UTC,
        None => false,
    }
}

// ---------------------------------------------------------------------------
// Specification of the transitions.
// ---------------------------------------------------------------------------
pub open spec fn natural_finish(duration_ms: u64) -> Session {
    Session::Finished { duration_ms, outcome: Outcome::Natural, feedback: Feedback::Pending }
}

/// Rebuilds the monotonic anchor from a UTC gap of at most one day. A past
/// deadline becomes reviewable state, never a live completion.
pub open spec fn restore_spec(data: Data, now: Time) -> Result<Engine, Error> {
    if !data.valid() {
        Err(data.validate_error())
    } else if !now.valid() {
        Err(err(Code::InvalidTime))
    } else {
        match data.session {
            Session::Running { duration_ms, remaining_ms, anchor_utc_ms } => {
                let elapsed = now.utc_ms - anchor_utc_ms;
                if 0 <= elapsed <= MAX_TRUSTED_GAP_MS && elapsed >= remaining_ms {
                    Ok(
                        Engine {
                            data: Data { session: natural_finish(duration_ms), ..data },
                            monotonic_anchor_ms: None,
                        },
                    )
                } else if 0 <= elapsed <= MAX_TRUSTED_GAP_MS {
                    Ok(
                        Engine {
                            data: Data {
                                session: Session::Running {
                                    duration_ms,
                                    remaining_ms: (remaining_ms - elapsed) as u64,
                                    anchor_utc_ms: now.utc_ms,
                                },
                                ..data
                            },
                            monotonic_anchor_ms: Some(now.monotonic_ms),
                        },
                    )
                } else {
                    Ok(
                        Engine {
                            data: Data {
                                session: Session::Interrupted { duration_ms, remaining_ms },
                                ..data
                            },
                            monotonic_anchor_ms: None,
                        },
                    )
                }
            },
            _ => Ok(Engine { data, monotonic_anchor_ms: None }),
        }
    }
}

pub open spec fn abs_diff(a: int, b: int) -> int {
    if a >= b {
        a - b
    } else {
        b - a
    }
}

/// Both clocks advanced, by at most a day each, and agree within the drift.
pub open spec fn trustworthy(mono: int, wall: int) -> bool {
    &&& 0 <= mono <= MAX_TRUSTED_GAP_MS
    &&& 0 <= wall <= MAX_TRUSTED_GAP_MS
    &&& abs_diff(mono, wall) <= MAX_CLOCK_DRIFT_MS
}

/// Let a running session's clocks advance; returns whether it completed now.
pub open spec fn clock_spec(e: Engine, now: Time) -> Result<(Engine, bool), Error> {
    match e.data.session {
        Session::Running { duration_ms, remaining_ms, anchor_utc_ms } => match e.monotonic_anchor_ms {
            None => Err(err(Code::InvalidState)),
            Some(anchor) => {
                let mono = now.monotonic_ms - anchor;
                let wall = now.utc_ms - anchor_utc_ms;
                if !trustworthy(mono, wall) {
                    Ok(
                        (
                            Engine {
                                data: Data {
                                    session: Session::Interrupted { duration_ms, remaining_ms },
                                    ..e.data
                                },
                                monotonic_anchor_ms: None,
                            },
                            false,
                        ),
                    )
                } else if mono >= remaining_ms {
                    Ok(
                        (
                            Engine {
                                data: Data { session: natural_finish(duration_ms), ..e.data },
                                monotonic_anchor_ms: None,
                            },
                            true,
                        ),
                    )
                } else {
                    Ok(
                        (
                            Engine {
                                data: Data {
                                    session: Session::Running {
                                        duration_ms,
                                        remaining_ms: (remaining_ms - mono) as u64,
                                        anchor_utc_ms: (anchor_utc_ms + mono) as i64,
                                    },
                                    ..e.data
                                },
                                monotonic_anchor_ms: Some(now.monotonic_ms),
                            },
                            false,
                        ),
                    )
                }
            },
        },
        _ => Ok((e, false)),
    }
}

pub open spec fn with_session(e: Engine, s: Session, anchor: Option<u64>) -> Engine {
    Engine { data: Data { session: s, ..e.data }, monotonic_anchor_ms: anchor }
}

pub open spec fn is_active(s: Session) -> bool {
    s is Running || s is Paused || s is Interrupted
}

pub open spec fn session_duration(s: Session) -> u64 {
    match s {
        Session::Idle {  } => 0,
        Session::Running { duration_ms, .. } => duration_ms,
        Session::Paused { duration_ms, .. } => duration_ms,
        Session::Interrupted { duration_ms, .. } => duration_ms,
        Session::Finished { duration_ms, .. } => duration_ms,
    }
}

/// The command's own effect. Repeating a command whose effect already holds
/// keeps the state; anything else not listed is an invalid transition.
pub open spec fn apply_spec(e: Engine, command: Command, now: Time) -> Result<Engine, Error> {
    let s = e.data.session;
    match command {
        Command::Tick => Ok(e),
        Command::Start { duration_ms } => if s is Idle || s is Finished {
            if !deadline_ok(now.utc_ms as int, duration_ms as int) {
                Err(err(Code::InvalidTime))
            } else {
                Ok(
                    with_session(
                        e,
                        Session::Running {
                            duration_ms,
                            remaining_ms: duration_ms,
                            anchor_utc_ms: now.utc_ms,
                        },
                        Some(now.monotonic_ms),
                    ),
                )
            }
        } else {
            Err(err(Code::InvalidTransition))
        },
        Command::Pause => match s {
            Session::Running { duration_ms, remaining_ms, .. } => Ok(
                with_session(e, Session::Paused { duration_ms, remaining_ms }, None),
            ),
            Session::Paused { .. } => Ok(e),
            Session::Finished { outcome: Outcome::Natural, .. } => Ok(e),
            _ => Err(err(Code::InvalidTransition)),
        },
        Command::Resume => match s {
            Session::Paused { duration_ms, remaining_ms } | Session::Interrupted {
                duration_ms,
                remaining_ms,
            } => if !deadline_ok(now.utc_ms as int, remaining_ms as int) {
                Err(err(Code::InvalidTime))
            } else {
                Ok(
                    with_session(
                        e,
                        Session::Running { duration_ms, remaining_ms, anchor_utc_ms: now.utc_ms },
                        Some(now.monotonic_ms),
                    ),
                )
            },
            Session::Running { .. } => Ok(e),
            Session::Finished { outcome: Outcome::Natural, .. } => Ok(e),
            _ => Err(err(Code::InvalidTransition)),
        },
        Command::EndEarly => if is_active(s) {
            Ok(
                with_session(
                    e,
                    Session::Finished {
                        duration_ms: session_duration(s),
                        outcome: Outcome::EndedEarly,
                        feedback: Feedback::Absent,
                    },
                    None,
                ),
            )
        } else {
            match s {
                Session::Finished { outcome: Outcome::EndedEarly, .. } => Ok(e),
                Session::Finished { outcome: Outcome::Natural, .. } => Ok(e),
                _ => Err(err(Code::InvalidTransition)),
            }
        },
        Command::Abandon => if is_active(s) {
            Ok(
                with_session(
                    e,
                    Session::Finished {
                        duration_ms: session_duration(s),
                        outcome: Outcome::Abandoned,
                        feedback: Feedback::Absent,
                    },
                    None,
                ),
            )
        } else {
            match s {
                Session::Finished { outcome: Outcome::Abandoned, .. } => Ok(e),
                Session::Finished { outcome: Outcome::Natural, .. } => Ok(e),
                _ => Err(err(Code::InvalidTransition)),
            }
        },
        Command::DismissFeedback => match s {
            Session::Finished { duration_ms, outcome: Outcome::Natural, .. } => Ok(
                with_session(
                    e,
                    Session::Finished {
                        duration_ms,
                        outcome: Outcome::Natural,
                        feedback: Feedback::Dismissed,
                    },
                    e.monotonic_anchor_ms,
                ),
            ),
            _ => Err(err(Code::InvalidTransition)),
        },
    }
}

/// `step`: the clocks advance first (except for `Start`), then the command
/// applies; the engine changes only when both succeed.
pub open spec fn step_spec(e: Engine, command: Command, now: Time) -> Result<
    (Engine, Transition),
    Error,
> {
    if !now.valid() {
        Err(err(Code::InvalidTime))
    } else if !e.data.valid() {
        Err(e.data.validate_error())
    } else if command matches Command::Start { duration_ms } && !duration_ok(duration_ms as int) {
        Err(err(Code::InvalidDuration))
    } else if command is Start && !(e.data.session is Idle || e.data.session is Finished) {
        Err(err(Code::AlreadyActive))
    } else {
        let clocked = if command is Start {
            Ok((e, false))
        } else {
            clock_spec(e, now)
        };
        match clocked {
            Err(x) => Err(x),
            Ok((e1, completed)) => match apply_spec(e1, command, now) {
                Err(x) => Err(x),
                Ok(e2) => Ok((e2, Transition { completed_now: completed })),
            },
        }
    }
}


// ---------------------------------------------------------------------------
// Executable engine.
// ---------------------------------------------------------------------------
impl Engine {
    pub fn new() -> (e: Self)
        ensures
            e == (Engine {
                data: Data { version: VERSION, session: Session::Idle {  } },
                monotonic_anchor_ms: None,
            }),
    {
        Engine { data: Data::default_data(), monotonic_anchor_ms: None }
    }

    /// Rebuild an engine from stored data and the current clocks.
    pub fn restore(data: Data, now: Time) -> (r: Result<Self, Error>)
        ensures
            r == restore_spec(data, now),
    {
        match data.validate() {
            Ok(()) => {},
            Err(e) => {
                return Err(e);
            },
        }
        match now.validate() {
            Ok(()) => {},
            Err(e) => {
                return Err(e);
            },
        }
        let mut data = data;
        let mut anchor: Option<u64> = None;
        if let Session::Running { duration_ms, remaining_ms, anchor_utc_ms } = data.session {
            let elapsed = now.utc_ms - anchor_utc_ms;
            if elapsed >= 0 && elapsed <= MAX_TRUSTED_GAP_MS as i64 {
                let elapsed = elapsed as u64;
                if elapsed >= remaining_ms {
                    data.session = Session::Finished {
                        duration_ms,
                        outcome: Outcome::Natural,
                        feedback: Feedback::Pending,
                    };
                } else {
                    anchor = Some(now.monotonic_ms);
                    data.session = Session::Running {
                        duration_ms,
                        remaining_ms: remaining_ms - elapsed,
                        anchor_utc_ms: now.utc_ms,
                    };
                }
            } else {
                data.session = Session::Interrupted { duration_ms, remaining_ms };
            }
        }
        Ok(Engine { data, monotonic_anchor_ms: anchor })
    }

    fn advance_clock(&mut self, now: Time) -> (r: Result<bool, Error>)
        requires
            now.valid(),
            old(self).data.valid(),
        ensures
            match clock_spec(*old(self), now) {
                Ok((e, c)) => r == Ok::<bool, Error>(c) && *final(self) == e,
                Err(x) => r == Err::<bool, Error>(x),
            },
    {
        let (duration_ms, remaining_ms, anchor_utc_ms) = match self.data.session {
            Session::Running { duration_ms, remaining_ms, anchor_utc_ms } => (
                duration_ms,
                remaining_ms,
                anchor_utc_ms,
            ),
            _ => {
                return Ok(false);
            },
        };
        let anchor = match self.monotonic_anchor_ms {
            Some(a) => a,
            None => {
                return Err(Error::new(Code::InvalidState));
            },
        };
        let wall = now.utc_ms - anchor_utc_ms;
        let trusted = if now.monotonic_ms >= anchor && wall >= 0 {
            let mono = now.monotonic_ms - anchor;
            let wall = wall as u64;
            let drift = if mono >= wall {
                mono - wall
            } else {
                wall - mono
            };
            mono <= MAX_TRUSTED_GAP_MS && wall <= MAX_TRUSTED_GAP_MS && drift <= MAX_CLOCK_DRIFT_MS
        } else {
            false
        };
        if !trusted {
            self.data.session = Session::Interrupted { duration_ms, remaining_ms };
            self.monotonic_anchor_ms = None;
            return Ok(false);
        }
        let elapsed = now.monotonic_ms - anchor;
        if elapsed >= remaining_ms {
            self.data.session = Session::Finished {
                duration_ms,
                outcome: Outcome::Natural,
                feedback: Feedback::Pending,
            };
            self.monotonic_anchor_ms = None;
            return Ok(true);
        }
        // Keep any tolerated wall-clock skew: rebasing on `now.utc_ms` would
        // discard the gap and extend the session.
        self.data.session = Session::Running {
            duration_ms,
            remaining_ms: remaining_ms - elapsed,
            anchor_utc_ms: anchor_utc_ms + elapsed as i64,
        };
        self.monotonic_anchor_ms = Some(now.monotonic_ms);
        Ok(false)
    }

    fn apply(&mut self, command: Command, now: Time) -> (r: Result<(), Error>)
        ensures
            match apply_spec(*old(self), command, now) {
                Ok(e) => r is Ok && *final(self) == e,
                Err(x) => r == Err::<(), Error>(x),
            },
    {
        let s = self.data.session;
        let next = match command {
            Command::Tick => s,
            Command::Start { duration_ms } => match s {
                Session::Idle {  } | Session::Finished { .. } => {
                    if !valid_deadline(now.utc_ms, duration_ms) {
                        return Err(Error::new(Code::InvalidTime));
                    }
                    self.monotonic_anchor_ms = Some(now.monotonic_ms);
                    Session::Running {
                        duration_ms,
                        remaining_ms: duration_ms,
                        anchor_utc_ms: now.utc_ms,
                    }
                },
                _ => {
                    return Err(Error::new(Code::InvalidTransition));
                },
            },
            Command::Pause => match s {
                Session::Running { duration_ms, remaining_ms, .. } => {
                    self.monotonic_anchor_ms = None;
                    Session::Paused { duration_ms, remaining_ms }
                },
                Session::Paused { .. } => s,
                Session::Finished { outcome: Outcome::Natural, .. } => s,
                _ => {
                    return Err(Error::new(Code::InvalidTransition));
                },
            },
            Command::Resume => match s {
                Session::Paused { duration_ms, remaining_ms } | Session::Interrupted {
                    duration_ms,
                    remaining_ms,
                } => {
                    if !valid_deadline(now.utc_ms, remaining_ms) {
                        return Err(Error::new(Code::InvalidTime));
                    }
                    self.monotonic_anchor_ms = Some(now.monotonic_ms);
                    Session::Running { duration_ms, remaining_ms, anchor_utc_ms: now.utc_ms }
                },
                Session::Running { .. } => s,
                Session::Finished { outcome: Outcome::Natural, .. } => s,
                _ => {
                    return Err(Error::new(Code::InvalidTransition));
                },
            },
            Command::EndEarly => match s {
                Session::Running { duration_ms, .. } | Session::Paused { duration_ms, .. }
                | Session::Interrupted { duration_ms, .. } => {
                    self.monotonic_anchor_ms = None;
                    Session::Finished {
                        duration_ms,
                        outcome: Outcome::EndedEarly,
                        feedback: Feedback::Absent,
                    }
                },
                Session::Finished { outcome: Outcome::EndedEarly, .. } => s,
                Session::Finished { outcome: Outcome::Natural, .. } => s,
                _ => {
                    return Err(Error::new(Code::InvalidTransition));
                },
            },
            Command::Abandon => match s {
                Session::Running { duration_ms, .. } | Session::Paused { duration_ms, .. }
                | Session::Interrupted { duration_ms, .. } => {
                    self.monotonic_anchor_ms = None;
                    Session::Finished {
                        duration_ms,
                        outcome: Outcome::Abandoned,
                        feedback: Feedback::Absent,
                    }
                },
                Session::Finished { outcome: Outcome::Abandoned, .. } => s,
                Session::Finished { outcome: Outcome::Natural, .. } => s,
                _ => {
                    return Err(Error::new(Code::InvalidTransition));
                },
            },
            Command::DismissFeedback => match s {
                Session::Finished { duration_ms, outcome: Outcome::Natural, .. } => {
                    Session::Finished {
                        duration_ms,
                        outcome: Outcome::Natural,
                        feedback: Feedback::Dismissed,
                    }
                },
                _ => {
                    return Err(Error::new(Code::InvalidTransition));
                },
            },
        };
        self.data.session = next;
        Ok(())
    }

    /// Compute the complete next state first and publish it only when the
    /// whole transition succeeded.
    pub fn step(&mut self, command: Command, now: Time) -> (r: Result<Transition, Error>)
        ensures
            match step_spec(*old(self), command, now) {
                Ok((e, t)) => r == Ok::<Transition, Error>(t) && *final(self) == e,
                Err(x) => r == Err::<Transition, Error>(x) && *final(self) == *old(self),
            },
            old(self).data.valid() ==> final(self).data.valid(),
    {
        match now.validate() {
            Ok(()) => {},
            Err(e) => {
                return Err(e);
            },
        }
        match self.data.validate() {
            Ok(()) => {},
            Err(e) => {
                return Err(e);
            },
        }
        if let Command::Start { duration_ms } = command {
            if !(MIN_DURATION_MS <= duration_ms && duration_ms <= MAX_DURATION_MS) {
                return Err(Error::new(Code::InvalidDuration));
            }
            match self.data.session {
                Session::Idle {  } | Session::Finished { .. } => {},
                _ => {
                    return Err(Error::new(Code::AlreadyActive));
                },
            }
        }
        let mut next = *self;
        let mut result = Transition { completed_now: false };
        let is_start = match command {
            Command::Start { .. } => true,
            _ => false,
        };
        if !is_start {
            match next.advance_clock(now) {
                Ok(c) => {
                    result.completed_now = c;
                },
                Err(e) => {
                    return Err(e);
                },
            }
        }
        match next.apply(command, now) {
            Ok(()) => {},
            Err(e) => {
                return Err(e);
            },
        }
        proof {
            lemma_step_keeps_valid(*self, command, now);
        }
        match next.data.validate() {
            Ok(()) => {},
            Err(e) => {
                return Err(e);
            },
        }
        *self = next;
        Ok(result)
    }
}

impl Default for Engine {
    fn default() -> (e: Self)
        ensures
            e == (Engine {
                data: Data { version: VERSION, session: Session::Idle {  } },
                monotonic_anchor_ms: None,
            }),
    {
        Engine::new()
    }
}

/// A completion is reported only by the step in which a running session
/// reaches its deadline, and that step ends in a naturally finished session;
/// a session that is not running never reports one, so a finished session
/// never reports it again.
pub proof fn lemma_completion_reported_once(e: Engine, command: Command, now: Time)
    ensures
        step_spec(e, command, now) matches Ok((e2, t)) ==> (t.completed_now ==> (
        e.data.session is Running && e2.data.session matches Session::Finished {
            outcome: Outcome::Natural,
            ..
        })),
{
}

/// Every successful transition ends in valid data, so `step`'s final
/// validation never refuses a transition.
pub proof fn lemma_step_keeps_valid(e: Engine, command: Command, now: Time)
    ensures
        step_spec(e, command, now) matches Ok((e2, _)) ==> e2.data.valid(),
{
}

/// Restoring valid data on a valid clock yields valid data.
pub proof fn lemma_restore_valid(data: Data, now: Time)
    ensures
        restore_spec(data, now) matches Ok(e) ==> e.data.valid(),
{
}


/// Restoring only rewrites a running timer: valid data holding any other
/// session (idle, paused, interrupted, or finished with its feedback still
/// owed or already given) comes back exactly as stored, with no monotonic
/// anchor.
pub proof fn lemma_restore_keeps_settled_sessions(data: Data, now: Time)
    requires
        data.valid(),
        now.valid(),
        !(data.session is Running),
    ensures
        restore_spec(data, now) == Ok::<Engine, Error>(
            Engine { data, monotonic_anchor_ms: None },
        ),
        restore_spec(data, now) matches Ok(e) ==> e.data.session == data.session,
{
}

/// What is left of an active session; nothing for any other.
pub open spec fn session_remaining(s: Session) -> u64 {
    match s {
        Session::Running { remaining_ms, .. } => remaining_ms,
        Session::Paused { remaining_ms, .. } => remaining_ms,
        Session::Interrupted { remaining_ms, .. } => remaining_ms,
        _ => 0,
    }
}

/// Only a new start lengthens a timer: through any other successful step an
/// active session keeps its duration and its remaining time never grows, and
/// resuming a paused or interrupted session keeps the remaining time exactly.
pub proof fn lemma_remaining_never_grows(e: Engine, command: Command, now: Time)
    requires
        !(command is Start),
    ensures
        step_spec(e, command, now) matches Ok((e2, _)) ==> (is_active(e2.data.session) ==> {
            &&& is_active(e.data.session)
            &&& session_duration(e2.data.session) == session_duration(e.data.session)
            &&& session_remaining(e2.data.session) <= session_remaining(e.data.session)
            &&& (command is Resume && !(e.data.session is Running)) ==> session_remaining(
                e2.data.session,
            ) == session_remaining(e.data.session)
        }),
{
}


/// Restoring never replays a completion: a deadline that passed while the
/// app was closed becomes reviewable state, and no step at the instant of
/// the restore reports a live completion.
pub proof fn lemma_restore_never_completes(data: Data, now: Time, command: Command)
    ensures
        restore_spec(data, now) matches Ok(e) ==> (step_spec(e, command, now) matches Ok((_, t))
            ==> !t.completed_now),
{
}


/// The command table. Repeating a command whose effect already holds keeps
/// the engine: pause when paused, resume when running, ending early or
/// abandoning an already so finished session, and every one of these four on
/// a naturally finished session. Dismissing feedback of a natural finish
/// marks it dismissed; dismissing anything else, or pausing an idle timer,
/// is an invalid transition.
pub proof fn lemma_command_table(e: Engine, now: Time)
    ensures
        e.data.session is Paused ==> apply_spec(e, Command::Pause, now) == Ok::<Engine, Error>(e),
        e.data.session is Running ==> apply_spec(e, Command::Resume, now) == Ok::<Engine, Error>(e),
        e.data.session matches Session::Finished { outcome: Outcome::EndedEarly, .. }
            ==> apply_spec(e, Command::EndEarly, now) == Ok::<Engine, Error>(e),
        e.data.session matches Session::Finished { outcome: Outcome::Abandoned, .. }
            ==> apply_spec(e, Command::Abandon, now) == Ok::<Engine, Error>(e),
        e.data.session matches Session::Finished { outcome: Outcome::Natural, .. } ==> {
            &&& apply_spec(e, Command::Pause, now) == Ok::<Engine, Error>(e)
            &&& apply_spec(e, Command::Resume, now) == Ok::<Engine, Error>(e)
            &&& apply_spec(e, Command::EndEarly, now) == Ok::<Engine, Error>(e)
            &&& apply_spec(e, Command::Abandon, now) == Ok::<Engine, Error>(e)
            &&& apply_spec(e, Command::DismissFeedback, now) == Ok::<Engine, Error>(
                with_session(
                    e,
                    Session::Finished {
                        duration_ms: session_duration(e.data.session),
                        outcome: Outcome::Natural,
                        feedback: Feedback::Dismissed,
                    },
                    e.monotonic_anchor_ms,
                ),
            )
        },
        !(e.data.session matches Session::Finished { outcome: Outcome::Natural, .. })
            ==> apply_spec(e, Command::DismissFeedback, now) == Err::<Engine, Error>(
            err(Code::InvalidTransition),
        ),
        e.data.session is Idle ==> apply_spec(e, Command::Pause, now) == Err::<Engine, Error>(
            err(Code::InvalidTransition),
        ),
{
}

/// What a step is made of: on valid data and a valid clock, any command but
/// a start first lets the clock advance (`clock_spec`) and then applies the
/// command, reporting the clock's completion; a tick is the clock advance
/// alone. On a session that is not running the clock changes nothing.
pub proof fn lemma_step_is_clock_then_command(e: Engine, command: Command, now: Time)
    requires
        e.data.valid(),
        now.valid(),
        !(command is Start),
    ensures
        step_spec(e, command, now) == match clock_spec(e, now) {
            Err(x) => Err(x),
            Ok((e1, completed)) => match apply_spec(e1, command, now) {
                Err(x) => Err(x),
                Ok(e2) => Ok((e2, Transition { completed_now: completed })),
            },
        },
        command is Tick ==> step_spec(e, command, now) == match clock_spec(e, now) {
            Err(x) => Err(x),
            Ok((e1, completed)) => Ok((e1, Transition { completed_now: completed })),
        },
        !(e.data.session is Running) ==> clock_spec(e, now) == Ok::<(Engine, bool), Error>((e, false)),
{
}

} // verus!
