//! A single presentation opportunity shared by reminders and focus completion;
//! not a second reminder queue or focus store.
use crate::reminders::model::Mode;
use vstd::prelude::*;

verus! {

/// How long a live focus completion may wait for the bubble.
pub const COMPLETION_WINDOW_MS: u64 = 10_000;

#[derive(Clone, Copy, Debug, PartialEq, Eq, Structural)]
pub enum FocusState {
    Unavailable,
    Running,
    Available,
}

#[derive(Clone, Copy, Debug, PartialEq, Eq, Structural)]
pub enum Source {
    Reminder(u64),
    Focus(u64),
}

#[derive(Clone, Copy)]
pub struct Input {
    pub reminder: Option<(u64, Mode)>,
    pub focus: FocusState,
    pub automatic_allowed: bool,
    pub now_ms: u64,
    pub utc_ms: i64,
}

#[derive(Default)]
pub struct Coordinator {
    source: Option<Source>,
    id: u64,
    suppressed_through: u64,
    completion_seen: u64,
    completion: Option<(u64, u64, i64)>,
    was_running: bool,
    response_seen: u64,
    dismissed: Option<Source>,
}

pub struct CoordinatorView {
    /// What the bubble currently shows.
    pub source: Option<Source>,
    /// Identifier of the current selection; it changes whenever the source does.
    pub id: u64,
    /// Automatic reminder presentations up to this identifier are never shown.
    pub suppressed_through: u64,
    pub completion_seen: u64,
    /// A live focus completion (revision, monotonic and UTC expiry).
    pub completion: Option<(u64, u64, i64)>,
    pub was_running: bool,
    pub response_seen: u64,
    pub dismissed: Option<Source>,
}

impl View for Coordinator {
    type V = CoordinatorView;

    closed spec fn view(&self) -> CoordinatorView {
        CoordinatorView {
            source: self.source,
            id: self.id,
            suppressed_through: self.suppressed_through,
            completion_seen: self.completion_seen,
            completion: self.completion,
            was_running: self.was_running,
            response_seen: self.response_seen,
            dismissed: self.dismissed,
        }
    }
}

pub open spec fn sat_add_u(a: u64, b: u64) -> u64 {
    if a + b > u64::MAX {
        u64::MAX
    } else {
        (a + b) as u64
    }
}

pub open spec fn sat_add_i(a: i64, b: i64) -> i64 {
    if a + b > i64::MAX {
        i64::MAX
    } else {
        (a + b) as i64
    }
}

pub open spec fn max_u(a: u64, b: u64) -> u64 {
    if a >= b {
        a
    } else {
        b
    }
}

pub open spec fn manual_of(input: Input) -> Option<u64> {
    match input.reminder {
        Some((id, Mode::Manual)) => Some(id),
        _ => None,
    }
}

/// Automatic prompts need available focus, permission, and no manual view.
pub open spec fn allowed_of(input: Input) -> bool {
    input.focus == FocusState::Available && input.automatic_allowed && manual_of(input) is None
}

/// The first three parts of `update`: record a fresh completion, drop an
/// expired or blocked one, and suppress automatic reminders around focus.
pub open spec fn update_state(c: CoordinatorView, input: Input, completion: Option<u64>) -> CoordinatorView {
    let allowed = allowed_of(input);
    let c1 = match completion {
        Some(r) if r > c.completion_seen => CoordinatorView {
            completion_seen: r,
            completion: if allowed {
                Some(
                    (
                        r,
                        sat_add_u(input.now_ms, COMPLETION_WINDOW_MS),
                        sat_add_i(input.utc_ms, COMPLETION_WINDOW_MS as i64),
                    ),
                )
            } else {
                None
            },
            ..c
        },
        _ => c,
    };
    let expired = match c1.completion {
        Some((_, until, utc_until)) => input.now_ms >= until || input.utc_ms >= utc_until,
        None => false,
    };
    let c2 = if !allowed || expired {
        CoordinatorView { completion: None, ..c1 }
    } else {
        c1
    };
    let suppress = input.focus == FocusState::Running || c2.was_running || c2.completion is Some
        || completion is Some;
    let c3 = match input.reminder {
        Some((id, Mode::Automatic)) if suppress => CoordinatorView {
            suppressed_through: max_u(c2.suppressed_through, id),
            ..c2
        },
        _ => c2,
    };
    CoordinatorView { was_running: input.focus == FocusState::Running, ..c3 }
}

pub open spec fn held_revision(completion: Option<(u64, u64, i64)>) -> u64 {
    match completion {
        Some((r, _, _)) => r,
        None => 0,
    }
}

/// Manual view first, then a live completion, then a not yet suppressed
/// automatic reminder while focus is not running; never the dismissed source.
pub open spec fn next_source(c: CoordinatorView, input: Input) -> Option<Source> {
    let next = if manual_of(input) is Some {
        Some(Source::Reminder(manual_of(input)->0))
    } else if c.completion is Some {
        Some(Source::Focus(held_revision(c.completion)))
    } else if input.focus != FocusState::Running && input.automatic_allowed {
        match input.reminder {
            Some((id, _)) if id > c.suppressed_through => Some(Source::Reminder(id)),
            _ => None,
        }
    } else {
        None
    };
    if next is Some && next == c.dismissed {
        None
    } else {
        next
    }
}

pub open spec fn update_spec(c: CoordinatorView, input: Input, completion: Option<u64>) -> (
    CoordinatorView,
    Option<(u64, Source)>,
) {
    let c4 = update_state(c, input, completion);
    let next = next_source(c4, input);
    let c5 = if next != c4.source {
        CoordinatorView { id: sat_add_u(c4.id, 1), source: next, ..c4 }
    } else {
        c4
    };
    (
        c5,
        match c5.source {
            Some(s) => Some((c5.id, s)),
            None => None,
        },
    )
}

pub open spec fn dismiss_spec(c: CoordinatorView) -> CoordinatorView {
    CoordinatorView {
        dismissed: c.source,
        suppressed_through: match c.source {
            Some(Source::Reminder(id)) => max_u(c.suppressed_through, id),
            _ => c.suppressed_through,
        },
        completion: None,
        source: None,
        ..c
    }
}

pub open spec fn respond_spec(c: CoordinatorView, revision: u64) -> (CoordinatorView, Option<u64>) {
    if revision <= c.response_seen {
        (c, None)
    } else {
        (CoordinatorView { response_seen: revision, ..c }, Some(revision))
    }
}

pub open spec fn presented_spec(c: CoordinatorView, id: u64) -> (CoordinatorView, Option<u64>) {
    if id != c.id {
        (c, None)
    } else {
        match c.source {
            Some(Source::Focus(revision)) => respond_spec(c, revision),
            _ => (c, None),
        }
    }
}

pub open spec fn retain_spec(c: CoordinatorView, revision: Option<u64>) -> CoordinatorView {
    match c.completion {
        Some((r, _, _)) if Some(r) != revision => CoordinatorView { completion: None, ..c },
        _ => c,
    }
}

fn same_source(a: Option<Source>, b: Option<Source>) -> (r: bool)
    ensures
        r == (a == b),
{
    match (a, b) {
        (None, None) => true,
        (Some(Source::Reminder(x)), Some(Source::Reminder(y))) => x == y,
        (Some(Source::Focus(x)), Some(Source::Focus(y))) => x == y,
        _ => false,
    }
}

impl Coordinator {
    pub fn new() -> (c: Self)
        ensures
            c@ == (CoordinatorView {
                source: None,
                id: 0,
                suppressed_through: 0,
                completion_seen: 0,
                completion: None,
                was_running: false,
                response_seen: 0,
                dismissed: None,
            }),
    {
        Coordinator {
            source: None,
            id: 0,
            suppressed_through: 0,
            completion_seen: 0,
            completion: None,
            was_running: false,
            response_seen: 0,
            dismissed: None,
        }
    }

    /// Select what the one bubble presents now, as `(selection id, source)`.
    pub fn update(&mut self, input: Input, completion: Option<u64>) -> (r: Option<(u64, Source)>)
        ensures
            (final(self)@, r) == update_spec(old(self)@, input, completion),
    {
        let manual = match input.reminder {
            Some((id, Mode::Manual)) => Some(id),
            _ => None,
        };
        let allowed = input.focus == FocusState::Available && input.automatic_allowed
            && manual.is_none();
        if let Some(revision) = completion {
            if revision > self.completion_seen {
                self.completion_seen = revision;
                self.completion = if allowed {
                    let utc_until = if input.utc_ms > i64::MAX - COMPLETION_WINDOW_MS as i64 {
                        i64::MAX
                    } else {
                        input.utc_ms + COMPLETION_WINDOW_MS as i64
                    };
                    Some((revision, input.now_ms.saturating_add(COMPLETION_WINDOW_MS), utc_until))
                } else {
                    None
                };
            }
        }
        // Expired or blocked opportunities are consumed, never held for later.
        let expired = match self.completion {
            Some((_, until, utc_until)) => input.now_ms >= until || input.utc_ms >= utc_until,
            None => false,
        };
        if !allowed || expired {
            self.completion = None;
        }
        if input.focus == FocusState::Running || self.was_running || self.completion.is_some()
            || completion.is_some() {
            if let Some((id, Mode::Automatic)) = input.reminder {
                if id > self.suppressed_through {
                    self.suppressed_through = id;
                }
            }
        }
        self.was_running = input.focus == FocusState::Running;
        let next = if let Some(id) = manual {
            Some(Source::Reminder(id))
        } else if let Some((revision, _, _)) = self.completion {
            Some(Source::Focus(revision))
        } else if input.focus != FocusState::Running && input.automatic_allowed {
            match input.reminder {
                Some((id, _)) => if id > self.suppressed_through {
                    Some(Source::Reminder(id))
                } else {
                    None
                },
                None => None,
            }
        } else {
            None
        };
        let next = if next.is_some() && same_source(next, self.dismissed) {
            None
        } else {
            next
        };
        if !same_source(next, self.source) {
            self.id = self.id.saturating_add(1);
            self.source = next;
        }
        match self.source {
            Some(source) => Some((self.id, source)),
            None => None,
        }
    }

    /// The user closed the bubble: its source never returns by itself.
    pub fn dismiss(&mut self)
        ensures
            final(self)@ == dismiss_spec(old(self)@),
    {
        self.dismissed = self.source;
        if let Some(Source::Reminder(id)) = self.source {
            if id > self.suppressed_through {
                self.suppressed_through = id;
            }
        }
        self.completion = None;
        self.source = None;
    }

    /// The bubble shown under `id` is visible; a focus completion yields its
    /// response revision once.
    pub fn presented(&mut self, id: u64) -> (r: Option<u64>)
        ensures
            (final(self)@, r) == presented_spec(old(self)@, id),
    {
        if id != self.id {
            return None;
        }
        if let Some(Source::Focus(revision)) = self.source {
            self.respond(revision)
        } else {
            None
        }
    }

    /// Each response revision is delivered at most once, in increasing order.
    pub fn respond(&mut self, revision: u64) -> (r: Option<u64>)
        ensures
            (final(self)@, r) == respond_spec(old(self)@, revision),
    {
        if revision <= self.response_seen {
            return None;
        }
        self.response_seen = revision;
        Some(revision)
    }

    /// Drop a held completion that is no longer the current natural one.
    pub fn retain_completion(&mut self, revision: Option<u64>)
        ensures
            final(self)@ == retain_spec(old(self)@, revision),
    {
        let drop = match self.completion {
            Some((r, _, _)) => match revision {
                Some(v) => r != v,
                None => true,
            },
            None => false,
        };
        if drop {
            self.completion = None;
        }
    }
}

/// A completion response is delivered at most once: once a revision has been
/// answered, by `respond` or by `presented`, no later call answers it or any
/// older revision again, whatever updates and dismissals happen in between,
/// because no operation lowers the answered revision.
pub proof fn lemma_response_at_most_once(
    c: CoordinatorView,
    revision: u64,
    id: u64,
    input: Input,
    completion: Option<u64>,
)
    ensures
        respond_spec(c, revision).1 is Some ==> respond_spec(c, revision).0.response_seen
            == revision,
        presented_spec(c, id).1 matches Some(r) ==> presented_spec(c, id).0.response_seen == r,
        revision <= c.response_seen ==> respond_spec(c, revision).1 is None,
        c.source matches Some(Source::Focus(r)) && r <= c.response_seen ==> presented_spec(
            c,
            id,
        ).1 is None,
        update_spec(c, input, completion).0.response_seen == c.response_seen,
        dismiss_spec(c).response_seen == c.response_seen,
        respond_spec(c, revision).0.response_seen >= c.response_seen,
        presented_spec(c, id).0.response_seen >= c.response_seen,
{
}

/// An automatic reminder is never presented at or below the suppression
/// mark (set while focus runs, around completions and on dismissal), and the
/// mark never goes down: a suppressed reminder never reappears by itself.
pub proof fn lemma_suppressed_never_replayed(c: CoordinatorView, input: Input, completion: Option<u64>)
    ensures
        update_spec(c, input, completion).0.suppressed_through >= c.suppressed_through,
        dismiss_spec(c).suppressed_through >= c.suppressed_through,
        update_spec(c, input, completion).1 matches Some((_, Source::Reminder(id))) ==> (
        input.reminder == Some((id, Mode::Automatic)) ==> id > c.suppressed_through),
{
}


/// Revision `r` can no longer be selected: it is recorded as seen, is not
/// held, and is not the current source.
pub open spec fn completion_gone(c: CoordinatorView, r: u64) -> bool {
    &&& c.completion_seen >= r
    &&& !(c.completion matches Some((x, _, _)) && x == r)
    &&& c.source != Some(Source::Focus(r))
}

/// A completion that arrives while it cannot be shown (focus not available,
/// automatic prompts not allowed, or a manual view open) is consumed, not
/// queued: the update that brings it does not select it, and neither does
/// any later update, dismissal, response or retention.
pub proof fn lemma_blocked_completion_consumed(
    c: CoordinatorView,
    input: Input,
    r: u64,
    later: CoordinatorView,
    next: Input,
    completion: Option<u64>,
    revision: u64,
    id: u64,
    kept: Option<u64>,
)
    requires
        r > c.completion_seen,
        !allowed_of(input),
    ensures
        !(update_spec(c, input, Some(r)).1 matches Some((_, Source::Focus(x))) && x == r),
        completion_gone(update_spec(c, input, Some(r)).0, r),
        completion_gone(later, r) ==> {
            &&& !(update_spec(later, next, completion).1 matches Some((_, Source::Focus(x))) && x
                == r)
            &&& completion_gone(update_spec(later, next, completion).0, r)
            &&& completion_gone(dismiss_spec(later), r)
            &&& completion_gone(respond_spec(later, revision).0, r)
            &&& completion_gone(presented_spec(later, id).0, r)
            &&& completion_gone(retain_spec(later, kept), r)
        },
{
}

} // verus!
