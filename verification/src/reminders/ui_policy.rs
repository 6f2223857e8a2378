//! Window presentation lifecycles only: no business clock, storage or native effects.
use crate::reminders::model::MAX_SAFE;
use vstd::prelude::*;

verus! {

#[derive(Default)]
pub struct SettingsUi {
    pub token: u64,
    pub creating: bool,
    pub open: bool,
    /// Identity of the displayed settings/backup session, kept while visible.
    pub generation: u64,
    /// Presentation intent sequence, independent of the session generation.
    pub intent: u64,
    displayed_generation: Option<u64>,
    stopped: bool,
}

pub struct SettingsUiView {
    pub token: u64,
    pub creating: bool,
    pub open: bool,
    pub generation: u64,
    pub intent: u64,
    pub displayed_generation: Option<u64>,
    pub stopped: bool,
}

impl View for SettingsUi {
    type V = SettingsUiView;

    closed spec fn view(&self) -> SettingsUiView {
        SettingsUiView {
            token: self.token,
            creating: self.creating,
            open: self.open,
            generation: self.generation,
            intent: self.intent,
            displayed_generation: self.displayed_generation,
            stopped: self.stopped,
        }
    }
}

impl SettingsUiView {
    /// The counters can still advance.
    pub open spec fn fresh(self) -> bool {
        self.token < u64::MAX && self.generation < u64::MAX && self.intent < u64::MAX
    }

    pub open spec fn close_spec(self) -> SettingsUiView {
        SettingsUiView {
            open: false,
            intent: (self.intent + 1) as u64,
            displayed_generation: None,
            ..self
        }
    }

    pub open spec fn request_open_spec(self, window_exists: bool, already_visible: bool) -> (
        SettingsUiView,
        Option<u64>,
    ) {
        if self.stopped {
            (self, None)
        } else {
            let s1 = SettingsUiView { intent: (self.intent + 1) as u64, ..self };
            let s2 = if !window_exists || !already_visible || self.displayed_generation is None {
                SettingsUiView {
                    generation: (self.generation + 1) as u64,
                    displayed_generation: None,
                    ..s1
                }
            } else {
                s1
            };
            let s3 = SettingsUiView { open: true, ..s2 };
            if window_exists || self.creating {
                (s3, None)
            } else {
                let t = (self.token + 1) as u64;
                (SettingsUiView { token: t, creating: true, ..s3 }, Some(t))
            }
        }
    }

    pub open spec fn may_show_spec(self, intent: u64) -> bool {
        !self.stopped && self.open && !self.creating && intent == self.intent
    }

    pub open spec fn export_spec(self, reflow: bool) -> Option<(u64, u64)> {
        if !self.stopped && !self.creating && !reflow && self.displayed_generation == Some(
            self.generation,
        ) {
            Some((self.token, self.generation))
        } else {
            None
        }
    }
}

impl SettingsUi {
    pub fn new() -> (ui: Self)
        ensures
            ui@ == (SettingsUiView {
                token: 0,
                creating: false,
                open: false,
                generation: 0,
                intent: 0,
                displayed_generation: None,
                stopped: false,
            }),
    {
        SettingsUi {
            token: 0,
            creating: false,
            open: false,
            generation: 0,
            intent: 0,
            displayed_generation: None,
            stopped: false,
        }
    }

    /// Returns the construction token when a window must be built.
    pub fn request_open(&mut self, window_exists: bool, already_visible: bool) -> (r: Option<u64>)
        requires
            old(self)@.fresh(),
        ensures
            (final(self)@, r) == old(self)@.request_open_spec(window_exists, already_visible),
    {
        if self.stopped {
            return None;
        }
        self.intent += 1;
        if !window_exists || !already_visible || self.displayed_generation.is_none() {
            self.generation += 1;
            self.displayed_generation = None;
        }
        self.open = true;
        if window_exists || self.creating {
            return None;
        }
        self.token += 1;
        self.creating = true;
        Some(self.token)
    }

    pub fn close(&mut self)
        requires
            old(self)@.intent < u64::MAX,
        ensures
            final(self)@ == old(self)@.close_spec(),
    {
        self.open = false;
        self.intent += 1;
        self.displayed_generation = None;
    }

    pub fn created(&mut self, token: u64) -> (r: bool)
        ensures
            r == (!old(self)@.stopped && token == old(self)@.token),
            final(self)@ == if r {
                SettingsUiView { creating: false, ..old(self)@ }
            } else {
                old(self)@
            },
    {
        if self.stopped || token != self.token {
            return false;
        }
        self.creating = false;
        true
    }

    pub fn may_show(&self, intent: u64) -> (r: bool)
        ensures
            r == self@.may_show_spec(intent),
    {
        !self.stopped && self.open && !self.creating && intent == self.intent
    }

    /// Called only after the native window has shown or finished a visible reflow.
    pub fn presented(&mut self, intent: u64) -> (r: bool)
        ensures
            r == (!old(self)@.stopped && !old(self)@.creating && intent == old(self)@.intent),
            final(self)@ == if r {
                SettingsUiView {
                    open: false,
                    displayed_generation: Some(old(self)@.generation),
                    ..old(self)@
                }
            } else {
                old(self)@
            },
    {
        if self.stopped || self.creating || intent != self.intent {
            return false;
        }
        self.open = false;
        self.displayed_generation = Some(self.generation);
        true
    }

    /// The displayed session as `(token, generation)`, while it is settled.
    pub fn export_session(&self, reflow: bool) -> (r: Option<(u64, u64)>)
        ensures
            r == self@.export_spec(reflow),
    {
        let displayed = match self.displayed_generation {
            Some(g) => g == self.generation,
            None => false,
        };
        if !self.stopped && !self.creating && !reflow && displayed {
            Some((self.token, self.generation))
        } else {
            None
        }
    }

    pub fn destroyed(&mut self, token: u64) -> (r: bool)
        requires
            old(self)@.intent < u64::MAX,
        ensures
            r == (!old(self)@.stopped && token == old(self)@.token),
            final(self)@ == if r {
                SettingsUiView { creating: false, ..old(self)@ }.close_spec()
            } else {
                old(self)@
            },
    {
        if self.stopped || token != self.token {
            return false;
        }
        self.creating = false;
        self.close();
        true
    }

    pub fn stop(&mut self)
        requires
            old(self)@.intent < u64::MAX,
            old(self)@.token < u64::MAX,
        ensures
            final(self)@ == (SettingsUiView {
                stopped: true,
                token: (old(self)@.token + 1) as u64,
                ..old(self)@.close_spec()
            }),
    {
        self.stopped = true;
        self.close();
        self.token += 1;
    }
}

#[derive(Clone, Copy, Debug, PartialEq, Eq, Structural)]
pub struct Ticket {
    pub token: u64,
    pub generation: u64,
    pub presentation: u64,
}

#[derive(Default)]
pub struct PresentationUi {
    pub revision: u64,
    pub stopped: bool,
    pub presentation: Option<u64>,
    pub token: Option<u64>,
    pub creating: bool,
    pub shown: bool,
    pub failed: bool,
    generation: u64,
    next_token: u64,
    ready: Option<u64>,
    dismissed: Option<u64>,
}

pub struct PresentationUiView {
    pub revision: u64,
    pub stopped: bool,
    pub presentation: Option<u64>,
    pub token: Option<u64>,
    pub creating: bool,
    pub shown: bool,
    pub failed: bool,
    pub generation: u64,
    pub next_token: u64,
    pub ready: Option<u64>,
    pub dismissed: Option<u64>,
}

impl View for PresentationUi {
    type V = PresentationUiView;

    closed spec fn view(&self) -> PresentationUiView {
        PresentationUiView {
            revision: self.revision,
            stopped: self.stopped,
            presentation: self.presentation,
            token: self.token,
            creating: self.creating,
            shown: self.shown,
            failed: self.failed,
            generation: self.generation,
            next_token: self.next_token,
            ready: self.ready,
            dismissed: self.dismissed,
        }
    }
}

impl PresentationUiView {
    pub open spec fn update_spec(self, revision: u64, presentation: Option<u64>, stopped: bool) -> (
        PresentationUiView,
        bool,
    ) {
        if self.stopped || revision < self.revision {
            (self, false)
        } else {
            let s1 = PresentationUiView { revision, ..self };
            let s2 = if stopped {
                PresentationUiView { stopped: true, token: None, creating: false, ..s1 }
            } else {
                s1
            };
            let p = if stopped {
                None
            } else {
                presentation
            };
            if self.presentation != p || stopped {
                (
                    PresentationUiView {
                        presentation: p,
                        generation: (self.generation + 1) as u64,
                        ready: None,
                        shown: false,
                        failed: false,
                        dismissed: None,
                        ..s2
                    },
                    true,
                )
            } else {
                (s2, true)
            }
        }
    }

    /// The identity that every callback from the current window must carry.
    pub open spec fn ticket_spec(self) -> Option<Ticket> {
        if self.stopped || self.failed || self.dismissed == self.presentation || self.token is None
            || self.presentation is None {
            None
        } else {
            Some(
                Ticket {
                    token: self.token->0,
                    generation: self.generation,
                    presentation: self.presentation->0,
                },
            )
        }
    }

    pub open spec fn can_show_spec(self, ticket: Ticket) -> bool {
        self.ticket_spec() == Some(ticket) && !self.creating && !self.shown && self.ready == Some(
            ticket.presentation,
        )
    }
}

impl PresentationUi {
    pub fn new() -> (ui: Self)
        ensures
            ui@ == (PresentationUiView {
                revision: 0,
                stopped: false,
                presentation: None,
                token: None,
                creating: false,
                shown: false,
                failed: false,
                generation: 0,
                next_token: 0,
                ready: None,
                dismissed: None,
            }),
    {
        PresentationUi {
            revision: 0,
            stopped: false,
            presentation: None,
            token: None,
            creating: false,
            shown: false,
            failed: false,
            generation: 0,
            next_token: 0,
            ready: None,
            dismissed: None,
        }
    }

    /// Accept a snapshot unless it is older than the last one or the UI stopped.
    pub fn update(&mut self, revision: u64, presentation: Option<u64>, stopped: bool) -> (r: bool)
        requires
            old(self)@.generation < u64::MAX,
        ensures
            (final(self)@, r) == old(self)@.update_spec(revision, presentation, stopped),
    {
        if self.stopped || revision < self.revision {
            return false;
        }
        self.revision = revision;
        if stopped {
            self.stopped = true;
            self.token = None;
            self.creating = false;
        }
        let presentation = if stopped {
            None
        } else {
            presentation
        };
        if self.presentation != presentation || stopped {
            self.presentation = presentation;
            self.generation += 1;
            self.ready = None;
            self.shown = false;
            self.failed = false;
            self.dismissed = None;
        }
        true
    }

    /// A fresh construction token, unless a window exists or the last one failed.
    pub fn begin_create(&mut self) -> (r: Option<u64>)
        ensures
            ({
                let s = old(self)@;
                if s.stopped || s.presentation is None || s.token is Some || s.failed || s.next_token
                    + 1 > MAX_SAFE {
                    r is None && final(self)@ == s
                } else {
                    let t = (s.next_token + 1) as u64;
                    r == Some(t) && final(self)@ == PresentationUiView {
                        next_token: t,
                        token: Some(t),
                        creating: true,
                        ..s
                    }
                }
            }),
    {
        if self.stopped || self.presentation.is_none() || self.token.is_some() || self.failed {
            return None;
        }
        if self.next_token >= MAX_SAFE {
            return None;
        }
        self.next_token = self.next_token + 1;
        self.token = Some(self.next_token);
        self.creating = true;
        self.token
    }

    pub fn created(&mut self, token: u64) -> (r: bool)
        ensures
            r == (!old(self)@.stopped && old(self)@.token == Some(token)),
            final(self)@ == if r {
                PresentationUiView { creating: false, ..old(self)@ }
            } else {
                old(self)@
            },
    {
        if self.stopped || self.token != Some(token) {
            return false;
        }
        self.creating = false;
        true
    }

    pub fn ticket(&self) -> (r: Option<Ticket>)
        ensures
            r == self@.ticket_spec(),
    {
        if self.stopped || self.failed || self.dismissed == self.presentation {
            return None;
        }
        let token = match self.token {
            Some(t) => t,
            None => {
                return None;
            },
        };
        let presentation = match self.presentation {
            Some(p) => p,
            None => {
                return None;
            },
        };
        Some(Ticket { token, generation: self.generation, presentation })
    }

    pub fn accepts(&self, ticket: Ticket) -> (r: bool)
        ensures
            r == (self@.ticket_spec() == Some(ticket)),
    {
        match self.ticket() {
            Some(t) => t == ticket,
            None => false,
        }
    }

    /// The page of the current window reported readiness for `presentation`.
    pub fn ready(&mut self, token: u64, presentation: u64) -> (r: bool)
        ensures
            r == (old(self)@.ticket_spec() matches Some(t) && t.token == token && t.presentation
                == presentation),
            final(self)@ == if r {
                PresentationUiView { ready: Some(presentation), ..old(self)@ }
            } else {
                old(self)@
            },
    {
        let ok = match self.ticket() {
            Some(t) => t.token == token && t.presentation == presentation,
            None => false,
        };
        if !ok {
            return false;
        }
        self.ready = Some(presentation);
        true
    }

    pub fn can_show(&self, ticket: Ticket) -> (r: bool)
        ensures
            r == self@.can_show_spec(ticket),
    {
        self.accepts(ticket) && !self.creating && !self.shown && self.ready == Some(
            ticket.presentation,
        )
    }

    pub fn finish_show(&mut self, ticket: Ticket, succeeded: bool)
        ensures
            final(self)@ == if old(self)@.ticket_spec() == Some(ticket) {
                PresentationUiView { shown: succeeded, failed: !succeeded, ..old(self)@ }
            } else {
                old(self)@
            },
    {
        if !self.accepts(ticket) {
            return;
        }
        self.shown = succeeded;
        self.failed = !succeeded;
    }

    /// Close the current presentation until a different one arrives.
    pub fn dismiss(&mut self) -> (r: Option<u64>)
        requires
            old(self)@.generation < u64::MAX,
        ensures
            r == old(self)@.presentation,
            final(self)@ == match old(self)@.presentation {
                Some(id) => PresentationUiView {
                    dismissed: Some(id),
                    ready: None,
                    shown: false,
                    generation: (old(self)@.generation + 1) as u64,
                    ..old(self)@
                },
                None => old(self)@,
            },
    {
        let id = match self.presentation {
            Some(id) => id,
            None => {
                return None;
            },
        };
        self.dismissed = Some(id);
        self.ready = None;
        self.shown = false;
        self.generation += 1;
        Some(id)
    }

    /// The window built under `token` is gone; do not rebuild it by itself.
    pub fn destroyed(&mut self, token: u64)
        requires
            old(self)@.generation < u64::MAX,
        ensures
            final(self)@ == if old(self)@.token == Some(token) {
                PresentationUiView {
                    token: None,
                    creating: false,
                    shown: false,
                    ready: None,
                    failed: true,
                    generation: (old(self)@.generation + 1) as u64,
                    ..old(self)@
                }
            } else {
                old(self)@
            },
    {
        if self.token != Some(token) {
            return;
        }
        self.token = None;
        self.creating = false;
        self.shown = false;
        self.ready = None;
        self.failed = true;
        self.generation += 1;
    }

    /// The page reloaded: it must report readiness again before showing.
    pub fn reload(&mut self, token: u64)
        requires
            old(self)@.generation < u64::MAX,
        ensures
            final(self)@ == if old(self)@.token == Some(token) && !old(self)@.stopped {
                PresentationUiView {
                    ready: None,
                    shown: false,
                    generation: (old(self)@.generation + 1) as u64,
                    ..old(self)@
                }
            } else {
                old(self)@
            },
    {
        if self.token != Some(token) || self.stopped {
            return;
        }
        self.ready = None;
        self.shown = false;
        self.generation += 1;
    }
}

/// Stopping the settings window is final: no later open request builds or
/// shows it, and no backup session is offered again.
pub proof fn lemma_settings_stop_is_final(
    v: SettingsUiView,
    window_exists: bool,
    already_visible: bool,
    intent: u64,
    reflow: bool,
)
    requires
        v.stopped,
    ensures
        v.request_open_spec(window_exists, already_visible) == (v, None::<u64>),
        !v.may_show_spec(intent),
        v.export_spec(reflow) is None,
{
}

/// Stopping the reminder window is final, and a snapshot older than the last
/// accepted one is ignored: neither reopens, readies or shows a view.
pub proof fn lemma_presentation_ignores_stale_and_stopped(
    v: PresentationUiView,
    revision: u64,
    presentation: Option<u64>,
    stopped: bool,
    ticket: Ticket,
)
    ensures
        v.stopped || revision < v.revision ==> v.update_spec(revision, presentation, stopped) == (
            v,
            false,
        ),
        v.stopped ==> v.ticket_spec() is None && !v.can_show_spec(ticket),
        stopped && !v.stopped && revision >= v.revision ==> {
            let (w, accepted) = v.update_spec(revision, presentation, stopped);
            accepted && w.stopped && w.token is None && w.ticket_spec() is None
        },
{
}


/// A displayed session is always the current generation, and nothing is
/// displayed while a window is being built.
pub open spec fn settings_ok(v: SettingsUiView) -> bool {
    v.displayed_generation matches Some(g) ==> g == v.generation && !v.creating
}

/// Every operation of the settings window keeps `settings_ok`.
pub proof fn lemma_settings_ok_kept(
    v: SettingsUiView,
    window_exists: bool,
    already_visible: bool,
    token: u64,
    intent: u64,
)
    requires
        settings_ok(v),
    ensures
        settings_ok(v.request_open_spec(window_exists, already_visible).0),
        settings_ok(v.close_spec()),
        settings_ok(if !v.stopped && token == v.token {
            SettingsUiView { creating: false, ..v }
        } else {
            v
        }),
        settings_ok(if !v.stopped && !v.creating && intent == v.intent {
            SettingsUiView { open: false, displayed_generation: Some(v.generation), ..v }
        } else {
            v
        }),
        settings_ok(if !v.stopped && token == v.token {
            SettingsUiView { creating: false, ..v }.close_spec()
        } else {
            v
        }),
        settings_ok(SettingsUiView { stopped: true, token: (v.token + 1) as u64, ..v.close_spec() }),
{
}

/// Opening the settings window starts a new session exactly when the window
/// is missing or hidden or no settled session could be exported just
/// before; reopening a visible, displayed window keeps its session, which
/// can still be exported afterwards.
pub proof fn lemma_settings_open_then_export(
    v: SettingsUiView,
    window_exists: bool,
    already_visible: bool,
)
    requires
        settings_ok(v),
        !v.stopped,
        v.fresh(),
    ensures
        ({
            let (w, r) = v.request_open_spec(window_exists, already_visible);
            let fresh_session = !window_exists || !already_visible || v.export_spec(false) is None;
            &&& w.intent == v.intent + 1
            &&& w.open
            &&& w.generation == v.generation + (if fresh_session { 1int } else { 0int })
            &&& fresh_session ==> w.export_spec(false) is None
            &&& !fresh_session ==> w.export_spec(false) == v.export_spec(false)
            &&& (if !window_exists && !v.creating {
                r == Some((v.token + 1) as u64) && w.token == v.token + 1 && w.creating
            } else {
                r is None && w.token == v.token
            })
        }),
{
}

/// Closing supersedes the current intent: nothing is open, no session is
/// exported, and the superseded intent can neither show nor be presented;
/// the window's token, generation and construction state stay.
pub proof fn lemma_settings_close_supersedes(v: SettingsUiView, reflow: bool)
    requires
        v.intent < u64::MAX,
    ensures
        ({
            let w = v.close_spec();
            &&& !w.open
            &&& w.intent == v.intent + 1
            &&& w.export_spec(reflow) is None
            &&& !w.may_show_spec(v.intent)
            &&& !(!w.stopped && !w.creating && v.intent == w.intent)
            &&& w.token == v.token && w.generation == v.generation && w.creating == v.creating
        }),
{
}


/// An update is accepted exactly when the window is not stopped and the
/// snapshot is not older than the last one; a refused update changes
/// nothing, an accepted one records the snapshot's revision, and an
/// accepted stop drops the window and its presentation for good: every later
/// update is refused and no construction begins.
pub proof fn lemma_presentation_update(
    v: PresentationUiView,
    revision: u64,
    presentation: Option<u64>,
    stopped: bool,
    later_revision: u64,
    later: Option<u64>,
    later_stopped: bool,
)
    ensures
        ({
            let (w, r) = v.update_spec(revision, presentation, stopped);
            &&& r == !(v.stopped || revision < v.revision)
            &&& !r ==> w == v
            &&& r ==> w.revision == revision
            &&& r && stopped ==> {
                &&& w.stopped && w.token is None && w.presentation is None && !w.creating
                &&& w.update_spec(later_revision, later, later_stopped) == (w, false)
                &&& w.ticket_spec() is None
            }
        }),
{
}

} // verus!
