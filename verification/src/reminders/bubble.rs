//! Turns the current authoritative snapshots into the one bubble's presentation.
use crate::focus::model::{Data as FocusData, Feedback, Outcome, Session};
use crate::focus::service::Change as FocusChange;
use crate::reminders::model::{
    hours_contain, opt_view, Code, Command, Error, Id, Mode, Presentation, PresentationView, Time,
};
use crate::reminders::presentation_policy::{
    dismiss_spec, retain_spec, update_spec, Coordinator, CoordinatorView, FocusState, Input,
    Source,
};
use crate::reminders::service::{Snapshot, SnapshotView};
use crate::reminders::store::SaveStatus;
use vstd::prelude::*;

verus! {

#[derive(Clone, Copy, PartialEq, Eq)]
pub struct Signature {
    pub revision: u64,
    pub selected: Option<(u64, Source)>,
    pub choices_open: Option<u64>,
    pub stopped: bool,
}

#[derive(Default)]
pub struct Bubble {
    pub policy: Coordinator,
    pub selected: Option<(u64, Source)>,
    choices_open: Option<u64>,
    signature: Option<Signature>,
    pub revision: u64,
}

pub struct BubbleView {
    pub policy: CoordinatorView,
    pub selected: Option<(u64, Source)>,
    pub choices_open: Option<u64>,
    pub signature: Option<Signature>,
    pub revision: u64,
}

impl View for Bubble {
    type V = BubbleView;

    closed spec fn view(&self) -> BubbleView {
        BubbleView {
            policy: self.policy@,
            selected: self.selected,
            choices_open: self.choices_open,
            signature: self.signature,
            revision: self.revision,
        }
    }
}

/// A live natural completion with pending feedback, as its snapshot revision.
pub open spec fn natural_spec(focus: FocusChange) -> Option<u64> {
    if !focus.snapshot.stopped && focus.snapshot.error is None && focus.error is None && (
    focus.snapshot.data matches Some(d) && d.session matches Session::Finished {
        outcome: Outcome::Natural,
        feedback: Feedback::Pending,
        ..
    }) {
        Some(focus.snapshot.revision)
    } else {
        None
    }
}

pub fn natural_revision(focus: &FocusChange) -> (r: Option<u64>)
    ensures
        r == natural_spec(*focus),
{
    let finished = match focus.snapshot.data {
        Some(d) => match d.session {
            Session::Finished { outcome: Outcome::Natural, feedback: Feedback::Pending, .. } => true,
            _ => false,
        },
        None => false,
    };
    if !focus.snapshot.stopped && focus.snapshot.error.is_none() && focus.error.is_none()
        && finished {
        Some(focus.snapshot.revision)
    } else {
        None
    }
}

/// A committed running session silences reminders even across a transient
/// failed write.
pub open spec fn focus_state_spec(focus: Option<FocusChange>) -> FocusState {
    match focus {
        Some(f) => if !f.snapshot.stopped && f.snapshot.error is None {
            match f.snapshot.data {
                Some(d) => if d.session is Running {
                    FocusState::Running
                } else if f.error is None {
                    FocusState::Available
                } else {
                    FocusState::Unavailable
                },
                None => FocusState::Unavailable,
            }
        } else {
            FocusState::Unavailable
        },
        None => FocusState::Unavailable,
    }
}

pub open spec fn automatic_allowed_spec(r: SnapshotView, t: Time) -> bool {
    &&& !r.stopped
    &&& !r.paused
    &&& r.quiet is None
    &&& r.runtime_error is None
    &&& r.persistence.status != SaveStatus::Loading
    &&& r.persistence.status != SaveStatus::ReadOnly
    &&& hours_contain(r.settings.active_hours, t.local_minute as int)
}

pub open spec fn input_spec(r: SnapshotView, focus: Option<FocusChange>, t: Time) -> Input {
    Input {
        reminder: if r.stopped {
            None
        } else {
            match r.presentation {
                Some(p) => Some((p.id, p.mode)),
                None => None,
            }
        },
        focus: focus_state_spec(focus),
        automatic_allowed: automatic_allowed_spec(r, t),
        now_ms: t.monotonic_ms,
        utc_ms: t.utc_ms,
    }
}

pub open spec fn natural_of(focus: Option<FocusChange>) -> Option<u64> {
    match focus {
        Some(f) => natural_spec(f),
        None => None,
    }
}

pub open spec fn selected_id(s: Option<(u64, Source)>) -> Option<u64> {
    match s {
        Some((id, _)) => Some(id),
        None => None,
    }
}

pub open spec fn update_bubble_spec(
    b: BubbleView,
    r: SnapshotView,
    focus: Option<FocusChange>,
    completion: Option<u64>,
    t: Time,
) -> (BubbleView, bool) {
    let natural = natural_of(focus);
    let policy0 = retain_spec(b.policy, natural);
    let completion = match completion {
        Some(c) if Some(c) == natural => Some(c),
        _ => None,
    };
    let (policy, selected) = update_spec(policy0, input_spec(r, focus, t), completion);
    let choices = if b.choices_open != selected_id(selected) {
        None
    } else {
        b.choices_open
    };
    let sig = Signature {
        revision: r.revision,
        selected,
        choices_open: choices,
        stopped: r.stopped,
    };
    let b1 = BubbleView { policy, selected, choices_open: choices, ..b };
    if b.signature == Some(sig) {
        (b1, false)
    } else {
        (BubbleView { signature: Some(sig), revision: (b.revision + 1) as u64, ..b1 }, true)
    }
}

/// The selected automatic reminder's kinds, when `presentation_id` is the
/// current selection and the prompt has anything to list.
pub open spec fn prompt_spec(b: BubbleView, r: SnapshotView, presentation_id: u64) -> Option<
    Seq<Id>,
> {
    match (b.selected, r.presentation) {
        (Some((id, Source::Reminder(source))), Some(p)) => if id == presentation_id && source
            == p.id && p.mode == Mode::Automatic && p.items.len() > 0 {
            Some(p.items)
        } else {
            None
        },
        _ => None,
    }
}

fn same_selection(a: Option<(u64, Source)>, b: Option<(u64, Source)>) -> (r: bool)
    ensures
        r == (a == b),
{
    match (a, b) {
        (None, None) => true,
        (Some((x, Source::Reminder(s))), Some((y, Source::Reminder(t)))) => x == y && s == t,
        (Some((x, Source::Focus(s))), Some((y, Source::Focus(t)))) => x == y && s == t,
        _ => false,
    }
}

fn same_signature(a: Option<Signature>, b: Signature) -> (r: bool)
    ensures
        r == (a == Some(b)),
{
    match a {
        Some(a) => a.revision == b.revision && same_selection(a.selected, b.selected)
            && a.choices_open == b.choices_open && a.stopped == b.stopped,
        None => false,
    }
}

fn copy_items(v: &Vec<Id>) -> (r: Vec<Id>)
    ensures
        r@ == v@,
{
    let mut out: Vec<Id> = Vec::new();
    let mut i: usize = 0;
    while i < v.len()
        invariant
            i <= v.len(),
            out@ =~= v@.take(i as int),
        decreases v.len() - i,
    {
        out.push(v[i]);
        i += 1;
    }
    assert(out@ =~= v@);
    out
}

impl Bubble {
    pub fn new() -> (b: Self)
        ensures
            b@ == (BubbleView {
                policy: CoordinatorView {
                    source: None,
                    id: 0,
                    suppressed_through: 0,
                    completion_seen: 0,
                    completion: None,
                    was_running: false,
                    response_seen: 0,
                    dismissed: None,
                },
                selected: None,
                choices_open: None,
                signature: None,
                revision: 0,
            }),
    {
        Bubble {
            policy: Coordinator::new(),
            selected: None,
            choices_open: None,
            signature: None,
            revision: 0,
        }
    }

    /// Rows the bubble shows: the selected reminder presentation's kinds.
    pub fn visible_item_count(&self, raw: &Snapshot) -> (n: usize)
        ensures
            n == match (self@.selected, raw@.presentation) {
                (Some((_, Source::Reminder(source))), Some(p)) => if p.id == source {
                    p.items.len()
                } else {
                    0
                },
                _ => 0,
            },
    {
        let source = match self.selected {
            Some((_, Source::Reminder(source))) => source,
            _ => {
                return 0;
            },
        };
        match &raw.presentation {
            Some(p) => if p.id == source {
                p.items.len()
            } else {
                0
            },
            None => 0,
        }
    }

    pub fn automatic_prompt(&self, raw: &Snapshot, presentation_id: u64) -> (r: Option<Vec<Id>>)
        ensures
            match r {
                Some(v) => prompt_spec(self@, raw@, presentation_id) == Some(v@),
                None => prompt_spec(self@, raw@, presentation_id) is None,
            },
    {
        let (id, source) = match self.selected {
            Some((id, Source::Reminder(source))) => (id, source),
            _ => {
                return None;
            },
        };
        match &raw.presentation {
            Some(p) => if id == presentation_id && source == p.id && p.mode == Mode::Automatic
                && p.items.len() > 0 {
                Some(copy_items(&p.items))
            } else {
                None
            },
            None => None,
        }
    }

    /// Open the cup choices of the selected automatic prompt.
    pub fn open_choices(&mut self, raw: &Snapshot, presentation_id: u64) -> (r: bool)
        ensures
            r == (prompt_spec(old(self)@, raw@, presentation_id) is Some),
            final(self)@ == if r {
                BubbleView { choices_open: Some(presentation_id), ..old(self)@ }
            } else {
                old(self)@
            },
    {
        if self.automatic_prompt(raw, presentation_id).is_none() {
            return false;
        }
        self.choices_open = Some(presentation_id);
        true
    }

    pub fn choices_open_for(&self, presentation_id: u64) -> (r: bool)
        ensures
            r == (self@.choices_open == Some(presentation_id)),
    {
        self.choices_open == Some(presentation_id)
    }

    /// The presentation the bubble window shows: not an automatic prompt
    /// whose choices are closed (the character shows that one).
    pub fn window_presentation(&self, raw: &Snapshot) -> (r: Option<u64>)
        ensures
            r == match self@.selected {
                Some((id, _)) => if prompt_spec(self@, raw@, id) is None || self@.choices_open
                    == Some(id) {
                    Some(id)
                } else {
                    None
                },
                None => None,
            },
    {
        let id = match self.selected {
            Some((id, _)) => id,
            None => {
                return None;
            },
        };
        if self.automatic_prompt(raw, id).is_none() || self.choices_open_for(id) {
            Some(id)
        } else {
            None
        }
    }

    /// Reselect from the current snapshots; returns whether anything visible changed.
    pub fn update(
        &mut self,
        reminder: &Snapshot,
        focus: Option<&FocusChange>,
        completion: Option<u64>,
        time: Time,
    ) -> (r: bool)
        requires
            old(self)@.revision < u64::MAX,
        ensures
            (final(self)@, r) == update_bubble_spec(
                old(self)@,
                reminder@,
                match focus {
                    Some(f) => Some(*f),
                    None => None,
                },
                completion,
                time,
            ),
    {
        let focus_state = match focus {
            Some(f) => if !f.snapshot.stopped && f.snapshot.error.is_none() {
                match f.snapshot.data {
                    Some(d) => match d.session {
                        Session::Running { .. } => FocusState::Running,
                        _ => if f.error.is_none() {
                            FocusState::Available
                        } else {
                            FocusState::Unavailable
                        },
                    },
                    None => FocusState::Unavailable,
                }
            } else {
                FocusState::Unavailable
            },
            None => FocusState::Unavailable,
        };
        let natural = match focus {
            Some(f) => natural_revision(f),
            None => None,
        };
        self.policy.retain_completion(natural);
        let completion = match completion {
            Some(c) => if Some(c) == natural {
                Some(c)
            } else {
                None
            },
            None => None,
        };
        let automatic_allowed = !reminder.stopped && !reminder.paused && reminder.quiet.is_none()
            && reminder.runtime_error.is_none() && reminder.persistence.status
            != SaveStatus::Loading && reminder.persistence.status != SaveStatus::ReadOnly
            && reminder.settings.active_hours.contains(time.local_minute);
        let reminder_input = if reminder.stopped {
            None
        } else {
            match &reminder.presentation {
                Some(p) => Some((p.id, p.mode)),
                None => None,
            }
        };
        let input = Input {
            reminder: reminder_input,
            focus: focus_state,
            automatic_allowed,
            now_ms: time.monotonic_ms,
            utc_ms: time.utc_ms,
        };
        self.selected = self.policy.update(input, completion);
        let selected_id = match self.selected {
            Some((id, _)) => Some(id),
            None => None,
        };
        if self.choices_open != selected_id {
            self.choices_open = None;
        }
        let signature = Signature {
            revision: reminder.revision,
            selected: self.selected,
            choices_open: self.choices_open,
            stopped: reminder.stopped,
        };
        if same_signature(self.signature, signature) {
            return false;
        }
        self.signature = Some(signature);
        self.revision = self.revision + 1;
        true
    }

    /// The reminder snapshot as the bubble shows it: this bubble's revision
    /// and the selected presentation under the selection's identifier (a
    /// focus completion becomes an empty automatic presentation).
    pub fn projected(&self, raw: &Snapshot) -> (r: Snapshot)
        ensures
            r@ == (SnapshotView {
                revision: self@.revision,
                presentation: match self@.selected {
                    Some((id, Source::Reminder(source))) => match raw@.presentation {
                        Some(p) => if p.id == source {
                            Some(PresentationView { id, ..p })
                        } else {
                            None
                        },
                        None => None,
                    },
                    Some((id, Source::Focus(_))) => Some(
                        PresentationView {
                            id,
                            mode: Mode::Automatic,
                            items: Seq::empty(),
                            closes_at: None,
                            monotonic_deadline: None,
                        },
                    ),
                    None => None,
                },
                ..raw@
            }),
    {
        let mut projected = raw.duplicate();
        projected.revision = self.revision;
        projected.presentation = match self.selected {
            Some((id, Source::Reminder(source))) => match &raw.presentation {
                Some(p) => if p.id == source {
                    Some(
                        Presentation {
                            id,
                            mode: p.mode,
                            items: copy_items(&p.items),
                            closes_at: p.closes_at,
                            monotonic_deadline: p.monotonic_deadline,
                        },
                    )
                } else {
                    None
                },
                None => None,
            },
            Some((id, Source::Focus(_))) => Some(
                Presentation {
                    id,
                    mode: Mode::Automatic,
                    items: Vec::new(),
                    closes_at: None,
                    monotonic_deadline: None,
                },
            ),
            None => None,
        };
        proof {
            if let Some((_, Source::Focus(_))) = self.selected {
                assert(projected.presentation->0.items@ =~= Seq::<Id>::empty());
            }
        }
        projected
    }

    /// Route a bubble command: a dismiss must name the current selection and
    /// reaches the reminder engine only for a reminder source.
    pub fn command(&mut self, command: Command) -> (r: Result<Option<Command>, Error>)
        ensures
            match command {
                Command::Dismiss { presentation_id } => match old(self)@.selected {
                    Some((id, source)) if id == presentation_id => final(self)@ == BubbleView {
                        policy: crate::reminders::presentation_policy::dismiss_spec(
                            old(self)@.policy,
                        ),
                        choices_open: None,
                        ..old(self)@
                    } && r == Ok::<Option<Command>, Error>(
                        match source {
                            Source::Reminder(p) => Some(Command::Dismiss { presentation_id: p }),
                            Source::Focus(_) => None,
                        },
                    ),
                    _ => final(self)@ == old(self)@ && r == Err::<Option<Command>, Error>(
                        Error { code: Code::StalePresentation },
                    ),
                },
                Command::ShowPending {  } => final(self)@ == BubbleView {
                    policy: crate::reminders::presentation_policy::dismiss_spec(old(self)@.policy),
                    choices_open: None,
                    ..old(self)@
                } && r == Ok::<Option<Command>, Error>(Some(command)),
                _ => final(self)@ == old(self)@ && r == Ok::<Option<Command>, Error>(
                    Some(command),
                ),
            },
    {
        match command {
            Command::Dismiss { presentation_id } => {
                let (id, source) = match self.selected {
                    Some(s) => s,
                    None => {
                        return Err(Error::new(Code::StalePresentation));
                    },
                };
                if id != presentation_id {
                    return Err(Error::new(Code::StalePresentation));
                }
                self.policy.dismiss();
                self.choices_open = None;
                Ok(
                    match source {
                        Source::Reminder(presentation_id) => Some(
                            Command::Dismiss { presentation_id },
                        ),
                        Source::Focus(_) => None,
                    },
                )
            },
            Command::ShowPending {  } => {
                self.policy.dismiss();
                self.choices_open = None;
                Ok(Some(command))
            },
            _ => Ok(Some(command)),
        }
    }
}


/// Open choices always belong to the current selection.
pub open spec fn choices_follow_selection(b: BubbleView) -> bool {
    b.choices_open matches Some(x) ==> selected_id(b.selected) == Some(x)
}

/// What one bubble update does to the published revision: it advances by one
/// exactly when the published tuple (snapshot revision, selection, open
/// choices, stopped) differs from the one published last (always on the
/// first update), and that tuple is then the one recorded. Open choices
/// follow the selection, and while the committed focus session runs neither
/// an automatic reminder nor a focus completion is selected.
pub proof fn lemma_bubble_update(
    b: BubbleView,
    r: SnapshotView,
    focus: Option<FocusChange>,
    completion: Option<u64>,
    t: Time,
)
    requires
        b.revision < u64::MAX,
    ensures
        ({
            let (b2, changed) = update_bubble_spec(b, r, focus, completion, t);
            let sig = Signature {
                revision: r.revision,
                selected: b2.selected,
                choices_open: b2.choices_open,
                stopped: r.stopped,
            };
            &&& b2.revision == b.revision + (if changed { 1int } else { 0int })
            &&& changed <==> b.signature != Some(sig)
            &&& b.signature is None ==> changed
            &&& b2.signature == Some(sig)
            &&& choices_follow_selection(b2)
            &&& focus_state_spec(focus) == FocusState::Running ==> match b2.selected {
                Some((_, Source::Reminder(id))) => input_spec(r, focus, t).reminder == Some(
                    (id, Mode::Manual),
                ),
                Some((_, Source::Focus(_))) => false,
                None => true,
            }
        }),
{
}

/// Only a running timer silences reminders. The focus state handed to the
/// policy is `Running` exactly when the committed focus snapshot is healthy
/// and its session runs; any other committed session (idle, paused,
/// interrupted or finished) with no error leaves focus available. So, with
/// focus in such a state, an allowed automatic reminder that is not yet
/// suppressed, not dismissed, and not competing with a focus completion or
/// with the end of a running session is selected, and the suppression mark
/// stays where it was.
pub proof fn lemma_only_running_focus_suppresses(
    b: BubbleView,
    r: SnapshotView,
    f: FocusChange,
    d: FocusData,
    p: PresentationView,
    t: Time,
)
    requires
        b.revision < u64::MAX,
    ensures
        focus_state_spec(Some(f)) == FocusState::Running <==> (!f.snapshot.stopped
            && f.snapshot.error is None && (f.snapshot.data matches Some(x) && x.session is Running)),
        !f.snapshot.stopped && f.snapshot.error is None && f.error is None && f.snapshot.data
            == Some(d) && !(d.session is Running) ==> focus_state_spec(Some(f))
            == FocusState::Available,
        !f.snapshot.stopped && f.snapshot.error is None && f.error is None && f.snapshot.data
            == Some(d) && !(d.session is Running) && !r.stopped && r.presentation == Some(p)
            && p.mode == Mode::Automatic && automatic_allowed_spec(r, t) && p.id
            > b.policy.suppressed_through && !b.policy.was_running && b.policy.completion is None
            && b.policy.dismissed != Some(Source::Reminder(p.id)) ==> {
            let b2 = update_bubble_spec(b, r, Some(f), None, t).0;
            &&& b2.selected matches Some((_, Source::Reminder(x))) && x == p.id
            &&& b2.policy.suppressed_through == b.policy.suppressed_through
        },
{
}

/// Opening choices and handling a command keep open choices on the current
/// selection.
pub proof fn lemma_choices_follow_selection(b: BubbleView, r: SnapshotView, presentation_id: u64)
    requires
        choices_follow_selection(b),
    ensures
        prompt_spec(b, r, presentation_id) is Some ==> choices_follow_selection(
            BubbleView { choices_open: Some(presentation_id), ..b },
        ),
        choices_follow_selection(BubbleView { policy: dismiss_spec(b.policy), choices_open: None, ..b }),
{
}

} // verus!
