//! One gate serializes the export dialog, the import dialog and import
//! preparation. Cancel handles of open dialogs are returned to the caller,
//! which tells the waiting command that its dialog became stale.
use crate::data_directory::backup_codec::DecodedBackup;
use crate::data_directory::records::{Fault, ImportFiles};
use crate::import_session::{ImportConfirmation, ImportPreview, ImportSession, ImportSessionView};
use vstd::prelude::*;

verus! {

#[derive(Clone, Copy, Debug, PartialEq, Eq)]
pub struct Ticket {
    pub session: (u64, u64),
    pub sequence: u64,
}

fn same_ticket(a: Ticket, b: Ticket) -> (r: bool)
    ensures
        r == (a == b),
{
    a.session.0 == b.session.0 && a.session.1 == b.session.1 && a.sequence == b.sequence
}

fn same_session(a: (u64, u64), b: (u64, u64)) -> (r: bool)
    ensures
        r == (a == b),
{
    a.0 == b.0 && a.1 == b.1
}

#[derive(Clone, Copy, Debug, PartialEq, Eq, Structural)]
pub enum Phase {
    Dialog,
    Saving,
}

pub struct Active<E> {
    pub ticket: Ticket,
    pub phase: Phase,
    pub dialog_returned: bool,
    pub stale: bool,
    pub cancel: Option<E>,
}

#[derive(Clone, Copy, Debug, PartialEq, Eq, Structural)]
pub enum ImportPhase {
    Dialog,
    Reading,
    Preparing,
}

pub struct ImportActive<I> {
    pub ticket: u64,
    pub session: (u64, u64),
    pub phase: ImportPhase,
    pub dialog_returned: bool,
    pub stale: bool,
    pub cancel: Option<I>,
}

pub struct LocalDataGate<E, I> {
    next: u64,
    active: Option<Active<E>>,
    import_active: Option<ImportActive<I>>,
    import_session: ImportSession,
}

pub struct GateView<E, I> {
    pub next: u64,
    pub active: Option<Active<E>>,
    pub import_active: Option<ImportActive<I>>,
    pub session: ImportSessionView,
}

impl<E, I> View for LocalDataGate<E, I> {
    type V = GateView<E, I>;

    closed spec fn view(&self) -> GateView<E, I> {
        (GateView {
            next: self.next,
            active: self.active,
            import_active: self.import_active,
            session: self.import_session@,
        })
    }
}

impl<E, I> GateView<E, I> {
    pub open spec fn busy(self) -> bool {
        self.active is Some || self.import_active is Some
    }

    /// One slot serves the export dialog, the import dialog and import
    /// preparation: never two operations at once.
    pub open spec fn exclusive(self) -> bool {
        !(self.active is Some && self.import_active is Some)
    }
}

/// Invalidation of one export lease: a dialog becomes stale and loses its
/// cancel handle (returned); a dialog that already returned is released.
pub open spec fn invalidate_export<E>(a: Option<Active<E>>) -> (Option<Active<E>>, Option<E>) {
    match a {
        Some(x) => if x.phase == Phase::Dialog {
            if x.dialog_returned {
                (None, x.cancel)
            } else {
                (Some(Active { stale: true, cancel: None, ..x }), x.cancel)
            }
        } else {
            (a, None)
        },
        None => (None, None),
    }
}

pub open spec fn invalidate_import<I>(a: Option<ImportActive<I>>) -> (Option<ImportActive<I>>, Option<I>) {
    match a {
        Some(x) => if x.phase == ImportPhase::Dialog {
            if x.dialog_returned {
                (None, x.cancel)
            } else {
                (Some(ImportActive { stale: true, cancel: None, ..x }), x.cancel)
            }
        } else if x.phase == ImportPhase::Reading {
            (None, None)
        } else {
            (a, None)
        },
        None => (None, None),
    }
}

/// The sequence after `n`, wrapping to zero.
pub open spec fn next_sequence(n: u64) -> u64 {
    if n == u64::MAX {
        0
    } else {
        (n + 1) as u64
    }
}

impl<E, I> Default for LocalDataGate<E, I> {
    fn default() -> (g: Self)
        ensures
            g@.next == 0,
            g@.active is None,
            g@.import_active is None,
            g@.session.selection is None,
            g@.exclusive(),
    {
        LocalDataGate::new()
    }
}

impl<E, I> LocalDataGate<E, I> {
    pub fn new() -> (g: Self)
        ensures
            g@.next == 0,
            g@.active is None,
            g@.import_active is None,
            g@.session.selection is None,
            g@.exclusive(),
    {
        LocalDataGate { next: 0, active: None, import_active: None, import_session: ImportSession::new() }
    }

    /// Reserve the backup slot for an export dialog of `session`.
    pub fn begin(&mut self, session: (u64, u64), cancel: E) -> (r: Result<Ticket, Fault>)
        ensures
            old(self)@.exclusive() ==> final(self)@.exclusive(),
            old(self)@.busy() ==> r == Err::<Ticket, Fault>(Fault::BackupBusy) && final(self)@
                == old(self)@,
            !old(self)@.busy() ==> {
                let t = Ticket { session, sequence: next_sequence(old(self)@.next) };
                r == Ok::<Ticket, Fault>(t) && final(self)@ == (GateView {
                    next: t.sequence,
                    active: Some(
                        Active {
                            ticket: t,
                            phase: Phase::Dialog,
                            dialog_returned: false,
                            stale: false,
                            cancel: Some(cancel),
                        },
                    ),
                    ..old(self)@
                })
            },
    {
        if self.active.is_some() || self.import_active.is_some() {
            return Err(Fault::BackupBusy);
        }
        self.next = if self.next == u64::MAX {
            0
        } else {
            self.next + 1
        };
        let ticket = Ticket { session, sequence: self.next };
        self.active = Some(
            Active {
                ticket,
                phase: Phase::Dialog,
                dialog_returned: false,
                stale: false,
                cancel: Some(cancel),
            },
        );
        Ok(ticket)
    }
}

impl<E, I> LocalDataGate<E, I> {
    /// The export dialog for `ticket` returned a choice; allow the write
    /// only while the settings session that opened it is still current.
    pub fn authorize(&mut self, ticket: Ticket, current: (u64, u64)) -> (r: Result<(), Fault>)
        ensures
            old(self)@.exclusive() ==> final(self)@.exclusive(),
            match old(self)@.active {
                Some(a) => if a.ticket != ticket || a.phase != Phase::Dialog || a.stale {
                    r == Err::<(), Fault>(Fault::BackupStale) && final(self)@ == old(self)@
                } else if ticket.session != current {
                    r == Err::<(), Fault>(Fault::BackupStale) && final(self)@ == (GateView {
                        active: None,
                        ..old(self)@
                    })
                } else {
                    r is Ok && final(self)@ == (GateView {
                        active: Some(Active { phase: Phase::Saving, cancel: None, ..a }),
                        ..old(self)@
                    })
                },
                None => r == Err::<(), Fault>(Fault::BackupStale) && final(self)@ == old(self)@,
            },
    {
        let a = match self.active.take() {
            Some(a) => a,
            None => {
                return Err(Fault::BackupStale);
            },
        };
        if !same_ticket(a.ticket, ticket) || a.phase != Phase::Dialog || a.stale {
            self.active = Some(a);
            return Err(Fault::BackupStale);
        }
        if !same_session(ticket.session, current) {
            return Err(Fault::BackupStale);
        }
        self.active = Some(Active { phase: Phase::Saving, cancel: None, ..a });
        Ok(())
    }

    /// The write for `ticket` finished: free the backup slot.
    pub fn complete(&mut self, ticket: Ticket)
        ensures
            old(self)@.exclusive() ==> final(self)@.exclusive(),
            final(self)@ == match old(self)@.active {
                Some(a) if a.ticket == ticket && a.phase == Phase::Saving => (GateView {
                    active: None,
                    ..old(self)@
                }),
                _ => old(self)@,
            },
    {
        let done = match &self.active {
            Some(a) => same_ticket(a.ticket, ticket) && a.phase == Phase::Saving,
            None => false,
        };
        if done {
            self.active = None;
        }
    }

    /// The native export dialog called back; a stale lease is released now.
    pub fn export_dialog_returned(&mut self, ticket: Ticket)
        ensures
            old(self)@.exclusive() ==> final(self)@.exclusive(),
            final(self)@ == match old(self)@.active {
                Some(a) if a.ticket == ticket && a.phase == Phase::Dialog => if a.stale {
                    (GateView { active: None, ..old(self)@ })
                } else {
                    (GateView {
                        active: Some(Active { dialog_returned: true, ..a }),
                        ..old(self)@
                    })
                },
                _ => old(self)@,
            },
    {
        let a = match self.active.take() {
            Some(a) => a,
            None => {
                return;
            },
        };
        if same_ticket(a.ticket, ticket) && a.phase == Phase::Dialog {
            if !a.stale {
                self.active = Some(Active { dialog_returned: true, ..a });
            }
        } else {
            self.active = Some(a);
        }
    }

    /// The settings session ended: every preview and open dialog becomes
    /// stale. Returns the cancel handles whose waiters must be told.
    pub fn invalidate(&mut self) -> (r: (Option<E>, Option<I>))
        ensures
            old(self)@.exclusive() ==> final(self)@.exclusive(),
            final(self)@.active == invalidate_export(old(self)@.active).0,
            final(self)@.import_active == invalidate_import(old(self)@.import_active).0,
            r.0 == invalidate_export(old(self)@.active).1,
            r.1 == invalidate_import(old(self)@.import_active).1,
            final(self)@.session == crate::import_session::no_selection(old(self)@.session),
            final(self)@.next == old(self)@.next,
    {
        self.import_session.invalidate();
        let import_cancel = match self.import_active.take() {
            Some(a) => {
                if a.phase == ImportPhase::Dialog {
                    if a.dialog_returned {
                        a.cancel
                    } else {
                        let cancel = a.cancel;
                        self.import_active = Some(
                            ImportActive {
                                ticket: a.ticket,
                                session: a.session,
                                phase: a.phase,
                                dialog_returned: a.dialog_returned,
                                stale: true,
                                cancel: None,
                            },
                        );
                        cancel
                    }
                } else if a.phase == ImportPhase::Reading {
                    None
                } else {
                    self.import_active = Some(a);
                    None
                }
            },
            None => None,
        };
        let export_cancel = match self.active.take() {
            Some(a) => {
                if a.phase == Phase::Dialog {
                    if a.dialog_returned {
                        a.cancel
                    } else {
                        let cancel = a.cancel;
                        self.active = Some(
                            Active {
                                ticket: a.ticket,
                                phase: a.phase,
                                dialog_returned: a.dialog_returned,
                                stale: true,
                                cancel: None,
                            },
                        );
                        cancel
                    }
                } else {
                    self.active = Some(a);
                    None
                }
            },
            None => None,
        };
        (export_cancel, import_cancel)
    }

    /// The settings window was destroyed: besides invalidating, release
    /// stale dialog leases, since a destroyed owner may never call back.
    pub fn invalidate_destroyed(&mut self) -> (r: (Option<E>, Option<I>))
        ensures
            old(self)@.exclusive() ==> final(self)@.exclusive(),
            r.0 == invalidate_export(old(self)@.active).1,
            r.1 == invalidate_import(old(self)@.import_active).1,
            final(self)@.active == match invalidate_export(old(self)@.active).0 {
                Some(a) if a.phase == Phase::Dialog && a.stale => None,
                other => other,
            },
            final(self)@.import_active == match invalidate_import(old(self)@.import_active).0 {
                Some(a) if a.phase == ImportPhase::Dialog && a.stale => None,
                other => other,
            },
            final(self)@.session == crate::import_session::no_selection(old(self)@.session),
    {
        let r = self.invalidate();
        let drop_import = match &self.import_active {
            Some(a) => a.phase == ImportPhase::Dialog && a.stale,
            None => false,
        };
        if drop_import {
            self.import_active = None;
        }
        let drop_export = match &self.active {
            Some(a) => a.phase == Phase::Dialog && a.stale,
            None => false,
        };
        if drop_export {
            self.active = None;
        }
        r
    }

    /// Reserve the backup slot for an import dialog; starts a new preview selection.
    pub fn begin_import(&mut self, session: (u64, u64), cancel: I) -> (r: Result<u64, Fault>)
        ensures
            old(self)@.exclusive() ==> final(self)@.exclusive(),
            old(self)@.busy() ==> r == Err::<u64, Fault>(Fault::BackupBusy) && final(self)@
                == old(self)@,
            !old(self)@.busy() && old(self)@.session.next == u64::MAX ==> r == Err::<u64, Fault>(
                Fault::BackupUnavailable,
            ) && final(self)@ == (GateView {
                session: crate::import_session::no_selection(old(self)@.session),
                ..old(self)@
            }),
            !old(self)@.busy() && old(self)@.session.next < u64::MAX ==> {
                let t = (old(self)@.session.next + 1) as u64;
                &&& r == Ok::<u64, Fault>(t)
                &&& final(self)@.session.next == t
                &&& final(self)@.session.selection == Some(
                    crate::import_session::SelectionView::Loading { session, ticket: t },
                )
                &&& final(self)@.active == old(self)@.active
                &&& final(self)@.next == old(self)@.next
                &&& final(self)@.import_active == Some(
                    ImportActive {
                        ticket: t,
                        session,
                        phase: ImportPhase::Dialog,
                        dialog_returned: false,
                        stale: false,
                        cancel: Some(cancel),
                    },
                )
            },
    {
        if self.active.is_some() || self.import_active.is_some() {
            return Err(Fault::BackupBusy);
        }
        let ticket = match self.import_session.begin_selection(session) {
            Ok(t) => t,
            Err(e) => {
                return Err(e);
            },
        };
        self.import_active = Some(
            ImportActive {
                ticket,
                session,
                phase: ImportPhase::Dialog,
                dialog_returned: false,
                stale: false,
                cancel: Some(cancel),
            },
        );
        Ok(ticket)
    }

    /// The import dialog for `ticket` returned; reading is allowed only for
    /// the session that opened it.
    pub fn authorize_import(&mut self, ticket: u64, current: (u64, u64)) -> (r: Result<(), Fault>)
        ensures
            old(self)@.exclusive() ==> final(self)@.exclusive(),
            match old(self)@.import_active {
                Some(a) => if a.ticket != ticket || a.phase != ImportPhase::Dialog || a.stale {
                    r == Err::<(), Fault>(Fault::BackupStale) && final(self)@ == old(self)@
                } else if a.session != current {
                    r == Err::<(), Fault>(Fault::BackupStale) && final(self)@ == (GateView {
                        import_active: None,
                        session: crate::import_session::no_selection(old(self)@.session),
                        ..old(self)@
                    })
                } else {
                    r is Ok && final(self)@ == (GateView {
                        import_active: Some(
                            ImportActive { phase: ImportPhase::Reading, cancel: None, ..a },
                        ),
                        ..old(self)@
                    })
                },
                None => r == Err::<(), Fault>(Fault::BackupStale) && final(self)@ == old(self)@,
            },
    {
        let a = match self.import_active.take() {
            Some(a) => a,
            None => {
                return Err(Fault::BackupStale);
            },
        };
        if a.ticket != ticket || a.phase != ImportPhase::Dialog || a.stale {
            self.import_active = Some(a);
            return Err(Fault::BackupStale);
        }
        if !same_session(a.session, current) {
            self.import_session.invalidate();
            return Err(Fault::BackupStale);
        }
        self.import_active = Some(ImportActive { phase: ImportPhase::Reading, cancel: None, ..a });
        Ok(())
    }

    /// Give up the import lease and preview (not while a preparation runs).
    /// Returns the cancel handle of a dialog that is still open.
    pub fn cancel_import(&mut self) -> (r: Result<Option<I>, Fault>)
        ensures
            old(self)@.exclusive() ==> final(self)@.exclusive(),
            match old(self)@.import_active {
                Some(a) if a.phase == ImportPhase::Preparing => r == Err::<Option<I>, Fault>(
                    Fault::BackupBusy,
                ) && final(self)@ == old(self)@,
                Some(a) => r == Ok::<Option<I>, Fault>(a.cancel) && final(self)@ == (GateView {
                    import_active: None,
                    session: crate::import_session::no_selection(old(self)@.session),
                    ..old(self)@
                }),
                None => r == Ok::<Option<I>, Fault>(None) && final(self)@ == (GateView {
                    session: crate::import_session::no_selection(old(self)@.session),
                    ..old(self)@
                }),
            },
    {
        let preparing = match &self.import_active {
            Some(a) => a.phase == ImportPhase::Preparing,
            None => false,
        };
        if preparing {
            return Err(Fault::BackupBusy);
        }
        let cancel = match self.import_active.take() {
            Some(a) => a.cancel,
            None => None,
        };
        self.import_session.cancel();
        Ok(cancel)
    }

    /// The import dialog for `ticket` returned `selected` while the settings
    /// session is `current` (or unavailable). Returns what to read, and a
    /// cancel handle whose waiter must be told.
    pub fn resolve_import_dialog<T>(
        &mut self,
        ticket: u64,
        current: Option<(u64, u64)>,
        selected: Option<T>,
    ) -> (r: (Result<Option<T>, Fault>, Option<I>))
        ensures
            old(self)@.exclusive() ==> final(self)@.exclusive(),
            match current {
                None => r.0 == Err::<Option<T>, Fault>(Fault::BackupStale) && match old(self)@.import_active {
                    Some(a) if a.ticket == ticket && a.phase == ImportPhase::Dialog => r.1
                        == a.cancel && final(self)@ == (GateView {
                        import_active: None,
                        session: crate::import_session::no_selection(old(self)@.session),
                        ..old(self)@
                    }),
                    _ => r.1 is None && final(self)@ == old(self)@,
                },
                Some(c) => r.1 is None && match old(self)@.import_active {
                    Some(a) if a.ticket == ticket && a.phase == ImportPhase::Dialog && !a.stale
                        && a.session == c => match selected {
                        Some(v) => r.0 == Ok::<Option<T>, Fault>(Some(v)) && final(self)@
                            == (GateView {
                            import_active: Some(
                                ImportActive { phase: ImportPhase::Reading, cancel: None, ..a },
                            ),
                            ..old(self)@
                        }),
                        None => r.0 == Ok::<Option<T>, Fault>(None) && final(self)@ == (GateView {
                            import_active: None,
                            session: crate::import_session::no_selection(old(self)@.session),
                            ..old(self)@
                        }),
                    },
                    Some(a) if a.ticket == ticket && a.phase == ImportPhase::Dialog && !a.stale =>
                    r.0 == Err::<Option<T>, Fault>(Fault::BackupStale) && final(self)@
                        == (GateView {
                        import_active: None,
                        session: crate::import_session::no_selection(old(self)@.session),
                        ..old(self)@
                    }),
                    _ => r.0 == Err::<Option<T>, Fault>(Fault::BackupStale) && final(self)@ == old(self)@,
                },
            },
    {
        let current = match current {
            Some(c) => c,
            None => {
                let matching = match &self.import_active {
                    Some(a) => a.ticket == ticket && a.phase == ImportPhase::Dialog,
                    None => false,
                };
                if matching {
                    match self.cancel_import() {
                        Ok(cancel) => {
                            return (Err(Fault::BackupStale), cancel);
                        },
                        Err(e) => {
                            return (Err(e), None);
                        },
                    }
                }
                return (Err(Fault::BackupStale), None);
            },
        };
        match self.authorize_import(ticket, current) {
            Ok(()) => {},
            Err(e) => {
                return (Err(e), None);
            },
        }
        if selected.is_none() {
            match self.cancel_import() {
                Ok(_) => {},
                Err(e) => {
                    return (Err(e), None);
                },
            }
        }
        (Ok(selected), None)
    }

    pub fn import_dialog_returned(&mut self, ticket: u64)
        ensures
            old(self)@.exclusive() ==> final(self)@.exclusive(),
            final(self)@ == match old(self)@.import_active {
                Some(a) if a.ticket == ticket && a.phase == ImportPhase::Dialog => if a.stale {
                    (GateView { import_active: None, ..old(self)@ })
                } else {
                    (GateView {
                        import_active: Some(ImportActive { dialog_returned: true, ..a }),
                        ..old(self)@
                    })
                },
                _ => old(self)@,
            },
    {
        let a = match self.import_active.take() {
            Some(a) => a,
            None => {
                return;
            },
        };
        if a.ticket == ticket && a.phase == ImportPhase::Dialog {
            if !a.stale {
                self.import_active = Some(ImportActive { dialog_returned: true, ..a });
            }
        } else {
            self.import_active = Some(a);
        }
    }

    /// The selected file for `ticket` was read and decoded.
    pub fn finish_import(
        &mut self,
        ticket: u64,
        current: (u64, u64),
        loaded: Result<DecodedBackup, Fault>,
    ) -> (r: Result<ImportPreview, Fault>)
        ensures
            old(self)@.exclusive() ==> final(self)@.exclusive(),
            match old(self)@.import_active {
                Some(a) if a.ticket == ticket && a.phase == ImportPhase::Reading => {
                    &&& final(self)@.import_active is None
                    &&& final(self)@.active == old(self)@.active
                    &&& final(self)@.next == old(self)@.next
                    &&& crate::import_session::finish_selection_post(
                        old(self)@.session,
                        final(self)@.session,
                        ticket,
                        current,
                        loaded,
                        r,
                    )
                },
                _ => r == Err::<ImportPreview, Fault>(Fault::BackupStale) && final(self)@ == old(self)@,
            },
    {
        let reading = match &self.import_active {
            Some(a) => a.ticket == ticket && a.phase == ImportPhase::Reading,
            None => false,
        };
        if !reading {
            return Err(Fault::BackupStale);
        }
        self.import_active = None;
        self.import_session.finish_selection(ticket, current, loaded)
    }

    /// Reserve the backup slot for preparing the confirmed preview; returns its files.
    pub fn begin_import_prepare(&mut self, ticket: u64, current: (u64, u64)) -> (r: Result<
        ImportFiles,
        Fault,
    >)
        ensures
            old(self)@.exclusive() ==> final(self)@.exclusive(),
            old(self)@.busy() ==> r == Err::<ImportFiles, Fault>(Fault::BackupBusy) && final(self)@ == old(self)@,
            !old(self)@.busy() && r is Ok ==> final(self)@.import_active == Some(
                ImportActive::<I> {
                    ticket,
                    session: current,
                    phase: ImportPhase::Preparing,
                    dialog_returned: true,
                    stale: false,
                    cancel: None,
                },
            ),
            !old(self)@.busy() && r is Err ==> final(self)@.import_active is None,
    {
        if self.active.is_some() || self.import_active.is_some() {
            return Err(Fault::BackupBusy);
        }
        let files = match self.import_session.begin_confirmation(ticket, current) {
            Ok(f) => f,
            Err(e) => {
                return Err(e);
            },
        };
        self.import_active = Some(
            ImportActive {
                ticket,
                session: current,
                phase: ImportPhase::Preparing,
                dialog_returned: true,
                stale: false,
                cancel: None,
            },
        );
        Ok(files)
    }

    /// The preparation for `ticket` finished with `result`. A preparation that
    /// succeeded is reported even when its preview was invalidated meanwhile.
    pub fn finish_import_prepare(&mut self, ticket: u64, result: Result<String, Fault>) -> (r:
        Result<ImportConfirmation, Fault>)
        ensures
            old(self)@.exclusive() ==> final(self)@.exclusive(),
            match old(self)@.import_active {
                Some(a) if a.ticket == ticket && a.phase == ImportPhase::Preparing => {
                    &&& final(self)@.import_active is None
                    &&& match result {
                        Ok(id) => r matches Ok(c) && c.transaction_id == id && c.restart_required,
                        Err(code) => r == Err::<ImportConfirmation, Fault>(code),
                    }
                },
                _ => r == Err::<ImportConfirmation, Fault>(Fault::BackupStale) && final(self)@
                    == old(self)@,
            },
    {
        let preparing = match &self.import_active {
            Some(a) => a.ticket == ticket && a.phase == ImportPhase::Preparing,
            None => false,
        };
        if !preparing {
            return Err(Fault::BackupStale);
        }
        self.import_active = None;
        let copy = match &result {
            Ok(id) => Ok(id.clone()),
            Err(code) => Err(*code),
        };
        match self.import_session.finish_confirmation(ticket, copy) {
            Err(Fault::BackupStale) => match result {
                Ok(transaction_id) => Ok(ImportConfirmation { transaction_id, restart_required: true }),
                Err(code) => Err(code),
            },
            other => other,
        }
    }

    pub fn import_preview(&self, current: (u64, u64)) -> (r: Option<ImportPreview>)
        ensures
            match self@.session.selection {
                Some(crate::import_session::SelectionView::Ready { session, ticket, preview, .. }) if session == current => r matches Some(p) && p.ticket == ticket && p.preview == preview,
                _ => r is None,
            },
    {
        self.import_session.current_preview(current)
    }
}

} // verus!
