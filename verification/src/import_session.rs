//! Frozen, one-use import previews for the settings window.
use crate::data_directory::backup_codec::{DecodedBackup, Preview};
use crate::data_directory::records::{Fault, ImportFiles, ImportFilesView};
use vstd::prelude::*;

verus! {

pub struct ImportPreview {
    pub ticket: u64,
    pub preview: Preview,
}

pub struct ImportConfirmation {
    pub transaction_id: String,
    pub restart_required: bool,
}

pub enum Selection {
    Loading { session: (u64, u64), ticket: u64 },
    Ready { session: (u64, u64), ticket: u64, files: ImportFiles, preview: Preview },
}

pub enum SelectionView {
    Loading { session: (u64, u64), ticket: u64 },
    Ready { session: (u64, u64), ticket: u64, files: ImportFilesView, preview: Preview },
}

pub struct ImportSession {
    next: u64,
    selection: Option<Selection>,
}

pub struct ImportSessionView {
    pub next: u64,
    pub selection: Option<SelectionView>,
}

pub open spec fn selection_view(s: Option<Selection>) -> Option<SelectionView> {
    match s {
        Some(Selection::Loading { session, ticket }) => Some(SelectionView::Loading { session, ticket }),
        Some(Selection::Ready { session, ticket, files, preview }) => Some(
            SelectionView::Ready { session, ticket, files: files@, preview },
        ),
        None => None,
    }
}

impl View for ImportSession {
    type V = ImportSessionView;

    closed spec fn view(&self) -> ImportSessionView {
        ImportSessionView { next: self.next, selection: selection_view(self.selection) }
    }
}

/// A copy of a preview.
pub fn copy_preview(p: &Preview) -> (r: Preview)
    ensures
        r == *p,
{
    Preview {
        created_at_utc_ms: p.created_at_utc_ms,
        selected_character_id: p.selected_character_id.clone(),
        has_desktop_placement: p.has_desktop_placement,
        reminders: p.reminders,
    }
}

pub open spec fn no_selection(s: ImportSessionView) -> ImportSessionView {
    ImportSessionView { selection: None, ..s }
}

/// The session once a new selection for `session` has been handed the next ticket.
pub open spec fn selecting(s0: ImportSessionView, session: (u64, u64)) -> ImportSessionView {
    ImportSessionView {
        next: (s0.next + 1) as u64,
        selection: Some(SelectionView::Loading { session, ticket: (s0.next + 1) as u64 }),
    }
}

/// What beginning the confirmation of `ticket` does, from `s0` to `s1`.
pub open spec fn begin_confirmation_post(
    s0: ImportSessionView,
    s1: ImportSessionView,
    ticket: u64,
    current: (u64, u64),
    r: Result<ImportFiles, Fault>,
) -> bool {
    match s0.selection {
        Some(SelectionView::Ready { session, ticket: active, files, .. }) => if active != ticket {
            r == Err::<ImportFiles, Fault>(Fault::BackupStale) && s1 == s0
        } else if session != current {
            r == Err::<ImportFiles, Fault>(Fault::BackupStale) && s1 == no_selection(s0)
        } else {
            r matches Ok(f) && f@ == files && s1 == s0
        },
        _ => r == Err::<ImportFiles, Fault>(Fault::BackupStale) && s1 == s0,
    }
}

/// What finishing the selection `ticket` does, from `s0` to `s1`.
pub open spec fn finish_selection_post(
    s0: ImportSessionView,
    s1: ImportSessionView,
    ticket: u64,
    current: (u64, u64),
    loaded: Result<DecodedBackup, Fault>,
    r: Result<ImportPreview, Fault>,
) -> bool {
            match s0.selection {
                Some(SelectionView::Loading { session, ticket: active }) => if active != ticket {
                    r == Err::<ImportPreview, Fault>(Fault::BackupStale) && s1 == s0
                } else if session != current {
                    r == Err::<ImportPreview, Fault>(Fault::BackupStale) && s1
                        == no_selection(s0)
                } else {
                    match loaded {
                        Err(code) => r == Err::<ImportPreview, Fault>(code) && s1
                            == no_selection(s0),
                        Ok(decoded) => r matches Ok(p) && p.ticket == ticket && p.preview
                            == decoded.preview && s1 == (ImportSessionView {
                            selection: Some(
                                SelectionView::Ready {
                                    session: current,
                                    ticket,
                                    files: decoded.files@,
                                    preview: decoded.preview,
                                },
                            ),
                            ..s0
                        }),
                    }
                },
                _ => r == Err::<ImportPreview, Fault>(Fault::BackupStale) && s1 == s0,
            }
}

impl Default for ImportSession {
    fn default() -> (s: Self)
        ensures
            s@.next == 0,
            s@.selection is None,
    {
        ImportSession::new()
    }
}

impl ImportSession {
    pub fn new() -> (s: Self)
        ensures
            s@.next == 0,
            s@.selection is None,
    {
        ImportSession { next: 0, selection: None }
    }

    /// A new selection immediately invalidates the prior preview and any late callback.
    pub fn begin_selection(&mut self, session: (u64, u64)) -> (r: Result<u64, Fault>)
        ensures
            old(self)@.next == u64::MAX ==> r == Err::<u64, Fault>(Fault::BackupUnavailable)
                && final(self)@ == no_selection(old(self)@),
            old(self)@.next < u64::MAX ==> r == Ok::<u64, Fault>((old(self)@.next + 1) as u64)
                && final(self)@ == selecting(old(self)@, session),
    {
        self.selection = None;
        if self.next == u64::MAX {
            return Err(Fault::BackupUnavailable);
        }
        self.next = self.next + 1;
        self.selection = Some(Selection::Loading { session, ticket: self.next });
        Ok(self.next)
    }

    /// The picked file was read and decoded for `ticket`.
    pub fn finish_selection(
        &mut self,
        ticket: u64,
        current: (u64, u64),
        loaded: Result<DecodedBackup, Fault>,
    ) -> (r: Result<ImportPreview, Fault>)
        ensures
            finish_selection_post(old(self)@, final(self)@, ticket, current, loaded, r),
    {
        let (session, active) = match &self.selection {
            Some(Selection::Loading { session, ticket }) => (*session, *ticket),
            _ => {
                return Err(Fault::BackupStale);
            },
        };
        if active != ticket {
            return Err(Fault::BackupStale);
        }
        if session.0 != current.0 || session.1 != current.1 {
            self.selection = None;
            return Err(Fault::BackupStale);
        }
        let decoded = match loaded {
            Ok(d) => d,
            Err(code) => {
                self.selection = None;
                return Err(code);
            },
        };
        let response = ImportPreview { ticket, preview: copy_preview(&decoded.preview) };
        self.selection = Some(
            Selection::Ready {
                session: current,
                ticket,
                files: decoded.files,
                preview: decoded.preview,
            },
        );
        Ok(response)
    }

    /// Check that `ticket` is the ready preview of `current`; returns the
    /// frozen candidate and keeps it until the confirmation finishes.
    pub fn begin_confirmation(&mut self, ticket: u64, current: (u64, u64)) -> (r: Result<
        ImportFiles,
        Fault,
    >)
        ensures
            begin_confirmation_post(old(self)@, final(self)@, ticket, current, r),
    {
        let (session, active) = match &self.selection {
            Some(Selection::Ready { session, ticket, .. }) => (*session, *ticket),
            _ => {
                return Err(Fault::BackupStale);
            },
        };
        if active != ticket {
            return Err(Fault::BackupStale);
        }
        if session.0 != current.0 || session.1 != current.1 {
            self.selection = None;
            return Err(Fault::BackupStale);
        }
        match &self.selection {
            Some(Selection::Ready { files, .. }) => Ok(files.duplicate()),
            _ => Err(Fault::BackupStale),
        }
    }

    /// The pending transaction for `ticket` was written (or failed). A failure
    /// keeps the candidate so that confirming again needs no file read.
    pub fn finish_confirmation(&mut self, ticket: u64, result: Result<String, Fault>) -> (r: Result<
        ImportConfirmation,
        Fault,
    >)
        ensures
            match old(self)@.selection {
                Some(SelectionView::Ready { ticket: active, .. }) if active == ticket => match result {
                    Ok(id) => r matches Ok(c) && c.transaction_id == id && c.restart_required
                        && final(self)@ == no_selection(old(self)@),
                    Err(code) => r == Err::<ImportConfirmation, Fault>(code) && final(self)@ == old(self)@,
                },
                _ => r == Err::<ImportConfirmation, Fault>(Fault::BackupStale) && final(self)@
                    == old(self)@,
            },
    {
        let ready = match &self.selection {
            Some(Selection::Ready { ticket: active, .. }) => *active == ticket,
            _ => false,
        };
        if !ready {
            return Err(Fault::BackupStale);
        }
        match result {
            Ok(transaction_id) => {
                self.selection = None;
                Ok(ImportConfirmation { transaction_id, restart_required: true })
            },
            Err(code) => Err(code),
        }
    }

    /// Confirm the ready preview: `prepare` schedules the candidate for the
    /// next launch and returns its transaction identifier.
    pub fn confirm<F: FnOnce(ImportFiles) -> Result<String, Fault>>(
        &mut self,
        ticket: u64,
        current: (u64, u64),
        prepare: F,
    ) -> (r: Result<ImportConfirmation, Fault>)
        requires
            forall|f: ImportFiles| call_requires(prepare, (f,)),
        ensures
            match old(self)@.selection {
                Some(SelectionView::Ready { session, ticket: active, files, .. }) => if active
                    != ticket {
                    r == Err::<ImportConfirmation, Fault>(Fault::BackupStale) && final(self)@
                        == old(self)@
                } else if session != current {
                    r == Err::<ImportConfirmation, Fault>(Fault::BackupStale) && final(self)@
                        == no_selection(old(self)@)
                } else {
                    exists|f: ImportFiles, out: Result<String, Fault>|
                        f@ == files && call_ensures(prepare, (f,), out) && match out {
                            Ok(id) => r matches Ok(c) && c.transaction_id == id
                                && c.restart_required && final(self)@ == no_selection(old(self)@),
                            Err(code) => r == Err::<ImportConfirmation, Fault>(code)
                                && final(self)@ == old(self)@,
                        }
                },
                _ => r == Err::<ImportConfirmation, Fault>(Fault::BackupStale) && final(self)@
                    == old(self)@,
            },
    {
        let files = match self.begin_confirmation(ticket, current) {
            Ok(f) => f,
            Err(e) => {
                return Err(e);
            },
        };
        let ghost fv = files;
        let out = prepare(files);
        match out {
            Ok(transaction_id) => {
                self.selection = None;
                Ok(ImportConfirmation { transaction_id, restart_required: true })
            },
            Err(code) => Err(code),
        }
    }

    pub fn cancel(&mut self)
        ensures
            final(self)@ == no_selection(old(self)@),
    {
        self.selection = None;
    }

    pub fn invalidate(&mut self)
        ensures
            final(self)@ == no_selection(old(self)@),
    {
        self.selection = None;
    }

    /// Show an existing frozen summary again after a recoverable error.
    pub fn current_preview(&self, current: (u64, u64)) -> (r: Option<ImportPreview>)
        ensures
            match self@.selection {
                Some(SelectionView::Ready { session, ticket, preview, .. }) if session
                    == current => r matches Some(p) && p.ticket == ticket && p.preview == preview,
                _ => r is None,
            },
    {
        match &self.selection {
            Some(Selection::Ready { session, ticket, preview, .. }) => {
                if session.0 == current.0 && session.1 == current.1 {
                    Some(ImportPreview { ticket: *ticket, preview: copy_preview(preview) })
                } else {
                    None
                }
            },
            _ => None,
        }
    }
}


/// A new selection immediately invalidates the prior preview and any late
/// callback: once `begin_selection` has handed out its ticket, finishing any
/// other ticket is refused as stale and changes nothing, and no confirmation
/// can begin until the new preview is ready.
pub proof fn lemma_new_selection_invalidates(
    s0: ImportSessionView,
    session: (u64, u64),
    late: u64,
    current: (u64, u64),
    loaded: Result<DecodedBackup, Fault>,
    s1: ImportSessionView,
    r: Result<ImportPreview, Fault>,
    ticket: u64,
    s2: ImportSessionView,
    files: Result<ImportFiles, Fault>,
)
    requires
        s0.next < u64::MAX,
        late != s0.next + 1,
    ensures
        finish_selection_post(selecting(s0, session), s1, late, current, loaded, r) ==> r == Err::<
            ImportPreview,
            Fault,
        >(Fault::BackupStale) && s1 == selecting(s0, session),
        begin_confirmation_post(selecting(s0, session), s2, ticket, current, files) ==> files
            == Err::<ImportFiles, Fault>(Fault::BackupStale) && s2 == selecting(s0, session),
{
}

} // verus!
