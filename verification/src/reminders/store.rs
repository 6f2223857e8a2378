//! The reminder file: its save status, the store that decides what a read or
//! write allows, and the storage interface the worker uses.
use crate::reminders::model::{default_data_view, Code, Data, Error};
use vstd::prelude::*;

verus! {

#[derive(Clone, Copy, Debug, PartialEq, Eq, Structural)]
pub enum SaveStatus {
    Loading,
    Default,
    Saved,
    Unsaved,
    ReadOnly,
}

#[derive(Clone, Copy, Debug, PartialEq, Eq, Structural)]
pub struct Persistence {
    pub status: SaveStatus,
    pub code: Option<Code>,
}

impl Persistence {
    pub fn new(status: SaveStatus, code: Option<Code>) -> (p: Self)
        ensures
            p == (Persistence { status, code }),
    {
        Self { status, code }
    }

    /// A read-only file is never written by this process.
    pub fn protected(&self) -> (r: bool)
        ensures
            r == (self.status == SaveStatus::ReadOnly),
    {
        self.status == SaveStatus::ReadOnly
    }
}

/// Where reminder data is loaded from and saved to. Nothing is assumed of
/// what an implementation returns.
pub trait Storage {
    fn load(&mut self) -> (Data, Persistence);

    fn save(&mut self, data: &Data) -> Persistence;
}

/// What reading the reminder file found.
pub enum Read {
    /// No data directory is available.
    NoDirectory,
    /// The file does not exist yet.
    Missing,
    /// The file exists but could not be read.
    Failed,
    /// The file was read and parsed as a version 1 reminder file, or refused.
    Parsed(Result<Data, Error>),
}

/// Why a read makes the file untouchable: no directory, an unreadable file,
/// or a file that is not a valid version 1 reminder file. `None` for a
/// missing file or a valid one.
pub open spec fn read_refusal(read: Read) -> Option<Code> {
    match read {
        Read::NoDirectory => Some(Code::DirectoryUnavailable),
        Read::Missing => None,
        Read::Failed => Some(Code::ReadFailed),
        Read::Parsed(Ok(d)) => if d@.valid() {
            None
        } else {
            Some(Code::InvalidFile)
        },
        Read::Parsed(Err(e)) => Some(e.code),
    }
}

/// The starting data and status for what was read. A valid file is used as
/// saved; a missing file starts from the defaults; anything else starts from
/// the defaults read-only with its diagnostic, and must not be overwritten.
pub fn load_outcome(read: Read) -> (r: (Data, Persistence))
    ensures
        match read_refusal(read) {
            Some(code) => r.0@ == default_data_view() && r.1 == (Persistence {
                status: SaveStatus::ReadOnly,
                code: Some(code),
            }),
            None => match read {
                Read::Parsed(Ok(d)) => r.0 == d && r.1 == (Persistence {
                    status: SaveStatus::Saved,
                    code: None,
                }),
                _ => r.0@ == default_data_view() && r.1 == (Persistence {
                    status: SaveStatus::Default,
                    code: None,
                }),
            },
        },
{
    match read {
        Read::NoDirectory => (
            Data::default_data(),
            Persistence::new(SaveStatus::ReadOnly, Some(Code::DirectoryUnavailable)),
        ),
        Read::Missing => (Data::default_data(), Persistence::new(SaveStatus::Default, None)),
        Read::Failed => (
            Data::default_data(),
            Persistence::new(SaveStatus::ReadOnly, Some(Code::ReadFailed)),
        ),
        Read::Parsed(Ok(d)) => match d.validate() {
            Ok(()) => (d, Persistence::new(SaveStatus::Saved, None)),
            Err(_) => (
                Data::default_data(),
                Persistence::new(SaveStatus::ReadOnly, Some(Code::InvalidFile)),
            ),
        },
        Read::Parsed(Err(e)) => (
            Data::default_data(),
            Persistence::new(SaveStatus::ReadOnly, Some(e.code)),
        ),
    }
}

/// Before any write: a store that refused its file stays read-only, and data
/// that is not valid is never written. `None` means the write may proceed.
pub fn save_gate(blocked: Option<Code>, data: &Data) -> (r: Option<Persistence>)
    ensures
        r == match blocked {
            Some(code) => Some(Persistence { status: SaveStatus::ReadOnly, code: Some(code) }),
            None => if data@.valid() {
                None::<Persistence>
            } else {
                Some(Persistence { status: SaveStatus::Unsaved, code: Some(Code::InvalidState) })
            },
        },
{
    match blocked {
        Some(code) => Some(Persistence::new(SaveStatus::ReadOnly, Some(code))),
        None => match data.validate() {
            Ok(()) => None,
            Err(_) => Some(Persistence::new(SaveStatus::Unsaved, Some(Code::InvalidState))),
        },
    }
}


/// The reminder file's store: where the file lives (none without a data
/// directory) and, once the file has been refused, why. The caller performs
/// the reads and writes; the store decides what they mean.
pub struct Store<P> {
    path: Option<P>,
    blocked: Option<Code>,
}

impl<P> Store<P> {
    /// The refusal that keeps this store from ever writing again.
    pub closed spec fn refusal(&self) -> Option<Code> {
        self.blocked
    }

    pub closed spec fn location(&self) -> Option<P> {
        self.path
    }

    pub fn new(path: Option<P>) -> (s: Self)
        ensures
            s.location() == path,
            s.refusal() is None,
    {
        Self { path, blocked: None }
    }

    pub fn path(&self) -> (r: &Option<P>)
        ensures
            *r == self.location(),
    {
        &self.path
    }

    /// What loading found in `read`, the result of reading the file. A
    /// refused file blocks every later write with its diagnostic.
    pub fn loaded(&mut self, read: Read) -> (r: (Data, Persistence))
        ensures
            final(self).location() == old(self).location(),
            final(self).refusal() == match read_refusal(read) {
                Some(code) => Some(code),
                None => old(self).refusal(),
            },
            match read_refusal(read) {
                Some(code) => r.0@ == default_data_view() && r.1 == (Persistence {
                    status: SaveStatus::ReadOnly,
                    code: Some(code),
                }),
                None => match read {
                    Read::Parsed(Ok(d)) => r.0 == d && r.1 == (Persistence {
                        status: SaveStatus::Saved,
                        code: None,
                    }),
                    _ => r.0@ == default_data_view() && r.1 == (Persistence {
                        status: SaveStatus::Default,
                        code: None,
                    }),
                },
            },
    {
        let r = load_outcome(read);
        if r.1.status == SaveStatus::ReadOnly {
            self.blocked = r.1.code;
        }
        r
    }

    /// Whether saving `data` may go on to read the file it replaces: `None`
    /// when it may, else the status to report. A refused store stays
    /// read-only; invalid data is never written; without a directory the
    /// store becomes read-only.
    pub fn begin_save(&mut self, data: &Data) -> (r: Option<Persistence>)
        ensures
            final(self).location() == old(self).location(),
            r == match old(self).refusal() {
                Some(code) => Some(Persistence { status: SaveStatus::ReadOnly, code: Some(code) }),
                None => if !data@.valid() {
                    Some(Persistence { status: SaveStatus::Unsaved, code: Some(Code::InvalidState) })
                } else if old(self).location() is None {
                    Some(
                        Persistence {
                            status: SaveStatus::ReadOnly,
                            code: Some(Code::DirectoryUnavailable),
                        },
                    )
                } else {
                    None::<Persistence>
                },
            },
            final(self).refusal() == match r {
                Some(p) if p.status == SaveStatus::ReadOnly => p.code,
                _ => old(self).refusal(),
            },
    {
        if let Some(refused) = save_gate(self.blocked, data) {
            return Some(refused);
        }
        if self.path.is_none() {
            self.blocked = Some(Code::DirectoryUnavailable);
            return Some(Persistence::new(SaveStatus::ReadOnly, self.blocked));
        }
        None
    }

    /// What the file about to be replaced holds decides whether it may be
    /// replaced: a missing or valid file may, anything else is never
    /// overwritten and blocks the store.
    pub fn check_previous(&mut self, read: Read) -> (r: Option<Persistence>)
        ensures
            final(self).location() == old(self).location(),
            r == match read_refusal(read) {
                Some(code) => Some(Persistence { status: SaveStatus::ReadOnly, code: Some(code) }),
                None => None::<Persistence>,
            },
            final(self).refusal() == match read_refusal(read) {
                Some(code) => Some(code),
                None => old(self).refusal(),
            },
    {
        let (_, p) = load_outcome(read);
        if p.status == SaveStatus::ReadOnly {
            self.blocked = p.code;
            Some(p)
        } else {
            None
        }
    }

    /// The status after writing: saved, or unsaved with the failure's code.
    pub fn written(&self, result: Result<(), Code>) -> (r: Persistence)
        ensures
            r == match result {
                Ok(()) => Persistence { status: SaveStatus::Saved, code: None },
                Err(code) => Persistence { status: SaveStatus::Unsaved, code: Some(code) },
            },
    {
        match result {
            Ok(()) => Persistence::new(SaveStatus::Saved, None),
            Err(code) => Persistence::new(SaveStatus::Unsaved, Some(code)),
        }
    }
}

} // verus!
