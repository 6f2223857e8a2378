//! The desktop position file's store: where the file lives and whether this
//! process may still write it. The caller reads, parses and writes the file;
//! the store decides what each outcome allows.
use vstd::prelude::*;

verus! {

/// What reading the position file found.
pub enum Found<T> {
    /// A valid version 1 configuration.
    Parsed(T),
    /// No file yet: the normal first start.
    Missing,
    /// A file that is not a valid version 1 configuration, with the diagnostic.
    Invalid(String),
    /// The file could not be read, with the diagnostic.
    ReadFailed(String),
}

pub struct Store<P> {
    path: P,
    pub writable: bool,
}

/// The message of a save refused for the rest of the session.
pub open spec fn read_only_message() -> Seq<char> {
    "configuration is read-only for this session"@
}

impl<P> Store<P> {
    pub closed spec fn location(&self) -> P {
        self.path
    }

    pub closed spec fn may_write(&self) -> bool {
        self.writable
    }

    pub fn path(&self) -> (r: &P)
        ensures
            *r == self.location(),
    {
        &self.path
    }

    /// The store for `path` and what its file held. A file that is not a
    /// valid configuration is kept as it is and makes the store read-only
    /// for this session; a file that could not be read is only reported.
    pub fn load<T>(path: P, found: Found<T>) -> (r: (Self, Option<T>, Option<String>))
        ensures
            r.0.location() == path,
            match found {
                Found::Parsed(t) => r.0.may_write() && r.1 == Some(t) && r.2 is None,
                Found::Missing => r.0.may_write() && r.1 is None && r.2 is None,
                Found::Invalid(e) => !r.0.may_write() && r.1 is None && r.2 == Some(e),
                Found::ReadFailed(e) => r.0.may_write() && r.1 is None && r.2 == Some(e),
            },
    {
        match found {
            Found::Parsed(t) => (Store { path, writable: true }, Some(t), None),
            Found::Missing => (Store { path, writable: true }, None, None),
            Found::Invalid(e) => (Store { path, writable: false }, None, Some(e)),
            Found::ReadFailed(e) => (Store { path, writable: true }, None, Some(e)),
        }
    }

    /// A read-only store refuses every save.
    pub fn begin_save(&self) -> (r: Result<(), String>)
        ensures
            match r {
                Ok(()) => self.may_write(),
                Err(e) => !self.may_write() && e@ == read_only_message(),
            },
    {
        if self.writable {
            Ok(())
        } else {
            proof {
                reveal_strlit("configuration is read-only for this session");
            }
            Err(String::from_str("configuration is read-only for this session"))
        }
    }

    /// What the file about to be replaced holds: a valid or missing file may
    /// be replaced; an invalid one is never overwritten and makes the store
    /// read-only; an unreadable one refuses only this save.
    pub fn check_previous<T>(&mut self, found: Found<T>) -> (r: Result<(), String>)
        ensures
            final(self).location() == old(self).location(),
            match found {
                Found::Parsed(_) | Found::Missing => r is Ok && final(self).may_write()
                    == old(self).may_write(),
                Found::Invalid(e) => r == Err::<(), String>(e) && !final(self).may_write(),
                Found::ReadFailed(e) => r == Err::<(), String>(e) && final(self).may_write()
                    == old(self).may_write(),
            },
    {
        match found {
            Found::Parsed(_) | Found::Missing => Ok(()),
            Found::Invalid(e) => {
                self.writable = false;
                Err(e)
            },
            Found::ReadFailed(e) => Err(e),
        }
    }
}

} // verus!
