//! The focus file's store: where the file lives, the bytes last read from or
//! written to it, and whether writing has been refused for this process. The
//! caller performs the reads and writes; the store decides what they allow.
use crate::data_directory::records::push_all;
use crate::focus::model::{err, Code, Error};
use crate::text::same_bytes;
use vstd::prelude::*;

verus! {

pub struct Store<P> {
    path: Option<P>,
    previous: Option<Vec<u8>>,
    blocked: bool,
}

fn copy_bytes(bytes: &[u8]) -> (r: Vec<u8>)
    ensures
        r@ == bytes@,
{
    let mut r: Vec<u8> = Vec::new();
    push_all(&mut r, bytes);
    assert(r@ =~= bytes@);
    r
}

impl<P> Store<P> {
    pub closed spec fn location(&self) -> Option<P> {
        self.path
    }

    /// The bytes the file held when last read or written by this store.
    pub closed spec fn last(&self) -> Option<Seq<u8>> {
        match self.previous {
            Some(v) => Some(v@),
            None => None,
        }
    }

    /// Writing has been refused for the rest of this process.
    pub closed spec fn refused(&self) -> bool {
        self.blocked
    }

    pub fn new(path: Option<P>) -> (s: Self)
        ensures
            s.location() == path,
            s.last() is None,
            !s.refused(),
    {
        Self { path, previous: None, blocked: false }
    }

    pub fn path(&self) -> (r: &Option<P>)
        ensures
            *r == self.location(),
    {
        &self.path
    }

    /// What loading read: valid bytes are remembered as the file's content;
    /// a failure refuses every later write.
    pub fn loaded(&mut self, read: Result<Vec<u8>, Error>) -> (r: Result<Vec<u8>, Error>)
        ensures
            final(self).location() == old(self).location(),
            match read {
                Ok(b) => r matches Ok(x) && x@ == b@ && final(self).last() == Some(b@)
                    && final(self).refused() == old(self).refused(),
                Err(e) => r == Err::<Vec<u8>, Error>(e) && final(self).refused()
                    && final(self).last() == old(self).last(),
            },
    {
        match read {
            Ok(bytes) => {
                self.previous = Some(copy_bytes(bytes.as_slice()));
                Ok(bytes)
            },
            Err(e) => {
                self.blocked = true;
                Err(e)
            },
        }
    }

    /// A store writes only after a successful load and while not refused.
    pub fn begin_save(&self) -> (r: Result<(), Error>)
        ensures
            r == if self.refused() || self.last() is None {
                Err::<(), Error>(err(Code::ReadOnly))
            } else {
                Ok::<(), Error>(())
            },
    {
        if self.blocked || self.previous.is_none() {
            Err(Error::new(Code::ReadOnly))
        } else {
            Ok(())
        }
    }

    /// What the file holds just before it is replaced. A file that cannot be
    /// read, or that changed since this store last read or wrote it, is
    /// never overwritten, and refuses every later write.
    pub fn check_current(&mut self, current: Result<Vec<u8>, Error>) -> (r: Result<Vec<u8>, Error>)
        ensures
            final(self).location() == old(self).location(),
            final(self).last() == old(self).last(),
            match current {
                Err(e) => r == Err::<Vec<u8>, Error>(e) && final(self).refused(),
                Ok(c) => if old(self).last() == Some(c@) {
                    r matches Ok(x) && x@ == c@ && final(self).refused() == old(self).refused()
                } else {
                    r == Err::<Vec<u8>, Error>(err(Code::FileChanged)) && final(self).refused()
                },
            },
    {
        match current {
            Err(e) => {
                self.blocked = true;
                Err(e)
            },
            Ok(c) => {
                let unchanged = match &self.previous {
                    Some(p) => same_bytes(p.as_slice(), c.as_slice()),
                    None => false,
                };
                if unchanged {
                    Ok(c)
                } else {
                    self.blocked = true;
                    Err(Error::new(Code::FileChanged))
                }
            },
        }
    }

    /// `bytes` were written: they are now the file's known content.
    pub fn saved(&mut self, bytes: &[u8])
        ensures
            final(self).location() == old(self).location(),
            final(self).last() == Some(bytes@),
            final(self).refused() == old(self).refused(),
    {
        self.previous = Some(copy_bytes(bytes));
    }
}

} // verus!
