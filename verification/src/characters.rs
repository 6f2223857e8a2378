//! Character catalog and the persisted selection.
use crate::text::str_eq;
use vstd::prelude::*;

verus! {

pub struct Character {
    pub id: String,
    pub display_name: String,
}

pub struct Catalog {
    pub default_id: String,
    pub characters: Vec<Character>,
}

pub open spec fn catalog_has(c: Catalog, id: Seq<char>) -> bool {
    exists|i: int| 0 <= i < c.characters@.len() && (#[trigger] c.characters@[i]).id@ == id
}

/// Every identity is non-empty and unique, and the default is listed.
pub open spec fn catalog_valid(c: Catalog) -> bool {
    &&& catalog_has(c, c.default_id@)
    &&& forall|i: int|
        0 <= i < c.characters@.len() ==> (#[trigger] c.characters@[i]).id@.len() > 0
            && c.characters@[i].display_name@.len() > 0
    &&& forall|i: int, j: int|
        0 <= i < j < c.characters@.len() ==> (#[trigger] c.characters@[i]).id@
            != (#[trigger] c.characters@[j]).id@
}

impl Catalog {
    pub fn contains(&self, id: &str) -> (r: bool)
        ensures
            r == catalog_has(*self, id@),
    {
        let mut i: usize = 0;
        while i < self.characters.len()
            invariant
                i <= self.characters@.len(),
                forall|j: int| 0 <= j < i ==> (#[trigger] self.characters@[j]).id@ != id@,
            decreases self.characters.len() - i,
        {
            if str_eq(self.characters[i].id.as_str(), id) {
                return true;
            }
            i += 1;
        }
        false
    }

    /// The identity rules the built-in catalog must meet.
    pub fn validate(&self) -> (r: bool)
        ensures
            r == catalog_valid(*self),
    {
        if !self.contains(self.default_id.as_str()) {
            return false;
        }
        let n = self.characters.len();
        let mut i: usize = 0;
        while i < n
            invariant
                n == self.characters@.len(),
                i <= n,
                forall|k: int|
                    0 <= k < i ==> (#[trigger] self.characters@[k]).id@.len() > 0
                        && self.characters@[k].display_name@.len() > 0,
                forall|k: int, l: int|
                    0 <= k < l < n && k < i ==> (#[trigger] self.characters@[k]).id@
                        != (#[trigger] self.characters@[l]).id@,
            decreases n - i,
        {
            let c = &self.characters[i];
            if c.id.as_str().unicode_len() == 0 || c.display_name.as_str().unicode_len() == 0 {
                return false;
            }
            let mut j: usize = i + 1;
            while j < n
                invariant
                    n == self.characters@.len(),
                    i < n,
                    i + 1 <= j <= n,
                    forall|l: int|
                        i < l < j ==> self.characters@[i as int].id@ != (
                        #[trigger] self.characters@[l]).id@,
                decreases n - j,
            {
                if str_eq(self.characters[i].id.as_str(), self.characters[j].id.as_str()) {
                    return false;
                }
                j += 1;
            }
            i += 1;
        }
        true
    }
}

#[derive(Clone, Copy, Debug, PartialEq, Eq, Structural)]
pub enum Persistence {
    Default,
    Saved,
    Fallback,
    SessionOnly,
    SaveFailed,
}

impl Persistence {
    pub fn label(self) -> (s: &'static str)
        ensures
            s@ == match self {
                Persistence::Default => "角色：默认（尚未保存）"@,
                Persistence::Saved => "角色：已保存"@,
                Persistence::Fallback => "角色：未知记录，使用默认（未覆盖）"@,
                Persistence::SessionOnly => "角色：仅本次有效"@,
                Persistence::SaveFailed => "角色：保存失败，保留原选择"@,
            },
    {
        match self {
            Persistence::Default => "角色：默认（尚未保存）",
            Persistence::Saved => "角色：已保存",
            Persistence::Fallback => "角色：未知记录，使用默认（未覆盖）",
            Persistence::SessionOnly => "角色：仅本次有效",
            Persistence::SaveFailed => "角色：保存失败，保留原选择",
        }
    }
}

#[derive(Clone, Debug, PartialEq)]
pub struct Snapshot {
    pub selected_character_id: String,
    pub revision: u64,
    pub persistence: Persistence,
}

/// What reading the preference file found.
pub enum Stored {
    /// No directory was available.
    NoPath,
    /// The file does not exist yet.
    Missing,
    /// The file could not be read.
    ReadFailed,
    /// The file does not parse as a version 1 configuration.
    Invalid,
    /// A valid configuration selecting this identifier.
    Selected(String),
}

/// The starting selection and whether the file may be written: an unknown
/// identifier falls back to the default without overwriting; an unreadable
/// or invalid file makes the selection session-only.
pub fn initial_snapshot(catalog: &Catalog, stored: Stored) -> (r: (bool, Snapshot))
    ensures
        r.1.revision == 0,
        r.0 == !(stored is NoPath || stored is ReadFailed || stored is Invalid),
        !r.0 ==> r.1.persistence == Persistence::SessionOnly && r.1.selected_character_id@
            == catalog.default_id@,
        stored is Missing ==> r.1.persistence == Persistence::Default
            && r.1.selected_character_id@ == catalog.default_id@,
        stored matches Stored::Selected(id) ==> if catalog_has(*catalog, id@) {
            r.1.persistence == Persistence::Saved && r.1.selected_character_id@ == id@
        } else {
            r.1.persistence == Persistence::Fallback && r.1.selected_character_id@
                == catalog.default_id@
        },
{
    let default_id = catalog.default_id.clone();
    match stored {
        Stored::NoPath | Stored::ReadFailed | Stored::Invalid => (
            false,
            Snapshot {
                selected_character_id: default_id,
                revision: 0,
                persistence: Persistence::SessionOnly,
            },
        ),
        Stored::Missing => (
            true,
            Snapshot {
                selected_character_id: default_id,
                revision: 0,
                persistence: Persistence::Default,
            },
        ),
        Stored::Selected(id) => {
            if catalog.contains(id.as_str()) {
                (
                    true,
                    Snapshot {
                        selected_character_id: id,
                        revision: 0,
                        persistence: Persistence::Saved,
                    },
                )
            } else {
                (
                    true,
                    Snapshot {
                        selected_character_id: default_id,
                        revision: 0,
                        persistence: Persistence::Fallback,
                    },
                )
            }
        },
    }
}

/// Commit one selection after its save: a failed save keeps the previous
/// character and reports `SaveFailed`. Every commit is a new revision.
pub fn commit_selection<E>(snapshot: &mut Snapshot, id: String, saved: Result<Persistence, E>) -> (r:
    Result<(), E>)
    requires
        old(snapshot).revision < u64::MAX,
    ensures
        final(snapshot).revision == old(snapshot).revision + 1,
        match saved {
            Ok(p) => r is Ok && final(snapshot).selected_character_id == id
                && final(snapshot).persistence == p,
            Err(e) => r == Err::<(), E>(e) && final(snapshot).selected_character_id == old(
                snapshot,
            ).selected_character_id && final(snapshot).persistence == Persistence::SaveFailed,
        },
{
    snapshot.revision = snapshot.revision + 1;
    match saved {
        Ok(p) => {
            snapshot.selected_character_id = id;
            snapshot.persistence = p;
            Ok(())
        },
        Err(e) => {
            snapshot.persistence = Persistence::SaveFailed;
            Err(e)
        },
    }
}

/// A selection is exported only when it is a known, durable choice.
pub fn export_allowed(snapshot: Option<&Snapshot>, catalog: &Catalog) -> (r: bool)
    ensures
        r == match snapshot {
            Some(s) => (s.persistence == Persistence::Default || s.persistence
                == Persistence::Saved) && catalog_has(*catalog, s.selected_character_id@),
            None => false,
        },
{
    match snapshot {
        Some(s) => (s.persistence == Persistence::Default || s.persistence == Persistence::Saved)
            && catalog.contains(s.selected_character_id.as_str()),
        None => false,
    }
}


/// The selection state a worker shares with its service: the published
/// snapshot, and whether the service is stopping.
pub struct Selection {
    pub snapshot: Snapshot,
    pub stopped: bool,
}

pub open spec fn stopping_message() -> Seq<char> {
    "character selection is stopping"@
}

pub open spec fn stopped_message() -> Seq<char> {
    "character selection stopped"@
}

fn copy_snapshot(s: &Snapshot) -> (r: Snapshot)
    ensures
        r.selected_character_id@ == s.selected_character_id@,
        r.revision == s.revision,
        r.persistence == s.persistence,
{
    Snapshot {
        selected_character_id: String::from_str(s.selected_character_id.as_str()),
        revision: s.revision,
        persistence: s.persistence,
    }
}

impl Selection {
    pub fn new(snapshot: Snapshot) -> (s: Self)
        ensures
            s.snapshot == snapshot,
            !s.stopped,
    {
        Selection { snapshot, stopped: false }
    }

    /// A queued selection starts its save only while the service runs.
    pub fn begin(&self) -> (r: Result<(), String>)
        ensures
            match r {
                Ok(()) => !self.stopped,
                Err(e) => self.stopped && e@ == stopping_message(),
            },
    {
        if self.stopped {
            proof {
                reveal_strlit("character selection is stopping");
            }
            Err(String::from_str("character selection is stopping"))
        } else {
            Ok(())
        }
    }

    /// The save for `id` finished with `saved`. A stop that won the race
    /// discards it and changes nothing; otherwise the selection is committed
    /// (a failed save keeps the previous character) and the new snapshot, or
    /// the save's error, is returned.
    pub fn finish(&mut self, id: String, saved: Result<Persistence, String>) -> (r: Result<
        Snapshot,
        String,
    >)
        requires
            old(self).snapshot.revision < u64::MAX,
        ensures
            old(self).stopped ==> final(self).snapshot == old(self).snapshot && final(self).stopped
                && (r matches Err(e) && e@ == stopped_message()),
            !old(self).stopped ==> {
                &&& !final(self).stopped
                &&& final(self).snapshot.revision == old(self).snapshot.revision + 1
                &&& match saved {
                    Ok(p) => final(self).snapshot.selected_character_id == id
                        && final(self).snapshot.persistence == p && (r matches Ok(s)
                        && s.selected_character_id@ == id@ && s.revision
                        == final(self).snapshot.revision && s.persistence == p),
                    Err(e) => final(self).snapshot.selected_character_id == old(
                        self,
                    ).snapshot.selected_character_id && final(self).snapshot.persistence
                        == Persistence::SaveFailed && r == Err::<Snapshot, String>(e),
                }
            },
    {
        if self.stopped {
            proof {
                reveal_strlit("character selection stopped");
            }
            return Err(String::from_str("character selection stopped"));
        }
        match commit_selection(&mut self.snapshot, id, saved) {
            Ok(()) => Ok(copy_snapshot(&self.snapshot)),
            Err(e) => Err(e),
        }
    }

    /// Stop accepting selections.
    pub fn stop(&mut self)
        ensures
            final(self).stopped,
            final(self).snapshot == old(self).snapshot,
    {
        self.stopped = true;
    }
}

} // verus!
