//! The build identity shared by the `get_build_info` command and the CLI.
use crate::text::str_eq;
use vstd::prelude::*;

verus! {

#[derive(Clone, Copy, Debug, PartialEq)]
pub struct BuildInfo {
    pub schema_version: u8,
    pub app_version: &'static str,
    pub target: &'static str,
    pub source_commit: Option<&'static str>,
    pub source_state: &'static str,
}

pub open spec fn lower_hex_char(c: char) -> bool {
    ('0' <= c && c <= '9') || ('a' <= c && c <= 'f')
}

/// A full commit hash: forty lower-case hexadecimal digits.
pub open spec fn commit_ok(s: Seq<char>) -> bool {
    s.len() == 40 && forall|i: int| 0 <= i < 40 ==> lower_hex_char(#[trigger] s[i])
}

/// The source state is one of the three known words, and it is `unknown`
/// exactly when no commit was recorded.
pub open spec fn build_info_ok(b: BuildInfo) -> bool {
    &&& b.schema_version == 1
    &&& (b.source_state@ == "clean"@ || b.source_state@ == "modified"@ || b.source_state@
        == "unknown"@)
    &&& match b.source_commit {
        Some(c) => commit_ok(c@) && b.source_state@ != "unknown"@,
        None => b.source_state@ == "unknown"@,
    }
}

impl BuildInfo {
    /// The build's values as recorded at compile time; an empty commit
    /// means that none was recorded.
    pub fn new(
        app_version: &'static str,
        target: &'static str,
        commit: &'static str,
        source_state: &'static str,
    ) -> (b: BuildInfo)
        ensures
            b.schema_version == 1,
            b.app_version == app_version,
            b.target == target,
            b.source_commit == if commit@.len() == 0 {
                None::<&'static str>
            } else {
                Some(commit)
            },
            b.source_state == source_state,
    {
        let source_commit = if commit.unicode_len() == 0 {
            None
        } else {
            Some(commit)
        };
        BuildInfo { schema_version: 1, app_version, target, source_commit, source_state }
    }

    /// Whether this identity meets the one exact contract of the command.
    pub fn well_formed(&self) -> (r: bool)
        ensures
            r == build_info_ok(*self),
    {
        if self.schema_version != 1 {
            return false;
        }
        let unknown = str_eq(self.source_state, "unknown");
        let known = str_eq(self.source_state, "clean") || str_eq(self.source_state, "modified")
            || unknown;
        if !known {
            return false;
        }
        match self.source_commit {
            Some(c) => !unknown && commit_is_full(c),
            None => unknown,
        }
    }
}

fn commit_is_full(s: &str) -> (r: bool)
    ensures
        r == commit_ok(s@),
{
    let n = s.unicode_len();
    if n != 40 {
        return false;
    }
    let mut i: usize = 0;
    while i < n
        invariant
            n == s@.len(),
            i <= n,
            forall|j: int| 0 <= j < i ==> lower_hex_char(#[trigger] s@[j]),
        decreases n - i,
    {
        let c = s.get_char(i);
        if !(('0' <= c && c <= '9') || ('a' <= c && c <= 'f')) {
            return false;
        }
        i += 1;
    }
    true
}

} // verus!
