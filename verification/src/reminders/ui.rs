//! Caller checks for the reminder windows' native commands.
use crate::reminders::model::{Code, Error};
use crate::text::str_eq;
use vstd::prelude::*;

verus! {

/// Only the expected window may call.
pub fn require_window(actual: &str, expected: &str) -> (r: Result<(), Error>)
    ensures
        r == if actual@ == expected@ {
            Ok::<(), Error>(())
        } else {
            Err(Error { code: Code::InvalidWindow })
        },
{
    if str_eq(actual, expected) {
        Ok(())
    } else {
        Err(Error::new(Code::InvalidWindow))
    }
}

/// A focus change counts as a live completion only when it is timely,
/// completed now, and carries no worker error.
pub fn completion_signal(change: &crate::focus::service::Change, timely: bool) -> (r: Option<u64>)
    ensures
        r == if timely && change.completed_now && change.error is None {
            Some(change.snapshot.revision)
        } else {
            None::<u64>
        },
{
    if timely && change.completed_now && change.error.is_none() {
        Some(change.snapshot.revision)
    } else {
        None
    }
}

} // verus!
