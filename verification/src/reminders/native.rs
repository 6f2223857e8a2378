//! Which page may send which reminder command.
use crate::reminders::model::Command;
use crate::text::str_eq;
use vstd::prelude::*;

verus! {

pub open spec fn command_allowed_spec(label: Seq<char>, command: Command) -> bool {
    if label == "settings"@ {
        command is UpdateSettings || command is SetPaused
    } else if label == "reminder"@ {
        command is Complete || command is SnoozeAll || command is Dismiss || command is ShowPending
    } else {
        false
    }
}

/// Settings may change settings and pause; the bubble may complete, snooze,
/// dismiss and show pending; any other window nothing.
pub fn command_allowed(label: &str, command: &Command) -> (r: bool)
    ensures
        r == command_allowed_spec(label@, *command),
{
    if str_eq(label, "settings") {
        match command {
            Command::UpdateSettings { .. } | Command::SetPaused { .. } => true,
            _ => false,
        }
    } else if str_eq(label, "reminder") {
        match command {
            Command::Complete { .. } | Command::SnoozeAll {  } | Command::Dismiss { .. }
            | Command::ShowPending {  } => true,
            _ => false,
        }
    } else {
        false
    }
}

} // verus!
