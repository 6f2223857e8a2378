//! Which window may drive the focus timer.
use crate::focus::model::{Code, Error};
use crate::text::str_eq;
use vstd::prelude::*;

verus! {

/// Only the settings window may send focus commands.
pub fn allowed(label: &str) -> (r: Result<(), Error>)
    ensures
        r == if label@ == "settings"@ {
            Ok::<(), Error>(())
        } else {
            Err(Error { code: Code::InvalidWindow })
        },
{
    if str_eq(label, "settings") {
        Ok(())
    } else {
        Err(Error::new(Code::InvalidWindow))
    }
}

} // verus!
