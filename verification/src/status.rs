//! Interpreting the status code of a storage operation.

use vstd::prelude::*;
use crate::error::{outcome_view, Error, ErrorView};

verus! {

/// The only status code that counts as success.
pub const SUCCESS: u16 = 200;

/// What a status code means: 200 is success, every other code, other
/// 2xx codes included, is a failure that carries the code.
pub open spec fn code_outcome(code: u16) -> Result<(), ErrorView> {
    if code == SUCCESS {
        Ok(())
    } else {
        Err(ErrorView::RemoteStatus(code))
    }
}

/// Accepts exactly the status code 200. This is an equality test, not a
/// range test: 201 and 204 are rejected like any other code.
pub fn check_code(code: u16) -> (outcome: Result<(), Error>)
    ensures
        code == 200 ==> outcome == Ok::<(), Error>(()),
        code != 200 ==> outcome == Err::<(), Error>(Error::RemoteStatus(code)),
        outcome_view(outcome) == code_outcome(code),
{
    if code == SUCCESS {
        Ok(())
    } else {
        Err(Error::RemoteStatus(code))
    }
}

} // verus!
