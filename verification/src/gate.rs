//! The authority gate: the one check that stands before every mutation.

use vstd::prelude::*;
use crate::error::CalculatorError;
use crate::identity::Identity;
use crate::state::Calculator;

verus! {

/// Whether `caller` may change `state`: only the stored authority may.
pub open spec fn authorized(state: Calculator, caller: Identity) -> bool {
    caller == state.update_authority
}

/// Lets `caller` through if and only if it is the authority stored in
/// `state`.
pub fn authorize(state: &Calculator, caller: &Identity) -> (outcome: Result<(), CalculatorError>)
    ensures
        outcome == if authorized(*state, *caller) {
            Ok::<(), CalculatorError>(())
        } else {
            Err::<(), CalculatorError>(CalculatorError::WrongPrivileges)
        },
{
    if *caller == state.update_authority {
        Ok(())
    } else {
        Err(CalculatorError::WrongPrivileges)
    }
}

} // verus!
