//! The ways in which an operation on a calculator record can fail.

use vstd::prelude::*;

verus! {

/// Why an operation did not run.
///
/// An arithmetic overflow or a division by zero is not among these: a
/// computation that yields no number has still run, and reports an absent
/// result.
#[derive(Clone, Copy, Debug, PartialEq, Eq, Structural)]
pub enum CalculatorError {
    /// The caller is not the authority stored in the record.
    WrongPrivileges,
    /// The account already holds a record, so none can be created in it.
    AlreadyExists,
    /// The account holds no record yet.
    NotFound,
}

} // verus!
