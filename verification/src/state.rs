//! The calculator record, the updates it admits, and the account that
//! stores it.

use vstd::prelude::*;
use crate::arithmetic::{checked_result, lemma_division_absent_exactly, truncated_quotient};
use crate::error::CalculatorError;
use crate::event::Operation;
use crate::identity::Identity;

verus! {

/// The stored record: two operands and the identity that may change them.
///
/// The operands are independent and may hold any signed 64-bit value.
#[derive(Clone, Copy, Debug, PartialEq, Eq)]
pub struct Calculator {
    pub x: i64,
    pub y: i64,
    pub update_authority: Identity,
}

impl Calculator {
    /// `x + y`, absent where the sum does not fit in 64 bits.
    pub fn addition(&self) -> (result: Option<i64>)
        ensures
            result == checked_result(Operation::Addition, self.x, self.y),
            result == if i64::MIN <= self.x + self.y <= i64::MAX {
                Some((self.x + self.y) as i64)
            } else {
                None
            },
    {
        self.x.checked_add(self.y)
    }

    /// `x - y`, absent where the difference does not fit in 64 bits.
    pub fn subtraction(&self) -> (result: Option<i64>)
        ensures
            result == checked_result(Operation::Subtraction, self.x, self.y),
            result == if i64::MIN <= self.x - self.y <= i64::MAX {
                Some((self.x - self.y) as i64)
            } else {
                None
            },
    {
        self.x.checked_sub(self.y)
    }

    /// `x * y`, absent where the product does not fit in 64 bits.
    pub fn multiplication(&self) -> (result: Option<i64>)
        ensures
            result == checked_result(Operation::Multiplication, self.x, self.y),
            result == if i64::MIN <= self.x * self.y <= i64::MAX {
                Some((self.x * self.y) as i64)
            } else {
                None
            },
    {
        self.x.checked_mul(self.y)
    }

    /// `x / y` rounded toward zero. Absent where `y` is zero, and in the one
    /// case where the quotient does not fit: the least 64-bit value divided
    /// by minus one.
    pub fn division(&self) -> (result: Option<i64>)
        ensures
            result == checked_result(Operation::Division, self.x, self.y),
            result == if self.y == 0 || (self.x == i64::MIN && self.y == -1) {
                None
            } else {
                Some(truncated_quotient(self.x as int, self.y as int) as i64)
            },
    {
        proof {
            lemma_division_absent_exactly(self.x, self.y);
        }
        self.x.checked_div(self.y)
    }

    /// The result of `op` on the record's operands.
    pub fn evaluate(&self, op: Operation) -> (result: Option<i64>)
        ensures
            result == checked_result(op, self.x, self.y),
    {
        match op {
            Operation::Addition => self.addition(),
            Operation::Subtraction => self.subtraction(),
            Operation::Multiplication => self.multiplication(),
            Operation::Division => self.division(),
        }
    }
}

/// A field-level update of a record: one field gets a new value and the
/// other two stay.
#[derive(Clone, Copy, Debug, PartialEq, Eq)]
pub enum Mutation {
    /// Overwrite the first operand.
    SetX(i64),
    /// Overwrite the second operand.
    SetY(i64),
    /// Hand the record over to another authority.
    SetAuthority(Identity),
}

impl Mutation {
    /// The record that `record` becomes under this update.
    pub open spec fn apply(self, record: Calculator) -> Calculator {
        match self {
            Mutation::SetX(x) => Calculator { x, ..record },
            Mutation::SetY(y) => Calculator { y, ..record },
            Mutation::SetAuthority(update_authority) => Calculator { update_authority, ..record },
        }
    }

    /// Computes the record that `record` becomes under this update.
    pub fn updated(&self, record: Calculator) -> (next: Calculator)
        ensures
            next == self.apply(record),
    {
        match *self {
            Mutation::SetX(x) => Calculator { x, y: record.y, update_authority: record.update_authority },
            Mutation::SetY(y) => Calculator { x: record.x, y, update_authority: record.update_authority },
            Mutation::SetAuthority(update_authority) => Calculator {
                x: record.x,
                y: record.y,
                update_authority,
            },
        }
    }
}

/// The place where one record is stored.
///
/// An account starts out uninitialized, holds a record from the moment one
/// is created in it, and never goes back: nothing here deletes a record.
/// The view is the record it holds, if any.
#[derive(Debug)]
pub struct CalculatorAccount {
    record: Option<Calculator>,
}

impl View for CalculatorAccount {
    type V = Option<Calculator>;

    closed spec fn view(&self) -> Option<Calculator> {
        self.record
    }
}

impl CalculatorAccount {
    /// An account that holds no record yet.
    pub fn new() -> (account: CalculatorAccount)
        ensures
            account@ is None,
    {
        CalculatorAccount { record: None }
    }

    /// Whether a record has been created in this account.
    pub fn is_initialized(&self) -> (initialized: bool)
        ensures
            initialized == self@ is Some,
    {
        self.record.is_some()
    }

    /// Creates the record, with `creator` as its authority. An account that
    /// already holds a record refuses and keeps it untouched.
    pub fn create(&mut self, initial_x: i64, initial_y: i64, creator: Identity) -> (outcome: Result<
        (),
        CalculatorError,
    >)
        ensures
            old(self)@ is None ==> outcome is Ok && final(self)@ == Some(
                (Calculator { x: initial_x, y: initial_y, update_authority: creator }),
            ),
            old(self)@ is Some ==> outcome == Err::<(), CalculatorError>(
                CalculatorError::AlreadyExists,
            ) && final(self)@ == old(self)@,
    {
        if self.record.is_some() {
            return Err(CalculatorError::AlreadyExists);
        }
        self.record = Some(Calculator { x: initial_x, y: initial_y, update_authority: creator });
        Ok(())
    }

    /// The record as it stands now.
    pub fn read(&self) -> (outcome: Result<Calculator, CalculatorError>)
        ensures
            outcome == match self@ {
                Some(record) => Ok::<Calculator, CalculatorError>(record),
                None => Err::<Calculator, CalculatorError>(CalculatorError::NotFound),
            },
    {
        match self.record {
            Some(record) => Ok(record),
            None => Err(CalculatorError::NotFound),
        }
    }

    /// Applies `mutator` to the record and overwrites it with the outcome.
    /// The earlier values are gone. An uninitialized account stays so.
    pub fn write(&mut self, mutator: Mutation) -> (outcome: Result<(), CalculatorError>)
        ensures
            outcome == match old(self)@ {
                Some(_) => Ok::<(), CalculatorError>(()),
                None => Err::<(), CalculatorError>(CalculatorError::NotFound),
            },
            final(self)@ == match old(self)@ {
                Some(record) => Some(mutator.apply(record)),
                None => None,
            },
    {
        match self.record {
            Some(record) => {
                self.record = Some(mutator.updated(record));
                Ok(())
            },
            None => Err(CalculatorError::NotFound),
        }
    }
}

} // verus!
