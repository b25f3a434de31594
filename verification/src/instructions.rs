//! The operations a caller can invoke on a calculator account.
//!
//! Each one takes the accounts it works on as a context. Creation and the
//! computations are open to anyone; the three updates pass the authority
//! gate first, and change nothing unless it lets the caller through.

use vstd::prelude::*;
use crate::arithmetic::checked_result;
use crate::error::CalculatorError;
use crate::event::{CalculatorEvent, EventLog, Operation};
use crate::gate::{authorize, authorized};
use crate::identity::Identity;
use crate::state::{Calculator, CalculatorAccount, Mutation};

verus! {

/// What creating a record needs: the account to create it in, and the
/// caller, who becomes its authority.
#[derive(Debug)]
pub struct InitializeCalculator {
    pub update_authority: Identity,
    pub calculator: CalculatorAccount,
}

/// What changing a record needs: the account that holds it, and the caller,
/// who must be its authority.
#[derive(Debug)]
pub struct ChangeInternalState {
    pub update_authority: Identity,
    pub calculator: CalculatorAccount,
}

/// What a computation needs: the account to read.
#[derive(Debug)]
pub struct Compute {
    pub calculator: CalculatorAccount,
}

/// How a gated update by `caller` ends on an account that holds `stored`.
pub open spec fn mutation_outcome(stored: Option<Calculator>, caller: Identity) -> Result<
    (),
    CalculatorError,
> {
    match stored {
        None => Err(CalculatorError::NotFound),
        Some(record) => if authorized(record, caller) {
            Ok(())
        } else {
            Err(CalculatorError::WrongPrivileges)
        },
    }
}

/// What an account that holds `stored` holds after `caller` has asked for
/// `mutator`: the updated record if the caller is the record's authority,
/// and what it held before if not.
pub open spec fn mutation_effect(
    stored: Option<Calculator>,
    caller: Identity,
    mutator: Mutation,
) -> Option<Calculator> {
    match stored {
        Some(record) => if authorized(record, caller) {
            Some(mutator.apply(record))
        } else {
            stored
        },
        None => None,
    }
}

/// The observation that computing `op` on `record` reports.
pub open spec fn observation(record: Calculator, op: Operation) -> CalculatorEvent {
    CalculatorEvent { x: record.x, y: record.y, result: checked_result(op, record.x, record.y), op }
}

/// How a computation ends on an account that holds `stored`.
pub open spec fn compute_outcome(stored: Option<Calculator>) -> Result<(), CalculatorError> {
    match stored {
        Some(_) => Ok(()),
        None => Err(CalculatorError::NotFound),
    }
}

/// The log after computing `op` on an account that holds `stored`: one
/// observation longer if there is a record, and unchanged if there is none.
pub open spec fn compute_log(
    log: Seq<CalculatorEvent>,
    stored: Option<Calculator>,
    op: Operation,
) -> Seq<CalculatorEvent> {
    match stored {
        Some(record) => log.push(observation(record, op)),
        None => log,
    }
}

/// Creates the record with operands `x` and `y`. The caller becomes its
/// authority. Fails, and changes nothing, if the account already holds a
/// record.
pub fn init_calculator(ctx: &mut InitializeCalculator, x: i64, y: i64) -> (outcome: Result<
    (),
    CalculatorError,
>)
    ensures
        final(ctx).update_authority == old(ctx).update_authority,
        old(ctx).calculator@ is None ==> outcome is Ok && final(ctx).calculator@ == Some(
            (Calculator { x, y, update_authority: old(ctx).update_authority }),
        ),
        old(ctx).calculator@ is Some ==> outcome == Err::<(), CalculatorError>(
            CalculatorError::AlreadyExists,
        ) && final(ctx).calculator@ == old(ctx).calculator@,
{
    let update_authority = ctx.update_authority;
    ctx.calculator.create(x, y, update_authority)
}

/// Applies `mutator` to the record on behalf of the caller named in `ctx`,
/// after the authority gate has let that caller through. A caller who is
/// not the record's authority is refused and the record keeps every field.
pub fn mutate(ctx: &mut ChangeInternalState, mutator: Mutation) -> (outcome: Result<
    (),
    CalculatorError,
>)
    ensures
        final(ctx).update_authority == old(ctx).update_authority,
        outcome == mutation_outcome(old(ctx).calculator@, old(ctx).update_authority),
        final(ctx).calculator@ == mutation_effect(
            old(ctx).calculator@,
            old(ctx).update_authority,
            mutator,
        ),
{
    let state = match ctx.calculator.read() {
        Ok(state) => state,
        Err(e) => {
            return Err(e);
        },
    };
    match authorize(&state, &ctx.update_authority) {
        Ok(()) => ctx.calculator.write(mutator),
        Err(e) => Err(e),
    }
}

/// Overwrites the first operand with `new_x`, if the caller is the record's
/// authority.
pub fn update_x(ctx: &mut ChangeInternalState, new_x: i64) -> (outcome: Result<(), CalculatorError>)
    ensures
        final(ctx).update_authority == old(ctx).update_authority,
        outcome == mutation_outcome(old(ctx).calculator@, old(ctx).update_authority),
        final(ctx).calculator@ == mutation_effect(
            old(ctx).calculator@,
            old(ctx).update_authority,
            Mutation::SetX(new_x),
        ),
{
    mutate(ctx, Mutation::SetX(new_x))
}

/// Overwrites the second operand with `new_y`, if the caller is the record's
/// authority.
pub fn update_y(ctx: &mut ChangeInternalState, new_y: i64) -> (outcome: Result<(), CalculatorError>)
    ensures
        final(ctx).update_authority == old(ctx).update_authority,
        outcome == mutation_outcome(old(ctx).calculator@, old(ctx).update_authority),
        final(ctx).calculator@ == mutation_effect(
            old(ctx).calculator@,
            old(ctx).update_authority,
            Mutation::SetY(new_y),
        ),
{
    mutate(ctx, Mutation::SetY(new_y))
}

/// Hands the record over to `new_authority`, if the caller is the record's
/// authority. From then on only `new_authority` is authorized.
pub fn update_authority(ctx: &mut ChangeInternalState, new_authority: Identity) -> (outcome: Result<
    (),
    CalculatorError,
>)
    ensures
        final(ctx).update_authority == old(ctx).update_authority,
        outcome == mutation_outcome(old(ctx).calculator@, old(ctx).update_authority),
        final(ctx).calculator@ == mutation_effect(
            old(ctx).calculator@,
            old(ctx).update_authority,
            Mutation::SetAuthority(new_authority),
        ),
{
    mutate(ctx, Mutation::SetAuthority(new_authority))
}

/// Computes `op` on the record's operands and appends exactly one
/// observation to `sink`: the operands as they stand, the result, which is
/// absent on overflow and on division by zero, and `op`. The record is not
/// changed. On an account without a record nothing is emitted.
pub fn compute(ctx: &Compute, op: Operation, sink: &mut EventLog) -> (outcome: Result<
    (),
    CalculatorError,
>)
    ensures
        outcome == compute_outcome(ctx.calculator@),
        final(sink)@ == compute_log(old(sink)@, ctx.calculator@, op),
{
    match ctx.calculator.read() {
        Ok(state) => {
            let operand_x: i64 = state.x;
            let operand_y: i64 = state.y;
            let result: Option<i64> = state.evaluate(op);
            sink.emit(operand_x, operand_y, result, op);
            Ok(())
        },
        Err(e) => Err(e),
    }
}

/// Reads the record, adds its operands, and emits the observation.
pub fn addition(ctx: &Compute, sink: &mut EventLog) -> (outcome: Result<(), CalculatorError>)
    ensures
        outcome == compute_outcome(ctx.calculator@),
        final(sink)@ == compute_log(old(sink)@, ctx.calculator@, Operation::Addition),
{
    compute(ctx, Operation::Addition, sink)
}

/// Reads the record, subtracts the second operand from the first, and emits
/// the observation.
pub fn subtraction(ctx: &Compute, sink: &mut EventLog) -> (outcome: Result<(), CalculatorError>)
    ensures
        outcome == compute_outcome(ctx.calculator@),
        final(sink)@ == compute_log(old(sink)@, ctx.calculator@, Operation::Subtraction),
{
    compute(ctx, Operation::Subtraction, sink)
}

/// Reads the record, multiplies its operands, and emits the observation.
pub fn multiplication(ctx: &Compute, sink: &mut EventLog) -> (outcome: Result<(), CalculatorError>)
    ensures
        outcome == compute_outcome(ctx.calculator@),
        final(sink)@ == compute_log(old(sink)@, ctx.calculator@, Operation::Multiplication),
{
    compute(ctx, Operation::Multiplication, sink)
}

/// Reads the record, divides the first operand by the second, and emits the
/// observation.
pub fn division(ctx: &Compute, sink: &mut EventLog) -> (outcome: Result<(), CalculatorError>)
    ensures
        outcome == compute_outcome(ctx.calculator@),
        final(sink)@ == compute_log(old(sink)@, ctx.calculator@, Operation::Division),
{
    compute(ctx, Operation::Division, sink)
}

} // verus!
