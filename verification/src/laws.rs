//! What holds of the operations on a record taken together, proved from the
//! models that their contracts are stated in.

use vstd::prelude::*;
use crate::arithmetic::checked_result;
use crate::error::CalculatorError;
use crate::event::{CalculatorEvent, Operation};
use crate::gate::authorized;
use crate::identity::Identity;
use crate::instructions::{compute_log, compute_outcome, mutation_effect, mutation_outcome};
use crate::state::{Calculator, Mutation};

verus! {

/// A mutation asked for by anyone but the record's authority fails for want
/// of privileges and leaves the record exactly as it was.
pub proof fn lemma_unauthorized_mutation_changes_nothing(
    record: Calculator,
    caller: Identity,
    mutator: Mutation,
)
    requires
        caller != record.update_authority,
    ensures
        mutation_outcome(Some(record), caller) == Err::<(), CalculatorError>(
            CalculatorError::WrongPrivileges,
        ),
        mutation_effect(Some(record), caller, mutator) == Some(record),
{
}

/// A mutation fails for want of privileges exactly when there is a record
/// and the caller is not its authority.
pub proof fn lemma_refused_exactly_when_unauthorized(stored: Option<Calculator>, caller: Identity)
    ensures
        mutation_outcome(stored, caller) == Err::<(), CalculatorError>(
            CalculatorError::WrongPrivileges,
        ) <==> stored is Some && caller != stored->0.update_authority,
{
}

/// After the authority has handed the record over, the new authority's
/// mutations succeed and take effect.
pub proof fn lemma_new_authority_may_mutate(
    record: Calculator,
    caller: Identity,
    new_authority: Identity,
    mutator: Mutation,
)
    requires
        mutation_outcome(Some(record), caller) is Ok,
    ensures
        mutation_effect(Some(record), caller, Mutation::SetAuthority(new_authority)) is Some,
        ({
            let handed_over = mutation_effect(
                Some(record),
                caller,
                Mutation::SetAuthority(new_authority),
            );
            &&& mutation_outcome(handed_over, new_authority) is Ok
            &&& mutation_effect(handed_over, new_authority, mutator) == Some(
                mutator.apply(handed_over->0),
            )
        }),
{
}

/// After the authority has handed the record over to someone else, its own
/// mutations fail for want of privileges and change nothing.
pub proof fn lemma_old_authority_may_not_mutate(
    record: Calculator,
    caller: Identity,
    new_authority: Identity,
    mutator: Mutation,
)
    requires
        mutation_outcome(Some(record), caller) is Ok,
        new_authority != caller,
    ensures
        ({
            let handed_over = mutation_effect(
                Some(record),
                caller,
                Mutation::SetAuthority(new_authority),
            );
            &&& mutation_outcome(handed_over, caller) == Err::<(), CalculatorError>(
                CalculatorError::WrongPrivileges,
            )
            &&& mutation_effect(handed_over, caller, mutator) == handed_over
        }),
{
}

/// The authority of a record changes only through an authorized handover: a
/// mutation that leaves the record with another authority was a handover
/// asked for by the authority of the time.
pub proof fn lemma_authority_changes_only_by_handover(
    record: Calculator,
    caller: Identity,
    mutator: Mutation,
)
    ensures
        mutation_effect(Some(record), caller, mutator) matches Some(next) && (
        next.update_authority != record.update_authority ==> authorized(record, caller)
            && mutator == Mutation::SetAuthority(next.update_authority)),
{
}

/// A mutation never creates a record and never deletes one.
pub proof fn lemma_mutation_keeps_phase(
    stored: Option<Calculator>,
    caller: Identity,
    mutator: Mutation,
)
    ensures
        mutation_effect(stored, caller, mutator) is Some <==> stored is Some,
{
}

/// A computation on a record succeeds and emits exactly one observation:
/// the log grows by one entry, which comes last, and the entries before it
/// are the old log. The observation carries the record's operands as they
/// stand, the operation that was asked for, and its checked result.
pub proof fn lemma_compute_emits_one_observation(
    log: Seq<CalculatorEvent>,
    record: Calculator,
    op: Operation,
)
    ensures
        compute_outcome(Some(record)) is Ok,
        compute_log(log, Some(record), op).len() == log.len() + 1,
        compute_log(log, Some(record), op).drop_last() == log,
        compute_log(log, Some(record), op).last() == (CalculatorEvent {
            x: record.x,
            y: record.y,
            result: checked_result(op, record.x, record.y),
            op,
        }),
{
    assert(compute_log(log, Some(record), op).drop_last() =~= log);
}

} // verus!
