use vstd::prelude::*;

use crate::effect::{CommandResult, DryRunEffect, decodes_to, mutation_tags, return_tags};
use crate::error::Error;
use crate::result::{DryRunResult, ExecutionOutcome, all_commands_resolve, assembles_to};

verus! {

/// A successful assembly yields one effect record per command, in command
/// order: record `i` is the decoding of command `i`.
pub proof fn effect_list_mirrors_commands<Fx, Tx, Ev>(
    outcome: ExecutionOutcome<Fx, Tx, Ev>,
    r: Result<DryRunResult<Fx, Tx, Ev>, Error>,
)
    requires
        assembles_to(outcome, r),
        r is Ok,
    ensures
        outcome.results is Some,
        r->Ok_0.results is Some,
        r->Ok_0.results->Some_0@.len() == outcome.results->Some_0@.len(),
        forall|i: int|
            0 <= i < outcome.results->Some_0@.len() ==> decodes_to(
                #[trigger] outcome.results->Some_0@[i],
                Ok(r->Ok_0.results->Some_0@[i]),
            ),
{
}

/// A decoded command holds one mutated-reference record per mutated argument
/// and one return record per returned value, in the same order, each with the
/// argument it came from and exactly the bytes that were reported.
pub proof fn entries_mirror_command(c: CommandResult, e: DryRunEffect)
    requires
        decodes_to(c, Ok(e)),
    ensures
        e.mutated_references is Some,
        e.mutated_references->Some_0@.len() == c.mutable_reference_outputs@.len(),
        forall|i: int|
            0 <= i < c.mutable_reference_outputs@.len() ==> {
                &&& (#[trigger] e.mutated_references->Some_0@[i]).input
                    == c.mutable_reference_outputs@[i].argument
                &&& e.mutated_references->Some_0@[i].type_
                    == c.mutable_reference_outputs@[i].type_->Ok_0
                &&& e.mutated_references->Some_0@[i].bcs.0@
                    == c.mutable_reference_outputs@[i].bcs@
            },
        e.return_values is Some,
        e.return_values->Some_0@.len() == c.return_values@.len(),
        forall|i: int|
            0 <= i < c.return_values@.len() ==> {
                &&& (#[trigger] e.return_values->Some_0@[i]).type_
                    == c.return_values@[i].type_->Ok_0
                &&& e.return_values->Some_0@[i].bcs.0@ == c.return_values@[i].bcs@
            },
{
}

/// An outcome without a per-command result list fails to assemble, with the
/// structural-absence error.
pub proof fn absent_results_fail<Fx, Tx, Ev>(
    outcome: ExecutionOutcome<Fx, Tx, Ev>,
    r: Result<DryRunResult<Fx, Tx, Ev>, Error>,
)
    requires
        assembles_to(outcome, r),
        outcome.results is None,
    ensures
        r == Err::<DryRunResult<Fx, Tx, Ev>, Error>(Error::NoExecutionResults),
{
}

/// A single type tag that does not resolve, in any command, makes the whole
/// assembly fail with a resolution error: no effect list comes back.
pub proof fn one_unresolved_tag_fails_all<Fx, Tx, Ev>(
    outcome: ExecutionOutcome<Fx, Tx, Ev>,
    r: Result<DryRunResult<Fx, Tx, Ev>, Error>,
    command: int,
    slot: int,
)
    requires
        assembles_to(outcome, r),
        outcome.results is Some,
        0 <= command < outcome.results->Some_0@.len(),
        ({
            let c = outcome.results->Some_0@[command];
            ||| 0 <= slot < c.mutable_reference_outputs@.len()
                && c.mutable_reference_outputs@[slot].type_ is Err
            ||| 0 <= slot < c.return_values@.len() && c.return_values@[slot].type_ is Err
        }),
    ensures
        r is Err,
        r->Err_0 is TypeResolution,
{
    let cs = outcome.results->Some_0@;
    let c = cs[command];
    if 0 <= slot < c.mutable_reference_outputs@.len()
        && c.mutable_reference_outputs@[slot].type_ is Err {
        assert(mutation_tags(c.mutable_reference_outputs@)[slot] is Err);
    } else {
        assert(return_tags(c.return_values@)[slot] is Err);
    }
    assert(!cs[command].resolves());
    let i = choose|i: int|
        0 <= i < cs.len() && #[trigger] decodes_to(cs[i], Err(r->Err_0))
            && all_commands_resolve(cs.take(i));
    assert(decodes_to(cs[i], Err(r->Err_0)));
}

/// Once every command has decoded, a bad effects artifact fails the assembly
/// with an effects error, and good effects with a bad transaction data
/// artifact fail it with a transaction data error: the two are told apart.
pub proof fn artifact_failures_are_distinguished<Fx, Tx, Ev>(
    outcome: ExecutionOutcome<Fx, Tx, Ev>,
    r: Result<DryRunResult<Fx, Tx, Ev>, Error>,
)
    requires
        assembles_to(outcome, r),
        outcome.results is Some,
        all_commands_resolve(outcome.results->Some_0@),
    ensures
        outcome.effects is Err ==> r == Err::<DryRunResult<Fx, Tx, Ev>, Error>(
            Error::EffectsDecode(outcome.effects->Err_0),
        ),
        outcome.effects is Ok && outcome.transaction_data is Err ==> r == Err::<
            DryRunResult<Fx, Tx, Ev>,
            Error,
        >(Error::TransactionDataDecode(outcome.transaction_data->Err_0)),
        Error::EffectsDecode(outcome.effects->Err_0) != Error::TransactionDataDecode(
            outcome.transaction_data->Err_0,
        ),
{
}

/// With an empty command list, the execution's own error string comes through
/// unchanged beside the decoded transaction; the artifacts are still decoded,
/// and a bad one still fails the assembly.
pub proof fn application_error_passes_through<Fx, Tx, Ev>(
    outcome: ExecutionOutcome<Fx, Tx, Ev>,
    r: Result<DryRunResult<Fx, Tx, Ev>, Error>,
)
    requires
        assembles_to(outcome, r),
        outcome.results is Some,
        outcome.results->Some_0@.len() == 0,
    ensures
        outcome.effects is Ok && outcome.transaction_data is Ok ==> {
            &&& r is Ok
            &&& r->Ok_0.error == outcome.error
            &&& r->Ok_0.results is Some
            &&& r->Ok_0.results->Some_0@.len() == 0
            &&& r->Ok_0.transaction is Some
            &&& r->Ok_0.transaction->Some_0.effects == outcome.effects->Ok_0
            &&& r->Ok_0.transaction->Some_0.tx_data == outcome.transaction_data->Ok_0
        },
        outcome.effects is Err ==> r->Err_0 is EffectsDecode,
        outcome.effects is Ok && outcome.transaction_data is Err
            ==> r->Err_0 is TransactionDataDecode,
{
}

} // verus!
