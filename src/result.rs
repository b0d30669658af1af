use vstd::prelude::*;

use crate::effect::{CommandResult, DryRunEffect, decodes_to};
use crate::error::Error;

verus! {

/// The raw record of a dry run, as the execution engine returned it, with its
/// two binary artifacts already put through their canonical decoders.
///
/// `Fx` is the decoded effects artifact, `Tx` the decoded transaction data and
/// `Ev` an event in its output shape.
#[derive(Debug, PartialEq, Eq)]
pub struct ExecutionOutcome<Fx, Tx, Ev> {
    /// The error that the execution itself reported, if any.
    pub error: Option<String>,
    /// What each command produced, in command order; `None` where the engine
    /// populated no such list at all.
    pub results: Option<Vec<CommandResult>>,
    /// The events that the execution emitted.
    pub events: Vec<Ev>,
    /// The effects artifact, or the decoder's message where its bytes did not decode.
    pub effects: Result<Fx, String>,
    /// The transaction data artifact, or the decoder's message where its bytes
    /// did not decode.
    pub transaction_data: Result<Tx, String>,
}

/// The transaction that a dry run executed, with what it did.
#[derive(Clone, Debug, PartialEq, Eq)]
pub struct TransactionBlock<Fx, Tx, Ev> {
    pub tx_data: Tx,
    pub effects: Fx,
    pub events: Vec<Ev>,
}

/// The typed result of a dry run.
#[derive(Clone, Debug, PartialEq, Eq)]
pub struct DryRunResult<Fx, Tx, Ev> {
    /// The error that occurred during the dry run's execution, if any.
    pub error: Option<String>,
    /// The effects of each command, in command order.
    pub results: Option<Vec<DryRunEffect>>,
    /// The transaction that the dry run executed.
    pub transaction: Option<TransactionBlock<Fx, Tx, Ev>>,
}

/// Every command of `cs` decodes.
pub open spec fn all_commands_resolve(cs: Seq<CommandResult>) -> bool {
    forall|i: int| 0 <= i < cs.len() ==> (#[trigger] cs[i]).resolves()
}

/// `err` is the error of the first command of `cs` that does not decode.
pub open spec fn first_failing_command(cs: Seq<CommandResult>, err: Error) -> bool {
    exists|i: int|
        0 <= i < cs.len() && #[trigger] decodes_to(cs[i], Err(err)) && all_commands_resolve(
            cs.take(i),
        )
}

/// `es` holds the typed record of each command of `cs`, in the same order.
pub open spec fn effects_of(cs: Seq<CommandResult>, es: Seq<DryRunEffect>) -> bool {
    &&& es.len() == cs.len()
    &&& forall|i: int| 0 <= i < cs.len() ==> decodes_to(#[trigger] cs[i], Ok(es[i]))
}

/// Assembling `o` gives `r`. The stages are tried in turn and the first that
/// fails decides the error: the per-command list must be there, each command
/// must decode, then the effects artifact, then the transaction data.
pub open spec fn assembles_to<Fx, Tx, Ev>(
    o: ExecutionOutcome<Fx, Tx, Ev>,
    r: Result<DryRunResult<Fx, Tx, Ev>, Error>,
) -> bool {
    match o.results {
        None => r == Err::<DryRunResult<Fx, Tx, Ev>, Error>(Error::NoExecutionResults),
        Some(cs) => if !all_commands_resolve(cs@) {
            r is Err && first_failing_command(cs@, r->Err_0)
        } else if o.effects is Err {
            r == Err::<DryRunResult<Fx, Tx, Ev>, Error>(Error::EffectsDecode(o.effects->Err_0))
        } else if o.transaction_data is Err {
            r == Err::<DryRunResult<Fx, Tx, Ev>, Error>(
                Error::TransactionDataDecode(o.transaction_data->Err_0),
            )
        } else {
            &&& r is Ok
            &&& r->Ok_0.error == o.error
            &&& r->Ok_0.results is Some
            &&& effects_of(cs@, r->Ok_0.results->Some_0@)
            &&& r->Ok_0.transaction == Some(
                TransactionBlock {
                    tx_data: o.transaction_data->Ok_0,
                    effects: o.effects->Ok_0,
                    events: o.events,
                },
            )
        },
    }
}

impl<Fx, Tx, Ev> DryRunResult<Fx, Tx, Ev> {
    /// Turns a dry run's raw outcome into its typed result, or the error of
    /// the first stage that failed; never a partial result.
    pub fn try_from(outcome: ExecutionOutcome<Fx, Tx, Ev>) -> (r: Result<Self, Error>)
        ensures
            assembles_to(outcome, r),
    {
        let ExecutionOutcome { error, results, events, effects, transaction_data } = outcome;
        let commands = match results {
            Some(commands) => commands,
            None => return Err(Error::NoExecutionResults),
        };
        let ghost cs = commands@;
        let mut decoded: Vec<DryRunEffect> = Vec::new();
        for command in it: commands.into_iter()
            invariant
                it.seq() == cs,
                outcome.results == Some(commands),
                cs == commands@,
                decoded@.len() == it.index(),
                forall|j: int| 0 <= j < it.index() ==> (#[trigger] cs[j]).resolves(),
                forall|j: int|
                    0 <= j < it.index() ==> decodes_to(#[trigger] cs[j], Ok(decoded@[j])),
        {
            match DryRunEffect::try_from(command) {
                Ok(effect) => {
                    decoded.push(effect);
                },
                Err(err) => {
                    proof {
                        let i = it.index() as int;
                        assert(decodes_to(cs[i], Err(err)));
                        assert(all_commands_resolve(cs.take(i)));
                        assert(first_failing_command(cs, err));
                    }
                    return Err(err);
                },
            }
        }
        assert(all_commands_resolve(cs));
        let effects = match effects {
            Ok(effects) => effects,
            Err(msg) => return Err(Error::EffectsDecode(msg)),
        };
        let tx_data = match transaction_data {
            Ok(tx_data) => tx_data,
            Err(msg) => return Err(Error::TransactionDataDecode(msg)),
        };
        Ok(
            DryRunResult {
                error,
                results: Some(decoded),
                transaction: Some(TransactionBlock { tx_data, effects, events }),
            },
        )
    }
}

} // verus!
