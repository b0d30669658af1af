use vstd::prelude::*;

verus! {

/// Why a dry run's outcome could not be turned into a typed result.
///
/// Each variant names the stage that failed, so that a caller can tell them
/// apart; none of them is the application-level error that the execution
/// itself reported, which is data carried in the result.
#[derive(Clone, Debug, PartialEq, Eq)]
pub enum Error {
    /// The execution engine returned no per-command results at all.
    NoExecutionResults,
    /// A payload's type tag could not be resolved; holds the resolver's message.
    TypeResolution(String),
    /// The effects artifact did not deserialize; holds the decoder's message.
    EffectsDecode(String),
    /// The transaction data artifact did not deserialize; holds the decoder's message.
    TransactionDataDecode(String),
}

} // verus!
