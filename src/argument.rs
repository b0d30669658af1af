use vstd::prelude::*;

verus! {

/// A reference to a value that a command of a programmable transaction reads
/// or borrows: the gas coin, one of the transaction's inputs, the result of an
/// earlier command, or one element of an earlier command's results.
#[derive(Clone, Copy, Debug, PartialEq, Eq, Structural)]
pub enum TransactionArgument {
    GasCoin,
    Input(u16),
    Result(u16),
    NestedResult(u16, u16),
}

} // verus!
