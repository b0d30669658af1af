//! Turns the raw outcome of a dry run (per-command outputs with resolved type
//! tags, and the two decoded binary artifacts) into a typed result, all or
//! nothing, keeping every list in the order the execution reported it.

pub mod argument;
pub mod effect;
pub mod error;
pub mod laws;
pub mod result;

pub use argument::TransactionArgument;
pub use effect::{
    Base64, CommandResult, DryRunEffect, DryRunMutation, DryRunReturn, MoveType,
    MutatedReferenceOutput, ReturnValueOutput,
};
pub use error::Error;
pub use result::{DryRunResult, ExecutionOutcome, TransactionBlock};
