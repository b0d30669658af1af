use vstd::prelude::*;

use crate::argument::TransactionArgument;
use crate::error::Error;

verus! {

/// A resolved type, held in its canonical textual form.
#[derive(Clone, Debug, PartialEq, Eq)]
pub struct MoveType {
    pub repr: String,
}

/// Payload bytes, passed through unchanged; on the way out they are written
/// as base64 text.
#[derive(Clone, Debug, PartialEq, Eq)]
pub struct Base64(pub Vec<u8>);

/// The new contents of an argument that a command borrowed mutably, as the
/// execution engine reported them, with the outcome of resolving their type tag.
#[derive(Debug, PartialEq, Eq)]
pub struct MutatedReferenceOutput {
    pub argument: TransactionArgument,
    pub bcs: Vec<u8>,
    pub type_: Result<MoveType, String>,
}

/// One value that a command returned, with the outcome of resolving its type tag.
#[derive(Debug, PartialEq, Eq)]
pub struct ReturnValueOutput {
    pub bcs: Vec<u8>,
    pub type_: Result<MoveType, String>,
}

/// What the execution engine reported for one command, in slot order.
#[derive(Debug, PartialEq, Eq)]
pub struct CommandResult {
    pub mutable_reference_outputs: Vec<MutatedReferenceOutput>,
    pub return_values: Vec<ReturnValueOutput>,
}

/// A mutably borrowed argument's new contents, with its resolved type.
#[derive(Clone, Debug, PartialEq, Eq)]
pub struct DryRunMutation {
    pub input: TransactionArgument,
    pub type_: MoveType,
    pub bcs: Base64,
}

/// A returned value, with its resolved type.
#[derive(Clone, Debug, PartialEq, Eq)]
pub struct DryRunReturn {
    pub type_: MoveType,
    pub bcs: Base64,
}

/// The typed effects of one command.
#[derive(Clone, Debug, PartialEq, Eq)]
pub struct DryRunEffect {
    /// Changes made to arguments that the command borrowed mutably.
    pub mutated_references: Option<Vec<DryRunMutation>>,
    /// Values that the command returned.
    pub return_values: Option<Vec<DryRunReturn>>,
}

/// Every tag of `tags` resolved.
pub open spec fn all_resolved(tags: Seq<Result<MoveType, String>>) -> bool {
    forall|i: int| 0 <= i < tags.len() ==> (#[trigger] tags[i]) is Ok
}

/// `msg` is what the resolver said of the first tag of `tags` that did not resolve.
pub open spec fn first_unresolved(tags: Seq<Result<MoveType, String>>, msg: String) -> bool {
    exists|i: int|
        0 <= i < tags.len() && #[trigger] tags[i] == Err::<MoveType, String>(msg) && all_resolved(
            tags.take(i),
        )
}

/// The type tags of mutated references, in order.
pub open spec fn mutation_tags(s: Seq<MutatedReferenceOutput>) -> Seq<Result<MoveType, String>> {
    s.map_values(|o: MutatedReferenceOutput| o.type_)
}

/// The type tags of return values, in order.
pub open spec fn return_tags(s: Seq<ReturnValueOutput>) -> Seq<Result<MoveType, String>> {
    s.map_values(|o: ReturnValueOutput| o.type_)
}

/// The typed record of a mutated reference whose tag resolved.
pub open spec fn decoded_mutation(o: MutatedReferenceOutput) -> DryRunMutation {
    DryRunMutation { input: o.argument, type_: o.type_->Ok_0, bcs: Base64(o.bcs) }
}

/// The typed record of a return value whose tag resolved.
pub open spec fn decoded_return(o: ReturnValueOutput) -> DryRunReturn {
    DryRunReturn { type_: o.type_->Ok_0, bcs: Base64(o.bcs) }
}

/// The typed records of mutated references, entry for entry.
pub open spec fn decoded_mutations(s: Seq<MutatedReferenceOutput>) -> Seq<DryRunMutation> {
    s.map_values(|o: MutatedReferenceOutput| decoded_mutation(o))
}

/// The typed records of return values, entry for entry.
pub open spec fn decoded_returns(s: Seq<ReturnValueOutput>) -> Seq<DryRunReturn> {
    s.map_values(|o: ReturnValueOutput| decoded_return(o))
}

impl CommandResult {
    /// Every type tag of the command, of mutated references and of return
    /// values alike, resolved.
    pub open spec fn resolves(self) -> bool {
        &&& all_resolved(mutation_tags(self.mutable_reference_outputs@))
        &&& all_resolved(return_tags(self.return_values@))
    }

    /// The error that decoding this command gives: the first unresolved tag
    /// among the mutated references, else the first among the return values.
    pub open spec fn fails_with(self, err: Error) -> bool {
        &&& err is TypeResolution
        &&& {
            ||| first_unresolved(mutation_tags(self.mutable_reference_outputs@), err->TypeResolution_0)
            ||| all_resolved(mutation_tags(self.mutable_reference_outputs@)) && first_unresolved(
                return_tags(self.return_values@),
                err->TypeResolution_0,
            )
        }
    }
}

/// Decoding command `c` gives `r`: the typed record, entry for entry in the
/// order of `c`, when every tag resolved; else the first resolution failure.
pub open spec fn decodes_to(c: CommandResult, r: Result<DryRunEffect, Error>) -> bool {
    match r {
        Ok(e) => {
            &&& c.resolves()
            &&& e.mutated_references is Some
            &&& e.mutated_references->Some_0@ == decoded_mutations(c.mutable_reference_outputs@)
            &&& e.return_values is Some
            &&& e.return_values->Some_0@ == decoded_returns(c.return_values@)
        },
        Err(err) => !c.resolves() && c.fails_with(err),
    }
}

impl DryRunEffect {
    /// Turns one command's reported outputs into its typed effect record.
    /// Any tag that did not resolve aborts the whole command.
    pub fn try_from(result: CommandResult) -> (r: Result<DryRunEffect, Error>)
        ensures
            decodes_to(result, r),
    {
        let CommandResult { mutable_reference_outputs, return_values } = result;
        let ghost muts = mutable_reference_outputs@;
        let ghost rets = return_values@;
        let mut mutated: Vec<DryRunMutation> = Vec::new();
        for o in it: mutable_reference_outputs.into_iter()
            invariant
                it.seq() == muts,
                muts == result.mutable_reference_outputs@,
                mutated@.len() == it.index(),
                forall|j: int| 0 <= j < it.index() ==> (#[trigger] muts[j]).type_ is Ok,
                forall|j: int|
                    0 <= j < it.index() ==> #[trigger] mutated@[j] == decoded_mutation(muts[j]),
        {
            let MutatedReferenceOutput { argument, bcs, type_ } = o;
            match type_ {
                Ok(t) => {
                    mutated.push(DryRunMutation { input: argument, type_: t, bcs: Base64(bcs) });
                },
                Err(msg) => {
                    proof {
                        let i = it.index() as int;
                        let tags = mutation_tags(muts);
                        assert(tags[i] == Err::<MoveType, String>(msg));
                        assert(all_resolved(tags.take(i)));
                        assert(first_unresolved(tags, msg));
                        assert(!all_resolved(tags));
                        assert(result.fails_with(Error::TypeResolution(msg)));
                    }
                    return Err(Error::TypeResolution(msg));
                },
            }
        }
        assert(all_resolved(mutation_tags(muts)));
        assert(mutated@ =~= decoded_mutations(muts));
        let mut returned: Vec<DryRunReturn> = Vec::new();
        for o in it: return_values.into_iter()
            invariant
                it.seq() == rets,
                muts == result.mutable_reference_outputs@,
                rets == result.return_values@,
                all_resolved(mutation_tags(muts)),
                returned@.len() == it.index(),
                forall|j: int| 0 <= j < it.index() ==> (#[trigger] rets[j]).type_ is Ok,
                forall|j: int|
                    0 <= j < it.index() ==> #[trigger] returned@[j] == decoded_return(rets[j]),
        {
            let ReturnValueOutput { bcs, type_ } = o;
            match type_ {
                Ok(t) => {
                    returned.push(DryRunReturn { type_: t, bcs: Base64(bcs) });
                },
                Err(msg) => {
                    proof {
                        let i = it.index() as int;
                        let tags = return_tags(rets);
                        assert(tags[i] == Err::<MoveType, String>(msg));
                        assert(all_resolved(tags.take(i)));
                        assert(first_unresolved(tags, msg));
                        assert(!all_resolved(tags));
                        assert(result.fails_with(Error::TypeResolution(msg)));
                    }
                    return Err(Error::TypeResolution(msg));
                },
            }
        }
        assert(all_resolved(return_tags(rets)));
        assert(returned@ =~= decoded_returns(rets));
        Ok(DryRunEffect { mutated_references: Some(mutated), return_values: Some(returned) })
    }
}

} // verus!
