//! Checking the arguments of a call.
use crate::parse_tree::functions::Function;
use crate::parse_tree::language_types::ValueType;
use crate::runtime_tree::language_types::type_of;
use crate::runtime::language_types::ValueTypeInstance;
use vstd::prelude::*;

verus! {

/// Why arguments do not fit a function's parameters.
#[derive(Debug, Clone, Copy, PartialEq, Eq, Structural)]
pub enum ArgumentError {
    /// There are more or fewer arguments than parameters.
    WrongArgumentCount,
    /// The argument at this position has another type than its parameter.
    WrongArgumentType(usize),
}

/// The first position at which an argument's type differs from its parameter's,
/// from `i` on, if there is one.
pub open spec fn first_mismatch(params: Seq<ValueType>, args: Seq<ValueTypeInstance>, i: nat) -> Option<nat>
    decreases params.len() - i,
{
    if i >= params.len() {
        None
    } else if type_of(args[i as int]) != params[i as int] {
        Some(i)
    } else {
        first_mismatch(params, args, i + 1)
    }
}

/// What checking `args` against `params` gives: an error for a count that
/// differs, else one naming the first argument of another type, else success.
pub open spec fn spec_check_arguments(params: Seq<ValueType>, args: Seq<ValueTypeInstance>) -> Result<(), ArgumentError> {
    if args.len() != params.len() {
        Err(ArgumentError::WrongArgumentCount)
    } else {
        match first_mismatch(params, args, 0) {
            Some(i) => Err(ArgumentError::WrongArgumentType(i as usize)),
            None => Ok(()),
        }
    }
}

/// `first_mismatch` finds nothing exactly when every argument from `i` on has its
/// parameter's type.
pub proof fn lemma_first_mismatch(params: Seq<ValueType>, args: Seq<ValueTypeInstance>, i: nat)
    requires
        args.len() == params.len(),
    ensures
        first_mismatch(params, args, i) is None <==> forall|j: int| i <= j < params.len() ==> type_of(args[j]) == params[j],
        first_mismatch(params, args, i) matches Some(k) ==> i <= k < params.len() && type_of(args[k as int]) != params[k as int],
    decreases params.len() - i,
{
    if i < params.len() {
        lemma_first_mismatch(params, args, i + 1);
    }
}

/// Checks that arguments match parameters in number and, one by one, in type.
pub fn check_argument_types(params: &Vec<ValueType>, arguments: &Vec<ValueTypeInstance>) -> (res: Result<(), ArgumentError>)
    ensures
        res == spec_check_arguments(params@, arguments@),
        res is Ok <==> arguments@.len() == params@.len() && forall|j: int|
            0 <= j < arguments@.len() ==> type_of(#[trigger] arguments@[j]) == params@[j],
{
    if arguments.len() != params.len() {
        return Err(ArgumentError::WrongArgumentCount);
    }
    proof {
        lemma_first_mismatch(params@, arguments@, 0);
    }
    let mut i: usize = 0;
    while i < params.len()
        invariant
            i <= params.len(),
            arguments.len() == params.len(),
            first_mismatch(params@, arguments@, 0) == first_mismatch(params@, arguments@, i as nat),
        decreases params.len() - i,
    {
        if arguments[i].value_type() != params[i] {
            assert(first_mismatch(params@, arguments@, i as nat) == Some(i as nat));
            return Err(ArgumentError::WrongArgumentType(i));
        }
        i = i + 1;
    }
    Ok(())
}

impl Function {
    /// Checks that the arguments match the function's parameters in number and,
    /// one by one, in type.
    pub fn check_arguments(&self, arguments: &Vec<ValueTypeInstance>) -> (res: Result<(), ArgumentError>)
        ensures
            res == spec_check_arguments(self.signature.parameters@, arguments@),
            res is Ok <==> arguments@.len() == self.signature.parameters@.len() && forall|j: int|
                0 <= j < arguments@.len() ==> type_of(#[trigger] arguments@[j]) == self.signature.parameters@[j],
    {
        check_argument_types(&self.signature.parameters, arguments)
    }
}

} // verus!
