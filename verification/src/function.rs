//! Native callables and the handle that gives them value semantics.
//!
//! The callables form a closed set of kinds, and no kind keeps state between
//! calls. A call therefore never changes the callable, and its result does not
//! depend on how many copies of the handle exist.

use crate::error::outcome;
use crate::error::Fault;
use crate::error::ObjectError;
use crate::object::models;
use crate::object::sum;
use crate::object::Object;
use crate::object::Value;
use vstd::prelude::*;

verus! {

/// The closed set of native callables. A kind without fields has no state, so
/// two callables of one such kind are always the same callable.
#[derive(Clone, Copy, Debug, PartialEq, Eq, Hash, Structural)]
pub enum Callable {
    /// Adds its first two arguments.
    NativeAdd,
    /// Compares its first two arguments for equality.
    NativeEqual,
}

/// A handle on one native callable. Copies of a handle stand for the same
/// callable and compare equal.
#[derive(Clone, Copy, Debug, PartialEq, Eq, Hash, Structural)]
pub struct Function {
    pub callable: Callable,
}

/// What a callable gives for a list of arguments. Both kinds read the first
/// two arguments and ignore the rest; with fewer than two they fail.
pub open spec fn applied(callable: Callable, args: Seq<Value>) -> Result<Value, Fault> {
    if args.len() < 2 {
        Err(Fault::ArityMismatch)
    } else {
        match callable {
            Callable::NativeAdd => sum(args[0], args[1]),
            Callable::NativeEqual => Ok(Value::Boolean(args[0] == args[1])),
        }
    }
}

/// Two handles are equal exactly when they stand for callables of one kind:
/// a kind without state has only one callable.
pub proof fn law_function_equality(left: Function, right: Function)
    ensures
        (left == right) <==> left.callable == right.callable,
        left.callable == Callable::NativeAdd && right.callable == Callable::NativeAdd ==> left
            == right,
{
}

impl Callable {
    /// Runs the callable on `args`.
    pub fn invoke(&self, args: Vec<Object>) -> (result: Result<Object, ObjectError>)
        ensures
            outcome(result) == applied(*self, models(args@)),
    {
        if args.len() < 2 {
            return Err(ObjectError::ArityMismatch);
        }
        match self {
            Callable::NativeAdd => args[0].clone().add(args[1].clone()),
            Callable::NativeEqual => Ok(Object::Boolean(args[0] == args[1])),
        }
    }
}

impl Function {
    /// A handle on `callable`.
    pub fn new(callable: Callable) -> (function: Function)
        ensures
            function.callable == callable,
    {
        Function { callable }
    }

    /// Calls the callable behind the handle with `args`.
    pub fn call(&self, args: Vec<Object>) -> (result: Result<Object, ObjectError>)
        ensures
            outcome(result) == applied(self.callable, models(args@)),
    {
        self.callable.invoke(args)
    }
}

} // verus!
