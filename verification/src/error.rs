//! The ways in which evaluating a value can fail.

use crate::object::Object;
use crate::object::Value;
use vstd::prelude::*;

verus! {

/// What an error is, independent of how the offending value is stored.
pub enum Fault {
    InvalidOperation,
    NotCallable(Value),
    NotIterable,
    ArityMismatch,
    Overflow,
    NotExecutable,
    UnknownHandle,
}

/// A failed evaluation, handed back to the caller in place of a result.
#[derive(Debug, PartialEq)]
pub enum ObjectError {
    /// An operator met operands whose tags it is not defined for.
    InvalidOperation,
    /// A value that is no function was called; the value is kept.
    NotCallable(Object),
    /// A value that is no array was iterated.
    NotIterable,
    /// A native callable got fewer arguments than it reads.
    ArityMismatch,
    /// A numeric result does not fit the number type.
    Overflow,
    /// A value that is neither a function nor a record was executed.
    NotExecutable,
    /// A handle points past the end of its table.
    UnknownHandle,
}

impl View for ObjectError {
    type V = Fault;

    open spec fn view(&self) -> Fault {
        match self {
            ObjectError::InvalidOperation => Fault::InvalidOperation,
            ObjectError::NotCallable(culprit) => Fault::NotCallable(culprit@),
            ObjectError::NotIterable => Fault::NotIterable,
            ObjectError::ArityMismatch => Fault::ArityMismatch,
            ObjectError::Overflow => Fault::Overflow,
            ObjectError::NotExecutable => Fault::NotExecutable,
            ObjectError::UnknownHandle => Fault::UnknownHandle,
        }
    }
}

impl Clone for ObjectError {
    fn clone(&self) -> (copy: ObjectError)
        ensures
            copy@ == self@,
    {
        match self {
            ObjectError::InvalidOperation => ObjectError::InvalidOperation,
            ObjectError::NotCallable(culprit) => ObjectError::NotCallable(culprit.clone()),
            ObjectError::NotIterable => ObjectError::NotIterable,
            ObjectError::ArityMismatch => ObjectError::ArityMismatch,
            ObjectError::Overflow => ObjectError::Overflow,
            ObjectError::NotExecutable => ObjectError::NotExecutable,
            ObjectError::UnknownHandle => ObjectError::UnknownHandle,
        }
    }
}

/// The model of an evaluation's outcome: the model of the value it produced,
/// or of the error it failed with.
pub open spec fn outcome(result: Result<Object, ObjectError>) -> Result<Value, Fault> {
    match result {
        Ok(object) => Ok(object@),
        Err(error) => Err(error@),
    }
}

} // verus!
