//! Executing a value by its tag, directly or through a handle into the tables
//! that own the live functions and records.

use crate::error::outcome;
use crate::error::Fault;
use crate::error::ObjectError;
use crate::function::applied;
use crate::function::Function;
use crate::object::models;
use crate::object::Object;
use crate::object::Value;
use crate::record::Record;
use vstd::prelude::*;

verus! {

/// A function or a record by its place in the table of its kind. A handle is
/// a plain value: copying it copies no payload.
#[derive(Clone, Copy, Debug, PartialEq, Eq, Hash, Structural)]
pub enum Handle {
    Function(usize),
    Record(usize),
}

/// The arguments that the dispatcher calls a function with: the numbers one
/// and two.
pub open spec fn sample_args() -> Seq<Value> {
    seq![Value::Number(1), Value::Number(2)]
}

/// What executing a value gives: a function is called with the sample
/// arguments, a record gives its contents, and no other value can be executed.
pub open spec fn dispatched(value: Value) -> Result<Value, Fault> {
    match value {
        Value::Function(function) => applied(function.callable, sample_args()),
        Value::Record(entries) => Ok(value),
        _ => Err(Fault::NotExecutable),
    }
}

/// What executing a handle gives: what executing the function or record at
/// its place gives, and an error where the table has no such place.
pub open spec fn executed(
    handle: Handle,
    function_table: Seq<Function>,
    record_table: Seq<Record>,
) -> Result<Value, Fault> {
    match handle {
        Handle::Function(index) => if index < function_table.len() {
            dispatched(Value::Function(function_table[index as int]))
        } else {
            Err(Fault::UnknownHandle)
        },
        Handle::Record(index) => if index < record_table.len() {
            dispatched(Value::Record(record_table[index as int]@))
        } else {
            Err(Fault::UnknownHandle)
        },
    }
}

/// The numbers one and two.
fn sample_payload() -> (args: Vec<Object>)
    ensures
        models(args@) == sample_args(),
{
    let mut args: Vec<Object> = Vec::new();
    args.push(Object::Number(1));
    args.push(Object::Number(2));
    assert(models(args@) =~= sample_args());
    args
}

/// Executes `object` by its tag.
pub fn dispatch(object: &Object) -> (result: Result<Object, ObjectError>)
    ensures
        outcome(result) == dispatched(object@),
{
    match object {
        Object::Function(function) => function.call(sample_payload()),
        Object::Record(record) => Ok(Object::Record(record.clone())),
        _ => Err(ObjectError::NotExecutable),
    }
}

/// Executes the function or record that `handle` stands for.
pub fn execute(handle: Handle, function_table: &Vec<Function>, record_table: &Vec<Record>) -> (result:
    Result<Object, ObjectError>)
    ensures
        outcome(result) == executed(handle, function_table@, record_table@),
{
    match handle {
        Handle::Function(index) => if index < function_table.len() {
            function_table[index].call(sample_payload())
        } else {
            Err(ObjectError::UnknownHandle)
        },
        Handle::Record(index) => if index < record_table.len() {
            Ok(Object::Record(record_table[index].clone()))
        } else {
            Err(ObjectError::UnknownHandle)
        },
    }
}

} // verus!
