//! The tagged value type and its mathematical model.

use crate::error::outcome;
use crate::error::Fault;
use crate::error::ObjectError;
use crate::function::applied;
use crate::function::Function;
use crate::record::Record;
use crate::text::append_number;
use crate::text::callable_name;
use crate::text::items_text;
use crate::text::text;
use vstd::prelude::*;
use vstd::std_specs::cmp::PartialEqSpecImpl;
use vstd::std_specs::iter::IteratorSpec;

verus! {

/// What a runtime value is, independent of how it is stored.
pub enum Value {
    Null,
    Boolean(bool),
    Number(int),
    String(Seq<char>),
    Array(Seq<Value>),
    Record(Seq<(Value, Value)>),
    Function(Function),
}

/// A runtime value.
#[derive(Debug)]
pub enum Object {
    Null,
    Boolean(bool),
    Number(i64),
    String(String),
    Array(Vec<Object>),
    Record(Record),
    Function(Function),
}

impl View for Object {
    type V = Value;

    open spec fn view(&self) -> Value
        decreases self,
    {
        match self {
            Object::Null => Value::Null,
            Object::Boolean(b) => Value::Boolean(*b),
            Object::Number(n) => Value::Number(*n as int),
            Object::String(s) => Value::String(s@),
            Object::Array(items) => Value::Array(
                Seq::new(
                    items.len() as nat,
                    |i: int|
                        if 0 <= i < items.len() {
                            items[i]@
                        } else {
                            Value::Null
                        },
                ),
            ),
            Object::Record(record) => Value::Record(record@),
            Object::Function(function) => Value::Function(*function),
        }
    }
}

/// The truth value that a condition reads from a value: a flag is itself, a
/// number is true unless zero, a string is true exactly when it is empty, and
/// every other value is false.
pub open spec fn truthy(value: Value) -> bool {
    match value {
        Value::Boolean(flag) => flag,
        Value::Number(number) => number != 0,
        Value::String(text) => text.len() == 0,
        _ => false,
    }
}

/// What `+` gives: the sum of two numbers where it fits the number type, two
/// strings joined, and an error for every other pair of operands.
pub open spec fn sum(left: Value, right: Value) -> Result<Value, Fault> {
    match (left, right) {
        (Value::Number(a), Value::Number(b)) => if i64::MIN <= a + b <= i64::MAX {
            Ok(Value::Number(a + b))
        } else {
            Err(Fault::Overflow)
        },
        (Value::String(a), Value::String(b)) => Ok(Value::String(a + b)),
        _ => Err(Fault::InvalidOperation),
    }
}

/// What calling a value with arguments gives: a function is applied to them,
/// and any other value is handed back in the error.
pub open spec fn called(callee: Value, args: Seq<Value>) -> Result<Value, Fault> {
    match callee {
        Value::Function(function) => applied(function.callable, args),
        _ => Err(Fault::NotCallable(callee)),
    }
}

/// Adding two numbers gives the number that is their sum, wherever the sum
/// fits the number type.
pub proof fn law_number_addition(a: int, b: int)
    requires
        i64::MIN <= a + b <= i64::MAX,
    ensures
        sum(Value::Number(a), Value::Number(b)) == Ok::<Value, Fault>(Value::Number(a + b)),
{
}

/// Adding two strings gives the first followed by the second.
pub proof fn law_string_addition(a: Seq<char>, b: Seq<char>)
    ensures
        sum(Value::String(a), Value::String(b)) == Ok::<Value, Fault>(Value::String(a + b)),
{
}

/// Adding fails as an invalid operation unless both operands are numbers or
/// both are strings.
pub proof fn law_mismatched_addition(left: Value, right: Value)
    requires
        !(left is Number && right is Number),
        !(left is String && right is String),
    ensures
        sum(left, right) == Err::<Value, Fault>(Fault::InvalidOperation),
{
}

/// Calling a value that is no function fails, and the error holds that value.
pub proof fn law_not_callable(callee: Value, args: Seq<Value>)
    requires
        !(callee is Function),
    ensures
        called(callee, args) == Err::<Value, Fault>(Fault::NotCallable(callee)),
{
}

/// The models of a sequence of values, item by item.
pub open spec fn models(items: Seq<Object>) -> Seq<Value> {
    items.map_values(|item: Object| item@)
}

/// The model of an array is the sequence of its items' models.
pub proof fn lemma_array_model(items: Vec<Object>)
    ensures
        Object::Array(items)@ == Value::Array(models(items@)),
{
    assert(Object::Array(items)@->Array_0 =~= models(items@));
}

/// Whether two lists hold equal values at every place.
fn items_equal(left: &Vec<Object>, right: &Vec<Object>) -> (same: bool)
    ensures
        same == (models(left@) == models(right@)),
    decreases left,
{
    if left.len() != right.len() {
        assert(models(left@).len() != models(right@).len());
        return false;
    }
    let mut i: usize = 0;
    while i < left.len()
        invariant
            i <= left.len(),
            left.len() == right.len(),
            forall|j: int| 0 <= j < i ==> left[j]@ == right[j]@,
        decreases left.len() - i,
    {
        if !left[i].equals(&right[i]) {
            assert(models(left@)[i as int] != models(right@)[i as int]);
            return false;
        }
        i += 1;
    }
    assert(models(left@) =~= models(right@));
    true
}

/// A copy of a list, item by item.
fn items_clone(items: &Vec<Object>) -> (copy: Vec<Object>)
    ensures
        models(copy@) == models(items@),
    decreases items,
{
    let mut copy: Vec<Object> = Vec::new();
    let mut i: usize = 0;
    while i < items.len()
        invariant
            i <= items.len(),
            copy.len() == i,
            forall|j: int| 0 <= j < i ==> copy[j]@ == items[j]@,
        decreases items.len() - i,
    {
        copy.push(items[i].clone());
        i += 1;
    }
    assert(models(copy@) =~= models(items@));
    copy
}

/// Appends the texts of the items to `out`, with a comma between neighbours.
fn append_items(items: &Vec<Object>, out: &mut String)
    ensures
        final(out)@ == old(out)@ + items_text(models(items@), items@.len()),
    decreases items,
{
    let mut i: usize = 0;
    assert(out@ =~= old(out)@ + items_text(models(items@), 0));
    while i < items.len()
        invariant
            i <= items.len(),
            out@ == old(out)@ + items_text(models(items@), i as nat),
        decreases items.len() - i,
    {
        if i > 0 {
            out.append(",");
        }
        items[i].append_text(out);
        i += 1;
        assert(out@ =~= old(out)@ + items_text(models(items@), i as nat));
    }
}

impl Object {
    /// Structural equality: the same tag and, recursively, equal payloads.
    pub(crate) fn equals(&self, other: &Object) -> (same: bool)
        ensures
            same == (self@ == other@),
        decreases self,
    {
        match (self, other) {
            (Object::Null, Object::Null) => true,
            (Object::Boolean(left), Object::Boolean(right)) => *left == *right,
            (Object::Number(left), Object::Number(right)) => *left == *right,
            (Object::String(left), Object::String(right)) => *left == *right,
            (Object::Array(left), Object::Array(right)) => {
                proof {
                    lemma_array_model(*left);
                    lemma_array_model(*right);
                }
                items_equal(left, right)
            },
            (Object::Record(left), Object::Record(right)) => left.equals(right),
            (Object::Function(left), Object::Function(right)) => *left == *right,
            _ => false,
        }
    }
}

impl PartialEq for Object {
    fn eq(&self, other: &Object) -> (same: bool) {
        self.equals(other)
    }
}

impl PartialEqSpecImpl for Object {
    open spec fn obeys_eq_spec() -> bool {
        true
    }

    open spec fn eq_spec(&self, other: &Object) -> bool {
        self@ == other@
    }
}

impl Object {
    /// The value as a condition.
    pub fn unwrap_boolean_or_default(&self) -> (flag: bool)
        ensures
            flag == truthy(self@),
    {
        match self {
            Object::Boolean(flag) => *flag,
            Object::Number(number) => *number != 0,
            Object::String(text) => text.as_str().is_empty(),
            _ => false,
        }
    }

    /// The items of an array, in order. Every other value is not iterable.
    pub fn iter(&self) -> (items: Result<core::slice::Iter<'_, Object>, ObjectError>)
        ensures
            match self {
                Object::Array(array) => items matches Ok(iterator) && {
                    &&& iterator.remaining() == array@.as_ref()
                    &&& iterator.decrease() is Some
                    &&& iterator.initial_value_relation(&iterator)
                },
                _ => items matches Err(ObjectError::NotIterable),
            },
    {
        match self {
            Object::Array(array) => Ok(array.iter()),
            _ => Err(ObjectError::NotIterable),
        }
    }

    /// Calls the value with `args`.
    pub fn call(&self, args: Vec<Object>) -> (result: Result<Object, ObjectError>)
        ensures
            outcome(result) == called(self@, models(args@)),
    {
        match self {
            Object::Function(function) => function.call(args),
            _ => Err(ObjectError::NotCallable(self.clone())),
        }
    }

    /// `self + rhs`.
    pub fn add(self, rhs: Object) -> (result: Result<Object, ObjectError>)
        ensures
            outcome(result) == sum(self@, rhs@),
    {
        match (self, rhs) {
            (Object::Number(left), Object::Number(right)) => match left.checked_add(right) {
                Some(total) => Ok(Object::Number(total)),
                None => Err(ObjectError::Overflow),
            },
            (Object::String(left), Object::String(right)) => Ok(
                Object::String(left.concat(right.as_str())),
            ),
            _ => Err(ObjectError::InvalidOperation),
        }
    }
}

impl Object {
    /// Appends the text of the value to `out`.
    pub(crate) fn append_text(&self, out: &mut String)
        ensures
            final(out)@ == old(out)@ + text(self@),
        decreases self,
    {
        match self {
            Object::Null => out.append("null"),
            Object::Boolean(flag) => if *flag {
                out.append("true")
            } else {
                out.append("false")
            },
            Object::Number(number) => append_number(out, *number),
            Object::String(string) => out.append(string.as_str()),
            Object::Array(items) => {
                proof {
                    lemma_array_model(*items);
                }
                out.append("[");
                append_items(items, out);
                out.append("]");
                assert(final(out)@ =~= old(out)@ + text(self@));
            },
            Object::Record(record) => record.append_text(out),
            Object::Function(function) => out.append(callable_name(function.callable)),
        }
    }

    /// The value as text.
    pub fn to_string(&self) -> (rendered: String)
        ensures
            rendered@ == text(self@),
    {
        let mut rendered = String::new();
        self.append_text(&mut rendered);
        assert(rendered@ =~= text(self@));
        rendered
    }
}

impl Clone for Object {
    fn clone(&self) -> (copy: Object)
        ensures
            copy@ == self@,
        decreases self,
    {
        match self {
            Object::Null => Object::Null,
            Object::Boolean(flag) => Object::Boolean(*flag),
            Object::Number(number) => Object::Number(*number),
            Object::String(text) => Object::String(text.clone()),
            Object::Array(items) => {
                let copy = items_clone(items);
                proof {
                    lemma_array_model(*items);
                    lemma_array_model(copy);
                }
                Object::Array(copy)
            },
            Object::Record(record) => Object::Record(record.clone()),
            Object::Function(function) => Object::Function(*function),
        }
    }
}

} // verus!
