//! How values read as text.

use crate::function::Callable;
use crate::object::Value;
use vstd::prelude::*;

verus! {

/// The character of one decimal digit.
pub open spec fn digit(d: nat) -> char
    recommends
        d < 10,
{
    if d == 0 {
        '0'
    } else if d == 1 {
        '1'
    } else if d == 2 {
        '2'
    } else if d == 3 {
        '3'
    } else if d == 4 {
        '4'
    } else if d == 5 {
        '5'
    } else if d == 6 {
        '6'
    } else if d == 7 {
        '7'
    } else if d == 8 {
        '8'
    } else {
        '9'
    }
}

/// The decimal digits of a natural number, without leading zeros.
pub open spec fn decimal(n: nat) -> Seq<char>
    decreases n,
{
    if n < 10 {
        seq![digit(n)]
    } else {
        decimal(n / 10).push(digit(n % 10))
    }
}

/// The text of a number: its decimal digits, after a minus sign where it is
/// negative.
pub open spec fn number_text(n: int) -> Seq<char> {
    if n < 0 {
        seq!['-'] + decimal((-n) as nat)
    } else {
        decimal(n as nat)
    }
}

/// The text of a native callable.
pub open spec fn callable_text(callable: Callable) -> Seq<char> {
    match callable {
        Callable::NativeAdd => "<native add>"@,
        Callable::NativeEqual => "<native equal>"@,
    }
}

/// The text of a value. A string reads as itself, without quotes; an array as
/// its items between square brackets, a record as its pairs between braces.
pub open spec fn text(value: Value) -> Seq<char>
    decreases value, 0nat,
{
    match value {
        Value::Null => "null"@,
        Value::Boolean(flag) => if flag {
            "true"@
        } else {
            "false"@
        },
        Value::Number(number) => number_text(number),
        Value::String(string) => string,
        Value::Array(items) => "["@ + items_text(items, items.len()) + "]"@,
        Value::Record(entries) => "{"@ + entries_text(entries, entries.len()) + "}"@,
        Value::Function(function) => callable_text(function.callable),
    }
}

/// The texts of the first `count` items, with a comma between neighbours.
pub open spec fn items_text(items: Seq<Value>, count: nat) -> Seq<char>
    decreases items, count,
{
    if count == 0 || count > items.len() {
        Seq::empty()
    } else if count == 1 {
        text(items[0])
    } else {
        items_text(items, (count - 1) as nat) + ","@ + text(items[count - 1])
    }
}

/// The text of one pair: the key, a colon and a space, the value.
pub open spec fn entry_text(entry: (Value, Value)) -> Seq<char>
    decreases entry, 0nat,
{
    text(entry.0) + ": "@ + text(entry.1)
}

/// The texts of the first `count` pairs, with a comma and a space between
/// neighbours.
pub open spec fn entries_text(entries: Seq<(Value, Value)>, count: nat) -> Seq<char>
    decreases entries, count,
{
    if count == 0 || count > entries.len() {
        Seq::empty()
    } else if count == 1 {
        entry_text(entries[0])
    } else {
        entries_text(entries, (count - 1) as nat) + ", "@ + entry_text(entries[count - 1])
    }
}

/// One decimal digit as text.
fn digit_text(d: u64) -> (text: &'static str)
    requires
        d < 10,
    ensures
        text@ == seq![digit(d as nat)],
{
    proof {
        reveal_strlit("0");
        reveal_strlit("1");
        reveal_strlit("2");
        reveal_strlit("3");
        reveal_strlit("4");
        reveal_strlit("5");
        reveal_strlit("6");
        reveal_strlit("7");
        reveal_strlit("8");
        reveal_strlit("9");
    }
    let text = match d {
        0 => "0",
        1 => "1",
        2 => "2",
        3 => "3",
        4 => "4",
        5 => "5",
        6 => "6",
        7 => "7",
        8 => "8",
        _ => "9",
    };
    assert(text@ =~= seq![digit(d as nat)]);
    text
}

/// Appends the decimal digits of `n` to `out`.
fn append_decimal(out: &mut String, n: u64)
    ensures
        final(out)@ == old(out)@ + decimal(n as nat),
    decreases n,
{
    if n >= 10 {
        append_decimal(out, n / 10);
    }
    out.append(digit_text(n % 10));
    assert(final(out)@ =~= old(out)@ + decimal(n as nat));
}

/// Appends the text of `n` to `out`.
pub(crate) fn append_number(out: &mut String, n: i64)
    ensures
        final(out)@ == old(out)@ + number_text(n as int),
{
    if n < 0 {
        proof {
            reveal_strlit("-");
        }
        out.append("-");
        let magnitude: u64 = if n == i64::MIN {
            9223372036854775808u64
        } else {
            (-n) as u64
        };
        append_decimal(out, magnitude);
        assert(final(out)@ =~= old(out)@ + number_text(n as int));
    } else {
        append_decimal(out, n as u64);
    }
}

/// The text of a native callable.
pub(crate) fn callable_name(callable: Callable) -> (name: &'static str)
    ensures
        name@ == callable_text(callable),
{
    match callable {
        Callable::NativeAdd => "<native add>",
        Callable::NativeEqual => "<native equal>",
    }
}

} // verus!
