use script_object::function::Callable;
use script_object::function::Function;
use script_object::object::Object;
use script_object::record::Record;

fn word(s: &str) -> Object {
    Object::String(String::from(s))
}

#[test]
fn null_and_booleans_read_as_keywords() {
    assert_eq!(Object::Null.to_string(), "null");
    assert_eq!(Object::Boolean(true).to_string(), "true");
    assert_eq!(Object::Boolean(false).to_string(), "false");
}

#[test]
fn numbers_read_as_decimals() {
    assert_eq!(Object::Number(0).to_string(), "0");
    assert_eq!(Object::Number(5).to_string(), "5");
    assert_eq!(Object::Number(9).to_string(), "9");
    assert_eq!(Object::Number(10).to_string(), "10");
    assert_eq!(Object::Number(100).to_string(), "100");
    assert_eq!(Object::Number(1234567890).to_string(), "1234567890");
    assert_eq!(Object::Number(-1).to_string(), "-1");
    assert_eq!(Object::Number(-17).to_string(), "-17");
    assert_eq!(Object::Number(i64::MAX).to_string(), "9223372036854775807");
    assert_eq!(Object::Number(i64::MIN).to_string(), "-9223372036854775808");
}

#[test]
fn numbers_read_as_the_standard_library_prints_them() {
    let samples: [i64; 9] = [0, 7, -7, 42, 1000, -1000, 987654321, i64::MAX, i64::MIN];
    for n in samples {
        assert_eq!(Object::Number(n).to_string(), format!("{}", n));
    }
}

#[test]
fn strings_read_without_quotes() {
    assert_eq!(word("hello world").to_string(), "hello world");
    assert_eq!(word("").to_string(), "");
    assert_eq!(word("a\"b").to_string(), "a\"b");
}

#[test]
fn arrays_read_as_comma_joined_items_in_brackets() {
    assert_eq!(Object::Array(vec![]).to_string(), "[]");
    assert_eq!(Object::Array(vec![Object::Number(1)]).to_string(), "[1]");
    assert_eq!(
        Object::Array(vec![Object::Number(1), word("two"), Object::Null]).to_string(),
        "[1,two,null]"
    );
    assert_eq!(
        Object::Array(vec![
            Object::Array(vec![Object::Boolean(true), Object::Boolean(false)]),
            Object::Array(vec![]),
            Object::Number(-3),
        ])
        .to_string(),
        "[[true,false],[],-3]"
    );
}

#[test]
fn records_read_as_pairs_in_braces() {
    assert_eq!(Object::Record(Record::new()).to_string(), "{}");
    let mut record = Record::new();
    record.insert(word("count"), Object::Number(100));
    assert_eq!(Object::Record(record.clone()).to_string(), "{count: 100}");
    record.insert(Object::Number(2), Object::Array(vec![Object::Null]));
    assert_eq!(
        Object::Record(record).to_string(),
        "{count: 100, 2: [null]}"
    );
}

#[test]
fn functions_read_as_their_kind() {
    assert_eq!(
        Object::Function(Function::new(Callable::NativeAdd)).to_string(),
        "<native add>"
    );
    assert_eq!(
        Object::Function(Function::new(Callable::NativeEqual)).to_string(),
        "<native equal>"
    );
}
