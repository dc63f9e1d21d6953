use script_object::object::Object;
use script_object::record::Record;

fn word(s: &str) -> Object {
    Object::String(String::from(s))
}

#[test]
fn a_new_record_finds_nothing() {
    let record = Record::new();
    assert_eq!(record.get(&Object::Null), None);
    assert_eq!(record.get(&Object::Number(0)), None);
    assert_eq!(record.get(&word("count")), None);
}

#[test]
fn distinct_keys_find_their_own_values() {
    let mut record = Record::new();
    record.insert(word("a"), Object::Number(1));
    record.insert(word("b"), Object::Number(2));
    assert_eq!(record.get(&word("a")), Some(&Object::Number(1)));
    assert_eq!(record.get(&word("b")), Some(&Object::Number(2)));
    assert_eq!(record.get(&word("c")), None);
}

#[test]
fn the_first_pair_of_a_key_wins() {
    let mut record = Record::new();
    record.insert(word("k"), Object::Number(1));
    record.insert(word("k"), Object::Number(2));
    assert_eq!(record.get(&word("k")), Some(&Object::Number(1)));
    assert_ne!(record.get(&word("k")), Some(&Object::Number(2)));
}

#[test]
fn keys_compare_by_structure() {
    let mut record = Record::new();
    record.insert(Object::Array(vec![Object::Number(1), word("x")]), word("array"));
    record.insert(Object::Number(1), word("number"));
    record.insert(Object::Null, word("null"));
    assert_eq!(
        record.get(&Object::Array(vec![Object::Number(1), word("x")])),
        Some(&word("array"))
    );
    assert_eq!(record.get(&Object::Number(1)), Some(&word("number")));
    assert_eq!(record.get(&Object::Null), Some(&word("null")));
    assert_eq!(record.get(&word("1")), None);
    assert_eq!(record.get(&Object::Array(vec![Object::Number(1)])), None);
}

#[test]
fn records_compare_pair_by_pair_in_order() {
    let mut left = Record::new();
    left.insert(word("a"), Object::Number(1));
    left.insert(word("b"), Object::Number(2));
    let mut same = Record::new();
    same.insert(word("a"), Object::Number(1));
    same.insert(word("b"), Object::Number(2));
    let mut swapped = Record::new();
    swapped.insert(word("b"), Object::Number(2));
    swapped.insert(word("a"), Object::Number(1));
    assert_eq!(left, same);
    assert_ne!(left, swapped);
    assert_ne!(left, Record::new());
    assert_eq!(left.clone(), left);
}
