//! The association list from values to values.

use crate::object::Object;
use crate::object::Value;
use crate::text::entries_text;
use crate::text::entry_text;
use crate::text::text;
use vstd::prelude::*;
use vstd::std_specs::cmp::PartialEqSpecImpl;

verus! {

/// An ordered list of key and value pairs. Keys may repeat; a lookup sees the
/// first pair whose key matches.
#[derive(Debug)]
pub struct Record {
    inner: Vec<(Object, Object)>,
}

impl View for Record {
    type V = Seq<(Value, Value)>;

    closed spec fn view(&self) -> Seq<(Value, Value)>
        decreases self,
    {
        Seq::new(
            self.inner.len() as nat,
            |i: int|
                if 0 <= i < self.inner.len() {
                    (self.inner[i].0@, self.inner[i].1@)
                } else {
                    (Value::Null, Value::Null)
                },
        )
    }
}

/// The value that a lookup of `key` finds in `entries`: that of the first
/// pair whose key is `key`, and nothing where no pair has that key.
pub open spec fn lookup(entries: Seq<(Value, Value)>, key: Value) -> Option<Value>
    decreases entries.len(),
{
    if entries.len() == 0 {
        None
    } else if entries.first().0 == key {
        Some(entries.first().1)
    } else {
        lookup(entries.drop_first(), key)
    }
}

/// A lookup in a record without pairs finds nothing.
pub proof fn law_empty_lookup(key: Value)
    ensures
        lookup(Seq::<(Value, Value)>::empty(), key) is None,
{
}

/// Appending a pair changes no lookup that found a value before; a lookup that
/// found nothing finds the new value exactly when it asks for the new key.
pub proof fn law_lookup_after_insert(entries: Seq<(Value, Value)>, pair: (Value, Value), key: Value)
    ensures
        lookup(entries.push(pair), key) == match lookup(entries, key) {
            Some(value) => Some(value),
            None => if pair.0 == key {
                Some(pair.1)
            } else {
                None
            },
        },
    decreases entries.len(),
{
    let grown = entries.push(pair);
    if entries.len() == 0 {
        assert(grown.first() == pair);
        assert(grown.drop_first().len() == 0);
        assert(lookup(grown.drop_first(), key) is None);
    } else {
        assert(grown.first() == entries.first());
        assert(grown.drop_first() =~= entries.drop_first().push(pair));
        law_lookup_after_insert(entries.drop_first(), pair, key);
        assert(lookup(grown, key) == if entries.first().0 == key {
            Some(entries.first().1)
        } else {
            lookup(entries.drop_first().push(pair), key)
        });
    }
}

/// After two pairs with different keys went into an empty record, a lookup of
/// either key finds the value that went in with it.
pub proof fn law_distinct_keys(k1: Value, v1: Value, k2: Value, v2: Value)
    requires
        k1 != k2,
    ensures
        lookup(Seq::<(Value, Value)>::empty().push((k1, v1)).push((k2, v2)), k1) == Some(v1),
        lookup(Seq::<(Value, Value)>::empty().push((k1, v1)).push((k2, v2)), k2) == Some(v2),
{
    let empty = Seq::<(Value, Value)>::empty();
    law_lookup_after_insert(empty, (k1, v1), k1);
    law_lookup_after_insert(empty, (k1, v1), k2);
    law_lookup_after_insert(empty.push((k1, v1)), (k2, v2), k1);
    law_lookup_after_insert(empty.push((k1, v1)), (k2, v2), k2);
}

/// After two pairs with one key went into an empty record, a lookup of the
/// key finds the value of the first pair.
pub proof fn law_first_match_wins(k: Value, v1: Value, v2: Value)
    ensures
        lookup(Seq::<(Value, Value)>::empty().push((k, v1)).push((k, v2)), k) == Some(v1),
{
    let empty = Seq::<(Value, Value)>::empty();
    law_lookup_after_insert(empty, (k, v1), k);
    law_lookup_after_insert(empty.push((k, v1)), (k, v2), k);
}

/// A lookup finds a value exactly when some pair has the key, and then it
/// finds the value of the earliest such pair.
pub proof fn law_lookup_earliest(entries: Seq<(Value, Value)>, key: Value)
    ensures
        lookup(entries, key) is None <==> forall|i: int|
            0 <= i < entries.len() ==> (#[trigger] entries[i]).0 != key,
        lookup(entries, key) is Some ==> exists|i: int|
            0 <= i < entries.len() && (#[trigger] entries[i]).0 == key && lookup(entries, key)
                == Some(entries[i].1) && forall|j: int|
                0 <= j < i ==> (#[trigger] entries[j]).0 != key,
    decreases entries.len(),
{
    if entries.len() == 0 {
    } else if entries.first().0 == key {
        assert(entries[0].0 == key);
    } else {
        let rest = entries.drop_first();
        law_lookup_earliest(rest, key);
        assert(forall|i: int| 0 <= i < rest.len() ==> rest[i] == entries[i + 1]);
        if lookup(rest, key) is Some {
            let at = choose|i: int|
                0 <= i < rest.len() && (#[trigger] rest[i]).0 == key && lookup(rest, key) == Some(
                    rest[i].1,
                ) && forall|j: int| 0 <= j < i ==> (#[trigger] rest[j]).0 != key;
            assert(entries[at + 1].0 == key);
            assert forall|j: int| 0 <= j < at + 1 implies (#[trigger] entries[j]).0 != key by {
                if j > 0 {
                    assert(rest[j - 1] == entries[j]);
                }
            }
        } else {
            assert forall|i: int| 0 <= i < entries.len() implies (#[trigger] entries[i]).0
                != key by {
                if i > 0 {
                    assert(rest[i - 1] == entries[i]);
                }
            }
        }
    }
}

impl Record {
    /// A record without pairs.
    pub fn new() -> (record: Record)
        ensures
            record@ == Seq::<(Value, Value)>::empty(),
    {
        let record = Record { inner: Vec::new() };
        assert(record@ =~= Seq::<(Value, Value)>::empty());
        record
    }

    /// Appends the pair of `key` and `value`, whether or not `key` is there
    /// already.
    pub fn insert(&mut self, key: Object, value: Object)
        ensures
            final(self)@ == old(self)@.push((key@, value@)),
    {
        self.inner.push((key, value));
        assert(final(self)@ =~= old(self)@.push((key@, value@)));
    }

    /// The value of the first pair whose key equals `key`.
    pub fn get(&self, key: &Object) -> (found: Option<&Object>)
        ensures
            match found {
                Some(value) => lookup(self@, key@) == Some(value@),
                None => lookup(self@, key@) is None,
            },
    {
        let mut i: usize = 0;
        assert(self@.skip(0) =~= self@);
        while i < self.inner.len()
            invariant
                i <= self.inner.len(),
                self@.len() == self.inner.len(),
                lookup(self@, key@) == lookup(self@.skip(i as int), key@),
            decreases self.inner.len() - i,
        {
            let ghost rest = self@.skip(i as int);
            assert(rest.first() == self@[i as int]);
            if key.equals(&self.inner[i].0) {
                return Some(&self.inner[i].1);
            }
            assert(rest.drop_first() =~= self@.skip(i + 1));
            i += 1;
        }
        assert(self@.skip(i as int).len() == 0);
        None
    }

    /// Appends the text of the record to `out`.
    pub(crate) fn append_text(&self, out: &mut String)
        ensures
            final(out)@ == old(out)@ + text(Value::Record(self@)),
        decreases self,
    {
        out.append("{");
        let mut i: usize = 0;
        assert(out@ =~= old(out)@ + "{"@ + entries_text(self@, 0));
        while i < self.inner.len()
            invariant
                i <= self.inner.len(),
                self@.len() == self.inner.len(),
                out@ == old(out)@ + "{"@ + entries_text(self@, i as nat),
            decreases self.inner.len() - i,
        {
            let ghost entry = self@[i as int];
            assert(entry == (self.inner[i as int].0@, self.inner[i as int].1@));
            if i > 0 {
                out.append(", ");
            }
            let ghost separated = out@;
            self.inner[i].0.append_text(out);
            out.append(": ");
            self.inner[i].1.append_text(out);
            assert(out@ =~= separated + entry_text(entry));
            i += 1;
            assert(entries_text(self@, i as nat) =~= if i == 1 {
                entry_text(entry)
            } else {
                entries_text(self@, (i - 1) as nat) + ", "@ + entry_text(entry)
            });
            assert(out@ =~= old(out)@ + "{"@ + entries_text(self@, i as nat));
        }
        out.append("}");
        assert(out@ =~= old(out)@ + text(Value::Record(self@)));
    }

    /// Whether two records hold the same pairs in the same order.
    pub(crate) fn equals(&self, other: &Record) -> (same: bool)
        ensures
            same == (self@ == other@),
        decreases self,
    {
        if self.inner.len() != other.inner.len() {
            assert(self@.len() != other@.len());
            return false;
        }
        let mut i: usize = 0;
        while i < self.inner.len()
            invariant
                i <= self.inner.len(),
                self.inner.len() == other.inner.len(),
                forall|j: int| 0 <= j < i ==> self@[j] == other@[j],
            decreases self.inner.len() - i,
        {
            let same_key = self.inner[i].0.equals(&other.inner[i].0);
            let same_value = self.inner[i].1.equals(&other.inner[i].1);
            if !same_key || !same_value {
                assert(self@[i as int] != other@[i as int]);
                return false;
            }
            i += 1;
        }
        assert(self@ =~= other@);
        true
    }
}

impl PartialEq for Record {
    fn eq(&self, other: &Record) -> (same: bool) {
        self.equals(other)
    }
}

impl PartialEqSpecImpl for Record {
    open spec fn obeys_eq_spec() -> bool {
        true
    }

    open spec fn eq_spec(&self, other: &Record) -> bool {
        self@ == other@
    }
}

impl Clone for Record {
    fn clone(&self) -> (copy: Record)
        ensures
            copy@ == self@,
        decreases self,
    {
        let mut inner: Vec<(Object, Object)> = Vec::new();
        let mut i: usize = 0;
        while i < self.inner.len()
            invariant
                i <= self.inner.len(),
                inner.len() == i,
                forall|j: int|
                    0 <= j < i ==> inner[j].0@ == self.inner[j].0@ && inner[j].1@
                        == self.inner[j].1@,
            decreases self.inner.len() - i,
        {
            let key = self.inner[i].0.clone();
            let value = self.inner[i].1.clone();
            inner.push((key, value));
            i += 1;
        }
        let copy = Record { inner };
        assert(copy@ =~= self@);
        copy
    }
}

} // verus!
