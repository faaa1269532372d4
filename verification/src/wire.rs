//! Keyed wire documents: the JSON-like shape the service exchanges.
//!
//! A document is an ordered list of key/value entries; a value is one of the
//! shapes a settings document can carry, including an explicit null, which the
//! codec uses to keep a reset instruction distinguishable from an omitted key.

use vstd::prelude::*;

verus! {

/// One value in a keyed wire document.
#[derive(Debug, PartialEq)]
pub enum WireValue {
    /// Explicit null: the encoding of a reset instruction on a gated field.
    Null,
    Bool(bool),
    /// Non-negative integer.
    Num(usize),
    Str(String),
    /// Array of strings.
    StrArr(Vec<String>),
    /// Object from string keys to arrays of strings (the synonym map).
    StrMap(Vec<(String, Vec<String>)>),
    /// Nested keyed document (a composite settings group).
    Obj(WireDoc),
}

/// A keyed wire document: an ordered list of key/value entries.
#[derive(Debug, PartialEq)]
pub struct WireDoc {
    pub entries: Vec<(String, WireValue)>,
}

/// The value under `key`, taking the first matching entry.
pub open spec fn lookup(entries: Seq<(String, WireValue)>, key: Seq<char>) -> Option<WireValue>
    decreases entries.len(),
{
    if entries.len() == 0 {
        None
    } else if entries[0].0@ == key {
        Some(entries[0].1)
    } else {
        lookup(entries.skip(1), key)
    }
}

/// The value a borrowed slot stands for: what a lookup of its key returned.
pub open spec fn deref_slot(o: Option<&WireValue>) -> Option<WireValue> {
    match o {
        Some(v) => Some(*v),
        None => None,
    }
}

/// No two entries share a key.
pub open spec fn keys_distinct(entries: Seq<(String, WireValue)>) -> bool {
    forall|i: int, j: int|
        0 <= i < j < entries.len() ==> entries[i].0@ != entries[j].0@
}

/// Looking a key up in a concatenation searches the left part first.
pub proof fn lemma_lookup_append(
    a: Seq<(String, WireValue)>,
    b: Seq<(String, WireValue)>,
    key: Seq<char>,
)
    ensures
        lookup(a + b, key) == (if lookup(a, key) is Some {
            lookup(a, key)
        } else {
            lookup(b, key)
        }),
    decreases a.len(),
{
    if a.len() == 0 {
        assert(a + b =~= b);
    } else {
        assert((a + b).skip(1) =~= a.skip(1) + b);
        lemma_lookup_append(a.skip(1), b, key);
    }
}

/// Appending one entry leaves every other key's lookup unchanged and serves
/// `key` only where no earlier entry already does.
pub proof fn lemma_lookup_push(
    entries: Seq<(String, WireValue)>,
    e: (String, WireValue),
    key: Seq<char>,
)
    ensures
        lookup(entries.push(e), key) == (if lookup(entries, key) is Some {
            lookup(entries, key)
        } else if e.0@ == key {
            Some(e.1)
        } else {
            None::<WireValue>
        }),
{
    let s1 = seq![e];
    assert(entries.push(e) =~= entries + s1);
    lemma_lookup_append(entries, s1, key);
    assert(s1[0] == e);
    if e.0@ == key {
        assert(lookup(s1, key) == Some(e.1));
    } else {
        assert(s1.skip(1) =~= Seq::<(String, WireValue)>::empty());
        assert(lookup(s1.skip(1), key) is None);
        assert(lookup(s1, key) is None);
    }
}

/// A key that stands at some index is served by lookup.
pub proof fn lemma_lookup_present(entries: Seq<(String, WireValue)>, i: int)
    requires
        0 <= i < entries.len(),
    ensures
        lookup(entries, entries[i].0@) is Some,
    decreases entries.len(),
{
    if entries[0].0@ != entries[i].0@ {
        lemma_lookup_present(entries.skip(1), i - 1);
    }
}

impl WireDoc {
    /// A document with no entries.
    pub fn new() -> (r: WireDoc)
        ensures
            r.entries@.len() == 0,
    {
        WireDoc { entries: Vec::new() }
    }

    /// Append an entry for `key`; earlier entries are untouched.
    pub fn push(&mut self, key: &str, value: WireValue)
        ensures
            final(self).entries@.len() == old(self).entries@.len() + 1,
            forall|i: int|
                0 <= i < old(self).entries@.len() ==> final(self).entries@[i] == old(
                    self,
                ).entries@[i],
            final(self).entries@[old(self).entries@.len() as int].0@ == key@,
            final(self).entries@[old(self).entries@.len() as int].1 == value,
            forall|k: Seq<char>| #![trigger lookup(final(self).entries@, k)]
                lookup(final(self).entries@, k) == (if lookup(old(self).entries@, k) is Some {
                    lookup(old(self).entries@, k)
                } else if key@ == k {
                    Some(value)
                } else {
                    None::<WireValue>
                }),
    {
        let ghost pre = self.entries@;
        self.entries.push((key.to_owned(), value));
        proof {
            let e = self.entries@[pre.len() as int];
            assert(self.entries@ =~= pre.push(e));
            assert forall|k: Seq<char>| #![trigger lookup(self.entries@, k)]
                lookup(self.entries@, k) == (if lookup(pre, k) is Some {
                    lookup(pre, k)
                } else if key@ == k {
                    Some(value)
                } else {
                    None::<WireValue>
                }) by {
                lemma_lookup_push(pre, e, k);
            }
        }
    }

    /// Borrow the value under `key`, if the key is present.
    pub fn get<'a>(&'a self, key: &str) -> (r: Option<&'a WireValue>)
        ensures
            deref_slot(r) == lookup(self.entries@, key@),
    {
        let key_owned: String = key.to_owned();
        let n = self.entries.len();
        let mut i: usize = 0;
        while i < n
            invariant
                n == self.entries@.len(),
                0 <= i <= n,
                key_owned@ == key@,
                lookup(self.entries@.take(i as int), key@) is None,
            decreases n - i,
        {
            proof {
                assert(self.entries@.take(i + 1) =~= self.entries@.take(i as int).push(
                    self.entries@[i as int],
                ));
                lemma_lookup_push(self.entries@.take(i as int), self.entries@[i as int], key@);
            }
            if self.entries[i].0 == key_owned {
                proof {
                    assert(self.entries@ =~= self.entries@.take(i + 1) + self.entries@.skip(
                        i + 1,
                    ));
                    lemma_lookup_append(self.entries@.take(i + 1), self.entries@.skip(i + 1), key@);
                }
                return Some(&self.entries[i].1);
            }
            i = i + 1;
        }
        proof {
            assert(self.entries@.take(n as int) =~= self.entries@);
        }
        None
    }

    /// How many entries the document holds.
    pub fn len(&self) -> (r: usize)
        ensures
            r == self.entries@.len(),
    {
        self.entries.len()
    }
}

} // verus!
