//! A settings document as plain values: the tables, strings, integers and
//! booleans that the settings file is made of.
use vstd::prelude::*;

verus! {

/// One value of a settings document.
pub enum Value {
    Integer(i64),
    Text(String),
    Boolean(bool),
    Table(Vec<(String, Value)>),
    /// Any other kind of value (a float, a date, an array): the settings
    /// never accept one.
    Other,
}

/// The value stored under `key` in a table: the first entry with that key.
pub open spec fn lookup(t: Seq<(String, Value)>, key: Seq<char>) -> Option<Value>
    decreases t.len(),
{
    if t.len() == 0 {
        None
    } else if t[0].0@ == key {
        Some(t[0].1)
    } else {
        lookup(t.drop_first(), key)
    }
}

/// Position of the first entry of `t` whose key is `key`.
pub fn find(t: &Vec<(String, Value)>, key: &String) -> (r: Option<usize>)
    ensures
        match r {
            None => lookup(t@, key@) is None,
            Some(i) => i < t@.len() && lookup(t@, key@) == Some(t@[i as int].1)
                && t@[i as int].0@ == key@,
        },
{
    let mut i: usize = 0;
    assert(t@.subrange(0, t@.len() as int) =~= t@);
    while i < t.len()
        invariant
            i <= t@.len(),
            lookup(t@, key@) == lookup(t@.subrange(i as int, t@.len() as int), key@),
        decreases t@.len() - i,
    {
        proof {
            let s = t@.subrange(i as int, t@.len() as int);
            assert(s.drop_first() =~= t@.subrange(i + 1, t@.len() as int));
        }
        if t[i].0 == *key {
            return Some(i);
        }
        i = i + 1;
    }
    None
}

} // verus!


verus! {

/// The first entry with key `key` decides the lookup.
pub proof fn lemma_lookup_at(t: Seq<(String, Value)>, key: Seq<char>, i: int)
    requires
        0 <= i < t.len(),
        t[i].0@ == key,
        forall|j: int| 0 <= j < i ==> t[j].0@ != key,
    ensures
        lookup(t, key) == Some(t[i].1),
    decreases i,
{
    if i > 0 {
        lemma_lookup_at(t.drop_first(), key, i - 1);
    }
}

/// A key that no entry has is not found.
pub proof fn lemma_lookup_absent(t: Seq<(String, Value)>, key: Seq<char>)
    requires
        forall|j: int| 0 <= j < t.len() ==> t[j].0@ != key,
    ensures
        lookup(t, key) is None,
    decreases t.len(),
{
    if t.len() > 0 {
        lemma_lookup_absent(t.drop_first(), key);
    }
}

} // verus!
