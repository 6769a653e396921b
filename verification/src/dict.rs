//! Dictionaries: pairs of a hashable key and a value, in the order in which
//! the keys were first inserted.

use crate::assoc::{bind, find, position_from};
use crate::object::{entries_view, value_view, Dict, ObjectType, Val};
use crate::semantics;
use crate::text::same_text;
use vstd::prelude::*;
use vstd::string::*;

verus! {

/// Integers, booleans, strings and `null` can be keys of a dictionary.
pub fn is_hashable(value: &ObjectType) -> (r: bool)
    ensures
        r == semantics::is_hashable(value@),
{
    match value {
        ObjectType::Integer(_) => true,
        ObjectType::Boolean(_) => true,
        ObjectType::String(_) => true,
        ObjectType::Null => true,
        _ => false,
    }
}

/// Whether a stored key is the hashable key `key`.
pub fn key_equals(stored: &ObjectType, key: &ObjectType) -> (r: bool)
    requires
        semantics::is_hashable(key@),
    ensures
        r == (stored@ == key@),
{
    match key {
        ObjectType::Integer(k) => match stored {
            ObjectType::Integer(s) => s.value == k.value,
            _ => false,
        },
        ObjectType::Boolean(k) => match stored {
            ObjectType::Boolean(s) => s.value == k.value,
            _ => false,
        },
        ObjectType::String(k) => match stored {
            ObjectType::String(s) => same_text(s.value.as_str(), k.value.as_str()),
            _ => false,
        },
        ObjectType::Null => matches!(stored, ObjectType::Null),
        _ => false,
    }
}

/// The index of the pair with the hashable key `key`, or the number of
/// pairs where there is none.
pub fn key_position(pairs: &Vec<(ObjectType, ObjectType)>, key: &ObjectType) -> (i: usize)
    requires
        semantics::is_hashable(key@),
    ensures
        i == position_from(entries_view(pairs@), key@, 0),
        i <= pairs.len(),
{
    let mut i: usize = 0;
    while i < pairs.len()
        invariant
            i <= pairs.len(),
            semantics::is_hashable(key@),
            position_from(entries_view(pairs@), key@, i as int) == position_from(
                entries_view(pairs@),
                key@,
                0,
            ),
        decreases pairs.len() - i,
    {
        assert(entries_view(pairs@)[i as int].0 == value_view(pairs@[i as int].0));
        if key_equals(&pairs[i].0, key) {
            return i;
        }
        i += 1;
    }
    i
}

/// Gives the hashable key `key` the value `value`: the pair of that key is
/// replaced where there is one, and a pair is added at the end otherwise.
pub fn insert_pair(pairs: &mut Vec<(ObjectType, ObjectType)>, key: ObjectType, value: ObjectType)
    requires
        semantics::is_hashable(key@),
    ensures
        entries_view(final(pairs)@) == bind(entries_view(old(pairs)@), key@, value@),
{
    let i = key_position(pairs, &key);
    if i < pairs.len() {
        pairs[i] = (key, value);
    } else {
        pairs.push((key, value));
    }
    assert(entries_view(pairs@) =~= bind(entries_view(old(pairs)@), key@, value@));
}

impl Dict {
    /// A dictionary without pairs.
    pub fn new() -> (dict: Dict)
        ensures
            dict@ == Val::Dict(Seq::empty()),
    {
        let dict = Dict { pairs: Vec::new() };
        assert(entries_view(dict.pairs@) =~= Seq::empty());
        dict
    }

    /// The number of pairs.
    pub fn len(&self) -> (n: usize)
        ensures
            n == entries_view(self.pairs@).len(),
    {
        self.pairs.len()
    }

    /// A copy of the value of the hashable key `key`, if the dictionary
    /// holds the key. A key that cannot be hashed is never held.
    pub fn get(&self, key: &ObjectType) -> (value: Option<ObjectType>)
        ensures
            semantics::is_hashable(key@) ==> match value {
                Some(v) => find(entries_view(self.pairs@), key@) == Some(v@),
                None => find(entries_view(self.pairs@), key@) is None,
            },
            !semantics::is_hashable(key@) ==> value is None,
    {
        if !is_hashable(key) {
            return None;
        }
        let i = key_position(&self.pairs, key);
        assert(entries_view(self.pairs@).len() == self.pairs.len());
        if i < self.pairs.len() {
            assert(entries_view(self.pairs@)[i as int].1 == value_view(self.pairs@[i as int].1));
            Some(self.pairs[i].1.clone())
        } else {
            None
        }
    }

    /// Gives the hashable key `key` the value `value`; returns whether the
    /// key could be hashed, and changes nothing where it could not.
    pub fn insert(&mut self, key: ObjectType, value: ObjectType) -> (done: bool)
        ensures
            done == semantics::is_hashable(key@),
            done ==> entries_view(final(self).pairs@) == bind(
                entries_view(old(self).pairs@),
                key@,
                value@,
            ),
            !done ==> entries_view(final(self).pairs@) == entries_view(old(self).pairs@),
    {
        if !is_hashable(&key) {
            return false;
        }
        insert_pair(&mut self.pairs, key, value);
        true
    }
}

} // verus!
