//! Association lists: pairs of a key and a value, in the order in which the
//! keys were first inserted, searched from the front. The scopes of an
//! environment, the pairs of a dictionary and those of a dictionary literal
//! are such lists.

use vstd::prelude::*;

verus! {

/// The index of the first pair with the key `key` at or after `i`, or the
/// number of pairs where there is none.
pub open spec fn position_from<K, V>(pairs: Seq<(K, V)>, key: K, i: int) -> int
    decreases pairs.len() - i,
{
    if i < 0 || i >= pairs.len() {
        pairs.len() as int
    } else if pairs[i].0 == key {
        i
    } else {
        position_from(pairs, key, i + 1)
    }
}

/// The value of the first pair with the key `key`.
pub open spec fn find<K, V>(pairs: Seq<(K, V)>, key: K) -> Option<V> {
    let i = position_from(pairs, key, 0);
    if i < pairs.len() {
        Some(pairs[i].1)
    } else {
        None
    }
}

/// The pairs after `key` is given the value `value`: the first pair with
/// that key is replaced where there is one, and a pair is added at the end
/// otherwise.
pub open spec fn bind<K, V>(pairs: Seq<(K, V)>, key: K, value: V) -> Seq<(K, V)> {
    let i = position_from(pairs, key, 0);
    if i < pairs.len() {
        pairs.update(i, (key, value))
    } else {
        pairs.push((key, value))
    }
}

/// A position lies between the start of the search and the number of
/// pairs, and the pair there, if any, is the first with the key searched.
pub proof fn lemma_position_bounds<K, V>(pairs: Seq<(K, V)>, key: K, i: int)
    requires
        0 <= i <= pairs.len(),
    ensures
        i <= position_from(pairs, key, i) <= pairs.len(),
        position_from(pairs, key, i) < pairs.len() ==> pairs[position_from(pairs, key, i)].0
            == key,
        forall|j: int| i <= j < position_from(pairs, key, i) ==> pairs[j].0 != key,
    decreases pairs.len() - i,
{
    if i < pairs.len() && pairs[i].0 != key {
        lemma_position_bounds(pairs, key, i + 1);
    }
}

/// After a key was bound, it is found where it was found before, or at
/// the end where it was not bound before.
proof fn lemma_position_of_bound<K, V>(pairs: Seq<(K, V)>, key: K, value: V, i: int)
    requires
        0 <= i <= position_from(pairs, key, 0),
    ensures
        position_from(bind(pairs, key, value), key, i) == position_from(pairs, key, 0),
    decreases position_from(pairs, key, 0) - i,
{
    lemma_position_bounds(pairs, key, 0);
    let p = position_from(pairs, key, 0);
    let after = bind(pairs, key, value);
    if i < p {
        assert(after[i] == pairs[i]);
        lemma_position_of_bound(pairs, key, value, i + 1);
    } else {
        assert(after[p] == (key, value));
    }
}

/// After a key was bound, another key is found where it was found before,
/// or nowhere if it was not bound before.
proof fn lemma_position_of_other<K, V>(pairs: Seq<(K, V)>, key: K, value: V, other: K, i: int)
    requires
        other != key,
        0 <= i <= pairs.len(),
    ensures
        position_from(pairs, other, i) < pairs.len() ==> position_from(
            bind(pairs, key, value),
            other,
            i,
        ) == position_from(pairs, other, i),
        position_from(pairs, other, i) >= pairs.len() ==> position_from(
            bind(pairs, key, value),
            other,
            i,
        ) >= bind(pairs, key, value).len(),
    decreases pairs.len() - i,
{
    lemma_position_bounds(pairs, key, 0);
    let p = position_from(pairs, key, 0);
    let after = bind(pairs, key, value);
    if i < pairs.len() {
        if i == p {
            assert(after[i] == (key, value));
        } else {
            assert(after[i] == pairs[i]);
        }
        if pairs[i].0 != other {
            lemma_position_of_other(pairs, key, value, other, i + 1);
        }
    } else if p == pairs.len() {
        assert(after[i] == (key, value));
        assert(position_from(after, other, i + 1) == after.len());
    }
}

/// A key that was just bound has the value it was bound to.
pub proof fn lemma_find_after_bind<K, V>(pairs: Seq<(K, V)>, key: K, value: V)
    ensures
        find(bind(pairs, key, value), key) == Some(value),
{
    lemma_position_bounds(pairs, key, 0);
    lemma_position_of_bound(pairs, key, value, 0);
}

/// Binding a key changes the value of no other key.
pub proof fn lemma_find_other_after_bind<K, V>(pairs: Seq<(K, V)>, key: K, value: V, other: K)
    requires
        other != key,
    ensures
        find(bind(pairs, key, value), other) == find(pairs, other),
{
    lemma_position_bounds(pairs, key, 0);
    lemma_position_bounds(pairs, other, 0);
    lemma_position_of_other(pairs, key, value, other, 0);
    let q = position_from(pairs, other, 0);
    if q < pairs.len() {
        assert(bind(pairs, key, value)[q] == pairs[q]);
    }
}

/// The number of pairs after a key was bound: one more where the key is
/// new, the same where it was bound before.
pub proof fn lemma_bind_len<K, V>(pairs: Seq<(K, V)>, key: K, value: V)
    ensures
        bind(pairs, key, value).len() == if find(pairs, key) is Some {
            pairs.len()
        } else {
            pairs.len() + 1
        },
{
    lemma_position_bounds(pairs, key, 0);
}

} // verus!
