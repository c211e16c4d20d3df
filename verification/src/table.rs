//! Tables keyed by strings, held as vectors of pairs in which no key occurs
//! twice (the JSON form of these tables is an object).
use vstd::prelude::*;

use crate::text::str_eq;

verus! {

/// The index of the first entry of `t` whose key is `key`.
pub open spec fn key_index<V>(t: Seq<(String, V)>, key: Seq<char>) -> Option<int> {
    if exists|i: int| 0 <= i < t.len() && t[i].0@ == key {
        Some(
            choose|i: int|
                0 <= i < t.len() && t[i].0@ == key && forall|j: int| 0 <= j < i ==> t[j].0@ != key,
        )
    } else {
        None
    }
}

/// Whether no key occurs twice in `t`.
pub open spec fn keys_unique<V>(t: Seq<(String, V)>) -> bool {
    forall|i: int, j: int| 0 <= i < j < t.len() ==> (#[trigger] t[i]).0@ != (#[trigger] t[j]).0@
}

/// `t` after inserting `key` with `value`, as a map's `insert` does: the
/// entry of that key gets the new value, or a new entry goes last.
pub open spec fn upserted<V>(t: Seq<(String, V)>, key: String, value: V) -> Seq<(String, V)> {
    match key_index(t, key@) {
        Some(i) => t.update(i, (key, value)),
        None => t.push((key, value)),
    }
}

/// The value stored under `key`.
pub open spec fn value_of<V>(t: Seq<(String, V)>, key: Seq<char>) -> Option<V> {
    match key_index(t, key) {
        Some(i) => Some(t[i].1),
        None => None,
    }
}

/// Where the entry of `key` is.
pub fn find_key<V>(t: &Vec<(String, V)>, key: &str) -> (r: Option<usize>)
    ensures
        match r {
            Some(i) => key_index(t@, key@) == Some(i as int) && i < t.len(),
            None => key_index(t@, key@) is None,
        },
{
    let mut i: usize = 0;
    while i < t.len()
        invariant
            i <= t.len(),
            forall|j: int| 0 <= j < i ==> t@[j].0@ != key@,
        decreases t.len() - i,
    {
        if str_eq(t[i].0.as_str(), key) {
            proof {
                let k = choose|k: int|
                    0 <= k < t@.len() && t@[k].0@ == key@ && forall|j: int|
                        0 <= j < k ==> t@[j].0@ != key@;
                assert(k == i as int);
            }
            return Some(i);
        }
        i = i + 1;
    }
    None
}

/// Stores `value` under `key`.
pub fn upsert<V>(t: &mut Vec<(String, V)>, key: String, value: V)
    ensures
        final(t)@ == upserted(old(t)@, key, value),
{
    match find_key(t, key.as_str()) {
        Some(i) => {
            t.set(i, (key, value));
        },
        None => {
            t.push((key, value));
        },
    }
}

/// Inserting keeps the keys of a table unique.
pub proof fn lemma_upsert_keeps_unique<V>(t: Seq<(String, V)>, key: String, value: V)
    requires
        keys_unique(t),
    ensures
        keys_unique(upserted(t, key, value)),
{
    let u = upserted(t, key, value);
    match key_index(t, key@) {
        Some(k) => {
            assert forall|i: int, j: int| 0 <= i < j < u.len() implies (#[trigger] u[i]).0@ != (
            #[trigger] u[j]).0@ by {
                if i != k && j != k {
                    assert(u[i] == t[i] && u[j] == t[j]);
                } else if i == k {
                    assert(u[j] == t[j]);
                    assert(t[i].0@ == key@);
                } else {
                    assert(u[i] == t[i]);
                    assert(t[j].0@ == key@);
                }
            }
        },
        None => {
            assert forall|i: int, j: int| 0 <= i < j < u.len() implies (#[trigger] u[i]).0@ != (
            #[trigger] u[j]).0@ by {
                if j == t.len() {
                    assert(u[i] == t[i]);
                } else {
                    assert(u[i] == t[i] && u[j] == t[j]);
                }
            }
        },
    }
}

/// After storing `value` under `key`, `key` gives `value`, and every other
/// key gives what it gave before.
pub proof fn lemma_upsert_then_lookup<V>(t: Seq<(String, V)>, key: String, value: V, other: Seq<char>)
    requires
        keys_unique(t),
    ensures
        value_of(upserted(t, key, value), key@) == Some(value),
        other != key@ ==> value_of(upserted(t, key, value), other) == value_of(t, other),
{
    let u = upserted(t, key, value);
    lemma_upsert_keeps_unique(t, key, value);
    match key_index(t, key@) {
        Some(k) => {
            assert(u[k].0@ == key@);
            assert(key_index(u, key@) == Some(k)) by {
                let c = choose|i: int|
                    0 <= i < u.len() && u[i].0@ == key@ && forall|j: int| 0 <= j < i ==> u[j].0@ != key@;
                assert(c == k);
            }
            if other != key@ {
                if exists|i: int| 0 <= i < t.len() && t[i].0@ == other {
                    let a = choose|i: int|
                        0 <= i < t.len() && t[i].0@ == other && forall|j: int| 0 <= j < i ==> t[j].0@ != other;
                    assert(u[a] == t[a]);
                    let b = choose|i: int|
                        0 <= i < u.len() && u[i].0@ == other && forall|j: int| 0 <= j < i ==> u[j].0@ != other;
                    assert(u[b] == t[b]);
                    assert(a == b);
                } else {
                    assert forall|i: int| 0 <= i < u.len() implies u[i].0@ != other by {
                        if i != k {
                            assert(u[i] == t[i]);
                        }
                    }
                }
            }
        },
        None => {
            let n = t.len() as int;
            assert(u[n].0@ == key@);
            assert(key_index(u, key@) == Some(n)) by {
                let c = choose|i: int|
                    0 <= i < u.len() && u[i].0@ == key@ && forall|j: int| 0 <= j < i ==> u[j].0@ != key@;
                if c < n {
                    assert(u[c] == t[c]);
                }
                assert forall|j: int| 0 <= j < n implies u[j].0@ != key@ by {
                    assert(u[j] == t[j]);
                }
            }
            if other != key@ {
                if exists|i: int| 0 <= i < t.len() && t[i].0@ == other {
                    let a = choose|i: int|
                        0 <= i < t.len() && t[i].0@ == other && forall|j: int| 0 <= j < i ==> t[j].0@ != other;
                    assert(u[a] == t[a]);
                    let b = choose|i: int|
                        0 <= i < u.len() && u[i].0@ == other && forall|j: int| 0 <= j < i ==> u[j].0@ != other;
                    if b < n {
                        assert(u[b] == t[b]);
                    }
                    assert(a == b);
                } else {
                    assert forall|i: int| 0 <= i < u.len() implies u[i].0@ != other by {
                        if i < n {
                            assert(u[i] == t[i]);
                        }
                    }
                }
            }
        },
    }
}

} // verus!
