//! Association lists keyed by byte strings: the model of the engine's
//! tables. A table is a sequence of `(key, value)` pairs in which no key
//! occurs twice; it reads as a map.

use vstd::prelude::*;

verus! {

/// No key occurs twice.
pub open spec fn keys_distinct<V>(s: Seq<(Seq<u8>, V)>) -> bool {
    forall|i: int, j: int| 0 <= i < j < s.len() ==> (#[trigger] s[i]).0 != (#[trigger] s[j]).0
}

/// Some pair has the key.
pub open spec fn has_key<V>(s: Seq<(Seq<u8>, V)>, key: Seq<u8>) -> bool {
    exists|i: int| 0 <= i < s.len() && (#[trigger] s[i]).0 == key
}

/// Where the key stands, if some pair has it.
pub open spec fn index_of<V>(s: Seq<(Seq<u8>, V)>, key: Seq<u8>) -> int {
    choose|i: int| 0 <= i < s.len() && (#[trigger] s[i]).0 == key
}

/// The table as a map.
pub open spec fn to_map<V>(s: Seq<(Seq<u8>, V)>) -> Map<Seq<u8>, V> {
    Map::new(|key: Seq<u8>| has_key(s, key), |key: Seq<u8>| s[index_of(s, key)].1)
}

/// The table with `value` under `key`: in place of the old value where the
/// key is present, else as a new last pair.
pub open spec fn upsert<V>(s: Seq<(Seq<u8>, V)>, key: Seq<u8>, value: V) -> Seq<(Seq<u8>, V)> {
    if has_key(s, key) {
        s.update(index_of(s, key), (key, value))
    } else {
        s.push((key, value))
    }
}

/// The table without the pair of `key`.
pub open spec fn without<V>(s: Seq<(Seq<u8>, V)>, key: Seq<u8>) -> Seq<(Seq<u8>, V)> {
    if has_key(s, key) {
        s.remove(index_of(s, key))
    } else {
        s
    }
}

/// In a table, a key is found where it stands.
pub proof fn lemma_index_of<V>(s: Seq<(Seq<u8>, V)>, i: int)
    requires
        keys_distinct(s),
        0 <= i < s.len(),
    ensures
        has_key(s, s[i].0),
        index_of(s, s[i].0) == i,
        to_map(s).contains_key(s[i].0),
        to_map(s)[s[i].0] == s[i].1,
{
    let j = index_of(s, s[i].0);
    assert(0 <= j < s.len() && s[j].0 == s[i].0);
    if j < i {
        assert(s[j].0 != s[i].0);
    } else if i < j {
        assert(s[i].0 != s[j].0);
    }
}

/// `upsert` keeps a table a table and reads as `insert` on the map.
pub proof fn lemma_upsert<V>(s: Seq<(Seq<u8>, V)>, key: Seq<u8>, value: V)
    requires
        keys_distinct(s),
    ensures
        keys_distinct(upsert(s, key, value)),
        has_key(upsert(s, key, value), key),
        to_map(upsert(s, key, value)) == to_map(s).insert(key, value),
        upsert(s, key, value).len() == if has_key(s, key) {
            s.len()
        } else {
            s.len() + 1
        },
{
    let t = upsert(s, key, value);
    if has_key(s, key) {
        let at = index_of(s, key);
        assert(t[at].0 == key);
        assert forall|i: int, j: int| 0 <= i < j < t.len() implies (#[trigger] t[i]).0 != (
        #[trigger] t[j]).0 by {
            assert(t[i].0 == s[i].0 && t[j].0 == s[j].0);
        }
        assert forall|k: Seq<u8>| has_key(t, k) == has_key(s, k) by {
            if has_key(s, k) {
                let i = index_of(s, k);
                assert(t[i].0 == k);
            }
            if has_key(t, k) {
                let i = index_of(t, k);
                assert(s[i].0 == k);
            }
        }
        assert forall|k: Seq<u8>| has_key(t, k) implies #[trigger] to_map(t)[k] == to_map(
            s,
        ).insert(key, value)[k] by {
            let i = index_of(t, k);
            assert(s[i].0 == k);
            lemma_index_of(s, i);
            lemma_index_of(t, i);
        }
        assert(to_map(t) =~= to_map(s).insert(key, value));
    } else {
        let at = s.len() as int;
        assert(t[at].0 == key);
        assert forall|i: int, j: int| 0 <= i < j < t.len() implies (#[trigger] t[i]).0 != (
        #[trigger] t[j]).0 by {
            if j == at {
                assert(t[i] == s[i]);
                assert(s[i].0 != key);
            } else {
                assert(t[i] == s[i] && t[j] == s[j]);
            }
        }
        assert forall|k: Seq<u8>| has_key(t, k) == (has_key(s, k) || k == key) by {
            if has_key(s, k) {
                let i = index_of(s, k);
                assert(t[i].0 == k);
            }
            if has_key(t, k) {
                let i = index_of(t, k);
                if i < at {
                    assert(s[i].0 == k);
                }
            }
        }
        assert forall|k: Seq<u8>| has_key(t, k) implies #[trigger] to_map(t)[k] == to_map(
            s,
        ).insert(key, value)[k] by {
            let i = index_of(t, k);
            lemma_index_of(t, i);
            if i < at {
                assert(s[i] == t[i]);
                lemma_index_of(s, i);
            }
        }
        assert(to_map(t) =~= to_map(s).insert(key, value));
    }
}

/// `without` keeps a table a table and reads as `remove` on the map.
pub proof fn lemma_without<V>(s: Seq<(Seq<u8>, V)>, key: Seq<u8>)
    requires
        keys_distinct(s),
    ensures
        keys_distinct(without(s, key)),
        !has_key(without(s, key), key),
        to_map(without(s, key)) == to_map(s).remove(key),
        without(s, key).len() == if has_key(s, key) {
            s.len() - 1
        } else {
            s.len() as int
        },
{
    let t = without(s, key);
    if has_key(s, key) {
        let at = index_of(s, key);
        lemma_index_of(s, at);
        assert forall|i: int| 0 <= i < t.len() implies #[trigger] t[i] == s[if i < at {
            i
        } else {
            i + 1
        }] by {}
        assert forall|i: int, j: int| 0 <= i < j < t.len() implies (#[trigger] t[i]).0 != (
        #[trigger] t[j]).0 by {
            let si = if i < at {
                i
            } else {
                i + 1
            };
            let sj = if j < at {
                j
            } else {
                j + 1
            };
            assert(t[i] == s[si] && t[j] == s[sj]);
            assert(s[si].0 != s[sj].0);
        }
        assert forall|k: Seq<u8>| has_key(t, k) == (has_key(s, k) && k != key) by {
            if has_key(t, k) {
                let i = index_of(t, k);
                let si = if i < at {
                    i
                } else {
                    i + 1
                };
                assert(t[i] == s[si]);
                assert(s[si].0 == k);
                if k == key {
                    lemma_index_of(s, si);
                }
            }
            if has_key(s, k) && k != key {
                let si = index_of(s, k);
                let i = if si < at {
                    si
                } else {
                    si - 1
                };
                assert(t[i] == s[si]);
            }
        }
        assert forall|k: Seq<u8>| has_key(t, k) implies #[trigger] to_map(t)[k] == to_map(
            s,
        ).remove(key)[k] by {
            let i = index_of(t, k);
            let si = if i < at {
                i
            } else {
                i + 1
            };
            assert(t[i] == s[si]);
            lemma_index_of(t, i);
            lemma_index_of(s, si);
        }
        assert(to_map(t) =~= to_map(s).remove(key));
    } else {
        assert(to_map(t) =~= to_map(s).remove(key));
    }
}

/// A table has as many pairs as its map has keys.
pub proof fn lemma_map_len<V>(s: Seq<(Seq<u8>, V)>)
    requires
        keys_distinct(s),
    ensures
        to_map(s).dom().finite(),
        to_map(s).dom().len() == s.len(),
    decreases s.len(),
{
    if s.len() == 0 {
        assert(to_map(s).dom() =~= Set::<Seq<u8>>::empty());
    } else {
        let last = (s.len() - 1) as int;
        let key = s[last].0;
        lemma_index_of(s, last);
        let t = without(s, key);
        assert(t =~= s.drop_last());
        lemma_without(s, key);
        lemma_map_len(t);
        assert(to_map(s).dom() =~= to_map(t).dom().insert(key));
        assert(!to_map(t).dom().contains(key));
    }
}

/// A second `upsert` under the same key replaces the first.
pub proof fn lemma_upsert_twice<V>(s: Seq<(Seq<u8>, V)>, key: Seq<u8>, first: V, second: V)
    requires
        keys_distinct(s),
    ensures
        upsert(upsert(s, key, first), key, second) == upsert(s, key, second),
{
    let t = upsert(s, key, first);
    lemma_upsert(s, key, first);
    if has_key(s, key) {
        let at = index_of(s, key);
        assert(t[at].0 == key);
        lemma_index_of(t, at);
        assert(upsert(t, key, second) =~= upsert(s, key, second));
    } else {
        let at = s.len() as int;
        assert(t[at].0 == key);
        lemma_index_of(t, at);
        assert(upsert(t, key, second) =~= upsert(s, key, second));
    }
}

/// Removing a key undoes an `upsert` under it.
pub proof fn lemma_without_upsert<V>(s: Seq<(Seq<u8>, V)>, key: Seq<u8>, value: V)
    requires
        keys_distinct(s),
    ensures
        without(upsert(s, key, value), key) == without(s, key),
{
    let t = upsert(s, key, value);
    lemma_upsert(s, key, value);
    if has_key(s, key) {
        let at = index_of(s, key);
        assert(t[at].0 == key);
        lemma_index_of(t, at);
        assert(without(t, key) =~= without(s, key));
    } else {
        let at = s.len() as int;
        assert(t[at].0 == key);
        lemma_index_of(t, at);
        assert(without(t, key) =~= without(s, key));
    }
}

} // verus!
