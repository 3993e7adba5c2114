//! Lists of (key, value) pairs with distinct keys, read as maps.
//!
//! The cache, the metrics and the workspace registry keep their tables in
//! such lists rather than in `HashMap`s. vstd specifies `HashMap`, but its
//! contracts for `insert`, `get` and `remove` hold only where
//! `obeys_key_model::<K>()` does, which vstd establishes for integer and
//! `bool` keys and not for `String`; a `String` key would need that fact
//! assumed. With the lists, insert, lookup and removal are proved against
//! the map they stand for. A `HashMap` walks its entries in an unspecified order; a list walks
//! them in the order they were added, which is one of those orders.
use vstd::prelude::*;

verus! {

/// The keys of a list of entries, in order.
pub open spec fn key_seq<K: View, T>(s: Seq<(K, T)>) -> Seq<K::V> {
    s.map_values(|e: (K, T)| e.0@)
}

/// The position of the entry with key `k`.
pub open spec fn slot_of<K: View, T>(s: Seq<(K, T)>, k: K::V) -> int {
    choose|i: int| 0 <= i < s.len() && s[i].0@ == k
}

/// The entries as a map from key to value.
pub open spec fn entry_map<K: View, T>(s: Seq<(K, T)>) -> Map<K::V, T> {
    Map::new(
        |k: K::V| key_seq(s).contains(k),
        |k: K::V| s[slot_of(s, k)].1,
    )
}

/// No two entries share a key.
pub open spec fn keys_unique<K: View, T>(s: Seq<(K, T)>) -> bool {
    forall|i: int, j: int| 0 <= i < j < s.len() ==> s[i].0@ != s[j].0@
}

pub proof fn lemma_key_seq_index<K: View, T>(s: Seq<(K, T)>, i: int)
    requires
        0 <= i < s.len(),
    ensures
        key_seq(s)[i] == s[i].0@,
        key_seq(s).contains(s[i].0@),
{
    assert(key_seq(s)[i] == s[i].0@);
}

pub proof fn lemma_contains_slot<K: View, T>(s: Seq<(K, T)>, k: K::V)
    requires
        key_seq(s).contains(k),
    ensures
        0 <= slot_of(s, k) < s.len(),
        s[slot_of(s, k)].0@ == k,
{
    let j = choose|j: int| 0 <= j < key_seq(s).len() && key_seq(s)[j] == k;
    assert(s[j].0@ == k);
}

pub proof fn lemma_map_at<K: View, T>(s: Seq<(K, T)>, i: int)
    requires
        keys_unique(s),
        0 <= i < s.len(),
    ensures
        entry_map(s).dom().contains(s[i].0@),
        entry_map(s)[s[i].0@] == s[i].1,
{
    lemma_key_seq_index(s, i);
    lemma_contains_slot(s, s[i].0@);
    let j = slot_of(s, s[i].0@);
    if j != i {
        if j < i {
            assert(s[j].0@ != s[i].0@);
        } else {
            assert(s[i].0@ != s[j].0@);
        }
    }
}

pub proof fn lemma_map_contains<K: View, T>(s: Seq<(K, T)>, k: K::V)
    ensures
        entry_map(s).dom().contains(k) <==> exists|i: int| 0 <= i < s.len() && s[i].0@ == k,
{
    if entry_map(s).dom().contains(k) {
        lemma_contains_slot(s, k);
    }
    if exists|i: int| 0 <= i < s.len() && s[i].0@ == k {
        let i = choose|i: int| 0 <= i < s.len() && s[i].0@ == k;
        lemma_key_seq_index(s, i);
    }
}

pub proof fn lemma_map_len<K: View, T>(s: Seq<(K, T)>)
    requires
        keys_unique(s),
    ensures
        entry_map(s).dom().finite(),
        entry_map(s).len() == s.len(),
{
    let ks = key_seq(s);
    assert(ks.no_duplicates()) by {
        assert forall|i: int, j: int| 0 <= i < ks.len() && 0 <= j < ks.len() && i != j implies ks[i]
            != ks[j] by {
            if i < j {
                assert(s[i].0@ != s[j].0@);
            } else {
                assert(s[j].0@ != s[i].0@);
            }
        }
    }
    ks.unique_seq_to_set();
    assert(entry_map(s).dom() =~= ks.to_set());
}

pub proof fn lemma_map_update<K: View, T>(s: Seq<(K, T)>, i: int, e: (K, T))
    requires
        keys_unique(s),
        0 <= i < s.len(),
        e.0@ == s[i].0@,
    ensures
        keys_unique(s.update(i, e)),
        entry_map(s.update(i, e)) == entry_map(s).insert(e.0@, e.1),
{
    let t = s.update(i, e);
    assert(keys_unique(t)) by {
        assert forall|a: int, b: int| 0 <= a < b < t.len() implies t[a].0@ != t[b].0@ by {
            assert(s[a].0@ != s[b].0@);
        }
    }
    assert forall|k: K::V| #[trigger] entry_map(t).dom().contains(k) <==> entry_map(s).insert(
        e.0@,
        e.1,
    ).dom().contains(k) by {
        lemma_map_contains(t, k);
        lemma_map_contains(s, k);
        if exists|j: int| 0 <= j < s.len() && s[j].0@ == k {
            let j = choose|j: int| 0 <= j < s.len() && s[j].0@ == k;
            if j == i {
                assert(t[i].0@ == k);
            } else {
                assert(t[j].0@ == k);
            }
        }
        if k == e.0@ {
            assert(t[i].0@ == k);
        }
        if exists|j: int| 0 <= j < t.len() && t[j].0@ == k {
            let j = choose|j: int| 0 <= j < t.len() && t[j].0@ == k;
            if j != i {
                assert(s[j].0@ == k);
            }
        }
    }
    assert forall|k: K::V| #[trigger] entry_map(t).dom().contains(k) implies entry_map(t)[k]
        == entry_map(s).insert(e.0@, e.1)[k] by {
        lemma_map_contains(t, k);
        let j = choose|j: int| 0 <= j < t.len() && t[j].0@ == k;
        lemma_map_at(t, j);
        if j != i {
            lemma_map_at(s, j);
        }
    }
    assert(entry_map(t) =~= entry_map(s).insert(e.0@, e.1));
}

pub proof fn lemma_map_push<K: View, T>(s: Seq<(K, T)>, e: (K, T))
    requires
        keys_unique(s),
        !entry_map(s).dom().contains(e.0@),
    ensures
        keys_unique(s.push(e)),
        entry_map(s.push(e)) == entry_map(s).insert(e.0@, e.1),
{
    let t = s.push(e);
    lemma_map_contains(s, e.0@);
    assert(keys_unique(t)) by {
        assert forall|a: int, b: int| 0 <= a < b < t.len() implies t[a].0@ != t[b].0@ by {
            if b == s.len() {
                assert(t[a] == s[a]);
            } else {
                assert(s[a].0@ != s[b].0@);
            }
        }
    }
    assert forall|k: K::V| #[trigger] entry_map(t).dom().contains(k) <==> entry_map(s).insert(
        e.0@,
        e.1,
    ).dom().contains(k) by {
        lemma_map_contains(t, k);
        lemma_map_contains(s, k);
        if exists|j: int| 0 <= j < s.len() && s[j].0@ == k {
            let j = choose|j: int| 0 <= j < s.len() && s[j].0@ == k;
            assert(t[j].0@ == k);
        }
        if exists|j: int| 0 <= j < t.len() && t[j].0@ == k {
            let j = choose|j: int| 0 <= j < t.len() && t[j].0@ == k;
            if j < s.len() {
                assert(s[j].0@ == k);
            }
        }
        if k == e.0@ {
            assert(t[s.len() as int].0@ == k);
        }
    }
    assert forall|k: K::V| #[trigger] entry_map(t).dom().contains(k) implies entry_map(t)[k]
        == entry_map(s).insert(e.0@, e.1)[k] by {
        lemma_map_contains(t, k);
        let j = choose|j: int| 0 <= j < t.len() && t[j].0@ == k;
        lemma_map_at(t, j);
        if j < s.len() {
            lemma_map_at(s, j);
        }
    }
    assert(entry_map(t) =~= entry_map(s).insert(e.0@, e.1));
}

pub proof fn lemma_map_remove<K: View, T>(s: Seq<(K, T)>, i: int)
    requires
        keys_unique(s),
        0 <= i < s.len(),
    ensures
        keys_unique(s.remove(i)),
        entry_map(s.remove(i)) == entry_map(s).remove(s[i].0@),
{
    let t = s.remove(i);
    assert(keys_unique(t)) by {
        assert forall|a: int, b: int| 0 <= a < b < t.len() implies t[a].0@ != t[b].0@ by {
            if b < i {
                assert(s[a].0@ != s[b].0@);
            } else if a < i {
                assert(t[b] == s[b + 1]);
                assert(s[a].0@ != s[b + 1].0@);
            } else {
                assert(t[a] == s[a + 1]);
                assert(t[b] == s[b + 1]);
                assert(s[a + 1].0@ != s[b + 1].0@);
            }
        }
    }
    assert forall|k: K::V| #[trigger] entry_map(t).dom().contains(k) <==> entry_map(s).remove(
        s[i].0@,
    ).dom().contains(k) by {
        lemma_map_contains(t, k);
        lemma_map_contains(s, k);
        if exists|j: int| 0 <= j < t.len() && t[j].0@ == k {
            let j = choose|j: int| 0 <= j < t.len() && t[j].0@ == k;
            if j < i {
                assert(s[j].0@ == k);
                assert(s[j].0@ != s[i].0@);
            } else {
                assert(s[j + 1].0@ == k);
                assert(s[i].0@ != s[j + 1].0@);
            }
        }
        if exists|j: int| 0 <= j < s.len() && s[j].0@ == k && j != i {
            let j = choose|j: int| 0 <= j < s.len() && s[j].0@ == k && j != i;
            if j < i {
                assert(t[j].0@ == k);
            } else {
                assert(t[j - 1].0@ == k);
            }
        }
        if exists|j: int| 0 <= j < s.len() && s[j].0@ == k {
            let j = choose|j: int| 0 <= j < s.len() && s[j].0@ == k;
            if k != s[i].0@ {
                assert(j != i);
            }
        }
    }
    assert forall|k: K::V| #[trigger] entry_map(t).dom().contains(k) implies entry_map(t)[k]
        == entry_map(s).remove(s[i].0@)[k] by {
        lemma_map_contains(t, k);
        let j = choose|j: int| 0 <= j < t.len() && t[j].0@ == k;
        lemma_map_at(t, j);
        if j < i {
            lemma_map_at(s, j);
        } else {
            lemma_map_at(s, j + 1);
        }
    }
    assert(entry_map(t) =~= entry_map(s).remove(s[i].0@));
}


} // verus!
