//! Sequences of key-value pairs read as maps.
//!
//! An object is stored as its members in a row; what it means is the map from each key to the
//! value beside it. The lemmas here connect the two readings for rows whose keys are distinct.

use vstd::prelude::*;

verus! {

/// Whether some pair of `s` has the key `k`.
pub open spec fn has_key<V>(s: Seq<(Seq<char>, V)>, k: Seq<char>) -> bool {
    exists|i: int| 0 <= i < s.len() && (#[trigger] s[i]).0 == k
}

/// Whether no key occurs twice in `s`.
pub open spec fn distinct_keys<V>(s: Seq<(Seq<char>, V)>) -> bool {
    forall|i: int, j: int| 0 <= i < j < s.len() ==> (#[trigger] s[i]).0 != (#[trigger] s[j]).0
}

/// The map that a row of key-value pairs stands for. Where a key occurs twice the map holds
/// one of its values; this library only reads rows with distinct keys as maps.
pub open spec fn entries_map<V>(s: Seq<(Seq<char>, V)>) -> Map<Seq<char>, V> {
    Map::new(
        |k: Seq<char>| has_key(s, k),
        |k: Seq<char>| s[choose|i: int| 0 <= i < s.len() && (#[trigger] s[i]).0 == k].1,
    )
}

/// In a row with distinct keys, the map sends each key to the value beside it.
pub proof fn lemma_entries_map_at<V>(s: Seq<(Seq<char>, V)>, i: int)
    requires
        distinct_keys(s),
        0 <= i < s.len(),
    ensures
        entries_map(s).dom().contains(s[i].0),
        entries_map(s)[s[i].0] == s[i].1,
{
    let c = choose|c: int| 0 <= c < s.len() && (#[trigger] s[c]).0 == s[i].0;
    assert(c == i);
}

/// The empty row stands for the empty map.
pub proof fn lemma_entries_map_empty<V>()
    ensures
        entries_map(Seq::<(Seq<char>, V)>::empty()) == Map::<Seq<char>, V>::empty(),
{
}

/// Appending a pair with a fresh key inserts it into the map.
pub proof fn lemma_entries_map_push<V>(s: Seq<(Seq<char>, V)>, k: Seq<char>, v: V)
    requires
        distinct_keys(s),
        !has_key(s, k),
    ensures
        distinct_keys(s.push((k, v))),
        entries_map(s.push((k, v))) == entries_map(s).insert(k, v),
{
    let t = s.push((k, v));
    let m = entries_map(s).insert(k, v);
    assert(distinct_keys(t));
    assert forall|q: Seq<char>| entries_map(t).dom().contains(q) <==> m.dom().contains(q) by {
        if has_key(s, q) {
            let i = choose|i: int| 0 <= i < s.len() && (#[trigger] s[i]).0 == q;
            assert(t[i] == s[i]);
        }
        if q == k {
            assert(t[s.len() as int].0 == k);
        }
    }
    assert forall|q: Seq<char>| entries_map(t).dom().contains(q) implies entries_map(t)[q]
        == m[q] by {
        let i = choose|i: int| 0 <= i < t.len() && (#[trigger] t[i]).0 == q;
        lemma_entries_map_at(t, i);
        if i < s.len() {
            lemma_entries_map_at(s, i);
        }
    }
}

/// Replacing the value beside a key replaces it in the map.
pub proof fn lemma_entries_map_update<V>(s: Seq<(Seq<char>, V)>, i: int, v: V)
    requires
        distinct_keys(s),
        0 <= i < s.len(),
    ensures
        distinct_keys(s.update(i, (s[i].0, v))),
        entries_map(s.update(i, (s[i].0, v))) == entries_map(s).insert(s[i].0, v),
{
    let t = s.update(i, (s[i].0, v));
    let m = entries_map(s).insert(s[i].0, v);
    assert(distinct_keys(t));
    assert forall|q: Seq<char>| entries_map(t).dom().contains(q) <==> m.dom().contains(q) by {
        if has_key(s, q) {
            let a = choose|a: int| 0 <= a < s.len() && (#[trigger] s[a]).0 == q;
            assert(t[a].0 == q);
        }
    }
    assert forall|q: Seq<char>| entries_map(t).dom().contains(q) implies entries_map(t)[q]
        == m[q] by {
        let a = choose|a: int| 0 <= a < t.len() && (#[trigger] t[a]).0 == q;
        lemma_entries_map_at(t, a);
        if a != i {
            lemma_entries_map_at(s, a);
        }
    }
}

/// A row with distinct keys stands for a finite map with one key for each pair.
pub proof fn lemma_entries_map_len<V>(s: Seq<(Seq<char>, V)>)
    requires
        distinct_keys(s),
    ensures
        entries_map(s).dom().finite(),
        entries_map(s).dom().len() == s.len(),
    decreases s.len(),
{
    if s.len() == 0 {
        assert(s =~= Seq::empty());
        lemma_entries_map_empty::<V>();
    } else {
        let init = s.drop_last();
        let last = s.last();
        assert(s =~= init.push(last));
        assert(distinct_keys(init));
        lemma_entries_map_len(init);
        lemma_entries_map_push(init, last.0, last.1);
    }
}

/// Two rows with the same keys at the same places, the first with distinct keys, stand for
/// maps with the same keys, and under each key stand the values that the rows hold beside it.
pub proof fn lemma_entries_map_same_keys<V, W>(s: Seq<(Seq<char>, V)>, t: Seq<(Seq<char>, W)>)
    requires
        distinct_keys(s),
        s.len() == t.len(),
        forall|i: int| 0 <= i < s.len() ==> (#[trigger] s[i]).0 == t[i].0,
    ensures
        distinct_keys(t),
        entries_map(s).dom() == entries_map(t).dom(),
        forall|k: Seq<char>| #[trigger]
            entries_map(s).dom().contains(k) ==> exists|i: int|
                0 <= i < s.len() && (#[trigger] s[i]).0 == k && entries_map(s)[k] == s[i].1
                    && entries_map(t)[k] == t[i].1,
{
    assert forall|i: int, j: int| 0 <= i < j < t.len() implies (#[trigger] t[i]).0 != (
    #[trigger] t[j]).0 by {
        assert(s[i].0 != s[j].0);
    }
    assert forall|k: Seq<char>| has_key(s, k) <==> has_key(t, k) by {
        if has_key(t, k) {
            let i = choose|i: int| 0 <= i < t.len() && (#[trigger] t[i]).0 == k;
            assert(s[i].0 == k);
        }
    }
    assert forall|k: Seq<char>| #[trigger] entries_map(s).dom().contains(k) implies exists|i: int|
        0 <= i < s.len() && (#[trigger] s[i]).0 == k && entries_map(s)[k] == s[i].1
            && entries_map(t)[k] == t[i].1 by {
        let i = choose|i: int| 0 <= i < s.len() && (#[trigger] s[i]).0 == k;
        lemma_entries_map_at(s, i);
        lemma_entries_map_at(t, i);
    }
}

} // verus!
