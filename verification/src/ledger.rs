//! Association ledgers keyed by account identity. Both the raffle registry
//! (owner -> record) and a raffle's participant ledger (participant -> stake)
//! are sequences of pairs with pairwise-distinct keys, so lookups are stated
//! once here over any value type.
use vstd::prelude::*;

verus! {

/// No identity appears as a key more than once.
pub open spec fn unique_keys<V>(s: Seq<(String, V)>) -> bool {
    forall|i: int, j: int| 0 <= i < j < s.len() ==> s[i].0@ != s[j].0@
}

/// Some entry of `s` is keyed by `key`.
pub open spec fn has_key<V>(s: Seq<(String, V)>, key: Seq<char>) -> bool {
    exists|i: int| 0 <= i < s.len() && s[i].0@ == key
}

/// The index of the entry keyed by `key`; meaningful only when `has_key`
/// holds, and unique when `unique_keys` holds.
pub open spec fn key_idx<V>(s: Seq<(String, V)>, key: Seq<char>) -> int {
    choose|i: int| 0 <= i < s.len() && s[i].0@ == key
}

/// With pairwise-distinct keys, an entry keyed by `key` at position `i` is
/// the one `key_idx` denotes.
pub proof fn lemma_key_idx<V>(s: Seq<(String, V)>, key: Seq<char>, i: int)
    requires
        unique_keys(s),
        0 <= i < s.len(),
        s[i].0@ == key,
    ensures
        has_key(s, key),
        key_idx(s, key) == i,
{
    assert(has_key(s, key));
    let j = key_idx(s, key);
    assert(0 <= j < s.len() && s[j].0@ == key);
    if i < j {
        assert(s[i].0@ != s[j].0@);
    } else if j < i {
        assert(s[j].0@ != s[i].0@);
    }
}

/// The value stored under `key`, if any; with `unique_keys` it is the one
/// entry of that identity.
pub open spec fn lookup<V>(s: Seq<(String, V)>, key: Seq<char>) -> Option<V> {
    if has_key(s, key) {
        Some(s[key_idx(s, key)].1)
    } else {
        None
    }
}

/// Appending an entry under a fresh key binds that key and leaves every
/// other key's binding as it was.
pub proof fn lemma_push_lookup<V>(s: Seq<(String, V)>, e: (String, V))
    requires
        unique_keys(s),
        !has_key(s, e.0@),
    ensures
        unique_keys(s.push(e)),
        lookup(s.push(e), e.0@) == Some(e.1),
        forall|k: Seq<char>| k != e.0@ ==> #[trigger] lookup(s.push(e), k) == lookup(s, k),
{
    let t = s.push(e);
    assert forall|i: int, j: int| 0 <= i < j < t.len() implies t[i].0@ != t[j].0@ by {
        if j == s.len() {
            assert(t[i] == s[i]);
            if t[i].0@ == e.0@ {
                assert(has_key(s, e.0@));
            }
        } else {
            assert(t[i] == s[i] && t[j] == s[j]);
        }
    }
    lemma_key_idx(t, e.0@, s.len() as int);
    assert forall|k: Seq<char>| k != e.0@ implies #[trigger] lookup(t, k) == lookup(s, k) by {
        if has_key(s, k) {
            let i = choose|i: int| 0 <= i < s.len() && s[i].0@ == k;
            lemma_key_idx(s, k, i);
            assert(t[i] == s[i]);
            lemma_key_idx(t, k, i);
        } else if has_key(t, k) {
            let i = choose|i: int| 0 <= i < t.len() && t[i].0@ == k;
            assert(i < s.len());
            assert(s[i].0@ == k);
        }
    }
}

/// Replacing the entry at `i` by one under the same key rebinds that key and
/// leaves every other key's binding as it was.
pub proof fn lemma_update_lookup<V>(s: Seq<(String, V)>, i: int, e: (String, V))
    requires
        unique_keys(s),
        0 <= i < s.len(),
        e.0@ == s[i].0@,
    ensures
        unique_keys(s.update(i, e)),
        lookup(s.update(i, e), e.0@) == Some(e.1),
        forall|k: Seq<char>| k != e.0@ ==> #[trigger] lookup(s.update(i, e), k) == lookup(s, k),
{
    let t = s.update(i, e);
    assert forall|m: int, j: int| 0 <= m < j < t.len() implies t[m].0@ != t[j].0@ by {
        assert(t[m].0@ == s[m].0@ && t[j].0@ == s[j].0@);
    }
    lemma_key_idx(t, e.0@, i);
    assert forall|k: Seq<char>| k != e.0@ implies #[trigger] lookup(t, k) == lookup(s, k) by {
        if has_key(s, k) {
            let j = choose|j: int| 0 <= j < s.len() && s[j].0@ == k;
            lemma_key_idx(s, k, j);
            assert(t[j].0@ == k && t[j].1 == s[j].1);
            lemma_key_idx(t, k, j);
        } else if has_key(t, k) {
            let j = choose|j: int| 0 <= j < t.len() && t[j].0@ == k;
            assert(s[j].0@ == k);
        }
    }
}

/// Removing the entry at `i` unbinds its key and leaves every other key's
/// binding as it was.
pub proof fn lemma_remove_lookup<V>(s: Seq<(String, V)>, i: int)
    requires
        unique_keys(s),
        0 <= i < s.len(),
    ensures
        unique_keys(s.remove(i)),
        lookup(s.remove(i), s[i].0@) == None::<V>,
        forall|k: Seq<char>| k != s[i].0@ ==> #[trigger] lookup(s.remove(i), k) == lookup(s, k),
{
    let t = s.remove(i);
    assert forall|m: int, j: int| 0 <= m < j < t.len() implies t[m].0@ != t[j].0@ by {
        let m0 = if m < i { m } else { m + 1 };
        let j0 = if j < i { j } else { j + 1 };
        assert(t[m] == s[m0] && t[j] == s[j0]);
    }
    if has_key(t, s[i].0@) {
        let m = choose|m: int| 0 <= m < t.len() && t[m].0@ == s[i].0@;
        let m0 = if m < i { m } else { m + 1 };
        assert(t[m] == s[m0]);
        assert(s[m0].0@ == s[i].0@ && m0 != i);
        if m0 < i {
            assert(s[m0].0@ != s[i].0@);
        } else {
            assert(s[i].0@ != s[m0].0@);
        }
    }
    assert forall|k: Seq<char>| k != s[i].0@ implies #[trigger] lookup(t, k) == lookup(s, k) by {
        if has_key(s, k) {
            let j = choose|j: int| 0 <= j < s.len() && s[j].0@ == k;
            lemma_key_idx(s, k, j);
            let m = if j < i { j } else { j - 1 };
            assert(t[m] == s[j]);
            lemma_key_idx(t, k, m);
        } else if has_key(t, k) {
            let m = choose|m: int| 0 <= m < t.len() && t[m].0@ == k;
            let m0 = if m < i { m } else { m + 1 };
            assert(t[m] == s[m0]);
            assert(s[m0].0@ == k);
        }
    }
}

/// Linear search for `key`; the sole way the executable code answers
/// "does this identity have an entry, and where."
pub fn find_key<V>(v: &Vec<(String, V)>, key: &String) -> (r: Option<usize>)
    ensures
        r matches Some(i) ==> 0 <= i < v@.len() && v@[i as int].0@ == key@,
        r is Some <==> has_key(v@, key@),
{
    let mut j: usize = 0;
    while j < v.len()
        invariant
            0 <= j <= v@.len(),
            forall|k: int| 0 <= k < j ==> v@[k].0@ != key@,
        decreases v@.len() - j,
    {
        if v[j].0 == *key {
            return Some(j);
        }
        j = j + 1;
    }
    None
}

} // verus!
