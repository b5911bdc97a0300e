//! Keyed state storage.
//!
//! The persisted state holds several keyed families (per-address records,
//! per-id challenge and execution records).  Each family is stored as an
//! association list; `alist_get` is the mathematical reading of such a list
//! and the exec helpers below maintain it.

use vstd::prelude::*;
use crate::types::Address;

verus! {

/// First-match lookup in an association list.
pub open spec fn alist_get<K, V>(s: Seq<(K, V)>, k: K) -> Option<V>
    decreases s.len(),
{
    if s.len() == 0 {
        None
    } else if s[0].0 == k {
        Some(s[0].1)
    } else {
        alist_get(s.skip(1), k)
    }
}

/// Lookup ignores a prefix that does not mention the key.
pub proof fn lemma_alist_get_skip<K, V>(s: Seq<(K, V)>, k: K, i: int)
    requires
        0 <= i <= s.len(),
        forall|j: int| 0 <= j < i ==> s[j].0 != k,
    ensures
        alist_get(s, k) == alist_get(s.skip(i), k),
    decreases i,
{
    if i > 0 {
        assert(s.len() > 0);
        assert(s[0].0 != k);
        assert(alist_get(s, k) == alist_get(s.skip(1), k));
        assert(forall|j: int| 0 <= j < i - 1 ==> #[trigger] s.skip(1)[j].0 == s[j + 1].0);
        lemma_alist_get_skip(s.skip(1), k, i - 1);
        assert(s.skip(1).skip(i - 1) =~= s.skip(i));
    } else {
        assert(s.skip(0) =~= s);
    }
}

/// Replacing the first entry for `k` rebinds `k` and no other key.
pub proof fn lemma_alist_get_update<K, V>(s: Seq<(K, V)>, i: int, k: K, v: V)
    requires
        0 <= i < s.len(),
        s[i].0 == k,
        forall|j: int| 0 <= j < i ==> s[j].0 != k,
    ensures
        alist_get(s.update(i, (k, v)), k) == Some(v),
        forall|k2: K| k2 != k ==> alist_get(s.update(i, (k, v)), k2) == alist_get(s, k2),
    decreases i,
{
    let t = s.update(i, (k, v));
    if i == 0 {
        assert(t[0] == (k, v));
        assert(t.skip(1) =~= s.skip(1));
        assert(alist_get(t, k) == Some(v));
        assert forall|k2: K| k2 != k implies alist_get(t, k2) == alist_get(s, k2) by {
            assert(alist_get(t, k2) == alist_get(t.skip(1), k2));
            assert(alist_get(s, k2) == alist_get(s.skip(1), k2));
        }
    } else {
        assert(t[0] == s[0]);
        assert(s[0].0 != k);
        lemma_alist_get_update(s.skip(1), i - 1, k, v);
        assert(s.skip(1).update(i - 1, (k, v)) =~= t.skip(1));
        assert(alist_get(t, k) == alist_get(t.skip(1), k));
        assert(alist_get(t, k) == Some(v));
        assert forall|k2: K| k2 != k implies alist_get(t, k2) == alist_get(s, k2) by {
            if t[0].0 != k2 {
                assert(alist_get(t, k2) == alist_get(t.skip(1), k2));
                assert(alist_get(s, k2) == alist_get(s.skip(1), k2));
            }
        }
    }
}

/// Appending a binding for a key that is absent adds `k` and hides nothing.
pub proof fn lemma_alist_get_push<K, V>(s: Seq<(K, V)>, k: K, v: V)
    requires
        forall|j: int| 0 <= j < s.len() ==> s[j].0 != k,
    ensures
        alist_get(s.push((k, v)), k) == Some(v),
        forall|k2: K| k2 != k ==> alist_get(s.push((k, v)), k2) == alist_get(s, k2),
    decreases s.len(),
{
    let t = s.push((k, v));
    if s.len() == 0 {
        assert(t.skip(1) =~= Seq::<(K, V)>::empty());
        assert(alist_get(t, k) == Some(v));
        assert forall|k2: K| k2 != k implies alist_get(t, k2) == alist_get(s, k2) by {
            assert(alist_get(t, k2) == alist_get(t.skip(1), k2));
            assert(alist_get(t.skip(1), k2) is None);
        }
    } else {
        assert(t[0] == s[0]);
        lemma_alist_get_push(s.skip(1), k, v);
        assert(s.skip(1).push((k, v)) =~= t.skip(1));
        assert(alist_get(t, k) == Some(v));
        assert forall|k2: K| k2 != k implies alist_get(t, k2) == alist_get(s, k2) by {
            if t[0].0 != k2 {
                assert(alist_get(t, k2) == alist_get(t.skip(1), k2));
                assert(alist_get(s, k2) == alist_get(s.skip(1), k2));
            }
        }
    }
}

/// A list element is reflected by the lookup of its key, when lookups miss
/// everywhere it can still be read off any index.
pub proof fn lemma_alist_get_some_of_index<K, V>(s: Seq<(K, V)>, i: int)
    requires
        0 <= i < s.len(),
    ensures
        alist_get(s, s[i].0) is Some,
    decreases i,
{
    if i > 0 && s[0].0 != s[i].0 {
        lemma_alist_get_some_of_index(s.skip(1), i - 1);
    }
}

/// Looks up an address-keyed record.
pub fn amap_get<'a, V>(m: &'a Vec<(Address, V)>, k: &Address) -> (r: Option<&'a V>)
    ensures
        match r {
            Some(v) => alist_get(m@, *k) == Some(*v),
            None => alist_get(m@, *k) is None,
        },
{
    let mut i: usize = 0;
    while i < m.len()
        invariant
            i <= m@.len(),
            forall|j: int| 0 <= j < i ==> m@[j].0 != *k,
        decreases m@.len() - i,
    {
        if m[i].0 == *k {
            proof {
                lemma_alist_get_skip(m@, *k, i as int);
            }
            return Some(&m[i].1);
        }
        i += 1;
    }
    proof {
        lemma_alist_get_skip(m@, *k, m@.len() as int);
    }
    None
}

/// Binds `k` to `v`, replacing any earlier binding.
pub fn amap_set<V>(m: &mut Vec<(Address, V)>, k: Address, v: V)
    ensures
        alist_get(final(m)@, k) == Some(v),
        forall|k2: Address| k2 != k ==> alist_get(final(m)@, k2) == alist_get(old(m)@, k2),
{
    let mut i: usize = 0;
    while i < m.len()
        invariant
            i <= m@.len(),
            m@ == old(m)@,
            forall|j: int| 0 <= j < i ==> m@[j].0 != k,
        decreases m@.len() - i,
    {
        if m[i].0 == k {
            proof {
                lemma_alist_get_update(m@, i as int, k, v);
            }
            m[i] = (k, v);
            return;
        }
        i += 1;
    }
    proof {
        lemma_alist_get_push(m@, k, v);
    }
    m.push((k, v));
}

/// Looks up an id-keyed record.
pub fn imap_get<'a, V>(m: &'a Vec<(u128, V)>, k: u128) -> (r: Option<&'a V>)
    ensures
        match r {
            Some(v) => alist_get(m@, k) == Some(*v),
            None => alist_get(m@, k) is None,
        },
{
    let mut i: usize = 0;
    while i < m.len()
        invariant
            i <= m@.len(),
            forall|j: int| 0 <= j < i ==> m@[j].0 != k,
        decreases m@.len() - i,
    {
        if m[i].0 == k {
            proof {
                lemma_alist_get_skip(m@, k, i as int);
            }
            return Some(&m[i].1);
        }
        i += 1;
    }
    proof {
        lemma_alist_get_skip(m@, k, m@.len() as int);
    }
    None
}

/// Binds id `k` to `v`, replacing any earlier binding.
pub fn imap_set<V>(m: &mut Vec<(u128, V)>, k: u128, v: V)
    ensures
        alist_get(final(m)@, k) == Some(v),
        forall|k2: u128| k2 != k ==> alist_get(final(m)@, k2) == alist_get(old(m)@, k2),
{
    let mut i: usize = 0;
    while i < m.len()
        invariant
            i <= m@.len(),
            m@ == old(m)@,
            forall|j: int| 0 <= j < i ==> m@[j].0 != k,
        decreases m@.len() - i,
    {
        if m[i].0 == k {
            proof {
                lemma_alist_get_update(m@, i as int, k, v);
            }
            m[i] = (k, v);
            return;
        }
        i += 1;
    }
    proof {
        lemma_alist_get_push(m@, k, v);
    }
    m.push((k, v));
}

/// Whether the id list mentions `x`.
pub fn ids_contain(v: &Vec<u128>, x: u128) -> (r: bool)
    ensures
        r == v@.contains(x),
{
    let mut i: usize = 0;
    while i < v.len()
        invariant
            i <= v@.len(),
            forall|j: int| 0 <= j < i ==> v@[j] != x,
        decreases v@.len() - i,
    {
        if v[i] == x {
            return true;
        }
        i += 1;
    }
    false
}

/// Removes the first occurrence of `x` from the id list.
pub fn ids_remove(v: &mut Vec<u128>, x: u128)
    requires
        old(v)@.contains(x),
    ensures
        final(v)@ == old(v)@.remove_value(x),
{
    let mut i: usize = 0;
    while i < v.len()
        invariant
            i <= v@.len(),
            v@ == old(v)@,
            v@.contains(x),
            forall|j: int| 0 <= j < i ==> v@[j] != x,
        decreases v@.len() - i,
    {
        if v[i] == x {
            proof {
                v@.index_of_first_ensures(x);
                let j = v@.index_of_first(x).unwrap();
                if j < i {
                    assert(v@[j] != x);
                }
                if j > i {
                    assert(v@[i as int] != x);
                }
                assert(v@.index_of_first(x) == Some(i as int));
            }
            v.remove(i);
            return;
        }
        i += 1;
    }
    proof {
        let w = choose|w: int| 0 <= w < v@.len() && v@[w] == x;
        assert(v@[w] != x);
        assert(false);
    }
}


/// First-match lookup in a string-keyed association list, by text.
pub open spec fn slist_get<V>(s: Seq<(String, V)>, k: Seq<char>) -> Option<V>
    decreases s.len(),
{
    if s.len() == 0 {
        None
    } else if s[0].0@ == k {
        Some(s[0].1)
    } else {
        slist_get(s.skip(1), k)
    }
}

/// Lookup ignores a prefix that does not mention the key.
proof fn lemma_slist_get_skip<V>(s: Seq<(String, V)>, k: Seq<char>, i: int)
    requires
        0 <= i <= s.len(),
        forall|j: int| 0 <= j < i ==> s[j].0@ != k,
    ensures
        slist_get(s, k) == slist_get(s.skip(i), k),
    decreases i,
{
    if i > 0 {
        assert(s.len() > 0);
        assert(s[0].0@ != k);
        assert(slist_get(s, k) == slist_get(s.skip(1), k));
        assert(forall|j: int| 0 <= j < i - 1 ==> #[trigger] s.skip(1)[j].0 == s[j + 1].0);
        lemma_slist_get_skip(s.skip(1), k, i - 1);
        assert(s.skip(1).skip(i - 1) =~= s.skip(i));
    } else {
        assert(s.skip(0) =~= s);
    }
}

/// Replacing the first entry for `k` rebinds `k` and no other key.
proof fn lemma_slist_get_update<V>(s: Seq<(String, V)>, i: int, k: String, v: V)
    requires
        0 <= i < s.len(),
        s[i].0@ == k@,
        forall|j: int| 0 <= j < i ==> s[j].0@ != k@,
    ensures
        slist_get(s.update(i, (k, v)), k@) == Some(v),
        forall|k2: Seq<char>| k2 != k@ ==> slist_get(s.update(i, (k, v)), k2) == slist_get(s, k2),
    decreases i,
{
    let t = s.update(i, (k, v));
    if i == 0 {
        assert(t[0] == (k, v));
        assert(t.skip(1) =~= s.skip(1));
        assert(slist_get(t, k@) == Some(v));
        assert forall|k2: Seq<char>| k2 != k@ implies slist_get(t, k2) == slist_get(s, k2) by {
            assert(slist_get(t, k2) == slist_get(t.skip(1), k2));
            assert(slist_get(s, k2) == slist_get(s.skip(1), k2));
        }
    } else {
        assert(t[0] == s[0]);
        assert(s[0].0@ != k@);
        lemma_slist_get_update(s.skip(1), i - 1, k, v);
        assert(s.skip(1).update(i - 1, (k, v)) =~= t.skip(1));
        assert(slist_get(t, k@) == slist_get(t.skip(1), k@));
        assert(slist_get(t, k@) == Some(v));
        assert forall|k2: Seq<char>| k2 != k@ implies slist_get(t, k2) == slist_get(s, k2) by {
            if t[0].0@ != k2 {
                assert(slist_get(t, k2) == slist_get(t.skip(1), k2));
                assert(slist_get(s, k2) == slist_get(s.skip(1), k2));
            }
        }
    }
}

/// Appending a binding for a key that is absent adds `k` and hides nothing.
proof fn lemma_slist_get_push<V>(s: Seq<(String, V)>, k: String, v: V)
    requires
        forall|j: int| 0 <= j < s.len() ==> s[j].0@ != k@,
    ensures
        slist_get(s.push((k, v)), k@) == Some(v),
        forall|k2: Seq<char>| k2 != k@ ==> slist_get(s.push((k, v)), k2) == slist_get(s, k2),
    decreases s.len(),
{
    let t = s.push((k, v));
    if s.len() == 0 {
        assert(t.skip(1) =~= Seq::<(String, V)>::empty());
        assert(slist_get(t, k@) == Some(v));
        assert forall|k2: Seq<char>| k2 != k@ implies slist_get(t, k2) == slist_get(s, k2) by {
            assert(slist_get(t, k2) == slist_get(t.skip(1), k2));
            assert(slist_get(t.skip(1), k2) is None);
        }
    } else {
        assert(t[0] == s[0]);
        lemma_slist_get_push(s.skip(1), k, v);
        assert(s.skip(1).push((k, v)) =~= t.skip(1));
        assert(slist_get(t, k@) == Some(v));
        assert forall|k2: Seq<char>| k2 != k@ implies slist_get(t, k2) == slist_get(s, k2) by {
            if t[0].0@ != k2 {
                assert(slist_get(t, k2) == slist_get(t.skip(1), k2));
                assert(slist_get(s, k2) == slist_get(s.skip(1), k2));
            }
        }
    }
}

/// Looks up a string-keyed record.
pub fn smap_get<'a, V>(m: &'a Vec<(String, V)>, k: &String) -> (r: Option<&'a V>)
    ensures
        match r {
            Some(v) => slist_get(m@, k@) == Some(*v),
            None => slist_get(m@, k@) is None,
        },
{
    let mut i: usize = 0;
    while i < m.len()
        invariant
            i <= m@.len(),
            forall|j: int| 0 <= j < i ==> m@[j].0@ != k@,
        decreases m@.len() - i,
    {
        if m[i].0 == *k {
            proof {
                lemma_slist_get_skip(m@, k@, i as int);
            }
            return Some(&m[i].1);
        }
        i += 1;
    }
    proof {
        lemma_slist_get_skip(m@, k@, m@.len() as int);
    }
    None
}

/// Binds string key `k` to `v`, replacing any earlier binding.
pub fn smap_set<V>(m: &mut Vec<(String, V)>, k: String, v: V)
    ensures
        slist_get(final(m)@, k@) == Some(v),
        forall|k2: Seq<char>| k2 != k@ ==> slist_get(final(m)@, k2) == slist_get(old(m)@, k2),
{
    let mut i: usize = 0;
    while i < m.len()
        invariant
            i <= m@.len(),
            m@ == old(m)@,
            forall|j: int| 0 <= j < i ==> m@[j].0@ != k@,
        decreases m@.len() - i,
    {
        if m[i].0 == k {
            proof {
                lemma_slist_get_update(m@, i as int, k, v);
            }
            m[i] = (k, v);
            return;
        }
        i += 1;
    }
    proof {
        lemma_slist_get_push(m@, k, v);
    }
    m.push((k, v));
}


/// A content-equal copy of a byte string.
pub fn bytes_copy(v: &Vec<u8>) -> (c: Vec<u8>)
    ensures
        c@ == v@,
{
    vstd::slice::slice_to_vec(v.as_slice())
}

/// Finds the position of an id-keyed record.
pub fn imap_index<V>(m: &Vec<(u128, V)>, k: u128) -> (r: Option<usize>)
    ensures
        match r {
            Some(i) => i < m@.len() && m@[i as int].0 == k && (forall|j: int|
                0 <= j < i ==> m@[j].0 != k),
            None => alist_get(m@, k) is None,
        },
{
    let mut i: usize = 0;
    while i < m.len()
        invariant
            i <= m@.len(),
            forall|j: int| 0 <= j < i ==> m@[j].0 != k,
        decreases m@.len() - i,
    {
        if m[i].0 == k {
            return Some(i);
        }
        i += 1;
    }
    proof {
        lemma_alist_get_skip(m@, k, m@.len() as int);
    }
    None
}

} // verus!
