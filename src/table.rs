//! Records keyed by address, kept as a vector of entries. The first entry
//! with a given key is the record of that key.
use vstd::prelude::*;

verus! {

/// The record stored under `k`, if any.
pub open spec fn lookup<V>(s: Seq<(String, V)>, k: Seq<char>) -> Option<V>
    decreases s.len(),
{
    if s.len() == 0 {
        None
    } else if s[0].0@ == k {
        Some(s[0].1)
    } else {
        lookup(s.drop_first(), k)
    }
}

proof fn lemma_lookup_at<V>(s: Seq<(String, V)>, i: int)
    requires
        0 <= i < s.len(),
        forall|j: int| 0 <= j < i ==> s[j].0@ != s[i].0@,
    ensures
        lookup(s, s[i].0@) == Some(s[i].1),
    decreases i,
{
    if i > 0 {
        let t = s.drop_first();
        assert(forall|j: int| 0 <= j < i - 1 ==> t[j] == s[j + 1]);
        lemma_lookup_at(t, i - 1);
    }
}

proof fn lemma_lookup_absent<V>(s: Seq<(String, V)>, k: Seq<char>)
    requires
        forall|j: int| 0 <= j < s.len() ==> s[j].0@ != k,
    ensures
        lookup(s, k) is None,
    decreases s.len(),
{
    if s.len() > 0 {
        let t = s.drop_first();
        assert(forall|j: int| 0 <= j < t.len() ==> t[j] == s[j + 1]);
        lemma_lookup_absent(t, k);
    }
}

proof fn lemma_lookup_update<V>(s: Seq<(String, V)>, i: int, e: (String, V), a: Seq<char>)
    requires
        0 <= i < s.len(),
        s[i].0@ == e.0@,
        forall|j: int| 0 <= j < i ==> s[j].0@ != e.0@,
    ensures
        lookup(s.update(i, e), a) == if a == e.0@ {
            Some(e.1)
        } else {
            lookup(s, a)
        },
    decreases i,
{
    let u = s.update(i, e);
    if i > 0 {
        assert(u.drop_first() =~= s.drop_first().update(i - 1, e));
        let t = s.drop_first();
        assert(forall|j: int| 0 <= j < i - 1 ==> t[j] == s[j + 1]);
        lemma_lookup_update(t, i - 1, e, a);
    } else {
        assert(u.drop_first() =~= s.drop_first());
    }
}

proof fn lemma_lookup_push<V>(s: Seq<(String, V)>, e: (String, V), a: Seq<char>)
    requires
        lookup(s, e.0@) is None,
    ensures
        lookup(s.push(e), a) == if a == e.0@ {
            Some(e.1)
        } else {
            lookup(s, a)
        },
    decreases s.len(),
{
    let p = s.push(e);
    if s.len() > 0 {
        assert(p.drop_first() =~= s.drop_first().push(e));
        lemma_lookup_push(s.drop_first(), e, a);
    } else {
        assert(p.drop_first() =~= s);
    }
}

/// Each record found by `lookup` is the record of some entry.
pub proof fn lemma_lookup_in<V>(s: Seq<(String, V)>, k: Seq<char>)
    ensures
        lookup(s, k) is Some ==> exists|i: int| 0 <= i < s.len() && s[i].1 == lookup(s, k)->0,
    decreases s.len(),
{
    if s.len() > 0 && s[0].0@ != k {
        let t = s.drop_first();
        lemma_lookup_in(t, k);
        if lookup(t, k) is Some {
            let i = choose|i: int| 0 <= i < t.len() && t[i].1 == lookup(t, k)->0;
            assert(s[i + 1] == t[i]);
        }
    }
}

/// The index of the record stored under `k`, if any.
pub fn find_index<V>(v: &Vec<(String, V)>, k: &String) -> (r: Option<usize>)
    ensures
        match r {
            Some(i) => i < v@.len() && v@[i as int].0@ == k@ && lookup(v@, k@) == Some(v@[i as int].1)
                && forall|j: int| 0 <= j < i ==> v@[j].0@ != k@,
            None => lookup(v@, k@) is None,
        },
{
    let mut i: usize = 0;
    while i < v.len()
        invariant
            i <= v@.len(),
            forall|j: int| 0 <= j < i ==> v@[j].0@ != k@,
        decreases v@.len() - i,
    {
        if v[i].0 == *k {
            proof {
                lemma_lookup_at(v@, i as int);
            }
            return Some(i);
        }
        i = i + 1;
    }
    proof {
        lemma_lookup_absent(v@, k@);
    }
    None
}

/// Stores `val` as the record of `k`, replacing the one that was there.
pub fn store<V>(v: &mut Vec<(String, V)>, k: &String, val: V)
    ensures
        forall|a: Seq<char>|
            #[trigger] lookup(final(v)@, a) == if a == k@ {
                Some(val)
            } else {
                lookup(old(v)@, a)
            },
        forall|j: int| 0 <= j < final(v)@.len() ==> (#[trigger] final(v)@[j]).1 == val || exists|i: int|
            0 <= i < old(v)@.len() && old(v)@[i] == final(v)@[j],
{
    let e = (k.clone(), val);
    match find_index(v, k) {
        Some(i) => {
            let ghost s = v@;
            v.set(i, e);
            proof {
                assert forall|a: Seq<char>| #[trigger] lookup(v@, a) == if a == k@ {
                    Some(val)
                } else {
                    lookup(s, a)
                } by {
                    lemma_lookup_update(s, i as int, e, a);
                }
                assert forall|j: int| 0 <= j < v@.len() && j != i implies s[j] == v@[j] by {}
            }
        },
        None => {
            let ghost s = v@;
            v.push(e);
            proof {
                assert forall|a: Seq<char>| #[trigger] lookup(v@, a) == if a == k@ {
                    Some(val)
                } else {
                    lookup(s, a)
                } by {
                    lemma_lookup_push(s, e, a);
                }
                assert forall|j: int| 0 <= j < s.len() implies s[j] == v@[j] by {}
            }
        },
    }
}

} // verus!
