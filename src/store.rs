//! Addressed slots: a record kept at an address, and lookup by address.
use vstd::prelude::*;
use crate::key::Key;

verus! {

/// A record stored at an address.
#[derive(Debug)]
pub struct Slot<T> {
    pub address: Key,
    pub record: T,
}

/// The record at address `a`, taking the latest slot that holds it.
pub open spec fn lookup<T>(s: Seq<Slot<T>>, a: Seq<u8>) -> Option<T>
    decreases s.len(),
{
    if s.len() == 0 {
        None
    } else if s.last().address@ == a {
        Some(s.last().record)
    } else {
        lookup(s.drop_last(), a)
    }
}

/// The index of the slot that `lookup` reads for address `a`, or -1.
pub open spec fn index_of<T>(s: Seq<Slot<T>>, a: Seq<u8>) -> int
    decreases s.len(),
{
    if s.len() == 0 {
        -1
    } else if s.last().address@ == a {
        s.len() - 1
    } else {
        index_of(s.drop_last(), a)
    }
}

pub proof fn lemma_index_of<T>(s: Seq<Slot<T>>, a: Seq<u8>)
    ensures
        -1 <= index_of(s, a) < s.len(),
        index_of(s, a) == -1 <==> lookup(s, a) is None,
        index_of(s, a) != -1 ==> s[index_of(s, a)].address@ == a && lookup(s, a) == Some(
            s[index_of(s, a)].record,
        ),
    decreases s.len(),
{
    if s.len() > 0 {
        lemma_index_of(s.drop_last(), a);
    }
}

pub proof fn lemma_index_of_unique<T>(s: Seq<Slot<T>>, i: int)
    requires
        unique_addresses(s),
        0 <= i < s.len(),
    ensures
        index_of(s, s[i].address@) == i,
{
    lemma_index_of(s, s[i].address@);
    lemma_lookup_none(s, s[i].address@);
}

/// No two slots share an address.
pub open spec fn unique_addresses<T>(s: Seq<Slot<T>>) -> bool {
    forall|i: int, j: int|
        0 <= i < s.len() && 0 <= j < s.len() && i != j ==> s[i].address@ != s[j].address@
}

pub proof fn lemma_lookup_none<T>(s: Seq<Slot<T>>, a: Seq<u8>)
    ensures
        lookup(s, a) is None <==> forall|i: int| 0 <= i < s.len() ==> s[i].address@ != a,
    decreases s.len(),
{
    if s.len() > 0 {
        lemma_lookup_none(s.drop_last(), a);
        assert forall|i: int| 0 <= i < s.len() - 1 implies s.drop_last()[i] == s[i] by {}
    }
}

pub proof fn lemma_lookup_at<T>(s: Seq<Slot<T>>, i: int)
    requires
        unique_addresses(s),
        0 <= i < s.len(),
    ensures
        lookup(s, s[i].address@) == Some(s[i].record),
    decreases s.len(),
{
    if i < s.len() - 1 {
        assert(s.drop_last()[i] == s[i]);
        lemma_lookup_at(s.drop_last(), i);
    }
}

pub proof fn lemma_lookup_update<T>(s: Seq<Slot<T>>, i: int, x: Slot<T>)
    requires
        unique_addresses(s),
        0 <= i < s.len(),
        s[i].address@ == x.address@,
    ensures
        unique_addresses(s.update(i, x)),
        forall|a: Seq<u8>|
            #![trigger lookup(s.update(i, x), a)]
            lookup(s.update(i, x), a) == if a == x.address@ {
                Some(x.record)
            } else {
                lookup(s, a)
            },
    decreases s.len(),
{
    let t = s.update(i, x);
    assert forall|a: Seq<u8>| lookup(t, a) == if a == x.address@ {
        Some(x.record)
    } else {
        lookup(s, a)
    } by {
        if a == x.address@ {
            lemma_lookup_at(t, i);
        } else if i == s.len() - 1 {
            assert(t.last() == x);
            assert(t.drop_last() =~= s.drop_last());
        } else {
            let d = s.drop_last();
            assert(unique_addresses(d)) by {
                assert forall|p: int, q: int|
                    0 <= p < d.len() && 0 <= q < d.len() && p != q implies d[p].address@
                    != d[q].address@ by {
                    assert(d[p] == s[p] && d[q] == s[q]);
                }
            }
            assert(d[i] == s[i]);
            lemma_lookup_update(d, i, x);
            assert(t.drop_last() =~= d.update(i, x));
            assert(t.last() == s.last());
            assert(lookup(d.update(i, x), a) == lookup(d, a));
        }
    }
}

pub proof fn lemma_lookup_remove<T>(s: Seq<Slot<T>>, i: int)
    requires
        unique_addresses(s),
        0 <= i < s.len(),
    ensures
        unique_addresses(s.remove(i)),
        forall|a: Seq<u8>|
            #![trigger lookup(s.remove(i), a)]
            lookup(s.remove(i), a) == if a == s[i].address@ {
                None
            } else {
                lookup(s, a)
            },
{
    let t = s.remove(i);
    assert forall|a: Seq<u8>| lookup(t, a) == if a == s[i].address@ {
        None
    } else {
        lookup(s, a)
    } by {
        lemma_lookup_none(t, a);
        lemma_lookup_none(s, a);
        if a == s[i].address@ {
        } else if lookup(s, a) is None {
        } else {
            let j = choose|j: int| 0 <= j < s.len() && s[j].address@ == a;
            lemma_lookup_at(s, j);
            let k = if j < i { j } else { j - 1 };
            assert(t[k] == s[j]);
            lemma_lookup_at(t, k);
        }
    }
}

pub proof fn lemma_push_unique<T>(s: Seq<Slot<T>>, x: Slot<T>)
    requires
        unique_addresses(s),
        lookup(s, x.address@) is None,
    ensures
        unique_addresses(s.push(x)),
{
    lemma_lookup_none(s, x.address@);
    assert forall|i: int, j: int|
        0 <= i < s.len() + 1 && 0 <= j < s.len() + 1 && i != j implies s.push(x)[i].address@
        != s.push(x)[j].address@ by {
        if i < s.len() {
            assert(s.push(x)[i] == s[i]);
        }
        if j < s.len() {
            assert(s.push(x)[j] == s[j]);
        }
    }
}

/// The position of the slot at address `a`, if any.
pub fn position<T>(v: &Vec<Slot<T>>, a: &Key) -> (r: Option<usize>)
    requires
        unique_addresses(v@),
    ensures
        match r {
            Some(i) => i < v@.len() && v@[i as int].address@ == a@ && index_of(v@, a@) == i
                && lookup(v@, a@) == Some(v@[i as int].record),
            None => lookup(v@, a@) is None,
        },
{
    let mut i: usize = 0;
    while i < v.len()
        invariant
            i <= v@.len(),
            unique_addresses(v@),
            forall|j: int| 0 <= j < i ==> v@[j].address@ != a@,
        decreases v@.len() - i,
    {
        if v[i].address.equals(a) {
            proof {
                lemma_lookup_at(v@, i as int);
                lemma_index_of_unique(v@, i as int);
            }
            return Some(i);
        }
        i = i + 1;
    }
    proof {
        lemma_lookup_none(v@, a@);
    }
    None
}

} // verus!
