use vstd::prelude::*;

verus! {

/// The id list with `x` added at the end, unless it is already there.
pub open spec fn with_id(s: Seq<usize>, x: usize) -> Seq<usize> {
    if s.contains(x) {
        s
    } else {
        s.push(x)
    }
}

/// Adding an id keeps the ids distinct and adds it to their set.
pub proof fn lemma_with_id(s: Seq<usize>, x: usize)
    ensures
        s.no_duplicates() ==> with_id(s, x).no_duplicates(),
        with_id(s, x).to_set() == s.to_set().insert(x),
        with_id(s, x).contains(x),
{
    if s.contains(x) {
        assert(s.to_set().insert(x) =~= s.to_set());
    } else {
        let t = s.push(x);
        assert(t[s.len() as int] == x);
        assert forall|y: usize| t.contains(y) <==> s.to_set().insert(x).contains(y) by {
            if t.contains(y) && y != x {
                let k = choose|k: int| 0 <= k < t.len() && t[k] == y;
                assert(s[k] == y);
            }
            if s.contains(y) {
                let k = choose|k: int| 0 <= k < s.len() && s[k] == y;
                assert(t[k] == y);
            }
        }
        assert(t.to_set() =~= s.to_set().insert(x));
    }
}

/// Removing an id from distinct ids keeps them distinct, takes it out of their set, and
/// leaves no copy of it.
pub proof fn lemma_remove_value(s: Seq<usize>, x: usize)
    requires
        s.no_duplicates(),
    ensures
        s.remove_value(x).no_duplicates(),
        s.remove_value(x).to_set() == s.to_set().remove(x),
        !s.remove_value(x).contains(x),
{
    s.index_of_first_ensures(x);
    match s.index_of_first(x) {
        Some(i) => {
            let t = s.remove(i);
            assert forall|a: int, b: int| 0 <= a < t.len() && 0 <= b < t.len() && a != b implies t[a] != t[b] by {
                let a2 = if a < i { a } else { a + 1 };
                let b2 = if b < i { b } else { b + 1 };
                assert(t[a] == s[a2]);
                assert(t[b] == s[b2]);
            }
            assert forall|y: usize| t.contains(y) <==> s.to_set().remove(x).contains(y) by {
                if t.contains(y) {
                    let k = choose|k: int| 0 <= k < t.len() && t[k] == y;
                    let k2 = if k < i { k } else { k + 1 };
                    assert(s[k2] == y);
                    assert(k2 != i);
                }
                if s.contains(y) && y != x {
                    let k = choose|k: int| 0 <= k < s.len() && s[k] == y;
                    assert(k != i);
                    let k2 = if k < i { k } else { k - 1 };
                    assert(t[k2] == y);
                }
            }
            assert(t.to_set() =~= s.to_set().remove(x));
            assert(!t.to_set().contains(x));
        },
        None => {
            assert(s.to_set().remove(x) =~= s.to_set());
        },
    }
}

/// Where `x` stands in `v`, if anywhere.
pub fn position(v: &Vec<usize>, x: usize) -> (r: Option<usize>)
    ensures
        match r {
            Some(i) => i < v@.len() && v@[i as int] == x && v@.index_of_first(x) == Some(i as int),
            None => !v@.contains(x),
        },
{
    let mut i: usize = 0;
    while i < v.len()
        invariant
            i <= v@.len(),
            forall|j: int| 0 <= j < i ==> v@[j] != x,
        decreases v.len() - i,
    {
        if v[i] == x {
            proof {
                v@.index_of_first_ensures(x);
            }
            return Some(i);
        }
        i = i + 1;
    }
    None
}

/// Whether `x` is in `v`.
pub fn contains_id(v: &Vec<usize>, x: usize) -> (r: bool)
    ensures
        r == v@.contains(x),
{
    position(v, x).is_some()
}

/// Adds `x` at the end of `v` unless it is already there.
pub fn insert_id(v: &mut Vec<usize>, x: usize)
    ensures
        final(v)@ == with_id(old(v)@, x),
        old(v)@.no_duplicates() ==> final(v)@.no_duplicates(),
        final(v)@.to_set() == old(v)@.to_set().insert(x),
{
    if !contains_id(v, x) {
        v.push(x);
    }
    proof {
        lemma_with_id(old(v)@, x);
    }
}

/// Removes `x` from `v`; says whether it was there.
pub fn remove_id(v: &mut Vec<usize>, x: usize) -> (r: bool)
    ensures
        r == old(v)@.contains(x),
        final(v)@ == old(v)@.remove_value(x),
        old(v)@.no_duplicates() ==> final(v)@.no_duplicates(),
        old(v)@.no_duplicates() ==> final(v)@.to_set() == old(v)@.to_set().remove(x),
{
    match position(v, x) {
        Some(i) => {
            v.remove(i);
            proof {
                if old(v)@.no_duplicates() {
                    lemma_remove_value(old(v)@, x);
                }
            }
            true
        },
        None => {
            proof {
                old(v)@.index_of_first_ensures(x);
            }
            false
        },
    }
}

} // verus!
