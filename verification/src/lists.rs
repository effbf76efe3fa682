//! Membership and removal on lists of entity bits and of names.

use vstd::prelude::*;
use crate::text::str_equals;

verus! {

/// The list with every occurrence of `x` taken out, order kept.
pub open spec fn without(s: Seq<u64>, x: u64) -> Seq<u64> {
    s.filter(|y: u64| y != x)
}

/// Whether `x` is in `v`.
pub fn contains_entity(v: &Vec<u64>, x: u64) -> (r: bool)
    ensures
        r == v@.contains(x),
{
    let mut i: usize = 0;
    while i < v.len()
        invariant
            i <= v@.len(),
            forall|j: int| 0 <= j < i ==> v@[j] != x,
        decreases v.len() - i,
    {
        if v[i] == x {
            assert(v@[i as int] == x);
            return true;
        }
        i = i + 1;
    }
    false
}

/// The position of the first `x` in `v`.
pub fn position_of_entity(v: &Vec<u64>, x: u64) -> (r: Option<usize>)
    ensures
        match r {
            Some(i) => i < v@.len() && v@[i as int] == x && forall|j: int| 0 <= j < i ==> v@[j] != x,
            None => !v@.contains(x),
        },
{
    let mut i: usize = 0;
    while i < v.len()
        invariant
            i <= v@.len(),
            forall|j: int| 0 <= j < i ==> v@[j] != x,
        decreases v.len() - i,
    {
        if v[i] == x {
            return Some(i);
        }
        i = i + 1;
    }
    None
}

/// `v` without any occurrence of `x`.
pub fn remove_entity(v: &Vec<u64>, x: u64) -> (r: Vec<u64>)
    ensures
        r@ == without(v@, x),
{
    let mut out: Vec<u64> = Vec::new();
    let mut i: usize = 0;
    while i < v.len()
        invariant
            i <= v@.len(),
            out@ == without(v@.take(i as int), x),
        decreases v.len() - i,
    {
        proof {
            assert(v@.take(i + 1).drop_last() =~= v@.take(i as int));
            reveal(Seq::filter);
        }
        if v[i] != x {
            out.push(v[i]);
        }
        i = i + 1;
    }
    assert(v@.take(v@.len() as int) =~= v@);
    out
}

/// Removing `x` leaves exactly the other members, and keeps a list free of
/// duplicates free of them.
pub proof fn lemma_without(s: Seq<u64>, x: u64)
    ensures
        forall|y: u64| #[trigger] without(s, x).contains(y) <==> (s.contains(y) && y != x),
        s.no_duplicates() ==> without(s, x).no_duplicates(),
        !s.contains(x) ==> without(s, x) == s,
    decreases s.len(),
{
    reveal(Seq::filter);
    if s.len() > 0 {
        lemma_without(s.drop_last(), x);
        let r = without(s.drop_last(), x);
        assert forall|y: u64| #[trigger] without(s, x).contains(y) <==> (s.contains(y) && y != x) by {
            if s.contains(y) && y != x {
                let k = choose|k: int| 0 <= k < s.len() && s[k] == y;
                if k < s.len() - 1 {
                    assert(s.drop_last()[k] == y);
                    assert(r.contains(y));
                    let m = choose|m: int| 0 <= m < r.len() && r[m] == y;
                    if s.last() != x {
                        assert(without(s, x)[m] == y);
                    }
                } else {
                    assert(without(s, x).last() == y);
                }
            }
            if without(s, x).contains(y) {
                let m = choose|m: int| 0 <= m < without(s, x).len() && without(s, x)[m] == y;
                if s.last() != x && m == without(s, x).len() - 1 {
                    assert(s[s.len() - 1] == y);
                } else {
                    assert(r[m] == y);
                    assert(r.contains(y));
                    let k = choose|k: int| 0 <= k < s.drop_last().len() && s.drop_last()[k] == y;
                    assert(s[k] == y);
                }
            }
        }
        if s.no_duplicates() {
            assert(s.drop_last().no_duplicates());
            if s.last() != x {
                assert(!s.drop_last().contains(s.last())) by {
                    if s.drop_last().contains(s.last()) {
                        let k = choose|k: int| 0 <= k < s.drop_last().len() && s.drop_last()[k] == s.last();
                        assert(s[k] == s[s.len() - 1]);
                    }
                }
                assert(!r.contains(s.last()));
            }
        }
        if !s.contains(x) {
            assert(!s.drop_last().contains(x)) by {
                if s.drop_last().contains(x) {
                    let k = choose|k: int| 0 <= k < s.drop_last().len() && s.drop_last()[k] == x;
                    assert(s[k] == x);
                }
            }
            assert(s.last() != x);
            assert(s =~= s.drop_last().push(s.last()));
        }
    }
}

/// Whether a name equal to `name` is in `v`.
pub fn contains_name(v: &Vec<String>, name: &str) -> (r: bool)
    ensures
        r == exists|i: int| 0 <= i < v@.len() && (#[trigger] v@[i])@ == name@,
{
    let mut i: usize = 0;
    while i < v.len()
        invariant
            i <= v@.len(),
            forall|j: int| 0 <= j < i ==> (#[trigger] v@[j])@ != name@,
        decreases v.len() - i,
    {
        if str_equals(v[i].as_str(), name) {
            return true;
        }
        i = i + 1;
    }
    false
}

/// Whether some string of `v` reads `n`.
pub open spec fn has_name(v: Seq<String>, n: Seq<char>) -> bool {
    exists|i: int| 0 <= i < v.len() && (#[trigger] v[i])@ == n
}

/// No two strings of `v` read the same.
pub open spec fn names_distinct(v: Seq<String>) -> bool {
    forall|i: int, j: int| 0 <= i < j < v.len() ==> (#[trigger] v[i])@ != (#[trigger] v[j])@
}

/// Adds `name` to a list of distinct names unless it is there already.
pub fn insert_name(v: &mut Vec<String>, name: String)
    requires
        names_distinct(old(v)@),
    ensures
        names_distinct(final(v)@),
        forall|n: Seq<char>| has_name(final(v)@, n) <==> (has_name(old(v)@, n) || n == name@),
{
    if !contains_name(v, name.as_str()) {
        let ghost before = v@;
        v.push(name);
        assert forall|n: Seq<char>| has_name(v@, n) <==> (has_name(before, n) || n == v@.last()@) by {
            if has_name(v@, n) {
                let i = choose|i: int| 0 <= i < v@.len() && (#[trigger] v@[i])@ == n;
                if i < before.len() {
                    assert(before[i] == v@[i]);
                }
            }
            if has_name(before, n) {
                let i = choose|i: int| 0 <= i < before.len() && (#[trigger] before[i])@ == n;
                assert(v@[i] == before[i]);
            }
            if n == v@.last()@ {
                assert(v@[v@.len() - 1]@ == n);
            }
        }
    }
}

/// Takes every string that reads `name` out of the list.
pub fn remove_name(v: &Vec<String>, name: &str) -> (r: Vec<String>)
    ensures
        names_distinct(v@) ==> names_distinct(r@),
        forall|n: Seq<char>| has_name(r@, n) <==> (has_name(v@, n) && n != name@),
{
    let mut r: Vec<String> = Vec::new();
    let mut i: usize = 0;
    while i < v.len()
        invariant
            i <= v@.len(),
            forall|k: int| 0 <= k < r@.len() ==> (#[trigger] r@[k])@ != name@,
            forall|k: int| 0 <= k < r@.len() ==> has_name(v@.take(i as int), (#[trigger] r@[k])@),
            forall|k: int| 0 <= k < i && (#[trigger] v@[k])@ != name@ ==> has_name(r@, v@[k]@),
            names_distinct(v@) ==> names_distinct(r@),
            names_distinct(v@) ==> forall|k: int, m: int| 0 <= k < r@.len() && i <= m < v@.len()
                ==> (#[trigger] r@[k])@ != (#[trigger] v@[m])@,
        decreases v.len() - i,
    {
        if !str_equals(v[i].as_str(), name) {
            let ghost before = r@;
            r.push(v[i].clone());
            proof {
                assert forall|k: int| 0 <= k < r@.len() implies has_name(v@.take(i + 1), (#[trigger] r@[k])@) by {
                    if k < before.len() {
                        assert(r@[k] == before[k]);
                        let j = choose|j: int| 0 <= j < i && (#[trigger] v@.take(i as int)[j])@ == before[k]@;
                        assert(v@.take(i + 1)[j] == v@.take(i as int)[j]);
                    } else {
                        assert(v@.take(i + 1)[i as int] == v@[i as int]);
                    }
                }
                assert forall|k: int| 0 <= k < i + 1 && (#[trigger] v@[k])@ != name@ implies has_name(r@, v@[k]@) by {
                    if k < i {
                        let j = choose|j: int| 0 <= j < before.len() && (#[trigger] before[j])@ == v@[k]@;
                        assert(r@[j] == before[j]);
                    } else {
                        assert(r@[r@.len() - 1] == v@[k]);
                    }
                }
            }
        } else {
            proof {
                assert forall|k: int| 0 <= k < r@.len() implies has_name(v@.take(i + 1), (#[trigger] r@[k])@) by {
                    let j = choose|j: int| 0 <= j < i && (#[trigger] v@.take(i as int)[j])@ == r@[k]@;
                    assert(v@.take(i + 1)[j] == v@.take(i as int)[j]);
                }
            }
        }
        i = i + 1;
    }
    proof {
        assert(v@.take(v@.len() as int) =~= v@);
        assert forall|n: Seq<char>| has_name(r@, n) <==> (has_name(v@, n) && n != name@) by {
            if has_name(v@, n) && n != name@ {
                let k = choose|k: int| 0 <= k < v@.len() && (#[trigger] v@[k])@ == n;
                assert(has_name(r@, v@[k]@));
            }
            if has_name(r@, n) {
                let k = choose|k: int| 0 <= k < r@.len() && (#[trigger] r@[k])@ == n;
                assert(has_name(v@.take(v@.len() as int), r@[k]@));
            }
        }
    }
    r
}

} // verus!
