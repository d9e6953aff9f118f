//! Duplicate-free vectors of broadcast values, used as the executable
//! form of the value sets the broadcast engine keeps: the set of values a
//! node has learned and, per peer, the subset believed delivered there.
//! Values are kept in first-insertion order with no duplicates, so
//! re-inserting a known value leaves the vector bit-for-bit unchanged.

use vstd::prelude::*;

verus! {

/// Whether `v` holds the value `x`.
pub fn contains_val(v: &Vec<u64>, x: u64) -> (b: bool)
    ensures
        b == v@.contains(x),
{
    let mut i: usize = 0;
    while i < v.len()
        invariant
            i <= v@.len(),
            forall|k: int| 0 <= k < i ==> v@[k] != x,
        decreases v@.len() - i,
    {
        if v[i] == x {
            assert(v@.contains(x)) by {
                assert(v@[i as int] == x);
            }
            return true;
        }
        i = i + 1;
    }
    false
}

/// Insert `x` unless it is already present.  Insertion is idempotent: a
/// value the vector already holds leaves it unchanged, otherwise `x` is
/// appended.
pub fn insert_val(v: &mut Vec<u64>, x: u64)
    ensures
        final(v)@ == (if old(v)@.contains(x) {
            old(v)@
        } else {
            old(v)@.push(x)
        }),
        final(v)@.to_set() == old(v)@.to_set().insert(x),
        old(v)@.no_duplicates() ==> final(v)@.no_duplicates(),
{
    if !contains_val(v, x) {
        v.push(x);
        proof {
            assert(v@.to_set() =~= old(v)@.to_set().insert(x)) by {
                Seq::lemma_push_to_set_commute(old(v)@, x);
            }
            assert(old(v)@.no_duplicates() ==> v@.no_duplicates()) by {
                if old(v)@.no_duplicates() {
                    assert forall|i: int, j: int|
                        0 <= i < j < v@.len() implies v@[i] != v@[j] by {
                        if j == v@.len() - 1 {
                            assert(!old(v)@.contains(x));
                        }
                    }
                }
            }
        }
    } else {
        proof {
            assert(v@.to_set() =~= v@.to_set().insert(x));
        }
    }
}

/// Union `other` into `v`, keeping `v`'s elements and order and appending
/// the values of `other` that are new, in their order in `other`.
pub fn union_into(v: &mut Vec<u64>, other: &Vec<u64>)
    requires
        old(v)@.no_duplicates(),
    ensures
        final(v)@.no_duplicates(),
        final(v)@.to_set() == old(v)@.to_set().union(other@.to_set()),
        old(v)@.is_prefix_of(final(v)@),
{
    let ghost v0: Seq<u64> = v@;
    let mut i: usize = 0;
    while i < other.len()
        invariant
            i <= other@.len(),
            v@.no_duplicates(),
            v@.to_set() == v0.to_set().union(other@.subrange(0, i as int).to_set()),
            v0.is_prefix_of(v@),
        decreases other@.len() - i,
    {
        let ghost before: Seq<u64> = v@;
        insert_val(v, other[i]);
        proof {
            assert(other@.subrange(0, i + 1) =~= other@.subrange(0, i as int).push(
                other@[i as int],
            ));
            Seq::lemma_push_to_set_commute(other@.subrange(0, i as int), other@[i as int]);
            assert(v@.to_set() =~= v0.to_set().union(other@.subrange(0, i + 1).to_set()));
            assert(v0.is_prefix_of(v@)) by {
                assert(v0 =~= before.subrange(0, v0.len() as int));
                if !before.contains(other@[i as int]) {
                    assert(v@ == before.push(other@[i as int]));
                    assert(v0 =~= v@.subrange(0, v0.len() as int));
                }
            }
        }
        i = i + 1;
    }
    proof {
        assert(other@.subrange(0, other@.len() as int) =~= other@);
    }
}

/// Whether `v` holds no value twice.
pub fn no_dup_vals(v: &Vec<u64>) -> (b: bool)
    ensures
        b == v@.no_duplicates(),
{
    let mut i: usize = 0;
    while i < v.len()
        invariant
            i <= v@.len(),
            forall|p: int, q: int| 0 <= p < q < i ==> v@[p] != v@[q],
        decreases v@.len() - i,
    {
        let mut j: usize = 0;
        while j < i
            invariant
                j <= i < v@.len(),
                forall|p: int| 0 <= p < j ==> v@[p] != v@[i as int],
            decreases i - j,
        {
            if v[j] == v[i] {
                assert(!v@.no_duplicates()) by {
                    assert(v@[j as int] == v@[i as int]);
                }
                return false;
            }
            j = j + 1;
        }
        i = i + 1;
    }
    proof {
        assert forall|p: int, q: int|
            0 <= p < v@.len() && 0 <= q < v@.len() && p != q implies v@[p] != v@[q] by {
            if p < q {
            } else {
                assert(v@[q] != v@[p]);
            }
        }
    }
    true
}

/// Whether every value of `a` also stands in `b`.
pub fn subset_vals(a: &Vec<u64>, b: &Vec<u64>) -> (r: bool)
    ensures
        r == (a@.to_set() <= b@.to_set()),
{
    let mut i: usize = 0;
    while i < a.len()
        invariant
            i <= a@.len(),
            forall|k: int| 0 <= k < i ==> b@.contains(#[trigger] a@[k]),
        decreases a@.len() - i,
    {
        if !contains_val(b, a[i]) {
            proof {
                assert(a@.to_set().contains(a@[i as int]));
                assert(!b@.to_set().contains(a@[i as int]));
            }
            return false;
        }
        i = i + 1;
    }
    proof {
        assert forall|x: u64| a@.to_set().contains(x) implies b@.to_set().contains(x) by {
            let k = choose|k: int| 0 <= k < a@.len() && a@[k] == x;
            assert(b@.contains(a@[k]));
        }
    }
    true
}

/// A value-for-value copy, used where a reply carries a snapshot of a set.
pub fn clone_vals(v: &Vec<u64>) -> (r: Vec<u64>)
    ensures
        r@ == v@,
{
    let mut r: Vec<u64> = Vec::new();
    let mut i: usize = 0;
    while i < v.len()
        invariant
            i <= v@.len(),
            r@ == v@.subrange(0, i as int),
        decreases v@.len() - i,
    {
        r.push(v[i]);
        proof {
            assert(r@ =~= v@.subrange(0, i + 1));
        }
        i = i + 1;
    }
    proof {
        assert(v@.subrange(0, v@.len() as int) =~= v@);
    }
    r
}

/// The values of `a` that `b` does not hold, in `a`'s order: the pruned
/// payload of one gossip message.
pub fn diff_vals(a: &Vec<u64>, b: &Vec<u64>) -> (r: Vec<u64>)
    requires
        a@.no_duplicates(),
    ensures
        r@.no_duplicates(),
        r@.to_set() == a@.to_set().difference(b@.to_set()),
        forall|k: int| 0 <= k < r@.len() ==> a@.contains(#[trigger] r@[k]) && !b@.contains(r@[k]),
{
    let mut r: Vec<u64> = Vec::new();
    let mut i: usize = 0;
    while i < a.len()
        invariant
            i <= a@.len(),
            a@.no_duplicates(),
            r@.no_duplicates(),
            r@.to_set() == a@.subrange(0, i as int).to_set().difference(b@.to_set()),
            forall|k: int|
                0 <= k < r@.len() ==> a@.subrange(0, i as int).contains(#[trigger] r@[k])
                    && !b@.contains(r@[k]),
        decreases a@.len() - i,
    {
        if !contains_val(b, a[i]) {
            proof {
                assert(!r@.contains(a@[i as int])) by {
                    if r@.contains(a@[i as int]) {
                        let k = choose|k: int| 0 <= k < r@.len() && r@[k] == a@[i as int];
                        let j = choose|j: int|
                            0 <= j < i && a@.subrange(0, i as int)[j] == a@[i as int];
                        assert(a@[j] == a@[i as int]);
                    }
                }
            }
            let ghost before: Seq<u64> = r@;
            r.push(a[i]);
            proof {
                Seq::lemma_push_to_set_commute(before, a@[i as int]);
                assert forall|x: int, y: int| 0 <= x < y < r@.len() implies r@[x] != r@[y] by {
                    if y == r@.len() - 1 {
                        assert(!before.contains(a@[i as int]));
                    }
                }
            }
        }
        proof {
            assert(a@.subrange(0, i + 1) =~= a@.subrange(0, i as int).push(a@[i as int]));
            Seq::lemma_push_to_set_commute(a@.subrange(0, i as int), a@[i as int]);
            assert(r@.to_set() =~= a@.subrange(0, i + 1).to_set().difference(b@.to_set()));
            assert forall|k: int| 0 <= k < r@.len() implies a@.subrange(0, i + 1).contains(
                #[trigger] r@[k],
            ) && !b@.contains(r@[k]) by {
                if k < r@.len() {
                    assert(a@.subrange(0, i + 1).to_set().contains(r@[k]));
                }
            }
        }
        i = i + 1;
    }
    proof {
        assert(a@.subrange(0, a@.len() as int) =~= a@);
    }
    r
}

} // verus!
