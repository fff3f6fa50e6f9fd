//! A stable sort for values with a reversible order.
use core::cmp::Ordering;
use vstd::prelude::*;
use vstd::seq_lib::*;

verus! {

/// The order with `a` and `b` swapped.
pub open spec fn reversed(o: Ordering) -> Ordering {
    match o {
        Ordering::Less => Ordering::Greater,
        Ordering::Equal => Ordering::Equal,
        Ordering::Greater => Ordering::Less,
    }
}

/// Values compared by `rank`, an order that reverses when the two sides swap.
/// It need not be transitive: ties on missing data may chain.
pub trait Ranked: Sized {
    spec fn rank(a: Self, b: Self) -> Ordering;

    proof fn lemma_rank_reverse(a: Self, b: Self)
        ensures
            Self::rank(b, a) == reversed(Self::rank(a, b)),
    ;

    fn compare(&self, other: &Self) -> (r: Ordering)
        ensures
            r == Self::rank(*self, *other),
    ;
}

/// No value is ranked after the one that follows it.
pub open spec fn in_rank_order<T: Ranked>(s: Seq<T>) -> bool {
    forall|i: int| 0 <= i < s.len() - 1 ==> #[trigger] T::rank(s[i], s[i + 1]) != Ordering::Greater
}

proof fn lemma_insert_to_multiset<T>(s: Seq<T>, j: int, x: T)
    requires
        0 <= j <= s.len(),
    ensures
        s.insert(j, x).to_multiset() == s.to_multiset().insert(x),
{
    broadcast use group_to_multiset_ensures;

    let t = s.insert(j, x);
    assert(t.remove(j) =~= s);
    assert(t[j] == x);
    assert(t.to_multiset().remove(x) == s.to_multiset());
    assert(t.contains(x));
    assert(t.to_multiset().count(x) > 0);
    assert(t.to_multiset() =~= s.to_multiset().insert(x));
}

proof fn lemma_reinsert_multiset<T>(p: Seq<T>, i: int, j: int)
    requires
        0 <= j <= i < p.len(),
    ensures
        p.remove(i).insert(j, p[i]).to_multiset() == p.to_multiset(),
{
    broadcast use group_to_multiset_ensures;

    let s = p.remove(i);
    let x = p[i];
    lemma_insert_to_multiset(s, j, x);
    assert(p.to_multiset().count(x) > 0);
    assert(s.insert(j, x).to_multiset() =~= p.to_multiset());
}

/// Taking out the entry at `i` of a sequence whose first `i` entries are in rank
/// order and putting it back at `j`, after the entries not ordered after it and
/// before those that are, gives a sequence whose first `i + 1` entries are in rank
/// order and which holds the same values.
proof fn lemma_insert_keeps_order<T: Ranked>(p: Seq<T>, i: int, j: int, x: T, w: Seq<T>)
    requires
        0 <= j <= i < p.len(),
        x == p[i],
        forall|k: int| 0 <= k < i - 1 ==> #[trigger] T::rank(p[k], p[k + 1]) != Ordering::Greater,
        forall|k: int| j <= k < i ==> T::rank(#[trigger] p.remove(i)[k], x) == Ordering::Greater,
        j > 0 ==> T::rank(p[j - 1], x) != Ordering::Greater,
        w == p.remove(i).insert(j, x),
    ensures
        w.len() == p.len(),
        w.to_multiset() == p.to_multiset(),
        forall|k: int| 0 <= k < i ==> #[trigger] T::rank(w[k], w[k + 1]) != Ordering::Greater,
{
    lemma_reinsert_multiset(p, i, j);
    let s = p.remove(i);
    assert forall|k: int| 0 <= k < i implies #[trigger] T::rank(w[k], w[k + 1]) != Ordering::Greater by {
        if k + 1 < j {
            assert(w[k] == p[k] && w[k + 1] == p[k + 1]);
        } else if k + 1 == j {
            assert(w[k] == p[k] && w[k + 1] == x);
        } else if k == j {
            assert(w[k] == x && w[k + 1] == s[k]);
            T::lemma_rank_reverse(s[k], x);
        } else {
            assert(w[k] == p[k - 1] && w[k + 1] == p[k]);
            let m = k - 1;
            assert(T::rank(p[m], p[m + 1]) != Ordering::Greater);
        }
    }
}

/// `r` holds the values of `s` moved about by `perm`: position `k` of `r`
/// holds the value from position `perm[k]` of `s`, each position taken once.
pub open spec fn rearranged<T>(s: Seq<T>, r: Seq<T>, perm: Seq<int>) -> bool {
    &&& perm.len() == s.len()
    &&& r.len() == s.len()
    &&& forall|k: int| 0 <= k < perm.len() ==> 0 <= #[trigger] perm[k] < s.len() && r[k] == s[perm[k]]
    &&& forall|k: int, l: int| 0 <= k < l < perm.len() ==> #[trigger] perm[k] != #[trigger] perm[l]
}

/// Two values of `r` stand in the opposite of their input order only when the
/// one that came first is ranked after the other: values that rank equal keep
/// their input order.
pub open spec fn stable<T: Ranked>(r: Seq<T>, perm: Seq<int>) -> bool {
    forall|k: int, l: int|
        0 <= k < l < perm.len() && perm[k] > perm[l] ==> #[trigger] T::rank(r[l], r[k]) == Ordering::Greater
}

/// The bookkeeping of the sort after `i` values: the first `i` positions hold
/// the first `i` input values, stable among themselves; the rest is untouched.
pub open spec fn sorting<T: Ranked>(orig: Seq<T>, v: Seq<T>, perm: Seq<int>, i: int) -> bool {
    &&& rearranged(orig, v, perm)
    &&& forall|k: int| i <= k < perm.len() ==> #[trigger] perm[k] == k
    &&& forall|k: int| 0 <= k < i ==> #[trigger] perm[k] < i
    &&& forall|k: int, l: int|
        0 <= k < l < i && perm[k] > perm[l] ==> #[trigger] T::rank(v[l], v[k]) == Ordering::Greater
}

proof fn lemma_insert_keeps_stable<T: Ranked>(
    orig: Seq<T>,
    p: Seq<T>,
    perm: Seq<int>,
    i: int,
    j: int,
    x: T,
    w: Seq<T>,
    np: Seq<int>,
)
    requires
        0 <= j <= i < p.len(),
        sorting(orig, p, perm, i),
        x == p[i],
        forall|k: int| j <= k < i ==> T::rank(#[trigger] p.remove(i)[k], x) == Ordering::Greater,
        w == p.remove(i).insert(j, x),
        np == perm.remove(i).insert(j, i),
    ensures
        sorting(orig, w, np, i + 1),
{
    let s = p.remove(i);
    let q = perm.remove(i);
    assert(perm[i] == i);
    assert(np.len() == perm.len());
    assert forall|k: int| 0 <= k < np.len() implies 0 <= #[trigger] np[k] < orig.len() && w[k] == orig[np[k]] by {
        if k < j {
            assert(np[k] == perm[k] && w[k] == p[k]);
        } else if k == j {
            assert(np[k] == i && w[k] == x);
        } else if k <= i {
            assert(np[k] == perm[k - 1] && w[k] == p[k - 1]);
        } else {
            assert(np[k] == perm[k] && w[k] == p[k]);
        }
    }
    assert forall|k: int, l: int| 0 <= k < l < np.len() implies #[trigger] np[k] != #[trigger] np[l] by {
        let a = if k < j { k } else if k == j { i } else if k <= i { k - 1 } else { k };
        let b = if l < j { l } else if l == j { i } else if l <= i { l - 1 } else { l };
        assert(np[k] == perm[a]);
        assert(np[l] == perm[b]);
        assert(a != b);
        if a < b {
            assert(perm[a] != perm[b]);
        } else {
            assert(perm[b] != perm[a]);
        }
    }
    assert forall|k: int| i + 1 <= k < np.len() implies #[trigger] np[k] == k by {
        assert(np[k] == perm[k]);
    }
    assert forall|k: int| 0 <= k < i + 1 implies #[trigger] np[k] < i + 1 by {
        if k < j {
            assert(np[k] == perm[k]);
        } else if k > j {
            assert(np[k] == perm[k - 1]);
        }
    }
    assert forall|k: int, l: int| 0 <= k < l < i + 1 && np[k] > np[l] implies #[trigger] T::rank(w[l], w[k])
        == Ordering::Greater by {
        if k == j {
            assert(w[k] == x);
            assert(w[l] == s[l - 1]);
            assert(T::rank(s[l - 1], x) == Ordering::Greater);
        } else if l == j {
            assert(np[l] == i);
            assert(np[k] == perm[k]);
            assert(perm[k] < i);
        } else {
            let a = if k < j { k } else { k - 1 };
            let b = if l < j { l } else { l - 1 };
            assert(np[k] == perm[a] && w[k] == p[a]);
            assert(np[l] == perm[b] && w[l] == p[b]);
            assert(a < b && b < i);
            assert(T::rank(p[b], p[a]) == Ordering::Greater);
        }
    }
}

/// Stable insertion sort into rank order.
pub fn insertion_sort<T: Ranked>(v: Vec<T>) -> (r: Vec<T>)
    ensures
        in_rank_order(r@),
        r@.to_multiset() == v@.to_multiset(),
        exists|perm: Seq<int>| rearranged(v@, r@, perm) && stable(r@, perm),
{
    let ghost orig = v@;
    let mut v = v;
    let n = v.len();
    let ghost mut perm = Seq::new(n as nat, |k: int| k);
    if n < 2 {
        assert(rearranged(orig, v@, perm) && stable(v@, perm));
        return v;
    }
    let mut i: usize = 1;
    while i < n
        invariant
            1 <= i <= n,
            v.len() == n,
            v@.to_multiset() == orig.to_multiset(),
            forall|k: int| 0 <= k < i - 1 ==> #[trigger] T::rank(v@[k], v@[k + 1]) != Ordering::Greater,
            sorting(orig, v@, perm, i as int),
        decreases n - i,
    {
        let ghost p = v@;
        let x = v.remove(i);
        let ghost s = v@;
        assert(s =~= p.remove(i as int));
        assert(x == p[i as int]);
        let mut j = i;
        while j > 0 && matches!(v[j - 1].compare(&x), Ordering::Greater)
            invariant
                0 <= j <= i,
                i < n,
                v@ == s,
                s.len() == n - 1,
                forall|k: int| j <= k < i ==> T::rank(#[trigger] s[k], x) == Ordering::Greater,
            decreases j,
        {
            j = j - 1;
        }
        assert(j > 0 ==> p[j - 1] == s[j - 1]);
        v.insert(j, x);
        proof {
            lemma_insert_keeps_order(p, i as int, j as int, x, v@);
            let np = perm.remove(i as int).insert(j as int, i as int);
            lemma_insert_keeps_stable(orig, p, perm, i as int, j as int, x, v@, np);
            perm = np;
        }
        i = i + 1;
    }
    assert(rearranged(orig, v@, perm) && stable(v@, perm));
    v
}

} // verus!
