//! Generics lesson: functions and containers over type parameters, with
//! contracts stated through the ordering's specification.

use vstd::prelude::*;
use vstd::std_specs::cmp::PartialOrdSpec;
use core::cmp::Ordering;

verus! {

/// A point whose coordinates share one type.
#[derive(Debug)]
pub struct Point<T> {
    pub x: T,
    pub y: T,
}

impl<T> Point<T> {
    /// The first coordinate.
    pub fn x(&self) -> (r: &T)
        ensures
            *r == self.x,
    {
        &self.x
    }

    /// The second coordinate.
    pub fn y(&self) -> (r: &T)
        ensures
            *r == self.y,
    {
        &self.y
    }
}

/// A pair of values of two types.
#[derive(Debug)]
pub struct Pair<T, U> {
    pub first: T,
    pub second: U,
}

impl<T, U> Pair<T, U> {
    /// Packs two values into a pair.
    pub fn new(first: T, second: U) -> (r: Pair<T, U>)
        ensures
            r.first == first,
            r.second == second,
    {
        Pair { first, second }
    }
}

/// A box around a single value.
#[derive(Debug)]
pub struct Container<T> {
    pub value: T,
}

impl<T> Container<T> {
    /// Wraps the value.
    pub fn new(value: T) -> (r: Container<T>)
        ensures
            r.value == value,
    {
        Container { value }
    }
}

/// Exchanges the contents of two places.
pub fn swap<T>(x: &mut T, y: &mut T)
    ensures
        *final(x) == *old(y),
        *final(y) == *old(x),
{
    core::mem::swap(x, y);
}

/// `a` is strictly above `b` under the type's comparison.
pub open spec fn gt_spec<T: PartialOrd>(a: T, b: T) -> bool {
    a.partial_cmp_spec(&b) == Some(Ordering::Greater)
}

/// `a` is at least `b` under the type's comparison.
pub open spec fn ge_spec<T: PartialOrd>(a: T, b: T) -> bool {
    a.partial_cmp_spec(&b) matches Some(Ordering::Greater | Ordering::Equal)
}

/// The left-to-right scan that keeps the running maximum: what `largest`
/// computes, one comparison per element.
pub open spec fn scan_largest<T: PartialOrd>(s: Seq<T>, acc: T) -> T
    decreases s.len(),
{
    if s.len() == 0 {
        acc
    } else {
        scan_largest(
            s.drop_first(),
            if gt_spec(s[0], acc) {
                s[0]
            } else {
                acc
            },
        )
    }
}

/// The element the running-maximum scan of the list settles on. The
/// result is always one of the elements.
pub fn largest<T: PartialOrd + Copy>(list: &[T]) -> (r: T)
    requires
        list@.len() > 0,
        T::obeys_partial_cmp_spec(),
    ensures
        r == scan_largest(list@, list@[0]),
        exists|k: int| 0 <= k < list@.len() && r == list@[k],
{
    let mut acc: T = *vstd::slice::slice_index_get(list, 0);
    proof {
        assert(list@.skip(0) =~= list@);
    }
    let mut i: usize = 0;
    let n = list.len();
    while i < n
        invariant
            n == list@.len(),
            0 < n,
            0 <= i <= n,
            T::obeys_partial_cmp_spec(),
            scan_largest(list@.skip(i as int), acc) == scan_largest(list@, list@[0]),
            exists|k: int| 0 <= k < n && acc == list@[k],
        decreases n - i,
    {
        let item = *vstd::slice::slice_index_get(list, i);
        proof {
            assert(list@.skip(i as int)[0] == list@[i as int]);
            assert(list@.skip(i as int).drop_first() =~= list@.skip(i as int + 1));
        }
        if item.gt(&acc) {
            acc = item;
        }
        i = i + 1;
    }
    proof {
        assert(list@.skip(n as int) =~= Seq::<T>::empty());
    }
    acc
}

/// Both coordinates of the first point are strictly below those of the
/// second.
pub fn compare_points<T: PartialOrd + Copy>(p1: &Point<T>, p2: &Point<T>) -> (r: bool)
    requires
        T::obeys_partial_cmp_spec(),
    ensures
        r == (p1.x.partial_cmp_spec(&p2.x) == Some(Ordering::Less) && p1.y.partial_cmp_spec(&p2.y)
            == Some(Ordering::Less)),
{
    p1.x.lt(&p2.x) && p1.y.lt(&p2.y)
}

/// Descending order: every earlier element is at least every later one.
pub open spec fn sorted_desc<T: PartialOrd>(s: Seq<T>) -> bool {
    forall|a: int, b: int| 0 <= a < b < s.len() ==> ge_spec(s[a], s[b])
}

/// Sorts into descending order by insertion. The comparison must behave
/// as a total order: any two values compare, and being at least is
/// transitive. The result holds exactly the input's elements.
pub fn sort_desc<T: PartialOrd>(list: Vec<T>) -> (r: Vec<T>)
    requires
        T::obeys_partial_cmp_spec(),
        forall|x: T, y: T| #[trigger] ge_spec(x, y) || #[trigger] ge_spec(y, x),
        forall|x: T, y: T, z: T|
            #[trigger] ge_spec(x, y) && #[trigger] ge_spec(y, z) ==> ge_spec(x, z),
    ensures
        r@.to_multiset() == list@.to_multiset(),
        r@.len() == list@.len(),
        sorted_desc(r@),
{
    let ghost orig = list@;
    let mut r = list;
    if r.len() <= 1 {
        proof {
            assert(sorted_desc(r@));
        }
        return r;
    }
    let mut i: usize = 1;
    while i < r.len()
        invariant
            T::obeys_partial_cmp_spec(),
            forall|x: T, y: T| #[trigger] ge_spec(x, y) || #[trigger] ge_spec(y, x),
            forall|x: T, y: T, z: T|
                #[trigger] ge_spec(x, y) && #[trigger] ge_spec(y, z) ==> ge_spec(x, z),
            r@.len() == orig.len(),
            r@.to_multiset() == orig.to_multiset(),
            1 <= i <= r@.len(),
            sorted_desc(r@.take(i as int)),
        decreases r@.len() - i,
    {
        let ghost pre = r@;
        let x = r.remove(i);
        proof {
            pre.to_multiset_ensures();
            assert(pre.remove(i as int).to_multiset() =~= pre.to_multiset().remove(pre[i as int]));
            assert(r@.take(i as int) =~= pre.take(i as int));
        }
        let ghost s = r@;
        let mut p: usize = 0;
        while p < i && r[p].ge(&x)
            invariant
                T::obeys_partial_cmp_spec(),
                r@ == s,
                i < orig.len(),
                s.len() == orig.len() - 1,
                0 <= p <= i,
                forall|a: int| 0 <= a < p ==> ge_spec(s[a], x),
            decreases i - p,
        {
            p = p + 1;
        }
        r.insert(p, x);
        proof {
            let t = s.insert(p as int, x);
            assert(r@ == t);
            // The elements are unchanged: removing the inserted one gives
            // the sequence back, so the multisets agree again.
            assert(t.remove(p as int) =~= s);
            t.to_multiset_ensures();
            assert(t.remove(p as int).to_multiset() =~= t.to_multiset().remove(t[p as int]));
            assert(t[p as int] == x);
            assert(t.contains(x));
            assert(t.to_multiset().count(x) > 0);
            assert(t.to_multiset() =~= s.to_multiset().insert(x));
            assert(pre.to_multiset().count(pre[i as int]) > 0) by {
                assert(pre.contains(pre[i as int]));
            }
            assert(t.to_multiset() =~= pre.to_multiset());
            // The new prefix is sorted: scanned elements stay in front of
            // the inserted one, which stays in front of the rest by way of
            // totality and transitivity.
            if p < i {
                assert(!ge_spec(s[p as int], x));
                assert(ge_spec(x, s[p as int]));
            }
            assert forall|a: int, b: int|
                0 <= a < b < i + 1 implies ge_spec(t[a], t[b]) by {
                if b < p {
                    assert(t[a] == s[a] && t[b] == s[b]);
                    assert(ge_spec(pre.take(i as int)[a], pre.take(i as int)[b]));
                } else if b == p {
                    assert(t[a] == s[a]);
                    assert(ge_spec(s[a], x));
                } else {
                    assert(t[b] == s[b - 1]);
                    if a < p {
                        assert(t[a] == s[a]);
                        if a < b - 1 {
                            assert(ge_spec(pre.take(i as int)[a], pre.take(i as int)[b - 1]));
                        }
                    } else if a == p {
                        assert(ge_spec(x, s[p as int]));
                        if p < b - 1 {
                            assert(ge_spec(pre.take(i as int)[p as int], pre.take(i as int)[b - 1]));
                        }
                    } else {
                        assert(t[a] == s[a - 1]);
                        assert(ge_spec(pre.take(i as int)[a - 1], pre.take(i as int)[b - 1]));
                    }
                }
            }
            assert(sorted_desc(r@.take(i as int + 1)));
        }
        i = i + 1;
    }
    proof {
        assert(r@.take(r@.len() as int) =~= r@);
    }
    r
}

} // verus!
