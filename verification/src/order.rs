//! Stable sorting.

use vstd::prelude::*;

verus! {

/// A rule that says which of two values goes first.
pub trait Rule: Sized {
    /// `self` has to stand before `other`.
    spec fn goes_before(&self, other: &Self) -> bool;

    /// The rule is a strict weak order.
    proof fn rule_is_strict_weak_order()
        ensures
            forall|a: Self| !#[trigger] a.goes_before(&a),
            forall|a: Self, b: Self, c: Self|
                #![trigger a.goes_before(&b), b.goes_before(&c)]
                a.goes_before(&b) && b.goes_before(&c) ==> a.goes_before(&c),
            forall|a: Self, b: Self, c: Self|
                #![trigger a.goes_before(&c), a.goes_before(&b)]
                a.goes_before(&c) ==> a.goes_before(&b) || b.goes_before(&c),
    ;
}

/// Values that can be compared by their rule.
pub trait Ranked: Rule {
    /// Whether `self` has to stand before `other`.
    fn is_ahead_of(&self, other: &Self) -> (r: bool)
        ensures
            r == self.goes_before(other),
    ;
}

/// Of two different places of `items`, what stands at `a` gets its place before
/// what stands at `b`: the rule says so, or it does not decide and `a` is the
/// earlier place.
pub open spec fn comes_earlier<T: Rule>(items: Seq<T>, a: int, b: int) -> bool {
    items[a].goes_before(&items[b]) || (!items[b].goes_before(&items[a]) && a < b)
}

/// `order` lists the places of `items` in the order in which they come.
pub open spec fn is_stable_order<T: Rule>(order: Seq<int>, items: Seq<T>) -> bool {
    &&& order.len() == items.len()
    &&& forall|i: int| 0 <= i < order.len() ==> 0 <= #[trigger] order[i] < items.len()
    &&& forall|i: int, j: int|
        0 <= i < j < order.len() ==> comes_earlier(items, #[trigger] order[i], #[trigger] order[j])
}

/// The items at the places `order`.
pub open spec fn arranged<T>(items: Seq<T>, order: Seq<int>) -> Seq<T> {
    order.map_values(|i: int| items[i])
}

/// `sorted` holds the items in the order of the rule; items between which the
/// rule does not decide keep their order.
pub open spec fn is_stable_sort<T: Rule>(sorted: Seq<T>, items: Seq<T>) -> bool {
    exists|order: Seq<int>| is_stable_order(order, items) && sorted == #[trigger] arranged(items, order)
}

/// Of two neighbours in a stable order the second never goes before the first.
pub proof fn sorted_by_rule<T: Rule>(sorted: Seq<T>, items: Seq<T>)
    requires
        is_stable_sort(sorted, items),
    ensures
        sorted.len() == items.len(),
        forall|i: int, j: int|
            #![trigger sorted[i], sorted[j]]
            0 <= i < j < sorted.len() ==> !sorted[j].goes_before(&sorted[i]),
{
    T::rule_is_strict_weak_order();
    let order = choose|order: Seq<int>|
        is_stable_order(order, items) && sorted == #[trigger] arranged(items, order);
    assert forall|i: int, j: int|
        #![trigger sorted[i], sorted[j]]
        0 <= i < j < sorted.len() implies !sorted[j].goes_before(&sorted[i]) by {
        assert(comes_earlier(items, order[i], order[j]));
        if items[order[i]].goes_before(&items[order[j]]) && items[order[j]].goes_before(
            &items[order[i]],
        ) {
            assert(items[order[i]].goes_before(&items[order[i]]));
        }
    }
}

/// The items in the order of the rule; items between which the rule does not
/// decide keep their order.
pub open spec fn sorted<T: Rule>(items: Seq<T>) -> Seq<T> {
    choose|s: Seq<T>| is_stable_sort(s, items)
}

/// There is only one stable order.
pub proof fn stable_order_is_unique<T: Rule>(a: Seq<int>, b: Seq<int>, items: Seq<T>)
    requires
        is_stable_order(a, items),
        is_stable_order(b, items),
    ensures
        a == b,
{
    agree_up_to(a, b, items, items.len() as int);
    assert(a =~= b);
}

proof fn agree_up_to<T: Rule>(a: Seq<int>, b: Seq<int>, items: Seq<T>, k: int)
    requires
        is_stable_order(a, items),
        is_stable_order(b, items),
        0 <= k <= items.len(),
    ensures
        forall|i: int| 0 <= i < k ==> a[i] == b[i],
    decreases k,
{
    if k > 0 {
        agree_up_to(a, b, items, k - 1);
        T::rule_is_strict_weak_order();
        let (x, y) = (a[k - 1], b[k - 1]);
        if x != y {
            lists_every_place(a, items, y);
            lists_every_place(b, items, x);
            let i = choose|i: int| 0 <= i < a.len() && a[i] == y;
            let j = choose|j: int| 0 <= j < b.len() && b[j] == x;
            if i < k - 1 {
                assert(b[i] == y);
                assert(comes_earlier(items, b[i], b[k - 1]));
            }
            if j < k - 1 {
                assert(a[j] == x);
                assert(comes_earlier(items, a[j], a[k - 1]));
            }
            assert(comes_earlier(items, a[k - 1], a[i]));
            assert(comes_earlier(items, b[k - 1], b[j]));
            if items[x].goes_before(&items[y]) && items[y].goes_before(&items[x]) {
                assert(items[x].goes_before(&items[x]));
            }
            assert(false);
        }
    }
}

proof fn lists_every_place<T: Rule>(order: Seq<int>, items: Seq<T>, place: int)
    requires
        is_stable_order(order, items),
        0 <= place < items.len(),
    ensures
        order.contains(place),
{
    T::rule_is_strict_weak_order();
    assert(order.no_duplicates()) by {
        assert forall|i: int, j: int|
            0 <= i < order.len() && 0 <= j < order.len() && i != j implies order[i] != order[j] by {
            if i < j {
                assert(comes_earlier(items, order[i], order[j]));
            } else {
                assert(comes_earlier(items, order[j], order[i]));
            }
        }
    }
    order.unique_seq_to_set();
    let n = items.len() as int;
    let all = vstd::set_lib::set_int_range(0, n);
    vstd::set_lib::lemma_int_range(0, n);
    assert(order.to_set().subset_of(all)) by {
        assert forall|x: int| order.to_set().contains(x) implies all.contains(x) by {
            let i = choose|i: int| 0 <= i < order.len() && order[i] == x;
            assert(0 <= order[i] < n);
        }
    }
    vstd::set_lib::lemma_subset_equality(order.to_set(), all);
    assert(order.to_set().contains(place));
}

/// What is sorted stably is `sorted`.
pub proof fn stable_sort_is_sorted<T: Rule>(s: Seq<T>, items: Seq<T>)
    requires
        is_stable_sort(s, items),
    ensures
        s == sorted(items),
        s.len() == items.len(),
{
    let t = sorted(items);
    assert(is_stable_sort(t, items));
    let a = choose|order: Seq<int>|
        is_stable_order(order, items) && s == #[trigger] arranged(items, order);
    let b = choose|order: Seq<int>|
        is_stable_order(order, items) && t == #[trigger] arranged(items, order);
    stable_order_is_unique(a, b, items);
}

/// What sorted items stand for is sorted too, where what they stand for goes by
/// the same rule.
pub proof fn sorted_images<A: Rule, B: Rule>(s: Seq<A>, items: Seq<A>, f: spec_fn(A) -> B)
    requires
        is_stable_sort(s, items),
        forall|a: A, b: A|
            #![trigger f(a).goes_before(&f(b))]
            #![trigger a.goes_before(&b)]
            a.goes_before(&b) == f(a).goes_before(&f(b)),
    ensures
        s.map_values(f) == sorted(items.map_values(f)),
        s.len() == items.len(),
{
    let order = choose|order: Seq<int>|
        is_stable_order(order, items) && s == #[trigger] arranged(items, order);
    let images = items.map_values(f);
    assert forall|i: int, j: int| 0 <= i < j < order.len() implies comes_earlier(
        images,
        #[trigger] order[i],
        #[trigger] order[j],
    ) by {
        assert(comes_earlier(items, order[i], order[j]));
        assert(items[order[i]].goes_before(&items[order[j]]) == images[order[i]].goes_before(
            &images[order[j]],
        ));
        assert(items[order[j]].goes_before(&items[order[i]]) == images[order[j]].goes_before(
            &images[order[i]],
        ));
    }
    assert(is_stable_order(order, images));
    assert(s.map_values(f) =~= arranged(images, order));
    assert(is_stable_sort(s.map_values(f), images));
    stable_sort_is_sorted(s.map_values(f), images);
}

/// A reference goes where what it refers to goes.
impl<'a, T: Rule> Rule for &'a T {
    open spec fn goes_before(&self, other: &Self) -> bool {
        (**self).goes_before(*other)
    }

    proof fn rule_is_strict_weak_order() {
        T::rule_is_strict_weak_order();
    }
}

impl<'a, T: Ranked> Ranked for &'a T {
    fn is_ahead_of(&self, other: &Self) -> bool {
        (**self).is_ahead_of(*other)
    }
}

/// The first `k` places stay in order when the place `k` is put among them, behind
/// all that do not have to wait for it and before all that do.
proof fn put_in_order<T: Rule>(items: Seq<T>, pre: Seq<int>, order: Seq<int>, k: int, i: int)
    requires
        0 <= i <= k < items.len(),
        k <= pre.len(),
        k < order.len(),
        forall|a: int| 0 <= a < k ==> 0 <= #[trigger] pre[a] < k,
        forall|a: int, b: int|
            0 <= a < b < k ==> comes_earlier(items, #[trigger] pre[a], #[trigger] pre[b]),
        i > 0 ==> !items[k].goes_before(&items[pre[i - 1]]),
        forall|a: int| i <= a < k ==> items[k].goes_before(&items[#[trigger] pre[a]]),
        forall|a: int| 0 <= a < i ==> #[trigger] order[a] == pre[a],
        order[i] == k,
        forall|a: int| i < a <= k ==> #[trigger] order[a] == pre[a - 1],
    ensures
        forall|a: int, b: int|
            0 <= a < b < k + 1 ==> comes_earlier(items, #[trigger] order[a], #[trigger] order[b]),
{
    T::rule_is_strict_weak_order();
    assert forall|a: int, b: int| 0 <= a < b < k + 1 implies comes_earlier(
        items,
        #[trigger] order[a],
        #[trigger] order[b],
    ) by {
        if b == i {
            assert(order[a] == pre[a]);
            let (x, y, z) = (items[pre[a]], items[pre[i - 1]], items[k]);
            if a < i - 1 {
                assert(comes_earlier(items, pre[a], pre[i - 1]));
                if z.goes_before(&x) {
                    assert(z.goes_before(&y) || y.goes_before(&x));
                    assert(x.goes_before(&y) ==> x.goes_before(&x));
                }
            }
            assert(!z.goes_before(&x));
        } else if a == i {
            assert(order[b] == pre[b - 1]);
            assert(items[k].goes_before(&items[pre[b - 1]]));
        } else if a < i && b > i {
            assert(comes_earlier(items, pre[a], pre[b - 1]));
        } else if a > i {
            assert(comes_earlier(items, pre[a - 1], pre[b - 1]));
        } else {
            assert(comes_earlier(items, pre[a], pre[b]));
        }
    }
}

/// How far up the last item goes among the first `i` of those before it.
spec fn spot<T: Rule>(items: Seq<T>, pre: Seq<int>, i: int) -> int
    decreases i,
{
    if i > 0 && items.last().goes_before(&items[pre[i - 1]]) {
        spot(items, pre, i - 1)
    } else {
        i
    }
}

proof fn spot_divides<T: Rule>(items: Seq<T>, pre: Seq<int>, i: int)
    requires
        0 <= i <= pre.len(),
        forall|a: int| i <= a < pre.len() ==> items.last().goes_before(&items[#[trigger] pre[a]]),
    ensures
        0 <= spot(items, pre, i) <= i,
        spot(items, pre, i) > 0 ==> !items.last().goes_before(
            &items[pre[spot(items, pre, i) - 1]],
        ),
        forall|a: int|
            spot(items, pre, i) <= a < pre.len() ==> items.last().goes_before(
                &items[#[trigger] pre[a]],
            ),
    decreases i,
{
    if i > 0 && items.last().goes_before(&items[pre[i - 1]]) {
        spot_divides(items, pre, i - 1);
    }
}

proof fn stable_order_exists<T: Rule>(items: Seq<T>) -> (order: Seq<int>)
    ensures
        is_stable_order(order, items),
    decreases items.len(),
{
    if items.len() == 0 {
        Seq::empty()
    } else {
        let k = items.len() - 1;
        let pre = stable_order_exists(items.drop_last());
        assert forall|a: int, b: int| 0 <= a < b < k implies comes_earlier(
            items,
            #[trigger] pre[a],
            #[trigger] pre[b],
        ) by {
            assert(comes_earlier(items.drop_last(), pre[a], pre[b]));
        }
        spot_divides(items, pre, k);
        let i = spot(items, pre, k);
        let order = pre.insert(i, k);
        put_in_order(items, pre, order, k, i);
        order
    }
}

/// Everything can be sorted stably, and that is what `sorted` is.
pub proof fn sorted_is_a_stable_sort<T: Rule>(items: Seq<T>)
    ensures
        is_stable_sort(sorted(items), items),
        sorted(items).len() == items.len(),
{
    let order = stable_order_exists(items);
    assert(is_stable_sort(arranged(items, order), items));
    stable_sort_is_sorted(arranged(items, order), items);
}

/// Sorting loses nothing, invents nothing and repeats nothing: each item has
/// exactly one place in the result, no later item goes before an earlier one, and
/// two items between which the rule does not decide keep their order.
pub proof fn sorting_only_moves<T: Rule>(items: Seq<T>) -> (order: Seq<int>)
    ensures
        sorted(items).len() == items.len(),
        order.len() == items.len(),
        order.no_duplicates(),
        forall|i: int|
            0 <= i < order.len() ==> 0 <= #[trigger] order[i] < items.len() && sorted(items)[i]
                == items[order[i]],
        forall|x: T| #[trigger] sorted(items).contains(x) <==> items.contains(x),
        forall|i: int, j: int|
            #![trigger sorted(items)[i], sorted(items)[j]]
            0 <= i < j < items.len() ==> !sorted(items)[j].goes_before(&sorted(items)[i]),
        forall|i: int, j: int|
            #![trigger order[i], order[j]]
            0 <= i < j < order.len() && !items[order[i]].goes_before(&items[order[j]])
                ==> order[i] < order[j],
{
    T::rule_is_strict_weak_order();
    sorted_is_a_stable_sort(items);
    let s = sorted(items);
    sorted_by_rule(s, items);
    let order = choose|order: Seq<int>|
        is_stable_order(order, items) && s == #[trigger] arranged(items, order);
    assert forall|i: int, j: int|
        0 <= i < order.len() && 0 <= j < order.len() && i != j implies #[trigger] order[i]
        != #[trigger] order[j] by {
        if i < j {
            assert(comes_earlier(items, order[i], order[j]));
        } else {
            assert(comes_earlier(items, order[j], order[i]));
        }
    }
    assert forall|x: T| #[trigger] s.contains(x) <==> items.contains(x) by {
        if s.contains(x) {
            let i = choose|i: int| 0 <= i < s.len() && s[i] == x;
            assert(items[order[i]] == x);
        }
        if items.contains(x) {
            let k = choose|k: int| 0 <= k < items.len() && items[k] == x;
            lists_every_place(order, items, k);
            let i = choose|i: int| 0 <= i < order.len() && order[i] == k;
            assert(s[i] == x);
        }
    }
    order
}

/// A filter keeps exactly the items that it picks.
pub proof fn filter_keeps_the_picked<T>(items: Seq<T>, picks: spec_fn(T) -> bool)
    ensures
        forall|x: T| #[trigger] items.filter(picks).contains(x) <==> items.contains(x) && picks(x),
        items.filter(picks).len() <= items.len(),
    decreases items.len(),
{
    reveal(Seq::filter);
    if items.len() > 0 {
        let front = items.drop_last();
        let last = items.last();
        filter_keeps_the_picked(front, picks);
        assert(items =~= front.push(last));
        assert forall|x: T| #[trigger]
            items.filter(picks).contains(x) <==> items.contains(x) && picks(x) by {
            assert(front.filter(picks).contains(x) <==> front.contains(x) && picks(x));
            assert(items.contains(x) <==> front.contains(x) || x == last) by {
                if front.contains(x) {
                    let i = choose|i: int| 0 <= i < front.len() && front[i] == x;
                    assert(items[i] == x);
                }
                if x == last {
                    assert(items[items.len() - 1] == x);
                }
            }
            let kept = front.filter(picks);
            assert(kept.push(last).contains(x) <==> kept.contains(x) || x == last) by {
                if kept.contains(x) {
                    let i = choose|i: int| 0 <= i < kept.len() && kept[i] == x;
                    assert(kept.push(last)[i] == x);
                }
                assert(kept.push(last)[kept.len() as int] == last);
            }
        }
    }
}

/// Sorts a vector by the rule of its items.
pub fn sort_stably<T: Ranked>(v: &mut Vec<T>)
    ensures
        is_stable_sort(final(v)@, old(v)@),
        final(v)@ == sorted(old(v)@),
        final(v)@.len() == old(v)@.len(),
{
    let n = v.len();
    let ghost items = v@;
    let ghost mut order: Seq<int> = Seq::new(items.len(), |i: int| i);
    let mut k: usize = 0;
    proof {
        assert(v@ =~= arranged(items, order));
    }
    while k < n
        invariant
            k <= n == items.len(),
            v@ == arranged(items, order),
            order.len() == n,
            forall|i: int| 0 <= i < k ==> 0 <= #[trigger] order[i] < k,
            forall|i: int| k <= i < n ==> #[trigger] order[i] == i,
            forall|i: int, j: int|
                0 <= i < j < k ==> comes_earlier(items, #[trigger] order[i], #[trigger] order[j]),
        decreases n - k,
    {
        let mut i: usize = k;
        while i > 0 && v[k].is_ahead_of(&v[i - 1])
            invariant
                i <= k < n == v@.len(),
                forall|j: int| i <= j < k ==> v@[k as int].goes_before(#[trigger] &v@[j]),
            decreases i,
        {
            i = i - 1;
        }
        let ghost pre = order;
        proof {
            assert(v@[k as int] == items[k as int]);
            if i > 0 {
                assert(v@[i - 1] == items[pre[i - 1]]);
                assert(!items[k as int].goes_before(&items[pre[i - 1]]));
            }
            assert forall|j: int| i <= j < k implies items[k as int].goes_before(
                &items[#[trigger] pre[j]],
            ) by {
                assert(v@[j] == items[pre[j]]);
            }
        }
        let moved = v.remove(k);
        v.insert(i, moved);
        proof {
            order = pre.remove(k as int).insert(i as int, k as int);
            assert(v@ =~= arranged(items, order));
            put_in_order(items, pre, order, k as int, i as int);
        }
        k = k + 1;
    }
    proof {
        assert(is_stable_order(order, items));
        stable_sort_is_sorted(v@, items);
    }
}

} // verus!
