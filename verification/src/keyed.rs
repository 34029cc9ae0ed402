//! An ordered map with text keys.

use vstd::prelude::*;

use crate::text::{before, before_is_an_order, is_before, same};

verus! {

/// A map from text to `V` that is walked in the order of its keys.
///
/// The keys stand in strictly ascending order, each beside its value.
#[derive(Clone, Debug)]
pub struct TextMap<V> {
    pub keys: Vec<String>,
    pub values: Vec<V>,
}

impl<V> TextMap<V> {
    /// One value per key, keys in strictly ascending order.
    pub open spec fn wf(&self) -> bool {
        &&& self.keys@.len() == self.values@.len()
        &&& forall|i: int, j: int|
            0 <= i < j < self.keys@.len() ==> before(#[trigger] self.keys@[i]@, #[trigger] self.keys@[j]@)
    }

    /// `key` stands at position `i`.
    pub open spec fn at(&self, i: int, key: Seq<char>) -> bool {
        0 <= i < self.keys@.len() && self.keys@[i]@ == key
    }

    /// The map has a value for `key`.
    pub open spec fn has(&self, key: Seq<char>) -> bool {
        exists|i: int| #[trigger] self.at(i, key)
    }

    /// The position of `key`, where it has one.
    pub open spec fn place(&self, key: Seq<char>) -> int {
        choose|i: int| #[trigger] self.at(i, key)
    }

    /// The value of `key`, where it has one.
    pub open spec fn value(&self, key: Seq<char>) -> V {
        self.values@[self.place(key)]
    }

    /// The value of `key`, or nothing.
    pub open spec fn lookup(&self, key: Seq<char>) -> Option<V> {
        if self.has(key) {
            Some(self.value(key))
        } else {
            None
        }
    }

    /// A key stands at one position only.
    pub proof fn place_is_unique(&self, key: Seq<char>, i: int)
        requires
            self.wf(),
            self.at(i, key),
        ensures
            self.has(key),
            self.place(key) == i,
    {
        before_is_an_order();
        let j = self.place(key);
        assert(self.at(j, key));
    }

    /// A map without entries.
    pub fn new() -> (r: Self)
        ensures
            r.wf(),
            r.keys@.len() == 0,
            forall|k: Seq<char>| !r.has(k),
    {
        TextMap { keys: Vec::new(), values: Vec::new() }
    }

    /// The number of entries.
    pub fn len(&self) -> (n: usize)
        ensures
            n == self.keys@.len(),
    {
        self.keys.len()
    }

    /// Whether there is no entry.
    pub fn is_empty(&self) -> (r: bool)
        ensures
            r == (self.keys@.len() == 0),
            self.keys@.len() == 0 ==> forall|k: Seq<char>| !self.has(k),
    {
        self.keys.len() == 0
    }

    /// The position of `key`.
    pub fn find(&self, key: &str) -> (r: Option<usize>)
        requires
            self.wf(),
        ensures
            match r {
                Some(i) => self.at(i as int, key@) && self.has(key@) && self.place(key@) == i,
                None => !self.has(key@),
            },
    {
        let mut i: usize = 0;
        while i < self.keys.len()
            invariant
                self.wf(),
                i <= self.keys@.len(),
                forall|j: int| 0 <= j < i ==> self.keys@[j]@ != key@,
            decreases self.keys@.len() - i,
        {
            if same(self.keys[i].as_str(), key) {
                proof {
                    assert(self.at(i as int, key@));
                    self.place_is_unique(key@, i as int);
                }
                return Some(i);
            }
            i = i + 1;
        }
        None
    }

    /// The value of `key`.
    pub fn get(&self, key: &str) -> (r: Option<&V>)
        requires
            self.wf(),
        ensures
            match r {
                Some(v) => self.has(key@) && *v == self.value(key@),
                None => !self.has(key@),
            },
    {
        match self.find(key) {
            Some(i) => Some(&self.values[i]),
            None => None,
        }
    }

    /// Whether `key` has a value.
    pub fn contains_key(&self, key: &str) -> (r: bool)
        requires
            self.wf(),
        ensures
            r == self.has(key@),
    {
        self.find(key).is_some()
    }

    /// The number of keys that come before `key`.
    fn rank(&self, key: &str) -> (r: usize)
        requires
            self.wf(),
        ensures
            r <= self.keys@.len(),
            forall|j: int| 0 <= j < r ==> before(self.keys@[j]@, key@),
            r < self.keys@.len() ==> !before(self.keys@[r as int]@, key@),
    {
        let mut i: usize = 0;
        while i < self.keys.len() && is_before(self.keys[i].as_str(), key)
            invariant
                i <= self.keys@.len(),
                forall|j: int| 0 <= j < i ==> before(self.keys@[j]@, key@),
            decreases self.keys@.len() - i,
        {
            i = i + 1;
        }
        i
    }

    /// Gives `key` the value `value`; a former value is dropped.
    pub fn insert(&mut self, key: String, value: V)
        requires
            old(self).wf(),
        ensures
            final(self).wf(),
            final(self).has(key@),
            final(self).value(key@) == value,
            forall|k: Seq<char>| k != key@ ==> #[trigger] final(self).lookup(k) == old(self).lookup(k),
            final(self).keys@.len() == old(self).keys@.len() + (if old(self).has(key@) { 0int } else { 1 }),
    {
        let ghost pre = *self;
        let i = self.rank(key.as_str());
        if i < self.keys.len() && same(self.keys[i].as_str(), key.as_str()) {
            self.values.set(i, value);
            proof {
                assert(self.at(i as int, key@));
                self.place_is_unique(key@, i as int);
                assert(pre.at(i as int, key@));
                assert forall|k: Seq<char>| k != key@ implies #[trigger] self.lookup(k)
                    == pre.lookup(k) by {
                    if pre.has(k) {
                        let j = pre.place(k);
                        assert(pre.at(j, k));
                        assert(self.at(j, k));
                        self.place_is_unique(k, j);
                        assert(j != i);
                    }
                    if self.has(k) {
                        let j = self.place(k);
                        assert(self.at(j, k));
                        assert(pre.at(j, k));
                    }
                }
            }
        } else {
            let ghost fresh = key@;
            self.keys.insert(i, key);
            self.values.insert(i, value);
            proof {
                before_is_an_order();
                assert(self.keys@[i as int]@ == fresh);
                assert forall|a: int, b: int|
                    0 <= a < b < self.keys@.len() implies before(
                    #[trigger] self.keys@[a]@,
                    #[trigger] self.keys@[b]@,
                ) by {
                    if a < i && b > i {
                        assert(before(pre.keys@[a]@, pre.keys@[b - 1]@));
                    } else if a == i {
                        assert(pre.keys@[b - 1]@ == self.keys@[b]@);
                        if b - 1 > i {
                            assert(before(pre.keys@[i as int]@, pre.keys@[b - 1]@));
                        }
                        assert(before(fresh, pre.keys@[i as int]@));
                    } else if a > i {
                        assert(before(pre.keys@[a - 1]@, pre.keys@[b - 1]@));
                    }
                }
                assert(self.at(i as int, fresh));
                self.place_is_unique(fresh, i as int);
                if pre.has(fresh) {
                    let j = pre.place(fresh);
                    assert(pre.at(j, fresh));
                    if j > i {
                        assert(before(pre.keys@[i as int]@, pre.keys@[j]@));
                    }
                    assert(false);
                }
                assert forall|k: Seq<char>| k != fresh implies #[trigger] self.lookup(k)
                    == pre.lookup(k) by {
                    if pre.has(k) {
                        let j = pre.place(k);
                        assert(pre.at(j, k));
                        let m = if j < i { j } else { j + 1 };
                        assert(self.at(m, k));
                        self.place_is_unique(k, m);
                    }
                    if self.has(k) {
                        let j = self.place(k);
                        assert(self.at(j, k));
                        let m = if j < i { j } else { j - 1 };
                        assert(pre.at(m, k));
                    }
                }
            }
        }
    }

    /// Drops the entry at position `i`.
    pub fn remove_at(&mut self, i: usize)
        requires
            old(self).wf(),
            i < old(self).keys@.len(),
        ensures
            final(self).wf(),
            final(self).keys@ == old(self).keys@.remove(i as int),
            final(self).values@ == old(self).values@.remove(i as int),
            !final(self).has(old(self).keys@[i as int]@),
            forall|k: Seq<char>|
                k != old(self).keys@[i as int]@ ==> #[trigger] final(self).lookup(k) == old(self).lookup(k),
    {
        let ghost pre = *self;
        let ghost gone = self.keys@[i as int]@;
        self.keys.remove(i);
        self.values.remove(i);
        proof {
            before_is_an_order();
            assert forall|a: int, b: int| 0 <= a < b < self.keys@.len() implies before(
                #[trigger] self.keys@[a]@,
                #[trigger] self.keys@[b]@,
            ) by {
                let x = if a < i { a } else { a + 1 };
                let y = if b < i { b } else { b + 1 };
                assert(before(pre.keys@[x]@, pre.keys@[y]@));
            }
            if self.has(gone) {
                let j = self.place(gone);
                assert(self.at(j, gone));
                let x = if j < i { j } else { j + 1 };
                assert(pre.at(x, gone));
                pre.place_is_unique(gone, x);
                assert(pre.at(i as int, gone));
                pre.place_is_unique(gone, i as int);
            }
            assert forall|k: Seq<char>| k != gone implies #[trigger] self.lookup(k)
                == pre.lookup(k) by {
                if pre.has(k) {
                    let j = pre.place(k);
                    assert(pre.at(j, k));
                    let m = if j < i { j } else { j - 1 };
                    assert(self.at(m, k));
                    self.place_is_unique(k, m);
                }
                if self.has(k) {
                    let j = self.place(k);
                    assert(self.at(j, k));
                    let m = if j < i { j } else { j + 1 };
                    assert(pre.at(m, k));
                }
            }
        }
    }

    /// Drops every entry.
    pub fn clear(&mut self)
        ensures
            final(self).wf(),
            final(self).keys@.len() == 0,
            forall|k: Seq<char>| !final(self).has(k),
    {
        self.keys.clear();
        self.values.clear();
    }
}

impl<V> Default for TextMap<V> {
    fn default() -> (r: Self)
        ensures
            r.wf(),
            r.keys@.len() == 0,
    {
        TextMap::new()
    }
}

/// The last of the items with the key.
pub open spec fn last_keyed<V>(items: Seq<V>, key: spec_fn(V) -> Seq<char>, k: Seq<char>) -> Option<V>
    decreases items.len(),
{
    if items.len() == 0 {
        None
    } else if key(items.last()) == k {
        Some(items.last())
    } else {
        last_keyed(items.drop_last(), key, k)
    }
}

/// `m` gives of each key the last item with it, once it is filled up with the first
/// `n` items.
pub open spec fn lacks_first<V>(
    m: TextMap<V>,
    items: Seq<V>,
    key: spec_fn(V) -> Seq<char>,
    n: int,
) -> bool {
    forall|k: Seq<char>|
        last_keyed(items, key, k) == if m.has(k) {
            #[trigger] m.lookup(k)
        } else {
            last_keyed(items.take(n), key, k)
        }
}

/// One item more is taken in, from the end: it is entered unless its key is there.
pub proof fn one_item_less<V>(
    m: TextMap<V>,
    next: TextMap<V>,
    items: Seq<V>,
    key: spec_fn(V) -> Seq<char>,
    n: int,
)
    requires
        0 < n <= items.len(),
        lacks_first(m, items, key, n),
        m.has(key(items[n - 1])) ==> next == m,
        !m.has(key(items[n - 1])) ==> next.has(key(items[n - 1])) && next.value(key(items[n - 1]))
            == items[n - 1] && forall|k: Seq<char>|
            k != key(items[n - 1]) ==> #[trigger] next.lookup(k) == m.lookup(k),
    ensures
        lacks_first(next, items, key, n - 1),
{
    assert(items.take(n).drop_last() =~= items.take(n - 1));
    assert forall|k: Seq<char>| last_keyed(items, key, k) == if next.has(k) {
        #[trigger] next.lookup(k)
    } else {
        last_keyed(items.take(n - 1), key, k)
    } by {
        assert(last_keyed(items, key, k) == if m.has(k) {
            m.lookup(k)
        } else {
            last_keyed(items.take(n), key, k)
        });
        if k != key(items[n - 1]) {
            assert(next.lookup(k) == m.lookup(k));
        }
    }
}

} // verus!
