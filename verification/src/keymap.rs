//! A map that keeps its entries in the order in which their keys first came.

use crate::text;
use vstd::prelude::*;

verus! {

/// A key of a [`KeyMap`]: two keys are the same key where their models are
/// equal.
pub trait Key: Sized {
    /// What a key stands for.
    type Model;

    spec fn model(&self) -> Self::Model;

    /// Whether both are the same key.
    fn matches(&self, other: &Self) -> (r: bool)
        ensures
            r == (self.model() == other.model()),
    ;

    /// The same key once more.
    fn again(&self) -> (r: Self)
        ensures
            r.model() == self.model(),
    ;
}

impl Key for String {
    type Model = Seq<char>;

    open spec fn model(&self) -> Seq<char> {
        self@
    }

    fn matches(&self, other: &Self) -> (r: bool) {
        text::same(self.as_str(), other.as_str())
    }

    fn again(&self) -> (r: Self) {
        self.clone()
    }
}

impl Key for u64 {
    type Model = u64;

    open spec fn model(&self) -> u64 {
        *self
    }

    fn matches(&self, other: &Self) -> (r: bool) {
        *self == *other
    }

    fn again(&self) -> (r: Self) {
        *self
    }
}

/// No key occurs twice.
pub open spec fn keys_differ<K: Key, V>(s: Seq<(K, V)>) -> bool {
    forall|i: int, j: int|
        0 <= i < j < s.len() ==> #[trigger] s[i].0.model() != #[trigger] s[j].0.model()
}

/// Entry `i` of `s` is the one for `key`.
pub open spec fn is_at<K: Key, V>(s: Seq<(K, V)>, key: K::Model, i: int) -> bool {
    0 <= i < s.len() && s[i].0.model() == key
}

/// Some entry of `s` is for `key`.
pub open spec fn lists<K: Key, V>(s: Seq<(K, V)>, key: K::Model) -> bool {
    exists|i: int| is_at(s, key, i)
}

/// The value that `s` holds for `key`.
pub open spec fn value<K: Key, V>(s: Seq<(K, V)>, key: K::Model) -> V {
    s[choose|i: int| is_at(s, key, i)].1
}

/// The map from keys to values that `s` lists.
pub open spec fn contents<K: Key, V>(s: Seq<(K, V)>) -> Map<K::Model, V> {
    Map::new(|key: K::Model| lists(s, key), |key: K::Model| value(s, key))
}

/// A map from keys to values. Its entries are kept in a list, without two of
/// the same key.
#[derive(Debug)]
pub struct KeyMap<K, V> {
    entries: Vec<(K, V)>,
}

impl<K: Key, V> View for KeyMap<K, V> {
    type V = Map<K::Model, V>;

    closed spec fn view(&self) -> Map<K::Model, V> {
        contents(self.entries@)
    }
}

impl<K: Key, V> KeyMap<K, V> {
    /// No key occurs twice.
    pub closed spec fn wf(&self) -> bool {
        keys_differ(self.entries@)
    }

    /// The entries in their order.
    pub closed spec fn listed(&self) -> Seq<(K, V)> {
        self.entries@
    }

    /// The map holds what its list of entries says, and lists no key twice.
    pub proof fn listing(&self)
        requires
            self.wf(),
        ensures
            keys_differ(self.listed()),
            self@ == contents(self.listed()),
            forall|i: int|
                0 <= i < self.listed().len() ==> {
                    let e = #[trigger] self.listed()[i];
                    self@.dom().contains(e.0.model()) && self@[e.0.model()] == e.1
                },
    {
        assert forall|i: int| 0 <= i < self.listed().len() implies {
            let e = #[trigger] self.listed()[i];
            self@.dom().contains(e.0.model()) && self@[e.0.model()] == e.1
        } by {
            let s = self.entries@;
            assert(is_at(s, s[i].0.model(), i));
            let j = choose|j: int| is_at(s, s[i].0.model(), j);
            assert(j == i);
        }
    }

    /// A map without entries.
    pub fn new() -> (r: Self)
        ensures
            r.wf(),
            r@ == Map::<K::Model, V>::empty(),
            r.listed() == Seq::<(K, V)>::empty(),
    {
        let r = KeyMap { entries: Vec::new() };
        assert(r@ =~= Map::<K::Model, V>::empty());
        r
    }

    /// The number of entries.
    pub fn len(&self) -> (r: usize)
        ensures
            r == self.listed().len(),
    {
        self.entries.len()
    }

    /// Whether the map is empty.
    pub fn is_empty(&self) -> (r: bool)
        ensures
            r == (self.listed().len() == 0),
            r == (self@ == Map::<K::Model, V>::empty()),
    {
        let r = self.entries.len() == 0;
        proof {
            if r {
                assert(self@ =~= Map::<K::Model, V>::empty());
            } else {
                assert(is_at(self.entries@, self.entries@[0].0.model(), 0));
                assert(self@.dom().contains(self.entries@[0].0.model()));
            }
        }
        r
    }

    /// Entry number `i`.
    pub fn entry(&self, i: usize) -> (r: &(K, V))
        requires
            i < self.listed().len(),
        ensures
            *r == self.listed()[i as int],
    {
        &self.entries[i]
    }

    /// The place of `key` in the list of entries.
    fn place(&self, key: &K) -> (r: Option<usize>)
        ensures
            match r {
                Some(i) => is_at(self.entries@, key.model(), i as int),
                None => !lists(self.entries@, key.model()),
            },
    {
        let mut i: usize = 0;
        while i < self.entries.len()
            invariant
                i <= self.entries.len(),
                forall|j: int| 0 <= j < i ==> !is_at(self.entries@, key.model(), j),
            decreases self.entries.len() - i,
        {
            if self.entries[i].0.matches(key) {
                assert(is_at(self.entries@, key.model(), i as int));
                return Some(i);
            }
            i += 1;
        }
        None
    }

    /// The value for `key`.
    pub fn get(&self, key: &K) -> (r: Option<&V>)
        requires
            self.wf(),
        ensures
            match r {
                Some(v) => self@.dom().contains(key.model()) && *v == self@[key.model()],
                None => !self@.dom().contains(key.model()),
            },
    {
        match self.place(key) {
            Some(i) => {
                proof {
                    let s = self.entries@;
                    let j = choose|j: int| is_at(s, key.model(), j);
                    assert(j == i);
                }
                Some(&self.entries[i].1)
            },
            None => None,
        }
    }

    /// The value for `key`, to be changed.
    pub fn get_mut(&mut self, key: &K) -> (r: Option<&mut V>)
        requires
            old(self).wf(),
        ensures
            match r {
                Some(v) => {
                    &&& old(self)@.dom().contains(key.model())
                    &&& *v == old(self)@[key.model()]
                    &&& final(self).wf()
                    &&& final(self)@ == old(self)@.insert(key.model(), *final(v))
                    &&& final(self).listed().len() == old(self).listed().len()
                },
                None => !old(self)@.dom().contains(key.model()) && *final(self) == *old(self),
            },
    {
        let ghost before = self.entries@;
        match self.place(key) {
            Some(i) => {
                proof {
                    let b = choose|b: int| is_at(before, key.model(), b);
                    assert(b == i);
                    assert forall|v: V|
                        #![trigger before.update(i as int, (before[i as int].0, v))]
                        {
                            let s = before.update(i as int, (before[i as int].0, v));
                            keys_differ(s) && contents(s) == contents(before).insert(key.model(), v)
                        } by {
                        replaced_value(before, i as int, v);
                    }
                }
                Some(&mut self.entries[i].1)
            },
            None => None,
        }
    }

    /// Whether there is a value for `key`.
    pub fn contains(&self, key: &K) -> (r: bool)
        ensures
            r == self@.dom().contains(key.model()),
    {
        match self.place(key) {
            Some(_) => true,
            None => false,
        }
    }

    /// Puts `v` in for `key`, and hands back what stood there before. A key
    /// that was there keeps its place; a new one goes to the end.
    pub fn insert(&mut self, key: K, v: V) -> (r: Option<V>)
        requires
            old(self).wf(),
        ensures
            final(self).wf(),
            final(self)@ == old(self)@.insert(key.model(), v),
            r == (if old(self)@.dom().contains(key.model()) {
                Some(old(self)@[key.model()])
            } else {
                None
            }),
            !old(self)@.dom().contains(key.model()) ==> final(self).listed() == old(self).listed().push((key, v)),
    {
        let ghost before = self.entries@;
        match self.place(&key) {
            Some(i) => {
                let mut new = (key, v);
                core::mem::swap(&mut self.entries[i], &mut new);
                proof {
                    let s = self.entries@;
                    assert(s == before.update(i as int, (key, v)));
                    assert forall|k: K::Model| lists(s, k) == lists(before, k) by {
                        if lists(s, k) {
                            let j = choose|j: int| is_at(s, k, j);
                            assert(is_at(before, k, j));
                        }
                        if lists(before, k) {
                            let j = choose|j: int| is_at(before, k, j);
                            assert(is_at(s, k, j));
                        }
                    }
                    assert forall|k: K::Model| lists(s, k) implies #[trigger] value(s, k) == (if k
                        == key.model() {
                        v
                    } else {
                        value(before, k)
                    }) by {
                        let j = choose|j: int| is_at(s, k, j);
                        assert(is_at(before, k, j));
                        let b = choose|b: int| is_at(before, k, b);
                        assert(b == j);
                        if k == key.model() {
                            assert(is_at(before, k, i as int));
                            assert(j == i);
                        }
                    }
                    let b = choose|b: int| is_at(before, key.model(), b);
                    assert(b == i);
                    assert(self@ =~= contents(before).insert(key.model(), v));
                }
                Some(new.1)
            },
            None => {
                self.entries.push((key, v));
                proof {
                    let s = self.entries@;
                    let n = before.len() as int;
                    assert forall|i: int, j: int| 0 <= i < j < s.len() implies #[trigger] s[i].0.model()
                        != #[trigger] s[j].0.model() by {
                        if j == n {
                            assert(!is_at(before, key.model(), i));
                        }
                    }
                    assert(is_at(s, key.model(), n));
                    assert forall|k: K::Model| lists(s, k) == (lists(before, k) || k == key.model()) by {
                        if lists(s, k) {
                            let j = choose|j: int| is_at(s, k, j);
                            if j < n {
                                assert(is_at(before, k, j));
                            }
                        }
                        if lists(before, k) {
                            let j = choose|j: int| is_at(before, k, j);
                            assert(is_at(s, k, j));
                        }
                    }
                    assert forall|k: K::Model| lists(s, k) implies #[trigger] value(s, k) == (if k
                        == key.model() {
                        v
                    } else {
                        value(before, k)
                    }) by {
                        let j = choose|j: int| is_at(s, k, j);
                        if k == key.model() {
                            assert(j == n);
                        } else {
                            assert(is_at(before, k, j));
                            let b = choose|b: int| is_at(before, k, b);
                            assert(b == j);
                        }
                    }
                    assert(self@ =~= contents(before).insert(key.model(), v));
                }
                None
            },
        }
    }

    /// Takes the entry for `key` out, and hands its value back.
    pub fn remove(&mut self, key: &K) -> (r: Option<V>)
        requires
            old(self).wf(),
        ensures
            final(self).wf(),
            final(self)@ == old(self)@.remove(key.model()),
            r == (if old(self)@.dom().contains(key.model()) {
                Some(old(self)@[key.model()])
            } else {
                None
            }),
    {
        let ghost before = self.entries@;
        match self.place(key) {
            Some(i) => {
                let (_, v) = self.entries.remove(i);
                proof {
                    let s = self.entries@;
                    assert(s == before.remove(i as int));
                    let b = choose|b: int| is_at(before, key.model(), b);
                    assert(b == i);
                    assert forall|k: K::Model| lists(s, k) == (lists(before, k) && k != key.model()) by {
                        if lists(s, k) {
                            let j = choose|j: int| is_at(s, k, j);
                            let t = if j < i {
                                j
                            } else {
                                j + 1
                            };
                            assert(is_at(before, k, t));
                        }
                        if lists(before, k) && k != key.model() {
                            let j = choose|j: int| is_at(before, k, j);
                            let t = if j < i {
                                j
                            } else {
                                j - 1
                            };
                            assert(is_at(s, k, t));
                        }
                    }
                    assert forall|k: K::Model| lists(s, k) implies #[trigger] value(s, k) == value(
                        before,
                        k,
                    ) by {
                        let j = choose|j: int| is_at(s, k, j);
                        let t = if j < i {
                            j
                        } else {
                            j + 1
                        };
                        assert(is_at(before, k, t));
                        let b = choose|b: int| is_at(before, k, b);
                        assert(b == t);
                    }
                    assert(self@ =~= contents(before).remove(key.model()));
                }
                Some(v)
            },
            None => {
                assert(self@ =~= self@.remove(key.model()));
                None
            },
        }
    }

    /// Takes every entry out.
    pub fn clear(&mut self)
        ensures
            final(self).wf(),
            final(self)@ == Map::<K::Model, V>::empty(),
            final(self).listed() == Seq::<(K, V)>::empty(),
    {
        self.entries.clear();
        assert(self@ =~= Map::<K::Model, V>::empty());
    }
}

/// A list with another value at place `i` stands for the map with that value
/// for the key at that place.
proof fn replaced_value<K: Key, V>(before: Seq<(K, V)>, i: int, v: V)
    requires
        keys_differ(before),
        0 <= i < before.len(),
    ensures
        ({
            let s = before.update(i, (before[i].0, v));
            keys_differ(s) && contents(s) == contents(before).insert(before[i].0.model(), v)
        }),
{
    let s = before.update(i, (before[i].0, v));
    let key = before[i].0.model();
    assert forall|k: K::Model| lists(s, k) == lists(before, k) by {
        if lists(s, k) {
            let j = choose|j: int| is_at(s, k, j);
            assert(is_at(before, k, j));
        }
        if lists(before, k) {
            let j = choose|j: int| is_at(before, k, j);
            assert(is_at(s, k, j));
        }
    }
    assert(is_at(before, key, i));
    assert forall|k: K::Model| lists(s, k) implies #[trigger] value(s, k) == (if k == key {
        v
    } else {
        value(before, k)
    }) by {
        let j = choose|j: int| is_at(s, k, j);
        assert(is_at(before, k, j));
        let b = choose|b: int| is_at(before, k, b);
        assert(b == j);
    }
    assert(contents(s) =~= contents(before).insert(key, v));
}

/// Both list the same keys and values, in the same order.
pub open spec fn same_entries<K: Key, V>(a: Seq<(K, V)>, b: Seq<(K, V)>) -> bool {
    &&& a.len() == b.len()
    &&& forall|i: int|
        0 <= i < a.len() ==> (#[trigger] a[i]).0.model() == b[i].0.model() && a[i].1 == b[i].1
}

/// Lists of the same entries stand for the same map.
proof fn same_entries_same_contents<K: Key, V>(a: Seq<(K, V)>, b: Seq<(K, V)>)
    requires
        keys_differ(a),
        same_entries(a, b),
    ensures
        keys_differ(b),
        contents(a) == contents(b),
{
    assert forall|i: int, j: int| 0 <= i < j < b.len() implies #[trigger] b[i].0.model()
        != #[trigger] b[j].0.model() by {
        assert(a[i].0.model() != a[j].0.model());
    }
    assert forall|k: K::Model| lists(a, k) == lists(b, k) by {
        if lists(a, k) {
            let i = choose|i: int| is_at(a, k, i);
            assert(a[i].0.model() == b[i].0.model());
            assert(is_at(b, k, i));
        }
        if lists(b, k) {
            let i = choose|i: int| is_at(b, k, i);
            assert(a[i].0.model() == b[i].0.model());
            assert(is_at(a, k, i));
        }
    }
    assert forall|k: K::Model| lists(a, k) implies #[trigger] value(a, k) == value(b, k) by {
        let i = choose|i: int| is_at(a, k, i);
        let j = choose|j: int| is_at(b, k, j);
        assert(a[j].0.model() == b[j].0.model());
        assert(i == j);
    }
    assert(contents(a) =~= contents(b));
}

impl<K: Key, V: Copy> KeyMap<K, V> {
    /// The same entries once more.
    pub fn duplicate(&self) -> (r: Self)
        requires
            self.wf(),
        ensures
            r.wf(),
            r@ == self@,
            same_entries(self.listed(), r.listed()),
    {
        let mut entries: Vec<(K, V)> = Vec::new();
        let mut i: usize = 0;
        while i < self.entries.len()
            invariant
                i <= self.entries@.len(),
                entries@.len() == i,
                forall|j: int|
                    0 <= j < i ==> (#[trigger] self.entries@[j]).0.model() == entries@[j].0.model()
                        && self.entries@[j].1 == entries@[j].1,
            decreases self.entries@.len() - i,
        {
            entries.push((self.entries[i].0.again(), self.entries[i].1));
            i += 1;
        }
        proof {
            same_entries_same_contents(self.entries@, entries@);
        }
        KeyMap { entries }
    }
}

impl<V> KeyMap<String, V> {
    /// The value for the text `key`.
    pub fn find(&self, key: &str) -> (r: Option<&V>)
        requires
            self.wf(),
        ensures
            match r {
                Some(v) => self@.dom().contains(key@) && *v == self@[key@],
                None => !self@.dom().contains(key@),
            },
    {
        let k = key.to_owned();
        self.get(&k)
    }

    /// Whether there is a value for the text `key`.
    pub fn holds(&self, key: &str) -> (r: bool)
        ensures
            r == self@.dom().contains(key@),
    {
        let k = key.to_owned();
        self.contains(&k)
    }
}

} // verus!
