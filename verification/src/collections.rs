//! Sets and maps that keep their keys in increasing order.
//!
//! Both are plain vectors inside. What they hold is seen from outside as a
//! mathematical `Set` or `Map`; the order in which keys are walked is the
//! increasing one, given by `listing`.
use vstd::prelude::*;
use crate::text::{
    char_before, letters, lemma_text_before_irreflexive, lemma_text_before_total, lemma_text_before_transitive,
    text_before,
};

verus! {

/// How one key stands to another.
#[derive(Clone, Copy, Debug, PartialEq, Eq, Structural)]
pub enum Relation {
    Before,
    Same,
    After,
}

/// A value that can be copied out without changing what it models.
pub trait Replicate: DeepView + Sized {
    fn replicate(&self) -> (copy: Self)
        ensures
            copy.deep_view() == self.deep_view(),
    ;
}

/// A value with a strict total order on its model.
pub trait Key: Replicate {
    spec fn before(a: Self::V, b: Self::V) -> bool;

    proof fn lemma_irreflexive(a: Self::V)
        ensures
            !Self::before(a, a),
    ;

    proof fn lemma_transitive(a: Self::V, b: Self::V, c: Self::V)
        requires
            Self::before(a, b),
            Self::before(b, c),
        ensures
            Self::before(a, c),
    ;

    proof fn lemma_total(a: Self::V, b: Self::V)
        requires
            a != b,
        ensures
            Self::before(a, b) || Self::before(b, a),
    ;

    fn relate(&self, other: &Self) -> (relation: Relation)
        ensures
            relation == Relation::Before <==> Self::before(self.deep_view(), other.deep_view()),
            relation == Relation::Same <==> self.deep_view() == other.deep_view(),
            relation == Relation::After <==> Self::before(other.deep_view(), self.deep_view()),
    ;
}

impl Replicate for String {
    fn replicate(&self) -> (copy: Self) {
        self.clone()
    }
}

impl Key for String {
    open spec fn before(a: Seq<char>, b: Seq<char>) -> bool {
        text_before(a, b)
    }

    proof fn lemma_irreflexive(a: Seq<char>) {
        lemma_text_before_irreflexive(a);
    }

    proof fn lemma_transitive(a: Seq<char>, b: Seq<char>, c: Seq<char>) {
        lemma_text_before_transitive(a, b, c);
    }

    proof fn lemma_total(a: Seq<char>, b: Seq<char>) {
        lemma_text_before_total(a, b);
    }

    fn relate(&self, other: &Self) -> (relation: Relation) {
        let xs = letters(self.as_str());
        let ys = letters(other.as_str());
        let mut i: usize = 0;
        proof {
            assert(xs@.skip(0) =~= xs@);
            assert(ys@.skip(0) =~= ys@);
            lemma_text_before_irreflexive(xs@);
        }
        while i < xs.len() && i < ys.len() && xs[i] == ys[i]
            invariant
                i <= xs.len(),
                i <= ys.len(),
                xs@.take(i as int) == ys@.take(i as int),
                text_before(xs@, ys@) == text_before(xs@.skip(i as int), ys@.skip(i as int)),
                text_before(ys@, xs@) == text_before(ys@.skip(i as int), xs@.skip(i as int)),
            decreases xs.len() - i,
        {
            proof {
                assert(xs@.skip(i as int).drop_first() =~= xs@.skip(i + 1));
                assert(ys@.skip(i as int).drop_first() =~= ys@.skip(i + 1));
                assert(xs@.take(i + 1) =~= xs@.take(i as int).push(xs@[i as int]));
                assert(ys@.take(i + 1) =~= ys@.take(i as int).push(ys@[i as int]));
            }
            i += 1;
        }
        proof {
            assert(self.deep_view() == xs@);
            assert(other.deep_view() == ys@);
            assert(Self::before(self.deep_view(), other.deep_view()) == text_before(xs@, ys@));
            assert(Self::before(other.deep_view(), self.deep_view()) == text_before(ys@, xs@));
        }
        if i == xs.len() && i == ys.len() {
            proof {
                assert(xs@.take(i as int) =~= xs@);
                assert(ys@.take(i as int) =~= ys@);
                assert(xs@ == ys@);
            }
            Relation::Same
        } else if i == xs.len() || (i < ys.len() && char_before(xs[i], ys[i])) {
            proof {
                lemma_text_before_apart(xs@, ys@);
            }
            Relation::Before
        } else {
            proof {
                if i < xs.len() && i < ys.len() {
                    let x: char = xs@[i as int];
                    let y: char = ys@[i as int];
                    assert(x as int != y as int);
                }
                lemma_text_before_apart(ys@, xs@);
            }
            Relation::After
        }
    }
}

proof fn lemma_text_before_apart(a: Seq<char>, b: Seq<char>)
    requires
        text_before(a, b),
    ensures
        a != b,
        !text_before(b, a),
{
    lemma_text_before_irreflexive(a);
    if text_before(b, a) {
        lemma_text_before_transitive(a, b, a);
    }
}


/// Keys that are strictly increasing.
pub open spec fn increasing<K: Key>(keys: Seq<K::V>) -> bool {
    forall|i: int, j: int| 0 <= i < j < keys.len() ==> #[trigger] K::before(keys[i], keys[j])
}

/// The keys of `set`, each once, in increasing order. There is exactly one such
/// sequence for a finite set.
pub open spec fn lists<K: Key>(keys: Seq<K::V>, set: Set<K::V>) -> bool {
    &&& increasing::<K>(keys)
    &&& forall|k: K::V| #[trigger] keys.contains(k) <==> set.contains(k)
}

pub proof fn lemma_increasing_no_duplicates<K: Key>(keys: Seq<K::V>)
    requires
        increasing::<K>(keys),
    ensures
        keys.no_duplicates(),
{
    assert forall|i: int, j: int| 0 <= i < keys.len() && 0 <= j < keys.len() && i != j implies keys[i]
        != keys[j] by {
        K::lemma_irreflexive(keys[i]);
        if i < j {
            assert(K::before(keys[i], keys[j]));
        } else {
            assert(K::before(keys[j], keys[i]));
        }
    }
}

/// Two increasing sequences with the same members are the same sequence.
pub proof fn lemma_listing_unique<K: Key>(a: Seq<K::V>, b: Seq<K::V>)
    requires
        increasing::<K>(a),
        increasing::<K>(b),
        forall|k: K::V| #[trigger] a.contains(k) <==> b.contains(k),
    ensures
        a == b,
    decreases a.len(),
{
    if a.len() == 0 {
        if b.len() > 0 {
            assert(b.contains(b[0]));
            assert(a.contains(b[0]));
        }
        assert(a =~= b);
    } else {
        assert(a.contains(a[0]));
        assert(b.contains(a[0]));
        if a[0] != b[0] {
            assert(b.contains(b[0]));
            assert(a.contains(b[0]));
            let i = choose|i: int| 0 <= i < a.len() && a[i] == b[0];
            let j = choose|j: int| 0 <= j < b.len() && b[j] == a[0];
            assert(K::before(a[0], a[i]));
            assert(K::before(b[0], b[j]));
            K::lemma_transitive(a[0], b[0], a[0]);
            K::lemma_irreflexive(a[0]);
        }
        let x = a.drop_first();
        let y = b.drop_first();
        lemma_increasing_no_duplicates::<K>(a);
        lemma_increasing_no_duplicates::<K>(b);
        assert forall|k: K::V| #[trigger] x.contains(k) <==> y.contains(k) by {
            if x.contains(k) {
                let i = choose|i: int| 0 <= i < x.len() && x[i] == k;
                assert(a[i + 1] == k);
                assert(a.contains(k));
                assert(b.contains(k));
                let j = choose|j: int| 0 <= j < b.len() && b[j] == k;
                assert(y[j - 1] == k);
            }
            if y.contains(k) {
                let i = choose|i: int| 0 <= i < y.len() && y[i] == k;
                assert(b[i + 1] == k);
                assert(b.contains(k));
                assert(a.contains(k));
                let j = choose|j: int| 0 <= j < a.len() && a[j] == k;
                assert(x[j - 1] == k);
            }
        }
        assert forall|i: int, j: int| 0 <= i < j < x.len() implies #[trigger] K::before(x[i], x[j]) by {
            assert(K::before(a[i + 1], a[j + 1]));
        }
        assert forall|i: int, j: int| 0 <= i < j < y.len() implies #[trigger] K::before(y[i], y[j]) by {
            assert(K::before(b[i + 1], b[j + 1]));
        }
        lemma_listing_unique::<K>(x, y);
        assert(a =~= seq![a[0]] + x);
        assert(b =~= seq![b[0]] + y);
    }
}

/// The members of a finite set in increasing order.
pub open spec fn listing_of<K: Key>(set: Set<K::V>) -> Seq<K::V> {
    choose|keys: Seq<K::V>| lists::<K>(keys, set)
}

/// A listing of a set is the listing of the set.
pub proof fn lemma_listing_of<K: Key>(keys: Seq<K::V>, set: Set<K::V>)
    requires
        lists::<K>(keys, set),
    ensures
        listing_of::<K>(set) == keys,
{
    let chosen = listing_of::<K>(set);
    assert(lists::<K>(chosen, set));
    assert forall|k: K::V| #[trigger] chosen.contains(k) <==> keys.contains(k) by {
        assert(chosen.contains(k) <==> set.contains(k));
        assert(keys.contains(k) <==> set.contains(k));
    }
    lemma_listing_unique::<K>(chosen, keys);
}

/// `key` put into an increasing sequence that does not hold it.
spec fn with_new_key<K: Key>(keys: Seq<K::V>, key: K::V) -> Seq<K::V>
    decreases keys.len(),
{
    if keys.len() == 0 || K::before(key, keys[0]) {
        seq![key] + keys
    } else {
        seq![keys[0]] + with_new_key::<K>(keys.drop_first(), key)
    }
}

proof fn lemma_with_new_key<K: Key>(keys: Seq<K::V>, key: K::V)
    requires
        increasing::<K>(keys),
        !keys.contains(key),
    ensures
        increasing::<K>(with_new_key::<K>(keys, key)),
        forall|k: K::V| #[trigger]
            with_new_key::<K>(keys, key).contains(k) <==> keys.contains(k) || k == key,
    decreases keys.len(),
{
    let after = with_new_key::<K>(keys, key);
    if keys.len() == 0 || K::before(key, keys[0]) {
        assert(after[0] == key);
        assert forall|i: int, j: int| 0 <= i < j < after.len() implies #[trigger] K::before(
            after[i],
            after[j],
        ) by {
            if i > 0 {
                assert(K::before(keys[i - 1], keys[j - 1]));
            } else if j > 1 {
                assert(K::before(keys[0], keys[j - 1]));
                K::lemma_transitive(key, keys[0], keys[j - 1]);
            }
        }
        assert forall|k: K::V| #[trigger] after.contains(k) <==> keys.contains(k) || k == key by {
            if keys.contains(k) {
                let i = choose|i: int| 0 <= i < keys.len() && keys[i] == k;
                assert(after[i + 1] == k);
            }
            if after.contains(k) && k != key {
                let i = choose|i: int| 0 <= i < after.len() && after[i] == k;
                assert(keys[i - 1] == k);
            }
        }
    } else {
        let rest = keys.drop_first();
        assert(keys.contains(keys[0]));
        K::lemma_total(key, keys[0]);
        assert forall|i: int, j: int| 0 <= i < j < rest.len() implies #[trigger] K::before(
            rest[i],
            rest[j],
        ) by {
            assert(K::before(keys[i + 1], keys[j + 1]));
        }
        assert forall|k: K::V| #[trigger] rest.contains(k) implies keys.contains(k) by {
            let i = choose|i: int| 0 <= i < rest.len() && rest[i] == k;
            assert(keys[i + 1] == k);
        }
        lemma_with_new_key::<K>(rest, key);
        let inner = with_new_key::<K>(rest, key);
        assert(after == seq![keys[0]] + inner);
        assert forall|i: int, j: int| 0 <= i < j < after.len() implies #[trigger] K::before(
            after[i],
            after[j],
        ) by {
            assert(after[j] == inner[j - 1]);
            if i > 0 {
                assert(K::before(inner[i - 1], inner[j - 1]));
            } else {
                assert(inner.contains(inner[j - 1]));
                if inner[j - 1] != key {
                    assert(rest.contains(inner[j - 1]));
                    let m = choose|m: int| 0 <= m < rest.len() && rest[m] == inner[j - 1];
                    assert(K::before(keys[0], keys[m + 1]));
                }
            }
        }
        assert forall|k: K::V| #[trigger] after.contains(k) <==> keys.contains(k) || k == key by {
            if after.contains(k) {
                let i = choose|i: int| 0 <= i < after.len() && after[i] == k;
                if i > 0 {
                    assert(inner[i - 1] == k);
                    assert(inner.contains(k));
                }
            }
            if keys.contains(k) {
                let i = choose|i: int| 0 <= i < keys.len() && keys[i] == k;
                if i > 0 {
                    assert(rest[i - 1] == k);
                    assert(inner.contains(k));
                    let m = choose|m: int| 0 <= m < inner.len() && inner[m] == k;
                    assert(after[m + 1] == k);
                } else {
                    assert(after[0] == k);
                }
            }
            if k == key {
                assert(inner.contains(key));
                let m = choose|m: int| 0 <= m < inner.len() && inner[m] == key;
                assert(after[m + 1] == key);
            }
        }
    }
}

/// Every finite set has a listing.
pub proof fn lemma_listing_exists<K: Key>(set: Set<K::V>)
    requires
        set.finite(),
    ensures
        lists::<K>(listing_of::<K>(set), set),
    decreases set.len(),
{
    if set.len() == 0 {
        assert(set =~= Set::empty());
        assert(lists::<K>(Seq::empty(), set));
    } else {
        let key = set.choose();
        let rest = set.remove(key);
        lemma_listing_exists::<K>(rest);
        let keys = listing_of::<K>(rest);
        assert(!keys.contains(key));
        lemma_with_new_key::<K>(keys, key);
        let after = with_new_key::<K>(keys, key);
        assert forall|k: K::V| #[trigger] after.contains(k) <==> set.contains(k) by {
            assert(keys.contains(k) <==> rest.contains(k));
        }
        assert(lists::<K>(after, set));
    }
}

/// A set of keys, kept in increasing order.
#[derive(Debug, PartialEq, Eq)]
pub struct OrdSet<K: Key> {
    items: Vec<K>,
}

impl<K: Key> DeepView for OrdSet<K> {
    type V = Set<K::V>;

    open spec fn deep_view(&self) -> Set<K::V> {
        self.listing().to_set()
    }
}

impl<K: Key> View for OrdSet<K> {
    type V = Set<K::V>;

    open spec fn view(&self) -> Set<K::V> {
        self.listing().to_set()
    }
}

impl<K: Key> OrdSet<K> {
    /// The keys in the order in which they are walked.
    pub closed spec fn listing(&self) -> Seq<K::V> {
        self.items.deep_view()
    }

    #[verifier::type_invariant]
    spec fn well_formed(self) -> bool {
        increasing::<K>(self.items.deep_view())
    }

    /// The empty set.
    pub fn new() -> (set: Self)
        ensures
            set@ == Set::<K::V>::empty(),
            set.listing() == Seq::<K::V>::empty(),
    {
        let set = OrdSet { items: Vec::new() };
        proof {
            assert(set.listing() =~= Seq::<K::V>::empty());
        }
        set
    }

    /// The number of keys.
    pub fn len(&self) -> (n: usize)
        ensures
            n == self.listing().len(),
            n == self@.len(),
            self@.finite(),
            lists::<K>(self.listing(), self@),
            self.listing().no_duplicates(),
    {
        proof {
            use_type_invariant(self);
            lemma_increasing_no_duplicates::<K>(self.listing());
            self.listing().unique_seq_to_set();
            vstd::seq_lib::seq_to_set_is_finite(self.listing());
        }
        self.items.len()
    }

    /// Whether there is no key.
    pub fn is_empty(&self) -> (empty: bool)
        ensures
            empty == (self@ == Set::<K::V>::empty()),
            empty == (self@.len() == 0),
            empty == (self.listing().len() == 0),
    {
        let n: usize = self.len();
        proof {
            if n == 0 {
                assert(self@ =~= Set::<K::V>::empty());
            } else {
                assert(self.listing().contains(self.listing()[0]));
            }
        }
        n == 0
    }

    /// The key at a place in the increasing order.
    pub fn at(&self, i: usize) -> (key: &K)
        requires
            i < self.listing().len(),
        ensures
            key.deep_view() == self.listing()[i as int],
            self@.contains(key.deep_view()),
    {
        proof {
            assert(self.listing().contains(self.listing()[i as int]));
        }
        &self.items[i]
    }

    /// Where `key` stands, or where it would be put.
    fn locate(&self, key: &K) -> (found: (bool, usize))
        ensures
            found.1 <= self.listing().len(),
            found.0 == self@.contains(key.deep_view()),
            found.0 ==> found.1 < self.listing().len() && self.listing()[found.1 as int] == key.deep_view(),
            !found.0 ==> forall|i: int|
                0 <= i < found.1 ==> #[trigger] K::before(self.listing()[i], key.deep_view()),
            !found.0 ==> forall|i: int|
                found.1 <= i < self.listing().len() ==> #[trigger] K::before(
                    key.deep_view(),
                    self.listing()[i],
                ),
    {
        proof {
            use_type_invariant(self);
        }
        let ghost target = key.deep_view();
        let mut i: usize = 0;
        while i < self.items.len()
            invariant
                i <= self.items.len(),
                target == key.deep_view(),
                increasing::<K>(self.listing()),
                forall|j: int| 0 <= j < i ==> #[trigger] K::before(self.listing()[j], target),
            decreases self.items.len() - i,
        {
            match self.items[i].relate(key) {
                Relation::Before => {
                    proof {
                        assert(K::before(self.listing()[i as int], target));
                    }
                    i += 1;
                },
                Relation::Same => {
                    proof {
                        assert(self.listing()[i as int] == target);
                        assert(self.listing().contains(target));
                    }
                    return (true, i);
                },
                Relation::After => {
                    proof {
                        assert forall|j: int| i <= j < self.listing().len() implies #[trigger] K::before(
                            target,
                            self.listing()[j],
                        ) by {
                            if j > i {
                                assert(K::before(self.listing()[i as int], self.listing()[j]));
                                K::lemma_transitive(
                                    target,
                                    self.listing()[i as int],
                                    self.listing()[j],
                                );
                            }
                        }
                        if self@.contains(target) {
                            let j = choose|j: int| 0 <= j < self.listing().len() && self.listing()[j] == target;
                            K::lemma_irreflexive(target);
                            if j < i {
                                assert(K::before(self.listing()[j], target));
                            } else {
                                assert(K::before(target, self.listing()[j]));
                            }
                        }
                    }
                    return (false, i);
                },
            }
        }
        proof {
            if self@.contains(target) {
                let j = choose|j: int| 0 <= j < self.listing().len() && self.listing()[j] == target;
                K::lemma_irreflexive(target);
                assert(K::before(self.listing()[j], target));
            }
        }
        (false, i)
    }

    /// Whether `key` is a member.
    pub fn contains(&self, key: &K) -> (found: bool)
        ensures
            found == self@.contains(key.deep_view()),
    {
        self.locate(key).0
    }

    /// The place of `key` in the increasing order, where it is a member.
    pub fn position(&self, key: &K) -> (place: Option<usize>)
        ensures
            match place {
                Some(i) => i < self.listing().len() && self.listing()[i as int] == key.deep_view()
                    && self@.contains(key.deep_view()),
                None => !self@.contains(key.deep_view()),
            },
    {
        let (found, i) = self.locate(key);
        if found {
            Some(i)
        } else {
            None
        }
    }

    /// Adds `key`; says whether it was new. Gives its place.
    fn place(&mut self, key: K) -> (placed: (bool, usize))
        ensures
            final(self)@ == old(self)@.insert(key.deep_view()),
            placed.0 == !old(self)@.contains(key.deep_view()),
            placed.0 ==> placed.1 <= old(self).listing().len() && final(self).listing() == old(
                self,
            ).listing().insert(placed.1 as int, key.deep_view()),
            !placed.0 ==> final(self).listing() == old(self).listing() && placed.1 < old(
                self,
            ).listing().len() && old(self).listing()[placed.1 as int] == key.deep_view(),
    {
        let ghost target = key.deep_view();
        let (found, i) = self.locate(&key);
        if found {
            proof {
                assert(self@.insert(target) =~= self@);
            }
            return (false, i);
        }
        proof {
            use_type_invariant(&*self);
        }
        let ghost before = self.listing();
        let mut items: Vec<K> = Vec::new();
        core::mem::swap(&mut items, &mut self.items);
        items.insert(i, key);
        proof {
            let after = items.deep_view();
            assert(after =~= before.insert(i as int, target));
            assert forall|a: int, b: int| 0 <= a < b < after.len() implies #[trigger] K::before(
                after[a],
                after[b],
            ) by {
                if a < i && b > i {
                    assert(K::before(before[a], before[b - 1]));
                } else if a == i {
                    assert(K::before(target, before[b - 1]));
                } else if b == i {
                    assert(K::before(before[a], target));
                } else if a > i {
                    assert(K::before(before[a - 1], before[b - 1]));
                } else {
                    assert(K::before(before[a], before[b]));
                }
            }
            assert forall|k: K::V| after.contains(k) == (before.contains(k) || k == target) by {
                if before.contains(k) {
                    let j = choose|j: int| 0 <= j < before.len() && before[j] == k;
                    if j < i {
                        assert(after[j] == k);
                    } else {
                        assert(after[j + 1] == k);
                    }
                }
                if k == target {
                    assert(after[i as int] == k);
                }
                if after.contains(k) && k != target {
                    let j = choose|j: int| 0 <= j < after.len() && after[j] == k;
                    if j < i {
                        assert(before[j] == k);
                    } else {
                        assert(before[j - 1] == k);
                    }
                }
            }
        }
        self.items = items;
        proof {
            assert(self@ =~= before.to_set().insert(target));
        }
        (true, i)
    }

    /// Adds `key`; says whether it was new.
    pub fn insert(&mut self, key: K) -> (added: bool)
        ensures
            final(self)@ == old(self)@.insert(key.deep_view()),
            added == !old(self)@.contains(key.deep_view()),
    {
        self.place(key).0
    }

    /// Takes out the key at a place in the increasing order.
    fn take_at(&mut self, i: usize) -> (key: K)
        requires
            i < old(self).listing().len(),
        ensures
            key.deep_view() == old(self).listing()[i as int],
            final(self).listing() == old(self).listing().remove(i as int),
            final(self)@ == old(self)@.remove(old(self).listing()[i as int]),
    {
        proof {
            use_type_invariant(&*self);
            lemma_increasing_no_duplicates::<K>(self.listing());
        }
        let ghost before = self.listing();
        let ghost target = self.listing()[i as int];
        let mut items: Vec<K> = Vec::new();
        core::mem::swap(&mut items, &mut self.items);
        let key = items.remove(i);
        proof {
            let after = items.deep_view();
            assert(after =~= before.remove(i as int));
            assert forall|a: int, b: int| 0 <= a < b < after.len() implies #[trigger] K::before(
                after[a],
                after[b],
            ) by {
                let x = if a < i {
                    a
                } else {
                    a + 1
                };
                let y = if b < i {
                    b
                } else {
                    b + 1
                };
                assert(K::before(before[x], before[y]));
            }
            assert forall|k: K::V| after.contains(k) == (before.contains(k) && k != target) by {
                if before.contains(k) && k != target {
                    let j = choose|j: int| 0 <= j < before.len() && before[j] == k;
                    if j < i {
                        assert(after[j] == k);
                    } else {
                        assert(after[j - 1] == k);
                    }
                }
                if after.contains(k) {
                    let j = choose|j: int| 0 <= j < after.len() && after[j] == k;
                    if j < i {
                        assert(before[j] == k);
                    } else {
                        assert(before[j + 1] == k);
                    }
                }
            }
        }
        self.items = items;
        proof {
            assert(self@ =~= before.to_set().remove(target));
        }
        key
    }

    /// Takes `key` out; says whether it was a member.
    pub fn remove(&mut self, key: &K) -> (removed: bool)
        ensures
            final(self)@ == old(self)@.remove(key.deep_view()),
            removed == old(self)@.contains(key.deep_view()),
    {
        let (found, i) = self.locate(key);
        if found {
            let _ = self.take_at(i);
            true
        } else {
            proof {
                assert(self@.remove(key.deep_view()) =~= self@);
            }
            false
        }
    }

    /// Whether every member is a member of `other`.
    pub fn is_subset(&self, other: &Self) -> (inside: bool)
        ensures
            inside == self@.subset_of(other@),
    {
        let n: usize = self.len();
        let mut i: usize = 0;
        while i < n
            invariant
                i <= n == self.listing().len(),
                forall|j: int| 0 <= j < i ==> other@.contains(#[trigger] self.listing()[j]),
            decreases n - i,
        {
            let key = self.at(i);
            if !other.contains(key) {
                proof {
                    assert(self@.contains(self.listing()[i as int]));
                }
                return false;
            }
            i += 1;
        }
        proof {
            assert forall|k: K::V| self@.contains(k) implies other@.contains(k) by {
                let j = choose|j: int| 0 <= j < self.listing().len() && self.listing()[j] == k;
                assert(other@.contains(self.listing()[j]));
            }
        }
        true
    }

    /// Whether both sets have the same members.
    pub fn same(&self, other: &Self) -> (same: bool)
        ensures
            same == (self@ == other@),
    {
        let same = self.is_subset(other) && other.is_subset(self);
        proof {
            if same {
                assert(self@ =~= other@);
            }
        }
        same
    }

    /// The set of the keys in `keys`.
    pub fn from_vec(keys: Vec<K>) -> (set: Self)
        ensures
            set@ == keys.deep_view().to_set(),
    {
        let mut set = OrdSet::new();
        let mut i: usize = 0;
        proof {
            assert(keys.deep_view().take(0).to_set() =~= Set::<K::V>::empty());
        }
        while i < keys.len()
            invariant
                i <= keys.len(),
                set@ == keys.deep_view().take(i as int).to_set(),
            decreases keys.len() - i,
        {
            set.insert(keys[i].replicate());
            proof {
                let all = keys.deep_view();
                assert(all.take(i + 1) =~= all.take(i as int).push(all[i as int]));
                lemma_push_to_set(all.take(i as int), all[i as int]);
            }
            i += 1;
        }
        proof {
            assert(keys.deep_view().take(i as int) =~= keys.deep_view());
        }
        set
    }

    /// The members in increasing order.
    pub fn to_vec(&self) -> (keys: Vec<K>)
        ensures
            keys.deep_view() == self.listing(),
            lists::<K>(keys.deep_view(), self@),
    {
        let n: usize = self.len();
        let mut keys: Vec<K> = Vec::new();
        let mut i: usize = 0;
        while i < n
            invariant
                i <= n == self.listing().len(),
                keys.deep_view() == self.listing().take(i as int),
            decreases n - i,
        {
            let key = self.at(i).replicate();
            let ghost before = keys.deep_view();
            keys.push(key);
            proof {
                assert(keys.deep_view() =~= before.push(self.listing()[i as int]));
                assert(self.listing().take(i + 1) =~= before.push(self.listing()[i as int]));
            }
            i += 1;
        }
        proof {
            assert(self.listing().take(i as int) =~= self.listing());
        }
        keys
    }
}

/// Adding an element at the end of a sequence adds it to the set of elements.
pub proof fn lemma_push_to_set<A>(s: Seq<A>, a: A)
    ensures
        s.push(a).to_set() == s.to_set().insert(a),
{
    assert forall|x: A| #[trigger]
        s.push(a).to_set().contains(x) == s.to_set().insert(a).contains(x) by {
        if s.contains(x) {
            let i = choose|i: int| 0 <= i < s.len() && s[i] == x;
            assert(s.push(a)[i] == x);
        }
        if x == a {
            assert(s.push(a)[s.len() as int] == x);
        }
    }
    assert(s.push(a).to_set() =~= s.to_set().insert(a));
}

/// The elements of a prefix that is one longer.
pub proof fn lemma_take_next<A>(listing: Seq<A>, i: int)
    requires
        0 <= i < listing.len(),
        listing.no_duplicates(),
    ensures
        forall|a: A| #[trigger]
            listing.take(i + 1).contains(a) <==> listing.take(i).contains(a) || a == listing[i],
        !listing.take(i).contains(listing[i]),
{
    let seen = listing.take(i);
    assert(listing.take(i + 1) =~= seen.push(listing[i]));
    lemma_push_to_set(seen, listing[i]);
    assert forall|a: A| #[trigger]
        listing.take(i + 1).contains(a) <==> seen.contains(a) || a == listing[i] by {
        assert(seen.push(listing[i]).to_set().contains(a) <==> seen.to_set().insert(
            listing[i],
        ).contains(a));
    }
}

impl<K: Key> Replicate for OrdSet<K> {
    fn replicate(&self) -> (copy: Self) {
        let keys = self.to_vec();
        let copy = OrdSet::from_vec(keys);
        copy
    }
}

impl<K: Key> Clone for OrdSet<K> {
    fn clone(&self) -> (copy: Self)
        ensures
            copy@ == self@,
    {
        self.replicate()
    }
}

impl<K: Key> Default for OrdSet<K> {
    fn default() -> (set: Self)
        ensures
            set@ == Set::<K::V>::empty(),
    {
        OrdSet::new()
    }
}

/// A map from keys to values, its keys kept in increasing order.
#[derive(Debug, PartialEq, Eq)]
pub struct OrdMap<K: Key, V: DeepView> {
    keys: OrdSet<K>,
    values: Vec<V>,
}

impl<K: Key, V: DeepView> DeepView for OrdMap<K, V> {
    type V = Map<K::V, V::V>;

    open spec fn deep_view(&self) -> Map<K::V, V::V> {
        self.contents()
    }
}

impl<K: Key, V: DeepView> View for OrdMap<K, V> {
    type V = Map<K::V, V::V>;

    open spec fn view(&self) -> Map<K::V, V::V> {
        self.contents()
    }
}

/// The map that sends each of `keys` to the value at the same place.
spec fn paired<A, B>(keys: Seq<A>, values: Seq<B>) -> Map<A, B> {
    Map::new(|k: A| keys.contains(k), |k: A| values[keys.index_of(k)])
}

proof fn lemma_paired_at<A, B>(keys: Seq<A>, values: Seq<B>, i: int)
    requires
        keys.no_duplicates(),
        0 <= i < keys.len(),
    ensures
        paired(keys, values).contains_key(keys[i]),
        paired(keys, values)[keys[i]] == values[i],
{
    assert(keys.contains(keys[i]));
}

impl<K: Key, V: DeepView> OrdMap<K, V> {
    /// The keys in the order in which they are walked.
    pub closed spec fn listing(&self) -> Seq<K::V> {
        self.keys.listing()
    }

    /// What each key stands for.
    pub closed spec fn contents(&self) -> Map<K::V, V::V> {
        paired(self.keys.listing(), self.values.deep_view())
    }

    #[verifier::type_invariant]
    spec fn well_formed(self) -> bool {
        self.keys.listing().len() == self.values@.len()
    }

    /// The empty map.
    pub fn new() -> (map: Self)
        ensures
            map@ == Map::<K::V, V::V>::empty(),
            map.listing() == Seq::<K::V>::empty(),
    {
        let map = OrdMap { keys: OrdSet::new(), values: Vec::new() };
        proof {
            assert(map@ =~= Map::<K::V, V::V>::empty());
        }
        map
    }

    /// The number of keys.
    pub fn len(&self) -> (n: usize)
        ensures
            n == self.listing().len(),
            n == self@.dom().len(),
            self@.dom().finite(),
            lists::<K>(self.listing(), self@.dom()),
            self.listing().no_duplicates(),
    {
        proof {
            use_type_invariant(self);
            assert(self@.dom() =~= self.keys@);
        }
        self.keys.len()
    }

    /// Whether there is no key.
    pub fn is_empty(&self) -> (empty: bool)
        ensures
            empty == (self@ == Map::<K::V, V::V>::empty()),
            empty == (self.listing().len() == 0),
    {
        let empty = self.keys.is_empty();
        proof {
            if empty {
                assert(self@ =~= Map::<K::V, V::V>::empty());
            } else {
                assert(self.listing().contains(self.listing()[0]));
                assert(self@.contains_key(self.listing()[0]));
            }
        }
        empty
    }

    /// The key at a place in the increasing order.
    pub fn key_at(&self, i: usize) -> (key: &K)
        requires
            i < self.listing().len(),
        ensures
            key.deep_view() == self.listing()[i as int],
            self@.contains_key(key.deep_view()),
    {
        self.keys.at(i)
    }

    /// The value of the key at a place in the increasing order.
    pub fn value_at(&self, i: usize) -> (value: &V)
        requires
            i < self.listing().len(),
        ensures
            self@.contains_key(self.listing()[i as int]),
            value.deep_view() == self@[self.listing()[i as int]],
    {
        let _ = self.len();
        proof {
            use_type_invariant(self);
            lemma_paired_at(self.listing(), self.values.deep_view(), i as int);
        }
        &self.values[i]
    }

    /// Whether `key` has a value.
    pub fn contains_key(&self, key: &K) -> (found: bool)
        ensures
            found == self@.contains_key(key.deep_view()),
    {
        self.keys.contains(key)
    }

    /// The value of `key`.
    pub fn get(&self, key: &K) -> (value: Option<&V>)
        ensures
            match value {
                Some(v) => self@.contains_key(key.deep_view()) && v.deep_view()
                    == self@[key.deep_view()],
                None => !self@.contains_key(key.deep_view()),
            },
    {
        let _ = self.len();
        match self.keys.position(key) {
            Some(i) => Some(self.value_at(i)),
            None => None,
        }
    }

    /// Gives `key` the value `value`, in place of the one it had.
    pub fn insert(&mut self, key: K, value: V)
        ensures
            final(self)@ == old(self)@.insert(key.deep_view(), value.deep_view()),
    {
        let _ = self.len();
        proof {
            use_type_invariant(&*self);
        }
        let ghost old_keys = self.keys.listing();
        let ghost old_values = self.values.deep_view();
        let ghost k = key.deep_view();
        let ghost v = value.deep_view();
        let mut whole: OrdMap<K, V> = OrdMap::new();
        core::mem::swap(&mut whole, self);
        let OrdMap { keys, values } = whole;
        let mut keys = keys;
        let mut values = values;
        let (added, i) = keys.place(key);
        if added {
            values.insert(i, value);
            proof {
                let new_keys = keys.listing();
                let new_values = values.deep_view();
                assert(new_values =~= old_values.insert(i as int, v));
                lemma_insert_no_duplicates(old_keys, i as int, k);
                lemma_paired_insert(old_keys, old_values, i as int, k, v);
            }
        } else {
            values.set(i, value);
            proof {
                assert(values.deep_view() =~= old_values.update(i as int, v));
                lemma_paired_update(old_keys, old_values, i as int, v);
            }
        }
        *self = OrdMap { keys, values };
    }

    /// Takes `key` out and gives back the value it had.
    pub fn take(&mut self, key: &K) -> (value: Option<V>)
        ensures
            final(self)@ == old(self)@.remove(key.deep_view()),
            match value {
                Some(v) => old(self)@.contains_key(key.deep_view()) && v.deep_view() == old(
                    self,
                )@[key.deep_view()],
                None => !old(self)@.contains_key(key.deep_view()),
            },
    {
        let _ = self.len();
        proof {
            use_type_invariant(&*self);
        }
        match self.keys.position(key) {
            None => {
                proof {
                    assert(self@.remove(key.deep_view()) =~= self@);
                }
                None
            },
            Some(i) => {
                let ghost old_keys = self.keys.listing();
                let ghost old_values = self.values.deep_view();
                let mut whole: OrdMap<K, V> = OrdMap::new();
                core::mem::swap(&mut whole, self);
                let OrdMap { keys, values } = whole;
                let mut keys = keys;
                let mut values = values;
                let _ = keys.take_at(i);
                let value = values.remove(i);
                proof {
                    assert(values.deep_view() =~= old_values.remove(i as int));
                    lemma_paired_remove(old_keys, old_values, i as int);
                }
                *self = OrdMap { keys, values };
                Some(value)
            },
        }
    }

    /// The keys.
    pub fn key_set(&self) -> (keys: OrdSet<K>)
        ensures
            keys@ == self@.dom(),
    {
        let _ = self.len();
        let keys = self.keys.replicate();
        proof {
            assert(self@.dom() =~= self.keys@);
        }
        keys
    }
}

proof fn lemma_insert_no_duplicates<A>(keys: Seq<A>, i: int, k: A)
    requires
        keys.no_duplicates(),
        !keys.contains(k),
        0 <= i <= keys.len(),
    ensures
        keys.insert(i, k).no_duplicates(),
{
    let after = keys.insert(i, k);
    assert forall|a: int, b: int| 0 <= a < b < after.len() implies after[a] != after[b] by {
        let x = if a < i {
            a
        } else {
            a - 1
        };
        let y = if b < i {
            b
        } else {
            b - 1
        };
        if a == i {
            assert(keys.contains(keys[y]));
        } else if b == i {
            assert(keys.contains(keys[x]));
        } else {
            assert(keys[x] != keys[y]);
        }
    }
}

proof fn lemma_paired_insert<A, B>(keys: Seq<A>, values: Seq<B>, i: int, k: A, v: B)
    requires
        keys.no_duplicates(),
        keys.insert(i, k).no_duplicates(),
        !keys.contains(k),
        keys.len() == values.len(),
        0 <= i <= keys.len(),
    ensures
        paired(keys.insert(i, k), values.insert(i, v)) == paired(keys, values).insert(k, v),
{
    let new_keys = keys.insert(i, k);
    let new_values = values.insert(i, v);
    let left = paired(new_keys, new_values);
    let right = paired(keys, values).insert(k, v);
    assert(new_keys[i] == k);
    assert forall|x: A| #[trigger] left.contains_key(x) == right.contains_key(x) by {
        if new_keys.contains(x) && x != k {
            let j = choose|j: int| 0 <= j < new_keys.len() && new_keys[j] == x;
            let m = if j < i {
                j
            } else {
                j - 1
            };
            assert(keys[m] == x);
        }
        if keys.contains(x) {
            let j = choose|j: int| 0 <= j < keys.len() && keys[j] == x;
            let m = if j < i {
                j
            } else {
                j + 1
            };
            assert(new_keys[m] == x);
        }
    }
    assert forall|x: A| #[trigger] left.contains_key(x) implies left[x] == right[x] by {
        if x == k {
            lemma_paired_at(new_keys, new_values, i);
        } else {
            assert(right.contains_key(x));
            let j = choose|j: int| 0 <= j < keys.len() && keys[j] == x;
            let m = if j < i {
                j
            } else {
                j + 1
            };
            assert(new_keys[m] == x);
            lemma_paired_at(keys, values, j);
            lemma_paired_at(new_keys, new_values, m);
        }
    }
    assert(left =~= right);
}

proof fn lemma_paired_update<A, B>(keys: Seq<A>, values: Seq<B>, i: int, v: B)
    requires
        keys.no_duplicates(),
        keys.len() == values.len(),
        0 <= i < keys.len(),
    ensures
        paired(keys, values.update(i, v)) == paired(keys, values).insert(keys[i], v),
{
    let left = paired(keys, values.update(i, v));
    let right = paired(keys, values).insert(keys[i], v);
    lemma_paired_at(keys, values.update(i, v), i);
    assert forall|x: A| #[trigger] left.contains_key(x) implies left[x] == right[x] by {
        let j = choose|j: int| 0 <= j < keys.len() && keys[j] == x;
        lemma_paired_at(keys, values, j);
        lemma_paired_at(keys, values.update(i, v), j);
    }
    assert(left =~= right);
}

proof fn lemma_paired_remove<A, B>(keys: Seq<A>, values: Seq<B>, i: int)
    requires
        keys.no_duplicates(),
        keys.len() == values.len(),
        0 <= i < keys.len(),
    ensures
        paired(keys, values)[keys[i]] == values[i],
        paired(keys.remove(i), values.remove(i)) == paired(keys, values).remove(keys[i]),
{
    let new_keys = keys.remove(i);
    let new_values = values.remove(i);
    let left = paired(new_keys, new_values);
    let right = paired(keys, values).remove(keys[i]);
    lemma_paired_at(keys, values, i);
    assert(new_keys.no_duplicates());
    assert forall|x: A| #[trigger] left.contains_key(x) == right.contains_key(x) by {
        if new_keys.contains(x) {
            let j = choose|j: int| 0 <= j < new_keys.len() && new_keys[j] == x;
            let m = if j < i {
                j
            } else {
                j + 1
            };
            assert(keys[m] == x);
        }
        if keys.contains(x) && x != keys[i] {
            let j = choose|j: int| 0 <= j < keys.len() && keys[j] == x;
            let m = if j < i {
                j
            } else {
                j - 1
            };
            assert(new_keys[m] == x);
        }
    }
    assert forall|x: A| #[trigger] left.contains_key(x) implies left[x] == right[x] by {
        let j = choose|j: int| 0 <= j < new_keys.len() && new_keys[j] == x;
        let m = if j < i {
            j
        } else {
            j + 1
        };
        assert(keys[m] == x);
        lemma_paired_at(keys, values, m);
        lemma_paired_at(new_keys, new_values, j);
    }
    assert(left =~= right);
}

impl<K: Key, V: Replicate> Replicate for OrdMap<K, V> {
    fn replicate(&self) -> (copy: Self) {
        let n: usize = self.len();
        let mut copy: OrdMap<K, V> = OrdMap::new();
        let mut i: usize = 0;
        while i < n
            invariant
                i <= n == self.listing().len(),
                lists::<K>(self.listing(), self@.dom()),
                self.listing().no_duplicates(),
                forall|k: K::V| #[trigger]
                    copy@.contains_key(k) <==> self.listing().take(i as int).contains(k),
                forall|k: K::V| #[trigger] copy@.contains_key(k) ==> copy@[k] == self@[k],
            decreases n - i,
        {
            let ghost before = copy@;
            let ghost key = self.listing()[i as int];
            copy.insert(self.key_at(i).replicate(), self.value_at(i).replicate());
            proof {
                let seen = self.listing().take(i as int);
                assert(self.listing().take(i + 1) =~= seen.push(key));
                lemma_push_to_set(seen, key);
                assert forall|k: K::V| #[trigger]
                    copy@.contains_key(k) <==> self.listing().take(i + 1).contains(k) by {
                    assert(before.contains_key(k) <==> seen.to_set().contains(k));
                    assert(seen.push(key).to_set().contains(k) <==> seen.to_set().insert(key).contains(k));
                }
                assert forall|k: K::V| #[trigger] copy@.contains_key(k) implies copy@[k]
                    == self@[k] by {
                    if k != key {
                        assert(before.contains_key(k));
                    }
                }
            }
            i += 1;
        }
        proof {
            assert(self.listing().take(i as int) =~= self.listing());
            assert forall|k: K::V| #[trigger] copy@.contains_key(k) <==> self@.contains_key(k) by {
                assert(self.listing().contains(k) <==> self@.dom().contains(k));
            }
            assert(copy@ =~= self@);
        }
        copy
    }
}

impl<K: Key, V: Replicate> Clone for OrdMap<K, V> {
    fn clone(&self) -> (copy: Self)
        ensures
            copy@ == self@,
    {
        self.replicate()
    }
}

impl<K: Key, V: DeepView> Default for OrdMap<K, V> {
    fn default() -> (map: Self)
        ensures
            map@ == Map::<K::V, V::V>::empty(),
    {
        OrdMap::new()
    }
}

/// A result with its error seen as a model.
pub open spec fn outcome<T, E: DeepView>(result: Result<T, E>) -> Result<T, E::V> {
    match result {
        Ok(value) => Ok(value),
        Err(error) => Err(error.deep_view()),
    }
}

impl<T: Replicate> Replicate for Option<T> {
    fn replicate(&self) -> (copy: Self) {
        match self {
            Some(value) => Some(value.replicate()),
            None => None,
        }
    }
}

impl<T: Replicate> Replicate for Vec<T> {
    fn replicate(&self) -> (copy: Self) {
        let mut copy: Vec<T> = Vec::new();
        let mut i: usize = 0;
        while i < self.len()
            invariant
                i <= self.len(),
                copy.len() == i,
                forall|j: int| 0 <= j < i ==> #[trigger] copy@[j].deep_view() == self@[j].deep_view(),
            decreases self.len() - i,
        {
            copy.push(self[i].replicate());
            i += 1;
        }
        proof {
            assert(copy.deep_view() =~= self.deep_view());
        }
        copy
    }
}

impl Replicate for u64 {
    fn replicate(&self) -> (copy: Self) {
        *self
    }
}

impl Key for u64 {
    open spec fn before(a: u64, b: u64) -> bool {
        a < b
    }

    proof fn lemma_irreflexive(a: u64) {
    }

    proof fn lemma_transitive(a: u64, b: u64, c: u64) {
    }

    proof fn lemma_total(a: u64, b: u64) {
    }

    fn relate(&self, other: &Self) -> (relation: Relation) {
        if *self < *other {
            Relation::Before
        } else if *self == *other {
            Relation::Same
        } else {
            Relation::After
        }
    }
}

impl Replicate for [u8; 32] {
    fn replicate(&self) -> (copy: Self) {
        *self
    }
}

impl Replicate for usize {
    fn replicate(&self) -> (copy: Self) {
        *self
    }
}

impl Replicate for u8 {
    fn replicate(&self) -> (copy: Self) {
        *self
    }
}

impl Replicate for u16 {
    fn replicate(&self) -> (copy: Self) {
        *self
    }
}

impl Replicate for u32 {
    fn replicate(&self) -> (copy: Self) {
        *self
    }
}

impl Replicate for i32 {
    fn replicate(&self) -> (copy: Self) {
        *self
    }
}

impl Replicate for i64 {
    fn replicate(&self) -> (copy: Self) {
        *self
    }
}

impl Replicate for bool {
    fn replicate(&self) -> (copy: Self) {
        *self
    }
}

/// A channel: the guild it belongs to and its name there.
#[derive(Debug, PartialEq, Eq)]
pub struct ChannelKey {
    pub guild_id: String,
    pub channel_id: String,
}

impl DeepView for ChannelKey {
    type V = (Seq<char>, Seq<char>);

    open spec fn deep_view(&self) -> (Seq<char>, Seq<char>) {
        (self.guild_id@, self.channel_id@)
    }
}

impl View for ChannelKey {
    type V = (Seq<char>, Seq<char>);

    open spec fn view(&self) -> (Seq<char>, Seq<char>) {
        (self.guild_id@, self.channel_id@)
    }
}

impl ChannelKey {
    pub fn new(guild_id: &str, channel_id: &str) -> (key: Self)
        ensures
            key@ == (guild_id@, channel_id@),
    {
        ChannelKey { guild_id: guild_id.to_owned(), channel_id: channel_id.to_owned() }
    }
}

impl Replicate for ChannelKey {
    fn replicate(&self) -> (copy: Self) {
        ChannelKey { guild_id: self.guild_id.clone(), channel_id: self.channel_id.clone() }
    }
}

impl Clone for ChannelKey {
    fn clone(&self) -> (copy: Self)
        ensures
            copy@ == self@,
    {
        self.replicate()
    }
}

impl Key for ChannelKey {
    open spec fn before(a: (Seq<char>, Seq<char>), b: (Seq<char>, Seq<char>)) -> bool {
        text_before(a.0, b.0) || (a.0 == b.0 && text_before(a.1, b.1))
    }

    proof fn lemma_irreflexive(a: (Seq<char>, Seq<char>)) {
        lemma_text_before_irreflexive(a.0);
        lemma_text_before_irreflexive(a.1);
    }

    proof fn lemma_transitive(
        a: (Seq<char>, Seq<char>),
        b: (Seq<char>, Seq<char>),
        c: (Seq<char>, Seq<char>),
    ) {
        if text_before(a.0, b.0) && text_before(b.0, c.0) {
            lemma_text_before_transitive(a.0, b.0, c.0);
        }
        if text_before(a.1, b.1) && text_before(b.1, c.1) {
            lemma_text_before_transitive(a.1, b.1, c.1);
        }
    }

    proof fn lemma_total(a: (Seq<char>, Seq<char>), b: (Seq<char>, Seq<char>)) {
        if a.0 != b.0 {
            lemma_text_before_total(a.0, b.0);
        } else {
            lemma_text_before_total(a.1, b.1);
        }
    }

    fn relate(&self, other: &Self) -> (relation: Relation) {
        proof {
            Self::lemma_irreflexive(self.deep_view());
            lemma_text_before_irreflexive(self.guild_id@);
            lemma_text_before_irreflexive(self.channel_id@);
        }
        match self.guild_id.relate(&other.guild_id) {
            Relation::Before => Relation::Before,
            Relation::After => Relation::After,
            Relation::Same => self.channel_id.relate(&other.channel_id),
        }
    }
}

impl Replicate for (String, String) {
    fn replicate(&self) -> (copy: Self) {
        (self.0.clone(), self.1.clone())
    }
}

impl Key for (String, String) {
    open spec fn before(a: (Seq<char>, Seq<char>), b: (Seq<char>, Seq<char>)) -> bool {
        ChannelKey::before(a, b)
    }

    proof fn lemma_irreflexive(a: (Seq<char>, Seq<char>)) {
        ChannelKey::lemma_irreflexive(a);
    }

    proof fn lemma_transitive(
        a: (Seq<char>, Seq<char>),
        b: (Seq<char>, Seq<char>),
        c: (Seq<char>, Seq<char>),
    ) {
        ChannelKey::lemma_transitive(a, b, c);
    }

    proof fn lemma_total(a: (Seq<char>, Seq<char>), b: (Seq<char>, Seq<char>)) {
        ChannelKey::lemma_total(a, b);
    }

    fn relate(&self, other: &Self) -> (relation: Relation) {
        ChannelKey::new(self.0.as_str(), self.1.as_str()).relate(
            &ChannelKey::new(other.0.as_str(), other.1.as_str()),
        )
    }
}

} // verus!
