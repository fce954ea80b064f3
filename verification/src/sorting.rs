//! Sequences kept in the order of what they hold, equals in the order of their
//! arrival.
use vstd::prelude::*;

verus! {

/// A value with a place before or after others, or level with them.
pub trait Ranked: DeepView + Sized {
    /// Whether `a` goes before `b`.
    spec fn ahead(a: Self::V, b: Self::V) -> bool;

    proof fn lemma_asymmetric(a: Self::V, b: Self::V)
        requires
            Self::ahead(a, b),
        ensures
            !Self::ahead(b, a),
    ;

    proof fn lemma_not_ahead_transitive(a: Self::V, b: Self::V, c: Self::V)
        requires
            !Self::ahead(b, a),
            !Self::ahead(c, b),
        ensures
            !Self::ahead(c, a),
    ;

    fn is_ahead(&self, other: &Self) -> (before: bool)
        ensures
            before == Self::ahead(self.deep_view(), other.deep_view()),
    ;
}

/// `item` put into an ordered list, behind everything that does not go after it.
pub open spec fn placed<T: Ranked>(list: Seq<T::V>, item: T::V) -> Seq<T::V>
    decreases list.len(),
{
    if list.len() == 0 || !T::ahead(item, list.last()) {
        list.push(item)
    } else {
        placed::<T>(list.drop_last(), item).push(list.last())
    }
}

/// The items in their order.
pub open spec fn sorted<T: Ranked>(items: Seq<T::V>) -> Seq<T::V>
    decreases items.len(),
{
    if items.len() == 0 {
        items
    } else {
        placed::<T>(sorted::<T>(items.drop_last()), items.last())
    }
}

/// A list in which nothing stands behind something that goes after it.
pub open spec fn in_order<T: Ranked>(list: Seq<T::V>) -> bool {
    forall|i: int, j: int| 0 <= i < j < list.len() ==> !#[trigger] T::ahead(list[j], list[i])
}

/// Items of which no two are level with each other.
pub open spec fn all_apart<T: Ranked>(items: Seq<T::V>) -> bool {
    forall|i: int, j: int|
        0 <= i < j < items.len() ==> #[trigger] T::ahead(items[i], items[j]) || T::ahead(
            items[j],
            items[i],
        )
}

/// Whether two items are level with each other.
pub open spec fn level<T: Ranked>(a: T::V, b: T::V) -> bool {
    !T::ahead(a, b) && !T::ahead(b, a)
}

proof fn lemma_irreflexive<T: Ranked>(a: T::V)
    ensures
        !T::ahead(a, a),
{
    if T::ahead(a, a) {
        T::lemma_asymmetric(a, a);
    }
}

proof fn lemma_placed_is_ordered<T: Ranked>(list: Seq<T::V>, item: T::V)
    requires
        in_order::<T>(list),
    ensures
        in_order::<T>(placed::<T>(list, item)),
        placed::<T>(list, item).to_multiset() == list.to_multiset().insert(item),
        placed::<T>(list, item).len() == list.len() + 1,
    decreases list.len(),
{
    broadcast use vstd::seq_lib::group_to_multiset_ensures;

    let after = placed::<T>(list, item);
    if list.len() == 0 || !T::ahead(item, list.last()) {
        assert(after == list.push(item));
        assert forall|i: int, j: int| 0 <= i < j < after.len() implies !#[trigger] T::ahead(
            after[j],
            after[i],
        ) by {
            if j == list.len() && i < list.len() - 1 {
                assert(!T::ahead(list[list.len() - 1], list[i]));
                T::lemma_not_ahead_transitive(list[i], list.last(), item);
            }
        }
    } else {
        let rest = list.drop_last();
        assert forall|i: int, j: int| 0 <= i < j < rest.len() implies !#[trigger] T::ahead(
            rest[j],
            rest[i],
        ) by {
            assert(!T::ahead(list[j], list[i]));
        }
        lemma_placed_is_ordered::<T>(rest, item);
        let inner = placed::<T>(rest, item);
        assert(list =~= rest.push(list.last()));
        assert(after == inner.push(list.last()));
        assert forall|i: int, j: int| 0 <= i < j < after.len() implies !#[trigger] T::ahead(
            after[j],
            after[i],
        ) by {
            if j == inner.len() {
                let x = inner[i];
                assert(inner.contains(x));
                assert(inner.to_multiset().contains(x));
                if x != item {
                    assert(rest.to_multiset().contains(x));
                    assert(rest.contains(x));
                    let k = choose|k: int| 0 <= k < rest.len() && rest[k] == x;
                    assert(!T::ahead(list[list.len() - 1], list[k]));
                } else {
                    T::lemma_asymmetric(item, list.last());
                }
            } else {
                assert(!T::ahead(inner[j], inner[i]));
            }
        }
        assert(rest.push(list.last()).to_multiset() =~= rest.to_multiset().insert(list.last()));
        assert(inner.push(list.last()).to_multiset() =~= list.to_multiset().insert(item));
    }
}

/// Sorting loses nothing and adds nothing, and nothing stands behind something
/// that goes after it.
pub proof fn sorted_is_ordered<T: Ranked>(items: Seq<T::V>)
    ensures
        in_order::<T>(sorted::<T>(items)),
        sorted::<T>(items).to_multiset() == items.to_multiset(),
        sorted::<T>(items).len() == items.len(),
    decreases items.len(),
{
    broadcast use vstd::seq_lib::group_to_multiset_ensures;

    if items.len() > 0 {
        let rest = items.drop_last();
        sorted_is_ordered::<T>(rest);
        lemma_placed_is_ordered::<T>(sorted::<T>(rest), items.last());
        assert(items =~= rest.push(items.last()));
    }
}

/// The items that are level with `mark`.
pub open spec fn level_with<T: Ranked>(mark: T::V) -> spec_fn(T::V) -> bool {
    |item: T::V| level::<T>(item, mark)
}

proof fn lemma_level_not_ahead<T: Ranked>(a: T::V, b: T::V, mark: T::V)
    requires
        level::<T>(a, mark),
        level::<T>(b, mark),
    ensures
        !T::ahead(a, b),
{
    T::lemma_not_ahead_transitive(b, mark, a);
}

proof fn lemma_placed_keeps_level<T: Ranked>(list: Seq<T::V>, item: T::V, mark: T::V)
    ensures
        placed::<T>(list, item).filter(level_with::<T>(mark)) == list.push(item).filter(
            level_with::<T>(mark),
        ),
    decreases list.len(),
{
    broadcast use Seq::lemma_filter_push;

    let same = level_with::<T>(mark);
    if list.len() > 0 && T::ahead(item, list.last()) {
        let rest = list.drop_last();
        let last = list.last();
        lemma_placed_keeps_level::<T>(rest, item, mark);
        if same(item) && same(last) {
            lemma_level_not_ahead::<T>(item, last, mark);
        }
        assert(list =~= rest.push(last));
        assert(placed::<T>(list, item) == placed::<T>(rest, item).push(last));
        assert(placed::<T>(rest, item).push(last).filter(same) == if same(last) {
            placed::<T>(rest, item).filter(same).push(last)
        } else {
            placed::<T>(rest, item).filter(same)
        });
        assert(rest.push(item).filter(same) == if same(item) {
            rest.filter(same).push(item)
        } else {
            rest.filter(same)
        });
        assert(rest.push(last).filter(same) == if same(last) {
            rest.filter(same).push(last)
        } else {
            rest.filter(same)
        });
        assert(list.push(item).filter(same) == if same(item) {
            list.filter(same).push(item)
        } else {
            list.filter(same)
        });
    }
}

/// Items that are level with each other keep the order in which they arrived.
pub proof fn sorted_keeps_arrival<T: Ranked>(items: Seq<T::V>, mark: T::V)
    ensures
        sorted::<T>(items).filter(level_with::<T>(mark)) == items.filter(level_with::<T>(mark)),
    decreases items.len(),
{
    broadcast use Seq::lemma_filter_push;

    if items.len() > 0 {
        let rest = items.drop_last();
        sorted_keeps_arrival::<T>(rest, mark);
        lemma_placed_keeps_level::<T>(sorted::<T>(rest), items.last(), mark);
        assert(items =~= rest.push(items.last()));
    }
}

proof fn lemma_level_is_same<T: Ranked>(items: Seq<T::V>, a: T::V, b: T::V)
    requires
        all_apart::<T>(items),
        items.contains(a),
        items.contains(b),
        level::<T>(a, b),
    ensures
        a == b,
{
    let i = choose|i: int| 0 <= i < items.len() && items[i] == a;
    let j = choose|j: int| 0 <= j < items.len() && items[j] == b;
    if i < j {
        assert(T::ahead(items[i], items[j]) || T::ahead(items[j], items[i]));
    } else if j < i {
        assert(T::ahead(items[j], items[i]) || T::ahead(items[i], items[j]));
    }
}

proof fn lemma_ordered_unique<T: Ranked>(a: Seq<T::V>, b: Seq<T::V>)
    requires
        in_order::<T>(a),
        in_order::<T>(b),
        all_apart::<T>(a),
        a.to_multiset() == b.to_multiset(),
    ensures
        a == b,
    decreases a.len(),
{
    broadcast use vstd::seq_lib::group_to_multiset_ensures;

    assert(a.len() == b.len()) by {
        assert(a.to_multiset().len() == a.len());
        assert(b.to_multiset().len() == b.len());
    }
    if a.len() > 0 {
        let x = a.last();
        let y = b.last();
        assert(a.contains(x));
        assert(b.contains(y));
        assert(b.to_multiset().contains(x));
        assert(b.contains(x));
        assert(a.to_multiset().contains(y));
        assert(a.contains(y));
        let i = choose|i: int| 0 <= i < a.len() && a[i] == y;
        let j = choose|j: int| 0 <= j < b.len() && b[j] == x;
        lemma_irreflexive::<T>(x);
        lemma_irreflexive::<T>(y);
        if i < a.len() - 1 {
            assert(!T::ahead(a[a.len() - 1], a[i]));
        }
        if j < b.len() - 1 {
            assert(!T::ahead(b[b.len() - 1], b[j]));
        }
        lemma_level_is_same::<T>(a, x, y);
        let p = a.drop_last();
        let q = b.drop_last();
        assert(a =~= p.push(x));
        assert(b =~= q.push(x));
        assert(p.to_multiset() =~= a.to_multiset().remove(x));
        assert(q.to_multiset() =~= b.to_multiset().remove(x));
        assert forall|i: int, j: int| 0 <= i < j < p.len() implies !#[trigger] T::ahead(
            p[j],
            p[i],
        ) by {
            assert(!T::ahead(a[j], a[i]));
        }
        assert forall|i: int, j: int| 0 <= i < j < q.len() implies !#[trigger] T::ahead(
            q[j],
            q[i],
        ) by {
            assert(!T::ahead(b[j], b[i]));
        }
        assert forall|i: int, j: int| 0 <= i < j < p.len() implies #[trigger] T::ahead(p[i], p[j])
            || T::ahead(p[j], p[i]) by {
            assert(T::ahead(a[i], a[j]) || T::ahead(a[j], a[i]));
        }
        lemma_ordered_unique::<T>(p, q);
    } else {
        assert(a =~= b);
    }
}

proof fn lemma_twice_counts<A>(s: Seq<A>, i: int, j: int)
    requires
        0 <= i < j < s.len(),
        s[i] == s[j],
    ensures
        s.to_multiset().count(s[i]) >= 2,
{
    broadcast use vstd::seq_lib::group_to_multiset_ensures;

    let rest = s.remove(j);
    assert(rest[i] == s[i]);
    assert(rest.contains(s[i]));
    assert(rest.to_multiset().contains(s[i]));
    assert(rest.to_multiset() == s.to_multiset().remove(s[j]));
}

proof fn lemma_once_counts<T: Ranked>(s: Seq<T::V>, x: T::V)
    requires
        all_apart::<T>(s),
    ensures
        s.to_multiset().count(x) <= 1,
    decreases s.len(),
{
    broadcast use vstd::seq_lib::group_to_multiset_ensures;

    if s.len() > 0 {
        let rest = s.drop_last();
        assert forall|i: int, j: int| 0 <= i < j < rest.len() implies #[trigger] T::ahead(
            rest[i],
            rest[j],
        ) || T::ahead(rest[j], rest[i]) by {
            assert(T::ahead(s[i], s[j]) || T::ahead(s[j], s[i]));
        }
        lemma_once_counts::<T>(rest, x);
        assert(s =~= rest.push(s.last()));
        if s.last() == x && rest.to_multiset().count(x) > 0 {
            assert(rest.contains(x));
            let i = choose|i: int| 0 <= i < rest.len() && rest[i] == x;
            assert(T::ahead(s[i], s[s.len() - 1]) || T::ahead(s[s.len() - 1], s[i]));
            lemma_irreflexive::<T>(x);
        }
    }
}

proof fn lemma_apart_whatever_order<T: Ranked>(a: Seq<T::V>, b: Seq<T::V>)
    requires
        all_apart::<T>(a),
        a.to_multiset() == b.to_multiset(),
    ensures
        all_apart::<T>(b),
{
    broadcast use vstd::seq_lib::group_to_multiset_ensures;

    assert forall|i: int, j: int| 0 <= i < j < b.len() implies #[trigger] T::ahead(b[i], b[j])
        || T::ahead(b[j], b[i]) by {
        let x = b[i];
        let y = b[j];
        if level::<T>(x, y) {
            assert(b.contains(x) && b.contains(y));
            assert(a.to_multiset().contains(x) && a.to_multiset().contains(y));
            assert(a.contains(x) && a.contains(y));
            lemma_level_is_same::<T>(a, x, y);
            lemma_twice_counts(b, i, j);
            lemma_once_counts::<T>(a, x);
        }
    }
}

/// The order does not depend on the order of arrival, as long as no two items
/// are level with each other.
pub proof fn sorted_ignores_arrival<T: Ranked>(items: Seq<T::V>, others: Seq<T::V>)
    requires
        all_apart::<T>(items),
        items.to_multiset() == others.to_multiset(),
    ensures
        sorted::<T>(items) == sorted::<T>(others),
{
    sorted_is_ordered::<T>(items);
    sorted_is_ordered::<T>(others);
    lemma_apart_whatever_order::<T>(items, sorted::<T>(items));
    lemma_ordered_unique::<T>(sorted::<T>(items), sorted::<T>(others));
}

/// Puts an item into an ordered list.
pub fn put_in_order<T: Ranked>(list: &mut Vec<T>, item: T)
    ensures
        final(list).deep_view() == placed::<T>(old(list).deep_view(), item.deep_view()),
{
    let ghost before = list.deep_view();
    let ghost added = item.deep_view();
    let mut place: usize = list.len();
    proof {
        assert(before.take(place as int) =~= before);
        assert(before.skip(place as int) =~= Seq::<T::V>::empty());
        assert(placed::<T>(before, added) =~= placed::<T>(before, added) + before.skip(
            place as int,
        ));
    }
    while place > 0 && item.is_ahead(&list[place - 1])
        invariant
            place <= list.len(),
            before == list.deep_view(),
            added == item.deep_view(),
            placed::<T>(before, added) == placed::<T>(before.take(place as int), added)
                + before.skip(place as int),
        decreases place,
    {
        proof {
            let head = before.take(place as int);
            assert(head.last() == before[place - 1]);
            assert(head.drop_last() =~= before.take(place - 1));
            assert(placed::<T>(head, added) == placed::<T>(head.drop_last(), added).push(
                head.last(),
            ));
            assert(placed::<T>(head, added) + before.skip(place as int) =~= placed::<T>(
                before.take(place - 1),
                added,
            ) + before.skip(place - 1));
        }
        place -= 1;
    }
    list.insert(place, item);
    proof {
        let head = before.take(place as int);
        if place > 0 {
            assert(head.last() == before[place - 1]);
        }
        assert(placed::<T>(head, added) == head.push(added));
        assert(list.deep_view() =~= head.push(added) + before.skip(place as int));
    }
}

} // verus!
