//! Listings: the complaints of a registry, each with its identifier, in
//! the order of the identifiers.
//!
//! A registry is a finite map from identifiers to records. A listing is the
//! one sequence that holds every entry of that map once, in increasing
//! order of the identifiers.

use vstd::prelude::*;
use crate::key_order::{
    key_before, lemma_key_before_asymmetric, lemma_key_before_connected,
    lemma_key_before_irreflexive,
};
use crate::record::ComplaintRecord;

verus! {

/// Whether the identifiers of `l` strictly increase from each entry to the
/// next.
pub open spec fn listing_sorted(l: Seq<(Seq<char>, ComplaintRecord)>) -> bool {
    forall|i: int, j: int| 0 <= i < j < l.len() ==> key_before((#[trigger] l[i]).0, (#[trigger] l[j]).0)
}

/// Whether `l` is the listing of `m`: sorted, every entry taken from `m`,
/// and no identifier of `m` left out.
pub open spec fn is_listing(
    l: Seq<(Seq<char>, ComplaintRecord)>,
    m: Map<Seq<char>, ComplaintRecord>,
) -> bool {
    &&& listing_sorted(l)
    &&& forall|i: int| 0 <= i < l.len() ==> m.contains_key((#[trigger] l[i]).0) && m[l[i].0] == l[i].1
    &&& forall|k: Seq<char>| #[trigger] m.contains_key(k) ==> listing_has(l, k)
}

/// Whether some entry of `l` carries the identifier `k`.
pub open spec fn listing_has(l: Seq<(Seq<char>, ComplaintRecord)>, k: Seq<char>) -> bool {
    exists|i: int| 0 <= i < l.len() && (#[trigger] l[i]).0 == k
}

/// The position of an entry of `l` that carries the identifier `k`.
pub open spec fn listing_position(l: Seq<(Seq<char>, ComplaintRecord)>, k: Seq<char>) -> int {
    choose|i: int| 0 <= i < l.len() && (#[trigger] l[i]).0 == k
}

/// The map that a sequence of entries stands for.
pub open spec fn listing_map(l: Seq<(Seq<char>, ComplaintRecord)>) -> Map<Seq<char>, ComplaintRecord> {
    Map::new(|k: Seq<char>| listing_has(l, k), |k: Seq<char>| l[listing_position(l, k)].1)
}

/// In a sorted sequence no identifier occurs twice.
pub proof fn lemma_sorted_distinct(l: Seq<(Seq<char>, ComplaintRecord)>)
    requires
        listing_sorted(l),
    ensures
        forall|i: int, j: int|
            0 <= i < l.len() && 0 <= j < l.len() && (#[trigger] l[i]).0 == (#[trigger] l[j]).0 ==> i == j,
{
    assert forall|i: int, j: int|
        0 <= i < l.len() && 0 <= j < l.len() && (#[trigger] l[i]).0 == (#[trigger] l[j]).0 implies i == j by {
        lemma_key_before_irreflexive(l[i].0);
    }
}

/// A sorted sequence is the listing of the map it stands for.
pub proof fn lemma_sorted_is_listing(l: Seq<(Seq<char>, ComplaintRecord)>)
    requires
        listing_sorted(l),
    ensures
        is_listing(l, listing_map(l)),
{
    lemma_sorted_distinct(l);
    let m = listing_map(l);
    assert forall|i: int| 0 <= i < l.len() implies m.contains_key((#[trigger] l[i]).0) && m[l[i].0]
        == l[i].1 by {
        assert(listing_has(l, l[i].0));
    }
}

/// Putting a new entry where the order wants it adds it to the map.
pub proof fn lemma_listing_insert(
    l: Seq<(Seq<char>, ComplaintRecord)>,
    at: int,
    k: Seq<char>,
    v: ComplaintRecord,
)
    requires
        listing_sorted(l),
        0 <= at <= l.len(),
        forall|j: int| 0 <= j < at ==> key_before((#[trigger] l[j]).0, k),
        forall|j: int| at <= j < l.len() ==> key_before(k, (#[trigger] l[j]).0),
    ensures
        !listing_map(l).contains_key(k),
        listing_sorted(l.insert(at, (k, v))),
        listing_map(l.insert(at, (k, v))) == listing_map(l).insert(k, v),
{
    let l2 = l.insert(at, (k, v));
    lemma_key_before_irreflexive(k);
    assert forall|i: int, j: int| 0 <= i < j < l2.len() implies key_before(
        (#[trigger] l2[i]).0,
        (#[trigger] l2[j]).0,
    ) by {
        let a = if i < at { l[i] } else if i == at { (k, v) } else { l[i - 1] };
        let b = if j < at { l[j] } else if j == at { (k, v) } else { l[j - 1] };
        assert(l2[i] == a && l2[j] == b);
    }
    lemma_sorted_is_listing(l);
    lemma_sorted_is_listing(l2);
    let m = listing_map(l);
    let m2 = listing_map(l2);
    assert(l2[at] == (k, v));
    assert forall|x: Seq<char>| m2.contains_key(x) <==> m.insert(k, v).contains_key(x) by {
        if m2.contains_key(x) && x != k {
            let i = listing_position(l2, x);
            let j = if i < at { i } else { i - 1 };
            assert(l[j] == l2[i]);
            assert(listing_has(l, x));
        }
        if m.contains_key(x) {
            let j = listing_position(l, x);
            let i = if j < at { j } else { j + 1 };
            assert(l2[i] == l[j]);
            assert(listing_has(l2, x));
        }
        if x == k {
            assert(listing_has(l2, x));
        }
    }
    assert forall|x: Seq<char>| m2.contains_key(x) implies m2[x] == m.insert(k, v)[x] by {
        if x != k {
            let j = listing_position(l, x);
            let i = if j < at { j } else { j + 1 };
            assert(l2[i] == l[j]);
        }
    }
    assert(m2 =~= m.insert(k, v));
}

/// Replacing the record of an entry replaces it in the map.
pub proof fn lemma_listing_update(l: Seq<(Seq<char>, ComplaintRecord)>, at: int, v: ComplaintRecord)
    requires
        listing_sorted(l),
        0 <= at < l.len(),
    ensures
        listing_map(l).contains_key(l[at].0),
        listing_map(l)[l[at].0] == l[at].1,
        listing_sorted(l.update(at, (l[at].0, v))),
        listing_map(l.update(at, (l[at].0, v))) == listing_map(l).insert(l[at].0, v),
{
    let k = l[at].0;
    let l2 = l.update(at, (k, v));
    assert forall|i: int, j: int| 0 <= i < j < l2.len() implies key_before(
        (#[trigger] l2[i]).0,
        (#[trigger] l2[j]).0,
    ) by {
        assert(l2[i].0 == l[i].0 && l2[j].0 == l[j].0);
    }
    lemma_sorted_is_listing(l);
    lemma_sorted_is_listing(l2);
    let m = listing_map(l);
    let m2 = listing_map(l2);
    assert forall|x: Seq<char>| m2.contains_key(x) <==> m.insert(k, v).contains_key(x) by {
        if m2.contains_key(x) {
            let i = listing_position(l2, x);
            assert(l[i].0 == x);
            assert(listing_has(l, x));
        }
        if m.contains_key(x) {
            let i = listing_position(l, x);
            assert(l2[i].0 == x);
            assert(listing_has(l2, x));
        }
    }
    assert forall|x: Seq<char>| m2.contains_key(x) implies m2[x] == m.insert(k, v)[x] by {
        let i = listing_position(l, x);
        assert(l2[i].0 == x);
        assert(l2[at] == (k, v));
    }
    assert(m2 =~= m.insert(k, v));
}

/// A sorted sequence holds an identifier exactly when its map does.
pub proof fn lemma_listing_lookup(l: Seq<(Seq<char>, ComplaintRecord)>, k: Seq<char>)
    requires
        listing_sorted(l),
    ensures
        listing_map(l).contains_key(k) <==> listing_has(l, k),
        forall|i: int| 0 <= i < l.len() && (#[trigger] l[i]).0 == k ==> listing_map(l)[k] == l[i].1,
{
    lemma_sorted_is_listing(l);
}

/// The map that is built by entering the entries of `l` one after another,
/// a later entry replacing an earlier one with the same identifier.
pub open spec fn collected(l: Seq<(Seq<char>, ComplaintRecord)>) -> Map<Seq<char>, ComplaintRecord>
    decreases l.len(),
{
    if l.len() == 0 {
        Map::empty()
    } else {
        collected(l.drop_last()).insert(l.last().0, l.last().1)
    }
}

/// A map is the one that its listing stands for.
pub proof fn lemma_listing_determines_map(
    l: Seq<(Seq<char>, ComplaintRecord)>,
    m: Map<Seq<char>, ComplaintRecord>,
)
    requires
        is_listing(l, m),
    ensures
        m == listing_map(l),
{
    lemma_sorted_is_listing(l);
    let m2 = listing_map(l);
    assert forall|k: Seq<char>| m.contains_key(k) <==> m2.contains_key(k) by {
        if m2.contains_key(k) {
            let i = listing_position(l, k);
            assert(m.contains_key(l[i].0));
        }
    }
    assert forall|k: Seq<char>| m.contains_key(k) implies m[k] == m2[k] by {
        let i = listing_position(l, k);
        assert(m[l[i].0] == l[i].1);
        assert(m2[l[i].0] == l[i].1);
    }
    assert(m =~= m2);
}

/// Entering the entries of a sorted sequence one after another builds the
/// map that the sequence stands for.
pub proof fn lemma_collected_sorted(l: Seq<(Seq<char>, ComplaintRecord)>)
    requires
        listing_sorted(l),
    ensures
        collected(l) == listing_map(l),
    decreases l.len(),
{
    if l.len() == 0 {
        assert(listing_map(l) =~= Map::<Seq<char>, ComplaintRecord>::empty());
    } else {
        let front = l.drop_last();
        let at = front.len() as int;
        assert forall|i: int, j: int| 0 <= i < j < front.len() implies key_before(
            (#[trigger] front[i]).0,
            (#[trigger] front[j]).0,
        ) by {
            assert(front[i] == l[i] && front[j] == l[j]);
        }
        lemma_collected_sorted(front);
        assert forall|j: int| 0 <= j < at implies key_before((#[trigger] front[j]).0, l.last().0) by {
            assert(front[j] == l[j]);
            assert(key_before(l[j].0, l[at].0));
        }
        lemma_listing_insert(front, at, l.last().0, l.last().1);
        assert(front.insert(at, (l.last().0, l.last().1)) =~= l);
    }
}

/// If the entry of `l1` at `at` came before the one of `l2` there, `l2`
/// would have to hold it, and has no place left for it.
proof fn lemma_entry_not_before(
    l1: Seq<(Seq<char>, ComplaintRecord)>,
    l2: Seq<(Seq<char>, ComplaintRecord)>,
    m: Map<Seq<char>, ComplaintRecord>,
    at: int,
)
    requires
        is_listing(l1, m),
        is_listing(l2, m),
        0 <= at < l1.len(),
        at < l2.len(),
        forall|i: int| 0 <= i < at ==> l1[i] == l2[i],
    ensures
        !key_before(l1[at].0, l2[at].0),
{
    let a = l1[at].0;
    let b = l2[at].0;
    if key_before(a, b) {
        assert(m.contains_key(a));
        assert(listing_has(l2, a));
        let j = listing_position(l2, a);
        lemma_key_before_irreflexive(a);
        lemma_key_before_asymmetric(a, b);
        if j < at {
            assert(l1[j] == l2[j]);
            assert(key_before(l1[j].0, l1[at].0));
        } else if j > at {
            assert(key_before(l2[at].0, l2[j].0));
        }
    }
}

proof fn lemma_listing_prefix(
    l1: Seq<(Seq<char>, ComplaintRecord)>,
    l2: Seq<(Seq<char>, ComplaintRecord)>,
    m: Map<Seq<char>, ComplaintRecord>,
    n: int,
)
    requires
        is_listing(l1, m),
        is_listing(l2, m),
        0 <= n <= l1.len(),
        n <= l2.len(),
    ensures
        forall|i: int| 0 <= i < n ==> l1[i] == l2[i],
    decreases n,
{
    if n > 0 {
        lemma_listing_prefix(l1, l2, m, n - 1);
        let at = n - 1;
        lemma_entry_not_before(l1, l2, m, at);
        lemma_entry_not_before(l2, l1, m, at);
        lemma_key_before_connected(l1[at].0, l2[at].0);
        assert(m[l1[at].0] == l1[at].1);
        assert(m[l2[at].0] == l2[at].1);
    }
}

/// If `l1` ends where `l2` goes on, the next entry of `l2` would have to
/// stand in `l1` already.
proof fn lemma_listing_not_longer(
    l1: Seq<(Seq<char>, ComplaintRecord)>,
    l2: Seq<(Seq<char>, ComplaintRecord)>,
    m: Map<Seq<char>, ComplaintRecord>,
)
    requires
        is_listing(l1, m),
        is_listing(l2, m),
    ensures
        l2.len() <= l1.len(),
{
    if l1.len() < l2.len() {
        let n = l1.len() as int;
        lemma_listing_prefix(l1, l2, m, n);
        let b = l2[n].0;
        assert(m.contains_key(b));
        assert(listing_has(l1, b));
        let j = listing_position(l1, b);
        assert(l1[j] == l2[j]);
        assert(key_before(l2[j].0, l2[n].0));
        lemma_key_before_irreflexive(b);
    }
}

/// A map has one listing only.
pub proof fn lemma_listing_unique(
    l1: Seq<(Seq<char>, ComplaintRecord)>,
    l2: Seq<(Seq<char>, ComplaintRecord)>,
    m: Map<Seq<char>, ComplaintRecord>,
)
    requires
        is_listing(l1, m),
        is_listing(l2, m),
    ensures
        l1 == l2,
{
    lemma_listing_not_longer(l1, l2, m);
    lemma_listing_not_longer(l2, l1, m);
    lemma_listing_prefix(l1, l2, m, l1.len() as int);
    assert(l1 =~= l2);
}

} // verus!
