//! Stable ranking: the best `limit` items of a sequence, best first, ties
//! in the order in which they came.

use vstd::prelude::*;

verus! {

/// `sorted` with `x` put behind the last item whose key is at least that
/// of `x`.
pub open spec fn inserted<A>(sorted: Seq<A>, x: A, key: spec_fn(A) -> int) -> Seq<A>
    decreases sorted.len(),
{
    if sorted.len() == 0 {
        seq![x]
    } else if key(sorted.last()) >= key(x) {
        sorted.push(x)
    } else {
        inserted(sorted.drop_last(), x, key).push(sorted.last())
    }
}

/// The items in descending order of their keys; items of equal key keep
/// their order.
pub open spec fn stable_sorted<A>(s: Seq<A>, key: spec_fn(A) -> int) -> Seq<A>
    decreases s.len(),
{
    if s.len() == 0 {
        Seq::empty()
    } else {
        inserted(stable_sorted(s.drop_last(), key), s.last(), key)
    }
}

/// The first `limit` items of the stable descending order.
pub open spec fn ranked<A>(s: Seq<A>, key: spec_fn(A) -> int, limit: nat) -> Seq<A> {
    let all = stable_sorted(s, key);
    if limit < all.len() {
        all.take(limit as int)
    } else {
        all
    }
}

/// No item is followed by one of a greater key.
pub open spec fn descending<A>(s: Seq<A>, key: spec_fn(A) -> int) -> bool {
    forall|i: int, j: int| 0 <= i < j < s.len() ==> key(#[trigger] s[i]) >= key(#[trigger] s[j])
}

/// Inserting at position `p` is what [`inserted`] does when all items from
/// `p` on have a smaller key than `x` and the item before `p`, if any, has
/// not.
pub proof fn lemma_inserted_at<A>(sorted: Seq<A>, x: A, key: spec_fn(A) -> int, p: int)
    requires
        0 <= p <= sorted.len(),
        forall|j: int| p <= j < sorted.len() ==> key(#[trigger] sorted[j]) < key(x),
        p > 0 ==> key(sorted[p - 1]) >= key(x),
    ensures
        inserted(sorted, x, key) == sorted.insert(p, x),
    decreases sorted.len(),
{
    if sorted.len() == 0 {
        assert(sorted.insert(p, x) =~= seq![x]);
    } else if p == sorted.len() {
        assert(sorted.insert(p, x) =~= sorted.push(x));
    } else {
        let init = sorted.drop_last();
        assert(key(sorted[sorted.len() - 1]) < key(x));
        assert forall|j: int| p <= j < init.len() implies key(#[trigger] init[j]) < key(x) by {
            assert(init[j] == sorted[j]);
        }
        if p > 0 {
            assert(init[p - 1] == sorted[p - 1]);
        }
        lemma_inserted_at(init, x, key, p);
        assert(init.insert(p, x).push(sorted.last()) =~= sorted.insert(p, x));
    }
}

/// [`inserted`] adds one item and leaves the items up to any item whose
/// key is at least that of `x` where they are.
pub proof fn lemma_inserted_prefix<A>(sorted: Seq<A>, x: A, key: spec_fn(A) -> int, j: int)
    requires
        0 <= j < sorted.len(),
        key(sorted[j]) >= key(x),
    ensures
        inserted(sorted, x, key).len() == sorted.len() + 1,
        inserted(sorted, x, key).take(j + 1) == sorted.take(j + 1),
    decreases sorted.len(),
{
    lemma_inserted_len(sorted, x, key);
    if key(sorted.last()) >= key(x) {
        assert(sorted.push(x).take(j + 1) =~= sorted.take(j + 1));
    } else {
        let init = sorted.drop_last();
        assert(j < init.len());
        assert(init[j] == sorted[j]);
        lemma_inserted_prefix(init, x, key, j);
        let ins = inserted(init, x, key);
        assert(ins.push(sorted.last()).take(j + 1) =~= ins.take(j + 1));
        assert(init.take(j + 1) =~= sorted.take(j + 1));
    }
}

pub proof fn lemma_inserted_len<A>(sorted: Seq<A>, x: A, key: spec_fn(A) -> int)
    ensures
        inserted(sorted, x, key).len() == sorted.len() + 1,
    decreases sorted.len(),
{
    if sorted.len() > 0 && key(sorted.last()) < key(x) {
        lemma_inserted_len(sorted.drop_last(), x, key);
    }
}

/// Every item of `inserted(sorted, x)` is `x` or an item of `sorted`, and
/// every one of those is in it.
pub proof fn lemma_inserted_items<A>(sorted: Seq<A>, x: A, key: spec_fn(A) -> int)
    ensures
        forall|a: A| #[trigger]
            inserted(sorted, x, key).contains(a) <==> (a == x || sorted.contains(a)),
    decreases sorted.len(),
{
    let out = inserted(sorted, x, key);
    if sorted.len() == 0 {
        assert(out[0] == x);
        assert forall|a: A| #[trigger] out.contains(a) <==> (a == x || sorted.contains(a)) by {}
    } else if key(sorted.last()) >= key(x) {
        assert forall|a: A| #[trigger] out.contains(a) <==> (a == x || sorted.contains(a)) by {
            if a == x {
                assert(out[sorted.len() as int] == x);
            }
            if sorted.contains(a) {
                let i = choose|i: int| 0 <= i < sorted.len() && sorted[i] == a;
                assert(out[i] == a);
            }
        }
    } else {
        let init = sorted.drop_last();
        let ins = inserted(init, x, key);
        lemma_inserted_items(init, x, key);
        lemma_inserted_len(init, x, key);
        assert forall|a: A| #[trigger] out.contains(a) <==> (a == x || sorted.contains(a)) by {
            if out.contains(a) {
                let i = choose|i: int| 0 <= i < out.len() && out[i] == a;
                if i < ins.len() {
                    assert(ins.contains(a));
                    if init.contains(a) {
                        let k = choose|k: int| 0 <= k < init.len() && init[k] == a;
                        assert(sorted[k] == a);
                    }
                } else {
                    assert(a == sorted[sorted.len() - 1]);
                }
            }
            if a == x {
                assert(ins.contains(x));
                let i = choose|i: int| 0 <= i < ins.len() && ins[i] == x;
                assert(out[i] == x);
            }
            if sorted.contains(a) {
                let k = choose|k: int| 0 <= k < sorted.len() && sorted[k] == a;
                if k < init.len() {
                    assert(init[k] == a);
                    assert(init.contains(a));
                    assert(ins.contains(a));
                    let i = choose|i: int| 0 <= i < ins.len() && ins[i] == a;
                    assert(out[i] == a);
                } else {
                    assert(out[ins.len() as int] == a);
                }
            }
        }
    }
}

/// [`inserted`] keeps a descending sequence descending.
pub proof fn lemma_inserted_descending<A>(sorted: Seq<A>, x: A, key: spec_fn(A) -> int)
    requires
        descending(sorted, key),
    ensures
        descending(inserted(sorted, x, key), key),
    decreases sorted.len(),
{
    let out = inserted(sorted, x, key);
    if sorted.len() == 0 {
    } else if key(sorted.last()) >= key(x) {
        assert forall|i: int, j: int| 0 <= i < j < out.len() implies key(#[trigger] out[i]) >= key(
            #[trigger] out[j],
        ) by {
            if j == sorted.len() {
                assert(out[i] == sorted[i]);
                if i < sorted.len() - 1 {
                    assert(key(sorted[i]) >= key(sorted[sorted.len() - 1]));
                }
            } else {
                assert(out[i] == sorted[i] && out[j] == sorted[j]);
            }
        }
    } else {
        let init = sorted.drop_last();
        assert(descending(init, key)) by {
            assert forall|i: int, j: int| 0 <= i < j < init.len() implies key(#[trigger] init[i])
                >= key(#[trigger] init[j]) by {
                assert(init[i] == sorted[i] && init[j] == sorted[j]);
            }
        }
        lemma_inserted_descending(init, x, key);
        lemma_inserted_items(init, x, key);
        lemma_inserted_len(init, x, key);
        let ins = inserted(init, x, key);
        assert forall|i: int, j: int| 0 <= i < j < out.len() implies key(#[trigger] out[i]) >= key(
            #[trigger] out[j],
        ) by {
            if j == ins.len() {
                assert(out[i] == ins[i]);
                assert(ins.contains(ins[i]));
                if ins[i] != x {
                    assert(init.contains(ins[i]));
                    let k = choose|k: int| 0 <= k < init.len() && init[k] == ins[i];
                    assert(sorted[k] == ins[i]);
                    assert(key(sorted[k]) >= key(sorted[sorted.len() - 1]));
                }
            } else {
                assert(out[i] == ins[i] && out[j] == ins[j]);
            }
        }
    }
}

/// The stable descending order is descending, as long as the sequence,
/// and made of the same items.
pub proof fn lemma_stable_sorted<A>(s: Seq<A>, key: spec_fn(A) -> int)
    ensures
        descending(stable_sorted(s, key), key),
        stable_sorted(s, key).len() == s.len(),
        forall|a: A| #[trigger] stable_sorted(s, key).contains(a) <==> s.contains(a),
    decreases s.len(),
{
    if s.len() > 0 {
        let init = s.drop_last();
        lemma_stable_sorted(init, key);
        let prev = stable_sorted(init, key);
        lemma_inserted_descending(prev, s.last(), key);
        lemma_inserted_len(prev, s.last(), key);
        lemma_inserted_items(prev, s.last(), key);
        let out = stable_sorted(s, key);
        assert forall|a: A| #[trigger] out.contains(a) <==> s.contains(a) by {
            if s.contains(a) {
                let k = choose|k: int| 0 <= k < s.len() && s[k] == a;
                if k < init.len() {
                    assert(init[k] == a);
                    assert(init.contains(a));
                }
            }
            if out.contains(a) && a != s.last() {
                assert(prev.contains(a));
                assert(init.contains(a));
                let k = choose|k: int| 0 <= k < init.len() && init[k] == a;
                assert(s[k] == a);
            }
            if a == s.last() {
                assert(s[s.len() - 1] == a);
            }
        }
    }
}

/// What a ranking promises: it is descending, holds `limit` items or all
/// if there are fewer, and each of its items is one of those given.
pub proof fn lemma_ranked<A>(s: Seq<A>, key: spec_fn(A) -> int, limit: nat)
    ensures
        descending(ranked(s, key, limit), key),
        ranked(s, key, limit).len() == if limit < s.len() {
            limit
        } else {
            s.len()
        },
        forall|i: int|
            0 <= i < ranked(s, key, limit).len() ==> s.contains(#[trigger] ranked(s, key, limit)[i]),
{
    lemma_stable_sorted(s, key);
    let all = stable_sorted(s, key);
    let out = ranked(s, key, limit);
    assert forall|i: int| 0 <= i < out.len() implies s.contains(#[trigger] out[i]) by {
        assert(out[i] == all[i]);
        assert(all.contains(all[i]));
    }
    assert forall|i: int, j: int| 0 <= i < j < out.len() implies key(#[trigger] out[i]) >= key(
        #[trigger] out[j],
    ) by {
        assert(out[i] == all[i] && out[j] == all[j]);
    }
}

/// The stable descending order is a rearrangement: it holds every item as
/// often as the given sequence does.
pub proof fn lemma_stable_sorted_permutes<A>(s: Seq<A>, key: spec_fn(A) -> int)
    ensures
        stable_sorted(s, key).to_multiset() == s.to_multiset(),
    decreases s.len(),
{
    if s.len() == 0 {
        assert(stable_sorted(s, key) =~= s);
    } else {
        let init = s.drop_last();
        lemma_stable_sorted_permutes(init, key);
        lemma_inserted_permutes(stable_sorted(init, key), s.last(), key);
        vstd::seq_lib::to_multiset_build(init, s.last());
        assert(init.push(s.last()) =~= s);
    }
}

proof fn lemma_inserted_permutes<A>(sorted: Seq<A>, x: A, key: spec_fn(A) -> int)
    ensures
        inserted(sorted, x, key).to_multiset() == sorted.to_multiset().insert(x),
    decreases sorted.len(),
{
    if sorted.len() == 0 {
        vstd::seq_lib::to_multiset_build(sorted, x);
        assert(sorted.push(x) =~= seq![x]);
    } else if key(sorted.last()) >= key(x) {
        vstd::seq_lib::to_multiset_build(sorted, x);
    } else {
        let init = sorted.drop_last();
        lemma_inserted_permutes(init, x, key);
        vstd::seq_lib::to_multiset_build(inserted(init, x, key), sorted.last());
        vstd::seq_lib::to_multiset_build(init, sorted.last());
        assert(init.push(sorted.last()) =~= sorted);
        assert(init.to_multiset().insert(x).insert(sorted.last()) =~= init.to_multiset().insert(
            sorted.last(),
        ).insert(x));
    }
}

/// The test "has the key `k`".
pub open spec fn has_key<A>(key: spec_fn(A) -> int, k: int) -> spec_fn(A) -> bool {
    |a: A| key(a) == k
}

/// The order is stable: the items of any one key stand in the stable
/// descending order as they stand in the given sequence.
pub proof fn lemma_stable_sorted_is_stable<A>(s: Seq<A>, key: spec_fn(A) -> int, k: int)
    ensures
        stable_sorted(s, key).filter(has_key(key, k)) == s.filter(has_key(key, k)),
    decreases s.len(),
{
    reveal(Seq::filter);
    if s.len() > 0 {
        let init = s.drop_last();
        lemma_stable_sorted_is_stable(init, key, k);
        lemma_inserted_is_stable(stable_sorted(init, key), s.last(), key, k);
    }
}

proof fn lemma_inserted_is_stable<A>(sorted: Seq<A>, x: A, key: spec_fn(A) -> int, k: int)
    ensures
        inserted(sorted, x, key).filter(has_key(key, k)) == if key(x) == k {
            sorted.filter(has_key(key, k)).push(x)
        } else {
            sorted.filter(has_key(key, k))
        },
    decreases sorted.len(),
{
    reveal(Seq::filter);
    let p = has_key(key, k);
    if sorted.len() == 0 {
        assert(seq![x].drop_last() =~= sorted);
    } else if key(sorted.last()) >= key(x) {
        assert(sorted.push(x).drop_last() =~= sorted);
    } else {
        let init = sorted.drop_last();
        lemma_inserted_is_stable(init, x, key, k);
        let ins = inserted(init, x, key);
        assert(ins.push(sorted.last()).drop_last() =~= ins);
    }
}

/// Ranking commutes with a mapping that keeps the keys.
pub proof fn lemma_ranked_map<A, B>(
    s: Seq<A>,
    f: spec_fn(A) -> B,
    key_a: spec_fn(A) -> int,
    key_b: spec_fn(B) -> int,
    limit: nat,
)
    requires
        forall|a: A| key_b(f(a)) == #[trigger] key_a(a),
    ensures
        ranked(s.map_values(f), key_b, limit) == ranked(s, key_a, limit).map_values(f),
{
    lemma_stable_sorted_map(s, f, key_a, key_b);
    lemma_stable_sorted(s, key_a);
    let all = stable_sorted(s, key_a);
    if limit < all.len() {
        assert(all.map_values(f).take(limit as int) =~= all.take(limit as int).map_values(f));
    }
}

proof fn lemma_stable_sorted_map<A, B>(
    s: Seq<A>,
    f: spec_fn(A) -> B,
    key_a: spec_fn(A) -> int,
    key_b: spec_fn(B) -> int,
)
    requires
        forall|a: A| key_b(f(a)) == #[trigger] key_a(a),
    ensures
        stable_sorted(s.map_values(f), key_b) == stable_sorted(s, key_a).map_values(f),
    decreases s.len(),
{
    if s.len() == 0 {
        assert(stable_sorted(s, key_a).map_values(f) =~= Seq::<B>::empty());
    } else {
        let init = s.drop_last();
        lemma_stable_sorted_map(init, f, key_a, key_b);
        assert(s.map_values(f).drop_last() =~= init.map_values(f));
        assert(s.map_values(f).last() == f(s.last()));
        lemma_inserted_map(stable_sorted(init, key_a), s.last(), f, key_a, key_b);
    }
}

proof fn lemma_inserted_map<A, B>(
    sorted: Seq<A>,
    x: A,
    f: spec_fn(A) -> B,
    key_a: spec_fn(A) -> int,
    key_b: spec_fn(B) -> int,
)
    requires
        forall|a: A| key_b(f(a)) == #[trigger] key_a(a),
    ensures
        inserted(sorted.map_values(f), f(x), key_b) == inserted(sorted, x, key_a).map_values(f),
    decreases sorted.len(),
{
    let mapped = sorted.map_values(f);
    assert(key_b(f(x)) == key_a(x));
    if sorted.len() == 0 {
        assert(seq![f(x)] =~= seq![x].map_values(f));
    } else {
        assert(mapped.last() == f(sorted.last()));
        assert(key_b(f(sorted.last())) == key_a(sorted.last()));
        if key_a(sorted.last()) >= key_a(x) {
            assert(mapped.push(f(x)) =~= sorted.push(x).map_values(f));
        } else {
            let init = sorted.drop_last();
            lemma_inserted_map(init, x, f, key_a, key_b);
            assert(mapped.drop_last() =~= init.map_values(f));
            assert(inserted(init, x, key_a).map_values(f).push(f(sorted.last())) =~= inserted(
                init,
                x,
                key_a,
            ).push(sorted.last()).map_values(f));
        }
    }
}

/// What the stable descending order holds behind the first `limit` items.
pub open spec fn left_out<A>(s: Seq<A>, key: spec_fn(A) -> int, limit: nat) -> Seq<A> {
    stable_sorted(s, key).skip(ranked(s, key, limit).len() as int)
}

/// A ranking holds the best: together with what it leaves out it is a
/// rearrangement of the items given, and nothing left out has a greater
/// key than an item of the ranking.
pub proof fn lemma_ranked_is_top<A>(s: Seq<A>, key: spec_fn(A) -> int, limit: nat)
    ensures
        (ranked(s, key, limit) + left_out(s, key, limit)).to_multiset() == s.to_multiset(),
        forall|i: int, j: int|
            0 <= i < ranked(s, key, limit).len() && 0 <= j < left_out(s, key, limit).len() ==> key(
                #[trigger] ranked(s, key, limit)[i],
            ) >= key(#[trigger] left_out(s, key, limit)[j]),
{
    lemma_stable_sorted(s, key);
    lemma_stable_sorted_permutes(s, key);
    let all = stable_sorted(s, key);
    let out = ranked(s, key, limit);
    let rest = left_out(s, key, limit);
    assert(out + rest =~= all);
    assert forall|i: int, j: int| 0 <= i < out.len() && 0 <= j < rest.len() implies key(
        #[trigger] out[i],
    ) >= key(#[trigger] rest[j]) by {
        assert(out[i] == all[i]);
        assert(rest[j] == all[out.len() + j]);
    }
}

/// No two items of the sequence bear the same mark.
pub open spec fn apart<A, B>(s: Seq<A>, mark: spec_fn(A) -> B) -> bool {
    forall|i: int, j: int| 0 <= i < j < s.len() ==> mark(#[trigger] s[i]) != mark(#[trigger] s[j])
}

proof fn lemma_inserted_apart<A, B>(
    sorted: Seq<A>,
    x: A,
    key: spec_fn(A) -> int,
    mark: spec_fn(A) -> B,
)
    requires
        apart(sorted, mark),
        forall|i: int| 0 <= i < sorted.len() ==> mark(#[trigger] sorted[i]) != mark(x),
    ensures
        apart(inserted(sorted, x, key), mark),
    decreases sorted.len(),
{
    let out = inserted(sorted, x, key);
    if sorted.len() > 0 && key(sorted.last()) < key(x) {
        let init = sorted.drop_last();
        let ins = inserted(init, x, key);
        lemma_inserted_apart(init, x, key, mark);
        lemma_inserted_items(init, x, key);
        assert forall|i: int, j: int| 0 <= i < j < out.len() implies mark(#[trigger] out[i])
            != mark(#[trigger] out[j]) by {
            if j < ins.len() {
                assert(out[i] == ins[i] && out[j] == ins[j]);
            } else {
                assert(out[i] == ins[i]);
                assert(ins.contains(ins[i]));
                if ins[i] != x {
                    let k = choose|k: int| 0 <= k < init.len() && init[k] == ins[i];
                    assert(sorted[k] == ins[i]);
                }
                assert(out[j] == sorted[sorted.len() - 1]);
            }
        }
    }
}

/// Ranking keeps marks apart: where no two of the items given bear the
/// same mark, no two of the ranking do.
pub proof fn lemma_ranked_apart<A, B>(
    s: Seq<A>,
    key: spec_fn(A) -> int,
    mark: spec_fn(A) -> B,
    limit: nat,
)
    requires
        apart(s, mark),
    ensures
        apart(stable_sorted(s, key), mark),
        apart(ranked(s, key, limit), mark),
    decreases s.len(),
{
    if s.len() > 0 {
        let init = s.drop_last();
        let prev = stable_sorted(init, key);
        assert(apart(init, mark)) by {
            assert forall|i: int, j: int| 0 <= i < j < init.len() implies mark(#[trigger] init[i])
                != mark(#[trigger] init[j]) by {
                assert(init[i] == s[i] && init[j] == s[j]);
            }
        }
        lemma_ranked_apart(init, key, mark, limit);
        lemma_stable_sorted(init, key);
        assert forall|i: int| 0 <= i < prev.len() implies mark(#[trigger] prev[i]) != mark(
            s.last(),
        ) by {
            assert(prev.contains(prev[i]));
            let k = choose|k: int| 0 <= k < init.len() && init[k] == prev[i];
            assert(s[k] == prev[i]);
            assert(s[s.len() - 1] == s.last());
        }
        lemma_inserted_apart(prev, s.last(), key, mark);
    }
    let all = stable_sorted(s, key);
    let out = ranked(s, key, limit);
    assert forall|i: int, j: int| 0 <= i < j < out.len() implies mark(#[trigger] out[i]) != mark(
        #[trigger] out[j],
    ) by {
        assert(out[i] == all[i] && out[j] == all[j]);
    }
}

/// Items that can be ranked: each has a rank and can be compared by it.
pub trait Ranked: Sized {
    /// The rank of the item; the greater, the better.
    spec fn rank(&self) -> int;

    /// Tells whether this item ranks strictly above `other`.
    fn outranks(&self, other: &Self) -> (r: bool)
        ensures
            r == (self.rank() > other.rank()),
    ;
}

/// The key by which items of `T` are ranked.
pub open spec fn rank_of<T: Ranked>() -> spec_fn(T) -> int {
    |t: T| t.rank()
}

/// Turns a list around.
pub fn reversed<T>(items: Vec<T>) -> (out: Vec<T>)
    ensures
        out@.len() == items@.len(),
        forall|k: int| 0 <= k < out@.len() ==> out@[k] == items@[items@.len() - 1 - k],
{
    let mut items = items;
    let ghost all = items@;
    let mut out: Vec<T> = Vec::new();
    while items.len() > 0
        invariant
            items@ == all.subrange(0, items@.len() as int),
            out@.len() + items@.len() == all.len(),
            forall|k: int| 0 <= k < out@.len() ==> out@[k] == all[all.len() - 1 - k],
        decreases items.len(),
    {
        let x = items.pop().unwrap();
        out.push(x);
    }
    out
}

/// Ranks the items: returns the best `limit` of them, best first, items
/// of equal rank in the order in which they were given.
pub fn top_ranked<T: Ranked>(items: Vec<T>, limit: usize) -> (out: Vec<T>)
    ensures
        out@ == ranked(items@, rank_of::<T>(), limit as nat),
{
    let ghost all = items@;
    let ghost key = rank_of::<T>();
    let mut rest = reversed(items);
    let mut best: Vec<T> = Vec::new();
    proof {
        assert(all.subrange(0, 0) =~= Seq::<T>::empty());
    }
    while rest.len() > 0
        invariant
            key == rank_of::<T>(),
            rest@.len() <= all.len(),
            forall|k: int| 0 <= k < rest@.len() ==> rest@[k] == all[all.len() - 1 - k],
            best@ == ranked(all.subrange(0, all.len() - rest@.len()), key, limit as nat),
        decreases rest.len(),
    {
        let ghost done = all.len() - rest@.len();
        let ghost prefix = all.subrange(0, done);
        let ghost sorted = stable_sorted(prefix, key);
        let x = rest.pop().unwrap();
        proof {
            assert(x == all[done]);
            let next = all.subrange(0, done + 1);
            assert(next.drop_last() =~= prefix);
            assert(next.last() == x);
            assert(stable_sorted(next, key) == inserted(sorted, x, key));
            lemma_stable_sorted(prefix, key);
            lemma_inserted_len(sorted, x, key);
        }
        if best.len() >= limit {
            if limit == 0 {
                proof {
                    assert(inserted(sorted, x, key).take(0) =~= Seq::<T>::empty());
                    assert(best@ =~= Seq::<T>::empty());
                }
            } else if x.outranks(&best[limit - 1]) {
                let mut p: usize = limit - 1;
                while p > 0 && x.outranks(&best[p - 1])
                    invariant
                        key == rank_of::<T>(),
                        p < limit,
                        best@.len() == limit,
                        forall|j: int| p <= j < best@.len() ==> key(#[trigger] best@[j]) < key(x),
                    decreases p,
                {
                    p -= 1;
                }
                proof {
                    assert(best@ == sorted.take(limit as int));
                    assert forall|j: int| p <= j < sorted.len() implies key(#[trigger] sorted[j])
                        < key(x) by {
                        if j < limit {
                            assert(sorted[j] == best@[j]);
                        } else {
                            assert(sorted[limit - 1] == best@[limit - 1]);
                            assert(key(sorted[limit - 1]) >= key(sorted[j]));
                        }
                    }
                    if p > 0 {
                        assert(sorted[p - 1] == best@[p - 1]);
                    }
                    lemma_inserted_at(sorted, x, key, p as int);
                    assert(sorted.insert(p as int, x).take(limit as int) =~= best@.insert(
                        p as int,
                        x,
                    ).take(limit as int));
                }
                best.insert(p, x);
                best.truncate(limit);
            } else {
                proof {
                    assert(best@ == sorted.take(limit as int));
                    assert(sorted[limit - 1] == best@[limit - 1]);
                    lemma_inserted_prefix(sorted, x, key, limit - 1);
                }
            }
        } else {
            let mut p: usize = best.len();
            while p > 0 && x.outranks(&best[p - 1])
                invariant
                    key == rank_of::<T>(),
                    p <= best@.len(),
                    forall|j: int| p <= j < best@.len() ==> key(#[trigger] best@[j]) < key(x),
                decreases p,
            {
                p -= 1;
            }
            proof {
                assert(best@ == sorted);
                lemma_inserted_at(sorted, x, key, p as int);
            }
            best.insert(p, x);
        }
    }
    proof {
        assert(all.subrange(0, all.len() as int) =~= all);
    }
    best
}

} // verus!
