//! Orders that keep ties: the entries with equal keys stay in the order
//! they came in. Such an order is determined by its input.
use vstd::prelude::*;

verus! {

/// Whether an entry has the key `k`.
pub open spec fn has_key<A, K>(key: spec_fn(A) -> K, k: K) -> spec_fn(A) -> bool {
    |x: A| key(x) == k
}

/// The entries of `s` with the key `k`, in their order.
pub open spec fn key_class<A, K>(s: Seq<A>, key: spec_fn(A) -> K, k: K) -> Seq<A> {
    s.filter(has_key(key, k))
}

/// `s` is ordered by `le` on the keys of its entries.
pub open spec fn ordered_by<A, K>(s: Seq<A>, key: spec_fn(A) -> K, le: spec_fn(K, K) -> bool) -> bool {
    forall|i: int, j: int| 0 <= i < j < s.len() ==> le(#[trigger] key(s[i]), #[trigger] key(s[j]))
}

/// The entries of `out` with equal keys come in the order they have in
/// `input`, and no entry is added or lost.
pub open spec fn keeps_ties<A, K>(out: Seq<A>, input: Seq<A>, key: spec_fn(A) -> K) -> bool {
    forall|k: K| #[trigger] key_class(out, key, k) == key_class(input, key, k)
}

/// `le` is antisymmetric: keys that are each at most the other are equal.
pub open spec fn antisymmetric<K>(le: spec_fn(K, K) -> bool) -> bool {
    forall|x: K, y: K| #[trigger] le(x, y) && le(y, x) ==> x == y
}

/// Exchanging two neighbours with different keys keeps every key class.
pub proof fn lemma_swap_keeps_key_classes<A, K>(s: Seq<A>, i: int, key: spec_fn(A) -> K)
    requires
        0 <= i,
        i + 1 < s.len(),
        key(s[i]) != key(s[i + 1]),
    ensures
        keeps_ties(s.update(i, s[i + 1]).update(i + 1, s[i]), s, key),
{
    let t = s.update(i, s[i + 1]).update(i + 1, s[i]);
    let pre = s.take(i);
    let post = s.skip(i + 2);
    let ab = seq![s[i], s[i + 1]];
    let ba = seq![s[i + 1], s[i]];
    assert(s =~= pre + ab + post);
    assert(t =~= pre + ba + post);
    assert forall|k: K| #[trigger] key_class(t, key, k) == key_class(s, key, k) by {
        let pred = has_key(key, k);
        Seq::filter_distributes_over_add(pre + ab, post, pred);
        Seq::filter_distributes_over_add(pre, ab, pred);
        Seq::filter_distributes_over_add(pre + ba, post, pred);
        Seq::filter_distributes_over_add(pre, ba, pred);
        assert(ab.drop_last() =~= seq![s[i]]);
        assert(ba.drop_last() =~= seq![s[i + 1]]);
        assert(seq![s[i]].drop_last() =~= Seq::<A>::empty());
        assert(seq![s[i + 1]].drop_last() =~= Seq::<A>::empty());
        reveal_with_fuel(Seq::filter, 3);
        assert(ab.filter(pred) =~= ba.filter(pred));
    }
}

proof fn lemma_class_of_last<A, K>(s: Seq<A>, key: spec_fn(A) -> K, k: K)
    requires
        s.len() > 0,
    ensures
        key_class(s, key, k) == if key(s.last()) == k {
            key_class(s.drop_last(), key, k).push(s.last())
        } else {
            key_class(s.drop_last(), key, k)
        },
{
    assert(s =~= s.drop_last().push(s.last()));
    s.drop_last().lemma_filter_push(s.last(), has_key(key, k));
}

/// An entry of a key class is an entry of the sequence, with that key.
proof fn lemma_class_member<A, K>(s: Seq<A>, key: spec_fn(A) -> K, k: K, x: A)
    requires
        key_class(s, key, k).contains(x),
    ensures
        exists|i: int| 0 <= i < s.len() && s[i] == x,
        key(x) == k,
{
    let f = key_class(s, key, k);
    s.lemma_filter_contains_rev(has_key(key, k), x);
    let j = choose|j: int| 0 <= j < f.len() && f[j] == x;
    s.lemma_filter_pred(has_key(key, k), j);
}

/// Two sequences ordered by the same antisymmetric order that keep the
/// same ties are the same sequence.
pub proof fn lemma_ordered_with_same_ties_are_equal<A, K>(
    a: Seq<A>,
    b: Seq<A>,
    key: spec_fn(A) -> K,
    le: spec_fn(K, K) -> bool,
)
    requires
        antisymmetric(le),
        ordered_by(a, key, le),
        ordered_by(b, key, le),
        forall|k: K| #[trigger] key_class(a, key, k) == key_class(b, key, k),
    ensures
        a == b,
    decreases a.len() + b.len(),
{
    if a.len() == 0 && b.len() == 0 {
        assert(a =~= b);
    } else if a.len() == 0 {
        let k = key(b.last());
        lemma_class_of_last(b, key, k);
        assert(key_class(a, key, k) =~= Seq::<A>::empty());
        assert(key_class(b, key, k).len() > 0);
    } else if b.len() == 0 {
        let k = key(a.last());
        lemma_class_of_last(a, key, k);
        assert(key_class(b, key, k) =~= Seq::<A>::empty());
        assert(key_class(a, key, k).len() > 0);
    } else {
        let ka = key(a.last());
        let kb = key(b.last());
        lemma_class_of_last(a, key, ka);
        lemma_class_of_last(b, key, kb);
        // the last key of `a` occurs in `b`, so it is at most the last key of `b`
        let ca = key_class(a, key, ka);
        assert(ca.last() == a.last());
        assert(ca.contains(a.last()));
        assert(key_class(b, key, ka).contains(a.last()));
        lemma_class_member(b, key, ka, a.last());
        let i = choose|i: int| 0 <= i < b.len() && b[i] == a.last();
        let cb = key_class(b, key, kb);
        assert(cb.last() == b.last());
        assert(cb.contains(b.last()));
        assert(key_class(a, key, kb).contains(b.last()));
        lemma_class_member(a, key, kb, b.last());
        let j = choose|j: int| 0 <= j < a.len() && a[j] == b.last();
        if i < b.len() - 1 && j < a.len() - 1 {
            assert(le(key(b[i]), key(b[b.len() - 1])));
            assert(le(key(a[j]), key(a[a.len() - 1])));
            assert(le(ka, kb) && le(kb, ka));
        }
        assert(ka == kb);
        assert(a.last() == b.last());
        assert forall|k: K| #[trigger] key_class(a.drop_last(), key, k) == key_class(b.drop_last(), key, k) by {
            lemma_class_of_last(a, key, k);
            lemma_class_of_last(b, key, k);
            if k == ka {
                assert(key_class(a.drop_last(), key, k) =~= key_class(a, key, k).drop_last());
                assert(key_class(b.drop_last(), key, k) =~= key_class(b, key, k).drop_last());
            }
        }
        assert(ordered_by(a.drop_last(), key, le));
        assert(ordered_by(b.drop_last(), key, le));
        lemma_ordered_with_same_ties_are_equal(a.drop_last(), b.drop_last(), key, le);
        assert(a =~= a.drop_last().push(a.last()));
        assert(b =~= b.drop_last().push(b.last()));
    }
}

} // verus!
