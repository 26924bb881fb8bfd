//! The order in which the labels of a diagnostic are shown.
use vstd::prelude::*;

use crate::render::diagnostic;

verus! {

/// What labels are ordered by: their source, and where they begin in it.
pub open spec fn key(l: diagnostic::Label) -> (u32, u32) {
    (l.place->0.source, l.place->0.lo)
}

/// Whether one label is not behind another.
pub open spec fn not_behind(a: diagnostic::Label, b: diagnostic::Label) -> bool {
    key(a).0 < key(b).0 || key(a).0 == key(b).0 && key(a).1 <= key(b).1
}

/// See [`not_behind`].
fn is_not_behind(a: &diagnostic::Label, b: &diagnostic::Label) -> (r: bool)
    requires
        a.place is Some,
        b.place is Some,
    ensures
        r == not_behind(*a, *b),
{
    match (&a.place, &b.place) {
        (Some(p), Some(q)) => p.source < q.source || p.source == q.source && p.lo <= q.lo,
        _ => false,
    }
}

/// The place of label `x` among those of `o`: behind all that are not behind it.
pub open spec fn place_in(labels: Seq<diagnostic::Label>, o: Seq<usize>, x: int) -> nat
    decreases o.len(),
{
    if o.len() == 0 {
        0
    } else if not_behind(labels[o.last() as int], labels[x]) {
        o.len()
    } else {
        place_in(labels, o.drop_last(), x)
    }
}

/// The labels among the first `k` that mark something, in the order in which they are shown. Labels
/// with the same key stay as they are.
pub open spec fn ordered(labels: Seq<diagnostic::Label>, k: nat) -> Seq<usize>
    decreases k,
{
    if k == 0 {
        Seq::empty()
    } else {
        let o = ordered(labels, (k - 1) as nat);
        if labels[k - 1].place is Some {
            o.insert(place_in(labels, o, k - 1) as int, (k - 1) as usize)
        } else {
            o
        }
    }
}

/// A place is within.
proof fn lemma_place_in(labels: Seq<diagnostic::Label>, o: Seq<usize>, x: int)
    ensures
        place_in(labels, o, x) <= o.len(),
        forall|i: int|
            place_in(labels, o, x) <= i < o.len() ==> !not_behind(
                labels[#[trigger] o[i] as int],
                labels[x],
            ),
        place_in(labels, o, x) > 0 ==> not_behind(
            labels[o[place_in(labels, o, x) - 1] as int],
            labels[x],
        ),
    decreases o.len(),
{
    if o.len() > 0 && !not_behind(labels[o.last() as int], labels[x]) {
        lemma_place_in(labels, o.drop_last(), x);
        let p = place_in(labels, o, x);
        assert forall|i: int| p <= i < o.len() implies !not_behind(
            labels[#[trigger] o[i] as int],
            labels[x],
        ) by {
            if i < o.len() - 1 {
                assert(o.drop_last()[i] == o[i]);
            }
        }
    }
}

/// What is shown are labels that mark something.
pub proof fn lemma_ordered(labels: Seq<diagnostic::Label>, k: nat)
    requires
        k <= labels.len() <= usize::MAX,
    ensures
        ordered(labels, k).len() <= k,
        forall|i: int|
            0 <= i < ordered(labels, k).len() ==> (#[trigger] ordered(labels, k)[i]) < k
                && labels[ordered(labels, k)[i] as int].place is Some,
    decreases k,
{
    if k > 0 {
        lemma_ordered(labels, (k - 1) as nat);
        let o = ordered(labels, (k - 1) as nat);
        if labels[k - 1].place is Some {
            lemma_place_in(labels, o, k - 1);
            let p = place_in(labels, o, k - 1) as int;
            let n = o.insert(p, (k - 1) as usize);
            assert forall|i: int| 0 <= i < n.len() implies (#[trigger] n[i]) < k
                && labels[n[i] as int].place is Some by {
                if i < p {
                    assert(n[i] == o[i]);
                } else if i > p {
                    assert(n[i] == o[i - 1]);
                }
            }
        }
    }
}

/// Labels are shown in order: by their keys, and those with the same key as they came.
pub proof fn law_labels_are_in_order(labels: Seq<diagnostic::Label>, k: nat, i: int, j: int)
    requires
        k <= labels.len() <= usize::MAX,
        0 <= i < j < ordered(labels, k).len(),
    ensures
        not_behind(
            labels[ordered(labels, k)[i] as int],
            labels[ordered(labels, k)[j] as int],
        ),
        key(labels[ordered(labels, k)[i] as int]) == key(labels[ordered(labels, k)[j] as int])
            ==> ordered(labels, k)[i] < ordered(labels, k)[j],
    decreases k,
{
    if k > 0 {
        let before = (k - 1) as nat;
        let o = ordered(labels, before);
        let n = ordered(labels, k);
        lemma_ordered(labels, before);
        if labels[k - 1].place is Some {
            lemma_place_in(labels, o, k - 1);
            let p = place_in(labels, o, k - 1) as int;
            let from = |x: int|
                if x < p {
                    x
                } else {
                    x - 1
                };
            if i != p && j != p {
                assert(n[i] == o[from(i)]);
                assert(n[j] == o[from(j)]);
                law_labels_are_in_order(labels, before, from(i), from(j));
            } else if j == p {
                assert(n[i] == o[i]);
                assert(o[i] < k - 1);
                if i < p - 1 {
                    law_labels_are_in_order(labels, before, i, p - 1);
                }
            } else {
                assert(n[j] == o[j - 1]);
                assert(!not_behind(labels[o[j - 1] as int], labels[k - 1]));
            }
        } else {
            law_labels_are_in_order(labels, before, i, j);
        }
    }
}

/// No label that marks something is left out.
pub proof fn law_every_mark_is_shown(labels: Seq<diagnostic::Label>, k: nat, x: int)
    requires
        k <= labels.len() <= usize::MAX,
        0 <= x < k,
        labels[x].place is Some,
    ensures
        ordered(labels, k).contains(x as usize),
    decreases k,
{
    let before = (k - 1) as nat;
    let o = ordered(labels, before);
    let n = ordered(labels, k);
    if labels[k - 1].place is Some {
        lemma_place_in(labels, o, k - 1);
        let p = place_in(labels, o, k - 1) as int;
        if x == k - 1 {
            assert(n[p] == x);
        } else {
            law_every_mark_is_shown(labels, before, x);
            let i = choose|i: int| 0 <= i < o.len() && o[i] == x;
            if i < p {
                assert(n[i] == x);
            } else {
                assert(n[i + 1] == x);
            }
        }
    } else if x < k - 1 {
        law_every_mark_is_shown(labels, before, x);
    }
}

/// The labels that mark something, in the order in which they are shown.
pub fn order(labels: &[diagnostic::Label]) -> (r: Vec<usize>)
    ensures
        r@ == ordered(labels@, labels@.len()),
{
    let mut r: Vec<usize> = Vec::new();
    for k in 0..labels.len()
        invariant
            r@ == ordered(labels@, k as nat),
    {
        if labels[k].place.is_some() {
            proof {
                lemma_ordered(labels@, k as nat);
            }
            let mut p: usize = r.len();
            assert(r@.take(r@.len() as int) =~= r@);
            while p > 0 && !is_not_behind(&labels[r[p - 1]], &labels[k])
                invariant
                    k < labels@.len(),
                    labels@[k as int].place is Some,
                    p <= r@.len(),
                    forall|i: int|
                        0 <= i < r@.len() ==> (#[trigger] r@[i]) < k && labels@[r@[i] as int].place
                            is Some,
                    place_in(labels@, r@, k as int) == place_in(
                        labels@,
                        r@.take(p as int),
                        k as int,
                    ),
                decreases p,
            {
                assert(r@.take(p as int).last() == r@[p - 1]);
                assert(r@.take(p as int).drop_last() =~= r@.take(p - 1));
                p = p - 1;
            }
            proof {
                if p > 0 {
                    assert(r@.take(p as int).last() == r@[p - 1]);
                }
            }
            r.insert(p, k);
        }
    }
    r
}

} // verus!
