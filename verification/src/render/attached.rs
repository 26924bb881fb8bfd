//! The order in which labels were attached is not seen in the text.
use vstd::prelude::*;

use crate::render::diagnostic;
use crate::render::order;
use crate::render::renderer;

verus! {

/// Whether no two labels mark places that begin alike, and no two are primary.
pub open spec fn apart(labels: Seq<diagnostic::Label>) -> bool {
    forall|i: int, j: int|
        #![trigger labels[i], labels[j]]
        0 <= i < j < labels.len() ==> !(labels[i].primary && labels[j].primary) && (
        labels[i].place is Some && labels[j].place is Some ==> order::key(labels[i]) != order::key(
            labels[j],
        ))
}

/// Whether the same labels were attached, in whatever order.
pub open spec fn alike(a: Seq<diagnostic::Label>, b: Seq<diagnostic::Label>) -> bool {
    forall|l: diagnostic::Label| #[trigger] a.contains(l) <==> b.contains(l)
}

/// The labels that mark something, as they are shown.
spec fn shown(labels: Seq<diagnostic::Label>) -> Seq<diagnostic::Label> {
    let o = order::ordered(labels, labels.len());
    Seq::new(o.len(), |i: int| labels[o[i] as int])
}

/// Whether each label is before the next ones.
spec fn ascends(s: Seq<diagnostic::Label>) -> bool {
    forall|i: int, j: int|
        0 <= i < j < s.len() ==> order::not_behind(#[trigger] s[i], #[trigger] s[j]) && order::key(
            s[i],
        ) != order::key(s[j])
}

/// What is shown ascends, and is what marks something.
proof fn lemma_shown(labels: Seq<diagnostic::Label>)
    requires
        apart(labels),
        labels.len() <= usize::MAX,
    ensures
        ascends(shown(labels)),
        forall|l: diagnostic::Label| #[trigger]
            shown(labels).contains(l) <==> labels.contains(l) && l.place is Some,
{
    let n = labels.len();
    let o = order::ordered(labels, n);
    let s = shown(labels);
    order::lemma_ordered(labels, n);
    assert forall|i: int, j: int| 0 <= i < j < s.len() implies order::not_behind(
        #[trigger] s[i],
        #[trigger] s[j],
    ) && order::key(s[i]) != order::key(s[j]) by {
        order::law_labels_are_in_order(labels, n, i, j);
        let (x, y) = (o[i] as int, o[j] as int);
        assert(s[i] == labels[x] && s[j] == labels[y]);
        assert(o[i] < n && o[j] < n);
        assert(x != y) by {
            lemma_once(labels, n, i, j);
        }
        let (u, v) = if x < y {
            (x, y)
        } else {
            (y, x)
        };
        assert(labels[u].place is Some && labels[v].place is Some);
        assert(!(labels[u].primary && labels[v].primary));
        assert(order::key(labels[u]) != order::key(labels[v]));
        assert(order::not_behind(labels[x], labels[y]));
    }
    assert forall|l: diagnostic::Label| #[trigger]
        shown(labels).contains(l) <==> labels.contains(l) && l.place is Some by {
        if s.contains(l) {
            let i = choose|i: int| 0 <= i < s.len() && s[i] == l;
            assert(labels[o[i] as int] == l);
        }
        if labels.contains(l) && l.place is Some {
            let x = choose|x: int| 0 <= x < labels.len() && labels[x] == l;
            order::law_every_mark_is_shown(labels, n, x);
            let i = choose|i: int| 0 <= i < o.len() && o[i] == x as usize;
            assert(s[i] == l);
        }
    }
}

/// No label is shown twice.
proof fn lemma_once(labels: Seq<diagnostic::Label>, k: nat, i: int, j: int)
    requires
        k <= labels.len() <= usize::MAX,
        0 <= i < j < order::ordered(labels, k).len(),
    ensures
        order::ordered(labels, k)[i] != order::ordered(labels, k)[j],
{
    order::law_labels_are_in_order(labels, k, i, j);
}

/// There is one way to ascend through the same labels.
proof fn lemma_one_way(s: Seq<diagnostic::Label>, t: Seq<diagnostic::Label>)
    requires
        ascends(s),
        ascends(t),
        alike(s, t),
    ensures
        s == t,
    decreases s.len(),
{
    if s.len() == 0 {
        if t.len() > 0 {
            assert(t.contains(t[0]));
            assert(s.contains(t[0]));
        }
    } else {
        assert(s.contains(s.last()));
        assert(t.contains(s.last()));
        let j = choose|j: int| 0 <= j < t.len() && t[j] == s.last();
        assert(t.contains(t.last()));
        assert(s.contains(t.last()));
        let i = choose|i: int| 0 <= i < s.len() && s[i] == t.last();
        if j < t.len() - 1 {
            assert(order::not_behind(t[j], t[t.len() - 1]));
            assert(i < s.len() - 1);
            assert(order::not_behind(s[i], s[s.len() - 1]));
        }
        assert(s.last() == t.last());
        let (p, q) = (s.drop_last(), t.drop_last());
        assert forall|l: diagnostic::Label| #[trigger] p.contains(l) <==> q.contains(l) by {
            lemma_but_last(s, l);
            lemma_but_last(t, l);
            assert(s.contains(l) <==> t.contains(l));
        }
        lemma_one_way(p, q);
        assert(s =~= p.push(s.last()));
        assert(t =~= q.push(t.last()));
    }
}

/// All labels of an ascent but its last one.
proof fn lemma_but_last(s: Seq<diagnostic::Label>, l: diagnostic::Label)
    requires
        s.len() > 0,
        ascends(s),
    ensures
        s.drop_last().contains(l) <==> s.contains(l) && l != s.last(),
{
    let p = s.drop_last();
    if p.contains(l) {
        let i = choose|i: int| 0 <= i < p.len() && p[i] == l;
        assert(s[i] == l);
        assert(order::key(s[i]) != order::key(s[s.len() - 1]));
    }
    if s.contains(l) && l != s.last() {
        let i = choose|i: int| 0 <= i < s.len() && s[i] == l;
        assert(p[i] == l);
    }
}

/// The largest line is that of a label, and none is larger.
proof fn lemma_max_line(labels: Seq<diagnostic::Label>, k: nat)
    requires
        k <= labels.len(),
    ensures
        forall|i: int|
            0 <= i < k && (#[trigger] labels[i]).place is Some ==> labels[i].place->0.start.line
                <= renderer::max_line(labels, k),
        renderer::max_line(labels, k) > 0 ==> exists|i: int|
            0 <= i < k && (#[trigger] labels[i]).place is Some && labels[i].place->0.start.line
                == renderer::max_line(labels, k),
    decreases k,
{
    if k > 0 {
        lemma_max_line(labels, (k - 1) as nat);
        let before = renderer::max_line(labels, (k - 1) as nat);
        let now = renderer::max_line(labels, k);
        if now > 0 && now != before {
            assert(labels[k - 1].place is Some && labels[k - 1].place->0.start.line == now);
        }
    }
}

/// The largest line of some labels is no larger than that of the same labels in another order.
proof fn lemma_same_line(a: Seq<diagnostic::Label>, b: Seq<diagnostic::Label>)
    requires
        alike(a, b),
    ensures
        renderer::max_line(a, a.len()) <= renderer::max_line(b, b.len()),
{
    lemma_max_line(a, a.len());
    lemma_max_line(b, b.len());
    let m = renderer::max_line(a, a.len());
    if m > 0 {
        let i = choose|i: int|
            0 <= i < a.len() && (#[trigger] a[i]).place is Some && a[i].place->0.start.line == m;
        assert(a.contains(a[i]));
        assert(b.contains(a[i]));
        let j = choose|j: int| 0 <= j < b.len() && b[j] == a[i];
        assert(b[j].place is Some);
    }
}

/// The first primary label is primary, and where there is none no label is.
proof fn lemma_primary(labels: Seq<diagnostic::Label>, i: int)
    requires
        0 <= i <= labels.len(),
    ensures
        renderer::primary(labels, i) matches Some(p) ==> i <= p < labels.len() && labels[p].primary,
        renderer::primary(labels, i) is None ==> forall|j: int|
            i <= j < labels.len() ==> !(#[trigger] labels[j]).primary,
    decreases labels.len() - i,
{
    if i < labels.len() && !labels[i].primary {
        lemma_primary(labels, i + 1);
    }
}

/// The frames of the same labels are the same.
proof fn lemma_frames(
    r: renderer::Renderer,
    a: Seq<diagnostic::Label>,
    b: Seq<diagnostic::Label>,
    width: nat,
    k: nat,
)
    requires
        shown(a) == shown(b),
        k <= shown(a).len(),
    ensures
        r.frames(a, order::ordered(a, a.len()), width, k) == r.frames(
            b,
            order::ordered(b, b.len()),
            width,
            k,
        ),
    decreases k,
{
    if k > 0 {
        lemma_frames(r, a, b, width, (k - 1) as nat);
        let (o, q) = (order::ordered(a, a.len()), order::ordered(b, b.len()));
        assert(shown(a)[k - 1] == a[o[k - 1] as int]);
        assert(shown(b)[k - 1] == b[q[k - 1] as int]);
        reveal_with_fuel(renderer::Renderer::frames, 2);
    }
}

/// The text of a diagnostic does not depend on the order in which its labels were attached, where no
/// two of them mark places that begin alike and no two are primary.
pub proof fn law_attachment_order_is_not_seen(
    r: renderer::Renderer,
    d: diagnostic::Diagnostic,
    labels: Vec<diagnostic::Label>,
)
    requires
        apart(d.labels@),
        apart(labels@),
        alike(d.labels@, labels@),
    ensures
        r.rendered((diagnostic::Diagnostic { labels, ..d })) == r.rendered(d),
{
    let e = diagnostic::Diagnostic { labels, ..d };
    let (a, b) = (d.labels@, labels@);
    assert(a.len() == d.labels.len() && b.len() == labels.len());
    lemma_shown(a);
    lemma_shown(b);
    assert forall|l: diagnostic::Label| #[trigger] shown(a).contains(l) <==> shown(b).contains(
        l,
    ) by {
        assert(a.contains(l) <==> b.contains(l));
    }
    lemma_one_way(shown(a), shown(b));
    assert forall|l: diagnostic::Label| #[trigger] b.contains(l) <==> a.contains(l) by {
        assert(a.contains(l) <==> b.contains(l));
    }
    lemma_same_line(a, b);
    lemma_same_line(b, a);
    let width = renderer::gutter(a);
    assert(renderer::gutter(b) == width);
    lemma_frames(r, a, b, width, shown(a).len());
    assert(order::ordered(a, a.len()).len() == shown(a).len());
    assert(order::ordered(b, b.len()).len() == shown(b).len());
    assert(r.framed(e) == r.framed(d));
    lemma_primary(a, 0);
    lemma_primary(b, 0);
    let (p, q) = (renderer::primary(a, 0), renderer::primary(b, 0));
    if p is Some {
        let l = a[p->0];
        assert(a.contains(l));
        assert(b.contains(l));
        let j = choose|j: int| 0 <= j < b.len() && b[j] == l;
        assert(b[j].primary);
        assert(q is Some);
        if q->0 < j {
            assert(!(b[q->0].primary && b[j].primary));
        } else if j < q->0 {
            assert(!(b[j].primary && b[q->0].primary));
        }
        assert(b[q->0] == l);
    } else if q is Some {
        let l = b[q->0];
        assert(b.contains(l));
        assert(a.contains(l));
        let j = choose|j: int| 0 <= j < a.len() && a[j] == l;
        assert(a[j].primary);
    }
    assert(r.arrow(e) == r.arrow(d));
    assert(r.headline(e) == r.headline(d));
}

} // verus!
