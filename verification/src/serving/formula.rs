//! What the launches of a layer's step compute: the formula of a decode layer.
use vstd::prelude::*;

use crate::serving::layer;
use crate::serving::layer::{Buf, DecodeLayer, Launch, Product, Weight};

verus! {

/// What a buffer holds, as an expression over the layer's input and its weights.
pub ghost enum Term {
    /// What the buffers held before the step.
    Stale(Buf),
    /// The layer's input.
    Input,
    /// The RMS norm of each row.
    Norm(Box<Term>),
    /// The numbers rounded to 16 bits.
    Half(Box<Term>),
    /// A product with a weight.
    Times(Box<Term>, Weight),
    Silu(Box<Term>),
    Plus(Box<Term>, Box<Term>),
    /// Attention of queries over a layer of the cache whose newest keys and values are these.
    Attention { q: Box<Term>, keys: Box<Term>, values: Box<Term> },
}

/// The buffers of a step, and the keys and values that it put into a layer of the cache, if it has.
pub ghost struct State {
    pub held: spec_fn(Buf) -> Term,
    pub newest: Option<(usize, Term, Term)>,
}

impl State {
    /// Before a step only the input is known.
    pub open spec fn at_start() -> State {
        State {
            held: |b: Buf|
                if b == Buf::X {
                    Term::Input
                } else {
                    Term::Stale(b)
                },
            newest: None,
        }
    }

    /// The buffers with one of them written.
    pub open spec fn with(self, dst: Buf, t: Term) -> State {
        State {
            held: |b: Buf|
                if b == dst {
                    t
                } else {
                    (self.held)(b)
                },
            newest: self.newest,
        }
    }

    /// The buffers after a launch. Attention over another layer than the one that was appended to
    /// does not see the new token.
    pub open spec fn after(self, l: Launch) -> State {
        match l {
            Launch::Norm { src, dst, .. } => self.with(
                dst,
                Term::Norm(Box::new((self.held)(src))),
            ),
            Launch::Cast { src, dst, .. } => self.with(
                dst,
                Term::Half(Box::new((self.held)(src))),
            ),
            Launch::Gemm { product, src, weight, dst, .. } => {
                let t = Term::Times(Box::new((self.held)(src)), weight);
                self.with(
                    dst,
                    match product {
                        Product::Plain => t,
                        Product::Silu => Term::Silu(Box::new(t)),
                        Product::Residual(b) => Term::Plus(
                            Box::new((self.held)(b)),
                            Box::new(t),
                        ),
                    },
                )
            },
            Launch::Append { keys, values, layer } => State {
                newest: Some((layer, (self.held)(keys), (self.held)(values))),
                ..self
            },
            Launch::Attend { q, dst, layer } => match self.newest {
                Some((at, keys, values)) => if at == layer {
                    self.with(
                        dst,
                        Term::Attention {
                            q: Box::new((self.held)(q)),
                            keys: Box::new(keys),
                            values: Box::new(values),
                        },
                    )
                } else {
                    self.with(dst, Term::Stale(dst))
                },
                None => self.with(dst, Term::Stale(dst)),
            },
        }
    }

    /// The buffers after the first `k` of some launches.
    pub open spec fn run(self, s: Seq<Launch>, k: nat) -> State
        decreases k,
    {
        if k == 0 {
            self
        } else {
            self.run(s, (k - 1) as nat).after(s[k - 1])
        }
    }
}

/// A product of 16-bit numbers with a weight.
pub open spec fn times(t: Term, w: Weight) -> Term {
    Term::Times(Box::new(Term::Half(Box::new(t))), w)
}

/// `x + attention(norm(x) Wq, norm(x) Wk, norm(x) Wv) Wo`.
pub open spec fn attended(x: Term) -> Term {
    let n = Term::Norm(Box::new(x));
    let a = Term::Attention {
        q: Box::new(times(n, Weight::Wq)),
        keys: Box::new(times(n, Weight::Wk)),
        values: Box::new(times(n, Weight::Wv)),
    };
    Term::Plus(Box::new(x), Box::new(times(a, Weight::Wo)))
}

/// `x1 + silu(norm(x1) W1) W2`, where `x1` is the input with attention added.
pub open spec fn decoded(x: Term) -> Term {
    let x1 = attended(x);
    let up = Term::Silu(Box::new(times(Term::Norm(Box::new(x1)), Weight::W1)));
    Term::Plus(Box::new(x1), Box::new(times(up, Weight::W2)))
}

/// The launches of a step compute a decode layer: with whatever the buffers held before, the output
/// is `x1 + silu(norm(x1) W1) W2` with `x1 = x + attention(norm(x) Wq, norm(x) Wk, norm(x) Wv) Wo`,
/// attention runs over the layer that it was asked for, and the keys and values that are appended
/// to that layer are `norm(x) Wk` and `norm(x) Wv`.
pub proof fn law_a_step_computes_the_layer(bcap: usize, d: usize, dff: usize, layer: usize)
    ensures
        ({
            let s = layer::launches(bcap, d, dff, layer);
            let end = State::at_start().run(s, s.len());
            let n = Term::Norm(Box::new(Term::Input));
            &&& (end.held)(Buf::Out) == decoded(Term::Input)
            &&& (end.held)(Buf::X) == Term::Input
            &&& end.newest == Some((layer, times(n, Weight::Wk), times(n, Weight::Wv)))
        }),
{
    reveal_with_fuel(State::run, 15);
    let s = layer::launches(bcap, d, dff, layer);
    assert(s.len() == 14);
}

/// How often a weight is used by the first `k` of some launches.
pub open spec fn uses(s: Seq<Launch>, k: nat, w: Weight) -> nat
    decreases k,
{
    if k == 0 {
        0
    } else {
        uses(s, (k - 1) as nat, w) + match s[k - 1] {
            Launch::Gemm { weight, .. } => if weight == w {
                1nat
            } else {
                0nat
            },
            _ => 0nat,
        }
    }
}

/// Every weight of a layer is used by exactly one product of a step.
pub proof fn law_each_weight_is_used_once(
    bcap: usize,
    d: usize,
    dff: usize,
    layer: usize,
    w: Weight,
)
    ensures
        uses(
            layer::launches(bcap, d, dff, layer),
            layer::launches(bcap, d, dff, layer).len(),
            w,
        ) == 1,
{
    reveal_with_fuel(uses, 15);
    let s = layer::launches(bcap, d, dff, layer);
    assert(s.len() == 14);
}

/// The numbers in a row of a buffer: the inner activation is as wide as the inner layer, all others
/// as the hidden size.
pub open spec fn width(b: Buf, d: nat, dff: nat) -> nat {
    if b == Buf::Up || b == Buf::UpHalf {
        dff
    } else {
        d
    }
}

/// The launches fit their operands: a norm covers every row of its buffer, a copy every number, and
/// a product takes rows as wide as its operand's to rows as wide as its result's, with a weight that
/// has a number for each pair. So no launch leaves a part of a buffer as it was, and none reads
/// past the end of one.
pub proof fn law_launches_fit_their_operands(l: DecodeLayer, layer: usize, i: int)
    requires
        l.wf(),
        0 <= i < layer::launches(
            l.cfg.num_slots,
            l.cfg.hidden() as usize,
            l.dff,
            layer,
        ).len(),
    ensures
        ({
            let (b, d, f) = (l.cfg.num_slots as nat, l.cfg.hidden(), l.dff as nat);
            match layer::launches(l.cfg.num_slots, l.cfg.hidden() as usize, l.dff, layer)[i] {
                Launch::Norm { src, dst, rows, cols } => {
                    &&& rows == b
                    &&& cols == width(src, d, f)
                    &&& cols == width(dst, d, f)
                },
                Launch::Cast { src, dst, n } => {
                    &&& n == b * width(src, d, f)
                    &&& n == b * width(dst, d, f)
                },
                Launch::Gemm { product, src, weight, dst, m, k, n } => {
                    &&& m == b
                    &&& k == width(src, d, f)
                    &&& n == width(dst, d, f)
                    &&& n * k == l.weight_elems(weight)
                    &&& product matches Product::Residual(r) ==> width(r, d, f) == n
                },
                Launch::Append { keys, values, layer: at } => {
                    &&& at == layer
                    &&& width(keys, d, f) == d
                    &&& width(values, d, f) == d
                },
                Launch::Attend { q, dst, layer: at } => {
                    &&& at == layer
                    &&& width(q, d, f) == d
                    &&& width(dst, d, f) == d
                },
            }
        }),
{
    let d = l.cfg.hidden();
    assert(d <= usize::MAX) by {
        assert(d * d >= d) by (nonlinear_arith)
            requires
                d >= 0,
        ;
    }
    assert(d * l.dff == l.dff * d) by (nonlinear_arith);
}

} // verus!
