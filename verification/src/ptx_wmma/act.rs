//! The activations that a kernel applies before it stores, and the ways it stores.
use vstd::prelude::*;
use vstd::string::*;

use crate::text;

verus! {

/// A fused activation epilogue.
#[derive(Clone, Copy, PartialEq, Eq, Structural)]
pub enum Act {
    Identity,
    Relu,
    Silu,
    Gelu,
}

/// How the two neighbouring results of a lane are stored: one by one, as a pair, or as a pair that
/// does not displace other lines of the cache.
#[derive(Clone, Copy, PartialEq, Eq, Structural)]
pub enum Store {
    Scalar,
    V2,
    V2Cs,
}

/// `max(x, 0)`.
pub const RELU: &'static str = "    max.f32 #0,#0,0f00000000;
";

/// `x / (1 + 2^(-x log2 e))`; `0fBFB8AA3B` is `-log2 e`, `0f3F800000` is 1.
pub const SILU: &'static str = "    mul.f32 %act0,#0,0fBFB8AA3B;
    ex2.approx.f32 %act0,%act0;
    add.f32 %act0,%act0,0f3F800000;
    rcp.approx.f32 %act0,%act0;
    mul.f32 #0,#0,%act0;
";

/// `x/2 (1 + tanh(sqrt(2/pi) (x + 0.044715 x^3)))`; `0f3F4C4229` is `sqrt(2/pi)` rounded step by
/// step, `0f3D372713` is 0.044715, `0f3F000000` is 1/2.
pub const GELU: &'static str = "    mul.f32 %act0,#0,#0;
    mul.f32 %act0,%act0,#0;
    fma.rn.f32 %act0,%act0,0f3D372713,#0;
    mul.f32 %act0,%act0,0f3F4C4229;
    tanh.approx.f32 %act0,%act0;
    add.f32 %act0,%act0,0f3F800000;
    mul.f32 %act1,#0,0f3F000000;
    mul.f32 #0,%act0,%act1;
";

pub const NUMBERED: &'static str = "#0#1";

impl Act {
    /// The instructions of [`Act::epilogue`].
    pub open spec fn epilogue_text(self, reg: Seq<char>) -> Seq<char> {
        match self {
            Act::Identity => Seq::empty(),
            Act::Relu => text::fill(RELU@, seq![reg]),
            Act::Silu => text::fill(SILU@, seq![reg]),
            Act::Gelu => text::fill(GELU@, seq![reg]),
        }
    }

    /// The instructions that apply the activation to `reg` in place, with `%act0` and `%act1` as
    /// scratch. No activation is no instruction.
    pub fn epilogue(self, reg: &str) -> (r: String)
        ensures
            r@ == self.epilogue_text(reg@),
    {
        match self {
            Act::Identity => String::new(),
            Act::Relu => text::expand1(RELU, reg),
            Act::Silu => text::expand1(SILU, reg),
            Act::Gelu => text::expand1(GELU, reg),
        }
    }

    /// The activation applied to each of the registers `prefix0`, `prefix1`, .. up to `n`.
    #[verifier::opaque]
    pub open spec fn epilogues_text(self, prefix: Seq<char>, n: nat) -> Seq<char>
        decreases n,
    {
        if n == 0 {
            Seq::empty()
        } else {
            self.epilogues_text(prefix, (n - 1) as nat) + self.epilogue_text(
                text::fill(NUMBERED@, seq![prefix, text::dec((n - 1) as nat)]),
            )
        }
    }

    /// See [`Act::epilogues_text`].
    pub fn epilogues(self, prefix: &str, n: usize) -> (r: String)
        ensures
            r@ == self.epilogues_text(prefix@, n as nat),
    {
        reveal(Act::epilogues_text);
        let mut r = String::new();
        for i in 0..n
            invariant
                r@ == self.epilogues_text(prefix@, i as nat),
        {
            reveal(Act::epilogues_text);
            r.append(&self.epilogue(&text::expand2(NUMBERED, prefix, &text::decimal(i))));
        }
        r
    }
}

pub const STORE_SCALAR: &'static str = "    st.global.f32 [#0],#1;
    st.global.f32 [#0+4],#2;
";

pub const STORE_V2: &'static str = "    st.global.v2.f32 [#0],{#1,#2};
";

pub const STORE_V2CS: &'static str = "    st.global.cs.v2.f32 [#0],{#1,#2};
";

impl Store {
    /// The instructions of [`Store::pair`].
    pub open spec fn pair_text(self, dst: Seq<char>, lo: Seq<char>, hi: Seq<char>) -> Seq<char> {
        match self {
            Store::Scalar => text::fill(STORE_SCALAR@, seq![dst, lo, hi]),
            Store::V2 => text::fill(STORE_V2@, seq![dst, lo, hi]),
            Store::V2Cs => text::fill(STORE_V2CS@, seq![dst, lo, hi]),
        }
    }

    /// The instructions that store `lo` at `dst` and `hi` behind it.
    pub fn pair(self, dst: &str, lo: &str, hi: &str) -> (r: String)
        ensures
            r@ == self.pair_text(dst@, lo@, hi@),
    {
        match self {
            Store::Scalar => text::expand3(STORE_SCALAR, dst, lo, hi),
            Store::V2 => text::expand3(STORE_V2, dst, lo, hi),
            Store::V2Cs => text::expand3(STORE_V2CS, dst, lo, hi),
        }
    }
}

} // verus!
