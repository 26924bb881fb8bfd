//! The compute-bound kernel that measures the tensor cores' own rate.
use vstd::prelude::*;
use vstd::string::*;

use crate::ptx_wmma::parts;
use crate::text;

verus! {

/// Independent accumulator fragments that the kernel keeps in flight.
pub const ROOFLINE_ACC: usize = 4;

pub const OPEN: &'static str = ".visible .entry wmma_roofline_f16(
    .param .u32 pIters,
    .param .u64 pA,
    .param .u64 pB,
    .param .u64 pC
)
{
    .reg .pred %p0;
    .reg .b32 %iters,%i,%ld;
";

pub const C_REGS: &'static str = "%c#0_0,%c#0_1,%c#0_2,%c#0_3,%c#0_4,%c#0_5,%c#0_6,%c#0_7,";

pub const A_REG: &'static str = "%a#0,";

pub const B_REG: &'static str = "%b#0,";

pub const LOADS: &'static str = "    .reg .b64 %A,%B,%C,%off,%cptr;
    ld.param.u32 %iters,[pIters];
    ld.param.u64 %A,[pA];
    ld.param.u64 %B,[pB];
    ld.param.u64 %C,[pC];
    cvta.to.global.u64 %A,%A;
    cvta.to.global.u64 %B,%B;
    cvta.to.global.u64 %C,%C;
    mov.u32 %ld,16;
    wmma.load.a.sync.aligned.m16n16k16.row.f16 #0, [%A], %ld;
    wmma.load.b.sync.aligned.m16n16k16.col.f16 #1, [%B], %ld;
";

pub const C_ZERO: &'static str = "    mov.f32 %c#0_0,0f00000000;
    mov.f32 %c#0_1,0f00000000;
    mov.f32 %c#0_2,0f00000000;
    mov.f32 %c#0_3,0f00000000;
    mov.f32 %c#0_4,0f00000000;
    mov.f32 %c#0_5,0f00000000;
    mov.f32 %c#0_6,0f00000000;
    mov.f32 %c#0_7,0f00000000;
";

pub const LOOP_HEAD: &'static str = "    mov.u32 %i,0;
RLOOP:
    setp.ge.u32 %p0,%i,%iters;
    @%p0 bra REND;
";

pub const MMA: &'static str = "    wmma.mma.sync.aligned.row.col.m16n16k16.f32.f32 #2, #3, #4, #2;
";

pub const LOOP_TAIL: &'static str = "    add.u32 %i,%i,1;
    bra RLOOP;
REND:
";

/// Register `#0` of the other accumulators added to the first's.
pub const SUM: &'static str = "    add.f32 %c0_#0,%c0_#0,%c1_#0;
    add.f32 %c0_#0,%c0_#0,%c2_#0;
    add.f32 %c0_#0,%c0_#0,%c3_#0;
";

pub const STORE: &'static str = "    mov.u32 %i,%ctaid.x;
    mul.wide.u32 %off,%i,1024;
    add.s64 %cptr,%C,%off;
    wmma.store.d.sync.aligned.m16n16k16.row.f32 [%cptr], #0, %ld;
    ret;
}
";

/// The kernel of [`roofline_entry`].
pub open spec fn roofline_text() -> Seq<char> {
    let ra = parts::veclist_text("a"@, 8);
    let rb = parts::veclist_text("b"@, 8);
    OPEN@ + text::fill(
        parts::F32_REGS@,
        seq![text::without_last(text::each(C_REGS@, ROOFLINE_ACC as nat, 0, Seq::empty()))],
    ) + text::fill(
        parts::B32_REGS@,
        seq![
            text::without_last(
                text::each(A_REG@, 8, 0, Seq::empty()) + text::each(B_REG@, 8, 0, Seq::empty()),
            ),
        ],
    ) + text::fill(LOADS@, seq![ra, rb]) + text::each(
        C_ZERO@,
        ROOFLINE_ACC as nat,
        0,
        Seq::empty(),
    ) + LOOP_HEAD@ + parts::each_fragment(
        MMA@,
        "c"@,
        ROOFLINE_ACC as nat,
        8,
        0,
        seq![ra, rb],
    ) + LOOP_TAIL@ + text::each(SUM@, 8, 0, Seq::empty()) + text::fill(
        STORE@,
        seq![parts::veclist_text("c0_"@, 8)],
    )
}

/// A compute-bound fp16 tensor-core roofline kernel: one fragment load, `iters` rounds of
/// `ROOFLINE_ACC` independent multiplications, one store.
pub fn roofline_entry() -> (s: String)
    ensures
        s@ == roofline_text(),
{
    let ra = parts::veclist("a", 8);
    let rb = parts::veclist("b", 8);
    let mut s = String::from_str(OPEN);
    s.append(
        &text::expand1(parts::F32_REGS, &text::trimmed(&text::each_0(C_REGS, ROOFLINE_ACC, 0))),
    );
    let mut list = text::each_0(A_REG, 8, 0);
    list.append(&text::each_0(B_REG, 8, 0));
    s.append(&text::expand1(parts::B32_REGS, &text::trimmed(&list)));
    s.append(&text::expand2(LOADS, &ra, &rb));
    s.append(&text::each_0(C_ZERO, ROOFLINE_ACC, 0));
    s.append(LOOP_HEAD);
    s.append(&parts::each_fragment_2(MMA, "c", ROOFLINE_ACC, 8, 0, &ra, &rb));
    s.append(LOOP_TAIL);
    s.append(&text::each_0(SUM, 8, 0));
    s.append(&text::expand1(STORE, &parts::veclist("c0_", 8)));
    s
}

} // verus!
