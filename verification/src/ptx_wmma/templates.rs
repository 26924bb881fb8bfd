//! The templates of the kernels, read character by character: see [`scan`].
use vstd::prelude::*;

use crate::ptx_wmma::act;
use crate::ptx_wmma::mma;
use crate::ptx_wmma::mma_pipe;
use crate::ptx_wmma::parts;
use crate::ptx_wmma::pipeline;
use crate::ptx_wmma::plain;
use crate::ptx_wmma::scan;
use crate::ptx_wmma::scan::Kind;
use crate::ptx_wmma::smem;
use crate::smem_mode;

verus! {

/// How [`parts::OPEN`] is read.
pub proof fn lemma_parts_open()
    ensures
        scan::scan(
            parts::OPEN@,
            16,
            scan::neutral(),
            seq![Kind::Name, Kind::Ends(scan::neutral()), Kind::Ends(scan::neutral())],
        ) == scan::neutral(),
{
    reveal_strlit(
        ".visible .entry #0(
    .param .u32 pM,
    .param .u32 pN,
    .param .u32 pK,
    .param .u64 pA,
    .param .u64 pB,
    .param .u64 pC#1#2
)
",
    );
    let t = parts::OPEN@;
    let k = seq![Kind::Name, Kind::Ends(scan::neutral()), Kind::Ends(scan::neutral())];
    scan::lemma_hole(k, '0', Kind::Name);
    scan::lemma_hole(k, '1', Kind::Ends(scan::neutral()));
    scan::lemma_hole(k, '2', Kind::Ends(scan::neutral()));
    assert(scan::span(t, 16, 60, scan::neutral(), k) == scan::neutral()) by {
        reveal_with_fuel(scan::span, 45);
    }
    scan::lemma_span(t, 16, 60, scan::neutral(), scan::neutral(), k);
    assert(scan::span(t, 60, 100, scan::neutral(), k) == scan::neutral()) by {
        reveal_with_fuel(scan::span, 41);
    }
    scan::lemma_span(t, 60, 100, scan::neutral(), scan::neutral(), k);
    assert(scan::span(t, 100, 145, scan::neutral(), k) == scan::neutral()) by {
        reveal_with_fuel(scan::span, 46);
    }
    scan::lemma_span(t, 100, 145, scan::neutral(), scan::neutral(), k);
    reveal(scan::scan);
}

/// How [`parts::BIAS_PARAM`] is read.
pub proof fn lemma_parts_bias_param()
    ensures
        scan::tidy(parts::BIAS_PARAM@),
{
    reveal_strlit(
        ",
    .param .u64 pBias",
    );
    let t = parts::BIAS_PARAM@;
    let k = Seq::<Kind>::empty();
    assert(scan::span(t, 0, 23, scan::neutral(), k) == scan::neutral()) by {
        reveal_with_fuel(scan::span, 24);
    }
    scan::lemma_span(t, 0, 23, scan::neutral(), scan::neutral(), k);
    reveal(scan::scan);
    scan::lemma_tidy_constant(t);
}

/// How [`parts::LOAD_DIMS`] is read.
pub proof fn lemma_parts_load_dims()
    ensures
        scan::tidy(parts::LOAD_DIMS@),
{
    reveal_strlit(
        "    ld.param.u32 %M,[pM];
    ld.param.u32 %N,[pN];
    ld.param.u32 %K,[pK];
",
    );
    let t = parts::LOAD_DIMS@;
    let k = Seq::<Kind>::empty();
    assert(scan::span(t, 0, 26, scan::neutral(), k) == scan::neutral()) by {
        reveal_with_fuel(scan::span, 27);
    }
    scan::lemma_span(t, 0, 26, scan::neutral(), scan::neutral(), k);
    assert(scan::span(t, 26, 52, scan::neutral(), k) == scan::neutral()) by {
        reveal_with_fuel(scan::span, 27);
    }
    scan::lemma_span(t, 26, 52, scan::neutral(), scan::neutral(), k);
    assert(scan::span(t, 52, 78, scan::neutral(), k) == scan::neutral()) by {
        reveal_with_fuel(scan::span, 27);
    }
    scan::lemma_span(t, 52, 78, scan::neutral(), scan::neutral(), k);
    reveal(scan::scan);
    scan::lemma_tidy_constant(t);
}

/// How [`parts::LOAD_POINTERS`] is read.
pub proof fn lemma_parts_load_pointers()
    ensures
        scan::tidy(parts::LOAD_POINTERS@),
{
    reveal_strlit(
        "    ld.param.u64 %A,[pA];
    ld.param.u64 %B,[pB];
    ld.param.u64 %C,[pC];
    cvta.to.global.u64 %A,%A;
    cvta.to.global.u64 %B,%B;
    cvta.to.global.u64 %C,%C;
",
    );
    let t = parts::LOAD_POINTERS@;
    let k = Seq::<Kind>::empty();
    assert(scan::span(t, 0, 26, scan::neutral(), k) == scan::neutral()) by {
        reveal_with_fuel(scan::span, 27);
    }
    scan::lemma_span(t, 0, 26, scan::neutral(), scan::neutral(), k);
    assert(scan::span(t, 26, 52, scan::neutral(), k) == scan::neutral()) by {
        reveal_with_fuel(scan::span, 27);
    }
    scan::lemma_span(t, 26, 52, scan::neutral(), scan::neutral(), k);
    assert(scan::span(t, 52, 78, scan::neutral(), k) == scan::neutral()) by {
        reveal_with_fuel(scan::span, 27);
    }
    scan::lemma_span(t, 52, 78, scan::neutral(), scan::neutral(), k);
    assert(scan::span(t, 78, 108, scan::neutral(), k) == scan::neutral()) by {
        reveal_with_fuel(scan::span, 31);
    }
    scan::lemma_span(t, 78, 108, scan::neutral(), scan::neutral(), k);
    assert(scan::span(t, 108, 138, scan::neutral(), k) == scan::neutral()) by {
        reveal_with_fuel(scan::span, 31);
    }
    scan::lemma_span(t, 108, 138, scan::neutral(), scan::neutral(), k);
    assert(scan::span(t, 138, 168, scan::neutral(), k) == scan::neutral()) by {
        reveal_with_fuel(scan::span, 31);
    }
    scan::lemma_span(t, 138, 168, scan::neutral(), scan::neutral(), k);
    reveal(scan::scan);
    scan::lemma_tidy_constant(t);
}

/// How [`parts::CLOSE`] is read.
pub proof fn lemma_parts_close()
    ensures
        scan::tidy(parts::CLOSE@),
{
    reveal_strlit(
        "    ret;
}
",
    );
    let t = parts::CLOSE@;
    let k = Seq::<Kind>::empty();
    assert(scan::span(t, 0, 11, scan::neutral(), k) == scan::neutral()) by {
        reveal_with_fuel(scan::span, 12);
    }
    scan::lemma_span(t, 0, 11, scan::neutral(), scan::neutral(), k);
    reveal(scan::scan);
    scan::lemma_tidy_constant(t);
}

/// How [`parts::FIRST_CHUNK`] is read.
pub proof fn lemma_parts_first_chunk()
    ensures
        scan::tidy(parts::FIRST_CHUNK@),
{
    reveal_strlit(
        "    mov.u32 %e,%tix;
",
    );
    let t = parts::FIRST_CHUNK@;
    let k = Seq::<Kind>::empty();
    assert(scan::span(t, 0, 21, scan::neutral(), k) == scan::neutral()) by {
        reveal_with_fuel(scan::span, 22);
    }
    scan::lemma_span(t, 0, 21, scan::neutral(), scan::neutral(), k);
    reveal(scan::scan);
    scan::lemma_tidy_constant(t);
}

/// How [`parts::F32_REGS`] is read.
pub proof fn lemma_parts_f32_regs(end: int)
    requires
        scan::inside(end),
    ensures
        scan::scan(parts::F32_REGS@, 0, scan::neutral(), seq![Kind::Ends(end)]) == scan::neutral(),
{
    reveal_strlit(
        "    .reg .f32 #0;
",
    );
    let t = parts::F32_REGS@;
    let k = seq![Kind::Ends(end)];
    scan::lemma_hole(k, '0', Kind::Ends(end));
    assert(scan::span(t, 0, 18, scan::neutral(), k) == scan::neutral()) by {
        reveal_with_fuel(scan::span, 19);
    }
    scan::lemma_span(t, 0, 18, scan::neutral(), scan::neutral(), k);
    reveal(scan::scan);
}

/// How [`parts::B32_REGS`] is read.
pub proof fn lemma_parts_b32_regs(end: int)
    requires
        scan::inside(end),
    ensures
        scan::scan(parts::B32_REGS@, 0, scan::neutral(), seq![Kind::Ends(end)]) == scan::neutral(),
{
    reveal_strlit(
        "    .reg .b32 #0;
",
    );
    let t = parts::B32_REGS@;
    let k = seq![Kind::Ends(end)];
    scan::lemma_hole(k, '0', Kind::Ends(end));
    assert(scan::span(t, 0, 18, scan::neutral(), k) == scan::neutral()) by {
        reveal_with_fuel(scan::span, 19);
    }
    scan::lemma_span(t, 0, 18, scan::neutral(), scan::neutral(), k);
    reveal(scan::scan);
}

/// How [`parts::TILE_ORIGIN`] is read.
pub proof fn lemma_parts_tile_origin()
    ensures
        scan::scan(
            parts::TILE_ORIGIN@,
            0,
            scan::neutral(),
            seq![Kind::Calm, Kind::Calm],
        ) == scan::neutral(),
{
    reveal_strlit(
        "    mov.u32 %tmp,%ctaid.y;
    mul.lo.s32 %baseRow,%tmp,#0;
    mov.u32 %tmp,%ctaid.x;
    mul.lo.s32 %baseCol,%tmp,#1;
",
    );
    let t = parts::TILE_ORIGIN@;
    let k = seq![Kind::Calm, Kind::Calm];
    scan::lemma_hole(k, '0', Kind::Calm);
    scan::lemma_hole(k, '1', Kind::Calm);
    assert(scan::span(t, 0, 27, scan::neutral(), k) == scan::neutral()) by {
        reveal_with_fuel(scan::span, 28);
    }
    scan::lemma_span(t, 0, 27, scan::neutral(), scan::neutral(), k);
    assert(scan::span(t, 27, 60, scan::neutral(), k) == scan::neutral()) by {
        reveal_with_fuel(scan::span, 34);
    }
    scan::lemma_span(t, 27, 60, scan::neutral(), scan::neutral(), k);
    assert(scan::span(t, 60, 87, scan::neutral(), k) == scan::neutral()) by {
        reveal_with_fuel(scan::span, 28);
    }
    scan::lemma_span(t, 60, 87, scan::neutral(), scan::neutral(), k);
    assert(scan::span(t, 87, 120, scan::neutral(), k) == scan::neutral()) by {
        reveal_with_fuel(scan::span, 34);
    }
    scan::lemma_span(t, 87, 120, scan::neutral(), scan::neutral(), k);
    reveal(scan::scan);
}

/// How [`parts::RASTER_ORIGIN`] is read.
pub proof fn lemma_parts_raster_origin()
    ensures
        scan::scan(
            parts::RASTER_ORIGIN@,
            0,
            scan::neutral(),
            seq![Kind::Calm, Kind::Calm, Kind::Calm, Kind::Calm, Kind::Calm, Kind::Calm],
        ) == scan::neutral(),
{
    reveal_strlit(
        "    mov.u32 %lin,%ctaid.x;
    shr.u32 %tn,%N,#3;
    shr.u32 %tm,%M,#4;
    mul.lo.s32 %gsz,%tm,#2;
    div.u32 #5,%lin,%gsz;
    rem.u32 %rem,%lin,%gsz;
    mul.lo.s32 %col0,#5,#2;
    sub.u32 %gw,%tn,%col0;
    min.u32 %gw,%gw,#2;
    div.u32 %trow,%rem,%gw;
    rem.u32 %tcol,%rem,%gw;
    add.u32 %tcol,%tcol,%col0;
    mul.lo.s32 %baseRow,%trow,#0;
    mul.lo.s32 %baseCol,%tcol,#1;
",
    );
    let t = parts::RASTER_ORIGIN@;
    let k = seq![Kind::Calm, Kind::Calm, Kind::Calm, Kind::Calm, Kind::Calm, Kind::Calm];
    scan::lemma_hole(k, '0', Kind::Calm);
    scan::lemma_hole(k, '1', Kind::Calm);
    scan::lemma_hole(k, '2', Kind::Calm);
    scan::lemma_hole(k, '3', Kind::Calm);
    scan::lemma_hole(k, '4', Kind::Calm);
    scan::lemma_hole(k, '5', Kind::Calm);
    assert(scan::span(t, 0, 50, scan::neutral(), k) == scan::neutral()) by {
        reveal_with_fuel(scan::span, 51);
    }
    scan::lemma_span(t, 0, 50, scan::neutral(), scan::neutral(), k);
    assert(scan::span(t, 50, 73, scan::neutral(), k) == scan::neutral()) by {
        reveal_with_fuel(scan::span, 24);
    }
    scan::lemma_span(t, 50, 73, scan::neutral(), scan::neutral(), k);
    assert(scan::span(t, 73, 101, scan::neutral(), k) == scan::neutral()) by {
        reveal_with_fuel(scan::span, 29);
    }
    scan::lemma_span(t, 73, 101, scan::neutral(), scan::neutral(), k);
    assert(scan::span(t, 101, 127, scan::neutral(), k) == scan::neutral()) by {
        reveal_with_fuel(scan::span, 27);
    }
    scan::lemma_span(t, 101, 127, scan::neutral(), scan::neutral(), k);
    assert(scan::span(t, 127, 155, scan::neutral(), k) == scan::neutral()) by {
        reveal_with_fuel(scan::span, 29);
    }
    scan::lemma_span(t, 127, 155, scan::neutral(), scan::neutral(), k);
    assert(scan::span(t, 155, 183, scan::neutral(), k) == scan::neutral()) by {
        reveal_with_fuel(scan::span, 29);
    }
    scan::lemma_span(t, 155, 183, scan::neutral(), scan::neutral(), k);
    assert(scan::span(t, 183, 210, scan::neutral(), k) == scan::neutral()) by {
        reveal_with_fuel(scan::span, 28);
    }
    scan::lemma_span(t, 183, 210, scan::neutral(), scan::neutral(), k);
    assert(scan::span(t, 210, 234, scan::neutral(), k) == scan::neutral()) by {
        reveal_with_fuel(scan::span, 25);
    }
    scan::lemma_span(t, 210, 234, scan::neutral(), scan::neutral(), k);
    assert(scan::span(t, 234, 262, scan::neutral(), k) == scan::neutral()) by {
        reveal_with_fuel(scan::span, 29);
    }
    scan::lemma_span(t, 234, 262, scan::neutral(), scan::neutral(), k);
    assert(scan::span(t, 262, 290, scan::neutral(), k) == scan::neutral()) by {
        reveal_with_fuel(scan::span, 29);
    }
    scan::lemma_span(t, 262, 290, scan::neutral(), scan::neutral(), k);
    assert(scan::span(t, 290, 321, scan::neutral(), k) == scan::neutral()) by {
        reveal_with_fuel(scan::span, 32);
    }
    scan::lemma_span(t, 290, 321, scan::neutral(), scan::neutral(), k);
    assert(scan::span(t, 321, 355, scan::neutral(), k) == scan::neutral()) by {
        reveal_with_fuel(scan::span, 35);
    }
    scan::lemma_span(t, 321, 355, scan::neutral(), scan::neutral(), k);
    assert(scan::span(t, 355, 389, scan::neutral(), k) == scan::neutral()) by {
        reveal_with_fuel(scan::span, 35);
    }
    scan::lemma_span(t, 355, 389, scan::neutral(), scan::neutral(), k);
    reveal(scan::scan);
}

/// How [`parts::LOOP_HEAD`] is read.
pub proof fn lemma_parts_loop_head()
    ensures
        scan::scan(parts::LOOP_HEAD@, 0, scan::neutral(), seq![Kind::Name]) == scan::neutral(),
{
    reveal_strlit(
        "KLOOP_#0:
    setp.ge.u32 %p0,%kt,%K;
    @%p0 bra KEND_#0;
",
    );
    let t = parts::LOOP_HEAD@;
    let k = seq![Kind::Name];
    scan::lemma_hole(k, '0', Kind::Name);
    assert(scan::span(t, 0, 38, scan::neutral(), k) == scan::neutral()) by {
        reveal_with_fuel(scan::span, 39);
    }
    scan::lemma_span(t, 0, 38, scan::neutral(), scan::neutral(), k);
    assert(scan::span(t, 38, 60, scan::neutral(), k) == scan::neutral()) by {
        reveal_with_fuel(scan::span, 23);
    }
    scan::lemma_span(t, 38, 60, scan::neutral(), scan::neutral(), k);
    reveal(scan::scan);
}

/// How [`parts::LOOP_TAIL`] is read.
pub proof fn lemma_parts_loop_tail()
    ensures
        scan::scan(
            parts::LOOP_TAIL@,
            0,
            scan::neutral(),
            seq![Kind::Name, Kind::Calm],
        ) == scan::neutral(),
{
    reveal_strlit(
        "    add.u32 %kt,%kt,#1;
    bra KLOOP_#0;
KEND_#0:
",
    );
    let t = parts::LOOP_TAIL@;
    let k = seq![Kind::Name, Kind::Calm];
    scan::lemma_hole(k, '0', Kind::Name);
    scan::lemma_hole(k, '1', Kind::Calm);
    assert(scan::span(t, 0, 42, scan::neutral(), k) == scan::neutral()) by {
        reveal_with_fuel(scan::span, 43);
    }
    scan::lemma_span(t, 0, 42, scan::neutral(), scan::neutral(), k);
    assert(scan::span(t, 42, 51, scan::neutral(), k) == scan::neutral()) by {
        reveal_with_fuel(scan::span, 10);
    }
    scan::lemma_span(t, 42, 51, scan::neutral(), scan::neutral(), k);
    reveal(scan::scan);
}

/// How [`parts::NEXT_CHUNK`] is read.
pub proof fn lemma_parts_next_chunk()
    ensures
        scan::scan(parts::NEXT_CHUNK@, 0, scan::neutral(), seq![Kind::Calm]) == scan::neutral(),
{
    reveal_strlit(
        "    add.u32 %e,%tix,#0;
",
    );
    let t = parts::NEXT_CHUNK@;
    let k = seq![Kind::Calm];
    scan::lemma_hole(k, '0', Kind::Calm);
    assert(scan::span(t, 0, 24, scan::neutral(), k) == scan::neutral()) by {
        reveal_with_fuel(scan::span, 25);
    }
    scan::lemma_span(t, 0, 24, scan::neutral(), scan::neutral(), k);
    reveal(scan::scan);
}

/// How [`parts::ACC_REGS`] is read.
pub proof fn lemma_parts_acc_regs()
    ensures
        scan::scan(
            parts::ACC_REGS@,
            0,
            scan::neutral(),
            seq![Kind::Calm, Kind::Calm, Kind::Calm, Kind::Calm],
        ) == scan::neutral(),
{
    reveal_strlit("%c#0_#1_0,%c#0_#1_1,%c#0_#1_2,%c#0_#1_3,%c#0_#1_4,%c#0_#1_5,%c#0_#1_6,%c#0_#1_7,");
    let t = parts::ACC_REGS@;
    let k = seq![Kind::Calm, Kind::Calm, Kind::Calm, Kind::Calm];
    scan::lemma_hole(k, '0', Kind::Calm);
    scan::lemma_hole(k, '1', Kind::Calm);
    assert(scan::span(t, 0, 50, scan::neutral(), k) == scan::neutral()) by {
        reveal_with_fuel(scan::span, 51);
    }
    scan::lemma_span(t, 0, 50, scan::neutral(), scan::neutral(), k);
    assert(scan::span(t, 50, 80, scan::neutral(), k) == scan::neutral()) by {
        reveal_with_fuel(scan::span, 31);
    }
    scan::lemma_span(t, 50, 80, scan::neutral(), scan::neutral(), k);
    reveal(scan::scan);
}

/// How [`parts::ACC_ZERO`] is read.
pub proof fn lemma_parts_acc_zero()
    ensures
        scan::scan(
            parts::ACC_ZERO@,
            0,
            scan::neutral(),
            seq![Kind::Calm, Kind::Calm, Kind::Calm, Kind::Calm],
        ) == scan::neutral(),
{
    reveal_strlit(
        "    mov.f32 %c#0_#1_0,0f00000000;
    mov.f32 %c#0_#1_1,0f00000000;
    mov.f32 %c#0_#1_2,0f00000000;
    mov.f32 %c#0_#1_3,0f00000000;
    mov.f32 %c#0_#1_4,0f00000000;
    mov.f32 %c#0_#1_5,0f00000000;
    mov.f32 %c#0_#1_6,0f00000000;
    mov.f32 %c#0_#1_7,0f00000000;
",
    );
    let t = parts::ACC_ZERO@;
    let k = seq![Kind::Calm, Kind::Calm, Kind::Calm, Kind::Calm];
    scan::lemma_hole(k, '0', Kind::Calm);
    scan::lemma_hole(k, '1', Kind::Calm);
    assert(scan::span(t, 0, 34, scan::neutral(), k) == scan::neutral()) by {
        reveal_with_fuel(scan::span, 35);
    }
    scan::lemma_span(t, 0, 34, scan::neutral(), scan::neutral(), k);
    assert(scan::span(t, 34, 68, scan::neutral(), k) == scan::neutral()) by {
        reveal_with_fuel(scan::span, 35);
    }
    scan::lemma_span(t, 34, 68, scan::neutral(), scan::neutral(), k);
    assert(scan::span(t, 68, 102, scan::neutral(), k) == scan::neutral()) by {
        reveal_with_fuel(scan::span, 35);
    }
    scan::lemma_span(t, 68, 102, scan::neutral(), scan::neutral(), k);
    assert(scan::span(t, 102, 136, scan::neutral(), k) == scan::neutral()) by {
        reveal_with_fuel(scan::span, 35);
    }
    scan::lemma_span(t, 102, 136, scan::neutral(), scan::neutral(), k);
    assert(scan::span(t, 136, 170, scan::neutral(), k) == scan::neutral()) by {
        reveal_with_fuel(scan::span, 35);
    }
    scan::lemma_span(t, 136, 170, scan::neutral(), scan::neutral(), k);
    assert(scan::span(t, 170, 204, scan::neutral(), k) == scan::neutral()) by {
        reveal_with_fuel(scan::span, 35);
    }
    scan::lemma_span(t, 170, 204, scan::neutral(), scan::neutral(), k);
    assert(scan::span(t, 204, 238, scan::neutral(), k) == scan::neutral()) by {
        reveal_with_fuel(scan::span, 35);
    }
    scan::lemma_span(t, 204, 238, scan::neutral(), scan::neutral(), k);
    assert(scan::span(t, 238, 272, scan::neutral(), k) == scan::neutral()) by {
        reveal_with_fuel(scan::span, 35);
    }
    scan::lemma_span(t, 238, 272, scan::neutral(), scan::neutral(), k);
    reveal(scan::scan);
}

/// How [`parts::A_REG`] is read.
pub proof fn lemma_parts_a_reg()
    ensures
        scan::scan(
            parts::A_REG@,
            0,
            scan::neutral(),
            seq![Kind::Calm, Kind::Calm, Kind::Calm, Kind::Calm],
        ) == scan::neutral(),
{
    reveal_strlit("%a#0_#1,");
    let t = parts::A_REG@;
    let k = seq![Kind::Calm, Kind::Calm, Kind::Calm, Kind::Calm];
    scan::lemma_hole(k, '0', Kind::Calm);
    scan::lemma_hole(k, '1', Kind::Calm);
    assert(scan::span(t, 0, 8, scan::neutral(), k) == scan::neutral()) by {
        reveal_with_fuel(scan::span, 9);
    }
    scan::lemma_span(t, 0, 8, scan::neutral(), scan::neutral(), k);
    reveal(scan::scan);
}

/// How [`parts::B_REG`] is read.
pub proof fn lemma_parts_b_reg()
    ensures
        scan::scan(
            parts::B_REG@,
            0,
            scan::neutral(),
            seq![Kind::Calm, Kind::Calm, Kind::Calm, Kind::Calm],
        ) == scan::neutral(),
{
    reveal_strlit("%b#0_#1,");
    let t = parts::B_REG@;
    let k = seq![Kind::Calm, Kind::Calm, Kind::Calm, Kind::Calm];
    scan::lemma_hole(k, '0', Kind::Calm);
    scan::lemma_hole(k, '1', Kind::Calm);
    assert(scan::span(t, 0, 8, scan::neutral(), k) == scan::neutral()) by {
        reveal_with_fuel(scan::span, 9);
    }
    scan::lemma_span(t, 0, 8, scan::neutral(), scan::neutral(), k);
    reveal(scan::scan);
}

/// How [`parts::VECTOR_REG`] is read.
pub proof fn lemma_parts_vector_reg()
    ensures
        scan::scan(
            parts::VECTOR_REG@,
            0,
            scan::neutral(),
            seq![Kind::Calm, Kind::Calm, Kind::Ends(scan::under())],
        ) == scan::neutral(),
{
    reveal_strlit("%#2#0,");
    let t = parts::VECTOR_REG@;
    let k = seq![Kind::Calm, Kind::Calm, Kind::Ends(scan::under())];
    scan::lemma_hole(k, '0', Kind::Calm);
    scan::lemma_hole(k, '2', Kind::Ends(scan::under()));
    assert(scan::span(t, 0, 6, scan::neutral(), k) == scan::neutral()) by {
        reveal_with_fuel(scan::span, 7);
    }
    scan::lemma_span(t, 0, 6, scan::neutral(), scan::neutral(), k);
    reveal(scan::scan);
}

/// How [`parts::VECTOR`] is read.
pub proof fn lemma_parts_vector(at: int, end: int)
    requires
        scan::inside(at),
        scan::inside(end),
    ensures
        scan::scan(parts::VECTOR@, 0, at, seq![Kind::Ends(end)]) == scan::neutral(),
{
    reveal_strlit("{#0}");
    let t = parts::VECTOR@;
    let k = seq![Kind::Ends(end)];
    scan::lemma_hole(k, '0', Kind::Ends(end));
    assert(scan::span(t, 0, 4, at, k) == scan::neutral()) by {
        reveal_with_fuel(scan::span, 5);
    }
    scan::lemma_span(t, 0, 4, at, scan::neutral(), k);
    reveal(scan::scan);
}

/// How [`parts::FRAGMENT_NAME`] is read.
pub proof fn lemma_parts_fragment_name()
    ensures
        scan::scan(
            parts::FRAGMENT_NAME@,
            0,
            scan::neutral(),
            seq![Kind::Ends(scan::neutral()), Kind::Calm],
        ) == scan::under(),
{
    reveal_strlit("#0#1_");
    let t = parts::FRAGMENT_NAME@;
    let k = seq![Kind::Ends(scan::neutral()), Kind::Calm];
    scan::lemma_hole(k, '0', Kind::Ends(scan::neutral()));
    scan::lemma_hole(k, '1', Kind::Calm);
    assert(scan::span(t, 0, 5, scan::neutral(), k) == scan::under()) by {
        reveal_with_fuel(scan::span, 6);
    }
    scan::lemma_span(t, 0, 5, scan::neutral(), scan::under(), k);
    reveal(scan::scan);
}

/// How [`parts::MMA_TYPE`] is read.
pub proof fn lemma_parts_mma_type(at: int)
    requires
        scan::inside(at),
    ensures
        scan::scan(parts::MMA_TYPE@, 0, at, seq![Kind::Type]) == scan::neutral(),
{
    reveal_strlit("f32.#0.#0.f32");
    let t = parts::MMA_TYPE@;
    let k = seq![Kind::Type];
    scan::lemma_hole(k, '0', Kind::Type);
    assert(scan::span(t, 0, 13, at, k) == scan::neutral()) by {
        reveal_with_fuel(scan::span, 14);
    }
    scan::lemma_span(t, 0, 13, at, scan::neutral(), k);
    reveal(scan::scan);
}

/// How [`parts::WMMA`] is read.
pub proof fn lemma_parts_wmma()
    ensures
        scan::scan(
            parts::WMMA@,
            0,
            scan::neutral(),
            seq![Kind::Calm, Kind::Calm, Kind::Calm, Kind::Calm, Kind::Calm],
        ) == scan::neutral(),
{
    reveal_strlit(
        "    wmma.mma.sync.aligned.row.col.m16n16k16.#2 {%c#0_#1_0,%c#0_#1_1,%c#0_#1_2,%c#0_#1_3,%c#0_#1_4,%c#0_#1_5,%c#0_#1_6,%c#0_#1_7}, #3, #4, {%c#0_#1_0,%c#0_#1_1,%c#0_#1_2,%c#0_#1_3,%c#0_#1_4,%c#0_#1_5,%c#0_#1_6,%c#0_#1_7};
",
    );
    let t = parts::WMMA@;
    let k = seq![Kind::Calm, Kind::Calm, Kind::Calm, Kind::Calm, Kind::Calm];
    scan::lemma_hole(k, '0', Kind::Calm);
    scan::lemma_hole(k, '1', Kind::Calm);
    scan::lemma_hole(k, '2', Kind::Calm);
    scan::lemma_hole(k, '3', Kind::Calm);
    scan::lemma_hole(k, '4', Kind::Calm);
    assert(scan::span(t, 0, 47, scan::neutral(), k) == scan::neutral()) by {
        reveal_with_fuel(scan::span, 48);
    }
    scan::lemma_span(t, 0, 47, scan::neutral(), scan::neutral(), k);
    assert(scan::span(t, 47, 88, scan::neutral(), k) == scan::neutral()) by {
        reveal_with_fuel(scan::span, 42);
    }
    scan::lemma_span(t, 47, 88, scan::neutral(), scan::neutral(), k);
    assert(scan::span(t, 88, 138, scan::neutral(), k) == scan::neutral()) by {
        reveal_with_fuel(scan::span, 51);
    }
    scan::lemma_span(t, 88, 138, scan::neutral(), scan::neutral(), k);
    assert(scan::span(t, 138, 179, scan::neutral(), k) == scan::neutral()) by {
        reveal_with_fuel(scan::span, 42);
    }
    scan::lemma_span(t, 138, 179, scan::neutral(), scan::neutral(), k);
    assert(scan::span(t, 179, 221, scan::neutral(), k) == scan::neutral()) by {
        reveal_with_fuel(scan::span, 43);
    }
    scan::lemma_span(t, 179, 221, scan::neutral(), scan::neutral(), k);
    reveal(scan::scan);
}

/// How [`pipeline::PROLOGUE`] is read.
pub proof fn lemma_pipeline_prologue()
    ensures
        scan::scan(
            pipeline::PROLOGUE@,
            0,
            scan::neutral(),
            seq![
                Kind::Name,
                Kind::Calm,
                Kind::Calm,
                Kind::Calm,
                Kind::Calm,
                Kind::Ends(scan::neutral()),
            ],
        ) == scan::neutral(),
{
    reveal_strlit(
        "    mov.u32 %kcol,#2;
    mov.u32 %bufwA,#3;
    mov.u32 %bufwB,#4;
    setp.lt.u32 %pmore,%kcol,%K;
    @!%pmore bra PRO_#0_#1;
#5PRO_#0_#1:
    cp.async.commit_group;
",
    );
    let t = pipeline::PROLOGUE@;
    let k = seq![
        Kind::Name,
        Kind::Calm,
        Kind::Calm,
        Kind::Calm,
        Kind::Calm,
        Kind::Ends(scan::neutral()),
    ];
    scan::lemma_hole(k, '0', Kind::Name);
    scan::lemma_hole(k, '1', Kind::Calm);
    scan::lemma_hole(k, '2', Kind::Calm);
    scan::lemma_hole(k, '3', Kind::Calm);
    scan::lemma_hole(k, '4', Kind::Calm);
    scan::lemma_hole(k, '5', Kind::Ends(scan::neutral()));
    assert(scan::span(t, 0, 45, scan::neutral(), k) == scan::neutral()) by {
        reveal_with_fuel(scan::span, 46);
    }
    scan::lemma_span(t, 0, 45, scan::neutral(), scan::neutral(), k);
    assert(scan::span(t, 45, 68, scan::neutral(), k) == scan::neutral()) by {
        reveal_with_fuel(scan::span, 24);
    }
    scan::lemma_span(t, 45, 68, scan::neutral(), scan::neutral(), k);
    assert(scan::span(t, 68, 101, scan::neutral(), k) == scan::neutral()) by {
        reveal_with_fuel(scan::span, 34);
    }
    scan::lemma_span(t, 68, 101, scan::neutral(), scan::neutral(), k);
    assert(scan::span(t, 101, 142, scan::neutral(), k) == scan::neutral()) by {
        reveal_with_fuel(scan::span, 42);
    }
    scan::lemma_span(t, 101, 142, scan::neutral(), scan::neutral(), k);
    assert(scan::span(t, 142, 169, scan::neutral(), k) == scan::neutral()) by {
        reveal_with_fuel(scan::span, 28);
    }
    scan::lemma_span(t, 142, 169, scan::neutral(), scan::neutral(), k);
    reveal(scan::scan);
}

/// How [`pipeline::RING_START`] is read.
pub proof fn lemma_pipeline_ring_start()
    ensures
        scan::scan(
            pipeline::RING_START@,
            0,
            scan::neutral(),
            seq![Kind::Calm, Kind::Calm],
        ) == scan::neutral(),
{
    reveal_strlit(
        "    mov.u32 %bufcA,0;
    mov.u32 %bufcB,0;
    mov.u32 %bufwA,#0;
    mov.u32 %bufwB,#1;
    mov.u32 %kt,0;
",
    );
    let t = pipeline::RING_START@;
    let k = seq![Kind::Calm, Kind::Calm];
    scan::lemma_hole(k, '0', Kind::Calm);
    scan::lemma_hole(k, '1', Kind::Calm);
    assert(scan::span(t, 0, 44, scan::neutral(), k) == scan::neutral()) by {
        reveal_with_fuel(scan::span, 45);
    }
    scan::lemma_span(t, 0, 44, scan::neutral(), scan::neutral(), k);
    assert(scan::span(t, 44, 90, scan::neutral(), k) == scan::neutral()) by {
        reveal_with_fuel(scan::span, 47);
    }
    scan::lemma_span(t, 44, 90, scan::neutral(), scan::neutral(), k);
    assert(scan::span(t, 90, 109, scan::neutral(), k) == scan::neutral()) by {
        reveal_with_fuel(scan::span, 20);
    }
    scan::lemma_span(t, 90, 109, scan::neutral(), scan::neutral(), k);
    reveal(scan::scan);
}

/// How [`pipeline::PREFETCH`] is read.
pub proof fn lemma_pipeline_prefetch()
    ensures
        scan::scan(
            pipeline::PREFETCH@,
            0,
            scan::neutral(),
            seq![Kind::Name, Kind::Calm, Kind::Calm, Kind::Ends(scan::neutral())],
        ) == scan::neutral(),
{
    reveal_strlit(
        "    cp.async.wait_group #1;
    bar.sync 0;
    add.u32 %kcol,%kt,#2;
    setp.lt.u32 %pmore,%kcol,%K;
    @!%pmore bra NOPRE_#0;
#3NOPRE_#0:
    cp.async.commit_group;
",
    );
    let t = pipeline::PREFETCH@;
    let k = seq![Kind::Name, Kind::Calm, Kind::Calm, Kind::Ends(scan::neutral())];
    scan::lemma_hole(k, '0', Kind::Name);
    scan::lemma_hole(k, '1', Kind::Calm);
    scan::lemma_hole(k, '2', Kind::Calm);
    scan::lemma_hole(k, '3', Kind::Ends(scan::neutral()));
    assert(scan::span(t, 0, 44, scan::neutral(), k) == scan::neutral()) by {
        reveal_with_fuel(scan::span, 45);
    }
    scan::lemma_span(t, 0, 44, scan::neutral(), scan::neutral(), k);
    assert(scan::span(t, 44, 70, scan::neutral(), k) == scan::neutral()) by {
        reveal_with_fuel(scan::span, 27);
    }
    scan::lemma_span(t, 44, 70, scan::neutral(), scan::neutral(), k);
    assert(scan::span(t, 70, 103, scan::neutral(), k) == scan::neutral()) by {
        reveal_with_fuel(scan::span, 34);
    }
    scan::lemma_span(t, 70, 103, scan::neutral(), scan::neutral(), k);
    assert(scan::span(t, 103, 142, scan::neutral(), k) == scan::neutral()) by {
        reveal_with_fuel(scan::span, 40);
    }
    scan::lemma_span(t, 103, 142, scan::neutral(), scan::neutral(), k);
    assert(scan::span(t, 142, 169, scan::neutral(), k) == scan::neutral()) by {
        reveal_with_fuel(scan::span, 28);
    }
    scan::lemma_span(t, 142, 169, scan::neutral(), scan::neutral(), k);
    reveal(scan::scan);
}

/// How [`pipeline::RING_STEP`] is read.
pub proof fn lemma_pipeline_ring_step()
    ensures
        scan::scan(
            pipeline::RING_STEP@,
            0,
            scan::neutral(),
            seq![Kind::Calm, Kind::Calm, Kind::Calm],
        ) == scan::neutral(),
{
    reveal_strlit(
        "    add.u32 #0,#0,#1;
    setp.ge.u32 %pmore,#0,#2;
    @%pmore sub.u32 #0,#0,#2;
",
    );
    let t = pipeline::RING_STEP@;
    let k = seq![Kind::Calm, Kind::Calm, Kind::Calm];
    scan::lemma_hole(k, '0', Kind::Calm);
    scan::lemma_hole(k, '1', Kind::Calm);
    scan::lemma_hole(k, '2', Kind::Calm);
    assert(scan::span(t, 0, 22, scan::neutral(), k) == scan::neutral()) by {
        reveal_with_fuel(scan::span, 23);
    }
    scan::lemma_span(t, 0, 22, scan::neutral(), scan::neutral(), k);
    assert(scan::span(t, 22, 52, scan::neutral(), k) == scan::neutral()) by {
        reveal_with_fuel(scan::span, 31);
    }
    scan::lemma_span(t, 22, 52, scan::neutral(), scan::neutral(), k);
    assert(scan::span(t, 52, 82, scan::neutral(), k) == scan::neutral()) by {
        reveal_with_fuel(scan::span, 31);
    }
    scan::lemma_span(t, 52, 82, scan::neutral(), scan::neutral(), k);
    reveal(scan::scan);
}

/// How [`mma_pipe::RESID_PARAM`] is read.
pub proof fn lemma_mma_pipe_resid_param()
    ensures
        scan::tidy(mma_pipe::RESID_PARAM@),
{
    reveal_strlit(
        ",
    .param .u64 pResid",
    );
    let t = mma_pipe::RESID_PARAM@;
    let k = Seq::<Kind>::empty();
    assert(scan::span(t, 0, 24, scan::neutral(), k) == scan::neutral()) by {
        reveal_with_fuel(scan::span, 25);
    }
    scan::lemma_span(t, 0, 24, scan::neutral(), scan::neutral(), k);
    reveal(scan::scan);
    scan::lemma_tidy_constant(t);
}

/// How [`mma_pipe::BODY`] is read.
pub proof fn lemma_mma_pipe_body()
    ensures
        scan::tidy(mma_pipe::BODY@),
{
    reveal_strlit(
        "{
",
    );
    let t = mma_pipe::BODY@;
    let k = Seq::<Kind>::empty();
    assert(scan::span(t, 0, 2, scan::neutral(), k) == scan::neutral()) by {
        reveal_with_fuel(scan::span, 3);
    }
    scan::lemma_span(t, 0, 2, scan::neutral(), scan::neutral(), k);
    reveal(scan::scan);
    scan::lemma_tidy_constant(t);
}

/// How [`mma_pipe::REGS`] is read.
pub proof fn lemma_mma_pipe_regs()
    ensures
        scan::tidy(mma_pipe::REGS@),
{
    reveal_strlit(
        "    .reg .pred %p0,%pmore;
    .reg .b32 %M,%N,%K,%baseRow,%baseCol,%kt,%kcol,%tmp,%tmp2,%tix,%warpId,%warpRow,%warpCol,%e,%r,%c,%bufcA,%bufcB,%bufwA,%bufwB,%lane,%grp,%tg,%tg2,%laneoff,%warpMrow,%warpNcol,%aptr,%bptr,%grow,%gcol;
",
    );
    let t = mma_pipe::REGS@;
    let k = Seq::<Kind>::empty();
    assert(scan::span(t, 0, 27, scan::neutral(), k) == scan::neutral()) by {
        reveal_with_fuel(scan::span, 28);
    }
    scan::lemma_span(t, 0, 27, scan::neutral(), scan::neutral(), k);
    assert(scan::span(t, 27, 72, scan::neutral(), k) == scan::neutral()) by {
        reveal_with_fuel(scan::span, 46);
    }
    scan::lemma_span(t, 27, 72, scan::neutral(), scan::neutral(), k);
    assert(scan::span(t, 72, 120, scan::neutral(), k) == scan::neutral()) by {
        reveal_with_fuel(scan::span, 49);
    }
    scan::lemma_span(t, 72, 120, scan::neutral(), scan::neutral(), k);
    assert(scan::span(t, 120, 168, scan::neutral(), k) == scan::neutral()) by {
        reveal_with_fuel(scan::span, 49);
    }
    scan::lemma_span(t, 120, 168, scan::neutral(), scan::neutral(), k);
    assert(scan::span(t, 168, 218, scan::neutral(), k) == scan::neutral()) by {
        reveal_with_fuel(scan::span, 51);
    }
    scan::lemma_span(t, 168, 218, scan::neutral(), scan::neutral(), k);
    assert(scan::span(t, 218, 231, scan::neutral(), k) == scan::neutral()) by {
        reveal_with_fuel(scan::span, 14);
    }
    scan::lemma_span(t, 218, 231, scan::neutral(), scan::neutral(), k);
    reveal(scan::scan);
    scan::lemma_tidy_constant(t);
}

/// How [`mma_pipe::BIAS_REGS`] is read.
pub proof fn lemma_mma_pipe_bias_regs()
    ensures
        scan::tidy(mma_pipe::BIAS_REGS@),
{
    reveal_strlit(
        "    .reg .f32 %biasv0,%biasv1;
    .reg .b64 %Bias;
",
    );
    let t = mma_pipe::BIAS_REGS@;
    let k = Seq::<Kind>::empty();
    assert(scan::span(t, 0, 31, scan::neutral(), k) == scan::neutral()) by {
        reveal_with_fuel(scan::span, 32);
    }
    scan::lemma_span(t, 0, 31, scan::neutral(), scan::neutral(), k);
    assert(scan::span(t, 31, 52, scan::neutral(), k) == scan::neutral()) by {
        reveal_with_fuel(scan::span, 22);
    }
    scan::lemma_span(t, 31, 52, scan::neutral(), scan::neutral(), k);
    reveal(scan::scan);
    scan::lemma_tidy_constant(t);
}

/// How [`mma_pipe::RESID_REGS`] is read.
pub proof fn lemma_mma_pipe_resid_regs()
    ensures
        scan::tidy(mma_pipe::RESID_REGS@),
{
    reveal_strlit(
        "    .reg .f32 %resv0,%resv1;
    .reg .b64 %Resid;
",
    );
    let t = mma_pipe::RESID_REGS@;
    let k = Seq::<Kind>::empty();
    assert(scan::span(t, 0, 29, scan::neutral(), k) == scan::neutral()) by {
        reveal_with_fuel(scan::span, 30);
    }
    scan::lemma_span(t, 0, 29, scan::neutral(), scan::neutral(), k);
    assert(scan::span(t, 29, 51, scan::neutral(), k) == scan::neutral()) by {
        reveal_with_fuel(scan::span, 23);
    }
    scan::lemma_span(t, 29, 51, scan::neutral(), scan::neutral(), k);
    reveal(scan::scan);
    scan::lemma_tidy_constant(t);
}

/// How [`mma_pipe::POINTER_REGS`] is read.
pub proof fn lemma_mma_pipe_pointer_regs()
    ensures
        scan::tidy(mma_pipe::POINTER_REGS@),
{
    reveal_strlit(
        "    .reg .b64 %A,%B,%C,%off,%gptr,%cptr,%cptr2;
",
    );
    let t = mma_pipe::POINTER_REGS@;
    let k = Seq::<Kind>::empty();
    assert(scan::span(t, 0, 48, scan::neutral(), k) == scan::neutral()) by {
        reveal_with_fuel(scan::span, 49);
    }
    scan::lemma_span(t, 0, 48, scan::neutral(), scan::neutral(), k);
    reveal(scan::scan);
    scan::lemma_tidy_constant(t);
}

/// How [`mma_pipe::BIAS_POINTER`] is read.
pub proof fn lemma_mma_pipe_bias_pointer()
    ensures
        scan::tidy(mma_pipe::BIAS_POINTER@),
{
    reveal_strlit(
        "    ld.param.u64 %Bias,[pBias];
    cvta.to.global.u64 %Bias,%Bias;
",
    );
    let t = mma_pipe::BIAS_POINTER@;
    let k = Seq::<Kind>::empty();
    assert(scan::span(t, 0, 32, scan::neutral(), k) == scan::neutral()) by {
        reveal_with_fuel(scan::span, 33);
    }
    scan::lemma_span(t, 0, 32, scan::neutral(), scan::neutral(), k);
    assert(scan::span(t, 32, 68, scan::neutral(), k) == scan::neutral()) by {
        reveal_with_fuel(scan::span, 37);
    }
    scan::lemma_span(t, 32, 68, scan::neutral(), scan::neutral(), k);
    reveal(scan::scan);
    scan::lemma_tidy_constant(t);
}

/// How [`mma_pipe::RESID_POINTER`] is read.
pub proof fn lemma_mma_pipe_resid_pointer()
    ensures
        scan::tidy(mma_pipe::RESID_POINTER@),
{
    reveal_strlit(
        "    ld.param.u64 %Resid,[pResid];
    cvta.to.global.u64 %Resid,%Resid;
",
    );
    let t = mma_pipe::RESID_POINTER@;
    let k = Seq::<Kind>::empty();
    assert(scan::span(t, 0, 34, scan::neutral(), k) == scan::neutral()) by {
        reveal_with_fuel(scan::span, 35);
    }
    scan::lemma_span(t, 0, 34, scan::neutral(), scan::neutral(), k);
    assert(scan::span(t, 34, 72, scan::neutral(), k) == scan::neutral()) by {
        reveal_with_fuel(scan::span, 39);
    }
    scan::lemma_span(t, 34, 72, scan::neutral(), scan::neutral(), k);
    reveal(scan::scan);
    scan::lemma_tidy_constant(t);
}

/// How [`mma_pipe::UPPER`] is read.
pub proof fn lemma_mma_pipe_upper()
    ensures
        scan::tidy(mma_pipe::UPPER@),
{
    reveal_strlit(
        "    mul.lo.s32 %tmp,%grow,%N;
    add.u32 %tmp,%tmp,%gcol;
    mul.wide.u32 %off,%tmp,4;
    add.s64 %cptr,%C,%off;
",
    );
    let t = mma_pipe::UPPER@;
    let k = Seq::<Kind>::empty();
    assert(scan::span(t, 0, 30, scan::neutral(), k) == scan::neutral()) by {
        reveal_with_fuel(scan::span, 31);
    }
    scan::lemma_span(t, 0, 30, scan::neutral(), scan::neutral(), k);
    assert(scan::span(t, 30, 59, scan::neutral(), k) == scan::neutral()) by {
        reveal_with_fuel(scan::span, 30);
    }
    scan::lemma_span(t, 30, 59, scan::neutral(), scan::neutral(), k);
    assert(scan::span(t, 59, 89, scan::neutral(), k) == scan::neutral()) by {
        reveal_with_fuel(scan::span, 31);
    }
    scan::lemma_span(t, 59, 89, scan::neutral(), scan::neutral(), k);
    assert(scan::span(t, 89, 116, scan::neutral(), k) == scan::neutral()) by {
        reveal_with_fuel(scan::span, 28);
    }
    scan::lemma_span(t, 89, 116, scan::neutral(), scan::neutral(), k);
    reveal(scan::scan);
    scan::lemma_tidy_constant(t);
}

/// How [`mma_pipe::LOWER`] is read.
pub proof fn lemma_mma_pipe_lower()
    ensures
        scan::tidy(mma_pipe::LOWER@),
{
    reveal_strlit(
        "    add.u32 %tmp,%grow,8;
    mul.lo.s32 %tmp,%tmp,%N;
    add.u32 %tmp,%tmp,%gcol;
    mul.wide.u32 %off,%tmp,4;
    add.s64 %cptr2,%C,%off;
",
    );
    let t = mma_pipe::LOWER@;
    let k = Seq::<Kind>::empty();
    assert(scan::span(t, 0, 26, scan::neutral(), k) == scan::neutral()) by {
        reveal_with_fuel(scan::span, 27);
    }
    scan::lemma_span(t, 0, 26, scan::neutral(), scan::neutral(), k);
    assert(scan::span(t, 26, 55, scan::neutral(), k) == scan::neutral()) by {
        reveal_with_fuel(scan::span, 30);
    }
    scan::lemma_span(t, 26, 55, scan::neutral(), scan::neutral(), k);
    assert(scan::span(t, 55, 84, scan::neutral(), k) == scan::neutral()) by {
        reveal_with_fuel(scan::span, 30);
    }
    scan::lemma_span(t, 55, 84, scan::neutral(), scan::neutral(), k);
    assert(scan::span(t, 84, 114, scan::neutral(), k) == scan::neutral()) by {
        reveal_with_fuel(scan::span, 31);
    }
    scan::lemma_span(t, 84, 114, scan::neutral(), scan::neutral(), k);
    assert(scan::span(t, 114, 142, scan::neutral(), k) == scan::neutral()) by {
        reveal_with_fuel(scan::span, 29);
    }
    scan::lemma_span(t, 114, 142, scan::neutral(), scan::neutral(), k);
    reveal(scan::scan);
    scan::lemma_tidy_constant(t);
}

/// How [`mma_pipe::D_REGS`] is read.
pub proof fn lemma_mma_pipe_d_regs()
    ensures
        scan::scan(
            mma_pipe::D_REGS@,
            0,
            scan::neutral(),
            seq![Kind::Calm, Kind::Calm, Kind::Calm, Kind::Calm],
        ) == scan::neutral(),
{
    reveal_strlit("%d#0_#1_0,%d#0_#1_1,%d#0_#1_2,%d#0_#1_3,");
    let t = mma_pipe::D_REGS@;
    let k = seq![Kind::Calm, Kind::Calm, Kind::Calm, Kind::Calm];
    scan::lemma_hole(k, '0', Kind::Calm);
    scan::lemma_hole(k, '1', Kind::Calm);
    assert(scan::span(t, 0, 40, scan::neutral(), k) == scan::neutral()) by {
        reveal_with_fuel(scan::span, 41);
    }
    scan::lemma_span(t, 0, 40, scan::neutral(), scan::neutral(), k);
    reveal(scan::scan);
}

/// How [`mma_pipe::D_ZERO`] is read.
pub proof fn lemma_mma_pipe_d_zero()
    ensures
        scan::scan(
            mma_pipe::D_ZERO@,
            0,
            scan::neutral(),
            seq![Kind::Calm, Kind::Calm, Kind::Calm, Kind::Calm],
        ) == scan::neutral(),
{
    reveal_strlit(
        "    mov.f32 %d#0_#1_0,0f00000000;
    mov.f32 %d#0_#1_1,0f00000000;
    mov.f32 %d#0_#1_2,0f00000000;
    mov.f32 %d#0_#1_3,0f00000000;
",
    );
    let t = mma_pipe::D_ZERO@;
    let k = seq![Kind::Calm, Kind::Calm, Kind::Calm, Kind::Calm];
    scan::lemma_hole(k, '0', Kind::Calm);
    scan::lemma_hole(k, '1', Kind::Calm);
    assert(scan::span(t, 0, 34, scan::neutral(), k) == scan::neutral()) by {
        reveal_with_fuel(scan::span, 35);
    }
    scan::lemma_span(t, 0, 34, scan::neutral(), scan::neutral(), k);
    assert(scan::span(t, 34, 68, scan::neutral(), k) == scan::neutral()) by {
        reveal_with_fuel(scan::span, 35);
    }
    scan::lemma_span(t, 34, 68, scan::neutral(), scan::neutral(), k);
    assert(scan::span(t, 68, 102, scan::neutral(), k) == scan::neutral()) by {
        reveal_with_fuel(scan::span, 35);
    }
    scan::lemma_span(t, 68, 102, scan::neutral(), scan::neutral(), k);
    assert(scan::span(t, 102, 136, scan::neutral(), k) == scan::neutral()) by {
        reveal_with_fuel(scan::span, 35);
    }
    scan::lemma_span(t, 102, 136, scan::neutral(), scan::neutral(), k);
    reveal(scan::scan);
}

/// How [`mma_pipe::A_REGS`] is read.
pub proof fn lemma_mma_pipe_a_regs()
    ensures
        scan::scan(
            mma_pipe::A_REGS@,
            0,
            scan::neutral(),
            seq![Kind::Calm, Kind::Calm],
        ) == scan::neutral(),
{
    reveal_strlit("%a#0_0,%a#0_1,%a#0_2,%a#0_3,");
    let t = mma_pipe::A_REGS@;
    let k = seq![Kind::Calm, Kind::Calm];
    scan::lemma_hole(k, '0', Kind::Calm);
    assert(scan::span(t, 0, 28, scan::neutral(), k) == scan::neutral()) by {
        reveal_with_fuel(scan::span, 29);
    }
    scan::lemma_span(t, 0, 28, scan::neutral(), scan::neutral(), k);
    reveal(scan::scan);
}

/// How [`mma_pipe::B_REGS`] is read.
pub proof fn lemma_mma_pipe_b_regs()
    ensures
        scan::scan(
            mma_pipe::B_REGS@,
            0,
            scan::neutral(),
            seq![Kind::Calm, Kind::Calm],
        ) == scan::neutral(),
{
    reveal_strlit("%b#0_0,%b#0_1,");
    let t = mma_pipe::B_REGS@;
    let k = seq![Kind::Calm, Kind::Calm];
    scan::lemma_hole(k, '0', Kind::Calm);
    assert(scan::span(t, 0, 14, scan::neutral(), k) == scan::neutral()) by {
        reveal_with_fuel(scan::span, 15);
    }
    scan::lemma_span(t, 0, 14, scan::neutral(), scan::neutral(), k);
    reveal(scan::scan);
}

/// How [`mma_pipe::PLACE`] is read.
pub proof fn lemma_mma_pipe_place()
    ensures
        scan::scan(
            mma_pipe::PLACE@,
            0,
            scan::neutral(),
            seq![Kind::Calm, Kind::Calm],
        ) == scan::neutral(),
{
    reveal_strlit(
        "    add.u32 %grow,%baseRow,%warpMrow;
    add.u32 %grow,%grow,#0;
    add.u32 %grow,%grow,%grp;
    add.u32 %gcol,%baseCol,%warpNcol;
    add.u32 %gcol,%gcol,#1;
    add.u32 %gcol,%gcol,%tg2;
",
    );
    let t = mma_pipe::PLACE@;
    let k = seq![Kind::Calm, Kind::Calm];
    scan::lemma_hole(k, '0', Kind::Calm);
    scan::lemma_hole(k, '1', Kind::Calm);
    assert(scan::span(t, 0, 38, scan::neutral(), k) == scan::neutral()) by {
        reveal_with_fuel(scan::span, 39);
    }
    scan::lemma_span(t, 0, 38, scan::neutral(), scan::neutral(), k);
    assert(scan::span(t, 38, 66, scan::neutral(), k) == scan::neutral()) by {
        reveal_with_fuel(scan::span, 29);
    }
    scan::lemma_span(t, 38, 66, scan::neutral(), scan::neutral(), k);
    assert(scan::span(t, 66, 96, scan::neutral(), k) == scan::neutral()) by {
        reveal_with_fuel(scan::span, 31);
    }
    scan::lemma_span(t, 66, 96, scan::neutral(), scan::neutral(), k);
    assert(scan::span(t, 96, 134, scan::neutral(), k) == scan::neutral()) by {
        reveal_with_fuel(scan::span, 39);
    }
    scan::lemma_span(t, 96, 134, scan::neutral(), scan::neutral(), k);
    assert(scan::span(t, 134, 162, scan::neutral(), k) == scan::neutral()) by {
        reveal_with_fuel(scan::span, 29);
    }
    scan::lemma_span(t, 134, 162, scan::neutral(), scan::neutral(), k);
    assert(scan::span(t, 162, 192, scan::neutral(), k) == scan::neutral()) by {
        reveal_with_fuel(scan::span, 31);
    }
    scan::lemma_span(t, 162, 192, scan::neutral(), scan::neutral(), k);
    reveal(scan::scan);
}

/// How [`mma_pipe::MMA`] is read.
pub proof fn lemma_mma_pipe_mma()
    ensures
        scan::scan(
            mma_pipe::MMA@,
            0,
            scan::neutral(),
            seq![Kind::Calm, Kind::Calm, Kind::Calm, Kind::Calm, Kind::Calm],
        ) == scan::neutral(),
{
    reveal_strlit(
        "    mma.sync.aligned.m16n8k16.row.col.#4 {%d#0_#1_0,%d#0_#1_1,%d#0_#1_2,%d#0_#1_3},{%a#0_0,%a#0_1,%a#0_2,%a#0_3},{%b#1_0,%b#1_1},{%d#0_#1_0,%d#0_#1_1,%d#0_#1_2,%d#0_#1_3};
",
    );
    let t = mma_pipe::MMA@;
    let k = seq![Kind::Calm, Kind::Calm, Kind::Calm, Kind::Calm, Kind::Calm];
    scan::lemma_hole(k, '0', Kind::Calm);
    scan::lemma_hole(k, '1', Kind::Calm);
    scan::lemma_hole(k, '4', Kind::Calm);
    assert(scan::span(t, 0, 41, scan::neutral(), k) == scan::neutral()) by {
        reveal_with_fuel(scan::span, 42);
    }
    scan::lemma_span(t, 0, 41, scan::neutral(), scan::neutral(), k);
    assert(scan::span(t, 41, 91, scan::neutral(), k) == scan::neutral()) by {
        reveal_with_fuel(scan::span, 51);
    }
    scan::lemma_span(t, 41, 91, scan::neutral(), scan::neutral(), k);
    assert(scan::span(t, 91, 140, scan::neutral(), k) == scan::neutral()) by {
        reveal_with_fuel(scan::span, 50);
    }
    scan::lemma_span(t, 91, 140, scan::neutral(), scan::neutral(), k);
    assert(scan::span(t, 140, 172, scan::neutral(), k) == scan::neutral()) by {
        reveal_with_fuel(scan::span, 33);
    }
    scan::lemma_span(t, 140, 172, scan::neutral(), scan::neutral(), k);
    reveal(scan::scan);
}

/// How [`mma_pipe::ADD_BIAS`] is read.
pub proof fn lemma_mma_pipe_add_bias()
    ensures
        scan::scan(mma_pipe::ADD_BIAS@, 0, scan::neutral(), seq![Kind::Stem]) == scan::neutral(),
{
    reveal_strlit(
        "    mul.wide.u32 %off,%gcol,4;
    add.s64 %cptr,%Bias,%off;
    ld.global.f32 %biasv0,[%cptr];
    ld.global.f32 %biasv1,[%cptr+4];
    add.f32 #00,#00,%biasv0;
    add.f32 #01,#01,%biasv1;
    add.f32 #02,#02,%biasv0;
    add.f32 #03,#03,%biasv1;
",
    );
    let t = mma_pipe::ADD_BIAS@;
    let k = seq![Kind::Stem];
    scan::lemma_hole(k, '0', Kind::Stem);
    assert(scan::span(t, 0, 31, scan::neutral(), k) == scan::neutral()) by {
        reveal_with_fuel(scan::span, 32);
    }
    scan::lemma_span(t, 0, 31, scan::neutral(), scan::neutral(), k);
    assert(scan::span(t, 31, 61, scan::neutral(), k) == scan::neutral()) by {
        reveal_with_fuel(scan::span, 31);
    }
    scan::lemma_span(t, 31, 61, scan::neutral(), scan::neutral(), k);
    assert(scan::span(t, 61, 96, scan::neutral(), k) == scan::neutral()) by {
        reveal_with_fuel(scan::span, 36);
    }
    scan::lemma_span(t, 61, 96, scan::neutral(), scan::neutral(), k);
    assert(scan::span(t, 96, 133, scan::neutral(), k) == scan::neutral()) by {
        reveal_with_fuel(scan::span, 38);
    }
    scan::lemma_span(t, 96, 133, scan::neutral(), scan::neutral(), k);
    assert(scan::span(t, 133, 162, scan::neutral(), k) == scan::neutral()) by {
        reveal_with_fuel(scan::span, 30);
    }
    scan::lemma_span(t, 133, 162, scan::neutral(), scan::neutral(), k);
    assert(scan::span(t, 162, 191, scan::neutral(), k) == scan::neutral()) by {
        reveal_with_fuel(scan::span, 30);
    }
    scan::lemma_span(t, 162, 191, scan::neutral(), scan::neutral(), k);
    assert(scan::span(t, 191, 220, scan::neutral(), k) == scan::neutral()) by {
        reveal_with_fuel(scan::span, 30);
    }
    scan::lemma_span(t, 191, 220, scan::neutral(), scan::neutral(), k);
    assert(scan::span(t, 220, 249, scan::neutral(), k) == scan::neutral()) by {
        reveal_with_fuel(scan::span, 30);
    }
    scan::lemma_span(t, 220, 249, scan::neutral(), scan::neutral(), k);
    reveal(scan::scan);
}

/// How [`mma_pipe::UPPER_RESID`] is read.
pub proof fn lemma_mma_pipe_upper_resid()
    ensures
        scan::scan(mma_pipe::UPPER_RESID@, 0, scan::neutral(), seq![Kind::Stem]) == scan::neutral(),
{
    reveal_strlit(
        "    add.s64 %cptr2,%Resid,%off;
    ld.global.f32 %resv0,[%cptr2];
    ld.global.f32 %resv1,[%cptr2+4];
    add.f32 #00,#00,%resv0;
    add.f32 #01,#01,%resv1;
",
    );
    let t = mma_pipe::UPPER_RESID@;
    let k = seq![Kind::Stem];
    scan::lemma_hole(k, '0', Kind::Stem);
    assert(scan::span(t, 0, 32, scan::neutral(), k) == scan::neutral()) by {
        reveal_with_fuel(scan::span, 33);
    }
    scan::lemma_span(t, 0, 32, scan::neutral(), scan::neutral(), k);
    assert(scan::span(t, 32, 67, scan::neutral(), k) == scan::neutral()) by {
        reveal_with_fuel(scan::span, 36);
    }
    scan::lemma_span(t, 32, 67, scan::neutral(), scan::neutral(), k);
    assert(scan::span(t, 67, 104, scan::neutral(), k) == scan::neutral()) by {
        reveal_with_fuel(scan::span, 38);
    }
    scan::lemma_span(t, 67, 104, scan::neutral(), scan::neutral(), k);
    assert(scan::span(t, 104, 132, scan::neutral(), k) == scan::neutral()) by {
        reveal_with_fuel(scan::span, 29);
    }
    scan::lemma_span(t, 104, 132, scan::neutral(), scan::neutral(), k);
    assert(scan::span(t, 132, 160, scan::neutral(), k) == scan::neutral()) by {
        reveal_with_fuel(scan::span, 29);
    }
    scan::lemma_span(t, 132, 160, scan::neutral(), scan::neutral(), k);
    reveal(scan::scan);
}

/// How [`mma_pipe::LOWER_RESID`] is read.
pub proof fn lemma_mma_pipe_lower_resid()
    ensures
        scan::scan(mma_pipe::LOWER_RESID@, 0, scan::neutral(), seq![Kind::Stem]) == scan::neutral(),
{
    reveal_strlit(
        "    add.s64 %cptr,%Resid,%off;
    ld.global.f32 %resv0,[%cptr];
    ld.global.f32 %resv1,[%cptr+4];
    add.f32 #02,#02,%resv0;
    add.f32 #03,#03,%resv1;
",
    );
    let t = mma_pipe::LOWER_RESID@;
    let k = seq![Kind::Stem];
    scan::lemma_hole(k, '0', Kind::Stem);
    assert(scan::span(t, 0, 31, scan::neutral(), k) == scan::neutral()) by {
        reveal_with_fuel(scan::span, 32);
    }
    scan::lemma_span(t, 0, 31, scan::neutral(), scan::neutral(), k);
    assert(scan::span(t, 31, 65, scan::neutral(), k) == scan::neutral()) by {
        reveal_with_fuel(scan::span, 35);
    }
    scan::lemma_span(t, 31, 65, scan::neutral(), scan::neutral(), k);
    assert(scan::span(t, 65, 101, scan::neutral(), k) == scan::neutral()) by {
        reveal_with_fuel(scan::span, 37);
    }
    scan::lemma_span(t, 65, 101, scan::neutral(), scan::neutral(), k);
    assert(scan::span(t, 101, 129, scan::neutral(), k) == scan::neutral()) by {
        reveal_with_fuel(scan::span, 29);
    }
    scan::lemma_span(t, 101, 129, scan::neutral(), scan::neutral(), k);
    assert(scan::span(t, 129, 157, scan::neutral(), k) == scan::neutral()) by {
        reveal_with_fuel(scan::span, 29);
    }
    scan::lemma_span(t, 129, 157, scan::neutral(), scan::neutral(), k);
    reveal(scan::scan);
}

/// How [`mma_pipe::D_NAME`] is read.
pub proof fn lemma_mma_pipe_d_name(at: int)
    requires
        scan::inside(at),
    ensures
        scan::scan(mma_pipe::D_NAME@, 0, at, seq![Kind::Calm, Kind::Calm]) == scan::under(),
{
    reveal_strlit("%d#0_#1_");
    let t = mma_pipe::D_NAME@;
    let k = seq![Kind::Calm, Kind::Calm];
    scan::lemma_hole(k, '0', Kind::Calm);
    scan::lemma_hole(k, '1', Kind::Calm);
    assert(scan::span(t, 0, 8, at, k) == scan::under()) by {
        reveal_with_fuel(scan::span, 9);
    }
    scan::lemma_span(t, 0, 8, at, scan::under(), k);
    reveal(scan::scan);
}

/// How [`mma_pipe::D0`] is read.
pub proof fn lemma_mma_pipe_d0(at: int)
    requires
        scan::inside(at),
    ensures
        scan::scan(mma_pipe::D0@, 0, at, seq![Kind::Stem]) == scan::neutral(),
{
    reveal_strlit("#00");
    let t = mma_pipe::D0@;
    let k = seq![Kind::Stem];
    scan::lemma_hole(k, '0', Kind::Stem);
    assert(scan::span(t, 0, 3, at, k) == scan::neutral()) by {
        reveal_with_fuel(scan::span, 4);
    }
    scan::lemma_span(t, 0, 3, at, scan::neutral(), k);
    reveal(scan::scan);
}

/// How [`mma_pipe::D1`] is read.
pub proof fn lemma_mma_pipe_d1(at: int)
    requires
        scan::inside(at),
    ensures
        scan::scan(mma_pipe::D1@, 0, at, seq![Kind::Stem]) == scan::neutral(),
{
    reveal_strlit("#01");
    let t = mma_pipe::D1@;
    let k = seq![Kind::Stem];
    scan::lemma_hole(k, '0', Kind::Stem);
    assert(scan::span(t, 0, 3, at, k) == scan::neutral()) by {
        reveal_with_fuel(scan::span, 4);
    }
    scan::lemma_span(t, 0, 3, at, scan::neutral(), k);
    reveal(scan::scan);
}

/// How [`mma_pipe::D2`] is read.
pub proof fn lemma_mma_pipe_d2(at: int)
    requires
        scan::inside(at),
    ensures
        scan::scan(mma_pipe::D2@, 0, at, seq![Kind::Stem]) == scan::neutral(),
{
    reveal_strlit("#02");
    let t = mma_pipe::D2@;
    let k = seq![Kind::Stem];
    scan::lemma_hole(k, '0', Kind::Stem);
    assert(scan::span(t, 0, 3, at, k) == scan::neutral()) by {
        reveal_with_fuel(scan::span, 4);
    }
    scan::lemma_span(t, 0, 3, at, scan::neutral(), k);
    reveal(scan::scan);
}

/// How [`mma_pipe::D3`] is read.
pub proof fn lemma_mma_pipe_d3(at: int)
    requires
        scan::inside(at),
    ensures
        scan::scan(mma_pipe::D3@, 0, at, seq![Kind::Stem]) == scan::neutral(),
{
    reveal_strlit("#03");
    let t = mma_pipe::D3@;
    let k = seq![Kind::Stem];
    scan::lemma_hole(k, '0', Kind::Stem);
    assert(scan::span(t, 0, 3, at, k) == scan::neutral()) by {
        reveal_with_fuel(scan::span, 4);
    }
    scan::lemma_span(t, 0, 3, at, scan::neutral(), k);
    reveal(scan::scan);
}

/// How [`act::RELU`] is read.
pub proof fn lemma_act_relu()
    ensures
        scan::scan(act::RELU@, 0, scan::neutral(), seq![Kind::Calm]) == scan::neutral(),
{
    reveal_strlit(
        "    max.f32 #0,#0,0f00000000;
",
    );
    let t = act::RELU@;
    let k = seq![Kind::Calm];
    scan::lemma_hole(k, '0', Kind::Calm);
    assert(scan::span(t, 0, 30, scan::neutral(), k) == scan::neutral()) by {
        reveal_with_fuel(scan::span, 31);
    }
    scan::lemma_span(t, 0, 30, scan::neutral(), scan::neutral(), k);
    reveal(scan::scan);
}

/// How [`act::SILU`] is read.
pub proof fn lemma_act_silu()
    ensures
        scan::scan(act::SILU@, 0, scan::neutral(), seq![Kind::Calm]) == scan::neutral(),
{
    reveal_strlit(
        "    mul.f32 %act0,#0,0fBFB8AA3B;
    ex2.approx.f32 %act0,%act0;
    add.f32 %act0,%act0,0f3F800000;
    rcp.approx.f32 %act0,%act0;
    mul.f32 #0,#0,%act0;
",
    );
    let t = act::SILU@;
    let k = seq![Kind::Calm];
    scan::lemma_hole(k, '0', Kind::Calm);
    assert(scan::span(t, 0, 33, scan::neutral(), k) == scan::neutral()) by {
        reveal_with_fuel(scan::span, 34);
    }
    scan::lemma_span(t, 0, 33, scan::neutral(), scan::neutral(), k);
    assert(scan::span(t, 33, 65, scan::neutral(), k) == scan::neutral()) by {
        reveal_with_fuel(scan::span, 33);
    }
    scan::lemma_span(t, 33, 65, scan::neutral(), scan::neutral(), k);
    assert(scan::span(t, 65, 101, scan::neutral(), k) == scan::neutral()) by {
        reveal_with_fuel(scan::span, 37);
    }
    scan::lemma_span(t, 65, 101, scan::neutral(), scan::neutral(), k);
    assert(scan::span(t, 101, 133, scan::neutral(), k) == scan::neutral()) by {
        reveal_with_fuel(scan::span, 33);
    }
    scan::lemma_span(t, 101, 133, scan::neutral(), scan::neutral(), k);
    assert(scan::span(t, 133, 158, scan::neutral(), k) == scan::neutral()) by {
        reveal_with_fuel(scan::span, 26);
    }
    scan::lemma_span(t, 133, 158, scan::neutral(), scan::neutral(), k);
    reveal(scan::scan);
}

/// How [`act::GELU`] is read.
pub proof fn lemma_act_gelu()
    ensures
        scan::scan(act::GELU@, 0, scan::neutral(), seq![Kind::Calm]) == scan::neutral(),
{
    reveal_strlit(
        "    mul.f32 %act0,#0,#0;
    mul.f32 %act0,%act0,#0;
    fma.rn.f32 %act0,%act0,0f3D372713,#0;
    mul.f32 %act0,%act0,0f3F4C4229;
    tanh.approx.f32 %act0,%act0;
    add.f32 %act0,%act0,0f3F800000;
    mul.f32 %act1,#0,0f3F000000;
    mul.f32 #0,%act0,%act1;
",
    );
    let t = act::GELU@;
    let k = seq![Kind::Calm];
    scan::lemma_hole(k, '0', Kind::Calm);
    assert(scan::span(t, 0, 25, scan::neutral(), k) == scan::neutral()) by {
        reveal_with_fuel(scan::span, 26);
    }
    scan::lemma_span(t, 0, 25, scan::neutral(), scan::neutral(), k);
    assert(scan::span(t, 25, 53, scan::neutral(), k) == scan::neutral()) by {
        reveal_with_fuel(scan::span, 29);
    }
    scan::lemma_span(t, 25, 53, scan::neutral(), scan::neutral(), k);
    assert(scan::span(t, 53, 95, scan::neutral(), k) == scan::neutral()) by {
        reveal_with_fuel(scan::span, 43);
    }
    scan::lemma_span(t, 53, 95, scan::neutral(), scan::neutral(), k);
    assert(scan::span(t, 95, 131, scan::neutral(), k) == scan::neutral()) by {
        reveal_with_fuel(scan::span, 37);
    }
    scan::lemma_span(t, 95, 131, scan::neutral(), scan::neutral(), k);
    assert(scan::span(t, 131, 164, scan::neutral(), k) == scan::neutral()) by {
        reveal_with_fuel(scan::span, 34);
    }
    scan::lemma_span(t, 131, 164, scan::neutral(), scan::neutral(), k);
    assert(scan::span(t, 164, 200, scan::neutral(), k) == scan::neutral()) by {
        reveal_with_fuel(scan::span, 37);
    }
    scan::lemma_span(t, 164, 200, scan::neutral(), scan::neutral(), k);
    assert(scan::span(t, 200, 233, scan::neutral(), k) == scan::neutral()) by {
        reveal_with_fuel(scan::span, 34);
    }
    scan::lemma_span(t, 200, 233, scan::neutral(), scan::neutral(), k);
    assert(scan::span(t, 233, 261, scan::neutral(), k) == scan::neutral()) by {
        reveal_with_fuel(scan::span, 29);
    }
    scan::lemma_span(t, 233, 261, scan::neutral(), scan::neutral(), k);
    reveal(scan::scan);
}

/// How [`act::NUMBERED`] is read.
pub proof fn lemma_act_numbered(at: int)
    requires
        scan::inside(at),
    ensures
        scan::scan(act::NUMBERED@, 0, at, seq![Kind::Stem, Kind::Calm]) == scan::neutral(),
{
    reveal_strlit("#0#1");
    let t = act::NUMBERED@;
    let k = seq![Kind::Stem, Kind::Calm];
    scan::lemma_hole(k, '0', Kind::Stem);
    scan::lemma_hole(k, '1', Kind::Calm);
    assert(scan::span(t, 0, 4, at, k) == scan::neutral()) by {
        reveal_with_fuel(scan::span, 5);
    }
    scan::lemma_span(t, 0, 4, at, scan::neutral(), k);
    reveal(scan::scan);
}

/// How [`act::STORE_SCALAR`] is read.
pub proof fn lemma_act_store_scalar()
    ensures
        scan::scan(
            act::STORE_SCALAR@,
            0,
            scan::neutral(),
            seq![Kind::Calm, Kind::Calm, Kind::Calm],
        ) == scan::neutral(),
{
    reveal_strlit(
        "    st.global.f32 [#0],#1;
    st.global.f32 [#0+4],#2;
",
    );
    let t = act::STORE_SCALAR@;
    let k = seq![Kind::Calm, Kind::Calm, Kind::Calm];
    scan::lemma_hole(k, '0', Kind::Calm);
    scan::lemma_hole(k, '1', Kind::Calm);
    scan::lemma_hole(k, '2', Kind::Calm);
    assert(scan::span(t, 0, 27, scan::neutral(), k) == scan::neutral()) by {
        reveal_with_fuel(scan::span, 28);
    }
    scan::lemma_span(t, 0, 27, scan::neutral(), scan::neutral(), k);
    assert(scan::span(t, 27, 56, scan::neutral(), k) == scan::neutral()) by {
        reveal_with_fuel(scan::span, 30);
    }
    scan::lemma_span(t, 27, 56, scan::neutral(), scan::neutral(), k);
    reveal(scan::scan);
}

/// How [`act::STORE_V2`] is read.
pub proof fn lemma_act_store_v2()
    ensures
        scan::scan(
            act::STORE_V2@,
            0,
            scan::neutral(),
            seq![Kind::Calm, Kind::Calm, Kind::Calm],
        ) == scan::neutral(),
{
    reveal_strlit(
        "    st.global.v2.f32 [#0],{#1,#2};
",
    );
    let t = act::STORE_V2@;
    let k = seq![Kind::Calm, Kind::Calm, Kind::Calm];
    scan::lemma_hole(k, '0', Kind::Calm);
    scan::lemma_hole(k, '1', Kind::Calm);
    scan::lemma_hole(k, '2', Kind::Calm);
    assert(scan::span(t, 0, 35, scan::neutral(), k) == scan::neutral()) by {
        reveal_with_fuel(scan::span, 36);
    }
    scan::lemma_span(t, 0, 35, scan::neutral(), scan::neutral(), k);
    reveal(scan::scan);
}

/// How [`act::STORE_V2CS`] is read.
pub proof fn lemma_act_store_v2cs()
    ensures
        scan::scan(
            act::STORE_V2CS@,
            0,
            scan::neutral(),
            seq![Kind::Calm, Kind::Calm, Kind::Calm],
        ) == scan::neutral(),
{
    reveal_strlit(
        "    st.global.cs.v2.f32 [#0],{#1,#2};
",
    );
    let t = act::STORE_V2CS@;
    let k = seq![Kind::Calm, Kind::Calm, Kind::Calm];
    scan::lemma_hole(k, '0', Kind::Calm);
    scan::lemma_hole(k, '1', Kind::Calm);
    scan::lemma_hole(k, '2', Kind::Calm);
    assert(scan::span(t, 0, 38, scan::neutral(), k) == scan::neutral()) by {
        reveal_with_fuel(scan::span, 39);
    }
    scan::lemma_span(t, 0, 38, scan::neutral(), scan::neutral(), k);
    reveal(scan::scan);
}

/// How [`mma::RASTER_REGS`] is read.
pub proof fn lemma_mma_raster_regs()
    ensures
        scan::tidy(mma::RASTER_REGS@),
{
    reveal_strlit(
        "    .reg .b32 %lin,%tn,%tm,%gsz,%grpr,%rem,%col0,%gw,%trow,%tcol;
",
    );
    let t = mma::RASTER_REGS@;
    let k = Seq::<Kind>::empty();
    assert(scan::span(t, 0, 49, scan::neutral(), k) == scan::neutral()) by {
        reveal_with_fuel(scan::span, 50);
    }
    scan::lemma_span(t, 0, 49, scan::neutral(), scan::neutral(), k);
    assert(scan::span(t, 49, 66, scan::neutral(), k) == scan::neutral()) by {
        reveal_with_fuel(scan::span, 18);
    }
    scan::lemma_span(t, 49, 66, scan::neutral(), scan::neutral(), k);
    reveal(scan::scan);
    scan::lemma_tidy_constant(t);
}

/// How [`mma::ACT_REGS`] is read.
pub proof fn lemma_mma_act_regs()
    ensures
        scan::tidy(mma::ACT_REGS@),
{
    reveal_strlit(
        "    .reg .f32 %act0,%act1;
",
    );
    let t = mma::ACT_REGS@;
    let k = Seq::<Kind>::empty();
    assert(scan::span(t, 0, 27, scan::neutral(), k) == scan::neutral()) by {
        reveal_with_fuel(scan::span, 28);
    }
    scan::lemma_span(t, 0, 27, scan::neutral(), scan::neutral(), k);
    reveal(scan::scan);
    scan::lemma_tidy_constant(t);
}

/// How [`mma::SWIZZLE_REGS`] is read.
pub proof fn lemma_mma_swizzle_regs()
    ensures
        scan::tidy(mma::SWIZZLE_REGS@),
{
    reveal_strlit(
        "    .reg .b32 %phaseA,%phaseB,%arowb,%browb,%la16,%lb8,%swztmp,%tmp3;
",
    );
    let t = mma::SWIZZLE_REGS@;
    let k = Seq::<Kind>::empty();
    assert(scan::span(t, 0, 50, scan::neutral(), k) == scan::neutral()) by {
        reveal_with_fuel(scan::span, 51);
    }
    scan::lemma_span(t, 0, 50, scan::neutral(), scan::neutral(), k);
    assert(scan::span(t, 50, 70, scan::neutral(), k) == scan::neutral()) by {
        reveal_with_fuel(scan::span, 21);
    }
    scan::lemma_span(t, 50, 70, scan::neutral(), scan::neutral(), k);
    reveal(scan::scan);
    scan::lemma_tidy_constant(t);
}

/// How [`mma::MMA_TYPES`] is read.
pub proof fn lemma_mma_mma_types(at: int)
    requires
        scan::inside(at),
    ensures
        scan::scan(mma::MMA_TYPES@, 0, at, seq![Kind::Type]) == scan::neutral(),
{
    reveal_strlit("f32.#0.#0.f32");
    let t = mma::MMA_TYPES@;
    let k = seq![Kind::Type];
    scan::lemma_hole(k, '0', Kind::Type);
    assert(scan::span(t, 0, 13, at, k) == scan::neutral()) by {
        reveal_with_fuel(scan::span, 14);
    }
    scan::lemma_span(t, 0, 13, at, scan::neutral(), k);
    reveal(scan::scan);
}

/// How [`mma::LANES`] is read.
pub proof fn lemma_mma_lanes()
    ensures
        scan::scan(
            mma::LANES@,
            0,
            scan::neutral(),
            seq![Kind::Calm, Kind::Calm, Kind::Calm, Kind::Calm, Kind::Calm],
        ) == scan::neutral(),
{
    reveal_strlit(
        "    mov.u32 %tix,%tid.x;
    shr.u32 %warpId,%tix,5;
    and.b32 %lane,%tix,31;
    shr.u32 %grp,%lane,2;
    and.b32 %tg,%lane,3;
    shl.b32 %tg2,%tg,1;
    shr.u32 %warpRow,%warpId,#0;
    and.b32 %warpCol,%warpId,#1;
    mul.lo.s32 %warpMrow,%warpRow,#2;
    mul.lo.s32 %warpNcol,%warpCol,#3;
    mul.lo.s32 %laneoff,%grp,#4;
    add.u32 %laneoff,%laneoff,%tg2;
    shl.b32 %laneoff,%laneoff,1;
",
    );
    let t = mma::LANES@;
    let k = seq![Kind::Calm, Kind::Calm, Kind::Calm, Kind::Calm, Kind::Calm];
    scan::lemma_hole(k, '0', Kind::Calm);
    scan::lemma_hole(k, '1', Kind::Calm);
    scan::lemma_hole(k, '2', Kind::Calm);
    scan::lemma_hole(k, '3', Kind::Calm);
    scan::lemma_hole(k, '4', Kind::Calm);
    assert(scan::span(t, 0, 25, scan::neutral(), k) == scan::neutral()) by {
        reveal_with_fuel(scan::span, 26);
    }
    scan::lemma_span(t, 0, 25, scan::neutral(), scan::neutral(), k);
    assert(scan::span(t, 25, 53, scan::neutral(), k) == scan::neutral()) by {
        reveal_with_fuel(scan::span, 29);
    }
    scan::lemma_span(t, 25, 53, scan::neutral(), scan::neutral(), k);
    assert(scan::span(t, 53, 80, scan::neutral(), k) == scan::neutral()) by {
        reveal_with_fuel(scan::span, 28);
    }
    scan::lemma_span(t, 53, 80, scan::neutral(), scan::neutral(), k);
    assert(scan::span(t, 80, 106, scan::neutral(), k) == scan::neutral()) by {
        reveal_with_fuel(scan::span, 27);
    }
    scan::lemma_span(t, 80, 106, scan::neutral(), scan::neutral(), k);
    assert(scan::span(t, 106, 155, scan::neutral(), k) == scan::neutral()) by {
        reveal_with_fuel(scan::span, 50);
    }
    scan::lemma_span(t, 106, 155, scan::neutral(), scan::neutral(), k);
    assert(scan::span(t, 155, 188, scan::neutral(), k) == scan::neutral()) by {
        reveal_with_fuel(scan::span, 34);
    }
    scan::lemma_span(t, 155, 188, scan::neutral(), scan::neutral(), k);
    assert(scan::span(t, 188, 221, scan::neutral(), k) == scan::neutral()) by {
        reveal_with_fuel(scan::span, 34);
    }
    scan::lemma_span(t, 188, 221, scan::neutral(), scan::neutral(), k);
    assert(scan::span(t, 221, 259, scan::neutral(), k) == scan::neutral()) by {
        reveal_with_fuel(scan::span, 39);
    }
    scan::lemma_span(t, 221, 259, scan::neutral(), scan::neutral(), k);
    assert(scan::span(t, 259, 297, scan::neutral(), k) == scan::neutral()) by {
        reveal_with_fuel(scan::span, 39);
    }
    scan::lemma_span(t, 259, 297, scan::neutral(), scan::neutral(), k);
    assert(scan::span(t, 297, 330, scan::neutral(), k) == scan::neutral()) by {
        reveal_with_fuel(scan::span, 34);
    }
    scan::lemma_span(t, 297, 330, scan::neutral(), scan::neutral(), k);
    assert(scan::span(t, 330, 366, scan::neutral(), k) == scan::neutral()) by {
        reveal_with_fuel(scan::span, 37);
    }
    scan::lemma_span(t, 330, 366, scan::neutral(), scan::neutral(), k);
    assert(scan::span(t, 366, 399, scan::neutral(), k) == scan::neutral()) by {
        reveal_with_fuel(scan::span, 34);
    }
    scan::lemma_span(t, 366, 399, scan::neutral(), scan::neutral(), k);
    reveal(scan::scan);
}

/// How [`mma::SWIZZLE_LANES`] is read.
pub proof fn lemma_mma_swizzle_lanes()
    ensures
        scan::scan(
            mma::SWIZZLE_LANES@,
            0,
            scan::neutral(),
            seq![Kind::Calm, Kind::Calm],
        ) == scan::neutral(),
{
    reveal_strlit(
        "    and.b32 %tmp,%lane,15;
    add.u32 %tmp2,%tmp,%warpMrow;
    mul.lo.s32 %arowb,%tmp2,#0;
    shr.u32 %tmp2,%tmp,1;
    and.b32 %phaseA,%tmp2,#1;
    shr.u32 %la16,%lane,4;
    and.b32 %tmp,%lane,7;
    add.u32 %tmp2,%tmp,%warpNcol;
    mul.lo.s32 %browb,%tmp2,#0;
    shr.u32 %tmp2,%tmp,1;
    and.b32 %phaseB,%tmp2,#1;
    shr.u32 %tmp,%lane,3;
    and.b32 %lb8,%tmp,1;
",
    );
    let t = mma::SWIZZLE_LANES@;
    let k = seq![Kind::Calm, Kind::Calm];
    scan::lemma_hole(k, '0', Kind::Calm);
    scan::lemma_hole(k, '1', Kind::Calm);
    assert(scan::span(t, 0, 27, scan::neutral(), k) == scan::neutral()) by {
        reveal_with_fuel(scan::span, 28);
    }
    scan::lemma_span(t, 0, 27, scan::neutral(), scan::neutral(), k);
    assert(scan::span(t, 27, 61, scan::neutral(), k) == scan::neutral()) by {
        reveal_with_fuel(scan::span, 35);
    }
    scan::lemma_span(t, 27, 61, scan::neutral(), scan::neutral(), k);
    assert(scan::span(t, 61, 93, scan::neutral(), k) == scan::neutral()) by {
        reveal_with_fuel(scan::span, 33);
    }
    scan::lemma_span(t, 61, 93, scan::neutral(), scan::neutral(), k);
    assert(scan::span(t, 93, 119, scan::neutral(), k) == scan::neutral()) by {
        reveal_with_fuel(scan::span, 27);
    }
    scan::lemma_span(t, 93, 119, scan::neutral(), scan::neutral(), k);
    assert(scan::span(t, 119, 149, scan::neutral(), k) == scan::neutral()) by {
        reveal_with_fuel(scan::span, 31);
    }
    scan::lemma_span(t, 119, 149, scan::neutral(), scan::neutral(), k);
    assert(scan::span(t, 149, 176, scan::neutral(), k) == scan::neutral()) by {
        reveal_with_fuel(scan::span, 28);
    }
    scan::lemma_span(t, 149, 176, scan::neutral(), scan::neutral(), k);
    assert(scan::span(t, 176, 202, scan::neutral(), k) == scan::neutral()) by {
        reveal_with_fuel(scan::span, 27);
    }
    scan::lemma_span(t, 176, 202, scan::neutral(), scan::neutral(), k);
    assert(scan::span(t, 202, 236, scan::neutral(), k) == scan::neutral()) by {
        reveal_with_fuel(scan::span, 35);
    }
    scan::lemma_span(t, 202, 236, scan::neutral(), scan::neutral(), k);
    assert(scan::span(t, 236, 268, scan::neutral(), k) == scan::neutral()) by {
        reveal_with_fuel(scan::span, 33);
    }
    scan::lemma_span(t, 236, 268, scan::neutral(), scan::neutral(), k);
    assert(scan::span(t, 268, 294, scan::neutral(), k) == scan::neutral()) by {
        reveal_with_fuel(scan::span, 27);
    }
    scan::lemma_span(t, 268, 294, scan::neutral(), scan::neutral(), k);
    assert(scan::span(t, 294, 324, scan::neutral(), k) == scan::neutral()) by {
        reveal_with_fuel(scan::span, 31);
    }
    scan::lemma_span(t, 294, 324, scan::neutral(), scan::neutral(), k);
    assert(scan::span(t, 324, 350, scan::neutral(), k) == scan::neutral()) by {
        reveal_with_fuel(scan::span, 27);
    }
    scan::lemma_span(t, 324, 350, scan::neutral(), scan::neutral(), k);
    assert(scan::span(t, 350, 375, scan::neutral(), k) == scan::neutral()) by {
        reveal_with_fuel(scan::span, 26);
    }
    scan::lemma_span(t, 350, 375, scan::neutral(), scan::neutral(), k);
    reveal(scan::scan);
}

/// How [`mma::BASE`] is read.
pub proof fn lemma_mma_base(end: int)
    requires
        end == scan::at_name() || end == scan::neutral(),
    ensures
        scan::scan(
            mma::BASE@,
            0,
            scan::neutral(),
            seq![Kind::Calm, Kind::Ends(end)],
        ) == scan::neutral(),
{
    reveal_strlit(
        "    mov.u32 #0,#1;
",
    );
    let t = mma::BASE@;
    let k = seq![Kind::Calm, Kind::Ends(end)];
    scan::lemma_hole(k, '0', Kind::Calm);
    scan::lemma_hole(k, '1', Kind::Ends(end));
    assert(scan::span(t, 0, 19, scan::neutral(), k) == scan::neutral()) by {
        reveal_with_fuel(scan::span, 20);
    }
    scan::lemma_span(t, 0, 19, scan::neutral(), scan::neutral(), k);
    reveal(scan::scan);
}

/// How [`mma::BASE_BEHIND`] is read.
pub proof fn lemma_mma_base_behind(end: int)
    requires
        end == scan::at_name() || end == scan::neutral(),
    ensures
        scan::scan(
            mma::BASE_BEHIND@,
            0,
            scan::neutral(),
            seq![Kind::Calm, Kind::Ends(end), Kind::Calm],
        ) == scan::neutral(),
{
    reveal_strlit(
        "    mov.u32 #0,#1;
    add.u32 #0,#0,#2;
",
    );
    let t = mma::BASE_BEHIND@;
    let k = seq![Kind::Calm, Kind::Ends(end), Kind::Calm];
    scan::lemma_hole(k, '0', Kind::Calm);
    scan::lemma_hole(k, '1', Kind::Ends(end));
    scan::lemma_hole(k, '2', Kind::Calm);
    assert(scan::span(t, 0, 41, scan::neutral(), k) == scan::neutral()) by {
        reveal_with_fuel(scan::span, 42);
    }
    scan::lemma_span(t, 0, 41, scan::neutral(), scan::neutral(), k);
    reveal(scan::scan);
}

/// How [`mma::STAGE_PADDED`] is read.
pub proof fn lemma_mma_stage_padded()
    ensures
        scan::scan(
            mma::STAGE_PADDED@,
            0,
            scan::neutral(),
            seq![
                Kind::Calm,
                Kind::Calm,
                Kind::Ends(scan::neutral()),
                Kind::Calm,
                Kind::Calm,
                Kind::Calm,
                Kind::Calm,
            ],
        ) == scan::neutral(),
{
    reveal_strlit(
        "    shr.u32 %r,%e,#4;
    and.b32 %c,%e,#5;
    shl.b32 %c,%c,3;
    add.u32 %tmp,#0,%r;
    mul.lo.s32 %tmp,%tmp,%K;
    add.u32 %tmp,%tmp,%kcol;
    add.u32 %tmp,%tmp,%c;
    mul.wide.u32 %off,%tmp,2;
    add.s64 %gptr,#1,%off;
#2    add.u32 %tmp,%tmp,#3;
    mul.lo.s32 %tmp2,%r,#6;
    add.u32 %tmp,%tmp,%tmp2;
    shl.b32 %tmp2,%c,1;
    add.u32 %tmp,%tmp,%tmp2;
    cp.async.cg.shared.global [%tmp],[%gptr],16;
",
    );
    let t = mma::STAGE_PADDED@;
    let k = seq![
        Kind::Calm,
        Kind::Calm,
        Kind::Ends(scan::neutral()),
        Kind::Calm,
        Kind::Calm,
        Kind::Calm,
        Kind::Calm,
    ];
    scan::lemma_hole(k, '0', Kind::Calm);
    scan::lemma_hole(k, '1', Kind::Calm);
    scan::lemma_hole(k, '2', Kind::Ends(scan::neutral()));
    scan::lemma_hole(k, '3', Kind::Calm);
    scan::lemma_hole(k, '4', Kind::Calm);
    scan::lemma_hole(k, '5', Kind::Calm);
    scan::lemma_hole(k, '6', Kind::Calm);
    assert(scan::span(t, 0, 44, scan::neutral(), k) == scan::neutral()) by {
        reveal_with_fuel(scan::span, 45);
    }
    scan::lemma_span(t, 0, 44, scan::neutral(), scan::neutral(), k);
    assert(scan::span(t, 44, 89, scan::neutral(), k) == scan::neutral()) by {
        reveal_with_fuel(scan::span, 46);
    }
    scan::lemma_span(t, 44, 89, scan::neutral(), scan::neutral(), k);
    assert(scan::span(t, 89, 118, scan::neutral(), k) == scan::neutral()) by {
        reveal_with_fuel(scan::span, 30);
    }
    scan::lemma_span(t, 89, 118, scan::neutral(), scan::neutral(), k);
    assert(scan::span(t, 118, 147, scan::neutral(), k) == scan::neutral()) by {
        reveal_with_fuel(scan::span, 30);
    }
    scan::lemma_span(t, 118, 147, scan::neutral(), scan::neutral(), k);
    assert(scan::span(t, 147, 173, scan::neutral(), k) == scan::neutral()) by {
        reveal_with_fuel(scan::span, 27);
    }
    scan::lemma_span(t, 147, 173, scan::neutral(), scan::neutral(), k);
    assert(scan::span(t, 173, 203, scan::neutral(), k) == scan::neutral()) by {
        reveal_with_fuel(scan::span, 31);
    }
    scan::lemma_span(t, 173, 203, scan::neutral(), scan::neutral(), k);
    assert(scan::span(t, 203, 230, scan::neutral(), k) == scan::neutral()) by {
        reveal_with_fuel(scan::span, 28);
    }
    scan::lemma_span(t, 203, 230, scan::neutral(), scan::neutral(), k);
    assert(scan::span(t, 230, 258, scan::neutral(), k) == scan::neutral()) by {
        reveal_with_fuel(scan::span, 29);
    }
    scan::lemma_span(t, 230, 258, scan::neutral(), scan::neutral(), k);
    assert(scan::span(t, 258, 286, scan::neutral(), k) == scan::neutral()) by {
        reveal_with_fuel(scan::span, 29);
    }
    scan::lemma_span(t, 258, 286, scan::neutral(), scan::neutral(), k);
    assert(scan::span(t, 286, 315, scan::neutral(), k) == scan::neutral()) by {
        reveal_with_fuel(scan::span, 30);
    }
    scan::lemma_span(t, 286, 315, scan::neutral(), scan::neutral(), k);
    assert(scan::span(t, 315, 339, scan::neutral(), k) == scan::neutral()) by {
        reveal_with_fuel(scan::span, 25);
    }
    scan::lemma_span(t, 315, 339, scan::neutral(), scan::neutral(), k);
    assert(scan::span(t, 339, 368, scan::neutral(), k) == scan::neutral()) by {
        reveal_with_fuel(scan::span, 30);
    }
    scan::lemma_span(t, 339, 368, scan::neutral(), scan::neutral(), k);
    assert(scan::span(t, 368, 417, scan::neutral(), k) == scan::neutral()) by {
        reveal_with_fuel(scan::span, 50);
    }
    scan::lemma_span(t, 368, 417, scan::neutral(), scan::neutral(), k);
    reveal(scan::scan);
}

/// How [`mma::STAGE_SWIZZLED`] is read.
pub proof fn lemma_mma_stage_swizzled()
    ensures
        scan::scan(
            mma::STAGE_SWIZZLED@,
            0,
            scan::neutral(),
            seq![
                Kind::Calm,
                Kind::Calm,
                Kind::Ends(scan::neutral()),
                Kind::Calm,
                Kind::Calm,
                Kind::Calm,
                Kind::Calm,
            ],
        ) == scan::neutral(),
{
    reveal_strlit(
        "    shr.u32 %r,%e,#4;
    and.b32 %c,%e,#5;
    shl.b32 %c,%c,3;
    add.u32 %tmp,#0,%r;
    mul.lo.s32 %tmp,%tmp,%K;
    add.u32 %tmp,%tmp,%kcol;
    add.u32 %tmp,%tmp,%c;
    mul.wide.u32 %off,%tmp,2;
    add.s64 %gptr,#1,%off;
    shr.u32 %swztmp,%c,3;
    shr.u32 %tmp2,%r,1;
    and.b32 %tmp2,%tmp2,#5;
    xor.b32 %swztmp,%swztmp,%tmp2;
    shl.b32 %swztmp,%swztmp,4;
#2    add.u32 %tmp,%tmp,#3;
    mul.lo.s32 %tmp3,%r,#6;
    add.u32 %tmp,%tmp,%tmp3;
    add.u32 %tmp,%tmp,%swztmp;
    cp.async.cg.shared.global [%tmp],[%gptr],16;
",
    );
    let t = mma::STAGE_SWIZZLED@;
    let k = seq![
        Kind::Calm,
        Kind::Calm,
        Kind::Ends(scan::neutral()),
        Kind::Calm,
        Kind::Calm,
        Kind::Calm,
        Kind::Calm,
    ];
    scan::lemma_hole(k, '0', Kind::Calm);
    scan::lemma_hole(k, '1', Kind::Calm);
    scan::lemma_hole(k, '2', Kind::Ends(scan::neutral()));
    scan::lemma_hole(k, '3', Kind::Calm);
    scan::lemma_hole(k, '4', Kind::Calm);
    scan::lemma_hole(k, '5', Kind::Calm);
    scan::lemma_hole(k, '6', Kind::Calm);
    assert(scan::span(t, 0, 44, scan::neutral(), k) == scan::neutral()) by {
        reveal_with_fuel(scan::span, 45);
    }
    scan::lemma_span(t, 0, 44, scan::neutral(), scan::neutral(), k);
    assert(scan::span(t, 44, 89, scan::neutral(), k) == scan::neutral()) by {
        reveal_with_fuel(scan::span, 46);
    }
    scan::lemma_span(t, 44, 89, scan::neutral(), scan::neutral(), k);
    assert(scan::span(t, 89, 118, scan::neutral(), k) == scan::neutral()) by {
        reveal_with_fuel(scan::span, 30);
    }
    scan::lemma_span(t, 89, 118, scan::neutral(), scan::neutral(), k);
    assert(scan::span(t, 118, 147, scan::neutral(), k) == scan::neutral()) by {
        reveal_with_fuel(scan::span, 30);
    }
    scan::lemma_span(t, 118, 147, scan::neutral(), scan::neutral(), k);
    assert(scan::span(t, 147, 173, scan::neutral(), k) == scan::neutral()) by {
        reveal_with_fuel(scan::span, 27);
    }
    scan::lemma_span(t, 147, 173, scan::neutral(), scan::neutral(), k);
    assert(scan::span(t, 173, 203, scan::neutral(), k) == scan::neutral()) by {
        reveal_with_fuel(scan::span, 31);
    }
    scan::lemma_span(t, 173, 203, scan::neutral(), scan::neutral(), k);
    assert(scan::span(t, 203, 230, scan::neutral(), k) == scan::neutral()) by {
        reveal_with_fuel(scan::span, 28);
    }
    scan::lemma_span(t, 203, 230, scan::neutral(), scan::neutral(), k);
    assert(scan::span(t, 230, 280, scan::neutral(), k) == scan::neutral()) by {
        reveal_with_fuel(scan::span, 51);
    }
    scan::lemma_span(t, 230, 280, scan::neutral(), scan::neutral(), k);
    assert(scan::span(t, 280, 308, scan::neutral(), k) == scan::neutral()) by {
        reveal_with_fuel(scan::span, 29);
    }
    scan::lemma_span(t, 280, 308, scan::neutral(), scan::neutral(), k);
    assert(scan::span(t, 308, 343, scan::neutral(), k) == scan::neutral()) by {
        reveal_with_fuel(scan::span, 36);
    }
    scan::lemma_span(t, 308, 343, scan::neutral(), scan::neutral(), k);
    assert(scan::span(t, 343, 374, scan::neutral(), k) == scan::neutral()) by {
        reveal_with_fuel(scan::span, 32);
    }
    scan::lemma_span(t, 343, 374, scan::neutral(), scan::neutral(), k);
    assert(scan::span(t, 374, 402, scan::neutral(), k) == scan::neutral()) by {
        reveal_with_fuel(scan::span, 29);
    }
    scan::lemma_span(t, 374, 402, scan::neutral(), scan::neutral(), k);
    assert(scan::span(t, 402, 430, scan::neutral(), k) == scan::neutral()) by {
        reveal_with_fuel(scan::span, 29);
    }
    scan::lemma_span(t, 402, 430, scan::neutral(), scan::neutral(), k);
    assert(scan::span(t, 430, 459, scan::neutral(), k) == scan::neutral()) by {
        reveal_with_fuel(scan::span, 30);
    }
    scan::lemma_span(t, 430, 459, scan::neutral(), scan::neutral(), k);
    assert(scan::span(t, 459, 490, scan::neutral(), k) == scan::neutral()) by {
        reveal_with_fuel(scan::span, 32);
    }
    scan::lemma_span(t, 459, 490, scan::neutral(), scan::neutral(), k);
    assert(scan::span(t, 490, 539, scan::neutral(), k) == scan::neutral()) by {
        reveal_with_fuel(scan::span, 50);
    }
    scan::lemma_span(t, 490, 539, scan::neutral(), scan::neutral(), k);
    reveal(scan::scan);
}

/// How [`mma::A_SWIZZLED`] is read.
pub proof fn lemma_mma_a_swizzled()
    ensures
        scan::scan(
            mma::A_SWIZZLED@,
            0,
            scan::neutral(),
            seq![Kind::Ends(scan::neutral()), Kind::Calm],
        ) == scan::neutral(),
{
    reveal_strlit(
        "#0    add.u32 %aptr,%aptr,%bufcA;
    add.u32 %aptr,%aptr,%arowb;
    or.b32 %swztmp,%la16,#1;
    xor.b32 %swztmp,%swztmp,%phaseA;
    shl.b32 %swztmp,%swztmp,4;
",
    );
    let t = mma::A_SWIZZLED@;
    let k = seq![Kind::Ends(scan::neutral()), Kind::Calm];
    scan::lemma_hole(k, '0', Kind::Ends(scan::neutral()));
    scan::lemma_hole(k, '1', Kind::Calm);
    assert(scan::span(t, 0, 34, scan::neutral(), k) == scan::neutral()) by {
        reveal_with_fuel(scan::span, 35);
    }
    scan::lemma_span(t, 0, 34, scan::neutral(), scan::neutral(), k);
    assert(scan::span(t, 34, 66, scan::neutral(), k) == scan::neutral()) by {
        reveal_with_fuel(scan::span, 33);
    }
    scan::lemma_span(t, 34, 66, scan::neutral(), scan::neutral(), k);
    assert(scan::span(t, 66, 95, scan::neutral(), k) == scan::neutral()) by {
        reveal_with_fuel(scan::span, 30);
    }
    scan::lemma_span(t, 66, 95, scan::neutral(), scan::neutral(), k);
    assert(scan::span(t, 95, 132, scan::neutral(), k) == scan::neutral()) by {
        reveal_with_fuel(scan::span, 38);
    }
    scan::lemma_span(t, 95, 132, scan::neutral(), scan::neutral(), k);
    assert(scan::span(t, 132, 163, scan::neutral(), k) == scan::neutral()) by {
        reveal_with_fuel(scan::span, 32);
    }
    scan::lemma_span(t, 132, 163, scan::neutral(), scan::neutral(), k);
    reveal(scan::scan);
}

/// How [`mma::LOAD_A_SWIZZLED`] is read.
pub proof fn lemma_mma_load_a_swizzled()
    ensures
        scan::scan(
            mma::LOAD_A_SWIZZLED@,
            0,
            scan::neutral(),
            seq![Kind::Calm, Kind::Calm],
        ) == scan::neutral(),
{
    reveal_strlit(
        "    add.u32 %tmp,%aptr,%swztmp;
    add.u32 %tmp,%tmp,#1;
    ldmatrix.sync.aligned.m8n8.x4.shared.b16 {%a#0_0,%a#0_1,%a#0_2,%a#0_3},[%tmp];
",
    );
    let t = mma::LOAD_A_SWIZZLED@;
    let k = seq![Kind::Calm, Kind::Calm];
    scan::lemma_hole(k, '0', Kind::Calm);
    scan::lemma_hole(k, '1', Kind::Calm);
    assert(scan::span(t, 0, 32, scan::neutral(), k) == scan::neutral()) by {
        reveal_with_fuel(scan::span, 33);
    }
    scan::lemma_span(t, 0, 32, scan::neutral(), scan::neutral(), k);
    assert(scan::span(t, 32, 58, scan::neutral(), k) == scan::neutral()) by {
        reveal_with_fuel(scan::span, 27);
    }
    scan::lemma_span(t, 32, 58, scan::neutral(), scan::neutral(), k);
    assert(scan::span(t, 58, 103, scan::neutral(), k) == scan::neutral()) by {
        reveal_with_fuel(scan::span, 46);
    }
    scan::lemma_span(t, 58, 103, scan::neutral(), scan::neutral(), k);
    assert(scan::span(t, 103, 141, scan::neutral(), k) == scan::neutral()) by {
        reveal_with_fuel(scan::span, 39);
    }
    scan::lemma_span(t, 103, 141, scan::neutral(), scan::neutral(), k);
    reveal(scan::scan);
}

/// How [`mma::B_SWIZZLED`] is read.
pub proof fn lemma_mma_b_swizzled()
    ensures
        scan::scan(
            mma::B_SWIZZLED@,
            0,
            scan::neutral(),
            seq![Kind::Ends(scan::neutral()), Kind::Calm, Kind::Calm],
        ) == scan::neutral(),
{
    reveal_strlit(
        "#0    add.u32 %bptr,%bptr,#2;
    add.u32 %bptr,%bptr,%browb;
    or.b32 %swztmp,%lb8,#1;
    xor.b32 %swztmp,%swztmp,%phaseB;
    shl.b32 %swztmp,%swztmp,4;
",
    );
    let t = mma::B_SWIZZLED@;
    let k = seq![Kind::Ends(scan::neutral()), Kind::Calm, Kind::Calm];
    scan::lemma_hole(k, '0', Kind::Ends(scan::neutral()));
    scan::lemma_hole(k, '1', Kind::Calm);
    scan::lemma_hole(k, '2', Kind::Calm);
    assert(scan::span(t, 0, 30, scan::neutral(), k) == scan::neutral()) by {
        reveal_with_fuel(scan::span, 31);
    }
    scan::lemma_span(t, 0, 30, scan::neutral(), scan::neutral(), k);
    assert(scan::span(t, 30, 62, scan::neutral(), k) == scan::neutral()) by {
        reveal_with_fuel(scan::span, 33);
    }
    scan::lemma_span(t, 30, 62, scan::neutral(), scan::neutral(), k);
    assert(scan::span(t, 62, 90, scan::neutral(), k) == scan::neutral()) by {
        reveal_with_fuel(scan::span, 29);
    }
    scan::lemma_span(t, 62, 90, scan::neutral(), scan::neutral(), k);
    assert(scan::span(t, 90, 127, scan::neutral(), k) == scan::neutral()) by {
        reveal_with_fuel(scan::span, 38);
    }
    scan::lemma_span(t, 90, 127, scan::neutral(), scan::neutral(), k);
    assert(scan::span(t, 127, 158, scan::neutral(), k) == scan::neutral()) by {
        reveal_with_fuel(scan::span, 32);
    }
    scan::lemma_span(t, 127, 158, scan::neutral(), scan::neutral(), k);
    reveal(scan::scan);
}

/// How [`mma::LOAD_B_SWIZZLED`] is read.
pub proof fn lemma_mma_load_b_swizzled()
    ensures
        scan::scan(
            mma::LOAD_B_SWIZZLED@,
            0,
            scan::neutral(),
            seq![Kind::Calm, Kind::Calm, Kind::Calm],
        ) == scan::neutral(),
{
    reveal_strlit(
        "    add.u32 %tmp,%bptr,%swztmp;
    add.u32 %tmp,%tmp,#1;
    ldmatrix.sync.aligned.m8n8.x2.shared.b16 {%#2#0_0,%#2#0_1},[%tmp];
",
    );
    let t = mma::LOAD_B_SWIZZLED@;
    let k = seq![Kind::Calm, Kind::Calm, Kind::Calm];
    scan::lemma_hole(k, '0', Kind::Calm);
    scan::lemma_hole(k, '1', Kind::Calm);
    scan::lemma_hole(k, '2', Kind::Calm);
    assert(scan::span(t, 0, 32, scan::neutral(), k) == scan::neutral()) by {
        reveal_with_fuel(scan::span, 33);
    }
    scan::lemma_span(t, 0, 32, scan::neutral(), scan::neutral(), k);
    assert(scan::span(t, 32, 58, scan::neutral(), k) == scan::neutral()) by {
        reveal_with_fuel(scan::span, 27);
    }
    scan::lemma_span(t, 32, 58, scan::neutral(), scan::neutral(), k);
    assert(scan::span(t, 58, 103, scan::neutral(), k) == scan::neutral()) by {
        reveal_with_fuel(scan::span, 46);
    }
    scan::lemma_span(t, 58, 103, scan::neutral(), scan::neutral(), k);
    assert(scan::span(t, 103, 129, scan::neutral(), k) == scan::neutral()) by {
        reveal_with_fuel(scan::span, 27);
    }
    scan::lemma_span(t, 103, 129, scan::neutral(), scan::neutral(), k);
    reveal(scan::scan);
}

/// How [`mma::A_PADDED`] is read.
pub proof fn lemma_mma_a_padded()
    ensures
        scan::scan(
            mma::A_PADDED@,
            0,
            scan::neutral(),
            seq![Kind::Ends(scan::neutral()), Kind::Calm, Kind::Calm],
        ) == scan::neutral(),
{
    reveal_strlit(
        "#0    add.u32 %aptr,%aptr,%bufcA;
    mul.lo.s32 %tmp,%warpMrow,#2;
    shl.b32 %tmp,%tmp,1;
    add.u32 %aptr,%aptr,%tmp;
    add.u32 %aptr,%aptr,%laneoff;
    add.u32 %aptr,%aptr,#1;
",
    );
    let t = mma::A_PADDED@;
    let k = seq![Kind::Ends(scan::neutral()), Kind::Calm, Kind::Calm];
    scan::lemma_hole(k, '0', Kind::Ends(scan::neutral()));
    scan::lemma_hole(k, '1', Kind::Calm);
    scan::lemma_hole(k, '2', Kind::Calm);
    assert(scan::span(t, 0, 34, scan::neutral(), k) == scan::neutral()) by {
        reveal_with_fuel(scan::span, 35);
    }
    scan::lemma_span(t, 0, 34, scan::neutral(), scan::neutral(), k);
    assert(scan::span(t, 34, 68, scan::neutral(), k) == scan::neutral()) by {
        reveal_with_fuel(scan::span, 35);
    }
    scan::lemma_span(t, 34, 68, scan::neutral(), scan::neutral(), k);
    assert(scan::span(t, 68, 93, scan::neutral(), k) == scan::neutral()) by {
        reveal_with_fuel(scan::span, 26);
    }
    scan::lemma_span(t, 68, 93, scan::neutral(), scan::neutral(), k);
    assert(scan::span(t, 93, 123, scan::neutral(), k) == scan::neutral()) by {
        reveal_with_fuel(scan::span, 31);
    }
    scan::lemma_span(t, 93, 123, scan::neutral(), scan::neutral(), k);
    assert(scan::span(t, 123, 157, scan::neutral(), k) == scan::neutral()) by {
        reveal_with_fuel(scan::span, 35);
    }
    scan::lemma_span(t, 123, 157, scan::neutral(), scan::neutral(), k);
    assert(scan::span(t, 157, 185, scan::neutral(), k) == scan::neutral()) by {
        reveal_with_fuel(scan::span, 29);
    }
    scan::lemma_span(t, 157, 185, scan::neutral(), scan::neutral(), k);
    reveal(scan::scan);
}

/// How [`mma::LOAD_A_PADDED`] is read.
pub proof fn lemma_mma_load_a_padded()
    ensures
        scan::scan(
            mma::LOAD_A_PADDED@,
            0,
            scan::neutral(),
            seq![Kind::Calm, Kind::Calm, Kind::Calm, Kind::Calm, Kind::Calm],
        ) == scan::neutral(),
{
    reveal_strlit(
        "    ld.shared.b32 %a#0_0,[%aptr+#1];
    ld.shared.b32 %a#0_2,[%aptr+#2];
    ld.shared.b32 %a#0_1,[%aptr+#3];
    ld.shared.b32 %a#0_3,[%aptr+#4];
",
    );
    let t = mma::LOAD_A_PADDED@;
    let k = seq![Kind::Calm, Kind::Calm, Kind::Calm, Kind::Calm, Kind::Calm];
    scan::lemma_hole(k, '0', Kind::Calm);
    scan::lemma_hole(k, '1', Kind::Calm);
    scan::lemma_hole(k, '2', Kind::Calm);
    scan::lemma_hole(k, '3', Kind::Calm);
    scan::lemma_hole(k, '4', Kind::Calm);
    assert(scan::span(t, 0, 37, scan::neutral(), k) == scan::neutral()) by {
        reveal_with_fuel(scan::span, 38);
    }
    scan::lemma_span(t, 0, 37, scan::neutral(), scan::neutral(), k);
    assert(scan::span(t, 37, 74, scan::neutral(), k) == scan::neutral()) by {
        reveal_with_fuel(scan::span, 38);
    }
    scan::lemma_span(t, 37, 74, scan::neutral(), scan::neutral(), k);
    assert(scan::span(t, 74, 111, scan::neutral(), k) == scan::neutral()) by {
        reveal_with_fuel(scan::span, 38);
    }
    scan::lemma_span(t, 74, 111, scan::neutral(), scan::neutral(), k);
    assert(scan::span(t, 111, 148, scan::neutral(), k) == scan::neutral()) by {
        reveal_with_fuel(scan::span, 38);
    }
    scan::lemma_span(t, 111, 148, scan::neutral(), scan::neutral(), k);
    reveal(scan::scan);
}

/// How [`mma::B_PADDED`] is read.
pub proof fn lemma_mma_b_padded()
    ensures
        scan::scan(
            mma::B_PADDED@,
            0,
            scan::neutral(),
            seq![Kind::Ends(scan::neutral()), Kind::Calm, Kind::Calm, Kind::Calm],
        ) == scan::neutral(),
{
    reveal_strlit(
        "#0    add.u32 %bptr,%bptr,#3;
    mul.lo.s32 %tmp,%warpNcol,#2;
    shl.b32 %tmp,%tmp,1;
    add.u32 %bptr,%bptr,%tmp;
    add.u32 %bptr,%bptr,%laneoff;
    add.u32 %bptr,%bptr,#1;
",
    );
    let t = mma::B_PADDED@;
    let k = seq![Kind::Ends(scan::neutral()), Kind::Calm, Kind::Calm, Kind::Calm];
    scan::lemma_hole(k, '0', Kind::Ends(scan::neutral()));
    scan::lemma_hole(k, '1', Kind::Calm);
    scan::lemma_hole(k, '2', Kind::Calm);
    scan::lemma_hole(k, '3', Kind::Calm);
    assert(scan::span(t, 0, 30, scan::neutral(), k) == scan::neutral()) by {
        reveal_with_fuel(scan::span, 31);
    }
    scan::lemma_span(t, 0, 30, scan::neutral(), scan::neutral(), k);
    assert(scan::span(t, 30, 64, scan::neutral(), k) == scan::neutral()) by {
        reveal_with_fuel(scan::span, 35);
    }
    scan::lemma_span(t, 30, 64, scan::neutral(), scan::neutral(), k);
    assert(scan::span(t, 64, 89, scan::neutral(), k) == scan::neutral()) by {
        reveal_with_fuel(scan::span, 26);
    }
    scan::lemma_span(t, 64, 89, scan::neutral(), scan::neutral(), k);
    assert(scan::span(t, 89, 119, scan::neutral(), k) == scan::neutral()) by {
        reveal_with_fuel(scan::span, 31);
    }
    scan::lemma_span(t, 89, 119, scan::neutral(), scan::neutral(), k);
    assert(scan::span(t, 119, 153, scan::neutral(), k) == scan::neutral()) by {
        reveal_with_fuel(scan::span, 35);
    }
    scan::lemma_span(t, 119, 153, scan::neutral(), scan::neutral(), k);
    assert(scan::span(t, 153, 181, scan::neutral(), k) == scan::neutral()) by {
        reveal_with_fuel(scan::span, 29);
    }
    scan::lemma_span(t, 153, 181, scan::neutral(), scan::neutral(), k);
    reveal(scan::scan);
}

/// How [`mma::LOAD_B_PADDED`] is read.
pub proof fn lemma_mma_load_b_padded()
    ensures
        scan::scan(
            mma::LOAD_B_PADDED@,
            0,
            scan::neutral(),
            seq![Kind::Calm, Kind::Calm, Kind::Calm, Kind::Calm],
        ) == scan::neutral(),
{
    reveal_strlit(
        "    ld.shared.b32 %#3#0_0,[%bptr+#1];
    ld.shared.b32 %#3#0_1,[%bptr+#2];
",
    );
    let t = mma::LOAD_B_PADDED@;
    let k = seq![Kind::Calm, Kind::Calm, Kind::Calm, Kind::Calm];
    scan::lemma_hole(k, '0', Kind::Calm);
    scan::lemma_hole(k, '1', Kind::Calm);
    scan::lemma_hole(k, '2', Kind::Calm);
    scan::lemma_hole(k, '3', Kind::Calm);
    assert(scan::span(t, 0, 38, scan::neutral(), k) == scan::neutral()) by {
        reveal_with_fuel(scan::span, 39);
    }
    scan::lemma_span(t, 0, 38, scan::neutral(), scan::neutral(), k);
    assert(scan::span(t, 38, 76, scan::neutral(), k) == scan::neutral()) by {
        reveal_with_fuel(scan::span, 39);
    }
    scan::lemma_span(t, 38, 76, scan::neutral(), scan::neutral(), k);
    reveal(scan::scan);
}

/// How [`smem_mode::DSMEM_SYM`] is read.
pub proof fn lemma_mode_dsmem_sym()
    ensures
        scan::tidy(smem_mode::DSMEM_SYM@),
{
    reveal_strlit("wk_dsmem");
    let t = smem_mode::DSMEM_SYM@;
    let k = Seq::<Kind>::empty();
    assert(scan::span(t, 0, 8, scan::neutral(), k) == scan::neutral()) by {
        reveal_with_fuel(scan::span, 9);
    }
    scan::lemma_span(t, 0, 8, scan::neutral(), scan::neutral(), k);
    reveal(scan::scan);
    scan::lemma_tidy_constant(t);
}

/// How [`smem::BUFFERS`] is read.
pub proof fn lemma_smem_buffers()
    ensures
        scan::scan(
            smem::BUFFERS@,
            0,
            scan::neutral(),
            seq![Kind::Name, Kind::Calm, Kind::Calm],
        ) == scan::neutral(),
{
    reveal_strlit(
        "{
    .shared .align 16 .b8 smemA_#0[#1];
    .shared .align 16 .b8 smemB_#0[#2];
",
    );
    let t = smem::BUFFERS@;
    let k = seq![Kind::Name, Kind::Calm, Kind::Calm];
    scan::lemma_hole(k, '0', Kind::Name);
    scan::lemma_hole(k, '1', Kind::Calm);
    scan::lemma_hole(k, '2', Kind::Calm);
    assert(scan::span(t, 0, 42, scan::neutral(), k) == scan::neutral()) by {
        reveal_with_fuel(scan::span, 43);
    }
    scan::lemma_span(t, 0, 42, scan::neutral(), scan::neutral(), k);
    assert(scan::span(t, 42, 82, scan::neutral(), k) == scan::neutral()) by {
        reveal_with_fuel(scan::span, 41);
    }
    scan::lemma_span(t, 42, 82, scan::neutral(), scan::neutral(), k);
    reveal(scan::scan);
}

/// How [`smem::A_BUFFER`] is read.
pub proof fn lemma_smem_a_buffer()
    ensures
        scan::scan(smem::A_BUFFER@, 0, scan::neutral(), seq![Kind::Name]) == scan::at_name(),
{
    reveal_strlit("smemA_#0");
    let t = smem::A_BUFFER@;
    let k = seq![Kind::Name];
    scan::lemma_hole(k, '0', Kind::Name);
    assert(scan::span(t, 0, 8, scan::neutral(), k) == scan::at_name()) by {
        reveal_with_fuel(scan::span, 9);
    }
    scan::lemma_span(t, 0, 8, scan::neutral(), scan::at_name(), k);
    reveal(scan::scan);
}

/// How [`smem::B_BUFFER`] is read.
pub proof fn lemma_smem_b_buffer()
    ensures
        scan::scan(smem::B_BUFFER@, 0, scan::neutral(), seq![Kind::Name]) == scan::at_name(),
{
    reveal_strlit("smemB_#0");
    let t = smem::B_BUFFER@;
    let k = seq![Kind::Name];
    scan::lemma_hole(k, '0', Kind::Name);
    assert(scan::span(t, 0, 8, scan::neutral(), k) == scan::at_name()) by {
        reveal_with_fuel(scan::span, 9);
    }
    scan::lemma_span(t, 0, 8, scan::neutral(), scan::at_name(), k);
    reveal(scan::scan);
}

/// How [`smem::REGS`] is read.
pub proof fn lemma_smem_regs()
    ensures
        scan::tidy(smem::REGS@),
{
    reveal_strlit(
        "    .reg .pred %p0;
    .reg .b32 %M,%N,%K,%baseRow,%baseCol,%kt,%tmp,%tmp2,%tix,%warpId,%warpRow,%warpCol,%e,%r,%c,%ldm,%v0,%v1,%v2,%v3;
",
    );
    let t = smem::REGS@;
    let k = Seq::<Kind>::empty();
    assert(scan::span(t, 0, 20, scan::neutral(), k) == scan::neutral()) by {
        reveal_with_fuel(scan::span, 21);
    }
    scan::lemma_span(t, 0, 20, scan::neutral(), scan::neutral(), k);
    assert(scan::span(t, 20, 70, scan::neutral(), k) == scan::neutral()) by {
        reveal_with_fuel(scan::span, 51);
    }
    scan::lemma_span(t, 20, 70, scan::neutral(), scan::neutral(), k);
    assert(scan::span(t, 70, 116, scan::neutral(), k) == scan::neutral()) by {
        reveal_with_fuel(scan::span, 47);
    }
    scan::lemma_span(t, 70, 116, scan::neutral(), scan::neutral(), k);
    assert(scan::span(t, 116, 138, scan::neutral(), k) == scan::neutral()) by {
        reveal_with_fuel(scan::span, 23);
    }
    scan::lemma_span(t, 116, 138, scan::neutral(), scan::neutral(), k);
    reveal(scan::scan);
    scan::lemma_tidy_constant(t);
}

/// How [`smem::POINTER_REGS`] is read.
pub proof fn lemma_smem_pointer_regs()
    ensures
        scan::tidy(smem::POINTER_REGS@),
{
    reveal_strlit(
        "    .reg .b64 %A,%B,%C,%off,%gp,%gptr,%cptr;
",
    );
    let t = smem::POINTER_REGS@;
    let k = Seq::<Kind>::empty();
    assert(scan::span(t, 0, 45, scan::neutral(), k) == scan::neutral()) by {
        reveal_with_fuel(scan::span, 46);
    }
    scan::lemma_span(t, 0, 45, scan::neutral(), scan::neutral(), k);
    reveal(scan::scan);
    scan::lemma_tidy_constant(t);
}

/// How [`smem::LOOP_START`] is read.
pub proof fn lemma_smem_loop_start()
    ensures
        scan::tidy(smem::LOOP_START@),
{
    reveal_strlit(
        "    mov.u32 %kt,0;
",
    );
    let t = smem::LOOP_START@;
    let k = Seq::<Kind>::empty();
    assert(scan::span(t, 0, 19, scan::neutral(), k) == scan::neutral()) by {
        reveal_with_fuel(scan::span, 20);
    }
    scan::lemma_span(t, 0, 19, scan::neutral(), scan::neutral(), k);
    reveal(scan::scan);
    scan::lemma_tidy_constant(t);
}

/// How [`smem::BARRIER`] is read.
pub proof fn lemma_smem_barrier()
    ensures
        scan::tidy(smem::BARRIER@),
{
    reveal_strlit(
        "    bar.sync 0;
",
    );
    let t = smem::BARRIER@;
    let k = Seq::<Kind>::empty();
    assert(scan::span(t, 0, 16, scan::neutral(), k) == scan::neutral()) by {
        reveal_with_fuel(scan::span, 17);
    }
    scan::lemma_span(t, 0, 16, scan::neutral(), scan::neutral(), k);
    reveal(scan::scan);
    scan::lemma_tidy_constant(t);
}

/// How [`smem::WARP`] is read.
pub proof fn lemma_smem_warp()
    ensures
        scan::scan(
            smem::WARP@,
            0,
            scan::neutral(),
            seq![Kind::Calm, Kind::Calm, Kind::Calm],
        ) == scan::neutral(),
{
    reveal_strlit(
        "    mov.u32 %ldm,#2;
    mov.u32 %tix,%tid.x;
    shr.u32 %warpId,%tix,5;
    shr.u32 %warpRow,%warpId,#0;
    and.b32 %warpCol,%warpId,#1;
",
    );
    let t = smem::WARP@;
    let k = seq![Kind::Calm, Kind::Calm, Kind::Calm];
    scan::lemma_hole(k, '0', Kind::Calm);
    scan::lemma_hole(k, '1', Kind::Calm);
    scan::lemma_hole(k, '2', Kind::Calm);
    assert(scan::span(t, 0, 46, scan::neutral(), k) == scan::neutral()) by {
        reveal_with_fuel(scan::span, 47);
    }
    scan::lemma_span(t, 0, 46, scan::neutral(), scan::neutral(), k);
    assert(scan::span(t, 46, 74, scan::neutral(), k) == scan::neutral()) by {
        reveal_with_fuel(scan::span, 29);
    }
    scan::lemma_span(t, 46, 74, scan::neutral(), scan::neutral(), k);
    assert(scan::span(t, 74, 107, scan::neutral(), k) == scan::neutral()) by {
        reveal_with_fuel(scan::span, 34);
    }
    scan::lemma_span(t, 74, 107, scan::neutral(), scan::neutral(), k);
    assert(scan::span(t, 107, 140, scan::neutral(), k) == scan::neutral()) by {
        reveal_with_fuel(scan::span, 34);
    }
    scan::lemma_span(t, 107, 140, scan::neutral(), scan::neutral(), k);
    reveal(scan::scan);
}

/// How [`smem::STAGE`] is read.
pub proof fn lemma_smem_stage()
    ensures
        scan::scan(
            smem::STAGE@,
            0,
            scan::neutral(),
            seq![Kind::Calm, Kind::Calm, Kind::Ends(scan::at_name())],
        ) == scan::neutral(),
{
    reveal_strlit(
        "    shr.u32 %r,%e,1;
    and.b32 %c,%e,1;
    shl.b32 %c,%c,3;
    add.u32 %tmp,#0,%r;
    mul.lo.s32 %tmp,%tmp,%K;
    add.u32 %tmp,%tmp,%kt;
    add.u32 %tmp,%tmp,%c;
    mul.wide.u32 %off,%tmp,2;
    add.s64 %gptr,#1,%off;
    ld.global.v4.u32 {%v0,%v1,%v2,%v3},[%gptr];
    mov.u32 %tmp,#2;
    shl.b32 %tmp2,%e,4;
    add.u32 %tmp,%tmp,%tmp2;
    st.shared.v4.u32 [%tmp],{%v0,%v1,%v2,%v3};
",
    );
    let t = smem::STAGE@;
    let k = seq![Kind::Calm, Kind::Calm, Kind::Ends(scan::at_name())];
    scan::lemma_hole(k, '0', Kind::Calm);
    scan::lemma_hole(k, '1', Kind::Calm);
    scan::lemma_hole(k, '2', Kind::Ends(scan::at_name()));
    assert(scan::span(t, 0, 42, scan::neutral(), k) == scan::neutral()) by {
        reveal_with_fuel(scan::span, 43);
    }
    scan::lemma_span(t, 0, 42, scan::neutral(), scan::neutral(), k);
    assert(scan::span(t, 42, 87, scan::neutral(), k) == scan::neutral()) by {
        reveal_with_fuel(scan::span, 46);
    }
    scan::lemma_span(t, 42, 87, scan::neutral(), scan::neutral(), k);
    assert(scan::span(t, 87, 116, scan::neutral(), k) == scan::neutral()) by {
        reveal_with_fuel(scan::span, 30);
    }
    scan::lemma_span(t, 87, 116, scan::neutral(), scan::neutral(), k);
    assert(scan::span(t, 116, 143, scan::neutral(), k) == scan::neutral()) by {
        reveal_with_fuel(scan::span, 28);
    }
    scan::lemma_span(t, 116, 143, scan::neutral(), scan::neutral(), k);
    assert(scan::span(t, 143, 169, scan::neutral(), k) == scan::neutral()) by {
        reveal_with_fuel(scan::span, 27);
    }
    scan::lemma_span(t, 143, 169, scan::neutral(), scan::neutral(), k);
    assert(scan::span(t, 169, 199, scan::neutral(), k) == scan::neutral()) by {
        reveal_with_fuel(scan::span, 31);
    }
    scan::lemma_span(t, 169, 199, scan::neutral(), scan::neutral(), k);
    assert(scan::span(t, 199, 226, scan::neutral(), k) == scan::neutral()) by {
        reveal_with_fuel(scan::span, 28);
    }
    scan::lemma_span(t, 199, 226, scan::neutral(), scan::neutral(), k);
    assert(scan::span(t, 226, 274, scan::neutral(), k) == scan::neutral()) by {
        reveal_with_fuel(scan::span, 49);
    }
    scan::lemma_span(t, 226, 274, scan::neutral(), scan::neutral(), k);
    assert(scan::span(t, 274, 319, scan::neutral(), k) == scan::neutral()) by {
        reveal_with_fuel(scan::span, 46);
    }
    scan::lemma_span(t, 274, 319, scan::neutral(), scan::neutral(), k);
    assert(scan::span(t, 319, 348, scan::neutral(), k) == scan::neutral()) by {
        reveal_with_fuel(scan::span, 30);
    }
    scan::lemma_span(t, 319, 348, scan::neutral(), scan::neutral(), k);
    assert(scan::span(t, 348, 395, scan::neutral(), k) == scan::neutral()) by {
        reveal_with_fuel(scan::span, 48);
    }
    scan::lemma_span(t, 348, 395, scan::neutral(), scan::neutral(), k);
    reveal(scan::scan);
}

/// How [`smem::LOAD_A`] is read.
pub proof fn lemma_smem_load_a()
    ensures
        scan::scan(
            smem::LOAD_A@,
            0,
            scan::neutral(),
            seq![Kind::Calm, Kind::Calm, Kind::Calm, Kind::Name, Kind::Calm, Kind::Type],
        ) == scan::neutral(),
{
    reveal_strlit(
        "    mov.u32 %tmp,smemA_#3;
    mul.lo.s32 %tmp2,%warpRow,#4;
    add.u32 %tmp2,%tmp2,#1;
    mul.lo.s32 %tmp2,%tmp2,32;
    add.u32 %tmp,%tmp,%tmp2;
    cvt.u64.u32 %gp,%tmp;
    cvta.shared.u64 %gp,%gp;
    wmma.load.a.sync.aligned.m16n16k16.row.#5 #2, [%gp], %ldm;
",
    );
    let t = smem::LOAD_A@;
    let k = seq![Kind::Calm, Kind::Calm, Kind::Calm, Kind::Name, Kind::Calm, Kind::Type];
    scan::lemma_hole(k, '1', Kind::Calm);
    scan::lemma_hole(k, '2', Kind::Calm);
    scan::lemma_hole(k, '3', Kind::Name);
    scan::lemma_hole(k, '4', Kind::Calm);
    scan::lemma_hole(k, '5', Kind::Type);
    assert(scan::span(t, 0, 27, scan::neutral(), k) == scan::neutral()) by {
        reveal_with_fuel(scan::span, 28);
    }
    scan::lemma_span(t, 0, 27, scan::neutral(), scan::neutral(), k);
    assert(scan::span(t, 27, 61, scan::neutral(), k) == scan::neutral()) by {
        reveal_with_fuel(scan::span, 35);
    }
    scan::lemma_span(t, 27, 61, scan::neutral(), scan::neutral(), k);
    assert(scan::span(t, 61, 89, scan::neutral(), k) == scan::neutral()) by {
        reveal_with_fuel(scan::span, 29);
    }
    scan::lemma_span(t, 61, 89, scan::neutral(), scan::neutral(), k);
    assert(scan::span(t, 89, 120, scan::neutral(), k) == scan::neutral()) by {
        reveal_with_fuel(scan::span, 32);
    }
    scan::lemma_span(t, 89, 120, scan::neutral(), scan::neutral(), k);
    assert(scan::span(t, 120, 149, scan::neutral(), k) == scan::neutral()) by {
        reveal_with_fuel(scan::span, 30);
    }
    scan::lemma_span(t, 120, 149, scan::neutral(), scan::neutral(), k);
    assert(scan::span(t, 149, 175, scan::neutral(), k) == scan::neutral()) by {
        reveal_with_fuel(scan::span, 27);
    }
    scan::lemma_span(t, 149, 175, scan::neutral(), scan::neutral(), k);
    assert(scan::span(t, 175, 204, scan::neutral(), k) == scan::neutral()) by {
        reveal_with_fuel(scan::span, 30);
    }
    scan::lemma_span(t, 175, 204, scan::neutral(), scan::neutral(), k);
    assert(scan::span(t, 204, 254, scan::neutral(), k) == scan::neutral()) by {
        reveal_with_fuel(scan::span, 51);
    }
    scan::lemma_span(t, 204, 254, scan::neutral(), scan::neutral(), k);
    assert(scan::span(t, 254, 267, scan::neutral(), k) == scan::neutral()) by {
        reveal_with_fuel(scan::span, 14);
    }
    scan::lemma_span(t, 254, 267, scan::neutral(), scan::neutral(), k);
    reveal(scan::scan);
}

/// How [`smem::LOAD_B`] is read.
pub proof fn lemma_smem_load_b()
    ensures
        scan::scan(
            smem::LOAD_B@,
            0,
            scan::neutral(),
            seq![Kind::Calm, Kind::Calm, Kind::Calm, Kind::Name, Kind::Calm, Kind::Type],
        ) == scan::neutral(),
{
    reveal_strlit(
        "    mov.u32 %tmp,smemB_#3;
    mul.lo.s32 %tmp2,%warpCol,#4;
    add.u32 %tmp2,%tmp2,#1;
    mul.lo.s32 %tmp2,%tmp2,32;
    add.u32 %tmp,%tmp,%tmp2;
    cvt.u64.u32 %gp,%tmp;
    cvta.shared.u64 %gp,%gp;
    wmma.load.b.sync.aligned.m16n16k16.col.#5 #2, [%gp], %ldm;
",
    );
    let t = smem::LOAD_B@;
    let k = seq![Kind::Calm, Kind::Calm, Kind::Calm, Kind::Name, Kind::Calm, Kind::Type];
    scan::lemma_hole(k, '1', Kind::Calm);
    scan::lemma_hole(k, '2', Kind::Calm);
    scan::lemma_hole(k, '3', Kind::Name);
    scan::lemma_hole(k, '4', Kind::Calm);
    scan::lemma_hole(k, '5', Kind::Type);
    assert(scan::span(t, 0, 27, scan::neutral(), k) == scan::neutral()) by {
        reveal_with_fuel(scan::span, 28);
    }
    scan::lemma_span(t, 0, 27, scan::neutral(), scan::neutral(), k);
    assert(scan::span(t, 27, 61, scan::neutral(), k) == scan::neutral()) by {
        reveal_with_fuel(scan::span, 35);
    }
    scan::lemma_span(t, 27, 61, scan::neutral(), scan::neutral(), k);
    assert(scan::span(t, 61, 89, scan::neutral(), k) == scan::neutral()) by {
        reveal_with_fuel(scan::span, 29);
    }
    scan::lemma_span(t, 61, 89, scan::neutral(), scan::neutral(), k);
    assert(scan::span(t, 89, 120, scan::neutral(), k) == scan::neutral()) by {
        reveal_with_fuel(scan::span, 32);
    }
    scan::lemma_span(t, 89, 120, scan::neutral(), scan::neutral(), k);
    assert(scan::span(t, 120, 149, scan::neutral(), k) == scan::neutral()) by {
        reveal_with_fuel(scan::span, 30);
    }
    scan::lemma_span(t, 120, 149, scan::neutral(), scan::neutral(), k);
    assert(scan::span(t, 149, 175, scan::neutral(), k) == scan::neutral()) by {
        reveal_with_fuel(scan::span, 27);
    }
    scan::lemma_span(t, 149, 175, scan::neutral(), scan::neutral(), k);
    assert(scan::span(t, 175, 204, scan::neutral(), k) == scan::neutral()) by {
        reveal_with_fuel(scan::span, 30);
    }
    scan::lemma_span(t, 175, 204, scan::neutral(), scan::neutral(), k);
    assert(scan::span(t, 204, 254, scan::neutral(), k) == scan::neutral()) by {
        reveal_with_fuel(scan::span, 51);
    }
    scan::lemma_span(t, 204, 254, scan::neutral(), scan::neutral(), k);
    assert(scan::span(t, 254, 267, scan::neutral(), k) == scan::neutral()) by {
        reveal_with_fuel(scan::span, 14);
    }
    scan::lemma_span(t, 254, 267, scan::neutral(), scan::neutral(), k);
    reveal(scan::scan);
}

/// How [`smem::STORE`] is read.
pub proof fn lemma_smem_store()
    ensures
        scan::scan(
            smem::STORE@,
            0,
            scan::neutral(),
            seq![Kind::Calm, Kind::Calm, Kind::Calm, Kind::Calm, Kind::Calm, Kind::Calm],
        ) == scan::neutral(),
{
    reveal_strlit(
        "    mul.lo.s32 %tmp,%warpRow,#4;
    add.u32 %tmp,%tmp,#2;
    add.u32 %tmp,%tmp,%baseRow;
    mul.lo.s32 %tmp,%tmp,%N;
    mul.lo.s32 %tmp2,%warpCol,#5;
    add.u32 %tmp2,%tmp2,#3;
    add.u32 %tmp2,%tmp2,%baseCol;
    add.u32 %tmp,%tmp,%tmp2;
    mul.wide.u32 %off,%tmp,4;
    add.s64 %cptr,%C,%off;
    wmma.store.d.sync.aligned.m16n16k16.row.f32 [%cptr], {%c#0_#1_0,%c#0_#1_1,%c#0_#1_2,%c#0_#1_3,%c#0_#1_4,%c#0_#1_5,%c#0_#1_6,%c#0_#1_7}, %N;
",
    );
    let t = smem::STORE@;
    let k = seq![Kind::Calm, Kind::Calm, Kind::Calm, Kind::Calm, Kind::Calm, Kind::Calm];
    scan::lemma_hole(k, '0', Kind::Calm);
    scan::lemma_hole(k, '1', Kind::Calm);
    scan::lemma_hole(k, '2', Kind::Calm);
    scan::lemma_hole(k, '3', Kind::Calm);
    scan::lemma_hole(k, '4', Kind::Calm);
    scan::lemma_hole(k, '5', Kind::Calm);
    assert(scan::span(t, 0, 33, scan::neutral(), k) == scan::neutral()) by {
        reveal_with_fuel(scan::span, 34);
    }
    scan::lemma_span(t, 0, 33, scan::neutral(), scan::neutral(), k);
    assert(scan::span(t, 33, 59, scan::neutral(), k) == scan::neutral()) by {
        reveal_with_fuel(scan::span, 27);
    }
    scan::lemma_span(t, 33, 59, scan::neutral(), scan::neutral(), k);
    assert(scan::span(t, 59, 91, scan::neutral(), k) == scan::neutral()) by {
        reveal_with_fuel(scan::span, 33);
    }
    scan::lemma_span(t, 59, 91, scan::neutral(), scan::neutral(), k);
    assert(scan::span(t, 91, 120, scan::neutral(), k) == scan::neutral()) by {
        reveal_with_fuel(scan::span, 30);
    }
    scan::lemma_span(t, 91, 120, scan::neutral(), scan::neutral(), k);
    assert(scan::span(t, 120, 154, scan::neutral(), k) == scan::neutral()) by {
        reveal_with_fuel(scan::span, 35);
    }
    scan::lemma_span(t, 120, 154, scan::neutral(), scan::neutral(), k);
    assert(scan::span(t, 154, 182, scan::neutral(), k) == scan::neutral()) by {
        reveal_with_fuel(scan::span, 29);
    }
    scan::lemma_span(t, 154, 182, scan::neutral(), scan::neutral(), k);
    assert(scan::span(t, 182, 216, scan::neutral(), k) == scan::neutral()) by {
        reveal_with_fuel(scan::span, 35);
    }
    scan::lemma_span(t, 182, 216, scan::neutral(), scan::neutral(), k);
    assert(scan::span(t, 216, 245, scan::neutral(), k) == scan::neutral()) by {
        reveal_with_fuel(scan::span, 30);
    }
    scan::lemma_span(t, 216, 245, scan::neutral(), scan::neutral(), k);
    assert(scan::span(t, 245, 275, scan::neutral(), k) == scan::neutral()) by {
        reveal_with_fuel(scan::span, 31);
    }
    scan::lemma_span(t, 245, 275, scan::neutral(), scan::neutral(), k);
    assert(scan::span(t, 275, 302, scan::neutral(), k) == scan::neutral()) by {
        reveal_with_fuel(scan::span, 28);
    }
    scan::lemma_span(t, 275, 302, scan::neutral(), scan::neutral(), k);
    assert(scan::span(t, 302, 350, scan::neutral(), k) == scan::neutral()) by {
        reveal_with_fuel(scan::span, 49);
    }
    scan::lemma_span(t, 302, 350, scan::neutral(), scan::neutral(), k);
    assert(scan::span(t, 350, 400, scan::neutral(), k) == scan::neutral()) by {
        reveal_with_fuel(scan::span, 51);
    }
    scan::lemma_span(t, 350, 400, scan::neutral(), scan::neutral(), k);
    assert(scan::span(t, 400, 446, scan::neutral(), k) == scan::neutral()) by {
        reveal_with_fuel(scan::span, 47);
    }
    scan::lemma_span(t, 400, 446, scan::neutral(), scan::neutral(), k);
    reveal(scan::scan);
}

/// How [`plain::REGS`] is read.
pub proof fn lemma_plain_regs()
    ensures
        scan::tidy(plain::REGS@),
{
    reveal_strlit(
        "{
    .reg .pred %p0;
    .reg .b32 %M,%N,%K,%baseRow,%baseCol,%kt,%tmp;
",
    );
    let t = plain::REGS@;
    let k = Seq::<Kind>::empty();
    assert(scan::span(t, 0, 22, scan::neutral(), k) == scan::neutral()) by {
        reveal_with_fuel(scan::span, 23);
    }
    scan::lemma_span(t, 0, 22, scan::neutral(), scan::neutral(), k);
    assert(scan::span(t, 22, 72, scan::neutral(), k) == scan::neutral()) by {
        reveal_with_fuel(scan::span, 51);
    }
    scan::lemma_span(t, 22, 72, scan::neutral(), scan::neutral(), k);
    assert(scan::span(t, 72, 73, scan::neutral(), k) == scan::neutral()) by {
        reveal_with_fuel(scan::span, 2);
    }
    scan::lemma_span(t, 72, 73, scan::neutral(), scan::neutral(), k);
    reveal(scan::scan);
    scan::lemma_tidy_constant(t);
}

/// How [`plain::LOOP_START`] is read.
pub proof fn lemma_plain_loop_start()
    ensures
        scan::tidy(plain::LOOP_START@),
{
    reveal_strlit(
        "    mov.u32 %kt,0;
",
    );
    let t = plain::LOOP_START@;
    let k = Seq::<Kind>::empty();
    assert(scan::span(t, 0, 19, scan::neutral(), k) == scan::neutral()) by {
        reveal_with_fuel(scan::span, 20);
    }
    scan::lemma_span(t, 0, 19, scan::neutral(), scan::neutral(), k);
    reveal(scan::scan);
    scan::lemma_tidy_constant(t);
}

/// How [`plain::POINTER_REGS`] is read.
pub proof fn lemma_plain_pointer_regs()
    ensures
        scan::scan(
            plain::POINTER_REGS@,
            0,
            scan::neutral(),
            seq![Kind::Ends(scan::neutral()), Kind::Ends(scan::neutral())],
        ) == scan::neutral(),
{
    reveal_strlit(
        "    .reg .b64 %A,%B,%C,%off,%cptr#0#1;
",
    );
    let t = plain::POINTER_REGS@;
    let k = seq![Kind::Ends(scan::neutral()), Kind::Ends(scan::neutral())];
    scan::lemma_hole(k, '0', Kind::Ends(scan::neutral()));
    scan::lemma_hole(k, '1', Kind::Ends(scan::neutral()));
    assert(scan::span(t, 0, 39, scan::neutral(), k) == scan::neutral()) by {
        reveal_with_fuel(scan::span, 40);
    }
    scan::lemma_span(t, 0, 39, scan::neutral(), scan::neutral(), k);
    reveal(scan::scan);
}

/// How [`plain::A_POINTER_REG`] is read.
pub proof fn lemma_plain_a_pointer_reg()
    ensures
        scan::scan(
            plain::A_POINTER_REG@,
            0,
            scan::neutral(),
            seq![Kind::Calm, Kind::Calm],
        ) == scan::neutral(),
{
    reveal_strlit(",%aptr#0");
    let t = plain::A_POINTER_REG@;
    let k = seq![Kind::Calm, Kind::Calm];
    scan::lemma_hole(k, '0', Kind::Calm);
    assert(scan::span(t, 0, 8, scan::neutral(), k) == scan::neutral()) by {
        reveal_with_fuel(scan::span, 9);
    }
    scan::lemma_span(t, 0, 8, scan::neutral(), scan::neutral(), k);
    reveal(scan::scan);
}

/// How [`plain::B_POINTER_REG`] is read.
pub proof fn lemma_plain_b_pointer_reg()
    ensures
        scan::scan(
            plain::B_POINTER_REG@,
            0,
            scan::neutral(),
            seq![Kind::Calm, Kind::Calm],
        ) == scan::neutral(),
{
    reveal_strlit(",%bptr#0");
    let t = plain::B_POINTER_REG@;
    let k = seq![Kind::Calm, Kind::Calm];
    scan::lemma_hole(k, '0', Kind::Calm);
    assert(scan::span(t, 0, 8, scan::neutral(), k) == scan::neutral()) by {
        reveal_with_fuel(scan::span, 9);
    }
    scan::lemma_span(t, 0, 8, scan::neutral(), scan::neutral(), k);
    reveal(scan::scan);
}

/// How [`plain::A_POINTER`] is read.
pub proof fn lemma_plain_a_pointer()
    ensures
        scan::scan(
            plain::A_POINTER@,
            0,
            scan::neutral(),
            seq![Kind::Calm, Kind::Calm],
        ) == scan::neutral(),
{
    reveal_strlit(
        "    add.u32 %tmp,%baseRow,#1;
    mul.lo.s32 %tmp,%tmp,%K;
    mul.wide.u32 %off,%tmp,2;
    add.s64 %aptr#0,%A,%off;
",
    );
    let t = plain::A_POINTER@;
    let k = seq![Kind::Calm, Kind::Calm];
    scan::lemma_hole(k, '0', Kind::Calm);
    scan::lemma_hole(k, '1', Kind::Calm);
    assert(scan::span(t, 0, 30, scan::neutral(), k) == scan::neutral()) by {
        reveal_with_fuel(scan::span, 31);
    }
    scan::lemma_span(t, 0, 30, scan::neutral(), scan::neutral(), k);
    assert(scan::span(t, 30, 59, scan::neutral(), k) == scan::neutral()) by {
        reveal_with_fuel(scan::span, 30);
    }
    scan::lemma_span(t, 30, 59, scan::neutral(), scan::neutral(), k);
    assert(scan::span(t, 59, 89, scan::neutral(), k) == scan::neutral()) by {
        reveal_with_fuel(scan::span, 31);
    }
    scan::lemma_span(t, 59, 89, scan::neutral(), scan::neutral(), k);
    assert(scan::span(t, 89, 118, scan::neutral(), k) == scan::neutral()) by {
        reveal_with_fuel(scan::span, 30);
    }
    scan::lemma_span(t, 89, 118, scan::neutral(), scan::neutral(), k);
    reveal(scan::scan);
}

/// How [`plain::B_POINTER`] is read.
pub proof fn lemma_plain_b_pointer()
    ensures
        scan::scan(
            plain::B_POINTER@,
            0,
            scan::neutral(),
            seq![Kind::Calm, Kind::Calm],
        ) == scan::neutral(),
{
    reveal_strlit(
        "    add.u32 %tmp,%baseCol,#1;
    mul.lo.s32 %tmp,%tmp,%K;
    mul.wide.u32 %off,%tmp,2;
    add.s64 %bptr#0,%B,%off;
",
    );
    let t = plain::B_POINTER@;
    let k = seq![Kind::Calm, Kind::Calm];
    scan::lemma_hole(k, '0', Kind::Calm);
    scan::lemma_hole(k, '1', Kind::Calm);
    assert(scan::span(t, 0, 30, scan::neutral(), k) == scan::neutral()) by {
        reveal_with_fuel(scan::span, 31);
    }
    scan::lemma_span(t, 0, 30, scan::neutral(), scan::neutral(), k);
    assert(scan::span(t, 30, 59, scan::neutral(), k) == scan::neutral()) by {
        reveal_with_fuel(scan::span, 30);
    }
    scan::lemma_span(t, 30, 59, scan::neutral(), scan::neutral(), k);
    assert(scan::span(t, 59, 89, scan::neutral(), k) == scan::neutral()) by {
        reveal_with_fuel(scan::span, 31);
    }
    scan::lemma_span(t, 59, 89, scan::neutral(), scan::neutral(), k);
    assert(scan::span(t, 89, 118, scan::neutral(), k) == scan::neutral()) by {
        reveal_with_fuel(scan::span, 30);
    }
    scan::lemma_span(t, 89, 118, scan::neutral(), scan::neutral(), k);
    reveal(scan::scan);
}

/// How [`plain::A_ADVANCE`] is read.
pub proof fn lemma_plain_a_advance()
    ensures
        scan::scan(
            plain::A_ADVANCE@,
            0,
            scan::neutral(),
            seq![Kind::Calm, Kind::Calm],
        ) == scan::neutral(),
{
    reveal_strlit(
        "    add.s64 %aptr#0,%aptr#0,32;
",
    );
    let t = plain::A_ADVANCE@;
    let k = seq![Kind::Calm, Kind::Calm];
    scan::lemma_hole(k, '0', Kind::Calm);
    assert(scan::span(t, 0, 32, scan::neutral(), k) == scan::neutral()) by {
        reveal_with_fuel(scan::span, 33);
    }
    scan::lemma_span(t, 0, 32, scan::neutral(), scan::neutral(), k);
    reveal(scan::scan);
}

/// How [`plain::B_ADVANCE`] is read.
pub proof fn lemma_plain_b_advance()
    ensures
        scan::scan(
            plain::B_ADVANCE@,
            0,
            scan::neutral(),
            seq![Kind::Calm, Kind::Calm],
        ) == scan::neutral(),
{
    reveal_strlit(
        "    add.s64 %bptr#0,%bptr#0,32;
",
    );
    let t = plain::B_ADVANCE@;
    let k = seq![Kind::Calm, Kind::Calm];
    scan::lemma_hole(k, '0', Kind::Calm);
    assert(scan::span(t, 0, 32, scan::neutral(), k) == scan::neutral()) by {
        reveal_with_fuel(scan::span, 33);
    }
    scan::lemma_span(t, 0, 32, scan::neutral(), scan::neutral(), k);
    reveal(scan::scan);
}

/// How [`plain::LOAD_A`] is read.
pub proof fn lemma_plain_load_a()
    ensures
        scan::scan(
            plain::LOAD_A@,
            0,
            scan::neutral(),
            seq![Kind::Calm, Kind::Calm, Kind::Calm, Kind::Type],
        ) == scan::neutral(),
{
    reveal_strlit(
        "    wmma.load.a.sync.aligned.m16n16k16.row.#3 #2, [%aptr#0], %K;
",
    );
    let t = plain::LOAD_A@;
    let k = seq![Kind::Calm, Kind::Calm, Kind::Calm, Kind::Type];
    scan::lemma_hole(k, '0', Kind::Calm);
    scan::lemma_hole(k, '2', Kind::Calm);
    scan::lemma_hole(k, '3', Kind::Type);
    assert(scan::span(t, 0, 50, scan::neutral(), k) == scan::neutral()) by {
        reveal_with_fuel(scan::span, 51);
    }
    scan::lemma_span(t, 0, 50, scan::neutral(), scan::neutral(), k);
    assert(scan::span(t, 50, 65, scan::neutral(), k) == scan::neutral()) by {
        reveal_with_fuel(scan::span, 16);
    }
    scan::lemma_span(t, 50, 65, scan::neutral(), scan::neutral(), k);
    reveal(scan::scan);
}

/// How [`plain::LOAD_B`] is read.
pub proof fn lemma_plain_load_b()
    ensures
        scan::scan(
            plain::LOAD_B@,
            0,
            scan::neutral(),
            seq![Kind::Calm, Kind::Calm, Kind::Calm, Kind::Type],
        ) == scan::neutral(),
{
    reveal_strlit(
        "    wmma.load.b.sync.aligned.m16n16k16.col.#3 #2, [%bptr#0], %K;
",
    );
    let t = plain::LOAD_B@;
    let k = seq![Kind::Calm, Kind::Calm, Kind::Calm, Kind::Type];
    scan::lemma_hole(k, '0', Kind::Calm);
    scan::lemma_hole(k, '2', Kind::Calm);
    scan::lemma_hole(k, '3', Kind::Type);
    assert(scan::span(t, 0, 50, scan::neutral(), k) == scan::neutral()) by {
        reveal_with_fuel(scan::span, 51);
    }
    scan::lemma_span(t, 0, 50, scan::neutral(), scan::neutral(), k);
    assert(scan::span(t, 50, 65, scan::neutral(), k) == scan::neutral()) by {
        reveal_with_fuel(scan::span, 16);
    }
    scan::lemma_span(t, 50, 65, scan::neutral(), scan::neutral(), k);
    reveal(scan::scan);
}

/// How [`plain::STORE`] is read.
pub proof fn lemma_plain_store()
    ensures
        scan::scan(
            plain::STORE@,
            0,
            scan::neutral(),
            seq![Kind::Calm, Kind::Calm, Kind::Calm, Kind::Calm],
        ) == scan::neutral(),
{
    reveal_strlit(
        "    add.u32 %tmp,%baseRow,#2;
    mul.lo.s32 %tmp,%tmp,%N;
    add.u32 %tmp,%tmp,%baseCol;
    add.u32 %tmp,%tmp,#3;
    mul.wide.u32 %off,%tmp,4;
    add.s64 %cptr,%C,%off;
    wmma.store.d.sync.aligned.m16n16k16.row.f32 [%cptr], {%c#0_#1_0,%c#0_#1_1,%c#0_#1_2,%c#0_#1_3,%c#0_#1_4,%c#0_#1_5,%c#0_#1_6,%c#0_#1_7}, %N;
",
    );
    let t = plain::STORE@;
    let k = seq![Kind::Calm, Kind::Calm, Kind::Calm, Kind::Calm];
    scan::lemma_hole(k, '0', Kind::Calm);
    scan::lemma_hole(k, '1', Kind::Calm);
    scan::lemma_hole(k, '2', Kind::Calm);
    scan::lemma_hole(k, '3', Kind::Calm);
    assert(scan::span(t, 0, 59, scan::neutral(), k) == scan::neutral()) by {
        reveal_with_fuel(scan::span, 60);
    }
    scan::lemma_span(t, 0, 59, scan::neutral(), scan::neutral(), k);
    assert(scan::span(t, 59, 117, scan::neutral(), k) == scan::neutral()) by {
        reveal_with_fuel(scan::span, 59);
    }
    scan::lemma_span(t, 59, 117, scan::neutral(), scan::neutral(), k);
    assert(scan::span(t, 117, 174, scan::neutral(), k) == scan::neutral()) by {
        reveal_with_fuel(scan::span, 58);
    }
    scan::lemma_span(t, 117, 174, scan::neutral(), scan::neutral(), k);
    assert(scan::span(t, 174, 231, scan::neutral(), k) == scan::neutral()) by {
        reveal_with_fuel(scan::span, 58);
    }
    scan::lemma_span(t, 174, 231, scan::neutral(), scan::neutral(), k);
    assert(scan::span(t, 231, 282, scan::neutral(), k) == scan::neutral()) by {
        reveal_with_fuel(scan::span, 52);
    }
    scan::lemma_span(t, 231, 282, scan::neutral(), scan::neutral(), k);
    assert(scan::span(t, 282, 318, scan::neutral(), k) == scan::neutral()) by {
        reveal_with_fuel(scan::span, 37);
    }
    scan::lemma_span(t, 282, 318, scan::neutral(), scan::neutral(), k);
    reveal(scan::scan);
}

} // verus!
