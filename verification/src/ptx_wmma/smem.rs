//! The WMMA kernel whose block stages its tiles in shared memory.
use vstd::prelude::*;
use vstd::string::*;

use crate::ptx_wmma::parts;
use crate::text;

verus! {

/// Columns of A and B that one staged tile holds.
pub const SM_BK: usize = 16;

pub const BUFFERS: &'static str = "{
    .shared .align 16 .b8 smemA_#0[#1];
    .shared .align 16 .b8 smemB_#0[#2];
";

pub const REGS: &'static str = "    .reg .pred %p0;
    .reg .b32 %M,%N,%K,%baseRow,%baseCol,%kt,%tmp,%tmp2,%tix,%warpId,%warpRow,%warpCol,%e,%r,%c,%ldm,%v0,%v1,%v2,%v3;
";

pub const POINTER_REGS: &'static str = "    .reg .b64 %A,%B,%C,%off,%gp,%gptr,%cptr;
";

pub const STATIC_DIMS: &'static str = "    mov.u32 %M,#0;
    mov.u32 %N,#1;
    mov.u32 %K,#2;
";

/// The place of a warp in the block: `#0` divides by the warps per row, `#1` is the remainder mask,
/// `#2` the row length of a staged tile.
pub const WARP: &'static str = "    mov.u32 %ldm,#2;
    mov.u32 %tix,%tid.x;
    shr.u32 %warpId,%tix,5;
    shr.u32 %warpRow,%warpId,#0;
    and.b32 %warpCol,%warpId,#1;
";

pub const LOOP_START: &'static str = "    mov.u32 %kt,0;
";

/// One 16-byte chunk of a tile: `#0` is the tile's row, `#1` the matrix, `#2` the buffer.
pub const STAGE: &'static str = "    shr.u32 %r,%e,1;
    and.b32 %c,%e,1;
    shl.b32 %c,%c,3;
    add.u32 %tmp,#0,%r;
    mul.lo.s32 %tmp,%tmp,%K;
    add.u32 %tmp,%tmp,%kt;
    add.u32 %tmp,%tmp,%c;
    mul.wide.u32 %off,%tmp,2;
    add.s64 %gptr,#1,%off;
    ld.global.v4.u32 {%v0,%v1,%v2,%v3},[%gptr];
    mov.u32 %tmp,#2;
    shl.b32 %tmp2,%e,4;
    add.u32 %tmp,%tmp,%tmp2;
    st.shared.v4.u32 [%tmp],{%v0,%v1,%v2,%v3};
";

pub const A_BUFFER: &'static str = "smemA_#0";

pub const B_BUFFER: &'static str = "smemB_#0";

pub const BARRIER: &'static str = "    bar.sync 0;
";

pub const LOAD_A: &'static str = "    mov.u32 %tmp,smemA_#3;
    mul.lo.s32 %tmp2,%warpRow,#4;
    add.u32 %tmp2,%tmp2,#1;
    mul.lo.s32 %tmp2,%tmp2,32;
    add.u32 %tmp,%tmp,%tmp2;
    cvt.u64.u32 %gp,%tmp;
    cvta.shared.u64 %gp,%gp;
    wmma.load.a.sync.aligned.m16n16k16.row.#5 #2, [%gp], %ldm;
";

pub const LOAD_B: &'static str = "    mov.u32 %tmp,smemB_#3;
    mul.lo.s32 %tmp2,%warpCol,#4;
    add.u32 %tmp2,%tmp2,#1;
    mul.lo.s32 %tmp2,%tmp2,32;
    add.u32 %tmp,%tmp,%tmp2;
    cvt.u64.u32 %gp,%tmp;
    cvta.shared.u64 %gp,%gp;
    wmma.load.b.sync.aligned.m16n16k16.col.#5 #2, [%gp], %ldm;
";

/// Store of one 16 by 16 tile; `#4` and `#5` are the rows and columns of a warp.
pub const STORE: &'static str = "    mul.lo.s32 %tmp,%warpRow,#4;
    add.u32 %tmp,%tmp,#2;
    add.u32 %tmp,%tmp,%baseRow;
    mul.lo.s32 %tmp,%tmp,%N;
    mul.lo.s32 %tmp2,%warpCol,#5;
    add.u32 %tmp2,%tmp2,#3;
    add.u32 %tmp2,%tmp2,%baseCol;
    add.u32 %tmp,%tmp,%tmp2;
    mul.wide.u32 %off,%tmp,4;
    add.s64 %cptr,%C,%off;
    wmma.store.d.sync.aligned.m16n16k16.row.f32 [%cptr], {%c#0_#1_0,%c#0_#1_1,%c#0_#1_2,%c#0_#1_3,%c#0_#1_4,%c#0_#1_5,%c#0_#1_6,%c#0_#1_7}, %N;
";

/// The tile shapes for which [`entry_smem`] generates a kernel: a block of `warps_m * warps_n` warps
/// copies each `SM_BK`-column tile in whole 16-byte chunks.
pub open spec fn smem_shape(bm: nat, bn: nat, warps_m: nat, warps_n: nat) -> bool {
    &&& warps_m > 0
    &&& warps_n > 0
    &&& parts::staged_whole(bm, SM_BK as nat, warps_m * warps_n * 32)
    &&& parts::staged_whole(bn, SM_BK as nat, warps_m * warps_n * 32)
}

/// The declarations, the problem size and the place of a warp.
pub open spec fn smem_head(
    name: Seq<char>,
    ty: Seq<char>,
    bm: nat,
    bn: nat,
    tm: nat,
    tn: nat,
    warps_n: nat,
    static_dims: Option<(usize, usize, usize)>,
) -> Seq<char> {
    text::fill(parts::OPEN@, seq![name, ""@, ""@]) + text::fill(
        BUFFERS@,
        seq![name, text::dec(bm * 16 * 2), text::dec(bn * 16 * 2)],
    ) + REGS@ + text::fill(parts::F32_REGS@, seq![parts::acc_list(tm, tn)]) + parts::ab_regs(
        tm,
        tn,
        parts::fragment_width(ty),
    ) + POINTER_REGS@ + (match static_dims {
        Some(d) => text::fill(
            STATIC_DIMS@,
            seq![text::dec(d.0 as nat), text::dec(d.1 as nat), text::dec(d.2 as nat)],
        ),
        None => parts::LOAD_DIMS@,
    }) + parts::LOAD_POINTERS@ + text::fill(
        parts::TILE_ORIGIN@,
        seq![text::dec(bm), text::dec(bn)],
    ) + text::fill(
        WARP@,
        seq![text::dec(text::twos(warps_n)), text::dec((warps_n - 1) as nat), text::dec(16)],
    ) + text::each2(parts::ACC_ZERO@, tm, tn, 0, 0, Seq::empty())
}

/// The K loop: the block stages one tile of A and one of B, and each warp multiplies its part.
pub open spec fn smem_loop(
    name: Seq<char>,
    ty: Seq<char>,
    bm: nat,
    bn: nat,
    tm: nat,
    tn: nat,
    threads: nat,
) -> Seq<char> {
    let width = parts::fragment_width(ty);
    LOOP_START@ + text::fill(parts::LOOP_HEAD@, seq![name]) + parts::chunks(
        text::fill(STAGE@, seq!["%baseRow"@, "%A"@, text::fill(A_BUFFER@, seq![name])]),
        bm * 16 / (threads * 8),
        threads,
    ) + parts::chunks(
        text::fill(STAGE@, seq!["%baseCol"@, "%B"@, text::fill(B_BUFFER@, seq![name])]),
        bn * 16 / (threads * 8),
        threads,
    ) + BARRIER@ + parts::each_fragment(
        LOAD_A@,
        "a"@,
        tm,
        width,
        16,
        seq![name, text::dec(16 * tm), ty],
    ) + parts::each_fragment(
        LOAD_B@,
        "b"@,
        tn,
        width,
        16,
        seq![name, text::dec(16 * tn), ty],
    ) + parts::wmma_grid(parts::wmma_types(ty), tm, tn, width) + BARRIER@ + text::fill(
        parts::LOOP_TAIL@,
        seq![name, text::dec(16)],
    )
}

/// The kernel of [`entry_smem`].
pub open spec fn entry_smem_text(
    name: Seq<char>,
    ty: Seq<char>,
    bm: nat,
    bn: nat,
    warps_m: nat,
    warps_n: nat,
    static_dims: Option<(usize, usize, usize)>,
) -> Seq<char> {
    let tm = bm / (16 * warps_m);
    let tn = bn / (16 * warps_n);
    smem_head(name, ty, bm, bn, tm, tn, warps_n, static_dims) + smem_loop(
        name,
        ty,
        bm,
        bn,
        tm,
        tn,
        warps_m * warps_n * 32,
    ) + text::each2(
        STORE@,
        tm,
        tn,
        16,
        16,
        seq![text::dec(16 * tm), text::dec(16 * tn)],
    ) + parts::CLOSE@
}

/// Generate a shared-memory-staged WMMA GEMM entry. The block of `warps_m·warps_n` warps owns a
/// `bm×bn` tile of C. With `static_dims` the problem size is compiled in; otherwise it is read from
/// the parameters.
pub fn entry_smem(
    name: &str,
    ty: &str,
    bm: usize,
    bn: usize,
    warps_m: usize,
    warps_n: usize,
    static_dims: Option<(usize, usize, usize)>,
) -> (s: String)
    requires
        smem_shape(bm as nat, bn as nat, warps_m as nat, warps_n as nat),
        static_dims matches Some(d) ==> d.0 % bm == 0 && d.1 % bn == 0 && d.2 % SM_BK == 0,
        bm * 32 <= usize::MAX,
        bn * 32 <= usize::MAX,
    ensures
        s@ == entry_smem_text(
            name@,
            ty@,
            bm as nat,
            bn as nat,
            warps_m as nat,
            warps_n as nat,
            static_dims,
        ),
{
    proof {
        let w = warps_m as nat * warps_n as nat;
        assert(w >= warps_m && w >= warps_n && w > 0) by (nonlinear_arith)
            requires
                warps_m > 0,
                warps_n > 0,
                w == warps_m * warps_n,
        ;
        parts::lemma_staged_whole(bm as nat, SM_BK as nat, w * 32);
        parts::lemma_staged_whole(bn as nat, SM_BK as nat, w * 32);
        parts::lemma_sub_tiles(bm as nat, 16, warps_m as nat);
        parts::lemma_sub_tiles(bn as nat, 16, warps_n as nat);
    }
    let width: usize = parts::width_of(ty);
    let threads: usize = warps_m * warps_n * 32;
    let tm: usize = bm / (16 * warps_m);
    let tn: usize = bn / (16 * warps_n);
    let a_chunks: usize = bm * SM_BK / (threads * 8);
    let b_chunks: usize = bn * SM_BK / (threads * 8);
    let rows = text::decimal(16 * tm);
    let cols = text::decimal(16 * tn);

    let mut s = text::expand3(parts::OPEN, name, "", "");
    s.append(
        &text::expand3(
            BUFFERS,
            name,
            &text::decimal(bm * SM_BK * 2),
            &text::decimal(bn * SM_BK * 2),
        ),
    );
    s.append(REGS);
    s.append(&text::expand1(parts::F32_REGS, &parts::acc_list_of(tm, tn)));
    s.append(&parts::ab_regs_of(tm, tn, width));
    s.append(POINTER_REGS);
    match static_dims {
        Some((m, n, k)) => {
            s.append(
                &text::expand3(STATIC_DIMS, &text::decimal(m), &text::decimal(n), &text::decimal(k)),
            );
        },
        None => {
            s.append(parts::LOAD_DIMS);
        },
    }
    s.append(parts::LOAD_POINTERS);
    s.append(&text::expand2(parts::TILE_ORIGIN, &text::decimal(bm), &text::decimal(bn)));
    s.append(
        &text::expand3(
            WARP,
            &text::decimal(text::shift_of(warps_n)),
            &text::decimal(warps_n - 1),
            &text::decimal(SM_BK),
        ),
    );
    s.append(&text::each2_0(parts::ACC_ZERO, tm, tn, 0, 0));

    let mut body = String::from_str(LOOP_START);
    body.append(&text::expand1(parts::LOOP_HEAD, name));
    let stage_a = text::expand3(STAGE, "%baseRow", "%A", &text::expand1(A_BUFFER, name));
    body.append(&parts::chunks_of(&stage_a, a_chunks, threads));
    let stage_b = text::expand3(STAGE, "%baseCol", "%B", &text::expand1(B_BUFFER, name));
    body.append(&parts::chunks_of(&stage_b, b_chunks, threads));
    body.append(BARRIER);
    body.append(&parts::each_fragment_3(LOAD_A, "a", tm, width, 16, name, &rows, ty));
    body.append(&parts::each_fragment_3(LOAD_B, "b", tn, width, 16, name, &cols, ty));
    body.append(&parts::wmma_grid_of(&parts::wmma_types_of(ty), tm, tn, width));
    body.append(BARRIER);
    body.append(&text::expand2(parts::LOOP_TAIL, name, &text::decimal(16)));

    s.append(&body);
    s.append(&text::each2_2(STORE, tm, tn, 16, 16, &rows, &cols));
    s.append(parts::CLOSE);
    s
}

} // verus!
