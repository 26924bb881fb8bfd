//! The WMMA kernel with a multi-stage copy pipeline.
use vstd::arithmetic::power2::*;
use vstd::prelude::*;
use vstd::string::*;

use crate::ptx_wmma::act;
use crate::ptx_wmma::bias;
use crate::ptx_wmma::parts;
use crate::ptx_wmma::pipeline;
use crate::ptx_wmma::smem;
use crate::ptx_wmma::smem_db;
use crate::smem_mode;
use crate::text;

verus! {

pub const REGS: &'static str = "    .reg .pred %p0,%pmore;
    .reg .b32 %M,%N,%K,%baseRow,%baseCol,%kt,%kcol,%tmp,%tmp2,%tix,%warpId,%warpRow,%warpCol,%e,%r,%c,%ldm,%bufcA,%bufcB,%bufwA,%bufwB;
";

pub const BIAS_REGS: &'static str = "    .reg .b32 %lane,%f,%grow,%gcol,%scbase,%scld;
    .reg .f32 %bval,%biasv;
    .reg .b64 %Bias,%scptr;
";

pub const RASTER_REGS: &'static str =
    "    .reg .b32 %lin,%tn,%tm,%gsz,%grp,%rem,%col0,%gw,%trow,%tcol;
";

pub const F32_ACT_REGS: &'static str = "    .reg .f32 #0,%act0,%act1;
";

/// One 16-byte chunk of a tile: `#0` is the tile's row, `#1` the matrix, `#2` the buffer, `#3` the
/// offset in it, `#4` and `#5` split a chunk's number into row and column.
pub const STAGE: &'static str = "    shr.u32 %r,%e,#4;
    and.b32 %c,%e,#5;
    shl.b32 %c,%c,3;
    add.u32 %tmp,#0,%r;
    mul.lo.s32 %tmp,%tmp,%K;
    add.u32 %tmp,%tmp,%kcol;
    add.u32 %tmp,%tmp,%c;
    mul.wide.u32 %off,%tmp,2;
    add.s64 %gptr,#1,%off;
    mov.u32 %tmp,#2;
    add.u32 %tmp,%tmp,#3;
    shl.b32 %tmp2,%e,4;
    add.u32 %tmp,%tmp,%tmp2;
    cp.async.cg.shared.global [%tmp],[%gptr],16;
";

/// Load of one A fragment: `#4` is the elements of a warp's rows, `#5` the column of the step.
pub const LOAD_A: &'static str = "    mov.u32 %tmp,smemA_#3;
    add.u32 %tmp,%tmp,%bufcA;
    mul.lo.s32 %tmp2,%warpRow,#4;
    add.u32 %tmp2,%tmp2,#1;
    add.u32 %tmp2,%tmp2,#5;
    shl.b32 %tmp2,%tmp2,1;
    add.u32 %tmp,%tmp,%tmp2;
    cvt.u64.u32 %gp,%tmp;
    cvta.shared.u64 %gp,%gp;
    wmma.load.a.sync.aligned.m16n16k16.row.#6 #2, [%gp], %ldm;
";

pub const LOAD_B: &'static str = "    mov.u32 %tmp,smemB_#3;
    add.u32 %tmp,%tmp,%bufcB;
    mul.lo.s32 %tmp2,%warpCol,#4;
    add.u32 %tmp2,%tmp2,#1;
    add.u32 %tmp2,%tmp2,#5;
    shl.b32 %tmp2,%tmp2,1;
    add.u32 %tmp,%tmp,%tmp2;
    cvt.u64.u32 %gp,%tmp;
    cvta.shared.u64 %gp,%gp;
    wmma.load.b.sync.aligned.m16n16k16.col.#6 #2, [%gp], %ldm;
";

pub const BIAS_START: &'static str = "    cp.async.wait_group 0;
    bar.sync 0;
    ld.param.u64 %Bias,[pBias];
    cvta.to.global.u64 %Bias,%Bias;
    mov.u32 %scld,16;
    and.b32 %lane,%tix,31;
    mov.u32 %scbase,smemA_#0;
    mul.lo.s32 %tmp,%warpId,1024;
    add.u32 %scbase,%scbase,%tmp;
";

/// The shapes and epilogues for which [`entry_smem_pipe`] generates a kernel.
pub open spec fn smem_pipe_shape(
    bm: nat,
    bn: nat,
    bk: nat,
    warps_m: nat,
    warps_n: nat,
    stages: nat,
    raster: nat,
    a: act::Act,
    bias: bool,
    residual: bool,
) -> bool {
    &&& stages >= 2
    &&& bk % 16 == 0
    &&& is_pow2((bk / 8) as int)
    &&& raster == 0 || (is_pow2(bm as int) && is_pow2(bn as int))
    &&& warps_m > 0
    &&& warps_n > 0
    &&& parts::staged_whole(bm, bk, warps_m * warps_n * 32)
    &&& parts::staged_whole(bn, bk, warps_m * warps_n * 32)
    &&& stages * (bm * bk * 2) + stages * (bn * bk * 2) <= smem_mode::STATIC_SMEM_CAP
    &&& residual ==> a == act::Act::Identity
    &&& bias ==> stages * (bm * bk * 2) >= warps_m * warps_n * 1024
}

/// The declarations, the place of a warp and the initial accumulators.
pub open spec fn smem_pipe_head(
    name: Seq<char>,
    ty: Seq<char>,
    bm: nat,
    bn: nat,
    bk: nat,
    tm: nat,
    tn: nat,
    warps_n: nat,
    stages: nat,
    raster: nat,
    bias: bool,
    residual: bool,
) -> Seq<char> {
    text::fill(
        parts::OPEN@,
        seq![
            name,
            if bias {
                parts::BIAS_PARAM@
            } else {
                ""@
            },
            if residual {
                smem_db::RESID_PARAM@
            } else {
                ""@
            },
        ],
    ) + text::fill(
        smem::BUFFERS@,
        seq![name, text::dec(stages * (bm * bk * 2)), text::dec(stages * (bn * bk * 2))],
    ) + REGS@ + (if bias {
        BIAS_REGS@
    } else {
        ""@
    }) + (if residual {
        smem_db::RESID_REGS@
    } else {
        ""@
    }) + (if raster > 0 {
        RASTER_REGS@
    } else {
        ""@
    }) + text::fill(
        if bias {
            F32_ACT_REGS@
        } else {
            parts::F32_REGS@
        },
        seq![parts::acc_list(tm, tn)],
    ) + parts::ab_regs(tm, tn, parts::fragment_width(ty)) + smem::POINTER_REGS@
        + parts::LOAD_DIMS@ + parts::LOAD_POINTERS@ + parts::origin(bm, bn, raster, "%grp"@)
        + text::fill(
        smem::WARP@,
        seq![text::dec(text::twos(warps_n)), text::dec((warps_n - 1) as nat), text::dec(bk)],
    ) + smem_db::acc_start(tm, tn, residual)
}

/// The copy of one tile of A and one of B into the stage being filled.
pub open spec fn stage_copy(name: Seq<char>, bm: nat, bn: nat, bk: nat, threads: nat) -> Seq<char> {
    let shift = text::dec(text::twos(bk / 8));
    let mask = text::dec((bk / 8 - 1) as nat);
    parts::chunks(
        text::fill(
            STAGE@,
            seq![
                "%baseRow"@,
                "%A"@,
                text::fill(smem::A_BUFFER@, seq![name]),
                "%bufwA"@,
                shift,
                mask,
            ],
        ),
        bm * bk / (threads * 8),
        threads,
    ) + parts::chunks(
        text::fill(
            STAGE@,
            seq![
                "%baseCol"@,
                "%B"@,
                text::fill(smem::B_BUFFER@, seq![name]),
                "%bufwB"@,
                shift,
                mask,
            ],
        ),
        bn * bk / (threads * 8),
        threads,
    )
}

/// See [`stage_copy`].
fn stage_copy_of(name: &str, bm: usize, bn: usize, bk: usize, threads: usize) -> (r: String)
    requires
        bk >= 8,
        threads > 0,
        bm * bk <= usize::MAX,
        bn * bk <= usize::MAX,
        parts::staged_whole(bm as nat, bk as nat, threads as nat),
        parts::staged_whole(bn as nat, bk as nat, threads as nat),
    ensures
        r@ == stage_copy(name@, bm as nat, bn as nat, bk as nat, threads as nat),
{
    proof {
        parts::lemma_staged_whole(bm as nat, bk as nat, threads as nat);
        parts::lemma_staged_whole(bn as nat, bk as nat, threads as nat);
    }
    let shift = text::decimal(text::shift_of(bk / 8));
    let mask = text::decimal(bk / 8 - 1);
    let a = text::expand6(
        STAGE,
        "%baseRow",
        "%A",
        &text::expand1(smem::A_BUFFER, name),
        "%bufwA",
        &shift,
        &mask,
    );
    let b = text::expand6(
        STAGE,
        "%baseCol",
        "%B",
        &text::expand1(smem::B_BUFFER, name),
        "%bufwB",
        &shift,
        &mask,
    );
    let mut r = parts::chunks_of(&a, bm * bk / (threads * 8), threads);
    r.append(&parts::chunks_of(&b, bn * bk / (threads * 8), threads));
    r
}

/// The first `n` steps of 16 columns that one staged tile feeds.
#[verifier::opaque]
pub open spec fn k_steps(
    name: Seq<char>,
    ty: Seq<char>,
    bk: nat,
    tm: nat,
    tn: nat,
    n: nat,
) -> Seq<char>
    decreases n,
{
    if n == 0 {
        Seq::empty()
    } else {
        let ks = (n - 1) as nat;
        let width = parts::fragment_width(ty);
        k_steps(name, ty, bk, tm, tn, ks) + parts::each_fragment(
            LOAD_A@,
            "a"@,
            tm,
            width,
            16 * bk,
            seq![name, text::dec(16 * tm * bk), text::dec(ks * 16), ty],
        ) + parts::each_fragment(
            LOAD_B@,
            "b"@,
            tn,
            width,
            16 * bk,
            seq![name, text::dec(16 * tn * bk), text::dec(ks * 16), ty],
        ) + parts::wmma_grid(parts::wmma_types(ty), tm, tn, width)
    }
}

/// See [`k_steps`].
fn k_steps_of(name: &str, ty: &str, bk: usize, tm: usize, tn: usize, n: usize) -> (r: String)
    requires
        16 * tm * bk <= usize::MAX,
        16 * tn * bk <= usize::MAX,
        16 * bk <= usize::MAX,
        16 * tm <= usize::MAX,
        16 * tn <= usize::MAX,
        16 * n <= usize::MAX,
    ensures
        r@ == k_steps(name@, ty@, bk as nat, tm as nat, tn as nat, n as nat),
{
    reveal(k_steps);
    let width: usize = parts::width_of(ty);
    let types = parts::wmma_types_of(ty);
    let rows = text::decimal(16 * tm * bk);
    let cols = text::decimal(16 * tn * bk);
    proof {
        assert(tm * (16 * bk) == 16 * tm * bk) by (nonlinear_arith);
        assert(tn * (16 * bk) == 16 * tn * bk) by (nonlinear_arith);
    }
    let mut r = String::new();
    for ks in 0..n
        invariant
            16 * n <= usize::MAX,
            16 * bk <= usize::MAX,
            tm * (16 * bk) <= usize::MAX,
            tn * (16 * bk) <= usize::MAX,
            width == parts::fragment_width(ty@),
            types@ == parts::wmma_types(ty@),
            rows@ == text::dec(16 * tm as nat * bk as nat),
            cols@ == text::dec(16 * tn as nat * bk as nat),
            r@ == k_steps(name@, ty@, bk as nat, tm as nat, tn as nat, ks as nat),
    {
        reveal(k_steps);
        let at = text::decimal(ks * 16);
        r.append(
            &parts::each_fragment_4(LOAD_A, "a", tm, width, 16 * bk, name, &rows, &at, ty),
        );
        r.append(
            &parts::each_fragment_4(LOAD_B, "b", tn, width, 16 * bk, name, &cols, &at, ty),
        );
        r.append(&parts::wmma_grid_of(&types, tm, tn, width));
    }
    r
}

/// The kernel of [`entry_smem_pipe`].
pub open spec fn entry_smem_pipe_text(
    name: Seq<char>,
    ty: Seq<char>,
    bm: nat,
    bn: nat,
    bk: nat,
    warps_m: nat,
    warps_n: nat,
    stages: nat,
    raster: nat,
    a: act::Act,
    bias: bool,
    residual: bool,
) -> Seq<char> {
    let tm = bm / (16 * warps_m);
    let tn = bn / (16 * warps_n);
    smem_pipe_head(
        name,
        ty,
        bm,
        bn,
        bk,
        tm,
        tn,
        warps_n,
        stages,
        raster,
        bias,
        residual,
    ) + pipeline::pipe_start(
        name,
        stages,
        bk,
        bm * bk * 2,
        bn * bk * 2,
        stage_copy(name, bm, bn, bk, warps_m * warps_n * 32),
    ) + k_steps(name, ty, bk, tm, tn, bk / 16) + pipeline::pipe_step(
        name,
        stages,
        bk,
        bm * bk * 2,
        bn * bk * 2,
    ) + (if bias {
        text::fill(BIAS_START@, seq![name]) + bias::bias_tiles(
            tm,
            tn,
            16 * tm,
            16 * tn,
            "%scld"@,
            a,
        )
    } else {
        text::each2(
            smem::STORE@,
            tm,
            tn,
            16,
            16,
            seq![text::dec(16 * tm), text::dec(16 * tn)],
        )
    }) + parts::CLOSE@
}

/// What the sizes of a legal shape are bounded by.
proof fn lemma_pipe_sizes(bm: nat, bk: nat, warps: nat, stages: nat)
    requires
        stages >= 2,
        bm > 0,
        warps > 0,
        stages * (bm * bk * 2) <= smem_mode::STATIC_SMEM_CAP,
    ensures
        bm * bk * 2 <= smem_mode::STATIC_SMEM_CAP,
        bm * bk <= smem_mode::STATIC_SMEM_CAP,
        bk <= smem_mode::STATIC_SMEM_CAP,
        stages * bk <= smem_mode::STATIC_SMEM_CAP,
        bm / (16 * warps) * 16 <= bm,
        16 * (bm / (16 * warps)) * bk <= smem_mode::STATIC_SMEM_CAP,
{
    let t = bm * bk * 2;
    assert(t <= stages * t) by (nonlinear_arith)
        requires
            stages >= 2,
            t >= 0,
    ;
    assert(bk <= bm * bk && stages * bk <= stages * t) by (nonlinear_arith)
        requires
            bm >= 1,
            t == bm * bk * 2,
            stages >= 0,
    ;
    parts::lemma_sub_tiles(bm, 16, warps);
    let q = bm / (16 * warps);
    assert(16 * q * bk <= bm * bk) by (nonlinear_arith)
        requires
            q * 16 <= bm,
    ;
}

/// Generate an N-stage `cp.async` software-pipelined WMMA GEMM entry: `stages - 1` copies are in
/// flight while a tile of `bk` columns is multiplied. `raster` groups the blocks into bands of that
/// many tile columns; 0 takes the grid's own order.
pub fn entry_smem_pipe(
    name: &str,
    ty: &str,
    bm: usize,
    bn: usize,
    bk: usize,
    warps_m: usize,
    warps_n: usize,
    stages: usize,
    raster: usize,
    a: act::Act,
    bias: bool,
    residual: bool,
) -> (s: String)
    requires
        smem_pipe_shape(
            bm as nat,
            bn as nat,
            bk as nat,
            warps_m as nat,
            warps_n as nat,
            stages as nat,
            raster as nat,
            a,
            bias,
            residual,
        ),
    ensures
        s@ == entry_smem_pipe_text(
            name@,
            ty@,
            bm as nat,
            bn as nat,
            bk as nat,
            warps_m as nat,
            warps_n as nat,
            stages as nat,
            raster as nat,
            a,
            bias,
            residual,
        ),
{
    proof {
        let w = warps_m as nat * warps_n as nat;
        assert(w >= warps_m && w >= warps_n && w > 0) by (nonlinear_arith)
            requires
                warps_m > 0,
                warps_n > 0,
                w == warps_m * warps_n,
        ;
        assert(bm > 0 && bn > 0 && bk > 0) by (nonlinear_arith)
            requires
                bm * bk > 0,
                bn * bk > 0,
        ;
        parts::lemma_staged_whole(bm as nat, bk as nat, w * 32);
        parts::lemma_staged_whole(bn as nat, bk as nat, w * 32);
        lemma_pipe_sizes(bm as nat, bk as nat, warps_m as nat, stages as nat);
        lemma_pipe_sizes(bn as nat, bk as nat, warps_n as nat, stages as nat);
    }
    let width: usize = parts::width_of(ty);
    let threads: usize = warps_m * warps_n * 32;
    let tm: usize = bm / (16 * warps_m);
    let tn: usize = bn / (16 * warps_n);
    let tile_a: usize = bm * bk * 2;
    let tile_b: usize = bn * bk * 2;

    let mut s = text::expand3(
        parts::OPEN,
        name,
        if bias { parts::BIAS_PARAM } else { "" },
        if residual { smem_db::RESID_PARAM } else { "" },
    );
    s.append(
        &text::expand3(
            smem::BUFFERS,
            name,
            &text::decimal(stages * tile_a),
            &text::decimal(stages * tile_b),
        ),
    );
    s.append(REGS);
    s.append(if bias { BIAS_REGS } else { "" });
    s.append(if residual { smem_db::RESID_REGS } else { "" });
    s.append(if raster > 0 { RASTER_REGS } else { "" });
    s.append(
        &text::expand1(
            if bias { F32_ACT_REGS } else { parts::F32_REGS },
            &parts::acc_list_of(tm, tn),
        ),
    );
    s.append(&parts::ab_regs_of(tm, tn, width));
    s.append(smem::POINTER_REGS);
    s.append(parts::LOAD_DIMS);
    s.append(parts::LOAD_POINTERS);
    s.append(&parts::origin_of(bm, bn, raster, "%grp"));
    s.append(
        &text::expand3(
            smem::WARP,
            &text::decimal(text::shift_of(warps_n)),
            &text::decimal(warps_n - 1),
            &text::decimal(bk),
        ),
    );
    s.append(&smem_db::acc_start_of(tm, tn, residual));

    let copy = stage_copy_of(name, bm, bn, bk, threads);
    s.append(&pipeline::pipe_start_of(name, stages, bk, tile_a, tile_b, &copy));
    s.append(&k_steps_of(name, ty, bk, tm, tn, bk / 16));
    s.append(&pipeline::pipe_step_of(name, stages, bk, tile_a, tile_b));

    let store = if bias {
        let mut store = text::expand1(BIAS_START, name);
        store.append(&bias::bias_tiles_of(tm, tn, 16 * tm, 16 * tn, "%scld", a));
        store
    } else {
        text::each2_2(
            smem::STORE,
            tm,
            tn,
            16,
            16,
            &text::decimal(16 * tm),
            &text::decimal(16 * tn),
        )
    };
    s.append(&store);
    s.append(parts::CLOSE);
    s
}

} // verus!
