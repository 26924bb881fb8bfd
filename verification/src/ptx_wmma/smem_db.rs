//! The WMMA kernel that stages the next pair of tiles while it multiplies the current one.
use vstd::arithmetic::power2::*;
use vstd::prelude::*;
use vstd::string::*;

use crate::ptx_wmma::act;
use crate::ptx_wmma::bias;
use crate::ptx_wmma::parts;
use crate::ptx_wmma::smem;
use crate::text;

verus! {

pub const REGS: &'static str = "    .reg .pred %p0,%pmore;
    .reg .b32 %M,%N,%K,%baseRow,%baseCol,%kt,%ktn,%kcol,%tmp,%tmp2,%tix,%warpId,%warpRow,%warpCol,%e,%r,%c,%ldm,%bufc,%bufp,%v0,%v1,%v2,%v3;
    .reg .f32 #0,%act0,%act1;
";

pub const BIAS_REGS: &'static str = "    .reg .b32 %lane,%f,%grow,%gcol,%scbase;
    .reg .f32 %bval,%biasv;
    .reg .b64 %Bias,%scptr;
";

pub const RESID_REGS: &'static str = "    .reg .b64 %Resid;
";

/// The parameter that holds the residual matrix.
pub const RESID_PARAM: &'static str = ",
    .param .u64 pResidual";

pub const RESID_POINTER: &'static str = "    ld.param.u64 %Resid,[pResidual];
    cvta.to.global.u64 %Resid,%Resid;
";

/// The accumulators of one tile start as the residual's tile.
pub const RESID_LOAD: &'static str = "    mul.lo.s32 %tmp,%warpRow,#4;
    add.u32 %tmp,%tmp,#2;
    add.u32 %tmp,%tmp,%baseRow;
    mul.lo.s32 %tmp,%tmp,%N;
    mul.lo.s32 %tmp2,%warpCol,#5;
    add.u32 %tmp2,%tmp2,#3;
    add.u32 %tmp2,%tmp2,%baseCol;
    add.u32 %tmp,%tmp,%tmp2;
    mul.wide.u32 %off,%tmp,4;
    add.s64 %cptr,%Resid,%off;
    wmma.load.c.sync.aligned.m16n16k16.row.f32 {%c#0_#1_0,%c#0_#1_1,%c#0_#1_2,%c#0_#1_3,%c#0_#1_4,%c#0_#1_5,%c#0_#1_6,%c#0_#1_7}, [%cptr], %N;
";

/// The offsets of the buffer in use and of the one being filled; a tile has `#0` bytes.
pub const BUFFER_START: &'static str = "    mov.u32 %bufc,0;
    mov.u32 %bufp,#0;
    mov.u32 %kcol,0;
";

/// One 16-byte chunk of a tile: `#0` is the tile's row, `#1` the matrix, `#2` the buffer, `#3` the
/// offset in it.
pub const STAGE: &'static str = "    shr.u32 %r,%e,1;
    and.b32 %c,%e,1;
    shl.b32 %c,%c,3;
    add.u32 %tmp,#0,%r;
    mul.lo.s32 %tmp,%tmp,%K;
    add.u32 %tmp,%tmp,%kcol;
    add.u32 %tmp,%tmp,%c;
    mul.wide.u32 %off,%tmp,2;
    add.s64 %gptr,#1,%off;
    mov.u32 %tmp,#2;
    add.u32 %tmp,%tmp,#3;
    shl.b32 %tmp2,%e,4;
    add.u32 %tmp,%tmp,%tmp2;
    cp.async.cg.shared.global [%tmp],[%gptr],16;
";

pub const LOOP_START: &'static str = "    cp.async.commit_group;
    mov.u32 %kt,0;
";

pub const NEXT_TILE: &'static str = "    add.u32 %ktn,%kt,16;
    setp.lt.u32 %pmore,%ktn,%K;
    @!%pmore bra LAST_#0;
    mov.u32 %kcol,%ktn;
";

pub const WAIT: &'static str = "    cp.async.commit_group;
    cp.async.wait_group 1;
    bra SYNC_#0;
LAST_#0:
    cp.async.wait_group 0;
SYNC_#0:
    bar.sync 0;
";

pub const LOAD_A: &'static str = "    mov.u32 %tmp,smemA_#3;
    add.u32 %tmp,%tmp,%bufc;
    mul.lo.s32 %tmp2,%warpRow,#4;
    add.u32 %tmp2,%tmp2,#1;
    mul.lo.s32 %tmp2,%tmp2,32;
    add.u32 %tmp,%tmp,%tmp2;
    cvt.u64.u32 %gp,%tmp;
    cvta.shared.u64 %gp,%gp;
    wmma.load.a.sync.aligned.m16n16k16.row.#5 #2, [%gp], %ldm;
";

pub const LOAD_B: &'static str = "    mov.u32 %tmp,smemB_#3;
    add.u32 %tmp,%tmp,%bufc;
    mul.lo.s32 %tmp2,%warpCol,#4;
    add.u32 %tmp2,%tmp2,#1;
    mul.lo.s32 %tmp2,%tmp2,32;
    add.u32 %tmp,%tmp,%tmp2;
    cvt.u64.u32 %gp,%tmp;
    cvta.shared.u64 %gp,%gp;
    wmma.load.b.sync.aligned.m16n16k16.col.#5 #2, [%gp], %ldm;
";

/// The two buffers change places.
pub const SWAP: &'static str = "    bar.sync 0;
    xor.b32 %bufc,%bufc,#0;
    xor.b32 %bufp,%bufp,#0;
";

pub const BIAS_START: &'static str = "    bar.sync 0;
    ld.param.u64 %Bias,[pBias];
    cvta.to.global.u64 %Bias,%Bias;
    and.b32 %lane,%tix,31;
    mov.u32 %scbase,smemA_#0;
    mul.lo.s32 %tmp,%warpId,1024;
    add.u32 %scbase,%scbase,%tmp;
";

/// The address of one 16 by 16 tile; `#4` and `#5` are the rows and columns of a warp.
pub const TILE_ADDRESS: &'static str = "    mul.lo.s32 %tmp,%warpRow,#4;
    add.u32 %tmp,%tmp,#2;
    add.u32 %tmp,%tmp,%baseRow;
    mul.lo.s32 %tmp,%tmp,%N;
    mul.lo.s32 %tmp2,%warpCol,#5;
    add.u32 %tmp2,%tmp2,#3;
    add.u32 %tmp2,%tmp2,%baseCol;
    add.u32 %tmp,%tmp,%tmp2;
    mul.wide.u32 %off,%tmp,4;
    add.s64 %cptr,%C,%off;
";

pub const TILE_REGS: &'static str = "%c#0_#1_";

pub const TILE_STORE: &'static str = "    wmma.store.d.sync.aligned.m16n16k16.row.f32 [%cptr], {%c#0_#1_0,%c#0_#1_1,%c#0_#1_2,%c#0_#1_3,%c#0_#1_4,%c#0_#1_5,%c#0_#1_6,%c#0_#1_7}, %N;
";

/// The tile in row `i`, column `j`, activated and stored.
pub open spec fn act_tile(i: nat, j: nat, rows: nat, cols: nat, a: act::Act) -> Seq<char> {
    let ij = seq![text::dec(i), text::dec(j)];
    text::fill(
        TILE_ADDRESS@,
        seq![
            text::dec(i),
            text::dec(j),
            text::dec(i * 16),
            text::dec(j * 16),
            text::dec(rows),
            text::dec(cols),
        ],
    ) + a.epilogues_text(text::fill(TILE_REGS@, ij), 8) + text::fill(TILE_STORE@, ij)
}

/// The first `n` tiles of row `i`.
#[verifier::opaque]
pub open spec fn act_row(i: nat, n: nat, rows: nat, cols: nat, a: act::Act) -> Seq<char>
    decreases n,
{
    if n == 0 {
        Seq::empty()
    } else {
        act_row(i, (n - 1) as nat, rows, cols, a) + act_tile(i, (n - 1) as nat, rows, cols, a)
    }
}

/// The first `tm` rows of `tn` tiles each.
#[verifier::opaque]
pub open spec fn act_tiles(tm: nat, tn: nat, rows: nat, cols: nat, a: act::Act) -> Seq<char>
    decreases tm,
{
    if tm == 0 {
        Seq::empty()
    } else {
        act_tiles((tm - 1) as nat, tn, rows, cols, a) + act_row(
            (tm - 1) as nat,
            tn,
            rows,
            cols,
            a,
        )
    }
}

/// See [`act_tiles`].
pub fn act_tiles_of(tm: usize, tn: usize, rows: usize, cols: usize, a: act::Act) -> (r: String)
    requires
        tm * 16 <= usize::MAX,
        tn * 16 <= usize::MAX,
    ensures
        r@ == act_tiles(tm as nat, tn as nat, rows as nat, cols as nat, a),
{
    reveal(act_tiles);
    let mut r = String::new();
    for i in 0..tm
        invariant
            tm * 16 <= usize::MAX,
            tn * 16 <= usize::MAX,
            r@ == act_tiles(i as nat, tn as nat, rows as nat, cols as nat, a),
    {
        reveal(act_tiles);
        reveal(act_row);
        let mut row = String::new();
        for j in 0..tn
            invariant
                i < tm,
                tm * 16 <= usize::MAX,
                tn * 16 <= usize::MAX,
                row@ == act_row(i as nat, j as nat, rows as nat, cols as nat, a),
        {
            reveal(act_row);
            let (si, sj) = (text::decimal(i), text::decimal(j));
            let mut tile = text::expand6(
                TILE_ADDRESS,
                &si,
                &sj,
                &text::decimal(i * 16),
                &text::decimal(j * 16),
                &text::decimal(rows),
                &text::decimal(cols),
            );
            tile.append(&a.epilogues(&text::expand2(TILE_REGS, &si, &sj), 8));
            tile.append(&text::expand2(TILE_STORE, &si, &sj));
            row.append(&tile);
        }
        r.append(&row);
    }
    r
}

/// The shapes and epilogues for which [`entry_smem_db`] generates a kernel.
pub open spec fn smem_db_shape(
    bm: nat,
    bn: nat,
    warps_m: nat,
    warps_n: nat,
    a: act::Act,
    bias: bool,
    residual: bool,
) -> bool {
    &&& bm == bn
    &&& smem::smem_shape(bm, bn, warps_m, warps_n)
    &&& is_pow2((bm * 32) as int)
    &&& bias ==> 2 * (bm * 32) >= warps_m * warps_n * 1024
    &&& residual ==> a == act::Act::Identity && !bias
}

/// The initial accumulators: zero, or the residual's tiles.
pub open spec fn acc_start(tm: nat, tn: nat, residual: bool) -> Seq<char> {
    if residual {
        RESID_POINTER@ + text::each2(
            RESID_LOAD@,
            tm,
            tn,
            16,
            16,
            seq![text::dec(16 * tm), text::dec(16 * tn)],
        )
    } else {
        text::each2(parts::ACC_ZERO@, tm, tn, 0, 0, Seq::empty())
    }
}

/// See [`acc_start`].
pub fn acc_start_of(tm: usize, tn: usize, residual: bool) -> (r: String)
    requires
        16 * tm <= usize::MAX,
        16 * tn <= usize::MAX,
    ensures
        r@ == acc_start(tm as nat, tn as nat, residual),
{
    if residual {
        let mut r = String::from_str(RESID_POINTER);
        r.append(
            &text::each2_2(
                RESID_LOAD,
                tm,
                tn,
                16,
                16,
                &text::decimal(16 * tm),
                &text::decimal(16 * tn),
            ),
        );
        r
    } else {
        text::each2_0(parts::ACC_ZERO, tm, tn, 0, 0)
    }
}

/// The declarations, the place of a warp and the initial accumulators.
pub open spec fn smem_db_head(
    name: Seq<char>,
    ty: Seq<char>,
    bm: nat,
    tm: nat,
    tn: nat,
    warps_n: nat,
    bias: bool,
    residual: bool,
) -> Seq<char> {
    text::fill(
        parts::OPEN@,
        seq![
            name,
            if bias {
                parts::BIAS_PARAM@
            } else {
                ""@
            },
            if residual {
                RESID_PARAM@
            } else {
                ""@
            },
        ],
    ) + text::fill(
        smem::BUFFERS@,
        seq![name, text::dec(2 * (bm * 32)), text::dec(2 * (bm * 32))],
    ) + text::fill(REGS@, seq![parts::acc_list(tm, tn)]) + (if bias {
        BIAS_REGS@
    } else {
        ""@
    }) + (if residual {
        RESID_REGS@
    } else {
        ""@
    }) + parts::ab_regs(tm, tn, parts::fragment_width(ty)) + smem::POINTER_REGS@
        + parts::LOAD_DIMS@ + parts::LOAD_POINTERS@ + text::fill(
        parts::TILE_ORIGIN@,
        seq![text::dec(bm), text::dec(bm)],
    ) + text::fill(
        smem::WARP@,
        seq![text::dec(text::twos(warps_n)), text::dec((warps_n - 1) as nat), text::dec(16)],
    ) + acc_start(tm, tn, residual)
}

/// The copy of one tile pair into the buffers at offset `buffer`.
pub open spec fn stage_pair(
    name: Seq<char>,
    buffer: Seq<char>,
    n: nat,
    threads: nat,
) -> Seq<char> {
    parts::chunks(
        text::fill(
            STAGE@,
            seq!["%baseRow"@, "%A"@, text::fill(smem::A_BUFFER@, seq![name]), buffer],
        ),
        n,
        threads,
    ) + parts::chunks(
        text::fill(
            STAGE@,
            seq!["%baseCol"@, "%B"@, text::fill(smem::B_BUFFER@, seq![name]), buffer],
        ),
        n,
        threads,
    )
}

/// See [`stage_pair`].
fn stage_pair_of(name: &str, buffer: &str, n: usize, threads: usize) -> (r: String)
    requires
        n * threads <= usize::MAX,
    ensures
        r@ == stage_pair(name@, buffer@, n as nat, threads as nat),
{
    let a = text::expand4(
        STAGE,
        "%baseRow",
        "%A",
        &text::expand1(smem::A_BUFFER, name),
        buffer,
    );
    let b = text::expand4(
        STAGE,
        "%baseCol",
        "%B",
        &text::expand1(smem::B_BUFFER, name),
        buffer,
    );
    let mut r = parts::chunks_of(&a, n, threads);
    r.append(&parts::chunks_of(&b, n, threads));
    r
}

/// The K loop over two buffers.
pub open spec fn smem_db_loop(
    name: Seq<char>,
    ty: Seq<char>,
    bm: nat,
    tm: nat,
    tn: nat,
    threads: nat,
) -> Seq<char> {
    let width = parts::fragment_width(ty);
    let n = bm * 16 / (threads * 8);
    text::fill(BUFFER_START@, seq![text::dec(bm * 32)]) + stage_pair(name, "%bufc"@, n, threads)
        + LOOP_START@ + text::fill(parts::LOOP_HEAD@, seq![name]) + text::fill(
        NEXT_TILE@,
        seq![name],
    ) + stage_pair(name, "%bufp"@, n, threads) + text::fill(WAIT@, seq![name])
        + parts::each_fragment(
        LOAD_A@,
        "a"@,
        tm,
        width,
        16,
        seq![name, text::dec(16 * tm), ty],
    ) + parts::each_fragment(
        LOAD_B@,
        "b"@,
        tn,
        width,
        16,
        seq![name, text::dec(16 * tn), ty],
    ) + parts::wmma_grid(parts::wmma_types(ty), tm, tn, width) + text::fill(
        SWAP@,
        seq![text::dec(bm * 32)],
    ) + text::fill(parts::LOOP_TAIL@, seq![name, text::dec(16)])
}

/// The kernel of [`entry_smem_db`].
pub open spec fn entry_smem_db_text(
    name: Seq<char>,
    ty: Seq<char>,
    bm: nat,
    bn: nat,
    warps_m: nat,
    warps_n: nat,
    a: act::Act,
    bias: bool,
    residual: bool,
) -> Seq<char> {
    let tm = bm / (16 * warps_m);
    let tn = bn / (16 * warps_n);
    smem_db_head(name, ty, bm, tm, tn, warps_n, bias, residual) + smem_db_loop(
        name,
        ty,
        bm,
        tm,
        tn,
        warps_m * warps_n * 32,
    ) + (if bias {
        text::fill(BIAS_START@, seq![name]) + bias::bias_tiles(
            tm,
            tn,
            16 * tm,
            16 * tn,
            "%ldm"@,
            a,
        )
    } else {
        act_tiles(tm, tn, 16 * tm, 16 * tn, a)
    }) + parts::CLOSE@
}

/// Generate a double-buffered shared-memory WMMA GEMM entry with an optional fused epilogue:
/// `act(A·Bᵀ + bias)`, or an accumulator that starts as a residual matrix.
pub fn entry_smem_db(
    name: &str,
    ty: &str,
    bm: usize,
    bn: usize,
    warps_m: usize,
    warps_n: usize,
    a: act::Act,
    bias: bool,
    residual: bool,
) -> (s: String)
    requires
        smem_db_shape(
            bm as nat,
            bn as nat,
            warps_m as nat,
            warps_n as nat,
            a,
            bias,
            residual,
        ),
        bm * 64 <= usize::MAX,
    ensures
        s@ == entry_smem_db_text(
            name@,
            ty@,
            bm as nat,
            bn as nat,
            warps_m as nat,
            warps_n as nat,
            a,
            bias,
            residual,
        ),
{
    proof {
        let w = warps_m as nat * warps_n as nat;
        assert(w >= warps_m && w >= warps_n && w > 0) by (nonlinear_arith)
            requires
                warps_m > 0,
                warps_n > 0,
                w == warps_m * warps_n,
        ;
        parts::lemma_staged_whole(bm as nat, smem::SM_BK as nat, w * 32);
        parts::lemma_sub_tiles(bm as nat, 16, warps_m as nat);
        parts::lemma_sub_tiles(bn as nat, 16, warps_n as nat);
    }
    let width: usize = parts::width_of(ty);
    let threads: usize = warps_m * warps_n * 32;
    let tm: usize = bm / (16 * warps_m);
    let tn: usize = bn / (16 * warps_n);
    let tile_bytes: usize = bm * smem::SM_BK * 2;
    let chunks: usize = bm * smem::SM_BK / (threads * 8);
    let rows = text::decimal(16 * tm);
    let cols = text::decimal(16 * tn);
    let buffer = text::decimal(2 * tile_bytes);

    let bias_param = if bias {
        parts::BIAS_PARAM
    } else {
        ""
    };
    let resid_param = if residual {
        RESID_PARAM
    } else {
        ""
    };
    let mut s = text::expand3(parts::OPEN, name, bias_param, resid_param);
    s.append(&text::expand3(smem::BUFFERS, name, &buffer, &buffer));
    s.append(&text::expand1(REGS, &parts::acc_list_of(tm, tn)));
    s.append(if bias { BIAS_REGS } else { "" });
    s.append(if residual { RESID_REGS } else { "" });
    s.append(&parts::ab_regs_of(tm, tn, width));
    s.append(smem::POINTER_REGS);
    s.append(parts::LOAD_DIMS);
    s.append(parts::LOAD_POINTERS);
    s.append(&text::expand2(parts::TILE_ORIGIN, &text::decimal(bm), &text::decimal(bn)));
    s.append(
        &text::expand3(
            smem::WARP,
            &text::decimal(text::shift_of(warps_n)),
            &text::decimal(warps_n - 1),
            &text::decimal(smem::SM_BK),
        ),
    );
    s.append(&acc_start_of(tm, tn, residual));

    let mut body = text::expand1(BUFFER_START, &text::decimal(tile_bytes));
    body.append(&stage_pair_of(name, "%bufc", chunks, threads));
    body.append(LOOP_START);
    body.append(&text::expand1(parts::LOOP_HEAD, name));
    body.append(&text::expand1(NEXT_TILE, name));
    body.append(&stage_pair_of(name, "%bufp", chunks, threads));
    body.append(&text::expand1(WAIT, name));
    body.append(&parts::each_fragment_3(LOAD_A, "a", tm, width, 16, name, &rows, ty));
    body.append(&parts::each_fragment_3(LOAD_B, "b", tn, width, 16, name, &cols, ty));
    body.append(&parts::wmma_grid_of(&parts::wmma_types_of(ty), tm, tn, width));
    body.append(&text::expand1(SWAP, &text::decimal(tile_bytes)));
    body.append(&text::expand2(parts::LOOP_TAIL, name, &text::decimal(16)));
    s.append(&body);

    let store = if bias {
        let mut store = text::expand1(BIAS_START, name);
        store.append(&bias::bias_tiles_of(tm, tn, 16 * tm, 16 * tn, "%ldm", a));
        store
    } else {
        act_tiles_of(tm, tn, 16 * tm, 16 * tn, a)
    };
    s.append(&store);
    s.append(parts::CLOSE);
    s
}

} // verus!
