//! The gated-FFN `mma.sync` kernel: one A tile feeds two products, and only their gated product is
//! stored.
use vstd::prelude::*;
use vstd::string::*;

use crate::ptx_wmma::act;
use crate::ptx_wmma::mma;
use crate::ptx_wmma::parts;
use crate::ptx_wmma::pipeline;
use crate::ptx_wmma::smem;
use crate::smem_mode;
use crate::text;

verus! {

pub const OPEN: &'static str = ".visible .entry #0(
    .param .u32 pM,
    .param .u32 pN,
    .param .u32 pK,
    .param .u64 pA,
    .param .u64 pBg,
    .param .u64 pBu,
    .param .u64 pC#1
)
{
    .shared .align 16 .b8 smemA_#0[#2];
    .shared .align 16 .b8 smemBg_#0[#3];
    .shared .align 16 .b8 smemBu_#0[#3];
    .reg .pred %p0,%pmore;
    .reg .b32 %M,%N,%K,%baseRow,%baseCol,%kt,%kcol,%tmp,%tmp2,%tix,%warpId,%warpRow,%warpCol,%e,%r,%c,%bufcA,%bufcBg,%bufcBu,%bufwA,%bufwBg,%bufwBu,%lane,%grp,%tg,%tg2,%laneoff,%warpMrow,%warpNcol,%aptr,%bptr,%grow,%gcol;
";

pub const BIAS_PARAMS: &'static str = ",
    .param .u64 pBiasG,
    .param .u64 pBiasU";

pub const BIAS_REGS: &'static str = "    .reg .f32 %biasg0,%biasg1,%biasu0,%biasu1;
    .reg .b64 %BiasG,%BiasU;
";

/// The accumulators of one 16 by 8 sub-tile of both products, as list items.
pub const D_REGS: &'static str =
    "%dg#0_#1_0,%du#0_#1_0,%dg#0_#1_1,%du#0_#1_1,%dg#0_#1_2,%du#0_#1_2,%dg#0_#1_3,%du#0_#1_3,";

pub const D_ZERO: &'static str = "    mov.f32 %dg#0_#1_0,0f00000000;
    mov.f32 %du#0_#1_0,0f00000000;
    mov.f32 %dg#0_#1_1,0f00000000;
    mov.f32 %du#0_#1_1,0f00000000;
    mov.f32 %dg#0_#1_2,0f00000000;
    mov.f32 %du#0_#1_2,0f00000000;
    mov.f32 %dg#0_#1_3,0f00000000;
    mov.f32 %du#0_#1_3,0f00000000;
";

pub const A_REGS: &'static str = "%a#0_0,%a#0_1,%a#0_2,%a#0_3,";

pub const B_REGS: &'static str = "%bg#0_0,%bu#0_0,%bg#0_1,%bu#0_1,";

pub const POINTER_REGS: &'static str = "    .reg .b64 %A,%Bg,%Bu,%C,%off,%gptr,%cptr,%cptr2;
";

pub const LOAD_POINTERS: &'static str = "    ld.param.u64 %A,[pA];
    ld.param.u64 %Bg,[pBg];
    ld.param.u64 %Bu,[pBu];
    ld.param.u64 %C,[pC];
    cvta.to.global.u64 %A,%A;
    cvta.to.global.u64 %Bg,%Bg;
    cvta.to.global.u64 %Bu,%Bu;
    cvta.to.global.u64 %C,%C;
";

pub const BIAS_POINTERS: &'static str = "    ld.param.u64 %BiasG,[pBiasG];
    cvta.to.global.u64 %BiasG,%BiasG;
    ld.param.u64 %BiasU,[pBiasU];
    cvta.to.global.u64 %BiasU,%BiasU;
";

pub const GATE_BUFFER: &'static str = "smemBg_#0";

pub const UP_BUFFER: &'static str = "smemBu_#0";

/// The copy of one stage ahead of the loop: `#1` is the stage, `#2` its column, `#3` and `#4` its
/// offsets in the rings of A and of the two B, `#5` the copy.
pub const PROLOGUE: &'static str = "    mov.u32 %kcol,#2;
    mov.u32 %bufwA,#3;
    mov.u32 %bufwBg,#4;
    mov.u32 %bufwBu,#4;
    setp.lt.u32 %pmore,%kcol,%K;
    @!%pmore bra PRO_#0_#1;
#5PRO_#0_#1:
    cp.async.commit_group;
";

pub const RING_START: &'static str = "    mov.u32 %bufcA,0;
    mov.u32 %bufcBg,0;
    mov.u32 %bufcBu,0;
    mov.u32 %bufwA,#0;
    mov.u32 %bufwBg,#1;
    mov.u32 %bufwBu,#1;
    mov.u32 %kt,0;
";

pub const MMA: &'static str = "    mma.sync.aligned.m16n8k16.row.col.#4 {%dg#0_#1_0,%dg#0_#1_1,%dg#0_#1_2,%dg#0_#1_3},{%a#0_0,%a#0_1,%a#0_2,%a#0_3},{%bg#1_0,%bg#1_1},{%dg#0_#1_0,%dg#0_#1_1,%dg#0_#1_2,%dg#0_#1_3};
    mma.sync.aligned.m16n8k16.row.col.#4 {%du#0_#1_0,%du#0_#1_1,%du#0_#1_2,%du#0_#1_3},{%a#0_0,%a#0_1,%a#0_2,%a#0_3},{%bu#1_0,%bu#1_1},{%du#0_#1_0,%du#0_#1_1,%du#0_#1_2,%du#0_#1_3};
";

/// The place of a lane's results in C: `#0` and `#1` are the sub-tile's place in the warp.
pub const PLACE: &'static str = "    add.u32 %grow,%baseRow,%warpMrow;
    add.u32 %grow,%grow,#0;
    add.u32 %grow,%grow,%grp;
    add.u32 %gcol,%baseCol,%warpNcol;
    add.u32 %gcol,%gcol,#1;
    add.u32 %gcol,%gcol,%tg2;
";

pub const ADD_BIAS: &'static str = "    mul.wide.u32 %off,%gcol,4;
    add.s64 %cptr,%BiasG,%off;
    ld.global.f32 %biasg0,[%cptr];
    ld.global.f32 %biasg1,[%cptr+4];
    add.f32 %dg#0_#1_0,%dg#0_#1_0,%biasg0;
    add.f32 %dg#0_#1_1,%dg#0_#1_1,%biasg1;
    add.f32 %dg#0_#1_2,%dg#0_#1_2,%biasg0;
    add.f32 %dg#0_#1_3,%dg#0_#1_3,%biasg1;
    add.s64 %cptr,%BiasU,%off;
    ld.global.f32 %biasu0,[%cptr];
    ld.global.f32 %biasu1,[%cptr+4];
    add.f32 %du#0_#1_0,%du#0_#1_0,%biasu0;
    add.f32 %du#0_#1_1,%du#0_#1_1,%biasu1;
    add.f32 %du#0_#1_2,%du#0_#1_2,%biasu0;
    add.f32 %du#0_#1_3,%du#0_#1_3,%biasu1;
";

pub const GATE_NAME: &'static str = "%dg#0_#1_";

/// The gated product of a sub-tile, and its store.
pub const GATED_STORE: &'static str = "    mul.f32 %dg#0_#1_0,%dg#0_#1_0,%du#0_#1_0;
    mul.f32 %dg#0_#1_1,%dg#0_#1_1,%du#0_#1_1;
    mul.f32 %dg#0_#1_2,%dg#0_#1_2,%du#0_#1_2;
    mul.f32 %dg#0_#1_3,%dg#0_#1_3,%du#0_#1_3;
    mul.lo.s32 %tmp,%grow,%N;
    add.u32 %tmp,%tmp,%gcol;
    mul.wide.u32 %off,%tmp,4;
    add.s64 %cptr,%C,%off;
    st.global.f32 [%cptr],%dg#0_#1_0;
    st.global.f32 [%cptr+4],%dg#0_#1_1;
    add.u32 %tmp,%grow,8;
    mul.lo.s32 %tmp,%tmp,%N;
    add.u32 %tmp,%tmp,%gcol;
    mul.wide.u32 %off,%tmp,4;
    add.s64 %cptr2,%C,%off;
    st.global.f32 [%cptr2],%dg#0_#1_2;
    st.global.f32 [%cptr2+4],%dg#0_#1_3;
";

/// The sub-tile in row `i`, column `j`: biases, the activation, the product and its store.
pub open spec fn gate_tile(a: act::Act, bias: bool, i: nat, j: nat) -> Seq<char> {
    let ij = seq![text::dec(i), text::dec(j)];
    text::fill(PLACE@, seq![text::dec(i * 16), text::dec(j * 8)]) + (if bias {
        text::fill(ADD_BIAS@, ij)
    } else {
        ""@
    }) + a.epilogues_text(text::fill(GATE_NAME@, ij), 4) + text::fill(GATED_STORE@, ij)
}

/// The first `n` sub-tiles of row `i`.
#[verifier::opaque]
pub open spec fn gate_row(a: act::Act, bias: bool, i: nat, n: nat) -> Seq<char>
    decreases n,
{
    if n == 0 {
        Seq::empty()
    } else {
        gate_row(a, bias, i, (n - 1) as nat) + gate_tile(a, bias, i, (n - 1) as nat)
    }
}

/// The first `tm` rows of `tn` sub-tiles each.
#[verifier::opaque]
pub open spec fn gate_tiles(a: act::Act, bias: bool, tm: nat, tn: nat) -> Seq<char>
    decreases tm,
{
    if tm == 0 {
        Seq::empty()
    } else {
        gate_tiles(a, bias, (tm - 1) as nat, tn) + gate_row(a, bias, (tm - 1) as nat, tn)
    }
}

/// See [`gate_tiles`].
fn gate_tiles_of(a: act::Act, bias: bool, tm: usize, tn: usize) -> (r: String)
    requires
        tm * 16 <= usize::MAX,
        tn * 8 <= usize::MAX,
    ensures
        r@ == gate_tiles(a, bias, tm as nat, tn as nat),
{
    reveal(gate_tiles);
    let mut r = String::new();
    for i in 0..tm
        invariant
            tm * 16 <= usize::MAX,
            tn * 8 <= usize::MAX,
            r@ == gate_tiles(a, bias, i as nat, tn as nat),
    {
        reveal(gate_tiles);
        reveal(gate_row);
        let mut row = String::new();
        for j in 0..tn
            invariant
                i < tm,
                tm * 16 <= usize::MAX,
                tn * 8 <= usize::MAX,
                row@ == gate_row(a, bias, i as nat, j as nat),
        {
            reveal(gate_row);
            let (si, sj) = (text::decimal(i), text::decimal(j));
            let mut tile = text::expand2(PLACE, &text::decimal(i * 16), &text::decimal(j * 8));
            let biases = if bias {
                text::expand2(ADD_BIAS, &si, &sj)
            } else {
                String::from_str("")
            };
            tile.append(&biases);
            tile.append(&a.epilogues(&text::expand2(GATE_NAME, &si, &sj), 4));
            tile.append(&text::expand2(GATED_STORE, &si, &sj));
            row.append(&tile);
        }
        r.append(&row);
    }
    r
}

/// The declarations.
pub open spec fn gate_head(
    name: Seq<char>,
    shape: mma::MmaShape,
    a: act::Act,
    bias: bool,
) -> Seq<char> {
    text::fill(
        OPEN@,
        seq![
            name,
            if bias {
                BIAS_PARAMS@
            } else {
                ""@
            },
            text::dec(shape.smem_a()),
            text::dec(shape.smem_b()),
        ],
    ) + (if a != act::Act::Identity {
        mma::ACT_REGS@
    } else {
        ""@
    }) + (if bias {
        BIAS_REGS@
    } else {
        ""@
    }) + (if shape.swz {
        mma::SWIZZLE_REGS@
    } else {
        ""@
    }) + (if shape.raster > 0 {
        mma::RASTER_REGS@
    } else {
        ""@
    }) + text::fill(
        parts::F32_REGS@,
        seq![
            text::without_last(text::each2(D_REGS@, shape.tm(), shape.tn(), 0, 0, Seq::empty())),
        ],
    ) + text::fill(
        parts::B32_REGS@,
        seq![
            text::without_last(
                text::each(A_REGS@, shape.tm(), 0, Seq::empty()) + text::each(
                    B_REGS@,
                    shape.tn(),
                    0,
                    Seq::empty(),
                ),
            ),
        ],
    ) + POINTER_REGS@
}

/// The parameters, the places of the block and the lanes, and the initial accumulators.
pub open spec fn gate_setup(shape: mma::MmaShape, bias: bool) -> Seq<char> {
    parts::LOAD_DIMS@ + LOAD_POINTERS@ + (if bias {
        BIAS_POINTERS@
    } else {
        ""@
    }) + parts::origin(shape.bm as nat, shape.bn as nat, shape.raster as nat, "%grpr"@)
        + shape.lanes() + text::each2(D_ZERO@, shape.tm(), shape.tn(), 0, 0, Seq::empty())
}

/// The copy of one tile of A and one of each B into the stage being filled.
pub open spec fn gate_copy(name: Seq<char>, shape: mma::MmaShape) -> Seq<char> {
    shape.stage(
        shape.bm as nat,
        "%baseRow"@,
        "%A"@,
        mma::base("%tmp"@, text::fill(smem::A_BUFFER@, seq![name]), 0),
        "%bufwA"@,
    ) + shape.stage(
        shape.bn as nat,
        "%baseCol"@,
        "%Bg"@,
        mma::base("%tmp"@, text::fill(GATE_BUFFER@, seq![name]), 0),
        "%bufwBg"@,
    ) + shape.stage(
        shape.bn as nat,
        "%baseCol"@,
        "%Bu"@,
        mma::base("%tmp"@, text::fill(UP_BUFFER@, seq![name]), 0),
        "%bufwBu"@,
    )
}

/// The first `n` stages copied ahead of the loop.
#[verifier::opaque]
pub open spec fn gate_prologue(
    name: Seq<char>,
    n: nat,
    bk: nat,
    tile_a: nat,
    tile_b: nat,
    copy: Seq<char>,
) -> Seq<char>
    decreases n,
{
    if n == 0 {
        Seq::empty()
    } else {
        let st = (n - 1) as nat;
        gate_prologue(name, st, bk, tile_a, tile_b, copy) + text::fill(
            PROLOGUE@,
            seq![
                name,
                text::dec(st),
                text::dec(st * bk),
                text::dec(st * tile_a),
                text::dec(st * tile_b),
                copy,
            ],
        )
    }
}

/// From the first copy to the multiplications of a loop step.
pub open spec fn gate_start(name: Seq<char>, shape: mma::MmaShape) -> Seq<char> {
    let ahead = (shape.stages - 1) as nat;
    gate_prologue(
        name,
        ahead,
        shape.bk as nat,
        shape.tile_a(),
        shape.tile_b(),
        gate_copy(name, shape),
    ) + text::fill(
        RING_START@,
        seq![text::dec(ahead * shape.tile_a()), text::dec(ahead * shape.tile_b())],
    ) + text::fill(parts::LOOP_HEAD@, seq![name]) + text::fill(
        pipeline::PREFETCH@,
        seq![
            name,
            text::dec((shape.stages - 2) as nat),
            text::dec(ahead * shape.bk as nat),
            gate_copy(name, shape),
        ],
    )
}

/// The first `n` steps of 16 columns that one staged tile feeds.
#[verifier::opaque]
pub open spec fn gate_steps(
    name: Seq<char>,
    ty: Seq<char>,
    shape: mma::MmaShape,
    n: nat,
) -> Seq<char>
    decreases n,
{
    if n == 0 {
        Seq::empty()
    } else {
        let ks = (n - 1) as nat;
        gate_steps(name, ty, shape, ks) + shape.load_a(
            text::fill(smem::A_BUFFER@, seq![name]),
            ks,
        ) + shape.load_b(
            "bg"@,
            text::fill(GATE_BUFFER@, seq![name]),
            0,
            "%bufcBg"@,
            ks,
        ) + shape.load_b(
            "bu"@,
            text::fill(UP_BUFFER@, seq![name]),
            0,
            "%bufcBu"@,
            ks,
        ) + text::each2(
            MMA@,
            shape.tm(),
            shape.tn(),
            0,
            0,
            seq![text::fill(mma::MMA_TYPES@, seq![ty])],
        )
    }
}

/// The end of a loop step: the six offsets and the column move on.
pub open spec fn gate_step(name: Seq<char>, shape: mma::MmaShape) -> Seq<char> {
    pipeline::ring_step("%bufcA"@, shape.tile_a(), shape.smem_a()) + pipeline::ring_step(
        "%bufcBg"@,
        shape.tile_b(),
        shape.smem_b(),
    ) + pipeline::ring_step("%bufcBu"@, shape.tile_b(), shape.smem_b()) + pipeline::ring_step(
        "%bufwA"@,
        shape.tile_a(),
        shape.smem_a(),
    ) + pipeline::ring_step("%bufwBg"@, shape.tile_b(), shape.smem_b()) + pipeline::ring_step(
        "%bufwBu"@,
        shape.tile_b(),
        shape.smem_b(),
    ) + text::fill(parts::LOOP_TAIL@, seq![name, text::dec(shape.bk as nat)])
}

/// The kernel of [`entry_mma_gate`].
pub open spec fn mma_gate_text(
    name: Seq<char>,
    ty: Seq<char>,
    shape: mma::MmaShape,
    a: act::Act,
    bias: bool,
) -> Seq<char> {
    gate_head(name, shape, a, bias) + gate_setup(shape, bias) + gate_start(name, shape)
        + gate_steps(name, ty, shape, shape.bk as nat / 16) + gate_step(name, shape) + gate_tiles(
        a,
        bias,
        shape.tm(),
        shape.tn(),
    ) + parts::CLOSE@
}

/// See [`gate_head`] and [`gate_setup`].
fn head_and_setup_of(name: &str, shape: &mma::MmaShape, a: act::Act, bias: bool) -> (r: (
    String,
    String,
))
    requires
        shape.legal(),
        shape.smem_a() <= usize::MAX,
        shape.smem_b() <= usize::MAX,
    ensures
        r.0@ == gate_head(name@, *shape, a, bias),
        r.1@ == gate_setup(*shape, bias),
{
    proof {
        shape.lemma_sizes(usize::MAX as nat);
    }
    let tm: usize = shape.bm / (16 * shape.warps_m);
    let tn: usize = shape.bn / (8 * shape.warps_n);
    let ldp: usize = shape.row_len();
    let mut head = text::expand4(
        OPEN,
        name,
        if bias { BIAS_PARAMS } else { "" },
        &text::decimal(shape.stages * (shape.bm * ldp * 2)),
        &text::decimal(shape.stages * (shape.bn * ldp * 2)),
    );
    head.append(if a != act::Act::Identity { mma::ACT_REGS } else { "" });
    head.append(if bias { BIAS_REGS } else { "" });
    head.append(if shape.swz { mma::SWIZZLE_REGS } else { "" });
    head.append(if shape.raster > 0 { mma::RASTER_REGS } else { "" });
    head.append(
        &text::expand1(parts::F32_REGS, &text::trimmed(&text::each2_0(D_REGS, tm, tn, 0, 0))),
    );
    let mut list = text::each_0(A_REGS, tm, 0);
    list.append(&text::each_0(B_REGS, tn, 0));
    head.append(&text::expand1(parts::B32_REGS, &text::trimmed(&list)));
    head.append(POINTER_REGS);

    let mut setup = String::from_str(parts::LOAD_DIMS);
    setup.append(LOAD_POINTERS);
    setup.append(if bias { BIAS_POINTERS } else { "" });
    setup.append(&parts::origin_of(shape.bm, shape.bn, shape.raster, "%grpr"));
    setup.append(&shape.lanes_of());
    setup.append(&text::each2_0(D_ZERO, tm, tn, 0, 0));
    (head, setup)
}

/// See [`gate_prologue`].
fn gate_prologue_of(
    name: &str,
    n: usize,
    bk: usize,
    tile_a: usize,
    tile_b: usize,
    copy: &str,
) -> (r: String)
    requires
        n * bk <= usize::MAX,
        n * tile_a <= usize::MAX,
        n * tile_b <= usize::MAX,
    ensures
        r@ == gate_prologue(name@, n as nat, bk as nat, tile_a as nat, tile_b as nat, copy@),
{
    reveal(gate_prologue);
    let mut r = String::new();
    for st in 0..n
        invariant
            n * bk <= usize::MAX,
            n * tile_a <= usize::MAX,
            n * tile_b <= usize::MAX,
            r@ == gate_prologue(
                name@,
                st as nat,
                bk as nat,
                tile_a as nat,
                tile_b as nat,
                copy@,
            ),
    {
        reveal(gate_prologue);
        proof {
            pipeline::lemma_scaled(st as nat, n as nat, bk as nat);
            pipeline::lemma_scaled(st as nat, n as nat, tile_a as nat);
            pipeline::lemma_scaled(st as nat, n as nat, tile_b as nat);
        }
        r.append(
            &text::expand6(
                PROLOGUE,
                name,
                &text::decimal(st),
                &text::decimal(st * bk),
                &text::decimal(st * tile_a),
                &text::decimal(st * tile_b),
                copy,
            ),
        );
    }
    r
}

/// See [`gate_start`].
fn gate_start_of(name: &str, shape: &mma::MmaShape) -> (r: String)
    requires
        shape.legal(),
        shape.smem_a() <= usize::MAX,
        shape.smem_b() <= usize::MAX,
    ensures
        r@ == gate_start(name@, *shape),
{
    proof {
        shape.lemma_sizes(usize::MAX as nat);
        let (ahead, all) = ((shape.stages - 1) as nat, shape.stages as nat);
        pipeline::lemma_scaled(ahead, all, shape.bk as nat);
        pipeline::lemma_scaled(ahead, all, shape.tile_a());
        pipeline::lemma_scaled(ahead, all, shape.tile_b());
    }
    let ldp: usize = shape.row_len();
    let tile_a: usize = shape.bm * ldp * 2;
    let tile_b: usize = shape.bn * ldp * 2;
    let ahead: usize = shape.stages - 1;
    let mut copy = shape.stage_of(
        shape.bm,
        "%baseRow",
        "%A",
        &mma::base_of("%tmp", &text::expand1(smem::A_BUFFER, name), 0),
        "%bufwA",
    );
    copy.append(
        &shape.stage_of(
            shape.bn,
            "%baseCol",
            "%Bg",
            &mma::base_of("%tmp", &text::expand1(GATE_BUFFER, name), 0),
            "%bufwBg",
        ),
    );
    copy.append(
        &shape.stage_of(
            shape.bn,
            "%baseCol",
            "%Bu",
            &mma::base_of("%tmp", &text::expand1(UP_BUFFER, name), 0),
            "%bufwBu",
        ),
    );
    let mut r = gate_prologue_of(name, ahead, shape.bk, tile_a, tile_b, &copy);
    r.append(
        &text::expand2(RING_START, &text::decimal(ahead * tile_a), &text::decimal(ahead * tile_b)),
    );
    r.append(&text::expand1(parts::LOOP_HEAD, name));
    r.append(
        &text::expand4(
            pipeline::PREFETCH,
            name,
            &text::decimal(shape.stages - 2),
            &text::decimal(ahead * shape.bk),
            &copy,
        ),
    );
    r
}

/// See [`gate_steps`].
fn gate_steps_of(name: &str, ty: &str, shape: &mma::MmaShape) -> (r: String)
    requires
        shape.legal(),
        shape.smem_a() <= usize::MAX,
        shape.smem_b() <= usize::MAX,
    ensures
        r@ == gate_steps(name@, ty@, *shape, shape.bk as nat / 16),
{
    reveal(gate_steps);
    proof {
        shape.lemma_sizes(usize::MAX as nat);
    }
    let tm: usize = shape.bm / (16 * shape.warps_m);
    let tn: usize = shape.bn / (8 * shape.warps_n);
    let types = text::expand1(mma::MMA_TYPES, ty);
    let a_sym = text::expand1(smem::A_BUFFER, name);
    let g_sym = text::expand1(GATE_BUFFER, name);
    let u_sym = text::expand1(UP_BUFFER, name);
    let n: usize = shape.bk / 16;
    let mut r = String::new();
    for ks in 0..n
        invariant
            n == shape.bk / 16,
            tm == shape.tm(),
            tn == shape.tn(),
            shape.legal(),
            shape.smem_a() <= usize::MAX,
            shape.smem_b() <= usize::MAX,
            a_sym@ == text::fill(smem::A_BUFFER@, seq![name@]),
            g_sym@ == text::fill(GATE_BUFFER@, seq![name@]),
            u_sym@ == text::fill(UP_BUFFER@, seq![name@]),
            types@ == text::fill(mma::MMA_TYPES@, seq![ty@]),
            r@ == gate_steps(name@, ty@, *shape, ks as nat),
    {
        reveal(gate_steps);
        r.append(&shape.load_a_of(&a_sym, ks));
        r.append(&shape.load_b_of("bg", &g_sym, 0, "%bufcBg", ks));
        r.append(&shape.load_b_of("bu", &u_sym, 0, "%bufcBu", ks));
        r.append(&text::each2_1(MMA, tm, tn, 0, 0, &types));
    }
    r
}

/// See [`gate_step`].
fn gate_step_of(name: &str, shape: &mma::MmaShape) -> (r: String)
    requires
        shape.legal(),
        shape.smem_a() <= usize::MAX,
        shape.smem_b() <= usize::MAX,
    ensures
        r@ == gate_step(name@, *shape),
{
    proof {
        shape.lemma_sizes(usize::MAX as nat);
    }
    let ldp: usize = shape.row_len();
    let tile_a: usize = shape.bm * ldp * 2;
    let tile_b: usize = shape.bn * ldp * 2;
    let smem_a: usize = shape.stages * tile_a;
    let smem_b: usize = shape.stages * tile_b;
    let mut r = pipeline::ring_step_of("%bufcA", tile_a, smem_a);
    r.append(&pipeline::ring_step_of("%bufcBg", tile_b, smem_b));
    r.append(&pipeline::ring_step_of("%bufcBu", tile_b, smem_b));
    r.append(&pipeline::ring_step_of("%bufwA", tile_a, smem_a));
    r.append(&pipeline::ring_step_of("%bufwBg", tile_b, smem_b));
    r.append(&pipeline::ring_step_of("%bufwBu", tile_b, smem_b));
    r.append(&text::expand2(parts::LOOP_TAIL, name, &text::decimal(shape.bk)));
    r
}

/// Generate a fused gated-FFN `mma.sync.m16n8k16` entry computing
/// `act(x·Wgᵀ [+ bg]) ⊙ (x·Wuᵀ [+ bu])`, the SwiGLU, GeGLU and bilinear gates.
pub fn entry_mma_gate(
    name: &str,
    ty: &str,
    bm: usize,
    bn: usize,
    bk: usize,
    warps_m: usize,
    warps_n: usize,
    stages: usize,
    raster: usize,
    pad: usize,
    gate_act: act::Act,
    bias: bool,
    swz: bool,
) -> (s: String)
    requires
        ({
            let shape = mma::MmaShape {
                bm,
                bn,
                bk,
                warps_m,
                warps_n,
                stages,
                raster,
                pad,
                swz,
            };
            shape.legal() && shape.smem_a() + 2 * shape.smem_b() <= smem_mode::STATIC_SMEM_CAP
        }),
    ensures
        s@ == mma_gate_text(
            name@,
            ty@,
            (mma::MmaShape { bm, bn, bk, warps_m, warps_n, stages, raster, pad, swz }),
            gate_act,
            bias,
        ),
{
    let shape = mma::MmaShape { bm, bn, bk, warps_m, warps_n, stages, raster, pad, swz };
    proof {
        shape.lemma_sizes(smem_mode::STATIC_SMEM_CAP as nat);
    }
    let tm: usize = bm / (16 * warps_m);
    let tn: usize = bn / (8 * warps_n);
    let (head, setup) = head_and_setup_of(name, &shape, gate_act, bias);
    let mut s = head;
    s.append(&setup);
    s.append(&gate_start_of(name, &shape));
    s.append(&gate_steps_of(name, ty, &shape));
    s.append(&gate_step_of(name, &shape));
    s.append(&gate_tiles_of(gate_act, bias, tm, tn));
    s.append(parts::CLOSE);
    s
}

} // verus!
