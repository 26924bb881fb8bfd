//! The `mma.sync` kernel with a multi-stage copy pipeline.
use vstd::prelude::*;
use vstd::string::*;

use crate::ptx_wmma::act;
use crate::ptx_wmma::mma;
use crate::ptx_wmma::parts;
use crate::ptx_wmma::pipeline;
use crate::ptx_wmma::smem;
use crate::smem_mode;
use crate::text;

verus! {

pub const RESID_PARAM: &'static str = ",
    .param .u64 pResid";

/// The launch bounds of an entry of `#0` threads that asks for `#1` blocks per multiprocessor.
pub const BOUNDS: &'static str = ".maxntid #0, 1, 1
.minnctapersm #1
";

pub const BODY: &'static str = "{
";

pub const REGS: &'static str = "    .reg .pred %p0,%pmore;
    .reg .b32 %M,%N,%K,%baseRow,%baseCol,%kt,%kcol,%tmp,%tmp2,%tix,%warpId,%warpRow,%warpCol,%e,%r,%c,%bufcA,%bufcB,%bufwA,%bufwB,%lane,%grp,%tg,%tg2,%laneoff,%warpMrow,%warpNcol,%aptr,%bptr,%grow,%gcol;
";

pub const BIAS_REGS: &'static str = "    .reg .f32 %biasv0,%biasv1;
    .reg .b64 %Bias;
";

pub const RESID_REGS: &'static str = "    .reg .f32 %resv0,%resv1;
    .reg .b64 %Resid;
";

pub const POINTER_REGS: &'static str = "    .reg .b64 %A,%B,%C,%off,%gptr,%cptr,%cptr2;
";

pub const BIAS_POINTER: &'static str = "    ld.param.u64 %Bias,[pBias];
    cvta.to.global.u64 %Bias,%Bias;
";

pub const RESID_POINTER: &'static str = "    ld.param.u64 %Resid,[pResid];
    cvta.to.global.u64 %Resid,%Resid;
";

/// The four accumulators of one 16 by 8 sub-tile, as list items.
pub const D_REGS: &'static str = "%d#0_#1_0,%d#0_#1_1,%d#0_#1_2,%d#0_#1_3,";

pub const D_ZERO: &'static str = "    mov.f32 %d#0_#1_0,0f00000000;
    mov.f32 %d#0_#1_1,0f00000000;
    mov.f32 %d#0_#1_2,0f00000000;
    mov.f32 %d#0_#1_3,0f00000000;
";

pub const A_REGS: &'static str = "%a#0_0,%a#0_1,%a#0_2,%a#0_3,";

pub const B_REGS: &'static str = "%b#0_0,%b#0_1,";

pub const MMA: &'static str = "    mma.sync.aligned.m16n8k16.row.col.#4 {%d#0_#1_0,%d#0_#1_1,%d#0_#1_2,%d#0_#1_3},{%a#0_0,%a#0_1,%a#0_2,%a#0_3},{%b#1_0,%b#1_1},{%d#0_#1_0,%d#0_#1_1,%d#0_#1_2,%d#0_#1_3};
";

/// The place of a lane's results in C: `#0` and `#1` are the sub-tile's place in the warp.
pub const PLACE: &'static str = "    add.u32 %grow,%baseRow,%warpMrow;
    add.u32 %grow,%grow,#0;
    add.u32 %grow,%grow,%grp;
    add.u32 %gcol,%baseCol,%warpNcol;
    add.u32 %gcol,%gcol,#1;
    add.u32 %gcol,%gcol,%tg2;
";

pub const ADD_BIAS: &'static str = "    mul.wide.u32 %off,%gcol,4;
    add.s64 %cptr,%Bias,%off;
    ld.global.f32 %biasv0,[%cptr];
    ld.global.f32 %biasv1,[%cptr+4];
    add.f32 #00,#00,%biasv0;
    add.f32 #01,#01,%biasv1;
    add.f32 #02,#02,%biasv0;
    add.f32 #03,#03,%biasv1;
";

pub const UPPER: &'static str = "    mul.lo.s32 %tmp,%grow,%N;
    add.u32 %tmp,%tmp,%gcol;
    mul.wide.u32 %off,%tmp,4;
    add.s64 %cptr,%C,%off;
";

pub const UPPER_RESID: &'static str = "    add.s64 %cptr2,%Resid,%off;
    ld.global.f32 %resv0,[%cptr2];
    ld.global.f32 %resv1,[%cptr2+4];
    add.f32 #00,#00,%resv0;
    add.f32 #01,#01,%resv1;
";

pub const LOWER: &'static str = "    add.u32 %tmp,%grow,8;
    mul.lo.s32 %tmp,%tmp,%N;
    add.u32 %tmp,%tmp,%gcol;
    mul.wide.u32 %off,%tmp,4;
    add.s64 %cptr2,%C,%off;
";

pub const LOWER_RESID: &'static str = "    add.s64 %cptr,%Resid,%off;
    ld.global.f32 %resv0,[%cptr];
    ld.global.f32 %resv1,[%cptr+4];
    add.f32 #02,#02,%resv0;
    add.f32 #03,#03,%resv1;
";

pub const D_NAME: &'static str = "%d#0_#1_";

pub const D0: &'static str = "#00";

pub const D1: &'static str = "#01";

pub const D2: &'static str = "#02";

pub const D3: &'static str = "#03";

/// What an entry adds to the plain product, and how it stores.
#[derive(Clone, Copy)]
pub struct Epilogue {
    pub act: act::Act,
    pub bias: bool,
    pub residual: bool,
    pub store: act::Store,
}

impl Epilogue {
    /// The sub-tile in row `i`, column `j`: bias and activation, then the upper and the lower pair
    /// of results, each with its residual.
    pub open spec fn tile(self, i: nat, j: nat) -> Seq<char> {
        let d = text::fill(D_NAME@, seq![text::dec(i), text::dec(j)]);
        text::fill(PLACE@, seq![text::dec(i * 16), text::dec(j * 8)]) + (if self.bias {
            text::fill(ADD_BIAS@, seq![d])
        } else {
            ""@
        }) + self.act.epilogues_text(d, 4) + UPPER@ + (if self.residual {
            text::fill(UPPER_RESID@, seq![d])
        } else {
            ""@
        }) + self.store.pair_text(
            "%cptr"@,
            text::fill(D0@, seq![d]),
            text::fill(D1@, seq![d]),
        ) + LOWER@ + (if self.residual {
            text::fill(LOWER_RESID@, seq![d])
        } else {
            ""@
        }) + self.store.pair_text(
            "%cptr2"@,
            text::fill(D2@, seq![d]),
            text::fill(D3@, seq![d]),
        )
    }

    /// The first `n` sub-tiles of row `i`.
    #[verifier::opaque]
    pub open spec fn row(self, i: nat, n: nat) -> Seq<char>
        decreases n,
    {
        if n == 0 {
            Seq::empty()
        } else {
            self.row(i, (n - 1) as nat) + self.tile(i, (n - 1) as nat)
        }
    }

    /// The first `tm` rows of `tn` sub-tiles each.
    #[verifier::opaque]
    pub open spec fn tiles(self, tm: nat, tn: nat) -> Seq<char>
        decreases tm,
    {
        if tm == 0 {
            Seq::empty()
        } else {
            self.tiles((tm - 1) as nat, tn) + self.row((tm - 1) as nat, tn)
        }
    }

    /// See [`Epilogue::tile`].
    fn tile_of(&self, i: usize, j: usize) -> (r: String)
        requires
            i * 16 <= usize::MAX,
            j * 8 <= usize::MAX,
        ensures
            r@ == self.tile(i as nat, j as nat),
    {
        let d = text::expand2(D_NAME, &text::decimal(i), &text::decimal(j));
        let mut r = text::expand2(PLACE, &text::decimal(i * 16), &text::decimal(j * 8));
        let bias = if self.bias {
            text::expand1(ADD_BIAS, &d)
        } else {
            String::from_str("")
        };
        r.append(&bias);
        r.append(&self.act.epilogues(&d, 4));
        r.append(UPPER);
        let upper = if self.residual {
            text::expand1(UPPER_RESID, &d)
        } else {
            String::from_str("")
        };
        r.append(&upper);
        r.append(&self.store.pair("%cptr", &text::expand1(D0, &d), &text::expand1(D1, &d)));
        r.append(LOWER);
        let lower = if self.residual {
            text::expand1(LOWER_RESID, &d)
        } else {
            String::from_str("")
        };
        r.append(&lower);
        r.append(&self.store.pair("%cptr2", &text::expand1(D2, &d), &text::expand1(D3, &d)));
        r
    }

    /// See [`Epilogue::tiles`].
    fn tiles_of(&self, tm: usize, tn: usize) -> (r: String)
        requires
            tm * 16 <= usize::MAX,
            tn * 8 <= usize::MAX,
        ensures
            r@ == self.tiles(tm as nat, tn as nat),
    {
        reveal(Epilogue::tiles);
        let mut r = String::new();
        for i in 0..tm
            invariant
                tm * 16 <= usize::MAX,
                tn * 8 <= usize::MAX,
                r@ == self.tiles(i as nat, tn as nat),
        {
            reveal(Epilogue::tiles);
            reveal(Epilogue::row);
            let mut row = String::new();
            for j in 0..tn
                invariant
                    i < tm,
                    tm * 16 <= usize::MAX,
                    tn * 8 <= usize::MAX,
                    row@ == self.row(i as nat, j as nat),
            {
                reveal(Epilogue::row);
                row.append(&self.tile_of(i, j));
            }
            r.append(&row);
        }
        r
    }
}

/// The buffers of an entry: its own where the text may declare them, the window of the module
/// otherwise, with B behind the whole ring of A.
pub open spec fn a_symbol(name: Seq<char>, dynamic: bool) -> Seq<char> {
    if dynamic {
        smem_mode::DSMEM_SYM@
    } else {
        text::fill(smem::A_BUFFER@, seq![name])
    }
}

/// See [`a_symbol`].
pub open spec fn b_symbol(name: Seq<char>, dynamic: bool) -> Seq<char> {
    if dynamic {
        smem_mode::DSMEM_SYM@
    } else {
        text::fill(smem::B_BUFFER@, seq![name])
    }
}

/// See [`a_symbol`].
pub open spec fn b_offset(shape: mma::MmaShape, dynamic: bool) -> nat {
    if dynamic {
        shape.smem_a()
    } else {
        0
    }
}

/// The signature.
pub open spec fn signature(name: Seq<char>, e: Epilogue) -> Seq<char> {
    text::fill(
        parts::OPEN@,
        seq![
            name,
            if e.bias {
                parts::BIAS_PARAM@
            } else {
                ""@
            },
            if e.residual {
                RESID_PARAM@
            } else {
                ""@
            },
        ],
    )
}

/// The launch bounds for `min_ctas` blocks of so many threads on a multiprocessor.
pub open spec fn bounds(threads: nat, min_ctas: nat) -> Seq<char> {
    text::fill(BOUNDS@, seq![text::dec(threads), text::dec(min_ctas)])
}

/// The brace that opens the body, and the shared memory that it declares.
pub open spec fn buffers(name: Seq<char>, shape: mma::MmaShape, dynamic: bool) -> Seq<char> {
    if dynamic {
        BODY@
    } else {
        text::fill(
            smem::BUFFERS@,
            seq![name, text::dec(shape.smem_a()), text::dec(shape.smem_b())],
        )
    }
}

/// The signature, the launch bounds and the shared memory.
pub open spec fn mma_pipe_open(
    name: Seq<char>,
    shape: mma::MmaShape,
    e: Epilogue,
    min_ctas: nat,
    dynamic: bool,
) -> Seq<char> {
    signature(name, e) + (if min_ctas > 0 {
        bounds(shape.threads(), min_ctas)
    } else {
        ""@
    }) + buffers(name, shape, dynamic)
}

/// The registers.
pub open spec fn mma_pipe_regs(shape: mma::MmaShape, e: Epilogue) -> Seq<char> {
    REGS@ + (if e.act != act::Act::Identity {
        mma::ACT_REGS@
    } else {
        ""@
    }) + (if e.bias {
        BIAS_REGS@
    } else {
        ""@
    }) + (if e.residual {
        RESID_REGS@
    } else {
        ""@
    }) + (if shape.swz {
        mma::SWIZZLE_REGS@
    } else {
        ""@
    }) + (if shape.raster > 0 {
        mma::RASTER_REGS@
    } else {
        ""@
    }) + text::fill(
        parts::F32_REGS@,
        seq![
            text::without_last(text::each2(D_REGS@, shape.tm(), shape.tn(), 0, 0, Seq::empty())),
        ],
    ) + text::fill(
        parts::B32_REGS@,
        seq![
            text::without_last(
                text::each(A_REGS@, shape.tm(), 0, Seq::empty()) + text::each(
                    B_REGS@,
                    shape.tn(),
                    0,
                    Seq::empty(),
                ),
            ),
        ],
    ) + POINTER_REGS@
}

/// The parameters, the places of the block and the lanes, and the initial accumulators.
pub open spec fn mma_pipe_setup(shape: mma::MmaShape, e: Epilogue) -> Seq<char> {
    parts::LOAD_DIMS@ + parts::LOAD_POINTERS@ + (if e.bias {
        BIAS_POINTER@
    } else {
        ""@
    }) + (if e.residual {
        RESID_POINTER@
    } else {
        ""@
    }) + parts::origin(shape.bm as nat, shape.bn as nat, shape.raster as nat, "%grpr"@)
        + shape.lanes() + text::each2(D_ZERO@, shape.tm(), shape.tn(), 0, 0, Seq::empty())
}

/// The copy of one tile of A and one of B into the stage being filled.
pub open spec fn mma_pipe_copy(name: Seq<char>, shape: mma::MmaShape, dynamic: bool) -> Seq<char> {
    shape.stage(
        shape.bm as nat,
        "%baseRow"@,
        "%A"@,
        mma::base("%tmp"@, a_symbol(name, dynamic), 0),
        "%bufwA"@,
    ) + shape.stage(
        shape.bn as nat,
        "%baseCol"@,
        "%B"@,
        mma::base("%tmp"@, b_symbol(name, dynamic), b_offset(shape, dynamic)),
        "%bufwB"@,
    )
}

/// The first `n` steps of 16 columns that one staged tile feeds.
#[verifier::opaque]
pub open spec fn mma_pipe_steps(
    name: Seq<char>,
    ty: Seq<char>,
    shape: mma::MmaShape,
    dynamic: bool,
    n: nat,
) -> Seq<char>
    decreases n,
{
    if n == 0 {
        Seq::empty()
    } else {
        let ks = (n - 1) as nat;
        mma_pipe_steps(name, ty, shape, dynamic, ks) + shape.load_a(a_symbol(name, dynamic), ks)
            + shape.load_b(
            "b"@,
            b_symbol(name, dynamic),
            b_offset(shape, dynamic),
            "%bufcB"@,
            ks,
        ) + text::each2(
            MMA@,
            shape.tm(),
            shape.tn(),
            0,
            0,
            seq![text::fill(mma::MMA_TYPES@, seq![ty])],
        )
    }
}

/// The kernel of [`entry_mma_pipe_budget`].
pub open spec fn mma_pipe_text(
    name: Seq<char>,
    ty: Seq<char>,
    shape: mma::MmaShape,
    e: Epilogue,
    min_ctas: nat,
) -> Seq<char> {
    let dynamic = shape.smem_a() + shape.smem_b() > smem_mode::STATIC_SMEM_CAP;
    mma_pipe_open(name, shape, e, min_ctas, dynamic) + mma_pipe_regs(shape, e)
        + mma_pipe_setup(shape, e) + pipeline::pipe_start(
        name,
        shape.stages as nat,
        shape.bk as nat,
        shape.tile_a(),
        shape.tile_b(),
        mma_pipe_copy(name, shape, dynamic),
    ) + mma_pipe_steps(name, ty, shape, dynamic, shape.bk as nat / 16) + pipeline::pipe_step(
        name,
        shape.stages as nat,
        shape.bk as nat,
        shape.tile_a(),
        shape.tile_b(),
    ) + e.tiles(shape.tm(), shape.tn()) + parts::CLOSE@
}

/// See [`mma_pipe_regs`].
fn regs_of(shape: &mma::MmaShape, e: &Epilogue) -> (r: String)
    requires
        shape.legal(),
        shape.smem_a() <= usize::MAX,
        shape.smem_b() <= usize::MAX,
    ensures
        r@ == mma_pipe_regs(*shape, *e),
{
    proof {
        shape.lemma_sizes(usize::MAX as nat);
    }
    let tm: usize = shape.bm / (16 * shape.warps_m);
    let tn: usize = shape.bn / (8 * shape.warps_n);
    let mut r = String::from_str(REGS);
    r.append(if e.act != act::Act::Identity { mma::ACT_REGS } else { "" });
    r.append(if e.bias { BIAS_REGS } else { "" });
    r.append(if e.residual { RESID_REGS } else { "" });
    r.append(if shape.swz { mma::SWIZZLE_REGS } else { "" });
    r.append(if shape.raster > 0 { mma::RASTER_REGS } else { "" });
    r.append(
        &text::expand1(parts::F32_REGS, &text::trimmed(&text::each2_0(D_REGS, tm, tn, 0, 0))),
    );
    let mut list = text::each_0(A_REGS, tm, 0);
    list.append(&text::each_0(B_REGS, tn, 0));
    r.append(&text::expand1(parts::B32_REGS, &text::trimmed(&list)));
    r.append(POINTER_REGS);
    r
}

/// See [`mma_pipe_setup`].
fn setup_of(shape: &mma::MmaShape, e: &Epilogue) -> (r: String)
    requires
        shape.legal(),
        shape.smem_a() <= usize::MAX,
        shape.smem_b() <= usize::MAX,
    ensures
        r@ == mma_pipe_setup(*shape, *e),
{
    proof {
        shape.lemma_sizes(usize::MAX as nat);
    }
    let tm: usize = shape.bm / (16 * shape.warps_m);
    let tn: usize = shape.bn / (8 * shape.warps_n);
    let mut r = String::from_str(parts::LOAD_DIMS);
    r.append(parts::LOAD_POINTERS);
    r.append(if e.bias { BIAS_POINTER } else { "" });
    r.append(if e.residual { RESID_POINTER } else { "" });
    r.append(&parts::origin_of(shape.bm, shape.bn, shape.raster, "%grpr"));
    r.append(&shape.lanes_of());
    r.append(&text::each2_0(D_ZERO, tm, tn, 0, 0));
    r
}

/// See [`mma_pipe_steps`].
fn steps_of(
    ty: &str,
    shape: &mma::MmaShape,
    a_sym: &str,
    b_sym: &str,
    b_off: usize,
    Ghost(name): Ghost<Seq<char>>,
    Ghost(dynamic): Ghost<bool>,
) -> (r: String)
    requires
        shape.legal(),
        shape.smem_a() <= usize::MAX,
        shape.smem_b() <= usize::MAX,
        a_sym@ == a_symbol(name, dynamic),
        b_sym@ == b_symbol(name, dynamic),
        b_off == b_offset(*shape, dynamic),
    ensures
        r@ == mma_pipe_steps(name, ty@, *shape, dynamic, shape.bk as nat / 16),
{
    reveal(mma_pipe_steps);
    proof {
        shape.lemma_sizes(usize::MAX as nat);
    }
    let tm: usize = shape.bm / (16 * shape.warps_m);
    let tn: usize = shape.bn / (8 * shape.warps_n);
    let types = text::expand1(mma::MMA_TYPES, ty);
    let n: usize = shape.bk / 16;
    let mut r = String::new();
    for ks in 0..n
        invariant
            n == shape.bk / 16,
            tm == shape.tm(),
            tn == shape.tn(),
            shape.legal(),
            shape.smem_a() <= usize::MAX,
            shape.smem_b() <= usize::MAX,
            a_sym@ == a_symbol(name, dynamic),
            b_sym@ == b_symbol(name, dynamic),
            b_off == b_offset(*shape, dynamic),
            types@ == text::fill(mma::MMA_TYPES@, seq![ty@]),
            r@ == mma_pipe_steps(name, ty@, *shape, dynamic, ks as nat),
    {
        reveal(mma_pipe_steps);
        r.append(&shape.load_a_of(a_sym, ks));
        r.append(&shape.load_b_of("b", b_sym, b_off, "%bufcB", ks));
        r.append(&text::each2_1(MMA, tm, tn, 0, 0, &types));
    }
    r
}

/// Generate an `mma.sync.m16n8k16` multi-stage `cp.async` GEMM entry that may spend `smem_budget`
/// bytes of shared memory. Up to [`smem_mode::STATIC_SMEM_CAP`] the entry declares its own buffers;
/// beyond it they lie in the module's window. `min_ctas` above 0 adds launch bounds.
pub fn entry_mma_pipe_budget(
    name: &str,
    ty: &str,
    bm: usize,
    bn: usize,
    bk: usize,
    warps_m: usize,
    warps_n: usize,
    stages: usize,
    raster: usize,
    pad: usize,
    a: act::Act,
    bias: bool,
    residual: bool,
    swz: bool,
    min_ctas: usize,
    store: act::Store,
    smem_budget: usize,
) -> (s: String)
    requires
        ({
            let shape = mma::MmaShape {
                bm,
                bn,
                bk,
                warps_m,
                warps_n,
                stages,
                raster,
                pad,
                swz,
            };
            shape.legal() && shape.smem_a() + shape.smem_b() <= smem_budget
        }),
    ensures
        s@ == mma_pipe_text(
            name@,
            ty@,
            (mma::MmaShape { bm, bn, bk, warps_m, warps_n, stages, raster, pad, swz }),
            (Epilogue { act: a, bias, residual, store }),
            min_ctas as nat,
        ),
{
    let shape = mma::MmaShape { bm, bn, bk, warps_m, warps_n, stages, raster, pad, swz };
    let e = Epilogue { act: a, bias, residual, store };
    proof {
        shape.lemma_sizes(smem_budget as nat);
    }
    let threads: usize = warps_m * warps_n * 32;
    let tm: usize = bm / (16 * warps_m);
    let tn: usize = bn / (8 * warps_n);
    let ldp: usize = shape.row_len();
    let tile_a: usize = bm * ldp * 2;
    let tile_b: usize = bn * ldp * 2;
    let smem_a: usize = stages * tile_a;
    let smem_b: usize = stages * tile_b;
    let dynamic: bool = smem_mode::smem_mode_for(smem_a + smem_b).is_dynamic();

    let mut s = text::expand3(
        parts::OPEN,
        name,
        if bias { parts::BIAS_PARAM } else { "" },
        if residual { RESID_PARAM } else { "" },
    );
    let bounds = if min_ctas > 0 {
        text::expand2(BOUNDS, &text::decimal(threads), &text::decimal(min_ctas))
    } else {
        String::from_str("")
    };
    s.append(&bounds);
    let buffers = if dynamic {
        String::from_str(BODY)
    } else {
        text::expand3(smem::BUFFERS, name, &text::decimal(smem_a), &text::decimal(smem_b))
    };
    s.append(&buffers);
    s.append(&regs_of(&shape, &e));
    s.append(&setup_of(&shape, &e));

    let a_sym = if dynamic {
        String::from_str(smem_mode::DSMEM_SYM)
    } else {
        text::expand1(smem::A_BUFFER, name)
    };
    let b_sym = if dynamic {
        String::from_str(smem_mode::DSMEM_SYM)
    } else {
        text::expand1(smem::B_BUFFER, name)
    };
    let b_off: usize = if dynamic { smem_a } else { 0 };
    let mut copy = shape.stage_of(
        bm,
        "%baseRow",
        "%A",
        &mma::base_of("%tmp", &a_sym, 0),
        "%bufwA",
    );
    copy.append(
        &shape.stage_of(bn, "%baseCol", "%B", &mma::base_of("%tmp", &b_sym, b_off), "%bufwB"),
    );
    s.append(&pipeline::pipe_start_of(name, stages, bk, tile_a, tile_b, &copy));
    s.append(&steps_of(ty, &shape, &a_sym, &b_sym, b_off, Ghost(name@), Ghost(dynamic)));
    s.append(&pipeline::pipe_step_of(name, stages, bk, tile_a, tile_b));
    s.append(&e.tiles_of(tm, tn));
    s.append(parts::CLOSE);
    s
}

/// [`entry_mma_pipe_budget`] for an entry that declares its own buffers.
pub fn entry_mma_pipe(
    name: &str,
    ty: &str,
    bm: usize,
    bn: usize,
    bk: usize,
    warps_m: usize,
    warps_n: usize,
    stages: usize,
    raster: usize,
    pad: usize,
    a: act::Act,
    bias: bool,
    residual: bool,
    swz: bool,
    min_ctas: usize,
    store: act::Store,
) -> (s: String)
    requires
        ({
            let shape = mma::MmaShape {
                bm,
                bn,
                bk,
                warps_m,
                warps_n,
                stages,
                raster,
                pad,
                swz,
            };
            shape.legal() && shape.smem_a() + shape.smem_b() <= smem_mode::STATIC_SMEM_CAP
        }),
    ensures
        s@ == mma_pipe_text(
            name@,
            ty@,
            (mma::MmaShape { bm, bn, bk, warps_m, warps_n, stages, raster, pad, swz }),
            (Epilogue { act: a, bias, residual, store }),
            min_ctas as nat,
        ),
{
    entry_mma_pipe_budget(
        name,
        ty,
        bm,
        bn,
        bk,
        warps_m,
        warps_n,
        stages,
        raster,
        pad,
        a,
        bias,
        residual,
        swz,
        min_ctas,
        store,
        smem_mode::STATIC_SMEM_CAP,
    )
}

} // verus!
