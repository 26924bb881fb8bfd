//! What the `mma.sync` kernels share: the geometry of a block, the places of the lanes, the staging
//! of a tile and the loads of its fragments.
use vstd::arithmetic::power2::*;
use vstd::prelude::*;
use vstd::string::*;

use crate::ptx_wmma::parts;
use crate::ptx_wmma::pipeline;
use crate::text;

verus! {

/// The geometry of an `mma.sync` kernel.
#[derive(Clone, Copy)]
pub struct MmaShape {
    /// Rows and columns of C that a block owns, and the columns of A and B that a stage holds.
    pub bm: usize,
    pub bn: usize,
    pub bk: usize,
    /// The grid of warps in a block.
    pub warps_m: usize,
    pub warps_n: usize,
    /// Stages of the copy pipeline.
    pub stages: usize,
    /// Tile columns per band of blocks; 0 takes the grid's own order.
    pub raster: usize,
    /// Elements of padding per staged row.
    pub pad: usize,
    /// Whether rows are swizzled in place of padded.
    pub swz: bool,
}

impl MmaShape {
    /// Elements per staged row.
    pub open spec fn ldp(self) -> nat {
        if self.swz {
            self.bk as nat
        } else {
            (self.bk + self.pad) as nat
        }
    }

    pub open spec fn threads(self) -> nat {
        self.warps_m as nat * self.warps_n as nat * 32
    }

    /// Sub-tiles of 16 rows per warp.
    pub open spec fn tm(self) -> nat {
        self.bm as nat / (16 * self.warps_m as nat)
    }

    /// Sub-tiles of 8 columns per warp.
    pub open spec fn tn(self) -> nat {
        self.bn as nat / (8 * self.warps_n as nat)
    }

    /// Bytes of one staged tile of A.
    pub open spec fn tile_a(self) -> nat {
        self.bm as nat * self.ldp() * 2
    }

    /// Bytes of one staged tile of B.
    pub open spec fn tile_b(self) -> nat {
        self.bn as nat * self.ldp() * 2
    }

    /// Bytes of the ring of A.
    pub open spec fn smem_a(self) -> nat {
        self.stages as nat * self.tile_a()
    }

    /// Bytes of the ring of B.
    pub open spec fn smem_b(self) -> nat {
        self.stages as nat * self.tile_b()
    }

    /// The geometries that the staging and the fragment layout of `m16n8k16` allow.
    pub open spec fn legal(self) -> bool {
        &&& self.stages >= 2
        &&& self.bk % 16 == 0
        &&& is_pow2(self.bk as int / 8)
        &&& self.warps_m > 0
        &&& self.warps_n > 0
        &&& self.bm as nat % (16 * self.warps_m as nat) == 0
        &&& self.bn as nat % (8 * self.warps_n as nat) == 0
        &&& self.raster == 0 || (is_pow2(self.bm as int) && is_pow2(self.bn as int))
        &&& self.pad % 8 == 0
        &&& self.swz ==> {
            &&& self.bk == 32
            &&& (self.bm / self.warps_m) % 8 == 0
            &&& (self.bn / self.warps_n) % 8 == 0
        }
        &&& parts::staged_whole(self.bm as nat, self.bk as nat, self.threads())
        &&& parts::staged_whole(self.bn as nat, self.bk as nat, self.threads())
    }

    /// What follows for the sizes of a legal geometry whose rings are no larger than `limit`.
    pub proof fn lemma_sizes(self, limit: nat)
        requires
            self.legal(),
            self.smem_a() <= limit,
            self.smem_b() <= limit,
        ensures
            self.bm > 0,
            self.bn > 0,
            self.bk >= 16,
            self.ldp() >= self.bk,
            self.threads() > 0,
            self.threads() * 8 <= self.bm as nat * self.bk as nat,
            self.warps_m as nat * self.warps_n as nat <= self.threads(),
            self.warps_m <= self.threads(),
            self.warps_n <= self.threads(),
            self.bm as nat * self.bk as nat <= limit,
            self.bn as nat * self.bk as nat <= limit,
            self.bm as nat * self.ldp() <= limit,
            self.bn as nat * self.ldp() <= limit,
            self.tile_a() <= limit,
            self.tile_b() <= limit,
            self.ldp() * 2 <= limit,
            self.stages as nat * self.bk as nat <= limit,
            self.tm() * 16 <= self.bm,
            self.tn() * 8 <= self.bn,
            self.bm <= limit,
            self.bn <= limit,
            self.tm() * (32 * self.ldp()) <= self.tile_a(),
            self.tn() * (16 * self.ldp()) <= self.tile_b(),
            16 * self.warps_m <= self.bm,
            8 * self.warps_n <= self.bn,
            self.tm() >= 1,
            self.tn() >= 1,
            32 * self.ldp() <= limit,
    {
        let (bm, bn, bk) = (self.bm as nat, self.bn as nat, self.bk as nat);
        let (wm, wn) = (self.warps_m as nat, self.warps_n as nat);
        let ldp = self.ldp();
        assert(bm > 0 && bn > 0 && bk > 0) by (nonlinear_arith)
            requires
                bm * bk > 0,
                bn * bk > 0,
        ;
        assert(wm * wn >= wm && wm * wn >= wn && wm * wn > 0) by (nonlinear_arith)
            requires
                wm > 0,
                wn > 0,
        ;
        parts::lemma_staged_whole(bm, bk, self.threads());
        parts::lemma_sub_tiles(bm, 16, wm);
        parts::lemma_sub_tiles(bn, 8, wn);
        let st = self.stages as nat;
        let (ta, tb) = (self.tile_a(), self.tile_b());
        assert(ta <= st * ta && tb <= st * tb) by (nonlinear_arith)
            requires
                st >= 2,
        ;
        assert(bm * bk <= bm * ldp && bn * bk <= bn * ldp) by (nonlinear_arith)
            requires
                bk <= ldp,
        ;
        assert(ldp <= bm * ldp && ldp <= bn * ldp && bm <= bm * ldp && bn <= bn * ldp)
            by (nonlinear_arith)
            requires
                bm >= 1,
                bn >= 1,
                ldp >= 1,
        ;
        assert(st * bk <= st * ta) by (nonlinear_arith)
            requires
                bk <= ta,
        ;
        let (tm, tn) = (self.tm(), self.tn());
        assert(tm * (32 * ldp) <= bm * ldp * 2) by (nonlinear_arith)
            requires
                tm * 16 <= bm,
        ;
        assert(tn * (16 * ldp) <= bn * ldp * 2) by (nonlinear_arith)
            requires
                tn * 8 <= bn,
        ;
        assert(16 * wm <= bm) by (nonlinear_arith)
            requires
                bm % (16 * wm) == 0,
                bm > 0,
                wm > 0,
        ;
        assert(8 * wn <= bn) by (nonlinear_arith)
            requires
                bn % (8 * wn) == 0,
                bn > 0,
                wn > 0,
        ;
        assert(bm / (16 * wm) >= 1) by (nonlinear_arith)
            requires
                16 * wm <= bm,
                wm > 0,
        ;
        assert(bn / (8 * wn) >= 1) by (nonlinear_arith)
            requires
                8 * wn <= bn,
                wn > 0,
        ;
        assert(32 * ldp <= tm * (32 * ldp)) by (nonlinear_arith)
            requires
                tm >= 1,
        ;
    }
}

pub const RASTER_REGS: &'static str =
    "    .reg .b32 %lin,%tn,%tm,%gsz,%grpr,%rem,%col0,%gw,%trow,%tcol;
";

pub const ACT_REGS: &'static str = "    .reg .f32 %act0,%act1;
";

pub const SWIZZLE_REGS: &'static str =
    "    .reg .b32 %phaseA,%phaseB,%arowb,%browb,%la16,%lb8,%swztmp,%tmp3;
";

pub const MMA_TYPES: &'static str = "f32.#0.#0.f32";

/// The place of a lane: its warp in the block, its row and column pair in a fragment.
pub const LANES: &'static str = "    mov.u32 %tix,%tid.x;
    shr.u32 %warpId,%tix,5;
    and.b32 %lane,%tix,31;
    shr.u32 %grp,%lane,2;
    and.b32 %tg,%lane,3;
    shl.b32 %tg2,%tg,1;
    shr.u32 %warpRow,%warpId,#0;
    and.b32 %warpCol,%warpId,#1;
    mul.lo.s32 %warpMrow,%warpRow,#2;
    mul.lo.s32 %warpNcol,%warpCol,#3;
    mul.lo.s32 %laneoff,%grp,#4;
    add.u32 %laneoff,%laneoff,%tg2;
    shl.b32 %laneoff,%laneoff,1;
";

/// The row and the swizzle phase of a lane in an A and in a B fragment; a row has `#0` bytes.
pub const SWIZZLE_LANES: &'static str = "    and.b32 %tmp,%lane,15;
    add.u32 %tmp2,%tmp,%warpMrow;
    mul.lo.s32 %arowb,%tmp2,#0;
    shr.u32 %tmp2,%tmp,1;
    and.b32 %phaseA,%tmp2,#1;
    shr.u32 %la16,%lane,4;
    and.b32 %tmp,%lane,7;
    add.u32 %tmp2,%tmp,%warpNcol;
    mul.lo.s32 %browb,%tmp2,#0;
    shr.u32 %tmp2,%tmp,1;
    and.b32 %phaseB,%tmp2,#1;
    shr.u32 %tmp,%lane,3;
    and.b32 %lb8,%tmp,1;
";

/// The address of a buffer, `#1` itself or `#2` bytes behind it.
pub const BASE: &'static str = "    mov.u32 #0,#1;
";

pub const BASE_BEHIND: &'static str = "    mov.u32 #0,#1;
    add.u32 #0,#0,#2;
";

/// One 16-byte chunk of a tile with padded rows of `#6` bytes: `#0` is the tile's row, `#1` the
/// matrix, `#2` the buffer's address, `#3` the offset in it, `#4` and `#5` split a chunk's number.
pub const STAGE_PADDED: &'static str = "    shr.u32 %r,%e,#4;
    and.b32 %c,%e,#5;
    shl.b32 %c,%c,3;
    add.u32 %tmp,#0,%r;
    mul.lo.s32 %tmp,%tmp,%K;
    add.u32 %tmp,%tmp,%kcol;
    add.u32 %tmp,%tmp,%c;
    mul.wide.u32 %off,%tmp,2;
    add.s64 %gptr,#1,%off;
#2    add.u32 %tmp,%tmp,#3;
    mul.lo.s32 %tmp2,%r,#6;
    add.u32 %tmp,%tmp,%tmp2;
    shl.b32 %tmp2,%c,1;
    add.u32 %tmp,%tmp,%tmp2;
    cp.async.cg.shared.global [%tmp],[%gptr],16;
";

/// The same for swizzled rows: the chunk's place in its row is exchanged by the row's phase.
pub const STAGE_SWIZZLED: &'static str = "    shr.u32 %r,%e,#4;
    and.b32 %c,%e,#5;
    shl.b32 %c,%c,3;
    add.u32 %tmp,#0,%r;
    mul.lo.s32 %tmp,%tmp,%K;
    add.u32 %tmp,%tmp,%kcol;
    add.u32 %tmp,%tmp,%c;
    mul.wide.u32 %off,%tmp,2;
    add.s64 %gptr,#1,%off;
    shr.u32 %swztmp,%c,3;
    shr.u32 %tmp2,%r,1;
    and.b32 %tmp2,%tmp2,#5;
    xor.b32 %swztmp,%swztmp,%tmp2;
    shl.b32 %swztmp,%swztmp,4;
#2    add.u32 %tmp,%tmp,#3;
    mul.lo.s32 %tmp3,%r,#6;
    add.u32 %tmp,%tmp,%tmp3;
    add.u32 %tmp,%tmp,%swztmp;
    cp.async.cg.shared.global [%tmp],[%gptr],16;
";

/// The lane's address in the A tile, for column step `#1`; `#0` is the buffer's address.
pub const A_SWIZZLED: &'static str = "#0    add.u32 %aptr,%aptr,%bufcA;
    add.u32 %aptr,%aptr,%arowb;
    or.b32 %swztmp,%la16,#1;
    xor.b32 %swztmp,%swztmp,%phaseA;
    shl.b32 %swztmp,%swztmp,4;
";

pub const LOAD_A_SWIZZLED: &'static str = "    add.u32 %tmp,%aptr,%swztmp;
    add.u32 %tmp,%tmp,#1;
    ldmatrix.sync.aligned.m8n8.x4.shared.b16 {%a#0_0,%a#0_1,%a#0_2,%a#0_3},[%tmp];
";

/// The lane's address in a B tile; `#2` is the offset of the stage in use.
pub const B_SWIZZLED: &'static str = "#0    add.u32 %bptr,%bptr,#2;
    add.u32 %bptr,%bptr,%browb;
    or.b32 %swztmp,%lb8,#1;
    xor.b32 %swztmp,%swztmp,%phaseB;
    shl.b32 %swztmp,%swztmp,4;
";

pub const LOAD_B_SWIZZLED: &'static str = "    add.u32 %tmp,%bptr,%swztmp;
    add.u32 %tmp,%tmp,#1;
    ldmatrix.sync.aligned.m8n8.x2.shared.b16 {%#2#0_0,%#2#0_1},[%tmp];
";

pub const A_PADDED: &'static str = "#0    add.u32 %aptr,%aptr,%bufcA;
    mul.lo.s32 %tmp,%warpMrow,#2;
    shl.b32 %tmp,%tmp,1;
    add.u32 %aptr,%aptr,%tmp;
    add.u32 %aptr,%aptr,%laneoff;
    add.u32 %aptr,%aptr,#1;
";

pub const LOAD_A_PADDED: &'static str = "    ld.shared.b32 %a#0_0,[%aptr+#1];
    ld.shared.b32 %a#0_2,[%aptr+#2];
    ld.shared.b32 %a#0_1,[%aptr+#3];
    ld.shared.b32 %a#0_3,[%aptr+#4];
";

pub const B_PADDED: &'static str = "#0    add.u32 %bptr,%bptr,#3;
    mul.lo.s32 %tmp,%warpNcol,#2;
    shl.b32 %tmp,%tmp,1;
    add.u32 %bptr,%bptr,%tmp;
    add.u32 %bptr,%bptr,%laneoff;
    add.u32 %bptr,%bptr,#1;
";

pub const LOAD_B_PADDED: &'static str = "    ld.shared.b32 %#3#0_0,[%bptr+#1];
    ld.shared.b32 %#3#0_1,[%bptr+#2];
";

/// The address `off` bytes into the buffer `sym`.
pub open spec fn base(reg: Seq<char>, sym: Seq<char>, off: nat) -> Seq<char> {
    if off == 0 {
        text::fill(BASE@, seq![reg, sym])
    } else {
        text::fill(BASE_BEHIND@, seq![reg, sym, text::dec(off)])
    }
}

/// See [`base`].
pub fn base_of(reg: &str, sym: &str, off: usize) -> (r: String)
    ensures
        r@ == base(reg@, sym@, off as nat),
{
    if off == 0 {
        text::expand2(BASE, reg, sym)
    } else {
        text::expand3(BASE_BEHIND, reg, sym, &text::decimal(off))
    }
}

impl MmaShape {
    /// The places of the lanes.
    pub open spec fn lanes(self) -> Seq<char> {
        text::fill(
            LANES@,
            seq![
                text::dec(text::twos(self.warps_n as nat)),
                text::dec((self.warps_n - 1) as nat),
                text::dec(self.bm as nat / self.warps_m as nat),
                text::dec(self.bn as nat / self.warps_n as nat),
                text::dec(self.ldp()),
            ],
        ) + (if self.swz {
            text::fill(
                SWIZZLE_LANES@,
                seq![text::dec(self.bk as nat * 2), text::dec((self.bk / 8 - 1) as nat)],
            )
        } else {
            ""@
        })
    }

    /// The elements per staged row; see [`MmaShape::ldp`].
    pub fn row_len(&self) -> (r: usize)
        requires
            self.bk + self.pad <= usize::MAX || self.swz,
        ensures
            r == self.ldp(),
    {
        if self.swz {
            self.bk
        } else {
            self.bk + self.pad
        }
    }

    /// See [`MmaShape::lanes`].
    pub fn lanes_of(&self) -> (r: String)
        requires
            self.legal(),
            self.smem_a() <= usize::MAX,
            self.smem_b() <= usize::MAX,
        ensures
            r@ == self.lanes(),
    {
        proof {
            self.lemma_sizes(usize::MAX as nat);
        }
        let mut r = text::expand5(
            LANES,
            &text::decimal(text::shift_of(self.warps_n)),
            &text::decimal(self.warps_n - 1),
            &text::decimal(self.bm / self.warps_m),
            &text::decimal(self.bn / self.warps_n),
            &text::decimal(self.row_len()),
        );
        let swizzle = if self.swz {
            text::expand2(
                SWIZZLE_LANES,
                &text::decimal(self.bk * 2),
                &text::decimal(self.bk / 8 - 1),
            )
        } else {
            String::from_str("")
        };
        r.append(&swizzle);
        r
    }

    /// The copy of one tile of `rows` rows: `row` is the tile's row in the matrix `ptr`, `address`
    /// the buffer's address and `at` the offset in it.
    pub open spec fn stage(
        self,
        rows: nat,
        row: Seq<char>,
        ptr: Seq<char>,
        address: Seq<char>,
        at: Seq<char>,
    ) -> Seq<char> {
        parts::chunks(
            text::fill(
                if self.swz {
                    STAGE_SWIZZLED@
                } else {
                    STAGE_PADDED@
                },
                seq![
                    row,
                    ptr,
                    address,
                    at,
                    text::dec(text::twos((self.bk / 8) as nat)),
                    text::dec((self.bk / 8 - 1) as nat),
                    text::dec(self.ldp() * 2),
                ],
            ),
            rows * self.bk as nat / (self.threads() * 8),
            self.threads(),
        )
    }

    /// See [`MmaShape::stage`].
    pub fn stage_of(&self, rows: usize, row: &str, ptr: &str, address: &str, at: &str) -> (r:
        String)
        requires
            self.legal(),
            self.smem_a() <= usize::MAX,
            self.smem_b() <= usize::MAX,
            rows == self.bm || rows == self.bn,
        ensures
            r@ == self.stage(rows as nat, row@, ptr@, address@, at@),
    {
        proof {
            self.lemma_sizes(usize::MAX as nat);
            parts::lemma_staged_whole(rows as nat, self.bk as nat, self.threads());
        }
        let threads: usize = self.warps_m * self.warps_n * 32;
        let body = text::expand7(
            if self.swz { STAGE_SWIZZLED } else { STAGE_PADDED },
            row,
            ptr,
            address,
            at,
            &text::decimal(text::shift_of(self.bk / 8)),
            &text::decimal(self.bk / 8 - 1),
            &text::decimal(self.row_len() * 2),
        );
        parts::chunks_of(&body, rows * self.bk / (threads * 8), threads)
    }

    /// The loads of the first `n` A fragments from padded rows.
    #[verifier::opaque]
    pub open spec fn a_padded(self, n: nat) -> Seq<char>
        decreases n,
    {
        if n == 0 {
            Seq::empty()
        } else {
            let i = (n - 1) as nat;
            let at = i * (32 * self.ldp());
            let below = 16 * self.ldp();
            self.a_padded(i) + text::fill(
                LOAD_A_PADDED@,
                seq![
                    text::dec(i),
                    text::dec(at),
                    text::dec(at + 16),
                    text::dec(at + below),
                    text::dec(at + below + 16),
                ],
            )
        }
    }

    /// The loads of the first `n` B fragments of the family `which` from padded rows.
    #[verifier::opaque]
    pub open spec fn b_padded(self, which: Seq<char>, n: nat) -> Seq<char>
        decreases n,
    {
        if n == 0 {
            Seq::empty()
        } else {
            let i = (n - 1) as nat;
            let at = i * (16 * self.ldp());
            self.b_padded(which, i) + text::fill(
                LOAD_B_PADDED@,
                seq![text::dec(i), text::dec(at), text::dec(at + 16), which],
            )
        }
    }

    /// The loads of the A fragments of column step `ks`.
    pub open spec fn load_a(self, sym: Seq<char>, ks: nat) -> Seq<char> {
        if self.swz {
            text::fill(A_SWIZZLED@, seq![base("%aptr"@, sym, 0), text::dec(ks * 2)]) + text::each(
                LOAD_A_SWIZZLED@,
                self.tm(),
                32 * self.ldp(),
                Seq::empty(),
            )
        } else {
            text::fill(
                A_PADDED@,
                seq![base("%aptr"@, sym, 0), text::dec(ks * 32), text::dec(self.ldp())],
            ) + self.a_padded(self.tm())
        }
    }

    /// The loads of the B fragments of the family `which` of column step `ks`, from `off` bytes into
    /// the buffer `sym`, stage offset `at`.
    pub open spec fn load_b(
        self,
        which: Seq<char>,
        sym: Seq<char>,
        off: nat,
        at: Seq<char>,
        ks: nat,
    ) -> Seq<char> {
        if self.swz {
            text::fill(B_SWIZZLED@, seq![base("%bptr"@, sym, off), text::dec(ks * 2), at])
                + text::each(LOAD_B_SWIZZLED@, self.tn(), 16 * self.ldp(), seq![which])
        } else {
            text::fill(
                B_PADDED@,
                seq![base("%bptr"@, sym, off), text::dec(ks * 32), text::dec(self.ldp()), at],
            ) + self.b_padded(which, self.tn())
        }
    }

    /// See [`MmaShape::a_padded`].
    fn a_padded_of(&self, n: usize) -> (r: String)
        requires
            self.bk + self.pad <= usize::MAX || self.swz,
            32 * self.ldp() <= usize::MAX,
            n * (32 * self.ldp()) <= usize::MAX,
            self.ldp() >= 1,
        ensures
            r@ == self.a_padded(n as nat),
    {
        reveal(MmaShape::a_padded);
        let ldp: usize = self.row_len();
        let mut r = String::new();
        for i in 0..n
            invariant
                ldp == self.ldp(),
                ldp >= 1,
                32 * ldp <= usize::MAX,
                n * (32 * ldp) <= usize::MAX,
                r@ == self.a_padded(i as nat),
        {
            reveal(MmaShape::a_padded);
            assert(i * (32 * ldp) + 32 * ldp <= n * (32 * ldp)) by (nonlinear_arith)
                requires
                    i < n,
            ;
            let at: usize = i * (32 * ldp);
            let below: usize = 16 * ldp;
            r.append(
                &text::expand5(
                    LOAD_A_PADDED,
                    &text::decimal(i),
                    &text::decimal(at),
                    &text::decimal(at + 16),
                    &text::decimal(at + below),
                    &text::decimal(at + below + 16),
                ),
            );
        }
        r
    }

    /// See [`MmaShape::b_padded`].
    fn b_padded_of(&self, which: &str, n: usize) -> (r: String)
        requires
            self.bk + self.pad <= usize::MAX || self.swz,
            16 * self.ldp() <= usize::MAX,
            n * (16 * self.ldp()) <= usize::MAX,
            self.ldp() >= 1,
        ensures
            r@ == self.b_padded(which@, n as nat),
    {
        reveal(MmaShape::b_padded);
        let ldp: usize = self.row_len();
        let mut r = String::new();
        for i in 0..n
            invariant
                ldp == self.ldp(),
                ldp >= 1,
                16 * ldp <= usize::MAX,
                n * (16 * ldp) <= usize::MAX,
                r@ == self.b_padded(which@, i as nat),
        {
            reveal(MmaShape::b_padded);
            assert(i * (16 * ldp) + 16 * ldp <= n * (16 * ldp)) by (nonlinear_arith)
                requires
                    i < n,
            ;
            let at: usize = i * (16 * ldp);
            r.append(
                &text::expand4(
                    LOAD_B_PADDED,
                    &text::decimal(i),
                    &text::decimal(at),
                    &text::decimal(at + 16),
                    which,
                ),
            );
        }
        r
    }

    /// See [`MmaShape::load_a`].
    pub fn load_a_of(&self, sym: &str, ks: usize) -> (r: String)
        requires
            self.legal(),
            self.smem_a() <= usize::MAX,
            self.smem_b() <= usize::MAX,
            ks < self.bk / 16,
        ensures
            r@ == self.load_a(sym@, ks as nat),
    {
        proof {
            self.lemma_sizes(usize::MAX as nat);
        }
        let address = base_of("%aptr", sym, 0);
        let tm: usize = self.bm / (16 * self.warps_m);
        if self.swz {
            let mut r = text::expand2(A_SWIZZLED, &address, &text::decimal(ks * 2));
            r.append(&text::each_0(LOAD_A_SWIZZLED, tm, 32 * self.row_len()));
            r
        } else {
            let mut r = text::expand3(
                A_PADDED,
                &address,
                &text::decimal(ks * 32),
                &text::decimal(self.row_len()),
            );
            r.append(&self.a_padded_of(tm));
            r
        }
    }

    /// See [`MmaShape::load_b`].
    pub fn load_b_of(&self, which: &str, sym: &str, off: usize, at: &str, ks: usize) -> (r: String)
        requires
            self.legal(),
            self.smem_a() <= usize::MAX,
            self.smem_b() <= usize::MAX,
            ks < self.bk / 16,
        ensures
            r@ == self.load_b(which@, sym@, off as nat, at@, ks as nat),
    {
        proof {
            self.lemma_sizes(usize::MAX as nat);
        }
        let address = base_of("%bptr", sym, off);
        let tn: usize = self.bn / (8 * self.warps_n);
        if self.swz {
            let mut r = text::expand3(B_SWIZZLED, &address, &text::decimal(ks * 2), at);
            r.append(&text::each_1(LOAD_B_SWIZZLED, tn, 16 * self.row_len(), which));
            r
        } else {
            let mut r = text::expand4(
                B_PADDED,
                &address,
                &text::decimal(ks * 32),
                &text::decimal(self.row_len()),
                at,
            );
            r.append(&self.b_padded_of(which, tn));
            r
        }
    }
}

} // verus!
