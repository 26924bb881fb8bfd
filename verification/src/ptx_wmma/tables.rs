//! The kernels that a module holds, as tables of their shapes.
use vstd::prelude::*;
use vstd::string::*;

use crate::ptx_wmma::act;
use crate::ptx_wmma::mma;
use crate::smem_mode;
use crate::text;

verus! {

/// The tile of a block, its warps, its pipeline and its row layout, under the name of its entry.
#[derive(Clone, Copy)]
pub struct PipeCfg {
    pub name: &'static str,
    pub bm: usize,
    pub bn: usize,
    pub bk: usize,
    pub wm: usize,
    pub wn: usize,
    pub stages: usize,
    pub raster: usize,
    /// Whether the kernel multiplies with `mma.sync` rather than with WMMA.
    pub mma: bool,
    pub pad: usize,
}

impl PipeCfg {
    /// Threads of a block.
    pub fn threads(&self) -> (r: usize)
        requires
            self.wm * self.wn * 32 <= usize::MAX,
        ensures
            r == self.wm * self.wn * 32,
    {
        self.wm * self.wn * 32
    }

    /// Bytes of shared memory of a block.
    pub open spec fn bytes(self) -> nat {
        self.stages as nat * (self.bm as nat + self.bn as nat) * (self.bk as nat + self.pad as nat)
            * 2
    }

    /// Bytes of shared memory: every stage holds a tile of A and one of B, in padded rows.
    pub fn smem_bytes(&self) -> (r: usize)
        requires
            self.bm + self.bn <= usize::MAX,
            self.bk + self.pad <= usize::MAX,
            self.stages * (self.bm + self.bn) <= usize::MAX,
            self.bytes() <= usize::MAX,
        ensures
            r == self.bytes(),
    {
        self.stages * (self.bm + self.bn) * (self.bk + self.pad) * 2
    }

    /// The geometry of the row as an `mma.sync` kernel, in its own or another warp grid and row
    /// layout.
    pub open spec fn shape(self, wm: usize, wn: usize, pad: usize, swz: bool) -> mma::MmaShape {
        mma::MmaShape {
            bm: self.bm,
            bn: self.bn,
            bk: self.bk,
            warps_m: wm,
            warps_n: wn,
            stages: self.stages,
            raster: self.raster,
            pad,
            swz,
        }
    }
}

/// A row of the `mma.sync` grids: a [`PipeCfg`] with its row layout, launch bounds and store.
#[derive(Clone, Copy)]
pub struct CliffCfg {
    pub name: &'static str,
    pub bm: usize,
    pub bn: usize,
    pub bk: usize,
    pub wm: usize,
    pub wn: usize,
    pub stages: usize,
    pub raster: usize,
    pub swz: bool,
    pub pad: usize,
    pub min_ctas: usize,
    pub store: act::Store,
}

impl CliffCfg {
    /// Bytes of shared memory of a block.
    pub open spec fn bytes(self) -> nat {
        self.stages as nat * (self.bm as nat + self.bn as nat) * (self.bk as nat + self.pad as nat)
            * 2
    }

    /// Bytes of shared memory: every stage holds a tile of A and one of B, in padded rows.
    pub fn smem_bytes(&self) -> (r: usize)
        requires
            self.bm + self.bn <= usize::MAX,
            self.bk + self.pad <= usize::MAX,
            self.stages * (self.bm + self.bn) <= usize::MAX,
            self.bytes() <= usize::MAX,
        ensures
            r == self.bytes(),
    {
        self.stages * (self.bm + self.bn) * (self.bk + self.pad) * 2
    }

    /// Threads of a block.
    pub fn threads(&self) -> (r: usize)
        requires
            self.wm * self.wn * 32 <= usize::MAX,
        ensures
            r == self.wm * self.wn * 32,
    {
        self.wm * self.wn * 32
    }

    /// The form in which the kernel gets its shared memory.
    pub fn smem_mode(&self) -> (r: smem_mode::SmemMode)
        requires
            self.bm + self.bn <= usize::MAX,
            self.bk + self.pad <= usize::MAX,
            self.stages * (self.bm + self.bn) <= usize::MAX,
            self.bytes() <= usize::MAX,
        ensures
            r == smem_mode::mode_of(self.bytes() as usize),
    {
        smem_mode::smem_mode_for(self.smem_bytes())
    }

    /// The geometry of the row.
    pub open spec fn shape(self) -> mma::MmaShape {
        mma::MmaShape {
            bm: self.bm,
            bn: self.bn,
            bk: self.bk,
            warps_m: self.wm,
            warps_n: self.wn,
            stages: self.stages,
            raster: self.raster,
            pad: self.pad,
            swz: self.swz,
        }
    }
}

/// A row with swizzled rows of 32 elements and two warp rows.
#[verifier::allow_in_spec]
pub fn swizzled(
    name: &'static str,
    bm: usize,
    bn: usize,
    wn: usize,
    stages: usize,
    raster: usize,
    min_ctas: usize,
    store: act::Store,
) -> CliffCfg
    returns
        (CliffCfg {
            name,
            bm,
            bn,
            bk: 32,
            wm: 2,
            wn,
            stages,
            raster,
            swz: true,
            pad: 0,
            min_ctas,
            store,
        }),
{
    CliffCfg {
        name,
        bm,
        bn,
        bk: 32,
        wm: 2,
        wn,
        stages,
        raster,
        swz: true,
        pad: 0,
        min_ctas,
        store,
    }
}

/// A row with padded rows of 32 elements, two warp rows and scalar stores.
#[verifier::allow_in_spec]
pub fn padded(
    name: &'static str,
    bm: usize,
    bn: usize,
    wn: usize,
    stages: usize,
    raster: usize,
    pad: usize,
) -> CliffCfg
    returns
        (CliffCfg {
            name,
            bm,
            bn,
            bk: 32,
            wm: 2,
            wn,
            stages,
            raster,
            swz: false,
            pad,
            min_ctas: 0,
            store: act::Store::Scalar,
        }),
{
    CliffCfg {
        name,
        bm,
        bn,
        bk: 32,
        wm: 2,
        wn,
        stages,
        raster,
        swz: false,
        pad,
        min_ctas: 0,
        store: act::Store::Scalar,
    }
}

/// Shared memory that a block may have on the smallest device, in bytes.
pub const DEEP_SMEM_BUDGET: usize = 101_376;

/// Shared memory that a block may have on a datacenter device, in bytes.
pub const WIDE_SMEM_BUDGET: usize = 166_912;

/// The fp16 pipelines, for small, medium and large products.
pub open spec fn pipe_rows() -> Seq<PipeCfg> {
    seq![
        PipeCfg {
            name: "wmma_nt_f16_pipe_64_s6",
            bm: 64,
            bn: 64,
            bk: 16,
            wm: 2,
            wn: 2,
            stages: 6,
            raster: 0,
            mma: false,
            pad: 0,
        },
        PipeCfg {
            name: "wmma_nt_f16_pipe_128_s4",
            bm: 128,
            bn: 128,
            bk: 16,
            wm: 2,
            wn: 4,
            stages: 4,
            raster: 0,
            mma: false,
            pad: 0,
        },
        PipeCfg {
            name: "mma_nt_f16_128_bk32_s2_r16",
            bm: 128,
            bn: 128,
            bk: 32,
            wm: 2,
            wn: 4,
            stages: 2,
            raster: 16,
            mma: true,
            pad: 8,
        },
    ]
}

/// See [`pipe_rows`].
pub fn pipe_variants() -> (r: Vec<PipeCfg>)
    ensures
        r@ == pipe_rows(),
{
    vec![
        PipeCfg {
            name: "wmma_nt_f16_pipe_64_s6",
            bm: 64,
            bn: 64,
            bk: 16,
            wm: 2,
            wn: 2,
            stages: 6,
            raster: 0,
            mma: false,
            pad: 0,
        },
        PipeCfg {
            name: "wmma_nt_f16_pipe_128_s4",
            bm: 128,
            bn: 128,
            bk: 16,
            wm: 2,
            wn: 4,
            stages: 4,
            raster: 0,
            mma: false,
            pad: 0,
        },
        PipeCfg {
            name: "mma_nt_f16_128_bk32_s2_r16",
            bm: 128,
            bn: 128,
            bk: 32,
            wm: 2,
            wn: 4,
            stages: 2,
            raster: 16,
            mma: true,
            pad: 8,
        },
    ]
}

/// The `mma.sync` kernels that differ from one another in one property each.
pub open spec fn cliff_rows() -> Seq<CliffCfg> {
    seq![
        swizzled("cliff_swz_s2", 128, 128, 4, 2, 16, 0, act::Store::Scalar),
        swizzled("cliff_swz_w22", 128, 128, 2, 2, 16, 0, act::Store::Scalar),
        padded("cliff_pad_w24", 128, 128, 4, 2, 16, 8),
        swizzled("cliff_swz_s3", 128, 128, 4, 3, 16, 0, act::Store::Scalar),
        swizzled("cliff_swz_s3_r8", 128, 128, 4, 3, 8, 0, act::Store::Scalar),
        swizzled("cliff_swz_s3_r32", 128, 128, 4, 3, 32, 0, act::Store::Scalar),
        swizzled("cliff_swz_s2_mc3", 128, 128, 4, 2, 16, 3, act::Store::Scalar),
        swizzled("cliff_swz_s3_mc2", 128, 128, 4, 3, 16, 2, act::Store::Scalar),
        swizzled("cliff_swz_s2_v2", 128, 128, 4, 2, 16, 0, act::Store::V2),
        swizzled("cliff_swz_s2_v2cs", 128, 128, 4, 2, 16, 0, act::Store::V2Cs),
    ]
}

/// See [`cliff_rows`].
pub fn cliff_variants() -> (r: Vec<CliffCfg>)
    ensures
        r@ == cliff_rows(),
{
    vec![
        swizzled("cliff_swz_s2", 128, 128, 4, 2, 16, 0, act::Store::Scalar),
        swizzled("cliff_swz_w22", 128, 128, 2, 2, 16, 0, act::Store::Scalar),
        padded("cliff_pad_w24", 128, 128, 4, 2, 16, 8),
        swizzled("cliff_swz_s3", 128, 128, 4, 3, 16, 0, act::Store::Scalar),
        swizzled("cliff_swz_s3_r8", 128, 128, 4, 3, 8, 0, act::Store::Scalar),
        swizzled("cliff_swz_s3_r32", 128, 128, 4, 3, 32, 0, act::Store::Scalar),
        swizzled("cliff_swz_s2_mc3", 128, 128, 4, 2, 16, 3, act::Store::Scalar),
        swizzled("cliff_swz_s3_mc2", 128, 128, 4, 3, 16, 2, act::Store::Scalar),
        swizzled("cliff_swz_s2_v2", 128, 128, 4, 2, 16, 0, act::Store::V2),
        swizzled("cliff_swz_s2_v2cs", 128, 128, 4, 2, 16, 0, act::Store::V2Cs),
    ]
}

/// The pipelines of growing depth that fit [`DEEP_SMEM_BUDGET`].
pub open spec fn deep_rows() -> Seq<CliffCfg> {
    seq![
        swizzled("deep_swz_128_s2", 128, 128, 4, 2, 16, 0, act::Store::Scalar),
        swizzled("deep_swz_128_s3", 128, 128, 4, 3, 16, 0, act::Store::Scalar),
        swizzled("deep_swz_128_s4", 128, 128, 4, 4, 16, 0, act::Store::Scalar),
        swizzled("deep_swz_128_s5", 128, 128, 4, 5, 16, 0, act::Store::Scalar),
        swizzled("deep_swz_128x256_s2", 128, 256, 4, 2, 16, 0, act::Store::Scalar),
        swizzled("deep_swz_128x256_s3", 128, 256, 4, 3, 16, 0, act::Store::Scalar),
        swizzled("deep_swz_128x256_s4", 128, 256, 4, 4, 16, 0, act::Store::Scalar),
        swizzled("deep_swz_128x256_s4_mc1", 128, 256, 4, 4, 16, 1, act::Store::Scalar),
        swizzled("deep_swz_256x128_s2", 256, 128, 4, 2, 16, 0, act::Store::Scalar),
        swizzled("deep_swz_256x128_s3", 256, 128, 4, 3, 16, 0, act::Store::Scalar),
        swizzled("deep_swz_256x128_s4", 256, 128, 4, 4, 16, 0, act::Store::Scalar),
    ]
}

/// See [`deep_rows`].
pub fn pipe_deep_variants() -> (r: Vec<CliffCfg>)
    ensures
        r@ == deep_rows(),
{
    vec![
        swizzled("deep_swz_128_s2", 128, 128, 4, 2, 16, 0, act::Store::Scalar),
        swizzled("deep_swz_128_s3", 128, 128, 4, 3, 16, 0, act::Store::Scalar),
        swizzled("deep_swz_128_s4", 128, 128, 4, 4, 16, 0, act::Store::Scalar),
        swizzled("deep_swz_128_s5", 128, 128, 4, 5, 16, 0, act::Store::Scalar),
        swizzled("deep_swz_128x256_s2", 128, 256, 4, 2, 16, 0, act::Store::Scalar),
        swizzled("deep_swz_128x256_s3", 128, 256, 4, 3, 16, 0, act::Store::Scalar),
        swizzled("deep_swz_128x256_s4", 128, 256, 4, 4, 16, 0, act::Store::Scalar),
        swizzled("deep_swz_128x256_s4_mc1", 128, 256, 4, 4, 16, 1, act::Store::Scalar),
        swizzled("deep_swz_256x128_s2", 256, 128, 4, 2, 16, 0, act::Store::Scalar),
        swizzled("deep_swz_256x128_s3", 256, 128, 4, 3, 16, 0, act::Store::Scalar),
        swizzled("deep_swz_256x128_s4", 256, 128, 4, 4, 16, 0, act::Store::Scalar),
    ]
}

/// The pipelines that need [`WIDE_SMEM_BUDGET`].
pub open spec fn wide_rows() -> Seq<CliffCfg> {
    seq![
        swizzled("wide_swz_128_s7", 128, 128, 4, 7, 16, 0, act::Store::Scalar),
        swizzled("wide_swz_128x256_s5_mc1", 128, 256, 4, 5, 16, 1, act::Store::Scalar),
        swizzled("wide_swz_128x256_s6_mc1", 128, 256, 4, 6, 16, 1, act::Store::Scalar),
        swizzled("wide_swz_256x128_s6_mc1", 256, 128, 4, 6, 16, 1, act::Store::Scalar),
    ]
}

/// See [`wide_rows`].
pub fn pipe_wide_variants() -> (r: Vec<CliffCfg>)
    ensures
        r@ == wide_rows(),
{
    vec![
        swizzled("wide_swz_128_s7", 128, 128, 4, 7, 16, 0, act::Store::Scalar),
        swizzled("wide_swz_128x256_s5_mc1", 128, 256, 4, 5, 16, 1, act::Store::Scalar),
        swizzled("wide_swz_128x256_s6_mc1", 128, 256, 4, 6, 16, 1, act::Store::Scalar),
        swizzled("wide_swz_256x128_s6_mc1", 256, 128, 4, 6, 16, 1, act::Store::Scalar),
    ]
}

/// The bf16 pipeline for large products.
#[verifier::allow_in_spec]
pub fn pipe_bf16() -> PipeCfg
    returns
        (PipeCfg {
            name: "mma_nt_bf16_128_bk32_s2_r16",
            bm: 128,
            bn: 128,
            bk: 32,
            wm: 2,
            wn: 4,
            stages: 2,
            raster: 16,
            mma: true,
            pad: 8,
        }),
{
    PipeCfg {
            name: "mma_nt_bf16_128_bk32_s2_r16",
            bm: 128,
            bn: 128,
            bk: 32,
            wm: 2,
            wn: 4,
            stages: 2,
            raster: 16,
            mma: true,
            pad: 8,
        }
}

/// The fp16 pipeline of that name.
pub fn pipe_variant(name: &str) -> (r: PipeCfg)
    requires
        exists|i: int| 0 <= i < pipe_rows().len() && (#[trigger] pipe_rows()[i]).name@ == name@,
    ensures
        exists|i: int|
            {
                &&& 0 <= i < pipe_rows().len()
                &&& r == #[trigger] pipe_rows()[i]
                &&& r.name@ == name@
                &&& forall|j: int| 0 <= j < i ==> (#[trigger] pipe_rows()[j]).name@ != name@
            },
{
    let rows = pipe_variants();
    let mut i: usize = 0;
    while i < rows.len()
        invariant
            rows@ == pipe_rows(),
            i <= rows.len(),
            forall|j: int| 0 <= j < i ==> (#[trigger] pipe_rows()[j]).name@ != name@,
        decreases rows.len() - i,
    {
        if text::same(rows[i].name, name) {
            return rows[i];
        }
        i = i + 1;
    }
    rows[0]
}

/// The deep pipeline of that name.
pub fn deep_variant(name: &str) -> (r: CliffCfg)
    requires
        exists|i: int| 0 <= i < deep_rows().len() && (#[trigger] deep_rows()[i]).name@ == name@,
    ensures
        exists|i: int|
            {
                &&& 0 <= i < deep_rows().len()
                &&& r == #[trigger] deep_rows()[i]
                &&& r.name@ == name@
                &&& forall|j: int| 0 <= j < i ==> (#[trigger] deep_rows()[j]).name@ != name@
            },
{
    let rows = pipe_deep_variants();
    let mut i: usize = 0;
    while i < rows.len()
        invariant
            rows@ == deep_rows(),
            i <= rows.len(),
            forall|j: int| 0 <= j < i ==> (#[trigger] deep_rows()[j]).name@ != name@,
        decreases rows.len() - i,
    {
        if text::same(rows[i].name, name) {
            return rows[i];
        }
        i = i + 1;
    }
    rows[0]
}

/// The wide pipeline of that name.
pub fn wide_variant(name: &str) -> (r: CliffCfg)
    requires
        exists|i: int| 0 <= i < wide_rows().len() && (#[trigger] wide_rows()[i]).name@ == name@,
    ensures
        exists|i: int|
            {
                &&& 0 <= i < wide_rows().len()
                &&& r == #[trigger] wide_rows()[i]
                &&& r.name@ == name@
                &&& forall|j: int| 0 <= j < i ==> (#[trigger] wide_rows()[j]).name@ != name@
            },
{
    let rows = pipe_wide_variants();
    let mut i: usize = 0;
    while i < rows.len()
        invariant
            rows@ == wide_rows(),
            i <= rows.len(),
            forall|j: int| 0 <= j < i ==> (#[trigger] wide_rows()[j]).name@ != name@,
        decreases rows.len() - i,
    {
        if text::same(rows[i].name, name) {
            return rows[i];
        }
        i = i + 1;
    }
    rows[0]
}

} // verus!
