//! The configurations of the Hopper warpgroup-MMA GEMM and the launches they need.
use vstd::prelude::*;
use vstd::string::*;

use crate::tma_host;

verus! {

/// The 16-bit input type of a warpgroup product.
#[derive(Clone, Copy, Debug, PartialEq, Eq, Structural)]
pub enum WgmmaDtype {
    F16,
    Bf16,
}

/// How the product is stored: one by one, in pairs, or, to measure the rest alone, not at all.
#[derive(Clone, Copy, Debug, PartialEq, Eq, Structural)]
pub enum EpilogueStore {
    Scalar,
    V2,
    Elided,
}

impl EpilogueStore {
    /// Whether the store needs an even number of columns: a pair is aligned only then.
    pub fn requires_even_n(self) -> (r: bool)
        ensures
            r == (self == EpilogueStore::V2),
    {
        self == EpilogueStore::V2
    }

    /// Whether the store leaves the product out.
    pub fn is_diagnostic_only(self) -> (r: bool)
        ensures
            r == (self == EpilogueStore::Elided),
    {
        self == EpilogueStore::Elided
    }
}

/// A configuration: its kernel, the tile of a block, its cluster and its store.
#[derive(Clone, Copy, Debug)]
pub struct WgmmaCfg {
    pub name: &'static str,
    pub dtype: WgmmaDtype,
    pub bm: u32,
    pub bn: u32,
    pub bk: u32,
    /// Shared memory that the ring takes, in bytes.
    pub dyn_smem_bytes: usize,
    /// Blocks per cluster along x, y and z.
    pub cluster: (u32, u32, u32),
    pub epilogue: EpilogueStore,
}

/// What a launch of a configuration needs.
#[derive(Clone, Copy, Debug)]
pub struct LaunchPlan {
    pub entry: &'static str,
    pub bm: u32,
    pub bn: u32,
    pub cluster: (u32, u32, u32),
    pub dyn_smem_bytes: usize,
}

/// The number of tiles of `tile` elements that cover `extent`, in whole groups of `group` tiles.
pub open spec fn tiles(extent: nat, tile: nat, group: nat) -> nat {
    (((extent + tile - 1) / tile as int + group - 1) / group as int * group) as nat
}

/// See [`tiles`].
fn tiles_of(extent: usize, tile: u32, group: u32) -> (r: u128)
    requires
        tile > 0,
        group > 0,
    ensures
        r == tiles(extent as nat, tile as nat, group as nat),
{
    let covered: u128 = (extent as u128 + tile as u128 - 1) / tile as u128;
    proof {
        let e = extent + tile - 1;
        assert(e / tile as int <= e) by (nonlinear_arith)
            requires
                e >= 0,
                tile > 0,
        ;
        let c = covered + group - 1;
        assert(c / group as int * group <= c && c / group as int >= 0) by (nonlinear_arith)
            requires
                c >= 0,
                group > 0,
        ;
        assert(c / group as int * group >= 0) by (nonlinear_arith)
            requires
                c / group as int >= 0,
                group > 0,
        ;
    }
    (covered + group as u128 - 1) / group as u128 * group as u128
}

impl LaunchPlan {
    /// Blocks along x (tiles of columns), y (tiles of rows) and z, in whole clusters.
    pub open spec fn blocks(self, m: nat, n: nat) -> (nat, nat, nat) {
        (
            tiles(n, self.bn as nat, self.cluster.0 as nat),
            tiles(m, self.bm as nat, self.cluster.1 as nat),
            self.cluster.2 as nat,
        )
    }

    /// The grid of an `m x n` product: see [`LaunchPlan::blocks`].
    pub fn grid(&self, m: usize, n: usize) -> (r: (u128, u128, u128))
        requires
            self.bm > 0,
            self.bn > 0,
            self.cluster.0 > 0,
            self.cluster.1 > 0,
        ensures
            r.0 == self.blocks(m as nat, n as nat).0,
            r.1 == self.blocks(m as nat, n as nat).1,
            r.2 == self.blocks(m as nat, n as nat).2,
    {
        (
            tiles_of(n, self.bn, self.cluster.0),
            tiles_of(m, self.bm, self.cluster.1),
            self.cluster.2 as u128,
        )
    }

    /// Blocks per cluster.
    pub fn cluster_ctas(&self) -> (r: u128)
        ensures
            r == self.cluster.0 * self.cluster.1 * self.cluster.2,
    {
        proof {
            let (a, b, c) = (self.cluster.0, self.cluster.1, self.cluster.2);
            assert(a * b <= 0x1_0000_0000 * 0x1_0000_0000 && a * b * c <= 0x1_0000_0000
                * 0x1_0000_0000 * 0x1_0000_0000 && a * b >= 0) by (nonlinear_arith)
                requires
                    0 <= a <= 0xffff_ffff,
                    0 <= b <= 0xffff_ffff,
                    0 <= c <= 0xffff_ffff,
            ;
        }
        self.cluster.0 as u128 * self.cluster.1 as u128 * self.cluster.2 as u128
    }
}

impl WgmmaDtype {
    /// The element type in a tensor map.
    pub open spec fn element(self) -> tma_host::TmaDataType {
        match self {
            WgmmaDtype::F16 => tma_host::TmaDataType::F16,
            WgmmaDtype::Bf16 => tma_host::TmaDataType::Bf16,
        }
    }

    /// See [`WgmmaDtype::element`].
    fn element_of(self) -> (r: tma_host::TmaDataType)
        ensures
            r == self.element(),
    {
        match self {
            WgmmaDtype::F16 => tma_host::TmaDataType::F16,
            WgmmaDtype::Bf16 => tma_host::TmaDataType::Bf16,
        }
    }
}

impl WgmmaCfg {
    /// A configuration has a tile and a cluster.
    pub open spec fn wf(self) -> bool {
        &&& self.bm > 0
        &&& self.bn > 0
        &&& self.cluster.0 > 0
        &&& self.cluster.1 > 0
        &&& self.cluster.2 > 0
    }

    /// What a launch needs.
    pub fn launch_plan(&self) -> (r: LaunchPlan)
        ensures
            r.entry == self.name,
            r.bm == self.bm,
            r.bn == self.bn,
            r.cluster == self.cluster,
            r.dyn_smem_bytes == self.dyn_smem_bytes,
    {
        LaunchPlan {
            entry: self.name,
            bm: self.bm,
            bn: self.bn,
            cluster: self.cluster,
            dyn_smem_bytes: self.dyn_smem_bytes,
        }
    }

    /// The map of a row-major operand of `rows` rows and `k` columns, copied in tiles of `tile` rows.
    /// Rows too long for their bytes to be counted have no distance: such an extent is past the
    /// limit in any case.
    pub open spec fn operand(self, rows: u64, k: u64, tile: u32) -> tma_host::TensorMapArgs {
        tma_host::TensorMapArgs::tiled_2d(
            self.dtype.element(),
            rows,
            k,
            if k * 2 <= u64::MAX {
                k
            } else {
                0
            },
            tile,
            self.bk,
            tma_host::TmaSwizzle::Off,
        )
    }

    /// See [`WgmmaCfg::operand`].
    fn operand_of(&self, rows: usize, k: usize, tile: u32) -> (r: tma_host::TensorMapArgs)
        ensures
            r == self.operand(rows as u64, k as u64, tile),
    {
        let stride: u64 = if k as u64 <= u64::MAX / 2 {
            k as u64
        } else {
            0
        };
        tma_host::TensorMapArgs::tiled_2d_row_major(
            self.dtype.element_of(),
            rows as u64,
            k as u64,
            stride,
            tile,
            self.bk,
            tma_host::TmaSwizzle::Off,
        )
    }

    /// The map of the `m x k` operand A.
    pub fn tensor_map_a(&self, m: usize, k: usize) -> (r: tma_host::TensorMapArgs)
        ensures
            r == self.operand(m as u64, k as u64, self.bm),
    {
        self.operand_of(m, k, self.bm)
    }

    /// The map of the `n x k` operand B.
    pub fn tensor_map_b(&self, n: usize, k: usize) -> (r: tma_host::TensorMapArgs)
        ensures
            r == self.operand(n as u64, k as u64, self.bn),
    {
        self.operand_of(n, k, self.bn)
    }
}

/// The configurations that the generator of the kernels has for an input type: one whose blocks run
/// alone, one whose blocks run in clusters, and the number of results from which on it takes the
/// latter.
#[derive(Clone, Copy, Debug)]
pub struct Regime {
    pub alone: WgmmaCfg,
    pub clustered: WgmmaCfg,
    pub cluster_min_output_elems: usize,
}

impl Regime {
    /// Both configurations are of the input type, with a tile and a cluster.
    pub open spec fn wf(self, dtype: WgmmaDtype) -> bool {
        &&& self.alone.wf()
        &&& self.clustered.wf()
        &&& self.alone.dtype == dtype
        &&& self.clustered.dtype == dtype
    }

    /// The configuration of an `m x n` product.
    pub open spec fn of(self, m: nat, n: nat) -> WgmmaCfg {
        if m * n >= self.cluster_min_output_elems {
            self.clustered
        } else {
            self.alone
        }
    }

    /// See [`Regime::of`].
    fn cfg_for(&self, m: usize, n: usize) -> (r: WgmmaCfg)
        ensures
            r == self.of(m as nat, n as nat),
    {
        proof {
            assert(m * n <= 0xffff_ffff_ffff_ffff * 0xffff_ffff_ffff_ffff) by (nonlinear_arith)
                requires
                    0 <= m <= 0xffff_ffff_ffff_ffff,
                    0 <= n <= 0xffff_ffff_ffff_ffff,
            ;
        }
        if m as u128 * n as u128 >= self.cluster_min_output_elems as u128 {
            self.clustered
        } else {
            self.alone
        }
    }
}

/// What the generator ships, for both input types.
#[derive(Clone, Copy, Debug)]
pub struct Shipped {
    pub half: Regime,
    pub brain: Regime,
}

impl Shipped {
    pub open spec fn wf(self) -> bool {
        &&& self.half.wf(WgmmaDtype::F16)
        &&& self.brain.wf(WgmmaDtype::Bf16)
    }

    /// The configurations of an input type.
    pub open spec fn regime(self, dtype: WgmmaDtype) -> Regime {
        match dtype {
            WgmmaDtype::F16 => self.half,
            WgmmaDtype::Bf16 => self.brain,
        }
    }
}

/// The configuration of an `m x n` product of an input type: the one that the generator has for it.
pub fn wgmma_cfg_for(shipped: &Shipped, dtype: WgmmaDtype, m: usize, n: usize) -> (r: WgmmaCfg)
    ensures
        r == shipped.regime(dtype).of(m as nat, n as nat),
        shipped.wf() ==> r.wf() && r.dtype == dtype,
{
    match dtype {
        WgmmaDtype::F16 => shipped.half.cfg_for(m, n),
        WgmmaDtype::Bf16 => shipped.brain.cfg_for(m, n),
    }
}

/// There are no partial clusters: along each axis the tiles are a whole number of groups, they cover
/// the extent, and with a group less they would not.
pub proof fn law_tiles_are_whole_groups(extent: nat, tile: nat, group: nat)
    requires
        tile > 0,
        group > 0,
    ensures
        tiles(extent, tile, group) % group == 0,
        tiles(extent, tile, group) * tile >= extent,
        extent > 0 ==> tiles(extent, tile, group) >= group,
        extent > 0 ==> (tiles(extent, tile, group) - group) * tile < extent,
{
    let e = extent + tile - 1;
    let c = e / tile as int;
    assert(c * tile <= e < c * tile + tile && c >= 0) by (nonlinear_arith)
        requires
            c == e / tile as int,
            e >= 0,
            tile > 0,
    ;
    let d = c + group - 1;
    let q = d / group as int;
    assert(q * group <= d < q * group + group && q >= 0) by (nonlinear_arith)
        requires
            q == d / group as int,
            d >= 0,
            group > 0,
    ;
    let t = q * group;
    assert(t >= 0 && t % (group as int) == 0) by (nonlinear_arith)
        requires
            t == q * group,
            q >= 0,
            group > 0,
    ;
    assert(t * tile >= c * tile) by (nonlinear_arith)
        requires
            t >= c,
            tile > 0,
    ;
    if extent > 0 {
        assert(c >= 1) by (nonlinear_arith)
            requires
                e < c * tile + tile,
                e >= tile,
                tile > 0,
        ;
        assert(t >= group) by (nonlinear_arith)
            requires
                t == q * group,
                d < q * group + group,
                d >= group,
                group > 0,
        ;
        assert((t - group) * tile <= (c - 1) * tile) by (nonlinear_arith)
            requires
                t - group <= c - 1,
                tile > 0,
        ;
        assert((c - 1) * tile == c * tile - tile) by (nonlinear_arith);
    }
}

} // verus!
