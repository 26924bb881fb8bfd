//! Which kernel family a recognized call is sent to, and what is counted of it.
use vstd::prelude::*;
use vstd::string::*;

use crate::operand_range;
use crate::ptx_wmma::act;
use crate::text;
use crate::tma_host;
use crate::wgmma;

verus! {

/// Which GEMM family a recognized `C = A·Bᵀ` is sent to.
#[derive(Clone, Copy, Debug, PartialEq, Eq, Structural)]
pub enum GemmRoute {
    /// The launcher that is correct on every device.
    Existing,
    /// The warpgroup-MMA family, on Hopper only.
    Wgmma,
}

/// The route that a device is eligible for: see [`gemm_route_for`].
pub open spec fn eligible(cc: (i32, i32), wgmma_off: bool) -> GemmRoute {
    if !wgmma_off && cc.0 == 9 {
        GemmRoute::Wgmma
    } else {
        GemmRoute::Existing
    }
}

/// The route that a device of compute capability `cc` is eligible for. `sm_90a` is an architecture
/// lock, not a lower bound: only major version 9 runs it. `wgmma_off` forces the existing route.
pub fn gemm_route_for(cc: (i32, i32), wgmma_off: bool) -> (r: GemmRoute)
    ensures
        r == eligible(cc, wgmma_off),
{
    if wgmma_off || cc.0 != 9 {
        return GemmRoute::Existing;
    }
    GemmRoute::Wgmma
}

/// Whether a device of compute capability `cc` can load an `sm_90a` module.
pub open spec fn licensed(cc: (i32, i32)) -> bool {
    cc.0 == 9
}

/// See [`licensed`].
pub fn sm90a_licensed(cc: (i32, i32)) -> (r: bool)
    ensures
        r == licensed(cc),
{
    cc.0 == 9
}

/// The route is never ahead of the license: without the switch, the warpgroup family is chosen
/// exactly for the devices that can load its modules, and with it for none.
pub proof fn law_route_is_licensed(cc: (i32, i32))
    ensures
        eligible(cc, false) == GemmRoute::Wgmma <==> licensed(cc),
        eligible(cc, true) == GemmRoute::Existing,
{
}

/// The route that ran, from the counts of both: see [`gemm_route_taken_from`].
pub open spec fn taken(wgmma_calls: u32, existing_calls: u32) -> Option<GemmRoute> {
    if wgmma_calls > 0 {
        Some(GemmRoute::Wgmma)
    } else if existing_calls > 0 {
        Some(GemmRoute::Existing)
    } else {
        None
    }
}

/// The route that ran, from the counts of both. One warpgroup call is enough to round the inputs,
/// so a mixed run counts as that route; no call at all is no witness of either.
pub fn gemm_route_taken_from(wgmma_calls: u32, existing_calls: u32) -> (r: Option<GemmRoute>)
    ensures
        r == taken(wgmma_calls, existing_calls),
{
    if wgmma_calls > 0 {
        Some(GemmRoute::Wgmma)
    } else if existing_calls > 0 {
        Some(GemmRoute::Existing)
    } else {
        None
    }
}

/// Whether the device has an entry for the norm `op`: softmax, layernorm and rmsnorm.
pub fn norm_supported(op: i64) -> (r: bool)
    ensures
        r == (0 <= op <= 2),
{
    0 <= op && op <= 2
}

/// The largest grid along x.
pub const MAX_GRID_X: u32 = 2147483647;

/// The largest grid along y and z.
pub const MAX_GRID_YZ: u32 = 65_535;

/// The input type to which the `f32` operands of a product are rounded.
pub open spec fn seam_dtype() -> wgmma::WgmmaDtype {
    wgmma::WgmmaDtype::F16
}

/// See [`seam_dtype`].
pub fn wgmma_f32_seam_dtype() -> (r: wgmma::WgmmaDtype)
    ensures
        r == seam_dtype(),
{
    wgmma::WgmmaDtype::F16
}

pub const ODD_N: &'static str =
    "#0's v2 epilogue needs an EVEN N and N=#1 is odd (st.global.v2.f32 would be misaligned on every row, a sticky context error rather than a wrong answer)";

pub const DIAGNOSTIC: &'static str =
    "#0 is the elided-store DIAGNOSTIC arm: it writes no C and would return zeros";

pub const INDEX: &'static str =
    "M*N = #0*#1 overflows the u32 element index the epilogue forms with mad.lo.s32";

pub const SHARED_MEMORY: &'static str =
    "#0 needs #1 B of dynamic shared memory, this device grants #2 B";

pub const GRID: &'static str =
    "#0: a #1x#2 output needs a CTA grid of (#3, #4, #5), past CUDA's grid ceiling (2147483647, 65535, 65535) — the launch would be rejected as CUDA_ERROR_INVALID_VALUE, which is an error rather than a fallback";

pub const MAP_A: &'static str = "A[#0x#1] has no encodable tensor map: #2";

pub const MAP_B: &'static str = "B[#0x#1] has no encodable tensor map: #2";

/// Whether CUDA launches such a grid.
pub open spec fn grid_fits(g: (nat, nat, nat)) -> bool {
    g.0 <= MAX_GRID_X && g.1 <= MAX_GRID_YZ && g.2 <= MAX_GRID_YZ
}

/// The blocks of an `m x n` product.
pub open spec fn grid_of(cfg: wgmma::WgmmaCfg, m: nat, n: nat) -> (nat, nat, nat) {
    (
        wgmma::tiles(n, cfg.bn as nat, cfg.cluster.0 as nat),
        wgmma::tiles(m, cfg.bm as nat, cfg.cluster.1 as nat),
        cfg.cluster.2 as nat,
    )
}

/// The reason for which a configuration does not take an `m x k x n` product on a device that
/// grants `smem_budget` bytes of shared memory, if there is one: see [`wgmma_declines`].
pub open spec fn decline(
    cfg: wgmma::WgmmaCfg,
    m: usize,
    k: usize,
    n: usize,
    smem_budget: usize,
) -> Option<Seq<char>> {
    let (dm, dk, dn) = (text::dec(m as nat), text::dec(k as nat), text::dec(n as nat));
    let g = grid_of(cfg, m as nat, n as nat);
    if cfg.epilogue == wgmma::EpilogueStore::V2 && n % 2 != 0 {
        Some(text::fill(ODD_N@, seq![cfg.name@, dn]))
    } else if cfg.epilogue == wgmma::EpilogueStore::Elided {
        Some(text::fill(DIAGNOSTIC@, seq![cfg.name@]))
    } else if m * n > u32::MAX {
        Some(text::fill(INDEX@, seq![dm, dn]))
    } else if cfg.dyn_smem_bytes > smem_budget {
        Some(
            text::fill(
                SHARED_MEMORY@,
                seq![cfg.name@, text::dec(cfg.dyn_smem_bytes as nat), text::dec(smem_budget as nat)],
            ),
        )
    } else if !grid_fits(g) {
        Some(
            text::fill(
                GRID@,
                seq![cfg.name@, dm, dn, text::dec(g.0), text::dec(g.1), text::dec(g.2)],
            ),
        )
    } else {
        match cfg.operand(m as u64, k as u64, cfg.bm).error() {
            Some(e) => Some(text::fill(MAP_A@, seq![dm, dk, e])),
            None => match cfg.operand(n as u64, k as u64, cfg.bn).error() {
                Some(e) => Some(text::fill(MAP_B@, seq![dn, dk, e])),
                None => None,
            },
        }
    }
}

/// Whether the launch of a configuration does all that its kernel needs: see [`wgmma_declines`].
pub open spec fn launchable(
    cfg: wgmma::WgmmaCfg,
    m: usize,
    k: usize,
    n: usize,
    smem_budget: usize,
) -> bool {
    &&& cfg.epilogue == wgmma::EpilogueStore::V2 ==> n % 2 == 0
    &&& cfg.epilogue != wgmma::EpilogueStore::Elided
    &&& m * n <= u32::MAX
    &&& cfg.dyn_smem_bytes <= smem_budget
    &&& grid_fits(grid_of(cfg, m as nat, n as nat))
    &&& cfg.operand(m as u64, k as u64, cfg.bm).encodable()
    &&& cfg.operand(n as u64, k as u64, cfg.bn).encodable()
}

/// Every precondition of the warpgroup launcher, as a reason to fall back: `None` is a product that
/// it may take.
pub fn wgmma_declines(
    cfg: &wgmma::WgmmaCfg,
    m: usize,
    k: usize,
    n: usize,
    smem_budget: usize,
) -> (r: Option<String>)
    requires
        cfg.wf(),
    ensures
        r is Some <==> decline(*cfg, m, k, n, smem_budget) is Some,
        r matches Some(s) ==> decline(*cfg, m, k, n, smem_budget) == Some(s@),
        r is None <==> launchable(*cfg, m, k, n, smem_budget),
{
    proof {
        cfg.operand(m as u64, k as u64, cfg.bm).lemma_error();
        cfg.operand(n as u64, k as u64, cfg.bn).lemma_error();
        assert(m * n <= 0xffff_ffff_ffff_ffff * 0xffff_ffff_ffff_ffff) by (nonlinear_arith)
            requires
                0 <= m <= 0xffff_ffff_ffff_ffff,
                0 <= n <= 0xffff_ffff_ffff_ffff,
        ;
    }
    if cfg.epilogue.requires_even_n() && n % 2 != 0 {
        return Some(text::expand2(ODD_N, cfg.name, &text::decimal(n)));
    }
    if cfg.epilogue.is_diagnostic_only() {
        return Some(text::expand1(DIAGNOSTIC, cfg.name));
    }
    if m as u128 * n as u128 > u32::MAX as u128 {
        return Some(text::expand2(INDEX, &text::decimal(m), &text::decimal(n)));
    }
    let plan = cfg.launch_plan();
    if plan.dyn_smem_bytes > smem_budget {
        return Some(
            text::expand3(
                SHARED_MEMORY,
                cfg.name,
                &text::decimal(plan.dyn_smem_bytes),
                &text::decimal(smem_budget),
            ),
        );
    }
    let grid = plan.grid(m, n);
    if grid.0 > MAX_GRID_X as u128 || grid.1 > MAX_GRID_YZ as u128 || grid.2
        > MAX_GRID_YZ as u128 {
        return Some(
            text::expand6(
                GRID,
                cfg.name,
                &text::decimal(m),
                &text::decimal(n),
                &text::decimal128(grid.0),
                &text::decimal128(grid.1),
                &text::decimal128(grid.2),
            ),
        );
    }
    if let Err(e) = cfg.tensor_map_a(m, k).validate() {
        return Some(text::expand3(MAP_A, &text::decimal(m), &text::decimal(k), &e));
    }
    if let Err(e) = cfg.tensor_map_b(n, k).validate() {
        return Some(text::expand3(MAP_B, &text::decimal(n), &text::decimal(k), &e));
    }
    None
}

/// Which products a configuration with a paired store and a tile that can be encoded takes:
/// raggedness against the tile is no obstacle. What is needed is an even number of columns for the
/// store, rows of K a multiple of 16 bytes apart, extents that can be counted, and a device with the
/// shared memory and the grid for it.
pub proof fn law_shipped_products(
    cfg: wgmma::WgmmaCfg,
    m: usize,
    k: usize,
    n: usize,
    smem_budget: usize,
)
    requires
        cfg.epilogue == wgmma::EpilogueStore::V2,
        1 <= cfg.bm <= tma_host::TMA_MAX_BOX_DIM,
        1 <= cfg.bn <= tma_host::TMA_MAX_BOX_DIM,
        1 <= cfg.bk <= tma_host::TMA_MAX_BOX_DIM,
        cfg.bk % 8 == 0,
    ensures
        launchable(cfg, m, k, n, smem_budget) <==> {
            &&& 1 <= m
            &&& 1 <= n
            &&& 1 <= k <= u32::MAX
            &&& n % 2 == 0
            &&& k % 8 == 0
            &&& m * n <= u32::MAX
            &&& cfg.dyn_smem_bytes <= smem_budget
            &&& grid_fits(grid_of(cfg, m as nat, n as nat))
        },
{
    let e = cfg.dtype.element();
    assert(e.bytes() == 2);
    let off = tma_host::TmaSwizzle::Off;
    let stride = if k * 2 <= u64::MAX {
        k as u64
    } else {
        0
    };
    tma_host::law_encodable_tiles(e, m as u64, k as u64, stride, cfg.bm, cfg.bk, off);
    tma_host::law_encodable_tiles(e, n as u64, k as u64, stride, cfg.bn, cfg.bk, off);
    assert(m >= 1 && n >= 1 ==> m * n >= m && m * n >= n) by (nonlinear_arith);
}

/// Why a product runs on the existing route.
#[derive(Debug)]
pub enum Fallback {
    /// The device is not eligible, or the switch is set.
    NotEligible,
    /// The shape has no launch, for this reason.
    Shape(String),
    /// The operands have not the lengths that the shape says.
    Lengths,
    /// The input type cannot hold an operand.
    Range(operand_range::RangeDecline),
}

/// The first step of a product: a launch of the warpgroup family, or the existing route.
#[derive(Debug)]
pub enum GemmPlan {
    Launch(wgmma::WgmmaCfg),
    Existing(Fallback),
}

/// How a launch of the warpgroup family ended.
#[derive(Clone, Copy, Debug, PartialEq, Eq, Structural)]
pub enum LaunchOutcome {
    /// With a result.
    Done,
    /// The family declined the launch itself.
    Unsupported,
    /// With a failure of the driver.
    Failed,
}

/// What follows a launch.
#[derive(Clone, Copy, Debug, PartialEq, Eq, Structural)]
pub enum AfterLaunch {
    /// Take its result.
    TakeResult,
    /// Run the existing launcher.
    RunExisting,
    /// Report its failure: it is never answered by another kernel.
    Report,
}

/// What the offloading of one run knows of its device and has counted.
#[derive(Clone, Copy, Debug)]
pub struct GpuAccel {
    /// The compute capability of the device.
    pub cc: (i32, i32),
    /// Shared memory that the device grants a block.
    pub smem_budget: usize,
    /// What the generator of the warpgroup kernels ships.
    pub shipped: wgmma::Shipped,
    /// Calls that ran on the device.
    pub calls: u32,
    /// Of these, products that the warpgroup family took.
    pub gemm_wgmma_calls: u32,
    /// Of these, products on the existing route.
    pub gemm_existing_calls: u32,
}

/// Whether `plan` is the first step of the product of `a` and `b` on this device.
pub open spec fn planned(
    accel: GpuAccel,
    a: Seq<u32>,
    b: Seq<u32>,
    m: usize,
    k: usize,
    n: usize,
    wgmma_off: bool,
    plan: GemmPlan,
) -> bool {
    let cfg = accel.shipped.regime(seam_dtype()).of(m as nat, n as nat);
    if eligible(accel.cc, wgmma_off) != GemmRoute::Wgmma {
        plan == GemmPlan::Existing(Fallback::NotEligible)
    } else if decline(cfg, m, k, n, accel.smem_budget) is Some {
        plan matches GemmPlan::Existing(Fallback::Shape(why)) && Some(why@) == decline(
            cfg,
            m,
            k,
            n,
            accel.smem_budget,
        )
    } else if a.len() != m * k || b.len() != n * k {
        plan == GemmPlan::Existing(Fallback::Lengths)
    } else {
        match operand_range::range_decline(seam_dtype(), a, b, k as nat) {
            Some(d) => plan == GemmPlan::Existing(Fallback::Range(d)),
            None => plan == GemmPlan::Launch(cfg),
        }
    }
}

impl GpuAccel {
    /// The two routes are part of all calls.
    pub open spec fn wf(self) -> bool {
        self.gemm_wgmma_calls + self.gemm_existing_calls <= self.calls
    }

    /// Nothing counted yet.
    pub fn new(cc: (i32, i32), smem_budget: usize, shipped: wgmma::Shipped) -> (r: GpuAccel)
        ensures
            r.wf(),
            r == (GpuAccel {
                cc,
                smem_budget,
                shipped,
                calls: 0,
                gemm_wgmma_calls: 0,
                gemm_existing_calls: 0,
            }),
    {
        GpuAccel {
            cc,
            smem_budget,
            shipped,
            calls: 0,
            gemm_wgmma_calls: 0,
            gemm_existing_calls: 0,
        }
    }

    /// The route that the device is eligible for. What ran is [`GpuAccel::gemm_route_taken`].
    pub fn gemm_route(&self, wgmma_off: bool) -> (r: GemmRoute)
        ensures
            r == eligible(self.cc, wgmma_off),
    {
        gemm_route_for(self.cc, wgmma_off)
    }

    /// The route that ran, or `None` where no product was offloaded.
    pub fn gemm_route_taken(&self) -> (r: Option<GemmRoute>)
        ensures
            r == taken(self.gemm_wgmma_calls, self.gemm_existing_calls),
    {
        gemm_route_taken_from(self.gemm_wgmma_calls, self.gemm_existing_calls)
    }

    /// The first step of the product `C = A·Bᵀ` of an `m x k` and an `n x k` operand, given by the
    /// bits of their elements.
    pub fn plan_gemm(
        &self,
        a: &[u32],
        b: &[u32],
        m: usize,
        k: usize,
        n: usize,
        wgmma_off: bool,
    ) -> (r: GemmPlan)
        requires
            self.shipped.wf(),
        ensures
            planned(*self, a@, b@, m, k, n, wgmma_off, r),
    {
        if self.gemm_route(wgmma_off) != GemmRoute::Wgmma {
            return GemmPlan::Existing(Fallback::NotEligible);
        }
        let dtype = wgmma_f32_seam_dtype();
        let cfg = wgmma::wgmma_cfg_for(&self.shipped, dtype, m, n);
        if let Some(why) = wgmma_declines(&cfg, m, k, n, self.smem_budget) {
            return GemmPlan::Existing(Fallback::Shape(why));
        }
        proof {
            assert(m * k <= 0xffff_ffff_ffff_ffff * 0xffff_ffff_ffff_ffff && n * k
                <= 0xffff_ffff_ffff_ffff * 0xffff_ffff_ffff_ffff) by (nonlinear_arith)
                requires
                    0 <= m <= 0xffff_ffff_ffff_ffff,
                    0 <= n <= 0xffff_ffff_ffff_ffff,
                    0 <= k <= 0xffff_ffff_ffff_ffff,
            ;
        }
        if a.len() as u128 != m as u128 * k as u128 || b.len() as u128 != n as u128 * k as u128 {
            return GemmPlan::Existing(Fallback::Lengths);
        }
        if let Some(why) = operand_range::wgmma_declines_operand_range(cfg.dtype, a, b, k) {
            return GemmPlan::Existing(Fallback::Range(why));
        }
        GemmPlan::Launch(cfg)
    }

    /// What follows a launch of the warpgroup family. It is counted as that family's unless the
    /// family declined it.
    pub fn after_launch(&mut self, outcome: LaunchOutcome) -> (r: AfterLaunch)
        requires
            old(self).wf(),
            old(self).calls < u32::MAX,
        ensures
            final(self).wf(),
            r == (match outcome {
                LaunchOutcome::Done => AfterLaunch::TakeResult,
                LaunchOutcome::Unsupported => AfterLaunch::RunExisting,
                LaunchOutcome::Failed => AfterLaunch::Report,
            }),
            *final(self) == (if outcome == LaunchOutcome::Unsupported {
                *old(self)
            } else {
                GpuAccel {
                    calls: (old(self).calls + 1) as u32,
                    gemm_wgmma_calls: (old(self).gemm_wgmma_calls + 1) as u32,
                    ..*old(self)
                }
            }),
    {
        match outcome {
            LaunchOutcome::Done => {
                self.calls = self.calls + 1;
                self.gemm_wgmma_calls = self.gemm_wgmma_calls + 1;
                AfterLaunch::TakeResult
            },
            LaunchOutcome::Unsupported => AfterLaunch::RunExisting,
            LaunchOutcome::Failed => {
                self.calls = self.calls + 1;
                self.gemm_wgmma_calls = self.gemm_wgmma_calls + 1;
                AfterLaunch::Report
            },
        }
    }

    /// A product on the existing route.
    pub fn count_existing(&mut self)
        requires
            old(self).wf(),
            old(self).calls < u32::MAX,
        ensures
            final(self).wf(),
            *final(self) == (GpuAccel {
                calls: (old(self).calls + 1) as u32,
                gemm_existing_calls: (old(self).gemm_existing_calls + 1) as u32,
                ..*old(self)
            }),
    {
        self.calls = self.calls + 1;
        self.gemm_existing_calls = self.gemm_existing_calls + 1;
    }

    /// A call of another family. One that the device does not support is declined and not counted.
    pub fn offload(&mut self, supported: bool) -> (r: bool)
        requires
            old(self).wf(),
            old(self).calls < u32::MAX,
        ensures
            final(self).wf(),
            r == supported,
            *final(self) == (if supported {
                GpuAccel { calls: (old(self).calls + 1) as u32, ..*old(self) }
            } else {
                *old(self)
            }),
    {
        if supported {
            self.calls = self.calls + 1;
        }
        supported
    }
}

/// The counts are a witness of what ran: a product of the warpgroup family shows from then on, one
/// on the existing route shows where there was none of that family, and a run without products
/// shows neither.
pub proof fn law_witness(wgmma_calls: u32, existing_calls: u32)
    requires
        wgmma_calls < u32::MAX,
        existing_calls < u32::MAX,
    ensures
        taken((wgmma_calls + 1) as u32, existing_calls) == Some(GemmRoute::Wgmma),
        taken(wgmma_calls, (existing_calls + 1) as u32) == (if taken(wgmma_calls, existing_calls)
            == Some(GemmRoute::Wgmma) {
            Some(GemmRoute::Wgmma)
        } else {
            Some(GemmRoute::Existing)
        }),
        taken(wgmma_calls, existing_calls) is None <==> wgmma_calls == 0 && existing_calls == 0,
{
}

/// A fused epilogue kernel: the activation, with or without a bias.
#[derive(Clone, Copy, PartialEq, Eq, Structural)]
pub struct FusedKernel {
    pub bias: bool,
    pub act: act::Act,
}

/// The activation of a code, if it is one.
pub open spec fn act_of_code(code: i64) -> Option<act::Act> {
    if code == 0 {
        Some(act::Act::Identity)
    } else if code == 1 {
        Some(act::Act::Relu)
    } else if code == 2 {
        Some(act::Act::Gelu)
    } else if code == 3 {
        Some(act::Act::Silu)
    } else {
        None
    }
}

/// Whether the code of an activation is this number: 0 is none, 1 is ReLU, 2 is GELU, 3 is SiLU.
pub open spec fn numbered(code: i64, a: act::Act) -> bool {
    &&& code == 0 <==> a == act::Act::Identity
    &&& code == 1 <==> a == act::Act::Relu
    &&& code == 2 <==> a == act::Act::Gelu
    &&& code == 3 <==> a == act::Act::Silu
}

/// The fused kernel for `act(A·Bᵀ [+ bias])`: see [`fused_epilogue`].
pub open spec fn fused(m: nat, k: nat, n: nat, beta: i64, bias: bool, code: i64) -> Option<
    FusedKernel,
> {
    if beta != 0 || m % 64 != 0 || n % 64 != 0 || k % 16 != 0 {
        None
    } else {
        match act_of_code(code) {
            Some(a) => if !bias && a == act::Act::Identity {
                None
            } else {
                Some(FusedKernel { bias, act: a })
            },
            None => None,
        }
    }
}

/// The fused kernel for `act(A·Bᵀ [+ bias])`, where the shape is whole tiles and the result
/// overwrites C. Without a bias and an activation there is nothing to fuse.
pub fn fused_epilogue(m: usize, k: usize, n: usize, beta: i64, bias: bool, code: i64) -> (r: Option<
    FusedKernel,
>)
    ensures
        r == fused(m as nat, k as nat, n as nat, beta, bias, code),
        r is Some <==> beta == 0 && m % 64 == 0 && n % 64 == 0 && k % 16 == 0 && 0 <= code <= 3 && (
        bias || code != 0),
        r matches Some(kernel) ==> kernel.bias == bias && numbered(code, kernel.act),
{
    if beta != 0 || m % 64 != 0 || n % 64 != 0 || k % 16 != 0 {
        return None;
    }
    match code {
        0 => if bias {
            Some(FusedKernel { bias, act: act::Act::Identity })
        } else {
            None
        },
        1 => Some(FusedKernel { bias, act: act::Act::Relu }),
        2 => Some(FusedKernel { bias, act: act::Act::Gelu }),
        3 => Some(FusedKernel { bias, act: act::Act::Silu }),
        _ => None,
    }
}

/// A fused kernel computes what its call asks for: it is chosen exactly where C is overwritten, the
/// shape is whole tiles of 64 x 64 in steps of 16, the code is that of an activation, and there is
/// something to fuse. It adds a bias exactly where the call has one, and its activation is the
/// one that the code of the call stands for.
pub proof fn law_a_fused_kernel_is_that_of_its_call(
    m: nat,
    k: nat,
    n: nat,
    beta: i64,
    bias: bool,
    code: i64,
)
    ensures
        fused(m, k, n, beta, bias, code) is Some <==> {
            &&& beta == 0
            &&& m % 64 == 0
            &&& n % 64 == 0
            &&& k % 16 == 0
            &&& 0 <= code <= 3
            &&& bias || code != 0
        },
        fused(m, k, n, beta, bias, code) matches Some(kernel) ==> {
            &&& kernel.bias == bias
            &&& numbered(code, kernel.act)
        },
{
}

/// Calls that differ in their bias or in their code are given different kernels, and a kernel does
/// not depend on how large the shape is: two calls that are both fused have the same kernel exactly
/// where they have the same code and both or neither have a bias.
pub proof fn law_fused_kernels_tell_calls_apart(
    m: nat,
    k: nat,
    n: nat,
    bias: bool,
    code: i64,
    m2: nat,
    k2: nat,
    n2: nat,
    bias2: bool,
    code2: i64,
)
    requires
        fused(m, k, n, 0, bias, code) is Some,
        fused(m2, k2, n2, 0, bias2, code2) is Some,
    ensures
        fused(m, k, n, 0, bias, code) == fused(m2, k2, n2, 0, bias2, code2) <==> bias == bias2
            && code == code2,
{
}

/// What is launched can be: the device is of the one generation that runs it, nothing forbids the
/// family, the operands have a number for each element, none is out of range, and the kernel is one
/// that the generator has for the type to which the operands are rounded, in the regime of the
/// shape. Nothing else keeps a product from being launched.
pub proof fn law_what_is_launched(
    accel: GpuAccel,
    a: Seq<u32>,
    b: Seq<u32>,
    m: usize,
    k: usize,
    n: usize,
    wgmma_off: bool,
    cfg: wgmma::WgmmaCfg,
    plan: GemmPlan,
)
    requires
        planned(accel, a, b, m, k, n, wgmma_off, plan),
        accel.shipped.wf(),
    ensures
        plan == GemmPlan::Launch(cfg) ==> {
            &&& cfg == accel.shipped.half.alone || cfg == accel.shipped.half.clustered
            &&& cfg.dtype == wgmma::WgmmaDtype::F16
            &&& m * n >= accel.shipped.half.cluster_min_output_elems ==> cfg
                == accel.shipped.half.clustered
            &&& m * n < accel.shipped.half.cluster_min_output_elems ==> cfg
                == accel.shipped.half.alone
        },
        plan is Launch <==> {
            &&& accel.cc.0 == 9
            &&& !wgmma_off
            &&& a.len() == m * k
            &&& b.len() == n * k
            &&& launchable(
                accel.shipped.half.of(m as nat, n as nat),
                m,
                k,
                n,
                accel.smem_budget,
            )
            &&& operand_range::range_decline(wgmma::WgmmaDtype::F16, a, b, k as nat) is None
        },
{
    let cfg = accel.shipped.half.of(m as nat, n as nat);
    cfg.operand(m as u64, k as u64, cfg.bm).lemma_error();
    cfg.operand(n as u64, k as u64, cfg.bn).lemma_error();
}

/// The blocks of a grid cover the product: every element lies in the tile of a block of the grid,
/// columns along x and rows along y, and along each axis the blocks are whole clusters with none to
/// spare.
pub proof fn law_the_grid_covers_the_product(
    cfg: wgmma::WgmmaCfg,
    m: nat,
    n: nat,
    r: nat,
    c: nat,
)
    requires
        cfg.wf(),
        r < m,
        c < n,
    ensures
        (r / cfg.bm as nat) < grid_of(cfg, m, n).1,
        (c / cfg.bn as nat) < grid_of(cfg, m, n).0,
        grid_of(cfg, m, n).0 % (cfg.cluster.0 as nat) == 0,
        grid_of(cfg, m, n).1 % (cfg.cluster.1 as nat) == 0,
        grid_of(cfg, m, n).2 == cfg.cluster.2,
        (grid_of(cfg, m, n).0 - cfg.cluster.0) * cfg.bn < n,
        (grid_of(cfg, m, n).1 - cfg.cluster.1) * cfg.bm < m,
{
    wgmma::law_tiles_are_whole_groups(n, cfg.bn as nat, cfg.cluster.0 as nat);
    wgmma::law_tiles_are_whole_groups(m, cfg.bm as nat, cfg.cluster.1 as nat);
    let (x, y, bm, bn) = (
        grid_of(cfg, m, n).0 as int,
        grid_of(cfg, m, n).1 as int,
        cfg.bm as int,
        cfg.bn as int,
    );
    assert((r as int) / bm < y) by (nonlinear_arith)
        requires
            r < m,
            y * bm >= m,
            bm > 0,
    ;
    assert((c as int) / bn < x) by (nonlinear_arith)
        requires
            c < n,
            x * bn >= n,
            bn > 0,
    ;
}

} // verus!
