//! The modules that a device loads: each a header and the entries it can dispatch to.
use vstd::arithmetic::power2::*;
use vstd::prelude::*;
use vstd::string::*;

use crate::ptx_wmma::act;
use crate::ptx_wmma::mma;
use crate::ptx_wmma::mma_gate;
use crate::ptx_wmma::mma_pipe;
use crate::ptx_wmma::parts;
use crate::ptx_wmma::plain;
use crate::ptx_wmma::roofline;
use crate::ptx_wmma::smem;
use crate::ptx_wmma::smem_db;
use crate::ptx_wmma::smem_pipe;
use crate::ptx_wmma::tables;
use crate::smem_mode;
use crate::text;

verus! {

/// The header of a module for every device from `sm_80` on.
pub const HDR_SM80: &'static str = ".version 7.8
.target sm_80
.address_size 64
";

/// The declaration of the window onto the shared memory that is granted at launch.
pub const DSMEM_DECL: &'static str = ".extern .shared .align 16 .b8 wk_dsmem[];
";

/// The block of the small shared-memory kernel: 64 by 64 results, two by two warps.
pub const SM_BM: usize = 64;

pub const SM_BN: usize = 64;

pub const SM_WARPS_M: usize = 2;

pub const SM_WARPS_N: usize = 2;

pub const SM_THREADS: usize = SM_WARPS_M * SM_WARPS_N * 32;

/// The block of the large shared-memory kernel: 128 by 128 results, two by four warps.
pub const SM128_BM: usize = 128;

pub const SM128_BN: usize = 128;

pub const SM128_WARPS_M: usize = 2;

pub const SM128_WARPS_N: usize = 4;

pub const SM128_THREADS: usize = SM128_WARPS_M * SM128_WARPS_N * 32;

/// Tiles per warp of the multi-tile kernel.
pub const TM_TILES: usize = 2;

pub const TN_TILES: usize = 4;

/// Results per warp of the multi-tile kernel, which requires M and N to be multiples of them.
pub const WARP_M: usize = 16 * TM_TILES;

pub const WARP_N: usize = 16 * TN_TILES;

/// The powers of two that the tables use.
proof fn lemma_powers()
    ensures
        is_pow2(2),
        is_pow2(4),
        is_pow2(64),
        is_pow2(128),
        is_pow2(256),
        is_pow2(2048),
        is_pow2(4096),
{
    reveal_with_fuel(is_pow2, 13);
}

/// The geometries of the tables: legal, and with these sizes.
proof fn lemma_geometry(s: mma::MmaShape)
    requires
        s.bk == 32,
        s.warps_m == 2,
        s.warps_n == 2 || s.warps_n == 4,
        s.bm == 128 || s.bm == 256,
        s.bn == 64 || s.bn == 128 || s.bn == 256,
        s.stages >= 2,
        s.pad == 0 || s.pad == 8,
        s.swz || s.pad == 8,
    ensures
        s.legal(),
        s.bm == 128 && s.swz ==> s.smem_a() == s.stages * 8192,
        s.bm == 128 && !s.swz ==> s.smem_a() == s.stages * 10240,
        s.bm == 256 && s.swz ==> s.smem_a() == s.stages * 16384,
        s.bn == 64 && s.swz ==> s.smem_b() == s.stages * 4096,
        s.bn == 64 && !s.swz ==> s.smem_b() == s.stages * 5120,
        s.bn == 128 && s.swz ==> s.smem_b() == s.stages * 8192,
        s.bn == 128 && !s.swz ==> s.smem_b() == s.stages * 10240,
        s.bn == 256 && s.swz ==> s.smem_b() == s.stages * 16384,
{
    lemma_powers();
    let (bm, bn, wn) = (s.bm as nat, s.bn as nat, s.warps_n as nat);
    let ldp = s.ldp();
    assert(bm * ldp == (if bm == 128 { 128 * ldp } else { 256 * ldp })) by (nonlinear_arith)
        requires
            bm == 128 || bm == 256,
    ;
    assert(bn * ldp == (if bn == 64 { 64 * ldp } else if bn == 128 { 128 * ldp } else { 256 * ldp }))
        by (nonlinear_arith)
        requires
            bn == 64 || bn == 128 || bn == 256,
    ;
    assert(bm * 32 % (wn * 512) == 0 && bn * 32 % (wn * 512) == 0) by (nonlinear_arith)
        requires
            wn == 2 || wn == 4,
            bm == 128 || bm == 256,
            bn == 64 || bn == 128 || bn == 256,
    ;
    assert(bm * s.bk as nat == bm * 32 && bn * s.bk as nat == bn * 32) by (nonlinear_arith)
        requires
            s.bk == 32,
    ;
    assert(s.threads() * 8 == wn * 512) by (nonlinear_arith)
        requires
            s.threads() == s.warps_m as nat * wn * 32,
            s.warps_m == 2,
    ;
    assert(bn % (8 * wn) == 0 && (bn / wn) % 8 == 0) by (nonlinear_arith)
        requires
            wn == 2 || wn == 4,
            bn == 64 || bn == 128 || bn == 256,
    ;
    assert(s.bm as nat % (16 * s.warps_m as nat) == 0 && (s.bm / s.warps_m) % 8 == 0)
        by (nonlinear_arith)
        requires
            s.warps_m == 2,
            s.bm == 128 || s.bm == 256,
    ;
}

/// The closed form of a row's shared memory is what its kernel takes, where the row either pads or
/// swizzles.
pub proof fn lemma_bytes(v: tables::CliffCfg)
    requires
        v.swz ==> v.pad == 0,
    ensures
        v.bytes() == v.shape().smem_a() + v.shape().smem_b(),
{
    let (st, bm, bn, l) = (v.stages as nat, v.bm as nat, v.bn as nat, v.shape().ldp());
    assert(st * (bm + bn) * l * 2 == st * (bm * l * 2) + st * (bn * l * 2)) by (nonlinear_arith);
}

/// The bytes of shared memory of a row of the tables.
spec fn row_bytes(v: tables::CliffCfg) -> int {
    if !v.swz {
        v.stages * 20480
    } else if v.bm + v.bn == 256 {
        v.stages * 16384
    } else {
        v.stages * 24576
    }
}

/// A row of the tables: [`fits`] and [`sized`] come down to its number of stages.
proof fn lemma_row(v: tables::CliffCfg, budget: nat)
    requires
        v.bk == 32,
        v.wm == 2,
        v.wn == 2 || v.wn == 4,
        v.bm == 128 || v.bm == 256,
        v.bn == 128 || v.bn == 256,
        v.bm + v.bn <= 384,
        2 <= v.stages <= 7,
        v.swz ==> v.pad == 0,
        !v.swz ==> v.pad == 8 && v.bm == 128 && v.bn == 128,
        row_bytes(v) <= budget <= 0x1000000,
    ensures
        fits(v, budget),
        sized(v),
        v.bytes() == row_bytes(v),
{
    lemma_geometry(v.shape());
    lemma_bytes(v);
    let n = v.bm + v.bn;
    let st = v.stages as int;
    assert(st * n <= 7 * n) by (nonlinear_arith)
        requires
            st <= 7,
            n >= 0,
    ;
}

/// The kernel of a row of an `mma.sync` grid.
pub open spec fn row_text(v: tables::CliffCfg) -> Seq<char> {
    mma_pipe::mma_pipe_text(
        v.name@,
        "f16"@,
        v.shape(),
        (mma_pipe::Epilogue {
            act: act::Act::Identity,
            bias: false,
            residual: false,
            store: v.store,
        }),
        v.min_ctas as nat,
    )
}

/// The kernels of the first `n` rows.
#[verifier::opaque]
pub open spec fn rows_text(rows: Seq<tables::CliffCfg>, n: nat) -> Seq<char>
    decreases n,
{
    if n == 0 {
        Seq::empty()
    } else {
        rows_text(rows, (n - 1) as nat) + row_text(rows[n - 1])
    }
}

/// Whether a row's kernel can be generated within `budget` bytes of shared memory.
pub open spec fn fits(v: tables::CliffCfg, budget: nat) -> bool {
    v.shape().legal() && v.shape().smem_a() + v.shape().smem_b() <= budget
}

/// See [`rows_text`].
fn rows_of(rows: &Vec<tables::CliffCfg>, budget: usize) -> (r: String)
    requires
        forall|i: int| 0 <= i < rows.len() ==> fits(#[trigger] rows[i], budget as nat),
    ensures
        r@ == rows_text(rows@, rows.len() as nat),
{
    reveal(rows_text);
    let mut r = String::new();
    for i in 0..rows.len()
        invariant
            forall|i: int| 0 <= i < rows.len() ==> fits(#[trigger] rows[i], budget as nat),
            r@ == rows_text(rows@, i as nat),
    {
        reveal(rows_text);
        let v = rows[i];
        assert(fits(rows[i as int], budget as nat));
        r.append(
            &mma_pipe::entry_mma_pipe_budget(
                v.name,
                "f16",
                v.bm,
                v.bn,
                v.bk,
                v.wm,
                v.wn,
                v.stages,
                v.raster,
                v.pad,
                act::Act::Identity,
                false,
                false,
                v.swz,
                v.min_ctas,
                v.store,
                budget,
            ),
        );
    }
    r
}

/// Whether some row's kernel gets its shared memory at launch.
pub open spec fn any_dynamic(rows: Seq<tables::CliffCfg>) -> bool {
    exists|i: int|
        0 <= i < rows.len() && (#[trigger] rows[i]).bytes() > smem_mode::STATIC_SMEM_CAP
}

/// Whether the sizes of a row's closed form are small enough to compute.
pub open spec fn sized(v: tables::CliffCfg) -> bool {
    &&& v.bm <= 4096
    &&& v.bn <= 4096
    &&& v.bk <= 4096
    &&& v.pad <= 4096
    &&& v.stages * (v.bm + v.bn) <= 0x10000
    &&& v.bytes() <= 0x1000000
}

/// See [`any_dynamic`].
fn any_dynamic_of(rows: &Vec<tables::CliffCfg>) -> (r: bool)
    requires
        forall|i: int| 0 <= i < rows.len() ==> sized(#[trigger] rows[i]),
    ensures
        r == any_dynamic(rows@),
{
    for i in 0..rows.len()
        invariant
            forall|i: int| 0 <= i < rows.len() ==> sized(#[trigger] rows[i]),
            forall|j: int|
                0 <= j < i ==> (#[trigger] rows[j]).bytes() <= smem_mode::STATIC_SMEM_CAP,
    {
        assert(sized(rows[i as int]));
        if rows[i].smem_mode().is_dynamic() {
            return true;
        }
    }
    false
}

/// Every row of the one-property grid can declare its own shared memory.
pub proof fn lemma_cliff()
    ensures
        forall|i: int|
            0 <= i < tables::cliff_rows().len() ==> fits(#[trigger] tables::cliff_rows()[i], smem_mode::STATIC_SMEM_CAP as nat),
        forall|i: int| 0 <= i < tables::cliff_rows().len() ==> sized(#[trigger] tables::cliff_rows()[i]),
{
    lemma_powers();
    lemma_row(tables::cliff_rows()[0], smem_mode::STATIC_SMEM_CAP as nat);
    lemma_row(tables::cliff_rows()[1], smem_mode::STATIC_SMEM_CAP as nat);
    lemma_row(tables::cliff_rows()[2], smem_mode::STATIC_SMEM_CAP as nat);
    lemma_row(tables::cliff_rows()[3], smem_mode::STATIC_SMEM_CAP as nat);
    lemma_row(tables::cliff_rows()[4], smem_mode::STATIC_SMEM_CAP as nat);
    lemma_row(tables::cliff_rows()[5], smem_mode::STATIC_SMEM_CAP as nat);
    lemma_row(tables::cliff_rows()[6], smem_mode::STATIC_SMEM_CAP as nat);
    lemma_row(tables::cliff_rows()[7], smem_mode::STATIC_SMEM_CAP as nat);
    lemma_row(tables::cliff_rows()[8], smem_mode::STATIC_SMEM_CAP as nat);
    lemma_row(tables::cliff_rows()[9], smem_mode::STATIC_SMEM_CAP as nat);
}

/// Every deep row fits the smallest device.
pub proof fn lemma_deep()
    ensures
        forall|i: int|
            0 <= i < tables::deep_rows().len() ==> fits(#[trigger] tables::deep_rows()[i], tables::DEEP_SMEM_BUDGET as nat),
        forall|i: int| 0 <= i < tables::deep_rows().len() ==> sized(#[trigger] tables::deep_rows()[i]),
{
    lemma_powers();
    lemma_row(tables::deep_rows()[0], tables::DEEP_SMEM_BUDGET as nat);
    lemma_row(tables::deep_rows()[1], tables::DEEP_SMEM_BUDGET as nat);
    lemma_row(tables::deep_rows()[2], tables::DEEP_SMEM_BUDGET as nat);
    lemma_row(tables::deep_rows()[3], tables::DEEP_SMEM_BUDGET as nat);
    lemma_row(tables::deep_rows()[4], tables::DEEP_SMEM_BUDGET as nat);
    lemma_row(tables::deep_rows()[5], tables::DEEP_SMEM_BUDGET as nat);
    lemma_row(tables::deep_rows()[6], tables::DEEP_SMEM_BUDGET as nat);
    lemma_row(tables::deep_rows()[7], tables::DEEP_SMEM_BUDGET as nat);
    lemma_row(tables::deep_rows()[8], tables::DEEP_SMEM_BUDGET as nat);
    lemma_row(tables::deep_rows()[9], tables::DEEP_SMEM_BUDGET as nat);
    lemma_row(tables::deep_rows()[10], tables::DEEP_SMEM_BUDGET as nat);
}

/// Every wide row fits a datacenter device.
pub proof fn lemma_wide()
    ensures
        forall|i: int|
            0 <= i < tables::wide_rows().len() ==> fits(#[trigger] tables::wide_rows()[i], tables::WIDE_SMEM_BUDGET as nat),
        forall|i: int| 0 <= i < tables::wide_rows().len() ==> sized(#[trigger] tables::wide_rows()[i]),
{
    lemma_powers();
    lemma_row(tables::wide_rows()[0], tables::WIDE_SMEM_BUDGET as nat);
    lemma_row(tables::wide_rows()[1], tables::WIDE_SMEM_BUDGET as nat);
    lemma_row(tables::wide_rows()[2], tables::WIDE_SMEM_BUDGET as nat);
    lemma_row(tables::wide_rows()[3], tables::WIDE_SMEM_BUDGET as nat);
}

/// The module of [`gemm_cliff_ptx`].
pub open spec fn gemm_cliff_text() -> Seq<char> {
    HDR_SM80@ + rows_text(tables::cliff_rows(), tables::cliff_rows().len())
}

/// The module of the one-property grid.
pub fn gemm_cliff_ptx() -> (m: String)
    ensures
        m@ == gemm_cliff_text(),
{
    proof {
        lemma_cliff();
    }
    let mut m = String::from_str(HDR_SM80);
    m.append(&rows_of(&tables::cliff_variants(), smem_mode::STATIC_SMEM_CAP));
    m
}

/// The module of [`gemm_deep_ptx`].
pub open spec fn gemm_deep_text() -> Seq<char> {
    HDR_SM80@ + (if any_dynamic(tables::deep_rows()) || any_dynamic(tables::wide_rows()) {
        DSMEM_DECL@
    } else {
        ""@
    }) + rows_text(tables::deep_rows(), tables::deep_rows().len()) + rows_text(
        tables::wide_rows(),
        tables::wide_rows().len(),
    )
}

/// The module of the deep and the wide grid. The window is declared once, ahead of every entry,
/// where some entry needs it.
pub fn gemm_deep_ptx() -> (m: String)
    ensures
        m@ == gemm_deep_text(),
{
    proof {
        lemma_deep();
        lemma_wide();
    }
    let deep = tables::pipe_deep_variants();
    let wide = tables::pipe_wide_variants();
    let window = any_dynamic_of(&deep) || any_dynamic_of(&wide);
    let mut m = String::from_str(HDR_SM80);
    m.append(if window { DSMEM_DECL } else { "" });
    m.append(&rows_of(&deep, tables::DEEP_SMEM_BUDGET));
    m.append(&rows_of(&wide, tables::WIDE_SMEM_BUDGET));
    m
}

/// The two blocks stage their tiles in whole chunks.
proof fn lemma_blocks()
    ensures
        smem::smem_shape(64, 64, 2, 2),
        smem::smem_shape(128, 128, 2, 4),
{
    assert(2nat * 2nat * 32 == 128);
    assert(2nat * 4nat * 32 == 256);
    assert(parts::staged_whole(64, 16, 128)) by (nonlinear_arith);
    assert(parts::staged_whole(128, 16, 256)) by (nonlinear_arith);
}

/// The module of [`wmma_f16_sm_static_ptx`].
pub open spec fn wmma_f16_sm_static_text(m: usize, n: usize, k: usize, use_128: bool) -> Seq<char> {
    HDR_SM80@ + (if use_128 {
        smem::entry_smem_text("wmma_nt_f16_sm128_static"@, "f16"@, 128, 128, 2, 4, Some((m, n, k)))
    } else {
        smem::entry_smem_text("wmma_nt_f16_sm_static"@, "f16"@, 64, 64, 2, 2, Some((m, n, k)))
    })
}

/// The fp16 shared-memory kernel for one problem size, which is compiled into it, in blocks of
/// 128 by 128 or 64 by 64 results.
pub fn wmma_f16_sm_static_ptx(m: usize, n: usize, k: usize, use_128: bool) -> (s: String)
    requires
        use_128 ==> m % SM128_BM == 0 && n % SM128_BN == 0,
        !use_128 ==> m % SM_BM == 0 && n % SM_BN == 0,
        k % smem::SM_BK == 0,
    ensures
        s@ == wmma_f16_sm_static_text(m, n, k, use_128),
{
    proof {
        lemma_blocks();
    }
    let mut s = String::from_str(HDR_SM80);
    let entry = if use_128 {
        smem::entry_smem(
            "wmma_nt_f16_sm128_static",
            "f16",
            SM128_BM,
            SM128_BN,
            SM128_WARPS_M,
            SM128_WARPS_N,
            Some((m, n, k)),
        )
    } else {
        smem::entry_smem(
            "wmma_nt_f16_sm_static",
            "f16",
            SM_BM,
            SM_BN,
            SM_WARPS_M,
            SM_WARPS_N,
            Some((m, n, k)),
        )
    };
    s.append(&entry);
    s
}

/// The entry of [`wmma_f16_sm_static_ptx`].
pub fn wmma_f16_sm_static_entry(use_128: bool) -> (r: &'static str)
    ensures
        r@ == (if use_128 {
            "wmma_nt_f16_sm128_static"@
        } else {
            "wmma_nt_f16_sm_static"@
        }),
{
    if use_128 {
        "wmma_nt_f16_sm128_static"
    } else {
        "wmma_nt_f16_sm_static"
    }
}

/// The module of [`roofline_f16_ptx`].
pub open spec fn roofline_f16_text() -> Seq<char> {
    HDR_SM80@ + roofline::roofline_text()
}

/// The module of the roofline kernel.
pub fn roofline_f16_ptx() -> (m: String)
    ensures
        m@ == roofline_f16_text(),
{
    let mut m = String::from_str(HDR_SM80);
    m.append(&roofline::roofline_entry());
    m
}

/// The name of the entry of a fused bias epilogue behind the name of the plain one.
pub open spec fn bias_suffix(a: act::Act) -> Seq<char> {
    match a {
        act::Act::Identity => "bias"@,
        act::Act::Relu => "bias_relu"@,
        act::Act::Silu => "bias_silu"@,
        act::Act::Gelu => "bias_gelu"@,
    }
}

/// See [`bias_suffix`].
fn bias_suffix_of(a: act::Act) -> (r: &'static str)
    ensures
        r@ == bias_suffix(a),
{
    match a {
        act::Act::Identity => "bias",
        act::Act::Relu => "bias_relu",
        act::Act::Silu => "bias_silu",
        act::Act::Gelu => "bias_gelu",
    }
}

pub const SUFFIXED: &'static str = "#0_#1";

pub const SWIZZLED_SUFFIXED: &'static str = "#0_swz_#1";

/// The 64 by 64 double-buffered kernel of element type `ty`.
pub open spec fn db_text(
    name: Seq<char>,
    ty: Seq<char>,
    a: act::Act,
    bias: bool,
    residual: bool,
) -> Seq<char> {
    smem_db::entry_smem_db_text(name, ty, 64, 64, 2, 2, a, bias, residual)
}

/// See [`db_text`].
fn db_of(name: &str, ty: &str, a: act::Act, bias: bool, residual: bool) -> (r: String)
    requires
        residual ==> a == act::Act::Identity && !bias,
    ensures
        r@ == db_text(name@, ty@, a, bias, residual),
{
    proof {
        lemma_powers();
    }
    smem_db::entry_smem_db(
        name,
        ty,
        SM_BM,
        SM_BN,
        SM_WARPS_M,
        SM_WARPS_N,
        a,
        bias,
        residual,
    )
}

pub const DB_NAME: &'static str = "wmma_nt_#0_sm_db_#1";

/// The double-buffered kernels with an activation, and those with a bias.
pub open spec fn db_family(ty: Seq<char>) -> Seq<char> {
    db_text(text::fill(DB_NAME@, seq![ty, "relu"@]), ty, act::Act::Relu, false, false) + db_text(
        text::fill(DB_NAME@, seq![ty, "silu"@]),
        ty,
        act::Act::Silu,
        false,
        false,
    ) + db_text(text::fill(DB_NAME@, seq![ty, "gelu"@]), ty, act::Act::Gelu, false, false)
        + db_bias_text(ty, act::Act::Identity) + db_bias_text(ty, act::Act::Relu) + db_bias_text(
        ty,
        act::Act::Silu,
    ) + db_bias_text(ty, act::Act::Gelu)
}

/// The double-buffered kernel with a bias and an activation.
pub open spec fn db_bias_text(ty: Seq<char>, a: act::Act) -> Seq<char> {
    db_text(text::fill(DB_NAME@, seq![ty, bias_suffix(a)]), ty, a, true, false)
}

/// See [`db_bias_text`].
fn db_bias_of(ty: &str, a: act::Act) -> (r: String)
    ensures
        r@ == db_bias_text(ty@, a),
{
    db_of(&text::expand2(DB_NAME, ty, bias_suffix_of(a)), ty, a, true, false)
}

/// See [`db_family`].
fn db_family_of(ty: &str) -> (r: String)
    ensures
        r@ == db_family(ty@),
{
    let mut r = db_of(&text::expand2(DB_NAME, ty, "relu"), ty, act::Act::Relu, false, false);
    r.append(&db_of(&text::expand2(DB_NAME, ty, "silu"), ty, act::Act::Silu, false, false));
    r.append(&db_of(&text::expand2(DB_NAME, ty, "gelu"), ty, act::Act::Gelu, false, false));
    r.append(&db_bias_of(ty, act::Act::Identity));
    r.append(&db_bias_of(ty, act::Act::Relu));
    r.append(&db_bias_of(ty, act::Act::Silu));
    r.append(&db_bias_of(ty, act::Act::Gelu));
    r
}

/// A WMMA pipeline of the table, under a name and with an epilogue.
pub open spec fn pipe_text(
    v: tables::PipeCfg,
    name: Seq<char>,
    a: act::Act,
    bias: bool,
    residual: bool,
) -> Seq<char> {
    smem_pipe::entry_smem_pipe_text(
        name,
        "f16"@,
        v.bm as nat,
        v.bn as nat,
        v.bk as nat,
        v.wm as nat,
        v.wn as nat,
        v.stages as nat,
        v.raster as nat,
        a,
        bias,
        residual,
    )
}

/// The small WMMA pipeline has a legal shape with every epilogue, the medium one without.
proof fn lemma_pipes(a: act::Act, bias: bool, residual: bool)
    requires
        residual ==> a == act::Act::Identity,
    ensures
        smem_pipe::smem_pipe_shape(64, 64, 16, 2, 2, 6, 0, a, bias, residual),
        !bias ==> smem_pipe::smem_pipe_shape(128, 128, 16, 2, 4, 4, 0, a, bias, residual),
{
    lemma_powers();
    assert(2nat * 2nat * 32 == 128);
    assert(2nat * 4nat * 32 == 256);
    assert(parts::staged_whole(64, 16, 128)) by (nonlinear_arith);
    assert(parts::staged_whole(128, 16, 256)) by (nonlinear_arith);
    assert(6nat * (64nat * 16nat * 2) == 12288);
    assert(4nat * (128nat * 16nat * 2) == 16384);
}

/// See [`pipe_text`].
fn pipe_of(v: tables::PipeCfg, name: &str, a: act::Act, bias: bool, residual: bool) -> (r: String)
    requires
        v == tables::pipe_rows()[0] || v == tables::pipe_rows()[1] && !bias,
        residual ==> a == act::Act::Identity,
    ensures
        r@ == pipe_text(v, name@, a, bias, residual),
{
    proof {
        lemma_pipes(a, bias, residual);
    }
    smem_pipe::entry_smem_pipe(
        name,
        "f16",
        v.bm,
        v.bn,
        v.bk,
        v.wm,
        v.wn,
        v.stages,
        v.raster,
        a,
        bias,
        residual,
    )
}

/// An `mma.sync` kernel of the tile of `v`, under a name and with another warp grid, row layout or
/// epilogue.
pub open spec fn twin_text(
    v: tables::PipeCfg,
    name: Seq<char>,
    ty: Seq<char>,
    wm: usize,
    wn: usize,
    pad: usize,
    swz: bool,
    a: act::Act,
    bias: bool,
    residual: bool,
) -> Seq<char> {
    mma_pipe::mma_pipe_text(
        name,
        ty,
        v.shape(wm, wn, pad, swz),
        (mma_pipe::Epilogue { act: a, bias, residual, store: act::Store::Scalar }),
        0,
    )
}

/// The tile that the large products of both element types use.
pub open spec fn workhorse(v: tables::PipeCfg) -> bool {
    &&& v.bm == 128
    &&& v.bn == 128
    &&& v.bk == 32
    &&& v.wm == 2
    &&& v.wn == 4
    &&& v.stages == 2
    &&& v.raster == 16
    &&& v.pad == 8
}

/// See [`twin_text`].
fn twin_of(
    v: tables::PipeCfg,
    name: &str,
    ty: &str,
    wm: usize,
    wn: usize,
    pad: usize,
    swz: bool,
    a: act::Act,
    bias: bool,
    residual: bool,
) -> (r: String)
    requires
        workhorse(v),
        wm == 2,
        wn == 2 || wn == 4,
        pad == 0 || pad == 8,
        swz || pad == 8,
    ensures
        r@ == twin_text(v, name@, ty@, wm, wn, pad, swz, a, bias, residual),
{
    proof {
        lemma_geometry(v.shape(wm, wn, pad, swz));
    }
    mma_pipe::entry_mma_pipe(
        name,
        ty,
        v.bm,
        v.bn,
        v.bk,
        wm,
        wn,
        v.stages,
        v.raster,
        pad,
        a,
        bias,
        residual,
        swz,
        0,
        act::Store::Scalar,
    )
}

pub const SWIZZLED_NAME: &'static str = "#0_swz";

pub const W22_NAME: &'static str = "#0_w22swz";

/// The swizzled kernel of `v`, and the one with two by two warps.
pub open spec fn twins(v: tables::PipeCfg, ty: Seq<char>) -> Seq<char> {
    twin_text(
        v,
        text::fill(SWIZZLED_NAME@, seq![v.name@]),
        ty,
        v.wm,
        v.wn,
        v.pad,
        true,
        act::Act::Identity,
        false,
        false,
    ) + twin_text(
        v,
        text::fill(W22_NAME@, seq![v.name@]),
        ty,
        2,
        2,
        v.pad,
        true,
        act::Act::Identity,
        false,
        false,
    )
}

/// See [`twins`].
fn twins_of(v: tables::PipeCfg, ty: &str) -> (r: String)
    requires
        workhorse(v),
    ensures
        r@ == twins(v, ty@),
{
    let mut r = twin_of(
        v,
        &text::expand1(SWIZZLED_NAME, v.name),
        ty,
        v.wm,
        v.wn,
        v.pad,
        true,
        act::Act::Identity,
        false,
        false,
    );
    r.append(
        &twin_of(
            v,
            &text::expand1(W22_NAME, v.name),
            ty,
            2,
            2,
            v.pad,
            true,
            act::Act::Identity,
            false,
            false,
        ),
    );
    r
}

/// The padded and the swizzled kernel of `v` with a bias and one of the other epilogues.
pub open spec fn bias_pair(
    v: tables::PipeCfg,
    ty: Seq<char>,
    suffix: Seq<char>,
    a: act::Act,
    residual: bool,
) -> Seq<char> {
    twin_text(
        v,
        text::fill(SUFFIXED@, seq![v.name@, suffix]),
        ty,
        v.wm,
        v.wn,
        v.pad,
        false,
        a,
        true,
        residual,
    ) + twin_text(
        v,
        text::fill(SWIZZLED_SUFFIXED@, seq![v.name@, suffix]),
        ty,
        v.wm,
        v.wn,
        0,
        true,
        a,
        true,
        residual,
    )
}

/// See [`bias_pair`].
fn bias_pair_of(v: tables::PipeCfg, ty: &str, suffix: &str, a: act::Act, residual: bool) -> (r:
    String)
    requires
        workhorse(v),
    ensures
        r@ == bias_pair(v, ty@, suffix@, a, residual),
{
    let mut r = twin_of(
        v,
        &text::expand2(SUFFIXED, v.name, suffix),
        ty,
        v.wm,
        v.wn,
        v.pad,
        false,
        a,
        true,
        residual,
    );
    r.append(
        &twin_of(
            v,
            &text::expand2(SWIZZLED_SUFFIXED, v.name, suffix),
            ty,
            v.wm,
            v.wn,
            0,
            true,
            a,
            true,
            residual,
        ),
    );
    r
}

/// The kernels of `v` with a bias: with each activation, and with a residual.
pub open spec fn bias_family(v: tables::PipeCfg, ty: Seq<char>) -> Seq<char> {
    bias_pair(v, ty, "bias"@, act::Act::Identity, false) + bias_pair(
        v,
        ty,
        "bias_relu"@,
        act::Act::Relu,
        false,
    ) + bias_pair(v, ty, "bias_silu"@, act::Act::Silu, false) + bias_pair(
        v,
        ty,
        "bias_gelu"@,
        act::Act::Gelu,
        false,
    ) + bias_pair(v, ty, "bias_residual"@, act::Act::Identity, true)
}

/// See [`bias_family`].
fn bias_family_of(v: tables::PipeCfg, ty: &str) -> (r: String)
    requires
        workhorse(v),
    ensures
        r@ == bias_family(v, ty@),
{
    let mut r = bias_pair_of(v, ty, "bias", act::Act::Identity, false);
    r.append(&bias_pair_of(v, ty, "bias_relu", act::Act::Relu, false));
    r.append(&bias_pair_of(v, ty, "bias_silu", act::Act::Silu, false));
    r.append(&bias_pair_of(v, ty, "bias_gelu", act::Act::Gelu, false));
    r.append(&bias_pair_of(v, ty, "bias_residual", act::Act::Identity, true));
    r
}

pub const GATE_NAME: &'static str = "mma_nt_#0_128x64_#1";

pub const GATE_SWIZZLED_NAME: &'static str = "mma_nt_#0_128x64_#1_swz";

/// The geometry of the gated kernels.
pub open spec fn gate_shape(swz: bool) -> mma::MmaShape {
    mma::MmaShape {
        bm: 128,
        bn: 64,
        bk: 32,
        warps_m: 2,
        warps_n: 4,
        stages: 2,
        raster: 16,
        pad: 8,
        swz,
    }
}

/// The padded and the swizzled kernel of one gate.
pub open spec fn gate_pair(ty: Seq<char>, suffix: Seq<char>, a: act::Act, bias: bool) -> Seq<char> {
    mma_gate::mma_gate_text(
        text::fill(GATE_NAME@, seq![ty, suffix]),
        ty,
        gate_shape(false),
        a,
        bias,
    ) + mma_gate::mma_gate_text(
        text::fill(GATE_SWIZZLED_NAME@, seq![ty, suffix]),
        ty,
        gate_shape(true),
        a,
        bias,
    )
}

/// See [`gate_pair`].
fn gate_pair_of(ty: &str, suffix: &str, a: act::Act, bias: bool) -> (r: String)
    ensures
        r@ == gate_pair(ty@, suffix@, a, bias),
{
    proof {
        lemma_geometry(gate_shape(false));
        lemma_geometry(gate_shape(true));
    }
    let padded = text::expand2(GATE_NAME, ty, suffix);
    let mut r = mma_gate::entry_mma_gate(&padded, ty, 128, 64, 32, 2, 4, 2, 16, 8, a, bias, false);
    let swizzled = text::expand2(GATE_SWIZZLED_NAME, ty, suffix);
    r.append(
        &mma_gate::entry_mma_gate(&swizzled, ty, 128, 64, 32, 2, 4, 2, 16, 8, a, bias, true),
    );
    r
}

/// The gated kernels: SwiGLU, GeGLU and the bilinear gate, and the first two with biases.
pub open spec fn gate_family(ty: Seq<char>) -> Seq<char> {
    gate_pair(ty, "gate_silu"@, act::Act::Silu, false) + gate_pair(
        ty,
        "gate_gelu"@,
        act::Act::Gelu,
        false,
    ) + gate_pair(ty, "gate_glu"@, act::Act::Identity, false) + gate_pair(
        ty,
        "gate_silu_bias"@,
        act::Act::Silu,
        true,
    ) + gate_pair(ty, "gate_gelu_bias"@, act::Act::Gelu, true)
}

/// See [`gate_family`].
fn gate_family_of(ty: &str) -> (r: String)
    ensures
        r@ == gate_family(ty@),
{
    let mut r = gate_pair_of(ty, "gate_silu", act::Act::Silu, false);
    r.append(&gate_pair_of(ty, "gate_gelu", act::Act::Gelu, false));
    r.append(&gate_pair_of(ty, "gate_glu", act::Act::Identity, false));
    r.append(&gate_pair_of(ty, "gate_silu_bias", act::Act::Silu, true));
    r.append(&gate_pair_of(ty, "gate_gelu_bias", act::Act::Gelu, true));
    r
}

/// The kernel of a row of the pipeline table.
pub open spec fn pipe_row_text(v: tables::PipeCfg) -> Seq<char> {
    if v.mma {
        twin_text(
            v,
            v.name@,
            "f16"@,
            v.wm,
            v.wn,
            v.pad,
            false,
            act::Act::Identity,
            false,
            false,
        )
    } else {
        pipe_text(v, v.name@, act::Act::Identity, false, false)
    }
}

/// See [`pipe_row_text`].
fn pipe_row_of(v: tables::PipeCfg) -> (r: String)
    requires
        exists|i: int| 0 <= i < tables::pipe_rows().len() && v == #[trigger] tables::pipe_rows()[i],
    ensures
        r@ == pipe_row_text(v),
{
    if v.mma {
        twin_of(v, v.name, "f16", v.wm, v.wn, v.pad, false, act::Act::Identity, false, false)
    } else {
        pipe_of(v, v.name, act::Act::Identity, false, false)
    }
}

/// The small WMMA pipeline with a bias: with each activation, and with a residual.
pub open spec fn pipe_bias_family(v: tables::PipeCfg) -> Seq<char> {
    pipe_text(
        v,
        text::fill(SUFFIXED@, seq![v.name@, "bias"@]),
        act::Act::Identity,
        true,
        false,
    ) + pipe_text(
        v,
        text::fill(SUFFIXED@, seq![v.name@, "bias_relu"@]),
        act::Act::Relu,
        true,
        false,
    ) + pipe_text(
        v,
        text::fill(SUFFIXED@, seq![v.name@, "bias_silu"@]),
        act::Act::Silu,
        true,
        false,
    ) + pipe_text(
        v,
        text::fill(SUFFIXED@, seq![v.name@, "bias_gelu"@]),
        act::Act::Gelu,
        true,
        false,
    ) + pipe_text(
        v,
        text::fill(SUFFIXED@, seq![v.name@, "bias_residual"@]),
        act::Act::Identity,
        true,
        true,
    )
}

/// See [`pipe_bias_family`].
fn pipe_bias_family_of(v: tables::PipeCfg) -> (r: String)
    requires
        v == tables::pipe_rows()[0],
    ensures
        r@ == pipe_bias_family(v),
{
    let name = v.name;
    let mut r = pipe_of(
        v,
        &text::expand2(SUFFIXED, name, "bias"),
        act::Act::Identity,
        true,
        false,
    );
    r.append(&pipe_of(v, &text::expand2(SUFFIXED, name, "bias_relu"), act::Act::Relu, true, false));
    r.append(&pipe_of(v, &text::expand2(SUFFIXED, name, "bias_silu"), act::Act::Silu, true, false));
    r.append(&pipe_of(v, &text::expand2(SUFFIXED, name, "bias_gelu"), act::Act::Gelu, true, false));
    r.append(
        &pipe_of(
            v,
            &text::expand2(SUFFIXED, name, "bias_residual"),
            act::Act::Identity,
            true,
            true,
        ),
    );
    r
}

/// The module of [`wmma_f16_ptx`].
pub open spec fn wmma_f16_text() -> Seq<char> {
    let rows = tables::pipe_rows();
    HDR_SM80@ + plain::entry_text("wmma_nt_f16"@, "f16"@, 1, 1) + plain::entry_text(
        "wmma_nt_f16_mt"@,
        "f16"@,
        2,
        4,
    ) + smem::entry_smem_text("wmma_nt_f16_sm"@, "f16"@, 64, 64, 2, 2, None)
        + smem::entry_smem_text("wmma_nt_f16_sm128"@, "f16"@, 128, 128, 2, 4, None) + db_text(
        "wmma_nt_f16_sm_db"@,
        "f16"@,
        act::Act::Identity,
        false,
        false,
    ) + smem_db::entry_smem_db_text(
        "wmma_nt_f16_sm128_db"@,
        "f16"@,
        128,
        128,
        2,
        4,
        act::Act::Identity,
        false,
        false,
    ) + pipe_row_text(rows[0]) + pipe_row_text(rows[1]) + pipe_row_text(rows[2]) + twins(
        rows[2],
        "f16"@,
    ) + pipe_bias_family(rows[0]) + bias_family(rows[2], "f16"@) + gate_family("f16"@)
        + db_family("f16"@) + db_text(
        "wmma_nt_f16_sm_db_residual"@,
        "f16"@,
        act::Act::Identity,
        false,
        true,
    )
}

/// The fp16 module: every entry that an fp16 product can be dispatched to.
pub fn wmma_f16_ptx() -> (m: String)
    ensures
        m@ == wmma_f16_text(),
{
    proof {
        lemma_blocks();
        lemma_powers();
    }
    let rows = tables::pipe_variants();
    assert(rows[0] == tables::pipe_rows()[0]);
    assert(rows[1] == tables::pipe_rows()[1]);
    assert(rows[2] == tables::pipe_rows()[2]);
    let mut m = String::from_str(HDR_SM80);
    m.append(&plain::entry("wmma_nt_f16", "f16", 1, 1));
    m.append(&plain::entry("wmma_nt_f16_mt", "f16", TM_TILES, TN_TILES));
    m.append(
        &smem::entry_smem(
            "wmma_nt_f16_sm",
            "f16",
            SM_BM,
            SM_BN,
            SM_WARPS_M,
            SM_WARPS_N,
            None,
        ),
    );
    m.append(
        &smem::entry_smem(
            "wmma_nt_f16_sm128",
            "f16",
            SM128_BM,
            SM128_BN,
            SM128_WARPS_M,
            SM128_WARPS_N,
            None,
        ),
    );
    m.append(&db_of("wmma_nt_f16_sm_db", "f16", act::Act::Identity, false, false));
    m.append(
        &smem_db::entry_smem_db(
            "wmma_nt_f16_sm128_db",
            "f16",
            SM128_BM,
            SM128_BN,
            SM128_WARPS_M,
            SM128_WARPS_N,
            act::Act::Identity,
            false,
            false,
        ),
    );
    m.append(&pipe_row_of(rows[0]));
    m.append(&pipe_row_of(rows[1]));
    m.append(&pipe_row_of(rows[2]));
    m.append(&twins_of(rows[2], "f16"));
    m.append(&pipe_bias_family_of(rows[0]));
    m.append(&bias_family_of(rows[2], "f16"));
    m.append(&gate_family_of("f16"));
    m.append(&db_family_of("f16"));
    m.append(&db_of("wmma_nt_f16_sm_db_residual", "f16", act::Act::Identity, false, true));
    m
}

/// The module of [`wmma_bf16_ptx`].
pub open spec fn wmma_bf16_text() -> Seq<char> {
    let v = tables::pipe_bf16();
    HDR_SM80@ + plain::entry_text("wmma_nt_bf16"@, "bf16"@, 1, 1) + plain::entry_text(
        "wmma_nt_bf16_mt"@,
        "bf16"@,
        2,
        4,
    ) + twin_text(
        v,
        v.name@,
        "bf16"@,
        v.wm,
        v.wn,
        v.pad,
        false,
        act::Act::Identity,
        false,
        false,
    ) + twins(v, "bf16"@) + bias_family(v, "bf16"@) + gate_family("bf16"@) + db_text(
        "wmma_nt_bf16_sm_db"@,
        "bf16"@,
        act::Act::Identity,
        false,
        false,
    ) + db_family("bf16"@)
}

/// The bf16 module: every entry that a bf16 product can be dispatched to.
pub fn wmma_bf16_ptx() -> (m: String)
    ensures
        m@ == wmma_bf16_text(),
{
    let v = tables::pipe_bf16();
    let mut m = String::from_str(HDR_SM80);
    m.append(&plain::entry("wmma_nt_bf16", "bf16", 1, 1));
    m.append(&plain::entry("wmma_nt_bf16_mt", "bf16", TM_TILES, TN_TILES));
    m.append(
        &twin_of(v, v.name, "bf16", v.wm, v.wn, v.pad, false, act::Act::Identity, false, false),
    );
    m.append(&twins_of(v, "bf16"));
    m.append(&bias_family_of(v, "bf16"));
    m.append(&gate_family_of("bf16"));
    m.append(&db_of("wmma_nt_bf16_sm_db", "bf16", act::Act::Identity, false, false));
    m.append(&db_family_of("bf16"));
    m
}

} // verus!
