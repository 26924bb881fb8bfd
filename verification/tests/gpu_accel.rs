//! Routes of a product, the shapes and the operands that a route declines.
use wukong_gpu::gpu_accel::{
    fused_epilogue, gemm_route_for, gemm_route_taken_from, norm_supported, sm90a_licensed,
    wgmma_declines, wgmma_f32_seam_dtype, AfterLaunch, Fallback, GemmPlan, GemmRoute, GpuAccel,
    LaunchOutcome, MAX_GRID_YZ,
};
use wukong_gpu::operand_range::{
    seam_dtype_max_finite, seam_dtype_min_positive_normal, wgmma_declines_operand_range,
    RangeDecline,
};
use wukong_gpu::ptx_wmma::act::Act;
use wukong_gpu::wgmma::{
    wgmma_cfg_for, EpilogueStore, Regime, Shipped, WgmmaCfg, WgmmaDtype,
};

/// Shared memory that an H100 grants a block.
const H100_SMEM: usize = 232_448;

/// Shared memory that an RTX 4050 grants a block.
const ADA_4050_SMEM: usize = 101_376;

/// Rows, inner extent and columns of the products that run on Hopper.
const HOPPER_GATE_SHAPES: [(usize, usize, usize); 3] =
    [(256, 1024, 512), (130, 1032, 258), (4096, 256, 2048)];

/// The shared memory of the kernels of the warpgroup family.
const RING: usize = 196 * 1024;

/// Results from which on the generator takes a clustered configuration.
const W1_CLUSTER_MIN_OUTPUT_ELEMS: usize = 8_000_000;

/// A configuration of the generator.
const ROW: WgmmaCfg = WgmmaCfg {
    name: "wgmma_half",
    dtype: WgmmaDtype::F16,
    bm: 128,
    bn: 256,
    bk: 64,
    dyn_smem_bytes: RING,
    cluster: (1, 1, 1),
    epilogue: EpilogueStore::V2,
};

/// What the generator ships.
const SHIPPED: Shipped = Shipped {
    half: Regime {
        alone: ROW,
        clustered: WgmmaCfg { name: "wgmma_half_c121", cluster: (1, 2, 1), ..ROW },
        cluster_min_output_elems: W1_CLUSTER_MIN_OUTPUT_ELEMS,
    },
    brain: Regime {
        alone: WgmmaCfg { name: "wgmma_brain", dtype: WgmmaDtype::Bf16, ..ROW },
        clustered: WgmmaCfg {
            name: "wgmma_brain_c121",
            dtype: WgmmaDtype::Bf16,
            cluster: (1, 2, 1),
            ..ROW
        },
        cluster_min_output_elems: W1_CLUSTER_MIN_OUTPUT_ELEMS,
    },
};

fn cfg_for(dtype: WgmmaDtype, m: usize, n: usize) -> WgmmaCfg {
    wgmma_cfg_for(&SHIPPED, dtype, m, n)
}

fn bits(xs: &[f32]) -> Vec<u32> {
    xs.iter().map(|x| x.to_bits()).collect()
}

fn max_finite(dtype: WgmmaDtype) -> f32 {
    f32::from_bits(seam_dtype_max_finite(dtype))
}

fn min_normal(dtype: WgmmaDtype) -> f32 {
    f32::from_bits(seam_dtype_min_positive_normal(dtype))
}

/// The message of a decline on the operands `a` and `b`, with numbers in scientific notation.
fn declines(dtype: WgmmaDtype, a: &[f32], b: &[f32], k: usize) -> Option<String> {
    let d = wgmma_declines_operand_range(dtype, &bits(a), &bits(b), k)?;
    let shown = match d {
        RangeDecline::Overflow { element, .. } => f32::from_bits(element),
        RangeDecline::Underflow { peak, .. } => f32::from_bits(peak),
    };
    Some(d.message(&format!("{shown:e}"), &format!("{:e}", min_normal(dtype))))
}

#[test]
fn norm_gate_covers_only_the_implemented_ptx_entries() {
    for op in [0i64, 1, 2] {
        assert!(norm_supported(op), "norm op {op} has a PTX entry");
    }
    for op in [3i64, 4, 5, -1] {
        assert!(!norm_supported(op), "norm op {op} would panic in gpu::norm");
    }
}

#[test]
fn the_wgmma_route_is_hopper_only() {
    assert_eq!(
        gemm_route_for((8, 9), false),
        GemmRoute::Existing,
        "the RTX 4050 this repo develops on is sm_89 and must keep the pre-Hopper launcher"
    );
    assert_eq!(
        gemm_route_for((9, 0), false),
        GemmRoute::Wgmma,
        "H100 is the whole point of the family"
    );
    assert_eq!(
        gemm_route_for((10, 0), false),
        GemmRoute::Existing,
        "sm_90a is an architecture LOCK: a Blackwell part cannot load the module, so routing it \
         there would turn a working GEMM into a decline the caller has to recover from"
    );
    for cc in [(6, 1), (7, 0), (7, 5), (8, 0), (8, 6), (8, 9), (9, 1)] {
        let want = if cc.0 == 9 {
            GemmRoute::Wgmma
        } else {
            GemmRoute::Existing
        };
        assert_eq!(gemm_route_for(cc, false), want, "cc {cc:?}");
    }
}

#[test]
fn the_wgmma_kill_switch_beats_the_capability() {
    assert_eq!(gemm_route_for((9, 0), true), GemmRoute::Existing);
    assert_eq!(gemm_route_for((8, 9), true), GemmRoute::Existing);
}

#[test]
fn the_route_that_ran_is_a_separate_fact_from_the_route_the_device_is_eligible_for() {
    assert_eq!(gemm_route_for((9, 0), false), GemmRoute::Wgmma);
    let cfg = cfg_for(wgmma_f32_seam_dtype(), 64, 64);
    for &(m, k, n) in &[(64usize, 100usize, 64usize), (64, 64, 63)] {
        assert!(
            wgmma_declines(&cfg, m, k, n, H100_SMEM).is_some(),
            "{m}x{k}x{n} must decline, or this test proves nothing"
        );
    }

    assert_eq!(
        gemm_route_taken_from(0, 0),
        None,
        "no plain GEMM was offloaded at all — neither route is a witness to anything yet"
    );
    assert_eq!(gemm_route_taken_from(4, 0), Some(GemmRoute::Wgmma));
    assert_eq!(
        gemm_route_taken_from(0, 4),
        Some(GemmRoute::Existing),
        "four fallbacks on a Hopper part: the eligibility still says Wgmma and the witness must \
         not"
    );
    assert_eq!(
        gemm_route_taken_from(1, 3),
        Some(GemmRoute::Wgmma),
        "one wgmma call puts the f16 input rounding in the output, so a mixed run is judged by \
         the wider band"
    );
}

#[test]
fn the_range_decline_matches_the_launcher_conversion() {
    let f16_max = max_finite(WgmmaDtype::F16);
    assert_eq!(f16_max, 65_504.0, "f16 max finite is (2 - 2^-10)*2^15");
    assert!(half::f16::from_f32(f16_max).is_finite());
    assert!(
        half::f16::from_f32(65_520.0).is_infinite(),
        "round-to-nearest-even sends the midpoint up to 2^16, which f16 cannot hold"
    );
    assert!(
        half::f16::from_f32(65_510.0).is_finite(),
        "the threshold errs toward declining: this one is over it and would have survived"
    );

    let bf16_max = max_finite(WgmmaDtype::Bf16);
    assert!(half::bf16::from_f32(bf16_max).is_finite());
    assert!(bf16_max > 3.3e38 && bf16_max < f32::MAX);
    assert!(
        half::bf16::from_f32(f32::MAX).is_infinite(),
        "even bf16 rounds the very top of the f32 range up to infinity — which is why the bf16 \
         arm gets the same decline rather than a claim that it needs none"
    );
}

#[test]
fn an_operand_past_f16s_range_declines_to_the_f32_launcher() {
    let f16_max = max_finite(WgmmaDtype::F16);
    let K: usize = 6;
    let ok = [1.0f32, -1.0, 0.0, f16_max, -f16_max, 1e-9];
    assert!(
        declines(WgmmaDtype::F16, &ok, &ok, K).is_none(),
        "everything here is a finite f16, including the ceiling itself — and the lone 1e-9, \
         because the underflow rule is on the ROW's maximum and this row's is 65504: a single \
         flushed lane costs its own contribution to a sum its own row's 65504 also feeds, which \
         the band does cover"
    );

    for bad in [65_536.0f32, -65_536.0, 1e30, f32::MAX, f32::INFINITY] {
        let why = declines(WgmmaDtype::F16, &[1.0, bad], &ok, K)
            .unwrap_or_else(|| panic!("{bad:e} in A must decline"));
        assert!(why.starts_with("operand A"), "{why}");
        let why = declines(WgmmaDtype::F16, &ok, &[1.0, bad], K)
            .unwrap_or_else(|| panic!("{bad:e} in B must decline"));
        assert!(why.starts_with("operand B"), "{why}");
    }

    assert!(declines(WgmmaDtype::F16, &[f32::NAN], &ok, K).is_none());

    for x in [1e30f32, -1e30, 65_536.0, 1e38] {
        assert!(
            declines(WgmmaDtype::Bf16, &[x], &ok, K).is_none(),
            "bf16 carries f32's exponent range, so {x:e} is finite there"
        );
    }
    for x in [f32::MAX, -f32::MAX, f32::INFINITY] {
        assert!(
            declines(WgmmaDtype::Bf16, &[x], &ok, K).is_some(),
            "{x:e} is past bf16's own ceiling"
        );
    }

    let cfg = cfg_for(wgmma_f32_seam_dtype(), 64, 64);
    assert!(wgmma_declines(&cfg, 64, 64, 64, H100_SMEM).is_none());
}

#[test]
fn the_underflow_decline_matches_the_launcher_conversion() {
    let f16_min = min_normal(WgmmaDtype::F16);
    assert_eq!(f16_min, 6.103_515_6e-5, "f16's smallest normal is 2^-14");
    assert!(half::f16::from_f32(f16_min).is_normal());

    let sub = half::f16::from_f32(1e-5);
    assert!(
        !sub.is_normal() && sub.to_f32() != 0.0,
        "1e-5 is under the smallest normal: representable as a subnormal, at reduced precision"
    );
    assert_eq!(
        half::f16::from_f32(1e-8).to_f32(),
        0.0,
        "1e-8 is under 2^-25, f16's round-to-zero point: the element ENTERS the GEMM as zero"
    );
    assert_eq!(half::f16::from_f32(-1e-8).to_f32(), 0.0);
    let one_e_minus_7 = half::f16::from_f32(1e-7).to_f32();
    assert!(
        one_e_minus_7 != 0.0 && (one_e_minus_7 - 1e-7).abs() / 1e-7 > 0.15,
        "1e-7 survives as {one_e_minus_7:e}, >15% off — a different answer, not a wider bar"
    );

    assert!(half::f16::from_f32(5e-5).to_f32() != 0.0);

    let bf16_min = min_normal(WgmmaDtype::Bf16);
    assert!(half::bf16::from_f32(bf16_min).is_normal());
    assert!(bf16_min < 1.2e-38 && bf16_min > f32::MIN_POSITIVE * 0.9);
    assert!(bf16_min < f16_min * 1e-30);
}

#[test]
fn an_operand_wholly_under_f16s_normal_range_declines_to_the_f32_launcher() {
    let K: usize = 4;
    let ok = [1.0f32, -1.0, 0.5, 0.25];

    for scale in [1e-8f32, -1e-8, 1e-7, 1e-9, 5e-5, f32::MIN_POSITIVE] {
        let tiny = [scale, scale * 0.5, -scale, scale * 0.25];
        let why = declines(WgmmaDtype::F16, &tiny, &ok, K)
            .unwrap_or_else(|| panic!("an A whose peak is {scale:e} must decline"));
        assert!(why.starts_with("operand A"), "{why}");
        assert!(why.contains("smallest normal"), "{why}");
        let why = declines(WgmmaDtype::F16, &ok, &tiny, K)
            .unwrap_or_else(|| panic!("a B whose peak is {scale:e} must decline"));
        assert!(why.starts_with("operand B"), "{why}");
    }

    let f16_min = min_normal(WgmmaDtype::F16);
    for peak in [f16_min, 1e-4f32, 1e-3] {
        assert!(
            declines(WgmmaDtype::F16, &[peak, 1e-30], &ok, K).is_none(),
            "peak {peak:e} is normal in f16; its small lanes cost their own magnitude"
        );
    }

    assert!(
        declines(WgmmaDtype::F16, &[0.0, -0.0, 0.0], &ok, K).is_none(),
        "0.0 -> f16 0.0 is exact on both routes"
    );
    assert!(
        declines(WgmmaDtype::F16, &[f32::NAN, f32::NAN], &ok, K).is_none()
    );

    for scale in [1e-8f32, 1e-20, 1e-30] {
        assert!(
            declines(WgmmaDtype::Bf16, &[scale], &ok, K).is_none(),
            "bf16 carries f32's exponent range, so {scale:e} is normal there"
        );
    }
    assert!(
        declines(WgmmaDtype::Bf16, &[1e-40], &ok, K).is_some(),
        "1e-40 is under bf16's own smallest normal"
    );

    let cfg = cfg_for(wgmma_f32_seam_dtype(), 64, 64);
    assert!(wgmma_declines(&cfg, 64, 64, 64, H100_SMEM).is_none());
}

#[test]
fn a_quiet_row_inside_a_loud_operand_declines_although_the_operand_peak_is_normal() {
    let M: usize = 2;
    let K: usize = 64;
    let N: usize = 64;
    let f16_min = min_normal(WgmmaDtype::F16);

    assert_eq!(
        half::f16::from_f32(1e-8).to_f32(),
        0.0,
        "1e-8 is under f16's round-to-zero point, so the quiet row enters the GEMM as zeros"
    );

    let mut a = vec![1.0f32; M * K];
    a[K..].fill(1e-8);
    let b = vec![1.0f32; N * K];

    let operand_peak = a.iter().fold(0.0f32, |p, x| p.max(x.abs()));
    assert!(
        operand_peak > f16_min,
        "the whole-operand maximum is {operand_peak:e}, which a per-operand rule passes — that \
         is exactly why this case needs a per-row one"
    );

    let why = declines(WgmmaDtype::F16, &a, &b, K)
        .expect("a quiet ROW inside a loud operand must decline to the f32 launcher");
    assert!(why.starts_with("operand A row 1"), "{why}");
    assert!(why.contains("smallest normal"), "{why}");

    let mut bq = vec![1.0f32; N * K];
    bq[3 * K..4 * K].fill(1e-8);
    let loud = vec![1.0f32; M * K];
    let why = declines(WgmmaDtype::F16, &loud, &bq, K)
        .expect("a quiet row of B must decline too");
    assert!(why.starts_with("operand B row 3"), "{why}");

    assert!(
        declines(WgmmaDtype::F16, &loud, &b, K).is_none(),
        "the control must not decline, or this test proves nothing about the quiet row"
    );
    let cfg = cfg_for(wgmma_f32_seam_dtype(), M, N);
    assert!(
        wgmma_declines(&cfg, M, K, N, H100_SMEM).is_none(),
        "M={M} K={K} N={N} is accepted by every shape decline, so this reproducer really does \
         reach the wgmma launcher on Hopper: {:?}",
        wgmma_declines(&cfg, M, K, N, H100_SMEM)
    );

    let mut padded = vec![1.0f32; M * K];
    padded[K..].fill(0.0);
    assert!(
        declines(WgmmaDtype::F16, &padded, &b, K).is_none(),
        "a zero row converts EXACTLY; declining it would buy a fallback and nothing else"
    );
}

#[test]
fn the_underflow_rule_is_per_row_because_a_per_element_one_would_decline_everything() {
    let f16_min = min_normal(WgmmaDtype::F16);

    let mut buf: Vec<f32> = (0..64).map(|i| (i as f32 / 32.0) - 1.0).collect();
    buf[7] = 1e-9;
    buf[9] = -3e-8;
    assert!(
        buf.iter().any(|x| x.abs() > 0.9),
        "peak is O(1) by construction"
    );
    assert!(
        buf.iter().any(|x| *x != 0.0 && x.abs() < f16_min),
        "a per-element rule would have something to fire on"
    );
    for k in [2usize, 4, 8, 16, 32, 64] {
        assert!(
            declines(WgmmaDtype::F16, &buf, &buf, k).is_none(),
            "K={k}: the row-max rule must NOT fire on an ordinary U(-1,1) buffer, or the wgmma \
             route declines nearly every real GEMM and the whole wave measures the f32 launcher"
        );
    }

    let mut over = buf.clone();
    over[3] = 70_000.0;
    assert!(declines(WgmmaDtype::F16, &over, &buf, 64).is_some());

    let just_under = [f16_min * 0.5, f16_min * 0.25];
    let just_over = [f16_min, f16_min * 0.25];
    assert!(
        declines(WgmmaDtype::F16, &just_under, &just_over, 2).is_some()
    );
    assert!(declines(WgmmaDtype::F16, &just_over, &just_over, 2).is_none());

    assert!(declines(WgmmaDtype::F16, &buf, &buf, 0).is_none());
    assert!(declines(WgmmaDtype::F16, &[], &[], 0).is_none());
}

#[test]
fn the_route_never_outruns_the_sm90a_license() {
    for major in 5..=12 {
        for minor in 0..=9 {
            let cc = (major, minor);
            let licensed = sm90a_licensed(cc);
            assert_eq!(
                gemm_route_for(cc, false) == GemmRoute::Wgmma,
                licensed,
                "cc {cc:?}: the route and the sm_90a license disagree"
            );
        }
    }
}

#[test]
fn the_hopper_gate_shapes_reach_both_regime_arms() {
    let mut clustered = 0usize;
    for &(m, k, n) in &HOPPER_GATE_SHAPES {
        for dtype in [WgmmaDtype::F16, WgmmaDtype::Bf16] {
            let cfg = cfg_for(dtype, m, n);
            assert!(
                wgmma_declines(&cfg, m, k, n, H100_SMEM).is_none(),
                "{dtype:?} {m}x{k}x{n}: the Hopper gate's own shape declines, so that gate would \
                 silently measure the pre-Hopper launcher: {:?}",
                wgmma_declines(&cfg, m, k, n, H100_SMEM)
            );
            let plan = cfg.launch_plan();
            assert!(plan.dyn_smem_bytes <= H100_SMEM);
            let grid = plan.grid(m, n);
            assert_eq!(
                (
                    grid.0 % plan.cluster.0 as u128,
                    grid.1 % plan.cluster.1 as u128,
                    grid.2 % plan.cluster.2 as u128
                ),
                (0, 0, 0),
                "{}: grid {grid:?} is not a multiple of cluster {:?}",
                cfg.name,
                plan.cluster
            );
            assert!(grid.0 >= 1 && grid.1 >= 1 && grid.2 >= 1);
            let want_cluster = m * n >= W1_CLUSTER_MIN_OUTPUT_ELEMS;
            assert_eq!(
                plan.cluster_ctas() > 1,
                want_cluster,
                "{}: M*N = {} against the shipped threshold {}",
                cfg.name,
                m * n,
                W1_CLUSTER_MIN_OUTPUT_ELEMS
            );
            if dtype == wgmma_f32_seam_dtype() && want_cluster {
                clustered += 1;
            }
        }
    }
    assert_eq!(
        clustered,
        1,
        "exactly one Hopper gate shape must cross {} output elements — zero leaves the \
         `.reqnctapercluster` launch arm untested on the device, and all three would leave the \
         un-clustered arm untested",
        W1_CLUSTER_MIN_OUTPUT_ELEMS
    );
}

#[test]
fn every_launcher_assert_is_a_driver_side_decline() {
    let cfg = cfg_for(WgmmaDtype::F16, 4096, 4096);

    assert!(
        wgmma_declines(&cfg, 4096, 4096, 4096, H100_SMEM).is_none(),
        "sq4096 is the shape the campaign measures; it must not decline"
    );
    for &(m, k, n) in &[(1usize, 8usize, 2usize), (17, 24, 34), (129, 176, 258)] {
        assert!(
            wgmma_declines(&cfg, m, k, n, H100_SMEM).is_none(),
            "{m}x{k}x{n} is ragged, not unencodable"
        );
    }

    let small = cfg_for(WgmmaDtype::F16, 64, 64);
    for c in [cfg, small] {
        assert!(c.epilogue.requires_even_n(), "{} is a v2 row", c.name);
        for &(m, k, n) in &[(1usize, 8usize, 1usize), (129, 176, 257), (256, 64, 4095)] {
            let why = wgmma_declines(&c, m, k, n, H100_SMEM).unwrap_or_else(|| {
                panic!(
                    "{}: {m}x{k}x{n}: an odd N under a v2 store must decline",
                    c.name
                )
            });
            assert!(why.contains("EVEN N"), "{why}");
        }
    }

    let why = wgmma_declines(&cfg, 64, 100, 64, H100_SMEM).expect("K=100 has no tensor map");
    assert!(why.contains("multiple of 16"), "{why}");
    for &(m, k, n) in &[(64usize, 0usize, 64usize), (0, 64, 64), (64, 64, 0)] {
        assert!(
            wgmma_declines(&cfg, m, k, n, H100_SMEM).is_some(),
            "{m}x{k}x{n} has a zero extent"
        );
    }
    assert!(wgmma_declines(&cfg, 65536, 64, 65536, H100_SMEM).is_some());

    let gplan = cfg.launch_plan();
    let n_small = 510usize;
    let (mut lo, mut hi) = (1usize, 1usize << 30);
    while lo < hi {
        let mid = lo + (hi - lo).div_ceil(2);
        if gplan.grid(mid, n_small).1 <= MAX_GRID_YZ as u128 {
            lo = mid;
        } else {
            hi = mid - 1;
        }
    }
    let (fits_m, over_m) = (lo, lo + 1);
    assert!(
        (over_m as u64) * (n_small as u64) <= u32::MAX as u64,
        "M*N = {over_m}*{n_small} must pass the u32 index check, or the grid rule is shadowed"
    );
    assert!(
        gplan.grid(over_m, n_small).1 > MAX_GRID_YZ as u128
            && gplan.grid(fits_m, n_small).1 <= MAX_GRID_YZ as u128,
        "the search must straddle gridDim.y, or this test is vacuous"
    );
    let why = wgmma_declines(&cfg, over_m, 64, n_small, H100_SMEM)
        .expect("a grid past CUDA's gridDim.y ceiling must decline, not reach the driver");
    assert!(why.contains("grid ceiling"), "{why}");
    assert!(
        wgmma_declines(&cfg, fits_m, 64, n_small, H100_SMEM).is_none(),
        "the largest grid CUDA accepts must still take the wgmma route: {:?}",
        wgmma_declines(&cfg, fits_m, 64, n_small, H100_SMEM)
    );

    let why = wgmma_declines(&cfg, 4096, 4096, 4096, ADA_4050_SMEM)
        .expect("196 KiB of ring does not fit 99 KiB of carveout");
    assert!(why.contains("shared memory"), "{why}");
}

#[test]
fn the_config_seam_delegates_to_the_shipped_regime_rule() {
    // The rule is the generator's: another threshold, or another row, is dispatched on at once.
    let mut moved = SHIPPED;
    moved.half.cluster_min_output_elems = 4_000_000;
    moved.brain.cluster_min_output_elems = 4_000_000;
    moved.half.alone.bm = 64;
    moved.brain.alone.bm = 64;
    for shipped in [SHIPPED, moved] {
        for &(m, n) in &[(1usize, 1usize), (2048, 2048), (4096, 4096), (8192, 8192)] {
            for (dtype, regime) in [
                (WgmmaDtype::F16, shipped.half),
                (WgmmaDtype::Bf16, shipped.brain),
            ] {
                let cfg = wgmma_cfg_for(&shipped, dtype, m, n);
                let want = if m * n >= regime.cluster_min_output_elems {
                    regime.clustered
                } else {
                    regime.alone
                };
                assert_eq!(cfg.name, want.name, "{m}x{n}");
                assert_eq!(cfg.dtype, dtype, "{m}x{n}");
                assert_eq!((cfg.bm, cfg.bn, cfg.bk), (want.bm, want.bn, want.bk), "{m}x{n}");
                assert_eq!(cfg.cluster, want.cluster, "{m}x{n}");
                assert_eq!(cfg.launch_plan().entry, want.name, "{m}x{n}");
                assert_eq!(cfg.launch_plan().dyn_smem_bytes, 200_704);
            }
        }
    }
    let at = |shipped: &Shipped, m| wgmma_cfg_for(shipped, WgmmaDtype::F16, m, 2048).name;
    assert_eq!(at(&SHIPPED, 2048), "wgmma_half");
    assert_eq!(at(&moved, 2048), "wgmma_half_c121");
    assert_eq!(at(&SHIPPED, 4096), "wgmma_half_c121");
    assert_eq!(wgmma_f32_seam_dtype(), WgmmaDtype::F16);
}

#[test]
fn a_decline_is_told_in_full() {
    assert_eq!(
        declines(WgmmaDtype::F16, &[1.0, 70_000.0], &[1.0], 2).unwrap(),
        "operand A holds 7e4, which F16 cannot carry as a finite value (the seam converts both \
         operands to F16 on the host, so this element would enter the GEMM as an infinity while the \
         f32 launcher carries it unchanged)"
    );
    let cfg = cfg_for(WgmmaDtype::F16, 64, 64);
    assert_eq!(
        wgmma_declines(&cfg, 64, usize::MAX, 64, H100_SMEM).unwrap(),
        format!(
            "A[64x{0}] has no encodable tensor map: tma: global_dim[0] = {0} exceeds the 2^32 \
             element limit",
            usize::MAX
        )
    );
    assert_eq!(
        wgmma_declines(&cfg, 65536, 64, 65536, H100_SMEM).unwrap(),
        "M*N = 65536*65536 overflows the u32 element index the epilogue forms with mad.lo.s32"
    );
}

#[test]
fn a_plan_declines_in_order() {
    let ones = bits(&[1.0; 64 * 64]);
    let hopper = GpuAccel::new((9, 0), H100_SMEM, SHIPPED);
    assert_eq!(hopper.gemm_route(false), GemmRoute::Wgmma);
    assert!(matches!(
        hopper.plan_gemm(&ones, &ones, 64, 64, 64, true),
        GemmPlan::Existing(Fallback::NotEligible)
    ));
    let ada = GpuAccel::new((8, 9), ADA_4050_SMEM, SHIPPED);
    assert!(matches!(
        ada.plan_gemm(&ones, &ones, 64, 64, 64, false),
        GemmPlan::Existing(Fallback::NotEligible)
    ));
    assert!(matches!(
        hopper.plan_gemm(&ones, &ones, 64, 64, 63, false),
        GemmPlan::Existing(Fallback::Shape(_))
    ));
    assert!(matches!(
        hopper.plan_gemm(&ones, &ones, 64, 32, 64, false),
        GemmPlan::Existing(Fallback::Lengths)
    ));
    let mut loud = ones.clone();
    loud[5] = 1e30f32.to_bits();
    assert!(matches!(
        hopper.plan_gemm(&ones, &loud, 64, 64, 64, false),
        GemmPlan::Existing(Fallback::Range(RangeDecline::Overflow { .. }))
    ));
    let GemmPlan::Launch(cfg) = hopper.plan_gemm(&ones, &ones, 64, 64, 64, false) else {
        panic!("an ordinary product is launched");
    };
    assert_eq!(cfg.dtype, WgmmaDtype::F16);
    assert!(matches!(
        hopper.plan_gemm(&ones, &ones, 64, usize::MAX, 64, false),
        GemmPlan::Existing(Fallback::Shape(_))
    ));
}

#[test]
fn a_launch_is_counted_for_the_family_that_took_it() {
    let mut accel = GpuAccel::new((9, 0), H100_SMEM, SHIPPED);
    assert_eq!(accel.gemm_route_taken(), None);
    assert_eq!(accel.after_launch(LaunchOutcome::Unsupported), AfterLaunch::RunExisting);
    assert_eq!((accel.calls, accel.gemm_wgmma_calls), (0, 0));
    accel.count_existing();
    assert_eq!(accel.gemm_route_taken(), Some(GemmRoute::Existing));
    assert_eq!(accel.after_launch(LaunchOutcome::Done), AfterLaunch::TakeResult);
    assert_eq!(accel.after_launch(LaunchOutcome::Failed), AfterLaunch::Report);
    assert!(accel.offload(true));
    assert!(!accel.offload(false));
    assert_eq!((accel.calls, accel.gemm_wgmma_calls, accel.gemm_existing_calls), (4, 2, 1));
    assert_eq!(accel.gemm_route_taken(), Some(GemmRoute::Wgmma));
}

#[test]
fn a_fused_epilogue_needs_whole_tiles_and_something_to_fuse() {
    let fused = |bias, code| fused_epilogue(64, 16, 128, 0, bias, code).map(|k| (k.bias, k.act));
    assert!(fused(false, 0).is_none());
    assert!(matches!(fused(false, 1), Some((false, Act::Relu))));
    assert!(matches!(fused(false, 2), Some((false, Act::Gelu))));
    assert!(matches!(fused(false, 3), Some((false, Act::Silu))));
    assert!(fused(false, 4).is_none());
    assert!(matches!(fused(true, 0), Some((true, Act::Identity))));
    assert!(matches!(fused(true, 3), Some((true, Act::Silu))));
    assert!(fused(true, -1).is_none());
    assert!(fused_epilogue(64, 16, 128, 1, true, 1).is_none());
    assert!(fused_epilogue(65, 16, 128, 0, true, 1).is_none());
    assert!(fused_epilogue(64, 15, 128, 0, true, 1).is_none());
    assert!(fused_epilogue(64, 16, 127, 0, true, 1).is_none());
}
