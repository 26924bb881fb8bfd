//! The tensor-core modules as text.
use wukong_gpu::ptx_wmma::act::{Act, Store};
use wukong_gpu::ptx_wmma::mma_pipe::entry_mma_pipe_budget;
use wukong_gpu::ptx_wmma::modules::{
    gemm_cliff_ptx, gemm_deep_ptx, roofline_f16_ptx, wmma_bf16_ptx, wmma_f16_ptx,
    wmma_f16_sm_static_entry, wmma_f16_sm_static_ptx, HDR_SM80, SM128_BM, SM128_BN, SM128_WARPS_M,
    SM128_WARPS_N, SM_BM, SM_BN, SM_WARPS_M, SM_WARPS_N,
};
use wukong_gpu::ptx_wmma::smem::{entry_smem, SM_BK};
use wukong_gpu::ptx_wmma::smem_db::entry_smem_db;
use wukong_gpu::ptx_wmma::tables::{
    cliff_variants, deep_variant, pipe_bf16, pipe_deep_variants, pipe_variant, pipe_variants,
    pipe_wide_variants, wide_variant, DEEP_SMEM_BUDGET, WIDE_SMEM_BUDGET,
};
use wukong_gpu::smem_mode::{SmemMode, DSMEM_SYM};

/// Registers beyond the accumulators and fragments, rounded up.
const SCRATCH: usize = 48;

fn split_insn(line: &str) -> (String, Vec<String>) {
    let l = line.trim().trim_end_matches(';');
    let (op, rest) = l.split_once(char::is_whitespace).unwrap_or((l, ""));
    (
        op.to_string(),
        rest.split(',')
            .map(|o| o.trim().to_string())
            .filter(|o| !o.is_empty())
            .collect(),
    )
}

fn canon_act_body(lines: &[&str], live_in: &str) -> Vec<String> {
    let mut map: Vec<(String, String)> = vec![(live_in.to_string(), "%in".to_string())];
    let mut out = Vec::new();
    for (i, line) in lines.iter().enumerate() {
        let (op, ops) = split_insn(line);
        let last = i + 1 == lines.len();
        let mut canon_ops = Vec::new();
        for (j, o) in ops.iter().enumerate() {
            if !o.starts_with('%') {
                canon_ops.push(o.clone());
            } else if last && j == 0 {
                canon_ops.push("%out".to_string());
            } else if let Some((_, v)) = map.iter().find(|(k, _)| k == o) {
                canon_ops.push(v.clone());
            } else {
                let v = format!("%t{}", map.len() - 1);
                map.push((o.clone(), v.clone()));
                canon_ops.push(v);
            }
        }
        out.push(format!("{op} {}", canon_ops.join(",")));
    }
    out
}

/// The instructions of the elementwise kernel `name`, on the value in `%f1`.
fn vmath_body(name: &str) -> Vec<String> {
    let text = match name {
        "relu" => "max.f32 %f2, %f1, 0f00000000;",
        "silu" => {
            "mul.f32 %f2, %f1, 0fBFB8AA3B;
             ex2.approx.f32 %f2, %f2;
             add.f32 %f2, %f2, 0f3F800000;
             rcp.approx.f32 %f2, %f2;
             mul.f32 %f3, %f1, %f2;"
        }
        _ => {
            "mul.f32 %f2, %f1, %f1;
             mul.f32 %f2, %f2, %f1;
             fma.rn.f32 %f2, %f2, 0f3D372713, %f1;
             mul.f32 %f2, %f2, 0f3F4C4229;
             tanh.approx.f32 %f2, %f2;
             add.f32 %f2, %f2, 0f3F800000;
             mul.f32 %f3, %f1, 0f3F000000;
             mul.f32 %f4, %f2, %f3;"
        }
    };
    text.lines().map(|l| l.trim().to_string()).collect()
}

#[test]
fn fused_activation_epilogue_matches_the_standalone_vmath_kernel() {
    for (name, act) in [
        ("relu", Act::Relu),
        ("silu", Act::Silu),
        ("gelu", Act::Gelu),
    ] {
        let standalone = vmath_body(name);
        let standalone: Vec<&str> = standalone.iter().map(|s| s.as_str()).collect();
        let fused = act.epilogue("%acc");
        let fused: Vec<&str> = fused
            .lines()
            .map(|l| l.trim())
            .filter(|l| !l.is_empty())
            .collect();
        assert_eq!(
            canon_act_body(&standalone, "%f1"),
            canon_act_body(&fused, "%acc"),
            "{name}: the fused epilogue and the standalone vmath kernel have drifted -- a program \
             would compute a different answer depending on whether the epilogue recognizer fired"
        );
    }
    assert_eq!(
        Act::Identity.epilogue("%acc"),
        "",
        "the plain GEMM must emit no epilogue"
    );
}

fn entry_of(ptx: &str, name: &str) -> String {
    let at = ptx
        .find(&format!(".visible .entry {name}("))
        .unwrap_or_else(|| panic!("entry `{name}` is not defined in this module"));
    let rest = &ptx[at..];
    let end = rest[1..]
        .find(".visible .entry ")
        .map_or(rest.len(), |i| i + 1);
    rest[..end].to_string()
}

fn fnv1a64(s: &str) -> u64 {
    let mut h: u64 = 0xcbf2_9ce4_8422_2325;
    for b in s.as_bytes() {
        h ^= *b as u64;
        h = h.wrapping_mul(0x0000_0100_0000_01b3);
    }
    h
}

fn entry_names(ptx: &str) -> Vec<&str> {
    ptx.match_indices(".visible .entry ")
        .map(|(i, m)| {
            let rest = &ptx[i + m.len()..];
            &rest[..rest
                .find('(')
                .expect("an entry declaration opens its param list")]
        })
        .collect()
}

#[test]
fn every_tensor_core_module_is_pure_ascii() {
    let modules: [(&str, &str); 6] = [
        ("wmma_f16_ptx", &wmma_f16_ptx()),
        ("wmma_bf16_ptx", &wmma_bf16_ptx()),
        ("gemm_cliff_ptx", &gemm_cliff_ptx()),
        ("gemm_deep_ptx", &gemm_deep_ptx()),
        ("roofline_f16_ptx", &roofline_f16_ptx()),
        (
            "wmma_f16_sm_static_ptx",
            &wmma_f16_sm_static_ptx(128, 128, 128, false),
        ),
    ];
    for (what, ptx) in modules {
        if let Some((i, line)) = ptx.lines().enumerate().find(|(_, l)| !l.is_ascii()) {
            panic!(
                "{what}: PTX must be pure ASCII (ptxas fatal otherwise) -- line {}: {line}",
                i + 1
            );
        }
        assert_eq!(
            ptx.matches('{').count(),
            ptx.matches('}').count(),
            "{what}: unbalanced braces"
        );
        let names = entry_names(ptx);
        let mut sorted = names.clone();
        sorted.sort_unstable();
        sorted.dedup();
        assert_eq!(
            sorted.len(),
            names.len(),
            "{what}: duplicate .visible .entry name"
        );
    }
}

#[test]
fn deep_grid_s2_s3_are_the_shipped_cliff_kernels() {
    let cliff = &gemm_cliff_ptx();
    let deep = &gemm_deep_ptx();
    for (deep_name, cliff_name) in [
        ("deep_swz_128_s2", "cliff_swz_s2"),
        ("deep_swz_128_s3", "cliff_swz_s3"),
    ] {
        let v = deep_variant(deep_name);
        assert_eq!(
            v.smem_mode(),
            SmemMode::Static,
            "{deep_name} must stay on the static path"
        );
        assert_eq!(
            entry_of(deep, deep_name).replace(deep_name, cliff_name),
            entry_of(cliff, cliff_name),
            "{deep_name}: the budget-parameterized generator no longer reproduces the shipped \
             `{cliff_name}` byte for byte — the <=48 KiB path is NOT allowed to move"
        );
    }
}

#[test]
fn shipped_tensor_core_ptx_is_byte_identical_to_the_pre_widening_baseline() {
    let s64 = wmma_f16_sm_static_ptx(256, 256, 256, false);
    let s128 = wmma_f16_sm_static_ptx(256, 256, 256, true);
    // (what, text, byte length, FNV-1a 64) — whole modules, none of which gained a row.
    let mut modules = 0usize;
    let mut pin = |what: &str, ptx: &str, len: usize, hash: u64| {
        modules += 1;
        assert_eq!(ptx.len(), len, "{what}: PTX length moved");
        assert_eq!(
            fnv1a64(ptx),
            hash,
            "{what}: PTX text moved at unchanged length - a shipped kernel was rewritten"
        );
    };
    let (f16m, bf16m) = (&wmma_f16_ptx(), &wmma_bf16_ptx());
    let (cliffm, roofm) = (&gemm_cliff_ptx(), &roofline_f16_ptx());
    pin("wmma_f16_ptx", f16m, 1_326_227, 0x13ea_55d4_469f_0eb6);
    pin("wmma_bf16_ptx", bf16m, 1_053_587, 0x8552_1e9a_c047_0e0e);
    pin("gemm_cliff_ptx", cliffm, 315_085, 0xee75_178c_0983_0e4a);
    pin("roofline_f16_ptx", roofm, 3_868, 0x429a_caaa_8174_d952);
    pin("sm_static_ptx/64", &s64, 7_844, 0x796c_f22f_119f_fb37);
    pin("sm_static_ptx/128", &s128, 12_805, 0xc000_e086_525a_9e5e);
    // The five deep rows that existed before the widening, entry by entry.
    let deep = &gemm_deep_ptx();
    let entries: [(&str, usize, u64); 5] = [
        ("deep_swz_128_s2", 28_447, 0x5375_de64_013e_a40b),
        ("deep_swz_128_s3", 31_072, 0xfaf1_82c0_5d1a_0efa),
        ("deep_swz_128_s4", 33_619, 0xc031_3701_f7d7_aef3),
        ("deep_swz_128_s5", 36_251, 0xf638_f1a2_e57d_6b99),
        ("deep_swz_128x256_s3", 53_157, 0x3efc_639e_058f_fdaf),
    ];
    for (name, len, hash) in entries {
        let e = entry_of(deep, name);
        assert_eq!(e.len(), len, "{name}: entry length moved");
        assert_eq!(fnv1a64(&e), hash, "{name}: entry text moved");
    }
    println!(
        "[gate] {modules} shipped modules + {} pre-existing deep entries are byte-identical to \
         the pre-widening baseline",
        entries.len()
    );
}

#[test]
fn wide_tile_lattice_is_generator_legal_and_register_bounded() {
    let i_cta = |bm: usize, bn: usize| (bm * bn) as f64 / (bm + bn) as f64;
    let shipped = i_cta(128, 128); // 64.0 — the tile the H100 ceiling of 73% belongs to
    let mut widened = 0usize;
    for (table, budget, label) in [
        (pipe_deep_variants(), DEEP_SMEM_BUDGET, "deep"),
        (pipe_wide_variants(), WIDE_SMEM_BUDGET, "wide"),
    ] {
        for v in table {
            let threads = v.threads();
            let (tm, tn) = (v.bm / (16 * v.wm), v.bn / (8 * v.wn));
            let (wmr, wnc) = (v.bm / v.wm, v.bn / v.wn);
            // 1. legality
            assert!(v.bk % 16 == 0 && (v.bk / 8).is_power_of_two(), "{}", v.name);
            assert!(v.bm % (16 * v.wm) == 0, "{}: bm % 16*wm", v.name);
            assert!(v.bn % (8 * v.wn) == 0, "{}: bn % 8*wn", v.name);
            assert!(v.wn.is_power_of_two(), "{}: warpId>>wn_shift", v.name);
            if v.swz {
                assert_eq!(
                    v.bk, 32,
                    "{}: the swz XOR phase is derived for bk=32",
                    v.name
                );
                assert_eq!(v.pad, 0, "{}: swz forces ldp = bk", v.name);
                assert_eq!(wmr % 8, 0, "{}: warpMrow must vanish under (>>1)&3", v.name);
                assert_eq!(wnc % 8, 0, "{}: warpNcol must vanish under (>>1)&3", v.name);
            }
            if v.raster > 0 {
                assert!(
                    v.bm.is_power_of_two() && v.bn.is_power_of_two(),
                    "{}: raster shifts by bm/bn",
                    v.name
                );
            }
            for (which, dim) in [("A", v.bm), ("B", v.bn)] {
                let chunks = dim * v.bk / (threads * 8);
                assert!(
                    chunks >= 1 && chunks * threads * 8 == dim * v.bk,
                    "{}: {which} tile {dim}x{} is not a whole multiple of threads*8 = {}",
                    v.name,
                    v.bk,
                    threads * 8
                );
            }
            assert!(
                v.smem_bytes() <= budget,
                "{}: {} B exceeds the {label} budget {budget} B",
                v.name,
                v.smem_bytes()
            );
            // 2. the register wall
            let accum = tm * tn * 4; // f32 D fragments, live across the whole mainloop
            let frags = tm * 4 + tn * 2; // b32 A (4/lane) + B (2/lane) fragments
            let per_thread = accum + frags + SCRATCH;
            assert!(
                per_thread <= 255,
                "{}: ~{per_thread} regs/thread exceeds the 255/thread ISA limit \
                 ({accum} accumulators at tm={tm} tn={tn})",
                v.name
            );
            assert!(
                per_thread * threads <= 65_536,
                "{}: ~{} regs/CTA exceeds the 65536/CTA limit",
                v.name,
                per_thread * threads
            );
            let want = v.min_ctas.max(1);
            assert!(
                per_thread * threads * want <= 65_536,
                "{}: .minnctapersm {} cannot be met — {} threads x ~{per_thread} regs x {want} \
                 CTAs needs more than the 64K register file per SM, so ptxas would have to spill",
                v.name,
                v.min_ctas,
                threads
            );
            // 3. intensity — the reason the tile was widened at all
            if v.bm.max(v.bn) > 128 {
                widened += 1;
                assert!(
                    i_cta(v.bm, v.bn) > shipped,
                    "{}: I_cta {} does not beat the shipped 128x128 tile's {shipped}",
                    v.name,
                    i_cta(v.bm, v.bn)
                );
                assert_eq!(
                    accum, 128,
                    "{}: the wide tiles carry 128 accumulators",
                    v.name
                );
            }
            println!(
                "  {:<24} {:>3}x{:<3} s{} {:>3} KiB  tm={tm} tn={tn}  accum={accum} \
                 ~{per_thread} regs/thread  I_cta={:.2}",
                v.name,
                v.bm,
                v.bn,
                v.stages,
                v.smem_bytes() / 1024,
                i_cta(v.bm, v.bn)
            );
        }
    }
    assert!(
        widened >= 6,
        "the CTA-tile-width lever needs both orientations at several depths (only {widened} rows)"
    );
    println!(
        "[gate] {widened} CTA tiles wider than 128 are generator-legal, fit 255 regs/thread at \
         128 accumulators, and raise I_cta 64.0 -> 85.33"
    );
}

#[test]
fn deep_grid_smem_math_and_window_discipline() {
    let deep = &gemm_deep_ptx();
    assert_eq!(
        deep.matches(".extern .shared").count(),
        1,
        "exactly ONE window per module"
    );
    let decl = deep.find(".extern .shared").expect("window");
    let first_entry = deep.find(".visible .entry").expect("entry");
    assert!(
        decl < first_entry,
        "the window must be declared at MODULE scope, before any entry"
    );
    // (name, SMEM bytes, dynamic?) — the closed form `stages·(bm+bn)·(bk+pad)·2` spelled out, so an
    // edit to a row's geometry has to be restated here rather than recomputed by the same formula.
    let deep_expect: [(&str, usize, bool); 11] = [
        ("deep_swz_128_s2", 32768, false),
        ("deep_swz_128_s3", 49152, false),
        ("deep_swz_128_s4", 65536, true),
        ("deep_swz_128_s5", 81920, true),
        ("deep_swz_128x256_s2", 49152, false),
        ("deep_swz_128x256_s3", 73728, true),
        ("deep_swz_128x256_s4", 98304, true),
        ("deep_swz_128x256_s4_mc1", 98304, true),
        ("deep_swz_256x128_s2", 49152, false),
        ("deep_swz_256x128_s3", 73728, true),
        ("deep_swz_256x128_s4", 98304, true),
    ];
    let wide_expect: [(&str, usize, bool); 4] = [
        ("wide_swz_128_s7", 114688, true),
        ("wide_swz_128x256_s5_mc1", 122880, true),
        ("wide_swz_128x256_s6_mc1", 147456, true),
        ("wide_swz_256x128_s6_mc1", 147456, true),
    ];
    assert_eq!(pipe_deep_variants().len(), deep_expect.len());
    assert_eq!(pipe_wide_variants().len(), wide_expect.len());
    let rows = pipe_deep_variants()
        .into_iter()
        .zip(deep_expect.iter().map(|e| (*e, DEEP_SMEM_BUDGET, false)))
        .chain(
            pipe_wide_variants()
                .into_iter()
                .zip(wide_expect.iter().map(|e| (*e, WIDE_SMEM_BUDGET, true))),
        );
    for (v, ((name, bytes, dynamic), budget, datacenter_only)) in rows {
        assert_eq!(v.name, name, "grid order");
        assert_eq!(v.smem_bytes(), bytes, "{name}: SMEM closed form");
        assert_eq!(
            v.smem_mode().is_dynamic(),
            dynamic,
            "{name}: emission form at {bytes} B"
        );
        assert_eq!(
            v.smem_mode().launch_bytes(),
            if dynamic { bytes } else { 0 },
            "{name}"
        );
        assert!(
            v.smem_bytes() <= budget,
            "{name}: must fit its table's ceiling {budget} B"
        );
        assert_eq!(
            v.smem_bytes() > DEEP_SMEM_BUDGET,
            datacenter_only,
            "{name}: a row is datacenter-only exactly when it does not fit an Ada carveout \
             ({DEEP_SMEM_BUDGET} B) — otherwise it belongs in the other table"
        );
        let tile_a = v.bm * (v.bk + v.pad) * 2; // one A buffer of the ring
        let entry = entry_of(deep, name);
        if dynamic {
            assert!(
                !deep.contains(&format!("smemA_{name}")),
                "{name}: no statics beside the window"
            );
            assert!(
                entry.contains(&format!("mov.u32 %bptr,{DSMEM_SYM};")),
                "{name}: B ring via the symbol"
            );
            assert!(
                entry.contains(&format!("add.u32 %bptr,%bptr,{};", v.stages * tile_a)),
                "{name}: the B ring must start after the whole A ring"
            );
        } else {
            assert!(
                entry.contains(&format!(
                    ".shared .align 16 .b8 smemA_{name}[{}];",
                    v.stages * tile_a
                )),
                "{name}: static rows keep their own arrays"
            );
        }
        // Launch bounds: present iff the row asks for them, on this entry and nowhere else.
        let bounds = format!(
            ".maxntid {}, 1, 1\n.minnctapersm {}\n",
            v.threads(),
            v.min_ctas
        );
        assert_eq!(
            entry.contains(&bounds),
            v.min_ctas > 0,
            "{name}: min_ctas={} but the `{}` directives are {}",
            v.min_ctas,
            bounds.trim().replace('\n', " + "),
            if v.min_ctas > 0 { "missing" } else { "present" }
        );
        assert_eq!(
            entry.contains(".minnctapersm"),
            v.min_ctas > 0,
            "{name}: stray launch-bounds directive"
        );
        // Every depth keeps `stages-2` cp.async groups in flight and guards each prologue slab.
        assert!(
            entry.contains(&format!("cp.async.wait_group {};", v.stages - 2)),
            "{name}"
        );
        for st in 0..(v.stages - 1) {
            assert!(
                entry.contains(&format!("PRO_{name}_{st}:")),
                "{name}: prologue slab {st} unguarded"
            );
        }
    }
}

#[test]
fn every_tensor_core_module_opens_at_the_sm80_floor() {
    let statics = [
        wmma_f16_sm_static_ptx(128, 128, 128, false),
        wmma_f16_sm_static_ptx(128, 128, 128, true),
    ];
    let modules: [(&str, &str); 7] = [
        ("wmma_f16_ptx", &wmma_f16_ptx()),
        ("wmma_bf16_ptx", &wmma_bf16_ptx()),
        ("gemm_cliff_ptx", &gemm_cliff_ptx()),
        ("gemm_deep_ptx", &gemm_deep_ptx()),
        ("roofline_f16_ptx", &roofline_f16_ptx()),
        ("wmma_f16_sm_static_ptx(64)", &statics[0]),
        ("wmma_f16_sm_static_ptx(128)", &statics[1]),
    ];
    for (what, ptx) in modules {
        assert!(
            ptx.starts_with(HDR_SM80),
            "{what}: must open with ptx_target::HDR_SM80"
        );
        assert!(
            !ptx.contains("sm_89"),
            "{what}: emits no Ada-only instruction, so it must not be tagged sm_89"
        );
    }
}

#[test]
fn every_dispatched_tensor_core_entry_is_defined() {
    let f16 = &wmma_f16_ptx();
    let bf16 = &wmma_bf16_ptx();
    let cliff = &gemm_cliff_ptx();
    let has = |ptx: &str, n: &str| ptx.contains(&format!(".visible .entry {n}("));

    // Sweep tables shared by the builder and the host (`gemm_nt_f16_pipe` / `gemm_nt_f16_cliff`
    // launch `v.name` straight from these), so a table edit must reach the module.
    for v in pipe_variants() {
        assert!(
            has(f16, v.name),
            "entry `{}` missing from wmma_f16_ptx",
            v.name
        );
    }
    for v in cliff_variants() {
        assert!(
            has(cliff, v.name),
            "entry `{}` missing from gemm_cliff_ptx",
            v.name
        );
    }
    let deep = &gemm_deep_ptx();
    for v in pipe_deep_variants() {
        assert!(
            has(deep, v.name),
            "entry `{}` missing from gemm_deep_ptx",
            v.name
        );
        assert_eq!(deep_variant(v.name).name, v.name, "deep_variant round-trip");
    }
    // The wide (datacenter-tile) rows share the one deep module, so `gpu::gemm_nt_f16_deep` can
    // launch them unchanged on a part whose carveout is big enough — but only if the entry the
    // lookup names is actually in the text the module cache loads.
    for v in pipe_wide_variants() {
        assert!(
            has(deep, v.name),
            "entry `{}` missing from gemm_deep_ptx",
            v.name
        );
        assert_eq!(wide_variant(v.name).name, v.name, "wide_variant round-trip");
    }
    assert!(
        has(bf16, pipe_bf16().name),
        "entry `{}` missing",
        pipe_bf16().name
    );
    for use_128 in [false, true] {
        let n = wmma_f16_sm_static_entry(use_128);
        let ptx = wmma_f16_sm_static_ptx(256, 256, 256, use_128);
        assert!(
            has(&ptx, n),
            "static-shape entry `{n}` missing from its own module"
        );
    }

    // The names gpu.rs spells as literals at its dispatch sites.
    let wh = "mma_nt_f16_128_bk32_s2_r16";
    let p64 = "wmma_nt_f16_pipe_64_s6";
    let bwh = pipe_bf16().name;
    for n in [
        "wmma_nt_f16",
        "wmma_nt_f16_mt",
        "wmma_nt_f16_sm",
        "wmma_nt_f16_sm128",
        "wmma_nt_f16_sm_db",
        "wmma_nt_f16_sm128_db",
        "wmma_nt_f16_sm_db_residual",
        "wmma_nt_f16_sm_db_relu",
        "wmma_nt_f16_sm_db_silu",
        "wmma_nt_f16_sm_db_gelu",
        "wmma_nt_f16_sm_db_bias",
        "wmma_nt_f16_sm_db_bias_relu",
        "wmma_nt_f16_sm_db_bias_silu",
        "wmma_nt_f16_sm_db_bias_gelu",
    ] {
        assert!(
            has(f16, n),
            "dispatched entry `{n}` missing from wmma_f16_ptx"
        );
    }
    for n in [
        "wmma_nt_bf16",
        "wmma_nt_bf16_mt",
        "wmma_nt_bf16_sm_db",
        "wmma_nt_bf16_sm_db_relu",
        "wmma_nt_bf16_sm_db_silu",
        "wmma_nt_bf16_sm_db_gelu",
        "wmma_nt_bf16_sm_db_bias",
        "wmma_nt_bf16_sm_db_bias_relu",
        "wmma_nt_bf16_sm_db_bias_silu",
        "wmma_nt_bf16_sm_db_bias_gelu",
    ] {
        assert!(
            has(bf16, n),
            "dispatched entry `{n}` missing from wmma_bf16_ptx"
        );
    }
    // The fused-epilogue families: `{base}[_swz]_bias[_act]` and `..._bias_residual`.
    for base in [wh, p64] {
        for suffix in [
            "bias",
            "bias_relu",
            "bias_silu",
            "bias_gelu",
            "bias_residual",
        ] {
            assert!(
                has(f16, &format!("{base}_{suffix}")),
                "`{base}_{suffix}` missing"
            );
        }
    }
    for suffix in [
        "bias",
        "bias_relu",
        "bias_silu",
        "bias_gelu",
        "bias_residual",
    ] {
        assert!(
            has(f16, &format!("{wh}_swz_{suffix}")),
            "`{wh}_swz_{suffix}` missing"
        );
        assert!(
            has(bf16, &format!("{bwh}_{suffix}")),
            "`{bwh}_{suffix}` missing"
        );
        assert!(
            has(bf16, &format!("{bwh}_swz_{suffix}")),
            "`{bwh}_swz_{suffix}` missing"
        );
    }
    for base in [wh, bwh] {
        let ptx = if base == wh { f16 } else { bf16 };
        for twin in ["_swz", "_w22swz"] {
            assert!(has(ptx, &format!("{base}{twin}")), "`{base}{twin}` missing");
        }
    }
    // The gated-FFN (GLU-family) dual-B tiles, padded base + swizzle twin.
    for ty in ["f16", "bf16"] {
        let ptx = if ty == "f16" { f16 } else { bf16 };
        for g in [
            "gate_silu",
            "gate_gelu",
            "gate_glu",
            "gate_silu_bias",
            "gate_gelu_bias",
        ] {
            assert!(
                has(ptx, &format!("mma_nt_{ty}_128x64_{g}")),
                "`mma_nt_{ty}_128x64_{g}` missing"
            );
            assert!(
                has(ptx, &format!("mma_nt_{ty}_128x64_{g}_swz")),
                "`mma_nt_{ty}_128x64_{g}_swz` missing"
            );
        }
    }
    assert!(has(&roofline_f16_ptx(), "wmma_roofline_f16"));
}

#[test]
fn smem_staging_tiles_the_cta_for_every_generated_shape() {
    // Production shapes: 64x64 / 4 warps and 128x128 / 8 warps, both precisions. `a_chunks == 1`
    // each, so the guard changes no emitted byte.
    for (bm, bn, wm, wn) in [
        (SM_BM, SM_BN, SM_WARPS_M, SM_WARPS_N),
        (SM128_BM, SM128_BN, SM128_WARPS_M, SM128_WARPS_N),
    ] {
        let threads = wm * wn * 32;
        assert_eq!(
            bm * SM_BK % (threads * 8),
            0,
            "A tile {bm}x{SM_BK} must tile {threads} threads"
        );
        assert_eq!(
            bn * SM_BK % (threads * 8),
            0,
            "B tile {bn}x{SM_BK} must tile {threads} threads"
        );
        for ty in ["f16", "bf16"] {
            let p = entry_smem("t_sm", ty, bm, bn, wm, wn, None);
            assert_eq!(
                p.matches("ld.global.v4.u32").count(),
                2,
                "one A + one B stage per K step"
            );
            // The double-buffered twin stages with `cp.async` (global->shared, no register hop):
            // one 16-byte copy per chunk, prologue + steady state.
            let d = entry_smem_db("t_db", ty, bm, bn, wm, wn, Act::Identity, false, false);
            assert!(
                d.matches("cp.async.cg.shared.global").count() >= 4,
                "the double-buffered kernel must stage A/B in both the prologue and the K loop"
            );
        }
    }
}

#[test]
fn a_pipeline_is_found_by_its_name() {
    let v = pipe_variant("wmma_nt_f16_pipe_128_s4");
    assert_eq!((v.bm, v.bn, v.bk, v.stages), (128, 128, 16, 4));
    assert_eq!((v.threads(), v.smem_bytes()), (256, 32768));
    for v in pipe_variants() {
        assert_eq!(pipe_variant(v.name).smem_bytes(), v.smem_bytes());
    }
}

#[test]
fn launch_bounds_stand_between_the_parameters_and_the_body() {
    for (stages, pad) in [(3usize, 8usize), (2, 0)] {
        let entry = |min_ctas: usize| {
            entry_mma_pipe_budget(
                "k",
                "f16",
                64,
                128,
                32,
                2,
                4,
                stages,
                8,
                pad,
                Act::Relu,
                true,
                false,
                false,
                min_ctas,
                Store::V2,
                WIDE_SMEM_BUDGET,
            )
        };
        let plain = entry(0);
        assert!(!plain.contains(".maxntid") && !plain.contains(".minnctapersm"));
        for n in [1usize, 2, 16] {
            let bounds = format!(".maxntid 256, 1, 1\n.minnctapersm {n}\n");
            let bounded = entry(n);
            assert_eq!(bounded.matches(&bounds).count(), 1);
            assert!(bounded.contains(&format!(")\n{bounds}{{\n")));
            assert_eq!(bounded.replacen(&bounds, "", 1), plain);
        }
    }
}

#[test]
fn a_compiled_in_size_changes_the_name_and_the_size_alone() {
    let module = wmma_f16_ptx();
    for (use_128, name, step) in [
        (false, "wmma_nt_f16_sm", 64usize),
        (true, "wmma_nt_f16_sm128", 128),
    ] {
        for (m, n, k) in [(1usize, 2usize, 16usize), (7, 3, 4096)] {
            let (m, n) = (m * step, n * step);
            let general = entry_of(&module, name).replace(name, &format!("{name}_static"));
            let loads = "    ld.param.u32 %M,[pM];\n    ld.param.u32 %N,[pN];\n    \
                         ld.param.u32 %K,[pK];\n";
            assert_eq!(general.matches(loads).count(), 1);
            let sizes =
                format!("    mov.u32 %M,{m};\n    mov.u32 %N,{n};\n    mov.u32 %K,{k};\n");
            assert_eq!(
                wmma_f16_sm_static_ptx(m, n, k, use_128),
                format!("{HDR_SM80}{}", general.replace(loads, &sizes))
            );
        }
    }
}

#[test]
fn a_kernel_is_one_text_for_every_name() {
    let kernel = |name: &str| entry_smem(name, "f16", 64, 64, 2, 2, None);
    assert_eq!(
        kernel("first_smem").replace("first_smem", "other"),
        kernel("other")
    );
}
