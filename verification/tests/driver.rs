//! The order of a compilation, gradients, training and native emission.
use wukong_gpu::driver::exit;
use wukong_gpu::driver::grad::{
    grad_wrt, loss_param_lens, ty_elem_count, ty_is_countable, Def, Dim, Ty,
};
use wukong_gpu::driver::messages::{
    grad_failed, no_device, no_gpu_support, no_target, run_failed, train_failed, unreadable,
    verify_or_ice,
};
use wukong_gpu::driver::native::{
    cc_link_args, emit_native, exe_path, object_path, runtime_name, rustc_link_args, scratch_name,
    shim_name, stem_of, Files, NativeAction, NativeEvent,
};
use wukong_gpu::driver::options::{BackendKind, EmitStage, ErrorFormat, Options, TrainOpt};
use wukong_gpu::driver::pipeline::{Action, Event, Pipeline};
use wukong_gpu::driver::runtime::{runtime_rlib_in, Entry, Rlib};
use wukong_gpu::driver::train::{train_plan, train_rand, train_report, TrainAction, TrainLoop};

fn array(len: u64) -> Ty {
    Ty::Array {
        elem: Box::new(Ty::Scalar),
        len,
    }
}

/// The parameters of a least-squares regression: `x[12]`, `w[8]`, `t[6]` and the loss.
fn regression() -> Def {
    Def::Function {
        params: vec![array(12), array(8), array(6), array(1)],
    }
}

#[test]
fn param_sizes_recovered_from_types() {
    let lens = loss_param_lens(&regression(), "loss").expect("param sizes");
    assert_eq!(lens, vec![12, 8, 6, 1], "x[12], w[8], t[6], out[1]");
}

#[test]
fn duplicate_grad_wrt_index_is_rejected() {
    let err = grad_wrt(&[true; 4], &[1, 1], false)
        .expect_err("a repeated --grad-wrt index must be rejected");
    assert!(err.contains("repeated"), "unexpected error: {err}");
}

/// A number between about -0.4 and 0.4.
fn unit(raw: u32) -> f32 {
    ((raw as f32) / (i32::MAX as f32) - 0.5) * 0.8
}

/// The loss of the regression and its gradients by `x`, `w` and `t`.
fn regression_step(bufs: &[Vec<f32>]) -> (f32, Vec<Vec<f32>>) {
    let (m, k, n) = (3usize, 4usize, 2usize);
    let (x, w, t) = (&bufs[0], &bufs[1], &bufs[2]);
    let mut loss = 0.0f32;
    let (mut dx, mut dw, mut dt) = (vec![0.0f32; 12], vec![0.0f32; 8], vec![0.0f32; 6]);
    for i in 0..m {
        for j in 0..n {
            let p: f32 = (0..k).map(|q| x[i * k + q] * w[j * k + q]).sum();
            let d = p - t[i * n + j];
            loss += d * d;
            dt[i * n + j] = -2.0 * d;
            for q in 0..k {
                dx[i * k + q] += 2.0 * d * w[j * k + q];
                dw[j * k + q] += 2.0 * d * x[i * k + q];
            }
        }
    }
    (loss, vec![dx, dw, dt])
}

/// The losses of a training of the regression.
fn train_traj(
    wrt: &[usize],
    lens: &[u64],
    steps: usize,
    lr: f32,
    opt: TrainOpt,
    seed: u64,
) -> Vec<f32> {
    let plan = train_plan(Some(&[true; 4]), "loss", wrt, lens, opt).expect("train plan");
    let mut seed = seed;
    let mut bufs: Vec<Vec<f32>> = lens
        .iter()
        .map(|&n| train_rand(&mut seed, n as usize).into_iter().map(unit).collect())
        .collect();
    bufs[plan.params - 1] = vec![0.0];
    let zeros: Vec<Vec<f32>> = plan.wrt.iter().map(|&w| vec![0.0; lens[w] as usize]).collect();
    let (mut ms, mut vs, mut grads) = (zeros.clone(), zeros.clone(), Vec::new());
    let (beta1, beta2, eps) = (0.9f64, 0.999f64, 1e-8f64);
    let mut traj = Vec::new();
    let mut training = TrainLoop::new(steps, plan.wrt.len());
    loop {
        match training.advance() {
            TrainAction::Gradient => {
                let (loss, g) = regression_step(&bufs);
                traj.push(loss);
                grads = g;
            }
            TrainAction::Update { weight, t } => {
                let param = plan.wrt[weight];
                if opt == TrainOpt::AdamW {
                    assert!(plan.kernels.contains(&lens[param]));
                }
                for (i, &g) in grads[param].iter().enumerate() {
                    let g = g as f64;
                    let step = match opt {
                        TrainOpt::Sgd => lr as f64 * g,
                        TrainOpt::AdamW => {
                            let m = beta1 * ms[weight][i] as f64 + (1.0 - beta1) * g;
                            let v = beta2 * vs[weight][i] as f64 + (1.0 - beta2) * g * g;
                            ms[weight][i] = m as f32;
                            vs[weight][i] = v as f32;
                            let mh = m / (1.0 - beta1.powi(t));
                            let vh = v / (1.0 - beta2.powi(t));
                            lr as f64 * mh / (vh.sqrt() + eps)
                        }
                    };
                    bufs[param][i] = (bufs[param][i] as f64 - step) as f32;
                }
            }
            TrainAction::Forward => traj.push(regression_step(&bufs).0),
            TrainAction::Done => return traj,
        }
    }
}

/// The stages of a training up to its end.
fn stages(steps: usize, weights: usize) -> Vec<TrainAction> {
    let mut training = TrainLoop::new(steps, weights);
    let mut all = Vec::new();
    loop {
        match training.advance() {
            TrainAction::Done => return all,
            stage => all.push(stage),
        }
    }
}

#[test]
fn a_longer_training_begins_alike() {
    for (steps, more, weights) in [(0usize, 3usize, 2usize), (4, 9, 1), (5, 6, 3)] {
        let (short, long) = (stages(steps, weights), stages(more, weights));
        let shared = steps * (weights + 1);
        assert_eq!(short[..shared], long[..shared]);
        assert_eq!(short[shared], TrainAction::Forward);
        assert_eq!(long[shared], TrainAction::Gradient);
        assert_eq!(short.len(), shared + 1);
    }
    let short = train_traj(&[1], &[12, 8, 6, 1], 20, 0.05, TrainOpt::Sgd, 7);
    let long = train_traj(&[1], &[12, 8, 6, 1], 50, 0.05, TrainOpt::Sgd, 7);
    assert_eq!(short[..], long[..21]);
}

#[test]
fn train_sgd_loss_strictly_decreases() {
    let traj = train_traj(&[1], &[12, 8, 6, 1], 120, 0.05, TrainOpt::Sgd, 0xA5A5);
    for w in traj.windows(2) {
        assert!(w[1] <= w[0] + 1e-6, "SGD loss rose: {} -> {}", w[0], w[1]);
    }
    let (l0, lf) = (traj[0], *traj.last().unwrap());
    assert!(l0 > 0.05, "test setup: initial loss should be substantial, got {l0}");
    assert!(lf < 0.3 * l0, "SGD did not reduce the loss enough: {l0} -> {lf}");
}

#[test]
fn train_default_wrt_excludes_the_loss_output() {
    let traj = train_traj(&[], &[12, 8, 6, 1], 40, 0.02, TrainOpt::Sgd, 0xA5A5);
    assert_eq!(traj.len(), 41, "traj[i] = loss after i updates, plus a final");
    let (l0, lf) = (traj[0], *traj.last().unwrap());
    assert!(lf < l0, "the default --grad-wrt did not train: {l0} -> {lf}");
}

#[test]
fn train_adamw_reduces_loss() {
    let traj = train_traj(&[1], &[12, 8, 6, 1], 150, 0.05, TrainOpt::AdamW, 0xA5A5);
    let (l0, lf) = (traj[0], *traj.last().unwrap());
    assert!(
        lf.is_finite() && lf < 0.05 * l0,
        "AdamW did not converge: {l0} -> {lf}"
    );
}

#[test]
fn the_cc_fallback_links_libm_after_its_objects() {
    let args = cc_link_args("prog.o", "prog_rt.c", "prog");
    let lm = args
        .iter()
        .position(|a| a == "-lm")
        .expect("the `cc` fallback link line must pass `-lm`");
    let rt = args
        .iter()
        .position(|a| a == "prog_rt.c")
        .expect("the generated C runtime must be on the link line");
    assert!(lm > rt, "`-lm` must follow `prog_rt.c`: {args:?}");
    assert_eq!(args, vec!["prog.o", "prog_rt.c", "-o", "prog", "-O2", "-lm"]);
}

fn entry(name: &str, written: i128) -> Entry {
    Entry {
        name: name.to_string(),
        written,
    }
}

#[test]
fn the_runtime_rlib_is_found_in_the_deps_directory() {
    assert_eq!(runtime_rlib_in(false, None), Rlib::Missing, "empty layout must not match");
    let mut deps = vec![
        entry("libwukong_interp-1111111111111111.rlib", 1),
        entry("libwukong_runtime_extra-2222222222222222.rlib", 1),
        entry("libwukong_runtime-3333333333333333.rmeta", 1),
    ];
    assert_eq!(runtime_rlib_in(false, Some(&deps)), Rlib::Missing, "a decoy must not match");
    deps.push(entry("libwukong_runtime-4444444444444444.rlib", 1));
    assert_eq!(
        runtime_rlib_in(false, Some(&deps)),
        Rlib::InDeps(3),
        "the hash-suffixed rlib in `deps/` must be found"
    );
    assert_eq!(
        runtime_rlib_in(true, Some(&deps)),
        Rlib::Uplifted,
        "the uplifted rlib must take precedence"
    );
}

#[test]
fn the_newest_runtime_wins_and_ties_go_by_name() {
    let deps = [
        entry("libwukong_runtime-b.rlib", 5),
        entry("libwukong_runtime-a.rlib", 7),
        entry("libwukong_runtime-c.rlib", 7),
        entry("libwukong_runtime-bb.rlib", 7),
        entry("libwukong_runtime-.rlib", 6),
    ];
    assert_eq!(runtime_rlib_in(false, Some(&deps)), Rlib::InDeps(2));
    assert_eq!(runtime_rlib_in(false, Some(&deps[3..])), Rlib::InDeps(0));
    assert_eq!(runtime_rlib_in(false, Some(&deps[4..])), Rlib::InDeps(0));
    assert_eq!(runtime_rlib_in(false, Some(&[entry("libwukong_runtime-rlib", 1)])), Rlib::Missing);
}

#[test]
fn stages_have_names() {
    for (name, stage) in [
        ("tokens", EmitStage::Tokens),
        ("ast", EmitStage::Ast),
        ("mir-high", EmitStage::MirHigh),
        ("mir", EmitStage::Mir),
        ("mir-low", EmitStage::Mir),
        ("grad", EmitStage::Grad),
        ("llvm-ir", EmitStage::LlvmIr),
        ("obj", EmitStage::Obj),
        ("exe", EmitStage::Exe),
    ] {
        assert_eq!(EmitStage::parse(name), Some(stage), "{name}");
    }
    for name in ["", "Tokens", "mir-", "exe "] {
        assert_eq!(EmitStage::parse(name), None, "{name}");
    }
}

#[test]
fn options_have_defaults() {
    let o = Options::default();
    assert_eq!((o.emit, o.run, o.opt_level, o.color), (EmitStage::Exe, false, 0, true));
    assert_eq!((o.error_format, o.backend), (ErrorFormat::Human, BackendKind::Interp));
    assert!(o.input.is_empty() && o.output.is_none() && o.grad.of.is_none());
    assert!(o.grad.wrt.is_empty() && !o.grad.train);
    assert_eq!((o.grad.train_steps, o.grad.train_seed), (100, 0x5EED_1234));
    assert_eq!((o.grad.train_opt.name(), TrainOpt::AdamW.name()), ("sgd", "adamw"));
    assert_eq!(o.grad.loss_name(), "loss");
    let mut o = o;
    o.grad.of = Some("cost".to_string());
    assert_eq!(o.grad.loss_name(), "cost");
}

/// The actions of a compilation in which `failing` fails, and its exit code.
fn walk(o: &Options, failing: Option<Action>) -> (Vec<Action>, i32) {
    let mut pipeline = Pipeline::new(o);
    let mut actions = Vec::new();
    let mut action = pipeline.action();
    loop {
        if let Action::Exit(code) = action {
            return (actions, code);
        }
        actions.push(action);
        let event = if failing == Some(action) {
            Event::Failed
        } else {
            match action {
                Action::Run(_) => Event::Returned(7),
                Action::EmitNative => Event::Code(exit::OK),
                _ => Event::Done,
            }
        };
        action = pipeline.advance(event);
    }
}

fn emitting(emit: EmitStage) -> Options {
    Options {
        emit,
        ..Options::default()
    }
}

#[test]
fn an_executable_goes_through_every_stage() {
    let front = [Action::Read, Action::Lex, Action::Parse, Action::Import, Action::Check];
    let (actions, code) = walk(&emitting(EmitStage::Exe), None);
    assert_eq!(actions[..5], front);
    assert_eq!(
        actions[5..],
        [Action::Lower, Action::Optimize(0), Action::Verify, Action::EmitNative]
    );
    assert_eq!(code, exit::OK);
    let (actions, _) = walk(&emitting(EmitStage::LlvmIr), None);
    assert_eq!(actions[7..], [Action::Verify, Action::EmitLlvm]);
    let (actions, _) = walk(&emitting(EmitStage::Mir), None);
    assert_eq!(actions[5..], [Action::Lower, Action::Optimize(0), Action::Dump]);
    let (actions, _) = walk(&emitting(EmitStage::MirHigh), None);
    assert_eq!(actions[5..], [Action::Lower, Action::DumpHigh]);
    let (actions, _) = walk(&emitting(EmitStage::Grad), None);
    assert_eq!(actions[5..], [Action::Lower, Action::Optimize(1), Action::EmitGrad]);
    let (actions, _) = walk(&emitting(EmitStage::Tokens), None);
    assert_eq!(actions, [Action::Read, Action::Lex, Action::ShowTokens]);
    let (actions, _) = walk(&emitting(EmitStage::Ast), None);
    assert_eq!(actions, [Action::Read, Action::Lex, Action::Parse, Action::ShowAst]);
}

#[test]
fn a_run_returns_what_the_program_does() {
    let mut o = emitting(EmitStage::Mir);
    o.run = true;
    o.opt_level = 2;
    o.backend = BackendKind::Gpu;
    let (actions, code) = walk(&o, None);
    assert_eq!(
        actions[6..],
        [Action::Optimize(2), Action::Verify, Action::Run(BackendKind::Gpu)]
    );
    assert_eq!(code, 7);
    assert_eq!(walk(&o, Some(Action::Run(BackendKind::Gpu))).1, exit::COMPILE_ERROR);
    let (actions, code) = walk(&o, Some(Action::Verify));
    assert!(!actions.contains(&Action::Run(BackendKind::Gpu)), "unverified MIR is not run");
    assert_eq!(code, exit::COMPILE_ERROR);
}

#[test]
fn training_measures_first_and_needs_the_first_level() {
    let mut o = emitting(EmitStage::Exe);
    o.grad.train = true;
    let (actions, code) = walk(&o, None);
    assert_eq!(
        actions[4..],
        [Action::Check, Action::Measure, Action::Lower, Action::Optimize(1), Action::Train]
    );
    assert_eq!(code, exit::OK);
    assert_eq!(walk(&o, Some(Action::Measure)).1, exit::COMPILE_ERROR);
    o.opt_level = 3;
    assert!(walk(&o, None).0.contains(&Action::Optimize(3)));
}

#[test]
fn errors_end_a_compilation_after_what_can_be_shown() {
    assert_eq!(walk(&emitting(EmitStage::Exe), Some(Action::Read)), (vec![Action::Read], 3));
    let (actions, code) = walk(&emitting(EmitStage::Tokens), Some(Action::Lex));
    assert_eq!((actions.last(), code), (Some(&Action::ShowTokens), exit::COMPILE_ERROR));
    let (actions, code) = walk(&emitting(EmitStage::Ast), Some(Action::Lex));
    assert_eq!((actions.last(), code), (Some(&Action::ShowAst), exit::COMPILE_ERROR));
    let (actions, code) = walk(&emitting(EmitStage::Exe), Some(Action::Lex));
    assert_eq!(actions, [Action::Read, Action::Lex, Action::Parse, Action::ShowErrors]);
    assert_eq!(code, exit::COMPILE_ERROR);
    for failing in [Action::Import, Action::Check, Action::Lower] {
        let (actions, code) = walk(&emitting(EmitStage::Exe), Some(failing));
        assert_eq!((actions.last(), code), (Some(&failing), exit::COMPILE_ERROR));
    }
    let (actions, code) = walk(&emitting(EmitStage::MirHigh), Some(Action::Lower));
    assert_eq!((actions.last(), code), (Some(&Action::DumpHigh), exit::COMPILE_ERROR));
}

#[test]
fn a_gradient_is_of_buffers() {
    let is_ptr = [true, false, true, true];
    assert_eq!(grad_wrt(&is_ptr, &[], false).unwrap(), vec![0, 2, 3]);
    assert_eq!(grad_wrt(&is_ptr, &[], true).unwrap(), vec![0, 2]);
    assert_eq!(grad_wrt(&is_ptr, &[2, 0], true).unwrap(), vec![2, 0]);
    assert_eq!(
        grad_wrt(&is_ptr, &[4], false).unwrap_err(),
        "--grad-wrt index 4 is out of range (the function has 4 parameter(s))"
    );
    assert_eq!(
        grad_wrt(&is_ptr, &[0, 1], false).unwrap_err(),
        "--grad-wrt index 1 is not a buffer (pointer) parameter"
    );
    assert_eq!(
        grad_wrt(&is_ptr, &[2, 0, 2], false).unwrap_err(),
        "--grad-wrt index 2 is repeated; each parameter may be differentiated at most once"
    );
    assert_eq!(
        grad_wrt(&[false], &[], false).unwrap_err(),
        "the loss function has no buffer (pointer) parameters to differentiate"
    );
    assert!(grad_wrt(&[true], &[], true).unwrap_err().contains("no trainable buffer"));
    assert!(grad_wrt(&[], &[], true).is_err());
}

#[test]
fn types_have_sizes() {
    assert_eq!(ty_elem_count(&Ty::Scalar), Some(1));
    let nested = Ty::Array {
        elem: Box::new(array(5)),
        len: 3,
    };
    assert_eq!(ty_elem_count(&nested), Some(15));
    let tensor = |shape: Vec<Dim>| ty_elem_count(&Ty::Tensor { shape });
    assert_eq!(tensor(vec![]), Some(1));
    assert_eq!(tensor(vec![Dim::Const(4), Dim::Const(6)]), Some(24));
    assert_eq!(tensor(vec![Dim::Const(4), Dim::Symbolic, Dim::Const(6)]), None);
    assert_eq!(ty_elem_count(&Ty::Other), None);
    let square = |n: u64| Ty::Tensor {
        shape: vec![Dim::Const(n), Dim::Const(n)],
    };
    assert!(ty_is_countable(&square(u64::from(u32::MAX))));
    assert!(!ty_is_countable(&square(1 << 32)));
    assert!(ty_is_countable(&Ty::Other));
    let unknown = Def::Function {
        params: vec![array(2), Ty::Other, array(1)],
    };
    assert_eq!(
        loss_param_lens(&unknown, "cost").unwrap_err(),
        "parameter 1 of `cost` has no statically-known element count (a symbolic tensor dim or \
         slice); --train needs concrete buffer sizes"
    );
    assert_eq!(
        loss_param_lens(&Def::Missing, "cost").unwrap_err(),
        "no function `cost` in the module"
    );
    assert_eq!(
        loss_param_lens(&Def::NotAFunction, "cost").unwrap_err(),
        "`cost` is not a function"
    );
}

#[test]
fn a_training_is_planned() {
    let plan =
        train_plan(Some(&[true; 4]), "loss", &[], &[12, 8, 12, 1], TrainOpt::AdamW).unwrap();
    assert_eq!(plan.wrt, vec![0, 1, 2]);
    assert_eq!(plan.kernels, vec![8, 12]);
    assert_eq!(plan.params, 4);
    let sgd = train_plan(Some(&[true; 4]), "loss", &[1], &[12, 8, 12, 1], TrainOpt::Sgd).unwrap();
    assert!(sgd.kernels.is_empty());
    let fails = |is_ptr: Option<&[bool]>, wrt: &[usize], lens: &[u64]| {
        train_plan(is_ptr, "loss", wrt, lens, TrainOpt::Sgd).unwrap_err()
    };
    assert_eq!(fails(None, &[], &[]), "no function `loss` in the module");
    assert_eq!(
        fails(Some(&[true; 2]), &[0], &[3]),
        "internal: 1 param sizes for a 2-param loss function"
    );
    assert!(fails(Some(&[true; 2]), &[0], &[3, 2]).contains("scalar loss output"));
    assert_eq!(
        fails(Some(&[true; 2]), &[1], &[3, 1]),
        "--grad-wrt must not include the loss-output parameter (the last one)"
    );
    assert!(fails(Some(&[true; 2]), &[5], &[3, 1]).contains("out of range"));
}

#[test]
fn a_seed_determines_its_numbers() {
    let mut seed = 0xA11CEu64;
    let first = train_rand(&mut seed, 2);
    let mut s = 0xA11CEu64;
    for &raw in &first {
        s = s
            .wrapping_mul(6364136223846793005)
            .wrapping_add(1442695040888963407);
        assert_eq!(raw, (s >> 33) as u32);
    }
    assert_eq!(seed, s);
    let mut again = 0xA11CEu64;
    assert_eq!(train_rand(&mut again, 5)[..2], first[..]);
    assert!(train_rand(&mut again, 0).is_empty());
}

#[test]
fn a_training_is_reported() {
    let losses: Vec<String> = ["2.000000", "1.000000"].iter().map(|s| s.to_string()).collect();
    assert_eq!(
        train_report("0.05", TrainOpt::AdamW, &losses, "2.00"),
        "train: 1 step(s), lr=0.05, optimizer=adamw\n\
         step    0: loss 2.000000\n\
         step    1: loss 1.000000\n\
         loss 2.000000 -> 1.000000  (2.00x reduction)\n"
    );
    assert_eq!(
        train_report("0.1", TrainOpt::Sgd, &[], ""),
        "train: 0 step(s), lr=0.1, optimizer=sgd\n"
    );
    let many: Vec<String> = (0..1001).map(|_| "1".to_string()).collect();
    let report = train_report("1", TrainOpt::Sgd, &many, "1.00");
    assert!(report.contains("\nstep   10: loss 1\n"));
    assert!(report.contains("\nstep  100: loss 1\n"));
    assert!(report.contains("\nstep 1000: loss 1\n"));
}

fn files(is_obj: bool) -> Files {
    Files {
        is_obj,
        obj: "prog.o".to_string(),
        out: "prog".to_string(),
        shim: "/tmp/s/prog_shim.rs".to_string(),
        rt: "/tmp/s/prog_rt.c".to_string(),
        cc: "cc".to_string(),
    }
}

#[test]
fn files_are_named_after_the_input() {
    assert_eq!(stem_of(Some("prog")), "prog");
    assert_eq!(stem_of(None), "out");
    assert_eq!(object_path("prog", None, true), "prog.o");
    assert_eq!(object_path("prog", Some("x.obj"), true), "x.obj");
    assert_eq!(object_path("prog", Some("x"), false), "prog.o");
    assert_eq!(exe_path("prog", None, ".exe"), "prog.exe");
    assert_eq!(exe_path("prog", None, ""), "prog");
    assert_eq!(exe_path("prog", Some("x"), ".exe"), "x");
    assert_eq!(shim_name("prog"), "prog_shim.rs");
    assert_eq!(runtime_name("prog"), "prog_rt.c");
    assert_eq!(scratch_name(42, "prog"), "wukongc-42-prog");
    assert_eq!(
        rustc_link_args("s.rs", "/t/r.rlib", "/t/deps", "p.o", "p"),
        vec![
            "s.rs",
            "--edition",
            "2021",
            "-C",
            "panic=abort",
            "--extern",
            "wukong_runtime=/t/r.rlib",
            "-L",
            "dependency=/t/deps",
            "-C",
            "link-arg=p.o",
            "-o",
            "p",
        ]
    );
}

#[test]
fn an_emission_tells_what_came_of_it() {
    let exe = files(false);
    let failed = || NativeEvent::Failed("denied".to_string());
    let next = |f: &Files, action, event: NativeEvent| {
        let (a, m) = emit_native(f, action, &event);
        (a, m.unwrap_or_default())
    };
    assert_eq!(
        next(&exe, NativeAction::Codegen, failed()),
        (
            NativeAction::Exit(exit::COMPILE_ERROR),
            "error: cranelift codegen failed: denied".to_string()
        )
    );
    assert_eq!(
        next(&exe, NativeAction::WriteObject, failed()),
        (
            NativeAction::Exit(exit::IO_ERROR),
            "error: could not write `prog.o`: denied".to_string()
        )
    );
    assert_eq!(
        next(&files(true), NativeAction::WriteObject, NativeEvent::Done),
        (NativeAction::Exit(exit::OK), "wrote prog.o".to_string())
    );
    assert_eq!(
        next(&exe, NativeAction::RunRustc, failed()),
        (
            NativeAction::Exit(exit::COMPILE_ERROR),
            "error: `rustc` failed to link the native object `prog.o`".to_string()
        )
    );
    assert_eq!(
        next(&exe, NativeAction::RunCc, NativeEvent::Missing),
        (
            NativeAction::Exit(exit::UNIMPLEMENTED),
            "error: could not run `cc` to link.\n\
             note: the native object was written to `prog.o`.\n\
             help: install a C compiler (gcc/clang/cc) or set CC, or use `--run` to execute."
                .to_string()
        )
    );
}

#[test]
fn the_c_compiler_links_only_where_rustc_cannot() {
    let exe = files(false);
    let mut action = NativeAction::Codegen;
    let mut seen = Vec::new();
    let mut told = String::new();
    while !matches!(action, NativeAction::Exit(_)) {
        seen.push(action);
        let event = match action {
            NativeAction::RunRustc => NativeEvent::Missing,
            _ => NativeEvent::Done,
        };
        let (next, message) = emit_native(&exe, action, &event);
        action = next;
        told = message.unwrap_or_default();
    }
    assert_eq!(
        seen,
        vec![
            NativeAction::Codegen,
            NativeAction::WriteObject,
            NativeAction::FindRuntime,
            NativeAction::WriteShim,
            NativeAction::RunRustc,
            NativeAction::WriteRuntime,
            NativeAction::RunCc,
        ]
    );
    assert_eq!((action, told.as_str()), (NativeAction::Exit(exit::OK), "wrote prog"));
    let (next, _) = emit_native(&exe, NativeAction::FindRuntime, &NativeEvent::Missing);
    assert_eq!(next, NativeAction::WriteRuntime);
}

#[test]
fn failures_are_told() {
    assert_eq!(unreadable("a.wk", "gone"), "error: could not read `a.wk`: gone");
    assert_eq!(train_failed("x"), "error: --train: x");
    assert_eq!(grad_failed("x"), "error: --emit=grad: x");
    assert_eq!(run_failed("x"), "error: x");
    assert_eq!(
        no_target("cost"),
        "no function `cost` in the module (choose the target with --grad-of=<fn>)"
    );
    assert!(no_gpu_support(BackendKind::Gpu).ends_with("to use `--backend=gpu`"));
    assert!(no_gpu_support(BackendKind::GpuLower).ends_with("to use `--backend=gpu-native`"));
    assert!(no_device("libcuda.so.1").contains("dlopens `libcuda.so.1`"));
    let (lines, failed) = verify_or_ice(&["v3 is undefined".to_string()]);
    assert_eq!(lines, vec!["internal compiler error (MIR verify): v3 is undefined"]);
    assert!(failed);
    assert!(!verify_or_ice(&[]).1);
}
