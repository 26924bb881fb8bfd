//! Emission of native code: the files it makes, the linkers it tries, and what it tells.
//!
//! The object is linked by `rustc`, together with the runtime library. Only where that cannot be
//! tried does the C compiler link it, together with a small runtime in C.
use vstd::prelude::*;
use vstd::string::*;

use crate::driver::exit;
use crate::ptx_wmma::frames;
use crate::ptx_wmma::readings;
use crate::text;

verus! {

pub const OBJECT_NAME: &'static str = "#0.o";

pub const EXE_NAME: &'static str = "#0#1";

pub const SHIM_NAME: &'static str = "#0_shim.rs";

pub const RUNTIME_NAME: &'static str = "#0_rt.c";

pub const SCRATCH_NAME: &'static str = "wukongc-#0-#1";

pub const RUNTIME_CRATE: &'static str = "wukong_runtime=#0";

pub const DEPENDENCIES: &'static str = "dependency=#0";

pub const LINK_ARG: &'static str = "link-arg=#0";

/// The name of the files of an input: that of the input without its extension, or `out`.
pub open spec fn stem(input: Option<Seq<char>>) -> Seq<char> {
    match input {
        Some(s) => s,
        None => "out"@,
    }
}

/// See [`stem`].
pub fn stem_of(input: Option<&str>) -> (r: String)
    ensures
        r@ == stem(
            match input {
                Some(s) => Some(s@),
                None => None,
            },
        ),
{
    match input {
        Some(s) => String::from_str(s),
        None => String::from_str("out"),
    }
}

/// The object file: where an object is all that is asked for, it is the output.
pub fn object_path(stem: &str, output: Option<&str>, is_obj: bool) -> (r: String)
    ensures
        r@ == (match output {
            Some(o) if is_obj => o@,
            _ => text::fill(OBJECT_NAME@, seq![stem@]),
        }),
{
    match output {
        Some(o) if is_obj => String::from_str(o),
        _ => text::expand1(OBJECT_NAME, stem),
    }
}

/// The executable: the output, or else named after the input as the platform names executables.
pub fn exe_path(stem: &str, output: Option<&str>, exe_suffix: &str) -> (r: String)
    ensures
        r@ == (match output {
            Some(o) => o@,
            None => text::fill(EXE_NAME@, seq![stem@, exe_suffix@]),
        }),
{
    match output {
        Some(o) => String::from_str(o),
        None => text::expand2(EXE_NAME, stem, exe_suffix),
    }
}

/// The name of the shim that `rustc` compiles.
pub fn shim_name(stem: &str) -> (r: String)
    ensures
        r@ == text::fill(SHIM_NAME@, seq![stem@]),
{
    text::expand1(SHIM_NAME, stem)
}

/// The name of the runtime that the C compiler compiles.
pub fn runtime_name(stem: &str) -> (r: String)
    ensures
        r@ == text::fill(RUNTIME_NAME@, seq![stem@]),
{
    text::expand1(RUNTIME_NAME, stem)
}

/// The name of the directory that those are written to: one for each process.
pub fn scratch_name(pid: u32, stem: &str) -> (r: String)
    ensures
        r@ == text::fill(SCRATCH_NAME@, seq![text::dec(pid as nat), stem@]),
{
    text::expand2(SCRATCH_NAME, &text::decimal64(pid as u64), stem)
}

/// The texts of a list of strings.
pub open spec fn texts(v: Seq<String>) -> Seq<Seq<char>> {
    Seq::new(v.len(), |i: int| v[i]@)
}

/// What the C compiler is told: see [`cc_link_args`].
pub open spec fn cc_args(obj: Seq<char>, rt: Seq<char>, out: Seq<char>) -> Seq<Seq<char>> {
    seq![obj, rt, "-o"@, out, "-O2"@, "-lm"@]
}

/// What the C compiler is told.
pub fn cc_link_args(obj_path: &str, rt_path: &str, out: &str) -> (r: Vec<String>)
    ensures
        texts(r@) == cc_args(obj_path@, rt_path@, out@),
{
    let mut r: Vec<String> = Vec::new();
    r.push(String::from_str(obj_path));
    r.push(String::from_str(rt_path));
    r.push(String::from_str("-o"));
    r.push(String::from_str(out));
    r.push(String::from_str("-O2"));
    r.push(String::from_str("-lm"));
    assert(texts(r@) =~= cc_args(obj_path@, rt_path@, out@));
    r
}

/// The library of mathematics follows what refers to it: a linker resolves from left to right.
pub proof fn law_libm_is_last(obj: Seq<char>, rt: Seq<char>, out: Seq<char>)
    ensures
        cc_args(obj, rt, out).last() == "-lm"@,
        cc_args(obj, rt, out)[0] == obj,
        cc_args(obj, rt, out)[1] == rt,
{
}

/// What `rustc` is told: see [`rustc_link_args`].
pub open spec fn rustc_args(
    shim: Seq<char>,
    rlib: Seq<char>,
    deps: Seq<char>,
    obj: Seq<char>,
    out: Seq<char>,
) -> Seq<Seq<char>> {
    seq![
        shim,
        "--edition"@,
        "2021"@,
        "-C"@,
        "panic=abort"@,
        "--extern"@,
        text::fill(RUNTIME_CRATE@, seq![rlib]),
        "-L"@,
        text::fill(DEPENDENCIES@, seq![deps]),
        "-C"@,
        text::fill(LINK_ARG@, seq![obj]),
        "-o"@,
        out,
    ]
}

/// What `rustc` is told: it compiles the shim with the runtime library, and hands the object to the
/// linker of the platform.
pub fn rustc_link_args(shim: &str, rlib: &str, deps: &str, obj: &str, out: &str) -> (r: Vec<String>)
    ensures
        texts(r@) == rustc_args(shim@, rlib@, deps@, obj@, out@),
{
    let mut r: Vec<String> = Vec::new();
    r.push(String::from_str(shim));
    r.push(String::from_str("--edition"));
    r.push(String::from_str("2021"));
    r.push(String::from_str("-C"));
    r.push(String::from_str("panic=abort"));
    r.push(String::from_str("--extern"));
    r.push(text::expand1(RUNTIME_CRATE, rlib));
    r.push(String::from_str("-L"));
    r.push(text::expand1(DEPENDENCIES, deps));
    r.push(String::from_str("-C"));
    r.push(text::expand1(LINK_ARG, obj));
    r.push(String::from_str("-o"));
    r.push(String::from_str(out));
    assert(texts(r@) =~= rustc_args(shim@, rlib@, deps@, obj@, out@));
    r
}

/// What is to be done next.
#[derive(Clone, Copy, PartialEq, Eq, Debug, Structural)]
pub enum NativeAction {
    /// Make the object.
    Codegen,
    WriteObject,
    /// Find the runtime library.
    FindRuntime,
    WriteShim,
    RunRustc,
    /// Write the runtime in C.
    WriteRuntime,
    RunCc,
    /// Nothing: this is the exit code.
    Exit(i32),
}

/// What came of an action.
#[derive(Debug)]
pub enum NativeEvent {
    Done,
    /// It failed, for this reason.
    Failed(String),
    /// It could not be tried.
    Missing,
}

/// The files of an emission.
#[derive(Debug)]
pub struct Files {
    /// Whether the object is all that is asked for.
    pub is_obj: bool,
    pub obj: String,
    pub out: String,
    pub shim: String,
    pub rt: String,
    /// The C compiler.
    pub cc: String,
}

pub const CODEGEN_FAILED: &'static str = "error: cranelift codegen failed: #0";

pub const NOT_WRITTEN: &'static str = "error: could not write `#0`: #1";

pub const WROTE: &'static str = "wrote #0";

pub const LINK_FAILED: &'static str = "error: `#0` failed to link the native object `#1`";

pub const NO_LINKER: &'static str = "error: could not run `#0` to link.
note: the native object was written to `#1`.
help: install a C compiler (gcc/clang/cc) or set CC, or use `--run` to execute.";

/// Why an action failed.
pub open spec fn reason(event: NativeEvent) -> Seq<char> {
    match event {
        NativeEvent::Failed(e) => e@,
        _ => ""@,
    }
}

/// What follows an action, and what is told of it.
pub open spec fn next(f: Files, action: NativeAction, event: NativeEvent) -> (
    NativeAction,
    Option<Seq<char>>,
) {
    let done = event is Done;
    let ok = NativeAction::Exit(exit::OK);
    let compile = NativeAction::Exit(exit::COMPILE_ERROR);
    let io = NativeAction::Exit(exit::IO_ERROR);
    let why = reason(event);
    match action {
        NativeAction::Codegen => if done {
            (NativeAction::WriteObject, None)
        } else {
            (compile, Some(text::fill(CODEGEN_FAILED@, seq![why])))
        },
        NativeAction::WriteObject => if !done {
            (io, Some(text::fill(NOT_WRITTEN@, seq![f.obj@, why])))
        } else if f.is_obj {
            (ok, Some(text::fill(WROTE@, seq![f.obj@])))
        } else {
            (NativeAction::FindRuntime, None)
        },
        NativeAction::FindRuntime => if done {
            (NativeAction::WriteShim, None)
        } else {
            (NativeAction::WriteRuntime, None)
        },
        NativeAction::WriteShim => if done {
            (NativeAction::RunRustc, None)
        } else {
            (compile, Some(text::fill(NOT_WRITTEN@, seq![f.shim@, why])))
        },
        NativeAction::RunRustc => match event {
            NativeEvent::Done => (ok, Some(text::fill(WROTE@, seq![f.out@]))),
            NativeEvent::Failed(_) => (
                compile,
                Some(text::fill(LINK_FAILED@, seq!["rustc"@, f.obj@])),
            ),
            NativeEvent::Missing => (NativeAction::WriteRuntime, None),
        },
        NativeAction::WriteRuntime => if done {
            (NativeAction::RunCc, None)
        } else {
            (io, Some(text::fill(NOT_WRITTEN@, seq![f.rt@, why])))
        },
        NativeAction::RunCc => match event {
            NativeEvent::Done => (ok, Some(text::fill(WROTE@, seq![f.out@]))),
            NativeEvent::Failed(_) => (
                compile,
                Some(text::fill(LINK_FAILED@, seq![f.cc@, f.obj@])),
            ),
            NativeEvent::Missing => (
                NativeAction::Exit(exit::UNIMPLEMENTED),
                Some(text::fill(NO_LINKER@, seq![f.cc@, f.obj@])),
            ),
        },
        NativeAction::Exit(_) => (action, None),
    }
}

/// The text of a message.
pub open spec fn told(m: Option<String>) -> Option<Seq<char>> {
    match m {
        Some(s) => Some(s@),
        None => None,
    }
}

/// A refusal to write a file.
fn not_written(path: &str, event: &NativeEvent) -> (r: Option<String>)
    ensures
        told(r) == Some(text::fill(NOT_WRITTEN@, seq![path@, reason(*event)])),
{
    match event {
        NativeEvent::Failed(e) => Some(text::expand2(NOT_WRITTEN, path, e)),
        _ => Some(text::expand2(NOT_WRITTEN, path, "")),
    }
}

/// What follows an action of an emission, and what is told of it.
pub fn emit_native(f: &Files, action: NativeAction, event: &NativeEvent) -> (r: (
    NativeAction,
    Option<String>,
))
    ensures
        r.0 == next(*f, action, *event).0,
        told(r.1) == next(*f, action, *event).1,
{
    let done = match event {
        NativeEvent::Done => true,
        _ => false,
    };
    match action {
        NativeAction::Codegen => if done {
            (NativeAction::WriteObject, None)
        } else {
            let why = match event {
                NativeEvent::Failed(e) => text::expand1(CODEGEN_FAILED, e),
                _ => text::expand1(CODEGEN_FAILED, ""),
            };
            (NativeAction::Exit(exit::COMPILE_ERROR), Some(why))
        },
        NativeAction::WriteObject => if !done {
            (NativeAction::Exit(exit::IO_ERROR), not_written(&f.obj, event))
        } else if f.is_obj {
            (NativeAction::Exit(exit::OK), Some(text::expand1(WROTE, &f.obj)))
        } else {
            (NativeAction::FindRuntime, None)
        },
        NativeAction::FindRuntime => if done {
            (NativeAction::WriteShim, None)
        } else {
            (NativeAction::WriteRuntime, None)
        },
        NativeAction::WriteShim => if done {
            (NativeAction::RunRustc, None)
        } else {
            (NativeAction::Exit(exit::COMPILE_ERROR), not_written(&f.shim, event))
        },
        NativeAction::RunRustc => match event {
            NativeEvent::Done => {
                (NativeAction::Exit(exit::OK), Some(text::expand1(WROTE, &f.out)))
            },
            NativeEvent::Failed(_) => (
                NativeAction::Exit(exit::COMPILE_ERROR),
                Some(text::expand2(LINK_FAILED, "rustc", &f.obj)),
            ),
            NativeEvent::Missing => (NativeAction::WriteRuntime, None),
        },
        NativeAction::WriteRuntime => if done {
            (NativeAction::RunCc, None)
        } else {
            (NativeAction::Exit(exit::IO_ERROR), not_written(&f.rt, event))
        },
        NativeAction::RunCc => match event {
            NativeEvent::Done => {
                (NativeAction::Exit(exit::OK), Some(text::expand1(WROTE, &f.out)))
            },
            NativeEvent::Failed(_) => (
                NativeAction::Exit(exit::COMPILE_ERROR),
                Some(text::expand2(LINK_FAILED, &f.cc, &f.obj)),
            ),
            NativeEvent::Missing => (
                NativeAction::Exit(exit::UNIMPLEMENTED),
                Some(text::expand2(NO_LINKER, &f.cc, &f.obj)),
            ),
        },
        NativeAction::Exit(_) => (action, None),
    }
}

/// How far an action is along the way.
pub open spec fn rank(action: NativeAction) -> nat {
    match action {
        NativeAction::Codegen => 0,
        NativeAction::WriteObject => 1,
        NativeAction::FindRuntime => 2,
        NativeAction::WriteShim => 3,
        NativeAction::RunRustc => 4,
        NativeAction::WriteRuntime => 5,
        NativeAction::RunCc => 6,
        NativeAction::Exit(_) => 7,
    }
}

/// An emission ends, and it ends with something to tell.
pub proof fn law_an_emission_ends(f: Files, action: NativeAction, event: NativeEvent)
    requires
        action !is Exit,
    ensures
        rank(next(f, action, event).0) > rank(action),
        next(f, action, event).0 is Exit <==> next(f, action, event).1 is Some,
{
}

/// The C compiler is a fallback for a linker that is not there, never for a link that failed.
pub proof fn law_a_failed_link_is_final(f: Files, e: String)
    ensures
        next(f, NativeAction::RunRustc, NativeEvent::Failed(e)).0 == NativeAction::Exit(
            exit::COMPILE_ERROR,
        ),
        next(f, NativeAction::RunCc, NativeEvent::Failed(e)).0 == NativeAction::Exit(
            exit::COMPILE_ERROR,
        ),
        next(f, NativeAction::RunRustc, NativeEvent::Missing).0 == NativeAction::WriteRuntime,
{
}

/// Success is reported of what succeeded, and names the file that was asked for.
pub proof fn law_success_names_the_output(f: Files, action: NativeAction, event: NativeEvent)
    requires
        action !is Exit,
        next(f, action, event).0 == NativeAction::Exit(exit::OK),
    ensures
        event is Done,
        next(f, action, event).1 == Some(
            text::fill(
                WROTE@,
                seq![
                    if action == NativeAction::WriteObject {
                        f.obj@
                    } else {
                        f.out@
                    },
                ],
            ),
        ),
        action == NativeAction::WriteObject ==> f.is_obj,
{
}

/// The output follows its flag, once, in what either tool is told; the object is handed to both, and
/// the runtime library and its dependencies to `rustc`.
pub proof fn law_tools_are_told_their_files(
    shim: Seq<char>,
    rlib: Seq<char>,
    deps: Seq<char>,
    obj: Seq<char>,
    rt: Seq<char>,
    out: Seq<char>,
)
    ensures
        ({
            let c = cc_args(obj, rt, out);
            let r = rustc_args(shim, rlib, deps, obj, out);
            &&& exists|i: int| 0 <= i < c.len() - 1 && #[trigger] c[i] == "-o"@ && c[i + 1] == out
            &&& exists|i: int| 0 <= i < r.len() - 1 && #[trigger] r[i] == "-o"@ && r[i + 1] == out
            &&& c.contains(obj)
            &&& c.contains(rt)
            &&& r[0] == shim
            &&& exists|i: int|
                0 <= i < r.len() - 1 && #[trigger] r[i] == "-C"@ && r[i + 1] == "link-arg="@ + obj
            &&& exists|i: int|
                0 <= i < r.len() - 1 && #[trigger] r[i] == "--extern"@ && r[i + 1]
                    == "wukong_runtime="@ + rlib
            &&& exists|i: int|
                0 <= i < r.len() - 1 && #[trigger] r[i] == "-L"@ && r[i + 1] == "dependency="@
                    + deps
        }),
{
    let c = cc_args(obj, rt, out);
    let r = rustc_args(shim, rlib, deps, obj, out);
    lemma_prefixed("link-arg="@, LINK_ARG@, obj);
    lemma_prefixed("wukong_runtime="@, RUNTIME_CRATE@, rlib);
    lemma_prefixed("dependency="@, DEPENDENCIES@, deps);
    assert(c[2] == "-o"@ && c[3] == out);
    assert(c[0] == obj && c[1] == rt);
    assert(r[11] == "-o"@ && r[12] == out);
    assert(r[9] == "-C"@ && r[5] == "--extern"@ && r[7] == "-L"@);
}

/// A text before a hole.
proof fn lemma_prefixed(a: Seq<char>, t: Seq<char>, x: Seq<char>)
    requires
        t == LINK_ARG@ && a == "link-arg="@ || t == RUNTIME_CRATE@ && a == "wukong_runtime="@ || t
            == DEPENDENCIES@ && a == "dependency="@,
    ensures
        text::fill(t, seq![x]) == a + x,
{
    reveal_strlit("link-arg=");
    reveal_strlit("link-arg=#0");
    reveal_strlit("wukong_runtime=");
    reveal_strlit("wukong_runtime=#0");
    reveal_strlit("dependency=");
    reveal_strlit("dependency=#0");
    let hole = seq!['#', '0'];
    assert(t =~= a + hole);
    readings::lemma_hole('0', seq![x]);
    frames::lemma_fill_plain(a, seq![x]);
    frames::lemma_fill_add(a, hole, seq![x]);
}

/// An emission goes one way: the object is written first, an object that was asked for is then done,
/// and an executable is linked by `rustc` where there is a runtime library for it and by the C
/// compiler where there is none or no `rustc`. It succeeds only behind a link that did.
pub proof fn law_how_an_executable_comes_about(f: Files, action: NativeAction, event: NativeEvent)
    requires
        action !is Exit,
    ensures
        ({
            let n = next(f, action, event).0;
            &&& n == NativeAction::WriteObject <==> action == NativeAction::Codegen && event is Done
            &&& n == NativeAction::FindRuntime <==> action == NativeAction::WriteObject && event
                is Done && !f.is_obj
            &&& n == NativeAction::WriteShim <==> action == NativeAction::FindRuntime && event
                is Done
            &&& n == NativeAction::RunRustc <==> action == NativeAction::WriteShim && event is Done
            &&& n == NativeAction::WriteRuntime <==> action == NativeAction::FindRuntime && event
                !is Done || action == NativeAction::RunRustc && event is Missing
            &&& n == NativeAction::RunCc <==> action == NativeAction::WriteRuntime && event is Done
            &&& n == NativeAction::Exit(exit::OK) <==> event is Done && (action
                == NativeAction::RunRustc || action == NativeAction::RunCc || action
                == NativeAction::WriteObject && f.is_obj)
        }),
{
}

} // verus!
