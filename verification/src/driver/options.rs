//! The options of an invocation.
use vstd::prelude::*;
use vstd::string::*;

use crate::text;

verus! {

/// The artifact that a compilation is to produce.
#[derive(Clone, Copy, PartialEq, Eq, Debug, Structural)]
pub enum EmitStage {
    Tokens,
    Ast,
    MirHigh,
    Mir,
    /// The loss function and its gradient.
    Grad,
    LlvmIr,
    Obj,
    Exe,
}

impl EmitStage {
    /// The stage of a name, if it is one.
    pub open spec fn named(s: Seq<char>) -> Option<EmitStage> {
        if s == "tokens"@ {
            Some(EmitStage::Tokens)
        } else if s == "ast"@ {
            Some(EmitStage::Ast)
        } else if s == "mir-high"@ {
            Some(EmitStage::MirHigh)
        } else if s == "mir"@ || s == "mir-low"@ {
            Some(EmitStage::Mir)
        } else if s == "grad"@ {
            Some(EmitStage::Grad)
        } else if s == "llvm-ir"@ {
            Some(EmitStage::LlvmIr)
        } else if s == "obj"@ {
            Some(EmitStage::Obj)
        } else if s == "exe"@ {
            Some(EmitStage::Exe)
        } else {
            None
        }
    }

    /// The stage that `s` names.
    pub fn parse(s: &str) -> (r: Option<EmitStage>)
        ensures
            r == EmitStage::named(s@),
    {
        if text::same(s, "tokens") {
            Some(EmitStage::Tokens)
        } else if text::same(s, "ast") {
            Some(EmitStage::Ast)
        } else if text::same(s, "mir-high") {
            Some(EmitStage::MirHigh)
        } else if text::same(s, "mir") || text::same(s, "mir-low") {
            Some(EmitStage::Mir)
        } else if text::same(s, "grad") {
            Some(EmitStage::Grad)
        } else if text::same(s, "llvm-ir") {
            Some(EmitStage::LlvmIr)
        } else if text::same(s, "obj") {
            Some(EmitStage::Obj)
        } else if text::same(s, "exe") {
            Some(EmitStage::Exe)
        } else {
            None
        }
    }
}

/// How diagnostics are shown: annotated, or one JSON object a line.
#[derive(Clone, Copy, PartialEq, Eq, Debug, Structural)]
pub enum ErrorFormat {
    Human,
    Json,
}

/// What runs a program: the interpreter, native code, the interpreter with kernels on the GPU, or
/// the GPU alone.
#[derive(Clone, Copy, PartialEq, Eq, Debug, Structural)]
pub enum BackendKind {
    Interp,
    Native,
    Gpu,
    GpuLower,
}

/// How training updates a weight.
#[derive(Clone, Copy, PartialEq, Eq, Debug, Structural)]
pub enum TrainOpt {
    Sgd,
    AdamW,
}

impl TrainOpt {
    /// The name of an optimizer.
    pub open spec fn shown(self) -> Seq<char> {
        match self {
            TrainOpt::Sgd => "sgd"@,
            TrainOpt::AdamW => "adamw"@,
        }
    }

    /// See [`TrainOpt::shown`].
    pub fn name(self) -> (r: &'static str)
        ensures
            r@ == self.shown(),
    {
        match self {
            TrainOpt::Sgd => "sgd",
            TrainOpt::AdamW => "adamw",
        }
    }
}

/// What is to be differentiated, and how training goes. The learning rate is not among them: no
/// decision depends on it.
#[derive(Debug)]
pub struct GradOptions {
    /// The loss function; `loss` where there is none.
    pub of: Option<String>,
    /// The parameters to differentiate by; every buffer where there is none.
    pub wrt: Vec<usize>,
    /// Train, rather than emit.
    pub train: bool,
    pub train_steps: usize,
    pub train_opt: TrainOpt,
    pub train_seed: u64,
}

impl Default for GradOptions {
    fn default() -> (r: GradOptions)
        ensures
            r.of is None,
            r.wrt@.len() == 0,
            !r.train,
            r.train_steps == 100,
            r.train_opt == TrainOpt::Sgd,
            r.train_seed == 0x5eed_1234,
    {
        GradOptions {
            of: None,
            wrt: Vec::new(),
            train: false,
            train_steps: 100,
            train_opt: TrainOpt::Sgd,
            train_seed: 0x5eed_1234,
        }
    }
}

impl GradOptions {
    /// The name of the loss function.
    pub open spec fn loss(self) -> Seq<char> {
        match self.of {
            Some(name) => name@,
            None => "loss"@,
        }
    }

    /// See [`GradOptions::loss`].
    pub fn loss_name(&self) -> (r: String)
        ensures
            r@ == self.loss(),
    {
        match &self.of {
            Some(name) => name.clone(),
            None => String::from_str("loss"),
        }
    }
}

/// The options of an invocation.
#[derive(Debug)]
pub struct Options {
    pub input: String,
    pub output: Option<String>,
    pub emit: EmitStage,
    pub run: bool,
    pub opt_level: u8,
    pub color: bool,
    pub error_format: ErrorFormat,
    pub backend: BackendKind,
    pub grad: GradOptions,
}

impl Default for Options {
    fn default() -> (r: Options)
        ensures
            r.input@.len() == 0,
            r.output is None,
            r.emit == EmitStage::Exe,
            !r.run,
            r.opt_level == 0,
            r.color,
            r.error_format == ErrorFormat::Human,
            r.backend == BackendKind::Interp,
            r.grad.of is None,
            r.grad.wrt@.len() == 0,
            !r.grad.train,
            r.grad.train_steps == 100,
            r.grad.train_opt == TrainOpt::Sgd,
            r.grad.train_seed == 0x5eed_1234,
    {
        Options {
            input: String::new(),
            output: None,
            emit: EmitStage::Exe,
            run: false,
            opt_level: 0,
            color: true,
            error_format: ErrorFormat::Human,
            backend: BackendKind::Interp,
            grad: GradOptions::default(),
        }
    }
}

/// Names tell stages apart: two names are of the same stage only where they are the same name or
/// the two names of the MIR, and every stage has a name.
pub proof fn law_names_tell_stages_apart(s: Seq<char>, t: Seq<char>)
    requires
        EmitStage::named(s) is Some,
        EmitStage::named(s) == EmitStage::named(t),
    ensures
        s == t || (s == "mir"@ || s == "mir-low"@) && (t == "mir"@ || t == "mir-low"@),
        EmitStage::named(s) == Some(EmitStage::Mir) <==> s == "mir"@ || s == "mir-low"@,
        EmitStage::named(s) == Some(EmitStage::Tokens) <==> s == "tokens"@,
        EmitStage::named(s) == Some(EmitStage::Ast) <==> s == "ast"@,
        EmitStage::named(s) == Some(EmitStage::MirHigh) <==> s == "mir-high"@,
        EmitStage::named(s) == Some(EmitStage::Grad) <==> s == "grad"@,
        EmitStage::named(s) == Some(EmitStage::LlvmIr) <==> s == "llvm-ir"@,
        EmitStage::named(s) == Some(EmitStage::Obj) <==> s == "obj"@,
        EmitStage::named(s) == Some(EmitStage::Exe) <==> s == "exe"@,
{
    reveal_strlit("tokens");
    reveal_strlit("ast");
    reveal_strlit("mir-high");
    reveal_strlit("mir");
    reveal_strlit("mir-low");
    reveal_strlit("grad");
    reveal_strlit("llvm-ir");
    reveal_strlit("obj");
    reveal_strlit("exe");
    assert("ast"@[0] == 'a' && "mir"@[0] == 'm' && "obj"@[0] == 'o' && "exe"@[0] == 'e');
    assert("mir-low"@[0] == 'm' && "llvm-ir"@[0] == 'l');
    assert("tokens"@.len() == 6 && "mir-high"@.len() == 8 && "grad"@.len() == 4);
    assert("ast"@.len() == 3 && "mir"@.len() == 3 && "obj"@.len() == 3 && "exe"@.len() == 3);
    assert("mir-low"@.len() == 7 && "llvm-ir"@.len() == 7);
}

} // verus!
