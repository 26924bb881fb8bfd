//! A compilation as a machine: each stage is an [`Action`], what came of it an [`Event`], and the
//! machine says what follows.
use vstd::prelude::*;

use crate::driver::exit;
use crate::driver::options;

verus! {

/// What is to be done next.
#[derive(Clone, Copy, PartialEq, Eq, Debug, Structural)]
pub enum Action {
    /// Read the input.
    Read,
    Lex,
    /// Show the diagnostics so far, then the tokens.
    ShowTokens,
    Parse,
    /// Show the diagnostics so far, then the tree.
    ShowAst,
    /// Show the diagnostics so far: the input cannot be used.
    ShowErrors,
    /// Load what the input imports, then show the diagnostics so far.
    Import,
    /// Check names, types and shapes, and show what came of it.
    Check,
    /// Find the sizes of the loss function's buffers.
    Measure,
    /// Lower to MIR, and show what came of it.
    Lower,
    /// Verify the MIR as it was lowered, and show it.
    DumpHigh,
    /// Optimize at a level.
    Optimize(u8),
    Train,
    /// Differentiate, verify and show the result.
    EmitGrad,
    /// Verify the MIR before a backend has it.
    Verify,
    /// Run the program.
    Run(options::BackendKind),
    /// Verify the MIR and show it.
    Dump,
    EmitLlvm,
    /// Emit an object, and for an executable link it.
    EmitNative,
    /// Nothing: this is the exit code.
    Exit(i32),
}

/// What came of an action.
#[derive(Clone, Copy, PartialEq, Eq, Debug, Structural)]
pub enum Event {
    /// It succeeded, or had nothing that could fail.
    Done,
    /// It failed, or reported an error.
    Failed,
    /// The program ran and returned this.
    Returned(i64),
    /// This is its exit code.
    Code(i32),
}

/// Where a compilation stands: what it is doing, and whether an error has been reported that the
/// tokens or the tree were shown in spite of.
#[derive(Clone, Copy, PartialEq, Eq, Debug, Structural)]
pub struct At {
    pub action: Action,
    pub errors: bool,
}

/// The choices that a compilation depends on.
#[derive(Clone, Copy, PartialEq, Eq, Debug, Structural)]
pub struct Choice {
    pub emit: options::EmitStage,
    pub run: bool,
    pub opt_level: u8,
    pub backend: options::BackendKind,
    pub train: bool,
}

/// The exit code of a program that returned `code`.
pub open spec fn code_of(code: i64) -> i32 {
    code as i32
}

impl Choice {
    /// Whether an artifact is made for another tool: the MIR is verified before.
    pub open spec fn ahead_of_time(self) -> bool {
        self.emit == options::EmitStage::LlvmIr || self.emit == options::EmitStage::Obj || self.emit
            == options::EmitStage::Exe
    }

    /// The level to optimize at: gradients need at least the first.
    pub open spec fn level(self) -> u8 {
        if (self.emit == options::EmitStage::Grad || self.train) && self.opt_level == 0 {
            1
        } else {
            self.opt_level
        }
    }

    /// What follows the optimized MIR.
    pub open spec fn goal(self) -> Action {
        if self.train {
            Action::Train
        } else if self.emit == options::EmitStage::Grad {
            Action::EmitGrad
        } else if self.run || self.ahead_of_time() {
            Action::Verify
        } else if self.emit == options::EmitStage::Mir {
            Action::Dump
        } else {
            Action::Exit(exit::OK)
        }
    }

    /// What verified MIR is handed to.
    pub open spec fn backend_of(self) -> Action {
        if self.run {
            Action::Run(self.backend)
        } else if self.emit == options::EmitStage::LlvmIr {
            Action::EmitLlvm
        } else {
            Action::EmitNative
        }
    }

    /// What follows an action that succeeded, with no error so far.
    pub open spec fn success(self, action: Action) -> Action {
        match action {
            Action::Read => Action::Lex,
            Action::Lex => if self.emit == options::EmitStage::Tokens {
                Action::ShowTokens
            } else {
                Action::Parse
            },
            Action::Parse => if self.emit == options::EmitStage::Ast {
                Action::ShowAst
            } else {
                Action::Import
            },
            Action::Import => Action::Check,
            Action::Check => if self.train {
                Action::Measure
            } else {
                Action::Lower
            },
            Action::Measure => Action::Lower,
            Action::Lower => if self.emit == options::EmitStage::MirHigh {
                Action::DumpHigh
            } else {
                Action::Optimize(self.level())
            },
            Action::Optimize(_) => self.goal(),
            Action::Verify => self.backend_of(),
            _ => Action::Exit(exit::OK),
        }
    }

    /// What follows an action that failed or after which an error had been reported: what was asked
    /// for is shown where there is something to show, and then it is over.
    pub open spec fn failure(self, action: Action) -> Action {
        match action {
            Action::Read => Action::Exit(exit::IO_ERROR),
            Action::Lex => if self.emit == options::EmitStage::Tokens {
                Action::ShowTokens
            } else {
                Action::Parse
            },
            Action::Parse => if self.emit == options::EmitStage::Ast {
                Action::ShowAst
            } else {
                Action::ShowErrors
            },
            Action::Lower => if self.emit == options::EmitStage::MirHigh {
                Action::DumpHigh
            } else {
                Action::Exit(exit::COMPILE_ERROR)
            },
            _ => Action::Exit(exit::COMPILE_ERROR),
        }
    }

    /// Where a compilation goes from `at` with what came of its action.
    pub open spec fn next(self, at: At, event: Event) -> At {
        let errors = at.errors || event == Event::Failed;
        match (at.action, event) {
            (Action::Exit(_), _) => at,
            (_, Event::Returned(code)) => At { action: Action::Exit(code_of(code)), errors },
            (_, Event::Code(code)) => At { action: Action::Exit(code), errors },
            _ => At {
                action: if errors {
                    self.failure(at.action)
                } else {
                    self.success(at.action)
                },
                errors,
            },
        }
    }

    /// The choices of an invocation.
    pub open spec fn of(o: options::Options) -> Choice {
        Choice {
            emit: o.emit,
            run: o.run,
            opt_level: o.opt_level,
            backend: o.backend,
            train: o.grad.train,
        }
    }
}

/// Where every compilation starts.
pub open spec fn start() -> At {
    At { action: Action::Read, errors: false }
}

/// A compilation.
#[derive(Clone, Copy, Debug)]
pub struct Pipeline {
    pub choice: Choice,
    pub at: At,
}

impl Pipeline {
    /// A compilation that has yet to start.
    pub fn new(o: &options::Options) -> (r: Pipeline)
        ensures
            r.choice == Choice::of(*o),
            r.at == start(),
    {
        Pipeline {
            choice: Choice {
                emit: o.emit,
                run: o.run,
                opt_level: o.opt_level,
                backend: o.backend,
                train: o.grad.train,
            },
            at: At { action: Action::Read, errors: false },
        }
    }

    /// What is to be done now.
    pub fn action(&self) -> (r: Action)
        ensures
            r == self.at.action,
    {
        self.at.action
    }

    /// What follows the optimized MIR.
    fn goal(&self) -> (r: Action)
        ensures
            r == self.choice.goal(),
    {
        let c = self.choice;
        if c.train {
            return Action::Train;
        }
        match c.emit {
            options::EmitStage::Grad => Action::EmitGrad,
            options::EmitStage::LlvmIr | options::EmitStage::Obj | options::EmitStage::Exe => {
                Action::Verify
            },
            _ => if c.run {
                Action::Verify
            } else if c.emit == options::EmitStage::Mir {
                Action::Dump
            } else {
                Action::Exit(exit::OK)
            },
        }
    }

    /// What follows an action that succeeded.
    fn success(&self, action: Action) -> (r: Action)
        ensures
            r == self.choice.success(action),
    {
        let c = self.choice;
        match action {
            Action::Read => Action::Lex,
            Action::Lex => if c.emit == options::EmitStage::Tokens {
                Action::ShowTokens
            } else {
                Action::Parse
            },
            Action::Parse => if c.emit == options::EmitStage::Ast {
                Action::ShowAst
            } else {
                Action::Import
            },
            Action::Import => Action::Check,
            Action::Check => if c.train {
                Action::Measure
            } else {
                Action::Lower
            },
            Action::Measure => Action::Lower,
            Action::Lower => if c.emit == options::EmitStage::MirHigh {
                Action::DumpHigh
            } else if (c.emit == options::EmitStage::Grad || c.train) && c.opt_level == 0 {
                Action::Optimize(1)
            } else {
                Action::Optimize(c.opt_level)
            },
            Action::Optimize(_) => self.goal(),
            Action::Verify => if c.run {
                Action::Run(c.backend)
            } else if c.emit == options::EmitStage::LlvmIr {
                Action::EmitLlvm
            } else {
                Action::EmitNative
            },
            _ => Action::Exit(exit::OK),
        }
    }

    /// What follows an action that failed.
    fn failure(&self, action: Action) -> (r: Action)
        ensures
            r == self.choice.failure(action),
    {
        let c = self.choice;
        match action {
            Action::Read => Action::Exit(exit::IO_ERROR),
            Action::Lex => if c.emit == options::EmitStage::Tokens {
                Action::ShowTokens
            } else {
                Action::Parse
            },
            Action::Parse => if c.emit == options::EmitStage::Ast {
                Action::ShowAst
            } else {
                Action::ShowErrors
            },
            Action::Lower => if c.emit == options::EmitStage::MirHigh {
                Action::DumpHigh
            } else {
                Action::Exit(exit::COMPILE_ERROR)
            },
            _ => Action::Exit(exit::COMPILE_ERROR),
        }
    }

    /// Takes what came of the action, and returns what is to be done next.
    pub fn advance(&mut self, event: Event) -> (r: Action)
        ensures
            final(self).choice == old(self).choice,
            final(self).at == old(self).choice.next(old(self).at, event),
            r == final(self).at.action,
    {
        let action = self.at.action;
        if let Action::Exit(_) = action {
            return action;
        }
        if event == Event::Failed {
            self.at.errors = true;
        }
        let errors = self.at.errors;
        let next = match event {
            Event::Returned(code) => Action::Exit(code as i32),
            Event::Code(code) => Action::Exit(code),
            _ => if errors {
                self.failure(action)
            } else {
                self.success(action)
            },
        };
        self.at = At { action: next, errors };
        next
    }
}

/// How far an action is along the way.
pub open spec fn rank(action: Action) -> nat {
    match action {
        Action::Read => 0,
        Action::Lex => 1,
        Action::Parse => 2,
        Action::Import => 3,
        Action::Check => 4,
        Action::Measure => 5,
        Action::Lower => 6,
        Action::Optimize(_) => 7,
        Action::Verify => 8,
        Action::Exit(_) => 10,
        _ => 9,
    }
}

/// A compilation ends: every step is further along.
pub proof fn law_a_compilation_ends(c: Choice, at: At, event: Event)
    ensures
        at.action is Exit || rank(c.next(at, event).action) > rank(at.action),
        at.action is Exit ==> c.next(at, event) == at,
{
}

/// A backend is handed MIR only that the verifier has just passed.
pub proof fn law_backends_get_verified_mir(c: Choice, at: At, event: Event)
    requires
        at.action !is Exit,
        c.next(at, event).action is Run || c.next(at, event).action is EmitLlvm || c.next(
            at,
            event,
        ).action is EmitNative,
    ensures
        at.action == Action::Verify,
        event == Event::Done,
        !at.errors,
{
}

/// An error is never passed over: once one has been reported nothing is lowered, run or emitted,
/// what was asked for is at most shown, and success is not reported.
pub proof fn law_errors_are_not_passed_over(c: Choice, at: At, event: Event)
    requires
        at.action !is Exit,
        at.errors && event == Event::Done || event == Event::Failed,
    ensures
        c.next(at, event).errors,
        match c.next(at, event).action {
            Action::Parse => at.action == Action::Lex,
            Action::ShowTokens | Action::ShowAst | Action::ShowErrors | Action::DumpHigh => true,
            Action::Exit(code) => code != exit::OK,
            _ => false,
        },
{
}

/// The tokens and the tree are those of the input alone: nothing is imported for them.
pub proof fn law_showing_imports_nothing(c: Choice, at: At, event: Event)
    requires
        c.emit == options::EmitStage::Tokens && rank(at.action) < rank(Action::Parse) || c.emit
            == options::EmitStage::Ast && rank(at.action) < rank(Action::Import),
    ensures
        c.next(at, event).action !is Import,
        c.emit == options::EmitStage::Tokens ==> c.next(at, event).action !is Parse,
{
}

/// The level is the one that was asked for, except that gradients need at least the first.
pub proof fn law_level(c: Choice, at: At, event: Event)
    requires
        at.action !is Exit,
    ensures
        c.next(at, event).action matches Action::Optimize(level) ==> {
            &&& level >= c.opt_level
            &&& level > c.opt_level ==> level == 1 && (c.train || c.emit
                == options::EmitStage::Grad)
            &&& c.train || c.emit == options::EmitStage::Grad ==> level >= 1
        },
{
}

/// The exit code that a compilation comes to from `at`, where `answers` says what comes of each
/// action.
pub open spec fn exit_of(c: Choice, at: At, answers: spec_fn(Action) -> Event) -> i32
    decreases 10 - rank(at.action),
{
    match at.action {
        Action::Exit(code) => code,
        _ => {
            proof {
                law_a_compilation_ends(c, at, answers(at.action));
            }
            exit_of(c, c.next(at, answers(at.action)), answers)
        },
    }
}

/// Whether the answers are such as their actions can have: a program that ran returns a number, an
/// emission ends in an exit code, and all else succeeds or fails.
pub open spec fn plain(c: Choice, answers: spec_fn(Action) -> Event) -> bool {
    forall|a: Action|
        match #[trigger] answers(a) {
            Event::Done | Event::Failed => a != Action::EmitNative,
            Event::Returned(_) => a is Run,
            Event::Code(_) => a == Action::EmitNative,
        }
}

/// The exit code of a compilation, by what was asked for.
pub open spec fn verdict(c: Choice, answers: spec_fn(Action) -> Event) -> i32 {
    let bad = |a: Action| answers(a) == Event::Failed;
    let judged = |b: bool|
        if b {
            exit::COMPILE_ERROR
        } else {
            exit::OK
        };
    let checked = bad(Action::Lex) || bad(Action::Parse) || bad(Action::Import) || bad(
        Action::Check,
    ) || (c.train && bad(Action::Measure));
    if bad(Action::Read) {
        exit::IO_ERROR
    } else if c.emit == options::EmitStage::Tokens {
        judged(bad(Action::Lex) || bad(Action::ShowTokens))
    } else if c.emit == options::EmitStage::Ast {
        judged(bad(Action::Lex) || bad(Action::Parse) || bad(Action::ShowAst))
    } else if checked {
        exit::COMPILE_ERROR
    } else if c.emit == options::EmitStage::MirHigh {
        judged(bad(Action::Lower) || bad(Action::DumpHigh))
    } else if bad(Action::Lower) || bad(Action::Optimize(c.level())) {
        exit::COMPILE_ERROR
    } else if c.train {
        judged(bad(Action::Train))
    } else if c.emit == options::EmitStage::Grad {
        judged(bad(Action::EmitGrad))
    } else if !c.run && c.emit == options::EmitStage::Mir {
        judged(bad(Action::Dump))
    } else if bad(Action::Verify) {
        exit::COMPILE_ERROR
    } else {
        match answers(c.backend_of()) {
            Event::Done => exit::OK,
            Event::Failed => exit::COMPILE_ERROR,
            Event::Returned(code) => code_of(code),
            Event::Code(code) => code,
        }
    }
}

/// A compilation comes to the exit code that its stages call for.
pub proof fn law_exit_code(c: Choice, answers: spec_fn(Action) -> Event)
    requires
        plain(c, answers),
    ensures
        exit_of(c, start(), answers) == verdict(c, answers),
{
    reveal_with_fuel(exit_of, 12);
}

/// Every action is due exactly where it was asked for: what is shown, trained, run or emitted is what
/// the choice says, on the backend that it says, and each comes straight behind the action whose
/// result it takes.
pub proof fn law_each_action_is_asked_for(c: Choice, at: At, event: Event)
    requires
        at.action !is Exit,
        event == Event::Done || event == Event::Failed,
    ensures
        ({
            let next = c.next(at, event).action;
            let clean = event == Event::Done && !at.errors;
            &&& next == Action::ShowTokens <==> at.action == Action::Lex && c.emit
                == options::EmitStage::Tokens
            &&& next == Action::ShowAst <==> at.action == Action::Parse && c.emit
                == options::EmitStage::Ast
            &&& next == Action::ShowErrors <==> at.action == Action::Parse && c.emit
                != options::EmitStage::Ast && !clean
            &&& next == Action::Check <==> at.action == Action::Import && clean
            &&& next == Action::Measure <==> at.action == Action::Check && clean && c.train
            &&& next == Action::Lower <==> clean && (at.action == Action::Measure || at.action
                == Action::Check && !c.train)
            &&& next == Action::DumpHigh <==> at.action == Action::Lower && c.emit
                == options::EmitStage::MirHigh
            &&& next == Action::Train <==> at.action is Optimize && clean && c.train
            &&& next == Action::EmitGrad <==> at.action is Optimize && clean && !c.train && c.emit
                == options::EmitStage::Grad
            &&& next == Action::Verify <==> at.action is Optimize && clean && !c.train && c.emit
                != options::EmitStage::Grad && (c.run || c.emit == options::EmitStage::LlvmIr
                || c.emit == options::EmitStage::Obj || c.emit == options::EmitStage::Exe)
            &&& next == Action::Dump <==> at.action is Optimize && clean && !c.train && !c.run
                && c.emit == options::EmitStage::Mir
            &&& next is Run <==> at.action == Action::Verify && clean && c.run
            &&& next is Run ==> next == Action::Run(c.backend)
            &&& next == Action::EmitLlvm <==> at.action == Action::Verify && clean && !c.run
                && c.emit == options::EmitStage::LlvmIr
            &&& next == Action::EmitNative <==> at.action == Action::Verify && clean && !c.run
                && c.emit != options::EmitStage::LlvmIr
            &&& next == Action::Optimize(c.opt_level) || next == Action::Optimize(1) || next
                !is Optimize
        }),
{
}

/// What a program returns is the exit code, and so is what an emission ends with.
pub proof fn law_codes_are_passed_on(c: Choice, at: At, code: i64, emitted: i32)
    requires
        at.action !is Exit,
        i32::MIN <= code <= i32::MAX,
    ensures
        c.next(at, Event::Returned(code)).action matches Action::Exit(e) && e == code,
        c.next(at, Event::Code(emitted)).action == Action::Exit(emitted),
{
}

} // verus!
