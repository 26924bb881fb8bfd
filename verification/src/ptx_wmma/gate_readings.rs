//! What the templates of the kernels spell: see [`machine`].
use vstd::prelude::*;

use crate::ptx_wmma::frames;
use crate::ptx_wmma::machine;
use crate::ptx_wmma::mma_gate;
use crate::ptx_wmma::machine::{lacks, operand, reads, Insn};
use crate::text;

verus! {

/// A hole is filled by its argument.
proof fn lemma_hole(c: char, args: Seq<Seq<char>>)
    requires
        '0' <= c,
        (c as int - '0' as int) < args.len(),
    ensures
        text::fill(seq!['#', c], args) == args[c as int - '0' as int],
{
    reveal_with_fuel(text::fill, 3);
    let t = seq!['#', c];
    assert(t.drop_last() =~= seq!['#']);
    assert(seq!['#'].drop_last() =~= Seq::<char>::empty());
    assert(text::fill(t, args) =~= args[c as int - '0' as int]);
}

/// `mul.wide.u32 %off,%gcol,4;`
proof fn mma_gate_add_bias_0(args: Seq<Seq<char>>)
    ensures
        reads(
            text::fill("    mul.wide.u32 %off,%gcol,4;\n"@, args),
            seq![Insn { op: "mul.wide.u32"@, args: seq!["%off"@, "%gcol"@, "4"@] }],
        ),
{
    reveal_strlit("    mul.wide.u32 %off,%gcol,4;\n");
    reveal_strlit("%gcol");
    reveal_strlit("%off");
    reveal_strlit("4");
    reveal_strlit("mul.wide.u32");
    frames::lemma_fill_plain("    mul.wide.u32 %off,%gcol,4;\n"@, args);
    let op = "mul.wide.u32"@;
    let given = seq!["%off"@, "%gcol"@, "4"@];
    machine::lemma_listed3("%off"@, "%gcol"@, "4"@);
    assert(text::fill("    mul.wide.u32 %off,%gcol,4;\n"@, args) =~= machine::line(op, given));
    machine::lemma_reads_line(op, given);
}

/// `add.s64 %cptr,%BiasG,%off;`
proof fn mma_gate_add_bias_1(args: Seq<Seq<char>>)
    ensures
        reads(
            text::fill("    add.s64 %cptr,%BiasG,%off;\n"@, args),
            seq![Insn { op: "add.s64"@, args: seq!["%cptr"@, "%BiasG"@, "%off"@] }],
        ),
{
    reveal_strlit("    add.s64 %cptr,%BiasG,%off;\n");
    reveal_strlit("%BiasG");
    reveal_strlit("%cptr");
    reveal_strlit("%off");
    reveal_strlit("add.s64");
    frames::lemma_fill_plain("    add.s64 %cptr,%BiasG,%off;\n"@, args);
    let op = "add.s64"@;
    let given = seq!["%cptr"@, "%BiasG"@, "%off"@];
    machine::lemma_listed3("%cptr"@, "%BiasG"@, "%off"@);
    assert(text::fill("    add.s64 %cptr,%BiasG,%off;\n"@, args) =~= machine::line(op, given));
    machine::lemma_reads_line(op, given);
}

/// `ld.global.f32 %biasg0,[%cptr];`
proof fn mma_gate_add_bias_2(args: Seq<Seq<char>>)
    ensures
        reads(
            text::fill("    ld.global.f32 %biasg0,[%cptr];\n"@, args),
            seq![Insn { op: "ld.global.f32"@, args: seq!["%biasg0"@, "[%cptr]"@] }],
        ),
{
    reveal_strlit("    ld.global.f32 %biasg0,[%cptr];\n");
    reveal_strlit("%biasg0");
    reveal_strlit("[%cptr]");
    reveal_strlit("ld.global.f32");
    frames::lemma_fill_plain("    ld.global.f32 %biasg0,[%cptr];\n"@, args);
    let op = "ld.global.f32"@;
    let given = seq!["%biasg0"@, "[%cptr]"@];
    machine::lemma_listed2("%biasg0"@, "[%cptr]"@);
    assert(text::fill("    ld.global.f32 %biasg0,[%cptr];\n"@, args) =~= machine::line(op, given));
    machine::lemma_reads_line(op, given);
}

/// `ld.global.f32 %biasg1,[%cptr+4];`
proof fn mma_gate_add_bias_3(args: Seq<Seq<char>>)
    ensures
        reads(
            text::fill("    ld.global.f32 %biasg1,[%cptr+4];\n"@, args),
            seq![Insn { op: "ld.global.f32"@, args: seq!["%biasg1"@, "[%cptr+4]"@] }],
        ),
{
    reveal_strlit("    ld.global.f32 %biasg1,[%cptr+4];\n");
    reveal_strlit("%biasg1");
    reveal_strlit("[%cptr+4]");
    reveal_strlit("ld.global.f32");
    frames::lemma_fill_plain("    ld.global.f32 %biasg1,[%cptr+4];\n"@, args);
    let op = "ld.global.f32"@;
    let given = seq!["%biasg1"@, "[%cptr+4]"@];
    machine::lemma_listed2("%biasg1"@, "[%cptr+4]"@);
    assert(text::fill("    ld.global.f32 %biasg1,[%cptr+4];\n"@, args) =~= machine::line(op, given));
    machine::lemma_reads_line(op, given);
}

/// `add.f32 %dg#0_#1_0,%dg#0_#1_0,%biasg0;`
proof fn mma_gate_add_bias_4(args: Seq<Seq<char>>)
    requires
        args.len() > 1,
        operand(args[0]),
        operand(args[1]),
    ensures
        reads(
            text::fill("    add.f32 %dg#0_#1_0,%dg#0_#1_0,%biasg0;\n"@, args),
            seq![Insn { op: "add.f32"@, args: seq!["%dg"@ + args[0] + "_"@ + args[1] + "_0"@, "%dg"@ + args[0] + "_"@ + args[1] + "_0"@, "%biasg0"@] }],
        ),
{
    reveal_strlit("    add.f32 %dg");
    reveal_strlit("    add.f32 %dg#0_#1_0,%dg#0_#1_0,%biasg0;\n");
    reveal_strlit("%biasg0");
    reveal_strlit("%dg");
    reveal_strlit("_");
    reveal_strlit("_0");
    reveal_strlit("_0,%biasg0;\n");
    reveal_strlit("_0,%dg");
    reveal_strlit("add.f32");
    let whole = "    add.f32 %dg#0_#1_0,%dg#0_#1_0,%biasg0;\n"@;
    let x0 = "    add.f32 %dg"@;
    frames::lemma_fill_plain(x0, args);
    let x1 = seq!['#', '0'];
    lemma_hole('0', args);
    let x2 = "_"@;
    frames::lemma_fill_plain(x2, args);
    let x3 = seq!['#', '1'];
    lemma_hole('1', args);
    let x4 = "_0,%dg"@;
    frames::lemma_fill_plain(x4, args);
    let x5 = seq!['#', '0'];
    lemma_hole('0', args);
    let x6 = "_"@;
    frames::lemma_fill_plain(x6, args);
    let x7 = seq!['#', '1'];
    lemma_hole('1', args);
    let x8 = "_0,%biasg0;\n"@;
    frames::lemma_fill_plain(x8, args);
    assert(whole =~= x0 + x1 + x2 + x3 + x4 + x5 + x6 + x7 + x8);
    frames::lemma_fill_add(x0, x1, args);
    frames::lemma_fill_add(x0 + x1, x2, args);
    frames::lemma_fill_add(x0 + x1 + x2, x3, args);
    frames::lemma_fill_add(x0 + x1 + x2 + x3, x4, args);
    frames::lemma_fill_add(x0 + x1 + x2 + x3 + x4, x5, args);
    frames::lemma_fill_add(x0 + x1 + x2 + x3 + x4 + x5, x6, args);
    frames::lemma_fill_add(x0 + x1 + x2 + x3 + x4 + x5 + x6, x7, args);
    frames::lemma_fill_add(x0 + x1 + x2 + x3 + x4 + x5 + x6 + x7, x8, args);
    let op = "add.f32"@;
    let given = seq!["%dg"@ + args[0] + "_"@ + args[1] + "_0"@, "%dg"@ + args[0] + "_"@ + args[1] + "_0"@, "%biasg0"@];
    machine::lemma_listed3("%dg"@ + args[0] + "_"@ + args[1] + "_0"@, "%dg"@ + args[0] + "_"@ + args[1] + "_0"@, "%biasg0"@);
    assert(text::fill(whole, args) =~= machine::line(op, given));
    machine::lemma_reads_line(op, given);
}

/// `add.f32 %dg#0_#1_1,%dg#0_#1_1,%biasg1;`
proof fn mma_gate_add_bias_5(args: Seq<Seq<char>>)
    requires
        args.len() > 1,
        operand(args[0]),
        operand(args[1]),
    ensures
        reads(
            text::fill("    add.f32 %dg#0_#1_1,%dg#0_#1_1,%biasg1;\n"@, args),
            seq![Insn { op: "add.f32"@, args: seq!["%dg"@ + args[0] + "_"@ + args[1] + "_1"@, "%dg"@ + args[0] + "_"@ + args[1] + "_1"@, "%biasg1"@] }],
        ),
{
    reveal_strlit("    add.f32 %dg");
    reveal_strlit("    add.f32 %dg#0_#1_1,%dg#0_#1_1,%biasg1;\n");
    reveal_strlit("%biasg1");
    reveal_strlit("%dg");
    reveal_strlit("_");
    reveal_strlit("_1");
    reveal_strlit("_1,%biasg1;\n");
    reveal_strlit("_1,%dg");
    reveal_strlit("add.f32");
    let whole = "    add.f32 %dg#0_#1_1,%dg#0_#1_1,%biasg1;\n"@;
    let x0 = "    add.f32 %dg"@;
    frames::lemma_fill_plain(x0, args);
    let x1 = seq!['#', '0'];
    lemma_hole('0', args);
    let x2 = "_"@;
    frames::lemma_fill_plain(x2, args);
    let x3 = seq!['#', '1'];
    lemma_hole('1', args);
    let x4 = "_1,%dg"@;
    frames::lemma_fill_plain(x4, args);
    let x5 = seq!['#', '0'];
    lemma_hole('0', args);
    let x6 = "_"@;
    frames::lemma_fill_plain(x6, args);
    let x7 = seq!['#', '1'];
    lemma_hole('1', args);
    let x8 = "_1,%biasg1;\n"@;
    frames::lemma_fill_plain(x8, args);
    assert(whole =~= x0 + x1 + x2 + x3 + x4 + x5 + x6 + x7 + x8);
    frames::lemma_fill_add(x0, x1, args);
    frames::lemma_fill_add(x0 + x1, x2, args);
    frames::lemma_fill_add(x0 + x1 + x2, x3, args);
    frames::lemma_fill_add(x0 + x1 + x2 + x3, x4, args);
    frames::lemma_fill_add(x0 + x1 + x2 + x3 + x4, x5, args);
    frames::lemma_fill_add(x0 + x1 + x2 + x3 + x4 + x5, x6, args);
    frames::lemma_fill_add(x0 + x1 + x2 + x3 + x4 + x5 + x6, x7, args);
    frames::lemma_fill_add(x0 + x1 + x2 + x3 + x4 + x5 + x6 + x7, x8, args);
    let op = "add.f32"@;
    let given = seq!["%dg"@ + args[0] + "_"@ + args[1] + "_1"@, "%dg"@ + args[0] + "_"@ + args[1] + "_1"@, "%biasg1"@];
    machine::lemma_listed3("%dg"@ + args[0] + "_"@ + args[1] + "_1"@, "%dg"@ + args[0] + "_"@ + args[1] + "_1"@, "%biasg1"@);
    assert(text::fill(whole, args) =~= machine::line(op, given));
    machine::lemma_reads_line(op, given);
}

/// `add.f32 %dg#0_#1_2,%dg#0_#1_2,%biasg0;`
proof fn mma_gate_add_bias_6(args: Seq<Seq<char>>)
    requires
        args.len() > 1,
        operand(args[0]),
        operand(args[1]),
    ensures
        reads(
            text::fill("    add.f32 %dg#0_#1_2,%dg#0_#1_2,%biasg0;\n"@, args),
            seq![Insn { op: "add.f32"@, args: seq!["%dg"@ + args[0] + "_"@ + args[1] + "_2"@, "%dg"@ + args[0] + "_"@ + args[1] + "_2"@, "%biasg0"@] }],
        ),
{
    reveal_strlit("    add.f32 %dg");
    reveal_strlit("    add.f32 %dg#0_#1_2,%dg#0_#1_2,%biasg0;\n");
    reveal_strlit("%biasg0");
    reveal_strlit("%dg");
    reveal_strlit("_");
    reveal_strlit("_2");
    reveal_strlit("_2,%biasg0;\n");
    reveal_strlit("_2,%dg");
    reveal_strlit("add.f32");
    let whole = "    add.f32 %dg#0_#1_2,%dg#0_#1_2,%biasg0;\n"@;
    let x0 = "    add.f32 %dg"@;
    frames::lemma_fill_plain(x0, args);
    let x1 = seq!['#', '0'];
    lemma_hole('0', args);
    let x2 = "_"@;
    frames::lemma_fill_plain(x2, args);
    let x3 = seq!['#', '1'];
    lemma_hole('1', args);
    let x4 = "_2,%dg"@;
    frames::lemma_fill_plain(x4, args);
    let x5 = seq!['#', '0'];
    lemma_hole('0', args);
    let x6 = "_"@;
    frames::lemma_fill_plain(x6, args);
    let x7 = seq!['#', '1'];
    lemma_hole('1', args);
    let x8 = "_2,%biasg0;\n"@;
    frames::lemma_fill_plain(x8, args);
    assert(whole =~= x0 + x1 + x2 + x3 + x4 + x5 + x6 + x7 + x8);
    frames::lemma_fill_add(x0, x1, args);
    frames::lemma_fill_add(x0 + x1, x2, args);
    frames::lemma_fill_add(x0 + x1 + x2, x3, args);
    frames::lemma_fill_add(x0 + x1 + x2 + x3, x4, args);
    frames::lemma_fill_add(x0 + x1 + x2 + x3 + x4, x5, args);
    frames::lemma_fill_add(x0 + x1 + x2 + x3 + x4 + x5, x6, args);
    frames::lemma_fill_add(x0 + x1 + x2 + x3 + x4 + x5 + x6, x7, args);
    frames::lemma_fill_add(x0 + x1 + x2 + x3 + x4 + x5 + x6 + x7, x8, args);
    let op = "add.f32"@;
    let given = seq!["%dg"@ + args[0] + "_"@ + args[1] + "_2"@, "%dg"@ + args[0] + "_"@ + args[1] + "_2"@, "%biasg0"@];
    machine::lemma_listed3("%dg"@ + args[0] + "_"@ + args[1] + "_2"@, "%dg"@ + args[0] + "_"@ + args[1] + "_2"@, "%biasg0"@);
    assert(text::fill(whole, args) =~= machine::line(op, given));
    machine::lemma_reads_line(op, given);
}

/// `add.f32 %dg#0_#1_3,%dg#0_#1_3,%biasg1;`
proof fn mma_gate_add_bias_7(args: Seq<Seq<char>>)
    requires
        args.len() > 1,
        operand(args[0]),
        operand(args[1]),
    ensures
        reads(
            text::fill("    add.f32 %dg#0_#1_3,%dg#0_#1_3,%biasg1;\n"@, args),
            seq![Insn { op: "add.f32"@, args: seq!["%dg"@ + args[0] + "_"@ + args[1] + "_3"@, "%dg"@ + args[0] + "_"@ + args[1] + "_3"@, "%biasg1"@] }],
        ),
{
    reveal_strlit("    add.f32 %dg");
    reveal_strlit("    add.f32 %dg#0_#1_3,%dg#0_#1_3,%biasg1;\n");
    reveal_strlit("%biasg1");
    reveal_strlit("%dg");
    reveal_strlit("_");
    reveal_strlit("_3");
    reveal_strlit("_3,%biasg1;\n");
    reveal_strlit("_3,%dg");
    reveal_strlit("add.f32");
    let whole = "    add.f32 %dg#0_#1_3,%dg#0_#1_3,%biasg1;\n"@;
    let x0 = "    add.f32 %dg"@;
    frames::lemma_fill_plain(x0, args);
    let x1 = seq!['#', '0'];
    lemma_hole('0', args);
    let x2 = "_"@;
    frames::lemma_fill_plain(x2, args);
    let x3 = seq!['#', '1'];
    lemma_hole('1', args);
    let x4 = "_3,%dg"@;
    frames::lemma_fill_plain(x4, args);
    let x5 = seq!['#', '0'];
    lemma_hole('0', args);
    let x6 = "_"@;
    frames::lemma_fill_plain(x6, args);
    let x7 = seq!['#', '1'];
    lemma_hole('1', args);
    let x8 = "_3,%biasg1;\n"@;
    frames::lemma_fill_plain(x8, args);
    assert(whole =~= x0 + x1 + x2 + x3 + x4 + x5 + x6 + x7 + x8);
    frames::lemma_fill_add(x0, x1, args);
    frames::lemma_fill_add(x0 + x1, x2, args);
    frames::lemma_fill_add(x0 + x1 + x2, x3, args);
    frames::lemma_fill_add(x0 + x1 + x2 + x3, x4, args);
    frames::lemma_fill_add(x0 + x1 + x2 + x3 + x4, x5, args);
    frames::lemma_fill_add(x0 + x1 + x2 + x3 + x4 + x5, x6, args);
    frames::lemma_fill_add(x0 + x1 + x2 + x3 + x4 + x5 + x6, x7, args);
    frames::lemma_fill_add(x0 + x1 + x2 + x3 + x4 + x5 + x6 + x7, x8, args);
    let op = "add.f32"@;
    let given = seq!["%dg"@ + args[0] + "_"@ + args[1] + "_3"@, "%dg"@ + args[0] + "_"@ + args[1] + "_3"@, "%biasg1"@];
    machine::lemma_listed3("%dg"@ + args[0] + "_"@ + args[1] + "_3"@, "%dg"@ + args[0] + "_"@ + args[1] + "_3"@, "%biasg1"@);
    assert(text::fill(whole, args) =~= machine::line(op, given));
    machine::lemma_reads_line(op, given);
}

/// `add.s64 %cptr,%BiasU,%off;`
proof fn mma_gate_add_bias_8(args: Seq<Seq<char>>)
    ensures
        reads(
            text::fill("    add.s64 %cptr,%BiasU,%off;\n"@, args),
            seq![Insn { op: "add.s64"@, args: seq!["%cptr"@, "%BiasU"@, "%off"@] }],
        ),
{
    reveal_strlit("    add.s64 %cptr,%BiasU,%off;\n");
    reveal_strlit("%BiasU");
    reveal_strlit("%cptr");
    reveal_strlit("%off");
    reveal_strlit("add.s64");
    frames::lemma_fill_plain("    add.s64 %cptr,%BiasU,%off;\n"@, args);
    let op = "add.s64"@;
    let given = seq!["%cptr"@, "%BiasU"@, "%off"@];
    machine::lemma_listed3("%cptr"@, "%BiasU"@, "%off"@);
    assert(text::fill("    add.s64 %cptr,%BiasU,%off;\n"@, args) =~= machine::line(op, given));
    machine::lemma_reads_line(op, given);
}

/// `ld.global.f32 %biasu0,[%cptr];`
proof fn mma_gate_add_bias_9(args: Seq<Seq<char>>)
    ensures
        reads(
            text::fill("    ld.global.f32 %biasu0,[%cptr];\n"@, args),
            seq![Insn { op: "ld.global.f32"@, args: seq!["%biasu0"@, "[%cptr]"@] }],
        ),
{
    reveal_strlit("    ld.global.f32 %biasu0,[%cptr];\n");
    reveal_strlit("%biasu0");
    reveal_strlit("[%cptr]");
    reveal_strlit("ld.global.f32");
    frames::lemma_fill_plain("    ld.global.f32 %biasu0,[%cptr];\n"@, args);
    let op = "ld.global.f32"@;
    let given = seq!["%biasu0"@, "[%cptr]"@];
    machine::lemma_listed2("%biasu0"@, "[%cptr]"@);
    assert(text::fill("    ld.global.f32 %biasu0,[%cptr];\n"@, args) =~= machine::line(op, given));
    machine::lemma_reads_line(op, given);
}

/// `ld.global.f32 %biasu1,[%cptr+4];`
proof fn mma_gate_add_bias_10(args: Seq<Seq<char>>)
    ensures
        reads(
            text::fill("    ld.global.f32 %biasu1,[%cptr+4];\n"@, args),
            seq![Insn { op: "ld.global.f32"@, args: seq!["%biasu1"@, "[%cptr+4]"@] }],
        ),
{
    reveal_strlit("    ld.global.f32 %biasu1,[%cptr+4];\n");
    reveal_strlit("%biasu1");
    reveal_strlit("[%cptr+4]");
    reveal_strlit("ld.global.f32");
    frames::lemma_fill_plain("    ld.global.f32 %biasu1,[%cptr+4];\n"@, args);
    let op = "ld.global.f32"@;
    let given = seq!["%biasu1"@, "[%cptr+4]"@];
    machine::lemma_listed2("%biasu1"@, "[%cptr+4]"@);
    assert(text::fill("    ld.global.f32 %biasu1,[%cptr+4];\n"@, args) =~= machine::line(op, given));
    machine::lemma_reads_line(op, given);
}

/// `add.f32 %du#0_#1_0,%du#0_#1_0,%biasu0;`
proof fn mma_gate_add_bias_11(args: Seq<Seq<char>>)
    requires
        args.len() > 1,
        operand(args[0]),
        operand(args[1]),
    ensures
        reads(
            text::fill("    add.f32 %du#0_#1_0,%du#0_#1_0,%biasu0;\n"@, args),
            seq![Insn { op: "add.f32"@, args: seq!["%du"@ + args[0] + "_"@ + args[1] + "_0"@, "%du"@ + args[0] + "_"@ + args[1] + "_0"@, "%biasu0"@] }],
        ),
{
    reveal_strlit("    add.f32 %du");
    reveal_strlit("    add.f32 %du#0_#1_0,%du#0_#1_0,%biasu0;\n");
    reveal_strlit("%biasu0");
    reveal_strlit("%du");
    reveal_strlit("_");
    reveal_strlit("_0");
    reveal_strlit("_0,%biasu0;\n");
    reveal_strlit("_0,%du");
    reveal_strlit("add.f32");
    let whole = "    add.f32 %du#0_#1_0,%du#0_#1_0,%biasu0;\n"@;
    let x0 = "    add.f32 %du"@;
    frames::lemma_fill_plain(x0, args);
    let x1 = seq!['#', '0'];
    lemma_hole('0', args);
    let x2 = "_"@;
    frames::lemma_fill_plain(x2, args);
    let x3 = seq!['#', '1'];
    lemma_hole('1', args);
    let x4 = "_0,%du"@;
    frames::lemma_fill_plain(x4, args);
    let x5 = seq!['#', '0'];
    lemma_hole('0', args);
    let x6 = "_"@;
    frames::lemma_fill_plain(x6, args);
    let x7 = seq!['#', '1'];
    lemma_hole('1', args);
    let x8 = "_0,%biasu0;\n"@;
    frames::lemma_fill_plain(x8, args);
    assert(whole =~= x0 + x1 + x2 + x3 + x4 + x5 + x6 + x7 + x8);
    frames::lemma_fill_add(x0, x1, args);
    frames::lemma_fill_add(x0 + x1, x2, args);
    frames::lemma_fill_add(x0 + x1 + x2, x3, args);
    frames::lemma_fill_add(x0 + x1 + x2 + x3, x4, args);
    frames::lemma_fill_add(x0 + x1 + x2 + x3 + x4, x5, args);
    frames::lemma_fill_add(x0 + x1 + x2 + x3 + x4 + x5, x6, args);
    frames::lemma_fill_add(x0 + x1 + x2 + x3 + x4 + x5 + x6, x7, args);
    frames::lemma_fill_add(x0 + x1 + x2 + x3 + x4 + x5 + x6 + x7, x8, args);
    let op = "add.f32"@;
    let given = seq!["%du"@ + args[0] + "_"@ + args[1] + "_0"@, "%du"@ + args[0] + "_"@ + args[1] + "_0"@, "%biasu0"@];
    machine::lemma_listed3("%du"@ + args[0] + "_"@ + args[1] + "_0"@, "%du"@ + args[0] + "_"@ + args[1] + "_0"@, "%biasu0"@);
    assert(text::fill(whole, args) =~= machine::line(op, given));
    machine::lemma_reads_line(op, given);
}

/// `add.f32 %du#0_#1_1,%du#0_#1_1,%biasu1;`
proof fn mma_gate_add_bias_12(args: Seq<Seq<char>>)
    requires
        args.len() > 1,
        operand(args[0]),
        operand(args[1]),
    ensures
        reads(
            text::fill("    add.f32 %du#0_#1_1,%du#0_#1_1,%biasu1;\n"@, args),
            seq![Insn { op: "add.f32"@, args: seq!["%du"@ + args[0] + "_"@ + args[1] + "_1"@, "%du"@ + args[0] + "_"@ + args[1] + "_1"@, "%biasu1"@] }],
        ),
{
    reveal_strlit("    add.f32 %du");
    reveal_strlit("    add.f32 %du#0_#1_1,%du#0_#1_1,%biasu1;\n");
    reveal_strlit("%biasu1");
    reveal_strlit("%du");
    reveal_strlit("_");
    reveal_strlit("_1");
    reveal_strlit("_1,%biasu1;\n");
    reveal_strlit("_1,%du");
    reveal_strlit("add.f32");
    let whole = "    add.f32 %du#0_#1_1,%du#0_#1_1,%biasu1;\n"@;
    let x0 = "    add.f32 %du"@;
    frames::lemma_fill_plain(x0, args);
    let x1 = seq!['#', '0'];
    lemma_hole('0', args);
    let x2 = "_"@;
    frames::lemma_fill_plain(x2, args);
    let x3 = seq!['#', '1'];
    lemma_hole('1', args);
    let x4 = "_1,%du"@;
    frames::lemma_fill_plain(x4, args);
    let x5 = seq!['#', '0'];
    lemma_hole('0', args);
    let x6 = "_"@;
    frames::lemma_fill_plain(x6, args);
    let x7 = seq!['#', '1'];
    lemma_hole('1', args);
    let x8 = "_1,%biasu1;\n"@;
    frames::lemma_fill_plain(x8, args);
    assert(whole =~= x0 + x1 + x2 + x3 + x4 + x5 + x6 + x7 + x8);
    frames::lemma_fill_add(x0, x1, args);
    frames::lemma_fill_add(x0 + x1, x2, args);
    frames::lemma_fill_add(x0 + x1 + x2, x3, args);
    frames::lemma_fill_add(x0 + x1 + x2 + x3, x4, args);
    frames::lemma_fill_add(x0 + x1 + x2 + x3 + x4, x5, args);
    frames::lemma_fill_add(x0 + x1 + x2 + x3 + x4 + x5, x6, args);
    frames::lemma_fill_add(x0 + x1 + x2 + x3 + x4 + x5 + x6, x7, args);
    frames::lemma_fill_add(x0 + x1 + x2 + x3 + x4 + x5 + x6 + x7, x8, args);
    let op = "add.f32"@;
    let given = seq!["%du"@ + args[0] + "_"@ + args[1] + "_1"@, "%du"@ + args[0] + "_"@ + args[1] + "_1"@, "%biasu1"@];
    machine::lemma_listed3("%du"@ + args[0] + "_"@ + args[1] + "_1"@, "%du"@ + args[0] + "_"@ + args[1] + "_1"@, "%biasu1"@);
    assert(text::fill(whole, args) =~= machine::line(op, given));
    machine::lemma_reads_line(op, given);
}

/// `add.f32 %du#0_#1_2,%du#0_#1_2,%biasu0;`
proof fn mma_gate_add_bias_13(args: Seq<Seq<char>>)
    requires
        args.len() > 1,
        operand(args[0]),
        operand(args[1]),
    ensures
        reads(
            text::fill("    add.f32 %du#0_#1_2,%du#0_#1_2,%biasu0;\n"@, args),
            seq![Insn { op: "add.f32"@, args: seq!["%du"@ + args[0] + "_"@ + args[1] + "_2"@, "%du"@ + args[0] + "_"@ + args[1] + "_2"@, "%biasu0"@] }],
        ),
{
    reveal_strlit("    add.f32 %du");
    reveal_strlit("    add.f32 %du#0_#1_2,%du#0_#1_2,%biasu0;\n");
    reveal_strlit("%biasu0");
    reveal_strlit("%du");
    reveal_strlit("_");
    reveal_strlit("_2");
    reveal_strlit("_2,%biasu0;\n");
    reveal_strlit("_2,%du");
    reveal_strlit("add.f32");
    let whole = "    add.f32 %du#0_#1_2,%du#0_#1_2,%biasu0;\n"@;
    let x0 = "    add.f32 %du"@;
    frames::lemma_fill_plain(x0, args);
    let x1 = seq!['#', '0'];
    lemma_hole('0', args);
    let x2 = "_"@;
    frames::lemma_fill_plain(x2, args);
    let x3 = seq!['#', '1'];
    lemma_hole('1', args);
    let x4 = "_2,%du"@;
    frames::lemma_fill_plain(x4, args);
    let x5 = seq!['#', '0'];
    lemma_hole('0', args);
    let x6 = "_"@;
    frames::lemma_fill_plain(x6, args);
    let x7 = seq!['#', '1'];
    lemma_hole('1', args);
    let x8 = "_2,%biasu0;\n"@;
    frames::lemma_fill_plain(x8, args);
    assert(whole =~= x0 + x1 + x2 + x3 + x4 + x5 + x6 + x7 + x8);
    frames::lemma_fill_add(x0, x1, args);
    frames::lemma_fill_add(x0 + x1, x2, args);
    frames::lemma_fill_add(x0 + x1 + x2, x3, args);
    frames::lemma_fill_add(x0 + x1 + x2 + x3, x4, args);
    frames::lemma_fill_add(x0 + x1 + x2 + x3 + x4, x5, args);
    frames::lemma_fill_add(x0 + x1 + x2 + x3 + x4 + x5, x6, args);
    frames::lemma_fill_add(x0 + x1 + x2 + x3 + x4 + x5 + x6, x7, args);
    frames::lemma_fill_add(x0 + x1 + x2 + x3 + x4 + x5 + x6 + x7, x8, args);
    let op = "add.f32"@;
    let given = seq!["%du"@ + args[0] + "_"@ + args[1] + "_2"@, "%du"@ + args[0] + "_"@ + args[1] + "_2"@, "%biasu0"@];
    machine::lemma_listed3("%du"@ + args[0] + "_"@ + args[1] + "_2"@, "%du"@ + args[0] + "_"@ + args[1] + "_2"@, "%biasu0"@);
    assert(text::fill(whole, args) =~= machine::line(op, given));
    machine::lemma_reads_line(op, given);
}

/// `add.f32 %du#0_#1_3,%du#0_#1_3,%biasu1;`
proof fn mma_gate_add_bias_14(args: Seq<Seq<char>>)
    requires
        args.len() > 1,
        operand(args[0]),
        operand(args[1]),
    ensures
        reads(
            text::fill("    add.f32 %du#0_#1_3,%du#0_#1_3,%biasu1;\n"@, args),
            seq![Insn { op: "add.f32"@, args: seq!["%du"@ + args[0] + "_"@ + args[1] + "_3"@, "%du"@ + args[0] + "_"@ + args[1] + "_3"@, "%biasu1"@] }],
        ),
{
    reveal_strlit("    add.f32 %du");
    reveal_strlit("    add.f32 %du#0_#1_3,%du#0_#1_3,%biasu1;\n");
    reveal_strlit("%biasu1");
    reveal_strlit("%du");
    reveal_strlit("_");
    reveal_strlit("_3");
    reveal_strlit("_3,%biasu1;\n");
    reveal_strlit("_3,%du");
    reveal_strlit("add.f32");
    let whole = "    add.f32 %du#0_#1_3,%du#0_#1_3,%biasu1;\n"@;
    let x0 = "    add.f32 %du"@;
    frames::lemma_fill_plain(x0, args);
    let x1 = seq!['#', '0'];
    lemma_hole('0', args);
    let x2 = "_"@;
    frames::lemma_fill_plain(x2, args);
    let x3 = seq!['#', '1'];
    lemma_hole('1', args);
    let x4 = "_3,%du"@;
    frames::lemma_fill_plain(x4, args);
    let x5 = seq!['#', '0'];
    lemma_hole('0', args);
    let x6 = "_"@;
    frames::lemma_fill_plain(x6, args);
    let x7 = seq!['#', '1'];
    lemma_hole('1', args);
    let x8 = "_3,%biasu1;\n"@;
    frames::lemma_fill_plain(x8, args);
    assert(whole =~= x0 + x1 + x2 + x3 + x4 + x5 + x6 + x7 + x8);
    frames::lemma_fill_add(x0, x1, args);
    frames::lemma_fill_add(x0 + x1, x2, args);
    frames::lemma_fill_add(x0 + x1 + x2, x3, args);
    frames::lemma_fill_add(x0 + x1 + x2 + x3, x4, args);
    frames::lemma_fill_add(x0 + x1 + x2 + x3 + x4, x5, args);
    frames::lemma_fill_add(x0 + x1 + x2 + x3 + x4 + x5, x6, args);
    frames::lemma_fill_add(x0 + x1 + x2 + x3 + x4 + x5 + x6, x7, args);
    frames::lemma_fill_add(x0 + x1 + x2 + x3 + x4 + x5 + x6 + x7, x8, args);
    let op = "add.f32"@;
    let given = seq!["%du"@ + args[0] + "_"@ + args[1] + "_3"@, "%du"@ + args[0] + "_"@ + args[1] + "_3"@, "%biasu1"@];
    machine::lemma_listed3("%du"@ + args[0] + "_"@ + args[1] + "_3"@, "%du"@ + args[0] + "_"@ + args[1] + "_3"@, "%biasu1"@);
    assert(text::fill(whole, args) =~= machine::line(op, given));
    machine::lemma_reads_line(op, given);
}

/// What [`mma_gate::ADD_BIAS`] spells.
pub proof fn lemma_mma_gate_add_bias(args: Seq<Seq<char>>)
    requires
        args.len() > 1,
        operand(args[0]),
        operand(args[1]),
    ensures
        reads(
            text::fill(mma_gate::ADD_BIAS@, args),
            seq![Insn { op: "mul.wide.u32"@, args: seq!["%off"@, "%gcol"@, "4"@] }, Insn { op: "add.s64"@, args: seq!["%cptr"@, "%BiasG"@, "%off"@] }, Insn { op: "ld.global.f32"@, args: seq!["%biasg0"@, "[%cptr]"@] }, Insn { op: "ld.global.f32"@, args: seq!["%biasg1"@, "[%cptr+4]"@] }, Insn { op: "add.f32"@, args: seq!["%dg"@ + args[0] + "_"@ + args[1] + "_0"@, "%dg"@ + args[0] + "_"@ + args[1] + "_0"@, "%biasg0"@] }, Insn { op: "add.f32"@, args: seq!["%dg"@ + args[0] + "_"@ + args[1] + "_1"@, "%dg"@ + args[0] + "_"@ + args[1] + "_1"@, "%biasg1"@] }, Insn { op: "add.f32"@, args: seq!["%dg"@ + args[0] + "_"@ + args[1] + "_2"@, "%dg"@ + args[0] + "_"@ + args[1] + "_2"@, "%biasg0"@] }, Insn { op: "add.f32"@, args: seq!["%dg"@ + args[0] + "_"@ + args[1] + "_3"@, "%dg"@ + args[0] + "_"@ + args[1] + "_3"@, "%biasg1"@] }, Insn { op: "add.s64"@, args: seq!["%cptr"@, "%BiasU"@, "%off"@] }, Insn { op: "ld.global.f32"@, args: seq!["%biasu0"@, "[%cptr]"@] }, Insn { op: "ld.global.f32"@, args: seq!["%biasu1"@, "[%cptr+4]"@] }, Insn { op: "add.f32"@, args: seq!["%du"@ + args[0] + "_"@ + args[1] + "_0"@, "%du"@ + args[0] + "_"@ + args[1] + "_0"@, "%biasu0"@] }, Insn { op: "add.f32"@, args: seq!["%du"@ + args[0] + "_"@ + args[1] + "_1"@, "%du"@ + args[0] + "_"@ + args[1] + "_1"@, "%biasu1"@] }, Insn { op: "add.f32"@, args: seq!["%du"@ + args[0] + "_"@ + args[1] + "_2"@, "%du"@ + args[0] + "_"@ + args[1] + "_2"@, "%biasu0"@] }, Insn { op: "add.f32"@, args: seq!["%du"@ + args[0] + "_"@ + args[1] + "_3"@, "%du"@ + args[0] + "_"@ + args[1] + "_3"@, "%biasu1"@] }],
        ),
{
    let t = mma_gate::ADD_BIAS@;
    reveal_strlit("    mul.wide.u32 %off,%gcol,4;\n    add.s64 %cptr,%BiasG,%off;\n    ld.global.f32 %biasg0,[%cptr];\n    ld.global.f32 %biasg1,[%cptr+4];\n    add.f32 %dg#0_#1_0,%dg#0_#1_0,%biasg0;\n    add.f32 %dg#0_#1_1,%dg#0_#1_1,%biasg1;\n    add.f32 %dg#0_#1_2,%dg#0_#1_2,%biasg0;\n    add.f32 %dg#0_#1_3,%dg#0_#1_3,%biasg1;\n    add.s64 %cptr,%BiasU,%off;\n    ld.global.f32 %biasu0,[%cptr];\n    ld.global.f32 %biasu1,[%cptr+4];\n    add.f32 %du#0_#1_0,%du#0_#1_0,%biasu0;\n    add.f32 %du#0_#1_1,%du#0_#1_1,%biasu1;\n    add.f32 %du#0_#1_2,%du#0_#1_2,%biasu0;\n    add.f32 %du#0_#1_3,%du#0_#1_3,%biasu1;\n");
    reveal_strlit("    mul.wide.u32 %off,%gcol,4;\n");
    let l0 = "    mul.wide.u32 %off,%gcol,4;\n"@;
    let i0 = Insn { op: "mul.wide.u32"@, args: seq!["%off"@, "%gcol"@, "4"@] };
    reveal_strlit("    add.s64 %cptr,%BiasG,%off;\n");
    let l1 = "    add.s64 %cptr,%BiasG,%off;\n"@;
    let i1 = Insn { op: "add.s64"@, args: seq!["%cptr"@, "%BiasG"@, "%off"@] };
    reveal_strlit("    ld.global.f32 %biasg0,[%cptr];\n");
    let l2 = "    ld.global.f32 %biasg0,[%cptr];\n"@;
    let i2 = Insn { op: "ld.global.f32"@, args: seq!["%biasg0"@, "[%cptr]"@] };
    reveal_strlit("    ld.global.f32 %biasg1,[%cptr+4];\n");
    let l3 = "    ld.global.f32 %biasg1,[%cptr+4];\n"@;
    let i3 = Insn { op: "ld.global.f32"@, args: seq!["%biasg1"@, "[%cptr+4]"@] };
    reveal_strlit("    add.f32 %dg#0_#1_0,%dg#0_#1_0,%biasg0;\n");
    let l4 = "    add.f32 %dg#0_#1_0,%dg#0_#1_0,%biasg0;\n"@;
    let i4 = Insn { op: "add.f32"@, args: seq!["%dg"@ + args[0] + "_"@ + args[1] + "_0"@, "%dg"@ + args[0] + "_"@ + args[1] + "_0"@, "%biasg0"@] };
    reveal_strlit("    add.f32 %dg#0_#1_1,%dg#0_#1_1,%biasg1;\n");
    let l5 = "    add.f32 %dg#0_#1_1,%dg#0_#1_1,%biasg1;\n"@;
    let i5 = Insn { op: "add.f32"@, args: seq!["%dg"@ + args[0] + "_"@ + args[1] + "_1"@, "%dg"@ + args[0] + "_"@ + args[1] + "_1"@, "%biasg1"@] };
    reveal_strlit("    add.f32 %dg#0_#1_2,%dg#0_#1_2,%biasg0;\n");
    let l6 = "    add.f32 %dg#0_#1_2,%dg#0_#1_2,%biasg0;\n"@;
    let i6 = Insn { op: "add.f32"@, args: seq!["%dg"@ + args[0] + "_"@ + args[1] + "_2"@, "%dg"@ + args[0] + "_"@ + args[1] + "_2"@, "%biasg0"@] };
    reveal_strlit("    add.f32 %dg#0_#1_3,%dg#0_#1_3,%biasg1;\n");
    let l7 = "    add.f32 %dg#0_#1_3,%dg#0_#1_3,%biasg1;\n"@;
    let i7 = Insn { op: "add.f32"@, args: seq!["%dg"@ + args[0] + "_"@ + args[1] + "_3"@, "%dg"@ + args[0] + "_"@ + args[1] + "_3"@, "%biasg1"@] };
    reveal_strlit("    add.s64 %cptr,%BiasU,%off;\n");
    let l8 = "    add.s64 %cptr,%BiasU,%off;\n"@;
    let i8 = Insn { op: "add.s64"@, args: seq!["%cptr"@, "%BiasU"@, "%off"@] };
    reveal_strlit("    ld.global.f32 %biasu0,[%cptr];\n");
    let l9 = "    ld.global.f32 %biasu0,[%cptr];\n"@;
    let i9 = Insn { op: "ld.global.f32"@, args: seq!["%biasu0"@, "[%cptr]"@] };
    reveal_strlit("    ld.global.f32 %biasu1,[%cptr+4];\n");
    let l10 = "    ld.global.f32 %biasu1,[%cptr+4];\n"@;
    let i10 = Insn { op: "ld.global.f32"@, args: seq!["%biasu1"@, "[%cptr+4]"@] };
    reveal_strlit("    add.f32 %du#0_#1_0,%du#0_#1_0,%biasu0;\n");
    let l11 = "    add.f32 %du#0_#1_0,%du#0_#1_0,%biasu0;\n"@;
    let i11 = Insn { op: "add.f32"@, args: seq!["%du"@ + args[0] + "_"@ + args[1] + "_0"@, "%du"@ + args[0] + "_"@ + args[1] + "_0"@, "%biasu0"@] };
    reveal_strlit("    add.f32 %du#0_#1_1,%du#0_#1_1,%biasu1;\n");
    let l12 = "    add.f32 %du#0_#1_1,%du#0_#1_1,%biasu1;\n"@;
    let i12 = Insn { op: "add.f32"@, args: seq!["%du"@ + args[0] + "_"@ + args[1] + "_1"@, "%du"@ + args[0] + "_"@ + args[1] + "_1"@, "%biasu1"@] };
    reveal_strlit("    add.f32 %du#0_#1_2,%du#0_#1_2,%biasu0;\n");
    let l13 = "    add.f32 %du#0_#1_2,%du#0_#1_2,%biasu0;\n"@;
    let i13 = Insn { op: "add.f32"@, args: seq!["%du"@ + args[0] + "_"@ + args[1] + "_2"@, "%du"@ + args[0] + "_"@ + args[1] + "_2"@, "%biasu0"@] };
    reveal_strlit("    add.f32 %du#0_#1_3,%du#0_#1_3,%biasu1;\n");
    let l14 = "    add.f32 %du#0_#1_3,%du#0_#1_3,%biasu1;\n"@;
    let i14 = Insn { op: "add.f32"@, args: seq!["%du"@ + args[0] + "_"@ + args[1] + "_3"@, "%du"@ + args[0] + "_"@ + args[1] + "_3"@, "%biasu1"@] };
    assert(t =~= l0 + l1 + l2 + l3 + l4 + l5 + l6 + l7 + l8 + l9 + l10 + l11 + l12 + l13 + l14);
    mma_gate_add_bias_0(args);
    let q0 = seq![i0];
    mma_gate_add_bias_1(args);
    frames::lemma_fill_add(l0, l1, args);
    machine::lemma_reads_add(text::fill(l0, args), q0, text::fill(l1, args), seq![i1]);
    let q1 = q0 + seq![i1];
    mma_gate_add_bias_2(args);
    frames::lemma_fill_add(l0 + l1, l2, args);
    machine::lemma_reads_add(text::fill(l0 + l1, args), q1, text::fill(l2, args), seq![i2]);
    let q2 = q1 + seq![i2];
    mma_gate_add_bias_3(args);
    frames::lemma_fill_add(l0 + l1 + l2, l3, args);
    machine::lemma_reads_add(text::fill(l0 + l1 + l2, args), q2, text::fill(l3, args), seq![i3]);
    let q3 = q2 + seq![i3];
    mma_gate_add_bias_4(args);
    frames::lemma_fill_add(l0 + l1 + l2 + l3, l4, args);
    machine::lemma_reads_add(text::fill(l0 + l1 + l2 + l3, args), q3, text::fill(l4, args), seq![i4]);
    let q4 = q3 + seq![i4];
    mma_gate_add_bias_5(args);
    frames::lemma_fill_add(l0 + l1 + l2 + l3 + l4, l5, args);
    machine::lemma_reads_add(text::fill(l0 + l1 + l2 + l3 + l4, args), q4, text::fill(l5, args), seq![i5]);
    let q5 = q4 + seq![i5];
    mma_gate_add_bias_6(args);
    frames::lemma_fill_add(l0 + l1 + l2 + l3 + l4 + l5, l6, args);
    machine::lemma_reads_add(text::fill(l0 + l1 + l2 + l3 + l4 + l5, args), q5, text::fill(l6, args), seq![i6]);
    let q6 = q5 + seq![i6];
    mma_gate_add_bias_7(args);
    frames::lemma_fill_add(l0 + l1 + l2 + l3 + l4 + l5 + l6, l7, args);
    machine::lemma_reads_add(text::fill(l0 + l1 + l2 + l3 + l4 + l5 + l6, args), q6, text::fill(l7, args), seq![i7]);
    let q7 = q6 + seq![i7];
    mma_gate_add_bias_8(args);
    frames::lemma_fill_add(l0 + l1 + l2 + l3 + l4 + l5 + l6 + l7, l8, args);
    machine::lemma_reads_add(text::fill(l0 + l1 + l2 + l3 + l4 + l5 + l6 + l7, args), q7, text::fill(l8, args), seq![i8]);
    let q8 = q7 + seq![i8];
    mma_gate_add_bias_9(args);
    frames::lemma_fill_add(l0 + l1 + l2 + l3 + l4 + l5 + l6 + l7 + l8, l9, args);
    machine::lemma_reads_add(text::fill(l0 + l1 + l2 + l3 + l4 + l5 + l6 + l7 + l8, args), q8, text::fill(l9, args), seq![i9]);
    let q9 = q8 + seq![i9];
    mma_gate_add_bias_10(args);
    frames::lemma_fill_add(l0 + l1 + l2 + l3 + l4 + l5 + l6 + l7 + l8 + l9, l10, args);
    machine::lemma_reads_add(text::fill(l0 + l1 + l2 + l3 + l4 + l5 + l6 + l7 + l8 + l9, args), q9, text::fill(l10, args), seq![i10]);
    let q10 = q9 + seq![i10];
    mma_gate_add_bias_11(args);
    frames::lemma_fill_add(l0 + l1 + l2 + l3 + l4 + l5 + l6 + l7 + l8 + l9 + l10, l11, args);
    machine::lemma_reads_add(text::fill(l0 + l1 + l2 + l3 + l4 + l5 + l6 + l7 + l8 + l9 + l10, args), q10, text::fill(l11, args), seq![i11]);
    let q11 = q10 + seq![i11];
    mma_gate_add_bias_12(args);
    frames::lemma_fill_add(l0 + l1 + l2 + l3 + l4 + l5 + l6 + l7 + l8 + l9 + l10 + l11, l12, args);
    machine::lemma_reads_add(text::fill(l0 + l1 + l2 + l3 + l4 + l5 + l6 + l7 + l8 + l9 + l10 + l11, args), q11, text::fill(l12, args), seq![i12]);
    let q12 = q11 + seq![i12];
    mma_gate_add_bias_13(args);
    frames::lemma_fill_add(l0 + l1 + l2 + l3 + l4 + l5 + l6 + l7 + l8 + l9 + l10 + l11 + l12, l13, args);
    machine::lemma_reads_add(text::fill(l0 + l1 + l2 + l3 + l4 + l5 + l6 + l7 + l8 + l9 + l10 + l11 + l12, args), q12, text::fill(l13, args), seq![i13]);
    let q13 = q12 + seq![i13];
    mma_gate_add_bias_14(args);
    frames::lemma_fill_add(l0 + l1 + l2 + l3 + l4 + l5 + l6 + l7 + l8 + l9 + l10 + l11 + l12 + l13, l14, args);
    machine::lemma_reads_add(text::fill(l0 + l1 + l2 + l3 + l4 + l5 + l6 + l7 + l8 + l9 + l10 + l11 + l12 + l13, args), q13, text::fill(l14, args), seq![i14]);
    let q14 = q13 + seq![i14];
    assert(q14 =~= seq![Insn { op: "mul.wide.u32"@, args: seq!["%off"@, "%gcol"@, "4"@] }, Insn { op: "add.s64"@, args: seq!["%cptr"@, "%BiasG"@, "%off"@] }, Insn { op: "ld.global.f32"@, args: seq!["%biasg0"@, "[%cptr]"@] }, Insn { op: "ld.global.f32"@, args: seq!["%biasg1"@, "[%cptr+4]"@] }, Insn { op: "add.f32"@, args: seq!["%dg"@ + args[0] + "_"@ + args[1] + "_0"@, "%dg"@ + args[0] + "_"@ + args[1] + "_0"@, "%biasg0"@] }, Insn { op: "add.f32"@, args: seq!["%dg"@ + args[0] + "_"@ + args[1] + "_1"@, "%dg"@ + args[0] + "_"@ + args[1] + "_1"@, "%biasg1"@] }, Insn { op: "add.f32"@, args: seq!["%dg"@ + args[0] + "_"@ + args[1] + "_2"@, "%dg"@ + args[0] + "_"@ + args[1] + "_2"@, "%biasg0"@] }, Insn { op: "add.f32"@, args: seq!["%dg"@ + args[0] + "_"@ + args[1] + "_3"@, "%dg"@ + args[0] + "_"@ + args[1] + "_3"@, "%biasg1"@] }, Insn { op: "add.s64"@, args: seq!["%cptr"@, "%BiasU"@, "%off"@] }, Insn { op: "ld.global.f32"@, args: seq!["%biasu0"@, "[%cptr]"@] }, Insn { op: "ld.global.f32"@, args: seq!["%biasu1"@, "[%cptr+4]"@] }, Insn { op: "add.f32"@, args: seq!["%du"@ + args[0] + "_"@ + args[1] + "_0"@, "%du"@ + args[0] + "_"@ + args[1] + "_0"@, "%biasu0"@] }, Insn { op: "add.f32"@, args: seq!["%du"@ + args[0] + "_"@ + args[1] + "_1"@, "%du"@ + args[0] + "_"@ + args[1] + "_1"@, "%biasu1"@] }, Insn { op: "add.f32"@, args: seq!["%du"@ + args[0] + "_"@ + args[1] + "_2"@, "%du"@ + args[0] + "_"@ + args[1] + "_2"@, "%biasu0"@] }, Insn { op: "add.f32"@, args: seq!["%du"@ + args[0] + "_"@ + args[1] + "_3"@, "%du"@ + args[0] + "_"@ + args[1] + "_3"@, "%biasu1"@] }]);
}

/// `mul.f32 %dg#0_#1_0,%dg#0_#1_0,%du#0_#1_0;`
proof fn mma_gate_gated_store_0(args: Seq<Seq<char>>)
    requires
        args.len() > 1,
        operand(args[0]),
        operand(args[1]),
    ensures
        reads(
            text::fill("    mul.f32 %dg#0_#1_0,%dg#0_#1_0,%du#0_#1_0;\n"@, args),
            seq![Insn { op: "mul.f32"@, args: seq!["%dg"@ + args[0] + "_"@ + args[1] + "_0"@, "%dg"@ + args[0] + "_"@ + args[1] + "_0"@, "%du"@ + args[0] + "_"@ + args[1] + "_0"@] }],
        ),
{
    reveal_strlit("    mul.f32 %dg");
    reveal_strlit("    mul.f32 %dg#0_#1_0,%dg#0_#1_0,%du#0_#1_0;\n");
    reveal_strlit("%dg");
    reveal_strlit("%du");
    reveal_strlit("_");
    reveal_strlit("_0");
    reveal_strlit("_0,%dg");
    reveal_strlit("_0,%du");
    reveal_strlit("_0;\n");
    reveal_strlit("mul.f32");
    let whole = "    mul.f32 %dg#0_#1_0,%dg#0_#1_0,%du#0_#1_0;\n"@;
    let x0 = "    mul.f32 %dg"@;
    frames::lemma_fill_plain(x0, args);
    let x1 = seq!['#', '0'];
    lemma_hole('0', args);
    let x2 = "_"@;
    frames::lemma_fill_plain(x2, args);
    let x3 = seq!['#', '1'];
    lemma_hole('1', args);
    let x4 = "_0,%dg"@;
    frames::lemma_fill_plain(x4, args);
    let x5 = seq!['#', '0'];
    lemma_hole('0', args);
    let x6 = "_"@;
    frames::lemma_fill_plain(x6, args);
    let x7 = seq!['#', '1'];
    lemma_hole('1', args);
    let x8 = "_0,%du"@;
    frames::lemma_fill_plain(x8, args);
    let x9 = seq!['#', '0'];
    lemma_hole('0', args);
    let x10 = "_"@;
    frames::lemma_fill_plain(x10, args);
    let x11 = seq!['#', '1'];
    lemma_hole('1', args);
    let x12 = "_0;\n"@;
    frames::lemma_fill_plain(x12, args);
    assert(whole =~= x0 + x1 + x2 + x3 + x4 + x5 + x6 + x7 + x8 + x9 + x10 + x11 + x12);
    frames::lemma_fill_add(x0, x1, args);
    frames::lemma_fill_add(x0 + x1, x2, args);
    frames::lemma_fill_add(x0 + x1 + x2, x3, args);
    frames::lemma_fill_add(x0 + x1 + x2 + x3, x4, args);
    frames::lemma_fill_add(x0 + x1 + x2 + x3 + x4, x5, args);
    frames::lemma_fill_add(x0 + x1 + x2 + x3 + x4 + x5, x6, args);
    frames::lemma_fill_add(x0 + x1 + x2 + x3 + x4 + x5 + x6, x7, args);
    frames::lemma_fill_add(x0 + x1 + x2 + x3 + x4 + x5 + x6 + x7, x8, args);
    frames::lemma_fill_add(x0 + x1 + x2 + x3 + x4 + x5 + x6 + x7 + x8, x9, args);
    frames::lemma_fill_add(x0 + x1 + x2 + x3 + x4 + x5 + x6 + x7 + x8 + x9, x10, args);
    frames::lemma_fill_add(x0 + x1 + x2 + x3 + x4 + x5 + x6 + x7 + x8 + x9 + x10, x11, args);
    frames::lemma_fill_add(x0 + x1 + x2 + x3 + x4 + x5 + x6 + x7 + x8 + x9 + x10 + x11, x12, args);
    let op = "mul.f32"@;
    let given = seq!["%dg"@ + args[0] + "_"@ + args[1] + "_0"@, "%dg"@ + args[0] + "_"@ + args[1] + "_0"@, "%du"@ + args[0] + "_"@ + args[1] + "_0"@];
    machine::lemma_listed3("%dg"@ + args[0] + "_"@ + args[1] + "_0"@, "%dg"@ + args[0] + "_"@ + args[1] + "_0"@, "%du"@ + args[0] + "_"@ + args[1] + "_0"@);
    assert(text::fill(whole, args) =~= machine::line(op, given));
    machine::lemma_reads_line(op, given);
}

/// `mul.f32 %dg#0_#1_1,%dg#0_#1_1,%du#0_#1_1;`
proof fn mma_gate_gated_store_1(args: Seq<Seq<char>>)
    requires
        args.len() > 1,
        operand(args[0]),
        operand(args[1]),
    ensures
        reads(
            text::fill("    mul.f32 %dg#0_#1_1,%dg#0_#1_1,%du#0_#1_1;\n"@, args),
            seq![Insn { op: "mul.f32"@, args: seq!["%dg"@ + args[0] + "_"@ + args[1] + "_1"@, "%dg"@ + args[0] + "_"@ + args[1] + "_1"@, "%du"@ + args[0] + "_"@ + args[1] + "_1"@] }],
        ),
{
    reveal_strlit("    mul.f32 %dg");
    reveal_strlit("    mul.f32 %dg#0_#1_1,%dg#0_#1_1,%du#0_#1_1;\n");
    reveal_strlit("%dg");
    reveal_strlit("%du");
    reveal_strlit("_");
    reveal_strlit("_1");
    reveal_strlit("_1,%dg");
    reveal_strlit("_1,%du");
    reveal_strlit("_1;\n");
    reveal_strlit("mul.f32");
    let whole = "    mul.f32 %dg#0_#1_1,%dg#0_#1_1,%du#0_#1_1;\n"@;
    let x0 = "    mul.f32 %dg"@;
    frames::lemma_fill_plain(x0, args);
    let x1 = seq!['#', '0'];
    lemma_hole('0', args);
    let x2 = "_"@;
    frames::lemma_fill_plain(x2, args);
    let x3 = seq!['#', '1'];
    lemma_hole('1', args);
    let x4 = "_1,%dg"@;
    frames::lemma_fill_plain(x4, args);
    let x5 = seq!['#', '0'];
    lemma_hole('0', args);
    let x6 = "_"@;
    frames::lemma_fill_plain(x6, args);
    let x7 = seq!['#', '1'];
    lemma_hole('1', args);
    let x8 = "_1,%du"@;
    frames::lemma_fill_plain(x8, args);
    let x9 = seq!['#', '0'];
    lemma_hole('0', args);
    let x10 = "_"@;
    frames::lemma_fill_plain(x10, args);
    let x11 = seq!['#', '1'];
    lemma_hole('1', args);
    let x12 = "_1;\n"@;
    frames::lemma_fill_plain(x12, args);
    assert(whole =~= x0 + x1 + x2 + x3 + x4 + x5 + x6 + x7 + x8 + x9 + x10 + x11 + x12);
    frames::lemma_fill_add(x0, x1, args);
    frames::lemma_fill_add(x0 + x1, x2, args);
    frames::lemma_fill_add(x0 + x1 + x2, x3, args);
    frames::lemma_fill_add(x0 + x1 + x2 + x3, x4, args);
    frames::lemma_fill_add(x0 + x1 + x2 + x3 + x4, x5, args);
    frames::lemma_fill_add(x0 + x1 + x2 + x3 + x4 + x5, x6, args);
    frames::lemma_fill_add(x0 + x1 + x2 + x3 + x4 + x5 + x6, x7, args);
    frames::lemma_fill_add(x0 + x1 + x2 + x3 + x4 + x5 + x6 + x7, x8, args);
    frames::lemma_fill_add(x0 + x1 + x2 + x3 + x4 + x5 + x6 + x7 + x8, x9, args);
    frames::lemma_fill_add(x0 + x1 + x2 + x3 + x4 + x5 + x6 + x7 + x8 + x9, x10, args);
    frames::lemma_fill_add(x0 + x1 + x2 + x3 + x4 + x5 + x6 + x7 + x8 + x9 + x10, x11, args);
    frames::lemma_fill_add(x0 + x1 + x2 + x3 + x4 + x5 + x6 + x7 + x8 + x9 + x10 + x11, x12, args);
    let op = "mul.f32"@;
    let given = seq!["%dg"@ + args[0] + "_"@ + args[1] + "_1"@, "%dg"@ + args[0] + "_"@ + args[1] + "_1"@, "%du"@ + args[0] + "_"@ + args[1] + "_1"@];
    machine::lemma_listed3("%dg"@ + args[0] + "_"@ + args[1] + "_1"@, "%dg"@ + args[0] + "_"@ + args[1] + "_1"@, "%du"@ + args[0] + "_"@ + args[1] + "_1"@);
    assert(text::fill(whole, args) =~= machine::line(op, given));
    machine::lemma_reads_line(op, given);
}

/// `mul.f32 %dg#0_#1_2,%dg#0_#1_2,%du#0_#1_2;`
proof fn mma_gate_gated_store_2(args: Seq<Seq<char>>)
    requires
        args.len() > 1,
        operand(args[0]),
        operand(args[1]),
    ensures
        reads(
            text::fill("    mul.f32 %dg#0_#1_2,%dg#0_#1_2,%du#0_#1_2;\n"@, args),
            seq![Insn { op: "mul.f32"@, args: seq!["%dg"@ + args[0] + "_"@ + args[1] + "_2"@, "%dg"@ + args[0] + "_"@ + args[1] + "_2"@, "%du"@ + args[0] + "_"@ + args[1] + "_2"@] }],
        ),
{
    reveal_strlit("    mul.f32 %dg");
    reveal_strlit("    mul.f32 %dg#0_#1_2,%dg#0_#1_2,%du#0_#1_2;\n");
    reveal_strlit("%dg");
    reveal_strlit("%du");
    reveal_strlit("_");
    reveal_strlit("_2");
    reveal_strlit("_2,%dg");
    reveal_strlit("_2,%du");
    reveal_strlit("_2;\n");
    reveal_strlit("mul.f32");
    let whole = "    mul.f32 %dg#0_#1_2,%dg#0_#1_2,%du#0_#1_2;\n"@;
    let x0 = "    mul.f32 %dg"@;
    frames::lemma_fill_plain(x0, args);
    let x1 = seq!['#', '0'];
    lemma_hole('0', args);
    let x2 = "_"@;
    frames::lemma_fill_plain(x2, args);
    let x3 = seq!['#', '1'];
    lemma_hole('1', args);
    let x4 = "_2,%dg"@;
    frames::lemma_fill_plain(x4, args);
    let x5 = seq!['#', '0'];
    lemma_hole('0', args);
    let x6 = "_"@;
    frames::lemma_fill_plain(x6, args);
    let x7 = seq!['#', '1'];
    lemma_hole('1', args);
    let x8 = "_2,%du"@;
    frames::lemma_fill_plain(x8, args);
    let x9 = seq!['#', '0'];
    lemma_hole('0', args);
    let x10 = "_"@;
    frames::lemma_fill_plain(x10, args);
    let x11 = seq!['#', '1'];
    lemma_hole('1', args);
    let x12 = "_2;\n"@;
    frames::lemma_fill_plain(x12, args);
    assert(whole =~= x0 + x1 + x2 + x3 + x4 + x5 + x6 + x7 + x8 + x9 + x10 + x11 + x12);
    frames::lemma_fill_add(x0, x1, args);
    frames::lemma_fill_add(x0 + x1, x2, args);
    frames::lemma_fill_add(x0 + x1 + x2, x3, args);
    frames::lemma_fill_add(x0 + x1 + x2 + x3, x4, args);
    frames::lemma_fill_add(x0 + x1 + x2 + x3 + x4, x5, args);
    frames::lemma_fill_add(x0 + x1 + x2 + x3 + x4 + x5, x6, args);
    frames::lemma_fill_add(x0 + x1 + x2 + x3 + x4 + x5 + x6, x7, args);
    frames::lemma_fill_add(x0 + x1 + x2 + x3 + x4 + x5 + x6 + x7, x8, args);
    frames::lemma_fill_add(x0 + x1 + x2 + x3 + x4 + x5 + x6 + x7 + x8, x9, args);
    frames::lemma_fill_add(x0 + x1 + x2 + x3 + x4 + x5 + x6 + x7 + x8 + x9, x10, args);
    frames::lemma_fill_add(x0 + x1 + x2 + x3 + x4 + x5 + x6 + x7 + x8 + x9 + x10, x11, args);
    frames::lemma_fill_add(x0 + x1 + x2 + x3 + x4 + x5 + x6 + x7 + x8 + x9 + x10 + x11, x12, args);
    let op = "mul.f32"@;
    let given = seq!["%dg"@ + args[0] + "_"@ + args[1] + "_2"@, "%dg"@ + args[0] + "_"@ + args[1] + "_2"@, "%du"@ + args[0] + "_"@ + args[1] + "_2"@];
    machine::lemma_listed3("%dg"@ + args[0] + "_"@ + args[1] + "_2"@, "%dg"@ + args[0] + "_"@ + args[1] + "_2"@, "%du"@ + args[0] + "_"@ + args[1] + "_2"@);
    assert(text::fill(whole, args) =~= machine::line(op, given));
    machine::lemma_reads_line(op, given);
}

/// `mul.f32 %dg#0_#1_3,%dg#0_#1_3,%du#0_#1_3;`
proof fn mma_gate_gated_store_3(args: Seq<Seq<char>>)
    requires
        args.len() > 1,
        operand(args[0]),
        operand(args[1]),
    ensures
        reads(
            text::fill("    mul.f32 %dg#0_#1_3,%dg#0_#1_3,%du#0_#1_3;\n"@, args),
            seq![Insn { op: "mul.f32"@, args: seq!["%dg"@ + args[0] + "_"@ + args[1] + "_3"@, "%dg"@ + args[0] + "_"@ + args[1] + "_3"@, "%du"@ + args[0] + "_"@ + args[1] + "_3"@] }],
        ),
{
    reveal_strlit("    mul.f32 %dg");
    reveal_strlit("    mul.f32 %dg#0_#1_3,%dg#0_#1_3,%du#0_#1_3;\n");
    reveal_strlit("%dg");
    reveal_strlit("%du");
    reveal_strlit("_");
    reveal_strlit("_3");
    reveal_strlit("_3,%dg");
    reveal_strlit("_3,%du");
    reveal_strlit("_3;\n");
    reveal_strlit("mul.f32");
    let whole = "    mul.f32 %dg#0_#1_3,%dg#0_#1_3,%du#0_#1_3;\n"@;
    let x0 = "    mul.f32 %dg"@;
    frames::lemma_fill_plain(x0, args);
    let x1 = seq!['#', '0'];
    lemma_hole('0', args);
    let x2 = "_"@;
    frames::lemma_fill_plain(x2, args);
    let x3 = seq!['#', '1'];
    lemma_hole('1', args);
    let x4 = "_3,%dg"@;
    frames::lemma_fill_plain(x4, args);
    let x5 = seq!['#', '0'];
    lemma_hole('0', args);
    let x6 = "_"@;
    frames::lemma_fill_plain(x6, args);
    let x7 = seq!['#', '1'];
    lemma_hole('1', args);
    let x8 = "_3,%du"@;
    frames::lemma_fill_plain(x8, args);
    let x9 = seq!['#', '0'];
    lemma_hole('0', args);
    let x10 = "_"@;
    frames::lemma_fill_plain(x10, args);
    let x11 = seq!['#', '1'];
    lemma_hole('1', args);
    let x12 = "_3;\n"@;
    frames::lemma_fill_plain(x12, args);
    assert(whole =~= x0 + x1 + x2 + x3 + x4 + x5 + x6 + x7 + x8 + x9 + x10 + x11 + x12);
    frames::lemma_fill_add(x0, x1, args);
    frames::lemma_fill_add(x0 + x1, x2, args);
    frames::lemma_fill_add(x0 + x1 + x2, x3, args);
    frames::lemma_fill_add(x0 + x1 + x2 + x3, x4, args);
    frames::lemma_fill_add(x0 + x1 + x2 + x3 + x4, x5, args);
    frames::lemma_fill_add(x0 + x1 + x2 + x3 + x4 + x5, x6, args);
    frames::lemma_fill_add(x0 + x1 + x2 + x3 + x4 + x5 + x6, x7, args);
    frames::lemma_fill_add(x0 + x1 + x2 + x3 + x4 + x5 + x6 + x7, x8, args);
    frames::lemma_fill_add(x0 + x1 + x2 + x3 + x4 + x5 + x6 + x7 + x8, x9, args);
    frames::lemma_fill_add(x0 + x1 + x2 + x3 + x4 + x5 + x6 + x7 + x8 + x9, x10, args);
    frames::lemma_fill_add(x0 + x1 + x2 + x3 + x4 + x5 + x6 + x7 + x8 + x9 + x10, x11, args);
    frames::lemma_fill_add(x0 + x1 + x2 + x3 + x4 + x5 + x6 + x7 + x8 + x9 + x10 + x11, x12, args);
    let op = "mul.f32"@;
    let given = seq!["%dg"@ + args[0] + "_"@ + args[1] + "_3"@, "%dg"@ + args[0] + "_"@ + args[1] + "_3"@, "%du"@ + args[0] + "_"@ + args[1] + "_3"@];
    machine::lemma_listed3("%dg"@ + args[0] + "_"@ + args[1] + "_3"@, "%dg"@ + args[0] + "_"@ + args[1] + "_3"@, "%du"@ + args[0] + "_"@ + args[1] + "_3"@);
    assert(text::fill(whole, args) =~= machine::line(op, given));
    machine::lemma_reads_line(op, given);
}

/// `mul.lo.s32 %tmp,%grow,%N;`
proof fn mma_gate_gated_store_4(args: Seq<Seq<char>>)
    ensures
        reads(
            text::fill("    mul.lo.s32 %tmp,%grow,%N;\n"@, args),
            seq![Insn { op: "mul.lo.s32"@, args: seq!["%tmp"@, "%grow"@, "%N"@] }],
        ),
{
    reveal_strlit("    mul.lo.s32 %tmp,%grow,%N;\n");
    reveal_strlit("%N");
    reveal_strlit("%grow");
    reveal_strlit("%tmp");
    reveal_strlit("mul.lo.s32");
    frames::lemma_fill_plain("    mul.lo.s32 %tmp,%grow,%N;\n"@, args);
    let op = "mul.lo.s32"@;
    let given = seq!["%tmp"@, "%grow"@, "%N"@];
    machine::lemma_listed3("%tmp"@, "%grow"@, "%N"@);
    assert(text::fill("    mul.lo.s32 %tmp,%grow,%N;\n"@, args) =~= machine::line(op, given));
    machine::lemma_reads_line(op, given);
}

/// `add.u32 %tmp,%tmp,%gcol;`
proof fn mma_gate_gated_store_5(args: Seq<Seq<char>>)
    ensures
        reads(
            text::fill("    add.u32 %tmp,%tmp,%gcol;\n"@, args),
            seq![Insn { op: "add.u32"@, args: seq!["%tmp"@, "%tmp"@, "%gcol"@] }],
        ),
{
    reveal_strlit("    add.u32 %tmp,%tmp,%gcol;\n");
    reveal_strlit("%gcol");
    reveal_strlit("%tmp");
    reveal_strlit("add.u32");
    frames::lemma_fill_plain("    add.u32 %tmp,%tmp,%gcol;\n"@, args);
    let op = "add.u32"@;
    let given = seq!["%tmp"@, "%tmp"@, "%gcol"@];
    machine::lemma_listed3("%tmp"@, "%tmp"@, "%gcol"@);
    assert(text::fill("    add.u32 %tmp,%tmp,%gcol;\n"@, args) =~= machine::line(op, given));
    machine::lemma_reads_line(op, given);
}

/// `mul.wide.u32 %off,%tmp,4;`
proof fn mma_gate_gated_store_6(args: Seq<Seq<char>>)
    ensures
        reads(
            text::fill("    mul.wide.u32 %off,%tmp,4;\n"@, args),
            seq![Insn { op: "mul.wide.u32"@, args: seq!["%off"@, "%tmp"@, "4"@] }],
        ),
{
    reveal_strlit("    mul.wide.u32 %off,%tmp,4;\n");
    reveal_strlit("%off");
    reveal_strlit("%tmp");
    reveal_strlit("4");
    reveal_strlit("mul.wide.u32");
    frames::lemma_fill_plain("    mul.wide.u32 %off,%tmp,4;\n"@, args);
    let op = "mul.wide.u32"@;
    let given = seq!["%off"@, "%tmp"@, "4"@];
    machine::lemma_listed3("%off"@, "%tmp"@, "4"@);
    assert(text::fill("    mul.wide.u32 %off,%tmp,4;\n"@, args) =~= machine::line(op, given));
    machine::lemma_reads_line(op, given);
}

/// `add.s64 %cptr,%C,%off;`
proof fn mma_gate_gated_store_7(args: Seq<Seq<char>>)
    ensures
        reads(
            text::fill("    add.s64 %cptr,%C,%off;\n"@, args),
            seq![Insn { op: "add.s64"@, args: seq!["%cptr"@, "%C"@, "%off"@] }],
        ),
{
    reveal_strlit("    add.s64 %cptr,%C,%off;\n");
    reveal_strlit("%C");
    reveal_strlit("%cptr");
    reveal_strlit("%off");
    reveal_strlit("add.s64");
    frames::lemma_fill_plain("    add.s64 %cptr,%C,%off;\n"@, args);
    let op = "add.s64"@;
    let given = seq!["%cptr"@, "%C"@, "%off"@];
    machine::lemma_listed3("%cptr"@, "%C"@, "%off"@);
    assert(text::fill("    add.s64 %cptr,%C,%off;\n"@, args) =~= machine::line(op, given));
    machine::lemma_reads_line(op, given);
}

/// `st.global.f32 [%cptr],%dg#0_#1_0;`
proof fn mma_gate_gated_store_8(args: Seq<Seq<char>>)
    requires
        args.len() > 1,
        operand(args[0]),
        operand(args[1]),
    ensures
        reads(
            text::fill("    st.global.f32 [%cptr],%dg#0_#1_0;\n"@, args),
            seq![Insn { op: "st.global.f32"@, args: seq!["[%cptr]"@, "%dg"@ + args[0] + "_"@ + args[1] + "_0"@] }],
        ),
{
    reveal_strlit("    st.global.f32 [%cptr],%dg");
    reveal_strlit("    st.global.f32 [%cptr],%dg#0_#1_0;\n");
    reveal_strlit("%dg");
    reveal_strlit("[%cptr]");
    reveal_strlit("_");
    reveal_strlit("_0");
    reveal_strlit("_0;\n");
    reveal_strlit("st.global.f32");
    let whole = "    st.global.f32 [%cptr],%dg#0_#1_0;\n"@;
    let x0 = "    st.global.f32 [%cptr],%dg"@;
    frames::lemma_fill_plain(x0, args);
    let x1 = seq!['#', '0'];
    lemma_hole('0', args);
    let x2 = "_"@;
    frames::lemma_fill_plain(x2, args);
    let x3 = seq!['#', '1'];
    lemma_hole('1', args);
    let x4 = "_0;\n"@;
    frames::lemma_fill_plain(x4, args);
    assert(whole =~= x0 + x1 + x2 + x3 + x4);
    frames::lemma_fill_add(x0, x1, args);
    frames::lemma_fill_add(x0 + x1, x2, args);
    frames::lemma_fill_add(x0 + x1 + x2, x3, args);
    frames::lemma_fill_add(x0 + x1 + x2 + x3, x4, args);
    let op = "st.global.f32"@;
    let given = seq!["[%cptr]"@, "%dg"@ + args[0] + "_"@ + args[1] + "_0"@];
    machine::lemma_listed2("[%cptr]"@, "%dg"@ + args[0] + "_"@ + args[1] + "_0"@);
    assert(text::fill(whole, args) =~= machine::line(op, given));
    machine::lemma_reads_line(op, given);
}

/// `st.global.f32 [%cptr+4],%dg#0_#1_1;`
proof fn mma_gate_gated_store_9(args: Seq<Seq<char>>)
    requires
        args.len() > 1,
        operand(args[0]),
        operand(args[1]),
    ensures
        reads(
            text::fill("    st.global.f32 [%cptr+4],%dg#0_#1_1;\n"@, args),
            seq![Insn { op: "st.global.f32"@, args: seq!["[%cptr+4]"@, "%dg"@ + args[0] + "_"@ + args[1] + "_1"@] }],
        ),
{
    reveal_strlit("    st.global.f32 [%cptr+4],%dg");
    reveal_strlit("    st.global.f32 [%cptr+4],%dg#0_#1_1;\n");
    reveal_strlit("%dg");
    reveal_strlit("[%cptr+4]");
    reveal_strlit("_");
    reveal_strlit("_1");
    reveal_strlit("_1;\n");
    reveal_strlit("st.global.f32");
    let whole = "    st.global.f32 [%cptr+4],%dg#0_#1_1;\n"@;
    let x0 = "    st.global.f32 [%cptr+4],%dg"@;
    frames::lemma_fill_plain(x0, args);
    let x1 = seq!['#', '0'];
    lemma_hole('0', args);
    let x2 = "_"@;
    frames::lemma_fill_plain(x2, args);
    let x3 = seq!['#', '1'];
    lemma_hole('1', args);
    let x4 = "_1;\n"@;
    frames::lemma_fill_plain(x4, args);
    assert(whole =~= x0 + x1 + x2 + x3 + x4);
    frames::lemma_fill_add(x0, x1, args);
    frames::lemma_fill_add(x0 + x1, x2, args);
    frames::lemma_fill_add(x0 + x1 + x2, x3, args);
    frames::lemma_fill_add(x0 + x1 + x2 + x3, x4, args);
    let op = "st.global.f32"@;
    let given = seq!["[%cptr+4]"@, "%dg"@ + args[0] + "_"@ + args[1] + "_1"@];
    machine::lemma_listed2("[%cptr+4]"@, "%dg"@ + args[0] + "_"@ + args[1] + "_1"@);
    assert(text::fill(whole, args) =~= machine::line(op, given));
    machine::lemma_reads_line(op, given);
}

/// `add.u32 %tmp,%grow,8;`
proof fn mma_gate_gated_store_10(args: Seq<Seq<char>>)
    ensures
        reads(
            text::fill("    add.u32 %tmp,%grow,8;\n"@, args),
            seq![Insn { op: "add.u32"@, args: seq!["%tmp"@, "%grow"@, "8"@] }],
        ),
{
    reveal_strlit("    add.u32 %tmp,%grow,8;\n");
    reveal_strlit("%grow");
    reveal_strlit("%tmp");
    reveal_strlit("8");
    reveal_strlit("add.u32");
    frames::lemma_fill_plain("    add.u32 %tmp,%grow,8;\n"@, args);
    let op = "add.u32"@;
    let given = seq!["%tmp"@, "%grow"@, "8"@];
    machine::lemma_listed3("%tmp"@, "%grow"@, "8"@);
    assert(text::fill("    add.u32 %tmp,%grow,8;\n"@, args) =~= machine::line(op, given));
    machine::lemma_reads_line(op, given);
}

/// `mul.lo.s32 %tmp,%tmp,%N;`
proof fn mma_gate_gated_store_11(args: Seq<Seq<char>>)
    ensures
        reads(
            text::fill("    mul.lo.s32 %tmp,%tmp,%N;\n"@, args),
            seq![Insn { op: "mul.lo.s32"@, args: seq!["%tmp"@, "%tmp"@, "%N"@] }],
        ),
{
    reveal_strlit("    mul.lo.s32 %tmp,%tmp,%N;\n");
    reveal_strlit("%N");
    reveal_strlit("%tmp");
    reveal_strlit("mul.lo.s32");
    frames::lemma_fill_plain("    mul.lo.s32 %tmp,%tmp,%N;\n"@, args);
    let op = "mul.lo.s32"@;
    let given = seq!["%tmp"@, "%tmp"@, "%N"@];
    machine::lemma_listed3("%tmp"@, "%tmp"@, "%N"@);
    assert(text::fill("    mul.lo.s32 %tmp,%tmp,%N;\n"@, args) =~= machine::line(op, given));
    machine::lemma_reads_line(op, given);
}

/// `add.s64 %cptr2,%C,%off;`
proof fn mma_gate_gated_store_14(args: Seq<Seq<char>>)
    ensures
        reads(
            text::fill("    add.s64 %cptr2,%C,%off;\n"@, args),
            seq![Insn { op: "add.s64"@, args: seq!["%cptr2"@, "%C"@, "%off"@] }],
        ),
{
    reveal_strlit("    add.s64 %cptr2,%C,%off;\n");
    reveal_strlit("%C");
    reveal_strlit("%cptr2");
    reveal_strlit("%off");
    reveal_strlit("add.s64");
    frames::lemma_fill_plain("    add.s64 %cptr2,%C,%off;\n"@, args);
    let op = "add.s64"@;
    let given = seq!["%cptr2"@, "%C"@, "%off"@];
    machine::lemma_listed3("%cptr2"@, "%C"@, "%off"@);
    assert(text::fill("    add.s64 %cptr2,%C,%off;\n"@, args) =~= machine::line(op, given));
    machine::lemma_reads_line(op, given);
}

/// `st.global.f32 [%cptr2],%dg#0_#1_2;`
proof fn mma_gate_gated_store_15(args: Seq<Seq<char>>)
    requires
        args.len() > 1,
        operand(args[0]),
        operand(args[1]),
    ensures
        reads(
            text::fill("    st.global.f32 [%cptr2],%dg#0_#1_2;\n"@, args),
            seq![Insn { op: "st.global.f32"@, args: seq!["[%cptr2]"@, "%dg"@ + args[0] + "_"@ + args[1] + "_2"@] }],
        ),
{
    reveal_strlit("    st.global.f32 [%cptr2],%dg");
    reveal_strlit("    st.global.f32 [%cptr2],%dg#0_#1_2;\n");
    reveal_strlit("%dg");
    reveal_strlit("[%cptr2]");
    reveal_strlit("_");
    reveal_strlit("_2");
    reveal_strlit("_2;\n");
    reveal_strlit("st.global.f32");
    let whole = "    st.global.f32 [%cptr2],%dg#0_#1_2;\n"@;
    let x0 = "    st.global.f32 [%cptr2],%dg"@;
    frames::lemma_fill_plain(x0, args);
    let x1 = seq!['#', '0'];
    lemma_hole('0', args);
    let x2 = "_"@;
    frames::lemma_fill_plain(x2, args);
    let x3 = seq!['#', '1'];
    lemma_hole('1', args);
    let x4 = "_2;\n"@;
    frames::lemma_fill_plain(x4, args);
    assert(whole =~= x0 + x1 + x2 + x3 + x4);
    frames::lemma_fill_add(x0, x1, args);
    frames::lemma_fill_add(x0 + x1, x2, args);
    frames::lemma_fill_add(x0 + x1 + x2, x3, args);
    frames::lemma_fill_add(x0 + x1 + x2 + x3, x4, args);
    let op = "st.global.f32"@;
    let given = seq!["[%cptr2]"@, "%dg"@ + args[0] + "_"@ + args[1] + "_2"@];
    machine::lemma_listed2("[%cptr2]"@, "%dg"@ + args[0] + "_"@ + args[1] + "_2"@);
    assert(text::fill(whole, args) =~= machine::line(op, given));
    machine::lemma_reads_line(op, given);
}

/// `st.global.f32 [%cptr2+4],%dg#0_#1_3;`
proof fn mma_gate_gated_store_16(args: Seq<Seq<char>>)
    requires
        args.len() > 1,
        operand(args[0]),
        operand(args[1]),
    ensures
        reads(
            text::fill("    st.global.f32 [%cptr2+4],%dg#0_#1_3;\n"@, args),
            seq![Insn { op: "st.global.f32"@, args: seq!["[%cptr2+4]"@, "%dg"@ + args[0] + "_"@ + args[1] + "_3"@] }],
        ),
{
    reveal_strlit("    st.global.f32 [%cptr2+4],%dg");
    reveal_strlit("    st.global.f32 [%cptr2+4],%dg#0_#1_3;\n");
    reveal_strlit("%dg");
    reveal_strlit("[%cptr2+4]");
    reveal_strlit("_");
    reveal_strlit("_3");
    reveal_strlit("_3;\n");
    reveal_strlit("st.global.f32");
    let whole = "    st.global.f32 [%cptr2+4],%dg#0_#1_3;\n"@;
    let x0 = "    st.global.f32 [%cptr2+4],%dg"@;
    frames::lemma_fill_plain(x0, args);
    let x1 = seq!['#', '0'];
    lemma_hole('0', args);
    let x2 = "_"@;
    frames::lemma_fill_plain(x2, args);
    let x3 = seq!['#', '1'];
    lemma_hole('1', args);
    let x4 = "_3;\n"@;
    frames::lemma_fill_plain(x4, args);
    assert(whole =~= x0 + x1 + x2 + x3 + x4);
    frames::lemma_fill_add(x0, x1, args);
    frames::lemma_fill_add(x0 + x1, x2, args);
    frames::lemma_fill_add(x0 + x1 + x2, x3, args);
    frames::lemma_fill_add(x0 + x1 + x2 + x3, x4, args);
    let op = "st.global.f32"@;
    let given = seq!["[%cptr2+4]"@, "%dg"@ + args[0] + "_"@ + args[1] + "_3"@];
    machine::lemma_listed2("[%cptr2+4]"@, "%dg"@ + args[0] + "_"@ + args[1] + "_3"@);
    assert(text::fill(whole, args) =~= machine::line(op, given));
    machine::lemma_reads_line(op, given);
}

/// What [`mma_gate::GATED_STORE`] spells.
pub proof fn lemma_mma_gate_gated_store(args: Seq<Seq<char>>)
    requires
        args.len() > 1,
        operand(args[0]),
        operand(args[1]),
    ensures
        reads(
            text::fill(mma_gate::GATED_STORE@, args),
            seq![Insn { op: "mul.f32"@, args: seq!["%dg"@ + args[0] + "_"@ + args[1] + "_0"@, "%dg"@ + args[0] + "_"@ + args[1] + "_0"@, "%du"@ + args[0] + "_"@ + args[1] + "_0"@] }, Insn { op: "mul.f32"@, args: seq!["%dg"@ + args[0] + "_"@ + args[1] + "_1"@, "%dg"@ + args[0] + "_"@ + args[1] + "_1"@, "%du"@ + args[0] + "_"@ + args[1] + "_1"@] }, Insn { op: "mul.f32"@, args: seq!["%dg"@ + args[0] + "_"@ + args[1] + "_2"@, "%dg"@ + args[0] + "_"@ + args[1] + "_2"@, "%du"@ + args[0] + "_"@ + args[1] + "_2"@] }, Insn { op: "mul.f32"@, args: seq!["%dg"@ + args[0] + "_"@ + args[1] + "_3"@, "%dg"@ + args[0] + "_"@ + args[1] + "_3"@, "%du"@ + args[0] + "_"@ + args[1] + "_3"@] }, Insn { op: "mul.lo.s32"@, args: seq!["%tmp"@, "%grow"@, "%N"@] }, Insn { op: "add.u32"@, args: seq!["%tmp"@, "%tmp"@, "%gcol"@] }, Insn { op: "mul.wide.u32"@, args: seq!["%off"@, "%tmp"@, "4"@] }, Insn { op: "add.s64"@, args: seq!["%cptr"@, "%C"@, "%off"@] }, Insn { op: "st.global.f32"@, args: seq!["[%cptr]"@, "%dg"@ + args[0] + "_"@ + args[1] + "_0"@] }, Insn { op: "st.global.f32"@, args: seq!["[%cptr+4]"@, "%dg"@ + args[0] + "_"@ + args[1] + "_1"@] }, Insn { op: "add.u32"@, args: seq!["%tmp"@, "%grow"@, "8"@] }, Insn { op: "mul.lo.s32"@, args: seq!["%tmp"@, "%tmp"@, "%N"@] }, Insn { op: "add.u32"@, args: seq!["%tmp"@, "%tmp"@, "%gcol"@] }, Insn { op: "mul.wide.u32"@, args: seq!["%off"@, "%tmp"@, "4"@] }, Insn { op: "add.s64"@, args: seq!["%cptr2"@, "%C"@, "%off"@] }, Insn { op: "st.global.f32"@, args: seq!["[%cptr2]"@, "%dg"@ + args[0] + "_"@ + args[1] + "_2"@] }, Insn { op: "st.global.f32"@, args: seq!["[%cptr2+4]"@, "%dg"@ + args[0] + "_"@ + args[1] + "_3"@] }],
        ),
{
    let t = mma_gate::GATED_STORE@;
    reveal_strlit("    mul.f32 %dg#0_#1_0,%dg#0_#1_0,%du#0_#1_0;\n    mul.f32 %dg#0_#1_1,%dg#0_#1_1,%du#0_#1_1;\n    mul.f32 %dg#0_#1_2,%dg#0_#1_2,%du#0_#1_2;\n    mul.f32 %dg#0_#1_3,%dg#0_#1_3,%du#0_#1_3;\n    mul.lo.s32 %tmp,%grow,%N;\n    add.u32 %tmp,%tmp,%gcol;\n    mul.wide.u32 %off,%tmp,4;\n    add.s64 %cptr,%C,%off;\n    st.global.f32 [%cptr],%dg#0_#1_0;\n    st.global.f32 [%cptr+4],%dg#0_#1_1;\n    add.u32 %tmp,%grow,8;\n    mul.lo.s32 %tmp,%tmp,%N;\n    add.u32 %tmp,%tmp,%gcol;\n    mul.wide.u32 %off,%tmp,4;\n    add.s64 %cptr2,%C,%off;\n    st.global.f32 [%cptr2],%dg#0_#1_2;\n    st.global.f32 [%cptr2+4],%dg#0_#1_3;\n");
    reveal_strlit("    mul.f32 %dg#0_#1_0,%dg#0_#1_0,%du#0_#1_0;\n");
    let l0 = "    mul.f32 %dg#0_#1_0,%dg#0_#1_0,%du#0_#1_0;\n"@;
    let i0 = Insn { op: "mul.f32"@, args: seq!["%dg"@ + args[0] + "_"@ + args[1] + "_0"@, "%dg"@ + args[0] + "_"@ + args[1] + "_0"@, "%du"@ + args[0] + "_"@ + args[1] + "_0"@] };
    reveal_strlit("    mul.f32 %dg#0_#1_1,%dg#0_#1_1,%du#0_#1_1;\n");
    let l1 = "    mul.f32 %dg#0_#1_1,%dg#0_#1_1,%du#0_#1_1;\n"@;
    let i1 = Insn { op: "mul.f32"@, args: seq!["%dg"@ + args[0] + "_"@ + args[1] + "_1"@, "%dg"@ + args[0] + "_"@ + args[1] + "_1"@, "%du"@ + args[0] + "_"@ + args[1] + "_1"@] };
    reveal_strlit("    mul.f32 %dg#0_#1_2,%dg#0_#1_2,%du#0_#1_2;\n");
    let l2 = "    mul.f32 %dg#0_#1_2,%dg#0_#1_2,%du#0_#1_2;\n"@;
    let i2 = Insn { op: "mul.f32"@, args: seq!["%dg"@ + args[0] + "_"@ + args[1] + "_2"@, "%dg"@ + args[0] + "_"@ + args[1] + "_2"@, "%du"@ + args[0] + "_"@ + args[1] + "_2"@] };
    reveal_strlit("    mul.f32 %dg#0_#1_3,%dg#0_#1_3,%du#0_#1_3;\n");
    let l3 = "    mul.f32 %dg#0_#1_3,%dg#0_#1_3,%du#0_#1_3;\n"@;
    let i3 = Insn { op: "mul.f32"@, args: seq!["%dg"@ + args[0] + "_"@ + args[1] + "_3"@, "%dg"@ + args[0] + "_"@ + args[1] + "_3"@, "%du"@ + args[0] + "_"@ + args[1] + "_3"@] };
    reveal_strlit("    mul.lo.s32 %tmp,%grow,%N;\n");
    let l4 = "    mul.lo.s32 %tmp,%grow,%N;\n"@;
    let i4 = Insn { op: "mul.lo.s32"@, args: seq!["%tmp"@, "%grow"@, "%N"@] };
    reveal_strlit("    add.u32 %tmp,%tmp,%gcol;\n");
    let l5 = "    add.u32 %tmp,%tmp,%gcol;\n"@;
    let i5 = Insn { op: "add.u32"@, args: seq!["%tmp"@, "%tmp"@, "%gcol"@] };
    reveal_strlit("    mul.wide.u32 %off,%tmp,4;\n");
    let l6 = "    mul.wide.u32 %off,%tmp,4;\n"@;
    let i6 = Insn { op: "mul.wide.u32"@, args: seq!["%off"@, "%tmp"@, "4"@] };
    reveal_strlit("    add.s64 %cptr,%C,%off;\n");
    let l7 = "    add.s64 %cptr,%C,%off;\n"@;
    let i7 = Insn { op: "add.s64"@, args: seq!["%cptr"@, "%C"@, "%off"@] };
    reveal_strlit("    st.global.f32 [%cptr],%dg#0_#1_0;\n");
    let l8 = "    st.global.f32 [%cptr],%dg#0_#1_0;\n"@;
    let i8 = Insn { op: "st.global.f32"@, args: seq!["[%cptr]"@, "%dg"@ + args[0] + "_"@ + args[1] + "_0"@] };
    reveal_strlit("    st.global.f32 [%cptr+4],%dg#0_#1_1;\n");
    let l9 = "    st.global.f32 [%cptr+4],%dg#0_#1_1;\n"@;
    let i9 = Insn { op: "st.global.f32"@, args: seq!["[%cptr+4]"@, "%dg"@ + args[0] + "_"@ + args[1] + "_1"@] };
    reveal_strlit("    add.u32 %tmp,%grow,8;\n");
    let l10 = "    add.u32 %tmp,%grow,8;\n"@;
    let i10 = Insn { op: "add.u32"@, args: seq!["%tmp"@, "%grow"@, "8"@] };
    reveal_strlit("    mul.lo.s32 %tmp,%tmp,%N;\n");
    let l11 = "    mul.lo.s32 %tmp,%tmp,%N;\n"@;
    let i11 = Insn { op: "mul.lo.s32"@, args: seq!["%tmp"@, "%tmp"@, "%N"@] };
    let l12 = "    add.u32 %tmp,%tmp,%gcol;\n"@;
    let i12 = Insn { op: "add.u32"@, args: seq!["%tmp"@, "%tmp"@, "%gcol"@] };
    let l13 = "    mul.wide.u32 %off,%tmp,4;\n"@;
    let i13 = Insn { op: "mul.wide.u32"@, args: seq!["%off"@, "%tmp"@, "4"@] };
    reveal_strlit("    add.s64 %cptr2,%C,%off;\n");
    let l14 = "    add.s64 %cptr2,%C,%off;\n"@;
    let i14 = Insn { op: "add.s64"@, args: seq!["%cptr2"@, "%C"@, "%off"@] };
    reveal_strlit("    st.global.f32 [%cptr2],%dg#0_#1_2;\n");
    let l15 = "    st.global.f32 [%cptr2],%dg#0_#1_2;\n"@;
    let i15 = Insn { op: "st.global.f32"@, args: seq!["[%cptr2]"@, "%dg"@ + args[0] + "_"@ + args[1] + "_2"@] };
    reveal_strlit("    st.global.f32 [%cptr2+4],%dg#0_#1_3;\n");
    let l16 = "    st.global.f32 [%cptr2+4],%dg#0_#1_3;\n"@;
    let i16 = Insn { op: "st.global.f32"@, args: seq!["[%cptr2+4]"@, "%dg"@ + args[0] + "_"@ + args[1] + "_3"@] };
    assert(t =~= l0 + l1 + l2 + l3 + l4 + l5 + l6 + l7 + l8 + l9 + l10 + l11 + l12 + l13 + l14 + l15 + l16);
    mma_gate_gated_store_0(args);
    let q0 = seq![i0];
    mma_gate_gated_store_1(args);
    frames::lemma_fill_add(l0, l1, args);
    machine::lemma_reads_add(text::fill(l0, args), q0, text::fill(l1, args), seq![i1]);
    let q1 = q0 + seq![i1];
    mma_gate_gated_store_2(args);
    frames::lemma_fill_add(l0 + l1, l2, args);
    machine::lemma_reads_add(text::fill(l0 + l1, args), q1, text::fill(l2, args), seq![i2]);
    let q2 = q1 + seq![i2];
    mma_gate_gated_store_3(args);
    frames::lemma_fill_add(l0 + l1 + l2, l3, args);
    machine::lemma_reads_add(text::fill(l0 + l1 + l2, args), q2, text::fill(l3, args), seq![i3]);
    let q3 = q2 + seq![i3];
    mma_gate_gated_store_4(args);
    frames::lemma_fill_add(l0 + l1 + l2 + l3, l4, args);
    machine::lemma_reads_add(text::fill(l0 + l1 + l2 + l3, args), q3, text::fill(l4, args), seq![i4]);
    let q4 = q3 + seq![i4];
    mma_gate_gated_store_5(args);
    frames::lemma_fill_add(l0 + l1 + l2 + l3 + l4, l5, args);
    machine::lemma_reads_add(text::fill(l0 + l1 + l2 + l3 + l4, args), q4, text::fill(l5, args), seq![i5]);
    let q5 = q4 + seq![i5];
    mma_gate_gated_store_6(args);
    frames::lemma_fill_add(l0 + l1 + l2 + l3 + l4 + l5, l6, args);
    machine::lemma_reads_add(text::fill(l0 + l1 + l2 + l3 + l4 + l5, args), q5, text::fill(l6, args), seq![i6]);
    let q6 = q5 + seq![i6];
    mma_gate_gated_store_7(args);
    frames::lemma_fill_add(l0 + l1 + l2 + l3 + l4 + l5 + l6, l7, args);
    machine::lemma_reads_add(text::fill(l0 + l1 + l2 + l3 + l4 + l5 + l6, args), q6, text::fill(l7, args), seq![i7]);
    let q7 = q6 + seq![i7];
    mma_gate_gated_store_8(args);
    frames::lemma_fill_add(l0 + l1 + l2 + l3 + l4 + l5 + l6 + l7, l8, args);
    machine::lemma_reads_add(text::fill(l0 + l1 + l2 + l3 + l4 + l5 + l6 + l7, args), q7, text::fill(l8, args), seq![i8]);
    let q8 = q7 + seq![i8];
    mma_gate_gated_store_9(args);
    frames::lemma_fill_add(l0 + l1 + l2 + l3 + l4 + l5 + l6 + l7 + l8, l9, args);
    machine::lemma_reads_add(text::fill(l0 + l1 + l2 + l3 + l4 + l5 + l6 + l7 + l8, args), q8, text::fill(l9, args), seq![i9]);
    let q9 = q8 + seq![i9];
    mma_gate_gated_store_10(args);
    frames::lemma_fill_add(l0 + l1 + l2 + l3 + l4 + l5 + l6 + l7 + l8 + l9, l10, args);
    machine::lemma_reads_add(text::fill(l0 + l1 + l2 + l3 + l4 + l5 + l6 + l7 + l8 + l9, args), q9, text::fill(l10, args), seq![i10]);
    let q10 = q9 + seq![i10];
    mma_gate_gated_store_11(args);
    frames::lemma_fill_add(l0 + l1 + l2 + l3 + l4 + l5 + l6 + l7 + l8 + l9 + l10, l11, args);
    machine::lemma_reads_add(text::fill(l0 + l1 + l2 + l3 + l4 + l5 + l6 + l7 + l8 + l9 + l10, args), q10, text::fill(l11, args), seq![i11]);
    let q11 = q10 + seq![i11];
    mma_gate_gated_store_5(args);
    frames::lemma_fill_add(l0 + l1 + l2 + l3 + l4 + l5 + l6 + l7 + l8 + l9 + l10 + l11, l12, args);
    machine::lemma_reads_add(text::fill(l0 + l1 + l2 + l3 + l4 + l5 + l6 + l7 + l8 + l9 + l10 + l11, args), q11, text::fill(l12, args), seq![i12]);
    let q12 = q11 + seq![i12];
    mma_gate_gated_store_6(args);
    frames::lemma_fill_add(l0 + l1 + l2 + l3 + l4 + l5 + l6 + l7 + l8 + l9 + l10 + l11 + l12, l13, args);
    machine::lemma_reads_add(text::fill(l0 + l1 + l2 + l3 + l4 + l5 + l6 + l7 + l8 + l9 + l10 + l11 + l12, args), q12, text::fill(l13, args), seq![i13]);
    let q13 = q12 + seq![i13];
    mma_gate_gated_store_14(args);
    frames::lemma_fill_add(l0 + l1 + l2 + l3 + l4 + l5 + l6 + l7 + l8 + l9 + l10 + l11 + l12 + l13, l14, args);
    machine::lemma_reads_add(text::fill(l0 + l1 + l2 + l3 + l4 + l5 + l6 + l7 + l8 + l9 + l10 + l11 + l12 + l13, args), q13, text::fill(l14, args), seq![i14]);
    let q14 = q13 + seq![i14];
    mma_gate_gated_store_15(args);
    frames::lemma_fill_add(l0 + l1 + l2 + l3 + l4 + l5 + l6 + l7 + l8 + l9 + l10 + l11 + l12 + l13 + l14, l15, args);
    machine::lemma_reads_add(text::fill(l0 + l1 + l2 + l3 + l4 + l5 + l6 + l7 + l8 + l9 + l10 + l11 + l12 + l13 + l14, args), q14, text::fill(l15, args), seq![i15]);
    let q15 = q14 + seq![i15];
    mma_gate_gated_store_16(args);
    frames::lemma_fill_add(l0 + l1 + l2 + l3 + l4 + l5 + l6 + l7 + l8 + l9 + l10 + l11 + l12 + l13 + l14 + l15, l16, args);
    machine::lemma_reads_add(text::fill(l0 + l1 + l2 + l3 + l4 + l5 + l6 + l7 + l8 + l9 + l10 + l11 + l12 + l13 + l14 + l15, args), q15, text::fill(l16, args), seq![i16]);
    let q16 = q15 + seq![i16];
    assert(q16 =~= seq![Insn { op: "mul.f32"@, args: seq!["%dg"@ + args[0] + "_"@ + args[1] + "_0"@, "%dg"@ + args[0] + "_"@ + args[1] + "_0"@, "%du"@ + args[0] + "_"@ + args[1] + "_0"@] }, Insn { op: "mul.f32"@, args: seq!["%dg"@ + args[0] + "_"@ + args[1] + "_1"@, "%dg"@ + args[0] + "_"@ + args[1] + "_1"@, "%du"@ + args[0] + "_"@ + args[1] + "_1"@] }, Insn { op: "mul.f32"@, args: seq!["%dg"@ + args[0] + "_"@ + args[1] + "_2"@, "%dg"@ + args[0] + "_"@ + args[1] + "_2"@, "%du"@ + args[0] + "_"@ + args[1] + "_2"@] }, Insn { op: "mul.f32"@, args: seq!["%dg"@ + args[0] + "_"@ + args[1] + "_3"@, "%dg"@ + args[0] + "_"@ + args[1] + "_3"@, "%du"@ + args[0] + "_"@ + args[1] + "_3"@] }, Insn { op: "mul.lo.s32"@, args: seq!["%tmp"@, "%grow"@, "%N"@] }, Insn { op: "add.u32"@, args: seq!["%tmp"@, "%tmp"@, "%gcol"@] }, Insn { op: "mul.wide.u32"@, args: seq!["%off"@, "%tmp"@, "4"@] }, Insn { op: "add.s64"@, args: seq!["%cptr"@, "%C"@, "%off"@] }, Insn { op: "st.global.f32"@, args: seq!["[%cptr]"@, "%dg"@ + args[0] + "_"@ + args[1] + "_0"@] }, Insn { op: "st.global.f32"@, args: seq!["[%cptr+4]"@, "%dg"@ + args[0] + "_"@ + args[1] + "_1"@] }, Insn { op: "add.u32"@, args: seq!["%tmp"@, "%grow"@, "8"@] }, Insn { op: "mul.lo.s32"@, args: seq!["%tmp"@, "%tmp"@, "%N"@] }, Insn { op: "add.u32"@, args: seq!["%tmp"@, "%tmp"@, "%gcol"@] }, Insn { op: "mul.wide.u32"@, args: seq!["%off"@, "%tmp"@, "4"@] }, Insn { op: "add.s64"@, args: seq!["%cptr2"@, "%C"@, "%off"@] }, Insn { op: "st.global.f32"@, args: seq!["[%cptr2]"@, "%dg"@ + args[0] + "_"@ + args[1] + "_2"@] }, Insn { op: "st.global.f32"@, args: seq!["[%cptr2+4]"@, "%dg"@ + args[0] + "_"@ + args[1] + "_3"@] }]);
}

} // verus!
