//! What the templates of the kernels spell: see [`machine`].
use vstd::prelude::*;

use crate::ptx_wmma::act;
use crate::ptx_wmma::frames;
use crate::ptx_wmma::machine;
use crate::ptx_wmma::mma_pipe;
use crate::ptx_wmma::machine::{lacks, operand, reads, Insn};
use crate::text;

verus! {

/// A hole is filled by its argument.
pub proof fn lemma_hole(c: char, args: Seq<Seq<char>>)
    requires
        '0' <= c,
        (c as int - '0' as int) < args.len(),
    ensures
        text::fill(seq!['#', c], args) == args[c as int - '0' as int],
{
    reveal_with_fuel(text::fill, 3);
    let t = seq!['#', c];
    assert(t.drop_last() =~= seq!['#']);
    assert(seq!['#'].drop_last() =~= Seq::<char>::empty());
    assert(text::fill(t, args) =~= args[c as int - '0' as int]);
}

/// `add.u32 %grow,%baseRow,%warpMrow;`
proof fn mma_pipe_place_0(args: Seq<Seq<char>>)
    ensures
        reads(
            text::fill("    add.u32 %grow,%baseRow,%warpMrow;\n"@, args),
            seq![Insn { op: "add.u32"@, args: seq!["%grow"@, "%baseRow"@, "%warpMrow"@] }],
        ),
{
    reveal_strlit("    add.u32 %grow,%baseRow,%warpMrow;\n");
    reveal_strlit("%baseRow");
    reveal_strlit("%grow");
    reveal_strlit("%warpMrow");
    reveal_strlit("add.u32");
    frames::lemma_fill_plain("    add.u32 %grow,%baseRow,%warpMrow;\n"@, args);
    let op = "add.u32"@;
    let given = seq!["%grow"@, "%baseRow"@, "%warpMrow"@];
    machine::lemma_listed3("%grow"@, "%baseRow"@, "%warpMrow"@);
    assert(text::fill("    add.u32 %grow,%baseRow,%warpMrow;\n"@, args) =~= machine::line(op, given));
    machine::lemma_reads_line(op, given);
}

/// `add.u32 %grow,%grow,#0;`
proof fn mma_pipe_place_1(args: Seq<Seq<char>>)
    requires
        args.len() > 0,
        operand(args[0]),
    ensures
        reads(
            text::fill("    add.u32 %grow,%grow,#0;\n"@, args),
            seq![Insn { op: "add.u32"@, args: seq!["%grow"@, "%grow"@, args[0]] }],
        ),
{
    reveal_strlit("    add.u32 %grow,%grow,");
    reveal_strlit("    add.u32 %grow,%grow,#0;\n");
    reveal_strlit("%grow");
    reveal_strlit(";\n");
    reveal_strlit("add.u32");
    let whole = "    add.u32 %grow,%grow,#0;\n"@;
    let x0 = "    add.u32 %grow,%grow,"@;
    frames::lemma_fill_plain(x0, args);
    let x1 = seq!['#', '0'];
    lemma_hole('0', args);
    let x2 = ";\n"@;
    frames::lemma_fill_plain(x2, args);
    assert(whole =~= x0 + x1 + x2);
    frames::lemma_fill_add(x0, x1, args);
    frames::lemma_fill_add(x0 + x1, x2, args);
    let op = "add.u32"@;
    let given = seq!["%grow"@, "%grow"@, args[0]];
    machine::lemma_listed3("%grow"@, "%grow"@, args[0]);
    assert(text::fill(whole, args) =~= machine::line(op, given));
    machine::lemma_reads_line(op, given);
}

/// `add.u32 %grow,%grow,%grp;`
proof fn mma_pipe_place_2(args: Seq<Seq<char>>)
    ensures
        reads(
            text::fill("    add.u32 %grow,%grow,%grp;\n"@, args),
            seq![Insn { op: "add.u32"@, args: seq!["%grow"@, "%grow"@, "%grp"@] }],
        ),
{
    reveal_strlit("    add.u32 %grow,%grow,%grp;\n");
    reveal_strlit("%grow");
    reveal_strlit("%grp");
    reveal_strlit("add.u32");
    frames::lemma_fill_plain("    add.u32 %grow,%grow,%grp;\n"@, args);
    let op = "add.u32"@;
    let given = seq!["%grow"@, "%grow"@, "%grp"@];
    machine::lemma_listed3("%grow"@, "%grow"@, "%grp"@);
    assert(text::fill("    add.u32 %grow,%grow,%grp;\n"@, args) =~= machine::line(op, given));
    machine::lemma_reads_line(op, given);
}

/// `add.u32 %gcol,%baseCol,%warpNcol;`
proof fn mma_pipe_place_3(args: Seq<Seq<char>>)
    ensures
        reads(
            text::fill("    add.u32 %gcol,%baseCol,%warpNcol;\n"@, args),
            seq![Insn { op: "add.u32"@, args: seq!["%gcol"@, "%baseCol"@, "%warpNcol"@] }],
        ),
{
    reveal_strlit("    add.u32 %gcol,%baseCol,%warpNcol;\n");
    reveal_strlit("%baseCol");
    reveal_strlit("%gcol");
    reveal_strlit("%warpNcol");
    reveal_strlit("add.u32");
    frames::lemma_fill_plain("    add.u32 %gcol,%baseCol,%warpNcol;\n"@, args);
    let op = "add.u32"@;
    let given = seq!["%gcol"@, "%baseCol"@, "%warpNcol"@];
    machine::lemma_listed3("%gcol"@, "%baseCol"@, "%warpNcol"@);
    assert(text::fill("    add.u32 %gcol,%baseCol,%warpNcol;\n"@, args) =~= machine::line(op, given));
    machine::lemma_reads_line(op, given);
}

/// `add.u32 %gcol,%gcol,#1;`
proof fn mma_pipe_place_4(args: Seq<Seq<char>>)
    requires
        args.len() > 1,
        operand(args[1]),
    ensures
        reads(
            text::fill("    add.u32 %gcol,%gcol,#1;\n"@, args),
            seq![Insn { op: "add.u32"@, args: seq!["%gcol"@, "%gcol"@, args[1]] }],
        ),
{
    reveal_strlit("    add.u32 %gcol,%gcol,");
    reveal_strlit("    add.u32 %gcol,%gcol,#1;\n");
    reveal_strlit("%gcol");
    reveal_strlit(";\n");
    reveal_strlit("add.u32");
    let whole = "    add.u32 %gcol,%gcol,#1;\n"@;
    let x0 = "    add.u32 %gcol,%gcol,"@;
    frames::lemma_fill_plain(x0, args);
    let x1 = seq!['#', '1'];
    lemma_hole('1', args);
    let x2 = ";\n"@;
    frames::lemma_fill_plain(x2, args);
    assert(whole =~= x0 + x1 + x2);
    frames::lemma_fill_add(x0, x1, args);
    frames::lemma_fill_add(x0 + x1, x2, args);
    let op = "add.u32"@;
    let given = seq!["%gcol"@, "%gcol"@, args[1]];
    machine::lemma_listed3("%gcol"@, "%gcol"@, args[1]);
    assert(text::fill(whole, args) =~= machine::line(op, given));
    machine::lemma_reads_line(op, given);
}

/// `add.u32 %gcol,%gcol,%tg2;`
proof fn mma_pipe_place_5(args: Seq<Seq<char>>)
    ensures
        reads(
            text::fill("    add.u32 %gcol,%gcol,%tg2;\n"@, args),
            seq![Insn { op: "add.u32"@, args: seq!["%gcol"@, "%gcol"@, "%tg2"@] }],
        ),
{
    reveal_strlit("    add.u32 %gcol,%gcol,%tg2;\n");
    reveal_strlit("%gcol");
    reveal_strlit("%tg2");
    reveal_strlit("add.u32");
    frames::lemma_fill_plain("    add.u32 %gcol,%gcol,%tg2;\n"@, args);
    let op = "add.u32"@;
    let given = seq!["%gcol"@, "%gcol"@, "%tg2"@];
    machine::lemma_listed3("%gcol"@, "%gcol"@, "%tg2"@);
    assert(text::fill("    add.u32 %gcol,%gcol,%tg2;\n"@, args) =~= machine::line(op, given));
    machine::lemma_reads_line(op, given);
}

/// What [`mma_pipe::PLACE`] spells.
pub proof fn lemma_mma_pipe_place(args: Seq<Seq<char>>)
    requires
        args.len() > 1,
        operand(args[0]),
        operand(args[1]),
    ensures
        reads(
            text::fill(mma_pipe::PLACE@, args),
            seq![Insn { op: "add.u32"@, args: seq!["%grow"@, "%baseRow"@, "%warpMrow"@] }, Insn { op: "add.u32"@, args: seq!["%grow"@, "%grow"@, args[0]] }, Insn { op: "add.u32"@, args: seq!["%grow"@, "%grow"@, "%grp"@] }, Insn { op: "add.u32"@, args: seq!["%gcol"@, "%baseCol"@, "%warpNcol"@] }, Insn { op: "add.u32"@, args: seq!["%gcol"@, "%gcol"@, args[1]] }, Insn { op: "add.u32"@, args: seq!["%gcol"@, "%gcol"@, "%tg2"@] }],
        ),
{
    let t = mma_pipe::PLACE@;
    reveal_strlit("    add.u32 %grow,%baseRow,%warpMrow;\n    add.u32 %grow,%grow,#0;\n    add.u32 %grow,%grow,%grp;\n    add.u32 %gcol,%baseCol,%warpNcol;\n    add.u32 %gcol,%gcol,#1;\n    add.u32 %gcol,%gcol,%tg2;\n");
    reveal_strlit("    add.u32 %grow,%baseRow,%warpMrow;\n");
    let l0 = "    add.u32 %grow,%baseRow,%warpMrow;\n"@;
    let i0 = Insn { op: "add.u32"@, args: seq!["%grow"@, "%baseRow"@, "%warpMrow"@] };
    reveal_strlit("    add.u32 %grow,%grow,#0;\n");
    let l1 = "    add.u32 %grow,%grow,#0;\n"@;
    let i1 = Insn { op: "add.u32"@, args: seq!["%grow"@, "%grow"@, args[0]] };
    reveal_strlit("    add.u32 %grow,%grow,%grp;\n");
    let l2 = "    add.u32 %grow,%grow,%grp;\n"@;
    let i2 = Insn { op: "add.u32"@, args: seq!["%grow"@, "%grow"@, "%grp"@] };
    reveal_strlit("    add.u32 %gcol,%baseCol,%warpNcol;\n");
    let l3 = "    add.u32 %gcol,%baseCol,%warpNcol;\n"@;
    let i3 = Insn { op: "add.u32"@, args: seq!["%gcol"@, "%baseCol"@, "%warpNcol"@] };
    reveal_strlit("    add.u32 %gcol,%gcol,#1;\n");
    let l4 = "    add.u32 %gcol,%gcol,#1;\n"@;
    let i4 = Insn { op: "add.u32"@, args: seq!["%gcol"@, "%gcol"@, args[1]] };
    reveal_strlit("    add.u32 %gcol,%gcol,%tg2;\n");
    let l5 = "    add.u32 %gcol,%gcol,%tg2;\n"@;
    let i5 = Insn { op: "add.u32"@, args: seq!["%gcol"@, "%gcol"@, "%tg2"@] };
    assert(t =~= l0 + l1 + l2 + l3 + l4 + l5);
    mma_pipe_place_0(args);
    let q0 = seq![i0];
    mma_pipe_place_1(args);
    frames::lemma_fill_add(l0, l1, args);
    machine::lemma_reads_add(text::fill(l0, args), q0, text::fill(l1, args), seq![i1]);
    let q1 = q0 + seq![i1];
    mma_pipe_place_2(args);
    frames::lemma_fill_add(l0 + l1, l2, args);
    machine::lemma_reads_add(text::fill(l0 + l1, args), q1, text::fill(l2, args), seq![i2]);
    let q2 = q1 + seq![i2];
    mma_pipe_place_3(args);
    frames::lemma_fill_add(l0 + l1 + l2, l3, args);
    machine::lemma_reads_add(text::fill(l0 + l1 + l2, args), q2, text::fill(l3, args), seq![i3]);
    let q3 = q2 + seq![i3];
    mma_pipe_place_4(args);
    frames::lemma_fill_add(l0 + l1 + l2 + l3, l4, args);
    machine::lemma_reads_add(text::fill(l0 + l1 + l2 + l3, args), q3, text::fill(l4, args), seq![i4]);
    let q4 = q3 + seq![i4];
    mma_pipe_place_5(args);
    frames::lemma_fill_add(l0 + l1 + l2 + l3 + l4, l5, args);
    machine::lemma_reads_add(text::fill(l0 + l1 + l2 + l3 + l4, args), q4, text::fill(l5, args), seq![i5]);
    let q5 = q4 + seq![i5];
    assert(q5 =~= seq![Insn { op: "add.u32"@, args: seq!["%grow"@, "%baseRow"@, "%warpMrow"@] }, Insn { op: "add.u32"@, args: seq!["%grow"@, "%grow"@, args[0]] }, Insn { op: "add.u32"@, args: seq!["%grow"@, "%grow"@, "%grp"@] }, Insn { op: "add.u32"@, args: seq!["%gcol"@, "%baseCol"@, "%warpNcol"@] }, Insn { op: "add.u32"@, args: seq!["%gcol"@, "%gcol"@, args[1]] }, Insn { op: "add.u32"@, args: seq!["%gcol"@, "%gcol"@, "%tg2"@] }]);
}

/// `mul.lo.s32 %tmp,%grow,%N;`
proof fn mma_pipe_upper_0(args: Seq<Seq<char>>)
    ensures
        reads(
            text::fill("    mul.lo.s32 %tmp,%grow,%N;\n"@, args),
            seq![Insn { op: "mul.lo.s32"@, args: seq!["%tmp"@, "%grow"@, "%N"@] }],
        ),
{
    reveal_strlit("    mul.lo.s32 %tmp,%grow,%N;\n");
    reveal_strlit("%N");
    reveal_strlit("%grow");
    reveal_strlit("%tmp");
    reveal_strlit("mul.lo.s32");
    frames::lemma_fill_plain("    mul.lo.s32 %tmp,%grow,%N;\n"@, args);
    let op = "mul.lo.s32"@;
    let given = seq!["%tmp"@, "%grow"@, "%N"@];
    machine::lemma_listed3("%tmp"@, "%grow"@, "%N"@);
    assert(text::fill("    mul.lo.s32 %tmp,%grow,%N;\n"@, args) =~= machine::line(op, given));
    machine::lemma_reads_line(op, given);
}

/// `add.u32 %tmp,%tmp,%gcol;`
proof fn mma_pipe_upper_1(args: Seq<Seq<char>>)
    ensures
        reads(
            text::fill("    add.u32 %tmp,%tmp,%gcol;\n"@, args),
            seq![Insn { op: "add.u32"@, args: seq!["%tmp"@, "%tmp"@, "%gcol"@] }],
        ),
{
    reveal_strlit("    add.u32 %tmp,%tmp,%gcol;\n");
    reveal_strlit("%gcol");
    reveal_strlit("%tmp");
    reveal_strlit("add.u32");
    frames::lemma_fill_plain("    add.u32 %tmp,%tmp,%gcol;\n"@, args);
    let op = "add.u32"@;
    let given = seq!["%tmp"@, "%tmp"@, "%gcol"@];
    machine::lemma_listed3("%tmp"@, "%tmp"@, "%gcol"@);
    assert(text::fill("    add.u32 %tmp,%tmp,%gcol;\n"@, args) =~= machine::line(op, given));
    machine::lemma_reads_line(op, given);
}

/// `mul.wide.u32 %off,%tmp,4;`
proof fn mma_pipe_upper_2(args: Seq<Seq<char>>)
    ensures
        reads(
            text::fill("    mul.wide.u32 %off,%tmp,4;\n"@, args),
            seq![Insn { op: "mul.wide.u32"@, args: seq!["%off"@, "%tmp"@, "4"@] }],
        ),
{
    reveal_strlit("    mul.wide.u32 %off,%tmp,4;\n");
    reveal_strlit("%off");
    reveal_strlit("%tmp");
    reveal_strlit("4");
    reveal_strlit("mul.wide.u32");
    frames::lemma_fill_plain("    mul.wide.u32 %off,%tmp,4;\n"@, args);
    let op = "mul.wide.u32"@;
    let given = seq!["%off"@, "%tmp"@, "4"@];
    machine::lemma_listed3("%off"@, "%tmp"@, "4"@);
    assert(text::fill("    mul.wide.u32 %off,%tmp,4;\n"@, args) =~= machine::line(op, given));
    machine::lemma_reads_line(op, given);
}

/// `add.s64 %cptr,%C,%off;`
proof fn mma_pipe_upper_3(args: Seq<Seq<char>>)
    ensures
        reads(
            text::fill("    add.s64 %cptr,%C,%off;\n"@, args),
            seq![Insn { op: "add.s64"@, args: seq!["%cptr"@, "%C"@, "%off"@] }],
        ),
{
    reveal_strlit("    add.s64 %cptr,%C,%off;\n");
    reveal_strlit("%C");
    reveal_strlit("%cptr");
    reveal_strlit("%off");
    reveal_strlit("add.s64");
    frames::lemma_fill_plain("    add.s64 %cptr,%C,%off;\n"@, args);
    let op = "add.s64"@;
    let given = seq!["%cptr"@, "%C"@, "%off"@];
    machine::lemma_listed3("%cptr"@, "%C"@, "%off"@);
    assert(text::fill("    add.s64 %cptr,%C,%off;\n"@, args) =~= machine::line(op, given));
    machine::lemma_reads_line(op, given);
}

/// What [`mma_pipe::UPPER`] spells.
pub proof fn lemma_mma_pipe_upper(args: Seq<Seq<char>>)
    ensures
        reads(
            text::fill(mma_pipe::UPPER@, args),
            seq![Insn { op: "mul.lo.s32"@, args: seq!["%tmp"@, "%grow"@, "%N"@] }, Insn { op: "add.u32"@, args: seq!["%tmp"@, "%tmp"@, "%gcol"@] }, Insn { op: "mul.wide.u32"@, args: seq!["%off"@, "%tmp"@, "4"@] }, Insn { op: "add.s64"@, args: seq!["%cptr"@, "%C"@, "%off"@] }],
        ),
{
    let t = mma_pipe::UPPER@;
    reveal_strlit("    mul.lo.s32 %tmp,%grow,%N;\n    add.u32 %tmp,%tmp,%gcol;\n    mul.wide.u32 %off,%tmp,4;\n    add.s64 %cptr,%C,%off;\n");
    reveal_strlit("    mul.lo.s32 %tmp,%grow,%N;\n");
    let l0 = "    mul.lo.s32 %tmp,%grow,%N;\n"@;
    let i0 = Insn { op: "mul.lo.s32"@, args: seq!["%tmp"@, "%grow"@, "%N"@] };
    reveal_strlit("    add.u32 %tmp,%tmp,%gcol;\n");
    let l1 = "    add.u32 %tmp,%tmp,%gcol;\n"@;
    let i1 = Insn { op: "add.u32"@, args: seq!["%tmp"@, "%tmp"@, "%gcol"@] };
    reveal_strlit("    mul.wide.u32 %off,%tmp,4;\n");
    let l2 = "    mul.wide.u32 %off,%tmp,4;\n"@;
    let i2 = Insn { op: "mul.wide.u32"@, args: seq!["%off"@, "%tmp"@, "4"@] };
    reveal_strlit("    add.s64 %cptr,%C,%off;\n");
    let l3 = "    add.s64 %cptr,%C,%off;\n"@;
    let i3 = Insn { op: "add.s64"@, args: seq!["%cptr"@, "%C"@, "%off"@] };
    assert(t =~= l0 + l1 + l2 + l3);
    mma_pipe_upper_0(args);
    let q0 = seq![i0];
    mma_pipe_upper_1(args);
    frames::lemma_fill_add(l0, l1, args);
    machine::lemma_reads_add(text::fill(l0, args), q0, text::fill(l1, args), seq![i1]);
    let q1 = q0 + seq![i1];
    mma_pipe_upper_2(args);
    frames::lemma_fill_add(l0 + l1, l2, args);
    machine::lemma_reads_add(text::fill(l0 + l1, args), q1, text::fill(l2, args), seq![i2]);
    let q2 = q1 + seq![i2];
    mma_pipe_upper_3(args);
    frames::lemma_fill_add(l0 + l1 + l2, l3, args);
    machine::lemma_reads_add(text::fill(l0 + l1 + l2, args), q2, text::fill(l3, args), seq![i3]);
    let q3 = q2 + seq![i3];
    assert(q3 =~= seq![Insn { op: "mul.lo.s32"@, args: seq!["%tmp"@, "%grow"@, "%N"@] }, Insn { op: "add.u32"@, args: seq!["%tmp"@, "%tmp"@, "%gcol"@] }, Insn { op: "mul.wide.u32"@, args: seq!["%off"@, "%tmp"@, "4"@] }, Insn { op: "add.s64"@, args: seq!["%cptr"@, "%C"@, "%off"@] }]);
}

/// `add.u32 %tmp,%grow,8;`
proof fn mma_pipe_lower_0(args: Seq<Seq<char>>)
    ensures
        reads(
            text::fill("    add.u32 %tmp,%grow,8;\n"@, args),
            seq![Insn { op: "add.u32"@, args: seq!["%tmp"@, "%grow"@, "8"@] }],
        ),
{
    reveal_strlit("    add.u32 %tmp,%grow,8;\n");
    reveal_strlit("%grow");
    reveal_strlit("%tmp");
    reveal_strlit("8");
    reveal_strlit("add.u32");
    frames::lemma_fill_plain("    add.u32 %tmp,%grow,8;\n"@, args);
    let op = "add.u32"@;
    let given = seq!["%tmp"@, "%grow"@, "8"@];
    machine::lemma_listed3("%tmp"@, "%grow"@, "8"@);
    assert(text::fill("    add.u32 %tmp,%grow,8;\n"@, args) =~= machine::line(op, given));
    machine::lemma_reads_line(op, given);
}

/// `mul.lo.s32 %tmp,%tmp,%N;`
proof fn mma_pipe_lower_1(args: Seq<Seq<char>>)
    ensures
        reads(
            text::fill("    mul.lo.s32 %tmp,%tmp,%N;\n"@, args),
            seq![Insn { op: "mul.lo.s32"@, args: seq!["%tmp"@, "%tmp"@, "%N"@] }],
        ),
{
    reveal_strlit("    mul.lo.s32 %tmp,%tmp,%N;\n");
    reveal_strlit("%N");
    reveal_strlit("%tmp");
    reveal_strlit("mul.lo.s32");
    frames::lemma_fill_plain("    mul.lo.s32 %tmp,%tmp,%N;\n"@, args);
    let op = "mul.lo.s32"@;
    let given = seq!["%tmp"@, "%tmp"@, "%N"@];
    machine::lemma_listed3("%tmp"@, "%tmp"@, "%N"@);
    assert(text::fill("    mul.lo.s32 %tmp,%tmp,%N;\n"@, args) =~= machine::line(op, given));
    machine::lemma_reads_line(op, given);
}

/// `add.s64 %cptr2,%C,%off;`
proof fn mma_pipe_lower_4(args: Seq<Seq<char>>)
    ensures
        reads(
            text::fill("    add.s64 %cptr2,%C,%off;\n"@, args),
            seq![Insn { op: "add.s64"@, args: seq!["%cptr2"@, "%C"@, "%off"@] }],
        ),
{
    reveal_strlit("    add.s64 %cptr2,%C,%off;\n");
    reveal_strlit("%C");
    reveal_strlit("%cptr2");
    reveal_strlit("%off");
    reveal_strlit("add.s64");
    frames::lemma_fill_plain("    add.s64 %cptr2,%C,%off;\n"@, args);
    let op = "add.s64"@;
    let given = seq!["%cptr2"@, "%C"@, "%off"@];
    machine::lemma_listed3("%cptr2"@, "%C"@, "%off"@);
    assert(text::fill("    add.s64 %cptr2,%C,%off;\n"@, args) =~= machine::line(op, given));
    machine::lemma_reads_line(op, given);
}

/// What [`mma_pipe::LOWER`] spells.
pub proof fn lemma_mma_pipe_lower(args: Seq<Seq<char>>)
    ensures
        reads(
            text::fill(mma_pipe::LOWER@, args),
            seq![Insn { op: "add.u32"@, args: seq!["%tmp"@, "%grow"@, "8"@] }, Insn { op: "mul.lo.s32"@, args: seq!["%tmp"@, "%tmp"@, "%N"@] }, Insn { op: "add.u32"@, args: seq!["%tmp"@, "%tmp"@, "%gcol"@] }, Insn { op: "mul.wide.u32"@, args: seq!["%off"@, "%tmp"@, "4"@] }, Insn { op: "add.s64"@, args: seq!["%cptr2"@, "%C"@, "%off"@] }],
        ),
{
    let t = mma_pipe::LOWER@;
    reveal_strlit("    add.u32 %tmp,%grow,8;\n    mul.lo.s32 %tmp,%tmp,%N;\n    add.u32 %tmp,%tmp,%gcol;\n    mul.wide.u32 %off,%tmp,4;\n    add.s64 %cptr2,%C,%off;\n");
    reveal_strlit("    add.u32 %tmp,%grow,8;\n");
    let l0 = "    add.u32 %tmp,%grow,8;\n"@;
    let i0 = Insn { op: "add.u32"@, args: seq!["%tmp"@, "%grow"@, "8"@] };
    reveal_strlit("    mul.lo.s32 %tmp,%tmp,%N;\n");
    let l1 = "    mul.lo.s32 %tmp,%tmp,%N;\n"@;
    let i1 = Insn { op: "mul.lo.s32"@, args: seq!["%tmp"@, "%tmp"@, "%N"@] };
    reveal_strlit("    add.u32 %tmp,%tmp,%gcol;\n");
    let l2 = "    add.u32 %tmp,%tmp,%gcol;\n"@;
    let i2 = Insn { op: "add.u32"@, args: seq!["%tmp"@, "%tmp"@, "%gcol"@] };
    reveal_strlit("    mul.wide.u32 %off,%tmp,4;\n");
    let l3 = "    mul.wide.u32 %off,%tmp,4;\n"@;
    let i3 = Insn { op: "mul.wide.u32"@, args: seq!["%off"@, "%tmp"@, "4"@] };
    reveal_strlit("    add.s64 %cptr2,%C,%off;\n");
    let l4 = "    add.s64 %cptr2,%C,%off;\n"@;
    let i4 = Insn { op: "add.s64"@, args: seq!["%cptr2"@, "%C"@, "%off"@] };
    assert(t =~= l0 + l1 + l2 + l3 + l4);
    mma_pipe_lower_0(args);
    let q0 = seq![i0];
    mma_pipe_lower_1(args);
    frames::lemma_fill_add(l0, l1, args);
    machine::lemma_reads_add(text::fill(l0, args), q0, text::fill(l1, args), seq![i1]);
    let q1 = q0 + seq![i1];
    mma_pipe_upper_1(args);
    frames::lemma_fill_add(l0 + l1, l2, args);
    machine::lemma_reads_add(text::fill(l0 + l1, args), q1, text::fill(l2, args), seq![i2]);
    let q2 = q1 + seq![i2];
    mma_pipe_upper_2(args);
    frames::lemma_fill_add(l0 + l1 + l2, l3, args);
    machine::lemma_reads_add(text::fill(l0 + l1 + l2, args), q2, text::fill(l3, args), seq![i3]);
    let q3 = q2 + seq![i3];
    mma_pipe_lower_4(args);
    frames::lemma_fill_add(l0 + l1 + l2 + l3, l4, args);
    machine::lemma_reads_add(text::fill(l0 + l1 + l2 + l3, args), q3, text::fill(l4, args), seq![i4]);
    let q4 = q3 + seq![i4];
    assert(q4 =~= seq![Insn { op: "add.u32"@, args: seq!["%tmp"@, "%grow"@, "8"@] }, Insn { op: "mul.lo.s32"@, args: seq!["%tmp"@, "%tmp"@, "%N"@] }, Insn { op: "add.u32"@, args: seq!["%tmp"@, "%tmp"@, "%gcol"@] }, Insn { op: "mul.wide.u32"@, args: seq!["%off"@, "%tmp"@, "4"@] }, Insn { op: "add.s64"@, args: seq!["%cptr2"@, "%C"@, "%off"@] }]);
}

/// `mul.wide.u32 %off,%gcol,4;`
proof fn mma_pipe_add_bias_0(args: Seq<Seq<char>>)
    ensures
        reads(
            text::fill("    mul.wide.u32 %off,%gcol,4;\n"@, args),
            seq![Insn { op: "mul.wide.u32"@, args: seq!["%off"@, "%gcol"@, "4"@] }],
        ),
{
    reveal_strlit("    mul.wide.u32 %off,%gcol,4;\n");
    reveal_strlit("%gcol");
    reveal_strlit("%off");
    reveal_strlit("4");
    reveal_strlit("mul.wide.u32");
    frames::lemma_fill_plain("    mul.wide.u32 %off,%gcol,4;\n"@, args);
    let op = "mul.wide.u32"@;
    let given = seq!["%off"@, "%gcol"@, "4"@];
    machine::lemma_listed3("%off"@, "%gcol"@, "4"@);
    assert(text::fill("    mul.wide.u32 %off,%gcol,4;\n"@, args) =~= machine::line(op, given));
    machine::lemma_reads_line(op, given);
}

/// `add.s64 %cptr,%Bias,%off;`
proof fn mma_pipe_add_bias_1(args: Seq<Seq<char>>)
    ensures
        reads(
            text::fill("    add.s64 %cptr,%Bias,%off;\n"@, args),
            seq![Insn { op: "add.s64"@, args: seq!["%cptr"@, "%Bias"@, "%off"@] }],
        ),
{
    reveal_strlit("    add.s64 %cptr,%Bias,%off;\n");
    reveal_strlit("%Bias");
    reveal_strlit("%cptr");
    reveal_strlit("%off");
    reveal_strlit("add.s64");
    frames::lemma_fill_plain("    add.s64 %cptr,%Bias,%off;\n"@, args);
    let op = "add.s64"@;
    let given = seq!["%cptr"@, "%Bias"@, "%off"@];
    machine::lemma_listed3("%cptr"@, "%Bias"@, "%off"@);
    assert(text::fill("    add.s64 %cptr,%Bias,%off;\n"@, args) =~= machine::line(op, given));
    machine::lemma_reads_line(op, given);
}

/// `ld.global.f32 %biasv0,[%cptr];`
proof fn mma_pipe_add_bias_2(args: Seq<Seq<char>>)
    ensures
        reads(
            text::fill("    ld.global.f32 %biasv0,[%cptr];\n"@, args),
            seq![Insn { op: "ld.global.f32"@, args: seq!["%biasv0"@, "[%cptr]"@] }],
        ),
{
    reveal_strlit("    ld.global.f32 %biasv0,[%cptr];\n");
    reveal_strlit("%biasv0");
    reveal_strlit("[%cptr]");
    reveal_strlit("ld.global.f32");
    frames::lemma_fill_plain("    ld.global.f32 %biasv0,[%cptr];\n"@, args);
    let op = "ld.global.f32"@;
    let given = seq!["%biasv0"@, "[%cptr]"@];
    machine::lemma_listed2("%biasv0"@, "[%cptr]"@);
    assert(text::fill("    ld.global.f32 %biasv0,[%cptr];\n"@, args) =~= machine::line(op, given));
    machine::lemma_reads_line(op, given);
}

/// `ld.global.f32 %biasv1,[%cptr+4];`
proof fn mma_pipe_add_bias_3(args: Seq<Seq<char>>)
    ensures
        reads(
            text::fill("    ld.global.f32 %biasv1,[%cptr+4];\n"@, args),
            seq![Insn { op: "ld.global.f32"@, args: seq!["%biasv1"@, "[%cptr+4]"@] }],
        ),
{
    reveal_strlit("    ld.global.f32 %biasv1,[%cptr+4];\n");
    reveal_strlit("%biasv1");
    reveal_strlit("[%cptr+4]");
    reveal_strlit("ld.global.f32");
    frames::lemma_fill_plain("    ld.global.f32 %biasv1,[%cptr+4];\n"@, args);
    let op = "ld.global.f32"@;
    let given = seq!["%biasv1"@, "[%cptr+4]"@];
    machine::lemma_listed2("%biasv1"@, "[%cptr+4]"@);
    assert(text::fill("    ld.global.f32 %biasv1,[%cptr+4];\n"@, args) =~= machine::line(op, given));
    machine::lemma_reads_line(op, given);
}

/// `add.f32 #00,#00,%biasv0;`
proof fn mma_pipe_add_bias_4(args: Seq<Seq<char>>)
    requires
        args.len() > 0,
        operand(args[0]),
    ensures
        reads(
            text::fill("    add.f32 #00,#00,%biasv0;\n"@, args),
            seq![Insn { op: "add.f32"@, args: seq![args[0] + "0"@, args[0] + "0"@, "%biasv0"@] }],
        ),
{
    reveal_strlit("    add.f32 ");
    reveal_strlit("    add.f32 #00,#00,%biasv0;\n");
    reveal_strlit("%biasv0");
    reveal_strlit("0");
    reveal_strlit("0,");
    reveal_strlit("0,%biasv0;\n");
    reveal_strlit("add.f32");
    let whole = "    add.f32 #00,#00,%biasv0;\n"@;
    let x0 = "    add.f32 "@;
    frames::lemma_fill_plain(x0, args);
    let x1 = seq!['#', '0'];
    lemma_hole('0', args);
    let x2 = "0,"@;
    frames::lemma_fill_plain(x2, args);
    let x3 = seq!['#', '0'];
    lemma_hole('0', args);
    let x4 = "0,%biasv0;\n"@;
    frames::lemma_fill_plain(x4, args);
    assert(whole =~= x0 + x1 + x2 + x3 + x4);
    frames::lemma_fill_add(x0, x1, args);
    frames::lemma_fill_add(x0 + x1, x2, args);
    frames::lemma_fill_add(x0 + x1 + x2, x3, args);
    frames::lemma_fill_add(x0 + x1 + x2 + x3, x4, args);
    let op = "add.f32"@;
    let given = seq![args[0] + "0"@, args[0] + "0"@, "%biasv0"@];
    machine::lemma_listed3(args[0] + "0"@, args[0] + "0"@, "%biasv0"@);
    assert(text::fill(whole, args) =~= machine::line(op, given));
    machine::lemma_reads_line(op, given);
}

/// `add.f32 #01,#01,%biasv1;`
proof fn mma_pipe_add_bias_5(args: Seq<Seq<char>>)
    requires
        args.len() > 0,
        operand(args[0]),
    ensures
        reads(
            text::fill("    add.f32 #01,#01,%biasv1;\n"@, args),
            seq![Insn { op: "add.f32"@, args: seq![args[0] + "1"@, args[0] + "1"@, "%biasv1"@] }],
        ),
{
    reveal_strlit("    add.f32 ");
    reveal_strlit("    add.f32 #01,#01,%biasv1;\n");
    reveal_strlit("%biasv1");
    reveal_strlit("1");
    reveal_strlit("1,");
    reveal_strlit("1,%biasv1;\n");
    reveal_strlit("add.f32");
    let whole = "    add.f32 #01,#01,%biasv1;\n"@;
    let x0 = "    add.f32 "@;
    frames::lemma_fill_plain(x0, args);
    let x1 = seq!['#', '0'];
    lemma_hole('0', args);
    let x2 = "1,"@;
    frames::lemma_fill_plain(x2, args);
    let x3 = seq!['#', '0'];
    lemma_hole('0', args);
    let x4 = "1,%biasv1;\n"@;
    frames::lemma_fill_plain(x4, args);
    assert(whole =~= x0 + x1 + x2 + x3 + x4);
    frames::lemma_fill_add(x0, x1, args);
    frames::lemma_fill_add(x0 + x1, x2, args);
    frames::lemma_fill_add(x0 + x1 + x2, x3, args);
    frames::lemma_fill_add(x0 + x1 + x2 + x3, x4, args);
    let op = "add.f32"@;
    let given = seq![args[0] + "1"@, args[0] + "1"@, "%biasv1"@];
    machine::lemma_listed3(args[0] + "1"@, args[0] + "1"@, "%biasv1"@);
    assert(text::fill(whole, args) =~= machine::line(op, given));
    machine::lemma_reads_line(op, given);
}

/// `add.f32 #02,#02,%biasv0;`
proof fn mma_pipe_add_bias_6(args: Seq<Seq<char>>)
    requires
        args.len() > 0,
        operand(args[0]),
    ensures
        reads(
            text::fill("    add.f32 #02,#02,%biasv0;\n"@, args),
            seq![Insn { op: "add.f32"@, args: seq![args[0] + "2"@, args[0] + "2"@, "%biasv0"@] }],
        ),
{
    reveal_strlit("    add.f32 ");
    reveal_strlit("    add.f32 #02,#02,%biasv0;\n");
    reveal_strlit("%biasv0");
    reveal_strlit("2");
    reveal_strlit("2,");
    reveal_strlit("2,%biasv0;\n");
    reveal_strlit("add.f32");
    let whole = "    add.f32 #02,#02,%biasv0;\n"@;
    let x0 = "    add.f32 "@;
    frames::lemma_fill_plain(x0, args);
    let x1 = seq!['#', '0'];
    lemma_hole('0', args);
    let x2 = "2,"@;
    frames::lemma_fill_plain(x2, args);
    let x3 = seq!['#', '0'];
    lemma_hole('0', args);
    let x4 = "2,%biasv0;\n"@;
    frames::lemma_fill_plain(x4, args);
    assert(whole =~= x0 + x1 + x2 + x3 + x4);
    frames::lemma_fill_add(x0, x1, args);
    frames::lemma_fill_add(x0 + x1, x2, args);
    frames::lemma_fill_add(x0 + x1 + x2, x3, args);
    frames::lemma_fill_add(x0 + x1 + x2 + x3, x4, args);
    let op = "add.f32"@;
    let given = seq![args[0] + "2"@, args[0] + "2"@, "%biasv0"@];
    machine::lemma_listed3(args[0] + "2"@, args[0] + "2"@, "%biasv0"@);
    assert(text::fill(whole, args) =~= machine::line(op, given));
    machine::lemma_reads_line(op, given);
}

/// `add.f32 #03,#03,%biasv1;`
proof fn mma_pipe_add_bias_7(args: Seq<Seq<char>>)
    requires
        args.len() > 0,
        operand(args[0]),
    ensures
        reads(
            text::fill("    add.f32 #03,#03,%biasv1;\n"@, args),
            seq![Insn { op: "add.f32"@, args: seq![args[0] + "3"@, args[0] + "3"@, "%biasv1"@] }],
        ),
{
    reveal_strlit("    add.f32 ");
    reveal_strlit("    add.f32 #03,#03,%biasv1;\n");
    reveal_strlit("%biasv1");
    reveal_strlit("3");
    reveal_strlit("3,");
    reveal_strlit("3,%biasv1;\n");
    reveal_strlit("add.f32");
    let whole = "    add.f32 #03,#03,%biasv1;\n"@;
    let x0 = "    add.f32 "@;
    frames::lemma_fill_plain(x0, args);
    let x1 = seq!['#', '0'];
    lemma_hole('0', args);
    let x2 = "3,"@;
    frames::lemma_fill_plain(x2, args);
    let x3 = seq!['#', '0'];
    lemma_hole('0', args);
    let x4 = "3,%biasv1;\n"@;
    frames::lemma_fill_plain(x4, args);
    assert(whole =~= x0 + x1 + x2 + x3 + x4);
    frames::lemma_fill_add(x0, x1, args);
    frames::lemma_fill_add(x0 + x1, x2, args);
    frames::lemma_fill_add(x0 + x1 + x2, x3, args);
    frames::lemma_fill_add(x0 + x1 + x2 + x3, x4, args);
    let op = "add.f32"@;
    let given = seq![args[0] + "3"@, args[0] + "3"@, "%biasv1"@];
    machine::lemma_listed3(args[0] + "3"@, args[0] + "3"@, "%biasv1"@);
    assert(text::fill(whole, args) =~= machine::line(op, given));
    machine::lemma_reads_line(op, given);
}

/// What [`mma_pipe::ADD_BIAS`] spells.
pub proof fn lemma_mma_pipe_add_bias(args: Seq<Seq<char>>)
    requires
        args.len() > 0,
        operand(args[0]),
    ensures
        reads(
            text::fill(mma_pipe::ADD_BIAS@, args),
            seq![Insn { op: "mul.wide.u32"@, args: seq!["%off"@, "%gcol"@, "4"@] }, Insn { op: "add.s64"@, args: seq!["%cptr"@, "%Bias"@, "%off"@] }, Insn { op: "ld.global.f32"@, args: seq!["%biasv0"@, "[%cptr]"@] }, Insn { op: "ld.global.f32"@, args: seq!["%biasv1"@, "[%cptr+4]"@] }, Insn { op: "add.f32"@, args: seq![args[0] + "0"@, args[0] + "0"@, "%biasv0"@] }, Insn { op: "add.f32"@, args: seq![args[0] + "1"@, args[0] + "1"@, "%biasv1"@] }, Insn { op: "add.f32"@, args: seq![args[0] + "2"@, args[0] + "2"@, "%biasv0"@] }, Insn { op: "add.f32"@, args: seq![args[0] + "3"@, args[0] + "3"@, "%biasv1"@] }],
        ),
{
    let t = mma_pipe::ADD_BIAS@;
    reveal_strlit("    mul.wide.u32 %off,%gcol,4;\n    add.s64 %cptr,%Bias,%off;\n    ld.global.f32 %biasv0,[%cptr];\n    ld.global.f32 %biasv1,[%cptr+4];\n    add.f32 #00,#00,%biasv0;\n    add.f32 #01,#01,%biasv1;\n    add.f32 #02,#02,%biasv0;\n    add.f32 #03,#03,%biasv1;\n");
    reveal_strlit("    mul.wide.u32 %off,%gcol,4;\n");
    let l0 = "    mul.wide.u32 %off,%gcol,4;\n"@;
    let i0 = Insn { op: "mul.wide.u32"@, args: seq!["%off"@, "%gcol"@, "4"@] };
    reveal_strlit("    add.s64 %cptr,%Bias,%off;\n");
    let l1 = "    add.s64 %cptr,%Bias,%off;\n"@;
    let i1 = Insn { op: "add.s64"@, args: seq!["%cptr"@, "%Bias"@, "%off"@] };
    reveal_strlit("    ld.global.f32 %biasv0,[%cptr];\n");
    let l2 = "    ld.global.f32 %biasv0,[%cptr];\n"@;
    let i2 = Insn { op: "ld.global.f32"@, args: seq!["%biasv0"@, "[%cptr]"@] };
    reveal_strlit("    ld.global.f32 %biasv1,[%cptr+4];\n");
    let l3 = "    ld.global.f32 %biasv1,[%cptr+4];\n"@;
    let i3 = Insn { op: "ld.global.f32"@, args: seq!["%biasv1"@, "[%cptr+4]"@] };
    reveal_strlit("    add.f32 #00,#00,%biasv0;\n");
    let l4 = "    add.f32 #00,#00,%biasv0;\n"@;
    let i4 = Insn { op: "add.f32"@, args: seq![args[0] + "0"@, args[0] + "0"@, "%biasv0"@] };
    reveal_strlit("    add.f32 #01,#01,%biasv1;\n");
    let l5 = "    add.f32 #01,#01,%biasv1;\n"@;
    let i5 = Insn { op: "add.f32"@, args: seq![args[0] + "1"@, args[0] + "1"@, "%biasv1"@] };
    reveal_strlit("    add.f32 #02,#02,%biasv0;\n");
    let l6 = "    add.f32 #02,#02,%biasv0;\n"@;
    let i6 = Insn { op: "add.f32"@, args: seq![args[0] + "2"@, args[0] + "2"@, "%biasv0"@] };
    reveal_strlit("    add.f32 #03,#03,%biasv1;\n");
    let l7 = "    add.f32 #03,#03,%biasv1;\n"@;
    let i7 = Insn { op: "add.f32"@, args: seq![args[0] + "3"@, args[0] + "3"@, "%biasv1"@] };
    assert(t =~= l0 + l1 + l2 + l3 + l4 + l5 + l6 + l7);
    mma_pipe_add_bias_0(args);
    let q0 = seq![i0];
    mma_pipe_add_bias_1(args);
    frames::lemma_fill_add(l0, l1, args);
    machine::lemma_reads_add(text::fill(l0, args), q0, text::fill(l1, args), seq![i1]);
    let q1 = q0 + seq![i1];
    mma_pipe_add_bias_2(args);
    frames::lemma_fill_add(l0 + l1, l2, args);
    machine::lemma_reads_add(text::fill(l0 + l1, args), q1, text::fill(l2, args), seq![i2]);
    let q2 = q1 + seq![i2];
    mma_pipe_add_bias_3(args);
    frames::lemma_fill_add(l0 + l1 + l2, l3, args);
    machine::lemma_reads_add(text::fill(l0 + l1 + l2, args), q2, text::fill(l3, args), seq![i3]);
    let q3 = q2 + seq![i3];
    mma_pipe_add_bias_4(args);
    frames::lemma_fill_add(l0 + l1 + l2 + l3, l4, args);
    machine::lemma_reads_add(text::fill(l0 + l1 + l2 + l3, args), q3, text::fill(l4, args), seq![i4]);
    let q4 = q3 + seq![i4];
    mma_pipe_add_bias_5(args);
    frames::lemma_fill_add(l0 + l1 + l2 + l3 + l4, l5, args);
    machine::lemma_reads_add(text::fill(l0 + l1 + l2 + l3 + l4, args), q4, text::fill(l5, args), seq![i5]);
    let q5 = q4 + seq![i5];
    mma_pipe_add_bias_6(args);
    frames::lemma_fill_add(l0 + l1 + l2 + l3 + l4 + l5, l6, args);
    machine::lemma_reads_add(text::fill(l0 + l1 + l2 + l3 + l4 + l5, args), q5, text::fill(l6, args), seq![i6]);
    let q6 = q5 + seq![i6];
    mma_pipe_add_bias_7(args);
    frames::lemma_fill_add(l0 + l1 + l2 + l3 + l4 + l5 + l6, l7, args);
    machine::lemma_reads_add(text::fill(l0 + l1 + l2 + l3 + l4 + l5 + l6, args), q6, text::fill(l7, args), seq![i7]);
    let q7 = q6 + seq![i7];
    assert(q7 =~= seq![Insn { op: "mul.wide.u32"@, args: seq!["%off"@, "%gcol"@, "4"@] }, Insn { op: "add.s64"@, args: seq!["%cptr"@, "%Bias"@, "%off"@] }, Insn { op: "ld.global.f32"@, args: seq!["%biasv0"@, "[%cptr]"@] }, Insn { op: "ld.global.f32"@, args: seq!["%biasv1"@, "[%cptr+4]"@] }, Insn { op: "add.f32"@, args: seq![args[0] + "0"@, args[0] + "0"@, "%biasv0"@] }, Insn { op: "add.f32"@, args: seq![args[0] + "1"@, args[0] + "1"@, "%biasv1"@] }, Insn { op: "add.f32"@, args: seq![args[0] + "2"@, args[0] + "2"@, "%biasv0"@] }, Insn { op: "add.f32"@, args: seq![args[0] + "3"@, args[0] + "3"@, "%biasv1"@] }]);
}

/// `add.s64 %cptr2,%Resid,%off;`
proof fn mma_pipe_upper_resid_0(args: Seq<Seq<char>>)
    ensures
        reads(
            text::fill("    add.s64 %cptr2,%Resid,%off;\n"@, args),
            seq![Insn { op: "add.s64"@, args: seq!["%cptr2"@, "%Resid"@, "%off"@] }],
        ),
{
    reveal_strlit("    add.s64 %cptr2,%Resid,%off;\n");
    reveal_strlit("%Resid");
    reveal_strlit("%cptr2");
    reveal_strlit("%off");
    reveal_strlit("add.s64");
    frames::lemma_fill_plain("    add.s64 %cptr2,%Resid,%off;\n"@, args);
    let op = "add.s64"@;
    let given = seq!["%cptr2"@, "%Resid"@, "%off"@];
    machine::lemma_listed3("%cptr2"@, "%Resid"@, "%off"@);
    assert(text::fill("    add.s64 %cptr2,%Resid,%off;\n"@, args) =~= machine::line(op, given));
    machine::lemma_reads_line(op, given);
}

/// `ld.global.f32 %resv0,[%cptr2];`
proof fn mma_pipe_upper_resid_1(args: Seq<Seq<char>>)
    ensures
        reads(
            text::fill("    ld.global.f32 %resv0,[%cptr2];\n"@, args),
            seq![Insn { op: "ld.global.f32"@, args: seq!["%resv0"@, "[%cptr2]"@] }],
        ),
{
    reveal_strlit("    ld.global.f32 %resv0,[%cptr2];\n");
    reveal_strlit("%resv0");
    reveal_strlit("[%cptr2]");
    reveal_strlit("ld.global.f32");
    frames::lemma_fill_plain("    ld.global.f32 %resv0,[%cptr2];\n"@, args);
    let op = "ld.global.f32"@;
    let given = seq!["%resv0"@, "[%cptr2]"@];
    machine::lemma_listed2("%resv0"@, "[%cptr2]"@);
    assert(text::fill("    ld.global.f32 %resv0,[%cptr2];\n"@, args) =~= machine::line(op, given));
    machine::lemma_reads_line(op, given);
}

/// `ld.global.f32 %resv1,[%cptr2+4];`
proof fn mma_pipe_upper_resid_2(args: Seq<Seq<char>>)
    ensures
        reads(
            text::fill("    ld.global.f32 %resv1,[%cptr2+4];\n"@, args),
            seq![Insn { op: "ld.global.f32"@, args: seq!["%resv1"@, "[%cptr2+4]"@] }],
        ),
{
    reveal_strlit("    ld.global.f32 %resv1,[%cptr2+4];\n");
    reveal_strlit("%resv1");
    reveal_strlit("[%cptr2+4]");
    reveal_strlit("ld.global.f32");
    frames::lemma_fill_plain("    ld.global.f32 %resv1,[%cptr2+4];\n"@, args);
    let op = "ld.global.f32"@;
    let given = seq!["%resv1"@, "[%cptr2+4]"@];
    machine::lemma_listed2("%resv1"@, "[%cptr2+4]"@);
    assert(text::fill("    ld.global.f32 %resv1,[%cptr2+4];\n"@, args) =~= machine::line(op, given));
    machine::lemma_reads_line(op, given);
}

/// `add.f32 #00,#00,%resv0;`
proof fn mma_pipe_upper_resid_3(args: Seq<Seq<char>>)
    requires
        args.len() > 0,
        operand(args[0]),
    ensures
        reads(
            text::fill("    add.f32 #00,#00,%resv0;\n"@, args),
            seq![Insn { op: "add.f32"@, args: seq![args[0] + "0"@, args[0] + "0"@, "%resv0"@] }],
        ),
{
    reveal_strlit("    add.f32 ");
    reveal_strlit("    add.f32 #00,#00,%resv0;\n");
    reveal_strlit("%resv0");
    reveal_strlit("0");
    reveal_strlit("0,");
    reveal_strlit("0,%resv0;\n");
    reveal_strlit("add.f32");
    let whole = "    add.f32 #00,#00,%resv0;\n"@;
    let x0 = "    add.f32 "@;
    frames::lemma_fill_plain(x0, args);
    let x1 = seq!['#', '0'];
    lemma_hole('0', args);
    let x2 = "0,"@;
    frames::lemma_fill_plain(x2, args);
    let x3 = seq!['#', '0'];
    lemma_hole('0', args);
    let x4 = "0,%resv0;\n"@;
    frames::lemma_fill_plain(x4, args);
    assert(whole =~= x0 + x1 + x2 + x3 + x4);
    frames::lemma_fill_add(x0, x1, args);
    frames::lemma_fill_add(x0 + x1, x2, args);
    frames::lemma_fill_add(x0 + x1 + x2, x3, args);
    frames::lemma_fill_add(x0 + x1 + x2 + x3, x4, args);
    let op = "add.f32"@;
    let given = seq![args[0] + "0"@, args[0] + "0"@, "%resv0"@];
    machine::lemma_listed3(args[0] + "0"@, args[0] + "0"@, "%resv0"@);
    assert(text::fill(whole, args) =~= machine::line(op, given));
    machine::lemma_reads_line(op, given);
}

/// `add.f32 #01,#01,%resv1;`
proof fn mma_pipe_upper_resid_4(args: Seq<Seq<char>>)
    requires
        args.len() > 0,
        operand(args[0]),
    ensures
        reads(
            text::fill("    add.f32 #01,#01,%resv1;\n"@, args),
            seq![Insn { op: "add.f32"@, args: seq![args[0] + "1"@, args[0] + "1"@, "%resv1"@] }],
        ),
{
    reveal_strlit("    add.f32 ");
    reveal_strlit("    add.f32 #01,#01,%resv1;\n");
    reveal_strlit("%resv1");
    reveal_strlit("1");
    reveal_strlit("1,");
    reveal_strlit("1,%resv1;\n");
    reveal_strlit("add.f32");
    let whole = "    add.f32 #01,#01,%resv1;\n"@;
    let x0 = "    add.f32 "@;
    frames::lemma_fill_plain(x0, args);
    let x1 = seq!['#', '0'];
    lemma_hole('0', args);
    let x2 = "1,"@;
    frames::lemma_fill_plain(x2, args);
    let x3 = seq!['#', '0'];
    lemma_hole('0', args);
    let x4 = "1,%resv1;\n"@;
    frames::lemma_fill_plain(x4, args);
    assert(whole =~= x0 + x1 + x2 + x3 + x4);
    frames::lemma_fill_add(x0, x1, args);
    frames::lemma_fill_add(x0 + x1, x2, args);
    frames::lemma_fill_add(x0 + x1 + x2, x3, args);
    frames::lemma_fill_add(x0 + x1 + x2 + x3, x4, args);
    let op = "add.f32"@;
    let given = seq![args[0] + "1"@, args[0] + "1"@, "%resv1"@];
    machine::lemma_listed3(args[0] + "1"@, args[0] + "1"@, "%resv1"@);
    assert(text::fill(whole, args) =~= machine::line(op, given));
    machine::lemma_reads_line(op, given);
}

/// What [`mma_pipe::UPPER_RESID`] spells.
pub proof fn lemma_mma_pipe_upper_resid(args: Seq<Seq<char>>)
    requires
        args.len() > 0,
        operand(args[0]),
    ensures
        reads(
            text::fill(mma_pipe::UPPER_RESID@, args),
            seq![Insn { op: "add.s64"@, args: seq!["%cptr2"@, "%Resid"@, "%off"@] }, Insn { op: "ld.global.f32"@, args: seq!["%resv0"@, "[%cptr2]"@] }, Insn { op: "ld.global.f32"@, args: seq!["%resv1"@, "[%cptr2+4]"@] }, Insn { op: "add.f32"@, args: seq![args[0] + "0"@, args[0] + "0"@, "%resv0"@] }, Insn { op: "add.f32"@, args: seq![args[0] + "1"@, args[0] + "1"@, "%resv1"@] }],
        ),
{
    let t = mma_pipe::UPPER_RESID@;
    reveal_strlit("    add.s64 %cptr2,%Resid,%off;\n    ld.global.f32 %resv0,[%cptr2];\n    ld.global.f32 %resv1,[%cptr2+4];\n    add.f32 #00,#00,%resv0;\n    add.f32 #01,#01,%resv1;\n");
    reveal_strlit("    add.s64 %cptr2,%Resid,%off;\n");
    let l0 = "    add.s64 %cptr2,%Resid,%off;\n"@;
    let i0 = Insn { op: "add.s64"@, args: seq!["%cptr2"@, "%Resid"@, "%off"@] };
    reveal_strlit("    ld.global.f32 %resv0,[%cptr2];\n");
    let l1 = "    ld.global.f32 %resv0,[%cptr2];\n"@;
    let i1 = Insn { op: "ld.global.f32"@, args: seq!["%resv0"@, "[%cptr2]"@] };
    reveal_strlit("    ld.global.f32 %resv1,[%cptr2+4];\n");
    let l2 = "    ld.global.f32 %resv1,[%cptr2+4];\n"@;
    let i2 = Insn { op: "ld.global.f32"@, args: seq!["%resv1"@, "[%cptr2+4]"@] };
    reveal_strlit("    add.f32 #00,#00,%resv0;\n");
    let l3 = "    add.f32 #00,#00,%resv0;\n"@;
    let i3 = Insn { op: "add.f32"@, args: seq![args[0] + "0"@, args[0] + "0"@, "%resv0"@] };
    reveal_strlit("    add.f32 #01,#01,%resv1;\n");
    let l4 = "    add.f32 #01,#01,%resv1;\n"@;
    let i4 = Insn { op: "add.f32"@, args: seq![args[0] + "1"@, args[0] + "1"@, "%resv1"@] };
    assert(t =~= l0 + l1 + l2 + l3 + l4);
    mma_pipe_upper_resid_0(args);
    let q0 = seq![i0];
    mma_pipe_upper_resid_1(args);
    frames::lemma_fill_add(l0, l1, args);
    machine::lemma_reads_add(text::fill(l0, args), q0, text::fill(l1, args), seq![i1]);
    let q1 = q0 + seq![i1];
    mma_pipe_upper_resid_2(args);
    frames::lemma_fill_add(l0 + l1, l2, args);
    machine::lemma_reads_add(text::fill(l0 + l1, args), q1, text::fill(l2, args), seq![i2]);
    let q2 = q1 + seq![i2];
    mma_pipe_upper_resid_3(args);
    frames::lemma_fill_add(l0 + l1 + l2, l3, args);
    machine::lemma_reads_add(text::fill(l0 + l1 + l2, args), q2, text::fill(l3, args), seq![i3]);
    let q3 = q2 + seq![i3];
    mma_pipe_upper_resid_4(args);
    frames::lemma_fill_add(l0 + l1 + l2 + l3, l4, args);
    machine::lemma_reads_add(text::fill(l0 + l1 + l2 + l3, args), q3, text::fill(l4, args), seq![i4]);
    let q4 = q3 + seq![i4];
    assert(q4 =~= seq![Insn { op: "add.s64"@, args: seq!["%cptr2"@, "%Resid"@, "%off"@] }, Insn { op: "ld.global.f32"@, args: seq!["%resv0"@, "[%cptr2]"@] }, Insn { op: "ld.global.f32"@, args: seq!["%resv1"@, "[%cptr2+4]"@] }, Insn { op: "add.f32"@, args: seq![args[0] + "0"@, args[0] + "0"@, "%resv0"@] }, Insn { op: "add.f32"@, args: seq![args[0] + "1"@, args[0] + "1"@, "%resv1"@] }]);
}

/// `add.s64 %cptr,%Resid,%off;`
proof fn mma_pipe_lower_resid_0(args: Seq<Seq<char>>)
    ensures
        reads(
            text::fill("    add.s64 %cptr,%Resid,%off;\n"@, args),
            seq![Insn { op: "add.s64"@, args: seq!["%cptr"@, "%Resid"@, "%off"@] }],
        ),
{
    reveal_strlit("    add.s64 %cptr,%Resid,%off;\n");
    reveal_strlit("%Resid");
    reveal_strlit("%cptr");
    reveal_strlit("%off");
    reveal_strlit("add.s64");
    frames::lemma_fill_plain("    add.s64 %cptr,%Resid,%off;\n"@, args);
    let op = "add.s64"@;
    let given = seq!["%cptr"@, "%Resid"@, "%off"@];
    machine::lemma_listed3("%cptr"@, "%Resid"@, "%off"@);
    assert(text::fill("    add.s64 %cptr,%Resid,%off;\n"@, args) =~= machine::line(op, given));
    machine::lemma_reads_line(op, given);
}

/// `ld.global.f32 %resv0,[%cptr];`
proof fn mma_pipe_lower_resid_1(args: Seq<Seq<char>>)
    ensures
        reads(
            text::fill("    ld.global.f32 %resv0,[%cptr];\n"@, args),
            seq![Insn { op: "ld.global.f32"@, args: seq!["%resv0"@, "[%cptr]"@] }],
        ),
{
    reveal_strlit("    ld.global.f32 %resv0,[%cptr];\n");
    reveal_strlit("%resv0");
    reveal_strlit("[%cptr]");
    reveal_strlit("ld.global.f32");
    frames::lemma_fill_plain("    ld.global.f32 %resv0,[%cptr];\n"@, args);
    let op = "ld.global.f32"@;
    let given = seq!["%resv0"@, "[%cptr]"@];
    machine::lemma_listed2("%resv0"@, "[%cptr]"@);
    assert(text::fill("    ld.global.f32 %resv0,[%cptr];\n"@, args) =~= machine::line(op, given));
    machine::lemma_reads_line(op, given);
}

/// `ld.global.f32 %resv1,[%cptr+4];`
proof fn mma_pipe_lower_resid_2(args: Seq<Seq<char>>)
    ensures
        reads(
            text::fill("    ld.global.f32 %resv1,[%cptr+4];\n"@, args),
            seq![Insn { op: "ld.global.f32"@, args: seq!["%resv1"@, "[%cptr+4]"@] }],
        ),
{
    reveal_strlit("    ld.global.f32 %resv1,[%cptr+4];\n");
    reveal_strlit("%resv1");
    reveal_strlit("[%cptr+4]");
    reveal_strlit("ld.global.f32");
    frames::lemma_fill_plain("    ld.global.f32 %resv1,[%cptr+4];\n"@, args);
    let op = "ld.global.f32"@;
    let given = seq!["%resv1"@, "[%cptr+4]"@];
    machine::lemma_listed2("%resv1"@, "[%cptr+4]"@);
    assert(text::fill("    ld.global.f32 %resv1,[%cptr+4];\n"@, args) =~= machine::line(op, given));
    machine::lemma_reads_line(op, given);
}

/// `add.f32 #02,#02,%resv0;`
proof fn mma_pipe_lower_resid_3(args: Seq<Seq<char>>)
    requires
        args.len() > 0,
        operand(args[0]),
    ensures
        reads(
            text::fill("    add.f32 #02,#02,%resv0;\n"@, args),
            seq![Insn { op: "add.f32"@, args: seq![args[0] + "2"@, args[0] + "2"@, "%resv0"@] }],
        ),
{
    reveal_strlit("    add.f32 ");
    reveal_strlit("    add.f32 #02,#02,%resv0;\n");
    reveal_strlit("%resv0");
    reveal_strlit("2");
    reveal_strlit("2,");
    reveal_strlit("2,%resv0;\n");
    reveal_strlit("add.f32");
    let whole = "    add.f32 #02,#02,%resv0;\n"@;
    let x0 = "    add.f32 "@;
    frames::lemma_fill_plain(x0, args);
    let x1 = seq!['#', '0'];
    lemma_hole('0', args);
    let x2 = "2,"@;
    frames::lemma_fill_plain(x2, args);
    let x3 = seq!['#', '0'];
    lemma_hole('0', args);
    let x4 = "2,%resv0;\n"@;
    frames::lemma_fill_plain(x4, args);
    assert(whole =~= x0 + x1 + x2 + x3 + x4);
    frames::lemma_fill_add(x0, x1, args);
    frames::lemma_fill_add(x0 + x1, x2, args);
    frames::lemma_fill_add(x0 + x1 + x2, x3, args);
    frames::lemma_fill_add(x0 + x1 + x2 + x3, x4, args);
    let op = "add.f32"@;
    let given = seq![args[0] + "2"@, args[0] + "2"@, "%resv0"@];
    machine::lemma_listed3(args[0] + "2"@, args[0] + "2"@, "%resv0"@);
    assert(text::fill(whole, args) =~= machine::line(op, given));
    machine::lemma_reads_line(op, given);
}

/// `add.f32 #03,#03,%resv1;`
proof fn mma_pipe_lower_resid_4(args: Seq<Seq<char>>)
    requires
        args.len() > 0,
        operand(args[0]),
    ensures
        reads(
            text::fill("    add.f32 #03,#03,%resv1;\n"@, args),
            seq![Insn { op: "add.f32"@, args: seq![args[0] + "3"@, args[0] + "3"@, "%resv1"@] }],
        ),
{
    reveal_strlit("    add.f32 ");
    reveal_strlit("    add.f32 #03,#03,%resv1;\n");
    reveal_strlit("%resv1");
    reveal_strlit("3");
    reveal_strlit("3,");
    reveal_strlit("3,%resv1;\n");
    reveal_strlit("add.f32");
    let whole = "    add.f32 #03,#03,%resv1;\n"@;
    let x0 = "    add.f32 "@;
    frames::lemma_fill_plain(x0, args);
    let x1 = seq!['#', '0'];
    lemma_hole('0', args);
    let x2 = "3,"@;
    frames::lemma_fill_plain(x2, args);
    let x3 = seq!['#', '0'];
    lemma_hole('0', args);
    let x4 = "3,%resv1;\n"@;
    frames::lemma_fill_plain(x4, args);
    assert(whole =~= x0 + x1 + x2 + x3 + x4);
    frames::lemma_fill_add(x0, x1, args);
    frames::lemma_fill_add(x0 + x1, x2, args);
    frames::lemma_fill_add(x0 + x1 + x2, x3, args);
    frames::lemma_fill_add(x0 + x1 + x2 + x3, x4, args);
    let op = "add.f32"@;
    let given = seq![args[0] + "3"@, args[0] + "3"@, "%resv1"@];
    machine::lemma_listed3(args[0] + "3"@, args[0] + "3"@, "%resv1"@);
    assert(text::fill(whole, args) =~= machine::line(op, given));
    machine::lemma_reads_line(op, given);
}

/// What [`mma_pipe::LOWER_RESID`] spells.
pub proof fn lemma_mma_pipe_lower_resid(args: Seq<Seq<char>>)
    requires
        args.len() > 0,
        operand(args[0]),
    ensures
        reads(
            text::fill(mma_pipe::LOWER_RESID@, args),
            seq![Insn { op: "add.s64"@, args: seq!["%cptr"@, "%Resid"@, "%off"@] }, Insn { op: "ld.global.f32"@, args: seq!["%resv0"@, "[%cptr]"@] }, Insn { op: "ld.global.f32"@, args: seq!["%resv1"@, "[%cptr+4]"@] }, Insn { op: "add.f32"@, args: seq![args[0] + "2"@, args[0] + "2"@, "%resv0"@] }, Insn { op: "add.f32"@, args: seq![args[0] + "3"@, args[0] + "3"@, "%resv1"@] }],
        ),
{
    let t = mma_pipe::LOWER_RESID@;
    reveal_strlit("    add.s64 %cptr,%Resid,%off;\n    ld.global.f32 %resv0,[%cptr];\n    ld.global.f32 %resv1,[%cptr+4];\n    add.f32 #02,#02,%resv0;\n    add.f32 #03,#03,%resv1;\n");
    reveal_strlit("    add.s64 %cptr,%Resid,%off;\n");
    let l0 = "    add.s64 %cptr,%Resid,%off;\n"@;
    let i0 = Insn { op: "add.s64"@, args: seq!["%cptr"@, "%Resid"@, "%off"@] };
    reveal_strlit("    ld.global.f32 %resv0,[%cptr];\n");
    let l1 = "    ld.global.f32 %resv0,[%cptr];\n"@;
    let i1 = Insn { op: "ld.global.f32"@, args: seq!["%resv0"@, "[%cptr]"@] };
    reveal_strlit("    ld.global.f32 %resv1,[%cptr+4];\n");
    let l2 = "    ld.global.f32 %resv1,[%cptr+4];\n"@;
    let i2 = Insn { op: "ld.global.f32"@, args: seq!["%resv1"@, "[%cptr+4]"@] };
    reveal_strlit("    add.f32 #02,#02,%resv0;\n");
    let l3 = "    add.f32 #02,#02,%resv0;\n"@;
    let i3 = Insn { op: "add.f32"@, args: seq![args[0] + "2"@, args[0] + "2"@, "%resv0"@] };
    reveal_strlit("    add.f32 #03,#03,%resv1;\n");
    let l4 = "    add.f32 #03,#03,%resv1;\n"@;
    let i4 = Insn { op: "add.f32"@, args: seq![args[0] + "3"@, args[0] + "3"@, "%resv1"@] };
    assert(t =~= l0 + l1 + l2 + l3 + l4);
    mma_pipe_lower_resid_0(args);
    let q0 = seq![i0];
    mma_pipe_lower_resid_1(args);
    frames::lemma_fill_add(l0, l1, args);
    machine::lemma_reads_add(text::fill(l0, args), q0, text::fill(l1, args), seq![i1]);
    let q1 = q0 + seq![i1];
    mma_pipe_lower_resid_2(args);
    frames::lemma_fill_add(l0 + l1, l2, args);
    machine::lemma_reads_add(text::fill(l0 + l1, args), q1, text::fill(l2, args), seq![i2]);
    let q2 = q1 + seq![i2];
    mma_pipe_lower_resid_3(args);
    frames::lemma_fill_add(l0 + l1 + l2, l3, args);
    machine::lemma_reads_add(text::fill(l0 + l1 + l2, args), q2, text::fill(l3, args), seq![i3]);
    let q3 = q2 + seq![i3];
    mma_pipe_lower_resid_4(args);
    frames::lemma_fill_add(l0 + l1 + l2 + l3, l4, args);
    machine::lemma_reads_add(text::fill(l0 + l1 + l2 + l3, args), q3, text::fill(l4, args), seq![i4]);
    let q4 = q3 + seq![i4];
    assert(q4 =~= seq![Insn { op: "add.s64"@, args: seq!["%cptr"@, "%Resid"@, "%off"@] }, Insn { op: "ld.global.f32"@, args: seq!["%resv0"@, "[%cptr]"@] }, Insn { op: "ld.global.f32"@, args: seq!["%resv1"@, "[%cptr+4]"@] }, Insn { op: "add.f32"@, args: seq![args[0] + "2"@, args[0] + "2"@, "%resv0"@] }, Insn { op: "add.f32"@, args: seq![args[0] + "3"@, args[0] + "3"@, "%resv1"@] }]);
}

/// `max.f32 #0,#0,0f00000000;`
proof fn act_relu_0(args: Seq<Seq<char>>)
    requires
        args.len() > 0,
        operand(args[0]),
    ensures
        reads(
            text::fill("    max.f32 #0,#0,0f00000000;\n"@, args),
            seq![Insn { op: "max.f32"@, args: seq![args[0], args[0], "0f00000000"@] }],
        ),
{
    reveal_strlit("    max.f32 ");
    reveal_strlit("    max.f32 #0,#0,0f00000000;\n");
    reveal_strlit(",");
    reveal_strlit(",0f00000000;\n");
    reveal_strlit("0f00000000");
    reveal_strlit("max.f32");
    let whole = "    max.f32 #0,#0,0f00000000;\n"@;
    let x0 = "    max.f32 "@;
    frames::lemma_fill_plain(x0, args);
    let x1 = seq!['#', '0'];
    lemma_hole('0', args);
    let x2 = ","@;
    frames::lemma_fill_plain(x2, args);
    let x3 = seq!['#', '0'];
    lemma_hole('0', args);
    let x4 = ",0f00000000;\n"@;
    frames::lemma_fill_plain(x4, args);
    assert(whole =~= x0 + x1 + x2 + x3 + x4);
    frames::lemma_fill_add(x0, x1, args);
    frames::lemma_fill_add(x0 + x1, x2, args);
    frames::lemma_fill_add(x0 + x1 + x2, x3, args);
    frames::lemma_fill_add(x0 + x1 + x2 + x3, x4, args);
    let op = "max.f32"@;
    let given = seq![args[0], args[0], "0f00000000"@];
    machine::lemma_listed3(args[0], args[0], "0f00000000"@);
    assert(text::fill(whole, args) =~= machine::line(op, given));
    machine::lemma_reads_line(op, given);
}

/// What [`act::RELU`] spells.
pub proof fn lemma_act_relu(args: Seq<Seq<char>>)
    requires
        args.len() > 0,
        operand(args[0]),
    ensures
        reads(
            text::fill(act::RELU@, args),
            seq![Insn { op: "max.f32"@, args: seq![args[0], args[0], "0f00000000"@] }],
        ),
{
    let t = act::RELU@;
    reveal_strlit("    max.f32 #0,#0,0f00000000;\n");
    reveal_strlit("    max.f32 #0,#0,0f00000000;\n");
    let l0 = "    max.f32 #0,#0,0f00000000;\n"@;
    let i0 = Insn { op: "max.f32"@, args: seq![args[0], args[0], "0f00000000"@] };
    assert(t =~= l0);
    act_relu_0(args);
    let q0 = seq![i0];
    assert(q0 =~= seq![Insn { op: "max.f32"@, args: seq![args[0], args[0], "0f00000000"@] }]);
}

/// `mul.f32 %act0,#0,0fBFB8AA3B;`
proof fn act_silu_0(args: Seq<Seq<char>>)
    requires
        args.len() > 0,
        operand(args[0]),
    ensures
        reads(
            text::fill("    mul.f32 %act0,#0,0fBFB8AA3B;\n"@, args),
            seq![Insn { op: "mul.f32"@, args: seq!["%act0"@, args[0], "0fBFB8AA3B"@] }],
        ),
{
    reveal_strlit("    mul.f32 %act0,");
    reveal_strlit("    mul.f32 %act0,#0,0fBFB8AA3B;\n");
    reveal_strlit("%act0");
    reveal_strlit(",0fBFB8AA3B;\n");
    reveal_strlit("0fBFB8AA3B");
    reveal_strlit("mul.f32");
    let whole = "    mul.f32 %act0,#0,0fBFB8AA3B;\n"@;
    let x0 = "    mul.f32 %act0,"@;
    frames::lemma_fill_plain(x0, args);
    let x1 = seq!['#', '0'];
    lemma_hole('0', args);
    let x2 = ",0fBFB8AA3B;\n"@;
    frames::lemma_fill_plain(x2, args);
    assert(whole =~= x0 + x1 + x2);
    frames::lemma_fill_add(x0, x1, args);
    frames::lemma_fill_add(x0 + x1, x2, args);
    let op = "mul.f32"@;
    let given = seq!["%act0"@, args[0], "0fBFB8AA3B"@];
    machine::lemma_listed3("%act0"@, args[0], "0fBFB8AA3B"@);
    assert(text::fill(whole, args) =~= machine::line(op, given));
    machine::lemma_reads_line(op, given);
}

/// `ex2.approx.f32 %act0,%act0;`
proof fn act_silu_1(args: Seq<Seq<char>>)
    ensures
        reads(
            text::fill("    ex2.approx.f32 %act0,%act0;\n"@, args),
            seq![Insn { op: "ex2.approx.f32"@, args: seq!["%act0"@, "%act0"@] }],
        ),
{
    reveal_strlit("    ex2.approx.f32 %act0,%act0;\n");
    reveal_strlit("%act0");
    reveal_strlit("ex2.approx.f32");
    frames::lemma_fill_plain("    ex2.approx.f32 %act0,%act0;\n"@, args);
    let op = "ex2.approx.f32"@;
    let given = seq!["%act0"@, "%act0"@];
    machine::lemma_listed2("%act0"@, "%act0"@);
    assert(text::fill("    ex2.approx.f32 %act0,%act0;\n"@, args) =~= machine::line(op, given));
    machine::lemma_reads_line(op, given);
}

/// `add.f32 %act0,%act0,0f3F800000;`
proof fn act_silu_2(args: Seq<Seq<char>>)
    ensures
        reads(
            text::fill("    add.f32 %act0,%act0,0f3F800000;\n"@, args),
            seq![Insn { op: "add.f32"@, args: seq!["%act0"@, "%act0"@, "0f3F800000"@] }],
        ),
{
    reveal_strlit("    add.f32 %act0,%act0,0f3F800000;\n");
    reveal_strlit("%act0");
    reveal_strlit("0f3F800000");
    reveal_strlit("add.f32");
    frames::lemma_fill_plain("    add.f32 %act0,%act0,0f3F800000;\n"@, args);
    let op = "add.f32"@;
    let given = seq!["%act0"@, "%act0"@, "0f3F800000"@];
    machine::lemma_listed3("%act0"@, "%act0"@, "0f3F800000"@);
    assert(text::fill("    add.f32 %act0,%act0,0f3F800000;\n"@, args) =~= machine::line(op, given));
    machine::lemma_reads_line(op, given);
}

/// `rcp.approx.f32 %act0,%act0;`
proof fn act_silu_3(args: Seq<Seq<char>>)
    ensures
        reads(
            text::fill("    rcp.approx.f32 %act0,%act0;\n"@, args),
            seq![Insn { op: "rcp.approx.f32"@, args: seq!["%act0"@, "%act0"@] }],
        ),
{
    reveal_strlit("    rcp.approx.f32 %act0,%act0;\n");
    reveal_strlit("%act0");
    reveal_strlit("rcp.approx.f32");
    frames::lemma_fill_plain("    rcp.approx.f32 %act0,%act0;\n"@, args);
    let op = "rcp.approx.f32"@;
    let given = seq!["%act0"@, "%act0"@];
    machine::lemma_listed2("%act0"@, "%act0"@);
    assert(text::fill("    rcp.approx.f32 %act0,%act0;\n"@, args) =~= machine::line(op, given));
    machine::lemma_reads_line(op, given);
}

/// `mul.f32 #0,#0,%act0;`
proof fn act_silu_4(args: Seq<Seq<char>>)
    requires
        args.len() > 0,
        operand(args[0]),
    ensures
        reads(
            text::fill("    mul.f32 #0,#0,%act0;\n"@, args),
            seq![Insn { op: "mul.f32"@, args: seq![args[0], args[0], "%act0"@] }],
        ),
{
    reveal_strlit("    mul.f32 ");
    reveal_strlit("    mul.f32 #0,#0,%act0;\n");
    reveal_strlit("%act0");
    reveal_strlit(",");
    reveal_strlit(",%act0;\n");
    reveal_strlit("mul.f32");
    let whole = "    mul.f32 #0,#0,%act0;\n"@;
    let x0 = "    mul.f32 "@;
    frames::lemma_fill_plain(x0, args);
    let x1 = seq!['#', '0'];
    lemma_hole('0', args);
    let x2 = ","@;
    frames::lemma_fill_plain(x2, args);
    let x3 = seq!['#', '0'];
    lemma_hole('0', args);
    let x4 = ",%act0;\n"@;
    frames::lemma_fill_plain(x4, args);
    assert(whole =~= x0 + x1 + x2 + x3 + x4);
    frames::lemma_fill_add(x0, x1, args);
    frames::lemma_fill_add(x0 + x1, x2, args);
    frames::lemma_fill_add(x0 + x1 + x2, x3, args);
    frames::lemma_fill_add(x0 + x1 + x2 + x3, x4, args);
    let op = "mul.f32"@;
    let given = seq![args[0], args[0], "%act0"@];
    machine::lemma_listed3(args[0], args[0], "%act0"@);
    assert(text::fill(whole, args) =~= machine::line(op, given));
    machine::lemma_reads_line(op, given);
}

/// What [`act::SILU`] spells.
pub proof fn lemma_act_silu(args: Seq<Seq<char>>)
    requires
        args.len() > 0,
        operand(args[0]),
    ensures
        reads(
            text::fill(act::SILU@, args),
            seq![Insn { op: "mul.f32"@, args: seq!["%act0"@, args[0], "0fBFB8AA3B"@] }, Insn { op: "ex2.approx.f32"@, args: seq!["%act0"@, "%act0"@] }, Insn { op: "add.f32"@, args: seq!["%act0"@, "%act0"@, "0f3F800000"@] }, Insn { op: "rcp.approx.f32"@, args: seq!["%act0"@, "%act0"@] }, Insn { op: "mul.f32"@, args: seq![args[0], args[0], "%act0"@] }],
        ),
{
    let t = act::SILU@;
    reveal_strlit("    mul.f32 %act0,#0,0fBFB8AA3B;\n    ex2.approx.f32 %act0,%act0;\n    add.f32 %act0,%act0,0f3F800000;\n    rcp.approx.f32 %act0,%act0;\n    mul.f32 #0,#0,%act0;\n");
    reveal_strlit("    mul.f32 %act0,#0,0fBFB8AA3B;\n");
    let l0 = "    mul.f32 %act0,#0,0fBFB8AA3B;\n"@;
    let i0 = Insn { op: "mul.f32"@, args: seq!["%act0"@, args[0], "0fBFB8AA3B"@] };
    reveal_strlit("    ex2.approx.f32 %act0,%act0;\n");
    let l1 = "    ex2.approx.f32 %act0,%act0;\n"@;
    let i1 = Insn { op: "ex2.approx.f32"@, args: seq!["%act0"@, "%act0"@] };
    reveal_strlit("    add.f32 %act0,%act0,0f3F800000;\n");
    let l2 = "    add.f32 %act0,%act0,0f3F800000;\n"@;
    let i2 = Insn { op: "add.f32"@, args: seq!["%act0"@, "%act0"@, "0f3F800000"@] };
    reveal_strlit("    rcp.approx.f32 %act0,%act0;\n");
    let l3 = "    rcp.approx.f32 %act0,%act0;\n"@;
    let i3 = Insn { op: "rcp.approx.f32"@, args: seq!["%act0"@, "%act0"@] };
    reveal_strlit("    mul.f32 #0,#0,%act0;\n");
    let l4 = "    mul.f32 #0,#0,%act0;\n"@;
    let i4 = Insn { op: "mul.f32"@, args: seq![args[0], args[0], "%act0"@] };
    assert(t =~= l0 + l1 + l2 + l3 + l4);
    act_silu_0(args);
    let q0 = seq![i0];
    act_silu_1(args);
    frames::lemma_fill_add(l0, l1, args);
    machine::lemma_reads_add(text::fill(l0, args), q0, text::fill(l1, args), seq![i1]);
    let q1 = q0 + seq![i1];
    act_silu_2(args);
    frames::lemma_fill_add(l0 + l1, l2, args);
    machine::lemma_reads_add(text::fill(l0 + l1, args), q1, text::fill(l2, args), seq![i2]);
    let q2 = q1 + seq![i2];
    act_silu_3(args);
    frames::lemma_fill_add(l0 + l1 + l2, l3, args);
    machine::lemma_reads_add(text::fill(l0 + l1 + l2, args), q2, text::fill(l3, args), seq![i3]);
    let q3 = q2 + seq![i3];
    act_silu_4(args);
    frames::lemma_fill_add(l0 + l1 + l2 + l3, l4, args);
    machine::lemma_reads_add(text::fill(l0 + l1 + l2 + l3, args), q3, text::fill(l4, args), seq![i4]);
    let q4 = q3 + seq![i4];
    assert(q4 =~= seq![Insn { op: "mul.f32"@, args: seq!["%act0"@, args[0], "0fBFB8AA3B"@] }, Insn { op: "ex2.approx.f32"@, args: seq!["%act0"@, "%act0"@] }, Insn { op: "add.f32"@, args: seq!["%act0"@, "%act0"@, "0f3F800000"@] }, Insn { op: "rcp.approx.f32"@, args: seq!["%act0"@, "%act0"@] }, Insn { op: "mul.f32"@, args: seq![args[0], args[0], "%act0"@] }]);
}

/// `mul.f32 %act0,#0,#0;`
proof fn act_gelu_0(args: Seq<Seq<char>>)
    requires
        args.len() > 0,
        operand(args[0]),
    ensures
        reads(
            text::fill("    mul.f32 %act0,#0,#0;\n"@, args),
            seq![Insn { op: "mul.f32"@, args: seq!["%act0"@, args[0], args[0]] }],
        ),
{
    reveal_strlit("    mul.f32 %act0,");
    reveal_strlit("    mul.f32 %act0,#0,#0;\n");
    reveal_strlit("%act0");
    reveal_strlit(",");
    reveal_strlit(";\n");
    reveal_strlit("mul.f32");
    let whole = "    mul.f32 %act0,#0,#0;\n"@;
    let x0 = "    mul.f32 %act0,"@;
    frames::lemma_fill_plain(x0, args);
    let x1 = seq!['#', '0'];
    lemma_hole('0', args);
    let x2 = ","@;
    frames::lemma_fill_plain(x2, args);
    let x3 = seq!['#', '0'];
    lemma_hole('0', args);
    let x4 = ";\n"@;
    frames::lemma_fill_plain(x4, args);
    assert(whole =~= x0 + x1 + x2 + x3 + x4);
    frames::lemma_fill_add(x0, x1, args);
    frames::lemma_fill_add(x0 + x1, x2, args);
    frames::lemma_fill_add(x0 + x1 + x2, x3, args);
    frames::lemma_fill_add(x0 + x1 + x2 + x3, x4, args);
    let op = "mul.f32"@;
    let given = seq!["%act0"@, args[0], args[0]];
    machine::lemma_listed3("%act0"@, args[0], args[0]);
    assert(text::fill(whole, args) =~= machine::line(op, given));
    machine::lemma_reads_line(op, given);
}

/// `mul.f32 %act0,%act0,#0;`
proof fn act_gelu_1(args: Seq<Seq<char>>)
    requires
        args.len() > 0,
        operand(args[0]),
    ensures
        reads(
            text::fill("    mul.f32 %act0,%act0,#0;\n"@, args),
            seq![Insn { op: "mul.f32"@, args: seq!["%act0"@, "%act0"@, args[0]] }],
        ),
{
    reveal_strlit("    mul.f32 %act0,%act0,");
    reveal_strlit("    mul.f32 %act0,%act0,#0;\n");
    reveal_strlit("%act0");
    reveal_strlit(";\n");
    reveal_strlit("mul.f32");
    let whole = "    mul.f32 %act0,%act0,#0;\n"@;
    let x0 = "    mul.f32 %act0,%act0,"@;
    frames::lemma_fill_plain(x0, args);
    let x1 = seq!['#', '0'];
    lemma_hole('0', args);
    let x2 = ";\n"@;
    frames::lemma_fill_plain(x2, args);
    assert(whole =~= x0 + x1 + x2);
    frames::lemma_fill_add(x0, x1, args);
    frames::lemma_fill_add(x0 + x1, x2, args);
    let op = "mul.f32"@;
    let given = seq!["%act0"@, "%act0"@, args[0]];
    machine::lemma_listed3("%act0"@, "%act0"@, args[0]);
    assert(text::fill(whole, args) =~= machine::line(op, given));
    machine::lemma_reads_line(op, given);
}

/// `fma.rn.f32 %act0,%act0,0f3D372713,#0;`
proof fn act_gelu_2(args: Seq<Seq<char>>)
    requires
        args.len() > 0,
        operand(args[0]),
    ensures
        reads(
            text::fill("    fma.rn.f32 %act0,%act0,0f3D372713,#0;\n"@, args),
            seq![Insn { op: "fma.rn.f32"@, args: seq!["%act0"@, "%act0"@, "0f3D372713"@, args[0]] }],
        ),
{
    reveal_strlit("    fma.rn.f32 %act0,%act0,0f3D372713,");
    reveal_strlit("    fma.rn.f32 %act0,%act0,0f3D372713,#0;\n");
    reveal_strlit("%act0");
    reveal_strlit("0f3D372713");
    reveal_strlit(";\n");
    reveal_strlit("fma.rn.f32");
    let whole = "    fma.rn.f32 %act0,%act0,0f3D372713,#0;\n"@;
    let x0 = "    fma.rn.f32 %act0,%act0,0f3D372713,"@;
    frames::lemma_fill_plain(x0, args);
    let x1 = seq!['#', '0'];
    lemma_hole('0', args);
    let x2 = ";\n"@;
    frames::lemma_fill_plain(x2, args);
    assert(whole =~= x0 + x1 + x2);
    frames::lemma_fill_add(x0, x1, args);
    frames::lemma_fill_add(x0 + x1, x2, args);
    let op = "fma.rn.f32"@;
    let given = seq!["%act0"@, "%act0"@, "0f3D372713"@, args[0]];
    machine::lemma_listed4("%act0"@, "%act0"@, "0f3D372713"@, args[0]);
    assert(text::fill(whole, args) =~= machine::line(op, given));
    machine::lemma_reads_line(op, given);
}

/// `mul.f32 %act0,%act0,0f3F4C4229;`
proof fn act_gelu_3(args: Seq<Seq<char>>)
    ensures
        reads(
            text::fill("    mul.f32 %act0,%act0,0f3F4C4229;\n"@, args),
            seq![Insn { op: "mul.f32"@, args: seq!["%act0"@, "%act0"@, "0f3F4C4229"@] }],
        ),
{
    reveal_strlit("    mul.f32 %act0,%act0,0f3F4C4229;\n");
    reveal_strlit("%act0");
    reveal_strlit("0f3F4C4229");
    reveal_strlit("mul.f32");
    frames::lemma_fill_plain("    mul.f32 %act0,%act0,0f3F4C4229;\n"@, args);
    let op = "mul.f32"@;
    let given = seq!["%act0"@, "%act0"@, "0f3F4C4229"@];
    machine::lemma_listed3("%act0"@, "%act0"@, "0f3F4C4229"@);
    assert(text::fill("    mul.f32 %act0,%act0,0f3F4C4229;\n"@, args) =~= machine::line(op, given));
    machine::lemma_reads_line(op, given);
}

/// `tanh.approx.f32 %act0,%act0;`
proof fn act_gelu_4(args: Seq<Seq<char>>)
    ensures
        reads(
            text::fill("    tanh.approx.f32 %act0,%act0;\n"@, args),
            seq![Insn { op: "tanh.approx.f32"@, args: seq!["%act0"@, "%act0"@] }],
        ),
{
    reveal_strlit("    tanh.approx.f32 %act0,%act0;\n");
    reveal_strlit("%act0");
    reveal_strlit("tanh.approx.f32");
    frames::lemma_fill_plain("    tanh.approx.f32 %act0,%act0;\n"@, args);
    let op = "tanh.approx.f32"@;
    let given = seq!["%act0"@, "%act0"@];
    machine::lemma_listed2("%act0"@, "%act0"@);
    assert(text::fill("    tanh.approx.f32 %act0,%act0;\n"@, args) =~= machine::line(op, given));
    machine::lemma_reads_line(op, given);
}

/// `mul.f32 %act1,#0,0f3F000000;`
proof fn act_gelu_6(args: Seq<Seq<char>>)
    requires
        args.len() > 0,
        operand(args[0]),
    ensures
        reads(
            text::fill("    mul.f32 %act1,#0,0f3F000000;\n"@, args),
            seq![Insn { op: "mul.f32"@, args: seq!["%act1"@, args[0], "0f3F000000"@] }],
        ),
{
    reveal_strlit("    mul.f32 %act1,");
    reveal_strlit("    mul.f32 %act1,#0,0f3F000000;\n");
    reveal_strlit("%act1");
    reveal_strlit(",0f3F000000;\n");
    reveal_strlit("0f3F000000");
    reveal_strlit("mul.f32");
    let whole = "    mul.f32 %act1,#0,0f3F000000;\n"@;
    let x0 = "    mul.f32 %act1,"@;
    frames::lemma_fill_plain(x0, args);
    let x1 = seq!['#', '0'];
    lemma_hole('0', args);
    let x2 = ",0f3F000000;\n"@;
    frames::lemma_fill_plain(x2, args);
    assert(whole =~= x0 + x1 + x2);
    frames::lemma_fill_add(x0, x1, args);
    frames::lemma_fill_add(x0 + x1, x2, args);
    let op = "mul.f32"@;
    let given = seq!["%act1"@, args[0], "0f3F000000"@];
    machine::lemma_listed3("%act1"@, args[0], "0f3F000000"@);
    assert(text::fill(whole, args) =~= machine::line(op, given));
    machine::lemma_reads_line(op, given);
}

/// `mul.f32 #0,%act0,%act1;`
proof fn act_gelu_7(args: Seq<Seq<char>>)
    requires
        args.len() > 0,
        operand(args[0]),
    ensures
        reads(
            text::fill("    mul.f32 #0,%act0,%act1;\n"@, args),
            seq![Insn { op: "mul.f32"@, args: seq![args[0], "%act0"@, "%act1"@] }],
        ),
{
    reveal_strlit("    mul.f32 ");
    reveal_strlit("    mul.f32 #0,%act0,%act1;\n");
    reveal_strlit("%act0");
    reveal_strlit("%act1");
    reveal_strlit(",%act0,%act1;\n");
    reveal_strlit("mul.f32");
    let whole = "    mul.f32 #0,%act0,%act1;\n"@;
    let x0 = "    mul.f32 "@;
    frames::lemma_fill_plain(x0, args);
    let x1 = seq!['#', '0'];
    lemma_hole('0', args);
    let x2 = ",%act0,%act1;\n"@;
    frames::lemma_fill_plain(x2, args);
    assert(whole =~= x0 + x1 + x2);
    frames::lemma_fill_add(x0, x1, args);
    frames::lemma_fill_add(x0 + x1, x2, args);
    let op = "mul.f32"@;
    let given = seq![args[0], "%act0"@, "%act1"@];
    machine::lemma_listed3(args[0], "%act0"@, "%act1"@);
    assert(text::fill(whole, args) =~= machine::line(op, given));
    machine::lemma_reads_line(op, given);
}

/// What [`act::GELU`] spells.
pub proof fn lemma_act_gelu(args: Seq<Seq<char>>)
    requires
        args.len() > 0,
        operand(args[0]),
    ensures
        reads(
            text::fill(act::GELU@, args),
            seq![Insn { op: "mul.f32"@, args: seq!["%act0"@, args[0], args[0]] }, Insn { op: "mul.f32"@, args: seq!["%act0"@, "%act0"@, args[0]] }, Insn { op: "fma.rn.f32"@, args: seq!["%act0"@, "%act0"@, "0f3D372713"@, args[0]] }, Insn { op: "mul.f32"@, args: seq!["%act0"@, "%act0"@, "0f3F4C4229"@] }, Insn { op: "tanh.approx.f32"@, args: seq!["%act0"@, "%act0"@] }, Insn { op: "add.f32"@, args: seq!["%act0"@, "%act0"@, "0f3F800000"@] }, Insn { op: "mul.f32"@, args: seq!["%act1"@, args[0], "0f3F000000"@] }, Insn { op: "mul.f32"@, args: seq![args[0], "%act0"@, "%act1"@] }],
        ),
{
    let t = act::GELU@;
    reveal_strlit("    mul.f32 %act0,#0,#0;\n    mul.f32 %act0,%act0,#0;\n    fma.rn.f32 %act0,%act0,0f3D372713,#0;\n    mul.f32 %act0,%act0,0f3F4C4229;\n    tanh.approx.f32 %act0,%act0;\n    add.f32 %act0,%act0,0f3F800000;\n    mul.f32 %act1,#0,0f3F000000;\n    mul.f32 #0,%act0,%act1;\n");
    reveal_strlit("    mul.f32 %act0,#0,#0;\n");
    let l0 = "    mul.f32 %act0,#0,#0;\n"@;
    let i0 = Insn { op: "mul.f32"@, args: seq!["%act0"@, args[0], args[0]] };
    reveal_strlit("    mul.f32 %act0,%act0,#0;\n");
    let l1 = "    mul.f32 %act0,%act0,#0;\n"@;
    let i1 = Insn { op: "mul.f32"@, args: seq!["%act0"@, "%act0"@, args[0]] };
    reveal_strlit("    fma.rn.f32 %act0,%act0,0f3D372713,#0;\n");
    let l2 = "    fma.rn.f32 %act0,%act0,0f3D372713,#0;\n"@;
    let i2 = Insn { op: "fma.rn.f32"@, args: seq!["%act0"@, "%act0"@, "0f3D372713"@, args[0]] };
    reveal_strlit("    mul.f32 %act0,%act0,0f3F4C4229;\n");
    let l3 = "    mul.f32 %act0,%act0,0f3F4C4229;\n"@;
    let i3 = Insn { op: "mul.f32"@, args: seq!["%act0"@, "%act0"@, "0f3F4C4229"@] };
    reveal_strlit("    tanh.approx.f32 %act0,%act0;\n");
    let l4 = "    tanh.approx.f32 %act0,%act0;\n"@;
    let i4 = Insn { op: "tanh.approx.f32"@, args: seq!["%act0"@, "%act0"@] };
    reveal_strlit("    add.f32 %act0,%act0,0f3F800000;\n");
    let l5 = "    add.f32 %act0,%act0,0f3F800000;\n"@;
    let i5 = Insn { op: "add.f32"@, args: seq!["%act0"@, "%act0"@, "0f3F800000"@] };
    reveal_strlit("    mul.f32 %act1,#0,0f3F000000;\n");
    let l6 = "    mul.f32 %act1,#0,0f3F000000;\n"@;
    let i6 = Insn { op: "mul.f32"@, args: seq!["%act1"@, args[0], "0f3F000000"@] };
    reveal_strlit("    mul.f32 #0,%act0,%act1;\n");
    let l7 = "    mul.f32 #0,%act0,%act1;\n"@;
    let i7 = Insn { op: "mul.f32"@, args: seq![args[0], "%act0"@, "%act1"@] };
    assert(t =~= l0 + l1 + l2 + l3 + l4 + l5 + l6 + l7);
    act_gelu_0(args);
    let q0 = seq![i0];
    act_gelu_1(args);
    frames::lemma_fill_add(l0, l1, args);
    machine::lemma_reads_add(text::fill(l0, args), q0, text::fill(l1, args), seq![i1]);
    let q1 = q0 + seq![i1];
    act_gelu_2(args);
    frames::lemma_fill_add(l0 + l1, l2, args);
    machine::lemma_reads_add(text::fill(l0 + l1, args), q1, text::fill(l2, args), seq![i2]);
    let q2 = q1 + seq![i2];
    act_gelu_3(args);
    frames::lemma_fill_add(l0 + l1 + l2, l3, args);
    machine::lemma_reads_add(text::fill(l0 + l1 + l2, args), q2, text::fill(l3, args), seq![i3]);
    let q3 = q2 + seq![i3];
    act_gelu_4(args);
    frames::lemma_fill_add(l0 + l1 + l2 + l3, l4, args);
    machine::lemma_reads_add(text::fill(l0 + l1 + l2 + l3, args), q3, text::fill(l4, args), seq![i4]);
    let q4 = q3 + seq![i4];
    act_silu_2(args);
    frames::lemma_fill_add(l0 + l1 + l2 + l3 + l4, l5, args);
    machine::lemma_reads_add(text::fill(l0 + l1 + l2 + l3 + l4, args), q4, text::fill(l5, args), seq![i5]);
    let q5 = q4 + seq![i5];
    act_gelu_6(args);
    frames::lemma_fill_add(l0 + l1 + l2 + l3 + l4 + l5, l6, args);
    machine::lemma_reads_add(text::fill(l0 + l1 + l2 + l3 + l4 + l5, args), q5, text::fill(l6, args), seq![i6]);
    let q6 = q5 + seq![i6];
    act_gelu_7(args);
    frames::lemma_fill_add(l0 + l1 + l2 + l3 + l4 + l5 + l6, l7, args);
    machine::lemma_reads_add(text::fill(l0 + l1 + l2 + l3 + l4 + l5 + l6, args), q6, text::fill(l7, args), seq![i7]);
    let q7 = q6 + seq![i7];
    assert(q7 =~= seq![Insn { op: "mul.f32"@, args: seq!["%act0"@, args[0], args[0]] }, Insn { op: "mul.f32"@, args: seq!["%act0"@, "%act0"@, args[0]] }, Insn { op: "fma.rn.f32"@, args: seq!["%act0"@, "%act0"@, "0f3D372713"@, args[0]] }, Insn { op: "mul.f32"@, args: seq!["%act0"@, "%act0"@, "0f3F4C4229"@] }, Insn { op: "tanh.approx.f32"@, args: seq!["%act0"@, "%act0"@] }, Insn { op: "add.f32"@, args: seq!["%act0"@, "%act0"@, "0f3F800000"@] }, Insn { op: "mul.f32"@, args: seq!["%act1"@, args[0], "0f3F000000"@] }, Insn { op: "mul.f32"@, args: seq![args[0], "%act0"@, "%act1"@] }]);
}

/// `st.global.f32 [#0],#1;`
proof fn act_store_scalar_0(args: Seq<Seq<char>>)
    requires
        args.len() > 1,
        operand(args[0]),
        operand(args[1]),
    ensures
        reads(
            text::fill("    st.global.f32 [#0],#1;\n"@, args),
            seq![Insn { op: "st.global.f32"@, args: seq!["["@ + args[0] + "]"@, args[1]] }],
        ),
{
    reveal_strlit("    st.global.f32 [");
    reveal_strlit("    st.global.f32 [#0],#1;\n");
    reveal_strlit(";\n");
    reveal_strlit("[");
    reveal_strlit("]");
    reveal_strlit("],");
    reveal_strlit("st.global.f32");
    let whole = "    st.global.f32 [#0],#1;\n"@;
    let x0 = "    st.global.f32 ["@;
    frames::lemma_fill_plain(x0, args);
    let x1 = seq!['#', '0'];
    lemma_hole('0', args);
    let x2 = "],"@;
    frames::lemma_fill_plain(x2, args);
    let x3 = seq!['#', '1'];
    lemma_hole('1', args);
    let x4 = ";\n"@;
    frames::lemma_fill_plain(x4, args);
    assert(whole =~= x0 + x1 + x2 + x3 + x4);
    frames::lemma_fill_add(x0, x1, args);
    frames::lemma_fill_add(x0 + x1, x2, args);
    frames::lemma_fill_add(x0 + x1 + x2, x3, args);
    frames::lemma_fill_add(x0 + x1 + x2 + x3, x4, args);
    let op = "st.global.f32"@;
    let given = seq!["["@ + args[0] + "]"@, args[1]];
    machine::lemma_listed2("["@ + args[0] + "]"@, args[1]);
    assert(text::fill(whole, args) =~= machine::line(op, given));
    machine::lemma_reads_line(op, given);
}

/// `st.global.f32 [#0+4],#2;`
proof fn act_store_scalar_1(args: Seq<Seq<char>>)
    requires
        args.len() > 2,
        operand(args[0]),
        operand(args[2]),
    ensures
        reads(
            text::fill("    st.global.f32 [#0+4],#2;\n"@, args),
            seq![Insn { op: "st.global.f32"@, args: seq!["["@ + args[0] + "+4]"@, args[2]] }],
        ),
{
    reveal_strlit("    st.global.f32 [");
    reveal_strlit("    st.global.f32 [#0+4],#2;\n");
    reveal_strlit("+4]");
    reveal_strlit("+4],");
    reveal_strlit(";\n");
    reveal_strlit("[");
    reveal_strlit("st.global.f32");
    let whole = "    st.global.f32 [#0+4],#2;\n"@;
    let x0 = "    st.global.f32 ["@;
    frames::lemma_fill_plain(x0, args);
    let x1 = seq!['#', '0'];
    lemma_hole('0', args);
    let x2 = "+4],"@;
    frames::lemma_fill_plain(x2, args);
    let x3 = seq!['#', '2'];
    lemma_hole('2', args);
    let x4 = ";\n"@;
    frames::lemma_fill_plain(x4, args);
    assert(whole =~= x0 + x1 + x2 + x3 + x4);
    frames::lemma_fill_add(x0, x1, args);
    frames::lemma_fill_add(x0 + x1, x2, args);
    frames::lemma_fill_add(x0 + x1 + x2, x3, args);
    frames::lemma_fill_add(x0 + x1 + x2 + x3, x4, args);
    let op = "st.global.f32"@;
    let given = seq!["["@ + args[0] + "+4]"@, args[2]];
    machine::lemma_listed2("["@ + args[0] + "+4]"@, args[2]);
    assert(text::fill(whole, args) =~= machine::line(op, given));
    machine::lemma_reads_line(op, given);
}

/// What [`act::STORE_SCALAR`] spells.
pub proof fn lemma_act_store_scalar(args: Seq<Seq<char>>)
    requires
        args.len() > 2,
        operand(args[0]),
        operand(args[1]),
        operand(args[2]),
    ensures
        reads(
            text::fill(act::STORE_SCALAR@, args),
            seq![Insn { op: "st.global.f32"@, args: seq!["["@ + args[0] + "]"@, args[1]] }, Insn { op: "st.global.f32"@, args: seq!["["@ + args[0] + "+4]"@, args[2]] }],
        ),
{
    let t = act::STORE_SCALAR@;
    reveal_strlit("    st.global.f32 [#0],#1;\n    st.global.f32 [#0+4],#2;\n");
    reveal_strlit("    st.global.f32 [#0],#1;\n");
    let l0 = "    st.global.f32 [#0],#1;\n"@;
    let i0 = Insn { op: "st.global.f32"@, args: seq!["["@ + args[0] + "]"@, args[1]] };
    reveal_strlit("    st.global.f32 [#0+4],#2;\n");
    let l1 = "    st.global.f32 [#0+4],#2;\n"@;
    let i1 = Insn { op: "st.global.f32"@, args: seq!["["@ + args[0] + "+4]"@, args[2]] };
    assert(t =~= l0 + l1);
    act_store_scalar_0(args);
    let q0 = seq![i0];
    act_store_scalar_1(args);
    frames::lemma_fill_add(l0, l1, args);
    machine::lemma_reads_add(text::fill(l0, args), q0, text::fill(l1, args), seq![i1]);
    let q1 = q0 + seq![i1];
    assert(q1 =~= seq![Insn { op: "st.global.f32"@, args: seq!["["@ + args[0] + "]"@, args[1]] }, Insn { op: "st.global.f32"@, args: seq!["["@ + args[0] + "+4]"@, args[2]] }]);
}

/// `st.global.v2.f32 [#0],{#1,#2};`
proof fn act_store_v2_0(args: Seq<Seq<char>>)
    requires
        args.len() > 2,
        operand(args[0]),
        operand(args[1]),
        operand(args[2]),
    ensures
        reads(
            text::fill("    st.global.v2.f32 [#0],{#1,#2};\n"@, args),
            seq![Insn { op: "st.global.v2.f32"@, args: seq!["["@ + args[0] + "]"@, "{"@ + args[1], args[2] + "}"@] }],
        ),
{
    reveal_strlit("    st.global.v2.f32 [");
    reveal_strlit("    st.global.v2.f32 [#0],{#1,#2};\n");
    reveal_strlit(",");
    reveal_strlit("[");
    reveal_strlit("]");
    reveal_strlit("],{");
    reveal_strlit("st.global.v2.f32");
    reveal_strlit("{");
    reveal_strlit("}");
    reveal_strlit("};\n");
    let whole = "    st.global.v2.f32 [#0],{#1,#2};\n"@;
    let x0 = "    st.global.v2.f32 ["@;
    frames::lemma_fill_plain(x0, args);
    let x1 = seq!['#', '0'];
    lemma_hole('0', args);
    let x2 = "],{"@;
    frames::lemma_fill_plain(x2, args);
    let x3 = seq!['#', '1'];
    lemma_hole('1', args);
    let x4 = ","@;
    frames::lemma_fill_plain(x4, args);
    let x5 = seq!['#', '2'];
    lemma_hole('2', args);
    let x6 = "};\n"@;
    frames::lemma_fill_plain(x6, args);
    assert(whole =~= x0 + x1 + x2 + x3 + x4 + x5 + x6);
    frames::lemma_fill_add(x0, x1, args);
    frames::lemma_fill_add(x0 + x1, x2, args);
    frames::lemma_fill_add(x0 + x1 + x2, x3, args);
    frames::lemma_fill_add(x0 + x1 + x2 + x3, x4, args);
    frames::lemma_fill_add(x0 + x1 + x2 + x3 + x4, x5, args);
    frames::lemma_fill_add(x0 + x1 + x2 + x3 + x4 + x5, x6, args);
    let op = "st.global.v2.f32"@;
    let given = seq!["["@ + args[0] + "]"@, "{"@ + args[1], args[2] + "}"@];
    machine::lemma_listed3("["@ + args[0] + "]"@, "{"@ + args[1], args[2] + "}"@);
    assert(text::fill(whole, args) =~= machine::line(op, given));
    machine::lemma_reads_line(op, given);
}

/// What [`act::STORE_V2`] spells.
pub proof fn lemma_act_store_v2(args: Seq<Seq<char>>)
    requires
        args.len() > 2,
        operand(args[0]),
        operand(args[1]),
        operand(args[2]),
    ensures
        reads(
            text::fill(act::STORE_V2@, args),
            seq![Insn { op: "st.global.v2.f32"@, args: seq!["["@ + args[0] + "]"@, "{"@ + args[1], args[2] + "}"@] }],
        ),
{
    let t = act::STORE_V2@;
    reveal_strlit("    st.global.v2.f32 [#0],{#1,#2};\n");
    reveal_strlit("    st.global.v2.f32 [#0],{#1,#2};\n");
    let l0 = "    st.global.v2.f32 [#0],{#1,#2};\n"@;
    let i0 = Insn { op: "st.global.v2.f32"@, args: seq!["["@ + args[0] + "]"@, "{"@ + args[1], args[2] + "}"@] };
    assert(t =~= l0);
    act_store_v2_0(args);
    let q0 = seq![i0];
    assert(q0 =~= seq![Insn { op: "st.global.v2.f32"@, args: seq!["["@ + args[0] + "]"@, "{"@ + args[1], args[2] + "}"@] }]);
}

/// `st.global.cs.v2.f32 [#0],{#1,#2};`
proof fn act_store_v2cs_0(args: Seq<Seq<char>>)
    requires
        args.len() > 2,
        operand(args[0]),
        operand(args[1]),
        operand(args[2]),
    ensures
        reads(
            text::fill("    st.global.cs.v2.f32 [#0],{#1,#2};\n"@, args),
            seq![Insn { op: "st.global.cs.v2.f32"@, args: seq!["["@ + args[0] + "]"@, "{"@ + args[1], args[2] + "}"@] }],
        ),
{
    reveal_strlit("    st.global.cs.v2.f32 [");
    reveal_strlit("    st.global.cs.v2.f32 [#0],{#1,#2};\n");
    reveal_strlit(",");
    reveal_strlit("[");
    reveal_strlit("]");
    reveal_strlit("],{");
    reveal_strlit("st.global.cs.v2.f32");
    reveal_strlit("{");
    reveal_strlit("}");
    reveal_strlit("};\n");
    let whole = "    st.global.cs.v2.f32 [#0],{#1,#2};\n"@;
    let x0 = "    st.global.cs.v2.f32 ["@;
    frames::lemma_fill_plain(x0, args);
    let x1 = seq!['#', '0'];
    lemma_hole('0', args);
    let x2 = "],{"@;
    frames::lemma_fill_plain(x2, args);
    let x3 = seq!['#', '1'];
    lemma_hole('1', args);
    let x4 = ","@;
    frames::lemma_fill_plain(x4, args);
    let x5 = seq!['#', '2'];
    lemma_hole('2', args);
    let x6 = "};\n"@;
    frames::lemma_fill_plain(x6, args);
    assert(whole =~= x0 + x1 + x2 + x3 + x4 + x5 + x6);
    frames::lemma_fill_add(x0, x1, args);
    frames::lemma_fill_add(x0 + x1, x2, args);
    frames::lemma_fill_add(x0 + x1 + x2, x3, args);
    frames::lemma_fill_add(x0 + x1 + x2 + x3, x4, args);
    frames::lemma_fill_add(x0 + x1 + x2 + x3 + x4, x5, args);
    frames::lemma_fill_add(x0 + x1 + x2 + x3 + x4 + x5, x6, args);
    let op = "st.global.cs.v2.f32"@;
    let given = seq!["["@ + args[0] + "]"@, "{"@ + args[1], args[2] + "}"@];
    machine::lemma_listed3("["@ + args[0] + "]"@, "{"@ + args[1], args[2] + "}"@);
    assert(text::fill(whole, args) =~= machine::line(op, given));
    machine::lemma_reads_line(op, given);
}

/// What [`act::STORE_V2CS`] spells.
pub proof fn lemma_act_store_v2cs(args: Seq<Seq<char>>)
    requires
        args.len() > 2,
        operand(args[0]),
        operand(args[1]),
        operand(args[2]),
    ensures
        reads(
            text::fill(act::STORE_V2CS@, args),
            seq![Insn { op: "st.global.cs.v2.f32"@, args: seq!["["@ + args[0] + "]"@, "{"@ + args[1], args[2] + "}"@] }],
        ),
{
    let t = act::STORE_V2CS@;
    reveal_strlit("    st.global.cs.v2.f32 [#0],{#1,#2};\n");
    reveal_strlit("    st.global.cs.v2.f32 [#0],{#1,#2};\n");
    let l0 = "    st.global.cs.v2.f32 [#0],{#1,#2};\n"@;
    let i0 = Insn { op: "st.global.cs.v2.f32"@, args: seq!["["@ + args[0] + "]"@, "{"@ + args[1], args[2] + "}"@] };
    assert(t =~= l0);
    act_store_v2cs_0(args);
    let q0 = seq![i0];
    assert(q0 =~= seq![Insn { op: "st.global.cs.v2.f32"@, args: seq!["["@ + args[0] + "]"@, "{"@ + args[1], args[2] + "}"@] }]);
}

} // verus!
