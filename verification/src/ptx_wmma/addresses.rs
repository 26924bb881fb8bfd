//! What the templates of the kernels spell: see [`machine`].
use vstd::prelude::*;

use crate::ptx_wmma::frames;
use crate::ptx_wmma::machine;
use crate::ptx_wmma::mma;
use crate::ptx_wmma::parts;
use crate::ptx_wmma::pipeline;
use crate::ptx_wmma::machine::{lacks, operand, reads, Insn};
use crate::text;

verus! {

/// A hole is filled by its argument.
proof fn lemma_hole(c: char, args: Seq<Seq<char>>)
    requires
        '0' <= c,
        (c as int - '0' as int) < args.len(),
    ensures
        text::fill(seq!['#', c], args) == args[c as int - '0' as int],
{
    reveal_with_fuel(text::fill, 3);
    let t = seq!['#', c];
    assert(t.drop_last() =~= seq!['#']);
    assert(seq!['#'].drop_last() =~= Seq::<char>::empty());
    assert(text::fill(t, args) =~= args[c as int - '0' as int]);
}

/// `mov.u32 %tix,%tid.x;`
proof fn mma_lanes_0(args: Seq<Seq<char>>)
    ensures
        reads(
            text::fill("    mov.u32 %tix,%tid.x;\n"@, args),
            seq![Insn { op: "mov.u32"@, args: seq!["%tix"@, "%tid.x"@] }],
        ),
{
    reveal_strlit("    mov.u32 %tix,%tid.x;\n");
    reveal_strlit("%tid.x");
    reveal_strlit("%tix");
    reveal_strlit("mov.u32");
    frames::lemma_fill_plain("    mov.u32 %tix,%tid.x;\n"@, args);
    let op = "mov.u32"@;
    let given = seq!["%tix"@, "%tid.x"@];
    machine::lemma_listed2("%tix"@, "%tid.x"@);
    assert(text::fill("    mov.u32 %tix,%tid.x;\n"@, args) =~= machine::line(op, given));
    machine::lemma_reads_line(op, given);
}

/// `shr.u32 %warpId,%tix,5;`
proof fn mma_lanes_1(args: Seq<Seq<char>>)
    ensures
        reads(
            text::fill("    shr.u32 %warpId,%tix,5;\n"@, args),
            seq![Insn { op: "shr.u32"@, args: seq!["%warpId"@, "%tix"@, "5"@] }],
        ),
{
    reveal_strlit("    shr.u32 %warpId,%tix,5;\n");
    reveal_strlit("%tix");
    reveal_strlit("%warpId");
    reveal_strlit("5");
    reveal_strlit("shr.u32");
    frames::lemma_fill_plain("    shr.u32 %warpId,%tix,5;\n"@, args);
    let op = "shr.u32"@;
    let given = seq!["%warpId"@, "%tix"@, "5"@];
    machine::lemma_listed3("%warpId"@, "%tix"@, "5"@);
    assert(text::fill("    shr.u32 %warpId,%tix,5;\n"@, args) =~= machine::line(op, given));
    machine::lemma_reads_line(op, given);
}

/// `and.b32 %lane,%tix,31;`
proof fn mma_lanes_2(args: Seq<Seq<char>>)
    ensures
        reads(
            text::fill("    and.b32 %lane,%tix,31;\n"@, args),
            seq![Insn { op: "and.b32"@, args: seq!["%lane"@, "%tix"@, "31"@] }],
        ),
{
    reveal_strlit("    and.b32 %lane,%tix,31;\n");
    reveal_strlit("%lane");
    reveal_strlit("%tix");
    reveal_strlit("31");
    reveal_strlit("and.b32");
    frames::lemma_fill_plain("    and.b32 %lane,%tix,31;\n"@, args);
    let op = "and.b32"@;
    let given = seq!["%lane"@, "%tix"@, "31"@];
    machine::lemma_listed3("%lane"@, "%tix"@, "31"@);
    assert(text::fill("    and.b32 %lane,%tix,31;\n"@, args) =~= machine::line(op, given));
    machine::lemma_reads_line(op, given);
}

/// `shr.u32 %grp,%lane,2;`
proof fn mma_lanes_3(args: Seq<Seq<char>>)
    ensures
        reads(
            text::fill("    shr.u32 %grp,%lane,2;\n"@, args),
            seq![Insn { op: "shr.u32"@, args: seq!["%grp"@, "%lane"@, "2"@] }],
        ),
{
    reveal_strlit("    shr.u32 %grp,%lane,2;\n");
    reveal_strlit("%grp");
    reveal_strlit("%lane");
    reveal_strlit("2");
    reveal_strlit("shr.u32");
    frames::lemma_fill_plain("    shr.u32 %grp,%lane,2;\n"@, args);
    let op = "shr.u32"@;
    let given = seq!["%grp"@, "%lane"@, "2"@];
    machine::lemma_listed3("%grp"@, "%lane"@, "2"@);
    assert(text::fill("    shr.u32 %grp,%lane,2;\n"@, args) =~= machine::line(op, given));
    machine::lemma_reads_line(op, given);
}

/// `and.b32 %tg,%lane,3;`
proof fn mma_lanes_4(args: Seq<Seq<char>>)
    ensures
        reads(
            text::fill("    and.b32 %tg,%lane,3;\n"@, args),
            seq![Insn { op: "and.b32"@, args: seq!["%tg"@, "%lane"@, "3"@] }],
        ),
{
    reveal_strlit("    and.b32 %tg,%lane,3;\n");
    reveal_strlit("%lane");
    reveal_strlit("%tg");
    reveal_strlit("3");
    reveal_strlit("and.b32");
    frames::lemma_fill_plain("    and.b32 %tg,%lane,3;\n"@, args);
    let op = "and.b32"@;
    let given = seq!["%tg"@, "%lane"@, "3"@];
    machine::lemma_listed3("%tg"@, "%lane"@, "3"@);
    assert(text::fill("    and.b32 %tg,%lane,3;\n"@, args) =~= machine::line(op, given));
    machine::lemma_reads_line(op, given);
}

/// `shl.b32 %tg2,%tg,1;`
proof fn mma_lanes_5(args: Seq<Seq<char>>)
    ensures
        reads(
            text::fill("    shl.b32 %tg2,%tg,1;\n"@, args),
            seq![Insn { op: "shl.b32"@, args: seq!["%tg2"@, "%tg"@, "1"@] }],
        ),
{
    reveal_strlit("    shl.b32 %tg2,%tg,1;\n");
    reveal_strlit("%tg");
    reveal_strlit("%tg2");
    reveal_strlit("1");
    reveal_strlit("shl.b32");
    frames::lemma_fill_plain("    shl.b32 %tg2,%tg,1;\n"@, args);
    let op = "shl.b32"@;
    let given = seq!["%tg2"@, "%tg"@, "1"@];
    machine::lemma_listed3("%tg2"@, "%tg"@, "1"@);
    assert(text::fill("    shl.b32 %tg2,%tg,1;\n"@, args) =~= machine::line(op, given));
    machine::lemma_reads_line(op, given);
}

/// `shr.u32 %warpRow,%warpId,#0;`
proof fn mma_lanes_6(args: Seq<Seq<char>>)
    requires
        args.len() > 0,
        operand(args[0]),
    ensures
        reads(
            text::fill("    shr.u32 %warpRow,%warpId,#0;\n"@, args),
            seq![Insn { op: "shr.u32"@, args: seq!["%warpRow"@, "%warpId"@, args[0]] }],
        ),
{
    reveal_strlit("    shr.u32 %warpRow,%warpId,");
    reveal_strlit("    shr.u32 %warpRow,%warpId,#0;\n");
    reveal_strlit("%warpId");
    reveal_strlit("%warpRow");
    reveal_strlit(";\n");
    reveal_strlit("shr.u32");
    let whole = "    shr.u32 %warpRow,%warpId,#0;\n"@;
    let x0 = "    shr.u32 %warpRow,%warpId,"@;
    frames::lemma_fill_plain(x0, args);
    let x1 = seq!['#', '0'];
    lemma_hole('0', args);
    let x2 = ";\n"@;
    frames::lemma_fill_plain(x2, args);
    assert(whole =~= x0 + x1 + x2);
    frames::lemma_fill_add(x0, x1, args);
    frames::lemma_fill_add(x0 + x1, x2, args);
    let op = "shr.u32"@;
    let given = seq!["%warpRow"@, "%warpId"@, args[0]];
    machine::lemma_listed3("%warpRow"@, "%warpId"@, args[0]);
    assert(text::fill(whole, args) =~= machine::line(op, given));
    machine::lemma_reads_line(op, given);
}

/// `and.b32 %warpCol,%warpId,#1;`
proof fn mma_lanes_7(args: Seq<Seq<char>>)
    requires
        args.len() > 1,
        operand(args[1]),
    ensures
        reads(
            text::fill("    and.b32 %warpCol,%warpId,#1;\n"@, args),
            seq![Insn { op: "and.b32"@, args: seq!["%warpCol"@, "%warpId"@, args[1]] }],
        ),
{
    reveal_strlit("    and.b32 %warpCol,%warpId,");
    reveal_strlit("    and.b32 %warpCol,%warpId,#1;\n");
    reveal_strlit("%warpCol");
    reveal_strlit("%warpId");
    reveal_strlit(";\n");
    reveal_strlit("and.b32");
    let whole = "    and.b32 %warpCol,%warpId,#1;\n"@;
    let x0 = "    and.b32 %warpCol,%warpId,"@;
    frames::lemma_fill_plain(x0, args);
    let x1 = seq!['#', '1'];
    lemma_hole('1', args);
    let x2 = ";\n"@;
    frames::lemma_fill_plain(x2, args);
    assert(whole =~= x0 + x1 + x2);
    frames::lemma_fill_add(x0, x1, args);
    frames::lemma_fill_add(x0 + x1, x2, args);
    let op = "and.b32"@;
    let given = seq!["%warpCol"@, "%warpId"@, args[1]];
    machine::lemma_listed3("%warpCol"@, "%warpId"@, args[1]);
    assert(text::fill(whole, args) =~= machine::line(op, given));
    machine::lemma_reads_line(op, given);
}

/// `mul.lo.s32 %warpMrow,%warpRow,#2;`
proof fn mma_lanes_8(args: Seq<Seq<char>>)
    requires
        args.len() > 2,
        operand(args[2]),
    ensures
        reads(
            text::fill("    mul.lo.s32 %warpMrow,%warpRow,#2;\n"@, args),
            seq![Insn { op: "mul.lo.s32"@, args: seq!["%warpMrow"@, "%warpRow"@, args[2]] }],
        ),
{
    reveal_strlit("    mul.lo.s32 %warpMrow,%warpRow,");
    reveal_strlit("    mul.lo.s32 %warpMrow,%warpRow,#2;\n");
    reveal_strlit("%warpMrow");
    reveal_strlit("%warpRow");
    reveal_strlit(";\n");
    reveal_strlit("mul.lo.s32");
    let whole = "    mul.lo.s32 %warpMrow,%warpRow,#2;\n"@;
    let x0 = "    mul.lo.s32 %warpMrow,%warpRow,"@;
    frames::lemma_fill_plain(x0, args);
    let x1 = seq!['#', '2'];
    lemma_hole('2', args);
    let x2 = ";\n"@;
    frames::lemma_fill_plain(x2, args);
    assert(whole =~= x0 + x1 + x2);
    frames::lemma_fill_add(x0, x1, args);
    frames::lemma_fill_add(x0 + x1, x2, args);
    let op = "mul.lo.s32"@;
    let given = seq!["%warpMrow"@, "%warpRow"@, args[2]];
    machine::lemma_listed3("%warpMrow"@, "%warpRow"@, args[2]);
    assert(text::fill(whole, args) =~= machine::line(op, given));
    machine::lemma_reads_line(op, given);
}

/// `mul.lo.s32 %warpNcol,%warpCol,#3;`
proof fn mma_lanes_9(args: Seq<Seq<char>>)
    requires
        args.len() > 3,
        operand(args[3]),
    ensures
        reads(
            text::fill("    mul.lo.s32 %warpNcol,%warpCol,#3;\n"@, args),
            seq![Insn { op: "mul.lo.s32"@, args: seq!["%warpNcol"@, "%warpCol"@, args[3]] }],
        ),
{
    reveal_strlit("    mul.lo.s32 %warpNcol,%warpCol,");
    reveal_strlit("    mul.lo.s32 %warpNcol,%warpCol,#3;\n");
    reveal_strlit("%warpCol");
    reveal_strlit("%warpNcol");
    reveal_strlit(";\n");
    reveal_strlit("mul.lo.s32");
    let whole = "    mul.lo.s32 %warpNcol,%warpCol,#3;\n"@;
    let x0 = "    mul.lo.s32 %warpNcol,%warpCol,"@;
    frames::lemma_fill_plain(x0, args);
    let x1 = seq!['#', '3'];
    lemma_hole('3', args);
    let x2 = ";\n"@;
    frames::lemma_fill_plain(x2, args);
    assert(whole =~= x0 + x1 + x2);
    frames::lemma_fill_add(x0, x1, args);
    frames::lemma_fill_add(x0 + x1, x2, args);
    let op = "mul.lo.s32"@;
    let given = seq!["%warpNcol"@, "%warpCol"@, args[3]];
    machine::lemma_listed3("%warpNcol"@, "%warpCol"@, args[3]);
    assert(text::fill(whole, args) =~= machine::line(op, given));
    machine::lemma_reads_line(op, given);
}

/// `mul.lo.s32 %laneoff,%grp,#4;`
proof fn mma_lanes_10(args: Seq<Seq<char>>)
    requires
        args.len() > 4,
        operand(args[4]),
    ensures
        reads(
            text::fill("    mul.lo.s32 %laneoff,%grp,#4;\n"@, args),
            seq![Insn { op: "mul.lo.s32"@, args: seq!["%laneoff"@, "%grp"@, args[4]] }],
        ),
{
    reveal_strlit("    mul.lo.s32 %laneoff,%grp,");
    reveal_strlit("    mul.lo.s32 %laneoff,%grp,#4;\n");
    reveal_strlit("%grp");
    reveal_strlit("%laneoff");
    reveal_strlit(";\n");
    reveal_strlit("mul.lo.s32");
    let whole = "    mul.lo.s32 %laneoff,%grp,#4;\n"@;
    let x0 = "    mul.lo.s32 %laneoff,%grp,"@;
    frames::lemma_fill_plain(x0, args);
    let x1 = seq!['#', '4'];
    lemma_hole('4', args);
    let x2 = ";\n"@;
    frames::lemma_fill_plain(x2, args);
    assert(whole =~= x0 + x1 + x2);
    frames::lemma_fill_add(x0, x1, args);
    frames::lemma_fill_add(x0 + x1, x2, args);
    let op = "mul.lo.s32"@;
    let given = seq!["%laneoff"@, "%grp"@, args[4]];
    machine::lemma_listed3("%laneoff"@, "%grp"@, args[4]);
    assert(text::fill(whole, args) =~= machine::line(op, given));
    machine::lemma_reads_line(op, given);
}

/// `add.u32 %laneoff,%laneoff,%tg2;`
proof fn mma_lanes_11(args: Seq<Seq<char>>)
    ensures
        reads(
            text::fill("    add.u32 %laneoff,%laneoff,%tg2;\n"@, args),
            seq![Insn { op: "add.u32"@, args: seq!["%laneoff"@, "%laneoff"@, "%tg2"@] }],
        ),
{
    reveal_strlit("    add.u32 %laneoff,%laneoff,%tg2;\n");
    reveal_strlit("%laneoff");
    reveal_strlit("%tg2");
    reveal_strlit("add.u32");
    frames::lemma_fill_plain("    add.u32 %laneoff,%laneoff,%tg2;\n"@, args);
    let op = "add.u32"@;
    let given = seq!["%laneoff"@, "%laneoff"@, "%tg2"@];
    machine::lemma_listed3("%laneoff"@, "%laneoff"@, "%tg2"@);
    assert(text::fill("    add.u32 %laneoff,%laneoff,%tg2;\n"@, args) =~= machine::line(op, given));
    machine::lemma_reads_line(op, given);
}

/// `shl.b32 %laneoff,%laneoff,1;`
proof fn mma_lanes_12(args: Seq<Seq<char>>)
    ensures
        reads(
            text::fill("    shl.b32 %laneoff,%laneoff,1;\n"@, args),
            seq![Insn { op: "shl.b32"@, args: seq!["%laneoff"@, "%laneoff"@, "1"@] }],
        ),
{
    reveal_strlit("    shl.b32 %laneoff,%laneoff,1;\n");
    reveal_strlit("%laneoff");
    reveal_strlit("1");
    reveal_strlit("shl.b32");
    frames::lemma_fill_plain("    shl.b32 %laneoff,%laneoff,1;\n"@, args);
    let op = "shl.b32"@;
    let given = seq!["%laneoff"@, "%laneoff"@, "1"@];
    machine::lemma_listed3("%laneoff"@, "%laneoff"@, "1"@);
    assert(text::fill("    shl.b32 %laneoff,%laneoff,1;\n"@, args) =~= machine::line(op, given));
    machine::lemma_reads_line(op, given);
}

/// What [`mma::LANES`] spells.
pub proof fn lemma_mma_lanes(args: Seq<Seq<char>>)
    requires
        args.len() > 4,
        operand(args[0]),
        operand(args[1]),
        operand(args[2]),
        operand(args[3]),
        operand(args[4]),
    ensures
        reads(
            text::fill(mma::LANES@, args),
            seq![Insn { op: "mov.u32"@, args: seq!["%tix"@, "%tid.x"@] }, Insn { op: "shr.u32"@, args: seq!["%warpId"@, "%tix"@, "5"@] }, Insn { op: "and.b32"@, args: seq!["%lane"@, "%tix"@, "31"@] }, Insn { op: "shr.u32"@, args: seq!["%grp"@, "%lane"@, "2"@] }, Insn { op: "and.b32"@, args: seq!["%tg"@, "%lane"@, "3"@] }, Insn { op: "shl.b32"@, args: seq!["%tg2"@, "%tg"@, "1"@] }, Insn { op: "shr.u32"@, args: seq!["%warpRow"@, "%warpId"@, args[0]] }, Insn { op: "and.b32"@, args: seq!["%warpCol"@, "%warpId"@, args[1]] }, Insn { op: "mul.lo.s32"@, args: seq!["%warpMrow"@, "%warpRow"@, args[2]] }, Insn { op: "mul.lo.s32"@, args: seq!["%warpNcol"@, "%warpCol"@, args[3]] }, Insn { op: "mul.lo.s32"@, args: seq!["%laneoff"@, "%grp"@, args[4]] }, Insn { op: "add.u32"@, args: seq!["%laneoff"@, "%laneoff"@, "%tg2"@] }, Insn { op: "shl.b32"@, args: seq!["%laneoff"@, "%laneoff"@, "1"@] }],
        ),
{
    let t = mma::LANES@;
    reveal_strlit("    mov.u32 %tix,%tid.x;\n    shr.u32 %warpId,%tix,5;\n    and.b32 %lane,%tix,31;\n    shr.u32 %grp,%lane,2;\n    and.b32 %tg,%lane,3;\n    shl.b32 %tg2,%tg,1;\n    shr.u32 %warpRow,%warpId,#0;\n    and.b32 %warpCol,%warpId,#1;\n    mul.lo.s32 %warpMrow,%warpRow,#2;\n    mul.lo.s32 %warpNcol,%warpCol,#3;\n    mul.lo.s32 %laneoff,%grp,#4;\n    add.u32 %laneoff,%laneoff,%tg2;\n    shl.b32 %laneoff,%laneoff,1;\n");
    reveal_strlit("    mov.u32 %tix,%tid.x;\n");
    let l0 = "    mov.u32 %tix,%tid.x;\n"@;
    let i0 = Insn { op: "mov.u32"@, args: seq!["%tix"@, "%tid.x"@] };
    reveal_strlit("    shr.u32 %warpId,%tix,5;\n");
    let l1 = "    shr.u32 %warpId,%tix,5;\n"@;
    let i1 = Insn { op: "shr.u32"@, args: seq!["%warpId"@, "%tix"@, "5"@] };
    reveal_strlit("    and.b32 %lane,%tix,31;\n");
    let l2 = "    and.b32 %lane,%tix,31;\n"@;
    let i2 = Insn { op: "and.b32"@, args: seq!["%lane"@, "%tix"@, "31"@] };
    reveal_strlit("    shr.u32 %grp,%lane,2;\n");
    let l3 = "    shr.u32 %grp,%lane,2;\n"@;
    let i3 = Insn { op: "shr.u32"@, args: seq!["%grp"@, "%lane"@, "2"@] };
    reveal_strlit("    and.b32 %tg,%lane,3;\n");
    let l4 = "    and.b32 %tg,%lane,3;\n"@;
    let i4 = Insn { op: "and.b32"@, args: seq!["%tg"@, "%lane"@, "3"@] };
    reveal_strlit("    shl.b32 %tg2,%tg,1;\n");
    let l5 = "    shl.b32 %tg2,%tg,1;\n"@;
    let i5 = Insn { op: "shl.b32"@, args: seq!["%tg2"@, "%tg"@, "1"@] };
    reveal_strlit("    shr.u32 %warpRow,%warpId,#0;\n");
    let l6 = "    shr.u32 %warpRow,%warpId,#0;\n"@;
    let i6 = Insn { op: "shr.u32"@, args: seq!["%warpRow"@, "%warpId"@, args[0]] };
    reveal_strlit("    and.b32 %warpCol,%warpId,#1;\n");
    let l7 = "    and.b32 %warpCol,%warpId,#1;\n"@;
    let i7 = Insn { op: "and.b32"@, args: seq!["%warpCol"@, "%warpId"@, args[1]] };
    reveal_strlit("    mul.lo.s32 %warpMrow,%warpRow,#2;\n");
    let l8 = "    mul.lo.s32 %warpMrow,%warpRow,#2;\n"@;
    let i8 = Insn { op: "mul.lo.s32"@, args: seq!["%warpMrow"@, "%warpRow"@, args[2]] };
    reveal_strlit("    mul.lo.s32 %warpNcol,%warpCol,#3;\n");
    let l9 = "    mul.lo.s32 %warpNcol,%warpCol,#3;\n"@;
    let i9 = Insn { op: "mul.lo.s32"@, args: seq!["%warpNcol"@, "%warpCol"@, args[3]] };
    reveal_strlit("    mul.lo.s32 %laneoff,%grp,#4;\n");
    let l10 = "    mul.lo.s32 %laneoff,%grp,#4;\n"@;
    let i10 = Insn { op: "mul.lo.s32"@, args: seq!["%laneoff"@, "%grp"@, args[4]] };
    reveal_strlit("    add.u32 %laneoff,%laneoff,%tg2;\n");
    let l11 = "    add.u32 %laneoff,%laneoff,%tg2;\n"@;
    let i11 = Insn { op: "add.u32"@, args: seq!["%laneoff"@, "%laneoff"@, "%tg2"@] };
    reveal_strlit("    shl.b32 %laneoff,%laneoff,1;\n");
    let l12 = "    shl.b32 %laneoff,%laneoff,1;\n"@;
    let i12 = Insn { op: "shl.b32"@, args: seq!["%laneoff"@, "%laneoff"@, "1"@] };
    assert(t =~= l0 + l1 + l2 + l3 + l4 + l5 + l6 + l7 + l8 + l9 + l10 + l11 + l12);
    mma_lanes_0(args);
    let q0 = seq![i0];
    mma_lanes_1(args);
    frames::lemma_fill_add(l0, l1, args);
    machine::lemma_reads_add(text::fill(l0, args), q0, text::fill(l1, args), seq![i1]);
    let q1 = q0 + seq![i1];
    mma_lanes_2(args);
    frames::lemma_fill_add(l0 + l1, l2, args);
    machine::lemma_reads_add(text::fill(l0 + l1, args), q1, text::fill(l2, args), seq![i2]);
    let q2 = q1 + seq![i2];
    mma_lanes_3(args);
    frames::lemma_fill_add(l0 + l1 + l2, l3, args);
    machine::lemma_reads_add(text::fill(l0 + l1 + l2, args), q2, text::fill(l3, args), seq![i3]);
    let q3 = q2 + seq![i3];
    mma_lanes_4(args);
    frames::lemma_fill_add(l0 + l1 + l2 + l3, l4, args);
    machine::lemma_reads_add(text::fill(l0 + l1 + l2 + l3, args), q3, text::fill(l4, args), seq![i4]);
    let q4 = q3 + seq![i4];
    mma_lanes_5(args);
    frames::lemma_fill_add(l0 + l1 + l2 + l3 + l4, l5, args);
    machine::lemma_reads_add(text::fill(l0 + l1 + l2 + l3 + l4, args), q4, text::fill(l5, args), seq![i5]);
    let q5 = q4 + seq![i5];
    mma_lanes_6(args);
    frames::lemma_fill_add(l0 + l1 + l2 + l3 + l4 + l5, l6, args);
    machine::lemma_reads_add(text::fill(l0 + l1 + l2 + l3 + l4 + l5, args), q5, text::fill(l6, args), seq![i6]);
    let q6 = q5 + seq![i6];
    mma_lanes_7(args);
    frames::lemma_fill_add(l0 + l1 + l2 + l3 + l4 + l5 + l6, l7, args);
    machine::lemma_reads_add(text::fill(l0 + l1 + l2 + l3 + l4 + l5 + l6, args), q6, text::fill(l7, args), seq![i7]);
    let q7 = q6 + seq![i7];
    mma_lanes_8(args);
    frames::lemma_fill_add(l0 + l1 + l2 + l3 + l4 + l5 + l6 + l7, l8, args);
    machine::lemma_reads_add(text::fill(l0 + l1 + l2 + l3 + l4 + l5 + l6 + l7, args), q7, text::fill(l8, args), seq![i8]);
    let q8 = q7 + seq![i8];
    mma_lanes_9(args);
    frames::lemma_fill_add(l0 + l1 + l2 + l3 + l4 + l5 + l6 + l7 + l8, l9, args);
    machine::lemma_reads_add(text::fill(l0 + l1 + l2 + l3 + l4 + l5 + l6 + l7 + l8, args), q8, text::fill(l9, args), seq![i9]);
    let q9 = q8 + seq![i9];
    mma_lanes_10(args);
    frames::lemma_fill_add(l0 + l1 + l2 + l3 + l4 + l5 + l6 + l7 + l8 + l9, l10, args);
    machine::lemma_reads_add(text::fill(l0 + l1 + l2 + l3 + l4 + l5 + l6 + l7 + l8 + l9, args), q9, text::fill(l10, args), seq![i10]);
    let q10 = q9 + seq![i10];
    mma_lanes_11(args);
    frames::lemma_fill_add(l0 + l1 + l2 + l3 + l4 + l5 + l6 + l7 + l8 + l9 + l10, l11, args);
    machine::lemma_reads_add(text::fill(l0 + l1 + l2 + l3 + l4 + l5 + l6 + l7 + l8 + l9 + l10, args), q10, text::fill(l11, args), seq![i11]);
    let q11 = q10 + seq![i11];
    mma_lanes_12(args);
    frames::lemma_fill_add(l0 + l1 + l2 + l3 + l4 + l5 + l6 + l7 + l8 + l9 + l10 + l11, l12, args);
    machine::lemma_reads_add(text::fill(l0 + l1 + l2 + l3 + l4 + l5 + l6 + l7 + l8 + l9 + l10 + l11, args), q11, text::fill(l12, args), seq![i12]);
    let q12 = q11 + seq![i12];
    assert(q12 =~= seq![Insn { op: "mov.u32"@, args: seq!["%tix"@, "%tid.x"@] }, Insn { op: "shr.u32"@, args: seq!["%warpId"@, "%tix"@, "5"@] }, Insn { op: "and.b32"@, args: seq!["%lane"@, "%tix"@, "31"@] }, Insn { op: "shr.u32"@, args: seq!["%grp"@, "%lane"@, "2"@] }, Insn { op: "and.b32"@, args: seq!["%tg"@, "%lane"@, "3"@] }, Insn { op: "shl.b32"@, args: seq!["%tg2"@, "%tg"@, "1"@] }, Insn { op: "shr.u32"@, args: seq!["%warpRow"@, "%warpId"@, args[0]] }, Insn { op: "and.b32"@, args: seq!["%warpCol"@, "%warpId"@, args[1]] }, Insn { op: "mul.lo.s32"@, args: seq!["%warpMrow"@, "%warpRow"@, args[2]] }, Insn { op: "mul.lo.s32"@, args: seq!["%warpNcol"@, "%warpCol"@, args[3]] }, Insn { op: "mul.lo.s32"@, args: seq!["%laneoff"@, "%grp"@, args[4]] }, Insn { op: "add.u32"@, args: seq!["%laneoff"@, "%laneoff"@, "%tg2"@] }, Insn { op: "shl.b32"@, args: seq!["%laneoff"@, "%laneoff"@, "1"@] }]);
}

/// `and.b32 %tmp,%lane,15;`
proof fn mma_swizzle_lanes_0(args: Seq<Seq<char>>)
    ensures
        reads(
            text::fill("    and.b32 %tmp,%lane,15;\n"@, args),
            seq![Insn { op: "and.b32"@, args: seq!["%tmp"@, "%lane"@, "15"@] }],
        ),
{
    reveal_strlit("    and.b32 %tmp,%lane,15;\n");
    reveal_strlit("%lane");
    reveal_strlit("%tmp");
    reveal_strlit("15");
    reveal_strlit("and.b32");
    frames::lemma_fill_plain("    and.b32 %tmp,%lane,15;\n"@, args);
    let op = "and.b32"@;
    let given = seq!["%tmp"@, "%lane"@, "15"@];
    machine::lemma_listed3("%tmp"@, "%lane"@, "15"@);
    assert(text::fill("    and.b32 %tmp,%lane,15;\n"@, args) =~= machine::line(op, given));
    machine::lemma_reads_line(op, given);
}

/// `add.u32 %tmp2,%tmp,%warpMrow;`
proof fn mma_swizzle_lanes_1(args: Seq<Seq<char>>)
    ensures
        reads(
            text::fill("    add.u32 %tmp2,%tmp,%warpMrow;\n"@, args),
            seq![Insn { op: "add.u32"@, args: seq!["%tmp2"@, "%tmp"@, "%warpMrow"@] }],
        ),
{
    reveal_strlit("    add.u32 %tmp2,%tmp,%warpMrow;\n");
    reveal_strlit("%tmp");
    reveal_strlit("%tmp2");
    reveal_strlit("%warpMrow");
    reveal_strlit("add.u32");
    frames::lemma_fill_plain("    add.u32 %tmp2,%tmp,%warpMrow;\n"@, args);
    let op = "add.u32"@;
    let given = seq!["%tmp2"@, "%tmp"@, "%warpMrow"@];
    machine::lemma_listed3("%tmp2"@, "%tmp"@, "%warpMrow"@);
    assert(text::fill("    add.u32 %tmp2,%tmp,%warpMrow;\n"@, args) =~= machine::line(op, given));
    machine::lemma_reads_line(op, given);
}

/// `mul.lo.s32 %arowb,%tmp2,#0;`
proof fn mma_swizzle_lanes_2(args: Seq<Seq<char>>)
    requires
        args.len() > 0,
        operand(args[0]),
    ensures
        reads(
            text::fill("    mul.lo.s32 %arowb,%tmp2,#0;\n"@, args),
            seq![Insn { op: "mul.lo.s32"@, args: seq!["%arowb"@, "%tmp2"@, args[0]] }],
        ),
{
    reveal_strlit("    mul.lo.s32 %arowb,%tmp2,");
    reveal_strlit("    mul.lo.s32 %arowb,%tmp2,#0;\n");
    reveal_strlit("%arowb");
    reveal_strlit("%tmp2");
    reveal_strlit(";\n");
    reveal_strlit("mul.lo.s32");
    let whole = "    mul.lo.s32 %arowb,%tmp2,#0;\n"@;
    let x0 = "    mul.lo.s32 %arowb,%tmp2,"@;
    frames::lemma_fill_plain(x0, args);
    let x1 = seq!['#', '0'];
    lemma_hole('0', args);
    let x2 = ";\n"@;
    frames::lemma_fill_plain(x2, args);
    assert(whole =~= x0 + x1 + x2);
    frames::lemma_fill_add(x0, x1, args);
    frames::lemma_fill_add(x0 + x1, x2, args);
    let op = "mul.lo.s32"@;
    let given = seq!["%arowb"@, "%tmp2"@, args[0]];
    machine::lemma_listed3("%arowb"@, "%tmp2"@, args[0]);
    assert(text::fill(whole, args) =~= machine::line(op, given));
    machine::lemma_reads_line(op, given);
}

/// `shr.u32 %tmp2,%tmp,1;`
proof fn mma_swizzle_lanes_3(args: Seq<Seq<char>>)
    ensures
        reads(
            text::fill("    shr.u32 %tmp2,%tmp,1;\n"@, args),
            seq![Insn { op: "shr.u32"@, args: seq!["%tmp2"@, "%tmp"@, "1"@] }],
        ),
{
    reveal_strlit("    shr.u32 %tmp2,%tmp,1;\n");
    reveal_strlit("%tmp");
    reveal_strlit("%tmp2");
    reveal_strlit("1");
    reveal_strlit("shr.u32");
    frames::lemma_fill_plain("    shr.u32 %tmp2,%tmp,1;\n"@, args);
    let op = "shr.u32"@;
    let given = seq!["%tmp2"@, "%tmp"@, "1"@];
    machine::lemma_listed3("%tmp2"@, "%tmp"@, "1"@);
    assert(text::fill("    shr.u32 %tmp2,%tmp,1;\n"@, args) =~= machine::line(op, given));
    machine::lemma_reads_line(op, given);
}

/// `and.b32 %phaseA,%tmp2,#1;`
proof fn mma_swizzle_lanes_4(args: Seq<Seq<char>>)
    requires
        args.len() > 1,
        operand(args[1]),
    ensures
        reads(
            text::fill("    and.b32 %phaseA,%tmp2,#1;\n"@, args),
            seq![Insn { op: "and.b32"@, args: seq!["%phaseA"@, "%tmp2"@, args[1]] }],
        ),
{
    reveal_strlit("    and.b32 %phaseA,%tmp2,");
    reveal_strlit("    and.b32 %phaseA,%tmp2,#1;\n");
    reveal_strlit("%phaseA");
    reveal_strlit("%tmp2");
    reveal_strlit(";\n");
    reveal_strlit("and.b32");
    let whole = "    and.b32 %phaseA,%tmp2,#1;\n"@;
    let x0 = "    and.b32 %phaseA,%tmp2,"@;
    frames::lemma_fill_plain(x0, args);
    let x1 = seq!['#', '1'];
    lemma_hole('1', args);
    let x2 = ";\n"@;
    frames::lemma_fill_plain(x2, args);
    assert(whole =~= x0 + x1 + x2);
    frames::lemma_fill_add(x0, x1, args);
    frames::lemma_fill_add(x0 + x1, x2, args);
    let op = "and.b32"@;
    let given = seq!["%phaseA"@, "%tmp2"@, args[1]];
    machine::lemma_listed3("%phaseA"@, "%tmp2"@, args[1]);
    assert(text::fill(whole, args) =~= machine::line(op, given));
    machine::lemma_reads_line(op, given);
}

/// `shr.u32 %la16,%lane,4;`
proof fn mma_swizzle_lanes_5(args: Seq<Seq<char>>)
    ensures
        reads(
            text::fill("    shr.u32 %la16,%lane,4;\n"@, args),
            seq![Insn { op: "shr.u32"@, args: seq!["%la16"@, "%lane"@, "4"@] }],
        ),
{
    reveal_strlit("    shr.u32 %la16,%lane,4;\n");
    reveal_strlit("%la16");
    reveal_strlit("%lane");
    reveal_strlit("4");
    reveal_strlit("shr.u32");
    frames::lemma_fill_plain("    shr.u32 %la16,%lane,4;\n"@, args);
    let op = "shr.u32"@;
    let given = seq!["%la16"@, "%lane"@, "4"@];
    machine::lemma_listed3("%la16"@, "%lane"@, "4"@);
    assert(text::fill("    shr.u32 %la16,%lane,4;\n"@, args) =~= machine::line(op, given));
    machine::lemma_reads_line(op, given);
}

/// `and.b32 %tmp,%lane,7;`
proof fn mma_swizzle_lanes_6(args: Seq<Seq<char>>)
    ensures
        reads(
            text::fill("    and.b32 %tmp,%lane,7;\n"@, args),
            seq![Insn { op: "and.b32"@, args: seq!["%tmp"@, "%lane"@, "7"@] }],
        ),
{
    reveal_strlit("    and.b32 %tmp,%lane,7;\n");
    reveal_strlit("%lane");
    reveal_strlit("%tmp");
    reveal_strlit("7");
    reveal_strlit("and.b32");
    frames::lemma_fill_plain("    and.b32 %tmp,%lane,7;\n"@, args);
    let op = "and.b32"@;
    let given = seq!["%tmp"@, "%lane"@, "7"@];
    machine::lemma_listed3("%tmp"@, "%lane"@, "7"@);
    assert(text::fill("    and.b32 %tmp,%lane,7;\n"@, args) =~= machine::line(op, given));
    machine::lemma_reads_line(op, given);
}

/// `add.u32 %tmp2,%tmp,%warpNcol;`
proof fn mma_swizzle_lanes_7(args: Seq<Seq<char>>)
    ensures
        reads(
            text::fill("    add.u32 %tmp2,%tmp,%warpNcol;\n"@, args),
            seq![Insn { op: "add.u32"@, args: seq!["%tmp2"@, "%tmp"@, "%warpNcol"@] }],
        ),
{
    reveal_strlit("    add.u32 %tmp2,%tmp,%warpNcol;\n");
    reveal_strlit("%tmp");
    reveal_strlit("%tmp2");
    reveal_strlit("%warpNcol");
    reveal_strlit("add.u32");
    frames::lemma_fill_plain("    add.u32 %tmp2,%tmp,%warpNcol;\n"@, args);
    let op = "add.u32"@;
    let given = seq!["%tmp2"@, "%tmp"@, "%warpNcol"@];
    machine::lemma_listed3("%tmp2"@, "%tmp"@, "%warpNcol"@);
    assert(text::fill("    add.u32 %tmp2,%tmp,%warpNcol;\n"@, args) =~= machine::line(op, given));
    machine::lemma_reads_line(op, given);
}

/// `mul.lo.s32 %browb,%tmp2,#0;`
proof fn mma_swizzle_lanes_8(args: Seq<Seq<char>>)
    requires
        args.len() > 0,
        operand(args[0]),
    ensures
        reads(
            text::fill("    mul.lo.s32 %browb,%tmp2,#0;\n"@, args),
            seq![Insn { op: "mul.lo.s32"@, args: seq!["%browb"@, "%tmp2"@, args[0]] }],
        ),
{
    reveal_strlit("    mul.lo.s32 %browb,%tmp2,");
    reveal_strlit("    mul.lo.s32 %browb,%tmp2,#0;\n");
    reveal_strlit("%browb");
    reveal_strlit("%tmp2");
    reveal_strlit(";\n");
    reveal_strlit("mul.lo.s32");
    let whole = "    mul.lo.s32 %browb,%tmp2,#0;\n"@;
    let x0 = "    mul.lo.s32 %browb,%tmp2,"@;
    frames::lemma_fill_plain(x0, args);
    let x1 = seq!['#', '0'];
    lemma_hole('0', args);
    let x2 = ";\n"@;
    frames::lemma_fill_plain(x2, args);
    assert(whole =~= x0 + x1 + x2);
    frames::lemma_fill_add(x0, x1, args);
    frames::lemma_fill_add(x0 + x1, x2, args);
    let op = "mul.lo.s32"@;
    let given = seq!["%browb"@, "%tmp2"@, args[0]];
    machine::lemma_listed3("%browb"@, "%tmp2"@, args[0]);
    assert(text::fill(whole, args) =~= machine::line(op, given));
    machine::lemma_reads_line(op, given);
}

/// `and.b32 %phaseB,%tmp2,#1;`
proof fn mma_swizzle_lanes_10(args: Seq<Seq<char>>)
    requires
        args.len() > 1,
        operand(args[1]),
    ensures
        reads(
            text::fill("    and.b32 %phaseB,%tmp2,#1;\n"@, args),
            seq![Insn { op: "and.b32"@, args: seq!["%phaseB"@, "%tmp2"@, args[1]] }],
        ),
{
    reveal_strlit("    and.b32 %phaseB,%tmp2,");
    reveal_strlit("    and.b32 %phaseB,%tmp2,#1;\n");
    reveal_strlit("%phaseB");
    reveal_strlit("%tmp2");
    reveal_strlit(";\n");
    reveal_strlit("and.b32");
    let whole = "    and.b32 %phaseB,%tmp2,#1;\n"@;
    let x0 = "    and.b32 %phaseB,%tmp2,"@;
    frames::lemma_fill_plain(x0, args);
    let x1 = seq!['#', '1'];
    lemma_hole('1', args);
    let x2 = ";\n"@;
    frames::lemma_fill_plain(x2, args);
    assert(whole =~= x0 + x1 + x2);
    frames::lemma_fill_add(x0, x1, args);
    frames::lemma_fill_add(x0 + x1, x2, args);
    let op = "and.b32"@;
    let given = seq!["%phaseB"@, "%tmp2"@, args[1]];
    machine::lemma_listed3("%phaseB"@, "%tmp2"@, args[1]);
    assert(text::fill(whole, args) =~= machine::line(op, given));
    machine::lemma_reads_line(op, given);
}

/// `shr.u32 %tmp,%lane,3;`
proof fn mma_swizzle_lanes_11(args: Seq<Seq<char>>)
    ensures
        reads(
            text::fill("    shr.u32 %tmp,%lane,3;\n"@, args),
            seq![Insn { op: "shr.u32"@, args: seq!["%tmp"@, "%lane"@, "3"@] }],
        ),
{
    reveal_strlit("    shr.u32 %tmp,%lane,3;\n");
    reveal_strlit("%lane");
    reveal_strlit("%tmp");
    reveal_strlit("3");
    reveal_strlit("shr.u32");
    frames::lemma_fill_plain("    shr.u32 %tmp,%lane,3;\n"@, args);
    let op = "shr.u32"@;
    let given = seq!["%tmp"@, "%lane"@, "3"@];
    machine::lemma_listed3("%tmp"@, "%lane"@, "3"@);
    assert(text::fill("    shr.u32 %tmp,%lane,3;\n"@, args) =~= machine::line(op, given));
    machine::lemma_reads_line(op, given);
}

/// `and.b32 %lb8,%tmp,1;`
proof fn mma_swizzle_lanes_12(args: Seq<Seq<char>>)
    ensures
        reads(
            text::fill("    and.b32 %lb8,%tmp,1;\n"@, args),
            seq![Insn { op: "and.b32"@, args: seq!["%lb8"@, "%tmp"@, "1"@] }],
        ),
{
    reveal_strlit("    and.b32 %lb8,%tmp,1;\n");
    reveal_strlit("%lb8");
    reveal_strlit("%tmp");
    reveal_strlit("1");
    reveal_strlit("and.b32");
    frames::lemma_fill_plain("    and.b32 %lb8,%tmp,1;\n"@, args);
    let op = "and.b32"@;
    let given = seq!["%lb8"@, "%tmp"@, "1"@];
    machine::lemma_listed3("%lb8"@, "%tmp"@, "1"@);
    assert(text::fill("    and.b32 %lb8,%tmp,1;\n"@, args) =~= machine::line(op, given));
    machine::lemma_reads_line(op, given);
}

/// What [`mma::SWIZZLE_LANES`] spells.
pub proof fn lemma_mma_swizzle_lanes(args: Seq<Seq<char>>)
    requires
        args.len() > 1,
        operand(args[0]),
        operand(args[1]),
    ensures
        reads(
            text::fill(mma::SWIZZLE_LANES@, args),
            seq![Insn { op: "and.b32"@, args: seq!["%tmp"@, "%lane"@, "15"@] }, Insn { op: "add.u32"@, args: seq!["%tmp2"@, "%tmp"@, "%warpMrow"@] }, Insn { op: "mul.lo.s32"@, args: seq!["%arowb"@, "%tmp2"@, args[0]] }, Insn { op: "shr.u32"@, args: seq!["%tmp2"@, "%tmp"@, "1"@] }, Insn { op: "and.b32"@, args: seq!["%phaseA"@, "%tmp2"@, args[1]] }, Insn { op: "shr.u32"@, args: seq!["%la16"@, "%lane"@, "4"@] }, Insn { op: "and.b32"@, args: seq!["%tmp"@, "%lane"@, "7"@] }, Insn { op: "add.u32"@, args: seq!["%tmp2"@, "%tmp"@, "%warpNcol"@] }, Insn { op: "mul.lo.s32"@, args: seq!["%browb"@, "%tmp2"@, args[0]] }, Insn { op: "shr.u32"@, args: seq!["%tmp2"@, "%tmp"@, "1"@] }, Insn { op: "and.b32"@, args: seq!["%phaseB"@, "%tmp2"@, args[1]] }, Insn { op: "shr.u32"@, args: seq!["%tmp"@, "%lane"@, "3"@] }, Insn { op: "and.b32"@, args: seq!["%lb8"@, "%tmp"@, "1"@] }],
        ),
{
    let t = mma::SWIZZLE_LANES@;
    reveal_strlit("    and.b32 %tmp,%lane,15;\n    add.u32 %tmp2,%tmp,%warpMrow;\n    mul.lo.s32 %arowb,%tmp2,#0;\n    shr.u32 %tmp2,%tmp,1;\n    and.b32 %phaseA,%tmp2,#1;\n    shr.u32 %la16,%lane,4;\n    and.b32 %tmp,%lane,7;\n    add.u32 %tmp2,%tmp,%warpNcol;\n    mul.lo.s32 %browb,%tmp2,#0;\n    shr.u32 %tmp2,%tmp,1;\n    and.b32 %phaseB,%tmp2,#1;\n    shr.u32 %tmp,%lane,3;\n    and.b32 %lb8,%tmp,1;\n");
    reveal_strlit("    and.b32 %tmp,%lane,15;\n");
    let l0 = "    and.b32 %tmp,%lane,15;\n"@;
    let i0 = Insn { op: "and.b32"@, args: seq!["%tmp"@, "%lane"@, "15"@] };
    reveal_strlit("    add.u32 %tmp2,%tmp,%warpMrow;\n");
    let l1 = "    add.u32 %tmp2,%tmp,%warpMrow;\n"@;
    let i1 = Insn { op: "add.u32"@, args: seq!["%tmp2"@, "%tmp"@, "%warpMrow"@] };
    reveal_strlit("    mul.lo.s32 %arowb,%tmp2,#0;\n");
    let l2 = "    mul.lo.s32 %arowb,%tmp2,#0;\n"@;
    let i2 = Insn { op: "mul.lo.s32"@, args: seq!["%arowb"@, "%tmp2"@, args[0]] };
    reveal_strlit("    shr.u32 %tmp2,%tmp,1;\n");
    let l3 = "    shr.u32 %tmp2,%tmp,1;\n"@;
    let i3 = Insn { op: "shr.u32"@, args: seq!["%tmp2"@, "%tmp"@, "1"@] };
    reveal_strlit("    and.b32 %phaseA,%tmp2,#1;\n");
    let l4 = "    and.b32 %phaseA,%tmp2,#1;\n"@;
    let i4 = Insn { op: "and.b32"@, args: seq!["%phaseA"@, "%tmp2"@, args[1]] };
    reveal_strlit("    shr.u32 %la16,%lane,4;\n");
    let l5 = "    shr.u32 %la16,%lane,4;\n"@;
    let i5 = Insn { op: "shr.u32"@, args: seq!["%la16"@, "%lane"@, "4"@] };
    reveal_strlit("    and.b32 %tmp,%lane,7;\n");
    let l6 = "    and.b32 %tmp,%lane,7;\n"@;
    let i6 = Insn { op: "and.b32"@, args: seq!["%tmp"@, "%lane"@, "7"@] };
    reveal_strlit("    add.u32 %tmp2,%tmp,%warpNcol;\n");
    let l7 = "    add.u32 %tmp2,%tmp,%warpNcol;\n"@;
    let i7 = Insn { op: "add.u32"@, args: seq!["%tmp2"@, "%tmp"@, "%warpNcol"@] };
    reveal_strlit("    mul.lo.s32 %browb,%tmp2,#0;\n");
    let l8 = "    mul.lo.s32 %browb,%tmp2,#0;\n"@;
    let i8 = Insn { op: "mul.lo.s32"@, args: seq!["%browb"@, "%tmp2"@, args[0]] };
    let l9 = "    shr.u32 %tmp2,%tmp,1;\n"@;
    let i9 = Insn { op: "shr.u32"@, args: seq!["%tmp2"@, "%tmp"@, "1"@] };
    reveal_strlit("    and.b32 %phaseB,%tmp2,#1;\n");
    let l10 = "    and.b32 %phaseB,%tmp2,#1;\n"@;
    let i10 = Insn { op: "and.b32"@, args: seq!["%phaseB"@, "%tmp2"@, args[1]] };
    reveal_strlit("    shr.u32 %tmp,%lane,3;\n");
    let l11 = "    shr.u32 %tmp,%lane,3;\n"@;
    let i11 = Insn { op: "shr.u32"@, args: seq!["%tmp"@, "%lane"@, "3"@] };
    reveal_strlit("    and.b32 %lb8,%tmp,1;\n");
    let l12 = "    and.b32 %lb8,%tmp,1;\n"@;
    let i12 = Insn { op: "and.b32"@, args: seq!["%lb8"@, "%tmp"@, "1"@] };
    assert(t =~= l0 + l1 + l2 + l3 + l4 + l5 + l6 + l7 + l8 + l9 + l10 + l11 + l12);
    mma_swizzle_lanes_0(args);
    let q0 = seq![i0];
    mma_swizzle_lanes_1(args);
    frames::lemma_fill_add(l0, l1, args);
    machine::lemma_reads_add(text::fill(l0, args), q0, text::fill(l1, args), seq![i1]);
    let q1 = q0 + seq![i1];
    mma_swizzle_lanes_2(args);
    frames::lemma_fill_add(l0 + l1, l2, args);
    machine::lemma_reads_add(text::fill(l0 + l1, args), q1, text::fill(l2, args), seq![i2]);
    let q2 = q1 + seq![i2];
    mma_swizzle_lanes_3(args);
    frames::lemma_fill_add(l0 + l1 + l2, l3, args);
    machine::lemma_reads_add(text::fill(l0 + l1 + l2, args), q2, text::fill(l3, args), seq![i3]);
    let q3 = q2 + seq![i3];
    mma_swizzle_lanes_4(args);
    frames::lemma_fill_add(l0 + l1 + l2 + l3, l4, args);
    machine::lemma_reads_add(text::fill(l0 + l1 + l2 + l3, args), q3, text::fill(l4, args), seq![i4]);
    let q4 = q3 + seq![i4];
    mma_swizzle_lanes_5(args);
    frames::lemma_fill_add(l0 + l1 + l2 + l3 + l4, l5, args);
    machine::lemma_reads_add(text::fill(l0 + l1 + l2 + l3 + l4, args), q4, text::fill(l5, args), seq![i5]);
    let q5 = q4 + seq![i5];
    mma_swizzle_lanes_6(args);
    frames::lemma_fill_add(l0 + l1 + l2 + l3 + l4 + l5, l6, args);
    machine::lemma_reads_add(text::fill(l0 + l1 + l2 + l3 + l4 + l5, args), q5, text::fill(l6, args), seq![i6]);
    let q6 = q5 + seq![i6];
    mma_swizzle_lanes_7(args);
    frames::lemma_fill_add(l0 + l1 + l2 + l3 + l4 + l5 + l6, l7, args);
    machine::lemma_reads_add(text::fill(l0 + l1 + l2 + l3 + l4 + l5 + l6, args), q6, text::fill(l7, args), seq![i7]);
    let q7 = q6 + seq![i7];
    mma_swizzle_lanes_8(args);
    frames::lemma_fill_add(l0 + l1 + l2 + l3 + l4 + l5 + l6 + l7, l8, args);
    machine::lemma_reads_add(text::fill(l0 + l1 + l2 + l3 + l4 + l5 + l6 + l7, args), q7, text::fill(l8, args), seq![i8]);
    let q8 = q7 + seq![i8];
    mma_swizzle_lanes_3(args);
    frames::lemma_fill_add(l0 + l1 + l2 + l3 + l4 + l5 + l6 + l7 + l8, l9, args);
    machine::lemma_reads_add(text::fill(l0 + l1 + l2 + l3 + l4 + l5 + l6 + l7 + l8, args), q8, text::fill(l9, args), seq![i9]);
    let q9 = q8 + seq![i9];
    mma_swizzle_lanes_10(args);
    frames::lemma_fill_add(l0 + l1 + l2 + l3 + l4 + l5 + l6 + l7 + l8 + l9, l10, args);
    machine::lemma_reads_add(text::fill(l0 + l1 + l2 + l3 + l4 + l5 + l6 + l7 + l8 + l9, args), q9, text::fill(l10, args), seq![i10]);
    let q10 = q9 + seq![i10];
    mma_swizzle_lanes_11(args);
    frames::lemma_fill_add(l0 + l1 + l2 + l3 + l4 + l5 + l6 + l7 + l8 + l9 + l10, l11, args);
    machine::lemma_reads_add(text::fill(l0 + l1 + l2 + l3 + l4 + l5 + l6 + l7 + l8 + l9 + l10, args), q10, text::fill(l11, args), seq![i11]);
    let q11 = q10 + seq![i11];
    mma_swizzle_lanes_12(args);
    frames::lemma_fill_add(l0 + l1 + l2 + l3 + l4 + l5 + l6 + l7 + l8 + l9 + l10 + l11, l12, args);
    machine::lemma_reads_add(text::fill(l0 + l1 + l2 + l3 + l4 + l5 + l6 + l7 + l8 + l9 + l10 + l11, args), q11, text::fill(l12, args), seq![i12]);
    let q12 = q11 + seq![i12];
    assert(q12 =~= seq![Insn { op: "and.b32"@, args: seq!["%tmp"@, "%lane"@, "15"@] }, Insn { op: "add.u32"@, args: seq!["%tmp2"@, "%tmp"@, "%warpMrow"@] }, Insn { op: "mul.lo.s32"@, args: seq!["%arowb"@, "%tmp2"@, args[0]] }, Insn { op: "shr.u32"@, args: seq!["%tmp2"@, "%tmp"@, "1"@] }, Insn { op: "and.b32"@, args: seq!["%phaseA"@, "%tmp2"@, args[1]] }, Insn { op: "shr.u32"@, args: seq!["%la16"@, "%lane"@, "4"@] }, Insn { op: "and.b32"@, args: seq!["%tmp"@, "%lane"@, "7"@] }, Insn { op: "add.u32"@, args: seq!["%tmp2"@, "%tmp"@, "%warpNcol"@] }, Insn { op: "mul.lo.s32"@, args: seq!["%browb"@, "%tmp2"@, args[0]] }, Insn { op: "shr.u32"@, args: seq!["%tmp2"@, "%tmp"@, "1"@] }, Insn { op: "and.b32"@, args: seq!["%phaseB"@, "%tmp2"@, args[1]] }, Insn { op: "shr.u32"@, args: seq!["%tmp"@, "%lane"@, "3"@] }, Insn { op: "and.b32"@, args: seq!["%lb8"@, "%tmp"@, "1"@] }]);
}

/// `mov.u32 #0,#1;`
proof fn mma_base_0(args: Seq<Seq<char>>)
    requires
        args.len() > 1,
        operand(args[0]),
        operand(args[1]),
    ensures
        reads(
            text::fill("    mov.u32 #0,#1;\n"@, args),
            seq![Insn { op: "mov.u32"@, args: seq![args[0], args[1]] }],
        ),
{
    reveal_strlit("    mov.u32 ");
    reveal_strlit("    mov.u32 #0,#1;\n");
    reveal_strlit(",");
    reveal_strlit(";\n");
    reveal_strlit("mov.u32");
    let whole = "    mov.u32 #0,#1;\n"@;
    let x0 = "    mov.u32 "@;
    frames::lemma_fill_plain(x0, args);
    let x1 = seq!['#', '0'];
    lemma_hole('0', args);
    let x2 = ","@;
    frames::lemma_fill_plain(x2, args);
    let x3 = seq!['#', '1'];
    lemma_hole('1', args);
    let x4 = ";\n"@;
    frames::lemma_fill_plain(x4, args);
    assert(whole =~= x0 + x1 + x2 + x3 + x4);
    frames::lemma_fill_add(x0, x1, args);
    frames::lemma_fill_add(x0 + x1, x2, args);
    frames::lemma_fill_add(x0 + x1 + x2, x3, args);
    frames::lemma_fill_add(x0 + x1 + x2 + x3, x4, args);
    let op = "mov.u32"@;
    let given = seq![args[0], args[1]];
    machine::lemma_listed2(args[0], args[1]);
    assert(text::fill(whole, args) =~= machine::line(op, given));
    machine::lemma_reads_line(op, given);
}

/// What [`mma::BASE`] spells.
pub proof fn lemma_mma_base(args: Seq<Seq<char>>)
    requires
        args.len() > 1,
        operand(args[0]),
        operand(args[1]),
    ensures
        reads(
            text::fill(mma::BASE@, args),
            seq![Insn { op: "mov.u32"@, args: seq![args[0], args[1]] }],
        ),
{
    let t = mma::BASE@;
    reveal_strlit("    mov.u32 #0,#1;\n");
    reveal_strlit("    mov.u32 #0,#1;\n");
    let l0 = "    mov.u32 #0,#1;\n"@;
    let i0 = Insn { op: "mov.u32"@, args: seq![args[0], args[1]] };
    assert(t =~= l0);
    mma_base_0(args);
    let q0 = seq![i0];
    assert(q0 =~= seq![Insn { op: "mov.u32"@, args: seq![args[0], args[1]] }]);
}

/// `add.u32 #0,#0,#2;`
proof fn mma_base_behind_1(args: Seq<Seq<char>>)
    requires
        args.len() > 2,
        operand(args[0]),
        operand(args[2]),
    ensures
        reads(
            text::fill("    add.u32 #0,#0,#2;\n"@, args),
            seq![Insn { op: "add.u32"@, args: seq![args[0], args[0], args[2]] }],
        ),
{
    reveal_strlit("    add.u32 ");
    reveal_strlit("    add.u32 #0,#0,#2;\n");
    reveal_strlit(",");
    reveal_strlit(";\n");
    reveal_strlit("add.u32");
    let whole = "    add.u32 #0,#0,#2;\n"@;
    let x0 = "    add.u32 "@;
    frames::lemma_fill_plain(x0, args);
    let x1 = seq!['#', '0'];
    lemma_hole('0', args);
    let x2 = ","@;
    frames::lemma_fill_plain(x2, args);
    let x3 = seq!['#', '0'];
    lemma_hole('0', args);
    let x4 = ","@;
    frames::lemma_fill_plain(x4, args);
    let x5 = seq!['#', '2'];
    lemma_hole('2', args);
    let x6 = ";\n"@;
    frames::lemma_fill_plain(x6, args);
    assert(whole =~= x0 + x1 + x2 + x3 + x4 + x5 + x6);
    frames::lemma_fill_add(x0, x1, args);
    frames::lemma_fill_add(x0 + x1, x2, args);
    frames::lemma_fill_add(x0 + x1 + x2, x3, args);
    frames::lemma_fill_add(x0 + x1 + x2 + x3, x4, args);
    frames::lemma_fill_add(x0 + x1 + x2 + x3 + x4, x5, args);
    frames::lemma_fill_add(x0 + x1 + x2 + x3 + x4 + x5, x6, args);
    let op = "add.u32"@;
    let given = seq![args[0], args[0], args[2]];
    machine::lemma_listed3(args[0], args[0], args[2]);
    assert(text::fill(whole, args) =~= machine::line(op, given));
    machine::lemma_reads_line(op, given);
}

/// What [`mma::BASE_BEHIND`] spells.
pub proof fn lemma_mma_base_behind(args: Seq<Seq<char>>)
    requires
        args.len() > 2,
        operand(args[0]),
        operand(args[1]),
        operand(args[2]),
    ensures
        reads(
            text::fill(mma::BASE_BEHIND@, args),
            seq![Insn { op: "mov.u32"@, args: seq![args[0], args[1]] }, Insn { op: "add.u32"@, args: seq![args[0], args[0], args[2]] }],
        ),
{
    let t = mma::BASE_BEHIND@;
    reveal_strlit("    mov.u32 #0,#1;\n    add.u32 #0,#0,#2;\n");
    reveal_strlit("    mov.u32 #0,#1;\n");
    let l0 = "    mov.u32 #0,#1;\n"@;
    let i0 = Insn { op: "mov.u32"@, args: seq![args[0], args[1]] };
    reveal_strlit("    add.u32 #0,#0,#2;\n");
    let l1 = "    add.u32 #0,#0,#2;\n"@;
    let i1 = Insn { op: "add.u32"@, args: seq![args[0], args[0], args[2]] };
    assert(t =~= l0 + l1);
    mma_base_0(args);
    let q0 = seq![i0];
    mma_base_behind_1(args);
    frames::lemma_fill_add(l0, l1, args);
    machine::lemma_reads_add(text::fill(l0, args), q0, text::fill(l1, args), seq![i1]);
    let q1 = q0 + seq![i1];
    assert(q1 =~= seq![Insn { op: "mov.u32"@, args: seq![args[0], args[1]] }, Insn { op: "add.u32"@, args: seq![args[0], args[0], args[2]] }]);
}

/// `shr.u32 %r,%e,#4;`
proof fn mma_stage_padded_0(args: Seq<Seq<char>>)
    requires
        args.len() > 4,
        operand(args[4]),
    ensures
        reads(
            text::fill("    shr.u32 %r,%e,#4;\n"@, args),
            seq![Insn { op: "shr.u32"@, args: seq!["%r"@, "%e"@, args[4]] }],
        ),
{
    reveal_strlit("    shr.u32 %r,%e,");
    reveal_strlit("    shr.u32 %r,%e,#4;\n");
    reveal_strlit("%e");
    reveal_strlit("%r");
    reveal_strlit(";\n");
    reveal_strlit("shr.u32");
    let whole = "    shr.u32 %r,%e,#4;\n"@;
    let x0 = "    shr.u32 %r,%e,"@;
    frames::lemma_fill_plain(x0, args);
    let x1 = seq!['#', '4'];
    lemma_hole('4', args);
    let x2 = ";\n"@;
    frames::lemma_fill_plain(x2, args);
    assert(whole =~= x0 + x1 + x2);
    frames::lemma_fill_add(x0, x1, args);
    frames::lemma_fill_add(x0 + x1, x2, args);
    let op = "shr.u32"@;
    let given = seq!["%r"@, "%e"@, args[4]];
    machine::lemma_listed3("%r"@, "%e"@, args[4]);
    assert(text::fill(whole, args) =~= machine::line(op, given));
    machine::lemma_reads_line(op, given);
}

/// `and.b32 %c,%e,#5;`
proof fn mma_stage_padded_1(args: Seq<Seq<char>>)
    requires
        args.len() > 5,
        operand(args[5]),
    ensures
        reads(
            text::fill("    and.b32 %c,%e,#5;\n"@, args),
            seq![Insn { op: "and.b32"@, args: seq!["%c"@, "%e"@, args[5]] }],
        ),
{
    reveal_strlit("    and.b32 %c,%e,");
    reveal_strlit("    and.b32 %c,%e,#5;\n");
    reveal_strlit("%c");
    reveal_strlit("%e");
    reveal_strlit(";\n");
    reveal_strlit("and.b32");
    let whole = "    and.b32 %c,%e,#5;\n"@;
    let x0 = "    and.b32 %c,%e,"@;
    frames::lemma_fill_plain(x0, args);
    let x1 = seq!['#', '5'];
    lemma_hole('5', args);
    let x2 = ";\n"@;
    frames::lemma_fill_plain(x2, args);
    assert(whole =~= x0 + x1 + x2);
    frames::lemma_fill_add(x0, x1, args);
    frames::lemma_fill_add(x0 + x1, x2, args);
    let op = "and.b32"@;
    let given = seq!["%c"@, "%e"@, args[5]];
    machine::lemma_listed3("%c"@, "%e"@, args[5]);
    assert(text::fill(whole, args) =~= machine::line(op, given));
    machine::lemma_reads_line(op, given);
}

/// `shl.b32 %c,%c,3;`
proof fn mma_stage_padded_2(args: Seq<Seq<char>>)
    ensures
        reads(
            text::fill("    shl.b32 %c,%c,3;\n"@, args),
            seq![Insn { op: "shl.b32"@, args: seq!["%c"@, "%c"@, "3"@] }],
        ),
{
    reveal_strlit("    shl.b32 %c,%c,3;\n");
    reveal_strlit("%c");
    reveal_strlit("3");
    reveal_strlit("shl.b32");
    frames::lemma_fill_plain("    shl.b32 %c,%c,3;\n"@, args);
    let op = "shl.b32"@;
    let given = seq!["%c"@, "%c"@, "3"@];
    machine::lemma_listed3("%c"@, "%c"@, "3"@);
    assert(text::fill("    shl.b32 %c,%c,3;\n"@, args) =~= machine::line(op, given));
    machine::lemma_reads_line(op, given);
}

/// `add.u32 %tmp,#0,%r;`
proof fn mma_stage_padded_3(args: Seq<Seq<char>>)
    requires
        args.len() > 0,
        operand(args[0]),
    ensures
        reads(
            text::fill("    add.u32 %tmp,#0,%r;\n"@, args),
            seq![Insn { op: "add.u32"@, args: seq!["%tmp"@, args[0], "%r"@] }],
        ),
{
    reveal_strlit("    add.u32 %tmp,");
    reveal_strlit("    add.u32 %tmp,#0,%r;\n");
    reveal_strlit("%r");
    reveal_strlit("%tmp");
    reveal_strlit(",%r;\n");
    reveal_strlit("add.u32");
    let whole = "    add.u32 %tmp,#0,%r;\n"@;
    let x0 = "    add.u32 %tmp,"@;
    frames::lemma_fill_plain(x0, args);
    let x1 = seq!['#', '0'];
    lemma_hole('0', args);
    let x2 = ",%r;\n"@;
    frames::lemma_fill_plain(x2, args);
    assert(whole =~= x0 + x1 + x2);
    frames::lemma_fill_add(x0, x1, args);
    frames::lemma_fill_add(x0 + x1, x2, args);
    let op = "add.u32"@;
    let given = seq!["%tmp"@, args[0], "%r"@];
    machine::lemma_listed3("%tmp"@, args[0], "%r"@);
    assert(text::fill(whole, args) =~= machine::line(op, given));
    machine::lemma_reads_line(op, given);
}

/// `mul.lo.s32 %tmp,%tmp,%K;`
proof fn mma_stage_padded_4(args: Seq<Seq<char>>)
    ensures
        reads(
            text::fill("    mul.lo.s32 %tmp,%tmp,%K;\n"@, args),
            seq![Insn { op: "mul.lo.s32"@, args: seq!["%tmp"@, "%tmp"@, "%K"@] }],
        ),
{
    reveal_strlit("    mul.lo.s32 %tmp,%tmp,%K;\n");
    reveal_strlit("%K");
    reveal_strlit("%tmp");
    reveal_strlit("mul.lo.s32");
    frames::lemma_fill_plain("    mul.lo.s32 %tmp,%tmp,%K;\n"@, args);
    let op = "mul.lo.s32"@;
    let given = seq!["%tmp"@, "%tmp"@, "%K"@];
    machine::lemma_listed3("%tmp"@, "%tmp"@, "%K"@);
    assert(text::fill("    mul.lo.s32 %tmp,%tmp,%K;\n"@, args) =~= machine::line(op, given));
    machine::lemma_reads_line(op, given);
}

/// `add.u32 %tmp,%tmp,%kcol;`
proof fn mma_stage_padded_5(args: Seq<Seq<char>>)
    ensures
        reads(
            text::fill("    add.u32 %tmp,%tmp,%kcol;\n"@, args),
            seq![Insn { op: "add.u32"@, args: seq!["%tmp"@, "%tmp"@, "%kcol"@] }],
        ),
{
    reveal_strlit("    add.u32 %tmp,%tmp,%kcol;\n");
    reveal_strlit("%kcol");
    reveal_strlit("%tmp");
    reveal_strlit("add.u32");
    frames::lemma_fill_plain("    add.u32 %tmp,%tmp,%kcol;\n"@, args);
    let op = "add.u32"@;
    let given = seq!["%tmp"@, "%tmp"@, "%kcol"@];
    machine::lemma_listed3("%tmp"@, "%tmp"@, "%kcol"@);
    assert(text::fill("    add.u32 %tmp,%tmp,%kcol;\n"@, args) =~= machine::line(op, given));
    machine::lemma_reads_line(op, given);
}

/// `add.u32 %tmp,%tmp,%c;`
proof fn mma_stage_padded_6(args: Seq<Seq<char>>)
    ensures
        reads(
            text::fill("    add.u32 %tmp,%tmp,%c;\n"@, args),
            seq![Insn { op: "add.u32"@, args: seq!["%tmp"@, "%tmp"@, "%c"@] }],
        ),
{
    reveal_strlit("    add.u32 %tmp,%tmp,%c;\n");
    reveal_strlit("%c");
    reveal_strlit("%tmp");
    reveal_strlit("add.u32");
    frames::lemma_fill_plain("    add.u32 %tmp,%tmp,%c;\n"@, args);
    let op = "add.u32"@;
    let given = seq!["%tmp"@, "%tmp"@, "%c"@];
    machine::lemma_listed3("%tmp"@, "%tmp"@, "%c"@);
    assert(text::fill("    add.u32 %tmp,%tmp,%c;\n"@, args) =~= machine::line(op, given));
    machine::lemma_reads_line(op, given);
}

/// `mul.wide.u32 %off,%tmp,2;`
proof fn mma_stage_padded_7(args: Seq<Seq<char>>)
    ensures
        reads(
            text::fill("    mul.wide.u32 %off,%tmp,2;\n"@, args),
            seq![Insn { op: "mul.wide.u32"@, args: seq!["%off"@, "%tmp"@, "2"@] }],
        ),
{
    reveal_strlit("    mul.wide.u32 %off,%tmp,2;\n");
    reveal_strlit("%off");
    reveal_strlit("%tmp");
    reveal_strlit("2");
    reveal_strlit("mul.wide.u32");
    frames::lemma_fill_plain("    mul.wide.u32 %off,%tmp,2;\n"@, args);
    let op = "mul.wide.u32"@;
    let given = seq!["%off"@, "%tmp"@, "2"@];
    machine::lemma_listed3("%off"@, "%tmp"@, "2"@);
    assert(text::fill("    mul.wide.u32 %off,%tmp,2;\n"@, args) =~= machine::line(op, given));
    machine::lemma_reads_line(op, given);
}

/// `add.s64 %gptr,#1,%off;`
proof fn mma_stage_padded_8(args: Seq<Seq<char>>)
    requires
        args.len() > 1,
        operand(args[1]),
    ensures
        reads(
            text::fill("    add.s64 %gptr,#1,%off;\n"@, args),
            seq![Insn { op: "add.s64"@, args: seq!["%gptr"@, args[1], "%off"@] }],
        ),
{
    reveal_strlit("    add.s64 %gptr,");
    reveal_strlit("    add.s64 %gptr,#1,%off;\n");
    reveal_strlit("%gptr");
    reveal_strlit("%off");
    reveal_strlit(",%off;\n");
    reveal_strlit("add.s64");
    let whole = "    add.s64 %gptr,#1,%off;\n"@;
    let x0 = "    add.s64 %gptr,"@;
    frames::lemma_fill_plain(x0, args);
    let x1 = seq!['#', '1'];
    lemma_hole('1', args);
    let x2 = ",%off;\n"@;
    frames::lemma_fill_plain(x2, args);
    assert(whole =~= x0 + x1 + x2);
    frames::lemma_fill_add(x0, x1, args);
    frames::lemma_fill_add(x0 + x1, x2, args);
    let op = "add.s64"@;
    let given = seq!["%gptr"@, args[1], "%off"@];
    machine::lemma_listed3("%gptr"@, args[1], "%off"@);
    assert(text::fill(whole, args) =~= machine::line(op, given));
    machine::lemma_reads_line(op, given);
}

/// `add.u32 %tmp,%tmp,#3;`
proof fn mma_stage_padded_10(args: Seq<Seq<char>>)
    requires
        args.len() > 3,
        operand(args[3]),
    ensures
        reads(
            text::fill("    add.u32 %tmp,%tmp,#3;\n"@, args),
            seq![Insn { op: "add.u32"@, args: seq!["%tmp"@, "%tmp"@, args[3]] }],
        ),
{
    reveal_strlit("    add.u32 %tmp,%tmp,");
    reveal_strlit("    add.u32 %tmp,%tmp,#3;\n");
    reveal_strlit("%tmp");
    reveal_strlit(";\n");
    reveal_strlit("add.u32");
    let whole = "    add.u32 %tmp,%tmp,#3;\n"@;
    let x0 = "    add.u32 %tmp,%tmp,"@;
    frames::lemma_fill_plain(x0, args);
    let x1 = seq!['#', '3'];
    lemma_hole('3', args);
    let x2 = ";\n"@;
    frames::lemma_fill_plain(x2, args);
    assert(whole =~= x0 + x1 + x2);
    frames::lemma_fill_add(x0, x1, args);
    frames::lemma_fill_add(x0 + x1, x2, args);
    let op = "add.u32"@;
    let given = seq!["%tmp"@, "%tmp"@, args[3]];
    machine::lemma_listed3("%tmp"@, "%tmp"@, args[3]);
    assert(text::fill(whole, args) =~= machine::line(op, given));
    machine::lemma_reads_line(op, given);
}

/// `mul.lo.s32 %tmp2,%r,#6;`
proof fn mma_stage_padded_11(args: Seq<Seq<char>>)
    requires
        args.len() > 6,
        operand(args[6]),
    ensures
        reads(
            text::fill("    mul.lo.s32 %tmp2,%r,#6;\n"@, args),
            seq![Insn { op: "mul.lo.s32"@, args: seq!["%tmp2"@, "%r"@, args[6]] }],
        ),
{
    reveal_strlit("    mul.lo.s32 %tmp2,%r,");
    reveal_strlit("    mul.lo.s32 %tmp2,%r,#6;\n");
    reveal_strlit("%r");
    reveal_strlit("%tmp2");
    reveal_strlit(";\n");
    reveal_strlit("mul.lo.s32");
    let whole = "    mul.lo.s32 %tmp2,%r,#6;\n"@;
    let x0 = "    mul.lo.s32 %tmp2,%r,"@;
    frames::lemma_fill_plain(x0, args);
    let x1 = seq!['#', '6'];
    lemma_hole('6', args);
    let x2 = ";\n"@;
    frames::lemma_fill_plain(x2, args);
    assert(whole =~= x0 + x1 + x2);
    frames::lemma_fill_add(x0, x1, args);
    frames::lemma_fill_add(x0 + x1, x2, args);
    let op = "mul.lo.s32"@;
    let given = seq!["%tmp2"@, "%r"@, args[6]];
    machine::lemma_listed3("%tmp2"@, "%r"@, args[6]);
    assert(text::fill(whole, args) =~= machine::line(op, given));
    machine::lemma_reads_line(op, given);
}

/// `add.u32 %tmp,%tmp,%tmp2;`
proof fn mma_stage_padded_12(args: Seq<Seq<char>>)
    ensures
        reads(
            text::fill("    add.u32 %tmp,%tmp,%tmp2;\n"@, args),
            seq![Insn { op: "add.u32"@, args: seq!["%tmp"@, "%tmp"@, "%tmp2"@] }],
        ),
{
    reveal_strlit("    add.u32 %tmp,%tmp,%tmp2;\n");
    reveal_strlit("%tmp");
    reveal_strlit("%tmp2");
    reveal_strlit("add.u32");
    frames::lemma_fill_plain("    add.u32 %tmp,%tmp,%tmp2;\n"@, args);
    let op = "add.u32"@;
    let given = seq!["%tmp"@, "%tmp"@, "%tmp2"@];
    machine::lemma_listed3("%tmp"@, "%tmp"@, "%tmp2"@);
    assert(text::fill("    add.u32 %tmp,%tmp,%tmp2;\n"@, args) =~= machine::line(op, given));
    machine::lemma_reads_line(op, given);
}

/// `shl.b32 %tmp2,%c,1;`
proof fn mma_stage_padded_13(args: Seq<Seq<char>>)
    ensures
        reads(
            text::fill("    shl.b32 %tmp2,%c,1;\n"@, args),
            seq![Insn { op: "shl.b32"@, args: seq!["%tmp2"@, "%c"@, "1"@] }],
        ),
{
    reveal_strlit("    shl.b32 %tmp2,%c,1;\n");
    reveal_strlit("%c");
    reveal_strlit("%tmp2");
    reveal_strlit("1");
    reveal_strlit("shl.b32");
    frames::lemma_fill_plain("    shl.b32 %tmp2,%c,1;\n"@, args);
    let op = "shl.b32"@;
    let given = seq!["%tmp2"@, "%c"@, "1"@];
    machine::lemma_listed3("%tmp2"@, "%c"@, "1"@);
    assert(text::fill("    shl.b32 %tmp2,%c,1;\n"@, args) =~= machine::line(op, given));
    machine::lemma_reads_line(op, given);
}

/// `cp.async.cg.shared.global [%tmp],[%gptr],16;`
proof fn mma_stage_padded_15(args: Seq<Seq<char>>)
    ensures
        reads(
            text::fill("    cp.async.cg.shared.global [%tmp],[%gptr],16;\n"@, args),
            seq![Insn { op: "cp.async.cg.shared.global"@, args: seq!["[%tmp]"@, "[%gptr]"@, "16"@] }],
        ),
{
    reveal_strlit("    cp.async.cg.shared.global [%tmp],[%gptr],16;\n");
    reveal_strlit("16");
    reveal_strlit("[%gptr]");
    reveal_strlit("[%tmp]");
    reveal_strlit("cp.async.cg.shared.global");
    frames::lemma_fill_plain("    cp.async.cg.shared.global [%tmp],[%gptr],16;\n"@, args);
    let op = "cp.async.cg.shared.global"@;
    let given = seq!["[%tmp]"@, "[%gptr]"@, "16"@];
    machine::lemma_listed3("[%tmp]"@, "[%gptr]"@, "16"@);
    assert(text::fill("    cp.async.cg.shared.global [%tmp],[%gptr],16;\n"@, args) =~= machine::line(op, given));
    machine::lemma_reads_line(op, given);
}

/// What [`mma::STAGE_PADDED`] spells.
pub proof fn lemma_mma_stage_padded(args: Seq<Seq<char>>, p2: Seq<Insn>)
    requires
        args.len() > 6,
        operand(args[0]),
        operand(args[1]),
        operand(args[3]),
        operand(args[4]),
        operand(args[5]),
        operand(args[6]),
        reads(args[2], p2),
    ensures
        reads(
            text::fill(mma::STAGE_PADDED@, args),
            seq![Insn { op: "shr.u32"@, args: seq!["%r"@, "%e"@, args[4]] }, Insn { op: "and.b32"@, args: seq!["%c"@, "%e"@, args[5]] }, Insn { op: "shl.b32"@, args: seq!["%c"@, "%c"@, "3"@] }, Insn { op: "add.u32"@, args: seq!["%tmp"@, args[0], "%r"@] }, Insn { op: "mul.lo.s32"@, args: seq!["%tmp"@, "%tmp"@, "%K"@] }, Insn { op: "add.u32"@, args: seq!["%tmp"@, "%tmp"@, "%kcol"@] }, Insn { op: "add.u32"@, args: seq!["%tmp"@, "%tmp"@, "%c"@] }, Insn { op: "mul.wide.u32"@, args: seq!["%off"@, "%tmp"@, "2"@] }, Insn { op: "add.s64"@, args: seq!["%gptr"@, args[1], "%off"@] }] + p2 + seq![Insn { op: "add.u32"@, args: seq!["%tmp"@, "%tmp"@, args[3]] }, Insn { op: "mul.lo.s32"@, args: seq!["%tmp2"@, "%r"@, args[6]] }, Insn { op: "add.u32"@, args: seq!["%tmp"@, "%tmp"@, "%tmp2"@] }, Insn { op: "shl.b32"@, args: seq!["%tmp2"@, "%c"@, "1"@] }, Insn { op: "add.u32"@, args: seq!["%tmp"@, "%tmp"@, "%tmp2"@] }, Insn { op: "cp.async.cg.shared.global"@, args: seq!["[%tmp]"@, "[%gptr]"@, "16"@] }],
        ),
{
    let t = mma::STAGE_PADDED@;
    reveal_strlit("    shr.u32 %r,%e,#4;\n    and.b32 %c,%e,#5;\n    shl.b32 %c,%c,3;\n    add.u32 %tmp,#0,%r;\n    mul.lo.s32 %tmp,%tmp,%K;\n    add.u32 %tmp,%tmp,%kcol;\n    add.u32 %tmp,%tmp,%c;\n    mul.wide.u32 %off,%tmp,2;\n    add.s64 %gptr,#1,%off;\n#2    add.u32 %tmp,%tmp,#3;\n    mul.lo.s32 %tmp2,%r,#6;\n    add.u32 %tmp,%tmp,%tmp2;\n    shl.b32 %tmp2,%c,1;\n    add.u32 %tmp,%tmp,%tmp2;\n    cp.async.cg.shared.global [%tmp],[%gptr],16;\n");
    reveal_strlit("    shr.u32 %r,%e,#4;\n");
    let l0 = "    shr.u32 %r,%e,#4;\n"@;
    let i0 = Insn { op: "shr.u32"@, args: seq!["%r"@, "%e"@, args[4]] };
    reveal_strlit("    and.b32 %c,%e,#5;\n");
    let l1 = "    and.b32 %c,%e,#5;\n"@;
    let i1 = Insn { op: "and.b32"@, args: seq!["%c"@, "%e"@, args[5]] };
    reveal_strlit("    shl.b32 %c,%c,3;\n");
    let l2 = "    shl.b32 %c,%c,3;\n"@;
    let i2 = Insn { op: "shl.b32"@, args: seq!["%c"@, "%c"@, "3"@] };
    reveal_strlit("    add.u32 %tmp,#0,%r;\n");
    let l3 = "    add.u32 %tmp,#0,%r;\n"@;
    let i3 = Insn { op: "add.u32"@, args: seq!["%tmp"@, args[0], "%r"@] };
    reveal_strlit("    mul.lo.s32 %tmp,%tmp,%K;\n");
    let l4 = "    mul.lo.s32 %tmp,%tmp,%K;\n"@;
    let i4 = Insn { op: "mul.lo.s32"@, args: seq!["%tmp"@, "%tmp"@, "%K"@] };
    reveal_strlit("    add.u32 %tmp,%tmp,%kcol;\n");
    let l5 = "    add.u32 %tmp,%tmp,%kcol;\n"@;
    let i5 = Insn { op: "add.u32"@, args: seq!["%tmp"@, "%tmp"@, "%kcol"@] };
    reveal_strlit("    add.u32 %tmp,%tmp,%c;\n");
    let l6 = "    add.u32 %tmp,%tmp,%c;\n"@;
    let i6 = Insn { op: "add.u32"@, args: seq!["%tmp"@, "%tmp"@, "%c"@] };
    reveal_strlit("    mul.wide.u32 %off,%tmp,2;\n");
    let l7 = "    mul.wide.u32 %off,%tmp,2;\n"@;
    let i7 = Insn { op: "mul.wide.u32"@, args: seq!["%off"@, "%tmp"@, "2"@] };
    reveal_strlit("    add.s64 %gptr,#1,%off;\n");
    let l8 = "    add.s64 %gptr,#1,%off;\n"@;
    let i8 = Insn { op: "add.s64"@, args: seq!["%gptr"@, args[1], "%off"@] };
    let l9 = seq!['#', '2'];
    reveal_strlit("    add.u32 %tmp,%tmp,#3;\n");
    let l10 = "    add.u32 %tmp,%tmp,#3;\n"@;
    let i10 = Insn { op: "add.u32"@, args: seq!["%tmp"@, "%tmp"@, args[3]] };
    reveal_strlit("    mul.lo.s32 %tmp2,%r,#6;\n");
    let l11 = "    mul.lo.s32 %tmp2,%r,#6;\n"@;
    let i11 = Insn { op: "mul.lo.s32"@, args: seq!["%tmp2"@, "%r"@, args[6]] };
    reveal_strlit("    add.u32 %tmp,%tmp,%tmp2;\n");
    let l12 = "    add.u32 %tmp,%tmp,%tmp2;\n"@;
    let i12 = Insn { op: "add.u32"@, args: seq!["%tmp"@, "%tmp"@, "%tmp2"@] };
    reveal_strlit("    shl.b32 %tmp2,%c,1;\n");
    let l13 = "    shl.b32 %tmp2,%c,1;\n"@;
    let i13 = Insn { op: "shl.b32"@, args: seq!["%tmp2"@, "%c"@, "1"@] };
    let l14 = "    add.u32 %tmp,%tmp,%tmp2;\n"@;
    let i14 = Insn { op: "add.u32"@, args: seq!["%tmp"@, "%tmp"@, "%tmp2"@] };
    reveal_strlit("    cp.async.cg.shared.global [%tmp],[%gptr],16;\n");
    let l15 = "    cp.async.cg.shared.global [%tmp],[%gptr],16;\n"@;
    let i15 = Insn { op: "cp.async.cg.shared.global"@, args: seq!["[%tmp]"@, "[%gptr]"@, "16"@] };
    assert(t =~= l0 + l1 + l2 + l3 + l4 + l5 + l6 + l7 + l8 + l9 + l10 + l11 + l12 + l13 + l14 + l15);
    mma_stage_padded_0(args);
    let q0 = seq![i0];
    mma_stage_padded_1(args);
    frames::lemma_fill_add(l0, l1, args);
    machine::lemma_reads_add(text::fill(l0, args), q0, text::fill(l1, args), seq![i1]);
    let q1 = q0 + seq![i1];
    mma_stage_padded_2(args);
    frames::lemma_fill_add(l0 + l1, l2, args);
    machine::lemma_reads_add(text::fill(l0 + l1, args), q1, text::fill(l2, args), seq![i2]);
    let q2 = q1 + seq![i2];
    mma_stage_padded_3(args);
    frames::lemma_fill_add(l0 + l1 + l2, l3, args);
    machine::lemma_reads_add(text::fill(l0 + l1 + l2, args), q2, text::fill(l3, args), seq![i3]);
    let q3 = q2 + seq![i3];
    mma_stage_padded_4(args);
    frames::lemma_fill_add(l0 + l1 + l2 + l3, l4, args);
    machine::lemma_reads_add(text::fill(l0 + l1 + l2 + l3, args), q3, text::fill(l4, args), seq![i4]);
    let q4 = q3 + seq![i4];
    mma_stage_padded_5(args);
    frames::lemma_fill_add(l0 + l1 + l2 + l3 + l4, l5, args);
    machine::lemma_reads_add(text::fill(l0 + l1 + l2 + l3 + l4, args), q4, text::fill(l5, args), seq![i5]);
    let q5 = q4 + seq![i5];
    mma_stage_padded_6(args);
    frames::lemma_fill_add(l0 + l1 + l2 + l3 + l4 + l5, l6, args);
    machine::lemma_reads_add(text::fill(l0 + l1 + l2 + l3 + l4 + l5, args), q5, text::fill(l6, args), seq![i6]);
    let q6 = q5 + seq![i6];
    mma_stage_padded_7(args);
    frames::lemma_fill_add(l0 + l1 + l2 + l3 + l4 + l5 + l6, l7, args);
    machine::lemma_reads_add(text::fill(l0 + l1 + l2 + l3 + l4 + l5 + l6, args), q6, text::fill(l7, args), seq![i7]);
    let q7 = q6 + seq![i7];
    mma_stage_padded_8(args);
    frames::lemma_fill_add(l0 + l1 + l2 + l3 + l4 + l5 + l6 + l7, l8, args);
    machine::lemma_reads_add(text::fill(l0 + l1 + l2 + l3 + l4 + l5 + l6 + l7, args), q7, text::fill(l8, args), seq![i8]);
    let q8 = q7 + seq![i8];
    lemma_hole('2', args);
    frames::lemma_fill_add(l0 + l1 + l2 + l3 + l4 + l5 + l6 + l7 + l8, l9, args);
    machine::lemma_reads_add(text::fill(l0 + l1 + l2 + l3 + l4 + l5 + l6 + l7 + l8, args), q8, text::fill(l9, args), p2);
    let q9 = q8 + p2;
    mma_stage_padded_10(args);
    frames::lemma_fill_add(l0 + l1 + l2 + l3 + l4 + l5 + l6 + l7 + l8 + l9, l10, args);
    machine::lemma_reads_add(text::fill(l0 + l1 + l2 + l3 + l4 + l5 + l6 + l7 + l8 + l9, args), q9, text::fill(l10, args), seq![i10]);
    let q10 = q9 + seq![i10];
    mma_stage_padded_11(args);
    frames::lemma_fill_add(l0 + l1 + l2 + l3 + l4 + l5 + l6 + l7 + l8 + l9 + l10, l11, args);
    machine::lemma_reads_add(text::fill(l0 + l1 + l2 + l3 + l4 + l5 + l6 + l7 + l8 + l9 + l10, args), q10, text::fill(l11, args), seq![i11]);
    let q11 = q10 + seq![i11];
    mma_stage_padded_12(args);
    frames::lemma_fill_add(l0 + l1 + l2 + l3 + l4 + l5 + l6 + l7 + l8 + l9 + l10 + l11, l12, args);
    machine::lemma_reads_add(text::fill(l0 + l1 + l2 + l3 + l4 + l5 + l6 + l7 + l8 + l9 + l10 + l11, args), q11, text::fill(l12, args), seq![i12]);
    let q12 = q11 + seq![i12];
    mma_stage_padded_13(args);
    frames::lemma_fill_add(l0 + l1 + l2 + l3 + l4 + l5 + l6 + l7 + l8 + l9 + l10 + l11 + l12, l13, args);
    machine::lemma_reads_add(text::fill(l0 + l1 + l2 + l3 + l4 + l5 + l6 + l7 + l8 + l9 + l10 + l11 + l12, args), q12, text::fill(l13, args), seq![i13]);
    let q13 = q12 + seq![i13];
    mma_stage_padded_12(args);
    frames::lemma_fill_add(l0 + l1 + l2 + l3 + l4 + l5 + l6 + l7 + l8 + l9 + l10 + l11 + l12 + l13, l14, args);
    machine::lemma_reads_add(text::fill(l0 + l1 + l2 + l3 + l4 + l5 + l6 + l7 + l8 + l9 + l10 + l11 + l12 + l13, args), q13, text::fill(l14, args), seq![i14]);
    let q14 = q13 + seq![i14];
    mma_stage_padded_15(args);
    frames::lemma_fill_add(l0 + l1 + l2 + l3 + l4 + l5 + l6 + l7 + l8 + l9 + l10 + l11 + l12 + l13 + l14, l15, args);
    machine::lemma_reads_add(text::fill(l0 + l1 + l2 + l3 + l4 + l5 + l6 + l7 + l8 + l9 + l10 + l11 + l12 + l13 + l14, args), q14, text::fill(l15, args), seq![i15]);
    let q15 = q14 + seq![i15];
    assert(q15 =~= seq![Insn { op: "shr.u32"@, args: seq!["%r"@, "%e"@, args[4]] }, Insn { op: "and.b32"@, args: seq!["%c"@, "%e"@, args[5]] }, Insn { op: "shl.b32"@, args: seq!["%c"@, "%c"@, "3"@] }, Insn { op: "add.u32"@, args: seq!["%tmp"@, args[0], "%r"@] }, Insn { op: "mul.lo.s32"@, args: seq!["%tmp"@, "%tmp"@, "%K"@] }, Insn { op: "add.u32"@, args: seq!["%tmp"@, "%tmp"@, "%kcol"@] }, Insn { op: "add.u32"@, args: seq!["%tmp"@, "%tmp"@, "%c"@] }, Insn { op: "mul.wide.u32"@, args: seq!["%off"@, "%tmp"@, "2"@] }, Insn { op: "add.s64"@, args: seq!["%gptr"@, args[1], "%off"@] }] + p2 + seq![Insn { op: "add.u32"@, args: seq!["%tmp"@, "%tmp"@, args[3]] }, Insn { op: "mul.lo.s32"@, args: seq!["%tmp2"@, "%r"@, args[6]] }, Insn { op: "add.u32"@, args: seq!["%tmp"@, "%tmp"@, "%tmp2"@] }, Insn { op: "shl.b32"@, args: seq!["%tmp2"@, "%c"@, "1"@] }, Insn { op: "add.u32"@, args: seq!["%tmp"@, "%tmp"@, "%tmp2"@] }, Insn { op: "cp.async.cg.shared.global"@, args: seq!["[%tmp]"@, "[%gptr]"@, "16"@] }]);
}

/// `shr.u32 %swztmp,%c,3;`
proof fn mma_stage_swizzled_9(args: Seq<Seq<char>>)
    ensures
        reads(
            text::fill("    shr.u32 %swztmp,%c,3;\n"@, args),
            seq![Insn { op: "shr.u32"@, args: seq!["%swztmp"@, "%c"@, "3"@] }],
        ),
{
    reveal_strlit("    shr.u32 %swztmp,%c,3;\n");
    reveal_strlit("%c");
    reveal_strlit("%swztmp");
    reveal_strlit("3");
    reveal_strlit("shr.u32");
    frames::lemma_fill_plain("    shr.u32 %swztmp,%c,3;\n"@, args);
    let op = "shr.u32"@;
    let given = seq!["%swztmp"@, "%c"@, "3"@];
    machine::lemma_listed3("%swztmp"@, "%c"@, "3"@);
    assert(text::fill("    shr.u32 %swztmp,%c,3;\n"@, args) =~= machine::line(op, given));
    machine::lemma_reads_line(op, given);
}

/// `shr.u32 %tmp2,%r,1;`
proof fn mma_stage_swizzled_10(args: Seq<Seq<char>>)
    ensures
        reads(
            text::fill("    shr.u32 %tmp2,%r,1;\n"@, args),
            seq![Insn { op: "shr.u32"@, args: seq!["%tmp2"@, "%r"@, "1"@] }],
        ),
{
    reveal_strlit("    shr.u32 %tmp2,%r,1;\n");
    reveal_strlit("%r");
    reveal_strlit("%tmp2");
    reveal_strlit("1");
    reveal_strlit("shr.u32");
    frames::lemma_fill_plain("    shr.u32 %tmp2,%r,1;\n"@, args);
    let op = "shr.u32"@;
    let given = seq!["%tmp2"@, "%r"@, "1"@];
    machine::lemma_listed3("%tmp2"@, "%r"@, "1"@);
    assert(text::fill("    shr.u32 %tmp2,%r,1;\n"@, args) =~= machine::line(op, given));
    machine::lemma_reads_line(op, given);
}

/// `and.b32 %tmp2,%tmp2,#5;`
proof fn mma_stage_swizzled_11(args: Seq<Seq<char>>)
    requires
        args.len() > 5,
        operand(args[5]),
    ensures
        reads(
            text::fill("    and.b32 %tmp2,%tmp2,#5;\n"@, args),
            seq![Insn { op: "and.b32"@, args: seq!["%tmp2"@, "%tmp2"@, args[5]] }],
        ),
{
    reveal_strlit("    and.b32 %tmp2,%tmp2,");
    reveal_strlit("    and.b32 %tmp2,%tmp2,#5;\n");
    reveal_strlit("%tmp2");
    reveal_strlit(";\n");
    reveal_strlit("and.b32");
    let whole = "    and.b32 %tmp2,%tmp2,#5;\n"@;
    let x0 = "    and.b32 %tmp2,%tmp2,"@;
    frames::lemma_fill_plain(x0, args);
    let x1 = seq!['#', '5'];
    lemma_hole('5', args);
    let x2 = ";\n"@;
    frames::lemma_fill_plain(x2, args);
    assert(whole =~= x0 + x1 + x2);
    frames::lemma_fill_add(x0, x1, args);
    frames::lemma_fill_add(x0 + x1, x2, args);
    let op = "and.b32"@;
    let given = seq!["%tmp2"@, "%tmp2"@, args[5]];
    machine::lemma_listed3("%tmp2"@, "%tmp2"@, args[5]);
    assert(text::fill(whole, args) =~= machine::line(op, given));
    machine::lemma_reads_line(op, given);
}

/// `xor.b32 %swztmp,%swztmp,%tmp2;`
proof fn mma_stage_swizzled_12(args: Seq<Seq<char>>)
    ensures
        reads(
            text::fill("    xor.b32 %swztmp,%swztmp,%tmp2;\n"@, args),
            seq![Insn { op: "xor.b32"@, args: seq!["%swztmp"@, "%swztmp"@, "%tmp2"@] }],
        ),
{
    reveal_strlit("    xor.b32 %swztmp,%swztmp,%tmp2;\n");
    reveal_strlit("%swztmp");
    reveal_strlit("%tmp2");
    reveal_strlit("xor.b32");
    frames::lemma_fill_plain("    xor.b32 %swztmp,%swztmp,%tmp2;\n"@, args);
    let op = "xor.b32"@;
    let given = seq!["%swztmp"@, "%swztmp"@, "%tmp2"@];
    machine::lemma_listed3("%swztmp"@, "%swztmp"@, "%tmp2"@);
    assert(text::fill("    xor.b32 %swztmp,%swztmp,%tmp2;\n"@, args) =~= machine::line(op, given));
    machine::lemma_reads_line(op, given);
}

/// `shl.b32 %swztmp,%swztmp,4;`
proof fn mma_stage_swizzled_13(args: Seq<Seq<char>>)
    ensures
        reads(
            text::fill("    shl.b32 %swztmp,%swztmp,4;\n"@, args),
            seq![Insn { op: "shl.b32"@, args: seq!["%swztmp"@, "%swztmp"@, "4"@] }],
        ),
{
    reveal_strlit("    shl.b32 %swztmp,%swztmp,4;\n");
    reveal_strlit("%swztmp");
    reveal_strlit("4");
    reveal_strlit("shl.b32");
    frames::lemma_fill_plain("    shl.b32 %swztmp,%swztmp,4;\n"@, args);
    let op = "shl.b32"@;
    let given = seq!["%swztmp"@, "%swztmp"@, "4"@];
    machine::lemma_listed3("%swztmp"@, "%swztmp"@, "4"@);
    assert(text::fill("    shl.b32 %swztmp,%swztmp,4;\n"@, args) =~= machine::line(op, given));
    machine::lemma_reads_line(op, given);
}

/// `mul.lo.s32 %tmp3,%r,#6;`
proof fn mma_stage_swizzled_16(args: Seq<Seq<char>>)
    requires
        args.len() > 6,
        operand(args[6]),
    ensures
        reads(
            text::fill("    mul.lo.s32 %tmp3,%r,#6;\n"@, args),
            seq![Insn { op: "mul.lo.s32"@, args: seq!["%tmp3"@, "%r"@, args[6]] }],
        ),
{
    reveal_strlit("    mul.lo.s32 %tmp3,%r,");
    reveal_strlit("    mul.lo.s32 %tmp3,%r,#6;\n");
    reveal_strlit("%r");
    reveal_strlit("%tmp3");
    reveal_strlit(";\n");
    reveal_strlit("mul.lo.s32");
    let whole = "    mul.lo.s32 %tmp3,%r,#6;\n"@;
    let x0 = "    mul.lo.s32 %tmp3,%r,"@;
    frames::lemma_fill_plain(x0, args);
    let x1 = seq!['#', '6'];
    lemma_hole('6', args);
    let x2 = ";\n"@;
    frames::lemma_fill_plain(x2, args);
    assert(whole =~= x0 + x1 + x2);
    frames::lemma_fill_add(x0, x1, args);
    frames::lemma_fill_add(x0 + x1, x2, args);
    let op = "mul.lo.s32"@;
    let given = seq!["%tmp3"@, "%r"@, args[6]];
    machine::lemma_listed3("%tmp3"@, "%r"@, args[6]);
    assert(text::fill(whole, args) =~= machine::line(op, given));
    machine::lemma_reads_line(op, given);
}

/// `add.u32 %tmp,%tmp,%tmp3;`
proof fn mma_stage_swizzled_17(args: Seq<Seq<char>>)
    ensures
        reads(
            text::fill("    add.u32 %tmp,%tmp,%tmp3;\n"@, args),
            seq![Insn { op: "add.u32"@, args: seq!["%tmp"@, "%tmp"@, "%tmp3"@] }],
        ),
{
    reveal_strlit("    add.u32 %tmp,%tmp,%tmp3;\n");
    reveal_strlit("%tmp");
    reveal_strlit("%tmp3");
    reveal_strlit("add.u32");
    frames::lemma_fill_plain("    add.u32 %tmp,%tmp,%tmp3;\n"@, args);
    let op = "add.u32"@;
    let given = seq!["%tmp"@, "%tmp"@, "%tmp3"@];
    machine::lemma_listed3("%tmp"@, "%tmp"@, "%tmp3"@);
    assert(text::fill("    add.u32 %tmp,%tmp,%tmp3;\n"@, args) =~= machine::line(op, given));
    machine::lemma_reads_line(op, given);
}

/// `add.u32 %tmp,%tmp,%swztmp;`
proof fn mma_stage_swizzled_18(args: Seq<Seq<char>>)
    ensures
        reads(
            text::fill("    add.u32 %tmp,%tmp,%swztmp;\n"@, args),
            seq![Insn { op: "add.u32"@, args: seq!["%tmp"@, "%tmp"@, "%swztmp"@] }],
        ),
{
    reveal_strlit("    add.u32 %tmp,%tmp,%swztmp;\n");
    reveal_strlit("%swztmp");
    reveal_strlit("%tmp");
    reveal_strlit("add.u32");
    frames::lemma_fill_plain("    add.u32 %tmp,%tmp,%swztmp;\n"@, args);
    let op = "add.u32"@;
    let given = seq!["%tmp"@, "%tmp"@, "%swztmp"@];
    machine::lemma_listed3("%tmp"@, "%tmp"@, "%swztmp"@);
    assert(text::fill("    add.u32 %tmp,%tmp,%swztmp;\n"@, args) =~= machine::line(op, given));
    machine::lemma_reads_line(op, given);
}

/// What [`mma::STAGE_SWIZZLED`] spells.
pub proof fn lemma_mma_stage_swizzled(args: Seq<Seq<char>>, p2: Seq<Insn>)
    requires
        args.len() > 6,
        operand(args[0]),
        operand(args[1]),
        operand(args[3]),
        operand(args[4]),
        operand(args[5]),
        operand(args[6]),
        reads(args[2], p2),
    ensures
        reads(
            text::fill(mma::STAGE_SWIZZLED@, args),
            seq![Insn { op: "shr.u32"@, args: seq!["%r"@, "%e"@, args[4]] }, Insn { op: "and.b32"@, args: seq!["%c"@, "%e"@, args[5]] }, Insn { op: "shl.b32"@, args: seq!["%c"@, "%c"@, "3"@] }, Insn { op: "add.u32"@, args: seq!["%tmp"@, args[0], "%r"@] }, Insn { op: "mul.lo.s32"@, args: seq!["%tmp"@, "%tmp"@, "%K"@] }, Insn { op: "add.u32"@, args: seq!["%tmp"@, "%tmp"@, "%kcol"@] }, Insn { op: "add.u32"@, args: seq!["%tmp"@, "%tmp"@, "%c"@] }, Insn { op: "mul.wide.u32"@, args: seq!["%off"@, "%tmp"@, "2"@] }, Insn { op: "add.s64"@, args: seq!["%gptr"@, args[1], "%off"@] }, Insn { op: "shr.u32"@, args: seq!["%swztmp"@, "%c"@, "3"@] }, Insn { op: "shr.u32"@, args: seq!["%tmp2"@, "%r"@, "1"@] }, Insn { op: "and.b32"@, args: seq!["%tmp2"@, "%tmp2"@, args[5]] }, Insn { op: "xor.b32"@, args: seq!["%swztmp"@, "%swztmp"@, "%tmp2"@] }, Insn { op: "shl.b32"@, args: seq!["%swztmp"@, "%swztmp"@, "4"@] }] + p2 + seq![Insn { op: "add.u32"@, args: seq!["%tmp"@, "%tmp"@, args[3]] }, Insn { op: "mul.lo.s32"@, args: seq!["%tmp3"@, "%r"@, args[6]] }, Insn { op: "add.u32"@, args: seq!["%tmp"@, "%tmp"@, "%tmp3"@] }, Insn { op: "add.u32"@, args: seq!["%tmp"@, "%tmp"@, "%swztmp"@] }, Insn { op: "cp.async.cg.shared.global"@, args: seq!["[%tmp]"@, "[%gptr]"@, "16"@] }],
        ),
{
    let t = mma::STAGE_SWIZZLED@;
    reveal_strlit("    shr.u32 %r,%e,#4;\n    and.b32 %c,%e,#5;\n    shl.b32 %c,%c,3;\n    add.u32 %tmp,#0,%r;\n    mul.lo.s32 %tmp,%tmp,%K;\n    add.u32 %tmp,%tmp,%kcol;\n    add.u32 %tmp,%tmp,%c;\n    mul.wide.u32 %off,%tmp,2;\n    add.s64 %gptr,#1,%off;\n    shr.u32 %swztmp,%c,3;\n    shr.u32 %tmp2,%r,1;\n    and.b32 %tmp2,%tmp2,#5;\n    xor.b32 %swztmp,%swztmp,%tmp2;\n    shl.b32 %swztmp,%swztmp,4;\n#2    add.u32 %tmp,%tmp,#3;\n    mul.lo.s32 %tmp3,%r,#6;\n    add.u32 %tmp,%tmp,%tmp3;\n    add.u32 %tmp,%tmp,%swztmp;\n    cp.async.cg.shared.global [%tmp],[%gptr],16;\n");
    reveal_strlit("    shr.u32 %r,%e,#4;\n");
    let l0 = "    shr.u32 %r,%e,#4;\n"@;
    let i0 = Insn { op: "shr.u32"@, args: seq!["%r"@, "%e"@, args[4]] };
    reveal_strlit("    and.b32 %c,%e,#5;\n");
    let l1 = "    and.b32 %c,%e,#5;\n"@;
    let i1 = Insn { op: "and.b32"@, args: seq!["%c"@, "%e"@, args[5]] };
    reveal_strlit("    shl.b32 %c,%c,3;\n");
    let l2 = "    shl.b32 %c,%c,3;\n"@;
    let i2 = Insn { op: "shl.b32"@, args: seq!["%c"@, "%c"@, "3"@] };
    reveal_strlit("    add.u32 %tmp,#0,%r;\n");
    let l3 = "    add.u32 %tmp,#0,%r;\n"@;
    let i3 = Insn { op: "add.u32"@, args: seq!["%tmp"@, args[0], "%r"@] };
    reveal_strlit("    mul.lo.s32 %tmp,%tmp,%K;\n");
    let l4 = "    mul.lo.s32 %tmp,%tmp,%K;\n"@;
    let i4 = Insn { op: "mul.lo.s32"@, args: seq!["%tmp"@, "%tmp"@, "%K"@] };
    reveal_strlit("    add.u32 %tmp,%tmp,%kcol;\n");
    let l5 = "    add.u32 %tmp,%tmp,%kcol;\n"@;
    let i5 = Insn { op: "add.u32"@, args: seq!["%tmp"@, "%tmp"@, "%kcol"@] };
    reveal_strlit("    add.u32 %tmp,%tmp,%c;\n");
    let l6 = "    add.u32 %tmp,%tmp,%c;\n"@;
    let i6 = Insn { op: "add.u32"@, args: seq!["%tmp"@, "%tmp"@, "%c"@] };
    reveal_strlit("    mul.wide.u32 %off,%tmp,2;\n");
    let l7 = "    mul.wide.u32 %off,%tmp,2;\n"@;
    let i7 = Insn { op: "mul.wide.u32"@, args: seq!["%off"@, "%tmp"@, "2"@] };
    reveal_strlit("    add.s64 %gptr,#1,%off;\n");
    let l8 = "    add.s64 %gptr,#1,%off;\n"@;
    let i8 = Insn { op: "add.s64"@, args: seq!["%gptr"@, args[1], "%off"@] };
    reveal_strlit("    shr.u32 %swztmp,%c,3;\n");
    let l9 = "    shr.u32 %swztmp,%c,3;\n"@;
    let i9 = Insn { op: "shr.u32"@, args: seq!["%swztmp"@, "%c"@, "3"@] };
    reveal_strlit("    shr.u32 %tmp2,%r,1;\n");
    let l10 = "    shr.u32 %tmp2,%r,1;\n"@;
    let i10 = Insn { op: "shr.u32"@, args: seq!["%tmp2"@, "%r"@, "1"@] };
    reveal_strlit("    and.b32 %tmp2,%tmp2,#5;\n");
    let l11 = "    and.b32 %tmp2,%tmp2,#5;\n"@;
    let i11 = Insn { op: "and.b32"@, args: seq!["%tmp2"@, "%tmp2"@, args[5]] };
    reveal_strlit("    xor.b32 %swztmp,%swztmp,%tmp2;\n");
    let l12 = "    xor.b32 %swztmp,%swztmp,%tmp2;\n"@;
    let i12 = Insn { op: "xor.b32"@, args: seq!["%swztmp"@, "%swztmp"@, "%tmp2"@] };
    reveal_strlit("    shl.b32 %swztmp,%swztmp,4;\n");
    let l13 = "    shl.b32 %swztmp,%swztmp,4;\n"@;
    let i13 = Insn { op: "shl.b32"@, args: seq!["%swztmp"@, "%swztmp"@, "4"@] };
    let l14 = seq!['#', '2'];
    reveal_strlit("    add.u32 %tmp,%tmp,#3;\n");
    let l15 = "    add.u32 %tmp,%tmp,#3;\n"@;
    let i15 = Insn { op: "add.u32"@, args: seq!["%tmp"@, "%tmp"@, args[3]] };
    reveal_strlit("    mul.lo.s32 %tmp3,%r,#6;\n");
    let l16 = "    mul.lo.s32 %tmp3,%r,#6;\n"@;
    let i16 = Insn { op: "mul.lo.s32"@, args: seq!["%tmp3"@, "%r"@, args[6]] };
    reveal_strlit("    add.u32 %tmp,%tmp,%tmp3;\n");
    let l17 = "    add.u32 %tmp,%tmp,%tmp3;\n"@;
    let i17 = Insn { op: "add.u32"@, args: seq!["%tmp"@, "%tmp"@, "%tmp3"@] };
    reveal_strlit("    add.u32 %tmp,%tmp,%swztmp;\n");
    let l18 = "    add.u32 %tmp,%tmp,%swztmp;\n"@;
    let i18 = Insn { op: "add.u32"@, args: seq!["%tmp"@, "%tmp"@, "%swztmp"@] };
    reveal_strlit("    cp.async.cg.shared.global [%tmp],[%gptr],16;\n");
    let l19 = "    cp.async.cg.shared.global [%tmp],[%gptr],16;\n"@;
    let i19 = Insn { op: "cp.async.cg.shared.global"@, args: seq!["[%tmp]"@, "[%gptr]"@, "16"@] };
    assert(t =~= l0 + l1 + l2 + l3 + l4 + l5 + l6 + l7 + l8 + l9 + l10 + l11 + l12 + l13 + l14 + l15 + l16 + l17 + l18 + l19);
    mma_stage_padded_0(args);
    let q0 = seq![i0];
    mma_stage_padded_1(args);
    frames::lemma_fill_add(l0, l1, args);
    machine::lemma_reads_add(text::fill(l0, args), q0, text::fill(l1, args), seq![i1]);
    let q1 = q0 + seq![i1];
    mma_stage_padded_2(args);
    frames::lemma_fill_add(l0 + l1, l2, args);
    machine::lemma_reads_add(text::fill(l0 + l1, args), q1, text::fill(l2, args), seq![i2]);
    let q2 = q1 + seq![i2];
    mma_stage_padded_3(args);
    frames::lemma_fill_add(l0 + l1 + l2, l3, args);
    machine::lemma_reads_add(text::fill(l0 + l1 + l2, args), q2, text::fill(l3, args), seq![i3]);
    let q3 = q2 + seq![i3];
    mma_stage_padded_4(args);
    frames::lemma_fill_add(l0 + l1 + l2 + l3, l4, args);
    machine::lemma_reads_add(text::fill(l0 + l1 + l2 + l3, args), q3, text::fill(l4, args), seq![i4]);
    let q4 = q3 + seq![i4];
    mma_stage_padded_5(args);
    frames::lemma_fill_add(l0 + l1 + l2 + l3 + l4, l5, args);
    machine::lemma_reads_add(text::fill(l0 + l1 + l2 + l3 + l4, args), q4, text::fill(l5, args), seq![i5]);
    let q5 = q4 + seq![i5];
    mma_stage_padded_6(args);
    frames::lemma_fill_add(l0 + l1 + l2 + l3 + l4 + l5, l6, args);
    machine::lemma_reads_add(text::fill(l0 + l1 + l2 + l3 + l4 + l5, args), q5, text::fill(l6, args), seq![i6]);
    let q6 = q5 + seq![i6];
    mma_stage_padded_7(args);
    frames::lemma_fill_add(l0 + l1 + l2 + l3 + l4 + l5 + l6, l7, args);
    machine::lemma_reads_add(text::fill(l0 + l1 + l2 + l3 + l4 + l5 + l6, args), q6, text::fill(l7, args), seq![i7]);
    let q7 = q6 + seq![i7];
    mma_stage_padded_8(args);
    frames::lemma_fill_add(l0 + l1 + l2 + l3 + l4 + l5 + l6 + l7, l8, args);
    machine::lemma_reads_add(text::fill(l0 + l1 + l2 + l3 + l4 + l5 + l6 + l7, args), q7, text::fill(l8, args), seq![i8]);
    let q8 = q7 + seq![i8];
    mma_stage_swizzled_9(args);
    frames::lemma_fill_add(l0 + l1 + l2 + l3 + l4 + l5 + l6 + l7 + l8, l9, args);
    machine::lemma_reads_add(text::fill(l0 + l1 + l2 + l3 + l4 + l5 + l6 + l7 + l8, args), q8, text::fill(l9, args), seq![i9]);
    let q9 = q8 + seq![i9];
    mma_stage_swizzled_10(args);
    frames::lemma_fill_add(l0 + l1 + l2 + l3 + l4 + l5 + l6 + l7 + l8 + l9, l10, args);
    machine::lemma_reads_add(text::fill(l0 + l1 + l2 + l3 + l4 + l5 + l6 + l7 + l8 + l9, args), q9, text::fill(l10, args), seq![i10]);
    let q10 = q9 + seq![i10];
    mma_stage_swizzled_11(args);
    frames::lemma_fill_add(l0 + l1 + l2 + l3 + l4 + l5 + l6 + l7 + l8 + l9 + l10, l11, args);
    machine::lemma_reads_add(text::fill(l0 + l1 + l2 + l3 + l4 + l5 + l6 + l7 + l8 + l9 + l10, args), q10, text::fill(l11, args), seq![i11]);
    let q11 = q10 + seq![i11];
    mma_stage_swizzled_12(args);
    frames::lemma_fill_add(l0 + l1 + l2 + l3 + l4 + l5 + l6 + l7 + l8 + l9 + l10 + l11, l12, args);
    machine::lemma_reads_add(text::fill(l0 + l1 + l2 + l3 + l4 + l5 + l6 + l7 + l8 + l9 + l10 + l11, args), q11, text::fill(l12, args), seq![i12]);
    let q12 = q11 + seq![i12];
    mma_stage_swizzled_13(args);
    frames::lemma_fill_add(l0 + l1 + l2 + l3 + l4 + l5 + l6 + l7 + l8 + l9 + l10 + l11 + l12, l13, args);
    machine::lemma_reads_add(text::fill(l0 + l1 + l2 + l3 + l4 + l5 + l6 + l7 + l8 + l9 + l10 + l11 + l12, args), q12, text::fill(l13, args), seq![i13]);
    let q13 = q12 + seq![i13];
    lemma_hole('2', args);
    frames::lemma_fill_add(l0 + l1 + l2 + l3 + l4 + l5 + l6 + l7 + l8 + l9 + l10 + l11 + l12 + l13, l14, args);
    machine::lemma_reads_add(text::fill(l0 + l1 + l2 + l3 + l4 + l5 + l6 + l7 + l8 + l9 + l10 + l11 + l12 + l13, args), q13, text::fill(l14, args), p2);
    let q14 = q13 + p2;
    mma_stage_padded_10(args);
    frames::lemma_fill_add(l0 + l1 + l2 + l3 + l4 + l5 + l6 + l7 + l8 + l9 + l10 + l11 + l12 + l13 + l14, l15, args);
    machine::lemma_reads_add(text::fill(l0 + l1 + l2 + l3 + l4 + l5 + l6 + l7 + l8 + l9 + l10 + l11 + l12 + l13 + l14, args), q14, text::fill(l15, args), seq![i15]);
    let q15 = q14 + seq![i15];
    mma_stage_swizzled_16(args);
    frames::lemma_fill_add(l0 + l1 + l2 + l3 + l4 + l5 + l6 + l7 + l8 + l9 + l10 + l11 + l12 + l13 + l14 + l15, l16, args);
    machine::lemma_reads_add(text::fill(l0 + l1 + l2 + l3 + l4 + l5 + l6 + l7 + l8 + l9 + l10 + l11 + l12 + l13 + l14 + l15, args), q15, text::fill(l16, args), seq![i16]);
    let q16 = q15 + seq![i16];
    mma_stage_swizzled_17(args);
    frames::lemma_fill_add(l0 + l1 + l2 + l3 + l4 + l5 + l6 + l7 + l8 + l9 + l10 + l11 + l12 + l13 + l14 + l15 + l16, l17, args);
    machine::lemma_reads_add(text::fill(l0 + l1 + l2 + l3 + l4 + l5 + l6 + l7 + l8 + l9 + l10 + l11 + l12 + l13 + l14 + l15 + l16, args), q16, text::fill(l17, args), seq![i17]);
    let q17 = q16 + seq![i17];
    mma_stage_swizzled_18(args);
    frames::lemma_fill_add(l0 + l1 + l2 + l3 + l4 + l5 + l6 + l7 + l8 + l9 + l10 + l11 + l12 + l13 + l14 + l15 + l16 + l17, l18, args);
    machine::lemma_reads_add(text::fill(l0 + l1 + l2 + l3 + l4 + l5 + l6 + l7 + l8 + l9 + l10 + l11 + l12 + l13 + l14 + l15 + l16 + l17, args), q17, text::fill(l18, args), seq![i18]);
    let q18 = q17 + seq![i18];
    mma_stage_padded_15(args);
    frames::lemma_fill_add(l0 + l1 + l2 + l3 + l4 + l5 + l6 + l7 + l8 + l9 + l10 + l11 + l12 + l13 + l14 + l15 + l16 + l17 + l18, l19, args);
    machine::lemma_reads_add(text::fill(l0 + l1 + l2 + l3 + l4 + l5 + l6 + l7 + l8 + l9 + l10 + l11 + l12 + l13 + l14 + l15 + l16 + l17 + l18, args), q18, text::fill(l19, args), seq![i19]);
    let q19 = q18 + seq![i19];
    assert(q19 =~= seq![Insn { op: "shr.u32"@, args: seq!["%r"@, "%e"@, args[4]] }, Insn { op: "and.b32"@, args: seq!["%c"@, "%e"@, args[5]] }, Insn { op: "shl.b32"@, args: seq!["%c"@, "%c"@, "3"@] }, Insn { op: "add.u32"@, args: seq!["%tmp"@, args[0], "%r"@] }, Insn { op: "mul.lo.s32"@, args: seq!["%tmp"@, "%tmp"@, "%K"@] }, Insn { op: "add.u32"@, args: seq!["%tmp"@, "%tmp"@, "%kcol"@] }, Insn { op: "add.u32"@, args: seq!["%tmp"@, "%tmp"@, "%c"@] }, Insn { op: "mul.wide.u32"@, args: seq!["%off"@, "%tmp"@, "2"@] }, Insn { op: "add.s64"@, args: seq!["%gptr"@, args[1], "%off"@] }, Insn { op: "shr.u32"@, args: seq!["%swztmp"@, "%c"@, "3"@] }, Insn { op: "shr.u32"@, args: seq!["%tmp2"@, "%r"@, "1"@] }, Insn { op: "and.b32"@, args: seq!["%tmp2"@, "%tmp2"@, args[5]] }, Insn { op: "xor.b32"@, args: seq!["%swztmp"@, "%swztmp"@, "%tmp2"@] }, Insn { op: "shl.b32"@, args: seq!["%swztmp"@, "%swztmp"@, "4"@] }] + p2 + seq![Insn { op: "add.u32"@, args: seq!["%tmp"@, "%tmp"@, args[3]] }, Insn { op: "mul.lo.s32"@, args: seq!["%tmp3"@, "%r"@, args[6]] }, Insn { op: "add.u32"@, args: seq!["%tmp"@, "%tmp"@, "%tmp3"@] }, Insn { op: "add.u32"@, args: seq!["%tmp"@, "%tmp"@, "%swztmp"@] }, Insn { op: "cp.async.cg.shared.global"@, args: seq!["[%tmp]"@, "[%gptr]"@, "16"@] }]);
}

/// `add.u32 %aptr,%aptr,%bufcA;`
proof fn mma_a_swizzled_1(args: Seq<Seq<char>>)
    ensures
        reads(
            text::fill("    add.u32 %aptr,%aptr,%bufcA;\n"@, args),
            seq![Insn { op: "add.u32"@, args: seq!["%aptr"@, "%aptr"@, "%bufcA"@] }],
        ),
{
    reveal_strlit("    add.u32 %aptr,%aptr,%bufcA;\n");
    reveal_strlit("%aptr");
    reveal_strlit("%bufcA");
    reveal_strlit("add.u32");
    frames::lemma_fill_plain("    add.u32 %aptr,%aptr,%bufcA;\n"@, args);
    let op = "add.u32"@;
    let given = seq!["%aptr"@, "%aptr"@, "%bufcA"@];
    machine::lemma_listed3("%aptr"@, "%aptr"@, "%bufcA"@);
    assert(text::fill("    add.u32 %aptr,%aptr,%bufcA;\n"@, args) =~= machine::line(op, given));
    machine::lemma_reads_line(op, given);
}

/// `add.u32 %aptr,%aptr,%arowb;`
proof fn mma_a_swizzled_2(args: Seq<Seq<char>>)
    ensures
        reads(
            text::fill("    add.u32 %aptr,%aptr,%arowb;\n"@, args),
            seq![Insn { op: "add.u32"@, args: seq!["%aptr"@, "%aptr"@, "%arowb"@] }],
        ),
{
    reveal_strlit("    add.u32 %aptr,%aptr,%arowb;\n");
    reveal_strlit("%aptr");
    reveal_strlit("%arowb");
    reveal_strlit("add.u32");
    frames::lemma_fill_plain("    add.u32 %aptr,%aptr,%arowb;\n"@, args);
    let op = "add.u32"@;
    let given = seq!["%aptr"@, "%aptr"@, "%arowb"@];
    machine::lemma_listed3("%aptr"@, "%aptr"@, "%arowb"@);
    assert(text::fill("    add.u32 %aptr,%aptr,%arowb;\n"@, args) =~= machine::line(op, given));
    machine::lemma_reads_line(op, given);
}

/// `or.b32 %swztmp,%la16,#1;`
proof fn mma_a_swizzled_3(args: Seq<Seq<char>>)
    requires
        args.len() > 1,
        operand(args[1]),
    ensures
        reads(
            text::fill("    or.b32 %swztmp,%la16,#1;\n"@, args),
            seq![Insn { op: "or.b32"@, args: seq!["%swztmp"@, "%la16"@, args[1]] }],
        ),
{
    reveal_strlit("    or.b32 %swztmp,%la16,");
    reveal_strlit("    or.b32 %swztmp,%la16,#1;\n");
    reveal_strlit("%la16");
    reveal_strlit("%swztmp");
    reveal_strlit(";\n");
    reveal_strlit("or.b32");
    let whole = "    or.b32 %swztmp,%la16,#1;\n"@;
    let x0 = "    or.b32 %swztmp,%la16,"@;
    frames::lemma_fill_plain(x0, args);
    let x1 = seq!['#', '1'];
    lemma_hole('1', args);
    let x2 = ";\n"@;
    frames::lemma_fill_plain(x2, args);
    assert(whole =~= x0 + x1 + x2);
    frames::lemma_fill_add(x0, x1, args);
    frames::lemma_fill_add(x0 + x1, x2, args);
    let op = "or.b32"@;
    let given = seq!["%swztmp"@, "%la16"@, args[1]];
    machine::lemma_listed3("%swztmp"@, "%la16"@, args[1]);
    assert(text::fill(whole, args) =~= machine::line(op, given));
    machine::lemma_reads_line(op, given);
}

/// `xor.b32 %swztmp,%swztmp,%phaseA;`
proof fn mma_a_swizzled_4(args: Seq<Seq<char>>)
    ensures
        reads(
            text::fill("    xor.b32 %swztmp,%swztmp,%phaseA;\n"@, args),
            seq![Insn { op: "xor.b32"@, args: seq!["%swztmp"@, "%swztmp"@, "%phaseA"@] }],
        ),
{
    reveal_strlit("    xor.b32 %swztmp,%swztmp,%phaseA;\n");
    reveal_strlit("%phaseA");
    reveal_strlit("%swztmp");
    reveal_strlit("xor.b32");
    frames::lemma_fill_plain("    xor.b32 %swztmp,%swztmp,%phaseA;\n"@, args);
    let op = "xor.b32"@;
    let given = seq!["%swztmp"@, "%swztmp"@, "%phaseA"@];
    machine::lemma_listed3("%swztmp"@, "%swztmp"@, "%phaseA"@);
    assert(text::fill("    xor.b32 %swztmp,%swztmp,%phaseA;\n"@, args) =~= machine::line(op, given));
    machine::lemma_reads_line(op, given);
}

/// What [`mma::A_SWIZZLED`] spells.
pub proof fn lemma_mma_a_swizzled(args: Seq<Seq<char>>, p0: Seq<Insn>)
    requires
        args.len() > 1,
        operand(args[1]),
        reads(args[0], p0),
    ensures
        reads(
            text::fill(mma::A_SWIZZLED@, args),
            p0 + seq![Insn { op: "add.u32"@, args: seq!["%aptr"@, "%aptr"@, "%bufcA"@] }, Insn { op: "add.u32"@, args: seq!["%aptr"@, "%aptr"@, "%arowb"@] }, Insn { op: "or.b32"@, args: seq!["%swztmp"@, "%la16"@, args[1]] }, Insn { op: "xor.b32"@, args: seq!["%swztmp"@, "%swztmp"@, "%phaseA"@] }, Insn { op: "shl.b32"@, args: seq!["%swztmp"@, "%swztmp"@, "4"@] }],
        ),
{
    let t = mma::A_SWIZZLED@;
    reveal_strlit("#0    add.u32 %aptr,%aptr,%bufcA;\n    add.u32 %aptr,%aptr,%arowb;\n    or.b32 %swztmp,%la16,#1;\n    xor.b32 %swztmp,%swztmp,%phaseA;\n    shl.b32 %swztmp,%swztmp,4;\n");
    let l0 = seq!['#', '0'];
    reveal_strlit("    add.u32 %aptr,%aptr,%bufcA;\n");
    let l1 = "    add.u32 %aptr,%aptr,%bufcA;\n"@;
    let i1 = Insn { op: "add.u32"@, args: seq!["%aptr"@, "%aptr"@, "%bufcA"@] };
    reveal_strlit("    add.u32 %aptr,%aptr,%arowb;\n");
    let l2 = "    add.u32 %aptr,%aptr,%arowb;\n"@;
    let i2 = Insn { op: "add.u32"@, args: seq!["%aptr"@, "%aptr"@, "%arowb"@] };
    reveal_strlit("    or.b32 %swztmp,%la16,#1;\n");
    let l3 = "    or.b32 %swztmp,%la16,#1;\n"@;
    let i3 = Insn { op: "or.b32"@, args: seq!["%swztmp"@, "%la16"@, args[1]] };
    reveal_strlit("    xor.b32 %swztmp,%swztmp,%phaseA;\n");
    let l4 = "    xor.b32 %swztmp,%swztmp,%phaseA;\n"@;
    let i4 = Insn { op: "xor.b32"@, args: seq!["%swztmp"@, "%swztmp"@, "%phaseA"@] };
    reveal_strlit("    shl.b32 %swztmp,%swztmp,4;\n");
    let l5 = "    shl.b32 %swztmp,%swztmp,4;\n"@;
    let i5 = Insn { op: "shl.b32"@, args: seq!["%swztmp"@, "%swztmp"@, "4"@] };
    assert(t =~= l0 + l1 + l2 + l3 + l4 + l5);
    lemma_hole('0', args);
    let q0 = p0;
    mma_a_swizzled_1(args);
    frames::lemma_fill_add(l0, l1, args);
    machine::lemma_reads_add(text::fill(l0, args), q0, text::fill(l1, args), seq![i1]);
    let q1 = q0 + seq![i1];
    mma_a_swizzled_2(args);
    frames::lemma_fill_add(l0 + l1, l2, args);
    machine::lemma_reads_add(text::fill(l0 + l1, args), q1, text::fill(l2, args), seq![i2]);
    let q2 = q1 + seq![i2];
    mma_a_swizzled_3(args);
    frames::lemma_fill_add(l0 + l1 + l2, l3, args);
    machine::lemma_reads_add(text::fill(l0 + l1 + l2, args), q2, text::fill(l3, args), seq![i3]);
    let q3 = q2 + seq![i3];
    mma_a_swizzled_4(args);
    frames::lemma_fill_add(l0 + l1 + l2 + l3, l4, args);
    machine::lemma_reads_add(text::fill(l0 + l1 + l2 + l3, args), q3, text::fill(l4, args), seq![i4]);
    let q4 = q3 + seq![i4];
    mma_stage_swizzled_13(args);
    frames::lemma_fill_add(l0 + l1 + l2 + l3 + l4, l5, args);
    machine::lemma_reads_add(text::fill(l0 + l1 + l2 + l3 + l4, args), q4, text::fill(l5, args), seq![i5]);
    let q5 = q4 + seq![i5];
    assert(q5 =~= p0 + seq![Insn { op: "add.u32"@, args: seq!["%aptr"@, "%aptr"@, "%bufcA"@] }, Insn { op: "add.u32"@, args: seq!["%aptr"@, "%aptr"@, "%arowb"@] }, Insn { op: "or.b32"@, args: seq!["%swztmp"@, "%la16"@, args[1]] }, Insn { op: "xor.b32"@, args: seq!["%swztmp"@, "%swztmp"@, "%phaseA"@] }, Insn { op: "shl.b32"@, args: seq!["%swztmp"@, "%swztmp"@, "4"@] }]);
}

/// `add.u32 %tmp,%aptr,%swztmp;`
proof fn mma_load_a_swizzled_0(args: Seq<Seq<char>>)
    ensures
        reads(
            text::fill("    add.u32 %tmp,%aptr,%swztmp;\n"@, args),
            seq![Insn { op: "add.u32"@, args: seq!["%tmp"@, "%aptr"@, "%swztmp"@] }],
        ),
{
    reveal_strlit("    add.u32 %tmp,%aptr,%swztmp;\n");
    reveal_strlit("%aptr");
    reveal_strlit("%swztmp");
    reveal_strlit("%tmp");
    reveal_strlit("add.u32");
    frames::lemma_fill_plain("    add.u32 %tmp,%aptr,%swztmp;\n"@, args);
    let op = "add.u32"@;
    let given = seq!["%tmp"@, "%aptr"@, "%swztmp"@];
    machine::lemma_listed3("%tmp"@, "%aptr"@, "%swztmp"@);
    assert(text::fill("    add.u32 %tmp,%aptr,%swztmp;\n"@, args) =~= machine::line(op, given));
    machine::lemma_reads_line(op, given);
}

/// `add.u32 %tmp,%tmp,#1;`
proof fn mma_load_a_swizzled_1(args: Seq<Seq<char>>)
    requires
        args.len() > 1,
        operand(args[1]),
    ensures
        reads(
            text::fill("    add.u32 %tmp,%tmp,#1;\n"@, args),
            seq![Insn { op: "add.u32"@, args: seq!["%tmp"@, "%tmp"@, args[1]] }],
        ),
{
    reveal_strlit("    add.u32 %tmp,%tmp,");
    reveal_strlit("    add.u32 %tmp,%tmp,#1;\n");
    reveal_strlit("%tmp");
    reveal_strlit(";\n");
    reveal_strlit("add.u32");
    let whole = "    add.u32 %tmp,%tmp,#1;\n"@;
    let x0 = "    add.u32 %tmp,%tmp,"@;
    frames::lemma_fill_plain(x0, args);
    let x1 = seq!['#', '1'];
    lemma_hole('1', args);
    let x2 = ";\n"@;
    frames::lemma_fill_plain(x2, args);
    assert(whole =~= x0 + x1 + x2);
    frames::lemma_fill_add(x0, x1, args);
    frames::lemma_fill_add(x0 + x1, x2, args);
    let op = "add.u32"@;
    let given = seq!["%tmp"@, "%tmp"@, args[1]];
    machine::lemma_listed3("%tmp"@, "%tmp"@, args[1]);
    assert(text::fill(whole, args) =~= machine::line(op, given));
    machine::lemma_reads_line(op, given);
}

/// `ldmatrix.sync.aligned.m8n8.x4.shared.b16 {%a#0_0,%a#0_1,%a#0_2,%a#0_3},[%tmp];`
proof fn mma_load_a_swizzled_2(args: Seq<Seq<char>>)
    requires
        args.len() > 0,
        operand(args[0]),
    ensures
        reads(
            text::fill("    ldmatrix.sync.aligned.m8n8.x4.shared.b16 {%a#0_0,%a#0_1,%a#0_2,%a#0_3},[%tmp];\n"@, args),
            seq![Insn { op: "ldmatrix.sync.aligned.m8n8.x4.shared.b16"@, args: seq!["{%a"@ + args[0] + "_0"@, "%a"@ + args[0] + "_1"@, "%a"@ + args[0] + "_2"@, "%a"@ + args[0] + "_3}"@, "[%tmp]"@] }],
        ),
{
    reveal_strlit("    ldmatrix.sync.aligned.m8n8.x4.shared.b16 {%a");
    reveal_strlit("    ldmatrix.sync.aligned.m8n8.x4.shared.b16 {%a#0_0,%a#0_1,%a#0_2,%a#0_3},[%tmp];\n");
    reveal_strlit("%a");
    reveal_strlit("[%tmp]");
    reveal_strlit("_0");
    reveal_strlit("_0,%a");
    reveal_strlit("_1");
    reveal_strlit("_1,%a");
    reveal_strlit("_2");
    reveal_strlit("_2,%a");
    reveal_strlit("_3}");
    reveal_strlit("_3},[%tmp];\n");
    reveal_strlit("ldmatrix.sync.aligned.m8n8.x4.shared.b16");
    reveal_strlit("{%a");
    let whole = "    ldmatrix.sync.aligned.m8n8.x4.shared.b16 {%a#0_0,%a#0_1,%a#0_2,%a#0_3},[%tmp];\n"@;
    let x0 = "    ldmatrix.sync.aligned.m8n8.x4.shared.b16 {%a"@;
    frames::lemma_fill_plain(x0, args);
    let x1 = seq!['#', '0'];
    lemma_hole('0', args);
    let x2 = "_0,%a"@;
    frames::lemma_fill_plain(x2, args);
    let x3 = seq!['#', '0'];
    lemma_hole('0', args);
    let x4 = "_1,%a"@;
    frames::lemma_fill_plain(x4, args);
    let x5 = seq!['#', '0'];
    lemma_hole('0', args);
    let x6 = "_2,%a"@;
    frames::lemma_fill_plain(x6, args);
    let x7 = seq!['#', '0'];
    lemma_hole('0', args);
    let x8 = "_3},[%tmp];\n"@;
    frames::lemma_fill_plain(x8, args);
    assert(whole =~= x0 + x1 + x2 + x3 + x4 + x5 + x6 + x7 + x8);
    frames::lemma_fill_add(x0, x1, args);
    frames::lemma_fill_add(x0 + x1, x2, args);
    frames::lemma_fill_add(x0 + x1 + x2, x3, args);
    frames::lemma_fill_add(x0 + x1 + x2 + x3, x4, args);
    frames::lemma_fill_add(x0 + x1 + x2 + x3 + x4, x5, args);
    frames::lemma_fill_add(x0 + x1 + x2 + x3 + x4 + x5, x6, args);
    frames::lemma_fill_add(x0 + x1 + x2 + x3 + x4 + x5 + x6, x7, args);
    frames::lemma_fill_add(x0 + x1 + x2 + x3 + x4 + x5 + x6 + x7, x8, args);
    let op = "ldmatrix.sync.aligned.m8n8.x4.shared.b16"@;
    let given = seq!["{%a"@ + args[0] + "_0"@, "%a"@ + args[0] + "_1"@, "%a"@ + args[0] + "_2"@, "%a"@ + args[0] + "_3}"@, "[%tmp]"@];
    machine::lemma_listed5("{%a"@ + args[0] + "_0"@, "%a"@ + args[0] + "_1"@, "%a"@ + args[0] + "_2"@, "%a"@ + args[0] + "_3}"@, "[%tmp]"@);
    assert(text::fill(whole, args) =~= machine::line(op, given));
    machine::lemma_reads_line(op, given);
}

/// What [`mma::LOAD_A_SWIZZLED`] spells.
pub proof fn lemma_mma_load_a_swizzled(args: Seq<Seq<char>>)
    requires
        args.len() > 1,
        operand(args[0]),
        operand(args[1]),
    ensures
        reads(
            text::fill(mma::LOAD_A_SWIZZLED@, args),
            seq![Insn { op: "add.u32"@, args: seq!["%tmp"@, "%aptr"@, "%swztmp"@] }, Insn { op: "add.u32"@, args: seq!["%tmp"@, "%tmp"@, args[1]] }, Insn { op: "ldmatrix.sync.aligned.m8n8.x4.shared.b16"@, args: seq!["{%a"@ + args[0] + "_0"@, "%a"@ + args[0] + "_1"@, "%a"@ + args[0] + "_2"@, "%a"@ + args[0] + "_3}"@, "[%tmp]"@] }],
        ),
{
    let t = mma::LOAD_A_SWIZZLED@;
    reveal_strlit("    add.u32 %tmp,%aptr,%swztmp;\n    add.u32 %tmp,%tmp,#1;\n    ldmatrix.sync.aligned.m8n8.x4.shared.b16 {%a#0_0,%a#0_1,%a#0_2,%a#0_3},[%tmp];\n");
    reveal_strlit("    add.u32 %tmp,%aptr,%swztmp;\n");
    let l0 = "    add.u32 %tmp,%aptr,%swztmp;\n"@;
    let i0 = Insn { op: "add.u32"@, args: seq!["%tmp"@, "%aptr"@, "%swztmp"@] };
    reveal_strlit("    add.u32 %tmp,%tmp,#1;\n");
    let l1 = "    add.u32 %tmp,%tmp,#1;\n"@;
    let i1 = Insn { op: "add.u32"@, args: seq!["%tmp"@, "%tmp"@, args[1]] };
    reveal_strlit("    ldmatrix.sync.aligned.m8n8.x4.shared.b16 {%a#0_0,%a#0_1,%a#0_2,%a#0_3},[%tmp];\n");
    let l2 = "    ldmatrix.sync.aligned.m8n8.x4.shared.b16 {%a#0_0,%a#0_1,%a#0_2,%a#0_3},[%tmp];\n"@;
    let i2 = Insn { op: "ldmatrix.sync.aligned.m8n8.x4.shared.b16"@, args: seq!["{%a"@ + args[0] + "_0"@, "%a"@ + args[0] + "_1"@, "%a"@ + args[0] + "_2"@, "%a"@ + args[0] + "_3}"@, "[%tmp]"@] };
    assert(t =~= l0 + l1 + l2);
    mma_load_a_swizzled_0(args);
    let q0 = seq![i0];
    mma_load_a_swizzled_1(args);
    frames::lemma_fill_add(l0, l1, args);
    machine::lemma_reads_add(text::fill(l0, args), q0, text::fill(l1, args), seq![i1]);
    let q1 = q0 + seq![i1];
    mma_load_a_swizzled_2(args);
    frames::lemma_fill_add(l0 + l1, l2, args);
    machine::lemma_reads_add(text::fill(l0 + l1, args), q1, text::fill(l2, args), seq![i2]);
    let q2 = q1 + seq![i2];
    assert(q2 =~= seq![Insn { op: "add.u32"@, args: seq!["%tmp"@, "%aptr"@, "%swztmp"@] }, Insn { op: "add.u32"@, args: seq!["%tmp"@, "%tmp"@, args[1]] }, Insn { op: "ldmatrix.sync.aligned.m8n8.x4.shared.b16"@, args: seq!["{%a"@ + args[0] + "_0"@, "%a"@ + args[0] + "_1"@, "%a"@ + args[0] + "_2"@, "%a"@ + args[0] + "_3}"@, "[%tmp]"@] }]);
}

/// `add.u32 %bptr,%bptr,#2;`
proof fn mma_b_swizzled_1(args: Seq<Seq<char>>)
    requires
        args.len() > 2,
        operand(args[2]),
    ensures
        reads(
            text::fill("    add.u32 %bptr,%bptr,#2;\n"@, args),
            seq![Insn { op: "add.u32"@, args: seq!["%bptr"@, "%bptr"@, args[2]] }],
        ),
{
    reveal_strlit("    add.u32 %bptr,%bptr,");
    reveal_strlit("    add.u32 %bptr,%bptr,#2;\n");
    reveal_strlit("%bptr");
    reveal_strlit(";\n");
    reveal_strlit("add.u32");
    let whole = "    add.u32 %bptr,%bptr,#2;\n"@;
    let x0 = "    add.u32 %bptr,%bptr,"@;
    frames::lemma_fill_plain(x0, args);
    let x1 = seq!['#', '2'];
    lemma_hole('2', args);
    let x2 = ";\n"@;
    frames::lemma_fill_plain(x2, args);
    assert(whole =~= x0 + x1 + x2);
    frames::lemma_fill_add(x0, x1, args);
    frames::lemma_fill_add(x0 + x1, x2, args);
    let op = "add.u32"@;
    let given = seq!["%bptr"@, "%bptr"@, args[2]];
    machine::lemma_listed3("%bptr"@, "%bptr"@, args[2]);
    assert(text::fill(whole, args) =~= machine::line(op, given));
    machine::lemma_reads_line(op, given);
}

/// `add.u32 %bptr,%bptr,%browb;`
proof fn mma_b_swizzled_2(args: Seq<Seq<char>>)
    ensures
        reads(
            text::fill("    add.u32 %bptr,%bptr,%browb;\n"@, args),
            seq![Insn { op: "add.u32"@, args: seq!["%bptr"@, "%bptr"@, "%browb"@] }],
        ),
{
    reveal_strlit("    add.u32 %bptr,%bptr,%browb;\n");
    reveal_strlit("%bptr");
    reveal_strlit("%browb");
    reveal_strlit("add.u32");
    frames::lemma_fill_plain("    add.u32 %bptr,%bptr,%browb;\n"@, args);
    let op = "add.u32"@;
    let given = seq!["%bptr"@, "%bptr"@, "%browb"@];
    machine::lemma_listed3("%bptr"@, "%bptr"@, "%browb"@);
    assert(text::fill("    add.u32 %bptr,%bptr,%browb;\n"@, args) =~= machine::line(op, given));
    machine::lemma_reads_line(op, given);
}

/// `or.b32 %swztmp,%lb8,#1;`
proof fn mma_b_swizzled_3(args: Seq<Seq<char>>)
    requires
        args.len() > 1,
        operand(args[1]),
    ensures
        reads(
            text::fill("    or.b32 %swztmp,%lb8,#1;\n"@, args),
            seq![Insn { op: "or.b32"@, args: seq!["%swztmp"@, "%lb8"@, args[1]] }],
        ),
{
    reveal_strlit("    or.b32 %swztmp,%lb8,");
    reveal_strlit("    or.b32 %swztmp,%lb8,#1;\n");
    reveal_strlit("%lb8");
    reveal_strlit("%swztmp");
    reveal_strlit(";\n");
    reveal_strlit("or.b32");
    let whole = "    or.b32 %swztmp,%lb8,#1;\n"@;
    let x0 = "    or.b32 %swztmp,%lb8,"@;
    frames::lemma_fill_plain(x0, args);
    let x1 = seq!['#', '1'];
    lemma_hole('1', args);
    let x2 = ";\n"@;
    frames::lemma_fill_plain(x2, args);
    assert(whole =~= x0 + x1 + x2);
    frames::lemma_fill_add(x0, x1, args);
    frames::lemma_fill_add(x0 + x1, x2, args);
    let op = "or.b32"@;
    let given = seq!["%swztmp"@, "%lb8"@, args[1]];
    machine::lemma_listed3("%swztmp"@, "%lb8"@, args[1]);
    assert(text::fill(whole, args) =~= machine::line(op, given));
    machine::lemma_reads_line(op, given);
}

/// `xor.b32 %swztmp,%swztmp,%phaseB;`
proof fn mma_b_swizzled_4(args: Seq<Seq<char>>)
    ensures
        reads(
            text::fill("    xor.b32 %swztmp,%swztmp,%phaseB;\n"@, args),
            seq![Insn { op: "xor.b32"@, args: seq!["%swztmp"@, "%swztmp"@, "%phaseB"@] }],
        ),
{
    reveal_strlit("    xor.b32 %swztmp,%swztmp,%phaseB;\n");
    reveal_strlit("%phaseB");
    reveal_strlit("%swztmp");
    reveal_strlit("xor.b32");
    frames::lemma_fill_plain("    xor.b32 %swztmp,%swztmp,%phaseB;\n"@, args);
    let op = "xor.b32"@;
    let given = seq!["%swztmp"@, "%swztmp"@, "%phaseB"@];
    machine::lemma_listed3("%swztmp"@, "%swztmp"@, "%phaseB"@);
    assert(text::fill("    xor.b32 %swztmp,%swztmp,%phaseB;\n"@, args) =~= machine::line(op, given));
    machine::lemma_reads_line(op, given);
}

/// What [`mma::B_SWIZZLED`] spells.
pub proof fn lemma_mma_b_swizzled(args: Seq<Seq<char>>, p0: Seq<Insn>)
    requires
        args.len() > 2,
        operand(args[1]),
        operand(args[2]),
        reads(args[0], p0),
    ensures
        reads(
            text::fill(mma::B_SWIZZLED@, args),
            p0 + seq![Insn { op: "add.u32"@, args: seq!["%bptr"@, "%bptr"@, args[2]] }, Insn { op: "add.u32"@, args: seq!["%bptr"@, "%bptr"@, "%browb"@] }, Insn { op: "or.b32"@, args: seq!["%swztmp"@, "%lb8"@, args[1]] }, Insn { op: "xor.b32"@, args: seq!["%swztmp"@, "%swztmp"@, "%phaseB"@] }, Insn { op: "shl.b32"@, args: seq!["%swztmp"@, "%swztmp"@, "4"@] }],
        ),
{
    let t = mma::B_SWIZZLED@;
    reveal_strlit("#0    add.u32 %bptr,%bptr,#2;\n    add.u32 %bptr,%bptr,%browb;\n    or.b32 %swztmp,%lb8,#1;\n    xor.b32 %swztmp,%swztmp,%phaseB;\n    shl.b32 %swztmp,%swztmp,4;\n");
    let l0 = seq!['#', '0'];
    reveal_strlit("    add.u32 %bptr,%bptr,#2;\n");
    let l1 = "    add.u32 %bptr,%bptr,#2;\n"@;
    let i1 = Insn { op: "add.u32"@, args: seq!["%bptr"@, "%bptr"@, args[2]] };
    reveal_strlit("    add.u32 %bptr,%bptr,%browb;\n");
    let l2 = "    add.u32 %bptr,%bptr,%browb;\n"@;
    let i2 = Insn { op: "add.u32"@, args: seq!["%bptr"@, "%bptr"@, "%browb"@] };
    reveal_strlit("    or.b32 %swztmp,%lb8,#1;\n");
    let l3 = "    or.b32 %swztmp,%lb8,#1;\n"@;
    let i3 = Insn { op: "or.b32"@, args: seq!["%swztmp"@, "%lb8"@, args[1]] };
    reveal_strlit("    xor.b32 %swztmp,%swztmp,%phaseB;\n");
    let l4 = "    xor.b32 %swztmp,%swztmp,%phaseB;\n"@;
    let i4 = Insn { op: "xor.b32"@, args: seq!["%swztmp"@, "%swztmp"@, "%phaseB"@] };
    reveal_strlit("    shl.b32 %swztmp,%swztmp,4;\n");
    let l5 = "    shl.b32 %swztmp,%swztmp,4;\n"@;
    let i5 = Insn { op: "shl.b32"@, args: seq!["%swztmp"@, "%swztmp"@, "4"@] };
    assert(t =~= l0 + l1 + l2 + l3 + l4 + l5);
    lemma_hole('0', args);
    let q0 = p0;
    mma_b_swizzled_1(args);
    frames::lemma_fill_add(l0, l1, args);
    machine::lemma_reads_add(text::fill(l0, args), q0, text::fill(l1, args), seq![i1]);
    let q1 = q0 + seq![i1];
    mma_b_swizzled_2(args);
    frames::lemma_fill_add(l0 + l1, l2, args);
    machine::lemma_reads_add(text::fill(l0 + l1, args), q1, text::fill(l2, args), seq![i2]);
    let q2 = q1 + seq![i2];
    mma_b_swizzled_3(args);
    frames::lemma_fill_add(l0 + l1 + l2, l3, args);
    machine::lemma_reads_add(text::fill(l0 + l1 + l2, args), q2, text::fill(l3, args), seq![i3]);
    let q3 = q2 + seq![i3];
    mma_b_swizzled_4(args);
    frames::lemma_fill_add(l0 + l1 + l2 + l3, l4, args);
    machine::lemma_reads_add(text::fill(l0 + l1 + l2 + l3, args), q3, text::fill(l4, args), seq![i4]);
    let q4 = q3 + seq![i4];
    mma_stage_swizzled_13(args);
    frames::lemma_fill_add(l0 + l1 + l2 + l3 + l4, l5, args);
    machine::lemma_reads_add(text::fill(l0 + l1 + l2 + l3 + l4, args), q4, text::fill(l5, args), seq![i5]);
    let q5 = q4 + seq![i5];
    assert(q5 =~= p0 + seq![Insn { op: "add.u32"@, args: seq!["%bptr"@, "%bptr"@, args[2]] }, Insn { op: "add.u32"@, args: seq!["%bptr"@, "%bptr"@, "%browb"@] }, Insn { op: "or.b32"@, args: seq!["%swztmp"@, "%lb8"@, args[1]] }, Insn { op: "xor.b32"@, args: seq!["%swztmp"@, "%swztmp"@, "%phaseB"@] }, Insn { op: "shl.b32"@, args: seq!["%swztmp"@, "%swztmp"@, "4"@] }]);
}

/// `add.u32 %tmp,%bptr,%swztmp;`
proof fn mma_load_b_swizzled_0(args: Seq<Seq<char>>)
    ensures
        reads(
            text::fill("    add.u32 %tmp,%bptr,%swztmp;\n"@, args),
            seq![Insn { op: "add.u32"@, args: seq!["%tmp"@, "%bptr"@, "%swztmp"@] }],
        ),
{
    reveal_strlit("    add.u32 %tmp,%bptr,%swztmp;\n");
    reveal_strlit("%bptr");
    reveal_strlit("%swztmp");
    reveal_strlit("%tmp");
    reveal_strlit("add.u32");
    frames::lemma_fill_plain("    add.u32 %tmp,%bptr,%swztmp;\n"@, args);
    let op = "add.u32"@;
    let given = seq!["%tmp"@, "%bptr"@, "%swztmp"@];
    machine::lemma_listed3("%tmp"@, "%bptr"@, "%swztmp"@);
    assert(text::fill("    add.u32 %tmp,%bptr,%swztmp;\n"@, args) =~= machine::line(op, given));
    machine::lemma_reads_line(op, given);
}

/// `ldmatrix.sync.aligned.m8n8.x2.shared.b16 {%#2#0_0,%#2#0_1},[%tmp];`
proof fn mma_load_b_swizzled_2(args: Seq<Seq<char>>)
    requires
        args.len() > 2,
        operand(args[0]),
        operand(args[2]),
    ensures
        reads(
            text::fill("    ldmatrix.sync.aligned.m8n8.x2.shared.b16 {%#2#0_0,%#2#0_1},[%tmp];\n"@, args),
            seq![Insn { op: "ldmatrix.sync.aligned.m8n8.x2.shared.b16"@, args: seq!["{%"@ + args[2] + args[0] + "_0"@, "%"@ + args[2] + args[0] + "_1}"@, "[%tmp]"@] }],
        ),
{
    reveal_strlit("    ldmatrix.sync.aligned.m8n8.x2.shared.b16 {%");
    reveal_strlit("    ldmatrix.sync.aligned.m8n8.x2.shared.b16 {%#2#0_0,%#2#0_1},[%tmp];\n");
    reveal_strlit("%");
    reveal_strlit("[%tmp]");
    reveal_strlit("_0");
    reveal_strlit("_0,%");
    reveal_strlit("_1}");
    reveal_strlit("_1},[%tmp];\n");
    reveal_strlit("ldmatrix.sync.aligned.m8n8.x2.shared.b16");
    reveal_strlit("{%");
    let whole = "    ldmatrix.sync.aligned.m8n8.x2.shared.b16 {%#2#0_0,%#2#0_1},[%tmp];\n"@;
    let x0 = "    ldmatrix.sync.aligned.m8n8.x2.shared.b16 {%"@;
    frames::lemma_fill_plain(x0, args);
    let x1 = seq!['#', '2'];
    lemma_hole('2', args);
    let x2 = seq!['#', '0'];
    lemma_hole('0', args);
    let x3 = "_0,%"@;
    frames::lemma_fill_plain(x3, args);
    let x4 = seq!['#', '2'];
    lemma_hole('2', args);
    let x5 = seq!['#', '0'];
    lemma_hole('0', args);
    let x6 = "_1},[%tmp];\n"@;
    frames::lemma_fill_plain(x6, args);
    assert(whole =~= x0 + x1 + x2 + x3 + x4 + x5 + x6);
    frames::lemma_fill_add(x0, x1, args);
    frames::lemma_fill_add(x0 + x1, x2, args);
    frames::lemma_fill_add(x0 + x1 + x2, x3, args);
    frames::lemma_fill_add(x0 + x1 + x2 + x3, x4, args);
    frames::lemma_fill_add(x0 + x1 + x2 + x3 + x4, x5, args);
    frames::lemma_fill_add(x0 + x1 + x2 + x3 + x4 + x5, x6, args);
    let op = "ldmatrix.sync.aligned.m8n8.x2.shared.b16"@;
    let given = seq!["{%"@ + args[2] + args[0] + "_0"@, "%"@ + args[2] + args[0] + "_1}"@, "[%tmp]"@];
    machine::lemma_listed3("{%"@ + args[2] + args[0] + "_0"@, "%"@ + args[2] + args[0] + "_1}"@, "[%tmp]"@);
    assert(text::fill(whole, args) =~= machine::line(op, given));
    machine::lemma_reads_line(op, given);
}

/// What [`mma::LOAD_B_SWIZZLED`] spells.
pub proof fn lemma_mma_load_b_swizzled(args: Seq<Seq<char>>)
    requires
        args.len() > 2,
        operand(args[0]),
        operand(args[1]),
        operand(args[2]),
    ensures
        reads(
            text::fill(mma::LOAD_B_SWIZZLED@, args),
            seq![Insn { op: "add.u32"@, args: seq!["%tmp"@, "%bptr"@, "%swztmp"@] }, Insn { op: "add.u32"@, args: seq!["%tmp"@, "%tmp"@, args[1]] }, Insn { op: "ldmatrix.sync.aligned.m8n8.x2.shared.b16"@, args: seq!["{%"@ + args[2] + args[0] + "_0"@, "%"@ + args[2] + args[0] + "_1}"@, "[%tmp]"@] }],
        ),
{
    let t = mma::LOAD_B_SWIZZLED@;
    reveal_strlit("    add.u32 %tmp,%bptr,%swztmp;\n    add.u32 %tmp,%tmp,#1;\n    ldmatrix.sync.aligned.m8n8.x2.shared.b16 {%#2#0_0,%#2#0_1},[%tmp];\n");
    reveal_strlit("    add.u32 %tmp,%bptr,%swztmp;\n");
    let l0 = "    add.u32 %tmp,%bptr,%swztmp;\n"@;
    let i0 = Insn { op: "add.u32"@, args: seq!["%tmp"@, "%bptr"@, "%swztmp"@] };
    reveal_strlit("    add.u32 %tmp,%tmp,#1;\n");
    let l1 = "    add.u32 %tmp,%tmp,#1;\n"@;
    let i1 = Insn { op: "add.u32"@, args: seq!["%tmp"@, "%tmp"@, args[1]] };
    reveal_strlit("    ldmatrix.sync.aligned.m8n8.x2.shared.b16 {%#2#0_0,%#2#0_1},[%tmp];\n");
    let l2 = "    ldmatrix.sync.aligned.m8n8.x2.shared.b16 {%#2#0_0,%#2#0_1},[%tmp];\n"@;
    let i2 = Insn { op: "ldmatrix.sync.aligned.m8n8.x2.shared.b16"@, args: seq!["{%"@ + args[2] + args[0] + "_0"@, "%"@ + args[2] + args[0] + "_1}"@, "[%tmp]"@] };
    assert(t =~= l0 + l1 + l2);
    mma_load_b_swizzled_0(args);
    let q0 = seq![i0];
    mma_load_a_swizzled_1(args);
    frames::lemma_fill_add(l0, l1, args);
    machine::lemma_reads_add(text::fill(l0, args), q0, text::fill(l1, args), seq![i1]);
    let q1 = q0 + seq![i1];
    mma_load_b_swizzled_2(args);
    frames::lemma_fill_add(l0 + l1, l2, args);
    machine::lemma_reads_add(text::fill(l0 + l1, args), q1, text::fill(l2, args), seq![i2]);
    let q2 = q1 + seq![i2];
    assert(q2 =~= seq![Insn { op: "add.u32"@, args: seq!["%tmp"@, "%bptr"@, "%swztmp"@] }, Insn { op: "add.u32"@, args: seq!["%tmp"@, "%tmp"@, args[1]] }, Insn { op: "ldmatrix.sync.aligned.m8n8.x2.shared.b16"@, args: seq!["{%"@ + args[2] + args[0] + "_0"@, "%"@ + args[2] + args[0] + "_1}"@, "[%tmp]"@] }]);
}

/// `mul.lo.s32 %tmp,%warpMrow,#2;`
proof fn mma_a_padded_2(args: Seq<Seq<char>>)
    requires
        args.len() > 2,
        operand(args[2]),
    ensures
        reads(
            text::fill("    mul.lo.s32 %tmp,%warpMrow,#2;\n"@, args),
            seq![Insn { op: "mul.lo.s32"@, args: seq!["%tmp"@, "%warpMrow"@, args[2]] }],
        ),
{
    reveal_strlit("    mul.lo.s32 %tmp,%warpMrow,");
    reveal_strlit("    mul.lo.s32 %tmp,%warpMrow,#2;\n");
    reveal_strlit("%tmp");
    reveal_strlit("%warpMrow");
    reveal_strlit(";\n");
    reveal_strlit("mul.lo.s32");
    let whole = "    mul.lo.s32 %tmp,%warpMrow,#2;\n"@;
    let x0 = "    mul.lo.s32 %tmp,%warpMrow,"@;
    frames::lemma_fill_plain(x0, args);
    let x1 = seq!['#', '2'];
    lemma_hole('2', args);
    let x2 = ";\n"@;
    frames::lemma_fill_plain(x2, args);
    assert(whole =~= x0 + x1 + x2);
    frames::lemma_fill_add(x0, x1, args);
    frames::lemma_fill_add(x0 + x1, x2, args);
    let op = "mul.lo.s32"@;
    let given = seq!["%tmp"@, "%warpMrow"@, args[2]];
    machine::lemma_listed3("%tmp"@, "%warpMrow"@, args[2]);
    assert(text::fill(whole, args) =~= machine::line(op, given));
    machine::lemma_reads_line(op, given);
}

/// `shl.b32 %tmp,%tmp,1;`
proof fn mma_a_padded_3(args: Seq<Seq<char>>)
    ensures
        reads(
            text::fill("    shl.b32 %tmp,%tmp,1;\n"@, args),
            seq![Insn { op: "shl.b32"@, args: seq!["%tmp"@, "%tmp"@, "1"@] }],
        ),
{
    reveal_strlit("    shl.b32 %tmp,%tmp,1;\n");
    reveal_strlit("%tmp");
    reveal_strlit("1");
    reveal_strlit("shl.b32");
    frames::lemma_fill_plain("    shl.b32 %tmp,%tmp,1;\n"@, args);
    let op = "shl.b32"@;
    let given = seq!["%tmp"@, "%tmp"@, "1"@];
    machine::lemma_listed3("%tmp"@, "%tmp"@, "1"@);
    assert(text::fill("    shl.b32 %tmp,%tmp,1;\n"@, args) =~= machine::line(op, given));
    machine::lemma_reads_line(op, given);
}

/// `add.u32 %aptr,%aptr,%tmp;`
proof fn mma_a_padded_4(args: Seq<Seq<char>>)
    ensures
        reads(
            text::fill("    add.u32 %aptr,%aptr,%tmp;\n"@, args),
            seq![Insn { op: "add.u32"@, args: seq!["%aptr"@, "%aptr"@, "%tmp"@] }],
        ),
{
    reveal_strlit("    add.u32 %aptr,%aptr,%tmp;\n");
    reveal_strlit("%aptr");
    reveal_strlit("%tmp");
    reveal_strlit("add.u32");
    frames::lemma_fill_plain("    add.u32 %aptr,%aptr,%tmp;\n"@, args);
    let op = "add.u32"@;
    let given = seq!["%aptr"@, "%aptr"@, "%tmp"@];
    machine::lemma_listed3("%aptr"@, "%aptr"@, "%tmp"@);
    assert(text::fill("    add.u32 %aptr,%aptr,%tmp;\n"@, args) =~= machine::line(op, given));
    machine::lemma_reads_line(op, given);
}

/// `add.u32 %aptr,%aptr,%laneoff;`
proof fn mma_a_padded_5(args: Seq<Seq<char>>)
    ensures
        reads(
            text::fill("    add.u32 %aptr,%aptr,%laneoff;\n"@, args),
            seq![Insn { op: "add.u32"@, args: seq!["%aptr"@, "%aptr"@, "%laneoff"@] }],
        ),
{
    reveal_strlit("    add.u32 %aptr,%aptr,%laneoff;\n");
    reveal_strlit("%aptr");
    reveal_strlit("%laneoff");
    reveal_strlit("add.u32");
    frames::lemma_fill_plain("    add.u32 %aptr,%aptr,%laneoff;\n"@, args);
    let op = "add.u32"@;
    let given = seq!["%aptr"@, "%aptr"@, "%laneoff"@];
    machine::lemma_listed3("%aptr"@, "%aptr"@, "%laneoff"@);
    assert(text::fill("    add.u32 %aptr,%aptr,%laneoff;\n"@, args) =~= machine::line(op, given));
    machine::lemma_reads_line(op, given);
}

/// `add.u32 %aptr,%aptr,#1;`
proof fn mma_a_padded_6(args: Seq<Seq<char>>)
    requires
        args.len() > 1,
        operand(args[1]),
    ensures
        reads(
            text::fill("    add.u32 %aptr,%aptr,#1;\n"@, args),
            seq![Insn { op: "add.u32"@, args: seq!["%aptr"@, "%aptr"@, args[1]] }],
        ),
{
    reveal_strlit("    add.u32 %aptr,%aptr,");
    reveal_strlit("    add.u32 %aptr,%aptr,#1;\n");
    reveal_strlit("%aptr");
    reveal_strlit(";\n");
    reveal_strlit("add.u32");
    let whole = "    add.u32 %aptr,%aptr,#1;\n"@;
    let x0 = "    add.u32 %aptr,%aptr,"@;
    frames::lemma_fill_plain(x0, args);
    let x1 = seq!['#', '1'];
    lemma_hole('1', args);
    let x2 = ";\n"@;
    frames::lemma_fill_plain(x2, args);
    assert(whole =~= x0 + x1 + x2);
    frames::lemma_fill_add(x0, x1, args);
    frames::lemma_fill_add(x0 + x1, x2, args);
    let op = "add.u32"@;
    let given = seq!["%aptr"@, "%aptr"@, args[1]];
    machine::lemma_listed3("%aptr"@, "%aptr"@, args[1]);
    assert(text::fill(whole, args) =~= machine::line(op, given));
    machine::lemma_reads_line(op, given);
}

/// What [`mma::A_PADDED`] spells.
pub proof fn lemma_mma_a_padded(args: Seq<Seq<char>>, p0: Seq<Insn>)
    requires
        args.len() > 2,
        operand(args[1]),
        operand(args[2]),
        reads(args[0], p0),
    ensures
        reads(
            text::fill(mma::A_PADDED@, args),
            p0 + seq![Insn { op: "add.u32"@, args: seq!["%aptr"@, "%aptr"@, "%bufcA"@] }, Insn { op: "mul.lo.s32"@, args: seq!["%tmp"@, "%warpMrow"@, args[2]] }, Insn { op: "shl.b32"@, args: seq!["%tmp"@, "%tmp"@, "1"@] }, Insn { op: "add.u32"@, args: seq!["%aptr"@, "%aptr"@, "%tmp"@] }, Insn { op: "add.u32"@, args: seq!["%aptr"@, "%aptr"@, "%laneoff"@] }, Insn { op: "add.u32"@, args: seq!["%aptr"@, "%aptr"@, args[1]] }],
        ),
{
    let t = mma::A_PADDED@;
    reveal_strlit("#0    add.u32 %aptr,%aptr,%bufcA;\n    mul.lo.s32 %tmp,%warpMrow,#2;\n    shl.b32 %tmp,%tmp,1;\n    add.u32 %aptr,%aptr,%tmp;\n    add.u32 %aptr,%aptr,%laneoff;\n    add.u32 %aptr,%aptr,#1;\n");
    let l0 = seq!['#', '0'];
    reveal_strlit("    add.u32 %aptr,%aptr,%bufcA;\n");
    let l1 = "    add.u32 %aptr,%aptr,%bufcA;\n"@;
    let i1 = Insn { op: "add.u32"@, args: seq!["%aptr"@, "%aptr"@, "%bufcA"@] };
    reveal_strlit("    mul.lo.s32 %tmp,%warpMrow,#2;\n");
    let l2 = "    mul.lo.s32 %tmp,%warpMrow,#2;\n"@;
    let i2 = Insn { op: "mul.lo.s32"@, args: seq!["%tmp"@, "%warpMrow"@, args[2]] };
    reveal_strlit("    shl.b32 %tmp,%tmp,1;\n");
    let l3 = "    shl.b32 %tmp,%tmp,1;\n"@;
    let i3 = Insn { op: "shl.b32"@, args: seq!["%tmp"@, "%tmp"@, "1"@] };
    reveal_strlit("    add.u32 %aptr,%aptr,%tmp;\n");
    let l4 = "    add.u32 %aptr,%aptr,%tmp;\n"@;
    let i4 = Insn { op: "add.u32"@, args: seq!["%aptr"@, "%aptr"@, "%tmp"@] };
    reveal_strlit("    add.u32 %aptr,%aptr,%laneoff;\n");
    let l5 = "    add.u32 %aptr,%aptr,%laneoff;\n"@;
    let i5 = Insn { op: "add.u32"@, args: seq!["%aptr"@, "%aptr"@, "%laneoff"@] };
    reveal_strlit("    add.u32 %aptr,%aptr,#1;\n");
    let l6 = "    add.u32 %aptr,%aptr,#1;\n"@;
    let i6 = Insn { op: "add.u32"@, args: seq!["%aptr"@, "%aptr"@, args[1]] };
    assert(t =~= l0 + l1 + l2 + l3 + l4 + l5 + l6);
    lemma_hole('0', args);
    let q0 = p0;
    mma_a_swizzled_1(args);
    frames::lemma_fill_add(l0, l1, args);
    machine::lemma_reads_add(text::fill(l0, args), q0, text::fill(l1, args), seq![i1]);
    let q1 = q0 + seq![i1];
    mma_a_padded_2(args);
    frames::lemma_fill_add(l0 + l1, l2, args);
    machine::lemma_reads_add(text::fill(l0 + l1, args), q1, text::fill(l2, args), seq![i2]);
    let q2 = q1 + seq![i2];
    mma_a_padded_3(args);
    frames::lemma_fill_add(l0 + l1 + l2, l3, args);
    machine::lemma_reads_add(text::fill(l0 + l1 + l2, args), q2, text::fill(l3, args), seq![i3]);
    let q3 = q2 + seq![i3];
    mma_a_padded_4(args);
    frames::lemma_fill_add(l0 + l1 + l2 + l3, l4, args);
    machine::lemma_reads_add(text::fill(l0 + l1 + l2 + l3, args), q3, text::fill(l4, args), seq![i4]);
    let q4 = q3 + seq![i4];
    mma_a_padded_5(args);
    frames::lemma_fill_add(l0 + l1 + l2 + l3 + l4, l5, args);
    machine::lemma_reads_add(text::fill(l0 + l1 + l2 + l3 + l4, args), q4, text::fill(l5, args), seq![i5]);
    let q5 = q4 + seq![i5];
    mma_a_padded_6(args);
    frames::lemma_fill_add(l0 + l1 + l2 + l3 + l4 + l5, l6, args);
    machine::lemma_reads_add(text::fill(l0 + l1 + l2 + l3 + l4 + l5, args), q5, text::fill(l6, args), seq![i6]);
    let q6 = q5 + seq![i6];
    assert(q6 =~= p0 + seq![Insn { op: "add.u32"@, args: seq!["%aptr"@, "%aptr"@, "%bufcA"@] }, Insn { op: "mul.lo.s32"@, args: seq!["%tmp"@, "%warpMrow"@, args[2]] }, Insn { op: "shl.b32"@, args: seq!["%tmp"@, "%tmp"@, "1"@] }, Insn { op: "add.u32"@, args: seq!["%aptr"@, "%aptr"@, "%tmp"@] }, Insn { op: "add.u32"@, args: seq!["%aptr"@, "%aptr"@, "%laneoff"@] }, Insn { op: "add.u32"@, args: seq!["%aptr"@, "%aptr"@, args[1]] }]);
}

/// `ld.shared.b32 %a#0_0,[%aptr+#1];`
proof fn mma_load_a_padded_0(args: Seq<Seq<char>>)
    requires
        args.len() > 1,
        operand(args[0]),
        operand(args[1]),
    ensures
        reads(
            text::fill("    ld.shared.b32 %a#0_0,[%aptr+#1];\n"@, args),
            seq![Insn { op: "ld.shared.b32"@, args: seq!["%a"@ + args[0] + "_0"@, "[%aptr+"@ + args[1] + "]"@] }],
        ),
{
    reveal_strlit("    ld.shared.b32 %a");
    reveal_strlit("    ld.shared.b32 %a#0_0,[%aptr+#1];\n");
    reveal_strlit("%a");
    reveal_strlit("[%aptr+");
    reveal_strlit("]");
    reveal_strlit("];\n");
    reveal_strlit("_0");
    reveal_strlit("_0,[%aptr+");
    reveal_strlit("ld.shared.b32");
    let whole = "    ld.shared.b32 %a#0_0,[%aptr+#1];\n"@;
    let x0 = "    ld.shared.b32 %a"@;
    frames::lemma_fill_plain(x0, args);
    let x1 = seq!['#', '0'];
    lemma_hole('0', args);
    let x2 = "_0,[%aptr+"@;
    frames::lemma_fill_plain(x2, args);
    let x3 = seq!['#', '1'];
    lemma_hole('1', args);
    let x4 = "];\n"@;
    frames::lemma_fill_plain(x4, args);
    assert(whole =~= x0 + x1 + x2 + x3 + x4);
    frames::lemma_fill_add(x0, x1, args);
    frames::lemma_fill_add(x0 + x1, x2, args);
    frames::lemma_fill_add(x0 + x1 + x2, x3, args);
    frames::lemma_fill_add(x0 + x1 + x2 + x3, x4, args);
    let op = "ld.shared.b32"@;
    let given = seq!["%a"@ + args[0] + "_0"@, "[%aptr+"@ + args[1] + "]"@];
    machine::lemma_listed2("%a"@ + args[0] + "_0"@, "[%aptr+"@ + args[1] + "]"@);
    assert(text::fill(whole, args) =~= machine::line(op, given));
    machine::lemma_reads_line(op, given);
}

/// `ld.shared.b32 %a#0_2,[%aptr+#2];`
proof fn mma_load_a_padded_1(args: Seq<Seq<char>>)
    requires
        args.len() > 2,
        operand(args[0]),
        operand(args[2]),
    ensures
        reads(
            text::fill("    ld.shared.b32 %a#0_2,[%aptr+#2];\n"@, args),
            seq![Insn { op: "ld.shared.b32"@, args: seq!["%a"@ + args[0] + "_2"@, "[%aptr+"@ + args[2] + "]"@] }],
        ),
{
    reveal_strlit("    ld.shared.b32 %a");
    reveal_strlit("    ld.shared.b32 %a#0_2,[%aptr+#2];\n");
    reveal_strlit("%a");
    reveal_strlit("[%aptr+");
    reveal_strlit("]");
    reveal_strlit("];\n");
    reveal_strlit("_2");
    reveal_strlit("_2,[%aptr+");
    reveal_strlit("ld.shared.b32");
    let whole = "    ld.shared.b32 %a#0_2,[%aptr+#2];\n"@;
    let x0 = "    ld.shared.b32 %a"@;
    frames::lemma_fill_plain(x0, args);
    let x1 = seq!['#', '0'];
    lemma_hole('0', args);
    let x2 = "_2,[%aptr+"@;
    frames::lemma_fill_plain(x2, args);
    let x3 = seq!['#', '2'];
    lemma_hole('2', args);
    let x4 = "];\n"@;
    frames::lemma_fill_plain(x4, args);
    assert(whole =~= x0 + x1 + x2 + x3 + x4);
    frames::lemma_fill_add(x0, x1, args);
    frames::lemma_fill_add(x0 + x1, x2, args);
    frames::lemma_fill_add(x0 + x1 + x2, x3, args);
    frames::lemma_fill_add(x0 + x1 + x2 + x3, x4, args);
    let op = "ld.shared.b32"@;
    let given = seq!["%a"@ + args[0] + "_2"@, "[%aptr+"@ + args[2] + "]"@];
    machine::lemma_listed2("%a"@ + args[0] + "_2"@, "[%aptr+"@ + args[2] + "]"@);
    assert(text::fill(whole, args) =~= machine::line(op, given));
    machine::lemma_reads_line(op, given);
}

/// `ld.shared.b32 %a#0_1,[%aptr+#3];`
proof fn mma_load_a_padded_2(args: Seq<Seq<char>>)
    requires
        args.len() > 3,
        operand(args[0]),
        operand(args[3]),
    ensures
        reads(
            text::fill("    ld.shared.b32 %a#0_1,[%aptr+#3];\n"@, args),
            seq![Insn { op: "ld.shared.b32"@, args: seq!["%a"@ + args[0] + "_1"@, "[%aptr+"@ + args[3] + "]"@] }],
        ),
{
    reveal_strlit("    ld.shared.b32 %a");
    reveal_strlit("    ld.shared.b32 %a#0_1,[%aptr+#3];\n");
    reveal_strlit("%a");
    reveal_strlit("[%aptr+");
    reveal_strlit("]");
    reveal_strlit("];\n");
    reveal_strlit("_1");
    reveal_strlit("_1,[%aptr+");
    reveal_strlit("ld.shared.b32");
    let whole = "    ld.shared.b32 %a#0_1,[%aptr+#3];\n"@;
    let x0 = "    ld.shared.b32 %a"@;
    frames::lemma_fill_plain(x0, args);
    let x1 = seq!['#', '0'];
    lemma_hole('0', args);
    let x2 = "_1,[%aptr+"@;
    frames::lemma_fill_plain(x2, args);
    let x3 = seq!['#', '3'];
    lemma_hole('3', args);
    let x4 = "];\n"@;
    frames::lemma_fill_plain(x4, args);
    assert(whole =~= x0 + x1 + x2 + x3 + x4);
    frames::lemma_fill_add(x0, x1, args);
    frames::lemma_fill_add(x0 + x1, x2, args);
    frames::lemma_fill_add(x0 + x1 + x2, x3, args);
    frames::lemma_fill_add(x0 + x1 + x2 + x3, x4, args);
    let op = "ld.shared.b32"@;
    let given = seq!["%a"@ + args[0] + "_1"@, "[%aptr+"@ + args[3] + "]"@];
    machine::lemma_listed2("%a"@ + args[0] + "_1"@, "[%aptr+"@ + args[3] + "]"@);
    assert(text::fill(whole, args) =~= machine::line(op, given));
    machine::lemma_reads_line(op, given);
}

/// `ld.shared.b32 %a#0_3,[%aptr+#4];`
proof fn mma_load_a_padded_3(args: Seq<Seq<char>>)
    requires
        args.len() > 4,
        operand(args[0]),
        operand(args[4]),
    ensures
        reads(
            text::fill("    ld.shared.b32 %a#0_3,[%aptr+#4];\n"@, args),
            seq![Insn { op: "ld.shared.b32"@, args: seq!["%a"@ + args[0] + "_3"@, "[%aptr+"@ + args[4] + "]"@] }],
        ),
{
    reveal_strlit("    ld.shared.b32 %a");
    reveal_strlit("    ld.shared.b32 %a#0_3,[%aptr+#4];\n");
    reveal_strlit("%a");
    reveal_strlit("[%aptr+");
    reveal_strlit("]");
    reveal_strlit("];\n");
    reveal_strlit("_3");
    reveal_strlit("_3,[%aptr+");
    reveal_strlit("ld.shared.b32");
    let whole = "    ld.shared.b32 %a#0_3,[%aptr+#4];\n"@;
    let x0 = "    ld.shared.b32 %a"@;
    frames::lemma_fill_plain(x0, args);
    let x1 = seq!['#', '0'];
    lemma_hole('0', args);
    let x2 = "_3,[%aptr+"@;
    frames::lemma_fill_plain(x2, args);
    let x3 = seq!['#', '4'];
    lemma_hole('4', args);
    let x4 = "];\n"@;
    frames::lemma_fill_plain(x4, args);
    assert(whole =~= x0 + x1 + x2 + x3 + x4);
    frames::lemma_fill_add(x0, x1, args);
    frames::lemma_fill_add(x0 + x1, x2, args);
    frames::lemma_fill_add(x0 + x1 + x2, x3, args);
    frames::lemma_fill_add(x0 + x1 + x2 + x3, x4, args);
    let op = "ld.shared.b32"@;
    let given = seq!["%a"@ + args[0] + "_3"@, "[%aptr+"@ + args[4] + "]"@];
    machine::lemma_listed2("%a"@ + args[0] + "_3"@, "[%aptr+"@ + args[4] + "]"@);
    assert(text::fill(whole, args) =~= machine::line(op, given));
    machine::lemma_reads_line(op, given);
}

/// What [`mma::LOAD_A_PADDED`] spells.
pub proof fn lemma_mma_load_a_padded(args: Seq<Seq<char>>)
    requires
        args.len() > 4,
        operand(args[0]),
        operand(args[1]),
        operand(args[2]),
        operand(args[3]),
        operand(args[4]),
    ensures
        reads(
            text::fill(mma::LOAD_A_PADDED@, args),
            seq![Insn { op: "ld.shared.b32"@, args: seq!["%a"@ + args[0] + "_0"@, "[%aptr+"@ + args[1] + "]"@] }, Insn { op: "ld.shared.b32"@, args: seq!["%a"@ + args[0] + "_2"@, "[%aptr+"@ + args[2] + "]"@] }, Insn { op: "ld.shared.b32"@, args: seq!["%a"@ + args[0] + "_1"@, "[%aptr+"@ + args[3] + "]"@] }, Insn { op: "ld.shared.b32"@, args: seq!["%a"@ + args[0] + "_3"@, "[%aptr+"@ + args[4] + "]"@] }],
        ),
{
    let t = mma::LOAD_A_PADDED@;
    reveal_strlit("    ld.shared.b32 %a#0_0,[%aptr+#1];\n    ld.shared.b32 %a#0_2,[%aptr+#2];\n    ld.shared.b32 %a#0_1,[%aptr+#3];\n    ld.shared.b32 %a#0_3,[%aptr+#4];\n");
    reveal_strlit("    ld.shared.b32 %a#0_0,[%aptr+#1];\n");
    let l0 = "    ld.shared.b32 %a#0_0,[%aptr+#1];\n"@;
    let i0 = Insn { op: "ld.shared.b32"@, args: seq!["%a"@ + args[0] + "_0"@, "[%aptr+"@ + args[1] + "]"@] };
    reveal_strlit("    ld.shared.b32 %a#0_2,[%aptr+#2];\n");
    let l1 = "    ld.shared.b32 %a#0_2,[%aptr+#2];\n"@;
    let i1 = Insn { op: "ld.shared.b32"@, args: seq!["%a"@ + args[0] + "_2"@, "[%aptr+"@ + args[2] + "]"@] };
    reveal_strlit("    ld.shared.b32 %a#0_1,[%aptr+#3];\n");
    let l2 = "    ld.shared.b32 %a#0_1,[%aptr+#3];\n"@;
    let i2 = Insn { op: "ld.shared.b32"@, args: seq!["%a"@ + args[0] + "_1"@, "[%aptr+"@ + args[3] + "]"@] };
    reveal_strlit("    ld.shared.b32 %a#0_3,[%aptr+#4];\n");
    let l3 = "    ld.shared.b32 %a#0_3,[%aptr+#4];\n"@;
    let i3 = Insn { op: "ld.shared.b32"@, args: seq!["%a"@ + args[0] + "_3"@, "[%aptr+"@ + args[4] + "]"@] };
    assert(t =~= l0 + l1 + l2 + l3);
    mma_load_a_padded_0(args);
    let q0 = seq![i0];
    mma_load_a_padded_1(args);
    frames::lemma_fill_add(l0, l1, args);
    machine::lemma_reads_add(text::fill(l0, args), q0, text::fill(l1, args), seq![i1]);
    let q1 = q0 + seq![i1];
    mma_load_a_padded_2(args);
    frames::lemma_fill_add(l0 + l1, l2, args);
    machine::lemma_reads_add(text::fill(l0 + l1, args), q1, text::fill(l2, args), seq![i2]);
    let q2 = q1 + seq![i2];
    mma_load_a_padded_3(args);
    frames::lemma_fill_add(l0 + l1 + l2, l3, args);
    machine::lemma_reads_add(text::fill(l0 + l1 + l2, args), q2, text::fill(l3, args), seq![i3]);
    let q3 = q2 + seq![i3];
    assert(q3 =~= seq![Insn { op: "ld.shared.b32"@, args: seq!["%a"@ + args[0] + "_0"@, "[%aptr+"@ + args[1] + "]"@] }, Insn { op: "ld.shared.b32"@, args: seq!["%a"@ + args[0] + "_2"@, "[%aptr+"@ + args[2] + "]"@] }, Insn { op: "ld.shared.b32"@, args: seq!["%a"@ + args[0] + "_1"@, "[%aptr+"@ + args[3] + "]"@] }, Insn { op: "ld.shared.b32"@, args: seq!["%a"@ + args[0] + "_3"@, "[%aptr+"@ + args[4] + "]"@] }]);
}

/// `add.u32 %bptr,%bptr,#3;`
proof fn mma_b_padded_1(args: Seq<Seq<char>>)
    requires
        args.len() > 3,
        operand(args[3]),
    ensures
        reads(
            text::fill("    add.u32 %bptr,%bptr,#3;\n"@, args),
            seq![Insn { op: "add.u32"@, args: seq!["%bptr"@, "%bptr"@, args[3]] }],
        ),
{
    reveal_strlit("    add.u32 %bptr,%bptr,");
    reveal_strlit("    add.u32 %bptr,%bptr,#3;\n");
    reveal_strlit("%bptr");
    reveal_strlit(";\n");
    reveal_strlit("add.u32");
    let whole = "    add.u32 %bptr,%bptr,#3;\n"@;
    let x0 = "    add.u32 %bptr,%bptr,"@;
    frames::lemma_fill_plain(x0, args);
    let x1 = seq!['#', '3'];
    lemma_hole('3', args);
    let x2 = ";\n"@;
    frames::lemma_fill_plain(x2, args);
    assert(whole =~= x0 + x1 + x2);
    frames::lemma_fill_add(x0, x1, args);
    frames::lemma_fill_add(x0 + x1, x2, args);
    let op = "add.u32"@;
    let given = seq!["%bptr"@, "%bptr"@, args[3]];
    machine::lemma_listed3("%bptr"@, "%bptr"@, args[3]);
    assert(text::fill(whole, args) =~= machine::line(op, given));
    machine::lemma_reads_line(op, given);
}

/// `mul.lo.s32 %tmp,%warpNcol,#2;`
proof fn mma_b_padded_2(args: Seq<Seq<char>>)
    requires
        args.len() > 2,
        operand(args[2]),
    ensures
        reads(
            text::fill("    mul.lo.s32 %tmp,%warpNcol,#2;\n"@, args),
            seq![Insn { op: "mul.lo.s32"@, args: seq!["%tmp"@, "%warpNcol"@, args[2]] }],
        ),
{
    reveal_strlit("    mul.lo.s32 %tmp,%warpNcol,");
    reveal_strlit("    mul.lo.s32 %tmp,%warpNcol,#2;\n");
    reveal_strlit("%tmp");
    reveal_strlit("%warpNcol");
    reveal_strlit(";\n");
    reveal_strlit("mul.lo.s32");
    let whole = "    mul.lo.s32 %tmp,%warpNcol,#2;\n"@;
    let x0 = "    mul.lo.s32 %tmp,%warpNcol,"@;
    frames::lemma_fill_plain(x0, args);
    let x1 = seq!['#', '2'];
    lemma_hole('2', args);
    let x2 = ";\n"@;
    frames::lemma_fill_plain(x2, args);
    assert(whole =~= x0 + x1 + x2);
    frames::lemma_fill_add(x0, x1, args);
    frames::lemma_fill_add(x0 + x1, x2, args);
    let op = "mul.lo.s32"@;
    let given = seq!["%tmp"@, "%warpNcol"@, args[2]];
    machine::lemma_listed3("%tmp"@, "%warpNcol"@, args[2]);
    assert(text::fill(whole, args) =~= machine::line(op, given));
    machine::lemma_reads_line(op, given);
}

/// `add.u32 %bptr,%bptr,%tmp;`
proof fn mma_b_padded_4(args: Seq<Seq<char>>)
    ensures
        reads(
            text::fill("    add.u32 %bptr,%bptr,%tmp;\n"@, args),
            seq![Insn { op: "add.u32"@, args: seq!["%bptr"@, "%bptr"@, "%tmp"@] }],
        ),
{
    reveal_strlit("    add.u32 %bptr,%bptr,%tmp;\n");
    reveal_strlit("%bptr");
    reveal_strlit("%tmp");
    reveal_strlit("add.u32");
    frames::lemma_fill_plain("    add.u32 %bptr,%bptr,%tmp;\n"@, args);
    let op = "add.u32"@;
    let given = seq!["%bptr"@, "%bptr"@, "%tmp"@];
    machine::lemma_listed3("%bptr"@, "%bptr"@, "%tmp"@);
    assert(text::fill("    add.u32 %bptr,%bptr,%tmp;\n"@, args) =~= machine::line(op, given));
    machine::lemma_reads_line(op, given);
}

/// `add.u32 %bptr,%bptr,%laneoff;`
proof fn mma_b_padded_5(args: Seq<Seq<char>>)
    ensures
        reads(
            text::fill("    add.u32 %bptr,%bptr,%laneoff;\n"@, args),
            seq![Insn { op: "add.u32"@, args: seq!["%bptr"@, "%bptr"@, "%laneoff"@] }],
        ),
{
    reveal_strlit("    add.u32 %bptr,%bptr,%laneoff;\n");
    reveal_strlit("%bptr");
    reveal_strlit("%laneoff");
    reveal_strlit("add.u32");
    frames::lemma_fill_plain("    add.u32 %bptr,%bptr,%laneoff;\n"@, args);
    let op = "add.u32"@;
    let given = seq!["%bptr"@, "%bptr"@, "%laneoff"@];
    machine::lemma_listed3("%bptr"@, "%bptr"@, "%laneoff"@);
    assert(text::fill("    add.u32 %bptr,%bptr,%laneoff;\n"@, args) =~= machine::line(op, given));
    machine::lemma_reads_line(op, given);
}

/// `add.u32 %bptr,%bptr,#1;`
proof fn mma_b_padded_6(args: Seq<Seq<char>>)
    requires
        args.len() > 1,
        operand(args[1]),
    ensures
        reads(
            text::fill("    add.u32 %bptr,%bptr,#1;\n"@, args),
            seq![Insn { op: "add.u32"@, args: seq!["%bptr"@, "%bptr"@, args[1]] }],
        ),
{
    reveal_strlit("    add.u32 %bptr,%bptr,");
    reveal_strlit("    add.u32 %bptr,%bptr,#1;\n");
    reveal_strlit("%bptr");
    reveal_strlit(";\n");
    reveal_strlit("add.u32");
    let whole = "    add.u32 %bptr,%bptr,#1;\n"@;
    let x0 = "    add.u32 %bptr,%bptr,"@;
    frames::lemma_fill_plain(x0, args);
    let x1 = seq!['#', '1'];
    lemma_hole('1', args);
    let x2 = ";\n"@;
    frames::lemma_fill_plain(x2, args);
    assert(whole =~= x0 + x1 + x2);
    frames::lemma_fill_add(x0, x1, args);
    frames::lemma_fill_add(x0 + x1, x2, args);
    let op = "add.u32"@;
    let given = seq!["%bptr"@, "%bptr"@, args[1]];
    machine::lemma_listed3("%bptr"@, "%bptr"@, args[1]);
    assert(text::fill(whole, args) =~= machine::line(op, given));
    machine::lemma_reads_line(op, given);
}

/// What [`mma::B_PADDED`] spells.
pub proof fn lemma_mma_b_padded(args: Seq<Seq<char>>, p0: Seq<Insn>)
    requires
        args.len() > 3,
        operand(args[1]),
        operand(args[2]),
        operand(args[3]),
        reads(args[0], p0),
    ensures
        reads(
            text::fill(mma::B_PADDED@, args),
            p0 + seq![Insn { op: "add.u32"@, args: seq!["%bptr"@, "%bptr"@, args[3]] }, Insn { op: "mul.lo.s32"@, args: seq!["%tmp"@, "%warpNcol"@, args[2]] }, Insn { op: "shl.b32"@, args: seq!["%tmp"@, "%tmp"@, "1"@] }, Insn { op: "add.u32"@, args: seq!["%bptr"@, "%bptr"@, "%tmp"@] }, Insn { op: "add.u32"@, args: seq!["%bptr"@, "%bptr"@, "%laneoff"@] }, Insn { op: "add.u32"@, args: seq!["%bptr"@, "%bptr"@, args[1]] }],
        ),
{
    let t = mma::B_PADDED@;
    reveal_strlit("#0    add.u32 %bptr,%bptr,#3;\n    mul.lo.s32 %tmp,%warpNcol,#2;\n    shl.b32 %tmp,%tmp,1;\n    add.u32 %bptr,%bptr,%tmp;\n    add.u32 %bptr,%bptr,%laneoff;\n    add.u32 %bptr,%bptr,#1;\n");
    let l0 = seq!['#', '0'];
    reveal_strlit("    add.u32 %bptr,%bptr,#3;\n");
    let l1 = "    add.u32 %bptr,%bptr,#3;\n"@;
    let i1 = Insn { op: "add.u32"@, args: seq!["%bptr"@, "%bptr"@, args[3]] };
    reveal_strlit("    mul.lo.s32 %tmp,%warpNcol,#2;\n");
    let l2 = "    mul.lo.s32 %tmp,%warpNcol,#2;\n"@;
    let i2 = Insn { op: "mul.lo.s32"@, args: seq!["%tmp"@, "%warpNcol"@, args[2]] };
    reveal_strlit("    shl.b32 %tmp,%tmp,1;\n");
    let l3 = "    shl.b32 %tmp,%tmp,1;\n"@;
    let i3 = Insn { op: "shl.b32"@, args: seq!["%tmp"@, "%tmp"@, "1"@] };
    reveal_strlit("    add.u32 %bptr,%bptr,%tmp;\n");
    let l4 = "    add.u32 %bptr,%bptr,%tmp;\n"@;
    let i4 = Insn { op: "add.u32"@, args: seq!["%bptr"@, "%bptr"@, "%tmp"@] };
    reveal_strlit("    add.u32 %bptr,%bptr,%laneoff;\n");
    let l5 = "    add.u32 %bptr,%bptr,%laneoff;\n"@;
    let i5 = Insn { op: "add.u32"@, args: seq!["%bptr"@, "%bptr"@, "%laneoff"@] };
    reveal_strlit("    add.u32 %bptr,%bptr,#1;\n");
    let l6 = "    add.u32 %bptr,%bptr,#1;\n"@;
    let i6 = Insn { op: "add.u32"@, args: seq!["%bptr"@, "%bptr"@, args[1]] };
    assert(t =~= l0 + l1 + l2 + l3 + l4 + l5 + l6);
    lemma_hole('0', args);
    let q0 = p0;
    mma_b_padded_1(args);
    frames::lemma_fill_add(l0, l1, args);
    machine::lemma_reads_add(text::fill(l0, args), q0, text::fill(l1, args), seq![i1]);
    let q1 = q0 + seq![i1];
    mma_b_padded_2(args);
    frames::lemma_fill_add(l0 + l1, l2, args);
    machine::lemma_reads_add(text::fill(l0 + l1, args), q1, text::fill(l2, args), seq![i2]);
    let q2 = q1 + seq![i2];
    mma_a_padded_3(args);
    frames::lemma_fill_add(l0 + l1 + l2, l3, args);
    machine::lemma_reads_add(text::fill(l0 + l1 + l2, args), q2, text::fill(l3, args), seq![i3]);
    let q3 = q2 + seq![i3];
    mma_b_padded_4(args);
    frames::lemma_fill_add(l0 + l1 + l2 + l3, l4, args);
    machine::lemma_reads_add(text::fill(l0 + l1 + l2 + l3, args), q3, text::fill(l4, args), seq![i4]);
    let q4 = q3 + seq![i4];
    mma_b_padded_5(args);
    frames::lemma_fill_add(l0 + l1 + l2 + l3 + l4, l5, args);
    machine::lemma_reads_add(text::fill(l0 + l1 + l2 + l3 + l4, args), q4, text::fill(l5, args), seq![i5]);
    let q5 = q4 + seq![i5];
    mma_b_padded_6(args);
    frames::lemma_fill_add(l0 + l1 + l2 + l3 + l4 + l5, l6, args);
    machine::lemma_reads_add(text::fill(l0 + l1 + l2 + l3 + l4 + l5, args), q5, text::fill(l6, args), seq![i6]);
    let q6 = q5 + seq![i6];
    assert(q6 =~= p0 + seq![Insn { op: "add.u32"@, args: seq!["%bptr"@, "%bptr"@, args[3]] }, Insn { op: "mul.lo.s32"@, args: seq!["%tmp"@, "%warpNcol"@, args[2]] }, Insn { op: "shl.b32"@, args: seq!["%tmp"@, "%tmp"@, "1"@] }, Insn { op: "add.u32"@, args: seq!["%bptr"@, "%bptr"@, "%tmp"@] }, Insn { op: "add.u32"@, args: seq!["%bptr"@, "%bptr"@, "%laneoff"@] }, Insn { op: "add.u32"@, args: seq!["%bptr"@, "%bptr"@, args[1]] }]);
}

/// `ld.shared.b32 %#3#0_0,[%bptr+#1];`
proof fn mma_load_b_padded_0(args: Seq<Seq<char>>)
    requires
        args.len() > 3,
        operand(args[0]),
        operand(args[1]),
        operand(args[3]),
    ensures
        reads(
            text::fill("    ld.shared.b32 %#3#0_0,[%bptr+#1];\n"@, args),
            seq![Insn { op: "ld.shared.b32"@, args: seq!["%"@ + args[3] + args[0] + "_0"@, "[%bptr+"@ + args[1] + "]"@] }],
        ),
{
    reveal_strlit("    ld.shared.b32 %");
    reveal_strlit("    ld.shared.b32 %#3#0_0,[%bptr+#1];\n");
    reveal_strlit("%");
    reveal_strlit("[%bptr+");
    reveal_strlit("]");
    reveal_strlit("];\n");
    reveal_strlit("_0");
    reveal_strlit("_0,[%bptr+");
    reveal_strlit("ld.shared.b32");
    let whole = "    ld.shared.b32 %#3#0_0,[%bptr+#1];\n"@;
    let x0 = "    ld.shared.b32 %"@;
    frames::lemma_fill_plain(x0, args);
    let x1 = seq!['#', '3'];
    lemma_hole('3', args);
    let x2 = seq!['#', '0'];
    lemma_hole('0', args);
    let x3 = "_0,[%bptr+"@;
    frames::lemma_fill_plain(x3, args);
    let x4 = seq!['#', '1'];
    lemma_hole('1', args);
    let x5 = "];\n"@;
    frames::lemma_fill_plain(x5, args);
    assert(whole =~= x0 + x1 + x2 + x3 + x4 + x5);
    frames::lemma_fill_add(x0, x1, args);
    frames::lemma_fill_add(x0 + x1, x2, args);
    frames::lemma_fill_add(x0 + x1 + x2, x3, args);
    frames::lemma_fill_add(x0 + x1 + x2 + x3, x4, args);
    frames::lemma_fill_add(x0 + x1 + x2 + x3 + x4, x5, args);
    let op = "ld.shared.b32"@;
    let given = seq!["%"@ + args[3] + args[0] + "_0"@, "[%bptr+"@ + args[1] + "]"@];
    machine::lemma_listed2("%"@ + args[3] + args[0] + "_0"@, "[%bptr+"@ + args[1] + "]"@);
    assert(text::fill(whole, args) =~= machine::line(op, given));
    machine::lemma_reads_line(op, given);
}

/// `ld.shared.b32 %#3#0_1,[%bptr+#2];`
proof fn mma_load_b_padded_1(args: Seq<Seq<char>>)
    requires
        args.len() > 3,
        operand(args[0]),
        operand(args[2]),
        operand(args[3]),
    ensures
        reads(
            text::fill("    ld.shared.b32 %#3#0_1,[%bptr+#2];\n"@, args),
            seq![Insn { op: "ld.shared.b32"@, args: seq!["%"@ + args[3] + args[0] + "_1"@, "[%bptr+"@ + args[2] + "]"@] }],
        ),
{
    reveal_strlit("    ld.shared.b32 %");
    reveal_strlit("    ld.shared.b32 %#3#0_1,[%bptr+#2];\n");
    reveal_strlit("%");
    reveal_strlit("[%bptr+");
    reveal_strlit("]");
    reveal_strlit("];\n");
    reveal_strlit("_1");
    reveal_strlit("_1,[%bptr+");
    reveal_strlit("ld.shared.b32");
    let whole = "    ld.shared.b32 %#3#0_1,[%bptr+#2];\n"@;
    let x0 = "    ld.shared.b32 %"@;
    frames::lemma_fill_plain(x0, args);
    let x1 = seq!['#', '3'];
    lemma_hole('3', args);
    let x2 = seq!['#', '0'];
    lemma_hole('0', args);
    let x3 = "_1,[%bptr+"@;
    frames::lemma_fill_plain(x3, args);
    let x4 = seq!['#', '2'];
    lemma_hole('2', args);
    let x5 = "];\n"@;
    frames::lemma_fill_plain(x5, args);
    assert(whole =~= x0 + x1 + x2 + x3 + x4 + x5);
    frames::lemma_fill_add(x0, x1, args);
    frames::lemma_fill_add(x0 + x1, x2, args);
    frames::lemma_fill_add(x0 + x1 + x2, x3, args);
    frames::lemma_fill_add(x0 + x1 + x2 + x3, x4, args);
    frames::lemma_fill_add(x0 + x1 + x2 + x3 + x4, x5, args);
    let op = "ld.shared.b32"@;
    let given = seq!["%"@ + args[3] + args[0] + "_1"@, "[%bptr+"@ + args[2] + "]"@];
    machine::lemma_listed2("%"@ + args[3] + args[0] + "_1"@, "[%bptr+"@ + args[2] + "]"@);
    assert(text::fill(whole, args) =~= machine::line(op, given));
    machine::lemma_reads_line(op, given);
}

/// What [`mma::LOAD_B_PADDED`] spells.
pub proof fn lemma_mma_load_b_padded(args: Seq<Seq<char>>)
    requires
        args.len() > 3,
        operand(args[0]),
        operand(args[1]),
        operand(args[2]),
        operand(args[3]),
    ensures
        reads(
            text::fill(mma::LOAD_B_PADDED@, args),
            seq![Insn { op: "ld.shared.b32"@, args: seq!["%"@ + args[3] + args[0] + "_0"@, "[%bptr+"@ + args[1] + "]"@] }, Insn { op: "ld.shared.b32"@, args: seq!["%"@ + args[3] + args[0] + "_1"@, "[%bptr+"@ + args[2] + "]"@] }],
        ),
{
    let t = mma::LOAD_B_PADDED@;
    reveal_strlit("    ld.shared.b32 %#3#0_0,[%bptr+#1];\n    ld.shared.b32 %#3#0_1,[%bptr+#2];\n");
    reveal_strlit("    ld.shared.b32 %#3#0_0,[%bptr+#1];\n");
    let l0 = "    ld.shared.b32 %#3#0_0,[%bptr+#1];\n"@;
    let i0 = Insn { op: "ld.shared.b32"@, args: seq!["%"@ + args[3] + args[0] + "_0"@, "[%bptr+"@ + args[1] + "]"@] };
    reveal_strlit("    ld.shared.b32 %#3#0_1,[%bptr+#2];\n");
    let l1 = "    ld.shared.b32 %#3#0_1,[%bptr+#2];\n"@;
    let i1 = Insn { op: "ld.shared.b32"@, args: seq!["%"@ + args[3] + args[0] + "_1"@, "[%bptr+"@ + args[2] + "]"@] };
    assert(t =~= l0 + l1);
    mma_load_b_padded_0(args);
    let q0 = seq![i0];
    mma_load_b_padded_1(args);
    frames::lemma_fill_add(l0, l1, args);
    machine::lemma_reads_add(text::fill(l0, args), q0, text::fill(l1, args), seq![i1]);
    let q1 = q0 + seq![i1];
    assert(q1 =~= seq![Insn { op: "ld.shared.b32"@, args: seq!["%"@ + args[3] + args[0] + "_0"@, "[%bptr+"@ + args[1] + "]"@] }, Insn { op: "ld.shared.b32"@, args: seq!["%"@ + args[3] + args[0] + "_1"@, "[%bptr+"@ + args[2] + "]"@] }]);
}

/// `mov.u32 %tmp,%ctaid.y;`
proof fn parts_tile_origin_0(args: Seq<Seq<char>>)
    ensures
        reads(
            text::fill("    mov.u32 %tmp,%ctaid.y;\n"@, args),
            seq![Insn { op: "mov.u32"@, args: seq!["%tmp"@, "%ctaid.y"@] }],
        ),
{
    reveal_strlit("    mov.u32 %tmp,%ctaid.y;\n");
    reveal_strlit("%ctaid.y");
    reveal_strlit("%tmp");
    reveal_strlit("mov.u32");
    frames::lemma_fill_plain("    mov.u32 %tmp,%ctaid.y;\n"@, args);
    let op = "mov.u32"@;
    let given = seq!["%tmp"@, "%ctaid.y"@];
    machine::lemma_listed2("%tmp"@, "%ctaid.y"@);
    assert(text::fill("    mov.u32 %tmp,%ctaid.y;\n"@, args) =~= machine::line(op, given));
    machine::lemma_reads_line(op, given);
}

/// `mul.lo.s32 %baseRow,%tmp,#0;`
proof fn parts_tile_origin_1(args: Seq<Seq<char>>)
    requires
        args.len() > 0,
        operand(args[0]),
    ensures
        reads(
            text::fill("    mul.lo.s32 %baseRow,%tmp,#0;\n"@, args),
            seq![Insn { op: "mul.lo.s32"@, args: seq!["%baseRow"@, "%tmp"@, args[0]] }],
        ),
{
    reveal_strlit("    mul.lo.s32 %baseRow,%tmp,");
    reveal_strlit("    mul.lo.s32 %baseRow,%tmp,#0;\n");
    reveal_strlit("%baseRow");
    reveal_strlit("%tmp");
    reveal_strlit(";\n");
    reveal_strlit("mul.lo.s32");
    let whole = "    mul.lo.s32 %baseRow,%tmp,#0;\n"@;
    let x0 = "    mul.lo.s32 %baseRow,%tmp,"@;
    frames::lemma_fill_plain(x0, args);
    let x1 = seq!['#', '0'];
    lemma_hole('0', args);
    let x2 = ";\n"@;
    frames::lemma_fill_plain(x2, args);
    assert(whole =~= x0 + x1 + x2);
    frames::lemma_fill_add(x0, x1, args);
    frames::lemma_fill_add(x0 + x1, x2, args);
    let op = "mul.lo.s32"@;
    let given = seq!["%baseRow"@, "%tmp"@, args[0]];
    machine::lemma_listed3("%baseRow"@, "%tmp"@, args[0]);
    assert(text::fill(whole, args) =~= machine::line(op, given));
    machine::lemma_reads_line(op, given);
}

/// `mov.u32 %tmp,%ctaid.x;`
proof fn parts_tile_origin_2(args: Seq<Seq<char>>)
    ensures
        reads(
            text::fill("    mov.u32 %tmp,%ctaid.x;\n"@, args),
            seq![Insn { op: "mov.u32"@, args: seq!["%tmp"@, "%ctaid.x"@] }],
        ),
{
    reveal_strlit("    mov.u32 %tmp,%ctaid.x;\n");
    reveal_strlit("%ctaid.x");
    reveal_strlit("%tmp");
    reveal_strlit("mov.u32");
    frames::lemma_fill_plain("    mov.u32 %tmp,%ctaid.x;\n"@, args);
    let op = "mov.u32"@;
    let given = seq!["%tmp"@, "%ctaid.x"@];
    machine::lemma_listed2("%tmp"@, "%ctaid.x"@);
    assert(text::fill("    mov.u32 %tmp,%ctaid.x;\n"@, args) =~= machine::line(op, given));
    machine::lemma_reads_line(op, given);
}

/// `mul.lo.s32 %baseCol,%tmp,#1;`
proof fn parts_tile_origin_3(args: Seq<Seq<char>>)
    requires
        args.len() > 1,
        operand(args[1]),
    ensures
        reads(
            text::fill("    mul.lo.s32 %baseCol,%tmp,#1;\n"@, args),
            seq![Insn { op: "mul.lo.s32"@, args: seq!["%baseCol"@, "%tmp"@, args[1]] }],
        ),
{
    reveal_strlit("    mul.lo.s32 %baseCol,%tmp,");
    reveal_strlit("    mul.lo.s32 %baseCol,%tmp,#1;\n");
    reveal_strlit("%baseCol");
    reveal_strlit("%tmp");
    reveal_strlit(";\n");
    reveal_strlit("mul.lo.s32");
    let whole = "    mul.lo.s32 %baseCol,%tmp,#1;\n"@;
    let x0 = "    mul.lo.s32 %baseCol,%tmp,"@;
    frames::lemma_fill_plain(x0, args);
    let x1 = seq!['#', '1'];
    lemma_hole('1', args);
    let x2 = ";\n"@;
    frames::lemma_fill_plain(x2, args);
    assert(whole =~= x0 + x1 + x2);
    frames::lemma_fill_add(x0, x1, args);
    frames::lemma_fill_add(x0 + x1, x2, args);
    let op = "mul.lo.s32"@;
    let given = seq!["%baseCol"@, "%tmp"@, args[1]];
    machine::lemma_listed3("%baseCol"@, "%tmp"@, args[1]);
    assert(text::fill(whole, args) =~= machine::line(op, given));
    machine::lemma_reads_line(op, given);
}

/// What [`parts::TILE_ORIGIN`] spells.
pub proof fn lemma_parts_tile_origin(args: Seq<Seq<char>>)
    requires
        args.len() > 1,
        operand(args[0]),
        operand(args[1]),
    ensures
        reads(
            text::fill(parts::TILE_ORIGIN@, args),
            seq![Insn { op: "mov.u32"@, args: seq!["%tmp"@, "%ctaid.y"@] }, Insn { op: "mul.lo.s32"@, args: seq!["%baseRow"@, "%tmp"@, args[0]] }, Insn { op: "mov.u32"@, args: seq!["%tmp"@, "%ctaid.x"@] }, Insn { op: "mul.lo.s32"@, args: seq!["%baseCol"@, "%tmp"@, args[1]] }],
        ),
{
    let t = parts::TILE_ORIGIN@;
    reveal_strlit("    mov.u32 %tmp,%ctaid.y;\n    mul.lo.s32 %baseRow,%tmp,#0;\n    mov.u32 %tmp,%ctaid.x;\n    mul.lo.s32 %baseCol,%tmp,#1;\n");
    reveal_strlit("    mov.u32 %tmp,%ctaid.y;\n");
    let l0 = "    mov.u32 %tmp,%ctaid.y;\n"@;
    let i0 = Insn { op: "mov.u32"@, args: seq!["%tmp"@, "%ctaid.y"@] };
    reveal_strlit("    mul.lo.s32 %baseRow,%tmp,#0;\n");
    let l1 = "    mul.lo.s32 %baseRow,%tmp,#0;\n"@;
    let i1 = Insn { op: "mul.lo.s32"@, args: seq!["%baseRow"@, "%tmp"@, args[0]] };
    reveal_strlit("    mov.u32 %tmp,%ctaid.x;\n");
    let l2 = "    mov.u32 %tmp,%ctaid.x;\n"@;
    let i2 = Insn { op: "mov.u32"@, args: seq!["%tmp"@, "%ctaid.x"@] };
    reveal_strlit("    mul.lo.s32 %baseCol,%tmp,#1;\n");
    let l3 = "    mul.lo.s32 %baseCol,%tmp,#1;\n"@;
    let i3 = Insn { op: "mul.lo.s32"@, args: seq!["%baseCol"@, "%tmp"@, args[1]] };
    assert(t =~= l0 + l1 + l2 + l3);
    parts_tile_origin_0(args);
    let q0 = seq![i0];
    parts_tile_origin_1(args);
    frames::lemma_fill_add(l0, l1, args);
    machine::lemma_reads_add(text::fill(l0, args), q0, text::fill(l1, args), seq![i1]);
    let q1 = q0 + seq![i1];
    parts_tile_origin_2(args);
    frames::lemma_fill_add(l0 + l1, l2, args);
    machine::lemma_reads_add(text::fill(l0 + l1, args), q1, text::fill(l2, args), seq![i2]);
    let q2 = q1 + seq![i2];
    parts_tile_origin_3(args);
    frames::lemma_fill_add(l0 + l1 + l2, l3, args);
    machine::lemma_reads_add(text::fill(l0 + l1 + l2, args), q2, text::fill(l3, args), seq![i3]);
    let q3 = q2 + seq![i3];
    assert(q3 =~= seq![Insn { op: "mov.u32"@, args: seq!["%tmp"@, "%ctaid.y"@] }, Insn { op: "mul.lo.s32"@, args: seq!["%baseRow"@, "%tmp"@, args[0]] }, Insn { op: "mov.u32"@, args: seq!["%tmp"@, "%ctaid.x"@] }, Insn { op: "mul.lo.s32"@, args: seq!["%baseCol"@, "%tmp"@, args[1]] }]);
}

/// `mov.u32 %lin,%ctaid.x;`
proof fn parts_raster_origin_0(args: Seq<Seq<char>>)
    ensures
        reads(
            text::fill("    mov.u32 %lin,%ctaid.x;\n"@, args),
            seq![Insn { op: "mov.u32"@, args: seq!["%lin"@, "%ctaid.x"@] }],
        ),
{
    reveal_strlit("    mov.u32 %lin,%ctaid.x;\n");
    reveal_strlit("%ctaid.x");
    reveal_strlit("%lin");
    reveal_strlit("mov.u32");
    frames::lemma_fill_plain("    mov.u32 %lin,%ctaid.x;\n"@, args);
    let op = "mov.u32"@;
    let given = seq!["%lin"@, "%ctaid.x"@];
    machine::lemma_listed2("%lin"@, "%ctaid.x"@);
    assert(text::fill("    mov.u32 %lin,%ctaid.x;\n"@, args) =~= machine::line(op, given));
    machine::lemma_reads_line(op, given);
}

/// `shr.u32 %tn,%N,#3;`
proof fn parts_raster_origin_1(args: Seq<Seq<char>>)
    requires
        args.len() > 3,
        operand(args[3]),
    ensures
        reads(
            text::fill("    shr.u32 %tn,%N,#3;\n"@, args),
            seq![Insn { op: "shr.u32"@, args: seq!["%tn"@, "%N"@, args[3]] }],
        ),
{
    reveal_strlit("    shr.u32 %tn,%N,");
    reveal_strlit("    shr.u32 %tn,%N,#3;\n");
    reveal_strlit("%N");
    reveal_strlit("%tn");
    reveal_strlit(";\n");
    reveal_strlit("shr.u32");
    let whole = "    shr.u32 %tn,%N,#3;\n"@;
    let x0 = "    shr.u32 %tn,%N,"@;
    frames::lemma_fill_plain(x0, args);
    let x1 = seq!['#', '3'];
    lemma_hole('3', args);
    let x2 = ";\n"@;
    frames::lemma_fill_plain(x2, args);
    assert(whole =~= x0 + x1 + x2);
    frames::lemma_fill_add(x0, x1, args);
    frames::lemma_fill_add(x0 + x1, x2, args);
    let op = "shr.u32"@;
    let given = seq!["%tn"@, "%N"@, args[3]];
    machine::lemma_listed3("%tn"@, "%N"@, args[3]);
    assert(text::fill(whole, args) =~= machine::line(op, given));
    machine::lemma_reads_line(op, given);
}

/// `shr.u32 %tm,%M,#4;`
proof fn parts_raster_origin_2(args: Seq<Seq<char>>)
    requires
        args.len() > 4,
        operand(args[4]),
    ensures
        reads(
            text::fill("    shr.u32 %tm,%M,#4;\n"@, args),
            seq![Insn { op: "shr.u32"@, args: seq!["%tm"@, "%M"@, args[4]] }],
        ),
{
    reveal_strlit("    shr.u32 %tm,%M,");
    reveal_strlit("    shr.u32 %tm,%M,#4;\n");
    reveal_strlit("%M");
    reveal_strlit("%tm");
    reveal_strlit(";\n");
    reveal_strlit("shr.u32");
    let whole = "    shr.u32 %tm,%M,#4;\n"@;
    let x0 = "    shr.u32 %tm,%M,"@;
    frames::lemma_fill_plain(x0, args);
    let x1 = seq!['#', '4'];
    lemma_hole('4', args);
    let x2 = ";\n"@;
    frames::lemma_fill_plain(x2, args);
    assert(whole =~= x0 + x1 + x2);
    frames::lemma_fill_add(x0, x1, args);
    frames::lemma_fill_add(x0 + x1, x2, args);
    let op = "shr.u32"@;
    let given = seq!["%tm"@, "%M"@, args[4]];
    machine::lemma_listed3("%tm"@, "%M"@, args[4]);
    assert(text::fill(whole, args) =~= machine::line(op, given));
    machine::lemma_reads_line(op, given);
}

/// `mul.lo.s32 %gsz,%tm,#2;`
proof fn parts_raster_origin_3(args: Seq<Seq<char>>)
    requires
        args.len() > 2,
        operand(args[2]),
    ensures
        reads(
            text::fill("    mul.lo.s32 %gsz,%tm,#2;\n"@, args),
            seq![Insn { op: "mul.lo.s32"@, args: seq!["%gsz"@, "%tm"@, args[2]] }],
        ),
{
    reveal_strlit("    mul.lo.s32 %gsz,%tm,");
    reveal_strlit("    mul.lo.s32 %gsz,%tm,#2;\n");
    reveal_strlit("%gsz");
    reveal_strlit("%tm");
    reveal_strlit(";\n");
    reveal_strlit("mul.lo.s32");
    let whole = "    mul.lo.s32 %gsz,%tm,#2;\n"@;
    let x0 = "    mul.lo.s32 %gsz,%tm,"@;
    frames::lemma_fill_plain(x0, args);
    let x1 = seq!['#', '2'];
    lemma_hole('2', args);
    let x2 = ";\n"@;
    frames::lemma_fill_plain(x2, args);
    assert(whole =~= x0 + x1 + x2);
    frames::lemma_fill_add(x0, x1, args);
    frames::lemma_fill_add(x0 + x1, x2, args);
    let op = "mul.lo.s32"@;
    let given = seq!["%gsz"@, "%tm"@, args[2]];
    machine::lemma_listed3("%gsz"@, "%tm"@, args[2]);
    assert(text::fill(whole, args) =~= machine::line(op, given));
    machine::lemma_reads_line(op, given);
}

/// `div.u32 #5,%lin,%gsz;`
proof fn parts_raster_origin_4(args: Seq<Seq<char>>)
    requires
        args.len() > 5,
        operand(args[5]),
    ensures
        reads(
            text::fill("    div.u32 #5,%lin,%gsz;\n"@, args),
            seq![Insn { op: "div.u32"@, args: seq![args[5], "%lin"@, "%gsz"@] }],
        ),
{
    reveal_strlit("    div.u32 ");
    reveal_strlit("    div.u32 #5,%lin,%gsz;\n");
    reveal_strlit("%gsz");
    reveal_strlit("%lin");
    reveal_strlit(",%lin,%gsz;\n");
    reveal_strlit("div.u32");
    let whole = "    div.u32 #5,%lin,%gsz;\n"@;
    let x0 = "    div.u32 "@;
    frames::lemma_fill_plain(x0, args);
    let x1 = seq!['#', '5'];
    lemma_hole('5', args);
    let x2 = ",%lin,%gsz;\n"@;
    frames::lemma_fill_plain(x2, args);
    assert(whole =~= x0 + x1 + x2);
    frames::lemma_fill_add(x0, x1, args);
    frames::lemma_fill_add(x0 + x1, x2, args);
    let op = "div.u32"@;
    let given = seq![args[5], "%lin"@, "%gsz"@];
    machine::lemma_listed3(args[5], "%lin"@, "%gsz"@);
    assert(text::fill(whole, args) =~= machine::line(op, given));
    machine::lemma_reads_line(op, given);
}

/// `rem.u32 %rem,%lin,%gsz;`
proof fn parts_raster_origin_5(args: Seq<Seq<char>>)
    ensures
        reads(
            text::fill("    rem.u32 %rem,%lin,%gsz;\n"@, args),
            seq![Insn { op: "rem.u32"@, args: seq!["%rem"@, "%lin"@, "%gsz"@] }],
        ),
{
    reveal_strlit("    rem.u32 %rem,%lin,%gsz;\n");
    reveal_strlit("%gsz");
    reveal_strlit("%lin");
    reveal_strlit("%rem");
    reveal_strlit("rem.u32");
    frames::lemma_fill_plain("    rem.u32 %rem,%lin,%gsz;\n"@, args);
    let op = "rem.u32"@;
    let given = seq!["%rem"@, "%lin"@, "%gsz"@];
    machine::lemma_listed3("%rem"@, "%lin"@, "%gsz"@);
    assert(text::fill("    rem.u32 %rem,%lin,%gsz;\n"@, args) =~= machine::line(op, given));
    machine::lemma_reads_line(op, given);
}

/// `mul.lo.s32 %col0,#5,#2;`
proof fn parts_raster_origin_6(args: Seq<Seq<char>>)
    requires
        args.len() > 5,
        operand(args[2]),
        operand(args[5]),
    ensures
        reads(
            text::fill("    mul.lo.s32 %col0,#5,#2;\n"@, args),
            seq![Insn { op: "mul.lo.s32"@, args: seq!["%col0"@, args[5], args[2]] }],
        ),
{
    reveal_strlit("    mul.lo.s32 %col0,");
    reveal_strlit("    mul.lo.s32 %col0,#5,#2;\n");
    reveal_strlit("%col0");
    reveal_strlit(",");
    reveal_strlit(";\n");
    reveal_strlit("mul.lo.s32");
    let whole = "    mul.lo.s32 %col0,#5,#2;\n"@;
    let x0 = "    mul.lo.s32 %col0,"@;
    frames::lemma_fill_plain(x0, args);
    let x1 = seq!['#', '5'];
    lemma_hole('5', args);
    let x2 = ","@;
    frames::lemma_fill_plain(x2, args);
    let x3 = seq!['#', '2'];
    lemma_hole('2', args);
    let x4 = ";\n"@;
    frames::lemma_fill_plain(x4, args);
    assert(whole =~= x0 + x1 + x2 + x3 + x4);
    frames::lemma_fill_add(x0, x1, args);
    frames::lemma_fill_add(x0 + x1, x2, args);
    frames::lemma_fill_add(x0 + x1 + x2, x3, args);
    frames::lemma_fill_add(x0 + x1 + x2 + x3, x4, args);
    let op = "mul.lo.s32"@;
    let given = seq!["%col0"@, args[5], args[2]];
    machine::lemma_listed3("%col0"@, args[5], args[2]);
    assert(text::fill(whole, args) =~= machine::line(op, given));
    machine::lemma_reads_line(op, given);
}

/// `sub.u32 %gw,%tn,%col0;`
proof fn parts_raster_origin_7(args: Seq<Seq<char>>)
    ensures
        reads(
            text::fill("    sub.u32 %gw,%tn,%col0;\n"@, args),
            seq![Insn { op: "sub.u32"@, args: seq!["%gw"@, "%tn"@, "%col0"@] }],
        ),
{
    reveal_strlit("    sub.u32 %gw,%tn,%col0;\n");
    reveal_strlit("%col0");
    reveal_strlit("%gw");
    reveal_strlit("%tn");
    reveal_strlit("sub.u32");
    frames::lemma_fill_plain("    sub.u32 %gw,%tn,%col0;\n"@, args);
    let op = "sub.u32"@;
    let given = seq!["%gw"@, "%tn"@, "%col0"@];
    machine::lemma_listed3("%gw"@, "%tn"@, "%col0"@);
    assert(text::fill("    sub.u32 %gw,%tn,%col0;\n"@, args) =~= machine::line(op, given));
    machine::lemma_reads_line(op, given);
}

/// `min.u32 %gw,%gw,#2;`
proof fn parts_raster_origin_8(args: Seq<Seq<char>>)
    requires
        args.len() > 2,
        operand(args[2]),
    ensures
        reads(
            text::fill("    min.u32 %gw,%gw,#2;\n"@, args),
            seq![Insn { op: "min.u32"@, args: seq!["%gw"@, "%gw"@, args[2]] }],
        ),
{
    reveal_strlit("    min.u32 %gw,%gw,");
    reveal_strlit("    min.u32 %gw,%gw,#2;\n");
    reveal_strlit("%gw");
    reveal_strlit(";\n");
    reveal_strlit("min.u32");
    let whole = "    min.u32 %gw,%gw,#2;\n"@;
    let x0 = "    min.u32 %gw,%gw,"@;
    frames::lemma_fill_plain(x0, args);
    let x1 = seq!['#', '2'];
    lemma_hole('2', args);
    let x2 = ";\n"@;
    frames::lemma_fill_plain(x2, args);
    assert(whole =~= x0 + x1 + x2);
    frames::lemma_fill_add(x0, x1, args);
    frames::lemma_fill_add(x0 + x1, x2, args);
    let op = "min.u32"@;
    let given = seq!["%gw"@, "%gw"@, args[2]];
    machine::lemma_listed3("%gw"@, "%gw"@, args[2]);
    assert(text::fill(whole, args) =~= machine::line(op, given));
    machine::lemma_reads_line(op, given);
}

/// `div.u32 %trow,%rem,%gw;`
proof fn parts_raster_origin_9(args: Seq<Seq<char>>)
    ensures
        reads(
            text::fill("    div.u32 %trow,%rem,%gw;\n"@, args),
            seq![Insn { op: "div.u32"@, args: seq!["%trow"@, "%rem"@, "%gw"@] }],
        ),
{
    reveal_strlit("    div.u32 %trow,%rem,%gw;\n");
    reveal_strlit("%gw");
    reveal_strlit("%rem");
    reveal_strlit("%trow");
    reveal_strlit("div.u32");
    frames::lemma_fill_plain("    div.u32 %trow,%rem,%gw;\n"@, args);
    let op = "div.u32"@;
    let given = seq!["%trow"@, "%rem"@, "%gw"@];
    machine::lemma_listed3("%trow"@, "%rem"@, "%gw"@);
    assert(text::fill("    div.u32 %trow,%rem,%gw;\n"@, args) =~= machine::line(op, given));
    machine::lemma_reads_line(op, given);
}

/// `rem.u32 %tcol,%rem,%gw;`
proof fn parts_raster_origin_10(args: Seq<Seq<char>>)
    ensures
        reads(
            text::fill("    rem.u32 %tcol,%rem,%gw;\n"@, args),
            seq![Insn { op: "rem.u32"@, args: seq!["%tcol"@, "%rem"@, "%gw"@] }],
        ),
{
    reveal_strlit("    rem.u32 %tcol,%rem,%gw;\n");
    reveal_strlit("%gw");
    reveal_strlit("%rem");
    reveal_strlit("%tcol");
    reveal_strlit("rem.u32");
    frames::lemma_fill_plain("    rem.u32 %tcol,%rem,%gw;\n"@, args);
    let op = "rem.u32"@;
    let given = seq!["%tcol"@, "%rem"@, "%gw"@];
    machine::lemma_listed3("%tcol"@, "%rem"@, "%gw"@);
    assert(text::fill("    rem.u32 %tcol,%rem,%gw;\n"@, args) =~= machine::line(op, given));
    machine::lemma_reads_line(op, given);
}

/// `add.u32 %tcol,%tcol,%col0;`
proof fn parts_raster_origin_11(args: Seq<Seq<char>>)
    ensures
        reads(
            text::fill("    add.u32 %tcol,%tcol,%col0;\n"@, args),
            seq![Insn { op: "add.u32"@, args: seq!["%tcol"@, "%tcol"@, "%col0"@] }],
        ),
{
    reveal_strlit("    add.u32 %tcol,%tcol,%col0;\n");
    reveal_strlit("%col0");
    reveal_strlit("%tcol");
    reveal_strlit("add.u32");
    frames::lemma_fill_plain("    add.u32 %tcol,%tcol,%col0;\n"@, args);
    let op = "add.u32"@;
    let given = seq!["%tcol"@, "%tcol"@, "%col0"@];
    machine::lemma_listed3("%tcol"@, "%tcol"@, "%col0"@);
    assert(text::fill("    add.u32 %tcol,%tcol,%col0;\n"@, args) =~= machine::line(op, given));
    machine::lemma_reads_line(op, given);
}

/// `mul.lo.s32 %baseRow,%trow,#0;`
proof fn parts_raster_origin_12(args: Seq<Seq<char>>)
    requires
        args.len() > 0,
        operand(args[0]),
    ensures
        reads(
            text::fill("    mul.lo.s32 %baseRow,%trow,#0;\n"@, args),
            seq![Insn { op: "mul.lo.s32"@, args: seq!["%baseRow"@, "%trow"@, args[0]] }],
        ),
{
    reveal_strlit("    mul.lo.s32 %baseRow,%trow,");
    reveal_strlit("    mul.lo.s32 %baseRow,%trow,#0;\n");
    reveal_strlit("%baseRow");
    reveal_strlit("%trow");
    reveal_strlit(";\n");
    reveal_strlit("mul.lo.s32");
    let whole = "    mul.lo.s32 %baseRow,%trow,#0;\n"@;
    let x0 = "    mul.lo.s32 %baseRow,%trow,"@;
    frames::lemma_fill_plain(x0, args);
    let x1 = seq!['#', '0'];
    lemma_hole('0', args);
    let x2 = ";\n"@;
    frames::lemma_fill_plain(x2, args);
    assert(whole =~= x0 + x1 + x2);
    frames::lemma_fill_add(x0, x1, args);
    frames::lemma_fill_add(x0 + x1, x2, args);
    let op = "mul.lo.s32"@;
    let given = seq!["%baseRow"@, "%trow"@, args[0]];
    machine::lemma_listed3("%baseRow"@, "%trow"@, args[0]);
    assert(text::fill(whole, args) =~= machine::line(op, given));
    machine::lemma_reads_line(op, given);
}

/// `mul.lo.s32 %baseCol,%tcol,#1;`
proof fn parts_raster_origin_13(args: Seq<Seq<char>>)
    requires
        args.len() > 1,
        operand(args[1]),
    ensures
        reads(
            text::fill("    mul.lo.s32 %baseCol,%tcol,#1;\n"@, args),
            seq![Insn { op: "mul.lo.s32"@, args: seq!["%baseCol"@, "%tcol"@, args[1]] }],
        ),
{
    reveal_strlit("    mul.lo.s32 %baseCol,%tcol,");
    reveal_strlit("    mul.lo.s32 %baseCol,%tcol,#1;\n");
    reveal_strlit("%baseCol");
    reveal_strlit("%tcol");
    reveal_strlit(";\n");
    reveal_strlit("mul.lo.s32");
    let whole = "    mul.lo.s32 %baseCol,%tcol,#1;\n"@;
    let x0 = "    mul.lo.s32 %baseCol,%tcol,"@;
    frames::lemma_fill_plain(x0, args);
    let x1 = seq!['#', '1'];
    lemma_hole('1', args);
    let x2 = ";\n"@;
    frames::lemma_fill_plain(x2, args);
    assert(whole =~= x0 + x1 + x2);
    frames::lemma_fill_add(x0, x1, args);
    frames::lemma_fill_add(x0 + x1, x2, args);
    let op = "mul.lo.s32"@;
    let given = seq!["%baseCol"@, "%tcol"@, args[1]];
    machine::lemma_listed3("%baseCol"@, "%tcol"@, args[1]);
    assert(text::fill(whole, args) =~= machine::line(op, given));
    machine::lemma_reads_line(op, given);
}

/// What [`parts::RASTER_ORIGIN`] spells.
pub proof fn lemma_parts_raster_origin(args: Seq<Seq<char>>)
    requires
        args.len() > 5,
        operand(args[0]),
        operand(args[1]),
        operand(args[2]),
        operand(args[3]),
        operand(args[4]),
        operand(args[5]),
    ensures
        reads(
            text::fill(parts::RASTER_ORIGIN@, args),
            seq![Insn { op: "mov.u32"@, args: seq!["%lin"@, "%ctaid.x"@] }, Insn { op: "shr.u32"@, args: seq!["%tn"@, "%N"@, args[3]] }, Insn { op: "shr.u32"@, args: seq!["%tm"@, "%M"@, args[4]] }, Insn { op: "mul.lo.s32"@, args: seq!["%gsz"@, "%tm"@, args[2]] }, Insn { op: "div.u32"@, args: seq![args[5], "%lin"@, "%gsz"@] }, Insn { op: "rem.u32"@, args: seq!["%rem"@, "%lin"@, "%gsz"@] }, Insn { op: "mul.lo.s32"@, args: seq!["%col0"@, args[5], args[2]] }, Insn { op: "sub.u32"@, args: seq!["%gw"@, "%tn"@, "%col0"@] }, Insn { op: "min.u32"@, args: seq!["%gw"@, "%gw"@, args[2]] }, Insn { op: "div.u32"@, args: seq!["%trow"@, "%rem"@, "%gw"@] }, Insn { op: "rem.u32"@, args: seq!["%tcol"@, "%rem"@, "%gw"@] }, Insn { op: "add.u32"@, args: seq!["%tcol"@, "%tcol"@, "%col0"@] }, Insn { op: "mul.lo.s32"@, args: seq!["%baseRow"@, "%trow"@, args[0]] }, Insn { op: "mul.lo.s32"@, args: seq!["%baseCol"@, "%tcol"@, args[1]] }],
        ),
{
    let t = parts::RASTER_ORIGIN@;
    reveal_strlit("    mov.u32 %lin,%ctaid.x;\n    shr.u32 %tn,%N,#3;\n    shr.u32 %tm,%M,#4;\n    mul.lo.s32 %gsz,%tm,#2;\n    div.u32 #5,%lin,%gsz;\n    rem.u32 %rem,%lin,%gsz;\n    mul.lo.s32 %col0,#5,#2;\n    sub.u32 %gw,%tn,%col0;\n    min.u32 %gw,%gw,#2;\n    div.u32 %trow,%rem,%gw;\n    rem.u32 %tcol,%rem,%gw;\n    add.u32 %tcol,%tcol,%col0;\n    mul.lo.s32 %baseRow,%trow,#0;\n    mul.lo.s32 %baseCol,%tcol,#1;\n");
    reveal_strlit("    mov.u32 %lin,%ctaid.x;\n");
    let l0 = "    mov.u32 %lin,%ctaid.x;\n"@;
    let i0 = Insn { op: "mov.u32"@, args: seq!["%lin"@, "%ctaid.x"@] };
    reveal_strlit("    shr.u32 %tn,%N,#3;\n");
    let l1 = "    shr.u32 %tn,%N,#3;\n"@;
    let i1 = Insn { op: "shr.u32"@, args: seq!["%tn"@, "%N"@, args[3]] };
    reveal_strlit("    shr.u32 %tm,%M,#4;\n");
    let l2 = "    shr.u32 %tm,%M,#4;\n"@;
    let i2 = Insn { op: "shr.u32"@, args: seq!["%tm"@, "%M"@, args[4]] };
    reveal_strlit("    mul.lo.s32 %gsz,%tm,#2;\n");
    let l3 = "    mul.lo.s32 %gsz,%tm,#2;\n"@;
    let i3 = Insn { op: "mul.lo.s32"@, args: seq!["%gsz"@, "%tm"@, args[2]] };
    reveal_strlit("    div.u32 #5,%lin,%gsz;\n");
    let l4 = "    div.u32 #5,%lin,%gsz;\n"@;
    let i4 = Insn { op: "div.u32"@, args: seq![args[5], "%lin"@, "%gsz"@] };
    reveal_strlit("    rem.u32 %rem,%lin,%gsz;\n");
    let l5 = "    rem.u32 %rem,%lin,%gsz;\n"@;
    let i5 = Insn { op: "rem.u32"@, args: seq!["%rem"@, "%lin"@, "%gsz"@] };
    reveal_strlit("    mul.lo.s32 %col0,#5,#2;\n");
    let l6 = "    mul.lo.s32 %col0,#5,#2;\n"@;
    let i6 = Insn { op: "mul.lo.s32"@, args: seq!["%col0"@, args[5], args[2]] };
    reveal_strlit("    sub.u32 %gw,%tn,%col0;\n");
    let l7 = "    sub.u32 %gw,%tn,%col0;\n"@;
    let i7 = Insn { op: "sub.u32"@, args: seq!["%gw"@, "%tn"@, "%col0"@] };
    reveal_strlit("    min.u32 %gw,%gw,#2;\n");
    let l8 = "    min.u32 %gw,%gw,#2;\n"@;
    let i8 = Insn { op: "min.u32"@, args: seq!["%gw"@, "%gw"@, args[2]] };
    reveal_strlit("    div.u32 %trow,%rem,%gw;\n");
    let l9 = "    div.u32 %trow,%rem,%gw;\n"@;
    let i9 = Insn { op: "div.u32"@, args: seq!["%trow"@, "%rem"@, "%gw"@] };
    reveal_strlit("    rem.u32 %tcol,%rem,%gw;\n");
    let l10 = "    rem.u32 %tcol,%rem,%gw;\n"@;
    let i10 = Insn { op: "rem.u32"@, args: seq!["%tcol"@, "%rem"@, "%gw"@] };
    reveal_strlit("    add.u32 %tcol,%tcol,%col0;\n");
    let l11 = "    add.u32 %tcol,%tcol,%col0;\n"@;
    let i11 = Insn { op: "add.u32"@, args: seq!["%tcol"@, "%tcol"@, "%col0"@] };
    reveal_strlit("    mul.lo.s32 %baseRow,%trow,#0;\n");
    let l12 = "    mul.lo.s32 %baseRow,%trow,#0;\n"@;
    let i12 = Insn { op: "mul.lo.s32"@, args: seq!["%baseRow"@, "%trow"@, args[0]] };
    reveal_strlit("    mul.lo.s32 %baseCol,%tcol,#1;\n");
    let l13 = "    mul.lo.s32 %baseCol,%tcol,#1;\n"@;
    let i13 = Insn { op: "mul.lo.s32"@, args: seq!["%baseCol"@, "%tcol"@, args[1]] };
    assert(t =~= l0 + l1 + l2 + l3 + l4 + l5 + l6 + l7 + l8 + l9 + l10 + l11 + l12 + l13);
    parts_raster_origin_0(args);
    let q0 = seq![i0];
    parts_raster_origin_1(args);
    frames::lemma_fill_add(l0, l1, args);
    machine::lemma_reads_add(text::fill(l0, args), q0, text::fill(l1, args), seq![i1]);
    let q1 = q0 + seq![i1];
    parts_raster_origin_2(args);
    frames::lemma_fill_add(l0 + l1, l2, args);
    machine::lemma_reads_add(text::fill(l0 + l1, args), q1, text::fill(l2, args), seq![i2]);
    let q2 = q1 + seq![i2];
    parts_raster_origin_3(args);
    frames::lemma_fill_add(l0 + l1 + l2, l3, args);
    machine::lemma_reads_add(text::fill(l0 + l1 + l2, args), q2, text::fill(l3, args), seq![i3]);
    let q3 = q2 + seq![i3];
    parts_raster_origin_4(args);
    frames::lemma_fill_add(l0 + l1 + l2 + l3, l4, args);
    machine::lemma_reads_add(text::fill(l0 + l1 + l2 + l3, args), q3, text::fill(l4, args), seq![i4]);
    let q4 = q3 + seq![i4];
    parts_raster_origin_5(args);
    frames::lemma_fill_add(l0 + l1 + l2 + l3 + l4, l5, args);
    machine::lemma_reads_add(text::fill(l0 + l1 + l2 + l3 + l4, args), q4, text::fill(l5, args), seq![i5]);
    let q5 = q4 + seq![i5];
    parts_raster_origin_6(args);
    frames::lemma_fill_add(l0 + l1 + l2 + l3 + l4 + l5, l6, args);
    machine::lemma_reads_add(text::fill(l0 + l1 + l2 + l3 + l4 + l5, args), q5, text::fill(l6, args), seq![i6]);
    let q6 = q5 + seq![i6];
    parts_raster_origin_7(args);
    frames::lemma_fill_add(l0 + l1 + l2 + l3 + l4 + l5 + l6, l7, args);
    machine::lemma_reads_add(text::fill(l0 + l1 + l2 + l3 + l4 + l5 + l6, args), q6, text::fill(l7, args), seq![i7]);
    let q7 = q6 + seq![i7];
    parts_raster_origin_8(args);
    frames::lemma_fill_add(l0 + l1 + l2 + l3 + l4 + l5 + l6 + l7, l8, args);
    machine::lemma_reads_add(text::fill(l0 + l1 + l2 + l3 + l4 + l5 + l6 + l7, args), q7, text::fill(l8, args), seq![i8]);
    let q8 = q7 + seq![i8];
    parts_raster_origin_9(args);
    frames::lemma_fill_add(l0 + l1 + l2 + l3 + l4 + l5 + l6 + l7 + l8, l9, args);
    machine::lemma_reads_add(text::fill(l0 + l1 + l2 + l3 + l4 + l5 + l6 + l7 + l8, args), q8, text::fill(l9, args), seq![i9]);
    let q9 = q8 + seq![i9];
    parts_raster_origin_10(args);
    frames::lemma_fill_add(l0 + l1 + l2 + l3 + l4 + l5 + l6 + l7 + l8 + l9, l10, args);
    machine::lemma_reads_add(text::fill(l0 + l1 + l2 + l3 + l4 + l5 + l6 + l7 + l8 + l9, args), q9, text::fill(l10, args), seq![i10]);
    let q10 = q9 + seq![i10];
    parts_raster_origin_11(args);
    frames::lemma_fill_add(l0 + l1 + l2 + l3 + l4 + l5 + l6 + l7 + l8 + l9 + l10, l11, args);
    machine::lemma_reads_add(text::fill(l0 + l1 + l2 + l3 + l4 + l5 + l6 + l7 + l8 + l9 + l10, args), q10, text::fill(l11, args), seq![i11]);
    let q11 = q10 + seq![i11];
    parts_raster_origin_12(args);
    frames::lemma_fill_add(l0 + l1 + l2 + l3 + l4 + l5 + l6 + l7 + l8 + l9 + l10 + l11, l12, args);
    machine::lemma_reads_add(text::fill(l0 + l1 + l2 + l3 + l4 + l5 + l6 + l7 + l8 + l9 + l10 + l11, args), q11, text::fill(l12, args), seq![i12]);
    let q12 = q11 + seq![i12];
    parts_raster_origin_13(args);
    frames::lemma_fill_add(l0 + l1 + l2 + l3 + l4 + l5 + l6 + l7 + l8 + l9 + l10 + l11 + l12, l13, args);
    machine::lemma_reads_add(text::fill(l0 + l1 + l2 + l3 + l4 + l5 + l6 + l7 + l8 + l9 + l10 + l11 + l12, args), q12, text::fill(l13, args), seq![i13]);
    let q13 = q12 + seq![i13];
    assert(q13 =~= seq![Insn { op: "mov.u32"@, args: seq!["%lin"@, "%ctaid.x"@] }, Insn { op: "shr.u32"@, args: seq!["%tn"@, "%N"@, args[3]] }, Insn { op: "shr.u32"@, args: seq!["%tm"@, "%M"@, args[4]] }, Insn { op: "mul.lo.s32"@, args: seq!["%gsz"@, "%tm"@, args[2]] }, Insn { op: "div.u32"@, args: seq![args[5], "%lin"@, "%gsz"@] }, Insn { op: "rem.u32"@, args: seq!["%rem"@, "%lin"@, "%gsz"@] }, Insn { op: "mul.lo.s32"@, args: seq!["%col0"@, args[5], args[2]] }, Insn { op: "sub.u32"@, args: seq!["%gw"@, "%tn"@, "%col0"@] }, Insn { op: "min.u32"@, args: seq!["%gw"@, "%gw"@, args[2]] }, Insn { op: "div.u32"@, args: seq!["%trow"@, "%rem"@, "%gw"@] }, Insn { op: "rem.u32"@, args: seq!["%tcol"@, "%rem"@, "%gw"@] }, Insn { op: "add.u32"@, args: seq!["%tcol"@, "%tcol"@, "%col0"@] }, Insn { op: "mul.lo.s32"@, args: seq!["%baseRow"@, "%trow"@, args[0]] }, Insn { op: "mul.lo.s32"@, args: seq!["%baseCol"@, "%tcol"@, args[1]] }]);
}

/// `mov.u32 %e,%tix;`
proof fn parts_first_chunk_0(args: Seq<Seq<char>>)
    ensures
        reads(
            text::fill("    mov.u32 %e,%tix;\n"@, args),
            seq![Insn { op: "mov.u32"@, args: seq!["%e"@, "%tix"@] }],
        ),
{
    reveal_strlit("    mov.u32 %e,%tix;\n");
    reveal_strlit("%e");
    reveal_strlit("%tix");
    reveal_strlit("mov.u32");
    frames::lemma_fill_plain("    mov.u32 %e,%tix;\n"@, args);
    let op = "mov.u32"@;
    let given = seq!["%e"@, "%tix"@];
    machine::lemma_listed2("%e"@, "%tix"@);
    assert(text::fill("    mov.u32 %e,%tix;\n"@, args) =~= machine::line(op, given));
    machine::lemma_reads_line(op, given);
}

/// What [`parts::FIRST_CHUNK`] spells.
pub proof fn lemma_parts_first_chunk(args: Seq<Seq<char>>)
    ensures
        reads(
            text::fill(parts::FIRST_CHUNK@, args),
            seq![Insn { op: "mov.u32"@, args: seq!["%e"@, "%tix"@] }],
        ),
{
    let t = parts::FIRST_CHUNK@;
    reveal_strlit("    mov.u32 %e,%tix;\n");
    reveal_strlit("    mov.u32 %e,%tix;\n");
    let l0 = "    mov.u32 %e,%tix;\n"@;
    let i0 = Insn { op: "mov.u32"@, args: seq!["%e"@, "%tix"@] };
    assert(t =~= l0);
    parts_first_chunk_0(args);
    let q0 = seq![i0];
    assert(q0 =~= seq![Insn { op: "mov.u32"@, args: seq!["%e"@, "%tix"@] }]);
}

/// `add.u32 %e,%tix,#0;`
proof fn parts_next_chunk_0(args: Seq<Seq<char>>)
    requires
        args.len() > 0,
        operand(args[0]),
    ensures
        reads(
            text::fill("    add.u32 %e,%tix,#0;\n"@, args),
            seq![Insn { op: "add.u32"@, args: seq!["%e"@, "%tix"@, args[0]] }],
        ),
{
    reveal_strlit("    add.u32 %e,%tix,");
    reveal_strlit("    add.u32 %e,%tix,#0;\n");
    reveal_strlit("%e");
    reveal_strlit("%tix");
    reveal_strlit(";\n");
    reveal_strlit("add.u32");
    let whole = "    add.u32 %e,%tix,#0;\n"@;
    let x0 = "    add.u32 %e,%tix,"@;
    frames::lemma_fill_plain(x0, args);
    let x1 = seq!['#', '0'];
    lemma_hole('0', args);
    let x2 = ";\n"@;
    frames::lemma_fill_plain(x2, args);
    assert(whole =~= x0 + x1 + x2);
    frames::lemma_fill_add(x0, x1, args);
    frames::lemma_fill_add(x0 + x1, x2, args);
    let op = "add.u32"@;
    let given = seq!["%e"@, "%tix"@, args[0]];
    machine::lemma_listed3("%e"@, "%tix"@, args[0]);
    assert(text::fill(whole, args) =~= machine::line(op, given));
    machine::lemma_reads_line(op, given);
}

/// What [`parts::NEXT_CHUNK`] spells.
pub proof fn lemma_parts_next_chunk(args: Seq<Seq<char>>)
    requires
        args.len() > 0,
        operand(args[0]),
    ensures
        reads(
            text::fill(parts::NEXT_CHUNK@, args),
            seq![Insn { op: "add.u32"@, args: seq!["%e"@, "%tix"@, args[0]] }],
        ),
{
    let t = parts::NEXT_CHUNK@;
    reveal_strlit("    add.u32 %e,%tix,#0;\n");
    reveal_strlit("    add.u32 %e,%tix,#0;\n");
    let l0 = "    add.u32 %e,%tix,#0;\n"@;
    let i0 = Insn { op: "add.u32"@, args: seq!["%e"@, "%tix"@, args[0]] };
    assert(t =~= l0);
    parts_next_chunk_0(args);
    let q0 = seq![i0];
    assert(q0 =~= seq![Insn { op: "add.u32"@, args: seq!["%e"@, "%tix"@, args[0]] }]);
}

/// `mov.u32 %bufcA,0;`
proof fn pipeline_ring_start_0(args: Seq<Seq<char>>)
    ensures
        reads(
            text::fill("    mov.u32 %bufcA,0;\n"@, args),
            seq![Insn { op: "mov.u32"@, args: seq!["%bufcA"@, "0"@] }],
        ),
{
    reveal_strlit("    mov.u32 %bufcA,0;\n");
    reveal_strlit("%bufcA");
    reveal_strlit("0");
    reveal_strlit("mov.u32");
    frames::lemma_fill_plain("    mov.u32 %bufcA,0;\n"@, args);
    let op = "mov.u32"@;
    let given = seq!["%bufcA"@, "0"@];
    machine::lemma_listed2("%bufcA"@, "0"@);
    assert(text::fill("    mov.u32 %bufcA,0;\n"@, args) =~= machine::line(op, given));
    machine::lemma_reads_line(op, given);
}

/// `mov.u32 %bufcB,0;`
proof fn pipeline_ring_start_1(args: Seq<Seq<char>>)
    ensures
        reads(
            text::fill("    mov.u32 %bufcB,0;\n"@, args),
            seq![Insn { op: "mov.u32"@, args: seq!["%bufcB"@, "0"@] }],
        ),
{
    reveal_strlit("    mov.u32 %bufcB,0;\n");
    reveal_strlit("%bufcB");
    reveal_strlit("0");
    reveal_strlit("mov.u32");
    frames::lemma_fill_plain("    mov.u32 %bufcB,0;\n"@, args);
    let op = "mov.u32"@;
    let given = seq!["%bufcB"@, "0"@];
    machine::lemma_listed2("%bufcB"@, "0"@);
    assert(text::fill("    mov.u32 %bufcB,0;\n"@, args) =~= machine::line(op, given));
    machine::lemma_reads_line(op, given);
}

/// `mov.u32 %bufwA,#0;`
proof fn pipeline_ring_start_2(args: Seq<Seq<char>>)
    requires
        args.len() > 0,
        operand(args[0]),
    ensures
        reads(
            text::fill("    mov.u32 %bufwA,#0;\n"@, args),
            seq![Insn { op: "mov.u32"@, args: seq!["%bufwA"@, args[0]] }],
        ),
{
    reveal_strlit("    mov.u32 %bufwA,");
    reveal_strlit("    mov.u32 %bufwA,#0;\n");
    reveal_strlit("%bufwA");
    reveal_strlit(";\n");
    reveal_strlit("mov.u32");
    let whole = "    mov.u32 %bufwA,#0;\n"@;
    let x0 = "    mov.u32 %bufwA,"@;
    frames::lemma_fill_plain(x0, args);
    let x1 = seq!['#', '0'];
    lemma_hole('0', args);
    let x2 = ";\n"@;
    frames::lemma_fill_plain(x2, args);
    assert(whole =~= x0 + x1 + x2);
    frames::lemma_fill_add(x0, x1, args);
    frames::lemma_fill_add(x0 + x1, x2, args);
    let op = "mov.u32"@;
    let given = seq!["%bufwA"@, args[0]];
    machine::lemma_listed2("%bufwA"@, args[0]);
    assert(text::fill(whole, args) =~= machine::line(op, given));
    machine::lemma_reads_line(op, given);
}

/// `mov.u32 %bufwB,#1;`
proof fn pipeline_ring_start_3(args: Seq<Seq<char>>)
    requires
        args.len() > 1,
        operand(args[1]),
    ensures
        reads(
            text::fill("    mov.u32 %bufwB,#1;\n"@, args),
            seq![Insn { op: "mov.u32"@, args: seq!["%bufwB"@, args[1]] }],
        ),
{
    reveal_strlit("    mov.u32 %bufwB,");
    reveal_strlit("    mov.u32 %bufwB,#1;\n");
    reveal_strlit("%bufwB");
    reveal_strlit(";\n");
    reveal_strlit("mov.u32");
    let whole = "    mov.u32 %bufwB,#1;\n"@;
    let x0 = "    mov.u32 %bufwB,"@;
    frames::lemma_fill_plain(x0, args);
    let x1 = seq!['#', '1'];
    lemma_hole('1', args);
    let x2 = ";\n"@;
    frames::lemma_fill_plain(x2, args);
    assert(whole =~= x0 + x1 + x2);
    frames::lemma_fill_add(x0, x1, args);
    frames::lemma_fill_add(x0 + x1, x2, args);
    let op = "mov.u32"@;
    let given = seq!["%bufwB"@, args[1]];
    machine::lemma_listed2("%bufwB"@, args[1]);
    assert(text::fill(whole, args) =~= machine::line(op, given));
    machine::lemma_reads_line(op, given);
}

/// `mov.u32 %kt,0;`
proof fn pipeline_ring_start_4(args: Seq<Seq<char>>)
    ensures
        reads(
            text::fill("    mov.u32 %kt,0;\n"@, args),
            seq![Insn { op: "mov.u32"@, args: seq!["%kt"@, "0"@] }],
        ),
{
    reveal_strlit("    mov.u32 %kt,0;\n");
    reveal_strlit("%kt");
    reveal_strlit("0");
    reveal_strlit("mov.u32");
    frames::lemma_fill_plain("    mov.u32 %kt,0;\n"@, args);
    let op = "mov.u32"@;
    let given = seq!["%kt"@, "0"@];
    machine::lemma_listed2("%kt"@, "0"@);
    assert(text::fill("    mov.u32 %kt,0;\n"@, args) =~= machine::line(op, given));
    machine::lemma_reads_line(op, given);
}

/// What [`pipeline::RING_START`] spells.
pub proof fn lemma_pipeline_ring_start(args: Seq<Seq<char>>)
    requires
        args.len() > 1,
        operand(args[0]),
        operand(args[1]),
    ensures
        reads(
            text::fill(pipeline::RING_START@, args),
            seq![Insn { op: "mov.u32"@, args: seq!["%bufcA"@, "0"@] }, Insn { op: "mov.u32"@, args: seq!["%bufcB"@, "0"@] }, Insn { op: "mov.u32"@, args: seq!["%bufwA"@, args[0]] }, Insn { op: "mov.u32"@, args: seq!["%bufwB"@, args[1]] }, Insn { op: "mov.u32"@, args: seq!["%kt"@, "0"@] }],
        ),
{
    let t = pipeline::RING_START@;
    reveal_strlit("    mov.u32 %bufcA,0;\n    mov.u32 %bufcB,0;\n    mov.u32 %bufwA,#0;\n    mov.u32 %bufwB,#1;\n    mov.u32 %kt,0;\n");
    reveal_strlit("    mov.u32 %bufcA,0;\n");
    let l0 = "    mov.u32 %bufcA,0;\n"@;
    let i0 = Insn { op: "mov.u32"@, args: seq!["%bufcA"@, "0"@] };
    reveal_strlit("    mov.u32 %bufcB,0;\n");
    let l1 = "    mov.u32 %bufcB,0;\n"@;
    let i1 = Insn { op: "mov.u32"@, args: seq!["%bufcB"@, "0"@] };
    reveal_strlit("    mov.u32 %bufwA,#0;\n");
    let l2 = "    mov.u32 %bufwA,#0;\n"@;
    let i2 = Insn { op: "mov.u32"@, args: seq!["%bufwA"@, args[0]] };
    reveal_strlit("    mov.u32 %bufwB,#1;\n");
    let l3 = "    mov.u32 %bufwB,#1;\n"@;
    let i3 = Insn { op: "mov.u32"@, args: seq!["%bufwB"@, args[1]] };
    reveal_strlit("    mov.u32 %kt,0;\n");
    let l4 = "    mov.u32 %kt,0;\n"@;
    let i4 = Insn { op: "mov.u32"@, args: seq!["%kt"@, "0"@] };
    assert(t =~= l0 + l1 + l2 + l3 + l4);
    pipeline_ring_start_0(args);
    let q0 = seq![i0];
    pipeline_ring_start_1(args);
    frames::lemma_fill_add(l0, l1, args);
    machine::lemma_reads_add(text::fill(l0, args), q0, text::fill(l1, args), seq![i1]);
    let q1 = q0 + seq![i1];
    pipeline_ring_start_2(args);
    frames::lemma_fill_add(l0 + l1, l2, args);
    machine::lemma_reads_add(text::fill(l0 + l1, args), q1, text::fill(l2, args), seq![i2]);
    let q2 = q1 + seq![i2];
    pipeline_ring_start_3(args);
    frames::lemma_fill_add(l0 + l1 + l2, l3, args);
    machine::lemma_reads_add(text::fill(l0 + l1 + l2, args), q2, text::fill(l3, args), seq![i3]);
    let q3 = q2 + seq![i3];
    pipeline_ring_start_4(args);
    frames::lemma_fill_add(l0 + l1 + l2 + l3, l4, args);
    machine::lemma_reads_add(text::fill(l0 + l1 + l2 + l3, args), q3, text::fill(l4, args), seq![i4]);
    let q4 = q3 + seq![i4];
    assert(q4 =~= seq![Insn { op: "mov.u32"@, args: seq!["%bufcA"@, "0"@] }, Insn { op: "mov.u32"@, args: seq!["%bufcB"@, "0"@] }, Insn { op: "mov.u32"@, args: seq!["%bufwA"@, args[0]] }, Insn { op: "mov.u32"@, args: seq!["%bufwB"@, args[1]] }, Insn { op: "mov.u32"@, args: seq!["%kt"@, "0"@] }]);
}

} // verus!
