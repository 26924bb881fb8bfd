//! What the templates of the kernels spell: see [`machine`].
use vstd::prelude::*;

use crate::ptx_wmma::frames;
use crate::ptx_wmma::machine;
use crate::ptx_wmma::plain;
use crate::ptx_wmma::smem;
use crate::ptx_wmma::smem_db;
use crate::ptx_wmma::machine::{lacks, operand, reads, Insn};
use crate::text;

verus! {

/// A hole is filled by its argument.
proof fn lemma_hole(c: char, args: Seq<Seq<char>>)
    requires
        '0' <= c,
        (c as int - '0' as int) < args.len(),
    ensures
        text::fill(seq!['#', c], args) == args[c as int - '0' as int],
{
    reveal_with_fuel(text::fill, 3);
    let t = seq!['#', c];
    assert(t.drop_last() =~= seq!['#']);
    assert(seq!['#'].drop_last() =~= Seq::<char>::empty());
    assert(text::fill(t, args) =~= args[c as int - '0' as int]);
}

/// One operand more in front of a list.
proof fn lemma_cons(args: Seq<Seq<char>>, a: Seq<char>, rest: Seq<Seq<char>>)
    requires
        rest.len() > 0,
        args == seq![a] + rest,
    ensures
        machine::listed(args) == a + seq![','] + machine::listed(rest),
{
    assert(args.skip(1) =~= rest);
}

/// The beginning of a line before the rest of it.
proof fn lemma_front(f: Seq<char>, op: Seq<char>, a: Seq<char>, r: Seq<char>)
    requires
        f == seq![' ', ' ', ' ', ' '] + op + seq![' '] + a + seq![','],
    ensures
        f + (r + seq![';', '\n']) == seq![' ', ' ', ' ', ' '] + op + seq![' '] + (a + seq![','] + r) + seq![';', '\n'],
{
    assert(f + (r + seq![';', '\n']) =~= seq![' ', ' ', ' ', ' '] + op + seq![' '] + (a + seq![','] + r) + seq![';', '\n']);
}

/// An operand and its comma before the rest of a line.
proof fn lemma_shift(f: Seq<char>, a: Seq<char>, r: Seq<char>)
    requires
        f == a + seq![','],
    ensures
        f + (r + seq![';', '\n']) == (a + seq![','] + r) + seq![';', '\n'],
{
    assert(f + (r + seq![';', '\n']) =~= (a + seq![','] + r) + seq![';', '\n']);
}

/// `mul.lo.s32 %tmp,%warpRow,#4;`
proof fn smem_store_0(args: Seq<Seq<char>>)
    requires
        args.len() > 4,
        operand(args[4]),
    ensures
        reads(
            text::fill("    mul.lo.s32 %tmp,%warpRow,#4;\n"@, args),
            seq![Insn { op: "mul.lo.s32"@, args: seq!["%tmp"@, "%warpRow"@, args[4]] }],
        ),
{
    reveal_strlit("    mul.lo.s32 %tmp,%warpRow,");
    reveal_strlit("    mul.lo.s32 %tmp,%warpRow,#4;\n");
    reveal_strlit("%tmp");
    reveal_strlit("%warpRow");
    reveal_strlit(";\n");
    reveal_strlit("mul.lo.s32");
    let whole = "    mul.lo.s32 %tmp,%warpRow,#4;\n"@;
    let x0 = "    mul.lo.s32 %tmp,%warpRow,"@;
    frames::lemma_fill_plain(x0, args);
    let x1 = seq!['#', '4'];
    lemma_hole('4', args);
    let x2 = ";\n"@;
    frames::lemma_fill_plain(x2, args);
    assert(whole =~= x0 + x1 + x2);
    frames::lemma_fill_add(x0, x1, args);
    frames::lemma_fill_add(x0 + x1, x2, args);
    let op = "mul.lo.s32"@;
    let given = seq!["%tmp"@, "%warpRow"@, args[4]];
    machine::lemma_listed3("%tmp"@, "%warpRow"@, args[4]);
    assert(text::fill(whole, args) =~= machine::line(op, given));
    machine::lemma_reads_line(op, given);
}

/// `add.u32 %tmp,%tmp,#2;`
proof fn smem_store_1(args: Seq<Seq<char>>)
    requires
        args.len() > 2,
        operand(args[2]),
    ensures
        reads(
            text::fill("    add.u32 %tmp,%tmp,#2;\n"@, args),
            seq![Insn { op: "add.u32"@, args: seq!["%tmp"@, "%tmp"@, args[2]] }],
        ),
{
    reveal_strlit("    add.u32 %tmp,%tmp,");
    reveal_strlit("    add.u32 %tmp,%tmp,#2;\n");
    reveal_strlit("%tmp");
    reveal_strlit(";\n");
    reveal_strlit("add.u32");
    let whole = "    add.u32 %tmp,%tmp,#2;\n"@;
    let x0 = "    add.u32 %tmp,%tmp,"@;
    frames::lemma_fill_plain(x0, args);
    let x1 = seq!['#', '2'];
    lemma_hole('2', args);
    let x2 = ";\n"@;
    frames::lemma_fill_plain(x2, args);
    assert(whole =~= x0 + x1 + x2);
    frames::lemma_fill_add(x0, x1, args);
    frames::lemma_fill_add(x0 + x1, x2, args);
    let op = "add.u32"@;
    let given = seq!["%tmp"@, "%tmp"@, args[2]];
    machine::lemma_listed3("%tmp"@, "%tmp"@, args[2]);
    assert(text::fill(whole, args) =~= machine::line(op, given));
    machine::lemma_reads_line(op, given);
}

/// `add.u32 %tmp,%tmp,%baseRow;`
proof fn smem_store_2(args: Seq<Seq<char>>)
    ensures
        reads(
            text::fill("    add.u32 %tmp,%tmp,%baseRow;\n"@, args),
            seq![Insn { op: "add.u32"@, args: seq!["%tmp"@, "%tmp"@, "%baseRow"@] }],
        ),
{
    reveal_strlit("    add.u32 %tmp,%tmp,%baseRow;\n");
    reveal_strlit("%baseRow");
    reveal_strlit("%tmp");
    reveal_strlit("add.u32");
    frames::lemma_fill_plain("    add.u32 %tmp,%tmp,%baseRow;\n"@, args);
    let op = "add.u32"@;
    let given = seq!["%tmp"@, "%tmp"@, "%baseRow"@];
    machine::lemma_listed3("%tmp"@, "%tmp"@, "%baseRow"@);
    assert(text::fill("    add.u32 %tmp,%tmp,%baseRow;\n"@, args) =~= machine::line(op, given));
    machine::lemma_reads_line(op, given);
}

/// `mul.lo.s32 %tmp,%tmp,%N;`
proof fn smem_store_3(args: Seq<Seq<char>>)
    ensures
        reads(
            text::fill("    mul.lo.s32 %tmp,%tmp,%N;\n"@, args),
            seq![Insn { op: "mul.lo.s32"@, args: seq!["%tmp"@, "%tmp"@, "%N"@] }],
        ),
{
    reveal_strlit("    mul.lo.s32 %tmp,%tmp,%N;\n");
    reveal_strlit("%N");
    reveal_strlit("%tmp");
    reveal_strlit("mul.lo.s32");
    frames::lemma_fill_plain("    mul.lo.s32 %tmp,%tmp,%N;\n"@, args);
    let op = "mul.lo.s32"@;
    let given = seq!["%tmp"@, "%tmp"@, "%N"@];
    machine::lemma_listed3("%tmp"@, "%tmp"@, "%N"@);
    assert(text::fill("    mul.lo.s32 %tmp,%tmp,%N;\n"@, args) =~= machine::line(op, given));
    machine::lemma_reads_line(op, given);
}

/// `mul.lo.s32 %tmp2,%warpCol,#5;`
proof fn smem_store_4(args: Seq<Seq<char>>)
    requires
        args.len() > 5,
        operand(args[5]),
    ensures
        reads(
            text::fill("    mul.lo.s32 %tmp2,%warpCol,#5;\n"@, args),
            seq![Insn { op: "mul.lo.s32"@, args: seq!["%tmp2"@, "%warpCol"@, args[5]] }],
        ),
{
    reveal_strlit("    mul.lo.s32 %tmp2,%warpCol,");
    reveal_strlit("    mul.lo.s32 %tmp2,%warpCol,#5;\n");
    reveal_strlit("%tmp2");
    reveal_strlit("%warpCol");
    reveal_strlit(";\n");
    reveal_strlit("mul.lo.s32");
    let whole = "    mul.lo.s32 %tmp2,%warpCol,#5;\n"@;
    let x0 = "    mul.lo.s32 %tmp2,%warpCol,"@;
    frames::lemma_fill_plain(x0, args);
    let x1 = seq!['#', '5'];
    lemma_hole('5', args);
    let x2 = ";\n"@;
    frames::lemma_fill_plain(x2, args);
    assert(whole =~= x0 + x1 + x2);
    frames::lemma_fill_add(x0, x1, args);
    frames::lemma_fill_add(x0 + x1, x2, args);
    let op = "mul.lo.s32"@;
    let given = seq!["%tmp2"@, "%warpCol"@, args[5]];
    machine::lemma_listed3("%tmp2"@, "%warpCol"@, args[5]);
    assert(text::fill(whole, args) =~= machine::line(op, given));
    machine::lemma_reads_line(op, given);
}

/// `add.u32 %tmp2,%tmp2,#3;`
proof fn smem_store_5(args: Seq<Seq<char>>)
    requires
        args.len() > 3,
        operand(args[3]),
    ensures
        reads(
            text::fill("    add.u32 %tmp2,%tmp2,#3;\n"@, args),
            seq![Insn { op: "add.u32"@, args: seq!["%tmp2"@, "%tmp2"@, args[3]] }],
        ),
{
    reveal_strlit("    add.u32 %tmp2,%tmp2,");
    reveal_strlit("    add.u32 %tmp2,%tmp2,#3;\n");
    reveal_strlit("%tmp2");
    reveal_strlit(";\n");
    reveal_strlit("add.u32");
    let whole = "    add.u32 %tmp2,%tmp2,#3;\n"@;
    let x0 = "    add.u32 %tmp2,%tmp2,"@;
    frames::lemma_fill_plain(x0, args);
    let x1 = seq!['#', '3'];
    lemma_hole('3', args);
    let x2 = ";\n"@;
    frames::lemma_fill_plain(x2, args);
    assert(whole =~= x0 + x1 + x2);
    frames::lemma_fill_add(x0, x1, args);
    frames::lemma_fill_add(x0 + x1, x2, args);
    let op = "add.u32"@;
    let given = seq!["%tmp2"@, "%tmp2"@, args[3]];
    machine::lemma_listed3("%tmp2"@, "%tmp2"@, args[3]);
    assert(text::fill(whole, args) =~= machine::line(op, given));
    machine::lemma_reads_line(op, given);
}

/// `add.u32 %tmp2,%tmp2,%baseCol;`
proof fn smem_store_6(args: Seq<Seq<char>>)
    ensures
        reads(
            text::fill("    add.u32 %tmp2,%tmp2,%baseCol;\n"@, args),
            seq![Insn { op: "add.u32"@, args: seq!["%tmp2"@, "%tmp2"@, "%baseCol"@] }],
        ),
{
    reveal_strlit("    add.u32 %tmp2,%tmp2,%baseCol;\n");
    reveal_strlit("%baseCol");
    reveal_strlit("%tmp2");
    reveal_strlit("add.u32");
    frames::lemma_fill_plain("    add.u32 %tmp2,%tmp2,%baseCol;\n"@, args);
    let op = "add.u32"@;
    let given = seq!["%tmp2"@, "%tmp2"@, "%baseCol"@];
    machine::lemma_listed3("%tmp2"@, "%tmp2"@, "%baseCol"@);
    assert(text::fill("    add.u32 %tmp2,%tmp2,%baseCol;\n"@, args) =~= machine::line(op, given));
    machine::lemma_reads_line(op, given);
}

/// `add.u32 %tmp,%tmp,%tmp2;`
proof fn smem_store_7(args: Seq<Seq<char>>)
    ensures
        reads(
            text::fill("    add.u32 %tmp,%tmp,%tmp2;\n"@, args),
            seq![Insn { op: "add.u32"@, args: seq!["%tmp"@, "%tmp"@, "%tmp2"@] }],
        ),
{
    reveal_strlit("    add.u32 %tmp,%tmp,%tmp2;\n");
    reveal_strlit("%tmp");
    reveal_strlit("%tmp2");
    reveal_strlit("add.u32");
    frames::lemma_fill_plain("    add.u32 %tmp,%tmp,%tmp2;\n"@, args);
    let op = "add.u32"@;
    let given = seq!["%tmp"@, "%tmp"@, "%tmp2"@];
    machine::lemma_listed3("%tmp"@, "%tmp"@, "%tmp2"@);
    assert(text::fill("    add.u32 %tmp,%tmp,%tmp2;\n"@, args) =~= machine::line(op, given));
    machine::lemma_reads_line(op, given);
}

/// `mul.wide.u32 %off,%tmp,4;`
proof fn smem_store_8(args: Seq<Seq<char>>)
    ensures
        reads(
            text::fill("    mul.wide.u32 %off,%tmp,4;\n"@, args),
            seq![Insn { op: "mul.wide.u32"@, args: seq!["%off"@, "%tmp"@, "4"@] }],
        ),
{
    reveal_strlit("    mul.wide.u32 %off,%tmp,4;\n");
    reveal_strlit("%off");
    reveal_strlit("%tmp");
    reveal_strlit("4");
    reveal_strlit("mul.wide.u32");
    frames::lemma_fill_plain("    mul.wide.u32 %off,%tmp,4;\n"@, args);
    let op = "mul.wide.u32"@;
    let given = seq!["%off"@, "%tmp"@, "4"@];
    machine::lemma_listed3("%off"@, "%tmp"@, "4"@);
    assert(text::fill("    mul.wide.u32 %off,%tmp,4;\n"@, args) =~= machine::line(op, given));
    machine::lemma_reads_line(op, given);
}

/// `add.s64 %cptr,%C,%off;`
proof fn smem_store_9(args: Seq<Seq<char>>)
    ensures
        reads(
            text::fill("    add.s64 %cptr,%C,%off;\n"@, args),
            seq![Insn { op: "add.s64"@, args: seq!["%cptr"@, "%C"@, "%off"@] }],
        ),
{
    reveal_strlit("    add.s64 %cptr,%C,%off;\n");
    reveal_strlit("%C");
    reveal_strlit("%cptr");
    reveal_strlit("%off");
    reveal_strlit("add.s64");
    frames::lemma_fill_plain("    add.s64 %cptr,%C,%off;\n"@, args);
    let op = "add.s64"@;
    let given = seq!["%cptr"@, "%C"@, "%off"@];
    machine::lemma_listed3("%cptr"@, "%C"@, "%off"@);
    assert(text::fill("    add.s64 %cptr,%C,%off;\n"@, args) =~= machine::line(op, given));
    machine::lemma_reads_line(op, given);
}

/// Operand 0 of the line below.
proof fn smem_store_10_part0(args: Seq<Seq<char>>)
    ensures
        text::fill("    wmma.store.d.sync.aligned.m16n16k16.row.f32 [%cptr],"@, args) == seq![' ', ' ', ' ', ' '] + "wmma.store.d.sync.aligned.m16n16k16.row.f32"@ + seq![' '] + "[%cptr]"@ + seq![','],
{
    reveal_strlit("    wmma.store.d.sync.aligned.m16n16k16.row.f32 [%cptr],");
    reveal_strlit("[%cptr]");
    reveal_strlit("wmma.store.d.sync.aligned.m16n16k16.row.f32");
    frames::lemma_fill_plain("    wmma.store.d.sync.aligned.m16n16k16.row.f32 [%cptr],"@, args);
    assert(text::fill("    wmma.store.d.sync.aligned.m16n16k16.row.f32 [%cptr],"@, args) =~= seq![' ', ' ', ' ', ' '] + "wmma.store.d.sync.aligned.m16n16k16.row.f32"@ + seq![' '] + "[%cptr]"@ + seq![',']);
}

/// Operand 1 of the line below.
proof fn smem_store_10_part1(args: Seq<Seq<char>>)
    requires
        args.len() > 1,
    ensures
        text::fill(" {%c#0_#1_0,"@, args) == " {%c"@ + args[0] + "_"@ + args[1] + "_0"@ + seq![','],
{
    reveal_strlit(" {%c");
    reveal_strlit(" {%c#0_#1_0,");
    reveal_strlit("_");
    reveal_strlit("_0");
    reveal_strlit("_0,");
    let x0 = " {%c"@;
    frames::lemma_fill_plain(x0, args);
    let x1 = seq!['#', '0'];
    lemma_hole('0', args);
    let x2 = "_"@;
    frames::lemma_fill_plain(x2, args);
    let x3 = seq!['#', '1'];
    lemma_hole('1', args);
    let x4 = "_0,"@;
    frames::lemma_fill_plain(x4, args);
    assert(" {%c#0_#1_0,"@ =~= x0 + x1 + x2 + x3 + x4);
    frames::lemma_fill_add(x0, x1, args);
    frames::lemma_fill_add(x0 + x1, x2, args);
    frames::lemma_fill_add(x0 + x1 + x2, x3, args);
    frames::lemma_fill_add(x0 + x1 + x2 + x3, x4, args);
    assert(text::fill(" {%c#0_#1_0,"@, args) =~= " {%c"@ + args[0] + "_"@ + args[1] + "_0"@ + seq![',']);
}

/// Operand 2 of the line below.
proof fn smem_store_10_part2(args: Seq<Seq<char>>)
    requires
        args.len() > 1,
    ensures
        text::fill("%c#0_#1_1,"@, args) == "%c"@ + args[0] + "_"@ + args[1] + "_1"@ + seq![','],
{
    reveal_strlit("%c");
    reveal_strlit("%c#0_#1_1,");
    reveal_strlit("_");
    reveal_strlit("_1");
    reveal_strlit("_1,");
    let x0 = "%c"@;
    frames::lemma_fill_plain(x0, args);
    let x1 = seq!['#', '0'];
    lemma_hole('0', args);
    let x2 = "_"@;
    frames::lemma_fill_plain(x2, args);
    let x3 = seq!['#', '1'];
    lemma_hole('1', args);
    let x4 = "_1,"@;
    frames::lemma_fill_plain(x4, args);
    assert("%c#0_#1_1,"@ =~= x0 + x1 + x2 + x3 + x4);
    frames::lemma_fill_add(x0, x1, args);
    frames::lemma_fill_add(x0 + x1, x2, args);
    frames::lemma_fill_add(x0 + x1 + x2, x3, args);
    frames::lemma_fill_add(x0 + x1 + x2 + x3, x4, args);
    assert(text::fill("%c#0_#1_1,"@, args) =~= "%c"@ + args[0] + "_"@ + args[1] + "_1"@ + seq![',']);
}

/// Operand 3 of the line below.
proof fn smem_store_10_part3(args: Seq<Seq<char>>)
    requires
        args.len() > 1,
    ensures
        text::fill("%c#0_#1_2,"@, args) == "%c"@ + args[0] + "_"@ + args[1] + "_2"@ + seq![','],
{
    reveal_strlit("%c");
    reveal_strlit("%c#0_#1_2,");
    reveal_strlit("_");
    reveal_strlit("_2");
    reveal_strlit("_2,");
    let x0 = "%c"@;
    frames::lemma_fill_plain(x0, args);
    let x1 = seq!['#', '0'];
    lemma_hole('0', args);
    let x2 = "_"@;
    frames::lemma_fill_plain(x2, args);
    let x3 = seq!['#', '1'];
    lemma_hole('1', args);
    let x4 = "_2,"@;
    frames::lemma_fill_plain(x4, args);
    assert("%c#0_#1_2,"@ =~= x0 + x1 + x2 + x3 + x4);
    frames::lemma_fill_add(x0, x1, args);
    frames::lemma_fill_add(x0 + x1, x2, args);
    frames::lemma_fill_add(x0 + x1 + x2, x3, args);
    frames::lemma_fill_add(x0 + x1 + x2 + x3, x4, args);
    assert(text::fill("%c#0_#1_2,"@, args) =~= "%c"@ + args[0] + "_"@ + args[1] + "_2"@ + seq![',']);
}

/// Operand 4 of the line below.
proof fn smem_store_10_part4(args: Seq<Seq<char>>)
    requires
        args.len() > 1,
    ensures
        text::fill("%c#0_#1_3,"@, args) == "%c"@ + args[0] + "_"@ + args[1] + "_3"@ + seq![','],
{
    reveal_strlit("%c");
    reveal_strlit("%c#0_#1_3,");
    reveal_strlit("_");
    reveal_strlit("_3");
    reveal_strlit("_3,");
    let x0 = "%c"@;
    frames::lemma_fill_plain(x0, args);
    let x1 = seq!['#', '0'];
    lemma_hole('0', args);
    let x2 = "_"@;
    frames::lemma_fill_plain(x2, args);
    let x3 = seq!['#', '1'];
    lemma_hole('1', args);
    let x4 = "_3,"@;
    frames::lemma_fill_plain(x4, args);
    assert("%c#0_#1_3,"@ =~= x0 + x1 + x2 + x3 + x4);
    frames::lemma_fill_add(x0, x1, args);
    frames::lemma_fill_add(x0 + x1, x2, args);
    frames::lemma_fill_add(x0 + x1 + x2, x3, args);
    frames::lemma_fill_add(x0 + x1 + x2 + x3, x4, args);
    assert(text::fill("%c#0_#1_3,"@, args) =~= "%c"@ + args[0] + "_"@ + args[1] + "_3"@ + seq![',']);
}

/// Operand 5 of the line below.
proof fn smem_store_10_part5(args: Seq<Seq<char>>)
    requires
        args.len() > 1,
    ensures
        text::fill("%c#0_#1_4,"@, args) == "%c"@ + args[0] + "_"@ + args[1] + "_4"@ + seq![','],
{
    reveal_strlit("%c");
    reveal_strlit("%c#0_#1_4,");
    reveal_strlit("_");
    reveal_strlit("_4");
    reveal_strlit("_4,");
    let x0 = "%c"@;
    frames::lemma_fill_plain(x0, args);
    let x1 = seq!['#', '0'];
    lemma_hole('0', args);
    let x2 = "_"@;
    frames::lemma_fill_plain(x2, args);
    let x3 = seq!['#', '1'];
    lemma_hole('1', args);
    let x4 = "_4,"@;
    frames::lemma_fill_plain(x4, args);
    assert("%c#0_#1_4,"@ =~= x0 + x1 + x2 + x3 + x4);
    frames::lemma_fill_add(x0, x1, args);
    frames::lemma_fill_add(x0 + x1, x2, args);
    frames::lemma_fill_add(x0 + x1 + x2, x3, args);
    frames::lemma_fill_add(x0 + x1 + x2 + x3, x4, args);
    assert(text::fill("%c#0_#1_4,"@, args) =~= "%c"@ + args[0] + "_"@ + args[1] + "_4"@ + seq![',']);
}

/// Operand 6 of the line below.
proof fn smem_store_10_part6(args: Seq<Seq<char>>)
    requires
        args.len() > 1,
    ensures
        text::fill("%c#0_#1_5,"@, args) == "%c"@ + args[0] + "_"@ + args[1] + "_5"@ + seq![','],
{
    reveal_strlit("%c");
    reveal_strlit("%c#0_#1_5,");
    reveal_strlit("_");
    reveal_strlit("_5");
    reveal_strlit("_5,");
    let x0 = "%c"@;
    frames::lemma_fill_plain(x0, args);
    let x1 = seq!['#', '0'];
    lemma_hole('0', args);
    let x2 = "_"@;
    frames::lemma_fill_plain(x2, args);
    let x3 = seq!['#', '1'];
    lemma_hole('1', args);
    let x4 = "_5,"@;
    frames::lemma_fill_plain(x4, args);
    assert("%c#0_#1_5,"@ =~= x0 + x1 + x2 + x3 + x4);
    frames::lemma_fill_add(x0, x1, args);
    frames::lemma_fill_add(x0 + x1, x2, args);
    frames::lemma_fill_add(x0 + x1 + x2, x3, args);
    frames::lemma_fill_add(x0 + x1 + x2 + x3, x4, args);
    assert(text::fill("%c#0_#1_5,"@, args) =~= "%c"@ + args[0] + "_"@ + args[1] + "_5"@ + seq![',']);
}

/// Operand 7 of the line below.
proof fn smem_store_10_part7(args: Seq<Seq<char>>)
    requires
        args.len() > 1,
    ensures
        text::fill("%c#0_#1_6,"@, args) == "%c"@ + args[0] + "_"@ + args[1] + "_6"@ + seq![','],
{
    reveal_strlit("%c");
    reveal_strlit("%c#0_#1_6,");
    reveal_strlit("_");
    reveal_strlit("_6");
    reveal_strlit("_6,");
    let x0 = "%c"@;
    frames::lemma_fill_plain(x0, args);
    let x1 = seq!['#', '0'];
    lemma_hole('0', args);
    let x2 = "_"@;
    frames::lemma_fill_plain(x2, args);
    let x3 = seq!['#', '1'];
    lemma_hole('1', args);
    let x4 = "_6,"@;
    frames::lemma_fill_plain(x4, args);
    assert("%c#0_#1_6,"@ =~= x0 + x1 + x2 + x3 + x4);
    frames::lemma_fill_add(x0, x1, args);
    frames::lemma_fill_add(x0 + x1, x2, args);
    frames::lemma_fill_add(x0 + x1 + x2, x3, args);
    frames::lemma_fill_add(x0 + x1 + x2 + x3, x4, args);
    assert(text::fill("%c#0_#1_6,"@, args) =~= "%c"@ + args[0] + "_"@ + args[1] + "_6"@ + seq![',']);
}

/// Operand 8 of the line below.
proof fn smem_store_10_part8(args: Seq<Seq<char>>)
    requires
        args.len() > 1,
    ensures
        text::fill("%c#0_#1_7},"@, args) == "%c"@ + args[0] + "_"@ + args[1] + "_7}"@ + seq![','],
{
    reveal_strlit("%c");
    reveal_strlit("%c#0_#1_7},");
    reveal_strlit("_");
    reveal_strlit("_7}");
    reveal_strlit("_7},");
    let x0 = "%c"@;
    frames::lemma_fill_plain(x0, args);
    let x1 = seq!['#', '0'];
    lemma_hole('0', args);
    let x2 = "_"@;
    frames::lemma_fill_plain(x2, args);
    let x3 = seq!['#', '1'];
    lemma_hole('1', args);
    let x4 = "_7},"@;
    frames::lemma_fill_plain(x4, args);
    assert("%c#0_#1_7},"@ =~= x0 + x1 + x2 + x3 + x4);
    frames::lemma_fill_add(x0, x1, args);
    frames::lemma_fill_add(x0 + x1, x2, args);
    frames::lemma_fill_add(x0 + x1 + x2, x3, args);
    frames::lemma_fill_add(x0 + x1 + x2 + x3, x4, args);
    assert(text::fill("%c#0_#1_7},"@, args) =~= "%c"@ + args[0] + "_"@ + args[1] + "_7}"@ + seq![',']);
}

/// Operand 9 of the line below.
proof fn smem_store_10_part9(args: Seq<Seq<char>>)
    ensures
        text::fill(" %N;\n"@, args) == " %N"@ + seq![';', '\n'],
{
    reveal_strlit(" %N");
    reveal_strlit(" %N;\n");
    frames::lemma_fill_plain(" %N;\n"@, args);
    assert(text::fill(" %N;\n"@, args) =~= " %N"@ + seq![';', '\n']);
}

/// `wmma.store.d.sync.aligned.m16n16k16.row.f32 [%cptr], {%c#0_#1_0,%c#0_#1_1,%c#0_#1_2,%c#0_#1_3,%c#0_#1_4,%c#0_#1_5,%c#0_#1_6,%c#0_#1_7}, %N;`
#[verifier::rlimit(60)]
proof fn smem_store_10(args: Seq<Seq<char>>)
    requires
        args.len() > 1,
        operand(args[0]),
        operand(args[1]),
    ensures
        reads(
            text::fill("    wmma.store.d.sync.aligned.m16n16k16.row.f32 [%cptr], {%c#0_#1_0,%c#0_#1_1,%c#0_#1_2,%c#0_#1_3,%c#0_#1_4,%c#0_#1_5,%c#0_#1_6,%c#0_#1_7}, %N;\n"@, args),
            seq![Insn { op: "wmma.store.d.sync.aligned.m16n16k16.row.f32"@, args: seq!["[%cptr]"@, " {%c"@ + args[0] + "_"@ + args[1] + "_0"@, "%c"@ + args[0] + "_"@ + args[1] + "_1"@, "%c"@ + args[0] + "_"@ + args[1] + "_2"@, "%c"@ + args[0] + "_"@ + args[1] + "_3"@, "%c"@ + args[0] + "_"@ + args[1] + "_4"@, "%c"@ + args[0] + "_"@ + args[1] + "_5"@, "%c"@ + args[0] + "_"@ + args[1] + "_6"@, "%c"@ + args[0] + "_"@ + args[1] + "_7}"@, " %N"@] }],
        ),
{
    reveal_strlit("    wmma.store.d.sync.aligned.m16n16k16.row.f32 [%cptr], {%c#0_#1_0,%c#0_#1_1,%c#0_#1_2,%c#0_#1_3,%c#0_#1_4,%c#0_#1_5,%c#0_#1_6,%c#0_#1_7}, %N;\n");
    reveal_strlit("    wmma.store.d.sync.aligned.m16n16k16.row.f32 [%cptr],");
    reveal_strlit(" %N");
    reveal_strlit(" %N;\n");
    reveal_strlit(" {%c");
    reveal_strlit(" {%c#0_#1_0,");
    reveal_strlit("%c");
    reveal_strlit("%c#0_#1_1,");
    reveal_strlit("%c#0_#1_2,");
    reveal_strlit("%c#0_#1_3,");
    reveal_strlit("%c#0_#1_4,");
    reveal_strlit("%c#0_#1_5,");
    reveal_strlit("%c#0_#1_6,");
    reveal_strlit("%c#0_#1_7},");
    reveal_strlit("[%cptr]");
    reveal_strlit("_");
    reveal_strlit("_0");
    reveal_strlit("_1");
    reveal_strlit("_2");
    reveal_strlit("_3");
    reveal_strlit("_4");
    reveal_strlit("_5");
    reveal_strlit("_6");
    reveal_strlit("_7}");
    reveal_strlit("wmma.store.d.sync.aligned.m16n16k16.row.f32");
    let s0 = "    wmma.store.d.sync.aligned.m16n16k16.row.f32 [%cptr],"@;
    let s1 = " {%c#0_#1_0,"@;
    let s2 = "%c#0_#1_1,"@;
    let s3 = "%c#0_#1_2,"@;
    let s4 = "%c#0_#1_3,"@;
    let s5 = "%c#0_#1_4,"@;
    let s6 = "%c#0_#1_5,"@;
    let s7 = "%c#0_#1_6,"@;
    let s8 = "%c#0_#1_7},"@;
    let s9 = " %N;\n"@;
    let a0 = "[%cptr]"@;
    let a1 = " {%c"@ + args[0] + "_"@ + args[1] + "_0"@;
    let a2 = "%c"@ + args[0] + "_"@ + args[1] + "_1"@;
    let a3 = "%c"@ + args[0] + "_"@ + args[1] + "_2"@;
    let a4 = "%c"@ + args[0] + "_"@ + args[1] + "_3"@;
    let a5 = "%c"@ + args[0] + "_"@ + args[1] + "_4"@;
    let a6 = "%c"@ + args[0] + "_"@ + args[1] + "_5"@;
    let a7 = "%c"@ + args[0] + "_"@ + args[1] + "_6"@;
    let a8 = "%c"@ + args[0] + "_"@ + args[1] + "_7}"@;
    let a9 = " %N"@;
    let t9 = s9;
    let t8 = s8 + t9;
    let t7 = s7 + t8;
    let t6 = s6 + t7;
    let t5 = s5 + t6;
    let t4 = s4 + t5;
    let t3 = s3 + t4;
    let t2 = s2 + t3;
    let t1 = s1 + t2;
    let t0 = s0 + t1;
    assert("    wmma.store.d.sync.aligned.m16n16k16.row.f32 [%cptr], {%c#0_#1_0,%c#0_#1_1,%c#0_#1_2,%c#0_#1_3,%c#0_#1_4,%c#0_#1_5,%c#0_#1_6,%c#0_#1_7}, %N;\n"@ =~= t0);
    smem_store_10_part0(args);
    smem_store_10_part1(args);
    smem_store_10_part2(args);
    smem_store_10_part3(args);
    smem_store_10_part4(args);
    smem_store_10_part5(args);
    smem_store_10_part6(args);
    smem_store_10_part7(args);
    smem_store_10_part8(args);
    smem_store_10_part9(args);
    frames::lemma_fill_add(s0, t1, args);
    frames::lemma_fill_add(s1, t2, args);
    frames::lemma_fill_add(s2, t3, args);
    frames::lemma_fill_add(s3, t4, args);
    frames::lemma_fill_add(s4, t5, args);
    frames::lemma_fill_add(s5, t6, args);
    frames::lemma_fill_add(s6, t7, args);
    frames::lemma_fill_add(s7, t8, args);
    frames::lemma_fill_add(s8, t9, args);
    let g0 = seq![a0, a1, a2, a3, a4, a5, a6, a7, a8, a9];
    let g1 = seq![a1, a2, a3, a4, a5, a6, a7, a8, a9];
    let g2 = seq![a2, a3, a4, a5, a6, a7, a8, a9];
    let g3 = seq![a3, a4, a5, a6, a7, a8, a9];
    let g4 = seq![a4, a5, a6, a7, a8, a9];
    let g5 = seq![a5, a6, a7, a8, a9];
    let g6 = seq![a6, a7, a8, a9];
    let g7 = seq![a7, a8, a9];
    let g8 = seq![a8, a9];
    let g9 = seq![a9];
    assert(g0 =~= seq![a0] + g1);
    lemma_cons(g0, a0, g1);
    assert(g1 =~= seq![a1] + g2);
    lemma_cons(g1, a1, g2);
    assert(g2 =~= seq![a2] + g3);
    lemma_cons(g2, a2, g3);
    assert(g3 =~= seq![a3] + g4);
    lemma_cons(g3, a3, g4);
    assert(g4 =~= seq![a4] + g5);
    lemma_cons(g4, a4, g5);
    assert(g5 =~= seq![a5] + g6);
    lemma_cons(g5, a5, g6);
    assert(g6 =~= seq![a6] + g7);
    lemma_cons(g6, a6, g7);
    assert(g7 =~= seq![a7] + g8);
    lemma_cons(g7, a7, g8);
    assert(g8 =~= seq![a8] + g9);
    lemma_cons(g8, a8, g9);
    let op = "wmma.store.d.sync.aligned.m16n16k16.row.f32"@;
    lemma_shift(text::fill(s8, args), a8, machine::listed(g9));
    lemma_shift(text::fill(s7, args), a7, machine::listed(g8));
    lemma_shift(text::fill(s6, args), a6, machine::listed(g7));
    lemma_shift(text::fill(s5, args), a5, machine::listed(g6));
    lemma_shift(text::fill(s4, args), a4, machine::listed(g5));
    lemma_shift(text::fill(s3, args), a3, machine::listed(g4));
    lemma_shift(text::fill(s2, args), a2, machine::listed(g3));
    lemma_shift(text::fill(s1, args), a1, machine::listed(g2));
    assert(text::fill(t1, args) == machine::listed(g1) + seq![';', '\n']);
    lemma_front(text::fill(s0, args), op, a0, machine::listed(g1));
    assert(text::fill(t0, args) == machine::line(op, g0));
    assert(operand(a0));
    assert(operand(a1));
    assert(operand(a2));
    assert(operand(a3));
    assert(operand(a4));
    assert(operand(a5));
    assert(operand(a6));
    assert(operand(a7));
    assert(operand(a8));
    assert(operand(a9));
    machine::lemma_reads_line(op, g0);
}

/// What [`smem::STORE`] spells.
pub proof fn lemma_smem_store(args: Seq<Seq<char>>)
    requires
        args.len() > 5,
        operand(args[0]),
        operand(args[1]),
        operand(args[2]),
        operand(args[3]),
        operand(args[4]),
        operand(args[5]),
    ensures
        reads(
            text::fill(smem::STORE@, args),
            seq![Insn { op: "mul.lo.s32"@, args: seq!["%tmp"@, "%warpRow"@, args[4]] }, Insn { op: "add.u32"@, args: seq!["%tmp"@, "%tmp"@, args[2]] }, Insn { op: "add.u32"@, args: seq!["%tmp"@, "%tmp"@, "%baseRow"@] }, Insn { op: "mul.lo.s32"@, args: seq!["%tmp"@, "%tmp"@, "%N"@] }, Insn { op: "mul.lo.s32"@, args: seq!["%tmp2"@, "%warpCol"@, args[5]] }, Insn { op: "add.u32"@, args: seq!["%tmp2"@, "%tmp2"@, args[3]] }, Insn { op: "add.u32"@, args: seq!["%tmp2"@, "%tmp2"@, "%baseCol"@] }, Insn { op: "add.u32"@, args: seq!["%tmp"@, "%tmp"@, "%tmp2"@] }, Insn { op: "mul.wide.u32"@, args: seq!["%off"@, "%tmp"@, "4"@] }, Insn { op: "add.s64"@, args: seq!["%cptr"@, "%C"@, "%off"@] }, Insn { op: "wmma.store.d.sync.aligned.m16n16k16.row.f32"@, args: seq!["[%cptr]"@, " {%c"@ + args[0] + "_"@ + args[1] + "_0"@, "%c"@ + args[0] + "_"@ + args[1] + "_1"@, "%c"@ + args[0] + "_"@ + args[1] + "_2"@, "%c"@ + args[0] + "_"@ + args[1] + "_3"@, "%c"@ + args[0] + "_"@ + args[1] + "_4"@, "%c"@ + args[0] + "_"@ + args[1] + "_5"@, "%c"@ + args[0] + "_"@ + args[1] + "_6"@, "%c"@ + args[0] + "_"@ + args[1] + "_7}"@, " %N"@] }],
        ),
{
    let t = smem::STORE@;
    reveal_strlit("    mul.lo.s32 %tmp,%warpRow,#4;\n    add.u32 %tmp,%tmp,#2;\n    add.u32 %tmp,%tmp,%baseRow;\n    mul.lo.s32 %tmp,%tmp,%N;\n    mul.lo.s32 %tmp2,%warpCol,#5;\n    add.u32 %tmp2,%tmp2,#3;\n    add.u32 %tmp2,%tmp2,%baseCol;\n    add.u32 %tmp,%tmp,%tmp2;\n    mul.wide.u32 %off,%tmp,4;\n    add.s64 %cptr,%C,%off;\n    wmma.store.d.sync.aligned.m16n16k16.row.f32 [%cptr], {%c#0_#1_0,%c#0_#1_1,%c#0_#1_2,%c#0_#1_3,%c#0_#1_4,%c#0_#1_5,%c#0_#1_6,%c#0_#1_7}, %N;\n");
    reveal_strlit("    mul.lo.s32 %tmp,%warpRow,#4;\n");
    let l0 = "    mul.lo.s32 %tmp,%warpRow,#4;\n"@;
    let i0 = Insn { op: "mul.lo.s32"@, args: seq!["%tmp"@, "%warpRow"@, args[4]] };
    reveal_strlit("    add.u32 %tmp,%tmp,#2;\n");
    let l1 = "    add.u32 %tmp,%tmp,#2;\n"@;
    let i1 = Insn { op: "add.u32"@, args: seq!["%tmp"@, "%tmp"@, args[2]] };
    reveal_strlit("    add.u32 %tmp,%tmp,%baseRow;\n");
    let l2 = "    add.u32 %tmp,%tmp,%baseRow;\n"@;
    let i2 = Insn { op: "add.u32"@, args: seq!["%tmp"@, "%tmp"@, "%baseRow"@] };
    reveal_strlit("    mul.lo.s32 %tmp,%tmp,%N;\n");
    let l3 = "    mul.lo.s32 %tmp,%tmp,%N;\n"@;
    let i3 = Insn { op: "mul.lo.s32"@, args: seq!["%tmp"@, "%tmp"@, "%N"@] };
    reveal_strlit("    mul.lo.s32 %tmp2,%warpCol,#5;\n");
    let l4 = "    mul.lo.s32 %tmp2,%warpCol,#5;\n"@;
    let i4 = Insn { op: "mul.lo.s32"@, args: seq!["%tmp2"@, "%warpCol"@, args[5]] };
    reveal_strlit("    add.u32 %tmp2,%tmp2,#3;\n");
    let l5 = "    add.u32 %tmp2,%tmp2,#3;\n"@;
    let i5 = Insn { op: "add.u32"@, args: seq!["%tmp2"@, "%tmp2"@, args[3]] };
    reveal_strlit("    add.u32 %tmp2,%tmp2,%baseCol;\n");
    let l6 = "    add.u32 %tmp2,%tmp2,%baseCol;\n"@;
    let i6 = Insn { op: "add.u32"@, args: seq!["%tmp2"@, "%tmp2"@, "%baseCol"@] };
    reveal_strlit("    add.u32 %tmp,%tmp,%tmp2;\n");
    let l7 = "    add.u32 %tmp,%tmp,%tmp2;\n"@;
    let i7 = Insn { op: "add.u32"@, args: seq!["%tmp"@, "%tmp"@, "%tmp2"@] };
    reveal_strlit("    mul.wide.u32 %off,%tmp,4;\n");
    let l8 = "    mul.wide.u32 %off,%tmp,4;\n"@;
    let i8 = Insn { op: "mul.wide.u32"@, args: seq!["%off"@, "%tmp"@, "4"@] };
    reveal_strlit("    add.s64 %cptr,%C,%off;\n");
    let l9 = "    add.s64 %cptr,%C,%off;\n"@;
    let i9 = Insn { op: "add.s64"@, args: seq!["%cptr"@, "%C"@, "%off"@] };
    reveal_strlit("    wmma.store.d.sync.aligned.m16n16k16.row.f32 [%cptr], {%c#0_#1_0,%c#0_#1_1,%c#0_#1_2,%c#0_#1_3,%c#0_#1_4,%c#0_#1_5,%c#0_#1_6,%c#0_#1_7}, %N;\n");
    let l10 = "    wmma.store.d.sync.aligned.m16n16k16.row.f32 [%cptr], {%c#0_#1_0,%c#0_#1_1,%c#0_#1_2,%c#0_#1_3,%c#0_#1_4,%c#0_#1_5,%c#0_#1_6,%c#0_#1_7}, %N;\n"@;
    let i10 = Insn { op: "wmma.store.d.sync.aligned.m16n16k16.row.f32"@, args: seq!["[%cptr]"@, " {%c"@ + args[0] + "_"@ + args[1] + "_0"@, "%c"@ + args[0] + "_"@ + args[1] + "_1"@, "%c"@ + args[0] + "_"@ + args[1] + "_2"@, "%c"@ + args[0] + "_"@ + args[1] + "_3"@, "%c"@ + args[0] + "_"@ + args[1] + "_4"@, "%c"@ + args[0] + "_"@ + args[1] + "_5"@, "%c"@ + args[0] + "_"@ + args[1] + "_6"@, "%c"@ + args[0] + "_"@ + args[1] + "_7}"@, " %N"@] };
    assert(t =~= l0 + l1 + l2 + l3 + l4 + l5 + l6 + l7 + l8 + l9 + l10);
    smem_store_0(args);
    let q0 = seq![i0];
    smem_store_1(args);
    frames::lemma_fill_add(l0, l1, args);
    machine::lemma_reads_add(text::fill(l0, args), q0, text::fill(l1, args), seq![i1]);
    let q1 = q0 + seq![i1];
    smem_store_2(args);
    frames::lemma_fill_add(l0 + l1, l2, args);
    machine::lemma_reads_add(text::fill(l0 + l1, args), q1, text::fill(l2, args), seq![i2]);
    let q2 = q1 + seq![i2];
    smem_store_3(args);
    frames::lemma_fill_add(l0 + l1 + l2, l3, args);
    machine::lemma_reads_add(text::fill(l0 + l1 + l2, args), q2, text::fill(l3, args), seq![i3]);
    let q3 = q2 + seq![i3];
    smem_store_4(args);
    frames::lemma_fill_add(l0 + l1 + l2 + l3, l4, args);
    machine::lemma_reads_add(text::fill(l0 + l1 + l2 + l3, args), q3, text::fill(l4, args), seq![i4]);
    let q4 = q3 + seq![i4];
    smem_store_5(args);
    frames::lemma_fill_add(l0 + l1 + l2 + l3 + l4, l5, args);
    machine::lemma_reads_add(text::fill(l0 + l1 + l2 + l3 + l4, args), q4, text::fill(l5, args), seq![i5]);
    let q5 = q4 + seq![i5];
    smem_store_6(args);
    frames::lemma_fill_add(l0 + l1 + l2 + l3 + l4 + l5, l6, args);
    machine::lemma_reads_add(text::fill(l0 + l1 + l2 + l3 + l4 + l5, args), q5, text::fill(l6, args), seq![i6]);
    let q6 = q5 + seq![i6];
    smem_store_7(args);
    frames::lemma_fill_add(l0 + l1 + l2 + l3 + l4 + l5 + l6, l7, args);
    machine::lemma_reads_add(text::fill(l0 + l1 + l2 + l3 + l4 + l5 + l6, args), q6, text::fill(l7, args), seq![i7]);
    let q7 = q6 + seq![i7];
    smem_store_8(args);
    frames::lemma_fill_add(l0 + l1 + l2 + l3 + l4 + l5 + l6 + l7, l8, args);
    machine::lemma_reads_add(text::fill(l0 + l1 + l2 + l3 + l4 + l5 + l6 + l7, args), q7, text::fill(l8, args), seq![i8]);
    let q8 = q7 + seq![i8];
    smem_store_9(args);
    frames::lemma_fill_add(l0 + l1 + l2 + l3 + l4 + l5 + l6 + l7 + l8, l9, args);
    machine::lemma_reads_add(text::fill(l0 + l1 + l2 + l3 + l4 + l5 + l6 + l7 + l8, args), q8, text::fill(l9, args), seq![i9]);
    let q9 = q8 + seq![i9];
    smem_store_10(args);
    frames::lemma_fill_add(l0 + l1 + l2 + l3 + l4 + l5 + l6 + l7 + l8 + l9, l10, args);
    machine::lemma_reads_add(text::fill(l0 + l1 + l2 + l3 + l4 + l5 + l6 + l7 + l8 + l9, args), q9, text::fill(l10, args), seq![i10]);
    let q10 = q9 + seq![i10];
    assert(q10 =~= seq![Insn { op: "mul.lo.s32"@, args: seq!["%tmp"@, "%warpRow"@, args[4]] }, Insn { op: "add.u32"@, args: seq!["%tmp"@, "%tmp"@, args[2]] }, Insn { op: "add.u32"@, args: seq!["%tmp"@, "%tmp"@, "%baseRow"@] }, Insn { op: "mul.lo.s32"@, args: seq!["%tmp"@, "%tmp"@, "%N"@] }, Insn { op: "mul.lo.s32"@, args: seq!["%tmp2"@, "%warpCol"@, args[5]] }, Insn { op: "add.u32"@, args: seq!["%tmp2"@, "%tmp2"@, args[3]] }, Insn { op: "add.u32"@, args: seq!["%tmp2"@, "%tmp2"@, "%baseCol"@] }, Insn { op: "add.u32"@, args: seq!["%tmp"@, "%tmp"@, "%tmp2"@] }, Insn { op: "mul.wide.u32"@, args: seq!["%off"@, "%tmp"@, "4"@] }, Insn { op: "add.s64"@, args: seq!["%cptr"@, "%C"@, "%off"@] }, Insn { op: "wmma.store.d.sync.aligned.m16n16k16.row.f32"@, args: seq!["[%cptr]"@, " {%c"@ + args[0] + "_"@ + args[1] + "_0"@, "%c"@ + args[0] + "_"@ + args[1] + "_1"@, "%c"@ + args[0] + "_"@ + args[1] + "_2"@, "%c"@ + args[0] + "_"@ + args[1] + "_3"@, "%c"@ + args[0] + "_"@ + args[1] + "_4"@, "%c"@ + args[0] + "_"@ + args[1] + "_5"@, "%c"@ + args[0] + "_"@ + args[1] + "_6"@, "%c"@ + args[0] + "_"@ + args[1] + "_7}"@, " %N"@] }]);
}

/// `add.u32 %tmp,%baseRow,#2;`
proof fn plain_store_0(args: Seq<Seq<char>>)
    requires
        args.len() > 2,
        operand(args[2]),
    ensures
        reads(
            text::fill("    add.u32 %tmp,%baseRow,#2;\n"@, args),
            seq![Insn { op: "add.u32"@, args: seq!["%tmp"@, "%baseRow"@, args[2]] }],
        ),
{
    reveal_strlit("    add.u32 %tmp,%baseRow,");
    reveal_strlit("    add.u32 %tmp,%baseRow,#2;\n");
    reveal_strlit("%baseRow");
    reveal_strlit("%tmp");
    reveal_strlit(";\n");
    reveal_strlit("add.u32");
    let whole = "    add.u32 %tmp,%baseRow,#2;\n"@;
    let x0 = "    add.u32 %tmp,%baseRow,"@;
    frames::lemma_fill_plain(x0, args);
    let x1 = seq!['#', '2'];
    lemma_hole('2', args);
    let x2 = ";\n"@;
    frames::lemma_fill_plain(x2, args);
    assert(whole =~= x0 + x1 + x2);
    frames::lemma_fill_add(x0, x1, args);
    frames::lemma_fill_add(x0 + x1, x2, args);
    let op = "add.u32"@;
    let given = seq!["%tmp"@, "%baseRow"@, args[2]];
    machine::lemma_listed3("%tmp"@, "%baseRow"@, args[2]);
    assert(text::fill(whole, args) =~= machine::line(op, given));
    machine::lemma_reads_line(op, given);
}

/// `add.u32 %tmp,%tmp,%baseCol;`
proof fn plain_store_2(args: Seq<Seq<char>>)
    ensures
        reads(
            text::fill("    add.u32 %tmp,%tmp,%baseCol;\n"@, args),
            seq![Insn { op: "add.u32"@, args: seq!["%tmp"@, "%tmp"@, "%baseCol"@] }],
        ),
{
    reveal_strlit("    add.u32 %tmp,%tmp,%baseCol;\n");
    reveal_strlit("%baseCol");
    reveal_strlit("%tmp");
    reveal_strlit("add.u32");
    frames::lemma_fill_plain("    add.u32 %tmp,%tmp,%baseCol;\n"@, args);
    let op = "add.u32"@;
    let given = seq!["%tmp"@, "%tmp"@, "%baseCol"@];
    machine::lemma_listed3("%tmp"@, "%tmp"@, "%baseCol"@);
    assert(text::fill("    add.u32 %tmp,%tmp,%baseCol;\n"@, args) =~= machine::line(op, given));
    machine::lemma_reads_line(op, given);
}

/// `add.u32 %tmp,%tmp,#3;`
proof fn plain_store_3(args: Seq<Seq<char>>)
    requires
        args.len() > 3,
        operand(args[3]),
    ensures
        reads(
            text::fill("    add.u32 %tmp,%tmp,#3;\n"@, args),
            seq![Insn { op: "add.u32"@, args: seq!["%tmp"@, "%tmp"@, args[3]] }],
        ),
{
    reveal_strlit("    add.u32 %tmp,%tmp,");
    reveal_strlit("    add.u32 %tmp,%tmp,#3;\n");
    reveal_strlit("%tmp");
    reveal_strlit(";\n");
    reveal_strlit("add.u32");
    let whole = "    add.u32 %tmp,%tmp,#3;\n"@;
    let x0 = "    add.u32 %tmp,%tmp,"@;
    frames::lemma_fill_plain(x0, args);
    let x1 = seq!['#', '3'];
    lemma_hole('3', args);
    let x2 = ";\n"@;
    frames::lemma_fill_plain(x2, args);
    assert(whole =~= x0 + x1 + x2);
    frames::lemma_fill_add(x0, x1, args);
    frames::lemma_fill_add(x0 + x1, x2, args);
    let op = "add.u32"@;
    let given = seq!["%tmp"@, "%tmp"@, args[3]];
    machine::lemma_listed3("%tmp"@, "%tmp"@, args[3]);
    assert(text::fill(whole, args) =~= machine::line(op, given));
    machine::lemma_reads_line(op, given);
}

/// What [`plain::STORE`] spells.
pub proof fn lemma_plain_store(args: Seq<Seq<char>>)
    requires
        args.len() > 3,
        operand(args[0]),
        operand(args[1]),
        operand(args[2]),
        operand(args[3]),
    ensures
        reads(
            text::fill(plain::STORE@, args),
            seq![Insn { op: "add.u32"@, args: seq!["%tmp"@, "%baseRow"@, args[2]] }, Insn { op: "mul.lo.s32"@, args: seq!["%tmp"@, "%tmp"@, "%N"@] }, Insn { op: "add.u32"@, args: seq!["%tmp"@, "%tmp"@, "%baseCol"@] }, Insn { op: "add.u32"@, args: seq!["%tmp"@, "%tmp"@, args[3]] }, Insn { op: "mul.wide.u32"@, args: seq!["%off"@, "%tmp"@, "4"@] }, Insn { op: "add.s64"@, args: seq!["%cptr"@, "%C"@, "%off"@] }, Insn { op: "wmma.store.d.sync.aligned.m16n16k16.row.f32"@, args: seq!["[%cptr]"@, " {%c"@ + args[0] + "_"@ + args[1] + "_0"@, "%c"@ + args[0] + "_"@ + args[1] + "_1"@, "%c"@ + args[0] + "_"@ + args[1] + "_2"@, "%c"@ + args[0] + "_"@ + args[1] + "_3"@, "%c"@ + args[0] + "_"@ + args[1] + "_4"@, "%c"@ + args[0] + "_"@ + args[1] + "_5"@, "%c"@ + args[0] + "_"@ + args[1] + "_6"@, "%c"@ + args[0] + "_"@ + args[1] + "_7}"@, " %N"@] }],
        ),
{
    let t = plain::STORE@;
    reveal_strlit("    add.u32 %tmp,%baseRow,#2;\n    mul.lo.s32 %tmp,%tmp,%N;\n    add.u32 %tmp,%tmp,%baseCol;\n    add.u32 %tmp,%tmp,#3;\n    mul.wide.u32 %off,%tmp,4;\n    add.s64 %cptr,%C,%off;\n    wmma.store.d.sync.aligned.m16n16k16.row.f32 [%cptr], {%c#0_#1_0,%c#0_#1_1,%c#0_#1_2,%c#0_#1_3,%c#0_#1_4,%c#0_#1_5,%c#0_#1_6,%c#0_#1_7}, %N;\n");
    reveal_strlit("    add.u32 %tmp,%baseRow,#2;\n");
    let l0 = "    add.u32 %tmp,%baseRow,#2;\n"@;
    let i0 = Insn { op: "add.u32"@, args: seq!["%tmp"@, "%baseRow"@, args[2]] };
    reveal_strlit("    mul.lo.s32 %tmp,%tmp,%N;\n");
    let l1 = "    mul.lo.s32 %tmp,%tmp,%N;\n"@;
    let i1 = Insn { op: "mul.lo.s32"@, args: seq!["%tmp"@, "%tmp"@, "%N"@] };
    reveal_strlit("    add.u32 %tmp,%tmp,%baseCol;\n");
    let l2 = "    add.u32 %tmp,%tmp,%baseCol;\n"@;
    let i2 = Insn { op: "add.u32"@, args: seq!["%tmp"@, "%tmp"@, "%baseCol"@] };
    reveal_strlit("    add.u32 %tmp,%tmp,#3;\n");
    let l3 = "    add.u32 %tmp,%tmp,#3;\n"@;
    let i3 = Insn { op: "add.u32"@, args: seq!["%tmp"@, "%tmp"@, args[3]] };
    reveal_strlit("    mul.wide.u32 %off,%tmp,4;\n");
    let l4 = "    mul.wide.u32 %off,%tmp,4;\n"@;
    let i4 = Insn { op: "mul.wide.u32"@, args: seq!["%off"@, "%tmp"@, "4"@] };
    reveal_strlit("    add.s64 %cptr,%C,%off;\n");
    let l5 = "    add.s64 %cptr,%C,%off;\n"@;
    let i5 = Insn { op: "add.s64"@, args: seq!["%cptr"@, "%C"@, "%off"@] };
    reveal_strlit("    wmma.store.d.sync.aligned.m16n16k16.row.f32 [%cptr], {%c#0_#1_0,%c#0_#1_1,%c#0_#1_2,%c#0_#1_3,%c#0_#1_4,%c#0_#1_5,%c#0_#1_6,%c#0_#1_7}, %N;\n");
    let l6 = "    wmma.store.d.sync.aligned.m16n16k16.row.f32 [%cptr], {%c#0_#1_0,%c#0_#1_1,%c#0_#1_2,%c#0_#1_3,%c#0_#1_4,%c#0_#1_5,%c#0_#1_6,%c#0_#1_7}, %N;\n"@;
    let i6 = Insn { op: "wmma.store.d.sync.aligned.m16n16k16.row.f32"@, args: seq!["[%cptr]"@, " {%c"@ + args[0] + "_"@ + args[1] + "_0"@, "%c"@ + args[0] + "_"@ + args[1] + "_1"@, "%c"@ + args[0] + "_"@ + args[1] + "_2"@, "%c"@ + args[0] + "_"@ + args[1] + "_3"@, "%c"@ + args[0] + "_"@ + args[1] + "_4"@, "%c"@ + args[0] + "_"@ + args[1] + "_5"@, "%c"@ + args[0] + "_"@ + args[1] + "_6"@, "%c"@ + args[0] + "_"@ + args[1] + "_7}"@, " %N"@] };
    assert(t =~= l0 + l1 + l2 + l3 + l4 + l5 + l6);
    plain_store_0(args);
    let q0 = seq![i0];
    smem_store_3(args);
    frames::lemma_fill_add(l0, l1, args);
    machine::lemma_reads_add(text::fill(l0, args), q0, text::fill(l1, args), seq![i1]);
    let q1 = q0 + seq![i1];
    plain_store_2(args);
    frames::lemma_fill_add(l0 + l1, l2, args);
    machine::lemma_reads_add(text::fill(l0 + l1, args), q1, text::fill(l2, args), seq![i2]);
    let q2 = q1 + seq![i2];
    plain_store_3(args);
    frames::lemma_fill_add(l0 + l1 + l2, l3, args);
    machine::lemma_reads_add(text::fill(l0 + l1 + l2, args), q2, text::fill(l3, args), seq![i3]);
    let q3 = q2 + seq![i3];
    smem_store_8(args);
    frames::lemma_fill_add(l0 + l1 + l2 + l3, l4, args);
    machine::lemma_reads_add(text::fill(l0 + l1 + l2 + l3, args), q3, text::fill(l4, args), seq![i4]);
    let q4 = q3 + seq![i4];
    smem_store_9(args);
    frames::lemma_fill_add(l0 + l1 + l2 + l3 + l4, l5, args);
    machine::lemma_reads_add(text::fill(l0 + l1 + l2 + l3 + l4, args), q4, text::fill(l5, args), seq![i5]);
    let q5 = q4 + seq![i5];
    smem_store_10(args);
    frames::lemma_fill_add(l0 + l1 + l2 + l3 + l4 + l5, l6, args);
    machine::lemma_reads_add(text::fill(l0 + l1 + l2 + l3 + l4 + l5, args), q5, text::fill(l6, args), seq![i6]);
    let q6 = q5 + seq![i6];
    assert(q6 =~= seq![Insn { op: "add.u32"@, args: seq!["%tmp"@, "%baseRow"@, args[2]] }, Insn { op: "mul.lo.s32"@, args: seq!["%tmp"@, "%tmp"@, "%N"@] }, Insn { op: "add.u32"@, args: seq!["%tmp"@, "%tmp"@, "%baseCol"@] }, Insn { op: "add.u32"@, args: seq!["%tmp"@, "%tmp"@, args[3]] }, Insn { op: "mul.wide.u32"@, args: seq!["%off"@, "%tmp"@, "4"@] }, Insn { op: "add.s64"@, args: seq!["%cptr"@, "%C"@, "%off"@] }, Insn { op: "wmma.store.d.sync.aligned.m16n16k16.row.f32"@, args: seq!["[%cptr]"@, " {%c"@ + args[0] + "_"@ + args[1] + "_0"@, "%c"@ + args[0] + "_"@ + args[1] + "_1"@, "%c"@ + args[0] + "_"@ + args[1] + "_2"@, "%c"@ + args[0] + "_"@ + args[1] + "_3"@, "%c"@ + args[0] + "_"@ + args[1] + "_4"@, "%c"@ + args[0] + "_"@ + args[1] + "_5"@, "%c"@ + args[0] + "_"@ + args[1] + "_6"@, "%c"@ + args[0] + "_"@ + args[1] + "_7}"@, " %N"@] }]);
}

/// What [`smem_db::TILE_ADDRESS`] spells.
pub proof fn lemma_smem_db_tile_address(args: Seq<Seq<char>>)
    requires
        args.len() > 5,
        operand(args[2]),
        operand(args[3]),
        operand(args[4]),
        operand(args[5]),
    ensures
        reads(
            text::fill(smem_db::TILE_ADDRESS@, args),
            seq![Insn { op: "mul.lo.s32"@, args: seq!["%tmp"@, "%warpRow"@, args[4]] }, Insn { op: "add.u32"@, args: seq!["%tmp"@, "%tmp"@, args[2]] }, Insn { op: "add.u32"@, args: seq!["%tmp"@, "%tmp"@, "%baseRow"@] }, Insn { op: "mul.lo.s32"@, args: seq!["%tmp"@, "%tmp"@, "%N"@] }, Insn { op: "mul.lo.s32"@, args: seq!["%tmp2"@, "%warpCol"@, args[5]] }, Insn { op: "add.u32"@, args: seq!["%tmp2"@, "%tmp2"@, args[3]] }, Insn { op: "add.u32"@, args: seq!["%tmp2"@, "%tmp2"@, "%baseCol"@] }, Insn { op: "add.u32"@, args: seq!["%tmp"@, "%tmp"@, "%tmp2"@] }, Insn { op: "mul.wide.u32"@, args: seq!["%off"@, "%tmp"@, "4"@] }, Insn { op: "add.s64"@, args: seq!["%cptr"@, "%C"@, "%off"@] }],
        ),
{
    let t = smem_db::TILE_ADDRESS@;
    reveal_strlit("    mul.lo.s32 %tmp,%warpRow,#4;\n    add.u32 %tmp,%tmp,#2;\n    add.u32 %tmp,%tmp,%baseRow;\n    mul.lo.s32 %tmp,%tmp,%N;\n    mul.lo.s32 %tmp2,%warpCol,#5;\n    add.u32 %tmp2,%tmp2,#3;\n    add.u32 %tmp2,%tmp2,%baseCol;\n    add.u32 %tmp,%tmp,%tmp2;\n    mul.wide.u32 %off,%tmp,4;\n    add.s64 %cptr,%C,%off;\n");
    reveal_strlit("    mul.lo.s32 %tmp,%warpRow,#4;\n");
    let l0 = "    mul.lo.s32 %tmp,%warpRow,#4;\n"@;
    let i0 = Insn { op: "mul.lo.s32"@, args: seq!["%tmp"@, "%warpRow"@, args[4]] };
    reveal_strlit("    add.u32 %tmp,%tmp,#2;\n");
    let l1 = "    add.u32 %tmp,%tmp,#2;\n"@;
    let i1 = Insn { op: "add.u32"@, args: seq!["%tmp"@, "%tmp"@, args[2]] };
    reveal_strlit("    add.u32 %tmp,%tmp,%baseRow;\n");
    let l2 = "    add.u32 %tmp,%tmp,%baseRow;\n"@;
    let i2 = Insn { op: "add.u32"@, args: seq!["%tmp"@, "%tmp"@, "%baseRow"@] };
    reveal_strlit("    mul.lo.s32 %tmp,%tmp,%N;\n");
    let l3 = "    mul.lo.s32 %tmp,%tmp,%N;\n"@;
    let i3 = Insn { op: "mul.lo.s32"@, args: seq!["%tmp"@, "%tmp"@, "%N"@] };
    reveal_strlit("    mul.lo.s32 %tmp2,%warpCol,#5;\n");
    let l4 = "    mul.lo.s32 %tmp2,%warpCol,#5;\n"@;
    let i4 = Insn { op: "mul.lo.s32"@, args: seq!["%tmp2"@, "%warpCol"@, args[5]] };
    reveal_strlit("    add.u32 %tmp2,%tmp2,#3;\n");
    let l5 = "    add.u32 %tmp2,%tmp2,#3;\n"@;
    let i5 = Insn { op: "add.u32"@, args: seq!["%tmp2"@, "%tmp2"@, args[3]] };
    reveal_strlit("    add.u32 %tmp2,%tmp2,%baseCol;\n");
    let l6 = "    add.u32 %tmp2,%tmp2,%baseCol;\n"@;
    let i6 = Insn { op: "add.u32"@, args: seq!["%tmp2"@, "%tmp2"@, "%baseCol"@] };
    reveal_strlit("    add.u32 %tmp,%tmp,%tmp2;\n");
    let l7 = "    add.u32 %tmp,%tmp,%tmp2;\n"@;
    let i7 = Insn { op: "add.u32"@, args: seq!["%tmp"@, "%tmp"@, "%tmp2"@] };
    reveal_strlit("    mul.wide.u32 %off,%tmp,4;\n");
    let l8 = "    mul.wide.u32 %off,%tmp,4;\n"@;
    let i8 = Insn { op: "mul.wide.u32"@, args: seq!["%off"@, "%tmp"@, "4"@] };
    reveal_strlit("    add.s64 %cptr,%C,%off;\n");
    let l9 = "    add.s64 %cptr,%C,%off;\n"@;
    let i9 = Insn { op: "add.s64"@, args: seq!["%cptr"@, "%C"@, "%off"@] };
    assert(t =~= l0 + l1 + l2 + l3 + l4 + l5 + l6 + l7 + l8 + l9);
    smem_store_0(args);
    let q0 = seq![i0];
    smem_store_1(args);
    frames::lemma_fill_add(l0, l1, args);
    machine::lemma_reads_add(text::fill(l0, args), q0, text::fill(l1, args), seq![i1]);
    let q1 = q0 + seq![i1];
    smem_store_2(args);
    frames::lemma_fill_add(l0 + l1, l2, args);
    machine::lemma_reads_add(text::fill(l0 + l1, args), q1, text::fill(l2, args), seq![i2]);
    let q2 = q1 + seq![i2];
    smem_store_3(args);
    frames::lemma_fill_add(l0 + l1 + l2, l3, args);
    machine::lemma_reads_add(text::fill(l0 + l1 + l2, args), q2, text::fill(l3, args), seq![i3]);
    let q3 = q2 + seq![i3];
    smem_store_4(args);
    frames::lemma_fill_add(l0 + l1 + l2 + l3, l4, args);
    machine::lemma_reads_add(text::fill(l0 + l1 + l2 + l3, args), q3, text::fill(l4, args), seq![i4]);
    let q4 = q3 + seq![i4];
    smem_store_5(args);
    frames::lemma_fill_add(l0 + l1 + l2 + l3 + l4, l5, args);
    machine::lemma_reads_add(text::fill(l0 + l1 + l2 + l3 + l4, args), q4, text::fill(l5, args), seq![i5]);
    let q5 = q4 + seq![i5];
    smem_store_6(args);
    frames::lemma_fill_add(l0 + l1 + l2 + l3 + l4 + l5, l6, args);
    machine::lemma_reads_add(text::fill(l0 + l1 + l2 + l3 + l4 + l5, args), q5, text::fill(l6, args), seq![i6]);
    let q6 = q5 + seq![i6];
    smem_store_7(args);
    frames::lemma_fill_add(l0 + l1 + l2 + l3 + l4 + l5 + l6, l7, args);
    machine::lemma_reads_add(text::fill(l0 + l1 + l2 + l3 + l4 + l5 + l6, args), q6, text::fill(l7, args), seq![i7]);
    let q7 = q6 + seq![i7];
    smem_store_8(args);
    frames::lemma_fill_add(l0 + l1 + l2 + l3 + l4 + l5 + l6 + l7, l8, args);
    machine::lemma_reads_add(text::fill(l0 + l1 + l2 + l3 + l4 + l5 + l6 + l7, args), q7, text::fill(l8, args), seq![i8]);
    let q8 = q7 + seq![i8];
    smem_store_9(args);
    frames::lemma_fill_add(l0 + l1 + l2 + l3 + l4 + l5 + l6 + l7 + l8, l9, args);
    machine::lemma_reads_add(text::fill(l0 + l1 + l2 + l3 + l4 + l5 + l6 + l7 + l8, args), q8, text::fill(l9, args), seq![i9]);
    let q9 = q8 + seq![i9];
    assert(q9 =~= seq![Insn { op: "mul.lo.s32"@, args: seq!["%tmp"@, "%warpRow"@, args[4]] }, Insn { op: "add.u32"@, args: seq!["%tmp"@, "%tmp"@, args[2]] }, Insn { op: "add.u32"@, args: seq!["%tmp"@, "%tmp"@, "%baseRow"@] }, Insn { op: "mul.lo.s32"@, args: seq!["%tmp"@, "%tmp"@, "%N"@] }, Insn { op: "mul.lo.s32"@, args: seq!["%tmp2"@, "%warpCol"@, args[5]] }, Insn { op: "add.u32"@, args: seq!["%tmp2"@, "%tmp2"@, args[3]] }, Insn { op: "add.u32"@, args: seq!["%tmp2"@, "%tmp2"@, "%baseCol"@] }, Insn { op: "add.u32"@, args: seq!["%tmp"@, "%tmp"@, "%tmp2"@] }, Insn { op: "mul.wide.u32"@, args: seq!["%off"@, "%tmp"@, "4"@] }, Insn { op: "add.s64"@, args: seq!["%cptr"@, "%C"@, "%off"@] }]);
}

/// What [`smem_db::TILE_STORE`] spells.
pub proof fn lemma_smem_db_tile_store(args: Seq<Seq<char>>)
    requires
        args.len() > 1,
        operand(args[0]),
        operand(args[1]),
    ensures
        reads(
            text::fill(smem_db::TILE_STORE@, args),
            seq![Insn { op: "wmma.store.d.sync.aligned.m16n16k16.row.f32"@, args: seq!["[%cptr]"@, " {%c"@ + args[0] + "_"@ + args[1] + "_0"@, "%c"@ + args[0] + "_"@ + args[1] + "_1"@, "%c"@ + args[0] + "_"@ + args[1] + "_2"@, "%c"@ + args[0] + "_"@ + args[1] + "_3"@, "%c"@ + args[0] + "_"@ + args[1] + "_4"@, "%c"@ + args[0] + "_"@ + args[1] + "_5"@, "%c"@ + args[0] + "_"@ + args[1] + "_6"@, "%c"@ + args[0] + "_"@ + args[1] + "_7}"@, " %N"@] }],
        ),
{
    let t = smem_db::TILE_STORE@;
    reveal_strlit("    wmma.store.d.sync.aligned.m16n16k16.row.f32 [%cptr], {%c#0_#1_0,%c#0_#1_1,%c#0_#1_2,%c#0_#1_3,%c#0_#1_4,%c#0_#1_5,%c#0_#1_6,%c#0_#1_7}, %N;\n");
    reveal_strlit("    wmma.store.d.sync.aligned.m16n16k16.row.f32 [%cptr], {%c#0_#1_0,%c#0_#1_1,%c#0_#1_2,%c#0_#1_3,%c#0_#1_4,%c#0_#1_5,%c#0_#1_6,%c#0_#1_7}, %N;\n");
    let l0 = "    wmma.store.d.sync.aligned.m16n16k16.row.f32 [%cptr], {%c#0_#1_0,%c#0_#1_1,%c#0_#1_2,%c#0_#1_3,%c#0_#1_4,%c#0_#1_5,%c#0_#1_6,%c#0_#1_7}, %N;\n"@;
    let i0 = Insn { op: "wmma.store.d.sync.aligned.m16n16k16.row.f32"@, args: seq!["[%cptr]"@, " {%c"@ + args[0] + "_"@ + args[1] + "_0"@, "%c"@ + args[0] + "_"@ + args[1] + "_1"@, "%c"@ + args[0] + "_"@ + args[1] + "_2"@, "%c"@ + args[0] + "_"@ + args[1] + "_3"@, "%c"@ + args[0] + "_"@ + args[1] + "_4"@, "%c"@ + args[0] + "_"@ + args[1] + "_5"@, "%c"@ + args[0] + "_"@ + args[1] + "_6"@, "%c"@ + args[0] + "_"@ + args[1] + "_7}"@, " %N"@] };
    assert(t =~= l0);
    smem_store_10(args);
    let q0 = seq![i0];
    assert(q0 =~= seq![Insn { op: "wmma.store.d.sync.aligned.m16n16k16.row.f32"@, args: seq!["[%cptr]"@, " {%c"@ + args[0] + "_"@ + args[1] + "_0"@, "%c"@ + args[0] + "_"@ + args[1] + "_1"@, "%c"@ + args[0] + "_"@ + args[1] + "_2"@, "%c"@ + args[0] + "_"@ + args[1] + "_3"@, "%c"@ + args[0] + "_"@ + args[1] + "_4"@, "%c"@ + args[0] + "_"@ + args[1] + "_5"@, "%c"@ + args[0] + "_"@ + args[1] + "_6"@, "%c"@ + args[0] + "_"@ + args[1] + "_7}"@, " %N"@] }]);
}

} // verus!
