//! Which part of the ring each stage of a pipeline is copied to.
use vstd::prelude::*;

use crate::ptx_wmma::frames;
use crate::ptx_wmma::pipeline;
use crate::ptx_wmma::readings;
use crate::render::shown;
use crate::text;

verus! {

/// The lines that say which columns a stage holds, and where in the rings of A and B it lies.
pub open spec fn slot(col: nat, at_a: nat, at_b: nat) -> Seq<char> {
    "    mov.u32 %kcol,"@ + text::dec(col) + ";\n    mov.u32 %bufwA,"@ + text::dec(at_a)
        + ";\n    mov.u32 %bufwB,"@ + text::dec(at_b) + ";\n"@
}

/// A stage ahead of the loop begins with the lines of its slot, and holds the copy.
proof fn lemma_stage(name: Seq<char>, st: Seq<char>, col: nat, a: nat, b: nat, copy: Seq<char>)
    ensures
        ({
            let args = seq![name, st, text::dec(col), text::dec(a), text::dec(b), copy];
            exists|x: Seq<char>| #[trigger] shown::joined(
                text::fill(pipeline::PROLOGUE@, args),
                Seq::empty(),
                slot(col, a, b),
                x,
            )
        }),
{
    let args = seq![name, st, text::dec(col), text::dec(a), text::dec(b), copy];
    let t = pipeline::PROLOGUE@;
    reveal_strlit(
        "    mov.u32 %kcol,#2;\n    mov.u32 %bufwA,#3;\n    mov.u32 %bufwB,#4;\n    setp.lt.u32 %pmore,%kcol,%K;\n    @!%pmore bra PRO_#0_#1;\n#5PRO_#0_#1:\n    cp.async.commit_group;\n",
    );
    reveal_strlit("    mov.u32 %kcol,");
    reveal_strlit(";\n    mov.u32 %bufwA,");
    reveal_strlit(";\n    mov.u32 %bufwB,");
    reveal_strlit(";\n");
    let (p, q, r, s) = (
        "    mov.u32 %kcol,"@,
        ";\n    mov.u32 %bufwA,"@,
        ";\n    mov.u32 %bufwB,"@,
        ";\n"@,
    );
    let (x, y, z) = (seq!['#', '2'], seq!['#', '3'], seq!['#', '4']);
    let head = p + x + q + y + r + z + s;
    let rest = t.skip(head.len() as int);
    assert(t.take(head.len() as int) =~= head);
    assert(t =~= head + rest);
    frames::lemma_fill_add(head, rest, args);
    readings::lemma_hole('2', args);
    readings::lemma_hole('3', args);
    readings::lemma_hole('4', args);
    frames::lemma_fill_plain(p, args);
    frames::lemma_fill_plain(q, args);
    frames::lemma_fill_plain(r, args);
    frames::lemma_fill_plain(s, args);
    frames::lemma_fill_add(p, x, args);
    frames::lemma_fill_add(p + x, q, args);
    frames::lemma_fill_add(p + x + q, y, args);
    frames::lemma_fill_add(p + x + q + y, r, args);
    frames::lemma_fill_add(p + x + q + y + r, z, args);
    frames::lemma_fill_add(p + x + q + y + r + z, s, args);
    assert(text::fill(head, args) == slot(col, a, b));
    let f = text::fill(rest, args);
    assert(text::fill(t, args) =~= Seq::<char>::empty() + slot(col, a, b) + f);
    assert(shown::joined(text::fill(t, args), Seq::empty(), slot(col, a, b), f));
}

/// The stages ahead of the loop are copied to slots of their own: stage `st` holds the columns from
/// `st bk` on and lies `st` tiles into the ring of A and into that of B.
pub proof fn law_each_stage_has_its_slot(
    name: Seq<char>,
    n: nat,
    bk: nat,
    tile_a: nat,
    tile_b: nat,
    copy: Seq<char>,
    st: nat,
)
    requires
        st < n,
    ensures
        exists|x: Seq<char>| #[trigger] shown::joined(
            pipeline::prologue(name, n, bk, tile_a, tile_b, copy),
            pipeline::prologue(name, st, bk, tile_a, tile_b, copy),
            slot(st * bk, st * tile_a, st * tile_b),
            x,
        ),
    decreases n,
{
    reveal(pipeline::prologue);
    let last = (n - 1) as nat;
    let before = pipeline::prologue(name, last, bk, tile_a, tile_b, copy);
    let now = pipeline::prologue(name, n, bk, tile_a, tile_b, copy);
    let here = pipeline::prologue(name, st, bk, tile_a, tile_b, copy);
    let (c, a, b) = (last * bk, last * tile_a, last * tile_b);
    let stage = text::fill(
        pipeline::PROLOGUE@,
        seq![name, text::dec(last), text::dec(c), text::dec(a), text::dec(b), copy],
    );
    assert(now == before + stage);
    let lines = slot(st * bk, st * tile_a, st * tile_b);
    if st == last {
        lemma_stage(name, text::dec(last), c, a, b, copy);
        let x = choose|x: Seq<char>| #[trigger] shown::joined(stage, Seq::empty(), slot(c, a, b), x);
        assert(now =~= here + lines + x);
        assert(shown::joined(now, here, lines, x));
    } else {
        law_each_stage_has_its_slot(name, last, bk, tile_a, tile_b, copy, st);
        let x = choose|x: Seq<char>| #[trigger] shown::joined(before, here, lines, x);
        assert(now =~= here + lines + (x + stage));
        assert(shown::joined(now, here, lines, x + stage));
    }
}

/// The step of an offset in its ring: it moves on by a tile, and back by the ring where it has come to
/// its end.
pub proof fn law_an_offset_moves_on_in_its_ring(reg: Seq<char>, tile: nat, ring: nat)
    ensures
        pipeline::ring_step(reg, tile, ring) == "    add.u32 "@ + reg + ","@ + reg + ","@
            + text::dec(tile) + ";\n    setp.ge.u32 %pmore,"@ + reg + ","@ + text::dec(ring)
            + ";\n    @%pmore sub.u32 "@ + reg + ","@ + reg + ","@ + text::dec(ring) + ";\n"@,
{
    let args = seq![reg, text::dec(tile), text::dec(ring)];
    reveal_strlit(
        "    add.u32 #0,#0,#1;\n    setp.ge.u32 %pmore,#0,#2;\n    @%pmore sub.u32 #0,#0,#2;\n",
    );
    reveal_strlit("    add.u32 ");
    reveal_strlit(",");
    reveal_strlit(";\n    setp.ge.u32 %pmore,");
    reveal_strlit(";\n    @%pmore sub.u32 ");
    reveal_strlit(";\n");
    let (p, c, q, r, s) = (
        "    add.u32 "@,
        ","@,
        ";\n    setp.ge.u32 %pmore,"@,
        ";\n    @%pmore sub.u32 "@,
        ";\n"@,
    );
    let (x, y, z) = (seq!['#', '0'], seq!['#', '1'], seq!['#', '2']);
    assert(pipeline::RING_STEP@ =~= p + x + c + x + c + y + q + x + c + z + r + x + c + x + c + z
        + s);
    readings::lemma_hole('0', args);
    readings::lemma_hole('1', args);
    readings::lemma_hole('2', args);
    frames::lemma_fill_plain(p, args);
    frames::lemma_fill_plain(c, args);
    frames::lemma_fill_plain(q, args);
    frames::lemma_fill_plain(r, args);
    frames::lemma_fill_plain(s, args);
    frames::lemma_fill_add(p, x, args);
    frames::lemma_fill_add(p + x, c, args);
    frames::lemma_fill_add(p + x + c, x, args);
    frames::lemma_fill_add(p + x + c + x, c, args);
    frames::lemma_fill_add(p + x + c + x + c, y, args);
    frames::lemma_fill_add(p + x + c + x + c + y, q, args);
    frames::lemma_fill_add(p + x + c + x + c + y + q, x, args);
    frames::lemma_fill_add(p + x + c + x + c + y + q + x, c, args);
    frames::lemma_fill_add(p + x + c + x + c + y + q + x + c, z, args);
    frames::lemma_fill_add(p + x + c + x + c + y + q + x + c + z, r, args);
    frames::lemma_fill_add(p + x + c + x + c + y + q + x + c + z + r, x, args);
    frames::lemma_fill_add(p + x + c + x + c + y + q + x + c + z + r + x, c, args);
    frames::lemma_fill_add(p + x + c + x + c + y + q + x + c + z + r + x + c, x, args);
    frames::lemma_fill_add(p + x + c + x + c + y + q + x + c + z + r + x + c + x, c, args);
    frames::lemma_fill_add(p + x + c + x + c + y + q + x + c + z + r + x + c + x + c, z, args);
    frames::lemma_fill_add(p + x + c + x + c + y + q + x + c + z + r + x + c + x + c + z, s, args);
}

} // verus!
