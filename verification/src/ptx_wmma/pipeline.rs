//! The ring of shared-memory buffers that a multi-stage pipeline copies into ahead of its use.
use vstd::prelude::*;
use vstd::string::*;

use crate::ptx_wmma::parts;
use crate::text;

verus! {

/// The copy of one stage ahead of the loop: `#1` is the stage, `#2` its column, `#3` and `#4` its
/// offsets in the rings of A and B, `#5` the copy.
pub const PROLOGUE: &'static str = "    mov.u32 %kcol,#2;
    mov.u32 %bufwA,#3;
    mov.u32 %bufwB,#4;
    setp.lt.u32 %pmore,%kcol,%K;
    @!%pmore bra PRO_#0_#1;
#5PRO_#0_#1:
    cp.async.commit_group;
";

pub const RING_START: &'static str = "    mov.u32 %bufcA,0;
    mov.u32 %bufcB,0;
    mov.u32 %bufwA,#0;
    mov.u32 %bufwB,#1;
    mov.u32 %kt,0;
";

/// The copy of the stage that is furthest ahead, while `#1` older ones are still in flight; `#2` is
/// how many columns ahead it is and `#3` the copy.
pub const PREFETCH: &'static str = "    cp.async.wait_group #1;
    bar.sync 0;
    add.u32 %kcol,%kt,#2;
    setp.lt.u32 %pmore,%kcol,%K;
    @!%pmore bra NOPRE_#0;
#3NOPRE_#0:
    cp.async.commit_group;
";

/// One offset moves on by a tile of `#1` bytes in its ring of `#2`.
pub const RING_STEP: &'static str = "    add.u32 #0,#0,#1;
    setp.ge.u32 %pmore,#0,#2;
    @%pmore sub.u32 #0,#0,#2;
";

/// The first `n` stages copied ahead of the loop.
#[verifier::opaque]
pub open spec fn prologue(
    name: Seq<char>,
    n: nat,
    bk: nat,
    tile_a: nat,
    tile_b: nat,
    copy: Seq<char>,
) -> Seq<char>
    decreases n,
{
    if n == 0 {
        Seq::empty()
    } else {
        let st = (n - 1) as nat;
        prologue(name, st, bk, tile_a, tile_b, copy) + text::fill(
            PROLOGUE@,
            seq![
                name,
                text::dec(st),
                text::dec(st * bk),
                text::dec(st * tile_a),
                text::dec(st * tile_b),
                copy,
            ],
        )
    }
}

/// See [`prologue`].
pub fn prologue_of(
    name: &str,
    n: usize,
    bk: usize,
    tile_a: usize,
    tile_b: usize,
    copy: &str,
) -> (r: String)
    requires
        n * bk <= usize::MAX,
        n * tile_a <= usize::MAX,
        n * tile_b <= usize::MAX,
    ensures
        r@ == prologue(name@, n as nat, bk as nat, tile_a as nat, tile_b as nat, copy@),
{
    reveal(prologue);
    let mut r = String::new();
    for st in 0..n
        invariant
            n * bk <= usize::MAX,
            n * tile_a <= usize::MAX,
            n * tile_b <= usize::MAX,
            r@ == prologue(name@, st as nat, bk as nat, tile_a as nat, tile_b as nat, copy@),
    {
        reveal(prologue);
        proof {
            lemma_scaled(st as nat, n as nat, bk as nat);
            lemma_scaled(st as nat, n as nat, tile_a as nat);
            lemma_scaled(st as nat, n as nat, tile_b as nat);
        }
        r.append(
            &text::expand6(
                PROLOGUE,
                name,
                &text::decimal(st),
                &text::decimal(st * bk),
                &text::decimal(st * tile_a),
                &text::decimal(st * tile_b),
                copy,
            ),
        );
    }
    r
}

/// `a` copies are no more than `b` of them.
pub proof fn lemma_scaled(a: nat, b: nat, x: nat)
    requires
        a <= b,
    ensures
        a * x <= b * x,
{
    assert(a * x <= b * x) by (nonlinear_arith)
        requires
            a <= b,
    ;
}

/// From the first copy to the multiplications of a loop step.
pub open spec fn pipe_start(
    name: Seq<char>,
    stages: nat,
    bk: nat,
    tile_a: nat,
    tile_b: nat,
    copy: Seq<char>,
) -> Seq<char> {
    let ahead = (stages - 1) as nat;
    prologue(name, ahead, bk, tile_a, tile_b, copy) + text::fill(
        RING_START@,
        seq![text::dec(ahead * tile_a), text::dec(ahead * tile_b)],
    ) + text::fill(parts::LOOP_HEAD@, seq![name]) + text::fill(
        PREFETCH@,
        seq![name, text::dec((stages - 2) as nat), text::dec(ahead * bk), copy],
    )
}

/// See [`pipe_start`].
pub fn pipe_start_of(
    name: &str,
    stages: usize,
    bk: usize,
    tile_a: usize,
    tile_b: usize,
    copy: &str,
) -> (r: String)
    requires
        stages >= 2,
        stages * bk <= usize::MAX,
        stages * tile_a <= usize::MAX,
        stages * tile_b <= usize::MAX,
    ensures
        r@ == pipe_start(name@, stages as nat, bk as nat, tile_a as nat, tile_b as nat, copy@),
{
    proof {
        lemma_scaled((stages - 1) as nat, stages as nat, bk as nat);
        lemma_scaled((stages - 1) as nat, stages as nat, tile_a as nat);
        lemma_scaled((stages - 1) as nat, stages as nat, tile_b as nat);
    }
    let ahead: usize = stages - 1;
    let mut r = prologue_of(name, ahead, bk, tile_a, tile_b, copy);
    r.append(
        &text::expand2(RING_START, &text::decimal(ahead * tile_a), &text::decimal(ahead * tile_b)),
    );
    r.append(&text::expand1(parts::LOOP_HEAD, name));
    r.append(
        &text::expand4(
            PREFETCH,
            name,
            &text::decimal(stages - 2),
            &text::decimal(ahead * bk),
            copy,
        ),
    );
    r
}

/// The step of one offset in its ring.
pub open spec fn ring_step(reg: Seq<char>, tile: nat, ring: nat) -> Seq<char> {
    text::fill(RING_STEP@, seq![reg, text::dec(tile), text::dec(ring)])
}

/// See [`ring_step`].
pub fn ring_step_of(reg: &str, tile: usize, ring: usize) -> (r: String)
    ensures
        r@ == ring_step(reg@, tile as nat, ring as nat),
{
    text::expand3(RING_STEP, reg, &text::decimal(tile), &text::decimal(ring))
}

/// The end of a loop step: the four offsets and the column move on.
pub open spec fn pipe_step(
    name: Seq<char>,
    stages: nat,
    bk: nat,
    tile_a: nat,
    tile_b: nat,
) -> Seq<char> {
    ring_step("%bufcA"@, tile_a, stages * tile_a) + ring_step(
        "%bufcB"@,
        tile_b,
        stages * tile_b,
    ) + ring_step("%bufwA"@, tile_a, stages * tile_a) + ring_step(
        "%bufwB"@,
        tile_b,
        stages * tile_b,
    ) + text::fill(parts::LOOP_TAIL@, seq![name, text::dec(bk)])
}

/// See [`pipe_step`].
pub fn pipe_step_of(name: &str, stages: usize, bk: usize, tile_a: usize, tile_b: usize) -> (r:
    String)
    requires
        stages * tile_a <= usize::MAX,
        stages * tile_b <= usize::MAX,
    ensures
        r@ == pipe_step(name@, stages as nat, bk as nat, tile_a as nat, tile_b as nat),
{
    let mut r = ring_step_of("%bufcA", tile_a, stages * tile_a);
    r.append(&ring_step_of("%bufcB", tile_b, stages * tile_b));
    r.append(&ring_step_of("%bufwA", tile_a, stages * tile_a));
    r.append(&ring_step_of("%bufwB", tile_b, stages * tile_b));
    r.append(&text::expand2(parts::LOOP_TAIL, name, &text::decimal(bk)));
    r
}

} // verus!
