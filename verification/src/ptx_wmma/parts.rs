//! The pieces of PTX text that several kernels share.
use vstd::prelude::*;
use vstd::string::*;

use crate::text;

verus! {

/// The signature of a kernel entry; `#1` and `#2` are further parameters.
pub const OPEN: &'static str = ".visible .entry #0(
    .param .u32 pM,
    .param .u32 pN,
    .param .u32 pK,
    .param .u64 pA,
    .param .u64 pB,
    .param .u64 pC#1#2
)
";

/// The parameter that holds the bias vector.
pub const BIAS_PARAM: &'static str = ",
    .param .u64 pBias";

/// A list of `f32` registers.
pub const F32_REGS: &'static str = "    .reg .f32 #0;
";

/// A list of `b32` registers.
pub const B32_REGS: &'static str = "    .reg .b32 #0;
";

pub const LOAD_DIMS: &'static str = "    ld.param.u32 %M,[pM];
    ld.param.u32 %N,[pN];
    ld.param.u32 %K,[pK];
";

pub const LOAD_POINTERS: &'static str = "    ld.param.u64 %A,[pA];
    ld.param.u64 %B,[pB];
    ld.param.u64 %C,[pC];
    cvta.to.global.u64 %A,%A;
    cvta.to.global.u64 %B,%B;
    cvta.to.global.u64 %C,%C;
";

/// The origin of the tile of a block, `#0` rows by `#1` columns, from the block's grid position.
pub const TILE_ORIGIN: &'static str = "    mov.u32 %tmp,%ctaid.y;
    mul.lo.s32 %baseRow,%tmp,#0;
    mov.u32 %tmp,%ctaid.x;
    mul.lo.s32 %baseCol,%tmp,#1;
";

/// The origin of the tile of a block in bands of `#2` tile columns: `#3` and `#4` are the shifts
/// that divide by the tile's columns and rows, `#5` the register of the band number.
pub const RASTER_ORIGIN: &'static str = "    mov.u32 %lin,%ctaid.x;
    shr.u32 %tn,%N,#3;
    shr.u32 %tm,%M,#4;
    mul.lo.s32 %gsz,%tm,#2;
    div.u32 #5,%lin,%gsz;
    rem.u32 %rem,%lin,%gsz;
    mul.lo.s32 %col0,#5,#2;
    sub.u32 %gw,%tn,%col0;
    min.u32 %gw,%gw,#2;
    div.u32 %trow,%rem,%gw;
    rem.u32 %tcol,%rem,%gw;
    add.u32 %tcol,%tcol,%col0;
    mul.lo.s32 %baseRow,%trow,#0;
    mul.lo.s32 %baseCol,%tcol,#1;
";

/// The head of the K loop.
pub const LOOP_HEAD: &'static str = "KLOOP_#0:
    setp.ge.u32 %p0,%kt,%K;
    @%p0 bra KEND_#0;
";

/// The end of the K loop, `#1` columns further.
pub const LOOP_TAIL: &'static str = "    add.u32 %kt,%kt,#1;
    bra KLOOP_#0;
KEND_#0:
";

pub const CLOSE: &'static str = "    ret;
}
";

/// The eight accumulators of one 16 by 16 tile, as list items.
pub const ACC_REGS: &'static str =
    "%c#0_#1_0,%c#0_#1_1,%c#0_#1_2,%c#0_#1_3,%c#0_#1_4,%c#0_#1_5,%c#0_#1_6,%c#0_#1_7,";

pub const ACC_ZERO: &'static str = "    mov.f32 %c#0_#1_0,0f00000000;
    mov.f32 %c#0_#1_1,0f00000000;
    mov.f32 %c#0_#1_2,0f00000000;
    mov.f32 %c#0_#1_3,0f00000000;
    mov.f32 %c#0_#1_4,0f00000000;
    mov.f32 %c#0_#1_5,0f00000000;
    mov.f32 %c#0_#1_6,0f00000000;
    mov.f32 %c#0_#1_7,0f00000000;
";

pub const A_REG: &'static str = "%a#0_#1,";

pub const B_REG: &'static str = "%b#0_#1,";

/// One register of a vector operand; `#2` is the name the registers share.
pub const VECTOR_REG: &'static str = "%#2#0,";

pub const VECTOR: &'static str = "{#0}";

pub const FRAGMENT_NAME: &'static str = "#0#1_";

pub const MMA_TYPE: &'static str = "f32.#0.#0.f32";

pub const WMMA: &'static str = "    wmma.mma.sync.aligned.row.col.m16n16k16.#2 {%c#0_#1_0,%c#0_#1_1,%c#0_#1_2,%c#0_#1_3,%c#0_#1_4,%c#0_#1_5,%c#0_#1_6,%c#0_#1_7}, #3, #4, {%c#0_#1_0,%c#0_#1_1,%c#0_#1_2,%c#0_#1_3,%c#0_#1_4,%c#0_#1_5,%c#0_#1_6,%c#0_#1_7};
";

/// The registers `%p0, %p1, ..` up to `n` of them, as the vector operand of an instruction.
pub open spec fn veclist_text(prefix: Seq<char>, n: nat) -> Seq<char> {
    text::fill(
        VECTOR@,
        seq![text::without_last(text::each(VECTOR_REG@, n, 0, seq![prefix]))],
    )
}

/// Comma-joined `{%p0,%p1,...}` register vector for a WMMA fragment.
pub fn veclist(prefix: &str, n: usize) -> (r: String)
    ensures
        r@ == veclist_text(prefix@, n as nat),
{
    text::expand1(VECTOR, &text::trimmed(&text::each_1(VECTOR_REG, n, 0, prefix)))
}

/// The fragment of number `i` in the family `which`, `width` registers.
pub open spec fn fragment_text(which: Seq<char>, i: nat, width: nat) -> Seq<char> {
    veclist_text(text::fill(FRAGMENT_NAME@, seq![which, text::dec(i)]), width)
}

/// See [`fragment_text`].
pub fn fragment(which: &str, i: usize, width: usize) -> (r: String)
    ensures
        r@ == fragment_text(which@, i as nat, width as nat),
{
    veclist(&text::expand2(FRAGMENT_NAME, which, &text::decimal(i)), width)
}

/// Registers per lane of an A or B fragment of `m16n16k16`: f16 uses the legacy layout of eight.
pub open spec fn fragment_width(ty: Seq<char>) -> nat {
    if ty == "f16"@ {
        8
    } else {
        4
    }
}

/// See [`fragment_width`].
pub fn width_of(ty: &str) -> (r: usize)
    ensures
        r == fragment_width(ty@),
{
    if text::same(ty, "f16") {
        8
    } else {
        4
    }
}

/// The operand types of `wmma.mma`: for f16 inputs only the accumulators are named.
pub open spec fn wmma_types(ty: Seq<char>) -> Seq<char> {
    if ty == "f16"@ {
        "f32.f32"@
    } else {
        text::fill(MMA_TYPE@, seq![ty])
    }
}

/// See [`wmma_types`].
pub fn wmma_types_of(ty: &str) -> (r: String)
    ensures
        r@ == wmma_types(ty@),
{
    if text::same(ty, "f16") {
        String::from_str("f32.f32")
    } else {
        text::expand1(MMA_TYPE, ty)
    }
}

/// The accumulators of `tm` by `tn` tiles as a declaration's list.
pub open spec fn acc_list(tm: nat, tn: nat) -> Seq<char> {
    text::without_last(text::each2(ACC_REGS@, tm, tn, 0, 0, Seq::empty()))
}

/// See [`acc_list`].
pub fn acc_list_of(tm: usize, tn: usize) -> (r: String)
    ensures
        r@ == acc_list(tm as nat, tn as nat),
{
    text::trimmed(&text::each2_0(ACC_REGS, tm, tn, 0, 0))
}

/// The A and B fragment registers as one declaration.
pub open spec fn ab_regs(tm: nat, tn: nat, width: nat) -> Seq<char> {
    text::fill(
        B32_REGS@,
        seq![
            text::without_last(
                text::each2(A_REG@, tm, width, 0, 0, Seq::empty()) + text::each2(
                    B_REG@,
                    tn,
                    width,
                    0,
                    0,
                    Seq::empty(),
                ),
            ),
        ],
    )
}

/// See [`ab_regs`].
pub fn ab_regs_of(tm: usize, tn: usize, width: usize) -> (r: String)
    ensures
        r@ == ab_regs(tm as nat, tn as nat, width as nat),
{
    let mut list = text::each2_0(A_REG, tm, width, 0, 0);
    list.append(&text::each2_0(B_REG, tn, width, 0, 0));
    text::expand1(B32_REGS, &text::trimmed(&list))
}

/// The origin of a block's `bm` by `bn` tile: by grid position, or in bands of `raster` columns.
pub open spec fn origin(bm: nat, bn: nat, raster: nat, band: Seq<char>) -> Seq<char> {
    if raster == 0 {
        text::fill(TILE_ORIGIN@, seq![text::dec(bm), text::dec(bn)])
    } else {
        text::fill(
            RASTER_ORIGIN@,
            seq![
                text::dec(bm),
                text::dec(bn),
                text::dec(raster),
                text::dec(text::twos(bn)),
                text::dec(text::twos(bm)),
                band,
            ],
        )
    }
}

/// See [`origin`].
pub fn origin_of(bm: usize, bn: usize, raster: usize, band: &str) -> (r: String)
    ensures
        r@ == origin(bm as nat, bn as nat, raster as nat, band@),
{
    if raster == 0 {
        text::expand2(TILE_ORIGIN, &text::decimal(bm), &text::decimal(bn))
    } else {
        text::expand6(
            RASTER_ORIGIN,
            &text::decimal(bm),
            &text::decimal(bn),
            &text::decimal(raster),
            &text::decimal(text::shift_of(bn)),
            &text::decimal(text::shift_of(bm)),
            band,
        )
    }
}

/// The template once for each fragment `i < n`: `#0` is `i`, `#1` is `i * step`, `#2` the register
/// vector, and `#3` onwards is `more`.
#[verifier::opaque]
pub open spec fn each_fragment(
    t: Seq<char>,
    which: Seq<char>,
    n: nat,
    width: nat,
    step: nat,
    more: Seq<Seq<char>>,
) -> Seq<char>
    decreases n,
{
    if n == 0 {
        Seq::empty()
    } else {
        let i = (n - 1) as nat;
        each_fragment(t, which, i, width, step, more) + text::fill(
            t,
            seq![text::dec(i), text::dec(i * step), fragment_text(which, i, width)] + more,
        )
    }
}

/// See [`each_fragment`].
pub fn each_fragment_with(
    t: &str,
    which: &str,
    n: usize,
    width: usize,
    step: usize,
    more: &[&str],
) -> (r: String)
    requires
        n * step <= usize::MAX,
    ensures
        r@ == each_fragment(
            t@,
            which@,
            n as nat,
            width as nat,
            step as nat,
            text::views(more@),
        ),
{
    reveal(each_fragment);
    let mut r = String::new();
    for i in 0..n
        invariant
            n * step <= usize::MAX,
            r@ == each_fragment(
                t@,
                which@,
                i as nat,
                width as nat,
                step as nat,
                text::views(more@),
            ),
    {
        reveal(each_fragment);
        assert(i * step <= n * step) by (nonlinear_arith)
            requires
                i <= n,
        ;
        let a = text::decimal(i);
        let b = text::decimal(i * step);
        let v = fragment(which, i, width);
        let head = [a.as_str(), b.as_str(), v.as_str()];
        assert(text::views(head@) == seq![
            text::dec(i as nat),
            text::dec(i as nat * step as nat),
            fragment_text(which@, i as nat, width as nat),
        ]);
        r.append(&text::expand(t, &text::joined(&head, more)));
    }
    r
}

/// [`each_fragment`] with 1 further argument.
pub fn each_fragment_1(
    t: &str,
    which: &str,
    n: usize,
    width: usize,
    step: usize,
    a: &str,
) -> (r: String)
    requires
        n * step <= usize::MAX,
    ensures
        r@ == each_fragment(t@, which@, n as nat, width as nat, step as nat, seq![a@]),
{
    let more = [a];
    let r = each_fragment_with(t, which, n, width, step, &more);
    assert(text::views(more@) == seq![a@]);
    r
}

/// [`each_fragment`] with 2 further arguments.
pub fn each_fragment_2(
    t: &str,
    which: &str,
    n: usize,
    width: usize,
    step: usize,
    a: &str,
    b: &str,
) -> (r: String)
    requires
        n * step <= usize::MAX,
    ensures
        r@ == each_fragment(t@, which@, n as nat, width as nat, step as nat, seq![a@, b@]),
{
    let more = [a, b];
    let r = each_fragment_with(t, which, n, width, step, &more);
    assert(text::views(more@) == seq![a@, b@]);
    r
}

/// [`each_fragment`] with 3 further arguments.
pub fn each_fragment_3(
    t: &str,
    which: &str,
    n: usize,
    width: usize,
    step: usize,
    a: &str,
    b: &str,
    c: &str,
) -> (r: String)
    requires
        n * step <= usize::MAX,
    ensures
        r@ == each_fragment(t@, which@, n as nat, width as nat, step as nat, seq![a@, b@, c@]),
{
    let more = [a, b, c];
    let r = each_fragment_with(t, which, n, width, step, &more);
    assert(text::views(more@) == seq![a@, b@, c@]);
    r
}

/// [`each_fragment`] with 4 further arguments.
pub fn each_fragment_4(
    t: &str,
    which: &str,
    n: usize,
    width: usize,
    step: usize,
    a: &str,
    b: &str,
    c: &str,
    d: &str,
) -> (r: String)
    requires
        n * step <= usize::MAX,
    ensures
        r@ == each_fragment(t@, which@, n as nat, width as nat, step as nat, seq![a@, b@, c@, d@]),
{
    let more = [a, b, c, d];
    let r = each_fragment_with(t, which, n, width, step, &more);
    assert(text::views(more@) == seq![a@, b@, c@, d@]);
    r
}

/// The chunk of a staged tile that a thread copies: its number is the thread's own for the first.
pub const FIRST_CHUNK: &'static str = "    mov.u32 %e,%tix;
";

pub const NEXT_CHUNK: &'static str = "    add.u32 %e,%tix,#0;
";

/// `body` `n` times, each with its number before it: `first` for the first, and the template `next`
/// with `i * step` for the others.
#[verifier::opaque]
pub open spec fn counted(
    first: Seq<char>,
    next: Seq<char>,
    body: Seq<char>,
    n: nat,
    step: nat,
) -> Seq<char>
    decreases n,
{
    if n == 0 {
        Seq::empty()
    } else {
        let i = (n - 1) as nat;
        counted(first, next, body, i, step) + (if i == 0 {
            first
        } else {
            text::fill(next, seq![text::dec(i * step)])
        }) + body
    }
}

/// See [`counted`].
pub fn counted_of(first: &str, next: &str, body: &str, n: usize, step: usize) -> (r: String)
    requires
        n * step <= usize::MAX,
    ensures
        r@ == counted(first@, next@, body@, n as nat, step as nat),
{
    reveal(counted);
    let mut r = String::new();
    for i in 0..n
        invariant
            n * step <= usize::MAX,
            r@ == counted(first@, next@, body@, i as nat, step as nat),
    {
        reveal(counted);
        assert(i * step <= n * step) by (nonlinear_arith)
            requires
                i <= n,
        ;
        if i == 0 {
            r.append(first);
        } else {
            r.append(&text::expand1(next, &text::decimal(i * step)));
        }
        r.append(body);
    }
    r
}

/// The copy `body` for each of the `n` chunks of a thread.
pub open spec fn chunks(body: Seq<char>, n: nat, threads: nat) -> Seq<char> {
    counted(FIRST_CHUNK@, NEXT_CHUNK@, body, n, threads)
}

/// See [`chunks`].
pub fn chunks_of(body: &str, n: usize, threads: usize) -> (r: String)
    requires
        n * threads <= usize::MAX,
    ensures
        r@ == chunks(body@, n as nat, threads as nat),
{
    counted_of(FIRST_CHUNK, NEXT_CHUNK, body, n, threads)
}

/// Whether `threads` threads copy a `rows` by `cols` tile in whole chunks of eight elements each.
pub open spec fn staged_whole(rows: nat, cols: nat, threads: nat) -> bool {
    &&& rows * cols > 0
    &&& (rows * cols) % (threads * 8) == 0
}

/// `rows / (unit * warps)` sub-tiles of `unit` rows lie within the tile.
pub proof fn lemma_sub_tiles(rows: nat, unit: nat, warps: nat)
    requires
        unit > 0,
        warps > 0,
    ensures
        unit * warps > 0,
        rows / (unit * warps) * unit <= rows,
{
    assert(unit * warps > 0) by (nonlinear_arith)
        requires
            unit > 0,
            warps > 0,
    ;
    let d = (unit * warps) as int;
    let q = rows as int / d;
    assert(q * d <= rows && q >= 0) by (nonlinear_arith)
        requires
            d > 0,
            rows >= 0,
            q == rows as int / d,
    ;
    assert(q * unit <= q * d) by (nonlinear_arith)
        requires
            q >= 0,
            d == unit * warps,
            warps >= 1,
            unit > 0,
    ;
}

/// A tile staged in whole chunks gives each thread at least one, and all of them are the tile.
pub proof fn lemma_staged_whole(rows: nat, cols: nat, threads: nat)
    requires
        threads > 0,
        staged_whole(rows, cols, threads),
    ensures
        threads * 8 <= rows * cols,
        rows * cols / (threads * 8) >= 1,
        rows * cols / (threads * 8) * (threads * 8) == rows * cols,
        rows * cols / (threads * 8) * threads <= rows * cols,
{
    let x = rows * cols;
    let d = threads * 8;
    assert(x % d == 0 && x > 0 && d > 0 ==> d <= x && x / d >= 1 && x / d * d == x)
        by (nonlinear_arith);
    let q = x / d;
    assert(q * threads <= q * d) by (nonlinear_arith)
        requires
            d == threads * 8,
            q >= 0,
    ;
}

/// The WMMA steps of row `i` of a tile grid, up to column `n`.
#[verifier::opaque]
pub open spec fn wmma_row(types: Seq<char>, i: nat, n: nat, width: nat) -> Seq<char>
    decreases n,
{
    if n == 0 {
        Seq::empty()
    } else {
        let j = (n - 1) as nat;
        wmma_row(types, i, j, width) + text::fill(
            WMMA@,
            seq![
                text::dec(i),
                text::dec(j),
                types,
                fragment_text("a"@, i, width),
                fragment_text("b"@, j, width),
            ],
        )
    }
}

/// The WMMA steps of a `tm` by `tn` tile grid.
#[verifier::opaque]
pub open spec fn wmma_grid(types: Seq<char>, tm: nat, tn: nat, width: nat) -> Seq<char>
    decreases tm,
{
    if tm == 0 {
        Seq::empty()
    } else {
        let i = (tm - 1) as nat;
        wmma_grid(types, i, tn, width) + wmma_row(types, i, tn, width)
    }
}

/// See [`wmma_grid`].
pub fn wmma_grid_of(types: &str, tm: usize, tn: usize, width: usize) -> (r: String)
    ensures
        r@ == wmma_grid(types@, tm as nat, tn as nat, width as nat),
{
    reveal(wmma_grid);
    let mut r = String::new();
    for i in 0..tm
        invariant
            r@ == wmma_grid(types@, i as nat, tn as nat, width as nat),
    {
        reveal(wmma_grid);
        reveal(wmma_row);
        let a = text::decimal(i);
        let ra = fragment("a", i, width);
        let mut row = String::new();
        for j in 0..tn
            invariant
                a@ == text::dec(i as nat),
                ra@ == fragment_text("a"@, i as nat, width as nat),
                row@ == wmma_row(types@, i as nat, j as nat, width as nat),
        {
            reveal(wmma_row);
            row.append(
                &text::expand5(WMMA, &a, &text::decimal(j), types, &ra, &fragment("b", j, width)),
            );
        }
        r.append(&row);
    }
    r
}

} // verus!
