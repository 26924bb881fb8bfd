//! The epilogue that adds a bias: WMMA hides which column a register holds, so each tile goes
//! through shared memory and comes back element by element.
use vstd::prelude::*;
use vstd::string::*;

use crate::ptx_wmma::act;
use crate::ptx_wmma::parts;
use crate::text;

verus! {

pub const TILE_OUT: &'static str = "    cvt.u64.u32 %scptr,%scbase;
    cvta.shared.u64 %scptr,%scptr;
    wmma.store.d.sync.aligned.m16n16k16.row.f32 [%scptr], {%c#0_#1_0,%c#0_#1_1,%c#0_#1_2,%c#0_#1_3,%c#0_#1_4,%c#0_#1_5,%c#0_#1_6,%c#0_#1_7}, #2;
    bar.sync 0;
";

pub const FIRST_ELEMENT: &'static str = "    mov.u32 %f,%lane;
";

pub const NEXT_ELEMENT: &'static str = "    add.u32 %f,%lane,#0;
";

/// One element: `#0` and `#1` are the tile's place, `#2` and `#3` the rows and columns of a warp,
/// `#4` the activation.
pub const ELEMENT: &'static str = "    shr.u32 %r,%f,4;
    and.b32 %c,%f,15;
    shl.b32 %tmp,%f,2;
    add.u32 %tmp,%tmp,%scbase;
    ld.shared.f32 %bval,[%tmp];
    mul.lo.s32 %grow,%warpRow,#2;
    add.u32 %grow,%grow,#0;
    add.u32 %grow,%grow,%baseRow;
    add.u32 %grow,%grow,%r;
    mul.lo.s32 %gcol,%warpCol,#3;
    add.u32 %gcol,%gcol,#1;
    add.u32 %gcol,%gcol,%baseCol;
    add.u32 %gcol,%gcol,%c;
    mul.wide.u32 %off,%gcol,4;
    add.s64 %scptr,%Bias,%off;
    ld.global.f32 %biasv,[%scptr];
    add.f32 %bval,%bval,%biasv;
#4    mul.lo.s32 %tmp,%grow,%N;
    add.u32 %tmp,%tmp,%gcol;
    mul.wide.u32 %off,%tmp,4;
    add.s64 %cptr,%C,%off;
    st.global.f32 [%cptr],%bval;
";

pub const BARRIER: &'static str = "    bar.sync 0;
";

/// The tile in row `i`, column `j`: each lane handles eight of its 256 elements. `ld` is the
/// register that holds the scratch tile's row length.
pub open spec fn bias_tile(
    i: nat,
    j: nat,
    rows: nat,
    cols: nat,
    ld: Seq<char>,
    a: act::Act,
) -> Seq<char> {
    text::fill(TILE_OUT@, seq![text::dec(i), text::dec(j), ld]) + parts::counted(
        FIRST_ELEMENT@,
        NEXT_ELEMENT@,
        text::fill(
            ELEMENT@,
            seq![
                text::dec(i * 16),
                text::dec(j * 16),
                text::dec(rows),
                text::dec(cols),
                a.epilogue_text("%bval"@),
            ],
        ),
        8,
        32,
    ) + BARRIER@
}

/// The first `n` tiles of row `i`.
#[verifier::opaque]
pub open spec fn bias_row(
    i: nat,
    n: nat,
    rows: nat,
    cols: nat,
    ld: Seq<char>,
    a: act::Act,
) -> Seq<char>
    decreases n,
{
    if n == 0 {
        Seq::empty()
    } else {
        bias_row(i, (n - 1) as nat, rows, cols, ld, a) + bias_tile(
            i,
            (n - 1) as nat,
            rows,
            cols,
            ld,
            a,
        )
    }
}

/// The first `tm` rows of `tn` tiles each; a warp owns `rows` by `cols` elements.
#[verifier::opaque]
pub open spec fn bias_tiles(
    tm: nat,
    tn: nat,
    rows: nat,
    cols: nat,
    ld: Seq<char>,
    a: act::Act,
) -> Seq<char>
    decreases tm,
{
    if tm == 0 {
        Seq::empty()
    } else {
        bias_tiles((tm - 1) as nat, tn, rows, cols, ld, a) + bias_row(
            (tm - 1) as nat,
            tn,
            rows,
            cols,
            ld,
            a,
        )
    }
}

/// See [`bias_tiles`].
pub fn bias_tiles_of(
    tm: usize,
    tn: usize,
    rows: usize,
    cols: usize,
    ld: &str,
    a: act::Act,
) -> (r: String)
    requires
        tm * 16 <= usize::MAX,
        tn * 16 <= usize::MAX,
    ensures
        r@ == bias_tiles(tm as nat, tn as nat, rows as nat, cols as nat, ld@, a),
{
    reveal(bias_tiles);
    let mut r = String::new();
    let activation = a.epilogue("%bval");
    for i in 0..tm
        invariant
            tm * 16 <= usize::MAX,
            tn * 16 <= usize::MAX,
            activation@ == a.epilogue_text("%bval"@),
            r@ == bias_tiles(i as nat, tn as nat, rows as nat, cols as nat, ld@, a),
    {
        reveal(bias_tiles);
        reveal(bias_row);
        let mut row = String::new();
        for j in 0..tn
            invariant
                i < tm,
                tm * 16 <= usize::MAX,
                tn * 16 <= usize::MAX,
                activation@ == a.epilogue_text("%bval"@),
                row@ == bias_row(i as nat, j as nat, rows as nat, cols as nat, ld@, a),
        {
            reveal(bias_row);
            let mut tile = text::expand3(TILE_OUT, &text::decimal(i), &text::decimal(j), ld);
            let element = text::expand5(
                ELEMENT,
                &text::decimal(i * 16),
                &text::decimal(j * 16),
                &text::decimal(rows),
                &text::decimal(cols),
                &activation,
            );
            tile.append(&parts::counted_of(FIRST_ELEMENT, NEXT_ELEMENT, &element, 8, 32));
            tile.append(BARRIER);
            row.append(&tile);
        }
        r.append(&row);
    }
    r
}

} // verus!
