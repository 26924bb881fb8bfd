//! Which tile of C a block owns.
use vstd::arithmetic::power2::*;
use vstd::prelude::*;

use crate::ptx_wmma::addresses;
use crate::ptx_wmma::lanes;
use crate::ptx_wmma::machine;
use crate::ptx_wmma::machine::Machine;
use crate::ptx_wmma::parts;
use crate::text;

verus! {

/// How the registers are spelled.
proof fn lemma_registers()
    ensures
        "%ctaid.x"@.len() == 8 && "%ctaid.x"@[0] == '%' && "%ctaid.x"@[1] == 'c' && "%ctaid.x"@[2] == 't' && "%ctaid.x"@[3] == 'a' && "%ctaid.x"@[4] == 'i' && "%ctaid.x"@[5] == 'd' && "%ctaid.x"@[6] == '.' && "%ctaid.x"@[7] == 'x',
        "%ctaid.y"@.len() == 8 && "%ctaid.y"@[0] == '%' && "%ctaid.y"@[1] == 'c' && "%ctaid.y"@[2] == 't' && "%ctaid.y"@[3] == 'a' && "%ctaid.y"@[4] == 'i' && "%ctaid.y"@[5] == 'd' && "%ctaid.y"@[6] == '.' && "%ctaid.y"@[7] == 'y',
        "%baseRow"@.len() == 8 && "%baseRow"@[0] == '%' && "%baseRow"@[1] == 'b' && "%baseRow"@[2] == 'a' && "%baseRow"@[3] == 's' && "%baseRow"@[4] == 'e' && "%baseRow"@[5] == 'R' && "%baseRow"@[6] == 'o' && "%baseRow"@[7] == 'w',
        "%baseCol"@.len() == 8 && "%baseCol"@[0] == '%' && "%baseCol"@[1] == 'b' && "%baseCol"@[2] == 'a' && "%baseCol"@[3] == 's' && "%baseCol"@[4] == 'e' && "%baseCol"@[5] == 'C' && "%baseCol"@[6] == 'o' && "%baseCol"@[7] == 'l',
        "%tmp"@.len() == 4 && "%tmp"@[0] == '%' && "%tmp"@[1] == 't' && "%tmp"@[2] == 'm' && "%tmp"@[3] == 'p',
        "%lin"@.len() == 4 && "%lin"@[0] == '%' && "%lin"@[1] == 'l' && "%lin"@[2] == 'i' && "%lin"@[3] == 'n',
        "%tn"@.len() == 3 && "%tn"@[0] == '%' && "%tn"@[1] == 't' && "%tn"@[2] == 'n',
        "%tm"@.len() == 3 && "%tm"@[0] == '%' && "%tm"@[1] == 't' && "%tm"@[2] == 'm',
        "%gsz"@.len() == 4 && "%gsz"@[0] == '%' && "%gsz"@[1] == 'g' && "%gsz"@[2] == 's' && "%gsz"@[3] == 'z',
        "%grpr"@.len() == 5 && "%grpr"@[0] == '%' && "%grpr"@[1] == 'g' && "%grpr"@[2] == 'r' && "%grpr"@[3] == 'p' && "%grpr"@[4] == 'r',
        "%rem"@.len() == 4 && "%rem"@[0] == '%' && "%rem"@[1] == 'r' && "%rem"@[2] == 'e' && "%rem"@[3] == 'm',
        "%col0"@.len() == 5 && "%col0"@[0] == '%' && "%col0"@[1] == 'c' && "%col0"@[2] == 'o' && "%col0"@[3] == 'l' && "%col0"@[4] == '0',
        "%gw"@.len() == 3 && "%gw"@[0] == '%' && "%gw"@[1] == 'g' && "%gw"@[2] == 'w',
        "%trow"@.len() == 5 && "%trow"@[0] == '%' && "%trow"@[1] == 't' && "%trow"@[2] == 'r' && "%trow"@[3] == 'o' && "%trow"@[4] == 'w',
        "%tcol"@.len() == 5 && "%tcol"@[0] == '%' && "%tcol"@[1] == 't' && "%tcol"@[2] == 'c' && "%tcol"@[3] == 'o' && "%tcol"@[4] == 'l',
        "%N"@.len() == 2 && "%N"@[0] == '%' && "%N"@[1] == 'N',
        "%M"@.len() == 2 && "%M"@[0] == '%' && "%M"@[1] == 'M',
{
    reveal_strlit("%ctaid.x");
    reveal_strlit("%ctaid.y");
    reveal_strlit("%baseRow");
    reveal_strlit("%baseCol");
    reveal_strlit("%tmp");
    reveal_strlit("%lin");
    reveal_strlit("%tn");
    reveal_strlit("%tm");
    reveal_strlit("%gsz");
    reveal_strlit("%grpr");
    reveal_strlit("%rem");
    reveal_strlit("%col0");
    reveal_strlit("%gw");
    reveal_strlit("%trow");
    reveal_strlit("%tcol");
    reveal_strlit("%N");
    reveal_strlit("%M");
}

/// A block owns the tile of its place in the grid: `bm` rows from row `bm y` and `bn` columns from
/// column `bn x`. So the tiles of a grid lie side by side.
pub proof fn law_a_block_owns_the_tile_of_its_place(
    m: Machine,
    bm: nat,
    bn: nat,
    band: Seq<char>,
)
    ensures
        ({
            let e = m.through(parts::origin(bm, bn, 0, band));
            &&& (e.held)("%baseRow"@) == (m.held)("%ctaid.y"@) * bm
            &&& (e.held)("%baseCol"@) == (m.held)("%ctaid.x"@) * bn
            &&& forall|r: Seq<char>|
                r != "%baseRow"@ && r != "%baseCol"@ && r != "%tmp"@ ==> #[trigger] (e.held)(r) == (
                m.held)(r)
            &&& e.stores == m.stores
        }),
{
    let args = seq![text::dec(bm), text::dec(bn)];
    machine::lemma_number(bm);
    machine::lemma_number(bn);
    addresses::lemma_parts_tile_origin(args);
    machine::lemma_kinds();
    lemma_registers();
    reveal_with_fuel(Machine::run, 5);
}

/// In bands of `g` tile columns, block `lin` of a grid over `rows x cols` tiles owns the tile that
/// comes at that place when the bands are gone through one by one, each row by row: with `band` the
/// number of its band, its column is in the band, no further than the last column.
#[verifier::rlimit(100)]
pub proof fn law_a_block_owns_the_tile_of_its_place_in_bands(
    m: Machine,
    bm: nat,
    bn: nat,
    g: nat,
    rows: nat,
    cols: nat,
)
    requires
        g > 0,
        is_pow2(bm as int),
        is_pow2(bn as int),
        rows > 0,
        0 <= (m.held)("%ctaid.x"@) < rows * cols,
        (m.held)("%M"@) == rows * bm,
        (m.held)("%N"@) == cols * bn,
    ensures
        ({
            let e = m.through(parts::origin(bm, bn, g, "%grpr"@));
            let lin = (m.held)("%ctaid.x"@);
            let band = lin / (rows * g) as int;
            let rest = lin % (rows * g) as int;
            let width = if cols - band * g < g {
                cols - band * g
            } else {
                g as int
            };
            &&& (e.held)("%baseRow"@) == rest / width * bm
            &&& (e.held)("%baseCol"@) == (rest % width + band * g) * bn
            &&& e.stores == m.stores
        }),
{
    let (x, y) = (text::twos(bn), text::twos(bm));
    let args = seq![
        text::dec(bm),
        text::dec(bn),
        text::dec(g),
        text::dec(x),
        text::dec(y),
        "%grpr"@,
    ];
    machine::lemma_number(bm);
    machine::lemma_number(bn);
    machine::lemma_number(g);
    machine::lemma_number(x);
    machine::lemma_number(y);
    lanes::lemma_twos(bm);
    lanes::lemma_twos(bn);
    lemma_registers();
    assert(machine::operand("%grpr"@)) by {
        reveal_strlit("%grpr");
    }
    assert(bm > 0 && bn > 0) by {
        reveal(is_pow2);
    }
    vstd::arithmetic::div_mod::lemma_div_multiples_vanish(rows as int, bm as int);
    vstd::arithmetic::div_mod::lemma_div_multiples_vanish(cols as int, bn as int);
    assert(bm * rows == rows * bm && bn * cols == cols * bn) by (nonlinear_arith);
    addresses::lemma_parts_raster_origin(args);
    machine::lemma_kinds();
    let t = parts::origin(bm, bn, g, "%grpr"@);
    let p = machine::program(t);
    let m1 = m.after(p[0]);
    let m2 = m1.after(p[1]);
    let m3 = m2.after(p[2]);
    let m4 = m3.after(p[3]);
    let m5 = m4.after(p[4]);
    let m6 = m5.after(p[5]);
    let m7 = m6.after(p[6]);
    let m8 = m7.after(p[7]);
    let m9 = m8.after(p[8]);
    let m10 = m9.after(p[9]);
    let m11 = m10.after(p[10]);
    let m12 = m11.after(p[11]);
    let m13 = m12.after(p[12]);
    let m14 = m13.after(p[13]);
    reveal_with_fuel(Machine::run, 2);
    assert(m.run(p, 1) == m1);
    assert(m.run(p, 2) == m2);
    assert(m.run(p, 3) == m3);
    assert(m.run(p, 4) == m4);
    assert(m.run(p, 5) == m5);
    assert(m.run(p, 6) == m6);
    assert(m.run(p, 7) == m7);
    assert(m.run(p, 8) == m8);
    assert(m.run(p, 9) == m9);
    assert(m.run(p, 10) == m10);
    assert(m.run(p, 11) == m11);
    assert(m.run(p, 12) == m12);
    assert(m.run(p, 13) == m13);
    assert(m.run(p, 14) == m14);
    assert((m3.held)("%tn"@) == cols && (m3.held)("%tm"@) == rows);
    assert((m4.held)("%gsz"@) == rows * g);
    let lin = (m.held)("%ctaid.x"@);
    assert((m6.held)("%grpr"@) == lin / (rows * g) as int);
    assert((m6.held)("%rem"@) == lin % (rows * g) as int);
    assert((m9.held)("%col0"@) == lin / (rows * g) as int * g);
}

} // verus!
