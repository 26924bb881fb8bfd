//! Where the lanes of a block stand, and that together they cover its tile of C.
use vstd::arithmetic::power2::*;
use vstd::bits::*;
use vstd::prelude::*;

use crate::ptx_wmma::addresses;
use crate::ptx_wmma::machine;
use crate::ptx_wmma::machine::Machine;
use crate::ptx_wmma::mma;
use crate::text;

verus! {

/// The shift of a power of two divides by it.
pub proof fn lemma_twos(n: nat)
    requires
        is_pow2(n as int),
    ensures
        pow2(text::twos(n)) == n,
    decreases n,
{
    reveal(is_pow2);
    if n == 1 {
        lemma2_to64();
    } else {
        lemma_twos(n / 2);
        lemma_pow2_unfold(text::twos(n));
    }
}

/// The mask of a power of two is its remainder.
pub proof fn lemma_mask(x: int, n: nat)
    requires
        0 <= x <= u32::MAX,
        is_pow2(n as int),
        n <= u32::MAX,
    ensures
        machine::result(machine::Kind::And, x, n - 1) == x % (n as int),
{
    assert(n > 0) by {
        reveal(is_pow2);
    }
    lemma_twos(n);
    let k = text::twos(n);
    if k >= 32 {
        lemma2_to64();
        if k > 32 {
            lemma_pow2_strictly_increases(32, k);
        }
    }
    lemma_u32_low_bits_mask_is_mod(x as u32, k);
    assert(low_bits_mask(k) == (n - 1) as nat);
}

/// How the registers are spelled.
proof fn lemma_registers()
    ensures
        "%tid.x"@.len() == 6 && "%tid.x"@[0] == '%' && "%tid.x"@[1] == 't' && "%tid.x"@[2] == 'i' && "%tid.x"@[3] == 'd' && "%tid.x"@[4] == '.' && "%tid.x"@[5] == 'x',
        "%tix"@.len() == 4 && "%tix"@[0] == '%' && "%tix"@[1] == 't' && "%tix"@[2] == 'i' && "%tix"@[3] == 'x',
        "%warpId"@.len() == 7 && "%warpId"@[0] == '%' && "%warpId"@[1] == 'w' && "%warpId"@[2] == 'a' && "%warpId"@[3] == 'r' && "%warpId"@[4] == 'p' && "%warpId"@[5] == 'I' && "%warpId"@[6] == 'd',
        "%lane"@.len() == 5 && "%lane"@[0] == '%' && "%lane"@[1] == 'l' && "%lane"@[2] == 'a' && "%lane"@[3] == 'n' && "%lane"@[4] == 'e',
        "%grp"@.len() == 4 && "%grp"@[0] == '%' && "%grp"@[1] == 'g' && "%grp"@[2] == 'r' && "%grp"@[3] == 'p',
        "%tg"@.len() == 3 && "%tg"@[0] == '%' && "%tg"@[1] == 't' && "%tg"@[2] == 'g',
        "%tg2"@.len() == 4 && "%tg2"@[0] == '%' && "%tg2"@[1] == 't' && "%tg2"@[2] == 'g' && "%tg2"@[3] == '2',
        "%warpRow"@.len() == 8 && "%warpRow"@[0] == '%' && "%warpRow"@[1] == 'w' && "%warpRow"@[2] == 'a' && "%warpRow"@[3] == 'r' && "%warpRow"@[4] == 'p' && "%warpRow"@[5] == 'R' && "%warpRow"@[6] == 'o' && "%warpRow"@[7] == 'w',
        "%warpCol"@.len() == 8 && "%warpCol"@[0] == '%' && "%warpCol"@[1] == 'w' && "%warpCol"@[2] == 'a' && "%warpCol"@[3] == 'r' && "%warpCol"@[4] == 'p' && "%warpCol"@[5] == 'C' && "%warpCol"@[6] == 'o' && "%warpCol"@[7] == 'l',
        "%warpMrow"@.len() == 9 && "%warpMrow"@[0] == '%' && "%warpMrow"@[1] == 'w' && "%warpMrow"@[2] == 'a' && "%warpMrow"@[3] == 'r' && "%warpMrow"@[4] == 'p' && "%warpMrow"@[5] == 'M' && "%warpMrow"@[6] == 'r' && "%warpMrow"@[7] == 'o' && "%warpMrow"@[8] == 'w',
        "%warpNcol"@.len() == 9 && "%warpNcol"@[0] == '%' && "%warpNcol"@[1] == 'w' && "%warpNcol"@[2] == 'a' && "%warpNcol"@[3] == 'r' && "%warpNcol"@[4] == 'p' && "%warpNcol"@[5] == 'N' && "%warpNcol"@[6] == 'c' && "%warpNcol"@[7] == 'o' && "%warpNcol"@[8] == 'l',
        "%laneoff"@.len() == 8 && "%laneoff"@[0] == '%' && "%laneoff"@[1] == 'l' && "%laneoff"@[2] == 'a' && "%laneoff"@[3] == 'n' && "%laneoff"@[4] == 'e' && "%laneoff"@[5] == 'o' && "%laneoff"@[6] == 'f' && "%laneoff"@[7] == 'f',
        "%baseRow"@.len() == 8 && "%baseRow"@[0] == '%' && "%baseRow"@[1] == 'b' && "%baseRow"@[2] == 'a' && "%baseRow"@[3] == 's' && "%baseRow"@[4] == 'e' && "%baseRow"@[5] == 'R' && "%baseRow"@[6] == 'o' && "%baseRow"@[7] == 'w',
        "%baseCol"@.len() == 8 && "%baseCol"@[0] == '%' && "%baseCol"@[1] == 'b' && "%baseCol"@[2] == 'a' && "%baseCol"@[3] == 's' && "%baseCol"@[4] == 'e' && "%baseCol"@[5] == 'C' && "%baseCol"@[6] == 'o' && "%baseCol"@[7] == 'l',
        "%N"@.len() == 2 && "%N"@[0] == '%' && "%N"@[1] == 'N',
        "%C"@.len() == 2 && "%C"@[0] == '%' && "%C"@[1] == 'C',
        "%Bias"@.len() == 5 && "%Bias"@[0] == '%' && "%Bias"@[1] == 'B' && "%Bias"@[2] == 'i' && "%Bias"@[3] == 'a' && "%Bias"@[4] == 's',
        "%Resid"@.len() == 6 && "%Resid"@[0] == '%' && "%Resid"@[1] == 'R' && "%Resid"@[2] == 'e' && "%Resid"@[3] == 's' && "%Resid"@[4] == 'i' && "%Resid"@[5] == 'd',
        "%tmp"@.len() == 4 && "%tmp"@[0] == '%' && "%tmp"@[1] == 't' && "%tmp"@[2] == 'm' && "%tmp"@[3] == 'p',
        "%tmp2"@.len() == 5 && "%tmp2"@[0] == '%' && "%tmp2"@[1] == 't' && "%tmp2"@[2] == 'm' && "%tmp2"@[3] == 'p' && "%tmp2"@[4] == '2',
        "%arowb"@.len() == 6 && "%arowb"@[0] == '%' && "%arowb"@[1] == 'a' && "%arowb"@[2] == 'r' && "%arowb"@[3] == 'o' && "%arowb"@[4] == 'w' && "%arowb"@[5] == 'b',
        "%phaseA"@.len() == 7 && "%phaseA"@[0] == '%' && "%phaseA"@[1] == 'p' && "%phaseA"@[2] == 'h' && "%phaseA"@[3] == 'a' && "%phaseA"@[4] == 's' && "%phaseA"@[5] == 'e' && "%phaseA"@[6] == 'A',
        "%la16"@.len() == 5 && "%la16"@[0] == '%' && "%la16"@[1] == 'l' && "%la16"@[2] == 'a' && "%la16"@[3] == '1' && "%la16"@[4] == '6',
        "%browb"@.len() == 6 && "%browb"@[0] == '%' && "%browb"@[1] == 'b' && "%browb"@[2] == 'r' && "%browb"@[3] == 'o' && "%browb"@[4] == 'w' && "%browb"@[5] == 'b',
        "%phaseB"@.len() == 7 && "%phaseB"@[0] == '%' && "%phaseB"@[1] == 'p' && "%phaseB"@[2] == 'h' && "%phaseB"@[3] == 'a' && "%phaseB"@[4] == 's' && "%phaseB"@[5] == 'e' && "%phaseB"@[6] == 'B',
        "%lb8"@.len() == 4 && "%lb8"@[0] == '%' && "%lb8"@[1] == 'l' && "%lb8"@[2] == 'b' && "%lb8"@[3] == '8',
{
    reveal_strlit("%tid.x");
    reveal_strlit("%tix");
    reveal_strlit("%warpId");
    reveal_strlit("%lane");
    reveal_strlit("%grp");
    reveal_strlit("%tg");
    reveal_strlit("%tg2");
    reveal_strlit("%warpRow");
    reveal_strlit("%warpCol");
    reveal_strlit("%warpMrow");
    reveal_strlit("%warpNcol");
    reveal_strlit("%laneoff");
    reveal_strlit("%baseRow");
    reveal_strlit("%baseCol");
    reveal_strlit("%N");
    reveal_strlit("%C");
    reveal_strlit("%Bias");
    reveal_strlit("%Resid");
    reveal_strlit("%tmp");
    reveal_strlit("%tmp2");
    reveal_strlit("%arowb");
    reveal_strlit("%phaseA");
    reveal_strlit("%la16");
    reveal_strlit("%browb");
    reveal_strlit("%phaseB");
    reveal_strlit("%lb8");
}

/// Whether a register says where a block stands, or one of its operands.
pub open spec fn given(r: Seq<char>) -> bool {
    r == "%baseRow"@ || r == "%baseCol"@ || r == "%N"@ || r == "%C"@ || r == "%Bias"@ || r
        == "%Resid"@
}

/// Shifts by the numbers that stand in the text.
proof fn lemma_shifts()
    ensures
        pow2(5) == 32,
        pow2(2) == 4,
        pow2(1) == 2,
        pow2(3) == 8,
        pow2(4) == 16,
{
    lemma2_to64();
}

/// The place of a lane that the text computes, without the part for swizzled rows.
#[verifier::rlimit(80)]
proof fn lemma_place(m: Machine, s: mma::MmaShape, tid: nat)
    requires
        s.warps_m > 0,
        is_pow2(s.warps_n as int),
        tid < s.threads() <= u32::MAX,
        (m.held)("%tid.x"@) == tid,
    ensures
        ({
            let t = text::fill(
                mma::LANES@,
                seq![
                    text::dec(text::twos(s.warps_n as nat)),
                    text::dec((s.warps_n - 1) as nat),
                    text::dec(s.bm as nat / s.warps_m as nat),
                    text::dec(s.bn as nat / s.warps_n as nat),
                    text::dec(s.ldp()),
                ],
            );
            let e = m.through(t);
            let (warp, lane) = (tid / 32, tid % 32);
            &&& t.len() > 0 && t.last() == '\n'
            &&& (e.held)("%lane"@) == lane
            &&& (e.held)("%grp"@) == lane / 4
            &&& (e.held)("%tg2"@) == 2 * (lane % 4)
            &&& (e.held)("%warpMrow"@) == warp / s.warps_n as nat * (s.bm as nat
                / s.warps_m as nat)
            &&& (e.held)("%warpNcol"@) == warp % s.warps_n as nat * (s.bn as nat
                / s.warps_n as nat)
            &&& (e.held)("%laneoff"@) == 2 * (lane / 4 * s.ldp() + 2 * (lane % 4))
            &&& forall|r: Seq<char>| given(r) ==> #[trigger] (e.held)(r) == (m.held)(r)
            &&& e.float == m.float
            &&& e.stores == m.stores
        }),
{
    let (a0, a1, a2, a3, a4) = (
        text::twos(s.warps_n as nat),
        (s.warps_n - 1) as nat,
        s.bm as nat / s.warps_m as nat,
        s.bn as nat / s.warps_n as nat,
        s.ldp(),
    );
    let args = seq![
        text::dec(a0),
        text::dec(a1),
        text::dec(a2),
        text::dec(a3),
        text::dec(a4),
    ];
    machine::lemma_number(a0);
    machine::lemma_number(a1);
    machine::lemma_number(a2);
    machine::lemma_number(a3);
    machine::lemma_number(a4);
    addresses::lemma_mma_lanes(args);
    machine::lemma_kinds();
    machine::lemma_numbers();
    lemma_registers();
    lemma_shifts();
    let t = text::fill(mma::LANES@, args);
    let p = machine::program(t);
    machine::lemma_some_text(t, p);
    let (warp, lane) = (tid / 32, tid % 32);
    let wn = s.warps_n as nat;
    assert(is_pow2(32) && is_pow2(4)) by {
        reveal_with_fuel(is_pow2, 7);
    }
    lemma_mask(tid as int, 32);
    lemma_mask(lane as int, 4);
    assert(warp <= u32::MAX);
    assert(wn <= u32::MAX) by {
        let w = s.warps_m as nat;
        assert(w * wn * 32 >= wn) by (nonlinear_arith)
            requires
                w >= 1,
        ;
    }
    lemma_mask(warp as int, wn);
    lemma_twos(wn);
    let m1 = m.after(p[0]);
    let m2 = m1.after(p[1]);
    let m3 = m2.after(p[2]);
    let m4 = m3.after(p[3]);
    let m5 = m4.after(p[4]);
    let m6 = m5.after(p[5]);
    let m7 = m6.after(p[6]);
    let m8 = m7.after(p[7]);
    let m9 = m8.after(p[8]);
    let m10 = m9.after(p[9]);
    let m11 = m10.after(p[10]);
    let m12 = m11.after(p[11]);
    let m13 = m12.after(p[12]);
    reveal_with_fuel(Machine::run, 2);
    assert(m.run(p, 1) == m1);
    assert(m.run(p, 2) == m2);
    assert(m.run(p, 3) == m3);
    assert(m.run(p, 4) == m4);
    assert(m.run(p, 5) == m5);
    assert(m.run(p, 6) == m6);
    assert(m.run(p, 7) == m7);
    assert(m.run(p, 8) == m8);
    assert(m.run(p, 9) == m9);
    assert(m.run(p, 10) == m10);
    assert(m.run(p, 11) == m11);
    assert(m.run(p, 12) == m12);
    assert(m.run(p, 13) == m13);
    assert((m3.held)("%warpId"@) == warp && (m3.held)("%lane"@) == lane);
    assert((m6.held)("%grp"@) == lane / 4 && (m6.held)("%tg2"@) == 2 * (lane % 4));
    assert((m8.held)("%warpRow"@) == warp / wn && (m8.held)("%warpCol"@) == warp % wn);
}

/// The part for swizzled rows leaves the place of a lane as it is.
#[verifier::rlimit(60)]
proof fn lemma_swizzled(m: Machine, x: nat, y: nat)
    ensures
        ({
            let t = text::fill(mma::SWIZZLE_LANES@, seq![text::dec(x), text::dec(y)]);
            let e = m.through(t);
            &&& t.len() > 0 && t.last() == '\n'
            &&& (e.held)("%grp"@) == (m.held)("%grp"@)
            &&& (e.held)("%tg2"@) == (m.held)("%tg2"@)
            &&& (e.held)("%lane"@) == (m.held)("%lane"@)
            &&& (e.held)("%warpMrow"@) == (m.held)("%warpMrow"@)
            &&& (e.held)("%warpNcol"@) == (m.held)("%warpNcol"@)
            &&& (e.held)("%laneoff"@) == (m.held)("%laneoff"@)
            &&& forall|r: Seq<char>| given(r) ==> #[trigger] (e.held)(r) == (m.held)(r)
            &&& e.float == m.float
            &&& e.stores == m.stores
        }),
{
    let args = seq![text::dec(x), text::dec(y)];
    machine::lemma_number(x);
    machine::lemma_number(y);
    addresses::lemma_mma_swizzle_lanes(args);
    machine::lemma_kinds();
    lemma_registers();
    let t = text::fill(mma::SWIZZLE_LANES@, args);
    let p = machine::program(t);
    machine::lemma_some_text(t, p);
    reveal_with_fuel(Machine::run, 14);
}

/// Where the lanes of a block stand. Lane `tid % 32` of warp `tid / 32` stands at the row
/// `lane / 4` and the column `2 (lane % 4)` of its warp's part of the tile; the warps divide the
/// tile among them, those of one row of the grid side by side.
pub proof fn law_where_a_lane_stands(m: Machine, s: mma::MmaShape, tid: nat)
    requires
        s.warps_m > 0,
        is_pow2(s.warps_n as int),
        tid < s.threads() <= u32::MAX,
        (m.held)("%tid.x"@) == tid,
    ensures
        ({
            let e = m.through(s.lanes());
            let (warp, lane) = (tid / 32, tid % 32);
            &&& (e.held)("%warpMrow"@) + (e.held)("%grp"@) == warp / s.warps_n as nat * (
            s.bm as nat / s.warps_m as nat) + lane / 4
            &&& (e.held)("%warpNcol"@) + (e.held)("%tg2"@) == warp % s.warps_n as nat * (
            s.bn as nat / s.warps_n as nat) + 2 * (lane % 4)
            &&& forall|r: Seq<char>| given(r) ==> #[trigger] (e.held)(r) == (m.held)(r)
            &&& e.float == m.float
            &&& e.stores == m.stores
        }),
{
    let t = text::fill(
        mma::LANES@,
        seq![
            text::dec(text::twos(s.warps_n as nat)),
            text::dec((s.warps_n - 1) as nat),
            text::dec(s.bm as nat / s.warps_m as nat),
            text::dec(s.bn as nat / s.warps_n as nat),
            text::dec(s.ldp()),
        ],
    );
    lemma_place(m, s, tid);
    if s.swz {
        let u = text::fill(
            mma::SWIZZLE_LANES@,
            seq![text::dec(s.bk as nat * 2), text::dec((s.bk / 8 - 1) as nat)],
        );
        m.lemma_through_add(t, u);
        lemma_swizzled(m.through(t), s.bk as nat * 2, (s.bk / 8 - 1) as nat);
    } else {
        reveal_strlit("");
        assert(t + ""@ =~= t);
    }
}

/// The row of a block's tile at which result `k` of sub-tile row `i` of a thread goes, as
/// [`law_where_a_lane_stands`] and the results of a sub-tile put it.
pub open spec fn row_of(s: mma::MmaShape, tid: nat, i: nat, k: nat) -> nat {
    tid / 32 / s.warps_n as nat * (s.bm as nat / s.warps_m as nat) + tid % 32 / 4 + 16 * i + 8 * (k
        / 2)
}

/// The column: see [`row_of`].
pub open spec fn col_of(s: mma::MmaShape, tid: nat, j: nat, k: nat) -> nat {
    tid / 32 % s.warps_n as nat * (s.bn as nat / s.warps_n as nat) + 2 * (tid % 32 % 4) + 8 * j + k
        % 2
}

/// Digits of a number in mixed radix.
proof fn lemma_digits(w: nat, size: nat, x: nat)
    requires
        x < size,
    ensures
        (w * size + x) / size == w,
        (w * size + x) % size == x,
{
    vstd::arithmetic::div_mod::lemma_fundamental_div_mod_converse(
        (w * size + x) as int,
        size as int,
        w as int,
        x as int,
    );
}

/// The thread, the sub-tile and the number of the result that owns an element of the tile.
pub open spec fn owner(s: mma::MmaShape, r: nat, c: nat) -> (nat, nat, nat, nat) {
    let (h, w) = (s.bm as nat / s.warps_m as nat, s.bn as nat / s.warps_n as nat);
    let warp = r / h * s.warps_n as nat + c / w;
    let lane = r % h % 8 * 4 + c % w % 8 / 2;
    (warp * 32 + lane, r % h / 16, c % w / 8, r % h % 16 / 8 * 2 + c % w % 2)
}

/// Each element of a block's tile is the result of exactly one accumulator: for every row and
/// column of the tile there is one thread of the block, one of its sub-tiles and one of the
/// four results in it that goes there, and no result goes outside the tile.
pub proof fn law_each_element_has_one_owner(
    s: mma::MmaShape,
    r: nat,
    c: nat,
    tid: nat,
    i: nat,
    j: nat,
    k: nat,
)
    requires
        s.legal(),
        s.bm > 0,
        s.bn > 0,
        r < s.bm,
        c < s.bn,
        tid < s.threads(),
        i < s.tm(),
        j < s.tn(),
        k < 4,
    ensures
        ({
            let (t, a, b, n) = owner(s, r, c);
            &&& t < s.threads()
            &&& a < s.tm()
            &&& b < s.tn()
            &&& n < 4
            &&& row_of(s, t, a, n) == r
            &&& col_of(s, t, b, n) == c
        }),
        row_of(s, tid, i, k) == r && col_of(s, tid, j, k) == c ==> (tid, i, j, k) == owner(s, r, c),
        row_of(s, tid, i, k) < s.bm,
        col_of(s, tid, j, k) < s.bn,
{
    let (bm, bn, wm, wn) = (s.bm as nat, s.bn as nat, s.warps_m as nat, s.warps_n as nat);
    let (tm, tn) = (s.tm(), s.tn());
    let (h, w) = (bm / wm, bn / wn);
    assert(bm == 16 * tm * wm && h == 16 * tm) by {
        lemma_part(bm, 16, wm);
    }
    assert(bn == 8 * tn * wn && w == 8 * tn) by {
        lemma_part(bn, 8, wn);
    }
    // The element's owner.
    let (wr, wc) = (r / h, c / w);
    let (rr, cc) = (r % h, c % w);
    assert(h > 0 && w > 0);
    vstd::arithmetic::div_mod::lemma_fundamental_div_mod(r as int, h as int);
    vstd::arithmetic::div_mod::lemma_fundamental_div_mod(c as int, w as int);
    assert(h * wr == wr * h && w * wc == wc * w) by (nonlinear_arith);
    assert(wr < wm) by (nonlinear_arith)
        requires
            wr * h <= r,
            r < bm,
            bm == h * wm,
    ;
    assert(wc < wn) by (nonlinear_arith)
        requires
            wc * w <= c,
            c < bn,
            bn == w * wn,
    ;
    let (t, a, b, n) = owner(s, r, c);
    let warp = wr * wn + wc;
    let lane = rr % 8 * 4 + cc % 8 / 2;
    assert(lane < 32);
    assert(t / 32 == warp && t % 32 == lane);
    lemma_digits(wr, wn, wc);
    assert(t < s.threads()) by (nonlinear_arith)
        requires
            t == (wr * wn + wc) * 32 + lane,
            lane < 32,
            wr < wm,
            wc < wn,
            s.threads() == wm * wn * 32,
    ;
    assert(lane / 4 == rr % 8 && lane % 4 == cc % 8 / 2);
    assert(rr / 16 < tm && cc / 8 < tn);
    assert(n / 2 == rr % 16 / 8 && n % 2 == cc % 2);
    assert(rr == rr % 8 + 16 * (rr / 16) + 8 * (rr % 16 / 8));
    assert(cc == 2 * (cc % 8 / 2) + 8 * (cc / 8) + cc % 2);
    // Where a result goes.
    let (v, l) = (tid / 32, tid % 32);
    let (vr, vc) = (v / wn, v % wn);
    vstd::arithmetic::div_mod::lemma_fundamental_div_mod(v as int, wn as int);
    assert(wn * vr == vr * wn) by (nonlinear_arith);
    assert(v < wm * wn);
    assert(vr < wm) by (nonlinear_arith)
        requires
            v == vr * wn + vc,
            v < wm * wn,
            wn > 0,
    ;
    let x = l / 4 + 16 * i + 8 * (k / 2);
    let y = 2 * (l % 4) + 8 * j + k % 2;
    assert(x < h && y < w);
    lemma_digits(vr, h, x);
    lemma_digits(vc, w, y);
    assert(row_of(s, tid, i, k) == vr * h + x);
    assert(col_of(s, tid, j, k) == vc * w + y);
    assert(vr * h + x < bm) by (nonlinear_arith)
        requires
            vr < wm,
            x < h,
            bm == h * wm,
    ;
    assert(vc * w + y < bn) by (nonlinear_arith)
        requires
            vc < wn,
            y < w,
            bn == w * wn,
    ;
    if row_of(s, tid, i, k) == r && col_of(s, tid, j, k) == c {
        assert(wr == vr && rr == x && wc == vc && cc == y);
        assert(x % 8 == l / 4 && x / 16 == i && x % 16 / 8 == k / 2);
        assert(y % 8 / 2 == l % 4 && y / 8 == j && y % 2 == k % 2);
        assert(warp == v);
        assert(lane == l);
        assert(tid == t);
    }
}

/// A warp's part of a tile is whole sub-tiles.
proof fn lemma_part(b: nat, unit: nat, warps: nat)
    requires
        warps > 0,
        unit > 0,
        b % (unit * warps) == 0,
    ensures
        b == unit * (b / (unit * warps)) * warps,
        b / warps == unit * (b / (unit * warps)),
{
    let q = b / (unit * warps);
    let u = unit * warps;
    assert(u > 0) by (nonlinear_arith)
        requires
            u == unit * warps,
            unit > 0,
            warps > 0,
    ;
    vstd::arithmetic::div_mod::lemma_fundamental_div_mod(b as int, u as int);
    assert(u * q == unit * q * warps) by (nonlinear_arith)
        requires
            u == unit * warps,
    ;
    lemma_digits(unit * q, warps, 0);
}

} // verus!
