//! Where the tiles of a WMMA kernel are stored.
use vstd::prelude::*;

use crate::ptx_wmma::act;
use crate::ptx_wmma::machine;
use crate::ptx_wmma::machine::{operand, Event, Given, Kind, Machine};
use crate::ptx_wmma::plain;
use crate::ptx_wmma::readings;
use crate::ptx_wmma::smem;
use crate::ptx_wmma::smem_db;
use crate::ptx_wmma::wmma_readings;
use crate::text;

verus! {

/// How the registers are spelled.
proof fn lemma_registers()
    ensures
        "%tmp"@.len() == 4 && "%tmp"@[0] == '%' && "%tmp"@[1] == 't' && "%tmp"@[2] == 'm' && "%tmp"@[3] == 'p',
        "%tmp2"@.len() == 5 && "%tmp2"@[0] == '%' && "%tmp2"@[1] == 't' && "%tmp2"@[2] == 'm' && "%tmp2"@[3] == 'p' && "%tmp2"@[4] == '2',
        "%off"@.len() == 4 && "%off"@[0] == '%' && "%off"@[1] == 'o' && "%off"@[2] == 'f' && "%off"@[3] == 'f',
        "%cptr"@.len() == 5 && "%cptr"@[0] == '%' && "%cptr"@[1] == 'c' && "%cptr"@[2] == 'p' && "%cptr"@[3] == 't' && "%cptr"@[4] == 'r',
        "%warpRow"@.len() == 8 && "%warpRow"@[0] == '%' && "%warpRow"@[1] == 'w' && "%warpRow"@[2] == 'a' && "%warpRow"@[3] == 'r' && "%warpRow"@[4] == 'p' && "%warpRow"@[5] == 'R' && "%warpRow"@[6] == 'o' && "%warpRow"@[7] == 'w',
        "%warpCol"@.len() == 8 && "%warpCol"@[0] == '%' && "%warpCol"@[1] == 'w' && "%warpCol"@[2] == 'a' && "%warpCol"@[3] == 'r' && "%warpCol"@[4] == 'p' && "%warpCol"@[5] == 'C' && "%warpCol"@[6] == 'o' && "%warpCol"@[7] == 'l',
        "%baseRow"@.len() == 8 && "%baseRow"@[0] == '%' && "%baseRow"@[1] == 'b' && "%baseRow"@[2] == 'a' && "%baseRow"@[3] == 's' && "%baseRow"@[4] == 'e' && "%baseRow"@[5] == 'R' && "%baseRow"@[6] == 'o' && "%baseRow"@[7] == 'w',
        "%baseCol"@.len() == 8 && "%baseCol"@[0] == '%' && "%baseCol"@[1] == 'b' && "%baseCol"@[2] == 'a' && "%baseCol"@[3] == 's' && "%baseCol"@[4] == 'e' && "%baseCol"@[5] == 'C' && "%baseCol"@[6] == 'o' && "%baseCol"@[7] == 'l',
        "%N"@.len() == 2 && "%N"@[0] == '%' && "%N"@[1] == 'N',
        "%C"@.len() == 2 && "%C"@[0] == '%' && "%C"@[1] == 'C',
{
    reveal_strlit("%tmp");
    reveal_strlit("%tmp2");
    reveal_strlit("%off");
    reveal_strlit("%cptr");
    reveal_strlit("%warpRow");
    reveal_strlit("%warpCol");
    reveal_strlit("%baseRow");
    reveal_strlit("%baseCol");
    reveal_strlit("%N");
    reveal_strlit("%C");
}

/// The store of a tile is recorded.
proof fn lemma_stores()
    ensures
        machine::kind("wmma.store.d.sync.aligned.m16n16k16.row.f32"@) == Kind::Other,
{
    machine::lemma_integer_operations();
    machine::lemma_float_operations();
    reveal_strlit("wmma.store.d.sync.aligned.m16n16k16.row.f32");
    assert("wmma.store.d.sync.aligned.m16n16k16.row.f32"@.len() == 43);
}

/// Whether the registers that say where a tile goes are the same.
pub open spec fn kept(m: Machine, e: Machine) -> bool {
    &&& (e.held)("%warpRow"@) == (m.held)("%warpRow"@)
    &&& (e.held)("%warpCol"@) == (m.held)("%warpCol"@)
    &&& (e.held)("%baseRow"@) == (m.held)("%baseRow"@)
    &&& (e.held)("%baseCol"@) == (m.held)("%baseCol"@)
    &&& (e.held)("%N"@) == (m.held)("%N"@)
    &&& (e.held)("%C"@) == (m.held)("%C"@)
}

/// The address of the element of C in a row and a column.
pub open spec fn element(m: Machine, row: int, col: int) -> int {
    (m.held)("%C"@) + 4 * (row * (m.held)("%N"@) + col)
}

/// Whether an event is the store of the accumulators of tile `(i, j)` at an address, in rows as long
/// as those of C.
pub open spec fn stored_tile(ev: Event, i: nat, j: nat, at: int) -> bool {
    &&& ev.op == "wmma.store.d.sync.aligned.m16n16k16.row.f32"@
    &&& ev.given.len() == 10
    &&& ev.given[0] == Given::Place(at)
    &&& ev.given[1] == Given::Name(" {%c"@ + text::dec(i) + "_"@ + text::dec(j) + "_0"@)
    &&& ev.given[8] == Given::Name("%c"@ + text::dec(i) + "_"@ + text::dec(j) + "_7}"@)
    &&& ev.given[9] == Given::Name(" %N"@)
}

/// One tile of [`smem::STORE`].
#[verifier::rlimit(60)]
proof fn lemma_smem_tile(m: Machine, i: nat, j: nat, x: nat, y: nat, rows: nat, cols: nat)
    ensures
        ({
            let t = text::fill(
                smem::STORE@,
                seq![text::dec(i), text::dec(j), text::dec(x), text::dec(y)] + seq![text::dec(rows), text::dec(cols)],
            );
            let e = m.through(t);
            &&& t.len() > 0 && t.last() == '\n'
            &&& kept(m, e)
            &&& e.trace.len() == m.trace.len() + 1
            &&& e.trace.take(m.trace.len() as int) == m.trace
            &&& stored_tile(e.trace[m.trace.len() as int], i, j, element(
                m,
                (m.held)("%warpRow"@) * rows + x + (m.held)("%baseRow"@),
                (m.held)("%warpCol"@) * cols + y + (m.held)("%baseCol"@),
            ))
        }),
{
    let args = seq![text::dec(i), text::dec(j), text::dec(x), text::dec(y)] + seq![text::dec(rows), text::dec(cols)];
    machine::lemma_number(i);
    machine::lemma_number(j);
    machine::lemma_number(x);
    machine::lemma_number(y);
    machine::lemma_number(rows);
    machine::lemma_number(cols);
    wmma_readings::lemma_smem_store(args);
    machine::lemma_kinds();
    machine::lemma_numbers();
    lemma_stores();
    lemma_registers();
    reveal_strlit("[%cptr]");
    reveal_strlit(" {%c");
    reveal_strlit("%c");
    reveal_strlit(" %N");
    let t = text::fill(smem::STORE@, args);
    let p = machine::program(t);
    machine::lemma_some_text(t, p);
    reveal_with_fuel(Machine::run, 2);
    let m1 = m.after(p[0]);
    let m2 = m1.after(p[1]);
    let m3 = m2.after(p[2]);
    let m4 = m3.after(p[3]);
    let m5 = m4.after(p[4]);
    let m6 = m5.after(p[5]);
    let m7 = m6.after(p[6]);
    let m8 = m7.after(p[7]);
    let m9 = m8.after(p[8]);
    let m10 = m9.after(p[9]);
    let m11 = m10.after(p[10]);
    assert(m.run(p, 1) == m1);
    assert(m.run(p, 2) == m2);
    assert(m.run(p, 3) == m3);
    assert(m.run(p, 4) == m4);
    assert(m.run(p, 5) == m5);
    assert(m.run(p, 6) == m6);
    assert(m.run(p, 7) == m7);
    assert(m.run(p, 8) == m8);
    assert(m.run(p, 9) == m9);
    assert(m.run(p, 10) == m10);
    assert(m.run(p, 11) == m11);
    assert("[%cptr]"@ =~= seq!['['] + "%cptr"@ + seq![']']);
    machine::lemma_address(m10, "[%cptr]"@, "%cptr"@);
    assert(m11.trace.take(m.trace.len() as int) =~= m.trace);
}

/// One tile of [`plain::STORE`].
#[verifier::rlimit(60)]
proof fn lemma_plain_tile(m: Machine, i: nat, j: nat, x: nat, y: nat)
    ensures
        ({
            let t = text::fill(
                plain::STORE@,
                seq![text::dec(i), text::dec(j), text::dec(x), text::dec(y)] + Seq::<Seq<char>>::empty(),
            );
            let e = m.through(t);
            &&& t.len() > 0 && t.last() == '\n'
            &&& kept(m, e)
            &&& e.trace.len() == m.trace.len() + 1
            &&& e.trace.take(m.trace.len() as int) == m.trace
            &&& stored_tile(e.trace[m.trace.len() as int], i, j, element(m, (m.held)("%baseRow"@) + x, (m.held)("%baseCol"@) + y))
        }),
{
    let args = seq![text::dec(i), text::dec(j), text::dec(x), text::dec(y)] + Seq::<Seq<char>>::empty();
    machine::lemma_number(i);
    machine::lemma_number(j);
    machine::lemma_number(x);
    machine::lemma_number(y);
    wmma_readings::lemma_plain_store(args);
    machine::lemma_kinds();
    machine::lemma_numbers();
    lemma_stores();
    lemma_registers();
    reveal_strlit("[%cptr]");
    reveal_strlit(" {%c");
    reveal_strlit("%c");
    reveal_strlit(" %N");
    let t = text::fill(plain::STORE@, args);
    let p = machine::program(t);
    machine::lemma_some_text(t, p);
    reveal_with_fuel(Machine::run, 2);
    let m1 = m.after(p[0]);
    let m2 = m1.after(p[1]);
    let m3 = m2.after(p[2]);
    let m4 = m3.after(p[3]);
    let m5 = m4.after(p[4]);
    let m6 = m5.after(p[5]);
    let m7 = m6.after(p[6]);
    assert(m.run(p, 1) == m1);
    assert(m.run(p, 2) == m2);
    assert(m.run(p, 3) == m3);
    assert(m.run(p, 4) == m4);
    assert(m.run(p, 5) == m5);
    assert(m.run(p, 6) == m6);
    assert(m.run(p, 7) == m7);
    assert("[%cptr]"@ =~= seq!['['] + "%cptr"@ + seq![']']);
    machine::lemma_address(m6, "[%cptr]"@, "%cptr"@);
    assert(m7.trace.take(m.trace.len() as int) =~= m.trace);
}

/// The tiles of one row: see [`law_staged_tiles_go_to_their_places`].
proof fn lemma_row_staged_tiles_go_to_their_places(m: Machine, i: nat, n: nat, si: nat, sj: nat, rows: nat, cols: nat)
    ensures
        ({
            let t = text::each2_row(smem::STORE@, i, n, si, sj, seq![text::dec(rows), text::dec(cols)]);
            let e = m.through(t);
            let at = m.trace.len() as int;
            &&& t.len() == 0 || t.last() == '\n'
            &&& kept(m, e)
            &&& e.trace.len() == at + n
            &&& e.trace.take(at) == m.trace
            &&& forall|j: nat|
                j < n ==> stored_tile(#[trigger] e.trace[at + j], i, j, element(
                m,
                (m.held)("%warpRow"@) * rows + i * si + (m.held)("%baseRow"@),
                (m.held)("%warpCol"@) * cols + j * sj + (m.held)("%baseCol"@),
            ))
        }),
    decreases n,
{
    reveal(text::each2_row);
    machine::lemma_reads_nothing();
    let at = m.trace.len() as int;
    if n == 0 {
        assert(text::each2_row(smem::STORE@, i, n, si, sj, seq![text::dec(rows), text::dec(cols)]) =~= Seq::<char>::empty());
        assert(m.trace.take(at) =~= m.trace);
    } else {
        let last = (n - 1) as nat;
        lemma_row_staged_tiles_go_to_their_places(m, i, last, si, sj, rows, cols);
        let before = text::each2_row(smem::STORE@, i, last, si, sj, seq![text::dec(rows), text::dec(cols)]);
        let now = text::fill(
            smem::STORE@,
            seq![text::dec(i), text::dec(last), text::dec(i * si), text::dec(last * sj)] + seq![text::dec(rows), text::dec(cols)],
        );
        let mid = m.through(before);
        m.lemma_through_add(before, now);
        lemma_smem_tile(mid, i, last, i * si, last * sj, rows, cols);
        let e = mid.through(now);
        assert((before + now).last() == now.last());
        assert(e.trace.take(at) =~= mid.trace.take(at));
        assert forall|j: nat| j < n implies stored_tile(#[trigger] e.trace[at + j], i, j, element(
                m,
                (m.held)("%warpRow"@) * rows + i * si + (m.held)("%baseRow"@),
                (m.held)("%warpCol"@) * cols + j * sj + (m.held)("%baseCol"@),
            )) by {
            if j < last {
                assert(e.trace[at + j] == mid.trace[at + j]);
            }
        }
    }
}

/// A warp stores each of its tiles once, tile `(i, j)` of the accumulators of that name at the rows and
/// columns that many steps from the warp's part of the block's tile; the warps are `rows` rows and
/// `cols` columns apart.
pub proof fn law_staged_tiles_go_to_their_places(m: Machine, tm: nat, tn: nat, si: nat, sj: nat, rows: nat, cols: nat)
    ensures
        ({
            let t = text::each2(smem::STORE@, tm, tn, si, sj, seq![text::dec(rows), text::dec(cols)]);
            let e = m.through(t);
            let at = m.trace.len() as int;
            &&& t.len() == 0 || t.last() == '\n'
            &&& kept(m, e)
            &&& e.trace.len() == at + tm * tn
            &&& e.trace.take(at) == m.trace
            &&& forall|i: nat, j: nat|
                i < tm && j < tn ==> stored_tile(#[trigger] e.trace[at + (i * tn + j)], i, j, element(
                m,
                (m.held)("%warpRow"@) * rows + i * si + (m.held)("%baseRow"@),
                (m.held)("%warpCol"@) * cols + j * sj + (m.held)("%baseCol"@),
            ))
        }),
    decreases tm,
{
    reveal(text::each2);
    machine::lemma_reads_nothing();
    let at = m.trace.len() as int;
    if tm == 0 {
        assert(text::each2(smem::STORE@, tm, tn, si, sj, seq![text::dec(rows), text::dec(cols)]) =~= Seq::<char>::empty());
        assert(m.trace.take(at) =~= m.trace);
        assert(0 * tn == 0);
    } else {
        let last = (tm - 1) as nat;
        law_staged_tiles_go_to_their_places(m, last, tn, si, sj, rows, cols);
        let before = text::each2(smem::STORE@, last, tn, si, sj, seq![text::dec(rows), text::dec(cols)]);
        let row = text::each2_row(smem::STORE@, last, tn, si, sj, seq![text::dec(rows), text::dec(cols)]);
        let mid = m.through(before);
        m.lemma_through_add(before, row);
        lemma_row_staged_tiles_go_to_their_places(mid, last, tn, si, sj, rows, cols);
        let e = mid.through(row);
        if row.len() == 0 {
            assert(before + row =~= before);
        } else {
            assert((before + row).last() == row.last());
        }
        assert(tm * tn == last * tn + tn) by (nonlinear_arith)
            requires
                tm == last + 1,
        ;
        let to = mid.trace.len() as int;
        assert(e.trace.take(at) =~= e.trace.take(to).take(at));
        assert forall|i: nat, j: nat| i < tm && j < tn implies stored_tile(
            #[trigger] e.trace[at + (i * tn + j)],
            i,
            j,
            element(
                m,
                (m.held)("%warpRow"@) * rows + i * si + (m.held)("%baseRow"@),
                (m.held)("%warpCol"@) * cols + j * sj + (m.held)("%baseCol"@),
            ),
        ) by {
            let n = at + (i * tn + j);
            assert(i * tn >= 0) by (nonlinear_arith);
            if i < last {
                assert(i * tn + tn <= last * tn) by (nonlinear_arith)
                    requires
                        i < last,
                ;
                assert(e.trace.take(to)[n] == e.trace[n]);
                assert(stored_tile(mid.trace[at + (i * tn + j)], i, j, element(
                m,
                (m.held)("%warpRow"@) * rows + i * si + (m.held)("%baseRow"@),
                (m.held)("%warpCol"@) * cols + j * sj + (m.held)("%baseCol"@),
            )));
            } else {
                assert(n == to + j);
                assert(stored_tile(e.trace[to + j], last, j, element(
                m,
                (m.held)("%warpRow"@) * rows + i * si + (m.held)("%baseRow"@),
                (m.held)("%warpCol"@) * cols + j * sj + (m.held)("%baseCol"@),
            )));
            }
        }
    }
}

/// The tiles of one row: see [`law_plain_tiles_go_to_their_places`].
proof fn lemma_row_plain_tiles_go_to_their_places(m: Machine, i: nat, n: nat, si: nat, sj: nat)
    ensures
        ({
            let t = text::each2_row(plain::STORE@, i, n, si, sj, Seq::<Seq<char>>::empty());
            let e = m.through(t);
            let at = m.trace.len() as int;
            &&& t.len() == 0 || t.last() == '\n'
            &&& kept(m, e)
            &&& e.trace.len() == at + n
            &&& e.trace.take(at) == m.trace
            &&& forall|j: nat|
                j < n ==> stored_tile(#[trigger] e.trace[at + j], i, j, element(m, (m.held)("%baseRow"@) + i * si, (m.held)("%baseCol"@) + j * sj))
        }),
    decreases n,
{
    reveal(text::each2_row);
    machine::lemma_reads_nothing();
    let at = m.trace.len() as int;
    if n == 0 {
        assert(text::each2_row(plain::STORE@, i, n, si, sj, Seq::<Seq<char>>::empty()) =~= Seq::<char>::empty());
        assert(m.trace.take(at) =~= m.trace);
    } else {
        let last = (n - 1) as nat;
        lemma_row_plain_tiles_go_to_their_places(m, i, last, si, sj);
        let before = text::each2_row(plain::STORE@, i, last, si, sj, Seq::<Seq<char>>::empty());
        let now = text::fill(
            plain::STORE@,
            seq![text::dec(i), text::dec(last), text::dec(i * si), text::dec(last * sj)] + Seq::<Seq<char>>::empty(),
        );
        let mid = m.through(before);
        m.lemma_through_add(before, now);
        lemma_plain_tile(mid, i, last, i * si, last * sj);
        let e = mid.through(now);
        assert((before + now).last() == now.last());
        assert(e.trace.take(at) =~= mid.trace.take(at));
        assert forall|j: nat| j < n implies stored_tile(#[trigger] e.trace[at + j], i, j, element(m, (m.held)("%baseRow"@) + i * si, (m.held)("%baseCol"@) + j * sj)) by {
            if j < last {
                assert(e.trace[at + j] == mid.trace[at + j]);
            }
        }
    }
}

/// As [`law_staged_tiles_go_to_their_places`], of a kernel whose blocks are one warp.
pub proof fn law_plain_tiles_go_to_their_places(m: Machine, tm: nat, tn: nat, si: nat, sj: nat)
    ensures
        ({
            let t = text::each2(plain::STORE@, tm, tn, si, sj, Seq::<Seq<char>>::empty());
            let e = m.through(t);
            let at = m.trace.len() as int;
            &&& t.len() == 0 || t.last() == '\n'
            &&& kept(m, e)
            &&& e.trace.len() == at + tm * tn
            &&& e.trace.take(at) == m.trace
            &&& forall|i: nat, j: nat|
                i < tm && j < tn ==> stored_tile(#[trigger] e.trace[at + (i * tn + j)], i, j, element(m, (m.held)("%baseRow"@) + i * si, (m.held)("%baseCol"@) + j * sj))
        }),
    decreases tm,
{
    reveal(text::each2);
    machine::lemma_reads_nothing();
    let at = m.trace.len() as int;
    if tm == 0 {
        assert(text::each2(plain::STORE@, tm, tn, si, sj, Seq::<Seq<char>>::empty()) =~= Seq::<char>::empty());
        assert(m.trace.take(at) =~= m.trace);
        assert(0 * tn == 0);
    } else {
        let last = (tm - 1) as nat;
        law_plain_tiles_go_to_their_places(m, last, tn, si, sj);
        let before = text::each2(plain::STORE@, last, tn, si, sj, Seq::<Seq<char>>::empty());
        let row = text::each2_row(plain::STORE@, last, tn, si, sj, Seq::<Seq<char>>::empty());
        let mid = m.through(before);
        m.lemma_through_add(before, row);
        lemma_row_plain_tiles_go_to_their_places(mid, last, tn, si, sj);
        let e = mid.through(row);
        if row.len() == 0 {
            assert(before + row =~= before);
        } else {
            assert((before + row).last() == row.last());
        }
        assert(tm * tn == last * tn + tn) by (nonlinear_arith)
            requires
                tm == last + 1,
        ;
        let to = mid.trace.len() as int;
        assert(e.trace.take(at) =~= e.trace.take(to).take(at));
        assert forall|i: nat, j: nat| i < tm && j < tn implies stored_tile(
            #[trigger] e.trace[at + (i * tn + j)],
            i,
            j,
            element(m, (m.held)("%baseRow"@) + i * si, (m.held)("%baseCol"@) + j * sj),
        ) by {
            let n = at + (i * tn + j);
            assert(i * tn >= 0) by (nonlinear_arith);
            if i < last {
                assert(i * tn + tn <= last * tn) by (nonlinear_arith)
                    requires
                        i < last,
                ;
                assert(e.trace.take(to)[n] == e.trace[n]);
                assert(stored_tile(mid.trace[at + (i * tn + j)], i, j, element(m, (m.held)("%baseRow"@) + i * si, (m.held)("%baseCol"@) + j * sj)));
            } else {
                assert(n == to + j);
                assert(stored_tile(e.trace[to + j], last, j, element(m, (m.held)("%baseRow"@) + i * si, (m.held)("%baseCol"@) + j * sj)));
            }
        }
    }
}

/// An activation computes with floating-point numbers alone.
proof fn lemma_act(m: Machine, a: act::Act, r: Seq<char>)
    requires
        operand(r),
    ensures
        ({
            let t = a.epilogue_text(r);
            let e = m.through(t);
            &&& t.len() == 0 || t.last() == '\n'
            &&& e.held == m.held
            &&& e.trace == m.trace
        }),
{
    let args = seq![r];
    machine::lemma_float_kinds();
    match a {
        act::Act::Identity => {
            machine::lemma_reads_nothing();
        },
        act::Act::Relu => {
            readings::lemma_act_relu(args);
            reveal_with_fuel(Machine::run, 2);
        },
        act::Act::Silu => {
            readings::lemma_act_silu(args);
            reveal_with_fuel(Machine::run, 6);
        },
        act::Act::Gelu => {
            readings::lemma_act_gelu(args);
            reveal_with_fuel(Machine::run, 9);
        },
    }
}

/// As [`lemma_act`], of the first `n` registers of a name.
proof fn lemma_acts(m: Machine, a: act::Act, d: Seq<char>, n: nat)
    requires
        operand(d),
    ensures
        ({
            let t = a.epilogues_text(d, n);
            let e = m.through(t);
            &&& t.len() == 0 || t.last() == '\n'
            &&& e.held == m.held
            &&& e.trace == m.trace
        }),
    decreases n,
{
    reveal(act::Act::epilogues_text);
    machine::lemma_reads_nothing();
    if n > 0 {
        let i = (n - 1) as nat;
        let before = a.epilogues_text(d, i);
        let r = text::fill(act::NUMBERED@, seq![d, text::dec(i)]);
        assert(operand(r)) by {
            machine::lemma_number(i);
            reveal_strlit("#0#1");
            reveal_with_fuel(text::fill, 5);
            let t = act::NUMBERED@;
            assert(t.drop_last().drop_last().drop_last().drop_last().len() == 0);
            assert(r =~= d + text::dec(i));
        }
        let last = a.epilogue_text(r);
        lemma_acts(m, a, d, i);
        m.lemma_through_add(before, last);
        lemma_act(m.through(before), a, r);
        if last.len() == 0 {
            assert(before + last =~= before);
        } else {
            assert((before + last).last() == last.last());
        }
    }
}

/// An activated tile goes to its place: tile `(i, j)` of the accumulators of that name is stored once,
/// `16 i` rows and `16 j` columns from the warp's part of the block's tile.
#[verifier::rlimit(60)]
pub proof fn law_an_activated_tile_goes_to_its_place(
    m: Machine,
    i: nat,
    j: nat,
    rows: nat,
    cols: nat,
    a: act::Act,
)
    ensures
        ({
            let t = smem_db::act_tile(i, j, rows, cols, a);
            let e = m.through(t);
            &&& t.len() > 0 && t.last() == '\n'
            &&& kept(m, e)
            &&& e.trace.len() == m.trace.len() + 1
            &&& e.trace.take(m.trace.len() as int) == m.trace
            &&& stored_tile(
                e.trace[m.trace.len() as int],
                i,
                j,
                element(
                    m,
                    (m.held)("%warpRow"@) * rows + 16 * i + (m.held)("%baseRow"@),
                    (m.held)("%warpCol"@) * cols + 16 * j + (m.held)("%baseCol"@),
                ),
            )
        }),
{
    let ij = seq![text::dec(i), text::dec(j)];
    let args = seq![
        text::dec(i),
        text::dec(j),
        text::dec(i * 16),
        text::dec(j * 16),
        text::dec(rows),
        text::dec(cols),
    ];
    machine::lemma_number(i);
    machine::lemma_number(j);
    machine::lemma_number(i * 16);
    machine::lemma_number(j * 16);
    machine::lemma_number(rows);
    machine::lemma_number(cols);
    machine::lemma_kinds();
    machine::lemma_numbers();
    lemma_stores();
    lemma_registers();
    let first = text::fill(smem_db::TILE_ADDRESS@, args);
    wmma_readings::lemma_smem_db_tile_address(args);
    let p = machine::program(first);
    machine::lemma_some_text(first, p);
    reveal_with_fuel(Machine::run, 2);
    let m1 = m.after(p[0]);
    let m2 = m1.after(p[1]);
    let m3 = m2.after(p[2]);
    let m4 = m3.after(p[3]);
    let m5 = m4.after(p[4]);
    let m6 = m5.after(p[5]);
    let m7 = m6.after(p[6]);
    let m8 = m7.after(p[7]);
    let m9 = m8.after(p[8]);
    let m10 = m9.after(p[9]);
    assert(m.run(p, 1) == m1);
    assert(m.run(p, 2) == m2);
    assert(m.run(p, 3) == m3);
    assert(m.run(p, 4) == m4);
    assert(m.run(p, 5) == m5);
    assert(m.run(p, 6) == m6);
    assert(m.run(p, 7) == m7);
    assert(m.run(p, 8) == m8);
    assert(m.run(p, 9) == m9);
    assert(m.run(p, 10) == m10);
    let d = text::fill(smem_db::TILE_REGS@, ij);
    assert(operand(d)) by {
        reveal_strlit("%c#0_#1_");
        reveal_with_fuel(text::fill, 9);
        let t = smem_db::TILE_REGS@;
        assert(t.drop_last().drop_last().drop_last().drop_last().drop_last().drop_last().drop_last().drop_last().len()
            == 0);
        assert(d =~= seq!['%', 'c'] + text::dec(i) + seq!['_'] + text::dec(j) + seq!['_']);
    }
    let acts = a.epilogues_text(d, 8);
    m.lemma_through_add(first, acts);
    lemma_acts(m10, a, d, 8);
    let mid = m10.through(acts);
    if acts.len() == 0 {
        assert(first + acts =~= first);
    } else {
        assert((first + acts).last() == acts.last());
    }
    let store = text::fill(smem_db::TILE_STORE@, ij);
    wmma_readings::lemma_smem_db_tile_store(ij);
    let q = machine::program(store);
    machine::lemma_some_text(store, q);
    m.lemma_through_add(first + acts, store);
    let e = mid.after(q[0]);
    assert(mid.run(q, 1) == e);
    reveal_strlit("[%cptr]");
    reveal_strlit(" {%c");
    reveal_strlit("%c");
    reveal_strlit(" %N");
    assert("[%cptr]"@ =~= seq!['['] + "%cptr"@ + seq![']']);
    machine::lemma_address(mid, "[%cptr]"@, "%cptr"@);
    assert(smem_db::act_tile(i, j, rows, cols, a).last() == store.last());
    assert(e.trace.take(m.trace.len() as int) =~= m.trace);
}

/// The activated tiles of one row go to their places.
proof fn lemma_act_row(m: Machine, i: nat, n: nat, rows: nat, cols: nat, a: act::Act)
    ensures
        ({
            let t = smem_db::act_row(i, n, rows, cols, a);
            let e = m.through(t);
            let at = m.trace.len() as int;
            &&& t.len() == 0 || t.last() == '\n'
            &&& kept(m, e)
            &&& e.trace.len() == at + n
            &&& e.trace.take(at) == m.trace
            &&& forall|j: nat| j < n ==> stored_tile(#[trigger] e.trace[at + j], i, j, element(
                    m,
                    (m.held)("%warpRow"@) * rows + 16 * i + (m.held)("%baseRow"@),
                    (m.held)("%warpCol"@) * cols + 16 * j + (m.held)("%baseCol"@),
                ))
        }),
    decreases n,
{
    reveal(smem_db::act_row);
    machine::lemma_reads_nothing();
    let at = m.trace.len() as int;
    if n == 0 {
        assert(smem_db::act_row(i, n, rows, cols, a) =~= Seq::<char>::empty());
        assert(m.trace.take(at) =~= m.trace);
    } else {
        let last = (n - 1) as nat;
        lemma_act_row(m, i, last, rows, cols, a);
        let before = smem_db::act_row(i, last, rows, cols, a);
        let now = smem_db::act_tile(i, last, rows, cols, a);
        let mid = m.through(before);
        m.lemma_through_add(before, now);
        law_an_activated_tile_goes_to_its_place(mid, i, last, rows, cols, a);
        let e = mid.through(now);
        assert((before + now).last() == now.last());
        assert(e.trace.take(at) =~= e.trace.take(mid.trace.len() as int).take(at));
        assert forall|j: nat| j < n implies stored_tile(#[trigger] e.trace[at + j], i, j, element(
                    m,
                    (m.held)("%warpRow"@) * rows + 16 * i + (m.held)("%baseRow"@),
                    (m.held)("%warpCol"@) * cols + 16 * j + (m.held)("%baseCol"@),
                )) by {
            if j < last {
                assert(e.trace.take(mid.trace.len() as int)[at + j] == e.trace[at + j]);
                assert(e.trace[at + j] == mid.trace[at + j]);
            }
        }
    }
}

/// The activated tiles of a warp are stored once each, tile `(i, j)` of the accumulators of that name
/// `16 i` rows and `16 j` columns from the warp's part of the block's tile.
pub proof fn law_activated_tiles_go_to_their_places(
    m: Machine,
    tm: nat,
    tn: nat,
    rows: nat,
    cols: nat,
    a: act::Act,
)
    ensures
        ({
            let t = smem_db::act_tiles(tm, tn, rows, cols, a);
            let e = m.through(t);
            let at = m.trace.len() as int;
            &&& t.len() == 0 || t.last() == '\n'
            &&& kept(m, e)
            &&& e.trace.len() == at + tm * tn
            &&& e.trace.take(at) == m.trace
            &&& forall|i: nat, j: nat|
                i < tm && j < tn ==> stored_tile(#[trigger] e.trace[at + (i * tn + j)], i, j, element(
                    m,
                    (m.held)("%warpRow"@) * rows + 16 * i + (m.held)("%baseRow"@),
                    (m.held)("%warpCol"@) * cols + 16 * j + (m.held)("%baseCol"@),
                ))
        }),
    decreases tm,
{
    reveal(smem_db::act_tiles);
    machine::lemma_reads_nothing();
    let at = m.trace.len() as int;
    if tm == 0 {
        assert(smem_db::act_tiles(tm, tn, rows, cols, a) =~= Seq::<char>::empty());
        assert(m.trace.take(at) =~= m.trace);
        assert(0 * tn == 0);
    } else {
        let last = (tm - 1) as nat;
        law_activated_tiles_go_to_their_places(m, last, tn, rows, cols, a);
        let before = smem_db::act_tiles(last, tn, rows, cols, a);
        let row = smem_db::act_row(last, tn, rows, cols, a);
        let mid = m.through(before);
        m.lemma_through_add(before, row);
        lemma_act_row(mid, last, tn, rows, cols, a);
        let e = mid.through(row);
        if row.len() == 0 {
            assert(before + row =~= before);
        } else {
            assert((before + row).last() == row.last());
        }
        assert(tm * tn == last * tn + tn) by (nonlinear_arith)
            requires
                tm == last + 1,
        ;
        let to = mid.trace.len() as int;
        assert(e.trace.take(at) =~= e.trace.take(to).take(at));
        assert forall|i: nat, j: nat| i < tm && j < tn implies stored_tile(
            #[trigger] e.trace[at + (i * tn + j)],
            i,
            j,
            element(
                    m,
                    (m.held)("%warpRow"@) * rows + 16 * i + (m.held)("%baseRow"@),
                    (m.held)("%warpCol"@) * cols + 16 * j + (m.held)("%baseCol"@),
                ),
        ) by {
            let n = at + (i * tn + j);
            assert(i * tn >= 0) by (nonlinear_arith);
            if i < last {
                assert(i * tn + tn <= last * tn) by (nonlinear_arith)
                    requires
                        i < last,
                ;
                assert(e.trace.take(to)[n] == e.trace[n]);
                assert(stored_tile(mid.trace[at + (i * tn + j)], i, j, element(
                    m,
                    (m.held)("%warpRow"@) * rows + 16 * i + (m.held)("%baseRow"@),
                    (m.held)("%warpCol"@) * cols + 16 * j + (m.held)("%baseCol"@),
                )));
            } else {
                assert(n == to + j);
                assert(stored_tile(e.trace[to + j], last, j, element(
                    m,
                    (m.held)("%warpRow"@) * rows + 16 * last + (m.held)("%baseRow"@),
                    (m.held)("%warpCol"@) * cols + 16 * j + (m.held)("%baseCol"@),
                )));
            }
        }
    }
}

} // verus!
