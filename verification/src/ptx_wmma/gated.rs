//! Where the gated results of a warp go: what the end of a gated kernel computes and stores.
use vstd::prelude::*;

use crate::ptx_wmma::act;
use crate::ptx_wmma::gate_readings;
use crate::ptx_wmma::machine;
use crate::ptx_wmma::machine::{lacks, operand, Machine, Term};
use crate::ptx_wmma::mma_gate;
use crate::ptx_wmma::places;
use crate::ptx_wmma::places::{acc, accumulator, home, plus, steady, times};
use crate::text;

verus! {

/// How the registers of the biases are spelled.
proof fn lemma_bias_registers()
    ensures
        "%biasg0"@.len() == 7 && "%biasg0"@[0] == '%' && "%biasg0"@[1] == 'b' && "%biasg0"@[2] == 'i' && "%biasg0"@[3] == 'a' && "%biasg0"@[4] == 's' && "%biasg0"@[5] == 'g' && "%biasg0"@[6] == '0',
        "%biasg1"@.len() == 7 && "%biasg1"@[0] == '%' && "%biasg1"@[1] == 'b' && "%biasg1"@[2] == 'i' && "%biasg1"@[3] == 'a' && "%biasg1"@[4] == 's' && "%biasg1"@[5] == 'g' && "%biasg1"@[6] == '1',
        "%biasu0"@.len() == 7 && "%biasu0"@[0] == '%' && "%biasu0"@[1] == 'b' && "%biasu0"@[2] == 'i' && "%biasu0"@[3] == 'a' && "%biasu0"@[4] == 's' && "%biasu0"@[5] == 'u' && "%biasu0"@[6] == '0',
        "%biasu1"@.len() == 7 && "%biasu1"@[0] == '%' && "%biasu1"@[1] == 'b' && "%biasu1"@[2] == 'i' && "%biasu1"@[3] == 'a' && "%biasu1"@[4] == 's' && "%biasu1"@[5] == 'u' && "%biasu1"@[6] == '1',
        "%BiasG"@.len() == 6 && "%BiasG"@[0] == '%' && "%BiasG"@[1] == 'B' && "%BiasG"@[2] == 'i' && "%BiasG"@[3] == 'a' && "%BiasG"@[4] == 's' && "%BiasG"@[5] == 'G',
        "%BiasU"@.len() == 6 && "%BiasU"@[0] == '%' && "%BiasU"@[1] == 'B' && "%BiasU"@[2] == 'i' && "%BiasU"@[3] == 'a' && "%BiasU"@[4] == 's' && "%BiasU"@[5] == 'U',
{
    reveal_strlit("%biasg0");
    reveal_strlit("%biasg1");
    reveal_strlit("%biasu0");
    reveal_strlit("%biasu1");
    reveal_strlit("%BiasG");
    reveal_strlit("%BiasU");
}

/// The name of the accumulators of a sub-tile, of the product that is activated.
pub open spec fn gate(i: nat, j: nat) -> Seq<char> {
    seq!['%', 'd', 'g'] + text::dec(i) + seq!['_'] + text::dec(j) + seq!['_']
}

/// The name of the accumulators of a sub-tile, of the product that is gated.
pub open spec fn up(i: nat, j: nat) -> Seq<char> {
    seq!['%', 'd', 'u'] + text::dec(i) + seq!['_'] + text::dec(j) + seq!['_']
}

/// The names of the accumulators as the templates spell them.
proof fn lemma_names(i: nat, j: nat)
    ensures
        accumulator(gate(i, j)),
        accumulator(up(i, j)),
        text::fill(mma_gate::GATE_NAME@, seq![text::dec(i), text::dec(j)]) == gate(i, j),
        "%dg"@ + text::dec(i) + "_"@ + text::dec(j) + "_0"@ == acc(gate(i, j), 0),
        "%dg"@ + text::dec(i) + "_"@ + text::dec(j) + "_1"@ == acc(gate(i, j), 1),
        "%dg"@ + text::dec(i) + "_"@ + text::dec(j) + "_2"@ == acc(gate(i, j), 2),
        "%dg"@ + text::dec(i) + "_"@ + text::dec(j) + "_3"@ == acc(gate(i, j), 3),
        "%du"@ + text::dec(i) + "_"@ + text::dec(j) + "_0"@ == acc(up(i, j), 0),
        "%du"@ + text::dec(i) + "_"@ + text::dec(j) + "_1"@ == acc(up(i, j), 1),
        "%du"@ + text::dec(i) + "_"@ + text::dec(j) + "_2"@ == acc(up(i, j), 2),
        "%du"@ + text::dec(i) + "_"@ + text::dec(j) + "_3"@ == acc(up(i, j), 3),
{
    let (x, y) = (text::dec(i), text::dec(j));
    machine::lemma_number(i);
    machine::lemma_number(j);
    reveal_strlit("%dg");
    reveal_strlit("%du");
    reveal_strlit("_");
    reveal_strlit("_0");
    reveal_strlit("_1");
    reveal_strlit("_2");
    reveal_strlit("_3");
    reveal_strlit("0");
    reveal_strlit("1");
    reveal_strlit("2");
    reveal_strlit("3");
    places::lemma_acc(gate(i, j));
    places::lemma_acc(up(i, j));
    assert("%dg"@ + x + "_"@ + y + "_0"@ =~= gate(i, j) + "0"@);
    assert("%dg"@ + x + "_"@ + y + "_1"@ =~= gate(i, j) + "1"@);
    assert("%dg"@ + x + "_"@ + y + "_2"@ =~= gate(i, j) + "2"@);
    assert("%dg"@ + x + "_"@ + y + "_3"@ =~= gate(i, j) + "3"@);
    assert("%du"@ + x + "_"@ + y + "_0"@ =~= up(i, j) + "0"@);
    assert("%du"@ + x + "_"@ + y + "_1"@ =~= up(i, j) + "1"@);
    assert("%du"@ + x + "_"@ + y + "_2"@ =~= up(i, j) + "2"@);
    assert("%du"@ + x + "_"@ + y + "_3"@ =~= up(i, j) + "3"@);
    reveal_with_fuel(text::fill, 10);
    reveal_strlit("%dg#0_#1_");
    let t = mma_gate::GATE_NAME@;
    assert(t.drop_last().drop_last().drop_last().drop_last().drop_last().drop_last().drop_last().drop_last().drop_last().len()
        == 0);
    assert(text::fill(t, seq![x, y]) =~= gate(i, j));
}

/// The third character of a name is that of its family.
proof fn lemma_families(i: nat, j: nat)
    ensures
        acc(gate(i, j), 0)[2] == 'g' && acc(up(i, j), 0)[2] == 'u',
        acc(gate(i, j), 1)[2] == 'g' && acc(up(i, j), 1)[2] == 'u',
        acc(gate(i, j), 2)[2] == 'g' && acc(up(i, j), 2)[2] == 'u',
        acc(gate(i, j), 3)[2] == 'g' && acc(up(i, j), 3)[2] == 'u',
{
    places::lemma_acc(gate(i, j));
    places::lemma_acc(up(i, j));
}

/// The biases of a column are added to the sums of both products.
#[verifier::rlimit(100)]
proof fn lemma_bias(m: Machine, i: nat, j: nat)
    ensures
        ({
            let t = text::fill(mma_gate::ADD_BIAS@, seq![text::dec(i), text::dec(j)]);
            let e = m.through(t);
            let g = (m.held)("%BiasG"@) + 4 * (m.held)("%gcol"@);
            let u = (m.held)("%BiasU"@) + 4 * (m.held)("%gcol"@);
            &&& t.len() > 0 && t.last() == '\n'
            &&& steady(m, e)
            &&& (e.held)("%grow"@) == (m.held)("%grow"@)
            &&& (e.held)("%gcol"@) == (m.held)("%gcol"@)
            &&& e.stores == m.stores
            &&& (e.float)(acc(gate(i, j), 0)) == plus(
                (m.float)(acc(gate(i, j), 0)),
                Term::At(g),
            )
            &&& (e.float)(acc(gate(i, j), 1)) == plus(
                (m.float)(acc(gate(i, j), 1)),
                Term::At(g + 4),
            )
            &&& (e.float)(acc(gate(i, j), 2)) == plus(
                (m.float)(acc(gate(i, j), 2)),
                Term::At(g),
            )
            &&& (e.float)(acc(gate(i, j), 3)) == plus(
                (m.float)(acc(gate(i, j), 3)),
                Term::At(g + 4),
            )
            &&& (e.float)(acc(up(i, j), 0)) == plus(
                (m.float)(acc(up(i, j), 0)),
                Term::At(u),
            )
            &&& (e.float)(acc(up(i, j), 1)) == plus(
                (m.float)(acc(up(i, j), 1)),
                Term::At(u + 4),
            )
            &&& (e.float)(acc(up(i, j), 2)) == plus(
                (m.float)(acc(up(i, j), 2)),
                Term::At(u),
            )
            &&& (e.float)(acc(up(i, j), 3)) == plus(
                (m.float)(acc(up(i, j), 3)),
                Term::At(u + 4),
            )
        }),
{
    let args = seq![text::dec(i), text::dec(j)];
    machine::lemma_number(i);
    machine::lemma_number(j);
    gate_readings::lemma_mma_gate_add_bias(args);
    machine::lemma_kinds();
    machine::lemma_float_kinds();
    machine::lemma_numbers();
    places::lemma_registers();
    lemma_bias_registers();
    lemma_names(i, j);
    lemma_families(i, j);
    places::lemma_acc(gate(i, j));
    places::lemma_acc(up(i, j));
    places::lemma_brackets();
    let t = text::fill(mma_gate::ADD_BIAS@, args);
    let p = machine::program(t);
    machine::lemma_some_text(t, p);
    reveal_with_fuel(Machine::run, 2);
    let m1 = m.after(p[0]);
    let m2 = m1.after(p[1]);
    machine::lemma_address(m2, "[%cptr]"@, "%cptr"@);
    let m3 = m2.after(p[2]);
    machine::lemma_address_behind(m3, "[%cptr+4]"@, "%cptr"@, "4"@);
    let m4 = m3.after(p[3]);
    let m5 = m4.after(p[4]);
    let m6 = m5.after(p[5]);
    let m7 = m6.after(p[6]);
    let m8 = m7.after(p[7]);
    let m9 = m8.after(p[8]);
    machine::lemma_address(m9, "[%cptr]"@, "%cptr"@);
    let m10 = m9.after(p[9]);
    machine::lemma_address_behind(m10, "[%cptr+4]"@, "%cptr"@, "4"@);
    let m11 = m10.after(p[10]);
    let m12 = m11.after(p[11]);
    let m13 = m12.after(p[12]);
    let m14 = m13.after(p[13]);
    let m15 = m14.after(p[14]);
    assert(m.run(p, 1) == m1);
    assert(m.run(p, 2) == m2);
    assert(m.run(p, 3) == m3);
    assert(m.run(p, 4) == m4);
    assert(m.run(p, 5) == m5);
    assert(m.run(p, 6) == m6);
    assert(m.run(p, 7) == m7);
    assert(m.run(p, 8) == m8);
    assert(m.run(p, 9) == m9);
    assert(m.run(p, 10) == m10);
    assert(m.run(p, 11) == m11);
    assert(m.run(p, 12) == m12);
    assert(m.run(p, 13) == m13);
    assert(m.run(p, 14) == m14);
    assert(m.run(p, 15) == m15);
    assert(m.through(t) == m15);
}

/// The results of a sub-tile are gated and stored.
#[verifier::rlimit(100)]
proof fn lemma_store(m: Machine, i: nat, j: nat)
    ensures
        ({
            let t = text::fill(mma_gate::GATED_STORE@, seq![text::dec(i), text::dec(j)]);
            let e = m.through(t);
            let h = home(m);
            let (r, c) = ((m.held)("%grow"@), (m.held)("%gcol"@));
            let (g, u) = (gate(i, j), up(i, j));
            &&& t.len() > 0 && t.last() == '\n'
            &&& steady(m, e)
            &&& e.stores == m.stores + seq![
                (h.element(r, c), times((m.float)(acc(g, 0)), (m.float)(acc(u, 0)))),
                (h.element(r, c + 1), times((m.float)(acc(g, 1)), (m.float)(acc(u, 1)))),
                (h.element(r + 8, c), times((m.float)(acc(g, 2)), (m.float)(acc(u, 2)))),
                (h.element(r + 8, c + 1), times((m.float)(acc(g, 3)), (m.float)(acc(u, 3)))),
            ]
        }),
{
    let args = seq![text::dec(i), text::dec(j)];
    machine::lemma_number(i);
    machine::lemma_number(j);
    gate_readings::lemma_mma_gate_gated_store(args);
    machine::lemma_kinds();
    machine::lemma_float_kinds();
    machine::lemma_numbers();
    places::lemma_registers();
    lemma_names(i, j);
    lemma_families(i, j);
    places::lemma_acc(gate(i, j));
    places::lemma_acc(up(i, j));
    places::lemma_brackets();
    let t = text::fill(mma_gate::GATED_STORE@, args);
    let p = machine::program(t);
    machine::lemma_some_text(t, p);
    reveal_with_fuel(Machine::run, 2);
    let m1 = m.after(p[0]);
    let m2 = m1.after(p[1]);
    let m3 = m2.after(p[2]);
    let m4 = m3.after(p[3]);
    let m5 = m4.after(p[4]);
    let m6 = m5.after(p[5]);
    let m7 = m6.after(p[6]);
    let m8 = m7.after(p[7]);
    machine::lemma_address(m8, "[%cptr]"@, "%cptr"@);
    let m9 = m8.after(p[8]);
    machine::lemma_address_behind(m9, "[%cptr+4]"@, "%cptr"@, "4"@);
    let m10 = m9.after(p[9]);
    let m11 = m10.after(p[10]);
    let m12 = m11.after(p[11]);
    let m13 = m12.after(p[12]);
    let m14 = m13.after(p[13]);
    let m15 = m14.after(p[14]);
    machine::lemma_address(m15, "[%cptr2]"@, "%cptr2"@);
    let m16 = m15.after(p[15]);
    machine::lemma_address_behind(m16, "[%cptr2+4]"@, "%cptr2"@, "4"@);
    let m17 = m16.after(p[16]);
    assert(m.run(p, 1) == m1);
    assert(m.run(p, 2) == m2);
    assert(m.run(p, 3) == m3);
    assert(m.run(p, 4) == m4);
    assert(m.run(p, 5) == m5);
    assert(m.run(p, 6) == m6);
    assert(m.run(p, 7) == m7);
    assert(m.run(p, 8) == m8);
    assert(m.run(p, 9) == m9);
    assert(m.run(p, 10) == m10);
    assert(m.run(p, 11) == m11);
    assert(m.run(p, 12) == m12);
    assert(m.run(p, 13) == m13);
    assert(m.run(p, 14) == m14);
    assert(m.run(p, 15) == m15);
    assert(m.run(p, 16) == m16);
    assert(m.run(p, 17) == m17);
    assert((m12.held)("%tmp"@) == ((m.held)("%grow"@) + 8) * (m.held)("%N"@));
    assert(m.through(t) == m17);
    let h = home(m);
    let (r, c) = ((m.held)("%grow"@), (m.held)("%gcol"@));
    let (g, u) = (gate(i, j), up(i, j));
    assert(m17.stores =~= m.stores + seq![
        (h.element(r, c), times((m.float)(acc(g, 0)), (m.float)(acc(u, 0)))),
        (h.element(r, c + 1), times((m.float)(acc(g, 1)), (m.float)(acc(u, 1)))),
        (h.element(r + 8, c), times((m.float)(acc(g, 2)), (m.float)(acc(u, 2)))),
        (h.element(r + 8, c + 1), times((m.float)(acc(g, 3)), (m.float)(acc(u, 3)))),
    ]);
}

/// What the two sums for an element come to: with the biases of the column added, the activation of
/// the one times the other.
pub open spec fn gated(m: Machine, a: act::Act, bias: bool, g: Term, u: Term, col: int) -> Term {
    if bias {
        times(
            places::activated(a, plus(g, Term::At((m.held)("%BiasG"@) + 4 * col))),
            plus(u, Term::At((m.held)("%BiasU"@) + 4 * col)),
        )
    } else {
        times(places::activated(a, g), u)
    }
}

/// A sub-tile of the gated product goes where its sums were accumulated: the four results of
/// sub-tile `(i, j)` go to two neighbouring columns `8 j` from where the lane stands, in the row
/// `16 i` below it and eight rows further, each the gated sums of the accumulators of that name.
pub proof fn law_gated_results_go_where_they_were_accumulated(
    m: Machine,
    a: act::Act,
    bias: bool,
    i: nat,
    j: nat,
)
    ensures
        ({
            let e = m.through(mma_gate::gate_tile(a, bias, i, j));
            let h = home(m);
            let (r, c) = (h.row + 16 * i, h.col + 8 * j);
            let of = |k: nat, col: int|
                gated(
                    m,
                    a,
                    bias,
                    (m.float)(acc(gate(i, j), k)),
                    (m.float)(acc(up(i, j), k)),
                    col,
                );
            &&& home(e) == h
            &&& e.stores == m.stores + seq![
                (h.element(r, c), of(0, c)),
                (h.element(r, c + 1), of(1, c + 1)),
                (h.element(r + 8, c), of(2, c)),
                (h.element(r + 8, c + 1), of(3, c + 1)),
            ]
        }),
{
    let ij = seq![text::dec(i), text::dec(j)];
    let d = gate(i, j);
    let u = up(i, j);
    lemma_names(i, j);
    lemma_families(i, j);
    places::lemma_acc(d);
    places::lemma_acc(u);
    places::lemma_registers();
    lemma_bias_registers();
    machine::lemma_reads_nothing();
    let place = text::fill(mma_gate::PLACE@, seq![text::dec(i * 16), text::dec(j * 8)]);
    let biases = if bias {
        text::fill(mma_gate::ADD_BIAS@, ij)
    } else {
        ""@
    };
    let acts = a.epilogues_text(d, 4);
    let store = text::fill(mma_gate::GATED_STORE@, ij);
    places::lemma_place(m, i * 16, j * 8);
    let m1 = m.through(place);
    assert(steady(m, m1));
    places::lemma_home(m, m1);
    assert(!places::scratch("%BiasG"@) && !places::scratch("%BiasU"@));
    m.lemma_through_add(place, biases);
    let m2 = m1.through(biases);
    if bias {
        lemma_bias(m1, i, j);
        places::lemma_home(m1, m2);
        assert((place + biases).last() == biases.last());
    } else {
        reveal_strlit("");
        assert(place + biases =~= place);
        assert(m2 == m1);
    }
    m.lemma_through_add(place + biases, acts);
    places::lemma_acts(m2, a, d, 4);
    let m3 = m2.through(acts);
    if acts.len() == 0 {
        assert(place + biases + acts =~= place + biases);
    } else {
        assert((place + biases + acts).last() == acts.last());
    }
    m.lemma_through_add(place + biases + acts, store);
    lemma_store(m3, i, j);
    let m4 = m3.through(store);
    places::lemma_home(m3, m4);
    assert(home(m3) == home(m2));
    assert((m3.float)(acc(d, 0)) == places::activated(a, (m2.float)(acc(d, 0))));
    assert((m3.float)(acc(d, 1)) == places::activated(a, (m2.float)(acc(d, 1))));
    assert((m3.float)(acc(d, 2)) == places::activated(a, (m2.float)(acc(d, 2))));
    assert((m3.float)(acc(d, 3)) == places::activated(a, (m2.float)(acc(d, 3))));
    assert((m3.float)(acc(u, 0)) == (m2.float)(acc(u, 0))) by {
        assert forall|n: nat| n < 4 implies acc(u, 0) != #[trigger] acc(d, n) by {
            assert(n == 0 || n == 1 || n == 2 || n == 3);
        }
    }
    assert((m3.float)(acc(u, 1)) == (m2.float)(acc(u, 1))) by {
        assert forall|n: nat| n < 4 implies acc(u, 1) != #[trigger] acc(d, n) by {
            assert(n == 0 || n == 1 || n == 2 || n == 3);
        }
    }
    assert((m3.float)(acc(u, 2)) == (m2.float)(acc(u, 2))) by {
        assert forall|n: nat| n < 4 implies acc(u, 2) != #[trigger] acc(d, n) by {
            assert(n == 0 || n == 1 || n == 2 || n == 3);
        }
    }
    assert((m3.float)(acc(u, 3)) == (m2.float)(acc(u, 3))) by {
        assert forall|n: nat| n < 4 implies acc(u, 3) != #[trigger] acc(d, n) by {
            assert(n == 0 || n == 1 || n == 2 || n == 3);
        }
    }
}

/// The text of a sub-tile ends a line.
proof fn lemma_ends(a: act::Act, bias: bool, i: nat, j: nat)
    ensures
        mma_gate::gate_tile(a, bias, i, j).len() > 0,
        mma_gate::gate_tile(a, bias, i, j).last() == '\n',
{
    let m = Machine {
        held: |r: Seq<char>| 0int,
        float: |r: Seq<char>| Term::Start(r),
        stores: Seq::empty(),
        trace: Seq::empty(),
    };
    lemma_store(m, i, j);
    let store = text::fill(mma_gate::GATED_STORE@, seq![text::dec(i), text::dec(j)]);
    assert(mma_gate::gate_tile(a, bias, i, j).last() == store.last());
}

/// The first `n` sub-tiles of a row go to their places.
proof fn lemma_row(m: Machine, a: act::Act, bias: bool, i: nat, n: nat)
    ensures
        ({
            let t = mma_gate::gate_row(a, bias, i, n);
            let e = m.through(t);
            let at = m.stores.len() as int;
            let h = home(m);
            &&& t.len() == 0 || t.last() == '\n'
            &&& home(e) == h
            &&& e.stores.len() == at + 4 * n
            &&& e.stores.take(at) == m.stores
            &&& forall|j: nat, k: nat|
                j < n && k < 4 ==> (#[trigger] e.stores[at + 4 * j + k]).0 == h.element(
                    h.row + 16 * i + 8 * (k / 2),
                    h.col + 8 * j + k % 2,
                )
        }),
    decreases n,
{
    reveal(mma_gate::gate_row);
    machine::lemma_reads_nothing();
    let at = m.stores.len() as int;
    let h = home(m);
    if n == 0 {
        assert(mma_gate::gate_row(a, bias, i, n) =~= Seq::<char>::empty());
        assert(m.stores.take(at) =~= m.stores);
    } else {
        let last = (n - 1) as nat;
        lemma_row(m, a, bias, i, last);
        let before = mma_gate::gate_row(a, bias, i, last);
        let tile = mma_gate::gate_tile(a, bias, i, last);
        let mid = m.through(before);
        m.lemma_through_add(before, tile);
        law_gated_results_go_where_they_were_accumulated(mid, a, bias, i, last);
        lemma_ends(a, bias, i, last);
        let e = mid.through(tile);
        assert((before + tile).last() == tile.last());
        assert(e.stores.take(at) =~= mid.stores.take(at));
        assert forall|j: nat, k: nat| j < n && k < 4 implies (#[trigger] e.stores[at + 4 * j + k]).0
            == h.element(h.row + 16 * i + 8 * (k / 2), h.col + 8 * j + k % 2) by {
            if j < last {
                assert(e.stores[at + 4 * j + k] == mid.stores[at + 4 * j + k]);
            } else {
                assert(k == 0 || k == 1 || k == 2 || k == 3);
            }
        }
    }
}

/// The end of a gated kernel stores a result for each element of a warp's sub-tiles and no other:
/// result `k` of sub-tile `(i, j)` is the one at place `4 (i tn + j) + k` and goes `16 i + 8 (k / 2)`
/// rows and `8 j + k % 2` columns from where the lane stands.
pub proof fn law_gated_results_cover_the_sub_tiles(
    m: Machine,
    a: act::Act,
    bias: bool,
    tm: nat,
    tn: nat,
)
    ensures
        ({
            let t = mma_gate::gate_tiles(a, bias, tm, tn);
            let e = m.through(t);
            let at = m.stores.len() as int;
            let h = home(m);
            &&& t.len() == 0 || t.last() == '\n'
            &&& home(e) == h
            &&& e.stores.len() == at + 4 * (tm * tn)
            &&& e.stores.take(at) == m.stores
            &&& forall|i: nat, j: nat, k: nat|
                i < tm && j < tn && k < 4 ==> (#[trigger] e.stores[at + 4 * (i * tn + j) + k]).0
                    == h.element(h.row + 16 * i + 8 * (k / 2), h.col + 8 * j + k % 2)
        }),
    decreases tm,
{
    reveal(mma_gate::gate_tiles);
    machine::lemma_reads_nothing();
    let at = m.stores.len() as int;
    let h = home(m);
    if tm == 0 {
        assert(mma_gate::gate_tiles(a, bias, tm, tn) =~= Seq::<char>::empty());
        assert(m.stores.take(at) =~= m.stores);
        assert(0 * tn == 0);
    } else {
        let last = (tm - 1) as nat;
        law_gated_results_cover_the_sub_tiles(m, a, bias, last, tn);
        let before = mma_gate::gate_tiles(a, bias, last, tn);
        let row = mma_gate::gate_row(a, bias, last, tn);
        let mid = m.through(before);
        m.lemma_through_add(before, row);
        lemma_row(mid, a, bias, last, tn);
        let e = mid.through(row);
        if row.len() == 0 {
            assert(before + row =~= before);
        } else {
            assert((before + row).last() == row.last());
        }
        assert(tm * tn == last * tn + tn) by (nonlinear_arith)
            requires
                tm == last + 1,
        ;
        let to = mid.stores.len() as int;
        assert(e.stores.take(at) =~= e.stores.take(to).take(at));
        assert forall|i: nat, j: nat, k: nat| i < tm && j < tn && k < 4 implies (
        #[trigger] e.stores[at + 4 * (i * tn + j) + k]).0 == h.element(
            h.row + 16 * i + 8 * (k / 2),
            h.col + 8 * j + k % 2,
        ) by {
            let n = at + 4 * (i * tn + j) + k;
            assert(i * tn >= 0) by (nonlinear_arith);
            if i < last {
                assert(i * tn + tn <= last * tn) by (nonlinear_arith)
                    requires
                        i < last,
                ;
                assert(e.stores.take(to)[n] == e.stores[n]);
                assert(mid.stores[at + 4 * (i * tn + j) + k].0 == h.element(
                    h.row + 16 * i + 8 * (k / 2),
                    h.col + 8 * j + k % 2,
                ));
            } else {
                assert(n == to + 4 * j + k);
                assert(e.stores[to + 4 * j + k].0 == h.element(
                    h.row + 16 * last + 8 * (k / 2),
                    h.col + 8 * j + k % 2,
                ));
            }
        }
    }
}

} // verus!
