//! Which addresses of the staged tiles the fragments of a warp are read from.
use vstd::arithmetic::power2::*;
use vstd::prelude::*;

use crate::ptx_wmma::addresses;
use crate::ptx_wmma::machine;
use crate::ptx_wmma::machine::{operand, Event, Given, Kind, Machine};
use crate::ptx_wmma::mma;
use crate::text;

verus! {

/// How the registers are spelled.
proof fn lemma_registers()
    ensures
        "%aptr"@.len() == 5 && "%aptr"@[0] == '%' && "%aptr"@[1] == 'a' && "%aptr"@[2] == 'p' && "%aptr"@[3] == 't' && "%aptr"@[4] == 'r',
        "%bptr"@.len() == 5 && "%bptr"@[0] == '%' && "%bptr"@[1] == 'b' && "%bptr"@[2] == 'p' && "%bptr"@[3] == 't' && "%bptr"@[4] == 'r',
        "%bufcA"@.len() == 6 && "%bufcA"@[0] == '%' && "%bufcA"@[1] == 'b' && "%bufcA"@[2] == 'u' && "%bufcA"@[3] == 'f' && "%bufcA"@[4] == 'c' && "%bufcA"@[5] == 'A',
        "%arowb"@.len() == 6 && "%arowb"@[0] == '%' && "%arowb"@[1] == 'a' && "%arowb"@[2] == 'r' && "%arowb"@[3] == 'o' && "%arowb"@[4] == 'w' && "%arowb"@[5] == 'b',
        "%browb"@.len() == 6 && "%browb"@[0] == '%' && "%browb"@[1] == 'b' && "%browb"@[2] == 'r' && "%browb"@[3] == 'o' && "%browb"@[4] == 'w' && "%browb"@[5] == 'b',
        "%swztmp"@.len() == 7 && "%swztmp"@[0] == '%' && "%swztmp"@[1] == 's' && "%swztmp"@[2] == 'w' && "%swztmp"@[3] == 'z' && "%swztmp"@[4] == 't' && "%swztmp"@[5] == 'm' && "%swztmp"@[6] == 'p',
        "%la16"@.len() == 5 && "%la16"@[0] == '%' && "%la16"@[1] == 'l' && "%la16"@[2] == 'a' && "%la16"@[3] == '1' && "%la16"@[4] == '6',
        "%lb8"@.len() == 4 && "%lb8"@[0] == '%' && "%lb8"@[1] == 'l' && "%lb8"@[2] == 'b' && "%lb8"@[3] == '8',
        "%phaseA"@.len() == 7 && "%phaseA"@[0] == '%' && "%phaseA"@[1] == 'p' && "%phaseA"@[2] == 'h' && "%phaseA"@[3] == 'a' && "%phaseA"@[4] == 's' && "%phaseA"@[5] == 'e' && "%phaseA"@[6] == 'A',
        "%phaseB"@.len() == 7 && "%phaseB"@[0] == '%' && "%phaseB"@[1] == 'p' && "%phaseB"@[2] == 'h' && "%phaseB"@[3] == 'a' && "%phaseB"@[4] == 's' && "%phaseB"@[5] == 'e' && "%phaseB"@[6] == 'B',
        "%tmp"@.len() == 4 && "%tmp"@[0] == '%' && "%tmp"@[1] == 't' && "%tmp"@[2] == 'm' && "%tmp"@[3] == 'p',
        "%warpMrow"@.len() == 9 && "%warpMrow"@[0] == '%' && "%warpMrow"@[1] == 'w' && "%warpMrow"@[2] == 'a' && "%warpMrow"@[3] == 'r' && "%warpMrow"@[4] == 'p' && "%warpMrow"@[5] == 'M' && "%warpMrow"@[6] == 'r' && "%warpMrow"@[7] == 'o' && "%warpMrow"@[8] == 'w',
        "%warpNcol"@.len() == 9 && "%warpNcol"@[0] == '%' && "%warpNcol"@[1] == 'w' && "%warpNcol"@[2] == 'a' && "%warpNcol"@[3] == 'r' && "%warpNcol"@[4] == 'p' && "%warpNcol"@[5] == 'N' && "%warpNcol"@[6] == 'c' && "%warpNcol"@[7] == 'o' && "%warpNcol"@[8] == 'l',
        "%laneoff"@.len() == 8 && "%laneoff"@[0] == '%' && "%laneoff"@[1] == 'l' && "%laneoff"@[2] == 'a' && "%laneoff"@[3] == 'n' && "%laneoff"@[4] == 'e' && "%laneoff"@[5] == 'o' && "%laneoff"@[6] == 'f' && "%laneoff"@[7] == 'f',
{
    reveal_strlit("%aptr");
    reveal_strlit("%bptr");
    reveal_strlit("%bufcA");
    reveal_strlit("%arowb");
    reveal_strlit("%browb");
    reveal_strlit("%swztmp");
    reveal_strlit("%la16");
    reveal_strlit("%lb8");
    reveal_strlit("%phaseA");
    reveal_strlit("%phaseB");
    reveal_strlit("%tmp");
    reveal_strlit("%warpMrow");
    reveal_strlit("%warpNcol");
    reveal_strlit("%laneoff");
}

/// The operations that read shared memory are recorded.
proof fn lemma_reads()
    ensures
        machine::kind("ldmatrix.sync.aligned.m8n8.x4.shared.b16"@) == Kind::Other,
        machine::kind("ldmatrix.sync.aligned.m8n8.x2.shared.b16"@) == Kind::Other,
        machine::kind("ld.shared.b32"@) == Kind::Other,
{
    machine::lemma_integer_operations();
    machine::lemma_float_operations();
    reveal_strlit("ldmatrix.sync.aligned.m8n8.x4.shared.b16");
    reveal_strlit("ldmatrix.sync.aligned.m8n8.x2.shared.b16");
    reveal_strlit("ld.shared.b32");
    assert("ldmatrix.sync.aligned.m8n8.x4.shared.b16"@.len() == 40);
    assert("ldmatrix.sync.aligned.m8n8.x2.shared.b16"@.len() == 40);
    assert("ld.shared.b32"@.len() == 13 && "ld.shared.b32"@[3] == 's' && "ld.shared.b32"@[0] == 'l');
}

/// Whether a text can be the name of a buffer or of a register.
pub open spec fn symbol(s: Seq<char>) -> bool {
    operand(s) && !machine::numeral(s)
}

/// The address `off` bytes into a buffer, in a register.
pub proof fn lemma_base(m: Machine, reg: Seq<char>, sym: Seq<char>, off: nat)
    requires
        symbol(sym),
        symbol(reg),
    ensures
        ({
            let t = mma::base(reg, sym, off);
            let e = m.through(t);
            &&& machine::reads(t, machine::program(t))
            &&& t.len() > 0 && t.last() == '\n'
            &&& (e.held)(reg) == (m.held)(sym) + off
            &&& forall|r: Seq<char>| r != reg ==> #[trigger] (e.held)(r) == (m.held)(r)
            &&& e.trace == m.trace
        }),
{
    machine::lemma_kinds();
    reveal_with_fuel(Machine::run, 3);
    let t = mma::base(reg, sym, off);
    if off == 0 {
        addresses::lemma_mma_base(seq![reg, sym]);
    } else {
        machine::lemma_number(off);
        addresses::lemma_mma_base_behind(seq![reg, sym, text::dec(off)]);
    }
    machine::lemma_some_text(t, machine::program(t));
}

/// The chunk of a row, exchanged by the phase of the row: `x` and `y` say which chunk it is.
pub open spec fn exchanged(x: int, y: int, phase: int) -> int {
    machine::result(Kind::Xor, machine::result(Kind::Or, x, y), phase)
}

/// The address in the register, where a text begins with it.
proof fn lemma_begin(m: Machine, t: Seq<char>, p: Seq<machine::Insn>, q: Seq<machine::Insn>, b: Seq<char>)
    requires
        machine::reads(t, p + q),
        machine::reads(b, p),
    ensures
        m.through(t) == m.through(b).run(q, q.len()),
{
    m.lemma_run_add(p, q, q.len());
}

/// Where the lane begins to read A, with swizzled rows.
#[verifier::rlimit(40)]
proof fn lemma_a_swizzled(m: Machine, sym: Seq<char>, ks: nat)
    requires
        symbol(sym),
    ensures
        ({
            let b = mma::base("%aptr"@, sym, 0);
            let t = text::fill(mma::A_SWIZZLED@, seq![b, text::dec(ks * 2)]);
            let e = m.through(t);
            &&& t.len() > 0 && t.last() == '\n'
            &&& (e.held)("%aptr"@) == (m.held)(sym) + (m.held)("%bufcA"@) + (m.held)("%arowb"@)
            &&& (e.held)("%swztmp"@) == 16 * exchanged(
                (m.held)("%la16"@),
                (ks * 2) as int,
                (m.held)("%phaseA"@),
            )
            &&& e.trace == m.trace
        }),
{
    lemma_registers();
    lemma2_to64();
    machine::lemma_numbers();
    let b = mma::base("%aptr"@, sym, 0);
    assert(symbol("%aptr"@)) by {
        reveal_strlit("%aptr");
    }
    lemma_base(m, "%aptr"@, sym, 0);
    let args = seq![b, text::dec(ks * 2)];
    machine::lemma_number(ks * 2);
    let p = machine::program(b);
    addresses::lemma_mma_a_swizzled(args, p);
    machine::lemma_kinds();
    let t = text::fill(mma::A_SWIZZLED@, args);
    let q = machine::program(t).skip(p.len() as int);
    assert(machine::program(t) =~= p + q);
    assert(q.len() == 5);
    machine::lemma_some_text(t, machine::program(t));
    lemma_begin(m, t, p, q, b);
    let m0 = m.through(b);
    reveal_with_fuel(Machine::run, 6);
    assert(m0.run(q, 5) == m.through(t));
}

/// What the load of fragment `i` of A is given.
pub open spec fn a_load(i: nat, at: int) -> Event {
    Event {
        op: "ldmatrix.sync.aligned.m8n8.x4.shared.b16"@,
        given: seq![
            Given::Name("{%a"@ + text::dec(i) + "_0"@),
            Given::Name("%a"@ + text::dec(i) + "_1"@),
            Given::Name("%a"@ + text::dec(i) + "_2"@),
            Given::Name("%a"@ + text::dec(i) + "_3}"@),
            Given::Place(at),
        ],
    }
}

/// One load of A from swizzled rows.
#[verifier::rlimit(40)]
proof fn lemma_load_a_swizzled(m: Machine, i: nat, step: nat)
    ensures
        ({
            let t = text::fill(
                mma::LOAD_A_SWIZZLED@,
                seq![text::dec(i), text::dec(i * step)] + Seq::<Seq<char>>::empty(),
            );
            let e = m.through(t);
            &&& t.len() > 0 && t.last() == '\n'
            &&& (e.held)("%aptr"@) == (m.held)("%aptr"@)
            &&& (e.held)("%swztmp"@) == (m.held)("%swztmp"@)
            &&& e.trace == m.trace.push(
                a_load(i, (m.held)("%aptr"@) + (m.held)("%swztmp"@) + i * step),
            )
        }),
{
    let args = seq![text::dec(i), text::dec(i * step)] + Seq::<Seq<char>>::empty();
    machine::lemma_number(i);
    machine::lemma_number(i * step);
    addresses::lemma_mma_load_a_swizzled(args);
    machine::lemma_kinds();
    lemma_reads();
    lemma_registers();
    reveal_strlit("{%a");
    reveal_strlit("%a");
    reveal_strlit("_0");
    reveal_strlit("_1");
    reveal_strlit("_2");
    reveal_strlit("_3}");
    reveal_strlit("[%tmp]");
    let t = text::fill(mma::LOAD_A_SWIZZLED@, args);
    let p = machine::program(t);
    machine::lemma_some_text(t, p);
    let m1 = m.after(p[0]);
    let m2 = m1.after(p[1]);
    let m3 = m2.after(p[2]);
    reveal_with_fuel(Machine::run, 2);
    assert(m.run(p, 1) == m1);
    assert(m.run(p, 2) == m2);
    assert(m.run(p, 3) == m3);
    assert("[%tmp]"@ =~= seq!['['] + "%tmp"@ + seq![']']);
    machine::lemma_address(m2, "[%tmp]"@, "%tmp"@);
    let given = Seq::new(p[2].args.len(), |j: int| m2.given(p[2].args[j]));
    let ev = a_load(i, (m.held)("%aptr"@) + (m.held)("%swztmp"@) + i * step);
    assert(given =~= ev.given);
}

/// All loads of A from swizzled rows.
proof fn lemma_loads_a_swizzled(m: Machine, n: nat, step: nat)
    ensures
        ({
            let t = text::each(mma::LOAD_A_SWIZZLED@, n, step, Seq::<Seq<char>>::empty());
            let e = m.through(t);
            let at = m.trace.len() as int;
            &&& t.len() == 0 || t.last() == '\n'
            &&& (e.held)("%aptr"@) == (m.held)("%aptr"@)
            &&& (e.held)("%swztmp"@) == (m.held)("%swztmp"@)
            &&& e.trace.len() == at + n
            &&& e.trace.take(at) == m.trace
            &&& forall|i: nat|
                i < n ==> #[trigger] e.trace[at + i] == a_load(
                    i,
                    (m.held)("%aptr"@) + (m.held)("%swztmp"@) + i * step,
                )
        }),
    decreases n,
{
    reveal(text::each);
    machine::lemma_reads_nothing();
    let more = Seq::<Seq<char>>::empty();
    let at = m.trace.len() as int;
    if n == 0 {
        assert(text::each(mma::LOAD_A_SWIZZLED@, n, step, more) =~= Seq::<char>::empty());
        assert(m.trace.take(at) =~= m.trace);
    } else {
        let last = (n - 1) as nat;
        lemma_loads_a_swizzled(m, last, step);
        let before = text::each(mma::LOAD_A_SWIZZLED@, last, step, more);
        let now = text::fill(
            mma::LOAD_A_SWIZZLED@,
            seq![text::dec(last), text::dec(last * step)] + more,
        );
        m.lemma_through_add(before, now);
        let mid = m.through(before);
        lemma_load_a_swizzled(mid, last, step);
        let e = mid.through(now);
        assert((before + now).last() == now.last());
        assert(e.trace.take(at) =~= mid.trace.take(at));
        assert forall|i: nat| i < n implies #[trigger] e.trace[at + i] == a_load(
            i,
            (m.held)("%aptr"@) + (m.held)("%swztmp"@) + i * step,
        ) by {
            if i < last {
                assert(e.trace[at + i] == mid.trace[at + i]);
            }
        }
    }
}

/// The fragments of A of one column step are read from swizzled rows in order: fragment `i` from
/// 16 times `i` rows below the lane's row, from the chunk of the column step as its row's phase
/// exchanges it, in the stage in use.
pub proof fn law_a_fragments_are_read_from_their_rows(
    m: Machine,
    s: mma::MmaShape,
    sym: Seq<char>, ks: nat,
    i: nat,
)
    requires
        s.swz,
        symbol(sym),
        i < s.tm(),
    ensures
        ({
            let e = m.through(s.load_a(sym, ks));
            let row = (m.held)("%arowb"@) + 16 * i * (2 * s.ldp());
            let chunk = exchanged((m.held)("%la16"@), (ks * 2) as int, (m.held)("%phaseA"@));
            &&& e.trace.len() == m.trace.len() + s.tm()
            &&& e.trace[m.trace.len() as int + i] == a_load(
                i,
                (m.held)(sym) + (m.held)("%bufcA"@) + row + 16 * chunk,
            )
        }),
{
    let b = mma::base("%aptr"@, sym, 0);
    let first = text::fill(mma::A_SWIZZLED@, seq![b, text::dec(ks * 2)]);
    let step = 32 * s.ldp();
    let n = s.tm();
    lemma_a_swizzled(m, sym, ks);
    let mid = m.through(first);
    let rest = text::each(mma::LOAD_A_SWIZZLED@, n, step, Seq::<Seq<char>>::empty());
    m.lemma_through_add(first, rest);
    lemma_loads_a_swizzled(mid, n, step);
    let e = mid.through(rest);
    assert(e.trace[mid.trace.len() as int + i] == a_load(
        i,
        (mid.held)("%aptr"@) + (mid.held)("%swztmp"@) + i * step,
    ));
    assert(i * step == 16 * i * (2 * s.ldp())) by (nonlinear_arith)
        requires
            step == 32 * s.ldp(),
    ;
}

/// Where the lane begins to read B, with swizzled rows.
#[verifier::rlimit(40)]
proof fn lemma_b_swizzled(m: Machine, sym: Seq<char>, off: nat, at: Seq<char>, ks: nat)
    requires
        symbol(sym),
        symbol(at),
        at != "%bptr"@,
    ensures
        ({
            let b = mma::base("%bptr"@, sym, off);
            let t = text::fill(mma::B_SWIZZLED@, seq![b, text::dec(ks * 2), at]);
            let e = m.through(t);
            &&& t.len() > 0 && t.last() == '\n'
            &&& (e.held)("%bptr"@) == (m.held)(sym) + off + (m.held)(at) + (m.held)("%browb"@)
            &&& (e.held)("%swztmp"@) == 16 * exchanged(
                (m.held)("%lb8"@),
                (ks * 2) as int,
                (m.held)("%phaseB"@),
            )
            &&& e.trace == m.trace
        }),
{
    lemma_registers();
    lemma2_to64();
    machine::lemma_numbers();
    let b = mma::base("%bptr"@, sym, off);
    assert(symbol("%bptr"@)) by {
        reveal_strlit("%bptr");
    }
    lemma_base(m, "%bptr"@, sym, off);
    let args = seq![b, text::dec(ks * 2), at];
    machine::lemma_number(ks * 2);
    let p = machine::program(b);
    addresses::lemma_mma_b_swizzled(args, p);
    machine::lemma_kinds();
    let t = text::fill(mma::B_SWIZZLED@, args);
    let q = machine::program(t).skip(p.len() as int);
    assert(machine::program(t) =~= p + q);
    assert(q.len() == 5);
    machine::lemma_some_text(t, machine::program(t));
    lemma_begin(m, t, p, q, b);
    let m0 = m.through(b);
    reveal_with_fuel(Machine::run, 6);
    assert(m0.run(q, 5) == m.through(t));
}

/// What the load of fragment `i` of B is given.
pub open spec fn b_load(i: nat, at: int, which: Seq<char>) -> Event {
    Event {
        op: "ldmatrix.sync.aligned.m8n8.x2.shared.b16"@,
        given: seq![
            Given::Name("{%"@ + which + text::dec(i) + "_0"@),
            Given::Name("%"@ + which + text::dec(i) + "_1}"@),
            Given::Place(at),
        ],
    }
}

/// One load of B from swizzled rows.
#[verifier::rlimit(40)]
proof fn lemma_load_b_swizzled(m: Machine, i: nat, step: nat, which: Seq<char>)
    requires
        operand(which),
    ensures
        ({
            let t = text::fill(
                mma::LOAD_B_SWIZZLED@,
                seq![text::dec(i), text::dec(i * step)] + seq![which],
            );
            let e = m.through(t);
            &&& t.len() > 0 && t.last() == '\n'
            &&& (e.held)("%bptr"@) == (m.held)("%bptr"@)
            &&& (e.held)("%swztmp"@) == (m.held)("%swztmp"@)
            &&& e.trace == m.trace.push(
                b_load(i, (m.held)("%bptr"@) + (m.held)("%swztmp"@) + i * step, which),
            )
        }),
{
    let args = seq![text::dec(i), text::dec(i * step)] + seq![which];
    machine::lemma_number(i);
    machine::lemma_number(i * step);
    addresses::lemma_mma_load_b_swizzled(args);
    machine::lemma_kinds();
    lemma_reads();
    lemma_registers();
    reveal_strlit("{%");
    reveal_strlit("%");
    reveal_strlit("_0");
    reveal_strlit("_1}");
    reveal_strlit("[%tmp]");
    let t = text::fill(mma::LOAD_B_SWIZZLED@, args);
    let p = machine::program(t);
    machine::lemma_some_text(t, p);
    let m1 = m.after(p[0]);
    let m2 = m1.after(p[1]);
    let m3 = m2.after(p[2]);
    reveal_with_fuel(Machine::run, 2);
    assert(m.run(p, 1) == m1);
    assert(m.run(p, 2) == m2);
    assert(m.run(p, 3) == m3);
    assert("[%tmp]"@ =~= seq!['['] + "%tmp"@ + seq![']']);
    machine::lemma_address(m2, "[%tmp]"@, "%tmp"@);
    let given = Seq::new(p[2].args.len(), |j: int| m2.given(p[2].args[j]));
    let ev = b_load(i, (m.held)("%bptr"@) + (m.held)("%swztmp"@) + i * step, which);
    assert(given =~= ev.given);
}

/// All loads of B from swizzled rows.
proof fn lemma_loads_b_swizzled(m: Machine, n: nat, step: nat, which: Seq<char>)
    requires
        operand(which),
    ensures
        ({
            let t = text::each(mma::LOAD_B_SWIZZLED@, n, step, seq![which]);
            let e = m.through(t);
            let at = m.trace.len() as int;
            &&& t.len() == 0 || t.last() == '\n'
            &&& (e.held)("%bptr"@) == (m.held)("%bptr"@)
            &&& (e.held)("%swztmp"@) == (m.held)("%swztmp"@)
            &&& e.trace.len() == at + n
            &&& e.trace.take(at) == m.trace
            &&& forall|i: nat|
                i < n ==> #[trigger] e.trace[at + i] == b_load(
                    i,
                    (m.held)("%bptr"@) + (m.held)("%swztmp"@) + i * step, which,
                )
        }),
    decreases n,
{
    reveal(text::each);
    machine::lemma_reads_nothing();
    let more = seq![which];
    let at = m.trace.len() as int;
    if n == 0 {
        assert(text::each(mma::LOAD_B_SWIZZLED@, n, step, more) =~= Seq::<char>::empty());
        assert(m.trace.take(at) =~= m.trace);
    } else {
        let last = (n - 1) as nat;
        lemma_loads_b_swizzled(m, last, step, which);
        let before = text::each(mma::LOAD_B_SWIZZLED@, last, step, more);
        let now = text::fill(
            mma::LOAD_B_SWIZZLED@,
            seq![text::dec(last), text::dec(last * step)] + more,
        );
        m.lemma_through_add(before, now);
        let mid = m.through(before);
        lemma_load_b_swizzled(mid, last, step, which);
        let e = mid.through(now);
        assert((before + now).last() == now.last());
        assert(e.trace.take(at) =~= mid.trace.take(at));
        assert forall|i: nat| i < n implies #[trigger] e.trace[at + i] == b_load(
            i,
            (m.held)("%bptr"@) + (m.held)("%swztmp"@) + i * step, which,
        ) by {
            if i < last {
                assert(e.trace[at + i] == mid.trace[at + i]);
            }
        }
    }
}

/// The fragments of B of one column step are read from swizzled rows in order: fragment `i` from
/// 8 times `i` rows below the lane's row, from the chunk of the column step as its row's phase
/// exchanges it, in the stage in use.
pub proof fn law_b_fragments_are_read_from_their_rows(
    m: Machine,
    s: mma::MmaShape,
    which: Seq<char>, sym: Seq<char>, off: nat, at: Seq<char>, ks: nat,
    i: nat,
)
    requires
        s.swz,
        symbol(sym),
        operand(which),
        symbol(at),
        at != "%bptr"@,
        i < s.tn(),
    ensures
        ({
            let e = m.through(s.load_b(which, sym, off, at, ks));
            let row = (m.held)("%browb"@) + 8 * i * (2 * s.ldp());
            let chunk = exchanged((m.held)("%lb8"@), (ks * 2) as int, (m.held)("%phaseB"@));
            &&& e.trace.len() == m.trace.len() + s.tn()
            &&& e.trace[m.trace.len() as int + i] == b_load(
                i,
                (m.held)(sym) + off + (m.held)(at) + row + 16 * chunk, which,
            )
        }),
{
    let b = mma::base("%bptr"@, sym, off);
    let first = text::fill(mma::B_SWIZZLED@, seq![b, text::dec(ks * 2), at]);
    let step = 16 * s.ldp();
    let n = s.tn();
    lemma_b_swizzled(m, sym, off, at, ks);
    let mid = m.through(first);
    let rest = text::each(mma::LOAD_B_SWIZZLED@, n, step, seq![which]);
    m.lemma_through_add(first, rest);
    lemma_loads_b_swizzled(mid, n, step, which);
    let e = mid.through(rest);
    assert(e.trace[mid.trace.len() as int + i] == b_load(
        i,
        (mid.held)("%bptr"@) + (mid.held)("%swztmp"@) + i * step, which,
    ));
    assert(i * step == 8 * i * (2 * s.ldp())) by (nonlinear_arith)
        requires
            step == 16 * s.ldp(),
    ;
}

/// The load of one register of a fragment.
pub open spec fn part(reg: Seq<char>, at: int) -> Event {
    Event { op: "ld.shared.b32"@, given: seq![Given::Name(reg), Given::Place(at)] }
}

/// The number of a fragment.
pub open spec fn here(i: nat) -> nat {
    i
}

/// Where the lane begins to read A, with padded rows.
#[verifier::rlimit(40)]
proof fn lemma_a_padded(m: Machine, s: mma::MmaShape, sym: Seq<char>, ks: nat)
    requires
        symbol(sym),
    ensures
        ({
            let b = mma::base("%aptr"@, sym, 0);
            let t = text::fill(mma::A_PADDED@, seq![b, text::dec(ks * 32), text::dec(s.ldp())]);
            let e = m.through(t);
            &&& t.len() > 0 && t.last() == '\n'
            &&& (e.held)("%aptr"@) == (m.held)(sym) + (m.held)("%bufcA"@) + 2 * ((m.held)("%warpMrow"@)
                * s.ldp()) + (m.held)("%laneoff"@) + 32 * ks
            &&& e.trace == m.trace
        }),
{
    lemma_registers();
    lemma2_to64();
    machine::lemma_numbers();
    let b = mma::base("%aptr"@, sym, 0);
    assert(symbol("%aptr"@)) by {
        reveal_strlit("%aptr");
    }
    lemma_base(m, "%aptr"@, sym, 0);
    let args = seq![b, text::dec(ks * 32), text::dec(s.ldp())];
    machine::lemma_number(ks * 32);
    machine::lemma_number(s.ldp());
    let p = machine::program(b);
    addresses::lemma_mma_a_padded(args, p);
    machine::lemma_kinds();
    let t = text::fill(mma::A_PADDED@, args);
    let q = machine::program(t).skip(p.len() as int);
    assert(machine::program(t) =~= p + q);
    assert(q.len() == 6);
    machine::lemma_some_text(t, machine::program(t));
    lemma_begin(m, t, p, q, b);
    let m0 = m.through(b);
    reveal_with_fuel(Machine::run, 7);
    assert(m0.run(q, 6) == m.through(t));
}

/// The loads of fragment `i` of A from padded rows.
#[verifier::rlimit(40)]
proof fn lemma_load_a_padded(m: Machine, i: nat, at: nat, ldp: nat)
    ensures
        ({
            let t = text::fill(mma::LOAD_A_PADDED@, seq![
                    text::dec(i),
                    text::dec(at),
                    text::dec(at + 16),
                    text::dec(at + 16 * ldp),
                    text::dec(at + 16 * ldp + 16),
                ]);
            let e = m.through(t);
            let p = (m.held)("%aptr"@);
            &&& t.len() > 0 && t.last() == '\n'
            &&& (e.held)("%aptr"@) == p
            &&& e.trace == m.trace + seq![
                part("%a"@ + text::dec(i) + "_0"@, p + at),
                part("%a"@ + text::dec(i) + "_2"@, p + at + 16),
                part("%a"@ + text::dec(i) + "_1"@, p + at + 16 * ldp),
                part("%a"@ + text::dec(i) + "_3"@, p + at + 16 * ldp + 16),
            ]
        }),
{
    let args = seq![
                    text::dec(i),
                    text::dec(at),
                    text::dec(at + 16),
                    text::dec(at + 16 * ldp),
                    text::dec(at + 16 * ldp + 16),
                ];
    machine::lemma_number(i);
    machine::lemma_number(at);
    machine::lemma_number(at + 16);
    machine::lemma_number(at + 16 * ldp);
    machine::lemma_number(at + 16 * ldp + 16);
    addresses::lemma_mma_load_a_padded(args);
    lemma_reads();
    lemma_registers();
    assert(machine::lacks("%aptr"@, '+')) by {
        reveal_strlit("%aptr");
    }
    reveal_strlit("%a");
    reveal_strlit("_0");
    reveal_strlit("_1");
    reveal_strlit("_2");
    reveal_strlit("_3");
    reveal_strlit("[%aptr+");
    reveal_strlit("]");
    let t = text::fill(mma::LOAD_A_PADDED@, args);
    let q = machine::program(t);
    machine::lemma_some_text(t, q);
    let p = (m.held)("%aptr"@);
    reveal_with_fuel(Machine::run, 2);
    let x0 = "[%aptr+"@ + text::dec(at) + "]"@;
    assert(x0 =~= seq!['['] + "%aptr"@ + seq!['+'] + text::dec(at) + seq![']']);
    machine::lemma_address_behind(m, x0, "%aptr"@, text::dec(at));
    let m1 = m.after(q[0]);
    assert(m.run(q, 1) == m1);
    assert(Seq::new(2, |j: int| m.given(q[0].args[j])) =~= part("%a"@ + text::dec(i) + "_0"@, p + at).given);
    let x1 = "[%aptr+"@ + text::dec(at + 16) + "]"@;
    assert(x1 =~= seq!['['] + "%aptr"@ + seq!['+'] + text::dec(at + 16) + seq![']']);
    machine::lemma_address_behind(m1, x1, "%aptr"@, text::dec(at + 16));
    let m2 = m1.after(q[1]);
    assert(m.run(q, 2) == m2);
    assert(Seq::new(2, |j: int| m1.given(q[1].args[j])) =~= part("%a"@ + text::dec(i) + "_2"@, p + at + 16).given);
    let x2 = "[%aptr+"@ + text::dec(at + 16 * ldp) + "]"@;
    assert(x2 =~= seq!['['] + "%aptr"@ + seq!['+'] + text::dec(at + 16 * ldp) + seq![']']);
    machine::lemma_address_behind(m2, x2, "%aptr"@, text::dec(at + 16 * ldp));
    let m3 = m2.after(q[2]);
    assert(m.run(q, 3) == m3);
    assert(Seq::new(2, |j: int| m2.given(q[2].args[j])) =~= part("%a"@ + text::dec(i) + "_1"@, p + at + 16 * ldp).given);
    let x3 = "[%aptr+"@ + text::dec(at + 16 * ldp + 16) + "]"@;
    assert(x3 =~= seq!['['] + "%aptr"@ + seq!['+'] + text::dec(at + 16 * ldp + 16) + seq![']']);
    machine::lemma_address_behind(m3, x3, "%aptr"@, text::dec(at + 16 * ldp + 16));
    let m4 = m3.after(q[3]);
    assert(m.run(q, 4) == m4);
    assert(Seq::new(2, |j: int| m3.given(q[3].args[j])) =~= part("%a"@ + text::dec(i) + "_3"@, p + at + 16 * ldp + 16).given);
    assert(m4.trace =~= m.trace + seq![
                part("%a"@ + text::dec(i) + "_0"@, p + at),
                part("%a"@ + text::dec(i) + "_2"@, p + at + 16),
                part("%a"@ + text::dec(i) + "_1"@, p + at + 16 * ldp),
                part("%a"@ + text::dec(i) + "_3"@, p + at + 16 * ldp + 16),
    ]);
}

/// The loads of the first `n` fragments of A from padded rows.
proof fn lemma_loads_a_padded(m: Machine, s: mma::MmaShape, n: nat)
    ensures
        ({
            let t = s.a_padded(n);
            let e = m.through(t);
            let from = m.trace.len() as int;
            &&& t.len() == 0 || t.last() == '\n'
            &&& (e.held)("%aptr"@) == (m.held)("%aptr"@)
            &&& e.trace.len() == from + 4 * n
            &&& e.trace.take(from) == m.trace
            &&& forall|i: nat|
                i < n ==> a_parts(e.trace, from + 4 * i, #[trigger] here(i), (m.held)("%aptr"@) + i * (32 * s.ldp()), s.ldp())
        }),
    decreases n,
{
    reveal(mma::MmaShape::a_padded);
    machine::lemma_reads_nothing();
    let from = m.trace.len() as int;
    if n == 0 {
        assert(s.a_padded(n) =~= Seq::<char>::empty());
        assert(m.trace.take(from) =~= m.trace);
    } else {
        let last = (n - 1) as nat;
        lemma_loads_a_padded(m, s, last);
        let before = s.a_padded(last);
        let (i, at, ldp) = (last, last * (32 * s.ldp()), s.ldp());
        let now = text::fill(mma::LOAD_A_PADDED@, seq![
                    text::dec(i),
                    text::dec(at),
                    text::dec(at + 16),
                    text::dec(at + 16 * ldp),
                    text::dec(at + 16 * ldp + 16),
                ]);
        assert(s.a_padded(n) == before + now);
        let mid = m.through(before);
        m.lemma_through_add(before, now);
        lemma_load_a_padded(mid, last, at, ldp);
        let e = mid.through(now);
        assert((before + now).last() == now.last());
        assert(e.trace.take(from) =~= mid.trace.take(from));
        assert forall|i: nat| i < n implies a_parts(e.trace, from + 4 * i, #[trigger] here(i), (m.held)("%aptr"@) + i * (32 * s.ldp()), s.ldp()) by {
            if i < last {
                assert(a_parts(mid.trace, from + 4 * i, here(i), (m.held)("%aptr"@) + i * (32 * s.ldp()), s.ldp()));
            }
        }
    }
}

/// Whether the loads from a place of a trace on are those of fragment `i` of A, from an address.
pub open spec fn a_parts(trace: Seq<Event>, from: int, i: nat, at: int, ldp: nat) -> bool {
    &&& trace[from] == part("%a"@ + text::dec(i) + "_0"@, at)
    &&& trace[from + 1] == part("%a"@ + text::dec(i) + "_2"@, at + 16)
    &&& trace[from + 2] == part("%a"@ + text::dec(i) + "_1"@, at + 16 * ldp)
    &&& trace[from + 3] == part("%a"@ + text::dec(i) + "_3"@, at + 16 * ldp + 16)
}

/// The fragments of A of one column step are read from padded rows in order: fragment `i` from
/// 16 times `i` rows below the warp's first row, each pair of numbers from the place of the lane
/// in it, in the stage in use.
pub proof fn law_a_fragments_are_read_from_padded_rows(
    m: Machine,
    s: mma::MmaShape,
    sym: Seq<char>, ks: nat,
    i: nat,
)
    requires
        !s.swz,
        symbol(sym),
        i < s.tm(),
    ensures
        ({
            let e = m.through(s.load_a(sym, ks));
            let row = (m.held)("%warpMrow"@) + 16 * i;
            &&& e.trace.len() == m.trace.len() + 4 * s.tm()
            &&& a_parts(
                e.trace,
                m.trace.len() as int + 4 * i,
                i,
                (m.held)(sym) + (m.held)("%bufcA"@) + 2 * (row * s.ldp()) + (m.held)("%laneoff"@) + 32
                    * ks,
                s.ldp(),
            )
        }),
{
    let b = mma::base("%aptr"@, sym, 0);
    let first = text::fill(mma::A_PADDED@, seq![b, text::dec(ks * 32), text::dec(s.ldp())]);
    let n = s.tm();
    lemma_a_padded(m, s, sym, ks);
    let mid = m.through(first);
    let rest = s.a_padded(n);
    m.lemma_through_add(first, rest);
    lemma_loads_a_padded(mid, s, n);
    assert(here(i) == i);
    let (w, l) = ((m.held)("%warpMrow"@), s.ldp() as int);
    assert(2 * ((w + 16 * i) * l) == 2 * (w * l) + i * (32 * l)) by (nonlinear_arith);
}

/// Where the lane begins to read B, with padded rows.
#[verifier::rlimit(40)]
proof fn lemma_b_padded(m: Machine, s: mma::MmaShape, sym: Seq<char>, off: nat, at: Seq<char>, ks: nat)
    requires
        symbol(sym),
        symbol(at),
        at != "%bptr"@,
        at != "%tmp"@,
    ensures
        ({
            let b = mma::base("%bptr"@, sym, off);
            let t = text::fill(mma::B_PADDED@, seq![b, text::dec(ks * 32), text::dec(s.ldp()), at]);
            let e = m.through(t);
            &&& t.len() > 0 && t.last() == '\n'
            &&& (e.held)("%bptr"@) == (m.held)(sym) + off + (m.held)(at) + 2 * ((m.held)("%warpNcol"@)
                * s.ldp()) + (m.held)("%laneoff"@) + 32 * ks
            &&& e.trace == m.trace
        }),
{
    lemma_registers();
    lemma2_to64();
    machine::lemma_numbers();
    let b = mma::base("%bptr"@, sym, off);
    assert(symbol("%bptr"@)) by {
        reveal_strlit("%bptr");
    }
    lemma_base(m, "%bptr"@, sym, off);
    let args = seq![b, text::dec(ks * 32), text::dec(s.ldp()), at];
    machine::lemma_number(ks * 32);
    machine::lemma_number(s.ldp());
    let p = machine::program(b);
    addresses::lemma_mma_b_padded(args, p);
    machine::lemma_kinds();
    let t = text::fill(mma::B_PADDED@, args);
    let q = machine::program(t).skip(p.len() as int);
    assert(machine::program(t) =~= p + q);
    assert(q.len() == 6);
    machine::lemma_some_text(t, machine::program(t));
    lemma_begin(m, t, p, q, b);
    let m0 = m.through(b);
    reveal_with_fuel(Machine::run, 7);
    assert(m0.run(q, 6) == m.through(t));
}

/// The loads of fragment `i` of B from padded rows.
#[verifier::rlimit(40)]
proof fn lemma_load_b_padded(m: Machine, i: nat, at: nat, ldp: nat, which: Seq<char>)
    requires
        operand(which),
        which.len() > 0,
    ensures
        ({
            let t = text::fill(mma::LOAD_B_PADDED@, seq![text::dec(i), text::dec(at), text::dec(at + 16), which]);
            let e = m.through(t);
            let p = (m.held)("%bptr"@);
            &&& t.len() > 0 && t.last() == '\n'
            &&& (e.held)("%bptr"@) == p
            &&& e.trace == m.trace + seq![
                part("%"@ + which + text::dec(i) + "_0"@, p + at),
                part("%"@ + which + text::dec(i) + "_1"@, p + at + 16),
            ]
        }),
{
    let args = seq![text::dec(i), text::dec(at), text::dec(at + 16), which];
    machine::lemma_number(i);
    machine::lemma_number(at);
    machine::lemma_number(at + 16);
    addresses::lemma_mma_load_b_padded(args);
    lemma_reads();
    lemma_registers();
    assert(machine::lacks("%bptr"@, '+')) by {
        reveal_strlit("%bptr");
    }
    reveal_strlit("%");
    reveal_strlit("_0");
    reveal_strlit("_1");
    reveal_strlit("[%bptr+");
    reveal_strlit("]");
    let t = text::fill(mma::LOAD_B_PADDED@, args);
    let q = machine::program(t);
    machine::lemma_some_text(t, q);
    let p = (m.held)("%bptr"@);
    reveal_with_fuel(Machine::run, 2);
    let x0 = "[%bptr+"@ + text::dec(at) + "]"@;
    assert(x0 =~= seq!['['] + "%bptr"@ + seq!['+'] + text::dec(at) + seq![']']);
    machine::lemma_address_behind(m, x0, "%bptr"@, text::dec(at));
    let m1 = m.after(q[0]);
    assert(m.run(q, 1) == m1);
    assert(Seq::new(2, |j: int| m.given(q[0].args[j])) =~= part("%"@ + which + text::dec(i) + "_0"@, p + at).given);
    let x1 = "[%bptr+"@ + text::dec(at + 16) + "]"@;
    assert(x1 =~= seq!['['] + "%bptr"@ + seq!['+'] + text::dec(at + 16) + seq![']']);
    machine::lemma_address_behind(m1, x1, "%bptr"@, text::dec(at + 16));
    let m2 = m1.after(q[1]);
    assert(m.run(q, 2) == m2);
    assert(Seq::new(2, |j: int| m1.given(q[1].args[j])) =~= part("%"@ + which + text::dec(i) + "_1"@, p + at + 16).given);
    assert(m2.trace =~= m.trace + seq![
                part("%"@ + which + text::dec(i) + "_0"@, p + at),
                part("%"@ + which + text::dec(i) + "_1"@, p + at + 16),
    ]);
}

/// The loads of the first `n` fragments of B from padded rows.
proof fn lemma_loads_b_padded(m: Machine, s: mma::MmaShape, n: nat, which: Seq<char>)
    requires
        operand(which),
        which.len() > 0,
    ensures
        ({
            let t = s.b_padded(which, n);
            let e = m.through(t);
            let from = m.trace.len() as int;
            &&& t.len() == 0 || t.last() == '\n'
            &&& (e.held)("%bptr"@) == (m.held)("%bptr"@)
            &&& e.trace.len() == from + 2 * n
            &&& e.trace.take(from) == m.trace
            &&& forall|i: nat|
                i < n ==> b_parts(e.trace, from + 2 * i, #[trigger] here(i), (m.held)("%bptr"@) + i * (16 * s.ldp()), s.ldp(), which)
        }),
    decreases n,
{
    reveal(mma::MmaShape::b_padded);
    machine::lemma_reads_nothing();
    let from = m.trace.len() as int;
    if n == 0 {
        assert(s.b_padded(which, n) =~= Seq::<char>::empty());
        assert(m.trace.take(from) =~= m.trace);
    } else {
        let last = (n - 1) as nat;
        lemma_loads_b_padded(m, s, last, which);
        let before = s.b_padded(which, last);
        let (i, at, ldp) = (last, last * (16 * s.ldp()), s.ldp());
        let now = text::fill(mma::LOAD_B_PADDED@, seq![text::dec(i), text::dec(at), text::dec(at + 16), which]);
        assert(s.b_padded(which, n) == before + now);
        let mid = m.through(before);
        m.lemma_through_add(before, now);
        lemma_load_b_padded(mid, last, at, ldp, which);
        let e = mid.through(now);
        assert((before + now).last() == now.last());
        assert(e.trace.take(from) =~= mid.trace.take(from));
        assert forall|i: nat| i < n implies b_parts(e.trace, from + 2 * i, #[trigger] here(i), (m.held)("%bptr"@) + i * (16 * s.ldp()), s.ldp(), which) by {
            if i < last {
                assert(b_parts(mid.trace, from + 2 * i, here(i), (m.held)("%bptr"@) + i * (16 * s.ldp()), s.ldp(), which));
            }
        }
    }
}

/// Whether the loads from a place of a trace on are those of fragment `i` of B, from an address.
pub open spec fn b_parts(trace: Seq<Event>, from: int, i: nat, at: int, ldp: nat, which: Seq<char>) -> bool {
    &&& trace[from] == part("%"@ + which + text::dec(i) + "_0"@, at)
    &&& trace[from + 1] == part("%"@ + which + text::dec(i) + "_1"@, at + 16)
}

/// The fragments of B of one column step are read from padded rows in order: fragment `i` from
/// 8 times `i` rows below the warp's first row, each pair of numbers from the place of the lane
/// in it, in the stage in use.
pub proof fn law_b_fragments_are_read_from_padded_rows(
    m: Machine,
    s: mma::MmaShape,
    which: Seq<char>, sym: Seq<char>, off: nat, at: Seq<char>, ks: nat,
    i: nat,
)
    requires
        !s.swz,
        symbol(sym),
        operand(which),
        which.len() > 0,
        symbol(at),
        at != "%bptr"@,
        at != "%tmp"@,
        i < s.tn(),
    ensures
        ({
            let e = m.through(s.load_b(which, sym, off, at, ks));
            let row = (m.held)("%warpNcol"@) + 8 * i;
            &&& e.trace.len() == m.trace.len() + 2 * s.tn()
            &&& b_parts(
                e.trace,
                m.trace.len() as int + 2 * i,
                i,
                (m.held)(sym) + off + (m.held)(at) + 2 * (row * s.ldp()) + (m.held)("%laneoff"@) + 32
                    * ks,
                s.ldp(), which,
            )
        }),
{
    let b = mma::base("%bptr"@, sym, off);
    let first = text::fill(mma::B_PADDED@, seq![b, text::dec(ks * 32), text::dec(s.ldp()), at]);
    let n = s.tn();
    lemma_b_padded(m, s, sym, off, at, ks);
    let mid = m.through(first);
    let rest = s.b_padded(which, n);
    m.lemma_through_add(first, rest);
    lemma_loads_b_padded(mid, s, n, which);
    assert(here(i) == i);
    let (w, l) = ((m.held)("%warpNcol"@), s.ldp() as int);
    assert(2 * ((w + 8 * i) * l) == 2 * (w * l) + i * (16 * l)) by (nonlinear_arith);
}

} // verus!
