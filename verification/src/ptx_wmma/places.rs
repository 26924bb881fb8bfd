//! Where the results of a warp go: what the end of an `mma.sync` kernel computes and stores.
use vstd::prelude::*;

use crate::ptx_wmma::act;
use crate::ptx_wmma::frames;
use crate::ptx_wmma::machine;
use crate::ptx_wmma::machine::{lacks, operand, reads, Insn, Machine, Term};
use crate::ptx_wmma::mma_pipe;
use crate::ptx_wmma::readings;
use crate::text;

verus! {

/// How the registers of integers are spelled.
pub proof fn lemma_registers()
    ensures
        "%grow"@.len() == 5 && "%grow"@[0] == '%' && "%grow"@[1] == 'g' && "%grow"@[2] == 'r' && "%grow"@[3] == 'o' && "%grow"@[4] == 'w',
        "%gcol"@.len() == 5 && "%gcol"@[0] == '%' && "%gcol"@[1] == 'g' && "%gcol"@[2] == 'c' && "%gcol"@[3] == 'o' && "%gcol"@[4] == 'l',
        "%baseRow"@.len() == 8 && "%baseRow"@[0] == '%' && "%baseRow"@[1] == 'b' && "%baseRow"@[2] == 'a' && "%baseRow"@[3] == 's' && "%baseRow"@[4] == 'e' && "%baseRow"@[5] == 'R' && "%baseRow"@[6] == 'o' && "%baseRow"@[7] == 'w',
        "%baseCol"@.len() == 8 && "%baseCol"@[0] == '%' && "%baseCol"@[1] == 'b' && "%baseCol"@[2] == 'a' && "%baseCol"@[3] == 's' && "%baseCol"@[4] == 'e' && "%baseCol"@[5] == 'C' && "%baseCol"@[6] == 'o' && "%baseCol"@[7] == 'l',
        "%warpMrow"@.len() == 9 && "%warpMrow"@[0] == '%' && "%warpMrow"@[1] == 'w' && "%warpMrow"@[2] == 'a' && "%warpMrow"@[3] == 'r' && "%warpMrow"@[4] == 'p' && "%warpMrow"@[5] == 'M' && "%warpMrow"@[6] == 'r' && "%warpMrow"@[7] == 'o' && "%warpMrow"@[8] == 'w',
        "%warpNcol"@.len() == 9 && "%warpNcol"@[0] == '%' && "%warpNcol"@[1] == 'w' && "%warpNcol"@[2] == 'a' && "%warpNcol"@[3] == 'r' && "%warpNcol"@[4] == 'p' && "%warpNcol"@[5] == 'N' && "%warpNcol"@[6] == 'c' && "%warpNcol"@[7] == 'o' && "%warpNcol"@[8] == 'l',
        "%grp"@.len() == 4 && "%grp"@[0] == '%' && "%grp"@[1] == 'g' && "%grp"@[2] == 'r' && "%grp"@[3] == 'p',
        "%tg2"@.len() == 4 && "%tg2"@[0] == '%' && "%tg2"@[1] == 't' && "%tg2"@[2] == 'g' && "%tg2"@[3] == '2',
        "%tmp"@.len() == 4 && "%tmp"@[0] == '%' && "%tmp"@[1] == 't' && "%tmp"@[2] == 'm' && "%tmp"@[3] == 'p',
        "%N"@.len() == 2 && "%N"@[0] == '%' && "%N"@[1] == 'N',
        "%off"@.len() == 4 && "%off"@[0] == '%' && "%off"@[1] == 'o' && "%off"@[2] == 'f' && "%off"@[3] == 'f',
        "%cptr"@.len() == 5 && "%cptr"@[0] == '%' && "%cptr"@[1] == 'c' && "%cptr"@[2] == 'p' && "%cptr"@[3] == 't' && "%cptr"@[4] == 'r',
        "%cptr2"@.len() == 6 && "%cptr2"@[0] == '%' && "%cptr2"@[1] == 'c' && "%cptr2"@[2] == 'p' && "%cptr2"@[3] == 't' && "%cptr2"@[4] == 'r' && "%cptr2"@[5] == '2',
        "%C"@.len() == 2 && "%C"@[0] == '%' && "%C"@[1] == 'C',
        "%Bias"@.len() == 5 && "%Bias"@[0] == '%' && "%Bias"@[1] == 'B' && "%Bias"@[2] == 'i' && "%Bias"@[3] == 'a' && "%Bias"@[4] == 's',
        "%Resid"@.len() == 6 && "%Resid"@[0] == '%' && "%Resid"@[1] == 'R' && "%Resid"@[2] == 'e' && "%Resid"@[3] == 's' && "%Resid"@[4] == 'i' && "%Resid"@[5] == 'd',
{
    reveal_strlit("%grow");
    reveal_strlit("%gcol");
    reveal_strlit("%baseRow");
    reveal_strlit("%baseCol");
    reveal_strlit("%warpMrow");
    reveal_strlit("%warpNcol");
    reveal_strlit("%grp");
    reveal_strlit("%tg2");
    reveal_strlit("%tmp");
    reveal_strlit("%N");
    reveal_strlit("%off");
    reveal_strlit("%cptr");
    reveal_strlit("%cptr2");
    reveal_strlit("%C");
    reveal_strlit("%Bias");
    reveal_strlit("%Resid");
}

/// The row and the column of a sub-tile's first result.
pub proof fn lemma_place(m: Machine, x: nat, y: nat)
    ensures
        ({
            let t = text::fill(mma_pipe::PLACE@, seq![text::dec(x), text::dec(y)]);
            let e = m.through(t);
            &&& t.len() > 0 && t.last() == '\n'
            &&& (e.held)("%grow"@) == (m.held)("%baseRow"@) + (m.held)("%warpMrow"@) + x + (m.held)(
                "%grp"@,
            )
            &&& (e.held)("%gcol"@) == (m.held)("%baseCol"@) + (m.held)("%warpNcol"@) + y + (m.held)(
                "%tg2"@,
            )
            &&& forall|r: Seq<char>|
                r != "%grow"@ && r != "%gcol"@ ==> #[trigger] (e.held)(r) == (m.held)(r)
            &&& e.float == m.float
            &&& e.stores == m.stores
        }),
{
    let args = seq![text::dec(x), text::dec(y)];
    machine::lemma_number(x);
    machine::lemma_number(y);
    readings::lemma_mma_pipe_place(args);
    machine::lemma_kinds();
    lemma_registers();
    reveal_with_fuel(Machine::run, 7);
    let t = text::fill(mma_pipe::PLACE@, args);
    machine::lemma_some_text(t, machine::program(t));
}

/// How the registers of floating-point numbers are spelled.
proof fn lemma_float_registers()
    ensures
        "%biasv0"@.len() == 7 && "%biasv0"@[0] == '%' && "%biasv0"@[1] == 'b' && "%biasv0"@[2] == 'i' && "%biasv0"@[3] == 'a' && "%biasv0"@[4] == 's' && "%biasv0"@[5] == 'v' && "%biasv0"@[6] == '0',
        "%biasv1"@.len() == 7 && "%biasv1"@[0] == '%' && "%biasv1"@[1] == 'b' && "%biasv1"@[2] == 'i' && "%biasv1"@[3] == 'a' && "%biasv1"@[4] == 's' && "%biasv1"@[5] == 'v' && "%biasv1"@[6] == '1',
        "%resv0"@.len() == 6 && "%resv0"@[0] == '%' && "%resv0"@[1] == 'r' && "%resv0"@[2] == 'e' && "%resv0"@[3] == 's' && "%resv0"@[4] == 'v' && "%resv0"@[5] == '0',
        "%resv1"@.len() == 6 && "%resv1"@[0] == '%' && "%resv1"@[1] == 'r' && "%resv1"@[2] == 'e' && "%resv1"@[3] == 's' && "%resv1"@[4] == 'v' && "%resv1"@[5] == '1',
        "%act0"@.len() == 5 && "%act0"@[0] == '%' && "%act0"@[1] == 'a' && "%act0"@[2] == 'c' && "%act0"@[3] == 't' && "%act0"@[4] == '0',
        "%act1"@.len() == 5 && "%act1"@[0] == '%' && "%act1"@[1] == 'a' && "%act1"@[2] == 'c' && "%act1"@[3] == 't' && "%act1"@[4] == '1',
{
    reveal_strlit("%biasv0");
    reveal_strlit("%biasv1");
    reveal_strlit("%resv0");
    reveal_strlit("%resv1");
    reveal_strlit("%act0");
    reveal_strlit("%act1");
}

/// Whether a register is one that the end of a kernel computes addresses in.
pub open spec fn scratch(r: Seq<char>) -> bool {
    r == "%grow"@ || r == "%gcol"@ || r == "%tmp"@ || r == "%off"@ || r == "%cptr"@ || r
        == "%cptr2"@
}

/// Whether no other register of integers has changed.
pub open spec fn steady(m: Machine, e: Machine) -> bool {
    forall|r: Seq<char>| !scratch(r) ==> #[trigger] (e.held)(r) == (m.held)(r)
}

/// Whether a name can be that of accumulators.
pub open spec fn accumulator(d: Seq<char>) -> bool {
    &&& d.len() >= 2
    &&& d[0] == '%'
    &&& d[1] == 'd'
    &&& operand(d)
}

/// The accumulators of a name.
pub open spec fn acc(d: Seq<char>, k: nat) -> Seq<char> {
    d + text::dec(k)
}

/// The four accumulators of a name end in their digits.
pub proof fn lemma_acc(d: Seq<char>)
    ensures
        acc(d, 0) == d + "0"@,
        acc(d, 1) == d + "1"@,
        acc(d, 2) == d + "2"@,
        acc(d, 3) == d + "3"@,
        acc(d, 0).last() == '0',
        acc(d, 1).last() == '1',
        acc(d, 2).last() == '2',
        acc(d, 3).last() == '3',
        acc(d, 0).len() == d.len() + 1,
        acc(d, 1).len() == d.len() + 1,
        acc(d, 2).len() == d.len() + 1,
        acc(d, 3).len() == d.len() + 1,
        accumulator(d) ==> accumulator(acc(d, 0)) && accumulator(acc(d, 1)) && accumulator(
            acc(d, 2),
        ) && accumulator(acc(d, 3)),
{
    reveal(text::dec);
    reveal_strlit("0");
    reveal_strlit("1");
    reveal_strlit("2");
    reveal_strlit("3");
    assert(text::dec(0) =~= "0"@);
    assert(text::dec(1) =~= "1"@);
    assert(text::dec(2) =~= "2"@);
    assert(text::dec(3) =~= "3"@);
}

/// `a + b`.
pub open spec fn plus(a: Term, b: Term) -> Term {
    Term::Two("add.f32"@, Box::new(a), Box::new(b))
}

/// `a b`.
pub open spec fn times(a: Term, b: Term) -> Term {
    Term::Two("mul.f32"@, Box::new(a), Box::new(b))
}

/// The bias of a column is added to its results.
#[verifier::rlimit(40)]
proof fn lemma_bias(m: Machine, d: Seq<char>)
    requires
        accumulator(d),
    ensures
        ({
            let t = text::fill(mma_pipe::ADD_BIAS@, seq![d]);
            let e = m.through(t);
            let at = (m.held)("%Bias"@) + 4 * (m.held)("%gcol"@);
            &&& t.len() > 0 && t.last() == '\n'
            &&& steady(m, e)
            &&& (e.held)("%grow"@) == (m.held)("%grow"@)
            &&& (e.held)("%gcol"@) == (m.held)("%gcol"@)
            &&& e.stores == m.stores
            &&& (e.float)(acc(d, 0)) == plus((m.float)(acc(d, 0)), Term::At(at))
            &&& (e.float)(acc(d, 1)) == plus((m.float)(acc(d, 1)), Term::At(at + 4))
            &&& (e.float)(acc(d, 2)) == plus((m.float)(acc(d, 2)), Term::At(at))
            &&& (e.float)(acc(d, 3)) == plus((m.float)(acc(d, 3)), Term::At(at + 4))
            &&& forall|r: Seq<char>|
                accumulator(r) && r != acc(d, 0) && r != acc(d, 1) && r != acc(d, 2) && r != acc(
                    d,
                    3,
                ) ==> #[trigger] (e.float)(r) == (m.float)(r)
        }),
{
    let args = seq![d];
    readings::lemma_mma_pipe_add_bias(args);
    machine::lemma_kinds();
    machine::lemma_float_kinds();
    machine::lemma_numbers();
    lemma_registers();
    lemma_float_registers();
    lemma_acc(d);
    lemma_brackets();
    let t = text::fill(mma_pipe::ADD_BIAS@, args);
    machine::lemma_some_text(t, machine::program(t));
    let p = machine::program(t);
    reveal_with_fuel(Machine::run, 3);
    let m2 = m.run(p, 2);
    machine::lemma_address(m2, "[%cptr]"@, "%cptr"@);
    let m3 = m2.after(p[2]);
    machine::lemma_address_behind(m3, "[%cptr+4]"@, "%cptr"@, "4"@);
    let m4 = m3.after(p[3]);
    let m5 = m4.after(p[4]);
    let m6 = m5.after(p[5]);
    let m7 = m6.after(p[6]);
    let m8 = m7.after(p[7]);
    assert(m.run(p, 3) == m3);
    assert(m.run(p, 4) == m4);
    assert(m.run(p, 5) == m5);
    assert(m.run(p, 6) == m6);
    assert(m.run(p, 7) == m7);
    assert(m.run(p, 8) == m8);
    assert(m.through(t) == m8);
}

/// How addresses are spelled.
pub proof fn lemma_brackets()
    ensures
        "[%cptr]"@ == seq!['['] + "%cptr"@ + seq![']'],
        "[%cptr2]"@ == seq!['['] + "%cptr2"@ + seq![']'],
        "[%cptr+4]"@ == seq!['['] + "%cptr"@ + seq!['+'] + "4"@ + seq![']'],
        "[%cptr2+4]"@ == seq!['['] + "%cptr2"@ + seq!['+'] + "4"@ + seq![']'],
        lacks("%cptr"@, '+') && operand("%cptr"@),
        lacks("%cptr2"@, '+') && operand("%cptr2"@),
        lacks("4"@, '+'),
{
    reveal_strlit("[%cptr]");
    reveal_strlit("[%cptr2]");
    reveal_strlit("[%cptr+4]");
    reveal_strlit("[%cptr2+4]");
    reveal_strlit("%cptr");
    reveal_strlit("%cptr2");
    reveal_strlit("4");
    assert("[%cptr]"@ =~= seq!['['] + "%cptr"@ + seq![']']);
    assert("[%cptr2]"@ =~= seq!['['] + "%cptr2"@ + seq![']']);
    assert("[%cptr+4]"@ =~= seq!['['] + "%cptr"@ + seq!['+'] + "4"@ + seq![']']);
    assert("[%cptr2+4]"@ =~= seq!['['] + "%cptr2"@ + seq!['+'] + "4"@ + seq![']']);
}

/// `max(x, 0)`.
pub open spec fn relu(x: Term) -> Term {
    Term::Two("max.f32"@, Box::new(x), Box::new(Term::Start("0f00000000"@)))
}

/// `x / (1 + 2^(-x log2 e))`.
pub open spec fn silu(x: Term) -> Term {
    let power = Term::One(
        "ex2.approx.f32"@,
        Box::new(times(x, Term::Start("0fBFB8AA3B"@))),
    );
    times(
        x,
        Term::One("rcp.approx.f32"@, Box::new(plus(power, Term::Start("0f3F800000"@)))),
    )
}

/// `(1 + tanh(sqrt(2/pi) (0.044715 x^3 + x))) x/2`.
pub open spec fn gelu(x: Term) -> Term {
    let cube = times(times(x, x), x);
    let inner = Term::Three(
        "fma.rn.f32"@,
        Box::new(cube),
        Box::new(Term::Start("0f3D372713"@)),
        Box::new(x),
    );
    let tanh = Term::One(
        "tanh.approx.f32"@,
        Box::new(times(inner, Term::Start("0f3F4C4229"@))),
    );
    times(
        plus(tanh, Term::Start("0f3F800000"@)),
        times(x, Term::Start("0f3F000000"@)),
    )
}

/// An activation of a number.
pub open spec fn activated(a: act::Act, x: Term) -> Term {
    match a {
        act::Act::Identity => x,
        act::Act::Relu => relu(x),
        act::Act::Silu => silu(x),
        act::Act::Gelu => gelu(x),
    }
}

/// The constants are no registers.
proof fn lemma_constants()
    ensures
        "0f00000000"@.len() > 0 && "0f00000000"@[0] == '0',
        "0fBFB8AA3B"@.len() > 0 && "0fBFB8AA3B"@[0] == '0',
        "0f3F800000"@.len() > 0 && "0f3F800000"@[0] == '0',
        "0f3D372713"@.len() > 0 && "0f3D372713"@[0] == '0',
        "0f3F4C4229"@.len() > 0 && "0f3F4C4229"@[0] == '0',
        "0f3F000000"@.len() > 0 && "0f3F000000"@[0] == '0',
{
    reveal_strlit("0f00000000");
    reveal_strlit("0fBFB8AA3B");
    reveal_strlit("0f3F800000");
    reveal_strlit("0f3D372713");
    reveal_strlit("0f3F4C4229");
    reveal_strlit("0f3F000000");
}

/// The activation of one register.
#[verifier::rlimit(60)]
proof fn lemma_act(m: Machine, a: act::Act, r: Seq<char>)
    requires
        accumulator(r),
    ensures
        ({
            let t = a.epilogue_text(r);
            let e = m.through(t);
            &&& t.len() == 0 || t.last() == '\n'
            &&& e.held == m.held
            &&& e.stores == m.stores
            &&& (e.float)(r) == activated(a, (m.float)(r))
            &&& forall|s: Seq<char>|
                accumulator(s) && s != r ==> #[trigger] (e.float)(s) == (m.float)(s)
        }),
{
    let args = seq![r];
    let t = a.epilogue_text(r);
    let p = machine::program(t);
    machine::lemma_float_kinds();
    lemma_float_registers();
    lemma_constants();
    match a {
        act::Act::Identity => {
            machine::lemma_reads_nothing();
        },
        act::Act::Relu => {
            readings::lemma_act_relu(args);
            reveal_with_fuel(Machine::run, 2);
        },
        act::Act::Silu => {
            readings::lemma_act_silu(args);
            reveal_with_fuel(Machine::run, 6);
        },
        act::Act::Gelu => {
            readings::lemma_act_gelu(args);
            let m1 = m.after(p[0]);
            let m2 = m1.after(p[1]);
            let m3 = m2.after(p[2]);
            let m4 = m3.after(p[3]);
            let m5 = m4.after(p[4]);
            let m6 = m5.after(p[5]);
            let m7 = m6.after(p[6]);
            let m8 = m7.after(p[7]);
            reveal_with_fuel(Machine::run, 2);
            assert(m.run(p, 1) == m1);
            assert(m.run(p, 2) == m2);
            assert(m.run(p, 3) == m3);
            assert(m.run(p, 4) == m4);
            assert(m.run(p, 5) == m5);
            assert(m.run(p, 6) == m6);
            assert(m.run(p, 7) == m7);
            assert(m.run(p, 8) == m8);
        },
    }
}

/// Two numbers in a list of the accumulators of a name.
pub proof fn lemma_acc_apart(d: Seq<char>, j: nat, k: nat)
    requires
        j != k,
    ensures
        acc(d, j) != acc(d, k),
{
    machine::lemma_number(j);
    machine::lemma_number(k);
    if acc(d, j) == acc(d, k) {
        assert(acc(d, j).skip(d.len() as int) =~= text::dec(j));
        assert(acc(d, k).skip(d.len() as int) =~= text::dec(k));
    }
}

/// The activation of the first `n` accumulators of a name.
pub proof fn lemma_acts(m: Machine, a: act::Act, d: Seq<char>, n: nat)
    requires
        accumulator(d),
    ensures
        ({
            let t = a.epilogues_text(d, n);
            let e = m.through(t);
            &&& t.len() == 0 || t.last() == '\n'
            &&& e.held == m.held
            &&& e.stores == m.stores
            &&& forall|k: nat|
                k < n ==> #[trigger] (e.float)(acc(d, k)) == activated(a, (m.float)(acc(d, k)))
            &&& forall|s: Seq<char>|
                accumulator(s) && (forall|k: nat| k < n ==> s != #[trigger] acc(d, k))
                    ==> #[trigger] (e.float)(s) == (m.float)(s)
        }),
    decreases n,
{
    reveal(act::Act::epilogues_text);
    machine::lemma_reads_nothing();
    if n > 0 {
        let i = (n - 1) as nat;
        let before = a.epilogues_text(d, i);
        let r = acc(d, i);
        let last = a.epilogue_text(text::fill(act::NUMBERED@, seq![d, text::dec(i)]));
        assert(text::fill(act::NUMBERED@, seq![d, text::dec(i)]) == r) by {
            reveal_strlit("#0#1");
            reveal_with_fuel(text::fill, 5);
            let t = act::NUMBERED@;
            assert(t.drop_last().drop_last().drop_last().drop_last().len() == 0);
            assert(text::fill(t, seq![d, text::dec(i)]) =~= r);
        }
        machine::lemma_number(i);
        assert(accumulator(r));
        lemma_acts(m, a, d, i);
        m.lemma_through_add(before, last);
        let e = m.through(before);
        lemma_act(e, a, r);
        let f = e.through(last);
        if last.len() == 0 {
            assert(before + last =~= before);
        } else {
            assert((before + last).last() == last.last());
        }
        assert forall|k: nat| k < n implies #[trigger] (f.float)(acc(d, k)) == activated(
            a,
            (m.float)(acc(d, k)),
        ) by {
            machine::lemma_number(k);
            assert(accumulator(acc(d, k)));
            if k < i {
                lemma_acc_apart(d, k, i);
                assert((e.float)(acc(d, k)) == activated(a, (m.float)(acc(d, k))));
            } else {
                assert forall|j: nat| j < i implies r != #[trigger] acc(d, j) by {
                    lemma_acc_apart(d, i, j);
                }
                assert((e.float)(r) == (m.float)(r));
            }
        }
        assert forall|s: Seq<char>|
            accumulator(s) && (forall|k: nat| k < n ==> s != #[trigger] acc(d, k)) implies #[trigger] (
        f.float)(s) == (m.float)(s) by {
            assert(s != acc(d, i));
            assert((e.float)(s) == (m.float)(s));
        }
    }
}

/// The address of a pair of results, from its row and column.
proof fn lemma_upper(m: Machine)
    ensures
        ({
            let t = mma_pipe::UPPER@;
            let e = m.through(t);
            let at = 4 * ((m.held)("%grow"@) * (m.held)("%N"@) + (m.held)("%gcol"@));
            &&& t.len() > 0 && t.last() == '\n'
            &&& steady(m, e)
            &&& (e.held)("%grow"@) == (m.held)("%grow"@)
            &&& (e.held)("%gcol"@) == (m.held)("%gcol"@)
            &&& (e.held)("%off"@) == at
            &&& (e.held)("%cptr"@) == (m.held)("%C"@) + at
            &&& e.stores == m.stores
            &&& e.float == m.float
        }),
{
    let args = Seq::<Seq<char>>::empty();
    readings::lemma_mma_pipe_upper(args);
    assert(text::fill(mma_pipe::UPPER@, args) == mma_pipe::UPPER@) by {
        reveal_strlit(
            "    mul.lo.s32 %tmp,%grow,%N;\n    add.u32 %tmp,%tmp,%gcol;\n    mul.wide.u32 %off,%tmp,4;\n    add.s64 %cptr,%C,%off;\n",
        );
        frames::lemma_fill_plain(mma_pipe::UPPER@, args);
    }
    machine::lemma_kinds();
    machine::lemma_numbers();
    lemma_registers();
    reveal_with_fuel(Machine::run, 5);
    let t = mma_pipe::UPPER@;
    machine::lemma_some_text(t, machine::program(t));
}

/// The address of the pair of results eight rows below.
proof fn lemma_lower(m: Machine)
    ensures
        ({
            let t = mma_pipe::LOWER@;
            let e = m.through(t);
            let at = 4 * (((m.held)("%grow"@) + 8) * (m.held)("%N"@) + (m.held)("%gcol"@));
            &&& t.len() > 0 && t.last() == '\n'
            &&& steady(m, e)
            &&& (e.held)("%grow"@) == (m.held)("%grow"@)
            &&& (e.held)("%gcol"@) == (m.held)("%gcol"@)
            &&& (e.held)("%off"@) == at
            &&& (e.held)("%cptr2"@) == (m.held)("%C"@) + at
            &&& e.stores == m.stores
            &&& e.float == m.float
        }),
{
    let args = Seq::<Seq<char>>::empty();
    readings::lemma_mma_pipe_lower(args);
    assert(text::fill(mma_pipe::LOWER@, args) == mma_pipe::LOWER@) by {
        reveal_strlit(
            "    add.u32 %tmp,%grow,8;\n    mul.lo.s32 %tmp,%tmp,%N;\n    add.u32 %tmp,%tmp,%gcol;\n    mul.wide.u32 %off,%tmp,4;\n    add.s64 %cptr2,%C,%off;\n",
        );
        frames::lemma_fill_plain(mma_pipe::LOWER@, args);
    }
    machine::lemma_kinds();
    machine::lemma_numbers();
    lemma_registers();
    let t = mma_pipe::LOWER@;
    let p = machine::program(t);
    machine::lemma_some_text(t, p);
    reveal_with_fuel(Machine::run, 2);
    let m1 = m.after(p[0]);
    let m2 = m1.after(p[1]);
    let m3 = m2.after(p[2]);
    let m4 = m3.after(p[3]);
    let m5 = m4.after(p[4]);
    assert(m.run(p, 1) == m1);
    assert(m.run(p, 2) == m2);
    assert(m.run(p, 3) == m3);
    assert(m.run(p, 4) == m4);
    assert(m.run(p, 5) == m5);
    assert((m2.held)("%tmp"@) == ((m.held)("%grow"@) + 8) * (m.held)("%N"@));
}

/// The residual of the upper pair.
#[verifier::rlimit(40)]
proof fn lemma_upper_resid(m: Machine, d: Seq<char>)
    requires
        accumulator(d),
    ensures
        ({
            let t = text::fill(mma_pipe::UPPER_RESID@, seq![d]);
            let e = m.through(t);
            let at = (m.held)("%Resid"@) + (m.held)("%off"@);
            &&& t.len() > 0 && t.last() == '\n'
            &&& steady(m, e)
            &&& (e.held)("%grow"@) == (m.held)("%grow"@)
            &&& (e.held)("%gcol"@) == (m.held)("%gcol"@)
            &&& (e.held)("%cptr"@) == (m.held)("%cptr"@)
            &&& e.stores == m.stores
            &&& (e.float)(acc(d, 0)) == plus((m.float)(acc(d, 0)), Term::At(at))
            &&& (e.float)(acc(d, 1)) == plus((m.float)(acc(d, 1)), Term::At(at + 4))
            &&& forall|r: Seq<char>|
                accumulator(r) && r != acc(d, 0) && r != acc(d, 1) ==> #[trigger] (e.float)(r) == (
                m.float)(r)
        }),
{
    let args = seq![d];
    readings::lemma_mma_pipe_upper_resid(args);
    machine::lemma_kinds();
    machine::lemma_float_kinds();
    machine::lemma_numbers();
    lemma_registers();
    lemma_float_registers();
    lemma_acc(d);
    lemma_brackets();
    let t = text::fill(mma_pipe::UPPER_RESID@, args);
    machine::lemma_some_text(t, machine::program(t));
    let p = machine::program(t);
    reveal_with_fuel(Machine::run, 2);
    let m1 = m.after(p[0]);
    machine::lemma_address(m1, "[%cptr2]"@, "%cptr2"@);
    let m2 = m1.after(p[1]);
    machine::lemma_address_behind(m2, "[%cptr2+4]"@, "%cptr2"@, "4"@);
    let m3 = m2.after(p[2]);
    let m4 = m3.after(p[3]);
    let m5 = m4.after(p[4]);
    assert(m.run(p, 1) == m1);
    assert(m.run(p, 2) == m2);
    assert(m.run(p, 3) == m3);
    assert(m.run(p, 4) == m4);
    assert(m.run(p, 5) == m5);
    assert(m.through(t) == m5);
}

/// The residual of the lower pair.
#[verifier::rlimit(40)]
proof fn lemma_lower_resid(m: Machine, d: Seq<char>)
    requires
        accumulator(d),
    ensures
        ({
            let t = text::fill(mma_pipe::LOWER_RESID@, seq![d]);
            let e = m.through(t);
            let at = (m.held)("%Resid"@) + (m.held)("%off"@);
            &&& t.len() > 0 && t.last() == '\n'
            &&& steady(m, e)
            &&& (e.held)("%cptr2"@) == (m.held)("%cptr2"@)
            &&& e.stores == m.stores
            &&& (e.float)(acc(d, 2)) == plus((m.float)(acc(d, 2)), Term::At(at))
            &&& (e.float)(acc(d, 3)) == plus((m.float)(acc(d, 3)), Term::At(at + 4))
            &&& forall|r: Seq<char>|
                accumulator(r) && r != acc(d, 2) && r != acc(d, 3) ==> #[trigger] (e.float)(r) == (
                m.float)(r)
        }),
{
    let args = seq![d];
    readings::lemma_mma_pipe_lower_resid(args);
    machine::lemma_kinds();
    machine::lemma_float_kinds();
    machine::lemma_numbers();
    lemma_registers();
    lemma_float_registers();
    lemma_acc(d);
    lemma_brackets();
    let t = text::fill(mma_pipe::LOWER_RESID@, args);
    machine::lemma_some_text(t, machine::program(t));
    let p = machine::program(t);
    reveal_with_fuel(Machine::run, 2);
    let m1 = m.after(p[0]);
    machine::lemma_address(m1, "[%cptr]"@, "%cptr"@);
    let m2 = m1.after(p[1]);
    machine::lemma_address_behind(m2, "[%cptr+4]"@, "%cptr"@, "4"@);
    let m3 = m2.after(p[2]);
    let m4 = m3.after(p[3]);
    let m5 = m4.after(p[4]);
    assert(m.run(p, 1) == m1);
    assert(m.run(p, 2) == m2);
    assert(m.run(p, 3) == m3);
    assert(m.run(p, 4) == m4);
    assert(m.run(p, 5) == m5);
    assert(m.through(t) == m5);
}

/// A pair of results goes to an address and behind it, in whatever way it is stored.
#[verifier::rlimit(40)]
proof fn lemma_pair(m: Machine, s: act::Store, dst: Seq<char>, lo: Seq<char>, hi: Seq<char>)
    requires
        operand(dst),
        lacks(dst, '+'),
        accumulator(lo),
        accumulator(hi),
    ensures
        ({
            let t = s.pair_text(dst, lo, hi);
            let e = m.through(t);
            &&& t.len() > 0 && t.last() == '\n'
            &&& e.held == m.held
            &&& e.float == m.float
            &&& e.stores == m.stores.push((m.value(dst), (m.float)(lo))).push(
                (m.value(dst) + 4, (m.float)(hi)),
            )
        }),
{
    let args = seq![dst, lo, hi];
    let t = s.pair_text(dst, lo, hi);
    let p = machine::program(t);
    machine::lemma_float_kinds();
    machine::lemma_numbers();
    lemma_brackets();
    reveal_strlit("[");
    reveal_strlit("]");
    reveal_strlit("+4]");
    reveal_strlit("{");
    reveal_strlit("}");
    let place = "["@ + dst + "]"@;
    assert(place =~= seq!['['] + dst + seq![']']);
    machine::lemma_address(m, place, dst);
    reveal_with_fuel(Machine::run, 3);
    match s {
        act::Store::Scalar => {
            readings::lemma_act_store_scalar(args);
            let behind = "["@ + dst + "+4]"@;
            reveal_strlit("4");
            assert(behind =~= seq!['['] + dst + seq!['+'] + "4"@ + seq![']']);
            let m1 = m.after(p[0]);
            machine::lemma_address_behind(m1, behind, dst, "4"@);
        },
        act::Store::V2 => {
            readings::lemma_act_store_v2(args);
        },
        act::Store::V2Cs => {
            readings::lemma_act_store_v2cs(args);
        },
    }
    assert(("{"@ + lo).skip(1) =~= lo);
    assert((hi + "}"@).drop_last() =~= hi);
    machine::lemma_some_text(t, machine::program(t));
}

/// Where a lane stands: the row and the column of its first result in C, the columns of C, and the
/// addresses of C, of the bias and of the residual.
pub ghost struct Home {
    pub row: int,
    pub col: int,
    pub n: int,
    pub c: int,
    pub bias: int,
    pub resid: int,
}

/// The home of the lane that a machine is.
pub open spec fn home(m: Machine) -> Home {
    Home {
        row: (m.held)("%baseRow"@) + (m.held)("%warpMrow"@) + (m.held)("%grp"@),
        col: (m.held)("%baseCol"@) + (m.held)("%warpNcol"@) + (m.held)("%tg2"@),
        n: (m.held)("%N"@),
        c: (m.held)("%C"@),
        bias: (m.held)("%Bias"@),
        resid: (m.held)("%Resid"@),
    }
}

impl Home {
    /// The address of the element of C in a row and a column.
    pub open spec fn element(self, row: int, col: int) -> int {
        self.c + 4 * (row * self.n + col)
    }

    /// What an epilogue makes of the sum `x` of products for an element: the bias of the column is
    /// added, then comes the activation, and then the residual of the element.
    pub open spec fn finished(self, e: mma_pipe::Epilogue, x: Term, row: int, col: int) -> Term {
        let b = if e.bias {
            plus(x, Term::At(self.bias + 4 * col))
        } else {
            x
        };
        let a = activated(e.act, b);
        if e.residual {
            plus(a, Term::At(self.resid + 4 * (row * self.n + col)))
        } else {
            a
        }
    }
}

/// The name of the accumulators of a sub-tile.
pub open spec fn sub_tile(i: nat, j: nat) -> Seq<char> {
    seq!['%', 'd'] + text::dec(i) + seq!['_'] + text::dec(j) + seq!['_']
}

/// The name, filled in.
pub proof fn lemma_sub_tile(i: nat, j: nat)
    ensures
        text::fill(mma_pipe::D_NAME@, seq![text::dec(i), text::dec(j)]) == sub_tile(i, j),
        accumulator(sub_tile(i, j)),
        text::fill(mma_pipe::D0@, seq![sub_tile(i, j)]) == acc(sub_tile(i, j), 0),
        text::fill(mma_pipe::D1@, seq![sub_tile(i, j)]) == acc(sub_tile(i, j), 1),
        text::fill(mma_pipe::D2@, seq![sub_tile(i, j)]) == acc(sub_tile(i, j), 2),
        text::fill(mma_pipe::D3@, seq![sub_tile(i, j)]) == acc(sub_tile(i, j), 3),
{
    let d = sub_tile(i, j);
    reveal_with_fuel(text::fill, 9);
    reveal_strlit("%d#0_#1_");
    let t = mma_pipe::D_NAME@;
    assert(t.drop_last().drop_last().drop_last().drop_last().drop_last().drop_last().drop_last().drop_last().len()
        == 0);
    assert(text::fill(t, seq![text::dec(i), text::dec(j)]) =~= d);
    machine::lemma_number(i);
    machine::lemma_number(j);
    lemma_acc(d);
    reveal_strlit("0");
    reveal_strlit("1");
    reveal_strlit("2");
    reveal_strlit("3");
    reveal_strlit("#00");
    reveal_strlit("#01");
    reveal_strlit("#02");
    reveal_strlit("#03");
    assert(mma_pipe::D0@.drop_last().drop_last().drop_last().len() == 0);
    assert(mma_pipe::D1@.drop_last().drop_last().drop_last().len() == 0);
    assert(mma_pipe::D2@.drop_last().drop_last().drop_last().len() == 0);
    assert(mma_pipe::D3@.drop_last().drop_last().drop_last().len() == 0);
    assert(text::fill(mma_pipe::D0@, seq![d]) =~= d + "0"@);
    assert(text::fill(mma_pipe::D1@, seq![d]) =~= d + "1"@);
    assert(text::fill(mma_pipe::D2@, seq![d]) =~= d + "2"@);
    assert(text::fill(mma_pipe::D3@, seq![d]) =~= d + "3"@);
}

/// The results that a lane stores of sub-tile `(i, j)`: those of two neighbouring columns in one
/// row, and of the same columns eight rows below.
pub open spec fn results(m: Machine, e: mma_pipe::Epilogue, i: nat, j: nat) -> Seq<(int, Term)> {
    let h = home(m);
    let d = sub_tile(i, j);
    let (r, c) = (h.row + 16 * i, h.col + 8 * j);
    seq![
        (h.element(r, c), h.finished(e, (m.float)(acc(d, 0)), r, c)),
        (h.element(r, c + 1), h.finished(e, (m.float)(acc(d, 1)), r, c + 1)),
        (h.element(r + 8, c), h.finished(e, (m.float)(acc(d, 2)), r + 8, c)),
        (h.element(r + 8, c + 1), h.finished(e, (m.float)(acc(d, 3)), r + 8, c + 1)),
    ]
}

/// Whether two machines are at the same home, and have the same accumulators but for those of a
/// name.
pub open spec fn at_home(m: Machine, e: Machine, d: Seq<char>) -> bool {
    &&& home(e) == home(m)
    &&& forall|r: Seq<char>|
        accumulator(r) && r != acc(d, 0) && r != acc(d, 1) && r != acc(d, 2) && r != acc(d, 3)
            ==> #[trigger] (e.float)(r) == (m.float)(r)
}

/// A machine whose other registers are the same is at the same home.
pub proof fn lemma_home(m: Machine, e: Machine)
    requires
        steady(m, e),
    ensures
        home(e) == home(m),
{
    lemma_registers();
    assert(!scratch("%baseRow"@) && !scratch("%warpMrow"@) && !scratch("%grp"@));
    assert(!scratch("%baseCol"@) && !scratch("%warpNcol"@) && !scratch("%tg2"@));
    assert(!scratch("%N"@) && !scratch("%C"@) && !scratch("%Bias"@) && !scratch("%Resid"@));
}

/// The text of the first part of a sub-tile.
spec fn front_text(e: mma_pipe::Epilogue, i: nat, j: nat) -> Seq<char> {
    let d = sub_tile(i, j);
    text::fill(mma_pipe::PLACE@, seq![text::dec(i * 16), text::dec(j * 8)]) + (if e.bias {
        text::fill(mma_pipe::ADD_BIAS@, seq![d])
    } else {
        ""@
    }) + e.act.epilogues_text(d, 4)
}

/// The first part of a sub-tile: its place, its bias and its activation.
proof fn lemma_front(m: Machine, e: mma_pipe::Epilogue, i: nat, j: nat)
    ensures
        ({
            let d = sub_tile(i, j);
            let t = front_text(e, i, j);
            let end = m.through(t);
            let h = home(m);
            let (r, c) = (h.row + 16 * i, h.col + 8 * j);
            let plain = mma_pipe::Epilogue { residual: false, ..e };
            &&& t.len() > 0 && t.last() == '\n'
            &&& at_home(m, end, d)
            &&& (end.held)("%grow"@) == r
            &&& (end.held)("%gcol"@) == c
            &&& end.stores == m.stores
            &&& (end.float)(acc(d, 0)) == h.finished(plain, (m.float)(acc(d, 0)), r, c)
            &&& (end.float)(acc(d, 1)) == h.finished(plain, (m.float)(acc(d, 1)), r, c + 1)
            &&& (end.float)(acc(d, 2)) == h.finished(plain, (m.float)(acc(d, 2)), r + 8, c)
            &&& (end.float)(acc(d, 3)) == h.finished(plain, (m.float)(acc(d, 3)), r + 8, c + 1)
        }),
{
    let d = sub_tile(i, j);
    lemma_sub_tile(i, j);
    lemma_registers();
    lemma_acc(d);
    machine::lemma_reads_nothing();
    let place = text::fill(mma_pipe::PLACE@, seq![text::dec(i * 16), text::dec(j * 8)]);
    let bias = if e.bias {
        text::fill(mma_pipe::ADD_BIAS@, seq![d])
    } else {
        ""@
    };
    let acts = e.act.epilogues_text(d, 4);
    lemma_place(m, i * 16, j * 8);
    let m1 = m.through(place);
    assert(steady(m, m1));
    lemma_home(m, m1);
    m.lemma_through_add(place, bias);
    let m2 = m1.through(bias);
    if e.bias {
        lemma_bias(m1, d);
        lemma_home(m1, m2);
        assert((place + bias).last() == bias.last());
    } else {
        reveal_strlit("");
        assert(place + bias =~= place);
        assert(m2 == m1);
    }
    m.lemma_through_add(place + bias, acts);
    lemma_acts(m2, e.act, d, 4);
    let m3 = m2.through(acts);
    let t = place + bias + acts;
    if acts.len() == 0 {
        assert(t =~= place + bias);
    } else {
        assert(t.last() == acts.last());
    }
    assert((m3.float)(acc(d, 0)) == activated(e.act, (m2.float)(acc(d, 0))));
    assert((m3.float)(acc(d, 1)) == activated(e.act, (m2.float)(acc(d, 1))));
    assert((m3.float)(acc(d, 2)) == activated(e.act, (m2.float)(acc(d, 2))));
    assert((m3.float)(acc(d, 3)) == activated(e.act, (m2.float)(acc(d, 3))));
    assert(home(m3) == home(m2));
    assert forall|r: Seq<char>|
        accumulator(r) && r != acc(d, 0) && r != acc(d, 1) && r != acc(d, 2) && r != acc(
            d,
            3,
        ) implies #[trigger] (m3.float)(r) == (m.float)(r) by {
        assert((m2.float)(r) == (m1.float)(r));
        assert forall|k: nat| k < 4 implies r != #[trigger] acc(d, k) by {
            assert(k == 0 || k == 1 || k == 2 || k == 3);
        }
    }
}

/// The text of the upper pair of a sub-tile.
spec fn upper_text(e: mma_pipe::Epilogue, d: Seq<char>) -> Seq<char> {
    mma_pipe::UPPER@ + (if e.residual {
        text::fill(mma_pipe::UPPER_RESID@, seq![d])
    } else {
        ""@
    }) + e.store.pair_text("%cptr"@, acc(d, 0), acc(d, 1))
}

/// The upper pair of a sub-tile: its address, its residual and its store.
proof fn lemma_upper_pair(m: Machine, e: mma_pipe::Epilogue, d: Seq<char>)
    requires
        accumulator(d),
    ensures
        ({
            let t = upper_text(e, d);
            let end = m.through(t);
            let h = home(m);
            let r = (m.held)("%grow"@);
            let c = (m.held)("%gcol"@);
            let rest = mma_pipe::Epilogue { bias: false, act: act::Act::Identity, ..e };
            &&& t.len() > 0 && t.last() == '\n'
            &&& home(end) == h
            &&& (end.held)("%grow"@) == (m.held)("%grow"@)
            &&& (end.held)("%gcol"@) == c
            &&& end.stores == m.stores.push(
                (h.element(r, c), h.finished(rest, (m.float)(acc(d, 0)), r, c)),
            ).push((h.element(r, c + 1), h.finished(rest, (m.float)(acc(d, 1)), r, c + 1)))
            &&& forall|s: Seq<char>|
                accumulator(s) && s != acc(d, 0) && s != acc(d, 1) ==> #[trigger] (end.float)(s) == (m.float)(
                    s,
                )
        }),
{
    lemma_acc(d);
    lemma_registers();
    lemma_brackets();
    reveal_strlit("");
    machine::lemma_reads_nothing();
    let first = mma_pipe::UPPER@;
    let resid = if e.residual {
        text::fill(mma_pipe::UPPER_RESID@, seq![d])
    } else {
        ""@
    };
    let pair = e.store.pair_text("%cptr"@, acc(d, 0), acc(d, 1));
    lemma_upper(m);
    let m1 = m.through(first);
    lemma_home(m, m1);
    m.lemma_through_add(first, resid);
    let m2 = m1.through(resid);
    if e.residual {
        lemma_upper_resid(m1, d);
        lemma_home(m1, m2);
        assert((first + resid).last() == resid.last());
    } else {
        assert(first + resid =~= first);
        assert(m2 == m1);
    }
    m.lemma_through_add(first + resid, pair);
    lemma_pair(m2, e.store, "%cptr"@, acc(d, 0), acc(d, 1));
    let t = first + resid + pair;
    assert(t.last() == pair.last());
    assert(home(m2.through(pair)) == home(m2));
    assert(m2.value("%cptr"@) == (m2.held)("%cptr"@));
}

/// The text of the lower pair of a sub-tile.
spec fn lower_text(e: mma_pipe::Epilogue, d: Seq<char>) -> Seq<char> {
    mma_pipe::LOWER@ + (if e.residual {
        text::fill(mma_pipe::LOWER_RESID@, seq![d])
    } else {
        ""@
    }) + e.store.pair_text("%cptr2"@, acc(d, 2), acc(d, 3))
}

/// The lower pair of a sub-tile: its address, its residual and its store.
proof fn lemma_lower_pair(m: Machine, e: mma_pipe::Epilogue, d: Seq<char>)
    requires
        accumulator(d),
    ensures
        ({
            let t = lower_text(e, d);
            let end = m.through(t);
            let h = home(m);
            let r = (m.held)("%grow"@) + 8;
            let c = (m.held)("%gcol"@);
            let rest = mma_pipe::Epilogue { bias: false, act: act::Act::Identity, ..e };
            &&& t.len() > 0 && t.last() == '\n'
            &&& home(end) == h
            &&& end.stores == m.stores.push(
                (h.element(r, c), h.finished(rest, (m.float)(acc(d, 2)), r, c)),
            ).push((h.element(r, c + 1), h.finished(rest, (m.float)(acc(d, 3)), r, c + 1)))
            &&& forall|s: Seq<char>|
                accumulator(s) && s != acc(d, 2) && s != acc(d, 3) ==> #[trigger] (end.float)(s) == (m.float)(
                    s,
                )
        }),
{
    lemma_acc(d);
    lemma_registers();
    lemma_brackets();
    reveal_strlit("");
    machine::lemma_reads_nothing();
    let first = mma_pipe::LOWER@;
    let resid = if e.residual {
        text::fill(mma_pipe::LOWER_RESID@, seq![d])
    } else {
        ""@
    };
    let pair = e.store.pair_text("%cptr2"@, acc(d, 2), acc(d, 3));
    lemma_lower(m);
    let m1 = m.through(first);
    lemma_home(m, m1);
    m.lemma_through_add(first, resid);
    let m2 = m1.through(resid);
    if e.residual {
        lemma_lower_resid(m1, d);
        lemma_home(m1, m2);
        assert((first + resid).last() == resid.last());
    } else {
        assert(first + resid =~= first);
        assert(m2 == m1);
    }
    m.lemma_through_add(first + resid, pair);
    lemma_pair(m2, e.store, "%cptr2"@, acc(d, 2), acc(d, 3));
    let t = first + resid + pair;
    assert(t.last() == pair.last());
    assert(home(m2.through(pair)) == home(m2));
    assert(m2.value("%cptr2"@) == (m2.held)("%cptr2"@));
}

/// What a sub-tile stores.
pub proof fn lemma_tile(m: Machine, e: mma_pipe::Epilogue, i: nat, j: nat)
    ensures
        ({
            let end = m.through(e.tile(i, j));
            &&& e.tile(i, j).len() > 0 && e.tile(i, j).last() == '\n'
            &&& end.stores == m.stores + results(m, e, i, j)
            &&& at_home(m, end, sub_tile(i, j))
        }),
{
    let d = sub_tile(i, j);
    lemma_sub_tile(i, j);
    lemma_acc(d);
    let t = e.tile(i, j);
    let front = front_text(e, i, j);
    let upper = upper_text(e, d);
    let lower = lower_text(e, d);
    assert(t =~= front + upper + lower);
    lemma_front(m, e, i, j);
    let m1 = m.through(front);
    m.lemma_through_add(front, upper);
    lemma_upper_pair(m1, e, d);
    let m2 = m1.through(upper);
    assert((front + upper).last() == upper.last());
    m.lemma_through_add(front + upper, lower);
    lemma_lower_pair(m2, e, d);
    let m3 = m2.through(lower);
    assert(t.last() == lower.last());
    assert((m2.float)(acc(d, 2)) == (m1.float)(acc(d, 2)));
    assert((m2.float)(acc(d, 3)) == (m1.float)(acc(d, 3)));
    assert(m3.stores =~= m.stores + results(m, e, i, j));
    assert forall|r: Seq<char>|
        accumulator(r) && r != acc(d, 0) && r != acc(d, 1) && r != acc(d, 2) && r != acc(
            d,
            3,
        ) implies #[trigger] (m3.float)(r) == (m.float)(r) by {
        assert((m2.float)(r) == (m1.float)(r));
    }
}

} // verus!
