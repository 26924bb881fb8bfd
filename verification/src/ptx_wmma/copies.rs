//! Which part of A and B each thread copies, and to where in shared memory.
use vstd::arithmetic::power2::*;
use vstd::prelude::*;

use crate::ptx_wmma::addresses;
use crate::ptx_wmma::lanes;
use crate::ptx_wmma::loads;
use crate::ptx_wmma::machine;
use crate::ptx_wmma::machine::{operand, Event, Given, Kind, Machine};
use crate::ptx_wmma::mma;
use crate::ptx_wmma::parts;
use crate::text;

verus! {

/// How the registers are spelled.
proof fn lemma_registers()
    ensures
        "%r"@.len() == 2 && "%r"@[0] == '%' && "%r"@[1] == 'r',
        "%c"@.len() == 2 && "%c"@[0] == '%' && "%c"@[1] == 'c',
        "%tmp"@.len() == 4 && "%tmp"@[0] == '%' && "%tmp"@[1] == 't' && "%tmp"@[2] == 'm' && "%tmp"@[3] == 'p',
        "%off"@.len() == 4 && "%off"@[0] == '%' && "%off"@[1] == 'o' && "%off"@[2] == 'f' && "%off"@[3] == 'f',
        "%gptr"@.len() == 5 && "%gptr"@[0] == '%' && "%gptr"@[1] == 'g' && "%gptr"@[2] == 'p' && "%gptr"@[3] == 't' && "%gptr"@[4] == 'r',
        "%tmp2"@.len() == 5 && "%tmp2"@[0] == '%' && "%tmp2"@[1] == 't' && "%tmp2"@[2] == 'm' && "%tmp2"@[3] == 'p' && "%tmp2"@[4] == '2',
        "%swztmp"@.len() == 7 && "%swztmp"@[0] == '%' && "%swztmp"@[1] == 's' && "%swztmp"@[2] == 'w' && "%swztmp"@[3] == 'z' && "%swztmp"@[4] == 't' && "%swztmp"@[5] == 'm' && "%swztmp"@[6] == 'p',
        "%tmp3"@.len() == 5 && "%tmp3"@[0] == '%' && "%tmp3"@[1] == 't' && "%tmp3"@[2] == 'm' && "%tmp3"@[3] == 'p' && "%tmp3"@[4] == '3',
        "%e"@.len() == 2 && "%e"@[0] == '%' && "%e"@[1] == 'e',
        "%tix"@.len() == 4 && "%tix"@[0] == '%' && "%tix"@[1] == 't' && "%tix"@[2] == 'i' && "%tix"@[3] == 'x',
        "%K"@.len() == 2 && "%K"@[0] == '%' && "%K"@[1] == 'K',
        "%kcol"@.len() == 5 && "%kcol"@[0] == '%' && "%kcol"@[1] == 'k' && "%kcol"@[2] == 'c' && "%kcol"@[3] == 'o' && "%kcol"@[4] == 'l',
{
    reveal_strlit("%r");
    reveal_strlit("%c");
    reveal_strlit("%tmp");
    reveal_strlit("%off");
    reveal_strlit("%gptr");
    reveal_strlit("%tmp2");
    reveal_strlit("%swztmp");
    reveal_strlit("%tmp3");
    reveal_strlit("%e");
    reveal_strlit("%tix");
    reveal_strlit("%K");
    reveal_strlit("%kcol");
}

/// Whether a register or a symbol is none of those that a copy computes in.
pub open spec fn clear(r: Seq<char>) -> bool {
    &&& loads::symbol(r)
    &&& r != "%r"@ && r != "%c"@ && r != "%tmp"@ && r != "%off"@ && r != "%gptr"@
    &&& r != "%tmp2"@ && r != "%swztmp"@ && r != "%tmp3"@ && r != "%e"@
}

/// Whether a machine holds the same where a copy does not compute.
pub open spec fn untouched(m: Machine, e: Machine) -> bool {
    forall|r: Seq<char>| clear(r) ==> #[trigger] (e.held)(r) == (m.held)(r)
}

/// The registers that a copy reads besides its operands.
proof fn lemma_clear()
    ensures
        clear("%tix"@),
        clear("%K"@),
        clear("%kcol"@),
{
    lemma_registers();
    reveal_strlit("%tix");
    reveal_strlit("%K");
    reveal_strlit("%kcol");
}

/// A copy of sixteen bytes is recorded.
proof fn lemma_copies()
    ensures
        machine::kind("cp.async.cg.shared.global"@) == Kind::Other,
{
    machine::lemma_integer_operations();
    machine::lemma_float_operations();
    reveal_strlit("cp.async.cg.shared.global");
    assert("cp.async.cg.shared.global"@.len() == 25);
}

/// The copy of sixteen bytes from an address of global memory to one of shared memory.
pub open spec fn copy(from: int, to: int) -> Event {
    Event {
        op: "cp.async.cg.shared.global"@,
        given: seq![Given::Place(to), Given::Place(from), Given::Name("16"@)],
    }
}

/// What a copy of a tile is told: the register of the tile's row and of its matrix, and the buffer,
/// the bytes to skip in it and the register of the stage's offset.
pub ghost struct Tile {
    pub row: Seq<char>,
    pub ptr: Seq<char>,
    pub sym: Seq<char>,
    pub off: nat,
    pub at: Seq<char>,
}

impl Tile {
    pub open spec fn wf(self) -> bool {
        clear(self.row) && clear(self.ptr) && clear(self.sym) && clear(self.at)
    }
}

/// The copy of chunk `x` of a tile: a row has `bk / 8` chunks of eight numbers; it comes from that
/// place of the matrix, and goes to that place of the staged tile, in swizzled rows to the chunk
/// that the row's phase exchanges it with.
pub open spec fn chunk(m: Machine, s: mma::MmaShape, t: Tile, x: nat) -> Event {
    let per = s.bk as nat / 8;
    let (r, c) = (x / per, x % per);
    copy(
        (m.held)(t.ptr) + 2 * (((m.held)(t.row) + r) * (m.held)("%K"@) + (m.held)("%kcol"@) + 8
            * c),
        (m.held)(t.sym) + t.off + (m.held)(t.at) + r * (2 * s.ldp()) + 16 * if s.swz {
            machine::result(
                Kind::Xor,
                c as int,
                machine::result(Kind::And, (r / 2) as int, per - 1),
            )
        } else {
            c as int
        },
    )
}

/// What a copy's template is filled with.
pub open spec fn stage_args(s: mma::MmaShape, t: Tile) -> Seq<Seq<char>> {
    seq![
        t.row,
        t.ptr,
        mma::base("%tmp"@, t.sym, t.off),
        t.at,
        text::dec(text::twos((s.bk / 8) as nat)),
        text::dec((s.bk / 8 - 1) as nat),
        text::dec(s.ldp() * 2),
    ]
}

/// The text that copies one chunk, with padded rows.
#[verifier::rlimit(100)]
proof fn lemma_chunk_padded(m: Machine, s: mma::MmaShape, tile: Tile, x: nat)
    requires
        !s.swz,
        s.bk % 16 == 0,
        is_pow2(s.bk as int / 8),
        s.bk <= u32::MAX,
        tile.wf(),
        (m.held)("%e"@) == x,
        x <= u32::MAX,
    ensures
        ({
            let t = text::fill(mma::STAGE_PADDED@, stage_args(s, tile));
            let e = m.through(t);
            &&& t.len() > 0 && t.last() == '\n'
            &&& untouched(m, e)
            &&& e.trace == m.trace.push(chunk(m, s, tile, x))
        }),
{
    let args = stage_args(s, tile);
    let per = s.bk as nat / 8;
    let (r, c) = (x / per, x % per);
    assert(per > 0 && per <= u32::MAX) by {
        reveal(is_pow2);
    }
    machine::lemma_number(text::twos(per));
    machine::lemma_number((per - 1) as nat);
    machine::lemma_number(s.ldp() * 2);
    lanes::lemma_twos(per);
    lanes::lemma_mask(x as int, per);
    lemma2_to64();
    lemma_registers();
    lemma_clear();
    lemma_copies();
    machine::lemma_numbers();
    machine::lemma_kinds();
    assert(loads::symbol("%tmp"@)) by {
        reveal_strlit("%tmp");
    }
    let base = mma::base("%tmp"@, tile.sym, tile.off);
    loads::lemma_base(m, "%tmp"@, tile.sym, tile.off);
    let p2 = machine::program(base);
    addresses::lemma_mma_stage_padded(args, p2);
    let t = text::fill(mma::STAGE_PADDED@, args);
    let p = machine::program(t);
    let p1 = p.take(9);
    let p3 = p.skip(9 + p2.len() as int);
    assert(p =~= p1 + p2 + p3);
    assert(p1.len() == 9 && p3.len() == 6);
    machine::lemma_some_text(t, p);
    m.lemma_run_add(p1 + p2, p3, 6);
    m.lemma_run_add(p1, p2, p2.len());
    reveal_with_fuel(Machine::run, 2);
    let a1 = m.after(p1[0]);
    let a2 = a1.after(p1[1]);
    let a3 = a2.after(p1[2]);
    let a4 = a3.after(p1[3]);
    let a5 = a4.after(p1[4]);
    let a6 = a5.after(p1[5]);
    let a7 = a6.after(p1[6]);
    let a8 = a7.after(p1[7]);
    let a9 = a8.after(p1[8]);
    assert(m.run(p1, 1) == a1);
    assert(m.run(p1, 2) == a2);
    assert(m.run(p1, 3) == a3);
    assert(m.run(p1, 4) == a4);
    assert(m.run(p1, 5) == a5);
    assert(m.run(p1, 6) == a6);
    assert(m.run(p1, 7) == a7);
    assert(m.run(p1, 8) == a8);
    assert(m.run(p1, 9) == a9);
    let m1 = a9;
    assert((m1.held)("%r"@) == r);
    assert((m1.held)("%c"@) == 8 * c);
    assert((m1.held)("%gptr"@) == (m.held)(tile.ptr) + 2 * (((m.held)(tile.row) + r) * (m.held)(
        "%K"@,
    ) + (m.held)("%kcol"@) + 8 * c));
    loads::lemma_base(m1, "%tmp"@, tile.sym, tile.off);
    let m2 = m1.through(base);
    assert(m2 == m1.run(p2, p2.len()));
    let b1 = m2.after(p3[0]);
    let b2 = b1.after(p3[1]);
    let b3 = b2.after(p3[2]);
    let b4 = b3.after(p3[3]);
    let b5 = b4.after(p3[4]);
    let b6 = b5.after(p3[5]);
    assert(m2.run(p3, 1) == b1);
    assert(m2.run(p3, 2) == b2);
    assert(m2.run(p3, 3) == b3);
    assert(m2.run(p3, 4) == b4);
    assert(m2.run(p3, 5) == b5);
    assert(m2.run(p3, 6) == b6);
    assert((b5.held)("%tmp"@) == (m.held)(tile.sym) + tile.off + (m.held)(tile.at) + r * (2
        * s.ldp()) + 16 * c);
    reveal_strlit("[%tmp]");
    reveal_strlit("[%gptr]");
    reveal_strlit("16");
    assert("[%tmp]"@ =~= seq!['['] + "%tmp"@ + seq![']']);
    assert("[%gptr]"@ =~= seq!['['] + "%gptr"@ + seq![']']);
    machine::lemma_address(b5, "[%tmp]"@, "%tmp"@);
    machine::lemma_address(b5, "[%gptr]"@, "%gptr"@);
    let given = Seq::new(3, |j: int| b5.given(p3[5].args[j]));
    assert(given =~= chunk(m, s, tile, x).given);
}

/// The text that copies one chunk, with swizzled rows.
#[verifier::rlimit(100)]
proof fn lemma_chunk_swizzled(m: Machine, s: mma::MmaShape, tile: Tile, x: nat)
    requires
        s.swz,
        s.bk % 16 == 0,
        is_pow2(s.bk as int / 8),
        s.bk <= u32::MAX,
        tile.wf(),
        (m.held)("%e"@) == x,
        x <= u32::MAX,
    ensures
        ({
            let t = text::fill(mma::STAGE_SWIZZLED@, stage_args(s, tile));
            let e = m.through(t);
            &&& t.len() > 0 && t.last() == '\n'
            &&& untouched(m, e)
            &&& e.trace == m.trace.push(chunk(m, s, tile, x))
        }),
{
    let args = stage_args(s, tile);
    let per = s.bk as nat / 8;
    let (r, c) = (x / per, x % per);
    assert(per > 0 && per <= u32::MAX) by {
        reveal(is_pow2);
    }
    machine::lemma_number(text::twos(per));
    machine::lemma_number((per - 1) as nat);
    machine::lemma_number(s.ldp() * 2);
    lanes::lemma_twos(per);
    lanes::lemma_mask(x as int, per);
    lemma2_to64();
    lemma_registers();
    lemma_clear();
    lemma_copies();
    machine::lemma_numbers();
    machine::lemma_kinds();
    assert(loads::symbol("%tmp"@)) by {
        reveal_strlit("%tmp");
    }
    let base = mma::base("%tmp"@, tile.sym, tile.off);
    loads::lemma_base(m, "%tmp"@, tile.sym, tile.off);
    let p2 = machine::program(base);
    addresses::lemma_mma_stage_swizzled(args, p2);
    let t = text::fill(mma::STAGE_SWIZZLED@, args);
    let p = machine::program(t);
    let p1 = p.take(14);
    let p3 = p.skip(14 + p2.len() as int);
    assert(p =~= p1 + p2 + p3);
    assert(p1.len() == 14 && p3.len() == 5);
    machine::lemma_some_text(t, p);
    m.lemma_run_add(p1 + p2, p3, 5);
    m.lemma_run_add(p1, p2, p2.len());
    reveal_with_fuel(Machine::run, 2);
    let a1 = m.after(p1[0]);
    let a2 = a1.after(p1[1]);
    let a3 = a2.after(p1[2]);
    let a4 = a3.after(p1[3]);
    let a5 = a4.after(p1[4]);
    let a6 = a5.after(p1[5]);
    let a7 = a6.after(p1[6]);
    let a8 = a7.after(p1[7]);
    let a9 = a8.after(p1[8]);
    let a10 = a9.after(p1[9]);
    let a11 = a10.after(p1[10]);
    let a12 = a11.after(p1[11]);
    let a13 = a12.after(p1[12]);
    let a14 = a13.after(p1[13]);
    assert(m.run(p1, 1) == a1);
    assert(m.run(p1, 2) == a2);
    assert(m.run(p1, 3) == a3);
    assert(m.run(p1, 4) == a4);
    assert(m.run(p1, 5) == a5);
    assert(m.run(p1, 6) == a6);
    assert(m.run(p1, 7) == a7);
    assert(m.run(p1, 8) == a8);
    assert(m.run(p1, 9) == a9);
    assert(m.run(p1, 10) == a10);
    assert(m.run(p1, 11) == a11);
    assert(m.run(p1, 12) == a12);
    assert(m.run(p1, 13) == a13);
    assert(m.run(p1, 14) == a14);
    let m1 = a14;
    assert((m1.held)("%r"@) == r);
    assert((m1.held)("%c"@) == 8 * c);
    assert((a14.held)("%swztmp"@) == 16 * machine::result(
        Kind::Xor,
        c as int,
        machine::result(Kind::And, (r / 2) as int, per - 1),
    ));
    assert((m1.held)("%gptr"@) == (m.held)(tile.ptr) + 2 * (((m.held)(tile.row) + r) * (m.held)(
        "%K"@,
    ) + (m.held)("%kcol"@) + 8 * c));
    loads::lemma_base(m1, "%tmp"@, tile.sym, tile.off);
    let m2 = m1.through(base);
    assert(m2 == m1.run(p2, p2.len()));
    let b1 = m2.after(p3[0]);
    let b2 = b1.after(p3[1]);
    let b3 = b2.after(p3[2]);
    let b4 = b3.after(p3[3]);
    let b5 = b4.after(p3[4]);
    assert(m2.run(p3, 1) == b1);
    assert(m2.run(p3, 2) == b2);
    assert(m2.run(p3, 3) == b3);
    assert(m2.run(p3, 4) == b4);
    assert(m2.run(p3, 5) == b5);
    assert((b4.held)("%tmp"@) == (m.held)(tile.sym) + tile.off + (m.held)(tile.at) + r * (2
        * s.ldp()) + 16 * machine::result(Kind::Xor, c as int, machine::result(Kind::And, (r / 2) as int, per - 1)));
    reveal_strlit("[%tmp]");
    reveal_strlit("[%gptr]");
    reveal_strlit("16");
    assert("[%tmp]"@ =~= seq!['['] + "%tmp"@ + seq![']']);
    assert("[%gptr]"@ =~= seq!['['] + "%gptr"@ + seq![']']);
    machine::lemma_address(b4, "[%tmp]"@, "%tmp"@);
    machine::lemma_address(b4, "[%gptr]"@, "%gptr"@);
    let given = Seq::new(3, |j: int| b4.given(p3[4].args[j]));
    assert(given =~= chunk(m, s, tile, x).given);
}

/// The text that copies one chunk.
pub open spec fn stage_body(s: mma::MmaShape, tile: Tile) -> Seq<char> {
    text::fill(
        if s.swz {
            mma::STAGE_SWIZZLED@
        } else {
            mma::STAGE_PADDED@
        },
        stage_args(s, tile),
    )
}

/// The text that computes the number of a thread's chunk.
pub open spec fn number_text(i: nat, threads: nat) -> Seq<char> {
    if i == 0 {
        parts::FIRST_CHUNK@
    } else {
        text::fill(parts::NEXT_CHUNK@, seq![text::dec(i * threads)])
    }
}

/// The number of a thread's chunk.
proof fn lemma_number_of(m: Machine, i: nat, threads: nat)
    ensures
        ({
            let t = number_text(i, threads);
            let e = m.through(t);
            &&& t.len() > 0 && t.last() == '\n'
            &&& untouched(m, e)
            &&& (e.held)("%e"@) == (m.held)("%tix"@) + i * threads
            &&& e.trace == m.trace
        }),
{
    lemma_registers();
    machine::lemma_kinds();
    reveal_with_fuel(Machine::run, 2);
    if i == 0 {
        let args = Seq::<Seq<char>>::empty();
        addresses::lemma_parts_first_chunk(args);
        reveal_strlit("    mov.u32 %e,%tix;\n");
        crate::ptx_wmma::frames::lemma_fill_plain(parts::FIRST_CHUNK@, args);
        machine::lemma_some_text(parts::FIRST_CHUNK@, machine::program(parts::FIRST_CHUNK@));
        assert(0 * threads == 0);
    } else {
        let args = seq![text::dec(i * threads)];
        machine::lemma_number(i * threads);
        addresses::lemma_parts_next_chunk(args);
        let t = text::fill(parts::NEXT_CHUNK@, args);
        machine::lemma_some_text(t, machine::program(t));
    }
}

/// The first `n` copies of a thread.
proof fn lemma_chunks(m: Machine, s: mma::MmaShape, tile: Tile, n: nat, threads: nat)
    requires
        s.bk % 16 == 0,
        is_pow2(s.bk as int / 8),
        s.bk <= u32::MAX,
        tile.wf(),
        0 <= (m.held)("%tix"@),
        (m.held)("%tix"@) + n * threads <= u32::MAX,
    ensures
        ({
            let t = parts::chunks(stage_body(s, tile), n, threads);
            let e = m.through(t);
            let at = m.trace.len() as int;
            &&& t.len() == 0 || t.last() == '\n'
            &&& untouched(m, e)
            &&& e.trace.len() == at + n
            &&& e.trace.take(at) == m.trace
            &&& forall|i: nat|
                i < n ==> #[trigger] e.trace[at + i] == chunk(
                    m,
                    s,
                    tile,
                    ((m.held)("%tix"@) + i * threads) as nat,
                )
        }),
    decreases n,
{
    reveal(parts::counted);
    machine::lemma_reads_nothing();
    lemma_clear();
    let body = stage_body(s, tile);
    let at = m.trace.len() as int;
    if n == 0 {
        assert(parts::chunks(body, n, threads) =~= Seq::<char>::empty());
        assert(m.trace.take(at) =~= m.trace);
    } else {
        let i = (n - 1) as nat;
        assert(n * threads == i * threads + threads) by (nonlinear_arith)
            requires
                n == i + 1,
        ;
        assert(i * threads >= 0) by (nonlinear_arith);
        lemma_chunks(m, s, tile, i, threads);
        let before = parts::chunks(body, i, threads);
        let number = number_text(i, threads);
        let mid = m.through(before);
        m.lemma_through_add(before, number);
        lemma_number_of(mid, i, threads);
        let near = mid.through(number);
        assert((before + number).last() == number.last());
        m.lemma_through_add(before + number, body);
        let x = ((m.held)("%tix"@) + i * threads) as nat;
        if s.swz {
            lemma_chunk_swizzled(near, s, tile, x);
        } else {
            lemma_chunk_padded(near, s, tile, x);
        }
        let e = near.through(body);
        assert((before + number + body).last() == body.last());
        assert(chunk(near, s, tile, x) == chunk(m, s, tile, x));
        assert(e.trace.take(at) =~= mid.trace.take(at));
        assert forall|j: nat| j < n implies #[trigger] e.trace[at + j] == chunk(
            m,
            s,
            tile,
            ((m.held)("%tix"@) + j * threads) as nat,
        ) by {
            if j < i {
                assert(e.trace[at + j] == mid.trace[at + j]);
            }
        }
    }
}

/// A thread copies its chunks of a tile: chunk `i` of thread `tid` is chunk `tid + i * threads` of
/// the tile. It is read from the place in its matrix that its row and its columns have, and written
/// to their place in the stage.
pub proof fn law_a_thread_copies_its_chunks(
    m: Machine,
    s: mma::MmaShape,
    rows: nat,
    tile: Tile,
    tid: nat,
    i: nat,
)
    requires
        s.legal(),
        s.bk <= u32::MAX,
        tile.wf(),
        (m.held)("%tix"@) == tid,
        tid < s.threads(),
        rows * s.bk as nat / (s.threads() * 8) * s.threads() + s.threads() <= u32::MAX,
        i < rows * s.bk as nat / (s.threads() * 8),
    ensures
        ({
            let n = rows * s.bk as nat / (s.threads() * 8);
            let e = m.through(
                s.stage(rows, tile.row, tile.ptr, mma::base("%tmp"@, tile.sym, tile.off), tile.at),
            );
            &&& e.trace.len() == m.trace.len() + n
            &&& e.trace[m.trace.len() as int + i] == chunk(m, s, tile, tid + i * s.threads())
        }),
{
    let n = rows * s.bk as nat / (s.threads() * 8);
    lemma_chunks(m, s, tile, n, s.threads());
    let t = parts::chunks(stage_body(s, tile), n, s.threads());
    assert(s.stage(rows, tile.row, tile.ptr, mma::base("%tmp"@, tile.sym, tile.off), tile.at) == t);
    let e = m.through(t);
    assert(e.trace[m.trace.len() as int + i] == chunk(
        m,
        s,
        tile,
        ((m.held)("%tix"@) + i * s.threads()) as nat,
    ));
    assert(i * s.threads() >= 0) by (nonlinear_arith);
}

/// The threads of a block copy a tile whole and once: every chunk of its rows is copied by exactly
/// one thread, in exactly one of its turns.
pub proof fn law_each_chunk_is_copied_once(
    s: mma::MmaShape,
    rows: nat,
    x: nat,
    tid: nat,
    i: nat,
)
    requires
        s.warps_m > 0,
        s.warps_n > 0,
        s.bk % 8 == 0,
        parts::staged_whole(rows, s.bk as nat, s.threads()),
        x < rows * (s.bk as nat / 8),
        tid < s.threads(),
    ensures
        x % s.threads() < s.threads(),
        x / s.threads() < rows * s.bk as nat / (s.threads() * 8),
        x % s.threads() + x / s.threads() * s.threads() == x,
        tid + i * s.threads() == x ==> tid == x % s.threads() && i == x / s.threads(),
{
    let th = s.threads();
    let (wm, wn) = (s.warps_m as nat, s.warps_n as nat);
    assert(th > 0) by (nonlinear_arith)
        requires
            th == wm * wn * 32,
            wm > 0,
            wn > 0,
    ;
    let per = s.bk as nat / 8;
    let n = rows * s.bk as nat / (th * 8);
    parts::lemma_staged_whole(rows, s.bk as nat, th);
    assert(rows * (per * 8) == rows * per * 8) by (nonlinear_arith);
    assert(n * (th * 8) == n * th * 8) by (nonlinear_arith);
    assert(rows * per == n * th);
    vstd::arithmetic::div_mod::lemma_fundamental_div_mod(x as int, th as int);
    assert(th * (x / th) == x / th * th) by (nonlinear_arith);
    assert(x / th < n) by (nonlinear_arith)
        requires
            x < n * th,
            th > 0,
    ;
    if tid + i * th == x {
        vstd::arithmetic::div_mod::lemma_fundamental_div_mod_converse(
            x as int,
            th as int,
            i as int,
            tid as int,
        );
    }
}

} // verus!
