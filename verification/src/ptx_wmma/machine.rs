//! A reading of PTX text: the instructions that a text spells, and what they do to registers. The
//! arithmetic is that of integers: it is the device's as long as no number overflows.
use vstd::arithmetic::power2::*;
use vstd::prelude::*;

use crate::text;

verus! {

/// Whether a character does not occur in a text.
pub open spec fn lacks(s: Seq<char>, c: char) -> bool {
    forall|i: int| 0 <= i < s.len() ==> #[trigger] s[i] != c
}

/// The place of the first of a character, or the length of the text where there is none.
pub open spec fn first(s: Seq<char>, c: char) -> int
    decreases s.len(),
{
    if s.len() == 0 {
        0
    } else if s[0] == c {
        0
    } else {
        1 + first(s.skip(1), c)
    }
}

/// A place is within the text.
pub proof fn lemma_first_within(s: Seq<char>, c: char)
    ensures
        0 <= first(s, c) <= s.len(),
    decreases s.len(),
{
    if s.len() > 0 && s[0] != c {
        lemma_first_within(s.skip(1), c);
    }
}

/// Behind a text without the character, the first one is the next.
pub proof fn lemma_first(a: Seq<char>, c: char, b: Seq<char>)
    requires
        lacks(a, c),
    ensures
        first(a + seq![c] + b, c) == a.len(),
        first(a, c) == a.len(),
    decreases a.len(),
{
    let s = a + seq![c] + b;
    if a.len() > 0 {
        assert(s[0] == a[0]);
        assert(s.skip(1) =~= a.skip(1) + seq![c] + b);
        lemma_first(a.skip(1), c, b);
    } else {
        assert(s[0] == c);
    }
}

/// The parts of a text between a character.
pub open spec fn split(s: Seq<char>, c: char) -> Seq<Seq<char>>
    decreases s.len(),
{
    proof {
        lemma_first_within(s, c);
    }
    let k = first(s, c);
    if k >= s.len() {
        seq![s]
    } else {
        seq![s.take(k)] + split(s.skip(k + 1), c)
    }
}

/// An instruction: what it does, and its operands.
pub ghost struct Insn {
    pub op: Seq<char>,
    pub args: Seq<Seq<char>>,
}

/// The instruction of a line: four spaces, the operation, a space, the operands between commas, and
/// a semicolon.
pub open spec fn insn_of(line: Seq<char>) -> Insn {
    let body = line.subrange(4, line.len() - 1);
    let k = first(body, ' ');
    Insn { op: body.take(k), args: split(body.skip(k + 1), ',') }
}

/// The instructions of a text, line by line.
#[verifier::opaque]
pub open spec fn program(t: Seq<char>) -> Seq<Insn>
    decreases t.len(),
{
    proof {
        lemma_first_within(t, '\n');
    }
    let k = first(t, '\n');
    if k >= t.len() {
        Seq::empty()
    } else {
        seq![insn_of(t.take(k))] + program(t.skip(k + 1))
    }
}

/// Operands between commas.
pub open spec fn listed(args: Seq<Seq<char>>) -> Seq<char>
    decreases args.len(),
{
    if args.len() == 0 {
        Seq::empty()
    } else if args.len() == 1 {
        args[0]
    } else {
        args[0] + seq![','] + listed(args.skip(1))
    }
}

/// Whether a text can stand as an operand.
pub open spec fn operand(s: Seq<char>) -> bool {
    lacks(s, ',') && lacks(s, '\n')
}

/// The line of an instruction.
pub open spec fn line(op: Seq<char>, args: Seq<Seq<char>>) -> Seq<char> {
    seq![' ', ' ', ' ', ' '] + op + seq![' '] + listed(args) + seq![';', '\n']
}

/// Listed operands are split again.
proof fn lemma_listed(args: Seq<Seq<char>>)
    requires
        args.len() > 0,
        forall|k: int| 0 <= k < args.len() ==> operand(#[trigger] args[k]),
    ensures
        split(listed(args), ',') == args,
        lacks(listed(args), '\n'),
    decreases args.len(),
{
    let a = args[0];
    assert(operand(a));
    if args.len() == 1 {
        lemma_first(a, ',', Seq::empty());
        assert(seq![a] =~= args);
    } else {
        let rest = args.skip(1);
        assert forall|k: int| 0 <= k < rest.len() implies operand(#[trigger] rest[k]) by {
            assert(rest[k] == args[k + 1]);
        }
        lemma_listed(rest);
        let s = listed(args);
        lemma_first(a, ',', listed(rest));
        assert(s.take(a.len() as int) =~= a);
        assert(s.skip(a.len() as int + 1) =~= listed(rest));
        assert(seq![a] + rest =~= args);
    }
}

/// Whether a text is whole lines that spell these instructions.
pub open spec fn reads(t: Seq<char>, p: Seq<Insn>) -> bool {
    &&& t.len() == 0 || t.last() == '\n'
    &&& program(t) == p
}

/// Behind whole lines the reading goes on.
pub proof fn lemma_program_add(a: Seq<char>, b: Seq<char>)
    requires
        a.len() == 0 || a.last() == '\n',
    ensures
        program(a + b) == program(a) + program(b),
    decreases a.len(),
{
    reveal(program);
    lemma_first_within(a, '\n');
    if a.len() == 0 {
        assert(a + b =~= b);
        assert(program(a) + program(b) =~= program(b));
    } else {
        let k = first(a, '\n');
        lemma_newline(a);
        lemma_first_add(a, b);
        let s = a + b;
        assert(s.take(k) =~= a.take(k));
        assert(s.skip(k + 1) =~= a.skip(k + 1) + b);
        lemma_program_add(a.skip(k + 1), b);
        assert(seq![insn_of(a.take(k))] + (program(a.skip(k + 1)) + program(b)) =~= (seq![
            insn_of(a.take(k)),
        ] + program(a.skip(k + 1))) + program(b));
    }
}

/// A text that ends a line has the end of one.
proof fn lemma_newline(a: Seq<char>)
    requires
        a.len() > 0,
        a.last() == '\n',
    ensures
        first(a, '\n') < a.len(),
    decreases a.len(),
{
    if a[0] != '\n' {
        assert(a.skip(1).last() == '\n');
        lemma_newline(a.skip(1));
    }
}

/// What follows does not change where the first line ends.
proof fn lemma_first_add(a: Seq<char>, b: Seq<char>)
    requires
        first(a, '\n') < a.len(),
    ensures
        first(a + b, '\n') == first(a, '\n'),
    decreases a.len(),
{
    assert((a + b)[0] == a[0]);
    if a[0] != '\n' {
        assert((a + b).skip(1) =~= a.skip(1) + b);
        lemma_first_add(a.skip(1), b);
    }
}

/// Two readings, one behind the other.
pub proof fn lemma_reads_add(a: Seq<char>, p: Seq<Insn>, b: Seq<char>, q: Seq<Insn>)
    requires
        reads(a, p),
        reads(b, q),
    ensures
        reads(a + b, p + q),
{
    lemma_program_add(a, b);
    if b.len() > 0 {
        assert((a + b).last() == b.last());
    } else {
        assert(a + b =~= a);
    }
}

/// A text with an instruction is some text.
pub proof fn lemma_some_text(t: Seq<char>, p: Seq<Insn>)
    requires
        reads(t, p),
        p.len() > 0,
    ensures
        t.len() > 0,
        t.last() == '\n',
{
    reveal(program);
}

/// No text is no instruction.
pub proof fn lemma_reads_nothing()
    ensures
        reads(Seq::empty(), Seq::empty()),
        reads(""@, Seq::empty()),
{
    reveal(program);
    reveal_strlit("");
    assert(""@ =~= Seq::<char>::empty());
}

/// The line of an instruction spells it.
pub proof fn lemma_reads_line(op: Seq<char>, args: Seq<Seq<char>>)
    requires
        lacks(op, ' '),
        lacks(op, '\n'),
        args.len() > 0,
        forall|k: int| 0 <= k < args.len() ==> operand(#[trigger] args[k]),
    ensures
        reads(line(op, args), seq![Insn { op, args }]),
{
    reveal(program);
    lemma_listed(args);
    let t = line(op, args);
    let all = listed(args);
    let body = op + seq![' '] + all;
    let l = seq![' ', ' ', ' ', ' '] + body + seq![';'];
    assert(t =~= l + seq!['\n'] + Seq::<char>::empty());
    assert(lacks(l, '\n'));
    lemma_first(l, '\n', Seq::empty());
    assert(t.take(l.len() as int) =~= l);
    assert(t.skip(l.len() as int + 1) =~= Seq::<char>::empty());
    assert(l.subrange(4, l.len() - 1) =~= body);
    lemma_first(op, ' ', all);
    assert(body.take(op.len() as int) =~= op);
    assert(body.skip(op.len() as int + 1) =~= all);
    assert(program(Seq::<char>::empty()) =~= Seq::<Insn>::empty());
    assert(seq![insn_of(l)] + Seq::<Insn>::empty() =~= seq![Insn { op, args }]);
}

/// A list of two operands.
pub proof fn lemma_listed2(a: Seq<char>, b: Seq<char>)
    ensures
        listed(seq![a, b]) == a + seq![','] + b,
{
    reveal_with_fuel(listed, 2);
    assert(seq![a, b].skip(1) =~= seq![b]);
}

/// A list of three operands.
pub proof fn lemma_listed3(a: Seq<char>, b: Seq<char>, c: Seq<char>)
    ensures
        listed(seq![a, b, c]) == a + seq![','] + b + seq![','] + c,
{
    assert(seq![a, b, c].skip(1) =~= seq![b, c]);
    lemma_listed2(b, c);
    assert(a + seq![','] + (b + seq![','] + c) =~= a + seq![','] + b + seq![','] + c);
}

/// A list of four operands.
pub proof fn lemma_listed4(a: Seq<char>, b: Seq<char>, c: Seq<char>, d: Seq<char>)
    ensures
        listed(seq![a, b, c, d]) == a + seq![','] + b + seq![','] + c + seq![','] + d,
{
    assert(seq![a, b, c, d].skip(1) =~= seq![b, c, d]);
    lemma_listed3(b, c, d);
    assert(a + seq![','] + (b + seq![','] + c + seq![','] + d) =~= a + seq![','] + b + seq![','] + c
        + seq![','] + d);
}

/// A list of five operands.
pub proof fn lemma_listed5(a: Seq<char>, b: Seq<char>, c: Seq<char>, d: Seq<char>, e: Seq<char>)
    ensures
        listed(seq![a, b, c, d, e]) == a + seq![','] + b + seq![','] + c + seq![','] + d + seq![','] + e,
{
    assert(seq![a, b, c, d, e].skip(1) =~= seq![b, c, d, e]);
    lemma_listed4(b, c, d, e);
    assert(a + seq![','] + (b + seq![','] + c + seq![','] + d + seq![','] + e) =~= a + seq![','] + b
        + seq![','] + c + seq![','] + d + seq![','] + e);
}

/// The number that digits spell.
pub open spec fn number(s: Seq<char>) -> nat
    decreases s.len(),
{
    if s.len() == 0 {
        0
    } else {
        number(s.drop_last()) * 10 + (s.last() as nat - '0' as nat) as nat
    }
}

/// Whether a text is a number.
pub open spec fn numeral(s: Seq<char>) -> bool {
    s.len() > 0 && forall|i: int| 0 <= i < s.len() ==> '0' <= #[trigger] s[i] <= '9'
}

/// The decimal notation of a number spells it, in digits.
pub proof fn lemma_number(n: nat)
    ensures
        numeral(text::dec(n)),
        number(text::dec(n)) == n,
        operand(text::dec(n)),
        lacks(text::dec(n), '#'),
        lacks(text::dec(n), '+'),
    decreases n,
{
    reveal(text::dec);
    reveal_with_fuel(number, 2);
    if n >= 10 {
        lemma_number(n / 10);
        let s = text::dec(n);
        assert(s.drop_last() =~= text::dec(n / 10));
        assert(text::digit(n % 10) as nat == '0' as nat + n % 10);
    } else {
        let s = seq![text::digit(n)];
        assert(s.drop_last() =~= Seq::<char>::empty());
        assert(text::digit(n) as nat == '0' as nat + n);
    }
}

/// What a register of floating-point numbers holds, as an expression.
pub ghost enum Term {
    /// A constant, or what the register held at first.
    Start(Seq<char>),
    /// The number at an address of global memory.
    At(int),
    /// An operation on one, two or three numbers.
    One(Seq<char>, Box<Term>),
    Two(Seq<char>, Box<Term>, Box<Term>),
    Three(Seq<char>, Box<Term>, Box<Term>, Box<Term>),
}

/// An operand of an instruction that is recorded: an address, or a name.
pub ghost enum Given {
    Place(int),
    Name(Seq<char>),
}

/// An instruction that is recorded, with the addresses that it was given.
pub ghost struct Event {
    pub op: Seq<char>,
    pub given: Seq<Given>,
}

/// What an operation does.
pub ghost enum Kind {
    Add,
    Sub,
    Mul,
    Div,
    Rem,
    Min,
    Shl,
    Shr,
    And,
    Or,
    Xor,
    Mov,
    /// Reads a floating-point number from global memory.
    Load,
    /// Writes one there, or two, one behind the other.
    Store,
    StorePair,
    /// Computes with floating-point numbers.
    Compute,
    /// Anything else: it is recorded.
    Other,
}

/// What an operation on integers does.
pub open spec fn kind(op: Seq<char>) -> Kind {
    if op == "add.u32"@ || op == "add.s64"@ {
        Kind::Add
    } else if op == "sub.u32"@ {
        Kind::Sub
    } else if op == "mul.lo.s32"@ || op == "mul.wide.u32"@ {
        Kind::Mul
    } else if op == "div.u32"@ {
        Kind::Div
    } else if op == "rem.u32"@ {
        Kind::Rem
    } else if op == "min.u32"@ {
        Kind::Min
    } else if op == "shl.b32"@ {
        Kind::Shl
    } else if op == "shr.u32"@ {
        Kind::Shr
    } else if op == "and.b32"@ {
        Kind::And
    } else if op == "or.b32"@ {
        Kind::Or
    } else if op == "xor.b32"@ {
        Kind::Xor
    } else if op == "mov.u32"@ {
        Kind::Mov
    } else {
        float_kind(op)
    }
}

/// What an operation on floating-point numbers does.
pub open spec fn float_kind(op: Seq<char>) -> Kind {
    if op == "ld.global.f32"@ {
        Kind::Load
    } else if op == "st.global.f32"@ {
        Kind::Store
    } else if op == "st.global.v2.f32"@ || op == "st.global.cs.v2.f32"@ {
        Kind::StorePair
    } else if op == "add.f32"@ || op == "mul.f32"@ || op == "max.f32"@ || op == "fma.rn.f32"@ || op
        == "ex2.approx.f32"@ || op == "rcp.approx.f32"@ || op == "tanh.approx.f32"@ {
        Kind::Compute
    } else {
        Kind::Other
    }
}

/// How the operations on integers are spelled.
pub proof fn lemma_integer_operations()
    ensures
        "add.u32"@.len() == 7 && "add.u32"@[0] == 'a' && "add.u32"@[1] == 'd' && "add.u32"@[2] == 'd' && "add.u32"@[3] == '.' && "add.u32"@[4] == 'u' && "add.u32"@[5] == '3' && "add.u32"@[6] == '2',
        "add.s64"@.len() == 7 && "add.s64"@[0] == 'a' && "add.s64"@[1] == 'd' && "add.s64"@[2] == 'd' && "add.s64"@[3] == '.' && "add.s64"@[4] == 's' && "add.s64"@[5] == '6' && "add.s64"@[6] == '4',
        "sub.u32"@.len() == 7 && "sub.u32"@[0] == 's' && "sub.u32"@[1] == 'u' && "sub.u32"@[2] == 'b' && "sub.u32"@[3] == '.' && "sub.u32"@[4] == 'u' && "sub.u32"@[5] == '3' && "sub.u32"@[6] == '2',
        "mul.lo.s32"@.len() == 10 && "mul.lo.s32"@[0] == 'm' && "mul.lo.s32"@[1] == 'u' && "mul.lo.s32"@[2] == 'l' && "mul.lo.s32"@[3] == '.' && "mul.lo.s32"@[4] == 'l' && "mul.lo.s32"@[5] == 'o' && "mul.lo.s32"@[6] == '.' && "mul.lo.s32"@[7] == 's' && "mul.lo.s32"@[8] == '3' && "mul.lo.s32"@[9] == '2',
        "mul.wide.u32"@.len() == 12 && "mul.wide.u32"@[0] == 'm' && "mul.wide.u32"@[1] == 'u' && "mul.wide.u32"@[2] == 'l' && "mul.wide.u32"@[3] == '.' && "mul.wide.u32"@[4] == 'w' && "mul.wide.u32"@[5] == 'i' && "mul.wide.u32"@[6] == 'd' && "mul.wide.u32"@[7] == 'e' && "mul.wide.u32"@[8] == '.' && "mul.wide.u32"@[9] == 'u' && "mul.wide.u32"@[10] == '3' && "mul.wide.u32"@[11] == '2',
        "div.u32"@.len() == 7 && "div.u32"@[0] == 'd' && "div.u32"@[1] == 'i' && "div.u32"@[2] == 'v' && "div.u32"@[3] == '.' && "div.u32"@[4] == 'u' && "div.u32"@[5] == '3' && "div.u32"@[6] == '2',
        "rem.u32"@.len() == 7 && "rem.u32"@[0] == 'r' && "rem.u32"@[1] == 'e' && "rem.u32"@[2] == 'm' && "rem.u32"@[3] == '.' && "rem.u32"@[4] == 'u' && "rem.u32"@[5] == '3' && "rem.u32"@[6] == '2',
        "min.u32"@.len() == 7 && "min.u32"@[0] == 'm' && "min.u32"@[1] == 'i' && "min.u32"@[2] == 'n' && "min.u32"@[3] == '.' && "min.u32"@[4] == 'u' && "min.u32"@[5] == '3' && "min.u32"@[6] == '2',
        "shl.b32"@.len() == 7 && "shl.b32"@[0] == 's' && "shl.b32"@[1] == 'h' && "shl.b32"@[2] == 'l' && "shl.b32"@[3] == '.' && "shl.b32"@[4] == 'b' && "shl.b32"@[5] == '3' && "shl.b32"@[6] == '2',
        "shr.u32"@.len() == 7 && "shr.u32"@[0] == 's' && "shr.u32"@[1] == 'h' && "shr.u32"@[2] == 'r' && "shr.u32"@[3] == '.' && "shr.u32"@[4] == 'u' && "shr.u32"@[5] == '3' && "shr.u32"@[6] == '2',
        "and.b32"@.len() == 7 && "and.b32"@[0] == 'a' && "and.b32"@[1] == 'n' && "and.b32"@[2] == 'd' && "and.b32"@[3] == '.' && "and.b32"@[4] == 'b' && "and.b32"@[5] == '3' && "and.b32"@[6] == '2',
        "or.b32"@.len() == 6 && "or.b32"@[0] == 'o' && "or.b32"@[1] == 'r' && "or.b32"@[2] == '.' && "or.b32"@[3] == 'b' && "or.b32"@[4] == '3' && "or.b32"@[5] == '2',
        "xor.b32"@.len() == 7 && "xor.b32"@[0] == 'x' && "xor.b32"@[1] == 'o' && "xor.b32"@[2] == 'r' && "xor.b32"@[3] == '.' && "xor.b32"@[4] == 'b' && "xor.b32"@[5] == '3' && "xor.b32"@[6] == '2',
        "mov.u32"@.len() == 7 && "mov.u32"@[0] == 'm' && "mov.u32"@[1] == 'o' && "mov.u32"@[2] == 'v' && "mov.u32"@[3] == '.' && "mov.u32"@[4] == 'u' && "mov.u32"@[5] == '3' && "mov.u32"@[6] == '2',
{
    reveal_strlit("add.u32");
    reveal_strlit("add.s64");
    reveal_strlit("sub.u32");
    reveal_strlit("mul.lo.s32");
    reveal_strlit("mul.wide.u32");
    reveal_strlit("div.u32");
    reveal_strlit("rem.u32");
    reveal_strlit("min.u32");
    reveal_strlit("shl.b32");
    reveal_strlit("shr.u32");
    reveal_strlit("and.b32");
    reveal_strlit("or.b32");
    reveal_strlit("xor.b32");
    reveal_strlit("mov.u32");
}

/// How the operations on floating-point numbers are spelled.
pub proof fn lemma_float_operations()
    ensures
        "ld.global.f32"@.len() == 13 && "ld.global.f32"@[0] == 'l' && "ld.global.f32"@[1] == 'd' && "ld.global.f32"@[2] == '.' && "ld.global.f32"@[3] == 'g' && "ld.global.f32"@[4] == 'l' && "ld.global.f32"@[5] == 'o' && "ld.global.f32"@[6] == 'b' && "ld.global.f32"@[7] == 'a' && "ld.global.f32"@[8] == 'l' && "ld.global.f32"@[9] == '.' && "ld.global.f32"@[10] == 'f' && "ld.global.f32"@[11] == '3' && "ld.global.f32"@[12] == '2',
        "st.global.f32"@.len() == 13 && "st.global.f32"@[0] == 's' && "st.global.f32"@[1] == 't' && "st.global.f32"@[2] == '.' && "st.global.f32"@[3] == 'g' && "st.global.f32"@[4] == 'l' && "st.global.f32"@[5] == 'o' && "st.global.f32"@[6] == 'b' && "st.global.f32"@[7] == 'a' && "st.global.f32"@[8] == 'l' && "st.global.f32"@[9] == '.' && "st.global.f32"@[10] == 'f' && "st.global.f32"@[11] == '3' && "st.global.f32"@[12] == '2',
        "st.global.v2.f32"@.len() == 16 && "st.global.v2.f32"@[0] == 's' && "st.global.v2.f32"@[1] == 't' && "st.global.v2.f32"@[2] == '.' && "st.global.v2.f32"@[3] == 'g' && "st.global.v2.f32"@[4] == 'l' && "st.global.v2.f32"@[5] == 'o' && "st.global.v2.f32"@[6] == 'b' && "st.global.v2.f32"@[7] == 'a' && "st.global.v2.f32"@[8] == 'l' && "st.global.v2.f32"@[9] == '.' && "st.global.v2.f32"@[10] == 'v' && "st.global.v2.f32"@[11] == '2' && "st.global.v2.f32"@[12] == '.' && "st.global.v2.f32"@[13] == 'f' && "st.global.v2.f32"@[14] == '3' && "st.global.v2.f32"@[15] == '2',
        "st.global.cs.v2.f32"@.len() == 19 && "st.global.cs.v2.f32"@[0] == 's' && "st.global.cs.v2.f32"@[1] == 't' && "st.global.cs.v2.f32"@[2] == '.' && "st.global.cs.v2.f32"@[3] == 'g' && "st.global.cs.v2.f32"@[4] == 'l' && "st.global.cs.v2.f32"@[5] == 'o' && "st.global.cs.v2.f32"@[6] == 'b' && "st.global.cs.v2.f32"@[7] == 'a' && "st.global.cs.v2.f32"@[8] == 'l' && "st.global.cs.v2.f32"@[9] == '.' && "st.global.cs.v2.f32"@[10] == 'c' && "st.global.cs.v2.f32"@[11] == 's' && "st.global.cs.v2.f32"@[12] == '.' && "st.global.cs.v2.f32"@[13] == 'v' && "st.global.cs.v2.f32"@[14] == '2' && "st.global.cs.v2.f32"@[15] == '.' && "st.global.cs.v2.f32"@[16] == 'f' && "st.global.cs.v2.f32"@[17] == '3' && "st.global.cs.v2.f32"@[18] == '2',
        "add.f32"@.len() == 7 && "add.f32"@[0] == 'a' && "add.f32"@[1] == 'd' && "add.f32"@[2] == 'd' && "add.f32"@[3] == '.' && "add.f32"@[4] == 'f' && "add.f32"@[5] == '3' && "add.f32"@[6] == '2',
        "mul.f32"@.len() == 7 && "mul.f32"@[0] == 'm' && "mul.f32"@[1] == 'u' && "mul.f32"@[2] == 'l' && "mul.f32"@[3] == '.' && "mul.f32"@[4] == 'f' && "mul.f32"@[5] == '3' && "mul.f32"@[6] == '2',
        "max.f32"@.len() == 7 && "max.f32"@[0] == 'm' && "max.f32"@[1] == 'a' && "max.f32"@[2] == 'x' && "max.f32"@[3] == '.' && "max.f32"@[4] == 'f' && "max.f32"@[5] == '3' && "max.f32"@[6] == '2',
        "fma.rn.f32"@.len() == 10 && "fma.rn.f32"@[0] == 'f' && "fma.rn.f32"@[1] == 'm' && "fma.rn.f32"@[2] == 'a' && "fma.rn.f32"@[3] == '.' && "fma.rn.f32"@[4] == 'r' && "fma.rn.f32"@[5] == 'n' && "fma.rn.f32"@[6] == '.' && "fma.rn.f32"@[7] == 'f' && "fma.rn.f32"@[8] == '3' && "fma.rn.f32"@[9] == '2',
        "ex2.approx.f32"@.len() == 14 && "ex2.approx.f32"@[0] == 'e' && "ex2.approx.f32"@[1] == 'x' && "ex2.approx.f32"@[2] == '2' && "ex2.approx.f32"@[3] == '.' && "ex2.approx.f32"@[4] == 'a' && "ex2.approx.f32"@[5] == 'p' && "ex2.approx.f32"@[6] == 'p' && "ex2.approx.f32"@[7] == 'r' && "ex2.approx.f32"@[8] == 'o' && "ex2.approx.f32"@[9] == 'x' && "ex2.approx.f32"@[10] == '.' && "ex2.approx.f32"@[11] == 'f' && "ex2.approx.f32"@[12] == '3' && "ex2.approx.f32"@[13] == '2',
        "rcp.approx.f32"@.len() == 14 && "rcp.approx.f32"@[0] == 'r' && "rcp.approx.f32"@[1] == 'c' && "rcp.approx.f32"@[2] == 'p' && "rcp.approx.f32"@[3] == '.' && "rcp.approx.f32"@[4] == 'a' && "rcp.approx.f32"@[5] == 'p' && "rcp.approx.f32"@[6] == 'p' && "rcp.approx.f32"@[7] == 'r' && "rcp.approx.f32"@[8] == 'o' && "rcp.approx.f32"@[9] == 'x' && "rcp.approx.f32"@[10] == '.' && "rcp.approx.f32"@[11] == 'f' && "rcp.approx.f32"@[12] == '3' && "rcp.approx.f32"@[13] == '2',
        "tanh.approx.f32"@.len() == 15 && "tanh.approx.f32"@[0] == 't' && "tanh.approx.f32"@[1] == 'a' && "tanh.approx.f32"@[2] == 'n' && "tanh.approx.f32"@[3] == 'h' && "tanh.approx.f32"@[4] == '.' && "tanh.approx.f32"@[5] == 'a' && "tanh.approx.f32"@[6] == 'p' && "tanh.approx.f32"@[7] == 'p' && "tanh.approx.f32"@[8] == 'r' && "tanh.approx.f32"@[9] == 'o' && "tanh.approx.f32"@[10] == 'x' && "tanh.approx.f32"@[11] == '.' && "tanh.approx.f32"@[12] == 'f' && "tanh.approx.f32"@[13] == '3' && "tanh.approx.f32"@[14] == '2',
{
    reveal_strlit("ld.global.f32");
    reveal_strlit("st.global.f32");
    reveal_strlit("st.global.v2.f32");
    reveal_strlit("st.global.cs.v2.f32");
    reveal_strlit("add.f32");
    reveal_strlit("mul.f32");
    reveal_strlit("max.f32");
    reveal_strlit("fma.rn.f32");
    reveal_strlit("ex2.approx.f32");
    reveal_strlit("rcp.approx.f32");
    reveal_strlit("tanh.approx.f32");
}

/// The operations on integers.
pub proof fn lemma_kinds()
    ensures
        kind("add.u32"@) == Kind::Add,
        kind("add.s64"@) == Kind::Add,
        kind("sub.u32"@) == Kind::Sub,
        kind("mul.lo.s32"@) == Kind::Mul,
        kind("mul.wide.u32"@) == Kind::Mul,
        kind("div.u32"@) == Kind::Div,
        kind("rem.u32"@) == Kind::Rem,
        kind("min.u32"@) == Kind::Min,
        kind("shl.b32"@) == Kind::Shl,
        kind("shr.u32"@) == Kind::Shr,
        kind("and.b32"@) == Kind::And,
        kind("or.b32"@) == Kind::Or,
        kind("xor.b32"@) == Kind::Xor,
        kind("mov.u32"@) == Kind::Mov,
{
    lemma_integer_operations();
}

/// An operation whose third character from the end is none of `u`, `s` and `b` is none on integers.
pub proof fn lemma_not_on_integers(op: Seq<char>)
    requires
        op.len() >= 3,
        op[op.len() - 3] != 'u' && op[op.len() - 3] != 's' && op[op.len() - 3] != 'b',
    ensures
        kind(op) == float_kind(op),
{
    lemma_integer_operations();
}

/// The operations on floating-point numbers.
pub proof fn lemma_float_kinds()
    ensures
        kind("ld.global.f32"@) == Kind::Load,
        kind("st.global.f32"@) == Kind::Store,
        kind("st.global.v2.f32"@) == Kind::StorePair,
        kind("st.global.cs.v2.f32"@) == Kind::StorePair,
        kind("add.f32"@) == Kind::Compute,
        kind("mul.f32"@) == Kind::Compute,
        kind("max.f32"@) == Kind::Compute,
        kind("fma.rn.f32"@) == Kind::Compute,
        kind("ex2.approx.f32"@) == Kind::Compute,
        kind("rcp.approx.f32"@) == Kind::Compute,
        kind("tanh.approx.f32"@) == Kind::Compute,
{
    lemma_float_operations();
    lemma_not_on_integers("ld.global.f32"@);
    lemma_not_on_integers("st.global.f32"@);
    lemma_not_on_integers("st.global.v2.f32"@);
    lemma_not_on_integers("st.global.cs.v2.f32"@);
    lemma_not_on_integers("add.f32"@);
    lemma_not_on_integers("mul.f32"@);
    lemma_not_on_integers("max.f32"@);
    lemma_not_on_integers("fma.rn.f32"@);
    lemma_not_on_integers("ex2.approx.f32"@);
    lemma_not_on_integers("rcp.approx.f32"@);
    lemma_not_on_integers("tanh.approx.f32"@);
}

/// The result of an operation on two integers; a move takes the first.
pub open spec fn result(k: Kind, a: int, b: int) -> int {
    match k {
        Kind::Add => a + b,
        Kind::Sub => a - b,
        Kind::Mul => a * b,
        Kind::Div => a / b,
        Kind::Rem => a % b,
        Kind::Min => if a <= b {
            a
        } else {
            b
        },
        Kind::Shl => a * pow2(b as nat),
        Kind::Shr => a / pow2(b as nat) as int,
        Kind::And => (a as u32 & b as u32) as int,
        Kind::Or => (a as u32 | b as u32) as int,
        Kind::Xor => (a as u32 ^ b as u32) as int,
        _ => a,
    }
}

/// A thread: what its registers of integers and the symbols hold, what its registers of
/// floating-point numbers hold, what it stored at which addresses, and what else it did.
pub ghost struct Machine {
    pub held: spec_fn(Seq<char>) -> int,
    pub float: spec_fn(Seq<char>) -> Term,
    pub stores: Seq<(int, Term)>,
    pub trace: Seq<Event>,
}

impl Machine {
    /// The value of an operand: a number, or what its register holds.
    pub open spec fn value(self, s: Seq<char>) -> int {
        if numeral(s) {
            number(s) as int
        } else {
            (self.held)(s)
        }
    }

    /// The floating-point number of an operand: what its register holds, or a constant.
    pub open spec fn term(self, s: Seq<char>) -> Term {
        if s.len() > 0 && s[0] == '%' {
            (self.float)(s)
        } else {
            Term::Start(s)
        }
    }

    /// The address between brackets: a register, with a number added where there is one.
    pub open spec fn address(self, s: Seq<char>) -> int {
        let parts = split(s.subrange(1, s.len() - 1), '+');
        self.value(parts[0]) + if parts.len() > 1 {
            self.value(parts[1])
        } else {
            0
        }
    }

    /// An operand of an instruction that is recorded.
    pub open spec fn given(self, s: Seq<char>) -> Given {
        if s.len() > 0 && s[0] == '[' {
            Given::Place(self.address(s))
        } else {
            Given::Name(s)
        }
    }

    /// A register of integers set.
    pub open spec fn set(self, d: Seq<char>, v: int) -> Machine {
        Machine {
            held: |r: Seq<char>|
                if r == d {
                    v
                } else {
                    (self.held)(r)
                },
            ..self
        }
    }

    /// A register of floating-point numbers set.
    pub open spec fn set_float(self, d: Seq<char>, t: Term) -> Machine {
        Machine {
            float: |r: Seq<char>|
                if r == d {
                    t
                } else {
                    (self.float)(r)
                },
            ..self
        }
    }

    /// What a computation gives.
    pub open spec fn computed(self, i: Insn) -> Term {
        let a = self.term(i.args[1]);
        if i.args.len() == 2 {
            Term::One(i.op, Box::new(a))
        } else if i.args.len() == 3 {
            Term::Two(i.op, Box::new(a), Box::new(self.term(i.args[2])))
        } else {
            Term::Three(
                i.op,
                Box::new(a),
                Box::new(self.term(i.args[2])),
                Box::new(self.term(i.args[3])),
            )
        }
    }

    /// After an instruction.
    pub open spec fn after(self, i: Insn) -> Machine {
        match kind(i.op) {
            Kind::Load => self.set_float(i.args[0], Term::At(self.address(i.args[1]))),
            Kind::Store => Machine {
                stores: self.stores.push((self.address(i.args[0]), self.term(i.args[1]))),
                ..self
            },
            Kind::StorePair => Machine {
                stores: self.stores.push(
                    (self.address(i.args[0]), self.term(i.args[1].skip(1))),
                ).push((self.address(i.args[0]) + 4, self.term(i.args[2].drop_last()))),
                ..self
            },
            Kind::Compute => self.set_float(i.args[0], self.computed(i)),
            Kind::Other => Machine {
                trace: self.trace.push(
                    Event { op: i.op, given: Seq::new(i.args.len(), |j: int| self.given(i.args[j])) },
                ),
                ..self
            },
            k => self.set(
                i.args[0],
                result(
                    k,
                    self.value(i.args[1]),
                    if i.args.len() > 2 {
                        self.value(i.args[2])
                    } else {
                        0
                    },
                ),
            ),
        }
    }

    /// After the first `k` of some instructions.
    pub open spec fn run(self, p: Seq<Insn>, k: nat) -> Machine
        decreases k,
    {
        if k == 0 {
            self
        } else {
            self.run(p, (k - 1) as nat).after(p[k - 1])
        }
    }

    /// After all instructions of a text.
    pub open spec fn through(self, t: Seq<char>) -> Machine {
        self.run(program(t), program(t).len())
    }

    /// Instructions behind others go on from where those end.
    pub proof fn lemma_run_add(self, p: Seq<Insn>, q: Seq<Insn>, k: nat)
        requires
            k <= q.len(),
        ensures
            self.run(p + q, p.len() + k) == self.run(p, p.len()).run(q, k),
        decreases k,
    {
        if k > 0 {
            self.lemma_run_add(p, q, (k - 1) as nat);
            assert((p + q)[p.len() + k - 1] == q[k - 1]);
            assert((p.len() + k - 1) as nat == p.len() + (k - 1) as nat);
        } else {
            self.lemma_run_prefix(p, q, p.len());
        }
    }

    /// Instructions do not depend on what follows.
    proof fn lemma_run_prefix(self, p: Seq<Insn>, q: Seq<Insn>, k: nat)
        requires
            k <= p.len(),
        ensures
            self.run(p + q, k) == self.run(p, k),
        decreases k,
    {
        if k > 0 {
            self.lemma_run_prefix(p, q, (k - 1) as nat);
            assert((p + q)[k - 1] == p[k - 1]);
        }
    }

    /// A text behind whole lines goes on from where those end.
    pub proof fn lemma_through_add(self, a: Seq<char>, b: Seq<char>)
        requires
            a.len() == 0 || a.last() == '\n',
        ensures
            self.through(a + b) == self.through(a).through(b),
    {
        lemma_program_add(a, b);
        self.lemma_run_add(program(a), program(b), program(b).len());
    }
}

/// The address in a register.
pub proof fn lemma_address(m: Machine, s: Seq<char>, r: Seq<char>)
    requires
        s == seq!['['] + r + seq![']'],
        lacks(r, '+'),
    ensures
        s[0] == '[',
        m.address(s) == m.value(r),
{
    assert(s.subrange(1, s.len() - 1) =~= r);
    lemma_first(r, '+', Seq::empty());
}

/// The address behind a register.
pub proof fn lemma_address_behind(m: Machine, s: Seq<char>, r: Seq<char>, x: Seq<char>)
    requires
        s == seq!['['] + r + seq!['+'] + x + seq![']'],
        lacks(r, '+'),
        lacks(x, '+'),
    ensures
        s[0] == '[',
        m.address(s) == m.value(r) + m.value(x),
{
    reveal_with_fuel(split, 2);
    let inner = s.subrange(1, s.len() - 1);
    assert(inner =~= r + seq!['+'] + x);
    lemma_first(r, '+', x);
    lemma_first(x, '+', Seq::empty());
    assert(inner.take(r.len() as int) =~= r);
    assert(inner.skip(r.len() as int + 1) =~= x);
    assert(split(inner, '+') =~= seq![r, x]);
}

/// The numbers that stand in templates.
pub proof fn lemma_numbers()
    ensures
        numeral("1"@) && number("1"@) == 1,
        numeral("2"@) && number("2"@) == 2,
        numeral("3"@) && number("3"@) == 3,
        numeral("4"@) && number("4"@) == 4,
        numeral("5"@) && number("5"@) == 5,
        numeral("7"@) && number("7"@) == 7,
        numeral("8"@) && number("8"@) == 8,
        numeral("15"@) && number("15"@) == 15,
        numeral("31"@) && number("31"@) == 31,
{
    reveal_with_fuel(number, 3);
    reveal_strlit("1");
    reveal_strlit("2");
    reveal_strlit("3");
    reveal_strlit("4");
    reveal_strlit("5");
    reveal_strlit("7");
    reveal_strlit("8");
    reveal_strlit("15");
    reveal_strlit("31");
    assert("1"@.drop_last() =~= Seq::<char>::empty());
    assert("2"@.drop_last() =~= Seq::<char>::empty());
    assert("3"@.drop_last() =~= Seq::<char>::empty());
    assert("4"@.drop_last() =~= Seq::<char>::empty());
    assert("5"@.drop_last() =~= Seq::<char>::empty());
    assert("7"@.drop_last() =~= Seq::<char>::empty());
    assert("8"@.drop_last() =~= Seq::<char>::empty());
    assert("15"@.drop_last().drop_last() =~= Seq::<char>::empty());
    assert("31"@.drop_last().drop_last() =~= Seq::<char>::empty());
}

} // verus!
