//! Text building blocks: decimal numbers and templates with numbered holes.
//!
//! A template is ordinary text in which `#k` (`k` one decimal digit) marks the place of the `k`-th
//! argument. `#` never stands for itself.
use vstd::prelude::*;
use vstd::string::*;

verus! {

/// `String::push`: the character is appended behind what the string holds.
pub assume_specification[ String::push ](s: &mut String, c: char)
    ensures
        final(s)@ == old(s)@.push(c),
;

/// The decimal digit `d` as a character.
pub open spec fn digit(d: nat) -> char {
    ('0' as nat + d) as char
}

/// The decimal notation of `n`, without leading zeros.
#[verifier::opaque]
pub open spec fn dec(n: nat) -> Seq<char>
    decreases n,
{
    if n < 10 {
        seq![digit(n)]
    } else {
        dec(n / 10).push(digit(n % 10))
    }
}

/// `n` in decimal.
pub fn decimal128(n: u128) -> (r: String)
    ensures
        r@ == dec(n as nat),
    decreases n,
{
    reveal(dec);
    let d: u8 = (n % 10) as u8;
    let c: char = (48u8 + d) as char;
    let mut r = if n < 10 {
        String::new()
    } else {
        decimal128(n / 10)
    };
    r.push(c);
    assert(r@ == dec(n as nat));
    r
}

/// `n` in decimal.
pub fn decimal64(n: u64) -> (r: String)
    ensures
        r@ == dec(n as nat),
{
    decimal128(n as u128)
}

/// `n` in decimal.
pub fn decimal(n: usize) -> (r: String)
    ensures
        r@ == dec(n as nat),
{
    decimal128(n as u128)
}

/// The hexadecimal digit `d` as a character, in lower case.
pub open spec fn hex_digit(d: nat) -> char {
    if d < 10 {
        ('0' as nat + d) as char
    } else {
        ('a' as nat + d - 10) as char
    }
}

/// The hexadecimal notation of `n`, without leading zeros.
#[verifier::opaque]
pub open spec fn hex(n: nat) -> Seq<char>
    decreases n,
{
    if n < 16 {
        seq![hex_digit(n)]
    } else {
        hex(n / 16).push(hex_digit(n % 16))
    }
}

/// `n` in hexadecimal.
pub fn hexadecimal(n: u64) -> (r: String)
    ensures
        r@ == hex(n as nat),
    decreases n,
{
    reveal(hex);
    let d: u8 = (n % 16) as u8;
    let c: char = if d < 10 {
        (48u8 + d) as char
    } else {
        (87u8 + d) as char
    };
    let mut r = if n < 16 {
        String::new()
    } else {
        hexadecimal(n / 16)
    };
    r.push(c);
    assert(r@ == hex(n as nat));
    r
}

/// What the hole `#c` stands for: the argument of that number, or nothing if there is none.
pub open spec fn hole(args: Seq<Seq<char>>, c: char) -> Seq<char> {
    if '0' <= c && (c as int - '0' as int) < args.len() {
        args[c as int - '0' as int]
    } else {
        Seq::empty()
    }
}

/// The template `t` with each hole `#k` replaced by `args[k]`.
#[verifier::opaque]
pub open spec fn fill(t: Seq<char>, args: Seq<Seq<char>>) -> Seq<char>
    decreases t.len(),
{
    if t.len() == 0 {
        Seq::empty()
    } else if t.last() == '#' {
        fill(t.drop_last(), args)
    } else if t.len() >= 2 && t[t.len() - 2] == '#' {
        fill(t.drop_last(), args) + hole(args, t.last())
    } else {
        fill(t.drop_last(), args).push(t.last())
    }
}

/// The views of a list of strings.
pub open spec fn views(args: Seq<&str>) -> Seq<Seq<char>> {
    Seq::new(args.len(), |i: int| args[i]@)
}

/// The number of the hole `#c`; one that no argument has if `c` is below `0`.
fn hole_number(c: char) -> (k: usize)
    ensures
        k == (if '0' <= c { c as int - '0' as int } else { usize::MAX as int }),
{
    let code: u32 = c as u32;
    if code >= 48 {
        (code - 48) as usize
    } else {
        usize::MAX
    }
}

/// The template `t` filled with `args`.
pub fn expand(t: &str, args: &[&str]) -> (r: String)
    ensures
        r@ == fill(t@, views(args@)),
{
    let mut r = String::new();
    let mut marked: bool = false;
    assert(r@ == fill(t@.take(0), views(args@))) by {
        reveal(fill);
    }
    for c in it: t.chars()
        invariant
            it.seq() == t@,
            r@ == fill(t@.take(it.index() as int), views(args@)),
            marked == (it.index() > 0 && t@[it.index() - 1] == '#'),
    {
        let ghost pre = t@.take(it.index() as int);
        let ghost now = t@.take(it.index() + 1);
        proof {
            reveal(fill);
            assert(c == t@[it.index() as int]);
            assert(now.drop_last() == pre);
            assert(now.last() == c);
        }
        if c == '#' {
            marked = true;
        } else {
            if marked {
                let k: usize = hole_number(c);
                if k < args.len() {
                    r.append(args[k]);
                }
                assert(r@ == fill(pre, views(args@)) + hole(views(args@), c));
            } else {
                r.push(c);
            }
            marked = false;
        }
        assert(r@ == fill(now, views(args@)));
    }
    assert(t@.take(t@.len() as int) == t@);
    r
}

/// The template `t` filled with 1 argument.
pub fn expand1(t: &str, a: &str) -> (r: String)
    ensures
        r@ == fill(t@, seq![a@]),
{
    let args = [a];
    let r = expand(t, &args);
    assert(views(args@) == seq![a@]);
    r
}

/// The template `t` filled with 2 arguments.
pub fn expand2(t: &str, a: &str, b: &str) -> (r: String)
    ensures
        r@ == fill(t@, seq![a@, b@]),
{
    let args = [a, b];
    let r = expand(t, &args);
    assert(views(args@) == seq![a@, b@]);
    r
}

/// The template `t` filled with 3 arguments.
pub fn expand3(t: &str, a: &str, b: &str, c: &str) -> (r: String)
    ensures
        r@ == fill(t@, seq![a@, b@, c@]),
{
    let args = [a, b, c];
    let r = expand(t, &args);
    assert(views(args@) == seq![a@, b@, c@]);
    r
}

/// The template `t` filled with 4 arguments.
pub fn expand4(t: &str, a: &str, b: &str, c: &str, d: &str) -> (r: String)
    ensures
        r@ == fill(t@, seq![a@, b@, c@, d@]),
{
    let args = [a, b, c, d];
    let r = expand(t, &args);
    assert(views(args@) == seq![a@, b@, c@, d@]);
    r
}

/// The template `t` filled with 5 arguments.
pub fn expand5(t: &str, a: &str, b: &str, c: &str, d: &str, e: &str) -> (r: String)
    ensures
        r@ == fill(t@, seq![a@, b@, c@, d@, e@]),
{
    let args = [a, b, c, d, e];
    let r = expand(t, &args);
    assert(views(args@) == seq![a@, b@, c@, d@, e@]);
    r
}

/// The template `t` filled with 6 arguments.
pub fn expand6(t: &str, a: &str, b: &str, c: &str, d: &str, e: &str, f: &str) -> (r: String)
    ensures
        r@ == fill(t@, seq![a@, b@, c@, d@, e@, f@]),
{
    let args = [a, b, c, d, e, f];
    let r = expand(t, &args);
    assert(views(args@) == seq![a@, b@, c@, d@, e@, f@]);
    r
}

/// The template `t` filled with 7 arguments.
pub fn expand7(
    t: &str,
    a: &str,
    b: &str,
    c: &str,
    d: &str,
    e: &str,
    f: &str,
    g: &str,
) -> (r: String)
    ensures
        r@ == fill(t@, seq![a@, b@, c@, d@, e@, f@, g@]),
{
    let args = [a, b, c, d, e, f, g];
    let r = expand(t, &args);
    assert(views(args@) == seq![a@, b@, c@, d@, e@, f@, g@]);
    r
}

/// `head` followed by `tail`.
pub fn joined<'a>(head: &[&'a str], tail: &[&'a str]) -> (r: Vec<&'a str>)
    ensures
        views(r@) == views(head@) + views(tail@),
{
    let mut r: Vec<&'a str> = Vec::new();
    for i in 0..head.len()
        invariant
            r@ == head@.take(i as int),
    {
        r.push(head[i]);
        assert(head@.take(i + 1) == head@.take(i as int).push(head@[i as int]));
    }
    assert(head@.take(head@.len() as int) == head@);
    for i in 0..tail.len()
        invariant
            r@ == head@ + tail@.take(i as int),
    {
        r.push(tail[i]);
        assert(head@ + tail@.take(i + 1) == (head@ + tail@.take(i as int)).push(tail@[i as int]));
    }
    assert(tail@.take(tail@.len() as int) == tail@);
    assert(views(head@ + tail@) == views(head@) + views(tail@));
    r
}

/// The template once for each `i < n`: `#0` is `i`, `#1` is `i * step`, and `#2` onwards is `more`.
#[verifier::opaque]
pub open spec fn each(t: Seq<char>, n: nat, step: nat, more: Seq<Seq<char>>) -> Seq<char>
    decreases n,
{
    if n == 0 {
        Seq::empty()
    } else {
        let i = (n - 1) as nat;
        each(t, i, step, more) + fill(t, seq![dec(i), dec(i * step)] + more)
    }
}

/// See [`each`].
pub fn each_with(t: &str, n: usize, step: usize, more: &[&str]) -> (r: String)
    requires
        n * step <= usize::MAX,
    ensures
        r@ == each(t@, n as nat, step as nat, views(more@)),
{
    reveal(each);
    let mut r = String::new();
    for i in 0..n
        invariant
            n * step <= usize::MAX,
            r@ == each(t@, i as nat, step as nat, views(more@)),
    {
        reveal(each);
        assert(i * step <= n * step) by (nonlinear_arith)
            requires
                i <= n,
        ;
        let a = decimal(i);
        let b = decimal(i * step);
        let head = [a.as_str(), b.as_str()];
        assert(views(head@) == seq![dec(i as nat), dec(i as nat * step as nat)]);
        r.append(&expand(t, &joined(&head, more)));
    }
    r
}

/// The template once for each `i < n` and `j < m`, `j` running fastest: `#0` is `i`, `#1` is `j`,
/// `#2` is `i * si`, `#3` is `j * sj`, and `#4` onwards is `more`.
#[verifier::opaque]
pub open spec fn each2(
    t: Seq<char>,
    n: nat,
    m: nat,
    si: nat,
    sj: nat,
    more: Seq<Seq<char>>,
) -> Seq<char>
    decreases n,
{
    if n == 0 {
        Seq::empty()
    } else {
        let i = (n - 1) as nat;
        each2(t, i, m, si, sj, more) + each2_row(t, i, m, si, sj, more)
    }
}

/// The part of [`each2`] that belongs to one `i`.
#[verifier::opaque]
pub open spec fn each2_row(
    t: Seq<char>,
    i: nat,
    m: nat,
    si: nat,
    sj: nat,
    more: Seq<Seq<char>>,
) -> Seq<char>
    decreases m,
{
    if m == 0 {
        Seq::empty()
    } else {
        let j = (m - 1) as nat;
        each2_row(t, i, j, si, sj, more) + fill(
            t,
            seq![dec(i), dec(j), dec(i * si), dec(j * sj)] + more,
        )
    }
}

/// See [`each2_row`].
fn each2_row_with(t: &str, i: usize, m: usize, si: usize, sj: usize, more: &[&str]) -> (r: String)
    requires
        i * si <= usize::MAX,
        m * sj <= usize::MAX,
    ensures
        r@ == each2_row(t@, i as nat, m as nat, si as nat, sj as nat, views(more@)),
{
    reveal(each2_row);
    let mut r = String::new();
    let a = decimal(i);
    let c = decimal(i * si);
    for j in 0..m
        invariant
            m * sj <= usize::MAX,
            a@ == dec(i as nat),
            c@ == dec(i as nat * si as nat),
            r@ == each2_row(t@, i as nat, j as nat, si as nat, sj as nat, views(more@)),
    {
        reveal(each2_row);
        assert(j * sj <= m * sj) by (nonlinear_arith)
            requires
                j <= m,
        ;
        let b = decimal(j);
        let d = decimal(j * sj);
        let head = [a.as_str(), b.as_str(), c.as_str(), d.as_str()];
        assert(views(head@) == seq![
            dec(i as nat),
            dec(j as nat),
            dec(i as nat * si as nat),
            dec(j as nat * sj as nat),
        ]);
        r.append(&expand(t, &joined(&head, more)));
    }
    r
}

/// See [`each2`].
pub fn each2_with(t: &str, n: usize, m: usize, si: usize, sj: usize, more: &[&str]) -> (r: String)
    requires
        n * si <= usize::MAX,
        m * sj <= usize::MAX,
    ensures
        r@ == each2(t@, n as nat, m as nat, si as nat, sj as nat, views(more@)),
{
    reveal(each2);
    let mut r = String::new();
    for i in 0..n
        invariant
            n * si <= usize::MAX,
            m * sj <= usize::MAX,
            r@ == each2(t@, i as nat, m as nat, si as nat, sj as nat, views(more@)),
    {
        reveal(each2);
        assert(i * si <= n * si) by (nonlinear_arith)
            requires
                i <= n,
        ;
        r.append(&each2_row_with(t, i, m, si, sj, more));
    }
    r
}

/// [`each`] with 0 further arguments.
pub fn each_0(t: &str, n: usize, step: usize) -> (r: String)
    requires
        n * step <= usize::MAX,
    ensures
        r@ == each(t@, n as nat, step as nat, Seq::empty()),
{
    let more: [&str; 0] = [];
    let r = each_with(t, n, step, &more);
    assert(views(more@) == Seq::<Seq<char>>::empty());
    r
}

/// [`each`] with 1 further argument.
pub fn each_1(t: &str, n: usize, step: usize, a: &str) -> (r: String)
    requires
        n * step <= usize::MAX,
    ensures
        r@ == each(t@, n as nat, step as nat, seq![a@]),
{
    let more = [a];
    let r = each_with(t, n, step, &more);
    assert(views(more@) == seq![a@]);
    r
}

/// [`each2`] with 0 further arguments.
pub fn each2_0(t: &str, n: usize, m: usize, si: usize, sj: usize) -> (r: String)
    requires
        n * si <= usize::MAX,
        m * sj <= usize::MAX,
    ensures
        r@ == each2(t@, n as nat, m as nat, si as nat, sj as nat, Seq::empty()),
{
    let more: [&str; 0] = [];
    let r = each2_with(t, n, m, si, sj, &more);
    assert(views(more@) == Seq::<Seq<char>>::empty());
    r
}

/// [`each2`] with 1 further argument.
pub fn each2_1(t: &str, n: usize, m: usize, si: usize, sj: usize, a: &str) -> (r: String)
    requires
        n * si <= usize::MAX,
        m * sj <= usize::MAX,
    ensures
        r@ == each2(t@, n as nat, m as nat, si as nat, sj as nat, seq![a@]),
{
    let more = [a];
    let r = each2_with(t, n, m, si, sj, &more);
    assert(views(more@) == seq![a@]);
    r
}

/// [`each2`] with 2 further arguments.
pub fn each2_2(t: &str, n: usize, m: usize, si: usize, sj: usize, a: &str, b: &str) -> (r: String)
    requires
        n * si <= usize::MAX,
        m * sj <= usize::MAX,
    ensures
        r@ == each2(t@, n as nat, m as nat, si as nat, sj as nat, seq![a@, b@]),
{
    let more = [a, b];
    let r = each2_with(t, n, m, si, sj, &more);
    assert(views(more@) == seq![a@, b@]);
    r
}

/// `s` without its last character, the separator behind the last item of a list.
pub open spec fn without_last(s: Seq<char>) -> Seq<char> {
    if s.len() == 0 {
        s
    } else {
        s.drop_last()
    }
}

/// See [`without_last`].
pub fn trimmed(s: &str) -> (r: String)
    ensures
        r@ == without_last(s@),
{
    let n: usize = s.unicode_len();
    if n == 0 {
        String::from_str(s)
    } else {
        String::from_str(s.substring_char(0, n - 1))
    }
}

/// Whether two strings are the same text.
pub fn same(a: &str, b: &str) -> (r: bool)
    ensures
        r == (a@ == b@),
{
    String::from_str(a) == String::from_str(b)
}

/// The characters of a string.
pub fn chars_of(s: &str) -> (r: Vec<char>)
    ensures
        r@ == s@,
{
    let mut r: Vec<char> = Vec::new();
    for c in it: s.chars()
        invariant
            it.seq() == s@,
            r@ == s@.take(it.index() as int),
    {
        r.push(c);
        assert(r@ =~= s@.take(it.index() + 1));
    }
    assert(s@.take(s@.len() as int) =~= s@);
    r
}

/// How many times 2 divides `n`, the shift that divides by `n` where `n` is a power of two.
pub open spec fn twos(n: nat) -> nat
    decreases n,
{
    if n > 0 && n % 2 == 0 {
        1 + twos(n / 2)
    } else {
        0
    }
}

/// See [`twos`].
pub fn shift_of(n: usize) -> (r: usize)
    ensures
        r == twos(n as nat),
        r <= n,
    decreases n,
{
    if n > 0 && n % 2 == 0 {
        1 + shift_of(n / 2)
    } else {
        0
    }
}

} // verus!
