//! Words in a text, one name in place of another, and the entries of a module.
use vstd::prelude::*;

use crate::ptx_wmma::scan;
use crate::ptx_wmma::scan::Sym;

verus! {

/// Whether the word `w` stands in `s` from the character `i` on.
pub open spec fn stands(s: Seq<char>, w: Seq<char>, i: int) -> bool {
    0 <= i && i + w.len() <= s.len() && s.subrange(i, i + w.len()) == w
}

/// Whether `s` holds the word `w` nowhere.
pub open spec fn lacks(s: Seq<char>, w: Seq<char>) -> bool {
    forall|i: int| !#[trigger] stands(s, w, i)
}

/// `s` with each `from` replaced by `to`, from left to right.
pub open spec fn replaced(s: Seq<char>, from: Seq<char>, to: Seq<char>) -> Seq<char>
    decreases s.len(),
{
    if s.len() == 0 {
        s
    } else if from.len() > 0 && stands(s, from, 0) {
        to + replaced(s.skip(from.len() as int), from, to)
    } else {
        seq![s[0]] + replaced(s.skip(1), from, to)
    }
}

/// What an entry begins with.
pub open spec fn mark() -> Seq<char> {
    ".visible .entry "@
}

/// Where the word `w` first stands in `s` from the character `i` on, or the end of `s`.
pub open spec fn find(s: Seq<char>, w: Seq<char>, i: nat) -> nat
    decreases s.len() - i,
{
    if i >= s.len() {
        s.len()
    } else if stands(s, w, i as int) {
        i
    } else {
        find(s, w, i + 1)
    }
}

/// The entry of this name in a module, up to the next entry or the end.
pub open spec fn entry_of(module: Seq<char>, name: Seq<char>) -> Seq<char> {
    let i = find(module, mark() + name + seq!['('], 0);
    module.subrange(i as int, find(module, mark(), i + 1) as int)
}

/// A word that stands in `s` stands there character by character.
proof fn lemma_stands(s: Seq<char>, w: Seq<char>, i: int, j: int)
    requires
        stands(s, w, i),
        0 <= j < w.len(),
    ensures
        s[i + j] == w[j],
{
    assert(s.subrange(i, i + w.len())[j] == w[j]);
}

/// What stands in a part of a text.
proof fn lemma_shifted(a: Seq<char>, b: Seq<char>, w: Seq<char>, i: int)
    ensures
        i >= a.len() ==> stands(a + b, w, i) == stands(b, w, i - a.len()),
        i + w.len() <= a.len() ==> stands(a + b, w, i) == stands(a, w, i),
{
    let n = w.len();
    if i >= a.len() && i + n <= a.len() + b.len() {
        assert((a + b).subrange(i, i + n) =~= b.subrange(i - a.len(), i - a.len() + n));
    }
    if 0 <= i && i + n <= a.len() {
        assert((a + b).subrange(i, i + n) =~= a.subrange(i, i + n));
    }
}

/// What follows does not change what a text begins with.
pub broadcast proof fn lemma_stands_first(a: Seq<char>, b: Seq<char>, w: Seq<char>)
    requires
        stands(a, w, 0),
    ensures
        #[trigger] stands(a + b, w, 0),
{
    lemma_shifted(a, b, w, 0);
}

/// The words that a reader is lost on: a dot, `m`, `a` or `i`, and small letters.
pub open spec fn bound_word(w: Seq<char>) -> bool {
    &&& w.len() >= 3
    &&& w[0] == '.'
    &&& w[1] == 'm'
    &&& w[2] == 'a' || w[2] == 'i'
    &&& forall|j: int| 1 <= j < w.len() ==> 'a' <= #[trigger] w[j] <= 'z'
}

/// Behind a dot such a word does not go on.
proof fn lemma_no_word_behind_dot(
    s: Seq<Sym<char>>,
    name: Seq<char>,
    ty: Seq<char>,
    w: Seq<char>,
)
    requires
        bound_word(w),
        lacks(seq!['.'] + ty, w),
        scan::read(scan::dot(), s) == scan::neutral(),
    ensures
        !stands(seq!['.'] + scan::put(s, name, ty), w, 0),
{
    reveal_with_fuel(scan::read, 3);
    reveal_with_fuel(scan::put, 3);
    let x = seq!['.'] + scan::put(s, name, ty);
    if stands(x, w, 0) {
        lemma_stands(x, w, 0, 1);
        lemma_stands(x, w, 0, 2);
        scan::lemma_lost(s.skip(1));
        match s[0] {
            Sym::Char(c) => {
                assert(x[1] == c);
                let r = s.skip(1);
                scan::lemma_lost(r.skip(1));
                assert(r.len() > 0);
                assert(r[0] matches Sym::Char(d) ==> x[2] == d);
            },
            Sym::Name => {},
            Sym::Type => {
                let r = s.skip(1);
                scan::lemma_lost(r.skip(1));
                assert(r.len() > 0);
                let d = r[0]->Char_0;
                assert(r[0] == Sym::Char(d));
                let a = seq!['.'] + ty;
                let b = scan::put(r, name, ty);
                assert(x =~= a + b);
                if w.len() <= a.len() {
                    lemma_shifted(a, b, w, 0);
                    assert(stands(a, w, 0));
                } else {
                    lemma_stands(x, w, 0, a.len() as int);
                    assert(b[0] == d);
                }
            },
        }
    }
}

/// What a reader passes holds no such word, where the name and the type hold none.
pub proof fn lemma_lacks_word(
    s: Seq<Sym<char>>,
    at: int,
    name: Seq<char>,
    ty: Seq<char>,
    w: Seq<char>,
)
    requires
        bound_word(w),
        lacks(name, w),
        lacks(seq!['.'] + ty, w),
        scan::read(at, s) == scan::neutral(),
    ensures
        lacks(scan::put(s, name, ty), w),
    decreases s.len(),
{
    reveal_with_fuel(scan::read, 2);
    reveal_with_fuel(scan::put, 2);
    let x = scan::put(s, name, ty);
    if s.len() > 0 {
        let r = s.skip(1);
        let b = scan::put(r, name, ty);
        lemma_lacks_word(r, scan::step(at, s[0]), name, ty, w);
        scan::lemma_lost(r);
        assert forall|i: int| !#[trigger] stands(x, w, i) by {
            let a = scan::spelled(s[0], name, ty);
            lemma_shifted(a, b, w, i);
            if stands(x, w, i) && i < a.len() {
                match s[0] {
                    Sym::Char(c) => {
                        lemma_stands(x, w, i, 0);
                        lemma_no_word_behind_dot(r, name, ty, w);
                        assert(x =~= seq!['.'] + b);
                    },
                    _ => {
                        if i + w.len() > a.len() {
                            assert(r.len() > 0);
                            scan::lemma_lost(r.skip(1));
                            let d = r[0]->Char_0;
                            assert(r[0] == Sym::Char(d));
                            assert(b[0] == d);
                            lemma_stands(x, w, i, a.len() - i);
                        } else if s[0] is Type {
                            lemma_shifted(seq!['.'], ty, w, i + 1);
                        }
                    },
                }
            }
        }
    }
}

/// A name that a reader tells from the rest of a kernel: it holds `_s`, first at `k`, does not begin
/// with `s`, and holds no dot and no space.
pub open spec fn tells(name: Seq<char>, k: int) -> bool {
    &&& 0 <= k < name.len() - 1
    &&& name[k] == '_' && name[k + 1] == 's'
    &&& forall|j: int| 0 <= j < k ==> !(#[trigger] name[j] == '_' && name[j + 1] == 's')
    &&& name[0] != 's'
    &&& forall|j: int| 0 <= j < name.len() ==> #[trigger] name[j] != '.' && name[j] != ' '
}

/// Such a name does not go on in what a reader passes, unless the text goes on with the name.
proof fn lemma_no_name_goes_on(
    s: Seq<Sym<char>>,
    at: int,
    from: Seq<char>,
    k: int,
    m: int,
    ty: Seq<char>,
)
    requires
        tells(from, k),
        1 <= m <= k + 1,
        at == scan::dot() ==> from[m - 1] == '.',
        from[m - 1] == '_' ==> at == scan::under(),
        scan::read(at, s) == scan::neutral(),
    ensures
        !stands(scan::put(s, from, ty), from.skip(m), 0),
    decreases s.len(),
{
    reveal_with_fuel(scan::read, 2);
    reveal_with_fuel(scan::put, 2);
    let x = scan::put(s, from, ty);
    let w = from.skip(m);
    if stands(x, w, 0) {
        assert(w.len() > 0);
        lemma_stands(x, w, 0, 0);
        let r = s.skip(1);
        let b = scan::put(r, from, ty);
        scan::lemma_lost(r);
        match s[0] {
            Sym::Char(c) => {
                assert(x[0] == c && c == from[m]);
                assert(m <= k);
                lemma_no_name_goes_on(r, scan::step(at, s[0]), from, k, m + 1, ty);
                lemma_tail(c, b, w);
                assert(w.skip(1) =~= from.skip(m + 1));
            },
            Sym::Name => {
                if m <= k {
                    lemma_stands(x, w, 0, k - m);
                    lemma_stands(x, w, 0, k - m + 1);
                    assert(x[k - m] == from[k - m] && x[k - m + 1] == from[k - m + 1]);
                    assert(w[k - m] == from[k] && w[k - m + 1] == from[k + 1]);
                } else {
                    assert(x[0] == from[0]);
                }
            },
            Sym::Type => {},
        }
    }
}

/// What stands behind the first character.
proof fn lemma_tail(c: char, b: Seq<char>, w: Seq<char>)
    requires
        w.len() > 0,
        stands(seq![c] + b, w, 0),
    ensures
        stands(b, w.skip(1), 0),
{
    let x = seq![c] + b;
    let n = w.len() as int;
    assert(b.subrange(0, n - 1) =~= w.skip(1)) by {
        assert forall|j: int| 0 <= j < n - 1 implies b[j] == w[j + 1] by {
            lemma_stands(x, w, 0, j + 1);
            assert(x[j + 1] == b[j]);
        }
    }
}

/// A block without an underscore is kept, where a dot or a space ends it or follows it.
pub proof fn lemma_kept(block: Seq<char>, b: Seq<char>, from: Seq<char>, to: Seq<char>, k: int)
    requires
        tells(from, k),
        forall|j: int| 0 <= j < block.len() ==> #[trigger] block[j] != '_',
        block.len() > 0 ==> (block.last() == '.' || block.last() == ' ' || b.len() > 0 && (b[0]
            == '.' || b[0] == ' ')),
    ensures
        replaced(block + b, from, to) == block + replaced(b, from, to),
    decreases block.len(),
{
    let x = block + b;
    if block.len() == 0 {
        assert(x =~= b);
        assert(block + replaced(b, from, to) =~= replaced(b, from, to));
    } else {
        let n = block.len() as int;
        if stands(x, from, 0) {
            lemma_stands(x, from, 0, k);
            if k >= n {
                lemma_stands(x, from, 0, n - 1);
                lemma_stands(x, from, 0, n);
            }
            assert(k >= n);
        }
        let rest = block.skip(1);
        assert(x.skip(1) =~= rest + b);
        assert forall|j: int| 0 <= j < rest.len() implies #[trigger] rest[j] != '_' by {
            assert(rest[j] == block[j + 1]);
        }
        lemma_kept(rest, b, from, to, k);
        assert(seq![x[0]] + (rest + replaced(b, from, to)) =~= block + replaced(b, from, to));
    }
}

/// In what a reader passes, one name in place of another is the same text of the other name.
pub proof fn lemma_replaced(
    s: Seq<Sym<char>>,
    at: int,
    from: Seq<char>,
    to: Seq<char>,
    ty: Seq<char>,
    k: int,
)
    requires
        tells(from, k),
        forall|j: int| 0 <= j < ty.len() ==> #[trigger] ty[j] != '_',
        scan::read(at, s) == scan::neutral(),
    ensures
        replaced(scan::put(s, from, ty), from, to) == scan::put(s, to, ty),
    decreases s.len(),
{
    reveal_with_fuel(scan::read, 2);
    reveal_with_fuel(scan::put, 2);
    let x = scan::put(s, from, ty);
    if s.len() > 0 {
        let r = s.skip(1);
        let b = scan::put(r, from, ty);
        scan::lemma_lost(r);
        lemma_replaced(r, scan::step(at, s[0]), from, to, ty, k);
        match s[0] {
            Sym::Char(c) => {
                assert(x.skip(1) =~= b);
                if stands(x, from, 0) {
                    lemma_stands(x, from, 0, 0);
                    lemma_tail(c, b, from);
                    lemma_no_name_goes_on(r, scan::step(at, s[0]), from, k, 1, ty);
                }
            },
            Sym::Name => {
                assert(x.subrange(0, from.len() as int) =~= from);
                assert(x.skip(from.len() as int) =~= b);
            },
            Sym::Type => {
                assert(r.len() > 0);
                scan::lemma_lost(r.skip(1));
                assert(r[0] == Sym::Char(r[0]->Char_0));
                assert(b[0] == r[0]->Char_0);
                lemma_kept(ty, b, from, to, k);
            },
        }
    }
}

/// Whether no entry begins in `s`, and none can begin at its end.
pub open spec fn quiet(s: Seq<char>) -> bool {
    &&& forall|i: int|
        0 <= i < s.len() - 2 ==> !(#[trigger] s[i] == '.' && s[i + 1] == 'v' && s[i + 2] == 'i')
    &&& s.len() > 0 ==> s.last() == '\n'
}

/// Whether `w` stands nowhere from a character of `x` on, whatever follows `x`.
pub open spec fn clear(x: Seq<char>, w: Seq<char>) -> bool {
    forall|y: Seq<char>, i: int| 0 <= i < x.len() ==> !#[trigger] stands(x + y, w, i)
}

/// What is clear part by part is clear.
pub broadcast proof fn lemma_clear_add(a: Seq<char>, b: Seq<char>, w: Seq<char>)
    requires
        clear(a, w),
        clear(b, w),
    ensures
        #[trigger] clear(a + b, w),
{
    assert forall|y: Seq<char>, i: int| 0 <= i < (a + b).len() implies !#[trigger] stands(
        (a + b) + y,
        w,
        i,
    ) by {
        assert((a + b) + y =~= a + (b + y));
        lemma_shifted(a, b + y, w, i);
        if i < a.len() {
            assert(!stands(a + (b + y), w, i));
        } else {
            assert(!stands(b + y, w, i - a.len()));
        }
    }
}

/// Where no entry begins, nothing that begins like one stands.
pub proof fn lemma_clear_quiet(x: Seq<char>, w: Seq<char>)
    requires
        quiet(x),
        w.len() >= 3,
        w[0] == '.',
        w[1] == 'v',
        w[2] == 'i',
    ensures
        clear(x, w),
{
    assert forall|y: Seq<char>, i: int| 0 <= i < x.len() implies !#[trigger] stands(x + y, w, i) by {
        if stands(x + y, w, i) {
            lemma_stands(x + y, w, i, 0);
            lemma_stands(x + y, w, i, 1);
            lemma_stands(x + y, w, i, 2);
        }
    }
}

/// What a mark begins with, and where else it holds a dot.
proof fn lemma_mark()
    ensures
        mark().len() == 16,
        mark()[0] == '.',
        mark()[1] == 'v',
        mark()[2] == 'i',
        mark()[10] == 'e',
        mark()[15] == ' ',
        forall|i: int| 0 < i < 16 && i != 9 ==> #[trigger] mark()[i] != '.',
        forall|i: int| 0 <= i < 16 ==> #[trigger] mark()[i] != '_',
{
    reveal_strlit(".visible .entry ");
}

/// No entry begins in what a reader passes.
pub proof fn lemma_quiet(s: Seq<Sym<char>>, at: int, name: Seq<char>, ty: Seq<char>)
    requires
        scan::read(at, s) == scan::neutral(),
        s.len() > 0 ==> s.last() == Sym::Char('\n'),
        forall|j: int| 0 <= j < name.len() ==> #[trigger] name[j] != '.',
        forall|j: int| 0 <= j < ty.len() ==> #[trigger] ty[j] != '.',
        ty.len() > 0,
        ty[0] != 'v',
    ensures
        quiet(scan::put(s, name, ty)),
        s.len() > 0 ==> scan::put(s, name, ty).len() > 0,
    decreases s.len(),
{
    reveal_with_fuel(scan::read, 4);
    reveal_with_fuel(scan::put, 4);
    let x = scan::put(s, name, ty);
    if s.len() > 0 {
        let r = s.skip(1);
        let b = scan::put(r, name, ty);
        let a = scan::spelled(s[0], name, ty);
        scan::lemma_lost(r);
        lemma_quiet(r, scan::step(at, s[0]), name, ty);
        assert forall|i: int| 0 <= i < x.len() - 2 implies !(#[trigger] x[i] == '.' && x[i + 1] == 'v'
            && x[i + 2] == 'i') by {
            if i < a.len() {
                if x[i] == '.' {
                    assert(a[i] == '.');
                    let c = s[0]->Char_0;
                    assert(s[0] == Sym::Char(c) && c == '.');
                    assert(x[1] == b[0] && x[2] == b[1]);
                    assert(r.len() > 0);
                    let q = r.skip(1);
                    scan::lemma_lost(q);
                    if r[0] is Char {
                        assert(b[0] == r[0]->Char_0);
                        if b[0] == 'v' {
                            assert(q.len() > 0);
                            scan::lemma_lost(q.skip(1));
                            assert(q[0] is Char ==> b[1] == q[0]->Char_0);
                        }
                    } else {
                        assert(r[0] is Type);
                        assert(b[0] == ty[0]);
                    }
                }
            } else {
                assert(x[i] == b[i - a.len()] && x[i + 1] == b[i + 1 - a.len()] && x[i + 2] == b[i + 2
                    - a.len()]);
            }
        }
        if r.len() == 0 {
            assert(s.last() == s[0]);
        } else {
            assert(r.last() == s.last());
        }
    }
}

/// A kernel of one name: the mark of an entry, the name, a bracket, and more.
pub open spec fn kernel(s: Seq<Sym<char>>) -> bool {
    &&& scan::passes(s)
    &&& s.len() >= 2
    &&& s[0] is Name
    &&& s[1] == Sym::Char('(')
    &&& s.last() == Sym::Char('\n')
}

/// What an entry of this name begins with.
pub open spec fn head(name: Seq<char>) -> Seq<char> {
    mark() + name + seq!['(']
}

/// A name of an entry.
pub open spec fn entry_name(name: Seq<char>) -> bool {
    forall|j: int| 0 <= j < name.len() ==> #[trigger] name[j] != '.' && name[j] != '('
}

/// The head of a kernel, and that no other entry begins in it.
pub proof fn lemma_kernel(s: Seq<Sym<char>>, name: Seq<char>, ty: Seq<char>)
    requires
        kernel(s),
        entry_name(name),
        forall|j: int| 0 <= j < ty.len() ==> #[trigger] ty[j] != '.',
        ty.len() > 0,
        ty[0] != 'v',
    ensures
        ({
            let e = mark() + scan::put(s, name, ty);
            &&& stands(e, head(name), 0)
            &&& quiet(e.skip(1))
            &&& e.last() == '\n'
            &&& e.len() > head(name).len()
        }),
{
    let x = scan::put(s, name, ty);
    let e = mark() + x;
    lemma_mark();
    lemma_quiet(s, scan::neutral(), name, ty);
    reveal_with_fuel(scan::put, 3);
    let r = s.skip(2);
    assert(s.skip(1).skip(1) =~= r);
    assert(x =~= name + (seq!['('] + scan::put(r, name, ty)));
    assert(e.subrange(0, head(name).len() as int) =~= head(name));
    let q = e.skip(1);
    assert(r.len() > 0);
    lemma_put_last(s, name, ty);
    lemma_put_last(r, name, ty);
    assert forall|i: int| 0 <= i < q.len() - 2 implies !(#[trigger] q[i] == '.' && q[i + 1] == 'v'
        && q[i + 2] == 'i') by {
        assert(q[i] == e[i + 1] && q[i + 1] == e[i + 2] && q[i + 2] == e[i + 3]);
        if i + 1 < 16 {
            assert(e[i + 1] == mark()[i + 1]);
            if i + 1 == 9 {
                assert(e[10] == mark()[10]);
            }
        } else {
            assert(e[i + 1] == x[i - 15] && e[i + 2] == x[i - 14] && e[i + 3] == x[i - 13]);
        }
    }
}

/// A text that ends with a character ends with it.
proof fn lemma_put_last(s: Seq<Sym<char>>, name: Seq<char>, ty: Seq<char>)
    requires
        s.len() > 0,
        s.last() == Sym::Char('\n'),
    ensures
        scan::put(s, name, ty).len() > 0,
        scan::put(s, name, ty).last() == '\n',
{
    let c = Sym::Char('\n');
    assert(s =~= s.drop_last() + seq![c]);
    scan::lemma_put_add(s.drop_last(), seq![c], name, ty);
    scan::lemma_one(c, scan::neutral(), name, ty);
}

/// A kernel of another name is clear of the head of an entry.
pub proof fn lemma_other_kernel(s: Seq<Sym<char>>, other: Seq<char>, name: Seq<char>, ty: Seq<char>)
    requires
        kernel(s),
        entry_name(other),
        entry_name(name),
        other != name,
        forall|j: int| 0 <= j < ty.len() ==> #[trigger] ty[j] != '.',
        ty.len() > 0,
        ty[0] != 'v',
    ensures
        clear(mark() + scan::put(s, other, ty), head(name)),
{
    let e = mark() + scan::put(s, other, ty);
    let w = head(name);
    lemma_kernel(s, other, ty);
    lemma_mark();
    lemma_clear_quiet(e.skip(1), w);
    assert forall|y: Seq<char>, i: int| 0 <= i < e.len() implies !#[trigger] stands(e + y, w, i) by {
        let front = seq![e[0]];
        assert(e + y =~= front + (e.skip(1) + y));
        lemma_shifted(front, e.skip(1) + y, w, i);
        if i > 0 {
            assert(!stands(e.skip(1) + y, w, i - 1));
        } else if stands(e + y, w, 0) {
            let (m, n) = (other.len() as int, name.len() as int);
            if m < n {
                lemma_stands(e + y, w, 0, 16 + m);
                lemma_stands(e, head(other), 0, 16 + m);
                assert(w[16 + m] == name[m]);
            } else if n < m {
                lemma_stands(e + y, w, 0, 16 + n);
                lemma_stands(e, head(other), 0, 16 + n);
                assert(head(other)[16 + n] == other[n]);
            } else {
                assert(name =~= other) by {
                    assert forall|j: int| 0 <= j < n implies name[j] == other[j] by {
                        lemma_stands(e + y, w, 0, 16 + j);
                        lemma_stands(e, head(other), 0, 16 + j);
                        assert(w[16 + j] == name[j] && head(other)[16 + j] == other[j]);
                    }
                }
            }
        }
    }
}

/// Where a word is first found.
proof fn lemma_find(s: Seq<char>, w: Seq<char>, i: nat, j: nat)
    requires
        i <= j <= s.len(),
        forall|x: int| i <= x < j ==> !#[trigger] stands(s, w, x),
        j == s.len() || stands(s, w, j as int),
    ensures
        find(s, w, i) == j,
    decreases j - i,
{
    if i < j {
        assert(!stands(s, w, i as int));
        lemma_find(s, w, i + 1, j);
    }
}

/// An entry of a module: what is clear of its head, the entry itself, and the entries behind it.
pub proof fn lemma_entry(before: Seq<char>, e: Seq<char>, after: Seq<char>, name: Seq<char>)
    requires
        clear(before, head(name)),
        stands(e, head(name), 0),
        quiet(e.skip(1)),
        e.len() > head(name).len(),
        after.len() == 0 || stands(after, mark(), 0),
    ensures
        entry_of(before + e + after, name) == e,
{
    let m = before + e + after;
    let w = head(name);
    let b = before.len();
    lemma_mark();
    assert(m =~= before + (e + after));
    assert forall|x: int| 0 <= x < b implies !#[trigger] stands(m, w, x) by {
        assert(!stands(before + (e + after), w, x));
    }
    lemma_shifted(before, e + after, w, b as int);
    lemma_shifted(e, after, w, 0);
    lemma_find(m, w, 0, b);
    let k = mark();
    let q = e.skip(1);
    let front = before + seq![e[0]];
    lemma_clear_quiet(q, k);
    assert(m =~= front + (q + after));
    let end = (b + e.len()) as nat;
    assert forall|x: int| b + 1 <= x < end implies !#[trigger] stands(m, k, x) by {
        lemma_shifted(front, q + after, k, x);
        assert(!stands(q + after, k, x - front.len()));
    }
    if after.len() > 0 {
        lemma_shifted(before + e, after, k, end as int);
    }
    lemma_find(m, k, b + 1, end);
    assert(m.subrange(b as int, end as int) =~= e);
}

/// A text that holds no launch bound holds none as an entry, either.
pub proof fn lemma_behind_mark(x: Seq<char>, w: Seq<char>)
    requires
        bound_word(w),
        lacks(x, w),
    ensures
        lacks(mark() + x, w),
{
    let e = mark() + x;
    lemma_mark();
    assert forall|i: int| !#[trigger] stands(e, w, i) by {
        lemma_shifted(mark(), x, w, i);
        if stands(e, w, i) && i < 16 {
            lemma_stands(e, w, i, 0);
            lemma_stands(e, w, i, 1);
            assert(e[i] == mark()[i]);
            if i == 0 {
                assert(e[1] == mark()[1]);
            } else {
                assert(e[10] == mark()[10]);
            }
        }
    }
}

/// One name in place of another, in a kernel.
pub proof fn lemma_renamed(
    s: Seq<Sym<char>>,
    from: Seq<char>,
    to: Seq<char>,
    ty: Seq<char>,
    k: int,
)
    requires
        scan::passes(s),
        tells(from, k),
        forall|j: int| 0 <= j < ty.len() ==> #[trigger] ty[j] != '_',
    ensures
        replaced(mark() + scan::put(s, from, ty), from, to) == mark() + scan::put(s, to, ty),
{
    lemma_mark();
    lemma_kept(mark(), scan::put(s, from, ty), from, to, k);
    lemma_replaced(s, scan::neutral(), from, to, ty, k);
}

} // verus!
