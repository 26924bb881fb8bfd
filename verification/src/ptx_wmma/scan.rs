//! Texts in which a name and a type are left open, and what such a text spells besides them.
//!
//! A text is read from left to right. The reader fails where the text spells the beginning of a
//! launch bound (`.ma`, `.mi`) or of a new entry (`.vi`), where it spells `_s`, and where a name or a
//! type does not stand by itself. All that a kernel says besides its name and its type is read
//! without a failure.
use vstd::prelude::*;

use crate::text;

verus! {

/// A character, or the place of the name or of the type.
pub enum Sym<C> {
    Char(C),
    Name,
    Type,
}

/// A reader behind nothing of interest.
#[verifier::inline]
pub open spec fn neutral() -> int {
    0
}

/// A reader behind `.`.
#[verifier::inline]
pub open spec fn dot() -> int {
    1
}

/// A reader behind `.m`.
#[verifier::inline]
pub open spec fn dot_m() -> int {
    2
}

/// A reader behind `.v`.
#[verifier::inline]
pub open spec fn dot_v() -> int {
    3
}

/// A reader behind `_`.
#[verifier::inline]
pub open spec fn under() -> int {
    4
}

/// A reader behind the name.
#[verifier::inline]
pub open spec fn at_name() -> int {
    5
}

/// A reader behind the type.
#[verifier::inline]
pub open spec fn at_type() -> int {
    6
}

/// A reader behind something that no kernel spells.
#[verifier::inline]
pub open spec fn lost() -> int {
    7
}

/// Where a reader behind the name or the type stands one character further.
pub open spec fn next_apart(at: int, c: char) -> int {
    if at == lost() || (at == at_name() && 'a' <= c <= 'z') || (at == at_type() && c != '.' && c
        != ' ') {
        lost()
    } else if c == '.' {
        dot()
    } else if c == '_' {
        under()
    } else {
        neutral()
    }
}

/// Where a reader stands one character further.
pub open spec fn next(at: int, c: char) -> int {
    if at > under() {
        next_apart(at, c)
    } else if c == '.' {
        dot()
    } else if c == '_' {
        under()
    } else if c == 'm' {
        if at == dot() {
            dot_m()
        } else {
            neutral()
        }
    } else if c == 'v' {
        if at == dot() {
            dot_v()
        } else {
            neutral()
        }
    } else if c == 'a' {
        if at == dot_m() {
            lost()
        } else {
            neutral()
        }
    } else if c == 'i' {
        if at == dot_m() || at == dot_v() {
            lost()
        } else {
            neutral()
        }
    } else if c == 's' {
        if at == under() {
            lost()
        } else {
            neutral()
        }
    } else {
        neutral()
    }
}

/// Where a reader stands one symbol further.
pub open spec fn step(at: int, s: Sym<char>) -> int {
    match s {
        Sym::Char(c) => next(at, c),
        Sym::Name => if at == neutral() || at == under() {
            at_name()
        } else {
            lost()
        },
        Sym::Type => if at == dot() {
            at_type()
        } else {
            lost()
        },
    }
}

/// Where a reader who stood at `at` stands behind `s`.
#[verifier::opaque]
pub open spec fn read(at: int, s: Seq<Sym<char>>) -> int
    decreases s.len(),
{
    if s.len() == 0 {
        at
    } else {
        read(step(at, s[0]), s.skip(1))
    }
}

/// What a symbol stands for.
pub open spec fn spelled(s: Sym<char>, name: Seq<char>, ty: Seq<char>) -> Seq<char> {
    match s {
        Sym::Char(c) => seq![c],
        Sym::Name => name,
        Sym::Type => ty,
    }
}

/// The text `s` of this name and this type.
#[verifier::opaque]
pub open spec fn put(s: Seq<Sym<char>>, name: Seq<char>, ty: Seq<char>) -> Seq<char>
    decreases s.len(),
{
    if s.len() == 0 {
        Seq::empty()
    } else {
        spelled(s[0], name, ty) + put(s.skip(1), name, ty)
    }
}

/// A text in which nothing is left open.
pub open spec fn plain(x: Seq<char>) -> Seq<Sym<char>> {
    Seq::new(x.len(), |i: int| Sym::Char(x[i]))
}

/// The name alone.
pub open spec fn named() -> Seq<Sym<char>> {
    seq![Sym::Name]
}

/// The type alone.
pub open spec fn typed() -> Seq<Sym<char>> {
    seq![Sym::Type]
}

/// Whether a reader passes `s` and is neutral behind it.
pub open spec fn passes(s: Seq<Sym<char>>) -> bool {
    read(neutral(), s) == neutral()
}

/// Whether a reader passes a text in which nothing is left open.
pub open spec fn tidy(x: Seq<char>) -> bool {
    passes(plain(x))
}

/// Reading goes on where it stopped.
pub proof fn lemma_read_add(at: int, a: Seq<Sym<char>>, b: Seq<Sym<char>>)
    ensures
        read(at, a + b) == read(read(at, a), b),
    decreases a.len(),
{
    reveal(read);
    if a.len() == 0 {
        assert(a + b =~= b);
    } else {
        assert((a + b).skip(1) =~= a.skip(1) + b);
        lemma_read_add(step(at, a[0]), a.skip(1), b);
    }
}

/// Who is lost stays lost.
pub proof fn lemma_lost(s: Seq<Sym<char>>)
    ensures
        read(lost(), s) == lost(),
    decreases s.len(),
{
    reveal(read);
    if s.len() > 0 {
        lemma_lost(s.skip(1));
    }
}

/// Texts are put together part by part.
pub proof fn lemma_put_add(a: Seq<Sym<char>>, b: Seq<Sym<char>>, name: Seq<char>, ty: Seq<char>)
    ensures
        put(a + b, name, ty) == put(a, name, ty) + put(b, name, ty),
    decreases a.len(),
{
    reveal(put);
    if a.len() == 0 {
        assert(a + b =~= b);
        assert(put(a, name, ty) + put(b, name, ty) =~= put(b, name, ty));
    } else {
        assert((a + b).skip(1) =~= a.skip(1) + b);
        lemma_put_add(a.skip(1), b, name, ty);
        assert(spelled(a[0], name, ty) + (put(a.skip(1), name, ty) + put(b, name, ty)) =~= (spelled(
            a[0],
            name,
            ty,
        ) + put(a.skip(1), name, ty)) + put(b, name, ty));
    }
}

/// One symbol.
pub proof fn lemma_one(s: Sym<char>, at: int, name: Seq<char>, ty: Seq<char>)
    ensures
        put(seq![s], name, ty) == spelled(s, name, ty),
        read(at, seq![s]) == step(at, s),
{
    reveal_with_fuel(put, 2);
    reveal_with_fuel(read, 2);
    assert(seq![s].skip(1) =~= Seq::<Sym<char>>::empty());
    assert(spelled(s, name, ty) + Seq::<char>::empty() =~= spelled(s, name, ty));
}

/// The name alone is the name.
pub broadcast proof fn lemma_put_named(name: Seq<char>, ty: Seq<char>)
    ensures
        #[trigger] put(named(), name, ty) == name,
{
    lemma_one(Sym::Name, neutral(), name, ty);
}

/// The type alone is the type.
pub broadcast proof fn lemma_put_typed(name: Seq<char>, ty: Seq<char>)
    ensures
        #[trigger] put(typed(), name, ty) == ty,
{
    lemma_one(Sym::Type, neutral(), name, ty);
}

/// A text in which nothing is left open is itself.
pub broadcast proof fn lemma_put_plain(x: Seq<char>, name: Seq<char>, ty: Seq<char>)
    ensures
        #[trigger] put(plain(x), name, ty) == x,
    decreases x.len(),
{
    reveal(put);
    if x.len() > 0 {
        assert(plain(x).skip(1) =~= plain(x.skip(1)));
        lemma_put_plain(x.skip(1), name, ty);
        assert(seq![x[0]] + x.skip(1) =~= x);
    } else {
        assert(x =~= Seq::<char>::empty());
    }
}

/// Two parts in which nothing is left open.
pub proof fn lemma_plain_add(a: Seq<char>, b: Seq<char>)
    ensures
        plain(a + b) == plain(a) + plain(b),
{
    assert(plain(a + b) =~= plain(a) + plain(b));
}

/// A reader passes what is put together of what it passes.
pub broadcast proof fn lemma_tidy_add(a: Seq<char>, b: Seq<char>)
    requires
        tidy(a),
        tidy(b),
    ensures
        #[trigger] tidy(a + b),
{
    lemma_plain_add(a, b);
    lemma_read_add(neutral(), plain(a), plain(b));
}

/// See [`lemma_tidy_add`].
pub broadcast proof fn lemma_passes_add(a: Seq<Sym<char>>, b: Seq<Sym<char>>)
    requires
        passes(a),
        passes(b),
    ensures
        #[trigger] passes(a + b),
{
    lemma_read_add(neutral(), a, b);
}

/// A reader passes the empty text.
pub proof fn lemma_tidy_empty()
    ensures
        tidy(Seq::<char>::empty()),
        tidy(""@),
{
    reveal(read);
    reveal_strlit("");
    assert(""@ =~= Seq::<char>::empty());
}

/// Whether a reader can be somewhere in a text in which nothing is left open.
pub open spec fn inside(at: int) -> bool {
    neutral() <= at <= under()
}

/// What an argument of a template does to a reader.
pub enum Kind {
    /// It begins and ends with nothing of interest.
    Calm,
    /// As calm, but for an underscore at its end.
    Stem,
    Name,
    Type,
    /// It begins where the reader is neutral, and ends here.
    Ends(int),
}

/// Where an argument leads a reader.
pub open spec fn effect(k: Kind, at: int) -> int {
    match k {
        Kind::Calm => if inside(at) {
            neutral()
        } else {
            lost()
        },
        Kind::Stem => if inside(at) {
            under()
        } else {
            lost()
        },
        Kind::Name => step(at, Sym::Name),
        Kind::Type => step(at, Sym::Type),
        Kind::Ends(end) => if at == neutral() {
            end
        } else {
            lost()
        },
    }
}

/// Whether an argument is of this kind.
pub open spec fn fits(s: Seq<Sym<char>>, k: Kind) -> bool {
    forall|at: int| effect(k, at) != lost() ==> #[trigger] read(at, s) == effect(k, at)
}

/// Where the hole `#c` leads a reader.
#[verifier::opaque]
pub open spec fn at_hole(kinds: Seq<Kind>, c: char, at: int) -> int {
    if '0' <= c && (c as int - '0' as int) < kinds.len() {
        effect(kinds[c as int - '0' as int], at)
    } else {
        lost()
    }
}

/// Where a reader of a template stands behind the character `i`.
pub open spec fn over(t: Seq<char>, i: nat, at: int, kinds: Seq<Kind>) -> int {
    if t[i as int] == '#' {
        at
    } else if i > 0 && t[i - 1] == '#' {
        at_hole(kinds, t[i as int], at)
    } else {
        next(at, t[i as int])
    }
}

/// Where a reader of a template who stood at `at` before the character `i` stands behind it all.
#[verifier::opaque]
pub open spec fn scan(t: Seq<char>, i: nat, at: int, kinds: Seq<Kind>) -> int
    decreases t.len() - i,
{
    if i >= t.len() {
        at
    } else {
        scan(t, i + 1, over(t, i, at, kinds), kinds)
    }
}

/// Where a reader of a template who stood at `at` before the character `i` stands before `j`.
#[verifier::opaque]
pub open spec fn span(t: Seq<char>, i: nat, j: nat, at: int, kinds: Seq<Kind>) -> int
    decreases j - i,
{
    if i >= j {
        at
    } else {
        span(t, i + 1, j, over(t, i, at, kinds), kinds)
    }
}

/// A template is read part by part.
pub proof fn lemma_span(t: Seq<char>, i: nat, j: nat, at: int, end: int, kinds: Seq<Kind>)
    requires
        i <= j <= t.len(),
        span(t, i, j, at, kinds) == end,
    ensures
        scan(t, i, at, kinds) == scan(t, j, end, kinds),
    decreases j - i,
{
    reveal(scan);
    reveal(span);
    if i < j {
        lemma_span(t, i + 1, j, over(t, i, at, kinds), end, kinds);
    }
}

/// What a hole is.
pub proof fn lemma_hole(kinds: Seq<Kind>, c: char, k: Kind)
    requires
        '0' <= c,
        (c as int - '0' as int) < kinds.len(),
        kinds[c as int - '0' as int] == k,
    ensures
        forall|at: int| #[trigger] at_hole(kinds, c, at) == effect(k, at),
{
    reveal(at_hole);
}

/// Who is lost in a template stays lost.
proof fn lemma_scan_lost(t: Seq<char>, i: nat, kinds: Seq<Kind>)
    ensures
        scan(t, i, lost(), kinds) == lost(),
    decreases t.len() - i,
{
    reveal(scan);
    reveal(at_hole);
    if i < t.len() {
        lemma_scan_lost(t, i + 1, kinds);
    }
}

/// What the hole `#c` stands for.
pub open spec fn open_hole(args: Seq<Seq<Sym<char>>>, c: char) -> Seq<Sym<char>> {
    if '0' <= c && (c as int - '0' as int) < args.len() {
        args[c as int - '0' as int]
    } else {
        Seq::empty()
    }
}

/// [`text::fill`] with arguments in which something is left open.
#[verifier::opaque]
pub open spec fn open_fill(t: Seq<char>, args: Seq<Seq<Sym<char>>>) -> Seq<Sym<char>>
    decreases t.len(),
{
    if t.len() == 0 {
        Seq::empty()
    } else if t.last() == '#' {
        open_fill(t.drop_last(), args)
    } else if t.len() >= 2 && t[t.len() - 2] == '#' {
        open_fill(t.drop_last(), args) + open_hole(args, t.last())
    } else {
        open_fill(t.drop_last(), args).push(Sym::Char(t.last()))
    }
}

/// The texts of several arguments.
pub open spec fn puts(args: Seq<Seq<Sym<char>>>, name: Seq<char>, ty: Seq<char>) -> Seq<Seq<char>> {
    Seq::new(args.len(), |i: int| put(args[i], name, ty))
}

/// Several texts in which nothing is left open.
pub open spec fn plains(args: Seq<Seq<char>>) -> Seq<Seq<Sym<char>>> {
    Seq::new(args.len(), |i: int| plain(args[i]))
}

/// A template is filled before or after the name and the type are known.
pub proof fn lemma_put_fill(t: Seq<char>, args: Seq<Seq<Sym<char>>>, name: Seq<char>, ty: Seq<char>)
    ensures
        put(open_fill(t, args), name, ty) == text::fill(t, puts(args, name, ty)),
    decreases t.len(),
{
    reveal(open_fill);
    reveal(text::fill);
    if t.len() == 0 {
        reveal(put);
    } else {
        let front = open_fill(t.drop_last(), args);
        lemma_put_fill(t.drop_last(), args, name, ty);
        if t.last() == '#' {
        } else if t.len() >= 2 && t[t.len() - 2] == '#' {
            lemma_put_add(front, open_hole(args, t.last()), name, ty);
            reveal(put);
        } else {
            let c = Sym::Char(t.last());
            assert(front.push(c) =~= front + seq![c]);
            lemma_put_add(front, seq![c], name, ty);
            lemma_one(c, neutral(), name, ty);
            let f = put(front, name, ty);
            assert(f + seq![t.last()] =~= f.push(t.last()));
        }
    }
}

/// A template filled with texts in which nothing is left open.
pub proof fn lemma_plain_fill(t: Seq<char>, args: Seq<Seq<char>>)
    ensures
        plain(text::fill(t, args)) == open_fill(t, plains(args)),
    decreases t.len(),
{
    reveal(open_fill);
    reveal(text::fill);
    if t.len() == 0 {
        assert(plain(text::fill(t, args)) =~= Seq::<Sym<char>>::empty());
    } else {
        let front = text::fill(t.drop_last(), args);
        lemma_plain_fill(t.drop_last(), args);
        if t.last() == '#' {
        } else if t.len() >= 2 && t[t.len() - 2] == '#' {
            lemma_plain_add(front, text::hole(args, t.last()));
            assert(plain(text::hole(args, t.last())) =~= open_hole(plains(args), t.last()));
        } else {
            assert(plain(front.push(t.last())) =~= plain(front).push(Sym::Char(t.last())));
        }
    }
}

/// The first `i` characters of a template, filled, lead a reader to where the template does.
proof fn lemma_scan_to(
    t: Seq<char>,
    i: nat,
    args: Seq<Seq<Sym<char>>>,
    kinds: Seq<Kind>,
    at: int,
)
    requires
        i <= t.len(),
        args.len() == kinds.len(),
        forall|j: int| 0 <= j < args.len() ==> fits(#[trigger] args[j], kinds[j]),
        scan(t, 0, at, kinds) != lost(),
    ensures
        scan(t, i, read(at, open_fill(t.take(i as int), args)), kinds) == scan(t, 0, at, kinds),
    decreases i,
{
    reveal(open_fill);
    if i == 0 {
        reveal(read);
    } else {
        let h = (i - 1) as nat;
        lemma_scan_to(t, h, args, kinds, at);
        let pre = t.take(h as int);
        let now = t.take(i as int);
        assert(now.drop_last() =~= pre);
        let front = open_fill(pre, args);
        let mid = read(at, front);
        reveal(scan);
        assert(scan(t, h, mid, kinds) == scan(t, i, over(t, h, mid, kinds), kinds));
        lemma_scan_lost(t, i, kinds);
        let c = t[h as int];
        if c == '#' {
        } else if h > 0 && t[h - 1] == '#' {
            reveal(at_hole);
            let k = c as int - '0' as int;
            assert(fits(args[k], kinds[k]));
            lemma_read_add(at, front, open_hole(args, c));
        } else {
            assert(front.push(Sym::Char(c)) =~= front + seq![Sym::Char(c)]);
            lemma_read_add(at, front, seq![Sym::Char(c)]);
            lemma_one(Sym::Char(c), mid, seq![], seq![]);
        }
    }
}

/// A filled template leads a reader to where the template does.
pub proof fn lemma_read_fill(t: Seq<char>, args: Seq<Seq<Sym<char>>>, kinds: Seq<Kind>, at: int)
    requires
        args.len() == kinds.len(),
        forall|j: int| 0 <= j < args.len() ==> fits(#[trigger] args[j], kinds[j]),
        scan(t, 0, at, kinds) != lost(),
    ensures
        read(at, open_fill(t, args)) == scan(t, 0, at, kinds),
{
    lemma_scan_to(t, t.len(), args, kinds, at);
    assert(t.take(t.len() as int) =~= t);
    reveal(scan);
}

/// As [`lemma_read_fill`], where nothing is left open.
pub proof fn lemma_read_plain_fill(t: Seq<char>, args: Seq<Seq<char>>, kinds: Seq<Kind>, at: int)
    requires
        args.len() == kinds.len(),
        forall|j: int| 0 <= j < args.len() ==> fits(plain(#[trigger] args[j]), kinds[j]),
        scan(t, 0, at, kinds) != lost(),
    ensures
        read(at, plain(text::fill(t, args))) == scan(t, 0, at, kinds),
{
    lemma_plain_fill(t, args);
    let open = plains(args);
    assert forall|j: int| 0 <= j < open.len() implies fits(#[trigger] open[j], kinds[j]) by {
        assert(fits(plain(args[j]), kinds[j]));
    }
    lemma_read_fill(t, open, kinds, at);
}

/// A number is calm.
pub broadcast proof fn lemma_number(n: nat)
    ensures
        fits(#[trigger] plain(text::dec(n)), Kind::Calm),
    decreases n,
{
    reveal(text::dec);
    let x = text::dec(n);
    let c = x.last();
    assert('0' <= c <= '9') by {
        assert(forall|d: nat| d < 10 ==> '0' <= #[trigger] text::digit(d) <= '9');
    }
    assert forall|at: int| effect(Kind::Calm, at) != lost() implies #[trigger] read(at, plain(x))
        == neutral() by {
        let front = x.drop_last();
        assert(x =~= front + seq![c]);
        lemma_plain_add(front, seq![c]);
        lemma_read_add(at, plain(front), plain(seq![c]));
        assert(plain(seq![c]) =~= seq![Sym::Char(c)]);
        lemma_one(Sym::Char(c), read(at, plain(front)), seq![], seq![]);
        if n >= 10 {
            lemma_number(n / 10);
            assert(front =~= text::dec(n / 10));
            assert(read(at, plain(text::dec(n / 10))) == neutral());
        } else {
            reveal(read);
            assert(front.len() == 0);
        }
    }
}

/// The name and the type are of their kinds.
pub proof fn lemma_open_kinds()
    ensures
        fits(named(), Kind::Name),
        fits(typed(), Kind::Type),
{
    assert forall|at: int| effect(Kind::Name, at) != lost() implies #[trigger] read(at, named())
        == effect(Kind::Name, at) by {
        lemma_one(Sym::Name, at, seq![], seq![]);
    }
    assert forall|at: int| effect(Kind::Type, at) != lost() implies #[trigger] read(at, typed())
        == effect(Kind::Type, at) by {
        lemma_one(Sym::Type, at, seq![], seq![]);
    }
}

/// What a reader who is neutral is led to is its kind.
pub proof fn lemma_ends(s: Seq<Sym<char>>)
    ensures
        fits(s, Kind::Ends(read(neutral(), s))),
{
}

/// Reading the first character of a text first.
pub proof fn lemma_read_first(x: Seq<char>, at: int)
    requires
        x.len() > 0,
    ensures
        read(at, plain(x)) == read(next(at, x[0]), plain(x.skip(1))),
{
    reveal(read);
    assert(plain(x).skip(1) =~= plain(x.skip(1)));
}

/// A text without a dot and an underscore is passed.
pub proof fn lemma_smooth(x: Seq<char>)
    requires
        forall|j: int| 0 <= j < x.len() ==> #[trigger] x[j] != '.' && x[j] != '_',
    ensures
        tidy(x),
    decreases x.len(),
{
    if x.len() > 0 {
        let r = x.skip(1);
        assert forall|j: int| 0 <= j < r.len() implies #[trigger] r[j] != '.' && r[j] != '_' by {
            assert(r[j] == x[j + 1]);
        }
        lemma_read_first(x, neutral());
        lemma_smooth(r);
    } else {
        reveal(read);
    }
}

/// A register, and any text like it, is calm.
pub proof fn lemma_register(x: Seq<char>)
    requires
        x.len() > 0,
        x[0] == '%' || x[0] == 'b' || x[0] == 'f' || x[0] == '{',
        forall|j: int| 0 <= j < x.len() ==> #[trigger] x[j] != '.' && x[j] != '_',
    ensures
        fits(plain(x), Kind::Calm),
        tidy(x),
{
    let r = x.skip(1);
    assert forall|j: int| 0 <= j < r.len() implies #[trigger] r[j] != '.' && r[j] != '_' by {
        assert(r[j] == x[j + 1]);
    }
    lemma_smooth(r);
    lemma_smooth(x);
    assert forall|at: int| effect(Kind::Calm, at) != lost() implies #[trigger] read(at, plain(x))
        == neutral() by {
        lemma_read_first(x, at);
    }
}

/// In a text in which nothing is left open a reader stays inside, or is lost.
pub proof fn lemma_inside(x: Seq<char>, at: int)
    requires
        inside(at) || at == lost(),
    ensures
        inside(read(at, plain(x))) || read(at, plain(x)) == lost(),
    decreases x.len(),
{
    if x.len() > 0 {
        lemma_read_first(x, at);
        lemma_inside(x.skip(1), next(at, x[0]));
    } else {
        reveal(read);
    }
}

/// A list that is passed is read without its last character, too.
pub proof fn lemma_without_last(x: Seq<char>)
    requires
        tidy(x),
    ensures
        inside(read(neutral(), plain(text::without_last(x)))),
{
    if x.len() > 0 {
        let front = x.drop_last();
        assert(x =~= front + seq![x.last()]);
        lemma_plain_add(front, seq![x.last()]);
        lemma_read_add(neutral(), plain(front), plain(seq![x.last()]));
        lemma_inside(front, neutral());
        lemma_lost(plain(seq![x.last()]));
    } else {
        reveal(read);
    }
}

/// A template filled so that a reader passes it.
pub proof fn lemma_tidy_fill(t: Seq<char>, args: Seq<Seq<char>>, kinds: Seq<Kind>)
    requires
        args.len() == kinds.len(),
        forall|j: int| 0 <= j < args.len() ==> fits(plain(#[trigger] args[j]), kinds[j]),
        scan(t, 0, neutral(), kinds) == neutral(),
    ensures
        tidy(text::fill(t, args)),
{
    lemma_read_plain_fill(t, args, kinds, neutral());
}

/// A template without arguments is read as it stands.
pub proof fn lemma_tidy_constant(t: Seq<char>)
    requires
        t.len() > 0,
        t.last() != '#',
        scan(t, 0, neutral(), Seq::<Kind>::empty()) == neutral(),
    ensures
        tidy(t),
{
    lemma_constant(t, 0, neutral());
    assert(t.skip(0) =~= t);
}

/// Without arguments a hole is no place to be.
proof fn lemma_hole_lost(t: Seq<char>, i: nat, at: int)
    requires
        i < t.len(),
        t.last() != '#',
        t[i as int] == '#',
    ensures
        scan(t, i, at, Seq::<Kind>::empty()) == lost(),
    decreases t.len() - i,
{
    reveal_with_fuel(scan, 3);
    reveal(at_hole);
    if t[i as int + 1] == '#' {
        lemma_hole_lost(t, i + 1, at);
    } else {
        lemma_scan_lost(t, i + 2, Seq::<Kind>::empty());
    }
}

/// See [`lemma_tidy_constant`].
proof fn lemma_constant(t: Seq<char>, i: nat, at: int)
    requires
        t.len() > 0,
        t.last() != '#',
        i <= t.len(),
        i > 0 ==> t[i - 1] != '#',
        scan(t, i, at, Seq::<Kind>::empty()) != lost(),
    ensures
        read(at, plain(t.skip(i as int))) == scan(t, i, at, Seq::<Kind>::empty()),
    decreases t.len() - i,
{
    reveal(scan);
    if i < t.len() {
        let x = t.skip(i as int);
        if t[i as int] == '#' {
            lemma_hole_lost(t, i, at);
        } else {
            lemma_read_first(x, at);
            assert(x.skip(1) =~= t.skip(i as int + 1));
            lemma_constant(t, i + 1, next(at, t[i as int]));
        }
    } else {
        reveal(read);
    }
}

} // verus!
