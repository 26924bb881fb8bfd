//! Which runtime library a native executable is linked with.
use vstd::prelude::*;
use vstd::string::*;

use crate::text;

verus! {

/// A file: its name, and when it was written.
#[derive(Debug)]
pub struct Entry {
    pub name: String,
    pub written: i128,
}

/// How the name of a runtime library in the directory of dependencies begins.
pub const PREFIX: &'static str = "libwukong_runtime-";

/// How it ends.
pub const SUFFIX: &'static str = ".rlib";

/// Whether a name begins with a text and ends with another behind it.
pub open spec fn framed(name: Seq<char>, prefix: Seq<char>, suffix: Seq<char>) -> bool {
    &&& prefix.len() + suffix.len() <= name.len()
    &&& name.take(prefix.len() as int) == prefix
    &&& name.skip(name.len() - suffix.len()) == suffix
}

/// Whether a name is that of a runtime library.
pub open spec fn is_runtime(name: Seq<char>) -> bool {
    framed(name, PREFIX@, SUFFIX@)
}

/// See [`framed`].
fn is_framed(name: &Vec<char>, prefix: &Vec<char>, suffix: &Vec<char>) -> (r: bool)
    ensures
        r == framed(name@, prefix@, suffix@),
{
    let (n, p, q) = (name.len(), prefix.len(), suffix.len());
    if n < p || n - p < q {
        return false;
    }
    for i in 0..p
        invariant
            p == prefix@.len(),
            n == name@.len(),
            p <= n,
            forall|j: int| 0 <= j < i ==> name@[j] == prefix@[j],
    {
        if name[i] != prefix[i] {
            assert(name@.take(p as int)[i as int] != prefix@[i as int]);
            return false;
        }
    }
    for i in 0..q
        invariant
            q == suffix@.len(),
            n == name@.len(),
            q <= n,
            forall|j: int| 0 <= j < i ==> name@[n - q + j] == suffix@[j],
    {
        if name[n - q + i] != suffix[i] {
            assert(name@.skip(n - q)[i as int] != suffix@[i as int]);
            return false;
        }
    }
    assert(name@.take(p as int) =~= prefix@);
    assert(name@.skip(n - q) =~= suffix@);
    true
}

/// Whether `a` is before `b` in the order of names.
pub open spec fn before(a: Seq<char>, b: Seq<char>) -> bool
    decreases a.len(),
{
    if b.len() == 0 {
        false
    } else if a.len() == 0 {
        true
    } else if a[0] != b[0] {
        a[0] < b[0]
    } else {
        before(a.skip(1), b.skip(1))
    }
}

/// See [`before`].
fn is_before(a: &Vec<char>, b: &Vec<char>) -> (r: bool)
    ensures
        r == before(a@, b@),
{
    let mut i: usize = 0;
    assert(a@.skip(0) =~= a@);
    assert(b@.skip(0) =~= b@);
    while i < a.len() && i < b.len()
        invariant
            i <= a@.len(),
            i <= b@.len(),
            before(a@, b@) == before(a@.skip(i as int), b@.skip(i as int)),
        decreases a@.len() - i,
    {
        assert(a@.skip(i as int)[0] == a@[i as int]);
        assert(b@.skip(i as int)[0] == b@[i as int]);
        if a[i] != b[i] {
            return a[i] < b[i];
        }
        assert(a@.skip(i as int).skip(1) =~= a@.skip(i + 1));
        assert(b@.skip(i as int).skip(1) =~= b@.skip(i + 1));
        i = i + 1;
    }
    i < b.len()
}

/// Whether `a` is to be preferred to `b`: it was written later, or at the same time and its name is
/// the later one.
pub open spec fn preferred(a: Entry, b: Entry) -> bool {
    a.written > b.written || a.written == b.written && before(b.name@, a.name@)
}

/// The preferred runtime library of the first `k` files.
pub open spec fn best(files: Seq<Entry>, k: nat) -> Option<int>
    decreases k,
{
    if k == 0 {
        None
    } else {
        let so_far = best(files, (k - 1) as nat);
        let here = files[k - 1];
        if is_runtime(here.name@) && (so_far matches Some(b) ==> preferred(here, files[b])) {
            Some(k - 1)
        } else {
            so_far
        }
    }
}

/// Where the runtime library is.
#[derive(Clone, Copy, PartialEq, Eq, Debug, Structural)]
pub enum Rlib {
    /// Beside the compiler.
    Uplifted,
    /// The file of this number in the directory of dependencies.
    InDeps(usize),
    /// There is none.
    Missing,
}

/// The runtime library: the one beside the compiler where there is one, or else the last written of
/// those among its dependencies, `None` where these cannot be listed.
pub fn runtime_rlib_in(uplifted: bool, deps: Option<&[Entry]>) -> (r: Rlib)
    ensures
        r == (if uplifted {
            Rlib::Uplifted
        } else {
            match deps {
                None => Rlib::Missing,
                Some(files) => match best(files@, files@.len()) {
                    Some(i) => Rlib::InDeps(i as usize),
                    None => Rlib::Missing,
                },
            }
        }),
        r matches Rlib::InDeps(i) ==> i < deps->0@.len(),
{
    if uplifted {
        return Rlib::Uplifted;
    }
    let files = match deps {
        None => return Rlib::Missing,
        Some(files) => files,
    };
    let prefix = text::chars_of(PREFIX);
    let suffix = text::chars_of(SUFFIX);
    let mut found: Option<usize> = None;
    for i in 0..files.len()
        invariant
            prefix@ == PREFIX@,
            suffix@ == SUFFIX@,
            match found {
                Some(b) => best(files@, i as nat) == Some(b as int) && b < i,
                None => best(files@, i as nat) is None,
            },
    {
        let name = text::chars_of(&files[i].name);
        if is_framed(&name, &prefix, &suffix) {
            let better = match found {
                None => true,
                Some(b) => files[i].written > files[b].written || files[i].written
                    == files[b].written && is_before(&text::chars_of(&files[b].name), &name),
            };
            if better {
                found = Some(i);
            }
        }
    }
    match found {
        Some(i) => Rlib::InDeps(i),
        None => Rlib::Missing,
    }
}

/// The order of names is one: nothing is before itself, and before what is before is before.
proof fn lemma_before(a: Seq<char>, b: Seq<char>, c: Seq<char>)
    ensures
        !before(a, a),
        before(a, b) && before(b, c) ==> before(a, c),
        before(a, b) ==> !before(b, a),
        !before(a, b) && !before(b, a) ==> a == b,
    decreases a.len(),
{
    if a.len() > 0 {
        let rest = |s: Seq<char>|
            if s.len() > 0 {
                s.skip(1)
            } else {
                s
            };
        lemma_before(a.skip(1), rest(b), rest(c));
        if b.len() > 0 && a[0] == b[0] && a.skip(1) == b.skip(1) {
            assert(a =~= seq![a[0]] + a.skip(1));
            assert(b =~= seq![b[0]] + b.skip(1));
        }
    } else if b.len() == 0 {
        assert(a =~= b);
    }
}

/// Among the dependencies a runtime library is found wherever there is one, and none is preferred to
/// the one that is found.
pub proof fn law_the_best_runtime_is_found(files: Seq<Entry>, k: nat, j: int)
    requires
        0 <= j < k <= files.len(),
        is_runtime(files[j].name@),
    ensures
        best(files, k) matches Some(i) && 0 <= i < k && is_runtime(files[i].name@) && !preferred(
            files[j],
            files[i],
        ),
    decreases k,
{
    let here = files[k - 1];
    if j < k - 1 {
        law_the_best_runtime_is_found(files, (k - 1) as nat, j);
        let b = best(files, (k - 1) as nat)->0;
        lemma_before(files[b].name@, here.name@, files[j].name@);
        lemma_before(here.name@, files[j].name@, files[b].name@);
        lemma_before(files[b].name@, files[j].name@, here.name@);
        lemma_before(files[j].name@, files[b].name@, here.name@);
    } else {
        lemma_before(here.name@, here.name@, here.name@);
        lemma_best_is_runtime(files, (k - 1) as nat);
    }
}

/// What is found is a runtime library.
proof fn lemma_best_is_runtime(files: Seq<Entry>, k: nat)
    ensures
        best(files, k) matches Some(i) ==> 0 <= i < k && is_runtime(files[i].name@),
    decreases k,
{
    if k > 0 {
        lemma_best_is_runtime(files, (k - 1) as nat);
    }
}

/// Names are in one order: of two different names exactly one is before the other.
pub proof fn law_names_are_in_order(a: Seq<char>, b: Seq<char>)
    ensures
        a == b ==> !before(a, b),
        a != b ==> before(a, b) != before(b, a),
    decreases a.len(),
{
    if a.len() > 0 && b.len() > 0 && a[0] == b[0] {
        law_names_are_in_order(a.skip(1), b.skip(1));
        if a.skip(1) == b.skip(1) {
            assert(a =~= seq![a[0]] + a.skip(1));
            assert(b =~= seq![b[0]] + b.skip(1));
        }
    } else if a.len() == 0 && b.len() == 0 {
        assert(a =~= b);
    }
}

/// A name is before every longer one that begins with it, and otherwise the first character in
/// which two names differ decides.
pub proof fn law_the_first_difference_decides(
    p: Seq<char>,
    a: Seq<char>,
    b: Seq<char>,
)
    ensures
        b.len() > 0 ==> before(p, p + b) && !before(p + b, p),
        a.len() > 0 && b.len() > 0 && a[0] != b[0] ==> (before(p + a, p + b) <==> a[0] < b[0]),
    decreases p.len(),
{
    if p.len() > 0 {
        law_the_first_difference_decides(p.skip(1), a, b);
        assert((p + a).skip(1) =~= p.skip(1) + a);
        assert((p + b).skip(1) =~= p.skip(1) + b);
    } else {
        assert(p + a =~= a);
        assert(p + b =~= b);
    }
}

} // verus!
