//! What a loss function is differentiated by, and how large its buffers are.
use vstd::prelude::*;
use vstd::string::*;

use crate::text;

verus! {

pub const NO_BUFFERS: &'static str =
    "the loss function has no buffer (pointer) parameters to differentiate";

pub const NOTHING_TRAINABLE: &'static str =
    "the loss function has no trainable buffer parameters (--train differentiates every buffer parameter except the last, which is the scalar loss output)";

pub const OUT_OF_RANGE: &'static str =
    "--grad-wrt index #0 is out of range (the function has #1 parameter(s))";

pub const NOT_A_BUFFER: &'static str = "--grad-wrt index #0 is not a buffer (pointer) parameter";

pub const REPEATED: &'static str =
    "--grad-wrt index #0 is repeated; each parameter may be differentiated at most once";

pub const NO_TARGET: &'static str =
    "no function `#0` in the module (choose the target with --grad-of=<fn>)";

/// The buffers among the first `k` parameters, without the last of all where training: that one is
/// the loss.
pub open spec fn buffers(is_ptr: Seq<bool>, training: bool, k: nat) -> Seq<usize>
    decreases k,
{
    if k == 0 {
        Seq::empty()
    } else {
        let before = buffers(is_ptr, training, (k - 1) as nat);
        if is_ptr[k - 1] && !(training && k == is_ptr.len()) {
            before.push((k - 1) as usize)
        } else {
            before
        }
    }
}

/// What is wrong with the request at `j`: it is no parameter, no buffer, or a repetition.
pub open spec fn fault(is_ptr: Seq<bool>, requested: Seq<usize>, j: int) -> Option<Seq<char>> {
    let shown = text::dec(requested[j] as nat);
    if requested[j] >= is_ptr.len() {
        Some(text::fill(OUT_OF_RANGE@, seq![shown, text::dec(is_ptr.len())]))
    } else if !is_ptr[requested[j] as int] {
        Some(text::fill(NOT_A_BUFFER@, seq![shown]))
    } else if requested.take(j).contains(requested[j]) {
        Some(text::fill(REPEATED@, seq![shown]))
    } else {
        None
    }
}

/// The first fault of the first `k` requests.
pub open spec fn first_fault(is_ptr: Seq<bool>, requested: Seq<usize>, k: nat) -> Option<Seq<char>>
    decreases k,
{
    if k == 0 {
        None
    } else {
        match first_fault(is_ptr, requested, (k - 1) as nat) {
            Some(e) => Some(e),
            None => fault(is_ptr, requested, k - 1),
        }
    }
}

/// The parameters to differentiate by: see [`grad_wrt`].
pub open spec fn wrt_of(is_ptr: Seq<bool>, requested: Seq<usize>, training: bool) -> Result<
    Seq<usize>,
    Seq<char>,
> {
    if requested.len() == 0 {
        let all = buffers(is_ptr, training, is_ptr.len());
        if all.len() == 0 {
            Err(
                if training {
                    NOTHING_TRAINABLE@
                } else {
                    NO_BUFFERS@
                },
            )
        } else {
            Ok(all)
        }
    } else {
        match first_fault(is_ptr, requested, requested.len()) {
            Some(e) => Err(e),
            None => Ok(requested),
        }
    }
}

/// Whether one of the first `n` numbers is `x`.
fn among(xs: &[usize], n: usize, x: usize) -> (r: bool)
    requires
        n <= xs@.len(),
    ensures
        r == xs@.take(n as int).contains(x),
{
    for i in 0..n
        invariant
            n <= xs@.len(),
            forall|j: int| 0 <= j < i ==> xs@[j] != x,
    {
        if xs[i] == x {
            assert(xs@.take(n as int)[i as int] == x);
            return true;
        }
    }
    false
}

/// The parameters to differentiate by, of a function whose buffers are told by `is_ptr`: the
/// requested ones, each a buffer and none twice, or, where none is requested, every buffer. Where
/// training, every buffer but the last parameter, which is the loss.
pub fn grad_wrt(is_ptr: &[bool], requested: &[usize], training: bool) -> (r: Result<
    Vec<usize>,
    String,
>)
    ensures
        match r {
            Ok(w) => wrt_of(is_ptr@, requested@, training) == Ok::<Seq<usize>, Seq<char>>(w@),
            Err(e) => wrt_of(is_ptr@, requested@, training) == Err::<Seq<usize>, Seq<char>>(e@),
        },
{
    if requested.len() == 0 {
        let mut all: Vec<usize> = Vec::new();
        for i in 0..is_ptr.len()
            invariant
                all@ == buffers(is_ptr@, training, i as nat),
        {
            if is_ptr[i] && !(training && i == is_ptr.len() - 1) {
                all.push(i);
            }
        }
        if all.len() == 0 {
            return Err(
                if training {
                    String::from_str(NOTHING_TRAINABLE)
                } else {
                    String::from_str(NO_BUFFERS)
                },
            );
        }
        return Ok(all);
    }
    let mut r: Vec<usize> = Vec::new();
    for j in 0..requested.len()
        invariant
            requested@.len() > 0,
            first_fault(is_ptr@, requested@, j as nat) is None,
            r@ == requested@.take(j as int),
    {
        let w: usize = requested[j];
        let error = if w >= is_ptr.len() {
            Some(text::expand2(OUT_OF_RANGE, &text::decimal(w), &text::decimal(is_ptr.len())))
        } else if !is_ptr[w] {
            Some(text::expand1(NOT_A_BUFFER, &text::decimal(w)))
        } else if among(requested, j, w) {
            Some(text::expand1(REPEATED, &text::decimal(w)))
        } else {
            None
        };
        if let Some(e) = error {
            proof {
                lemma_first_fault(is_ptr@, requested@, (j + 1) as nat, requested@.len());
            }
            return Err(e);
        }
        r.push(w);
        assert(r@ =~= requested@.take(j + 1));
    }
    assert(requested@.take(requested@.len() as int) =~= requested@);
    Ok(r)
}

/// A fault stays the first.
proof fn lemma_first_fault(is_ptr: Seq<bool>, requested: Seq<usize>, j: nat, k: nat)
    requires
        j <= k,
        first_fault(is_ptr, requested, j) is Some,
    ensures
        first_fault(is_ptr, requested, k) == first_fault(is_ptr, requested, j),
    decreases k,
{
    if j < k {
        lemma_first_fault(is_ptr, requested, j, (k - 1) as nat);
    }
}

/// Without a fault no request has one.
proof fn lemma_no_fault(is_ptr: Seq<bool>, requested: Seq<usize>, k: nat, j: int)
    requires
        0 <= j < k,
        first_fault(is_ptr, requested, k) is None,
    ensures
        fault(is_ptr, requested, j) is None,
    decreases k,
{
    if j < k - 1 {
        lemma_no_fault(is_ptr, requested, (k - 1) as nat, j);
    }
}

/// The buffers of a function, in order and without the loss.
proof fn lemma_buffers(is_ptr: Seq<bool>, training: bool, k: nat)
    requires
        k <= is_ptr.len() <= usize::MAX,
    ensures
        forall|i: int|
            0 <= i < buffers(is_ptr, training, k).len() ==> {
                let w = #[trigger] buffers(is_ptr, training, k)[i];
                w < k && is_ptr[w as int] && !(training && w == is_ptr.len() - 1)
            },
        forall|i: int, j: int|
            0 <= i < j < buffers(is_ptr, training, k).len() ==> #[trigger] buffers(
                is_ptr,
                training,
                k,
            )[i] < #[trigger] buffers(is_ptr, training, k)[j],
    decreases k,
{
    if k > 0 {
        lemma_buffers(is_ptr, training, (k - 1) as nat);
        let before = buffers(is_ptr, training, (k - 1) as nat);
        let after = buffers(is_ptr, training, k);
        assert(forall|i: int| 0 <= i < before.len() ==> #[trigger] after[i] == before[i]);
        assert(forall|i: int|
            0 <= i < before.len() ==> {
                let w = #[trigger] before[i];
                w < k - 1 && is_ptr[w as int] && !(training && w == is_ptr.len() - 1)
            });
    }
}

/// What a loss function is differentiated by are buffers of it, at least one and none twice, and
/// without a request training leaves the loss out.
pub proof fn law_gradients_are_of_distinct_buffers(
    is_ptr: Seq<bool>,
    requested: Seq<usize>,
    training: bool,
)
    requires
        is_ptr.len() <= usize::MAX,
        wrt_of(is_ptr, requested, training) is Ok,
    ensures
        ({
            let w = wrt_of(is_ptr, requested, training)->Ok_0;
            &&& w.len() > 0
            &&& w.no_duplicates()
            &&& forall|i: int|
                0 <= i < w.len() ==> (#[trigger] w[i]) < is_ptr.len() && is_ptr[w[i] as int]
            &&& requested.len() > 0 ==> w == requested
            &&& requested.len() == 0 && training ==> !w.contains((is_ptr.len() - 1) as usize)
        }),
{
    let w = wrt_of(is_ptr, requested, training)->Ok_0;
    if requested.len() == 0 {
        lemma_buffers(is_ptr, training, is_ptr.len());
    } else {
        assert forall|i: int| 0 <= i < w.len() implies (#[trigger] w[i]) < is_ptr.len()
            && is_ptr[w[i] as int] by {
            lemma_no_fault(is_ptr, requested, requested.len(), i);
        }
        assert forall|i: int, j: int| 0 <= i < j < w.len() implies w[i] != w[j] by {
            lemma_no_fault(is_ptr, requested, requested.len(), j);
            assert(requested.take(j)[i] == w[i]);
        }
    }
}

/// A dimension of a tensor.
#[derive(Clone, Copy, PartialEq, Eq, Debug, Structural)]
pub enum Dim {
    Const(u64),
    /// One that only a run knows.
    Symbolic,
}

/// A type, as far as the size of a buffer of it goes.
#[derive(Debug)]
pub enum Ty {
    Scalar,
    Array { elem: Box<Ty>, len: u64 },
    Tensor { shape: Vec<Dim> },
    /// One without a size that is known before a run.
    Other,
}

/// The product of the first `k` dimensions, if they are all known.
pub open spec fn product(shape: Seq<Dim>, k: nat) -> Option<nat>
    decreases k,
{
    if k == 0 {
        Some(1)
    } else {
        match (product(shape, (k - 1) as nat), shape[k - 1]) {
            (Some(p), Dim::Const(n)) => Some(p * n as nat),
            _ => None,
        }
    }
}

/// The scalars in a value of a type, if that is known.
pub open spec fn elems(ty: Ty) -> Option<nat>
    decreases ty,
{
    match ty {
        Ty::Scalar => Some(1),
        Ty::Array { elem, len } => match elems(*elem) {
            Some(n) => Some(n * len as nat),
            None => None,
        },
        Ty::Tensor { shape } => product(shape@, shape@.len()),
        Ty::Other => None,
    }
}

/// Whether a count is a `u64`.
pub open spec fn counts(n: Option<nat>) -> bool {
    n matches Some(n) ==> n <= u64::MAX
}

/// Whether the counts on the way to [`elems`] are `u64`s.
pub open spec fn countable(ty: Ty) -> bool
    decreases ty,
{
    match ty {
        Ty::Array { elem, len } => countable(*elem) && counts(elems(ty)),
        Ty::Tensor { shape } => forall|k: int|
            0 <= k <= shape@.len() ==> counts(#[trigger] product(shape@, k as nat)),
        _ => true,
    }
}

/// What is unknown stays so.
proof fn lemma_unknown(shape: Seq<Dim>, j: nat, k: nat)
    requires
        j <= k,
        product(shape, j) is None,
    ensures
        product(shape, k) is None,
    decreases k,
{
    if j < k {
        lemma_unknown(shape, j, (k - 1) as nat);
    }
}

/// See [`countable`].
pub fn ty_is_countable(ty: &Ty) -> (r: bool)
    ensures
        r == countable(*ty),
    decreases *ty,
{
    match ty {
        Ty::Array { elem, len } => {
            if !ty_is_countable(&**elem) {
                return false;
            }
            match ty_elem_count(&**elem) {
                Some(n) => {
                    assert(elems(*ty) == Some(n as nat * *len as nat));
                    n.checked_mul(*len).is_some()
                },
                None => true,
            }
        },
        Ty::Tensor { shape } => {
            let mut acc: u64 = 1;
            for k in 0..shape.len()
                invariant
                    *ty == (Ty::Tensor { shape: *shape }),
                    product(shape@, k as nat) == Some(acc as nat),
                    forall|j: int| 0 <= j <= k ==> counts(#[trigger] product(shape@, j as nat)),
            {
                let ghost next = product(shape@, (k + 1) as nat);
                match shape[k] {
                    Dim::Const(n) => {
                        assert(next == Some(acc as nat * n as nat));
                        match acc.checked_mul(n) {
                            Some(p) => {
                                acc = p;
                            },
                            None => {
                                assert(!counts(product(shape@, (k + 1) as nat)));
                                return false;
                            },
                        }
                    },
                    Dim::Symbolic => {
                        assert(next is None);
                        assert forall|j: int| 0 <= j <= shape@.len() implies counts(
                            #[trigger] product(shape@, j as nat),
                        ) by {
                            if j > k {
                                lemma_unknown(shape@, (k + 1) as nat, j as nat);
                            }
                        }
                        return true;
                    },
                }
            }
            true
        },
        _ => true,
    }
}

/// The scalars in a value of a type: one, an array's length times those of its element, or the
/// product of a tensor's dimensions; `None` where a run decides.
pub fn ty_elem_count(ty: &Ty) -> (r: Option<u64>)
    requires
        countable(*ty),
    ensures
        match r {
            Some(n) => elems(*ty) == Some(n as nat),
            None => elems(*ty) is None,
        },
    decreases *ty,
{
    match ty {
        Ty::Scalar => Some(1),
        Ty::Array { elem, len } => {
            match ty_elem_count(&**elem) {
                Some(n) => {
                    assert(elems(*ty) == Some(n as nat * *len as nat));
                    Some(n * *len)
                },
                None => None,
            }
        },
        Ty::Tensor { shape } => {
            let mut acc: u64 = 1;
            for k in 0..shape.len()
                invariant
                    countable(*ty),
                    *ty == (Ty::Tensor { shape: *shape }),
                    product(shape@, k as nat) == Some(acc as nat),
            {
                match shape[k] {
                    Dim::Const(n) => {
                        assert(product(shape@, (k + 1) as nat) == Some(acc as nat * n as nat));
                        assert(counts(product(shape@, (k + 1) as nat)));
                        acc = acc * n;
                    },
                    Dim::Symbolic => {
                        proof {
                            lemma_unknown(shape@, (k + 1) as nat, shape@.len());
                        }
                        return None;
                    },
                }
            }
            Some(acc)
        },
        Ty::Other => None,
    }
}

/// What the name of a loss function stands for.
#[derive(Debug)]
pub enum Def {
    Missing,
    /// Something that has no parameters.
    NotAFunction,
    Function { params: Vec<Ty> },
}

pub const NO_FUNCTION: &'static str = "no function `#0` in the module";

pub const NOT_A_FUNCTION: &'static str = "`#0` is not a function";

pub const NO_SIZE: &'static str =
    "parameter #0 of `#1` has no statically-known element count (a symbolic tensor dim or slice); --train needs concrete buffer sizes";

/// Whether `r` is what [`loss_param_lens`] tells of the first `k` parameters.
pub open spec fn lens_of(params: Seq<Ty>, name: Seq<char>, k: nat) -> Result<Seq<nat>, Seq<char>>
    decreases k,
{
    if k == 0 {
        Ok(Seq::empty())
    } else {
        match lens_of(params, name, (k - 1) as nat) {
            Err(e) => Err(e),
            Ok(before) => match elems(params[k - 1]) {
                Some(n) => Ok(before.push(n)),
                None => Err(text::fill(NO_SIZE@, seq![text::dec((k - 1) as nat), name])),
            },
        }
    }
}

/// What [`loss_param_lens`] tells.
pub open spec fn told_lens(def: Def, name: Seq<char>) -> Result<Seq<nat>, Seq<char>> {
    match def {
        Def::Missing => Err(text::fill(NO_FUNCTION@, seq![name])),
        Def::NotAFunction => Err(text::fill(NOT_A_FUNCTION@, seq![name])),
        Def::Function { params } => lens_of(params@, name, params@.len()),
    }
}

/// An error stays the first.
proof fn lemma_lens(params: Seq<Ty>, name: Seq<char>, j: nat, k: nat)
    requires
        j <= k,
        lens_of(params, name, j) is Err,
    ensures
        lens_of(params, name, k) == lens_of(params, name, j),
    decreases k,
{
    if j < k {
        lemma_lens(params, name, j, (k - 1) as nat);
    }
}

/// The scalars in each parameter of the function `name`, or the first reason why there are none to
/// tell.
pub fn loss_param_lens(def: &Def, name: &str) -> (r: Result<Vec<u64>, String>)
    requires
        def matches Def::Function { params } ==> forall|i: int|
            0 <= i < params@.len() ==> countable(#[trigger] params@[i]),
    ensures
        match r {
            Ok(lens) => told_lens(*def, name@) == Ok::<Seq<nat>, Seq<char>>(
                Seq::new(lens@.len(), |i: int| lens@[i] as nat),
            ),
            Err(e) => told_lens(*def, name@) == Err::<Seq<nat>, Seq<char>>(e@),
        },
{
    match def {
        Def::Missing => Err(text::expand1(NO_FUNCTION, name)),
        Def::NotAFunction => Err(text::expand1(NOT_A_FUNCTION, name)),
        Def::Function { params } => {
            let mut lens: Vec<u64> = Vec::new();
            assert(Seq::new(0, |i: int| lens@[i] as nat) =~= Seq::empty());
            for i in 0..params.len()
                invariant
                    *def == (Def::Function { params: *params }),
                    forall|j: int| 0 <= j < params@.len() ==> countable(#[trigger] params@[j]),
                    lens_of(params@, name@, i as nat) == Ok::<Seq<nat>, Seq<char>>(
                        Seq::new(lens@.len(), |j: int| lens@[j] as nat),
                    ),
            {
                let ghost before = Seq::new(lens@.len(), |j: int| lens@[j] as nat);
                match ty_elem_count(&params[i]) {
                    Some(n) => {
                        lens.push(n);
                        assert(Seq::new(lens@.len(), |j: int| lens@[j] as nat) =~= before.push(
                            n as nat,
                        ));
                    },
                    None => {
                        let e = text::expand2(NO_SIZE, &text::decimal(i), name);
                        proof {
                            let here = lens_of(params@, name@, (i + 1) as nat);
                            assert(here == Err::<Seq<nat>, Seq<char>>(e@));
                            lemma_lens(params@, name@, (i + 1) as nat, params@.len());
                        }
                        return Err(e);
                    },
                }
            }
            Ok(lens)
        },
    }
}

/// The default is every buffer, in order; training leaves out the last parameter, the loss.
pub proof fn law_the_default_is_every_buffer(is_ptr: Seq<bool>, training: bool, k: nat)
    requires
        k <= is_ptr.len() <= usize::MAX,
    ensures
        ({
            let b = buffers(is_ptr, training, k);
            &&& forall|i: int|
                0 <= i < k ==> (b.contains(i as usize) <==> #[trigger] is_ptr[i] && !(training && i
                    == is_ptr.len() - 1))
            &&& forall|x: int, y: int| 0 <= x < y < b.len() ==> b[x] < b[y]
            &&& forall|x: int| 0 <= x < b.len() ==> (#[trigger] b[x]) < k
        }),
    decreases k,
{
    if k > 0 {
        let last = (k - 1) as nat;
        law_the_default_is_every_buffer(is_ptr, training, last);
        let before = buffers(is_ptr, training, last);
        let b = buffers(is_ptr, training, k);
        assert forall|i: int| 0 <= i < k implies (b.contains(i as usize) <==> #[trigger] is_ptr[i]
            && !(training && i == is_ptr.len() - 1)) by {
            if i < last {
                if before.contains(i as usize) {
                    let x = choose|x: int| 0 <= x < before.len() && before[x] == i as usize;
                    assert(b[x] == i as usize);
                }
                if b.contains(i as usize) {
                    let x = choose|x: int| 0 <= x < b.len() && b[x] == i as usize;
                    assert(x < before.len());
                    assert(before[x] == i as usize);
                }
            } else {
                if b.len() > before.len() {
                    assert(b[before.len() as int] == i as usize);
                } else if b.contains(i as usize) {
                    let x = choose|x: int| 0 <= x < b.len() && b[x] == i as usize;
                    assert(before[x] < last);
                }
            }
        }
    }
}

/// The first fault is the one of the first request that has one.
proof fn lemma_faults(is_ptr: Seq<bool>, requested: Seq<usize>, k: nat)
    requires
        k <= requested.len(),
    ensures
        first_fault(is_ptr, requested, k) is None <==> forall|j: int|
            0 <= j < k ==> #[trigger] fault(is_ptr, requested, j) is None,
        first_fault(is_ptr, requested, k) matches Some(e) ==> exists|j: int|
            0 <= j < k && #[trigger] fault(is_ptr, requested, j) == Some(e) && forall|h: int|
                0 <= h < j ==> #[trigger] fault(is_ptr, requested, h) is None,
    decreases k,
{
    if k > 0 {
        lemma_faults(is_ptr, requested, (k - 1) as nat);
        assert(fault(is_ptr, requested, k - 1) is None || fault(is_ptr, requested, k - 1) is Some);
    }
}

/// A request is taken as it is where each of its numbers is that of a buffer and none comes twice;
/// otherwise it is refused. Without one there must be a buffer to differentiate by.
pub proof fn law_which_requests_are_taken(
    is_ptr: Seq<bool>,
    requested: Seq<usize>,
    training: bool,
)
    requires
        is_ptr.len() <= usize::MAX,
    ensures
        requested.len() > 0 ==> (wrt_of(is_ptr, requested, training) is Ok <==> {
            &&& forall|j: int|
                0 <= j < requested.len() ==> (#[trigger] requested[j]) < is_ptr.len()
                    && is_ptr[requested[j] as int]
            &&& requested.no_duplicates()
        }),
        requested.len() == 0 ==> (wrt_of(is_ptr, requested, training) is Ok <==> exists|i: int|
            0 <= i < is_ptr.len() && #[trigger] is_ptr[i] && !(training && i == is_ptr.len() - 1)),
{
    if requested.len() > 0 {
        lemma_faults(is_ptr, requested, requested.len());
        if wrt_of(is_ptr, requested, training) is Ok {
            law_gradients_are_of_distinct_buffers(is_ptr, requested, training);
        }
        let good = (forall|j: int|
            0 <= j < requested.len() ==> (#[trigger] requested[j]) < is_ptr.len()
                && is_ptr[requested[j] as int]) && requested.no_duplicates();
        if good {
            assert forall|j: int| 0 <= j < requested.len() implies #[trigger] fault(
                is_ptr,
                requested,
                j,
            ) is None by {
                assert(requested[j] < is_ptr.len());
                if requested.take(j).contains(requested[j]) {
                    let h = choose|h: int|
                        0 <= h < requested.take(j).len() && requested.take(j)[h] == requested[j];
                    assert(requested[h] == requested[j]);
                }
            }
        }
    } else {
        law_the_default_is_every_buffer(is_ptr, training, is_ptr.len());
        let b = buffers(is_ptr, training, is_ptr.len());
        if b.len() > 0 {
            let i = b[0] as int;
            lemma_buffers(is_ptr, training, is_ptr.len());
            assert(is_ptr[i] && !(training && i == is_ptr.len() - 1));
        }
    }
}

/// The sizes of a loss function's parameters are told one by one, each of its own parameter, where
/// all are known; otherwise the first unknown one is named.
pub proof fn law_sizes_are_those_of_the_parameters(params: Seq<Ty>, name: Seq<char>, k: nat)
    requires
        k <= params.len(),
    ensures
        lens_of(params, name, k) is Ok <==> forall|i: int|
            0 <= i < k ==> elems(#[trigger] params[i]) is Some,
        lens_of(params, name, k) matches Ok(v) ==> {
            &&& v.len() == k
            &&& forall|i: int| 0 <= i < k ==> elems(#[trigger] params[i]) == Some(v[i])
        },
        lens_of(params, name, k) matches Err(e) ==> exists|i: int|
            0 <= i < k && elems(#[trigger] params[i]) is None && e == text::fill(
                NO_SIZE@,
                seq![text::dec(i as nat), name],
            ) && forall|h: int| 0 <= h < i ==> elems(#[trigger] params[h]) is Some,
    decreases k,
{
    if k > 0 {
        law_sizes_are_those_of_the_parameters(params, name, (k - 1) as nat);
        assert(elems(params[k - 1]) is None || elems(params[k - 1]) is Some);
    }
}

/// A tensor has a number for each combination of its dimensions: one dimension more multiplies the
/// count by it wherever it stands, one that is unknown leaves the count unknown, and a tensor
/// without dimensions has one number.
pub proof fn law_dimensions_multiply(a: Seq<Dim>, b: Seq<Dim>, n: u64)
    ensures
        product(a + b, (a + b).len()) == (match (product(a, a.len()), product(b, b.len())) {
            (Some(x), Some(y)) => Some(x * y),
            _ => None,
        }),
        product(seq![Dim::Const(n)], 1) == Some(n as nat),
        product(seq![Dim::Symbolic], 1) == None::<nat>,
        product(Seq::empty(), 0) == Some(1nat),
    decreases b.len(),
{
    reveal_with_fuel(product, 2);
    assert(1 * n as nat == n as nat);
    if b.len() == 0 {
        assert(a + b =~= a);
        if let Some(x) = product(a, a.len()) {
            assert(x * 1 == x);
        }
    } else {
        let c = b.drop_last();
        law_dimensions_multiply(a, c, n);
        let s = a + b;
        assert(s.drop_last() =~= a + c);
        lemma_prefix(s, (s.len() - 1) as nat);
        lemma_prefix(b, (b.len() - 1) as nat);
        assert(s.last() == b.last());
        if let (Some(x), Some(y)) = (product(a, a.len()), product(c, c.len())) {
            if let Dim::Const(n) = b.last() {
                assert((x * y) * n as nat == x * (y * n as nat)) by (nonlinear_arith);
            }
        }
    }
}

/// The first dimensions do not depend on the last.
proof fn lemma_prefix(s: Seq<Dim>, k: nat)
    requires
        k < s.len(),
    ensures
        product(s, k) == product(s.drop_last(), k),
    decreases k,
{
    if k > 0 {
        lemma_prefix(s, (k - 1) as nat);
        assert(s.drop_last()[k - 1] == s[k - 1]);
    }
}

} // verus!
