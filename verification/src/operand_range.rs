//! Operands that a 16-bit input type cannot hold, found on the bits of their `f32` elements.
//!
//! The magnitude of an element is its bits without the sign, and magnitudes of numbers order as
//! their bits do. Above [`INFINITY_BITS`] the bits are no number at all.
use vstd::prelude::*;
use vstd::string::*;

use crate::text;
use crate::wgmma;

verus! {

/// The magnitude bits of an infinity.
pub const INFINITY_BITS: u32 = 0x7f80_0000;

/// The bits of 65504, the largest finite half-precision number.
pub const HALF_MAX_BITS: u32 = 0x477f_e000;

/// The bits of two to the minus 14, the smallest normal half-precision number.
pub const HALF_MIN_POSITIVE_BITS: u32 = 0x3880_0000;

/// `half::bf16::MAX` widened by `to_f32`: its bits with sixteen zeros behind them.
#[verifier::external_body]
fn bf16_max_bits() -> (r: u32)
    ensures
        r == 0x7f7f_0000,
{
    half::bf16::MAX.to_f32().to_bits()
}

/// `half::bf16::MIN_POSITIVE` widened by `to_f32`: its bits with sixteen zeros behind them.
#[verifier::external_body]
fn bf16_min_positive_bits() -> (r: u32)
    ensures
        r == 0x0080_0000,
{
    half::bf16::MIN_POSITIVE.to_f32().to_bits()
}

/// The bits of the largest magnitude that the type carries as a finite number.
pub open spec fn ceiling(dtype: wgmma::WgmmaDtype) -> u32 {
    match dtype {
        wgmma::WgmmaDtype::F16 => HALF_MAX_BITS,
        wgmma::WgmmaDtype::Bf16 => 0x7f7f_0000,
    }
}

/// See [`ceiling`].
pub fn seam_dtype_max_finite(dtype: wgmma::WgmmaDtype) -> (r: u32)
    ensures
        r == ceiling(dtype),
{
    match dtype {
        wgmma::WgmmaDtype::F16 => HALF_MAX_BITS,
        wgmma::WgmmaDtype::Bf16 => bf16_max_bits(),
    }
}

/// The bits of the smallest magnitude that the type carries at full precision.
pub open spec fn floor(dtype: wgmma::WgmmaDtype) -> u32 {
    match dtype {
        wgmma::WgmmaDtype::F16 => HALF_MIN_POSITIVE_BITS,
        wgmma::WgmmaDtype::Bf16 => 0x0080_0000,
    }
}

/// See [`floor`].
pub fn seam_dtype_min_positive_normal(dtype: wgmma::WgmmaDtype) -> (r: u32)
    ensures
        r == floor(dtype),
{
    match dtype {
        wgmma::WgmmaDtype::F16 => HALF_MIN_POSITIVE_BITS,
        wgmma::WgmmaDtype::Bf16 => bf16_min_positive_bits(),
    }
}

/// The bits of an element without its sign.
pub open spec fn magnitude(x: u32) -> u32 {
    if x >= 0x8000_0000 {
        (x - 0x8000_0000) as u32
    } else {
        x
    }
}

/// See [`magnitude`].
fn magnitude_of(x: u32) -> (r: u32)
    ensures
        r == magnitude(x),
{
    if x >= 0x8000_0000 {
        x - 0x8000_0000
    } else {
        x
    }
}

/// Whether an element is past the ceiling `c`. What is no number is not: no comparison holds of it.
pub open spec fn overflows(x: u32, c: u32) -> bool {
    c < magnitude(x) <= INFINITY_BITS
}

/// The first element past the ceiling.
pub open spec fn first_overflow(row: Seq<u32>, c: u32) -> Option<u32>
    decreases row.len(),
{
    if row.len() == 0 {
        None
    } else {
        match first_overflow(row.drop_last(), c) {
            Some(x) => Some(x),
            None => if overflows(row.last(), c) {
                Some(row.last())
            } else {
                None
            },
        }
    }
}

/// The largest magnitude of the numbers of a row, 0 for none.
pub open spec fn peak(row: Seq<u32>) -> u32
    decreases row.len(),
{
    if row.len() == 0 {
        0
    } else {
        let p = peak(row.drop_last());
        let x = magnitude(row.last());
        if p < x <= INFINITY_BITS {
            x
        } else {
            p
        }
    }
}

/// One of the two operands of a product.
#[derive(Clone, Copy, Debug, PartialEq, Eq, Structural)]
pub enum Operand {
    A,
    B,
}

/// Why the input type cannot hold an operand.
#[derive(Clone, Copy, Debug, PartialEq, Eq, Structural)]
pub enum RangeDecline {
    /// The element with these bits would become an infinity.
    Overflow { which: Operand, dtype: wgmma::WgmmaDtype, element: u32 },
    /// No element of this row reaches the smallest normal number; the peak's bits.
    Underflow { which: Operand, dtype: wgmma::WgmmaDtype, row: usize, peak: u32 },
}

/// What one row declines for: an element past the ceiling, or else a peak below the floor. A row
/// without a peak converts exactly.
pub open spec fn row_decline(
    which: Operand,
    dtype: wgmma::WgmmaDtype,
    row: Seq<u32>,
    r: usize,
) -> Option<RangeDecline> {
    match first_overflow(row, ceiling(dtype)) {
        Some(element) => Some(RangeDecline::Overflow { which, dtype, element }),
        None => if 0 < peak(row) < floor(dtype) {
            Some(RangeDecline::Underflow { which, dtype, row: r, peak: peak(row) })
        } else {
            None
        },
    }
}

/// The length of a row of an operand with `len` elements: `k`, or all of it where `k` is 0.
pub open spec fn row_len(len: nat, k: nat) -> nat {
    if k > 0 {
        k
    } else if len > 0 {
        len
    } else {
        1
    }
}

/// Row `r` of an operand; the last one may be short.
pub open spec fn row_of(xs: Seq<u32>, w: nat, r: nat) -> Seq<u32> {
    xs.subrange(
        (r * w) as int,
        if (r + 1) * w <= xs.len() {
            ((r + 1) * w) as int
        } else {
            xs.len() as int
        },
    )
}

/// The first decline of the rows from `r` on.
pub open spec fn rows_decline(
    which: Operand,
    dtype: wgmma::WgmmaDtype,
    xs: Seq<u32>,
    w: nat,
    r: nat,
) -> Option<RangeDecline>
    decreases
            if r * w >= xs.len() {
                0
            } else {
                xs.len() - r * w
            },
    when w > 0
{
    if r * w >= xs.len() {
        None
    } else {
        proof {
            assert((r + 1) * w == r * w + w) by (nonlinear_arith);
        }
        match row_decline(which, dtype, row_of(xs, w, r), r as usize) {
            Some(d) => Some(d),
            None => rows_decline(which, dtype, xs, w, r + 1),
        }
    }
}

/// The decline of one operand of rows of `k` elements.
pub open spec fn operand_decline(
    which: Operand,
    dtype: wgmma::WgmmaDtype,
    xs: Seq<u32>,
    k: nat,
) -> Option<RangeDecline> {
    rows_decline(which, dtype, xs, row_len(xs.len(), k), 0)
}

/// One operand, one pass: the ceiling holds of each element, the floor of each row's peak.
pub fn operand_range_declines(
    dtype: wgmma::WgmmaDtype,
    which: Operand,
    xs: &[u32],
    k: usize,
) -> (r: Option<RangeDecline>)
    ensures
        r == operand_decline(which, dtype, xs@, k as nat),
{
    let c: u32 = seam_dtype_max_finite(dtype);
    let f: u32 = seam_dtype_min_positive_normal(dtype);
    let w: usize = if k > 0 {
        k
    } else if xs.len() > 0 {
        xs.len()
    } else {
        1
    };
    let mut start: usize = 0;
    let mut row: usize = 0;
    while start < xs.len()
        invariant
            c == ceiling(dtype),
            f == floor(dtype),
            w == row_len(xs@.len(), k as nat),
            w > 0,
            start <= xs.len(),
            row <= start,
            start == row * w || (start == xs.len() && row * w >= xs.len()),
            operand_decline(which, dtype, xs@, k as nat) == rows_decline(
                which,
                dtype,
                xs@,
                w as nat,
                row as nat,
            ),
        decreases xs.len() - start,
    {
        let end: usize = if w <= xs.len() - start {
            start + w
        } else {
            xs.len()
        };
        let ghost span = xs@.subrange(start as int, end as int);
        assert(span == row_of(xs@, w as nat, row as nat)) by {
            assert((row + 1) * w == row * w + w) by (nonlinear_arith);
        }
        let mut p: u32 = 0;
        let mut i: usize = start;
        assert(xs@.subrange(start as int, start as int) == Seq::<u32>::empty());
        while i < end
            invariant
                c == ceiling(dtype),
                start <= i <= end <= xs.len(),
                span == xs@.subrange(start as int, end as int),
                span == row_of(xs@, w as nat, row as nat),
                start < xs.len(),
                start == row * w,
                w > 0,
                operand_decline(which, dtype, xs@, k as nat) == rows_decline(
                    which,
                    dtype,
                    xs@,
                    w as nat,
                    row as nat,
                ),
                first_overflow(xs@.subrange(start as int, i as int), c) is None,
                p == peak(xs@.subrange(start as int, i as int)),
            decreases end - i,
        {
            let ghost now = xs@.subrange(start as int, i + 1);
            proof {
                assert(now.drop_last() == xs@.subrange(start as int, i as int));
                assert(now.last() == xs@[i as int]);
            }
            let x: u32 = magnitude_of(xs[i]);
            if x > c && x <= INFINITY_BITS {
                proof {
                    lemma_first_overflow(span, c, i + 1 - start);
                    assert(span.take(i + 1 - start) == now);
                }
                return Some(RangeDecline::Overflow { which, dtype, element: xs[i] });
            }
            if x > p && x <= INFINITY_BITS {
                p = x;
            }
            i = i + 1;
        }
        if p > 0 && p < f {
            return Some(RangeDecline::Underflow { which, dtype, row, peak: p });
        }
        proof {
            assert((row + 1) * w == row * w + w) by (nonlinear_arith);
            assert(row + 1 <= row * w + w) by (nonlinear_arith)
                requires
                    w >= 1,
                    row >= 0,
            ;
            if end < start + w {
                assert(row < end) by (nonlinear_arith)
                    requires
                        row * w < end,
                        w >= 1,
                        row >= 0,
                ;
            }
        }
        start = end;
        row = row + 1;
    }
    None
}

/// What is first in a prefix is first in the whole.
proof fn lemma_first_overflow(row: Seq<u32>, c: u32, n: int)
    requires
        0 <= n <= row.len(),
        first_overflow(row.take(n), c) is Some,
    ensures
        first_overflow(row, c) == first_overflow(row.take(n), c),
    decreases row.len(),
{
    if n == row.len() {
        assert(row.take(n) == row);
    } else {
        assert(row.drop_last().take(n) == row.take(n));
        lemma_first_overflow(row.drop_last(), c, n);
    }
}

/// The decline of a product's operands, A before B.
pub open spec fn range_decline(
    dtype: wgmma::WgmmaDtype,
    a: Seq<u32>,
    b: Seq<u32>,
    k: nat,
) -> Option<RangeDecline> {
    match operand_decline(Operand::A, dtype, a, k) {
        Some(d) => Some(d),
        None => operand_decline(Operand::B, dtype, b, k),
    }
}

/// An operand that the input type cannot hold: `a` and `b` are the bits of the elements, in rows of
/// `k`. A row of either feeds whole lanes of the product, so a row below the floor would come back
/// as zeros, and an element past the ceiling as an infinity.
pub fn wgmma_declines_operand_range(
    dtype: wgmma::WgmmaDtype,
    a: &[u32],
    b: &[u32],
    k: usize,
) -> (r: Option<RangeDecline>)
    ensures
        r == range_decline(dtype, a@, b@, k as nat),
{
    let first = operand_range_declines(dtype, Operand::A, a, k);
    if first.is_some() {
        return first;
    }
    operand_range_declines(dtype, Operand::B, b, k)
}

pub const OVERFLOW: &'static str =
    "operand #0 holds #2, which #1 cannot carry as a finite value (the seam converts both operands to #1 on the host, so this element would enter the GEMM as an infinity while the f32 launcher carries it unchanged)";

pub const UNDERFLOW: &'static str =
    "operand #0 row #4's largest magnitude is #2, under #1's smallest normal #3 (the seam converts both operands to #1 on the host, so EVERY element of this row enters the GEMM as a subnormal or as zero — and since C[i][j] = sum_k A[i][k]*B[j][k], that row of A feeds one whole row of C and that row of B one whole column, which come back as flushed lanes while the f32 launcher carries them unchanged)";

/// The name of an operand.
pub open spec fn operand_name(which: Operand) -> Seq<char> {
    match which {
        Operand::A => "A"@,
        Operand::B => "B"@,
    }
}

/// See [`operand_name`].
fn operand_name_of(which: Operand) -> (r: &'static str)
    ensures
        r@ == operand_name(which),
{
    match which {
        Operand::A => "A",
        Operand::B => "B",
    }
}

/// The name of an input type.
pub open spec fn dtype_name(dtype: wgmma::WgmmaDtype) -> Seq<char> {
    match dtype {
        wgmma::WgmmaDtype::F16 => "F16"@,
        wgmma::WgmmaDtype::Bf16 => "Bf16"@,
    }
}

/// See [`dtype_name`].
fn dtype_name_of(dtype: wgmma::WgmmaDtype) -> (r: &'static str)
    ensures
        r@ == dtype_name(dtype),
{
    match dtype {
        wgmma::WgmmaDtype::F16 => "F16",
        wgmma::WgmmaDtype::Bf16 => "Bf16",
    }
}

impl RangeDecline {
    /// The message of a decline: see [`RangeDecline::message`].
    pub open spec fn text(self, shown: Seq<char>, smallest: Seq<char>) -> Seq<char> {
        match self {
            RangeDecline::Overflow { which, dtype, element } => text::fill(
                OVERFLOW@,
                seq![operand_name(which), dtype_name(dtype), shown],
            ),
            RangeDecline::Underflow { which, dtype, row, peak } => text::fill(
                UNDERFLOW@,
                seq![
                    operand_name(which),
                    dtype_name(dtype),
                    shown,
                    smallest,
                    text::dec(row as nat),
                ],
            ),
        }
    }

    /// The message of a decline. `shown` is the element or peak as a number in text, `smallest` the
    /// type's smallest normal number.
    pub fn message(&self, shown: &str, smallest: &str) -> (r: String)
        ensures
            r@ == self.text(shown@, smallest@),
    {
        match *self {
            RangeDecline::Overflow { which, dtype, element: _ } => text::expand3(
                OVERFLOW,
                operand_name_of(which),
                dtype_name_of(dtype),
                shown,
            ),
            RangeDecline::Underflow { which, dtype, row, peak: _ } => text::expand5(
                UNDERFLOW,
                operand_name_of(which),
                dtype_name_of(dtype),
                shown,
                smallest,
                &text::decimal(row),
            ),
        }
    }
}

/// An element past the ceiling is found wherever there is one.
proof fn lemma_overflow_is_found(row: Seq<u32>, c: u32)
    ensures
        first_overflow(row, c) is Some <==> exists|i: int|
            0 <= i < row.len() && overflows(#[trigger] row[i], c),
        first_overflow(row, c) matches Some(x) ==> overflows(x, c),
    decreases row.len(),
{
    if row.len() > 0 {
        lemma_overflow_is_found(row.drop_last(), c);
        if first_overflow(row.drop_last(), c) is Some {
            let i = choose|i: int|
                0 <= i < row.len() - 1 && overflows(#[trigger] row.drop_last()[i], c);
            assert(overflows(row[i], c));
        }
        if exists|i: int| 0 <= i < row.len() && overflows(#[trigger] row[i], c) {
            let i = choose|i: int| 0 <= i < row.len() && overflows(#[trigger] row[i], c);
            if i < row.len() - 1 {
                assert(overflows(row.drop_last()[i], c));
            }
        }
    }
}

/// The peak of a row is at least every number of it, and one of them where it is not 0.
proof fn lemma_peak(row: Seq<u32>)
    ensures
        forall|i: int|
            0 <= i < row.len() && magnitude(#[trigger] row[i]) <= INFINITY_BITS ==> magnitude(
                row[i],
            ) <= peak(row),
        peak(row) > 0 ==> exists|i: int|
            0 <= i < row.len() && magnitude(#[trigger] row[i]) == peak(row),
    decreases row.len(),
{
    if row.len() > 0 {
        let front = row.drop_last();
        lemma_peak(front);
        assert forall|i: int|
            0 <= i < row.len() && magnitude(#[trigger] row[i]) <= INFINITY_BITS implies magnitude(
            row[i],
        ) <= peak(row) by {
            if i < row.len() - 1 {
                assert(front[i] == row[i]);
            }
        }
        if peak(row) > 0 {
            if peak(row) == peak(front) {
                let i = choose|i: int|
                    0 <= i < front.len() && magnitude(#[trigger] front[i]) == peak(front);
                assert(magnitude(row[i]) == peak(row));
            } else {
                assert(magnitude(row[row.len() - 1]) == peak(row));
            }
        }
    }
}

/// Whether the input type can carry a row: no number of it is past the ceiling, and one reaches the
/// floor unless all are 0.
pub open spec fn carried(dtype: wgmma::WgmmaDtype, row: Seq<u32>) -> bool {
    &&& forall|i: int| 0 <= i < row.len() ==> !overflows(#[trigger] row[i], ceiling(dtype))
    &&& (exists|i: int|
        0 <= i < row.len() && floor(dtype) <= magnitude(#[trigger] row[i]) <= INFINITY_BITS) || (
    forall|i: int|
        0 <= i < row.len() ==> magnitude(#[trigger] row[i]) == 0 || magnitude(row[i])
            > INFINITY_BITS)
}

/// A row declines exactly where the input type cannot carry it: the ceiling is a rule on each
/// number, the floor one on the largest.
pub proof fn law_a_row_declines_where_it_is_not_carried(
    which: Operand,
    dtype: wgmma::WgmmaDtype,
    row: Seq<u32>,
    r: usize,
)
    ensures
        row_decline(which, dtype, row, r) is None <==> carried(dtype, row),
{
    lemma_overflow_is_found(row, ceiling(dtype));
    lemma_peak(row);
    if first_overflow(row, ceiling(dtype)) is None {
        if carried(dtype, row) && exists|i: int|
            0 <= i < row.len() && floor(dtype) <= magnitude(#[trigger] row[i]) <= INFINITY_BITS {
            let i = choose|i: int|
                0 <= i < row.len() && floor(dtype) <= magnitude(#[trigger] row[i])
                    <= INFINITY_BITS;
            assert(magnitude(row[i]) <= peak(row));
        }
        if peak(row) >= floor(dtype) {
            let i = choose|i: int| 0 <= i < row.len() && magnitude(#[trigger] row[i]) == peak(row);
            lemma_peak_is_a_number(row);
            assert(floor(dtype) <= magnitude(row[i]) <= INFINITY_BITS);
        }
        if peak(row) > 0 {
            let i = choose|i: int| 0 <= i < row.len() && magnitude(#[trigger] row[i]) == peak(row);
            lemma_peak_is_a_number(row);
            assert(magnitude(row[i]) == peak(row));
        }
    }
}

/// A peak is a number.
proof fn lemma_peak_is_a_number(row: Seq<u32>)
    ensures
        peak(row) <= INFINITY_BITS,
    decreases row.len(),
{
    if row.len() > 0 {
        lemma_peak_is_a_number(row.drop_last());
    }
}

/// An operand declines exactly where one of its rows does.
pub proof fn law_an_operand_declines_where_a_row_does(
    which: Operand,
    dtype: wgmma::WgmmaDtype,
    xs: Seq<u32>,
    w: nat,
    r: nat,
)
    requires
        w > 0,
    ensures
        rows_decline(which, dtype, xs, w, r) is None <==> forall|q: nat|
            r <= q && q * w < xs.len() ==> carried(dtype, #[trigger] row_of(xs, w, q)),
    decreases
            if r * w >= xs.len() {
                0
            } else {
                xs.len() - r * w
            },
{
    if r * w < xs.len() {
        assert((r + 1) * w == r * w + w) by (nonlinear_arith);
        law_a_row_declines_where_it_is_not_carried(which, dtype, row_of(xs, w, r), r as usize);
        law_an_operand_declines_where_a_row_does(which, dtype, xs, w, r + 1);
        assert(r <= r && r * w < xs.len());
    } else {
        assert forall|q: nat| r <= q && q * w < xs.len() implies carried(
            dtype,
            #[trigger] row_of(xs, w, q),
        ) by {
            assert(q * w >= r * w) by (nonlinear_arith)
                requires
                    q >= r,
                    w > 0,
            ;
        }
    }
}

/// A decline tells the truth: an element that it names stands in the operand that it names, in a row
/// whose earlier rows are all carried, is past the ceiling of the type, and is the first of its row
/// that is; a row that it names has no element past the ceiling, and its largest magnitude, which
/// it names too, is above 0 and below the floor.
pub proof fn law_a_decline_names_its_cause(
    which: Operand,
    dtype: wgmma::WgmmaDtype,
    xs: Seq<u32>,
    w: nat,
    r: nat,
)
    requires
        w > 0,
        xs.len() <= usize::MAX,
    ensures
        rows_decline(which, dtype, xs, w, r) matches Some(d) ==> exists|q: nat|
            r <= q && q * w < xs.len() && #[trigger] names(d, which, dtype, row_of(xs, w, q), q)
                && forall|p: nat|
                r <= p < q ==> carried(dtype, #[trigger] row_of(xs, w, p)),
    decreases
            if r * w >= xs.len() {
                0
            } else {
                xs.len() - r * w
            },
{
    if r * w < xs.len() {
        assert((r + 1) * w == r * w + w) by (nonlinear_arith);
        assert(r <= r * w) by (nonlinear_arith)
            requires
                w >= 1,
        ;
        let row = row_of(xs, w, r);
        law_a_row_declines_where_it_is_not_carried(which, dtype, row, r as usize);
        if row_decline(which, dtype, row, r as usize) is Some {
            lemma_first(row, ceiling(dtype));
            lemma_overflow_is_found(row, ceiling(dtype));
            lemma_peak(row);
            lemma_peak_is_a_number(row);
            assert(names(
                row_decline(which, dtype, row, r as usize)->0,
                which,
                dtype,
                row_of(xs, w, r),
                r,
            ));
        } else {
            law_a_decline_names_its_cause(which, dtype, xs, w, r + 1);
            if let Some(d) = rows_decline(which, dtype, xs, w, r) {
                let q = choose|q: nat|
                    r + 1 <= q && q * w < xs.len() && #[trigger] names(
                        d,
                        which,
                        dtype,
                        row_of(xs, w, q),
                        q,
                    ) && forall|p: nat|
                        r + 1 <= p < q ==> carried(dtype, #[trigger] row_of(xs, w, p));
                assert(names(d, which, dtype, row_of(xs, w, q), q));
            }
        }
    }
}

/// Whether a decline names what is wrong with row `q` of an operand.
pub open spec fn names(
    d: RangeDecline,
    which: Operand,
    dtype: wgmma::WgmmaDtype,
    row: Seq<u32>,
    q: nat,
) -> bool {
    match d {
        RangeDecline::Overflow { which: o, dtype: t, element } => {
            &&& o == which
            &&& t == dtype
            &&& exists|i: int|
                0 <= i < row.len() && #[trigger] row[i] == element && overflows(
                    element,
                    ceiling(dtype),
                ) && forall|h: int| 0 <= h < i ==> !overflows(#[trigger] row[h], ceiling(dtype))
        },
        RangeDecline::Underflow { which: o, dtype: t, row: at, peak: top } => {
            &&& o == which
            &&& t == dtype
            &&& at == q
            &&& 0 < top < floor(dtype)
            &&& forall|i: int|
                0 <= i < row.len() ==> magnitude(#[trigger] row[i]) <= top || magnitude(row[i])
                    > INFINITY_BITS
            &&& exists|i: int| 0 <= i < row.len() && magnitude(#[trigger] row[i]) == top
        },
    }
}

/// The first element past a ceiling is the first.
proof fn lemma_first(row: Seq<u32>, c: u32)
    ensures
        first_overflow(row, c) matches Some(x) ==> exists|i: int|
            0 <= i < row.len() && #[trigger] row[i] == x && overflows(x, c) && forall|h: int|
                0 <= h < i ==> !overflows(#[trigger] row[h], c),
    decreases row.len(),
{
    if row.len() > 0 {
        let before = row.drop_last();
        lemma_first(before, c);
        lemma_overflow_is_found(before, c);
        if let Some(x) = first_overflow(before, c) {
            let i = choose|i: int|
                0 <= i < before.len() && #[trigger] before[i] == x && overflows(x, c)
                    && forall|h: int| 0 <= h < i ==> !overflows(#[trigger] before[h], c);
            assert(row[i] == x);
            assert forall|h: int| 0 <= h < i implies !overflows(#[trigger] row[h], c) by {
                assert(before[h] == row[h]);
            }
        } else if first_overflow(row, c) is Some {
            let i = row.len() - 1;
            assert(row[i] == row.last());
            assert forall|h: int| 0 <= h < i implies !overflows(#[trigger] row[h], c) by {
                assert(before[h] == row[h]);
            }
        }
    }
}

/// The operands of a product are looked at in order: a decline is of B only where A is carried.
pub proof fn law_a_comes_before_b(dtype: wgmma::WgmmaDtype, a: Seq<u32>, b: Seq<u32>, k: nat)
    ensures
        operand_decline(Operand::A, dtype, a, k) is Some ==> range_decline(dtype, a, b, k)
            == operand_decline(Operand::A, dtype, a, k),
        range_decline(dtype, a, b, k) is None <==> operand_decline(Operand::A, dtype, a, k) is None
            && operand_decline(Operand::B, dtype, b, k) is None,
        k > 0 ==> row_len(a.len(), k) == k,
        k == 0 && a.len() > 0 ==> row_of(a, row_len(a.len(), k), 0) == a,
{
    if k == 0 && a.len() > 0 {
        assert(0 * a.len() == 0 && (0 + 1) * a.len() == a.len()) by (nonlinear_arith);
        assert(row_of(a, a.len(), 0) =~= a);
    }
}

} // verus!
