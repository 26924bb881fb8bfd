//! The host half of TMA: the arguments from which the driver builds a tensor map, and the rules they
//! have to keep.
//!
//! Dimension 0 of a tensor map is the contiguous one: a row-major `rows x cols` matrix has the
//! dimensions `[cols, rows]`.
use vstd::prelude::*;
use vstd::string::*;

use crate::text;

verus! {

/// Bytes in a tensor map.
pub const TENSOR_MAP_BYTES: usize = 128;

/// Alignment of a tensor map, in bytes.
pub const TENSOR_MAP_ALIGN: usize = 64;

/// The largest rank of a tensor.
pub const TMA_MAX_RANK: usize = 5;

/// Largest extent, in elements, of one box (tile) dimension.
pub const TMA_MAX_BOX_DIM: u32 = 256;

/// Largest element stride.
pub const TMA_MAX_ELEMENT_STRIDE: u32 = 8;

/// The element type of a tensor.
#[derive(Clone, Copy, Debug, PartialEq, Eq, Structural)]
pub enum TmaDataType {
    U8,
    U16,
    U32,
    F16,
    F32,
    Bf16,
}

/// The swizzle that a copy applies as it writes a tile to shared memory.
#[derive(Clone, Copy, Debug, PartialEq, Eq, Structural)]
pub enum TmaSwizzle {
    Off,
    B32,
    B64,
    B128,
}

/// The interleaved layouts of image formats; only `Off` is supported.
#[derive(Clone, Copy, Debug, PartialEq, Eq, Structural)]
pub enum TmaInterleave {
    Off,
    B16,
    B32,
}

/// How wide a footprint a copy asks the L2 cache to fetch.
#[derive(Clone, Copy, Debug, PartialEq, Eq, Structural)]
pub enum TmaL2Promotion {
    Off,
    B64,
    B128,
    B256,
}

/// What a copy writes for an element that the box covers but the tensor does not.
#[derive(Clone, Copy, Debug, PartialEq, Eq, Structural)]
pub enum TmaOobFill {
    Zero,
    NanRequestZeroFma,
}

impl TmaDataType {
    /// See [`TmaDataType::size`].
    pub open spec fn bytes(self) -> nat {
        match self {
            TmaDataType::U8 => 1,
            TmaDataType::U16 | TmaDataType::F16 | TmaDataType::Bf16 => 2,
            TmaDataType::U32 | TmaDataType::F32 => 4,
        }
    }

    /// Bytes per element.
    pub fn size(self) -> (r: usize)
        ensures
            r == self.bytes(),
    {
        match self {
            TmaDataType::U8 => 1,
            TmaDataType::U16 | TmaDataType::F16 | TmaDataType::Bf16 => 2,
            TmaDataType::U32 | TmaDataType::F32 => 4,
        }
    }

    /// The driver's number of the type.
    pub open spec fn code(self) -> u32 {
        match self {
            TmaDataType::U8 => 0,
            TmaDataType::U16 => 1,
            TmaDataType::U32 => 2,
            TmaDataType::F16 => 6,
            TmaDataType::F32 => 7,
            TmaDataType::Bf16 => 9,
        }
    }

    /// The driver's number of the type.
    pub fn driver_code(self) -> (r: u32)
        ensures
            r == self.code(),
    {
        match self {
            TmaDataType::U8 => 0,
            TmaDataType::U16 => 1,
            TmaDataType::U32 => 2,
            TmaDataType::F16 => 6,
            TmaDataType::F32 => 7,
            TmaDataType::Bf16 => 9,
        }
    }
}

impl TmaSwizzle {
    /// See [`TmaSwizzle::atom_bytes`].
    pub open spec fn atom(self) -> nat {
        match self {
            TmaSwizzle::Off => 0,
            TmaSwizzle::B32 => 32,
            TmaSwizzle::B64 => 64,
            TmaSwizzle::B128 => 128,
        }
    }

    /// The width of the swizzle in bytes, which bounds the contiguous extent of the box where there
    /// is a swizzle.
    pub fn atom_bytes(self) -> (r: usize)
        ensures
            r == self.atom(),
    {
        match self {
            TmaSwizzle::Off => 0,
            TmaSwizzle::B32 => 32,
            TmaSwizzle::B64 => 64,
            TmaSwizzle::B128 => 128,
        }
    }

    /// The driver's number of the swizzle.
    pub open spec fn code(self) -> u32 {
        match self {
            TmaSwizzle::Off => 0,
            TmaSwizzle::B32 => 1,
            TmaSwizzle::B64 => 2,
            TmaSwizzle::B128 => 3,
        }
    }

    /// The driver's number of the swizzle.
    pub fn driver_code(self) -> (r: u32)
        ensures
            r == self.code(),
    {
        match self {
            TmaSwizzle::Off => 0,
            TmaSwizzle::B32 => 1,
            TmaSwizzle::B64 => 2,
            TmaSwizzle::B128 => 3,
        }
    }

    /// The name of the swizzle.
    pub open spec fn name(self) -> Seq<char> {
        match self {
            TmaSwizzle::Off => "Off"@,
            TmaSwizzle::B32 => "B32"@,
            TmaSwizzle::B64 => "B64"@,
            TmaSwizzle::B128 => "B128"@,
        }
    }

    /// See [`TmaSwizzle::name`].
    fn name_of(self) -> (r: &'static str)
        ensures
            r@ == self.name(),
    {
        match self {
            TmaSwizzle::Off => "Off",
            TmaSwizzle::B32 => "B32",
            TmaSwizzle::B64 => "B64",
            TmaSwizzle::B128 => "B128",
        }
    }
}

impl TmaInterleave {
    /// The driver's number of the layout.
    pub open spec fn code(self) -> u32 {
        match self {
            TmaInterleave::Off => 0,
            TmaInterleave::B16 => 1,
            TmaInterleave::B32 => 2,
        }
    }

    /// The driver's number of the layout.
    pub fn driver_code(self) -> (r: u32)
        ensures
            r == self.code(),
    {
        match self {
            TmaInterleave::Off => 0,
            TmaInterleave::B16 => 1,
            TmaInterleave::B32 => 2,
        }
    }

    /// The name of the layout.
    pub open spec fn name(self) -> Seq<char> {
        match self {
            TmaInterleave::Off => "Off"@,
            TmaInterleave::B16 => "B16"@,
            TmaInterleave::B32 => "B32"@,
        }
    }

    /// See [`TmaInterleave::name`].
    fn name_of(self) -> (r: &'static str)
        ensures
            r@ == self.name(),
    {
        match self {
            TmaInterleave::Off => "Off",
            TmaInterleave::B16 => "B16",
            TmaInterleave::B32 => "B32",
        }
    }
}

impl TmaL2Promotion {
    /// The driver's number of the promotion.
    pub open spec fn code(self) -> u32 {
        match self {
            TmaL2Promotion::Off => 0,
            TmaL2Promotion::B64 => 1,
            TmaL2Promotion::B128 => 2,
            TmaL2Promotion::B256 => 3,
        }
    }

    /// The driver's number of the promotion.
    pub fn driver_code(self) -> (r: u32)
        ensures
            r == self.code(),
    {
        match self {
            TmaL2Promotion::Off => 0,
            TmaL2Promotion::B64 => 1,
            TmaL2Promotion::B128 => 2,
            TmaL2Promotion::B256 => 3,
        }
    }
}

impl TmaOobFill {
    /// The driver's number of the fill.
    pub open spec fn code(self) -> u32 {
        match self {
            TmaOobFill::Zero => 0,
            TmaOobFill::NanRequestZeroFma => 1,
        }
    }

    /// The driver's number of the fill.
    pub fn driver_code(self) -> (r: u32)
        ensures
            r == self.code(),
    {
        match self {
            TmaOobFill::Zero => 0,
            TmaOobFill::NanRequestZeroFma => 1,
        }
    }
}

/// The geometry of a tensor map. Entries at or past `rank` are zero.
#[derive(Clone, Copy, Debug, PartialEq, Eq)]
pub struct TensorMapArgs {
    pub data_type: TmaDataType,
    /// Number of dimensions.
    pub rank: u32,
    /// Extent of each dimension in elements, dimension 0 being the contiguous one.
    pub global_dim: [u64; 5],
    /// `global_strides[i]` is the distance in bytes between neighbours along dimension `i + 1`.
    pub global_strides: [u64; 4],
    /// Extent of the copied tile in each dimension, in elements.
    pub box_dim: [u32; 5],
    /// Element stride per dimension; 1 is dense.
    pub element_strides: [u32; 5],
    pub interleave: TmaInterleave,
    pub swizzle: TmaSwizzle,
    pub l2_promotion: TmaL2Promotion,
    pub oob_fill: TmaOobFill,
}

pub const RANK_ERROR: &'static str = "tma: rank #0 outside 1..=5";

pub const INTERLEAVE_ERROR: &'static str =
    "tma: interleave #0 is not supported by this backend (only INTERLEAVE_NONE)";

pub const DIM_ZERO_ERROR: &'static str = "tma: global_dim[#0] is zero";

pub const DIM_LARGE_ERROR: &'static str =
    "tma: global_dim[#0] = #1 exceeds the 2^32 element limit";

pub const BOX_ERROR: &'static str = "tma: box_dim[#0] = #1 outside 1..=256";

pub const ELEMENT_STRIDE_ERROR: &'static str = "tma: element_strides[#0] = #1 outside 1..=8";

pub const STALE_ERROR: &'static str = "tma: dimension #0 is past rank #1 but is not zeroed";

pub const STRIDE_MULTIPLE_ERROR: &'static str =
    "tma: global_strides[#0] = #1 B is not a multiple of 16";

pub const STRIDE_ZERO_ERROR: &'static str = "tma: global_strides[#0] is zero";

pub const STRIDE_LARGE_ERROR: &'static str = "tma: global_strides[#0] = #1 B exceeds 2^40";

pub const STRIDE_SHORT_ERROR: &'static str =
    "tma: global_strides[#0] = #1 B is shorter than dimension #0 (#2 B)";

pub const STRIDE_STALE_ERROR: &'static str =
    "tma: global_strides[#0] is past rank #1 but is not zeroed";

pub const INNER_MULTIPLE_ERROR: &'static str =
    "tma: box_dim[0] * elem = #0 B is not a multiple of 16";

pub const INNER_LARGE_ERROR: &'static str =
    "tma: box_dim[0] * elem = #0 B exceeds the #1 swizzle atom (#2 B) -- a tile wider than its swizzle atom cannot be described";

pub const NULL_ERROR: &'static str = "tma: global address is null";

pub const UNALIGNED_ERROR: &'static str = "tma: global address 0x#0 is not 16-byte aligned";

/// The first error of two.
pub open spec fn first(a: Option<Seq<char>>, b: Option<Seq<char>>) -> Option<Seq<char>> {
    match a {
        Some(e) => Some(e),
        None => b,
    }
}

/// Whether `r` is the message `e`.
pub open spec fn told(r: Option<String>, e: Option<Seq<char>>) -> bool {
    match e {
        Some(m) => r matches Some(s) && s@ == m,
        None => r is None,
    }
}

/// What a validation gives for the error `e`, if there is one.
pub open spec fn outcome(r: Result<(), String>, e: Option<Seq<char>>) -> bool {
    match e {
        Some(m) => r matches Err(s) && s@ == m,
        None => r is Ok,
    }
}

impl TensorMapArgs {
    /// The rule on dimension `d` below the rank.
    pub open spec fn dim_error(self, d: nat) -> Option<Seq<char>> {
        if self.global_dim[d as int] == 0 {
            Some(text::fill(DIM_ZERO_ERROR@, seq![text::dec(d)]))
        } else if self.global_dim[d as int] > u32::MAX {
            Some(
                text::fill(
                    DIM_LARGE_ERROR@,
                    seq![text::dec(d), text::dec(self.global_dim[d as int] as nat)],
                ),
            )
        } else if self.box_dim[d as int] == 0 || self.box_dim[d as int] > TMA_MAX_BOX_DIM {
            Some(
                text::fill(
                    BOX_ERROR@,
                    seq![text::dec(d), text::dec(self.box_dim[d as int] as nat)],
                ),
            )
        } else if self.element_strides[d as int] == 0 || self.element_strides[d as int]
            > TMA_MAX_ELEMENT_STRIDE {
            Some(
                text::fill(
                    ELEMENT_STRIDE_ERROR@,
                    seq![text::dec(d), text::dec(self.element_strides[d as int] as nat)],
                ),
            )
        } else {
            None
        }
    }

    /// The first error in dimensions below `n`.
    pub open spec fn dims_error(self, n: nat) -> Option<Seq<char>>
        decreases n,
    {
        if n == 0 {
            None
        } else {
            first(self.dims_error((n - 1) as nat), self.dim_error((n - 1) as nat))
        }
    }

    /// The first stale entry in dimensions from the rank up to `n`.
    pub open spec fn stale_error(self, n: nat) -> Option<Seq<char>>
        decreases n,
    {
        if n <= self.rank {
            None
        } else {
            let d = (n - 1) as nat;
            first(
                self.stale_error(d),
                if self.global_dim[d as int] != 0 || self.box_dim[d as int] != 0
                    || self.element_strides[d as int] != 0 {
                    Some(text::fill(STALE_ERROR@, seq![text::dec(d), text::dec(self.rank as nat)]))
                } else {
                    None
                },
            )
        }
    }

    /// The rule on the stride along dimension `d + 1`: it clears a whole row of dimension `d`.
    pub open spec fn stride_error(self, d: nat) -> Option<Seq<char>> {
        let s = self.global_strides[d as int] as nat;
        let row = self.global_dim[d as int] as nat * self.data_type.bytes();
        if s % 16 != 0 {
            Some(text::fill(STRIDE_MULTIPLE_ERROR@, seq![text::dec(d), text::dec(s)]))
        } else if s == 0 {
            Some(text::fill(STRIDE_ZERO_ERROR@, seq![text::dec(d)]))
        } else if s >= 0x100_0000_0000 {
            Some(text::fill(STRIDE_LARGE_ERROR@, seq![text::dec(d), text::dec(s)]))
        } else if s < row {
            Some(
                text::fill(STRIDE_SHORT_ERROR@, seq![text::dec(d), text::dec(s), text::dec(row)]),
            )
        } else {
            None
        }
    }

    /// The first error in the strides below `n`.
    pub open spec fn strides_error(self, n: nat) -> Option<Seq<char>>
        decreases n,
    {
        if n == 0 {
            None
        } else {
            first(self.strides_error((n - 1) as nat), self.stride_error((n - 1) as nat))
        }
    }

    /// The first stale stride from the rank's last up to `n`.
    pub open spec fn stale_stride_error(self, n: nat) -> Option<Seq<char>>
        decreases n,
    {
        if n == 0 || n < self.rank {
            None
        } else {
            let d = (n - 1) as nat;
            first(
                self.stale_stride_error(d),
                if self.global_strides[d as int] != 0 {
                    Some(
                        text::fill(
                            STRIDE_STALE_ERROR@,
                            seq![text::dec(d), text::dec(self.rank as nat)],
                        ),
                    )
                } else {
                    None
                },
            )
        }
    }

    /// Bytes of the box along the contiguous dimension.
    pub open spec fn inner(self) -> nat {
        self.box_dim[0] as nat * self.data_type.bytes()
    }

    /// The rules on the contiguous extent of the box.
    pub open spec fn inner_error(self) -> Option<Seq<char>> {
        if self.inner() % 16 != 0 {
            Some(text::fill(INNER_MULTIPLE_ERROR@, seq![text::dec(self.inner())]))
        } else if self.swizzle != TmaSwizzle::Off && self.inner() > self.swizzle.atom() {
            Some(
                text::fill(
                    INNER_LARGE_ERROR@,
                    seq![
                        text::dec(self.inner()),
                        self.swizzle.name(),
                        text::dec(self.swizzle.atom()),
                    ],
                ),
            )
        } else {
            None
        }
    }

    /// The message of the first rule that the arguments break, if they break one.
    pub open spec fn error(self) -> Option<Seq<char>> {
        if self.rank == 0 || self.rank > TMA_MAX_RANK {
            Some(text::fill(RANK_ERROR@, seq![text::dec(self.rank as nat)]))
        } else if self.interleave != TmaInterleave::Off {
            Some(text::fill(INTERLEAVE_ERROR@, seq![self.interleave.name()]))
        } else {
            first(
                first(
                    first(
                        first(self.dims_error(self.rank as nat), self.stale_error(5)),
                        self.strides_error((self.rank - 1) as nat),
                    ),
                    self.stale_stride_error(4),
                ),
                self.inner_error(),
            )
        }
    }

    /// Whether the driver can encode the arguments.
    pub open spec fn encodable(self) -> bool {
        let elem = self.data_type.bytes();
        &&& 1 <= self.rank <= TMA_MAX_RANK
        &&& self.interleave == TmaInterleave::Off
        &&& forall|d: int|
            0 <= d < self.rank ==> {
                &&& 1 <= #[trigger] self.global_dim[d] <= u32::MAX
                &&& 1 <= self.box_dim[d] <= TMA_MAX_BOX_DIM
                &&& 1 <= self.element_strides[d] <= TMA_MAX_ELEMENT_STRIDE
            }
        &&& forall|d: int|
            self.rank <= d < 5 ==> {
                &&& #[trigger] self.global_dim[d] == 0
                &&& self.box_dim[d] == 0
                &&& self.element_strides[d] == 0
            }
        &&& forall|d: int|
            0 <= d < self.rank - 1 ==> {
                &&& #[trigger] self.global_strides[d] % 16 == 0
                &&& 0 < self.global_strides[d] < 0x100_0000_0000
                &&& self.global_strides[d] >= self.global_dim[d] as nat * elem
            }
        &&& forall|d: int| self.rank - 1 <= d < 4 ==> #[trigger] self.global_strides[d] == 0
        &&& (self.box_dim[0] as nat * elem) % 16 == 0
        &&& self.swizzle != TmaSwizzle::Off ==> self.box_dim[0] as nat * elem
            <= self.swizzle.atom()
    }

    proof fn lemma_dims(self, n: nat)
        requires
            n <= 5,
        ensures
            self.dims_error(n) is None <==> forall|d: int|
                0 <= d < n ==> {
                    &&& 1 <= #[trigger] self.global_dim[d] <= u32::MAX
                    &&& 1 <= self.box_dim[d] <= TMA_MAX_BOX_DIM
                    &&& 1 <= self.element_strides[d] <= TMA_MAX_ELEMENT_STRIDE
                },
        decreases n,
    {
        if n > 0 {
            self.lemma_dims((n - 1) as nat);
            assert(self.dim_error((n - 1) as nat) is None <==> {
                &&& 1 <= self.global_dim[n - 1] <= u32::MAX
                &&& 1 <= self.box_dim[n - 1] <= TMA_MAX_BOX_DIM
                &&& 1 <= self.element_strides[n - 1] <= TMA_MAX_ELEMENT_STRIDE
            });
        }
    }

    proof fn lemma_stale(self, n: nat)
        requires
            n <= 5,
        ensures
            self.stale_error(n) is None <==> forall|d: int|
                self.rank <= d < n ==> {
                    &&& #[trigger] self.global_dim[d] == 0
                    &&& self.box_dim[d] == 0
                    &&& self.element_strides[d] == 0
                },
        decreases n,
    {
        if n > self.rank {
            self.lemma_stale((n - 1) as nat);
            let clean = self.global_dim[n - 1] == 0 && self.box_dim[n - 1] == 0
                && self.element_strides[n - 1] == 0;
            assert(self.stale_error(n) is None <==> self.stale_error((n - 1) as nat) is None
                && clean);
        }
    }

    proof fn lemma_strides(self, n: nat)
        requires
            n <= 4,
        ensures
            self.strides_error(n) is None <==> forall|d: int|
                0 <= d < n ==> {
                    &&& #[trigger] self.global_strides[d] % 16 == 0
                    &&& 0 < self.global_strides[d] < 0x100_0000_0000
                    &&& self.global_strides[d] >= self.global_dim[d] as nat
                        * self.data_type.bytes()
                },
        decreases n,
    {
        if n > 0 {
            self.lemma_strides((n - 1) as nat);
            assert(self.stride_error((n - 1) as nat) is None <==> {
                &&& self.global_strides[n - 1] % 16 == 0
                &&& 0 < self.global_strides[n - 1] < 0x100_0000_0000
                &&& self.global_strides[n - 1] >= self.global_dim[n - 1] as nat
                    * self.data_type.bytes()
            });
        }
    }

    proof fn lemma_stale_strides(self, n: nat)
        requires
            n <= 4,
            self.rank >= 1,
        ensures
            self.stale_stride_error(n) is None <==> forall|d: int|
                self.rank - 1 <= d < n ==> #[trigger] self.global_strides[d] == 0,
        decreases n,
    {
        if n >= self.rank {
            self.lemma_stale_strides((n - 1) as nat);
            let clean = self.global_strides[n - 1] == 0;
            assert(self.stale_stride_error(n) is None <==> self.stale_stride_error(
                (n - 1) as nat,
            ) is None && clean);
        }
    }

    /// There is no message exactly when the driver can encode the arguments.
    pub proof fn lemma_error(self)
        ensures
            self.error() is None <==> self.encodable(),
    {
        if 1 <= self.rank <= TMA_MAX_RANK {
            self.lemma_dims(self.rank as nat);
            self.lemma_stale(5);
            self.lemma_strides((self.rank - 1) as nat);
            self.lemma_stale_strides(4);
        }
    }

    /// The map of a row-major matrix: see [`TensorMapArgs::tiled_2d_row_major`].
    pub open spec fn tiled_2d(
        data_type: TmaDataType,
        rows: u64,
        cols: u64,
        row_stride_elems: u64,
        box_rows: u32,
        box_cols: u32,
        swizzle: TmaSwizzle,
    ) -> Self {
        TensorMapArgs {
            data_type,
            rank: 2,
            global_dim: [cols, rows, 0, 0, 0],
            global_strides: [(row_stride_elems * data_type.bytes()) as u64, 0, 0, 0],
            box_dim: [box_cols, box_rows, 0, 0, 0],
            element_strides: [1, 1, 0, 0, 0],
            interleave: TmaInterleave::Off,
            swizzle,
            l2_promotion: TmaL2Promotion::B128,
            oob_fill: TmaOobFill::Zero,
        }
    }

    /// A tiled row-major matrix of `rows x cols` elements with `row_stride_elems` elements from row
    /// to row, copied in tiles of `box_rows x box_cols`. The columns are dimension 0.
    pub fn tiled_2d_row_major(
        data_type: TmaDataType,
        rows: u64,
        cols: u64,
        row_stride_elems: u64,
        box_rows: u32,
        box_cols: u32,
        swizzle: TmaSwizzle,
    ) -> (r: Self)
        requires
            row_stride_elems * data_type.bytes() <= u64::MAX,
        ensures
            r == Self::tiled_2d(
                data_type,
                rows,
                cols,
                row_stride_elems,
                box_rows,
                box_cols,
                swizzle,
            ),
    {
        TensorMapArgs {
            data_type,
            rank: 2,
            global_dim: [cols, rows, 0, 0, 0],
            global_strides: [row_stride_elems * data_type.size() as u64, 0, 0, 0],
            box_dim: [box_cols, box_rows, 0, 0, 0],
            element_strides: [1, 1, 0, 0, 0],
            interleave: TmaInterleave::Off,
            swizzle,
            l2_promotion: TmaL2Promotion::B128,
            oob_fill: TmaOobFill::Zero,
        }
    }

    /// Bytes of the box in its first `n` dimensions.
    pub open spec fn box_bytes(self, n: nat) -> nat
        decreases n,
    {
        if n == 0 {
            self.data_type.bytes()
        } else {
            self.box_bytes((n - 1) as nat) * self.box_dim[n - 1] as nat
        }
    }

    /// Bytes that one copy of the box moves, the number that a barrier has to expect.
    pub fn transaction_bytes(&self) -> (r: usize)
        requires
            self.rank <= TMA_MAX_RANK,
            forall|n: nat| n <= self.rank ==> #[trigger] self.box_bytes(n) <= usize::MAX,
        ensures
            r == self.box_bytes(self.rank as nat),
    {
        let mut n: usize = self.data_type.size();
        for d in 0..self.rank as usize
            invariant
                self.rank <= TMA_MAX_RANK,
                forall|n: nat| n <= self.rank ==> #[trigger] self.box_bytes(n) <= usize::MAX,
                n == self.box_bytes(d as nat),
        {
            assert(self.box_bytes((d + 1) as nat) == n * self.box_dim[d as int]);
            n = n * self.box_dim[d] as usize;
        }
        n
    }

    /// See [`TensorMapArgs::dim_error`].
    fn check_dim(&self, d: usize) -> (r: Option<String>)
        requires
            d < 5,
        ensures
            told(r, self.dim_error(d as nat)),
    {
        if self.global_dim[d] == 0 {
            Some(text::expand1(DIM_ZERO_ERROR, &text::decimal(d)))
        } else if self.global_dim[d] > u32::MAX as u64 {
            Some(
                text::expand2(
                    DIM_LARGE_ERROR,
                    &text::decimal(d),
                    &text::decimal64(self.global_dim[d]),
                ),
            )
        } else if self.box_dim[d] == 0 || self.box_dim[d] > TMA_MAX_BOX_DIM {
            Some(
                text::expand2(
                    BOX_ERROR,
                    &text::decimal(d),
                    &text::decimal64(self.box_dim[d] as u64),
                ),
            )
        } else if self.element_strides[d] == 0 || self.element_strides[d]
            > TMA_MAX_ELEMENT_STRIDE {
            Some(
                text::expand2(
                    ELEMENT_STRIDE_ERROR,
                    &text::decimal(d),
                    &text::decimal64(self.element_strides[d] as u64),
                ),
            )
        } else {
            None
        }
    }

    /// See [`TensorMapArgs::dims_error`].
    fn check_dims(&self, n: usize) -> (r: Option<String>)
        requires
            n <= 5,
        ensures
            told(r, self.dims_error(n as nat)),
    {
        let mut e: Option<String> = None;
        for d in 0..n
            invariant
                n <= 5,
                told(e, self.dims_error(d as nat)),
        {
            if e.is_none() {
                e = self.check_dim(d);
            }
        }
        e
    }

    /// See [`TensorMapArgs::stale_error`].
    fn check_stale(&self, rank: usize) -> (r: Option<String>)
        requires
            rank == self.rank,
            rank <= 5,
        ensures
            told(r, self.stale_error(5)),
    {
        let mut e: Option<String> = None;
        for d in rank..5
            invariant
                rank == self.rank,
                told(e, self.stale_error(d as nat)),
        {
            if e.is_none() && (self.global_dim[d] != 0 || self.box_dim[d] != 0
                || self.element_strides[d] != 0) {
                e =
                Some(text::expand2(STALE_ERROR, &text::decimal(d), &text::decimal(rank)));
            }
        }
        e
    }

    /// See [`TensorMapArgs::stride_error`].
    fn check_stride(&self, d: usize) -> (r: Option<String>)
        requires
            d < 4,
            self.global_dim[d as int] <= u32::MAX,
        ensures
            told(r, self.stride_error(d as nat)),
    {
        let s: u64 = self.global_strides[d];
        let extent: u64 = self.global_dim[d];
        let elem: u64 = self.data_type.size() as u64;
        assert(extent * elem <= 0x4_0000_0000) by (nonlinear_arith)
            requires
                extent <= u32::MAX,
                elem <= 4,
        ;
        let row: u64 = extent * elem;
        if s % 16 != 0 {
            Some(text::expand2(STRIDE_MULTIPLE_ERROR, &text::decimal(d), &text::decimal64(s)))
        } else if s == 0 {
            Some(text::expand1(STRIDE_ZERO_ERROR, &text::decimal(d)))
        } else if s >= 0x100_0000_0000 {
            Some(text::expand2(STRIDE_LARGE_ERROR, &text::decimal(d), &text::decimal64(s)))
        } else if s < row {
            Some(
                text::expand3(
                    STRIDE_SHORT_ERROR,
                    &text::decimal(d),
                    &text::decimal64(s),
                    &text::decimal64(row),
                ),
            )
        } else {
            None
        }
    }

    /// See [`TensorMapArgs::strides_error`].
    fn check_strides(&self, n: usize) -> (r: Option<String>)
        requires
            n <= 4,
            forall|d: int| 0 <= d < n ==> #[trigger] self.global_dim[d] <= u32::MAX,
        ensures
            told(r, self.strides_error(n as nat)),
    {
        let mut e: Option<String> = None;
        for d in 0..n
            invariant
                n <= 4,
                forall|d: int| 0 <= d < n ==> #[trigger] self.global_dim[d] <= u32::MAX,
                told(e, self.strides_error(d as nat)),
        {
            if e.is_none() {
                e = self.check_stride(d);
            }
        }
        e
    }

    /// See [`TensorMapArgs::stale_stride_error`].
    fn check_stale_strides(&self, rank: usize) -> (r: Option<String>)
        requires
            rank == self.rank,
            1 <= rank <= 5,
        ensures
            told(r, self.stale_stride_error(4)),
    {
        let mut e: Option<String> = None;
        for d in rank - 1..4
            invariant
                rank == self.rank,
                1 <= rank <= 5,
                d >= rank - 1,
                told(e, self.stale_stride_error(d as nat)),
        {
            if e.is_none() && self.global_strides[d] != 0 {
                e =
                Some(text::expand2(STRIDE_STALE_ERROR, &text::decimal(d), &text::decimal(rank)));
            }
        }
        e
    }

    /// See [`TensorMapArgs::inner_error`].
    fn check_inner(&self) -> (r: Option<String>)
        ensures
            told(r, self.inner_error()),
    {
        let extent: u64 = self.box_dim[0] as u64;
        let elem: u64 = self.data_type.size() as u64;
        assert(extent * elem <= 0x4_0000_0000) by (nonlinear_arith)
            requires
                extent <= u32::MAX,
                elem <= 4,
        ;
        let inner: u64 = extent * elem;
        if inner % 16 != 0 {
            Some(text::expand1(INNER_MULTIPLE_ERROR, &text::decimal64(inner)))
        } else if self.swizzle != TmaSwizzle::Off && inner > self.swizzle.atom_bytes() as u64 {
            Some(
                text::expand3(
                    INNER_LARGE_ERROR,
                    &text::decimal64(inner),
                    self.swizzle.name_of(),
                    &text::decimal(self.swizzle.atom_bytes()),
                ),
            )
        } else {
            None
        }
    }

    /// Every rule on the arguments. A broken one is named: the driver itself names none.
    pub fn validate(&self) -> (r: Result<(), String>)
        ensures
            outcome(r, self.error()),
            r is Ok <==> self.encodable(),
    {
        proof {
            self.lemma_error();
        }
        if self.rank == 0 || self.rank as usize > TMA_MAX_RANK {
            return Err(text::expand1(RANK_ERROR, &text::decimal64(self.rank as u64)));
        }
        let rank: usize = self.rank as usize;
        if self.interleave != TmaInterleave::Off {
            return Err(text::expand1(INTERLEAVE_ERROR, self.interleave.name_of()));
        }
        if let Some(e) = self.check_dims(rank) {
            return Err(e);
        }
        proof {
            self.lemma_dims(rank as nat);
        }
        if let Some(e) = self.check_stale(rank) {
            return Err(e);
        }
        if let Some(e) = self.check_strides(rank - 1) {
            return Err(e);
        }
        if let Some(e) = self.check_stale_strides(rank) {
            return Err(e);
        }
        if let Some(e) = self.check_inner() {
            return Err(e);
        }
        Ok(())
    }

    /// The message of the first rule that an encoding at `address` breaks, if it breaks one.
    pub open spec fn encode_error(self, address: u64) -> Option<Seq<char>> {
        first(
            self.error(),
            if address == 0 {
                Some(NULL_ERROR@)
            } else if address % 16 != 0 {
                Some(text::fill(UNALIGNED_ERROR@, seq![text::hex(address as nat)]))
            } else {
                None
            },
        )
    }

    /// The call that encodes the tensor map of the allocation at `global_address`, or what forbids
    /// it. The allocation itself must be as large as the geometry says.
    pub fn encode_call(&self, global_address: u64) -> (r: Result<EncodeCall, String>)
        ensures
            r is Err <==> self.encode_error(global_address) is Some,
            r matches Err(s) ==> self.encode_error(global_address) == Some(s@),
            r matches Ok(c) ==> {
                &&& c.data_type == self.data_type.code()
                &&& c.rank == self.rank
                &&& c.global_address == global_address
                &&& c.global_dim == self.global_dim
                &&& c.global_strides == self.global_strides
                &&& c.box_dim == self.box_dim
                &&& c.element_strides == self.element_strides
                &&& c.interleave == self.interleave.code()
                &&& c.swizzle == self.swizzle.code()
                &&& c.l2_promotion == self.l2_promotion.code()
                &&& c.oob_fill == self.oob_fill.code()
            },
    {
        if let Err(e) = self.validate() {
            return Err(e);
        }
        if global_address == 0 {
            return Err(String::from_str(NULL_ERROR));
        }
        if global_address % 16 != 0 {
            return Err(text::expand1(UNALIGNED_ERROR, &text::hexadecimal(global_address)));
        }
        Ok(
            EncodeCall {
                data_type: self.data_type.driver_code(),
                rank: self.rank,
                global_address,
                global_dim: self.global_dim,
                global_strides: self.global_strides,
                box_dim: self.box_dim,
                element_strides: self.element_strides,
                interleave: self.interleave.driver_code(),
                swizzle: self.swizzle.driver_code(),
                l2_promotion: self.l2_promotion.driver_code(),
                oob_fill: self.oob_fill.driver_code(),
            },
        )
    }
}

/// The arguments of the driver's encoder, in its own numbers.
#[derive(Clone, Copy, Debug)]
pub struct EncodeCall {
    pub data_type: u32,
    pub rank: u32,
    pub global_address: u64,
    pub global_dim: [u64; 5],
    pub global_strides: [u64; 4],
    pub box_dim: [u32; 5],
    pub element_strides: [u32; 5],
    pub interleave: u32,
    pub swizzle: u32,
    pub l2_promotion: u32,
    pub oob_fill: u32,
}

pub const PARAM_DECL: &'static str = ".param .align #0 .b8 #1[#2]";

pub const PARAM_ADDRESS: &'static str = "    mov.b64 #0,#1;
    cvta.param.u64 #0,#0;
";

/// The declaration of the kernel parameter `name` that holds a tensor map.
pub fn ptx_param_decl(name: &str) -> (r: String)
    ensures
        r@ == text::fill(
            PARAM_DECL@,
            seq![text::dec(TENSOR_MAP_ALIGN as nat), name@, text::dec(TENSOR_MAP_BYTES as nat)],
        ),
{
    text::expand3(
        PARAM_DECL,
        &text::decimal(TENSOR_MAP_ALIGN),
        name,
        &text::decimal(TENSOR_MAP_BYTES),
    )
}

/// The instructions that leave the generic address of the parameter `name` in `reg`.
pub fn ptx_param_address(reg: &str, name: &str) -> (r: String)
    ensures
        r@ == text::fill(PARAM_ADDRESS@, seq![reg@, name@]),
{
    text::expand2(PARAM_ADDRESS, reg, name)
}

/// Which tiles of which matrices the driver can encode: extents of 32 bits, a box of at most 256 by
/// 256, rows a multiple of 16 bytes apart that do not overlap, and a contiguous extent of the box
/// that is a multiple of 16 bytes and within an atom of the swizzle.
pub proof fn law_encodable_tiles(
    data_type: TmaDataType,
    rows: u64,
    cols: u64,
    row_stride_elems: u64,
    box_rows: u32,
    box_cols: u32,
    swizzle: TmaSwizzle,
)
    requires
        row_stride_elems * data_type.bytes() <= u64::MAX,
    ensures
        TensorMapArgs::tiled_2d(
            data_type,
            rows,
            cols,
            row_stride_elems,
            box_rows,
            box_cols,
            swizzle,
        ).encodable() <==> {
            let stride = row_stride_elems * data_type.bytes();
            let inner = box_cols as nat * data_type.bytes();
            &&& 1 <= rows <= u32::MAX
            &&& 1 <= cols <= u32::MAX
            &&& 1 <= box_rows <= TMA_MAX_BOX_DIM
            &&& 1 <= box_cols <= TMA_MAX_BOX_DIM
            &&& stride % 16 == 0
            &&& 0 < stride < 0x100_0000_0000
            &&& cols * data_type.bytes() <= stride
            &&& inner % 16 == 0
            &&& swizzle != TmaSwizzle::Off ==> inner <= swizzle.atom()
        },
{
    let t = TensorMapArgs::tiled_2d(
        data_type,
        rows,
        cols,
        row_stride_elems,
        box_rows,
        box_cols,
        swizzle,
    );
    assert(t.global_dim[0] == cols && t.global_dim[1] == rows);
    assert(t.box_dim[0] == box_cols && t.box_dim[1] == box_rows);
    assert(t.element_strides[0] == 1 && t.element_strides[1] == 1);
    assert(t.global_strides[0] == row_stride_elems * data_type.bytes());
}

/// One copy of a tile moves the bytes of its box.
pub proof fn law_a_tile_moves_its_box(
    data_type: TmaDataType,
    rows: u64,
    cols: u64,
    row_stride_elems: u64,
    box_rows: u32,
    box_cols: u32,
    swizzle: TmaSwizzle,
)
    ensures
        TensorMapArgs::tiled_2d(
            data_type,
            rows,
            cols,
            row_stride_elems,
            box_rows,
            box_cols,
            swizzle,
        ).box_bytes(2) == box_rows * box_cols * data_type.bytes(),
{
    reveal_with_fuel(TensorMapArgs::box_bytes, 3);
    let (b, c, r) = (data_type.bytes() as int, box_cols as int, box_rows as int);
    assert(b * c * r == r * c * b) by (nonlinear_arith);
}

/// The bytes of a box of at most 256 elements along each dimension.
proof fn lemma_box_bytes(t: TensorMapArgs, n: nat)
    requires
        t.encodable(),
        1 <= n <= t.rank,
    ensures
        t.box_bytes(n) % 16 == 0,
        16 <= t.box_bytes(n) <= t.data_type.bytes() * vstd::arithmetic::power::pow(256, n),
        vstd::arithmetic::power::pow(256, n) > 0,
    decreases n,
{
    reveal(vstd::arithmetic::power::pow);
    let elem = t.data_type.bytes() as int;
    let side = t.box_dim[n - 1] as int;
    assert(1 <= t.global_dim[n - 1]);
    assert(1 <= side <= 256);
    if n == 1 {
        reveal_with_fuel(TensorMapArgs::box_bytes, 2);
        reveal_with_fuel(vstd::arithmetic::power::pow, 2);
        assert(elem * side == side * elem) by (nonlinear_arith);
        assert(elem * side >= 1) by (nonlinear_arith)
            requires
                elem >= 1,
                side >= 1,
        ;
        assert(elem * side <= elem * 256) by (nonlinear_arith)
            requires
                elem >= 0,
                side <= 256,
        ;
    } else {
        lemma_box_bytes(t, (n - 1) as nat);
        let b = t.box_bytes((n - 1) as nat) as int;
        let p = vstd::arithmetic::power::pow(256, (n - 1) as nat);
        let q = b / 16;
        assert(b * side == 16 * (q * side)) by (nonlinear_arith)
            requires
                b == 16 * q,
        ;
        assert(16 <= b * side) by (nonlinear_arith)
            requires
                16 <= b,
                1 <= side,
        ;
        assert(b * side <= elem * (256 * p)) by (nonlinear_arith)
            requires
                0 <= b <= elem * p,
                0 <= side <= 256,
        ;
    }
}

/// The bytes of one copy of an encodable box: a multiple of 16, at least that, and at most those of
/// 256 elements along each dimension. They can always be counted where a `usize` has 64 bits.
pub proof fn law_a_copy_is_bounded(t: TensorMapArgs)
    requires
        t.encodable(),
    ensures
        t.box_bytes(t.rank as nat) % 16 == 0,
        16 <= t.box_bytes(t.rank as nat) <= t.data_type.bytes() * vstd::arithmetic::power::pow(
            256,
            t.rank as nat,
        ),
        forall|n: nat|
            n <= t.rank ==> #[trigger] t.box_bytes(n) <= 4 * 256 * 256 * 256 * 256 * 256,
{
    lemma_box_bytes(t, t.rank as nat);
    assert forall|n: nat| n <= t.rank implies #[trigger] t.box_bytes(n) <= 4 * 256 * 256 * 256 * 256
        * 256 by {
        let elem = t.data_type.bytes() as int;
        if n > 0 {
            lemma_box_bytes(t, n);
            let p = vstd::arithmetic::power::pow(256, n);
            assert(p <= 0x100_0000_0000) by {
                reveal_with_fuel(vstd::arithmetic::power::pow, 6);
            }
            assert(elem * p <= 4 * 0x100_0000_0000) by (nonlinear_arith)
                requires
                    0 <= elem <= 4,
                    0 <= p <= 0x100_0000_0000,
            ;
        }
    }
}

/// The bytes of a copy depend on the element type and the box alone.
pub proof fn law_a_copy_depends_on_its_box(t: TensorMapArgs, u: TensorMapArgs, n: nat)
    requires
        n <= TMA_MAX_RANK,
        t.data_type == u.data_type,
        forall|d: int| 0 <= d < n ==> #[trigger] t.box_dim[d] == u.box_dim[d],
    ensures
        t.box_bytes(n) == u.box_bytes(n),
    decreases n,
{
    if n > 0 {
        law_a_copy_depends_on_its_box(t, u, (n - 1) as nat);
        assert(t.box_dim[n - 1] == u.box_dim[n - 1]);
    }
}

} // verus!
