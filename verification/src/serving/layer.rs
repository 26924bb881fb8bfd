//! The launches of a decode step: those of one layer, and the buffers that link the layers.
use vstd::prelude::*;

use crate::ptx_wmma::modules;
use crate::serving::model;

verus! {

/// How a cache stores keys and values.
#[derive(Clone, Copy, Debug, PartialEq, Eq, Structural)]
pub enum KvDtype {
    F16,
    Int8,
}

/// A kernel: the key of its module and the name of its entry.
#[derive(Clone, Copy, Debug)]
pub struct Kernel {
    pub module: &'static str,
    pub entry: &'static str,
}

/// A buffer of a layer's step.
#[derive(Clone, Copy, Debug, PartialEq, Eq, Structural)]
pub enum Buf {
    /// The layer's input.
    X,
    /// The normalised input, and its 16-bit copy.
    Norm1,
    Norm1Half,
    /// The projections of the new token.
    Q,
    K,
    V,
    /// What attention gives, and its 16-bit copy.
    Attn,
    AttnHalf,
    /// The input with attention added.
    X1,
    /// That, normalised, and its 16-bit copy.
    Norm2,
    Norm2Half,
    /// The inner activation, and its 16-bit copy.
    Up,
    UpHalf,
    /// The layer's output.
    Out,
}

/// A weight of a layer.
#[derive(Clone, Copy, Debug, PartialEq, Eq, Structural)]
pub enum Weight {
    Wq,
    Wk,
    Wv,
    Wo,
    W1,
    W2,
}

/// A product with a weight: plain, with SiLU applied, or with a residual added.
#[derive(Clone, Copy, Debug, PartialEq, Eq, Structural)]
pub enum Product {
    Plain,
    Silu,
    Residual(Buf),
}

/// A launch.
#[derive(Clone, Copy, Debug, PartialEq, Eq, Structural)]
pub enum Launch {
    /// RMS norm of `rows` rows of `cols`.
    Norm { src: Buf, dst: Buf, rows: usize, cols: usize },
    /// A copy of `n` numbers in 16 bits.
    Cast { src: Buf, dst: Buf, n: usize },
    /// `dst = src · weightᵀ`, an `m x k` by an `n x k` operand.
    Gemm { product: Product, src: Buf, weight: Weight, dst: Buf, m: usize, k: usize, n: usize },
    /// The new keys and values go to their places in a layer of the cache.
    Append { keys: Buf, values: Buf, layer: usize },
    /// Attention of each row over its sequence.
    Attend { q: Buf, dst: Buf, layer: usize },
}

/// How many numbers there are in each weight of a layer.
#[derive(Clone, Copy, Debug)]
pub struct TransformerWeights {
    pub wq: usize,
    pub wk: usize,
    pub wv: usize,
    pub wo: usize,
    pub w1: usize,
    pub w2: usize,
}

/// One decode layer: the geometry of its cache, the width of its inner activation, and the storage
/// that its kernels read.
#[derive(Clone, Copy, Debug)]
pub struct DecodeLayer {
    pub cfg: model::KvConfig,
    pub dff: usize,
    pub dtype: KvDtype,
}

/// The launches of a layer's step: see [`DecodeLayer::forward_step_on`].
pub open spec fn launches(bcap: usize, d: usize, dff: usize, layer: usize) -> Seq<Launch> {
    let bd = (bcap * d) as usize;
    let bf = (bcap * dff) as usize;
    seq![
        Launch::Norm { src: Buf::X, dst: Buf::Norm1, rows: bcap, cols: d },
        Launch::Cast { src: Buf::Norm1, dst: Buf::Norm1Half, n: bd },
        Launch::Gemm {
            product: Product::Plain,
            src: Buf::Norm1Half,
            weight: Weight::Wq,
            dst: Buf::Q,
            m: bcap,
            k: d,
            n: d,
        },
        Launch::Gemm {
            product: Product::Plain,
            src: Buf::Norm1Half,
            weight: Weight::Wk,
            dst: Buf::K,
            m: bcap,
            k: d,
            n: d,
        },
        Launch::Gemm {
            product: Product::Plain,
            src: Buf::Norm1Half,
            weight: Weight::Wv,
            dst: Buf::V,
            m: bcap,
            k: d,
            n: d,
        },
        Launch::Append { keys: Buf::K, values: Buf::V, layer },
        Launch::Attend { q: Buf::Q, dst: Buf::Attn, layer },
        Launch::Cast { src: Buf::Attn, dst: Buf::AttnHalf, n: bd },
        Launch::Gemm {
            product: Product::Residual(Buf::X),
            src: Buf::AttnHalf,
            weight: Weight::Wo,
            dst: Buf::X1,
            m: bcap,
            k: d,
            n: d,
        },
        Launch::Norm { src: Buf::X1, dst: Buf::Norm2, rows: bcap, cols: d },
        Launch::Cast { src: Buf::Norm2, dst: Buf::Norm2Half, n: bd },
        Launch::Gemm {
            product: Product::Silu,
            src: Buf::Norm2Half,
            weight: Weight::W1,
            dst: Buf::Up,
            m: bcap,
            k: d,
            n: dff,
        },
        Launch::Cast { src: Buf::Up, dst: Buf::UpHalf, n: bf },
        Launch::Gemm {
            product: Product::Residual(Buf::X1),
            src: Buf::UpHalf,
            weight: Weight::W2,
            dst: Buf::Out,
            m: bcap,
            k: dff,
            n: d,
        },
    ]
}

/// The buffer that a launch writes, if it writes one.
pub open spec fn writes(l: Launch) -> Option<Buf> {
    match l {
        Launch::Norm { dst, .. } => Some(dst),
        Launch::Cast { dst, .. } => Some(dst),
        Launch::Gemm { dst, .. } => Some(dst),
        Launch::Append { .. } => None,
        Launch::Attend { dst, .. } => Some(dst),
    }
}

/// Whether a launch reads a buffer.
pub open spec fn reads(l: Launch, b: Buf) -> bool {
    match l {
        Launch::Norm { src, .. } => src == b,
        Launch::Cast { src, .. } => src == b,
        Launch::Gemm { product, src, .. } => src == b || product == Product::Residual(b),
        Launch::Append { keys, values, .. } => keys == b || values == b,
        Launch::Attend { q, .. } => q == b,
    }
}

/// Every buffer that a launch reads is the layer's input or was written by an earlier launch, and
/// no buffer is written twice: a step never depends on what its buffers held before.
pub proof fn law_launches_read_what_was_written(
    bcap: usize,
    d: usize,
    dff: usize,
    layer: usize,
    i: int,
    b: Buf,
)
    requires
        0 <= i < launches(bcap, d, dff, layer).len(),
    ensures
        reads(launches(bcap, d, dff, layer)[i], b) ==> b == Buf::X || exists|j: int|
            0 <= j < i && writes(#[trigger] launches(bcap, d, dff, layer)[j]) == Some(b),
        writes(launches(bcap, d, dff, layer)[i]) == Some(b) ==> b != Buf::X && forall|j: int|
            0 <= j < i ==> writes(#[trigger] launches(bcap, d, dff, layer)[j]) != Some(b),
{
    let s = launches(bcap, d, dff, layer);
    if reads(s[i], b) && b != Buf::X {
        let j = match b {
            Buf::X => 0,
            Buf::Norm1 => 0,
            Buf::Norm1Half => 1,
            Buf::Q => 2,
            Buf::K => 3,
            Buf::V => 4,
            Buf::Attn => 6,
            Buf::AttnHalf => 7,
            Buf::X1 => 8,
            Buf::Norm2 => 9,
            Buf::Norm2Half => 10,
            Buf::Up => 11,
            Buf::UpHalf => 12,
            Buf::Out => 13int,
        };
        assert(writes(s[j]) == Some(b));
    }
}

/// The grid and the block of a launch, and the shared memory that it asks for.
#[derive(Clone, Copy, Debug, PartialEq, Eq)]
pub struct SmLaunch {
    pub grid: (u32, u32, u32),
    pub block: (u32, u32, u32),
    pub shared_mem_bytes: u32,
}

/// The launch of the kernels that stage 64 x 64 tiles: one block for each tile of an `m x n` result.
pub fn wmma_sm_cfg(m: usize, n: usize) -> (r: SmLaunch)
    requires
        m / 64 <= u32::MAX,
        n / 64 <= u32::MAX,
    ensures
        r == (SmLaunch {
            grid: ((n / 64) as u32, (m / 64) as u32, 1),
            block: (128, 1, 1),
            shared_mem_bytes: 0,
        }),
{
    SmLaunch {
        grid: ((n / modules::SM_BN) as u32, (m / modules::SM_BM) as u32, 1),
        block: (modules::SM_THREADS as u32, 1, 1),
        shared_mem_bytes: 0,
    }
}

/// The launch of a norm: a warp for each row.
pub fn norm_cfg(rows: usize) -> (r: SmLaunch)
    requires
        rows <= u32::MAX,
    ensures
        r == (SmLaunch {
            grid: (rows as u32, 1, 1),
            block: (32, 1, 1),
            shared_mem_bytes: 0,
        }),
{
    SmLaunch { grid: (rows as u32, 1, 1), block: (32, 1, 1), shared_mem_bytes: 0 }
}

/// `cudarc::driver::LaunchConfig::for_num_elems`: blocks of 1024 threads, as few as have a thread
/// for each of `n` numbers, and no shared memory.
#[verifier::external_body]
fn for_num_elems(n: u32) -> (r: SmLaunch)
    ensures
        r == (SmLaunch {
            grid: (((n + 1023) / 1024) as u32, 1, 1),
            block: (1024, 1, 1),
            shared_mem_bytes: 0,
        }),
{
    let cfg = cudarc::driver::LaunchConfig::for_num_elems(n);
    SmLaunch {
        grid: cfg.grid_dim,
        block: cfg.block_dim,
        shared_mem_bytes: cfg.shared_mem_bytes,
    }
}

/// The launch of a copy of `n` numbers: a thread for each.
pub fn cast_cfg(n: usize) -> (r: SmLaunch)
    requires
        n <= u32::MAX,
    ensures
        r == (SmLaunch {
            grid: (((n + 1023) / 1024) as u32, 1, 1),
            block: (1024, 1, 1),
            shared_mem_bytes: 0,
        }),
{
    for_num_elems(n as u32)
}

impl DecodeLayer {
    /// Whether kernels exist for this shape: whole 64 x 64 tiles, and a head of 64 or 128.
    pub open spec fn wf(self) -> bool {
        &&& self.cfg.wf()
        &&& self.cfg.hidden() % 64 == 0
        &&& self.dff % 64 == 0
        &&& self.cfg.num_slots % 64 == 0
        &&& self.cfg.head_dim == 64 || self.cfg.head_dim == 128
        &&& self.cfg.num_slots * self.cfg.hidden() <= usize::MAX
        &&& self.cfg.num_slots * self.dff <= usize::MAX
        &&& self.dff * self.cfg.hidden() <= usize::MAX
        &&& self.cfg.hidden() * self.cfg.hidden() <= usize::MAX
    }

    /// Whether a layer can have such a shape: see [`DecodeLayer::wf`].
    pub fn supported(cfg: model::KvConfig, dff: usize) -> (r: bool)
        ensures
            r == (DecodeLayer { cfg, dff, dtype: KvDtype::F16 }).wf(),
    {
        let d = match cfg.heads.checked_mul(cfg.head_dim) {
            Some(d) => d,
            None => return false,
        };
        let tokens = match cfg.max_blocks_per_seq.checked_mul(cfg.block_size) {
            Some(t) => t,
            None => return false,
        };
        cfg.block_size > 0 && cfg.num_blocks <= u32::MAX as usize && tokens <= u32::MAX as usize
            && d % 64 == 0 && dff % 64 == 0 && cfg.num_slots % 64 == 0 && (cfg.head_dim == 64
            || cfg.head_dim == 128) && cfg.num_slots.checked_mul(d).is_some()
            && cfg.num_slots.checked_mul(dff).is_some() && dff.checked_mul(d).is_some()
            && d.checked_mul(d).is_some()
    }

    /// Whether the weights have the numbers that the shape asks for.
    pub open spec fn takes(self, w: TransformerWeights) -> bool {
        &&& w.wq == self.weight_elems(Weight::Wq)
        &&& w.wk == self.weight_elems(Weight::Wk)
        &&& w.wv == self.weight_elems(Weight::Wv)
        &&& w.wo == self.weight_elems(Weight::Wo)
        &&& w.w1 == self.weight_elems(Weight::W1)
        &&& w.w2 == self.weight_elems(Weight::W2)
    }

    /// See [`DecodeLayer::takes`].
    pub fn fits(&self, w: &TransformerWeights) -> (r: bool)
        requires
            self.wf(),
        ensures
            r == self.takes(*w),
    {
        let d = self.d();
        let square = d * d;
        let inner = self.dff * d;
        w.wq == square && w.wk == square && w.wv == square && w.wo == square && w.w1 == inner
            && w.w2 == inner
    }

    /// The layer of a shape over a cache of 16-bit numbers.
    pub fn new(w: &TransformerWeights, cfg: model::KvConfig, dff: usize) -> (r: DecodeLayer)
        requires
            (DecodeLayer { cfg, dff, dtype: KvDtype::F16 }).wf(),
            (DecodeLayer { cfg, dff, dtype: KvDtype::F16 }).takes(*w),
        ensures
            r == (DecodeLayer { cfg, dff, dtype: KvDtype::F16 }),
    {
        DecodeLayer::new_with_dtype(w, cfg, dff, KvDtype::F16)
    }

    /// The layer of a shape.
    pub fn new_with_dtype(
        w: &TransformerWeights,
        cfg: model::KvConfig,
        dff: usize,
        dtype: KvDtype,
    ) -> (r: DecodeLayer)
        requires
            (DecodeLayer { cfg, dff, dtype }).wf(),
            (DecodeLayer { cfg, dff, dtype }).takes(*w),
        ensures
            r == (DecodeLayer { cfg, dff, dtype }),
    {
        DecodeLayer { cfg, dff, dtype }
    }

    /// The hidden size.
    pub fn d(&self) -> (r: usize)
        requires
            self.wf(),
        ensures
            r == self.cfg.hidden(),
    {
        self.cfg.heads * self.cfg.head_dim
    }

    /// The slots of a batch.
    pub fn bcap(&self) -> (r: usize)
        ensures
            r == self.cfg.num_slots,
    {
        self.cfg.num_slots
    }

    /// The numbers in a weight.
    pub open spec fn weight_elems(self, w: Weight) -> nat {
        match w {
            Weight::Wq | Weight::Wk | Weight::Wv | Weight::Wo => self.cfg.hidden()
                * self.cfg.hidden(),
            Weight::W1 | Weight::W2 => self.dff as nat * self.cfg.hidden(),
        }
    }

    /// The module of the attention kernel: one for each storage and head, so that none is taken for
    /// another.
    pub fn attention_module(&self) -> (r: &'static str)
        requires
            self.wf(),
        ensures
            r@ == (match (self.dtype, self.cfg.head_dim == 64) {
                (KvDtype::F16, true) => "paged_attn_d64"@,
                (KvDtype::F16, false) => "paged_attn_d128"@,
                (KvDtype::Int8, true) => "paged_attn_int8_d64"@,
                (KvDtype::Int8, false) => "paged_attn_int8_d128"@,
            }),
    {
        match self.dtype {
            KvDtype::F16 => if self.cfg.head_dim == 64 {
                "paged_attn_d64"
            } else {
                "paged_attn_d128"
            },
            KvDtype::Int8 => if self.cfg.head_dim == 64 {
                "paged_attn_int8_d64"
            } else {
                "paged_attn_int8_d128"
            },
        }
    }

    /// The module of the append kernel.
    pub fn append_module(&self) -> (r: &'static str)
        ensures
            r@ == (match self.dtype {
                KvDtype::F16 => "kv_append"@,
                KvDtype::Int8 => "kv_append_int8"@,
            }),
    {
        match self.dtype {
            KvDtype::F16 => "kv_append",
            KvDtype::Int8 => "kv_append_int8",
        }
    }

    /// The kernel of the norms.
    pub fn norm_kernel() -> (r: Kernel)
        ensures
            r.module@ == "norm"@,
            r.entry@ == "rmsnorm"@,
    {
        Kernel { module: "norm", entry: "rmsnorm" }
    }

    /// The kernel of the copies in 16 bits.
    pub fn cast_kernel() -> (r: Kernel)
        ensures
            r.module@ == "cast"@,
            r.entry@ == "cast_f32_f16"@,
    {
        Kernel { module: "cast", entry: "cast_f32_f16" }
    }

    /// The kernel of a product.
    pub fn product_kernel(product: Product) -> (r: Kernel)
        ensures
            r.module@ == "wmma_f16"@,
            r.entry@ == (match product {
                Product::Plain => "wmma_nt_f16_sm_db"@,
                Product::Silu => "wmma_nt_f16_sm_db_silu"@,
                Product::Residual(_) => "wmma_nt_f16_sm_db_residual"@,
            }),
    {
        let entry = match product {
            Product::Plain => "wmma_nt_f16_sm_db",
            Product::Silu => "wmma_nt_f16_sm_db_silu",
            Product::Residual(_) => "wmma_nt_f16_sm_db_residual",
        };
        Kernel { module: "wmma_f16", entry }
    }

    /// The launches of one step, in order: norm, projections, the new keys and values into the
    /// cache, attention, its projection onto the input, norm, and the inner layer onto that. The
    /// cache is stored as the layer's kernels read it.
    pub fn forward_step_on(&self, kv: KvDtype, layer: usize) -> (r: Vec<Launch>)
        requires
            self.wf(),
            kv == self.dtype,
        ensures
            r@ == launches(self.cfg.num_slots, self.cfg.hidden() as usize, self.dff, layer),
    {
        let d = self.d();
        let bcap = self.bcap();
        let dff = self.dff;
        let bd: usize = bcap * d;
        let bf: usize = bcap * dff;
        let mut r: Vec<Launch> = Vec::new();
        r.push(Launch::Norm { src: Buf::X, dst: Buf::Norm1, rows: bcap, cols: d });
        r.push(Launch::Cast { src: Buf::Norm1, dst: Buf::Norm1Half, n: bd });
        r.push(gemm(Product::Plain, Buf::Norm1Half, Weight::Wq, Buf::Q, bcap, d, d));
        r.push(gemm(Product::Plain, Buf::Norm1Half, Weight::Wk, Buf::K, bcap, d, d));
        r.push(gemm(Product::Plain, Buf::Norm1Half, Weight::Wv, Buf::V, bcap, d, d));
        r.push(Launch::Append { keys: Buf::K, values: Buf::V, layer });
        r.push(Launch::Attend { q: Buf::Q, dst: Buf::Attn, layer });
        r.push(Launch::Cast { src: Buf::Attn, dst: Buf::AttnHalf, n: bd });
        r.push(gemm(Product::Residual(Buf::X), Buf::AttnHalf, Weight::Wo, Buf::X1, bcap, d, d));
        r.push(Launch::Norm { src: Buf::X1, dst: Buf::Norm2, rows: bcap, cols: d });
        r.push(Launch::Cast { src: Buf::Norm2, dst: Buf::Norm2Half, n: bd });
        r.push(gemm(Product::Silu, Buf::Norm2Half, Weight::W1, Buf::Up, bcap, d, dff));
        r.push(Launch::Cast { src: Buf::Up, dst: Buf::UpHalf, n: bf });
        r.push(gemm(Product::Residual(Buf::X1), Buf::UpHalf, Weight::W2, Buf::Out, bcap, dff, d));
        r
    }
}

/// See [`Launch::Gemm`].
fn gemm(
    product: Product,
    src: Buf,
    weight: Weight,
    dst: Buf,
    m: usize,
    k: usize,
    n: usize,
) -> (r: Launch)
    ensures
        r == (Launch::Gemm { product, src, weight, dst, m, k, n }),
{
    Launch::Gemm { product, src, weight, dst, m, k, n }
}

/// Where a layer of a model reads or writes: the model's input, one of two buffers between layers,
/// or the model's output.
#[derive(Clone, Copy, Debug, PartialEq, Eq, Structural)]
pub enum Activation {
    Input,
    Ping,
    Pong,
    Output,
}

/// What layer `i` reads.
pub open spec fn source(i: nat) -> Activation {
    if i == 0 {
        Activation::Input
    } else if i % 2 == 1 {
        Activation::Ping
    } else {
        Activation::Pong
    }
}

/// What layer `i` of `n` writes.
pub open spec fn target(i: nat, n: nat) -> Activation {
    if i + 1 == n {
        Activation::Output
    } else if i % 2 == 0 {
        Activation::Ping
    } else {
        Activation::Pong
    }
}

/// The layers form a chain from the model's input to its output: each reads what the one before it
/// wrote, and none writes what it reads.
pub proof fn law_layers_form_a_chain(n: nat, i: nat)
    requires
        i < n,
    ensures
        source(0) == Activation::Input,
        target((n - 1) as nat, n) == Activation::Output,
        i + 1 < n ==> target(i, n) == source(i + 1),
        i + 1 < n ==> target(i, n) != Activation::Output,
        source(i) != target(i, n),
{
}

} // verus!
