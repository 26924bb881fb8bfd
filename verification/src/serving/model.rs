//! The host half of a decode step: every active sequence gets one more token, all or none.
use vstd::prelude::*;

use crate::block_manager;
use crate::paged_kv;
use crate::serving::layer;

verus! {

/// The geometry of a cache.
#[derive(Clone, Copy, Debug)]
pub struct KvConfig {
    pub layers: usize,
    pub heads: usize,
    pub head_dim: usize,
    pub block_size: usize,
    pub num_blocks: usize,
    pub num_slots: usize,
    pub max_blocks_per_seq: usize,
}

impl KvConfig {
    /// The hidden size.
    pub open spec fn hidden(self) -> nat {
        self.heads as nat * self.head_dim as nat
    }

    /// Whether a cache can have this geometry: blocks and tokens have `u32` numbers.
    pub open spec fn wf(self) -> bool {
        &&& self.block_size > 0
        &&& self.num_blocks <= u32::MAX
        &&& self.max_blocks_per_seq * self.block_size <= u32::MAX
        &&& self.hidden() <= usize::MAX
    }
}

/// The blocks that one more token takes in the active ones of the first `k` slots.
pub open spec fn needs(l: paged_kv::Layout, active: Seq<bool>, k: nat) -> int
    decreases k,
{
    if k == 0 {
        0
    } else {
        needs(l, active, (k - 1) as nat) + if active[k - 1] {
            l.need(k - 1, 1)
        } else {
            0
        }
    }
}

/// Whether every active slot can have one more token, all of them together.
pub open spec fn feasible(l: paged_kv::Layout, active: Seq<bool>) -> bool {
    &&& forall|s: int|
        0 <= s < active.len() && #[trigger] active[s] ==> paged_kv::blocks_for(
            l.lens[s] + 1,
            l.size,
        ) <= l.max
    &&& needs(l, active, active.len()) <= l.free.len()
}

/// The layout once the active ones of the first `k` slots have one more token.
pub open spec fn advanced(l: paged_kv::Layout, active: Seq<bool>, k: nat) -> paged_kv::Layout
    decreases k,
{
    if k == 0 {
        l
    } else {
        let before = advanced(l, active, (k - 1) as nat);
        if active[k - 1] {
            before.grown(k - 1, 1)
        } else {
            before
        }
    }
}

/// One more token takes at most one more block.
proof fn lemma_one(l: paged_kv::Layout, s: int)
    requires
        l.wf(),
        l.slot(s),
    ensures
        0 <= l.need(s, 1) <= 1,
{
    paged_kv::lemma_blocks(l.lens[s], 1, l.size);
    let (t, z) = (l.lens[s] as int, l.size as int);
    assert((t + 1 + z - 1) / z <= (t + z - 1) / z + 1) by (nonlinear_arith)
        requires
            t >= 0,
            z > 0,
    ;
    assert(l.tables[s].len() == paged_kv::blocks_for(l.lens[s], l.size));
}

/// A count of blocks does not fall with more slots, nor exceed them.
proof fn lemma_needs(l: paged_kv::Layout, active: Seq<bool>, j: nat, k: nat)
    requires
        l.wf(),
        active.len() == l.tables.len(),
        j <= k <= active.len(),
    ensures
        0 <= needs(l, active, j) <= needs(l, active, k),
        needs(l, active, k) <= k,
    decreases k,
{
    if k > 0 {
        lemma_one(l, k - 1);
        if j == k {
            lemma_needs(l, active, (k - 1) as nat, (k - 1) as nat);
        } else {
            lemma_needs(l, active, j, (k - 1) as nat);
        }
    }
}

/// What an advance of the first `k` slots does: their active sequences have one more token, the
/// others are as they were, and the blocks came from the pool.
pub proof fn lemma_advanced(l: paged_kv::Layout, active: Seq<bool>, k: nat)
    requires
        l.wf(),
        active.len() == l.tables.len(),
        k <= active.len(),
        feasible(l, active),
    ensures
        advanced(l, active, k).wf(),
        advanced(l, active, k).num == l.num,
        advanced(l, active, k).size == l.size,
        advanced(l, active, k).max == l.max,
        advanced(l, active, k).tables.len() == l.tables.len(),
        advanced(l, active, k).free.len() == l.free.len() - needs(l, active, k),
        l.epoch <= advanced(l, active, k).epoch <= l.epoch + k,
        advanced(l, active, k).epoch == l.epoch <==> advanced(l, active, k).tables == l.tables,
        forall|s: int|
            0 <= s < l.lens.len() ==> #[trigger] advanced(l, active, k).lens[s] == l.lens[s] + if s
                < k && active[s] {
                1nat
            } else {
                0nat
            },
        forall|s: int|
            k <= s < l.tables.len() ==> #[trigger] advanced(l, active, k).tables[s] == l.tables[s],
    decreases k,
{
    if k > 0 {
        let j = (k - 1) as nat;
        lemma_advanced(l, active, j);
        lemma_needs(l, active, k, active.len());
        let before = advanced(l, active, j);
        if active[k - 1] {
            assert(before.lens[k - 1] == l.lens[k - 1]);
            assert(before.tables[k - 1] == l.tables[k - 1]);
            before.lemma_grown(k - 1, 1);
            paged_kv::law_epoch_follows_growth(before, k - 1, 1);
            if before.need(k - 1, 1) > 0 {
                let after = before.grown(k - 1, 1);
                assert(after.tables[k - 1].len() != l.tables[k - 1].len());
            }
        }
    }
}

/// What a step uploads to the device.
#[derive(Debug)]
pub struct Advance {
    /// The flat block table, unless the device has it.
    pub table: Option<Vec<u32>>,
    /// The tokens of each slot, with the new one.
    pub lens: Vec<u32>,
    /// The place of each slot's new token.
    pub wpos: Vec<u32>,
    /// 1 for an active slot, 0 for one that the step leaves alone.
    pub mask: Vec<u32>,
}

impl Advance {
    /// Whether this is what the device is to be told of an advance of the active slots, where it
    /// has the table of the epoch `uploaded`.
    pub open spec fn tells(
        self,
        l: paged_kv::Layout,
        active: Seq<bool>,
        uploaded: Option<u64>,
    ) -> bool {
        let n = advanced(l, active, active.len());
        &&& self.table is None <==> uploaded == Some(n.epoch as u64)
        &&& self.table matches Some(t) ==> t@ == paged_kv::flat_rows(n.tables, n.max)
        &&& self.lens@.len() == self.wpos@.len() == self.mask@.len() == active.len()
        &&& forall|s: int| 0 <= s < active.len() ==> #[trigger] self.lens@[s] == n.lens[s]
        &&& forall|s: int| 0 <= s < active.len() ==> #[trigger] self.wpos@[s] == l.lens[s]
        &&& forall|s: int|
            0 <= s < active.len() ==> #[trigger] self.mask@[s] == if active[s] {
                1u32
            } else {
                0u32
            }
    }
}

/// What a layer does in a step.
pub struct LayerRun {
    pub src: layer::Activation,
    pub dst: layer::Activation,
    pub launches: Vec<layer::Launch>,
}

/// A decode model: its layers, the geometry of its cache, the blocks of it, and the epoch of the
/// block table that the device has.
pub struct DecodeModel {
    pub layers: Vec<layer::DecodeLayer>,
    pub dtype: layer::KvDtype,
    pub cfg: KvConfig,
    pub manager: block_manager::BlockManager,
    pub uploaded_epoch: Option<u64>,
    /// The block table that the device has.
    pub device: Ghost<Seq<u32>>,
}

impl DecodeModel {
    /// The blocks are laid out as the geometry says, and where the epoch of the device's table is
    /// the present one the device has the present table.
    pub open spec fn wf(self) -> bool {
        &&& self.cfg.wf()
        &&& self.layers@.len() == self.cfg.layers
        &&& self.layers@.len() > 0
        &&& forall|i: int|
            0 <= i < self.layers@.len() ==> {
                &&& (#[trigger] self.layers@[i]).wf()
                &&& self.layers@[i].cfg == self.cfg
                &&& self.layers@[i].dtype == self.dtype
            }
        &&& self.manager.wf()
        &&& self.manager.num_blocks == self.cfg.num_blocks
        &&& self.manager.block_size == self.cfg.block_size
        &&& self.manager.max_blocks_per_seq == self.cfg.max_blocks_per_seq
        &&& self.manager@.tables.len() == self.cfg.num_slots
        &&& self.uploaded_epoch matches Some(e) ==> e <= self.manager.epoch
        &&& self.uploaded_epoch == Some(self.manager.epoch) ==> self.device@
            == paged_kv::flat_rows(self.manager@.tables, self.manager@.max)
    }

    /// Whether a model can be made of such weights, one set for each layer.
    pub open spec fn buildable(
        weights: Seq<layer::TransformerWeights>,
        cfg: KvConfig,
        dff: usize,
        dtype: layer::KvDtype,
    ) -> bool {
        &&& weights.len() > 0
        &&& weights.len() == cfg.layers
        &&& (layer::DecodeLayer { cfg, dff, dtype }).wf()
        &&& forall|i: int|
            0 <= i < weights.len() ==> (layer::DecodeLayer { cfg, dff, dtype }).takes(
                #[trigger] weights[i],
            )
    }

    /// A model over an unused cache of 16-bit numbers: see [`DecodeModel::new_with_dtype`].
    pub fn new(weights: &[layer::TransformerWeights], cfg: KvConfig, dff: usize) -> (r: DecodeModel)
        requires
            DecodeModel::buildable(weights@, cfg, dff, layer::KvDtype::F16),
        ensures
            r.wf(),
            r.cfg == cfg,
            r.dtype == layer::KvDtype::F16,
            r.layers@ == Seq::new(
                weights@.len(),
                |i: int| layer::DecodeLayer { cfg, dff, dtype: layer::KvDtype::F16 },
            ),
            r.manager@ == block_manager::unused(
                cfg.num_blocks as nat,
                cfg.block_size as nat,
                cfg.num_slots as nat,
                cfg.max_blocks_per_seq as nat,
            ),
            r.uploaded_epoch is None,
    {
        DecodeModel::new_with_dtype(weights, cfg, dff, layer::KvDtype::F16)
    }

    /// A model with an unused cache, of which the device knows nothing.
    pub fn new_with_dtype(
        weights: &[layer::TransformerWeights],
        cfg: KvConfig,
        dff: usize,
        dtype: layer::KvDtype,
    ) -> (r: DecodeModel)
        requires
            DecodeModel::buildable(weights@, cfg, dff, dtype),
        ensures
            r.wf(),
            r.cfg == cfg,
            r.dtype == dtype,
            r.layers@ == Seq::new(
                weights@.len(),
                |i: int| layer::DecodeLayer { cfg, dff, dtype },
            ),
            r.manager@ == block_manager::unused(
                cfg.num_blocks as nat,
                cfg.block_size as nat,
                cfg.num_slots as nat,
                cfg.max_blocks_per_seq as nat,
            ),
            r.uploaded_epoch is None,
    {
        let mut layers: Vec<layer::DecodeLayer> = Vec::new();
        for i in 0..weights.len()
            invariant
                DecodeModel::buildable(weights@, cfg, dff, dtype),
                layers@ == Seq::new(i as nat, |j: int| layer::DecodeLayer { cfg, dff, dtype }),
        {
            layers.push(layer::DecodeLayer::new_with_dtype(&weights[i], cfg, dff, dtype));
        }
        DecodeModel {
            layers,
            dtype,
            cfg,
            manager: block_manager::BlockManager::new(
                cfg.num_blocks,
                cfg.block_size,
                cfg.num_slots,
                cfg.max_blocks_per_seq,
            ),
            uploaded_epoch: None,
            device: Ghost(Seq::empty()),
        }
    }

    /// The hidden size.
    pub fn d(&self) -> (r: usize)
        requires
            self.wf(),
        ensures
            r == self.cfg.hidden(),
    {
        self.cfg.heads * self.cfg.head_dim
    }

    /// The slots of a batch.
    pub fn bcap(&self) -> (r: usize)
        ensures
            r == self.cfg.num_slots,
    {
        self.cfg.num_slots
    }

    /// The number of layers.
    pub fn depth(&self) -> (r: usize)
        ensures
            r == self.layers@.len(),
    {
        self.layers.len()
    }

    /// The blocks of the cache.
    pub fn cache(&self) -> (r: &block_manager::BlockManager)
        ensures
            *r == self.manager,
    {
        &self.manager
    }

    /// Gives a slot's sequence `n` more tokens, or leaves everything as it is.
    pub fn reserve(&mut self, slot: usize, n: usize) -> (r: Result<(), paged_kv::OutOfBlocks>)
        requires
            old(self).wf(),
            old(self).manager@.slot(slot as int),
            old(self).manager.epoch < u64::MAX,
        ensures
            final(self).wf(),
            final(self).cfg == old(self).cfg,
            final(self).layers == old(self).layers,
            final(self).dtype == old(self).dtype,
            final(self).uploaded_epoch == old(self).uploaded_epoch,
            final(self).device == old(self).device,
            r is Ok <==> old(self).manager@.growable(slot as int, n as nat),
            final(self).manager@ == (if r is Ok {
                old(self).manager@.grown(slot as int, n as nat)
            } else {
                old(self).manager@
            }),
    {
        let ghost l = self.manager@;
        let r = self.manager.reserve(slot, n);
        proof {
            if r is Ok {
                paged_kv::law_epoch_follows_growth(l, slot as int, n as nat);
            }
        }
        r
    }

    /// Takes a slot's blocks back.
    pub fn free(&mut self, slot: usize)
        requires
            old(self).wf(),
            old(self).manager@.slot(slot as int),
            old(self).manager.epoch < u64::MAX,
        ensures
            final(self).wf(),
            final(self).cfg == old(self).cfg,
            final(self).layers == old(self).layers,
            final(self).dtype == old(self).dtype,
            final(self).uploaded_epoch == old(self).uploaded_epoch,
            final(self).device == old(self).device,
            final(self).manager@ == old(self).manager@.freed(slot as int),
    {
        proof {
            paged_kv::law_epoch_follows_freeing(self.manager@, slot as int);
        }
        self.manager.free(slot);
    }

    /// Whether the active slots can all have one more token.
    fn can_advance(&self, active: &[bool]) -> (r: bool)
        requires
            self.wf(),
            active@.len() == self.cfg.num_slots,
        ensures
            r == feasible(self.manager@, active@),
    {
        let ghost l = self.manager@;
        let mut total: usize = 0;
        for s in 0..active.len()
            invariant
                self.wf(),
                l == self.manager@,
                active@.len() == self.cfg.num_slots,
                total == needs(l, active@, s as nat),
                total <= s,
                forall|t: int|
                    0 <= t < s && #[trigger] active@[t] ==> paged_kv::blocks_for(
                        l.lens[t] + 1,
                        l.size,
                    ) <= l.max,
        {
            if active[s] {
                proof {
                    lemma_one(l, s as int);
                    paged_kv::lemma_blocks(l.lens[s as int], 1, l.size);
                    assert(l.tables[s as int].len() <= l.max);
                    block_manager::lemma_tokens(l.lens[s as int], l.size, l.max);
                    assert(l.tables[s as int] == self.manager.tables@[s as int]@);
                }
                let len: u128 = self.manager.lens[s] as u128;
                let size: u128 = self.manager.block_size as u128;
                let blocks: u128 = (len + 1 + size - 1) / size;
                if blocks > self.manager.max_blocks_per_seq as u128 {
                    assert(active@[s as int]);
                    return false;
                }
                let has: u128 = self.manager.tables[s].len() as u128;
                total = total + (blocks - has) as usize;
            }
        }
        total <= self.manager.free_list.len()
    }

    /// Gives every active slot one more token, or, where they cannot all have it, changes nothing.
    /// The result is what the device is to be told; see [`DecodeModel::table_uploaded`].
    pub fn advance_and_upload_masked(&mut self, active: &[bool]) -> (r: Result<
        Advance,
        paged_kv::OutOfBlocks,
    >)
        requires
            old(self).wf(),
            active@.len() == old(self).cfg.num_slots,
            old(self).manager.epoch + active@.len() <= u64::MAX,
        ensures
            final(self).wf(),
            final(self).cfg == old(self).cfg,
            final(self).layers == old(self).layers,
            final(self).dtype == old(self).dtype,
            r is Ok <==> feasible(old(self).manager@, active@),
            r is Err ==> *final(self) == *old(self),
            r matches Ok(a) ==> {
                &&& final(self).manager@ == advanced(old(self).manager@, active@, active@.len())
                &&& final(self).uploaded_epoch == old(self).uploaded_epoch
                &&& final(self).device == old(self).device
                &&& a.tells(old(self).manager@, active@, old(self).uploaded_epoch)
                &&& a.table is None ==> old(self).device@ == paged_kv::flat_rows(
                    final(self).manager@.tables,
                    final(self).manager@.max,
                )
            },
    {
        if !self.can_advance(active) {
            return Err(paged_kv::OutOfBlocks);
        }
        let ghost l = self.manager@;
        let mut wpos: Vec<u32> = Vec::new();
        let mut mask: Vec<u32> = Vec::new();
        for s in 0..active.len()
            invariant
                l.wf(),
                l == old(self).manager@,
                active@.len() == l.tables.len() == l.lens.len(),
                feasible(l, active@),
                l.epoch + active@.len() <= u64::MAX,
                l.max * l.size <= u32::MAX,
                self.manager.wf(),
                self.manager@ == advanced(l, active@, s as nat),
                self.cfg == old(self).cfg,
                self.layers == old(self).layers,
                self.dtype == old(self).dtype,
                self.uploaded_epoch == old(self).uploaded_epoch,
                self.device == old(self).device,
                wpos@.len() == mask@.len() == s,
                forall|t: int| 0 <= t < s ==> #[trigger] wpos@[t] == l.lens[t],
                forall|t: int|
                    0 <= t < s ==> #[trigger] mask@[t] == if active@[t] {
                        1u32
                    } else {
                        0u32
                    },
        {
            proof {
                lemma_advanced(l, active@, s as nat);
                lemma_advanced(l, active@, (s + 1) as nat);
                lemma_needs(l, active@, (s + 1) as nat, active@.len());
                assert(l.tables[s as int].len() <= l.max);
                block_manager::lemma_tokens(l.lens[s as int], l.size, l.max);
                assert(self.manager@.lens[s as int] == l.lens[s as int]);
                assert(self.manager@.tables[s as int] == l.tables[s as int]);
            }
            wpos.push(self.manager.context_len(s) as u32);
            if active[s] {
                mask.push(1);
                assert(self.manager@.growable(s as int, 1));
                let grown = self.manager.append(s);
                assert(grown is Ok);
            } else {
                mask.push(0);
            }
        }
        proof {
            lemma_advanced(l, active@, active@.len());
        }
        let epoch = self.manager.layout_epoch();
        let has = match self.uploaded_epoch {
            Some(e) => e == epoch,
            None => false,
        };
        let table = if has {
            None
        } else {
            Some(self.manager.flat_block_table())
        };
        let lens = self.manager.ctx_lens();
        Ok(Advance { table, lens, wpos, mask })
    }

    /// As [`DecodeModel::advance_and_upload_masked`] with every slot active.
    pub fn advance_and_upload(&mut self) -> (r: Result<Advance, paged_kv::OutOfBlocks>)
        requires
            old(self).wf(),
            old(self).manager.epoch + old(self).cfg.num_slots <= u64::MAX,
        ensures
            final(self).wf(),
            final(self).cfg == old(self).cfg,
            final(self).layers == old(self).layers,
            final(self).dtype == old(self).dtype,
            ({
                let all = Seq::new(old(self).cfg.num_slots as nat, |s: int| true);
                &&& r is Ok <==> feasible(old(self).manager@, all)
                &&& r is Err ==> *final(self) == *old(self)
                &&& r matches Ok(a) ==> {
                    &&& final(self).manager@ == advanced(old(self).manager@, all, all.len())
                    &&& final(self).uploaded_epoch == old(self).uploaded_epoch
                    &&& final(self).device == old(self).device
                    &&& a.tells(old(self).manager@, all, old(self).uploaded_epoch)
                }
            }),
    {
        let mut active: Vec<bool> = Vec::new();
        for s in 0..self.cfg.num_slots
            invariant
                active@ == Seq::new(s as nat, |t: int| true),
        {
            active.push(true);
        }
        self.advance_and_upload_masked(&active)
    }

    /// The launches of a step, over what the device was told: each layer reads what the one before
    /// it wrote.
    pub fn run_layers_on(&self) -> (r: Vec<LayerRun>)
        requires
            self.wf(),
        ensures
            r@.len() == self.layers@.len(),
            forall|i: int|
                0 <= i < r@.len() ==> {
                    &&& (#[trigger] r@[i]).src == layer::source(i as nat)
                    &&& r@[i].dst == layer::target(i as nat, r@.len())
                    &&& r@[i].launches@ == layer::launches(
                        self.cfg.num_slots,
                        self.cfg.hidden() as usize,
                        self.layers@[i].dff,
                        i as usize,
                    )
                },
    {
        let n: usize = self.layers.len();
        let mut r: Vec<LayerRun> = Vec::new();
        for i in 0..n
            invariant
                self.wf(),
                n == self.layers@.len(),
                r@.len() == i,
                forall|j: int|
                    0 <= j < i ==> {
                        &&& (#[trigger] r@[j]).src == layer::source(j as nat)
                        &&& r@[j].dst == layer::target(j as nat, n as nat)
                        &&& r@[j].launches@ == layer::launches(
                            self.cfg.num_slots,
                            self.cfg.hidden() as usize,
                            self.layers@[j].dff,
                            j as usize,
                        )
                    },
        {
            let src = if i == 0 {
                layer::Activation::Input
            } else if i % 2 == 1 {
                layer::Activation::Ping
            } else {
                layer::Activation::Pong
            };
            let dst = if i + 1 == n {
                layer::Activation::Output
            } else if i % 2 == 0 {
                layer::Activation::Ping
            } else {
                layer::Activation::Pong
            };
            let launches = self.layers[i].forward_step_on(self.dtype, i);
            r.push(LayerRun { src, dst, launches });
        }
        r
    }

    /// Notes that the device has the present block table.
    pub fn table_uploaded(&mut self)
        requires
            old(self).wf(),
        ensures
            final(self).wf(),
            final(self).cfg == old(self).cfg,
            final(self).layers == old(self).layers,
            final(self).dtype == old(self).dtype,
            final(self).manager == old(self).manager,
            final(self).uploaded_epoch == Some(old(self).manager.epoch),
    {
        self.uploaded_epoch = Some(self.manager.layout_epoch());
        self.device = Ghost(paged_kv::flat_rows(self.manager@.tables, self.manager@.max));
    }

    /// Notes that the device is told of a batch of another making: the next step uploads its own
    /// block table.
    pub fn upload_metadata(&mut self, table: &[u32], cl: &[u32], wpos: &[u32], active: &[u32])
        requires
            old(self).wf(),
            table@.len() == old(self).cfg.num_slots * old(self).cfg.max_blocks_per_seq,
            cl@.len() == old(self).cfg.num_slots,
            wpos@.len() == old(self).cfg.num_slots,
            active@.len() == old(self).cfg.num_slots,
        ensures
            final(self).wf(),
            final(self).cfg == old(self).cfg,
            final(self).layers == old(self).layers,
            final(self).dtype == old(self).dtype,
            final(self).manager == old(self).manager,
            final(self).uploaded_epoch is None,
            final(self).device@ == table@,
    {
        self.uploaded_epoch = None;
        self.device = Ghost(table@);
    }
}

} // verus!
