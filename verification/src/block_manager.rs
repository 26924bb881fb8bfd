//! The allocator of a paged key/value cache.
use vstd::multiset::*;
use vstd::prelude::*;

use crate::paged_kv;

verus! {

/// The blocks of a cache and the sequences that hold them: see [`paged_kv::Layout`].
#[derive(Debug)]
pub struct BlockManager {
    pub num_blocks: usize,
    pub block_size: usize,
    pub max_blocks_per_seq: usize,
    pub free_list: Vec<u32>,
    pub tables: Vec<Vec<u32>>,
    pub lens: Vec<usize>,
    pub epoch: u64,
}

impl View for BlockManager {
    type V = paged_kv::Layout;

    open spec fn view(&self) -> paged_kv::Layout {
        paged_kv::Layout {
            num: self.num_blocks as nat,
            size: self.block_size as nat,
            max: self.max_blocks_per_seq as nat,
            free: self.free_list@,
            tables: Seq::new(self.tables@.len(), |s: int| self.tables@[s]@),
            lens: Seq::new(self.lens@.len(), |s: int| self.lens@[s] as nat),
            epoch: self.epoch as nat,
        }
    }
}

/// The free list of a new pool: block 0 is handed out first.
pub open spec fn countdown(num: nat) -> Seq<u32> {
    Seq::new(num, |i: int| (num - 1 - i) as u32)
}

/// The layout of a new pool: nobody holds anything.
pub open spec fn unused(num: nat, size: nat, slots: nat, max: nat) -> paged_kv::Layout {
    paged_kv::Layout {
        num,
        size,
        max,
        free: countdown(num),
        tables: Seq::new(slots, |s: int| Seq::empty()),
        lens: Seq::new(slots, |s: int| 0),
        epoch: 0,
    }
}

/// Empty tables hold nothing.
proof fn lemma_held_empty(tables: Seq<Seq<u32>>, b: u32)
    requires
        forall|s: int| 0 <= s < tables.len() ==> (#[trigger] tables[s]).len() == 0,
    ensures
        paged_kv::held(tables).count(b) == 0,
    decreases tables.len(),
{
    broadcast use group_multiset_axioms;

    if tables.len() > 0 {
        assert forall|s: int| 0 <= s < tables.drop_last().len() implies (
        #[trigger] tables.drop_last()[s]).len() == 0 by {
            assert(tables[s].len() == 0);
        }
        lemma_held_empty(tables.drop_last(), b);
        tables.last().to_multiset_ensures();
        assert(!tables.last().contains(b));
    }
}

/// A new pool is well-formed.
pub proof fn lemma_unused(num: nat, size: nat, slots: nat, max: nat)
    requires
        size > 0,
        num <= 0x1_0000_0000,
    ensures
        unused(num, size, slots, max).wf(),
{
    broadcast use group_multiset_axioms;

    let l = unused(num, size, slots, max);
    paged_kv::lemma_blocks(0, 0, size);
    l.free.to_multiset_ensures();
    assert(l.free.no_duplicates());
    l.free.lemma_multiset_has_no_duplicates();
    assert forall|b: u32|
        (#[trigger] l.free.to_multiset().count(b)) + paged_kv::held(l.tables).count(b) == if b
            < l.num {
            1nat
        } else {
            0nat
        } by {
        lemma_held_empty(l.tables, b);
        if b < num {
            assert(l.free[num - 1 - b] == b);
            assert(l.free.contains(b));
            assert(l.free.to_multiset().contains(b));
        } else {
            assert(!l.free.contains(b));
        }
    }
}

impl BlockManager {
    /// The layout is well-formed, and a block and a token of a sequence have `u32` numbers.
    pub open spec fn wf(self) -> bool {
        &&& self@.wf()
        &&& self.num_blocks <= u32::MAX
        &&& self.max_blocks_per_seq * self.block_size <= u32::MAX
    }

    /// An unused pool of `num_blocks` blocks of `block_size` tokens for `num_slots` sequences.
    pub fn new(
        num_blocks: usize,
        block_size: usize,
        num_slots: usize,
        max_blocks_per_seq: usize,
    ) -> (r: BlockManager)
        requires
            block_size > 0,
            num_blocks <= u32::MAX,
            max_blocks_per_seq * block_size <= u32::MAX,
        ensures
            r.wf(),
            r@ == unused(
                num_blocks as nat,
                block_size as nat,
                num_slots as nat,
                max_blocks_per_seq as nat,
            ),
    {
        let mut free_list: Vec<u32> = Vec::new();
        for i in 0..num_blocks
            invariant
                num_blocks <= u32::MAX,
                free_list@.len() == i,
                forall|j: int| 0 <= j < i ==> free_list@[j] == num_blocks - 1 - j,
        {
            free_list.push((num_blocks - 1 - i) as u32);
        }
        let mut tables: Vec<Vec<u32>> = Vec::new();
        let mut lens: Vec<usize> = Vec::new();
        for i in 0..num_slots
            invariant
                tables@.len() == i,
                lens@.len() == i,
                forall|j: int| 0 <= j < i ==> (#[trigger] tables@[j])@ == Seq::<u32>::empty(),
                forall|j: int| 0 <= j < i ==> lens@[j] == 0,
        {
            tables.push(Vec::new());
            lens.push(0);
        }
        let r = BlockManager {
            num_blocks,
            block_size,
            max_blocks_per_seq,
            free_list,
            tables,
            lens,
            epoch: 0,
        };
        proof {
            let u = unused(
                num_blocks as nat,
                block_size as nat,
                num_slots as nat,
                max_blocks_per_seq as nat,
            );
            lemma_unused(
                num_blocks as nat,
                block_size as nat,
                num_slots as nat,
                max_blocks_per_seq as nat,
            );
            assert(r@.free =~= u.free);
            assert(r@.tables =~= u.tables);
            assert(r@.lens =~= u.lens);
        }
        r
    }

    /// The number of slots.
    pub fn num_slots(&self) -> (r: usize)
        ensures
            r == self@.tables.len(),
    {
        self.tables.len()
    }

    /// The tokens of a slot's sequence.
    pub fn context_len(&self, slot: usize) -> (r: usize)
        requires
            self.wf(),
            self@.slot(slot as int),
        ensures
            r == self@.lens[slot as int],
    {
        self.lens[slot]
    }

    /// The blocks that nobody holds.
    pub fn free_blocks(&self) -> (r: usize)
        ensures
            r == self@.free.len(),
    {
        self.free_list.len()
    }

    /// Moves whenever a table gains or loses a block.
    pub fn layout_epoch(&self) -> (r: u64)
        ensures
            r == self@.epoch,
    {
        self.epoch
    }

    /// The blocks that a slot's sequence has with `n` more tokens.
    fn blocks_with(&self, slot: usize, n: usize) -> (r: u128)
        requires
            self.wf(),
            self@.slot(slot as int),
        ensures
            r == paged_kv::blocks_for(self@.lens[slot as int] + n as nat, self@.size),
    {
        let t: u128 = self.lens[slot] as u128 + n as u128;
        (t + self.block_size as u128 - 1) / self.block_size as u128
    }

    /// Whether a slot's sequence can have `n` more tokens: the pool has the blocks for them, and so
    /// has its table.
    pub fn can_grow(&self, slot: usize, n: usize) -> (r: bool)
        requires
            self.wf(),
            self@.slot(slot as int),
        ensures
            r == self@.growable(slot as int, n as nat),
    {
        let blocks = self.blocks_with(slot, n);
        let has = self.tables[slot].len() as u128;
        assert(self@.tables[slot as int] == self.tables@[slot as int]@);
        proof {
            paged_kv::lemma_blocks(self@.lens[slot as int], n as nat, self@.size);
        }
        blocks <= self.max_blocks_per_seq as u128 && blocks - has <= self.free_list.len() as u128
    }

    /// Gives a slot's sequence `n` more tokens, or leaves everything as it is.
    pub fn reserve(&mut self, slot: usize, n: usize) -> (r: Result<(), paged_kv::OutOfBlocks>)
        requires
            old(self).wf(),
            old(self)@.slot(slot as int),
            old(self).epoch < u64::MAX,
        ensures
            final(self).wf(),
            r is Ok <==> old(self)@.growable(slot as int, n as nat),
            final(self)@ == (if r is Ok {
                old(self)@.grown(slot as int, n as nat)
            } else {
                old(self)@
            }),
    {
        if !self.can_grow(slot, n) {
            return Err(paged_kv::OutOfBlocks);
        }
        let ghost l = self@;
        let ghost s = slot as int;
        proof {
            l.lemma_grown(s, n as nat);
            paged_kv::lemma_blocks(l.lens[s], n as nat, l.size);
            lemma_tokens(l.lens[s] + n as nat, l.size, l.max);
        }
        assert(l.tables[s] == self.tables@[s]@);
        let need: usize = (self.blocks_with(slot, n) - self.tables[slot].len() as u128) as usize;
        let ghost left = l.free.len() - need;
        let mut i: usize = 0;
        while i < need
            invariant
                i <= need <= l.free.len(),
                left == l.free.len() - need,
                s == slot,
                0 <= s < self.tables@.len(),
                l.tables.len() == self.tables@.len(),
                l.num == self.num_blocks,
                l.size == self.block_size,
                l.max == self.max_blocks_per_seq,
                l.lens == self@.lens,
                l.epoch == self.epoch,
                self.num_blocks == old(self).num_blocks,
                self.block_size == old(self).block_size,
                self.max_blocks_per_seq == old(self).max_blocks_per_seq,
                self.lens@ == old(self).lens@,
                self.free_list@ == l.free.take(l.free.len() - i),
                self.tables@[s]@ == l.tables[s] + l.free.skip(l.free.len() - i).reverse(),
                forall|t: int|
                    0 <= t < l.tables.len() && t != s ==> (#[trigger] self.tables@[t])@
                        == l.tables[t],
            decreases need - i,
        {
            let ghost before = l.free.skip(l.free.len() - i).reverse();
            let ghost had = self.tables@[s]@;
            let b: u32 = self.free_list[self.free_list.len() - 1];
            let _ = self.free_list.pop();
            self.tables[slot].push(b);
            i = i + 1;
            proof {
                let after = l.free.skip(l.free.len() - i).reverse();
                assert(self.free_list@ =~= l.free.take(l.free.len() - i));
                assert(after =~= before.push(b));
                assert(self.tables@[s]@ =~= l.tables[s] + after);
            }
        }
        let len: usize = self.lens[slot];
        self.lens.set(slot, len + n);
        if need > 0 {
            self.epoch = self.epoch + 1;
        }
        proof {
            let g = l.grown(s, n as nat);
            assert(self@.tables =~= g.tables);
            assert(self@.lens =~= g.lens);
            assert(self@.free =~= g.free);
        }
        Ok(())
    }

    /// Gives a slot's sequence one more token: see [`BlockManager::reserve`].
    pub fn append(&mut self, slot: usize) -> (r: Result<(), paged_kv::OutOfBlocks>)
        requires
            old(self).wf(),
            old(self)@.slot(slot as int),
            old(self).epoch < u64::MAX,
        ensures
            final(self).wf(),
            r is Ok <==> old(self)@.growable(slot as int, 1),
            final(self)@ == (if r is Ok {
                old(self)@.grown(slot as int, 1)
            } else {
                old(self)@
            }),
    {
        self.reserve(slot, 1)
    }

    /// Takes a slot's blocks back: its sequence is over.
    pub fn free(&mut self, slot: usize)
        requires
            old(self).wf(),
            old(self)@.slot(slot as int),
            old(self).epoch < u64::MAX,
        ensures
            final(self).wf(),
            final(self)@ == old(self)@.freed(slot as int),
    {
        let ghost l = self@;
        let ghost s = slot as int;
        proof {
            l.lemma_freed(s);
        }
        assert(l.tables[s] == self.tables@[s]@);
        let n: usize = self.tables[slot].len();
        let mut i: usize = 0;
        while i < n
            invariant
                i <= n,
                n == l.tables[s].len(),
                s == slot,
                0 <= s < self.tables@.len(),
                l.tables.len() == self.tables@.len(),
                l.num == self.num_blocks,
                l.size == self.block_size,
                l.max == self.max_blocks_per_seq,
                l.lens == self@.lens,
                l.epoch == self.epoch,
                self.num_blocks == old(self).num_blocks,
                self.block_size == old(self).block_size,
                self.max_blocks_per_seq == old(self).max_blocks_per_seq,
                self.lens@ == old(self).lens@,
                self.tables@[s]@ == l.tables[s].take(n - i),
                self.free_list@ == l.free + l.tables[s].skip(n - i).reverse(),
                forall|t: int|
                    0 <= t < l.tables.len() && t != s ==> (#[trigger] self.tables@[t])@
                        == l.tables[t],
            decreases n - i,
        {
            let ghost before = l.tables[s].skip(n - i).reverse();
            let b: u32 = self.tables[slot][n - 1 - i];
            let _ = self.tables[slot].pop();
            self.free_list.push(b);
            i = i + 1;
            proof {
                let after = l.tables[s].skip(n - i).reverse();
                assert(after =~= before.push(b));
                assert(self.free_list@ =~= l.free + after);
                assert(self.tables@[s]@ =~= l.tables[s].take(n - i));
            }
        }
        self.lens.set(slot, 0);
        if n > 0 {
            self.epoch = self.epoch + 1;
        }
        proof {
            let f = l.freed(s);
            assert(l.tables[s].skip(0) =~= l.tables[s]);
            assert(self@.free =~= f.free);
            assert(self@.tables[s] =~= Seq::empty());
            assert(self@.tables =~= f.tables);
            assert(self@.lens =~= f.lens);
        }
    }

    /// Where token `pos` of a slot's sequence lies: its block, and its place in the block.
    pub fn locate(&self, slot: usize, pos: usize) -> (r: (u32, usize))
        requires
            self.wf(),
            self@.slot(slot as int),
            pos < self@.lens[slot as int],
        ensures
            r.0 == self@.place(slot as int, pos as nat).0,
            r.1 == self@.place(slot as int, pos as nat).1,
    {
        proof {
            paged_kv::lemma_place(self@.lens[slot as int], pos as nat, self@.size);
        }
        assert(self@.tables[slot as int] == self.tables@[slot as int]@);
        (self.tables[slot][pos / self.block_size], pos % self.block_size)
    }

    /// The tables as the device reads them: a row of the width of a table for each slot, with zeros
    /// behind its last block.
    pub fn flat_block_table(&self) -> (r: Vec<u32>)
        requires
            self.wf(),
        ensures
            r@ == paged_kv::flat_rows(self@.tables, self@.max),
    {
        let mut r: Vec<u32> = Vec::new();
        let ghost tables = self@.tables;
        for s in 0..self.tables.len()
            invariant
                self.wf(),
                tables == self@.tables,
                r@ == paged_kv::flat_rows(tables.take(s as int), self@.max),
        {
            let ghost before = r@;
            let ghost row = paged_kv::padded(tables[s as int], self@.max);
            assert(tables[s as int] == self.tables@[s as int]@);
            for i in 0..self.max_blocks_per_seq
                invariant
                    self.wf(),
                    s < self.tables.len(),
                    row == paged_kv::padded(self.tables@[s as int]@, self@.max),
                    r@ == before + row.take(i as int),
            {
                if i < self.tables[s].len() {
                    r.push(self.tables[s][i]);
                } else {
                    r.push(0);
                }
                assert(r@ =~= before + row.take(i + 1));
            }
            proof {
                assert(row.take(self@.max as int) =~= row);
                let next = tables.take(s + 1);
                assert(next.drop_last() =~= tables.take(s as int));
                assert(next.last() == tables[s as int]);
            }
        }
        assert(tables.take(tables.len() as int) =~= tables);
        r
    }

    /// The tokens of all sequences, as the device reads them.
    pub fn ctx_lens(&self) -> (r: Vec<u32>)
        requires
            self.wf(),
        ensures
            r@.len() == self@.lens.len(),
            forall|s: int| 0 <= s < r@.len() ==> r@[s] == self@.lens[s],
    {
        let mut r: Vec<u32> = Vec::new();
        for s in 0..self.lens.len()
            invariant
                self.wf(),
                r@.len() == s,
                forall|t: int| 0 <= t < s ==> r@[t] == self@.lens[t],
        {
            proof {
                let l = self@;
                assert(l.tables[s as int].len() <= l.max);
                lemma_tokens(l.lens[s as int], l.size, l.max);
            }
            r.push(self.lens[s] as u32);
        }
        r
    }
}

/// So many blocks hold no more tokens.
pub proof fn lemma_tokens(tokens: nat, size: nat, max: nat)
    requires
        size > 0,
        paged_kv::blocks_for(tokens, size) <= max,
    ensures
        tokens <= max * size,
{
    paged_kv::lemma_blocks(tokens, 0, size);
    let b = paged_kv::blocks_for(tokens, size);
    assert(b * size <= max * size) by (nonlinear_arith)
        requires
            b <= max,
    ;
}

} // verus!
