//! The blocks of a paged key/value cache: which sequence holds which block, and where a token of it
//! lies.
use vstd::multiset::*;
use vstd::prelude::*;

verus! {

/// There is no block left, or the sequence has as many as it may have.
#[derive(Clone, Copy, Debug, PartialEq, Eq, Structural)]
pub struct OutOfBlocks;

/// The blocks that so many tokens fill, the last one perhaps in part.
pub open spec fn blocks_for(tokens: nat, block_size: nat) -> nat {
    ((tokens + block_size - 1) / block_size as int) as nat
}

/// How the blocks of a cache are laid out.
#[verifier::ext_equal]
pub struct Layout {
    /// Blocks in the pool.
    pub num: nat,
    /// Tokens in a block.
    pub size: nat,
    /// Blocks that one sequence may have.
    pub max: nat,
    /// The blocks that nobody holds; the last one is handed out first.
    pub free: Seq<u32>,
    /// The blocks of each slot's sequence, in the order of its tokens.
    pub tables: Seq<Seq<u32>>,
    /// The tokens of each slot's sequence.
    pub lens: Seq<nat>,
    /// Moves whenever a table does.
    pub epoch: nat,
}

/// The blocks of all tables.
pub open spec fn held(tables: Seq<Seq<u32>>) -> Multiset<u32>
    decreases tables.len(),
{
    if tables.len() == 0 {
        Multiset::empty()
    } else {
        held(tables.drop_last()).add(tables.last().to_multiset())
    }
}

/// The number of blocks of all tables.
pub open spec fn taken(tables: Seq<Seq<u32>>) -> nat
    decreases tables.len(),
{
    if tables.len() == 0 {
        0
    } else {
        taken(tables.drop_last()) + tables.last().len()
    }
}

/// A row of the flat table: the blocks of a sequence, and zeros up to the width.
pub open spec fn padded(table: Seq<u32>, width: nat) -> Seq<u32> {
    Seq::new(
        width,
        |i: int|
            if i < table.len() {
                table[i]
            } else {
                0
            },
    )
}

/// The rows of all tables, one behind the other.
pub open spec fn flat_rows(tables: Seq<Seq<u32>>, width: nat) -> Seq<u32>
    decreases tables.len(),
{
    if tables.len() == 0 {
        Seq::empty()
    } else {
        flat_rows(tables.drop_last(), width) + padded(tables.last(), width)
    }
}

impl Layout {
    /// A slot's table has exactly the blocks that its tokens fill, at most `max` of them, and every
    /// block of the pool is in exactly one place: free, or once in one table.
    pub open spec fn wf(self) -> bool {
        &&& self.size > 0
        &&& self.lens.len() == self.tables.len()
        &&& forall|s: int|
            0 <= s < self.tables.len() ==> (#[trigger] self.tables[s]).len() == blocks_for(
                self.lens[s],
                self.size,
            ) <= self.max
        &&& forall|b: u32|
            (#[trigger] self.free.to_multiset().count(b)) + held(self.tables).count(b) == if b
                < self.num {
                1nat
            } else {
                0nat
            }
    }

    /// Whether `s` is a slot.
    pub open spec fn slot(self, s: int) -> bool {
        0 <= s < self.tables.len()
    }

    /// The blocks that the sequence of a slot lacks to have `n` more tokens.
    pub open spec fn need(self, s: int, n: nat) -> int {
        blocks_for(self.lens[s] + n, self.size) - self.tables[s].len()
    }

    /// Whether the sequence of a slot can have `n` more tokens.
    pub open spec fn growable(self, s: int, n: nat) -> bool {
        blocks_for(self.lens[s] + n, self.size) <= self.max && self.need(s, n) <= self.free.len()
    }

    /// The layout with `n` more tokens in a slot.
    pub open spec fn grown(self, s: int, n: nat) -> Layout {
        let left = self.free.len() - self.need(s, n);
        Layout {
            free: self.free.take(left),
            tables: self.tables.update(s, self.tables[s] + self.free.skip(left).reverse()),
            lens: self.lens.update(s, self.lens[s] + n),
            epoch: if self.need(s, n) > 0 {
                self.epoch + 1
            } else {
                self.epoch
            },
            ..self
        }
    }

    /// The layout with nothing in a slot.
    pub open spec fn freed(self, s: int) -> Layout {
        Layout {
            free: self.free + self.tables[s].reverse(),
            tables: self.tables.update(s, Seq::empty()),
            lens: self.lens.update(s, 0),
            epoch: if self.tables[s].len() > 0 {
                self.epoch + 1
            } else {
                self.epoch
            },
            ..self
        }
    }

    /// Where token `pos` of a slot's sequence lies: the block and the place in it.
    pub open spec fn place(self, s: int, pos: nat) -> (u32, nat) {
        (self.tables[s][(pos / self.size) as int], pos % self.size)
    }
}

/// More tokens need no fewer blocks, none need none, and a token's block is among those of its
/// sequence.
pub proof fn lemma_blocks(tokens: nat, more: nat, size: nat)
    requires
        size > 0,
    ensures
        blocks_for(0, size) == 0,
        blocks_for(tokens, size) <= blocks_for(tokens + more, size),
        tokens <= blocks_for(tokens, size) * size,
        blocks_for(tokens, size) * size < tokens + size,
        tokens > 0 ==> blocks_for(tokens, size) > 0,
{
    assert((0 + size - 1) / size as int == 0) by (nonlinear_arith)
        requires
            size > 0,
    ;
    let t = tokens + size - 1;
    let q = t / size as int;
    assert(t == size * q + t % (size as int) && 0 <= t % (size as int) < size) by (nonlinear_arith)
        requires
            q == t / size as int,
            size > 0,
    ;
    assert(size * q == q * size) by (nonlinear_arith);
    assert(q >= 0) by (nonlinear_arith)
        requires
            size * q + t % (size as int) == t,
            t % (size as int) < size,
            t >= 0,
            size > 0,
    ;
    let u = tokens + more + size - 1;
    assert(t / size as int <= u / size as int) by (nonlinear_arith)
        requires
            t <= u,
            size > 0,
    ;
}

/// Of the tokens of a sequence, each lies in one of its blocks.
pub proof fn lemma_place(tokens: nat, pos: nat, size: nat)
    requires
        size > 0,
        pos < tokens,
    ensures
        pos / size < blocks_for(tokens, size),
        pos % size < size,
        pos == (pos / size) * size + pos % size,
{
    lemma_blocks(tokens, 0, size);
    let b = blocks_for(tokens, size);
    let q = pos / size;
    assert(pos == size * q + pos % size && pos % size < size) by (nonlinear_arith)
        requires
            q == pos / size,
            size > 0,
    ;
    assert(size * q == q * size) by (nonlinear_arith);
    assert(q < b) by (nonlinear_arith)
        requires
            q * size <= pos,
            pos < b * size,
            size > 0,
    ;
}

/// What one table gives up or takes is what all tables do.
proof fn lemma_held_update(tables: Seq<Seq<u32>>, s: int, table: Seq<u32>, b: u32)
    requires
        0 <= s < tables.len(),
    ensures
        held(tables.update(s, table)).count(b) + tables[s].to_multiset().count(b) == held(
            tables,
        ).count(b) + table.to_multiset().count(b),
    decreases tables.len(),
{
    broadcast use group_multiset_axioms;

    let new = tables.update(s, table);
    if s == tables.len() - 1 {
        assert(new.drop_last() =~= tables.drop_last());
    } else {
        assert(new.drop_last() =~= tables.drop_last().update(s, table));
        lemma_held_update(tables.drop_last(), s, table, b);
    }
}

impl Layout {
    /// Growing keeps a layout well-formed.
    pub proof fn lemma_grown(self, s: int, n: nat)
        requires
            self.wf(),
            self.slot(s),
            self.growable(s, n),
        ensures
            self.need(s, n) >= 0,
            self.grown(s, n).wf(),
            self.grown(s, n).tables[s].len() == blocks_for(self.lens[s] + n, self.size),
    {
        broadcast use group_multiset_axioms;

        lemma_blocks(self.lens[s], n, self.size);
        let left = self.free.len() - self.need(s, n);
        let (kept, given) = (self.free.take(left), self.free.skip(left));
        let g = self.grown(s, n);
        vstd::seq_lib::lemma_multiset_commutative(kept, given);
        assert(kept + given =~= self.free);
        given.lemma_reverse_to_multiset();
        vstd::seq_lib::lemma_multiset_commutative(self.tables[s], given.reverse());
        assert forall|b: u32|
            (#[trigger] g.free.to_multiset().count(b)) + held(g.tables).count(b) == if b < g.num {
                1nat
            } else {
                0nat
            } by {
            assert(self.free.to_multiset().count(b) + held(self.tables).count(b) == if b < self.num {
                1nat
            } else {
                0nat
            });
            lemma_held_update(self.tables, s, self.tables[s] + given.reverse(), b);
        }
    }

    /// Freeing a slot keeps a layout well-formed.
    pub proof fn lemma_freed(self, s: int)
        requires
            self.wf(),
            self.slot(s),
        ensures
            self.freed(s).wf(),
    {
        broadcast use group_multiset_axioms;

        lemma_blocks(0, 0, self.size);
        let table = self.tables[s];
        let f = self.freed(s);
        table.lemma_reverse_to_multiset();
        vstd::seq_lib::lemma_multiset_commutative(self.free, table.reverse());
        Seq::<u32>::empty().to_multiset_ensures();
        assert forall|b: u32|
            (#[trigger] f.free.to_multiset().count(b)) + held(f.tables).count(b) == if b < f.num {
                1nat
            } else {
                0nat
            } by {
            assert(self.free.to_multiset().count(b) + held(self.tables).count(b) == if b < self.num {
                1nat
            } else {
                0nat
            });
            lemma_held_update(self.tables, s, Seq::empty(), b);
            assert(Seq::<u32>::empty().to_multiset().count(b) == 0) by {
                assert(!Seq::<u32>::empty().contains(b));
            }
        }
    }
}

/// The tables hold as many blocks as their lengths say.
proof fn lemma_taken(tables: Seq<Seq<u32>>)
    ensures
        held(tables).len() == taken(tables),
    decreases tables.len(),
{
    broadcast use group_multiset_axioms;

    if tables.len() > 0 {
        lemma_taken(tables.drop_last());
        tables.last().to_multiset_ensures();
    }
}

/// The blocks of two slots are among those of all.
proof fn lemma_held_two(tables: Seq<Seq<u32>>, s: int, t: int, b: u32)
    requires
        0 <= s < t < tables.len(),
    ensures
        held(tables).count(b) >= tables[s].to_multiset().count(b) + tables[t].to_multiset().count(
            b,
        ),
    decreases tables.len(),
{
    broadcast use group_multiset_axioms;

    if t == tables.len() - 1 {
        lemma_held_one(tables.drop_last(), s, b);
    } else {
        lemma_held_two(tables.drop_last(), s, t, b);
    }
}

/// The blocks of a slot are among those of all.
proof fn lemma_held_one(tables: Seq<Seq<u32>>, s: int, b: u32)
    requires
        0 <= s < tables.len(),
    ensures
        held(tables).count(b) >= tables[s].to_multiset().count(b),
    decreases tables.len(),
{
    broadcast use group_multiset_axioms;

    if s < tables.len() - 1 {
        lemma_held_one(tables.drop_last(), s, b);
    }
}

/// Blocks are conserved: those that are free and those that the tables hold are together as many as
/// the pool has.
pub proof fn law_blocks_are_conserved(l: Layout)
    requires
        l.wf(),
        l.num <= 0x1_0000_0000,
    ensures
        l.free.len() + taken(l.tables) == l.num,
{
    broadcast use group_multiset_axioms;

    let all = Seq::new(l.num, |i: int| i as u32);
    all.to_multiset_ensures();
    l.free.to_multiset_ensures();
    assert(all.no_duplicates());
    all.lemma_multiset_has_no_duplicates();
    let pool = l.free.to_multiset().add(held(l.tables));
    assert forall|b: u32| #[trigger] pool.count(b) == all.to_multiset().count(b) by {
        assert(l.free.to_multiset().count(b) + held(l.tables).count(b) == if b < l.num {
            1nat
        } else {
            0nat
        });
        if b < l.num {
            assert(all[b as int] == b);
            assert(all.contains(b));
            assert(all.to_multiset().contains(b));
        } else {
            assert(!all.contains(b));
        }
    }
    assert(pool =~= all.to_multiset());
    lemma_taken(l.tables);
}

/// No block is in two places: two slots share none, and none that a slot has is free.
pub proof fn law_blocks_are_exclusive(l: Layout, s: int, i: int)
    requires
        l.wf(),
        l.slot(s),
        0 <= i < l.tables[s].len(),
    ensures
        l.tables[s][i] < l.num,
        !l.free.contains(l.tables[s][i]),
        forall|t: int, j: int|
            #![trigger l.tables[t][j]]
            l.slot(t) && 0 <= j < l.tables[t].len() && l.tables[t][j] == l.tables[s][i] ==> t == s
                && j == i,
{
    broadcast use group_multiset_axioms;

    let b = l.tables[s][i];
    let m = l.tables[s].to_multiset();
    l.tables[s].to_multiset_ensures();
    l.free.to_multiset_ensures();
    assert(l.tables[s].contains(b));
    lemma_held_one(l.tables, s, b);
    assert(l.free.to_multiset().count(b) + held(l.tables).count(b) == if b < l.num {
        1nat
    } else {
        0nat
    });
    assert forall|t: int, j: int|
        #![trigger l.tables[t][j]]
        l.slot(t) && 0 <= j < l.tables[t].len() && l.tables[t][j] == b implies t == s && j == i by {
        l.tables[t].to_multiset_ensures();
        assert(l.tables[t].contains(b));
        if t < s {
            lemma_held_two(l.tables, t, s, b);
        } else if s < t {
            lemma_held_two(l.tables, s, t, b);
        } else if j != i {
            let rest = l.tables[s].remove(i);
            assert(rest.to_multiset() =~= m.remove(b));
            let k = if j < i {
                j
            } else {
                j - 1
            };
            assert(rest[k] == b);
            assert(rest.contains(b));
            rest.to_multiset_ensures();
            assert(rest.to_multiset().count(b) > 0);
            assert(m.remove(b).count(b) == m.count(b) - 1);
        }
    }
}

/// Two tokens never share a place: of one sequence or of two, each has its own.
pub proof fn law_places_are_distinct(l: Layout, s: int, p: nat, t: int, q: nat)
    requires
        l.wf(),
        l.slot(s),
        l.slot(t),
        p < l.lens[s],
        q < l.lens[t],
        l.place(s, p) == l.place(t, q),
    ensures
        s == t,
        p == q,
{
    lemma_place(l.lens[s], p, l.size);
    lemma_place(l.lens[t], q, l.size);
    law_blocks_are_exclusive(l, s, (p / l.size) as int);
    assert(l.tables[t][(q / l.size) as int] == l.tables[s][(p / l.size) as int]);
}

/// Freeing undoes growing: a slot that was empty before is empty again, and the free list is what
/// it was, in its order.
pub proof fn law_freeing_undoes_growing(l: Layout, s: int, n: nat)
    requires
        l.wf(),
        l.slot(s),
        l.lens[s] == 0,
        l.growable(s, n),
    ensures
        l.grown(s, n).freed(s) == (Layout { epoch: l.grown(s, n).freed(s).epoch, ..l }),
{
    lemma_blocks(0, n, l.size);
    let left = l.free.len() - l.need(s, n);
    let given = l.free.skip(left);
    let back = l.grown(s, n).freed(s);
    assert(l.tables[s] =~= Seq::empty());
    assert((l.tables[s] + given.reverse()).reverse() =~= given);
    assert(l.free.take(left) + given =~= l.free);
    assert(back.tables =~= l.tables);
    assert(back.lens =~= l.lens);
}

/// The epoch tells of every change of a table and of nothing else: over a growth it moves exactly
/// if the tables do.
pub proof fn law_epoch_follows_growth(l: Layout, s: int, n: nat)
    requires
        l.wf(),
        l.slot(s),
        l.growable(s, n),
    ensures
        l.epoch <= l.grown(s, n).epoch,
        l.grown(s, n).epoch == l.epoch <==> l.grown(s, n).tables == l.tables,
{
    lemma_blocks(l.lens[s], n, l.size);
    let g = l.grown(s, n);
    if l.need(s, n) == 0 {
        assert(l.free.skip(l.free.len() as int).reverse() =~= Seq::empty());
        assert(g.tables[s] =~= l.tables[s]);
        assert(g.tables =~= l.tables);
    } else {
        assert(g.tables[s].len() != l.tables[s].len());
    }
}

/// As [`law_epoch_follows_growth`], over the freeing of a slot.
pub proof fn law_epoch_follows_freeing(l: Layout, s: int)
    requires
        l.slot(s),
    ensures
        l.epoch <= l.freed(s).epoch,
        l.freed(s).epoch == l.epoch <==> l.freed(s).tables == l.tables,
{
    let f = l.freed(s);
    if l.tables[s].len() == 0 {
        assert(f.tables[s] =~= l.tables[s]);
        assert(f.tables =~= l.tables);
    } else {
        assert(f.tables[s].len() == 0);
    }
}

/// The length of the flat table.
proof fn lemma_flat_len(tables: Seq<Seq<u32>>, width: nat)
    ensures
        flat_rows(tables, width).len() == tables.len() * width,
    decreases tables.len(),
{
    if tables.len() > 0 {
        lemma_flat_len(tables.drop_last(), width);
        let n = tables.len();
        assert((n - 1) * width + width == n * width) by (nonlinear_arith);
    } else {
        assert(0 * width == 0);
    }
}

/// The flat table, read as the device reads it: entry `i` of row `s` is the slot's block `i`, and 0
/// behind its last block.
pub proof fn law_flat_table(tables: Seq<Seq<u32>>, width: nat, s: int, i: int)
    requires
        0 <= s < tables.len(),
        0 <= i < width,
    ensures
        flat_rows(tables, width).len() == tables.len() * width,
        0 <= s * width + i < tables.len() * width,
        flat_rows(tables, width)[s * width + i] == padded(tables[s], width)[i],
    decreases tables.len(),
{
    lemma_flat_len(tables, width);
    lemma_flat_len(tables.drop_last(), width);
    let n = tables.len();
    assert(0 <= s * width + i < n * width) by (nonlinear_arith)
        requires
            0 <= s < n,
            0 <= i < width,
    ;
    assert(s < n - 1 ==> s * width + i < (n - 1) * width) by (nonlinear_arith)
        requires
            0 <= s < n,
            0 <= i < width,
    ;
    if s < n - 1 {
        law_flat_table(tables.drop_last(), width, s, i);
        assert(tables.drop_last()[s] == tables[s]);
    }
}

/// The device finds what the host does: the entry of the flat table for a token's block is the
/// block that holds it.
pub proof fn law_flat_table_locates(l: Layout, s: int, pos: nat)
    requires
        l.wf(),
        l.slot(s),
        pos < l.lens[s],
    ensures
        flat_rows(l.tables, l.max)[s * l.max + pos / l.size] == l.place(s, pos).0,
{
    lemma_place(l.lens[s], pos, l.size);
    assert(l.tables[s].len() <= l.max);
    law_flat_table(l.tables, l.max, s, (pos / l.size) as int);
}

} // verus!
