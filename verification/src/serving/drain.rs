//! Whole runs of a batch: a pool that is large enough refuses no step, and stepping comes to an end.
use vstd::prelude::*;

use crate::paged_kv;
use crate::serving::batch;
use crate::serving::model;

verus! {

/// The tokens that a slot has yet to emit after one more: none is the end of its sequence.
pub open spec fn left(slot: Option<nat>) -> Option<nat> {
    match slot {
        Some(n) if n != 1 => Some((n - 1) as nat),
        _ => None,
    }
}

impl batch::Batch {
    /// The batch once every sequence in flight has a place for its next token.
    pub open spec fn advanced(self) -> batch::Batch {
        batch::Batch { kv: model::advanced(self.kv, self.mask(), self.slots.len()), ..self }
    }

    /// The batch after a step: admission, a token for every sequence in flight, and the end of those
    /// that have emitted their last.
    pub open spec fn stepped(self) -> batch::Batch {
        let a = self.after_admission();
        if batch::active(a.slots) == 0 {
            a
        } else {
            a.advanced().retired(a.slots.len())
        }
    }

    /// The batch after `n` steps.
    pub open spec fn after_steps(self, n: nat) -> batch::Batch
        decreases n,
    {
        if n == 0 {
            self
        } else {
            self.stepped().after_steps((n - 1) as nat)
        }
    }

    /// Whether nothing waits and nothing is in flight.
    pub open spec fn idle(self) -> bool {
        self.waiting.len() == 0 && batch::active(self.slots) == 0
    }

    /// Whether the next step is refused: the pool cannot hold a token more of each sequence.
    pub open spec fn refuses(self) -> bool {
        let a = self.after_admission();
        batch::active(a.slots) > 0 && !model::feasible(a.kv, a.mask())
    }

    /// The blocks of a request from its prompt to its last token.
    pub open spec fn blocks_of(self, r: batch::Request) -> nat {
        paged_kv::blocks_for(
            batch::at_least_one(r.prompt_len) + batch::at_least_one(r.gen_len),
            self.kv.size,
        )
    }

    /// Whether no sequence, in flight or waiting, ever has more than `w` blocks, and the pool has as
    /// many for every slot.
    pub open spec fn roomy(self, w: nat) -> bool {
        &&& self.slots.len() > 0
        &&& w <= self.kv.max
        &&& self.slots.len() * w <= self.kv.num <= 0x1_0000_0000
        &&& forall|i: int|
            0 <= i < self.waiting.len() ==> self.blocks_of(#[trigger] self.waiting[i]) <= w
        &&& forall|s: int|
            0 <= s < self.slots.len() ==> match #[trigger] self.slots[s] {
                Some(n) => paged_kv::blocks_for(self.kv.lens[s] + n, self.kv.size) <= w,
                None => true,
            }
    }

    /// Admission leaves the pool large enough.
    proof fn lemma_roomy_filled(self, w: nat, s: nat)
        requires
            self.wf(),
            self.roomy(w),
        ensures
            self.filled(s).roomy(w),
        decreases self.slots.len() - s,
    {
        if s < self.slots.len() {
            if self.slots[s as int] is Some {
                self.lemma_roomy_filled(w, s + 1);
            } else {
                batch::law_first_fit_is_first(self.kv, s as int, self.waiting, 0);
                match batch::first_fit(self.kv, s as int, self.waiting, 0) {
                    Some(i) => {
                        let next = self.taken(s as int, i as int);
                        self.lemma_taken(s as int, i as int);
                        assert(self.blocks_of(self.waiting[i as int]) <= w);
                        assert forall|j: int| 0 <= j < next.waiting.len() implies next.blocks_of(
                            #[trigger] next.waiting[j],
                        ) <= w by {
                            let k = if j < i {
                                j
                            } else {
                                j + 1
                            };
                            assert(next.waiting[j] == self.waiting[k]);
                        }
                        assert forall|t: int| 0 <= t < next.slots.len() implies match
                        #[trigger] next.slots[t] {
                            Some(n) => paged_kv::blocks_for(next.kv.lens[t] + n, next.kv.size) <= w,
                            None => true,
                        } by {
                            if t != s {
                                assert(next.slots[t] == self.slots[t]);
                            }
                        }
                        next.lemma_roomy_filled(w, s + 1);
                    },
                    None => {},
                }
            }
        }
    }

    /// What the first `k` tables hold and what their next tokens need is within `w` for each.
    proof fn lemma_room(self, w: nat, k: nat)
        requires
            self.wf(),
            self.roomy(w),
            k <= self.slots.len(),
        ensures
            paged_kv::taken(self.kv.tables.take(k as int)) + model::needs(self.kv, self.mask(), k)
                <= k * w,
        decreases k,
    {
        if k > 0 {
            let j = k - 1;
            self.lemma_room(w, j as nat);
            let tables = self.kv.tables.take(k as int);
            assert(tables.drop_last() =~= self.kv.tables.take(j));
            assert(tables.last() == self.kv.tables[j]);
            assert(self.kv.tables[j].len() == paged_kv::blocks_for(self.kv.lens[j], self.kv.size));
            match self.slots[j] {
                Some(n) => {
                    paged_kv::lemma_blocks(
                        self.kv.lens[j] + 1,
                        (n - 1) as nat,
                        self.kv.size,
                    );
                    assert(self.kv.lens[j] + 1 + (n - 1) as nat == self.kv.lens[j] + n);
                },
                None => {
                    paged_kv::lemma_blocks(0, 0, self.kv.size);
                },
            }
            assert(j * w + w == k * w) by (nonlinear_arith)
                requires
                    j == k - 1,
            ;
        } else {
            assert(self.kv.tables.take(0) =~= Seq::empty());
            assert(0 * w == 0);
        }
    }

    /// A pool that is large enough holds a token more of each sequence.
    proof fn lemma_feasible(self, w: nat)
        requires
            self.wf(),
            self.roomy(w),
        ensures
            model::feasible(self.kv, self.mask()),
    {
        let mask = self.mask();
        assert forall|s: int| 0 <= s < mask.len() && #[trigger] mask[s] implies paged_kv::blocks_for(
            self.kv.lens[s] + 1,
            self.kv.size,
        ) <= self.kv.max by {
            let n = self.slots[s]->0;
            paged_kv::lemma_blocks(self.kv.lens[s] + 1, (n - 1) as nat, self.kv.size);
            assert(self.kv.lens[s] + 1 + (n - 1) as nat == self.kv.lens[s] + n);
        }
        let n = self.slots.len();
        self.lemma_room(w, n);
        assert(self.kv.tables.take(n as int) =~= self.kv.tables);
        paged_kv::law_blocks_are_conserved(self.kv);
    }

    /// An advance keeps a batch well-formed.
    pub proof fn lemma_advanced(self)
        requires
            self.wf(),
            model::feasible(self.kv, self.mask()),
        ensures
            self.advanced().wf(),
            self.advanced().tokens() == self.tokens(),
            self.advanced().requests() == self.requests(),
    {
        model::lemma_advanced(self.kv, self.mask(), self.slots.len());
        let next = self.advanced();
        assert forall|s: int| 0 <= s < next.slots.len() implies match #[trigger] next.slots[s] {
            Some(n) => n > 0,
            None => next.kv.lens[s] == 0,
        } by {
            assert(self.slots[s] == next.slots[s]);
        }
    }

    /// What the first `k` slots have left once each has emitted its token.
    proof fn lemma_left(self, k: nat)
        requires
            self.wf(),
            k <= self.slots.len(),
        ensures
            forall|t: int|
                0 <= t < k ==> {
                    &&& #[trigger] self.retired(k).slots[t] == left(self.slots[t])
                    &&& self.retired(k).slots[t] is Some ==> self.retired(k).kv.lens[t]
                        == self.kv.lens[t]
                },
            forall|t: int|
                k <= t < self.slots.len() ==> #[trigger] self.retired(k).slots[t] == self.slots[t]
                    && self.retired(k).kv.lens[t] == self.kv.lens[t],
        decreases k,
    {
        if k > 0 {
            let j = (k - 1) as nat;
            self.lemma_left(j);
            self.lemma_retired(j);
            let before = self.retired(j);
            let after = self.retired(k);
            assert(before.slots[j as int] == self.slots[j as int]);
            assert(after == before.emits(j as int));
            assert forall|t: int| 0 <= t < self.slots.len() && t != j implies
                #[trigger] after.slots[t] == before.slots[t] && after.kv.lens[t]
                == before.kv.lens[t] by {}
        }
    }

    /// Where a step starts with room, the next one does.
    proof fn lemma_roomy_stepped(self, w: nat)
        requires
            self.wf(),
            self.roomy(w),
            batch::active(self.slots) > 0,
        ensures
            self.advanced().retired(self.slots.len()).roomy(w),
    {
        let n = self.slots.len();
        self.lemma_feasible(w);
        self.lemma_advanced();
        model::lemma_advanced(self.kv, self.mask(), n);
        let a = self.advanced();
        let r = a.retired(n);
        a.lemma_retired(n);
        a.lemma_left(n);
        assert forall|i: int| 0 <= i < r.waiting.len() implies r.blocks_of(#[trigger] r.waiting[i])
            <= w by {
            assert(self.blocks_of(self.waiting[i]) <= w);
        }
        assert forall|t: int| 0 <= t < r.slots.len() implies match #[trigger] r.slots[t] {
            Some(m) => paged_kv::blocks_for(r.kv.lens[t] + m, r.kv.size) <= w,
            None => true,
        } by {
            if let Some(m) = self.slots[t] {
                if m != 1 {
                    assert(a.slots[t] == self.slots[t]);
                    assert(r.slots[t] == Some((m - 1) as nat));
                    assert(a.kv.lens[t] == self.kv.lens[t] + 1);
                    assert(r.kv.lens[t] + (m - 1) as nat == self.kv.lens[t] + m);
                }
            } else {
                assert(a.slots[t] is None);
            }
        }
    }
}

/// A pool with the blocks of the longest request for every slot refuses no step, now or later: the
/// step is made, the books are kept, each sequence in flight emits a token, and the pool is as large
/// as before.
pub proof fn law_a_large_pool_refuses_nothing(b: batch::Batch, w: nat)
    requires
        b.wf(),
        b.roomy(w),
    ensures
        !b.refuses(),
        b.stepped().wf(),
        b.stepped().roomy(w),
        b.stepped().tokens() == b.tokens(),
        b.stepped().requests() == b.requests(),
        b.stepped().kv.num == b.kv.num,
        b.stepped().emitted == b.emitted + batch::active(b.after_admission().slots),
{
    let a = b.after_admission();
    b.lemma_filled(0);
    b.lemma_roomy_filled(w, 0);
    a.lemma_feasible(w);
    if batch::active(a.slots) > 0 {
        let n = a.slots.len();
        a.lemma_advanced();
        model::lemma_advanced(a.kv, a.mask(), n);
        a.advanced().lemma_retired(n);
        assert(a.slots.take(n as int) =~= a.slots);
        a.lemma_roomy_stepped(w);
    }
}

/// Every request asks for a token.
proof fn lemma_asked(waiting: Seq<batch::Request>)
    ensures
        batch::asked(waiting) >= waiting.len(),
    decreases waiting.len(),
{
    if waiting.len() > 0 {
        lemma_asked(waiting.drop_last());
    }
}

/// Every sequence in flight has a token to emit.
proof fn lemma_remaining(slots: Seq<Option<nat>>)
    requires
        forall|s: int| 0 <= s < slots.len() ==> #[trigger] slots[s] != Some(0nat),
    ensures
        batch::remaining(slots) >= batch::active(slots),
    decreases slots.len(),
{
    if slots.len() > 0 {
        let front = slots.drop_last();
        assert forall|s: int| 0 <= s < front.len() implies #[trigger] front[s] != Some(0nat) by {
            assert(front[s] == slots[s]);
        }
        lemma_remaining(front);
        assert(slots[slots.len() - 1] != Some(0nat));
    }
}

/// A batch that is not idle has something in flight after admission.
proof fn lemma_moves(b: batch::Batch, w: nat)
    requires
        b.wf(),
        b.roomy(w),
        !b.idle(),
    ensures
        batch::active(b.after_admission().slots) > 0,
{
    b.lemma_filled(0);
    if b.waiting.len() > 0 {
        let r = b.waiting[0];
        assert(b.blocks_of(r) <= w);
        paged_kv::lemma_blocks(
            batch::at_least_one(r.prompt_len),
            batch::at_least_one(r.gen_len),
            b.kv.size,
        );
        assert(w <= b.slots.len() * w) by (nonlinear_arith)
            requires
                b.slots.len() >= 1,
        ;
        batch::law_the_queue_moves(b);
    } else if batch::active(b.after_admission().slots) == 0 {
        batch::lemma_some_active(b.slots);
        let s = choose|s: int| 0 <= s < b.slots.len() && (#[trigger] b.slots[s]) is Some;
        assert(b.after_admission().slots[s] == b.slots[s]);
        batch::lemma_active(b.after_admission().slots, s);
    }
}

/// An idle batch stays as it is.
proof fn lemma_rests(b: batch::Batch, n: nat)
    requires
        b.wf(),
        b.idle(),
    ensures
        b.after_steps(n) == b,
    decreases n,
{
    if n > 0 {
        if b.slots.len() > 0 {
            batch::law_first_fit_is_first(b.kv, 0, b.waiting, 0);
            batch::lemma_none_active(b.slots, 0);
        }
        assert(b.after_admission() == b);
        lemma_rests(b, (n - 1) as nat);
    }
}

/// A batch with `n` tokens to go is idle after `n` steps.
proof fn lemma_drains(b: batch::Batch, w: nat, n: nat)
    requires
        b.wf(),
        b.roomy(w),
        b.tokens() - b.emitted <= n,
    ensures
        b.after_steps(n).wf(),
        b.after_steps(n).idle(),
        b.after_steps(n).tokens() == b.tokens(),
        b.after_steps(n).requests() == b.requests(),
        b.after_steps(n).kv.num == b.kv.num,
    decreases n,
{
    lemma_asked(b.waiting);
    lemma_remaining(b.slots);
    if b.idle() {
        lemma_rests(b, n);
    } else {
        law_a_large_pool_refuses_nothing(b, w);
        lemma_moves(b, w);
        lemma_drains(b.stepped(), w, (n - 1) as nat);
    }
}

/// A batch drains: with a pool as in [`law_a_large_pool_refuses_nothing`], as many steps as there are
/// tokens to emit leave nothing waiting and nothing in flight. Every request is over then, every
/// token has been emitted and every block is free.
pub proof fn law_a_batch_drains(b: batch::Batch, w: nat)
    requires
        b.wf(),
        b.roomy(w),
    ensures
        ({
            let end = b.after_steps((b.tokens() - b.emitted) as nat);
            &&& end.idle()
            &&& end.completed == b.requests()
            &&& end.emitted == b.tokens()
            &&& end.kv.free.len() == b.kv.num
        }),
{
    let n = (b.tokens() - b.emitted) as nat;
    lemma_drains(b, w, n);
    batch::law_an_idle_batch_holds_nothing(b.after_steps(n));
}

} // verus!
