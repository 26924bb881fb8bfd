//! The states of a batch: requests that wait, sequences in flight, and the blocks that they hold.
use vstd::prelude::*;

use crate::paged_kv;

verus! {

/// A prompt of so many tokens, and so many tokens to emit after it. Either counts as at least one.
#[derive(Clone, Copy, Debug)]
pub struct Request {
    pub prompt_len: usize,
    pub gen_len: usize,
}

/// How far into the queue a request that fits is looked for.
pub const ADMIT_LOOKAHEAD: usize = 64;

/// A state of a batch.
#[verifier::ext_equal]
pub struct Batch {
    pub kv: paged_kv::Layout,
    /// The tokens that each slot's sequence has yet to emit; `None` for a free slot.
    pub slots: Seq<Option<nat>>,
    pub waiting: Seq<Request>,
    pub emitted: nat,
    pub admitted: nat,
    pub completed: nat,
    /// Whether a batch is admitted only once the one before it is over.
    pub drains: bool,
}

/// A length, as it counts.
pub open spec fn at_least_one(n: usize) -> nat {
    if n == 0 {
        1
    } else {
        n as nat
    }
}

/// The slots that are taken.
pub open spec fn active(slots: Seq<Option<nat>>) -> nat
    decreases slots.len(),
{
    if slots.len() == 0 {
        0
    } else {
        active(slots.drop_last()) + if slots.last() is Some {
            1nat
        } else {
            0nat
        }
    }
}

/// The tokens that the sequences in flight have yet to emit.
pub open spec fn remaining(slots: Seq<Option<nat>>) -> nat
    decreases slots.len(),
{
    if slots.len() == 0 {
        0
    } else {
        remaining(slots.drop_last()) + match slots.last() {
            Some(n) => n,
            None => 0,
        }
    }
}

/// The tokens that the waiting requests ask for.
pub open spec fn asked(waiting: Seq<Request>) -> nat
    decreases waiting.len(),
{
    if waiting.len() == 0 {
        0
    } else {
        asked(waiting.drop_last()) + at_least_one(waiting.last().gen_len)
    }
}

/// Whether a request fits a slot.
pub open spec fn fits(l: paged_kv::Layout, s: int, r: Request) -> bool {
    l.growable(s, at_least_one(r.prompt_len))
}

/// The requests among which one that fits is looked for.
pub open spec fn window(waiting: Seq<Request>) -> nat {
    if waiting.len() <= ADMIT_LOOKAHEAD {
        waiting.len()
    } else {
        ADMIT_LOOKAHEAD as nat
    }
}

/// The first request from `i` on, within the window, that fits a slot.
pub open spec fn first_fit(l: paged_kv::Layout, s: int, waiting: Seq<Request>, i: nat) -> Option<
    nat,
>
    decreases window(waiting) - i,
{
    if i >= window(waiting) {
        None
    } else if fits(l, s, waiting[i as int]) {
        Some(i)
    } else {
        first_fit(l, s, waiting, i + 1)
    }
}

impl Batch {
    /// A free slot holds nothing, a taken one has a token yet to emit, and every request that was
    /// admitted is in flight or over.
    pub open spec fn wf(self) -> bool {
        &&& self.kv.wf()
        &&& self.slots.len() == self.kv.tables.len()
        &&& forall|s: int|
            0 <= s < self.slots.len() ==> match #[trigger] self.slots[s] {
                Some(n) => n > 0,
                None => self.kv.lens[s] == 0,
            }
        &&& self.admitted == self.completed + active(self.slots)
    }

    /// The batch with the request at `i` in a slot.
    pub open spec fn taken(self, s: int, i: int) -> Batch {
        Batch {
            kv: self.kv.grown(s, at_least_one(self.waiting[i].prompt_len)),
            slots: self.slots.update(s, Some(at_least_one(self.waiting[i].gen_len))),
            waiting: self.waiting.remove(i),
            admitted: self.admitted + 1,
            ..self
        }
    }

    /// The batch once every free slot from `s` on has the first request that fits it. Where none
    /// does, none fits the slots behind it either.
    pub open spec fn filled(self, s: nat) -> Batch
        decreases self.slots.len() - s,
    {
        if s >= self.slots.len() {
            self
        } else if self.slots[s as int] is Some {
            self.filled(s + 1)
        } else {
            match first_fit(self.kv, s as int, self.waiting, 0) {
                Some(i) => self.taken(s as int, i as int).filled(s + 1),
                None => self,
            }
        }
    }

    /// The batch after admission.
    pub open spec fn after_admission(self) -> Batch {
        if self.drains && active(self.slots) > 0 {
            self
        } else {
            self.filled(0)
        }
    }

    /// Which slots are taken.
    pub open spec fn mask(self) -> Seq<bool> {
        Seq::new(self.slots.len(), |s: int| self.slots[s] is Some)
    }

    /// The batch once slot `s` has emitted a token: with its last one its sequence is over.
    pub open spec fn emits(self, s: int) -> Batch {
        match self.slots[s] {
            None => self,
            Some(n) => if n == 1 {
                Batch {
                    kv: self.kv.freed(s),
                    slots: self.slots.update(s, None),
                    emitted: self.emitted + 1,
                    completed: self.completed + 1,
                    ..self
                }
            } else {
                Batch {
                    slots: self.slots.update(s, Some((n - 1) as nat)),
                    emitted: self.emitted + 1,
                    ..self
                }
            },
        }
    }

    /// The batch once each of the first `k` slots has emitted its token.
    pub open spec fn retired(self, k: nat) -> Batch
        decreases k,
    {
        if k == 0 {
            self
        } else {
            self.retired((k - 1) as nat).emits(k - 1)
        }
    }

    /// The tokens that have been or are to be emitted.
    pub open spec fn tokens(self) -> nat {
        self.emitted + remaining(self.slots) + asked(self.waiting)
    }

    /// The requests that have been or are to be admitted.
    pub open spec fn requests(self) -> nat {
        self.admitted + self.waiting.len()
    }
}

/// How a change of one slot changes the counts.
proof fn lemma_slot(slots: Seq<Option<nat>>, s: int, x: Option<nat>)
    requires
        0 <= s < slots.len(),
    ensures
        active(slots.update(s, x)) + (if slots[s] is Some {
            1nat
        } else {
            0nat
        }) == active(slots) + (if x is Some {
            1nat
        } else {
            0nat
        }),
        remaining(slots.update(s, x)) + (match slots[s] {
            Some(n) => n,
            None => 0,
        }) == remaining(slots) + (match x {
            Some(n) => n,
            None => 0,
        }),
    decreases slots.len(),
{
    let new = slots.update(s, x);
    if s == slots.len() - 1 {
        assert(new.drop_last() =~= slots.drop_last());
    } else {
        assert(new.drop_last() =~= slots.drop_last().update(s, x));
        lemma_slot(slots.drop_last(), s, x);
    }
}

/// How the removal of a request changes what the queue asks for.
proof fn lemma_asked(waiting: Seq<Request>, i: int)
    requires
        0 <= i < waiting.len(),
    ensures
        asked(waiting) == asked(waiting.remove(i)) + at_least_one(waiting[i].gen_len),
    decreases waiting.len(),
{
    let rest = waiting.remove(i);
    if i == waiting.len() - 1 {
        assert(rest =~= waiting.drop_last());
    } else {
        lemma_asked(waiting.drop_last(), i);
        assert(rest.drop_last() =~= waiting.drop_last().remove(i));
        assert(rest.last() == waiting.last());
    }
}

/// A taken slot is counted.
pub proof fn lemma_active(slots: Seq<Option<nat>>, s: int)
    requires
        0 <= s < slots.len(),
        slots[s] is Some,
    ensures
        active(slots) > 0,
    decreases slots.len(),
{
    if s < slots.len() - 1 {
        lemma_active(slots.drop_last(), s);
    }
}

/// What is counted is a taken slot.
pub proof fn lemma_some_active(slots: Seq<Option<nat>>)
    requires
        active(slots) > 0,
    ensures
        exists|s: int| 0 <= s < slots.len() && (#[trigger] slots[s]) is Some,
    decreases slots.len(),
{
    if slots.last() is Some {
        assert(slots[slots.len() - 1] is Some);
    } else {
        lemma_some_active(slots.drop_last());
        let s = choose|s: int|
            0 <= s < slots.len() - 1 && (#[trigger] slots.drop_last()[s]) is Some;
        assert(slots[s] is Some);
    }
}

/// Every slot is free where none is taken.
pub proof fn lemma_none_active(slots: Seq<Option<nat>>, s: int)
    requires
        active(slots) == 0,
        0 <= s < slots.len(),
    ensures
        slots[s] is None,
{
    if slots[s] is Some {
        lemma_active(slots, s);
    }
}

/// Of the requests in the window that fit, the first one is found: order is kept among those that
/// fit.
pub proof fn law_first_fit_is_first(l: paged_kv::Layout, s: int, waiting: Seq<Request>, i: nat)
    ensures
        match first_fit(l, s, waiting, i) {
            Some(k) => {
                &&& i <= k < window(waiting) <= waiting.len()
                &&& fits(l, s, waiting[k as int])
                &&& forall|j: int| i <= j < k ==> !fits(l, s, #[trigger] waiting[j])
            },
            None => forall|j: int| i <= j < window(waiting) ==> !fits(l, s, #[trigger] waiting[j]),
        },
    decreases window(waiting) - i,
{
    if i < window(waiting) && !fits(l, s, waiting[i as int]) {
        law_first_fit_is_first(l, s, waiting, i + 1);
    }
}

/// Whether a request fits does not depend on which empty slot it is to have.
pub proof fn law_empty_slots_are_alike(l: paged_kv::Layout, s: int, t: int, r: Request)
    requires
        l.wf(),
        l.slot(s),
        l.slot(t),
        l.lens[s] == 0,
        l.lens[t] == 0,
    ensures
        fits(l, s, r) == fits(l, t, r),
{
    paged_kv::lemma_blocks(0, 0, l.size);
    assert(l.tables[s].len() == 0);
    assert(l.tables[t].len() == 0);
}

impl Batch {
    /// A request into a free slot.
    pub proof fn lemma_taken(self, s: int, i: int)
        requires
            self.wf(),
            0 <= s < self.slots.len(),
            self.slots[s] is None,
            0 <= i < self.waiting.len(),
            fits(self.kv, s, self.waiting[i]),
        ensures
            self.taken(s, i).wf(),
            self.taken(s, i).tokens() == self.tokens(),
            self.taken(s, i).requests() == self.requests(),
            self.taken(s, i).kv.epoch <= self.kv.epoch + 1,
    {
        self.kv.lemma_grown(s, at_least_one(self.waiting[i].prompt_len));
        lemma_slot(self.slots, s, Some(at_least_one(self.waiting[i].gen_len)));
        lemma_asked(self.waiting, i);
    }

    /// Admission from slot `s` on: see [`law_admission_keeps_the_books`].
    pub proof fn lemma_filled(self, s: nat)
        requires
            self.wf(),
        ensures
            self.filled(s).wf(),
            self.filled(s).tokens() == self.tokens(),
            self.filled(s).requests() == self.requests(),
            self.filled(s).emitted == self.emitted,
            self.filled(s).completed == self.completed,
            self.filled(s).drains == self.drains,
            self.filled(s).slots.len() == self.slots.len(),
            self.filled(s).kv.tables.len() == self.kv.tables.len(),
            self.filled(s).kv.num == self.kv.num,
            self.filled(s).kv.size == self.kv.size,
            self.filled(s).kv.max == self.kv.max,
            self.admitted <= self.filled(s).admitted,
            s <= self.slots.len() ==> self.filled(s).admitted <= self.admitted + self.slots.len()
                - s,
            s <= self.slots.len() ==> self.filled(s).kv.epoch <= self.kv.epoch + self.slots.len()
                - s,
            forall|t: int|
                0 <= t < self.slots.len() && (t < s || self.slots[t] is Some)
                    ==> #[trigger] self.filled(s).slots[t] == self.slots[t],
        decreases self.slots.len() - s,
    {
        if s < self.slots.len() {
            if self.slots[s as int] is Some {
                self.lemma_filled(s + 1);
            } else {
                law_first_fit_is_first(self.kv, s as int, self.waiting, 0);
                match first_fit(self.kv, s as int, self.waiting, 0) {
                    Some(i) => {
                        self.lemma_taken(s as int, i as int);
                        self.taken(s as int, i as int).lemma_filled(s + 1);
                    },
                    None => {},
                }
            }
        }
    }

    /// Admission of no request changes nothing.
    proof fn lemma_filled_same(self, s: nat)
        requires
            self.wf(),
            self.filled(s).admitted == self.admitted,
        ensures
            self.filled(s) == self,
        decreases self.slots.len() - s,
    {
        if s < self.slots.len() {
            if self.slots[s as int] is Some {
                self.lemma_filled_same(s + 1);
            } else {
                law_first_fit_is_first(self.kv, s as int, self.waiting, 0);
                match first_fit(self.kv, s as int, self.waiting, 0) {
                    Some(i) => {
                        self.lemma_taken(s as int, i as int);
                        self.taken(s as int, i as int).lemma_filled(s + 1);
                    },
                    None => {},
                }
            }
        }
    }

    /// Admission from slot `s` on leaves no slot free for a request in the window that fits it.
    proof fn lemma_filled_is_full(self, s: nat, t: int, i: int)
        requires
            self.wf(),
            s <= self.slots.len(),
            forall|u: int| 0 <= u < s ==> (#[trigger] self.slots[u]) is Some,
            0 <= t < self.slots.len(),
            self.filled(s).slots[t] is None,
            0 <= i < window(self.filled(s).waiting),
        ensures
            !fits(self.filled(s).kv, t, self.filled(s).waiting[i]),
        decreases self.slots.len() - s,
    {
        self.lemma_filled(s);
        if s < self.slots.len() {
            if self.slots[s as int] is Some {
                self.lemma_filled_is_full(s + 1, t, i);
            } else {
                law_first_fit_is_first(self.kv, s as int, self.waiting, 0);
                match first_fit(self.kv, s as int, self.waiting, 0) {
                    Some(k) => {
                        self.lemma_taken(s as int, k as int);
                        let next = self.taken(s as int, k as int);
                        assert forall|u: int| 0 <= u < s + 1 implies (
                        #[trigger] next.slots[u]) is Some by {
                            if u < s {
                                assert(self.slots[u] is Some);
                            }
                        }
                        next.lemma_filled_is_full(s + 1, t, i);
                    },
                    None => {
                        law_empty_slots_are_alike(self.kv, s as int, t, self.waiting[i]);
                    },
                }
            }
        } else {
            assert(self.slots[t] is Some);
        }
    }

    /// One slot's token.
    proof fn lemma_emits(self, s: int)
        requires
            self.wf(),
            0 <= s < self.slots.len(),
        ensures
            self.emits(s).wf(),
            self.emits(s).tokens() == self.tokens(),
            self.emits(s).requests() == self.requests(),
            self.emits(s).kv.epoch <= self.kv.epoch + 1,
    {
        match self.slots[s] {
            None => {},
            Some(n) => {
                if n == 1 {
                    self.kv.lemma_freed(s);
                    lemma_slot(self.slots, s, None);
                } else {
                    lemma_slot(self.slots, s, Some((n - 1) as nat));
                }
            },
        }
    }

    /// The tokens of the first `k` slots.
    pub proof fn lemma_retired(self, k: nat)
        requires
            self.wf(),
            k <= self.slots.len(),
        ensures
            self.retired(k).wf(),
            self.retired(k).tokens() == self.tokens(),
            self.retired(k).requests() == self.requests(),
            self.retired(k).waiting == self.waiting,
            self.retired(k).admitted == self.admitted,
            self.retired(k).drains == self.drains,
            self.retired(k).slots.len() == self.slots.len(),
            self.retired(k).kv.tables.len() == self.kv.tables.len(),
            self.retired(k).kv.num == self.kv.num,
            self.retired(k).kv.size == self.kv.size,
            self.retired(k).kv.max == self.kv.max,
            self.retired(k).kv.epoch <= self.kv.epoch + k,
            self.retired(k).emitted == self.emitted + active(self.slots.take(k as int)),
            self.retired(k).completed <= self.completed + k,
            forall|t: int|
                k <= t < self.slots.len() ==> #[trigger] self.retired(k).slots[t] == self.slots[t],
        decreases k,
    {
        if k > 0 {
            let j = (k - 1) as nat;
            self.lemma_retired(j);
            self.retired(j).lemma_emits(j as int);
            assert(self.retired(j).slots[j as int] == self.slots[j as int]);
            assert(self.slots.take(k as int).drop_last() =~= self.slots.take(j as int));
        } else {
            assert(self.slots.take(0) =~= Seq::empty());
        }
    }
}

/// Admission keeps the books: no request and no token is lost, what is in flight stays where it is,
/// and blocks are accounted for.
pub proof fn law_admission_keeps_the_books(b: Batch)
    requires
        b.wf(),
    ensures
        b.after_admission().wf(),
        b.after_admission().tokens() == b.tokens(),
        b.after_admission().requests() == b.requests(),
        b.after_admission().emitted == b.emitted,
        b.after_admission().completed == b.completed,
        forall|t: int|
            0 <= t < b.slots.len() && b.slots[t] is Some ==> #[trigger] b.after_admission().slots[t]
                == b.slots[t],
{
    b.lemma_filled(0);
}

/// With static batching nothing is admitted while a sequence is in flight.
pub proof fn law_static_batches_drain(b: Batch)
    requires
        b.drains,
        active(b.slots) > 0,
    ensures
        b.after_admission() == b,
{
}

/// Admission leaves no slot free for a request in the window that fits it.
pub proof fn law_admission_fills(b: Batch, t: int, i: int)
    requires
        b.wf(),
        !(b.drains && active(b.slots) > 0),
        0 <= t < b.slots.len(),
        b.after_admission().slots[t] is None,
        0 <= i < window(b.after_admission().waiting),
    ensures
        !fits(b.after_admission().kv, t, b.after_admission().waiting[i]),
{
    b.lemma_filled_is_full(0, t, i);
}

/// A step keeps the books, and each sequence in flight emits one token.
pub proof fn law_a_step_emits_one_token_each(b: Batch)
    requires
        b.wf(),
    ensures
        b.retired(b.slots.len()).wf(),
        b.retired(b.slots.len()).tokens() == b.tokens(),
        b.retired(b.slots.len()).requests() == b.requests(),
        b.retired(b.slots.len()).emitted == b.emitted + active(b.slots),
{
    b.lemma_retired(b.slots.len());
    assert(b.slots.take(b.slots.len() as int) =~= b.slots);
}

/// Free slots hold no block.
proof fn lemma_nothing_taken(tables: Seq<Seq<u32>>)
    requires
        forall|s: int| 0 <= s < tables.len() ==> (#[trigger] tables[s]).len() == 0,
    ensures
        paged_kv::taken(tables) == 0,
    decreases tables.len(),
{
    if tables.len() > 0 {
        assert forall|s: int| 0 <= s < tables.drop_last().len() implies (
        #[trigger] tables.drop_last()[s]).len() == 0 by {
            assert(tables[s].len() == 0);
        }
        lemma_nothing_taken(tables.drop_last());
    }
}

/// Nothing stays behind: once no sequence is in flight every block is free, every request that was
/// admitted is over, and with an empty queue every token that was asked for has been emitted.
pub proof fn law_an_idle_batch_holds_nothing(b: Batch)
    requires
        b.wf(),
        b.kv.num <= 0x1_0000_0000,
        active(b.slots) == 0,
    ensures
        b.kv.free.len() == b.kv.num,
        b.completed == b.admitted,
        b.waiting.len() == 0 ==> b.emitted == b.tokens() && b.completed == b.requests(),
{
    paged_kv::law_blocks_are_conserved(b.kv);
    paged_kv::lemma_blocks(0, 0, b.kv.size);
    assert forall|s: int| 0 <= s < b.kv.tables.len() implies (#[trigger] b.kv.tables[s]).len()
        == 0 by {
        lemma_none_active(b.slots, s);
        assert(b.slots[s] is None);
    }
    lemma_nothing_taken(b.kv.tables);
    lemma_none_remaining(b.slots);
}

/// Free slots owe nothing.
proof fn lemma_none_remaining(slots: Seq<Option<nat>>)
    requires
        active(slots) == 0,
    ensures
        remaining(slots) == 0,
    decreases slots.len(),
{
    if slots.len() > 0 {
        lemma_none_remaining(slots.drop_last());
    }
}

/// The queue always moves: where a request waits whose prompt the whole cache could hold, admission
/// leaves a sequence in flight.
pub proof fn law_the_queue_moves(b: Batch)
    requires
        b.wf(),
        b.kv.num <= 0x1_0000_0000,
        b.slots.len() > 0,
        b.waiting.len() > 0,
        paged_kv::blocks_for(at_least_one(b.waiting[0].prompt_len), b.kv.size) <= b.kv.max,
        paged_kv::blocks_for(at_least_one(b.waiting[0].prompt_len), b.kv.size) <= b.kv.num,
    ensures
        active(b.after_admission().slots) > 0,
{
    let a = b.after_admission();
    if active(a.slots) == 0 {
        law_admission_keeps_the_books(b);
        b.lemma_filled(0);
        b.lemma_filled_same(0);
        law_an_idle_batch_holds_nothing(b);
        lemma_none_active(b.slots, 0);
        paged_kv::lemma_blocks(0, 0, b.kv.size);
        assert(b.kv.tables[0].len() == 0);
        assert(fits(b.kv, 0, b.waiting[0]));
        law_admission_fills(b, 0, 0);
    }
}

} // verus!
