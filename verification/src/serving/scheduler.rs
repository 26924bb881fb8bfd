//! Continuous batching: a sequence that is over leaves its slot to a request that waits.
//!
//! A step is [`Scheduler::begin_step`], then the launches on the device, then
//! [`Scheduler::retire_finished`].
use vstd::prelude::*;

use crate::paged_kv;
use crate::serving::batch;
use crate::serving::model;

verus! {

/// The requests that wait and the sequences in flight over a model: see [`batch::Batch`].
pub struct Scheduler {
    pub model: model::DecodeModel,
    pub slots: Vec<Option<usize>>,
    pub waiting: Vec<batch::Request>,
    pub emitted: usize,
    pub admitted: usize,
    pub completed: usize,
    pub static_batching: bool,
    /// The input and the output that the step on the device was recorded with, once it was.
    pub graph: Option<(u64, u64)>,
}

/// How a step's launches are made.
#[derive(Clone, Copy, Debug, PartialEq, Eq, Structural)]
pub enum Launching {
    /// One by one, and then they are recorded.
    Capture,
    /// By the recording.
    Replay,
}

/// What a slot owes, as a number.
pub open spec fn owed(slot: Option<usize>) -> Option<nat> {
    match slot {
        Some(n) => Some(n as nat),
        None => None,
    }
}

impl View for Scheduler {
    type V = batch::Batch;

    open spec fn view(&self) -> batch::Batch {
        batch::Batch {
            kv: self.model.manager@,
            slots: Seq::new(self.slots@.len(), |s: int| owed(self.slots@[s])),
            waiting: self.waiting@,
            emitted: self.emitted as nat,
            admitted: self.admitted as nat,
            completed: self.completed as nat,
            drains: self.static_batching,
        }
    }
}

/// A length, as it counts.
fn floored(n: usize) -> (r: usize)
    ensures
        r == batch::at_least_one(n),
{
    if n == 0 {
        1
    } else {
        n
    }
}

impl Scheduler {
    /// The batch and its model are well-formed.
    pub open spec fn wf(self) -> bool {
        &&& self.model.wf()
        &&& self@.wf()
    }

    /// Whether this differs from `other` in the batch alone: not in the model's layers or geometry,
    /// in what the device has, or in the recording.
    pub open spec fn same_setting(self, other: Scheduler) -> bool {
        &&& self.model.layers == other.model.layers
        &&& self.model.dtype == other.model.dtype
        &&& self.model.cfg == other.model.cfg
        &&& self.model.uploaded_epoch == other.model.uploaded_epoch
        &&& self.model.device == other.model.device
        &&& self.graph == other.graph
    }

    /// Whether the counters have room for one more step.
    pub open spec fn has_room(self) -> bool {
        &&& self.model.manager.epoch + 3 * self.slots@.len() <= u64::MAX
        &&& self.admitted + self.slots@.len() <= usize::MAX
        &&& self.emitted + self.slots@.len() <= usize::MAX
    }

    /// A scheduler of an unused model, with every slot free.
    pub fn new(model: model::DecodeModel) -> (r: Scheduler)
        requires
            model.wf(),
            forall|s: int| 0 <= s < model.manager@.lens.len() ==> model.manager@.lens[s] == 0,
        ensures
            r.wf(),
            r.model == model,
            r@.slots == Seq::new(model.manager@.tables.len(), |s: int| None::<nat>),
            r@.waiting.len() == 0,
            r@.emitted == r@.admitted == r@.completed == 0,
            r.graph is None,
            !r@.drains,
    {
        let n: usize = model.bcap();
        let mut slots: Vec<Option<usize>> = Vec::new();
        for s in 0..n
            invariant
                slots@.len() == s,
                forall|t: int| 0 <= t < s ==> slots@[t] is None,
        {
            slots.push(None);
        }
        let r = Scheduler {
            model,
            slots,
            waiting: Vec::new(),
            emitted: 0,
            admitted: 0,
            completed: 0,
            static_batching: false,
            graph: None,
        };
        proof {
            lemma_all_free(r@.slots);
        }
        r
    }

    /// As [`Scheduler::new`], but a batch is admitted only once the one before it is over.
    pub fn new_static(model: model::DecodeModel) -> (r: Scheduler)
        requires
            model.wf(),
            forall|s: int| 0 <= s < model.manager@.lens.len() ==> model.manager@.lens[s] == 0,
        ensures
            r.wf(),
            r.model == model,
            r@.slots == Seq::new(model.manager@.tables.len(), |s: int| None::<nat>),
            r@.waiting.len() == 0,
            r@.emitted == r@.admitted == r@.completed == 0,
            r.graph is None,
            r@.drains,
    {
        let mut r = Scheduler::new(model);
        r.static_batching = true;
        r
    }

    /// Puts a request at the end of the queue.
    pub fn enqueue(&mut self, req: batch::Request)
        requires
            old(self).wf(),
        ensures
            final(self).wf(),
            final(self).same_setting(*old(self)),
            final(self)@ == (batch::Batch { waiting: old(self)@.waiting.push(req), ..old(self)@ }),
    {
        self.waiting.push(req);
    }

    /// The model.
    pub fn model(&self) -> (r: &model::DecodeModel)
        ensures
            *r == self.model,
    {
        &self.model
    }

    /// The sequences in flight.
    pub fn num_active(&self) -> (r: usize)
        ensures
            r == batch::active(self@.slots),
    {
        let mut n: usize = 0;
        for s in 0..self.slots.len()
            invariant
                n == batch::active(self@.slots.take(s as int)),
                n <= s,
        {
            proof {
                let next = self@.slots.take(s + 1);
                assert(next.drop_last() =~= self@.slots.take(s as int));
                assert(next.last() == owed(self.slots@[s as int]));
            }
            if self.slots[s].is_some() {
                n = n + 1;
            }
        }
        assert(self@.slots.take(self.slots@.len() as int) =~= self@.slots);
        n
    }

    /// The requests that wait.
    pub fn pending(&self) -> (r: usize)
        ensures
            r == self@.waiting.len(),
    {
        self.waiting.len()
    }

    /// The tokens emitted so far.
    pub fn emitted(&self) -> (r: usize)
        ensures
            r == self@.emitted,
    {
        self.emitted
    }

    /// The requests admitted so far.
    pub fn admitted(&self) -> (r: usize)
        ensures
            r == self@.admitted,
    {
        self.admitted
    }

    /// The requests that are over.
    pub fn completed(&self) -> (r: usize)
        ensures
            r == self@.completed,
    {
        self.completed
    }

    /// The blocks that nobody holds.
    pub fn free_blocks(&self) -> (r: usize)
        ensures
            r == self@.kv.free.len(),
    {
        self.model.cache().free_blocks()
    }

    /// Whether nothing waits and nothing is in flight.
    pub fn is_idle(&self) -> (r: bool)
        ensures
            r == (self@.waiting.len() == 0 && batch::active(self@.slots) == 0),
    {
        self.waiting.len() == 0 && self.num_active() == 0
    }

    /// The first request in the window that fits a slot.
    fn pick(&self, slot: usize) -> (r: Option<usize>)
        requires
            self.wf(),
            slot < self.slots@.len(),
        ensures
            match r {
                Some(i) => batch::first_fit(self@.kv, slot as int, self@.waiting, 0) == Some(
                    i as nat,
                ),
                None => batch::first_fit(self@.kv, slot as int, self@.waiting, 0) is None,
            },
    {
        let n: usize = if self.waiting.len() <= batch::ADMIT_LOOKAHEAD {
            self.waiting.len()
        } else {
            batch::ADMIT_LOOKAHEAD
        };
        let mut i: usize = 0;
        while i < n
            invariant
                self.wf(),
                slot < self.slots@.len(),
                i <= n,
                n == batch::window(self@.waiting),
                n <= self.waiting@.len(),
                batch::first_fit(self@.kv, slot as int, self@.waiting, 0) == batch::first_fit(
                    self@.kv,
                    slot as int,
                    self@.waiting,
                    i as nat,
                ),
            decreases n - i,
        {
            if self.model.cache().can_grow(slot, floored(self.waiting[i].prompt_len)) {
                return Some(i);
            }
            i = i + 1;
        }
        None
    }

    /// Fills the free slots from the queue, each with the first request in the window that fits,
    /// and returns how many it admitted.
    pub fn admit_waiting(&mut self) -> (r: usize)
        requires
            old(self).wf(),
            old(self).model.manager.epoch + old(self).slots@.len() <= u64::MAX,
            old(self).admitted + old(self).slots@.len() <= usize::MAX,
        ensures
            final(self).wf(),
            final(self)@ == old(self)@.after_admission(),
            r == final(self)@.admitted - old(self)@.admitted,
            final(self).same_setting(*old(self)),
    {
        let ghost b = self@;
        proof {
            b.lemma_filled(0);
        }
        if self.static_batching && self.num_active() > 0 {
            return 0;
        }
        let before: usize = self.admitted;
        let n: usize = self.slots.len();
        let mut s: usize = 0;
        while s < n
            invariant_except_break
                s <= n,
                self@.filled(s as nat) == b.filled(0),
                self.model.manager.epoch + (n - s) <= u64::MAX,
            invariant
                n == self.slots@.len(),
                self.wf(),
                before <= self.admitted,
                before + n <= usize::MAX,
                self.admitted <= before + s,
                before == b.admitted,
                self.same_setting(*old(self)),
            ensures
                self@ == b.filled(0),
            decreases n - s,
        {
            if self.slots[s].is_some() {
                assert(self@.slots[s as int] == owed(self.slots@[s as int]));
                s = s + 1;
                continue;
            }
            assert(self@.slots[s as int] == owed(self.slots@[s as int]));
            let ghost here = self@;
            let i = match self.pick(s) {
                Some(i) => i,
                None => break,
            };
            proof {
                batch::law_first_fit_is_first(here.kv, s as int, here.waiting, 0);
                here.lemma_taken(s as int, i as int);
            }
            let req: batch::Request = self.waiting.remove(i);
            let held = self.model.reserve(s, floored(req.prompt_len));
            assert(held is Ok);
            let gen: usize = floored(req.gen_len);
            self.slots.set(s, Some(gen));
            self.admitted = self.admitted + 1;
            proof {
                let next = here.taken(s as int, i as int);
                assert(self@.slots =~= next.slots);
                assert(self@.waiting =~= next.waiting);
                assert(self@ == next);
            }
            s = s + 1;
        }
        self.admitted - before
    }

    /// Which slots are taken.
    fn taken_slots(&self) -> (r: Vec<bool>)
        ensures
            r@ == self@.mask(),
    {
        let mut r: Vec<bool> = Vec::new();
        for s in 0..self.slots.len()
            invariant
                r@.len() == s,
                forall|t: int| 0 <= t < s ==> r@[t] == (self.slots@[t] is Some),
        {
            r.push(self.slots[s].is_some());
        }
        assert(r@ =~= self@.mask());
        r
    }

    /// The host half of a step: admits what it can, then gives every sequence in flight one more
    /// token. `None` where nothing is in flight: there is nothing to launch. Where the cache cannot
    /// hold the tokens, what was admitted stays and nothing else changes.
    pub fn begin_step(&mut self) -> (r: Result<Option<model::Advance>, paged_kv::OutOfBlocks>)
        requires
            old(self).wf(),
            old(self).has_room(),
        ensures
            final(self).wf(),
            final(self).same_setting(*old(self)),
            ({
                let b = old(self)@.after_admission();
                match r {
                    Ok(None) => batch::active(b.slots) == 0 && final(self)@ == b,
                    Ok(Some(a)) => {
                        &&& batch::active(b.slots) > 0
                        &&& !old(self)@.refuses()
                        &&& final(self)@ == b.advanced()
                        &&& a.tells(b.kv, b.mask(), old(self).model.uploaded_epoch)
                        &&& a.table is None ==> old(self).model.device@ == paged_kv::flat_rows(
                            final(self)@.kv.tables,
                            final(self)@.kv.max,
                        )
                    },
                    Err(_) => old(self)@.refuses() && final(self)@ == b,
                }
            }),
    {
        let ghost b = self@.after_admission();
        proof {
            self@.lemma_filled(0);
        }
        let _ = self.admit_waiting();
        if self.num_active() == 0 {
            return Ok(None);
        }
        let active = self.taken_slots();
        let r = self.model.advance_and_upload_masked(&active);
        match r {
            Err(e) => Err(e),
            Ok(a) => {
                proof {
                    b.lemma_advanced();
                    assert(self@ == b.advanced());
                }
                Ok(Some(a))
            },
        }
    }

    /// How the launches of a step over these buffers are made: recorded once, and replayed after
    /// that. A recording is of its buffers, so they are the same at every step.
    pub fn launching(&self, x: u64, out: u64) -> (r: Launching)
        requires
            self.graph matches Some(g) ==> g == (x, out),
        ensures
            r == (if self.graph is None {
                Launching::Capture
            } else {
                Launching::Replay
            }),
    {
        if self.graph.is_none() {
            Launching::Capture
        } else {
            Launching::Replay
        }
    }

    /// Notes that the step was recorded with these buffers.
    pub fn captured(&mut self, x: u64, out: u64)
        requires
            old(self).wf(),
            old(self).graph is None,
        ensures
            final(self).wf(),
            final(self)@ == old(self)@,
            final(self).model == old(self).model,
            final(self).graph == Some((x, out)),
    {
        self.graph = Some((x, out));
    }

    /// The end of a step: every sequence in flight has emitted a token, and those that have emitted
    /// their last leave their slots and give their blocks back.
    pub fn retire_finished(&mut self)
        requires
            old(self).wf(),
            old(self).model.manager.epoch + old(self).slots@.len() <= u64::MAX,
            old(self).emitted + old(self).slots@.len() <= usize::MAX,
        ensures
            final(self).wf(),
            final(self)@ == old(self)@.retired(old(self)@.slots.len()),
            final(self).same_setting(*old(self)),
    {
        let ghost b = self@;
        let n: usize = self.slots.len();
        for s in 0..n
            invariant
                b.wf(),
                b == old(self)@,
                n == b.slots.len(),
                b.kv.epoch + n <= u64::MAX,
                b.emitted + n <= usize::MAX,
                self.wf(),
                self@ == b.retired(s as nat),
                n == self.slots@.len(),
                self.same_setting(*old(self)),
        {
            proof {
                b.lemma_retired(s as nat);
                b.lemma_retired((s + 1) as nat);
                lemma_active_bound(b.slots.take(s as int));
            }
            let ghost here = self@;
            assert(here.slots[s as int] == owed(self.slots@[s as int]));
            if let Some(left) = self.slots[s] {
                self.emitted = self.emitted + 1;
                if left == 1 {
                    self.model.free(s);
                    self.slots.set(s, None);
                    self.completed = self.completed + 1;
                } else {
                    self.slots.set(s, Some(left - 1));
                }
                assert(self@.slots =~= here.emits(s as int).slots);
                assert(self@ == here.emits(s as int));
            }
        }
    }
}

/// A recording changes nothing of a batch: whether the launches of its steps are made one by one or
/// by the recording, it goes through the same states.
pub proof fn law_a_recording_changes_no_step(s: Scheduler, graph: Option<(u64, u64)>, n: nat)
    ensures
        (Scheduler { graph, ..s })@ == s@,
        (Scheduler { graph, ..s })@.after_steps(n) == s@.after_steps(n),
{
    assert((Scheduler { graph, ..s })@ == s@);
}

/// No more slots are taken than there are.
proof fn lemma_active_bound(slots: Seq<Option<nat>>)
    ensures
        batch::active(slots) <= slots.len(),
    decreases slots.len(),
{
    if slots.len() > 0 {
        lemma_active_bound(slots.drop_last());
    }
}

/// Free slots count for nothing.
proof fn lemma_all_free(slots: Seq<Option<nat>>)
    requires
        forall|s: int| 0 <= s < slots.len() ==> (#[trigger] slots[s]) is None,
    ensures
        batch::active(slots) == 0,
    decreases slots.len(),
{
    if slots.len() > 0 {
        assert forall|s: int| 0 <= s < slots.drop_last().len() implies (
        #[trigger] slots.drop_last()[s]) is None by {
            assert(slots[s] is None);
        }
        lemma_all_free(slots.drop_last());
    }
}

} // verus!
