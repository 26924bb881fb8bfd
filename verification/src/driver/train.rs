//! Training of a loss function: what is trained, in which order, and what is reported.
use vstd::prelude::*;
use vstd::string::*;

use crate::driver::grad;
use crate::driver::options;
use crate::ptx_wmma::frames;
use crate::ptx_wmma::readings;
use crate::render::shown;
use crate::text;

verus! {

pub const SIZES: &'static str = "internal: #0 param sizes for a #1-param loss function";

pub const NOT_SCALAR: &'static str =
    "the last parameter must be the scalar loss output `[f32; 1]` (the `--train` convention)";

pub const LOSS_REQUESTED: &'static str =
    "--grad-wrt must not include the loss-output parameter (the last one)";

/// What a training trains.
#[derive(Debug)]
pub struct TrainPlan {
    /// The parameters that are trained.
    pub wrt: Vec<usize>,
    /// The parameters of the loss function; the last is the loss.
    pub params: usize,
    /// The sizes that need an AdamW kernel, each once, in ascending order.
    pub kernels: Vec<u64>,
}

/// Numbers in ascending order, each once.
pub open spec fn ascending(v: Seq<u64>) -> bool {
    forall|i: int, j: int| 0 <= i < j < v.len() ==> v[i] < v[j]
}

/// Puts a number into its place, unless it is there.
fn insert(v: &mut Vec<u64>, x: u64)
    requires
        ascending(old(v)@),
    ensures
        ascending(final(v)@),
        forall|y: u64| #[trigger] final(v)@.contains(y) <==> old(v)@.contains(y) || y == x,
{
    let mut i: usize = 0;
    while i < v.len() && v[i] < x
        invariant
            i <= v@.len(),
            v@ == old(v)@,
            forall|j: int| 0 <= j < i ==> v@[j] < x,
        decreases v@.len() - i,
    {
        i = i + 1;
    }
    if i < v.len() && v[i] == x {
        assert(v@[i as int] == x);
        return;
    }
    let ghost before = v@;
    v.insert(i, x);
    proof {
        let after = v@;
        assert(after == before.insert(i as int, x));
        assert(after[i as int] == x);
        assert forall|y: u64| #[trigger] after.contains(y) <==> before.contains(y) || y == x by {
            if before.contains(y) {
                let k = choose|k: int| 0 <= k < before.len() && before[k] == y;
                if k < i {
                    assert(after[k] == y);
                } else {
                    assert(after[k + 1] == y);
                }
            }
            if after.contains(y) && y != x {
                let k = choose|k: int| 0 <= k < after.len() && after[k] == y;
                if k < i {
                    assert(before[k] == y);
                } else {
                    assert(before[k - 1] == y);
                }
            }
        }
    }
}

/// Whether one of the first `k` trained parameters is of size `n`.
pub open spec fn trained(wrt: Seq<usize>, lens: Seq<u64>, k: nat, n: u64) -> bool {
    exists|i: int| 0 <= i < k && n == lens[#[trigger] wrt[i] as int]
}

/// What stands in the way of a training, if anything: see [`train_plan`].
pub open spec fn obstacle(
    is_ptr: Option<Seq<bool>>,
    name: Seq<char>,
    requested: Seq<usize>,
    lens: Seq<u64>,
) -> Option<Seq<char>> {
    match is_ptr {
        None => Some(text::fill(grad::NO_FUNCTION@, seq![name])),
        Some(p) => match grad::wrt_of(p, requested, true) {
            Err(e) => Some(e),
            Ok(wrt) => if lens.len() != p.len() {
                Some(text::fill(SIZES@, seq![text::dec(lens.len()), text::dec(p.len())]))
            } else if lens.last() != 1 {
                Some(NOT_SCALAR@)
            } else if wrt.contains((p.len() - 1) as usize) {
                Some(LOSS_REQUESTED@)
            } else {
                None
            },
        },
    }
}

/// What is trained of the function `name`, whose buffers are told by `is_ptr`, `None` where there
/// is no such function. By convention the last parameter is the loss, a single number that is not
/// itself trained.
pub fn train_plan(
    is_ptr: Option<&[bool]>,
    name: &str,
    requested: &[usize],
    lens: &[u64],
    opt: options::TrainOpt,
) -> (r: Result<TrainPlan, String>)
    ensures
        ({
            let p = match is_ptr {
                Some(p) => Some(p@),
                None => None,
            };
            match r {
                Err(e) => obstacle(p, name@, requested@, lens@) == Some(e@),
                Ok(plan) => {
                    &&& obstacle(p, name@, requested@, lens@) is None
                    &&& grad::wrt_of(p->0, requested@, true) == Ok::<Seq<usize>, Seq<char>>(
                        plan.wrt@,
                    )
                    &&& plan.params == lens@.len()
                    &&& ascending(plan.kernels@)
                    &&& forall|n: u64| #[trigger]
                        plan.kernels@.contains(n) <==> opt == options::TrainOpt::AdamW && trained(
                            plan.wrt@,
                            lens@,
                            plan.wrt@.len(),
                            n,
                        )
                },
            }
        }),
{
    let is_ptr = match is_ptr {
        None => return Err(text::expand1(grad::NO_FUNCTION, name)),
        Some(p) => p,
    };
    let wrt = match grad::grad_wrt(is_ptr, requested, true) {
        Err(e) => return Err(e),
        Ok(wrt) => wrt,
    };
    let params: usize = is_ptr.len();
    proof {
        grad::law_gradients_are_of_distinct_buffers(is_ptr@, requested@, true);
        assert(wrt@[0] < is_ptr@.len());
    }
    if lens.len() != params {
        return Err(text::expand2(SIZES, &text::decimal(lens.len()), &text::decimal(params)));
    }
    let loss: usize = params - 1;
    if lens[loss] != 1 {
        return Err(String::from_str(NOT_SCALAR));
    }
    let mut requested_loss = false;
    for i in 0..wrt.len()
        invariant
            requested_loss == wrt@.take(i as int).contains(loss),
    {
        proof {
            assert(wrt@.take(i + 1) =~= wrt@.take(i as int).push(wrt@[i as int]));
            assert(wrt@.take(i + 1)[i as int] == wrt@[i as int]);
            if requested_loss {
                let k = choose|k: int| 0 <= k < i && wrt@.take(i as int)[k] == loss;
                assert(wrt@.take(i + 1)[k] == loss);
            }
        }
        if wrt[i] == loss {
            requested_loss = true;
        }
    }
    assert(wrt@.take(wrt@.len() as int) =~= wrt@);
    if requested_loss {
        return Err(String::from_str(LOSS_REQUESTED));
    }
    let mut kernels: Vec<u64> = Vec::new();
    if opt == options::TrainOpt::AdamW {
        for i in 0..wrt.len()
            invariant
                ascending(kernels@),
                forall|j: int| 0 <= j < wrt@.len() ==> (#[trigger] wrt@[j]) < lens@.len(),
                forall|n: u64| #[trigger]
                    kernels@.contains(n) <==> trained(wrt@, lens@, i as nat, n),
        {
            let ghost before = kernels@;
            insert(&mut kernels, lens[wrt[i]]);
            proof {
                let size = lens@[wrt@[i as int] as int];
                assert forall|n: u64| #[trigger] kernels@.contains(n) <==> trained(
                    wrt@,
                    lens@,
                    (i + 1) as nat,
                    n,
                ) by {
                    assert(kernels@.contains(n) <==> before.contains(n) || n == size);
                    assert(before.contains(n) <==> trained(wrt@, lens@, i as nat, n));
                }
            }
        }
    }
    Ok(TrainPlan { wrt, params, kernels })
}

/// A stage of a training.
#[derive(Clone, Copy, PartialEq, Eq, Debug, Structural)]
pub enum TrainAction {
    /// Run the gradient: it gives the loss so far, which is recorded, and a gradient of each weight.
    Gradient,
    /// Update a weight with its gradient, in the update of this number.
    Update { weight: usize, t: i32 },
    /// Run the function itself: it gives the last loss, which is recorded.
    Forward,
    Done,
}

/// Where a training stands: how many updates of all weights are over, and how far the next one is.
#[derive(Clone, Copy, Debug)]
pub struct TrainLoop {
    pub steps: usize,
    pub weights: usize,
    pub step: usize,
    /// 0 for the gradient, and `i + 1` for the update of weight `i`.
    pub stage: usize,
    pub over: bool,
}

impl TrainLoop {
    /// A stage is one of the gradient's and the weights'.
    pub open spec fn wf(self) -> bool {
        &&& self.step <= self.steps
        &&& self.stage <= self.weights
        &&& self.step == self.steps ==> self.stage == 0
    }

    /// The stage that is due.
    pub open spec fn due(self) -> TrainAction {
        if self.over {
            TrainAction::Done
        } else if self.step == self.steps {
            TrainAction::Forward
        } else if self.stage == 0 {
            TrainAction::Gradient
        } else {
            TrainAction::Update { weight: (self.stage - 1) as usize, t: (self.step + 1) as i32 }
        }
    }

    /// The training after that stage.
    pub open spec fn after(self) -> TrainLoop {
        if self.over {
            self
        } else if self.step == self.steps {
            TrainLoop { over: true, ..self }
        } else if self.stage < self.weights {
            TrainLoop { stage: (self.stage + 1) as usize, ..self }
        } else {
            TrainLoop { step: (self.step + 1) as usize, stage: 0, ..self }
        }
    }

    /// A training that has yet to start.
    pub open spec fn at_start(steps: usize, weights: usize) -> TrainLoop {
        TrainLoop { steps, weights, step: 0, stage: 0, over: false }
    }

    /// See [`TrainLoop::at_start`].
    pub fn new(steps: usize, weights: usize) -> (r: TrainLoop)
        ensures
            r.wf(),
            r == TrainLoop::at_start(steps, weights),
    {
        TrainLoop { steps, weights, step: 0, stage: 0, over: false }
    }

    /// The next stage.
    pub fn advance(&mut self) -> (r: TrainAction)
        requires
            old(self).wf(),
        ensures
            final(self).wf(),
            r == old(self).due(),
            *final(self) == old(self).after(),
    {
        if self.over {
            return TrainAction::Done;
        }
        if self.step == self.steps {
            self.over = true;
            return TrainAction::Forward;
        }
        let stage = self.stage;
        let t = (self.step + 1) as i32;
        if stage < self.weights {
            self.stage = stage + 1;
        } else {
            self.step = self.step + 1;
            self.stage = 0;
        }
        if stage == 0 {
            TrainAction::Gradient
        } else {
            TrainAction::Update { weight: stage - 1, t }
        }
    }

    /// How much of a training is left.
    pub open spec fn left(self) -> nat {
        if self.over {
            0
        } else {
            ((self.steps - self.step) * (self.weights + 1) - self.stage + 1) as nat
        }
    }

    /// The losses that are recorded from here on.
    pub open spec fn losses(self) -> nat
        decreases self.left(),
        when self.wf()
    {
        proof {
            self.lemma_left();
        }
        if self.over {
            0
        } else {
            (if self.due() == TrainAction::Gradient || self.due() == TrainAction::Forward {
                1nat
            } else {
                0nat
            }) + self.after().losses()
        }
    }

    /// The updates of weights from here on.
    pub open spec fn updates(self) -> nat
        decreases self.left(),
        when self.wf()
    {
        proof {
            self.lemma_left();
        }
        if self.over {
            0
        } else {
            (if self.due() is Update {
                1nat
            } else {
                0nat
            }) + self.after().updates()
        }
    }

    /// Every stage leaves less.
    pub proof fn lemma_left(self)
        requires
            self.wf(),
        ensures
            self.after().wf(),
            !self.over ==> self.after().left() < self.left(),
    {
        if !self.over {
            let (n, w) = (self.steps - self.step, self.weights + 1);
            assert((n - 1) * w == n * w - w) by (nonlinear_arith);
            assert(n > 0 ==> n * w >= w) by (nonlinear_arith)
                requires
                    w >= 0,
            ;
            assert(n == 0 ==> n * w == 0) by (nonlinear_arith);
        }
    }

    /// What is left is recorded and updated.
    proof fn lemma_losses(self)
        requires
            self.wf(),
            !self.over,
        ensures
            self.losses() == self.steps - self.step + 1 - if self.stage > 0 {
                1int
            } else {
                0int
            },
            self.updates() == (self.steps - self.step) * self.weights - if self.stage > 0 {
                self.stage - 1
            } else {
                0int
            },
        decreases self.left(),
    {
        self.lemma_left();
        let (n, w) = (self.steps - self.step, self.weights as int);
        assert((n - 1) * w == n * w - w) by (nonlinear_arith);
        assert(n == 0 ==> n * w == 0) by (nonlinear_arith);
        if self.step < self.steps {
            self.after().lemma_losses();
        } else {
            let end = self.after();
            assert(end.over);
            assert(end.losses() == 0);
            assert(end.updates() == 0);
        }
    }
}

/// A training of so many steps records one loss more than it has steps, and updates each weight once
/// a step.
pub proof fn law_a_training_records_one_loss_more(steps: usize, weights: usize)
    ensures
        TrainLoop::at_start(steps, weights).losses() == steps + 1,
        TrainLoop::at_start(steps, weights).updates() == steps * weights,
{
    TrainLoop::at_start(steps, weights).lemma_losses();
}

impl TrainLoop {
    /// The training after `k` stages.
    pub open spec fn after_stages(self, k: nat) -> TrainLoop
        decreases k,
    {
        if k == 0 {
            self
        } else {
            self.after_stages((k - 1) as nat).after()
        }
    }

    /// Two trainings that differ in their steps alone are at the same place, up to the last step of
    /// the shorter one.
    proof fn lemma_in_step(steps: usize, more: usize, weights: usize, k: nat)
        requires
            steps <= more,
            k <= steps * (weights + 1),
        ensures
            ({
                let short = TrainLoop::at_start(steps, weights).after_stages(k);
                let long = TrainLoop::at_start(more, weights).after_stages(k);
                &&& short.wf()
                &&& !short.over
                &&& short.steps == steps
                &&& short.weights == weights
                &&& short.left() == steps * (weights + 1) + 1 - k
                &&& long == (TrainLoop { steps: more, ..short })
            }),
        decreases k,
    {
        if k > 0 {
            TrainLoop::lemma_in_step(steps, more, weights, (k - 1) as nat);
            let short = TrainLoop::at_start(steps, weights).after_stages((k - 1) as nat);
            let (n, w) = (short.steps - short.step, short.weights + 1);
            assert((n - 1) * w == n * w - w) by (nonlinear_arith);
            assert(n == 0 ==> n * w == 0) by (nonlinear_arith);
            short.lemma_left();
        }
    }
}

/// A longer training begins as a shorter one does: up to the last loss of the shorter one their
/// stages are the same, one by one. That loss comes of the function itself in the shorter one, and
/// in the longer one of the gradient, with which it goes on.
pub proof fn law_a_longer_training_begins_alike(
    steps: usize,
    more: usize,
    weights: usize,
    k: nat,
)
    requires
        steps <= more,
    ensures
        ({
            let short = TrainLoop::at_start(steps, weights);
            let long = TrainLoop::at_start(more, weights);
            let last = (steps * (weights + 1)) as nat;
            &&& k < last ==> short.after_stages(k).due() == long.after_stages(k).due()
            &&& short.after_stages(last).due() == TrainAction::Forward
            &&& steps < more ==> long.after_stages(last).due() == TrainAction::Gradient
        }),
{
    let last = (steps * (weights + 1)) as nat;
    assert(steps * (weights + 1) >= 0) by (nonlinear_arith);
    TrainLoop::lemma_in_step(steps, more, weights, last);
    let end = TrainLoop::at_start(steps, weights).after_stages(last);
    let (n, w) = (end.steps - end.step, end.weights + 1);
    assert(n > 0 ==> n * w >= w) by (nonlinear_arith)
        requires
            w >= 0,
    ;
    assert(end.left() == 1);
    assert(end.step == steps);
    if k < last {
        TrainLoop::lemma_in_step(steps, more, weights, k);
        let short = TrainLoop::at_start(steps, weights).after_stages(k);
        if short.step == steps {
            assert(0 * (weights + 1) == 0);
        }
    }
}

/// A training goes through its weights step by step: in each step the gradient is run and then each
/// weight is updated, in order and once, all with the number of the step; the steps follow each
/// other, then comes the last loss, and then nothing.
pub proof fn law_each_weight_is_updated_once_a_step(
    steps: usize,
    weights: usize,
    s: nat,
    i: nat,
)
    requires
        s < steps,
        i < weights,
    ensures
        ({
            let start = TrainLoop::at_start(steps, weights);
            let stage = s * (weights as nat + 1);
            &&& start.after_stages(stage).due() == TrainAction::Gradient
            &&& start.after_stages(stage + 1 + i).due() == (TrainAction::Update {
                weight: i as usize,
                t: (s + 1) as i32,
            })
        }),
{
    TrainLoop::lemma_stage(steps, weights, s, 0);
    TrainLoop::lemma_stage(steps, weights, s, i + 1);
}

/// Behind its last step a training records the last loss and is over, however long it is asked.
pub proof fn law_a_training_ends(steps: usize, weights: usize, k: nat)
    ensures
        ({
            let start = TrainLoop::at_start(steps, weights);
            let last = steps as nat * (weights as nat + 1);
            &&& start.after_stages(last).due() == TrainAction::Forward
            &&& k > last ==> start.after_stages(k).due() == TrainAction::Done
            &&& k < last ==> start.after_stages(k).due() is Gradient || start.after_stages(k).due()
                is Update
        }),
    decreases k,
{
    let start = TrainLoop::at_start(steps, weights);
    let last = steps as nat * (weights as nat + 1);
    TrainLoop::lemma_stage(steps, weights, steps as nat, 0);
    if k > last {
        if k > last + 1 {
            law_a_training_ends(steps, weights, (k - 1) as nat);
            let before = start.after_stages((k - 1) as nat);
            if !before.over {
                assert(before.due() != TrainAction::Done);
            }
        }
    } else if k < last {
        let w = weights as nat + 1;
        let (s, r) = (k / w, k % w);
        assert(k == s * w + r && s < steps) by (nonlinear_arith)
            requires
                w >= 1,
                s == k / w,
                r == k % w,
                k < steps * w,
        ;
        TrainLoop::lemma_stage(steps, weights, s, r);
    }
}

impl TrainLoop {
    /// Where a training stands after whole steps and so many stages of the next.
    proof fn lemma_stage(steps: usize, weights: usize, s: nat, r: nat)
        requires
            s < steps && r <= weights || s == steps && r == 0,
        ensures
            TrainLoop::at_start(steps, weights).after_stages(s * (weights as nat + 1) + r) == (
            TrainLoop { steps, weights, step: s as usize, stage: r as usize, over: false }),
        decreases s, r,
    {
        let w = weights as nat + 1;
        let k = s * w + r;
        if r > 0 {
            TrainLoop::lemma_stage(steps, weights, s, (r - 1) as nat);
            assert((k - 1) as nat == s * w + (r - 1) as nat);
        } else if s > 0 {
            TrainLoop::lemma_stage(steps, weights, (s - 1) as nat, weights as nat);
            assert(k == (s - 1) * w + w) by (nonlinear_arith)
                requires
                    k == s * w,
            ;
            assert((k - 1) as nat == (s - 1) as nat * w + weights as nat);
        } else {
            assert(0 * w == 0);
        }
    }
}

/// The seed behind a seed.
pub open spec fn next_seed(seed: u64) -> u64 {
    seed.wrapping_mul(6364136223846793005).wrapping_add(1442695040888963407)
}

/// The seed behind `n` numbers.
pub open spec fn seed_after(seed: u64, n: nat) -> u64
    decreases n,
{
    if n == 0 {
        seed
    } else {
        next_seed(seed_after(seed, (n - 1) as nat))
    }
}

/// The raw numbers that fill a buffer of `n`, the upper 31 bits of the seeds behind `seed`. The
/// numbers of a buffer depend on the seed and their place alone.
pub fn train_rand(seed: &mut u64, n: usize) -> (r: Vec<u32>)
    ensures
        *final(seed) == seed_after(*old(seed), n as nat),
        r@.len() == n,
        forall|i: int|
            0 <= i < n ==> #[trigger] r@[i] == (seed_after(*old(seed), (i + 1) as nat) >> 33)
                as u32,
{
    let mut r: Vec<u32> = Vec::new();
    for i in 0..n
        invariant
            *seed == seed_after(*old(seed), i as nat),
            r@.len() == i,
            forall|j: int|
                0 <= j < i ==> #[trigger] r@[j] == (seed_after(*old(seed), (j + 1) as nat) >> 33)
                    as u32,
    {
        *seed = seed.wrapping_mul(6364136223846793005).wrapping_add(1442695040888963407);
        r.push((*seed >> 33) as u32);
    }
    r
}

pub const HEADER: &'static str = "train: #0 step(s), lr=#1, optimizer=#2
";

pub const STEP: &'static str = "step #0#1: loss #2
";

pub const SUMMARY: &'static str = "loss #0 -> #1  (#2x reduction)
";

/// The spaces before a number that fill it up to four places.
pub open spec fn margin(n: nat) -> Seq<char> {
    if n < 10 {
        "   "@
    } else if n < 100 {
        "  "@
    } else if n < 1000 {
        " "@
    } else {
        ""@
    }
}

/// See [`margin`].
fn margin_of(n: usize) -> (r: &'static str)
    ensures
        r@ == margin(n as nat),
{
    if n < 10 {
        "   "
    } else if n < 100 {
        "  "
    } else if n < 1000 {
        " "
    } else {
        ""
    }
}

/// A line for each of the first `k` losses.
pub open spec fn step_lines(losses: Seq<String>, k: nat) -> Seq<char>
    decreases k,
{
    if k == 0 {
        Seq::empty()
    } else {
        let i = (k - 1) as nat;
        step_lines(losses, i) + text::fill(
            STEP@,
            seq![margin(i), text::dec(i), losses[k - 1]@],
        )
    }
}

/// The report of a training: see [`train_report`].
pub open spec fn report(
    lr: Seq<char>,
    opt: options::TrainOpt,
    losses: Seq<String>,
    ratio: Seq<char>,
) -> Seq<char> {
    let steps = if losses.len() == 0 {
        0
    } else {
        (losses.len() - 1) as nat
    };
    let lines = text::fill(HEADER@, seq![text::dec(steps), lr, opt.shown()]) + step_lines(
        losses,
        losses.len(),
    );
    if losses.len() == 0 {
        lines
    } else {
        lines + text::fill(SUMMARY@, seq![losses.first()@, losses.last()@, ratio])
    }
}

/// The report of a training: a header, a line for each loss, and the first loss against the last.
/// The numbers come as text: the rate, the losses with six decimals, and how often the last loss
/// goes into the first.
pub fn train_report(lr: &str, opt: options::TrainOpt, losses: &[String], ratio: &str) -> (r: String)
    ensures
        r@ == report(lr@, opt, losses@, ratio@),
{
    let n: usize = losses.len();
    let steps: usize = if n == 0 {
        0
    } else {
        n - 1
    };
    let mut lines = String::new();
    for i in 0..n
        invariant
            n == losses@.len(),
            lines@ == step_lines(losses@, i as nat),
    {
        lines.append(&text::expand3(STEP, margin_of(i), &text::decimal(i), &losses[i]));
    }
    let mut r = text::expand3(HEADER, &text::decimal(steps), lr, opt.name());
    r.append(&lines);
    if n > 0 {
        r.append(&text::expand3(SUMMARY, &losses[0], &losses[n - 1], ratio));
    }
    r
}

/// A training is possible exactly where there is such a function, what is asked for can be
/// differentiated by, every parameter has a size, the last one is a single number, and that one, the
/// loss, is not asked for.
pub proof fn law_what_can_be_trained(
    is_ptr: Option<Seq<bool>>,
    name: Seq<char>,
    requested: Seq<usize>,
    lens: Seq<u64>,
)
    requires
        is_ptr matches Some(p) ==> p.len() <= usize::MAX,
    ensures
        obstacle(is_ptr, name, requested, lens) is None <==> {
            &&& is_ptr matches Some(p) && {
                &&& lens.len() == p.len()
                &&& lens.len() > 0
                &&& lens[lens.len() - 1] == 1
                &&& if requested.len() == 0 {
                    exists|i: int| 0 <= i < p.len() - 1 && #[trigger] p[i]
                } else {
                    &&& requested.no_duplicates()
                    &&& forall|j: int|
                        0 <= j < requested.len() ==> (#[trigger] requested[j]) < p.len() - 1
                            && p[requested[j] as int]
                }
            }
        },
{
    if let Some(p) = is_ptr {
        grad::law_which_requests_are_taken(p, requested, true);
        if grad::wrt_of(p, requested, true) is Ok {
            grad::law_gradients_are_of_distinct_buffers(p, requested, true);
            let w = grad::wrt_of(p, requested, true)->Ok_0;
            assert(w[0] < p.len());
            if requested.len() > 0 && !requested.contains((p.len() - 1) as usize) {
                assert forall|j: int| 0 <= j < requested.len() implies (#[trigger] requested[j])
                    < p.len() - 1 && p[requested[j] as int] by {
                    assert(w[j] < p.len() && p[w[j] as int]);
                }
            }
            if requested.len() > 0 && requested.contains((p.len() - 1) as usize) {
                let j = choose|j: int|
                    0 <= j < requested.len() && requested[j] == (p.len() - 1) as usize;
                assert(!(requested[j] < p.len() - 1));
            }
        }
    }
}

/// The line of one loss.
pub open spec fn loss_line(i: nat, loss: Seq<char>) -> Seq<char> {
    seq!['s', 't', 'e', 'p', ' '] + margin(i) + text::dec(i) + seq![
        ':',
        ' ',
        'l',
        'o',
        's',
        's',
        ' ',
    ] + loss + seq!['\n']
}

/// The line, filled in.
proof fn lemma_loss_line(i: nat, loss: Seq<char>)
    ensures
        text::fill(STEP@, seq![margin(i), text::dec(i), loss]) == loss_line(i, loss),
{
    let args = seq![margin(i), text::dec(i), loss];
    let (a, b, c) = ("step "@, ": loss "@, "\n"@);
    reveal_strlit("step #0#1: loss #2\n");
    reveal_strlit("step ");
    reveal_strlit(": loss ");
    reveal_strlit("\n");
    let (x, y, z) = (seq!['#', '0'], seq!['#', '1'], seq!['#', '2']);
    assert(STEP@ =~= a + x + y + b + z + c);
    readings::lemma_hole('0', args);
    readings::lemma_hole('1', args);
    readings::lemma_hole('2', args);
    frames::lemma_fill_plain(a, args);
    frames::lemma_fill_plain(b, args);
    frames::lemma_fill_plain(c, args);
    frames::lemma_fill_add(a, x, args);
    frames::lemma_fill_add(a + x, y, args);
    frames::lemma_fill_add(a + x + y, b, args);
    frames::lemma_fill_add(a + x + y + b, z, args);
    frames::lemma_fill_add(a + x + y + b + z, c, args);
    assert(text::fill(STEP@, args) =~= loss_line(i, loss));
}

/// A report tells every loss of a training in a line of its own, with its number, and none twice: the
/// lines of the first losses come before those of the later ones.
pub proof fn law_a_report_tells_every_loss(losses: Seq<String>, k: nat, i: int)
    requires
        0 <= i < k <= losses.len(),
    ensures
        exists|b: Seq<char>|
            #[trigger] shown::joined(
                step_lines(losses, k),
                step_lines(losses, i as nat),
                loss_line(i as nat, losses[i]@),
                b,
            ),
    decreases k,
{
    lemma_loss_line((k - 1) as nat, losses[k - 1]@);
    let last = loss_line((k - 1) as nat, losses[k - 1]@);
    let before = step_lines(losses, (k - 1) as nat);
    let now = step_lines(losses, k);
    assert(now == before + last);
    if i == k - 1 {
        assert(now =~= before + last + Seq::<char>::empty());
        assert(shown::joined(now, step_lines(losses, i as nat), last, Seq::empty()));
    } else {
        law_a_report_tells_every_loss(losses, (k - 1) as nat, i);
        let line = loss_line(i as nat, losses[i]@);
        let b = choose|b: Seq<char>|
            #[trigger] shown::joined(before, step_lines(losses, i as nat), line, b);
        assert(now =~= step_lines(losses, i as nat) + line + (b + last));
        assert(shown::joined(now, step_lines(losses, i as nat), line, b + last));
    }
}

/// A number with its margin fills four places, unless it is longer.
pub proof fn law_numbers_are_aligned(n: nat)
    ensures
        n < 10000 ==> margin(n).len() + text::dec(n).len() == 4,
        n >= 1000 ==> margin(n).len() == 0,
        forall|i: int| 0 <= i < margin(n).len() ==> #[trigger] margin(n)[i] == ' ',
{
    reveal_with_fuel(text::dec, 5);
    reveal_strlit("   ");
    reveal_strlit("  ");
    reveal_strlit(" ");
    reveal_strlit("");
}

} // verus!
