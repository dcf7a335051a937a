use vstd::prelude::*;

verus! {

/// Attempts the calibration loop makes before it gives up.
pub const TRAINING_MAX_ATTEMPTS: u32 = 100;
/// Largest difference allowed between two sampled lane results.
pub const TRAINING_TOLERANCE: usize = 4;

/// `|a - b|`.
pub open spec fn dist(a: usize, b: usize) -> int {
    if a >= b {
        a - b
    } else {
        b - a
    }
}

/// Bit 7 of a training result flags an uncalibrated or faulty lane.
pub open spec fn fault_flagged(v: usize) -> bool {
    v & 0x80 != 0
}

/// The convergence predicate over one round of sampled lane results: the first
/// result carries no fault flag and every two results differ by at most the
/// tolerance.
pub open spec fn converged(s: Seq<usize>) -> bool {
    &&& s.len() > 0
    &&& !fault_flagged(s[0])
    &&& forall|i: int, j: int|
        0 <= i < s.len() && 0 <= j < s.len() ==> #[trigger] dist(s[i], s[j])
            <= TRAINING_TOLERANCE
}

pub fn abs_diff(a: usize, b: usize) -> (r: usize)
    ensures
        r == dist(a, b),
{
    if a > b {
        a - b
    } else {
        b - a
    }
}

/// Evaluates the convergence predicate on one round of samples.
pub fn samples_converged(samples: &[usize]) -> (r: bool)
    ensures
        r == converged(samples@),
{
    let n = samples.len();
    if n == 0 || samples[0] & 0x80 != 0 {
        return false;
    }
    let mut i: usize = 0;
    while i < n
        invariant
            n == samples@.len(),
            i <= n,
            forall|a: int, b: int|
                0 <= a < i && 0 <= b < n ==> #[trigger] dist(samples@[a], samples@[b])
                    <= TRAINING_TOLERANCE,
        decreases n - i,
    {
        let mut j: usize = 0;
        while j < n
            invariant
                n == samples@.len(),
                i < n,
                j <= n,
                forall|a: int, b: int|
                    0 <= a < i && 0 <= b < n ==> #[trigger] dist(samples@[a], samples@[b])
                        <= TRAINING_TOLERANCE,
                forall|b: int| 0 <= b < j ==> #[trigger] dist(samples@[i as int], samples@[b])
                    <= TRAINING_TOLERANCE,
            decreases n - j,
        {
            if abs_diff(samples[i], samples[j]) > TRAINING_TOLERANCE {
                return false;
            }
            j += 1;
        }
        i += 1;
    }
    true
}

/// With four lanes the predicate is the six pairwise checks and the flag of the
/// first lane.
pub proof fn lemma_four_lane_predicate(fb: usize, fc: usize, fd: usize, fe: usize)
    ensures
        converged(seq![fb, fc, fd, fe]) == (dist(fb, fc) <= 4 && dist(fb, fd) <= 4 && dist(
            fb,
            fe,
        ) <= 4 && dist(fc, fd) <= 4 && dist(fc, fe) <= 4 && dist(fd, fe) <= 4 && fb & 0x80
            == 0),
{
    let s = seq![fb, fc, fd, fe];
    if dist(fb, fc) <= 4 && dist(fb, fd) <= 4 && dist(fb, fe) <= 4 && dist(fc, fd) <= 4 && dist(
        fc,
        fe,
    ) <= 4 && dist(fd, fe) <= 4 && fb & 0x80 == 0 {
        assert forall|i: int, j: int|
            0 <= i < s.len() && 0 <= j < s.len() implies #[trigger] dist(s[i], s[j])
            <= TRAINING_TOLERANCE by {
            assert(0 <= i < 4 && 0 <= j < 4);
        }
    }
    if converged(s) {
        assert(dist(s[0], s[1]) <= 4);
        assert(dist(s[0], s[2]) <= 4);
        assert(dist(s[0], s[3]) <= 4);
        assert(dist(s[1], s[2]) <= 4);
        assert(dist(s[1], s[3]) <= 4);
        assert(dist(s[2], s[3]) <= 4);
    }
}

/// With two lanes the predicate is one difference check and the flag of the
/// first lane.
pub proof fn lemma_two_lane_predicate(fb: usize, fc: usize)
    ensures
        converged(seq![fb, fc]) == (dist(fb, fc) <= 4 && fb & 0x80 == 0),
{
    let s = seq![fb, fc];
    if dist(fb, fc) <= 4 && fb & 0x80 == 0 {
        assert forall|i: int, j: int|
            0 <= i < s.len() && 0 <= j < s.len() implies #[trigger] dist(s[i], s[j])
            <= TRAINING_TOLERANCE by {
            assert(0 <= i < 2 && 0 <= j < 2);
        }
    }
    if converged(s) {
        assert(dist(s[0], s[1]) <= 4);
    }
}

/// Where the calibration loop stands.
#[derive(Clone, Copy, Debug, PartialEq, Eq, Structural)]
pub enum TrainingStatus {
    /// No attempt has converged yet and attempts remain.
    Running,
    /// The last recorded attempt met the convergence predicate.
    Converged,
    /// Every allowed attempt was made and none converged.
    Exhausted,
}

/// The bounded calibration loop as a state machine: each call of `record`
/// takes the lane results sampled after one training pulse.
#[derive(Clone, Copy, Debug)]
pub struct TrainingEngine {
    lanes: usize,
    attempts: u32,
    status: TrainingStatus,
}

impl TrainingEngine {
    #[verifier::type_invariant]
    closed spec fn consistent(self) -> bool {
        self.state_ok()
    }

    /// The states the loop can reach: two or four lanes, at most the allowed
    /// number of attempts, and still running only while attempts remain.
    pub open spec fn state_ok(self) -> bool {
        &&& (self.lanes() == 2 || self.lanes() == 4)
        &&& self.attempts() <= TRAINING_MAX_ATTEMPTS
        &&& self.status() == TrainingStatus::Running ==> self.attempts() < TRAINING_MAX_ATTEMPTS
        &&& self.status() == TrainingStatus::Exhausted ==> self.attempts()
            == TRAINING_MAX_ATTEMPTS
        &&& self.status() == TrainingStatus::Converged ==> self.attempts() >= 1
    }

    pub closed spec fn lanes(self) -> usize {
        self.lanes
    }

    pub closed spec fn attempts(self) -> u32 {
        self.attempts
    }

    pub closed spec fn status(self) -> TrainingStatus {
        self.status
    }

    /// The engine after one more round of samples; a finished loop ignores them.
    pub closed spec fn spec_record(self, samples: Seq<usize>) -> TrainingEngine {
        if self.status != TrainingStatus::Running {
            self
        } else {
            let attempts = (self.attempts + 1) as u32;
            TrainingEngine {
                lanes: self.lanes,
                attempts,
                status: if converged(samples) {
                    TrainingStatus::Converged
                } else if attempts >= TRAINING_MAX_ATTEMPTS {
                    TrainingStatus::Exhausted
                } else {
                    TrainingStatus::Running
                },
            }
        }
    }

    /// A loop over `lanes` lanes that has made no attempt yet.
    pub closed spec fn fresh(lanes: usize) -> TrainingEngine {
        TrainingEngine { lanes, attempts: 0, status: TrainingStatus::Running }
    }

    /// A loop over `lanes` lanes that has made no attempt yet.
    pub fn new(lanes: usize) -> (r: Self)
        requires
            lanes == 2 || lanes == 4,
        ensures
            r == Self::fresh(lanes),
            r.lanes() == lanes,
            r.attempts() == 0,
            r.status() == TrainingStatus::Running,
    {
        Self { lanes, attempts: 0, status: TrainingStatus::Running }
    }

    pub fn lane_count(&self) -> (r: usize)
        ensures
            r == self.lanes(),
            r == 2 || r == 4,
    {
        proof {
            use_type_invariant(self);
        }
        self.lanes
    }

    pub fn attempt_count(&self) -> (r: u32)
        ensures
            r == self.attempts(),
            r <= TRAINING_MAX_ATTEMPTS,
    {
        proof {
            use_type_invariant(self);
        }
        self.attempts
    }

    pub fn current_status(&self) -> (r: TrainingStatus)
        ensures
            r == self.status(),
    {
        self.status
    }

    /// Records the results sampled after one training pulse and returns the
    /// new status: converged when they meet the predicate, exhausted when that
    /// was the last allowed attempt, running otherwise. Once the loop has
    /// finished, further samples change nothing.
    pub fn record(&mut self, samples: &[usize]) -> (r: TrainingStatus)
        requires
            samples@.len() == old(self).lanes(),
        ensures
            *final(self) == old(self).spec_record(samples@),
            r == final(self).status(),
            old(self).status() == TrainingStatus::Running ==> {
                &&& final(self).attempts() == old(self).attempts() + 1
                &&& final(self).lanes() == old(self).lanes()
                &&& r == if converged(samples@) {
                    TrainingStatus::Converged
                } else if old(self).attempts() + 1 == TRAINING_MAX_ATTEMPTS {
                    TrainingStatus::Exhausted
                } else {
                    TrainingStatus::Running
                }
            },
            old(self).status() != TrainingStatus::Running ==> *final(self) == *old(self),
    {
        proof {
            use_type_invariant(&*self);
        }
        if self.status == TrainingStatus::Running {
            let attempts = self.attempts + 1;
            let status = if samples_converged(samples) {
                TrainingStatus::Converged
            } else if attempts >= TRAINING_MAX_ATTEMPTS {
                TrainingStatus::Exhausted
            } else {
                TrainingStatus::Running
            };
            *self = TrainingEngine { lanes: self.lanes, attempts, status };
        }
        self.status
    }
}

/// The engine after the rounds of samples, in order, were recorded.
pub open spec fn run_rounds(e: TrainingEngine, rounds: Seq<Seq<usize>>) -> TrainingEngine
    decreases rounds.len(),
{
    if rounds.len() == 0 {
        e
    } else {
        run_rounds(e.spec_record(rounds[0]), rounds.drop_first())
    }
}

proof fn lemma_run_rounds(e: TrainingEngine, rounds: Seq<Seq<usize>>)
    requires
        e.state_ok(),
    ensures
        run_rounds(e, rounds).state_ok(),
        run_rounds(e, rounds).lanes() == e.lanes(),
        e.status() != TrainingStatus::Running ==> run_rounds(e, rounds) == e,
        run_rounds(e, rounds).status() == TrainingStatus::Running ==> run_rounds(
            e,
            rounds,
        ).attempts() == e.attempts() + rounds.len(),
        e.status() == TrainingStatus::Running && (forall|i: int|
            0 <= i < rounds.len() ==> !converged(#[trigger] rounds[i])) ==> run_rounds(
            e,
            rounds,
        ).status() != TrainingStatus::Converged,
    decreases rounds.len(),
{
    if rounds.len() > 0 {
        let next = e.spec_record(rounds[0]);
        let rest = rounds.drop_first();
        lemma_run_rounds(next, rest);
        if e.status() == TrainingStatus::Running && (forall|i: int|
            0 <= i < rounds.len() ==> !converged(#[trigger] rounds[i])) {
            assert(!converged(rounds[0]));
            assert forall|i: int| 0 <= i < rest.len() implies !converged(#[trigger] rest[i]) by {
                assert(rest[i] == rounds[i + 1]);
            }
        }
    }
}

/// The calibration loop always ends: however the samples turn out, a fresh
/// engine has stopped running after at most `TRAINING_MAX_ATTEMPTS` rounds, and
/// never counts more attempts than that. When no round converges it ends
/// exhausted after exactly `TRAINING_MAX_ATTEMPTS` attempts.
pub proof fn lemma_training_terminates(lanes: usize, rounds: Seq<Seq<usize>>)
    requires
        lanes == 2 || lanes == 4,
        rounds.len() >= TRAINING_MAX_ATTEMPTS,
    ensures
        ({
            let end = run_rounds(TrainingEngine::fresh(lanes), rounds);
            &&& end.status() != TrainingStatus::Running
            &&& end.attempts() <= TRAINING_MAX_ATTEMPTS
            &&& (forall|i: int| 0 <= i < rounds.len() ==> !converged(#[trigger] rounds[i]))
                ==> end.status() == TrainingStatus::Exhausted && end.attempts()
                == TRAINING_MAX_ATTEMPTS
        }),
{
    lemma_run_rounds(TrainingEngine::fresh(lanes), rounds);
}

} // verus!
