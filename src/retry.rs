use crate::errors::{converts_to, RemoteError, RemoteErrorKind, VssError};
use rand::Rng;
use vstd::prelude::*;

verus! {

/// The backoff before the retry that follows the `n`-th failed attempt: it starts at
/// `base` and doubles with each attempt, plus `base` (that is, `base * (2^n - 1)`).
pub open spec fn backoff(base: int, n: nat) -> int
    decreases n,
{
    if n == 0 {
        0
    } else {
        2 * backoff(base, (n - 1) as nat) + base
    }
}

/// A duration in microseconds, capped at the largest that a `u64` holds.
pub open spec fn saturate(x: int) -> u64 {
    if x > u64::MAX {
        u64::MAX
    } else if x < 0 {
        0
    } else {
        x as u64
    }
}

/// The backoff never shrinks as attempts accumulate.
pub proof fn lemma_backoff_monotonic(base: int, m: nat, n: nat)
    requires
        base >= 0,
        m <= n,
    ensures
        0 <= backoff(base, m) <= backoff(base, n),
    decreases n,
{
    if n > m {
        lemma_backoff_monotonic(base, m, (n - 1) as nat);
    } else if n > 0 {
        lemma_backoff_monotonic(base, 0, (n - 1) as nat);
    }
}

/// How remote calls are retried: exponential backoff from `initial_delay_us`, at most
/// `max_attempts` attempts, a budget of `max_total_delay_us` for the delays summed, a
/// random jitter below `max_jitter_us` added to each delay, and no retry at all for the
/// error classes in `non_retryable`. All durations are in microseconds.
pub struct RetryPolicy {
    pub initial_delay_us: u64,
    pub max_attempts: u32,
    pub max_total_delay_us: u64,
    pub max_jitter_us: u64,
    pub non_retryable: Vec<RemoteErrorKind>,
}

/// Where a retry loop stands: how many attempts have failed, and how long it has
/// waited between them.
#[derive(PartialEq, Eq, Structural, Clone, Copy, Debug)]
pub struct RetryState {
    pub attempts_made: u32,
    pub accumulated_delay_us: u64,
}

/// What a retry loop does after a failed attempt.
#[derive(PartialEq, Eq, Structural, Clone, Copy, Debug)]
pub enum RetryStep {
    /// Wait `delay_us`, then attempt again from state `next`.
    Wait { delay_us: u64, next: RetryState },
    /// Surface the last error to the caller.
    GiveUp,
}

impl RetryState {
    /// The state of a loop before its first attempt.
    pub fn initial() -> (r: RetryState)
        ensures
            r.attempts_made == 0,
            r.accumulated_delay_us == 0,
    {
        RetryState { attempts_made: 0, accumulated_delay_us: 0 }
    }
}

/// `attempts_made` after one more failure.
pub open spec fn after_failure(attempts_made: u32) -> u32 {
    if attempts_made < u32::MAX {
        (attempts_made + 1) as u32
    } else {
        u32::MAX
    }
}

/// Relies on rand's thread-local generator: `gen_range(0..bound)` returns a value
/// below `bound`.
#[verifier::external_body]
fn random_below(bound: u64) -> (r: u64)
    requires
        bound > 0,
    ensures
        r < bound,
{
    rand::thread_rng().gen_range(0..bound)
}

/// Computes `backoff(base, n)` when it is at most `cap`.
fn backoff_within(base: u64, n: u32, cap: u64) -> (r: Option<u64>)
    ensures
        match r {
            Some(d) => d == backoff(base as int, n as nat) && d <= cap,
            None => backoff(base as int, n as nat) > cap,
        },
{
    let mut d: u64 = 0;
    let mut i: u32 = 0;
    while i < n
        invariant
            i <= n,
            d == backoff(base as int, i as nat),
            d <= cap,
        decreases n - i,
    {
        let next: u128 = 2 * (d as u128) + base as u128;
        if next > cap as u128 {
            proof {
                lemma_backoff_monotonic(base as int, (i + 1) as nat, n as nat);
            }
            return None;
        }
        d = next as u64;
        i = i + 1;
    }
    Some(d)
}

impl RetryPolicy {
    /// The production policy: 10 ms initial delay, 10 attempts, 15 s of delays in all,
    /// 10 ms of jitter, and no retry on a missing key, a malformed request or a conflict.
    pub fn default_policy() -> (r: RetryPolicy)
        ensures
            r.is_default(),
    {
        RetryPolicy {
            initial_delay_us: 10_000,
            max_attempts: 10,
            max_total_delay_us: 15_000_000,
            max_jitter_us: 10_000,
            non_retryable: vec![
                RemoteErrorKind::NoSuchKey,
                RemoteErrorKind::InvalidRequest,
                RemoteErrorKind::Conflict,
            ],
        }
    }

    /// The same policy with another cap on the number of attempts.
    pub fn with_max_attempts(self, max_attempts: u32) -> (r: RetryPolicy)
        ensures
            r.max_attempts == max_attempts,
            r.initial_delay_us == self.initial_delay_us,
            r.max_total_delay_us == self.max_total_delay_us,
            r.max_jitter_us == self.max_jitter_us,
            r.non_retryable@ == self.non_retryable@,
    {
        RetryPolicy { max_attempts, ..self }
    }

    /// The production policy's settings.
    pub open spec fn is_default(&self) -> bool {
        &&& self.initial_delay_us == 10_000
        &&& self.max_attempts == 10
        &&& self.max_total_delay_us == 15_000_000
        &&& self.max_jitter_us == 10_000
        &&& self.non_retryable@ == seq![
            RemoteErrorKind::NoSuchKey,
            RemoteErrorKind::InvalidRequest,
            RemoteErrorKind::Conflict,
        ]
    }

    /// Errors of class `kind` are never retried.
    pub open spec fn skips(&self, kind: RemoteErrorKind) -> bool {
        self.non_retryable@.contains(kind)
    }

    /// The delay before the next attempt, once `attempts_made` attempts have failed,
    /// the last with an error of class `kind`; `None` when no attempt follows. The
    /// class filter comes first, then the attempt cap, then the delay budget; the
    /// jitter is added to a delay that the budget admits.
    pub open spec fn spec_next_delay(
        &self,
        attempts_made: u32,
        accumulated_delay_us: u64,
        kind: RemoteErrorKind,
        jitter_us: u64,
    ) -> Option<u64> {
        let b = backoff(self.initial_delay_us as int, attempts_made as nat);
        if self.skips(kind) {
            None
        } else if attempts_made >= self.max_attempts {
            None
        } else if accumulated_delay_us + b > self.max_total_delay_us {
            None
        } else {
            Some(saturate(b + jitter_us))
        }
    }

    /// Whether the class of an error is one that is never retried.
    pub fn is_non_retryable(&self, kind: RemoteErrorKind) -> (r: bool)
        ensures
            r == self.skips(kind),
    {
        let mut i: usize = 0;
        while i < self.non_retryable.len()
            invariant
                i <= self.non_retryable@.len(),
                forall|j: int| 0 <= j < i ==> self.non_retryable@[j] != kind,
            decreases self.non_retryable@.len() - i,
        {
            if self.non_retryable[i] == kind {
                return true;
            }
            i = i + 1;
        }
        false
    }

    /// The delay before the next attempt (see `spec_next_delay`).
    pub fn next_delay(
        &self,
        attempts_made: u32,
        accumulated_delay_us: u64,
        kind: RemoteErrorKind,
        jitter_us: u64,
    ) -> (r: Option<u64>)
        ensures
            r == self.spec_next_delay(attempts_made, accumulated_delay_us, kind, jitter_us),
    {
        if self.is_non_retryable(kind) {
            return None;
        }
        if attempts_made >= self.max_attempts {
            return None;
        }
        if accumulated_delay_us > self.max_total_delay_us {
            proof {
                lemma_backoff_monotonic(self.initial_delay_us as int, 0, attempts_made as nat);
            }
            return None;
        }
        let cap = self.max_total_delay_us - accumulated_delay_us;
        match backoff_within(self.initial_delay_us, attempts_made, cap) {
            None => None,
            Some(b) => {
                if jitter_us > u64::MAX - b {
                    Some(u64::MAX)
                } else {
                    Some(b + jitter_us)
                }
            },
        }
    }

    /// The step taken after a failure of class `kind` in state `state`, given the
    /// jitter drawn for it.
    pub open spec fn spec_step(
        &self,
        state: RetryState,
        kind: RemoteErrorKind,
        jitter_us: u64,
    ) -> RetryStep {
        let attempts = after_failure(state.attempts_made);
        match self.spec_next_delay(attempts, state.accumulated_delay_us, kind, jitter_us) {
            None => RetryStep::GiveUp,
            Some(d) => RetryStep::Wait {
                delay_us: d,
                next: RetryState {
                    attempts_made: attempts,
                    accumulated_delay_us: saturate(state.accumulated_delay_us + d),
                },
            },
        }
    }

    /// The step taken after a failure, for a given jitter.
    pub fn step(&self, state: &RetryState, kind: RemoteErrorKind, jitter_us: u64) -> (r: RetryStep)
        ensures
            r == self.spec_step(*state, kind, jitter_us),
    {
        let attempts = if state.attempts_made < u32::MAX {
            state.attempts_made + 1
        } else {
            u32::MAX
        };
        match self.next_delay(attempts, state.accumulated_delay_us, kind, jitter_us) {
            None => RetryStep::GiveUp,
            Some(d) => {
                let total = if d > u64::MAX - state.accumulated_delay_us {
                    u64::MAX
                } else {
                    state.accumulated_delay_us + d
                };
                RetryStep::Wait {
                    delay_us: d,
                    next: RetryState { attempts_made: attempts, accumulated_delay_us: total },
                }
            },
        }
    }

    /// A jitter drawn at random: below `max_jitter_us`, or zero when that is zero.
    pub fn draw_jitter(&self) -> (r: u64)
        ensures
            self.max_jitter_us == 0 ==> r == 0,
            self.max_jitter_us > 0 ==> r < self.max_jitter_us,
    {
        if self.max_jitter_us == 0 {
            0
        } else {
            random_below(self.max_jitter_us)
        }
    }

    /// The step taken after a failed attempt, with a freshly drawn jitter. Whether the
    /// loop gives up does not depend on the jitter.
    pub fn on_failure(&self, state: &RetryState, error: &RemoteError) -> (r: RetryStep)
        ensures
            exists|j: u64|
                #![trigger self.spec_step(*state, error.spec_kind(), j)]
                (j == 0 || j < self.max_jitter_us) && r == self.spec_step(
                    *state,
                    error.spec_kind(),
                    j,
                ),
            r is GiveUp <==> self.spec_step(*state, error.spec_kind(), 0) is GiveUp,
    {
        let jitter = self.draw_jitter();
        self.step(state, error.kind(), jitter)
    }

    /// How many attempts a call makes when every attempt fails with an error of class
    /// `kind`, starting from `state`, with `jitters[i]` the jitter drawn after the
    /// failure of attempt `i + 1`.
    pub open spec fn attempts_when_failing(
        &self,
        kind: RemoteErrorKind,
        jitters: Seq<u64>,
        state: RetryState,
    ) -> nat
        decreases self.max_attempts - state.attempts_made,
    {
        let attempts = after_failure(state.attempts_made);
        match self.spec_step(state, kind, jitters[state.attempts_made as int]) {
            RetryStep::GiveUp => attempts as nat,
            RetryStep::Wait { next, .. } => self.attempts_when_failing(kind, jitters, next),
        }
    }
}

/// A call whose every attempt fails with an error of a class that the policy never
/// retries makes exactly one attempt, whatever jitter would be drawn.
pub proof fn lemma_non_retryable_single_attempt(
    p: RetryPolicy,
    kind: RemoteErrorKind,
    jitters: Seq<u64>,
)
    requires
        p.skips(kind),
    ensures
        p.attempts_when_failing(
            kind,
            jitters,
            RetryState { attempts_made: 0, accumulated_delay_us: 0 },
        ) == 1,
{
}

/// Under the production policy, a call whose every attempt ends in a conflict makes
/// exactly one attempt, and the conflict surfaces as a store error.
pub proof fn lemma_conflict_not_retried(p: RetryPolicy, e: RemoteError, r: VssError, jitters: Seq<u64>)
    requires
        p.is_default(),
        e is Conflict,
        converts_to(e, r),
    ensures
        p.attempts_when_failing(
            e.spec_kind(),
            jitters,
            RetryState { attempts_made: 0, accumulated_delay_us: 0 },
        ) == 1,
        r is StoreError,
{
    assert(p.non_retryable@[2] == RemoteErrorKind::Conflict);
    lemma_non_retryable_single_attempt(p, e.spec_kind(), jitters);
}

/// With a cap of three attempts, a call whose every attempt fails with a transient
/// server error makes exactly three attempts, as long as the delay budget covers two
/// backoffs with their jitter, and the error then surfaces as a network error.
pub proof fn lemma_retry_budget_exhaustion(
    p: RetryPolicy,
    e: RemoteError,
    r: VssError,
    jitters: Seq<u64>,
)
    requires
        p.max_attempts == 3,
        e is InternalServer,
        !p.skips(RemoteErrorKind::InternalServer),
        4 * p.initial_delay_us + 2 * p.max_jitter_us <= p.max_total_delay_us,
        jitters.len() >= 2,
        forall|i: int| 0 <= i < 2 ==> jitters[i] == 0 || jitters[i] < p.max_jitter_us,
        converts_to(e, r),
    ensures
        p.attempts_when_failing(
            e.spec_kind(),
            jitters,
            RetryState { attempts_made: 0, accumulated_delay_us: 0 },
        ) == 3,
        r is NetworkError,
{
    let kind = e.spec_kind();
    let base = p.initial_delay_us as int;
    assert(backoff(base, 0) == 0);
    assert(backoff(base, 1) == base);
    assert(backoff(base, 2) == 3 * base);
    let s0 = RetryState { attempts_made: 0, accumulated_delay_us: 0 };
    let d1 = saturate(base + jitters[0]);
    let s1 = RetryState { attempts_made: 1, accumulated_delay_us: d1 };
    assert(p.spec_step(s0, kind, jitters[0]) == RetryStep::Wait { delay_us: d1, next: s1 });
    let d2 = saturate(3 * base + jitters[1]);
    let s2 = RetryState { attempts_made: 2, accumulated_delay_us: saturate(d1 + d2) };
    assert(p.spec_step(s1, kind, jitters[1]) == RetryStep::Wait { delay_us: d2, next: s2 });
    assert(p.spec_step(s2, kind, jitters[2]) is GiveUp);
    assert(p.attempts_when_failing(kind, jitters, s2) == 3);
    assert(p.attempts_when_failing(kind, jitters, s1) == 3);
}

} // verus!
