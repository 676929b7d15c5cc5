//! Retry policy of the re-authentication controller: how many attempts one
//! cycle makes, how long it waits between them, and how long it rests after
//! the last of them.
//!
//! All durations are in milliseconds.

use vstd::arithmetic::mul::*;
use vstd::arithmetic::power2::*;
use vstd::prelude::*;

verus! {

/// Attempts per cycle unless configured otherwise.
pub const DEFAULT_MAX_ATTEMPTS: u32 = 3;

/// Base of the wait between two attempts unless configured otherwise.
pub const DEFAULT_BASE_BACKOFF_MS: u64 = 30_000;

/// Rest after an exhausted cycle unless configured otherwise.
pub const DEFAULT_COOLDOWN_MS: u64 = 120_000;

/// Longest a pending wait goes unchecked unless configured otherwise.
pub const DEFAULT_CANCEL_CHECK_MS: u64 = 500;

/// Longest a login attempt may take unless configured otherwise.
pub const DEFAULT_ATTEMPT_CEILING_MS: u64 = 180_000;

/// A cancellation check has to come round in less than this.
pub const CANCEL_CHECK_LIMIT_MS: u64 = 1_000;

/// How the wait grows with the number of the attempt that follows it.
#[derive(Clone, Copy, Debug, PartialEq, Eq, Structural)]
pub enum BackoffMultiplier {
    /// Every wait is the base.
    Constant,
    /// The wait before attempt `n` is `n` times the base.
    Linear,
    /// The wait doubles from one attempt to the next: before attempt `n` it
    /// is the base doubled `n - 1` times, so twice the base before the second.
    Exponential,
}

impl BackoffMultiplier {
    /// The factor applied to the base when the attempt counter reads `attempt`.
    pub open spec fn at(self, attempt: nat) -> nat {
        match self {
            BackoffMultiplier::Constant => 1,
            BackoffMultiplier::Linear => attempt,
            BackoffMultiplier::Exponential => if attempt == 0 {
                1
            } else {
                pow2((attempt - 1) as nat)
            },
        }
    }
}

/// Why a set of policy values was turned down.
#[derive(Clone, Copy, Debug, PartialEq, Eq, Structural)]
pub enum PolicyError {
    /// A cycle has to make at least one attempt.
    NoAttempts,
    /// The attempt counter could not count one past the limit.
    TooManyAttempts,
    /// The base of the wait is zero.
    NoBackoff,
    /// The rest after a cycle is not longer than the longest wait within it.
    CooldownTooShort,
    /// The cancellation check is zero or not below one second.
    BadCancelCheck,
    /// The ceiling on a login attempt is zero.
    NoCeiling,
}

/// What a policy is in contracts.
pub struct PolicyView {
    pub max_attempts: nat,
    pub base_backoff_ms: nat,
    pub multiplier: BackoffMultiplier,
    pub cooldown_ms: nat,
    pub cancel_check_ms: nat,
    pub attempt_ceiling_ms: nat,
}

/// The wait that follows a failed attempt.
#[derive(Clone, Copy, Debug, PartialEq, Eq, Structural)]
pub struct Wait {
    pub ms: u64,
    /// True for the rest after an exhausted cycle.
    pub cooldown: bool,
}

impl PolicyView {
    /// The wait while the attempt counter reads `attempt`.
    pub open spec fn backoff_at(self, attempt: nat) -> nat {
        self.base_backoff_ms * self.multiplier.at(attempt)
    }

    /// The first objection to the four values that shape the waits, if there
    /// is one.
    pub open spec fn objection(self) -> Option<PolicyError> {
        if self.max_attempts == 0 {
            Some(PolicyError::NoAttempts)
        } else if self.max_attempts >= u32::MAX {
            Some(PolicyError::TooManyAttempts)
        } else if self.base_backoff_ms == 0 {
            Some(PolicyError::NoBackoff)
        } else if self.backoff_at(self.max_attempts) >= self.cooldown_ms {
            Some(PolicyError::CooldownTooShort)
        } else {
            None
        }
    }

    /// A policy that a controller can run on: the counter can count one past
    /// the limit, every wait within a cycle is shorter than the rest after it,
    /// and a pending wait is looked at more than once a second.
    pub open spec fn valid(self) -> bool {
        &&& self.objection() is None
        &&& self.cooldown_ms <= u64::MAX
        &&& 0 < self.cancel_check_ms < CANCEL_CHECK_LIMIT_MS
        &&& 0 < self.attempt_ceiling_ms <= u64::MAX
    }

    /// The wait that follows a failure after which the attempt counter reads
    /// `attempt`: the backoff while the cycle has attempts left, the cooldown
    /// once it has none.
    pub open spec fn wait_after(self, attempt: nat) -> Wait {
        if attempt <= self.max_attempts {
            Wait { ms: self.backoff_at(attempt) as u64, cooldown: false }
        } else {
            Wait { ms: self.cooldown_ms as u64, cooldown: true }
        }
    }
}

/// The factor grows with the attempt counter, whatever the shape.
pub proof fn lemma_multiplier_monotonic(multiplier: BackoffMultiplier, a: nat, b: nat)
    requires
        a <= b,
    ensures
        multiplier.at(a) <= multiplier.at(b),
{
    if multiplier == BackoffMultiplier::Exponential && 0 < a < b {
        lemma_pow2_strictly_increases((a - 1) as nat, (b - 1) as nat);
    }
    if multiplier == BackoffMultiplier::Exponential && a == 0 && b > 0 {
        lemma_pow2_pos((b - 1) as nat);
    }
}

/// The wait before the second attempt is not zero.
pub proof fn lemma_first_backoff_positive(policy: PolicyView)
    requires
        policy.valid(),
    ensures
        policy.backoff_at(1) >= 1,
{
    vstd::arithmetic::power2::lemma2_to64();
    assert(policy.base_backoff_ms * 1 == policy.base_backoff_ms) by (nonlinear_arith);
}

/// Consecutive failed attempts of one cycle never wait less than the one
/// before, and the rest that follows the last of them is longer than any of
/// the waits.
pub proof fn law_backoff_monotonic(policy: PolicyView, earlier: nat, later: nat)
    requires
        policy.valid(),
        earlier <= later <= policy.max_attempts,
    ensures
        policy.backoff_at(earlier) <= policy.backoff_at(later),
        policy.backoff_at(later) < policy.cooldown_ms,
        policy.wait_after(earlier).ms <= policy.wait_after(later).ms,
        policy.wait_after(later).ms < policy.wait_after((policy.max_attempts + 1) as nat).ms,
{
    lemma_multiplier_monotonic(policy.multiplier, earlier, later);
    lemma_multiplier_monotonic(policy.multiplier, later, policy.max_attempts);
    lemma_mul_left_inequality(
        policy.base_backoff_ms as int,
        policy.multiplier.at(earlier) as int,
        policy.multiplier.at(later) as int,
    );
    lemma_mul_left_inequality(
        policy.base_backoff_ms as int,
        policy.multiplier.at(later) as int,
        policy.multiplier.at(policy.max_attempts) as int,
    );
}

/// Bounded retries with a growing wait, and a longer rest between cycles.
#[derive(Clone, Copy, Debug)]
pub struct RetryPolicy {
    max_attempts: u32,
    base_backoff_ms: u64,
    multiplier: BackoffMultiplier,
    cooldown_ms: u64,
    cancel_check_ms: u64,
    attempt_ceiling_ms: u64,
}

impl View for RetryPolicy {
    type V = PolicyView;

    closed spec fn view(&self) -> PolicyView {
        PolicyView {
            max_attempts: self.max_attempts as nat,
            base_backoff_ms: self.base_backoff_ms as nat,
            multiplier: self.multiplier,
            cooldown_ms: self.cooldown_ms as nat,
            cancel_check_ms: self.cancel_check_ms as nat,
            attempt_ceiling_ms: self.attempt_ceiling_ms as nat,
        }
    }
}

impl RetryPolicy {
    #[verifier::type_invariant]
    spec fn inv(self) -> bool {
        self@.valid()
    }

    /// The policy used when nothing is configured.
    pub open spec fn standard() -> PolicyView {
        PolicyView {
            max_attempts: DEFAULT_MAX_ATTEMPTS as nat,
            base_backoff_ms: DEFAULT_BASE_BACKOFF_MS as nat,
            multiplier: BackoffMultiplier::Constant,
            cooldown_ms: DEFAULT_COOLDOWN_MS as nat,
            cancel_check_ms: DEFAULT_CANCEL_CHECK_MS as nat,
            attempt_ceiling_ms: DEFAULT_ATTEMPT_CEILING_MS as nat,
        }
    }

    /// The policy with these four values, the default cancellation check and
    /// the default ceiling on an attempt; or the first objection to the values.
    pub fn new(
        max_attempts: u32,
        base_backoff_ms: u64,
        multiplier: BackoffMultiplier,
        cooldown_ms: u64,
    ) -> (made: Result<RetryPolicy, PolicyError>)
        ensures
            ({
                let wanted = PolicyView {
                    max_attempts: max_attempts as nat,
                    base_backoff_ms: base_backoff_ms as nat,
                    multiplier,
                    cooldown_ms: cooldown_ms as nat,
                    cancel_check_ms: DEFAULT_CANCEL_CHECK_MS as nat,
                    attempt_ceiling_ms: DEFAULT_ATTEMPT_CEILING_MS as nat,
                };
                match wanted.objection() {
                    Some(error) => made == Err::<RetryPolicy, PolicyError>(error),
                    None => made is Ok && made->Ok_0@ == wanted && wanted.valid(),
                }
            }),
    {
        if max_attempts == 0 {
            return Err(PolicyError::NoAttempts);
        }
        if max_attempts == u32::MAX {
            return Err(PolicyError::TooManyAttempts);
        }
        if base_backoff_ms == 0 {
            return Err(PolicyError::NoBackoff);
        }
        let fits = match multiplier {
            BackoffMultiplier::Constant => base_backoff_ms < cooldown_ms,
            BackoffMultiplier::Linear => {
                assert(base_backoff_ms * max_attempts <= u64::MAX * u32::MAX) by (nonlinear_arith)
                    requires
                        base_backoff_ms <= u64::MAX,
                        max_attempts <= u32::MAX,
                ;
                (base_backoff_ms as u128) * (max_attempts as u128) < cooldown_ms as u128
            },
            BackoffMultiplier::Exponential => doubling_fits(
                base_backoff_ms,
                max_attempts,
                cooldown_ms,
            ),
        };
        if !fits {
            return Err(PolicyError::CooldownTooShort);
        }
        Ok(
            RetryPolicy {
                max_attempts,
                base_backoff_ms,
                multiplier,
                cooldown_ms,
                cancel_check_ms: DEFAULT_CANCEL_CHECK_MS,
                attempt_ceiling_ms: DEFAULT_ATTEMPT_CEILING_MS,
            },
        )
    }

    /// The same policy with a pending wait looked at every `ms` milliseconds.
    /// Turned down exactly when `ms` is zero or not below one second.
    pub fn with_cancel_check(self, ms: u64) -> (made: Result<RetryPolicy, PolicyError>)
        ensures
            ms == 0 || ms >= CANCEL_CHECK_LIMIT_MS ==> made == Err::<RetryPolicy, PolicyError>(
                PolicyError::BadCancelCheck,
            ),
            0 < ms < CANCEL_CHECK_LIMIT_MS ==> made is Ok && made->Ok_0@ == (PolicyView {
                cancel_check_ms: ms as nat,
                ..self@
            }),
    {
        proof {
            use_type_invariant(&self);
        }
        if ms == 0 || ms >= CANCEL_CHECK_LIMIT_MS {
            Err(PolicyError::BadCancelCheck)
        } else {
            Ok(
                RetryPolicy {
                    max_attempts: self.max_attempts,
                    base_backoff_ms: self.base_backoff_ms,
                    multiplier: self.multiplier,
                    cooldown_ms: self.cooldown_ms,
                    cancel_check_ms: ms,
                    attempt_ceiling_ms: self.attempt_ceiling_ms,
                },
            )
        }
    }

    /// The same policy with a login attempt given up after `ms` milliseconds.
    /// Turned down exactly when `ms` is zero.
    pub fn with_attempt_ceiling(self, ms: u64) -> (made: Result<RetryPolicy, PolicyError>)
        ensures
            ms == 0 ==> made == Err::<RetryPolicy, PolicyError>(PolicyError::NoCeiling),
            ms > 0 ==> made is Ok && made->Ok_0@ == (PolicyView {
                attempt_ceiling_ms: ms as nat,
                ..self@
            }),
    {
        proof {
            use_type_invariant(&self);
        }
        if ms == 0 {
            Err(PolicyError::NoCeiling)
        } else {
            Ok(
                RetryPolicy {
                    max_attempts: self.max_attempts,
                    base_backoff_ms: self.base_backoff_ms,
                    multiplier: self.multiplier,
                    cooldown_ms: self.cooldown_ms,
                    cancel_check_ms: self.cancel_check_ms,
                    attempt_ceiling_ms: ms,
                },
            )
        }
    }

    /// Attempts one cycle makes before it rests.
    pub fn max_attempts_before_cooldown(&self) -> (attempts: u32)
        ensures
            attempts == self@.max_attempts,
            self@.valid(),
    {
        proof {
            use_type_invariant(self);
        }
        self.max_attempts
    }

    /// Base of the wait between two attempts.
    pub fn base_backoff_ms(&self) -> (ms: u64)
        ensures
            ms == self@.base_backoff_ms,
    {
        self.base_backoff_ms
    }

    /// Shape of the growth of the wait.
    pub fn multiplier(&self) -> (multiplier: BackoffMultiplier)
        ensures
            multiplier == self@.multiplier,
    {
        self.multiplier
    }

    /// Rest after an exhausted cycle.
    pub fn cooldown_backoff_ms(&self) -> (ms: u64)
        ensures
            ms == self@.cooldown_ms,
    {
        self.cooldown_ms
    }

    /// Longest a pending wait goes without a look at the connectivity.
    pub fn cancel_check_ms(&self) -> (ms: u64)
        ensures
            ms == self@.cancel_check_ms,
            0 < ms < CANCEL_CHECK_LIMIT_MS,
    {
        proof {
            use_type_invariant(self);
        }
        self.cancel_check_ms
    }

    /// Longest a login attempt may take before it is given up.
    pub fn attempt_ceiling_ms(&self) -> (ms: u64)
        ensures
            ms == self@.attempt_ceiling_ms,
            ms > 0,
    {
        proof {
            use_type_invariant(self);
        }
        self.attempt_ceiling_ms
    }

    /// The wait that follows a failure after which the attempt counter reads
    /// `attempt`.
    pub fn wait_after(&self, attempt: u32) -> (wait: Wait)
        ensures
            wait == self@.wait_after(attempt as nat),
            self@.valid(),
            !wait.cooldown ==> wait.ms == self@.backoff_at(attempt as nat),
            wait.cooldown ==> wait.ms == self@.cooldown_ms,
    {
        proof {
            use_type_invariant(self);
        }
        if attempt > self.max_attempts {
            return Wait { ms: self.cooldown_ms, cooldown: true };
        }
        proof {
            law_backoff_monotonic(self@, attempt as nat, attempt as nat);
        }
        let ms = match self.multiplier {
            BackoffMultiplier::Constant => {
                assert(self@.backoff_at(attempt as nat) == self.base_backoff_ms);
                self.base_backoff_ms
            },
            BackoffMultiplier::Linear => {
                self.base_backoff_ms * (attempt as u64)
            },
            BackoffMultiplier::Exponential => doubled(
                self.base_backoff_ms,
                attempt,
                self.cooldown_ms,
            ),
        };
        Wait { ms, cooldown: false }
    }
}

impl Default for RetryPolicy {
    /// Three attempts thirty seconds apart, then a rest of two minutes.
    fn default() -> (policy: RetryPolicy)
        ensures
            policy@ == RetryPolicy::standard(),
            policy@.valid(),
    {
        RetryPolicy {
            max_attempts: DEFAULT_MAX_ATTEMPTS,
            base_backoff_ms: DEFAULT_BASE_BACKOFF_MS,
            multiplier: BackoffMultiplier::Constant,
            cooldown_ms: DEFAULT_COOLDOWN_MS,
            cancel_check_ms: DEFAULT_CANCEL_CHECK_MS,
            attempt_ceiling_ms: DEFAULT_ATTEMPT_CEILING_MS,
        }
    }
}

/// `base` doubled `attempt - 1` times, for a result known to stay below `limit`.
fn doubled(base: u64, attempt: u32, limit: u64) -> (ms: u64)
    requires
        base > 0,
        base * BackoffMultiplier::Exponential.at(attempt as nat) < limit,
    ensures
        ms == base * BackoffMultiplier::Exponential.at(attempt as nat),
{
    let mut ms = base;
    let mut i: u32 = 1;
    proof {
        lemma2_to64();
        assert(base * 1 == base) by (nonlinear_arith);
    }
    while i < attempt
        invariant
            1 <= i,
            i <= attempt || i == 1,
            base > 0,
            ms == base * pow2((i - 1) as nat),
            base * BackoffMultiplier::Exponential.at(attempt as nat) < limit,
        decreases attempt - i,
    {
        proof {
            lemma_pow2_unfold(i as nat);
            lemma_multiplier_monotonic(BackoffMultiplier::Exponential, (i + 1) as nat, attempt as nat);
            lemma_mul_left_inequality(
                base as int,
                pow2(i as nat) as int,
                pow2((attempt - 1) as nat) as int,
            );
            assert(base * (2 * pow2((i - 1) as nat)) == 2 * (base * pow2((i - 1) as nat)))
                by (nonlinear_arith);
        }
        ms = ms * 2;
        i = i + 1;
    }
    proof {
        lemma2_to64();
        assert(base * 1 == base) by (nonlinear_arith);
    }
    ms
}

/// Whether `base` doubled `attempts - 1` times stays below `limit`.
fn doubling_fits(base: u64, attempts: u32, limit: u64) -> (fits: bool)
    requires
        base > 0,
        attempts > 0,
    ensures
        fits == (base * BackoffMultiplier::Exponential.at(attempts as nat) < limit),
{
    if base >= limit {
        proof {
            lemma_pow2_pos((attempts - 1) as nat);
            lemma_mul_left_inequality(base as int, 1, pow2((attempts - 1) as nat) as int);
        }
        return false;
    }
    let mut ms = base;
    let mut i: u32 = 1;
    proof {
        lemma2_to64();
        assert(base * 1 == base) by (nonlinear_arith);
    }
    while i < attempts
        invariant
            1 <= i <= attempts,
            base > 0,
            ms == base * pow2((i - 1) as nat),
            ms < limit,
        decreases attempts - i,
    {
        proof {
            lemma_pow2_unfold(i as nat);
            assert(base * (2 * pow2((i - 1) as nat)) == 2 * (base * pow2((i - 1) as nat)))
                by (nonlinear_arith);
        }
        if ms >= limit - ms {
            proof {
                lemma_multiplier_monotonic(
                    BackoffMultiplier::Exponential,
                    (i + 1) as nat,
                    attempts as nat,
                );
                lemma_mul_left_inequality(
                    base as int,
                    pow2(i as nat) as int,
                    pow2((attempts - 1) as nat) as int,
                );
            }
            return false;
        }
        ms = ms * 2;
        i = i + 1;
    }
    true
}

} // verus!
