//! Token issuance: the validity window, the bounded retry policy with
//! exponential backoff and jitter, and the step machine that sequences
//! credential acquisition and issuance attempts. The remote calls themselves
//! are the caller's; the machine only decides what to do next.

use vstd::arithmetic::power::{lemma_pow0, lemma_pow1, lemma_pow_adds, lemma_pow_positive, pow};
use vstd::prelude::*;

verus! {

/// Instants this module computes windows over, bounded well past any
/// formattable date so the window arithmetic stays inside `i64`.
pub const MAX_INSTANT_SECS: i64 = 300_000_000_000;

/// Bound on a token lifetime or renewal window, in hours.
pub const MAX_TTL_HOURS: i64 = 1_000_000;

pub open spec fn instant_in_range(t: int) -> bool {
    -MAX_INSTANT_SECS <= t <= MAX_INSTANT_SECS
}

pub open spec fn ttl_in_range(hours: int) -> bool {
    -MAX_TTL_HOURS <= hours <= MAX_TTL_HOURS
}

/// The output of one successful issuance: the token and the instants the
/// validity was computed from, as whole seconds since the Unix epoch.
#[derive(Debug, PartialEq, Eq)]
pub struct SasTokenInfo {
    pub token: String,
    pub expiry: i64,
    pub generated: i64,
}

/// The issuance validity window: back-dated five seconds to tolerate clock
/// skew against the issuing service, and running for the token lifetime.
pub fn issuance_window(now: i64, ttl_hours: i64) -> (r: (i64, i64))
    requires
        instant_in_range(now as int),
        ttl_in_range(ttl_hours as int),
    ensures
        r.0 == now - 5,
        r.1 == now + ttl_hours * 3600,
        ttl_hours >= 0 ==> r.1 > r.0,
{
    (now - 5, now + ttl_hours * 3600)
}

/// What one issuance attempt can fail with, reported by the caller who made
/// the remote call.
#[derive(Debug, PartialEq, Eq)]
pub enum IssueFault {
    /// The environment's identity mechanism could not be initialized; no
    /// attempt was made.
    Credential { cause: String },
    /// Every attempt the retry budget allowed has failed; carries the last
    /// underlying cause.
    Exhausted { attempts: u64, cause: String },
}

impl Clone for IssueFault {
    fn clone(&self) -> (r: Self)
        ensures
            r == *self,
    {
        match self {
            IssueFault::Credential { cause } => IssueFault::Credential { cause: cause.clone() },
            IssueFault::Exhausted { attempts, cause } => IssueFault::Exhausted {
                attempts: *attempts,
                cause: cause.clone(),
            },
        }
    }
}

/// A bounded exponential-backoff retry policy: waits start at the initial
/// delay and multiply by the factor, each wait capped, jittered downward,
/// with a hard ceiling on the number of attempts.
#[derive(Clone, Copy, Debug, PartialEq, Eq)]
pub struct RetryPolicy {
    pub initial_delay_ms: u64,
    pub backoff_factor: u64,
    pub max_delay_ms: u64,
    pub max_attempts: u64,
}

impl RetryPolicy {
    /// Bounds under which the backoff arithmetic cannot overflow and every
    /// delay stays below a day, the range the jitter call is trusted on.
    pub open spec fn wf(&self) -> bool {
        &&& 1 <= self.initial_delay_ms
        &&& self.initial_delay_ms <= self.max_delay_ms
        &&& self.max_delay_ms <= 86_400_000
        &&& 1 <= self.backoff_factor <= 1_000_000
        &&& 1 <= self.max_attempts
    }

    /// The issuer's fixed policy: 500 ms doubling per attempt, capped at
    /// 30 s, at most 5 attempts.
    pub fn standard() -> (r: Self)
        ensures
            r == (RetryPolicy {
                initial_delay_ms: 500,
                backoff_factor: 2,
                max_delay_ms: 30_000,
                max_attempts: 5,
            }),
            r.wf(),
    {
        RetryPolicy {
            initial_delay_ms: 500,
            backoff_factor: 2,
            max_delay_ms: 30_000,
            max_attempts: 5,
        }
    }
}

/// The un-jittered wait before the next attempt, after `waits_done` waits
/// have already been taken: initial delay times factor to that power, capped.
pub open spec fn spec_backoff_ms(p: RetryPolicy, waits_done: nat) -> int {
    let raw = p.initial_delay_ms * pow(p.backoff_factor as int, waits_done);
    if raw <= p.max_delay_ms {
        raw
    } else {
        p.max_delay_ms as int
    }
}

/// Compute the capped exponential backoff delay.
pub fn backoff_ms(p: &RetryPolicy, waits_done: u64) -> (r: u64)
    requires
        p.wf(),
    ensures
        r == spec_backoff_ms(*p, waits_done as nat),
        r <= p.max_delay_ms,
{
    let mut delay: u64 = p.initial_delay_ms;
    let mut i: u64 = 0;
    proof {
        lemma_pow0(p.backoff_factor as int);
    }
    while i < waits_done
        invariant
            p.wf(),
            i <= waits_done,
            delay == spec_backoff_ms(*p, i as nat),
            delay <= p.max_delay_ms,
        decreases waits_done - i,
    {
        proof {
            let f = p.backoff_factor as int;
            let pi = pow(f, i as nat);
            let pn = pow(f, (i + 1) as nat);
            lemma_pow_positive(f, i as nat);
            lemma_pow1(f);
            lemma_pow_adds(f, 1, i as nat);
            assert(pn == f * pi);
            let raw_i = p.initial_delay_ms * pi;
            let raw_next = p.initial_delay_ms * pn;
            assert(raw_i >= 0 && raw_next == raw_i * f) by (nonlinear_arith)
                requires
                    pi > 0,
                    pn == f * pi,
                    raw_i == p.initial_delay_ms * pi,
                    raw_next == p.initial_delay_ms * pn,
            ;
            assert(raw_i <= raw_next) by (nonlinear_arith)
                requires
                    raw_next == raw_i * f,
                    raw_i >= 0,
                    f >= 1,
            ;
            assert(delay * p.backoff_factor <= 86_400_000 * 1_000_000 && delay
                * p.backoff_factor >= delay) by (nonlinear_arith)
                requires
                    delay <= 86_400_000,
                    1 <= p.backoff_factor <= 1_000_000,
            ;
        }
        let stepped = delay * p.backoff_factor;
        delay = if stepped <= p.max_delay_ms {
            stepped
        } else {
            p.max_delay_ms
        };
        i = i + 1;
    }
    delay
}

/// Relies on `tokio_retry::strategy::jitter`: it scales the delay by a random
/// factor drawn from `[0, 1)`, so for delays up to a day the result never
/// exceeds the input.
#[verifier::external_body]
fn jitter_ms(delay_ms: u64) -> (r: u64)
    requires
        delay_ms <= 86_400_000,
    ensures
        r <= delay_ms,
{
    let jittered = tokio_retry::strategy::jitter(std::time::Duration::from_millis(delay_ms));
    jittered.as_millis() as u64
}

/// The jittered wait before the next attempt: at most the capped exponential
/// backoff for this position in the schedule.
pub fn attempt_delay_ms(p: &RetryPolicy, waits_done: u64) -> (r: u64)
    requires
        p.wf(),
    ensures
        r <= spec_backoff_ms(*p, waits_done as nat),
{
    jitter_ms(backoff_ms(p, waits_done))
}

/// Where the issuance sequence stands.
#[derive(Clone, Copy, Debug, PartialEq, Eq)]
pub enum IssuePhase {
    /// The identity mechanism has not been consulted yet.
    NeedCredential,
    /// A credential is at hand; an attempt may be made.
    ReadyToAttempt,
    /// The last attempt failed and the scheduled wait is running.
    WaitingBackoff,
    /// A token or a fault has been handed out.
    Settled,
}

/// The issuance step machine. Every attempt is fully independent: nothing
/// but the attempt count is carried between attempts.
#[derive(Debug, PartialEq, Eq)]
pub struct IssueMachine {
    pub policy: RetryPolicy,
    pub phase: IssuePhase,
    pub attempts_done: u64,
}

impl IssueMachine {
    pub open spec fn wf(&self) -> bool {
        &&& self.policy.wf()
        &&& self.attempts_done < self.policy.max_attempts
    }
}

/// What the caller must do next for the issuance to advance.
#[derive(Debug, PartialEq, Eq)]
pub enum IssueStep {
    /// Initialize the environment's identity mechanism.
    ObtainCredential,
    /// Perform one remote issuance attempt.
    Attempt,
    /// Wait this long, then report that the wait elapsed.
    Backoff { delay_ms: u64 },
    /// The issuance is over, with a token or a fault.
    Complete { outcome: Result<String, IssueFault> },
}

/// What the caller reports back after acting on a step.
#[allow(inconsistent_fields)]
#[derive(Debug, PartialEq, Eq)]
pub enum IssueEvent {
    /// The identity mechanism initialized, or refused with a cause.
    CredentialObtained { outcome: Result<(), String> },
    /// The remote attempt returned a token, or failed with a cause.
    AttemptFinished { outcome: Result<String, String> },
    /// The scheduled wait has elapsed.
    BackoffElapsed,
}

/// Whether an event is the one the machine's phase is waiting for.
pub open spec fn issue_event_fits(m: IssueMachine, ev: IssueEvent) -> bool {
    match m.phase {
        IssuePhase::NeedCredential => ev is CredentialObtained,
        IssuePhase::ReadyToAttempt => ev is AttemptFinished,
        IssuePhase::WaitingBackoff => ev is BackoffElapsed,
        IssuePhase::Settled => false,
    }
}

/// Begin an issuance under the given policy: the credential comes first.
pub fn issue_start(policy: RetryPolicy) -> (r: (IssueMachine, IssueStep))
    requires
        policy.wf(),
    ensures
        r.0 == (IssueMachine { policy, phase: IssuePhase::NeedCredential, attempts_done: 0 }),
        r.0.wf(),
        r.1 is ObtainCredential,
{
    (
        IssueMachine { policy, phase: IssuePhase::NeedCredential, attempts_done: 0 },
        IssueStep::ObtainCredential,
    )
}

/// Advance the issuance by one reported event.
///
/// A refused credential settles at once with a distinct fault and consumes no
/// attempt. A failed attempt consumes a retry slot whatever its cause; when
/// slots remain the next wait is the jittered backoff for the number of waits
/// already taken, and when none do the machine settles with a fault wrapping
/// the last underlying cause.
pub fn issue_step(m: IssueMachine, ev: IssueEvent) -> (r: (IssueMachine, IssueStep))
    requires
        m.wf(),
        issue_event_fits(m, ev),
    ensures
        r.0.policy == m.policy,
        r.0.phase is Settled || r.0.wf(),
        ev matches IssueEvent::CredentialObtained { outcome: Ok(()) } ==> r.0 == (IssueMachine {
            phase: IssuePhase::ReadyToAttempt,
            ..m
        }) && r.1 is Attempt,
        ev matches IssueEvent::CredentialObtained { outcome: Err(cause) } ==> r.0.phase is Settled
            && r.1 == (IssueStep::Complete {
            outcome: Err(IssueFault::Credential { cause }),
        }),
        ev matches IssueEvent::AttemptFinished { outcome: Ok(token) } ==> r.0.phase is Settled
            && r.1 == (IssueStep::Complete { outcome: Ok(token) }),
        ev matches IssueEvent::AttemptFinished { outcome: Err(cause) } ==> ({
            if m.attempts_done + 1 < m.policy.max_attempts {
                r.0 == (IssueMachine {
                    phase: IssuePhase::WaitingBackoff,
                    attempts_done: (m.attempts_done + 1) as u64,
                    ..m
                }) && (r.1 matches IssueStep::Backoff { delay_ms } && delay_ms <= spec_backoff_ms(
                    m.policy,
                    m.attempts_done as nat,
                ))
            } else {
                r.0.phase is Settled && r.1 == (IssueStep::Complete {
                    outcome: Err(IssueFault::Exhausted { attempts: m.policy.max_attempts, cause }),
                })
            }
        }),
        ev is BackoffElapsed ==> r.0 == (IssueMachine { phase: IssuePhase::ReadyToAttempt, ..m })
            && r.1 is Attempt,
{
    match ev {
        IssueEvent::CredentialObtained { outcome } => match outcome {
            Ok(()) => (
                IssueMachine { phase: IssuePhase::ReadyToAttempt, ..m },
                IssueStep::Attempt,
            ),
            Err(cause) => (
                IssueMachine { phase: IssuePhase::Settled, ..m },
                IssueStep::Complete { outcome: Err(IssueFault::Credential { cause }) },
            ),
        },
        IssueEvent::AttemptFinished { outcome } => match outcome {
            Ok(token) => (
                IssueMachine { phase: IssuePhase::Settled, ..m },
                IssueStep::Complete { outcome: Ok(token) },
            ),
            Err(cause) => {
                if m.attempts_done + 1 < m.policy.max_attempts {
                    let delay_ms = attempt_delay_ms(&m.policy, m.attempts_done);
                    (
                        IssueMachine {
                            phase: IssuePhase::WaitingBackoff,
                            attempts_done: m.attempts_done + 1,
                            ..m
                        },
                        IssueStep::Backoff { delay_ms },
                    )
                } else {
                    (
                        IssueMachine { phase: IssuePhase::Settled, ..m },
                        IssueStep::Complete {
                            outcome: Err(IssueFault::Exhausted {
                                attempts: m.policy.max_attempts,
                                cause,
                            }),
                        },
                    )
                }
            },
        },
        IssueEvent::BackoffElapsed => (
            IssueMachine { phase: IssuePhase::ReadyToAttempt, ..m },
            IssueStep::Attempt,
        ),
    }
}

} // verus!
