//! The retry policy: classification of attempt outcomes and bounded
//! exponential backoff.
//!
//! A completed exchange is worth retrying exactly when its status is not
//! 200 — any other status, a client error included, counts as transient.
//! A transport-level failure is worth retrying when the standard
//! request-failure classification says so (network and connection failures
//! are, malformed-request failures are not). The wait between attempts
//! doubles from the configured floor and is capped at the configured
//! ceiling, and an exhausted policy hands back the last outcome as it came,
//! never a made-up one.

use vstd::prelude::*;

verus! {

/// What one HTTP exchange produced: the status code and the raw body text.
#[derive(Debug, Clone, PartialEq)]
pub struct HttpResponse {
    /// The HTTP status code of the response.
    pub status: u16,
    /// The raw response body text.
    pub body: String,
}

/// A transport-level failure: no response was received.
#[derive(Debug, Clone, PartialEq)]
pub struct TransportError {
    /// Whether the standard request-failure classification calls this
    /// failure transient (a network or connection failure) rather than
    /// permanent (a malformed request).
    pub retryable: bool,
    /// A description of the failure.
    pub message: String,
}

/// How an attempt's outcome is classified.
#[derive(Debug, Clone, Copy, PartialEq, Eq, Structural)]
pub enum Retryable {
    /// The failure is transient: the attempt is worth repeating.
    Transient,
    /// The failure is permanent: repeating the attempt cannot help.
    Fatal,
}

/// Whether an outcome makes the policy try again.
pub open spec fn spec_is_retryable(res: Result<HttpResponse, TransportError>) -> bool {
    match res {
        Ok(resp) => resp.status != 200,
        Err(e) => e.retryable,
    }
}

/// The retry strategy: how one attempt's outcome is classified.
pub struct Retry;

impl Retry {
    /// Classifies one attempt's outcome: any response whose status is not
    /// 200 is transient and retried; a transport failure follows the
    /// standard request-failure classification.
    pub fn handle(&self, res: &Result<HttpResponse, TransportError>) -> (r: Option<Retryable>)
        ensures
            r == Some(Retryable::Transient) <==> spec_is_retryable(*res),
            r is Some <==> (*res matches Ok(resp) ==> resp.status != 200),
    {
        match res {
            Ok(success) => {
                if success.status != 200 {
                    Some(Retryable::Transient)
                } else {
                    None
                }
            },
            Err(error) => {
                if error.retryable {
                    Some(Retryable::Transient)
                } else {
                    Some(Retryable::Fatal)
                }
            },
        }
    }
}

/// Two to the given power.
pub open spec fn spec_pow2(n: nat) -> nat
    decreases n,
{
    if n == 0 {
        1
    } else {
        2 * spec_pow2((n - 1) as nat)
    }
}

/// The backoff configuration: the wait floor and ceiling in milliseconds,
/// and how many retries follow the first attempt.
#[derive(Debug, Clone, Copy, PartialEq, Eq, Structural)]
pub struct RetryPolicy {
    /// The smallest wait between attempts, in milliseconds.
    pub min_retry_interval: u64,
    /// The largest wait between attempts, in milliseconds.
    pub max_retry_interval: u64,
    /// How many retries may follow the first attempt.
    pub max_retries: u32,
}

/// Builds the retry policy with the given bounds and retry count.
pub fn get_retry_strategy(
    min_retry_interval: u64,
    max_retry_interval: u64,
    max_retries: u32,
) -> (r: RetryPolicy)
    ensures
        r == (RetryPolicy { min_retry_interval, max_retry_interval, max_retries }),
{
    RetryPolicy { min_retry_interval, max_retry_interval, max_retries }
}

impl RetryPolicy {
    /// A usable policy keeps its floor at or under its ceiling.
    pub open spec fn wf(self) -> bool {
        self.min_retry_interval <= self.max_retry_interval
    }

    /// The wait before retry number `n`: the floor doubled `n` times,
    /// capped at the ceiling.
    pub open spec fn spec_backoff(self, n: nat) -> u64 {
        if self.min_retry_interval * spec_pow2(n) >= self.max_retry_interval as nat {
            self.max_retry_interval
        } else {
            (self.min_retry_interval * spec_pow2(n)) as u64
        }
    }

    /// Computes the wait before retry number `n`.
    pub fn backoff_delay(&self, n: u32) -> (d: u64)
        requires
            self.wf(),
        ensures
            d == self.spec_backoff(n as nat),
            self.min_retry_interval <= d <= self.max_retry_interval,
    {
        let mut d: u64 = self.min_retry_interval;
        let mut i: u32 = 0;
        proof {
            assert(spec_pow2(0) == 1);
            self.lemma_backoff_bounds(0);
        }
        while i < n
            invariant
                self.wf(),
                i <= n,
                d == self.spec_backoff(i as nat),
                self.min_retry_interval <= d <= self.max_retry_interval,
            decreases n - i,
        {
            proof {
                self.lemma_backoff_step(i as nat);
                self.lemma_backoff_bounds(i as nat + 1);
            }
            if d > self.max_retry_interval / 2 {
                d = self.max_retry_interval;
            } else {
                d = d * 2;
            }
            i = i + 1;
        }
        d
    }

    /// The wait stays between the floor and the ceiling.
    pub proof fn lemma_backoff_bounds(self, n: nat)
        requires
            self.wf(),
        ensures
            self.min_retry_interval <= self.spec_backoff(n) <= self.max_retry_interval,
        decreases n,
    {
        if n > 0 {
            self.lemma_backoff_bounds((n - 1) as nat);
            self.lemma_pow2_pos((n - 1) as nat);
            assert(spec_pow2((n - 1) as nat) >= 1);
            assert(self.min_retry_interval * spec_pow2(n) >= self.min_retry_interval
                * spec_pow2((n - 1) as nat)) by (nonlinear_arith)
                requires
                    spec_pow2(n) == 2 * spec_pow2((n - 1) as nat),
                    spec_pow2((n - 1) as nat) >= 1,
                    self.min_retry_interval >= 0,
            ;
        } else {
            assert(spec_pow2(0) == 1);
        }
    }

    /// One more doubling: the next wait is the doubled wait, still capped.
    proof fn lemma_backoff_step(self, n: nat)
        requires
            self.wf(),
        ensures
            self.spec_backoff(n) > self.max_retry_interval / 2 ==> self.spec_backoff(n + 1)
                == self.max_retry_interval,
            self.spec_backoff(n) <= self.max_retry_interval / 2 ==> self.spec_backoff(n + 1)
                == 2 * self.spec_backoff(n),
    {
        self.lemma_backoff_bounds(n);
        assert(spec_pow2(n) >= 1) by {
            self.lemma_pow2_pos(n);
        }
        let x = self.min_retry_interval * spec_pow2(n);
        assert(self.min_retry_interval * spec_pow2(n + 1) == 2 * x) by (nonlinear_arith)
            requires
                spec_pow2(n + 1) == 2 * spec_pow2(n),
                x == self.min_retry_interval * spec_pow2(n),
        ;
    }

    /// A power of two is positive.
    proof fn lemma_pow2_pos(self, n: nat)
        ensures
            spec_pow2(n) >= 1,
        decreases n,
    {
        if n > 0 {
            self.lemma_pow2_pos((n - 1) as nat);
        }
    }

    /// The wait never shrinks from one retry to the next, up to the cap.
    pub proof fn lemma_backoff_monotone(self, n1: nat, n2: nat)
        requires
            self.wf(),
            n1 <= n2,
        ensures
            self.spec_backoff(n1) <= self.spec_backoff(n2),
        decreases n2 - n1,
    {
        if n1 < n2 {
            self.lemma_backoff_monotone(n1, (n2 - 1) as nat);
            self.lemma_backoff_step((n2 - 1) as nat);
            self.lemma_backoff_bounds((n2 - 1) as nat);
            self.lemma_backoff_bounds(n2);
        }
    }
}

/// How many attempts a run makes on this outcome sequence: one per outcome
/// while the outcome is retryable and retries are left.
pub open spec fn spec_attempts(
    max_retries: nat,
    outcomes: Seq<Result<HttpResponse, TransportError>>,
) -> nat
    decreases outcomes.len(),
{
    if outcomes.len() == 0 {
        0
    } else if !spec_is_retryable(outcomes[0]) || max_retries == 0 || outcomes.len() == 1 {
        1
    } else {
        1 + spec_attempts((max_retries - 1) as nat, outcomes.drop_first())
    }
}

/// Enough outcomes to drive one run to its end: either one of them is final
/// before the list runs out, or the list outlasts every permitted retry.
pub open spec fn spec_enough(
    max_retries: nat,
    outcomes: Seq<Result<HttpResponse, TransportError>>,
) -> bool {
    outcomes.len() > max_retries || (outcomes.len() >= 1 && !spec_is_retryable(
        outcomes[outcomes.len() - 1],
    ))
}

/// Drives one logical request across the given attempt outcomes: attempt
/// `k` observes `outcomes[k]`, and the run stops at the first outcome that
/// is not retryable or when the policy's retries are spent. The last
/// observed outcome is returned as it came; exhaustion makes up no error of
/// its own.
pub fn run_retries(policy: &RetryPolicy, outcomes: Vec<Result<HttpResponse, TransportError>>) -> (r:
    (u32, Result<HttpResponse, TransportError>))
    requires
        1 <= outcomes@.len() <= u32::MAX,
        policy.max_retries < u32::MAX,
        spec_enough(policy.max_retries as nat, outcomes@),
    ensures
        r.0 as nat == spec_attempts(policy.max_retries as nat, outcomes@),
        1 <= r.0 <= policy.max_retries + 1,
        r.0 as int <= outcomes@.len(),
        r.1 == outcomes@[r.0 - 1],
{
    let strategy = Retry;
    let ghost all = outcomes@;
    let mut remaining = outcomes;
    let mut i: usize = 0;
    proof {
        assert(all.skip(0) =~= all);
    }
    #[verifier::loop_isolation(false)]
    loop
        invariant
            remaining@ == all,
            1 <= all.len() <= u32::MAX,
            policy.max_retries < u32::MAX,
            spec_enough(policy.max_retries as nat, all),
            0 <= i < all.len(),
            i <= policy.max_retries,
            forall|j: int| 0 <= j < i ==> spec_is_retryable(#[trigger] all[j]),
            spec_attempts(policy.max_retries as nat, all) == i + spec_attempts(
                (policy.max_retries - i) as nat,
                all.skip(i as int),
            ),
        decreases all.len() - i,
    {
        let retry = match strategy.handle(&remaining[i]) {
            Some(Retryable::Transient) => true,
            _ => false,
        };
        proof {
            assert(all.skip(i as int)[0] == all[i as int]);
        }
        if retry && i < policy.max_retries as usize && i + 1 < remaining.len() {
            proof {
                assert(all.skip(i as int).drop_first() =~= all.skip(i as int + 1));
            }
            i = i + 1;
        } else {
            proof {
                if retry && i < policy.max_retries as usize {
                    assert(i + 1 == all.len());
                    assert(spec_is_retryable(all[all.len() - 1]));
                    assert(all.len() > policy.max_retries);
                    assert(false);
                }
                assert(spec_attempts((policy.max_retries - i) as nat, all.skip(i as int)) == 1);
            }
            let last = remaining.remove(i);
            proof {
                assert(spec_attempts(policy.max_retries as nat, all) == i + 1);
                assert(i + 1 <= all.len());
                assert(last == all[i as int]);
                assert((i + 1) as u32 == i + 1);
            }
            return ((i + 1) as u32, last);
        }
    }
}

/// Decides what follows one attempt: the wait in milliseconds before the
/// next attempt when the outcome is retryable and the policy still grants a
/// retry, or nothing when the run is over and the outcome stands.
pub fn next_step(
    policy: &RetryPolicy,
    attempts_made: u32,
    outcome: &Result<HttpResponse, TransportError>,
) -> (r: Option<u64>)
    requires
        policy.wf(),
    ensures
        r is Some <==> (spec_is_retryable(*outcome) && attempts_made < policy.max_retries),
        r matches Some(d) ==> d == policy.spec_backoff(attempts_made as nat)
            && policy.min_retry_interval <= d <= policy.max_retry_interval,
{
    let strategy = Retry;
    let retry = match strategy.handle(outcome) {
        Some(Retryable::Transient) => true,
        _ => false,
    };
    if retry && attempts_made < policy.max_retries {
        Some(policy.backoff_delay(attempts_made))
    } else {
        None
    }
}

/// When every outcome before position `k` asks for a retry and the outcome
/// at `k` does not, a run that may still retry at `k` makes exactly `k + 1`
/// attempts — and so ends on that final outcome.
pub proof fn lemma_retry_stops_at_final(
    max_retries: nat,
    outcomes: Seq<Result<HttpResponse, TransportError>>,
    k: int,
)
    requires
        0 <= k < outcomes.len(),
        k <= max_retries,
        forall|j: int| 0 <= j < k ==> spec_is_retryable(#[trigger] outcomes[j]),
        !spec_is_retryable(outcomes[k]),
    ensures
        spec_attempts(max_retries, outcomes) == k + 1,
    decreases k,
{
    if k > 0 {
        assert(forall|j: int|
            0 <= j < k - 1 ==> spec_is_retryable(#[trigger] outcomes.drop_first()[j]));
        lemma_retry_stops_at_final((max_retries - 1) as nat, outcomes.drop_first(), k - 1);
    }
}

/// When every outcome the policy can reach asks for a retry, the run spends
/// all its retries: exactly `max_retries + 1` attempts occur, and the run
/// ends on the last outcome it saw, not on a made-up exhaustion error.
pub proof fn lemma_retry_exhaustion(
    max_retries: nat,
    outcomes: Seq<Result<HttpResponse, TransportError>>,
)
    requires
        outcomes.len() > max_retries,
        forall|j: int| 0 <= j <= max_retries ==> spec_is_retryable(#[trigger] outcomes[j]),
    ensures
        spec_attempts(max_retries, outcomes) == max_retries + 1,
    decreases max_retries,
{
    if max_retries > 0 {
        assert(forall|j: int|
            0 <= j <= max_retries - 1 ==> spec_is_retryable(#[trigger] outcomes.drop_first()[j]));
        lemma_retry_exhaustion((max_retries - 1) as nat, outcomes.drop_first());
    }
}

} // verus!
