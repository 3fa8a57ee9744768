//! The retry combinator shared by every remote call.
//!
//! An operation is attempted again, without delay, for as long as it fails
//! with a dropped connection and attempts are left. Repeating an operation
//! that changes state (submitting a transaction) may apply it twice when the
//! first attempt reached the node before the connection dropped: callers hand
//! in only what is safe to repeat, or accept that risk.

use vstd::prelude::*;
use crate::error::ChainError;

verus! {

/// Attempts made for each remote call: one initial attempt and five retries.
pub const MAX_ATTEMPTS: u32 = 6;

/// How often an operation may be attempted in all.
#[derive(Clone, Copy, Debug, PartialEq, Eq)]
pub struct RetryPolicy {
    pub max_attempts: u32,
}

impl RetryPolicy {
    /// A policy is usable when it allows at least one attempt.
    pub open spec fn wf(self) -> bool {
        self.max_attempts >= 1
    }

    /// The policy that every remote call of the client uses.
    pub fn standard() -> (p: RetryPolicy)
        ensures
            p.wf(),
            p.max_attempts == MAX_ATTEMPTS,
    {
        RetryPolicy { max_attempts: MAX_ATTEMPTS }
    }
}

/// Whether `outcome` is a failure by a dropped connection.
pub open spec fn is_transient<T>(outcome: Result<T, ChainError>) -> bool {
    outcome matches Err(e) && e.transient()
}

/// Whether attempt number `attempt` (counted from 1) that ended in `outcome`
/// is followed by another attempt under a budget of `max_attempts`.
pub open spec fn tries_again<T>(attempt: nat, max_attempts: nat, outcome: Result<T, ChainError>) -> bool {
    is_transient(outcome) && attempt < max_attempts
}

/// The attempt at which a run settles and the outcome it hands back, when
/// attempt number `attempt` and those after it end as `script` lists them.
pub open spec fn settle<T>(script: Seq<Result<T, ChainError>>, attempt: nat, max_attempts: nat) -> (
    nat,
    Result<T, ChainError>,
)
    recommends
        script.len() > 0,
    decreases script.len(),
{
    if script.len() <= 1 || !tries_again(attempt, max_attempts, script[0]) {
        (attempt, script[0])
    } else {
        settle(script.drop_first(), attempt + 1, max_attempts)
    }
}

/// A script of `k` dropped connections followed by the success `value`.
pub open spec fn flaky<T>(k: nat, value: T) -> Seq<Result<T, ChainError>> {
    Seq::new(k + 1, |i: int| if i < k { Err(ChainError::TransientDisconnect) } else { Ok(value) })
}

/// Decides after one attempt whether the operation is attempted again.
pub fn should_retry<T>(attempt: u32, max_attempts: u32, outcome: &Result<T, ChainError>) -> (again: bool)
    ensures
        again == tries_again(attempt as nat, max_attempts as nat, *outcome),
{
    match outcome {
        Err(e) => e.is_transient() && attempt < max_attempts,
        Ok(_) => false,
    }
}

/// Whether each outcome in `script` is one that `op` can produce.
pub open spec fn run_of<T, F: Fn() -> Result<T, ChainError>>(
    op: &F,
    script: Seq<Result<T, ChainError>>,
) -> bool {
    forall|i: int| 0 <= i < script.len() ==> op.ensures((), #[trigger] script[i])
}

/// A run in which every attempt but the last is followed by another settles
/// at its last attempt.
pub proof fn lemma_settle_at_last<T>(script: Seq<Result<T, ChainError>>, attempt: nat, max_attempts: nat)
    requires
        script.len() >= 1,
        forall|i: int|
            0 <= i < script.len() - 1 ==> tries_again(
                (attempt + i) as nat,
                max_attempts,
                #[trigger] script[i],
            ),
    ensures
        settle(script, attempt, max_attempts) == ((attempt + script.len() - 1) as nat, script.last()),
    decreases script.len(),
{
    if script.len() > 1 {
        let rest = script.drop_first();
        assert(tries_again(attempt, max_attempts, script[0]));
        assert forall|i: int| 0 <= i < rest.len() - 1 implies tries_again(
            (attempt + 1 + i) as nat,
            max_attempts,
            #[trigger] rest[i],
        ) by {
            assert(rest[i] == script[i + 1]);
        }
        lemma_settle_at_last(rest, attempt + 1, max_attempts);
        assert(rest.last() == script.last());
    }
}

/// Runs `op` until it succeeds, fails for good, or `max_attempts` attempts are
/// spent, and returns the last outcome together with the number of attempts.
///
/// The attempts made follow the retry rule: their outcomes form a script, as
/// long as the number of attempts, on which the rule settles at the outcome
/// and the attempt that are returned. So a dropped connection is handed back
/// only when the budget is spent, and a second attempt is made only after a
/// dropped connection.
pub fn retry_counted<T, F: Fn() -> Result<T, ChainError>>(op: &F, max_attempts: u32) -> (out: (
    Result<T, ChainError>,
    u32,
))
    requires
        max_attempts >= 1,
        op.requires(()),
    ensures
        op.ensures((), out.0),
        1 <= out.1 <= max_attempts,
        is_transient(out.0) ==> out.1 == max_attempts,
        exists|script: Seq<Result<T, ChainError>>|
            #![trigger run_of(op, script)]
            run_of(op, script) && script.len() == out.1 && settle(script, 1, max_attempts as nat) == (
                out.1 as nat,
                out.0,
            ),
{
    let mut attempt: u32 = 1;
    let mut outcome = op();
    let ghost mut script: Seq<Result<T, ChainError>> = seq![outcome];
    while should_retry(attempt, max_attempts, &outcome)
        invariant
            1 <= attempt <= max_attempts,
            op.requires(()),
            op.ensures((), outcome),
            script.len() == attempt,
            script.last() == outcome,
            run_of(op, script),
            forall|i: int|
                0 <= i < script.len() - 1 ==> tries_again(
                    (1 + i) as nat,
                    max_attempts as nat,
                    #[trigger] script[i],
                ),
        decreases max_attempts - attempt,
    {
        attempt = attempt + 1;
        outcome = op();
        proof {
            script = script.push(outcome);
        }
    }
    proof {
        lemma_settle_at_last(script, 1, max_attempts as nat);
    }
    (outcome, attempt)
}

/// Runs `op` under the retry rule and returns its last outcome: the one at
/// which the rule settles on the outcomes of the attempts made.
pub fn retry<T, F: Fn() -> Result<T, ChainError>>(op: &F, max_attempts: u32) -> (outcome: Result<
    T,
    ChainError,
>)
    requires
        max_attempts >= 1,
        op.requires(()),
    ensures
        op.ensures((), outcome),
        exists|script: Seq<Result<T, ChainError>>|
            #![trigger run_of(op, script)]
            run_of(op, script) && 1 <= script.len() <= max_attempts && settle(
                script,
                1,
                max_attempts as nat,
            ) == (script.len(), outcome),
{
    retry_counted(op, max_attempts).0
}

impl RetryPolicy {
    /// Runs `op` under this policy and returns its last outcome.
    pub fn run<T, F: Fn() -> Result<T, ChainError>>(&self, op: &F) -> (outcome: Result<T, ChainError>)
        requires
            self.wf(),
            op.requires(()),
        ensures
            op.ensures((), outcome),
            exists|script: Seq<Result<T, ChainError>>|
                #![trigger run_of(op, script)]
                run_of(op, script) && 1 <= script.len() <= self.max_attempts && settle(
                    script,
                    1,
                    self.max_attempts as nat,
                ) == (script.len(), outcome),
    {
        retry(op, self.max_attempts)
    }
}

/// An operation that drops the connection exactly `k` times and then succeeds
/// is attempted `min(k + 1, n)` times under a budget of `n`, and the run
/// succeeds exactly when `k < n`.
pub proof fn lemma_flaky_then_success<T>(k: nat, n: nat, value: T)
    requires
        n >= 1,
    ensures
        settle(flaky(k, value), 1, n).0 == if k + 1 <= n { k + 1 } else { n },
        settle(flaky(k, value), 1, n).1 is Ok <==> k < n,
        k < n ==> settle(flaky(k, value), 1, n).1 == Ok::<T, ChainError>(value),
        k >= n ==> is_transient(settle(flaky(k, value), 1, n).1),
{
    lemma_flaky_from(k, 1, n, value);
}

/// The same, for a run that is already at attempt number `attempt`.
pub proof fn lemma_flaky_from<T>(k: nat, attempt: nat, n: nat, value: T)
    requires
        1 <= attempt <= n,
    ensures
        settle(flaky(k, value), attempt, n).0 == if attempt + k <= n { attempt + k } else { n },
        settle(flaky(k, value), attempt, n).1 is Ok <==> attempt + k <= n,
        attempt + k <= n ==> settle(flaky(k, value), attempt, n).1 == Ok::<T, ChainError>(value),
        attempt + k > n ==> is_transient(settle(flaky(k, value), attempt, n).1),
    decreases k,
{
    let script = flaky(k, value);
    if k > 0 && attempt < n {
        assert(script.drop_first() =~= flaky((k - 1) as nat, value));
        lemma_flaky_from((k - 1) as nat, attempt + 1, n, value);
    }
}

/// A failure on the first attempt that is no dropped connection ends the run
/// after that one attempt and is handed back as it is.
pub proof fn lemma_fatal_error_stops<T>(script: Seq<Result<T, ChainError>>, n: nat)
    requires
        script.len() > 0,
        script[0] is Err,
        !is_transient(script[0]),
    ensures
        settle(script, 1, n) == (1nat, script[0]),
{
}

} // verus!
