//! Retry decisions: after each attempt of an operation, whether to wait and
//! try again or to finish with what the attempt returned.
use vstd::prelude::*;

verus! {

/// A fixed-delay retry policy.
#[derive(Debug, Clone, Copy, PartialEq, Eq, Structural)]
pub struct RetryPolicy {
    /// The wait before each retry, in milliseconds.
    pub delay_ms: u64,
    /// How many times a failed operation is tried again.
    pub max_retries: u32,
    /// Whether each wait is scaled by a random fraction.
    pub jitter: bool,
}

/// What to do after an attempt.
#[derive(Debug)]
pub enum RetryStep<T, E> {
    /// Stop and hand this result to the caller.
    Finish(Result<T, E>),
    /// Wait, then try again.
    Again,
}

/// The step after an attempt with this outcome, when `failures` attempts
/// failed before it.
pub open spec fn step_spec<T, E>(max_retries: nat, failures: nat, outcome: Result<T, E>) -> RetryStep<T, E> {
    match outcome {
        Ok(v) => RetryStep::Finish(Ok(v)),
        Err(e) => if failures < max_retries {
            RetryStep::Again
        } else {
            RetryStep::Finish(Err(e))
        },
    }
}

/// The result of running attempts whose outcomes are `outcomes`, in order,
/// when `failures` attempts failed before them; `None` where the outcomes
/// run out before the policy finishes.
pub open spec fn run_spec<T, E>(max_retries: nat, failures: nat, outcomes: Seq<Result<T, E>>) -> Option<Result<T, E>>
    decreases outcomes.len(),
{
    if outcomes.len() == 0 {
        None
    } else {
        match step_spec(max_retries, failures, outcomes[0]) {
            RetryStep::Finish(r) => Some(r),
            RetryStep::Again => run_spec(max_retries, failures + 1, outcomes.drop_first()),
        }
    }
}

/// The waits in milliseconds that a jittered wait may take: the fraction
/// `draw / 1000` of the full delay.
pub open spec fn jittered_ms(delay_ms: u64, draw: u64) -> int {
    delay_ms as int * draw as int / 1000
}

impl RetryPolicy {
    /// 200 ms between attempts, scaled by a random fraction, and up to five
    /// retries: six attempts in all.
    pub fn standard() -> (r: RetryPolicy)
        ensures
            r.delay_ms == 200,
            r.max_retries == 5,
            r.jitter,
    {
        RetryPolicy { delay_ms: 200, max_retries: 5, jitter: true }
    }

    /// The step after an attempt with this outcome, when `failures` attempts
    /// failed before it.
    pub fn step<T, E>(&self, failures: u32, outcome: Result<T, E>) -> (r: RetryStep<T, E>)
        ensures
            r == step_spec(self.max_retries as nat, failures as nat, outcome),
    {
        match outcome {
            Ok(v) => RetryStep::Finish(Ok(v)),
            Err(e) => if failures < self.max_retries {
                RetryStep::Again
            } else {
                RetryStep::Finish(Err(e))
            },
        }
    }

    /// The wait before a retry. With jitter, `draw` picks the fraction
    /// `draw / 1000` of the delay; without, the full delay is waited.
    pub fn delay_ms(&self, draw: u64) -> (r: u64)
        requires
            1 <= draw <= 1000,
        ensures
            !self.jitter ==> r == self.delay_ms,
            self.jitter ==> r == jittered_ms(self.delay_ms, draw),
            r <= self.delay_ms,
    {
        if self.jitter {
            assert(self.delay_ms as int * draw as int <= u64::MAX as int * 1000) by (nonlinear_arith)
                requires
                    draw <= 1000,
            ;
            let scaled: u128 = self.delay_ms as u128 * draw as u128 / 1000;
            assert(scaled <= self.delay_ms) by (nonlinear_arith)
                requires
                    scaled == self.delay_ms as int * draw as int / 1000,
                    draw <= 1000,
            ;
            scaled as u64
        } else {
            self.delay_ms
        }
    }
}

/// An operation that fails `k` times, with `k` at most the retry budget, and
/// then succeeds, ends in that success; one that fails once more than the
/// budget ends in its last failure.
pub proof fn lemma_retry_outcome<T, E>(
    max_retries: nat,
    k: nat,
    errors: Seq<E>,
    success: T,
    more: Seq<Result<T, E>>,
)
    requires
        errors.len() == k,
    ensures
        k <= max_retries ==> run_spec(
            max_retries,
            0,
            errors.map_values(|e: E| Err::<T, E>(e)).push(Ok(success)) + more,
        ) == Some(Ok::<T, E>(success)),
        k == max_retries + 1 ==> run_spec(
            max_retries,
            0,
            errors.map_values(|e: E| Err::<T, E>(e)) + more,
        ) == Some(Err::<T, E>(errors.last())),
{
    let fails = errors.map_values(|e: E| Err::<T, E>(e));
    if k <= max_retries {
        lemma_fails_then(max_retries, 0, fails, fails.push(Ok(success)) + more);
        assert((fails.push(Ok(success)) + more).subrange(k as int, (fails.push(Ok(success)) + more).len() as int)[0] == Ok::<T, E>(success));
    }
    if k == max_retries + 1 {
        lemma_fails_then(max_retries, 0, fails.drop_last(), fails + more);
        let tail = (fails + more).subrange(max_retries as int, (fails + more).len() as int);
        assert(tail[0] == Err::<T, E>(errors.last()));
    }
}

/// Failures that stay within the budget only count up: the run goes on as
/// from the outcomes after them.
proof fn lemma_fails_then<T, E>(
    max_retries: nat,
    failures: nat,
    fails: Seq<Result<T, E>>,
    all: Seq<Result<T, E>>,
)
    requires
        failures + fails.len() <= max_retries,
        fails.len() <= all.len(),
        forall|i: int| 0 <= i < fails.len() ==> (#[trigger] all[i]) is Err && fails[i] == all[i],
    ensures
        run_spec(max_retries, failures, all) == run_spec(
            max_retries,
            failures + fails.len(),
            all.subrange(fails.len() as int, all.len() as int),
        ),
    decreases fails.len(),
{
    if fails.len() == 0 {
        assert(all.subrange(0, all.len() as int) =~= all);
    } else {
        let rest = all.drop_first();
        assert forall|i: int| 0 <= i < fails.drop_first().len() implies (#[trigger] rest[i]) is Err
            && fails.drop_first()[i] == rest[i] by {
            assert(rest[i] == all[i + 1]);
        }
        lemma_fails_then(max_retries, failures + 1, fails.drop_first(), rest);
        assert(rest.subrange(fails.len() - 1, rest.len() as int) =~= all.subrange(
            fails.len() as int,
            all.len() as int,
        ));
    }
}

} // verus!
