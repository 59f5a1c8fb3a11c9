//! Bounded retry with a fixed delay between attempts.

use vstd::prelude::*;
use crate::error::{Failure, RetryError};

verus! {

/// How often an operation is attempted and how long to wait in between.
/// The bound is on attempts, not on time.
#[derive(Clone, Copy, Debug, PartialEq, Eq, Structural)]
pub struct RetryPolicy {
    pub max_attempts: u32,
    pub delay_secs: u64,
}

impl RetryPolicy {
    pub fn new(max_attempts: u32, delay_secs: u64) -> (p: Self)
        ensures
            p == (RetryPolicy { max_attempts, delay_secs }),
    {
        RetryPolicy { max_attempts, delay_secs }
    }

    /// The policy for artifact downloads: nine attempts, three seconds apart.
    pub fn downloads() -> (p: Self)
        ensures
            p == (RetryPolicy { max_attempts: 9, delay_secs: 3 }),
    {
        RetryPolicy { max_attempts: 9, delay_secs: 3 }
    }

    /// The policy for metadata fetches: ten attempts, three seconds apart.
    pub fn metadata() -> (p: Self)
        ensures
            p == (RetryPolicy { max_attempts: 10, delay_secs: 3 }),
    {
        RetryPolicy { max_attempts: 10, delay_secs: 3 }
    }
}

/// What to do after an attempt.
pub enum Verdict<T> {
    /// The operation is over, with this result.
    Finished(Result<T, RetryError>),
    /// Wait this many seconds, then attempt again.
    RetryAfter(u64),
}

/// What a retried operation comes to when its attempts turn out as
/// `outcomes`, in order, after `failed` earlier attempts of which the last
/// failed with `last`. `None` while more outcomes are needed to tell.
pub open spec fn settle<T>(
    policy: RetryPolicy,
    failed: nat,
    last: Option<Failure>,
    outcomes: Seq<Result<T, Failure>>,
) -> Option<Result<T, RetryError>>
    decreases outcomes.len(),
{
    if failed >= policy.max_attempts {
        Some(Err(RetryError::RetriesExhausted { attempts: policy.max_attempts, last }))
    } else if outcomes.len() == 0 {
        None
    } else {
        match outcomes[0] {
            Ok(v) => Some(Ok(v)),
            Err(f) => if f.transient() {
                settle(policy, failed + 1, Some(f), outcomes.drop_first())
            } else {
                Some(Err(RetryError::Failed(f)))
            },
        }
    }
}

/// What a retried operation comes to when its attempts turn out as
/// `outcomes`, counted from the first attempt.
pub open spec fn retry_outcome<T>(policy: RetryPolicy, outcomes: Seq<Result<T, Failure>>) -> Option<
    Result<T, RetryError>,
> {
    settle(policy, 0, None, outcomes)
}

/// The attempts made so far under one policy.
pub struct RetryState {
    policy: RetryPolicy,
    failed: u32,
    last: Option<Failure>,
}

impl RetryState {
    #[verifier::type_invariant]
    spec fn inv(self) -> bool {
        self.failed <= self.policy.max_attempts
    }

    pub closed spec fn policy(self) -> RetryPolicy {
        self.policy
    }

    /// The number of attempts that failed so far.
    pub closed spec fn failed(self) -> nat {
        self.failed as nat
    }

    /// The failure of the latest failed attempt.
    pub closed spec fn last(self) -> Option<Failure> {
        self.last
    }

    /// No attempt is left.
    pub open spec fn spent(self) -> bool {
        self.failed() >= self.policy().max_attempts
    }

    pub fn new(policy: RetryPolicy) -> (s: Self)
        ensures
            s.policy() == policy,
            s.failed() == 0,
            s.last() is None,
    {
        RetryState { policy, failed: 0, last: None }
    }

    /// The delay between two attempts, in seconds.
    pub fn delay(&self) -> (secs: u64)
        ensures
            secs == self.policy().delay_secs,
    {
        self.policy.delay_secs
    }

    /// The number of attempts that failed so far.
    pub fn attempts_failed(&self) -> (n: u32)
        ensures
            n == self.failed(),
    {
        self.failed
    }

    /// Whether another attempt may be made. Where none may, the error to
    /// report is returned.
    pub fn check(&self) -> (r: Result<(), RetryError>)
        ensures
            r is Ok <==> !self.spent(),
            r is Err ==> r == Err::<(), RetryError>(
                RetryError::RetriesExhausted {
                    attempts: self.policy().max_attempts,
                    last: self.last(),
                },
            ),
    {
        proof {
            use_type_invariant(self);
        }
        if self.failed >= self.policy.max_attempts {
            Err(RetryError::RetriesExhausted { attempts: self.policy.max_attempts, last: self.last })
        } else {
            Ok(())
        }
    }

    /// Records that an attempt failed with `failure` and decides what follows:
    /// `Ok` with the delay to wait before the next attempt, or `Err` with the
    /// error that ends the operation. A failure that is not transient ends it
    /// at once; a transient one ends it when it was the last permitted
    /// attempt. A failure reported when no attempt was left changes nothing.
    pub fn fail(&mut self, failure: Failure) -> (r: Result<u64, RetryError>)
        ensures
            final(self).policy() == old(self).policy(),
            failed(*old(self), failure, r, *final(self)),
    {
        proof {
            use_type_invariant(&*self);
        }
        if !failure.is_transient() {
            return Err(RetryError::Failed(failure));
        }
        if self.failed >= self.policy.max_attempts {
            return Err(
                RetryError::RetriesExhausted { attempts: self.policy.max_attempts, last: self.last },
            );
        }
        self.failed = self.failed + 1;
        self.last = Some(failure);
        if self.failed >= self.policy.max_attempts {
            Err(RetryError::RetriesExhausted { attempts: self.policy.max_attempts, last: Some(failure) })
        } else {
            Ok(self.policy.delay_secs)
        }
    }
}

/// The decision `r` and the state `after` that follow from `before` when an
/// attempt fails with `failure`.
pub open spec fn failed(
    before: RetryState,
    failure: Failure,
    r: Result<u64, RetryError>,
    after: RetryState,
) -> bool {
    if !failure.transient() {
        &&& r == Err::<u64, RetryError>(RetryError::Failed(failure))
        &&& after.failed() == before.failed()
        &&& after.last() == before.last()
    } else if before.spent() {
        &&& r == Err::<u64, RetryError>(
            RetryError::RetriesExhausted {
                attempts: before.policy().max_attempts,
                last: before.last(),
            },
        )
        &&& after.failed() == before.failed()
        &&& after.last() == before.last()
    } else {
        &&& after.failed() == before.failed() + 1
        &&& after.last() == Some(failure)
        &&& r == if before.failed() + 1 >= before.policy().max_attempts {
            Err::<u64, RetryError>(
                RetryError::RetriesExhausted {
                    attempts: before.policy().max_attempts,
                    last: Some(failure),
                },
            )
        } else {
            Ok::<u64, RetryError>(before.policy().delay_secs)
        }
    }
}

impl RetryState {
    /// Takes in the outcome of one attempt: a success ends the operation with
    /// its value, a failure is handled as [`RetryState::fail`] says.
    pub fn judge<T>(&mut self, outcome: Result<T, Failure>) -> (v: Verdict<T>)
        ensures
            final(self).policy() == old(self).policy(),
            judged(*old(self), outcome, v, *final(self)),
    {
        match outcome {
            Ok(value) => Verdict::Finished(Ok(value)),
            Err(failure) => match self.fail(failure) {
                Ok(secs) => Verdict::RetryAfter(secs),
                Err(e) => Verdict::Finished(Err(e)),
            },
        }
    }
}

/// The verdict `v` and the state `after` that follow from `before` when an
/// attempt turns out as `outcome`.
pub open spec fn judged<T>(
    before: RetryState,
    outcome: Result<T, Failure>,
    v: Verdict<T>,
    after: RetryState,
) -> bool {
    let exhausted = |last: Option<Failure>|
        Verdict::Finished(
            Err::<T, RetryError>(
                RetryError::RetriesExhausted { attempts: before.policy().max_attempts, last },
            ),
        );
    match outcome {
        Ok(value) => {
            &&& v == Verdict::Finished(Ok::<T, RetryError>(value))
            &&& after.failed() == before.failed()
            &&& after.last() == before.last()
        },
        Err(failure) => if !failure.transient() {
            &&& v == Verdict::Finished(Err::<T, RetryError>(RetryError::Failed(failure)))
            &&& after.failed() == before.failed()
            &&& after.last() == before.last()
        } else if before.spent() {
            &&& v == exhausted(before.last())
            &&& after.failed() == before.failed()
            &&& after.last() == before.last()
        } else {
            &&& after.failed() == before.failed() + 1
            &&& after.last() == Some(failure)
            &&& v == if before.failed() + 1 >= before.policy().max_attempts {
                exhausted(Some(failure))
            } else {
                Verdict::<T>::RetryAfter(before.policy().delay_secs)
            }
        },
    }
}

/// The first `n` of `outcomes` are transient failures.
pub open spec fn all_transient<T>(outcomes: Seq<Result<T, Failure>>, n: int) -> bool {
    forall|j: int| 0 <= j < n ==> (#[trigger] outcomes[j]) is Err && outcomes[j]->Err_0.transient()
}

/// The failure of the attempt before attempt `n`, or `last` where `n` is 0.
pub open spec fn failure_before<T>(
    outcomes: Seq<Result<T, Failure>>,
    n: int,
    last: Option<Failure>,
) -> Option<Failure> {
    if n <= 0 {
        last
    } else {
        Some(outcomes[n - 1]->Err_0)
    }
}

/// Transient failures that the policy still permits are passed over: the
/// operation comes to what the outcomes after them give.
pub proof fn lemma_settle_skip<T>(
    policy: RetryPolicy,
    failed: nat,
    last: Option<Failure>,
    outcomes: Seq<Result<T, Failure>>,
    n: int,
)
    requires
        0 <= n <= outcomes.len(),
        failed + n <= policy.max_attempts,
        all_transient(outcomes, n),
    ensures
        settle(policy, failed, last, outcomes) == settle(
            policy,
            (failed + n) as nat,
            failure_before(outcomes, n, last),
            outcomes.skip(n),
        ),
    decreases n,
{
    if n == 0 {
        assert(outcomes.skip(0) =~= outcomes);
    } else {
        let first = outcomes[0];
        let rest = outcomes.drop_first();
        assert(all_transient(rest, n - 1));
        lemma_settle_skip(policy, failed + 1, Some(first->Err_0), rest, n - 1);
        assert(rest.skip(n - 1) =~= outcomes.skip(n));
    }
}

/// The first success is the result, whatever later attempts would have
/// given: after transient failures only, a success within the bound ends
/// the operation with its value.
pub proof fn lemma_first_success<T>(
    policy: RetryPolicy,
    outcomes: Seq<Result<T, Failure>>,
    i: int,
)
    requires
        0 <= i < outcomes.len(),
        i < policy.max_attempts,
        all_transient(outcomes, i),
        outcomes[i] is Ok,
    ensures
        retry_outcome(policy, outcomes) == Some(Ok::<T, RetryError>(outcomes[i]->Ok_0)),
{
    lemma_settle_skip(policy, 0, None, outcomes, i);
}

/// A failure that is not transient is surfaced at once, untagged.
pub proof fn lemma_fatal_failure<T>(
    policy: RetryPolicy,
    outcomes: Seq<Result<T, Failure>>,
    i: int,
)
    requires
        0 <= i < outcomes.len(),
        i < policy.max_attempts,
        all_transient(outcomes, i),
        outcomes[i] is Err,
        !outcomes[i]->Err_0.transient(),
    ensures
        retry_outcome(policy, outcomes) == Some(
            Err::<T, RetryError>(RetryError::Failed(outcomes[i]->Err_0)),
        ),
{
    lemma_settle_skip(policy, 0, None, outcomes, i);
}

/// Where every attempt fails with a transient failure, the operation is
/// given up after exactly the permitted number of attempts, with the last
/// failure: fewer outcomes do not settle it, and outcomes beyond the bound
/// are never asked for.
pub proof fn lemma_exhaustion<T>(policy: RetryPolicy, outcomes: Seq<Result<T, Failure>>)
    requires
        all_transient(outcomes, outcomes.len() as int),
    ensures
        outcomes.len() < policy.max_attempts ==> retry_outcome(policy, outcomes) is None,
        outcomes.len() >= policy.max_attempts ==> retry_outcome(policy, outcomes) == Some(
            Err::<T, RetryError>(
                RetryError::RetriesExhausted {
                    attempts: policy.max_attempts,
                    last: failure_before(outcomes, policy.max_attempts as int, None),
                },
            ),
        ),
{
    if outcomes.len() < policy.max_attempts {
        lemma_settle_skip(policy, 0, None, outcomes, outcomes.len() as int);
    } else {
        lemma_settle_skip(policy, 0, None, outcomes, policy.max_attempts as int);
    }
}

/// One attempt's verdict agrees with the model: where the verdict ends the
/// operation, its result is what the outcomes come to, and where it asks for
/// another attempt, the rest of the outcomes decide from the new state.
pub proof fn lemma_judged_settles<T>(
    before: RetryState,
    outcome: Result<T, Failure>,
    v: Verdict<T>,
    after: RetryState,
    rest: Seq<Result<T, Failure>>,
)
    requires
        judged(before, outcome, v, after),
        after.policy() == before.policy(),
        !before.spent(),
    ensures
        settle(before.policy(), before.failed(), before.last(), seq![outcome] + rest) == match v {
            Verdict::Finished(r) => Some(r),
            Verdict::RetryAfter(_) => settle(after.policy(), after.failed(), after.last(), rest),
        },
{
    let all = seq![outcome] + rest;
    assert(all.drop_first() =~= rest);
}

/// `outcomes[i]` is something that attempt number `i` of `op` can return.
pub open spec fn attempts_of<T, Op: Fn(u32) -> Result<T, Failure>>(
    op: Op,
    outcomes: Seq<Result<T, Failure>>,
) -> bool {
    forall|i: int| 0 <= i < outcomes.len() ==> call_ensures(op, (i as u32,), #[trigger] outcomes[i])
}

/// Runs `op` under `policy`: `op` is called with the number of the attempt,
/// starting at 0, until it succeeds, fails for good or the attempts run out,
/// and `pause` is called with the policy's delay between two attempts.
///
/// The result is what the model gives for the outcomes of the calls that
/// were made, and no call is made once the result is settled.
pub fn with_retry<T, Op, Pause>(op: Op, pause: Pause, policy: RetryPolicy) -> (r: Result<T, RetryError>)
    where
        Op: Fn(u32) -> Result<T, Failure>,
        Pause: Fn(u64),
    requires
        forall|i: u32| i < policy.max_attempts ==> call_requires(op, (i,)),
        call_requires(pause, (policy.delay_secs,)),
    ensures
        exists|outcomes: Seq<Result<T, Failure>>|
            {
                &&& attempts_of(op, outcomes)
                &&& outcomes.len() <= policy.max_attempts
                &&& #[trigger] retry_outcome(policy, outcomes) == Some(r)
                &&& outcomes.len() > 0 ==> retry_outcome(policy, outcomes.drop_last()) is None
            },
{
    let mut state = RetryState::new(policy);
    let mut attempt: u32 = 0;
    let ghost mut trace: Seq<Result<T, Failure>> = Seq::empty();
    loop
        invariant
            state.policy() == policy,
            state.failed() == attempt,
            trace.len() == attempt,
            attempt < policy.max_attempts || attempt == 0,
            all_transient(trace, trace.len() as int),
            attempts_of(op, trace),
            state.last() == failure_before(trace, trace.len() as int, None),
            forall|i: u32| i < policy.max_attempts ==> call_requires(op, (i,)),
            call_requires(pause, (policy.delay_secs,)),
        decreases policy.max_attempts - attempt,
    {
        match state.check() {
            Err(e) => {
                proof {
                    lemma_exhaustion(policy, trace);
                }
                return Err(e);
            },
            Ok(_) => {},
        }
        let outcome = op(attempt);
        let ghost before = state;
        let ghost seen = trace;
        proof {
            trace = trace.push(outcome);
            assert(trace.drop_last() =~= seen);
            lemma_exhaustion(policy, seen);
            assert(all_transient(trace, attempt as int));
            lemma_settle_skip(policy, 0, None, trace, attempt as int);
            assert(trace.skip(attempt as int) =~= seq![outcome] + Seq::empty());
            assert(failure_before(trace, attempt as int, None) == before.last());
            assert(attempts_of(op, trace));
        }
        match state.judge(outcome) {
            Verdict::Finished(r) => {
                proof {
                    lemma_judged_settles(before, outcome, Verdict::Finished(r), state, Seq::empty());
                    assert(retry_outcome(policy, trace) == Some(r));
                }
                return r;
            },
            Verdict::RetryAfter(secs) => {
                pause(secs);
                attempt = attempt + 1;
            },
        }
    }
}

} // verus!
