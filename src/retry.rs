use vstd::prelude::*;

verus! {

/// How many times an upload is tried, and how long to wait between tries.
#[derive(Clone, Copy, Debug, PartialEq, Eq)]
pub struct RetryPolicy {
    pub max_attempts: u32,
    pub backoff_ms: u64,
}

/// What the retry coordinator asks its driver to do next.
#[derive(Clone, Copy, Debug, PartialEq, Eq)]
pub enum RetryAction {
    /// Make attempt number `attempt` (the first is 1) at once.
    Attempt { attempt: u32 },
    /// Wait `backoff_ms` milliseconds, then make attempt number `attempt`.
    SleepThenAttempt { backoff_ms: u64, attempt: u32 },
    /// Stop: attempt number `attempts` succeeded.
    Succeeded { attempts: u32 },
    /// Stop: all `attempts` attempts failed.
    Exhausted { attempts: u32 },
}

/// The first step of an upload under `policy`.
pub open spec fn spec_first_action(policy: RetryPolicy) -> RetryAction {
    if policy.max_attempts == 0 {
        RetryAction::Exhausted { attempts: 0 }
    } else {
        RetryAction::Attempt { attempt: 1 }
    }
}

/// The step after attempt number `attempt` under `policy`, which succeeded or failed.
pub open spec fn spec_after_attempt(policy: RetryPolicy, attempt: u32, succeeded: bool) -> RetryAction {
    if succeeded {
        RetryAction::Succeeded { attempts: attempt }
    } else if attempt < policy.max_attempts {
        RetryAction::SleepThenAttempt { backoff_ms: policy.backoff_ms, attempt: (attempt + 1) as u32 }
    } else {
        RetryAction::Exhausted { attempts: attempt }
    }
}

/// The first step of an upload under `policy`: the first attempt, unless no attempt is allowed.
pub fn first_action(policy: RetryPolicy) -> (r: RetryAction)
    ensures
        r == spec_first_action(policy),
{
    if policy.max_attempts == 0 {
        RetryAction::Exhausted { attempts: 0 }
    } else {
        RetryAction::Attempt { attempt: 1 }
    }
}

/// The step after attempt number `attempt`: stop on success; on failure, wait and try again
/// while attempts remain, else stop exhausted.
pub fn after_attempt(policy: RetryPolicy, attempt: u32, succeeded: bool) -> (r: RetryAction)
    requires
        1 <= attempt <= policy.max_attempts,
    ensures
        r == spec_after_attempt(policy, attempt, succeeded),
{
    if succeeded {
        RetryAction::Succeeded { attempts: attempt }
    } else if attempt < policy.max_attempts {
        RetryAction::SleepThenAttempt { backoff_ms: policy.backoff_ms, attempt: attempt + 1 }
    } else {
        RetryAction::Exhausted { attempts: attempt }
    }
}

/// What a run of the coordinator did: attempts made, waits made, and whether it succeeded.
pub struct RetryTrace {
    pub attempts: nat,
    pub sleeps: nat,
    pub succeeded: bool,
}

/// The run of the coordinator from `action` when the attempts report `outcomes` in turn.
pub open spec fn drive(policy: RetryPolicy, action: RetryAction, outcomes: Seq<bool>) -> RetryTrace
    decreases outcomes.len(),
{
    match action {
        RetryAction::Succeeded { .. } => RetryTrace { attempts: 0, sleeps: 0, succeeded: true },
        RetryAction::Exhausted { .. } => RetryTrace { attempts: 0, sleeps: 0, succeeded: false },
        RetryAction::Attempt { attempt } => {
            if outcomes.len() == 0 {
                RetryTrace { attempts: 0, sleeps: 0, succeeded: false }
            } else {
                let rest = drive(policy, spec_after_attempt(policy, attempt, outcomes[0]), outcomes.drop_first());
                RetryTrace { attempts: rest.attempts + 1, sleeps: rest.sleeps, succeeded: rest.succeeded }
            }
        },
        RetryAction::SleepThenAttempt { attempt, .. } => {
            if outcomes.len() == 0 {
                RetryTrace { attempts: 0, sleeps: 1, succeeded: false }
            } else {
                let rest = drive(policy, spec_after_attempt(policy, attempt, outcomes[0]), outcomes.drop_first());
                RetryTrace { attempts: rest.attempts + 1, sleeps: rest.sleeps + 1, succeeded: rest.succeeded }
            }
        },
    }
}

/// Whether one of the first `n` outcomes is a success.
pub open spec fn some_success(outcomes: Seq<bool>, n: nat) -> bool {
    exists|i: int| 0 <= i < n && outcomes[i]
}

/// Attempts made when up to `n` attempts report `outcomes` in turn: up to the first success.
pub open spec fn attempts_until_success(outcomes: Seq<bool>, n: nat) -> nat
    decreases n,
{
    if n == 0 {
        0
    } else if outcomes[0] {
        1
    } else {
        1 + attempts_until_success(outcomes.drop_first(), (n - 1) as nat)
    }
}

proof fn lemma_drive_from(policy: RetryPolicy, attempt: u32, outcomes: Seq<bool>, slept: bool)
    requires
        1 <= attempt <= policy.max_attempts,
        outcomes.len() >= policy.max_attempts - attempt + 1,
    ensures
        ({
            let n = (policy.max_attempts - attempt + 1) as nat;
            let action = if slept {
                RetryAction::SleepThenAttempt { backoff_ms: policy.backoff_ms, attempt }
            } else {
                RetryAction::Attempt { attempt }
            };
            let t = drive(policy, action, outcomes);
            &&& t.succeeded == some_success(outcomes, n)
            &&& t.attempts == attempts_until_success(outcomes, n)
            &&& t.sleeps == t.attempts - 1 + (if slept { 1int } else { 0int })
        }),
    decreases policy.max_attempts - attempt,
{
    let n = (policy.max_attempts - attempt + 1) as nat;
    let rest = outcomes.drop_first();
    let action = if slept {
        RetryAction::SleepThenAttempt { backoff_ms: policy.backoff_ms, attempt }
    } else {
        RetryAction::Attempt { attempt }
    };
    let next = spec_after_attempt(policy, attempt, outcomes[0]);
    let t = drive(policy, action, outcomes);
    let tr = drive(policy, next, rest);
    assert(t.attempts == tr.attempts + 1);
    assert(t.succeeded == tr.succeeded);
    assert(t.sleeps == tr.sleeps + (if slept { 1int } else { 0int }));
    if outcomes[0] {
        assert(some_success(outcomes, n));
        assert(attempts_until_success(outcomes, n) == 1);
    } else if attempt < policy.max_attempts {
        lemma_drive_from(policy, (attempt + 1) as u32, rest, true);
        let m = (n - 1) as nat;
        assert(attempts_until_success(outcomes, n) == 1 + attempts_until_success(rest, m));
        if some_success(rest, m) {
            let i = choose|i: int| 0 <= i < m && rest[i];
            assert(outcomes[i + 1]);
        }
        if some_success(outcomes, n) {
            let i = choose|i: int| 0 <= i < n && outcomes[i];
            assert(rest[i - 1]);
        }
    } else {
        assert(n == 1);
        assert(!some_success(outcomes, n));
        assert(attempts_until_success(outcomes, n) == 1 + attempts_until_success(rest, 0));
    }
}

/// Bounded retry: under a policy of at least one attempt, a run makes attempts up to the
/// first success and no more than the policy allows, waits once before each attempt but the
/// first, and succeeds exactly when one of the attempts it was allowed succeeded.
pub proof fn lemma_retry_run(policy: RetryPolicy, outcomes: Seq<bool>)
    requires
        policy.max_attempts >= 1,
        outcomes.len() >= policy.max_attempts,
    ensures
        drive(policy, spec_first_action(policy), outcomes).succeeded == some_success(outcomes, policy.max_attempts as nat),
        drive(policy, spec_first_action(policy), outcomes).attempts == attempts_until_success(outcomes, policy.max_attempts as nat),
        drive(policy, spec_first_action(policy), outcomes).sleeps + 1 == drive(policy, spec_first_action(policy), outcomes).attempts,
        attempts_until_success(outcomes, policy.max_attempts as nat) <= policy.max_attempts,
{
    lemma_drive_from(policy, 1, outcomes, false);
    lemma_attempts_bound(outcomes, policy.max_attempts as nat);
}

proof fn lemma_attempts_bound(outcomes: Seq<bool>, n: nat)
    ensures
        attempts_until_success(outcomes, n) <= n,
        n >= 1 ==> attempts_until_success(outcomes, n) >= 1,
    decreases n,
{
    if n > 0 && !outcomes[0] {
        lemma_attempts_bound(outcomes.drop_first(), (n - 1) as nat);
    }
}

/// When every allowed attempt fails, a run makes every attempt, waits between each two,
/// and ends exhausted.
pub proof fn lemma_retry_exhaustion(policy: RetryPolicy, outcomes: Seq<bool>)
    requires
        policy.max_attempts >= 1,
        outcomes.len() >= policy.max_attempts,
        forall|i: int| 0 <= i < policy.max_attempts ==> !outcomes[i],
    ensures
        drive(policy, spec_first_action(policy), outcomes).attempts == policy.max_attempts,
        drive(policy, spec_first_action(policy), outcomes).sleeps == policy.max_attempts - 1,
        !drive(policy, spec_first_action(policy), outcomes).succeeded,
{
    lemma_retry_run(policy, outcomes);
    lemma_all_fail(outcomes, policy.max_attempts as nat);
}

proof fn lemma_all_fail(outcomes: Seq<bool>, n: nat)
    requires
        outcomes.len() >= n,
        forall|i: int| 0 <= i < n ==> !outcomes[i],
    ensures
        attempts_until_success(outcomes, n) == n,
    decreases n,
{
    if n > 0 {
        assert(!outcomes[0]);
        let rest = outcomes.drop_first();
        assert forall|i: int| 0 <= i < n - 1 implies !rest[i] by {
            assert(!outcomes[i + 1]);
        }
        lemma_all_fail(rest, (n - 1) as nat);
    }
}

} // verus!
