//! The forwarder's retry policy: a delivery is attempted at most
//! [`MAX_ATTEMPTS`] times, with an exponential backoff between failed
//! attempts, and fails terminally once the budget is exhausted.

use vstd::prelude::*;

verus! {

/// The retry budget: a delivery is attempted at most this many times before
/// the call fails with an exhaustion error.
pub const MAX_ATTEMPTS: u32 = 3;

/// How one delivery attempt ended, as classified by the forwarder.
#[derive(Clone, Copy, Debug, PartialEq, Eq, Structural)]
pub enum AttemptOutcome {
    /// The endpoint answered with a success (2xx) status code.
    Success,
    /// The endpoint answered, but with a non-success status code.
    Rejected(u16),
    /// No HTTP answer arrived at all (connection refused, timeout, DNS).
    TransportError,
}

/// Terminal failure of a delivery call: the retry budget was exhausted.
#[derive(Clone, Copy, Debug, PartialEq, Eq, Structural)]
pub struct DeliveryFailure {
    /// How many attempts were made before giving up.
    pub attempts: u32,
}

/// What the forwarder does next after one attempt's outcome is known.
#[derive(Clone, Copy, Debug, PartialEq, Eq, Structural)]
pub enum SendStep {
    /// Delivery succeeded: stop, report success.
    Done,
    /// Wait this many seconds, then make the next attempt.
    Backoff(u64),
    /// The budget is exhausted: stop, report the failure.
    GiveUp(DeliveryFailure),
}

/// 2 to the power `n`.
pub open spec fn pow2(n: nat) -> nat
    decreases n,
{
    if n == 0 {
        1
    } else {
        2 * pow2((n - 1) as nat)
    }
}

/// Attempt `i + 1` is the first one to succeed: outcome `i` is a success and
/// every outcome before it is a failure.
pub open spec fn succeeds_at(outcomes: Seq<AttemptOutcome>, i: int) -> bool {
    &&& 0 <= i < outcomes.len()
    &&& outcomes[i] is Success
    &&& forall|j: int| 0 <= j < i ==> !((#[trigger] outcomes[j]) is Success)
}

/// Some attempt within the retry budget succeeds.
pub open spec fn delivered_within_budget(outcomes: Seq<AttemptOutcome>) -> bool {
    succeeds_at(outcomes, 0) || succeeds_at(outcomes, 1) || succeeds_at(outcomes, 2)
}

/// How many attempts the send loop makes over these outcomes: up to and
/// including the first success, and never more than the budget.
pub open spec fn spec_attempts_used(outcomes: Seq<AttemptOutcome>) -> int {
    if succeeds_at(outcomes, 0) {
        1
    } else if succeeds_at(outcomes, 1) {
        2
    } else {
        3
    }
}

/// The backoffs the send loop takes over these outcomes: one after each
/// failed attempt except the last, of `2^n` seconds after attempt `n`.
pub open spec fn spec_backoffs(outcomes: Seq<AttemptOutcome>) -> Seq<int> {
    Seq::new((spec_attempts_used(outcomes) - 1) as nat, |i: int| pow2((i + 1) as nat) as int)
}

/// The outcome sequence is long enough to drive the whole send loop: either
/// an attempt within the budget succeeds, or there is one outcome for every
/// attempt the budget allows.
pub open spec fn covers_budget(outcomes: Seq<AttemptOutcome>) -> bool {
    delivered_within_budget(outcomes) || outcomes.len() >= MAX_ATTEMPTS
}

/// A response status code counts as a successful delivery exactly when it is
/// in the 2xx range.
pub fn status_is_success(code: u16) -> (ok: bool)
    ensures
        ok == (200 <= code && code <= 299),
{
    200 <= code && code <= 299
}

/// Classifies an HTTP response status code into an attempt outcome: 2xx is a
/// success, anything else a retryable rejection carrying the code.
pub fn classify_status(code: u16) -> (outcome: AttemptOutcome)
    ensures
        200 <= code && code <= 299 ==> outcome == AttemptOutcome::Success,
        !(200 <= code && code <= 299) ==> outcome == AttemptOutcome::Rejected(code),
{
    if status_is_success(code) {
        AttemptOutcome::Success
    } else {
        AttemptOutcome::Rejected(code)
    }
}

/// The backoff before retrying after failed attempt `attempt` (1-indexed):
/// exactly `2^attempt` seconds.
pub fn backoff_secs(attempt: u32) -> (secs: u64)
    requires
        1 <= attempt < MAX_ATTEMPTS,
    ensures
        secs == pow2(attempt as nat),
{
    proof {
        assert(pow2(0) == 1);
        assert(pow2(1) == 2);
        assert(pow2(2) == 4);
    }
    if attempt == 1 {
        2
    } else {
        4
    }
}

/// Decides what the send loop does after attempt `attempt` (1-indexed) ended
/// with `outcome`: stop on success, back off and retry while budget remains,
/// give up with an exhaustion failure on the last failed attempt.
pub fn next_step(attempt: u32, outcome: &AttemptOutcome) -> (step: SendStep)
    requires
        1 <= attempt <= MAX_ATTEMPTS,
    ensures
        *outcome is Success ==> step is Done,
        !(*outcome is Success) && attempt < MAX_ATTEMPTS ==> step == SendStep::Backoff(
            pow2(attempt as nat) as u64,
        ),
        !(*outcome is Success) && attempt == MAX_ATTEMPTS ==> step == SendStep::GiveUp(
            (DeliveryFailure { attempts: MAX_ATTEMPTS }),
        ),
{
    match outcome {
        AttemptOutcome::Success => SendStep::Done,
        _ => {
            if attempt < MAX_ATTEMPTS {
                SendStep::Backoff(backoff_secs(attempt))
            } else {
                SendStep::GiveUp(DeliveryFailure { attempts: MAX_ATTEMPTS })
            }
        },
    }
}

/// The result of replaying the whole retry policy: how the call ended, and
/// which backoffs it took along the way.
pub struct SendPlan {
    /// `Ok(n)`: delivered on attempt `n`. `Err`: the budget was exhausted.
    pub result: Result<u32, DeliveryFailure>,
    /// The backoff, in seconds, taken after each failed non-final attempt.
    pub backoffs: Vec<u64>,
}

/// Replays the retry policy over a fixed sequence of attempt outcomes, where
/// outcome `i` is what attempt `i + 1` meets: delivery succeeds on the first
/// successful attempt with no extra attempts made, and fails with an
/// exhaustion error after exactly [`MAX_ATTEMPTS`] failed attempts.
pub fn drive_send(outcomes: &Vec<AttemptOutcome>) -> (plan: SendPlan)
    requires
        covers_budget(outcomes@),
    ensures
        delivered_within_budget(outcomes@) ==> plan.result == Ok::<u32, DeliveryFailure>(
            spec_attempts_used(outcomes@) as u32,
        ),
        !delivered_within_budget(outcomes@) ==> plan.result == Err::<u32, DeliveryFailure>(
            (DeliveryFailure { attempts: MAX_ATTEMPTS }),
        ),
        plan.backoffs@.len() == spec_attempts_used(outcomes@) - 1,
        forall|i: int| 0 <= i < plan.backoffs@.len() ==> plan.backoffs@[i] == pow2(
            (i + 1) as nat,
        ),
{
    let mut attempt: u32 = 1;
    let mut backoffs: Vec<u64> = Vec::new();
    loop
        invariant
            1 <= attempt <= MAX_ATTEMPTS,
            covers_budget(outcomes@),
            forall|j: int| 0 <= j < attempt - 1 ==> !((#[trigger] outcomes@[j]) is Success),
            backoffs@.len() == attempt - 1,
            forall|i: int| 0 <= i < backoffs@.len() ==> backoffs@[i] == pow2((i + 1) as nat),
        decreases MAX_ATTEMPTS - attempt,
    {
        proof {
            if !delivered_within_budget(outcomes@) {
                assert(outcomes@.len() >= MAX_ATTEMPTS);
            } else if outcomes@.len() < MAX_ATTEMPTS {
                assert(exists|k: int| succeeds_at(outcomes@, k) && 0 <= k < 3);
                let k = choose|k: int| succeeds_at(outcomes@, k) && 0 <= k < 3;
                assert(attempt - 1 <= k);
            }
        }
        let outcome = outcomes[(attempt - 1) as usize];
        match next_step(attempt, &outcome) {
            SendStep::Done => {
                proof {
                    assert(succeeds_at(outcomes@, attempt - 1));
                }
                return SendPlan { result: Ok(attempt), backoffs };
            },
            SendStep::GiveUp(failure) => {
                return SendPlan { result: Err(failure), backoffs };
            },
            SendStep::Backoff(delay) => {
                proof {
                    assert(pow2(0) == 1);
                    assert(pow2(1) == 2);
                    assert(pow2(2) == 4);
                }
                backoffs.push(delay);
                attempt = attempt + 1;
            },
        }
    }
}

/// With at most two failing attempts followed by a success, the forwarder
/// delivers, and it uses exactly the attempts needed: attempt `i + 1` is the
/// first success, and `i + 1` attempts are made, never more.
pub proof fn law_delivery_uses_exactly_needed_attempts(outcomes: Seq<AttemptOutcome>, i: int)
    requires
        0 <= i < MAX_ATTEMPTS,
        succeeds_at(outcomes, i),
    ensures
        delivered_within_budget(outcomes),
        spec_attempts_used(outcomes) == i + 1,
{
}

/// Three consecutive failing attempts exhaust the budget: exactly three
/// attempts are made and no fourth, after backoffs of 2 seconds and then 4
/// seconds (6 seconds in total).
pub proof fn law_exhaustion_after_three_failures(outcomes: Seq<AttemptOutcome>)
    requires
        outcomes.len() >= MAX_ATTEMPTS,
        forall|i: int| 0 <= i < MAX_ATTEMPTS ==> !((#[trigger] outcomes[i]) is Success),
    ensures
        !delivered_within_budget(outcomes),
        spec_attempts_used(outcomes) == MAX_ATTEMPTS,
        spec_backoffs(outcomes) =~= seq![2int, 4int],
        spec_backoffs(outcomes)[0] + spec_backoffs(outcomes)[1] == 6,
{
    assert(pow2(0) == 1);
    assert(pow2(1) == 2);
    assert(pow2(2) == 4);
    assert(spec_backoffs(outcomes).len() == 2);
    assert(spec_backoffs(outcomes)[0] == 2);
    assert(spec_backoffs(outcomes)[1] == 4);
}

} // verus!
