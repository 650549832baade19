//! Readiness poller: decides, attempt by attempt, whether the companion
//! server counts as reachable. The host performs each connection attempt and
//! sleeps the fixed interval between attempts; the decision of when to stop
//! — success on the first connect, give up once the attempt ceiling is
//! reached — is made and verified here.

use vstd::prelude::*;

verus! {

/// The fixed interval, in milliseconds, the host sleeps between two
/// connection attempts.
pub const POLL_INTERVAL_MILLIS: u64 = 500;

/// The attempt ceiling used at startup: together with the interval, about
/// thirty seconds of polling.
pub const DEFAULT_MAX_ATTEMPTS: u32 = 60;

/// The decision after one connection attempt.
pub enum PollStep {
    /// The connect succeeded: the server is ready, stop immediately.
    Ready,
    /// The connect failed and attempts remain: sleep the interval and retry.
    RetryAfterDelay,
    /// The connect failed on the final attempt: report not ready, without
    /// raising an error.
    GiveUp,
}

/// Decides what follows the `attempt`-th connection attempt (counted from
/// one): `connected` is that attempt's outcome.
pub fn poll_step(connected: bool, attempt: u32, max_attempts: u32) -> (d: PollStep)
    requires
        1 <= attempt <= max_attempts,
    ensures
        d is Ready <==> connected,
        d is RetryAfterDelay <==> !connected && attempt < max_attempts,
        d is GiveUp <==> !connected && attempt == max_attempts,
{
    if connected {
        PollStep::Ready
    } else if attempt < max_attempts {
        PollStep::RetryAfterDelay
    } else {
        PollStep::GiveUp
    }
}

/// Whether polling reports the server ready, given the outcome of each
/// successive connection attempt: true exactly when some attempt within the
/// ceiling succeeds.
pub open spec fn poll_ready(outcomes: Seq<bool>, max_attempts: nat) -> bool
    recommends
        outcomes.len() >= max_attempts,
    decreases max_attempts,
{
    if max_attempts == 0 {
        false
    } else if outcomes[0] {
        true
    } else {
        poll_ready(outcomes.drop_first(), (max_attempts - 1) as nat)
    }
}

/// How many connection attempts polling makes: up to and including the first
/// successful one, and all of them when none succeeds.
pub open spec fn poll_attempts(outcomes: Seq<bool>, max_attempts: nat) -> nat
    recommends
        outcomes.len() >= max_attempts,
    decreases max_attempts,
{
    if max_attempts == 0 {
        0
    } else if outcomes[0] {
        1
    } else {
        (1 + poll_attempts(outcomes.drop_first(), (max_attempts - 1) as nat)) as nat
    }
}

proof fn lemma_poll_found(outcomes: Seq<bool>, max_attempts: nat, i: int)
    requires
        0 <= i < max_attempts,
        i < outcomes.len(),
        outcomes[i],
        forall|j: int| 0 <= j < i ==> !outcomes[j],
    ensures
        poll_ready(outcomes, max_attempts),
        poll_attempts(outcomes, max_attempts) == i + 1,
    decreases i,
{
    if i > 0 {
        lemma_poll_found(outcomes.drop_first(), (max_attempts - 1) as nat, i - 1);
    }
}

/// Against a target that never accepts — every connection attempt within
/// the ceiling fails — polling reports not ready after exactly the ceiling's
/// number of attempts, and never raises.
pub proof fn lemma_timeout_exhausts_attempts(outcomes: Seq<bool>, max_attempts: nat)
    requires
        outcomes.len() >= max_attempts,
        forall|j: int| 0 <= j < max_attempts ==> !outcomes[j],
    ensures
        !poll_ready(outcomes, max_attempts),
        poll_attempts(outcomes, max_attempts) == max_attempts,
    decreases max_attempts,
{
    if max_attempts > 0 {
        lemma_timeout_exhausts_attempts(outcomes.drop_first(), (max_attempts - 1) as nat);
    }
}

/// Once a listener is bound before polling starts — the first connection
/// attempt succeeds — polling reports ready after exactly one attempt, with
/// no unnecessary extra attempts.
pub proof fn lemma_ready_on_first_attempt(outcomes: Seq<bool>, max_attempts: nat)
    requires
        max_attempts >= 1,
        outcomes.len() >= 1,
        outcomes[0],
    ensures
        poll_ready(outcomes, max_attempts),
        poll_attempts(outcomes, max_attempts) == 1,
{
}

/// Runs the polling loop over the recorded outcome of each successive
/// connection attempt and returns whether the server became ready and how
/// many attempts were made. The host's own loop makes the same decisions
/// one attempt at a time through `poll_step`.
pub fn wait_ready(outcomes: &Vec<bool>, max_attempts: u32) -> (r: (bool, u32))
    requires
        outcomes@.len() >= max_attempts,
    ensures
        r.0 == poll_ready(outcomes@, max_attempts as nat),
        r.1 == poll_attempts(outcomes@, max_attempts as nat),
        r.1 <= max_attempts,
{
    let mut attempt: u32 = 1;
    while attempt <= max_attempts
        invariant
            1 <= attempt,
            attempt <= max_attempts + 1,
            max_attempts <= outcomes@.len(),
            forall|j: int| 0 <= j < attempt - 1 ==> !outcomes@[j],
        decreases max_attempts - attempt,
    {
        let connected = outcomes[(attempt - 1) as usize];
        match poll_step(connected, attempt, max_attempts) {
            PollStep::Ready => {
                proof {
                    lemma_poll_found(outcomes@, max_attempts as nat, attempt - 1);
                }
                return (true, attempt);
            },
            PollStep::GiveUp => {
                proof {
                    lemma_timeout_exhausts_attempts(outcomes@, max_attempts as nat);
                }
                return (false, attempt);
            },
            PollStep::RetryAfterDelay => {
                attempt = attempt + 1;
            },
        }
    }
    proof {
        lemma_timeout_exhausts_attempts(outcomes@, max_attempts as nat);
    }
    (false, max_attempts)
}

} // verus!
