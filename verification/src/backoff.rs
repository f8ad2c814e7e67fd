//! The retry delays of one run of failures.
//!
//! A [`BackoffPolicy`] is stateless: it names a schedule. An [`Episode`] is one
//! walk along that schedule, from the first failure after a success onward. The
//! delays themselves come from `backon`'s exponential backoff.

use backon::{BackoffBuilder, ExponentialBackoff, ExponentialBuilder};
use std::time::Duration;
use vstd::arithmetic::power2::{lemma2_to64, lemma_pow2_pos, lemma_pow2_strictly_increases, pow2};
use vstd::prelude::*;

verus! {

/// Nanoseconds in one second.
pub const NANOS_PER_SEC: u128 = 1_000_000_000;

/// `backon`'s exponential backoff: an iterator over delays.
#[verifier::external_type_specification]
#[verifier::external_body]
pub struct ExExponentialBackoff(ExponentialBackoff);

/// The delays, in nanoseconds, that a backoff has yet to yield, next one first.
pub uninterp spec fn backoff_delays(backoff: ExponentialBackoff) -> Seq<nat>;

/// Whether a backoff adds a random share to every delay it yields.
pub uninterp spec fn backoff_jitters(backoff: ExponentialBackoff) -> bool;

/// The delay before retry number `attempt` (counted from zero), in whole
/// seconds: one second at first, doubling afterwards, never above
/// `max_delay_secs` once it has doubled.
pub open spec fn exponential_delay_secs(attempt: nat, max_delay_secs: nat) -> nat {
    if attempt == 0 {
        1
    } else if pow2(attempt) < max_delay_secs {
        pow2(attempt)
    } else {
        max_delay_secs
    }
}

/// A stateless retry policy: exponential delays from one second, doubling,
/// capped at `max_delay_secs`, for at most `max_times` retries.
#[derive(Clone, Copy, Debug, PartialEq, Eq)]
pub struct BackoffPolicy {
    /// The longest delay between two attempts, in seconds.
    pub max_delay_secs: u64,
    /// How many delays one episode can yield.
    pub max_times: usize,
}

impl BackoffPolicy {
    /// The delay before retry number `attempt` of an episode, in seconds.
    pub open spec fn delay_secs(self, attempt: nat) -> nat {
        exponential_delay_secs(attempt, self.max_delay_secs as nat)
    }

    /// The delay before retry number `attempt` of an episode, in nanoseconds.
    pub open spec fn delay_nanos(self, attempt: nat) -> nat {
        self.delay_secs(attempt) * (NANOS_PER_SEC as nat)
    }

    /// The whole schedule of one episode, in nanoseconds.
    pub open spec fn delays(self) -> Seq<nat> {
        Seq::new(self.max_times as nat, |i: int| self.delay_nanos(i as nat))
    }

    /// Whether an episode that has yielded `taken` delays has another one.
    pub open spec fn has_delay(self, taken: nat) -> bool {
        taken < self.max_times
    }
}

/// Builds a fresh backoff with `ExponentialBuilder::default()`, its
/// `with_max_delay` and `with_max_times`, and `BackoffBuilder::build`.
///
/// Trusted: the builder's defaults are no jitter, factor 2 and a first delay
/// of one second, so the backoff yields `max_times` delays, the first of one
/// second, each later one double the one before while that stays under the
/// cap, and the cap from then on.
#[verifier::external_body]
fn build_backoff(max_delay_secs: u64, max_times: usize) -> (backoff: ExponentialBackoff)
    ensures
        !backoff_jitters(backoff),
        backoff_delays(backoff) == Seq::new(
            max_times as nat,
            |i: int| exponential_delay_secs(i as nat, max_delay_secs as nat) * 1_000_000_000,
        ),
{
    ExponentialBuilder::default()
        .with_max_delay(Duration::from_secs(max_delay_secs))
        .with_max_times(max_times)
        .build()
}

/// Takes the next delay with `ExponentialBackoff`'s `Iterator::next`, in
/// nanoseconds.
///
/// Trusted: without jitter the backoff yields its delays in order and ends
/// when none is left; a yielded delay is gone from what remains.
#[verifier::external_body]
fn take_delay(backoff: &mut ExponentialBackoff) -> (delay: Option<u128>)
    requires
        !backoff_jitters(*old(backoff)),
    ensures
        !backoff_jitters(*final(backoff)),
        match delay {
            Some(nanos) => {
                &&& backoff_delays(*old(backoff)).len() > 0
                &&& nanos == backoff_delays(*old(backoff))[0]
                &&& backoff_delays(*final(backoff)) == backoff_delays(*old(backoff)).skip(1)
            },
            None => {
                &&& backoff_delays(*old(backoff)).len() == 0
                &&& backoff_delays(*final(backoff)) == backoff_delays(*old(backoff))
            },
        },
{
    match backoff.next() {
        Some(delay) => Some(delay.as_nanos()),
        None => None,
    }
}

/// One run of failures: a walk along the schedule of a policy.
pub struct Episode {
    policy: BackoffPolicy,
    backoff: ExponentialBackoff,
    taken: usize,
}

impl Episode {
    /// The policy whose schedule this episode walks.
    pub closed spec fn policy(&self) -> BackoffPolicy {
        self.policy
    }

    /// How many delays this episode has yielded so far.
    pub closed spec fn taken(&self) -> nat {
        self.taken as nat
    }

    /// The episode is where its count says it is on its policy's schedule.
    pub closed spec fn wf(&self) -> bool {
        &&& !backoff_jitters(self.backoff)
        &&& self.taken <= self.policy.max_times
        &&& backoff_delays(self.backoff) == self.policy.delays().skip(self.taken as int)
    }

    /// Starts an episode at the head of the policy's schedule.
    pub fn begin(policy: BackoffPolicy) -> (episode: Episode)
        ensures
            episode.wf(),
            episode.policy() == policy,
            episode.taken() == 0,
    {
        let backoff = build_backoff(policy.max_delay_secs, policy.max_times);
        proof {
            assert(backoff_delays(backoff) =~= policy.delays().skip(0));
        }
        Episode { policy, backoff, taken: 0 }
    }

    /// The policy in use.
    pub fn backoff_policy(&self) -> (policy: BackoffPolicy)
        ensures
            policy == self.policy(),
    {
        self.policy
    }

    /// How many delays have been yielded.
    pub fn delays_taken(&self) -> (taken: usize)
        ensures
            taken == self.taken(),
    {
        self.taken
    }

    /// Yields the next delay of the schedule in nanoseconds, or `None` when
    /// the policy allows no further retry.
    pub fn next_delay(&mut self) -> (delay: Option<u128>)
        requires
            old(self).wf(),
        ensures
            final(self).wf(),
            final(self).policy() == old(self).policy(),
            delay == next_delay_of(old(self).policy(), old(self).taken()),
            final(self).taken() == old(self).taken() + if delay is Some { 1nat } else { 0nat },
    {
        let ghost before = backoff_delays(self.backoff);
        let delay = take_delay(&mut self.backoff);
        proof {
            let schedule = self.policy.delays();
            let taken = self.taken as int;
            assert(before.len() == schedule.len() - taken);
            if delay is Some {
                assert(before[0] == schedule[taken]);
                assert(before.skip(1) =~= schedule.skip(taken + 1));
                lemma_delay_fits(self.policy, self.taken as nat);
            }
        }
        if delay.is_some() {
            self.taken = self.taken + 1;
        }
        delay
    }
}

/// What an episode of `policy` yields after `taken` delays.
pub open spec fn next_delay_of(policy: BackoffPolicy, taken: nat) -> Option<u128> {
    if policy.has_delay(taken) {
        Some(policy.delay_nanos(taken) as u128)
    } else {
        None
    }
}

/// Every delay of a schedule fits the machine types it is handed on in.
pub proof fn lemma_delay_fits(policy: BackoffPolicy, attempt: nat)
    ensures
        policy.delay_secs(attempt) <= u64::MAX,
        policy.delay_nanos(attempt) <= u128::MAX,
        policy.delay_nanos(attempt) / (NANOS_PER_SEC as nat) == policy.delay_secs(attempt),
{
    let secs = policy.delay_secs(attempt);
    if attempt > 0 && pow2(attempt) < policy.max_delay_secs {
        assert(secs < u64::MAX);
    }
    assert(secs <= u64::MAX);
    assert(secs * 1_000_000_000 <= u128::MAX) by (nonlinear_arith)
        requires
            secs <= u64::MAX,
    {
    }
    assert((secs * 1_000_000_000) / 1_000_000_000 == secs) by (nonlinear_arith);
}

/// Delays never shrink along a schedule, and they grow strictly until the
/// cap is reached: of two retries, the later one waits longer unless the
/// earlier one already waited the cap.
pub proof fn lemma_delays_increase_to_cap(policy: BackoffPolicy, earlier: nat, later: nat)
    requires
        policy.max_delay_secs >= 1,
        earlier < later,
    ensures
        policy.delay_secs(earlier) <= policy.delay_secs(later) <= policy.max_delay_secs,
        policy.delay_secs(earlier) < policy.max_delay_secs ==> policy.delay_secs(earlier)
            < policy.delay_secs(later),
        policy.delay_secs(earlier) == policy.max_delay_secs ==> policy.delay_secs(later)
            == policy.max_delay_secs,
{
    lemma_pow2_pos(earlier);
    lemma_pow2_pos(later);
    lemma_pow2_strictly_increases(earlier, later);
    lemma2_to64();
}

} // verus!
