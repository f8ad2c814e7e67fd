//! What holds of every supervisor, whatever happens to it.
//!
//! The laws are stated over [`ManagerState`], the mathematical state that the
//! executable supervisor is proved to follow.

use crate::backoff::{lemma_delay_fits, lemma_delays_increase_to_cap};
use crate::error::RelayError;
use crate::health::ResourceState;
use crate::model::{
    waited_outcome, Event, ManagerState, WakeCause, MAX_RESOURCE_REGEN, MAX_RESOURCE_WAIT,
};
use std::sync::Arc;
use vstd::prelude::*;

verus! {

/// A refresh request as a caller makes it: when, whether it skips the delay
/// between attempts, and the waiter it leaves behind.
pub struct RefreshRequest<W> {
    /// When the request is made, in nanoseconds since the epoch.
    pub now: nat,
    /// Whether the request asks to skip the delay between attempts.
    pub immediate: bool,
    /// What the caller leaves behind to be resolved with.
    pub waiter: W,
}

/// The events of a sequence of refresh requests.
pub open spec fn requests_as_events<W>(requests: Seq<RefreshRequest<W>>) -> Seq<Event<W>> {
    requests.map_values(|r: RefreshRequest<W>| Event::Refresh(r.now, r.immediate, r.waiter))
}

/// The waiters of a sequence of refresh requests, in the order of asking.
pub open spec fn waiters_of<W>(requests: Seq<RefreshRequest<W>>) -> Seq<W> {
    requests.map_values(|r: RefreshRequest<W>| r.waiter)
}

/// No event leads out of the reachable states.
pub proof fn lemma_step_keeps_wf<W>(state: ManagerState<W>, event: Event<W>)
    requires
        state.wf(),
    ensures
        state.step(event).wf(),
{
}

/// No sequence of events leads out of the reachable states.
pub proof fn lemma_run_keeps_wf<W>(state: ManagerState<W>, events: Seq<Event<W>>)
    requires
        state.wf(),
    ensures
        state.run(events).wf(),
    decreases events.len(),
{
    if events.len() > 0 {
        lemma_run_keeps_wf(state, events.drop_last());
        lemma_step_keeps_wf(state.run(events.drop_last()), events.last());
    }
}

/// One event changes health only along the graph: it stays, or it enters or
/// leaves `Generating`. After a final failure no event changes anything that
/// the loop acts upon: health stays, and the loop stays ended.
pub proof fn lemma_health_follows_graph<W>(state: ManagerState<W>, event: Event<W>)
    requires
        state.wf(),
    ensures
        state.health.may_become(state.step(event).health),
        state.health.is_terminal() ==> {
            &&& state.step(event).health == state.health
            &&& state.step(event).phase is Stopped
        },
        state.phase is Stopped ==> state.step(event).phase is Stopped && state.step(event).health
            == state.health,
{
}

/// Along any sequence of events, health changes only along the graph from
/// each state to the next, and once a final failure has been reached health
/// never changes again: in particular it never becomes `Generating`.
pub proof fn lemma_run_follows_graph<W>(
    state: ManagerState<W>,
    events: Seq<Event<W>>,
    early: int,
    late: int,
)
    requires
        state.wf(),
        0 <= early <= late <= events.len(),
    ensures
        early < events.len() ==> state.run(events.take(early)).health.may_become(
            state.run(events.take(early + 1)).health,
        ),
        state.run(events.take(early)).health.is_terminal() ==> state.run(events.take(late)).health
            == state.run(events.take(early)).health,
    decreases late - early,
{
    let before = state.run(events.take(early));
    lemma_run_keeps_wf(state, events.take(early));
    if early < events.len() {
        let next = events.take(early + 1);
        assert(next.drop_last() =~= events.take(early));
        assert(next.last() == events[early]);
        lemma_health_follows_graph(before, events[early]);
        if early < late {
            lemma_run_follows_graph(state, events, early + 1, late);
        }
    } else {
        assert(late == early);
    }
}

/// While an attempt is in flight no background task is live: an attempt
/// starts only once the task before it has been given up, and at most one
/// attempt is in flight.
pub proof fn lemma_attempt_supersedes_task<W>(state: ManagerState<W>, cause: WakeCause)
    requires
        state.wf(),
    ensures
        state.directive(cause) is Generate ==> {
            &&& !(state.phase is Attempting)
            &&& state.wake(cause).phase is Attempting
            &&& !state.wake(cause).task_live
        },
        state.phase is Attempting ==> state.directive(cause) is Wait && state.wake(cause)
            == state,
{
}

/// Disposal ends the loop at its next wait point, whatever else is queued,
/// and leaves health and the live task as they are.
pub proof fn lemma_disposal_stops_the_loop<W>(state: ManagerState<W>, cause: WakeCause)
    requires
        state.wf(),
        state.phase is Idle || state.phase is BackingOff,
    ensures
        state.dispose().directive(cause) is Stop,
        state.dispose().wake(cause).phase is Stopped,
        state.dispose().wake(cause).health == state.health,
        state.dispose().wake(cause).task_live == state.task_live,
{
}

/// The requests among `requests` that come late enough after the last
/// success of `state` to be acted upon.
pub open spec fn acted_upon<W>(state: ManagerState<W>, requests: Seq<RefreshRequest<W>>) -> Seq<
    RefreshRequest<W>,
> {
    requests.filter(|r: RefreshRequest<W>| !state.debounced(r.now))
}

/// While an attempt is in flight, the requests that are acted upon join the
/// queue in the order of asking, and the others leave no trace.
proof fn lemma_requests_queue_up<W>(state: ManagerState<W>, requests: Seq<RefreshRequest<W>>)
    requires
        state.wf(),
        state.phase is Attempting,
    ensures
        state.run(requests_as_events(requests)).waiters == state.waiters + waiters_of(
            acted_upon(state, requests),
        ),
        state.run(requests_as_events(requests)).phase is Attempting,
        state.run(requests_as_events(requests)).health == state.health,
        state.run(requests_as_events(requests)).refreshed_at == state.refreshed_at,
    decreases requests.len(),
{
    reveal(Seq::filter);
    let events = requests_as_events(requests);
    if requests.len() == 0 {
        assert(state.waiters + waiters_of(acted_upon(state, requests)) =~= state.waiters);
    } else {
        let head = requests.drop_last();
        let last = requests.last();
        lemma_requests_queue_up(state, head);
        assert(events.drop_last() =~= requests_as_events(head));
        let before = state.run(requests_as_events(head));
        assert(events.last() == Event::Refresh(last.now, last.immediate, last.waiter));
        assert(before.debounced(last.now) == state.debounced(last.now));
        if state.debounced(last.now) {
            assert(acted_upon(state, requests) == acted_upon(state, head));
        } else {
            assert(before.settles(last.now) is None);
            assert(acted_upon(state, requests) == acted_upon(state, head).push(last));
            assert(before.waiters.push(last.waiter) =~= state.waiters + waiters_of(
                acted_upon(state, requests),
            ));
        }
    }
}

/// However many callers ask for a refresh while one attempt is in flight,
/// the end of that attempt resolves every one whose request was acted upon,
/// together with those that were waiting before, in the order of asking and
/// with the attempt's one outcome; nobody is left waiting. A request that
/// was not acted upon came within the quiet interval after the last success
/// and was answered with success at once.
pub proof fn lemma_waiters_share_the_outcome<W>(
    state: ManagerState<W>,
    requests: Seq<RefreshRequest<W>>,
    conclusion: Event<W>,
)
    requires
        state.wf(),
        state.phase is Attempting,
        conclusion is Succeeded || conclusion is Failed,
    ensures
        ({
            let asked = state.run(requests_as_events(requests));
            &&& asked.resolved_by(conclusion) == state.waiters + waiters_of(
                acted_upon(state, requests),
            )
            &&& asked.step(conclusion).waiters.len() == 0
            &&& asked.outcome_of(conclusion) == state.outcome_of(conclusion)
        }),
        forall|i: int|
            0 <= i < requests.len() && state.debounced(#[trigger] requests[i].now)
                ==> state.run(requests_as_events(requests.take(i))).settles(requests[i].now)
                == Some(Ok::<(), RelayError>(())),
        (forall|i: int| 0 <= i < requests.len() ==> !state.debounced(#[trigger] requests[i].now))
            ==> acted_upon(state, requests) == requests,
{
    lemma_requests_queue_up(state, requests);
    assert forall|i: int|
        0 <= i < requests.len() && state.debounced(#[trigger] requests[i].now) implies state.run(
        requests_as_events(requests.take(i)),
    ).settles(requests[i].now) == Some(Ok::<(), RelayError>(())) by {
        lemma_requests_queue_up(state, requests.take(i));
    }
    if forall|i: int| 0 <= i < requests.len() ==> !state.debounced(#[trigger] requests[i].now) {
        lemma_all_acted_upon(state, requests);
    }
}

/// Where no request comes within the quiet interval, all are acted upon.
proof fn lemma_all_acted_upon<W>(state: ManagerState<W>, requests: Seq<RefreshRequest<W>>)
    requires
        forall|i: int| 0 <= i < requests.len() ==> !state.debounced(#[trigger] requests[i].now),
    ensures
        acted_upon(state, requests) == requests,
    decreases requests.len(),
{
    reveal(Seq::filter);
    if requests.len() > 0 {
        lemma_all_acted_upon(state, requests.drop_last());
        assert(requests.drop_last().push(requests.last()) =~= requests);
    }
}

/// A request that is queued is resolved by the attempt that concludes next,
/// and by no attempt that concluded before it was made.
pub proof fn lemma_request_awaits_the_next_conclusion<W>(
    state: ManagerState<W>,
    now: nat,
    immediate: bool,
    waiter: W,
    conclusion: Event<W>,
)
    requires
        state.wf(),
        state.settles(now) is None,
        state.phase is Attempting,
        conclusion is Succeeded || conclusion is Failed,
    ensures
        state.resolved_by(conclusion) == state.waiters,
        state.refresh(now, immediate, waiter).resolved_by(conclusion) == state.waiters.push(
            waiter,
        ),
{
}

/// A refresh asked for less than the quiet interval after the last success
/// changes nothing and succeeds at once: no waiter is queued and the loop is
/// told nothing that it was not told before.
pub proof fn lemma_recent_success_quiets_refresh<W>(
    state: ManagerState<W>,
    now: nat,
    immediate: bool,
    waiter: W,
    cause: WakeCause,
)
    requires
        now < state.refreshed_at + MAX_RESOURCE_REGEN,
    ensures
        state.settles(now) == Some(Ok::<(), RelayError>(())),
        state.refresh(now, immediate, waiter) == state,
        state.request_update(now) == state,
        state.refresh(now, immediate, waiter).directive(cause) == state.directive(cause),
{
}

/// The same, counted from the success itself: after an attempt has succeeded
/// at `at`, a refresh within the quiet interval is a no-op that succeeds, and
/// unless disposal is pending the loop stays at rest.
pub proof fn lemma_refresh_after_success_is_quiet<W>(
    state: ManagerState<W>,
    at: nat,
    now: nat,
    immediate: bool,
    waiter: W,
)
    requires
        state.wf(),
        state.phase is Attempting,
        now < at + MAX_RESOURCE_REGEN,
    ensures
        state.succeed(at).settles(now) == Some(Ok::<(), RelayError>(())),
        state.succeed(at).refresh(now, immediate, waiter) == state.succeed(at),
        !state.death_signal ==> state.succeed(at).refresh(now, immediate, waiter).directive(
            WakeCause::Signalled,
        ) is Wait,
{
}

/// A caller that waits for a queued refresh and is told nothing within the
/// wait budget fails with the timeout error, and with no other; before the
/// budget is used up it goes on waiting. Whatever a generation attempt came
/// to never reads as a timeout: a failed attempt reaches the caller as a
/// `ResourceFailure` around the shared cause, even where the cause itself is
/// a timeout.
pub proof fn lemma_timeout_is_its_own_error(
    waited: nat,
    resolution: Result<(), Arc<RelayError>>,
)
    ensures
        waited >= MAX_RESOURCE_WAIT ==> waited_outcome(waited, None) == Some(
            Err::<(), RelayError>(RelayError::ResourceTimeout),
        ),
        waited < MAX_RESOURCE_WAIT ==> waited_outcome(waited, None) is None,
        waited_outcome(waited, Some(resolution)) is Some,
        waited_outcome(waited, Some(resolution)) != Some(
            Err::<(), RelayError>(RelayError::ResourceTimeout),
        ),
        resolution matches Err(cause) ==> waited_outcome(waited, Some(resolution)) == Some(
            Err::<(), RelayError>(RelayError::ResourceFailure(cause)),
        ),
{
}

/// Subscribers are notified exactly when health becomes `Generated`: once
/// for every attempt that succeeds, and on no other occasion.
pub proof fn lemma_notification_marks_generation<W>(state: ManagerState<W>, event: Event<W>)
    requires
        state.wf(),
    ensures
        state.notifies(event) <==> !(state.health is Generated) && state.step(event).health
            is Generated,
        state.notifies(event) ==> state.step(event).phase is Idle && state.step(event).task_live,
{
}

/// A failure that is not final leaves the supervisor waiting to retry: health
/// is `Failed` with that very error and the whole seconds of the delay that
/// the policy gives next, and unless disposal is pending the next attempt
/// starts when the delay has run out, further along the same episode.
pub proof fn lemma_failure_is_retried<W>(state: ManagerState<W>, error: RelayError)
    requires
        state.wf(),
        state.phase is Attempting,
        !error.is_final(),
        state.upcoming_delay() is Some,
    ensures
        ({
            let failed = state.fail(error);
            &&& failed.health matches ResourceState::Failed(failure)
            &&& failure.error == Arc::new(error)
            &&& failure.retry_wait == Some(state.policy.delay_secs(state.failures) as u64)
            &&& failed.phase is BackingOff
            &&& !state.death_signal ==> {
                &&& failed.wake(WakeCause::DelayElapsed).phase is Attempting
                &&& failed.wake(WakeCause::DelayElapsed).health is Generating
                &&& failed.wake(WakeCause::DelayElapsed).failures == state.failures + 1
            }
        }),
{
    lemma_delay_fits(state.policy, state.failures);
}

/// Fail, fail, succeed: of two failures in a row the second records a delay
/// that is no shorter than the first, strictly longer unless the first was
/// already the cap, and never above the cap; the success that follows makes
/// health `Generated` again and notifies the subscribers, once.
pub proof fn lemma_fail_fail_succeed<W>(
    state: ManagerState<W>,
    first: RelayError,
    second: RelayError,
    now: nat,
)
    requires
        state.wf(),
        state.phase is Attempting,
        !state.death_signal,
        !first.is_final(),
        !second.is_final(),
        state.policy.max_delay_secs >= 1,
        state.failures + 2 <= state.policy.max_times,
    ensures
        ({
            let once = state.fail(first);
            let twice = once.wake(WakeCause::DelayElapsed).fail(second);
            let retried = twice.wake(WakeCause::DelayElapsed);
            &&& once.health matches ResourceState::Failed(one)
            &&& twice.health matches ResourceState::Failed(two)
            &&& one.retry_wait matches Some(earlier)
            &&& two.retry_wait matches Some(later)
            &&& earlier == state.policy.delay_secs(state.failures)
            &&& later == state.policy.delay_secs(state.failures + 1)
            &&& earlier <= later <= state.policy.max_delay_secs
            &&& earlier < state.policy.max_delay_secs ==> earlier < later
            &&& retried.phase is Attempting
            &&& retried.notifies(Event::Succeeded(now))
            &&& retried.succeed(now).health is Generated
            &&& retried.succeed(now).refreshed_at == now
            &&& !retried.succeed(now).notifies(Event::Succeeded(now))
        }),
{
    let once = state.fail(first);
    lemma_failure_is_retried(state, first);
    let again = once.wake(WakeCause::DelayElapsed);
    lemma_failure_is_retried(again, second);
    lemma_delay_fits(state.policy, state.failures);
    lemma_delay_fits(state.policy, state.failures + 1);
    lemma_delays_increase_to_cap(state.policy, state.failures, state.failures + 1);
}

/// An internal fault in generation is a failure like any other: it is never
/// final, so the supervisor records it with a retry delay and, unless
/// disposal is pending, goes on to the next attempt.
pub proof fn lemma_fault_is_retried<W>(state: ManagerState<W>, description: String)
    requires
        state.wf(),
        state.phase is Attempting,
        state.upcoming_delay() is Some,
    ensures
        ({
            let failed = state.fail(RelayError::ResourcePanic(description));
            &&& failed.health matches ResourceState::Failed(failure)
            &&& failure.error == Arc::new(RelayError::ResourcePanic(description))
            &&& failure.retry_wait is Some
            &&& failed.phase is BackingOff
            &&& !state.death_signal ==> failed.directive(WakeCause::DelayElapsed) is Generate
        }),
{
    lemma_failure_is_retried(state, RelayError::ResourcePanic(description));
}

/// A failure whose error forbids retrying ends the loop for good: health is
/// `Failed` without a retry delay and no wake-up starts another attempt.
pub proof fn lemma_final_failure_ends_the_loop<W>(
    state: ManagerState<W>,
    error: RelayError,
    cause: WakeCause,
)
    requires
        state.wf(),
        state.phase is Attempting,
        error.is_final(),
    ensures
        state.fail(error).health.is_terminal(),
        state.fail(error).phase is Stopped,
        state.fail(error).directive(cause) is Stop,
{
}

/// Once the resource has failed for good, every refresh that is not quieted
/// by a recent success is answered at once with that failure.
pub proof fn lemma_final_failure_is_surfaced<W>(
    state: ManagerState<W>,
    now: nat,
    immediate: bool,
    waiter: W,
)
    requires
        state.health.is_terminal(),
        !state.debounced(now),
    ensures
        state.settles(now) == Some(
            Err::<(), RelayError>(RelayError::ResourceFailure(state.health->Failed_0.error)),
        ),
        state.refresh(now, immediate, waiter) == state,
{
}

/// A new episode starts at the head of the schedule: the first failure after
/// a wake-up from rest is followed by the first delay of the policy.
pub proof fn lemma_episode_starts_afresh<W>(state: ManagerState<W>, cause: WakeCause)
    requires
        state.wf(),
        state.phase is Idle,
        state.directive(cause) is Generate,
    ensures
        state.wake(cause).failures == 0,
        state.wake(cause).policy == state.policy,
{
}

} // verus!
