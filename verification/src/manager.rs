//! The resource supervisor.
//!
//! A [`ResourceManager`] owns one resource and everything the supervision of
//! it has to remember. It neither sleeps nor spawns: whoever drives it waits
//! for something to happen, reports it here, and carries out what it is told.
//! The driving loop reports wake-ups with [`ResourceManager::wake`] and the
//! end of an attempt with [`ResourceManager::generation_succeeded`] or
//! [`ResourceManager::generation_failed`]; callers ask for a refresh with
//! [`ResourceManager::refresh`] and its siblings.

use crate::backoff::{lemma_delay_fits, BackoffPolicy, Episode, NANOS_PER_SEC};
use crate::error::RelayError;
use crate::health::{share_error, ResourceFailure, ResourceState};
use crate::model::{
    waited_outcome, Directive, Event, ManagerState, Phase, WakeCause, MAX_RESOURCE_REGEN,
    MAX_RESOURCE_WAIT,
};
use std::sync::Arc;
use vstd::prelude::*;

verus! {

/// The supervisor of one resource of type `T`. A caller that waits for a
/// refresh leaves a `W` behind, which is handed back when the wait is over.
pub struct ResourceManager<T, W> {
    resource: T,
    resource_state: ResourceState,
    refreshed_at: u128,
    phase: Phase,
    retry_signal: bool,
    retry_now_signal: bool,
    death_signal: bool,
    request_retries: Vec<W>,
    task_live: bool,
    episode: Episode,
}

/// How one generation attempt ended, and what follows from it.
#[derive(Debug)]
pub struct Settlement<W> {
    /// The waiters to resolve, oldest first. Each of them is told `outcome`.
    pub waiters: Vec<W>,
    /// The one outcome of the attempt.
    pub outcome: Result<(), Arc<RelayError>>,
    /// Whether subscribers are to be told that the resource was generated.
    pub notify: bool,
    /// After a failure: how long to wait before the next attempt, in
    /// nanoseconds. `None` after a failure means that the loop has ended.
    pub retry_in: Option<u128>,
}

/// The immediate answer to a refresh request.
#[derive(Debug)]
pub enum Refresh<W> {
    /// The last success is recent: the request succeeds at once and asks
    /// nothing of the loop. The waiter comes back unused.
    Fresh(W),
    /// The resource has failed for good: the request fails at once with
    /// that failure. The waiter comes back unused.
    Failed(RelayError, W),
    /// The waiter is queued and will be resolved with the outcome of the
    /// attempt that concludes next.
    Queued,
}

impl<T, W> View for ResourceManager<T, W> {
    type V = ManagerState<W>;

    closed spec fn view(&self) -> ManagerState<W> {
        ManagerState {
            health: self.resource_state,
            refreshed_at: self.refreshed_at as nat,
            phase: self.phase,
            retry_signal: self.retry_signal,
            retry_now_signal: self.retry_now_signal,
            death_signal: self.death_signal,
            waiters: self.request_retries@,
            task_live: self.task_live,
            policy: self.episode.policy(),
            failures: self.episode.taken(),
        }
    }
}

impl<T, W> core::ops::Deref for ResourceManager<T, W> {
    type Target = T;

    /// The supervised resource.
    fn deref(&self) -> (resource: &T)
        ensures
            *resource == self.held(),
    {
        &self.resource
    }
}

impl<T, W> ResourceManager<T, W> {
    /// The supervised resource.
    pub closed spec fn held(&self) -> T {
        self.resource
    }

    /// The supervisor is in a state that its own operations can reach.
    pub closed spec fn wf(&self) -> bool {
        &&& self.episode.wf()
        &&& self@.wf()
    }

    /// Wraps a resource. With `running_resource` a background task that is
    /// already live is adopted and health starts as `Generated`; without it
    /// the first wake-up starts the first attempt.
    pub fn new(resource: T, backoff: BackoffPolicy, running_resource: bool) -> (manager: Self)
        ensures
            manager.wf(),
            manager@ == ManagerState::<W>::initial(backoff, running_resource),
            manager.held() == resource,
    {
        ResourceManager {
            resource,
            resource_state: if running_resource {
                ResourceState::Generated
            } else {
                ResourceState::Generating
            },
            refreshed_at: 0,
            phase: Phase::Idle,
            retry_signal: false,
            retry_now_signal: false,
            death_signal: false,
            request_retries: Vec::new(),
            task_live: running_resource,
            episode: Episode::begin(backoff),
        }
    }

    /// Reports that the driving loop woke at a wait point, and says what it
    /// is to do. `Generate` obliges the loop to abort the live background
    /// task before it starts the attempt.
    pub fn wake(&mut self, cause: WakeCause) -> (directive: Directive)
        requires
            old(self).wf(),
        ensures
            final(self).wf(),
            final(self)@ == old(self)@.wake(cause),
            directive == old(self)@.directive(cause),
            final(self).held() == old(self).held(),
    {
        let waiting = match self.phase {
            Phase::Idle => true,
            Phase::BackingOff => true,
            _ => false,
        };
        if !waiting {
            return match self.phase {
                Phase::Stopped => Directive::Stop,
                _ => Directive::Wait,
            };
        }
        if self.death_signal {
            self.phase = Phase::Stopped;
            return Directive::Stop;
        }
        let idle = match self.phase {
            Phase::Idle => true,
            _ => false,
        };
        let triggered = if idle {
            match cause {
                WakeCause::TaskExited => true,
                _ => self.retry_signal || self.retry_now_signal,
            }
        } else {
            match cause {
                WakeCause::DelayElapsed => true,
                _ => self.retry_now_signal,
            }
        };
        if !triggered {
            return Directive::Wait;
        }
        if idle {
            self.episode = Episode::begin(self.episode.backoff_policy());
        }
        self.resource_state = ResourceState::Generating;
        self.phase = Phase::Attempting;
        self.retry_signal = false;
        self.retry_now_signal = false;
        self.task_live = false;
        Directive::Generate
    }

    /// Reports that the attempt in flight produced a live background task at
    /// time `now`, in nanoseconds since the epoch. Every pending waiter is
    /// handed back to be told of the success, and subscribers are to be
    /// notified once. Without an attempt in flight the report is ignored.
    pub fn generation_succeeded(&mut self, now: u128) -> (settled: Settlement<W>)
        requires
            old(self).wf(),
        ensures
            final(self).wf(),
            final(self)@ == old(self)@.succeed(now as nat),
            final(self).held() == old(self).held(),
            settled.waiters@ == old(self)@.resolved_by(Event::Succeeded(now as nat)),
            settled.outcome == Ok::<(), Arc<RelayError>>(()),
            settled.notify == old(self)@.notifies(Event::Succeeded(now as nat)),
            settled.retry_in is None,
    {
        let mut waiters: Vec<W> = Vec::new();
        let attempting = match self.phase {
            Phase::Attempting => true,
            _ => false,
        };
        if attempting {
            core::mem::swap(&mut waiters, &mut self.request_retries);
            self.resource_state = ResourceState::Generated;
            self.refreshed_at = now;
            self.phase = Phase::Idle;
            self.retry_signal = false;
            self.retry_now_signal = false;
            self.task_live = true;
        }
        Settlement { waiters, outcome: Ok(()), notify: attempting, retry_in: None }
    }

    /// Reports that the attempt in flight failed. Every pending waiter is
    /// handed back to be told of the one shared error. The failure is final
    /// when the error says so or when the policy has no delay left; the loop
    /// has then ended. Otherwise health carries the seconds until the next
    /// attempt and `retry_in` the exact delay. Without an attempt in flight
    /// the report is ignored.
    pub fn generation_failed(&mut self, error: RelayError) -> (settled: Settlement<W>)
        requires
            old(self).wf(),
        ensures
            final(self).wf(),
            final(self)@ == old(self)@.fail(error),
            final(self).held() == old(self).held(),
            settled.waiters@ == old(self)@.resolved_by(Event::Failed(error)),
            settled.outcome == Err::<(), Arc<RelayError>>(Arc::new(error)),
            settled.notify == old(self)@.notifies(Event::Failed(error)),
            settled.retry_in == if old(self)@.phase is Attempting && old(self)@.retries_after(
                error,
            ) {
                old(self)@.upcoming_delay()
            } else {
                None
            },
    {
        let shared = Arc::new(error);
        let mut waiters: Vec<W> = Vec::new();
        let attempting = match self.phase {
            Phase::Attempting => true,
            _ => false,
        };
        if !attempting {
            return Settlement { waiters, outcome: Err(shared), notify: false, retry_in: None };
        }
        core::mem::swap(&mut waiters, &mut self.request_retries);
        proof {
            lemma_delay_fits(self.episode.policy(), self.episode.taken());
        }
        let delay = self.episode.next_delay();
        let retry_in = if shared.do_not_retry() {
            None
        } else {
            delay
        };
        let retry_wait = match retry_in {
            Some(nanos) => Some((nanos / NANOS_PER_SEC) as u64),
            None => None,
        };
        self.resource_state = ResourceState::Failed(
            ResourceFailure { retry_wait, error: share_error(&shared) },
        );
        self.phase = if retry_in.is_some() {
            Phase::BackingOff
        } else {
            Phase::Stopped
        };
        self.retry_signal = false;
        self.retry_now_signal = false;
        Settlement { waiters, outcome: Err(shared), notify: false, retry_in }
    }

    /// The current health, without waiting for anything.
    pub fn resource_state(&self) -> (health: ResourceState)
        ensures
            health == self@.health,
    {
        self.resource_state.clone()
    }

    /// Fails with the current error if health is `Failed`, and succeeds
    /// otherwise.
    pub fn ensure_not_failed(&self) -> (result: Result<(), RelayError>)
        ensures
            result == match self@.health {
                ResourceState::Failed(failure) => Err::<(), RelayError>(
                    RelayError::ResourceFailure(failure.error),
                ),
                _ => Ok(()),
            },
    {
        match &self.resource_state {
            ResourceState::Failed(failure) => Err(
                RelayError::ResourceFailure(share_error(&failure.error)),
            ),
            _ => Ok(()),
        }
    }

    /// Whether a refresh asked for at `now` comes too soon after the last
    /// success to be acted upon.
    pub fn debounced(&self, now: u128) -> (quiet: bool)
        ensures
            quiet == self@.debounced(now as nat),
    {
        now < self.refreshed_at || now - self.refreshed_at < MAX_RESOURCE_REGEN
    }

    /// Asks for a refresh without waiting for it. Too soon after the last
    /// success the request does nothing.
    pub fn request_update(&mut self, now: u128)
        requires
            old(self).wf(),
        ensures
            final(self).wf(),
            final(self)@ == old(self)@.request_update(now as nat),
            final(self).held() == old(self).held(),
    {
        if !self.debounced(now) {
            self.retry_signal = true;
        }
    }

    /// Asks for a refresh on the normal schedule and leaves `waiter` to be
    /// resolved with the outcome.
    pub fn refresh(&mut self, now: u128, waiter: W) -> (answer: Refresh<W>)
        requires
            old(self).wf(),
        ensures
            final(self).wf(),
            final(self)@ == old(self)@.refresh(now as nat, false, waiter),
            final(self).held() == old(self).held(),
            answer == refresh_answer(old(self)@.settles(now as nat), waiter),
    {
        self.refresh_option(false, now, waiter)
    }

    /// Asks for a refresh that skips the delay between attempts and leaves
    /// `waiter` to be resolved with the outcome.
    pub fn refresh_now(&mut self, now: u128, waiter: W) -> (answer: Refresh<W>)
        requires
            old(self).wf(),
        ensures
            final(self).wf(),
            final(self)@ == old(self)@.refresh(now as nat, true, waiter),
            final(self).held() == old(self).held(),
            answer == refresh_answer(old(self)@.settles(now as nat), waiter),
    {
        self.refresh_option(true, now, waiter)
    }

    fn refresh_option(&mut self, immediate: bool, now: u128, waiter: W) -> (answer: Refresh<W>)
        requires
            old(self).wf(),
        ensures
            final(self).wf(),
            final(self)@ == old(self)@.refresh(now as nat, immediate, waiter),
            final(self).held() == old(self).held(),
            answer == refresh_answer(old(self)@.settles(now as nat), waiter),
    {
        if self.debounced(now) {
            return Refresh::Fresh(waiter);
        }
        if self.resource_state.terminal() {
            return match self.ensure_not_failed() {
                Err(error) => Refresh::Failed(error, waiter),
                Ok(()) => Refresh::Fresh(waiter),
            };
        }
        self.request_retries.push(waiter);
        if immediate {
            self.retry_now_signal = true;
        } else {
            self.retry_signal = true;
        }
        Refresh::Queued
    }

    /// Signals disposal: at its next wait point the loop ends, whatever else
    /// is queued. The live background task is left to finish.
    pub fn dispose(&mut self)
        requires
            old(self).wf(),
        ensures
            final(self).wf(),
            final(self)@ == old(self)@.dispose(),
            final(self).held() == old(self).held(),
    {
        self.death_signal = true;
    }

    /// The supervised resource, to read.
    pub fn resource(&self) -> (resource: &T)
        ensures
            *resource == self.held(),
    {
        &self.resource
    }

    /// The supervised resource, to change. Supervision is not affected by
    /// what is done to it.
    pub fn resource_mut(&mut self) -> (resource: &mut T)
        ensures
            *resource == old(self).held(),
            final(self).held() == *final(resource),
            final(self)@ == old(self)@,
            old(self).wf() ==> final(self).wf(),
    {
        &mut self.resource
    }

    /// Where the driving loop stands.
    pub fn phase(&self) -> (phase: Phase)
        ensures
            phase == self@.phase,
    {
        self.phase
    }

    /// When generation last succeeded, in nanoseconds since the epoch; zero
    /// before the first success.
    pub fn refreshed_at(&self) -> (at: u128)
        ensures
            at == self@.refreshed_at,
    {
        self.refreshed_at
    }

    /// How many waiters are pending.
    pub fn pending(&self) -> (count: usize)
        ensures
            count == self@.waiters.len(),
    {
        self.request_retries.len()
    }
}

/// What a caller that waits for a queued refresh has after `waited`
/// nanoseconds, given what its waiter was resolved with so far. A resolution
/// is passed on as soon as it is there: success as success, the shared error
/// as a `ResourceFailure`. Without one the caller goes on waiting until the
/// wait budget is used up, and then fails with `ResourceTimeout`.
pub fn refresh_outcome(waited: u128, resolution: Option<Result<(), Arc<RelayError>>>) -> (outcome:
    Option<Result<(), RelayError>>)
    ensures
        outcome == waited_outcome(waited as nat, resolution),
{
    match resolution {
        Some(Ok(())) => Some(Ok(())),
        Some(Err(error)) => Some(Err(RelayError::ResourceFailure(error))),
        None => if waited >= MAX_RESOURCE_WAIT {
            Some(Err(RelayError::ResourceTimeout))
        } else {
            None
        },
    }
}

/// The answer that goes with what a request settled to: `Queued` when it did
/// not settle, and otherwise the result together with the unused waiter.
pub open spec fn refresh_answer<W>(settled: Option<Result<(), RelayError>>, waiter: W) -> Refresh<
    W,
> {
    match settled {
        None => Refresh::Queued,
        Some(Ok(())) => Refresh::Fresh(waiter),
        Some(Err(error)) => Refresh::Failed(error, waiter),
    }
}

} // verus!
