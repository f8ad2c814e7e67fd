//! The supervisor as a state machine over plain values.
//!
//! Everything the supervisor decides is a function from a [`ManagerState`] and
//! an event to the next state. The executable [`crate::manager::ResourceManager`]
//! is proved to follow these functions step by step, and the laws of
//! [`crate::laws`] are proved about them.

use crate::backoff::{next_delay_of, BackoffPolicy, NANOS_PER_SEC};
use crate::error::RelayError;
use crate::health::{ResourceFailure, ResourceState};
use std::sync::Arc;
use vstd::prelude::*;

verus! {

/// A soft refresh asked for less than this long after the last success is
/// not acted upon: 15 seconds, in nanoseconds.
pub const MAX_RESOURCE_REGEN: u128 = 15_000_000_000;

/// A caller waits for a refresh at most this long: 30 seconds, in nanoseconds.
pub const MAX_RESOURCE_WAIT: u128 = 30_000_000_000;

/// What a caller that waits for a queued refresh has after `waited`
/// nanoseconds, given what its waiter was resolved with so far: the
/// resolution as soon as there is one, a timeout once the wait budget is used
/// up without one, and nothing yet before that.
pub open spec fn waited_outcome(waited: nat, resolution: Option<Result<(), Arc<RelayError>>>)
    -> Option<Result<(), RelayError>> {
    match resolution {
        Some(Ok(())) => Some(Ok(())),
        Some(Err(error)) => Some(Err(RelayError::ResourceFailure(error))),
        None => if waited >= MAX_RESOURCE_WAIT {
            Some(Err(RelayError::ResourceTimeout))
        } else {
            None
        },
    }
}

/// Where the driving loop stands.
#[derive(Clone, Copy, Debug, PartialEq, Eq, Structural)]
pub enum Phase {
    /// Waiting for the live task to end, for a refresh request, or for disposal.
    Idle,
    /// A generation attempt is in flight.
    Attempting,
    /// Waiting out the delay between two attempts of one episode.
    BackingOff,
    /// The loop has ended, by disposal or by a final failure.
    Stopped,
}

/// What woke the driving loop at one of its wait points.
#[derive(Clone, Copy, Debug, PartialEq, Eq, Structural)]
pub enum WakeCause {
    /// The live background task returned.
    TaskExited,
    /// The delay between two attempts ran out.
    DelayElapsed,
    /// Something was queued: a refresh request or the disposal signal.
    Signalled,
}

/// What the driving loop does after a wake-up.
#[derive(Clone, Copy, Debug, PartialEq, Eq, Structural)]
pub enum Directive {
    /// Nothing has changed: keep doing what it was doing.
    Wait,
    /// Abort the live background task, if there is one, and run a generation
    /// attempt.
    Generate,
    /// End the loop; nothing is generated any more.
    Stop,
}

/// Something that happens to a supervisor.
pub enum Event<W> {
    /// The driving loop woke at a wait point.
    Wake(WakeCause),
    /// The attempt in flight produced a live background task at the given
    /// time, in nanoseconds since the epoch.
    Succeeded(nat),
    /// The attempt in flight failed.
    Failed(RelayError),
    /// A soft refresh request without a waiter, at the given time.
    Update(nat),
    /// A refresh request with a waiter, at the given time; the flag asks to
    /// skip the delay between attempts.
    Refresh(nat, bool, W),
    /// The last owner let go.
    Dispose,
}

/// The supervisor's whole state, as mathematics. `W` is whatever a waiting
/// caller left behind to be resolved with.
pub struct ManagerState<W> {
    /// The health shown to callers.
    pub health: ResourceState,
    /// When generation last succeeded, in nanoseconds since the epoch.
    pub refreshed_at: nat,
    /// Where the driving loop stands.
    pub phase: Phase,
    /// A soft refresh has been asked for and not yet absorbed by an attempt.
    pub retry_signal: bool,
    /// An immediate refresh has been asked for and not yet absorbed.
    pub retry_now_signal: bool,
    /// Disposal has been signalled.
    pub death_signal: bool,
    /// The waiters not yet resolved, oldest first.
    pub waiters: Seq<W>,
    /// A background task is recorded as live.
    pub task_live: bool,
    /// The retry policy.
    pub policy: BackoffPolicy,
    /// How many delays the current episode has used up.
    pub failures: nat,
}

impl<W> ManagerState<W> {
    /// The state a supervisor starts in: adopting a running task it is
    /// `Generated`, otherwise it is about to generate.
    pub open spec fn initial(policy: BackoffPolicy, running: bool) -> Self {
        ManagerState {
            health: if running {
                ResourceState::Generated
            } else {
                ResourceState::Generating
            },
            refreshed_at: 0,
            phase: Phase::Idle,
            retry_signal: false,
            retry_now_signal: false,
            death_signal: false,
            waiters: Seq::empty(),
            task_live: running,
            policy,
            failures: 0,
        }
    }

    /// Health and loop position agree, and no attempt runs beside a live task.
    pub open spec fn wf(self) -> bool {
        &&& match self.phase {
            Phase::Idle => if self.task_live {
                self.health is Generated
            } else {
                self.health is Generating
            },
            Phase::Attempting => self.health is Generating && !self.task_live,
            Phase::BackingOff => !self.health.is_terminal() && self.health is Failed
                && !self.task_live,
            Phase::Stopped => true,
        }
        &&& self.health.is_terminal() ==> self.phase is Stopped
    }

    /// Whether the last success is too recent for a refresh to be acted upon.
    pub open spec fn debounced(self, now: nat) -> bool {
        now < self.refreshed_at + MAX_RESOURCE_REGEN
    }

    /// Whether a wake-up with this cause starts an attempt, disposal aside.
    pub open spec fn triggers(self, cause: WakeCause) -> bool {
        match self.phase {
            Phase::Idle => cause is TaskExited || self.retry_signal || self.retry_now_signal,
            Phase::BackingOff => cause is DelayElapsed || self.retry_now_signal,
            _ => false,
        }
    }

    /// What the loop is told to do on a wake-up. Disposal wins over every
    /// other reason to wake.
    pub open spec fn directive(self, cause: WakeCause) -> Directive {
        match self.phase {
            Phase::Stopped => Directive::Stop,
            Phase::Attempting => Directive::Wait,
            _ => if self.death_signal {
                Directive::Stop
            } else if self.triggers(cause) {
                Directive::Generate
            } else {
                Directive::Wait
            },
        }
    }

    /// The state after a wake-up. From `Idle` a new episode begins; from
    /// `BackingOff` the episode goes on. Either way the requests queued so
    /// far are taken up by the attempt that starts.
    pub open spec fn wake(self, cause: WakeCause) -> Self {
        match self.directive(cause) {
            Directive::Wait => self,
            Directive::Stop => ManagerState { phase: Phase::Stopped, ..self },
            Directive::Generate => ManagerState {
                health: ResourceState::Generating,
                phase: Phase::Attempting,
                retry_signal: false,
                retry_now_signal: false,
                task_live: false,
                failures: if self.phase is Idle {
                    0
                } else {
                    self.failures
                },
                ..self
            },
        }
    }

    /// The state after the attempt in flight has succeeded at time `now`.
    /// Without an attempt in flight nothing changes.
    pub open spec fn succeed(self, now: nat) -> Self {
        if self.phase is Attempting {
            ManagerState {
                health: ResourceState::Generated,
                refreshed_at: now,
                phase: Phase::Idle,
                retry_signal: false,
                retry_now_signal: false,
                waiters: Seq::empty(),
                task_live: true,
                ..self
            }
        } else {
            self
        }
    }

    /// The delay that follows a failure now, if the policy has one left.
    pub open spec fn upcoming_delay(self) -> Option<u128> {
        next_delay_of(self.policy, self.failures)
    }

    /// Whether a failure with this error, now, is followed by another attempt:
    /// the error must not forbid it and the policy must have a delay left.
    pub open spec fn retries_after(self, error: RelayError) -> bool {
        !error.is_final() && self.upcoming_delay() is Some
    }

    /// The health recorded for a failure with this error, now.
    pub open spec fn failure_of(self, error: RelayError) -> ResourceFailure {
        ResourceFailure {
            retry_wait: if self.retries_after(error) {
                Some((self.upcoming_delay()->0 / NANOS_PER_SEC) as u64)
            } else {
                None
            },
            error: Arc::new(error),
        }
    }

    /// The state after the attempt in flight has failed with `error`.
    /// Without an attempt in flight nothing changes.
    pub open spec fn fail(self, error: RelayError) -> Self {
        if self.phase is Attempting {
            ManagerState {
                health: ResourceState::Failed(self.failure_of(error)),
                phase: if self.retries_after(error) {
                    Phase::BackingOff
                } else {
                    Phase::Stopped
                },
                retry_signal: false,
                retry_now_signal: false,
                waiters: Seq::empty(),
                failures: if self.upcoming_delay() is Some {
                    self.failures + 1
                } else {
                    self.failures
                },
                ..self
            }
        } else {
            self
        }
    }

    /// What a refresh request at time `now` is answered with at once, if it
    /// is: success when the last success is recent, the failure when the
    /// resource has failed for good. `None` means the request is queued.
    pub open spec fn settles(self, now: nat) -> Option<Result<(), RelayError>> {
        if self.debounced(now) {
            Some(Ok(()))
        } else {
            match self.health {
                ResourceState::Failed(failure) if failure.retry_wait is None => Some(
                    Err(RelayError::ResourceFailure(failure.error)),
                ),
                _ => None,
            }
        }
    }

    /// The state after a refresh request with a waiter. A request that is
    /// answered at once changes nothing.
    pub open spec fn refresh(self, now: nat, immediate: bool, waiter: W) -> Self {
        if self.settles(now) is Some {
            self
        } else if immediate {
            ManagerState { waiters: self.waiters.push(waiter), retry_now_signal: true, ..self }
        } else {
            ManagerState { waiters: self.waiters.push(waiter), retry_signal: true, ..self }
        }
    }

    /// The state after a soft refresh request without a waiter.
    pub open spec fn request_update(self, now: nat) -> Self {
        if self.debounced(now) {
            self
        } else {
            ManagerState { retry_signal: true, ..self }
        }
    }

    /// The state after disposal has been signalled.
    pub open spec fn dispose(self) -> Self {
        ManagerState { death_signal: true, ..self }
    }

    /// The state after any one event.
    pub open spec fn step(self, event: Event<W>) -> Self {
        match event {
            Event::Wake(cause) => self.wake(cause),
            Event::Succeeded(now) => self.succeed(now),
            Event::Failed(error) => self.fail(error),
            Event::Update(now) => self.request_update(now),
            Event::Refresh(now, immediate, waiter) => self.refresh(now, immediate, waiter),
            Event::Dispose => self.dispose(),
        }
    }

    /// The state after a sequence of events, first to last.
    pub open spec fn run(self, events: Seq<Event<W>>) -> Self
        decreases events.len(),
    {
        if events.len() == 0 {
            self
        } else {
            self.run(events.drop_last()).step(events.last())
        }
    }

    /// The waiters that the event resolves, oldest first: all that are
    /// pending when an attempt concludes, and none otherwise.
    pub open spec fn resolved_by(self, event: Event<W>) -> Seq<W> {
        if self.phase is Attempting && (event is Succeeded || event is Failed) {
            self.waiters
        } else {
            Seq::empty()
        }
    }

    /// Whether the event makes the supervisor tell its subscribers that the
    /// resource was generated: it does when an attempt in flight succeeds.
    pub open spec fn notifies(self, event: Event<W>) -> bool {
        self.phase is Attempting && event is Succeeded
    }

    /// What the waiters resolved by a concluding event are told.
    pub open spec fn outcome_of(self, event: Event<W>) -> Result<(), Arc<RelayError>> {
        match event {
            Event::Failed(error) => Err(Arc::new(error)),
            _ => Ok(()),
        }
    }
}

} // verus!
