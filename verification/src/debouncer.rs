//! The shared controller and the guard it hands out.
//!
//! The controller keeps the state machine's record under a lock and reads
//! its own clock. Each operation takes the lock, applies one transition of
//! the state machine to what it finds, and releases the lock before it
//! returns; none of them suspends.

use vstd::prelude::*;
use std::marker::PhantomData;
use std::rc::Rc;
use std::sync::Arc;
use std::time::Duration;
use parking_lot::Mutex;
use tokio::sync::Notify;
use tokio::time::Instant;
use crate::clock::{duration_ticks, ticks_from_duration, Clock};
use crate::lock::{acquire, created_with, held, load, new_mutex, store, Locked, MutexExt};
use crate::mode::DebounceMode;
use crate::notify::{new_notifier, wake_one};
use crate::state::{DebounceConfig, DebouncerState, Readiness};

verus! {

/// Applies a trigger at tick `now` to the state under a held lock. Returns
/// whether a waiter has to be woken.
fn fire(lock: &mut Locked<'_, DebouncerState>, mode: DebounceMode, now: u64) -> (wake: bool)
    ensures
        held(*final(lock)) == held(*old(lock)).after_trigger(mode, now),
        wake == !held(*old(lock)).triggered,
{
    let mut state = load(lock);
    let wake = state.trigger(mode, now);
    store(lock, state);
    wake
}

/// Closes the cycle of the state under a held lock at tick `now`. Returns
/// whether a waiter has to be woken.
fn settle(lock: &mut Locked<'_, DebouncerState>, pending: bool, now: u64) -> (wake: bool)
    ensures
        held(*final(lock)) == held(*old(lock)).after_finalize(pending, now),
        wake == held(*old(lock)).triggered,
    opens_invariants none
    no_unwind
{
    let mut state = load(lock);
    let wake = state.finalize(pending, now);
    store(lock, state);
    wake
}

/// Looks at the state under a held lock at tick `now`, leaving it as it is.
fn observe(lock: &Locked<'_, DebouncerState>, config: &DebounceConfig, now: u64) -> (r: Readiness)
    ensures
        r == held(*lock).readiness(*config, now),
{
    let state = load(lock);
    state.poll(config, now)
}

/// What all handles to one controller share.
pub struct DebouncerInner {
    config: DebounceConfig,
    clock: Clock,
    notifier: Notify,
    state: Mutex<DebouncerState>,
}

impl DebouncerInner {
    /// Finalizes the current cycle, now, and wakes a waiter if a batch was
    /// pending. It never suspends, so it also runs to its end when called
    /// from the destructor of a guard whose owner was cancelled.
    fn finalize(&self, pending: bool)
        opens_invariants none
        no_unwind
    {
        // Taken without the trait: this runs in a destructor, which must not
        // unwind, and a trait method cannot promise that.
        let mut lock = acquire(&self.state);
        let now = self.clock.ticks();
        if settle(&mut lock, pending, now) {
            wake_one(&self.notifier);
        }
    }
}

/// A handle to a debounce controller. Clones share the controller.
pub struct Debouncer {
    inner: Arc<DebouncerInner>,
}

/// Permission to process the current batch, returned by `Debouncer::ready`.
///
/// `done` acknowledges the batch. A guard that goes out of scope without it
/// counts the batch as not done and re-arms the controller.
pub struct DebouncerGuard<'a> {
    inner: Arc<DebouncerInner>,
    completed: bool,
    _not_send: PhantomData<Rc<()>>,
    _not_static: PhantomData<&'a ()>,
}

/// One step of waiting for a batch.
pub enum ReadyStep<'a> {
    /// The batch may be processed; the guard closes the cycle.
    Acquired(DebouncerGuard<'a>),
    /// Nothing is pending: wait on the notifier, then ask again.
    AwaitWake,
    /// A batch is cooling down: sleep until this tick, then ask again.
    SleepUntil(u64),
}

impl<'a> DebouncerGuard<'a> {
    /// The controller that this guard finalizes.
    pub closed spec fn controller(self) -> DebouncerInner {
        *self.inner
    }

    /// Whether the guard has already finalized its cycle.
    pub closed spec fn is_completed(self) -> bool {
        self.completed
    }

    fn new(inner: Arc<DebouncerInner>) -> (guard: Self)
        ensures
            guard.controller() == *inner,
            !guard.is_completed(),
    {
        DebouncerGuard { inner, completed: false, _not_send: PhantomData, _not_static: PhantomData }
    }

    /// The finalize that a guard owes when it is given up. A guard that has
    /// completed owes none. One that has not owes exactly one: it clears the
    /// batch where the guard is being acknowledged and leaves it pending
    /// where the guard is going out of scope.
    pub open spec fn owed(completed: bool, acknowledged: bool) -> Option<bool> {
        if completed {
            None
        } else {
            Some(!acknowledged)
        }
    }

    /// Decides whether giving up a guard finalizes, and with which `pending`.
    pub fn owed_finalize(completed: bool, acknowledged: bool) -> (pending: Option<bool>)
        ensures
            pending == Self::owed(completed, acknowledged),
        opens_invariants none
        no_unwind
    {
        if completed {
            None
        } else {
            Some(!acknowledged)
        }
    }

    /// Gives the guard up, by acknowledgement or by going out of scope: runs
    /// the finalize that the guard owes, if any, and marks it completed.
    fn release(&mut self, acknowledged: bool)
        ensures
            final(self).is_completed(),
            final(self).controller() == old(self).controller(),
        opens_invariants none
        no_unwind
    {
        let owed = Self::owed_finalize(self.completed, acknowledged);
        self.completed = true;
        match owed {
            Some(pending) => self.inner.finalize(pending),
            None => {},
        }
    }

    /// Acknowledges the batch as handled: the pending flag is cleared until
    /// the next trigger. Only the first call on a guard acts.
    pub fn done(&mut self)
        ensures
            final(self).is_completed(),
            final(self).controller() == old(self).controller(),
    {
        self.release(true);
    }
}

impl<'a> Drop for DebouncerGuard<'a> {
    /// A guard that was never acknowledged re-arms the controller: the batch
    /// stays pending and a new cooldown window starts now. A guard that was
    /// acknowledged does nothing more.
    fn drop(&mut self)
        ensures
            final(self).is_completed(),
            final(self).controller() == old(self).controller(),
        opens_invariants none
        no_unwind
    {
        self.release(false);
    }
}

impl Clone for Debouncer {
    fn clone(&self) -> (other: Self)
        ensures
            other.controller() == self.controller(),
            other.config() == self.config(),
            other.initial_state() == self.initial_state(),
            other.origin() == self.origin(),
            other.wake_channel() == self.wake_channel(),
    {
        Debouncer { inner: self.inner.clone() }
    }
}

impl Debouncer {
    /// The controller behind this handle.
    pub closed spec fn controller(self) -> DebouncerInner {
        *self.inner
    }

    /// The configuration that the controller was created with.
    pub closed spec fn config(self) -> DebounceConfig {
        self.inner.config
    }

    /// The state that the controller started in.
    pub closed spec fn initial_state(self) -> DebouncerState {
        created_with(self.inner.state)
    }

    /// The instant at which the controller's clock was started.
    pub closed spec fn origin(self) -> Instant {
        self.inner.clock.origin()
    }

    /// The controller's wake notification channel.
    pub closed spec fn wake_channel(self) -> Notify {
        self.inner.notifier
    }

    /// Creates a controller with the given cooldown and mode. Its clock
    /// starts now, at tick zero, with nothing pending.
    pub fn new(cooldown: Duration, mode: DebounceMode) -> (debouncer: Self)
        ensures
            debouncer.config() == (DebounceConfig { cooldown: duration_ticks(cooldown), mode }),
            debouncer.initial_state() == DebouncerState::initial(mode, 0),
    {
        let config = DebounceConfig { cooldown: ticks_from_duration(&cooldown), mode };
        let inner = DebouncerInner {
            config,
            clock: Clock::start(),
            notifier: new_notifier(),
            state: new_mutex(DebouncerState::new(mode, 0)),
        };
        Debouncer { inner: Arc::new(inner) }
    }

    /// The cooldown in ticks.
    pub fn cooldown(&self) -> (ticks: u64)
        ensures
            ticks == self.config().cooldown,
    {
        self.inner.config.cooldown
    }

    pub fn mode(&self) -> (mode: DebounceMode)
        ensures
            mode == self.config().mode,
    {
        self.inner.config.mode
    }

    /// The instant that tick zero stands for.
    pub fn epoch(&self) -> (epoch: Instant)
        ensures
            epoch == self.origin(),
    {
        self.inner.clock.epoch()
    }

    /// The notifier on which a waiter sleeps while nothing is pending.
    pub fn notifier(&self) -> (notifier: &Notify)
        ensures
            *notifier == self.wake_channel(),
    {
        &self.inner.notifier
    }

    /// Whether a batch is pending at this moment.
    pub fn is_triggered(&self) -> bool {
        let lock = self.inner.state.risky_lock();
        load(&lock).triggered
    }

    /// Signals that work is pending. Wakes a waiter unless a batch was
    /// pending already.
    pub fn trigger(&self) {
        let wake = {
            let mut lock = self.inner.state.risky_lock();
            let now = self.inner.clock.ticks();
            fire(&mut lock, self.inner.config.mode, now)
        };
        if wake {
            wake_one(&self.inner.notifier);
        }
    }

    /// One look at the controller on behalf of a waiter, who repeats it until
    /// handed a guard and arms a wait on `notifier` before each look, so that
    /// no wake is lost. The step answers the state machine's verdict on the
    /// state found under the lock at the tick read from the clock; neither is
    /// the caller's to know. The shared state is not changed; only a returned
    /// guard changes it later.
    pub fn ready<'a>(&self) -> (step: ReadyStep<'a>)
        ensures
            exists|found: DebouncerState, now: u64|
                step.verdict() == #[trigger] found.readiness(self.config(), now),
            step matches ReadyStep::Acquired(guard) ==> guard.controller() == self.controller()
                && !guard.is_completed(),
    {
        let verdict = {
            let lock = self.inner.state.risky_lock();
            let now = self.inner.clock.ticks();
            observe(&lock, &self.inner.config, now)
        };
        match verdict {
            Readiness::Idle => ReadyStep::AwaitWake,
            Readiness::Cooling { until } => ReadyStep::SleepUntil(until),
            Readiness::Ready => ReadyStep::Acquired(DebouncerGuard::new(self.inner.clone())),
        }
    }
}

impl<'a> ReadyStep<'a> {
    /// The verdict of the state machine that this step answers.
    pub open spec fn verdict(self) -> Readiness {
        match self {
            ReadyStep::Acquired(_) => Readiness::Ready,
            ReadyStep::AwaitWake => Readiness::Idle,
            ReadyStep::SleepUntil(until) => Readiness::Cooling { until },
        }
    }
}

} // verus!
