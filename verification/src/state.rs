//! The debounce state machine on plain values.
//!
//! Every function here takes the current tick as an argument, so each
//! transition is a function of what it is given and can be stated exactly.

use vstd::prelude::*;
use crate::mode::DebounceMode;

verus! {

/// What a controller is built with and never changes afterwards.
///
/// Time is counted in ticks; the controller layer uses one tick per
/// nanosecond since it was created.
#[derive(Debug, Clone, Copy, PartialEq, Eq, Structural)]
pub struct DebounceConfig {
    /// Minimum spacing, in ticks, between two batches.
    pub cooldown: u64,
    pub mode: DebounceMode,
}

/// The record that the controller keeps under its lock.
#[derive(Debug, Clone, Copy, PartialEq, Eq, Structural)]
pub struct DebouncerState {
    /// A batch is pending and has not been finalized.
    pub triggered: bool,
    /// At least one batch has been finalized. Only `Leading` reads it.
    pub has_run: bool,
    /// The tick from which the cooldown window is measured.
    pub last_run: u64,
}

/// What a waiter should do after looking at the state.
#[derive(Debug, Clone, Copy, PartialEq, Eq, Structural)]
pub enum Readiness {
    /// Nothing is pending: wait to be woken by a trigger.
    Idle,
    /// A batch is pending but the cooldown has not elapsed: sleep until
    /// tick `until`, then look again.
    Cooling { until: u64 },
    /// The pending batch may be processed now.
    Ready,
}

impl DebouncerState {
    /// The state of a fresh controller created at tick `now`.
    ///
    /// `Trailing` starts as if a batch had already run, so that its first
    /// batch waits like every other one.
    pub open spec fn initial(mode: DebounceMode, now: u64) -> DebouncerState {
        DebouncerState { triggered: false, has_run: mode.reschedules(), last_run: now }
    }

    /// The state after a producer has signalled at tick `now`.
    pub open spec fn after_trigger(self, mode: DebounceMode, now: u64) -> DebouncerState {
        DebouncerState {
            triggered: true,
            has_run: self.has_run,
            last_run: if mode.reschedules() {
                now
            } else {
                self.last_run
            },
        }
    }

    /// The first tick at which the cooldown counts as elapsed.
    pub open spec fn next_allowed(self, config: DebounceConfig) -> int {
        self.last_run + config.cooldown
    }

    /// Whether a pending batch may be processed at tick `now`.
    pub open spec fn may_fire(self, config: DebounceConfig, now: u64) -> bool {
        ||| config.mode == DebounceMode::Leading && !self.has_run
        ||| now >= self.next_allowed(config)
    }

    /// `next_allowed` as a tick, held at the last tick where it lies beyond.
    pub open spec fn wake_tick(self, config: DebounceConfig) -> u64 {
        if self.next_allowed(config) <= u64::MAX {
            self.next_allowed(config) as u64
        } else {
            u64::MAX
        }
    }

    /// What a waiter that looks at tick `now` is told.
    pub open spec fn readiness(self, config: DebounceConfig, now: u64) -> Readiness {
        if !self.triggered {
            Readiness::Idle
        } else if self.may_fire(config, now) {
            Readiness::Ready
        } else {
            Readiness::Cooling { until: self.wake_tick(config) }
        }
    }

    /// The state after a guard has been consumed at tick `now`.
    ///
    /// `pending` says whether the batch counts as still to be done. A state
    /// with nothing pending is left alone, so a stale or repeated call has
    /// no effect.
    pub open spec fn after_finalize(self, pending: bool, now: u64) -> DebouncerState {
        if self.triggered {
            DebouncerState { triggered: pending, has_run: true, last_run: now }
        } else {
            self
        }
    }

    pub fn new(mode: DebounceMode, now: u64) -> (state: DebouncerState)
        ensures
            state == DebouncerState::initial(mode, now),
    {
        DebouncerState { triggered: false, has_run: mode.is_trailing(), last_run: now }
    }

    /// Records a trigger at tick `now`. Returns whether a waiter has to be
    /// woken, which is the case exactly when nothing was pending before.
    pub fn trigger(&mut self, mode: DebounceMode, now: u64) -> (wake: bool)
        ensures
            *final(self) == old(self).after_trigger(mode, now),
            wake == !old(self).triggered,
    {
        if mode.is_trailing() {
            self.last_run = now;
        }
        if self.triggered {
            return false;
        }
        self.triggered = true;
        true
    }

    /// Decides what a waiter does at tick `now`. The state is not changed.
    pub fn poll(&self, config: &DebounceConfig, now: u64) -> (r: Readiness)
        ensures
            r == self.readiness(*config, now),
    {
        if !self.triggered {
            return Readiness::Idle;
        }
        let first_fire = match config.mode {
            DebounceMode::Leading => !self.has_run,
            DebounceMode::Trailing => false,
        };
        match self.last_run.checked_add(config.cooldown) {
            Some(next_allowed) => {
                if first_fire || now >= next_allowed {
                    Readiness::Ready
                } else {
                    Readiness::Cooling { until: next_allowed }
                }
            },
            None => {
                if first_fire {
                    Readiness::Ready
                } else {
                    Readiness::Cooling { until: u64::MAX }
                }
            },
        }
    }

    /// Closes the current cycle at tick `now`. Returns whether a waiter has
    /// to be woken, which is the case exactly when a batch was pending.
    pub fn finalize(&mut self, pending: bool, now: u64) -> (wake: bool)
        ensures
            *final(self) == old(self).after_finalize(pending, now),
            wake == old(self).triggered,
        opens_invariants none
        no_unwind
    {
        if self.triggered {
            self.has_run = true;
            self.triggered = pending;
            self.last_run = now;
            true
        } else {
            false
        }
    }
}

} // verus!
