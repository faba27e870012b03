//! What holds of the state machine over whole cycles, for every cooldown
//! and every reading of the clock.

use vstd::prelude::*;
use crate::debouncer::DebouncerGuard;
use crate::mode::DebounceMode;
use crate::state::{DebounceConfig, DebouncerState, Readiness};

verus! {

impl DebouncerState {
    /// The state after a burst of triggers, one at each tick of `times`, in
    /// that order.
    pub open spec fn after_triggers(self, mode: DebounceMode, times: Seq<u64>) -> DebouncerState
        decreases times.len(),
    {
        if times.len() == 0 {
            self
        } else {
            self.after_triggers(mode, times.drop_last()).after_trigger(mode, times.last())
        }
    }

    /// How many triggers of the burst ask for a waiter to be woken.
    pub open spec fn wakes(self, mode: DebounceMode, times: Seq<u64>) -> nat
        decreases times.len(),
    {
        if times.len() == 0 {
            0
        } else {
            let before = self.after_triggers(mode, times.drop_last());
            self.wakes(mode, times.drop_last()) + if before.triggered {
                0nat
            } else {
                1nat
            }
        }
    }

    /// The state after a guard has been given up at tick `now`: by an
    /// acknowledgement or by going out of scope, having completed before or
    /// not.
    pub open spec fn after_release(
        self,
        completed: bool,
        acknowledged: bool,
        now: u64,
    ) -> DebouncerState {
        match DebouncerGuard::owed(completed, acknowledged) {
            Some(pending) => self.after_finalize(pending, now),
            None => self,
        }
    }

    /// The state after one guard has been given up several times in a row,
    /// each time as `releases` says: acknowledged or not, and at which tick.
    /// `completed` is the guard's flag before the first of them; every
    /// release sets it.
    pub open spec fn after_releases(
        self,
        completed: bool,
        releases: Seq<(bool, u64)>,
    ) -> DebouncerState
        decreases releases.len(),
    {
        if releases.len() == 0 {
            self
        } else {
            self.after_release(completed, releases.first().0, releases.first().1).after_releases(
                true,
                releases.drop_first(),
            )
        }
    }
}

/// How many of the releases of one guard run a finalize.
pub open spec fn finalizes(completed: bool, releases: Seq<(bool, u64)>) -> nat
    decreases releases.len(),
{
    if releases.len() == 0 {
        0
    } else {
        finalizes(true, releases.drop_first()) + if DebouncerGuard::owed(
            completed,
            releases.first().0,
        ) is Some {
            1nat
        } else {
            0nat
        }
    }
}

/// In `Leading` mode the first trigger of a fresh controller is ready at
/// once, whatever the cooldown and however little time has passed.
pub proof fn law_leading_first_fire_is_immediate(cooldown: u64, created: u64, at: u64, now: u64)
    ensures
        DebouncerState::initial(DebounceMode::Leading, created).after_trigger(
            DebounceMode::Leading,
            at,
        ).readiness(DebounceConfig { cooldown, mode: DebounceMode::Leading }, now)
            == Readiness::Ready,
{
}

/// In `Leading` mode, once a batch has been acknowledged at tick
/// `finalized`, the next trigger is ready exactly from tick
/// `finalized + cooldown` on; before that the waiter is told to sleep until
/// that tick.
pub proof fn law_leading_respects_cooldown(
    state: DebouncerState,
    cooldown: u64,
    finalized: u64,
    at: u64,
    now: u64,
)
    requires
        state.triggered,
    ensures
        ({
            let config = DebounceConfig { cooldown, mode: DebounceMode::Leading };
            let next = state.after_finalize(false, finalized).after_trigger(
                DebounceMode::Leading,
                at,
            );
            &&& now >= finalized + cooldown ==> next.readiness(config, now) == Readiness::Ready
            &&& now < finalized + cooldown ==> next.readiness(config, now)
                == Readiness::Cooling { until: next.wake_tick(config) }
            &&& finalized + cooldown <= u64::MAX ==> next.wake_tick(config) == finalized
                + cooldown
        }),
{
}

/// In `Trailing` mode a trigger at tick `at` is ready exactly from tick
/// `at + cooldown` on, whatever the state was before; earlier the waiter is
/// told to sleep until that tick.
pub proof fn law_trailing_waits_for_silence(
    state: DebouncerState,
    cooldown: u64,
    at: u64,
    now: u64,
)
    ensures
        ({
            let config = DebounceConfig { cooldown, mode: DebounceMode::Trailing };
            let next = state.after_trigger(DebounceMode::Trailing, at);
            &&& now >= at + cooldown ==> next.readiness(config, now) == Readiness::Ready
            &&& now < at + cooldown ==> next.readiness(config, now) == Readiness::Cooling {
                until: next.wake_tick(config),
            }
            &&& at + cooldown <= u64::MAX ==> next.wake_tick(config) == at + cooldown
        }),
{
}

/// In `Trailing` mode a second trigger moves the window: readiness is
/// measured from the later trigger alone.
pub proof fn law_trailing_reschedules(
    state: DebouncerState,
    cooldown: u64,
    first: u64,
    second: u64,
    now: u64,
)
    ensures
        ({
            let config = DebounceConfig { cooldown, mode: DebounceMode::Trailing };
            let next = state.after_trigger(DebounceMode::Trailing, first).after_trigger(
                DebounceMode::Trailing,
                second,
            );
            next.readiness(config, now) == Readiness::Ready <==> now >= second + cooldown
        }),
{
}

/// Waiting never undoes readiness: a batch that may be processed at one
/// tick may be processed at every later one, as long as nothing else
/// happens.
pub proof fn law_ready_stays_ready(
    state: DebouncerState,
    config: DebounceConfig,
    now: u64,
    later: u64,
)
    requires
        state.readiness(config, now) == Readiness::Ready,
        now <= later,
    ensures
        state.readiness(config, later) == Readiness::Ready,
{
}

/// A waiter that is told to sleep is told exactly when to look again: while
/// the end of the window is a tick, the batch is ready at the tick it was
/// told, and at no tick before it.
pub proof fn law_sleep_ends_in_ready(
    state: DebouncerState,
    config: DebounceConfig,
    now: u64,
    until: u64,
    earlier: u64,
)
    requires
        state.readiness(config, now) == (Readiness::Cooling { until }),
        state.next_allowed(config) <= u64::MAX,
        earlier < until,
    ensures
        now < until,
        until == state.next_allowed(config),
        state.readiness(config, until) == Readiness::Ready,
        state.readiness(config, earlier) == (Readiness::Cooling { until }),
{
}

/// A burst of triggers leaves the state that its last trigger alone would
/// have left, and asks for a wake exactly once if nothing was pending before
/// it, never otherwise.
pub proof fn law_burst_coalesces(state: DebouncerState, mode: DebounceMode, times: Seq<u64>)
    requires
        times.len() > 0,
    ensures
        state.after_triggers(mode, times) == state.after_trigger(mode, times.last()),
        state.wakes(mode, times) == if state.triggered {
            0nat
        } else {
            1nat
        },
    decreases times.len(),
{
    let head = times.drop_last();
    if head.len() > 0 {
        law_burst_coalesces(state, mode, head);
    } else {
        assert(state.after_triggers(mode, head) == state);
        assert(state.wakes(mode, head) == 0);
    }
}

/// A burst is settled by one acknowledgement: afterwards nothing is
/// pending at any tick, and a further finalize of either kind changes
/// nothing.
pub proof fn law_one_cycle_per_burst(
    state: DebouncerState,
    config: DebounceConfig,
    times: Seq<u64>,
    finalized: u64,
    pending: bool,
    later: u64,
    now: u64,
)
    requires
        times.len() > 0,
    ensures
        ({
            let settled = state.after_triggers(config.mode, times).after_finalize(
                false,
                finalized,
            );
            &&& settled.readiness(config, now) == Readiness::Idle
            &&& settled.after_finalize(pending, later) == settled
        }),
{
    law_burst_coalesces(state, config.mode, times);
}

/// A guard that goes out of scope without acknowledgement at tick `at`
/// owes a finalize that leaves the batch pending. It re-arms: the batch is
/// pending again at once, the window starts at `at`, and in either mode the
/// batch is ready exactly from tick `at + cooldown` on.
pub proof fn law_abandon_rearms(state: DebouncerState, config: DebounceConfig, at: u64, now: u64)
    requires
        state.triggered,
    ensures
        DebouncerGuard::owed(false, false) == Some(true),
        ({
            let next = state.after_release(false, false, at);
            &&& next == state.after_finalize(true, at)
            &&& next == DebouncerState { triggered: true, has_run: true, last_run: at }
            &&& next.readiness(config, now) == Readiness::Ready <==> now >= at + config.cooldown
            &&& now < at + config.cooldown ==> next.readiness(config, now)
                == Readiness::Cooling { until: next.wake_tick(config) }
            &&& at + config.cooldown <= u64::MAX ==> next.wake_tick(config) == at
                + config.cooldown
        }),
{
}

/// A guard that is acknowledged at tick `at` owes a finalize that clears
/// the batch: nothing is ready at any tick until the next trigger, which
/// makes a batch pending again.
pub proof fn law_acknowledge_clears(
    state: DebouncerState,
    config: DebounceConfig,
    at: u64,
    now: u64,
    again: u64,
)
    requires
        state.triggered,
    ensures
        DebouncerGuard::owed(false, true) == Some(false),
        ({
            let next = state.after_release(false, true, at);
            &&& next == state.after_finalize(false, at)
            &&& next == DebouncerState { triggered: false, has_run: true, last_run: at }
            &&& next.readiness(config, now) == Readiness::Idle
            &&& next.after_trigger(config.mode, again).triggered
        }),
{
}

/// A guard that has completed owes nothing: given up again, by a further
/// acknowledgement or by going out of scope, it leaves every state as it
/// is. A trigger made after the acknowledgement is neither cleared nor
/// stamped anew.
pub proof fn law_completed_guard_finalizes_nothing(
    state: DebouncerState,
    acknowledged: bool,
    now: u64,
)
    ensures
        DebouncerGuard::owed(true, acknowledged) == None::<bool>,
        state.after_release(true, acknowledged, now) == state,
{
}

/// However often a completed guard is given up again, nothing is finalized
/// and the state stays as it is.
pub proof fn law_completed_guard_stays_quiet(state: DebouncerState, releases: Seq<(bool, u64)>)
    ensures
        state.after_releases(true, releases) == state,
        finalizes(true, releases) == 0,
    decreases releases.len(),
{
    if releases.len() > 0 {
        law_completed_guard_stays_quiet(state, releases.drop_first());
    }
}

/// Over the life of a guard, any number of acknowledgements and then its
/// end, exactly one finalize is run: by the first release, at its tick. It
/// clears the batch where that release is an acknowledgement and leaves it
/// pending where it is the guard going out of scope.
pub proof fn law_guard_finalizes_once(state: DebouncerState, releases: Seq<(bool, u64)>)
    requires
        releases.len() > 0,
    ensures
        finalizes(false, releases) == 1,
        state.after_releases(false, releases) == state.after_finalize(
            !releases.first().0,
            releases.first().1,
        ),
{
    let next = state.after_release(false, releases.first().0, releases.first().1);
    law_completed_guard_stays_quiet(next, releases.drop_first());
}

/// Once a batch has run, no trigger and no finalize makes the state forget
/// it.
pub proof fn law_has_run_is_kept(
    state: DebouncerState,
    mode: DebounceMode,
    pending: bool,
    now: u64,
)
    requires
        state.has_run,
    ensures
        state.after_trigger(mode, now).has_run,
        state.after_finalize(pending, now).has_run,
{
}

/// Finalizing when nothing is pending leaves the state as it is.
pub proof fn law_stale_finalize_is_noop(state: DebouncerState, pending: bool, now: u64)
    requires
        !state.triggered,
    ensures
        state.after_finalize(pending, now) == state,
{
}

} // verus!
