//! A debounce gate for asynchronous workers.
//!
//! Producers signal that work is pending; a single consumer waits until the
//! cooldown allows the batch to be processed and then holds a guard for the
//! duration of the work.
//!
//! - `state` is the debounce state machine on plain values, with time as a
//!   tick count handed in by the caller.
//! - `laws` states what holds of that machine over whole cycles.
//! - `debouncer` is the shared controller: the state under a lock, a clock,
//!   and the notifier that wakes a waiter.
//! - `clock`, `lock` and `notify` hold the calls into tokio and parking_lot.

pub mod clock;
pub mod debouncer;
pub mod laws;
pub mod lock;
pub mod mode;
pub mod notify;
pub mod state;

pub use debouncer::{Debouncer, DebouncerGuard, ReadyStep};
pub use lock::MutexExt;
pub use mode::DebounceMode;
pub use state::{DebounceConfig, DebouncerState, Readiness};
