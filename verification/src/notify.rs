//! The wake notification channel between producers and the waiter.

use vstd::prelude::*;
use tokio::sync::Notify;

verus! {

/// `tokio::sync::Notify`. Verus carries such a value without looking into
/// it.
#[verifier::external_type_specification]
#[verifier::external_body]
pub struct ExNotify(tokio::sync::Notify);

/// Calls `tokio::sync::Notify::new`. Nothing is claimed of the result.
#[verifier::external_body]
pub(crate) fn new_notifier() -> (notifier: Notify) {
    Notify::new()
}

/// Calls `tokio::sync::Notify::notify_one`, which wakes one waiter or, where
/// none is waiting, stores a single permit for the next to arrive. Believed
/// without proof: that the call returns without unwinding.
#[verifier::external_body]
pub(crate) fn wake_one(notifier: &Notify)
    opens_invariants none
    no_unwind
{
    notifier.notify_one()
}

} // verus!
