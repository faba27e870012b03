//! The two debounce modes.

use vstd::prelude::*;

verus! {

/// When a burst of triggers becomes actionable.
///
/// - `Leading`: the first trigger fires at once, later ones wait out the
///   cooldown measured from the end of the previous batch.
/// - `Trailing`: a batch fires only after a full cooldown of silence since
///   the most recent trigger.
#[derive(Debug, Clone, Copy, PartialEq, Eq, Structural)]
pub enum DebounceMode {
    Leading,
    Trailing,
}

impl DebounceMode {
    /// Whether this mode postpones the batch on every new trigger.
    pub open spec fn reschedules(self) -> bool {
        self == DebounceMode::Trailing
    }

    pub fn is_trailing(self) -> (r: bool)
        ensures
            r == self.reschedules(),
    {
        match self {
            DebounceMode::Leading => false,
            DebounceMode::Trailing => true,
        }
    }
}

} // verus!
