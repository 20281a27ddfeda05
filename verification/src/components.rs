//! Decisions of the shared components.

use vstd::prelude::*;

verus! {

/// The result of showing a destructive confirmation for a frame.
#[derive(Clone, Copy, Debug, PartialEq, Eq, Structural)]
pub enum Choice {
    /// Neither button pressed yet: keep the confirmation open.
    Pending,
    /// The owner confirmed: perform the action and clear the flag.
    Confirmed,
    /// The owner cancelled (Cancel, backdrop or Escape): just clear the flag.
    Cancelled,
}

/// What a frame of a confirmation amounts to. Confirming wins over cancelling; the backdrop
/// or Escape counts as Cancel.
pub fn choice_from(confirm: bool, cancel: bool, dismissed: bool) -> (c: Choice)
    ensures
        c == (if confirm {
            Choice::Confirmed
        } else if cancel || dismissed {
            Choice::Cancelled
        } else {
            Choice::Pending
        }),
{
    if confirm {
        Choice::Confirmed
    } else if cancel || dismissed {
        Choice::Cancelled
    } else {
        Choice::Pending
    }
}

} // verus!
