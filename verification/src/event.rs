//! What became of an event.
use vstd::prelude::*;

verus! {

/// The status of an event after a widget has seen it.
#[derive(Debug, Clone, Copy, PartialEq, Eq, Structural)]
pub enum Status {
    /// Nobody has handled the event.
    Ignored,
    /// The event was handled and should not go any further.
    Captured,
}

} // verus!
