//! The one condition that an actor reports to its callers.
use vstd::prelude::*;

verus! {

/// Possible errors when dealing with actors.
#[derive(Clone, Copy, Debug, PartialEq, Eq, Structural)]
pub enum ActingErr {
    /// The actor that was contacted is dead: its mailbox is no longer read.
    DeadActor,
}

} // verus!
