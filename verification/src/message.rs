//! What a child view answers to a message, as the memoizing views read it.
use vstd::prelude::*;

verus! {

/// The answer of a child view to a message: the same four cases as
/// `xilem_core::MessageResult`, which the memoizing views pass on to their
/// parent after noting whether the child asked for a rebuild.
pub enum MessageOutcome<A> {
    /// An action for a parent message handler to use.
    Action(A),
    /// The child asks to be rebuilt, even though its data has not changed.
    RequestRebuild,
    /// The message had no effect that needs the element tree recreated.
    Nop,
    /// The view the message was routed to no longer exists.
    Stale,
}

impl<A> MessageOutcome<A> {
    /// Whether this answer asks for a rebuild.
    pub open spec fn asks_rebuild(&self) -> bool {
        self is RequestRebuild
    }

    /// Whether this answer asks for a rebuild.
    pub fn requests_rebuild(&self) -> (r: bool)
        ensures
            r == self.asks_rebuild(),
    {
        match self {
            MessageOutcome::RequestRebuild => true,
            _ => false,
        }
    }
}

} // verus!
