//! Node states.
//!
//! One marker type per lifecycle stage. The set is sealed: no type outside
//! this crate can be accepted as a node state.

use vstd::prelude::*;

use crate::NodeState;
use crate::StateKind;

verus! {

/// The initial stage of every node.
pub struct New {}

/// The node is catching up before it can run.
pub struct Syncing {}

/// The node is in service.
pub struct Running {}

/// The node is being decommissioned in an orderly way.
pub struct Leaving {}

/// The node has failed; the marker carries the failure reason.
pub struct Failed {
    reason: String,
}

impl Failed {
    /// The recorded reason, as a specification value.
    pub closed spec fn reason_spec(&self) -> Seq<char> {
        self.reason@
    }

    pub fn new(reason: String) -> (state: Self)
        ensures
            state.reason_spec() == reason@,
    {
        Failed { reason }
    }

    /// The failure explanation, verbatim as it was recorded.
    pub fn reason(&self) -> (r: &str)
        ensures
            r@ == self.reason_spec(),
    {
        self.reason.as_str()
    }
}

/// The terminal stage: no transition leads out of it.
pub struct Removed {}

impl NodeState for New {
    open spec fn kind() -> StateKind {
        StateKind::New
    }
}

impl NodeState for Syncing {
    open spec fn kind() -> StateKind {
        StateKind::Syncing
    }
}

impl NodeState for Running {
    open spec fn kind() -> StateKind {
        StateKind::Running
    }
}

impl NodeState for Leaving {
    open spec fn kind() -> StateKind {
        StateKind::Leaving
    }
}

impl NodeState for Failed {
    open spec fn kind() -> StateKind {
        StateKind::Failed
    }
}

impl NodeState for Removed {
    open spec fn kind() -> StateKind {
        StateKind::Removed
    }
}

} // verus!
