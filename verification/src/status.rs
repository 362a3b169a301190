//! Socket states and poll results.

use vstd::prelude::*;

verus! {

/// What one poll of a handle reports to the host.
#[derive(Copy, Clone, Debug, PartialEq, Eq, Structural)]
pub enum SocketResult {
    INVALIDHANDLE,
    CLOSED,
    OPENING,
    NODATA,
    HASDATA,
    ERROR,
    NEWCLIENT,
}

/// The lifecycle state of a socket. `INVALIDHANDLE` is never stored in the
/// table: it is the answer for a handle that the table does not hold.
#[derive(Copy, Clone, Debug, PartialEq, Eq, Structural)]
pub enum SocketStatus {
    INVALIDHANDLE,
    CLOSED,
    OPEN,
    OPENING,
    ERROR,
}

impl SocketStatus {
    /// A live socket is one that may still exchange messages with its task.
    pub open spec fn live(self) -> bool {
        self is OPEN || self is OPENING
    }

    /// The poll result of a socket that is no longer live: `CLOSED` stays
    /// `CLOSED`, everything else reads as `ERROR`.
    pub open spec fn settled_result(self) -> SocketResult {
        if self is CLOSED {
            SocketResult::CLOSED
        } else {
            SocketResult::ERROR
        }
    }

    /// The lifecycle order: `OPENING` may become `OPEN`, and either of them
    /// may become `CLOSED` or `ERROR`. Nothing ever leaves `CLOSED` or
    /// `ERROR`, and nothing goes back to `OPENING`.
    pub open spec fn may_become(self, next: SocketStatus) -> bool {
        self == next || match self {
            SocketStatus::OPENING => next is OPEN || next is CLOSED || next is ERROR,
            SocketStatus::OPEN => next is CLOSED || next is ERROR,
            _ => false,
        }
    }

    #[verifier::when_used_as_spec(live)]
    pub fn is_live(self) -> (r: bool)
        ensures
            r == self.live(),
    {
        match self {
            SocketStatus::OPEN | SocketStatus::OPENING => true,
            _ => false,
        }
    }

    pub fn result_when_settled(self) -> (r: SocketResult)
        ensures
            r == self.settled_result(),
    {
        match self {
            SocketStatus::CLOSED => SocketResult::CLOSED,
            _ => SocketResult::ERROR,
        }
    }
}

/// The lifecycle order is reflexive and transitive, so a chain of permitted
/// steps is itself a permitted step.
pub proof fn lemma_may_become_transitive(a: SocketStatus, b: SocketStatus, c: SocketStatus)
    requires
        a.may_become(b),
        b.may_become(c),
    ensures
        a.may_become(c),
        a.may_become(a),
{
}

/// The lifecycle order never leads backward: if `a` may become `b` and `b`
/// may become `a`, they are the same state.
pub proof fn lemma_may_become_antisymmetric(a: SocketStatus, b: SocketStatus)
    requires
        a.may_become(b),
        b.may_become(a),
    ensures
        a == b,
{
}

} // verus!
