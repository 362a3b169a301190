//! What holds of the handle table over every run of the facade.
//!
//! A run is a sequence of operations on a table. Each operation here is the
//! table-level effect that the contract of a facade function states.

use crate::link::Link;
use crate::message::Arrival;
use crate::table::TableView;
use vstd::prelude::*;

verus! {

/// One operation of the host on a table.
pub enum Op {
    /// Any of the functions that open a socket, on this link.
    Open(Link),
    /// `close` of a handle.
    Close(u32),
    /// `close_all`.
    CloseAll,
    /// `update` of a handle, with what the poll found.
    Poll(u32, Arrival),
    /// A read of the message slot of a handle.
    TakeMessage(u32),
    /// A read of the error slot of a handle.
    TakeError(u32),
    /// Any of the functions that send to a handle; the socket holds this
    /// link afterwards.
    Send(u32, Link),
}

impl TableView {
    /// The table after one operation.
    pub open spec fn after(self, op: Op) -> TableView {
        match op {
            Op::Open(link) => self.opened(link),
            Op::Close(handle) => self.closed(handle),
            Op::CloseAll => self.closed_all(),
            Op::Poll(handle, arrival) => self.polled(handle, arrival),
            Op::TakeMessage(handle) => self.message_taken(handle),
            Op::TakeError(handle) => self.error_taken(handle),
            Op::Send(handle, link) => self.relinked(handle, link),
        }
    }

    /// Whether the table meets what the operation asks of it: opening and
    /// polling need a handle to give out.
    pub open spec fn admits(self, op: Op) -> bool {
        match op {
            Op::Open(_) => self.has_room(),
            Op::Poll(_, _) => self.has_room(),
            _ => true,
        }
    }

    /// The handle that the operation gives out, if it gives one out: an
    /// opened socket and an accepted peer get the table's next handle.
    pub open spec fn gives(self, op: Op) -> Option<u32> {
        match op {
            Op::Open(_) => Some(self.next_handle),
            Op::Poll(handle, arrival) => if self.poll_outcome(handle, arrival) is NEWCLIENT {
                Some(self.next_handle)
            } else {
                None
            },
            _ => None,
        }
    }

    /// Whether the operation is a poll that returns `NEWCLIENT` and reports
    /// `peer` as the new client.
    pub open spec fn announces(self, op: Op, peer: u32) -> bool {
        op matches Op::Poll(handle, arrival) && self.poll_outcome(handle, arrival) is NEWCLIENT
            && self.after(op).last_client_of(handle) == peer
    }

    /// The table after the first `n` operations of a run.
    pub open spec fn after_first(self, ops: Seq<Op>, n: int) -> TableView
        decreases n,
    {
        if n <= 0 {
            self
        } else {
            self.after_first(ops, n - 1).after(ops[n - 1])
        }
    }

    /// Whether every operation of a run finds the table as it asks.
    pub open spec fn admits_run(self, ops: Seq<Op>) -> bool {
        forall|i: int| 0 <= i < ops.len() ==> #[trigger] self.after_first(ops, i).admits(ops[i])
    }
}

/// Every operation keeps a valid table valid, never lowers the next handle,
/// and never brings back a handle below it that the table no longer holds.
pub proof fn lemma_step_keeps_valid(t: TableView, op: Op)
    requires
        t.wf(),
        t.admits(op),
    ensures
        t.after(op).wf(),
        t.after(op).next_handle >= t.next_handle,
        forall|h: u32|
            h < t.next_handle && !t.sockets.contains_key(h) ==> !#[trigger] t.after(
                op,
            ).sockets.contains_key(h),
{
}

/// The handle that an operation gives out is new: the table did not hold
/// it, it is above every handle that the table holds, the socket stands
/// under it afterwards, and the next handle to be given out is one higher.
pub proof fn lemma_given_handle_is_new(t: TableView, op: Op, handle: u32)
    requires
        t.wf(),
        t.admits(op),
        t.gives(op) == Some(handle),
    ensures
        handle >= 1,
        !t.sockets.contains_key(handle),
        forall|h: u32| t.sockets.contains_key(h) ==> h < handle,
        t.after(op).sockets.contains_key(handle),
        t.after(op).next_handle == handle + 1,
{
}

/// The only way a handle enters the table is by being given out: an
/// operation that gives no handle out adds none, and one that gives a
/// handle out adds that one alone.
pub proof fn lemma_step_adds_only_given(t: TableView, op: Op, h: u32)
    requires
        t.wf(),
        t.admits(op),
        !t.sockets.contains_key(h),
        t.after(op).sockets.contains_key(h),
    ensures
        t.gives(op) == Some(h),
        op is Open || t.announces(op, h),
{
}

/// No operation moves a socket's status backward: a socket that is in the
/// table before and after the operation has a status that its earlier
/// status may become.
pub proof fn lemma_step_status_forward(t: TableView, op: Op, h: u32)
    requires
        t.wf(),
        t.admits(op),
        t.sockets.contains_key(h),
        t.after(op).sockets.contains_key(h),
    ensures
        t.sockets[h].status.may_become(t.after(op).sockets[h].status),
{
}

/// A run keeps a valid table valid at every point, and the next handle
/// never goes down along it.
pub proof fn lemma_run_keeps_valid(t: TableView, ops: Seq<Op>, n: int)
    requires
        t.wf(),
        t.admits_run(ops),
        0 <= n <= ops.len(),
    ensures
        t.after_first(ops, n).wf(),
        t.after_first(ops, n).next_handle >= t.next_handle,
    decreases n,
{
    if n > 0 {
        lemma_run_keeps_valid(t, ops, n - 1);
        lemma_step_keeps_valid(t.after_first(ops, n - 1), ops[n - 1]);
    }
}

/// The next handle never goes down between two points of a run.
pub proof fn lemma_next_handle_grows(t: TableView, ops: Seq<Op>, i: int, j: int)
    requires
        t.wf(),
        t.admits_run(ops),
        0 <= i <= j <= ops.len(),
    ensures
        t.after_first(ops, i).next_handle <= t.after_first(ops, j).next_handle,
    decreases j - i,
{
    if i < j {
        lemma_next_handle_grows(t, ops, i, j - 1);
        lemma_run_keeps_valid(t, ops, j - 1);
        lemma_step_keeps_valid(t.after_first(ops, j - 1), ops[j - 1]);
    }
}

/// Handles are unique and strictly increasing: of two handles that a run
/// gives out, the later one is the greater.
pub proof fn lemma_handles_strictly_increase(
    t: TableView,
    ops: Seq<Op>,
    i: int,
    j: int,
    first: u32,
    second: u32,
)
    requires
        t.wf(),
        t.admits_run(ops),
        0 <= i < j < ops.len(),
        t.after_first(ops, i).gives(ops[i]) == Some(first),
        t.after_first(ops, j).gives(ops[j]) == Some(second),
    ensures
        first < second,
{
    lemma_run_keeps_valid(t, ops, i);
    lemma_given_handle_is_new(t.after_first(ops, i), ops[i], first);
    assert(t.after_first(ops, i + 1) == t.after_first(ops, i).after(ops[i]));
    lemma_next_handle_grows(t, ops, i + 1, j);
}

/// A handle is never used again: one that was given out and that the table
/// no longer holds stays out of the table for the rest of the run, so its
/// status reads `INVALIDHANDLE` from there on.
pub proof fn lemma_handle_is_never_reused(t: TableView, ops: Seq<Op>, h: u32, n: int)
    requires
        t.wf(),
        t.admits_run(ops),
        h < t.next_handle,
        !t.sockets.contains_key(h),
        0 <= n <= ops.len(),
    ensures
        !t.after_first(ops, n).sockets.contains_key(h),
        t.after_first(ops, n).status_of(h) is INVALIDHANDLE,
    decreases n,
{
    if n > 0 {
        lemma_handle_is_never_reused(t, ops, h, n - 1);
        lemma_run_keeps_valid(t, ops, n - 1);
        lemma_step_keeps_valid(t.after_first(ops, n - 1), ops[n - 1]);
    }
}

/// After `close` of a handle its status is `INVALIDHANDLE`, and it stays so
/// whatever the host does next.
pub proof fn lemma_closed_handle_stays_invalid(t: TableView, h: u32, ops: Seq<Op>, n: int)
    requires
        t.wf(),
        t.sockets.contains_key(h),
        t.closed(h).admits_run(ops),
        0 <= n <= ops.len(),
    ensures
        t.closed(h).status_of(h) is INVALIDHANDLE,
        t.closed(h).after_first(ops, n).status_of(h) is INVALIDHANDLE,
{
    lemma_step_keeps_valid(t, Op::Close(h));
    lemma_handle_is_never_reused(t.closed(h), ops, h, n);
}

/// A socket that the table holds at two points of a run was held at every
/// point between them.
proof fn lemma_held_between(t: TableView, ops: Seq<Op>, h: u32, i: int, j: int, k: int)
    requires
        t.wf(),
        t.admits_run(ops),
        0 <= i <= k <= j <= ops.len(),
        t.after_first(ops, i).sockets.contains_key(h),
        t.after_first(ops, j).sockets.contains_key(h),
    ensures
        t.after_first(ops, k).sockets.contains_key(h),
    decreases j - k,
{
    if k < j {
        lemma_held_between(t, ops, h, i, j, k + 1);
        lemma_run_keeps_valid(t, ops, k);
        lemma_run_keeps_valid(t, ops, i);
        lemma_next_handle_grows(t, ops, i, k);
        lemma_step_keeps_valid(t.after_first(ops, k), ops[k]);
        assert(t.after_first(ops, k + 1) == t.after_first(ops, k).after(ops[k]));
    }
}

/// Status never goes backward along a run: between any two points at which
/// the table holds a socket, the status moved only forward in the order
/// `OPENING`, `OPEN`, and `CLOSED` or `ERROR`.
pub proof fn lemma_status_never_goes_back(t: TableView, ops: Seq<Op>, h: u32, i: int, j: int)
    requires
        t.wf(),
        t.admits_run(ops),
        0 <= i <= j <= ops.len(),
        t.after_first(ops, i).sockets.contains_key(h),
        t.after_first(ops, j).sockets.contains_key(h),
    ensures
        t.after_first(ops, i).sockets[h].status.may_become(
            t.after_first(ops, j).sockets[h].status,
        ),
    decreases j - i,
{
    if i < j {
        lemma_held_between(t, ops, h, i, j, j - 1);
        lemma_status_never_goes_back(t, ops, h, i, j - 1);
        lemma_run_keeps_valid(t, ops, j - 1);
        lemma_step_status_forward(t.after_first(ops, j - 1), ops[j - 1], h);
    }
}

/// A poll answers for a peer only after the peer was announced: if a poll
/// of `peer` returns anything but `INVALIDHANDLE`, and the table did not
/// hold `peer` at the start of the run, an earlier operation of the run
/// gave `peer` out, and that operation was either the host opening a socket
/// or a poll that returned `NEWCLIENT` and reported `peer` as its client.
pub proof fn lemma_peer_is_announced_first(
    t: TableView,
    ops: Seq<Op>,
    peer: u32,
    j: int,
    arrival: Arrival,
)
    requires
        t.wf(),
        t.admits_run(ops),
        !t.sockets.contains_key(peer),
        0 <= j < ops.len(),
        ops[j] == Op::Poll(peer, arrival),
        !(t.after_first(ops, j).poll_outcome(peer, arrival) is INVALIDHANDLE),
    ensures
        exists|i: int|
            0 <= i < j && (#[trigger] t.after_first(ops, i).gives(ops[i])) == Some(peer) && (
            ops[i] is Open || t.after_first(ops, i).announces(ops[i], peer)),
{
    lemma_entered_by_being_given(t, ops, peer, j);
}

/// A socket's last client changes only when a poll of that socket returns
/// `NEWCLIENT`: an operation after which the last client of `h` is `client`,
/// and before which it was not, is such a poll, and `client` is the handle
/// that it gave out.
pub proof fn lemma_step_sets_last_client(t: TableView, op: Op, h: u32, client: u32)
    requires
        t.wf(),
        t.admits(op),
        client != 0,
        t.last_client_of(h) != client,
        t.after(op).last_client_of(h) == client,
    ensures
        op matches Op::Poll(polled, _) && polled == h,
        t.announces(op, client),
        t.gives(op) == Some(client),
{
}

/// The last client of a socket is 0 until a poll of the socket returns
/// `NEWCLIENT`, and from there on it is the peer that the latest such poll
/// brought: if the last client of `h` is `client` after `n` operations of a
/// run, and was not at the start, one of those operations was a poll of `h`
/// that returned `NEWCLIENT` and gave out `client`.
pub proof fn lemma_last_client_was_announced(
    t: TableView,
    ops: Seq<Op>,
    h: u32,
    client: u32,
    n: int,
)
    requires
        t.wf(),
        t.admits_run(ops),
        client != 0,
        t.last_client_of(h) != client,
        0 <= n <= ops.len(),
        t.after_first(ops, n).last_client_of(h) == client,
    ensures
        exists|i: int|
            0 <= i < n && (#[trigger] t.after_first(ops, i).announces(ops[i], client)) && (
            ops[i] matches Op::Poll(polled, _) && polled == h),
    decreases n,
{
    if n > 0 {
        let before = t.after_first(ops, n - 1);
        if before.last_client_of(h) == client {
            lemma_last_client_was_announced(t, ops, h, client, n - 1);
        } else {
            lemma_run_keeps_valid(t, ops, n - 1);
            lemma_step_sets_last_client(before, ops[n - 1], h, client);
            assert(t.after_first(ops, n - 1).announces(ops[n - 1], client));
        }
    }
}

/// A handle that the table holds after `n` operations, and did not hold at
/// the start, was given out by one of them.
proof fn lemma_entered_by_being_given(t: TableView, ops: Seq<Op>, h: u32, n: int)
    requires
        t.wf(),
        t.admits_run(ops),
        !t.sockets.contains_key(h),
        0 <= n <= ops.len(),
        t.after_first(ops, n).sockets.contains_key(h),
    ensures
        exists|i: int|
            0 <= i < n && (#[trigger] t.after_first(ops, i).gives(ops[i])) == Some(h) && (
            ops[i] is Open || t.after_first(ops, i).announces(ops[i], h)),
    decreases n,
{
    if n > 0 {
        let before = t.after_first(ops, n - 1);
        if before.sockets.contains_key(h) {
            lemma_entered_by_being_given(t, ops, h, n - 1);
        } else {
            lemma_run_keeps_valid(t, ops, n - 1);
            lemma_step_adds_only_given(before, ops[n - 1], h);
            assert(t.after_first(ops, n - 1).gives(ops[n - 1]) == Some(h));
        }
    }
}

} // verus!
