use vstd::prelude::*;

use crate::clock::{now, Timestamp};

verus! {

/// What a reader of the status sees: the flag and the time it was last set,
/// always taken together.
#[derive(Clone, Copy, Debug, PartialEq, Eq, Structural)]
pub struct Snapshot {
    pub is_open: bool,
    pub modified: Timestamp,
}

/// A change of the status at a given instant.
#[derive(Clone, Copy, Debug, PartialEq, Eq, Structural)]
pub enum Transition {
    Open(Timestamp),
    Close(Timestamp),
}

/// The state that a transition leaves behind, whatever came before it.
pub open spec fn result_of(t: Transition) -> Snapshot {
    match t {
        Transition::Open(at) => Snapshot { is_open: true, modified: at },
        Transition::Close(at) => Snapshot { is_open: false, modified: at },
    }
}

/// The state after applying one transition.
pub open spec fn apply(s: Snapshot, t: Transition) -> Snapshot {
    result_of(t)
}

/// The state after applying a sequence of transitions in order.
pub open spec fn apply_all(s: Snapshot, ts: Seq<Transition>) -> Snapshot
    decreases ts.len(),
{
    if ts.len() == 0 {
        s
    } else {
        apply(apply_all(s, ts.drop_last()), ts.last())
    }
}

/// The open/closed state of the space, with the two images that show it.
pub struct SpaceStatus {
    pub status: bool,
    /// Path of the image shown while the space is open.
    pub open: String,
    /// Path of the image shown while the space is closed.
    pub close: String,
    pub modified: Timestamp,
}

/// The shared record behind the service.
pub struct SpaceApi {
    pub status: SpaceStatus,
}

impl SpaceStatus {
    pub open spec fn snapshot_of(&self) -> Snapshot {
        Snapshot { is_open: self.status, modified: self.modified }
    }

    /// The state at start-up: closed, with `modified` as its time of change.
    pub fn new(open: String, close: String, modified: Timestamp) -> (r: SpaceStatus)
        ensures
            r.status == false,
            r.modified == modified,
            r.open == open,
            r.close == close,
    {
        SpaceStatus { status: false, open, close, modified }
    }

    /// The flag and the time of its last change, copied together.
    pub fn snapshot(&self) -> (r: Snapshot)
        ensures
            r == self.snapshot_of(),
    {
        Snapshot { is_open: self.status, modified: self.modified }
    }

    /// Marks the space open as of `at`, also when it already was.
    pub fn open_at(&mut self, at: Timestamp)
        ensures
            final(self).snapshot_of() == apply(old(self).snapshot_of(), Transition::Open(at)),
            final(self).open == old(self).open,
            final(self).close == old(self).close,
    {
        self.status = true;
        self.modified = at;
    }

    /// Marks the space closed as of `at`, also when it already was.
    pub fn close_at(&mut self, at: Timestamp)
        ensures
            final(self).snapshot_of() == apply(old(self).snapshot_of(), Transition::Close(at)),
            final(self).open == old(self).open,
            final(self).close == old(self).close,
    {
        self.status = false;
        self.modified = at;
    }

    /// Marks the space open as of the current time.
    pub fn open(&mut self)
        ensures
            final(self).status == true,
            final(self).modified.wf(),
            final(self).open == old(self).open,
            final(self).close == old(self).close,
    {
        let at = now();
        self.open_at(at);
    }

    /// Marks the space closed as of the current time.
    pub fn close(&mut self)
        ensures
            final(self).status == false,
            final(self).modified.wf(),
            final(self).open == old(self).open,
            final(self).close == old(self).close,
    {
        let at = now();
        self.close_at(at);
    }
}

/// No torn state: after any non-empty run of transitions, the flag and the
/// time of change both come from the last transition of the run.
pub proof fn lemma_state_from_one_transition(s: Snapshot, ts: Seq<Transition>)
    requires
        ts.len() > 0,
    ensures
        apply_all(s, ts) == result_of(ts.last()),
        exists|i: int| 0 <= i < ts.len() && apply_all(s, ts) == result_of(#[trigger] ts[i]),
{
    assert(apply_all(s, ts) == result_of(ts[ts.len() - 1]));
}

/// Opening at `at` and then reading gives an open space whose time of
/// change is `at`, so not earlier than `at`.
pub proof fn lemma_open_then_read(s: Snapshot, at: Timestamp)
    ensures
        apply(s, Transition::Open(at)).is_open,
        apply(s, Transition::Open(at)).modified == at,
        at.spec_le(apply(s, Transition::Open(at)).modified),
{
}

/// Opening twice keeps the space open and takes the time of each call.
pub proof fn lemma_open_twice(s: Snapshot, first: Timestamp, second: Timestamp)
    ensures
        apply(s, Transition::Open(first)) == (Snapshot { is_open: true, modified: first }),
        apply(apply(s, Transition::Open(first)), Transition::Open(second)) == (Snapshot {
            is_open: true,
            modified: second,
        }),
{
}

} // verus!
