//! The relay loop's decisions.
//!
//! Once connected, the tool multiplexes readiness events over exactly two
//! directions: local input to the remote connection, and the remote
//! connection to local output.  The surrounding process blocks in one poll
//! over both registrations, hands each direction's reported event bits to
//! `decide_event`, performs the transfer it calls for, and records the
//! outcome with `record_outcome`.  A direction is disabled, permanently, on
//! end-of-stream or transfer failure; the loop runs until both directions
//! are disabled, which `is_done` reports, and the process then exits with
//! `exit_code(RelayEnd::CleanShutdown)`, which is zero.

use crate::transfer::TransferOutcome;
use vstd::prelude::*;

verus! {

/// The readiness bit for "readable", the only interest the relay
/// registers.  It is the lowest event bit.
pub const READABLE: u16 = 1;

/// One of the relay's two fixed data paths.
#[derive(Clone, Copy, Debug, PartialEq, Eq, Structural)]
pub enum Direction {
    LocalToRemote,
    RemoteToLocal,
}

/// The direction opposite to `d`.
pub open spec fn peer(d: Direction) -> Direction {
    match d {
        Direction::LocalToRemote => Direction::RemoteToLocal,
        Direction::RemoteToLocal => Direction::LocalToRemote,
    }
}

/// What the relay does with one direction's reported event bits.
#[derive(Clone, Copy, Debug, PartialEq, Eq, Structural)]
pub enum EventDecision {
    /// No event was reported: nothing to do.
    Ignore,
    /// The source became readable: move one bounded chunk.
    Transfer,
    /// An event other than readable resolved first: fatal for the whole
    /// process.
    FatalEvent,
}

/// The lowest set bit of `r`, or zero when no bit is set.
pub open spec fn lowest_event_bit(r: u16) -> u16 {
    if r == 0 {
        0u16
    } else {
        r & !((r - 1) as u16)
    }
}

/// Reduces a reported event set to the single bit the relay acts on: the
/// lowest set bit, so that readable, the lowest bit of all, wins over any
/// condition it is combined with.
pub fn resolve_event_bit(revents: u16) -> (b: u16)
    ensures
        b == lowest_event_bit(revents),
        b & revents == b,
        b == 0 <==> revents == 0,
        b == READABLE <==> revents & READABLE == READABLE,
{
    if revents == 0 {
        proof {
            assert(0u16 & 0u16 == 0u16) by (bit_vector);
            assert(0u16 & 1u16 == 0u16) by (bit_vector);
        }
        0
    } else {
        let b = revents & !(revents - 1);
        proof {
            assert({
                let low = revents & !((revents - 1) as u16);
                &&& low & revents == low
                &&& low != 0
                &&& (low == 1u16 <==> revents & 1u16 == 1u16)
            }) by (bit_vector)
                requires
                    revents != 0,
            ;
        }
        b
    }
}

/// Decides what one direction's reported event bits call for: nothing when
/// no event is reported, one bounded transfer when the resolved bit is
/// readable, and a fatal stop when some other condition resolved first.
pub fn decide_event(revents: u16) -> (d: EventDecision)
    ensures
        d == EventDecision::Ignore <==> revents == 0,
        d == EventDecision::Transfer <==> revents & READABLE == READABLE,
        d == EventDecision::FatalEvent <==> revents != 0 && revents & READABLE != READABLE,
{
    let b = resolve_event_bit(revents);
    if b == 0 {
        EventDecision::Ignore
    } else if b == READABLE {
        EventDecision::Transfer
    } else {
        EventDecision::FatalEvent
    }
}

/// One direction's registration state: whether it still has readable
/// interest.  A direction starts active and is disabled at most once,
/// permanently.
#[derive(Clone, Copy, Debug, PartialEq, Eq, Structural)]
pub struct DirectionState {
    pub active: bool,
}

/// The relay's whole state: the two directions' registrations.
#[derive(Clone, Copy, Debug, PartialEq, Eq, Structural)]
pub struct RelayState {
    pub local_to_remote: DirectionState,
    pub remote_to_local: DirectionState,
}

/// The state `s` moves to when `out` is recorded for direction `d`: the
/// direction stays active only if it was active and bytes moved; the other
/// direction is untouched.
pub open spec fn record_step(s: RelayState, d: Direction, out: TransferOutcome) -> RelayState {
    let stays = s.dir(d).active && out is Moved;
    match d {
        Direction::LocalToRemote => RelayState {
            local_to_remote: DirectionState { active: stays },
            ..s
        },
        Direction::RemoteToLocal => RelayState {
            remote_to_local: DirectionState { active: stays },
            ..s
        },
    }
}

/// The state after every outcome in `steps` is recorded in turn.
pub open spec fn record_all(s: RelayState, steps: Seq<(Direction, TransferOutcome)>) -> RelayState
    decreases steps.len(),
{
    if steps.len() == 0 {
        s
    } else {
        record_all(record_step(s, steps[0].0, steps[0].1), steps.skip(1))
    }
}

impl RelayState {
    /// The registration of direction `d`.
    pub open spec fn dir(self, d: Direction) -> DirectionState {
        match d {
            Direction::LocalToRemote => self.local_to_remote,
            Direction::RemoteToLocal => self.remote_to_local,
        }
    }

    /// The starting state: both directions active.
    pub fn new() -> (s: RelayState)
        ensures
            s.local_to_remote.active,
            s.remote_to_local.active,
    {
        RelayState {
            local_to_remote: DirectionState { active: true },
            remote_to_local: DirectionState { active: true },
        }
    }

    /// The event bits direction `d` is registered for: readable while the
    /// direction is active, nothing once it is disabled.
    pub fn interest(&self, d: Direction) -> (r: u16)
        ensures
            r == if self.dir(d).active { READABLE } else { 0u16 },
    {
        let active = match d {
            Direction::LocalToRemote => self.local_to_remote.active,
            Direction::RemoteToLocal => self.remote_to_local.active,
        };
        if active {
            READABLE
        } else {
            0
        }
    }

    /// Records the outcome of one transfer on direction `d`.  End-of-stream
    /// and failure disable the direction, permanently; moved bytes leave it
    /// active.  The other direction is untouched either way, so losing one
    /// direction never tears down the other.
    pub fn record_outcome(&mut self, d: Direction, out: TransferOutcome)
        ensures
            *final(self) == record_step(*old(self), d, out),
            final(self).dir(d).active <==> old(self).dir(d).active && out is Moved,
            final(self).dir(peer(d)) == old(self).dir(peer(d)),
    {
        let stays = match out {
            TransferOutcome::Moved(_) => true,
            TransferOutcome::EndOfStream => false,
            TransferOutcome::Failed(_) => false,
        };
        match d {
            Direction::LocalToRemote => {
                let was = self.local_to_remote.active;
                self.local_to_remote.active = was && stays;
            },
            Direction::RemoteToLocal => {
                let was = self.remote_to_local.active;
                self.remote_to_local.active = was && stays;
            },
        }
    }

    /// Decides what to do with the event bits reported for direction `d`
    /// in one wait cycle.  A disabled direction is a no-op whatever was
    /// reported; an active one follows the event tie-break of
    /// `decide_event`.
    pub fn decide_for(&self, d: Direction, revents: u16) -> (dec: EventDecision)
        ensures
            !self.dir(d).active ==> dec == EventDecision::Ignore,
            self.dir(d).active ==> {
                &&& dec == EventDecision::Ignore <==> revents == 0
                &&& dec == EventDecision::Transfer <==> revents & READABLE == READABLE
                &&& dec == EventDecision::FatalEvent <==> revents != 0 && revents & READABLE
                    != READABLE
            },
    {
        let active = match d {
            Direction::LocalToRemote => self.local_to_remote.active,
            Direction::RemoteToLocal => self.remote_to_local.active,
        };
        if !active {
            EventDecision::Ignore
        } else {
            decide_event(revents)
        }
    }

    /// True once both directions are disabled: the relay is finished and
    /// the process terminates cleanly.
    pub fn is_done(&self) -> (r: bool)
        ensures
            r <==> !self.local_to_remote.active && !self.remote_to_local.active,
    {
        !self.local_to_remote.active && !self.remote_to_local.active
    }
}

/// How the relay loop came to an end.
#[derive(Clone, Copy, Debug, PartialEq, Eq, Structural)]
pub enum RelayEnd {
    /// Both directions reached end-of-stream or failure and were disabled.
    CleanShutdown,
    /// A direction reported an event other than readable.
    FatalEvent,
}

/// The process exit code for an end of the relay loop: zero exactly on a
/// clean dual-direction shutdown.
pub fn exit_code(end: RelayEnd) -> (c: i32)
    ensures
        c == 0 <==> end == RelayEnd::CleanShutdown,
{
    match end {
        RelayEnd::CleanShutdown => 0,
        RelayEnd::FatalEvent => 1,
    }
}

/// A disabled direction never re-activates: whatever outcomes are recorded
/// later, on either direction, it stays disabled.
pub proof fn lemma_disable_is_permanent(
    s: RelayState,
    steps: Seq<(Direction, TransferOutcome)>,
    d: Direction,
)
    requires
        !s.dir(d).active,
    ensures
        !record_all(s, steps).dir(d).active,
    decreases steps.len(),
{
    if steps.len() > 0 {
        lemma_disable_is_permanent(record_step(s, steps[0].0, steps[0].1), steps.skip(1), d);
    }
}

/// End-of-stream or failure on one direction does not terminate the other:
/// outcomes recorded only on direction `d` leave the other direction's
/// registration exactly as it was, so a still-active direction keeps being
/// serviced.
pub proof fn lemma_peer_direction_unaffected(
    s: RelayState,
    steps: Seq<(Direction, TransferOutcome)>,
    d: Direction,
)
    requires
        forall|i: int| 0 <= i < steps.len() ==> steps[i].0 == d,
    ensures
        record_all(s, steps).dir(peer(d)) == s.dir(peer(d)),
    decreases steps.len(),
{
    if steps.len() > 0 {
        lemma_peer_direction_unaffected(record_step(s, steps[0].0, steps[0].1), steps.skip(1), d);
    }
}

} // verus!
