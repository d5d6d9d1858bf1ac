//! The decisions of the relay that joins a client and its target.
//!
//! The relay moves bytes as they come, without framing, size limit or
//! timeout. A driver reads from both sides at once, reports each read here,
//! and does what it is told: write the bytes to the other side, or stop and
//! release both streams.
use vstd::prelude::*;

verus! {

/// One end of a relay.
#[derive(Debug, Clone, Copy, PartialEq, Eq, Structural)]
pub enum Side {
    Client,
    Upstream,
}

impl Side {
    /// The other end.
    pub open spec fn opposite(self) -> Side {
        match self {
            Side::Client => Side::Upstream,
            Side::Upstream => Side::Client,
        }
    }

    /// The end that bytes read from this one go to.
    pub fn other(&self) -> (s: Side)
        ensures
            s == self.opposite(),
    {
        match self {
            Side::Client => Side::Upstream,
            Side::Upstream => Side::Client,
        }
    }
}

/// What a read on one side came to.
#[derive(Debug, PartialEq, Eq)]
pub enum RelayEvent {
    /// The bytes that were read; none at the end of the stream.
    Read(Side, Vec<u8>),
    /// The read, or the write of what was read before, failed.
    Failed(Side),
}

/// What the driver is to do about it.
#[derive(Debug, PartialEq, Eq)]
pub enum RelayAction {
    /// Write all of these bytes to this side, then go on reading.
    Forward(Side, Vec<u8>),
    /// End the relay in both directions.
    Stop,
}

/// The bytes that an event sends on, and where to: what was read, as it was
/// read, to the opposite side. The end of a stream and a failure send nothing.
pub open spec fn forwarded(event: RelayEvent) -> Option<(Side, Seq<u8>)> {
    match event {
        RelayEvent::Read(from, bytes) => if bytes@.len() > 0 {
            Some((from.opposite(), bytes@))
        } else {
            None
        },
        RelayEvent::Failed(_) => None,
    }
}

/// Decides one step of the relay. Bytes that came from one side go to the
/// other unchanged; the end of either stream, or a failure on either, stops
/// the whole relay.
pub fn relay_step(event: RelayEvent) -> (action: RelayAction)
    ensures
        match forwarded(event) {
            Some((to, bytes)) => action matches RelayAction::Forward(side, out) && side == to
                && out@ == bytes,
            None => action is Stop,
        },
{
    match event {
        RelayEvent::Read(from, bytes) => {
            if bytes.len() > 0 {
                RelayAction::Forward(from.other(), bytes)
            } else {
                RelayAction::Stop
            }
        },
        RelayEvent::Failed(_) => RelayAction::Stop,
    }
}

/// The bytes that the reads reported in `events` obtained from `side`, in order.
pub open spec fn received(events: Seq<RelayEvent>, side: Side) -> Seq<u8>
    decreases events.len(),
{
    if events.len() == 0 {
        Seq::empty()
    } else {
        let first = match events[0] {
            RelayEvent::Read(from, bytes) => if from == side {
                bytes@
            } else {
                Seq::empty()
            },
            RelayEvent::Failed(_) => Seq::empty(),
        };
        first + received(events.drop_first(), side)
    }
}

/// The bytes that a relay writes to `side` when `events` are reported to it
/// in this order and each answer is obeyed. Nothing is written from the
/// first event on that stops the relay.
pub open spec fn delivered(events: Seq<RelayEvent>, side: Side) -> Seq<u8>
    decreases events.len(),
{
    if events.len() == 0 {
        Seq::empty()
    } else {
        match forwarded(events[0]) {
            None => Seq::empty(),
            Some((to, bytes)) => {
                let first = if to == side {
                    bytes
                } else {
                    Seq::empty()
                };
                first + delivered(events.drop_first(), side)
            },
        }
    }
}

/// Over a whole run, what one side is sent is a prefix of what was read from
/// the other: the same bytes in the same order, with nothing put in and
/// nothing of its own sent back to it.
pub proof fn lemma_relay_run(events: Seq<RelayEvent>, side: Side)
    ensures
        delivered(events, side.opposite()).is_prefix_of(received(events, side)),
    decreases events.len(),
{
    if events.len() > 0 {
        let rest = events.drop_first();
        lemma_relay_run(rest, side);
        let d = delivered(rest, side.opposite());
        let r = received(rest, side);
        match forwarded(events[0]) {
            None => {},
            Some((to, bytes)) => {
                if to == side.opposite() {
                    assert((bytes + d).is_prefix_of(bytes + r)) by {
                        assert((bytes + r).subrange(0, (bytes + d).len() as int) =~= bytes + d);
                    }
                } else {
                    assert(Seq::<u8>::empty() + d =~= d);
                    assert(Seq::<u8>::empty() + r =~= r);
                }
            },
        }
    }
}

/// The relay does not stop early: as long as every read brings bytes, all
/// that was read from one side is sent to the other.
pub proof fn lemma_relay_keeps_going(events: Seq<RelayEvent>, side: Side)
    requires
        forall|i: int| 0 <= i < events.len() ==> forwarded(#[trigger] events[i]) is Some,
    ensures
        delivered(events, side.opposite()) == received(events, side),
    decreases events.len(),
{
    if events.len() > 0 {
        let rest = events.drop_first();
        assert forall|i: int| 0 <= i < rest.len() implies forwarded(#[trigger] rest[i]) is Some by {
            assert(rest[i] == events[i + 1]);
        }
        lemma_relay_keeps_going(rest, side);
        assert(forwarded(events[0]) is Some);
    }
}

} // verus!
