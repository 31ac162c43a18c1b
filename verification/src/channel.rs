//! The channel actor: owns one capture channel and a configured trigger edge,
//! and turns a matching channel-trigger notification into a pin-state event.

use vstd::prelude::*;

use crate::events::{
    Channel, Edge, GpioteEvent, PinEvent, PinRead, effective_level, effective_level_spec,
};

verus! {

/// An actor bound to one capture channel. On a trigger notification for its
/// own channel it samples the pin and reports the level; notifications for
/// other channels are a silent no-op.
#[derive(Clone, Copy, PartialEq, Eq, Structural, Debug)]
pub struct GpioteChannel {
    /// The capture channel this actor owns; immutable once constructed.
    pub channel: Channel,
    /// The trigger polarity the channel was configured with; read-only.
    pub edge: Edge,
}

impl GpioteChannel {
    /// Constructs the actor for one channel with its configured edge.
    pub fn new(channel: Channel, edge: Edge) -> (c: GpioteChannel)
        ensures
            c == (GpioteChannel { channel, edge }),
    {
        GpioteChannel { channel, edge }
    }

    /// What `notify` publishes: exactly one pin-state event per trigger that
    /// names this actor's own channel, and nothing for any other channel.
    pub open spec fn notify_spec(self, event: GpioteEvent, read: PinRead) -> Option<PinEvent> {
        if event.0 == self.channel {
            Some(PinEvent(effective_level_spec(read)))
        } else {
            None
        }
    }

    /// Handles one channel-trigger notification. `read` is the outcome of
    /// sampling this actor's pin at processing time; a read fault degrades
    /// softly to the inactive (High) level.
    pub fn notify(&self, event: GpioteEvent, read: PinRead) -> (r: Option<PinEvent>)
        ensures
            r == self.notify_spec(event, read),
    {
        if event.0 == self.channel {
            Some(PinEvent(effective_level(read)))
        } else {
            None
        }
    }
}

} // verus!
