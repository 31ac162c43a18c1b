//! The interrupt controller: a model of the interrupt-capable peripheral's
//! per-channel pending flags, and the handler that turns them into one typed
//! trigger per fired channel.

use vstd::prelude::*;

use crate::channel::GpioteChannel;
use crate::events::{Channel, Edge, NUM_CHANNELS, channel_at, channel_index, channel_of};

verus! {

/// The channels whose pending flag is set, from position `i` on, in
/// channel-index order.
pub open spec fn fired_from(pending: Seq<bool>, i: int) -> Seq<Channel>
    decreases NUM_CHANNELS - i,
{
    if i < 0 || i >= NUM_CHANNELS {
        seq![]
    } else if pending[i] {
        seq![channel_of(i)] + fired_from(pending, i + 1)
    } else {
        fired_from(pending, i + 1)
    }
}

/// The interrupt controller. It owns the peripheral's pending flags: one per
/// capture channel, raised by the hardware when the channel's edge occurs and
/// cleared by the interrupt handler before it returns.
pub struct Gpiote {
    pending: [bool; NUM_CHANNELS],
}

impl Gpiote {
    /// The pending flag of each channel, in channel-index order.
    pub closed spec fn pending_spec(self) -> Seq<bool> {
        self.pending@
    }

    /// Constructs the controller with every pending flag clear.
    pub fn new() -> (g: Gpiote)
        ensures
            forall|i: int| 0 <= i < NUM_CHANNELS ==> !g.pending_spec()[i],
    {
        Gpiote { pending: [false, false, false, false] }
    }

    /// Records that the hardware raised the given channel's edge: the
    /// channel's pending flag is set and every other flag is unchanged.
    pub fn set_pending(&mut self, channel: Channel)
        ensures
            final(self).pending_spec() == old(self).pending_spec().update(
                channel_index(channel),
                true,
            ),
    {
        let i = channel.index();
        self.pending[i] = true;
    }

    /// Configures one capture channel for a trigger edge and hands back the
    /// actor that owns it. Programming the edge into the pin hardware is the
    /// peripheral driver's work; what the dispatch core keeps of it is the
    /// channel-to-edge binding the returned actor carries.
    pub fn configure_channel(&self, channel: Channel, edge: Edge) -> (c: GpioteChannel)
        ensures
            c == (GpioteChannel { channel, edge }),
    {
        GpioteChannel::new(channel, edge)
    }

    /// The interrupt handler's bounded work: reads the pending flag of each of
    /// the channels, reports the fired channels in channel-index order, and
    /// clears every pending flag before returning. Two edges on one channel
    /// between the read and the clear coalesce into a single report: a known,
    /// accepted limitation of the read-then-clear protocol.
    pub fn on_interrupt(&mut self) -> (fired: Vec<Channel>)
        ensures
            fired@ == fired_from(old(self).pending_spec(), 0),
            forall|i: int| 0 <= i < NUM_CHANNELS ==> !final(self).pending_spec()[i],
    {
        let ghost p = self.pending@;
        let mut fired: Vec<Channel> = Vec::new();
        let mut i: usize = 0;
        while i < NUM_CHANNELS
            invariant
                i <= NUM_CHANNELS,
                p == self.pending@,
                fired_from(p, 0) == fired@ + fired_from(p, i as int),
            decreases NUM_CHANNELS - i,
        {
            let ghost prev = fired@;
            if self.pending[i] {
                fired.push(channel_at(i));
                proof {
                    assert(fired@ + fired_from(p, i + 1) =~= prev + fired_from(p, i as int));
                }
            }
            i = i + 1;
        }
        proof {
            assert(fired@ + fired_from(p, NUM_CHANNELS as int) =~= fired@);
        }
        self.pending = [false, false, false, false];
        fired
    }
}

} // verus!
