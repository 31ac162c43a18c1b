//! The closed set of event and command types routed through the dispatch core.

use vstd::prelude::*;

verus! {

/// One of the four hardware capture slots, each bound to one pin's
/// edge-triggered interrupt. Fixed at construction of a channel actor.
#[derive(Clone, Copy, PartialEq, Eq, Structural, Debug)]
pub enum Channel {
    Channel0,
    Channel1,
    Channel2,
    Channel3,
}

/// The number of hardware capture channels.
pub const NUM_CHANNELS: usize = 4;

/// The position of a channel in channel-index order.
pub open spec fn channel_index(c: Channel) -> int {
    match c {
        Channel::Channel0 => 0,
        Channel::Channel1 => 1,
        Channel::Channel2 => 2,
        Channel::Channel3 => 3,
    }
}

impl Channel {
    /// The position of this channel in channel-index order.
    pub fn index(&self) -> (i: usize)
        ensures
            i == channel_index(*self),
    {
        match *self {
            Channel::Channel0 => 0,
            Channel::Channel1 => 1,
            Channel::Channel2 => 2,
            Channel::Channel3 => 3,
        }
    }
}

/// The channel standing at a position in channel-index order.
pub open spec fn channel_of(i: int) -> Channel {
    if i == 0 {
        Channel::Channel0
    } else if i == 1 {
        Channel::Channel1
    } else if i == 2 {
        Channel::Channel2
    } else {
        Channel::Channel3
    }
}

/// The channel standing at a position in channel-index order.
pub fn channel_at(i: usize) -> (c: Channel)
    requires
        i < NUM_CHANNELS,
    ensures
        c == channel_of(i as int),
{
    if i == 0 {
        Channel::Channel0
    } else if i == 1 {
        Channel::Channel1
    } else if i == 2 {
        Channel::Channel2
    } else {
        Channel::Channel3
    }
}

/// Trigger polarity configured per channel, read-only after construction.
#[derive(Clone, Copy, PartialEq, Eq, Structural, Debug)]
pub enum Edge {
    Rising,
    Falling,
    Both,
}

/// The binary logical level of a pin.
#[derive(Clone, Copy, PartialEq, Eq, Structural, Debug)]
pub enum PinState {
    High,
    Low,
}

/// The outcome of sampling a pin: a level, or a hardware read fault.
#[derive(Clone, Copy, PartialEq, Eq, Structural, Debug)]
pub enum PinRead {
    Level(PinState),
    Fault,
}

/// The level a pin reading stands for: a fault is treated as the inactive
/// (High) level rather than halting, so a failed read degrades softly.
pub open spec fn effective_level_spec(r: PinRead) -> PinState {
    match r {
        PinRead::Level(s) => s,
        PinRead::Fault => PinState::High,
    }
}

/// The level a pin reading stands for; substitutes High on a read fault.
pub fn effective_level(r: PinRead) -> (s: PinState)
    ensures
        s == effective_level_spec(r),
{
    match r {
        PinRead::Level(s) => s,
        PinRead::Fault => PinState::High,
    }
}

/// Carries the channel that fired; produced only by the interrupt controller.
#[derive(Clone, Copy, PartialEq, Eq, Structural, Debug)]
pub struct GpioteEvent(pub Channel);

/// Carries a sampled pin level; produced only by a channel actor.
#[derive(Clone, Copy, PartialEq, Eq, Structural, Debug)]
pub struct PinEvent(pub PinState);

/// An opaque, copyable handle to an actor's mailbox. Holding an address never
/// implies ownership of the actor itself, which stays with the scheduler.
#[derive(Clone, Copy, PartialEq, Eq, Structural, Debug)]
pub struct Address(pub usize);

/// The closed union of messages an actor mailbox can hold.
#[derive(Clone, Copy, PartialEq, Eq, Structural, Debug)]
pub enum Event {
    /// A channel fired, published from interrupt context.
    Trigger(GpioteEvent),
    /// A pin level was sampled, published by a channel actor.
    Pin(PinEvent),
    /// The one-time startup handshake carrying the matrix actor's address.
    Bind(Address),
}

/// A command of the matrix actuator protocol; fire-and-forget.
#[derive(Clone, Copy, PartialEq, Eq, Structural, Debug)]
pub enum MatrixCommand {
    Activate(usize, usize),
    Deactivate(usize, usize),
    Render,
}

/// A matrix command together with the mailbox address it is sent to.
#[derive(Clone, Copy, PartialEq, Eq, Structural, Debug)]
pub struct MatrixRequest {
    pub to: Address,
    pub command: MatrixCommand,
}

} // verus!
