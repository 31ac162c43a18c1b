//! The explicit policies of the dispatch core: the unbound activator's null
//! behaviour, the one-time bind, the drop-newest mailbox, and addressing.

use gpiote_actors::activator::{ActivatorState, LedActivator};
use gpiote_actors::device::{ActorLogic, MyDevice};
use gpiote_actors::events::{
    channel_at, effective_level, Address, Channel, Edge, Event, GpioteEvent, PinEvent, PinRead,
    PinState, NUM_CHANNELS,
};
use gpiote_actors::gpiote::Gpiote;

const ALL_HIGH: [PinRead; NUM_CHANNELS] = [
    PinRead::Level(PinState::High),
    PinRead::Level(PinState::High),
    PinRead::Level(PinState::High),
    PinRead::Level(PinState::High),
];

/// An unbound activator, given a sequence of pin-state events, emits zero
/// actuator commands and stays unbound.
#[test]
fn unbound_activator_emits_nothing() {
    let mut device = MyDevice::new(Gpiote::new());
    let act_addr = device.mount_activator(LedActivator::new(), 8);

    for level in [PinState::Low, PinState::High, PinState::Low, PinState::Low] {
        device.publish(Event::Pin(PinEvent(level)));
    }
    for _ in 0..4 {
        let out = device.step(&ALL_HIGH);
        assert_eq!(out, vec![]);
    }
    assert_eq!(device.queued(act_addr), vec![]);
    assert_eq!(
        device.actor_logic(act_addr),
        Some(ActorLogic::Activator(LedActivator { state: ActivatorState::Unbound }))
    );
}

/// The bind handshake happens once: a second bind message is ignored and the
/// first matrix address stays in force.
#[test]
fn second_bind_is_ignored() {
    let mut device = MyDevice::new(Gpiote::new());
    let act_addr = device.mount_activator(LedActivator::new(), 8);
    let first = Address(10);
    let second = Address(11);

    assert!(device.send(act_addr, Event::Bind(first)));
    assert!(device.send(act_addr, Event::Bind(second)));
    device.step(&ALL_HIGH);
    device.step(&ALL_HIGH);
    assert_eq!(
        device.actor_logic(act_addr),
        Some(ActorLogic::Activator(LedActivator { state: ActivatorState::Bound(first) }))
    );
}

/// A message arriving at a full mailbox is dropped (drop-newest): the queued
/// work is kept, the new message is lost, and the sender learns it.
#[test]
fn full_mailbox_drops_newest() {
    let gpiote = Gpiote::new();
    let fwd = gpiote.configure_channel(Channel::Channel0, Edge::Falling);
    let mut device = MyDevice::new(gpiote);
    let fwd_addr = device.mount_button(fwd, 1);

    let first = Event::Trigger(GpioteEvent(Channel::Channel0));
    let second = Event::Trigger(GpioteEvent(Channel::Channel1));
    assert!(device.send(fwd_addr, first));
    assert!(!device.send(fwd_addr, second));
    assert_eq!(device.queued(fwd_addr), vec![first]);

    // Publication drops at the full mailbox the same way.
    device.publish(second);
    assert_eq!(device.queued(fwd_addr), vec![first]);
}

/// A mailbox of capacity zero accepts nothing at all.
#[test]
fn zero_capacity_mailbox_accepts_nothing() {
    let gpiote = Gpiote::new();
    let fwd = gpiote.configure_channel(Channel::Channel0, Edge::Falling);
    let mut device = MyDevice::new(gpiote);
    let fwd_addr = device.mount_button(fwd, 0);
    assert!(!device.send(fwd_addr, Event::Trigger(GpioteEvent(Channel::Channel0))));
    device.publish(Event::Trigger(GpioteEvent(Channel::Channel0)));
    assert_eq!(device.queued(fwd_addr), vec![]);
}

/// A send to an address that names no actor is refused and changes nothing.
#[test]
fn send_to_unknown_address_is_refused() {
    let mut device = MyDevice::new(Gpiote::new());
    let act_addr = device.mount_activator(LedActivator::new(), 2);
    assert!(!device.send(Address(5), Event::Bind(Address(0))));
    assert_eq!(device.queued(Address(5)), vec![]);
    assert_eq!(device.queued(act_addr), vec![]);
    assert_eq!(device.actor_count(), 1);
}

/// A bind message is an addressed send, never a broadcast: publishing one
/// delivers to nobody.
#[test]
fn published_bind_reaches_no_mailbox() {
    let gpiote = Gpiote::new();
    let fwd = gpiote.configure_channel(Channel::Channel0, Edge::Falling);
    let mut device = MyDevice::new(gpiote);
    let fwd_addr = device.mount_button(fwd, 4);
    let act_addr = device.mount_activator(LedActivator::new(), 4);
    device.publish(Event::Bind(Address(3)));
    assert_eq!(device.queued(fwd_addr), vec![]);
    assert_eq!(device.queued(act_addr), vec![]);
}

/// With no pending flag, an interrupt entry publishes nothing.
#[test]
fn interrupt_without_pending_flags_is_silent() {
    let gpiote = Gpiote::new();
    let fwd = gpiote.configure_channel(Channel::Channel0, Edge::Falling);
    let mut device = MyDevice::new(gpiote);
    let fwd_addr = device.mount_button(fwd, 4);
    device.on_interrupt();
    assert_eq!(device.queued(fwd_addr), vec![]);
}

/// A raised flag survives until the next interrupt entry, and only the raised
/// channel is reported.
#[test]
fn only_raised_channel_is_reported() {
    let gpiote = Gpiote::new();
    let b1 = gpiote.configure_channel(Channel::Channel1, Edge::Falling);
    let mut device = MyDevice::new(gpiote);
    let addr = device.mount_button(b1, 4);
    device.raise_pending(Channel::Channel1);
    device.on_interrupt();
    assert_eq!(device.queued(addr), vec![Event::Trigger(GpioteEvent(Channel::Channel1))]);
}

/// Channel positions and their channels line up both ways, and a read fault
/// stands for the inactive High level.
#[test]
fn channel_order_and_effective_level() {
    assert_eq!(channel_at(0), Channel::Channel0);
    assert_eq!(channel_at(1), Channel::Channel1);
    assert_eq!(channel_at(2), Channel::Channel2);
    assert_eq!(channel_at(3), Channel::Channel3);
    assert_eq!(Channel::Channel2.index(), 2);
    assert_eq!(Channel::Channel3.index(), 3);
    assert_eq!(effective_level(PinRead::Fault), PinState::High);
    assert_eq!(effective_level(PinRead::Level(PinState::Low)), PinState::Low);
    assert_eq!(effective_level(PinRead::Level(PinState::High)), PinState::High);
}
