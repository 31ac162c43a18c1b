//! End-to-end scenarios through the dispatch core: interrupt entry, broker
//! delivery, scheduler passes, and the activator's command protocol.

use gpiote_actors::activator::{ActivatorState, LedActivator};
use gpiote_actors::channel::GpioteChannel;
use gpiote_actors::device::{ActorLogic, MyDevice};
use gpiote_actors::events::{
    Address, Channel, Edge, Event, GpioteEvent, MatrixCommand, MatrixRequest, PinEvent, PinRead,
    PinState, NUM_CHANNELS,
};
use gpiote_actors::gpiote::Gpiote;

const ALL_HIGH: [PinRead; NUM_CHANNELS] = [
    PinRead::Level(PinState::High),
    PinRead::Level(PinState::High),
    PinRead::Level(PinState::High),
    PinRead::Level(PinState::High),
];

/// Channel0 actor whose pin reads Low, activator bound to a matrix address:
/// publishing a Channel0 trigger makes the channel actor emit PinEvent(Low),
/// the activator emit [Activate(0,0), Render] to the matrix address, and no
/// other actor receives anything.
#[test]
fn button_low_drives_activate_render() {
    let gpiote = Gpiote::new();
    let fwd = gpiote.configure_channel(Channel::Channel0, Edge::Falling);
    let back = gpiote.configure_channel(Channel::Channel1, Edge::Falling);
    let mut device = MyDevice::new(gpiote);
    let fwd_addr = device.mount_button(fwd, 4);
    let back_addr = device.mount_button(back, 4);
    let act_addr = device.mount_activator(LedActivator::new(), 4);
    let matrix = Address(42);

    assert!(device.send(act_addr, Event::Bind(matrix)));
    let bind_pass = device.step(&ALL_HIGH);
    assert_eq!(bind_pass, vec![]);
    assert_eq!(
        device.actor_logic(act_addr),
        Some(ActorLogic::Activator(LedActivator { state: ActivatorState::Bound(matrix) }))
    );

    device.publish(Event::Trigger(GpioteEvent(Channel::Channel0)));
    // Both channel actors are registered for triggers; each gets its copy.
    assert_eq!(device.queued(fwd_addr), vec![Event::Trigger(GpioteEvent(Channel::Channel0))]);
    assert_eq!(device.queued(back_addr), vec![Event::Trigger(GpioteEvent(Channel::Channel0))]);

    let mut reads = ALL_HIGH;
    reads[0] = PinRead::Level(PinState::Low);
    // One pass: the channel actor runs first (mount order), publishes the pin
    // event, and the activator — visited later in the same pass — turns it
    // into the command pair.
    let out = device.step(&reads);
    assert_eq!(
        out,
        vec![
            MatrixRequest { to: matrix, command: MatrixCommand::Activate(0, 0) },
            MatrixRequest { to: matrix, command: MatrixCommand::Render },
        ]
    );

    // The Channel1 actor dropped its copy silently: nothing is left anywhere.
    assert_eq!(device.queued(fwd_addr), vec![]);
    assert_eq!(device.queued(back_addr), vec![]);
    assert_eq!(device.queued(act_addr), vec![]);
    assert_eq!(device.step(&reads), vec![]);
}

/// Only a Channel0 actor is registered; a Channel1 trigger results in zero
/// effective deliveries: the non-matching actor drops it as a defined no-op,
/// no pin event appears, no command is emitted.
#[test]
fn unmatched_channel_event_is_dropped() {
    let gpiote = Gpiote::new();
    let fwd = gpiote.configure_channel(Channel::Channel0, Edge::Falling);
    let mut device = MyDevice::new(gpiote);
    let fwd_addr = device.mount_button(fwd, 4);

    device.publish(Event::Trigger(GpioteEvent(Channel::Channel1)));
    let out = device.step(&ALL_HIGH);
    assert_eq!(out, vec![]);
    assert_eq!(device.queued(fwd_addr), vec![]);
    assert_eq!(
        device.actor_logic(fwd_addr),
        Some(ActorLogic::Button(GpioteChannel::new(Channel::Channel0, Edge::Falling)))
    );
    // Nothing queued anywhere: a later pass does nothing either.
    assert_eq!(device.step(&ALL_HIGH), vec![]);
}

/// All four flags set in one interrupt entry: exactly four distinct events,
/// one per channel, in channel-index order, and every pending flag cleared
/// afterwards.
#[test]
fn all_channels_fire_in_order() {
    let gpiote = Gpiote::new();
    let b0 = gpiote.configure_channel(Channel::Channel0, Edge::Falling);
    let b1 = gpiote.configure_channel(Channel::Channel1, Edge::Falling);
    let b2 = gpiote.configure_channel(Channel::Channel2, Edge::Both);
    let b3 = gpiote.configure_channel(Channel::Channel3, Edge::Rising);
    let mut device = MyDevice::new(gpiote);
    let a0 = device.mount_button(b0, 8);
    let a1 = device.mount_button(b1, 8);
    let a2 = device.mount_button(b2, 8);
    let a3 = device.mount_button(b3, 8);

    // The hardware raises the flags in arbitrary order before the handler.
    device.raise_pending(Channel::Channel2);
    device.raise_pending(Channel::Channel0);
    device.raise_pending(Channel::Channel3);
    device.raise_pending(Channel::Channel1);
    device.on_interrupt();

    let expected = vec![
        Event::Trigger(GpioteEvent(Channel::Channel0)),
        Event::Trigger(GpioteEvent(Channel::Channel1)),
        Event::Trigger(GpioteEvent(Channel::Channel2)),
        Event::Trigger(GpioteEvent(Channel::Channel3)),
    ];
    // Every trigger subscriber got all four, in channel-index order.
    assert_eq!(device.queued(a0), expected);
    assert_eq!(device.queued(a1), expected);
    assert_eq!(device.queued(a2), expected);
    assert_eq!(device.queued(a3), expected);

    // All pending flags were cleared: a second interrupt entry finds nothing.
    device.on_interrupt();
    assert_eq!(device.queued(a0), expected);
    assert_eq!(device.queued(a1), expected);
}

/// Each matching trigger yields exactly one pin-state event: one-to-one, none
/// dropped, none duplicated. The activator is mounted first so its mailbox
/// can be inspected before it processes anything.
#[test]
fn matching_trigger_yields_exactly_one_pin_event() {
    let gpiote = Gpiote::new();
    let fwd = gpiote.configure_channel(Channel::Channel0, Edge::Falling);
    let mut device = MyDevice::new(gpiote);
    let act_addr = device.mount_activator(LedActivator::new(), 8);
    let fwd_addr = device.mount_button(fwd, 8);

    device.publish(Event::Trigger(GpioteEvent(Channel::Channel0)));
    device.publish(Event::Trigger(GpioteEvent(Channel::Channel0)));
    assert_eq!(device.queued(fwd_addr).len(), 2);

    let mut reads = ALL_HIGH;
    reads[0] = PinRead::Level(PinState::Low);
    // One pass processes one message per actor: one trigger, one pin event.
    device.step(&reads);
    assert_eq!(device.queued(act_addr), vec![Event::Pin(PinEvent(PinState::Low))]);
    assert_eq!(device.queued(fwd_addr).len(), 1);
}

/// A pin-read fault degrades softly: the level reported is High, so a bound
/// activator deactivates rather than the system halting.
#[test]
fn pin_fault_reads_as_inactive_high() {
    let gpiote = Gpiote::new();
    let fwd = gpiote.configure_channel(Channel::Channel0, Edge::Falling);
    let mut device = MyDevice::new(gpiote);
    let fwd_addr = device.mount_button(fwd, 4);
    let act_addr = device.mount_activator(LedActivator::new(), 4);
    let matrix = Address(7);
    assert!(device.send(act_addr, Event::Bind(matrix)));
    device.step(&ALL_HIGH);

    device.publish(Event::Trigger(GpioteEvent(Channel::Channel0)));
    let mut reads = ALL_HIGH;
    reads[0] = PinRead::Fault;
    let out = device.step(&reads);
    assert_eq!(
        out,
        vec![
            MatrixRequest { to: matrix, command: MatrixCommand::Deactivate(0, 0) },
            MatrixRequest { to: matrix, command: MatrixCommand::Render },
        ]
    );
    assert_eq!(device.queued(fwd_addr), vec![]);
}
