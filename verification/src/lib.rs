//! An interrupt-driven input-to-actuator dispatch core.
//!
//! A hardware pin-change interrupt is translated into typed channel-trigger
//! events, routed through a publish/subscribe broker to actor mailboxes, and
//! processed run-to-completion by a cooperative scheduler outside interrupt
//! context. Channel actors turn matching triggers into pin-state events; an
//! activator state machine turns pin-state events into LED-matrix commands.
//!
//! The hardware itself (pins, the interrupt peripheral, the matrix driver) is
//! an external collaborator: callers hand in pin readings and raise pending
//! flags as plain values, and carry the emitted matrix commands out.

pub mod activator;
pub mod broker;
pub mod channel;
pub mod device;
pub mod events;
pub mod gpiote;
pub mod mailbox;
