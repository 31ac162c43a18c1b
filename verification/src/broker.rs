//! The event broker's wiring table: per event kind, the fixed, ordered list
//! of subscriber addresses, populated exactly once during the startup mount
//! phase and immutable afterwards. The broker holds only addresses, never the
//! actors themselves.

use vstd::prelude::*;

use crate::events::{Address, Event};

verus! {

/// The broker's subscriber lists as plain sequences, in registration order.
#[verifier::ext_equal]
pub ghost struct BrokerModel {
    /// Subscribers to channel-trigger events.
    pub trigger_subs: Seq<Address>,
    /// Subscribers to pin-state events.
    pub pin_subs: Seq<Address>,
}

/// The addresses a published event is delivered to, in registration order.
/// Bind messages are addressed sends, never broadcast, so they have no
/// subscriber list.
pub open spec fn subs_for(broker: BrokerModel, event: Event) -> Seq<Address> {
    match event {
        Event::Trigger(_) => broker.trigger_subs,
        Event::Pin(_) => broker.pin_subs,
        Event::Bind(_) => Seq::empty(),
    }
}

/// The publish/subscribe hub's registration table.
pub struct Broker {
    trigger_subs: Vec<Address>,
    pin_subs: Vec<Address>,
}

impl View for Broker {
    type V = BrokerModel;

    closed spec fn view(&self) -> BrokerModel {
        BrokerModel { trigger_subs: self.trigger_subs@, pin_subs: self.pin_subs@ }
    }
}

impl Broker {
    /// Constructs the broker with no subscriber registered yet.
    pub fn new() -> (b: Broker)
        ensures
            b@.trigger_subs == Seq::<Address>::empty(),
            b@.pin_subs == Seq::<Address>::empty(),
    {
        Broker { trigger_subs: Vec::new(), pin_subs: Vec::new() }
    }

    /// Registers one more subscriber for channel-trigger events, after every
    /// earlier one. Part of the startup mount phase only.
    pub fn subscribe_trigger(&mut self, addr: Address)
        ensures
            final(self)@.trigger_subs == old(self)@.trigger_subs.push(addr),
            final(self)@.pin_subs == old(self)@.pin_subs,
    {
        self.trigger_subs.push(addr);
    }

    /// Registers one more subscriber for pin-state events, after every
    /// earlier one. Part of the startup mount phase only.
    pub fn subscribe_pin(&mut self, addr: Address)
        ensures
            final(self)@.pin_subs == old(self)@.pin_subs.push(addr),
            final(self)@.trigger_subs == old(self)@.trigger_subs,
    {
        self.pin_subs.push(addr);
    }

    /// The registered channel-trigger subscribers, in registration order.
    pub fn trigger_subscribers(&self) -> (subs: &Vec<Address>)
        ensures
            subs@ == self@.trigger_subs,
    {
        &self.trigger_subs
    }

    /// The registered pin-state subscribers, in registration order.
    pub fn pin_subscribers(&self) -> (subs: &Vec<Address>)
        ensures
            subs@ == self@.pin_subs,
    {
        &self.pin_subs
    }
}

} // verus!
