//! The device: the scheduler that owns every actor and its bounded mailbox,
//! the broker wiring, and the interrupt controller. Interrupt context may
//! only enqueue events here; actor handlers run to completion, one message at
//! a time, in the cooperative scheduling pass outside interrupt context.

use vstd::prelude::*;

use crate::activator::LedActivator;
use crate::broker::{Broker, BrokerModel, subs_for};
use crate::channel::GpioteChannel;
use crate::events::{
    Address, Channel, Event, GpioteEvent, MatrixRequest, PinEvent, PinRead, NUM_CHANNELS,
    channel_index, effective_level_spec,
};
use crate::gpiote::{Gpiote, fired_from};
use crate::mailbox::Mailbox;

verus! {

/// What an actor is: either a channel actor owning one capture slot, or the
/// activator driving the matrix.
#[derive(Clone, Copy, PartialEq, Eq, Structural, Debug)]
pub enum ActorLogic {
    Button(GpioteChannel),
    Activator(LedActivator),
}

/// The channel a channel actor owns, if the actor is one.
pub open spec fn button_channel(logic: ActorLogic) -> Option<Channel> {
    match logic {
        ActorLogic::Button(gc) => Some(gc.channel),
        ActorLogic::Activator(_) => None,
    }
}

/// One mounted actor as the model sees it: its queued messages, its fixed
/// mailbox capacity, and its state.
#[verifier::ext_equal]
pub ghost struct ActorModel {
    pub inbox: Seq<Event>,
    pub capacity: nat,
    pub logic: ActorLogic,
}

/// One mounted actor: its bounded mailbox and its state, both owned by the
/// scheduler.
pub struct ActorSlot {
    mailbox: Mailbox,
    logic: ActorLogic,
}

impl View for ActorSlot {
    type V = ActorModel;

    closed spec fn view(&self) -> ActorModel {
        ActorModel {
            inbox: self.mailbox@,
            capacity: self.mailbox.capacity_spec(),
            logic: self.logic,
        }
    }
}

/// The models of a sequence of actor slots, in mount order.
pub open spec fn slots_view(slots: Seq<ActorSlot>) -> Seq<ActorModel> {
    slots.map_values(|slot: ActorSlot| slot@)
}

/// The whole device as the contracts see it: the peripheral's pending flags,
/// the broker's wiring table, and every actor with its mailbox.
#[verifier::ext_equal]
pub ghost struct DeviceModel {
    pub pending: Seq<bool>,
    pub broker: BrokerModel,
    pub actors: Seq<ActorModel>,
}

/// Whether an address can take one more message: it names a mounted actor
/// whose mailbox is not full.
pub open spec fn can_accept(actors: Seq<ActorModel>, to: Address) -> bool {
    to.0 < actors.len() && actors[to.0 as int].inbox.len() < actors[to.0 as int].capacity
}

/// Delivery of one event to one address: the event is appended to that
/// mailbox, unless the mailbox is full or the address names no actor, in
/// which case the message is dropped (drop-newest) and nothing changes.
pub open spec fn deliver_one(actors: Seq<ActorModel>, to: Address, event: Event) -> Seq<
    ActorModel,
> {
    if can_accept(actors, to) {
        actors.update(
            to.0 as int,
            ActorModel { inbox: actors[to.0 as int].inbox.push(event), ..actors[to.0 as int] },
        )
    } else {
        actors
    }
}

/// Delivery of one event to a list of addresses, first to last.
pub open spec fn deliver_list(
    actors: Seq<ActorModel>,
    subs: Seq<Address>,
    event: Event,
) -> Seq<ActorModel>
    decreases subs.len(),
{
    if subs.len() == 0 {
        actors
    } else {
        deliver_list(deliver_one(actors, subs[0], event), subs.skip(1), event)
    }
}

/// Publication of a sequence of events in order: each is delivered to the
/// subscribers registered for its kind, in registration order.
pub open spec fn deliver_events(
    actors: Seq<ActorModel>,
    broker: BrokerModel,
    events: Seq<Event>,
) -> Seq<ActorModel>
    decreases events.len(),
{
    if events.len() == 0 {
        actors
    } else {
        deliver_events(
            deliver_list(actors, subs_for(broker, events[0]), events[0]),
            broker,
            events.skip(1),
        )
    }
}

/// Whether some channel actor for this channel is mounted.
pub open spec fn has_button(actors: Seq<ActorModel>, channel: Channel) -> bool {
    exists|i: int|
        0 <= i < actors.len() && button_channel(#[trigger] actors[i].logic) == Some(channel)
}

/// Whether an address list names an actor index.
pub open spec fn subs_mention(subs: Seq<Address>, i: int) -> bool {
    exists|k: int| 0 <= k < subs.len() && (#[trigger] subs[k]).0 == i
}

impl DeviceModel {
    /// A subscriber list of the startup wiring: every address names a mounted
    /// actor, and no address is registered twice.
    pub open spec fn valid_subs(self, subs: Seq<Address>) -> bool {
        &&& forall|k: int| 0 <= k < subs.len() ==> (#[trigger] subs[k]).0 < self.actors.len()
        &&& forall|k: int, l: int| 0 <= k < l < subs.len() ==> subs[k] != subs[l]
    }

    /// The device invariants, established by the startup mount phase and
    /// preserved by every operation: no mailbox exceeds its capacity, both
    /// subscriber lists are valid, and each channel maps to at most one
    /// channel actor.
    pub open spec fn wf(self) -> bool {
        &&& forall|i: int|
            0 <= i < self.actors.len() ==> (#[trigger] self.actors[i]).inbox.len()
                <= self.actors[i].capacity
        &&& self.valid_subs(self.broker.trigger_subs)
        &&& self.valid_subs(self.broker.pin_subs)
        &&& forall|i: int, j: int|
            0 <= i < self.actors.len() && 0 <= j < self.actors.len() && button_channel(
                #[trigger] self.actors[i].logic,
            ) is Some && button_channel(self.actors[i].logic) == button_channel(
                #[trigger] self.actors[j].logic,
            ) ==> i == j
    }
}

/// Delivering to a list of addresses keeps the number of actors, every
/// capacity, every actor's state, and the mailbox bound; and a mailbox whose
/// index the list never names is untouched.
pub proof fn lemma_deliver_list_frame(actors: Seq<ActorModel>, subs: Seq<Address>, event: Event)
    ensures
        deliver_list(actors, subs, event).len() == actors.len(),
        forall|i: int|
            0 <= i < actors.len() ==> {
                let after = #[trigger] deliver_list(actors, subs, event)[i];
                &&& after.capacity == actors[i].capacity
                &&& after.logic == actors[i].logic
                &&& (actors[i].inbox.len() <= actors[i].capacity ==> after.inbox.len()
                    <= after.capacity)
                &&& (!subs_mention(subs, i) ==> after == actors[i])
            },
    decreases subs.len(),
{
    if subs.len() == 0 {
    } else {
        let first = deliver_one(actors, subs[0], event);
        lemma_deliver_list_frame(first, subs.skip(1), event);
        assert forall|i: int| 0 <= i < actors.len() && !subs_mention(subs, i) implies !subs_mention(
            subs.skip(1),
            i,
        ) && first[i] == actors[i] by {
            assert(forall|k: int|
                0 <= k < subs.skip(1).len() ==> subs.skip(1)[k] == subs[k + 1]);
            assert(subs[0].0 != i);
        }
    }
}

/// Publishing a sequence of events keeps the number of actors, every
/// capacity, every actor's state, and the mailbox bound.
pub proof fn lemma_deliver_events_frame(
    actors: Seq<ActorModel>,
    broker: BrokerModel,
    events: Seq<Event>,
)
    ensures
        deliver_events(actors, broker, events).len() == actors.len(),
        forall|i: int|
            0 <= i < actors.len() ==> {
                let after = #[trigger] deliver_events(actors, broker, events)[i];
                &&& after.capacity == actors[i].capacity
                &&& after.logic == actors[i].logic
                &&& (actors[i].inbox.len() <= actors[i].capacity ==> after.inbox.len()
                    <= after.capacity)
            },
    decreases events.len(),
{
    if events.len() == 0 {
    } else {
        lemma_deliver_list_frame(actors, subs_for(broker, events[0]), events[0]);
        lemma_deliver_events_frame(
            deliver_list(actors, subs_for(broker, events[0]), events[0]),
            broker,
            events.skip(1),
        );
    }
}

/// A published event reaches the mailbox of every registered subscriber with
/// room, appended after what was queued; a full mailbox drops it. This is the
/// delivery half of the routing law: together with
/// `lemma_deliver_list_frame`, a published event goes to every registered
/// subscriber, in registration order, and to no one else.
pub proof fn lemma_deliver_list_received(
    actors: Seq<ActorModel>,
    subs: Seq<Address>,
    event: Event,
    k: int,
)
    requires
        0 <= k < subs.len(),
        forall|k1: int, k2: int| 0 <= k1 < k2 < subs.len() ==> subs[k1] != subs[k2],
        subs[k].0 < actors.len(),
    ensures
        actors[subs[k].0 as int].inbox.len() < actors[subs[k].0 as int].capacity
            ==> deliver_list(actors, subs, event)[subs[k].0 as int].inbox == actors[subs[k].0 as int].inbox.push(event),
        actors[subs[k].0 as int].inbox.len() >= actors[subs[k].0 as int].capacity
            ==> deliver_list(actors, subs, event)[subs[k].0 as int].inbox == actors[subs[k].0 as int].inbox,
    decreases subs.len(),
{
    let i = subs[k].0 as int;
    let first = deliver_one(actors, subs[0], event);
    if k == 0 {
        assert forall|k2: int| 0 <= k2 < subs.skip(1).len() implies (#[trigger] subs.skip(1)[k2]).0
            != i by {
            assert(subs.skip(1)[k2] == subs[k2 + 1]);
        }
        assert(!subs_mention(subs.skip(1), i));
        lemma_deliver_list_frame(first, subs.skip(1), event);
    } else {
        assert(subs[0] != subs[k]);
        assert(first[i] == actors[i]);
        assert(forall|k1: int, k2: int|
            0 <= k1 < k2 < subs.skip(1).len() ==> subs.skip(1)[k1] != subs.skip(1)[k2]);
        assert(subs.skip(1)[k - 1] == subs[k]);
        lemma_deliver_list_received(first, subs.skip(1), event, k - 1);
    }
}

/// Publication delivers to no one but the registered subscribers: the mailbox
/// of an actor whose address is not on the published event's subscriber list
/// is exactly what it was. With `lemma_deliver_list_received` (every
/// registered subscriber with room gets the event, in registration order)
/// this pins the broker's routing down on both sides.
pub proof fn lemma_publish_only_subscribers(m: DeviceModel, event: Event, i: int)
    requires
        0 <= i < m.actors.len(),
        !subs_mention(subs_for(m.broker, event), i),
    ensures
        deliver_list(m.actors, subs_for(m.broker, event), event)[i] == m.actors[i],
{
    lemma_deliver_list_frame(m.actors, subs_for(m.broker, event), event);
}

/// A channel-trigger event is handled only by the channel actor for the
/// channel it names: a channel actor mounted for any other channel neither
/// changes state nor publishes nor emits anything on it. Together with
/// `lemma_deliver_list_frame` (an unregistered mailbox is untouched) this is
/// the routing law: a trigger for channel `c` has an effect only at the
/// channel actor registered for `c`.
pub proof fn lemma_trigger_filtered(gc: GpioteChannel, event: GpioteEvent, reads: Seq<PinRead>)
    requires
        gc.channel != event.0,
    ensures
        handle_event(ActorLogic::Button(gc), Event::Trigger(event), reads) == (HandlerEffect {
            logic: ActorLogic::Button(gc),
            published: Seq::<Event>::empty(),
            requests: Seq::<MatrixRequest>::empty(),
        }),
{
}

/// A channel actor handles each trigger naming its own channel by publishing
/// exactly one pin-state event — never none, never two — carrying the level
/// its pin read at processing time, a read fault standing for the inactive
/// High level; and it emits no matrix request and keeps its state.
pub proof fn lemma_trigger_one_to_one(gc: GpioteChannel, event: GpioteEvent, reads: Seq<PinRead>)
    requires
        gc.channel == event.0,
    ensures
        handle_event(ActorLogic::Button(gc), Event::Trigger(event), reads).published == seq![
            Event::Pin(PinEvent(effective_level_spec(reads[channel_index(gc.channel)]))),
        ],
        handle_event(ActorLogic::Button(gc), Event::Trigger(event), reads).published.len() == 1,
        handle_event(ActorLogic::Button(gc), Event::Trigger(event), reads).requests
            == Seq::<MatrixRequest>::empty(),
        handle_event(ActorLogic::Button(gc), Event::Trigger(event), reads).logic
            == ActorLogic::Button(gc),
{
}

/// Delivers one event to one address: appends it to that actor's mailbox, or
/// drops it when the mailbox is full or the address names no actor.
fn deliver_to(actors: &mut Vec<ActorSlot>, to: Address, event: Event) -> (accepted: bool)
    ensures
        slots_view(final(actors)@) == deliver_one(slots_view(old(actors)@), to, event),
        accepted == can_accept(slots_view(old(actors)@), to),
{
    let ghost m0 = slots_view(actors@);
    if to.0 < actors.len() {
        let slot = &mut actors[to.0];
        let accepted = slot.mailbox.enqueue(event);
        proof {
            assert(slots_view(actors@) =~= deliver_one(m0, to, event));
        }
        accepted
    } else {
        proof {
            assert(slots_view(actors@) =~= deliver_one(m0, to, event));
        }
        false
    }
}

/// Delivers one event to every address of a subscriber list, first to last.
fn deliver_to_all(actors: &mut Vec<ActorSlot>, subs: &Vec<Address>, event: Event)
    ensures
        slots_view(final(actors)@) == deliver_list(slots_view(old(actors)@), subs@, event),
{
    let ghost m0 = slots_view(actors@);
    proof {
        assert(subs@.skip(0) =~= subs@);
    }
    let mut j: usize = 0;
    while j < subs.len()
        invariant
            j <= subs.len(),
            deliver_list(m0, subs@, event) == deliver_list(
                slots_view(actors@),
                subs@.skip(j as int),
                event,
            ),
        decreases subs.len() - j,
    {
        proof {
            assert(subs@.skip(j as int)[0] == subs@[j as int]);
            assert(subs@.skip(j as int).skip(1) =~= subs@.skip(j as int + 1));
        }
        deliver_to(actors, subs[j], event);
        j = j + 1;
    }
    proof {
        assert(subs@.skip(subs@.len() as int).len() == 0);
    }
}

/// The channel-trigger events for a list of fired channels, in the same order.
pub open spec fn trigger_events(channels: Seq<Channel>) -> Seq<Event> {
    channels.map_values(|c: Channel| Event::Trigger(GpioteEvent(c)))
}

/// What one actor does with one message: its successor state, the events it
/// publishes, and the matrix requests it emits, in order.
#[verifier::ext_equal]
pub ghost struct HandlerEffect {
    pub logic: ActorLogic,
    pub published: Seq<Event>,
    pub requests: Seq<MatrixRequest>,
}

/// The run-to-completion handling of one message. A channel actor publishes
/// exactly one pin-state event per trigger naming its own channel — sampled
/// from `reads` at its channel's index — and nothing otherwise; the activator
/// follows its state machine. `reads` is the outcome a pin sample would have
/// at processing time, one per channel.
pub open spec fn handle_event(logic: ActorLogic, event: Event, reads: Seq<PinRead>) -> HandlerEffect {
    match logic {
        ActorLogic::Button(gc) => match event {
            Event::Trigger(ge) => match gc.notify_spec(ge, reads[channel_index(gc.channel)]) {
                Some(pe) => HandlerEffect {
                    logic,
                    published: seq![Event::Pin(pe)],
                    requests: Seq::empty(),
                },
                None => HandlerEffect { logic, published: Seq::empty(), requests: Seq::empty() },
            },
            _ => HandlerEffect { logic, published: Seq::empty(), requests: Seq::empty() },
        },
        ActorLogic::Activator(act) => {
            let (next, requests) = act.on_event_spec(event);
            HandlerEffect {
                logic: ActorLogic::Activator(next),
                published: Seq::empty(),
                requests,
            }
        },
    }
}

/// One scheduling visit to the actor at index `i`: if its mailbox holds a
/// message, exactly one is dequeued and its handler runs to completion — the
/// actor's state is updated, everything it publishes is delivered, and its
/// matrix requests are the visit's output. An empty mailbox is skipped.
pub open spec fn step_actor(m: DeviceModel, i: int, reads: Seq<PinRead>) -> (
    DeviceModel,
    Seq<MatrixRequest>,
) {
    if 0 <= i < m.actors.len() && m.actors[i].inbox.len() > 0 {
        let event = m.actors[i].inbox[0];
        let effect = handle_event(m.actors[i].logic, event, reads);
        let handled = m.actors.update(
            i,
            ActorModel {
                inbox: m.actors[i].inbox.remove(0),
                capacity: m.actors[i].capacity,
                logic: effect.logic,
            },
        );
        (
            DeviceModel { actors: deliver_events(handled, m.broker, effect.published), ..m },
            effect.requests,
        )
    } else {
        (m, Seq::empty())
    }
}

/// One scheduling pass over the actors from index `i` up to `n`, in mount
/// order: at most one message is processed per actor, each to completion
/// before the next actor is considered.
pub open spec fn run_from(m: DeviceModel, i: int, n: int, reads: Seq<PinRead>) -> (
    DeviceModel,
    Seq<MatrixRequest>,
)
    decreases n - i,
{
    if i < 0 || i >= n {
        (m, Seq::empty())
    } else {
        let (m1, out1) = step_actor(m, i, reads);
        let (m2, out2) = run_from(m1, i + 1, n, reads);
        (m2, out1 + out2)
    }
}

/// A scheduler visit at which a channel actor faces a trigger for another
/// channel consumes that message and does nothing else: no pin-state event is
/// published, no request is emitted, no mailbox but its own changes, and its
/// state is kept.
pub proof fn lemma_mismatched_visit_only_dequeues(
    m: DeviceModel,
    i: int,
    gc: GpioteChannel,
    ge: GpioteEvent,
    reads: Seq<PinRead>,
)
    requires
        0 <= i < m.actors.len(),
        m.actors[i].logic == ActorLogic::Button(gc),
        m.actors[i].inbox.len() > 0,
        m.actors[i].inbox[0] == Event::Trigger(ge),
        gc.channel != ge.0,
    ensures
        step_actor(m, i, reads).0.actors == m.actors.update(
            i,
            ActorModel {
                inbox: m.actors[i].inbox.remove(0),
                capacity: m.actors[i].capacity,
                logic: m.actors[i].logic,
            },
        ),
        step_actor(m, i, reads).0.broker == m.broker,
        step_actor(m, i, reads).0.pending == m.pending,
        step_actor(m, i, reads).1 == Seq::<MatrixRequest>::empty(),
{
    lemma_trigger_filtered(gc, ge, reads);
}

/// One scheduling visit preserves the device invariants, the wiring table,
/// the pending flags, and the number of actors.
pub proof fn lemma_step_actor_frame(m: DeviceModel, i: int, reads: Seq<PinRead>)
    requires
        m.wf(),
    ensures
        step_actor(m, i, reads).0.wf(),
        step_actor(m, i, reads).0.broker == m.broker,
        step_actor(m, i, reads).0.pending == m.pending,
        step_actor(m, i, reads).0.actors.len() == m.actors.len(),
{
    if 0 <= i < m.actors.len() && m.actors[i].inbox.len() > 0 {
        let event = m.actors[i].inbox[0];
        let effect = handle_event(m.actors[i].logic, event, reads);
        assert(button_channel(effect.logic) == button_channel(m.actors[i].logic));
        let handled = m.actors.update(
            i,
            ActorModel {
                inbox: m.actors[i].inbox.remove(0),
                capacity: m.actors[i].capacity,
                logic: effect.logic,
            },
        );
        assert(m.actors[i].inbox.remove(0).len() <= m.actors[i].capacity);
        lemma_deliver_events_frame(handled, m.broker, effect.published);
    }
}

/// A whole scheduling pass preserves the device invariants, the wiring
/// table, the pending flags, and the number of actors.
pub proof fn lemma_run_from_frame(m: DeviceModel, i: int, n: int, reads: Seq<PinRead>)
    requires
        m.wf(),
    ensures
        run_from(m, i, n, reads).0.wf(),
        run_from(m, i, n, reads).0.broker == m.broker,
        run_from(m, i, n, reads).0.pending == m.pending,
        run_from(m, i, n, reads).0.actors.len() == m.actors.len(),
    decreases n - i,
{
    if i < 0 || i >= n {
    } else {
        lemma_step_actor_frame(m, i, reads);
        lemma_run_from_frame(step_actor(m, i, reads).0, i + 1, n, reads);
    }
}

/// The device: the interrupt controller, the broker's wiring table, and every
/// mounted actor with its mailbox, owned by the scheduler.
pub struct MyDevice {
    gpiote: Gpiote,
    broker: Broker,
    actors: Vec<ActorSlot>,
}

impl View for MyDevice {
    type V = DeviceModel;

    closed spec fn view(&self) -> DeviceModel {
        DeviceModel {
            pending: self.gpiote.pending_spec(),
            broker: self.broker@,
            actors: slots_view(self.actors@),
        }
    }
}

impl MyDevice {
    /// Constructs the device around its interrupt controller, with no actor
    /// mounted and no subscriber registered yet.
    pub fn new(gpiote: Gpiote) -> (d: MyDevice)
        ensures
            d@.pending == gpiote.pending_spec(),
            d@.actors == Seq::<ActorModel>::empty(),
            d@.broker.trigger_subs == Seq::<Address>::empty(),
            d@.broker.pin_subs == Seq::<Address>::empty(),
            d@.wf(),
    {
        let d = MyDevice { gpiote, broker: Broker::new(), actors: Vec::new() };
        proof {
            assert(d@.actors =~= Seq::<ActorModel>::empty());
        }
        d
    }

    /// Mounts a channel actor with a fresh mailbox of the given capacity and
    /// registers its address for channel-trigger events, after every earlier
    /// subscriber. Part of the startup mount phase; each channel may carry at
    /// most one channel actor.
    pub fn mount_button(&mut self, actor: GpioteChannel, capacity: usize) -> (addr: Address)
        requires
            !has_button(old(self)@.actors, actor.channel),
        ensures
            addr.0 == old(self)@.actors.len(),
            final(self)@.actors == old(self)@.actors.push(
                ActorModel {
                    inbox: Seq::empty(),
                    capacity: capacity as nat,
                    logic: ActorLogic::Button(actor),
                },
            ),
            final(self)@.broker.trigger_subs == old(self)@.broker.trigger_subs.push(addr),
            final(self)@.broker.pin_subs == old(self)@.broker.pin_subs,
            final(self)@.pending == old(self)@.pending,
            old(self)@.wf() ==> final(self)@.wf(),
    {
        let addr = Address(self.actors.len());
        self.actors.push(ActorSlot { mailbox: Mailbox::new(capacity), logic: ActorLogic::Button(actor) });
        self.broker.subscribe_trigger(addr);
        proof {
            assert(self@.actors =~= old(self)@.actors.push(
                ActorModel {
                    inbox: Seq::empty(),
                    capacity: capacity as nat,
                    logic: ActorLogic::Button(actor),
                },
            ));
        }
        addr
    }

    /// Mounts the activator, unbound, with a fresh mailbox of the given
    /// capacity, and registers its address for pin-state events, after every
    /// earlier subscriber. Part of the startup mount phase.
    pub fn mount_activator(&mut self, actor: LedActivator, capacity: usize) -> (addr: Address)
        ensures
            addr.0 == old(self)@.actors.len(),
            final(self)@.actors == old(self)@.actors.push(
                ActorModel {
                    inbox: Seq::empty(),
                    capacity: capacity as nat,
                    logic: ActorLogic::Activator(actor),
                },
            ),
            final(self)@.broker.pin_subs == old(self)@.broker.pin_subs.push(addr),
            final(self)@.broker.trigger_subs == old(self)@.broker.trigger_subs,
            final(self)@.pending == old(self)@.pending,
            old(self)@.wf() ==> final(self)@.wf(),
    {
        let addr = Address(self.actors.len());
        self.actors.push(ActorSlot {
            mailbox: Mailbox::new(capacity),
            logic: ActorLogic::Activator(actor),
        });
        self.broker.subscribe_pin(addr);
        proof {
            assert(self@.actors =~= old(self)@.actors.push(
                ActorModel {
                    inbox: Seq::empty(),
                    capacity: capacity as nat,
                    logic: ActorLogic::Activator(actor),
                },
            ));
        }
        addr
    }

    /// Sends one message straight to one mailbox, bypassing the subscriber
    /// lists: the startup handshake path, used to hand the activator its
    /// matrix address. Returns whether the mailbox took it.
    pub fn send(&mut self, to: Address, event: Event) -> (accepted: bool)
        ensures
            final(self)@.actors == deliver_one(old(self)@.actors, to, event),
            accepted == can_accept(old(self)@.actors, to),
            final(self)@.broker == old(self)@.broker,
            final(self)@.pending == old(self)@.pending,
            old(self)@.wf() ==> final(self)@.wf(),
    {
        deliver_to(&mut self.actors, to, event)
    }

    /// Publishes one event: enqueues it into the mailbox of every subscriber
    /// registered for its kind, in registration order, and runs no handler —
    /// every actor's state is untouched. Safe to call from interrupt context:
    /// delivery only enqueues, and a full mailbox drops the message rather
    /// than blocking.
    pub fn publish(&mut self, event: Event)
        ensures
            final(self)@.actors == deliver_list(
                old(self)@.actors,
                subs_for(old(self)@.broker, event),
                event,
            ),
            final(self)@.actors.len() == old(self)@.actors.len(),
            forall|i: int|
                0 <= i < old(self)@.actors.len() ==> (#[trigger] final(self)@.actors[i]).logic
                    == old(self)@.actors[i].logic && final(self)@.actors[i].capacity == old(
                    self,
                )@.actors[i].capacity,
            final(self)@.broker == old(self)@.broker,
            final(self)@.pending == old(self)@.pending,
            old(self)@.wf() ==> final(self)@.wf(),
    {
        match event {
            Event::Trigger(_) => {
                deliver_to_all(&mut self.actors, self.broker.trigger_subscribers(), event);
            },
            Event::Pin(_) => {
                deliver_to_all(&mut self.actors, self.broker.pin_subscribers(), event);
            },
            Event::Bind(_) => {},
        }
        proof {
            lemma_deliver_list_frame(
                old(self)@.actors,
                subs_for(old(self)@.broker, event),
                event,
            );
        }
    }

    /// Records that the hardware raised a channel's edge: sets that channel's
    /// pending flag and touches nothing else.
    pub fn raise_pending(&mut self, channel: Channel)
        ensures
            final(self)@.pending == old(self)@.pending.update(channel_index(channel), true),
            final(self)@.broker == old(self)@.broker,
            final(self)@.actors == old(self)@.actors,
            old(self)@.wf() ==> final(self)@.wf(),
    {
        self.gpiote.set_pending(channel);
    }

    /// The interrupt handler: publishes one channel-trigger event per fired
    /// channel, in channel-index order, and clears every pending flag before
    /// returning. Delivery only enqueues — no actor handler runs in interrupt
    /// context, every actor's state is untouched — so the work is bounded.
    /// Two edges on one channel between the flag read and the clear coalesce
    /// into one event: a known, accepted limitation.
    pub fn on_interrupt(&mut self)
        ensures
            final(self)@.actors == deliver_events(
                old(self)@.actors,
                old(self)@.broker,
                trigger_events(fired_from(old(self)@.pending, 0)),
            ),
            final(self)@.actors.len() == old(self)@.actors.len(),
            forall|i: int|
                0 <= i < old(self)@.actors.len() ==> (#[trigger] final(self)@.actors[i]).logic
                    == old(self)@.actors[i].logic && final(self)@.actors[i].capacity == old(
                    self,
                )@.actors[i].capacity,
            forall|i: int| 0 <= i < NUM_CHANNELS ==> !final(self)@.pending[i],
            final(self)@.broker == old(self)@.broker,
            old(self)@.wf() ==> final(self)@.wf(),
    {
        let ghost m0 = self@;
        let fired = self.gpiote.on_interrupt();
        let ghost events = trigger_events(fired@);
        proof {
            assert(events.skip(0) =~= events);
        }
        let mut j: usize = 0;
        while j < fired.len()
            invariant
                j <= fired.len(),
                events == trigger_events(fired@),
                self@.broker == m0.broker,
                forall|i: int| 0 <= i < NUM_CHANNELS ==> !self@.pending[i],
                deliver_events(m0.actors, m0.broker, events) == deliver_events(
                    self@.actors,
                    m0.broker,
                    events.skip(j as int),
                ),
            decreases fired.len() - j,
        {
            proof {
                assert(events.skip(j as int)[0] == Event::Trigger(GpioteEvent(fired@[j as int])));
                assert(events.skip(j as int).skip(1) =~= events.skip(j as int + 1));
            }
            self.publish(Event::Trigger(GpioteEvent(fired[j])));
            j = j + 1;
        }
        proof {
            assert(events.skip(events.len() as int).len() == 0);
            lemma_deliver_events_frame(m0.actors, m0.broker, events);
        }
    }

    /// How many actors are mounted.
    pub fn actor_count(&self) -> (n: usize)
        ensures
            n == self@.actors.len(),
    {
        self.actors.len()
    }

    /// The state of the actor an address names, if it names one.
    pub fn actor_logic(&self, addr: Address) -> (logic: Option<ActorLogic>)
        ensures
            addr.0 < self@.actors.len() ==> logic == Some(self@.actors[addr.0 as int].logic),
            addr.0 >= self@.actors.len() ==> logic is None,
    {
        if addr.0 < self.actors.len() {
            Some(self.actors[addr.0].logic)
        } else {
            None
        }
    }

    /// The messages queued in the mailbox an address names, oldest first, or
    /// nothing for an address that names no actor.
    pub fn queued(&self, addr: Address) -> (events: Vec<Event>)
        ensures
            addr.0 < self@.actors.len() ==> events@ == self@.actors[addr.0 as int].inbox,
            addr.0 >= self@.actors.len() ==> events@ == Seq::<Event>::empty(),
    {
        let mut events: Vec<Event> = Vec::new();
        if addr.0 < self.actors.len() {
            let slot = &self.actors[addr.0];
            let len = slot.mailbox.len();
            let mut k: usize = 0;
            while k < len
                invariant
                    k <= len,
                    len == slot@.inbox.len(),
                    events@ == slot@.inbox.take(k as int),
                decreases len - k,
            {
                events.push(slot.mailbox.get(k));
                proof {
                    assert(events@ =~= slot@.inbox.take(k as int + 1));
                }
                k = k + 1;
            }
            proof {
                assert(slot@.inbox.take(len as int) =~= slot@.inbox);
                assert(slot@ == self@.actors[addr.0 as int]);
            }
        }
        events
    }

    /// One cooperative scheduling pass, run outside interrupt context: each
    /// actor is visited once, in mount order; an actor with a non-empty
    /// mailbox has exactly one message dequeued and handled to completion
    /// before the next actor is considered. `reads` is what sampling each
    /// channel's pin returns at processing time. The returned matrix requests
    /// are everything the pass emitted, in emission order; the caller carries
    /// them to the matrix driver (fire-and-forget).
    pub fn step(&mut self, reads: &[PinRead; NUM_CHANNELS]) -> (out: Vec<MatrixRequest>)
        requires
            old(self)@.wf(),
        ensures
            final(self)@ == run_from(
                old(self)@,
                0,
                old(self)@.actors.len() as int,
                reads@,
            ).0,
            out@ == run_from(old(self)@, 0, old(self)@.actors.len() as int, reads@).1,
            final(self)@.wf(),
    {
        let ghost m0 = self@;
        let n = self.actors.len();
        let mut out: Vec<MatrixRequest> = Vec::new();
        let mut i: usize = 0;
        while i < n
            invariant
                i <= n,
                n == self@.actors.len(),
                self@.wf(),
                run_from(self@, i as int, n as int, reads@).0 == run_from(
                    m0,
                    0,
                    n as int,
                    reads@,
                ).0,
                out@ + run_from(self@, i as int, n as int, reads@).1 == run_from(
                    m0,
                    0,
                    n as int,
                    reads@,
                ).1,
            decreases n - i,
        {
            let ghost pre = self@;
            let ghost visited = step_actor(pre, i as int, reads@);
            let ghost out_pre = out@;
            if self.actors[i].mailbox.len() > 0 {
                let ghost effect = handle_event(
                    pre.actors[i as int].logic,
                    pre.actors[i as int].inbox[0],
                    reads@,
                );
                let logic = self.actors[i].logic;
                let event = {
                    let slot = &mut self.actors[i];
                    slot.mailbox.dequeue()
                };
                let ghost handled = pre.actors.update(
                    i as int,
                    ActorModel {
                        inbox: pre.actors[i as int].inbox.remove(0),
                        capacity: pre.actors[i as int].capacity,
                        logic: effect.logic,
                    },
                );
                match logic {
                    ActorLogic::Button(gc) => {
                        proof {
                            assert(effect.logic == logic);
                            assert(self@.actors =~= handled);
                        }
                        if let Event::Trigger(ge) = event {
                            let idx = gc.channel.index();
                            if let Some(pe) = gc.notify(ge, reads[idx]) {
                                self.publish(Event::Pin(pe));
                                proof {
                                    let published = seq![Event::Pin(pe)];
                                    assert(effect.published == published);
                                    let delivered = deliver_list(
                                        handled,
                                        subs_for(pre.broker, Event::Pin(pe)),
                                        Event::Pin(pe),
                                    );
                                    assert(published[0] == Event::Pin(pe));
                                    assert(published.skip(1).len() == 0);
                                    assert(deliver_events(delivered, pre.broker, published.skip(1))
                                        == delivered);
                                    assert(deliver_events(handled, pre.broker, published)
                                        == delivered);
                                    assert(self@.actors == delivered);
                                }
                            }
                        }
                        proof {
                            assert(self@ =~= visited.0);
                            assert(out@ == out_pre + visited.1);
                        }
                    },
                    ActorLogic::Activator(act) => {
                        let mut act2 = act;
                        let mut requests = act2.on_event(event);
                        {
                            let slot = &mut self.actors[i];
                            slot.logic = ActorLogic::Activator(act2);
                        }
                        out.append(&mut requests);
                        proof {
                            assert(self@.actors =~= handled);
                            assert(self@ =~= visited.0);
                            assert(out@ == out_pre + visited.1);
                        }
                    },
                }
            } else {
                proof {
                    assert(visited == (pre, Seq::<MatrixRequest>::empty()));
                    assert(out@ =~= out_pre + visited.1);
                }
            }
            proof {
                lemma_step_actor_frame(pre, i as int, reads@);
                let rest = run_from(self@, i as int + 1, n as int, reads@);
                assert(run_from(pre, i as int, n as int, reads@).1 == visited.1 + rest.1);
                assert(out_pre + (visited.1 + rest.1) =~= (out_pre + visited.1) + rest.1);
            }
            i = i + 1;
        }
        proof {
            assert(out@ + run_from(self@, n as int, n as int, reads@).1 =~= out@);
        }
        out
    }
}

} // verus!
