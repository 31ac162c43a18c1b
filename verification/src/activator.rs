//! The activator: a two-state machine that, once bound to a matrix address by
//! a one-time startup handshake, maps every pin-state event to an ordered pair
//! of matrix commands, and before that drops every event without effect.

use vstd::prelude::*;

use crate::events::{Address, Event, MatrixCommand, MatrixRequest, PinEvent, PinState};

verus! {

/// Whether the activator has received its matrix address yet.
#[derive(Clone, Copy, PartialEq, Eq, Structural, Debug)]
pub enum ActivatorState {
    /// No bind message received: every event is a defined no-op.
    Unbound,
    /// Bound to the matrix actor's address; pin-state events drive it.
    Bound(Address),
}

/// The business-logic actor driving the LED matrix.
#[derive(Clone, Copy, PartialEq, Eq, Structural, Debug)]
pub struct LedActivator {
    pub state: ActivatorState,
}

/// The ordered command pair a bound activator sends for one pin level:
/// Low activates pixel (0, 0) and renders; High deactivates it and renders.
pub open spec fn command_pair(to: Address, level: PinState) -> Seq<MatrixRequest> {
    seq![
        (MatrixRequest {
            to,
            command: if level == PinState::Low {
                MatrixCommand::Activate(0, 0)
            } else {
                MatrixCommand::Deactivate(0, 0)
            },
        }),
        (MatrixRequest { to, command: MatrixCommand::Render }),
    ]
}

impl LedActivator {
    /// Constructs the activator in its initial, unbound state.
    pub fn new() -> (a: LedActivator)
        ensures
            a.state == ActivatorState::Unbound,
    {
        LedActivator { state: ActivatorState::Unbound }
    }

    /// What handling one event does: the successor state and the matrix
    /// requests emitted, exactly.
    ///
    /// - A bind message moves `Unbound` to `Bound`; once bound, a further
    ///   bind is ignored (the topology is fixed after startup).
    /// - A pin-state event in `Unbound` is a defined no-op.
    /// - A pin-state event in `Bound` emits exactly the ordered command pair
    ///   for its level, and nothing else.
    /// - Any other message is a defined no-op.
    pub open spec fn on_event_spec(self, event: Event) -> (LedActivator, Seq<MatrixRequest>) {
        match event {
            Event::Bind(addr) => match self.state {
                ActivatorState::Unbound => (
                    LedActivator { state: ActivatorState::Bound(addr) },
                    Seq::empty(),
                ),
                ActivatorState::Bound(_) => (self, Seq::empty()),
            },
            Event::Pin(PinEvent(level)) => match self.state {
                ActivatorState::Unbound => (self, Seq::empty()),
                ActivatorState::Bound(addr) => (self, command_pair(addr, level)),
            },
            Event::Trigger(_) => (self, Seq::empty()),
        }
    }

    /// Handles one mailbox message and returns the matrix requests to emit,
    /// in order. Fire-and-forget: the caller carries them to the driver.
    pub fn on_event(&mut self, event: Event) -> (out: Vec<MatrixRequest>)
        ensures
            *final(self) == old(self).on_event_spec(event).0,
            out@ == old(self).on_event_spec(event).1,
    {
        let mut out: Vec<MatrixRequest> = Vec::new();
        match event {
            Event::Bind(addr) => {
                if let ActivatorState::Unbound = self.state {
                    self.state = ActivatorState::Bound(addr);
                }
            },
            Event::Pin(PinEvent(level)) => {
                if let ActivatorState::Bound(addr) = self.state {
                    let first = if matches!(level, PinState::Low) {
                        MatrixCommand::Activate(0, 0)
                    } else {
                        MatrixCommand::Deactivate(0, 0)
                    };
                    out.push(MatrixRequest { to: addr, command: first });
                    out.push(MatrixRequest { to: addr, command: MatrixCommand::Render });
                    proof {
                        assert(out@ =~= command_pair(addr, level));
                    }
                }
            },
            Event::Trigger(_) => {},
        }
        proof {
            assert(out@ =~= old(self).on_event_spec(event).1);
        }
        out
    }
}

/// The activator run over a whole message sequence: the state it ends in and
/// every matrix request it emits, in emission order.
pub open spec fn run_events(act: LedActivator, events: Seq<Event>) -> (
    LedActivator,
    Seq<MatrixRequest>,
)
    decreases events.len(),
{
    if events.len() == 0 {
        (act, Seq::empty())
    } else {
        let (next, first_out) = act.on_event_spec(events[0]);
        let (last, rest_out) = run_events(next, events.skip(1));
        (last, first_out + rest_out)
    }
}

/// An activator that has not received its bind message emits no actuator
/// command at all, and stays unbound, whatever sequence of pin-state events
/// it is given.
pub proof fn lemma_unbound_emits_nothing(act: LedActivator, events: Seq<Event>)
    requires
        act.state == ActivatorState::Unbound,
        forall|i: int| 0 <= i < events.len() ==> events[i] is Pin,
    ensures
        run_events(act, events).0 == act,
        run_events(act, events).1 == Seq::<MatrixRequest>::empty(),
    decreases events.len(),
{
    if events.len() == 0 {
    } else {
        assert(events[0] is Pin);
        let (next, first_out) = act.on_event_spec(events[0]);
        assert(next == act && first_out == Seq::<MatrixRequest>::empty());
        assert(forall|i: int|
            0 <= i < events.skip(1).len() ==> events.skip(1)[i] == events[i + 1]);
        lemma_unbound_emits_nothing(act, events.skip(1));
        assert(run_events(act, events).1 =~= Seq::<MatrixRequest>::empty());
    }
}

/// A bound activator maps each pin-state event to exactly the ordered command
/// pair sent to its matrix address — Low to [activate pixel (0, 0), render],
/// High to [deactivate pixel (0, 0), render] — and does not change state.
pub proof fn lemma_bound_command_pair(act: LedActivator, to: Address, level: PinState)
    requires
        act.state == ActivatorState::Bound(to),
    ensures
        act.on_event_spec(Event::Pin(PinEvent(level))).0 == act,
        act.on_event_spec(Event::Pin(PinEvent(level))).1 == command_pair(to, level),
        level == PinState::Low ==> act.on_event_spec(Event::Pin(PinEvent(level))).1 == seq![
            (MatrixRequest { to, command: MatrixCommand::Activate(0, 0) }),
            (MatrixRequest { to, command: MatrixCommand::Render }),
        ],
        level == PinState::High ==> act.on_event_spec(Event::Pin(PinEvent(level))).1 == seq![
            (MatrixRequest { to, command: MatrixCommand::Deactivate(0, 0) }),
            (MatrixRequest { to, command: MatrixCommand::Render }),
        ],
{
}

} // verus!
