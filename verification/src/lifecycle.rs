//! Graceful shutdown as a state machine: what to do on each event, and the state that follows.
//!
//! The caller owns the listener and the signal sources. It reports what happens as an
//! [`Event`] and carries out the [`Action`] that comes back.

use vstd::prelude::*;

verus! {

/// Where the service stands between start and exit.
#[derive(Clone, Copy, Debug, PartialEq, Eq, Structural)]
pub enum Phase {
    /// Accepting connections.
    Running,
    /// A shutdown signal has arrived; the listener is still to be closed.
    ShutdownRequested,
    /// The listener is closed; exchanges that were under way are finishing.
    Draining,
    /// Nothing is left to do.
    Terminated,
}

/// The two signals that ask for a shutdown.
#[derive(Clone, Copy, Debug, PartialEq, Eq, Structural)]
pub enum Signal {
    Interrupt,
    Terminate,
}

/// What the caller reports.
#[derive(Clone, Copy, Debug, PartialEq, Eq, Structural)]
pub enum Event {
    /// A shutdown signal was received.
    Signal(Signal),
    /// A new connection waits to be accepted.
    ConnectionOffered,
    /// An accepted exchange has run to its end.
    ExchangeCompleted,
    /// The listener has stopped accepting.
    ListenerClosed,
}

/// What the caller is to do next.
#[derive(Clone, Copy, Debug, PartialEq, Eq, Structural)]
pub enum Action {
    /// Take the connection in.
    Accept,
    /// Turn the connection away.
    Refuse,
    /// Announce the shutdown and close the listener; leave running exchanges alone.
    StopAccepting,
    /// Announce the end and leave.
    Exit,
    /// Carry on.
    Nothing,
}

/// The state of the machine as plain values.
#[derive(Clone, Copy, Debug, PartialEq, Eq, Structural)]
pub struct Stage {
    pub phase: Phase,
    /// The exchanges accepted and not yet completed.
    pub in_flight: usize,
}

impl Stage {
    /// What holds of every state the machine reaches: it drains only while something is in
    /// flight, and it has terminated only with nothing in flight.
    pub open spec fn consistent(self) -> bool {
        &&& self.phase == Phase::Draining ==> self.in_flight > 0
        &&& self.phase == Phase::Terminated ==> self.in_flight == 0
    }

    /// The state in which a service starts.
    pub open spec fn initial() -> Stage {
        Stage { phase: Phase::Running, in_flight: 0 }
    }

    /// Whether the machine can take `event` in this state. The one limit is the machine's:
    /// the count of exchanges in flight must have room for one more.
    pub open spec fn admits(self, event: Event) -> bool {
        self.phase == Phase::Running && event == Event::ConnectionOffered ==> self.in_flight
            < usize::MAX
    }

    /// The state that follows `event`.
    pub open spec fn after(self, event: Event) -> Stage {
        match event {
            Event::Signal(_) => if self.phase == Phase::Running {
                Stage { phase: Phase::ShutdownRequested, in_flight: self.in_flight }
            } else {
                self
            },
            Event::ConnectionOffered => if self.phase == Phase::Running {
                Stage { phase: Phase::Running, in_flight: (self.in_flight + 1) as usize }
            } else {
                self
            },
            Event::ExchangeCompleted => if self.in_flight == 0 {
                self
            } else if self.phase == Phase::Draining && self.in_flight == 1 {
                Stage { phase: Phase::Terminated, in_flight: 0 }
            } else {
                Stage { phase: self.phase, in_flight: (self.in_flight - 1) as usize }
            },
            Event::ListenerClosed => if self.phase != Phase::ShutdownRequested {
                self
            } else if self.in_flight == 0 {
                Stage { phase: Phase::Terminated, in_flight: 0 }
            } else {
                Stage { phase: Phase::Draining, in_flight: self.in_flight }
            },
        }
    }

    /// What the caller is to do on `event`.
    pub open spec fn action_on(self, event: Event) -> Action {
        match event {
            Event::Signal(_) => if self.phase == Phase::Running {
                Action::StopAccepting
            } else {
                Action::Nothing
            },
            Event::ConnectionOffered => if self.phase == Phase::Running {
                Action::Accept
            } else {
                Action::Refuse
            },
            Event::ExchangeCompleted | Event::ListenerClosed => if self.phase != Phase::Terminated
                && self.after(event).phase == Phase::Terminated {
                Action::Exit
            } else {
                Action::Nothing
            },
        }
    }
}

/// The shutdown state machine of one service.
#[derive(Clone, Copy, Debug)]
pub struct Lifecycle {
    phase: Phase,
    in_flight: usize,
}

impl View for Lifecycle {
    type V = Stage;

    closed spec fn view(&self) -> Stage {
        Stage { phase: self.phase, in_flight: self.in_flight }
    }
}

impl Lifecycle {
    #[verifier::type_invariant]
    spec fn holds_together(self) -> bool {
        self@.consistent()
    }

    /// A machine in its initial state: running, with nothing in flight.
    pub fn new() -> (machine: Lifecycle)
        ensures
            machine@ == Stage::initial(),
    {
        Lifecycle { phase: Phase::Running, in_flight: 0 }
    }

    /// The present state.
    pub fn stage(&self) -> (stage: Stage)
        ensures
            stage == self@,
            stage.consistent(),
    {
        proof {
            use_type_invariant(self);
        }
        Stage { phase: self.phase, in_flight: self.in_flight }
    }

    /// Whether `event` can be handed to [`Lifecycle::on_event`] now.
    pub fn admits(&self, event: Event) -> (admitted: bool)
        ensures
            admitted == self@.admits(event),
    {
        !(self.phase == Phase::Running && event == Event::ConnectionOffered) || self.in_flight
            < usize::MAX
    }

    /// Takes one event: moves to the state that follows it and says what to do.
    ///
    /// The first signal, whichever of the two it is, asks for the shutdown; a later one
    /// changes nothing. A connection is accepted only while running. Once the listener is
    /// closed the machine waits for the exchanges in flight and terminates with the last.
    pub fn on_event(&mut self, event: Event) -> (action: Action)
        requires
            old(self)@.admits(event),
        ensures
            final(self)@ == old(self)@.after(event),
            action == old(self)@.action_on(event),
            final(self)@.consistent(),
    {
        proof {
            use_type_invariant(&*self);
        }
        let phase: Phase = self.phase;
        let in_flight: usize = self.in_flight;
        match event {
            Event::Signal(_) => {
                if phase == Phase::Running {
                    *self = Lifecycle { phase: Phase::ShutdownRequested, in_flight };
                    Action::StopAccepting
                } else {
                    Action::Nothing
                }
            },
            Event::ConnectionOffered => {
                if phase == Phase::Running {
                    *self = Lifecycle { phase, in_flight: in_flight + 1 };
                    Action::Accept
                } else {
                    Action::Refuse
                }
            },
            Event::ExchangeCompleted => {
                if in_flight == 0 {
                    Action::Nothing
                } else if phase == Phase::Draining && in_flight == 1 {
                    *self = Lifecycle { phase: Phase::Terminated, in_flight: 0 };
                    Action::Exit
                } else {
                    *self = Lifecycle { phase, in_flight: in_flight - 1 };
                    Action::Nothing
                }
            },
            Event::ListenerClosed => {
                if phase != Phase::ShutdownRequested {
                    Action::Nothing
                } else if in_flight == 0 {
                    *self = Lifecycle { phase: Phase::Terminated, in_flight: 0 };
                    Action::Exit
                } else {
                    *self = Lifecycle { phase: Phase::Draining, in_flight };
                    Action::Nothing
                }
            },
        }
    }
}

} // verus!
