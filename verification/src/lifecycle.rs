//! The service's lifecycle: running, then shutting down.
//!
//! The service is driven by events. An interrupt moves it from `Running` to
//! `ShuttingDown`, where it accepts nothing new, lets the requests in flight
//! finish, and exits once none is left.

use vstd::prelude::*;

verus! {

/// The two states of the service.
#[derive(Debug, Clone, Copy, PartialEq, Eq, Structural)]
pub enum Phase {
    /// Accepting connections.
    Running,
    /// Interrupted: draining the requests in flight.
    ShuttingDown,
}

/// What can happen to the service.
#[derive(Debug, Clone, Copy, PartialEq, Eq, Structural)]
pub enum Event {
    /// A client asks for a connection.
    Connection,
    /// A request that was accepted earlier has been answered.
    RequestDone,
    /// The interrupt signal arrived.
    Interrupt,
}

/// What the service does in answer to an event.
#[derive(Debug, Clone, Copy, PartialEq, Eq, Structural)]
pub enum Action {
    /// Take the connection and serve its request.
    Accept,
    /// Turn the connection away.
    Refuse,
    /// Keep waiting for the next event.
    Wait,
    /// Stop: nothing is in flight and nothing more will be accepted.
    Exit,
}

/// The state of the service: its phase and the number of requests that were
/// accepted and are not yet answered.
#[derive(Debug, Clone, Copy, PartialEq, Eq, Structural)]
pub struct Service {
    pub phase: Phase,
    pub in_flight: u64,
}

/// The state that follows `s` on `event`. Two corners are settled here for
/// want of a better answer: a service whose counter is full takes no further
/// connection, and a finished request with nothing in flight changes nothing.
pub open spec fn next_state(s: Service, event: Event) -> Service {
    match event {
        Event::Connection => if s.phase == Phase::Running && s.in_flight < u64::MAX {
            Service { phase: s.phase, in_flight: (s.in_flight + 1) as u64 }
        } else {
            s
        },
        Event::RequestDone => if s.in_flight > 0 {
            Service { phase: s.phase, in_flight: (s.in_flight - 1) as u64 }
        } else {
            s
        },
        Event::Interrupt => Service { phase: Phase::ShuttingDown, in_flight: s.in_flight },
    }
}

/// The action that the service takes in state `s` on `event`.
pub open spec fn action_on(s: Service, event: Event) -> Action {
    match event {
        Event::Connection => if s.phase == Phase::Running && s.in_flight < u64::MAX {
            Action::Accept
        } else {
            Action::Refuse
        },
        Event::RequestDone | Event::Interrupt => {
            let after = next_state(s, event);
            if after.phase == Phase::ShuttingDown && after.in_flight == 0 {
                Action::Exit
            } else {
                Action::Wait
            }
        },
    }
}

/// The state reached from `s` after all of `events`, in order.
pub open spec fn run(s: Service, events: Seq<Event>) -> Service
    decreases events.len(),
{
    if events.len() == 0 {
        s
    } else {
        next_state(run(s, events.drop_last()), events.last())
    }
}

/// How many of `events` report a finished request.
pub open spec fn finished(events: Seq<Event>) -> nat
    decreases events.len(),
{
    if events.len() == 0 {
        0
    } else {
        finished(events.drop_last()) + if events.last() == Event::RequestDone {
            1nat
        } else {
            0nat
        }
    }
}

impl Service {
    /// A service that has just started: running, with nothing in flight.
    pub fn new() -> (r: Service)
        ensures
            r == (Service { phase: Phase::Running, in_flight: 0 }),
    {
        Service { phase: Phase::Running, in_flight: 0 }
    }

    /// Whether the service still takes new connections.
    pub fn is_running(&self) -> (r: bool)
        ensures
            r == (self.phase == Phase::Running),
    {
        self.phase == Phase::Running
    }

    /// Takes one event: moves to the next state and says what to do.
    pub fn step(&mut self, event: Event) -> (r: Action)
        ensures
            *final(self) == next_state(*old(self), event),
            r == action_on(*old(self), event),
    {
        match event {
            Event::Connection => {
                if self.phase == Phase::Running && self.in_flight < u64::MAX {
                    self.in_flight = self.in_flight + 1;
                    Action::Accept
                } else {
                    Action::Refuse
                }
            },
            Event::RequestDone => {
                if self.in_flight > 0 {
                    self.in_flight = self.in_flight - 1;
                }
                if self.phase == Phase::ShuttingDown && self.in_flight == 0 {
                    Action::Exit
                } else {
                    Action::Wait
                }
            },
            Event::Interrupt => {
                self.phase = Phase::ShuttingDown;
                if self.in_flight == 0 {
                    Action::Exit
                } else {
                    Action::Wait
                }
            },
        }
    }
}

/// An interrupt puts the service into `ShuttingDown` and loses no request
/// that is in flight.
pub proof fn interrupt_starts_shutdown(s: Service)
    ensures
        next_state(s, Event::Interrupt).phase == Phase::ShuttingDown,
        next_state(s, Event::Interrupt).in_flight == s.in_flight,
{
}

/// While shutting down, no event makes the service accept a connection or
/// return to running; a finished request takes exactly one off the requests
/// in flight, and nothing else changes their number.
pub proof fn shutting_down_step(s: Service, event: Event)
    requires
        s.phase == Phase::ShuttingDown,
    ensures
        next_state(s, event).phase == Phase::ShuttingDown,
        action_on(s, event) != Action::Accept,
        event == Event::Connection ==> action_on(s, event) == Action::Refuse,
        event == Event::RequestDone && s.in_flight > 0 ==> next_state(s, event).in_flight
            == s.in_flight - 1,
        event != Event::RequestDone ==> next_state(s, event).in_flight == s.in_flight,
        action_on(s, event) == Action::Exit <==> event != Event::Connection && next_state(
            s,
            event,
        ).in_flight == 0,
{
}

/// After the interrupt, whatever events follow: the service stays in
/// `ShuttingDown`, every connection that is asked for is refused, and the
/// requests that were in flight at the interrupt leave only by finishing.
pub proof fn after_interrupt(s: Service, events: Seq<Event>)
    ensures
        run(next_state(s, Event::Interrupt), events).phase == Phase::ShuttingDown,
        action_on(run(next_state(s, Event::Interrupt), events), Event::Connection)
            == Action::Refuse,
        run(next_state(s, Event::Interrupt), events).in_flight == if finished(events)
            <= s.in_flight {
            s.in_flight - finished(events)
        } else {
            0
        },
{
    shutdown_trace(next_state(s, Event::Interrupt), events);
}

/// Once the service is shutting down, it exits exactly when the last request
/// in flight has finished: with `n` requests in flight, the `n`-th finished
/// request is answered with `Exit`, and none before it.
pub proof fn drain_then_exit(s: Service, events: Seq<Event>)
    requires
        s.phase == Phase::ShuttingDown,
        finished(events) < s.in_flight,
    ensures
        action_on(run(s, events), Event::RequestDone) == Action::Exit <==> finished(events) + 1
            == s.in_flight,
{
    shutdown_trace(s, events);
}

/// A service in `ShuttingDown` stays there whatever happens, and after
/// `events` has in flight what it had, less the requests that finished.
pub proof fn shutdown_trace(s: Service, events: Seq<Event>)
    requires
        s.phase == Phase::ShuttingDown,
    ensures
        run(s, events).phase == Phase::ShuttingDown,
        run(s, events).in_flight == if finished(events) <= s.in_flight {
            s.in_flight - finished(events)
        } else {
            0
        },
    decreases events.len(),
{
    if events.len() > 0 {
        shutdown_trace(s, events.drop_last());
    }
}

} // verus!
