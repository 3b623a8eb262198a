//! The shutdown coordinator: it decides when the listener stops accepting
//! and when the process may exit. The program around it waits for signals
//! and connections and reports them here.

use vstd::prelude::*;

verus! {

/// The signals that ask the service to stop.
#[derive(Clone, Copy, Debug, PartialEq, Eq, Structural)]
pub enum Signal {
    /// The interactive interrupt.
    Interrupt,
    /// The termination request of the platform.
    Terminate,
}

/// The two states of the coordinator.
#[derive(Clone, Copy, Debug, PartialEq, Eq, Structural)]
pub enum Phase {
    /// Connections are accepted.
    Running,
    /// No connection is accepted; requests in flight run to their end.
    Draining,
}

/// What the program reports to the coordinator.
#[derive(Clone, Copy, Debug, PartialEq, Eq, Structural)]
pub enum Event {
    /// A signal arrived.
    Signalled(Signal),
    /// A connection asks to be accepted.
    Offered,
    /// A request that was in flight has ended, by its reply or by its
    /// timeout.
    Finished,
}

/// The mathematical value of a [`Coordinator`].
pub struct CoordinatorView {
    pub phase: Phase,
    pub in_flight: nat,
    pub terminate_supported: bool,
}

/// Whether a signal is listened for: the interrupt everywhere, the
/// termination request only where the platform has it.
pub open spec fn listened(state: CoordinatorView, signal: Signal) -> bool {
    match signal {
        Signal::Interrupt => true,
        Signal::Terminate => state.terminate_supported,
    }
}

/// Whether a connection that is offered now is accepted: only while running,
/// and while the count of requests in flight has room.
pub open spec fn accepts(state: CoordinatorView) -> bool {
    state.phase == Phase::Running && state.in_flight < usize::MAX
}

/// The state after one event.
pub open spec fn step(state: CoordinatorView, event: Event) -> CoordinatorView {
    match event {
        Event::Signalled(signal) => if listened(state, signal) {
            CoordinatorView { phase: Phase::Draining, ..state }
        } else {
            state
        },
        Event::Offered => if accepts(state) {
            CoordinatorView { in_flight: state.in_flight + 1, ..state }
        } else {
            state
        },
        Event::Finished => if state.in_flight > 0 {
            CoordinatorView { in_flight: (state.in_flight - 1) as nat, ..state }
        } else {
            state
        },
    }
}

/// The state after a sequence of events, the first event first.
pub open spec fn run(state: CoordinatorView, events: Seq<Event>) -> CoordinatorView
    decreases events.len(),
{
    if events.len() == 0 {
        state
    } else {
        step(run(state, events.drop_last()), events.last())
    }
}

/// How many of the events report the end of a request.
pub open spec fn finished_count(events: Seq<Event>) -> nat
    decreases events.len(),
{
    if events.len() == 0 {
        0
    } else {
        finished_count(events.drop_last()) + if events.last() == Event::Finished {
            1nat
        } else {
            0nat
        }
    }
}

/// Whether the process may exit: the service is draining and nothing is in
/// flight.
pub open spec fn exit_allowed(state: CoordinatorView) -> bool {
    state.phase == Phase::Draining && state.in_flight == 0
}

/// The coordinator of one server.
#[derive(Debug)]
pub struct Coordinator {
    phase: Phase,
    in_flight: usize,
    terminate_supported: bool,
}

impl View for Coordinator {
    type V = CoordinatorView;

    closed spec fn view(&self) -> CoordinatorView {
        CoordinatorView {
            phase: self.phase,
            in_flight: self.in_flight as nat,
            terminate_supported: self.terminate_supported,
        }
    }
}

impl Coordinator {
    /// A running coordinator with nothing in flight. `terminate_supported`
    /// says whether the platform has a termination request beside the
    /// interrupt.
    pub fn new(terminate_supported: bool) -> (coordinator: Coordinator)
        ensures
            coordinator@ == (CoordinatorView {
                phase: Phase::Running,
                in_flight: 0,
                terminate_supported,
            }),
    {
        Coordinator { phase: Phase::Running, in_flight: 0, terminate_supported }
    }

    /// The current state.
    pub fn phase(&self) -> (phase: Phase)
        ensures
            phase == self@.phase,
    {
        self.phase
    }

    /// How many requests are in flight.
    pub fn in_flight(&self) -> (count: usize)
        ensures
            count == self@.in_flight,
    {
        self.in_flight
    }

    /// Whether `signal` is listened for.
    pub fn listens_for(&self, signal: Signal) -> (listening: bool)
        ensures
            listening == listened(self@, signal),
    {
        match signal {
            Signal::Interrupt => true,
            Signal::Terminate => self.terminate_supported,
        }
    }

    /// A connection is offered. Returns whether it is accepted; an accepted
    /// one is in flight from now on.
    pub fn offer(&mut self) -> (accepted: bool)
        ensures
            accepted == accepts(old(self)@),
            final(self)@ == step(old(self)@, Event::Offered),
    {
        match self.phase {
            Phase::Running => {
                if self.in_flight < usize::MAX {
                    self.in_flight = self.in_flight + 1;
                    true
                } else {
                    false
                }
            },
            Phase::Draining => false,
        }
    }

    /// A request in flight has ended. Where nothing was in flight, nothing
    /// changes.
    pub fn complete(&mut self)
        ensures
            final(self)@ == step(old(self)@, Event::Finished),
    {
        if self.in_flight > 0 {
            self.in_flight = self.in_flight - 1;
        }
    }

    /// Whether the process may exit.
    pub fn may_exit(&self) -> (allowed: bool)
        ensures
            allowed == exit_allowed(self@),
    {
        match self.phase {
            Phase::Running => false,
            Phase::Draining => self.in_flight == 0,
        }
    }
}

/// A signal arrived. A signal that is listened for starts the draining; any
/// other changes nothing. Returns whether the service is draining now.
pub fn shutdown_signal(coordinator: &mut Coordinator, signal: Signal) -> (draining: bool)
    ensures
        final(coordinator)@ == step(old(coordinator)@, Event::Signalled(signal)),
        draining == (final(coordinator)@.phase == Phase::Draining),
{
    if coordinator.listens_for(signal) {
        coordinator.phase = Phase::Draining;
    }
    match coordinator.phase {
        Phase::Running => false,
        Phase::Draining => true,
    }
}

/// How the serve loop ended.
#[derive(Debug)]
pub enum Termination {
    /// The loop ended after the draining.
    Clean,
    /// The loop ended with an error, which is the cause of the abnormal end
    /// of the process.
    Abnormal(String),
}

/// Classifies the end of the serve loop: an error of the loop is the cause of
/// an abnormal end, whatever the coordinator's state; no error is a clean
/// end.
pub fn termination(serve_error: Option<String>) -> (outcome: Termination)
    ensures
        match serve_error {
            Some(cause) => outcome == Termination::Abnormal(cause),
            None => outcome == Termination::Clean,
        },
{
    match serve_error {
        Some(cause) => Termination::Abnormal(cause),
        None => Termination::Clean,
    }
}

/// Once draining, always draining, and no connection is accepted: whatever
/// events follow, the service stays in the draining state, and the requests
/// in flight only become fewer, by no more than the number of requests that
/// ended. So a request in flight at the signal is never dropped, and the
/// process may exit only after as many requests ended as were in flight.
pub proof fn lemma_draining_run(state: CoordinatorView, events: Seq<Event>)
    requires
        state.phase == Phase::Draining,
    ensures
        run(state, events).phase == Phase::Draining,
        run(state, events).terminate_supported == state.terminate_supported,
        !accepts(run(state, events)),
        run(state, events).in_flight <= state.in_flight,
        run(state, events).in_flight + finished_count(events) >= state.in_flight,
        exit_allowed(run(state, events)) ==> finished_count(events) >= state.in_flight,
    decreases events.len(),
{
    if events.len() > 0 {
        lemma_draining_run(state, events.drop_last());
    }
}

/// A signal that is listened for ends the accepting at once: in the state
/// right after it no offered connection is accepted, and the requests in
/// flight are those that were in flight before.
pub proof fn lemma_signal_stops_accepting(state: CoordinatorView, signal: Signal)
    requires
        listened(state, signal),
    ensures
        step(state, Event::Signalled(signal)).phase == Phase::Draining,
        step(state, Event::Signalled(signal)).in_flight == state.in_flight,
        step(step(state, Event::Signalled(signal)), Event::Offered) == step(
            state,
            Event::Signalled(signal),
        ),
{
}

} // verus!
