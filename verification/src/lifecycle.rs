//! The life of the server process, from start to orderly exit.
//!
//! ```text
//! Initializing --Ready--> Serving --Interrupt--> Draining --Drained--> Stopped
//!       |
//!       +--Failed--> the process ends without having served
//! ```
//!
//! The caller performs the work (connecting, running the schema, binding the
//! listener, waiting for the signal, letting requests finish) and reports
//! each result as an [`Event`]; [`advance`] says where that leaves the
//! server.

use vstd::prelude::*;

verus! {

/// Where the server is in its life.
#[derive(Clone, Copy, Debug, PartialEq, Eq, Structural)]
pub enum Lifecycle {
    /// Connecting to the datastore, setting up the schema, binding the
    /// listener. No request is served yet.
    Initializing,
    /// Accepting connections and answering requests.
    Serving,
    /// No longer accepting connections; requests in flight run to their end.
    Draining,
    /// Every request has ended; the process exits with success.
    Stopped,
}

/// The steps of the start, each of which is fatal when it fails.
#[derive(Clone, Copy, Debug, PartialEq, Eq, Structural)]
pub enum Startup {
    /// Connecting to the datastore.
    Connect,
    /// Running the schema initializer.
    Schema,
    /// Binding the listener.
    Bind,
}

/// What the caller reports.
#[derive(Clone, Copy, Debug, PartialEq, Eq, Structural)]
pub enum Event {
    /// The datastore is connected, the schema is in place and the listener
    /// is bound.
    Ready,
    /// A step of the start failed.
    Failed(Startup),
    /// The interrupt signal arrived.
    Interrupt,
    /// The handler for the interrupt signal could not be installed.
    SignalUnavailable,
    /// The last request in flight has ended.
    Drained,
}

/// How far along its life the server is: 0 at the start, 3 at the end.
pub open spec fn rank(state: Lifecycle) -> nat {
    match state {
        Lifecycle::Initializing => 0,
        Lifecycle::Serving => 1,
        Lifecycle::Draining => 2,
        Lifecycle::Stopped => 3,
    }
}

/// Where `event` leaves a server that is in `state`: the state that follows,
/// or the step whose failure ends the process before it has served.
///
/// A failed step is fatal while initializing. That the signal handler could
/// not be installed is not: the server goes on serving and can then only be
/// ended from outside. An event that has no meaning in `state` leaves the
/// state as it is.
pub open spec fn next(state: Lifecycle, event: Event) -> Result<Lifecycle, Startup> {
    match (state, event) {
        (Lifecycle::Initializing, Event::Ready) => Ok(Lifecycle::Serving),
        (Lifecycle::Initializing, Event::Failed(step)) => Err(step),
        (Lifecycle::Serving, Event::Interrupt) => Ok(Lifecycle::Draining),
        (Lifecycle::Draining, Event::Drained) => Ok(Lifecycle::Stopped),
        _ => Ok(state),
    }
}

impl Lifecycle {
    /// Whether new connections are accepted in this state.
    pub open spec fn spec_accepts(self) -> bool {
        self == Lifecycle::Serving
    }

    /// Whether new connections are accepted in this state.
    #[verifier::when_used_as_spec(spec_accepts)]
    pub fn accepts(self) -> (b: bool)
        ensures
            b == self.spec_accepts(),
    {
        match self {
            Lifecycle::Serving => true,
            _ => false,
        }
    }
}

/// Moves the server on by one event.
pub fn advance(state: Lifecycle, event: Event) -> (result: Result<Lifecycle, Startup>)
    ensures
        result == next(state, event),
{
    match state {
        Lifecycle::Initializing => match event {
            Event::Ready => Ok(Lifecycle::Serving),
            Event::Failed(step) => Err(step),
            _ => Ok(state),
        },
        Lifecycle::Serving => match event {
            Event::Interrupt => Ok(Lifecycle::Draining),
            _ => Ok(state),
        },
        Lifecycle::Draining => match event {
            Event::Drained => Ok(Lifecycle::Stopped),
            _ => Ok(state),
        },
        Lifecycle::Stopped => Ok(state),
    }
}

/// The process is ended by a failure only while initializing, and then by
/// the step that failed: a server that has begun to serve is never aborted.
pub proof fn lemma_failure_is_fatal_only_at_start(state: Lifecycle, event: Event)
    ensures
        next(state, event) is Err <==> state == Lifecycle::Initializing && event is Failed,
        next(state, event) matches Err(step) ==> event == Event::Failed(step),
{
}

/// The server never goes back: an event leaves it where it is or moves it
/// one state on.
pub proof fn lemma_one_step_forward(state: Lifecycle, event: Event)
    ensures
        next(state, event) matches Ok(after) ==> rank(state) <= rank(after) <= rank(state) + 1,
{
}

/// Each state is entered from the one before it, on one event only. So the
/// server serves only after a start without failure, and stops only after an
/// interrupt and the end of the requests in flight.
pub proof fn lemma_single_way_in(state: Lifecycle, event: Event)
    ensures
        next(state, event) matches Ok(after) ==> after == state || {
            ||| state == Lifecycle::Initializing && event == Event::Ready && after
                == Lifecycle::Serving
            ||| state == Lifecycle::Serving && event == Event::Interrupt && after
                == Lifecycle::Draining
            ||| state == Lifecycle::Draining && event == Event::Drained && after
                == Lifecycle::Stopped
        },
{
}

/// Once stopped, the server stays stopped.
pub proof fn lemma_stopped_is_final(event: Event)
    ensures
        next(Lifecycle::Stopped, event) matches Ok(after) && after == Lifecycle::Stopped,
{
}

} // verus!
