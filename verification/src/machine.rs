//! The vocabulary in which a state machine talks to the event loop.

use vstd::prelude::*;

use std::time::Duration;

verus! {

/// How a connection's turn ended: `None` where it is finished, and otherwise
/// the connection, with the time after which it wants to be woken, if any.
pub type Turn<C> = Option<(C, Option<Duration>)>;

/// What becomes of a machine `M` after an event. `S` is what another machine
/// can grow from.
#[derive(Debug, PartialEq, Eq)]
pub enum Response<M, S> {
    /// The machine waits for its next event.
    Wait(M),
    /// The machine waits for its next event, but no longer than the given
    /// time.
    Deadline(M, Duration),
    /// The machine stays, and a new one is made from the seed.
    Spawn(M, S),
    /// The machine is gone.
    Done,
}

impl<M, S> Response<M, S> {
    /// The machine that goes on, if one does.
    pub open spec fn machine(self) -> Option<M> {
        match self {
            Response::Wait(m) => Some(m),
            Response::Deadline(m, _) => Some(m),
            Response::Spawn(m, _) => Some(m),
            Response::Done => None,
        }
    }

    /// The seed that a new machine is made from, if there is one.
    pub open spec fn seed(self) -> Option<S> {
        match self {
            Response::Spawn(_, s) => Some(s),
            _ => None,
        }
    }

    /// How long the machine waits at most, if there is a limit.
    pub open spec fn limit(self) -> Option<Duration> {
        match self {
            Response::Deadline(_, dur) => Some(dur),
            _ => None,
        }
    }
}

/// What becomes of a machine that was woken from outside.
#[derive(Debug, PartialEq, Eq)]
pub enum Wakeup<L, M, S> {
    Respond(Response<M, S>),
    /// The machine is gone and the loop is to stop. What the machine worked
    /// with is handed back, to be taken off the loop.
    Shutdown(L),
}

/// What a new socket is watched for.
#[derive(Clone, Copy, Debug, PartialEq, Eq, Structural)]
pub enum Interest {
    Readable,
    Writable,
}

/// What becomes of a connection after its turn, where `wrap` makes the machine
/// that holds it.
pub open spec fn after_turn<C, M, S>(turn: Turn<C>, wrap: spec_fn(C) -> M) -> Response<M, S> {
    match turn {
        Some((conn, None)) => Response::Wait(wrap(conn)),
        Some((conn, Some(dur))) => Response::Deadline(wrap(conn), dur),
        None => Response::Done,
    }
}

} // verus!
