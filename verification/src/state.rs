//! The state of the connection, and the shared cell through which the rest of
//! the program reads it.

use std::sync::atomic::{AtomicUsize, Ordering};
use std::sync::Arc;
use vstd::prelude::*;

verus! {

/// The state of the connection to the simulation server. There is no last
/// state: the connection is kept up for as long as the process runs.
#[derive(Clone, Copy, Debug, PartialEq, Eq, Structural)]
pub enum ConnectionState {
    Connecting,
    Online,
    Closed,
    Error,
}

impl ConnectionState {
    /// The number under which the state is kept in the shared cell.
    pub open spec fn spec_code(self) -> usize {
        match self {
            ConnectionState::Connecting => 0,
            ConnectionState::Online => 1,
            ConnectionState::Closed => 2,
            ConnectionState::Error => 3,
        }
    }

    /// The state that a number stands for.
    pub open spec fn spec_from_code(code: usize) -> Option<ConnectionState> {
        if code == 0 {
            Some(ConnectionState::Connecting)
        } else if code == 1 {
            Some(ConnectionState::Online)
        } else if code == 2 {
            Some(ConnectionState::Closed)
        } else if code == 3 {
            Some(ConnectionState::Error)
        } else {
            None
        }
    }

    /// Whether the connection may pass from `self` to `next`: from connecting
    /// to online or to error, from online to closed, and from closed or
    /// error back to connecting.
    pub open spec fn may_become(self, next: ConnectionState) -> bool {
        match (self, next) {
            (ConnectionState::Connecting, ConnectionState::Online) => true,
            (ConnectionState::Connecting, ConnectionState::Error) => true,
            (ConnectionState::Online, ConnectionState::Closed) => true,
            (ConnectionState::Closed, ConnectionState::Connecting) => true,
            (ConnectionState::Error, ConnectionState::Connecting) => true,
            _ => false,
        }
    }

    /// The number under which the state is kept in the shared cell.
    pub fn code(self) -> (out: usize)
        ensures
            out == self.spec_code(),
            ConnectionState::spec_from_code(out) == Some(self),
    {
        match self {
            ConnectionState::Connecting => 0,
            ConnectionState::Online => 1,
            ConnectionState::Closed => 2,
            ConnectionState::Error => 3,
        }
    }

    /// The state that a number stands for, if it stands for one.
    pub fn from_code(code: usize) -> (out: Option<ConnectionState>)
        ensures
            out == ConnectionState::spec_from_code(code),
            out is Some <==> code <= 3,
    {
        match code {
            0 => Some(ConnectionState::Connecting),
            1 => Some(ConnectionState::Online),
            2 => Some(ConnectionState::Closed),
            3 => Some(ConnectionState::Error),
            _ => None,
        }
    }
}

/// Whether a load may be made with the given memory ordering.
pub open spec fn load_ordering(ord: Ordering) -> bool {
    ord is Relaxed || ord is Acquire || ord is SeqCst
}

/// Whether a store may be made with the given memory ordering.
pub open spec fn store_ordering(ord: Ordering) -> bool {
    ord is Relaxed || ord is Release || ord is SeqCst
}

/// A handle to the one cell that holds the connection's state. The task that
/// keeps the connection writes it; any thread may read it without waiting.
/// What a read returns depends on what other threads have stored, so no
/// contract speaks of it.
#[derive(Clone, Debug)]
pub struct ConnectionStateRes(Arc<AtomicUsize>);

impl ConnectionStateRes {
    /// A new cell that holds `state`.
    pub fn new(state: ConnectionState) -> Self {
        ConnectionStateRes(Arc::new(AtomicUsize::new(state.code())))
    }

    /// Stores `state` in the cell.
    pub fn store(&self, state: ConnectionState, ord: Ordering)
        requires
            store_ordering(ord),
    {
        self.0.store(state.code(), ord);
    }

    /// The state last stored: the number in the cell, read as `from_cell`
    /// reads it. Which number that is depends on what was stored last.
    pub fn load(&self, ord: Ordering) -> ConnectionState
        requires
            load_ordering(ord),
    {
        ConnectionState::from_cell(self.0.load(ord))
    }
}

impl ConnectionState {
    /// The state that a number read from the shared cell stands for: the
    /// state of that code, and `Error` for a number that is no state's code.
    pub open spec fn spec_from_cell(code: usize) -> ConnectionState {
        match ConnectionState::spec_from_code(code) {
            Some(state) => state,
            None => ConnectionState::Error,
        }
    }

    /// Turns a number read from the shared cell into a state. What `store`
    /// hands to the cell is a state's code, and that reads back as the state.
    pub fn from_cell(code: usize) -> (out: ConnectionState)
        ensures
            out == ConnectionState::spec_from_cell(code),
            code <= 3 ==> out.spec_code() == code,
            code > 3 ==> out == ConnectionState::Error,
    {
        match ConnectionState::from_code(code) {
            Some(state) => state,
            None => ConnectionState::Error,
        }
    }
}

} // verus!
