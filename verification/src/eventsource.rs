//! Client-side event-source vocabulary: the connection status and ready
//! state of a browser's event-source connection, and the service value that
//! frontends hand around to open one.
//!
//! The connection itself lives in the browser; here stand the plain data
//! types and the mapping from the numeric ready-state codes that the
//! browser's event-source interface reports.

use vstd::prelude::*;

verus! {

/// A status of an event source connection. Used for status notification.
#[derive(Clone, Copy, PartialEq, Eq, Structural, Debug)]
pub enum EventSourceStatus {
    /// Fired when an event source connection was opened.
    Open,
    /// Fired when an event source connection had an error.
    Error,
}

/// The ready state of an event source connection.
#[derive(Clone, Copy, PartialEq, Eq, Structural, Debug)]
pub enum ReadyState {
    /// The connection is being established.
    Connecting,
    /// The connection is open.
    Open,
    /// The connection is closed.
    Closed,
}

/// The ready state encoded by a numeric code as the browser's event-source
/// interface reports it: 0 connecting, 1 open, 2 closed, nothing else.
pub open spec fn spec_ready_state(code: u16) -> Option<ReadyState> {
    if code == 0 {
        Some(ReadyState::Connecting)
    } else if code == 1 {
        Some(ReadyState::Open)
    } else if code == 2 {
        Some(ReadyState::Closed)
    } else {
        None
    }
}

impl ReadyState {
    /// Decode a numeric ready-state code.
    pub fn from_code(code: u16) -> (r: Option<ReadyState>)
        ensures
            r == spec_ready_state(code),
    {
        if code == 0 {
            Some(ReadyState::Connecting)
        } else if code == 1 {
            Some(ReadyState::Open)
        } else if code == 2 {
            Some(ReadyState::Closed)
        } else {
            None
        }
    }
}

/// An event source service attached to a user context.
#[derive(Debug)]
pub struct EventSourceService {}

impl EventSourceService {
    /// Creates a new service instance.
    pub fn new() -> (r: Self) {
        Self {  }
    }
}

} // verus!
