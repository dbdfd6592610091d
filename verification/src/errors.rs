//! Error taxonomy of the server core.

use vstd::prelude::*;

verus! {

/// Possible errors.
#[derive(Debug)]
pub enum Error {
    /// A non-local bind address requires a pre-shared token.
    NonLocalhostRequiresPreSharedToken,
    /// A transport-level error from the HTTP server, carried as text.
    Hyper(String),
    /// An I/O error, carried as text.
    Io(String),
    /// An error that occurred with an event stream.
    RxEvent,
}

} // verus!
