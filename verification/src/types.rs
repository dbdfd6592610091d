//! Identifiers and access tokens shared between the server core and its
//! embedding application.

use vstd::prelude::*;

verus! {

/// Identifier for each session (one per client browser): an opaque random
/// 128-bit value, carried between requests inside a signed cookie.
#[derive(Clone, Copy, PartialEq, Eq, Structural, Debug, Hash)]
pub struct SessionKey(pub u128);

impl SessionKey {
    /// Create a fresh random session key.
    ///
    /// Relies on `uuid::Uuid::new_v4` for randomness; nothing is assumed
    /// about the value that comes back.
    #[verifier::external_body]
    pub fn new() -> Self {
        SessionKey(uuid::Uuid::new_v4().as_u128())
    }
}

/// Identifier for each connected event-stream listener (one per client tab).
/// Allocated from a monotonically increasing 32-bit counter.
#[derive(Clone, Copy, PartialEq, Eq, Structural, Debug, Hash)]
pub struct ConnectionKey(pub u32);

/// Callback data from a connected client, paired with the session that sent
/// it.
#[derive(Clone, Debug)]
pub struct CallbackDataAndSession<T> {
    /// The callback data sent from the client.
    pub payload: T,
    /// The session key associated with the client.
    pub session_key: SessionKey,
}

/// A token which can be required to gain access to the HTTP API.
#[derive(Clone, Debug)]
pub enum AccessToken {
    /// No token needed (access must be controlled via other means).
    NoToken,
    /// A pre-shared token to gain access.
    PreSharedToken(Vec<u8>),
}

impl View for AccessToken {
    type V = Option<Seq<u8>>;

    open spec fn view(&self) -> Option<Seq<u8>> {
        match self {
            AccessToken::NoToken => None,
            AccessToken::PreSharedToken(s) => Some(s@),
        }
    }
}

/// Does the candidate `test` gain access under token requirement `t`? With no
/// token required everything matches; otherwise only the exact token does.
pub open spec fn spec_does_match(t: Option<Seq<u8>>, test: Seq<u8>) -> bool {
    match t {
        None => true,
        Some(s) => s == test,
    }
}

impl AccessToken {
    /// Check if the input matches this token requirement.
    pub fn does_match(&self, test: &[u8]) -> (r: bool)
        ensures
            r == spec_does_match(self@, test@),
    {
        match self {
            AccessToken::NoToken => true,
            AccessToken::PreSharedToken(s) => crate::util::bytes_eq(s.as_slice(), test),
        }
    }

    /// An exact copy of this token requirement.
    pub fn duplicate(&self) -> (r: Self)
        ensures
            r@ == self@,
    {
        match self {
            AccessToken::NoToken => AccessToken::NoToken,
            AccessToken::PreSharedToken(s) => {
                AccessToken::PreSharedToken(crate::util::to_vec(s.as_slice()))
            },
        }
    }
}

} // verus!
