//! Types that control access to the HTTP API.
//!
//! A server bound to a loopback address may run open; any other bind address
//! requires a pre-shared token and a JWT secret at construction.

use vstd::prelude::*;

use crate::errors::Error;
use crate::types::AccessToken;

verus! {

/// A bind address held as plain data: either four IPv4 octets or eight IPv6
/// segments, with a port.
#[derive(Clone, Copy, Debug)]
pub enum BindAddr {
    /// An IPv4 socket address.
    V4 {
        /// The four address octets, most significant first.
        octets: [u8; 4],
        /// The TCP port.
        port: u16,
    },
    /// An IPv6 socket address.
    V6 {
        /// The eight 16-bit address segments, most significant first.
        segments: [u16; 8],
        /// The TCP port.
        port: u16,
    },
}

/// A loopback address: IPv4 127.0.0.0/8, or IPv6 ::1.
pub open spec fn spec_is_loopback(a: BindAddr) -> bool {
    match a {
        BindAddr::V4 { octets, .. } => octets[0] == 127u8,
        BindAddr::V6 { segments, .. } => {
            &&& forall|i: int| 0 <= i < 7 ==> segments[i] == 0u16
            &&& segments[7] == 1u16
        },
    }
}

impl BindAddr {
    /// Is this a loopback address?
    pub fn is_loopback(&self) -> (r: bool)
        ensures
            r == spec_is_loopback(*self),
    {
        match self {
            BindAddr::V4 { octets, .. } => octets[0] == 127,
            BindAddr::V6 { segments, .. } => {
                let mut all_zero = true;
                let mut i: usize = 0;
                while i < 7
                    invariant
                        0 <= i <= 7,
                        all_zero == (forall|j: int| 0 <= j < i ==> segments@[j] == 0u16),
                    decreases 7 - i,
                {
                    if segments[i] != 0 {
                        all_zero = false;
                    }
                    i += 1;
                }
                all_zero && segments[7] == 1
            },
        }
    }
}

/// The JWT signing secret.
#[derive(Clone, Debug)]
struct JwtSecret(Vec<u8>);

/// Data required to specify all auth information when access is restricted.
#[derive(Clone, Debug)]
pub struct AccessInfo {
    addr: BindAddr,
    access_token: AccessToken,
    jwt_secret: JwtSecret,
}

impl AccessInfo {
    /// The bind address held here.
    pub closed spec fn spec_addr(&self) -> BindAddr {
        self.addr
    }

    /// The token requirement held here.
    pub closed spec fn spec_token(&self) -> Option<Seq<u8>> {
        self.access_token@
    }

    /// The JWT secret held here.
    pub closed spec fn spec_secret(&self) -> Seq<u8> {
        self.jwt_secret.0@
    }

    /// Build access information; a pre-shared token is required.
    pub(crate) fn new(addr: BindAddr, access_token: AccessToken, jwt_secret: Vec<u8>) -> (r:
        Result<Self, Error>)
        ensures
            match r {
                Ok(info) => {
                    &&& access_token@ is Some
                    &&& info.spec_addr() == addr
                    &&& info.spec_token() == access_token@
                    &&& info.spec_secret() == jwt_secret@
                },
                Err(e) => {
                    &&& access_token@ is None
                    &&& e is NonLocalhostRequiresPreSharedToken
                },
            },
    {
        match access_token {
            AccessToken::PreSharedToken(tok) => Ok(Self {
                addr,
                access_token: AccessToken::PreSharedToken(tok),
                jwt_secret: JwtSecret(jwt_secret),
            }),
            AccessToken::NoToken => Err(Error::NonLocalhostRequiresPreSharedToken),
        }
    }
}

/// Access control method for the HTTP API.
#[derive(Clone, Debug)]
pub enum AccessControl {
    /// Access is not restricted (for use with local addresses).
    Insecure(BindAddr),
    /// Access is restricted.
    WithToken(AccessInfo),
}

/// The token requirement of an access-control value.
pub open spec fn spec_auth_token(a: &AccessControl) -> Option<Seq<u8>> {
    match a {
        AccessControl::Insecure(_) => None,
        AccessControl::WithToken(info) => info.spec_token(),
    }
}

/// The JWT secret of an access-control value; without a token a fixed
/// sentinel secret is used (authentication is not needed there, but cookies
/// are still issued so that later requests stay session-stable).
pub open spec fn spec_auth_secret(a: &AccessControl) -> Seq<u8> {
    match a {
        AccessControl::Insecure(_) => spec_insecure_secret(),
        AccessControl::WithToken(info) => info.spec_secret(),
    }
}

/// The sentinel secret used when access is open: the bytes of "insecure".
pub open spec fn spec_insecure_secret() -> Seq<u8> {
    seq![0x69u8, 0x6eu8, 0x73u8, 0x65u8, 0x63u8, 0x75u8, 0x72u8, 0x65u8]
}

/// The bind address of an access-control value.
pub open spec fn spec_auth_addr(a: &AccessControl) -> BindAddr {
    match a {
        AccessControl::Insecure(addr) => *addr,
        AccessControl::WithToken(info) => info.spec_addr(),
    }
}

impl AccessControl {
    /// The address to bind the server to.
    pub fn bind_addr(&self) -> (r: BindAddr)
        ensures
            r == spec_auth_addr(self),
    {
        match self {
            AccessControl::Insecure(addr) => *addr,
            AccessControl::WithToken(info) => info.addr,
        }
    }

    /// The token requirement.
    pub fn token(&self) -> (r: AccessToken)
        ensures
            r@ == spec_auth_token(self),
    {
        match self {
            AccessControl::Insecure(_) => AccessToken::NoToken,
            AccessControl::WithToken(info) => info.access_token.duplicate(),
        }
    }

    /// The JWT secret used to sign session cookies.
    pub fn jwt_secret(&self) -> (r: Vec<u8>)
        ensures
            r@ == spec_auth_secret(self),
    {
        match self {
            AccessControl::Insecure(_) => {
                let mut v: Vec<u8> = Vec::new();
                v.push(0x69);
                v.push(0x6e);
                v.push(0x73);
                v.push(0x65);
                v.push(0x63);
                v.push(0x75);
                v.push(0x72);
                v.push(0x65);
                assert(v@ =~= spec_insecure_secret());
                v
            },
            AccessControl::WithToken(info) => crate::util::to_vec(info.jwt_secret.0.as_slice()),
        }
    }
}

} // verus!
