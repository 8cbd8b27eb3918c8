//! The token policy: how long an issued token lives and the secret it is
//! signed with. A policy is built once and read from then on.

use vstd::prelude::*;

verus! {

/// Lifetime of a token, in seconds, where none is configured.
pub const DEFAULT_EXPIRES_IN: u32 = 3600;

/// Lifetime and signing secret of the tokens that a service issues.
pub struct Policy {
    expires_in: u32,
    secret: Vec<u8>,
}

impl Policy {
    /// The lifetime of a token in seconds.
    pub closed spec fn ttl(&self) -> u32 {
        self.expires_in
    }

    /// The bytes of the signing secret.
    pub closed spec fn key(&self) -> Seq<u8> {
        self.secret@
    }

    /// A policy with the given lifetime and secret.
    pub fn new(expires_in: u32, secret: Vec<u8>) -> (policy: Policy)
        ensures
            policy.ttl() == expires_in,
            policy.key() == secret@,
    {
        Policy { expires_in, secret }
    }

    /// Reads the lifetime.
    pub fn expires_in(&self) -> (seconds: u32)
        ensures
            seconds == self.ttl(),
    {
        self.expires_in
    }

    /// Reads the secret.
    pub fn secret(&self) -> (bytes: &Vec<u8>)
        ensures
            bytes@ == self.key(),
    {
        &self.secret
    }
}

impl Default for Policy {
    /// One hour of lifetime and the empty secret.
    fn default() -> (policy: Policy)
        ensures
            policy.ttl() == DEFAULT_EXPIRES_IN,
            policy.key() == Seq::<u8>::empty(),
    {
        Policy { expires_in: DEFAULT_EXPIRES_IN, secret: Vec::new() }
    }
}

} // verus!
