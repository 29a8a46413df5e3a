//! The deadline of a handshake.

use vstd::prelude::*;

verus! {

/// Nanoseconds in one second.
pub const NANOS_PER_SEC: u32 = 1_000_000_000;

/// Whole seconds a peer is given for its handshake unless the acceptor is told otherwise.
pub const DEFAULT_HANDSHAKE_SECS: u64 = 10;

/// How long a peer may take over its handshake, as whole seconds and the
/// nanoseconds beyond them.
///
/// A value of this type is never zero, and its nanoseconds stay below one second.
#[derive(Clone, Copy, Debug, PartialEq, Eq)]
pub struct HandshakeTimeout {
    secs: u64,
    nanos: u32,
}

impl View for HandshakeTimeout {
    type V = nat;

    /// The whole span in nanoseconds.
    closed spec fn view(&self) -> nat {
        (self.secs * NANOS_PER_SEC + self.nanos) as nat
    }
}

impl HandshakeTimeout {
    #[verifier::type_invariant]
    spec fn inv(self) -> bool {
        self.nanos < NANOS_PER_SEC && (self.secs > 0 || self.nanos > 0)
    }

    /// Whether `secs` and `nanos` together name a span that a handshake can be given.
    pub open spec fn accepts(secs: u64, nanos: u32) -> bool {
        nanos < NANOS_PER_SEC && (secs > 0 || nanos > 0)
    }

    /// The span of `secs` seconds and `nanos` nanoseconds, unless it is empty
    /// or `nanos` reaches a full second.
    pub fn new(secs: u64, nanos: u32) -> (timeout: Option<Self>)
        ensures
            timeout is Some <==> Self::accepts(secs, nanos),
            timeout matches Some(t) ==> t@ == secs * NANOS_PER_SEC + nanos,
    {
        if nanos < NANOS_PER_SEC && (secs > 0 || nanos > 0) {
            Some(HandshakeTimeout { secs, nanos })
        } else {
            None
        }
    }

    /// The whole seconds of the span.
    pub fn as_secs(&self) -> (secs: u64)
        ensures
            secs == self@ / (NANOS_PER_SEC as nat),
    {
        proof {
            use_type_invariant(self);
        }
        self.secs
    }

    /// The nanoseconds beyond the whole seconds.
    pub fn subsec_nanos(&self) -> (nanos: u32)
        ensures
            nanos == self@ % (NANOS_PER_SEC as nat),
    {
        proof {
            use_type_invariant(self);
        }
        self.nanos
    }

    /// Lets the caller's proof know that the span is not zero. Does nothing when run.
    pub fn nonzero(&self)
        ensures
            self@ > 0,
    {
        proof {
            use_type_invariant(self);
        }
    }

    /// The whole span in nanoseconds, which is never zero.
    pub fn as_nanos(&self) -> (nanos: u128)
        ensures
            nanos == self@,
            nanos > 0,
    {
        proof {
            use_type_invariant(self);
        }
        let secs: u128 = self.secs as u128;
        let beyond: u128 = self.nanos as u128;
        secs * 1_000_000_000 + beyond
    }
}

impl Default for HandshakeTimeout {
    /// Ten seconds.
    fn default() -> (timeout: Self)
        ensures
            timeout@ == DEFAULT_HANDSHAKE_SECS * NANOS_PER_SEC,
    {
        HandshakeTimeout { secs: DEFAULT_HANDSHAKE_SECS, nanos: 0 }
    }
}

} // verus!
