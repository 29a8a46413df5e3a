//! The acceptor that puts TLS on top of an inner acceptor.

use crate::config::BoringSSLConfig;
use crate::future::{AcceptState, BoringSSLSSLAcceptorFuture};
use crate::timeout::{HandshakeTimeout, DEFAULT_HANDSHAKE_SECS, NANOS_PER_SEC};
use vstd::prelude::*;

verus! {

/// The inner acceptor that hands a stream and its service on as they come.
#[derive(Clone, Copy, Debug, PartialEq, Eq)]
pub struct DefaultAcceptor;

impl DefaultAcceptor {
    /// The one value of this type.
    pub fn new() -> (acceptor: Self)
        ensures
            acceptor == DefaultAcceptor,
    {
        DefaultAcceptor
    }
}

/// An acceptor that lets the inner acceptor `A` accept a stream and then
/// runs a TLS handshake on it, under a deadline, with a context of type `C`.
pub struct BoringSSLAcceptor<C, A = DefaultAcceptor> {
    inner: A,
    config: BoringSSLConfig<C>,
    handshake_timeout: HandshakeTimeout,
}

impl<C> BoringSSLAcceptor<C> {
    /// An acceptor for `config` on top of the [`DefaultAcceptor`], with a
    /// deadline of ten seconds.
    pub fn new(config: BoringSSLConfig<C>) -> (acceptor: Self)
        ensures
            acceptor.configuration() == config,
            acceptor.deadline()@ == DEFAULT_HANDSHAKE_SECS * NANOS_PER_SEC,
            acceptor.inner_acceptor() == DefaultAcceptor,
    {
        let inner = DefaultAcceptor::new();
        let handshake_timeout = HandshakeTimeout::default();
        Self { inner, config, handshake_timeout }
    }
}

impl<C, A> BoringSSLAcceptor<C, A> {
    /// The configuration that every accept of this acceptor shares.
    pub closed spec fn configuration(self) -> BoringSSLConfig<C> {
        self.config
    }

    /// The deadline that every handshake of this acceptor is given.
    pub closed spec fn deadline(self) -> HandshakeTimeout {
        self.handshake_timeout
    }

    /// The acceptor underneath.
    pub closed spec fn inner_acceptor(self) -> A {
        self.inner
    }

    /// Gives every handshake `val` in place of the ten seconds that a new
    /// acceptor gives.
    pub fn handshake_timeout(self, val: HandshakeTimeout) -> (acceptor: Self)
        ensures
            acceptor.deadline() == val,
            acceptor.configuration() == self.configuration(),
            acceptor.inner_acceptor() == self.inner_acceptor(),
    {
        let mut acceptor = self;
        acceptor.handshake_timeout = val;
        acceptor
    }

    /// The state of a new accept: the inner accept is pending, and a handle
    /// to the shared configuration waits for it, with the deadline.
    pub fn accept<S>(&self) -> (future: BoringSSLSSLAcceptorFuture<C, S>)
        ensures
            future@ == AcceptState::<C, S>::start(self.configuration(), self.deadline()),
    {
        let config = self.config.clone();
        BoringSSLSSLAcceptorFuture::new(config, self.handshake_timeout)
    }

    /// The acceptor underneath, which is to accept the stream first.
    pub fn inner(&self) -> (inner: &A)
        ensures
            *inner == self.inner_acceptor(),
    {
        &self.inner
    }

    /// The deadline that every handshake of this acceptor is given. It is never zero.
    pub fn timeout(&self) -> (timeout: HandshakeTimeout)
        ensures
            timeout == self.deadline(),
            timeout@ > 0,
    {
        self.handshake_timeout.nonzero();
        self.handshake_timeout
    }
}

impl<C, A: Clone> Clone for BoringSSLAcceptor<C, A> {
    /// An acceptor with one more handle to the same configuration, the same
    /// deadline, and a clone of the inner acceptor.
    fn clone(&self) -> (acceptor: Self)
        ensures
            acceptor.configuration() == self.configuration(),
            acceptor.deadline() == self.deadline(),
            cloned::<A>(self.inner_acceptor(), acceptor.inner_acceptor()),
    {
        Self {
            inner: self.inner.clone(),
            config: self.config.clone(),
            handshake_timeout: self.handshake_timeout,
        }
    }
}

} // verus!
