//! A server before it is started: where it will listen, and the acceptor
//! that every connection will go through.

use crate::acceptor::{BoringSSLAcceptor, DefaultAcceptor};
use crate::config::BoringSSLConfig;
use crate::timeout::{DEFAULT_HANDSHAKE_SECS, NANOS_PER_SEC};
use vstd::prelude::*;

verus! {

/// The address `L` to listen on, and the acceptor `A` for the connections that come in.
pub struct Server<L, A = DefaultAcceptor> {
    addr: L,
    acceptor: A,
}

impl<L> Server<L> {
    /// A server for `addr` that takes connections as they come.
    pub fn bind(addr: L) -> (server: Self)
        ensures
            server@ == (addr, DefaultAcceptor),
    {
        Server { addr, acceptor: DefaultAcceptor::new() }
    }
}

impl<L, A> View for Server<L, A> {
    type V = (L, A);

    /// The address and the acceptor.
    closed spec fn view(&self) -> (L, A) {
        (self.addr, self.acceptor)
    }
}

impl<L, A> Server<L, A> {
    /// The same server with `acceptor` in place of the acceptor it had.
    pub fn acceptor<B>(self, acceptor: B) -> (server: Server<L, B>)
        ensures
            server@ == (self@.0, acceptor),
    {
        Server { addr: self.addr, acceptor }
    }

    /// The address and the acceptor, for the loop that listens and serves.
    pub fn into_parts(self) -> (parts: (L, A))
        ensures
            parts == self@,
    {
        (self.addr, self.acceptor)
    }
}

/// A TLS server for `addr`: every connection that comes in goes through a
/// new [`BoringSSLAcceptor`] for `config`.
pub fn bind_boringssl<L, C>(addr: L, config: BoringSSLConfig<C>) -> (server: Server<
    L,
    BoringSSLAcceptor<C>,
>)
    ensures
        server@.0 == addr,
        server@.1.configuration() == config,
        server@.1.deadline()@ == DEFAULT_HANDSHAKE_SECS * NANOS_PER_SEC,
        server@.1.inner_acceptor() == DefaultAcceptor,
{
    let acceptor = BoringSSLAcceptor::new(config);

    Server::bind(addr).acceptor(acceptor)
}

} // verus!
