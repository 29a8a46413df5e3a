//! The two phases of accepting one connection: first the inner accept, then
//! the handshake under its deadline.

use crate::config::BoringSSLConfig;
use crate::timeout::HandshakeTimeout;
use vstd::prelude::*;

verus! {

/// Why a connection was not accepted.
#[derive(Debug, PartialEq, Eq)]
pub enum AcceptError<E> {
    /// The inner accept failed with this error.
    Inner(E),
    /// No session could be opened on the accepted stream.
    Session(String),
    /// The handshake failed before its deadline.
    Handshake(String),
    /// The deadline passed before the handshake was done.
    TimedOut,
}

/// What the driver saw when it polled the pending operation.
#[derive(Debug, PartialEq, Eq)]
pub enum AcceptEvent<R, S, T, E> {
    /// The inner accept is not ready.
    InnerPending,
    /// The inner accept gave a raw stream and the service that goes with it.
    InnerAccepted(R, S),
    /// The inner accept failed.
    InnerFailed(E),
    /// The back end could not open a session on the raw stream.
    SessionFailed(String),
    /// The handshake is not ready and its deadline has not passed.
    HandshakePending,
    /// The handshake was done before its deadline.
    HandshakeCompleted(T),
    /// The handshake failed before its deadline.
    HandshakeFailed(String),
    /// The deadline passed first.
    HandshakeTimedOut,
}

/// What the driver has to do next.
#[derive(Debug, PartialEq, Eq)]
pub enum AcceptAction<C, R, S, T, E> {
    /// Hand control back to the scheduler until the pending operation wakes the task.
    Suspend,
    /// Open a session of `config` on `stream`, start its handshake under
    /// `handshake_timeout`, and poll it without suspending in between.
    BeginHandshake { config: BoringSSLConfig<C>, stream: R, handshake_timeout: HandshakeTimeout },
    /// Resolve with this result.
    Resolve(Result<(T, S), AcceptError<E>>),
}

/// The state of one accept as contracts see it.
pub enum AcceptState<C, S> {
    /// The inner accept is pending; the configuration waits to be handed out.
    InnerAccepting { config: BoringSSLConfig<C>, handshake_timeout: HandshakeTimeout },
    /// The handshake is pending; `service` is kept until it is handed out with
    /// the encrypted stream.
    TlsAccepting { service: Option<S> },
}

impl<C, S> AcceptState<C, S> {
    /// The state in which every accept begins.
    pub open spec fn start(config: BoringSSLConfig<C>, handshake_timeout: HandshakeTimeout) -> Self {
        AcceptState::InnerAccepting { config, handshake_timeout }
    }

    /// Whether `event` can come from the operation that is pending in this state.
    pub open spec fn admits<R, T, E>(self, event: AcceptEvent<R, S, T, E>) -> bool {
        match self {
            AcceptState::InnerAccepting { .. } => {
                event is InnerPending || event is InnerAccepted || event is InnerFailed
            },
            AcceptState::TlsAccepting { service } => {
                event is SessionFailed || event is HandshakePending || event is HandshakeFailed
                    || event is HandshakeTimedOut || (event is HandshakeCompleted
                    && service is Some)
            },
        }
    }

    /// The state after `event`.
    pub open spec fn step<R, T, E>(self, event: AcceptEvent<R, S, T, E>) -> Self {
        match (self, event) {
            (AcceptState::InnerAccepting { .. }, AcceptEvent::InnerAccepted(_, service)) => {
                AcceptState::TlsAccepting { service: Some(service) }
            },
            (AcceptState::TlsAccepting { .. }, AcceptEvent::HandshakeCompleted(_)) => {
                AcceptState::TlsAccepting { service: None }
            },
            _ => self,
        }
    }

    /// What the driver is told to do on `event`.
    pub open spec fn action<R, T, E>(self, event: AcceptEvent<R, S, T, E>) -> AcceptAction<
        C,
        R,
        S,
        T,
        E,
    > {
        match event {
            AcceptEvent::InnerPending | AcceptEvent::HandshakePending => AcceptAction::Suspend,
            AcceptEvent::InnerAccepted(stream, _) => AcceptAction::BeginHandshake {
                config: self->config,
                stream,
                handshake_timeout: self->handshake_timeout,
            },
            AcceptEvent::InnerFailed(e) => AcceptAction::Resolve(Err(AcceptError::Inner(e))),
            AcceptEvent::SessionFailed(cause) => AcceptAction::Resolve(
                Err(AcceptError::Session(cause)),
            ),
            AcceptEvent::HandshakeCompleted(stream) => AcceptAction::Resolve(
                Ok((stream, self->service->0)),
            ),
            AcceptEvent::HandshakeFailed(cause) => AcceptAction::Resolve(
                Err(AcceptError::Handshake(cause)),
            ),
            AcceptEvent::HandshakeTimedOut => AcceptAction::Resolve(Err(AcceptError::TimedOut)),
        }
    }
}

enum AcceptFuture<S> {
    InnerAccepting { handshake_timeout: HandshakeTimeout },
    TlsAccepting { service: Option<S> },
}

/// One accept in flight: the phase it is in, and the configuration until the
/// handshake begins.
pub struct BoringSSLSSLAcceptorFuture<C, S> {
    inner: AcceptFuture<S>,
    config: Option<BoringSSLConfig<C>>,
}

impl<C, S> View for BoringSSLSSLAcceptorFuture<C, S> {
    type V = AcceptState<C, S>;

    closed spec fn view(&self) -> AcceptState<C, S> {
        match self.inner {
            AcceptFuture::InnerAccepting { handshake_timeout } => AcceptState::InnerAccepting {
                config: self.config->0,
                handshake_timeout,
            },
            AcceptFuture::TlsAccepting { service } => AcceptState::TlsAccepting { service },
        }
    }
}

impl<C, S> BoringSSLSSLAcceptorFuture<C, S> {
    #[verifier::type_invariant]
    spec fn inv(self) -> bool {
        self.inner is InnerAccepting <==> self.config is Some
    }

    /// An accept whose inner accept is pending.
    pub fn new(config: BoringSSLConfig<C>, handshake_timeout: HandshakeTimeout) -> (future: Self)
        ensures
            future@ == AcceptState::<C, S>::start(config, handshake_timeout),
    {
        let inner = AcceptFuture::InnerAccepting { handshake_timeout };
        let config = Some(config);
        Self { inner, config }
    }

    /// Whether the inner accept is the operation to poll; if not, it is the handshake.
    pub fn is_inner_accepting(&self) -> (inner: bool)
        ensures
            inner == (self@ is InnerAccepting),
    {
        match &self.inner {
            AcceptFuture::InnerAccepting { .. } => true,
            AcceptFuture::TlsAccepting { .. } => false,
        }
    }

    /// Whether `event` can be taken in this state.
    pub fn admits<R, T, E>(&self, event: &AcceptEvent<R, S, T, E>) -> (admitted: bool)
        ensures
            admitted == self@.admits(*event),
    {
        match &self.inner {
            AcceptFuture::InnerAccepting { .. } => match event {
                AcceptEvent::InnerPending => true,
                AcceptEvent::InnerAccepted(_, _) => true,
                AcceptEvent::InnerFailed(_) => true,
                _ => false,
            },
            AcceptFuture::TlsAccepting { service } => match event {
                AcceptEvent::SessionFailed(_) => true,
                AcceptEvent::HandshakePending => true,
                AcceptEvent::HandshakeFailed(_) => true,
                AcceptEvent::HandshakeTimedOut => true,
                AcceptEvent::HandshakeCompleted(_) => service.is_some(),
                _ => false,
            },
        }
    }

    /// Takes what the driver saw and says what it has to do next.
    pub fn poll<R, T, E>(&mut self, event: AcceptEvent<R, S, T, E>) -> (action: AcceptAction<
        C,
        R,
        S,
        T,
        E,
    >)
        requires
            old(self)@.admits(event),
        ensures
            final(self)@ == old(self)@.step(event),
            action == old(self)@.action(event),
    {
        proof {
            use_type_invariant(&*self);
        }
        match event {
            AcceptEvent::InnerPending => AcceptAction::Suspend,
            AcceptEvent::InnerAccepted(stream, service) => {
                let mut taken = Self {
                    inner: AcceptFuture::TlsAccepting { service: Some(service) },
                    config: None,
                };
                core::mem::swap(self, &mut taken);
                let Self { inner, config } = taken;
                match (inner, config) {
                    (AcceptFuture::InnerAccepting { handshake_timeout }, Some(config)) => {
                        AcceptAction::BeginHandshake { config, stream, handshake_timeout }
                    },
                    _ => unreached(),
                }
            },
            AcceptEvent::InnerFailed(e) => AcceptAction::Resolve(Err(AcceptError::Inner(e))),
            AcceptEvent::SessionFailed(cause) => AcceptAction::Resolve(
                Err(AcceptError::Session(cause)),
            ),
            AcceptEvent::HandshakePending => AcceptAction::Suspend,
            AcceptEvent::HandshakeCompleted(stream) => {
                let mut taken = Self {
                    inner: AcceptFuture::TlsAccepting { service: None },
                    config: None,
                };
                core::mem::swap(self, &mut taken);
                let Self { inner, config } = taken;
                match inner {
                    AcceptFuture::TlsAccepting { service: Some(service) } => AcceptAction::Resolve(
                        Ok((stream, service)),
                    ),
                    _ => unreached(),
                }
            },
            AcceptEvent::HandshakeFailed(cause) => AcceptAction::Resolve(
                Err(AcceptError::Handshake(cause)),
            ),
            AcceptEvent::HandshakeTimedOut => AcceptAction::Resolve(Err(AcceptError::TimedOut)),
        }
    }
}

} // verus!
