//! The decisions of a TLS-terminating acceptor, kept apart from the sockets,
//! the timers and the TLS back end that carry them out.
//!
//! Accepting a TLS connection takes two operations that suspend: the inner
//! accept of a raw stream, and then the handshake on it under a deadline. The
//! [`future`] module holds the state of one such accept. A driver polls the
//! pending operation, reports what it saw, and is told what to do next; the
//! [`trace`] module proves what holds of whole runs. The [`config`] module
//! lays out the steps by which the back end builds the context that all
//! connections share, and hands out a configuration only when every step,
//! the check of the private key among them, has been made.

pub mod acceptor;
pub mod config;
pub mod future;
pub mod server;
pub mod timeout;
pub mod trace;

pub use acceptor::{BoringSSLAcceptor, DefaultAcceptor};
pub use config::BoringSSLConfig;
pub use server::bind_boringssl;
pub use timeout::HandshakeTimeout;
