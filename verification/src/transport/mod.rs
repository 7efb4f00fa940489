//! Transport layer abstraction.
//!
//! This module provides a `Transport` trait that abstracts over raw TCP
//! and TLS-encrypted connections, allowing protocol implementations
//! to work with either.
use vstd::prelude::*;

mod plain;
mod tls;

pub use plain::{unsent, PlainTransport, PlainTransportView};
pub use tls::{
    extends, server_name_accepted, tls_output_added, tls_processed, TlsConfig, TlsTransport,
    TlsTransportView,
};

verus! {

/// Transport state.
#[derive(Debug, Clone, Copy, PartialEq, Eq, Structural)]
pub enum TransportState {
    /// Transport is performing handshake (TLS only).
    Handshaking,
    /// Transport is ready for application data.
    Ready,
    /// Transport encountered an error.
    Error,
    /// Transport is closed.
    Closed,
}

/// Abstraction over raw TCP and TLS transports.
///
/// This trait provides a completion-based interface for sending and
/// receiving data.
pub trait Transport {
    /// The bytes that `send` has taken so far, in order. Each transport
    /// defines it; nothing is known of it for a transport that does not.
    closed spec fn accepted(&self) -> Seq<u8> {
        Seq::empty()
    }

    /// Whether `send` now takes all of `len` bytes. Each transport defines
    /// when; nothing is promised of a transport that does not.
    closed spec fn takes_all(&self, len: nat) -> bool {
        false
    }

    /// The bytes waiting to go out on the socket. Each transport defines
    /// it; nothing is known of it for a transport that does not.
    closed spec fn pending_bytes(&self) -> Seq<u8> {
        Seq::empty()
    }

    /// Get the current transport state.
    fn state(&self) -> TransportState;

    /// Check if the transport is ready for application data.
    fn is_ready(&self) -> bool {
        self.state() == TransportState::Ready
    }

    /// Queue data to be sent.
    ///
    /// Returns the number of bytes queued, at most the length of `data`, or
    /// `WouldBlock` if the send buffer is full.
    fn send(&mut self, data: &[u8]) -> (r: std::io::Result<usize>)
        ensures
            r matches Ok(n) ==> n <= data@.len(),
            r matches Ok(n) ==> final(self).accepted() == old(self).accepted() + data@.take(
                n as int,
            ),
            r is Err ==> exists|k: int|
                0 <= k <= data@.len() && final(self).accepted() == old(self).accepted()
                    + data@.take(k),
            old(self).takes_all(data@.len()) ==> (r matches Ok(n) && n == data@.len()),
    ;

    /// Read available decrypted data into `buf`.
    ///
    /// Returns the number of bytes read, at most the length of `buf`, or
    /// `WouldBlock` if no data is available.
    fn recv(&mut self, buf: &mut [u8]) -> (r: std::io::Result<usize>)
        ensures
            final(buf)@.len() == old(buf)@.len(),
            r matches Ok(n) ==> n <= old(buf)@.len(),
            final(self).accepted() == old(self).accepted(),
    ;

    /// Process raw data received from the socket.
    ///
    /// For TLS, this decrypts the data. For plain, this just buffers it.
    fn on_recv(&mut self, data: &[u8]) -> (r: std::io::Result<()>)
        ensures
            final(self).accepted() == old(self).accepted(),
    ;

    /// Get data that needs to be sent on the socket.
    ///
    /// For TLS, this returns encrypted data. For plain, this returns
    /// the queued application data.
    fn pending_send(&self) -> (r: &[u8])
        ensures
            r@ == self.pending_bytes(),
    ;

    /// Mark bytes as sent on the socket: the first `n` pending bytes, or
    /// all of them, are dropped.
    fn advance_send(&mut self, n: usize)
        ensures
            final(self).accepted() == old(self).accepted(),
            final(self).pending_bytes() == if n < old(self).pending_bytes().len() {
                old(self).pending_bytes().skip(n as int)
            } else {
                Seq::<u8>::empty()
            },
    ;

    /// Check if there's pending data to send.
    fn has_pending_send(&self) -> (r: bool)
        ensures
            r == (self.pending_bytes().len() > 0),
    {
        self.pending_send().len() > 0
    }

    /// Initiate shutdown.
    fn shutdown(&mut self) -> (r: std::io::Result<()>)
        ensures
            final(self).accepted() == old(self).accepted(),
    ;
}

/// Result of processing incoming data.
#[derive(Debug, Clone, Copy, PartialEq, Eq, Structural)]
pub enum ProcessResult {
    /// Need more data to continue.
    NeedMoreData,
    /// Have application data ready to read.
    DataReady,
    /// Handshake completed (TLS only).
    HandshakeComplete,
    /// Connection is closing.
    Closing,
}

} // verus!
