//! Plain (unencrypted) transport for testing and cleartext protocols.
use vstd::prelude::*;
use bytes::BytesMut;
use crate::buf::{
    bytes_mut_as_slice, bytes_mut_clear, bytes_mut_extend, bytes_mut_len, bytes_mut_seq,
    bytes_mut_split_to, bytes_mut_with_capacity,
};
use crate::io::{io_error_from_kind, io_error_kind, io_error_new, IoErrorKind};
use super::{Transport, TransportState};

verus! {

/// A plain transport as plain values.
pub struct PlainTransportView {
    pub state: TransportState,
    /// Bytes received and not yet read.
    pub received: Seq<u8>,
    /// Bytes queued and not yet handed to the socket.
    pub pending: Seq<u8>,
}

/// Plain TCP transport without encryption.
///
/// This is useful for testing protocol framing without TLS overhead,
/// or for cleartext connections (h2c, plain RESP, etc.).
pub struct PlainTransport {
    /// State of the transport.
    state: TransportState,
    /// Buffer for incoming data.
    recv_buf: BytesMut,
    /// Buffer for outgoing data.
    send_buf: BytesMut,
    /// How much of send_buf has been sent.
    send_pos: usize,
    /// Every byte `send` has queued, in order.
    accepted: Ghost<Seq<u8>>,
}

/// The bytes of `buf` from position `pos` on.
pub open spec fn unsent(buf: Seq<u8>, pos: usize) -> Seq<u8> {
    if pos <= buf.len() {
        buf.skip(pos as int)
    } else {
        Seq::empty()
    }
}

impl View for PlainTransport {
    type V = PlainTransportView;

    closed spec fn view(&self) -> PlainTransportView {
        PlainTransportView {
            state: self.state,
            received: bytes_mut_seq(self.recv_buf),
            pending: unsent(bytes_mut_seq(self.send_buf), self.send_pos),
        }
    }
}

impl PlainTransport {
    /// Create a new plain transport.
    pub fn new() -> (r: Self)
        ensures
            r@.state == TransportState::Ready,
            r@.received.len() == 0,
            r@.pending.len() == 0,
    {
        Self {
            state: TransportState::Ready,  // Plain transport is immediately ready
            recv_buf: bytes_mut_with_capacity(16384),
            send_buf: bytes_mut_with_capacity(16384),
            send_pos: 0,
            accepted: Ghost(Seq::empty()),
        }
    }
}

impl Default for PlainTransport {
    fn default() -> (r: Self)
        ensures
            r@.state == TransportState::Ready,
            r@.received.len() == 0,
            r@.pending.len() == 0,
    {
        Self::new()
    }
}

impl Transport for PlainTransport {
    closed spec fn accepted(&self) -> Seq<u8> {
        self.accepted@
    }

    /// A ready plain transport takes everything while its buffer stays
    /// within `isize::MAX` bytes.
    closed spec fn takes_all(&self, len: nat) -> bool {
        self.state == TransportState::Ready && bytes_mut_seq(self.send_buf).len() + len
            <= isize::MAX
    }

    closed spec fn pending_bytes(&self) -> Seq<u8> {
        self@.pending
    }

    fn state(&self) -> (r: TransportState)
        ensures
            r == self@.state,
    {
        self.state
    }

    /// Queues all of `data` while the transport is ready; a send buffer that
    /// would outgrow `isize::MAX` bytes is full.
    fn send(&mut self, data: &[u8]) -> (r: std::io::Result<usize>)
        ensures
            old(self)@.state != TransportState::Ready ==> {
                &&& r is Err
                &&& io_error_kind(r->Err_0) == IoErrorKind::NotConnected
                &&& final(self)@ == old(self)@
            },
            old(self)@.state == TransportState::Ready ==> match r {
                Ok(n) => {
                    &&& n == data@.len()
                    &&& final(self)@ == (PlainTransportView {
                        pending: old(self)@.pending + data@,
                        ..old(self)@
                    })
                },
                Err(e) => {
                    &&& io_error_kind(e) == IoErrorKind::WouldBlock
                    &&& final(self)@ == old(self)@
                },
            },
    {
        proof {
            assert(self.accepted@ + data@.take(0) =~= self.accepted@);
        }
        if self.state != TransportState::Ready {
            return Err(io_error_new(IoErrorKind::NotConnected, "transport not ready"));
        }
        let used = bytes_mut_len(&self.send_buf);
        if used > isize::MAX as usize || data.len() > isize::MAX as usize - used {
            return Err(io_error_from_kind(IoErrorKind::WouldBlock));
        }
        if self.send_pos > bytes_mut_len(&self.send_buf) {
            // Nothing is pending: start the buffer afresh.
            self.send_pos = 0;
            bytes_mut_clear(&mut self.send_buf);
        }
        let ghost before = bytes_mut_seq(self.send_buf);
        bytes_mut_extend(&mut self.send_buf, data);
        proof {
            assert((before + data@).skip(self.send_pos as int) =~= before.skip(self.send_pos as int)
                + data@);
            assert(data@.take(data@.len() as int) =~= data@);
        }
        self.accepted = Ghost(self.accepted@ + data@);
        Ok(data.len())
    }

    /// Reads as many received bytes as fit in `buf`.
    fn recv(&mut self, buf: &mut [u8]) -> (r: std::io::Result<usize>)
        ensures
            final(buf)@.len() == old(buf)@.len(),
            r matches Ok(n) ==> n <= old(buf)@.len(),
            old(self)@.state != TransportState::Ready ==> {
                &&& r is Err
                &&& io_error_kind(r->Err_0) == IoErrorKind::NotConnected
                &&& final(self)@ == old(self)@
            },
            old(self)@.state == TransportState::Ready && old(self)@.received.len() == 0 ==> {
                &&& r is Err
                &&& io_error_kind(r->Err_0) == IoErrorKind::WouldBlock
                &&& final(self)@ == old(self)@
            },
            old(self)@.state == TransportState::Ready && old(self)@.received.len() > 0 ==> {
                let n = if old(buf)@.len() < old(self)@.received.len() {
                    old(buf)@.len()
                } else {
                    old(self)@.received.len()
                };
                &&& r == Ok::<usize, std::io::Error>(n as usize)
                &&& final(buf)@ == old(self)@.received.take(n as int) + old(buf)@.skip(n as int)
                &&& final(self)@ == (PlainTransportView {
                    received: old(self)@.received.skip(n as int),
                    ..old(self)@
                })
            },
    {
        if self.state != TransportState::Ready {
            return Err(io_error_new(IoErrorKind::NotConnected, "transport not ready"));
        }
        let available = bytes_mut_len(&self.recv_buf);
        if available == 0 {
            return Err(io_error_from_kind(IoErrorKind::WouldBlock));
        }
        let n = if buf.len() < available {
            buf.len()
        } else {
            available
        };
        let src = bytes_mut_as_slice(&self.recv_buf);
        let ghost b0 = buf@;
        let mut i: usize = 0;
        while i < n
            invariant
                i <= n,
                n <= src@.len(),
                n <= b0.len(),
                buf@.len() == b0.len(),
                forall|j: int| 0 <= j < i ==> buf@[j] == src@[j],
                forall|j: int| i <= j < b0.len() ==> buf@[j] == b0[j],
            decreases n - i,
        {
            buf[i] = src[i];
            i = i + 1;
        }
        proof {
            assert(buf@ =~= src@.take(n as int) + b0.skip(n as int));
        }
        // Remove read bytes
        let _ = bytes_mut_split_to(&mut self.recv_buf, n);
        Ok(n)
    }

    /// Buffers the data; a receive buffer that would outgrow `isize::MAX`
    /// bytes refuses it with `WouldBlock`.
    fn on_recv(&mut self, data: &[u8]) -> (r: std::io::Result<()>)
        ensures
            r is Ok ==> final(self)@ == (PlainTransportView {
                received: old(self)@.received + data@,
                ..old(self)@
            }),
            r is Err ==> final(self)@ == old(self)@ && io_error_kind(r->Err_0)
                == IoErrorKind::WouldBlock,
            r is Err <==> old(self)@.received.len() + data@.len() > isize::MAX,
    {
        let used = bytes_mut_len(&self.recv_buf);
        if used > isize::MAX as usize || data.len() > isize::MAX as usize - used {
            return Err(io_error_from_kind(IoErrorKind::WouldBlock));
        }
        bytes_mut_extend(&mut self.recv_buf, data);
        Ok(())
    }

    fn pending_send(&self) -> (r: &[u8])
        ensures
            r@ == self@.pending,
    {
        let len = bytes_mut_len(&self.send_buf);
        let start = if self.send_pos <= len {
            self.send_pos
        } else {
            len
        };
        let r = vstd::slice::slice_subrange(bytes_mut_as_slice(&self.send_buf), start, len);
        proof {
            if self.send_pos > len {
                assert(r@ =~= Seq::<u8>::empty());
            }
        }
        r
    }

    /// Drops the first `n` pending bytes; once all are sent the buffer is
    /// cleared.
    fn advance_send(&mut self, n: usize)
        ensures
            final(self)@.state == old(self)@.state,
            final(self)@.received == old(self)@.received,
            final(self)@.pending == if n >= old(self)@.pending.len() {
                Seq::<u8>::empty()
            } else {
                old(self)@.pending.skip(n as int)
            },
    {
        let len = bytes_mut_len(&self.send_buf);
        if self.send_pos >= len || n >= len - self.send_pos {
            // All data sent: clear the buffer
            self.send_pos = 0;
            bytes_mut_clear(&mut self.send_buf);
        } else {
            let ghost b = bytes_mut_seq(self.send_buf);
            let ghost p = self.send_pos;
            self.send_pos = self.send_pos + n;
            proof {
                assert(b.skip((p + n) as int) =~= b.skip(p as int).skip(n as int));
            }
        }
    }

    fn shutdown(&mut self) -> (r: std::io::Result<()>)
        ensures
            r is Ok,
            final(self)@ == (PlainTransportView { state: TransportState::Closed, ..old(self)@ }),
    {
        self.state = TransportState::Closed;
        Ok(())
    }
}

} // verus!
