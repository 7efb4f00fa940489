//! HTTP/2 stream state tracking.
use vstd::prelude::*;
pub use crate::frame::StreamId;
use super::flow_control::MAX_WINDOW_SIZE;

verus! {

/// Stream state (RFC 7540 Section 5.1).
#[derive(Debug, Clone, Copy, PartialEq, Eq, Structural)]
pub enum StreamState {
    /// Stream is idle (not yet used).
    Idle,
    /// Reserved for server push (we don't use this as a client).
    ReservedRemote,
    /// Stream is open (can send and receive).
    Open,
    /// Half-closed (local) - we've sent END_STREAM.
    HalfClosedLocal,
    /// Half-closed (remote) - peer sent END_STREAM.
    HalfClosedRemote,
    /// Stream is closed.
    Closed,
}

impl StreamState {
    /// Whether data may be sent in this state.
    pub open spec fn sendable(self) -> bool {
        self == StreamState::Open || self == StreamState::HalfClosedRemote
    }

    /// Whether data may be received in this state.
    pub open spec fn receivable(self) -> bool {
        self == StreamState::Open || self == StreamState::HalfClosedLocal
    }

    /// The state after we send END_STREAM.
    pub open spec fn after_send_end(self) -> StreamState {
        match self {
            StreamState::Open => StreamState::HalfClosedLocal,
            StreamState::HalfClosedRemote => StreamState::Closed,
            other => other,
        }
    }

    /// The state after the peer sends END_STREAM.
    pub open spec fn after_recv_end(self) -> StreamState {
        match self {
            StreamState::Open => StreamState::HalfClosedRemote,
            StreamState::HalfClosedLocal => StreamState::Closed,
            other => other,
        }
    }
}

/// An HTTP/2 stream.
#[derive(Debug)]
pub struct Stream {
    /// Stream identifier.
    id: StreamId,
    /// Current state.
    state: StreamState,
    /// Send-side flow control window.
    send_window: i32,
    /// Receive-side flow control window.
    recv_window: i32,
    /// Bytes received (for window updates).
    bytes_received: u32,
}

/// The state of a stream, as plain values.
pub struct StreamView {
    pub id: u32,
    pub state: StreamState,
    pub send_window: i32,
    pub recv_window: i32,
    pub bytes_received: u32,
}

impl View for Stream {
    type V = StreamView;

    closed spec fn view(&self) -> StreamView {
        StreamView {
            id: self.id.0,
            state: self.state,
            send_window: self.send_window,
            recv_window: self.recv_window,
            bytes_received: self.bytes_received,
        }
    }
}

impl StreamView {
    /// Whether sending `size` bytes keeps the send window within `i32`.
    pub open spec fn can_send_data(self, size: u32) -> bool {
        i32::MIN <= self.send_window - (size as i32) <= i32::MAX
    }

    /// Whether receiving `size` bytes keeps the counters within range.
    pub open spec fn can_recv_data(self, size: u32) -> bool {
        &&& i32::MIN <= self.recv_window - (size as i32) <= i32::MAX
        &&& self.bytes_received + size <= u32::MAX
    }

    /// Whether a WINDOW_UPDATE increment fits in the send window.
    pub open spec fn can_increase_send(self, increment: u32) -> bool {
        self.send_window + increment <= MAX_WINDOW_SIZE
    }

    /// Whether a SETTINGS change of the send window stays within `i32`.
    pub open spec fn can_adjust_send(self, delta: i32) -> bool {
        i32::MIN <= self.send_window + delta <= i32::MAX
    }
}

impl Stream {
    /// Create a new stream.
    pub fn new(id: StreamId, initial_window_size: u32) -> (r: Self)
        ensures
            r@ == (StreamView {
                id: id.0,
                state: StreamState::Open,
                send_window: initial_window_size as i32,
                recv_window: initial_window_size as i32,
                bytes_received: 0,
            }),
    {
        Stream {
            id,
            state: StreamState::Open,
            send_window: initial_window_size as i32,
            recv_window: initial_window_size as i32,
            bytes_received: 0,
        }
    }

    /// Get the stream ID.
    pub fn id(&self) -> (r: StreamId)
        ensures
            r.0 == self@.id,
    {
        self.id
    }

    /// Get the stream state.
    pub fn state(&self) -> (r: StreamState)
        ensures
            r == self@.state,
    {
        self.state
    }

    /// Check if the stream is open for sending.
    pub fn can_send(&self) -> (r: bool)
        ensures
            r == self@.state.sendable(),
    {
        match self.state {
            StreamState::Open | StreamState::HalfClosedRemote => true,
            _ => false,
        }
    }

    /// Check if the stream is open for receiving.
    pub fn can_recv(&self) -> (r: bool)
        ensures
            r == self@.state.receivable(),
    {
        match self.state {
            StreamState::Open | StreamState::HalfClosedLocal => true,
            _ => false,
        }
    }

    /// Get the send window size.
    pub fn send_window(&self) -> (r: i32)
        ensures
            r == self@.send_window,
    {
        self.send_window
    }

    /// Get the receive window size.
    pub fn recv_window(&self) -> (r: i32)
        ensures
            r == self@.recv_window,
    {
        self.recv_window
    }

    /// Record that we sent data.
    pub fn send_data(&mut self, size: u32)
        requires
            old(self)@.can_send_data(size),
        ensures
            final(self)@ == (StreamView {
                send_window: (old(self)@.send_window - (size as i32)) as i32,
                ..old(self)@
            }),
    {
        self.send_window = self.send_window - size as i32;
    }

    /// Record that we sent END_STREAM.
    pub fn send_end_stream(&mut self)
        ensures
            final(self)@ == (StreamView { state: old(self)@.state.after_send_end(), ..old(self)@ }),
    {
        self.state = match self.state {
            StreamState::Open => StreamState::HalfClosedLocal,
            StreamState::HalfClosedRemote => StreamState::Closed,
            other => other,
        };
    }

    /// Record that we received data.
    pub fn recv_data(&mut self, size: u32)
        requires
            old(self)@.can_recv_data(size),
        ensures
            final(self)@ == (StreamView {
                recv_window: (old(self)@.recv_window - (size as i32)) as i32,
                bytes_received: (old(self)@.bytes_received + size) as u32,
                ..old(self)@
            }),
    {
        self.recv_window = self.recv_window - size as i32;
        self.bytes_received = self.bytes_received + size;
    }

    /// Record that we received END_STREAM.
    pub fn recv_end_stream(&mut self)
        ensures
            final(self)@ == (StreamView { state: old(self)@.state.after_recv_end(), ..old(self)@ }),
    {
        self.state = match self.state {
            StreamState::Open => StreamState::HalfClosedRemote,
            StreamState::HalfClosedLocal => StreamState::Closed,
            other => other,
        };
    }

    /// Increase the send window by a WINDOW_UPDATE increment.
    ///
    /// Returns `false`, and leaves the window unchanged, if the increment
    /// would take the window above 2^31 - 1 (a FLOW_CONTROL_ERROR).
    pub fn increase_send_window(&mut self, increment: u32) -> (applied: bool)
        ensures
            applied == old(self)@.can_increase_send(increment),
            applied ==> final(self)@ == (StreamView {
                send_window: (old(self)@.send_window + increment) as i32,
                ..old(self)@
            }),
            !applied ==> final(self)@ == old(self)@,
    {
        match self.send_window.checked_add_unsigned(increment) {
            Some(w) => {
                self.send_window = w;
                true
            },
            None => false,
        }
    }

    /// Adjust the send window (from SETTINGS change).
    pub fn adjust_send_window(&mut self, delta: i32)
        requires
            old(self)@.can_adjust_send(delta),
        ensures
            final(self)@ == (StreamView {
                send_window: (old(self)@.send_window + delta) as i32,
                ..old(self)@
            }),
    {
        self.send_window = self.send_window + delta;
    }

    /// Mark the stream as reset.
    pub fn reset(&mut self)
        ensures
            final(self)@ == (StreamView { state: StreamState::Closed, ..old(self)@ }),
    {
        self.state = StreamState::Closed;
    }

    /// Get bytes received since last window update.
    pub fn bytes_received(&self) -> (r: u32)
        ensures
            r == self@.bytes_received,
    {
        self.bytes_received
    }

    /// Reset bytes received counter.
    pub fn reset_bytes_received(&mut self)
        ensures
            final(self)@ == (StreamView { bytes_received: 0, ..old(self)@ }),
    {
        self.bytes_received = 0;
    }
}

/// Once we have sent END_STREAM we can no longer send, and once the peer has
/// sent END_STREAM we can no longer receive; an open stream that sees both,
/// in either order, is closed.
pub proof fn lemma_end_stream_transitions(s: StreamState)
    ensures
        !s.after_send_end().sendable(),
        !s.after_recv_end().receivable(),
        s == StreamState::Open ==> s.after_send_end().after_recv_end() == StreamState::Closed,
        s == StreamState::Open ==> s.after_recv_end().after_send_end() == StreamState::Closed,
        StreamState::Closed.after_send_end() == StreamState::Closed,
        StreamState::Closed.after_recv_end() == StreamState::Closed,
{
}

} // verus!
