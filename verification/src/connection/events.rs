//! Connection errors and the events that the connections report.
use vstd::prelude::*;
use bytes::Bytes;
use crate::buf::bytes_seq;
use crate::frame::{ErrorCode, FrameError, StreamId};
use crate::hpack::HeaderField;
use crate::io::io_error_kind;
use super::model::{ConnectionErrorView, EventView};

verus! {

/// Connection-level error.
#[derive(Debug)]
pub enum ConnectionError {
    /// Frame parsing error.
    Frame(FrameError),
    /// Protocol error.
    Protocol(String),
    /// I/O error.
    Io(std::io::Error),
    /// HPACK error.
    Hpack(String),
}

impl View for ConnectionError {
    type V = ConnectionErrorView;

    open spec fn view(&self) -> ConnectionErrorView {
        match self {
            ConnectionError::Frame(e) => ConnectionErrorView::Frame(*e),
            ConnectionError::Protocol(s) => ConnectionErrorView::Protocol(s@),
            ConnectionError::Io(e) => ConnectionErrorView::Io(io_error_kind(*e)),
            ConnectionError::Hpack(s) => ConnectionErrorView::Hpack(s@),
        }
    }
}

impl From<FrameError> for ConnectionError {
    fn from(e: FrameError) -> (r: Self) {
        ConnectionError::Frame(e)
    }
}

impl vstd::std_specs::convert::FromSpecImpl<FrameError> for ConnectionError {
    open spec fn obeys_from_spec() -> bool {
        true
    }

    open spec fn from_spec(e: FrameError) -> ConnectionError {
        ConnectionError::Frame(e)
    }
}

impl From<std::io::Error> for ConnectionError {
    fn from(e: std::io::Error) -> (r: Self) {
        ConnectionError::Io(e)
    }
}

impl vstd::std_specs::convert::FromSpecImpl<std::io::Error> for ConnectionError {
    open spec fn obeys_from_spec() -> bool {
        true
    }

    open spec fn from_spec(e: std::io::Error) -> ConnectionError {
        ConnectionError::Io(e)
    }
}

/// The header fields of a list, as plain values.
pub open spec fn fields_view(hs: Vec<HeaderField>) -> Seq<(Seq<u8>, Seq<u8>)> {
    hs@.map_values(|h: HeaderField| h@)
}

/// Events produced by the client connection.
#[derive(Debug)]
pub enum ConnectionEvent {
    /// Connection is ready for requests.
    Ready,
    /// Received headers for a stream.
    Headers { stream_id: StreamId, headers: Vec<HeaderField>, end_stream: bool },
    /// Received data for a stream.
    Data { stream_id: StreamId, data: Bytes, end_stream: bool },
    /// Stream was reset by peer.
    StreamReset { stream_id: StreamId, error_code: ErrorCode },
    /// Received GOAWAY from server.
    GoAway { last_stream_id: StreamId, error_code: ErrorCode },
    /// Connection error occurred.
    Error(ConnectionError),
}

impl View for ConnectionEvent {
    type V = EventView;

    open spec fn view(&self) -> EventView {
        match self {
            ConnectionEvent::Ready => EventView::Ready,
            ConnectionEvent::Headers { stream_id, headers, end_stream } => EventView::Headers {
                stream_id: stream_id.0,
                headers: fields_view(*headers),
                end_stream: *end_stream,
            },
            ConnectionEvent::Data { stream_id, data, end_stream } => EventView::Data {
                stream_id: stream_id.0,
                data: bytes_seq(*data),
                end_stream: *end_stream,
            },
            ConnectionEvent::StreamReset { stream_id, error_code } => EventView::StreamReset {
                stream_id: stream_id.0,
                error_code: *error_code,
            },
            ConnectionEvent::GoAway { last_stream_id, error_code } => EventView::GoAway {
                last_stream_id: last_stream_id.0,
                error_code: *error_code,
            },
            ConnectionEvent::Error(e) => EventView::Error(e@),
        }
    }
}

/// Events produced by the server connection.
#[derive(Debug)]
pub enum ServerEvent {
    /// Connection is ready to accept requests.
    Ready,
    /// New request stream opened by client.
    Request { stream_id: StreamId, headers: Vec<HeaderField>, end_stream: bool },
    /// Received data for a request stream.
    Data { stream_id: StreamId, data: Bytes, end_stream: bool },
    /// Stream was reset by client.
    StreamReset { stream_id: StreamId, error_code: ErrorCode },
    /// Client sent GOAWAY.
    GoAway { last_stream_id: StreamId, error_code: ErrorCode },
    /// Connection error occurred.
    Error(ConnectionError),
}

impl View for ServerEvent {
    type V = EventView;

    open spec fn view(&self) -> EventView {
        match self {
            ServerEvent::Ready => EventView::Ready,
            ServerEvent::Request { stream_id, headers, end_stream } => EventView::Headers {
                stream_id: stream_id.0,
                headers: fields_view(*headers),
                end_stream: *end_stream,
            },
            ServerEvent::Data { stream_id, data, end_stream } => EventView::Data {
                stream_id: stream_id.0,
                data: bytes_seq(*data),
                end_stream: *end_stream,
            },
            ServerEvent::StreamReset { stream_id, error_code } => EventView::StreamReset {
                stream_id: stream_id.0,
                error_code: *error_code,
            },
            ServerEvent::GoAway { last_stream_id, error_code } => EventView::GoAway {
                last_stream_id: last_stream_id.0,
                error_code: *error_code,
            },
            ServerEvent::Error(e) => EventView::Error(e@),
        }
    }
}

} // verus!
