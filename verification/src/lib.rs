//! HTTP/2 protocol: frames, HPACK header compression, flow control and
//! connection state, without an async runtime.
pub mod buf;
pub mod frame;
pub mod text;
pub mod transport;
pub mod connection;
pub mod hpack;
pub mod io;

pub use frame::{
    DataFrame, ErrorCode, Frame, FrameDecoder, FrameEncoder, FrameError, FrameType, GoAwayFrame,
    HeadersFrame, PingFrame, Priority, RstStreamFrame, Setting, SettingId, SettingsFrame,
    StreamId, WindowUpdateFrame, CONNECTION_PREFACE, DEFAULT_HEADER_TABLE_SIZE,
    DEFAULT_INITIAL_WINDOW_SIZE, DEFAULT_MAX_CONCURRENT_STREAMS, DEFAULT_MAX_FRAME_SIZE,
    FRAME_HEADER_SIZE,
};

pub use hpack::{HeaderField, HpackDecoder, HpackEncoder};

pub use transport::{
    PlainTransport, ProcessResult, TlsConfig, TlsTransport, Transport, TransportState,
};

pub use connection::{
    Connection, ConnectionError, ConnectionEvent, ConnectionSettings, ConnectionState, FlowControl,
    ServerConnection, ServerEvent, Stream, StreamState,
};
