//! HTTP/2 frame type definitions.
use vstd::prelude::*;
use bytes::Bytes;
use crate::buf::bytes_seq;

verus! {

/// HTTP/2 frame types (RFC 7540 Section 6).
#[derive(Debug, Clone, Copy, PartialEq, Eq, Structural)]
pub enum FrameType {
    Data,
    Headers,
    Priority,
    RstStream,
    Settings,
    PushPromise,
    Ping,
    GoAway,
    WindowUpdate,
    Continuation,
}

impl FrameType {
    /// The type code of each frame type on the wire.
    pub open spec fn code(self) -> u8 {
        match self {
            FrameType::Data => 0x0,
            FrameType::Headers => 0x1,
            FrameType::Priority => 0x2,
            FrameType::RstStream => 0x3,
            FrameType::Settings => 0x4,
            FrameType::PushPromise => 0x5,
            FrameType::Ping => 0x6,
            FrameType::GoAway => 0x7,
            FrameType::WindowUpdate => 0x8,
            FrameType::Continuation => 0x9,
        }
    }

    /// The frame type whose code is `byte`, if any.
    pub open spec fn spec_from_u8(byte: u8) -> Option<FrameType> {
        if byte == 0x0 {
            Some(FrameType::Data)
        } else if byte == 0x1 {
            Some(FrameType::Headers)
        } else if byte == 0x2 {
            Some(FrameType::Priority)
        } else if byte == 0x3 {
            Some(FrameType::RstStream)
        } else if byte == 0x4 {
            Some(FrameType::Settings)
        } else if byte == 0x5 {
            Some(FrameType::PushPromise)
        } else if byte == 0x6 {
            Some(FrameType::Ping)
        } else if byte == 0x7 {
            Some(FrameType::GoAway)
        } else if byte == 0x8 {
            Some(FrameType::WindowUpdate)
        } else if byte == 0x9 {
            Some(FrameType::Continuation)
        } else {
            None
        }
    }

    /// Try to convert a byte to a frame type.
    pub fn from_u8(byte: u8) -> (r: Option<Self>)
        ensures
            r == Self::spec_from_u8(byte),
            r matches Some(t) ==> t.code() == byte,
            r is None <==> byte > 0x9,
    {
        match byte {
            0x0 => Some(FrameType::Data),
            0x1 => Some(FrameType::Headers),
            0x2 => Some(FrameType::Priority),
            0x3 => Some(FrameType::RstStream),
            0x4 => Some(FrameType::Settings),
            0x5 => Some(FrameType::PushPromise),
            0x6 => Some(FrameType::Ping),
            0x7 => Some(FrameType::GoAway),
            0x8 => Some(FrameType::WindowUpdate),
            0x9 => Some(FrameType::Continuation),
            _ => None,
        }
    }

    /// The type code of this frame type.
    pub fn to_u8(self) -> (r: u8)
        ensures
            r == self.code(),
    {
        match self {
            FrameType::Data => 0x0,
            FrameType::Headers => 0x1,
            FrameType::Priority => 0x2,
            FrameType::RstStream => 0x3,
            FrameType::Settings => 0x4,
            FrameType::PushPromise => 0x5,
            FrameType::Ping => 0x6,
            FrameType::GoAway => 0x7,
            FrameType::WindowUpdate => 0x8,
            FrameType::Continuation => 0x9,
        }
    }
}

/// Reading back the code of a frame type gives the frame type.
pub proof fn lemma_frame_type_code_roundtrip(t: FrameType)
    ensures
        FrameType::spec_from_u8(t.code()) == Some(t),
{
}

/// Stream identifier (31 bits, high bit reserved).
#[derive(Debug, Clone, Copy, PartialEq, Eq, Structural, Hash, Default)]
pub struct StreamId(pub u32);

impl StreamId {
    /// The connection-level stream (stream 0).
    pub fn connection() -> (r: StreamId)
        ensures
            r.0 == 0,
    {
        StreamId(0)
    }

    /// Create a new stream ID, masking the reserved bit.
    pub fn new(id: u32) -> (r: Self)
        ensures
            r.0 == id & 0x7FFF_FFFF,
            r.0 == id % 0x8000_0000,
            r.0 < 0x8000_0000,
    {
        assert(id & 0x7FFF_FFFF == id % 0x8000_0000) by (bit_vector);
        StreamId(id & 0x7FFF_FFFF)
    }

    /// Get the raw stream ID value.
    pub fn value(self) -> (r: u32)
        ensures
            r == self.0,
    {
        self.0
    }

    /// Check if this is the connection-level stream.
    pub fn is_connection_level(self) -> (r: bool)
        ensures
            r == (self.0 == 0),
    {
        self.0 == 0
    }

    /// Check if this is a client-initiated stream (odd numbers).
    pub fn is_client_initiated(self) -> (r: bool)
        ensures
            r == (self.0 % 2 == 1),
    {
        self.0 % 2 == 1
    }

    /// Check if this is a server-initiated stream (even numbers, non-zero).
    pub fn is_server_initiated(self) -> (r: bool)
        ensures
            r == (self.0 != 0 && self.0 % 2 == 0),
    {
        self.0 != 0 && self.0 % 2 == 0
    }
}

impl From<u32> for StreamId {
    fn from(id: u32) -> (r: Self) {
        StreamId::new(id)
    }
}

impl vstd::std_specs::convert::FromSpecImpl<u32> for StreamId {
    open spec fn obeys_from_spec() -> bool {
        true
    }

    open spec fn from_spec(id: u32) -> StreamId {
        StreamId(id & 0x7FFF_FFFF)
    }
}

/// Raw frame header.
#[derive(Debug, Clone, Copy)]
pub struct FrameHeader {
    /// Payload length (24 bits).
    pub length: u32,
    /// Frame type.
    pub frame_type: u8,
    /// Frame flags.
    pub flags: u8,
    /// Stream identifier.
    pub stream_id: StreamId,
}

impl FrameHeader {
    /// Create a new frame header.
    pub fn new(frame_type: FrameType, flags: u8, stream_id: StreamId, length: u32) -> (r: Self)
        ensures
            r.length == length,
            r.frame_type == frame_type.code(),
            r.flags == flags,
            r.stream_id == stream_id,
    {
        FrameHeader { length, frame_type: frame_type.to_u8(), flags, stream_id }
    }

    /// Get the frame type as an enum, if known.
    pub fn get_type(&self) -> (r: Option<FrameType>)
        ensures
            r == FrameType::spec_from_u8(self.frame_type),
    {
        FrameType::from_u8(self.frame_type)
    }

    /// Whether any bit of `flag` is set in the header's flags.
    pub open spec fn spec_has_flag(&self, flag: u8) -> bool {
        self.flags & flag != 0
    }

    /// Check if a flag is set.
    pub fn has_flag(&self, flag: u8) -> (r: bool)
        ensures
            r == self.spec_has_flag(flag),
    {
        self.flags & flag != 0
    }
}

/// Stream priority information.
#[derive(Debug, Clone, Copy)]
pub struct Priority {
    /// Whether the dependency is exclusive.
    pub exclusive: bool,
    /// Stream dependency.
    pub dependency: StreamId,
    /// Weight (1-256, stored as 0-255).
    pub weight: u8,
}

/// DATA frame (type=0x0).
#[derive(Debug, Clone)]
pub struct DataFrame {
    pub stream_id: StreamId,
    pub end_stream: bool,
    pub data: Bytes,
}

/// HEADERS frame (type=0x1).
#[derive(Debug, Clone)]
pub struct HeadersFrame {
    pub stream_id: StreamId,
    pub end_stream: bool,
    pub end_headers: bool,
    pub priority: Option<Priority>,
    /// HPACK-encoded header block fragment.
    pub header_block: Bytes,
}

/// PRIORITY frame (type=0x2).
#[derive(Debug, Clone, Copy)]
pub struct PriorityFrame {
    pub stream_id: StreamId,
    pub priority: Priority,
}

/// RST_STREAM frame (type=0x3).
#[derive(Debug, Clone, Copy)]
pub struct RstStreamFrame {
    pub stream_id: StreamId,
    pub error_code: u32,
}

/// Known setting identifiers (RFC 7540 Section 6.5.2).
#[derive(Debug, Clone, Copy, PartialEq, Eq, Structural)]
pub enum SettingId {
    HeaderTableSize,
    EnablePush,
    MaxConcurrentStreams,
    InitialWindowSize,
    MaxFrameSize,
    MaxHeaderListSize,
    /// Unknown setting ID.
    Unknown(u16),
}

impl SettingId {
    /// The setting identifier with code `id`.
    pub open spec fn spec_from_u16(id: u16) -> SettingId {
        if id == 0x1 {
            SettingId::HeaderTableSize
        } else if id == 0x2 {
            SettingId::EnablePush
        } else if id == 0x3 {
            SettingId::MaxConcurrentStreams
        } else if id == 0x4 {
            SettingId::InitialWindowSize
        } else if id == 0x5 {
            SettingId::MaxFrameSize
        } else if id == 0x6 {
            SettingId::MaxHeaderListSize
        } else {
            SettingId::Unknown(id)
        }
    }

    /// The code of a setting identifier on the wire.
    pub open spec fn code(self) -> u16 {
        match self {
            SettingId::HeaderTableSize => 0x1,
            SettingId::EnablePush => 0x2,
            SettingId::MaxConcurrentStreams => 0x3,
            SettingId::InitialWindowSize => 0x4,
            SettingId::MaxFrameSize => 0x5,
            SettingId::MaxHeaderListSize => 0x6,
            SettingId::Unknown(id) => id,
        }
    }

    /// Whether this value is one that decoding can produce: an `Unknown`
    /// carries a code that no known setting has.
    pub open spec fn canonical(self) -> bool {
        match self {
            SettingId::Unknown(id) => id == 0 || id > 6,
            _ => true,
        }
    }

    pub fn from_u16(id: u16) -> (r: Self)
        ensures
            r == Self::spec_from_u16(id),
    {
        match id {
            0x1 => SettingId::HeaderTableSize,
            0x2 => SettingId::EnablePush,
            0x3 => SettingId::MaxConcurrentStreams,
            0x4 => SettingId::InitialWindowSize,
            0x5 => SettingId::MaxFrameSize,
            0x6 => SettingId::MaxHeaderListSize,
            _ => SettingId::Unknown(id),
        }
    }

    pub fn to_u16(self) -> (r: u16)
        ensures
            r == self.code(),
    {
        match self {
            SettingId::HeaderTableSize => 0x1,
            SettingId::EnablePush => 0x2,
            SettingId::MaxConcurrentStreams => 0x3,
            SettingId::InitialWindowSize => 0x4,
            SettingId::MaxFrameSize => 0x5,
            SettingId::MaxHeaderListSize => 0x6,
            SettingId::Unknown(id) => id,
        }
    }
}

/// Decoding the code of a setting identifier gives it back, unless it is an
/// `Unknown` that holds the code of a known setting; and encoding a decoded
/// identifier gives the code back.
pub proof fn lemma_setting_id_roundtrip(id: SettingId, code: u16)
    ensures
        id.canonical() ==> SettingId::spec_from_u16(id.code()) == id,
        SettingId::spec_from_u16(code).code() == code,
        SettingId::spec_from_u16(code).canonical(),
{
}

/// Individual setting in a SETTINGS frame.
#[derive(Debug, Clone, Copy)]
pub struct Setting {
    pub id: SettingId,
    pub value: u32,
}

/// SETTINGS frame (type=0x4).
#[derive(Debug, Clone)]
pub struct SettingsFrame {
    pub ack: bool,
    pub settings: Vec<Setting>,
}

/// PUSH_PROMISE frame (type=0x5).
#[derive(Debug, Clone)]
pub struct PushPromiseFrame {
    pub stream_id: StreamId,
    pub end_headers: bool,
    pub promised_stream_id: StreamId,
    /// HPACK-encoded header block fragment.
    pub header_block: Bytes,
}

/// PING frame (type=0x6).
#[derive(Debug, Clone, Copy)]
pub struct PingFrame {
    pub ack: bool,
    pub data: [u8; 8],
}

/// GOAWAY frame (type=0x7).
#[derive(Debug, Clone)]
pub struct GoAwayFrame {
    pub last_stream_id: StreamId,
    pub error_code: u32,
    pub debug_data: Bytes,
}

/// WINDOW_UPDATE frame (type=0x8).
#[derive(Debug, Clone, Copy)]
pub struct WindowUpdateFrame {
    pub stream_id: StreamId,
    pub increment: u32,
}

/// CONTINUATION frame (type=0x9).
#[derive(Debug, Clone)]
pub struct ContinuationFrame {
    pub stream_id: StreamId,
    pub end_headers: bool,
    /// HPACK-encoded header block fragment.
    pub header_block: Bytes,
}

/// Unknown frame type.
#[derive(Debug, Clone)]
pub struct UnknownFrame {
    pub frame_type: u8,
    pub flags: u8,
    pub stream_id: StreamId,
    pub payload: Bytes,
}

/// Parsed HTTP/2 frame.
#[derive(Debug, Clone)]
pub enum Frame {
    Data(DataFrame),
    Headers(HeadersFrame),
    Priority(PriorityFrame),
    RstStream(RstStreamFrame),
    Settings(SettingsFrame),
    PushPromise(PushPromiseFrame),
    Ping(PingFrame),
    GoAway(GoAwayFrame),
    WindowUpdate(WindowUpdateFrame),
    Continuation(ContinuationFrame),
    /// Unknown frame type (must be ignored per spec).
    Unknown(UnknownFrame),
}

/// A frame as a mathematical value: the fields of the frame, with each byte
/// buffer taken as the sequence of bytes it holds.
pub enum FrameView {
    Data { stream_id: u32, end_stream: bool, data: Seq<u8> },
    Headers {
        stream_id: u32,
        end_stream: bool,
        end_headers: bool,
        priority: Option<Priority>,
        header_block: Seq<u8>,
    },
    Priority { stream_id: u32, priority: Priority },
    RstStream { stream_id: u32, error_code: u32 },
    Settings { ack: bool, settings: Seq<Setting> },
    PushPromise { stream_id: u32, end_headers: bool, promised_stream_id: u32, header_block: Seq<u8> },
    Ping { ack: bool, data: Seq<u8> },
    GoAway { last_stream_id: u32, error_code: u32, debug_data: Seq<u8> },
    WindowUpdate { stream_id: u32, increment: u32 },
    Continuation { stream_id: u32, end_headers: bool, header_block: Seq<u8> },
    Unknown { frame_type: u8, flags: u8, stream_id: u32, payload: Seq<u8> },
}

impl View for Frame {
    type V = FrameView;

    open spec fn view(&self) -> FrameView {
        match self {
            Frame::Data(f) => FrameView::Data {
                stream_id: f.stream_id.0,
                end_stream: f.end_stream,
                data: bytes_seq(f.data),
            },
            Frame::Headers(f) => FrameView::Headers {
                stream_id: f.stream_id.0,
                end_stream: f.end_stream,
                end_headers: f.end_headers,
                priority: f.priority,
                header_block: bytes_seq(f.header_block),
            },
            Frame::Priority(f) => FrameView::Priority { stream_id: f.stream_id.0, priority: f.priority },
            Frame::RstStream(f) => FrameView::RstStream {
                stream_id: f.stream_id.0,
                error_code: f.error_code,
            },
            Frame::Settings(f) => FrameView::Settings { ack: f.ack, settings: f.settings@ },
            Frame::PushPromise(f) => FrameView::PushPromise {
                stream_id: f.stream_id.0,
                end_headers: f.end_headers,
                promised_stream_id: f.promised_stream_id.0,
                header_block: bytes_seq(f.header_block),
            },
            Frame::Ping(f) => FrameView::Ping { ack: f.ack, data: f.data@ },
            Frame::GoAway(f) => FrameView::GoAway {
                last_stream_id: f.last_stream_id.0,
                error_code: f.error_code,
                debug_data: bytes_seq(f.debug_data),
            },
            Frame::WindowUpdate(f) => FrameView::WindowUpdate {
                stream_id: f.stream_id.0,
                increment: f.increment,
            },
            Frame::Continuation(f) => FrameView::Continuation {
                stream_id: f.stream_id.0,
                end_headers: f.end_headers,
                header_block: bytes_seq(f.header_block),
            },
            Frame::Unknown(f) => FrameView::Unknown {
                frame_type: f.frame_type,
                flags: f.flags,
                stream_id: f.stream_id.0,
                payload: bytes_seq(f.payload),
            },
        }
    }
}

impl FrameView {
    /// The stream a frame belongs to; the frames that are connection-wide by
    /// definition belong to stream 0.
    pub open spec fn stream_id(self) -> u32 {
        match self {
            FrameView::Data { stream_id, .. } => stream_id,
            FrameView::Headers { stream_id, .. } => stream_id,
            FrameView::Priority { stream_id, .. } => stream_id,
            FrameView::RstStream { stream_id, .. } => stream_id,
            FrameView::Settings { .. } => 0,
            FrameView::PushPromise { stream_id, .. } => stream_id,
            FrameView::Ping { .. } => 0,
            FrameView::GoAway { .. } => 0,
            FrameView::WindowUpdate { stream_id, .. } => stream_id,
            FrameView::Continuation { stream_id, .. } => stream_id,
            FrameView::Unknown { stream_id, .. } => stream_id,
        }
    }
}

impl Frame {
    /// Get the stream ID for this frame.
    pub fn stream_id(&self) -> (r: StreamId)
        ensures
            r.0 == self@.stream_id(),
    {
        match self {
            Frame::Data(f) => f.stream_id,
            Frame::Headers(f) => f.stream_id,
            Frame::Priority(f) => f.stream_id,
            Frame::RstStream(f) => f.stream_id,
            Frame::Settings(_) => StreamId::connection(),
            Frame::PushPromise(f) => f.stream_id,
            Frame::Ping(_) => StreamId::connection(),
            Frame::GoAway(_) => StreamId::connection(),
            Frame::WindowUpdate(f) => f.stream_id,
            Frame::Continuation(f) => f.stream_id,
            Frame::Unknown(f) => f.stream_id,
        }
    }
}

} // verus!
