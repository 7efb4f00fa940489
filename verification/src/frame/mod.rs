//! HTTP/2 frame types and parsing.
//!
//! HTTP/2 frames have a common 9-byte header: a 24-bit payload length, an
//! 8-bit type, 8 bits of flags and a 31-bit stream identifier (the high bit
//! is reserved), all big-endian, followed by the payload.
use vstd::prelude::*;

pub mod decode;
pub mod encode;
mod error;
pub mod layout;
pub mod roundtrip;
pub mod flags;
mod types;
pub mod wire;

pub use decode::FrameDecoder;
pub use encode::FrameEncoder;
pub use error::{lemma_error_code_roundtrip, ErrorCode, FrameError};

pub use types::{
    lemma_frame_type_code_roundtrip, lemma_setting_id_roundtrip, ContinuationFrame, DataFrame, Frame,
    FrameHeader, FrameType, FrameView, GoAwayFrame, HeadersFrame, PingFrame, Priority, PriorityFrame,
    PushPromiseFrame, RstStreamFrame, Setting, SettingId, SettingsFrame, StreamId, UnknownFrame,
    WindowUpdateFrame,
};

verus! {

/// Maximum frame size allowed by HTTP/2 spec (2^24 - 1).
pub const MAX_FRAME_SIZE: u32 = 16_777_215;

/// Default maximum frame size (16 KB).
pub const DEFAULT_MAX_FRAME_SIZE: u32 = 16_384;

/// Frame header size in bytes.
pub const FRAME_HEADER_SIZE: usize = 9;

/// Connection preface sent by clients: `PRI * HTTP/2.0\r\n\r\nSM\r\n\r\n`.
pub const CONNECTION_PREFACE: [u8; 24] = [
    0x50, 0x52, 0x49, 0x20, 0x2a, 0x20, 0x48, 0x54, 0x54, 0x50, 0x2f, 0x32,
    0x2e, 0x30, 0x0d, 0x0a, 0x0d, 0x0a, 0x53, 0x4d, 0x0d, 0x0a, 0x0d, 0x0a,
];

/// Default initial window size for flow control.
pub const DEFAULT_INITIAL_WINDOW_SIZE: u32 = 65_535;

/// Default header table size for HPACK.
pub const DEFAULT_HEADER_TABLE_SIZE: u32 = 4_096;

/// Maximum concurrent streams default.
pub const DEFAULT_MAX_CONCURRENT_STREAMS: u32 = 100;

} // verus!
