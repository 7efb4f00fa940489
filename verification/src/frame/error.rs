//! HTTP/2 frame errors.
use vstd::prelude::*;
use crate::text::{decimal, hex_fixed, push_decimal, push_hex};

verus! {

/// HTTP/2 error codes (RFC 7540 Section 7).
#[derive(Debug, Clone, Copy, PartialEq, Eq, Structural)]
pub enum ErrorCode {
    /// Graceful shutdown.
    NoError,
    /// Protocol error detected.
    ProtocolError,
    /// Implementation fault.
    InternalError,
    /// Flow control limits exceeded.
    FlowControlError,
    /// Settings not acknowledged in time.
    SettingsTimeout,
    /// Frame received for closed stream.
    StreamClosed,
    /// Frame size incorrect.
    FrameSizeError,
    /// Stream not processed.
    RefusedStream,
    /// Stream cancelled.
    Cancel,
    /// Compression state not updated.
    CompressionError,
    /// TCP connection error.
    ConnectError,
    /// Processing capacity exceeded.
    EnhanceYourCalm,
    /// Negotiated TLS requirements not met.
    InadequateSecurity,
    /// HTTP/1.1 required.
    Http11Required,
}

impl ErrorCode {
    /// The code of an error on the wire.
    pub open spec fn code(self) -> u32 {
        match self {
            ErrorCode::NoError => 0x0,
            ErrorCode::ProtocolError => 0x1,
            ErrorCode::InternalError => 0x2,
            ErrorCode::FlowControlError => 0x3,
            ErrorCode::SettingsTimeout => 0x4,
            ErrorCode::StreamClosed => 0x5,
            ErrorCode::FrameSizeError => 0x6,
            ErrorCode::RefusedStream => 0x7,
            ErrorCode::Cancel => 0x8,
            ErrorCode::CompressionError => 0x9,
            ErrorCode::ConnectError => 0xa,
            ErrorCode::EnhanceYourCalm => 0xb,
            ErrorCode::InadequateSecurity => 0xc,
            ErrorCode::Http11Required => 0xd,
        }
    }

    /// The error with code `code`; unknown codes are treated as INTERNAL_ERROR.
    pub open spec fn spec_from_u32(code: u32) -> ErrorCode {
        if code == 0x0 {
            ErrorCode::NoError
        } else if code == 0x1 {
            ErrorCode::ProtocolError
        } else if code == 0x2 {
            ErrorCode::InternalError
        } else if code == 0x3 {
            ErrorCode::FlowControlError
        } else if code == 0x4 {
            ErrorCode::SettingsTimeout
        } else if code == 0x5 {
            ErrorCode::StreamClosed
        } else if code == 0x6 {
            ErrorCode::FrameSizeError
        } else if code == 0x7 {
            ErrorCode::RefusedStream
        } else if code == 0x8 {
            ErrorCode::Cancel
        } else if code == 0x9 {
            ErrorCode::CompressionError
        } else if code == 0xa {
            ErrorCode::ConnectError
        } else if code == 0xb {
            ErrorCode::EnhanceYourCalm
        } else if code == 0xc {
            ErrorCode::InadequateSecurity
        } else if code == 0xd {
            ErrorCode::Http11Required
        } else {
            ErrorCode::InternalError
        }
    }

    pub fn from_u32(code: u32) -> (r: Self)
        ensures
            r == Self::spec_from_u32(code),
    {
        match code {
            0x0 => ErrorCode::NoError,
            0x1 => ErrorCode::ProtocolError,
            0x2 => ErrorCode::InternalError,
            0x3 => ErrorCode::FlowControlError,
            0x4 => ErrorCode::SettingsTimeout,
            0x5 => ErrorCode::StreamClosed,
            0x6 => ErrorCode::FrameSizeError,
            0x7 => ErrorCode::RefusedStream,
            0x8 => ErrorCode::Cancel,
            0x9 => ErrorCode::CompressionError,
            0xa => ErrorCode::ConnectError,
            0xb => ErrorCode::EnhanceYourCalm,
            0xc => ErrorCode::InadequateSecurity,
            0xd => ErrorCode::Http11Required,
            _ => ErrorCode::InternalError,
        }
    }

    pub fn to_u32(self) -> (r: u32)
        ensures
            r == self.code(),
    {
        match self {
            ErrorCode::NoError => 0x0,
            ErrorCode::ProtocolError => 0x1,
            ErrorCode::InternalError => 0x2,
            ErrorCode::FlowControlError => 0x3,
            ErrorCode::SettingsTimeout => 0x4,
            ErrorCode::StreamClosed => 0x5,
            ErrorCode::FrameSizeError => 0x6,
            ErrorCode::RefusedStream => 0x7,
            ErrorCode::Cancel => 0x8,
            ErrorCode::CompressionError => 0x9,
            ErrorCode::ConnectError => 0xa,
            ErrorCode::EnhanceYourCalm => 0xb,
            ErrorCode::InadequateSecurity => 0xc,
            ErrorCode::Http11Required => 0xd,
        }
    }

    /// The name of the error code, as RFC 7540 writes it.
    pub open spec fn spec_name(self) -> Seq<char> {
        match self {
            ErrorCode::NoError => "NO_ERROR"@,
            ErrorCode::ProtocolError => "PROTOCOL_ERROR"@,
            ErrorCode::InternalError => "INTERNAL_ERROR"@,
            ErrorCode::FlowControlError => "FLOW_CONTROL_ERROR"@,
            ErrorCode::SettingsTimeout => "SETTINGS_TIMEOUT"@,
            ErrorCode::StreamClosed => "STREAM_CLOSED"@,
            ErrorCode::FrameSizeError => "FRAME_SIZE_ERROR"@,
            ErrorCode::RefusedStream => "REFUSED_STREAM"@,
            ErrorCode::Cancel => "CANCEL"@,
            ErrorCode::CompressionError => "COMPRESSION_ERROR"@,
            ErrorCode::ConnectError => "CONNECT_ERROR"@,
            ErrorCode::EnhanceYourCalm => "ENHANCE_YOUR_CALM"@,
            ErrorCode::InadequateSecurity => "INADEQUATE_SECURITY"@,
            ErrorCode::Http11Required => "HTTP_1_1_REQUIRED"@,
        }
    }

    /// The name of the error code (its textual form).
    pub fn name(self) -> (r: &'static str)
        ensures
            r@ == self.spec_name(),
    {
        match self {
            ErrorCode::NoError => "NO_ERROR",
            ErrorCode::ProtocolError => "PROTOCOL_ERROR",
            ErrorCode::InternalError => "INTERNAL_ERROR",
            ErrorCode::FlowControlError => "FLOW_CONTROL_ERROR",
            ErrorCode::SettingsTimeout => "SETTINGS_TIMEOUT",
            ErrorCode::StreamClosed => "STREAM_CLOSED",
            ErrorCode::FrameSizeError => "FRAME_SIZE_ERROR",
            ErrorCode::RefusedStream => "REFUSED_STREAM",
            ErrorCode::Cancel => "CANCEL",
            ErrorCode::CompressionError => "COMPRESSION_ERROR",
            ErrorCode::ConnectError => "CONNECT_ERROR",
            ErrorCode::EnhanceYourCalm => "ENHANCE_YOUR_CALM",
            ErrorCode::InadequateSecurity => "INADEQUATE_SECURITY",
            ErrorCode::Http11Required => "HTTP_1_1_REQUIRED",
        }
    }
}

/// Every error code comes back from its numeric code.
pub proof fn lemma_error_code_roundtrip(e: ErrorCode)
    ensures
        ErrorCode::spec_from_u32(e.code()) == e,
{
}

/// Frame parsing/encoding errors.
#[derive(Debug, Clone, Copy, PartialEq, Eq, Structural)]
pub enum FrameError {
    /// Not enough data to parse frame (need more bytes).
    Incomplete,
    /// Frame exceeds maximum allowed size.
    FrameTooLarge { size: u32, max: u32 },
    /// Invalid frame for stream 0 (connection-level).
    InvalidStreamZero { frame_type: u8 },
    /// Frame requires non-zero stream ID.
    StreamIdRequired { frame_type: u8 },
    /// Invalid frame payload length.
    InvalidPayloadLength { frame_type: u8, expected: usize, actual: usize },
    /// Invalid padding length.
    InvalidPadding { pad_length: u8, payload_length: usize },
    /// Invalid setting value.
    InvalidSettingValue { id: u16, value: u32 },
    /// Invalid window update increment.
    InvalidWindowIncrement { increment: u32 },
    /// Protocol error.
    Protocol(ErrorCode),
}

impl FrameError {
    /// The human-readable description of the error.
    pub open spec fn spec_message(self) -> Seq<char> {
        match self {
            FrameError::Incomplete => "incomplete frame data"@,
            FrameError::FrameTooLarge { size, max } => "frame size "@ + decimal(size as nat)
                + " exceeds maximum "@ + decimal(max as nat),
            FrameError::InvalidStreamZero { frame_type } => "frame type 0x"@ + hex_fixed(
                frame_type as nat,
                2,
            ) + " invalid on stream 0"@,
            FrameError::StreamIdRequired { frame_type } => "frame type 0x"@ + hex_fixed(
                frame_type as nat,
                2,
            ) + " requires non-zero stream ID"@,
            FrameError::InvalidPayloadLength { frame_type, expected, actual } => "frame type 0x"@
                + hex_fixed(frame_type as nat, 2) + " expected "@ + decimal(expected as nat)
                + " bytes, got "@ + decimal(actual as nat),
            FrameError::InvalidPadding { pad_length, payload_length } => "padding length "@
                + decimal(pad_length as nat) + " exceeds payload length "@ + decimal(
                payload_length as nat,
            ),
            FrameError::InvalidSettingValue { id, value } => "invalid value "@ + decimal(
                value as nat,
            ) + " for setting 0x"@ + hex_fixed(id as nat, 4),
            FrameError::InvalidWindowIncrement { increment } => "invalid window increment "@
                + decimal(increment as nat),
            FrameError::Protocol(code) => "protocol error: "@ + code.spec_name(),
        }
    }

    /// The human-readable description of the error.
    pub fn message(&self) -> (r: String)
        ensures
            r@ == self.spec_message(),
    {
        let mut s = String::new();
        match *self {
            FrameError::Incomplete => s.append("incomplete frame data"),
            FrameError::FrameTooLarge { size, max } => {
                s.append("frame size ");
                push_decimal(&mut s, size as u64);
                s.append(" exceeds maximum ");
                push_decimal(&mut s, max as u64);
            },
            FrameError::InvalidStreamZero { frame_type } => {
                s.append("frame type 0x");
                push_hex(&mut s, frame_type as u64, 2);
                s.append(" invalid on stream 0");
            },
            FrameError::StreamIdRequired { frame_type } => {
                s.append("frame type 0x");
                push_hex(&mut s, frame_type as u64, 2);
                s.append(" requires non-zero stream ID");
            },
            FrameError::InvalidPayloadLength { frame_type, expected, actual } => {
                s.append("frame type 0x");
                push_hex(&mut s, frame_type as u64, 2);
                s.append(" expected ");
                push_decimal(&mut s, expected as u64);
                s.append(" bytes, got ");
                push_decimal(&mut s, actual as u64);
            },
            FrameError::InvalidPadding { pad_length, payload_length } => {
                s.append("padding length ");
                push_decimal(&mut s, pad_length as u64);
                s.append(" exceeds payload length ");
                push_decimal(&mut s, payload_length as u64);
            },
            FrameError::InvalidSettingValue { id, value } => {
                s.append("invalid value ");
                push_decimal(&mut s, value as u64);
                s.append(" for setting 0x");
                push_hex(&mut s, id as u64, 4);
            },
            FrameError::InvalidWindowIncrement { increment } => {
                s.append("invalid window increment ");
                push_decimal(&mut s, increment as u64);
            },
            FrameError::Protocol(code) => {
                s.append("protocol error: ");
                s.append(code.name());
            },
        }
        s
    }
}

} // verus!
