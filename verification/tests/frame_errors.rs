use http2_proto::frame::{ErrorCode, FrameError};

// ErrorCode tests

#[test]
fn test_error_code_from_u32() {
    assert_eq!(ErrorCode::from_u32(0x0), ErrorCode::NoError);
    assert_eq!(ErrorCode::from_u32(0x1), ErrorCode::ProtocolError);
    assert_eq!(ErrorCode::from_u32(0x2), ErrorCode::InternalError);
    assert_eq!(ErrorCode::from_u32(0x3), ErrorCode::FlowControlError);
    assert_eq!(ErrorCode::from_u32(0x4), ErrorCode::SettingsTimeout);
    assert_eq!(ErrorCode::from_u32(0x5), ErrorCode::StreamClosed);
    assert_eq!(ErrorCode::from_u32(0x6), ErrorCode::FrameSizeError);
    assert_eq!(ErrorCode::from_u32(0x7), ErrorCode::RefusedStream);
    assert_eq!(ErrorCode::from_u32(0x8), ErrorCode::Cancel);
    assert_eq!(ErrorCode::from_u32(0x9), ErrorCode::CompressionError);
    assert_eq!(ErrorCode::from_u32(0xa), ErrorCode::ConnectError);
    assert_eq!(ErrorCode::from_u32(0xb), ErrorCode::EnhanceYourCalm);
    assert_eq!(ErrorCode::from_u32(0xc), ErrorCode::InadequateSecurity);
    assert_eq!(ErrorCode::from_u32(0xd), ErrorCode::Http11Required);
}

#[test]
fn test_error_code_from_u32_unknown() {
    // Unknown codes map to InternalError
    assert_eq!(ErrorCode::from_u32(0xe), ErrorCode::InternalError);
    assert_eq!(ErrorCode::from_u32(0xff), ErrorCode::InternalError);
    assert_eq!(ErrorCode::from_u32(0xffffffff), ErrorCode::InternalError);
}

#[test]
fn test_error_code_to_u32() {
    assert_eq!(ErrorCode::NoError.to_u32(), 0x0);
    assert_eq!(ErrorCode::ProtocolError.to_u32(), 0x1);
    assert_eq!(ErrorCode::InternalError.to_u32(), 0x2);
    assert_eq!(ErrorCode::FlowControlError.to_u32(), 0x3);
    assert_eq!(ErrorCode::SettingsTimeout.to_u32(), 0x4);
    assert_eq!(ErrorCode::StreamClosed.to_u32(), 0x5);
    assert_eq!(ErrorCode::FrameSizeError.to_u32(), 0x6);
    assert_eq!(ErrorCode::RefusedStream.to_u32(), 0x7);
    assert_eq!(ErrorCode::Cancel.to_u32(), 0x8);
    assert_eq!(ErrorCode::CompressionError.to_u32(), 0x9);
    assert_eq!(ErrorCode::ConnectError.to_u32(), 0xa);
    assert_eq!(ErrorCode::EnhanceYourCalm.to_u32(), 0xb);
    assert_eq!(ErrorCode::InadequateSecurity.to_u32(), 0xc);
    assert_eq!(ErrorCode::Http11Required.to_u32(), 0xd);
}

#[test]
fn test_error_code_roundtrip() {
    let codes = [
        ErrorCode::NoError,
        ErrorCode::ProtocolError,
        ErrorCode::InternalError,
        ErrorCode::FlowControlError,
        ErrorCode::SettingsTimeout,
        ErrorCode::StreamClosed,
        ErrorCode::FrameSizeError,
        ErrorCode::RefusedStream,
        ErrorCode::Cancel,
        ErrorCode::CompressionError,
        ErrorCode::ConnectError,
        ErrorCode::EnhanceYourCalm,
        ErrorCode::InadequateSecurity,
        ErrorCode::Http11Required,
    ];

    for code in codes {
        assert_eq!(ErrorCode::from_u32(code.to_u32()), code);
    }
}

#[test]
fn test_error_code_display() {
    assert_eq!(ErrorCode::NoError.name(), "NO_ERROR");
    assert_eq!(ErrorCode::ProtocolError.name(), "PROTOCOL_ERROR");
    assert_eq!(ErrorCode::InternalError.name(), "INTERNAL_ERROR");
    assert_eq!(
        ErrorCode::FlowControlError.name(),
        "FLOW_CONTROL_ERROR"
    );
    assert_eq!(
        ErrorCode::SettingsTimeout.name(),
        "SETTINGS_TIMEOUT"
    );
    assert_eq!(ErrorCode::StreamClosed.name(), "STREAM_CLOSED");
    assert_eq!(ErrorCode::FrameSizeError.name(), "FRAME_SIZE_ERROR");
    assert_eq!(ErrorCode::RefusedStream.name(), "REFUSED_STREAM");
    assert_eq!(ErrorCode::Cancel.name(), "CANCEL");
    assert_eq!(
        ErrorCode::CompressionError.name(),
        "COMPRESSION_ERROR"
    );
    assert_eq!(ErrorCode::ConnectError.name(), "CONNECT_ERROR");
    assert_eq!(
        ErrorCode::EnhanceYourCalm.name(),
        "ENHANCE_YOUR_CALM"
    );
    assert_eq!(
        ErrorCode::InadequateSecurity.name(),
        "INADEQUATE_SECURITY"
    );
    assert_eq!(
        ErrorCode::Http11Required.name(),
        "HTTP_1_1_REQUIRED"
    );
}

#[test]
fn test_error_code_debug() {
    let code = ErrorCode::NoError;
    let debug = format!("{:?}", code);
    assert!(debug.contains("NoError"));
}

#[test]
fn test_error_code_clone() {
    let code = ErrorCode::Cancel;
    let cloned = code;
    assert_eq!(code, cloned);
}

#[test]
fn test_error_code_eq() {
    assert_eq!(ErrorCode::NoError, ErrorCode::NoError);
    assert_ne!(ErrorCode::NoError, ErrorCode::Cancel);
}

// FrameError tests

#[test]
fn test_frame_error_incomplete_display() {
    let err = FrameError::Incomplete;
    assert_eq!(err.message(), "incomplete frame data");
}

#[test]
fn test_frame_error_frame_too_large_display() {
    let err = FrameError::FrameTooLarge {
        size: 20000,
        max: 16384,
    };
    assert_eq!(err.message(), "frame size 20000 exceeds maximum 16384");
}

#[test]
fn test_frame_error_invalid_stream_zero_display() {
    let err = FrameError::InvalidStreamZero { frame_type: 0x01 };
    assert_eq!(err.message(), "frame type 0x01 invalid on stream 0");
}

#[test]
fn test_frame_error_stream_id_required_display() {
    let err = FrameError::StreamIdRequired { frame_type: 0x00 };
    assert_eq!(
        err.message(),
        "frame type 0x00 requires non-zero stream ID"
    );
}

#[test]
fn test_frame_error_invalid_payload_length_display() {
    let err = FrameError::InvalidPayloadLength {
        frame_type: 0x04,
        expected: 6,
        actual: 10,
    };
    assert_eq!(
        err.message(),
        "frame type 0x04 expected 6 bytes, got 10"
    );
}

#[test]
fn test_frame_error_invalid_padding_display() {
    let err = FrameError::InvalidPadding {
        pad_length: 100,
        payload_length: 50,
    };
    assert_eq!(
        err.message(),
        "padding length 100 exceeds payload length 50"
    );
}

#[test]
fn test_frame_error_invalid_setting_value_display() {
    let err = FrameError::InvalidSettingValue { id: 0x05, value: 0 };
    assert_eq!(err.message(), "invalid value 0 for setting 0x0005");
}

#[test]
fn test_frame_error_invalid_window_increment_display() {
    let err = FrameError::InvalidWindowIncrement { increment: 0 };
    assert_eq!(err.message(), "invalid window increment 0");
}

#[test]
fn test_frame_error_protocol_display() {
    let err = FrameError::Protocol(ErrorCode::FlowControlError);
    assert_eq!(err.message(), "protocol error: FLOW_CONTROL_ERROR");
}

#[test]
fn test_frame_error_debug() {
    let err = FrameError::Incomplete;
    let debug = format!("{:?}", err);
    assert!(debug.contains("Incomplete"));

    let err = FrameError::FrameTooLarge { size: 100, max: 50 };
    let debug = format!("{:?}", err);
    assert!(debug.contains("FrameTooLarge"));
}
