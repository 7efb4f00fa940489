use bytes::BytesMut;
use http2_proto::frame::{ErrorCode, Frame, FrameDecoder, FrameError, SettingId, StreamId};

// FrameDecoder basic tests

#[test]
fn test_decoder_default() {
    let decoder = FrameDecoder::default();
    // Should use default max frame size
    let mut buf = BytesMut::new();
    assert!(decoder.decode(&mut buf).unwrap().is_none());
}

#[test]
fn test_decoder_set_max_frame_size() {
    let mut decoder = FrameDecoder::new();
    decoder.set_max_frame_size(32768);

    // Create a frame that would exceed default but fit in 32768
    let mut buf = BytesMut::new();
    buf.extend_from_slice(&[
        0x00, 0x50, 0x00, // Length: 20480
        0x00, // Type: DATA
        0x00, // Flags: none
        0x00, 0x00, 0x00, 0x01, // Stream ID: 1
    ]);
    buf.extend_from_slice(&vec![0u8; 20480]);

    let result = decoder.decode(&mut buf);
    assert!(result.is_ok());
}

#[test]
fn test_decode_frame_too_large() {
    let decoder = FrameDecoder::new(); // Default max is 16384

    let mut buf = BytesMut::new();
    buf.extend_from_slice(&[
        0x00, 0x50, 0x00, // Length: 20480 (exceeds 16384)
        0x00, // Type: DATA
        0x00, // Flags: none
        0x00, 0x00, 0x00, 0x01, // Stream ID: 1
    ]);
    buf.extend_from_slice(&vec![0u8; 20480]);

    let err = decoder.decode(&mut buf).unwrap_err();
    assert!(matches!(
        err,
        FrameError::FrameTooLarge {
            size: 20480,
            max: 16384
        }
    ));
}

#[test]
fn test_decode_incomplete_header() {
    let decoder = FrameDecoder::new();
    let mut buf = BytesMut::new();
    buf.extend_from_slice(&[0x00, 0x00]); // Only 2 bytes, need 9

    let result = decoder.decode(&mut buf).unwrap();
    assert!(result.is_none());
}

// SETTINGS frame tests

#[test]
fn test_decode_settings_frame() {
    let mut buf = BytesMut::new();

    // SETTINGS frame with HEADER_TABLE_SIZE = 8192
    buf.extend_from_slice(&[
        0x00, 0x00, 0x06, // Length: 6
        0x04, // Type: SETTINGS
        0x00, // Flags: none
        0x00, 0x00, 0x00, 0x00, // Stream ID: 0
        0x00, 0x01, // Setting ID: HEADER_TABLE_SIZE
        0x00, 0x00, 0x20, 0x00, // Value: 8192
    ]);

    let decoder = FrameDecoder::new();
    let frame = decoder.decode(&mut buf).unwrap().unwrap();

    match frame {
        Frame::Settings(settings) => {
            assert!(!settings.ack);
            assert_eq!(settings.settings.len(), 1);
            assert_eq!(settings.settings[0].id, SettingId::HeaderTableSize);
            assert_eq!(settings.settings[0].value, 8192);
        }
        _ => panic!("Expected SETTINGS frame"),
    }

    assert!(buf.is_empty());
}

#[test]
fn test_decode_settings_ack() {
    let mut buf = BytesMut::new();

    // SETTINGS ACK frame
    buf.extend_from_slice(&[
        0x00, 0x00, 0x00, // Length: 0
        0x04, // Type: SETTINGS
        0x01, // Flags: ACK
        0x00, 0x00, 0x00, 0x00, // Stream ID: 0
    ]);

    let decoder = FrameDecoder::new();
    let frame = decoder.decode(&mut buf).unwrap().unwrap();

    match frame {
        Frame::Settings(settings) => {
            assert!(settings.ack);
            assert!(settings.settings.is_empty());
        }
        _ => panic!("Expected SETTINGS frame"),
    }
}

#[test]
fn test_decode_settings_on_non_zero_stream() {
    let mut buf = BytesMut::new();

    // SETTINGS frame on stream 1 (invalid)
    buf.extend_from_slice(&[
        0x00, 0x00, 0x00, // Length: 0
        0x04, // Type: SETTINGS
        0x00, // Flags: none
        0x00, 0x00, 0x00, 0x01, // Stream ID: 1 (invalid)
    ]);

    let decoder = FrameDecoder::new();
    let err = decoder.decode(&mut buf).unwrap_err();
    assert!(matches!(
        err,
        FrameError::InvalidStreamZero { frame_type: 0x04 }
    ));
}

#[test]
fn test_decode_settings_ack_with_payload() {
    let mut buf = BytesMut::new();

    // SETTINGS ACK with payload (invalid)
    buf.extend_from_slice(&[
        0x00, 0x00, 0x06, // Length: 6
        0x04, // Type: SETTINGS
        0x01, // Flags: ACK
        0x00, 0x00, 0x00, 0x00, // Stream ID: 0
        0x00, 0x01, 0x00, 0x00, 0x20, 0x00,
    ]);

    let decoder = FrameDecoder::new();
    let err = decoder.decode(&mut buf).unwrap_err();
    assert!(matches!(
        err,
        FrameError::InvalidPayloadLength {
            frame_type: 0x04,
            expected: 0,
            actual: 6
        }
    ));
}

#[test]
fn test_decode_settings_invalid_payload_length() {
    let mut buf = BytesMut::new();

    // SETTINGS with 5 bytes (not multiple of 6)
    buf.extend_from_slice(&[
        0x00, 0x00, 0x05, // Length: 5
        0x04, // Type: SETTINGS
        0x00, // Flags: none
        0x00, 0x00, 0x00, 0x00, // Stream ID: 0
        0x00, 0x01, 0x00, 0x00, 0x20,
    ]);

    let decoder = FrameDecoder::new();
    let err = decoder.decode(&mut buf).unwrap_err();
    assert!(matches!(
        err,
        FrameError::InvalidPayloadLength {
            frame_type: 0x04,
            ..
        }
    ));
}

#[test]
fn test_decode_settings_invalid_enable_push() {
    let mut buf = BytesMut::new();

    // SETTINGS with ENABLE_PUSH = 2 (invalid, must be 0 or 1)
    buf.extend_from_slice(&[
        0x00, 0x00, 0x06, // Length: 6
        0x04, // Type: SETTINGS
        0x00, // Flags: none
        0x00, 0x00, 0x00, 0x00, // Stream ID: 0
        0x00, 0x02, // Setting ID: ENABLE_PUSH
        0x00, 0x00, 0x00, 0x02, // Value: 2 (invalid)
    ]);

    let decoder = FrameDecoder::new();
    let err = decoder.decode(&mut buf).unwrap_err();
    assert!(matches!(
        err,
        FrameError::InvalidSettingValue { id: 0x02, value: 2 }
    ));
}

#[test]
fn test_decode_settings_invalid_initial_window_size() {
    let mut buf = BytesMut::new();

    // SETTINGS with INITIAL_WINDOW_SIZE > 2^31-1 (invalid)
    buf.extend_from_slice(&[
        0x00, 0x00, 0x06, // Length: 6
        0x04, // Type: SETTINGS
        0x00, // Flags: none
        0x00, 0x00, 0x00, 0x00, // Stream ID: 0
        0x00, 0x04, // Setting ID: INITIAL_WINDOW_SIZE
        0x80, 0x00, 0x00, 0x00, // Value: 2^31 (invalid)
    ]);

    let decoder = FrameDecoder::new();
    let err = decoder.decode(&mut buf).unwrap_err();
    assert!(matches!(
        err,
        FrameError::InvalidSettingValue { id: 0x04, .. }
    ));
}

#[test]
fn test_decode_settings_invalid_max_frame_size_too_small() {
    let mut buf = BytesMut::new();

    // SETTINGS with MAX_FRAME_SIZE < 16384 (invalid)
    buf.extend_from_slice(&[
        0x00, 0x00, 0x06, // Length: 6
        0x04, // Type: SETTINGS
        0x00, // Flags: none
        0x00, 0x00, 0x00, 0x00, // Stream ID: 0
        0x00, 0x05, // Setting ID: MAX_FRAME_SIZE
        0x00, 0x00, 0x10, 0x00, // Value: 4096 (invalid, too small)
    ]);

    let decoder = FrameDecoder::new();
    let err = decoder.decode(&mut buf).unwrap_err();
    assert!(matches!(
        err,
        FrameError::InvalidSettingValue { id: 0x05, .. }
    ));
}

#[test]
fn test_decode_settings_invalid_max_frame_size_too_large() {
    let mut buf = BytesMut::new();

    // SETTINGS with MAX_FRAME_SIZE > 16777215 (invalid)
    buf.extend_from_slice(&[
        0x00, 0x00, 0x06, // Length: 6
        0x04, // Type: SETTINGS
        0x00, // Flags: none
        0x00, 0x00, 0x00, 0x00, // Stream ID: 0
        0x00, 0x05, // Setting ID: MAX_FRAME_SIZE
        0x01, 0x00, 0x00, 0x01, // Value: 16777217 (invalid, too large)
    ]);

    let decoder = FrameDecoder::new();
    let err = decoder.decode(&mut buf).unwrap_err();
    assert!(matches!(
        err,
        FrameError::InvalidSettingValue { id: 0x05, .. }
    ));
}

#[test]
fn test_decode_settings_multiple() {
    let mut buf = BytesMut::new();

    // SETTINGS with multiple settings
    buf.extend_from_slice(&[
        0x00, 0x00, 0x12, // Length: 18 (3 settings)
        0x04, // Type: SETTINGS
        0x00, // Flags: none
        0x00, 0x00, 0x00, 0x00, // Stream ID: 0
        0x00, 0x01, 0x00, 0x00, 0x10, 0x00, // HEADER_TABLE_SIZE = 4096
        0x00, 0x03, 0x00, 0x00, 0x00, 0x64, // MAX_CONCURRENT_STREAMS = 100
        0x00, 0x04, 0x00, 0x00, 0xff, 0xff, // INITIAL_WINDOW_SIZE = 65535
    ]);

    let decoder = FrameDecoder::new();
    let frame = decoder.decode(&mut buf).unwrap().unwrap();

    match frame {
        Frame::Settings(settings) => {
            assert_eq!(settings.settings.len(), 3);
            assert_eq!(settings.settings[0].id, SettingId::HeaderTableSize);
            assert_eq!(settings.settings[0].value, 4096);
            assert_eq!(settings.settings[1].id, SettingId::MaxConcurrentStreams);
            assert_eq!(settings.settings[1].value, 100);
            assert_eq!(settings.settings[2].id, SettingId::InitialWindowSize);
            assert_eq!(settings.settings[2].value, 65535);
        }
        _ => panic!("Expected SETTINGS frame"),
    }
}

// PING frame tests

#[test]
fn test_decode_ping_frame() {
    let mut buf = BytesMut::new();

    // PING frame
    buf.extend_from_slice(&[
        0x00, 0x00, 0x08, // Length: 8
        0x06, // Type: PING
        0x00, // Flags: none
        0x00, 0x00, 0x00, 0x00, // Stream ID: 0
        0x01, 0x02, 0x03, 0x04, 0x05, 0x06, 0x07, 0x08, // Data
    ]);

    let decoder = FrameDecoder::new();
    let frame = decoder.decode(&mut buf).unwrap().unwrap();

    match frame {
        Frame::Ping(ping) => {
            assert!(!ping.ack);
            assert_eq!(ping.data, [0x01, 0x02, 0x03, 0x04, 0x05, 0x06, 0x07, 0x08]);
        }
        _ => panic!("Expected PING frame"),
    }
}

#[test]
fn test_decode_ping_ack() {
    let mut buf = BytesMut::new();

    // PING ACK frame
    buf.extend_from_slice(&[
        0x00, 0x00, 0x08, // Length: 8
        0x06, // Type: PING
        0x01, // Flags: ACK
        0x00, 0x00, 0x00, 0x00, // Stream ID: 0
        0x01, 0x02, 0x03, 0x04, 0x05, 0x06, 0x07, 0x08, // Data
    ]);

    let decoder = FrameDecoder::new();
    let frame = decoder.decode(&mut buf).unwrap().unwrap();

    match frame {
        Frame::Ping(ping) => {
            assert!(ping.ack);
        }
        _ => panic!("Expected PING frame"),
    }
}

#[test]
fn test_decode_ping_on_non_zero_stream() {
    let mut buf = BytesMut::new();

    // PING frame on stream 1 (invalid)
    buf.extend_from_slice(&[
        0x00, 0x00, 0x08, // Length: 8
        0x06, // Type: PING
        0x00, // Flags: none
        0x00, 0x00, 0x00, 0x01, // Stream ID: 1 (invalid)
        0x01, 0x02, 0x03, 0x04, 0x05, 0x06, 0x07, 0x08,
    ]);

    let decoder = FrameDecoder::new();
    let err = decoder.decode(&mut buf).unwrap_err();
    assert!(matches!(
        err,
        FrameError::InvalidStreamZero { frame_type: 0x06 }
    ));
}

#[test]
fn test_decode_ping_wrong_size() {
    let mut buf = BytesMut::new();

    // PING frame with wrong payload size
    buf.extend_from_slice(&[
        0x00, 0x00, 0x07, // Length: 7 (should be 8)
        0x06, // Type: PING
        0x00, // Flags: none
        0x00, 0x00, 0x00, 0x00, // Stream ID: 0
        0x01, 0x02, 0x03, 0x04, 0x05, 0x06, 0x07,
    ]);

    let decoder = FrameDecoder::new();
    let err = decoder.decode(&mut buf).unwrap_err();
    assert!(matches!(
        err,
        FrameError::InvalidPayloadLength {
            frame_type: 0x06,
            expected: 8,
            actual: 7
        }
    ));
}

// WINDOW_UPDATE frame tests

#[test]
fn test_decode_window_update() {
    let mut buf = BytesMut::new();

    // WINDOW_UPDATE frame
    buf.extend_from_slice(&[
        0x00, 0x00, 0x04, // Length: 4
        0x08, // Type: WINDOW_UPDATE
        0x00, // Flags: none
        0x00, 0x00, 0x00, 0x01, // Stream ID: 1
        0x00, 0x01, 0x00, 0x00, // Increment: 65536
    ]);

    let decoder = FrameDecoder::new();
    let frame = decoder.decode(&mut buf).unwrap().unwrap();

    match frame {
        Frame::WindowUpdate(wu) => {
            assert_eq!(wu.stream_id.value(), 1);
            assert_eq!(wu.increment, 65536);
        }
        _ => panic!("Expected WINDOW_UPDATE frame"),
    }
}

#[test]
fn test_decode_window_update_connection_level() {
    let mut buf = BytesMut::new();

    // WINDOW_UPDATE on stream 0 (connection level)
    buf.extend_from_slice(&[
        0x00, 0x00, 0x04, // Length: 4
        0x08, // Type: WINDOW_UPDATE
        0x00, // Flags: none
        0x00, 0x00, 0x00, 0x00, // Stream ID: 0
        0x00, 0x01, 0x00, 0x00, // Increment: 65536
    ]);

    let decoder = FrameDecoder::new();
    let frame = decoder.decode(&mut buf).unwrap().unwrap();

    match frame {
        Frame::WindowUpdate(wu) => {
            assert!(wu.stream_id.is_connection_level());
        }
        _ => panic!("Expected WINDOW_UPDATE frame"),
    }
}

#[test]
fn test_decode_window_update_wrong_size() {
    let mut buf = BytesMut::new();

    // WINDOW_UPDATE with wrong payload size
    buf.extend_from_slice(&[
        0x00, 0x00, 0x05, // Length: 5 (should be 4)
        0x08, // Type: WINDOW_UPDATE
        0x00, // Flags: none
        0x00, 0x00, 0x00, 0x01, // Stream ID: 1
        0x00, 0x01, 0x00, 0x00, 0x00,
    ]);

    let decoder = FrameDecoder::new();
    let err = decoder.decode(&mut buf).unwrap_err();
    assert!(matches!(
        err,
        FrameError::InvalidPayloadLength {
            frame_type: 0x08,
            expected: 4,
            actual: 5
        }
    ));
}

#[test]
fn test_decode_window_update_zero_increment() {
    let mut buf = BytesMut::new();

    // WINDOW_UPDATE with zero increment (invalid)
    buf.extend_from_slice(&[
        0x00, 0x00, 0x04, // Length: 4
        0x08, // Type: WINDOW_UPDATE
        0x00, // Flags: none
        0x00, 0x00, 0x00, 0x01, // Stream ID: 1
        0x00, 0x00, 0x00, 0x00, // Increment: 0 (invalid)
    ]);

    let decoder = FrameDecoder::new();
    let err = decoder.decode(&mut buf).unwrap_err();
    assert!(matches!(
        err,
        FrameError::InvalidWindowIncrement { increment: 0 }
    ));
}

// DATA frame tests

#[test]
fn test_decode_incomplete() {
    let mut buf = BytesMut::new();

    // Incomplete frame (only header, no payload)
    buf.extend_from_slice(&[
        0x00, 0x00, 0x08, // Length: 8
        0x06, // Type: PING
        0x00, // Flags: none
        0x00, 0x00, 0x00,
        0x00, // Stream ID: 0
              // Missing 8 bytes of payload
    ]);

    let decoder = FrameDecoder::new();
    let result = decoder.decode(&mut buf).unwrap();
    assert!(result.is_none());

    // Buffer should be unchanged
    assert_eq!(buf.len(), 9);
}

#[test]
fn test_decode_data_frame() {
    let mut buf = BytesMut::new();

    // DATA frame with END_STREAM
    buf.extend_from_slice(&[
        0x00, 0x00, 0x05, // Length: 5
        0x00, // Type: DATA
        0x01, // Flags: END_STREAM
        0x00, 0x00, 0x00, 0x01, // Stream ID: 1
        b'h', b'e', b'l', b'l', b'o', // Data
    ]);

    let decoder = FrameDecoder::new();
    let frame = decoder.decode(&mut buf).unwrap().unwrap();

    match frame {
        Frame::Data(data) => {
            assert_eq!(data.stream_id.value(), 1);
            assert!(data.end_stream);
            assert_eq!(&data.data[..], b"hello");
        }
        _ => panic!("Expected DATA frame"),
    }
}

#[test]
fn test_decode_data_no_end_stream() {
    let mut buf = BytesMut::new();

    // DATA frame without END_STREAM
    buf.extend_from_slice(&[
        0x00, 0x00, 0x05, // Length: 5
        0x00, // Type: DATA
        0x00, // Flags: none
        0x00, 0x00, 0x00, 0x01, // Stream ID: 1
        b'h', b'e', b'l', b'l', b'o',
    ]);

    let decoder = FrameDecoder::new();
    let frame = decoder.decode(&mut buf).unwrap().unwrap();

    match frame {
        Frame::Data(data) => {
            assert!(!data.end_stream);
        }
        _ => panic!("Expected DATA frame"),
    }
}

#[test]
fn test_decode_data_on_stream_zero() {
    let mut buf = BytesMut::new();

    // DATA frame on stream 0 (invalid)
    buf.extend_from_slice(&[
        0x00, 0x00, 0x05, // Length: 5
        0x00, // Type: DATA
        0x00, // Flags: none
        0x00, 0x00, 0x00, 0x00, // Stream ID: 0 (invalid)
        b'h', b'e', b'l', b'l', b'o',
    ]);

    let decoder = FrameDecoder::new();
    let err = decoder.decode(&mut buf).unwrap_err();
    assert!(matches!(
        err,
        FrameError::StreamIdRequired { frame_type: 0x00 }
    ));
}

#[test]
fn test_decode_data_padded() {
    let mut buf = BytesMut::new();

    // DATA frame with padding
    buf.extend_from_slice(&[
        0x00, 0x00, 0x09, // Length: 9
        0x00, // Type: DATA
        0x08, // Flags: PADDED
        0x00, 0x00, 0x00, 0x01, // Stream ID: 1
        0x03, // Pad length: 3
        b'h', b'e', b'l', b'l', b'o', // Data: "hello"
        0x00, 0x00, 0x00, // Padding
    ]);

    let decoder = FrameDecoder::new();
    let frame = decoder.decode(&mut buf).unwrap().unwrap();

    match frame {
        Frame::Data(data) => {
            assert_eq!(&data.data[..], b"hello");
        }
        _ => panic!("Expected DATA frame"),
    }
}

#[test]
fn test_decode_data_invalid_padding() {
    let mut buf = BytesMut::new();

    // DATA frame with invalid padding (pad_length > payload)
    buf.extend_from_slice(&[
        0x00, 0x00, 0x05, // Length: 5
        0x00, // Type: DATA
        0x08, // Flags: PADDED
        0x00, 0x00, 0x00, 0x01, // Stream ID: 1
        0x10, // Pad length: 16 (exceeds payload)
        b'h', b'e', b'l', b'l',
    ]);

    let decoder = FrameDecoder::new();
    let err = decoder.decode(&mut buf).unwrap_err();
    assert!(matches!(err, FrameError::InvalidPadding { .. }));
}

#[test]
fn test_decode_data_empty_padded_payload() {
    let mut buf = BytesMut::new();

    // DATA frame with PADDED flag but empty payload
    buf.extend_from_slice(&[
        0x00, 0x00, 0x00, // Length: 0
        0x00, // Type: DATA
        0x08, // Flags: PADDED
        0x00, 0x00, 0x00, 0x01, // Stream ID: 1
    ]);

    let decoder = FrameDecoder::new();
    let err = decoder.decode(&mut buf).unwrap_err();
    assert!(matches!(
        err,
        FrameError::InvalidPadding {
            pad_length: 0,
            payload_length: 0
        }
    ));
}

// HEADERS frame tests

#[test]
fn test_decode_headers_frame() {
    let mut buf = BytesMut::new();

    // HEADERS frame with END_HEADERS
    buf.extend_from_slice(&[
        0x00, 0x00, 0x03, // Length: 3
        0x01, // Type: HEADERS
        0x04, // Flags: END_HEADERS
        0x00, 0x00, 0x00, 0x01, // Stream ID: 1
        0x82, 0x86, 0x84, // HPACK encoded headers (example)
    ]);

    let decoder = FrameDecoder::new();
    let frame = decoder.decode(&mut buf).unwrap().unwrap();

    match frame {
        Frame::Headers(headers) => {
            assert_eq!(headers.stream_id.value(), 1);
            assert!(!headers.end_stream);
            assert!(headers.end_headers);
            assert!(headers.priority.is_none());
            assert_eq!(headers.header_block.len(), 3);
        }
        _ => panic!("Expected HEADERS frame"),
    }
}

#[test]
fn test_decode_headers_with_end_stream() {
    let mut buf = BytesMut::new();

    // HEADERS frame with END_STREAM and END_HEADERS
    buf.extend_from_slice(&[
        0x00, 0x00, 0x03, // Length: 3
        0x01, // Type: HEADERS
        0x05, // Flags: END_STREAM | END_HEADERS
        0x00, 0x00, 0x00, 0x01, // Stream ID: 1
        0x82, 0x86, 0x84,
    ]);

    let decoder = FrameDecoder::new();
    let frame = decoder.decode(&mut buf).unwrap().unwrap();

    match frame {
        Frame::Headers(headers) => {
            assert!(headers.end_stream);
            assert!(headers.end_headers);
        }
        _ => panic!("Expected HEADERS frame"),
    }
}

#[test]
fn test_decode_headers_on_stream_zero() {
    let mut buf = BytesMut::new();

    // HEADERS frame on stream 0 (invalid)
    buf.extend_from_slice(&[
        0x00, 0x00, 0x03, // Length: 3
        0x01, // Type: HEADERS
        0x04, // Flags: END_HEADERS
        0x00, 0x00, 0x00, 0x00, // Stream ID: 0 (invalid)
        0x82, 0x86, 0x84,
    ]);

    let decoder = FrameDecoder::new();
    let err = decoder.decode(&mut buf).unwrap_err();
    assert!(matches!(
        err,
        FrameError::StreamIdRequired { frame_type: 0x01 }
    ));
}

#[test]
fn test_decode_headers_with_priority() {
    let mut buf = BytesMut::new();

    // HEADERS frame with PRIORITY flag
    buf.extend_from_slice(&[
        0x00, 0x00, 0x08, // Length: 8 (5 priority + 3 headers)
        0x01, // Type: HEADERS
        0x24, // Flags: PRIORITY | END_HEADERS
        0x00, 0x00, 0x00, 0x01, // Stream ID: 1
        0x80, 0x00, 0x00, 0x03, // Stream dependency: 3 (exclusive)
        0x0f, // Weight: 15
        0x82, 0x86, 0x84, // Header block
    ]);

    let decoder = FrameDecoder::new();
    let frame = decoder.decode(&mut buf).unwrap().unwrap();

    match frame {
        Frame::Headers(headers) => {
            let priority = headers.priority.unwrap();
            assert!(priority.exclusive);
            assert_eq!(priority.dependency.value(), 3);
            assert_eq!(priority.weight, 15);
        }
        _ => panic!("Expected HEADERS frame"),
    }
}

#[test]
fn test_decode_headers_with_priority_too_short() {
    let mut buf = BytesMut::new();

    // HEADERS frame with PRIORITY flag but payload too short
    buf.extend_from_slice(&[
        0x00, 0x00, 0x03, // Length: 3 (need 5 for priority)
        0x01, // Type: HEADERS
        0x20, // Flags: PRIORITY
        0x00, 0x00, 0x00, 0x01, // Stream ID: 1
        0x82, 0x86, 0x84, // Not enough for priority
    ]);

    let decoder = FrameDecoder::new();
    let err = decoder.decode(&mut buf).unwrap_err();
    assert!(matches!(
        err,
        FrameError::InvalidPayloadLength {
            frame_type: 0x01,
            expected: 5,
            ..
        }
    ));
}

#[test]
fn test_decode_headers_padded() {
    let mut buf = BytesMut::new();

    // HEADERS frame with padding
    buf.extend_from_slice(&[
        0x00, 0x00, 0x07, // Length: 7
        0x01, // Type: HEADERS
        0x0c, // Flags: PADDED | END_HEADERS
        0x00, 0x00, 0x00, 0x01, // Stream ID: 1
        0x03, // Pad length: 3
        0x82, 0x86, 0x84, // Header block
        0x00, 0x00, 0x00, // Padding
    ]);

    let decoder = FrameDecoder::new();
    let frame = decoder.decode(&mut buf).unwrap().unwrap();

    match frame {
        Frame::Headers(headers) => {
            assert_eq!(headers.header_block.len(), 3);
        }
        _ => panic!("Expected HEADERS frame"),
    }
}

// PRIORITY frame tests

#[test]
fn test_decode_priority_frame() {
    let mut buf = BytesMut::new();

    // PRIORITY frame
    buf.extend_from_slice(&[
        0x00, 0x00, 0x05, // Length: 5
        0x02, // Type: PRIORITY
        0x00, // Flags: none
        0x00, 0x00, 0x00, 0x01, // Stream ID: 1
        0x00, 0x00, 0x00, 0x03, // Stream dependency: 3
        0x10, // Weight: 16
    ]);

    let decoder = FrameDecoder::new();
    let frame = decoder.decode(&mut buf).unwrap().unwrap();

    match frame {
        Frame::Priority(priority) => {
            assert_eq!(priority.stream_id.value(), 1);
            assert!(!priority.priority.exclusive);
            assert_eq!(priority.priority.dependency.value(), 3);
            assert_eq!(priority.priority.weight, 16);
        }
        _ => panic!("Expected PRIORITY frame"),
    }
}

#[test]
fn test_decode_priority_exclusive() {
    let mut buf = BytesMut::new();

    // PRIORITY frame with exclusive flag
    buf.extend_from_slice(&[
        0x00, 0x00, 0x05, // Length: 5
        0x02, // Type: PRIORITY
        0x00, // Flags: none
        0x00, 0x00, 0x00, 0x01, // Stream ID: 1
        0x80, 0x00, 0x00, 0x03, // Stream dependency: 3 (exclusive)
        0x10, // Weight: 16
    ]);

    let decoder = FrameDecoder::new();
    let frame = decoder.decode(&mut buf).unwrap().unwrap();

    match frame {
        Frame::Priority(priority) => {
            assert!(priority.priority.exclusive);
            assert_eq!(priority.priority.dependency.value(), 3);
        }
        _ => panic!("Expected PRIORITY frame"),
    }
}

#[test]
fn test_decode_priority_on_stream_zero() {
    let mut buf = BytesMut::new();

    // PRIORITY frame on stream 0 (invalid)
    buf.extend_from_slice(&[
        0x00, 0x00, 0x05, // Length: 5
        0x02, // Type: PRIORITY
        0x00, // Flags: none
        0x00, 0x00, 0x00, 0x00, // Stream ID: 0 (invalid)
        0x00, 0x00, 0x00, 0x03, 0x10,
    ]);

    let decoder = FrameDecoder::new();
    let err = decoder.decode(&mut buf).unwrap_err();
    assert!(matches!(
        err,
        FrameError::StreamIdRequired { frame_type: 0x02 }
    ));
}

#[test]
fn test_decode_priority_wrong_size() {
    let mut buf = BytesMut::new();

    // PRIORITY frame with wrong payload size
    buf.extend_from_slice(&[
        0x00, 0x00, 0x04, // Length: 4 (should be 5)
        0x02, // Type: PRIORITY
        0x00, // Flags: none
        0x00, 0x00, 0x00, 0x01, // Stream ID: 1
        0x00, 0x00, 0x00, 0x03,
    ]);

    let decoder = FrameDecoder::new();
    let err = decoder.decode(&mut buf).unwrap_err();
    assert!(matches!(
        err,
        FrameError::InvalidPayloadLength {
            frame_type: 0x02,
            expected: 5,
            actual: 4
        }
    ));
}

// RST_STREAM frame tests

#[test]
fn test_decode_rst_stream() {
    let mut buf = BytesMut::new();

    // RST_STREAM frame
    buf.extend_from_slice(&[
        0x00, 0x00, 0x04, // Length: 4
        0x03, // Type: RST_STREAM
        0x00, // Flags: none
        0x00, 0x00, 0x00, 0x01, // Stream ID: 1
        0x00, 0x00, 0x00, 0x08, // Error code: CANCEL (8)
    ]);

    let decoder = FrameDecoder::new();
    let frame = decoder.decode(&mut buf).unwrap().unwrap();

    match frame {
        Frame::RstStream(rst) => {
            assert_eq!(rst.stream_id.value(), 1);
            assert_eq!(rst.error_code, 0x08);
        }
        _ => panic!("Expected RST_STREAM frame"),
    }
}

#[test]
fn test_decode_rst_stream_on_stream_zero() {
    let mut buf = BytesMut::new();

    // RST_STREAM frame on stream 0 (invalid)
    buf.extend_from_slice(&[
        0x00, 0x00, 0x04, // Length: 4
        0x03, // Type: RST_STREAM
        0x00, // Flags: none
        0x00, 0x00, 0x00, 0x00, // Stream ID: 0 (invalid)
        0x00, 0x00, 0x00, 0x08,
    ]);

    let decoder = FrameDecoder::new();
    let err = decoder.decode(&mut buf).unwrap_err();
    assert!(matches!(
        err,
        FrameError::StreamIdRequired { frame_type: 0x03 }
    ));
}

#[test]
fn test_decode_rst_stream_wrong_size() {
    let mut buf = BytesMut::new();

    // RST_STREAM frame with wrong payload size
    buf.extend_from_slice(&[
        0x00, 0x00, 0x05, // Length: 5 (should be 4)
        0x03, // Type: RST_STREAM
        0x00, // Flags: none
        0x00, 0x00, 0x00, 0x01, // Stream ID: 1
        0x00, 0x00, 0x00, 0x08, 0x00,
    ]);

    let decoder = FrameDecoder::new();
    let err = decoder.decode(&mut buf).unwrap_err();
    assert!(matches!(
        err,
        FrameError::InvalidPayloadLength {
            frame_type: 0x03,
            expected: 4,
            actual: 5
        }
    ));
}

// GOAWAY frame tests

#[test]
fn test_decode_goaway() {
    let mut buf = BytesMut::new();

    // GOAWAY frame
    buf.extend_from_slice(&[
        0x00, 0x00, 0x08, // Length: 8
        0x07, // Type: GOAWAY
        0x00, // Flags: none
        0x00, 0x00, 0x00, 0x00, // Stream ID: 0
        0x00, 0x00, 0x00, 0x01, // Last stream ID: 1
        0x00, 0x00, 0x00, 0x00, // Error code: NO_ERROR
    ]);

    let decoder = FrameDecoder::new();
    let frame = decoder.decode(&mut buf).unwrap().unwrap();

    match frame {
        Frame::GoAway(goaway) => {
            assert_eq!(goaway.last_stream_id.value(), 1);
            assert_eq!(goaway.error_code, 0);
            assert!(goaway.debug_data.is_empty());
        }
        _ => panic!("Expected GOAWAY frame"),
    }
}

#[test]
fn test_decode_goaway_with_debug_data() {
    let mut buf = BytesMut::new();

    // GOAWAY frame with debug data
    buf.extend_from_slice(&[
        0x00, 0x00, 0x0d, // Length: 13
        0x07, // Type: GOAWAY
        0x00, // Flags: none
        0x00, 0x00, 0x00, 0x00, // Stream ID: 0
        0x00, 0x00, 0x00, 0x01, // Last stream ID: 1
        0x00, 0x00, 0x00, 0x02, // Error code: INTERNAL_ERROR
        b'e', b'r', b'r', b'o', b'r', // Debug data
    ]);

    let decoder = FrameDecoder::new();
    let frame = decoder.decode(&mut buf).unwrap().unwrap();

    match frame {
        Frame::GoAway(goaway) => {
            assert_eq!(goaway.error_code, 2);
            assert_eq!(&goaway.debug_data[..], b"error");
        }
        _ => panic!("Expected GOAWAY frame"),
    }
}

#[test]
fn test_decode_goaway_on_non_zero_stream() {
    let mut buf = BytesMut::new();

    // GOAWAY frame on stream 1 (invalid)
    buf.extend_from_slice(&[
        0x00, 0x00, 0x08, // Length: 8
        0x07, // Type: GOAWAY
        0x00, // Flags: none
        0x00, 0x00, 0x00, 0x01, // Stream ID: 1 (invalid)
        0x00, 0x00, 0x00, 0x01, 0x00, 0x00, 0x00, 0x00,
    ]);

    let decoder = FrameDecoder::new();
    let err = decoder.decode(&mut buf).unwrap_err();
    assert!(matches!(
        err,
        FrameError::InvalidStreamZero { frame_type: 0x07 }
    ));
}

#[test]
fn test_decode_goaway_too_short() {
    let mut buf = BytesMut::new();

    // GOAWAY frame too short
    buf.extend_from_slice(&[
        0x00, 0x00, 0x06, // Length: 6 (need at least 8)
        0x07, // Type: GOAWAY
        0x00, // Flags: none
        0x00, 0x00, 0x00, 0x00, // Stream ID: 0
        0x00, 0x00, 0x00, 0x01, 0x00, 0x00,
    ]);

    let decoder = FrameDecoder::new();
    let err = decoder.decode(&mut buf).unwrap_err();
    assert!(matches!(
        err,
        FrameError::InvalidPayloadLength {
            frame_type: 0x07,
            expected: 8,
            actual: 6
        }
    ));
}

// PUSH_PROMISE frame tests

#[test]
fn test_decode_push_promise() {
    let mut buf = BytesMut::new();

    // PUSH_PROMISE frame
    buf.extend_from_slice(&[
        0x00, 0x00, 0x07, // Length: 7
        0x05, // Type: PUSH_PROMISE
        0x04, // Flags: END_HEADERS
        0x00, 0x00, 0x00, 0x01, // Stream ID: 1
        0x00, 0x00, 0x00, 0x02, // Promised stream ID: 2
        0x82, 0x86, 0x84, // Header block
    ]);

    let decoder = FrameDecoder::new();
    let frame = decoder.decode(&mut buf).unwrap().unwrap();

    match frame {
        Frame::PushPromise(pp) => {
            assert_eq!(pp.stream_id.value(), 1);
            assert_eq!(pp.promised_stream_id.value(), 2);
            assert!(pp.end_headers);
            assert_eq!(pp.header_block.len(), 3);
        }
        _ => panic!("Expected PUSH_PROMISE frame"),
    }
}

#[test]
fn test_decode_push_promise_on_stream_zero() {
    let mut buf = BytesMut::new();

    // PUSH_PROMISE frame on stream 0 (invalid)
    buf.extend_from_slice(&[
        0x00, 0x00, 0x07, // Length: 7
        0x05, // Type: PUSH_PROMISE
        0x04, // Flags: END_HEADERS
        0x00, 0x00, 0x00, 0x00, // Stream ID: 0 (invalid)
        0x00, 0x00, 0x00, 0x02, 0x82, 0x86, 0x84,
    ]);

    let decoder = FrameDecoder::new();
    let err = decoder.decode(&mut buf).unwrap_err();
    assert!(matches!(
        err,
        FrameError::StreamIdRequired { frame_type: 0x05 }
    ));
}

#[test]
fn test_decode_push_promise_too_short() {
    let mut buf = BytesMut::new();

    // PUSH_PROMISE frame too short (need at least 4 bytes for promised stream ID)
    buf.extend_from_slice(&[
        0x00, 0x00, 0x03, // Length: 3 (need at least 4)
        0x05, // Type: PUSH_PROMISE
        0x04, // Flags: END_HEADERS
        0x00, 0x00, 0x00, 0x01, // Stream ID: 1
        0x00, 0x00, 0x02, // Not enough bytes
    ]);

    let decoder = FrameDecoder::new();
    let err = decoder.decode(&mut buf).unwrap_err();
    assert!(matches!(
        err,
        FrameError::InvalidPayloadLength {
            frame_type: 0x05,
            expected: 4,
            ..
        }
    ));
}

#[test]
fn test_decode_push_promise_padded() {
    let mut buf = BytesMut::new();

    // PUSH_PROMISE frame with padding
    buf.extend_from_slice(&[
        0x00, 0x00, 0x0b, // Length: 11
        0x05, // Type: PUSH_PROMISE
        0x0c, // Flags: PADDED | END_HEADERS
        0x00, 0x00, 0x00, 0x01, // Stream ID: 1
        0x03, // Pad length: 3
        0x00, 0x00, 0x00, 0x02, // Promised stream ID: 2
        0x82, 0x86, 0x84, // Header block
        0x00, 0x00, 0x00, // Padding
    ]);

    let decoder = FrameDecoder::new();
    let frame = decoder.decode(&mut buf).unwrap().unwrap();

    match frame {
        Frame::PushPromise(pp) => {
            assert_eq!(pp.promised_stream_id.value(), 2);
        }
        _ => panic!("Expected PUSH_PROMISE frame"),
    }
}

// CONTINUATION frame tests

#[test]
fn test_decode_continuation() {
    let mut buf = BytesMut::new();

    // CONTINUATION frame
    buf.extend_from_slice(&[
        0x00, 0x00, 0x03, // Length: 3
        0x09, // Type: CONTINUATION
        0x04, // Flags: END_HEADERS
        0x00, 0x00, 0x00, 0x01, // Stream ID: 1
        0x82, 0x86, 0x84, // Header block
    ]);

    let decoder = FrameDecoder::new();
    let frame = decoder.decode(&mut buf).unwrap().unwrap();

    match frame {
        Frame::Continuation(cont) => {
            assert_eq!(cont.stream_id.value(), 1);
            assert!(cont.end_headers);
            assert_eq!(cont.header_block.len(), 3);
        }
        _ => panic!("Expected CONTINUATION frame"),
    }
}

#[test]
fn test_decode_continuation_no_end_headers() {
    let mut buf = BytesMut::new();

    // CONTINUATION frame without END_HEADERS
    buf.extend_from_slice(&[
        0x00, 0x00, 0x03, // Length: 3
        0x09, // Type: CONTINUATION
        0x00, // Flags: none
        0x00, 0x00, 0x00, 0x01, // Stream ID: 1
        0x82, 0x86, 0x84,
    ]);

    let decoder = FrameDecoder::new();
    let frame = decoder.decode(&mut buf).unwrap().unwrap();

    match frame {
        Frame::Continuation(cont) => {
            assert!(!cont.end_headers);
        }
        _ => panic!("Expected CONTINUATION frame"),
    }
}

#[test]
fn test_decode_continuation_on_stream_zero() {
    let mut buf = BytesMut::new();

    // CONTINUATION frame on stream 0 (invalid)
    buf.extend_from_slice(&[
        0x00, 0x00, 0x03, // Length: 3
        0x09, // Type: CONTINUATION
        0x04, // Flags: END_HEADERS
        0x00, 0x00, 0x00, 0x00, // Stream ID: 0 (invalid)
        0x82, 0x86, 0x84,
    ]);

    let decoder = FrameDecoder::new();
    let err = decoder.decode(&mut buf).unwrap_err();
    assert!(matches!(
        err,
        FrameError::StreamIdRequired { frame_type: 0x09 }
    ));
}

// Unknown frame type tests

#[test]
fn test_decode_unknown_frame() {
    let mut buf = BytesMut::new();

    // Unknown frame type 0xFF
    buf.extend_from_slice(&[
        0x00, 0x00, 0x05, // Length: 5
        0xff, // Type: Unknown
        0x00, // Flags: none
        0x00, 0x00, 0x00, 0x01, // Stream ID: 1
        b'h', b'e', b'l', b'l', b'o',
    ]);

    let decoder = FrameDecoder::new();
    let frame = decoder.decode(&mut buf).unwrap().unwrap();

    match frame {
        Frame::Unknown(unknown) => {
            assert_eq!(unknown.frame_type, 0xff);
            assert_eq!(unknown.flags, 0x00);
            assert_eq!(unknown.stream_id.value(), 1);
            assert_eq!(&unknown.payload[..], b"hello");
        }
        _ => panic!("Expected Unknown frame"),
    }
}

// Multiple frames test

#[test]
fn test_decode_multiple_frames() {
    let mut buf = BytesMut::new();

    // Two PING frames
    buf.extend_from_slice(&[
        // First PING
        0x00, 0x00, 0x08, 0x06, 0x00, 0x00, 0x00, 0x00, 0x00, 0x01, 0x02, 0x03, 0x04, 0x05,
        0x06, 0x07, 0x08, // Second PING
        0x00, 0x00, 0x08, 0x06, 0x01, // ACK
        0x00, 0x00, 0x00, 0x00, 0x01, 0x02, 0x03, 0x04, 0x05, 0x06, 0x07, 0x08,
    ]);

    let decoder = FrameDecoder::new();

    let frame1 = decoder.decode(&mut buf).unwrap().unwrap();
    assert!(matches!(frame1, Frame::Ping(p) if !p.ack));

    let frame2 = decoder.decode(&mut buf).unwrap().unwrap();
    assert!(matches!(frame2, Frame::Ping(p) if p.ack));

    assert!(buf.is_empty());
}

#[test]
fn test_decode_window_update_masks_reserved_bit() {
    let mut buf = BytesMut::new();

    // WINDOW_UPDATE with reserved bit set
    buf.extend_from_slice(&[
        0x00, 0x00, 0x04, // Length: 4
        0x08, // Type: WINDOW_UPDATE
        0x00, // Flags: none
        0x00, 0x00, 0x00, 0x01, // Stream ID: 1
        0x80, 0x01, 0x00, 0x00, // Increment with reserved bit set
    ]);

    let decoder = FrameDecoder::new();
    let frame = decoder.decode(&mut buf).unwrap().unwrap();

    match frame {
        Frame::WindowUpdate(wu) => {
            // Reserved bit should be masked off
            assert_eq!(wu.increment, 65536);
        }
        _ => panic!("Expected WINDOW_UPDATE frame"),
    }
}
