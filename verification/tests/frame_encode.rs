use bytes::{Buf, BytesMut};
use http2_proto::frame::{
    ContinuationFrame, DataFrame, Frame, FrameDecoder, FrameEncoder, GoAwayFrame, HeadersFrame,
    PingFrame, Priority, PriorityFrame, PushPromiseFrame, RstStreamFrame, Setting, SettingId,
    SettingsFrame, StreamId, UnknownFrame, WindowUpdateFrame, CONNECTION_PREFACE,
    DEFAULT_MAX_FRAME_SIZE,
};

// FrameEncoder basic tests

#[test]
fn test_encoder_default() {
    let encoder = FrameEncoder::default();
    assert_eq!(
        encoder.max_frame_size(),
        DEFAULT_MAX_FRAME_SIZE
    );
}

#[test]
fn test_encoder_new() {
    let encoder = FrameEncoder::new();
    assert_eq!(
        encoder.max_frame_size(),
        DEFAULT_MAX_FRAME_SIZE
    );
}

#[test]
fn test_encoder_set_max_frame_size() {
    let mut encoder = FrameEncoder::new();
    encoder.set_max_frame_size(32768);
    assert_eq!(encoder.max_frame_size(), 32768);
}

// Roundtrip tests

#[test]
fn test_roundtrip_settings() {
    let encoder = FrameEncoder::new();
    let decoder = FrameDecoder::new();

    let original = SettingsFrame {
        ack: false,
        settings: vec![
            Setting {
                id: SettingId::HeaderTableSize,
                value: 8192,
            },
            Setting {
                id: SettingId::MaxConcurrentStreams,
                value: 100,
            },
        ],
    };

    let mut buf = BytesMut::new();
    encoder.encode(&Frame::Settings(original.clone()), &mut buf);

    let decoded = decoder.decode(&mut buf).unwrap().unwrap();

    match decoded {
        Frame::Settings(settings) => {
            assert_eq!(settings.ack, original.ack);
            assert_eq!(settings.settings.len(), original.settings.len());
            for (a, b) in settings.settings.iter().zip(original.settings.iter()) {
                assert_eq!(a.id, b.id);
                assert_eq!(a.value, b.value);
            }
        }
        _ => panic!("Expected SETTINGS frame"),
    }
}

#[test]
fn test_roundtrip_settings_ack() {
    let encoder = FrameEncoder::new();
    let decoder = FrameDecoder::new();

    let original = SettingsFrame {
        ack: true,
        settings: vec![],
    };

    let mut buf = BytesMut::new();
    encoder.encode(&Frame::Settings(original.clone()), &mut buf);

    let decoded = decoder.decode(&mut buf).unwrap().unwrap();

    match decoded {
        Frame::Settings(settings) => {
            assert!(settings.ack);
            assert!(settings.settings.is_empty());
        }
        _ => panic!("Expected SETTINGS frame"),
    }
}

#[test]
fn test_roundtrip_ping() {
    let encoder = FrameEncoder::new();
    let decoder = FrameDecoder::new();

    let original = PingFrame {
        ack: false,
        data: [1, 2, 3, 4, 5, 6, 7, 8],
    };

    let mut buf = BytesMut::new();
    encoder.encode(&Frame::Ping(original), &mut buf);

    let decoded = decoder.decode(&mut buf).unwrap().unwrap();

    match decoded {
        Frame::Ping(ping) => {
            assert_eq!(ping.ack, original.ack);
            assert_eq!(ping.data, original.data);
        }
        _ => panic!("Expected PING frame"),
    }
}

#[test]
fn test_roundtrip_ping_ack() {
    let encoder = FrameEncoder::new();
    let decoder = FrameDecoder::new();

    let original = PingFrame {
        ack: true,
        data: [8, 7, 6, 5, 4, 3, 2, 1],
    };

    let mut buf = BytesMut::new();
    encoder.encode(&Frame::Ping(original), &mut buf);

    let decoded = decoder.decode(&mut buf).unwrap().unwrap();

    match decoded {
        Frame::Ping(ping) => {
            assert!(ping.ack);
            assert_eq!(ping.data, [8, 7, 6, 5, 4, 3, 2, 1]);
        }
        _ => panic!("Expected PING frame"),
    }
}

#[test]
fn test_roundtrip_data() {
    let encoder = FrameEncoder::new();
    let decoder = FrameDecoder::new();

    let original = DataFrame {
        stream_id: StreamId::new(1),
        end_stream: true,
        data: bytes::Bytes::from_static(b"hello world"),
    };

    let mut buf = BytesMut::new();
    encoder.encode(&Frame::Data(original.clone()), &mut buf);

    let decoded = decoder.decode(&mut buf).unwrap().unwrap();

    match decoded {
        Frame::Data(data) => {
            assert_eq!(data.stream_id, original.stream_id);
            assert_eq!(data.end_stream, original.end_stream);
            assert_eq!(data.data, original.data);
        }
        _ => panic!("Expected DATA frame"),
    }
}

#[test]
fn test_roundtrip_data_no_end_stream() {
    let encoder = FrameEncoder::new();
    let decoder = FrameDecoder::new();

    let original = DataFrame {
        stream_id: StreamId::new(3),
        end_stream: false,
        data: bytes::Bytes::from_static(b"partial data"),
    };

    let mut buf = BytesMut::new();
    encoder.encode(&Frame::Data(original.clone()), &mut buf);

    let decoded = decoder.decode(&mut buf).unwrap().unwrap();

    match decoded {
        Frame::Data(data) => {
            assert!(!data.end_stream);
        }
        _ => panic!("Expected DATA frame"),
    }
}

#[test]
fn test_roundtrip_headers() {
    let encoder = FrameEncoder::new();
    let decoder = FrameDecoder::new();

    let original = HeadersFrame {
        stream_id: StreamId::new(1),
        end_stream: false,
        end_headers: true,
        priority: Some(Priority {
            exclusive: true,
            dependency: StreamId::new(0),
            weight: 255,
        }),
        header_block: bytes::Bytes::from_static(&[0x82, 0x86, 0x84]),
    };

    let mut buf = BytesMut::new();
    encoder.encode(&Frame::Headers(original.clone()), &mut buf);

    let decoded = decoder.decode(&mut buf).unwrap().unwrap();

    match decoded {
        Frame::Headers(headers) => {
            assert_eq!(headers.stream_id, original.stream_id);
            assert_eq!(headers.end_stream, original.end_stream);
            assert_eq!(headers.end_headers, original.end_headers);
            assert!(headers.priority.is_some());
            let p = headers.priority.unwrap();
            let op = original.priority.unwrap();
            assert_eq!(p.exclusive, op.exclusive);
            assert_eq!(p.dependency, op.dependency);
            assert_eq!(p.weight, op.weight);
            assert_eq!(headers.header_block, original.header_block);
        }
        _ => panic!("Expected HEADERS frame"),
    }
}

#[test]
fn test_roundtrip_headers_no_priority() {
    let encoder = FrameEncoder::new();
    let decoder = FrameDecoder::new();

    let original = HeadersFrame {
        stream_id: StreamId::new(1),
        end_stream: true,
        end_headers: true,
        priority: None,
        header_block: bytes::Bytes::from_static(&[0x82, 0x86, 0x84]),
    };

    let mut buf = BytesMut::new();
    encoder.encode(&Frame::Headers(original.clone()), &mut buf);

    let decoded = decoder.decode(&mut buf).unwrap().unwrap();

    match decoded {
        Frame::Headers(headers) => {
            assert!(headers.priority.is_none());
            assert!(headers.end_stream);
        }
        _ => panic!("Expected HEADERS frame"),
    }
}

#[test]
fn test_roundtrip_headers_non_exclusive_priority() {
    let encoder = FrameEncoder::new();
    let decoder = FrameDecoder::new();

    let original = HeadersFrame {
        stream_id: StreamId::new(1),
        end_stream: false,
        end_headers: true,
        priority: Some(Priority {
            exclusive: false,
            dependency: StreamId::new(3),
            weight: 16,
        }),
        header_block: bytes::Bytes::from_static(&[0x82]),
    };

    let mut buf = BytesMut::new();
    encoder.encode(&Frame::Headers(original.clone()), &mut buf);

    let decoded = decoder.decode(&mut buf).unwrap().unwrap();

    match decoded {
        Frame::Headers(headers) => {
            let p = headers.priority.unwrap();
            assert!(!p.exclusive);
            assert_eq!(p.dependency.value(), 3);
            assert_eq!(p.weight, 16);
        }
        _ => panic!("Expected HEADERS frame"),
    }
}

#[test]
fn test_roundtrip_priority() {
    let encoder = FrameEncoder::new();
    let decoder = FrameDecoder::new();

    let original = PriorityFrame {
        stream_id: StreamId::new(5),
        priority: Priority {
            exclusive: true,
            dependency: StreamId::new(3),
            weight: 128,
        },
    };

    let mut buf = BytesMut::new();
    encoder.encode(&Frame::Priority(original), &mut buf);

    let decoded = decoder.decode(&mut buf).unwrap().unwrap();

    match decoded {
        Frame::Priority(priority) => {
            assert_eq!(priority.stream_id, original.stream_id);
            assert_eq!(priority.priority.exclusive, original.priority.exclusive);
            assert_eq!(priority.priority.dependency, original.priority.dependency);
            assert_eq!(priority.priority.weight, original.priority.weight);
        }
        _ => panic!("Expected PRIORITY frame"),
    }
}

#[test]
fn test_roundtrip_priority_non_exclusive() {
    let encoder = FrameEncoder::new();
    let decoder = FrameDecoder::new();

    let original = PriorityFrame {
        stream_id: StreamId::new(7),
        priority: Priority {
            exclusive: false,
            dependency: StreamId::new(1),
            weight: 64,
        },
    };

    let mut buf = BytesMut::new();
    encoder.encode(&Frame::Priority(original), &mut buf);

    let decoded = decoder.decode(&mut buf).unwrap().unwrap();

    match decoded {
        Frame::Priority(priority) => {
            assert!(!priority.priority.exclusive);
        }
        _ => panic!("Expected PRIORITY frame"),
    }
}

#[test]
fn test_roundtrip_rst_stream() {
    let encoder = FrameEncoder::new();
    let decoder = FrameDecoder::new();

    let original = RstStreamFrame {
        stream_id: StreamId::new(3),
        error_code: 8, // CANCEL
    };

    let mut buf = BytesMut::new();
    encoder.encode(&Frame::RstStream(original), &mut buf);

    let decoded = decoder.decode(&mut buf).unwrap().unwrap();

    match decoded {
        Frame::RstStream(rst) => {
            assert_eq!(rst.stream_id, original.stream_id);
            assert_eq!(rst.error_code, original.error_code);
        }
        _ => panic!("Expected RST_STREAM frame"),
    }
}

#[test]
fn test_roundtrip_push_promise() {
    let encoder = FrameEncoder::new();
    let decoder = FrameDecoder::new();

    let original = PushPromiseFrame {
        stream_id: StreamId::new(1),
        end_headers: true,
        promised_stream_id: StreamId::new(2),
        header_block: bytes::Bytes::from_static(&[0x82, 0x86, 0x84]),
    };

    let mut buf = BytesMut::new();
    encoder.encode(&Frame::PushPromise(original.clone()), &mut buf);

    let decoded = decoder.decode(&mut buf).unwrap().unwrap();

    match decoded {
        Frame::PushPromise(pp) => {
            assert_eq!(pp.stream_id, original.stream_id);
            assert_eq!(pp.end_headers, original.end_headers);
            assert_eq!(pp.promised_stream_id, original.promised_stream_id);
            assert_eq!(pp.header_block, original.header_block);
        }
        _ => panic!("Expected PUSH_PROMISE frame"),
    }
}

#[test]
fn test_roundtrip_push_promise_no_end_headers() {
    let encoder = FrameEncoder::new();
    let decoder = FrameDecoder::new();

    let original = PushPromiseFrame {
        stream_id: StreamId::new(1),
        end_headers: false,
        promised_stream_id: StreamId::new(4),
        header_block: bytes::Bytes::from_static(&[0x82]),
    };

    let mut buf = BytesMut::new();
    encoder.encode(&Frame::PushPromise(original.clone()), &mut buf);

    let decoded = decoder.decode(&mut buf).unwrap().unwrap();

    match decoded {
        Frame::PushPromise(pp) => {
            assert!(!pp.end_headers);
        }
        _ => panic!("Expected PUSH_PROMISE frame"),
    }
}

#[test]
fn test_roundtrip_window_update() {
    let encoder = FrameEncoder::new();
    let decoder = FrameDecoder::new();

    let original = WindowUpdateFrame {
        stream_id: StreamId::new(5),
        increment: 65535,
    };

    let mut buf = BytesMut::new();
    encoder.encode(&Frame::WindowUpdate(original), &mut buf);

    let decoded = decoder.decode(&mut buf).unwrap().unwrap();

    match decoded {
        Frame::WindowUpdate(wu) => {
            assert_eq!(wu.stream_id, original.stream_id);
            assert_eq!(wu.increment, original.increment);
        }
        _ => panic!("Expected WINDOW_UPDATE frame"),
    }
}

#[test]
fn test_roundtrip_window_update_connection_level() {
    let encoder = FrameEncoder::new();
    let decoder = FrameDecoder::new();

    let original = WindowUpdateFrame {
        stream_id: StreamId::connection(),
        increment: 1048576,
    };

    let mut buf = BytesMut::new();
    encoder.encode(&Frame::WindowUpdate(original), &mut buf);

    let decoded = decoder.decode(&mut buf).unwrap().unwrap();

    match decoded {
        Frame::WindowUpdate(wu) => {
            assert!(wu.stream_id.is_connection_level());
        }
        _ => panic!("Expected WINDOW_UPDATE frame"),
    }
}

#[test]
fn test_roundtrip_goaway() {
    let encoder = FrameEncoder::new();
    let decoder = FrameDecoder::new();

    let original = GoAwayFrame {
        last_stream_id: StreamId::new(7),
        error_code: 0,
        debug_data: bytes::Bytes::from_static(b"goodbye"),
    };

    let mut buf = BytesMut::new();
    encoder.encode(&Frame::GoAway(original.clone()), &mut buf);

    let decoded = decoder.decode(&mut buf).unwrap().unwrap();

    match decoded {
        Frame::GoAway(ga) => {
            assert_eq!(ga.last_stream_id, original.last_stream_id);
            assert_eq!(ga.error_code, original.error_code);
            assert_eq!(ga.debug_data, original.debug_data);
        }
        _ => panic!("Expected GOAWAY frame"),
    }
}

#[test]
fn test_roundtrip_goaway_no_debug_data() {
    let encoder = FrameEncoder::new();
    let decoder = FrameDecoder::new();

    let original = GoAwayFrame {
        last_stream_id: StreamId::new(0),
        error_code: 2, // INTERNAL_ERROR
        debug_data: bytes::Bytes::new(),
    };

    let mut buf = BytesMut::new();
    encoder.encode(&Frame::GoAway(original.clone()), &mut buf);

    let decoded = decoder.decode(&mut buf).unwrap().unwrap();

    match decoded {
        Frame::GoAway(ga) => {
            assert!(ga.debug_data.is_empty());
            assert_eq!(ga.error_code, 2);
        }
        _ => panic!("Expected GOAWAY frame"),
    }
}

#[test]
fn test_roundtrip_continuation() {
    let encoder = FrameEncoder::new();
    let decoder = FrameDecoder::new();

    let original = ContinuationFrame {
        stream_id: StreamId::new(1),
        end_headers: true,
        header_block: bytes::Bytes::from_static(&[0x82, 0x86, 0x84]),
    };

    let mut buf = BytesMut::new();
    encoder.encode(&Frame::Continuation(original.clone()), &mut buf);

    let decoded = decoder.decode(&mut buf).unwrap().unwrap();

    match decoded {
        Frame::Continuation(cont) => {
            assert_eq!(cont.stream_id, original.stream_id);
            assert_eq!(cont.end_headers, original.end_headers);
            assert_eq!(cont.header_block, original.header_block);
        }
        _ => panic!("Expected CONTINUATION frame"),
    }
}

#[test]
fn test_roundtrip_continuation_no_end_headers() {
    let encoder = FrameEncoder::new();
    let decoder = FrameDecoder::new();

    let original = ContinuationFrame {
        stream_id: StreamId::new(3),
        end_headers: false,
        header_block: bytes::Bytes::from_static(&[0x82]),
    };

    let mut buf = BytesMut::new();
    encoder.encode(&Frame::Continuation(original.clone()), &mut buf);

    let decoded = decoder.decode(&mut buf).unwrap().unwrap();

    match decoded {
        Frame::Continuation(cont) => {
            assert!(!cont.end_headers);
        }
        _ => panic!("Expected CONTINUATION frame"),
    }
}

#[test]
fn test_roundtrip_unknown() {
    let encoder = FrameEncoder::new();
    let decoder = FrameDecoder::new();

    let original = UnknownFrame {
        frame_type: 0xff,
        flags: 0x05,
        stream_id: StreamId::new(9),
        payload: bytes::Bytes::from_static(b"unknown data"),
    };

    let mut buf = BytesMut::new();
    encoder.encode(&Frame::Unknown(original.clone()), &mut buf);

    let decoded = decoder.decode(&mut buf).unwrap().unwrap();

    match decoded {
        Frame::Unknown(unknown) => {
            assert_eq!(unknown.frame_type, original.frame_type);
            assert_eq!(unknown.flags, original.flags);
            assert_eq!(unknown.stream_id, original.stream_id);
            assert_eq!(unknown.payload, original.payload);
        }
        _ => panic!("Expected Unknown frame"),
    }
}

// Helper function tests

#[test]
fn test_encode_connection_preface() {
    let encoder = FrameEncoder::new();
    let mut buf = BytesMut::new();
    encoder.encode_connection_preface(&mut buf);

    assert_eq!(&buf[..], CONNECTION_PREFACE);
}

#[test]
fn test_encode_client_settings() {
    let encoder = FrameEncoder::new();
    let decoder = FrameDecoder::new();
    let mut buf = BytesMut::new();

    let settings = vec![
        Setting {
            id: SettingId::MaxConcurrentStreams,
            value: 100,
        },
        Setting {
            id: SettingId::InitialWindowSize,
            value: 65535,
        },
    ];

    encoder.encode_client_settings(&mut buf, &settings);

    let frame = decoder.decode(&mut buf).unwrap().unwrap();
    match frame {
        Frame::Settings(s) => {
            assert!(!s.ack);
            assert_eq!(s.settings.len(), 2);
        }
        _ => panic!("Expected SETTINGS frame"),
    }
}

#[test]
fn test_encode_settings_ack() {
    let encoder = FrameEncoder::new();
    let decoder = FrameDecoder::new();
    let mut buf = BytesMut::new();

    encoder.encode_settings_ack(&mut buf);

    let frame = decoder.decode(&mut buf).unwrap().unwrap();
    match frame {
        Frame::Settings(s) => {
            assert!(s.ack);
            assert!(s.settings.is_empty());
        }
        _ => panic!("Expected SETTINGS frame"),
    }
}

#[test]
fn test_encode_ping_ack() {
    let encoder = FrameEncoder::new();
    let decoder = FrameDecoder::new();
    let mut buf = BytesMut::new();

    let data = [1, 2, 3, 4, 5, 6, 7, 8];
    encoder.encode_ping_ack(data, &mut buf);

    let frame = decoder.decode(&mut buf).unwrap().unwrap();
    match frame {
        Frame::Ping(p) => {
            assert!(p.ack);
            assert_eq!(p.data, data);
        }
        _ => panic!("Expected PING frame"),
    }
}

#[test]
fn test_write_window_update() {
    let encoder = FrameEncoder::new();
    let decoder = FrameDecoder::new();
    let mut buf = BytesMut::new();

    encoder.write_window_update(StreamId::new(5), 32768, &mut buf);

    let frame = decoder.decode(&mut buf).unwrap().unwrap();
    match frame {
        Frame::WindowUpdate(wu) => {
            assert_eq!(wu.stream_id.value(), 5);
            assert_eq!(wu.increment, 32768);
        }
        _ => panic!("Expected WINDOW_UPDATE frame"),
    }
}

#[test]
fn test_write_rst_stream() {
    let encoder = FrameEncoder::new();
    let decoder = FrameDecoder::new();
    let mut buf = BytesMut::new();

    encoder.write_rst_stream(StreamId::new(7), 8, &mut buf);

    let frame = decoder.decode(&mut buf).unwrap().unwrap();
    match frame {
        Frame::RstStream(rst) => {
            assert_eq!(rst.stream_id.value(), 7);
            assert_eq!(rst.error_code, 8);
        }
        _ => panic!("Expected RST_STREAM frame"),
    }
}

#[test]
fn test_write_goaway() {
    let encoder = FrameEncoder::new();
    let decoder = FrameDecoder::new();
    let mut buf = BytesMut::new();

    encoder.write_goaway(StreamId::new(11), 0, b"test debug", &mut buf);

    let frame = decoder.decode(&mut buf).unwrap().unwrap();
    match frame {
        Frame::GoAway(ga) => {
            assert_eq!(ga.last_stream_id.value(), 11);
            assert_eq!(ga.error_code, 0);
            assert_eq!(&ga.debug_data[..], b"test debug");
        }
        _ => panic!("Expected GOAWAY frame"),
    }
}

#[test]
fn test_write_goaway_empty_debug() {
    let encoder = FrameEncoder::new();
    let decoder = FrameDecoder::new();
    let mut buf = BytesMut::new();

    encoder.write_goaway(StreamId::new(0), 2, b"", &mut buf);

    let frame = decoder.decode(&mut buf).unwrap().unwrap();
    match frame {
        Frame::GoAway(ga) => {
            assert_eq!(ga.last_stream_id.value(), 0);
            assert_eq!(ga.error_code, 2);
            assert!(ga.debug_data.is_empty());
        }
        _ => panic!("Expected GOAWAY frame"),
    }
}

// Test encoding masks reserved bit in stream ID

#[test]
fn test_encode_window_update_masks_reserved_bit() {
    let encoder = FrameEncoder::new();
    let decoder = FrameDecoder::new();

    // Even if we try to set the reserved bit, it should be masked off
    let original = WindowUpdateFrame {
        stream_id: StreamId::new(0x80000005), // Reserved bit set
        increment: 0x80001000,                // Reserved bit set
    };

    let mut buf = BytesMut::new();
    encoder.encode(&Frame::WindowUpdate(original), &mut buf);

    let decoded = decoder.decode(&mut buf).unwrap().unwrap();

    match decoded {
        Frame::WindowUpdate(wu) => {
            // Reserved bits should be masked off
            assert_eq!(wu.stream_id.value(), 5);
            assert_eq!(wu.increment, 0x1000);
        }
        _ => panic!("Expected WINDOW_UPDATE frame"),
    }
}

// Test encoding empty data

#[test]
fn test_encode_empty_data() {
    let encoder = FrameEncoder::new();
    let decoder = FrameDecoder::new();

    let original = DataFrame {
        stream_id: StreamId::new(1),
        end_stream: true,
        data: bytes::Bytes::new(),
    };

    let mut buf = BytesMut::new();
    encoder.encode(&Frame::Data(original.clone()), &mut buf);

    let decoded = decoder.decode(&mut buf).unwrap().unwrap();

    match decoded {
        Frame::Data(data) => {
            assert!(data.data.is_empty());
        }
        _ => panic!("Expected DATA frame"),
    }
}

#[test]
fn test_encode_multiple_frames() {
    let encoder = FrameEncoder::new();
    let decoder = FrameDecoder::new();
    let mut buf = BytesMut::new();

    // Encode multiple frames
    encoder.encode_connection_preface(&mut buf);

    let settings = SettingsFrame {
        ack: false,
        settings: vec![Setting {
            id: SettingId::MaxConcurrentStreams,
            value: 100,
        }],
    };
    encoder.encode(&Frame::Settings(settings), &mut buf);

    encoder.encode_settings_ack(&mut buf);

    // Preface is raw bytes, not a frame
    assert_eq!(&buf[..24], CONNECTION_PREFACE);
    buf.advance(24);

    // First frame is SETTINGS
    let frame1 = decoder.decode(&mut buf).unwrap().unwrap();
    assert!(matches!(frame1, Frame::Settings(s) if !s.ack));

    // Second frame is SETTINGS ACK
    let frame2 = decoder.decode(&mut buf).unwrap().unwrap();
    assert!(matches!(frame2, Frame::Settings(s) if s.ack));

    assert!(buf.is_empty());
}
