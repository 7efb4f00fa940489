use std::collections::HashSet;
use bytes::Bytes;
use http2_proto::frame::flags;
use http2_proto::frame::{
    ContinuationFrame, DataFrame, Frame, FrameHeader, FrameType, GoAwayFrame, HeadersFrame,
    PingFrame, Priority, PriorityFrame, PushPromiseFrame, RstStreamFrame, Setting, SettingId,
    SettingsFrame, StreamId, UnknownFrame, WindowUpdateFrame,
};

// FrameType tests

#[test]
fn test_frame_type_from_u8() {
    assert_eq!(FrameType::from_u8(0x0), Some(FrameType::Data));
    assert_eq!(FrameType::from_u8(0x1), Some(FrameType::Headers));
    assert_eq!(FrameType::from_u8(0x2), Some(FrameType::Priority));
    assert_eq!(FrameType::from_u8(0x3), Some(FrameType::RstStream));
    assert_eq!(FrameType::from_u8(0x4), Some(FrameType::Settings));
    assert_eq!(FrameType::from_u8(0x5), Some(FrameType::PushPromise));
    assert_eq!(FrameType::from_u8(0x6), Some(FrameType::Ping));
    assert_eq!(FrameType::from_u8(0x7), Some(FrameType::GoAway));
    assert_eq!(FrameType::from_u8(0x8), Some(FrameType::WindowUpdate));
    assert_eq!(FrameType::from_u8(0x9), Some(FrameType::Continuation));
}

#[test]
fn test_frame_type_from_u8_unknown() {
    assert_eq!(FrameType::from_u8(0xa), None);
    assert_eq!(FrameType::from_u8(0xff), None);
}

#[test]
fn test_frame_type_debug() {
    assert!(format!("{:?}", FrameType::Data).contains("Data"));
    assert!(format!("{:?}", FrameType::Headers).contains("Headers"));
}

#[test]
fn test_frame_type_eq() {
    assert_eq!(FrameType::Data, FrameType::Data);
    assert_ne!(FrameType::Data, FrameType::Headers);
}

// StreamId tests

#[test]
fn test_stream_id_new() {
    let id = StreamId::new(1);
    assert_eq!(id.value(), 1);
}

#[test]
fn test_stream_id_masks_reserved_bit() {
    // High bit should be masked off
    let id = StreamId::new(0x80000001);
    assert_eq!(id.value(), 1);
}

#[test]
fn test_stream_id_connection_level() {
    assert!(StreamId::connection().is_connection_level());
    assert!(StreamId::new(0).is_connection_level());
    assert!(!StreamId::new(1).is_connection_level());
}

#[test]
fn test_stream_id_client_initiated() {
    assert!(StreamId::new(1).is_client_initiated());
    assert!(StreamId::new(3).is_client_initiated());
    assert!(StreamId::new(5).is_client_initiated());
    assert!(!StreamId::new(0).is_client_initiated());
    assert!(!StreamId::new(2).is_client_initiated());
}

#[test]
fn test_stream_id_server_initiated() {
    assert!(StreamId::new(2).is_server_initiated());
    assert!(StreamId::new(4).is_server_initiated());
    assert!(StreamId::new(6).is_server_initiated());
    assert!(!StreamId::new(0).is_server_initiated());
    assert!(!StreamId::new(1).is_server_initiated());
}

#[test]
fn test_stream_id_from_u32() {
    let id: StreamId = 42.into();
    assert_eq!(id.value(), 42);
}

#[test]
fn test_stream_id_default() {
    let id = StreamId::default();
    assert_eq!(id.value(), 0);
}

#[test]
fn test_stream_id_hash() {
    let mut set = HashSet::new();
    set.insert(StreamId::new(1));
    set.insert(StreamId::new(2));
    assert!(set.contains(&StreamId::new(1)));
    assert!(!set.contains(&StreamId::new(3)));
}

// FrameHeader tests

#[test]
fn test_frame_header_new() {
    let header = FrameHeader::new(FrameType::Data, flags::END_STREAM, StreamId::new(1), 100);

    assert_eq!(header.frame_type, 0x0);
    assert_eq!(header.flags, flags::END_STREAM);
    assert_eq!(header.stream_id.value(), 1);
    assert_eq!(header.length, 100);
}

#[test]
fn test_frame_header_get_type() {
    let header = FrameHeader::new(FrameType::Headers, 0, StreamId::new(1), 0);
    assert_eq!(header.get_type(), Some(FrameType::Headers));

    // Unknown frame type
    let header = FrameHeader {
        length: 0,
        frame_type: 0xff,
        flags: 0,
        stream_id: StreamId::new(0),
    };
    assert_eq!(header.get_type(), None);
}

#[test]
fn test_frame_header_has_flag() {
    let header = FrameHeader::new(
        FrameType::Headers,
        flags::END_STREAM | flags::END_HEADERS,
        StreamId::new(1),
        0,
    );

    assert!(header.has_flag(flags::END_STREAM));
    assert!(header.has_flag(flags::END_HEADERS));
    assert!(!header.has_flag(flags::PADDED));
}

// Frame tests

#[test]
fn test_frame_stream_id_data() {
    let frame = Frame::Data(DataFrame {
        stream_id: StreamId::new(5),
        end_stream: false,
        data: Bytes::new(),
    });
    assert_eq!(frame.stream_id().value(), 5);
}

#[test]
fn test_frame_stream_id_headers() {
    let frame = Frame::Headers(HeadersFrame {
        stream_id: StreamId::new(7),
        end_stream: false,
        end_headers: true,
        priority: None,
        header_block: Bytes::new(),
    });
    assert_eq!(frame.stream_id().value(), 7);
}

#[test]
fn test_frame_stream_id_priority() {
    let frame = Frame::Priority(PriorityFrame {
        stream_id: StreamId::new(9),
        priority: Priority {
            exclusive: false,
            dependency: StreamId::new(0),
            weight: 16,
        },
    });
    assert_eq!(frame.stream_id().value(), 9);
}

#[test]
fn test_frame_stream_id_rst_stream() {
    let frame = Frame::RstStream(RstStreamFrame {
        stream_id: StreamId::new(11),
        error_code: 0,
    });
    assert_eq!(frame.stream_id().value(), 11);
}

#[test]
fn test_frame_stream_id_settings() {
    let frame = Frame::Settings(SettingsFrame {
        ack: false,
        settings: vec![],
    });
    assert_eq!(frame.stream_id().value(), 0);
}

#[test]
fn test_frame_stream_id_push_promise() {
    let frame = Frame::PushPromise(PushPromiseFrame {
        stream_id: StreamId::new(13),
        end_headers: true,
        promised_stream_id: StreamId::new(2),
        header_block: Bytes::new(),
    });
    assert_eq!(frame.stream_id().value(), 13);
}

#[test]
fn test_frame_stream_id_ping() {
    let frame = Frame::Ping(PingFrame {
        ack: false,
        data: [0; 8],
    });
    assert_eq!(frame.stream_id().value(), 0);
}

#[test]
fn test_frame_stream_id_goaway() {
    let frame = Frame::GoAway(GoAwayFrame {
        last_stream_id: StreamId::new(10),
        error_code: 0,
        debug_data: Bytes::new(),
    });
    assert_eq!(frame.stream_id().value(), 0);
}

#[test]
fn test_frame_stream_id_window_update() {
    let frame = Frame::WindowUpdate(WindowUpdateFrame {
        stream_id: StreamId::new(15),
        increment: 1000,
    });
    assert_eq!(frame.stream_id().value(), 15);
}

#[test]
fn test_frame_stream_id_continuation() {
    let frame = Frame::Continuation(ContinuationFrame {
        stream_id: StreamId::new(17),
        end_headers: true,
        header_block: Bytes::new(),
    });
    assert_eq!(frame.stream_id().value(), 17);
}

#[test]
fn test_frame_stream_id_unknown() {
    let frame = Frame::Unknown(UnknownFrame {
        frame_type: 0xff,
        flags: 0,
        stream_id: StreamId::new(19),
        payload: Bytes::new(),
    });
    assert_eq!(frame.stream_id().value(), 19);
}

// SettingId tests

#[test]
fn test_setting_id_from_u16() {
    assert_eq!(SettingId::from_u16(0x1), SettingId::HeaderTableSize);
    assert_eq!(SettingId::from_u16(0x2), SettingId::EnablePush);
    assert_eq!(SettingId::from_u16(0x3), SettingId::MaxConcurrentStreams);
    assert_eq!(SettingId::from_u16(0x4), SettingId::InitialWindowSize);
    assert_eq!(SettingId::from_u16(0x5), SettingId::MaxFrameSize);
    assert_eq!(SettingId::from_u16(0x6), SettingId::MaxHeaderListSize);
    assert_eq!(SettingId::from_u16(0x99), SettingId::Unknown(0x99));
}

#[test]
fn test_setting_id_to_u16() {
    assert_eq!(SettingId::HeaderTableSize.to_u16(), 0x1);
    assert_eq!(SettingId::EnablePush.to_u16(), 0x2);
    assert_eq!(SettingId::MaxConcurrentStreams.to_u16(), 0x3);
    assert_eq!(SettingId::InitialWindowSize.to_u16(), 0x4);
    assert_eq!(SettingId::MaxFrameSize.to_u16(), 0x5);
    assert_eq!(SettingId::MaxHeaderListSize.to_u16(), 0x6);
    assert_eq!(SettingId::Unknown(0x99).to_u16(), 0x99);
}

#[test]
fn test_setting_id_roundtrip() {
    let ids = [
        SettingId::HeaderTableSize,
        SettingId::EnablePush,
        SettingId::MaxConcurrentStreams,
        SettingId::InitialWindowSize,
        SettingId::MaxFrameSize,
        SettingId::MaxHeaderListSize,
    ];

    for id in ids {
        assert_eq!(SettingId::from_u16(id.to_u16()), id);
    }
}

// Frame struct Debug tests

#[test]
fn test_data_frame_debug() {
    let frame = DataFrame {
        stream_id: StreamId::new(1),
        end_stream: true,
        data: Bytes::from_static(b"hello"),
    };
    assert!(format!("{:?}", frame).contains("DataFrame"));
}

#[test]
fn test_headers_frame_debug() {
    let frame = HeadersFrame {
        stream_id: StreamId::new(1),
        end_stream: false,
        end_headers: true,
        priority: Some(Priority {
            exclusive: true,
            dependency: StreamId::new(0),
            weight: 16,
        }),
        header_block: Bytes::new(),
    };
    assert!(format!("{:?}", frame).contains("HeadersFrame"));
}

#[test]
fn test_settings_frame_debug() {
    let frame = SettingsFrame {
        ack: true,
        settings: vec![Setting {
            id: SettingId::MaxFrameSize,
            value: 16384,
        }],
    };
    assert!(format!("{:?}", frame).contains("SettingsFrame"));
}

#[test]
fn test_ping_frame_debug() {
    let frame = PingFrame {
        ack: false,
        data: [1, 2, 3, 4, 5, 6, 7, 8],
    };
    assert!(format!("{:?}", frame).contains("PingFrame"));
}

#[test]
fn test_goaway_frame_debug() {
    let frame = GoAwayFrame {
        last_stream_id: StreamId::new(10),
        error_code: 0,
        debug_data: Bytes::from_static(b"goodbye"),
    };
    assert!(format!("{:?}", frame).contains("GoAwayFrame"));
}

// Clone tests

#[test]
fn test_frame_clone() {
    let frame = Frame::Data(DataFrame {
        stream_id: StreamId::new(1),
        end_stream: true,
        data: Bytes::from_static(b"test"),
    });
    let cloned = frame.clone();
    assert_eq!(cloned.stream_id().value(), 1);
}
