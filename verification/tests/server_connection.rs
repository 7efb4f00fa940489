use bytes::{Bytes, BytesMut};
use http2_proto::connection::{ConnectionState, ServerConnection, ServerEvent};
use http2_proto::frame::{
    DataFrame, ErrorCode, Frame, FrameEncoder, GoAwayFrame, HeadersFrame, PingFrame,
    RstStreamFrame, Setting, SettingId, SettingsFrame, StreamId, WindowUpdateFrame,
    CONNECTION_PREFACE,
};
use http2_proto::hpack::HeaderField;

fn create_settings_frame(settings: &[Setting]) -> Vec<u8> {
    let encoder = FrameEncoder::new();
    let mut buf = BytesMut::new();
    let frame = SettingsFrame {
        ack: false,
        settings: settings.to_vec(),
    };
    encoder.encode(&Frame::Settings(frame), &mut buf);
    buf.to_vec()
}

fn create_headers_frame(stream_id: u32, headers: &[u8], end_stream: bool) -> Vec<u8> {
    let encoder = FrameEncoder::new();
    let mut buf = BytesMut::new();
    let frame = HeadersFrame {
        stream_id: StreamId::new(stream_id),
        end_stream,
        end_headers: true,
        priority: None,
        header_block: Bytes::copy_from_slice(headers),
    };
    encoder.encode(&Frame::Headers(frame), &mut buf);
    buf.to_vec()
}

fn create_data_frame(stream_id: u32, data: &[u8], end_stream: bool) -> Vec<u8> {
    let encoder = FrameEncoder::new();
    let mut buf = BytesMut::new();
    let frame = DataFrame {
        stream_id: StreamId::new(stream_id),
        end_stream,
        data: Bytes::copy_from_slice(data),
    };
    encoder.encode(&Frame::Data(frame), &mut buf);
    buf.to_vec()
}

fn create_ping_frame(data: [u8; 8], ack: bool) -> Vec<u8> {
    let encoder = FrameEncoder::new();
    let mut buf = BytesMut::new();
    let frame = PingFrame { ack, data };
    encoder.encode(&Frame::Ping(frame), &mut buf);
    buf.to_vec()
}

fn create_window_update_frame(stream_id: u32, increment: u32) -> Vec<u8> {
    let encoder = FrameEncoder::new();
    let mut buf = BytesMut::new();
    let frame = WindowUpdateFrame {
        stream_id: StreamId::new(stream_id),
        increment,
    };
    encoder.encode(&Frame::WindowUpdate(frame), &mut buf);
    buf.to_vec()
}

fn create_rst_stream_frame(stream_id: u32, error_code: u32) -> Vec<u8> {
    let encoder = FrameEncoder::new();
    let mut buf = BytesMut::new();
    let frame = RstStreamFrame {
        stream_id: StreamId::new(stream_id),
        error_code,
    };
    encoder.encode(&Frame::RstStream(frame), &mut buf);
    buf.to_vec()
}

fn create_goaway_frame(last_stream_id: u32, error_code: u32) -> Vec<u8> {
    let encoder = FrameEncoder::new();
    let mut buf = BytesMut::new();
    let frame = GoAwayFrame {
        last_stream_id: StreamId::new(last_stream_id),
        error_code,
        debug_data: Bytes::new(),
    };
    encoder.encode(&Frame::GoAway(frame), &mut buf);
    buf.to_vec()
}

// Basic tests

#[test]
fn test_server_connection_new() {
    let conn = ServerConnection::new();
    assert_eq!(conn.state(), ConnectionState::WaitingPreface);
    assert!(!conn.is_ready());
}

#[test]
fn test_server_connection_default() {
    let conn = ServerConnection::default();
    assert_eq!(conn.state(), ConnectionState::WaitingPreface);
}

#[test]
fn test_preface_validation() {
    let mut conn = ServerConnection::new();

    // Feed valid preface
    conn.on_recv(&CONNECTION_PREFACE);
    conn.process().unwrap();

    assert_eq!(conn.state(), ConnectionState::WaitingSettings);
    assert!(conn.has_pending_send()); // Should have sent settings
}

#[test]
fn test_invalid_preface() {
    let mut conn = ServerConnection::new();

    // Feed invalid preface
    conn.on_recv(b"INVALID PREFACE DATA!!!!!");
    conn.process().unwrap();

    let events = conn.poll_events();
    assert!(events.iter().any(|e| matches!(e, ServerEvent::Error(_))));
}

#[test]
fn test_partial_preface() {
    let mut conn = ServerConnection::new();

    // Feed partial preface (not enough bytes)
    conn.on_recv(&CONNECTION_PREFACE[..10]);
    conn.process().unwrap();

    // Should still be waiting for preface
    assert_eq!(conn.state(), ConnectionState::WaitingPreface);
    assert!(!conn.has_pending_send());
}

// Settings tests

#[test]
fn test_handle_settings() {
    let mut conn = ServerConnection::new();

    // Send preface
    conn.on_recv(&CONNECTION_PREFACE);
    conn.process().unwrap();

    // Consume the settings frame we sent
    let _ = conn.pending_send();
    conn.advance_send(conn.pending_send().len());

    // Send client settings
    let settings = create_settings_frame(&[Setting {
        id: SettingId::MaxConcurrentStreams,
        value: 100,
    }]);
    conn.on_recv(&settings);
    conn.process().unwrap();

    // Should be ready now
    assert_eq!(conn.state(), ConnectionState::Open);
    assert!(conn.is_ready());

    let events = conn.poll_events();
    assert!(events.iter().any(|e| matches!(e, ServerEvent::Ready)));
}

#[test]
fn test_handle_settings_ack() {
    let mut conn = ServerConnection::new();

    // Send preface and settings
    conn.on_recv(&CONNECTION_PREFACE);
    conn.process().unwrap();
    conn.advance_send(conn.pending_send().len());

    // Send client settings first to get to Open state
    let settings = create_settings_frame(&[]);
    conn.on_recv(&settings);
    conn.process().unwrap();

    // Send settings ACK - should not change state
    let encoder = FrameEncoder::new();
    let mut buf = BytesMut::new();
    let ack = SettingsFrame {
        ack: true,
        settings: Vec::new(),
    };
    encoder.encode(&Frame::Settings(ack), &mut buf);
    conn.on_recv(&buf);
    conn.process().unwrap();

    assert!(conn.is_ready());
}

#[test]
fn test_settings_updates_remote() {
    let mut conn = ServerConnection::new();

    conn.on_recv(&CONNECTION_PREFACE);
    conn.process().unwrap();
    conn.advance_send(conn.pending_send().len());

    let settings = create_settings_frame(&[
        Setting {
            id: SettingId::MaxConcurrentStreams,
            value: 50,
        },
        Setting {
            id: SettingId::InitialWindowSize,
            value: 32768,
        },
        Setting {
            id: SettingId::MaxFrameSize,
            value: 32768,
        },
        Setting {
            id: SettingId::MaxHeaderListSize,
            value: 8192,
        },
        Setting {
            id: SettingId::HeaderTableSize,
            value: 2048,
        },
    ]);
    conn.on_recv(&settings);
    conn.process().unwrap();

    assert_eq!(conn.remote_settings().max_concurrent_streams, 50);
    assert_eq!(conn.remote_settings().initial_window_size, 32768);
    assert_eq!(conn.remote_settings().max_frame_size, 32768);
    assert_eq!(conn.remote_settings().max_header_list_size, 8192);
}

// Ping tests

#[test]
fn test_handle_ping() {
    let mut conn = ServerConnection::new();

    // Setup connection
    conn.on_recv(&CONNECTION_PREFACE);
    conn.process().unwrap();
    conn.advance_send(conn.pending_send().len());

    let settings = create_settings_frame(&[]);
    conn.on_recv(&settings);
    conn.process().unwrap();
    conn.advance_send(conn.pending_send().len());

    // Send PING
    let ping = create_ping_frame([1, 2, 3, 4, 5, 6, 7, 8], false);
    conn.on_recv(&ping);
    conn.process().unwrap();

    // Should have sent PING ACK
    assert!(conn.has_pending_send());
}

#[test]
fn test_handle_ping_ack() {
    let mut conn = ServerConnection::new();

    conn.on_recv(&CONNECTION_PREFACE);
    conn.process().unwrap();
    conn.advance_send(conn.pending_send().len());

    let settings = create_settings_frame(&[]);
    conn.on_recv(&settings);
    conn.process().unwrap();
    conn.advance_send(conn.pending_send().len());

    // Send PING ACK - should be ignored
    let ping_ack = create_ping_frame([1, 2, 3, 4, 5, 6, 7, 8], true);
    conn.on_recv(&ping_ack);
    conn.process().unwrap();

    // No response expected
    assert!(!conn.has_pending_send());
}

// GOAWAY tests

#[test]
fn test_handle_goaway() {
    let mut conn = ServerConnection::new();

    conn.on_recv(&CONNECTION_PREFACE);
    conn.process().unwrap();
    conn.advance_send(conn.pending_send().len());

    let settings = create_settings_frame(&[]);
    conn.on_recv(&settings);
    conn.process().unwrap();
    conn.advance_send(conn.pending_send().len());

    // Send GOAWAY
    let goaway = create_goaway_frame(0, 0);
    conn.on_recv(&goaway);
    conn.process().unwrap();

    assert_eq!(conn.state(), ConnectionState::Draining);

    let events = conn.poll_events();
    assert!(
        events
            .iter()
            .any(|e| matches!(e, ServerEvent::GoAway { .. }))
    );
}

// WINDOW_UPDATE tests

#[test]
fn test_handle_window_update_connection() {
    let mut conn = ServerConnection::new();

    conn.on_recv(&CONNECTION_PREFACE);
    conn.process().unwrap();
    conn.advance_send(conn.pending_send().len());

    let settings = create_settings_frame(&[]);
    conn.on_recv(&settings);
    conn.process().unwrap();
    conn.advance_send(conn.pending_send().len());

    let initial_window = conn.flow_control().available();

    // Send connection-level WINDOW_UPDATE
    let wu = create_window_update_frame(0, 1000);
    conn.on_recv(&wu);
    conn.process().unwrap();

    assert_eq!(conn.flow_control().available(), initial_window + 1000);
}

#[test]
fn test_handle_window_update_stream() {
    let mut conn = ServerConnection::new();

    conn.on_recv(&CONNECTION_PREFACE);
    conn.process().unwrap();
    conn.advance_send(conn.pending_send().len());

    let settings = create_settings_frame(&[]);
    conn.on_recv(&settings);
    conn.process().unwrap();
    conn.advance_send(conn.pending_send().len());

    // First create a stream via HEADERS
    let headers = create_headers_frame(1, &[0x82], false); // :method: GET
    conn.on_recv(&headers);
    conn.process().unwrap();

    // Now send stream-level WINDOW_UPDATE
    let wu = create_window_update_frame(1, 1000);
    conn.on_recv(&wu);
    conn.process().unwrap();

    // Stream window should be updated
    let stream = conn.streams().get(&1).unwrap();
    assert_eq!(
        stream.send_window(),
        conn.remote_settings().initial_window_size as i32 + 1000
    );
}

// HEADERS tests

#[test]
fn test_handle_headers_new_request() {
    let mut conn = ServerConnection::new();

    conn.on_recv(&CONNECTION_PREFACE);
    conn.process().unwrap();
    conn.advance_send(conn.pending_send().len());

    let settings = create_settings_frame(&[]);
    conn.on_recv(&settings);
    conn.process().unwrap();
    conn.advance_send(conn.pending_send().len());
    let _ = conn.poll_events();

    // Send HEADERS
    let headers = create_headers_frame(1, &[0x82, 0x84], false); // :method: GET, :path: /
    conn.on_recv(&headers);
    conn.process().unwrap();

    let events = conn.poll_events();
    assert!(events.iter().any(
        |e| matches!(e, ServerEvent::Request { stream_id, .. } if stream_id.value() == 1)
    ));

    assert!(conn.streams().contains_key(&1));
}

#[test]
fn test_handle_headers_end_stream() {
    let mut conn = ServerConnection::new();

    conn.on_recv(&CONNECTION_PREFACE);
    conn.process().unwrap();
    conn.advance_send(conn.pending_send().len());

    let settings = create_settings_frame(&[]);
    conn.on_recv(&settings);
    conn.process().unwrap();
    conn.advance_send(conn.pending_send().len());
    let _ = conn.poll_events();

    // Send HEADERS with end_stream
    let headers = create_headers_frame(1, &[0x82], true);
    conn.on_recv(&headers);
    conn.process().unwrap();

    let events = conn.poll_events();
    assert!(events.iter().any(|e| matches!(
        e,
        ServerEvent::Request {
            end_stream: true,
            ..
        }
    )));
}

#[test]
fn test_handle_headers_even_stream_id_error() {
    let mut conn = ServerConnection::new();

    conn.on_recv(&CONNECTION_PREFACE);
    conn.process().unwrap();
    conn.advance_send(conn.pending_send().len());

    let settings = create_settings_frame(&[]);
    conn.on_recv(&settings);
    conn.process().unwrap();
    conn.advance_send(conn.pending_send().len());
    let _ = conn.poll_events();

    // Send HEADERS with even stream ID (invalid for client)
    let headers = create_headers_frame(2, &[0x82], false);
    conn.on_recv(&headers);
    conn.process().unwrap();

    let events = conn.poll_events();
    assert!(events.iter().any(|e| matches!(e, ServerEvent::Error(_))));
}

#[test]
fn test_handle_headers_stream_id_not_increasing() {
    let mut conn = ServerConnection::new();

    conn.on_recv(&CONNECTION_PREFACE);
    conn.process().unwrap();
    conn.advance_send(conn.pending_send().len());

    let settings = create_settings_frame(&[]);
    conn.on_recv(&settings);
    conn.process().unwrap();
    conn.advance_send(conn.pending_send().len());
    let _ = conn.poll_events();

    // Send first request on stream 3
    let headers1 = create_headers_frame(3, &[0x82], false);
    conn.on_recv(&headers1);
    conn.process().unwrap();
    let _ = conn.poll_events();

    // Try to send request on stream 1 (lower than 3)
    let headers2 = create_headers_frame(1, &[0x82], false);
    conn.on_recv(&headers2);
    conn.process().unwrap();

    let events = conn.poll_events();
    assert!(events.iter().any(|e| matches!(e, ServerEvent::Error(_))));
}

// DATA tests

#[test]
fn test_handle_data() {
    let mut conn = ServerConnection::new();

    conn.on_recv(&CONNECTION_PREFACE);
    conn.process().unwrap();
    conn.advance_send(conn.pending_send().len());

    let settings = create_settings_frame(&[]);
    conn.on_recv(&settings);
    conn.process().unwrap();
    conn.advance_send(conn.pending_send().len());
    let _ = conn.poll_events();

    // Create stream
    let headers = create_headers_frame(1, &[0x82], false);
    conn.on_recv(&headers);
    conn.process().unwrap();
    let _ = conn.poll_events();

    // Send DATA
    let data = create_data_frame(1, b"hello", false);
    conn.on_recv(&data);
    conn.process().unwrap();

    let events = conn.poll_events();
    assert!(
        events
            .iter()
            .any(|e| matches!(e, ServerEvent::Data { data, .. } if data.as_ref() == b"hello"))
    );
}

#[test]
fn test_handle_data_end_stream() {
    let mut conn = ServerConnection::new();

    conn.on_recv(&CONNECTION_PREFACE);
    conn.process().unwrap();
    conn.advance_send(conn.pending_send().len());

    let settings = create_settings_frame(&[]);
    conn.on_recv(&settings);
    conn.process().unwrap();
    conn.advance_send(conn.pending_send().len());
    let _ = conn.poll_events();

    let headers = create_headers_frame(1, &[0x82], false);
    conn.on_recv(&headers);
    conn.process().unwrap();
    let _ = conn.poll_events();

    // Send DATA with end_stream
    let data = create_data_frame(1, b"body", true);
    conn.on_recv(&data);
    conn.process().unwrap();

    let events = conn.poll_events();
    assert!(events.iter().any(|e| matches!(
        e,
        ServerEvent::Data {
            end_stream: true,
            ..
        }
    )));
}

// RST_STREAM tests

#[test]
fn test_handle_rst_stream() {
    let mut conn = ServerConnection::new();

    conn.on_recv(&CONNECTION_PREFACE);
    conn.process().unwrap();
    conn.advance_send(conn.pending_send().len());

    let settings = create_settings_frame(&[]);
    conn.on_recv(&settings);
    conn.process().unwrap();
    conn.advance_send(conn.pending_send().len());
    let _ = conn.poll_events();

    // Create stream
    let headers = create_headers_frame(1, &[0x82], false);
    conn.on_recv(&headers);
    conn.process().unwrap();
    let _ = conn.poll_events();

    // Send RST_STREAM
    let rst = create_rst_stream_frame(1, 8); // CANCEL
    conn.on_recv(&rst);
    conn.process().unwrap();

    let events = conn.poll_events();
    assert!(events.iter().any(
        |e| matches!(e, ServerEvent::StreamReset { stream_id, .. } if stream_id.value() == 1)
    ));
}

// Send methods tests

#[test]
fn test_send_headers() {
    let mut conn = ServerConnection::new();

    conn.on_recv(&CONNECTION_PREFACE);
    conn.process().unwrap();
    conn.advance_send(conn.pending_send().len());

    let settings = create_settings_frame(&[]);
    conn.on_recv(&settings);
    conn.process().unwrap();
    conn.advance_send(conn.pending_send().len());
    let _ = conn.poll_events();

    // Create stream
    let headers = create_headers_frame(1, &[0x82], false);
    conn.on_recv(&headers);
    conn.process().unwrap();
    let _ = conn.poll_events();
    conn.advance_send(conn.pending_send().len());

    // Send response headers
    let response_headers = vec![HeaderField::new(b":status".to_vec(), b"200".to_vec())];
    conn.send_headers(StreamId::new(1), &response_headers, false)
        .unwrap();

    assert!(conn.has_pending_send());
}

#[test]
fn test_send_headers_nonexistent_stream() {
    let mut conn = ServerConnection::new();

    conn.on_recv(&CONNECTION_PREFACE);
    conn.process().unwrap();
    conn.advance_send(conn.pending_send().len());

    let settings = create_settings_frame(&[]);
    conn.on_recv(&settings);
    conn.process().unwrap();
    conn.advance_send(conn.pending_send().len());

    // Try to send on nonexistent stream
    let result = conn.send_headers(
        StreamId::new(99),
        &[HeaderField::new(b":status".to_vec(), b"200".to_vec())],
        false,
    );

    assert!(result.is_err());
}

#[test]
fn test_send_data() {
    let mut conn = ServerConnection::new();

    conn.on_recv(&CONNECTION_PREFACE);
    conn.process().unwrap();
    conn.advance_send(conn.pending_send().len());

    let settings = create_settings_frame(&[]);
    conn.on_recv(&settings);
    conn.process().unwrap();
    conn.advance_send(conn.pending_send().len());
    let _ = conn.poll_events();

    let headers = create_headers_frame(1, &[0x82], false);
    conn.on_recv(&headers);
    conn.process().unwrap();
    conn.advance_send(conn.pending_send().len());

    // Send data
    let sent = conn
        .send_data(StreamId::new(1), b"response body", false)
        .unwrap();

    assert_eq!(sent, 13);
    assert!(conn.has_pending_send());
}

#[test]
fn test_send_data_nonexistent_stream() {
    let mut conn = ServerConnection::new();

    conn.on_recv(&CONNECTION_PREFACE);
    conn.process().unwrap();
    conn.advance_send(conn.pending_send().len());

    let settings = create_settings_frame(&[]);
    conn.on_recv(&settings);
    conn.process().unwrap();
    conn.advance_send(conn.pending_send().len());

    let result = conn.send_data(StreamId::new(99), b"data", false);
    assert!(result.is_err());
}

#[test]
fn test_send_goaway() {
    let mut conn = ServerConnection::new();

    conn.on_recv(&CONNECTION_PREFACE);
    conn.process().unwrap();
    conn.advance_send(conn.pending_send().len());

    let settings = create_settings_frame(&[]);
    conn.on_recv(&settings);
    conn.process().unwrap();
    conn.advance_send(conn.pending_send().len());

    conn.send_goaway(ErrorCode::NoError, b"goodbye");

    assert_eq!(conn.state(), ConnectionState::Draining);
    assert!(conn.has_pending_send());
}

#[test]
fn test_reset_stream() {
    let mut conn = ServerConnection::new();

    conn.on_recv(&CONNECTION_PREFACE);
    conn.process().unwrap();
    conn.advance_send(conn.pending_send().len());

    let settings = create_settings_frame(&[]);
    conn.on_recv(&settings);
    conn.process().unwrap();
    conn.advance_send(conn.pending_send().len());
    let _ = conn.poll_events();

    let headers = create_headers_frame(1, &[0x82], false);
    conn.on_recv(&headers);
    conn.process().unwrap();
    conn.advance_send(conn.pending_send().len());

    conn.reset_stream(StreamId::new(1), ErrorCode::Cancel);

    assert!(conn.has_pending_send());
}

// Helper method tests

#[test]
fn test_poll_events() {
    let mut conn = ServerConnection::new();

    conn.on_recv(&CONNECTION_PREFACE);
    conn.process().unwrap();
    conn.advance_send(conn.pending_send().len());

    let settings = create_settings_frame(&[]);
    conn.on_recv(&settings);
    conn.process().unwrap();

    let events = conn.poll_events();
    assert!(!events.is_empty());

    // Second call should return empty
    let events2 = conn.poll_events();
    assert!(events2.is_empty());
}

#[test]
fn test_pending_send_and_advance() {
    let mut conn = ServerConnection::new();

    conn.on_recv(&CONNECTION_PREFACE);
    conn.process().unwrap();

    let pending = conn.pending_send();
    assert!(!pending.is_empty());

    let len = pending.len();
    conn.advance_send(len);

    assert!(!conn.has_pending_send());
}

#[test]
fn test_remove_stream() {
    let mut conn = ServerConnection::new();

    conn.on_recv(&CONNECTION_PREFACE);
    conn.process().unwrap();
    conn.advance_send(conn.pending_send().len());

    let settings = create_settings_frame(&[]);
    conn.on_recv(&settings);
    conn.process().unwrap();
    conn.advance_send(conn.pending_send().len());
    let _ = conn.poll_events();

    let headers = create_headers_frame(1, &[0x82], false);
    conn.on_recv(&headers);
    conn.process().unwrap();

    assert!(conn.streams().contains_key(&1));

    conn.remove_stream(StreamId::new(1));

    assert!(!conn.streams().contains_key(&1));
}

// ServerEvent debug tests

#[test]
fn test_server_event_debug() {
    let event = ServerEvent::Ready;
    let debug = format!("{:?}", event);
    assert!(debug.contains("Ready"));

    let event = ServerEvent::Request {
        stream_id: StreamId::new(1),
        headers: vec![],
        end_stream: false,
    };
    let debug = format!("{:?}", event);
    assert!(debug.contains("Request"));

    let event = ServerEvent::Data {
        stream_id: StreamId::new(1),
        data: Bytes::from_static(b"test"),
        end_stream: true,
    };
    let debug = format!("{:?}", event);
    assert!(debug.contains("Data"));
}
