use bytes::{Bytes, BytesMut};
use http2_proto::connection::{
    Connection, ConnectionError, ConnectionEvent, ConnectionState,
};
use http2_proto::frame::{
    ContinuationFrame, DataFrame, ErrorCode, Frame, FrameEncoder, FrameError, GoAwayFrame,
    HeadersFrame, PingFrame, Priority, PriorityFrame, RstStreamFrame, Setting, SettingId,
    SettingsFrame, StreamId, WindowUpdateFrame,
};
use http2_proto::hpack::{HeaderField, HpackEncoder};
use http2_proto::transport::{Transport, TransportState};
use std::io;

// ConnectionState tests

#[test]
fn test_connection_state_debug() {
    let states = [
        ConnectionState::WaitingPreface,
        ConnectionState::WaitingSettings,
        ConnectionState::Open,
        ConnectionState::Draining,
        ConnectionState::Closed,
    ];

    for state in states {
        let debug = format!("{:?}", state);
        assert!(!debug.is_empty());
    }
}

#[test]
fn test_connection_state_eq() {
    assert_eq!(ConnectionState::Open, ConnectionState::Open);
    assert_ne!(ConnectionState::Open, ConnectionState::Closed);
}

#[test]
fn test_connection_state_clone() {
    let state = ConnectionState::Open;
    let cloned = state;
    assert_eq!(state, cloned);
}

// ConnectionEvent tests

#[test]
fn test_connection_event_ready_debug() {
    let event = ConnectionEvent::Ready;
    let debug = format!("{:?}", event);
    assert!(debug.contains("Ready"));
}

#[test]
fn test_connection_event_headers_debug() {
    let event = ConnectionEvent::Headers {
        stream_id: StreamId::new(1),
        headers: vec![],
        end_stream: false,
    };
    let debug = format!("{:?}", event);
    assert!(debug.contains("Headers"));
}

#[test]
fn test_connection_event_data_debug() {
    let event = ConnectionEvent::Data {
        stream_id: StreamId::new(1),
        data: Bytes::from_static(b"test"),
        end_stream: true,
    };
    let debug = format!("{:?}", event);
    assert!(debug.contains("Data"));
}

#[test]
fn test_connection_event_stream_reset_debug() {
    let event = ConnectionEvent::StreamReset {
        stream_id: StreamId::new(1),
        error_code: ErrorCode::Cancel,
    };
    let debug = format!("{:?}", event);
    assert!(debug.contains("StreamReset"));
}

#[test]
fn test_connection_event_goaway_debug() {
    let event = ConnectionEvent::GoAway {
        last_stream_id: StreamId::new(0),
        error_code: ErrorCode::NoError,
    };
    let debug = format!("{:?}", event);
    assert!(debug.contains("GoAway"));
}

#[test]
fn test_connection_event_error_debug() {
    let event = ConnectionEvent::Error(ConnectionError::Protocol("test".to_string()));
    let debug = format!("{:?}", event);
    assert!(debug.contains("Error"));
}

// ConnectionError tests

#[test]
fn test_connection_error_frame_debug() {
    let err = ConnectionError::Frame(FrameError::Incomplete);
    let debug = format!("{:?}", err);
    assert!(debug.contains("Frame"));
}

#[test]
fn test_connection_error_protocol_debug() {
    let err = ConnectionError::Protocol("test error".to_string());
    let debug = format!("{:?}", err);
    assert!(debug.contains("Protocol"));
    assert!(debug.contains("test error"));
}

#[test]
fn test_connection_error_io_debug() {
    let err = ConnectionError::Io(io::Error::other("io error"));
    let debug = format!("{:?}", err);
    assert!(debug.contains("Io"));
}

#[test]
fn test_connection_error_hpack_debug() {
    let err = ConnectionError::Hpack("hpack error".to_string());
    let debug = format!("{:?}", err);
    assert!(debug.contains("Hpack"));
}

#[test]
fn test_connection_error_from_frame_error() {
    let frame_err = FrameError::Incomplete;
    let conn_err: ConnectionError = frame_err.into();
    assert!(matches!(conn_err, ConnectionError::Frame(_)));
}

#[test]
fn test_connection_error_from_io_error() {
    let io_err = io::Error::new(io::ErrorKind::ConnectionReset, "reset");
    let conn_err: ConnectionError = io_err.into();
    assert!(matches!(conn_err, ConnectionError::Io(_)));
}

// Mock Transport for testing Connection

struct MockTransport {
    ready: bool,
    recv_data: Vec<u8>,
    send_data: Vec<u8>,
    recv_pos: usize,
    /// When false, `send` takes nothing and the bytes stay queued.
    accept_sends: bool,
}

impl MockTransport {
    fn new() -> Self {
        Self {
            ready: true,
            recv_data: Vec::new(),
            send_data: Vec::new(),
            recv_pos: 0,
            accept_sends: true,
        }
    }
}

impl Transport for MockTransport {
    fn state(&self) -> TransportState {
        if self.ready {
            TransportState::Ready
        } else {
            TransportState::Handshaking
        }
    }

    fn is_ready(&self) -> bool {
        self.ready
    }

    fn on_recv(&mut self, data: &[u8]) -> io::Result<()> {
        self.recv_data.extend_from_slice(data);
        Ok(())
    }

    fn recv(&mut self, buf: &mut [u8]) -> io::Result<usize> {
        if self.recv_pos >= self.recv_data.len() {
            return Err(io::Error::from(io::ErrorKind::WouldBlock));
        }
        let remaining = &self.recv_data[self.recv_pos..];
        let to_copy = std::cmp::min(buf.len(), remaining.len());
        buf[..to_copy].copy_from_slice(&remaining[..to_copy]);
        self.recv_pos += to_copy;
        Ok(to_copy)
    }

    fn send(&mut self, data: &[u8]) -> io::Result<usize> {
        if !self.accept_sends {
            return Ok(0);
        }
        self.send_data.extend_from_slice(data);
        Ok(data.len())
    }

    fn pending_send(&self) -> &[u8] {
        &[]
    }

    fn advance_send(&mut self, _n: usize) {}

    fn has_pending_send(&self) -> bool {
        false
    }

    fn shutdown(&mut self) -> io::Result<()> {
        self.ready = false;
        Ok(())
    }
}

/// A connection that has sent its preface and received the server's
/// (empty) SETTINGS: it is open, with no events and nothing sent since.
fn open_connection() -> Connection<MockTransport> {
    let mut conn = Connection::new(MockTransport::new());
    conn.on_transport_ready().unwrap();
    let encoder = FrameEncoder::new();
    let mut buf = BytesMut::new();
    encoder.encode(
        &Frame::Settings(SettingsFrame {
            ack: false,
            settings: vec![],
        }),
        &mut buf,
    );
    conn.feed_data(&buf).unwrap();
    assert_eq!(conn.state(), ConnectionState::Open);
    conn.poll_events();
    conn.transport_mut().send_data.clear();
    conn
}

/// Open stream 1 on an open connection with a GET request.
fn open_stream(conn: &mut Connection<MockTransport>) {
    let id = conn
        .start_request(
            &[HeaderField::new(b":method".to_vec(), b"GET".to_vec())],
            false,
        )
        .unwrap();
    assert_eq!(id.value(), 1);
    conn.transport_mut().send_data.clear();
}

// Connection tests with mock transport

#[test]
fn test_connection_new() {
    let transport = MockTransport::new();
    let conn = Connection::new(transport);

    assert_eq!(conn.state(), ConnectionState::WaitingPreface);
    assert!(!conn.is_ready());
}

#[test]
fn test_connection_on_transport_ready() {
    let transport = MockTransport::new();
    let mut conn = Connection::new(transport);

    conn.on_transport_ready().unwrap();

    assert_eq!(conn.state(), ConnectionState::WaitingSettings);
}

#[test]
fn test_connection_on_transport_ready_not_waiting_preface() {
    let transport = MockTransport::new();
    let mut conn = Connection::new(transport);

    // First call to move to WaitingSettings
    conn.on_transport_ready().unwrap();
    assert_eq!(conn.state(), ConnectionState::WaitingSettings);

    // Second call should be a no-op
    conn.on_transport_ready().unwrap();
    assert_eq!(conn.state(), ConnectionState::WaitingSettings);
}

#[test]
fn test_connection_poll_events_empty() {
    let transport = MockTransport::new();
    let mut conn = Connection::new(transport);

    let events = conn.poll_events();
    assert!(events.is_empty());
}

#[test]
fn test_connection_transport_access() {
    let transport = MockTransport::new();
    let mut conn = Connection::new(transport);

    // Test immutable access
    let _ = conn.transport();

    // Test mutable access
    conn.transport_mut().ready = false;
    assert!(!conn.transport().is_ready());
}

#[test]
fn test_connection_has_pending_send() {
    let transport = MockTransport::new();
    let conn = Connection::new(transport);

    // Initially no pending send
    assert!(!conn.has_pending_send());
}

#[test]
fn test_connection_start_request_not_ready() {
    let transport = MockTransport::new();
    let mut conn = Connection::new(transport);

    // Should fail because connection is not open
    let result = conn.start_request(
        &[HeaderField::new(b":method".to_vec(), b"GET".to_vec())],
        false,
    );
    assert!(result.is_err());
}

#[test]
fn test_connection_send_data_stream_not_found() {
    // Open the connection by the handshake
    let mut conn = open_connection();

    // Try to send on non-existent stream
    let result = conn.send_data(StreamId::new(1), b"test", false);
    assert!(result.is_err());
}

// Test connection handles settings frame

#[test]
fn test_connection_handle_settings_transitions_to_open() {
    let transport = MockTransport::new();
    let mut conn = Connection::new(transport);

    // Send preface
    conn.on_transport_ready().unwrap();
    assert_eq!(conn.state(), ConnectionState::WaitingSettings);

    // Create and feed a settings frame
    let encoder = FrameEncoder::new();
    let mut buf = BytesMut::new();
    let frame = SettingsFrame {
        ack: false,
        settings: vec![],
    };
    encoder.encode(&Frame::Settings(frame), &mut buf);

    // Feed settings directly to read buffer and process
    conn.feed_data(&buf).unwrap();

    // Should now be open
    assert_eq!(conn.state(), ConnectionState::Open);

    // Should have Ready event
    let events = conn.poll_events();
    assert!(events.iter().any(|e| matches!(e, ConnectionEvent::Ready)));
}

#[test]
fn test_connection_handle_ping() {
    let mut conn = open_connection();

    // Create and feed a ping frame
    let encoder = FrameEncoder::new();
    let mut buf = BytesMut::new();
    let frame = PingFrame {
        ack: false,
        data: [1, 2, 3, 4, 5, 6, 7, 8],
    };
    encoder.encode(&Frame::Ping(frame), &mut buf);

    conn.feed_data(&buf).unwrap();

    // Should have sent a ping ACK (check transport's send buffer)
    assert!(!conn.transport().send_data.is_empty());
}

#[test]
fn test_connection_handle_goaway() {
    let mut conn = open_connection();

    // Create and feed a goaway frame
    let encoder = FrameEncoder::new();
    let mut buf = BytesMut::new();
    let frame = GoAwayFrame {
        last_stream_id: StreamId::new(0),
        error_code: 0,
        debug_data: Bytes::new(),
    };
    encoder.encode(&Frame::GoAway(frame), &mut buf);

    conn.feed_data(&buf).unwrap();

    // Should be draining
    assert_eq!(conn.state(), ConnectionState::Draining);

    // Should have GoAway event
    let events = conn.poll_events();
    assert!(
        events
            .iter()
            .any(|e| matches!(e, ConnectionEvent::GoAway { .. }))
    );
}

#[test]
fn test_connection_handle_window_update_connection_level() {
    let mut conn = open_connection();

    let initial_window = conn.flow_control().available();

    // Create and feed a window update frame
    let encoder = FrameEncoder::new();
    let mut buf = BytesMut::new();
    let frame = WindowUpdateFrame {
        stream_id: StreamId::connection(),
        increment: 1000,
    };
    encoder.encode(&Frame::WindowUpdate(frame), &mut buf);

    conn.feed_data(&buf).unwrap();

    assert_eq!(conn.flow_control().available(), initial_window + 1000);
}

#[test]
fn test_connection_handle_rst_stream() {
    let mut conn = open_connection();

    // Add a stream first
    open_stream(&mut conn);

    // Create and feed RST_STREAM
    let encoder = FrameEncoder::new();
    let mut buf = BytesMut::new();
    let frame = RstStreamFrame {
        stream_id: StreamId::new(1),
        error_code: 8, // CANCEL
    };
    encoder.encode(&Frame::RstStream(frame), &mut buf);

    conn.feed_data(&buf).unwrap();

    // Should have StreamReset event
    let events = conn.poll_events();
    assert!(
        events
            .iter()
            .any(|e| matches!(e, ConnectionEvent::StreamReset { .. }))
    );
}

#[test]
fn test_connection_handle_unknown_frame() {
    let mut conn = open_connection();

    // Create unknown frame manually (type 0xFF)
    let mut buf = BytesMut::new();
    buf.extend_from_slice(&[
        0x00, 0x00, 0x05, // Length: 5
        0xff, // Type: Unknown
        0x00, // Flags: none
        0x00, 0x00, 0x00, 0x01, // Stream ID: 1
        b'h', b'e', b'l', b'l', b'o',
    ]);

    conn.feed_data(&buf).unwrap();

    // Should not have any errors - unknown frames are ignored
    let events = conn.poll_events();
    assert!(events.is_empty());
}

#[test]
fn test_connection_handle_priority_frame() {
    let mut conn = open_connection();

    // Create priority frame
    let encoder = FrameEncoder::new();
    let mut buf = BytesMut::new();
    let frame = PriorityFrame {
        stream_id: StreamId::new(1),
        priority: Priority {
            exclusive: false,
            dependency: StreamId::new(0),
            weight: 16,
        },
    };
    encoder.encode(&Frame::Priority(frame), &mut buf);

    conn.feed_data(&buf).unwrap();

    // Should be ignored - no events
    let events = conn.poll_events();
    assert!(events.is_empty());
}

#[test]
fn test_connection_handle_received_headers() {
    let mut conn = open_connection();

    // Create a stream first (as if we sent a request)
    open_stream(&mut conn);

    // Create an HPACK-encoded header block with a simple :status header
    let mut hpack = HpackEncoder::new();
    let headers = vec![HeaderField::new(b":status".to_vec(), b"200".to_vec())];
    let mut header_block = Vec::new();
    hpack.encode(&headers, &mut header_block);

    // Create headers frame
    let encoder = FrameEncoder::new();
    let mut buf = BytesMut::new();
    let frame = HeadersFrame {
        stream_id: StreamId::new(1),
        end_stream: false,
        end_headers: true,
        priority: None,
        header_block: Bytes::from(header_block),
    };
    encoder.encode(&Frame::Headers(frame), &mut buf);

    conn.feed_data(&buf).unwrap();

    // Should have Headers event
    let events = conn.poll_events();
    assert!(
        events
            .iter()
            .any(|e| matches!(e, ConnectionEvent::Headers { .. }))
    );
}

#[test]
fn test_connection_handle_received_headers_with_end_stream() {
    let mut conn = open_connection();

    // Create a stream first
    open_stream(&mut conn);

    // Create header block
    let mut hpack = HpackEncoder::new();
    let headers = vec![HeaderField::new(b":status".to_vec(), b"204".to_vec())];
    let mut header_block = Vec::new();
    hpack.encode(&headers, &mut header_block);

    // Create headers frame with end_stream
    let encoder = FrameEncoder::new();
    let mut buf = BytesMut::new();
    let frame = HeadersFrame {
        stream_id: StreamId::new(1),
        end_stream: true,
        end_headers: true,
        priority: None,
        header_block: Bytes::from(header_block),
    };
    encoder.encode(&Frame::Headers(frame), &mut buf);

    conn.feed_data(&buf).unwrap();

    // Should have Headers event with end_stream
    let events = conn.poll_events();
    assert!(events.iter().any(|e| matches!(
        e,
        ConnectionEvent::Headers {
            end_stream: true,
            ..
        }
    )));
}

#[test]
fn test_connection_handle_received_data() {
    let mut conn = open_connection();

    // Create a stream first
    open_stream(&mut conn);

    // Create data frame
    let encoder = FrameEncoder::new();
    let mut buf = BytesMut::new();
    let frame = DataFrame {
        stream_id: StreamId::new(1),
        end_stream: false,
        data: Bytes::from_static(b"hello world"),
    };
    encoder.encode(&Frame::Data(frame), &mut buf);

    conn.feed_data(&buf).unwrap();

    // Should have Data event
    let events = conn.poll_events();
    assert!(
        events
            .iter()
            .any(|e| matches!(e, ConnectionEvent::Data { .. }))
    );
}

#[test]
fn test_connection_handle_received_data_with_end_stream() {
    let mut conn = open_connection();

    // Create a stream first
    open_stream(&mut conn);

    // Create data frame with end_stream
    let encoder = FrameEncoder::new();
    let mut buf = BytesMut::new();
    let frame = DataFrame {
        stream_id: StreamId::new(1),
        end_stream: true,
        data: Bytes::from_static(b"final"),
    };
    encoder.encode(&Frame::Data(frame), &mut buf);

    conn.feed_data(&buf).unwrap();

    // Should have Data event with end_stream
    let events = conn.poll_events();
    assert!(events.iter().any(|e| matches!(
        e,
        ConnectionEvent::Data {
            end_stream: true,
            ..
        }
    )));
}

#[test]
fn test_connection_start_request() {
    let mut conn = open_connection();

    let headers = vec![
        HeaderField::new(b":method".to_vec(), b"GET".to_vec()),
        HeaderField::new(b":path".to_vec(), b"/".to_vec()),
        HeaderField::new(b":scheme".to_vec(), b"https".to_vec()),
        HeaderField::new(b":authority".to_vec(), b"example.com".to_vec()),
    ];

    let result = conn.start_request(&headers, true);
    assert!(result.is_ok());
    let stream_id = result.unwrap();
    assert_eq!(stream_id.value(), 1);
    assert!(conn.streams().contains_key(&1));
}

#[test]
fn test_connection_start_request_creates_stream() {
    let mut conn = open_connection();

    let headers = vec![
        HeaderField::new(b":method".to_vec(), b"POST".to_vec()),
        HeaderField::new(b":path".to_vec(), b"/api".to_vec()),
        HeaderField::new(b":scheme".to_vec(), b"https".to_vec()),
        HeaderField::new(b":authority".to_vec(), b"example.com".to_vec()),
    ];

    let result = conn.start_request(&headers, false);
    assert!(result.is_ok());

    // Verify stream was created
    assert!(conn.streams().contains_key(&1));

    // Send on another stream
    let result2 = conn.start_request(&headers, false);
    assert!(result2.is_ok());
    let stream_id2 = result2.unwrap();
    assert_eq!(stream_id2.value(), 3); // Client uses odd numbers, increments by 2
}

#[test]
fn test_connection_send_data_success() {
    let mut conn = open_connection();

    // Create a stream
    open_stream(&mut conn);

    let data = b"test data";
    let result = conn.send_data(StreamId::new(1), data, false);
    assert!(result.is_ok());
    assert_eq!(result.unwrap(), data.len());
}

#[test]
fn test_connection_send_data_with_end_stream() {
    let mut conn = open_connection();

    // Create a stream
    open_stream(&mut conn);

    let data = b"final data";
    let result = conn.send_data(StreamId::new(1), data, true);
    assert!(result.is_ok());
}

#[test]
fn test_connection_send_data_flow_control() {
    let mut conn = open_connection();

    // Create a stream with very small window: the server announces 10
    let encoder = FrameEncoder::new();
    let mut buf = BytesMut::new();
    encoder.encode(
        &Frame::Settings(SettingsFrame {
            ack: false,
            settings: vec![Setting {
                id: SettingId::InitialWindowSize,
                value: 10,
            }],
        }),
        &mut buf,
    );
    conn.feed_data(&buf).unwrap();
    open_stream(&mut conn);
    assert_eq!(conn.streams().get(&1).unwrap().send_window(), 10);
    assert_eq!(conn.send_data(StreamId::new(1), b"0123456789", false).unwrap(), 10); // Exhaust window

    let data = b"this is more data than the window allows";
    let result = conn.send_data(StreamId::new(1), data, false);
    assert!(result.is_err());
    assert_eq!(result.unwrap_err().kind(), io::ErrorKind::WouldBlock);
}

#[test]
fn test_connection_handle_settings_updates() {
    let mut conn = open_connection();

    // Create settings frame with various settings
    let encoder = FrameEncoder::new();
    let mut buf = BytesMut::new();
    let frame = SettingsFrame {
        ack: false,
        settings: vec![
            Setting {
                id: SettingId::HeaderTableSize,
                value: 8192,
            },
            Setting {
                id: SettingId::MaxConcurrentStreams,
                value: 100,
            },
            Setting {
                id: SettingId::InitialWindowSize,
                value: 32768,
            },
            Setting {
                id: SettingId::MaxFrameSize,
                value: 32768,
            },
            Setting {
                id: SettingId::MaxHeaderListSize,
                value: 16384,
            },
        ],
    };
    encoder.encode(&Frame::Settings(frame), &mut buf);

    conn.feed_data(&buf).unwrap();

    // Verify settings were applied
    assert_eq!(conn.remote_settings().max_concurrent_streams, 100);
    assert_eq!(conn.remote_settings().initial_window_size, 32768);
    assert_eq!(conn.remote_settings().max_frame_size, 32768);
    assert_eq!(conn.remote_settings().max_header_list_size, 16384);
}

#[test]
fn test_connection_handle_settings_adjusts_stream_windows() {
    let mut conn = open_connection();

    // Create a stream with default window size (65535)
    open_stream(&mut conn);

    // Send settings with new initial window size
    let encoder = FrameEncoder::new();
    let mut buf = BytesMut::new();
    let frame = SettingsFrame {
        ack: false,
        settings: vec![Setting {
            id: SettingId::InitialWindowSize,
            value: 100000,
        }],
    };
    encoder.encode(&Frame::Settings(frame), &mut buf);

    conn.feed_data(&buf).unwrap();

    // Stream window should be adjusted by delta (100000 - 65535 = 34465)
    let stream = conn.streams().get(&1).unwrap();
    assert_eq!(stream.send_window(), 100000);
}

#[test]
fn test_connection_handle_push_promise() {
    let mut conn = open_connection();

    // Create push promise frame (manually since servers send these)
    // Frame header: length (4 bytes for promised stream id + 0 bytes header block)
    // Type: 0x05 (PUSH_PROMISE)
    // Flags: 0x04 (END_HEADERS)
    // Stream ID: 1
    // Promised Stream ID: 2
    let frame_data = vec![
        0x00, 0x00, 0x04, // Length: 4 bytes (just promised stream ID, no headers)
        0x05, // Type: PUSH_PROMISE
        0x04, // Flags: END_HEADERS
        0x00, 0x00, 0x00, 0x01, // Stream ID: 1
        0x00, 0x00, 0x00, 0x02, // Promised Stream ID: 2
    ];

    conn.feed_data(&frame_data).unwrap();

    // Push promise should be ignored (we disabled server push)
    let events = conn.poll_events();
    assert!(events.is_empty());
}

#[test]
fn test_connection_handle_continuation() {
    let mut conn = open_connection();

    // Create continuation frame without preceding HEADERS
    // This should trigger a protocol error
    let encoder = FrameEncoder::new();
    let mut buf = BytesMut::new();
    let frame = ContinuationFrame {
        stream_id: StreamId::new(1),
        end_headers: true,
        header_block: Bytes::from_static(b"\x82"), // Indexed header
    };
    encoder.encode(&Frame::Continuation(frame), &mut buf);

    conn.feed_data(&buf).unwrap();

    // Should have error event for unexpected CONTINUATION
    let events = conn.poll_events();
    assert!(
        events
            .iter()
            .any(|e| matches!(e, ConnectionEvent::Error(_)))
    );
}

#[test]
fn test_connection_handle_window_update_for_stream() {
    let mut conn = open_connection();

    // Create a stream
    open_stream(&mut conn);

    // Create window update for stream 1
    let encoder = FrameEncoder::new();
    let mut buf = BytesMut::new();
    let frame = WindowUpdateFrame {
        stream_id: StreamId::new(1),
        increment: 10000,
    };
    encoder.encode(&Frame::WindowUpdate(frame), &mut buf);

    conn.feed_data(&buf).unwrap();

    // Stream window should be increased
    let stream = conn.streams().get(&1).unwrap();
    assert_eq!(stream.send_window(), 75535);
}

#[test]
fn test_connection_on_recv() {
    let mut conn = open_connection();

    // Create a ping frame
    let encoder = FrameEncoder::new();
    let mut buf = BytesMut::new();
    let frame = PingFrame {
        ack: false,
        data: [1, 2, 3, 4, 5, 6, 7, 8],
    };
    encoder.encode(&Frame::Ping(frame), &mut buf);

    // Use on_recv to feed data
    conn.on_recv(&buf).unwrap();

    // Should have processed the ping and sent ACK
    assert!(!conn.transport().send_data.is_empty());
}

#[test]
fn test_connection_frame_decode_error() {
    let mut conn = open_connection();

    // Create malformed PING frame (PING on non-zero stream ID is a protocol error)
    let bad_frame = vec![
        0x00, 0x00, 0x08, // Length: 8 bytes
        0x06, // Type: PING
        0x00, // Flags
        0x00, 0x00, 0x00, 0x01, // Stream ID: 1 (should be 0 for PING)
        0x01, 0x02, 0x03, 0x04, 0x05, 0x06, 0x07, 0x08, // 8 bytes of data
    ];

    conn.feed_data(&bad_frame).unwrap();

    // Should have error event
    let events = conn.poll_events();
    assert!(
        events
            .iter()
            .any(|e| matches!(e, ConnectionEvent::Error(_)))
    );
}

#[test]
fn test_connection_pending_send_and_advance() {
    let transport = MockTransport::new();
    let conn = Connection::new(transport);

    // Check pending_send (should be empty initially)
    let pending = conn.pending_send();
    assert!(pending.is_empty());
}

#[test]
fn test_connection_has_pending_send_with_write_buf() {
    let mut transport = MockTransport::new();
    transport.accept_sends = false;
    let mut conn = Connection::new(transport);

    // Initially no pending send
    assert!(!conn.has_pending_send());

    // The preface stays in the write buffer while the transport takes nothing
    conn.on_transport_ready().unwrap();
    assert!(conn.has_pending_send());
}

#[test]
fn test_connection_handle_headers_hpack_error() {
    let mut conn = open_connection();

    // Create a stream
    open_stream(&mut conn);

    // Create headers frame with invalid HPACK data
    let encoder = FrameEncoder::new();
    let mut buf = BytesMut::new();
    let frame = HeadersFrame {
        stream_id: StreamId::new(1),
        end_stream: false,
        end_headers: true,
        priority: None,
        header_block: Bytes::from_static(&[0xFF, 0xFF, 0xFF, 0xFF]), // Invalid HPACK
    };
    encoder.encode(&Frame::Headers(frame), &mut buf);

    conn.feed_data(&buf).unwrap();

    // Should have error event for HPACK decode failure
    let events = conn.poll_events();
    assert!(
        events
            .iter()
            .any(|e| matches!(e, ConnectionEvent::Error(ConnectionError::Hpack(_))))
    );
}

#[test]
fn test_connection_settings_ack_when_waiting() {
    let transport = MockTransport::new();
    let mut conn = Connection::new(transport);
    conn.on_transport_ready().unwrap();
    assert_eq!(conn.state(), ConnectionState::WaitingSettings);

    // Create settings ACK frame
    let encoder = FrameEncoder::new();
    let mut buf = BytesMut::new();
    let frame = SettingsFrame {
        ack: true,
        settings: vec![],
    };
    encoder.encode(&Frame::Settings(frame), &mut buf);

    conn.feed_data(&buf).unwrap();

    // ACK without initial settings should be ignored (still waiting)
    assert_eq!(conn.state(), ConnectionState::WaitingSettings);
}

#[test]
fn test_connection_flush_write_buffer() {
    let mut transport = MockTransport::new();
    transport.accept_sends = false;
    let mut conn = Connection::new(transport);

    // Add data to write buffer: the transport takes none of the preface
    conn.on_transport_ready().unwrap();
    assert!(conn.has_pending_send());
    assert!(conn.transport().send_data.is_empty());

    // Flush: the next frame that is answered flushes the whole buffer
    conn.transport_mut().accept_sends = true;
    let encoder = FrameEncoder::new();
    let mut buf = BytesMut::new();
    encoder.encode(
        &Frame::Ping(PingFrame {
            ack: false,
            data: [0; 8],
        }),
        &mut buf,
    );
    conn.feed_data(&buf).unwrap();

    // Write buffer should be cleared (sent to transport)
    assert!(!conn.has_pending_send());

    // Transport should have received the data
    assert!(!conn.transport().send_data.is_empty());
}
