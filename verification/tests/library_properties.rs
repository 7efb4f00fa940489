use bytes::{Bytes, BytesMut};
use http2_proto::connection::{
    Connection, ConnectionError, ConnectionEvent, ConnectionState, FlowControl, ServerConnection,
    ServerEvent, Stream, StreamState, MAX_WINDOW_SIZE,
};
use http2_proto::frame::{
    DataFrame, ErrorCode, Frame, FrameDecoder, FrameEncoder, FrameError, HeadersFrame, PingFrame,
    Setting, SettingId, SettingsFrame, StreamId, WindowUpdateFrame, CONNECTION_PREFACE,
};
use http2_proto::hpack::huffman;
use http2_proto::hpack::{
    decode_integer, decode_string, encode_integer, DynamicTable, HeaderField, HpackDecoder,
    HpackEncoder, HpackError, HuffmanError,
};
use http2_proto::text::{push_decimal, push_hex};
use http2_proto::transport::{PlainTransport, TlsConfig, TlsTransport, Transport, TransportState};
use std::io;

fn encode_frame(frame: &Frame) -> BytesMut {
    let mut buf = BytesMut::new();
    FrameEncoder::new().encode(frame, &mut buf);
    buf
}

// Frames: what is encoded decodes back, one frame after the other.

#[test]
fn frames_back_to_back_decode_in_order() {
    let mut buf = encode_frame(&Frame::Data(DataFrame {
        stream_id: StreamId::new(3),
        end_stream: true,
        data: Bytes::from_static(b"abc"),
    }));
    buf.extend_from_slice(&encode_frame(&Frame::Ping(PingFrame {
        ack: true,
        data: [9, 8, 7, 6, 5, 4, 3, 2],
    })));
    let decoder = FrameDecoder::new();
    match decoder.decode(&mut buf).unwrap().unwrap() {
        Frame::Data(d) => {
            assert_eq!(d.stream_id.value(), 3);
            assert!(d.end_stream);
            assert_eq!(&d.data[..], b"abc");
        }
        _ => panic!("expected DATA"),
    }
    match decoder.decode(&mut buf).unwrap().unwrap() {
        Frame::Ping(p) => {
            assert!(p.ack);
            assert_eq!(p.data, [9, 8, 7, 6, 5, 4, 3, 2]);
        }
        _ => panic!("expected PING"),
    }
    assert!(buf.is_empty());
    assert!(decoder.decode(&mut buf).unwrap().is_none());
}

#[test]
fn frame_header_bytes_are_exact() {
    let buf = encode_frame(&Frame::WindowUpdate(WindowUpdateFrame {
        stream_id: StreamId::new(5),
        increment: 0x01020304,
    }));
    assert_eq!(
        &buf[..],
        &[0x00, 0x00, 0x04, 0x08, 0x00, 0x00, 0x00, 0x00, 0x05, 0x01, 0x02, 0x03, 0x04]
    );
}

#[test]
fn incomplete_frame_is_kept_until_complete() {
    let full = encode_frame(&Frame::Ping(PingFrame {
        ack: false,
        data: [1; 8],
    }));
    let decoder = FrameDecoder::new();
    let mut buf = BytesMut::from(&full[..10]);
    assert!(decoder.decode(&mut buf).unwrap().is_none());
    assert_eq!(buf.len(), 10);
    buf.extend_from_slice(&full[10..]);
    assert!(matches!(decoder.decode(&mut buf).unwrap(), Some(Frame::Ping(_))));
}

#[test]
fn frame_error_messages() {
    assert_eq!(
        FrameError::InvalidPayloadLength {
            frame_type: 0x08,
            expected: 4,
            actual: 3
        }
        .message(),
        "frame type 0x08 expected 4 bytes, got 3"
    );
    assert_eq!(
        FrameError::InvalidSettingValue {
            id: 0x0004,
            value: 0x80000000
        }
        .message(),
        "invalid value 2147483648 for setting 0x0004"
    );
    let mut s = String::new();
    push_decimal(&mut s, 0);
    s.push(' ');
    push_decimal(&mut s, 4294967295);
    s.push(' ');
    push_hex(&mut s, 0xab, 4);
    assert_eq!(s, "0 4294967295 00ab");
}

// HPACK: what one side encodes the other decodes, block after block.

#[test]
fn hpack_blocks_round_trip_with_shared_table() {
    let mut encoder = HpackEncoder::new();
    let mut decoder = HpackDecoder::new();
    let first = vec![
        HeaderField::new(b":method".to_vec(), b"POST".to_vec()),
        HeaderField::new(b"x-trace".to_vec(), b"abcdef0123456789".to_vec()),
        HeaderField::new(b"content-type".to_vec(), b"application/json".to_vec()),
    ];
    let mut block = Vec::new();
    encoder.encode(&first, &mut block);
    assert_eq!(decoder.decode(&block).unwrap(), first);

    // The second block refers to what the first put in the dynamic table.
    let mut second_block = Vec::new();
    encoder.encode(&first, &mut second_block);
    assert!(second_block.len() < block.len());
    assert_eq!(decoder.decode(&second_block).unwrap(), first);
    assert_eq!(
        encoder.dynamic_table().len(),
        decoder.dynamic_table().len()
    );
}

#[test]
fn hpack_round_trip_without_huffman() {
    let mut encoder = HpackEncoder::new();
    encoder.set_huffman(false);
    let mut decoder = HpackDecoder::new();
    let headers = vec![
        HeaderField::new(b"a".to_vec(), b"".to_vec()),
        HeaderField::new(vec![0, 255, 128], vec![1, 2, 3]),
    ];
    let mut block = Vec::new();
    encoder.encode(&headers, &mut block);
    assert_eq!(decoder.decode(&block).unwrap(), headers);
}

#[test]
fn huffman_round_trips_every_byte() {
    let data: Vec<u8> = (0..=255u8).collect();
    let mut encoded = Vec::new();
    huffman::encode(&data, &mut encoded);
    assert_eq!(encoded.len(), huffman::encoded_len(&data));
    let mut decoded = Vec::new();
    huffman::decode(&encoded, &mut decoded).unwrap();
    assert_eq!(decoded, data);
}

#[test]
fn huffman_rfc_example() {
    // RFC 7541 C.4.1: "www.example.com"
    let mut encoded = Vec::new();
    huffman::encode(b"www.example.com", &mut encoded);
    assert_eq!(
        encoded,
        vec![0xf1, 0xe3, 0xc2, 0xe5, 0xf2, 0x3a, 0x6b, 0xa0, 0xab, 0x90, 0xf4, 0xff]
    );
}

#[test]
fn huffman_errors() {
    let mut out = Vec::new();
    // Padding longer than 7 bits
    assert_eq!(
        huffman::decode(&[0xff, 0xff], &mut out),
        Err(HuffmanError::InvalidPadding)
    );
    // The EOS symbol inside the string
    let mut out = Vec::new();
    assert_eq!(
        huffman::decode(&[0xff, 0xff, 0xff, 0xfc], &mut out),
        Err(HuffmanError::EndOfStringSymbol)
    );
}

#[test]
fn integers_round_trip() {
    for prefix_bits in 1..=8u8 {
        for value in [0usize, 1, 30, 31, 127, 128, 255, 1337, 1 << 20, 1 << 34] {
            let mut buf = Vec::new();
            encode_integer(value, prefix_bits, 0, &mut buf);
            assert_eq!(decode_integer(&buf, prefix_bits).unwrap(), (value, buf.len()));
        }
    }
}

#[test]
fn hpack_error_variants() {
    let mut decoder = HpackDecoder::new();
    assert!(matches!(decoder.decode(&[0x80]), Err(HpackError::InvalidIndex(0))));
    assert!(matches!(decode_string(&[0x05, b'a']), Err(HpackError::Incomplete)));
    assert!(matches!(
        decode_string(&[0x82, 0xff, 0xff]),
        Err(HpackError::InvalidHuffman(HuffmanError::InvalidPadding))
    ));
    let too_long = [0x1f, 0xff, 0xff, 0xff, 0xff, 0xff, 0xff, 0xff, 0xff, 0xff, 0xff, 0x01];
    assert!(matches!(
        decode_integer(&too_long, 5),
        Err(HpackError::InvalidInteger)
    ));
    let mut small = HpackDecoder::with_table_size(100);
    assert!(matches!(small.decode(&[0x3f, 0x62]), Err(HpackError::InvalidTableSize)));
    assert_eq!(HpackError::InvalidIndex(7).message(), "invalid table index: 7");
}

#[test]
fn dynamic_table_keeps_within_its_size() {
    let mut table = DynamicTable::new(100);
    for i in 0..10u8 {
        table.insert(HeaderField::new(vec![b'a' + i], vec![b'v'; 20]));
        assert!(table.size() <= 100);
    }
    // Each entry takes 1 + 20 + 32 = 53 bytes: only the newest fits.
    assert_eq!(table.len(), 1);
    assert_eq!(table.get(0).unwrap().name, vec![b'a' + 9]);
    // An entry larger than the table empties it.
    table.insert(HeaderField::new(vec![b'x'; 80], vec![]));
    assert_eq!(table.len(), 0);
    assert_eq!(table.size(), 0);
}

// Flow control and streams.

#[test]
fn consume_then_reset_restores_window() {
    let mut fc = FlowControl::new(1000);
    fc.consume(300);
    fc.consume(200);
    assert_eq!(fc.available(), 500);
    assert_eq!(fc.pending_update(), 500);
    fc.reset_pending();
    assert_eq!(fc.available(), 1000);
    assert_eq!(fc.pending_update(), 0);
}

#[test]
fn window_never_exceeds_maximum() {
    let mut fc = FlowControl::new(0);
    assert!(fc.increase_window(MAX_WINDOW_SIZE as u32));
    assert_eq!(fc.available(), MAX_WINDOW_SIZE);
    assert!(!fc.increase_window(1));
    assert_eq!(fc.available(), MAX_WINDOW_SIZE);
    fc.adjust_window(i32::MAX);
    assert_eq!(fc.available(), i32::MAX);
}

#[test]
fn set_initial_window_moves_window_by_delta() {
    let mut fc = FlowControl::new(65535);
    fc.consume(35);
    fc.set_initial_window(100);
    assert_eq!(fc.initial_window(), 100);
    assert_eq!(fc.available(), 65);
}

#[test]
fn end_stream_in_both_directions_closes() {
    let mut s = Stream::new(StreamId::new(7), 100);
    s.send_end_stream();
    s.send_end_stream();
    assert_eq!(s.state(), StreamState::HalfClosedLocal);
    s.recv_end_stream();
    assert_eq!(s.state(), StreamState::Closed);
    s.recv_end_stream();
    assert_eq!(s.state(), StreamState::Closed);
}

#[test]
fn stream_send_window_rejects_overflow() {
    let mut s = Stream::new(StreamId::new(1), 65535);
    assert!(!s.increase_send_window(MAX_WINDOW_SIZE as u32));
    assert_eq!(s.send_window(), 65535);
    assert!(s.increase_send_window(10));
    assert_eq!(s.send_window(), 65545);
}

// Connections.

fn open_server() -> ServerConnection {
    let mut conn = ServerConnection::new();
    conn.on_recv(&CONNECTION_PREFACE);
    conn.on_recv(&encode_frame(&Frame::Settings(SettingsFrame {
        ack: false,
        settings: vec![],
    })));
    conn.process().unwrap();
    assert_eq!(conn.state(), ConnectionState::Open);
    conn.advance_send(conn.pending_send().len());
    conn.poll_events();
    conn
}

#[test]
fn server_reports_window_overflow_as_flow_control_error() {
    let mut conn = open_server();
    conn.on_recv(&encode_frame(&Frame::WindowUpdate(WindowUpdateFrame {
        stream_id: StreamId::connection(),
        increment: MAX_WINDOW_SIZE as u32,
    })));
    conn.process().unwrap();
    assert_eq!(conn.flow_control().available(), 65535);
    let events = conn.poll_events();
    assert!(events.iter().any(|e| matches!(
        e,
        ServerEvent::Error(ConnectionError::Frame(FrameError::Protocol(
            ErrorCode::FlowControlError
        )))
    )));
}

#[test]
fn server_answers_ping_with_ack() {
    let mut conn = open_server();
    conn.on_recv(&encode_frame(&Frame::Ping(PingFrame {
        ack: false,
        data: [1, 2, 3, 4, 5, 6, 7, 8],
    })));
    conn.process().unwrap();
    let expected = encode_frame(&Frame::Ping(PingFrame {
        ack: true,
        data: [1, 2, 3, 4, 5, 6, 7, 8],
    }));
    assert_eq!(conn.pending_send(), &expected[..]);
}

#[test]
fn server_rejects_settings_with_bad_value() {
    let mut conn = ServerConnection::new();
    conn.on_recv(&CONNECTION_PREFACE);
    conn.on_recv(&encode_frame(&Frame::Settings(SettingsFrame {
        ack: false,
        settings: vec![Setting {
            id: SettingId::EnablePush,
            value: 2,
        }],
    })));
    conn.process().unwrap();
    let events = conn.poll_events();
    assert!(events.iter().any(|e| matches!(
        e,
        ServerEvent::Error(ConnectionError::Frame(FrameError::InvalidSettingValue {
            id: 2,
            value: 2
        }))
    )));
}

#[test]
fn client_and_server_exchange_a_request() {
    let mut client = Connection::new(PlainTransport::new());
    let mut server = ServerConnection::new();
    client.on_transport_ready().unwrap();
    assert_eq!(client.state(), ConnectionState::WaitingSettings);

    // Client -> server: preface and SETTINGS.
    let out = client.pending_send().to_vec();
    client.advance_send(out.len());
    server.feed_data(&out).unwrap();
    assert_eq!(server.state(), ConnectionState::Open);

    // Server -> client: SETTINGS and the ACK of the client's SETTINGS.
    let out = server.pending_send().to_vec();
    server.advance_send(out.len());
    client.on_recv(&out).unwrap();
    assert_eq!(client.state(), ConnectionState::Open);
    assert!(client.got_settings());
    assert!(client
        .poll_events()
        .iter()
        .any(|e| matches!(e, ConnectionEvent::Ready)));

    // The request.
    let request = vec![
        HeaderField::new(b":method".to_vec(), b"GET".to_vec()),
        HeaderField::new(b":path".to_vec(), b"/index.html".to_vec()),
        HeaderField::new(b":scheme".to_vec(), b"https".to_vec()),
        HeaderField::new(b":authority".to_vec(), b"example.org".to_vec()),
    ];
    let id = client.start_request(&request, true).unwrap();
    assert_eq!(id.value(), 1);
    let out = client.pending_send().to_vec();
    client.advance_send(out.len());
    server.feed_data(&out).unwrap();
    let events = server.poll_events();
    let got = events
        .iter()
        .find_map(|e| match e {
            ServerEvent::Request {
                stream_id,
                headers,
                end_stream,
            } => Some((*stream_id, headers.clone(), *end_stream)),
            _ => None,
        })
        .unwrap();
    assert_eq!(got.0.value(), 1);
    assert_eq!(got.1, request);
    assert!(got.2);

    // The response.
    let response = vec![HeaderField::new(b":status".to_vec(), b"200".to_vec())];
    server.send_headers(id, &response, false).unwrap();
    assert_eq!(server.send_data(id, b"hello", true).unwrap(), 5);
    let out = server.pending_send().to_vec();
    server.advance_send(out.len());
    client.on_recv(&out).unwrap();
    let events = client.poll_events();
    assert!(events.iter().any(|e| matches!(
        e,
        ConnectionEvent::Headers { headers, end_stream: false, .. } if *headers == response
    )));
    assert!(events.iter().any(|e| matches!(
        e,
        ConnectionEvent::Data { data, end_stream: true, .. } if &data[..] == b"hello"
    )));
}

#[test]
fn client_reports_transport_errors() {
    let mut transport = PlainTransport::new();
    transport.shutdown().unwrap();
    let mut client = Connection::new(transport);
    let err = client.on_transport_ready().unwrap_err();
    assert_eq!(err.kind(), io::ErrorKind::NotConnected);
}

#[test]
fn client_reports_headers_for_unknown_stream() {
    let mut client = Connection::new(PlainTransport::new());
    client.on_transport_ready().unwrap();
    client
        .feed_data(&encode_frame(&Frame::Settings(SettingsFrame {
            ack: false,
            settings: vec![],
        })))
        .unwrap();
    client.poll_events();
    let mut hpack = HpackEncoder::new();
    let mut block = Vec::new();
    hpack.encode(
        &[HeaderField::new(b":status".to_vec(), b"200".to_vec())],
        &mut block,
    );
    client
        .feed_data(&encode_frame(&Frame::Headers(HeadersFrame {
            stream_id: StreamId::new(2),
            end_stream: false,
            end_headers: true,
            priority: None,
            header_block: Bytes::from(block),
        })))
        .unwrap();
    // Headers for a stream the client never opened still decode.
    let events = client.poll_events();
    assert!(events
        .iter()
        .any(|e| matches!(e, ConnectionEvent::Headers { .. })));
}

// Transports.

#[test]
fn plain_transport_buffers_both_ways() {
    let mut t = PlainTransport::new();
    assert!(t.is_ready());
    assert_eq!(t.send(b"hello").unwrap(), 5);
    assert_eq!(t.pending_send(), b"hello");
    t.advance_send(2);
    assert_eq!(t.pending_send(), b"llo");
    t.advance_send(100);
    assert!(!t.has_pending_send());

    let mut buf = [0u8; 4];
    assert_eq!(
        t.recv(&mut buf).unwrap_err().kind(),
        io::ErrorKind::WouldBlock
    );
    t.on_recv(b"abcdef").unwrap();
    assert_eq!(t.recv(&mut buf).unwrap(), 4);
    assert_eq!(&buf, b"abcd");
    assert_eq!(t.recv(&mut buf).unwrap(), 2);
    assert_eq!(&buf[..2], b"ef");

    t.shutdown().unwrap();
    assert_eq!(t.state(), TransportState::Closed);
    assert_eq!(t.send(b"x").unwrap_err().kind(), io::ErrorKind::NotConnected);
}

#[test]
fn tls_configs_are_built() {
    assert!(TlsConfig::new().is_ok());
    assert!(TlsConfig::http2().is_ok());
    assert!(TlsConfig::with_alpn(vec![b"h2".to_vec(), b"http/1.1".to_vec()]).is_ok());
}

#[test]
fn tls_transport_rejects_bad_server_name() {
    let config = TlsConfig::http2().unwrap();
    let err = TlsTransport::new(&config, "not a host name!").err().unwrap();
    assert_eq!(err.kind(), io::ErrorKind::InvalidInput);
}

#[test]
fn tls_transport_starts_handshake() {
    let config = TlsConfig::http2().unwrap();
    let mut t = TlsTransport::new(&config, "example.com").unwrap();
    assert_eq!(t.state(), TransportState::Handshaking);
    assert!(!t.is_ready());
    // The ClientHello waits to go out: a TLS handshake record.
    let hello = t.pending_send().to_vec();
    assert!(hello.len() > 5);
    assert_eq!(hello[0], 0x16);
    assert!(t.alpn_protocol().is_none());
    // Nothing can be sent or read before the handshake completes.
    assert_eq!(t.send(b"x").unwrap_err().kind(), io::ErrorKind::NotConnected);
    let mut buf = [0u8; 8];
    assert_eq!(t.recv(&mut buf).unwrap_err().kind(), io::ErrorKind::WouldBlock);
    t.advance_send(5);
    assert_eq!(t.pending_send(), &hello[5..]);
    t.advance_send(hello.len());
    assert!(!t.has_pending_send());
    // Garbage from the peer is a TLS error.
    assert!(t.on_recv(&[0xff; 64]).is_err());
    assert_eq!(t.state(), TransportState::Error);
}

#[test]
fn client_reports_stream_window_overflow() {
    let mut client = Connection::new(PlainTransport::new());
    client.on_transport_ready().unwrap();
    client
        .feed_data(&encode_frame(&Frame::Settings(SettingsFrame {
            ack: false,
            settings: vec![],
        })))
        .unwrap();
    let id = client
        .start_request(
            &[HeaderField::new(b":method".to_vec(), b"GET".to_vec())],
            false,
        )
        .unwrap();
    let second = client
        .start_request(
            &[HeaderField::new(b":method".to_vec(), b"GET".to_vec())],
            false,
        )
        .unwrap();
    assert_eq!((id.value(), second.value()), (1, 3));
    client.poll_events();
    client
        .feed_data(&encode_frame(&Frame::WindowUpdate(WindowUpdateFrame {
            stream_id: id,
            increment: MAX_WINDOW_SIZE as u32,
        })))
        .unwrap();
    assert_eq!(client.streams().get(&1).unwrap().send_window(), 65535);
    let events = client.poll_events();
    assert_eq!(events.len(), 1);
    assert!(matches!(
        &events[0],
        ConnectionEvent::Error(ConnectionError::Frame(FrameError::Protocol(
            ErrorCode::FlowControlError
        )))
    ));
}

#[test]
fn request_body_reaches_the_server() {
    let mut client = Connection::new(PlainTransport::new());
    let mut server = ServerConnection::new();
    client.on_transport_ready().unwrap();
    let out = client.pending_send().to_vec();
    client.advance_send(out.len());
    server.feed_data(&out).unwrap();
    let out = server.pending_send().to_vec();
    server.advance_send(out.len());
    client.on_recv(&out).unwrap();
    client.poll_events();
    server.poll_events();

    let id = client
        .start_request(
            &[
                HeaderField::new(b":method".to_vec(), b"POST".to_vec()),
                HeaderField::new(b":path".to_vec(), b"/upload".to_vec()),
            ],
            false,
        )
        .unwrap();
    assert_eq!(client.send_data(id, b"part one,", false).unwrap(), 9);
    assert_eq!(client.send_data(id, b"part two", true).unwrap(), 8);
    let out = client.pending_send().to_vec();
    client.advance_send(out.len());
    server.feed_data(&out).unwrap();
    let events = server.poll_events();
    assert_eq!(events.len(), 3);
    assert!(matches!(&events[0], ServerEvent::Request { end_stream: false, .. }));
    assert!(matches!(
        &events[1],
        ServerEvent::Data { data, end_stream: false, .. } if &data[..] == b"part one,"
    ));
    assert!(matches!(
        &events[2],
        ServerEvent::Data { data, end_stream: true, .. } if &data[..] == b"part two"
    ));
    assert_eq!(
        server.streams().get(&1).unwrap().state(),
        StreamState::HalfClosedRemote
    );
}

#[test]
fn integer_prefix_wider_than_a_byte() {
    // With a 9-bit prefix every value below 511 goes in the first byte,
    // of which only the low 8 bits exist.
    let mut buf = Vec::new();
    encode_integer(300, 9, 0, &mut buf);
    assert_eq!(buf, vec![44]);
    assert_eq!(decode_integer(&[0xff], 9).unwrap(), (255, 1));
    let mut buf = Vec::new();
    encode_integer(0, 0, 0x80, &mut buf);
    assert_eq!(buf, vec![0x80, 0x00]);
    assert_eq!(decode_integer(&[0x80, 0x05], 0).unwrap(), (5, 2));
}

#[test]
fn padding_may_fill_the_rest_of_the_payload() {
    let decoder = FrameDecoder::new();
    let mut buf = BytesMut::from(
        &[
            0x00, 0x00, 0x03, // Length: 3
            0x00, // Type: DATA
            0x08, // Flags: PADDED
            0x00, 0x00, 0x00, 0x01, // Stream ID: 1
            0x02, 0x00, 0x00, // Pad length 2, no data, 2 padding bytes
        ][..],
    );
    match decoder.decode(&mut buf).unwrap().unwrap() {
        Frame::Data(d) => assert!(d.data.is_empty()),
        _ => panic!("expected DATA"),
    }
    // One byte more of padding than there is room for is refused.
    let mut buf = BytesMut::from(
        &[0x00, 0x00, 0x03, 0x00, 0x08, 0x00, 0x00, 0x00, 0x01, 0x03, 0x00, 0x00][..],
    );
    assert!(matches!(
        decoder.decode(&mut buf),
        Err(FrameError::InvalidPadding {
            pad_length: 3,
            payload_length: 3
        })
    ));
}

#[test]
fn settings_ack_with_settings_decodes_without_them() {
    let buf = encode_frame(&Frame::Settings(SettingsFrame {
        ack: true,
        settings: vec![Setting {
            id: SettingId::MaxFrameSize,
            value: 20000,
        }],
    }));
    assert_eq!(&buf[..], &[0, 0, 0, 4, 1, 0, 0, 0, 0]);
    let mut buf = buf;
    match FrameDecoder::new().decode(&mut buf).unwrap().unwrap() {
        Frame::Settings(s) => {
            assert!(s.ack);
            assert!(s.settings.is_empty());
        }
        _ => panic!("expected SETTINGS"),
    }
}

#[test]
fn negative_window_blocks_data() {
    let mut conn = open_server();
    let mut hpack = HpackEncoder::new();
    let mut block = Vec::new();
    hpack.encode(
        &[HeaderField::new(b":method".to_vec(), b"GET".to_vec())],
        &mut block,
    );
    conn.on_recv(&encode_frame(&Frame::Headers(HeadersFrame {
        stream_id: StreamId::new(1),
        end_stream: false,
        end_headers: true,
        priority: None,
        header_block: Bytes::from(block),
    })));
    conn.process().unwrap();
    let id = StreamId::new(1);
    assert_eq!(conn.send_data(id, &[7u8; 100], false).unwrap(), 100);
    // The client lowers the initial window to 0: the stream window is -100.
    conn.on_recv(&encode_frame(&Frame::Settings(SettingsFrame {
        ack: false,
        settings: vec![Setting {
            id: SettingId::InitialWindowSize,
            value: 0,
        }],
    })));
    conn.process().unwrap();
    assert_eq!(conn.streams().get(&1).unwrap().send_window(), -100);
    let before = conn.pending_send().len();
    let err = conn.send_data(id, b"more", false).unwrap_err();
    assert_eq!(err.kind(), io::ErrorKind::WouldBlock);
    assert_eq!(conn.pending_send().len(), before);
    // Once the window is positive again, at most that much goes out.
    conn.on_recv(&encode_frame(&Frame::WindowUpdate(WindowUpdateFrame {
        stream_id: id,
        increment: 102,
    })));
    conn.process().unwrap();
    assert_eq!(conn.send_data(id, b"more", false).unwrap(), 2);
}

#[test]
fn server_reports_ready_once() {
    let mut conn = ServerConnection::new();
    conn.on_recv(&CONNECTION_PREFACE);
    conn.process().unwrap();
    conn.advance_send(conn.pending_send().len());
    let settings = encode_frame(&Frame::Settings(SettingsFrame {
        ack: false,
        settings: vec![],
    }));
    conn.on_recv(&settings);
    conn.process().unwrap();
    assert_eq!(conn.pending_send(), &[0, 0, 0, 4, 1, 0, 0, 0, 0]);
    conn.advance_send(9);
    conn.on_recv(&settings);
    conn.on_recv(&encode_frame(&Frame::Settings(SettingsFrame {
        ack: true,
        settings: vec![],
    })));
    conn.process().unwrap();
    assert_eq!(conn.state(), ConnectionState::Open);
    let ready = conn
        .poll_events()
        .iter()
        .filter(|e| matches!(e, ServerEvent::Ready))
        .count();
    assert_eq!(ready, 1);
    // The second SETTINGS is acknowledged, the ACK is not.
    assert_eq!(conn.pending_send(), &[0, 0, 0, 4, 1, 0, 0, 0, 0]);
}

#[test]
fn window_restored_after_many_consumes() {
    let mut fc = FlowControl::new(1000);
    for a in [100, 250, 150, 500] {
        fc.consume(a);
    }
    assert_eq!(fc.available(), 0);
    assert!(fc.should_update());
    fc.reset_pending();
    assert_eq!(fc.available(), 1000);
    assert_eq!(fc.pending_update(), 0);
    assert!(!fc.should_update());
}

#[test]
fn update_due_at_half_the_initial_window() {
    let mut fc = FlowControl::new(100);
    fc.consume(49);
    assert!(!fc.should_update());
    fc.consume(1);
    assert!(fc.should_update());
    fc.set_initial_window(200);
    assert!(!fc.should_update());
    fc.consume(50);
    assert!(fc.should_update());
}

#[test]
fn insert_evicts_only_the_oldest() {
    let mut table = DynamicTable::new(100);
    table.insert(HeaderField::new(b"header1".to_vec(), b"value1".to_vec()));
    table.insert(HeaderField::new(b"header2".to_vec(), b"value2".to_vec()));
    table.insert(HeaderField::new(b"header3".to_vec(), b"value3".to_vec()));
    assert_eq!(table.len(), 2);
    assert_eq!(table.get(0).unwrap().name, b"header3");
    assert_eq!(table.get(1).unwrap().name, b"header2");
}

#[test]
fn encoder_fills_a_library_buffer() {
    let mut buf = http2_proto::buf::empty_buffer();
    assert_eq!(http2_proto::buf::buffer_len(&buf), 0);
    FrameEncoder::new().encode(
        &Frame::Ping(PingFrame {
            ack: true,
            data: [1, 2, 3, 4, 5, 6, 7, 8],
        }),
        &mut buf,
    );
    assert_eq!(http2_proto::buf::buffer_len(&buf), 17);
    assert_eq!(
        http2_proto::buf::buffer_bytes(&buf),
        &[0, 0, 8, 6, 1, 0, 0, 0, 0, 1, 2, 3, 4, 5, 6, 7, 8]
    );
}

#[test]
fn sent_data_frame_reaches_the_transport() {
    let mut conn = Connection::new(PlainTransport::new());
    conn.on_transport_ready().unwrap();
    let mut buf = BytesMut::new();
    FrameEncoder::new().encode(
        &Frame::Settings(SettingsFrame {
            ack: false,
            settings: vec![],
        }),
        &mut buf,
    );
    conn.feed_data(&buf).unwrap();
    let id = conn
        .start_request(&[HeaderField::new(b":method".to_vec(), b"GET".to_vec())], false)
        .unwrap();
    let before = conn.pending_send().len();
    assert_eq!(conn.send_data(id, b"hi", true).unwrap(), 2);
    let out = conn.pending_send().to_vec();
    assert_eq!(&out[before..], &[0, 0, 2, 0, 1, 0, 0, 0, 1, b'h', b'i']);
    assert!(conn.has_pending_send());
    conn.advance_send(out.len());
    assert!(!conn.has_pending_send());
}

#[test]
fn server_settings_make_ready_once() {
    let mut conn = ServerConnection::new();
    conn.on_recv(&CONNECTION_PREFACE);
    conn.process().unwrap();
    assert_eq!(conn.state(), ConnectionState::WaitingSettings);
    conn.advance_send(conn.pending_send().len());
    conn.handle_settings(SettingsFrame {
        ack: false,
        settings: vec![Setting {
            id: SettingId::MaxConcurrentStreams,
            value: 100,
        }],
    });
    assert_eq!(conn.state(), ConnectionState::Open);
    assert!(conn.is_ready());
    assert_eq!(conn.pending_send(), &[0, 0, 0, 4, 1, 0, 0, 0, 0]);
    let events = conn.poll_events();
    assert_eq!(events.iter().filter(|e| matches!(e, ServerEvent::Ready)).count(), 1);
    conn.advance_send(conn.pending_send().len());
    conn.handle_settings(SettingsFrame {
        ack: true,
        settings: vec![],
    });
    assert!(!conn.has_pending_send());
    assert!(conn.poll_events().is_empty());
    conn.handle_settings(SettingsFrame {
        ack: false,
        settings: vec![],
    });
    assert_eq!(conn.state(), ConnectionState::Open);
    assert_eq!(conn.pending_send(), &[0, 0, 0, 4, 1, 0, 0, 0, 0]);
    assert!(!conn.poll_events().iter().any(|e| matches!(e, ServerEvent::Ready)));
}
