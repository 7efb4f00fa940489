use http2_proto::connection::{
    ConnectionSettings, FlowControl, Stream, StreamId, StreamState,
};


#[test]
fn window_rejects_overflowing_increment() {
    let mut fc = FlowControl::new(65_535);
    let mut applied = 0;
    loop {
        let before = fc.available();
        if !fc.increase_window(1 << 30) {
            assert_eq!(fc.available(), before, "must leave the window unchanged");
            break;
        }
        applied += 1;
        assert!(fc.available() > 0, "window wrapped negative");
        assert!(applied < 10, "increment was never rejected");
    }
    assert!(
        applied >= 1,
        "a legitimate increment must still be accepted"
    );
}

#[test]
fn test_initial_state() {
    let fc = FlowControl::new(65535);
    assert_eq!(fc.available(), 65535);
    assert!(!fc.should_update());
}

#[test]
fn test_consume_and_update() {
    let mut fc = FlowControl::new(65535);

    // Consume some data
    fc.consume(30000);
    assert_eq!(fc.available(), 35535);
    assert!(!fc.should_update()); // Haven't hit threshold yet

    // Consume more to hit threshold
    fc.consume(10000);
    assert_eq!(fc.available(), 25535);
    assert!(fc.should_update()); // Now should update

    // Get pending and reset
    assert_eq!(fc.pending_update(), 40000);
    fc.reset_pending();
    assert_eq!(fc.available(), 65535); // Window restored
    assert!(!fc.should_update());
}

#[test]
fn test_window_increase() {
    let mut fc = FlowControl::new(65535);

    fc.consume(30000);
    assert_eq!(fc.available(), 35535);

    assert!(fc.increase_window(20000));
    assert_eq!(fc.available(), 55535);
}

#[test]
fn test_settings_adjustment() {
    let mut fc = FlowControl::new(65535);

    // Consume some data
    fc.consume(10000);
    assert_eq!(fc.available(), 55535);

    // Adjust for new settings (increase by 10000)
    fc.adjust_window(10000);
    assert_eq!(fc.available(), 65535);
}


#[test]
fn test_default_settings() {
    let settings = ConnectionSettings::default();
    assert_eq!(settings.max_concurrent_streams, 100);
    assert_eq!(settings.initial_window_size, 65535);
    assert_eq!(settings.max_frame_size, 16384);
    assert!(!settings.enable_push);
}

#[test]
fn test_new_settings() {
    let settings = ConnectionSettings::new();
    assert_eq!(settings.max_concurrent_streams, 100);
}

#[test]
fn test_builder_pattern() {
    let settings = ConnectionSettings::new()
        .max_concurrent_streams(200)
        .initial_window_size(32768);

    assert_eq!(settings.max_concurrent_streams, 200);
    assert_eq!(settings.initial_window_size, 32768);
}

#[test]
fn test_max_frame_size() {
    let settings = ConnectionSettings::new().max_frame_size(32768);
    assert_eq!(settings.max_frame_size, 32768);
}

#[test]
fn test_max_header_list_size() {
    let settings = ConnectionSettings::new().max_header_list_size(8192);
    assert_eq!(settings.max_header_list_size, 8192);
}

#[test]
fn test_header_table_size() {
    let settings = ConnectionSettings::new().header_table_size(8192);
    assert_eq!(settings.header_table_size, 8192);
}

#[test]
fn test_enable_push() {
    let settings = ConnectionSettings::new().enable_push(true);
    assert!(settings.enable_push);

    let settings = ConnectionSettings::new().enable_push(false);
    assert!(!settings.enable_push);
}

#[test]
fn test_builder_chained() {
    let settings = ConnectionSettings::new()
        .max_concurrent_streams(50)
        .initial_window_size(16384)
        .max_frame_size(65535)
        .max_header_list_size(32768)
        .header_table_size(2048)
        .enable_push(true);

    assert_eq!(settings.max_concurrent_streams, 50);
    assert_eq!(settings.initial_window_size, 16384);
    assert_eq!(settings.max_frame_size, 65535);
    assert_eq!(settings.max_header_list_size, 32768);
    assert_eq!(settings.header_table_size, 2048);
    assert!(settings.enable_push);
}

#[test]
fn test_settings_debug() {
    let settings = ConnectionSettings::new();
    let debug = format!("{:?}", settings);
    assert!(debug.contains("ConnectionSettings"));
}

#[test]
fn test_settings_clone() {
    let settings = ConnectionSettings::new().max_concurrent_streams(42);
    let cloned = settings;
    assert_eq!(cloned.max_concurrent_streams, 42);
}


#[test]
fn test_stream_new() {
    let stream = Stream::new(StreamId::new(5), 65535);
    assert_eq!(stream.id().value(), 5);
    assert_eq!(stream.state(), StreamState::Open);
    assert_eq!(stream.send_window(), 65535);
    assert_eq!(stream.recv_window(), 65535);
    assert_eq!(stream.bytes_received(), 0);
}

#[test]
fn test_stream_lifecycle() {
    let mut stream = Stream::new(StreamId::new(1), 65535);

    assert_eq!(stream.state(), StreamState::Open);
    assert!(stream.can_send());
    assert!(stream.can_recv());

    // Send END_STREAM
    stream.send_end_stream();
    assert_eq!(stream.state(), StreamState::HalfClosedLocal);
    assert!(!stream.can_send());
    assert!(stream.can_recv());

    // Receive END_STREAM
    stream.recv_end_stream();
    assert_eq!(stream.state(), StreamState::Closed);
    assert!(!stream.can_send());
    assert!(!stream.can_recv());
}

#[test]
fn test_stream_lifecycle_recv_first() {
    let mut stream = Stream::new(StreamId::new(1), 65535);

    // Receive END_STREAM first
    stream.recv_end_stream();
    assert_eq!(stream.state(), StreamState::HalfClosedRemote);
    assert!(stream.can_send());
    assert!(!stream.can_recv());

    // Then send END_STREAM
    stream.send_end_stream();
    assert_eq!(stream.state(), StreamState::Closed);
    assert!(!stream.can_send());
    assert!(!stream.can_recv());
}

#[test]
fn test_stream_send_end_stream_already_closed() {
    let mut stream = Stream::new(StreamId::new(1), 65535);
    stream.reset();
    assert_eq!(stream.state(), StreamState::Closed);

    // Sending END_STREAM on closed stream doesn't change state
    stream.send_end_stream();
    assert_eq!(stream.state(), StreamState::Closed);
}

#[test]
fn test_stream_recv_end_stream_already_closed() {
    let mut stream = Stream::new(StreamId::new(1), 65535);
    stream.reset();
    assert_eq!(stream.state(), StreamState::Closed);

    // Receiving END_STREAM on closed stream doesn't change state
    stream.recv_end_stream();
    assert_eq!(stream.state(), StreamState::Closed);
}

#[test]
fn test_flow_control() {
    let mut stream = Stream::new(StreamId::new(1), 65535);

    assert_eq!(stream.send_window(), 65535);

    stream.send_data(1000);
    assert_eq!(stream.send_window(), 64535);

    stream.increase_send_window(500);
    assert_eq!(stream.send_window(), 65035);
}

#[test]
fn test_recv_flow_control() {
    let mut stream = Stream::new(StreamId::new(1), 65535);

    assert_eq!(stream.recv_window(), 65535);
    assert_eq!(stream.bytes_received(), 0);

    stream.recv_data(1000);
    assert_eq!(stream.recv_window(), 64535);
    assert_eq!(stream.bytes_received(), 1000);

    stream.recv_data(500);
    assert_eq!(stream.recv_window(), 64035);
    assert_eq!(stream.bytes_received(), 1500);
}

#[test]
fn test_reset_bytes_received() {
    let mut stream = Stream::new(StreamId::new(1), 65535);

    stream.recv_data(1000);
    assert_eq!(stream.bytes_received(), 1000);

    stream.reset_bytes_received();
    assert_eq!(stream.bytes_received(), 0);
}

#[test]
fn test_adjust_send_window() {
    let mut stream = Stream::new(StreamId::new(1), 65535);

    stream.adjust_send_window(1000);
    assert_eq!(stream.send_window(), 66535);

    stream.adjust_send_window(-2000);
    assert_eq!(stream.send_window(), 64535);
}

#[test]
fn test_stream_reset() {
    let mut stream = Stream::new(StreamId::new(1), 65535);
    assert_eq!(stream.state(), StreamState::Open);

    stream.reset();
    assert_eq!(stream.state(), StreamState::Closed);
    assert!(!stream.can_send());
    assert!(!stream.can_recv());
}

#[test]
fn test_stream_state_debug() {
    let states = [
        StreamState::Idle,
        StreamState::ReservedRemote,
        StreamState::Open,
        StreamState::HalfClosedLocal,
        StreamState::HalfClosedRemote,
        StreamState::Closed,
    ];

    for state in states {
        let debug = format!("{:?}", state);
        assert!(!debug.is_empty());
    }
}

#[test]
fn test_stream_state_eq() {
    assert_eq!(StreamState::Open, StreamState::Open);
    assert_ne!(StreamState::Open, StreamState::Closed);
}

#[test]
fn test_stream_debug() {
    let stream = Stream::new(StreamId::new(1), 65535);
    let debug = format!("{:?}", stream);
    assert!(debug.contains("Stream"));
}

#[test]
fn test_can_send_states() {
    let mut stream = Stream::new(StreamId::new(1), 65535);

    // Open - can send
    assert!(stream.can_send());

    // HalfClosedRemote - can send
    stream.recv_end_stream();
    assert!(stream.can_send());

    // HalfClosedLocal - cannot send
    let mut stream2 = Stream::new(StreamId::new(3), 65535);
    stream2.send_end_stream();
    assert!(!stream2.can_send());
}

#[test]
fn test_can_recv_states() {
    let mut stream = Stream::new(StreamId::new(1), 65535);

    // Open - can recv
    assert!(stream.can_recv());

    // HalfClosedLocal - can recv
    stream.send_end_stream();
    assert!(stream.can_recv());

    // HalfClosedRemote - cannot recv
    let mut stream2 = Stream::new(StreamId::new(3), 65535);
    stream2.recv_end_stream();
    assert!(!stream2.can_recv());
}
