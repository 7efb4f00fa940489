//! The connection state as plain values, and what each received frame does
//! to it. Both the client and the server connection follow these rules.
use vstd::prelude::*;
use crate::frame::encode::frame_bytes;
use crate::frame::{ErrorCode, FrameError, FrameView, Setting, SettingId};
use crate::hpack::{block_decoding, block_encoding, DecoderView, EncoderView};
use crate::io::IoErrorKind;
use super::flow_control::FlowControlView;
use super::settings::ConnectionSettings;
use super::stream::{StreamState, StreamView};

verus! {

/// Connection state.
#[derive(Debug, Clone, Copy, PartialEq, Eq, Structural)]
pub enum ConnectionState {
    /// Waiting to send connection preface.
    WaitingPreface,
    /// Sent preface, waiting for server settings.
    WaitingSettings,
    /// Connection is open and ready.
    Open,
    /// Received GOAWAY, draining existing streams.
    Draining,
    /// Connection is closed.
    Closed,
}

/// A connection error as plain values.
pub enum ConnectionErrorView {
    Frame(FrameError),
    Protocol(Seq<char>),
    Io(IoErrorKind),
    Hpack(Seq<char>),
}

/// An event as plain values. `Headers` is a response's headers on the
/// client and a new request on the server.
pub enum EventView {
    Ready,
    Headers { stream_id: u32, headers: Seq<(Seq<u8>, Seq<u8>)>, end_stream: bool },
    Data { stream_id: u32, data: Seq<u8>, end_stream: bool },
    StreamReset { stream_id: u32, error_code: ErrorCode },
    GoAway { last_stream_id: u32, error_code: ErrorCode },
    Error(ConnectionErrorView),
}

/// The state that the client and the server connection share.
pub struct CoreView {
    pub state: ConnectionState,
    pub local_settings: ConnectionSettings,
    pub remote_settings: ConnectionSettings,
    pub got_settings: bool,
    /// The frame encoder's maximum frame size.
    pub encoder_max_frame: u32,
    /// The frame decoder's maximum frame size.
    pub decoder_max_frame: u32,
    pub hpack_encoder: EncoderView,
    pub hpack_decoder: DecoderView,
    pub streams: Map<u32, StreamView>,
    pub flow: FlowControlView,
    /// The bytes waiting to be sent.
    pub write: Seq<u8>,
    /// The bytes received and not yet decoded.
    pub read: Seq<u8>,
    pub events: Seq<EventView>,
}

/// The bytes appended to the outgoing buffer.
pub open spec fn emit(c: CoreView, bytes: Seq<u8>) -> CoreView {
    CoreView { write: c.write + bytes, ..c }
}

/// An event appended to the pending events.
pub open spec fn report(c: CoreView, e: EventView) -> CoreView {
    CoreView { events: c.events.push(e), ..c }
}

/// A protocol error event with a message.
pub open spec fn protocol_error(msg: Seq<char>) -> EventView {
    EventView::Error(ConnectionErrorView::Protocol(msg))
}

/// The event for a window that would leave its range (RFC 7540 Section
/// 6.9): a FLOW_CONTROL_ERROR.
pub open spec fn flow_control_error() -> EventView {
    EventView::Error(ConnectionErrorView::Frame(FrameError::Protocol(ErrorCode::FlowControlError)))
}

/// A stream just opened with the given initial window.
pub open spec fn new_stream(id: u32, initial_window: u32) -> StreamView {
    StreamView {
        id,
        state: StreamState::Open,
        send_window: initial_window as i32,
        recv_window: initial_window as i32,
        bytes_received: 0,
    }
}

/// A stream's send window moved by `delta`, if that stays in range.
pub open spec fn stream_adjusted(s: StreamView, delta: i32) -> StreamView {
    if s.can_adjust_send(delta) {
        StreamView { send_window: (s.send_window + delta) as i32, ..s }
    } else {
        s
    }
}

/// Every stream's send window moved by `delta` where that stays in range.
pub open spec fn streams_adjusted(m: Map<u32, StreamView>, delta: i32) -> Map<u32, StreamView> {
    m.map_values(|s: StreamView| stream_adjusted(s, delta))
}

/// Some stream's send window would leave its range.
pub open spec fn some_window_overflows(m: Map<u32, StreamView>, delta: i32) -> bool {
    exists|k: u32| m.contains_key(k) && !(#[trigger] m[k]).can_adjust_send(delta)
}

/// What one setting from the peer changes.
pub open spec fn setting_applied(c: CoreView, s: Setting) -> CoreView {
    let rs = c.remote_settings;
    match s.id {
        SettingId::HeaderTableSize => CoreView {
            hpack_encoder: EncoderView {
                table: c.hpack_encoder.table.with_max_size(s.value as nat),
                ..c.hpack_encoder
            },
            ..c
        },
        SettingId::MaxConcurrentStreams => CoreView {
            remote_settings: ConnectionSettings { max_concurrent_streams: s.value, ..rs },
            ..c
        },
        SettingId::InitialWindowSize => {
            let delta = (s.value as i32 - rs.initial_window_size as i32) as i32;
            let c1 = CoreView {
                remote_settings: ConnectionSettings { initial_window_size: s.value, ..rs },
                streams: streams_adjusted(c.streams, delta),
                ..c
            };
            if some_window_overflows(c.streams, delta) {
                report(c1, flow_control_error())
            } else {
                c1
            }
        },
        SettingId::MaxFrameSize => CoreView {
            remote_settings: ConnectionSettings { max_frame_size: s.value, ..rs },
            encoder_max_frame: s.value,
            ..c
        },
        SettingId::MaxHeaderListSize => CoreView {
            remote_settings: ConnectionSettings { max_header_list_size: s.value, ..rs },
            ..c
        },
        _ => c,
    }
}

/// What a list of settings changes, applied in order.
pub open spec fn settings_applied(c: CoreView, s: Seq<Setting>) -> CoreView
    decreases s.len(),
{
    if s.len() == 0 {
        c
    } else {
        setting_applied(settings_applied(c, s.drop_last()), s.last())
    }
}

/// Applying settings changes neither the buffers nor whether the peer's
/// settings were seen.
pub proof fn lemma_settings_applied_keeps(c: CoreView, s: Seq<Setting>)
    ensures
        settings_applied(c, s).write == c.write,
        settings_applied(c, s).read == c.read,
        settings_applied(c, s).got_settings == c.got_settings,
        settings_applied(c, s).state == c.state,
    decreases s.len(),
{
    if s.len() > 0 {
        lemma_settings_applied_keeps(c, s.drop_last());
    }
}

/// A SETTINGS frame: an acknowledgement changes nothing; otherwise the
/// settings are applied and acknowledged, and the first one opens the
/// connection.
#[verifier::opaque]
pub open spec fn settings_handled(c: CoreView, ack: bool, s: Seq<Setting>) -> CoreView {
    if ack {
        c
    } else {
        let c1 = emit(
            settings_applied(c, s),
            frame_bytes(FrameView::Settings { ack: true, settings: Seq::empty() }),
        );
        if !c1.got_settings {
            report(CoreView { got_settings: true, state: ConnectionState::Open, ..c1 }, EventView::Ready)
        } else {
            c1
        }
    }
}

/// `new` is `old` followed by flow control errors only.
pub open spec fn only_flow_errors_added(old: Seq<EventView>, new: Seq<EventView>) -> bool {
    &&& old.len() <= new.len()
    &&& new.take(old.len() as int) == old
    &&& forall|i: int| old.len() <= i < new.len() ==> #[trigger] new[i] == flow_control_error()
}

proof fn lemma_settings_applied_events(c: CoreView, s: Seq<Setting>)
    ensures
        only_flow_errors_added(c.events, settings_applied(c, s).events),
    decreases s.len(),
{
    if s.len() == 0 {
        assert(c.events.take(c.events.len() as int) =~= c.events);
    } else {
        lemma_settings_applied_events(c, s.drop_last());
        let m = settings_applied(c, s.drop_last());
        let r = settings_applied(c, s);
        assert(r.events == m.events || r.events == m.events.push(flow_control_error()));
        if r.events != m.events {
            assert(r.events.take(c.events.len() as int) =~= m.events.take(c.events.len() as int));
        }
    }
}

/// SETTINGS frames, one after the other: an acknowledgement changes
/// nothing; the first frame that is no acknowledgement opens the
/// connection and reports `Ready` once; later ones report no `Ready` and
/// leave the state as it is. Each one that is no acknowledgement is
/// acknowledged, and applying its settings reports at most flow control
/// errors. Client and server handle SETTINGS alike.
pub proof fn lemma_settings_ready_once(c: CoreView, ack: bool, s: Seq<Setting>)
    ensures
        common_frame_handled(c, FrameView::Settings { ack, settings: s }) == Some(
            settings_handled(c, ack, s),
        ),
        settings_handled(c, true, s) == c,
        ({
            let r = settings_handled(c, false, s);
            let a = settings_applied(c, s);
            &&& r.got_settings
            &&& r.write == c.write + frame_bytes(
                FrameView::Settings { ack: true, settings: Seq::empty() },
            )
            &&& only_flow_errors_added(c.events, a.events)
            &&& !c.got_settings ==> r.state == ConnectionState::Open && r.events == a.events.push(
                EventView::Ready,
            )
            &&& c.got_settings ==> r.state == c.state && r.events == a.events
        }),
{
    reveal(settings_handled);
    lemma_settings_applied_events(c, s);
    lemma_settings_applied_keeps(c, s);
}

/// A PING frame: one that is no acknowledgement is answered with one.
#[verifier::opaque]
pub open spec fn ping_handled(c: CoreView, ack: bool, data: Seq<u8>) -> CoreView {
    if ack {
        c
    } else {
        emit(c, frame_bytes(FrameView::Ping { ack: true, data }))
    }
}

/// A GOAWAY frame: the connection drains and the peer's reason is reported.
#[verifier::opaque]
pub open spec fn goaway_handled(c: CoreView, last_stream_id: u32, error_code: u32) -> CoreView {
    report(
        CoreView { state: ConnectionState::Draining, ..c },
        EventView::GoAway { last_stream_id, error_code: ErrorCode::spec_from_u32(error_code) },
    )
}

/// A WINDOW_UPDATE frame: the connection's or the stream's window grows;
/// an increment that would take it past 2^31 - 1 is a flow control error
/// and changes nothing; one for an unknown stream is ignored.
#[verifier::opaque]
pub open spec fn window_update_handled(c: CoreView, stream_id: u32, increment: u32) -> CoreView {
    if stream_id == 0 {
        if c.flow.can_increase(increment) {
            CoreView { flow: c.flow.increase(increment), ..c }
        } else {
            report(c, flow_control_error())
        }
    } else if c.streams.contains_key(stream_id) {
        let s = c.streams[stream_id];
        if s.can_increase_send(increment) {
            CoreView {
                streams: c.streams.insert(
                    stream_id,
                    StreamView { send_window: (s.send_window + increment) as i32, ..s },
                ),
                ..c
            }
        } else {
            report(c, flow_control_error())
        }
    } else {
        c
    }
}

/// A WINDOW_UPDATE that would take a window above 2^31 - 1 is refused: no
/// window moves and a FLOW_CONTROL_ERROR is reported. One within range
/// raises the window it names by exactly the increment. This holds alike
/// for the client and the server, which both handle the frame this way.
pub proof fn lemma_window_update_checked(c: CoreView, stream_id: u32, increment: u32)
    ensures
        stream_id == 0 && !c.flow.can_increase(increment) ==> common_frame_handled(
            c,
            FrameView::WindowUpdate { stream_id, increment },
        ) == Some(report(c, flow_control_error())),
        stream_id != 0 && c.streams.contains_key(stream_id) && !c.streams[stream_id].can_increase_send(
            increment,
        ) ==> common_frame_handled(c, FrameView::WindowUpdate { stream_id, increment }) == Some(
            report(c, flow_control_error()),
        ),
        stream_id == 0 && c.flow.can_increase(increment) ==> common_frame_handled(
            c,
            FrameView::WindowUpdate { stream_id, increment },
        ) == Some(CoreView { flow: FlowControlView { window: (c.flow.window + increment) as i32, ..c.flow }, ..c }),
        stream_id != 0 && c.streams.contains_key(stream_id) && c.streams[stream_id].can_increase_send(
            increment,
        ) ==> common_frame_handled(c, FrameView::WindowUpdate { stream_id, increment }) == Some(
            CoreView {
                streams: c.streams.insert(
                    stream_id,
                    StreamView {
                        send_window: (c.streams[stream_id].send_window + increment) as i32,
                        ..c.streams[stream_id]
                    },
                ),
                ..c
            },
        ),
{
    reveal(window_update_handled);
}

/// The bookkeeping for a DATA frame: the stream (when known) and the
/// connection count the bytes against their windows, END_STREAM
/// half-closes the stream, and a WINDOW_UPDATE for the connection goes out
/// once enough was received. A count that would leave its range is a flow
/// control error and is not made.
#[verifier::opaque]
pub open spec fn data_counted(c: CoreView, stream_id: u32, end_stream: bool, data: Seq<u8>) -> CoreView {
    let len = data.len() as u32;
    let c1 = if c.streams.contains_key(stream_id) {
        let s = c.streams[stream_id];
        let ok = s.can_recv_data(len);
        let s1 = if ok {
            StreamView {
                recv_window: (s.recv_window - (len as i32)) as i32,
                bytes_received: (s.bytes_received + len) as u32,
                ..s
            }
        } else {
            s
        };
        let s2 = if end_stream {
            StreamView { state: s1.state.after_recv_end(), ..s1 }
        } else {
            s1
        };
        let c0 = CoreView { streams: c.streams.insert(stream_id, s2), ..c };
        if ok {
            c0
        } else {
            report(c0, flow_control_error())
        }
    } else {
        c
    };
    let c2 = if c1.flow.can_consume(len) {
        CoreView { flow: c1.flow.consume(len), ..c1 }
    } else {
        report(c1, flow_control_error())
    };
    let c3 = if c2.flow.should_update() {
        if c2.flow.can_reset() {
            emit(
                CoreView { flow: c2.flow.reset(), ..c2 },
                frame_bytes(FrameView::WindowUpdate { stream_id: 0, increment: c2.flow.consumed }),
            )
        } else {
            report(c2, flow_control_error())
        }
    } else {
        c2
    };
    c3
}

/// A DATA frame: its bookkeeping, then the data is reported.
pub open spec fn data_handled(c: CoreView, stream_id: u32, end_stream: bool, data: Seq<u8>) -> CoreView {
    report(data_counted(c, stream_id, end_stream, data), EventView::Data { stream_id, data, end_stream })
}

/// A RST_STREAM frame: the stream (when known) closes and the reset is
/// reported.
#[verifier::opaque]
pub open spec fn rst_stream_handled(c: CoreView, stream_id: u32, error_code: u32) -> CoreView {
    let c1 = if c.streams.contains_key(stream_id) {
        CoreView {
            streams: c.streams.insert(
                stream_id,
                StreamView { state: StreamState::Closed, ..c.streams[stream_id] },
            ),
            ..c
        }
    } else {
        c
    };
    report(c1, EventView::StreamReset { stream_id, error_code: ErrorCode::spec_from_u32(error_code) })
}

/// A header block decoded with the connection's HPACK decoder: the decoder
/// moves on, and a decoding error is reported.
pub open spec fn headers_decoded(c: CoreView, block: Seq<u8>) -> (
    CoreView,
    Option<Seq<(Seq<u8>, Seq<u8>)>>,
) {
    let (res, dec) = block_decoding(c.hpack_decoder, block);
    let c1 = CoreView { hpack_decoder: dec, ..c };
    match res {
        Ok(hs) => (c1, Some(hs)),
        Err(e) => (
            report(c1, EventView::Error(ConnectionErrorView::Hpack(e.spec_debug()))),
            None,
        ),
    }
}

/// What the frames that both sides handle alike do; `None` for HEADERS and
/// PUSH_PROMISE, which each side handles in its own way.
pub open spec fn common_frame_handled(c: CoreView, f: FrameView) -> Option<CoreView> {
    match f {
        FrameView::Settings { ack, settings } => Some(settings_handled(c, ack, settings)),
        FrameView::Ping { ack, data } => Some(ping_handled(c, ack, data)),
        FrameView::GoAway { last_stream_id, error_code, .. } => Some(
            goaway_handled(c, last_stream_id, error_code),
        ),
        FrameView::WindowUpdate { stream_id, increment } => Some(
            window_update_handled(c, stream_id, increment),
        ),
        FrameView::Data { stream_id, end_stream, data } => Some(
            data_handled(c, stream_id, end_stream, data),
        ),
        FrameView::RstStream { stream_id, error_code } => Some(
            rst_stream_handled(c, stream_id, error_code),
        ),
        FrameView::Priority { .. } => Some(c),
        FrameView::Continuation { .. } => Some(
            report(c, protocol_error("unexpected CONTINUATION frame"@)),
        ),
        FrameView::Unknown { .. } => Some(c),
        _ => None,
    }
}

/// The HEADERS frame that carries header fields, HPACK-encoded in one
/// block with END_HEADERS, appended to the outgoing bytes.
pub open spec fn headers_frame_sent(
    c: CoreView,
    stream_id: u32,
    hs: Seq<(Seq<u8>, Seq<u8>)>,
    end_stream: bool,
) -> CoreView {
    let (block, enc) = block_encoding(c.hpack_encoder, hs);
    emit(
        CoreView { hpack_encoder: enc, ..c },
        frame_bytes(
            FrameView::Headers {
                stream_id,
                end_stream,
                end_headers: true,
                priority: None,
                header_block: block,
            },
        ),
    )
}

/// Sending header fields on a stream: the HEADERS frame goes out, and
/// END_STREAM half-closes the stream.
pub open spec fn headers_sent(
    c: CoreView,
    stream_id: u32,
    hs: Seq<(Seq<u8>, Seq<u8>)>,
    end_stream: bool,
) -> CoreView {
    let c1 = headers_frame_sent(c, stream_id, hs, end_stream);
    if end_stream && c1.streams.contains_key(stream_id) {
        let s = c1.streams[stream_id];
        CoreView {
            streams: c1.streams.insert(stream_id, StreamView { state: s.state.after_send_end(), ..s }),
            ..c1
        }
    } else {
        c1
    }
}

/// How many bytes of `len` may be sent on a stream: what both the
/// connection's and the stream's window allow, at most `len`; nothing when
/// either window is zero or negative.
pub open spec fn send_amount(c: CoreView, stream_id: u32, len: nat) -> nat {
    let w1 = c.flow.window as int;
    let w2 = c.streams[stream_id].send_window as int;
    let w = if w1 < w2 {
        w1
    } else {
        w2
    };
    if w <= 0 {
        0
    } else if w < len {
        w as nat
    } else {
        len
    }
}

/// On the client, the amount is also at most the peer's maximum frame size.
pub open spec fn client_send_amount(c: CoreView, stream_id: u32, len: nat) -> nat {
    let n = send_amount(c, stream_id, len);
    if n < c.encoder_max_frame {
        n
    } else {
        c.encoder_max_frame as nat
    }
}

/// Sending `n` bytes keeps the windows and the buffer within their ranges.
pub open spec fn data_send_ok(c: CoreView, stream_id: u32, n: nat) -> bool {
    &&& c.flow.can_consume(n as u32)
    &&& c.streams[stream_id].can_send_data(n as u32)
    &&& c.write.len() + 9 + n <= isize::MAX
}

/// Sending the first `n` bytes of `data` in one DATA frame: both
/// windows shrink, and END_STREAM is set, half-closing the stream, when it
/// was asked for and all the data goes.
pub open spec fn data_sent(
    c: CoreView,
    stream_id: u32,
    data: Seq<u8>,
    n: nat,
    end_stream: bool,
) -> CoreView {
    let is_end = end_stream && n == data.len();
    let s = c.streams[stream_id];
    let s1 = StreamView { send_window: (s.send_window - ((n as u32) as i32)) as i32, ..s };
    let s2 = if is_end {
        StreamView { state: s1.state.after_send_end(), ..s1 }
    } else {
        s1
    };
    emit(
        CoreView { flow: c.flow.consume(n as u32), streams: c.streams.insert(stream_id, s2), ..c },
        frame_bytes(FrameView::Data { stream_id, end_stream: is_end, data: data.take(n as int) }),
    )
}

/// The SETTINGS frame that each side sends first.
pub open spec fn initial_settings_bytes(local: ConnectionSettings) -> Seq<u8> {
    frame_bytes(
        FrameView::Settings {
            ack: false,
            settings: seq![
                Setting { id: SettingId::MaxConcurrentStreams, value: local.max_concurrent_streams },
                Setting { id: SettingId::InitialWindowSize, value: local.initial_window_size },
                Setting { id: SettingId::MaxFrameSize, value: local.max_frame_size },
            ],
        },
    )
}

/// A RST_STREAM frame is reported with the error its code names: for each
/// code that RFC 7540 Section 7 defines, the reported error has that code on
/// the wire; any other code is reported as INTERNAL_ERROR. The stream, if
/// known, is closed; the outgoing bytes and the events before stay as they
/// were.
pub proof fn lemma_rst_stream_reported(c: CoreView, stream_id: u32, error_code: u32)
    ensures
        common_frame_handled(c, FrameView::RstStream { stream_id, error_code }) is Some,
        ({
            let r = common_frame_handled(c, FrameView::RstStream { stream_id, error_code })->Some_0;
            &&& r.events.len() == c.events.len() + 1
            &&& r.events.drop_last() == c.events
            &&& r.events.last() matches EventView::StreamReset { stream_id: s, error_code: e }
                && s == stream_id
                && (error_code <= 0xd ==> e.code() == error_code)
                && (error_code > 0xd ==> e == ErrorCode::InternalError)
            &&& r.write == c.write
            &&& r.hpack_encoder == c.hpack_encoder
            &&& r.flow == c.flow
            &&& r.streams.dom() == c.streams.dom()
            &&& c.streams.contains_key(stream_id) ==> r.streams[stream_id].state
                == StreamState::Closed
            &&& forall|k: u32| #[trigger] c.streams.contains_key(k) && k != stream_id ==> r.streams[k] == c.streams[k]
        }),
{
    reveal(rst_stream_handled);
    let r = common_frame_handled(c, FrameView::RstStream { stream_id, error_code })->Some_0;
    assert(r.events.drop_last() =~= c.events);
    if c.streams.contains_key(stream_id) {
        assert(r.streams.dom() =~= c.streams.dom());
    }
}

/// The amount of a send is what the windows allow: nothing while the
/// connection's or the stream's window is zero or negative; otherwise at
/// most the data, the connection's window and the stream's window, and the
/// least of the three. The client also keeps within the peer's maximum
/// frame size.
pub proof fn lemma_send_amount_within_windows(c: CoreView, stream_id: u32, len: nat)
    ensures
        ({
            let n = send_amount(c, stream_id, len);
            let conn = c.flow.window as int;
            let stream = c.streams[stream_id].send_window as int;
            &&& n <= len
            &&& (conn <= 0 || stream <= 0) ==> n == 0
            &&& n <= conn || n == 0
            &&& n <= stream || n == 0
            &&& (conn > 0 && stream > 0) ==> (n == len || n == conn || n == stream)
        }),
        client_send_amount(c, stream_id, len) <= send_amount(c, stream_id, len),
        client_send_amount(c, stream_id, len) <= c.encoder_max_frame,
        client_send_amount(c, stream_id, len) == send_amount(c, stream_id, len)
            || client_send_amount(c, stream_id, len) == c.encoder_max_frame,
{
}

/// The last HEADER_TABLE_SIZE in a SETTINGS frame from the peer becomes the
/// limit of the table of the connection's HPACK encoder: the table keeps
/// only its newest entries, and they fit within that limit. A frame without
/// HEADER_TABLE_SIZE leaves the table as it was.
pub proof fn lemma_header_table_size_applied(c: CoreView, s: Seq<Setting>)
    requires
        c.hpack_encoder.table.wf(),
    ensures
        ({
            let t = settings_handled(c, false, s).hpack_encoder.table;
            &&& t.wf()
            &&& t.entries.len() <= c.hpack_encoder.table.entries.len()
            &&& t.entries == c.hpack_encoder.table.entries.take(t.entries.len() as int)
            &&& forall|k: int|
                0 <= k < s.len() && (#[trigger] s[k]).id == SettingId::HeaderTableSize && (forall|j: int|
                    k < j < s.len() ==> s[j].id != SettingId::HeaderTableSize) ==> t.max_size
                    == s[k].value
            &&& (forall|j: int| 0 <= j < s.len() ==> s[j].id != SettingId::HeaderTableSize) ==> t
                == c.hpack_encoder.table
        }),
{
    reveal(settings_handled);
    lemma_header_table_size_in_order(c, s);
}

/// `lemma_header_table_size_applied`, over the settings applied in order.
proof fn lemma_header_table_size_in_order(c: CoreView, s: Seq<Setting>)
    requires
        c.hpack_encoder.table.wf(),
    ensures
        ({
            let t = settings_applied(c, s).hpack_encoder.table;
            &&& t.wf()
            &&& t.entries.len() <= c.hpack_encoder.table.entries.len()
            &&& t.entries == c.hpack_encoder.table.entries.take(t.entries.len() as int)
            &&& forall|k: int|
                0 <= k < s.len() && (#[trigger] s[k]).id == SettingId::HeaderTableSize && (forall|j: int|
                    k < j < s.len() ==> s[j].id != SettingId::HeaderTableSize) ==> t.max_size
                    == s[k].value
            &&& (forall|j: int| 0 <= j < s.len() ==> s[j].id != SettingId::HeaderTableSize) ==> t
                == c.hpack_encoder.table
        }),
    decreases s.len(),
{
    let t0 = c.hpack_encoder.table;
    if s.len() == 0 {
        assert(t0.entries.take(t0.entries.len() as int) =~= t0.entries);
    } else {
        let p = s.drop_last();
        lemma_header_table_size_in_order(c, p);
        let c1 = settings_applied(c, p);
        let t1 = c1.hpack_encoder.table;
        let t = settings_applied(c, s).hpack_encoder.table;
        let last = s.last();
        if last.id == SettingId::HeaderTableSize {
            crate::hpack::lemma_resize_keeps_table(t1, last.value as nat);
            let m = t.entries.len() as int;
            assert(t.entries =~= t1.entries.take(m));
            assert forall|i: int| 0 <= i < m implies t.entries[i] == t0.entries.take(m)[i] by {
                assert(t.entries[i] == t1.entries[i]);
                assert(t1.entries[i] == t0.entries.take(t1.entries.len() as int)[i]);
            }
            assert(t.entries =~= t0.entries.take(m));
            assert forall|k: int|
                0 <= k < s.len() && (#[trigger] s[k]).id == SettingId::HeaderTableSize && (forall|j: int|
                    k < j < s.len() ==> s[j].id != SettingId::HeaderTableSize) implies t.max_size
                == s[k].value by {
                if k < s.len() - 1 {
                    assert(s[s.len() - 1].id != SettingId::HeaderTableSize);
                }
            }
        } else {
            assert(t == t1);
            assert forall|k: int|
                0 <= k < s.len() && (#[trigger] s[k]).id == SettingId::HeaderTableSize && (forall|j: int|
                    k < j < s.len() ==> s[j].id != SettingId::HeaderTableSize) implies t.max_size
                == s[k].value by {
                assert(k < p.len());
                assert(p[k] == s[k]);
                assert forall|j: int| k < j < p.len() implies p[j].id != SettingId::HeaderTableSize by {
                    assert(p[j] == s[j]);
                }
            }
            if forall|j: int| 0 <= j < s.len() ==> s[j].id != SettingId::HeaderTableSize {
                assert forall|j: int| 0 <= j < p.len() implies p[j].id != SettingId::HeaderTableSize by {
                    assert(p[j] == s[j]);
                }
            }
        }
    }
}

/// A GOAWAY frame puts the connection into draining and reports the last
/// stream and the error its code names (the code itself for each code RFC
/// 7540 Section 7 defines, INTERNAL_ERROR otherwise); nothing else changes.
pub proof fn lemma_goaway_reported(c: CoreView, last_stream_id: u32, error_code: u32, debug_data: Seq<u8>)
    ensures
        common_frame_handled(c, FrameView::GoAway { last_stream_id, error_code, debug_data }) is Some,
        ({
            let r = common_frame_handled(c, FrameView::GoAway { last_stream_id, error_code, debug_data })->Some_0;
            &&& r.state == ConnectionState::Draining
            &&& r.events.len() == c.events.len() + 1
            &&& r.events.drop_last() == c.events
            &&& r.events.last() matches EventView::GoAway { last_stream_id: l, error_code: e }
                && l == last_stream_id
                && (error_code <= 0xd ==> e.code() == error_code)
                && (error_code > 0xd ==> e == ErrorCode::InternalError)
            &&& r.write == c.write
            &&& r.streams == c.streams
            &&& r.flow == c.flow
        }),
{
    reveal(goaway_handled);
    let r = common_frame_handled(c, FrameView::GoAway { last_stream_id, error_code, debug_data })->Some_0;
    assert(r.events.drop_last() =~= c.events);
}

/// A PING that is no acknowledgement is answered with a PING acknowledgement
/// carrying the same eight bytes (RFC 7540 Section 6.7): the nine-byte header
/// 00 00 08 06 01 00 00 00 00, then the data. An acknowledgement is not
/// answered. Nothing else changes.
pub proof fn lemma_ping_answered(c: CoreView, ack: bool, data: Seq<u8>)
    requires
        data.len() == 8,
    ensures
        common_frame_handled(c, FrameView::Ping { ack, data }) is Some,
        ({
            let r = common_frame_handled(c, FrameView::Ping { ack, data })->Some_0;
            &&& ack ==> r == c
            &&& !ack ==> r == CoreView {
                write: c.write + seq![0x00u8, 0x00, 0x08, 0x06, 0x01, 0x00, 0x00, 0x00, 0x00] + data,
                ..c
            }
        }),
{
    reveal(ping_handled);
    if !ack {
        let b = frame_bytes(FrameView::Ping { ack: true, data });
        assert(b =~= seq![0x00u8, 0x00, 0x08, 0x06, 0x01, 0x00, 0x00, 0x00, 0x00] + data);
        assert(c.write + b =~= c.write + seq![0x00u8, 0x00, 0x08, 0x06, 0x01, 0x00, 0x00, 0x00, 0x00] + data);
    }
}

/// What each setting from the peer changes (RFC 7540 Section 6.5.2): the
/// limits it names take its value; MAX_FRAME_SIZE also bounds the frames
/// sent; INITIAL_WINDOW_SIZE moves every stream's send window by the
/// difference to the previous value (Section 6.9.2), reporting a
/// FLOW_CONTROL_ERROR where a window would leave its range, and leaves the
/// connection's window alone; ENABLE_PUSH and unknown settings change
/// nothing. No setting writes bytes.
pub proof fn lemma_setting_effect(c: CoreView, s: Setting)
    ensures
        ({
            let r = setting_applied(c, s);
            &&& r.write == c.write
            &&& r.read == c.read
            &&& r.flow == c.flow
            &&& r.state == c.state
            &&& s.id == SettingId::MaxFrameSize ==> r.encoder_max_frame == s.value
                && r.remote_settings.max_frame_size == s.value && r.events == c.events
            &&& s.id == SettingId::MaxConcurrentStreams ==> r.remote_settings.max_concurrent_streams
                == s.value && r.streams == c.streams && r.events == c.events
            &&& s.id == SettingId::MaxHeaderListSize ==> r.remote_settings.max_header_list_size
                == s.value && r.streams == c.streams && r.events == c.events
            &&& (s.id == SettingId::EnablePush || s.id is Unknown) ==> r == c
            &&& (s.id == SettingId::InitialWindowSize && s.value <= 0x7fff_ffff
                && c.remote_settings.initial_window_size <= 0x7fff_ffff) ==> {
                let delta = s.value - c.remote_settings.initial_window_size;
                &&& r.remote_settings.initial_window_size == s.value
                &&& r.streams.dom() == c.streams.dom()
                &&& forall|k: u32| #[trigger] c.streams.contains_key(k)
                    && i32::MIN <= c.streams[k].send_window + delta <= i32::MAX
                    ==> r.streams[k].send_window == c.streams[k].send_window + delta
                &&& (exists|k: u32| #[trigger] c.streams.contains_key(k)
                    && !(i32::MIN <= c.streams[k].send_window + delta <= i32::MAX))
                    ==> r.events == c.events.push(flow_control_error())
                &&& (forall|k: u32| #[trigger] c.streams.contains_key(k)
                    ==> i32::MIN <= c.streams[k].send_window + delta <= i32::MAX)
                    ==> r.events == c.events
            }
        }),
{
    if s.id == SettingId::InitialWindowSize && s.value <= 0x7fff_ffff
        && c.remote_settings.initial_window_size <= 0x7fff_ffff {
        let d = (s.value as i32 - c.remote_settings.initial_window_size as i32) as i32;
        assert(d == s.value - c.remote_settings.initial_window_size);
        let r = setting_applied(c, s);
        assert(r.streams.dom() =~= c.streams.dom());
    }
}

} // verus!
