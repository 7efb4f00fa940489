//! HTTP/2 server connection.
//!
//! This module implements the server-side HTTP/2 connection, handling:
//! - Connection preface validation from client
//! - Accepting incoming request streams
//! - Sending response headers and data
use vstd::prelude::*;
use std::collections::HashMap;
use vstd::std_specs::hash::spec_keys_iter;
use vstd::std_specs::iter::IteratorSpec;
use bytes::BytesMut;
use crate::buf::{
    bytes_as_slice, bytes_copy_from_slice, bytes_from_vec, bytes_len, bytes_mut_as_slice, bytes_mut_extend,
    bytes_mut_len, bytes_mut_seq, bytes_mut_split_to, bytes_mut_with_capacity, bytes_seq,
};
use crate::frame::decode::{frame_decoding, received_ok, setting_error};
use crate::frame::encode::frame_bytes;
use crate::frame::{
    DataFrame, ErrorCode, Frame, FrameDecoder, FrameEncoder, FrameError, FrameView, GoAwayFrame,
    HeadersFrame, PingFrame, RstStreamFrame, Setting, SettingId, SettingsFrame, StreamId,
    WindowUpdateFrame, CONNECTION_PREFACE, DEFAULT_INITIAL_WINDOW_SIZE, DEFAULT_MAX_FRAME_SIZE,
};
use crate::hpack::{
    block_decoding, block_encoding, bytes_eq, encodable, HeaderField, HpackDecoder, HpackEncoder,
};
use crate::io::{io_error_from_kind, io_error_kind, io_error_new, IoErrorKind};
use super::events::{fields_view, ConnectionError, ServerEvent};
use super::flow_control::{FlowControl, FlowControlView};
use super::model::{
    common_frame_handled, data_send_ok, data_sent, emit, headers_sent, send_amount, flow_control_error, headers_decoded, initial_settings_bytes,
    new_stream, protocol_error, report, setting_applied, settings_applied, settings_handled,
    some_window_overflows, stream_adjusted, streams_adjusted, ConnectionErrorView, ConnectionState,
    CoreView, EventView,
};
use super::settings::ConnectionSettings;
use super::stream::{Stream, StreamState, StreamView};

verus! {

broadcast use vstd::std_specs::hash::group_hash_axioms;

/// The streams of a map, each taken by its view.
pub open spec fn streams_view(m: HashMap<u32, Stream>) -> Map<u32, StreamView> {
    streams_view_of(m@)
}

/// The server connection as plain values.
pub struct ServerView {
    pub core: CoreView,
    /// Whether the client's connection preface was received.
    pub got_preface: bool,
    /// The highest stream the client opened.
    pub last_client_stream_id: u32,
}

/// The server connection with its core replaced.
pub open spec fn with_core(v: ServerView, c: CoreView) -> ServerView {
    ServerView { core: c, ..v }
}

/// A HEADERS frame on the server: a request on a new odd stream, above all
/// earlier ones; its header block is decoded, the stream opens (half-closed
/// when END_STREAM is set) and the request is reported.
#[verifier::opaque]
pub open spec fn server_headers_handled(
    v: ServerView,
    stream_id: u32,
    end_stream: bool,
    block: Seq<u8>,
) -> ServerView {
    if stream_id % 2 == 0 {
        with_core(v, report(v.core, protocol_error("client used even stream ID"@)))
    } else if stream_id <= v.last_client_stream_id {
        with_core(v, report(v.core, protocol_error("stream ID not greater than previous"@)))
    } else {
        let v1 = ServerView { last_client_stream_id: stream_id, ..v };
        let (c, hs) = headers_decoded(v1.core, block);
        match hs {
            None => with_core(v1, c),
            Some(hs) => {
                let s = new_stream(stream_id, c.remote_settings.initial_window_size);
                let s1 = if end_stream {
                    StreamView { state: s.state.after_recv_end(), ..s }
                } else {
                    s
                };
                let c1 = CoreView { streams: c.streams.insert(stream_id, s1), ..c };
                with_core(
                    v1,
                    report(c1, EventView::Headers { stream_id, headers: hs, end_stream }),
                )
            },
        }
    }
}

/// What a received frame does to the server connection.
pub open spec fn server_frame_handled(v: ServerView, f: FrameView) -> ServerView {
    match common_frame_handled(v.core, f) {
        Some(c) => with_core(v, c),
        None => match f {
            FrameView::Headers { stream_id, end_stream, header_block, .. } => server_headers_handled(
                v,
                stream_id,
                end_stream,
                header_block,
            ),
            _ => with_core(v, report(v.core, protocol_error("unexpected PUSH_PROMISE from client"@))),
        },
    }
}

/// The server connection with `read` as its received bytes.
pub open spec fn with_read(v: ServerView, read: Seq<u8>) -> ServerView {
    ServerView { core: CoreView { read, ..v.core }, ..v }
}

/// Decoding and handling the received frames, one after the other, until
/// more bytes are needed or a frame cannot be decoded (which is reported).
#[verifier::opaque]
pub open spec fn server_frames_processed(v: ServerView) -> ServerView
    decreases v.core.read.len(),
{
    let (res, n) = frame_decoding(v.core.decoder_max_frame, v.core.read);
    let rest = v.core.read.skip(n as int);
    let v1 = with_read(v, rest);
    match res {
        Ok(Some(f)) => if 0 < n <= v.core.read.len() {
            server_frames_processed(with_read(server_frame_handled(v1, f), rest))
        } else {
            v1
        },
        Ok(None) => v1,
        Err(e) => with_core(v1, report(v1.core, EventView::Error(ConnectionErrorView::Frame(e)))),
    }
}

/// Processing the received bytes: first the client's connection preface,
/// answered with the server's SETTINGS; a wrong preface is reported and
/// nothing is consumed; then the frames.
pub open spec fn server_processed(v: ServerView) -> ServerView {
    if !v.got_preface {
        if v.core.read.len() >= 24 {
            if v.core.read.take(24) == CONNECTION_PREFACE@ {
                let c = emit(
                    CoreView { read: v.core.read.skip(24), ..v.core },
                    initial_settings_bytes(v.core.local_settings),
                );
                let v1 = ServerView {
                    core: CoreView { state: ConnectionState::WaitingSettings, ..c },
                    got_preface: true,
                    ..v
                };
                server_frames_processed(v1)
            } else {
                with_core(v, report(v.core, protocol_error("invalid connection preface"@)))
            }
        } else {
            v
        }
    } else {
        server_frames_processed(v)
    }
}

/// HTTP/2 server connection.
pub struct ServerConnection {
    /// Connection state.
    state: ConnectionState,
    /// Local settings (what we advertise).
    local_settings: ConnectionSettings,
    /// Remote settings (what client advertises).
    remote_settings: ConnectionSettings,
    /// Whether we've received the client's preface.
    got_preface: bool,
    /// Whether we've received the client's settings.
    got_settings: bool,
    /// Frame encoder.
    frame_encoder: FrameEncoder,
    /// Frame decoder.
    frame_decoder: FrameDecoder,
    /// HPACK encoder.
    hpack_encoder: HpackEncoder,
    /// HPACK decoder.
    hpack_decoder: HpackDecoder,
    /// Active streams.
    streams: HashMap<u32, Stream>,
    /// Connection-level flow control.
    flow_control: FlowControl,
    /// Buffer for encoding frames.
    write_buf: BytesMut,
    /// Buffer for incoming data.
    read_buf: BytesMut,
    /// Pending events.
    events: Vec<ServerEvent>,
    /// Highest stream ID received from client.
    last_client_stream_id: u32,
}

impl View for ServerConnection {
    type V = ServerView;

    closed spec fn view(&self) -> ServerView {
        ServerView {
            core: CoreView {
                state: self.state,
                local_settings: self.local_settings,
                remote_settings: self.remote_settings,
                got_settings: self.got_settings,
                encoder_max_frame: self.frame_encoder@,
                decoder_max_frame: self.frame_decoder@,
                hpack_encoder: self.hpack_encoder@,
                hpack_decoder: self.hpack_decoder@,
                streams: streams_view(self.streams),
                flow: self.flow_control@,
                write: bytes_mut_seq(self.write_buf),
                read: bytes_mut_seq(self.read_buf),
                events: self.events@.map_values(|e: ServerEvent| e@),
            },
            got_preface: self.got_preface,
            last_client_stream_id: self.last_client_stream_id,
        }
    }
}

impl ServerConnection {
    /// The connection's internal state is consistent: the HPACK tables are
    /// well-formed and the peer's initial window is a valid window size.
    pub closed spec fn wf(&self) -> bool {
        &&& self.hpack_encoder.wf()
        &&& self.hpack_decoder.wf()
        &&& self.remote_settings.initial_window_size <= 0x7FFF_FFFF
    }

    /// Create a new HTTP/2 server connection.
    pub fn new() -> (r: Self)
        ensures
            r.wf(),
            r@.core.state == ConnectionState::WaitingPreface,
            r@.core.local_settings == ConnectionSettings::spec_default(),
            r@.core.remote_settings == ConnectionSettings::spec_default(),
            !r@.got_preface,
            !r@.core.got_settings,
            r@.core.encoder_max_frame == DEFAULT_MAX_FRAME_SIZE,
            r@.core.decoder_max_frame == DEFAULT_MAX_FRAME_SIZE,
            r@.core.hpack_encoder.table.entries.len() == 0,
            r@.core.hpack_encoder.table.max_size == crate::hpack::DEFAULT_TABLE_SIZE,
            r@.core.hpack_encoder.use_huffman,
            r@.core.hpack_decoder.table.entries.len() == 0,
            r@.core.hpack_decoder.table.max_size == crate::hpack::DEFAULT_TABLE_SIZE,
            r@.core.hpack_decoder.max_table_size == crate::hpack::DEFAULT_TABLE_SIZE,
            r@.core.streams == Map::<u32, StreamView>::empty(),
            r@.core.flow == FlowControlView::initial(DEFAULT_INITIAL_WINDOW_SIZE),
            r@.core.write.len() == 0,
            r@.core.read.len() == 0,
            r@.core.events.len() == 0,
            r@.last_client_stream_id == 0,
    {
        let r = ServerConnection {
            state: ConnectionState::WaitingPreface,
            local_settings: ConnectionSettings::default(),
            remote_settings: ConnectionSettings::default(),
            got_preface: false,
            got_settings: false,
            frame_encoder: FrameEncoder::new(),
            frame_decoder: FrameDecoder::new(),
            hpack_encoder: HpackEncoder::new(),
            hpack_decoder: HpackDecoder::new(),
            streams: HashMap::new(),
            flow_control: FlowControl::new(DEFAULT_INITIAL_WINDOW_SIZE),
            write_buf: bytes_mut_with_capacity(16384),
            read_buf: bytes_mut_with_capacity(16384),
            events: Vec::new(),
            last_client_stream_id: 0,
        };
        assert(streams_view(r.streams) =~= Map::<u32, StreamView>::empty());
        r
    }

    /// Get the connection state.
    pub fn state(&self) -> (r: ConnectionState)
        ensures
            r == self@.core.state,
    {
        self.state
    }

    /// Check if the connection is ready for requests.
    pub fn is_ready(&self) -> (r: bool)
        ensures
            r == (self@.core.state == ConnectionState::Open),
    {
        self.state == ConnectionState::Open
    }

    /// The settings the client advertised.
    pub fn remote_settings(&self) -> (r: ConnectionSettings)
        ensures
            r == self@.core.remote_settings,
    {
        self.remote_settings
    }

    /// The connection-level flow control.
    pub fn flow_control(&self) -> (r: &FlowControl)
        ensures
            r@ == self@.core.flow,
    {
        &self.flow_control
    }

    /// The active streams, by stream ID.
    pub fn streams(&self) -> (r: &HashMap<u32, Stream>)
        ensures
            streams_view(*r) == self@.core.streams,
    {
        &self.streams
    }

    /// Feed data received from the client.
    pub fn on_recv(&mut self, data: &[u8])
        requires
            old(self)@.core.read.len() + data@.len() <= isize::MAX,
        ensures
            final(self)@ == with_read(old(self)@, old(self)@.core.read + data@),
            old(self).wf() ==> final(self).wf(),
    {
        bytes_mut_extend(&mut self.read_buf, data);
    }

    /// Feed plaintext data directly into the connection's frame buffer.
    ///
    /// Equivalent to `on_recv()` followed by `process()`.
    pub fn feed_data(&mut self, data: &[u8]) -> (r: std::io::Result<()>)
        requires
            old(self).wf(),
            old(self)@.core.write.len() + 2 * (old(self)@.core.read.len() + data@.len())
                <= isize::MAX,
        ensures
            final(self).wf(),
            r is Ok,
            final(self)@ == server_processed(with_read(old(self)@, old(self)@.core.read + data@)),
    {
        bytes_mut_extend(&mut self.read_buf, data);
        self.process()
    }

    /// Process received data and return events.
    pub fn process(&mut self) -> (r: std::io::Result<()>)
        requires
            old(self).wf(),
            old(self)@.core.write.len() + 2 * old(self)@.core.read.len() <= isize::MAX,
        ensures
            final(self).wf(),
            r is Ok,
            final(self)@ == server_processed(old(self)@),
    {
        // First, check for connection preface if we haven't seen it
        if !self.got_preface {
            if bytes_mut_len(&self.read_buf) >= 24 {
                let head = vstd::slice::slice_subrange(bytes_mut_as_slice(&self.read_buf), 0, 24);
                if bytes_eq(head, &CONNECTION_PREFACE) {
                    let ghost before = self@;
                    let _ = bytes_mut_split_to(&mut self.read_buf, 24);
                    self.got_preface = true;
                    proof {
                        assert(head@ =~= before.core.read.take(24));
                    }
                    // Send our settings
                    self.send_settings();
                } else {
                    proof {
                        assert(head@ =~= self@.core.read.take(24));
                    }
                    self.push_event(
                        ServerEvent::Error(
                            ConnectionError::Protocol("invalid connection preface".to_owned()),
                        ),
                    );
                    return Ok(());
                }
            } else {
                // Need more data
                return Ok(());
            }
        }
        // Process frames
        self.process_frames();
        Ok(())
    }

    /// Append an event.
    fn push_event(&mut self, e: ServerEvent)
        ensures
            final(self)@ == with_core(old(self)@, report(old(self)@.core, e@)),
            old(self).wf() ==> final(self).wf(),
    {
        let ghost before = self.events@;
        self.events.push(e);
        proof {
            assert(self.events@.map_values(|e: ServerEvent| e@) =~= before.map_values(
                |e: ServerEvent| e@,
            ).push(e@));
        }
    }

    /// Append the bytes of a frame to the outgoing buffer.
    fn emit_frame(&mut self, frame: &Frame)
        requires
            old(self)@.core.write.len() + frame_bytes(frame@).len() <= isize::MAX,
        ensures
            final(self)@ == with_core(old(self)@, emit(old(self)@.core, frame_bytes(frame@))),
            old(self).wf() ==> final(self).wf(),
    {
        self.frame_encoder.encode(frame, &mut self.write_buf);
    }

    /// Send server settings.
    fn send_settings(&mut self)
        requires
            old(self)@.core.write.len() + 27 <= isize::MAX,
        ensures
            final(self)@ == (ServerView {
                core: CoreView {
                    state: ConnectionState::WaitingSettings,
                    ..emit(old(self)@.core, initial_settings_bytes(old(self)@.core.local_settings))
                },
                ..old(self)@
            }),
            old(self).wf() ==> final(self).wf(),
            final(self)@.core.write.len() == old(self)@.core.write.len() + 27,
    {
        let settings = vec![
            Setting {
                id: SettingId::MaxConcurrentStreams,
                value: self.local_settings.max_concurrent_streams,
            },
            Setting { id: SettingId::InitialWindowSize, value: self.local_settings.initial_window_size },
            Setting { id: SettingId::MaxFrameSize, value: self.local_settings.max_frame_size },
        ];
        let frame = Frame::Settings(SettingsFrame { ack: false, settings });
        proof {
            let l = self.local_settings;
            assert(frame@ == FrameView::Settings {
                ack: false,
                settings: seq![
                    Setting { id: SettingId::MaxConcurrentStreams, value: l.max_concurrent_streams },
                    Setting { id: SettingId::InitialWindowSize, value: l.initial_window_size },
                    Setting { id: SettingId::MaxFrameSize, value: l.max_frame_size },
                ],
            });
            crate::frame::encode::lemma_settings_bytes_len(frame@->Settings_settings);
        }
        self.emit_frame(&frame);
        self.state = ConnectionState::WaitingSettings;
    }

    /// Process complete frames in the read buffer.
    fn process_frames(&mut self)
        requires
            old(self).wf(),
            old(self)@.core.write.len() + 2 * old(self)@.core.read.len() <= isize::MAX,
        ensures
            final(self).wf(),
            final(self)@ == server_frames_processed(old(self)@),
    {
        loop
            invariant_except_break
                server_frames_processed(self@) == server_frames_processed(old(self)@),
            invariant
                self.wf(),
                self@.core.write.len() + 2 * self@.core.read.len() <= isize::MAX,
            ensures
                self.wf(),
                self@ == server_frames_processed(old(self)@),
            decreases self@.core.read.len(),
        {
            let ghost v = self@;
            let ghost dec = frame_decoding(v.core.decoder_max_frame, v.core.read);
            proof {
                reveal(server_frames_processed);
            }
            match self.frame_decoder.decode(&mut self.read_buf) {
                Ok(Some(frame)) => {
                    proof {
                        assert(self@ == with_read(v, v.core.read.skip(dec.1 as int)));
                    }
                    let ghost v1 = self@;
                    self.handle_frame(frame);
                    proof {
                        assert(self@ == with_read(server_frame_handled(v1, frame@), v1.core.read));
                    }
                },
                Ok(None) => {
                    proof {
                        assert(v.core.read.skip(0) =~= v.core.read);
                        assert(self@ == v);
                    }
                    break ;
                },
                Err(e) => {
                    self.push_event(ServerEvent::Error(ConnectionError::Frame(e)));
                    break ;
                },
            }
        }
    }

    /// Handle a received frame.
    fn handle_frame(&mut self, frame: Frame)
        requires
            old(self).wf(),
            received_ok(frame@),
            old(self)@.core.write.len() + 17 <= isize::MAX,
        ensures
            final(self).wf(),
            final(self)@ == server_frame_handled(old(self)@, frame@),
            final(self)@.core.read == old(self)@.core.read,
            final(self)@.core.write.len() <= old(self)@.core.write.len() + 17,
    {
        let ghost f = frame@;
        match frame {
            Frame::Settings(f) => self.handle_settings(f),
            Frame::Ping(f) => self.handle_ping(f),
            Frame::GoAway(f) => self.handle_goaway(f),
            Frame::WindowUpdate(f) => self.handle_window_update(f),
            Frame::Headers(f) => self.handle_headers(f),
            Frame::Data(f) => self.handle_data(f),
            Frame::RstStream(f) => self.handle_rst_stream(f),
            Frame::Priority(_) => {},  // Ignore priority frames
            Frame::PushPromise(_) => {
                // Clients shouldn't send PUSH_PROMISE
                self.push_event(
                    ServerEvent::Error(
                        ConnectionError::Protocol("unexpected PUSH_PROMISE from client".to_owned()),
                    ),
                );
            },
            Frame::Continuation(_) => {
                // Should be handled with preceding HEADERS frame
                self.push_event(
                    ServerEvent::Error(
                        ConnectionError::Protocol("unexpected CONTINUATION frame".to_owned()),
                    ),
                );
            },
            Frame::Unknown(_) => {},  // Ignore unknown frame types per spec
        }
    }

    /// Handle SETTINGS frame.
    pub fn handle_settings(&mut self, frame: SettingsFrame)
        requires
            old(self).wf(),
            received_ok(Frame::Settings(frame)@),
            old(self)@.core.write.len() + 9 <= isize::MAX,
        ensures
            final(self).wf(),
            final(self)@ == with_core(
                old(self)@,
                settings_handled(old(self)@.core, frame.ack, frame.settings@),
            ),
            final(self)@.core.read == old(self)@.core.read,
            final(self)@.core.write.len() <= old(self)@.core.write.len() + 9,
    {
        proof {
            reveal(settings_handled);
        }
        if frame.ack {
            // This is an ACK of our settings
            return ;
        }
        let ghost s = frame.settings@;
        let ghost start = self@;
        let mut i: usize = 0;
        proof {
            assert(s.take(0) =~= Seq::<Setting>::empty());
        }
        // Apply settings
        while i < frame.settings.len()
            invariant
                self.wf(),
                s == frame.settings@,
                i <= s.len(),
                forall|k: int|
                    0 <= k < s.len() ==> (#[trigger] setting_error(s[k].id, s[k].value)) is None,
                self@ == with_core(start, settings_applied(start.core, s.take(i as int))),
            decreases s.len() - i,
        {
            let setting = frame.settings[i];
            proof {
                assert(s.take(i + 1).drop_last() =~= s.take(i as int));
                assert(setting_error(s[i as int].id, s[i as int].value) is None);
            }
            self.apply_setting(setting);
            i = i + 1;
        }
        proof {
            assert(s.take(i as int) =~= s);
            super::model::lemma_settings_applied_keeps(start.core, s);
        }
        // Send ACK
        let ack = Frame::Settings(SettingsFrame { ack: true, settings: Vec::new() });
        proof {
            assert(ack@ == FrameView::Settings { ack: true, settings: Seq::empty() });
        }
        self.emit_frame(&ack);
        if !self.got_settings {
            self.got_settings = true;
            self.state = ConnectionState::Open;
            self.push_event(ServerEvent::Ready);
        }
    }

    /// Apply one setting from the client.
    fn apply_setting(&mut self, setting: Setting)
        requires
            old(self).wf(),
            setting_error(setting.id, setting.value) is None,
        ensures
            final(self).wf(),
            final(self)@ == with_core(old(self)@, setting_applied(old(self)@.core, setting)),
    {
        match setting.id {
            SettingId::HeaderTableSize => {
                self.hpack_encoder.set_table_size(setting.value as usize);
            },
            SettingId::MaxConcurrentStreams => {
                self.remote_settings.max_concurrent_streams = setting.value;
            },
            SettingId::InitialWindowSize => {
                let delta: i32 = setting.value as i32 - self.remote_settings.initial_window_size as i32;
                self.remote_settings.initial_window_size = setting.value;
                // Adjust all stream windows
                let overflow = self.adjust_stream_windows(delta);
                if overflow {
                    self.push_event(
                        ServerEvent::Error(
                            ConnectionError::Frame(FrameError::Protocol(ErrorCode::FlowControlError)),
                        ),
                    );
                }
            },
            SettingId::MaxFrameSize => {
                self.remote_settings.max_frame_size = setting.value;
                self.frame_encoder.set_max_frame_size(setting.value);
            },
            SettingId::MaxHeaderListSize => {
                self.remote_settings.max_header_list_size = setting.value;
            },
            _ => {},  // Ignore unknown settings
        }
    }

    /// Move the send window of every stream by `delta`; a stream whose
    /// window would leave its range keeps it, and then `true` is returned.
    fn adjust_stream_windows(&mut self, delta: i32) -> (overflow: bool)
        ensures
            final(self)@ == (ServerView {
                core: CoreView {
                    streams: streams_adjusted(old(self)@.core.streams, delta),
                    ..old(self)@.core
                },
                ..old(self)@
            }),
            overflow == some_window_overflows(old(self)@.core.streams, delta),
            old(self).wf() ==> final(self).wf(),
    {
        let ghost m0 = self.streams@;
        let ghost start = self@;
        let mut keys: Vec<u32> = Vec::new();
        let ghost all = spec_keys_iter(&self.streams).remaining().unref();
        proof {
            assert(all.to_set() == m0.dom());
            let r = spec_keys_iter(&self.streams).remaining();
            assert(r.no_duplicates());
            assert(all.no_duplicates()) by {
                assert forall|a: int, b: int| 0 <= a < all.len() && 0 <= b < all.len() && a != b
                    implies all[a] != all[b] by {
                    assert(r[a] != r[b]);
                }
            }
        }
        for k in it: self.streams.keys()
            invariant
                it.seq().unref() == all,
                keys@ == all.take(it.index()),
        {
            let ghost kb = keys@;
            keys.push(*k);
            proof {
                assert(all.take(it.index() + 1) =~= kb.push(*k));
            }
        }
        assert(keys@ =~= all);
        let ghost ks = keys@;
        let mut overflow = false;
        let mut i: usize = 0;
        while i < keys.len()
            invariant
                ks == keys@,
                ks.no_duplicates(),
                ks.to_set() == m0.dom(),
                i <= ks.len(),
                self.streams@.dom() == m0.dom(),
                forall|j: int|
                    0 <= j < i ==> (#[trigger] self.streams@[ks[j]])@ == stream_adjusted(
                        m0[ks[j]]@,
                        delta,
                    ),
                forall|j: int| i <= j < ks.len() ==> #[trigger] self.streams@[ks[j]] == m0[ks[j]],
                overflow == exists|j: int|
                    0 <= j < i && !(#[trigger] m0[ks[j]]@).can_adjust_send(delta),
                self@ == (ServerView {
                    core: CoreView { streams: streams_view(self.streams), ..start.core },
                    ..start
                }),
                old(self).wf() ==> self.wf(),
            decreases ks.len() - i,
        {
            let k = keys[i];
            proof {
                assert(ks.to_set().contains(k));
            }
            let ghost before = self.streams@;
            let ghost ov = overflow;
            if let Some(mut s) = self.streams.remove(&k) {
                let ghost s0 = s@;
                match s.send_window().checked_add(delta) {
                    Some(_) => s.adjust_send_window(delta),
                    None => {
                        overflow = true;
                    },
                }
                self.streams.insert(k, s);
                proof {
                    assert(s0 == m0[k]@);
                    assert(s@ == stream_adjusted(s0, delta));
                    assert forall|j: int| 0 <= j < i + 1 implies (#[trigger] self.streams@[ks[j]])@
                        == stream_adjusted(m0[ks[j]]@, delta) by {
                        if j < i {
                            assert(ks[j] != k);
                            assert(self.streams@[ks[j]] == before[ks[j]]);
                        }
                    }
                    assert forall|j: int| i + 1 <= j < ks.len() implies #[trigger] self.streams@[ks[j]]
                        == m0[ks[j]] by {
                        assert(ks[j] != k);
                        assert(self.streams@[ks[j]] == before[ks[j]]);
                    }
                    assert(overflow == exists|j: int|
                        0 <= j < i + 1 && !(#[trigger] m0[ks[j]]@).can_adjust_send(delta)) by {
                        if !s0.can_adjust_send(delta) {
                            assert(!m0[ks[i as int]]@.can_adjust_send(delta));
                        } else if !ov {
                            if exists|j: int|
                                0 <= j < i + 1 && !(#[trigger] m0[ks[j]]@).can_adjust_send(delta) {
                                let j = choose|j: int|
                                    0 <= j < i + 1 && !(#[trigger] m0[ks[j]]@).can_adjust_send(delta);
                                assert(j == i);
                            }
                        }
                    }
                    assert(self.streams@.dom() =~= m0.dom());
                }
            }
            i = i + 1;
        }
        proof {
            let target = streams_adjusted(streams_view_of(m0), delta);
            assert(streams_view(self.streams) =~= target) by {
                assert forall|k: u32| #[trigger] streams_view(self.streams).contains_key(k)
                    implies streams_view(self.streams)[k] == target[k] by {
                    assert(ks.to_set().contains(k));
                    let j = ks.index_of(k);
                    assert(self.streams@[ks[j]]@ == stream_adjusted(m0[ks[j]]@, delta));
                }
            }
            assert(overflow == some_window_overflows(streams_view_of(m0), delta)) by {
                if overflow {
                    let j = choose|j: int| 0 <= j < i && !(#[trigger] m0[ks[j]]@).can_adjust_send(delta);
                    assert(ks.to_set().contains(ks[j]));
                    assert(streams_view_of(m0).contains_key(ks[j]));
                    assert(!streams_view_of(m0)[ks[j]].can_adjust_send(delta));
                }
                if some_window_overflows(streams_view_of(m0), delta) {
                    let k = choose|k: u32| streams_view_of(m0).contains_key(k) && !(
                    #[trigger] streams_view_of(m0)[k]).can_adjust_send(delta);
                    assert(ks.to_set().contains(k));
                    let j = ks.index_of(k);
                    assert(!m0[ks[j]]@.can_adjust_send(delta));
                }
            }
        }
        overflow
    }

    /// Handle PING frame.
    fn handle_ping(&mut self, frame: PingFrame)
        requires
            old(self)@.core.write.len() + 17 <= isize::MAX,
        ensures
            final(self)@.core.read == old(self)@.core.read,
            final(self)@ == with_core(
                old(self)@,
                super::model::ping_handled(old(self)@.core, frame.ack, frame.data@),
            ),
            old(self).wf() ==> final(self).wf(),
            final(self)@.core.write.len() <= old(self)@.core.write.len() + 17,
    {
        proof {
            reveal(super::model::ping_handled);
        }
        if frame.ack {
            // Response to our ping (we don't send pings as server)
            return ;
        }
        // Send PING ACK
        let ack = Frame::Ping(PingFrame { ack: true, data: frame.data });
        self.emit_frame(&ack);
    }

    /// Handle GOAWAY frame.
    fn handle_goaway(&mut self, frame: GoAwayFrame)
        ensures
            final(self)@.core.write == old(self)@.core.write,
            final(self)@.core.read == old(self)@.core.read,
            final(self)@ == with_core(
                old(self)@,
                super::model::goaway_handled(
                    old(self)@.core,
                    frame.last_stream_id.0,
                    frame.error_code,
                ),
            ),
            old(self).wf() ==> final(self).wf(),
    {
        proof {
            reveal(super::model::goaway_handled);
        }
        self.state = ConnectionState::Draining;
        self.push_event(
            ServerEvent::GoAway {
                last_stream_id: frame.last_stream_id,
                error_code: ErrorCode::from_u32(frame.error_code),
            },
        );
    }

    /// Handle WINDOW_UPDATE frame.
    fn handle_window_update(&mut self, frame: WindowUpdateFrame)
        ensures
            final(self)@.core.write == old(self)@.core.write,
            final(self)@.core.read == old(self)@.core.read,
            final(self)@ == with_core(
                old(self)@,
                super::model::window_update_handled(
                    old(self)@.core,
                    frame.stream_id.0,
                    frame.increment,
                ),
            ),
            old(self).wf() ==> final(self).wf(),
    {
        proof {
            reveal(super::model::window_update_handled);
        }
        if frame.stream_id.is_connection_level() {
            if !self.flow_control.increase_window(frame.increment) {
                self.push_event(
                    ServerEvent::Error(
                        ConnectionError::Frame(FrameError::Protocol(ErrorCode::FlowControlError)),
                    ),
                );
            }
        } else {
            let id = frame.stream_id.value();
            let ghost m0 = self.streams@;
            let removed = self.streams.remove(&id);
            proof {
                if removed is None {
                    assert(self.streams@ =~= m0);
                }
            }
            if let Some(mut stream) = removed {
                let applied = stream.increase_send_window(frame.increment);
                self.streams.insert(id, stream);
                proof {
                    assert(streams_view(self.streams) =~= streams_view_of(m0).insert(id, stream@));
                    if !applied {
                        assert(streams_view(self.streams) =~= streams_view_of(m0));
                    }
                }
                if !applied {
                    self.push_event(
                        ServerEvent::Error(
                            ConnectionError::Frame(FrameError::Protocol(ErrorCode::FlowControlError)),
                        ),
                    );
                }
            }
        }
    }

    /// Handle HEADERS frame (new request from client).
    fn handle_headers(&mut self, frame: HeadersFrame)
        requires
            old(self).wf(),
        ensures
            final(self)@.core.write == old(self)@.core.write,
            final(self)@.core.read == old(self)@.core.read,
            final(self).wf(),
            final(self)@ == server_headers_handled(
                old(self)@,
                frame.stream_id.0,
                frame.end_stream,
                bytes_seq(frame.header_block),
            ),
    {
        proof {
            reveal(server_headers_handled);
        }
        let stream_id = frame.stream_id;
        // Validate stream ID (must be odd for client-initiated, greater than last)
        if stream_id.value() % 2 == 0 {
            self.push_event(
                ServerEvent::Error(ConnectionError::Protocol("client used even stream ID".to_owned())),
            );
            return ;
        }
        if stream_id.value() <= self.last_client_stream_id {
            self.push_event(
                ServerEvent::Error(
                    ConnectionError::Protocol("stream ID not greater than previous".to_owned()),
                ),
            );
            return ;
        }
        self.last_client_stream_id = stream_id.value();
        // Decode HPACK headers
        let headers = match self.hpack_decoder.decode(bytes_as_slice(&frame.header_block)) {
            Ok(h) => h,
            Err(e) => {
                self.push_event(ServerEvent::Error(ConnectionError::Hpack(e.debug_text())));
                return ;
            },
        };
        proof {
            let hs = block_decoding(old(self)@.core.hpack_decoder, bytes_seq(frame.header_block)).0;
            assert(fields_view(headers) =~= hs->Ok_0);
        }
        // Create new stream
        let id = stream_id.value();
        let ghost m0 = self.streams@;
        let stream = Stream::new(stream_id, self.remote_settings.initial_window_size);
        self.streams.insert(id, stream);
        proof {
            assert(streams_view(self.streams) =~= streams_view_of(m0).insert(id, stream@));
        }
        // Update stream state if end_stream
        if frame.end_stream {
            let ghost m1 = self.streams@;
            if let Some(mut s) = self.streams.remove(&id) {
                s.recv_end_stream();
                self.streams.insert(id, s);
                proof {
                    assert(streams_view(self.streams) =~= streams_view_of(m0).insert(id, s@));
                }
            }
        }
        self.push_event(ServerEvent::Request { stream_id, headers, end_stream: frame.end_stream });
    }

    /// Count the bytes of a DATA frame against the stream's and the
    /// connection's windows, sending a WINDOW_UPDATE when one is due.
    fn count_data(&mut self, frame: &DataFrame)
        requires
            old(self).wf(),
            old(self)@.core.write.len() + 13 <= isize::MAX,
        ensures
            final(self).wf(),
            final(self)@ == with_core(
                old(self)@,
                super::model::data_counted(
                    old(self)@.core,
                    frame.stream_id.0,
                    frame.end_stream,
                    bytes_seq(frame.data),
                ),
            ),
            final(self)@.core.read == old(self)@.core.read,
            final(self)@.core.write.len() <= old(self)@.core.write.len() + 13,
            final(self)@.core.write.len() >= old(self)@.core.write.len(),
            final(self)@.core.write.len() == old(self)@.core.write.len() ==> final(self)@.core.write
                == old(self)@.core.write,
    {
        proof {
            reveal(super::model::data_counted);
        }
        let data_len = bytes_len(&frame.data) as u32;
        let id = frame.stream_id.value();
        let ghost m0 = self.streams@;
        // Update stream state
        let removed = self.streams.remove(&id);
        proof {
            if removed is None {
                assert(self.streams@ =~= m0);
            }
        }
        if let Some(mut stream) = removed {
            let ok = stream.recv_window().checked_sub(data_len as i32).is_some()
                && stream.bytes_received().checked_add(data_len).is_some();
            if ok {
                stream.recv_data(data_len);
            }
            if frame.end_stream {
                stream.recv_end_stream();
            }
            self.streams.insert(id, stream);
            proof {
                assert(streams_view(self.streams) =~= streams_view_of(m0).insert(id, stream@));
            }
            if !ok {
                self.push_event(
                    ServerEvent::Error(
                        ConnectionError::Frame(FrameError::Protocol(ErrorCode::FlowControlError)),
                    ),
                );
            }
        }
        // Update flow control and send WINDOW_UPDATE if needed
        let can_consume = self.flow_control.available().checked_sub(data_len as i32).is_some()
            && self.flow_control.pending_update().checked_add(data_len).is_some();
        if can_consume {
            self.flow_control.consume(data_len);
        } else {
            self.push_event(
                ServerEvent::Error(
                    ConnectionError::Frame(FrameError::Protocol(ErrorCode::FlowControlError)),
                ),
            );
        }
        if self.flow_control.should_update() {
            let increment = self.flow_control.pending_update();
            if self.flow_control.available().checked_add(increment as i32).is_some() {
                self.flow_control.reset_pending();
                let wu = Frame::WindowUpdate(
                    WindowUpdateFrame { stream_id: StreamId::connection(), increment },
                );
                proof {
                    assert(frame_bytes(wu@).len() == 13);
                }
                self.emit_frame(&wu);
            } else {
                self.push_event(
                    ServerEvent::Error(
                        ConnectionError::Frame(FrameError::Protocol(ErrorCode::FlowControlError)),
                    ),
                );
            }
        }
    }

    /// Handle DATA frame.
    fn handle_data(&mut self, frame: DataFrame)
        requires
            old(self).wf(),
            old(self)@.core.write.len() + 13 <= isize::MAX,
        ensures
            final(self)@.core.read == old(self)@.core.read,
            final(self).wf(),
            final(self)@ == with_core(
                old(self)@,
                super::model::data_handled(
                    old(self)@.core,
                    frame.stream_id.0,
                    frame.end_stream,
                    bytes_seq(frame.data),
                ),
            ),
            final(self)@.core.write.len() <= old(self)@.core.write.len() + 13,
    {
        self.count_data(&frame);
        self.push_event(
            ServerEvent::Data {
                stream_id: frame.stream_id,
                data: frame.data,
                end_stream: frame.end_stream,
            },
        );
    }

    /// Handle RST_STREAM frame.
    fn handle_rst_stream(&mut self, frame: RstStreamFrame)
        ensures
            final(self)@.core.write == old(self)@.core.write,
            final(self)@.core.read == old(self)@.core.read,
            final(self)@ == with_core(
                old(self)@,
                super::model::rst_stream_handled(
                    old(self)@.core,
                    frame.stream_id.0,
                    frame.error_code,
                ),
            ),
            old(self).wf() ==> final(self).wf(),
    {
        proof {
            reveal(super::model::rst_stream_handled);
        }
        let id = frame.stream_id.value();
        let ghost m0 = self.streams@;
        let removed = self.streams.remove(&id);
        proof {
            if removed is None {
                assert(self.streams@ =~= m0);
            }
        }
        if let Some(mut stream) = removed {
            stream.reset();
            self.streams.insert(id, stream);
            proof {
                assert(streams_view(self.streams) =~= streams_view_of(m0).insert(id, stream@));
            }
        }
        self.push_event(
            ServerEvent::StreamReset {
                stream_id: frame.stream_id,
                error_code: ErrorCode::from_u32(frame.error_code),
            },
        );
    }

    /// Send response headers on a stream.
    pub fn send_headers(
        &mut self,
        stream_id: StreamId,
        headers: &[HeaderField],
        end_stream: bool,
    ) -> (r: std::io::Result<()>)
        requires
            old(self).wf(),
            forall|i: int| 0 <= i < headers@.len() ==> encodable(#[trigger] headers@[i]@),
            old(self)@.core.write.len() + 9 + block_encoding(
                old(self)@.core.hpack_encoder,
                headers@.map_values(|h: HeaderField| h@),
            ).0.len() <= isize::MAX,
        ensures
            final(self).wf(),
            !old(self)@.core.streams.contains_key(stream_id.0) ==> {
                &&& r is Err
                &&& io_error_kind(r->Err_0) == IoErrorKind::NotFound
                &&& final(self)@ == old(self)@
            },
            old(self)@.core.streams.contains_key(stream_id.0) ==> {
                &&& r is Ok
                &&& final(self)@ == with_core(
                    old(self)@,
                    headers_sent(
                        old(self)@.core,
                        stream_id.0,
                        headers@.map_values(|h: HeaderField| h@),
                        end_stream,
                    ),
                )
            },
    {
        // Verify stream exists
        if !self.streams.contains_key(&stream_id.value()) {
            return Err(io_error_new(IoErrorKind::NotFound, "stream not found"));
        }
        // Encode headers with HPACK
        let mut header_block: Vec<u8> = Vec::new();
        self.hpack_encoder.encode(headers, &mut header_block);
        proof {
            assert(header_block@ =~= block_encoding(
                old(self)@.core.hpack_encoder,
                headers@.map_values(|h: HeaderField| h@),
            ).0);
        }
        // Send HEADERS frame
        let frame = Frame::Headers(
            HeadersFrame {
                stream_id,
                end_stream,
                end_headers: true,
                priority: None,
                header_block: bytes_from_vec(header_block),
            },
        );
        self.emit_frame(&frame);
        // Update stream state
        if end_stream {
            let id = stream_id.value();
            let ghost m0 = self.streams@;
            if let Some(mut stream) = self.streams.remove(&id) {
                stream.send_end_stream();
                self.streams.insert(id, stream);
                proof {
                    assert(streams_view(self.streams) =~= streams_view_of(m0).insert(id, stream@));
                }
            }
        }
        Ok(())
    }

    /// Send data on a stream; returns how many bytes went out.
    pub fn send_data(&mut self, stream_id: StreamId, data: &[u8], end_stream: bool) -> (r:
        std::io::Result<usize>)
        requires
            old(self).wf(),
            old(self)@.core.streams.contains_key(stream_id.0) ==> data_send_ok(
                old(self)@.core,
                stream_id.0,
                send_amount(old(self)@.core, stream_id.0, data@.len()),
            ),
        ensures
            final(self).wf(),
            !old(self)@.core.streams.contains_key(stream_id.0) ==> {
                &&& r is Err
                &&& io_error_kind(r->Err_0) == IoErrorKind::NotFound
                &&& final(self)@ == old(self)@
            },
            old(self)@.core.streams.contains_key(stream_id.0) && send_amount(
                old(self)@.core,
                stream_id.0,
                data@.len(),
            ) == 0 && data@.len() > 0 ==> {
                &&& r is Err
                &&& io_error_kind(r->Err_0) == IoErrorKind::WouldBlock
                &&& final(self)@ == old(self)@
            },
            old(self)@.core.streams.contains_key(stream_id.0) && !(send_amount(
                old(self)@.core,
                stream_id.0,
                data@.len(),
            ) == 0 && data@.len() > 0) ==> {
                &&& r == Ok::<usize, std::io::Error>(
                    send_amount(old(self)@.core, stream_id.0, data@.len()) as usize,
                )
                &&& final(self)@ == with_core(
                    old(self)@,
                    data_sent(
                        old(self)@.core,
                        stream_id.0,
                        data@,
                        send_amount(old(self)@.core, stream_id.0, data@.len()),
                        end_stream,
                    ),
                )
            },
    {
        let id = stream_id.value();
        // Check stream exists and get flow control info
        let (to_send, is_end) = {
            let stream = match self.streams.get(&id) {
                Some(s) => s,
                None => return Err(io_error_new(IoErrorKind::NotFound, "stream not found")),
            };
            // The smaller window, as a signed amount: nothing may go out
            // when it is zero or negative.
            let w1: i32 = self.flow_control.available();
            let w2: i32 = stream.send_window();
            let w: i32 = if w1 < w2 {
                w1
            } else {
                w2
            };
            let available: usize = if w <= 0 {
                0
            } else {
                w as usize
            };
            let to_send = if available < data.len() {
                available
            } else {
                data.len()
            };
            let is_end = end_stream && to_send == data.len();
            (to_send, is_end)
        };
        if to_send == 0 && data.len() > 0 {
            return Err(io_error_from_kind(IoErrorKind::WouldBlock));
        }
        // Update flow control
        self.flow_control.consume(to_send as u32);
        // Update stream and send frame
        let ghost m0 = self.streams@;
        if let Some(mut stream) = self.streams.remove(&id) {
            stream.send_data(to_send as u32);
            if is_end {
                stream.send_end_stream();
            }
            self.streams.insert(id, stream);
            proof {
                assert(streams_view(self.streams) =~= streams_view_of(m0).insert(id, stream@));
            }
        }
        // Send DATA frame
        let chunk = vstd::slice::slice_subrange(data, 0, to_send);
        proof {
            assert(chunk@ =~= data@.take(to_send as int));
        }
        let frame = Frame::Data(
            DataFrame { stream_id, end_stream: is_end, data: bytes_copy_from_slice(chunk) },
        );
        self.emit_frame(&frame);
        Ok(to_send)
    }

    /// Send a GOAWAY frame and start draining.
    pub fn send_goaway(&mut self, error_code: ErrorCode, debug_data: &[u8])
        requires
            old(self)@.core.write.len() + 17 + debug_data@.len() <= isize::MAX,
        ensures
            old(self).wf() ==> final(self).wf(),
            final(self)@ == with_core(
                old(self)@,
                CoreView {
                    state: ConnectionState::Draining,
                    ..emit(
                        old(self)@.core,
                        frame_bytes(
                            FrameView::GoAway {
                                last_stream_id: (old(self)@.last_client_stream_id % 0x8000_0000) as u32,
                                error_code: error_code.code(),
                                debug_data: debug_data@,
                            },
                        ),
                    )
                },
            ),
    {
        let frame = Frame::GoAway(
            GoAwayFrame {
                last_stream_id: StreamId::new(self.last_client_stream_id),
                error_code: error_code.to_u32(),
                debug_data: bytes_copy_from_slice(debug_data),
            },
        );
        self.emit_frame(&frame);
        self.state = ConnectionState::Draining;
    }

    /// Reset a stream.
    pub fn reset_stream(&mut self, stream_id: StreamId, error_code: ErrorCode)
        requires
            old(self)@.core.write.len() + 13 <= isize::MAX,
        ensures
            old(self).wf() ==> final(self).wf(),
            ({
                let c = emit(
                    old(self)@.core,
                    frame_bytes(FrameView::RstStream { stream_id: stream_id.0, error_code: error_code.code() }),
                );
                final(self)@ == with_core(
                    old(self)@,
                    if c.streams.contains_key(stream_id.0) {
                        CoreView {
                            streams: c.streams.insert(
                                stream_id.0,
                                StreamView { state: StreamState::Closed, ..c.streams[stream_id.0] },
                            ),
                            ..c
                        }
                    } else {
                        c
                    },
                )
            }),
    {
        let frame = Frame::RstStream(RstStreamFrame { stream_id, error_code: error_code.to_u32() });
        self.emit_frame(&frame);
        let id = stream_id.value();
        let ghost m0 = self.streams@;
        let removed = self.streams.remove(&id);
        proof {
            if removed is None {
                assert(self.streams@ =~= m0);
            }
        }
        if let Some(mut stream) = removed {
            stream.reset();
            self.streams.insert(id, stream);
            proof {
                assert(streams_view(self.streams) =~= streams_view_of(m0).insert(id, stream@));
            }
        }
    }

    /// Get pending events.
    pub fn poll_events(&mut self) -> (r: Vec<ServerEvent>)
        ensures
            r@.map_values(|e: ServerEvent| e@) == old(self)@.core.events,
            final(self)@ == with_core(
                old(self)@,
                CoreView { events: Seq::empty(), ..old(self)@.core },
            ),
            old(self).wf() ==> final(self).wf(),
    {
        let mut taken: Vec<ServerEvent> = Vec::new();
        std::mem::swap(&mut taken, &mut self.events);
        proof {
            assert(self.events@.map_values(|e: ServerEvent| e@) =~= Seq::<EventView>::empty());
            assert(taken@.map_values(|e: ServerEvent| e@) =~= old(self)@.core.events);
        }
        taken
    }

    /// Get data to send to the client.
    pub fn pending_send(&self) -> (r: &[u8])
        ensures
            r@ == self@.core.write,
    {
        bytes_mut_as_slice(&self.write_buf)
    }

    /// Mark data as sent.
    pub fn advance_send(&mut self, n: usize)
        requires
            n <= old(self)@.core.write.len(),
        ensures
            final(self)@ == with_core(
                old(self)@,
                CoreView { write: old(self)@.core.write.skip(n as int), ..old(self)@.core },
            ),
            old(self).wf() ==> final(self).wf(),
    {
        let _ = bytes_mut_split_to(&mut self.write_buf, n);
    }

    /// Check if there's data to send.
    pub fn has_pending_send(&self) -> (r: bool)
        ensures
            r == (self@.core.write.len() > 0),
    {
        bytes_mut_len(&self.write_buf) > 0
    }

    /// Remove a closed stream.
    pub fn remove_stream(&mut self, stream_id: StreamId)
        ensures
            final(self)@ == with_core(
                old(self)@,
                CoreView { streams: old(self)@.core.streams.remove(stream_id.0), ..old(self)@.core },
            ),
            old(self).wf() ==> final(self).wf(),
    {
        let ghost m0 = self.streams@;
        let _ = self.streams.remove(&stream_id.value());
        proof {
            assert(streams_view(self.streams) =~= streams_view_of(m0).remove(stream_id.0));
        }
    }
}

impl Default for ServerConnection {
    fn default() -> (r: Self)
        ensures
            r.wf(),
            r@.core.state == ConnectionState::WaitingPreface,
            !r@.got_preface,
            r@.core.write.len() == 0,
            r@.core.read.len() == 0,
            r@.core.events.len() == 0,
    {
        Self::new()
    }
}


/// The streams of a map view, each taken by its view.
pub open spec fn streams_view_of(m: Map<u32, Stream>) -> Map<u32, StreamView> {
    m.map_values(|s: Stream| s@)
}

} // verus!
