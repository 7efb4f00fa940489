//! HTTP/2 client connection.
//!
//! The client sends the connection preface and its settings once the
//! transport is ready, opens request streams and hands every outgoing byte
//! to the transport as soon as it is written.
use vstd::prelude::*;
use std::collections::HashMap;
use bytes::BytesMut;
use crate::buf::{
    bytes_as_slice, bytes_copy_from_slice, bytes_from_vec, bytes_len, bytes_mut_as_slice,
    bytes_mut_extend, bytes_mut_len, bytes_mut_seq, bytes_mut_split_to, bytes_mut_with_capacity,
    bytes_seq,
};
use crate::frame::decode::{frame_decoding, received_ok, setting_error};
use crate::frame::encode::frame_bytes;
use crate::frame::{
    DataFrame, ErrorCode, Frame, FrameDecoder, FrameEncoder, FrameError, FrameView, GoAwayFrame,
    HeadersFrame, PingFrame, RstStreamFrame, Setting, SettingId, SettingsFrame, StreamId,
    WindowUpdateFrame, CONNECTION_PREFACE, DEFAULT_INITIAL_WINDOW_SIZE, DEFAULT_MAX_FRAME_SIZE,
};
use crate::hpack::{block_decoding, block_encoding, encodable, HeaderField, HpackDecoder, HpackEncoder};
use crate::io::{error_kind, io_error_from_kind, io_error_kind, io_error_new, IoErrorKind};
use crate::transport::{extends, Transport};
use super::events::{fields_view, ConnectionError, ConnectionEvent};
use super::flow_control::{FlowControl, FlowControlView};
use super::model::{
    client_send_amount, common_frame_handled, data_send_ok, data_sent, emit, flow_control_error,
    headers_decoded, headers_frame_sent, initial_settings_bytes, new_stream, protocol_error, report,
    setting_applied, settings_applied, settings_handled, some_window_overflows, stream_adjusted,
    streams_adjusted, ConnectionErrorView, ConnectionState, CoreView, EventView,
};
use super::server::{streams_view, streams_view_of};
use super::settings::ConnectionSettings;
use super::stream::{Stream, StreamState, StreamView};
use vstd::std_specs::hash::spec_keys_iter;
use vstd::std_specs::iter::IteratorSpec;

verus! {

broadcast use vstd::std_specs::hash::group_hash_axioms;

/// The client connection as plain values; the transport is left out.
pub struct ClientView {
    pub core: CoreView,
    /// The stream ID the next request gets.
    pub next_stream_id: u32,
    /// The last stream ID we initiated.
    pub last_stream_id: u32,
}

/// The client connection with its core replaced.
pub open spec fn client_with_core(v: ClientView, c: CoreView) -> ClientView {
    ClientView { core: c, ..v }
}

/// The outgoing bytes after the transport took the first `n` of them.
pub open spec fn trimmed(c: CoreView, n: nat) -> CoreView {
    CoreView {
        write: if n <= c.write.len() {
            c.write.skip(n as int)
        } else {
            Seq::empty()
        },
        ..c
    }
}

/// A HEADERS frame on the client: its header block is decoded, END_STREAM
/// half-closes a known stream, and the headers are reported.
#[verifier::opaque]
pub open spec fn client_headers_handled(
    v: ClientView,
    stream_id: u32,
    end_stream: bool,
    block: Seq<u8>,
) -> ClientView {
    let (c, hs) = headers_decoded(v.core, block);
    match hs {
        None => client_with_core(v, c),
        Some(hs) => {
            let c1 = if c.streams.contains_key(stream_id) && end_stream {
                let s = c.streams[stream_id];
                CoreView {
                    streams: c.streams.insert(
                        stream_id,
                        StreamView { state: s.state.after_recv_end(), ..s },
                    ),
                    ..c
                }
            } else {
                c
            };
            client_with_core(v, report(c1, EventView::Headers { stream_id, headers: hs, end_stream }))
        },
    }
}

/// What a received frame does to the client connection: PUSH_PROMISE is
/// ignored (the client does not accept pushes).
pub open spec fn client_frame_handled(v: ClientView, f: FrameView) -> ClientView {
    match common_frame_handled(v.core, f) {
        Some(c) => client_with_core(v, c),
        None => match f {
            FrameView::Headers { stream_id, end_stream, header_block, .. } => client_headers_handled(
                v,
                stream_id,
                end_stream,
                header_block,
            ),
            _ => v,
        },
    }
}

/// The client connection with `read` as its received bytes.
pub open spec fn client_with_read(v: ClientView, read: Seq<u8>) -> ClientView {
    ClientView { core: CoreView { read, ..v.core }, ..v }
}

/// Handling a frame, then giving the transport the first `n` outgoing bytes
/// when the frame made any.
pub open spec fn client_frame_done(v: ClientView, f: FrameView, n: nat) -> ClientView {
    let h = client_frame_handled(v, f);
    if h.core.write.len() > v.core.write.len() {
        client_with_core(h, trimmed(h.core, n))
    } else {
        h
    }
}

/// Decoding and handling the received frames, one after the other, until
/// more bytes are needed or a frame cannot be decoded (which is reported);
/// after each frame that made outgoing bytes the transport takes the next
/// amount of `sent` of them.
#[verifier::opaque]
pub open spec fn client_frames_processed(v: ClientView, sent: Seq<nat>) -> ClientView
    decreases v.core.read.len(),
{
    let (res, n) = frame_decoding(v.core.decoder_max_frame, v.core.read);
    let rest = v.core.read.skip(n as int);
    let v1 = client_with_read(v, rest);
    match res {
        Ok(Some(f)) => if 0 < n <= v.core.read.len() {
            let k = if sent.len() > 0 {
                sent[0]
            } else {
                0
            };
            client_frames_processed(client_with_read(client_frame_done(v1, f, k), rest), sent.drop_first())
        } else {
            v1
        },
        Ok(None) => v1,
        Err(e) => client_with_core(v1, report(v1.core, EventView::Error(ConnectionErrorView::Frame(e)))),
    }
}

/// A frame whose answer the transport refused: DATA is counted but not yet
/// reported; any other frame is handled. Its answer stays queued.
pub open spec fn client_frame_failed(v: ClientView, f: FrameView) -> ClientView {
    match f {
        FrameView::Data { stream_id, end_stream, data } => client_with_core(
            v,
            super::model::data_counted(v.core, stream_id, end_stream, data),
        ),
        _ => client_frame_handled(v, f),
    }
}

/// Processing the received frames as `client_frames_processed` does, where
/// the transport takes the amounts of `sent` after the frames that made
/// output, and then refuses the answer to the next such frame: processing
/// stops right after that frame.
#[verifier::opaque]
pub open spec fn client_frames_failed(v: ClientView, sent: Seq<nat>) -> ClientView
    decreases v.core.read.len(),
{
    let (res, n) = frame_decoding(v.core.decoder_max_frame, v.core.read);
    let rest = v.core.read.skip(n as int);
    let v1 = client_with_read(v, rest);
    match res {
        Ok(Some(f)) => if 0 < n <= v.core.read.len() {
            if sent.len() == 0 {
                client_frame_failed(v1, f)
            } else {
                client_frames_failed(
                    client_with_read(client_frame_done(v1, f, sent[0]), rest),
                    sent.drop_first(),
                )
            }
        } else {
            v1
        },
        _ => v1,
    }
}

/// Handling `f` makes output for the transport (an acknowledgement or a
/// WINDOW_UPDATE).
pub open spec fn frame_makes_output(v: ClientView, f: FrameView) -> bool {
    client_frame_handled(v, f).core.write.len() > v.core.write.len()
}

/// In the processing that `client_frames_failed` describes, the frame at
/// which it stops made output: only a refused answer stops processing.
#[verifier::opaque]
pub open spec fn client_fails_on_output(v: ClientView, sent: Seq<nat>) -> bool
    decreases v.core.read.len(),
{
    let (res, n) = frame_decoding(v.core.decoder_max_frame, v.core.read);
    let rest = v.core.read.skip(n as int);
    let v1 = client_with_read(v, rest);
    match res {
        Ok(Some(f)) => if 0 < n <= v.core.read.len() {
            if sent.len() == 0 {
                frame_makes_output(v1, f)
            } else {
                client_fails_on_output(
                    client_with_read(client_frame_done(v1, f, sent[0]), rest),
                    sent.drop_first(),
                )
            }
        } else {
            false
        },
        _ => false,
    }
}

/// How an error leaves a client that read data from its transport: after
/// taking in `received`, either the transport's `recv` failed, or the
/// frames were processed until the transport refused an answer.
pub open spec fn transport_data_failed(old_v: ClientView, new_v: ClientView) -> bool {
    ||| exists|received: Seq<u8>| new_v == client_with_read(old_v, old_v.core.read + received)
    ||| exists|received: Seq<u8>, sent: Seq<nat>|
        new_v == client_frames_failed(client_with_read(old_v, old_v.core.read + received), sent)
            && client_fails_on_output(client_with_read(old_v, old_v.core.read + received), sent)
}

/// The transport took the first `n` bytes of `write`, in order, and
/// nothing else.
pub open spec fn handed_over<T: Transport>(before: T, after: T, write: Seq<u8>, n: nat) -> bool {
    &&& n <= write.len()
    &&& after.accepted() == before.accepted() + write.take(n as int)
}

/// Appending keeps what was there.
proof fn lemma_extends_append(a: Seq<u8>, x: Seq<u8>)
    ensures
        extends(a, a + x),
{
    assert((a + x).take(a.len() as int) =~= a);
}

/// After a flush, whatever it returned, the transport has only taken more.
proof fn flush_extends<T: Transport>(before: T, after: T, w: Seq<u8>, ok: bool)
    requires
        exists|n: nat| #[trigger] handed_over(before, after, w, n),
    ensures
        extends(before.accepted(), after.accepted()),
{
    let n = choose|n: nat| #[trigger] handed_over(before, after, w, n);
    lemma_extends_append(before.accepted(), w.take(n as int));
}

/// Extending is reflexive and transitive.
proof fn lemma_extends_chain(a: Seq<u8>, b: Seq<u8>, c: Seq<u8>)
    ensures
        extends(a, a),
        extends(a, b) && extends(b, c) ==> extends(a, c),
{
    assert(a.take(a.len() as int) =~= a);
    if extends(a, b) && extends(b, c) {
        assert(c.take(a.len() as int) =~= c.take(b.len() as int).take(a.len() as int));
    }
}

/// The connection preface and the client's SETTINGS, written out.
pub open spec fn preface_sent(v: ClientView) -> ClientView {
    client_with_core(
        v,
        CoreView {
            state: ConnectionState::WaitingSettings,
            ..emit(
                emit(v.core, CONNECTION_PREFACE@),
                initial_settings_bytes(v.core.local_settings),
            )
        },
    )
}

/// A new request: the next odd stream opens with the peer's initial window,
/// and its HEADERS frame is written out.
pub open spec fn request_started(
    v: ClientView,
    hs: Seq<(Seq<u8>, Seq<u8>)>,
    end_stream: bool,
) -> ClientView {
    let id = (v.next_stream_id % 0x8000_0000) as u32;
    let c = CoreView {
        streams: v.core.streams.insert(
            id,
            new_stream(id, v.core.remote_settings.initial_window_size),
        ),
        ..v.core
    };
    ClientView {
        core: headers_frame_sent(c, id, hs, end_stream),
        next_stream_id: (v.next_stream_id + 2) as u32,
        last_stream_id: id,
    }
}

/// A request opens the stream with the next odd ID, and the ID after it is
/// two higher: the client's streams have odd IDs that increase by 2. The
/// new stream is open, with the window the server announced.
pub proof fn lemma_request_stream_ids(
    v: ClientView,
    hs: Seq<(Seq<u8>, Seq<u8>)>,
    end_stream: bool,
)
    requires
        v.next_stream_id % 2 == 1,
        v.next_stream_id < 0x8000_0000,
    ensures
        request_started(v, hs, end_stream).last_stream_id == v.next_stream_id,
        request_started(v, hs, end_stream).last_stream_id % 2 == 1,
        request_started(v, hs, end_stream).next_stream_id == v.next_stream_id + 2,
        request_started(v, hs, end_stream).core.streams.contains_key(v.next_stream_id),
        request_started(v, hs, end_stream).core.streams[v.next_stream_id] == new_stream(
            v.next_stream_id,
            v.core.remote_settings.initial_window_size,
        ),
{
}

/// HTTP/2 client connection.
pub struct Connection<T: Transport> {
    /// The underlying transport.
    transport: T,
    /// Connection state.
    state: ConnectionState,
    /// Local settings (what we advertise).
    local_settings: ConnectionSettings,
    /// Remote settings (what server advertises).
    remote_settings: ConnectionSettings,
    /// Whether we've received the server's initial settings.
    got_settings: bool,
    /// Frame encoder.
    frame_encoder: FrameEncoder,
    /// Frame decoder.
    frame_decoder: FrameDecoder,
    /// HPACK encoder.
    hpack_encoder: HpackEncoder,
    /// HPACK decoder.
    hpack_decoder: HpackDecoder,
    /// Active streams.
    streams: HashMap<u32, Stream>,
    /// Next stream ID to use (client uses odd numbers).
    next_stream_id: u32,
    /// Connection-level flow control.
    flow_control: FlowControl,
    /// Buffer for encoding frames.
    write_buf: BytesMut,
    /// Buffer for incoming data.
    read_buf: BytesMut,
    /// Pending events.
    events: Vec<ConnectionEvent>,
    /// Last stream ID we initiated.
    last_stream_id: u32,
}

impl<T: Transport> View for Connection<T> {
    type V = ClientView;

    closed spec fn view(&self) -> ClientView {
        ClientView {
            core: CoreView {
                state: self.state,
                local_settings: self.local_settings,
                remote_settings: self.remote_settings,
                got_settings: self.got_settings,
                encoder_max_frame: self.frame_encoder@,
                decoder_max_frame: self.frame_decoder@,
                hpack_encoder: self.hpack_encoder@,
                hpack_decoder: self.hpack_decoder@,
                streams: streams_view(self.streams),
                flow: self.flow_control@,
                write: bytes_mut_seq(self.write_buf),
                read: bytes_mut_seq(self.read_buf),
                events: self.events@.map_values(|e: ConnectionEvent| e@),
            },
            next_stream_id: self.next_stream_id,
            last_stream_id: self.last_stream_id,
        }
    }
}

impl<T: Transport> Connection<T> {
    /// The connection's internal state is consistent: the HPACK tables are
    /// well-formed and the peer's initial window is a valid window size.
    pub closed spec fn wf(&self) -> bool {
        &&& self.hpack_encoder.wf()
        &&& self.hpack_decoder.wf()
        &&& self.remote_settings.initial_window_size <= 0x7FFF_FFFF
    }

    /// Create a new HTTP/2 client connection.
    pub fn new(transport: T) -> (r: Self)
        ensures
            r.wf(),
            r@.core.state == ConnectionState::WaitingPreface,
            r@.core.local_settings == ConnectionSettings::spec_default(),
            r@.core.remote_settings == ConnectionSettings::spec_default(),
            !r@.core.got_settings,
            r@.core.encoder_max_frame == DEFAULT_MAX_FRAME_SIZE,
            r@.core.decoder_max_frame == DEFAULT_MAX_FRAME_SIZE,
            r@.core.hpack_encoder.table.entries.len() == 0,
            r@.core.hpack_encoder.table.max_size == crate::hpack::DEFAULT_TABLE_SIZE,
            r@.core.hpack_encoder.use_huffman,
            r@.core.hpack_decoder.table.entries.len() == 0,
            r@.core.hpack_decoder.table.max_size == crate::hpack::DEFAULT_TABLE_SIZE,
            r@.core.hpack_decoder.max_table_size == crate::hpack::DEFAULT_TABLE_SIZE,
            r@.core.streams == Map::<u32, StreamView>::empty(),
            r@.core.flow == FlowControlView::initial(DEFAULT_INITIAL_WINDOW_SIZE),
            r@.core.write.len() == 0,
            r@.core.read.len() == 0,
            r@.core.events.len() == 0,
            r@.next_stream_id == 1,
            r@.last_stream_id == 0,
            r.transport_value() == transport,
    {
        let r = Connection {
            transport,
            state: ConnectionState::WaitingPreface,
            local_settings: ConnectionSettings::default(),
            remote_settings: ConnectionSettings::default(),
            got_settings: false,
            frame_encoder: FrameEncoder::new(),
            frame_decoder: FrameDecoder::new(),
            hpack_encoder: HpackEncoder::new(),
            hpack_decoder: HpackDecoder::new(),
            streams: HashMap::new(),
            next_stream_id: 1,  // Client uses odd stream IDs
            flow_control: FlowControl::new(DEFAULT_INITIAL_WINDOW_SIZE),
            write_buf: bytes_mut_with_capacity(16384),
            read_buf: bytes_mut_with_capacity(16384),
            events: Vec::new(),
            last_stream_id: 0,
        };
        assert(streams_view(r.streams) =~= Map::<u32, StreamView>::empty());
        r
    }

    /// Get the connection state.
    pub fn state(&self) -> (r: ConnectionState)
        ensures
            r == self@.core.state,
    {
        self.state
    }

    /// Check if the connection is ready for requests.
    pub fn is_ready(&self) -> (r: bool)
        ensures
            r ==> self@.core.state == ConnectionState::Open,
    {
        self.state == ConnectionState::Open && self.transport.is_ready()
    }

    /// Whether the server's first SETTINGS frame was received.
    pub fn got_settings(&self) -> (r: bool)
        ensures
            r == self@.core.got_settings,
    {
        self.got_settings
    }

    /// The settings the server advertised.
    pub fn remote_settings(&self) -> (r: ConnectionSettings)
        ensures
            r == self@.core.remote_settings,
    {
        self.remote_settings
    }

    /// The connection-level flow control.
    pub fn flow_control(&self) -> (r: &FlowControl)
        ensures
            r@ == self@.core.flow,
    {
        &self.flow_control
    }

    /// The active streams, by stream ID.
    pub fn streams(&self) -> (r: &HashMap<u32, Stream>)
        ensures
            streams_view(*r) == self@.core.streams,
    {
        &self.streams
    }

    /// Process transport readiness and advance connection state.
    ///
    /// Call this after the transport becomes ready (e.g., TLS handshake
    /// completes): the connection preface and the client's SETTINGS go out.
    pub fn on_transport_ready(&mut self) -> (r: std::io::Result<()>)
        requires
            old(self)@.core.write.len() + 51 <= isize::MAX,
        ensures
            old(self).wf() ==> final(self).wf(),
            old(self)@.core.state != ConnectionState::WaitingPreface ==> r is Ok && final(self)@
                == old(self)@ && final(self).transport_value() == old(self).transport_value(),
            old(self)@.core.state == ConnectionState::WaitingPreface && old(
                self,
            ).transport_value().takes_all(preface_sent(old(self)@).core.write.len()) ==> r is Ok
                && final(self)@.core.write.len() == 0,
            old(self)@.core.state == ConnectionState::WaitingPreface ==> match r {
                Ok(_) => exists|n: nat|
                    final(self)@ == client_with_core(
                        preface_sent(old(self)@),
                        trimmed(preface_sent(old(self)@).core, n),
                    ) && #[trigger] handed_over(
                        old(self).transport_value(),
                        final(self).transport_value(),
                        preface_sent(old(self)@).core.write,
                        n,
                    ),
                Err(_) => final(self)@ == preface_sent(old(self)@) && exists|k: nat|
                    #[trigger] handed_over(
                        old(self).transport_value(),
                        final(self).transport_value(),
                        preface_sent(old(self)@).core.write,
                        k,
                    ),
            },
    {
        if self.state == ConnectionState::WaitingPreface {
            self.send_preface()
        } else {
            Ok(())
        }
    }

    /// Send the HTTP/2 connection preface.
    fn send_preface(&mut self) -> (r: std::io::Result<()>)
        requires
            old(self)@.core.write.len() + 51 <= isize::MAX,
        ensures
            old(self).wf() ==> final(self).wf(),
            old(self).transport_value().takes_all(preface_sent(old(self)@).core.write.len()) ==> r is Ok
                && final(self)@.core.write.len() == 0,
            match r {
                Ok(_) => exists|n: nat|
                    final(self)@ == client_with_core(
                        preface_sent(old(self)@),
                        trimmed(preface_sent(old(self)@).core, n),
                    ) && #[trigger] handed_over(
                        old(self).transport_value(),
                        final(self).transport_value(),
                        preface_sent(old(self)@).core.write,
                        n,
                    ),
                Err(_) => final(self)@ == preface_sent(old(self)@) && exists|k: nat|
                    #[trigger] handed_over(
                        old(self).transport_value(),
                        final(self).transport_value(),
                        preface_sent(old(self)@).core.write,
                        k,
                    ),
            },
    {
        // Send magic string
        bytes_mut_extend(&mut self.write_buf, &CONNECTION_PREFACE);
        // Send our settings
        let settings = vec![
            Setting {
                id: SettingId::MaxConcurrentStreams,
                value: self.local_settings.max_concurrent_streams,
            },
            Setting { id: SettingId::InitialWindowSize, value: self.local_settings.initial_window_size },
            Setting { id: SettingId::MaxFrameSize, value: self.local_settings.max_frame_size },
        ];
        let frame = Frame::Settings(SettingsFrame { ack: false, settings });
        proof {
            let l = self.local_settings;
            assert(frame@ == FrameView::Settings {
                ack: false,
                settings: seq![
                    Setting { id: SettingId::MaxConcurrentStreams, value: l.max_concurrent_streams },
                    Setting { id: SettingId::InitialWindowSize, value: l.initial_window_size },
                    Setting { id: SettingId::MaxFrameSize, value: l.max_frame_size },
                ],
            });
            crate::frame::encode::lemma_settings_bytes_len(frame@->Settings_settings);
        }
        self.emit_frame(&frame);
        self.state = ConnectionState::WaitingSettings;
        let ghost before = self@;
        let ghost tb = self.transport_value();
        assert(tb == old(self).transport_value());
        let flushed = self.flush_write_buffer();
        proof {
            if flushed is Ok {
                let n = choose|n: nat|
                    self@ == client_with_core(before, trimmed(before.core, n)) && #[trigger] handed_over(
                        tb,
                        self.transport_value(),
                        before.core.write,
                        n,
                    );
                assert(before.core.write == preface_sent(old(self)@).core.write);
                assert(handed_over(old(self).transport_value(), self.transport_value(), preface_sent(old(self)@).core.write, n));
            } else {
                let k = choose|k: nat|
                    #[trigger] handed_over(tb, self.transport_value(), before.core.write, k);
                assert(before.core.write == preface_sent(old(self)@).core.write);
                assert(handed_over(old(self).transport_value(), self.transport_value(), preface_sent(old(self)@).core.write, k));
            }
        }
        flushed
    }

    /// Flush the write buffer to the transport: the whole buffer is offered,
    /// the transport takes a prefix of it, and that prefix leaves the buffer.
    fn flush_write_buffer(&mut self) -> (r: std::io::Result<()>)
        ensures
            old(self).wf() ==> final(self).wf(),
            r is Ok ==> exists|n: nat|
                final(self)@ == client_with_core(old(self)@, trimmed(old(self)@.core, n))
                    && #[trigger] handed_over(
                    old(self).transport_value(),
                    final(self).transport_value(),
                    old(self)@.core.write,
                    n,
                ),
            old(self).transport_value().takes_all(old(self)@.core.write.len()) ==> r is Ok
                && final(self)@.core.write.len() == 0,
            r is Err ==> final(self)@ == old(self)@ && exists|k: nat|
                #[trigger] handed_over(
                    old(self).transport_value(),
                    final(self).transport_value(),
                    old(self)@.core.write,
                    k,
                ),
    {
        if bytes_mut_len(&self.write_buf) > 0 {
            let ghost w = self@.core.write;
            let n = match self.transport.send(bytes_mut_as_slice(&self.write_buf)) {
                Ok(n) => n,
                Err(e) => {
                    proof {
                        let k = choose|k: int|
                            0 <= k <= w.len() && self.transport.accepted() == old(
                                self,
                            ).transport.accepted() + w.take(k);
                        assert(handed_over(
                            old(self).transport_value(),
                            self.transport_value(),
                            w,
                            k as nat,
                        ));
                    }
                    return Err(e);
                },
            };
            let _ = bytes_mut_split_to(&mut self.write_buf, n);
            assert(self@ == client_with_core(old(self)@, trimmed(old(self)@.core, n as nat)));
            assert(handed_over(old(self).transport_value(), self.transport_value(), w, n as nat));
        } else {
            assert(self@.core.write.skip(0) =~= self@.core.write);
            assert(self@ == client_with_core(old(self)@, trimmed(old(self)@.core, 0)));
            assert(old(self)@.core.write.take(0) =~= Seq::<u8>::empty());
            assert(self.transport.accepted() + Seq::<u8>::empty() =~= self.transport.accepted());
            assert(handed_over(
                old(self).transport_value(),
                self.transport_value(),
                old(self)@.core.write,
                0,
            ));
        }
        Ok(())
    }

    /// Append an event.
    fn push_event(&mut self, e: ConnectionEvent)
        ensures
            final(self)@ == client_with_core(old(self)@, report(old(self)@.core, e@)),
            old(self).wf() ==> final(self).wf(),
            final(self).transport_value() == old(self).transport_value(),
    {
        let ghost before = self.events@;
        self.events.push(e);
        proof {
            assert(self.events@.map_values(|e: ConnectionEvent| e@) =~= before.map_values(
                |e: ConnectionEvent| e@,
            ).push(e@));
        }
    }

    /// Get the underlying transport.
    pub fn transport(&self) -> (r: &T)
        ensures
            *r == self.transport_value(),
    {
        &self.transport
    }

    /// Get mutable access to the underlying transport.
    pub fn transport_mut(&mut self) -> (r: &mut T)
        ensures
            *r == old(self).transport_value(),
            final(self).transport_value() == *final(r),
            final(self)@ == old(self)@,
            old(self).wf() ==> final(self).wf(),
    {
        &mut self.transport
    }

    /// The underlying transport, as a value.
    pub closed spec fn transport_value(&self) -> T {
        self.transport
    }

    /// Append the bytes of a frame to the outgoing buffer.
    fn emit_frame(&mut self, frame: &Frame)
        requires
            old(self)@.core.write.len() + frame_bytes(frame@).len() <= isize::MAX,
        ensures
            final(self)@ == client_with_core(old(self)@, emit(old(self)@.core, frame_bytes(frame@))),
            old(self).wf() ==> final(self).wf(),
            final(self).transport_value() == old(self).transport_value(),
    {
        self.frame_encoder.encode(frame, &mut self.write_buf);
    }

    /// Handle a received frame; a frame that made outgoing bytes ends with a
    /// flush to the transport.
    #[verifier::rlimit(40)]
    fn handle_frame(&mut self, frame: Frame) -> (r: std::io::Result<()>)
        requires
            old(self).wf(),
            received_ok(frame@),
            old(self)@.core.write.len() + 17 <= isize::MAX,
        ensures
            extends(old(self).transport_value().accepted(), final(self).transport_value().accepted()),
            final(self).wf(),
            r is Ok ==> exists|n: nat| final(self)@ == client_frame_done(old(self)@, frame@, n),
            r is Ok ==> final(self)@.core.read == old(self)@.core.read,
            r is Ok ==> final(self)@.core.write.len() <= old(self)@.core.write.len() + 17,
            r is Err ==> final(self)@ == client_frame_failed(old(self)@, frame@),
            r is Err ==> frame_makes_output(old(self)@, frame@),
    {
        let ghost f = frame@;
        proof {
            lemma_extends_chain(
                old(self).transport_value().accepted(),
                old(self).transport_value().accepted(),
                old(self).transport_value().accepted(),
            );
        }
        let start_len = bytes_mut_len(&self.write_buf);
        match frame {
            Frame::Settings(f) => {
                self.handle_settings(f);
            },
            Frame::Ping(f) => {
                self.handle_ping(f);
            },
            Frame::GoAway(f) => self.handle_goaway(f),
            Frame::WindowUpdate(f) => self.handle_window_update(f),
            Frame::Headers(f) => self.handle_headers(f),
            Frame::Data(f) => {
                return self.handle_data(f);
            },
            Frame::RstStream(f) => self.handle_rst_stream(f),
            Frame::Priority(_) => {},  // We can ignore priority frames
            Frame::PushPromise(_) => {},  // Clients should disable server push; ignore for now
            Frame::Continuation(_) => {
                // Should be handled with preceding HEADERS frame
                self.push_event(
                    ConnectionEvent::Error(
                        ConnectionError::Protocol("unexpected CONTINUATION frame".to_owned()),
                    ),
                );
            },
            Frame::Unknown(_) => {},  // Ignore unknown frame types per spec
        }
        let ghost handled = self@;
        assert(handled == client_frame_handled(old(self)@, f));
        if bytes_mut_len(&self.write_buf) > start_len {
            let ghost tb = self.transport_value();
            let flushed = self.flush_write_buffer();
            proof {
                flush_extends(tb, self.transport_value(), handled.core.write, flushed is Ok);
            }
            match flushed {
                Ok(()) => {},
                Err(e) => return Err(e),
            }
            proof {
                let n = choose|n: nat|
                    n <= handled.core.write.len() && self@ == client_with_core(
                        handled,
                        trimmed(handled.core, n),
                    );
                assert(self@ == client_frame_done(old(self)@, f, n));
            }
        } else {
            assert(self@ == client_frame_done(old(self)@, f, 0));
        }
        Ok(())
    }

    /// Handle HEADERS frame.
    fn handle_headers(&mut self, frame: HeadersFrame)
        requires
            old(self).wf(),
        ensures
            final(self).transport_value() == old(self).transport_value(),
            final(self)@.core.write == old(self)@.core.write,
            final(self)@.core.read == old(self)@.core.read,
            final(self).wf(),
            final(self)@ == client_headers_handled(
                old(self)@,
                frame.stream_id.0,
                frame.end_stream,
                bytes_seq(frame.header_block),
            ),
    {
        proof {
            reveal(client_headers_handled);
        }
        // Decode HPACK headers
        let headers = match self.hpack_decoder.decode(bytes_as_slice(&frame.header_block)) {
            Ok(h) => h,
            Err(e) => {
                self.push_event(ConnectionEvent::Error(ConnectionError::Hpack(e.debug_text())));
                return ;
            },
        };
        proof {
            let hs = block_decoding(old(self)@.core.hpack_decoder, bytes_seq(frame.header_block)).0;
            assert(fields_view(headers) =~= hs->Ok_0);
        }
        // Update stream state
        let id = frame.stream_id.value();
        if frame.end_stream {
            let ghost m0 = self.streams@;
            let removed = self.streams.remove(&id);
            proof {
                if removed is None {
                    assert(self.streams@ =~= m0);
                }
            }
            if let Some(mut s) = removed {
                s.recv_end_stream();
                self.streams.insert(id, s);
                proof {
                    assert(streams_view(self.streams) =~= streams_view_of(m0).insert(id, s@));
                }
            }
        }
        self.push_event(
            ConnectionEvent::Headers {
                stream_id: frame.stream_id,
                headers,
                end_stream: frame.end_stream,
            },
        );
    }

    /// Handle SETTINGS frame.
    pub fn handle_settings(&mut self, frame: SettingsFrame)
        requires
            old(self).wf(),
            received_ok(Frame::Settings(frame)@),
            old(self)@.core.write.len() + 9 <= isize::MAX,
        ensures
            final(self).transport_value() == old(self).transport_value(),
            final(self).wf(),
            final(self)@ == client_with_core(
                old(self)@,
                settings_handled(old(self)@.core, frame.ack, frame.settings@),
            ),
            final(self)@.core.read == old(self)@.core.read,
            final(self)@.core.write.len() <= old(self)@.core.write.len() + 9,
    {
        proof {
            reveal(settings_handled);
        }
        if frame.ack {
            // This is an ACK of our settings
            return ;
        }
        let ghost s = frame.settings@;
        let ghost start = self@;
        let mut i: usize = 0;
        proof {
            assert(s.take(0) =~= Seq::<Setting>::empty());
        }
        // Apply settings
        while i < frame.settings.len()
            invariant
                self.transport_value() == old(self).transport_value(),
                self.wf(),
                s == frame.settings@,
                i <= s.len(),
                forall|k: int|
                    0 <= k < s.len() ==> (#[trigger] setting_error(s[k].id, s[k].value)) is None,
                self@ == client_with_core(start, settings_applied(start.core, s.take(i as int))),
            decreases s.len() - i,
        {
            let setting = frame.settings[i];
            proof {
                assert(s.take(i + 1).drop_last() =~= s.take(i as int));
                assert(setting_error(s[i as int].id, s[i as int].value) is None);
            }
            self.apply_setting(setting);
            i = i + 1;
        }
        proof {
            assert(s.take(i as int) =~= s);
            super::model::lemma_settings_applied_keeps(start.core, s);
        }
        // Send ACK
        let ack = Frame::Settings(SettingsFrame { ack: true, settings: Vec::new() });
        proof {
            assert(ack@ == FrameView::Settings { ack: true, settings: Seq::empty() });
        }
        self.emit_frame(&ack);
        if !self.got_settings {
            self.got_settings = true;
            self.state = ConnectionState::Open;
            self.push_event(ConnectionEvent::Ready);
        }
    }

    /// Apply one setting from the client.
    fn apply_setting(&mut self, setting: Setting)
        requires
            old(self).wf(),
            setting_error(setting.id, setting.value) is None,
        ensures
            final(self).transport_value() == old(self).transport_value(),
            final(self).wf(),
            final(self)@ == client_with_core(old(self)@, setting_applied(old(self)@.core, setting)),
    {
        match setting.id {
            SettingId::HeaderTableSize => {
                self.hpack_encoder.set_table_size(setting.value as usize);
            },
            SettingId::MaxConcurrentStreams => {
                self.remote_settings.max_concurrent_streams = setting.value;
            },
            SettingId::InitialWindowSize => {
                let delta: i32 = setting.value as i32 - self.remote_settings.initial_window_size as i32;
                self.remote_settings.initial_window_size = setting.value;
                // Adjust all stream windows
                let overflow = self.adjust_stream_windows(delta);
                if overflow {
                    self.push_event(
                        ConnectionEvent::Error(
                            ConnectionError::Frame(FrameError::Protocol(ErrorCode::FlowControlError)),
                        ),
                    );
                }
            },
            SettingId::MaxFrameSize => {
                self.remote_settings.max_frame_size = setting.value;
                self.frame_encoder.set_max_frame_size(setting.value);
            },
            SettingId::MaxHeaderListSize => {
                self.remote_settings.max_header_list_size = setting.value;
            },
            _ => {},  // Ignore unknown settings
        }
    }

    /// Move the send window of every stream by `delta`; a stream whose
    /// window would leave its range keeps it, and then `true` is returned.
    fn adjust_stream_windows(&mut self, delta: i32) -> (overflow: bool)
        ensures
            final(self).transport_value() == old(self).transport_value(),
            final(self)@ == (ClientView {
                core: CoreView {
                    streams: streams_adjusted(old(self)@.core.streams, delta),
                    ..old(self)@.core
                },
                ..old(self)@
            }),
            overflow == some_window_overflows(old(self)@.core.streams, delta),
            old(self).wf() ==> final(self).wf(),
    {
        let ghost m0 = self.streams@;
        let ghost start = self@;
        let mut keys: Vec<u32> = Vec::new();
        let ghost all = spec_keys_iter(&self.streams).remaining().unref();
        proof {
            assert(all.to_set() == m0.dom());
            let r = spec_keys_iter(&self.streams).remaining();
            assert(r.no_duplicates());
            assert(all.no_duplicates()) by {
                assert forall|a: int, b: int| 0 <= a < all.len() && 0 <= b < all.len() && a != b
                    implies all[a] != all[b] by {
                    assert(r[a] != r[b]);
                }
            }
        }
        for k in it: self.streams.keys()
            invariant
                self.transport_value() == old(self).transport_value(),
                it.seq().unref() == all,
                keys@ == all.take(it.index()),
        {
            let ghost kb = keys@;
            keys.push(*k);
            proof {
                assert(all.take(it.index() + 1) =~= kb.push(*k));
            }
        }
        assert(keys@ =~= all);
        let ghost ks = keys@;
        let mut overflow = false;
        let mut i: usize = 0;
        while i < keys.len()
            invariant
                self.transport_value() == old(self).transport_value(),
                ks == keys@,
                ks.no_duplicates(),
                ks.to_set() == m0.dom(),
                i <= ks.len(),
                self.streams@.dom() == m0.dom(),
                forall|j: int|
                    0 <= j < i ==> (#[trigger] self.streams@[ks[j]])@ == stream_adjusted(
                        m0[ks[j]]@,
                        delta,
                    ),
                forall|j: int| i <= j < ks.len() ==> #[trigger] self.streams@[ks[j]] == m0[ks[j]],
                overflow == exists|j: int|
                    0 <= j < i && !(#[trigger] m0[ks[j]]@).can_adjust_send(delta),
                self@ == (ClientView {
                    core: CoreView { streams: streams_view(self.streams), ..start.core },
                    ..start
                }),
                old(self).wf() ==> self.wf(),
            decreases ks.len() - i,
        {
            let k = keys[i];
            proof {
                assert(ks.to_set().contains(k));
            }
            let ghost before = self.streams@;
            let ghost ov = overflow;
            if let Some(mut s) = self.streams.remove(&k) {
                let ghost s0 = s@;
                match s.send_window().checked_add(delta) {
                    Some(_) => s.adjust_send_window(delta),
                    None => {
                        overflow = true;
                    },
                }
                self.streams.insert(k, s);
                proof {
                    assert(s0 == m0[k]@);
                    assert(s@ == stream_adjusted(s0, delta));
                    assert forall|j: int| 0 <= j < i + 1 implies (#[trigger] self.streams@[ks[j]])@
                        == stream_adjusted(m0[ks[j]]@, delta) by {
                        if j < i {
                            assert(ks[j] != k);
                            assert(self.streams@[ks[j]] == before[ks[j]]);
                        }
                    }
                    assert forall|j: int| i + 1 <= j < ks.len() implies #[trigger] self.streams@[ks[j]]
                        == m0[ks[j]] by {
                        assert(ks[j] != k);
                        assert(self.streams@[ks[j]] == before[ks[j]]);
                    }
                    assert(overflow == exists|j: int|
                        0 <= j < i + 1 && !(#[trigger] m0[ks[j]]@).can_adjust_send(delta)) by {
                        if !s0.can_adjust_send(delta) {
                            assert(!m0[ks[i as int]]@.can_adjust_send(delta));
                        } else if !ov {
                            if exists|j: int|
                                0 <= j < i + 1 && !(#[trigger] m0[ks[j]]@).can_adjust_send(delta) {
                                let j = choose|j: int|
                                    0 <= j < i + 1 && !(#[trigger] m0[ks[j]]@).can_adjust_send(delta);
                                assert(j == i);
                            }
                        }
                    }
                    assert(self.streams@.dom() =~= m0.dom());
                }
            }
            i = i + 1;
        }
        proof {
            let target = streams_adjusted(streams_view_of(m0), delta);
            assert(streams_view(self.streams) =~= target) by {
                assert forall|k: u32| #[trigger] streams_view(self.streams).contains_key(k)
                    implies streams_view(self.streams)[k] == target[k] by {
                    assert(ks.to_set().contains(k));
                    let j = ks.index_of(k);
                    assert(self.streams@[ks[j]]@ == stream_adjusted(m0[ks[j]]@, delta));
                }
            }
            assert(overflow == some_window_overflows(streams_view_of(m0), delta)) by {
                if overflow {
                    let j = choose|j: int| 0 <= j < i && !(#[trigger] m0[ks[j]]@).can_adjust_send(delta);
                    assert(ks.to_set().contains(ks[j]));
                    assert(streams_view_of(m0).contains_key(ks[j]));
                    assert(!streams_view_of(m0)[ks[j]].can_adjust_send(delta));
                }
                if some_window_overflows(streams_view_of(m0), delta) {
                    let k = choose|k: u32| streams_view_of(m0).contains_key(k) && !(
                    #[trigger] streams_view_of(m0)[k]).can_adjust_send(delta);
                    assert(ks.to_set().contains(k));
                    let j = ks.index_of(k);
                    assert(!m0[ks[j]]@.can_adjust_send(delta));
                }
            }
        }
        overflow
    }

    /// Handle PING frame.
    fn handle_ping(&mut self, frame: PingFrame)
        requires
            old(self)@.core.write.len() + 17 <= isize::MAX,
        ensures
            final(self).transport_value() == old(self).transport_value(),
            final(self)@.core.read == old(self)@.core.read,
            final(self)@ == client_with_core(
                old(self)@,
                super::model::ping_handled(old(self)@.core, frame.ack, frame.data@),
            ),
            old(self).wf() ==> final(self).wf(),
            final(self)@.core.write.len() <= old(self)@.core.write.len() + 17,
    {
        proof {
            reveal(super::model::ping_handled);
        }
        if frame.ack {
            // Response to our ping (we don't send pings as server)
            return ;
        }
        // Send PING ACK
        let ack = Frame::Ping(PingFrame { ack: true, data: frame.data });
        self.emit_frame(&ack);
    }

    /// Handle GOAWAY frame.
    fn handle_goaway(&mut self, frame: GoAwayFrame)
        ensures
            final(self).transport_value() == old(self).transport_value(),
            final(self)@.core.write == old(self)@.core.write,
            final(self)@.core.read == old(self)@.core.read,
            final(self)@ == client_with_core(
                old(self)@,
                super::model::goaway_handled(
                    old(self)@.core,
                    frame.last_stream_id.0,
                    frame.error_code,
                ),
            ),
            old(self).wf() ==> final(self).wf(),
    {
        proof {
            reveal(super::model::goaway_handled);
        }
        self.state = ConnectionState::Draining;
        self.push_event(
            ConnectionEvent::GoAway {
                last_stream_id: frame.last_stream_id,
                error_code: ErrorCode::from_u32(frame.error_code),
            },
        );
    }

    /// Handle WINDOW_UPDATE frame.
    fn handle_window_update(&mut self, frame: WindowUpdateFrame)
        ensures
            final(self).transport_value() == old(self).transport_value(),
            final(self)@.core.write == old(self)@.core.write,
            final(self)@.core.read == old(self)@.core.read,
            final(self)@ == client_with_core(
                old(self)@,
                super::model::window_update_handled(
                    old(self)@.core,
                    frame.stream_id.0,
                    frame.increment,
                ),
            ),
            old(self).wf() ==> final(self).wf(),
    {
        proof {
            reveal(super::model::window_update_handled);
        }
        if frame.stream_id.is_connection_level() {
            if !self.flow_control.increase_window(frame.increment) {
                self.push_event(
                    ConnectionEvent::Error(
                        ConnectionError::Frame(FrameError::Protocol(ErrorCode::FlowControlError)),
                    ),
                );
            }
        } else {
            let id = frame.stream_id.value();
            let ghost m0 = self.streams@;
            let removed = self.streams.remove(&id);
            proof {
                if removed is None {
                    assert(self.streams@ =~= m0);
                }
            }
            if let Some(mut stream) = removed {
                let applied = stream.increase_send_window(frame.increment);
                self.streams.insert(id, stream);
                proof {
                    assert(streams_view(self.streams) =~= streams_view_of(m0).insert(id, stream@));
                    if !applied {
                        assert(streams_view(self.streams) =~= streams_view_of(m0));
                    }
                }
                if !applied {
                    self.push_event(
                        ConnectionEvent::Error(
                            ConnectionError::Frame(FrameError::Protocol(ErrorCode::FlowControlError)),
                        ),
                    );
                }
            }
        }
    }

    /// Count the bytes of a DATA frame against the stream's and the
    /// connection's windows, sending a WINDOW_UPDATE when one is due.
    #[verifier::rlimit(40)]
    fn count_data(&mut self, frame: &DataFrame)
        requires
            old(self).wf(),
            old(self)@.core.write.len() + 13 <= isize::MAX,
        ensures
            final(self).transport_value() == old(self).transport_value(),
            final(self).wf(),
            final(self)@ == client_with_core(
                old(self)@,
                super::model::data_counted(
                    old(self)@.core,
                    frame.stream_id.0,
                    frame.end_stream,
                    bytes_seq(frame.data),
                ),
            ),
            final(self)@.core.read == old(self)@.core.read,
            final(self)@.core.write.len() <= old(self)@.core.write.len() + 13,
            final(self)@.core.write.len() >= old(self)@.core.write.len(),
            final(self)@.core.write.len() == old(self)@.core.write.len() ==> final(self)@.core.write
                == old(self)@.core.write,
    {
        proof {
            reveal(super::model::data_counted);
        }
        let data_len = bytes_len(&frame.data) as u32;
        let id = frame.stream_id.value();
        let ghost m0 = self.streams@;
        // Update stream state
        let removed = self.streams.remove(&id);
        proof {
            if removed is None {
                assert(self.streams@ =~= m0);
            }
        }
        if let Some(mut stream) = removed {
            let ok = stream.recv_window().checked_sub(data_len as i32).is_some()
                && stream.bytes_received().checked_add(data_len).is_some();
            if ok {
                stream.recv_data(data_len);
            }
            if frame.end_stream {
                stream.recv_end_stream();
            }
            self.streams.insert(id, stream);
            proof {
                assert(streams_view(self.streams) =~= streams_view_of(m0).insert(id, stream@));
            }
            if !ok {
                self.push_event(
                    ConnectionEvent::Error(
                        ConnectionError::Frame(FrameError::Protocol(ErrorCode::FlowControlError)),
                    ),
                );
            }
        }
        // Update flow control and send WINDOW_UPDATE if needed
        let can_consume = self.flow_control.available().checked_sub(data_len as i32).is_some()
            && self.flow_control.pending_update().checked_add(data_len).is_some();
        if can_consume {
            self.flow_control.consume(data_len);
        } else {
            self.push_event(
                ConnectionEvent::Error(
                    ConnectionError::Frame(FrameError::Protocol(ErrorCode::FlowControlError)),
                ),
            );
        }
        if self.flow_control.should_update() {
            let increment = self.flow_control.pending_update();
            if self.flow_control.available().checked_add(increment as i32).is_some() {
                self.flow_control.reset_pending();
                let wu = Frame::WindowUpdate(
                    WindowUpdateFrame { stream_id: StreamId::connection(), increment },
                );
                proof {
                    assert(frame_bytes(wu@).len() == 13);
                }
                self.emit_frame(&wu);
            } else {
                self.push_event(
                    ConnectionEvent::Error(
                        ConnectionError::Frame(FrameError::Protocol(ErrorCode::FlowControlError)),
                    ),
                );
            }
        }
    }

    /// Handle DATA frame; a WINDOW_UPDATE it causes is flushed to the
    /// transport before the data is reported.
    fn handle_data(&mut self, frame: DataFrame) -> (r: std::io::Result<()>)
        requires
            old(self).wf(),
            old(self)@.core.write.len() + 13 <= isize::MAX,
        ensures
            extends(old(self).transport_value().accepted(), final(self).transport_value().accepted()),
            final(self).wf(),
            r is Ok ==> exists|n: nat|
                final(self)@ == client_frame_done(old(self)@, Frame::Data(frame)@, n),
            r is Ok ==> final(self)@.core.read == old(self)@.core.read,
            r is Ok ==> final(self)@.core.write.len() <= old(self)@.core.write.len() + 13,
            r is Err ==> final(self)@ == client_frame_failed(old(self)@, Frame::Data(frame)@),
            r is Err ==> frame_makes_output(old(self)@, Frame::Data(frame)@),
    {
        proof {
            lemma_extends_chain(
                old(self).transport_value().accepted(),
                old(self).transport_value().accepted(),
                old(self).transport_value().accepted(),
            );
        }
        let start_len = bytes_mut_len(&self.write_buf);
        self.count_data(&frame);
        let ghost counted = self@;
        let ghost mut n_sent: nat = 0;
        if bytes_mut_len(&self.write_buf) > start_len {
            let ghost tb = self.transport_value();
            let flushed = self.flush_write_buffer();
            proof {
                flush_extends(tb, self.transport_value(), counted.core.write, flushed is Ok);
            }
            match flushed {
                Ok(()) => {},
                Err(e) => return Err(e),
            }
            proof {
                let n = choose|n: nat|
                    n <= counted.core.write.len() && self@ == client_with_core(
                        counted,
                        trimmed(counted.core, n),
                    );
                n_sent = n;
            }
        }
        self.push_event(
            ConnectionEvent::Data {
                stream_id: frame.stream_id,
                data: frame.data,
                end_stream: frame.end_stream,
            },
        );
        proof {
            let f = Frame::Data(frame)@;
            let h = client_frame_handled(old(self)@, f);
            if counted.core.write.len() > old(self)@.core.write.len() {
                assert(self@ == client_with_core(h, trimmed(h.core, n_sent)));
            } else {
                assert(self@ == h);
            }
            assert(self@ == client_frame_done(old(self)@, f, n_sent));
        }
        Ok(())
    }

    /// Handle RST_STREAM frame.
    fn handle_rst_stream(&mut self, frame: RstStreamFrame)
        ensures
            final(self).transport_value() == old(self).transport_value(),
            final(self)@.core.write == old(self)@.core.write,
            final(self)@.core.read == old(self)@.core.read,
            final(self)@ == client_with_core(
                old(self)@,
                super::model::rst_stream_handled(
                    old(self)@.core,
                    frame.stream_id.0,
                    frame.error_code,
                ),
            ),
            old(self).wf() ==> final(self).wf(),
    {
        proof {
            reveal(super::model::rst_stream_handled);
        }
        let id = frame.stream_id.value();
        let ghost m0 = self.streams@;
        let removed = self.streams.remove(&id);
        proof {
            if removed is None {
                assert(self.streams@ =~= m0);
            }
        }
        if let Some(mut stream) = removed {
            stream.reset();
            self.streams.insert(id, stream);
            proof {
                assert(streams_view(self.streams) =~= streams_view_of(m0).insert(id, stream@));
            }
        }
        self.push_event(
            ConnectionEvent::StreamReset {
                stream_id: frame.stream_id,
                error_code: ErrorCode::from_u32(frame.error_code),
            },
        );
    }

    /// Process complete frames in the read buffer.
    #[verifier::rlimit(40)]
    pub fn process_frames(&mut self) -> (r: std::io::Result<()>)
        requires
            old(self).wf(),
            old(self)@.core.write.len() + 2 * old(self)@.core.read.len() <= isize::MAX,
        ensures
            extends(old(self).transport_value().accepted(), final(self).transport_value().accepted()),
            final(self).wf(),
            r is Ok ==> exists|sent: Seq<nat>|
                final(self)@ == client_frames_processed(old(self)@, sent),
            r is Err ==> exists|sent: Seq<nat>|
                final(self)@ == client_frames_failed(old(self)@, sent) && client_fails_on_output(
                    old(self)@,
                    sent,
                ),
            (forall|sent: Seq<nat>| !client_fails_on_output(old(self)@, sent)) ==> r is Ok,
    {
        let ghost mut sent: Seq<nat> = Seq::empty();
        proof {
            lemma_extends_chain(
                old(self).transport_value().accepted(),
                old(self).transport_value().accepted(),
                old(self).transport_value().accepted(),
            );
            assert forall|rest: Seq<nat>|
                client_fails_on_output(old(self)@, sent + rest) == client_fails_on_output(
                    self@,
                    rest,
                ) by {
                assert(sent + rest =~= rest);
            }
            assert forall|rest: Seq<nat>|
                client_frames_processed(old(self)@, sent + rest) == client_frames_processed(
                    self@,
                    rest,
                ) by {
                assert(sent + rest =~= rest);
            }
            assert forall|rest: Seq<nat>|
                client_frames_failed(old(self)@, sent + rest) == client_frames_failed(
                    self@,
                    rest,
                ) by {
                assert(sent + rest =~= rest);
            }
        }
        loop
            invariant_except_break
                forall|rest: Seq<nat>|
                    client_frames_processed(old(self)@, sent + rest) == #[trigger] client_frames_processed(
                        self@,
                        rest,
                    ),
                forall|rest: Seq<nat>|
                    client_frames_failed(old(self)@, sent + rest) == #[trigger] client_frames_failed(
                        self@,
                        rest,
                    ),
                forall|rest: Seq<nat>|
                    client_fails_on_output(old(self)@, sent + rest) == #[trigger] client_fails_on_output(
                        self@,
                        rest,
                    ),
            invariant
                extends(old(self).transport_value().accepted(), self.transport_value().accepted()),
                self.wf(),
                self@.core.write.len() + 2 * self@.core.read.len() <= isize::MAX,
            ensures
                self.wf(),
                self@ == client_frames_processed(old(self)@, sent),
            decreases self@.core.read.len(),
        {
            let ghost v = self@;
            let ghost dec = frame_decoding(v.core.decoder_max_frame, v.core.read);
            proof {
                reveal(client_frames_processed);
                assert(client_frames_processed(old(self)@, sent + Seq::empty())
                    == client_frames_processed(v, Seq::empty()));
                assert(sent + Seq::<nat>::empty() =~= sent);
            }
            match self.frame_decoder.decode(&mut self.read_buf) {
                Ok(Some(frame)) => {
                    let ghost v1 = self@;
                    proof {
                        assert(v1 == client_with_read(v, v.core.read.skip(dec.1 as int)));
                    }
                    let ghost ta = self.transport_value().accepted();
                    let handled = self.handle_frame(frame);
                    proof {
                        lemma_extends_chain(
                            old(self).transport_value().accepted(),
                            ta,
                            self.transport_value().accepted(),
                        );
                    }
                    match handled {
                        Ok(()) => {},
                        Err(e) => {
                            proof {
                                reveal(client_frames_failed);
                                reveal(client_fails_on_output);
                                assert(sent + Seq::<nat>::empty() =~= sent);
                                assert(client_frames_failed(old(self)@, sent + Seq::empty())
                                    == client_frames_failed(v, Seq::empty()));
                                assert(client_fails_on_output(old(self)@, sent + Seq::empty())
                                    == client_fails_on_output(v, Seq::empty()));
                            }
                            return Err(e);
                        },
                    }
                    proof {
                        let n = choose|n: nat| self@ == client_frame_done(v1, frame@, n);
                        assert(self@ == client_with_read(client_frame_done(v1, frame@, n), v1.core.read));
                        assert forall|rest: Seq<nat>|
                            client_frames_processed(old(self)@, sent.push(n) + rest)
                                == #[trigger] client_frames_processed(self@, rest) by {
                            let r2 = seq![n] + rest;
                            assert(sent.push(n) + rest =~= sent + r2);
                            assert(r2.drop_first() =~= rest);
                            assert(client_frames_processed(old(self)@, sent + r2)
                                == client_frames_processed(v, r2));
                        }
                        assert forall|rest: Seq<nat>|
                            client_frames_failed(old(self)@, sent.push(n) + rest)
                                == #[trigger] client_frames_failed(self@, rest) by {
                            let r2 = seq![n] + rest;
                            assert(sent.push(n) + rest =~= sent + r2);
                            assert(r2.drop_first() =~= rest);
                            assert(client_frames_failed(old(self)@, sent + r2)
                                == client_frames_failed(v, r2));
                            reveal(client_frames_failed);
                        }
                        assert forall|rest: Seq<nat>|
                            client_fails_on_output(old(self)@, sent.push(n) + rest)
                                == #[trigger] client_fails_on_output(self@, rest) by {
                            let r2 = seq![n] + rest;
                            assert(sent.push(n) + rest =~= sent + r2);
                            assert(r2.drop_first() =~= rest);
                            assert(client_fails_on_output(old(self)@, sent + r2)
                                == client_fails_on_output(v, r2));
                            reveal(client_fails_on_output);
                        }
                        sent = sent.push(n);
                    }
                },
                Ok(None) => {
                    proof {
                        assert(v.core.read.skip(0) =~= v.core.read);
                        assert(self@ == v);
                    }
                    break ;
                },
                Err(e) => {
                    self.push_event(ConnectionEvent::Error(ConnectionError::Frame(e)));
                    break ;
                },
            }
        }
        Ok(())
    }

    /// Feed plaintext data directly into the connection's frame buffer.
    ///
    /// More efficient than `on_recv()` when TLS is handled externally:
    /// skips the transport's receive buffer entirely.
    pub fn feed_data(&mut self, data: &[u8]) -> (r: std::io::Result<()>)
        requires
            old(self).wf(),
            old(self)@.core.write.len() + 2 * (old(self)@.core.read.len() + data@.len())
                <= isize::MAX,
        ensures
            extends(old(self).transport_value().accepted(), final(self).transport_value().accepted()),
            final(self).wf(),
            r is Ok ==> exists|sent: Seq<nat>|
                final(self)@ == client_frames_processed(
                    client_with_read(old(self)@, old(self)@.core.read + data@),
                    sent,
                ),
            r is Err ==> exists|sent: Seq<nat>|
                final(self)@ == client_frames_failed(
                    client_with_read(old(self)@, old(self)@.core.read + data@),
                    sent,
                ) && client_fails_on_output(
                    client_with_read(old(self)@, old(self)@.core.read + data@),
                    sent,
                ),
            (forall|sent: Seq<nat>|
                !client_fails_on_output(
                    client_with_read(old(self)@, old(self)@.core.read + data@),
                    sent,
                )) ==> r is Ok,
    {
        bytes_mut_extend(&mut self.read_buf, data);
        self.process_frames()
    }

    /// Feed data received from the socket: the transport takes it, and
    /// whatever application data it then yields is processed.
    pub fn on_recv(&mut self, data: &[u8]) -> (r: std::io::Result<()>)
        requires
            old(self).wf(),
            old(self)@.core.write.len() + 2 * old(self)@.core.read.len() <= isize::MAX,
        ensures
            extends(old(self).transport_value().accepted(), final(self).transport_value().accepted()),
            final(self).wf(),
            r is Ok ==> exists|received: Seq<u8>, sent: Seq<nat>|
                final(self)@ == client_frames_processed(
                    client_with_read(old(self)@, old(self)@.core.read + received),
                    sent,
                ),
            r is Err ==> final(self)@ == old(self)@ || transport_data_failed(old(self)@, final(self)@),
    {
        proof {
            lemma_extends_chain(self.transport_value().accepted(), self.transport_value().accepted(), self.transport_value().accepted());
        }
        match self.transport.on_recv(data) {
            Ok(()) => {},
            Err(e) => return Err(e),
        }
        self.process_transport_data()
    }

    /// Process data from the transport: read what it yields, while the
    /// buffers stay within `isize::MAX` bytes, then process the frames.
    fn process_transport_data(&mut self) -> (r: std::io::Result<()>)
        requires
            old(self).wf(),
            old(self)@.core.write.len() + 2 * old(self)@.core.read.len() <= isize::MAX,
        ensures
            extends(old(self).transport_value().accepted(), final(self).transport_value().accepted()),
            final(self).wf(),
            r is Ok ==> exists|received: Seq<u8>, sent: Seq<nat>|
                final(self)@ == client_frames_processed(
                    client_with_read(old(self)@, old(self)@.core.read + received),
                    sent,
                ),
            r is Err ==> transport_data_failed(old(self)@, final(self)@),
    {
        // Read decrypted data from transport
        let mut buf = [0u8; 16384];
        let ghost mut received: Seq<u8> = Seq::empty();
        proof {
            assert(old(self)@.core.read + received =~= old(self)@.core.read);
            assert(self@ == client_with_read(old(self)@, old(self)@.core.read + received));
            lemma_extends_chain(self.transport_value().accepted(), self.transport_value().accepted(), self.transport_value().accepted());
        }
        loop
            invariant
                self.wf(),
                self.transport_value().accepted() == old(self).transport_value().accepted(),
                extends(old(self).transport_value().accepted(), self.transport_value().accepted()),
                self@ == client_with_read(old(self)@, old(self)@.core.read + received),
                self@.core.write.len() + 2 * self@.core.read.len() <= isize::MAX,
                buf@.len() == 16384,
            decreases isize::MAX - self@.core.read.len(),
        {
            let used = bytes_mut_len(&self.write_buf) as u128 + 2 * (bytes_mut_len(&self.read_buf)
                as u128 + 16384);
            if used > isize::MAX as u128 {
                break ;
            }
            match self.transport.recv(&mut buf) {
                Ok(0) => break ,
                Ok(n) => {
                    let chunk = vstd::slice::slice_subrange(&buf, 0, n);
                    let ghost before = self@;
                    bytes_mut_extend(&mut self.read_buf, chunk);
                    proof {
                        assert(old(self)@.core.read + (received + chunk@) =~= old(self)@.core.read
                            + received + chunk@);
                        received = received + chunk@;
                    }
                },
                Err(e) => {
                    if error_kind(&e) == IoErrorKind::WouldBlock {
                        break ;
                    }
                    return Err(e);
                },
            }
        }
        let ghost mid = self.transport_value().accepted();
        let r = self.process_frames();
        proof {
            lemma_extends_chain(mid, mid, self.transport_value().accepted());
        }
        r
    }

    /// Start a new request stream.
    ///
    /// Returns the stream ID for the new stream.
    pub fn start_request(&mut self, headers: &[HeaderField], end_stream: bool) -> (r:
        std::io::Result<StreamId>)
        requires
            old(self).wf(),
            forall|i: int| 0 <= i < headers@.len() ==> encodable(#[trigger] headers@[i]@),
            old(self)@.core.state == ConnectionState::Open ==> old(self)@.next_stream_id
                <= u32::MAX - 2,
            old(self)@.core.write.len() + 9 + block_encoding(
                old(self)@.core.hpack_encoder,
                headers@.map_values(|h: HeaderField| h@),
            ).0.len() <= isize::MAX,
        ensures
            final(self).wf(),
            old(self)@.core.state != ConnectionState::Open ==> {
                &&& r is Err
                &&& io_error_kind(r->Err_0) == IoErrorKind::NotConnected
                &&& final(self)@ == old(self)@
            },
            old(self)@.core.state == ConnectionState::Open ==> {
                let started = request_started(
                    old(self)@,
                    headers@.map_values(|h: HeaderField| h@),
                    end_stream,
                );
                match r {
                    Ok(id) => {
                        &&& id.0 == started.last_stream_id
                        &&& exists|n: nat|
                            final(self)@ == client_with_core(started, trimmed(started.core, n))
                                && #[trigger] handed_over(
                                old(self).transport_value(),
                                final(self).transport_value(),
                                started.core.write,
                                n,
                            )
                    },
                    Err(_) => final(self)@ == started && exists|k: nat|
                        #[trigger] handed_over(
                            old(self).transport_value(),
                            final(self).transport_value(),
                            started.core.write,
                            k,
                        ),
                }
            },
            old(self)@.core.state == ConnectionState::Open && old(self).transport_value().takes_all(
                request_started(
                    old(self)@,
                    headers@.map_values(|h: HeaderField| h@),
                    end_stream,
                ).core.write.len(),
            ) ==> r is Ok && final(self)@.core.write.len() == 0,
    {
        if self.state != ConnectionState::Open {
            return Err(io_error_new(IoErrorKind::NotConnected, "connection not ready"));
        }
        let stream_id = StreamId::new(self.next_stream_id);
        self.next_stream_id = self.next_stream_id + 2;  // Client uses odd stream IDs
        self.last_stream_id = stream_id.value();
        // Create stream
        let id = stream_id.value();
        let ghost m0 = self.streams@;
        let stream = Stream::new(stream_id, self.remote_settings.initial_window_size);
        self.streams.insert(id, stream);
        proof {
            assert(streams_view(self.streams) =~= streams_view_of(m0).insert(id, stream@));
        }
        // Encode headers with HPACK
        let mut header_block: Vec<u8> = Vec::new();
        self.hpack_encoder.encode(headers, &mut header_block);
        proof {
            assert(header_block@ =~= block_encoding(
                old(self)@.core.hpack_encoder,
                headers@.map_values(|h: HeaderField| h@),
            ).0);
        }
        // Send HEADERS frame
        let frame = Frame::Headers(
            HeadersFrame {
                stream_id,
                end_stream,
                end_headers: true,  // For simplicity, we always send all headers in one frame
                priority: None,
                header_block: bytes_from_vec(header_block),
            },
        );
        self.emit_frame(&frame);
        let ghost before = self@;
        let ghost tb = self.transport_value();
        assert(tb == old(self).transport_value());
        let flushed = self.flush_write_buffer();
        proof {
            if flushed is Ok {
                let n = choose|n: nat|
                    self@ == client_with_core(before, trimmed(before.core, n)) && #[trigger] handed_over(
                        tb,
                        self.transport_value(),
                        before.core.write,
                        n,
                    );
                assert(before.core.write == request_started(old(self)@, headers@.map_values(|h: HeaderField| h@), end_stream).core.write);
                assert(handed_over(old(self).transport_value(), self.transport_value(), request_started(old(self)@, headers@.map_values(|h: HeaderField| h@), end_stream).core.write, n));
            } else {
                let k = choose|k: nat|
                    #[trigger] handed_over(tb, self.transport_value(), before.core.write, k);
                assert(before.core.write == request_started(old(self)@, headers@.map_values(|h: HeaderField| h@), end_stream).core.write);
                assert(handed_over(old(self).transport_value(), self.transport_value(), request_started(old(self)@, headers@.map_values(|h: HeaderField| h@), end_stream).core.write, k));
            }
        }
        match flushed {
            Ok(()) => {},
            Err(e) => return Err(e),
        }
        Ok(stream_id)
    }

    /// Send data on a stream; returns how many bytes went out.
    #[verifier::rlimit(60)]
    #[verifier::spinoff_prover]
    pub fn send_data(&mut self, stream_id: StreamId, data: &[u8], end_stream: bool) -> (r:
        std::io::Result<usize>)
        requires
            old(self).wf(),
            old(self)@.core.streams.contains_key(stream_id.0) ==> data_send_ok(
                old(self)@.core,
                stream_id.0,
                client_send_amount(old(self)@.core, stream_id.0, data@.len()),
            ),
        ensures
            final(self).wf(),
            !old(self)@.core.streams.contains_key(stream_id.0) ==> {
                &&& r is Err
                &&& io_error_kind(r->Err_0) == IoErrorKind::NotFound
                &&& final(self)@ == old(self)@
            },
            old(self)@.core.streams.contains_key(stream_id.0) && client_send_amount(
                old(self)@.core,
                stream_id.0,
                data@.len(),
            ) == 0 && data@.len() > 0 ==> {
                &&& r is Err
                &&& io_error_kind(r->Err_0) == IoErrorKind::WouldBlock
                &&& final(self)@ == old(self)@
            },
            old(self)@.core.streams.contains_key(stream_id.0) && !(client_send_amount(
                old(self)@.core,
                stream_id.0,
                data@.len(),
            ) == 0 && data@.len() > 0) ==> {
                let amount = client_send_amount(old(self)@.core, stream_id.0, data@.len());
                let c = data_sent(old(self)@.core, stream_id.0, data@, amount, end_stream);
                &&& match r {
                    Ok(k) => {
                        &&& k == amount
                        &&& exists|n: nat|
                            final(self)@ == client_with_core(old(self)@, trimmed(c, n))
                                && #[trigger] handed_over(
                                old(self).transport_value(),
                                final(self).transport_value(),
                                c.write,
                                n,
                            )
                    },
                    Err(_) => final(self)@ == client_with_core(old(self)@, c) && exists|k: nat|
                        #[trigger] handed_over(
                            old(self).transport_value(),
                            final(self).transport_value(),
                            c.write,
                            k,
                        ),
                }
                &&& old(self).transport_value().takes_all(c.write.len()) ==> r is Ok
                    && final(self)@.core.write.len() == 0
            },
    {
        let id = stream_id.value();
        // Check stream exists and get flow control info
        let (to_send, is_end) = {
            let stream = match self.streams.get(&id) {
                Some(s) => s,
                None => return Err(io_error_new(IoErrorKind::NotFound, "stream not found")),
            };
            // The smaller window, as a signed amount: nothing may go out
            // when it is zero or negative.
            let w1: i32 = self.flow_control.available();
            let w2: i32 = stream.send_window();
            let w: i32 = if w1 < w2 {
                w1
            } else {
                w2
            };
            let available: usize = if w <= 0 {
                0
            } else {
                w as usize
            };
            let max_frame = self.frame_encoder.max_frame_size() as usize;
            let n = if available < data.len() {
                available
            } else {
                data.len()
            };
            let to_send = if n < max_frame {
                n
            } else {
                max_frame
            };
            let is_end = end_stream && to_send == data.len();
            (to_send, is_end)
        };
        if to_send == 0 && data.len() > 0 {
            return Err(io_error_from_kind(IoErrorKind::WouldBlock));
        }
        // Update flow control
        self.flow_control.consume(to_send as u32);
        // Update stream and send frame
        let ghost m0 = self.streams@;
        if let Some(mut stream) = self.streams.remove(&id) {
            stream.send_data(to_send as u32);
            if is_end {
                stream.send_end_stream();
            }
            self.streams.insert(id, stream);
            proof {
                assert(streams_view(self.streams) =~= streams_view_of(m0).insert(id, stream@));
            }
        }
        // Send DATA frame
        let chunk = vstd::slice::slice_subrange(data, 0, to_send);
        proof {
            assert(chunk@ =~= data@.take(to_send as int));
        }
        let frame = Frame::Data(
            DataFrame { stream_id, end_stream: is_end, data: bytes_copy_from_slice(chunk) },
        );
        self.emit_frame(&frame);
        let ghost before = self@;
        let ghost tb = self.transport_value();
        assert(tb == old(self).transport_value());
        let flushed = self.flush_write_buffer();
        proof {
            if flushed is Ok {
                let n = choose|n: nat|
                    self@ == client_with_core(before, trimmed(before.core, n)) && #[trigger] handed_over(
                        tb,
                        self.transport_value(),
                        before.core.write,
                        n,
                    );
                assert(before.core.write == data_sent(old(self)@.core, stream_id.0, data@, to_send as nat, end_stream).write);
                assert(handed_over(old(self).transport_value(), self.transport_value(), data_sent(old(self)@.core, stream_id.0, data@, to_send as nat, end_stream).write, n));
            } else {
                let k = choose|k: nat|
                    #[trigger] handed_over(tb, self.transport_value(), before.core.write, k);
                assert(before.core.write == data_sent(old(self)@.core, stream_id.0, data@, to_send as nat, end_stream).write);
                assert(handed_over(old(self).transport_value(), self.transport_value(), data_sent(old(self)@.core, stream_id.0, data@, to_send as nat, end_stream).write, k));
            }
        }
        match flushed {
            Ok(()) => {},
            Err(e) => return Err(e),
        }
        Ok(to_send)
    }

    /// Get pending events.
    pub fn poll_events(&mut self) -> (r: Vec<ConnectionEvent>)
        ensures
            r@.map_values(|e: ConnectionEvent| e@) == old(self)@.core.events,
            final(self)@ == client_with_core(
                old(self)@,
                CoreView { events: Seq::empty(), ..old(self)@.core },
            ),
            old(self).wf() ==> final(self).wf(),
    {
        let mut taken: Vec<ConnectionEvent> = Vec::new();
        std::mem::swap(&mut taken, &mut self.events);
        proof {
            assert(self.events@.map_values(|e: ConnectionEvent| e@) =~= Seq::<EventView>::empty());
            assert(taken@.map_values(|e: ConnectionEvent| e@) =~= old(self)@.core.events);
        }
        taken
    }

    /// Get data to send on the socket: what the transport has pending.
    pub fn pending_send(&self) -> (r: &[u8])
        ensures
            r@ == self.transport_value().pending_bytes(),
    {
        self.transport.pending_send()
    }

    /// Mark data as sent on the socket: the transport drops the first `n`
    /// pending bytes, or all of them.
    pub fn advance_send(&mut self, n: usize)
        ensures
            final(self)@ == old(self)@,
            old(self).wf() ==> final(self).wf(),
            final(self).transport_value().accepted() == old(self).transport_value().accepted(),
            final(self).transport_value().pending_bytes() == if n < old(
                self,
            ).transport_value().pending_bytes().len() {
                old(self).transport_value().pending_bytes().skip(n as int)
            } else {
                Seq::<u8>::empty()
            },
    {
        self.transport.advance_send(n);
    }

    /// Check if there's data to send: in the transport, or still queued in
    /// the connection.
    pub fn has_pending_send(&self) -> (r: bool)
        ensures
            r == (self.transport_value().pending_bytes().len() > 0 || self@.core.write.len() > 0),
    {
        self.transport.has_pending_send() || bytes_mut_len(&self.write_buf) > 0
    }
}

} // verus!
