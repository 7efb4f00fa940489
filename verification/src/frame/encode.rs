//! HTTP/2 frame encoding.
use vstd::prelude::*;
use bytes::BytesMut;
use crate::buf::{bytes_as_slice, bytes_copy_from_slice, bytes_len, bytes_mut_extend, bytes_mut_seq, bytes_seq};
use super::flags;
use super::types::{
    ContinuationFrame, DataFrame, Frame, FrameType, FrameView, GoAwayFrame, HeadersFrame,
    PingFrame, Priority, PriorityFrame, PushPromiseFrame, RstStreamFrame, Setting,
    SettingsFrame, StreamId, UnknownFrame, WindowUpdateFrame,
};
use super::wire::{lemma_mask31, u16_bytes, u24_bytes, u32_bytes, write_u16, write_u24, write_u32};
use super::{CONNECTION_PREFACE, DEFAULT_MAX_FRAME_SIZE};

verus! {

/// `bit` when `set` holds, no bit otherwise.
pub open spec fn flag_bit(set: bool, bit: u8) -> u8 {
    if set {
        bit
    } else {
        0
    }
}

/// The 9-byte frame header: the low 24 bits of the payload length, the
/// type, the flags and the stream identifier without its reserved bit.
pub open spec fn header_bytes(length: nat, frame_type: u8, flags: u8, stream_id: u32) -> Seq<u8> {
    u24_bytes((length % 0x1000000) as u32) + seq![frame_type, flags] + u32_bytes(
        (stream_id % 0x8000_0000) as u32,
    )
}

/// The 32-bit word that carries a dependency: the exclusive bit on top of
/// the dependency's identifier.
pub open spec fn dependency_word(p: Priority) -> u32 {
    if p.exclusive {
        p.dependency.0 | 0x8000_0000
    } else {
        p.dependency.0
    }
}

/// The five bytes of a priority.
pub open spec fn priority_bytes(p: Priority) -> Seq<u8> {
    u32_bytes(dependency_word(p)) + seq![p.weight]
}

/// Six bytes per setting: identifier then value.
pub open spec fn settings_bytes(s: Seq<Setting>) -> Seq<u8>
    decreases s.len(),
{
    if s.len() == 0 {
        Seq::empty()
    } else {
        settings_bytes(s.drop_last()) + u16_bytes(s.last().id.code()) + u32_bytes(s.last().value)
    }
}

/// The payload of a frame on the wire.
pub open spec fn payload_bytes(f: FrameView) -> Seq<u8> {
    match f {
        FrameView::Data { data, .. } => data,
        FrameView::Headers { priority, header_block, .. } => match priority {
            Some(p) => priority_bytes(p) + header_block,
            None => header_block,
        },
        FrameView::Priority { priority, .. } => priority_bytes(priority),
        FrameView::RstStream { error_code, .. } => u32_bytes(error_code),
        FrameView::Settings { ack, settings } => if ack {
            Seq::empty()
        } else {
            settings_bytes(settings)
        },
        FrameView::PushPromise { promised_stream_id, header_block, .. } => u32_bytes(
            (promised_stream_id % 0x8000_0000) as u32,
        ) + header_block,
        FrameView::Ping { data, .. } => data,
        FrameView::GoAway { last_stream_id, error_code, debug_data } => u32_bytes(
            (last_stream_id % 0x8000_0000) as u32,
        ) + u32_bytes(error_code) + debug_data,
        FrameView::WindowUpdate { increment, .. } => u32_bytes((increment % 0x8000_0000) as u32),
        FrameView::Continuation { header_block, .. } => header_block,
        FrameView::Unknown { payload, .. } => payload,
    }
}

/// The type byte of a frame.
pub open spec fn type_byte(f: FrameView) -> u8 {
    match f {
        FrameView::Data { .. } => 0x0,
        FrameView::Headers { .. } => 0x1,
        FrameView::Priority { .. } => 0x2,
        FrameView::RstStream { .. } => 0x3,
        FrameView::Settings { .. } => 0x4,
        FrameView::PushPromise { .. } => 0x5,
        FrameView::Ping { .. } => 0x6,
        FrameView::GoAway { .. } => 0x7,
        FrameView::WindowUpdate { .. } => 0x8,
        FrameView::Continuation { .. } => 0x9,
        FrameView::Unknown { frame_type, .. } => frame_type,
    }
}

/// The flags byte of a frame.
pub open spec fn flags_byte(f: FrameView) -> u8 {
    match f {
        FrameView::Data { end_stream, .. } => flag_bit(end_stream, flags::END_STREAM),
        FrameView::Headers { end_stream, end_headers, priority, .. } => flag_bit(
            end_stream,
            flags::END_STREAM,
        ) | flag_bit(end_headers, flags::END_HEADERS) | flag_bit(
            priority is Some,
            flags::PRIORITY,
        ),
        FrameView::Settings { ack, .. } => flag_bit(ack, flags::ACK),
        FrameView::PushPromise { end_headers, .. } => flag_bit(end_headers, flags::END_HEADERS),
        FrameView::Ping { ack, .. } => flag_bit(ack, flags::ACK),
        FrameView::Continuation { end_headers, .. } => flag_bit(end_headers, flags::END_HEADERS),
        FrameView::Unknown { flags, .. } => flags,
        _ => 0,
    }
}

/// The bytes of a frame on the wire: header, then payload.
pub open spec fn frame_bytes(f: FrameView) -> Seq<u8> {
    header_bytes(payload_bytes(f).len(), type_byte(f), flags_byte(f), f.stream_id()) + payload_bytes(
        f,
    )
}

/// Frame encoder that writes HTTP/2 frames to a byte buffer.
pub struct FrameEncoder {
    max_frame_size: u32,
}

impl View for FrameEncoder {
    /// The maximum frame size the encoder was given.
    type V = u32;

    closed spec fn view(&self) -> u32 {
        self.max_frame_size
    }
}

impl Default for FrameEncoder {
    fn default() -> (r: Self)
        ensures
            r@ == DEFAULT_MAX_FRAME_SIZE,
    {
        Self::new()
    }
}

/// `bit` when `set` holds, no bit otherwise.
fn flag(set: bool, bit: u8) -> (r: u8)
    ensures
        r == flag_bit(set, bit),
{
    if set {
        bit
    } else {
        0
    }
}

impl FrameEncoder {
    /// Create a new frame encoder with default settings.
    pub fn new() -> (r: Self)
        ensures
            r@ == DEFAULT_MAX_FRAME_SIZE,
    {
        Self { max_frame_size: DEFAULT_MAX_FRAME_SIZE }
    }

    /// Set the maximum frame size.
    pub fn set_max_frame_size(&mut self, size: u32)
        ensures
            final(self)@ == size,
    {
        self.max_frame_size = size;
    }

    /// Get the maximum frame size.
    pub fn max_frame_size(&self) -> (r: u32)
        ensures
            r == self@,
    {
        self.max_frame_size
    }

    /// Encode a frame to the buffer.
    pub fn encode(&self, frame: &Frame, buf: &mut BytesMut)
        requires
            bytes_mut_seq(*old(buf)).len() + frame_bytes(frame@).len() <= isize::MAX,
        ensures
            bytes_mut_seq(*final(buf)) == bytes_mut_seq(*old(buf)) + frame_bytes(frame@),
    {
        match frame {
            Frame::Data(f) => self.encode_data(f, buf),
            Frame::Headers(f) => self.encode_headers(f, buf),
            Frame::Priority(f) => self.encode_priority(f, buf),
            Frame::RstStream(f) => self.encode_rst_stream(f, buf),
            Frame::Settings(f) => self.encode_settings(f, buf),
            Frame::PushPromise(f) => self.encode_push_promise(f, buf),
            Frame::Ping(f) => self.encode_ping(f, buf),
            Frame::GoAway(f) => self.encode_goaway(f, buf),
            Frame::WindowUpdate(f) => self.encode_window_update(f, buf),
            Frame::Continuation(f) => self.encode_continuation(f, buf),
            Frame::Unknown(f) => self.encode_unknown(f, buf),
        }
    }

    /// Write a frame header to the buffer.
    fn write_header(
        &self,
        buf: &mut BytesMut,
        length: usize,
        frame_type: u8,
        flags: u8,
        stream_id: StreamId,
    )
        requires
            bytes_mut_seq(*old(buf)).len() + 9 <= isize::MAX,
        ensures
            bytes_mut_seq(*final(buf)) == bytes_mut_seq(*old(buf)) + header_bytes(
                length as nat,
                frame_type,
                flags,
                stream_id.0,
            ),
    {
        let ghost start = bytes_mut_seq(*buf);
        // Length (24 bits, big-endian)
        let len24: u32 = (length % 0x1000000) as u32;
        let length_bytes = write_u24(len24);
        bytes_mut_extend(buf, &length_bytes);
        // Type and flags
        let type_and_flags: [u8; 2] = [frame_type, flags];
        bytes_mut_extend(buf, &type_and_flags);
        // Stream ID (31 bits, big-endian, high bit reserved)
        let raw = stream_id.value();
        proof {
            lemma_mask31(raw);
        }
        let id_bytes = write_u32(raw & 0x7FFF_FFFF);
        bytes_mut_extend(buf, &id_bytes);
        proof {
            assert(type_and_flags@ =~= seq![frame_type, flags]);
            assert(bytes_mut_seq(*buf) =~= start + header_bytes(
                length as nat,
                frame_type,
                flags,
                stream_id.0,
            ));
        }
    }

    /// Append the bytes of a priority.
    fn write_priority(&self, priority: &Priority, buf: &mut BytesMut)
        requires
            bytes_mut_seq(*old(buf)).len() + 5 <= isize::MAX,
        ensures
            bytes_mut_seq(*final(buf)) == bytes_mut_seq(*old(buf)) + priority_bytes(*priority),
    {
        let ghost start = bytes_mut_seq(*buf);
        let mut dep = priority.dependency.value();
        if priority.exclusive {
            dep = dep | 0x8000_0000;
        }
        let dep_bytes = write_u32(dep);
        bytes_mut_extend(buf, &dep_bytes);
        let weight: [u8; 1] = [priority.weight];
        bytes_mut_extend(buf, &weight);
        assert(bytes_mut_seq(*buf) =~= start + priority_bytes(*priority));
    }

    /// Append a 32-bit word, most significant byte first.
    fn write_word(&self, x: u32, buf: &mut BytesMut)
        requires
            bytes_mut_seq(*old(buf)).len() + 4 <= isize::MAX,
        ensures
            bytes_mut_seq(*final(buf)) == bytes_mut_seq(*old(buf)) + u32_bytes(x),
    {
        let b = write_u32(x);
        bytes_mut_extend(buf, &b);
    }

    /// Encode a DATA frame.
    fn encode_data(&self, frame: &DataFrame, buf: &mut BytesMut)
        requires
            bytes_mut_seq(*old(buf)).len() + frame_bytes(Frame::Data(*frame)@).len() <= isize::MAX,
        ensures
            bytes_mut_seq(*final(buf)) == bytes_mut_seq(*old(buf)) + frame_bytes(
                Frame::Data(*frame)@,
            ),
    {
        let ghost start = bytes_mut_seq(*buf);
        let frame_flags = flag(frame.end_stream, flags::END_STREAM);
        let length = bytes_len(&frame.data);
        self.write_header(buf, length, FrameType::Data.to_u8(), frame_flags, frame.stream_id);
        bytes_mut_extend(buf, bytes_as_slice(&frame.data));
        assert(bytes_mut_seq(*buf) =~= start + frame_bytes(Frame::Data(*frame)@));
    }

    /// Encode a HEADERS frame.
    fn encode_headers(&self, frame: &HeadersFrame, buf: &mut BytesMut)
        requires
            bytes_mut_seq(*old(buf)).len() + frame_bytes(Frame::Headers(*frame)@).len()
                <= isize::MAX,
        ensures
            bytes_mut_seq(*final(buf)) == bytes_mut_seq(*old(buf)) + frame_bytes(
                Frame::Headers(*frame)@,
            ),
    {
        let ghost start = bytes_mut_seq(*buf);
        let frame_flags = flag(frame.end_stream, flags::END_STREAM) | flag(
            frame.end_headers,
            flags::END_HEADERS,
        ) | flag(frame.priority.is_some(), flags::PRIORITY);
        let priority_len: usize = if frame.priority.is_some() {
            5
        } else {
            0
        };
        let length = priority_len + bytes_len(&frame.header_block);
        self.write_header(buf, length, FrameType::Headers.to_u8(), frame_flags, frame.stream_id);
        let ghost mid = bytes_mut_seq(*buf);
        if let Some(priority) = &frame.priority {
            self.write_priority(priority, buf);
        }
        let ghost mid2 = bytes_mut_seq(*buf);
        bytes_mut_extend(buf, bytes_as_slice(&frame.header_block));
        proof {
            match frame.priority {
                Some(p) => {
                    assert(bytes_mut_seq(*buf) =~= mid + (priority_bytes(p) + bytes_seq(
                        frame.header_block,
                    )));
                },
                None => {},
            }
            assert(bytes_mut_seq(*buf) =~= start + frame_bytes(Frame::Headers(*frame)@));
        }
    }

    /// Encode a PRIORITY frame.
    fn encode_priority(&self, frame: &PriorityFrame, buf: &mut BytesMut)
        requires
            bytes_mut_seq(*old(buf)).len() + frame_bytes(Frame::Priority(*frame)@).len()
                <= isize::MAX,
        ensures
            bytes_mut_seq(*final(buf)) == bytes_mut_seq(*old(buf)) + frame_bytes(
                Frame::Priority(*frame)@,
            ),
    {
        let ghost start = bytes_mut_seq(*buf);
        self.write_header(buf, 5, FrameType::Priority.to_u8(), 0, frame.stream_id);
        self.write_priority(&frame.priority, buf);
        assert(bytes_mut_seq(*buf) =~= start + frame_bytes(Frame::Priority(*frame)@));
    }

    /// Encode a RST_STREAM frame.
    fn encode_rst_stream(&self, frame: &RstStreamFrame, buf: &mut BytesMut)
        requires
            bytes_mut_seq(*old(buf)).len() + frame_bytes(Frame::RstStream(*frame)@).len()
                <= isize::MAX,
        ensures
            bytes_mut_seq(*final(buf)) == bytes_mut_seq(*old(buf)) + frame_bytes(
                Frame::RstStream(*frame)@,
            ),
    {
        let ghost start = bytes_mut_seq(*buf);
        self.write_header(buf, 4, FrameType::RstStream.to_u8(), 0, frame.stream_id);
        self.write_word(frame.error_code, buf);
        assert(bytes_mut_seq(*buf) =~= start + frame_bytes(Frame::RstStream(*frame)@));
    }

    /// Encode a SETTINGS frame.
    fn encode_settings(&self, frame: &SettingsFrame, buf: &mut BytesMut)
        requires
            bytes_mut_seq(*old(buf)).len() + frame_bytes(Frame::Settings(*frame)@).len()
                <= isize::MAX,
        ensures
            bytes_mut_seq(*final(buf)) == bytes_mut_seq(*old(buf)) + frame_bytes(
                Frame::Settings(*frame)@,
            ),
    {
        let ghost start = bytes_mut_seq(*buf);
        let ghost s = frame.settings@;
        proof {
            lemma_settings_bytes_len(s);
        }
        let frame_flags = flag(frame.ack, flags::ACK);
        let length: usize = if frame.ack {
            0
        } else {
            frame.settings.len() * 6
        };
        self.write_header(buf, length, FrameType::Settings.to_u8(), frame_flags, StreamId::connection());
        let ghost mid = bytes_mut_seq(*buf);
        if !frame.ack {
            let mut i: usize = 0;
            while i < frame.settings.len()
                invariant
                    s == frame.settings@,
                    i <= s.len(),
                    settings_bytes(s).len() == 6 * s.len(),
                    mid.len() + 6 * s.len() <= isize::MAX,
                    bytes_mut_seq(*buf) == mid + settings_bytes(s.take(i as int)),
                decreases s.len() - i,
            {
                proof {
                    lemma_settings_bytes_len(s.take(i as int));
                    assert(s.take(i + 1).drop_last() =~= s.take(i as int));
                }
                let setting = frame.settings[i];
                let id_bytes = write_u16(setting.id.to_u16());
                bytes_mut_extend(buf, &id_bytes);
                self.write_word(setting.value, buf);
                proof {
                    assert(bytes_mut_seq(*buf) =~= mid + settings_bytes(s.take(i + 1)));
                }
                i = i + 1;
            }
            assert(s.take(i as int) =~= s);
        }
        proof {
            if frame.ack {
                assert(bytes_mut_seq(*buf) =~= mid + Seq::<u8>::empty());
            }
            assert(bytes_mut_seq(*buf) =~= start + frame_bytes(Frame::Settings(*frame)@));
        }
    }

    /// Encode a PUSH_PROMISE frame.
    fn encode_push_promise(&self, frame: &PushPromiseFrame, buf: &mut BytesMut)
        requires
            bytes_mut_seq(*old(buf)).len() + frame_bytes(Frame::PushPromise(*frame)@).len()
                <= isize::MAX,
        ensures
            bytes_mut_seq(*final(buf)) == bytes_mut_seq(*old(buf)) + frame_bytes(
                Frame::PushPromise(*frame)@,
            ),
    {
        let ghost start = bytes_mut_seq(*buf);
        let frame_flags = flag(frame.end_headers, flags::END_HEADERS);
        let length = 4 + bytes_len(&frame.header_block);
        self.write_header(buf, length, FrameType::PushPromise.to_u8(), frame_flags, frame.stream_id);
        let raw = frame.promised_stream_id.value();
        proof {
            lemma_mask31(raw);
        }
        self.write_word(raw & 0x7FFF_FFFF, buf);
        bytes_mut_extend(buf, bytes_as_slice(&frame.header_block));
        assert(bytes_mut_seq(*buf) =~= start + frame_bytes(Frame::PushPromise(*frame)@));
    }

    /// Encode a PING frame.
    fn encode_ping(&self, frame: &PingFrame, buf: &mut BytesMut)
        requires
            bytes_mut_seq(*old(buf)).len() + frame_bytes(Frame::Ping(*frame)@).len() <= isize::MAX,
        ensures
            bytes_mut_seq(*final(buf)) == bytes_mut_seq(*old(buf)) + frame_bytes(
                Frame::Ping(*frame)@,
            ),
    {
        let ghost start = bytes_mut_seq(*buf);
        let frame_flags = flag(frame.ack, flags::ACK);
        self.write_header(buf, 8, FrameType::Ping.to_u8(), frame_flags, StreamId::connection());
        bytes_mut_extend(buf, &frame.data);
        assert(bytes_mut_seq(*buf) =~= start + frame_bytes(Frame::Ping(*frame)@));
    }

    /// Encode a GOAWAY frame.
    fn encode_goaway(&self, frame: &GoAwayFrame, buf: &mut BytesMut)
        requires
            bytes_mut_seq(*old(buf)).len() + frame_bytes(Frame::GoAway(*frame)@).len()
                <= isize::MAX,
        ensures
            bytes_mut_seq(*final(buf)) == bytes_mut_seq(*old(buf)) + frame_bytes(
                Frame::GoAway(*frame)@,
            ),
    {
        let ghost start = bytes_mut_seq(*buf);
        let length = 8 + bytes_len(&frame.debug_data);
        self.write_header(buf, length, FrameType::GoAway.to_u8(), 0, StreamId::connection());
        let raw = frame.last_stream_id.value();
        proof {
            lemma_mask31(raw);
        }
        self.write_word(raw & 0x7FFF_FFFF, buf);
        self.write_word(frame.error_code, buf);
        bytes_mut_extend(buf, bytes_as_slice(&frame.debug_data));
        assert(bytes_mut_seq(*buf) =~= start + frame_bytes(Frame::GoAway(*frame)@));
    }

    /// Encode a WINDOW_UPDATE frame.
    fn encode_window_update(&self, frame: &WindowUpdateFrame, buf: &mut BytesMut)
        requires
            bytes_mut_seq(*old(buf)).len() + frame_bytes(Frame::WindowUpdate(*frame)@).len()
                <= isize::MAX,
        ensures
            bytes_mut_seq(*final(buf)) == bytes_mut_seq(*old(buf)) + frame_bytes(
                Frame::WindowUpdate(*frame)@,
            ),
    {
        let ghost start = bytes_mut_seq(*buf);
        self.write_header(buf, 4, FrameType::WindowUpdate.to_u8(), 0, frame.stream_id);
        proof {
            lemma_mask31(frame.increment);
        }
        self.write_word(frame.increment & 0x7FFF_FFFF, buf);
        assert(bytes_mut_seq(*buf) =~= start + frame_bytes(Frame::WindowUpdate(*frame)@));
    }

    /// Encode a CONTINUATION frame.
    fn encode_continuation(&self, frame: &ContinuationFrame, buf: &mut BytesMut)
        requires
            bytes_mut_seq(*old(buf)).len() + frame_bytes(Frame::Continuation(*frame)@).len()
                <= isize::MAX,
        ensures
            bytes_mut_seq(*final(buf)) == bytes_mut_seq(*old(buf)) + frame_bytes(
                Frame::Continuation(*frame)@,
            ),
    {
        let ghost start = bytes_mut_seq(*buf);
        let frame_flags = flag(frame.end_headers, flags::END_HEADERS);
        let length = bytes_len(&frame.header_block);
        self.write_header(
            buf,
            length,
            FrameType::Continuation.to_u8(),
            frame_flags,
            frame.stream_id,
        );
        bytes_mut_extend(buf, bytes_as_slice(&frame.header_block));
        assert(bytes_mut_seq(*buf) =~= start + frame_bytes(Frame::Continuation(*frame)@));
    }

    /// Encode an unknown frame.
    fn encode_unknown(&self, frame: &UnknownFrame, buf: &mut BytesMut)
        requires
            bytes_mut_seq(*old(buf)).len() + frame_bytes(Frame::Unknown(*frame)@).len()
                <= isize::MAX,
        ensures
            bytes_mut_seq(*final(buf)) == bytes_mut_seq(*old(buf)) + frame_bytes(
                Frame::Unknown(*frame)@,
            ),
    {
        let ghost start = bytes_mut_seq(*buf);
        let length = bytes_len(&frame.payload);
        self.write_header(buf, length, frame.frame_type, frame.flags, frame.stream_id);
        bytes_mut_extend(buf, bytes_as_slice(&frame.payload));
        assert(bytes_mut_seq(*buf) =~= start + frame_bytes(Frame::Unknown(*frame)@));
    }

    /// Encode the client connection preface to the buffer.
    pub fn encode_connection_preface(&self, buf: &mut BytesMut)
        requires
            bytes_mut_seq(*old(buf)).len() + 24 <= isize::MAX,
        ensures
            bytes_mut_seq(*final(buf)) == bytes_mut_seq(*old(buf)) + CONNECTION_PREFACE@,
    {
        bytes_mut_extend(buf, &CONNECTION_PREFACE);
    }

    /// Encode a SETTINGS frame with common client settings.
    pub fn encode_client_settings(&self, buf: &mut BytesMut, settings: &[Setting])
        requires
            bytes_mut_seq(*old(buf)).len() + 9 + 6 * settings@.len() <= isize::MAX,
        ensures
            bytes_mut_seq(*final(buf)) == bytes_mut_seq(*old(buf)) + frame_bytes(
                FrameView::Settings { ack: false, settings: settings@ },
            ),
    {
        proof {
            lemma_settings_bytes_len(settings@);
        }
        let frame = SettingsFrame { ack: false, settings: vstd::slice::slice_to_vec(settings) };
        self.encode(&Frame::Settings(frame), buf);
    }

    /// Encode a SETTINGS ACK frame.
    pub fn encode_settings_ack(&self, buf: &mut BytesMut)
        requires
            bytes_mut_seq(*old(buf)).len() + 9 <= isize::MAX,
        ensures
            bytes_mut_seq(*final(buf)) == bytes_mut_seq(*old(buf)) + frame_bytes(
                FrameView::Settings { ack: true, settings: Seq::empty() },
            ),
    {
        let frame = SettingsFrame { ack: true, settings: Vec::new() };
        proof {
            assert(frame.settings@ =~= Seq::<Setting>::empty());
        }
        self.encode(&Frame::Settings(frame), buf);
    }

    /// Encode a PING response (ACK).
    pub fn encode_ping_ack(&self, data: [u8; 8], buf: &mut BytesMut)
        requires
            bytes_mut_seq(*old(buf)).len() + 17 <= isize::MAX,
        ensures
            bytes_mut_seq(*final(buf)) == bytes_mut_seq(*old(buf)) + frame_bytes(
                FrameView::Ping { ack: true, data: data@ },
            ),
    {
        let frame = PingFrame { ack: true, data };
        self.encode(&Frame::Ping(frame), buf);
    }

    /// Encode a WINDOW_UPDATE frame directly.
    pub fn write_window_update(&self, stream_id: StreamId, increment: u32, buf: &mut BytesMut)
        requires
            bytes_mut_seq(*old(buf)).len() + 13 <= isize::MAX,
        ensures
            bytes_mut_seq(*final(buf)) == bytes_mut_seq(*old(buf)) + frame_bytes(
                FrameView::WindowUpdate { stream_id: stream_id.0, increment },
            ),
    {
        let frame = WindowUpdateFrame { stream_id, increment };
        self.encode(&Frame::WindowUpdate(frame), buf);
    }

    /// Encode a RST_STREAM frame directly.
    pub fn write_rst_stream(&self, stream_id: StreamId, error_code: u32, buf: &mut BytesMut)
        requires
            bytes_mut_seq(*old(buf)).len() + 13 <= isize::MAX,
        ensures
            bytes_mut_seq(*final(buf)) == bytes_mut_seq(*old(buf)) + frame_bytes(
                FrameView::RstStream { stream_id: stream_id.0, error_code },
            ),
    {
        let frame = RstStreamFrame { stream_id, error_code };
        self.encode(&Frame::RstStream(frame), buf);
    }

    /// Encode a GOAWAY frame directly.
    pub fn write_goaway(
        &self,
        last_stream_id: StreamId,
        error_code: u32,
        debug_data: &[u8],
        buf: &mut BytesMut,
    )
        requires
            bytes_mut_seq(*old(buf)).len() + 17 + debug_data@.len() <= isize::MAX,
        ensures
            bytes_mut_seq(*final(buf)) == bytes_mut_seq(*old(buf)) + frame_bytes(
                FrameView::GoAway {
                    last_stream_id: last_stream_id.0,
                    error_code,
                    debug_data: debug_data@,
                },
            ),
    {
        let frame = GoAwayFrame {
            last_stream_id,
            error_code,
            debug_data: bytes_copy_from_slice(debug_data),
        };
        self.encode(&Frame::GoAway(frame), buf);
    }
}

/// Each setting takes six bytes.
pub proof fn lemma_settings_bytes_len(s: Seq<Setting>)
    ensures
        settings_bytes(s).len() == 6 * s.len(),
    decreases s.len(),
{
    if s.len() > 0 {
        lemma_settings_bytes_len(s.drop_last());
    }
}

} // verus!
