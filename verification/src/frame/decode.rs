//! HTTP/2 frame decoding.
use vstd::prelude::*;
use bytes::{Bytes, BytesMut};
use crate::buf::{
    bytes_as_slice, bytes_len, bytes_mut_advance, bytes_mut_as_slice, bytes_mut_freeze,
    bytes_mut_len, bytes_mut_seq, bytes_mut_split_to, bytes_seq, bytes_slice,
};
use super::error::FrameError;
use super::flags;
use super::types::{
    ContinuationFrame, DataFrame, Frame, FrameHeader, FrameType, FrameView, GoAwayFrame,
    HeadersFrame, PingFrame, Priority, PriorityFrame, PushPromiseFrame, RstStreamFrame, Setting,
    SettingId, SettingsFrame, StreamId, UnknownFrame, WindowUpdateFrame,
};
use super::wire::{be_u16, be_u24, be_u32, lemma_mask31, read_u16, read_u24, read_u32};
use super::{DEFAULT_MAX_FRAME_SIZE, FRAME_HEADER_SIZE};

verus! {

/// The header at the front of `b` (which holds at least nine bytes).
pub open spec fn wire_header(b: Seq<u8>) -> FrameHeader {
    FrameHeader {
        length: be_u24(b, 0),
        frame_type: b[3],
        flags: b[4],
        stream_id: StreamId((be_u32(b, 5) % 0x8000_0000) as u32),
    }
}

/// A payload length error.
pub open spec fn length_error(h: FrameHeader, expected: int, actual: int) -> FrameError {
    FrameError::InvalidPayloadLength {
        frame_type: h.frame_type,
        expected: expected as usize,
        actual: actual as usize,
    }
}

/// The payload of a padded frame without its pad length byte and padding.
/// The padding may fill all of the payload after the pad length byte; it is
/// an error only when it is longer (RFC 7540 Section 6.1).
pub open spec fn padding_removed(p: Seq<u8>) -> Result<Seq<u8>, FrameError> {
    if p.len() == 0 {
        Err(FrameError::InvalidPadding { pad_length: 0, payload_length: 0 })
    } else if p[0] > p.len() - 1 {
        Err(FrameError::InvalidPadding { pad_length: p[0], payload_length: p.len() as usize })
    } else {
        Ok(p.subrange(1, p.len() - p[0]))
    }
}

/// The payload with padding removed when the PADDED flag is set.
pub open spec fn unpadded(h: FrameHeader, p: Seq<u8>) -> Result<Seq<u8>, FrameError> {
    if h.spec_has_flag(flags::PADDED) {
        padding_removed(p)
    } else {
        Ok(p)
    }
}

/// The priority fields at the front of `q` (which holds at least five
/// bytes): exclusive bit, 31-bit dependency and weight.
pub open spec fn priority_at(q: Seq<u8>) -> Priority {
    Priority {
        exclusive: be_u32(q, 0) >= 0x8000_0000,
        dependency: StreamId((be_u32(q, 0) % 0x8000_0000) as u32),
        weight: q[4],
    }
}

/// The error for a setting whose value is out of range, if it is.
pub open spec fn setting_error(id: SettingId, value: u32) -> Option<FrameError> {
    let bad = match id {
        SettingId::EnablePush => value > 1,
        SettingId::InitialWindowSize => value > 0x7FFF_FFFF,
        SettingId::MaxFrameSize => value < 16_384 || value > 16_777_215,
        _ => false,
    };
    if bad {
        Some(FrameError::InvalidSettingValue { id: id.code(), value })
    } else {
        None
    }
}

/// The setting held in the six bytes at `i`.
pub open spec fn setting_at(p: Seq<u8>, i: int) -> Setting {
    Setting { id: SettingId::spec_from_u16(be_u16(p, i)), value: be_u32(p, i + 2) }
}

/// The settings held from byte `i` on, six bytes each; the first out of
/// range is an error.
pub open spec fn settings_from(p: Seq<u8>, i: int) -> Result<Seq<Setting>, FrameError>
    decreases p.len() - i,
{
    if i < 0 || i + 6 > p.len() {
        Ok(Seq::empty())
    } else {
        let s = setting_at(p, i);
        match setting_error(s.id, s.value) {
            Some(e) => Err(e),
            None => match settings_from(p, i + 6) {
                Ok(rest) => Ok(seq![s] + rest),
                Err(e) => Err(e),
            },
        }
    }
}

/// A frame parsed from its header and payload (RFC 7540 Section 6).
pub open spec fn frame_parsing(h: FrameHeader, p: Seq<u8>) -> Result<FrameView, FrameError> {
    let sid = h.stream_id.0;
    let no_stream = FrameError::StreamIdRequired { frame_type: h.frame_type };
    let on_stream = FrameError::InvalidStreamZero { frame_type: h.frame_type };
    match FrameType::spec_from_u8(h.frame_type) {
        Some(FrameType::Data) => if sid == 0 {
            Err(no_stream)
        } else {
            match unpadded(h, p) {
                Err(e) => Err(e),
                Ok(q) => Ok(
                    FrameView::Data {
                        stream_id: sid,
                        end_stream: h.spec_has_flag(flags::END_STREAM),
                        data: q,
                    },
                ),
            }
        },
        Some(FrameType::Headers) => if sid == 0 {
            Err(no_stream)
        } else {
            match unpadded(h, p) {
                Err(e) => Err(e),
                Ok(q) => if h.spec_has_flag(flags::PRIORITY) && q.len() < 5 {
                    Err(length_error(h, 5, q.len() as int))
                } else {
                    let has = h.spec_has_flag(flags::PRIORITY);
                    Ok(
                        FrameView::Headers {
                            stream_id: sid,
                            end_stream: h.spec_has_flag(flags::END_STREAM),
                            end_headers: h.spec_has_flag(flags::END_HEADERS),
                            priority: if has {
                                Some(priority_at(q))
                            } else {
                                None
                            },
                            header_block: if has {
                                q.skip(5)
                            } else {
                                q
                            },
                        },
                    )
                },
            }
        },
        Some(FrameType::Priority) => if sid == 0 {
            Err(no_stream)
        } else if p.len() != 5 {
            Err(length_error(h, 5, p.len() as int))
        } else {
            Ok(FrameView::Priority { stream_id: sid, priority: priority_at(p) })
        },
        Some(FrameType::RstStream) => if sid == 0 {
            Err(no_stream)
        } else if p.len() != 4 {
            Err(length_error(h, 4, p.len() as int))
        } else {
            Ok(FrameView::RstStream { stream_id: sid, error_code: be_u32(p, 0) })
        },
        Some(FrameType::Settings) => {
            let ack = h.spec_has_flag(flags::ACK);
            if sid != 0 {
                Err(on_stream)
            } else if ack && p.len() != 0 {
                Err(length_error(h, 0, p.len() as int))
            } else if p.len() % 6 != 0 {
                Err(length_error(h, ((p.len() / 6) * 6) as int, p.len() as int))
            } else {
                match settings_from(p, 0) {
                    Err(e) => Err(e),
                    Ok(s) => Ok(FrameView::Settings { ack, settings: s }),
                }
            }
        },
        Some(FrameType::PushPromise) => if sid == 0 {
            Err(no_stream)
        } else {
            match unpadded(h, p) {
                Err(e) => Err(e),
                Ok(q) => if q.len() < 4 {
                    Err(length_error(h, 4, q.len() as int))
                } else {
                    Ok(
                        FrameView::PushPromise {
                            stream_id: sid,
                            end_headers: h.spec_has_flag(flags::END_HEADERS),
                            promised_stream_id: (be_u32(q, 0) % 0x8000_0000) as u32,
                            header_block: q.skip(4),
                        },
                    )
                },
            }
        },
        Some(FrameType::Ping) => if sid != 0 {
            Err(on_stream)
        } else if p.len() != 8 {
            Err(length_error(h, 8, p.len() as int))
        } else {
            Ok(FrameView::Ping { ack: h.spec_has_flag(flags::ACK), data: p })
        },
        Some(FrameType::GoAway) => if sid != 0 {
            Err(on_stream)
        } else if p.len() < 8 {
            Err(length_error(h, 8, p.len() as int))
        } else {
            Ok(
                FrameView::GoAway {
                    last_stream_id: (be_u32(p, 0) % 0x8000_0000) as u32,
                    error_code: be_u32(p, 4),
                    debug_data: p.skip(8),
                },
            )
        },
        Some(FrameType::WindowUpdate) => if p.len() != 4 {
            Err(length_error(h, 4, p.len() as int))
        } else if be_u32(p, 0) % 0x8000_0000 == 0 {
            Err(FrameError::InvalidWindowIncrement { increment: 0 })
        } else {
            Ok(
                FrameView::WindowUpdate {
                    stream_id: sid,
                    increment: (be_u32(p, 0) % 0x8000_0000) as u32,
                },
            )
        },
        Some(FrameType::Continuation) => if sid == 0 {
            Err(no_stream)
        } else {
            Ok(
                FrameView::Continuation {
                    stream_id: sid,
                    end_headers: h.spec_has_flag(flags::END_HEADERS),
                    header_block: p,
                },
            )
        },
        None => Ok(
            FrameView::Unknown {
                frame_type: h.frame_type,
                flags: h.flags,
                stream_id: sid,
                payload: p,
            },
        ),
    }
}

/// What decoding the front of `b` gives with frame size limit `max`: the
/// frame, `None` when more bytes are needed, or the error; and how many
/// bytes are consumed. A frame over the limit is refused before anything is
/// consumed; a complete frame is consumed whether it parses or not.
pub open spec fn frame_decoding(max: u32, b: Seq<u8>) -> (
    Result<Option<FrameView>, FrameError>,
    nat,
) {
    if b.len() < 9 {
        (Ok(None), 0)
    } else {
        let h = wire_header(b);
        if h.length > max {
            (Err(FrameError::FrameTooLarge { size: h.length, max }), 0)
        } else if b.len() < 9 + h.length {
            (Ok(None), 0)
        } else {
            let res = match frame_parsing(h, b.subrange(9, 9 + h.length)) {
                Ok(f) => Ok(Some(f)),
                Err(e) => Err(e),
            };
            (res, (9 + h.length) as nat)
        }
    }
}

/// What every frame that the decoder gives out satisfies: the values of
/// its settings are in range.
pub open spec fn received_ok(f: FrameView) -> bool {
    match f {
        FrameView::Settings { settings, .. } => forall|k: int|
            0 <= k < settings.len() ==> (#[trigger] setting_error(settings[k].id, settings[k].value))
                is None,
        _ => true,
    }
}

proof fn lemma_settings_from_ok(p: Seq<u8>, i: int)
    ensures
        settings_from(p, i) matches Ok(s) ==> forall|k: int|
            0 <= k < s.len() ==> (#[trigger] setting_error(s[k].id, s[k].value)) is None,
    decreases p.len() - i,
{
    if !(i < 0 || i + 6 > p.len()) {
        lemma_settings_from_ok(p, i + 6);
        let x = setting_at(p, i);
        if let Ok(s) = settings_from(p, i) {
            if let Ok(rest) = settings_from(p, i + 6) {
                assert(s == seq![x] + rest);
                assert forall|k: int| 0 <= k < s.len() implies (#[trigger] setting_error(
                    s[k].id,
                    s[k].value,
                )) is None by {
                    if k > 0 {
                        assert(s[k] == rest[k - 1]);
                    }
                }
            }
        }
    }
}

/// Every frame that parsing gives satisfies `received_ok`.
pub proof fn lemma_parsed_frame_ok(h: FrameHeader, p: Seq<u8>)
    ensures
        frame_parsing(h, p) matches Ok(f) ==> received_ok(f),
{
    lemma_settings_from_ok(p, 0);
}

/// A decoding result with the frame taken by its view.
pub open spec fn decoded_view(r: Result<Option<Frame>, FrameError>) -> Result<
    Option<FrameView>,
    FrameError,
> {
    match r {
        Ok(Some(f)) => Ok(Some(f@)),
        Ok(None) => Ok(None),
        Err(e) => Err(e),
    }
}

/// A parsing result with the frame taken by its view.
pub open spec fn parsed_view(r: Result<Frame, FrameError>) -> Result<FrameView, FrameError> {
    match r {
        Ok(f) => Ok(f@),
        Err(e) => Err(e),
    }
}

/// Frame decoder that parses HTTP/2 frames from a byte buffer.
pub struct FrameDecoder {
    max_frame_size: u32,
}

impl View for FrameDecoder {
    /// The largest payload the decoder accepts.
    type V = u32;

    closed spec fn view(&self) -> u32 {
        self.max_frame_size
    }
}

impl Default for FrameDecoder {
    fn default() -> (r: Self)
        ensures
            r@ == DEFAULT_MAX_FRAME_SIZE,
    {
        Self::new()
    }
}

impl FrameDecoder {
    /// Create a new frame decoder with default settings.
    pub fn new() -> (r: Self)
        ensures
            r@ == DEFAULT_MAX_FRAME_SIZE,
    {
        Self { max_frame_size: DEFAULT_MAX_FRAME_SIZE }
    }

    /// Set the maximum frame size.
    pub fn set_max_frame_size(&mut self, size: u32)
        ensures
            final(self)@ == size,
    {
        self.max_frame_size = size;
    }

    /// Try to decode a frame from the buffer.
    ///
    /// Returns `Ok(Some(frame))` if a complete frame was decoded,
    /// `Ok(None)` if more data is needed, or `Err` on protocol error.
    ///
    /// On success, the consumed bytes are removed from the buffer.
    pub fn decode(&self, buf: &mut BytesMut) -> (r: Result<Option<Frame>, FrameError>)
        ensures
            ({
                let (res, n) = frame_decoding(self@, bytes_mut_seq(*old(buf)));
                &&& decoded_view(r) == res
                &&& bytes_mut_seq(*final(buf)) == bytes_mut_seq(*old(buf)).skip(n as int)
            }),
            r matches Ok(Some(f)) ==> received_ok(f@),
    {
        let ghost start = bytes_mut_seq(*buf);
        assert(start.skip(0) =~= start);
        // Need at least the header
        if bytes_mut_len(buf) < FRAME_HEADER_SIZE {
            return Ok(None);
        }
        // Parse header without consuming
        let header = match self.peek_header(bytes_mut_as_slice(buf)) {
            Ok(h) => h,
            Err(e) => return Err(e),
        };
        // Check frame size limit
        if header.length > self.max_frame_size {
            return Err(FrameError::FrameTooLarge { size: header.length, max: self.max_frame_size });
        }
        // Check if we have the full frame
        let total_len: usize = FRAME_HEADER_SIZE + header.length as usize;
        if bytes_mut_len(buf) < total_len {
            return Ok(None);
        }
        // Consume the header
        bytes_mut_advance(buf, FRAME_HEADER_SIZE);
        // Extract payload
        let payload = bytes_mut_freeze(bytes_mut_split_to(buf, header.length as usize));
        proof {
            assert(bytes_seq(payload) =~= start.subrange(9, 9 + header.length));
            assert(bytes_mut_seq(*buf) =~= start.skip(total_len as int));
            lemma_parsed_frame_ok(header, bytes_seq(payload));
        }
        // Parse the frame based on type
        match self.parse_frame(header, payload) {
            Ok(frame) => Ok(Some(frame)),
            Err(e) => Err(e),
        }
    }

    /// Peek at the frame header without consuming bytes.
    fn peek_header(&self, buf: &[u8]) -> (r: Result<FrameHeader, FrameError>)
        requires
            buf@.len() >= FRAME_HEADER_SIZE,
        ensures
            r == Ok::<FrameHeader, FrameError>(wire_header(buf@)),
    {
        // Length is 24 bits (3 bytes), big-endian
        let length = read_u24(buf, 0);
        let frame_type = buf[3];
        let flags = buf[4];
        // Stream ID is 31 bits (4 bytes), big-endian, high bit reserved
        let raw = read_u32(buf, 5);
        proof {
            lemma_mask31(raw);
        }
        let stream_id = StreamId::new(raw);
        Ok(FrameHeader { length, frame_type, flags, stream_id })
    }

    /// Parse a frame given its header and payload.
    fn parse_frame(&self, header: FrameHeader, payload: Bytes) -> (r: Result<Frame, FrameError>)
        ensures
            parsed_view(r) == frame_parsing(header, bytes_seq(payload)),
    {
        match FrameType::from_u8(header.frame_type) {
            Some(FrameType::Data) => self.parse_data(header, payload),
            Some(FrameType::Headers) => self.parse_headers(header, payload),
            Some(FrameType::Priority) => self.parse_priority(header, payload),
            Some(FrameType::RstStream) => self.parse_rst_stream(header, payload),
            Some(FrameType::Settings) => self.parse_settings(header, payload),
            Some(FrameType::PushPromise) => self.parse_push_promise(header, payload),
            Some(FrameType::Ping) => self.parse_ping(header, payload),
            Some(FrameType::GoAway) => self.parse_goaway(header, payload),
            Some(FrameType::WindowUpdate) => self.parse_window_update(header, payload),
            Some(FrameType::Continuation) => self.parse_continuation(header, payload),
            None => Ok(
                Frame::Unknown(
                    UnknownFrame {
                        frame_type: header.frame_type,
                        flags: header.flags,
                        stream_id: header.stream_id,
                        payload,
                    },
                ),
            ),
        }
    }

    /// Parse DATA frame.
    fn parse_data(&self, header: FrameHeader, payload: Bytes) -> (r: Result<Frame, FrameError>)
        requires
            FrameType::spec_from_u8(header.frame_type) == Some(FrameType::Data),
        ensures
            parsed_view(r) == frame_parsing(header, bytes_seq(payload)),
    {
        // DATA frames must not be sent on stream 0
        if header.stream_id.is_connection_level() {
            return Err(FrameError::StreamIdRequired { frame_type: header.frame_type });
        }
        let end_stream = header.has_flag(flags::END_STREAM);
        let padded = header.has_flag(flags::PADDED);
        let data = if padded {
            match self.remove_padding(payload) {
                Ok(d) => d,
                Err(e) => return Err(e),
            }
        } else {
            payload
        };
        Ok(Frame::Data(DataFrame { stream_id: header.stream_id, end_stream, data }))
    }

    /// Parse HEADERS frame.
    fn parse_headers(&self, header: FrameHeader, payload: Bytes) -> (r: Result<Frame, FrameError>)
        requires
            FrameType::spec_from_u8(header.frame_type) == Some(FrameType::Headers),
        ensures
            parsed_view(r) == frame_parsing(header, bytes_seq(payload)),
    {
        // HEADERS frames must not be sent on stream 0
        if header.stream_id.is_connection_level() {
            return Err(FrameError::StreamIdRequired { frame_type: header.frame_type });
        }
        let end_stream = header.has_flag(flags::END_STREAM);
        let end_headers = header.has_flag(flags::END_HEADERS);
        let padded = header.has_flag(flags::PADDED);
        let has_priority = header.has_flag(flags::PRIORITY);
        let payload = if padded {
            match self.remove_padding(payload) {
                Ok(d) => d,
                Err(e) => return Err(e),
            }
        } else {
            payload
        };
        if has_priority {
            let len = bytes_len(&payload);
            if len < 5 {
                return Err(
                    FrameError::InvalidPayloadLength {
                        frame_type: header.frame_type,
                        expected: 5,
                        actual: len,
                    },
                );
            }
            let priority = read_priority(bytes_as_slice(&payload));
            let header_block = bytes_slice(&payload, 5, len);
            proof {
                assert(bytes_seq(header_block) =~= bytes_seq(payload).skip(5));
            }
            Ok(
                Frame::Headers(
                    HeadersFrame {
                        stream_id: header.stream_id,
                        end_stream,
                        end_headers,
                        priority: Some(priority),
                        header_block,
                    },
                ),
            )
        } else {
            Ok(
                Frame::Headers(
                    HeadersFrame {
                        stream_id: header.stream_id,
                        end_stream,
                        end_headers,
                        priority: None,
                        header_block: payload,
                    },
                ),
            )
        }
    }

    /// Parse PRIORITY frame.
    fn parse_priority(&self, header: FrameHeader, payload: Bytes) -> (r: Result<Frame, FrameError>)
        requires
            FrameType::spec_from_u8(header.frame_type) == Some(FrameType::Priority),
        ensures
            parsed_view(r) == frame_parsing(header, bytes_seq(payload)),
    {
        // PRIORITY frames must not be sent on stream 0
        if header.stream_id.is_connection_level() {
            return Err(FrameError::StreamIdRequired { frame_type: header.frame_type });
        }
        // PRIORITY frame payload is exactly 5 bytes
        let len = bytes_len(&payload);
        if len != 5 {
            return Err(
                FrameError::InvalidPayloadLength {
                    frame_type: header.frame_type,
                    expected: 5,
                    actual: len,
                },
            );
        }
        let priority = read_priority(bytes_as_slice(&payload));
        Ok(Frame::Priority(PriorityFrame { stream_id: header.stream_id, priority }))
    }

    /// Parse RST_STREAM frame.
    fn parse_rst_stream(&self, header: FrameHeader, payload: Bytes) -> (r: Result<
        Frame,
        FrameError,
    >)
        requires
            FrameType::spec_from_u8(header.frame_type) == Some(FrameType::RstStream),
        ensures
            parsed_view(r) == frame_parsing(header, bytes_seq(payload)),
    {
        // RST_STREAM frames must not be sent on stream 0
        if header.stream_id.is_connection_level() {
            return Err(FrameError::StreamIdRequired { frame_type: header.frame_type });
        }
        // RST_STREAM frame payload is exactly 4 bytes
        let len = bytes_len(&payload);
        if len != 4 {
            return Err(
                FrameError::InvalidPayloadLength {
                    frame_type: header.frame_type,
                    expected: 4,
                    actual: len,
                },
            );
        }
        let error_code = read_u32(bytes_as_slice(&payload), 0);
        Ok(Frame::RstStream(RstStreamFrame { stream_id: header.stream_id, error_code }))
    }

    /// Parse SETTINGS frame.
    fn parse_settings(&self, header: FrameHeader, payload: Bytes) -> (r: Result<Frame, FrameError>)
        requires
            FrameType::spec_from_u8(header.frame_type) == Some(FrameType::Settings),
        ensures
            parsed_view(r) == frame_parsing(header, bytes_seq(payload)),
    {
        // SETTINGS frames must be sent on stream 0
        if !header.stream_id.is_connection_level() {
            return Err(FrameError::InvalidStreamZero { frame_type: header.frame_type });
        }
        let ack = header.has_flag(flags::ACK);
        let len = bytes_len(&payload);
        // ACK SETTINGS must have empty payload
        if ack && len != 0 {
            return Err(
                FrameError::InvalidPayloadLength {
                    frame_type: header.frame_type,
                    expected: 0,
                    actual: len,
                },
            );
        }
        // SETTINGS payload must be a multiple of 6 bytes
        if len % 6 != 0 {
            return Err(
                FrameError::InvalidPayloadLength {
                    frame_type: header.frame_type,
                    expected: (len / 6) * 6,
                    actual: len,
                },
            );
        }
        let bytes = bytes_as_slice(&payload);
        let ghost p = bytes@;
        let mut settings: Vec<Setting> = Vec::with_capacity(len / 6);
        let mut i: usize = 0;
        assert(frame_parsing(header, bytes_seq(payload)) == match settings_from(p, 0) {
            Err(e) => Err(e),
            Ok(s) => Ok(FrameView::Settings { ack, settings: s }),
        });
        while i < len
            invariant
                p == bytes@,
                frame_parsing(header, bytes_seq(payload)) == match settings_from(p, 0) {
                    Err(e) => Err(e),
                    Ok(s) => Ok(FrameView::Settings { ack, settings: s }),
                },
                len == p.len(),
                len % 6 == 0,
                i % 6 == 0,
                i <= len,
                settings_from(p, 0) == match settings_from(p, i as int) {
                    Ok(rest) => Ok(settings@ + rest),
                    Err(e) => Err(e),
                },
            decreases len - i,
        {
            assert(i + 6 <= len) by (nonlinear_arith)
                requires
                    i % 6 == 0,
                    len % 6 == 0,
                    i < len,
            ;
            let id = SettingId::from_u16(read_u16(bytes, i));
            let value = read_u32(bytes, i + 2);
            // Validate certain settings
            match self.validate_setting(id, value) {
                Ok(()) => {},
                Err(e) => {
                    proof {
                        assert(setting_at(p, i as int) == (Setting { id, value }));
                        assert(settings_from(p, i as int) == Err::<Seq<Setting>, FrameError>(e));
                    }
                    return Err(e);
                },
            }
            let ghost before = settings@;
            settings.push(Setting { id, value });
            proof {
                let s = setting_at(p, i as int);
                assert(s == (Setting { id, value }));
                match settings_from(p, i + 6) {
                    Ok(rest) => {
                        assert(before + (seq![s] + rest) =~= settings@ + rest);
                    },
                    Err(e) => {},
                }
            }
            i = i + 6;
        }
        proof {
            assert(settings@ + Seq::<Setting>::empty() =~= settings@);
        }
        Ok(Frame::Settings(SettingsFrame { ack, settings }))
    }

    /// Validate a setting value.
    fn validate_setting(&self, id: SettingId, value: u32) -> (r: Result<(), FrameError>)
        ensures
            match r {
                Ok(()) => setting_error(id, value) is None,
                Err(e) => setting_error(id, value) == Some(e),
            },
    {
        match id {
            SettingId::EnablePush => {
                if value > 1 {
                    return Err(FrameError::InvalidSettingValue { id: id.to_u16(), value });
                }
            },
            SettingId::InitialWindowSize => {
                // Must not exceed 2^31 - 1
                if value > 0x7FFF_FFFF {
                    return Err(FrameError::InvalidSettingValue { id: id.to_u16(), value });
                }
            },
            SettingId::MaxFrameSize => {
                // Must be between 16384 and 16777215
                if value < 16_384 || value > 16_777_215 {
                    return Err(FrameError::InvalidSettingValue { id: id.to_u16(), value });
                }
            },
            _ => {},
        }
        Ok(())
    }

    /// Parse PUSH_PROMISE frame.
    fn parse_push_promise(&self, header: FrameHeader, payload: Bytes) -> (r: Result<
        Frame,
        FrameError,
    >)
        requires
            FrameType::spec_from_u8(header.frame_type) == Some(FrameType::PushPromise),
        ensures
            parsed_view(r) == frame_parsing(header, bytes_seq(payload)),
    {
        // PUSH_PROMISE frames must not be sent on stream 0
        if header.stream_id.is_connection_level() {
            return Err(FrameError::StreamIdRequired { frame_type: header.frame_type });
        }
        let end_headers = header.has_flag(flags::END_HEADERS);
        let padded = header.has_flag(flags::PADDED);
        let payload = if padded {
            match self.remove_padding(payload) {
                Ok(d) => d,
                Err(e) => return Err(e),
            }
        } else {
            payload
        };
        let len = bytes_len(&payload);
        if len < 4 {
            return Err(
                FrameError::InvalidPayloadLength {
                    frame_type: header.frame_type,
                    expected: 4,
                    actual: len,
                },
            );
        }
        let raw = read_u32(bytes_as_slice(&payload), 0);
        proof {
            lemma_mask31(raw);
            lemma_mask31(raw & 0x7FFF_FFFF);
        }
        let promised_stream_id = StreamId::new(raw & 0x7FFF_FFFF);
        let header_block = bytes_slice(&payload, 4, len);
        proof {
            assert(bytes_seq(header_block) =~= bytes_seq(payload).skip(4));
        }
        Ok(
            Frame::PushPromise(
                PushPromiseFrame {
                    stream_id: header.stream_id,
                    end_headers,
                    promised_stream_id,
                    header_block,
                },
            ),
        )
    }

    /// Parse PING frame.
    fn parse_ping(&self, header: FrameHeader, payload: Bytes) -> (r: Result<Frame, FrameError>)
        requires
            FrameType::spec_from_u8(header.frame_type) == Some(FrameType::Ping),
        ensures
            parsed_view(r) == frame_parsing(header, bytes_seq(payload)),
    {
        // PING frames must be sent on stream 0
        if !header.stream_id.is_connection_level() {
            return Err(FrameError::InvalidStreamZero { frame_type: header.frame_type });
        }
        // PING frame payload is exactly 8 bytes
        let len = bytes_len(&payload);
        if len != 8 {
            return Err(
                FrameError::InvalidPayloadLength {
                    frame_type: header.frame_type,
                    expected: 8,
                    actual: len,
                },
            );
        }
        let ack = header.has_flag(flags::ACK);
        let s = bytes_as_slice(&payload);
        let data: [u8; 8] = [s[0], s[1], s[2], s[3], s[4], s[5], s[6], s[7]];
        proof {
            assert(data@ =~= bytes_seq(payload));
        }
        Ok(Frame::Ping(PingFrame { ack, data }))
    }

    /// Parse GOAWAY frame.
    fn parse_goaway(&self, header: FrameHeader, payload: Bytes) -> (r: Result<Frame, FrameError>)
        requires
            FrameType::spec_from_u8(header.frame_type) == Some(FrameType::GoAway),
        ensures
            parsed_view(r) == frame_parsing(header, bytes_seq(payload)),
    {
        // GOAWAY frames must be sent on stream 0
        if !header.stream_id.is_connection_level() {
            return Err(FrameError::InvalidStreamZero { frame_type: header.frame_type });
        }
        // GOAWAY frame payload is at least 8 bytes
        let len = bytes_len(&payload);
        if len < 8 {
            return Err(
                FrameError::InvalidPayloadLength {
                    frame_type: header.frame_type,
                    expected: 8,
                    actual: len,
                },
            );
        }
        let s = bytes_as_slice(&payload);
        let raw = read_u32(s, 0);
        proof {
            lemma_mask31(raw);
            lemma_mask31(raw & 0x7FFF_FFFF);
        }
        let last_stream_id = StreamId::new(raw & 0x7FFF_FFFF);
        let error_code = read_u32(s, 4);
        let debug_data = bytes_slice(&payload, 8, len);
        proof {
            assert(bytes_seq(debug_data) =~= bytes_seq(payload).skip(8));
        }
        Ok(Frame::GoAway(GoAwayFrame { last_stream_id, error_code, debug_data }))
    }

    /// Parse WINDOW_UPDATE frame.
    fn parse_window_update(&self, header: FrameHeader, payload: Bytes) -> (r: Result<
        Frame,
        FrameError,
    >)
        requires
            FrameType::spec_from_u8(header.frame_type) == Some(FrameType::WindowUpdate),
        ensures
            parsed_view(r) == frame_parsing(header, bytes_seq(payload)),
    {
        // WINDOW_UPDATE frame payload is exactly 4 bytes
        let len = bytes_len(&payload);
        if len != 4 {
            return Err(
                FrameError::InvalidPayloadLength {
                    frame_type: header.frame_type,
                    expected: 4,
                    actual: len,
                },
            );
        }
        let raw = read_u32(bytes_as_slice(&payload), 0);
        proof {
            lemma_mask31(raw);
        }
        let increment = raw & 0x7FFF_FFFF;
        // Window increment must be non-zero
        if increment == 0 {
            return Err(FrameError::InvalidWindowIncrement { increment });
        }
        Ok(Frame::WindowUpdate(WindowUpdateFrame { stream_id: header.stream_id, increment }))
    }

    /// Parse CONTINUATION frame.
    fn parse_continuation(&self, header: FrameHeader, payload: Bytes) -> (r: Result<
        Frame,
        FrameError,
    >)
        requires
            FrameType::spec_from_u8(header.frame_type) == Some(FrameType::Continuation),
        ensures
            parsed_view(r) == frame_parsing(header, bytes_seq(payload)),
    {
        // CONTINUATION frames must not be sent on stream 0
        if header.stream_id.is_connection_level() {
            return Err(FrameError::StreamIdRequired { frame_type: header.frame_type });
        }
        let end_headers = header.has_flag(flags::END_HEADERS);
        Ok(
            Frame::Continuation(
                ContinuationFrame { stream_id: header.stream_id, end_headers, header_block: payload },
            ),
        )
    }

    /// Remove padding from a padded frame payload.
    fn remove_padding(&self, payload: Bytes) -> (r: Result<Bytes, FrameError>)
        ensures
            match r {
                Ok(b) => padding_removed(bytes_seq(payload)) == Ok::<Seq<u8>, FrameError>(
                    bytes_seq(b),
                ),
                Err(e) => padding_removed(bytes_seq(payload)) == Err::<Seq<u8>, FrameError>(e),
            },
    {
        let len = bytes_len(&payload);
        if len == 0 {
            return Err(FrameError::InvalidPadding { pad_length: 0, payload_length: 0 });
        }
        let pad = bytes_as_slice(&payload)[0];
        let pad_length = pad as usize;
        // Padding length must not exceed remaining payload
        if pad_length > len - 1 {
            return Err(FrameError::InvalidPadding { pad_length: pad, payload_length: len });
        }
        // Remove padding bytes from the end
        let data = bytes_slice(&payload, 1, len - pad_length);
        Ok(data)
    }
}

/// The priority fields at the front of `s`.
fn read_priority(s: &[u8]) -> (r: Priority)
    requires
        s@.len() >= 5,
    ensures
        r == priority_at(s@),
{
    let first = read_u32(s, 0);
    proof {
        lemma_mask31(first);
        lemma_mask31(first & 0x7FFF_FFFF);
    }
    let exclusive = (first & 0x8000_0000) != 0;
    let dependency = StreamId::new(first & 0x7FFF_FFFF);
    let weight = s[4];
    Priority { exclusive, dependency, weight }
}

} // verus!
