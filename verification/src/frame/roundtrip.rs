//! Decoding what the encoder writes gives the frame back.
use vstd::prelude::*;
use super::decode::{frame_decoding, frame_parsing, priority_at, setting_at, setting_error, settings_from, wire_header};
use super::encode::{
    dependency_word, flag_bit, flags_byte, frame_bytes, header_bytes, payload_bytes, priority_bytes,
    settings_bytes, type_byte,
};
use super::types::{FrameHeader, FrameType, FrameView, Priority, Setting, SettingId, StreamId, lemma_setting_id_roundtrip};
use super::wire::{be_u16, be_u24, be_u32, lemma_bytes_roundtrip, lemma_mask31, u16_bytes, u24_bytes, u32_bytes};

verus! {

/// A priority whose dependency fits in 31 bits.
pub open spec fn priority_ok(p: Priority) -> bool {
    p.dependency.0 < 0x8000_0000
}

/// A frame that decoding gives back unchanged: identifiers fit in 31 bits,
/// the frame is on a stream where its type is allowed, its fields are in
/// range, an unknown frame has a type code that no known type has, and the
/// payload fits within `max` and the 24-bit length field.
pub open spec fn decodable(f: FrameView, max: u32) -> bool {
    &&& payload_bytes(f).len() <= max
    &&& payload_bytes(f).len() < 0x1000000
    &&& f.stream_id() < 0x8000_0000
    &&& match f {
        FrameView::Data { stream_id, .. } => stream_id != 0,
        FrameView::Headers { stream_id, priority, .. } => stream_id != 0 && match priority {
            Some(p) => priority_ok(p),
            None => true,
        },
        FrameView::Priority { stream_id, priority } => stream_id != 0 && priority_ok(priority),
        FrameView::RstStream { stream_id, .. } => stream_id != 0,
        FrameView::Settings { ack, settings } => (ack ==> settings.len() == 0) && forall|i: int|
            0 <= i < settings.len() ==> {
                &&& (#[trigger] settings[i]).id.canonical()
                &&& setting_error(settings[i].id, settings[i].value) is None
            },
        FrameView::PushPromise { stream_id, promised_stream_id, .. } => stream_id != 0
            && promised_stream_id < 0x8000_0000,
        FrameView::Ping { data, .. } => data.len() == 8,
        FrameView::GoAway { last_stream_id, .. } => last_stream_id < 0x8000_0000,
        FrameView::WindowUpdate { increment, .. } => 0 < increment < 0x8000_0000,
        FrameView::Continuation { stream_id, .. } => stream_id != 0,
        FrameView::Unknown { frame_type, .. } => FrameType::spec_from_u8(frame_type) is None,
    }
}

/// What the flag bits of an encoded frame read back as.
proof fn lemma_flag_bits(a: bool, b: bool, c: bool)
    ensures
        flag_bit(a, 0x1) & 0x1 != 0 <==> a,
        flag_bit(a, 0x1) & 0x8 == 0,
        flag_bit(a, 0x4) & 0x4 != 0 <==> a,
        flag_bit(a, 0x4) & 0x8 == 0,
        ({
            let f = flag_bit(a, 0x1) | flag_bit(b, 0x4) | flag_bit(c, 0x20);
            &&& (f & 0x1 != 0 <==> a)
            &&& (f & 0x4 != 0 <==> b)
            &&& (f & 0x20 != 0 <==> c)
            &&& f & 0x8 == 0
        }),
{
    let x: u8 = if a { 1 } else { 0 };
    let y: u8 = if b { 4 } else { 0 };
    let z: u8 = if c { 0x20 } else { 0 };
    let w: u8 = if a { 4 } else { 0 };
    assert(x & 0x1 != 0 <==> x == 1) by (bit_vector)
        requires x == 0 || x == 1;
    assert(x & 0x8 == 0) by (bit_vector)
        requires x == 0 || x == 1;
    assert(w & 0x4 != 0 <==> w == 4) by (bit_vector)
        requires w == 0 || w == 4;
    assert(w & 0x8 == 0) by (bit_vector)
        requires w == 0 || w == 4;
    assert({
        let f = x | y | z;
        &&& (f & 0x1 != 0 <==> x == 1)
        &&& (f & 0x4 != 0 <==> y == 4)
        &&& (f & 0x20 != 0 <==> z == 0x20)
        &&& f & 0x8 == 0
    }) by (bit_vector)
        requires
            x == 0 || x == 1,
            y == 0 || y == 4,
            z == 0 || z == 0x20,
    ;
}

/// The header at the front of an encoded frame reads back as the frame's
/// length, type, flags and stream.
proof fn lemma_header_roundtrip(len: nat, t: u8, fl: u8, sid: u32, rest: Seq<u8>)
    requires
        len < 0x1000000,
        sid < 0x8000_0000,
    ensures
        wire_header(header_bytes(len, t, fl, sid) + rest) == (FrameHeader {
            length: len as u32,
            frame_type: t,
            flags: fl,
            stream_id: StreamId(sid),
        }),
        (header_bytes(len, t, fl, sid) + rest).len() == 9 + rest.len(),
{
    let h = header_bytes(len, t, fl, sid);
    let b = h + rest;
    lemma_bytes_roundtrip(0, (len % 0x1000000) as u32, (sid % 0x8000_0000) as u32);
    assert(b.subrange(0, 3) =~= u24_bytes((len % 0x1000000) as u32));
    assert(b.subrange(5, 9) =~= u32_bytes((sid % 0x8000_0000) as u32));
    assert(be_u24(b, 0) == be_u24(b.subrange(0, 3), 0));
    assert(be_u32(b, 5) == be_u32(b.subrange(5, 9), 0));
}

/// The priority bytes read back as the priority.
proof fn lemma_priority_roundtrip(p: Priority, rest: Seq<u8>)
    requires
        priority_ok(p),
    ensures
        priority_at(priority_bytes(p) + rest) == p,
        priority_bytes(p).len() == 5,
{
    let q = priority_bytes(p) + rest;
    let w = dependency_word(p);
    lemma_bytes_roundtrip(0, 0, w);
    lemma_mask31(p.dependency.0);
    assert(q.subrange(0, 4) =~= u32_bytes(w));
    assert(be_u32(q, 0) == be_u32(q.subrange(0, 4), 0));
    assert(p.dependency.0 % 0x8000_0000 == p.dependency.0);
}

/// A 32-bit word at the front reads back.
proof fn lemma_word_roundtrip(x: u32, rest: Seq<u8>)
    ensures
        be_u32(u32_bytes(x) + rest, 0) == x,
{
    lemma_bytes_roundtrip(0, 0, x);
    assert((u32_bytes(x) + rest).subrange(0, 4) =~= u32_bytes(x));
}

/// The bytes of the settings, taken from the front.
proof fn lemma_settings_bytes_front(s: Seq<Setting>)
    requires
        s.len() > 0,
    ensures
        settings_bytes(s) == u16_bytes(s[0].id.code()) + u32_bytes(s[0].value) + settings_bytes(
            s.skip(1),
        ),
    decreases s.len(),
{
    if s.len() == 1 {
        assert(s.drop_last() =~= Seq::<Setting>::empty());
        assert(s.skip(1) =~= Seq::<Setting>::empty());
        assert(settings_bytes(s.drop_last()) =~= Seq::<u8>::empty());
    } else {
        lemma_settings_bytes_front(s.drop_last());
        assert(s.drop_last().skip(1) =~= s.skip(1).drop_last());
        assert(s.drop_last()[0] == s[0]);
        assert(s.skip(1).last() == s.last());
        assert(settings_bytes(s) =~= u16_bytes(s[0].id.code()) + u32_bytes(s[0].value)
            + settings_bytes(s.skip(1)));
    }
}

/// Settings written after any prefix read back from the prefix's end.
proof fn lemma_settings_roundtrip(pre: Seq<u8>, s: Seq<Setting>)
    requires
        forall|i: int|
            0 <= i < s.len() ==> {
                &&& (#[trigger] s[i]).id.canonical()
                &&& setting_error(s[i].id, s[i].value) is None
            },
    ensures
        settings_from(pre + settings_bytes(s), pre.len() as int) == Ok::<Seq<Setting>, super::error::FrameError>(s),
    decreases s.len(),
{
    let p = pre + settings_bytes(s);
    if s.len() == 0 {
        assert(settings_bytes(s) =~= Seq::<u8>::empty());
        assert(s =~= Seq::<Setting>::empty());
    } else {
        let x = s[0];
        let t = s.skip(1);
        lemma_settings_bytes_front(s);
        let one = u16_bytes(x.id.code()) + u32_bytes(x.value);
        let pre2 = pre + one;
        assert(p =~= pre2 + settings_bytes(t));
        assert forall|i: int| 0 <= i < t.len() implies {
            &&& (#[trigger] t[i]).id.canonical()
            &&& setting_error(t[i].id, t[i].value) is None
        } by {
            assert(t[i] == s[i + 1]);
        }
        lemma_settings_roundtrip(pre2, t);
        // the setting at the prefix's end
        let i = pre.len() as int;
        lemma_bytes_roundtrip(x.id.code(), 0, x.value);
        assert(p.subrange(i, i + 2) =~= u16_bytes(x.id.code()));
        assert(p.subrange(i + 2, i + 6) =~= u32_bytes(x.value));
        assert(be_u16(p, i) == be_u16(p.subrange(i, i + 2), 0));
        assert(be_u32(p, i + 2) == be_u32(p.subrange(i + 2, i + 6), 0));
        lemma_setting_id_roundtrip(x.id, 0);
        assert(setting_at(p, i) == x);
        assert(seq![x] + t =~= s);
    }
}

/// The payload of an encodable frame parses back as the frame.
#[verifier::rlimit(60)]
#[verifier::spinoff_prover]
proof fn lemma_payload_roundtrip(f: FrameView, max: u32)
    requires
        decodable(f, max),
    ensures
        frame_parsing(
            FrameHeader {
                length: payload_bytes(f).len() as u32,
                frame_type: type_byte(f),
                flags: flags_byte(f),
                stream_id: StreamId(f.stream_id()),
            },
            payload_bytes(f),
        ) == Ok::<FrameView, super::error::FrameError>(f),
{
    let p = payload_bytes(f);
    lemma_flag_bits(true, true, true);
    lemma_flag_bits(false, false, false);
    match f {
        FrameView::Data { end_stream, .. } => {
            lemma_flag_bits(end_stream, false, false);
        },
        FrameView::Headers { end_stream, end_headers, priority, header_block, .. } => {
            lemma_flag_bits(end_stream, end_headers, priority is Some);
            match priority {
                Some(pr) => {
                    lemma_priority_roundtrip(pr, header_block);
                    assert(p.skip(5) =~= header_block);
                },
                None => {},
            }
        },
        FrameView::Priority { priority, .. } => {
            lemma_priority_roundtrip(priority, Seq::empty());
            assert(p =~= priority_bytes(priority) + Seq::<u8>::empty());
        },
        FrameView::RstStream { error_code, .. } => {
            lemma_word_roundtrip(error_code, Seq::empty());
            assert(p =~= u32_bytes(error_code) + Seq::<u8>::empty());
        },
        FrameView::Settings { ack, settings } => {
            lemma_flag_bits(ack, false, false);
            lemma_settings_roundtrip(Seq::empty(), settings);
            assert(Seq::<u8>::empty() + settings_bytes(settings) =~= settings_bytes(settings));
            super::encode::lemma_settings_bytes_len(settings);
            if ack {
                assert(settings =~= Seq::<Setting>::empty());
            }
        },
        FrameView::PushPromise { end_headers, promised_stream_id, header_block, .. } => {
            lemma_flag_bits(end_headers, false, false);
            lemma_word_roundtrip((promised_stream_id % 0x8000_0000) as u32, header_block);
            assert(p.skip(4) =~= header_block);
        },
        FrameView::Ping { ack, .. } => {
            lemma_flag_bits(ack, false, false);
        },
        FrameView::GoAway { last_stream_id, error_code, debug_data } => {
            lemma_word_roundtrip((last_stream_id % 0x8000_0000) as u32, u32_bytes(error_code) + debug_data);
            lemma_word_roundtrip(error_code, debug_data);
            assert(p.skip(4) =~= u32_bytes(error_code) + debug_data);
            assert(be_u32(p, 4) == be_u32(p.skip(4), 0));
            assert(p.skip(8) =~= debug_data);
        },
        FrameView::WindowUpdate { increment, .. } => {
            lemma_word_roundtrip((increment % 0x8000_0000) as u32, Seq::empty());
            assert(p =~= u32_bytes((increment % 0x8000_0000) as u32) + Seq::<u8>::empty());
        },
        FrameView::Continuation { end_headers, .. } => {
            lemma_flag_bits(end_headers, false, false);
        },
        FrameView::Unknown { .. } => {},
    }
}

/// Decoding the bytes that encoding a frame gives, followed by any other
/// bytes, gives the frame back and consumes exactly its bytes — for every
/// frame that the decoder accepts as it is (see `decodable`).
pub proof fn lemma_frame_roundtrip(f: FrameView, max: u32, rest: Seq<u8>)
    requires
        decodable(f, max),
    ensures
        frame_decoding(max, frame_bytes(f) + rest) == (
            Ok::<Option<FrameView>, super::error::FrameError>(Some(f)),
            frame_bytes(f).len(),
        ),
{
    let p = payload_bytes(f);
    let b = frame_bytes(f) + rest;
    let hb = header_bytes(p.len(), type_byte(f), flags_byte(f), f.stream_id());
    assert(b =~= hb + (p + rest));
    lemma_header_roundtrip(p.len(), type_byte(f), flags_byte(f), f.stream_id(), p + rest);
    assert(b.subrange(9, 9 + p.len() as int) =~= p);
    lemma_payload_roundtrip(f, max);
}

/// A SETTINGS acknowledgement is encoded without its settings, so one that
/// carries settings decodes as an acknowledgement with none, consuming
/// exactly its bytes.
pub proof fn lemma_settings_ack_roundtrip(settings: Seq<Setting>, max: u32, rest: Seq<u8>)
    ensures
        frame_decoding(max, frame_bytes(FrameView::Settings { ack: true, settings }) + rest) == (
            Ok::<Option<FrameView>, super::error::FrameError>(
                Some(FrameView::Settings { ack: true, settings: Seq::empty() }),
            ),
            frame_bytes(FrameView::Settings { ack: true, settings }).len(),
        ),
{
    let bare = FrameView::Settings { ack: true, settings: Seq::empty() };
    assert(frame_bytes(FrameView::Settings { ack: true, settings }) == frame_bytes(bare));
    lemma_frame_roundtrip(bare, max, rest);
}

} // verus!
