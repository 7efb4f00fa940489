//! The wire codes and the frame layout of RFC 7540, stated with the
//! numbers the RFC gives.
use vstd::prelude::*;
use super::encode::{frame_bytes, lemma_settings_bytes_len, payload_bytes, settings_bytes};
use super::error::ErrorCode;
use super::flags;
use super::types::{FrameType, FrameView, Setting, SettingId};
use super::decode::{frame_decoding, setting_error};
use super::roundtrip::{decodable, lemma_frame_roundtrip};
use super::wire::lemma_bytes_roundtrip;

verus! {

/// The frame type codes of RFC 7540 Section 6, and no other code names a
/// known type.
pub proof fn lemma_frame_type_codes(byte: u8)
    ensures
        FrameType::Data.code() == 0x0,
        FrameType::Headers.code() == 0x1,
        FrameType::Priority.code() == 0x2,
        FrameType::RstStream.code() == 0x3,
        FrameType::Settings.code() == 0x4,
        FrameType::PushPromise.code() == 0x5,
        FrameType::Ping.code() == 0x6,
        FrameType::GoAway.code() == 0x7,
        FrameType::WindowUpdate.code() == 0x8,
        FrameType::Continuation.code() == 0x9,
        FrameType::spec_from_u8(byte) is None <==> byte > 0x9,
        FrameType::spec_from_u8(byte) matches Some(t) ==> t.code() == byte,
{
}

/// The flag bits of RFC 7540 Section 6.
pub proof fn lemma_flag_values()
    ensures
        flags::END_STREAM == 0x1,
        flags::ACK == 0x1,
        flags::END_HEADERS == 0x4,
        flags::PADDED == 0x8,
        flags::PRIORITY == 0x20,
{
}

/// The setting identifiers of RFC 7540 Section 6.5.2; other codes are
/// kept as unknown settings.
pub proof fn lemma_setting_id_codes(code: u16)
    ensures
        SettingId::HeaderTableSize.code() == 0x1,
        SettingId::EnablePush.code() == 0x2,
        SettingId::MaxConcurrentStreams.code() == 0x3,
        SettingId::InitialWindowSize.code() == 0x4,
        SettingId::MaxFrameSize.code() == 0x5,
        SettingId::MaxHeaderListSize.code() == 0x6,
        SettingId::spec_from_u16(code).code() == code,
        (code == 0 || code > 6) ==> SettingId::spec_from_u16(code) == SettingId::Unknown(code),
{
}

/// The error codes of RFC 7540 Section 7; an unknown code reads as
/// INTERNAL_ERROR.
pub proof fn lemma_error_codes(code: u32)
    ensures
        ErrorCode::NoError.code() == 0x0,
        ErrorCode::ProtocolError.code() == 0x1,
        ErrorCode::InternalError.code() == 0x2,
        ErrorCode::FlowControlError.code() == 0x3,
        ErrorCode::SettingsTimeout.code() == 0x4,
        ErrorCode::StreamClosed.code() == 0x5,
        ErrorCode::FrameSizeError.code() == 0x6,
        ErrorCode::RefusedStream.code() == 0x7,
        ErrorCode::Cancel.code() == 0x8,
        ErrorCode::CompressionError.code() == 0x9,
        ErrorCode::ConnectError.code() == 0xa,
        ErrorCode::EnhanceYourCalm.code() == 0xb,
        ErrorCode::InadequateSecurity.code() == 0xc,
        ErrorCode::Http11Required.code() == 0xd,
        code <= 0xd ==> ErrorCode::spec_from_u32(code).code() == code,
        code > 0xd ==> ErrorCode::spec_from_u32(code) == ErrorCode::InternalError,
{
}

/// The layout of an encoded frame (RFC 7540 Section 4.1): the payload
/// length in three bytes, most significant first; the type code; the
/// flags; the stream identifier in four bytes, most significant first;
/// then the payload.
pub proof fn lemma_frame_layout(f: FrameView)
    requires
        payload_bytes(f).len() < 0x1000000,
        f.stream_id() < 0x8000_0000,
    ensures
        ({
            let b = frame_bytes(f);
            let n = payload_bytes(f).len();
            &&& b.len() == 9 + n
            &&& b[0] * 0x10000 + b[1] * 0x100 + b[2] == n
            &&& b[3] == match f {
                FrameView::Data { .. } => 0x0u8,
                FrameView::Headers { .. } => 0x1u8,
                FrameView::Priority { .. } => 0x2u8,
                FrameView::RstStream { .. } => 0x3u8,
                FrameView::Settings { .. } => 0x4u8,
                FrameView::PushPromise { .. } => 0x5u8,
                FrameView::Ping { .. } => 0x6u8,
                FrameView::GoAway { .. } => 0x7u8,
                FrameView::WindowUpdate { .. } => 0x8u8,
                FrameView::Continuation { .. } => 0x9u8,
                FrameView::Unknown { frame_type, .. } => frame_type,
            }
            &&& b[5] * 0x1000000 + b[6] * 0x10000 + b[7] * 0x100 + b[8] == f.stream_id()
            &&& b.skip(9) == payload_bytes(f)
        }),
{
    let b = frame_bytes(f);
    let n = payload_bytes(f).len();
    lemma_bytes_roundtrip(0, (n % 0x1000000) as u32, f.stream_id());
    assert(b.skip(9) =~= payload_bytes(f));
}

/// The flags byte of an encoded frame (RFC 7540 Section 6): END_STREAM
/// (0x1), END_HEADERS (0x4) and PRIORITY (0x20) on the frames that carry
/// them, ACK (0x1) on SETTINGS and PING, none on the others.
pub proof fn lemma_frame_flags(f: FrameView)
    ensures
        ({
            let fl = frame_bytes(f)[4];
            match f {
                FrameView::Data { end_stream, .. } => fl == if end_stream { 0x1u8 } else { 0x0u8 },
                FrameView::Headers { end_stream, end_headers, priority, .. } => fl as int == (if end_stream { 0x1int } else { 0 }) + (if end_headers { 0x4int } else { 0 }) + (if priority is Some { 0x20int } else { 0 }),
                FrameView::Settings { ack, .. } => fl == if ack { 0x1u8 } else { 0x0u8 },
                FrameView::Ping { ack, .. } => fl == if ack { 0x1u8 } else { 0x0u8 },
                FrameView::PushPromise { end_headers, .. } => fl == if end_headers { 0x4u8 } else { 0x0u8 },
                FrameView::Continuation { end_headers, .. } => fl == if end_headers { 0x4u8 } else { 0x0u8 },
                FrameView::Unknown { flags, .. } => fl == flags,
                _ => fl == 0,
            }
        }),
{
    if let FrameView::Headers { end_stream, end_headers, priority, .. } = f {
        let x: u8 = if end_stream { 1 } else { 0 };
        let y: u8 = if end_headers { 4 } else { 0 };
        let z: u8 = if priority is Some { 0x20 } else { 0 };
        assert((x == 0 || x == 1) && (y == 0 || y == 4) && (z == 0 || z == 0x20) ==> (x | y | z) as int == x + y + z) by (bit_vector);
    }
}

/// The 32-bit number in four bytes, most significant first.
pub open spec fn big_endian4(b: Seq<u8>, i: int) -> int {
    b[i] * 0x1000000 + b[i + 1] * 0x10000 + b[i + 2] * 0x100 + b[i + 3]
}

/// SETTINGS payload (RFC 7540 Section 6.5.1): six bytes per setting, the
/// identifier in two bytes then the value in four, most significant first,
/// in the order of the settings.
pub proof fn lemma_settings_layout(s: Seq<Setting>)
    ensures
        settings_bytes(s).len() == 6 * s.len(),
        forall|i: int|
            0 <= i < s.len() ==> settings_bytes(s)[6 * i] * 0x100 + settings_bytes(s)[6 * i + 1]
                == (#[trigger] s[i]).id.code() && big_endian4(settings_bytes(s), 6 * i + 2)
                == s[i].value,
    decreases s.len(),
{
    lemma_settings_bytes_len(s);
    if s.len() > 0 {
        let p = s.drop_last();
        lemma_settings_layout(p);
        lemma_settings_bytes_len(p);
        let last = s.last();
        lemma_bytes_roundtrip(last.id.code(), 0, last.value);
        assert forall|i: int| 0 <= i < s.len() implies settings_bytes(s)[6 * i] * 0x100
            + settings_bytes(s)[6 * i + 1] == (#[trigger] s[i]).id.code() && big_endian4(
            settings_bytes(s),
            6 * i + 2,
        ) == s[i].value by {
            if i < p.len() {
                assert(s[i] == p[i]);
                assert(settings_bytes(s)[6 * i] == settings_bytes(p)[6 * i]);
                assert(settings_bytes(s)[6 * i + 1] == settings_bytes(p)[6 * i + 1]);
                assert(settings_bytes(s)[6 * i + 2] == settings_bytes(p)[6 * i + 2]);
                assert(settings_bytes(s)[6 * i + 3] == settings_bytes(p)[6 * i + 3]);
                assert(settings_bytes(s)[6 * i + 4] == settings_bytes(p)[6 * i + 4]);
                assert(settings_bytes(s)[6 * i + 5] == settings_bytes(p)[6 * i + 5]);
            }
        }
    }
}

/// The payloads of RFC 7540 Section 6, field by field: numbers are written
/// most significant byte first, and the data, debug data and header blocks
/// follow their fixed fields unchanged.
pub proof fn lemma_payload_layout(f: FrameView)
    ensures
        ({
            let p = payload_bytes(f);
            match f {
                FrameView::Data { data, .. } => p == data,
                FrameView::Ping { data, .. } => p == data,
                FrameView::Continuation { header_block, .. } => p == header_block,
                FrameView::Headers { priority: None, header_block, .. } => p == header_block,
                FrameView::Headers { priority: Some(pr), header_block, .. } => {
                    &&& p.len() == 5 + header_block.len()
                    &&& pr.dependency.0 < 0x8000_0000 ==> big_endian4(p, 0) == pr.dependency.0 + (if pr.exclusive { 0x8000_0000int } else { 0 })
                    &&& p[4] == pr.weight
                    &&& p.skip(5) == header_block
                },
                FrameView::Priority { priority: pr, .. } => {
                    &&& p.len() == 5
                    &&& pr.dependency.0 < 0x8000_0000 ==> big_endian4(p, 0) == pr.dependency.0 + (if pr.exclusive { 0x8000_0000int } else { 0 })
                    &&& p[4] == pr.weight
                },
                FrameView::RstStream { error_code, .. } => p.len() == 4 && big_endian4(p, 0) == error_code,
                FrameView::WindowUpdate { increment, .. } => p.len() == 4 && big_endian4(p, 0)
                    == increment % 0x8000_0000,
                FrameView::PushPromise { promised_stream_id, header_block, .. } => {
                    &&& p.len() == 4 + header_block.len()
                    &&& big_endian4(p, 0) == promised_stream_id % 0x8000_0000
                    &&& p.skip(4) == header_block
                },
                FrameView::GoAway { last_stream_id, error_code, debug_data } => {
                    &&& p.len() == 8 + debug_data.len()
                    &&& big_endian4(p, 0) == last_stream_id % 0x8000_0000
                    &&& big_endian4(p, 4) == error_code
                    &&& p.skip(8) == debug_data
                },
                FrameView::Settings { ack: true, .. } => p.len() == 0,
                FrameView::Settings { ack: false, settings } => p == settings_bytes(settings),
                FrameView::Unknown { payload, .. } => p == payload,
            }
        }),
{
    let p = payload_bytes(f);
    match f {
        FrameView::Headers { priority: Some(pr), header_block, .. } => {
            lemma_dependency_word(pr);
            lemma_bytes_roundtrip(0, 0, super::encode::dependency_word(pr));
            assert(p.skip(5) =~= header_block);
        },
        FrameView::Priority { priority: pr, .. } => {
            lemma_dependency_word(pr);
            lemma_bytes_roundtrip(0, 0, super::encode::dependency_word(pr));
        },
        FrameView::RstStream { error_code, .. } => {
            lemma_bytes_roundtrip(0, 0, error_code);
        },
        FrameView::WindowUpdate { increment, .. } => {
            lemma_bytes_roundtrip(0, 0, (increment % 0x8000_0000) as u32);
        },
        FrameView::PushPromise { promised_stream_id, header_block, .. } => {
            lemma_bytes_roundtrip(0, 0, (promised_stream_id % 0x8000_0000) as u32);
            assert(p.skip(4) =~= header_block);
        },
        FrameView::GoAway { last_stream_id, error_code, debug_data } => {
            lemma_bytes_roundtrip(0, 0, (last_stream_id % 0x8000_0000) as u32);
            let q = super::wire::u32_bytes(error_code);
            lemma_bytes_roundtrip(0, 0, error_code);
            assert(p[4] == q[0] && p[5] == q[1] && p[6] == q[2] && p[7] == q[3]);
            assert(p.skip(8) =~= debug_data);
        },
        _ => {},
    }
}

/// The dependency word carries the exclusive flag in its top bit.
proof fn lemma_dependency_word(pr: super::types::Priority)
    ensures
        pr.dependency.0 < 0x8000_0000 ==> super::encode::dependency_word(pr) as int == pr.dependency.0 + (
            if pr.exclusive { 0x8000_0000int } else { 0 }),
{
    let d = pr.dependency.0;
    assert(d < 0x8000_0000 ==> (d | 0x8000_0000u32) as int == d + 0x8000_0000) by (bit_vector);
}

/// The ranges of RFC 7540 Section 6.5.2: a setting is rejected exactly when
/// ENABLE_PUSH is above 1, INITIAL_WINDOW_SIZE above 2^31 - 1, or
/// MAX_FRAME_SIZE outside 2^14 to 2^24 - 1; any other setting takes every
/// value. The rejection names the setting's code and value.
pub proof fn lemma_setting_ranges(id: SettingId, value: u32)
    ensures
        setting_error(id, value) is None <==> {
            &&& id == SettingId::EnablePush ==> value <= 1
            &&& id == SettingId::InitialWindowSize ==> value <= 0x7fff_ffff
            &&& id == SettingId::MaxFrameSize ==> 16_384 <= value <= 16_777_215
        },
        setting_error(id, value) is Some ==> setting_error(id, value) == Some(
            super::error::FrameError::InvalidSettingValue { id: id.code(), value },
        ),
{
}

/// A SETTINGS frame whose values all lie in the ranges of RFC 7540 Section
/// 6.5.2 (ENABLE_PUSH 0 or 1, INITIAL_WINDOW_SIZE at most 2^31 - 1,
/// MAX_FRAME_SIZE from 2^14 to 2^24 - 1, any value for the others) decodes to
/// exactly its settings, consuming exactly its bytes.
pub proof fn lemma_valid_settings_decode(settings: Seq<Setting>, max: u32, rest: Seq<u8>)
    requires
        6 * settings.len() <= max,
        6 * settings.len() < 0x1000000,
        forall|i: int|
            0 <= i < settings.len() ==> {
                &&& (#[trigger] settings[i]).id.canonical()
                &&& settings[i].id == SettingId::EnablePush ==> settings[i].value <= 1
                &&& settings[i].id == SettingId::InitialWindowSize ==> settings[i].value
                    <= 0x7fff_ffff
                &&& settings[i].id == SettingId::MaxFrameSize ==> 16_384 <= settings[i].value
                    <= 16_777_215
            },
    ensures
        frame_decoding(max, frame_bytes(FrameView::Settings { ack: false, settings }) + rest) == (
            Ok::<Option<FrameView>, super::error::FrameError>(
                Some(FrameView::Settings { ack: false, settings }),
            ),
            frame_bytes(FrameView::Settings { ack: false, settings }).len(),
        ),
{
    let f = FrameView::Settings { ack: false, settings };
    lemma_settings_bytes_len(settings);
    assert forall|i: int| 0 <= i < settings.len() implies setting_error(
        (#[trigger] settings[i]).id,
        settings[i].value,
    ) is None by {
        lemma_setting_ranges(settings[i].id, settings[i].value);
    }
    assert(decodable(f, max));
    lemma_frame_roundtrip(f, max, rest);
}

} // verus!
