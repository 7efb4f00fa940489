//! What passes between a client connection and a server connection.
use vstd::prelude::*;
use crate::frame::decode::frame_decoding;
use crate::frame::encode::frame_bytes;
use crate::frame::roundtrip::lemma_frame_roundtrip;
use crate::frame::FrameView;
use crate::hpack::{block_encoding, lemma_hpack_roundtrip, round_trips, table_ok};
use super::client::{
    client_frame_done, client_frames_processed, client_headers_handled, client_with_read,
    request_started, ClientView,
};
use super::model::{data_counted, data_sent, headers_sent, CoreView, EventView};
use super::server::{
    server_frame_handled, server_frames_processed, server_headers_handled, with_read, ServerView,
};

verus! {

/// What the client sends when it starts a request, the server receives as
/// that request. Fed the HEADERS frame that `start_request` writes, a server
/// whose HPACK decoder table matches the client's encoder table reports the
/// same header fields, on the same stream and with the same END_STREAM
/// flag; the stream opens on the server, and the two HPACK tables stay
/// equal, so the next request goes through in the same way.
///
/// The header fields are those that HPACK encodes and decodes back (see
/// `round_trips`), and the header block fits in a
/// frame the server accepts.
#[verifier::rlimit(50)]
#[verifier::spinoff_prover]
pub proof fn lemma_request_delivered(
    c: ClientView,
    s: ServerView,
    hs: Seq<(Seq<u8>, Seq<u8>)>,
    end_stream: bool,
)
    requires
        table_ok(c.core.hpack_encoder.table),
        s.core.hpack_decoder.table == c.core.hpack_encoder.table,
        forall|i: int| 0 <= i < hs.len() ==> round_trips(#[trigger] hs[i], c.core.hpack_encoder.use_huffman),
        c.next_stream_id % 2 == 1,
        s.last_client_stream_id < c.next_stream_id < 0x8000_0000,
        s.core.read.len() == 0,
        block_encoding(c.core.hpack_encoder, hs).0.len() <= s.core.decoder_max_frame,
        block_encoding(c.core.hpack_encoder, hs).0.len() < 0x1000000,
    ensures
        ({
            let c2 = request_started(c, hs, end_stream);
            let sent = c2.core.write.skip(c.core.write.len() as int);
            let s2 = server_frames_processed(with_read(s, sent));
            &&& s2.core.events == s.core.events.push(
                EventView::Headers { stream_id: c.next_stream_id, headers: hs, end_stream },
            )
            &&& s2.core.streams.contains_key(c.next_stream_id)
            &&& s2.last_client_stream_id == c.next_stream_id
            &&& s2.core.hpack_decoder.table == c2.core.hpack_encoder.table
            &&& s2.core.read.len() == 0
        }),
{
    let id = c.next_stream_id;
    let (block, enc2) = block_encoding(c.core.hpack_encoder, hs);
    let f = FrameView::Headers {
        stream_id: id,
        end_stream,
        end_headers: true,
        priority: None,
        header_block: block,
    };
    let c2 = request_started(c, hs, end_stream);
    let sent = c2.core.write.skip(c.core.write.len() as int);
    assert(sent =~= frame_bytes(f));
    let max = s.core.decoder_max_frame;
    lemma_frame_roundtrip(f, max, Seq::empty());
    assert(frame_bytes(f) + Seq::<u8>::empty() =~= frame_bytes(f));
    lemma_hpack_roundtrip(c.core.hpack_encoder, s.core.hpack_decoder, hs);

    let v = with_read(s, sent);
    let n = frame_bytes(f).len();
    let v1 = with_read(v, sent.skip(n as int));
    assert(sent.skip(n as int) =~= Seq::<u8>::empty());
    reveal(server_headers_handled);
    let h = server_headers_handled(v1, id, end_stream, block);
    assert(h.core.read.len() == 0);
    let v2 = with_read(h, sent.skip(n as int));
    assert(v2 == h);
    reveal_with_fuel(server_frames_processed, 2);
    assert(server_frames_processed(v) == server_frames_processed(v2));
    assert(server_frames_processed(v2) == with_read(v2, v2.core.read.skip(0)));
    assert(v2.core.read.skip(0) =~= v2.core.read);
}

/// What the server sends as a response's header fields, the client
/// receives: fed the HEADERS frame that `send_headers` writes, a client
/// whose HPACK decoder table matches the server's encoder table reports the
/// same header fields on the same stream, with the same END_STREAM flag,
/// and the two tables stay equal. Whatever the transport takes meanwhile
/// (`flushes`) plays no part, as a HEADERS frame makes the client send
/// nothing.
#[verifier::rlimit(50)]
#[verifier::spinoff_prover]
pub proof fn lemma_response_delivered(
    s: CoreView,
    c: ClientView,
    stream_id: u32,
    hs: Seq<(Seq<u8>, Seq<u8>)>,
    end_stream: bool,
    flushes: Seq<nat>,
)
    requires
        table_ok(s.hpack_encoder.table),
        c.core.hpack_decoder.table == s.hpack_encoder.table,
        forall|i: int| 0 <= i < hs.len() ==> round_trips(#[trigger] hs[i], s.hpack_encoder.use_huffman),
        0 < stream_id < 0x8000_0000,
        c.core.read.len() == 0,
        block_encoding(s.hpack_encoder, hs).0.len() <= c.core.decoder_max_frame,
        block_encoding(s.hpack_encoder, hs).0.len() < 0x1000000,
    ensures
        ({
            let s2 = headers_sent(s, stream_id, hs, end_stream);
            let sent = s2.write.skip(s.write.len() as int);
            let c2 = client_frames_processed(client_with_read(c, sent), flushes);
            &&& c2.core.events == c.core.events.push(
                EventView::Headers { stream_id, headers: hs, end_stream },
            )
            &&& c2.core.hpack_decoder.table == s2.hpack_encoder.table
            &&& c2.core.write == c.core.write
            &&& c2.core.read.len() == 0
        }),
{
    let (block, enc2) = block_encoding(s.hpack_encoder, hs);
    let f = FrameView::Headers {
        stream_id,
        end_stream,
        end_headers: true,
        priority: None,
        header_block: block,
    };
    let s2 = headers_sent(s, stream_id, hs, end_stream);
    let sent = s2.write.skip(s.write.len() as int);
    assert(sent =~= frame_bytes(f));
    let max = c.core.decoder_max_frame;
    lemma_frame_roundtrip(f, max, Seq::empty());
    assert(frame_bytes(f) + Seq::<u8>::empty() =~= frame_bytes(f));
    lemma_hpack_roundtrip(s.hpack_encoder, c.core.hpack_decoder, hs);

    let v = client_with_read(c, sent);
    let n = frame_bytes(f).len();
    let v1 = client_with_read(v, sent.skip(n as int));
    assert(sent.skip(n as int) =~= Seq::<u8>::empty());
    reveal(client_headers_handled);
    let k = if flushes.len() > 0 {
        flushes[0]
    } else {
        0
    };
    let h = client_frame_done(v1, f, k);
    assert(h == client_headers_handled(v1, stream_id, end_stream, block));
    let v2 = client_with_read(h, sent.skip(n as int));
    assert(v2 == h);
    reveal_with_fuel(client_frames_processed, 2);
    assert(client_frames_processed(v, flushes) == client_frames_processed(v2, flushes.drop_first()));
    assert(v2.core.read.skip(0) =~= v2.core.read);
}

/// What the server sends as DATA, the client receives: fed the DATA frame
/// that `send_data` writes for the first `n` bytes of `data`, the client
/// reports those bytes on the same stream, ending the stream exactly when
/// they were the last bytes of a send with END_STREAM. (Before that report
/// it may report a flow control error, and it may answer with a
/// WINDOW_UPDATE, which the transport takes some of.)
#[verifier::rlimit(50)]
#[verifier::spinoff_prover]
pub proof fn lemma_data_delivered(
    s: CoreView,
    c: ClientView,
    stream_id: u32,
    data: Seq<u8>,
    n: nat,
    end_stream: bool,
    flushes: Seq<nat>,
)
    requires
        0 < stream_id < 0x8000_0000,
        n <= data.len(),
        n <= c.core.decoder_max_frame,
        n < 0x1000000,
        c.core.read.len() == 0,
    ensures
        ({
            let s2 = data_sent(s, stream_id, data, n, end_stream);
            let sent = s2.write.skip(s.write.len() as int);
            let c2 = client_frames_processed(client_with_read(c, sent), flushes);
            &&& c2.core.events.len() > c.core.events.len()
            &&& c2.core.events.last() == EventView::Data {
                stream_id,
                data: data.take(n as int),
                end_stream: end_stream && n == data.len(),
            }
            &&& c2.core.read.len() == 0
        }),
{
    let f = FrameView::Data {
        stream_id,
        end_stream: end_stream && n == data.len(),
        data: data.take(n as int),
    };
    let s2 = data_sent(s, stream_id, data, n, end_stream);
    let sent = s2.write.skip(s.write.len() as int);
    assert(sent =~= frame_bytes(f));
    let max = c.core.decoder_max_frame;
    lemma_frame_roundtrip(f, max, Seq::empty());
    assert(frame_bytes(f) + Seq::<u8>::empty() =~= frame_bytes(f));

    let v = client_with_read(c, sent);
    let len = frame_bytes(f).len();
    let v1 = client_with_read(v, sent.skip(len as int));
    assert(sent.skip(len as int) =~= Seq::<u8>::empty());
    let k = if flushes.len() > 0 {
        flushes[0]
    } else {
        0
    };
    let h = client_frame_done(v1, f, k);
    let dc = data_counted(v1.core, stream_id, end_stream && n == data.len(), data.take(n as int));
    assert(dc.read == v1.core.read && dc.events.len() >= v1.core.events.len()) by {
        reveal(data_counted);
    }
    assert(h.core.events == dc.events.push(
        EventView::Data { stream_id, data: data.take(n as int), end_stream: end_stream && n == data.len() },
    ));
    let v2 = client_with_read(h, sent.skip(len as int));
    assert(v2 == h);
    reveal_with_fuel(client_frames_processed, 2);
    assert(client_frames_processed(v, flushes) == client_frames_processed(v2, flushes.drop_first()));
    assert(v2.core.read.skip(0) =~= v2.core.read);
}

/// What the client sends as DATA, the server receives: fed the DATA frame
/// that `send_data` writes for the first `n` bytes of `data`, the server
/// reports those bytes on the same stream, ending the stream exactly when
/// they were the last bytes of a send with END_STREAM. (Before that report
/// it may report a flow control error, and it may answer with a
/// WINDOW_UPDATE.)
#[verifier::rlimit(50)]
#[verifier::spinoff_prover]
pub proof fn lemma_request_data_delivered(
    c: CoreView,
    s: ServerView,
    stream_id: u32,
    data: Seq<u8>,
    n: nat,
    end_stream: bool,
)
    requires
        0 < stream_id < 0x8000_0000,
        n <= data.len(),
        n <= s.core.decoder_max_frame,
        n < 0x1000000,
        s.core.read.len() == 0,
    ensures
        ({
            let c2 = data_sent(c, stream_id, data, n, end_stream);
            let sent = c2.write.skip(c.write.len() as int);
            let s2 = server_frames_processed(with_read(s, sent));
            &&& s2.core.events.len() > s.core.events.len()
            &&& s2.core.events.last() == EventView::Data {
                stream_id,
                data: data.take(n as int),
                end_stream: end_stream && n == data.len(),
            }
            &&& s2.core.read.len() == 0
        }),
{
    let f = FrameView::Data {
        stream_id,
        end_stream: end_stream && n == data.len(),
        data: data.take(n as int),
    };
    let c2 = data_sent(c, stream_id, data, n, end_stream);
    let sent = c2.write.skip(c.write.len() as int);
    assert(sent =~= frame_bytes(f));
    let max = s.core.decoder_max_frame;
    lemma_frame_roundtrip(f, max, Seq::empty());
    assert(frame_bytes(f) + Seq::<u8>::empty() =~= frame_bytes(f));

    let v = with_read(s, sent);
    let len = frame_bytes(f).len();
    let v1 = with_read(v, sent.skip(len as int));
    assert(sent.skip(len as int) =~= Seq::<u8>::empty());
    let h = server_frame_handled(v1, f);
    let dc = data_counted(v1.core, stream_id, end_stream && n == data.len(), data.take(n as int));
    assert(dc.read == v1.core.read && dc.events.len() >= v1.core.events.len()) by {
        reveal(data_counted);
    }
    let v2 = with_read(h, sent.skip(len as int));
    assert(v2 == h);
    reveal_with_fuel(server_frames_processed, 2);
    assert(server_frames_processed(v) == server_frames_processed(v2));
    assert(v2.core.read.skip(0) =~= v2.core.read);
}

} // verus!
