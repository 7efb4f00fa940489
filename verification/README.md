# http2-proto

A completion-based HTTP/2 implementation without an async runtime, verified
with Verus: frame encoding and decoding, HPACK header compression (static and
dynamic tables, Huffman coding, prefixed integers), flow control, stream state
and the client and server connection state machines, over a transport
abstraction with plain and TLS (rustls) transports.

Layout:

- `src/frame`: frame types, the decoder and encoder, and the proof that what
  the encoder writes the decoder reads back, for every frame the decoder
  accepts as it is (`decodable`: a payload within the maximum frame size, a
  stream identifier without the reserved bit, the stream rules of its type,
  valid settings); a SETTINGS acknowledgement comes back without settings.
- `src/hpack`: HPACK tables, integers, Huffman coding, the header block
  encoder and decoder, and their round-trip proofs, for header fields whose
  name and value lengths the decoder's integers can hold (below 127 + 128^5).
- `src/connection`: flow control, settings, streams, the spec model of a
  connection (`model.rs`) and the client and server connections.
- `src/transport`: the `Transport` trait, the plain transport and the TLS
  transport. Each transport states the bytes it has accepted so far
  (`accepted`), and the connections' contracts say which of their outgoing
  bytes were handed over, in order.
- `src/buf.rs`, `src/io.rs`: the contracts of the `bytes` buffers and of the
  I/O errors the library uses.
