//! HPACK header compression (RFC 7541).
//!
//! HPACK is the header compression algorithm used by HTTP/2. It uses a
//! static table of 61 common header fields, a dynamic table of recently used
//! headers, Huffman coding for string literals and a variable-length integer
//! encoding.
use vstd::prelude::*;

mod decode;
mod encode;
mod error;
pub mod huffman;
mod huffman_roundtrip;
mod integer;
mod roundtrip;
mod static_entries;
mod table;

pub use decode::{
    block_decoding, decode_string, header_at, header_decoding, literal_decoding, string_decoding,
    DecoderView, HpackDecoder,
};
pub use encode::{
    lemma_header_representation, lemma_string_representation,
    block_encoding, encodable, header_encoding, string_encoding, EncoderView, HpackEncoder,
};
pub use error::{HpackError, HuffmanError};
pub use huffman_roundtrip::lemma_huffman_roundtrip;
pub use static_entries::{
    lemma_static_indices_1_to_20, lemma_static_indices_21_to_40, lemma_static_indices_41_to_61,
};
pub use roundtrip::{lemma_hpack_roundtrip, round_trips, string_fits, table_ok};
pub use table::{
    bytes_eq, entry_size, static_find, static_first_exact, static_first_name, static_name,
    static_value, HeaderField, StaticEntry, StaticTable, DynamicTable, DynamicTableView,
    dynamic_find, dynamic_first_exact, dynamic_first_name, entries_size, evict_to,
    lemma_insert_evicts_oldest, lemma_insert_keeps_table, lemma_resize_keeps_table,
};
pub use integer::{
    base128_value, lemma_integer_representation,
    continuation_bytes, decode_continuation, decode_integer, encode_integer, integer_decoding,
    integer_encoding, lemma_integer_roundtrip, pow128, prefix_max,
};

verus! {

/// Default dynamic table size (4096 bytes).
pub const DEFAULT_TABLE_SIZE: usize = 4096;

} // verus!
