//! A decoder that starts from the encoder's dynamic table reads back the
//! header fields that the encoder wrote, and both tables stay in step.
use vstd::prelude::*;
use super::decode::{block_decoding, header_at, header_decoding, literal_decoding, string_decoding, DecoderView};
use super::encode::{block_encoding, encodable, header_encoding, string_encoding, EncoderView};
use super::error::HpackError;
use super::huffman::{be_bytes, code_bits, huffman_encoded_len, huffman_encoding, padding_len};
use super::huffman_roundtrip::lemma_huffman_roundtrip;
use super::integer::{integer_decoding, integer_encoding, lemma_integer_roundtrip, pow128, prefix_max};
use super::table::{
    dynamic_find, dynamic_first_exact, dynamic_first_name, entry_size, lemma_dynamic_find_in_range,
    lemma_insert_keeps_table, static_find, static_first_exact, static_first_name, static_name,
    static_value, DynamicTableView,
};

verus! {

/// Whether the decoder can read the length of `v` as the encoder writes it
/// (Huffman-coded when `huffman` is set and that is shorter): a string
/// length has a 7-bit prefix and at most five continuation bytes, so it is
/// below `127 + 128^5`.
pub open spec fn string_fits(v: Seq<u8>, huffman: bool) -> bool {
    let field = if huffman && huffman_encoded_len(v) < v.len() {
        huffman_encoded_len(v)
    } else {
        v.len()
    };
    field < 127 + pow128(5)
}

/// A header field that the encoder can take (`encodable`, its limits of
/// `usize`) and whose name and value lengths the decoder reads back.
pub open spec fn round_trips(h: (Seq<u8>, Seq<u8>), huffman: bool) -> bool {
    &&& encodable(h)
    &&& string_fits(h.0, huffman)
    &&& string_fits(h.1, huffman)
}

/// A dynamic table as a header table size setting can make it.
pub open spec fn table_ok(t: DynamicTableView) -> bool {
    &&& t.wf()
    &&& t.max_size <= u32::MAX
}

proof fn lemma_pow128_5()
    ensures
        pow128(5) == 34359738368,
{
    reveal_with_fuel(pow128, 6);
}

proof fn lemma_static_exact(name: Seq<u8>, value: Seq<u8>, i: int)
    ensures
        static_first_exact(name, value, i) matches Some(k) ==> 1 <= k <= 61 && static_name(k) == name
            && static_value(k) == value,
    decreases 62 - i,
{
    if 1 <= i <= 61 {
        lemma_static_exact(name, value, i + 1);
    }
}

proof fn lemma_static_name(name: Seq<u8>, i: int)
    ensures
        static_first_name(name, i) matches Some(k) ==> 1 <= k <= 61 && static_name(k) == name,
    decreases 62 - i,
{
    if 1 <= i <= 61 {
        lemma_static_name(name, i + 1);
    }
}

proof fn lemma_dynamic_exact(
    entries: Seq<(Seq<u8>, Seq<u8>)>,
    name: Seq<u8>,
    value: Seq<u8>,
    i: int,
)
    ensures
        dynamic_first_exact(entries, name, value, i) matches Some(k) ==> 0 <= k < entries.len()
            && entries[k] == (name, value),
    decreases entries.len() - i,
{
    if 0 <= i < entries.len() {
        lemma_dynamic_exact(entries, name, value, i + 1);
    }
}

proof fn lemma_dynamic_name(entries: Seq<(Seq<u8>, Seq<u8>)>, name: Seq<u8>, i: int)
    ensures
        dynamic_first_name(entries, name, i) matches Some(k) ==> 0 <= k < entries.len()
            && entries[k].0 == name,
    decreases entries.len() - i,
{
    if 0 <= i < entries.len() {
        lemma_dynamic_name(entries, name, i + 1);
    }
}

/// The encoded length of a Huffman string is the length of its bytes.
proof fn lemma_huffman_len(v: Seq<u8>)
    ensures
        huffman_encoding(v).len() == huffman_encoded_len(v),
{
    let (c, l) = code_bits(v);
    let p = padding_len(l);
    lemma_be_bytes_len(c * vstd::arithmetic::power2::pow2(p) + (vstd::arithmetic::power2::pow2(p) - 1) as nat, (l + p) / 8);
    assert((l + p) / 8 == (l + 7) / 8);
}

proof fn lemma_be_bytes_len(n: nat, k: nat)
    ensures
        be_bytes(n, k).len() == k,
    decreases k,
{
    if k > 0 {
        lemma_be_bytes_len(n / 256, (k - 1) as nat);
    }
}

/// The first byte of an integer representation carries the flag bits.
proof fn lemma_first_byte(value: nat, n: u8, prefix: u8)
    requires
        (n == 7 && (prefix == 0x80 || prefix == 0)) || (n == 6 && prefix == 0x40),
    ensures
        prefix == 0x80 ==> integer_encoding(value, n, prefix)[0] >= 128,
        prefix == 0 ==> integer_encoding(value, n, prefix)[0] < 128,
        prefix == 0x40 ==> 64 <= integer_encoding(value, n, prefix)[0] < 128,
{
    reveal_with_fuel(prefix_max, 8);
    let m = prefix_max(n);
    let x: u8 = if value < m {
        value as u8
    } else {
        m as u8
    };
    assert(x <= m);
    assert(integer_encoding(value, n, prefix)[0] == prefix | x);
    if prefix == 0x80 {
        assert((0x80u8 | x) >= 128) by (bit_vector);
    } else if prefix == 0 {
        assert((0u8 | x) == x) by (bit_vector);
    } else {
        assert(64 <= (0x40u8 | x) < 128) by (bit_vector)
            requires
                x <= 63,
        ;
    }
}

/// A string literal reads back as the string.
proof fn lemma_string_roundtrip(v: Seq<u8>, huffman: bool, rest: Seq<u8>)
    requires
        string_fits(v, huffman),
        v.len() <= usize::MAX,
    ensures
        string_decoding(string_encoding(v, huffman) + rest) == Ok::<(Seq<u8>, nat), HpackError>(
            (v, string_encoding(v, huffman).len()),
        ),
{
    reveal_with_fuel(prefix_max, 8);
    let enc = string_encoding(v, huffman);
    let data = enc + rest;
    if huffman && huffman_encoded_len(v) < v.len() {
        let hl = huffman_encoded_len(v);
        let he = huffman_encoding(v);
        lemma_huffman_len(v);
        let ie = integer_encoding(hl, 7, 0x80);
        assert(0x80u8 & 127u8 == 0) by (bit_vector);
        lemma_integer_roundtrip(hl, 7, 0x80, he + rest);
        assert(data =~= ie + (he + rest));
        lemma_first_byte(hl, 7, 0x80);
        assert(data.subrange(ie.len() as int, (ie.len() + hl) as int) =~= he);
        lemma_huffman_roundtrip(v);
    } else {
        let ie = integer_encoding(v.len(), 7, 0);
        assert(0u8 & 127u8 == 0) by (bit_vector);
        lemma_integer_roundtrip(v.len(), 7, 0, v + rest);
        assert(data =~= ie + (v + rest));
        lemma_first_byte(v.len(), 7, 0);
        assert(data.subrange(ie.len() as int, (ie.len() + v.len()) as int) =~= v);
    }
}

/// Reading a literal whose name comes from the table at `index`.
proof fn lemma_literal_indexed(
    entries: Seq<(Seq<u8>, Seq<u8>)>,
    index: nat,
    h: (Seq<u8>, Seq<u8>),
    huffman: bool,
    rest: Seq<u8>,
)
    requires
        round_trips(h, huffman),
        index <= 62 + u32::MAX / 32,
        header_at(entries, index) matches Ok(e) && e.0 == h.0,
    ensures
        ({
            let bytes = integer_encoding(index, 6, 0x40) + string_encoding(h.1, huffman);
            literal_decoding(entries, bytes + rest, 6) == Ok::<((Seq<u8>, Seq<u8>), nat), HpackError>(
                (h, bytes.len()),
            )
        }),
{
    reveal_with_fuel(prefix_max, 8);
    lemma_pow128_5();
    let ie = integer_encoding(index, 6, 0x40);
    let se = string_encoding(h.1, huffman);
    let data = ie + se + rest;
    assert(0x40u8 & 63u8 == 0) by (bit_vector);
    lemma_integer_roundtrip(index, 6, 0x40, se + rest);
    assert(data =~= ie + (se + rest));
    assert(data.skip(ie.len() as int) =~= se + rest);
    lemma_string_roundtrip(h.1, huffman, rest);
}

/// Reading a literal with a new name.
#[verifier::rlimit(40)]
#[verifier::spinoff_prover]
proof fn lemma_literal_new(
    entries: Seq<(Seq<u8>, Seq<u8>)>,
    h: (Seq<u8>, Seq<u8>),
    huffman: bool,
    rest: Seq<u8>,
)
    requires
        round_trips(h, huffman),
    ensures
        ({
            let bytes = seq![0x40u8] + string_encoding(h.0, huffman) + string_encoding(h.1, huffman);
            literal_decoding(entries, bytes + rest, 6) == Ok::<((Seq<u8>, Seq<u8>), nat), HpackError>(
                (h, bytes.len()),
            )
        }),
{
    reveal_with_fuel(prefix_max, 8);
    let ne = string_encoding(h.0, huffman);
    let ve = string_encoding(h.1, huffman);
    let data = seq![0x40u8] + ne + ve + rest;
    assert(integer_encoding(0, 6, 0x40) =~= seq![0x40u8]) by {
        assert((0x40u8 | 0u8) == 0x40u8) by (bit_vector);
    }
    assert(0x40u8 & 63u8 == 0) by (bit_vector);
    lemma_integer_roundtrip(0, 6, 0x40, ne + ve + rest);
    assert(data =~= seq![0x40u8] + (ne + ve + rest));
    assert(data.skip(1) =~= ne + (ve + rest));
    lemma_string_roundtrip(h.0, huffman, ve + rest);
    assert(data.skip(1 + ne.len() as int) =~= ve + rest);
    lemma_string_roundtrip(h.1, huffman, rest);
}

/// One header field reads back, and the decoder's table follows the
/// encoder's.
proof fn lemma_header_roundtrip(
    enc: EncoderView,
    dec: DecoderView,
    h: (Seq<u8>, Seq<u8>),
    rest: Seq<u8>,
)
    requires
        table_ok(enc.table),
        dec.table == enc.table,
        round_trips(h, enc.use_huffman),
    ensures
        ({
            let (bytes, enc2) = header_encoding(enc, h);
            &&& bytes.len() > 0
            &&& header_decoding(dec, bytes + rest) == Ok::<
                (Option<(Seq<u8>, Seq<u8>)>, nat, DecoderView),
                HpackError,
            >((Some(h), bytes.len(), DecoderView { table: enc2.table, ..dec }))
            &&& table_ok(enc2.table)
        }),
{
    reveal_with_fuel(prefix_max, 8);
    lemma_pow128_5();
    let entries = enc.table.entries;
    let (bytes, enc2) = header_encoding(enc, h);
    let data = bytes + rest;
    lemma_static_exact(h.0, h.1, 1);
    lemma_static_name(h.0, 1);
    lemma_dynamic_exact(entries, h.0, h.1, 0);
    lemma_dynamic_name(entries, h.0, 0);
    lemma_dynamic_find_in_range(entries, h.0, h.1);
    lemma_insert_keeps_table(enc.table, h);
    lemma_entries_count(entries);
    assert(entries.len() * 32 <= u32::MAX);
    assert(0x80u8 & 127u8 == 0) by (bit_vector);
    match (static_find(h.0, h.1), dynamic_find(entries, h.0, h.1)) {
        (Some((i, true)), _) => {
            let index = i as nat;
            lemma_integer_roundtrip(index, 7, 0x80, rest);
            lemma_first_byte(index, 7, 0x80);
        },
        (_, Some((d, true))) => {
            let index = (62 + d) as nat;
            lemma_integer_roundtrip(index, 7, 0x80, rest);
            lemma_first_byte(index, 7, 0x80);
        },
        (Some((i, false)), _) => {
            let index = i as nat;
            lemma_literal_indexed(entries, index, h, enc.use_huffman, rest);
            lemma_first_byte(index, 6, 0x40);
            assert(data =~= integer_encoding(index, 6, 0x40) + string_encoding(h.1, enc.use_huffman)
                + rest);
        },
        (_, Some((d, false))) => {
            let index = (62 + d) as nat;
            lemma_literal_indexed(entries, index, h, enc.use_huffman, rest);
            lemma_first_byte(index, 6, 0x40);
            assert(data =~= integer_encoding(index, 6, 0x40) + string_encoding(h.1, enc.use_huffman)
                + rest);
        },
        (None, None) => {
            lemma_literal_new(entries, h, enc.use_huffman, rest);
        },
    }
}

/// A well-formed table has at most one entry per 32 bytes of its size.
proof fn lemma_entries_count(entries: Seq<(Seq<u8>, Seq<u8>)>)
    ensures
        super::table::entries_size(entries) >= 32 * entries.len(),
    decreases entries.len(),
{
    if entries.len() > 0 {
        lemma_entries_count(entries.drop_last());
    }
}

/// The header block of a list, taken from the front: the first field's
/// representation, then the block of the rest from the state after it.
proof fn lemma_block_encoding_front(enc: EncoderView, hs: Seq<(Seq<u8>, Seq<u8>)>)
    requires
        hs.len() > 0,
    ensures
        ({
            let (first, enc1) = header_encoding(enc, hs[0]);
            let (rest, enc2) = block_encoding(enc1, hs.skip(1));
            block_encoding(enc, hs) == (first + rest, enc2)
        }),
    decreases hs.len(),
{
    if hs.len() == 1 {
        assert(hs.drop_last() =~= Seq::<(Seq<u8>, Seq<u8>)>::empty());
        assert(hs.skip(1) =~= Seq::<(Seq<u8>, Seq<u8>)>::empty());
        let (first, enc1) = header_encoding(enc, hs[0]);
        assert(Seq::<u8>::empty() + first =~= first + Seq::<u8>::empty());
    } else {
        lemma_block_encoding_front(enc, hs.drop_last());
        assert(hs.drop_last().skip(1) =~= hs.skip(1).drop_last());
        assert(hs.drop_last()[0] == hs[0]);
        assert(hs.skip(1).last() == hs.last());
        let (first, enc1) = header_encoding(enc, hs[0]);
        let (r0, e0) = block_encoding(enc1, hs.skip(1).drop_last());
        assert(block_encoding(enc, hs.drop_last()) == (first + r0, e0));
        let (l, e1) = header_encoding(e0, hs.last());
        assert(block_encoding(enc, hs) == (first + r0 + l, e1));
        assert(block_encoding(enc1, hs.skip(1)) == (r0 + l, e1));
        assert(first + r0 + l =~= first + (r0 + l));
    }
}

/// A block whose first representation yields a header field: that field,
/// then the rest of the block.
proof fn lemma_block_decoding_step(
    dec: DecoderView,
    data: Seq<u8>,
    h: (Seq<u8>, Seq<u8>),
    c: nat,
    dec1: DecoderView,
    t: Seq<(Seq<u8>, Seq<u8>)>,
    dec2: DecoderView,
)
    requires
        0 < c <= data.len(),
        header_decoding(dec, data) == Ok::<
            (Option<(Seq<u8>, Seq<u8>)>, nat, DecoderView),
            HpackError,
        >((Some(h), c, dec1)),
        block_decoding(dec1, data.skip(c as int)) == (
            Ok::<Seq<(Seq<u8>, Seq<u8>)>, HpackError>(t),
            dec2,
        ),
    ensures
        block_decoding(dec, data) == (
            Ok::<Seq<(Seq<u8>, Seq<u8>)>, HpackError>(seq![h] + t),
            dec2,
        ),
{
}

/// HPACK round trip: a decoder whose dynamic table equals the encoder's
/// decodes the header block that the encoder writes for a list of header
/// fields back to that list, and ends with the table that the encoder ends
/// with — so both stay in step for the next block. It holds for header
/// fields that the encoder takes and whose name and value lengths the
/// decoder reads (see `round_trips`), with a table whose size limit a
/// SETTINGS value can set.
#[verifier::rlimit(80)]
pub proof fn lemma_hpack_roundtrip(enc: EncoderView, dec: DecoderView, hs: Seq<(Seq<u8>, Seq<u8>)>)
    requires
        table_ok(enc.table),
        dec.table == enc.table,
        forall|i: int| 0 <= i < hs.len() ==> round_trips(#[trigger] hs[i], enc.use_huffman),
    ensures
        ({
            let (bytes, enc2) = block_encoding(enc, hs);
            &&& block_decoding(dec, bytes) == (
                Ok::<Seq<(Seq<u8>, Seq<u8>)>, HpackError>(hs),
                DecoderView { table: enc2.table, ..dec },
            )
            &&& table_ok(enc2.table)
        }),
    decreases hs.len(),
{
    if hs.len() == 0 {
        assert(block_encoding(enc, hs).0 =~= Seq::<u8>::empty());
        assert(hs =~= Seq::<(Seq<u8>, Seq<u8>)>::empty());
        assert(DecoderView { table: enc.table, ..dec } == dec);
    } else {
        lemma_block_encoding_front(enc, hs);
        let h = hs[0];
        let t = hs.skip(1);
        let (first, enc1) = header_encoding(enc, h);
        let (rest, enc2) = block_encoding(enc1, t);
        lemma_header_roundtrip(enc, dec, h, rest);
        let dec1 = DecoderView { table: enc1.table, ..dec };
        assert(enc1.use_huffman == enc.use_huffman);
        assert forall|i: int| 0 <= i < t.len() implies round_trips(#[trigger] t[i], enc1.use_huffman) by {
            assert(t[i] == hs[i + 1]);
        }
        lemma_hpack_roundtrip(enc1, dec1, t);
        let data = first + rest;
        assert(data.skip(first.len() as int) =~= rest);
        assert(seq![h] + t =~= hs);
        let dec2 = DecoderView { table: enc2.table, ..dec };
        assert(DecoderView { table: enc2.table, ..dec1 } == dec2);
        lemma_block_decoding_step(dec, data, h, first.len(), dec1, t, dec2);
    }
}

} // verus!
