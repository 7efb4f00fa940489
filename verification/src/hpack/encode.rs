//! HPACK header encoding.
use vstd::prelude::*;
use super::huffman::{self, huffman_encoded_len, huffman_encoding};
use super::integer::{encode_integer, integer_encoding, lemma_integer_representation};
use super::table::{
    dynamic_find, entries_size, lemma_dynamic_find_in_range, entry_size, static_find, DynamicTable, DynamicTableView,
    HeaderField, StaticTable,
};

verus! {

/// The string literal representation of `data` (RFC 7541 Section 5.2):
/// Huffman-coded when that is enabled and makes it shorter, plain otherwise.
pub open spec fn string_encoding(data: Seq<u8>, use_huffman: bool) -> Seq<u8> {
    if use_huffman && huffman_encoded_len(data) < data.len() {
        integer_encoding(huffman_encoded_len(data), 7, 0x80) + huffman_encoding(data)
    } else {
        integer_encoding(data.len(), 7, 0x00) + data
    }
}

/// The state of an encoder: its dynamic table and whether it uses Huffman
/// coding.
pub struct EncoderView {
    pub table: DynamicTableView,
    pub use_huffman: bool,
}

/// Whether a header field can be encoded within the limits of `usize`.
pub open spec fn encodable(h: (Seq<u8>, Seq<u8>)) -> bool {
    &&& h.0.len() <= usize::MAX / 4
    &&& h.1.len() <= usize::MAX / 4
    &&& entry_size(h) <= usize::MAX
}

/// The representation of one header field (RFC 7541 Section 6) and the
/// encoder state after it: an exact match in the static table, then in the
/// dynamic table, is sent as an index; otherwise the field is sent as a
/// literal with incremental indexing, naming the static or dynamic entry
/// with the same name if there is one, and is added to the dynamic table.
pub open spec fn header_encoding(st: EncoderView, h: (Seq<u8>, Seq<u8>)) -> (Seq<u8>, EncoderView) {
    let inserted = EncoderView { table: st.table.insert(h), ..st };
    match (static_find(h.0, h.1), dynamic_find(st.table.entries, h.0, h.1)) {
        (Some((i, true)), _) => (integer_encoding(i as nat, 7, 0x80), st),
        (_, Some((d, true))) => (integer_encoding((62 + d) as nat, 7, 0x80), st),
        (Some((i, false)), _) => (
            integer_encoding(i as nat, 6, 0x40) + string_encoding(h.1, st.use_huffman),
            inserted,
        ),
        (_, Some((d, false))) => (
            integer_encoding((62 + d) as nat, 6, 0x40) + string_encoding(h.1, st.use_huffman),
            inserted,
        ),
        (None, None) => (
            seq![0x40u8] + string_encoding(h.0, st.use_huffman) + string_encoding(
                h.1,
                st.use_huffman,
            ),
            inserted,
        ),
    }
}

/// The header block for a list of header fields and the encoder state after
/// it.
pub open spec fn block_encoding(st: EncoderView, hs: Seq<(Seq<u8>, Seq<u8>)>) -> (
    Seq<u8>,
    EncoderView,
)
    decreases hs.len(),
{
    if hs.len() == 0 {
        (Seq::empty(), st)
    } else {
        let (prefix, st2) = block_encoding(st, hs.drop_last());
        let (last, st3) = header_encoding(st2, hs.last());
        (prefix + last, st3)
    }
}

proof fn lemma_entries_size_lower_bound(entries: Seq<(Seq<u8>, Seq<u8>)>)
    ensures
        entries_size(entries) >= 32 * entries.len(),
    decreases entries.len(),
{
    if entries.len() > 0 {
        lemma_entries_size_lower_bound(entries.drop_last());
    }
}

/// HPACK encoder.
pub struct HpackEncoder {
    /// Dynamic table for encoding.
    dynamic_table: DynamicTable,
    /// Whether to use Huffman encoding for strings.
    use_huffman: bool,
}

impl View for HpackEncoder {
    type V = EncoderView;

    closed spec fn view(&self) -> EncoderView {
        EncoderView { table: self.dynamic_table@, use_huffman: self.use_huffman }
    }
}

impl HpackEncoder {
    /// The encoder's dynamic table is well-formed.
    pub closed spec fn wf(&self) -> bool {
        self.dynamic_table@.wf()
    }

    /// Create a new HPACK encoder with default settings.
    pub fn new() -> (r: Self)
        ensures
            r.wf(),
            r@.table.entries.len() == 0,
            r@.table.max_size == super::DEFAULT_TABLE_SIZE,
            r@.use_huffman,
    {
        HpackEncoder { dynamic_table: DynamicTable::new(super::DEFAULT_TABLE_SIZE), use_huffman: true }
    }

    /// Create a new HPACK encoder with a specific table size.
    pub fn with_table_size(size: usize) -> (r: Self)
        ensures
            r.wf(),
            r@.table.entries.len() == 0,
            r@.table.max_size == size,
            r@.use_huffman,
    {
        HpackEncoder { dynamic_table: DynamicTable::new(size), use_huffman: true }
    }

    /// Set whether to use Huffman encoding.
    pub fn set_huffman(&mut self, use_huffman: bool)
        ensures
            final(self)@ == (EncoderView { use_huffman, ..old(self)@ }),
            old(self).wf() ==> final(self).wf(),
    {
        self.use_huffman = use_huffman;
    }

    /// Set the dynamic table size.
    pub fn set_table_size(&mut self, size: usize)
        requires
            old(self).wf(),
        ensures
            final(self).wf(),
            final(self)@ == (EncoderView {
                table: old(self)@.table.with_max_size(size as nat),
                ..old(self)@
            }),
    {
        self.dynamic_table.set_max_size(size);
    }

    /// The dynamic table.
    pub fn dynamic_table(&self) -> (r: &DynamicTable)
        ensures
            r@ == self@.table,
    {
        &self.dynamic_table
    }

    /// Encode a list of headers into an HPACK header block.
    pub fn encode(&mut self, headers: &[HeaderField], buf: &mut Vec<u8>)
        requires
            old(self).wf(),
            forall|i: int| 0 <= i < headers@.len() ==> encodable(#[trigger] headers@[i]@),
        ensures
            final(self).wf(),
            ({
                let (bytes, st) = block_encoding(old(self)@, headers@.map_values(|h: HeaderField| h@));
                &&& final(buf)@ == old(buf)@ + bytes
                &&& final(self)@ == st
            }),
    {
        let ghost hs = headers@.map_values(|h: HeaderField| h@);
        let mut i: usize = 0;
        proof {
            assert(hs.take(0) =~= Seq::<(Seq<u8>, Seq<u8>)>::empty());
            assert(buf@ =~= old(buf)@ + Seq::<u8>::empty());
        }
        while i < headers.len()
            invariant
                i <= headers@.len(),
                self.wf(),
                hs == headers@.map_values(|h: HeaderField| h@),
                forall|j: int| 0 <= j < headers@.len() ==> encodable(#[trigger] headers@[j]@),
                ({
                    let (bytes, st) = block_encoding(old(self)@, hs.take(i as int));
                    &&& buf@ == old(buf)@ + bytes
                    &&& self@ == st
                }),
            decreases headers@.len() - i,
        {
            let ghost before = buf@;
            assert(encodable(headers@[i as int]@));
            self.encode_header(&headers[i], buf);
            proof {
                assert(hs.take(i + 1).drop_last() =~= hs.take(i as int));
                assert(hs.take(i + 1).last() == headers@[i as int]@);
                let (bytes, st) = block_encoding(old(self)@, hs.take(i as int));
                let (last, _) = header_encoding(st, headers@[i as int]@);
                assert(buf@ =~= old(buf)@ + (bytes + last));
            }
            i = i + 1;
        }
        assert(hs.take(i as int) =~= hs);
    }

    /// Encode a single header field.
    fn encode_header(&mut self, header: &HeaderField, buf: &mut Vec<u8>)
        requires
            old(self).wf(),
            encodable(header@),
        ensures
            final(self).wf(),
            ({
                let (bytes, st) = header_encoding(old(self)@, header@);
                &&& final(buf)@ == old(buf)@ + bytes
                &&& final(self)@ == st
            }),
    {
        // Try to find in static table first, then dynamic table
        let static_match = StaticTable::find(header.name.as_slice(), header.value.as_slice());
        let dynamic_match = self.dynamic_table.find(header.name.as_slice(), header.value.as_slice());
        proof {
            lemma_entries_size_lower_bound(self@.table.entries);
            lemma_dynamic_find_in_range(self@.table.entries, header@.0, header@.1);
            self.dynamic_table.lemma_fits_usize();
        }
        let ghost start = buf@;
        // Determine best encoding strategy
        match (static_match, dynamic_match) {
            // Exact match in static table - use indexed representation
            (Some((idx, true)), _) => {
                self.encode_indexed(idx, buf);
            },
            // Exact match in dynamic table
            (_, Some((dyn_idx, true))) => {
                // Dynamic table index = static table size + 1 + dyn_idx
                let idx: usize = StaticTable::len() + 1 + dyn_idx;
                self.encode_indexed(idx, buf);
            },
            // Name match in static table - use literal with indexing
            (Some((idx, false)), _) => {
                self.encode_literal_indexed(idx, header.value.as_slice(), buf);
                proof {
                    assert(buf@ =~= start + (integer_encoding(idx as nat, 6, 0x40) + string_encoding(header@.1, self@.use_huffman)));
                }
                self.dynamic_table.insert(header.duplicate());
            },
            // Name match in dynamic table
            (_, Some((dyn_idx, false))) => {
                let idx: usize = StaticTable::len() + 1 + dyn_idx;
                self.encode_literal_indexed(idx, header.value.as_slice(), buf);
                proof {
                    assert(buf@ =~= start + (integer_encoding(idx as nat, 6, 0x40) + string_encoding(header@.1, self@.use_huffman)));
                }
                self.dynamic_table.insert(header.duplicate());
            },
            // No match - literal with new name
            (None, None) => {
                self.encode_literal_new(header.name.as_slice(), header.value.as_slice(), buf);
                self.dynamic_table.insert(header.duplicate());
            },
        }
    }

    /// Encode an indexed header field (Section 6.1), format 1xxxxxxx.
    pub fn encode_indexed(&self, index: usize, buf: &mut Vec<u8>)
        ensures
            final(buf)@ == old(buf)@ + integer_encoding(index as nat, 7, 0x80),
    {
        encode_integer(index, 7, 0x80, buf);
    }

    /// Encode a literal header field with incremental indexing (Section
    /// 6.2.1), format 01xxxxxx, naming a table entry.
    fn encode_literal_indexed(&self, name_index: usize, value: &[u8], buf: &mut Vec<u8>)
        requires
            value@.len() <= usize::MAX / 4,
        ensures
            final(buf)@ == old(buf)@ + integer_encoding(name_index as nat, 6, 0x40)
                + string_encoding(value@, self@.use_huffman),
    {
        encode_integer(name_index, 6, 0x40, buf);
        self.encode_string(value, buf);
    }

    /// Encode a literal header field with new name (Section 6.2.1).
    fn encode_literal_new(&self, name: &[u8], value: &[u8], buf: &mut Vec<u8>)
        requires
            name@.len() <= usize::MAX / 4,
            value@.len() <= usize::MAX / 4,
        ensures
            final(buf)@ == old(buf)@ + (seq![0x40u8] + string_encoding(name@, self@.use_huffman)
                + string_encoding(value@, self@.use_huffman)),
    {
        let ghost start = buf@;
        buf.push(0x40);  // Literal with incremental indexing, new name
        self.encode_string(name, buf);
        self.encode_string(value, buf);
        assert(buf@ =~= start + (seq![0x40u8] + string_encoding(name@, self@.use_huffman)
            + string_encoding(value@, self@.use_huffman)));
    }

    /// Encode a string (with optional Huffman encoding).
    pub fn encode_string(&self, data: &[u8], buf: &mut Vec<u8>)
        requires
            data@.len() <= usize::MAX / 4,
        ensures
            final(buf)@ == old(buf)@ + string_encoding(data@, self@.use_huffman),
    {
        let ghost start = buf@;
        if self.use_huffman {
            let huffman_len: usize = huffman::encoded_len(data);
            if huffman_len < data.len() {
                // Use Huffman encoding
                encode_integer(huffman_len, 7, 0x80, buf);
                huffman::encode(data, buf);
                assert(buf@ =~= start + string_encoding(data@, self@.use_huffman));
                return;
            }
        }
        // Plain encoding
        encode_integer(data.len(), 7, 0x00, buf);
        let ghost mid = buf@;
        buf.extend_from_slice(data);
        assert(buf@ =~= mid + data@);
        assert(buf@ =~= start + string_encoding(data@, self@.use_huffman));
    }

    /// Encode a dynamic table size update.
    pub fn encode_table_size_update(&self, size: usize, buf: &mut Vec<u8>)
        ensures
            final(buf)@ == old(buf)@ + integer_encoding(size as nat, 5, 0x20),
    {
        encode_integer(size, 5, 0x20, buf);
    }
}

impl Default for HpackEncoder {
    fn default() -> (r: Self)
        ensures
            r.wf(),
            r@.table.entries.len() == 0,
            r@.table.max_size == super::DEFAULT_TABLE_SIZE,
            r@.use_huffman,
    {
        Self::new()
    }
}

/// The first byte of a string literal (RFC 7541 Section 5.2) has its high
/// bit set exactly when the string is Huffman-coded; a plain string is its
/// length with a 7-bit prefix followed by its bytes unchanged.
pub proof fn lemma_string_representation(data: Seq<u8>, use_huffman: bool)
    ensures
        ({
            let e = string_encoding(data, use_huffman);
            let coded = use_huffman && huffman_encoded_len(data) < data.len();
            &&& e.len() >= 1
            &&& (e[0] & 0x80 == 0x80) == coded
            &&& !coded ==> e == integer_encoding(data.len(), 7, 0x00) + data
        }),
{
    let coded = use_huffman && huffman_encoded_len(data) < data.len();
    let len = if coded { huffman_encoded_len(data) } else { data.len() };
    let pre: u8 = if coded { 0x80 } else { 0x00 };
    lemma_integer_representation(len, 7, pre);
    let i = integer_encoding(len, 7, pre);
    let x: u8 = i[0];
    if len < 127 {
        let y = len as u8;
        assert(y < 127);
        assert(x == pre | y);
        assert(y < 127 ==> (0x80u8 | y) & 0x80 == 0x80 && (0x00u8 | y) & 0x80 == 0) by (bit_vector);
    } else {
        assert(x == pre | 127u8);
        assert((0x80u8 | 127u8) & 0x80 == 0x80 && (0x00u8 | 127u8) & 0x80 == 0) by (bit_vector);
    }
}

/// How a header field is represented (RFC 7541 Section 6): a field found
/// with its value in the static or dynamic table is sent as an index, its
/// first byte with the high bit set, and leaves the table as it is; any
/// other field is sent as a literal with incremental indexing, its first
/// byte starting with the bits 01, and is added to the dynamic table.
pub proof fn lemma_header_representation(st: EncoderView, h: (Seq<u8>, Seq<u8>))
    ensures
        ({
            let (b, st2) = header_encoding(st, h);
            let exact = (static_find(h.0, h.1) matches Some((_, true))) || (dynamic_find(st.table.entries, h.0, h.1) matches Some((_, true)));
            &&& b.len() >= 1
            &&& exact ==> b[0] & 0x80 == 0x80 && st2 == st
            &&& !exact ==> b[0] & 0xC0 == 0x40 && st2 == EncoderView { table: st.table.insert(h), ..st }
        }),
{
    let (b, st2) = header_encoding(st, h);
    match (static_find(h.0, h.1), dynamic_find(st.table.entries, h.0, h.1)) {
        (Some((i, true)), _) => lemma_index_byte(i as nat, 7, 0x80),
        (_, Some((d, true))) => lemma_index_byte((62 + d) as nat, 7, 0x80),
        (Some((i, false)), _) => lemma_index_byte(i as nat, 6, 0x40),
        (_, Some((d, false))) => lemma_index_byte((62 + d) as nat, 6, 0x40),
        (None, None) => {
            assert(b[0] == 0x40u8);
            assert(0x40u8 & 0xC0 == 0x40) by (bit_vector);
        },
    }
}

/// The first byte of an integer with a 7-bit prefix under 0x80, or a 6-bit
/// prefix under 0x40.
proof fn lemma_index_byte(v: nat, n: u8, pre: u8)
    requires
        (n == 7 && pre == 0x80) || (n == 6 && pre == 0x40),
    ensures
        integer_encoding(v, n, pre).len() >= 1,
        n == 7 ==> integer_encoding(v, n, pre)[0] & 0x80 == 0x80,
        n == 6 ==> integer_encoding(v, n, pre)[0] & 0xC0 == 0x40,
{
    lemma_integer_representation(v, n, pre);
    let x: u8 = integer_encoding(v, n, pre)[0];
    let m: u8 = if n == 7 { 127 } else { 63 };
    if v < m {
        let y = v as u8;
        assert(x == pre | y);
        assert(y < 127 ==> (0x80u8 | y) & 0x80 == 0x80) by (bit_vector);
        assert(y < 63 ==> (0x40u8 | y) & 0xC0 == 0x40) by (bit_vector);
    } else {
        assert(x == pre | m);
        assert((0x80u8 | 127u8) & 0x80 == 0x80 && (0x40u8 | 63u8) & 0xC0 == 0x40) by (bit_vector);
    }
}

} // verus!
