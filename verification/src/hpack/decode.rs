//! HPACK header decoding.
use vstd::prelude::*;
use vstd::slice::{slice_subrange, slice_to_vec};
use super::error::HpackError;
use super::huffman::{self, huffman_decoding};
use super::integer::{decode_integer, integer_decoding};
use super::table::{
    static_name, static_value, DynamicTable, DynamicTableView, HeaderField,
    StaticTable,
};

verus! {

/// The string literal (RFC 7541 Section 5.2) at the start of `data`: its
/// bytes, Huffman-decoded when the high bit of the first byte says so, and
/// the number of bytes it took.
pub open spec fn string_decoding(data: Seq<u8>) -> Result<(Seq<u8>, nat), HpackError> {
    if data.len() == 0 {
        Err(HpackError::Incomplete)
    } else {
        match integer_decoding(data, 7) {
            Err(e) => Err(e),
            Ok((length, consumed)) => if consumed + length > data.len() {
                Err(HpackError::Incomplete)
            } else {
                let raw = data.subrange(consumed as int, (consumed + length) as int);
                if data[0] >= 128 {
                    match huffman_decoding(raw) {
                        Ok(v) => Ok((v, consumed + length)),
                        Err(e) => Err(HpackError::InvalidHuffman(e)),
                    }
                } else {
                    Ok((raw, consumed + length))
                }
            },
        }
    }
}

/// Decode an HPACK string (RFC 7541 Section 5.2) at the start of `data`.
/// Returns the string and the number of bytes it took.
pub fn decode_string(data: &[u8]) -> (r: Result<(Vec<u8>, usize), HpackError>)
    ensures
        match r {
            Ok((v, c)) => string_decoding(data@) == Ok::<(Seq<u8>, nat), HpackError>(
                (v@, c as nat),
            ),
            Err(e) => string_decoding(data@) == Err::<(Seq<u8>, nat), HpackError>(e),
        },
{
    if data.len() == 0 {
        return Err(HpackError::Incomplete);
    }
    let huffman: bool = (data[0] & 0x80) != 0;
    proof {
        let b = data[0];
        assert((b & 0x80 != 0) == (b >= 128)) by (bit_vector);
    }
    let (length, consumed) = match decode_integer(data, 7) {
        Ok(x) => x,
        Err(e) => return Err(e),
    };
    proof {
        lemma_integer_decoding_consumes(data@, 7);
    }
    if length > data.len() - consumed {
        return Err(HpackError::Incomplete);
    }
    let end: usize = consumed + length;
    let string_data = slice_subrange(data, consumed, end);
    if huffman {
        let mut decoded: Vec<u8> = Vec::new();
        match huffman::decode(string_data, &mut decoded) {
            Ok(()) => {
                assert(decoded@ =~= Seq::<u8>::empty() + decoded@);
                Ok((decoded, end))
            },
            Err(e) => Err(HpackError::InvalidHuffman(e)),
        }
    } else {
        Ok((slice_to_vec(string_data), end))
    }
}

/// The header field that `index` refers to: 1 to 61 in the static table,
/// 62 on in the dynamic table (62 being its newest entry).
pub open spec fn header_at(entries: Seq<(Seq<u8>, Seq<u8>)>, index: nat) -> Result<
    (Seq<u8>, Seq<u8>),
    HpackError,
> {
    if index == 0 {
        Err(HpackError::InvalidIndex(0))
    } else if index <= 61 {
        Ok((static_name(index as int), static_value(index as int)))
    } else if index - 62 < entries.len() {
        Ok(entries[index - 62])
    } else {
        Err(HpackError::InvalidIndex(index as usize))
    }
}

/// The state of a decoder: its dynamic table and the largest table size the
/// peer may ask for.
pub struct DecoderView {
    pub table: DynamicTableView,
    pub max_table_size: nat,
}

/// A literal header field at the start of `data` whose name index has an
/// `n`-bit prefix: its name (from the table, or a literal when the index is
/// 0), its value, and the number of bytes it took.
pub open spec fn literal_decoding(entries: Seq<(Seq<u8>, Seq<u8>)>, data: Seq<u8>, n: u8) -> Result<
    ((Seq<u8>, Seq<u8>), nat),
    HpackError,
> {
    match integer_decoding(data, n) {
        Err(e) => Err(e),
        Ok((name_index, c1)) => {
            let name_part: Result<(Seq<u8>, nat), HpackError> = if name_index > 0 {
                match header_at(entries, name_index) {
                    Ok(h) => Ok((h.0, c1)),
                    Err(e) => Err(e),
                }
            } else {
                match string_decoding(data.skip(c1 as int)) {
                    Ok((name, c2)) => Ok((name, c1 + c2)),
                    Err(e) => Err(e),
                }
            };
            match name_part {
                Err(e) => Err(e),
                Ok((name, c)) => match string_decoding(data.skip(c as int)) {
                    Err(e) => Err(e),
                    Ok((value, c3)) => Ok(((name, value), c + c3)),
                },
            }
        },
    }
}

/// One header representation (RFC 7541 Section 6) at the start of the
/// non-empty `data`: the header field it yields, if any, the number of bytes
/// it took, and the decoder state after it.
pub open spec fn header_decoding(st: DecoderView, data: Seq<u8>) -> Result<
    (Option<(Seq<u8>, Seq<u8>)>, nat, DecoderView),
    HpackError,
> {
    if data.len() == 0 {
        Err(HpackError::Incomplete)
    } else if data[0] >= 128 {
        // Indexed header field.
        match integer_decoding(data, 7) {
            Err(e) => Err(e),
            Ok((index, c)) => if index == 0 {
                Err(HpackError::InvalidIndex(0))
            } else {
                match header_at(st.table.entries, index) {
                    Ok(h) => Ok((Some(h), c, st)),
                    Err(e) => Err(e),
                }
            },
        }
    } else if data[0] >= 64 {
        // Literal header field with incremental indexing.
        match literal_decoding(st.table.entries, data, 6) {
            Err(e) => Err(e),
            Ok((h, c)) => Ok((Some(h), c, DecoderView { table: st.table.insert(h), ..st })),
        }
    } else if data[0] >= 32 {
        // Dynamic table size update.
        match integer_decoding(data, 5) {
            Err(e) => Err(e),
            Ok((size, c)) => if size > st.max_table_size {
                Err(HpackError::InvalidTableSize)
            } else {
                Ok((None, c, DecoderView { table: st.table.with_max_size(size), ..st }))
            },
        }
    } else {
        // Literal header field without indexing, or never indexed.
        match literal_decoding(st.table.entries, data, 4) {
            Err(e) => Err(e),
            Ok((h, c)) => Ok((Some(h), c, st)),
        }
    }
}

/// A whole header block: the header fields, in order, and the decoder state
/// after the block; or the first error, with the state as it was when the
/// error came up.
pub open spec fn block_decoding(st: DecoderView, data: Seq<u8>) -> (
    Result<Seq<(Seq<u8>, Seq<u8>)>, HpackError>,
    DecoderView,
)
    decreases data.len(),
{
    if data.len() == 0 {
        (Ok(Seq::empty()), st)
    } else {
        match header_decoding(st, data) {
            Err(e) => (Err(e), st),
            Ok((h, c, st2)) => if c == 0 || c > data.len() {
                (Err(HpackError::Incomplete), st)
            } else {
                let (rest, st3) = block_decoding(st2, data.skip(c as int));
                match rest {
                    Err(e) => (Err(e), st3),
                    Ok(hs) => (
                        Ok(
                            match h {
                                Some(h) => seq![h] + hs,
                                None => hs,
                            },
                        ),
                        st3,
                    ),
                }
            },
        }
    }
}

/// HPACK decoder.
pub struct HpackDecoder {
    /// Dynamic table for decoding.
    dynamic_table: DynamicTable,
    /// Maximum allowed table size.
    max_table_size: usize,
}

impl View for HpackDecoder {
    type V = DecoderView;

    closed spec fn view(&self) -> DecoderView {
        DecoderView { table: self.dynamic_table@, max_table_size: self.max_table_size as nat }
    }
}

impl HpackDecoder {
    /// The decoder's dynamic table is well-formed.
    pub closed spec fn wf(&self) -> bool {
        self.dynamic_table@.wf()
    }

    /// Create a new HPACK decoder with default settings.
    pub fn new() -> (r: Self)
        ensures
            r.wf(),
            r@.table.entries.len() == 0,
            r@.table.max_size == super::DEFAULT_TABLE_SIZE,
            r@.max_table_size == super::DEFAULT_TABLE_SIZE,
    {
        HpackDecoder {
            dynamic_table: DynamicTable::new(super::DEFAULT_TABLE_SIZE),
            max_table_size: super::DEFAULT_TABLE_SIZE,
        }
    }

    /// Create a new HPACK decoder with a specific table size.
    pub fn with_table_size(size: usize) -> (r: Self)
        ensures
            r.wf(),
            r@.table.entries.len() == 0,
            r@.table.max_size == size,
            r@.max_table_size == size,
    {
        HpackDecoder { dynamic_table: DynamicTable::new(size), max_table_size: size }
    }

    /// Set the maximum allowed table size.
    pub fn set_max_table_size(&mut self, size: usize)
        ensures
            final(self)@ == (DecoderView { max_table_size: size as nat, ..old(self)@ }),
            old(self).wf() ==> final(self).wf(),
    {
        self.max_table_size = size;
    }

    /// The largest table size the peer may ask for.
    pub fn max_table_size(&self) -> (r: usize)
        ensures
            r == self@.max_table_size,
    {
        self.max_table_size
    }

    /// The dynamic table.
    pub fn dynamic_table(&self) -> (r: &DynamicTable)
        ensures
            r@ == self@.table,
    {
        &self.dynamic_table
    }

    /// Decode an HPACK header block into a list of headers.
    #[verifier::rlimit(80)]
    #[verifier::spinoff_prover]
    pub fn decode(&mut self, data: &[u8]) -> (r: Result<Vec<HeaderField>, HpackError>)
        requires
            old(self).wf(),
        ensures
            final(self).wf(),
            final(self)@ == block_decoding(old(self)@, data@).1,
            match block_decoding(old(self)@, data@).0 {
                Ok(hs) => r is Ok && r->Ok_0@.map_values(|h: HeaderField| h@) == hs,
                Err(e) => r == Err::<Vec<HeaderField>, HpackError>(e),
            },
    {
        let mut headers: Vec<HeaderField> = Vec::new();
        let mut pos: usize = 0;
        let ghost whole = block_decoding(self@, data@);
        proof {
            assert(data@.skip(0) =~= data@);
            if whole.0 is Ok {
                assert(headers@.map_values(|h: HeaderField| h@) + whole.0->Ok_0 =~= whole.0->Ok_0);
            }
        }
        while pos < data.len()
            invariant
                pos <= data.len(),
                self.wf(),
                whole == block_decoding(old(self)@, data@),
                block_decoding(self@, data@.skip(pos as int)).1 == whole.1,
                whole.0 is Ok ==> block_decoding(self@, data@.skip(pos as int)).0 is Ok && whole.0->Ok_0
                    == headers@.map_values(|h: HeaderField| h@) + block_decoding(
                    self@,
                    data@.skip(pos as int),
                ).0->Ok_0,
                whole.0 is Err ==> block_decoding(self@, data@.skip(pos as int)).0 == whole.0,
            decreases data.len() - pos,
        {
            let rest = slice_subrange(data, pos, data.len());
            assert(rest@ == data@.skip(pos as int));
            let ghost st = self@;
            let (header, consumed) = match self.decode_header(rest) {
                Ok(x) => x,
                Err(e) => {
                    proof {
                        assert(rest@.len() > 0);
                        assert(header_decoding(st, rest@) == Err::<
                            (Option<(Seq<u8>, Seq<u8>)>, nat, DecoderView),
                            HpackError,
                        >(e));
                        assert(block_decoding(st, rest@) == (
                            Err::<Seq<(Seq<u8>, Seq<u8>)>, HpackError>(e),
                            st,
                        ));
                        assert(self@ == st);
                        assert(block_decoding(self@, data@.skip(pos as int)).1 == st);
                        assert(whole.1 == st);
                        assert(whole.0 == Err::<Seq<(Seq<u8>, Seq<u8>)>, HpackError>(e));
                    }
                    return Err(e);
                },
            };
            let ghost st2 = self@;
            let ghost next = data@.skip((pos + consumed) as int);
            proof {
                assert(rest@.skip(consumed as int) =~= next);
                assert(block_decoding(st, rest@) == ({
                    let (tail, st3) = block_decoding(st2, next);
                    match tail {
                        Err(e) => (Err(e), st3),
                        Ok(hs) => (
                            Ok(
                                match header_decoding(st, rest@)->Ok_0.0 {
                                    Some(h) => seq![h] + hs,
                                    None => hs,
                                },
                            ),
                            st3,
                        ),
                    }
                }));
            }
            let ghost before = headers@;
            let ghost hv: Option<(Seq<u8>, Seq<u8>)> = match &header {
                Some(h) => Some(h@),
                None => None,
            };
            match header {
                Some(h) => {
                    headers.push(h);
                },
                None => {},
            }
            proof {
                let tail = block_decoding(st2, next).0;
                if tail is Ok {
                    let t = tail->Ok_0;
                    match hv {
                        Some(h) => {
                            assert(headers@ =~= before.push(headers@.last()));
                            assert(headers@.map_values(|h: HeaderField| h@) =~= before.map_values(
                                |h: HeaderField| h@,
                            ).push(h));
                            assert(before.map_values(|h: HeaderField| h@) + (seq![h] + t)
                                =~= headers@.map_values(|h: HeaderField| h@) + t);
                        },
                        None => {
                            assert(before =~= headers@);
                        },
                    }
                }
            }
            pos = pos + consumed;
        }
        proof {
            assert(data@.skip(pos as int) =~= Seq::<u8>::empty());
            assert(headers@.map_values(|h: HeaderField| h@) + Seq::<(Seq<u8>, Seq<u8>)>::empty()
                =~= headers@.map_values(|h: HeaderField| h@));
        }
        Ok(headers)
    }

    /// Decode a single header representation.
    /// Returns (Option<HeaderField>, bytes_consumed).
    fn decode_header(&mut self, data: &[u8]) -> (r: Result<(Option<HeaderField>, usize), HpackError>)
        requires
            old(self).wf(),
            data@.len() > 0,
        ensures
            final(self).wf(),
            match header_decoding(old(self)@, data@) {
                Ok((h, c, st)) => r matches Ok((h2, c2)) && c2 == c && final(self)@ == st
                    && 1 <= c <= data@.len() && match h {
                    Some(h) => h2 is Some && h2->Some_0@ == h,
                    None => h2 is None,
                },
                Err(e) => r == Err::<(Option<HeaderField>, usize), HpackError>(e) && final(self)@
                    == old(self)@,
            },
    {
        let first_byte: u8 = data[0];
        if first_byte >= 128 {
            // Indexed Header Field (Section 6.1), format 1xxxxxxx
            self.decode_indexed(data)
        } else if first_byte >= 64 {
            // Literal Header Field with Incremental Indexing (Section 6.2.1), format 01xxxxxx
            self.decode_literal_indexed(data)
        } else if first_byte >= 32 {
            // Dynamic Table Size Update (Section 6.3), format 001xxxxx
            self.decode_table_size_update(data)
        } else {
            // Literal Header Field without Indexing (Section 6.2.2)
            // or Never Indexed (Section 6.2.3), format 0000xxxx or 0001xxxx
            self.decode_literal_not_indexed(data)
        }
    }

    /// Decode an indexed header field.
    fn decode_indexed(&mut self, data: &[u8]) -> (r: Result<(Option<HeaderField>, usize), HpackError>)
        requires
            old(self).wf(),
            data@.len() > 0,
            data@[0] >= 128,
        ensures
            final(self)@ == old(self)@,
            final(self).wf(),
            match header_decoding(old(self)@, data@) {
                Ok((h, c, st)) => r matches Ok((h2, c2)) && c2 == c && st == old(self)@ && 1 <= c
                    <= data@.len() && match h {
                    Some(h) => h2 is Some && h2->Some_0@ == h,
                    None => h2 is None,
                },
                Err(e) => r == Err::<(Option<HeaderField>, usize), HpackError>(e),
            },
    {
        let (index, consumed) = match decode_integer(data, 7) {
            Ok(x) => x,
            Err(e) => return Err(e),
        };
        proof {
            lemma_integer_decoding_consumes(data@, 7);
        }
        if index == 0 {
            return Err(HpackError::InvalidIndex(0));
        }
        let header = match self.get_header(index) {
            Ok(h) => h,
            Err(e) => return Err(e),
        };
        Ok((Some(header), consumed))
    }

    /// Decode the name and value of a literal header field whose name index
    /// has an `n`-bit prefix.
    fn decode_literal(&self, data: &[u8], n: u8) -> (r: Result<(HeaderField, usize), HpackError>)
        requires
            self.wf(),
            n == 4 || n == 6,
        ensures
            match literal_decoding(self@.table.entries, data@, n) {
                Ok((h, c)) => r matches Ok((h2, c2)) && h2@ == h && c2 == c && 1 <= c
                    <= data@.len(),
                Err(e) => r == Err::<(HeaderField, usize), HpackError>(e),
            },
    {
        let (name_index, c1) = match decode_integer(data, n) {
            Ok(x) => x,
            Err(e) => return Err(e),
        };
        proof {
            lemma_integer_decoding_consumes(data@, n);
        }
        let mut consumed: usize = c1;
        let name: Vec<u8> = if name_index > 0 {
            match self.get_header(name_index) {
                Ok(h) => h.name,
                Err(e) => return Err(e),
            }
        } else {
            let rest = slice_subrange(data, consumed, data.len());
            assert(rest@ == data@.skip(consumed as int));
            match decode_string(rest) {
                Ok((name, c2)) => {
                    proof {
                        lemma_string_decoding_consumes(rest@);
                    }
                    consumed = consumed + c2;
                    name
                },
                Err(e) => return Err(e),
            }
        };
        let rest = slice_subrange(data, consumed, data.len());
        assert(rest@ == data@.skip(consumed as int));
        let (value, c3) = match decode_string(rest) {
            Ok(x) => x,
            Err(e) => return Err(e),
        };
        proof {
            lemma_string_decoding_consumes(rest@);
        }
        consumed = consumed + c3;
        Ok((HeaderField::new(name, value), consumed))
    }

    /// Decode a literal header field with incremental indexing.
    fn decode_literal_indexed(&mut self, data: &[u8]) -> (r: Result<
        (Option<HeaderField>, usize),
        HpackError,
    >)
        requires
            old(self).wf(),
            data@.len() > 0,
            64 <= data@[0] < 128,
        ensures
            final(self).wf(),
            match header_decoding(old(self)@, data@) {
                Ok((h, c, st)) => r matches Ok((h2, c2)) && c2 == c && final(self)@ == st && 1
                    <= c <= data@.len() && match h {
                    Some(h) => h2 is Some && h2->Some_0@ == h,
                    None => h2 is None,
                },
                Err(e) => r == Err::<(Option<HeaderField>, usize), HpackError>(e) && final(self)@
                    == old(self)@,
            },
    {
        let (header, consumed) = match self.decode_literal(data, 6) {
            Ok(x) => x,
            Err(e) => return Err(e),
        };
        self.dynamic_table.insert(header.duplicate());
        Ok((Some(header), consumed))
    }

    /// Decode a literal header field without indexing.
    fn decode_literal_not_indexed(&mut self, data: &[u8]) -> (r: Result<
        (Option<HeaderField>, usize),
        HpackError,
    >)
        requires
            old(self).wf(),
            data@.len() > 0,
            data@[0] < 32,
        ensures
            final(self)@ == old(self)@,
            final(self).wf(),
            match header_decoding(old(self)@, data@) {
                Ok((h, c, st)) => r matches Ok((h2, c2)) && c2 == c && st == old(self)@ && 1 <= c
                    <= data@.len() && match h {
                    Some(h) => h2 is Some && h2->Some_0@ == h,
                    None => h2 is None,
                },
                Err(e) => r == Err::<(Option<HeaderField>, usize), HpackError>(e),
            },
    {
        let (header, consumed) = match self.decode_literal(data, 4) {
            Ok(x) => x,
            Err(e) => return Err(e),
        };
        // Not added to dynamic table
        Ok((Some(header), consumed))
    }

    /// Decode a dynamic table size update.
    fn decode_table_size_update(&mut self, data: &[u8]) -> (r: Result<
        (Option<HeaderField>, usize),
        HpackError,
    >)
        requires
            old(self).wf(),
            data@.len() > 0,
            32 <= data@[0] < 64,
        ensures
            final(self).wf(),
            match header_decoding(old(self)@, data@) {
                Ok((h, c, st)) => r matches Ok((h2, c2)) && c2 == c && final(self)@ == st && 1
                    <= c <= data@.len() && h is None && h2 is None,
                Err(e) => r == Err::<(Option<HeaderField>, usize), HpackError>(e) && final(self)@
                    == old(self)@,
            },
    {
        let (new_size, consumed) = match decode_integer(data, 5) {
            Ok(x) => x,
            Err(e) => return Err(e),
        };
        proof {
            lemma_integer_decoding_consumes(data@, 5);
        }
        if new_size > self.max_table_size {
            return Err(HpackError::InvalidTableSize);
        }
        self.dynamic_table.set_max_size(new_size);
        Ok((None, consumed))
    }

    /// Get a header from the static or dynamic table by index.
    pub fn get_header(&self, index: usize) -> (r: Result<HeaderField, HpackError>)
        ensures
            match header_at(self@.table.entries, index as nat) {
                Ok(h) => r matches Ok(h2) && h2@ == h,
                Err(e) => r == Err::<HeaderField, HpackError>(e),
            },
    {
        if index == 0 {
            return Err(HpackError::InvalidIndex(0));
        }
        let static_len: usize = StaticTable::len();
        if index <= static_len {
            match StaticTable::get(index) {
                Some(entry) => Ok(HeaderField::new(entry.name, entry.value)),
                None => Err(HpackError::InvalidIndex(index)),
            }
        } else {
            let dyn_index: usize = index - static_len - 1;
            match self.dynamic_table.get(dyn_index) {
                Some(h) => Ok(h.duplicate()),
                None => Err(HpackError::InvalidIndex(index)),
            }
        }
    }
}

proof fn lemma_decode_continuation_consumes(data: Seq<u8>, pos: nat, k: nat, acc: nat)
    requires
        pos >= 1,
    ensures
        decode_continuation_ok_bounds(data, pos, k, acc),
    decreases 5 - k,
{
    if pos < data.len() {
        let b = data[pos as int];
        if b >= 128 && k + 1 <= 4 {
            lemma_decode_continuation_consumes(data, pos + 1, k + 1, acc + ((b % 128) as nat) * super::integer::pow128(k));
        }
    }
}

spec fn decode_continuation_ok_bounds(data: Seq<u8>, pos: nat, k: nat, acc: nat) -> bool {
    super::integer::decode_continuation(data, pos, k, acc) matches Ok((_, c)) ==> pos < c <= data.len()
}

/// An integer that decodes took at least one byte and at most all of them.
proof fn lemma_integer_decoding_consumes(data: Seq<u8>, n: u8)
    ensures
        integer_decoding(data, n) matches Ok((_, c)) ==> 1 <= c <= data.len(),
{
    if data.len() > 0 {
        let v0 = (data[0] as nat) % (super::integer::prefix_max(n) + 1);
        lemma_decode_continuation_consumes(data, 1, 0, v0);
    }
}

/// A string that decodes took at least one byte and at most all of them.
proof fn lemma_string_decoding_consumes(data: Seq<u8>)
    ensures
        string_decoding(data) matches Ok((_, c)) ==> 1 <= c <= data.len(),
{
    lemma_integer_decoding_consumes(data, 7);
}

impl Default for HpackDecoder {
    fn default() -> (r: Self)
        ensures
            r.wf(),
            r@.table.entries.len() == 0,
            r@.table.max_size == super::DEFAULT_TABLE_SIZE,
            r@.max_table_size == super::DEFAULT_TABLE_SIZE,
    {
        Self::new()
    }
}

} // verus!
