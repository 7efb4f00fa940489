//! HPACK errors.
use vstd::prelude::*;
use crate::text::{decimal, push_decimal};

verus! {

/// Huffman decoding errors.
#[derive(Debug, Clone, Copy, PartialEq, Eq, Structural)]
pub enum HuffmanError {
    /// No symbol has a code that the bits spell out.
    InvalidCode,
    /// The string spells out the end-of-string symbol.
    EndOfStringSymbol,
    /// The final bits are not a padding of at most 7 one bits.
    InvalidPadding,
}

impl HuffmanError {
    /// The human-readable description of the error.
    pub open spec fn spec_message(self) -> Seq<char> {
        match self {
            HuffmanError::InvalidCode => "invalid Huffman code"@,
            HuffmanError::EndOfStringSymbol => "end-of-string symbol in string"@,
            HuffmanError::InvalidPadding => "invalid Huffman padding"@,
        }
    }

    /// The human-readable description of the error.
    pub fn message(&self) -> (r: &'static str)
        ensures
            r@ == self.spec_message(),
    {
        match self {
            HuffmanError::InvalidCode => "invalid Huffman code",
            HuffmanError::EndOfStringSymbol => "end-of-string symbol in string",
            HuffmanError::InvalidPadding => "invalid Huffman padding",
        }
    }
}

/// HPACK decoding error.
#[derive(Debug, Clone, Copy, PartialEq, Eq, Structural)]
pub enum HpackError {
    /// Not enough data to decode.
    Incomplete,
    /// Invalid integer encoding.
    InvalidInteger,
    /// Invalid string encoding.
    InvalidString,
    /// Invalid Huffman encoding.
    InvalidHuffman(HuffmanError),
    /// Invalid table index.
    InvalidIndex(usize),
    /// Invalid table size update.
    InvalidTableSize,
}

impl HpackError {
    /// The human-readable description of the error.
    pub open spec fn spec_message(self) -> Seq<char> {
        match self {
            HpackError::Incomplete => "incomplete HPACK data"@,
            HpackError::InvalidInteger => "invalid HPACK integer encoding"@,
            HpackError::InvalidString => "invalid HPACK string encoding"@,
            HpackError::InvalidHuffman(e) => "invalid Huffman encoding: "@ + e.spec_message(),
            HpackError::InvalidIndex(idx) => "invalid table index: "@ + decimal(idx as nat),
            HpackError::InvalidTableSize => "invalid table size update"@,
        }
    }

    /// The human-readable description of the error.
    pub fn message(&self) -> (r: String)
        ensures
            r@ == self.spec_message(),
    {
        let mut s = String::new();
        match *self {
            HpackError::Incomplete => s.append("incomplete HPACK data"),
            HpackError::InvalidInteger => s.append("invalid HPACK integer encoding"),
            HpackError::InvalidString => s.append("invalid HPACK string encoding"),
            HpackError::InvalidHuffman(e) => {
                s.append("invalid Huffman encoding: ");
                s.append(e.message());
            },
            HpackError::InvalidIndex(idx) => {
                s.append("invalid table index: ");
                push_decimal(&mut s, idx as u64);
            },
            HpackError::InvalidTableSize => s.append("invalid table size update"),
        }
        s
    }
}

impl HuffmanError {
    /// The variant's name, as the derived `Debug` writes it.
    pub open spec fn spec_debug(self) -> Seq<char> {
        match self {
            HuffmanError::InvalidCode => "InvalidCode"@,
            HuffmanError::EndOfStringSymbol => "EndOfStringSymbol"@,
            HuffmanError::InvalidPadding => "InvalidPadding"@,
        }
    }
}

impl HpackError {
    /// The error as the derived `Debug` writes it.
    pub open spec fn spec_debug(self) -> Seq<char> {
        match self {
            HpackError::Incomplete => "Incomplete"@,
            HpackError::InvalidInteger => "InvalidInteger"@,
            HpackError::InvalidString => "InvalidString"@,
            HpackError::InvalidHuffman(e) => "InvalidHuffman("@ + e.spec_debug() + ")"@,
            HpackError::InvalidIndex(idx) => "InvalidIndex("@ + decimal(idx as nat) + ")"@,
            HpackError::InvalidTableSize => "InvalidTableSize"@,
        }
    }

    /// The error as the derived `Debug` writes it, for connection errors.
    pub fn debug_text(&self) -> (r: String)
        ensures
            r@ == self.spec_debug(),
    {
        let mut s = String::new();
        match *self {
            HpackError::Incomplete => s.append("Incomplete"),
            HpackError::InvalidInteger => s.append("InvalidInteger"),
            HpackError::InvalidString => s.append("InvalidString"),
            HpackError::InvalidHuffman(e) => {
                s.append("InvalidHuffman(");
                match e {
                    HuffmanError::InvalidCode => s.append("InvalidCode"),
                    HuffmanError::EndOfStringSymbol => s.append("EndOfStringSymbol"),
                    HuffmanError::InvalidPadding => s.append("InvalidPadding"),
                }
                s.append(")");
            },
            HpackError::InvalidIndex(idx) => {
                s.append("InvalidIndex(");
                push_decimal(&mut s, idx as u64);
                s.append(")");
            },
            HpackError::InvalidTableSize => s.append("InvalidTableSize"),
        }
        s
    }
}

impl From<HuffmanError> for HpackError {
    fn from(e: HuffmanError) -> (r: Self) {
        HpackError::InvalidHuffman(e)
    }
}

impl vstd::std_specs::convert::FromSpecImpl<HuffmanError> for HpackError {
    open spec fn obeys_from_spec() -> bool {
        true
    }

    open spec fn from_spec(e: HuffmanError) -> HpackError {
        HpackError::InvalidHuffman(e)
    }
}

} // verus!
