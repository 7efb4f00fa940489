//! HPACK static and dynamic tables.
use vstd::prelude::*;
use std::collections::VecDeque;
use vstd::slice::slice_to_vec;

verus! {

/// The size of a header field for table accounting: the length of its name
/// plus the length of its value plus 32 (RFC 7541 Section 4.1).
pub open spec fn entry_size(e: (Seq<u8>, Seq<u8>)) -> nat {
    e.0.len() + e.1.len() + 32
}

/// Whether two byte slices hold the same bytes.
pub fn bytes_eq(a: &[u8], b: &[u8]) -> (r: bool)
    ensures
        r == (a@ == b@),
{
    if a.len() != b.len() {
        return false;
    }
    let mut i: usize = 0;
    while i < a.len()
        invariant
            i <= a.len(),
            a@.len() == b@.len(),
            forall|j: int| 0 <= j < i ==> a@[j] == b@[j],
        decreases a.len() - i,
    {
        if a[i] != b[i] {
            return false;
        }
        i = i + 1;
    }
    assert(a@ =~= b@);
    true
}

/// A header field (name-value pair).
#[derive(Debug, Clone, PartialEq, Eq)]
pub struct HeaderField {
    pub name: Vec<u8>,
    pub value: Vec<u8>,
}

impl View for HeaderField {
    type V = (Seq<u8>, Seq<u8>);

    open spec fn view(&self) -> (Seq<u8>, Seq<u8>) {
        (self.name@, self.value@)
    }
}

impl HeaderField {
    /// Create a new header field.
    pub fn new(name: Vec<u8>, value: Vec<u8>) -> (r: Self)
        ensures
            r@ == (name@, value@),
    {
        HeaderField { name, value }
    }

    /// Create a static table entry from name and value bytes.
    pub fn from_static(name: &[u8], value: &[u8]) -> (r: StaticEntry)
        ensures
            r.name@ == name@,
            r.value@ == value@,
    {
        StaticEntry { name: slice_to_vec(name), value: slice_to_vec(value) }
    }

    /// A copy of this header field.
    pub fn duplicate(&self) -> (r: HeaderField)
        ensures
            r@ == self@,
    {
        HeaderField { name: slice_to_vec(self.name.as_slice()), value: slice_to_vec(self.value.as_slice()) }
    }

    /// Get the size of this header field for table accounting.
    /// Size = length of name + length of value + 32 (RFC 7541 Section 4.1)
    pub fn size(&self) -> (r: usize)
        requires
            entry_size(self@) <= usize::MAX,
        ensures
            r == entry_size(self@),
    {
        self.name.len() + self.value.len() + 32
    }
}

/// A static table entry.
#[derive(Debug, Clone)]
pub struct StaticEntry {
    pub name: Vec<u8>,
    pub value: Vec<u8>,
}

impl StaticEntry {
    /// Get the size of this header field for table accounting.
    pub fn size(&self) -> (r: usize)
        requires
            entry_size((self.name@, self.value@)) <= usize::MAX,
        ensures
            r == entry_size((self.name@, self.value@)),
    {
        self.name.len() + self.value.len() + 32
    }
}

/// The name of static table entry `i` (1..=61), RFC 7541 Appendix A.
pub open spec fn static_name(i: int) -> Seq<u8> {
    if i == 1 {
        seq![0x3au8, 0x61, 0x75, 0x74, 0x68, 0x6f, 0x72, 0x69, 0x74, 0x79] // :authority
    } else if i == 2 {
        seq![0x3au8, 0x6d, 0x65, 0x74, 0x68, 0x6f, 0x64] // :method
    } else if i == 3 {
        seq![0x3au8, 0x6d, 0x65, 0x74, 0x68, 0x6f, 0x64] // :method
    } else if i == 4 {
        seq![0x3au8, 0x70, 0x61, 0x74, 0x68] // :path
    } else if i == 5 {
        seq![0x3au8, 0x70, 0x61, 0x74, 0x68] // :path
    } else if i == 6 {
        seq![0x3au8, 0x73, 0x63, 0x68, 0x65, 0x6d, 0x65] // :scheme
    } else if i == 7 {
        seq![0x3au8, 0x73, 0x63, 0x68, 0x65, 0x6d, 0x65] // :scheme
    } else if i == 8 {
        seq![0x3au8, 0x73, 0x74, 0x61, 0x74, 0x75, 0x73] // :status
    } else if i == 9 {
        seq![0x3au8, 0x73, 0x74, 0x61, 0x74, 0x75, 0x73] // :status
    } else if i == 10 {
        seq![0x3au8, 0x73, 0x74, 0x61, 0x74, 0x75, 0x73] // :status
    } else if i == 11 {
        seq![0x3au8, 0x73, 0x74, 0x61, 0x74, 0x75, 0x73] // :status
    } else if i == 12 {
        seq![0x3au8, 0x73, 0x74, 0x61, 0x74, 0x75, 0x73] // :status
    } else if i == 13 {
        seq![0x3au8, 0x73, 0x74, 0x61, 0x74, 0x75, 0x73] // :status
    } else if i == 14 {
        seq![0x3au8, 0x73, 0x74, 0x61, 0x74, 0x75, 0x73] // :status
    } else if i == 15 {
        seq![0x61u8, 0x63, 0x63, 0x65, 0x70, 0x74, 0x2d, 0x63, 0x68, 0x61, 0x72, 0x73, 0x65, 0x74] // accept-charset
    } else if i == 16 {
        seq![0x61u8, 0x63, 0x63, 0x65, 0x70, 0x74, 0x2d, 0x65, 0x6e, 0x63, 0x6f, 0x64, 0x69, 0x6e, 0x67] // accept-encoding
    } else if i == 17 {
        seq![0x61u8, 0x63, 0x63, 0x65, 0x70, 0x74, 0x2d, 0x6c, 0x61, 0x6e, 0x67, 0x75, 0x61, 0x67, 0x65] // accept-language
    } else if i == 18 {
        seq![0x61u8, 0x63, 0x63, 0x65, 0x70, 0x74, 0x2d, 0x72, 0x61, 0x6e, 0x67, 0x65, 0x73] // accept-ranges
    } else if i == 19 {
        seq![0x61u8, 0x63, 0x63, 0x65, 0x70, 0x74] // accept
    } else if i == 20 {
        seq![0x61u8, 0x63, 0x63, 0x65, 0x73, 0x73, 0x2d, 0x63, 0x6f, 0x6e, 0x74, 0x72, 0x6f, 0x6c, 0x2d, 0x61, 0x6c, 0x6c, 0x6f, 0x77, 0x2d, 0x6f, 0x72, 0x69, 0x67, 0x69, 0x6e] // access-control-allow-origin
    } else if i == 21 {
        seq![0x61u8, 0x67, 0x65] // age
    } else if i == 22 {
        seq![0x61u8, 0x6c, 0x6c, 0x6f, 0x77] // allow
    } else if i == 23 {
        seq![0x61u8, 0x75, 0x74, 0x68, 0x6f, 0x72, 0x69, 0x7a, 0x61, 0x74, 0x69, 0x6f, 0x6e] // authorization
    } else if i == 24 {
        seq![0x63u8, 0x61, 0x63, 0x68, 0x65, 0x2d, 0x63, 0x6f, 0x6e, 0x74, 0x72, 0x6f, 0x6c] // cache-control
    } else if i == 25 {
        seq![0x63u8, 0x6f, 0x6e, 0x74, 0x65, 0x6e, 0x74, 0x2d, 0x64, 0x69, 0x73, 0x70, 0x6f, 0x73, 0x69, 0x74, 0x69, 0x6f, 0x6e] // content-disposition
    } else if i == 26 {
        seq![0x63u8, 0x6f, 0x6e, 0x74, 0x65, 0x6e, 0x74, 0x2d, 0x65, 0x6e, 0x63, 0x6f, 0x64, 0x69, 0x6e, 0x67] // content-encoding
    } else if i == 27 {
        seq![0x63u8, 0x6f, 0x6e, 0x74, 0x65, 0x6e, 0x74, 0x2d, 0x6c, 0x61, 0x6e, 0x67, 0x75, 0x61, 0x67, 0x65] // content-language
    } else if i == 28 {
        seq![0x63u8, 0x6f, 0x6e, 0x74, 0x65, 0x6e, 0x74, 0x2d, 0x6c, 0x65, 0x6e, 0x67, 0x74, 0x68] // content-length
    } else if i == 29 {
        seq![0x63u8, 0x6f, 0x6e, 0x74, 0x65, 0x6e, 0x74, 0x2d, 0x6c, 0x6f, 0x63, 0x61, 0x74, 0x69, 0x6f, 0x6e] // content-location
    } else if i == 30 {
        seq![0x63u8, 0x6f, 0x6e, 0x74, 0x65, 0x6e, 0x74, 0x2d, 0x72, 0x61, 0x6e, 0x67, 0x65] // content-range
    } else if i == 31 {
        seq![0x63u8, 0x6f, 0x6e, 0x74, 0x65, 0x6e, 0x74, 0x2d, 0x74, 0x79, 0x70, 0x65] // content-type
    } else if i == 32 {
        seq![0x63u8, 0x6f, 0x6f, 0x6b, 0x69, 0x65] // cookie
    } else if i == 33 {
        seq![0x64u8, 0x61, 0x74, 0x65] // date
    } else if i == 34 {
        seq![0x65u8, 0x74, 0x61, 0x67] // etag
    } else if i == 35 {
        seq![0x65u8, 0x78, 0x70, 0x65, 0x63, 0x74] // expect
    } else if i == 36 {
        seq![0x65u8, 0x78, 0x70, 0x69, 0x72, 0x65, 0x73] // expires
    } else if i == 37 {
        seq![0x66u8, 0x72, 0x6f, 0x6d] // from
    } else if i == 38 {
        seq![0x68u8, 0x6f, 0x73, 0x74] // host
    } else if i == 39 {
        seq![0x69u8, 0x66, 0x2d, 0x6d, 0x61, 0x74, 0x63, 0x68] // if-match
    } else if i == 40 {
        seq![0x69u8, 0x66, 0x2d, 0x6d, 0x6f, 0x64, 0x69, 0x66, 0x69, 0x65, 0x64, 0x2d, 0x73, 0x69, 0x6e, 0x63, 0x65] // if-modified-since
    } else if i == 41 {
        seq![0x69u8, 0x66, 0x2d, 0x6e, 0x6f, 0x6e, 0x65, 0x2d, 0x6d, 0x61, 0x74, 0x63, 0x68] // if-none-match
    } else if i == 42 {
        seq![0x69u8, 0x66, 0x2d, 0x72, 0x61, 0x6e, 0x67, 0x65] // if-range
    } else if i == 43 {
        seq![0x69u8, 0x66, 0x2d, 0x75, 0x6e, 0x6d, 0x6f, 0x64, 0x69, 0x66, 0x69, 0x65, 0x64, 0x2d, 0x73, 0x69, 0x6e, 0x63, 0x65] // if-unmodified-since
    } else if i == 44 {
        seq![0x6cu8, 0x61, 0x73, 0x74, 0x2d, 0x6d, 0x6f, 0x64, 0x69, 0x66, 0x69, 0x65, 0x64] // last-modified
    } else if i == 45 {
        seq![0x6cu8, 0x69, 0x6e, 0x6b] // link
    } else if i == 46 {
        seq![0x6cu8, 0x6f, 0x63, 0x61, 0x74, 0x69, 0x6f, 0x6e] // location
    } else if i == 47 {
        seq![0x6du8, 0x61, 0x78, 0x2d, 0x66, 0x6f, 0x72, 0x77, 0x61, 0x72, 0x64, 0x73] // max-forwards
    } else if i == 48 {
        seq![0x70u8, 0x72, 0x6f, 0x78, 0x79, 0x2d, 0x61, 0x75, 0x74, 0x68, 0x65, 0x6e, 0x74, 0x69, 0x63, 0x61, 0x74, 0x65] // proxy-authenticate
    } else if i == 49 {
        seq![0x70u8, 0x72, 0x6f, 0x78, 0x79, 0x2d, 0x61, 0x75, 0x74, 0x68, 0x6f, 0x72, 0x69, 0x7a, 0x61, 0x74, 0x69, 0x6f, 0x6e] // proxy-authorization
    } else if i == 50 {
        seq![0x72u8, 0x61, 0x6e, 0x67, 0x65] // range
    } else if i == 51 {
        seq![0x72u8, 0x65, 0x66, 0x65, 0x72, 0x65, 0x72] // referer
    } else if i == 52 {
        seq![0x72u8, 0x65, 0x66, 0x72, 0x65, 0x73, 0x68] // refresh
    } else if i == 53 {
        seq![0x72u8, 0x65, 0x74, 0x72, 0x79, 0x2d, 0x61, 0x66, 0x74, 0x65, 0x72] // retry-after
    } else if i == 54 {
        seq![0x73u8, 0x65, 0x72, 0x76, 0x65, 0x72] // server
    } else if i == 55 {
        seq![0x73u8, 0x65, 0x74, 0x2d, 0x63, 0x6f, 0x6f, 0x6b, 0x69, 0x65] // set-cookie
    } else if i == 56 {
        seq![0x73u8, 0x74, 0x72, 0x69, 0x63, 0x74, 0x2d, 0x74, 0x72, 0x61, 0x6e, 0x73, 0x70, 0x6f, 0x72, 0x74, 0x2d, 0x73, 0x65, 0x63, 0x75, 0x72, 0x69, 0x74, 0x79] // strict-transport-security
    } else if i == 57 {
        seq![0x74u8, 0x72, 0x61, 0x6e, 0x73, 0x66, 0x65, 0x72, 0x2d, 0x65, 0x6e, 0x63, 0x6f, 0x64, 0x69, 0x6e, 0x67] // transfer-encoding
    } else if i == 58 {
        seq![0x75u8, 0x73, 0x65, 0x72, 0x2d, 0x61, 0x67, 0x65, 0x6e, 0x74] // user-agent
    } else if i == 59 {
        seq![0x76u8, 0x61, 0x72, 0x79] // vary
    } else if i == 60 {
        seq![0x76u8, 0x69, 0x61] // via
    } else if i == 61 {
        seq![0x77u8, 0x77, 0x77, 0x2d, 0x61, 0x75, 0x74, 0x68, 0x65, 0x6e, 0x74, 0x69, 0x63, 0x61, 0x74, 0x65] // www-authenticate
    } else {
        Seq::empty()
    }
}

/// The value of static table entry `i` (1..=61), RFC 7541 Appendix A.
pub open spec fn static_value(i: int) -> Seq<u8> {
    if i == 1 {
        Seq::empty() // 
    } else if i == 2 {
        seq![0x47u8, 0x45, 0x54] // GET
    } else if i == 3 {
        seq![0x50u8, 0x4f, 0x53, 0x54] // POST
    } else if i == 4 {
        seq![0x2fu8] // /
    } else if i == 5 {
        seq![0x2fu8, 0x69, 0x6e, 0x64, 0x65, 0x78, 0x2e, 0x68, 0x74, 0x6d, 0x6c] // /index.html
    } else if i == 6 {
        seq![0x68u8, 0x74, 0x74, 0x70] // http
    } else if i == 7 {
        seq![0x68u8, 0x74, 0x74, 0x70, 0x73] // https
    } else if i == 8 {
        seq![0x32u8, 0x30, 0x30] // 200
    } else if i == 9 {
        seq![0x32u8, 0x30, 0x34] // 204
    } else if i == 10 {
        seq![0x32u8, 0x30, 0x36] // 206
    } else if i == 11 {
        seq![0x33u8, 0x30, 0x34] // 304
    } else if i == 12 {
        seq![0x34u8, 0x30, 0x30] // 400
    } else if i == 13 {
        seq![0x34u8, 0x30, 0x34] // 404
    } else if i == 14 {
        seq![0x35u8, 0x30, 0x30] // 500
    } else if i == 15 {
        Seq::empty() // 
    } else if i == 16 {
        seq![0x67u8, 0x7a, 0x69, 0x70, 0x2c, 0x20, 0x64, 0x65, 0x66, 0x6c, 0x61, 0x74, 0x65] // gzip, deflate
    } else if i == 17 {
        Seq::empty() // 
    } else if i == 18 {
        Seq::empty() // 
    } else if i == 19 {
        Seq::empty() // 
    } else if i == 20 {
        Seq::empty() // 
    } else if i == 21 {
        Seq::empty() // 
    } else if i == 22 {
        Seq::empty() // 
    } else if i == 23 {
        Seq::empty() // 
    } else if i == 24 {
        Seq::empty() // 
    } else if i == 25 {
        Seq::empty() // 
    } else if i == 26 {
        Seq::empty() // 
    } else if i == 27 {
        Seq::empty() // 
    } else if i == 28 {
        Seq::empty() // 
    } else if i == 29 {
        Seq::empty() // 
    } else if i == 30 {
        Seq::empty() // 
    } else if i == 31 {
        Seq::empty() // 
    } else if i == 32 {
        Seq::empty() // 
    } else if i == 33 {
        Seq::empty() // 
    } else if i == 34 {
        Seq::empty() // 
    } else if i == 35 {
        Seq::empty() // 
    } else if i == 36 {
        Seq::empty() // 
    } else if i == 37 {
        Seq::empty() // 
    } else if i == 38 {
        Seq::empty() // 
    } else if i == 39 {
        Seq::empty() // 
    } else if i == 40 {
        Seq::empty() // 
    } else if i == 41 {
        Seq::empty() // 
    } else if i == 42 {
        Seq::empty() // 
    } else if i == 43 {
        Seq::empty() // 
    } else if i == 44 {
        Seq::empty() // 
    } else if i == 45 {
        Seq::empty() // 
    } else if i == 46 {
        Seq::empty() // 
    } else if i == 47 {
        Seq::empty() // 
    } else if i == 48 {
        Seq::empty() // 
    } else if i == 49 {
        Seq::empty() // 
    } else if i == 50 {
        Seq::empty() // 
    } else if i == 51 {
        Seq::empty() // 
    } else if i == 52 {
        Seq::empty() // 
    } else if i == 53 {
        Seq::empty() // 
    } else if i == 54 {
        Seq::empty() // 
    } else if i == 55 {
        Seq::empty() // 
    } else if i == 56 {
        Seq::empty() // 
    } else if i == 57 {
        Seq::empty() // 
    } else if i == 58 {
        Seq::empty() // 
    } else if i == 59 {
        Seq::empty() // 
    } else if i == 60 {
        Seq::empty() // 
    } else if i == 61 {
        Seq::empty() // 
    } else {
        Seq::empty()
    }
}

/// The name and value bytes of static table entry `index`.
fn static_entry_bytes(index: usize) -> (r: (Vec<u8>, Vec<u8>))
    requires
        1 <= index <= 61,
    ensures
        r.0@ == static_name(index as int),
        r.1@ == static_value(index as int),
{
    let r: (Vec<u8>, Vec<u8>) = match index {
            1 => (vec![0x3au8, 0x61, 0x75, 0x74, 0x68, 0x6f, 0x72, 0x69, 0x74, 0x79], Vec::new()),
            2 => (vec![0x3au8, 0x6d, 0x65, 0x74, 0x68, 0x6f, 0x64], vec![0x47u8, 0x45, 0x54]),
            3 => (vec![0x3au8, 0x6d, 0x65, 0x74, 0x68, 0x6f, 0x64], vec![0x50u8, 0x4f, 0x53, 0x54]),
            4 => (vec![0x3au8, 0x70, 0x61, 0x74, 0x68], vec![0x2fu8]),
            5 => (vec![0x3au8, 0x70, 0x61, 0x74, 0x68], vec![0x2fu8, 0x69, 0x6e, 0x64, 0x65, 0x78, 0x2e, 0x68, 0x74, 0x6d, 0x6c]),
            6 => (vec![0x3au8, 0x73, 0x63, 0x68, 0x65, 0x6d, 0x65], vec![0x68u8, 0x74, 0x74, 0x70]),
            7 => (vec![0x3au8, 0x73, 0x63, 0x68, 0x65, 0x6d, 0x65], vec![0x68u8, 0x74, 0x74, 0x70, 0x73]),
            8 => (vec![0x3au8, 0x73, 0x74, 0x61, 0x74, 0x75, 0x73], vec![0x32u8, 0x30, 0x30]),
            9 => (vec![0x3au8, 0x73, 0x74, 0x61, 0x74, 0x75, 0x73], vec![0x32u8, 0x30, 0x34]),
            10 => (vec![0x3au8, 0x73, 0x74, 0x61, 0x74, 0x75, 0x73], vec![0x32u8, 0x30, 0x36]),
            11 => (vec![0x3au8, 0x73, 0x74, 0x61, 0x74, 0x75, 0x73], vec![0x33u8, 0x30, 0x34]),
            12 => (vec![0x3au8, 0x73, 0x74, 0x61, 0x74, 0x75, 0x73], vec![0x34u8, 0x30, 0x30]),
            13 => (vec![0x3au8, 0x73, 0x74, 0x61, 0x74, 0x75, 0x73], vec![0x34u8, 0x30, 0x34]),
            14 => (vec![0x3au8, 0x73, 0x74, 0x61, 0x74, 0x75, 0x73], vec![0x35u8, 0x30, 0x30]),
            15 => (vec![0x61u8, 0x63, 0x63, 0x65, 0x70, 0x74, 0x2d, 0x63, 0x68, 0x61, 0x72, 0x73, 0x65, 0x74], Vec::new()),
            16 => (vec![0x61u8, 0x63, 0x63, 0x65, 0x70, 0x74, 0x2d, 0x65, 0x6e, 0x63, 0x6f, 0x64, 0x69, 0x6e, 0x67], vec![0x67u8, 0x7a, 0x69, 0x70, 0x2c, 0x20, 0x64, 0x65, 0x66, 0x6c, 0x61, 0x74, 0x65]),
            17 => (vec![0x61u8, 0x63, 0x63, 0x65, 0x70, 0x74, 0x2d, 0x6c, 0x61, 0x6e, 0x67, 0x75, 0x61, 0x67, 0x65], Vec::new()),
            18 => (vec![0x61u8, 0x63, 0x63, 0x65, 0x70, 0x74, 0x2d, 0x72, 0x61, 0x6e, 0x67, 0x65, 0x73], Vec::new()),
            19 => (vec![0x61u8, 0x63, 0x63, 0x65, 0x70, 0x74], Vec::new()),
            20 => (vec![0x61u8, 0x63, 0x63, 0x65, 0x73, 0x73, 0x2d, 0x63, 0x6f, 0x6e, 0x74, 0x72, 0x6f, 0x6c, 0x2d, 0x61, 0x6c, 0x6c, 0x6f, 0x77, 0x2d, 0x6f, 0x72, 0x69, 0x67, 0x69, 0x6e], Vec::new()),
            21 => (vec![0x61u8, 0x67, 0x65], Vec::new()),
            22 => (vec![0x61u8, 0x6c, 0x6c, 0x6f, 0x77], Vec::new()),
            23 => (vec![0x61u8, 0x75, 0x74, 0x68, 0x6f, 0x72, 0x69, 0x7a, 0x61, 0x74, 0x69, 0x6f, 0x6e], Vec::new()),
            24 => (vec![0x63u8, 0x61, 0x63, 0x68, 0x65, 0x2d, 0x63, 0x6f, 0x6e, 0x74, 0x72, 0x6f, 0x6c], Vec::new()),
            25 => (vec![0x63u8, 0x6f, 0x6e, 0x74, 0x65, 0x6e, 0x74, 0x2d, 0x64, 0x69, 0x73, 0x70, 0x6f, 0x73, 0x69, 0x74, 0x69, 0x6f, 0x6e], Vec::new()),
            26 => (vec![0x63u8, 0x6f, 0x6e, 0x74, 0x65, 0x6e, 0x74, 0x2d, 0x65, 0x6e, 0x63, 0x6f, 0x64, 0x69, 0x6e, 0x67], Vec::new()),
            27 => (vec![0x63u8, 0x6f, 0x6e, 0x74, 0x65, 0x6e, 0x74, 0x2d, 0x6c, 0x61, 0x6e, 0x67, 0x75, 0x61, 0x67, 0x65], Vec::new()),
            28 => (vec![0x63u8, 0x6f, 0x6e, 0x74, 0x65, 0x6e, 0x74, 0x2d, 0x6c, 0x65, 0x6e, 0x67, 0x74, 0x68], Vec::new()),
            29 => (vec![0x63u8, 0x6f, 0x6e, 0x74, 0x65, 0x6e, 0x74, 0x2d, 0x6c, 0x6f, 0x63, 0x61, 0x74, 0x69, 0x6f, 0x6e], Vec::new()),
            30 => (vec![0x63u8, 0x6f, 0x6e, 0x74, 0x65, 0x6e, 0x74, 0x2d, 0x72, 0x61, 0x6e, 0x67, 0x65], Vec::new()),
            31 => (vec![0x63u8, 0x6f, 0x6e, 0x74, 0x65, 0x6e, 0x74, 0x2d, 0x74, 0x79, 0x70, 0x65], Vec::new()),
            32 => (vec![0x63u8, 0x6f, 0x6f, 0x6b, 0x69, 0x65], Vec::new()),
            33 => (vec![0x64u8, 0x61, 0x74, 0x65], Vec::new()),
            34 => (vec![0x65u8, 0x74, 0x61, 0x67], Vec::new()),
            35 => (vec![0x65u8, 0x78, 0x70, 0x65, 0x63, 0x74], Vec::new()),
            36 => (vec![0x65u8, 0x78, 0x70, 0x69, 0x72, 0x65, 0x73], Vec::new()),
            37 => (vec![0x66u8, 0x72, 0x6f, 0x6d], Vec::new()),
            38 => (vec![0x68u8, 0x6f, 0x73, 0x74], Vec::new()),
            39 => (vec![0x69u8, 0x66, 0x2d, 0x6d, 0x61, 0x74, 0x63, 0x68], Vec::new()),
            40 => (vec![0x69u8, 0x66, 0x2d, 0x6d, 0x6f, 0x64, 0x69, 0x66, 0x69, 0x65, 0x64, 0x2d, 0x73, 0x69, 0x6e, 0x63, 0x65], Vec::new()),
            41 => (vec![0x69u8, 0x66, 0x2d, 0x6e, 0x6f, 0x6e, 0x65, 0x2d, 0x6d, 0x61, 0x74, 0x63, 0x68], Vec::new()),
            42 => (vec![0x69u8, 0x66, 0x2d, 0x72, 0x61, 0x6e, 0x67, 0x65], Vec::new()),
            43 => (vec![0x69u8, 0x66, 0x2d, 0x75, 0x6e, 0x6d, 0x6f, 0x64, 0x69, 0x66, 0x69, 0x65, 0x64, 0x2d, 0x73, 0x69, 0x6e, 0x63, 0x65], Vec::new()),
            44 => (vec![0x6cu8, 0x61, 0x73, 0x74, 0x2d, 0x6d, 0x6f, 0x64, 0x69, 0x66, 0x69, 0x65, 0x64], Vec::new()),
            45 => (vec![0x6cu8, 0x69, 0x6e, 0x6b], Vec::new()),
            46 => (vec![0x6cu8, 0x6f, 0x63, 0x61, 0x74, 0x69, 0x6f, 0x6e], Vec::new()),
            47 => (vec![0x6du8, 0x61, 0x78, 0x2d, 0x66, 0x6f, 0x72, 0x77, 0x61, 0x72, 0x64, 0x73], Vec::new()),
            48 => (vec![0x70u8, 0x72, 0x6f, 0x78, 0x79, 0x2d, 0x61, 0x75, 0x74, 0x68, 0x65, 0x6e, 0x74, 0x69, 0x63, 0x61, 0x74, 0x65], Vec::new()),
            49 => (vec![0x70u8, 0x72, 0x6f, 0x78, 0x79, 0x2d, 0x61, 0x75, 0x74, 0x68, 0x6f, 0x72, 0x69, 0x7a, 0x61, 0x74, 0x69, 0x6f, 0x6e], Vec::new()),
            50 => (vec![0x72u8, 0x61, 0x6e, 0x67, 0x65], Vec::new()),
            51 => (vec![0x72u8, 0x65, 0x66, 0x65, 0x72, 0x65, 0x72], Vec::new()),
            52 => (vec![0x72u8, 0x65, 0x66, 0x72, 0x65, 0x73, 0x68], Vec::new()),
            53 => (vec![0x72u8, 0x65, 0x74, 0x72, 0x79, 0x2d, 0x61, 0x66, 0x74, 0x65, 0x72], Vec::new()),
            54 => (vec![0x73u8, 0x65, 0x72, 0x76, 0x65, 0x72], Vec::new()),
            55 => (vec![0x73u8, 0x65, 0x74, 0x2d, 0x63, 0x6f, 0x6f, 0x6b, 0x69, 0x65], Vec::new()),
            56 => (vec![0x73u8, 0x74, 0x72, 0x69, 0x63, 0x74, 0x2d, 0x74, 0x72, 0x61, 0x6e, 0x73, 0x70, 0x6f, 0x72, 0x74, 0x2d, 0x73, 0x65, 0x63, 0x75, 0x72, 0x69, 0x74, 0x79], Vec::new()),
            57 => (vec![0x74u8, 0x72, 0x61, 0x6e, 0x73, 0x66, 0x65, 0x72, 0x2d, 0x65, 0x6e, 0x63, 0x6f, 0x64, 0x69, 0x6e, 0x67], Vec::new()),
            58 => (vec![0x75u8, 0x73, 0x65, 0x72, 0x2d, 0x61, 0x67, 0x65, 0x6e, 0x74], Vec::new()),
            59 => (vec![0x76u8, 0x61, 0x72, 0x79], Vec::new()),
            60 => (vec![0x76u8, 0x69, 0x61], Vec::new()),
            61 => (vec![0x77u8, 0x77, 0x77, 0x2d, 0x61, 0x75, 0x74, 0x68, 0x65, 0x6e, 0x74, 0x69, 0x63, 0x61, 0x74, 0x65], Vec::new()),
            _ => (Vec::new(), Vec::new()),
        };
    r
}

/// The first static index from `i` on whose name and value are `name` and
/// `value`.
pub open spec fn static_first_exact(name: Seq<u8>, value: Seq<u8>, i: int) -> Option<int>
    decreases 62 - i,
{
    if i > 61 || i < 1 {
        None
    } else if static_name(i) == name && static_value(i) == value {
        Some(i)
    } else {
        static_first_exact(name, value, i + 1)
    }
}

/// The first static index from `i` on whose name is `name`.
pub open spec fn static_first_name(name: Seq<u8>, i: int) -> Option<int>
    decreases 62 - i,
{
    if i > 61 || i < 1 {
        None
    } else if static_name(i) == name {
        Some(i)
    } else {
        static_first_name(name, i + 1)
    }
}

/// Where a header field is in the static table: the first entry with the
/// same name and value, else the first entry with the same name.
pub open spec fn static_find(name: Seq<u8>, value: Seq<u8>) -> Option<(int, bool)> {
    match static_first_exact(name, value, 1) {
        Some(i) => Some((i, true)),
        None => match static_first_name(name, 1) {
            Some(i) => Some((i, false)),
            None => None,
        },
    }
}

/// The HPACK static table (RFC 7541 Appendix A).
///
/// Index 1-61, index 0 is invalid.
pub struct StaticTable;

impl StaticTable {
    /// Get a static table entry by index (1-61).
    pub fn get(index: usize) -> (r: Option<StaticEntry>)
        ensures
            match r {
                Some(e) => 1 <= index <= 61 && e.name@ == static_name(index as int) && e.value@
                    == static_value(index as int),
                None => index == 0 || index > 61,
            },
    {
        if index == 0 || index > 61 {
            None
        } else {
            let (name, value) = static_entry_bytes(index);
            Some(StaticEntry { name, value })
        }
    }

    /// Find an entry in the static table.
    /// Returns (index, exact_match) where exact_match is true if both name
    /// and value match.
    pub fn find(name: &[u8], value: &[u8]) -> (r: Option<(usize, bool)>)
        ensures
            match r {
                Some((i, exact)) => static_find(name@, value@) == Some((i as int, exact)),
                None => static_find(name@, value@) is None,
            },
    {
        let mut name_match: Option<usize> = None;
        let mut i: usize = 1;
        while i <= 61
            invariant
                1 <= i <= 62,
                static_first_exact(name@, value@, 1) == static_first_exact(name@, value@, i as int),
                match name_match {
                    Some(j) => static_first_name(name@, 1) == Some(j as int),
                    None => static_first_name(name@, 1) == static_first_name(name@, i as int),
                },
            decreases 62 - i,
        {
            let (entry_name, entry_value) = static_entry_bytes(i);
            if bytes_eq(entry_name.as_slice(), name) {
                if bytes_eq(entry_value.as_slice(), value) {
                    return Some((i, true));
                }
                if name_match.is_none() {
                    name_match = Some(i);
                }
            }
            i = i + 1;
        }
        match name_match {
            Some(i) => Some((i, false)),
            None => None,
        }
    }

    /// Get the number of entries in the static table.
    pub fn len() -> (r: usize)
        ensures
            r == 61,
    {
        61
    }
}


/// The total size of a list of entries.
pub open spec fn entries_size(entries: Seq<(Seq<u8>, Seq<u8>)>) -> nat
    decreases entries.len(),
{
    if entries.len() == 0 {
        0
    } else {
        entries_size(entries.drop_last()) + entry_size(entries.last())
    }
}

/// `entries` with the oldest entries (at the back) dropped until the total
/// size is at most `limit`.
pub open spec fn evict_to(entries: Seq<(Seq<u8>, Seq<u8>)>, limit: nat) -> Seq<(Seq<u8>, Seq<u8>)>
    decreases entries.len(),
{
    if entries.len() == 0 || entries_size(entries) <= limit {
        entries
    } else {
        evict_to(entries.drop_last(), limit)
    }
}

/// The state of a dynamic table: its entries, newest first, their total
/// size and the size limit.
pub struct DynamicTableView {
    pub entries: Seq<(Seq<u8>, Seq<u8>)>,
    pub size: nat,
    pub max_size: nat,
}

impl DynamicTableView {
    /// The entries account for the size, and the size is within the limit.
    pub open spec fn wf(self) -> bool {
        &&& self.size == entries_size(self.entries)
        &&& self.size <= self.max_size
    }

    /// The table after a new size limit: the oldest entries are evicted
    /// until the rest fits.
    pub open spec fn with_max_size(self, max_size: nat) -> DynamicTableView {
        let kept = evict_to(self.entries, max_size);
        DynamicTableView { entries: kept, size: entries_size(kept), max_size }
    }

    /// The table after inserting `e`: an entry larger than the whole table
    /// empties it; otherwise the oldest entries are evicted until `e` fits,
    /// and `e` becomes the newest entry.
    pub open spec fn insert(self, e: (Seq<u8>, Seq<u8>)) -> DynamicTableView {
        if entry_size(e) > self.max_size {
            DynamicTableView { entries: Seq::empty(), size: 0, ..self }
        } else {
            let kept = evict_to(self.entries, (self.max_size - entry_size(e)) as nat);
            DynamicTableView {
                entries: seq![e] + kept,
                size: entries_size(kept) + entry_size(e),
                ..self
            }
        }
    }
}

/// The first dynamic index from `i` on whose name and value are `name` and
/// `value`.
pub open spec fn dynamic_first_exact(
    entries: Seq<(Seq<u8>, Seq<u8>)>,
    name: Seq<u8>,
    value: Seq<u8>,
    i: int,
) -> Option<int>
    decreases entries.len() - i,
{
    if i >= entries.len() || i < 0 {
        None
    } else if entries[i].0 == name && entries[i].1 == value {
        Some(i)
    } else {
        dynamic_first_exact(entries, name, value, i + 1)
    }
}

/// The first dynamic index from `i` on whose name is `name`.
pub open spec fn dynamic_first_name(entries: Seq<(Seq<u8>, Seq<u8>)>, name: Seq<u8>, i: int) -> Option<
    int,
>
    decreases entries.len() - i,
{
    if i >= entries.len() || i < 0 {
        None
    } else if entries[i].0 == name {
        Some(i)
    } else {
        dynamic_first_name(entries, name, i + 1)
    }
}

/// Where a header field is in a dynamic table: the first entry with the same
/// name and value, else the first entry with the same name.
pub open spec fn dynamic_find(entries: Seq<(Seq<u8>, Seq<u8>)>, name: Seq<u8>, value: Seq<u8>) -> Option<
    (int, bool),
> {
    match dynamic_first_exact(entries, name, value, 0) {
        Some(i) => Some((i, true)),
        None => match dynamic_first_name(entries, name, 0) {
            Some(i) => Some((i, false)),
            None => None,
        },
    }
}

/// Whatever the dynamic search finds is an index into the table.
pub proof fn lemma_dynamic_find_in_range(
    entries: Seq<(Seq<u8>, Seq<u8>)>,
    name: Seq<u8>,
    value: Seq<u8>,
)
    ensures
        dynamic_find(entries, name, value) matches Some((i, _)) ==> 0 <= i < entries.len(),
{
    lemma_first_exact_in_range(entries, name, value, 0);
    lemma_first_name_in_range(entries, name, 0);
}

proof fn lemma_first_exact_in_range(
    entries: Seq<(Seq<u8>, Seq<u8>)>,
    name: Seq<u8>,
    value: Seq<u8>,
    i: int,
)
    ensures
        dynamic_first_exact(entries, name, value, i) matches Some(j) ==> i <= j < entries.len(),
    decreases entries.len() - i,
{
    if 0 <= i < entries.len() {
        lemma_first_exact_in_range(entries, name, value, i + 1);
    }
}

proof fn lemma_first_name_in_range(entries: Seq<(Seq<u8>, Seq<u8>)>, name: Seq<u8>, i: int)
    ensures
        dynamic_first_name(entries, name, i) matches Some(j) ==> i <= j < entries.len(),
    decreases entries.len() - i,
{
    if 0 <= i < entries.len() {
        lemma_first_name_in_range(entries, name, i + 1);
    }
}

proof fn lemma_entries_size_push_front(e: (Seq<u8>, Seq<u8>), s: Seq<(Seq<u8>, Seq<u8>)>)
    ensures
        entries_size(seq![e] + s) == entry_size(e) + entries_size(s),
    decreases s.len(),
{
    let t = seq![e] + s;
    if s.len() > 0 {
        assert(t.drop_last() =~= seq![e] + s.drop_last());
        assert(t.last() == s.last());
        lemma_entries_size_push_front(e, s.drop_last());
    } else {
        assert(t.drop_last() =~= Seq::<(Seq<u8>, Seq<u8>)>::empty());
        assert(t.last() == e);
        assert(entries_size(Seq::<(Seq<u8>, Seq<u8>)>::empty()) == 0);
        assert(s =~= Seq::<(Seq<u8>, Seq<u8>)>::empty());
    }
}

proof fn lemma_evict_to_fits(entries: Seq<(Seq<u8>, Seq<u8>)>, limit: nat)
    ensures
        entries_size(evict_to(entries, limit)) <= limit || evict_to(entries, limit).len() == 0,
        evict_to(entries, limit).len() <= entries.len(),
        evict_to(entries, limit) == entries.take(evict_to(entries, limit).len() as int),
    decreases entries.len(),
{
    if entries.len() == 0 || entries_size(entries) <= limit {
        assert(entries.take(entries.len() as int) =~= entries);
    } else {
        lemma_evict_to_fits(entries.drop_last(), limit);
        let k = evict_to(entries, limit).len() as int;
        assert(entries.drop_last().take(k) =~= entries.take(k));
    }
}

/// The HPACK dynamic table.
///
/// The dynamic table is a FIFO queue of header fields, with newest entries
/// at the front. Entries are evicted from the back when the table exceeds
/// its maximum size.
pub struct DynamicTable {
    /// Header entries, newest first.
    entries: VecDeque<HeaderField>,
    /// Current size in bytes.
    size: usize,
    /// Maximum size in bytes.
    max_size: usize,
}

impl View for DynamicTable {
    type V = DynamicTableView;

    closed spec fn view(&self) -> DynamicTableView {
        DynamicTableView {
            entries: self.entries@.map_values(|h: HeaderField| h@),
            size: self.size as nat,
            max_size: self.max_size as nat,
        }
    }
}

impl DynamicTable {
    /// Create a new dynamic table with the given maximum size.
    pub fn new(max_size: usize) -> (r: Self)
        ensures
            r@ == (DynamicTableView { entries: Seq::empty(), size: 0, max_size: max_size as nat }),
            r@.wf(),
    {
        let r = DynamicTable { entries: VecDeque::new(), size: 0, max_size };
        assert(r@.entries =~= Seq::<(Seq<u8>, Seq<u8>)>::empty());
        r
    }

    /// The size and its limit are held in machine words.
    pub proof fn lemma_fits_usize(&self)
        ensures
            self@.size <= usize::MAX,
            self@.max_size <= usize::MAX,
    {
    }

    /// Evict entries from the back until the size is at most `limit`.
    fn evict_down_to(&mut self, limit: usize)
        requires
            old(self)@.size == entries_size(old(self)@.entries),
        ensures
            final(self)@.entries == evict_to(old(self)@.entries, limit as nat),
            final(self)@.size == entries_size(final(self)@.entries),
            final(self)@.max_size == old(self)@.max_size,
    {
        while self.size > limit && self.entries.len() > 0
            invariant
                self@.size == entries_size(self@.entries),
                self@.max_size == old(self)@.max_size,
                evict_to(old(self)@.entries, limit as nat) == evict_to(self@.entries, limit as nat),
            decreases self.entries@.len(),
        {
            let ghost before = self@.entries;
            if let Some(evicted) = self.entries.pop_back() {
                proof {
                    assert(self@.entries =~= before.drop_last());
                    assert(evicted@ == before.last());
                }
                self.size = self.size - (evicted.name.len() + evicted.value.len() + 32);
            }
        }
        proof {
            if self@.entries.len() == 0 {
                assert(self@.entries =~= Seq::<(Seq<u8>, Seq<u8>)>::empty());
            }
        }
    }

    /// Set the maximum size of the table, evicting entries as needed.
    pub fn set_max_size(&mut self, max_size: usize)
        requires
            old(self)@.wf(),
        ensures
            final(self)@ == old(self)@.with_max_size(max_size as nat),
            final(self)@.wf(),
    {
        self.max_size = max_size;
        self.evict_down_to(max_size);
        proof {
            lemma_evict_to_fits(old(self)@.entries, max_size as nat);
        }
    }

    /// Get an entry by index (0 = newest entry).
    pub fn get(&self, index: usize) -> (r: Option<&HeaderField>)
        ensures
            match r {
                Some(h) => index < self@.entries.len() && h@ == self@.entries[index as int],
                None => index >= self@.entries.len(),
            },
    {
        if index < self.entries.len() {
            Some(&self.entries[index])
        } else {
            None
        }
    }

    /// Insert a new entry at the front of the table.
    pub fn insert(&mut self, field: HeaderField)
        requires
            old(self)@.wf(),
        ensures
            final(self)@ == old(self)@.insert(field@),
            final(self)@.wf(),
    {
        // A size beyond `usize::MAX` is larger than any table.
        let sized: Option<usize> = match field.name.len().checked_add(field.value.len()) {
            Some(n) => n.checked_add(32),
            None => None,
        };
        // If the entry is larger than the table, clear the table
        let entry_size: usize = match sized {
            Some(n) if n <= self.max_size => n,
            _ => {
                self.entries.clear();
                self.size = 0;
                assert(self@.entries =~= Seq::<(Seq<u8>, Seq<u8>)>::empty());
                return;
            },
        };

        // Evict entries until there's room
        self.evict_down_to(self.max_size - entry_size);
        proof {
            lemma_evict_to_fits(old(self)@.entries, (old(self)@.max_size - entry_size) as nat);
        }
        let ghost kept = self@.entries;
        self.entries.push_front(field);
        proof {
            assert(self@.entries =~= seq![field@] + kept);
            lemma_entries_size_push_front(field@, kept);
        }
        self.size = self.size + entry_size;
    }

    /// Find an entry in the dynamic table.
    /// Returns (index, exact_match) where index is 0-based within the
    /// dynamic table.
    pub fn find(&self, name: &[u8], value: &[u8]) -> (r: Option<(usize, bool)>)
        ensures
            match r {
                Some((i, exact)) => dynamic_find(self@.entries, name@, value@) == Some(
                    (i as int, exact),
                ),
                None => dynamic_find(self@.entries, name@, value@) is None,
            },
    {
        let ghost entries = self@.entries;
        let mut name_match: Option<usize> = None;
        let mut i: usize = 0;
        while i < self.entries.len()
            invariant
                0 <= i <= self@.entries.len(),
                entries == self@.entries,
                dynamic_first_exact(entries, name@, value@, 0) == dynamic_first_exact(
                    entries,
                    name@,
                    value@,
                    i as int,
                ),
                match name_match {
                    Some(j) => dynamic_first_name(entries, name@, 0) == Some(j as int),
                    None => dynamic_first_name(entries, name@, 0) == dynamic_first_name(
                        entries,
                        name@,
                        i as int,
                    ),
                },
            decreases self@.entries.len() - i,
        {
            let entry = &self.entries[i];
            assert(entry@ == entries[i as int]);
            if bytes_eq(entry.name.as_slice(), name) {
                if bytes_eq(entry.value.as_slice(), value) {
                    return Some((i, true));
                }
                if name_match.is_none() {
                    name_match = Some(i);
                }
            }
            i = i + 1;
        }
        match name_match {
            Some(i) => Some((i, false)),
            None => None,
        }
    }

    /// Get the number of entries in the table.
    pub fn len(&self) -> (r: usize)
        ensures
            r == self@.entries.len(),
    {
        self.entries.len()
    }

    /// Get the current size of the table in bytes.
    pub fn size(&self) -> (r: usize)
        ensures
            r == self@.size,
    {
        self.size
    }

    /// Get the maximum size of the table in bytes.
    pub fn max_size(&self) -> (r: usize)
        ensures
            r == self@.max_size,
    {
        self.max_size
    }
}

/// Evicting keeps the longest prefix (newest entries first) that fits:
/// every longer prefix is over the limit.
proof fn lemma_evict_to_longest(entries: Seq<(Seq<u8>, Seq<u8>)>, limit: nat)
    ensures
        forall|k: int|
            evict_to(entries, limit).len() < k <= entries.len() ==> entries_size(
                #[trigger] entries.take(k),
            ) > limit,
    decreases entries.len(),
{
    if entries.len() == 0 || entries_size(entries) <= limit {
    } else {
        lemma_evict_to_longest(entries.drop_last(), limit);
        lemma_evict_to_fits(entries.drop_last(), limit);
        assert forall|k: int|
            evict_to(entries, limit).len() < k <= entries.len() implies entries_size(
                #[trigger] entries.take(k),
            ) > limit by {
            if k == entries.len() {
                assert(entries.take(k) =~= entries);
            } else {
                assert(entries.drop_last().take(k) =~= entries.take(k));
            }
        }
    }
}

/// Inserting an entry that fits keeps, after it, exactly the longest run of
/// the newest old entries that fits beside it: only the oldest entries are
/// evicted, and no more of them than needed. An entry larger than the
/// whole table empties it.
pub proof fn lemma_insert_evicts_oldest(v: DynamicTableView, e: (Seq<u8>, Seq<u8>))
    requires
        v.wf(),
    ensures
        entry_size(e) > v.max_size ==> v.insert(e).entries.len() == 0,
        entry_size(e) <= v.max_size ==> {
            let j = v.insert(e).entries.len() - 1;
            &&& 0 <= j <= v.entries.len()
            &&& v.insert(e).entries == seq![e] + v.entries.take(j)
            &&& entries_size(v.entries.take(j)) + entry_size(e) <= v.max_size
            &&& forall|k: int|
                j < k <= v.entries.len() ==> entries_size(#[trigger] v.entries.take(k))
                    + entry_size(e) > v.max_size
        },
{
    if entry_size(e) <= v.max_size {
        let limit = (v.max_size - entry_size(e)) as nat;
        lemma_evict_to_fits(v.entries, limit);
        lemma_evict_to_longest(v.entries, limit);
        let kept = evict_to(v.entries, limit);
        if kept.len() == 0 {
            assert(kept =~= Seq::<(Seq<u8>, Seq<u8>)>::empty());
            assert(entries_size(kept) == 0);
        }
        assert(v.insert(e).entries.len() == kept.len() + 1);
    }
}

/// Inserting into a well-formed table keeps it well-formed: the size is the
/// total of the entry sizes and stays within the limit; an entry that fits
/// becomes the newest (index 0), and the entries kept are the newest of the
/// old ones, in their order.
pub proof fn lemma_insert_keeps_table(v: DynamicTableView, e: (Seq<u8>, Seq<u8>))
    requires
        v.wf(),
    ensures
        v.insert(e).wf(),
        v.insert(e).max_size == v.max_size,
        entry_size(e) <= v.max_size ==> v.insert(e).entries[0] == e,
        entry_size(e) <= v.max_size ==> v.insert(e).entries.drop_first() == v.entries.take(
            v.insert(e).entries.len() - 1,
        ),
        entry_size(e) > v.max_size ==> v.insert(e).entries.len() == 0,
{
    if entry_size(e) <= v.max_size {
        let kept = evict_to(v.entries, (v.max_size - entry_size(e)) as nat);
        lemma_evict_to_fits(v.entries, (v.max_size - entry_size(e)) as nat);
        lemma_entries_size_push_front(e, kept);
        assert((seq![e] + kept).drop_first() =~= kept);
    }
}

/// Lowering the size limit keeps the table well-formed and evicts the
/// oldest entries first.
pub proof fn lemma_resize_keeps_table(v: DynamicTableView, max_size: nat)
    requires
        v.wf(),
    ensures
        v.with_max_size(max_size).wf(),
        v.with_max_size(max_size).entries.len() <= v.entries.len(),
        v.with_max_size(max_size).entries == v.entries.take(v.with_max_size(max_size).entries.len() as int),
{
    lemma_evict_to_fits(v.entries, max_size);
}

} // verus!
