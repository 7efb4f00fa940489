//! The static table of HPACK, as RFC 7541 Appendix A lists it.
use vstd::prelude::*;
use super::decode::header_at;
use super::error::HpackError;

verus! {

/// Indices 1 to 20 of a header block name the static table entries that
/// RFC 7541 Appendix A gives them, whatever the dynamic table holds.
pub proof fn lemma_static_indices_1_to_20(entries: Seq<(Seq<u8>, Seq<u8>)>)
    ensures
        // 1: ":authority" ""
        header_at(entries, 1) == Ok::<(Seq<u8>, Seq<u8>), HpackError>((seq![0x3au8, 0x61, 0x75, 0x74, 0x68, 0x6f, 0x72, 0x69, 0x74, 0x79], Seq::<u8>::empty())),
        // 2: ":method" "GET"
        header_at(entries, 2) == Ok::<(Seq<u8>, Seq<u8>), HpackError>((seq![0x3au8, 0x6d, 0x65, 0x74, 0x68, 0x6f, 0x64], seq![0x47u8, 0x45, 0x54])),
        // 3: ":method" "POST"
        header_at(entries, 3) == Ok::<(Seq<u8>, Seq<u8>), HpackError>((seq![0x3au8, 0x6d, 0x65, 0x74, 0x68, 0x6f, 0x64], seq![0x50u8, 0x4f, 0x53, 0x54])),
        // 4: ":path" "/"
        header_at(entries, 4) == Ok::<(Seq<u8>, Seq<u8>), HpackError>((seq![0x3au8, 0x70, 0x61, 0x74, 0x68], seq![0x2fu8])),
        // 5: ":path" "/index.html"
        header_at(entries, 5) == Ok::<(Seq<u8>, Seq<u8>), HpackError>((seq![0x3au8, 0x70, 0x61, 0x74, 0x68], seq![0x2fu8, 0x69, 0x6e, 0x64, 0x65, 0x78, 0x2e, 0x68, 0x74, 0x6d, 0x6c])),
        // 6: ":scheme" "http"
        header_at(entries, 6) == Ok::<(Seq<u8>, Seq<u8>), HpackError>((seq![0x3au8, 0x73, 0x63, 0x68, 0x65, 0x6d, 0x65], seq![0x68u8, 0x74, 0x74, 0x70])),
        // 7: ":scheme" "https"
        header_at(entries, 7) == Ok::<(Seq<u8>, Seq<u8>), HpackError>((seq![0x3au8, 0x73, 0x63, 0x68, 0x65, 0x6d, 0x65], seq![0x68u8, 0x74, 0x74, 0x70, 0x73])),
        // 8: ":status" "200"
        header_at(entries, 8) == Ok::<(Seq<u8>, Seq<u8>), HpackError>((seq![0x3au8, 0x73, 0x74, 0x61, 0x74, 0x75, 0x73], seq![0x32u8, 0x30, 0x30])),
        // 9: ":status" "204"
        header_at(entries, 9) == Ok::<(Seq<u8>, Seq<u8>), HpackError>((seq![0x3au8, 0x73, 0x74, 0x61, 0x74, 0x75, 0x73], seq![0x32u8, 0x30, 0x34])),
        // 10: ":status" "206"
        header_at(entries, 10) == Ok::<(Seq<u8>, Seq<u8>), HpackError>((seq![0x3au8, 0x73, 0x74, 0x61, 0x74, 0x75, 0x73], seq![0x32u8, 0x30, 0x36])),
        // 11: ":status" "304"
        header_at(entries, 11) == Ok::<(Seq<u8>, Seq<u8>), HpackError>((seq![0x3au8, 0x73, 0x74, 0x61, 0x74, 0x75, 0x73], seq![0x33u8, 0x30, 0x34])),
        // 12: ":status" "400"
        header_at(entries, 12) == Ok::<(Seq<u8>, Seq<u8>), HpackError>((seq![0x3au8, 0x73, 0x74, 0x61, 0x74, 0x75, 0x73], seq![0x34u8, 0x30, 0x30])),
        // 13: ":status" "404"
        header_at(entries, 13) == Ok::<(Seq<u8>, Seq<u8>), HpackError>((seq![0x3au8, 0x73, 0x74, 0x61, 0x74, 0x75, 0x73], seq![0x34u8, 0x30, 0x34])),
        // 14: ":status" "500"
        header_at(entries, 14) == Ok::<(Seq<u8>, Seq<u8>), HpackError>((seq![0x3au8, 0x73, 0x74, 0x61, 0x74, 0x75, 0x73], seq![0x35u8, 0x30, 0x30])),
        // 15: "accept-charset" ""
        header_at(entries, 15) == Ok::<(Seq<u8>, Seq<u8>), HpackError>((seq![0x61u8, 0x63, 0x63, 0x65, 0x70, 0x74, 0x2d, 0x63, 0x68, 0x61, 0x72, 0x73, 0x65, 0x74], Seq::<u8>::empty())),
        // 16: "accept-encoding" "gzip, deflate"
        header_at(entries, 16) == Ok::<(Seq<u8>, Seq<u8>), HpackError>((seq![0x61u8, 0x63, 0x63, 0x65, 0x70, 0x74, 0x2d, 0x65, 0x6e, 0x63, 0x6f, 0x64, 0x69, 0x6e, 0x67], seq![0x67u8, 0x7a, 0x69, 0x70, 0x2c, 0x20, 0x64, 0x65, 0x66, 0x6c, 0x61, 0x74, 0x65])),
        // 17: "accept-language" ""
        header_at(entries, 17) == Ok::<(Seq<u8>, Seq<u8>), HpackError>((seq![0x61u8, 0x63, 0x63, 0x65, 0x70, 0x74, 0x2d, 0x6c, 0x61, 0x6e, 0x67, 0x75, 0x61, 0x67, 0x65], Seq::<u8>::empty())),
        // 18: "accept-ranges" ""
        header_at(entries, 18) == Ok::<(Seq<u8>, Seq<u8>), HpackError>((seq![0x61u8, 0x63, 0x63, 0x65, 0x70, 0x74, 0x2d, 0x72, 0x61, 0x6e, 0x67, 0x65, 0x73], Seq::<u8>::empty())),
        // 19: "accept" ""
        header_at(entries, 19) == Ok::<(Seq<u8>, Seq<u8>), HpackError>((seq![0x61u8, 0x63, 0x63, 0x65, 0x70, 0x74], Seq::<u8>::empty())),
        // 20: "access-control-allow-origin" ""
        header_at(entries, 20) == Ok::<(Seq<u8>, Seq<u8>), HpackError>((seq![0x61u8, 0x63, 0x63, 0x65, 0x73, 0x73, 0x2d, 0x63, 0x6f, 0x6e, 0x74, 0x72, 0x6f, 0x6c, 0x2d, 0x61, 0x6c, 0x6c, 0x6f, 0x77, 0x2d, 0x6f, 0x72, 0x69, 0x67, 0x69, 0x6e], Seq::<u8>::empty())),
{
}

/// Indices 21 to 40 of a header block name the static table entries that
/// RFC 7541 Appendix A gives them, whatever the dynamic table holds.
pub proof fn lemma_static_indices_21_to_40(entries: Seq<(Seq<u8>, Seq<u8>)>)
    ensures
        // 21: "age" ""
        header_at(entries, 21) == Ok::<(Seq<u8>, Seq<u8>), HpackError>((seq![0x61u8, 0x67, 0x65], Seq::<u8>::empty())),
        // 22: "allow" ""
        header_at(entries, 22) == Ok::<(Seq<u8>, Seq<u8>), HpackError>((seq![0x61u8, 0x6c, 0x6c, 0x6f, 0x77], Seq::<u8>::empty())),
        // 23: "authorization" ""
        header_at(entries, 23) == Ok::<(Seq<u8>, Seq<u8>), HpackError>((seq![0x61u8, 0x75, 0x74, 0x68, 0x6f, 0x72, 0x69, 0x7a, 0x61, 0x74, 0x69, 0x6f, 0x6e], Seq::<u8>::empty())),
        // 24: "cache-control" ""
        header_at(entries, 24) == Ok::<(Seq<u8>, Seq<u8>), HpackError>((seq![0x63u8, 0x61, 0x63, 0x68, 0x65, 0x2d, 0x63, 0x6f, 0x6e, 0x74, 0x72, 0x6f, 0x6c], Seq::<u8>::empty())),
        // 25: "content-disposition" ""
        header_at(entries, 25) == Ok::<(Seq<u8>, Seq<u8>), HpackError>((seq![0x63u8, 0x6f, 0x6e, 0x74, 0x65, 0x6e, 0x74, 0x2d, 0x64, 0x69, 0x73, 0x70, 0x6f, 0x73, 0x69, 0x74, 0x69, 0x6f, 0x6e], Seq::<u8>::empty())),
        // 26: "content-encoding" ""
        header_at(entries, 26) == Ok::<(Seq<u8>, Seq<u8>), HpackError>((seq![0x63u8, 0x6f, 0x6e, 0x74, 0x65, 0x6e, 0x74, 0x2d, 0x65, 0x6e, 0x63, 0x6f, 0x64, 0x69, 0x6e, 0x67], Seq::<u8>::empty())),
        // 27: "content-language" ""
        header_at(entries, 27) == Ok::<(Seq<u8>, Seq<u8>), HpackError>((seq![0x63u8, 0x6f, 0x6e, 0x74, 0x65, 0x6e, 0x74, 0x2d, 0x6c, 0x61, 0x6e, 0x67, 0x75, 0x61, 0x67, 0x65], Seq::<u8>::empty())),
        // 28: "content-length" ""
        header_at(entries, 28) == Ok::<(Seq<u8>, Seq<u8>), HpackError>((seq![0x63u8, 0x6f, 0x6e, 0x74, 0x65, 0x6e, 0x74, 0x2d, 0x6c, 0x65, 0x6e, 0x67, 0x74, 0x68], Seq::<u8>::empty())),
        // 29: "content-location" ""
        header_at(entries, 29) == Ok::<(Seq<u8>, Seq<u8>), HpackError>((seq![0x63u8, 0x6f, 0x6e, 0x74, 0x65, 0x6e, 0x74, 0x2d, 0x6c, 0x6f, 0x63, 0x61, 0x74, 0x69, 0x6f, 0x6e], Seq::<u8>::empty())),
        // 30: "content-range" ""
        header_at(entries, 30) == Ok::<(Seq<u8>, Seq<u8>), HpackError>((seq![0x63u8, 0x6f, 0x6e, 0x74, 0x65, 0x6e, 0x74, 0x2d, 0x72, 0x61, 0x6e, 0x67, 0x65], Seq::<u8>::empty())),
        // 31: "content-type" ""
        header_at(entries, 31) == Ok::<(Seq<u8>, Seq<u8>), HpackError>((seq![0x63u8, 0x6f, 0x6e, 0x74, 0x65, 0x6e, 0x74, 0x2d, 0x74, 0x79, 0x70, 0x65], Seq::<u8>::empty())),
        // 32: "cookie" ""
        header_at(entries, 32) == Ok::<(Seq<u8>, Seq<u8>), HpackError>((seq![0x63u8, 0x6f, 0x6f, 0x6b, 0x69, 0x65], Seq::<u8>::empty())),
        // 33: "date" ""
        header_at(entries, 33) == Ok::<(Seq<u8>, Seq<u8>), HpackError>((seq![0x64u8, 0x61, 0x74, 0x65], Seq::<u8>::empty())),
        // 34: "etag" ""
        header_at(entries, 34) == Ok::<(Seq<u8>, Seq<u8>), HpackError>((seq![0x65u8, 0x74, 0x61, 0x67], Seq::<u8>::empty())),
        // 35: "expect" ""
        header_at(entries, 35) == Ok::<(Seq<u8>, Seq<u8>), HpackError>((seq![0x65u8, 0x78, 0x70, 0x65, 0x63, 0x74], Seq::<u8>::empty())),
        // 36: "expires" ""
        header_at(entries, 36) == Ok::<(Seq<u8>, Seq<u8>), HpackError>((seq![0x65u8, 0x78, 0x70, 0x69, 0x72, 0x65, 0x73], Seq::<u8>::empty())),
        // 37: "from" ""
        header_at(entries, 37) == Ok::<(Seq<u8>, Seq<u8>), HpackError>((seq![0x66u8, 0x72, 0x6f, 0x6d], Seq::<u8>::empty())),
        // 38: "host" ""
        header_at(entries, 38) == Ok::<(Seq<u8>, Seq<u8>), HpackError>((seq![0x68u8, 0x6f, 0x73, 0x74], Seq::<u8>::empty())),
        // 39: "if-match" ""
        header_at(entries, 39) == Ok::<(Seq<u8>, Seq<u8>), HpackError>((seq![0x69u8, 0x66, 0x2d, 0x6d, 0x61, 0x74, 0x63, 0x68], Seq::<u8>::empty())),
        // 40: "if-modified-since" ""
        header_at(entries, 40) == Ok::<(Seq<u8>, Seq<u8>), HpackError>((seq![0x69u8, 0x66, 0x2d, 0x6d, 0x6f, 0x64, 0x69, 0x66, 0x69, 0x65, 0x64, 0x2d, 0x73, 0x69, 0x6e, 0x63, 0x65], Seq::<u8>::empty())),
{
}

/// Indices 41 to 61 of a header block name the static table entries that
/// RFC 7541 Appendix A gives them, whatever the dynamic table holds.
pub proof fn lemma_static_indices_41_to_61(entries: Seq<(Seq<u8>, Seq<u8>)>)
    ensures
        // 41: "if-none-match" ""
        header_at(entries, 41) == Ok::<(Seq<u8>, Seq<u8>), HpackError>((seq![0x69u8, 0x66, 0x2d, 0x6e, 0x6f, 0x6e, 0x65, 0x2d, 0x6d, 0x61, 0x74, 0x63, 0x68], Seq::<u8>::empty())),
        // 42: "if-range" ""
        header_at(entries, 42) == Ok::<(Seq<u8>, Seq<u8>), HpackError>((seq![0x69u8, 0x66, 0x2d, 0x72, 0x61, 0x6e, 0x67, 0x65], Seq::<u8>::empty())),
        // 43: "if-unmodified-since" ""
        header_at(entries, 43) == Ok::<(Seq<u8>, Seq<u8>), HpackError>((seq![0x69u8, 0x66, 0x2d, 0x75, 0x6e, 0x6d, 0x6f, 0x64, 0x69, 0x66, 0x69, 0x65, 0x64, 0x2d, 0x73, 0x69, 0x6e, 0x63, 0x65], Seq::<u8>::empty())),
        // 44: "last-modified" ""
        header_at(entries, 44) == Ok::<(Seq<u8>, Seq<u8>), HpackError>((seq![0x6cu8, 0x61, 0x73, 0x74, 0x2d, 0x6d, 0x6f, 0x64, 0x69, 0x66, 0x69, 0x65, 0x64], Seq::<u8>::empty())),
        // 45: "link" ""
        header_at(entries, 45) == Ok::<(Seq<u8>, Seq<u8>), HpackError>((seq![0x6cu8, 0x69, 0x6e, 0x6b], Seq::<u8>::empty())),
        // 46: "location" ""
        header_at(entries, 46) == Ok::<(Seq<u8>, Seq<u8>), HpackError>((seq![0x6cu8, 0x6f, 0x63, 0x61, 0x74, 0x69, 0x6f, 0x6e], Seq::<u8>::empty())),
        // 47: "max-forwards" ""
        header_at(entries, 47) == Ok::<(Seq<u8>, Seq<u8>), HpackError>((seq![0x6du8, 0x61, 0x78, 0x2d, 0x66, 0x6f, 0x72, 0x77, 0x61, 0x72, 0x64, 0x73], Seq::<u8>::empty())),
        // 48: "proxy-authenticate" ""
        header_at(entries, 48) == Ok::<(Seq<u8>, Seq<u8>), HpackError>((seq![0x70u8, 0x72, 0x6f, 0x78, 0x79, 0x2d, 0x61, 0x75, 0x74, 0x68, 0x65, 0x6e, 0x74, 0x69, 0x63, 0x61, 0x74, 0x65], Seq::<u8>::empty())),
        // 49: "proxy-authorization" ""
        header_at(entries, 49) == Ok::<(Seq<u8>, Seq<u8>), HpackError>((seq![0x70u8, 0x72, 0x6f, 0x78, 0x79, 0x2d, 0x61, 0x75, 0x74, 0x68, 0x6f, 0x72, 0x69, 0x7a, 0x61, 0x74, 0x69, 0x6f, 0x6e], Seq::<u8>::empty())),
        // 50: "range" ""
        header_at(entries, 50) == Ok::<(Seq<u8>, Seq<u8>), HpackError>((seq![0x72u8, 0x61, 0x6e, 0x67, 0x65], Seq::<u8>::empty())),
        // 51: "referer" ""
        header_at(entries, 51) == Ok::<(Seq<u8>, Seq<u8>), HpackError>((seq![0x72u8, 0x65, 0x66, 0x65, 0x72, 0x65, 0x72], Seq::<u8>::empty())),
        // 52: "refresh" ""
        header_at(entries, 52) == Ok::<(Seq<u8>, Seq<u8>), HpackError>((seq![0x72u8, 0x65, 0x66, 0x72, 0x65, 0x73, 0x68], Seq::<u8>::empty())),
        // 53: "retry-after" ""
        header_at(entries, 53) == Ok::<(Seq<u8>, Seq<u8>), HpackError>((seq![0x72u8, 0x65, 0x74, 0x72, 0x79, 0x2d, 0x61, 0x66, 0x74, 0x65, 0x72], Seq::<u8>::empty())),
        // 54: "server" ""
        header_at(entries, 54) == Ok::<(Seq<u8>, Seq<u8>), HpackError>((seq![0x73u8, 0x65, 0x72, 0x76, 0x65, 0x72], Seq::<u8>::empty())),
        // 55: "set-cookie" ""
        header_at(entries, 55) == Ok::<(Seq<u8>, Seq<u8>), HpackError>((seq![0x73u8, 0x65, 0x74, 0x2d, 0x63, 0x6f, 0x6f, 0x6b, 0x69, 0x65], Seq::<u8>::empty())),
        // 56: "strict-transport-security" ""
        header_at(entries, 56) == Ok::<(Seq<u8>, Seq<u8>), HpackError>((seq![0x73u8, 0x74, 0x72, 0x69, 0x63, 0x74, 0x2d, 0x74, 0x72, 0x61, 0x6e, 0x73, 0x70, 0x6f, 0x72, 0x74, 0x2d, 0x73, 0x65, 0x63, 0x75, 0x72, 0x69, 0x74, 0x79], Seq::<u8>::empty())),
        // 57: "transfer-encoding" ""
        header_at(entries, 57) == Ok::<(Seq<u8>, Seq<u8>), HpackError>((seq![0x74u8, 0x72, 0x61, 0x6e, 0x73, 0x66, 0x65, 0x72, 0x2d, 0x65, 0x6e, 0x63, 0x6f, 0x64, 0x69, 0x6e, 0x67], Seq::<u8>::empty())),
        // 58: "user-agent" ""
        header_at(entries, 58) == Ok::<(Seq<u8>, Seq<u8>), HpackError>((seq![0x75u8, 0x73, 0x65, 0x72, 0x2d, 0x61, 0x67, 0x65, 0x6e, 0x74], Seq::<u8>::empty())),
        // 59: "vary" ""
        header_at(entries, 59) == Ok::<(Seq<u8>, Seq<u8>), HpackError>((seq![0x76u8, 0x61, 0x72, 0x79], Seq::<u8>::empty())),
        // 60: "via" ""
        header_at(entries, 60) == Ok::<(Seq<u8>, Seq<u8>), HpackError>((seq![0x76u8, 0x69, 0x61], Seq::<u8>::empty())),
        // 61: "www-authenticate" ""
        header_at(entries, 61) == Ok::<(Seq<u8>, Seq<u8>), HpackError>((seq![0x77u8, 0x77, 0x77, 0x2d, 0x61, 0x75, 0x74, 0x68, 0x65, 0x6e, 0x74, 0x69, 0x63, 0x61, 0x74, 0x65], Seq::<u8>::empty())),
{
}

} // verus!
