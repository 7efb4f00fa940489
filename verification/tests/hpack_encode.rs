use http2_proto::hpack::{encode_integer, HeaderField, HpackEncoder};

#[test]
fn test_encode_integer_small() {
    let mut buf = Vec::new();
    encode_integer(10, 5, 0x00, &mut buf);
    assert_eq!(buf, vec![10]);
}

#[test]
fn test_encode_integer_max_prefix() {
    let mut buf = Vec::new();
    encode_integer(31, 5, 0x00, &mut buf);
    assert_eq!(buf, vec![31, 0]);
}

#[test]
fn test_encode_integer_large() {
    let mut buf = Vec::new();
    // 1337 with 5-bit prefix (RFC 7541 example)
    encode_integer(1337, 5, 0x00, &mut buf);
    assert_eq!(buf, vec![31, 154, 10]);
}

#[test]
fn test_encode_indexed() {
    let encoder = HpackEncoder::new();
    let mut buf = Vec::new();

    // Index 2 = :method: GET
    encoder.encode_indexed(2, &mut buf);
    assert_eq!(buf, vec![0x82]);
}

#[test]
fn test_encode_headers() {
    let mut encoder = HpackEncoder::new();
    encoder.set_huffman(false); // Disable Huffman for predictable output

    let headers = vec![HeaderField::new(b":method".to_vec(), b"GET".to_vec())];

    let mut buf = Vec::new();
    encoder.encode(&headers, &mut buf);

    // Should be indexed (index 2)
    assert_eq!(buf, vec![0x82]);
}
