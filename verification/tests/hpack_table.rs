use http2_proto::hpack::{DynamicTable, HeaderField, StaticTable};

#[test]
fn test_static_table_get() {
    // Test known entries
    let entry = StaticTable::get(1).unwrap();
    assert_eq!(entry.name, b":authority");
    assert_eq!(entry.value, b"");

    let entry = StaticTable::get(2).unwrap();
    assert_eq!(entry.name, b":method");
    assert_eq!(entry.value, b"GET");

    let entry = StaticTable::get(7).unwrap();
    assert_eq!(entry.name, b":scheme");
    assert_eq!(entry.value, b"https");

    // Test bounds
    assert!(StaticTable::get(0).is_none());
    assert!(StaticTable::get(62).is_none());
    assert!(StaticTable::get(61).is_some());
}

#[test]
fn test_static_table_find() {
    // Exact match
    let (idx, exact) = StaticTable::find(b":method", b"GET").unwrap();
    assert_eq!(idx, 2);
    assert!(exact);

    // Name match only
    let (idx, exact) = StaticTable::find(b":method", b"PUT").unwrap();
    assert_eq!(idx, 2); // First :method entry
    assert!(!exact);

    // No match
    assert!(StaticTable::find(b"x-custom", b"value").is_none());
}

#[test]
fn test_dynamic_table_insert() {
    let mut table = DynamicTable::new(256);

    table.insert(HeaderField::new(
        b"custom-header".to_vec(),
        b"value1".to_vec(),
    ));
    assert_eq!(table.len(), 1);

    table.insert(HeaderField::new(
        b"another-header".to_vec(),
        b"value2".to_vec(),
    ));
    assert_eq!(table.len(), 2);

    // Newest entry should be at index 0
    let entry = table.get(0).unwrap();
    assert_eq!(entry.name, b"another-header");
}

#[test]
fn test_dynamic_table_eviction() {
    // Small table that can only hold a few entries
    let mut table = DynamicTable::new(100);

    // Each entry is ~45 bytes (name + value + 32)
    table.insert(HeaderField::new(b"header1".to_vec(), b"value1".to_vec()));
    table.insert(HeaderField::new(b"header2".to_vec(), b"value2".to_vec()));

    assert_eq!(table.len(), 2);

    // This should cause eviction
    table.insert(HeaderField::new(b"header3".to_vec(), b"value3".to_vec()));

    // Should have evicted the oldest entry
    assert!(table.len() <= 2);
}

#[test]
fn test_dynamic_table_resize() {
    let mut table = DynamicTable::new(256);

    table.insert(HeaderField::new(b"header1".to_vec(), b"value1".to_vec()));
    table.insert(HeaderField::new(b"header2".to_vec(), b"value2".to_vec()));

    // Shrink the table
    table.set_max_size(50);

    // Should have evicted entries
    assert!(table.size() <= 50);
}

#[test]
fn test_header_field_size() {
    let field = HeaderField::new(b"content-type".to_vec(), b"application/json".to_vec());
    // 12 + 16 + 32 = 60
    assert_eq!(field.size(), 60);
}
