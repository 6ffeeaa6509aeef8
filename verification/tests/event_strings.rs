use singe::cupti::event::{read_attribute_string, ATTRIBUTE_STRING_CAPACITY};

#[test]
fn string_attribute_reader_trims_at_nul() {
    let mut buffer = vec![0u8; ATTRIBUTE_STRING_CAPACITY];
    let bytes = b"metric-name\0ignored";
    buffer[..bytes.len()].copy_from_slice(bytes);
    let value = read_attribute_string(&buffer, bytes.len() as u64);

    assert_eq!(value, "metric-name");
}
