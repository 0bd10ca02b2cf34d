use stunner::frame::{is_safe_to_decode, read_be16};

fn datagram(announced: u16, attributes: &[u8]) -> Vec<u8> {
    let mut bytes = vec![0x00, 0x01];
    bytes.extend_from_slice(&announced.to_be_bytes());
    bytes.extend_from_slice(&[0x21, 0x12, 0xa4, 0x42]);
    bytes.extend_from_slice(&[0; 12]);
    bytes.extend_from_slice(attributes);
    bytes
}

#[test]
fn read_be16_puts_the_first_byte_high() {
    assert_eq!(read_be16(&[0x12, 0x34], 0), 0x1234);
    assert_eq!(read_be16(&[0xff, 0x00, 0x01], 1), 0x0001);
    assert_eq!(read_be16(&[0xff, 0xff], 0), 0xffff);
}

#[test]
fn short_datagrams_are_safe() {
    assert!(is_safe_to_decode(&[]));
    assert!(is_safe_to_decode(&[1, 2, 3, 4]));
    assert!(is_safe_to_decode(&[0; 19]));
}

#[test]
fn bare_header_is_safe() {
    assert!(is_safe_to_decode(&datagram(0, &[])));
}

#[test]
fn address_attribute_without_family_is_unsafe() {
    assert!(!is_safe_to_decode(&datagram(4, &[0x00, 0x20, 0x00, 0x00])));
    assert!(!is_safe_to_decode(&datagram(8, &[0x00, 0x20, 0x00, 0x01, 0xaa, 0, 0, 0])));
    assert!(!is_safe_to_decode(&datagram(4, &[0x00, 0x01, 0x00, 0x00])));
    assert!(!is_safe_to_decode(&datagram(8, &[0x80, 0x23, 0x00, 0x01, 0xaa, 0, 0, 0])));
}

#[test]
fn short_address_attribute_with_family_is_safe() {
    assert!(is_safe_to_decode(&datagram(8, &[0x00, 0x20, 0x00, 0x02, 0x00, 0x01, 0, 0])));
    assert!(is_safe_to_decode(&datagram(8, &[0x00, 0x01, 0x00, 0x04, 0x00, 0x01, 0, 0])));
}

#[test]
fn xor_mapped_ipv4_address_of_eight_bytes_is_safe() {
    let attribute = [0x00, 0x20, 0x00, 0x08, 0x00, 0x01, 0x11, 0x22, 1, 2, 3, 4];
    assert!(is_safe_to_decode(&datagram(12, &attribute)));
}

#[test]
fn xor_mapped_ipv4_address_of_more_bytes_is_unsafe() {
    let attribute = [0x00, 0x20, 0x00, 0x09, 0x00, 0x01, 0x11, 0x22, 1, 2, 3, 4, 5, 0, 0, 0];
    assert!(!is_safe_to_decode(&datagram(16, &attribute)));
}

#[test]
fn mapped_ipv4_address_of_more_bytes_is_safe() {
    let attribute = [0x00, 0x01, 0x00, 0x09, 0x00, 0x01, 0x11, 0x22, 1, 2, 3, 4, 5, 0, 0, 0];
    assert!(is_safe_to_decode(&datagram(16, &attribute)));
}

#[test]
fn xor_mapped_ipv6_address_is_safe() {
    let mut attribute = vec![0x00, 0x20, 0x00, 0x14, 0x00, 0x02, 0x11, 0x22];
    attribute.extend_from_slice(&[9; 16]);
    assert!(is_safe_to_decode(&datagram(24, &attribute)));
}

#[test]
fn attribute_past_the_announced_length_is_not_walked() {
    assert!(is_safe_to_decode(&datagram(0, &[0x00, 0x20, 0x00, 0x00])));
}

#[test]
fn attribute_after_padding_is_walked() {
    // SOFTWARE of one byte, three bytes of padding, then an empty
    // XOR-MAPPED-ADDRESS.
    let attributes = [0x80, 0x22, 0x00, 0x01, b'x', 0, 0, 0, 0x00, 0x20, 0x00, 0x00];
    assert!(!is_safe_to_decode(&datagram(12, &attributes)));
    // The same datagram with the second attribute of another type.
    let attributes = [0x80, 0x22, 0x00, 0x01, b'x', 0, 0, 0, 0x00, 0x24, 0x00, 0x00];
    assert!(is_safe_to_decode(&datagram(12, &attributes)));
}

#[test]
fn truncated_attribute_ends_the_walk() {
    // The value is announced with eight bytes and holds two.
    assert!(is_safe_to_decode(&datagram(12, &[0x80, 0x22, 0x00, 0x08, 1, 2])));
    // Only half of the attribute's header is there.
    assert!(is_safe_to_decode(&datagram(4, &[0x00, 0x20])));
    // The padding runs past the end of the datagram.
    assert!(is_safe_to_decode(&datagram(8, &[0x80, 0x22, 0x00, 0x01, b'x'])));
}

#[test]
fn announced_length_beyond_the_datagram_is_safe() {
    assert!(is_safe_to_decode(&datagram(0xffff, &[])));
}
