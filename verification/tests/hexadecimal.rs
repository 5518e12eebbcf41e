use fill_intent::hex::to_hex;

#[test]
fn renders_bytes_in_lowercase_hex() {
    assert_eq!(to_hex(&vec![0x00, 0x0f, 0xa5, 0xff]), "000fa5ff");
    assert_eq!(to_hex(&vec![0xde, 0xad, 0xbe, 0xef]), "deadbeef");
    assert_eq!(to_hex(&vec![0x4d, 0x22]), "4d22");
}

#[test]
fn renders_every_digit() {
    let bytes: Vec<u8> = vec![0x01, 0x23, 0x45, 0x67, 0x89, 0xab, 0xcd, 0xef];
    assert_eq!(to_hex(&bytes), "0123456789abcdef");
}

#[test]
fn renders_nothing_for_no_bytes() {
    assert_eq!(to_hex(&Vec::new()), "");
}
