use tinypci::name_for_vendor_id;

#[test]
fn known_vendors_use_the_table() {
    assert_eq!(name_for_vendor_id(0x8086), "Intel Corp. (0x8086)");
    assert_eq!(name_for_vendor_id(0x1234), "QEMU (0x1234)");
}

#[test]
fn unknown_vendors_get_a_hex_label() {
    assert_eq!(name_for_vendor_id(0x0ABC), "Unknown(0x0ABC)");
    assert_eq!(name_for_vendor_id(0xBEEF), "Unknown(0xBEEF)");
    assert_eq!(name_for_vendor_id(0x0000), "Unknown(0x0000)");
    assert_eq!(name_for_vendor_id(0xFFFF), "Unknown(0xFFFF)");
    assert_eq!(name_for_vendor_id(0x1af4), "Unknown(0x1AF4)");
}
