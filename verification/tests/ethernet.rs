use read_only_state::ethernet::MacAddress;

#[test]
fn test_mac_address() {
    let mut mac_address = MacAddress::default();
    assert_eq!(&[0; 6], &mac_address.0);
    assert_eq!(MacAddress::new([0x00; 6]), mac_address);

    mac_address = MacAddress::new([0x11, 0x22, 0x33, 0x44, 0x55, 0x66]);
    assert_eq!(&[0x11, 0x22, 0x33, 0x44, 0x55, 0x66], &mac_address.0);

    mac_address
        .0
        .copy_from_slice(&[0x12, 0x34, 0x56, 0x78, 0x90, 0xAB]);
    assert_eq!(&[0x12, 0x34, 0x56, 0x78, 0x90, 0xAB], &mac_address.0);

    mac_address.0[5] = 0xCD;
    assert_eq!(&[0x12, 0x34, 0x56, 0x78, 0x90, 0xCD], &mac_address.0);

    assert_eq!(false, mac_address.is_broadcast());
    assert_eq!(false, mac_address.is_multicast());
    assert_eq!(true, mac_address.is_unicast());

    mac_address = MacAddress([0xFF; 6]);
    assert_eq!(true, mac_address.is_broadcast());
    assert_eq!(true, mac_address.is_multicast());
    assert_eq!(false, mac_address.is_unicast());

    mac_address = MacAddress::new([0x13, 0x34, 0x56, 0x78, 0x90, 0xAB]);
    assert_eq!(false, mac_address.is_broadcast());
    assert_eq!(true, mac_address.is_multicast());
    assert_eq!(false, mac_address.is_unicast());
}

#[test]
fn test_mac_u64_conversions() {
    let mac = MacAddress::new([0x11, 0x22, 0x33, 0x44, 0x55, 0x66]);
    assert_eq!(0x1122_3344_5566u64, u64::from(mac));

    let back = MacAddress::from(0x1122_3344_5566u64);
    assert_eq!(&[0x11, 0x22, 0x33, 0x44, 0x55, 0x66], &back.0);

    // The high 16 bits of the input are ignored.
    let truncated = MacAddress::from(0xABCD_1122_3344_5566u64);
    assert_eq!(&[0x11, 0x22, 0x33, 0x44, 0x55, 0x66], &truncated.0);

    // Round trip through the 48-bit value.
    let value = 0x0000_F00D_BEEF_CAFEu64;
    assert_eq!(value, u64::from(MacAddress::from(value)));
}

#[test]
fn test_mac_hex_string() {
    let mac = MacAddress::new([0x12, 0x34, 0x56, 0x78, 0x90, 0xCD]);
    assert_eq!("12-34-56-78-90-cd", mac.to_hex_string());

    let zero = MacAddress::default();
    assert_eq!("00-00-00-00-00-00", zero.to_hex_string());

    let broadcast = MacAddress([0xFF; 6]);
    assert_eq!("ff-ff-ff-ff-ff-ff", broadcast.to_hex_string());
}
