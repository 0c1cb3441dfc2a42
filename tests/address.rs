use mac_changer::address::MacAddress;

#[test]
fn new_mac_add() {
    let add = MacAddress::new();
    let binary_representation = format!("{:08b}", add.0[0]);
    // check if its unicast
    assert_eq!(binary_representation.chars().nth(7).unwrap(), '0');
    // check if its local
    assert_eq!(binary_representation.chars().nth(6).unwrap(), '1');
}

#[test]
fn new_mac_make_universal() {
    let mut add = MacAddress::new();
    add.set_universal();
    let binary_representation = format!("{:08b}", add.0[0]);
    // check if its universal
    assert_eq!(binary_representation.chars().nth(6).unwrap(), '0');
}

#[test]
fn new_mac_make_multicast() {
    let mut add = MacAddress::new();
    add.set_multicast();
    let binary_representation = format!("{:08b}", add.0[0]);
    // check if its multicast
    assert_eq!(binary_representation.chars().nth(7).unwrap(), '1');
}

#[test]
fn generated_addresses_are_unicast_and_local() {
    for _ in 0..200 {
        let add = MacAddress::new();
        assert!(add.is_unicast());
        assert!(!add.is_multicast());
        assert!(add.is_local());
        assert!(!add.is_universal());
        assert_eq!(add.0[0] & 0b11, 0b10);
    }
}

#[test]
fn random_octets_get_default_control_bits() {
    let add = MacAddress::from_random_octets([0xff, 1, 2, 3, 4, 5]);
    assert_eq!(add.to_bytes(), [0xfe, 1, 2, 3, 4, 5]);
    let add = MacAddress::from_random_octets([0x00, 0xaa, 0xbb, 0xcc, 0xdd, 0xee]);
    assert_eq!(add.to_bytes(), [0x02, 0xaa, 0xbb, 0xcc, 0xdd, 0xee]);
}

#[test]
fn set_multicast_is_idempotent() {
    let mut add = MacAddress::from_bytes([0x02, 0x1a, 0x3f, 0x00, 0xff, 0x0b]);
    add.set_multicast();
    assert!(add.is_multicast());
    assert!(add.is_local());
    let once = add.to_bytes();
    assert_eq!(once, [0x03, 0x1a, 0x3f, 0x00, 0xff, 0x0b]);
    add.set_multicast();
    assert_eq!(add.to_bytes(), once);
}

#[test]
fn set_universal_toggles_the_local_bit() {
    let mut add = MacAddress::from_bytes([0x02, 0x1a, 0x3f, 0x00, 0xff, 0x0b]);
    add.set_universal();
    assert!(add.is_universal());
    assert!(add.is_unicast());
    assert_eq!(add.to_bytes(), [0x00, 0x1a, 0x3f, 0x00, 0xff, 0x0b]);
    add.set_universal();
    assert!(add.is_local());
    assert_eq!(add.to_bytes(), [0x02, 0x1a, 0x3f, 0x00, 0xff, 0x0b]);
}

#[test]
fn canonical_rendering() {
    let add = MacAddress::from_bytes([0x02, 0x1a, 0x3f, 0x00, 0xff, 0x0b]);
    assert_eq!(add.to_string(), "02:1a:3f:00:ff:0b");
    let add = MacAddress::from_bytes([0xab, 0xcd, 0xef, 0x90, 0x09, 0x7f]);
    assert_eq!(add.to_string(), "ab:cd:ef:90:09:7f");
}

#[test]
fn bytes_round_trip() {
    let octets = [0x02, 0x1a, 0x3f, 0x00, 0xff, 0x0b];
    assert_eq!(MacAddress::from_bytes(octets).to_bytes(), octets);
    let octets = [0u8; 6];
    assert_eq!(MacAddress::from_bytes(octets).to_bytes(), octets);
    let octets = [0xffu8; 6];
    assert_eq!(MacAddress::from_bytes(octets).to_bytes(), octets);
}

#[test]
fn payload_holds_signed_octets_then_zeros() {
    let add = MacAddress::from_bytes([0x02, 0x1a, 0x3f, 0x00, 0xff, 0x80]);
    assert_eq!(
        add.hardware_payload(),
        [0x02, 0x1a, 0x3f, 0x00, -1, -128, 0, 0, 0, 0, 0, 0, 0, 0]
    );
}
