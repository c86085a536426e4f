use makepython_nrf52840::checksum::crc;

#[test]
fn checksum_matches_the_posix_reference_value() {
    // The standard check value of the POSIX 32-bit checksum.
    assert_eq!(crc(b"123456789"), 0x765e7680);
}

#[test]
fn checksum_of_the_empty_string_is_all_ones() {
    // Zero initial state, no bytes, complemented.
    assert_eq!(crc(b""), 0xffff_ffff);
}

#[test]
fn checksum_of_a_single_byte() {
    assert_eq!(crc(b"a"), 0x579b24df);
}

#[test]
fn configured_application_names_hash_to_their_identities() {
    assert_eq!(crc(b"circle"), 0x4d41127c);
    assert_eq!(crc(b"count"), 0x54104f32);
    assert_eq!(crc(b"tock-scroll"), 0xa4f18214);
}

#[test]
fn hashing_the_same_name_twice_is_deterministic() {
    for name in [b"circle".as_slice(), b"count", b"tock-scroll", b"", b"some other app"] {
        let first = crc(name);
        let second = crc(name);
        assert_eq!(first, second);
    }
}
