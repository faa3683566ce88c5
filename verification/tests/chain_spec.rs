use arbitration::chain_spec::get_collator_keys_from_seed;

#[test]
fn collator_key_of_alice() {
    let keys = get_collator_keys_from_seed("Alice").expect("a development seed");
    let expected: [u8; 32] = [
        0xd4, 0x35, 0x93, 0xc7, 0x15, 0xfd, 0xd3, 0x1c, 0x61, 0x14, 0x1a, 0xbd, 0x04, 0xa9, 0x9f, 0xd6,
        0x82, 0x2c, 0x85, 0x58, 0x85, 0x4c, 0xcd, 0xe3, 0x9a, 0x56, 0x84, 0xe7, 0xa5, 0x6d, 0xa2, 0x7d,
    ];
    assert_eq!(keys.key, expected);
}

#[test]
fn collator_key_of_an_empty_seed_is_refused() {
    assert!(get_collator_keys_from_seed("").is_none());
}
