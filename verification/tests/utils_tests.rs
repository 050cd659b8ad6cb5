use fuzzy::utils::{checksum, encode_hex_lower};

#[test]
fn hex_lower_matches_data_encoding() {
    let inputs: Vec<Vec<u8>> = vec![
        vec![],
        vec![0],
        vec![0xff],
        vec![0x0f, 0xf0, 0x12, 0xab],
        (0u8..=255).collect(),
    ];
    for input in inputs {
        assert_eq!(encode_hex_lower(&input), data_encoding::HEXLOWER.encode(&input));
    }
}

#[test]
fn hex_lower_is_twice_as_long() {
    let input = vec![1u8, 2, 3, 250];
    let text = encode_hex_lower(&input);
    assert_eq!(text, "010203fa");
    assert_eq!(text.len(), 2 * input.len());
}

#[test]
fn checksum_of_empty_input() {
    assert_eq!(
        checksum(&vec![]),
        "e3b0c44298fc1c149afbf4c8996fb92427ae41e4649b934ca495991b7852b855"
    );
}

#[test]
fn checksum_of_abc() {
    assert_eq!(
        checksum(&b"abc".to_vec()),
        "ba7816bf8f01cfea414140de5dae2223b00361a396177a9cb410ff61f20015ad"
    );
}

#[test]
fn checksum_shape() {
    let sum = checksum(&b"some corpus entry".to_vec());
    assert_eq!(sum.len(), 64);
    assert!(sum.chars().all(|c| c.is_ascii_digit() || ('a'..='f').contains(&c)));
    assert_ne!(sum, checksum(&b"another corpus entry".to_vec()));
    assert_eq!(sum, checksum(&b"some corpus entry".to_vec()));
}
