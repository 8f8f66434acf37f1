use simd_sha1::padding::padding;

fn padded_of_repeated_a(len: usize) -> Vec<u8> {
    let data = vec![b'a'; len];
    padding(&data)
}

fn expected_padded_len(len: usize) -> usize {
    64 * ((len + 9 + 63) / 64)
}

#[test]
fn padded_length_formula() {
    for len in [0usize, 1, 54, 55, 56, 57, 63, 64, 65, 119, 120, 127, 128, 1000] {
        let message = padded_of_repeated_a(len);
        assert_eq!(message.len(), expected_padded_len(len));
        assert_eq!(message.len() % 64, 0);
    }
}

#[test]
fn padded_empty_message() {
    let message = padding(&[]);
    assert_eq!(message.len(), 64);
    assert_eq!(message[0], 0x80);
    for i in 1..64 {
        assert_eq!(message[i], 0);
    }
}

#[test]
fn padded_terminator_zeros_and_length_suffix() {
    let len: usize = 10;
    let data = vec![0xABu8; len];
    let message = padding(&data);
    assert_eq!(message.len(), 64);
    for i in 0..len {
        assert_eq!(message[i], 0xAB);
    }
    assert_eq!(message[len], 0x80);
    for i in len + 1..56 {
        assert_eq!(message[i], 0);
    }
    // 10 bytes = 80 bits, big-endian in the last eight bytes
    let suffix = &message[56..64];
    assert_eq!(suffix, &[0, 0, 0, 0, 0, 0, 0, 80]);
}

#[test]
fn padded_length_56_gets_second_block() {
    let message = padded_of_repeated_a(56);
    assert_eq!(message.len(), 128);
    assert_eq!(message[56], 0x80);
    for i in 57..120 {
        assert_eq!(message[i], 0);
    }
    // 56 bytes = 448 bits = 0x01C0
    assert_eq!(&message[120..128], &[0, 0, 0, 0, 0, 0, 0x01, 0xC0]);
}

#[test]
fn padded_keeps_input_across_block_boundary() {
    let data: Vec<u8> = (0u8..100).collect();
    let message = padding(&data);
    assert_eq!(message.len(), 128);
    for i in 0..100 {
        assert_eq!(message[i], i as u8);
    }
    assert_eq!(message[100], 0x80);
}
