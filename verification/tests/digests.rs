use simd_sha1::hash;

fn to_hex(digest: [u8; 20]) -> String {
    let mut s = String::new();
    for b in digest.iter() {
        s.push_str(&format!("{:02x}", b));
    }
    s
}

#[test]
fn empty_string() {
    assert_eq!(to_hex(hash(b"")), "da39a3ee5e6b4b0d3255bfef95601890afd80709");
}

#[test]
fn abc() {
    assert_eq!(to_hex(hash(b"abc")), "a9993e364706816aba3e25717850c26c9cd0d89d");
}

#[test]
fn quick_brown_fox_dog() {
    let data = "The quick brown fox jumps over the lazy dog".as_bytes();
    assert_eq!(to_hex(hash(data)), "2fd4e1c67a2d28fced849ee1bb76e7391b93eb12");
}

#[test]
fn quick_brown_fox_dog_bytes() {
    let data = "The quick brown fox jumps over the lazy dog".as_bytes();
    let expect = [
        0x2F, 0xD4, 0xE1, 0xC6, 0x7A, 0x2D, 0x28, 0xFC, 0xED, 0x84, 0x9E, 0xE1, 0xBB, 0x76, 0xE7,
        0x39, 0x1B, 0x93, 0xEB, 0x12,
    ];
    assert_eq!(hash(data), expect);
}

#[test]
fn quick_brown_fox_cog() {
    let data = "The quick brown fox jumps over the lazy cog".as_bytes();
    assert_eq!(to_hex(hash(data)), "de9f2c7fd25e1b3afad3e85a0bd17d9b100db4b3");
}

#[test]
fn two_block_message_length_56() {
    let data = "abcdbcdecdefdefgefghfghighijhijkijkljklmklmnlmnomnopnopq".as_bytes();
    assert_eq!(data.len(), 56);
    assert_eq!(to_hex(hash(data)), "84983e441c3bd26ebaae4aa1f95129e5e54670f1");
}

#[test]
fn one_million_a() {
    let data = vec![b'a'; 1_000_000];
    assert_eq!(to_hex(hash(&data)), "34aa973cd4c4daa4f61eeb2bdbad27316534016f");
}

#[test]
fn digest_is_twenty_bytes() {
    assert_eq!(hash(b"").len(), 20);
    assert_eq!(hash(b"abc").len(), 20);
}

#[test]
fn determinism_same_input_same_digest() {
    let data = b"determinism check";
    assert_eq!(hash(data), hash(data));
}
