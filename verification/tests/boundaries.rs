use simd_sha1::hash;

fn hex_of_repeated_a(len: usize) -> String {
    let data = vec![b'a'; len];
    let digest = hash(&data);
    let mut s = String::new();
    for b in digest.iter() {
        s.push_str(&format!("{:02x}", b));
    }
    s
}

#[test]
fn length_0_single_padding_block() {
    assert_eq!(hex_of_repeated_a(0), "da39a3ee5e6b4b0d3255bfef95601890afd80709");
}

#[test]
fn length_55_padding_fits_one_block() {
    assert_eq!(hex_of_repeated_a(55), "c1c8bbdc22796e28c0e15163d20899b65621d65a");
}

#[test]
fn length_56_padding_spills_over() {
    assert_eq!(hex_of_repeated_a(56), "c2db330f6083854c99d4b5bfb6e8f29f201be699");
}

#[test]
fn length_63_boundary() {
    assert_eq!(hex_of_repeated_a(63), "03f09f5b158a7a8cdad920bddc29b81c18a551f5");
}

#[test]
fn length_64_exact_block() {
    assert_eq!(hex_of_repeated_a(64), "0098ba824b5c16427bd7a1122a5a442a25ec644d");
}

#[test]
fn length_119_boundary() {
    assert_eq!(hex_of_repeated_a(119), "ee971065aaa017e0632a8ca6c77bb3bf8b1dfc56");
}

#[test]
fn length_120_boundary() {
    assert_eq!(hex_of_repeated_a(120), "f34c1488385346a55709ba056ddd08280dd4c6d6");
}

#[test]
fn length_128_two_blocks() {
    assert_eq!(hex_of_repeated_a(128), "ad5b3fdbcb526778c2839d2f151ea753995e26a0");
}

#[test]
fn length_1088_seventeen_blocks() {
    assert_eq!(hex_of_repeated_a(1088), "983649d747d71b2353f7f63a3f80bbf73558b503");
}
