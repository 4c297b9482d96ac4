use ed25519_streaming::hasher::{Blake2b, SHA256, SHA512};
use ed25519_streaming::internal::clamp_scalar;

#[test]
fn sha256_engine_streams_and_matches_a_known_digest() {
    let mut eng = SHA256::new();
    eng.update(b"abc");
    let d = eng.finalize();
    let expected =
        hex::decode("ba7816bf8f01cfea414140de5dae2223b00361a396177a9cb410ff61f20015ad").unwrap();
    assert_eq!(d.0.to_vec(), expected);

    // Chunk boundaries do not matter, and finalize resets the engine.
    eng.update(b"a");
    eng.update(b"");
    eng.update(b"bc");
    let d2 = eng.finalize();
    assert_eq!(d2.0, d.0);
}

#[test]
fn sha512_engine_streams_and_matches_a_known_digest() {
    let mut eng = SHA512::new();
    eng.update(b"ab");
    eng.update(b"c");
    let d = eng.finalize();
    let expected = hex::decode(
        "ddaf35a193617abacc417349ae20413112e6fa4e89a97ea20a9eeee64b55d39a\
         2192992a274fc1a836ba3c23a3feebbd454d4423643ce80e2a9ac94fa54ca49f",
    )
    .unwrap();
    assert_eq!(d.0.to_vec(), expected);
}

#[test]
fn blake2b_engine_streams_and_clear_resets() {
    let msg: Vec<u8> = (0u8..77).collect();
    let mut eng = Blake2b::new();
    eng.update(&msg);
    let whole = eng.finalize();

    let mut eng2 = Blake2b::new();
    eng2.update(b"garbage that clear must discard");
    eng2.clear();
    for c in msg.chunks(13) {
        eng2.update(c);
    }
    let chunked = eng2.finalize();
    assert_eq!(whole.0, chunked.0);

    // BLAKE2b-256 of the empty input, to pin the algorithm and output size.
    let mut eng3 = Blake2b::new();
    let empty = eng3.finalize();
    let expected =
        hex::decode("0e5751c026e543b2e8ab2eb06099daa1d1e5df47778f7787faab45cdf12fe3a8").unwrap();
    assert_eq!(empty.0.to_vec(), expected);
}

#[test]
fn clamping_fixes_exactly_the_mandated_bits() {
    let all_ones = ed25519_streaming::hasher::Hash([0xffu8; 64]);
    let c = clamp_scalar(&all_ones);
    assert_eq!(c[0], 0xf8);
    assert_eq!(c[31], 0x7f);
    for i in 1..31 {
        assert_eq!(c[i], 0xff);
    }

    let all_zeros = ed25519_streaming::hasher::Hash([0u8; 64]);
    let z = clamp_scalar(&all_zeros);
    assert_eq!(z[0], 0x00);
    assert_eq!(z[31], 0x40);
    for i in 1..31 {
        assert_eq!(z[i], 0x00);
    }
}

#[test]
fn digest_wipe_zeroizes() {
    let mut h = ed25519_streaming::hasher::Hash([0x5au8; 64]);
    h.wipe();
    assert_eq!(h.0.to_vec(), [0u8; 64].to_vec());
}

#[test]
fn digest_hex_rendering_is_uppercase() {
    let mut eng = SHA256::new();
    eng.update(b"abc");
    let d = eng.finalize();
    let s = String::from_utf8(d.to_hex()).unwrap();
    assert_eq!(s, "BA7816BF8F01CFEA414140DE5DAE2223B00361A396177A9CB410FF61F20015AD");
}
