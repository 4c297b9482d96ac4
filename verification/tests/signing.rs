use ed25519_streaming::ed25519::Ed25519;
use ed25519_streaming::eddsa::eddsa_sign;
use ed25519_streaming::internal::{with_private_key, CapacityError, CryptographyError, PrivateKey};

fn seed_from_hex(s: &str) -> [u8; 32] {
    let v = hex::decode(s).unwrap();
    let mut out = [0u8; 32];
    out.copy_from_slice(&v);
    out
}

fn stream_sign(seed: &[u8; 32], path: &[u32], chunks1: &[&[u8]], chunks2: &[&[u8]]) -> [u8; 64] {
    let mut s = Ed25519::new(seed, path).unwrap();
    for c in chunks1 {
        s.update(c);
    }
    let mut c = s.done_with_r(seed).unwrap();
    for ch in chunks2 {
        c.update(ch);
    }
    c.finalize(seed).unwrap().0
}

fn check_rfc8032_vector(seed_hex: &str, msg_hex: &str, sig_hex: &str) {
    let seed = seed_from_hex(seed_hex);
    let msg = hex::decode(msg_hex).unwrap();
    let expected = hex::decode(sig_hex).unwrap();

    let streamed = stream_sign(&seed, &[], &[&msg], &[&msg]);
    assert_eq!(streamed.to_vec(), expected);

    let direct = eddsa_sign(&seed, &[], &msg).unwrap();
    assert_eq!(direct.0.to_vec(), expected);
}

#[test]
fn rfc8032_vector_empty_message() {
    check_rfc8032_vector(
        "9d61b19deffd5a60ba844af492ec2cc44449c5697b326919703bac031cae7f60",
        "",
        "e5564300c360ac729086e2cc806e828a84877f1eb8e5d974d873e06522490155\
         5fb8821590a33bacc61e39701cf9b46bd25bf5f0595bbe24655141438e7a100b",
    );
}

#[test]
fn rfc8032_vector_one_byte_message() {
    check_rfc8032_vector(
        "4ccd089b28ff96da9db6c346ec114e0f5b8a319f35aba624da8cf6ed4fb8a6fb",
        "72",
        "92a009a9f0d4cab8720e820b5f642540a2b27b5416503f8fb3762223ebdb69da\
         085ac1e43e15996e458f3613d0f11d8c387b2eaeb4302aeeb00d291612bb0c00",
    );
}

#[test]
fn rfc8032_vector_two_byte_message() {
    check_rfc8032_vector(
        "c5aa8df43f9f837bedb7442f31dcb7b166d38535076f094b85ce3a2e0b4458f7",
        "af82",
        "6291d657deec24024827e69c3abe01a30ce548a284743a445e3680d7db5ac3ac\
         18ff9b538d16f290ae67f760984dc6594a7c15e9716ed28dc027beceea1ec40a",
    );
}

#[test]
fn streaming_matches_direct_for_all_path_lengths() {
    let seed = seed_from_hex("9d61b19deffd5a60ba844af492ec2cc44449c5697b326919703bac031cae7f60");
    let msg: Vec<u8> = (0u8..200).collect();
    let full: Vec<u32> = vec![44, 501, 2147483648, 0, 7, 11, 13, 17, 19, 23];
    for n in 0..=10usize {
        let path = &full[..n];
        let streamed = stream_sign(&seed, path, &[&msg], &[&msg]);
        let direct = eddsa_sign(&seed, path, &msg).unwrap();
        assert_eq!(streamed, direct.0, "path length {}", n);
    }
}

#[test]
fn chunking_never_changes_the_signature() {
    let seed = seed_from_hex("4ccd089b28ff96da9db6c346ec114e0f5b8a319f35aba624da8cf6ed4fb8a6fb");
    let path = [44u32, 501];
    let msg: Vec<u8> = (0u8..101).collect();
    let whole = stream_sign(&seed, &path, &[&msg], &[&msg]);

    // Split each pass at different boundaries, including empty chunks.
    let (a, b) = msg.split_at(1);
    let (c, d) = msg.split_at(73);
    let split1 = stream_sign(&seed, &path, &[a, b], &[c, d]);
    assert_eq!(whole, split1);

    let empty: &[u8] = &[];
    let bytewise: Vec<&[u8]> = msg.chunks(1).collect();
    let split2 = stream_sign(&seed, &path, &bytewise, &[empty, &msg, empty]);
    assert_eq!(whole, split2);
}

#[test]
fn identical_inputs_give_identical_signatures() {
    let seed = seed_from_hex("c5aa8df43f9f837bedb7442f31dcb7b166d38535076f094b85ce3a2e0b4458f7");
    let path = [1u32, 2, 3];
    let msg = b"the same message, signed twice";
    let first = stream_sign(&seed, &path, &[msg], &[msg]);
    let second = stream_sign(&seed, &path, &[msg], &[msg]);
    assert_eq!(first, second);
    let d1 = eddsa_sign(&seed, &path, msg).unwrap();
    let d2 = eddsa_sign(&seed, &path, msg).unwrap();
    assert_eq!(d1, d2);
}

#[test]
fn eleven_index_path_fails_with_capacity_error() {
    let seed = [7u8; 32];
    let path = [0u32; 11];
    let r = Ed25519::new(&seed, &path);
    assert!(matches!(r, Err(CryptographyError::CapacityError(CapacityError))));
    assert!(eddsa_sign(&seed, &path, b"m").is_none());
    let r: Result<(), CryptographyError> = with_private_key(&seed, &path, |_k| Ok(()));
    assert!(matches!(r, Err(CryptographyError::CapacityError(CapacityError))));
}

#[test]
fn session_can_be_reinitialized() {
    let seed = seed_from_hex("9d61b19deffd5a60ba844af492ec2cc44449c5697b326919703bac031cae7f60");
    let msg = b"reinitialized";
    let mut s = Ed25519::new(&seed, &[9, 9, 9]).unwrap();
    s.update(b"bytes that the reinit must discard");
    s.init(&seed, &[1]).unwrap();
    s.update(msg);
    let mut c = s.done_with_r(&seed).unwrap();
    c.update(msg);
    let reused = c.finalize(&seed).unwrap().0;
    let fresh = stream_sign(&seed, &[1], &[msg], &[msg]);
    assert_eq!(reused, fresh);
}

#[test]
fn nonce_point_sign_bit_is_the_compression_parity_bit() {
    let seed = seed_from_hex("4ccd089b28ff96da9db6c346ec114e0f5b8a319f35aba624da8cf6ed4fb8a6fb");
    for (path, msg) in [
        (vec![], b"a".to_vec()),
        (vec![5u32], b"bb".to_vec()),
        (vec![5u32, 6], (0u8..50).collect()),
    ] {
        let sig = stream_sign(&seed, &path, &[&msg], &[&msg]);
        let mut r_bytes = [0u8; 32];
        r_bytes.copy_from_slice(&sig[..32]);
        // Decompress R and recompress it: the round trip reproduces R exactly
        // only if bit 7 of its last byte is the point's compression parity.
        let point = curve25519_dalek::edwards::CompressedEdwardsY(r_bytes)
            .decompress()
            .expect("R must be a valid compressed point");
        assert_eq!(point.compress().to_bytes(), r_bytes);
    }
}

#[test]
fn with_private_key_yields_the_derived_material_and_wipe_zeroizes() {
    let seed = seed_from_hex("9d61b19deffd5a60ba844af492ec2cc44449c5697b326919703bac031cae7f60");
    // The master path hands back the seed itself as the scalar seed.
    let low: Result<Vec<u8>, CryptographyError> =
        with_private_key(&seed, &[], |k| Ok(k.d[0..32].to_vec()));
    assert_eq!(low.unwrap(), seed.to_vec());
    // A child path yields different, but deterministic, material.
    let c1: Result<Vec<u8>, CryptographyError> =
        with_private_key(&seed, &[1], |k| Ok(k.d.to_vec()));
    let c2: Result<Vec<u8>, CryptographyError> =
        with_private_key(&seed, &[1], |k| Ok(k.d.to_vec()));
    let c1 = c1.unwrap();
    assert_eq!(c1, c2.unwrap());
    assert_ne!(c1[0..32].to_vec(), seed.to_vec());

    let mut k = PrivateKey { d: [0xabu8; 64] };
    k.wipe();
    assert_eq!(k.d, [0u8; 64]);
}
