use ed25519_streaming::common::{public_key_bytes, with_public_keys, PKH};
use ed25519_streaming::internal::CryptographyError;
use sha2::Digest;

fn seed_from_hex(s: &str) -> [u8; 32] {
    let v = hex::decode(s).unwrap();
    let mut out = [0u8; 32];
    out.copy_from_slice(&v);
    out
}

#[test]
fn public_key_matches_the_published_vector() {
    // The master path exposes the seed itself as the scalar seed, so the
    // public key must be the published one for this seed.
    let seed = seed_from_hex("9d61b19deffd5a60ba844af492ec2cc44449c5697b326919703bac031cae7f60");
    let expected = hex::decode("d75a980182b10ab7d54bfed3c964073a0ee172f3daa62325af021a68f707511a")
        .unwrap();
    let r: Result<Vec<u8>, CryptographyError> = with_public_keys(&seed, &[], |pk, _addr: &PKH| {
        assert_eq!(pk.W.len(), 33);
        assert_eq!(pk.W[0], 2);
        Ok(public_key_bytes(pk).to_vec())
    });
    assert_eq!(r.unwrap(), expected);
}

#[test]
fn address_is_twenty_bytes_and_forty_uppercase_hex_chars() {
    let seed = [3u8; 32];
    for path in [vec![], vec![44u32, 501, 1], vec![0u32; 10]] {
        let r: Result<(Vec<u8>, [u8; 20]), CryptographyError> =
            with_public_keys(&seed, &path, |_pk, addr| Ok((addr.to_hex(), addr.0)));
        let (hex_chars, raw) = r.unwrap();
        assert_eq!(raw.len(), 20);
        assert_eq!(hex_chars.len(), 40);
        for c in &hex_chars {
            assert!((b'0'..=b'9').contains(c) || (b'A'..=b'F').contains(c));
        }
        // Deterministic: the same inputs give the same address.
        let again: Result<Vec<u8>, CryptographyError> =
            with_public_keys(&seed, &path, |_pk, addr| Ok(addr.to_hex()));
        assert_eq!(hex_chars, again.unwrap());
    }
}

#[test]
fn address_is_the_truncated_sha256_of_the_coordinate() {
    let seed = seed_from_hex("c5aa8df43f9f837bedb7442f31dcb7b166d38535076f094b85ce3a2e0b4458f7");
    let r: Result<(Vec<u8>, [u8; 20]), CryptographyError> =
        with_public_keys(&seed, &[2, 7], |pk, addr| {
            Ok((public_key_bytes(pk).to_vec(), addr.0))
        });
    let (coord, addr) = r.unwrap();
    let digest: [u8; 32] = sha2::Sha256::digest(&coord).into();
    assert_eq!(addr.to_vec(), digest[..20].to_vec());
}

#[test]
fn hex_rendering_is_uppercase_with_leading_zeros() {
    let pkh = PKH([
        0x00, 0x1a, 0xff, 0x0b, 0xc4, 0x5e, 0x09, 0x90, 0xab, 0xcd, 0xef, 0x12, 0x34, 0x56, 0x78,
        0x9a, 0x0f, 0xf0, 0x01, 0x10,
    ]);
    let s = String::from_utf8(pkh.to_hex()).unwrap();
    assert_eq!(s, "001AFF0BC45E0990ABCDEF123456789A0FF00110");
}


#[test]
fn with_public_keys_rejects_an_eleven_index_path() {
    let seed = [9u8; 32];
    let path = [1u32; 11];
    let r: Result<(), CryptographyError> = with_public_keys(&seed, &path, |_pk, _a| Ok(()));
    assert!(matches!(
        r,
        Err(CryptographyError::CapacityError(
            ed25519_streaming::internal::CapacityError
        ))
    ));
}
