//! Tests of the extended public key: the binary and Base58Check codecs,
//! identifier and fingerprint computation, and child key derivation
//! against the published BIP-32 test vectors.

use bip32::indexes::{DerivationIndex, NormIdx};
use bip32::xkey::{TooDeepDerivation, XkeyDecodeError, XkeyDeriveError, XkeyParseError};
use bip32::xpub::Xpub;

fn hex_to_bytes(hex: &str) -> Vec<u8> {
    let b = hex.as_bytes();
    assert!(b.len() % 2 == 0);
    let mut out = Vec::new();
    let nibble = |c: u8| -> u8 {
        match c {
            b'0'..=b'9' => c - b'0',
            b'a'..=b'f' => c - b'a' + 10,
            b'A'..=b'F' => c - b'A' + 10,
            _ => panic!("bad hex"),
        }
    };
    let mut i = 0;
    while i < b.len() {
        out.push(nibble(b[i]) * 16 + nibble(b[i + 1]));
        i += 2;
    }
    out
}

/// The compressed generator point of secp256k1: a valid public key.
const G_HEX: &str = "0279be667ef9dcbbac55a06295ce870b07029bfcdb2dce28d959f2815b16f81798";

/// A syntactically valid mainnet key buffer with the given depth.
fn buffer_with_depth(depth: u8) -> Vec<u8> {
    let mut buf = vec![0x04u8, 0x88, 0xB2, 0x1E];
    buf.push(depth);
    buf.extend_from_slice(&[0u8; 4]); // parent fingerprint
    buf.extend_from_slice(&[0u8; 4]); // child number
    buf.extend_from_slice(&[0x11u8; 32]); // chain code
    buf.extend_from_slice(&hex_to_bytes(G_HEX));
    buf
}

/// The BIP-32 test-vector extended public keys at m/0H and m/0H/1.
const V1_M0H: &str = "xpub68Gmy5EdvgibQVfPdqkBBCHxA5htiqg55crXYuXoQRKfDBFA1WEjWgP6LHhwBZeNK1VTsfTFUHCdrfp1bgwQ9xv5ski8PX9rL2dZXvgGDnw";
const V1_M0H_1: &str = "xpub6ASuArnXKPbfEwhqN6e3mwBcDTgzisQN1wXN9BJcM47sSikHjJf3UFHKkNAWbWMiGj7Wf5uMash7SyYq527Hqck2AxYysAA7xmALppuCkwQ";

#[test]
fn binary_round_trip() {
    let buf = buffer_with_depth(3);
    let x = Xpub::decode_binary(&buf).unwrap();
    assert_eq!(x.encode_binary(), buf);
    assert_eq!(x.depth(), 3);
    assert!(x.is_mainnet());
    assert!(!x.is_testnet());
    assert_eq!(x.child_number().first_raw_value(), 0);
    assert_eq!(x.chain_code().as_bytes(), &vec![0x11u8; 32]);
    assert_eq!(x.public_key(), hex_to_bytes(G_HEX));
}

#[test]
fn binary_decode_errors() {
    assert_eq!(
        Xpub::decode_binary(&[0u8; 10]),
        Err(XkeyDecodeError::InvalidLen(10))
    );
    assert_eq!(
        Xpub::decode_binary(&[0u8; 100]),
        Err(XkeyDecodeError::InvalidLen(100))
    );
    let mut bad = buffer_with_depth(0);
    bad[45] = 0x05; // not a valid compressed-point prefix
    match Xpub::decode_binary(&bad) {
        Err(XkeyDecodeError::InvalidKey(k)) => assert_eq!(k.as_slice(), &bad[45..78]),
        other => panic!("expected InvalidKey, got {:?}", other),
    }
}

#[test]
fn base58check_round_trip() {
    let x = Xpub::from_str(V1_M0H).unwrap();
    assert_eq!(x.to_string(), V1_M0H);
    assert_eq!(Xpub::from_str(&x.to_string()), Ok(x));
}

#[test]
fn flipping_any_character_never_yields_another_key() {
    let original = Xpub::from_str(V1_M0H).unwrap();
    let s = V1_M0H.to_string();
    let bytes = s.as_bytes();
    for i in 0..bytes.len() {
        let mut mutated = bytes.to_vec();
        // Swap the character for a different one of the Base58 alphabet.
        mutated[i] = if bytes[i] == b'2' { b'3' } else { b'2' };
        if mutated[i] == bytes[i] {
            continue;
        }
        let mutated = String::from_utf8(mutated).unwrap();
        match Xpub::from_str(&mutated) {
            Err(_) => {},
            Ok(k) => assert_eq!(k, original, "flip at {} produced another key", i),
        }
    }
}

#[test]
fn base58check_parse_errors() {
    // A character outside the Base58 alphabet.
    assert!(matches!(
        Xpub::from_str("0OIl"),
        Err(XkeyParseError::InvalidBase58Character(_, _))
    ));
    // Valid Base58 of the wrong decoded length.
    assert!(matches!(
        Xpub::from_str("abc"),
        Err(XkeyParseError::InvalidLen(_))
    ));
    // A corrupted checksum: change the last character.
    let mut s = V1_M0H.to_string().into_bytes();
    let last = s.len() - 1;
    s[last] = if s[last] == b'w' { b'x' } else { b'w' };
    let s = String::from_utf8(s).unwrap();
    assert!(matches!(
        Xpub::from_str(&s),
        Err(XkeyParseError::InvalidChecksum { .. }) | Err(XkeyParseError::InvalidBase58Length)
    ));
    // An overlong input cannot hold an extended key.
    let long = "1".repeat(200);
    assert_eq!(Xpub::from_str(&long), Err(XkeyParseError::InvalidBase58Length));
}

#[test]
fn ckd_matches_bip32_test_vector() {
    let parent = Xpub::from_str(V1_M0H).unwrap();
    assert_eq!(parent.depth(), 1);
    let one = NormIdx::from_index(1).unwrap();
    let child = parent.ckd_pub(one).unwrap();
    // The chain code and the public key must match the published vector
    // byte for byte. (The parent-fingerprint field differs: this design
    // computes the identifier as plain RIPEMD-160 of the key.)
    let expected = Xpub::from_str(V1_M0H_1).unwrap();
    assert_eq!(child.chain_code(), expected.chain_code());
    assert_eq!(child.public_key(), expected.public_key());
    assert_eq!(child.depth(), 2);
    assert_eq!(child.child_number().first_raw_value(), 1);
    assert!(child.is_mainnet());
    assert_eq!(
        child.parent_fingerprint().as_bytes(),
        parent.fingerprint().as_bytes()
    );
}

#[test]
fn derive_walks_the_path() {
    let parent = Xpub::from_str(V1_M0H).unwrap();
    let one = NormIdx::from_index(1).unwrap();
    let two = NormIdx::from_index(2).unwrap();
    let step = parent.ckd_pub(one).unwrap().ckd_pub(two).unwrap();
    let walked = parent.derive(&vec![one, two]).unwrap();
    assert_eq!(walked, step);
    assert_eq!(parent.derive(&vec![]).unwrap(), parent);
}

#[test]
fn depth_boundary() {
    let zero = NormIdx::from_index(0).unwrap();
    let at_254 = Xpub::decode_binary(&buffer_with_depth(254)).unwrap();
    let at_255 = at_254.ckd_pub(zero).unwrap();
    assert_eq!(at_255.depth(), 255);
    assert_eq!(
        at_255.ckd_pub(zero),
        Err(XkeyDeriveError::TooDeep(TooDeepDerivation))
    );
    assert_eq!(
        at_255.derive(&vec![zero]),
        Err(XkeyDeriveError::TooDeep(TooDeepDerivation))
    );
}

#[test]
fn fingerprint_depends_on_key_alone() {
    let a = Xpub::decode_binary(&buffer_with_depth(0)).unwrap();
    let mut other = buffer_with_depth(9); // different depth
    for b in &mut other[13..45] {
        *b = 0x77; // different chain code
    }
    other[5] = 0xAB; // different parent fingerprint
    other[12] = 0x01; // different child number
    let b = Xpub::decode_binary(&other).unwrap();
    assert_eq!(a.fingerprint(), b.fingerprint());
    assert_eq!(a.identifier(), b.identifier());
}

#[test]
fn identifier_and_xonly_projection() {
    let x = Xpub::decode_binary(&buffer_with_depth(0)).unwrap();
    assert_eq!(x.identifier().as_bytes().len(), 20);
    assert_eq!(
        x.fingerprint().as_bytes().as_slice(),
        &x.identifier().as_bytes()[..4]
    );
    // The x-only projection drops exactly the parity byte.
    let g = hex_to_bytes(G_HEX);
    assert_eq!(x.into_x_only_pk(), g[1..33].to_vec());
}

#[test]
fn testnet_magic_is_recognized() {
    let mut buf = buffer_with_depth(0);
    buf[0] = 0x04;
    buf[1] = 0x35;
    buf[2] = 0x87;
    buf[3] = 0xCF;
    let x = Xpub::decode_binary(&buf).unwrap();
    assert!(x.is_testnet());
    assert!(!x.is_mainnet());
}
