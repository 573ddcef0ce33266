//! Tests of the raw BIP-174 pair layer, the PSBT map serialization, and
//! the processing roles.

use bip32::psbt::{GlobalPair, KeyMap, KeyPair, Psbt, UnknownPair};
use bip32::raw::{DecodeError, Key, Pair, ProprietaryKey, ProprietaryType};
use bip32::roles::Role;

#[test]
fn varint_round_trips() {
    for n in [
        0u64,
        1,
        0xFC,
        0xFD,
        0x1234,
        0xFFFF,
        0x1_0000,
        0xFFFF_FFFF,
        0x1_0000_0000,
        u64::MAX,
    ] {
        let mut buf = Vec::new();
        bip32::raw::write_varint(&mut buf, n);
        let (v, at) = bip32::raw::read_varint(&buf, 0).unwrap();
        assert_eq!(v, n);
        assert_eq!(at, buf.len());
    }
    assert_eq!(
        bip32::raw::read_varint(&vec![], 0),
        Err(DecodeError::UnexpectedEnd)
    );
    // Non-minimal encodings are rejected.
    assert_eq!(
        bip32::raw::read_varint(&vec![0xFD, 0x05, 0x00], 0),
        Err(DecodeError::NonMinimal)
    );
    assert_eq!(
        bip32::raw::read_varint(&vec![0xFE, 0x05, 0x00, 0x00, 0x00], 0),
        Err(DecodeError::NonMinimal)
    );
}

#[test]
fn key_and_pair_round_trip() {
    let pair = Pair {
        key: Key { type_value: 0x02, key: vec![0xAA, 0xBB] },
        value: vec![1, 2, 3, 4],
    };
    let mut buf = Vec::new();
    pair.encode(&mut buf);
    // <keylen=3><type=0x02><0xAA 0xBB><valuelen=4><1 2 3 4>
    assert_eq!(buf, vec![3, 0x02, 0xAA, 0xBB, 4, 1, 2, 3, 4]);
    let (decoded, at) = Pair::decode(&buf, 0).unwrap();
    assert_eq!(decoded, pair);
    assert_eq!(at, buf.len());
    let mut buf2 = Vec::new();
    decoded.encode(&mut buf2);
    assert_eq!(buf2, buf);
}

#[test]
fn duplicate_crash() {
    // A single zero byte is the map separator, never a key-value pair.
    let data = vec![0x00u8];
    assert_eq!(Key::decode(&data, 0), Err(DecodeError::NoMorePairs));
    assert_eq!(Pair::decode(&data, 0), Err(DecodeError::NoMorePairs));
    // Whatever does decode re-encodes to the same bytes.
    let ok = vec![1u8, 0x07, 0u8];
    let (pair, at) = Pair::decode(&ok, 0).unwrap();
    assert_eq!(at, ok.len());
    let mut again = Vec::new();
    pair.encode(&mut again);
    assert_eq!(again, ok);
}

#[test]
fn key_decode_errors() {
    // Key data cut short.
    assert_eq!(
        Key::decode(&vec![5, 0x01, 0xAA], 0),
        Err(DecodeError::UnexpectedEnd)
    );
    // A length field over the allocation limit.
    let mut big = Vec::new();
    bip32::raw::write_varint(&mut big, 4_000_002);
    assert_eq!(Key::decode(&big, 0), Err(DecodeError::Oversized));
}

#[test]
fn proprietary_key_round_trip() {
    let pk = ProprietaryKey {
        prefix: vec![b'v', b'x'],
        subtype: 7,
        key: vec![9, 9, 9],
    };
    let key = pk.clone().into_key();
    assert_eq!(key.type_value, 0xFC);
    assert_eq!(key.key, vec![2, b'v', b'x', 7, 9, 9, 9]);
    assert_eq!(ProprietaryKey::from_key(key), Ok(pk));
    let _marker = ProprietaryType;
    // A non-proprietary key type is refused.
    let plain = Key { type_value: 0x01, key: vec![] };
    assert_eq!(
        ProprietaryKey::from_key(plain),
        Err(DecodeError::InvalidProprietaryKey)
    );
}

#[test]
fn empty_psbt_serializes_to_magic_and_separator() {
    let psbt = Psbt {
        global: KeyMap(vec![]),
        inputs: vec![],
        outputs: vec![],
    };
    assert_eq!(psbt.to_raw(), vec![0x70, 0x73, 0x62, 0x74, 0xFF, 0x00]);
}

#[test]
fn psbt_serializes_maps_in_order() {
    let psbt = Psbt {
        global: KeyMap(vec![
            KeyPair::Known(GlobalPair::TxVersion(2)),
            KeyPair::Unknown(UnknownPair::new(0x42, vec![0xAB], vec![0xCD])),
        ]),
        inputs: vec![KeyMap(vec![])],
        outputs: vec![KeyMap(vec![]), KeyMap(vec![])],
    };
    let raw = psbt.to_raw();
    let expected = vec![
        0x70, 0x73, 0x62, 0x74, 0xFF, // magic
        1, 0x02, 4, 2, 0, 0, 0, // tx version pair
        2, 0x42, 0xAB, 1, 0xCD, // the unknown pair
        0x00, // end of global map
        0x00, // the one (empty) input map
        0x00, 0x00, // the two (empty) output maps
    ];
    assert_eq!(raw, expected);
}

#[test]
fn roles_advance_in_order() {
    assert_eq!(Role::init(), Role::Creator);
    let mut seen = vec![Role::init()];
    while let Some(next) = seen.last().unwrap().next() {
        seen.push(next);
    }
    assert_eq!(
        seen,
        vec![
            Role::Creator,
            Role::Updater,
            Role::Signer,
            Role::Combiner,
            Role::Finalizer,
            Role::Extractor,
        ]
    );
    assert_eq!(Role::Extractor.next(), None);
    assert!(Role::Creator < Role::Extractor);
}
