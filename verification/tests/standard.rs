//! Tests of BIP-43 scheme identification.

use bip32::indexes::{DerivationIndex, HdnIdx};
use bip32::standard::{Bip43, ParseError};

#[test]
fn recognizes_named_schemes() {
    assert_eq!(Bip43::from_str("bip44"), Ok(Bip43::Bip44));
    assert_eq!(Bip43::from_str("bip49"), Ok(Bip43::Bip49));
    assert_eq!(Bip43::from_str("bip84"), Ok(Bip43::Bip84));
    assert_eq!(Bip43::from_str("bip86"), Ok(Bip43::Bip86));
    assert_eq!(Bip43::from_str("bip45"), Ok(Bip43::Bip45));
    assert_eq!(Bip43::from_str("bip87"), Ok(Bip43::Bip87));
    assert_eq!(Bip43::from_str("bip48-nested"), Ok(Bip43::Bip48Nested));
    assert_eq!(Bip43::from_str("bip48-native"), Ok(Bip43::Bip48Native));
}

#[test]
fn recognizes_slash_and_case_variants() {
    assert_eq!(Bip43::from_str("BIP44"), Ok(Bip43::Bip44));
    assert_eq!(Bip43::from_str("Bip48-Nested"), Ok(Bip43::Bip48Nested));
    assert_eq!(Bip43::from_str("m/44"), Ok(Bip43::Bip44));
    assert_eq!(Bip43::from_str("bip48//1h"), Ok(Bip43::Bip48Nested));
    assert_eq!(Bip43::from_str("bip48//2h"), Ok(Bip43::Bip48Native));
    assert_eq!(Bip43::from_str("bip48//1H"), Ok(Bip43::Bip48Nested));
    let purpose = HdnIdx::from_index(5).unwrap();
    assert_eq!(Bip43::from_str("bip43/5h"), Ok(Bip43::Bip43 { purpose }));
    assert_eq!(Bip43::from_str("bip43/5'"), Ok(Bip43::Bip43 { purpose }));
}

#[test]
fn rejects_unknown_schemes() {
    assert_eq!(Bip43::from_str("bip99"), Err(ParseError::UnrecognizedBipScheme));
    assert_eq!(
        Bip43::from_str("bip48-foo"),
        Err(ParseError::UnrecognizedBipScheme)
    );
    assert_eq!(
        Bip43::from_str("bip43/5"),
        Err(ParseError::InvalidPurposeIndex(String::from("5")))
    );
    assert_eq!(Bip43::from_str("bip48//3h"), Err(ParseError::InvalidBip48Scheme));
    assert_eq!(Bip43::from_str("bip48//"), Err(ParseError::InvalidBip48Scheme));
    assert_eq!(Bip43::from_str(""), Err(ParseError::UnrecognizedBipScheme));
    assert_eq!(Bip43::from_str("xyz"), Err(ParseError::UnrecognizedBipScheme));
    assert_eq!(Bip43::from_str("bip"), Err(ParseError::UnrecognizedBipScheme));
}

#[test]
fn renders_canonical_and_alternate_forms() {
    assert_eq!(Bip43::Bip44.to_string(), "bip44");
    assert_eq!(Bip43::Bip48Nested.to_string(), "bip48-nested");
    assert_eq!(Bip43::Bip48Native.to_string(), "bip48-native");
    assert_eq!(Bip43::Bip44.to_alt_string(), "m/44h");
    assert_eq!(Bip43::Bip48Nested.to_alt_string(), "m/48h//1h");
    assert_eq!(Bip43::Bip48Native.to_alt_string(), "m/48h//2h");
    let purpose = HdnIdx::from_index(7).unwrap();
    let custom = Bip43::Bip43 { purpose };
    assert_eq!(custom.to_string(), "bip43/7h");
    assert_eq!(custom.to_alt_string(), "m/7h");
    // The canonical short form parses back.
    for b in [
        Bip43::Bip44,
        Bip43::Bip49,
        Bip43::Bip84,
        Bip43::Bip86,
        Bip43::Bip45,
        Bip43::Bip87,
        Bip43::Bip48Nested,
        Bip43::Bip48Native,
        custom,
    ] {
        assert_eq!(Bip43::from_str(&b.to_string()), Ok(b));
    }
}

#[test]
fn semantic_constructors_map_to_variants() {
    assert_eq!(Bip43::singlesig_pkh(), Bip43::Bip44);
    assert_eq!(Bip43::singlesig_nested0(), Bip43::Bip49);
    assert_eq!(Bip43::singlesig_segwit0(), Bip43::Bip84);
    assert_eq!(Bip43::singlesig_taproot(), Bip43::Bip86);
    assert_eq!(Bip43::multisig_ordered_sh(), Bip43::Bip45);
    assert_eq!(Bip43::multisig_nested0(), Bip43::Bip48Nested);
    assert_eq!(Bip43::multisig_segwit0(), Bip43::Bip48Native);
    assert_eq!(Bip43::multisig_descriptor(), Bip43::Bip87);
}
