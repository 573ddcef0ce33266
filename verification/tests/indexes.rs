//! Tests of the derivation-index model and its string forms.

use bip32::indexes::{
    ChildIdx, DerivationIndex, HdnIdx, IndexOverflow, IndexParseError, IndexUnsupported, NormIdx,
    HARDENED_INDEX_BOUNDARY,
};

const BOUNDARY: u32 = HARDENED_INDEX_BOUNDARY;

#[test]
fn norm_idx_from_index_round_trips() {
    for v in [0u32, 1, 2, 9, 10, 99, 1000, 123_456_789, BOUNDARY - 1] {
        let n = NormIdx::from_index(v).unwrap();
        assert_eq!(n.first_index(), v);
        assert_eq!(n.first_raw_value(), v);
        assert_eq!(n.last_index(), v);
        assert_eq!(n.last_derivation_value(), v);
        assert!(!n.is_hardened());
        assert_eq!(n.count(), 1);
        let s = n.to_string();
        assert_eq!(NormIdx::from_str(&s), Ok(n));
    }
}

#[test]
fn norm_idx_rejects_raw_overflow() {
    assert_eq!(NormIdx::from_index(BOUNDARY), Err(IndexOverflow(BOUNDARY)));
    assert_eq!(NormIdx::from_index(u32::MAX), Err(IndexOverflow(u32::MAX)));
    assert!(matches!(
        NormIdx::from_raw_value(BOUNDARY),
        Err(IndexUnsupported::Hardened(_))
    ));
    assert!(matches!(
        NormIdx::from_raw_value(u32::MAX),
        Err(IndexUnsupported::Hardened(_))
    ));
}

#[test]
fn hdn_idx_raw_values_round_trip() {
    for v in [BOUNDARY, BOUNDARY + 1, BOUNDARY + 44, u32::MAX] {
        let h = HdnIdx::from_raw_value(v).unwrap();
        assert_eq!(h.first_raw_value(), v);
        assert_eq!(h.first_index(), v - BOUNDARY);
        assert!(h.is_hardened());
    }
    assert!(matches!(
        HdnIdx::from_raw_value(0),
        Err(IndexUnsupported::Unhardened(_))
    ));
    assert!(matches!(
        HdnIdx::from_raw_value(BOUNDARY - 1),
        Err(IndexUnsupported::Unhardened(_))
    ));
}

#[test]
fn hdn_idx_from_index_reduces() {
    let a = HdnIdx::from_index(7).unwrap();
    assert_eq!(a.first_index(), 7);
    assert_eq!(a.first_raw_value(), BOUNDARY + 7);
    let b = HdnIdx::from_index(BOUNDARY + 7).unwrap();
    assert_eq!(b, a);
}

#[test]
fn child_idx_picks_variant_by_boundary() {
    let n = ChildIdx::from_raw_value(15).unwrap();
    assert!(matches!(n, ChildIdx::Normal(_)));
    assert!(!n.is_hardened());
    assert_eq!(n.first_raw_value(), 15);
    let h = ChildIdx::from_raw_value(BOUNDARY + 15).unwrap();
    assert!(matches!(h, ChildIdx::Hardened(_)));
    assert!(h.is_hardened());
    assert_eq!(h.first_raw_value(), BOUNDARY + 15);
    assert_eq!(h.first_index(), 15);
    // from_index never fails for the tagged union.
    let c = ChildIdx::from_index(BOUNDARY + 3).unwrap();
    assert!(c.is_hardened());
    assert_eq!(c.first_index(), 3);
}

#[test]
fn child_idx_string_round_trip() {
    for s in ["0", "1", "42", "2147483647", "0h", "1h", "42h", "2147483647h"] {
        let c = ChildIdx::from_str(s).unwrap();
        let rendered = c.to_string();
        assert_eq!(ChildIdx::from_str(&rendered), Ok(c));
    }
    // Canonical forms.
    let h = ChildIdx::from_str("42H").unwrap();
    assert_eq!(h.to_string(), "42h");
    assert_eq!(h.to_alt_string(), "42'");
    let h2 = ChildIdx::from_str("42'").unwrap();
    assert_eq!(h, h2);
    let n = ChildIdx::from_str("42").unwrap();
    assert_eq!(n.to_string(), "42");
    assert_eq!(n.to_alt_string(), "42");
    assert_ne!(n, h);
}

#[test]
fn index_parse_errors() {
    assert_eq!(NormIdx::from_str(""), Err(IndexParseError::InvalidInt));
    assert_eq!(NormIdx::from_str("abc"), Err(IndexParseError::InvalidInt));
    assert_eq!(NormIdx::from_str("12x"), Err(IndexParseError::InvalidInt));
    assert_eq!(NormIdx::from_str("-1"), Err(IndexParseError::InvalidInt));
    // Too large for u32 at all: an integer error, as u32 parsing reports.
    assert_eq!(
        NormIdx::from_str("4294967296"),
        Err(IndexParseError::InvalidInt)
    );
    // In u32 range but at the hardened boundary: an overflow.
    assert_eq!(
        NormIdx::from_str("2147483648"),
        Err(IndexParseError::Overflow(IndexOverflow(BOUNDARY)))
    );
    // A leading plus sign is accepted, as in integer parsing.
    assert_eq!(NormIdx::from_str("+42"), Ok(NormIdx::from_index(42).unwrap()));
    // A hardened numeral without its suffix is an unhardened index.
    assert!(matches!(
        HdnIdx::from_str("5"),
        Err(IndexParseError::Unsupported(IndexUnsupported::Unhardened(_)))
    ));
    // A hardened value at the boundary overflows even with the suffix.
    assert_eq!(
        HdnIdx::from_str("2147483648h"),
        Err(IndexParseError::Overflow(IndexOverflow(BOUNDARY)))
    );
    assert_eq!(ChildIdx::from_str("12vh"), Err(IndexParseError::InvalidInt));
}

#[test]
fn checked_arithmetic_stays_in_range() {
    let mut n = NormIdx::from_index(10).unwrap();
    assert_eq!(n.checked_add(5).unwrap().first_index(), 15);
    assert_eq!(n.checked_sub(5).unwrap().first_index(), 5);
    assert_eq!(n.checked_inc().unwrap().first_index(), 11);
    assert_eq!(n.checked_dec().unwrap().first_index(), 9);
    assert_eq!(n.checked_add_assign(90), Some(100));
    assert_eq!(n.first_index(), 100);
    assert_eq!(n.checked_sub_assign(100), Some(0));
    assert_eq!(n.checked_dec(), None);
    assert_eq!(n.checked_dec_assign(), None);
    assert_eq!(n.first_index(), 0);

    let top = NormIdx::largest();
    assert_eq!(top.first_index(), BOUNDARY - 1);
    assert_eq!(top.checked_inc(), None);
    assert_eq!(top.checked_add(1), None);
    let mut top2 = top;
    assert_eq!(top2.checked_inc_assign(), None);
    assert_eq!(top2, top);

    let h = HdnIdx::largest();
    assert_eq!(h.checked_add(1), None);
    assert_eq!(h.checked_sub(1).unwrap().first_index(), BOUNDARY - 2);

    let mut c = ChildIdx::hardened_index(7u16);
    assert!(c.is_hardened());
    assert_eq!(c.checked_add_assign(3), Some(10));
    assert!(c.is_hardened());
    assert_eq!(c.first_index(), 10);
}

#[test]
fn zero_one_largest() {
    assert_eq!(NormIdx::zero().first_index(), 0);
    assert_eq!(NormIdx::one().first_index(), 1);
    assert_eq!(HdnIdx::zero().first_raw_value(), BOUNDARY);
    assert_eq!(HdnIdx::one().first_raw_value(), BOUNDARY + 1);
    assert_eq!(HdnIdx::largest().first_raw_value(), u32::MAX);
    // The tagged union defaults to hardened canonical values.
    assert!(ChildIdx::zero().is_hardened());
    assert_eq!(ChildIdx::zero().first_index(), 0);
    assert!(ChildIdx::largest().is_hardened());
}

#[test]
fn contains_matches_single_value() {
    let n = NormIdx::from_index(9).unwrap();
    assert!(n.contains(9));
    assert!(!n.contains(10));
    let c = ChildIdx::from_raw_value(9).unwrap();
    assert!(c.contains(9));
    assert!(!c.contains(BOUNDARY + 9));
    // A hardened segment lifts the argument into the hardened range, so
    // both the zero-based and the raw form of its value are members.
    let h = ChildIdx::from_raw_value(BOUNDARY + 9).unwrap();
    assert!(h.contains(9));
    assert!(h.contains(BOUNDARY + 9));
    assert!(!h.contains(10));
    assert!(!h.contains(BOUNDARY + 10));
}

#[test]
fn segments_convert_to_their_index_kind() {
    let n = ChildIdx::from_raw_value(9).unwrap();
    let h = ChildIdx::from_raw_value(BOUNDARY + 9).unwrap();
    assert_eq!(n.try_into_normal(), Ok(NormIdx::from_index(9).unwrap()));
    assert_eq!(h.try_into_hardened(), Ok(HdnIdx::from_index(9).unwrap()));
    assert!(matches!(n.try_into_hardened(), Err(_)));
    assert!(matches!(h.try_into_normal(), Err(_)));
}

#[test]
fn canonical_ordering_for_path_comparison() {
    let n5 = ChildIdx::from_raw_value(5).unwrap();
    let n6 = ChildIdx::from_raw_value(6).unwrap();
    let h0 = ChildIdx::from_raw_value(BOUNDARY).unwrap();
    let h1 = ChildIdx::from_raw_value(BOUNDARY + 1).unwrap();
    // Variant tag first (normal before hardened), then the inner value.
    assert!(n5 < n6);
    assert!(n6 < h0);
    assert!(h0 < h1);
}
