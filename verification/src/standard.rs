//! Identification of standard account-level derivation schemes in the
//! BIP-43 family, parsed from and rendered to their canonical strings.

use vstd::prelude::*;

use crate::indexes::{
    chars_to_string, hdn_from_chars, hdn_parse_ok, hdn_parse_val, hdn_render, str_to_chars, HdnIdx,
    DerivationIndex,
};

verus! {

/// Errors in parsing a derivation scheme from its string form.
#[derive(Clone, PartialEq, Eq, Debug)]
pub enum ParseError {
    /// The blockchain index is invalid: only `0h` (mainnet) and `1h`
    /// (testnets) exist.
    InvalidBlockchain(String),
    /// The BIP-43 purpose is not a valid hardened index.
    InvalidPurposeIndex(String),
    /// The numbered BIP is not implemented (or does not exist).
    UnimplementedBip(u16),
    /// The string is not one of the recognized BIP-43-based schemes.
    UnrecognizedBipScheme,
    /// A generic BIP-43 scheme must have the form `bip43/<purpose>h`.
    InvalidBip43Scheme,
    /// A BIP-48 scheme must have the form `bip48-native` or `bip48-nested`.
    InvalidBip48Scheme,
    /// The derivation path is invalid.
    InvalidDerivationPath(String),
}

/// A derivation scheme of the BIP-43 family: a closed set of named
/// account-level schemes, each fixing a hardened purpose value, plus a
/// generic variant for arbitrary purposes.
#[derive(Clone, Copy, PartialEq, Eq, Hash, Structural, Debug)]
pub enum Bip43 {
    /// Account-based P2PKH derivation (`m / 44' / coin_type' / account'`).
    Bip44,
    /// Account-based native P2WPKH derivation
    /// (`m / 84' / coin_type' / account'`).
    Bip84,
    /// Account-based P2WPKH-in-P2SH derivation
    /// (`m / 49' / coin_type' / account'`).
    Bip49,
    /// Account-based single-key P2TR derivation
    /// (`m / 86' / coin_type' / account'`).
    Bip86,
    /// Cosigner-index-based multisig derivation (`m / 45' / cosigner_index`).
    Bip45,
    /// Account-based multisig derivation with sorted keys, P2WSH nested
    /// scripts (`m / 48' / coin_type' / account' / 1'`).
    Bip48Nested,
    /// Account-based multisig derivation with sorted keys, P2WSH native
    /// scripts (`m / 48' / coin_type' / account' / 2'`).
    Bip48Native,
    /// Account- and descriptor-based derivation for multisig wallets
    /// (`m / 87' / coin_type' / account'`).
    Bip87,
    /// Generic BIP-43 derivation with a custom purpose value
    /// (`m / purpose'`).
    Bip43 {
        /// The hardened purpose value.
        purpose: HdnIdx,
    },
}

// ---------------------------------------------------------------------------
// The textual grammar

/// ASCII lowering of one character.
pub open spec fn lower_char(c: char) -> char {
    if 65 <= c as u32 && c as u32 <= 90 {
        ((c as u32 + 32) as u8) as char
    } else {
        c
    }
}

/// ASCII lowering of a string.
pub open spec fn lower_str(s: Seq<char>) -> Seq<char> {
    s.map_values(|c: char| lower_char(c))
}

/// The scheme string after case folding and after the `bip` or `m/`
/// prefix; `None` where neither prefix is present.
pub open spec fn scheme_rest(s: Seq<char>) -> Option<Seq<char>> {
    let w = lower_str(s);
    if w.len() >= 3 && w.subrange(0, 3) == "bip"@ {
        Some(w.skip(3))
    } else if w.len() >= 2 && w.subrange(0, 2) == "m/"@ {
        Some(w.skip(2))
    } else {
        None
    }
}

/// ASCII lowering of one character.
fn lower_char_exec(c: char) -> (r: char)
    ensures
        r == lower_char(c),
{
    let cv = c as u32;
    if 65 <= cv && cv <= 90 {
        ((cv + 32) as u8) as char
    } else {
        c
    }
}

/// Whether the character range of `w` starting at `at` begins with `pat`.
fn seq_starts_with(w: &Vec<char>, at: usize, pat: &str) -> (r: bool)
    requires
        at <= w@.len(),
    ensures
        r == (at + pat@.len() <= w@.len() && w@.subrange(at as int, at + pat@.len()) == pat@),
{
    let m = pat.unicode_len();
    if w.len() - at < m {
        return false;
    }
    let mut j: usize = 0;
    while j < m
        invariant
            j <= m,
            m == pat@.len(),
            at + m <= w@.len(),
            w@.len() <= usize::MAX,
            forall|k: int| 0 <= k < j ==> w@[at + k] == pat@[k],
        decreases m - j,
    {
        if w[at + j] != pat.get_char(j) {
            proof {
                assert(w@.subrange(at as int, at + pat@.len())[j as int] == w@[at + j]);
            }
            return false;
        }
        j += 1;
    }
    proof {
        assert(w@.subrange(at as int, at + pat@.len()) =~= pat@);
    }
    true
}

/// Whether the character range of `w` from `at` to the end equals `pat`.
fn seq_tail_eq(w: &Vec<char>, at: usize, pat: &str) -> (r: bool)
    requires
        at <= w@.len(),
    ensures
        r == (w@.skip(at as int) == pat@),
{
    let m = pat.unicode_len();
    if w.len() - at != m {
        proof {
            assert(w@.skip(at as int).len() != pat@.len());
        }
        return false;
    }
    let r = seq_starts_with(w, at, pat);
    proof {
        assert(w@.skip(at as int) =~= w@.subrange(at as int, at + pat@.len()));
    }
    r
}

impl Bip43 {
    /// Parses a scheme identifier: case-insensitive, with either a `bip` or
    /// an `m/` prefix, recognizing the named schemes, the two `bip48//`
    /// script types, and the generic `bip43/<purpose>h` form.
    pub fn from_str(s: &str) -> (r: Result<Bip43, ParseError>)
        ensures
            (match scheme_rest(s@) {
                Option::None => r == Err::<Bip43, ParseError>(ParseError::UnrecognizedBipScheme),
                Option::Some(rest) => {
                    if rest == "44"@ {
                        r == Ok::<Bip43, ParseError>(Bip43::Bip44)
                    } else if rest == "84"@ {
                        r == Ok::<Bip43, ParseError>(Bip43::Bip84)
                    } else if rest == "49"@ {
                        r == Ok::<Bip43, ParseError>(Bip43::Bip49)
                    } else if rest == "86"@ {
                        r == Ok::<Bip43, ParseError>(Bip43::Bip86)
                    } else if rest == "45"@ {
                        r == Ok::<Bip43, ParseError>(Bip43::Bip45)
                    } else if rest.len() >= 4 && rest.subrange(0, 4) == "48//"@ {
                        if hdn_parse_ok(rest.skip(4)) && hdn_parse_val(rest.skip(4)) == 1 {
                            r == Ok::<Bip43, ParseError>(Bip43::Bip48Nested)
                        } else if hdn_parse_ok(rest.skip(4)) && hdn_parse_val(rest.skip(4)) == 2 {
                            r == Ok::<Bip43, ParseError>(Bip43::Bip48Native)
                        } else {
                            r == Err::<Bip43, ParseError>(ParseError::InvalidBip48Scheme)
                        }
                    } else if rest == "48-nested"@ {
                        r == Ok::<Bip43, ParseError>(Bip43::Bip48Nested)
                    } else if rest == "48-native"@ {
                        r == Ok::<Bip43, ParseError>(Bip43::Bip48Native)
                    } else if rest == "87"@ {
                        r == Ok::<Bip43, ParseError>(Bip43::Bip87)
                    } else if rest.len() >= 3 && rest.subrange(0, 3) == "43/"@ {
                        if hdn_parse_ok(rest.skip(3)) {
                            r matches Ok(Bip43::Bip43 { purpose }) && purpose.value_spec()
                                == hdn_parse_val(rest.skip(3))
                        } else {
                            r matches Err(ParseError::InvalidPurposeIndex(t)) && t@ == rest.skip(3)
                        }
                    } else {
                        r == Err::<Bip43, ParseError>(ParseError::UnrecognizedBipScheme)
                    }
                },
            }),
    {
        let raw = str_to_chars(s);
        let mut w: Vec<char> = Vec::new();
        let mut i: usize = 0;
        while i < raw.len()
            invariant
                i <= raw@.len(),
                raw@ == s@,
                w@.len() == i,
                forall|k: int| 0 <= k < i ==> w@[k] == lower_char(s@[k]),
            decreases raw@.len() - i,
        {
            w.push(lower_char_exec(raw[i]));
            i += 1;
        }
        proof {
            assert(w@ =~= lower_str(s@));
        }
        proof {
            reveal_strlit("bip");
            reveal_strlit("m/");
        }
        let at: usize = if seq_starts_with(&w, 0, "bip") {
            3
        } else if seq_starts_with(&w, 0, "m/") {
            2
        } else {
            proof {
                assert(scheme_rest(s@) is None);
            }
            return Err(ParseError::UnrecognizedBipScheme);
        };
        proof {
            assert(scheme_rest(s@) == Some(w@.skip(at as int)));
        }
        let ghost rest = w@.skip(at as int);
        if seq_tail_eq(&w, at, "44") {
            return Ok(Bip43::Bip44);
        }
        if seq_tail_eq(&w, at, "84") {
            return Ok(Bip43::Bip84);
        }
        if seq_tail_eq(&w, at, "49") {
            return Ok(Bip43::Bip49);
        }
        if seq_tail_eq(&w, at, "86") {
            return Ok(Bip43::Bip86);
        }
        if seq_tail_eq(&w, at, "45") {
            return Ok(Bip43::Bip45);
        }
        if seq_starts_with(&w, at, "48//") {
            proof {
                reveal_strlit("48//");
                assert(rest.subrange(0, 4) =~= w@.subrange(at as int, at + 4));
                assert(rest.skip(4) =~= w@.subrange(at + 4, w@.len() as int));
            }
            return match hdn_from_chars(&w, at + 4, w.len()) {
                Some(h) => {
                    if h.first_index() == 1 {
                        Ok(Bip43::Bip48Nested)
                    } else if h.first_index() == 2 {
                        Ok(Bip43::Bip48Native)
                    } else {
                        Err(ParseError::InvalidBip48Scheme)
                    }
                },
                None => Err(ParseError::InvalidBip48Scheme),
            };
        }
        proof {
            reveal_strlit("48//");
            if rest.len() >= 4 {
                assert(rest.subrange(0, 4) =~= w@.subrange(at as int, at + 4));
            }
        }
        if seq_tail_eq(&w, at, "48-nested") {
            return Ok(Bip43::Bip48Nested);
        }
        if seq_tail_eq(&w, at, "48-native") {
            return Ok(Bip43::Bip48Native);
        }
        if seq_tail_eq(&w, at, "87") {
            return Ok(Bip43::Bip87);
        }
        if seq_starts_with(&w, at, "43/") {
            proof {
                reveal_strlit("43/");
                assert(rest.subrange(0, 3) =~= w@.subrange(at as int, at + 3));
                assert(rest.skip(3) =~= w@.subrange(at + 3, w@.len() as int));
            }
            return match hdn_from_chars(&w, at + 3, w.len()) {
                Some(h) => Ok(Bip43::Bip43 { purpose: h }),
                None => Err(ParseError::InvalidPurposeIndex(chars_to_string(&w, at + 3, w.len()))),
            };
        }
        proof {
            reveal_strlit("43/");
            if rest.len() >= 3 {
                assert(rest.subrange(0, 3) =~= w@.subrange(at as int, at + 3));
            }
        }
        Err(ParseError::UnrecognizedBipScheme)
    }
}

// ---------------------------------------------------------------------------
// Rendering

/// Canonical short rendering of a scheme (`bip44`, `bip48-nested`,
/// `bip43/5h`, ...).
pub open spec fn bip43_render(b: Bip43) -> Seq<char> {
    match b {
        Bip43::Bip44 => "bip44"@,
        Bip43::Bip84 => "bip84"@,
        Bip43::Bip49 => "bip49"@,
        Bip43::Bip86 => "bip86"@,
        Bip43::Bip45 => "bip45"@,
        Bip43::Bip48Nested => "bip48-nested"@,
        Bip43::Bip48Native => "bip48-native"@,
        Bip43::Bip87 => "bip87"@,
        Bip43::Bip43 { purpose } => "bip43/"@ + hdn_render(purpose),
    }
}

/// Alternate BIP-32-path rendering of a scheme (`m/44h`, `m/48h//1h`, ...).
pub open spec fn bip43_render_alt(b: Bip43) -> Seq<char> {
    match b {
        Bip43::Bip44 => "m/44h"@,
        Bip43::Bip84 => "m/84h"@,
        Bip43::Bip49 => "m/49h"@,
        Bip43::Bip86 => "m/86h"@,
        Bip43::Bip45 => "m/45h"@,
        Bip43::Bip48Nested => "m/48h//1h"@,
        Bip43::Bip48Native => "m/48h//2h"@,
        Bip43::Bip87 => "m/87h"@,
        Bip43::Bip43 { purpose } => "m/"@ + hdn_render(purpose),
    }
}

impl Bip43 {
    /// Renders the scheme in its canonical short form.
    pub fn to_string(&self) -> (r: String)
        ensures
            r@ == bip43_render(*self),
    {
        match self {
            Bip43::Bip44 => "bip44".to_owned(),
            Bip43::Bip84 => "bip84".to_owned(),
            Bip43::Bip49 => "bip49".to_owned(),
            Bip43::Bip86 => "bip86".to_owned(),
            Bip43::Bip45 => "bip45".to_owned(),
            Bip43::Bip48Nested => "bip48-nested".to_owned(),
            Bip43::Bip48Native => "bip48-native".to_owned(),
            Bip43::Bip87 => "bip87".to_owned(),
            Bip43::Bip43 { purpose } => {
                let mut t = "bip43/".to_owned();
                let p = purpose.to_string();
                t.append(p.as_str());
                t
            },
        }
    }

    /// Renders the scheme in the alternate BIP-32-path form.
    pub fn to_alt_string(&self) -> (r: String)
        ensures
            r@ == bip43_render_alt(*self),
    {
        match self {
            Bip43::Bip44 => "m/44h".to_owned(),
            Bip43::Bip84 => "m/84h".to_owned(),
            Bip43::Bip49 => "m/49h".to_owned(),
            Bip43::Bip86 => "m/86h".to_owned(),
            Bip43::Bip45 => "m/45h".to_owned(),
            Bip43::Bip48Nested => "m/48h//1h".to_owned(),
            Bip43::Bip48Native => "m/48h//2h".to_owned(),
            Bip43::Bip87 => "m/87h".to_owned(),
            Bip43::Bip43 { purpose } => {
                let mut t = "m/".to_owned();
                let p = purpose.to_string();
                t.append(p.as_str());
                t
            },
        }
    }

    /// The derivation standard for single-sig P2PKH.
    pub fn singlesig_pkh() -> (r: Bip43)
        ensures
            r == Bip43::Bip44,
    {
        Bip43::Bip44
    }

    /// The derivation standard for single-sig P2WPKH-in-P2SH.
    pub fn singlesig_nested0() -> (r: Bip43)
        ensures
            r == Bip43::Bip49,
    {
        Bip43::Bip49
    }

    /// The derivation standard for single-sig P2WPKH.
    pub fn singlesig_segwit0() -> (r: Bip43)
        ensures
            r == Bip43::Bip84,
    {
        Bip43::Bip84
    }

    /// The derivation standard for single-sig P2TR.
    pub fn singlesig_taproot() -> (r: Bip43)
        ensures
            r == Bip43::Bip86,
    {
        Bip43::Bip86
    }

    /// The derivation standard for multisig P2SH after BIP-45.
    pub fn multisig_ordered_sh() -> (r: Bip43)
        ensures
            r == Bip43::Bip45,
    {
        Bip43::Bip45
    }

    /// The derivation standard for multisig sorted P2WSH-in-P2SH.
    pub fn multisig_nested0() -> (r: Bip43)
        ensures
            r == Bip43::Bip48Nested,
    {
        Bip43::Bip48Nested
    }

    /// The derivation standard for multisig sorted P2WSH.
    pub fn multisig_segwit0() -> (r: Bip43)
        ensures
            r == Bip43::Bip48Native,
    {
        Bip43::Bip48Native
    }

    /// The derivation standard for multisig wallets after BIP-87.
    pub fn multisig_descriptor() -> (r: Bip43)
        ensures
            r == Bip43::Bip87,
    {
        Bip43::Bip87
    }
}

} // verus!
