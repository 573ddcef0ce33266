//! Extended-key value types (chain code, fingerprint, identifier), the
//! errors of the extended-key codecs and of derivation, and small byte
//! utilities shared by the codec code.

use vstd::prelude::*;

verus! {

/// Length of the binary form of an extended key.
pub const XKEY_LEN: usize = 78;

// ---------------------------------------------------------------------------
// Byte utilities

/// The bytes of `src` in the range `[from, to)`, as a fresh vector.
pub fn subvec(src: &Vec<u8>, from: usize, to: usize) -> (r: Vec<u8>)
    requires
        from <= to <= src@.len(),
    ensures
        r@ == src@.subrange(from as int, to as int),
{
    let mut r: Vec<u8> = Vec::new();
    let mut i: usize = from;
    while i < to
        invariant
            from <= i <= to <= src@.len(),
            r@ =~= src@.subrange(from as int, i as int),
        decreases to - i,
    {
        r.push(src[i]);
        proof {
            assert(src@.subrange(from as int, (i + 1) as int) =~= src@.subrange(
                from as int,
                i as int,
            ).push(src@[i as int]));
        }
        i += 1;
    }
    r
}

/// Appends the bytes of `src` in the range `[from, to)` to `dst`.
pub fn extend_from(dst: &mut Vec<u8>, src: &Vec<u8>, from: usize, to: usize)
    requires
        from <= to <= src@.len(),
    ensures
        final(dst)@ == old(dst)@ + src@.subrange(from as int, to as int),
{
    let mut i: usize = from;
    proof {
        assert(dst@ =~= dst@ + src@.subrange(from as int, from as int));
    }
    while i < to
        invariant
            from <= i <= to <= src@.len(),
            dst@ =~= old(dst)@ + src@.subrange(from as int, i as int),
        decreases to - i,
    {
        dst.push(src[i]);
        proof {
            assert(old(dst)@ + src@.subrange(from as int, (i + 1) as int) =~= (old(dst)@
                + src@.subrange(from as int, i as int)).push(src@[i as int]));
        }
        i += 1;
    }
}

/// Whether two byte vectors hold the same bytes.
pub fn bytes_eq(a: &Vec<u8>, b: &Vec<u8>) -> (r: bool)
    ensures
        r == (a@ == b@),
{
    if a.len() != b.len() {
        return false;
    }
    let n = a.len();
    let mut i: usize = 0;
    while i < n
        invariant
            i <= n,
            n == a@.len() == b@.len(),
            forall|k: int| 0 <= k < i ==> a@[k] == b@[k],
        decreases n - i,
    {
        if a[i] != b[i] {
            return false;
        }
        i += 1;
    }
    proof {
        assert(a@ =~= b@);
    }
    true
}

// ---------------------------------------------------------------------------
// Value types

/// Chain code used for extended-key hierarchical derivation: an opaque
/// 32-byte value carried verbatim.
#[derive(PartialEq, Eq, Debug)]
pub struct Chaincode {
    bytes: Vec<u8>,
}

impl Clone for Chaincode {
    fn clone(&self) -> (r: Self)
        ensures
            r.bytes_spec() == self.bytes_spec(),
    {
        proof {
            use_type_invariant(&*self);
        }
        let bytes = self.bytes.clone();
        proof {
            assert(bytes@ =~= self.bytes@);
        }
        Chaincode { bytes }
    }
}

impl Chaincode {
    #[verifier::type_invariant]
    closed spec fn inv(self) -> bool {
        self.bytes@.len() == 32
    }

    /// The 32 bytes of the chain code.
    pub closed spec fn bytes_spec(self) -> Seq<u8> {
        self.bytes@
    }

    /// Builds a chain code from exactly 32 bytes.
    pub fn from_bytes(bytes: Vec<u8>) -> (r: Option<Chaincode>)
        ensures
            bytes@.len() == 32 ==> (r matches Some(c) && c.bytes_spec() == bytes@),
            bytes@.len() != 32 ==> r is None,
    {
        if bytes.len() == 32 {
            Some(Chaincode { bytes })
        } else {
            None
        }
    }

    /// The raw bytes.
    pub fn as_bytes(&self) -> (r: &Vec<u8>)
        ensures
            r@ == self.bytes_spec(),
            r@.len() == 32,
    {
        proof {
            use_type_invariant(&*self);
        }
        &self.bytes
    }
}

/// Extended-key fingerprint: the first four bytes of the key identifier.
#[derive(PartialEq, Eq, Debug)]
pub struct Fingerprint {
    bytes: Vec<u8>,
}

impl Clone for Fingerprint {
    fn clone(&self) -> (r: Self)
        ensures
            r.bytes_spec() == self.bytes_spec(),
    {
        proof {
            use_type_invariant(&*self);
        }
        let bytes = self.bytes.clone();
        proof {
            assert(bytes@ =~= self.bytes@);
        }
        Fingerprint { bytes }
    }
}

impl Fingerprint {
    #[verifier::type_invariant]
    closed spec fn inv(self) -> bool {
        self.bytes@.len() == 4
    }

    /// The 4 bytes of the fingerprint.
    pub closed spec fn bytes_spec(self) -> Seq<u8> {
        self.bytes@
    }

    /// Builds a fingerprint from exactly 4 bytes.
    pub fn from_bytes(bytes: Vec<u8>) -> (r: Option<Fingerprint>)
        ensures
            bytes@.len() == 4 ==> (r matches Some(f) && f.bytes_spec() == bytes@),
            bytes@.len() != 4 ==> r is None,
    {
        if bytes.len() == 4 {
            Some(Fingerprint { bytes })
        } else {
            None
        }
    }

    /// The raw bytes.
    pub fn as_bytes(&self) -> (r: &Vec<u8>)
        ensures
            r@ == self.bytes_spec(),
            r@.len() == 4,
    {
        proof {
            use_type_invariant(&*self);
        }
        &self.bytes
    }
}

/// Extended-pubkey identifier: the RIPEMD-160 digest of the serialized
/// public key.
#[derive(PartialEq, Eq, Debug)]
pub struct XpubIdentifier {
    bytes: Vec<u8>,
}

impl Clone for XpubIdentifier {
    fn clone(&self) -> (r: Self)
        ensures
            r.bytes_spec() == self.bytes_spec(),
    {
        proof {
            use_type_invariant(&*self);
        }
        let bytes = self.bytes.clone();
        proof {
            assert(bytes@ =~= self.bytes@);
        }
        XpubIdentifier { bytes }
    }
}

impl XpubIdentifier {
    #[verifier::type_invariant]
    closed spec fn inv(self) -> bool {
        self.bytes@.len() == 20
    }

    /// The 20 bytes of the identifier.
    pub closed spec fn bytes_spec(self) -> Seq<u8> {
        self.bytes@
    }

    /// Builds an identifier from exactly 20 bytes.
    pub fn from_bytes(bytes: Vec<u8>) -> (r: Option<XpubIdentifier>)
        ensures
            bytes@.len() == 20 ==> (r matches Some(d) && d.bytes_spec() == bytes@),
            bytes@.len() != 20 ==> r is None,
    {
        if bytes.len() == 20 {
            Some(XpubIdentifier { bytes })
        } else {
            None
        }
    }

    /// The raw bytes.
    pub fn as_bytes(&self) -> (r: &Vec<u8>)
        ensures
            r@ == self.bytes_spec(),
            r@.len() == 20,
    {
        proof {
            use_type_invariant(&*self);
        }
        &self.bytes
    }
}

// ---------------------------------------------------------------------------
// Errors

/// Errors decoding an extended key from its binary form.
#[derive(Clone, PartialEq, Eq, Debug)]
pub enum XkeyDecodeError {
    /// The input is not exactly 78 bytes long; holds the length found.
    InvalidLen(usize),
    /// The 33-byte key field is not a valid serialized public key; holds
    /// the offending bytes.
    InvalidKey(Vec<u8>),
}

/// Errors decoding an extended key from its Base58Check string form.
#[derive(Clone, PartialEq, Eq, Debug)]
pub enum XkeyParseError {
    /// The input held a character which is not part of the Base58 format,
    /// reported with its position.
    InvalidBase58Character(char, usize),
    /// The input had an invalid length for the Base58 format.
    InvalidBase58Length,
    /// The decoded payload is not exactly 82 bytes long; holds the length
    /// found.
    InvalidLen(usize),
    /// The trailing checksum does not match the recomputed one.
    InvalidChecksum {
        /// The checksum carried by the input.
        expected: Vec<u8>,
        /// The checksum recomputed over the payload.
        actual: Vec<u8>,
    },
    /// The 78-byte payload is not a valid binary extended key.
    Decode(XkeyDecodeError),
}

/// Error: derivation is impossible, the depth of the key has reached the
/// maximum of 255.
#[derive(Clone, Copy, PartialEq, Eq, Structural, Debug)]
pub struct TooDeepDerivation;

/// Errors of the public child-key derivation step.
#[derive(Clone, Copy, PartialEq, Eq, Structural, Debug)]
pub enum XkeyDeriveError {
    /// The depth of the key has reached the maximum of 255.
    TooDeep(TooDeepDerivation),
    /// The curve tweak step failed: the tweak scalar is out of range or
    /// the tweaked point is invalid (an event of negligible probability).
    InvalidTweak,
}

} // verus!
