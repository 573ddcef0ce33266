//! The extended public key: its 78-byte binary layout, its Base58Check
//! string form, identifier and fingerprint computation, and the
//! public-to-public child key derivation step.

use vstd::prelude::*;
use vstd::string::StringSliceAdditionalSpecFns;

use crate::crypto::{
    base58_decode_of, base58_of, from_base58, hmac_sha512, hmac_sha512_of, pubkey_check, pubkey_ok,
    pubkey_tweak_add, pubkey_xonly, ripemd160, ripemd160_of, sha256d, sha256d_of, to_base58,
    tweak_ok, tweaked_pub_of, xonly_of, Base58Error,
};
use crate::indexes::{ChildIdx, DerivationIndex, NormIdx};
use crate::xkey::{
    extend_from, subvec, Chaincode, Fingerprint, TooDeepDerivation, XkeyDecodeError,
    XkeyDeriveError, XkeyParseError, XpubIdentifier, XKEY_LEN,
};

verus! {

/// The four version-magic bytes selecting mainnet.
pub open spec fn magic_mainnet() -> Seq<u8> {
    seq![0x04u8, 0x88u8, 0xB2u8, 0x1Eu8]
}

/// The four version-magic bytes selecting testnet.
pub open spec fn magic_testnet() -> Seq<u8> {
    seq![0x04u8, 0x35u8, 0x87u8, 0xCFu8]
}

/// The big-endian `u32` held by a four-byte string.
pub open spec fn be32(s: Seq<u8>) -> u32 {
    (s[0] * 0x0100_0000 + s[1] * 0x0001_0000 + s[2] * 0x100 + s[3]) as u32
}

/// The four big-endian bytes of a `u32`.
pub open spec fn be32_bytes(v: u32) -> Seq<u8> {
    seq![
        (v / 0x0100_0000) as u8,
        ((v / 0x0001_0000) % 0x100) as u8,
        ((v / 0x100) % 0x100) as u8,
        (v % 0x100) as u8,
    ]
}

/// Extended public key, kept in its 78-byte binary form: version magic,
/// depth, parent fingerprint, child number, chain code and the serialized
/// compressed public key, at their fixed offsets.
#[derive(PartialEq, Eq, PartialOrd, Ord, Hash, Debug)]
pub struct Xpub {
    bytes: Vec<u8>,
}

impl View for Xpub {
    type V = Seq<u8>;

    closed spec fn view(&self) -> Seq<u8> {
        self.bytes@
    }
}

impl Clone for Xpub {
    fn clone(&self) -> (r: Self)
        ensures
            r@ == self@,
    {
        proof {
            use_type_invariant(&*self);
        }
        let bytes = self.bytes.clone();
        proof {
            assert(bytes@ =~= self.bytes@);
        }
        Xpub { bytes }
    }
}

impl Xpub {
    /// Well-formedness: 78 bytes whose key field is a valid serialized
    /// public key.
    pub open spec fn wf(self) -> bool {
        self@.len() == 78 && pubkey_ok(self@.subrange(45, 78))
    }

    #[verifier::type_invariant]
    closed spec fn inv(self) -> bool {
        self.wf()
    }

    /// The depth field: how many derivations from the master key (0).
    pub open spec fn depth_spec(self) -> u8 {
        self@[4]
    }

    /// Whether the version magic is the testnet one.
    pub open spec fn is_testnet_spec(self) -> bool {
        self@.subrange(0, 4) == magic_testnet()
    }

    /// Decodes an extended public key from its 78-byte binary form,
    /// rejecting any other length and any invalid embedded public key.
    pub fn decode_binary(binary: &[u8]) -> (r: Result<Xpub, XkeyDecodeError>)
        ensures
            binary@.len() != 78 ==> (r matches Err(XkeyDecodeError::InvalidLen(n)) && n
                == binary@.len()),
            binary@.len() == 78 && !pubkey_ok(binary@.subrange(45, 78)) ==> (r matches Err(
                XkeyDecodeError::InvalidKey(k),
            ) && k@ == binary@.subrange(45, 78)),
            binary@.len() == 78 && pubkey_ok(binary@.subrange(45, 78)) ==> (r matches Ok(x) && x@
                == binary@),
    {
        if binary.len() != XKEY_LEN {
            return Err(XkeyDecodeError::InvalidLen(binary.len()));
        }
        let all = vstd::slice::slice_to_vec(binary);
        let key = subvec(&all, 45, 78);
        if !pubkey_check(&key) {
            return Err(XkeyDecodeError::InvalidKey(key));
        }
        Ok(Xpub { bytes: all })
    }

    /// The 78-byte binary encoding: the key's bytes, unchanged.
    pub fn encode_binary(&self) -> (r: Vec<u8>)
        ensures
            r@ == self@,
            r@.len() == 78,
    {
        proof {
            use_type_invariant(&*self);
        }
        let r = self.bytes.clone();
        proof {
            assert(r@ =~= self.bytes@);
        }
        r
    }

    /// Whether the key carries the testnet version magic.
    pub fn is_testnet(&self) -> (r: bool)
        ensures
            r == self.is_testnet_spec(),
    {
        proof {
            use_type_invariant(&*self);
        }
        let r = self.bytes[0] == 0x04 && self.bytes[1] == 0x35 && self.bytes[2] == 0x87
            && self.bytes[3] == 0xCF;
        proof {
            assert(self@.subrange(0, 4)[0] == self@[0]);
            assert(self@.subrange(0, 4)[1] == self@[1]);
            assert(self@.subrange(0, 4)[2] == self@[2]);
            assert(self@.subrange(0, 4)[3] == self@[3]);
            if r {
                assert(self@.subrange(0, 4) =~= magic_testnet());
            }
        }
        r
    }

    /// Whether the key does not carry the testnet version magic.
    pub fn is_mainnet(&self) -> (r: bool)
        ensures
            r == !self.is_testnet_spec(),
    {
        !self.is_testnet()
    }

    /// The depth field; 0 for a master key.
    pub fn depth(&self) -> (r: u8)
        ensures
            r == self.depth_spec(),
    {
        proof {
            use_type_invariant(&*self);
        }
        self.bytes[4]
    }

    /// The fingerprint of the parent key; zero bytes where not known.
    pub fn parent_fingerprint(&self) -> (r: Fingerprint)
        ensures
            r.bytes_spec() == self@.subrange(5, 9),
    {
        proof {
            use_type_invariant(&*self);
        }
        Fingerprint::from_bytes(subvec(&self.bytes, 5, 9)).unwrap()
    }

    /// The child number this key was derived with; zero for a master key.
    pub fn child_number(&self) -> (r: ChildIdx)
        ensures
            r.wf(),
            r.raw_spec() == be32(self@.subrange(9, 13)),
    {
        proof {
            use_type_invariant(&*self);
        }
        let raw = (self.bytes[9] as u32) * 0x0100_0000 + (self.bytes[10] as u32) * 0x0001_0000 + (
        self.bytes[11] as u32) * 0x100 + (self.bytes[12] as u32);
        proof {
            assert(self@.subrange(9, 13)[0] == self@[9]);
            assert(self@.subrange(9, 13)[1] == self@[10]);
            assert(self@.subrange(9, 13)[2] == self@[11]);
            assert(self@.subrange(9, 13)[3] == self@[12]);
        }
        match ChildIdx::from_raw_value(raw) {
            Ok(c) => c,
            Err(_) => {
                proof {
                    assert(false);
                }
                ChildIdx::zero()
            },
        }
    }

    /// The chain code field.
    pub fn chain_code(&self) -> (r: Chaincode)
        ensures
            r.bytes_spec() == self@.subrange(13, 45),
    {
        proof {
            use_type_invariant(&*self);
        }
        Chaincode::from_bytes(subvec(&self.bytes, 13, 45)).unwrap()
    }

    /// The serialized compressed public key field (33 bytes).
    pub fn public_key(&self) -> (r: Vec<u8>)
        ensures
            r@ == self@.subrange(45, 78),
            pubkey_ok(r@),
    {
        proof {
            use_type_invariant(&*self);
        }
        subvec(&self.bytes, 45, 78)
    }

    /// The x-only form of the public key, for BIP-340 signature and
    /// Taproot use (32 bytes).
    pub fn into_x_only_pk(self) -> (r: Vec<u8>)
        ensures
            r@ == xonly_of(self@.subrange(45, 78)),
            r@.len() == 32,
    {
        proof {
            use_type_invariant(&self);
        }
        let key = subvec(&self.bytes, 45, 78);
        pubkey_xonly(&key)
    }

    /// The key identifier: the RIPEMD-160 digest of the serialized public
    /// key.
    pub fn identifier(&self) -> (r: XpubIdentifier)
        ensures
            r.bytes_spec() == ripemd160_of(self@.subrange(45, 78)),
    {
        proof {
            use_type_invariant(&*self);
        }
        let key = subvec(&self.bytes, 45, 78);
        XpubIdentifier::from_bytes(ripemd160(&key)).unwrap()
    }

    /// The fingerprint: the first four bytes of the key identifier. It
    /// depends on the public key bytes alone.
    pub fn fingerprint(&self) -> (r: Fingerprint)
        ensures
            r.bytes_spec() == ripemd160_of(self@.subrange(45, 78)).subrange(0, 4),
    {
        proof {
            use_type_invariant(&*self);
        }
        let key = subvec(&self.bytes, 45, 78);
        let digest = ripemd160(&key);
        Fingerprint::from_bytes(subvec(&digest, 0, 4)).unwrap()
    }
}

/// Binary round trip: a 78-byte buffer with a valid embedded public key
/// decodes (by the contract of `decode_binary`) to a well-formed key whose
/// view is the buffer, and `encode_binary` returns that view unchanged, so
/// decoding followed by encoding yields the original buffer.
pub proof fn lemma_binary_round_trip(buf: Seq<u8>, x: Xpub)
    requires
        buf.len() == 78,
        pubkey_ok(buf.subrange(45, 78)),
        x@ == buf,
    ensures
        x.wf(),
{
}

/// The fingerprint depends on the public key bytes alone: two keys that
/// share the key field — whatever their chain codes, depths, parent
/// fingerprints or child numbers — have the same identifier digest, and so
/// the same fingerprint.
pub proof fn lemma_fingerprint_determined(a: Xpub, b: Xpub)
    requires
        a@.len() == 78,
        b@.len() == 78,
        a@.subrange(45, 78) == b@.subrange(45, 78),
    ensures
        ripemd160_of(a@.subrange(45, 78)) == ripemd160_of(b@.subrange(45, 78)),
        ripemd160_of(a@.subrange(45, 78)).subrange(0, 4) == ripemd160_of(
            b@.subrange(45, 78),
        ).subrange(0, 4),
{
}

} // verus!

verus! {

// ---------------------------------------------------------------------------
// Public-to-public child key derivation

/// The HMAC input of the CKD step: the serialized parent public key
/// followed by the big-endian raw child number.
pub open spec fn ckd_payload(x: Seq<u8>, raw: u32) -> Seq<u8> {
    x.subrange(45, 78) + be32_bytes(raw)
}

/// The 64-byte HMAC-SHA512 tag of the CKD step, keyed by the parent chain
/// code.
pub open spec fn ckd_i(x: Seq<u8>, raw: u32) -> Seq<u8> {
    hmac_sha512_of(x.subrange(13, 45), ckd_payload(x, raw))
}

/// The 78 bytes of the derived child key: the parent's version magic, the
/// parent depth plus one, the parent fingerprint, the big-endian child
/// number, the right half of the HMAC tag as the chain code, and the
/// tweaked public key.
pub open spec fn ckd_child_bytes(x: Seq<u8>, raw: u32) -> Seq<u8> {
    x.subrange(0, 4) + seq![((x[4] + 1) as u8)] + ripemd160_of(x.subrange(45, 78)).subrange(0, 4)
        + be32_bytes(raw) + ckd_i(x, raw).subrange(32, 64) + tweaked_pub_of(
        x.subrange(45, 78),
        ckd_i(x, raw).subrange(0, 32),
    )
}

/// What one CKD step yields on the binary form `x` for the child number
/// `child`: the depth-exhausted error at depth 255, the child bytes where
/// the curve tweak succeeds, and the tweak error otherwise.
pub open spec fn ckd_spec(x: Seq<u8>, child: NormIdx) -> Result<Seq<u8>, XkeyDeriveError> {
    if x[4] == 255 {
        Err(XkeyDeriveError::TooDeep(TooDeepDerivation))
    } else if tweak_ok(x.subrange(45, 78), ckd_i(x, child.raw_spec()).subrange(0, 32)) {
        Ok(ckd_child_bytes(x, child.raw_spec()))
    } else {
        Err(XkeyDeriveError::InvalidTweak)
    }
}

/// What deriving along a whole path yields: the keys produced by the CKD
/// steps in order, short-circuiting on the first failure.
pub open spec fn derive_spec(x: Seq<u8>, path: Seq<NormIdx>) -> Result<Seq<u8>, XkeyDeriveError>
    decreases path.len(),
{
    if path.len() == 0 {
        Ok(x)
    } else {
        match ckd_spec(x, path[0]) {
            Ok(y) => derive_spec(y, path.skip(1)),
            Err(e) => Err(e),
        }
    }
}

impl Xpub {
    /// Public-to-public child key derivation: one CKD step for a normal
    /// (unhardened) child number. Fails with the depth-exhausted error at
    /// depth 255, never wrapping, and with the tweak error on the
    /// negligible-probability curve failures.
    pub fn ckd_pub(&self, index: NormIdx) -> (r: Result<Xpub, XkeyDeriveError>)
        ensures
            (match ckd_spec(self@, index) {
                Ok(b) => r matches Ok(x) && x@ == b && x.wf(),
                Err(e) => r == Err::<Xpub, XkeyDeriveError>(e),
            }),
            self.depth_spec() == 255 <==> r == Err::<Xpub, XkeyDeriveError>(
                XkeyDeriveError::TooDeep(TooDeepDerivation),
            ),
            r matches Ok(x) ==> x.depth_spec() == self.depth_spec() + 1 && x.is_testnet_spec()
                == self.is_testnet_spec(),
    {
        proof {
            use_type_invariant(&*self);
        }
        let depth = self.bytes[4];
        if depth == 255 {
            return Err(XkeyDeriveError::TooDeep(TooDeepDerivation));
        }
        let key33 = subvec(&self.bytes, 45, 78);
        let raw = index.first_raw_value();
        let mut data = subvec(&self.bytes, 45, 78);
        data.push((raw / 0x0100_0000) as u8);
        data.push(((raw / 0x0001_0000) % 0x100) as u8);
        data.push(((raw / 0x100) % 0x100) as u8);
        data.push((raw % 0x100) as u8);
        proof {
            assert(data@ =~= ckd_payload(self@, raw));
        }
        let cc = subvec(&self.bytes, 13, 45);
        let tag = hmac_sha512(&cc, &data);
        let il = subvec(&tag, 0, 32);
        let ir = subvec(&tag, 32, 64);
        match pubkey_tweak_add(&key33, &il) {
            None => Err(XkeyDeriveError::InvalidTweak),
            Some(child_key) => {
                let mut out = subvec(&self.bytes, 0, 4);
                out.push(depth + 1);
                let digest = ripemd160(&key33);
                extend_from(&mut out, &digest, 0, 4);
                out.push((raw / 0x0100_0000) as u8);
                out.push(((raw / 0x0001_0000) % 0x100) as u8);
                out.push(((raw / 0x100) % 0x100) as u8);
                out.push((raw % 0x100) as u8);
                extend_from(&mut out, &ir, 0, 32);
                extend_from(&mut out, &child_key, 0, 33);
                proof {
                    assert(ir@ == ckd_i(self@, raw).subrange(32, 64));
                    assert(il@ == ckd_i(self@, raw).subrange(0, 32));
                    assert(out@ =~= ckd_child_bytes(self@, raw));
                    assert(out@.subrange(45, 78) =~= child_key@);
                    assert(out@.subrange(0, 4) =~= self@.subrange(0, 4));
                }
                Ok(Xpub { bytes: out })
            },
        }
    }

    /// Applies `ckd_pub` over the path in order, returning the fully
    /// derived key or the first failure, with no partial result.
    pub fn derive(&self, path: &Vec<NormIdx>) -> (r: Result<Xpub, XkeyDeriveError>)
        ensures
            (match derive_spec(self@, path@) {
                Ok(b) => r matches Ok(x) && x@ == b && x.wf(),
                Err(e) => r == Err::<Xpub, XkeyDeriveError>(e),
            }),
    {
        let mut cur = self.clone();
        let mut i: usize = 0;
        proof {
            assert(path@.skip(0) =~= path@);
        }
        while i < path.len()
            invariant
                i <= path@.len(),
                derive_spec(self@, path@) == derive_spec(cur@, path@.skip(i as int)),
            decreases path@.len() - i,
        {
            proof {
                assert(path@.skip(i as int)[0] == path@[i as int]);
                assert(path@.skip(i as int).skip(1) =~= path@.skip(i + 1));
            }
            match cur.ckd_pub(path[i]) {
                Ok(next) => {
                    cur = next;
                },
                Err(e) => {
                    return Err(e);
                },
            }
            i += 1;
        }
        proof {
            use_type_invariant(&cur);
            assert(path@.skip(path@.len() as int) =~= Seq::<NormIdx>::empty());
        }
        Ok(cur)
    }
}

/// Depth boundary: at depth 255 a derivation step fails with the
/// depth-exhausted error, for every child number, and the depth never
/// wraps; below 255 depth exhaustion cannot occur — where the curve tweak
/// succeeds the child sits exactly one level deeper, and otherwise the
/// step reports the tweak error.
pub proof fn lemma_depth_boundary(x: Seq<u8>, child: NormIdx)
    requires
        x.len() == 78,
    ensures
        x[4] == 255 ==> ckd_spec(x, child) == Err::<Seq<u8>, XkeyDeriveError>(
            XkeyDeriveError::TooDeep(TooDeepDerivation),
        ),
        (x[4] < 255 && tweak_ok(
            x.subrange(45, 78),
            ckd_i(x, child.raw_spec()).subrange(0, 32),
        )) ==> (ckd_spec(x, child) matches Ok(b) && b[4] == x[4] + 1),
        (x[4] < 255 && !tweak_ok(
            x.subrange(45, 78),
            ckd_i(x, child.raw_spec()).subrange(0, 32),
        )) ==> ckd_spec(x, child) == Err::<Seq<u8>, XkeyDeriveError>(
            XkeyDeriveError::InvalidTweak,
        ),
{
    if x[4] < 255 && tweak_ok(x.subrange(45, 78), ckd_i(x, child.raw_spec()).subrange(0, 32)) {
        let b = ckd_child_bytes(x, child.raw_spec());
        assert((x.subrange(0, 4) + seq![((x[4] + 1) as u8)])[4] == ((x[4] + 1) as u8));
        assert(b[4] == ((x[4] + 1) as u8));
    }
}

} // verus!

verus! {

// ---------------------------------------------------------------------------
// Base58Check string form

/// The Base58Check payload of an extended key: its 78 bytes followed by
/// the first four bytes of their double-SHA256 digest.
pub open spec fn xpub_checked_payload(x: Seq<u8>) -> Seq<u8> {
    x + sha256d_of(x).subrange(0, 4)
}

impl Xpub {
    /// Renders the key in Base58Check: the 82-byte checked payload,
    /// Base58-encoded.
    pub fn to_string(&self) -> (r: String)
        ensures
            r@ == base58_of(xpub_checked_payload(self@)),
            base58_decode_of(r@) == Some(xpub_checked_payload(self@)),
            r.is_ascii(),
            r@.len() <= 114,
            sha256d_of(self@).len() == 32,
    {
        proof {
            use_type_invariant(&*self);
        }
        let mut data = self.encode_binary();
        let digest = sha256d(&data);
        extend_from(&mut data, &digest, 0, 4);
        proof {
            assert(data@ =~= xpub_checked_payload(self@));
        }
        to_base58(&data)
    }

    /// Parses a key from its Base58Check form: Base58-decode, check that
    /// exactly 82 bytes came out, compare the trailing four bytes against
    /// the recomputed double-SHA256 checksum of the first 78, and decode
    /// those. Inputs longer than 132 bytes cannot decode to 82 bytes and
    /// are rejected as Base58 of invalid length without decoding.
    pub fn from_str(s: &str) -> (r: Result<Xpub, XkeyParseError>)
        ensures
            s.spec_bytes().len() > 132 ==> r == Err::<Xpub, XkeyParseError>(
                XkeyParseError::InvalidBase58Length,
            ),
            s.spec_bytes().len() <= 132 ==> (match base58_decode_of(s@) {
                Option::None => r matches Err(e) && (e matches XkeyParseError::InvalidBase58Character(
                    _,
                    _,
                ) || e matches XkeyParseError::InvalidBase58Length),
                Option::Some(d) => {
                    if d.len() != 82 {
                        r matches Err(XkeyParseError::InvalidLen(n)) && n == d.len()
                    } else if d.subrange(78, 82) != sha256d_of(d.subrange(0, 78)).subrange(0, 4) {
                        r matches Err(XkeyParseError::InvalidChecksum { expected, actual })
                            && expected@ == d.subrange(78, 82) && actual@ == sha256d_of(
                            d.subrange(0, 78),
                        ).subrange(0, 4)
                    } else if !pubkey_ok(d.subrange(45, 78)) {
                        r matches Err(XkeyParseError::Decode(XkeyDecodeError::InvalidKey(k))) && k@
                            == d.subrange(45, 78)
                    } else {
                        r matches Ok(x) && x@ == d.subrange(0, 78) && x.wf()
                    }
                },
            }),
    {
        let byte_len = s.as_bytes().len();
        if byte_len > 132 {
            return Err(XkeyParseError::InvalidBase58Length);
        }
        let data = match from_base58(s) {
            Ok(d) => d,
            Err(Base58Error::InvalidCharacter(c, at)) => {
                return Err(XkeyParseError::InvalidBase58Character(c, at));
            },
            Err(Base58Error::InvalidLength) => {
                return Err(XkeyParseError::InvalidBase58Length);
            },
        };
        if data.len() != 82 {
            return Err(XkeyParseError::InvalidLen(data.len()));
        }
        let payload = subvec(&data, 0, 78);
        let expected = subvec(&data, 78, 82);
        let digest = sha256d(&payload);
        let actual = subvec(&digest, 0, 4);
        if !crate::xkey::bytes_eq(&actual, &expected) {
            return Err(XkeyParseError::InvalidChecksum { expected, actual });
        }
        proof {
            assert(payload@.subrange(45, 78) =~= data@.subrange(45, 78));
        }
        match Xpub::decode_binary(payload.as_slice()) {
            Ok(x) => {
                proof {
                    use_type_invariant(&x);
                }
                Ok(x)
            },
            Err(e) => Err(XkeyParseError::Decode(e)),
        }
    }
}

/// Base58Check round trip: the checked payload of a well-formed extended
/// key passes every test that string parsing performs — it is exactly 82
/// bytes, its trailing four bytes equal the checksum recomputed over its
/// leading 78, and those 78 bytes hold the original valid key. By the
/// contracts of `to_string` and `from_str`, parsing the rendering of any
/// extended key returns that key.
pub proof fn lemma_base58check_round_trip(x: Xpub, digest: Seq<u8>)
    requires
        x.wf(),
        digest == sha256d_of(x@),
        digest.len() == 32,
    ensures
        ({
            let d = xpub_checked_payload(x@);
            &&& d.len() == 82
            &&& d.subrange(0, 78) == x@
            &&& d.subrange(78, 82) == sha256d_of(d.subrange(0, 78)).subrange(0, 4)
            &&& pubkey_ok(d.subrange(45, 78))
        }),
{
    let d = xpub_checked_payload(x@);
    assert(d.subrange(0, 78) =~= x@);
    assert(d.subrange(78, 82) =~= digest.subrange(0, 4));
    assert(d.subrange(45, 78) =~= x@.subrange(45, 78));
}

} // verus!
