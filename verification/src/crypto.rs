//! The cryptographic and Base58 primitives that the extended-key logic
//! relies on, each behind a small trusted wrapper whose contract names
//! what the outside call returns.

use vstd::prelude::*;
use vstd::string::StringSliceAdditionalSpecFns;

use base58::{FromBase58, ToBase58};
use bitcoin_hashes::{ripemd160, sha256d, sha512, HashEngine, HmacEngine};
use secp256k1::{PublicKey, Scalar, XOnlyPublicKey};

verus! {

/// The 64-byte HMAC-SHA512 tag of `data` under `key`.
pub uninterp spec fn hmac_sha512_of(key: Seq<u8>, data: Seq<u8>) -> Seq<u8>;

/// Relies on bitcoin_hashes' HMAC engine over SHA-512: the 64-byte tag is
/// a function of the key and the data alone.
#[verifier::external_body]
pub(crate) fn hmac_sha512(key: &Vec<u8>, data: &Vec<u8>) -> (r: Vec<u8>)
    ensures
        r@ == hmac_sha512_of(key@, data@),
        r@.len() == 64,
{
    let mut engine: HmacEngine<sha512::HashEngine> = HmacEngine::new(key.as_slice());
    engine.input(data.as_slice());
    bitcoin_hashes::Hash::to_byte_array(engine.finalize()).to_vec()
}

/// The 20-byte RIPEMD-160 digest of `data`.
pub uninterp spec fn ripemd160_of(data: Seq<u8>) -> Seq<u8>;

/// Relies on bitcoin_hashes' RIPEMD-160: the 20-byte digest is a function
/// of the data alone.
#[verifier::external_body]
pub(crate) fn ripemd160(data: &Vec<u8>) -> (r: Vec<u8>)
    ensures
        r@ == ripemd160_of(data@),
        r@.len() == 20,
{
    bitcoin_hashes::Hash::to_byte_array(ripemd160::Hash::hash(data.as_slice())).to_vec()
}

/// The 32-byte double-SHA256 digest of `data`.
pub uninterp spec fn sha256d_of(data: Seq<u8>) -> Seq<u8>;

/// Relies on bitcoin_hashes' SHA256d: the 32-byte digest is a function of
/// the data alone.
#[verifier::external_body]
pub(crate) fn sha256d(data: &Vec<u8>) -> (r: Vec<u8>)
    ensures
        r@ == sha256d_of(data@),
        r@.len() == 32,
{
    bitcoin_hashes::Hash::to_byte_array(sha256d::Hash::hash(data.as_slice())).to_vec()
}

/// The Base58 rendering of a byte string.
pub uninterp spec fn base58_of(data: Seq<u8>) -> Seq<char>;

/// What Base58 decoding of a string yields: the byte string it encodes, or
/// nothing where the string is not well-formed Base58.
pub uninterp spec fn base58_decode_of(s: Seq<char>) -> Option<Seq<u8>>;

/// Relies on the base58 crate's `to_base58` for byte strings of at most
/// 128 bytes (the crate's supported range): the output is ASCII and
/// decodes back to the input. Its length stays within 138% of the input
/// length plus one: the crate sizes its digit buffer at 138% of the
/// non-zero tail, and each leading zero byte becomes exactly one
/// character, so both parts together stay under the same bound.
#[verifier::external_body]
pub(crate) fn to_base58(data: &Vec<u8>) -> (r: String)
    requires
        data@.len() <= 128,
    ensures
        r@ == base58_of(data@),
        base58_decode_of(r@) == Some(data@),
        r.is_ascii(),
        r@.len() <= (data@.len() * 138) / 100 + 1,
{
    data.as_slice().to_base58()
}

/// Errors of Base58 decoding.
#[derive(Clone, Copy, PartialEq, Eq, Debug)]
pub enum Base58Error {
    /// The input held a character outside the Base58 alphabet, reported
    /// with its byte position.
    InvalidCharacter(char, usize),
    /// The input had an invalid length for the Base58 format.
    InvalidLength,
}

/// Relies on the base58 crate's `from_base58`. The decode buffer of the
/// crate holds 132 bytes, and inputs of at most 132 bytes stay within it,
/// so the length bound is required here. Success and the decoded bytes are
/// a function of the input alone.
#[verifier::external_body]
pub(crate) fn from_base58(s: &str) -> (r: Result<Vec<u8>, Base58Error>)
    requires
        s.spec_bytes().len() <= 132,
    ensures
        r is Ok <==> base58_decode_of(s@) is Some,
        r matches Ok(v) ==> base58_decode_of(s@) == Some(v@),
{
    match s.from_base58() {
        Ok(v) => Ok(v),
        Err(base58::FromBase58Error::InvalidBase58Character(c, at)) => Err(
            Base58Error::InvalidCharacter(c, at),
        ),
        Err(base58::FromBase58Error::InvalidBase58Length) => Err(Base58Error::InvalidLength),
    }
}

/// Whether the bytes are a valid serialized secp256k1 public key.
pub uninterp spec fn pubkey_ok(b: Seq<u8>) -> bool;

/// Relies on secp256k1's `PublicKey::from_slice`: whether parsing the
/// bytes as a public key succeeds is a function of the bytes alone.
#[verifier::external_body]
pub(crate) fn pubkey_check(b: &Vec<u8>) -> (r: bool)
    ensures
        r == pubkey_ok(b@),
{
    PublicKey::from_slice(b.as_slice()).is_ok()
}

/// Whether the BIP-32 public tweak step succeeds: the tweak bytes parse as
/// a scalar and the tweaked point is not at infinity.
pub uninterp spec fn tweak_ok(pk: Seq<u8>, t: Seq<u8>) -> bool;

/// The serialized compressed point `pk + t*G`; meaningful when
/// [`tweak_ok`] holds.
pub uninterp spec fn tweaked_pub_of(pk: Seq<u8>, t: Seq<u8>) -> Seq<u8>;

/// Relies on secp256k1: `Scalar::from_be_bytes`, `PublicKey::from_slice`,
/// `PublicKey::add_exp_tweak` and `PublicKey::serialize`, chained into the
/// one public tweak step `pk + t*G`. Every step is deterministic in its
/// inputs; `serialize` returns the valid 33-byte compressed form of the
/// resulting point.
#[verifier::external_body]
pub(crate) fn pubkey_tweak_add(pk: &Vec<u8>, t: &Vec<u8>) -> (r: Option<Vec<u8>>)
    ensures
        r is Some <==> tweak_ok(pk@, t@),
        r matches Some(v) ==> v@ == tweaked_pub_of(pk@, t@) && v@.len() == 33 && pubkey_ok(v@),
{
    let arr: [u8; 32] = match t.as_slice().try_into() {
        Ok(a) => a,
        Err(_) => return None,
    };
    let scalar = match Scalar::from_be_bytes(arr) {
        Ok(s) => s,
        Err(_) => return None,
    };
    let key = match PublicKey::from_slice(pk.as_slice()) {
        Ok(k) => k,
        Err(_) => return None,
    };
    key.add_exp_tweak(&scalar).ok().map(|k2| k2.serialize().to_vec())
}

/// The 32-byte x-only form of a valid serialized public key.
pub uninterp spec fn xonly_of(pk: Seq<u8>) -> Seq<u8>;

/// Relies on secp256k1's `XOnlyPublicKey::from` and its `serialize`: the
/// x coordinate of the point, dropping the parity byte. The input must be
/// a valid key, which `PublicKey::from_slice` would accept.
#[verifier::external_body]
pub(crate) fn pubkey_xonly(pk: &Vec<u8>) -> (r: Vec<u8>)
    requires
        pubkey_ok(pk@),
    ensures
        r@ == xonly_of(pk@),
        r@.len() == 32,
{
    let key = PublicKey::from_slice(pk.as_slice()).expect("checked serialized key");
    XOnlyPublicKey::from(key).to_byte_array().to_vec()
}

} // verus!
