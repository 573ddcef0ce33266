//! Raw BIP-174 key-value pairs in their byte form: the compact-size
//! integer codec, keys, key-value pairs, and proprietary keys.

use vstd::prelude::*;

use crate::xkey::{extend_from, subvec};

verus! {

/// Largest byte string a decoder will allocate for one field.
pub const MAX_VEC_SIZE: usize = 4_000_000;

/// Errors of the raw pair decoders.
#[derive(Clone, Copy, PartialEq, Eq, Structural, Debug)]
pub enum DecodeError {
    /// The input ended before the field did.
    UnexpectedEnd,
    /// A compact-size integer used more bytes than its value needs.
    NonMinimal,
    /// A length field asks for more than [`MAX_VEC_SIZE`] bytes.
    Oversized,
    /// A zero key length: the separator closing a key-value map.
    NoMorePairs,
    /// The key is not a proprietary key.
    InvalidProprietaryKey,
    /// The input does not begin with the PSBT magic bytes.
    NoMagic,
}

// ---------------------------------------------------------------------------
// Compact-size integers

/// The little-endian bytes of the low 16 bits of `v`.
pub open spec fn le16_bytes(v: u64) -> Seq<u8> {
    seq![(v % 0x100) as u8, ((v / 0x100) % 0x100) as u8]
}

/// The little-endian bytes of the low 32 bits of `v`.
pub open spec fn le32_bytes(v: u64) -> Seq<u8> {
    seq![
        (v % 0x100) as u8,
        ((v / 0x100) % 0x100) as u8,
        ((v / 0x1_0000) % 0x100) as u8,
        ((v / 0x100_0000) % 0x100) as u8,
    ]
}

/// The little-endian bytes of `v`.
pub open spec fn le64_bytes(v: u64) -> Seq<u8> {
    le32_bytes(v) + seq![
        ((v / 0x1_0000_0000) % 0x100) as u8,
        ((v / 0x100_0000_0000) % 0x100) as u8,
        ((v / 0x1_0000_0000_0000) % 0x100) as u8,
        ((v / 0x100_0000_0000_0000) % 0x100) as u8,
    ]
}

/// The minimal compact-size encoding of `n`.
pub open spec fn varint_bytes(n: u64) -> Seq<u8> {
    if n < 0xFD {
        seq![n as u8]
    } else if n <= 0xFFFF {
        seq![0xFDu8] + le16_bytes(n)
    } else if n <= 0xFFFF_FFFF {
        seq![0xFEu8] + le32_bytes(n)
    } else {
        seq![0xFFu8] + le64_bytes(n)
    }
}

/// What parsing a compact-size integer at position `at` of `s` yields: the
/// value and the position after it, or the reason it cannot be read.
/// Non-minimal encodings are rejected, as bitcoin consensus decoding does.
pub open spec fn varint_parse(s: Seq<u8>, at: int) -> Result<(u64, int), DecodeError> {
    if at >= s.len() {
        Err(DecodeError::UnexpectedEnd)
    } else {
        let b = s[at];
        if b < 0xFD {
            Ok((b as u64, at + 1))
        } else if b == 0xFD {
            if at + 3 > s.len() {
                Err(DecodeError::UnexpectedEnd)
            } else {
                let v = (s[at + 1] + s[at + 2] * 0x100) as u64;
                if v < 0xFD {
                    Err(DecodeError::NonMinimal)
                } else {
                    Ok((v, at + 3))
                }
            }
        } else if b == 0xFE {
            if at + 5 > s.len() {
                Err(DecodeError::UnexpectedEnd)
            } else {
                let v = (s[at + 1] + s[at + 2] * 0x100 + s[at + 3] * 0x1_0000 + s[at + 4]
                    * 0x100_0000) as u64;
                if v <= 0xFFFF {
                    Err(DecodeError::NonMinimal)
                } else {
                    Ok((v, at + 5))
                }
            }
        } else {
            if at + 9 > s.len() {
                Err(DecodeError::UnexpectedEnd)
            } else {
                let v = (s[at + 1] + s[at + 2] * 0x100 + s[at + 3] * 0x1_0000 + s[at + 4]
                    * 0x100_0000 + s[at + 5] * 0x1_0000_0000 + s[at + 6] * 0x100_0000_0000 + s[at
                    + 7] * 0x1_0000_0000_0000 + s[at + 8] * 0x100_0000_0000_0000) as u64;
                if v <= 0xFFFF_FFFF {
                    Err(DecodeError::NonMinimal)
                } else {
                    Ok((v, at + 9))
                }
            }
        }
    }
}

/// Appends the minimal compact-size encoding of `n` to `buf`.
pub fn write_varint(buf: &mut Vec<u8>, n: u64)
    ensures
        final(buf)@ == old(buf)@ + varint_bytes(n),
{
    if n < 0xFD {
        buf.push(n as u8);
        proof {
            assert(buf@ =~= old(buf)@ + varint_bytes(n));
        }
    } else if n <= 0xFFFF {
        buf.push(0xFD);
        buf.push((n % 0x100) as u8);
        buf.push(((n / 0x100) % 0x100) as u8);
        proof {
            assert(buf@ =~= old(buf)@ + varint_bytes(n));
        }
    } else if n <= 0xFFFF_FFFF {
        buf.push(0xFE);
        buf.push((n % 0x100) as u8);
        buf.push(((n / 0x100) % 0x100) as u8);
        buf.push(((n / 0x1_0000) % 0x100) as u8);
        buf.push(((n / 0x100_0000) % 0x100) as u8);
        proof {
            assert(buf@ =~= old(buf)@ + varint_bytes(n));
        }
    } else {
        buf.push(0xFF);
        buf.push((n % 0x100) as u8);
        buf.push(((n / 0x100) % 0x100) as u8);
        buf.push(((n / 0x1_0000) % 0x100) as u8);
        buf.push(((n / 0x100_0000) % 0x100) as u8);
        buf.push(((n / 0x1_0000_0000) % 0x100) as u8);
        buf.push(((n / 0x100_0000_0000) % 0x100) as u8);
        buf.push(((n / 0x1_0000_0000_0000) % 0x100) as u8);
        buf.push(((n / 0x100_0000_0000_0000) % 0x100) as u8);
        proof {
            assert(buf@ =~= old(buf)@ + varint_bytes(n));
        }
    }
}

/// Reads a compact-size integer at position `at` of `d`.
pub fn read_varint(d: &Vec<u8>, at: usize) -> (r: Result<(u64, usize), DecodeError>)
    requires
        at <= d@.len(),
    ensures
        (match varint_parse(d@, at as int) {
            Ok((v, at2)) => r matches Ok((rv, rat)) && rv == v && rat == at2 && at < rat <= d@.len(),
            Err(e) => r == Err::<(u64, usize), DecodeError>(e),
        }),
{
    if at >= d.len() {
        return Err(DecodeError::UnexpectedEnd);
    }
    let b = d[at];
    if b < 0xFD {
        Ok((b as u64, at + 1))
    } else if b == 0xFD {
        if d.len() - at < 3 {
            return Err(DecodeError::UnexpectedEnd);
        }
        let v = (d[at + 1] as u64) + (d[at + 2] as u64) * 0x100;
        if v < 0xFD {
            Err(DecodeError::NonMinimal)
        } else {
            Ok((v, at + 3))
        }
    } else if b == 0xFE {
        if d.len() - at < 5 {
            return Err(DecodeError::UnexpectedEnd);
        }
        let v = (d[at + 1] as u64) + (d[at + 2] as u64) * 0x100 + (d[at + 3] as u64) * 0x1_0000 + (
        d[at + 4] as u64) * 0x100_0000;
        if v <= 0xFFFF {
            Err(DecodeError::NonMinimal)
        } else {
            Ok((v, at + 5))
        }
    } else {
        if d.len() - at < 9 {
            return Err(DecodeError::UnexpectedEnd);
        }
        let v = (d[at + 1] as u64) + (d[at + 2] as u64) * 0x100 + (d[at + 3] as u64) * 0x1_0000 + (
        d[at + 4] as u64) * 0x100_0000 + (d[at + 5] as u64) * 0x1_0000_0000 + (d[at + 6] as u64)
            * 0x100_0000_0000 + (d[at + 7] as u64) * 0x1_0000_0000_0000 + (d[at + 8] as u64)
            * 0x100_0000_0000_0000;
        if v <= 0xFFFF_FFFF {
            Err(DecodeError::NonMinimal)
        } else {
            Ok((v, at + 9))
        }
    }
}

} // verus!

verus! {

// ---------------------------------------------------------------------------
// Keys and key-value pairs

/// A PSBT key in its raw byte form.
#[derive(PartialEq, Eq, PartialOrd, Ord, Hash, Debug, Clone)]
pub struct Key {
    /// The type of this PSBT key.
    pub type_value: u8,
    /// The key itself in raw byte form.
    pub key: Vec<u8>,
}

/// A PSBT key-value pair in its raw byte form.
#[derive(PartialEq, Eq, Debug, Clone)]
pub struct Pair {
    /// The key of this key-value pair.
    pub key: Key,
    /// The value of this key-value pair in raw byte form.
    pub value: Vec<u8>,
}

/// The default subtype marker of proprietary keys.
#[derive(Clone, Copy, PartialEq, Eq, Structural, Debug)]
pub struct ProprietaryType;

/// A proprietary PSBT key: a vendor prefix, a subtype and the key data,
/// carried under the reserved key type `0xFC`.
#[derive(PartialEq, Eq, PartialOrd, Ord, Hash, Debug, Clone)]
pub struct ProprietaryKey {
    /// The vendor prefix identifying the key space.
    pub prefix: Vec<u8>,
    /// The vendor-specific key subtype.
    pub subtype: u8,
    /// The key data.
    pub key: Vec<u8>,
}

/// The encoding of a key: the length of the type byte plus key data, the
/// type byte, the key data.
pub open spec fn key_bytes(type_value: u8, key: Seq<u8>) -> Seq<u8> {
    varint_bytes((key.len() + 1) as u64) + seq![type_value] + key
}

/// The encoding of a key-value pair: the key, then the length-prefixed
/// value.
pub open spec fn pair_bytes(type_value: u8, key: Seq<u8>, value: Seq<u8>) -> Seq<u8> {
    key_bytes(type_value, key) + varint_bytes(value.len() as u64) + value
}

/// What parsing a key at position `at` of `s` yields: the type byte, the
/// key data and the position after them. A zero length is the map
/// separator, reported as [`DecodeError::NoMorePairs`].
pub open spec fn key_parse(s: Seq<u8>, at: int) -> Result<(u8, Seq<u8>, int), DecodeError> {
    match varint_parse(s, at) {
        Ok((size, at2)) => {
            if size == 0 {
                Err(DecodeError::NoMorePairs)
            } else if size - 1 > MAX_VEC_SIZE {
                Err(DecodeError::Oversized)
            } else if at2 + size > s.len() {
                Err(DecodeError::UnexpectedEnd)
            } else {
                Ok((s[at2], s.subrange(at2 + 1, at2 + size), at2 + size))
            }
        },
        Err(e) => Err(e),
    }
}

/// What parsing a key-value pair at position `at` of `s` yields.
pub open spec fn pair_parse(s: Seq<u8>, at: int) -> Result<(u8, Seq<u8>, Seq<u8>, int), DecodeError> {
    match key_parse(s, at) {
        Ok((tv, kd, at2)) => match varint_parse(s, at2) {
            Ok((vlen, at3)) => {
                if vlen > MAX_VEC_SIZE {
                    Err(DecodeError::Oversized)
                } else if at3 + vlen > s.len() {
                    Err(DecodeError::UnexpectedEnd)
                } else {
                    Ok((tv, kd, s.subrange(at3, at3 + vlen), at3 + vlen))
                }
            },
            Err(e) => Err(e),
        },
        Err(e) => Err(e),
    }
}

impl Key {
    /// Appends the encoding of the key to `buf`.
    pub fn encode(&self, buf: &mut Vec<u8>)
        requires
            self.key@.len() <= MAX_VEC_SIZE,
        ensures
            final(buf)@ == old(buf)@ + key_bytes(self.type_value, self.key@),
    {
        write_varint(buf, (self.key.len() as u64) + 1);
        buf.push(self.type_value);
        extend_from(buf, &self.key, 0, self.key.len());
        proof {
            assert(self.key@.subrange(0, self.key@.len() as int) =~= self.key@);
            assert(buf@ =~= old(buf)@ + key_bytes(self.type_value, self.key@));
        }
    }

    /// Parses a key at position `at` of `d`.
    pub fn decode(d: &Vec<u8>, at: usize) -> (r: Result<(Key, usize), DecodeError>)
        requires
            at <= d@.len(),
        ensures
            (match key_parse(d@, at as int) {
                Ok((tv, kd, at2)) => r matches Ok((k, rat)) && k.type_value == tv && k.key@ == kd
                    && rat == at2 && at < rat <= d@.len(),
                Err(e) => r == Err::<(Key, usize), DecodeError>(e),
            }),
    {
        let (size, at1) = match read_varint(d, at) {
            Ok(x) => x,
            Err(e) => {
                return Err(e);
            },
        };
        if size == 0 {
            return Err(DecodeError::NoMorePairs);
        }
        if size - 1 > MAX_VEC_SIZE as u64 {
            return Err(DecodeError::Oversized);
        }
        let key_size = (size - 1) as usize;
        if d.len() - at1 < key_size + 1 {
            return Err(DecodeError::UnexpectedEnd);
        }
        let tv = d[at1];
        let kd = subvec(d, at1 + 1, at1 + 1 + key_size);
        Ok((Key { type_value: tv, key: kd }, at1 + 1 + key_size))
    }
}

impl Pair {
    /// Appends the encoding of the key-value pair to `buf`.
    pub fn encode(&self, buf: &mut Vec<u8>)
        requires
            self.key.key@.len() <= MAX_VEC_SIZE,
            self.value@.len() <= MAX_VEC_SIZE,
        ensures
            final(buf)@ == old(buf)@ + pair_bytes(self.key.type_value, self.key.key@, self.value@),
    {
        self.key.encode(buf);
        write_varint(buf, self.value.len() as u64);
        extend_from(buf, &self.value, 0, self.value.len());
        proof {
            assert(self.value@.subrange(0, self.value@.len() as int) =~= self.value@);
            assert(buf@ =~= old(buf)@ + pair_bytes(self.key.type_value, self.key.key@, self.value@));
        }
    }

    /// Parses a key-value pair at position `at` of `d`.
    pub fn decode(d: &Vec<u8>, at: usize) -> (r: Result<(Pair, usize), DecodeError>)
        requires
            at <= d@.len(),
        ensures
            (match pair_parse(d@, at as int) {
                Ok((tv, kd, val, at2)) => r matches Ok((p, rat)) && p.key.type_value == tv
                    && p.key.key@ == kd && p.value@ == val && rat == at2 && at < rat <= d@.len(),
                Err(e) => r == Err::<(Pair, usize), DecodeError>(e),
            }),
    {
        let (key, at1) = match Key::decode(d, at) {
            Ok(x) => x,
            Err(e) => {
                return Err(e);
            },
        };
        let (vlen, at2) = match read_varint(d, at1) {
            Ok(x) => x,
            Err(e) => {
                return Err(e);
            },
        };
        if vlen > MAX_VEC_SIZE as u64 {
            return Err(DecodeError::Oversized);
        }
        let vlen = vlen as usize;
        if d.len() - at2 < vlen {
            return Err(DecodeError::UnexpectedEnd);
        }
        let value = subvec(d, at2, at2 + vlen);
        Ok((Pair { key, value }, at2 + vlen))
    }
}

// ---------------------------------------------------------------------------
// Proprietary keys

/// The key-data encoding of a proprietary key: the length-prefixed vendor
/// prefix, the subtype byte, the key data.
pub open spec fn prop_key_data_bytes(prefix: Seq<u8>, subtype: u8, key: Seq<u8>) -> Seq<u8> {
    varint_bytes(prefix.len() as u64) + prefix + seq![subtype] + key
}

/// What parsing the key data of a proprietary key yields: the prefix, the
/// subtype, and all remaining bytes as the key data.
pub open spec fn prop_key_parse(s: Seq<u8>) -> Result<(Seq<u8>, u8, Seq<u8>), DecodeError> {
    match varint_parse(s, 0) {
        Ok((plen, at)) => {
            if at + plen + 1 > s.len() {
                Err(DecodeError::UnexpectedEnd)
            } else {
                Ok((s.subrange(at, at + plen), s[at + plen], s.skip(at + plen + 1)))
            }
        },
        Err(e) => Err(e),
    }
}

impl ProprietaryKey {
    /// Parses a proprietary key out of a raw key of type `0xFC`.
    pub fn from_key(key: Key) -> (r: Result<ProprietaryKey, DecodeError>)
        ensures
            key.type_value != 0xFC ==> r == Err::<ProprietaryKey, DecodeError>(
                DecodeError::InvalidProprietaryKey,
            ),
            key.type_value == 0xFC ==> (match prop_key_parse(key.key@) {
                Ok((p, st, kd)) => r matches Ok(pk) && pk.prefix@ == p && pk.subtype == st
                    && pk.key@ == kd,
                Err(e) => r == Err::<ProprietaryKey, DecodeError>(e),
            }),
    {
        if key.type_value != 0xFC {
            return Err(DecodeError::InvalidProprietaryKey);
        }
        let (plen, at) = match read_varint(&key.key, 0) {
            Ok(x) => x,
            Err(e) => {
                return Err(e);
            },
        };
        if plen >= key.key.len() as u64 {
            return Err(DecodeError::UnexpectedEnd);
        }
        let plen = plen as usize;
        if key.key.len() - at < plen + 1 {
            return Err(DecodeError::UnexpectedEnd);
        }
        let prefix = subvec(&key.key, at, at + plen);
        let subtype = key.key[at + plen];
        let kd = subvec(&key.key, at + plen + 1, key.key.len());
        proof {
            assert(key.key@.skip(at + plen + 1) =~= key.key@.subrange(
                at + plen + 1,
                key.key@.len() as int,
            ));
        }
        Ok(ProprietaryKey { prefix, subtype, key: kd })
    }

    /// Builds the raw key of type `0xFC` holding this proprietary key.
    pub fn into_key(self) -> (r: Key)
        requires
            self.prefix@.len() <= MAX_VEC_SIZE,
        ensures
            r.type_value == 0xFC,
            r.key@ == prop_key_data_bytes(self.prefix@, self.subtype, self.key@),
    {
        let mut data: Vec<u8> = Vec::new();
        write_varint(&mut data, self.prefix.len() as u64);
        extend_from(&mut data, &self.prefix, 0, self.prefix.len());
        data.push(self.subtype);
        extend_from(&mut data, &self.key, 0, self.key.len());
        proof {
            assert(self.prefix@.subrange(0, self.prefix@.len() as int) =~= self.prefix@);
            assert(self.key@.subrange(0, self.key@.len() as int) =~= self.key@);
            assert(data@ =~= prop_key_data_bytes(self.prefix@, self.subtype, self.key@));
        }
        Key { type_value: 0xFC, key: data }
    }
}

} // verus!

verus! {

// ---------------------------------------------------------------------------
// Laws: the decoders invert the encoders

/// A `u64` is the weighted sum of its eight little-endian bytes.
proof fn lemma_byte_recompose(n: u64)
    ensures
        n == n % 0x100 + ((n / 0x100) % 0x100) * 0x100 + ((n / 0x1_0000) % 0x100) * 0x1_0000 + ((n
            / 0x100_0000) % 0x100) * 0x100_0000 + ((n / 0x1_0000_0000) % 0x100) * 0x1_0000_0000 + ((
        n / 0x100_0000_0000) % 0x100) * 0x100_0000_0000 + ((n / 0x1_0000_0000_0000) % 0x100)
            * 0x1_0000_0000_0000 + ((n / 0x100_0000_0000_0000) % 0x100) * 0x100_0000_0000_0000,
{
    let x = n as int;
    let r1 = x / 0x100;
    let r2 = x / 0x1_0000;
    let r3 = x / 0x100_0000;
    let r4 = x / 0x1_0000_0000;
    let r5 = x / 0x100_0000_0000;
    let r6 = x / 0x1_0000_0000_0000;
    let r7 = x / 0x100_0000_0000_0000;
    vstd::arithmetic::div_mod::lemma_fundamental_div_mod(x, 0x100);
    vstd::arithmetic::div_mod::lemma_div_denominator(x, 0x100, 0x100);
    vstd::arithmetic::div_mod::lemma_fundamental_div_mod(r1, 0x100);
    vstd::arithmetic::div_mod::lemma_div_denominator(x, 0x1_0000, 0x100);
    vstd::arithmetic::div_mod::lemma_fundamental_div_mod(r2, 0x100);
    vstd::arithmetic::div_mod::lemma_div_denominator(x, 0x100_0000, 0x100);
    vstd::arithmetic::div_mod::lemma_fundamental_div_mod(r3, 0x100);
    vstd::arithmetic::div_mod::lemma_div_denominator(x, 0x1_0000_0000, 0x100);
    vstd::arithmetic::div_mod::lemma_fundamental_div_mod(r4, 0x100);
    vstd::arithmetic::div_mod::lemma_div_denominator(x, 0x100_0000_0000, 0x100);
    vstd::arithmetic::div_mod::lemma_fundamental_div_mod(r5, 0x100);
    vstd::arithmetic::div_mod::lemma_div_denominator(x, 0x1_0000_0000_0000, 0x100);
    vstd::arithmetic::div_mod::lemma_fundamental_div_mod(r6, 0x100);
    vstd::arithmetic::div_mod::lemma_fundamental_div_mod(x, 0x100_0000_0000_0000);
    vstd::arithmetic::div_mod::lemma_mod_bound(x, 0x100_0000_0000_0000);
    assert(r7 < 0x100);
    assert(r7 % 0x100 == r7) by {
        vstd::arithmetic::div_mod::lemma_small_mod(r7 as nat, 0x100);
    }
}

/// Parsing a compact-size integer looks only at the bytes from `at` on, so
/// it agrees with parsing the suffix from its start.
proof fn lemma_varint_parse_shift(s: Seq<u8>, at: int)
    requires
        0 <= at <= s.len(),
    ensures
        varint_parse(s, at) == (match varint_parse(s.skip(at), 0) {
            Ok((v, p)) => Ok::<(u64, int), DecodeError>((v, p + at)),
            Err(e) => Err::<(u64, int), DecodeError>(e),
        }),
{
    let t = s.skip(at);
    assert(t.len() == s.len() - at);
    if at < s.len() {
        assert(t[0] == s[at]);
        if s[at] == 0xFD {
            if at + 3 <= s.len() {
                assert(t[1] == s[at + 1]);
                assert(t[2] == s[at + 2]);
            }
        } else if s[at] == 0xFE {
            if at + 5 <= s.len() {
                assert(t[1] == s[at + 1]);
                assert(t[2] == s[at + 2]);
                assert(t[3] == s[at + 3]);
                assert(t[4] == s[at + 4]);
            }
        } else if s[at] > 0xFE {
            if at + 9 <= s.len() {
                assert(t[1] == s[at + 1]);
                assert(t[2] == s[at + 2]);
                assert(t[3] == s[at + 3]);
                assert(t[4] == s[at + 4]);
                assert(t[5] == s[at + 5]);
                assert(t[6] == s[at + 6]);
                assert(t[7] == s[at + 7]);
                assert(t[8] == s[at + 8]);
            }
        }
    }
}

/// Compact-size round trip: parsing the minimal encoding of a value,
/// whatever follows it, yields the value and the position after it.
pub proof fn lemma_varint_round_trip(n: u64, rest: Seq<u8>)
    ensures
        varint_parse(varint_bytes(n) + rest, 0) == Ok::<(u64, int), DecodeError>((
            n,
            varint_bytes(n).len() as int,
        )),
{
    let s = varint_bytes(n) + rest;
    lemma_byte_recompose(n);
    if n < 0xFD {
        assert(s[0] == n as u8);
    } else if n <= 0xFFFF {
        assert(s[0] == 0xFDu8);
        assert(s[1] == (n % 0x100) as u8);
        assert(s[2] == ((n / 0x100) % 0x100) as u8);
        assert(n / 0x1_0000 == 0);
    } else if n <= 0xFFFF_FFFF {
        assert(s[0] == 0xFEu8);
        assert(s[1] == (n % 0x100) as u8);
        assert(s[2] == ((n / 0x100) % 0x100) as u8);
        assert(s[3] == ((n / 0x1_0000) % 0x100) as u8);
        assert(s[4] == ((n / 0x100_0000) % 0x100) as u8);
        assert(n / 0x1_0000_0000 == 0);
    } else {
        assert(s[0] == 0xFFu8);
        assert(s[1] == (n % 0x100) as u8);
        assert(s[2] == ((n / 0x100) % 0x100) as u8);
        assert(s[3] == ((n / 0x1_0000) % 0x100) as u8);
        assert(s[4] == ((n / 0x100_0000) % 0x100) as u8);
        assert(s[5] == ((n / 0x1_0000_0000) % 0x100) as u8);
        assert(s[6] == ((n / 0x100_0000_0000) % 0x100) as u8);
        assert(s[7] == ((n / 0x1_0000_0000_0000) % 0x100) as u8);
        assert(s[8] == ((n / 0x100_0000_0000_0000) % 0x100) as u8);
    }
}

/// Key round trip: parsing the encoding of a key, whatever follows it,
/// yields the key back.
pub proof fn lemma_key_round_trip(type_value: u8, key: Seq<u8>, rest: Seq<u8>)
    requires
        key.len() <= MAX_VEC_SIZE,
    ensures
        key_parse(key_bytes(type_value, key) + rest, 0) == Ok::<(u8, Seq<u8>, int), DecodeError>((
            type_value,
            key,
            key_bytes(type_value, key).len() as int,
        )),
{
    let n = (key.len() + 1) as u64;
    let tail = seq![type_value] + key + rest;
    lemma_varint_round_trip(n, tail);
    let s = key_bytes(type_value, key) + rest;
    assert(varint_bytes(n) + tail =~= s);
    let vlen = varint_bytes(n).len() as int;
    assert(varint_parse(s, 0) == Ok::<(u64, int), DecodeError>((n, vlen)));
    assert(s[vlen] == type_value);
    assert(s.subrange(vlen + 1, vlen + n as int) =~= key);
}

/// Pair round trip: parsing the encoding of a key-value pair, whatever
/// follows it, yields the pair back.
#[verifier::rlimit(50)]
pub proof fn lemma_pair_round_trip(type_value: u8, key: Seq<u8>, value: Seq<u8>, rest: Seq<u8>)
    requires
        key.len() <= MAX_VEC_SIZE,
        value.len() <= MAX_VEC_SIZE,
    ensures
        pair_parse(pair_bytes(type_value, key, value) + rest, 0) == Ok::<
            (u8, Seq<u8>, Seq<u8>, int),
            DecodeError,
        >((type_value, key, value, pair_bytes(type_value, key, value).len() as int)),
{
    let kb = key_bytes(type_value, key);
    let m = value.len() as u64;
    let vtail = varint_bytes(m) + value + rest;
    lemma_key_round_trip(type_value, key, vtail);
    let s = pair_bytes(type_value, key, value) + rest;
    assert(kb + vtail =~= s);
    assert(key_parse(s, 0) == Ok::<(u8, Seq<u8>, int), DecodeError>((
        type_value,
        key,
        kb.len() as int,
    )));
    lemma_varint_round_trip(m, value + rest);
    lemma_varint_parse_shift(s, kb.len() as int);
    assert(s.skip(kb.len() as int) =~= varint_bytes(m) + (value + rest));
    let at3 = kb.len() + varint_bytes(m).len();
    assert(varint_parse(s, kb.len() as int) == Ok::<(u64, int), DecodeError>((m, at3 as int)));
    assert(s.subrange(at3 as int, at3 + m as int) =~= value);
}

} // verus!
