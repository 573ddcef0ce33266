//! Partially-signed-transaction key-value maps: the pair kinds of each map
//! (known, unknown and proprietary), the map and transaction containers,
//! and their BIP-174 byte serialization.

use core::marker::PhantomData;

use vstd::prelude::*;
use vstd::utf8::encode_utf8;

use crate::indexes::{ChildIdx, DerivationIndex};
use crate::raw::{le32_bytes, varint_bytes, write_varint, MAX_VEC_SIZE};
use crate::xkey::{extend_from, subvec, Fingerprint};
use crate::xpub::Xpub;

verus! {

/// Marker for the pair kinds a given key-value map may hold.
pub trait KnownPair {

}

/// The known pair kinds of per-input maps; only the final script-sig
/// pair is modelled, other input pairs stay unknown or proprietary.
pub enum InPair {
    /// The final script-sig of a fully signed input.
    FinalScriptSig(Vec<u8>),
}

impl KnownPair for InPair {

}

/// The known pair kinds of per-output maps; only the redeem-script pair
/// is modelled, other output pairs stay unknown or proprietary.
pub enum OutPair {
    /// The redeem script of the output.
    RedeemScript(Vec<u8>),
}

impl KnownPair for OutPair {

}

/// An extended public key with its key-origin information, as carried by
/// the global xpub pair.
pub struct XpubDerivation {
    /// The fingerprint of the master key the path starts from.
    pub master_fp: Fingerprint,
    /// The derivation path from the master key.
    pub path: Vec<ChildIdx>,
    /// The extended public key at the end of the path.
    pub xpub: Xpub,
}

/// The known pair kinds of the global map.
pub enum GlobalPair {
    /// The unsigned transaction, in its raw consensus bytes.
    UnsignedTx(Vec<u8>),
    /// An extended public key with its key origin.
    Xpub(XpubDerivation),
    /// The transaction version number.
    TxVersion(u32),
    /// The number of inputs.
    InputCount(u64),
    /// The number of outputs.
    OutputCount(u64),
    /// The transaction-modifiable flags byte.
    TxModifiable(u8),
    /// The PSBT version number.
    Version(u32),
}

impl KnownPair for GlobalPair {

}

/// A pair whose key type the library does not know: kept raw.
pub struct UnknownPair<T: KnownPair> {
    /// The key type, as a compact-size value.
    pub key_type: u64,
    /// The raw key data after the key type.
    pub key_data: Vec<u8>,
    /// The raw value.
    pub value: Vec<u8>,
    /// Marker tying the pair to its map kind.
    pub _map_type: PhantomData<T>,
}

impl<T: KnownPair> UnknownPair<T> {
    /// Builds an unknown pair from its raw parts.
    pub fn new(key_type: u64, key_data: Vec<u8>, value: Vec<u8>) -> (r: UnknownPair<T>)
        ensures
            r.key_type == key_type,
            r.key_data == key_data,
            r.value == value,
    {
        UnknownPair { key_type, key_data, value, _map_type: PhantomData }
    }
}

/// A vendor-proprietary pair, carried under the reserved key type `0xFC`.
pub struct ProprietaryPair {
    /// The vendor identifier.
    pub identifier: String,
    /// The vendor-specific key subtype.
    pub subkey_type: u64,
    /// The key data after the subtype.
    pub subkey_data: Vec<u8>,
    /// The raw value.
    pub value: Vec<u8>,
}

/// One pair of a key-value map.
pub enum KeyPair<T: KnownPair> {
    /// A pair of a known kind.
    Known(T),
    /// A pair of an unknown kind, kept raw.
    Unknown(UnknownPair<T>),
    /// A vendor-proprietary pair.
    Proprietary(ProprietaryPair),
}

/// A key-value map: the ordered pairs of one map section.
pub struct KeyMap<T: KnownPair>(pub Vec<KeyPair<T>>);

/// A partially signed transaction: the global map and the per-input and
/// per-output maps.
pub struct Psbt {
    /// The global key-value map.
    pub global: KeyMap<GlobalPair>,
    /// One key-value map per transaction input.
    pub inputs: Vec<KeyMap<InPair>>,
    /// One key-value map per transaction output.
    pub outputs: Vec<KeyMap<OutPair>>,
}

// ---------------------------------------------------------------------------
// Serialization: the byte form

/// The five magic bytes opening a serialized PSBT.
pub open spec fn psbt_magic() -> Seq<u8> {
    seq![0x70u8, 0x73u8, 0x62u8, 0x74u8, 0xFFu8]
}

/// A raw pair with a compact-size key type: the length-prefixed key (key
/// type followed by key data), then the length-prefixed value.
pub open spec fn vk_pair_bytes(key_type: u64, key_data: Seq<u8>, value: Seq<u8>) -> Seq<u8> {
    varint_bytes((varint_bytes(key_type).len() + key_data.len()) as u64) + varint_bytes(key_type)
        + key_data + varint_bytes(value.len() as u64) + value
}

/// The little-endian raw wire values of a derivation path.
pub open spec fn path_le_bytes(path: Seq<ChildIdx>) -> Seq<u8>
    decreases path.len(),
{
    if path.len() == 0 {
        Seq::empty()
    } else {
        path_le_bytes(path.drop_last()) + le32_bytes(path.last().raw_spec() as u64)
    }
}

/// The value of the global xpub pair: the master fingerprint followed by
/// the path.
pub open spec fn xpub_derivation_value(xd: XpubDerivation) -> Seq<u8> {
    xd.master_fp.bytes_spec() + path_le_bytes(xd.path@)
}

/// The encoding of a known global pair, with its fixed key type.
pub open spec fn global_known_bytes(g: GlobalPair) -> Seq<u8> {
    match g {
        GlobalPair::UnsignedTx(tx) => vk_pair_bytes(0x00, Seq::empty(), tx@),
        GlobalPair::Xpub(xd) => vk_pair_bytes(0x01, xd.xpub@, xpub_derivation_value(xd)),
        GlobalPair::TxVersion(v) => vk_pair_bytes(0x02, Seq::empty(), le32_bytes(v as u64)),
        GlobalPair::InputCount(n) => vk_pair_bytes(0x04, Seq::empty(), varint_bytes(n)),
        GlobalPair::OutputCount(n) => vk_pair_bytes(0x05, Seq::empty(), varint_bytes(n)),
        GlobalPair::TxModifiable(b) => vk_pair_bytes(0x06, Seq::empty(), seq![b]),
        GlobalPair::Version(v) => vk_pair_bytes(0xFB, Seq::empty(), le32_bytes(v as u64)),
    }
}

/// The encoding of a proprietary pair: key type `0xFC`, the
/// length-prefixed identifier, the subtype and the key data, then the
/// value.
pub open spec fn prop_pair_bytes(p: ProprietaryPair) -> Seq<u8> {
    vk_pair_bytes(
        0xFC,
        varint_bytes(encode_utf8(p.identifier@).len() as u64) + encode_utf8(p.identifier@)
            + varint_bytes(p.subkey_type) + p.subkey_data@,
        p.value@,
    )
}

/// The encoding of one global pair.
pub open spec fn global_pair_spec_bytes(p: KeyPair<GlobalPair>) -> Seq<u8> {
    match p {
        KeyPair::Known(g) => global_known_bytes(g),
        KeyPair::Unknown(u) => vk_pair_bytes(u.key_type, u.key_data@, u.value@),
        KeyPair::Proprietary(pp) => prop_pair_bytes(pp),
    }
}

/// The encoding of one input pair.
pub open spec fn in_pair_spec_bytes(p: KeyPair<InPair>) -> Seq<u8> {
    match p {
        KeyPair::Known(InPair::FinalScriptSig(s)) => vk_pair_bytes(0x07, Seq::empty(), s@),
        KeyPair::Unknown(u) => vk_pair_bytes(u.key_type, u.key_data@, u.value@),
        KeyPair::Proprietary(pp) => prop_pair_bytes(pp),
    }
}

/// The encoding of one output pair.
pub open spec fn out_pair_spec_bytes(p: KeyPair<OutPair>) -> Seq<u8> {
    match p {
        KeyPair::Known(OutPair::RedeemScript(s)) => vk_pair_bytes(0x00, Seq::empty(), s@),
        KeyPair::Unknown(u) => vk_pair_bytes(u.key_type, u.key_data@, u.value@),
        KeyPair::Proprietary(pp) => prop_pair_bytes(pp),
    }
}

/// The pairs of the global map, in order.
pub open spec fn global_pairs_bytes(ps: Seq<KeyPair<GlobalPair>>) -> Seq<u8>
    decreases ps.len(),
{
    if ps.len() == 0 {
        Seq::empty()
    } else {
        global_pairs_bytes(ps.drop_last()) + global_pair_spec_bytes(ps.last())
    }
}

/// The pairs of one input map, in order.
pub open spec fn in_pairs_bytes(ps: Seq<KeyPair<InPair>>) -> Seq<u8>
    decreases ps.len(),
{
    if ps.len() == 0 {
        Seq::empty()
    } else {
        in_pairs_bytes(ps.drop_last()) + in_pair_spec_bytes(ps.last())
    }
}

/// The pairs of one output map, in order.
pub open spec fn out_pairs_bytes(ps: Seq<KeyPair<OutPair>>) -> Seq<u8>
    decreases ps.len(),
{
    if ps.len() == 0 {
        Seq::empty()
    } else {
        out_pairs_bytes(ps.drop_last()) + out_pair_spec_bytes(ps.last())
    }
}

/// The input maps in order, each closed by the zero separator.
pub open spec fn in_maps_bytes(ms: Seq<KeyMap<InPair>>) -> Seq<u8>
    decreases ms.len(),
{
    if ms.len() == 0 {
        Seq::empty()
    } else {
        in_maps_bytes(ms.drop_last()) + in_pairs_bytes(ms.last().0@) + seq![0u8]
    }
}

/// The output maps in order, each closed by the zero separator.
pub open spec fn out_maps_bytes(ms: Seq<KeyMap<OutPair>>) -> Seq<u8>
    decreases ms.len(),
{
    if ms.len() == 0 {
        Seq::empty()
    } else {
        out_maps_bytes(ms.drop_last()) + out_pairs_bytes(ms.last().0@) + seq![0u8]
    }
}

/// The full serialization: magic, global map, input maps, output maps,
/// each map closed by the zero separator.
pub open spec fn psbt_bytes(p: Psbt) -> Seq<u8> {
    psbt_magic() + global_pairs_bytes(p.global.0@) + seq![0u8] + in_maps_bytes(p.inputs@)
        + out_maps_bytes(p.outputs@)
}

// ---------------------------------------------------------------------------
// Size bounds the encoders need (the format's own field limit)

/// Whether an unknown pair's fields stay within the field size limit.
pub open spec fn unknown_bounded<T: KnownPair>(u: UnknownPair<T>) -> bool {
    u.key_data@.len() <= MAX_VEC_SIZE && u.value@.len() <= MAX_VEC_SIZE
}

/// Whether a proprietary pair's fields stay within the field size limit.
pub open spec fn prop_bounded(p: ProprietaryPair) -> bool {
    encode_utf8(p.identifier@).len() + p.subkey_data@.len() + 18 <= MAX_VEC_SIZE && p.value@.len()
        <= MAX_VEC_SIZE
}

/// Whether a known global pair's fields stay within the field size limit.
pub open spec fn global_known_bounded(g: GlobalPair) -> bool {
    match g {
        GlobalPair::UnsignedTx(tx) => tx@.len() <= MAX_VEC_SIZE,
        GlobalPair::Xpub(xd) => 4 + xd.path@.len() * 4 <= MAX_VEC_SIZE,
        _ => true,
    }
}

/// Whether one global pair is encodable.
pub open spec fn global_pair_bounded(p: KeyPair<GlobalPair>) -> bool {
    match p {
        KeyPair::Known(g) => global_known_bounded(g),
        KeyPair::Unknown(u) => unknown_bounded(u),
        KeyPair::Proprietary(pp) => prop_bounded(pp),
    }
}

/// Whether one input pair is encodable.
pub open spec fn in_pair_bounded(p: KeyPair<InPair>) -> bool {
    match p {
        KeyPair::Known(InPair::FinalScriptSig(s)) => s@.len() <= MAX_VEC_SIZE,
        KeyPair::Unknown(u) => unknown_bounded(u),
        KeyPair::Proprietary(pp) => prop_bounded(pp),
    }
}

/// Whether one output pair is encodable.
pub open spec fn out_pair_bounded(p: KeyPair<OutPair>) -> bool {
    match p {
        KeyPair::Known(OutPair::RedeemScript(s)) => s@.len() <= MAX_VEC_SIZE,
        KeyPair::Unknown(u) => unknown_bounded(u),
        KeyPair::Proprietary(pp) => prop_bounded(pp),
    }
}

/// Whether every pair of the transaction is encodable.
pub open spec fn psbt_bounded(p: Psbt) -> bool {
    &&& forall|i: int| 0 <= i < p.global.0@.len() ==> global_pair_bounded(#[trigger] p.global.0@[i])
    &&& forall|i: int, j: int|
        0 <= i < p.inputs@.len() && 0 <= j < p.inputs@[i].0@.len() ==> in_pair_bounded(
            #[trigger] p.inputs@[i].0@[j],
        )
    &&& forall|i: int, j: int|
        0 <= i < p.outputs@.len() && 0 <= j < p.outputs@[i].0@.len() ==> out_pair_bounded(
            #[trigger] p.outputs@[i].0@[j],
        )
}

// ---------------------------------------------------------------------------
// The encoders

/// Appends a raw pair with a compact-size key type.
fn encode_vk_pair(buf: &mut Vec<u8>, key_type: u64, key_data: &Vec<u8>, value: &Vec<u8>)
    requires
        key_data@.len() <= MAX_VEC_SIZE,
        value@.len() <= MAX_VEC_SIZE,
    ensures
        final(buf)@ == old(buf)@ + vk_pair_bytes(key_type, key_data@, value@),
{
    let mut ktb: Vec<u8> = Vec::new();
    write_varint(&mut ktb, key_type);
    proof {
        assert(ktb@.len() <= 9);
    }
    write_varint(buf, (ktb.len() + key_data.len()) as u64);
    extend_from(buf, &ktb, 0, ktb.len());
    extend_from(buf, key_data, 0, key_data.len());
    write_varint(buf, value.len() as u64);
    extend_from(buf, value, 0, value.len());
    proof {
        assert(ktb@.subrange(0, ktb@.len() as int) =~= ktb@);
        assert(key_data@.subrange(0, key_data@.len() as int) =~= key_data@);
        assert(value@.subrange(0, value@.len() as int) =~= value@);
        assert(buf@ =~= old(buf)@ + vk_pair_bytes(key_type, key_data@, value@));
    }
}

/// Appends a proprietary pair.
fn encode_prop_pair(buf: &mut Vec<u8>, p: &ProprietaryPair)
    requires
        prop_bounded(*p),
    ensures
        final(buf)@ == old(buf)@ + prop_pair_bytes(*p),
{
    let idv = vstd::slice::slice_to_vec(p.identifier.as_str().as_bytes());
    let mut kd: Vec<u8> = Vec::new();
    write_varint(&mut kd, idv.len() as u64);
    extend_from(&mut kd, &idv, 0, idv.len());
    write_varint(&mut kd, p.subkey_type);
    extend_from(&mut kd, &p.subkey_data, 0, p.subkey_data.len());
    proof {
        assert(idv@.subrange(0, idv@.len() as int) =~= idv@);
        assert(p.subkey_data@.subrange(0, p.subkey_data@.len() as int) =~= p.subkey_data@);
        assert(kd@ =~= varint_bytes(encode_utf8(p.identifier@).len() as u64) + encode_utf8(
            p.identifier@,
        ) + varint_bytes(p.subkey_type) + p.subkey_data@);
        assert(varint_bytes(encode_utf8(p.identifier@).len() as u64).len() <= 9);
        assert(varint_bytes(p.subkey_type).len() <= 9);
    }
    encode_vk_pair(buf, 0xFC, &kd, &p.value);
}

/// Appends a known global pair.
fn encode_global_known(buf: &mut Vec<u8>, g: &GlobalPair)
    requires
        global_known_bounded(*g),
    ensures
        final(buf)@ == old(buf)@ + global_known_bytes(*g),
{
    match g {
        GlobalPair::UnsignedTx(tx) => {
            let empty: Vec<u8> = Vec::new();
            encode_vk_pair(buf, 0x00, &empty, tx);
        },
        GlobalPair::Xpub(xd) => {
            let kd = xd.xpub.encode_binary();
            let mut val = subvec(xd.master_fp.as_bytes(), 0, 4);
            proof {
                assert(val@ =~= xd.master_fp.bytes_spec());
                assert(xd.path@.take(0) =~= Seq::<ChildIdx>::empty());
            }
            let n = xd.path.len();
            let mut i: usize = 0;
            while i < n
                invariant
                    i <= n,
                    n == xd.path@.len(),
                    val@ =~= xd.master_fp.bytes_spec() + path_le_bytes(xd.path@.take(i as int)),
                    val@.len() == 4 + i * 4,
                decreases n - i,
            {
                let raw = xd.path[i].first_raw_value() as u64;
                val.push((raw % 0x100) as u8);
                val.push(((raw / 0x100) % 0x100) as u8);
                val.push(((raw / 0x1_0000) % 0x100) as u8);
                val.push(((raw / 0x100_0000) % 0x100) as u8);
                proof {
                    assert(xd.path@.take(i + 1).drop_last() =~= xd.path@.take(i as int));
                    assert(xd.path@.take(i + 1).last() == xd.path@[i as int]);
                    assert(val@ =~= xd.master_fp.bytes_spec() + path_le_bytes(
                        xd.path@.take(i + 1),
                    ));
                }
                i += 1;
            }
            proof {
                assert(xd.path@.take(n as int) =~= xd.path@);
            }
            encode_vk_pair(buf, 0x01, &kd, &val);
        },
        GlobalPair::TxVersion(v) => {
            let empty: Vec<u8> = Vec::new();
            let vu = *v as u64;
            let mut val: Vec<u8> = Vec::new();
            val.push((vu % 0x100) as u8);
            val.push(((vu / 0x100) % 0x100) as u8);
            val.push(((vu / 0x1_0000) % 0x100) as u8);
            val.push(((vu / 0x100_0000) % 0x100) as u8);
            proof {
                assert(val@ =~= le32_bytes(vu));
            }
            encode_vk_pair(buf, 0x02, &empty, &val);
        },
        GlobalPair::InputCount(nv) => {
            let empty: Vec<u8> = Vec::new();
            let mut val: Vec<u8> = Vec::new();
            write_varint(&mut val, *nv);
            proof {
                assert(varint_bytes(*nv).len() <= 9);
            }
            encode_vk_pair(buf, 0x04, &empty, &val);
        },
        GlobalPair::OutputCount(nv) => {
            let empty: Vec<u8> = Vec::new();
            let mut val: Vec<u8> = Vec::new();
            write_varint(&mut val, *nv);
            proof {
                assert(varint_bytes(*nv).len() <= 9);
            }
            encode_vk_pair(buf, 0x05, &empty, &val);
        },
        GlobalPair::TxModifiable(b) => {
            let empty: Vec<u8> = Vec::new();
            let mut val: Vec<u8> = Vec::new();
            val.push(*b);
            proof {
                assert(val@ =~= seq![*b]);
            }
            encode_vk_pair(buf, 0x06, &empty, &val);
        },
        GlobalPair::Version(v) => {
            let empty: Vec<u8> = Vec::new();
            let vu = *v as u64;
            let mut val: Vec<u8> = Vec::new();
            val.push((vu % 0x100) as u8);
            val.push(((vu / 0x100) % 0x100) as u8);
            val.push(((vu / 0x1_0000) % 0x100) as u8);
            val.push(((vu / 0x100_0000) % 0x100) as u8);
            proof {
                assert(val@ =~= le32_bytes(vu));
            }
            encode_vk_pair(buf, 0xFB, &empty, &val);
        },
    }
}

impl Psbt {
    /// Serializes the transaction: the magic bytes, then the global,
    /// per-input and per-output maps, each closed by the zero separator.
    pub fn to_raw(&self) -> (r: Vec<u8>)
        requires
            psbt_bounded(*self),
        ensures
            r@ == psbt_bytes(*self),
    {
        let mut buf: Vec<u8> = Vec::new();
        buf.push(0x70);
        buf.push(0x73);
        buf.push(0x62);
        buf.push(0x74);
        buf.push(0xFF);
        proof {
            assert(buf@ =~= psbt_magic());
            assert(self.global.0@.take(0) =~= Seq::<KeyPair<GlobalPair>>::empty());
        }
        let gn = self.global.0.len();
        let mut i: usize = 0;
        while i < gn
            invariant
                i <= gn,
                gn == self.global.0@.len(),
                psbt_bounded(*self),
                buf@ =~= psbt_magic() + global_pairs_bytes(self.global.0@.take(i as int)),
            decreases gn - i,
        {
            proof {
                assert(self.global.0@.take(i + 1).drop_last() =~= self.global.0@.take(i as int));
                assert(self.global.0@.take(i + 1).last() == self.global.0@[i as int]);
            }
            match &self.global.0[i] {
                KeyPair::Known(g) => encode_global_known(&mut buf, g),
                KeyPair::Unknown(u) => encode_vk_pair(&mut buf, u.key_type, &u.key_data, &u.value),
                KeyPair::Proprietary(pp) => encode_prop_pair(&mut buf, pp),
            }
            i += 1;
        }
        proof {
            assert(self.global.0@.take(gn as int) =~= self.global.0@);
        }
        buf.push(0x00);
        let ghost after_global = psbt_magic() + global_pairs_bytes(self.global.0@) + seq![0u8];
        proof {
            assert(buf@ =~= after_global);
            assert(self.inputs@.take(0) =~= Seq::<KeyMap<InPair>>::empty());
        }
        let inn = self.inputs.len();
        let mut m: usize = 0;
        while m < inn
            invariant
                m <= inn,
                inn == self.inputs@.len(),
                psbt_bounded(*self),
                after_global == psbt_magic() + global_pairs_bytes(self.global.0@) + seq![0u8],
                buf@ =~= after_global + in_maps_bytes(self.inputs@.take(m as int)),
            decreases inn - m,
        {
            let ghost base = buf@;
            let pn = self.inputs[m].0.len();
            let mut j: usize = 0;
            proof {
                assert(self.inputs@[m as int].0@.take(0) =~= Seq::<KeyPair<InPair>>::empty());
            }
            while j < pn
                invariant
                    j <= pn,
                    m < self.inputs@.len(),
                    pn == self.inputs@[m as int].0@.len(),
                    psbt_bounded(*self),
                    buf@ =~= base + in_pairs_bytes(self.inputs@[m as int].0@.take(j as int)),
                decreases pn - j,
            {
                proof {
                    assert(self.inputs@[m as int].0@.take(j + 1).drop_last()
                        =~= self.inputs@[m as int].0@.take(j as int));
                    assert(self.inputs@[m as int].0@.take(j + 1).last()
                        == self.inputs@[m as int].0@[j as int]);
                }
                match &self.inputs[m].0[j] {
                    KeyPair::Known(InPair::FinalScriptSig(s)) => {
                        let empty: Vec<u8> = Vec::new();
                        encode_vk_pair(&mut buf, 0x07, &empty, s);
                    },
                    KeyPair::Unknown(u) => encode_vk_pair(
                        &mut buf,
                        u.key_type,
                        &u.key_data,
                        &u.value,
                    ),
                    KeyPair::Proprietary(pp) => encode_prop_pair(&mut buf, pp),
                }
                j += 1;
            }
            buf.push(0x00);
            proof {
                assert(self.inputs@[m as int].0@.take(pn as int) =~= self.inputs@[m as int].0@);
                assert(self.inputs@.take(m + 1).drop_last() =~= self.inputs@.take(m as int));
                assert(self.inputs@.take(m + 1).last() == self.inputs@[m as int]);
                assert(buf@ =~= after_global + in_maps_bytes(self.inputs@.take(m + 1)));
            }
            m += 1;
        }
        proof {
            assert(self.inputs@.take(inn as int) =~= self.inputs@);
        }
        let ghost after_inputs = after_global + in_maps_bytes(self.inputs@);
        let outn = self.outputs.len();
        let mut m2: usize = 0;
        proof {
            assert(self.outputs@.take(0) =~= Seq::<KeyMap<OutPair>>::empty());
        }
        while m2 < outn
            invariant
                m2 <= outn,
                outn == self.outputs@.len(),
                psbt_bounded(*self),
                after_inputs == psbt_magic() + global_pairs_bytes(self.global.0@) + seq![0u8]
                    + in_maps_bytes(self.inputs@),
                buf@ =~= after_inputs + out_maps_bytes(self.outputs@.take(m2 as int)),
            decreases outn - m2,
        {
            let ghost base = buf@;
            let pn = self.outputs[m2].0.len();
            let mut j: usize = 0;
            proof {
                assert(self.outputs@[m2 as int].0@.take(0) =~= Seq::<KeyPair<OutPair>>::empty());
            }
            while j < pn
                invariant
                    j <= pn,
                    m2 < self.outputs@.len(),
                    pn == self.outputs@[m2 as int].0@.len(),
                    psbt_bounded(*self),
                    buf@ =~= base + out_pairs_bytes(self.outputs@[m2 as int].0@.take(j as int)),
                decreases pn - j,
            {
                proof {
                    assert(self.outputs@[m2 as int].0@.take(j + 1).drop_last()
                        =~= self.outputs@[m2 as int].0@.take(j as int));
                    assert(self.outputs@[m2 as int].0@.take(j + 1).last()
                        == self.outputs@[m2 as int].0@[j as int]);
                }
                match &self.outputs[m2].0[j] {
                    KeyPair::Known(OutPair::RedeemScript(s)) => {
                        let empty: Vec<u8> = Vec::new();
                        encode_vk_pair(&mut buf, 0x00, &empty, s);
                    },
                    KeyPair::Unknown(u) => encode_vk_pair(
                        &mut buf,
                        u.key_type,
                        &u.key_data,
                        &u.value,
                    ),
                    KeyPair::Proprietary(pp) => encode_prop_pair(&mut buf, pp),
                }
                j += 1;
            }
            buf.push(0x00);
            proof {
                assert(self.outputs@[m2 as int].0@.take(pn as int) =~= self.outputs@[m2 as int].0@);
                assert(self.outputs@.take(m2 + 1).drop_last() =~= self.outputs@.take(m2 as int));
                assert(self.outputs@.take(m2 + 1).last() == self.outputs@[m2 as int]);
                assert(buf@ =~= after_inputs + out_maps_bytes(self.outputs@.take(m2 + 1)));
            }
            m2 += 1;
        }
        proof {
            assert(self.outputs@.take(outn as int) =~= self.outputs@);
            assert(buf@ =~= psbt_bytes(*self));
        }
        buf
    }
}

} // verus!
