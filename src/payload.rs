//! The canonical signing payload and the signed extrinsic built from it.
use crate::codec::{
    append_bytes, compact_bytes, encode_compact_u128, encode_compact_u32, encode_u32, le_bytes,
};
use crate::mortality::{encode_era, era_bytes, era_wf, Era};
use crate::types::{AccountId, BlockHash, Signature};
use vstd::prelude::*;

verus! {

/// The byte that opens a signed extrinsic: the signed flag (high bit) with
/// format version 4.
pub const SIGNED_V4: u8 = 0x84;

/// Resolved transaction parameters that are signed over and emitted.
#[derive(Clone, Copy, Debug, PartialEq, Eq)]
pub struct Extra {
    pub mortality: Era,
    pub nonce: u32,
    pub tip: u128,
    pub app_id: u32,
}

/// Chain-derived material that is signed over but not emitted.
#[derive(Clone, Copy, Debug, PartialEq, Eq)]
pub struct Additional {
    pub spec_version: u32,
    pub transaction_version: u32,
    pub genesis_hash: BlockHash,
    pub fork_hash: BlockHash,
}

/// A call, its resolved extra and the additional signing material.
#[derive(Clone, Debug)]
pub struct UnsignedPayload {
    pub call: Vec<u8>,
    pub extra: Extra,
    pub additional: Additional,
}

/// The encoded parts of an unsigned payload.
#[derive(Clone, Debug)]
pub struct UnsignedEncodedPayload {
    pub call: Vec<u8>,
    pub extra: Vec<u8>,
    pub additional: Vec<u8>,
}

/// Address kinds; the discriminant byte of `Id` is 0.
#[derive(Clone, Copy, Debug, PartialEq, Eq)]
pub enum MultiAddress {
    Id(AccountId),
}

/// Signature schemes; the discriminant byte of `Sr25519` is 1.
#[derive(Clone, Copy, Debug, PartialEq, Eq)]
pub enum MultiSignature {
    Sr25519(Signature),
}

/// Errors of transaction construction.
#[derive(Clone, Copy, Debug, PartialEq, Eq)]
pub enum BuildError {
    /// A chain query or a submission failed.
    TransportFailure,
    /// A chain response did not have the expected shape.
    InvalidChainResponse,
    /// The extrinsic is too long for its length prefix.
    EncodingOverflow,
}

/// The bytes of the extra: era, then nonce, tip and app id in compact form.
pub open spec fn extra_bytes(e: Extra) -> Seq<u8> {
    era_bytes(e.mortality) + compact_bytes(e.nonce as nat) + compact_bytes(e.tip as nat)
        + compact_bytes(e.app_id as nat)
}

/// The bytes of the additional material: both versions as four little-endian
/// bytes, then the genesis hash and the fork hash.
pub open spec fn additional_bytes(a: Additional) -> Seq<u8> {
    le_bytes(a.spec_version as nat, 4) + le_bytes(a.transaction_version as nat, 4)
        + a.genesis_hash.0@ + a.fork_hash.0@
}

/// The bytes that are signed: call, extra, additional.
pub open spec fn payload_bytes(call: Seq<u8>, e: Extra, a: Additional) -> Seq<u8> {
    call + extra_bytes(e) + additional_bytes(a)
}

/// The tagged bytes of an address.
pub open spec fn address_bytes(a: MultiAddress) -> Seq<u8> {
    match a {
        MultiAddress::Id(id) => seq![0u8] + id.0@,
    }
}

/// The tagged bytes of a signature.
pub open spec fn signature_bytes(s: MultiSignature) -> Seq<u8> {
    match s {
        MultiSignature::Sr25519(sig) => seq![1u8] + sig.0@,
    }
}

/// The body of a signed extrinsic, before its length prefix.
pub open spec fn extrinsic_body(
    extra: Seq<u8>,
    call: Seq<u8>,
    account_id: AccountId,
    signature: Signature,
) -> Seq<u8> {
    seq![SIGNED_V4] + address_bytes(MultiAddress::Id(account_id)) + signature_bytes(
        MultiSignature::Sr25519(signature),
    ) + extra + call
}

/// The signed extrinsic: the body prefixed with its length in compact form.
pub open spec fn extrinsic_bytes(
    extra: Seq<u8>,
    call: Seq<u8>,
    account_id: AccountId,
    signature: Signature,
) -> Seq<u8> {
    let body = extrinsic_body(extra, call, account_id, signature);
    compact_bytes(body.len()) + body
}

impl Extra {
    pub open spec fn wf(self) -> bool {
        era_wf(self.mortality)
    }

    /// The encoded extra.
    pub fn encode(&self) -> (r: Vec<u8>)
        requires
            self.wf(),
        ensures
            r@ == extra_bytes(*self),
    {
        let mut r = encode_era(self.mortality);
        let n = encode_compact_u32(self.nonce);
        append_bytes(&mut r, n.as_slice());
        let t = encode_compact_u128(self.tip);
        append_bytes(&mut r, t.as_slice());
        let a = encode_compact_u32(self.app_id);
        append_bytes(&mut r, a.as_slice());
        r
    }
}

impl Additional {
    pub fn new(
        spec_version: u32,
        transaction_version: u32,
        genesis_hash: BlockHash,
        fork_hash: BlockHash,
    ) -> (r: Self)
        ensures
            r == (Additional { spec_version, transaction_version, genesis_hash, fork_hash }),
    {
        Additional { spec_version, transaction_version, genesis_hash, fork_hash }
    }

    /// The encoded additional material.
    pub fn encode(&self) -> (r: Vec<u8>)
        ensures
            r@ == additional_bytes(*self),
    {
        let mut r = encode_u32(self.spec_version);
        let t = encode_u32(self.transaction_version);
        append_bytes(&mut r, t.as_slice());
        append_bytes(&mut r, self.genesis_hash.0.as_slice());
        append_bytes(&mut r, self.fork_hash.0.as_slice());
        r
    }
}

impl UnsignedPayload {
    pub fn new(call: Vec<u8>, extra: Extra, additional: Additional) -> (r: Self)
        ensures
            r.call@ == call@,
            r.extra == extra,
            r.additional == additional,
    {
        UnsignedPayload { call, extra, additional }
    }

    /// Encodes each part.
    pub fn encode(&self) -> (r: UnsignedEncodedPayload)
        requires
            self.extra.wf(),
        ensures
            r.call@ == self.call@,
            r.extra@ == extra_bytes(self.extra),
            r.additional@ == additional_bytes(self.additional),
            r.bytes() == payload_bytes(self.call@, self.extra, self.additional),
    {
        let mut call: Vec<u8> = Vec::new();
        append_bytes(&mut call, self.call.as_slice());
        UnsignedEncodedPayload {
            call,
            extra: self.extra.encode(),
            additional: self.additional.encode(),
        }
    }
}

impl UnsignedEncodedPayload {
    /// The bytes that are signed.
    pub open spec fn bytes(self) -> Seq<u8> {
        self.call@ + self.extra@ + self.additional@
    }

    /// The bytes that are signed.
    pub fn to_bytes(&self) -> (r: Vec<u8>)
        ensures
            r@ == self.bytes(),
    {
        let mut r: Vec<u8> = Vec::new();
        append_bytes(&mut r, self.call.as_slice());
        append_bytes(&mut r, self.extra.as_slice());
        append_bytes(&mut r, self.additional.as_slice());
        r
    }
}

/// The tagged bytes of an address.
pub fn encode_address(a: &MultiAddress) -> (r: Vec<u8>)
    ensures
        r@ == address_bytes(*a),
{
    match a {
        MultiAddress::Id(id) => {
            let mut r: Vec<u8> = Vec::new();
            r.push(0u8);
            append_bytes(&mut r, id.0.as_slice());
            r
        },
    }
}

/// The tagged bytes of a signature.
pub fn encode_signature(s: &MultiSignature) -> (r: Vec<u8>)
    ensures
        r@ == signature_bytes(*s),
{
    match s {
        MultiSignature::Sr25519(sig) => {
            let mut r: Vec<u8> = Vec::new();
            r.push(1u8);
            append_bytes(&mut r, sig.0.as_slice());
            r
        },
    }
}

/// The signed extrinsic for an encoded payload, the signer's account id and
/// the signature over the payload's bytes; `EncodingOverflow` when the body is
/// longer than `u32::MAX` bytes.
pub fn sign(payload: &UnsignedEncodedPayload, account_id: &AccountId, signature: &Signature) -> (r:
    Result<Vec<u8>, BuildError>)
    ensures
        extrinsic_body(payload.extra@, payload.call@, *account_id, *signature).len() <= u32::MAX
            ==> r == Ok::<Vec<u8>, BuildError>(r->Ok_0) && r->Ok_0@ == extrinsic_bytes(
            payload.extra@,
            payload.call@,
            *account_id,
            *signature,
        ),
        extrinsic_body(payload.extra@, payload.call@, *account_id, *signature).len() > u32::MAX
            ==> r == Err::<Vec<u8>, BuildError>(BuildError::EncodingOverflow),
{
    let mut inner: Vec<u8> = Vec::new();
    inner.push(SIGNED_V4);
    let a = encode_address(&MultiAddress::Id(*account_id));
    append_bytes(&mut inner, a.as_slice());
    let s = encode_signature(&MultiSignature::Sr25519(*signature));
    append_bytes(&mut inner, s.as_slice());
    append_bytes(&mut inner, payload.extra.as_slice());
    append_bytes(&mut inner, payload.call.as_slice());
    assert(inner@ == extrinsic_body(payload.extra@, payload.call@, *account_id, *signature));
    if inner.len() > u32::MAX as usize {
        return Err(BuildError::EncodingOverflow);
    }
    let mut r = encode_compact_u32(inner.len() as u32);
    append_bytes(&mut r, inner.as_slice());
    Ok(r)
}

} // verus!
