//! Properties that relate several operations of the library.
use crate::codec::{compact_bytes, compact_prefix, lemma_compact_prefix};
use crate::payload::{
    extra_bytes, extrinsic_body, extrinsic_bytes, payload_bytes, Additional, Extra,
};
use crate::session::{Nonce, PayloadBuild, Query, Reply};
use crate::types::{AccountId, BlockHash, Signature};
use vstd::prelude::*;

verus! {

/// Encoding an unsigned payload depends on its call, extra and additional
/// material alone: equal inputs give byte-identical payloads.
pub proof fn law_payload_deterministic(
    call1: Seq<u8>,
    call2: Seq<u8>,
    e1: Extra,
    e2: Extra,
    a1: Additional,
    a2: Additional,
)
    requires
        call1 == call2,
        e1 == e2,
        a1 == a2,
    ensures
        payload_bytes(call1, e1, a1) == payload_bytes(call2, e2, a2),
{
}

/// The extra bytes inside a signed extrinsic are those inside the unsigned
/// payload that was signed: they follow the length prefix, the version byte,
/// the tagged address and the tagged signature.
pub proof fn law_extra_round_trip(
    call: Seq<u8>,
    e: Extra,
    a: Additional,
    account_id: AccountId,
    signature: Signature,
)
    ensures
        ({
            let x = extra_bytes(e);
            let body = extrinsic_body(x, call, account_id, signature);
            let signed = extrinsic_bytes(x, call, account_id, signature);
            let start = compact_bytes(body.len()).len() + 99;
            &&& signed.subrange(start as int, (start + x.len()) as int) == x
            &&& payload_bytes(call, e, a).subrange(call.len() as int, (call.len() + x.len()) as int) == x
        }),
{
    let x = extra_bytes(e);
    let body = extrinsic_body(x, call, account_id, signature);
    let signed = extrinsic_bytes(x, call, account_id, signature);
    let pre = compact_bytes(body.len());
    assert(account_id.0@.len() == 32);
    assert(signature.0@.len() == 64);
    let head = pre + seq![crate::payload::SIGNED_V4] + (seq![0u8] + account_id.0@) + (seq![1u8]
        + signature.0@);
    assert(head.len() == pre.len() + 99);
    assert(signed == head + x + call);
    assert(signed.subrange(head.len() as int, (head.len() + x.len()) as int) == x);
    let p = payload_bytes(call, e, a);
    assert(p == call + x + crate::payload::additional_bytes(a));
    assert(p.subrange(call.len() as int, (call.len() + x.len()) as int) == x);
}

/// The length prefix of a signed extrinsic counts exactly the bytes that
/// follow it: reading the prefix and then that many bytes ends the buffer.
pub proof fn law_length_prefix(
    extra: Seq<u8>,
    call: Seq<u8>,
    account_id: AccountId,
    signature: Signature,
)
    requires
        extrinsic_body(extra, call, account_id, signature).len() <= u32::MAX,
    ensures
        ({
            let signed = extrinsic_bytes(extra, call, account_id, signature);
            let body = extrinsic_body(extra, call, account_id, signature);
            &&& compact_prefix(signed) is Some
            &&& compact_prefix(signed).unwrap().1 + compact_prefix(signed).unwrap().0
                == signed.len()
            &&& signed.subrange(compact_prefix(signed).unwrap().1 as int, signed.len() as int)
                == body
        }),
{
    let body = extrinsic_body(extra, call, account_id, signature);
    let pre = compact_bytes(body.len());
    lemma_compact_prefix(body.len(), body);
    let signed = extrinsic_bytes(extra, call, account_id, signature);
    assert(signed == pre + body);
    assert(signed.subrange(pre.len() as int, signed.len() as int) == body);
}

/// A custom nonce is used as given: no chain query is made for it, and the
/// first query is for the genesis hash.
pub proof fn law_custom_nonce_without_query(s: PayloadBuild, n: u32)
    requires
        s.wf(),
        s.request.nonce == Some(Nonce::Custom(n)),
        s.genesis_hash.is_none(),
    ensures
        s.nonce == Some(n),
        s.pending() == Some(Query::GenesisHash),
{
}

/// With the finalized-block policy the nonce takes two queries, in order: the
/// finalized hash, then the on-chain nonce at that hash; its answer is the
/// nonce, and the next query is for the genesis hash.
pub proof fn law_finalized_nonce_queries(s: PayloadBuild, h: BlockHash, n: u32)
    requires
        s.wf(),
        s.request.nonce == Some(Nonce::FinalizedBlock),
        s.nonce.is_none(),
        s.nonce_block.is_none(),
    ensures
        s.pending() == Some(Query::FinalizedBlockHash),
        PayloadBuild::fits(Query::FinalizedBlockHash, Reply::Hash(h)),
        s.after(Reply::Hash(h)).wf(),
        s.after(Reply::Hash(h)).pending() == Some(Query::AccountNonce(s.account_id, h)),
        PayloadBuild::fits(Query::AccountNonce(s.account_id, h), Reply::Index(n)),
        s.after(Reply::Hash(h)).after(Reply::Index(n)).wf(),
        s.after(Reply::Hash(h)).after(Reply::Index(n)).nonce == Some(n),
        s.after(Reply::Hash(h)).after(Reply::Index(n)).pending() == Some(Query::GenesisHash),
{
}

} // verus!
