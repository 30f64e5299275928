use avail_light_tx::mortality::{encode_era, mortal, Era};
use avail_light_tx::payload::{
    sign, Additional, BuildError, Extra, UnsignedEncodedPayload, UnsignedPayload,
};
use avail_light_tx::rpc::{
    decode_hash_reply, decode_nonce_reply, parse_block_number, query_method, query_params,
    submit_params, RpcParams,
};
use avail_light_tx::session::{
    resolve_mortality, ExtrinsicExtra, Mortality, Nonce, PayloadBuild, Query, Reply,
};
use avail_light_tx::types::{AccountId, BlockHash, RuntimeVersion, Signature};

fn account() -> AccountId {
    let mut a = [0u8; 32];
    for (i, b) in a.iter_mut().enumerate() {
        *b = i as u8;
    }
    AccountId(a)
}

fn request(nonce: Nonce, mortality: Mortality) -> ExtrinsicExtra {
    ExtrinsicExtra { nonce: Some(nonce), mortality: Some(mortality), tip: None, app_id: None }
}

/// Answers every pending query of a session from fixed chain values.
fn drive(s: &mut PayloadBuild, best: BlockHash, height: u32, genesis: BlockHash, chain_nonce: u32) -> Vec<Query> {
    let mut asked = Vec::new();
    while let Some(q) = s.next_query() {
        asked.push(q);
        let reply = match q {
            Query::AccountNextIndex(_) | Query::AccountNonce(_, _) => Reply::Index(chain_nonce),
            Query::BestBlockHash | Query::FinalizedBlockHash => Reply::Hash(best),
            Query::GenesisHash => Reply::Hash(genesis),
            Query::Header(_) => Reply::BlockNumber(height),
            Query::RuntimeVersion => Reply::Version(RuntimeVersion { spec_version: 5, transaction_version: 2 }),
        };
        s.answer(reply).unwrap();
    }
    asked
}

fn fixture_payload() -> Vec<u8> {
    let mut v = vec![0xAB, 0x83, 0x00, 0x0c, 0x00, 0x00, 5, 0, 0, 0, 2, 0, 0, 0];
    v.extend_from_slice(&[0x22; 32]);
    v.extend_from_slice(&[0x11; 32]);
    v
}

#[test]
fn end_to_end_payload_fixture() {
    let mut s = PayloadBuild::new(vec![0xAB], account(), request(Nonce::Custom(3), Mortality::Period(16)));
    let asked = drive(&mut s, BlockHash([0x11; 32]), 1000, BlockHash([0x22; 32]), 99);
    assert_eq!(
        asked,
        vec![Query::GenesisHash, Query::BestBlockHash, Query::Header(Some(BlockHash([0x11; 32]))), Query::RuntimeVersion]
    );
    let p = s.finish().unwrap();
    assert_eq!(p.to_bytes(), fixture_payload());
    assert_eq!(p.extra, vec![0x83, 0x00, 0x0c, 0x00, 0x00]);
}

#[test]
fn explicit_anchor_gives_same_fixture() {
    let m = Mortality::Custom(16, 1000, BlockHash([0x11; 32]));
    let mut s = PayloadBuild::new(vec![0xAB], account(), request(Nonce::Custom(3), m));
    drive(&mut s, BlockHash([0x99; 32]), 5, BlockHash([0x22; 32]), 99);
    assert_eq!(s.finish().unwrap().to_bytes(), fixture_payload());
}

#[test]
fn encoding_is_deterministic() {
    let extra = Extra { mortality: mortal(16, 1000), nonce: 3, tip: 0, app_id: 0 };
    let add = Additional::new(5, 2, BlockHash([0x22; 32]), BlockHash([0x11; 32]));
    let a = UnsignedPayload::new(vec![0xAB], extra, add).encode().to_bytes();
    let b = UnsignedPayload::new(vec![0xAB], extra, add).encode().to_bytes();
    assert_eq!(a, b);
    assert_eq!(a, fixture_payload());
}

#[test]
fn mortality_period_ten_becomes_sixteen() {
    assert_eq!(mortal(10, 1000), Era::Mortal(16, 8));
}

#[test]
fn mortality_small_periods_clamp_to_four() {
    assert_eq!(mortal(0, 7), Era::Mortal(4, 3));
    assert_eq!(mortal(1, 7), Era::Mortal(4, 3));
    assert_eq!(mortal(4, 7), Era::Mortal(4, 3));
}

#[test]
fn mortality_large_period_clamps_and_quantizes() {
    assert_eq!(mortal(1_000_000, 70_000), Era::Mortal(65536, 4464));
    assert_eq!(mortal(65536, 17), Era::Mortal(65536, 16));
    assert_eq!(mortal(8192, 8191), Era::Mortal(8192, 8190));
}

#[test]
fn era_encodings() {
    assert_eq!(encode_era(Era::Immortal), vec![0x00]);
    assert_eq!(encode_era(mortal(16, 1000)), vec![0x83, 0x00]);
    assert_eq!(encode_era(mortal(64, 42)), vec![0xa5, 0x02]);
    assert_eq!(encode_era(mortal(65536, 70_000)), vec![0x7f, 0x11]);
}

#[test]
fn immortal_is_anchored_at_genesis() {
    let (era, anchor) = resolve_mortality(Mortality::Immortal, 10, BlockHash([1; 32]), BlockHash([2; 32]));
    assert_eq!(era, Era::Immortal);
    assert_eq!(anchor, BlockHash([2; 32]));
}

#[test]
fn default_mortality_is_period_32_at_best_block() {
    let req = ExtrinsicExtra { nonce: Some(Nonce::Custom(0)), mortality: None, tip: None, app_id: None };
    let mut s = PayloadBuild::new(vec![], account(), req);
    drive(&mut s, BlockHash([0x33; 32]), 100, BlockHash([0x22; 32]), 0);
    let p = s.finish().unwrap();
    // period 32, phase 100 % 32 = 4: 4 | 4 << 4 = 0x44
    assert_eq!(&p.extra[..2], &[0x44, 0x00]);
    assert_eq!(&p.additional[40..], &[0x33; 32]);
}

#[test]
fn explicit_nonce_needs_no_query() {
    let s = PayloadBuild::new(vec![1], account(), request(Nonce::Custom(7), Mortality::Period(16)));
    assert_eq!(s.nonce, Some(7));
    assert_eq!(s.next_query(), Some(Query::GenesisHash));
}

#[test]
fn finalized_nonce_queries_in_order() {
    let mut s = PayloadBuild::new(vec![1], account(), request(Nonce::FinalizedBlock, Mortality::Period(16)));
    let asked = drive(&mut s, BlockHash([0x44; 32]), 10, BlockHash([0x22; 32]), 12);
    assert_eq!(asked[0], Query::FinalizedBlockHash);
    assert_eq!(asked[1], Query::AccountNonce(account(), BlockHash([0x44; 32])));
    assert_eq!(asked[2], Query::GenesisHash);
    assert_eq!(s.nonce, Some(12));
}

#[test]
fn best_block_and_pool_nonce_queries() {
    let mut s = PayloadBuild::new(vec![1], account(), ExtrinsicExtra { nonce: None, mortality: None, tip: None, app_id: None });
    let asked = drive(&mut s, BlockHash([0x44; 32]), 10, BlockHash([0x22; 32]), 65);
    assert_eq!(asked[0], Query::AccountNextIndex(account()));
    assert_eq!(asked[1], Query::GenesisHash);
    let p = s.finish().unwrap();
    // nonce 65 in two-byte compact form
    assert_eq!(&p.extra[2..4], &[0x05, 0x01]);
}

#[test]
fn best_block_nonce_queries() {
    let mut s = PayloadBuild::new(vec![1], account(), request(Nonce::BestBlock, Mortality::Period(16)));
    let asked = drive(&mut s, BlockHash([0x45; 32]), 10, BlockHash([0x22; 32]), 1);
    assert_eq!(asked[0], Query::BestBlockHash);
    assert_eq!(asked[1], Query::AccountNonce(account(), BlockHash([0x45; 32])));
}

#[test]
fn failed_query_is_transport_failure() {
    let mut s = PayloadBuild::new(vec![1], account(), request(Nonce::Custom(1), Mortality::Period(16)));
    assert_eq!(s.answer(Reply::Failed), Err(BuildError::TransportFailure));
    assert_eq!(s.next_query(), Some(Query::GenesisHash));
}

#[test]
fn wrong_reply_is_invalid_response() {
    let mut s = PayloadBuild::new(vec![1], account(), request(Nonce::Custom(1), Mortality::Period(16)));
    assert_eq!(s.answer(Reply::Index(4)), Err(BuildError::InvalidChainResponse));
    assert_eq!(s.next_query(), Some(Query::GenesisHash));
    assert!(s.finish().is_none());
}

#[test]
fn tip_and_app_id_compact_forms() {
    let extra = Extra { mortality: Era::Immortal, nonce: 16384, tip: 1u128 << 40, app_id: 1 << 30 };
    assert_eq!(
        extra.encode(),
        vec![0x00, 0x02, 0x00, 0x01, 0x00, 0x0b, 0, 0, 0, 0, 0, 1, 0x03, 0, 0, 0, 0x40]
    );
}

fn signed_fixture() -> (UnsignedEncodedPayload, Vec<u8>) {
    let extra = Extra { mortality: mortal(16, 1000), nonce: 3, tip: 0, app_id: 0 };
    let add = Additional::new(5, 2, BlockHash([0x22; 32]), BlockHash([0x11; 32]));
    let p = UnsignedPayload::new(vec![0xAB], extra, add).encode();
    let x = sign(&p, &account(), &Signature([0x55; 64])).unwrap();
    (p, x)
}

#[test]
fn signed_extrinsic_layout() {
    let (_, x) = signed_fixture();
    // body: 1 + 33 + 65 + 5 + 1 = 105 bytes, two-byte compact prefix
    assert_eq!(&x[..2], &[0xa5, 0x01]);
    assert_eq!(x[2], 0x84);
    assert_eq!(x[3], 0x00);
    assert_eq!(&x[4..36], &account().0);
    assert_eq!(x[36], 0x01);
    assert_eq!(&x[37..101], &[0x55; 64]);
    assert_eq!(*x.last().unwrap(), 0xAB);
}

#[test]
fn signed_length_prefix_covers_rest() {
    let (_, x) = signed_fixture();
    let v = u16::from_le_bytes([x[0], x[1]]);
    assert_eq!(v & 3, 1);
    assert_eq!((v >> 2) as usize, x.len() - 2);
}

#[test]
fn signed_extra_matches_payload_extra() {
    let (p, x) = signed_fixture();
    assert_eq!(&x[101..101 + p.extra.len()], p.extra.as_slice());
    assert_eq!(&p.to_bytes()[1..1 + p.extra.len()], p.extra.as_slice());
}

#[test]
fn rpc_params_build() {
    assert_eq!(RpcParams::new().build(), None);
    let mut p = RpcParams::new();
    assert_eq!(p.push("a"), Ok(()));
    assert_eq!(p.push("b\"c"), Ok(()));
    assert_eq!(p.build().unwrap(), b"[\"a\",\"b\\\"c\"]".to_vec());
}

#[test]
fn header_query_params_hold_hex_hash() {
    let q = Query::Header(Some(BlockHash([0xab; 32])));
    let expected = format!("[\"0x{}\"]", "ab".repeat(32));
    assert_eq!(query_params(&q, "addr").unwrap(), expected.into_bytes());
    assert_eq!(query_method(&q), "chain_getHeader");
    assert_eq!(query_params(&Query::GenesisHash, "addr"), None);
    assert_eq!(query_params(&Query::Header(None), "addr"), None);
    assert_eq!(query_method(&Query::Header(None)), "chain_getHeader");
}

#[test]
fn account_nonce_query_params() {
    let q = Query::AccountNonce(AccountId([1; 32]), BlockHash([0xf0; 32]));
    let expected = format!(
        "[\"AccountNonceApi_account_nonce\",\"0x{}\",\"0x{}\"]",
        "01".repeat(32),
        "f0".repeat(32)
    );
    assert_eq!(query_params(&q, "addr").unwrap(), expected.into_bytes());
    assert_eq!(query_method(&q), "state_call");
    let n = Query::AccountNextIndex(AccountId([1; 32]));
    assert_eq!(query_params(&n, "5Grw").unwrap(), b"[\"5Grw\"]".to_vec());
}

#[test]
fn nonce_reply_decoding() {
    assert_eq!(decode_nonce_reply(b"0x07000000"), Some(7));
    assert_eq!(decode_nonce_reply(b"0x0001000000"), Some(256));
    assert_eq!(decode_nonce_reply(b"0x070000"), None);
    assert_eq!(decode_nonce_reply(b"07000000"), None);
    assert_eq!(decode_nonce_reply(b"0x0700000g"), None);
}

#[test]
fn hash_reply_decoding() {
    let s = format!("0x{}", "Ab".repeat(32));
    assert_eq!(decode_hash_reply(s.as_bytes()), Some(BlockHash([0xab; 32])));
    assert_eq!(decode_hash_reply(b"0xab"), None);
}

#[test]
fn block_number_parsing() {
    assert_eq!(parse_block_number(b"0x3e8"), Some(1000));
    assert_eq!(parse_block_number(b"0xFFFFFFFF"), Some(u32::MAX));
    assert_eq!(parse_block_number(b"0x100000000"), None);
    assert_eq!(parse_block_number(b"0x"), None);
    assert_eq!(parse_block_number(b"3e8"), None);
    assert_eq!(parse_block_number(b"0x3z8"), None);
}

#[test]
fn submit_params_hold_hex_extrinsic() {
    assert_eq!(submit_params(&[0x0a, 0xff]), b"[\"0x0aff\"]".to_vec());
}
