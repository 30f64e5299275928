//! JSON-RPC request parameters for the chain queries, and the parsing of
//! their hex-encoded replies.
use crate::codec::{decode_u32, le_value};
use crate::session::Query;
use crate::types::{AccountId, BlockHash};
use vstd::prelude::*;
use vstd::slice::slice_subrange;
use vstd::string::StringExecFns;

verus! {

/// `[` in ASCII.
pub const OPEN: u8 = 91;

/// `]` in ASCII.
pub const CLOSE: u8 = 93;

/// `,` in ASCII.
pub const COMMA: u8 = 44;

/// `0` in ASCII.
pub const DIGIT_ZERO: u8 = 48;

/// `x` in ASCII.
pub const LETTER_X: u8 = 120;

/// The JSON text of a string value.
pub uninterp spec fn json_text(s: Seq<char>) -> Seq<u8>;

/// Relies on serde_json::to_vec: a string always serializes, to its quoted
/// and escaped JSON form.
#[verifier::external_body]
fn json_string(s: &str) -> (r: Vec<u8>)
    ensures
        r@ == json_text(s@),
{
    serde_json::to_vec(s).unwrap()
}

/// The lower-case hex digit of a value below 16.
pub open spec fn hex_char(d: nat) -> char {
    if d < 10 {
        (d + 48) as char
    } else {
        (d + 87) as char
    }
}

/// Two lower-case hex digits for each byte, high nibble first.
pub open spec fn hex_of(b: Seq<u8>) -> Seq<char>
    decreases b.len(),
{
    if b.len() == 0 {
        Seq::empty()
    } else {
        seq![hex_char(b[0] as nat / 16), hex_char(b[0] as nat % 16)] + hex_of(b.drop_first())
    }
}

/// Relies on hex::encode: two lower-case digits for each byte.
#[verifier::external_body]
fn hex_encode(b: &[u8]) -> (r: String)
    ensures
        r@ == hex_of(b@),
{
    hex::encode(b)
}

/// The bytes in lower-case hex, prefixed with `0x`.
fn to_hex(b: &[u8]) -> (r: String)
    ensures
        r@ == seq!['0', 'x'] + hex_of(b@),
{
    let h = hex_encode(b);
    let r = String::from_str("0x").concat(h.as_str());
    proof {
        reveal_strlit("0x");
    }
    r
}

/// The value of a hex digit of either case.
pub open spec fn hex_digit(c: u8) -> Option<nat> {
    if 48 <= c <= 57 {
        Some((c - 48) as nat)
    } else if 97 <= c <= 102 {
        Some((c - 87) as nat)
    } else if 65 <= c <= 70 {
        Some((c - 55) as nat)
    } else {
        None
    }
}

/// Whether `s` is an even number of hex digits.
pub open spec fn hex_valid(s: Seq<u8>) -> bool {
    s.len() % 2 == 0 && forall|i: int| 0 <= i < s.len() ==> (#[trigger] hex_digit(s[i])).is_some()
}

/// The bytes that pairs of hex digits denote.
pub open spec fn hex_bytes(s: Seq<u8>) -> Seq<u8>
    decreases s.len(),
{
    if s.len() < 2 {
        Seq::empty()
    } else {
        seq![(16 * hex_digit(s[0]).unwrap() + hex_digit(s[1]).unwrap()) as u8] + hex_bytes(
            s.subrange(2, s.len() as int),
        )
    }
}

/// Relies on hex::decode: it fails on an odd length or a non-hex character,
/// and otherwise turns each pair of digits into a byte.
#[verifier::external_body]
fn hex_decode(s: &[u8]) -> (r: Option<Vec<u8>>)
    ensures
        r.is_some() == hex_valid(s@),
        r.is_some() ==> r.unwrap()@ == hex_bytes(s@),
{
    hex::decode(s).ok()
}

/// Positional JSON-RPC parameters, kept as the JSON text written so far.
#[derive(Clone, Debug, Default)]
pub struct RpcParams(Vec<u8>);

impl RpcParams {
    /// The JSON text written so far.
    pub closed spec fn text(self) -> Seq<u8> {
        self.0@
    }

    /// An empty set of parameters.
    pub fn new() -> (r: Self)
        ensures
            r.text() == Seq::<u8>::empty(),
    {
        RpcParams(Vec::new())
    }

    /// Adds a string parameter in its JSON form, after an opening bracket or
    /// a comma.
    pub fn push(&mut self, param: &str) -> (r: Result<(), ()>)
        ensures
            r is Ok,
            final(self).text() == old(self).text() + seq![
                if old(self).text().len() == 0 {
                    OPEN
                } else {
                    COMMA
                },
            ] + json_text(param@),
    {
        if self.0.len() == 0 {
            self.0.push(OPEN);
        } else {
            self.0.push(COMMA);
        }
        let j = json_string(param);
        crate::codec::append_bytes(&mut self.0, j.as_slice());
        Ok(())
    }

    /// The JSON array of the parameters, or `None` when there are none.
    pub fn build(self) -> (r: Option<Vec<u8>>)
        ensures
            self.text().len() == 0 ==> r.is_none(),
            self.text().len() > 0 ==> r.is_some() && r.unwrap()@ == self.text() + seq![CLOSE],
    {
        if self.0.len() == 0 {
            None
        } else {
            let mut v = self.0;
            v.push(CLOSE);
            Some(v)
        }
    }
}

/// The method name of a query.
pub open spec fn method_of(q: Query) -> Seq<char> {
    match q {
        Query::AccountNextIndex(_) => "system_accountNextIndex"@,
        Query::BestBlockHash => "chain_getBlockHash"@,
        Query::FinalizedBlockHash => "chain_getFinalizedHead"@,
        Query::AccountNonce(_, _) => "state_call"@,
        Query::GenesisHash => "chainSpec_v1_genesisHash"@,
        Query::Header(_) => "chain_getHeader"@,
        Query::RuntimeVersion => "state_getRuntimeVersion"@,
    }
}

/// The JSON-RPC method that answers a query.
pub fn query_method(q: &Query) -> (r: &'static str)
    ensures
        r@ == method_of(*q),
{
    match q {
        Query::AccountNextIndex(_) => "system_accountNextIndex",
        Query::BestBlockHash => "chain_getBlockHash",
        Query::FinalizedBlockHash => "chain_getFinalizedHead",
        Query::AccountNonce(_, _) => "state_call",
        Query::GenesisHash => "chainSpec_v1_genesisHash",
        Query::Header(_) => "chain_getHeader",
        Query::RuntimeVersion => "state_getRuntimeVersion",
    }
}

/// The runtime API call that reads an account's nonce.
pub open spec fn nonce_api() -> Seq<char> {
    "AccountNonceApi_account_nonce"@
}

/// The hex text of a 32-byte value.
pub open spec fn hex32(b: [u8; 32]) -> Seq<char> {
    seq!['0', 'x'] + hex_of(b@)
}

/// The parameters of a query. `address` is the account's textual address,
/// which the pending-pool index query takes.
pub open spec fn params_of(q: Query, address: Seq<char>) -> Option<Seq<u8>> {
    match q {
        Query::AccountNextIndex(_) => Some(seq![OPEN] + json_text(address) + seq![CLOSE]),
        Query::AccountNonce(acc, h) => Some(
            seq![OPEN] + json_text(nonce_api()) + seq![COMMA] + json_text(hex32(acc.0)) + seq![
                COMMA,
            ] + json_text(hex32(h.0)) + seq![CLOSE],
        ),
        Query::Header(Some(h)) => Some(seq![OPEN] + json_text(hex32(h.0)) + seq![CLOSE]),
        _ => None,
    }
}

/// The JSON parameters of a query.
pub fn query_params(q: &Query, address: &str) -> (r: Option<Vec<u8>>)
    ensures
        r.is_some() == params_of(*q, address@).is_some(),
        r.is_some() ==> r.unwrap()@ == params_of(*q, address@).unwrap(),
{
    match q {
        Query::AccountNextIndex(_) => {
            let mut p = RpcParams::new();
            let _ = p.push(address);
            p.build()
        },
        Query::AccountNonce(acc, h) => {
            let mut p = RpcParams::new();
            let _ = p.push("AccountNonceApi_account_nonce");
            let a = to_hex(acc.0.as_slice());
            let _ = p.push(a.as_str());
            let b = to_hex(h.0.as_slice());
            let _ = p.push(b.as_str());
            let r = p.build();
            proof {
                reveal_strlit("AccountNonceApi_account_nonce");
            }
            r
        },
        Query::Header(Some(h)) => {
            let mut p = RpcParams::new();
            let b = to_hex(h.0.as_slice());
            let _ = p.push(b.as_str());
            p.build()
        },
        _ => None,
    }
}

/// The bytes of a `0x`-prefixed hex reply, or `None` when it is not one.
pub open spec fn reply_bytes(s: Seq<u8>) -> Option<Seq<u8>> {
    if s.len() >= 2 && s[0] == DIGIT_ZERO && s[1] == LETTER_X && hex_valid(s.subrange(2, s.len() as int)) {
        Some(hex_bytes(s.subrange(2, s.len() as int)))
    } else {
        None
    }
}

fn decode_reply(s: &[u8]) -> (r: Option<Vec<u8>>)
    ensures
        r.is_some() == reply_bytes(s@).is_some(),
        r.is_some() ==> r.unwrap()@ == reply_bytes(s@).unwrap(),
{
    if s.len() < 2 || s[0] != DIGIT_ZERO || s[1] != LETTER_X {
        return None;
    }
    hex_decode(slice_subrange(s, 2, s.len()))
}

/// The block hash in a `0x`-prefixed hex reply of exactly 32 bytes.
pub fn decode_hash_reply(s: &[u8]) -> (r: Option<BlockHash>)
    ensures
        r.is_some() == (reply_bytes(s@).is_some() && reply_bytes(s@).unwrap().len() == 32),
        r.is_some() ==> r.unwrap().0@ == reply_bytes(s@).unwrap(),
{
    let b = decode_reply(s);
    match b {
        None => None,
        Some(v) => {
            if v.len() != 32 {
                return None;
            }
            let mut h: [u8; 32] = [0u8; 32];
            let mut i: usize = 0;
            while i < 32
                invariant
                    0 <= i <= 32,
                    v@.len() == 32,
                    forall|j: int| 0 <= j < i ==> h@[j] == v@[j],
                decreases 32 - i,
            {
                h[i] = v[i];
                i = i + 1;
            }
            assert(h@ == v@);
            Some(BlockHash(h))
        },
    }
}

/// The nonce in a `0x`-prefixed hex reply holding at least four bytes: the
/// first four, little-endian.
pub fn decode_nonce_reply(s: &[u8]) -> (r: Option<u32>)
    ensures
        r.is_some() == (reply_bytes(s@).is_some() && reply_bytes(s@).unwrap().len() >= 4),
        r.is_some() ==> r.unwrap() == le_value(reply_bytes(s@).unwrap().take(4)) as u32,
{
    let b = decode_reply(s);
    match b {
        None => None,
        Some(v) => decode_u32(v.as_slice()),
    }
}

/// The value of a sequence of hex digits, most significant first.
pub open spec fn hex_value(s: Seq<u8>) -> nat
    decreases s.len(),
{
    if s.len() == 0 {
        0
    } else {
        16 * hex_value(s.drop_last()) + hex_digit(s.last()).unwrap()
    }
}

/// Whether every byte of `s` is a hex digit.
pub open spec fn all_hex(s: Seq<u8>) -> bool {
    forall|i: int| 0 <= i < s.len() ==> (#[trigger] hex_digit(s[i])).is_some()
}

proof fn lemma_hex_value_grows(s: Seq<u8>, i: int)
    requires
        0 <= i <= s.len(),
    ensures
        hex_value(s.take(i)) <= hex_value(s),
    decreases s.len(),
{
    if i < s.len() {
        lemma_hex_value_grows(s.drop_last(), i);
        assert(s.drop_last().take(i) == s.take(i));
    } else {
        assert(s.take(i) == s);
    }
}

/// A block number in a reply of the form `0x` followed by hex digits, when it
/// fits in 32 bits.
pub open spec fn block_number_of(s: Seq<u8>) -> Option<u32> {
    let digits = s.subrange(2, s.len() as int);
    if s.len() > 2 && s[0] == DIGIT_ZERO && s[1] == LETTER_X && all_hex(digits) && hex_value(
        digits,
    ) <= u32::MAX {
        Some(hex_value(digits) as u32)
    } else {
        None
    }
}

/// Parses the block number of a header reply.
pub fn parse_block_number(s: &[u8]) -> (r: Option<u32>)
    ensures
        r == block_number_of(s@),
{
    if s.len() <= 2 || s[0] != DIGIT_ZERO || s[1] != LETTER_X {
        return None;
    }
    let ghost digits = s@.subrange(2, s@.len() as int);
    let mut i: usize = 2;
    while i < s.len()
        invariant
            2 <= i <= s@.len(),
            digits == s@.subrange(2, s@.len() as int),
            all_hex(digits.take(i - 2)),
        decreases s@.len() - i,
    {
        if !(48 <= s[i] && s[i] <= 57 || 97 <= s[i] && s[i] <= 102 || 65 <= s[i] && s[i] <= 70) {
            assert(hex_digit(digits[i - 2]) is None);
            return None;
        }
        i = i + 1;
        assert(digits.take(i - 2) == digits.take(i - 3).push(digits[i - 3]));
    }
    assert(digits.take(i - 2) == digits);
    let mut acc: u64 = 0;
    let mut i: usize = 2;
    while i < s.len()
        invariant
            2 <= i <= s@.len(),
            digits == s@.subrange(2, s@.len() as int),
            all_hex(digits),
            acc as nat == hex_value(digits.take(i - 2)),
            acc <= u32::MAX,
        decreases s@.len() - i,
    {
        let c = s[i];
        let d: u64 = if c <= 57 {
            (c - 48) as u64
        } else if c >= 97 {
            (c - 87) as u64
        } else {
            (c - 55) as u64
        };
        assert(hex_digit(digits[i - 2]) == Some(d as nat));
        let next = acc * 16 + d;
        assert(digits.take(i - 1).drop_last() == digits.take(i - 2));
        if next > 0xffff_ffff {
            proof {
                lemma_hex_value_grows(digits, i - 1);
            }
            return None;
        }
        acc = next;
        i = i + 1;
    }
    assert(digits.take(i - 2) == digits);
    Some(acc as u32)
}

/// The parameters of a submission: the extrinsic in `0x`-prefixed hex.
pub fn submit_params(extrinsic: &[u8]) -> (r: Vec<u8>)
    ensures
        r@ == seq![OPEN] + json_text(seq!['0', 'x'] + hex_of(extrinsic@)) + seq![CLOSE],
{
    let mut p = RpcParams::new();
    let h = to_hex(extrinsic);
    let _ = p.push(h.as_str());
    p.build().unwrap()
}

} // verus!
