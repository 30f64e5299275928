//! Mortality windows: a requested validity period turned into a checked
//! (period, phase) era and the block hash it is anchored to.
use crate::codec::{encode_u16, le_bytes};
use crate::types::BlockHash;
use vstd::arithmetic::power::pow;
use vstd::arithmetic::power2::{
    lemma2_to64, lemma_pow2, lemma_pow2_adds, lemma_pow2_pos, lemma_pow2_strictly_increases,
    lemma_pow2_unfold, pow2,
};
use vstd::prelude::*;

verus! {

/// The largest mortality period.
pub const MAX_PERIOD: u64 = 65536;

/// The smallest mortality period.
pub const MIN_PERIOD: u64 = 4;

/// How long a transaction stays valid.
#[derive(Clone, Copy, Debug, PartialEq, Eq)]
pub enum Era {
    /// Valid forever.
    Immortal,
    /// Valid for `period` blocks from the block whose height modulo `period` is `phase`.
    Mortal(u64, u64),
}

/// The base-two logarithm of `n`, rounded down.
pub open spec fn log2(n: nat) -> nat
    decreases n,
{
    if n <= 1 {
        0
    } else {
        1 + log2(n / 2)
    }
}

/// Whether `p` is the period that a requested length normalizes to: the
/// smallest power of two that is at least the length and at least the
/// minimum, clamped to the maximum.
pub open spec fn normalized_period(len: nat, p: nat) -> bool {
    exists|k: nat|
        #![trigger pow2(k)]
        2 <= k <= 16 && p == pow2(k) && (len <= p || k == 16) && (k == 2 || pow2(
            (k - 1) as nat,
        ) < len)
}

/// The period that a requested length normalizes to.
pub open spec fn mortal_period(len: nat) -> nat {
    choose|p: nat| normalized_period(len, p)
}

/// Phases are kept at a granularity of `period / 4096`, at least one.
pub open spec fn quantize_factor(period: nat) -> nat {
    if period / 4096 >= 1 {
        period / 4096
    } else {
        1
    }
}

/// The era of period `p` anchored at `height`: its phase is the height modulo
/// the period, rounded down to the granularity.
pub open spec fn mortal_spec(p: nat, height: nat) -> Era {
    Era::Mortal(p as u64, ((height % p) / quantize_factor(p) * quantize_factor(p)) as u64)
}

/// The wire bytes of an era.
pub open spec fn era_bytes(e: Era) -> Seq<u8> {
    match e {
        Era::Immortal => seq![0u8],
        Era::Mortal(period, phase) => le_bytes(
            ((log2(period as nat) - 1) + 16 * (phase as nat / quantize_factor(period as nat))) as nat,
            2,
        ),
    }
}

/// Whether an era has a power-of-two period within bounds and a phase inside it.
pub open spec fn era_wf(e: Era) -> bool {
    match e {
        Era::Immortal => true,
        Era::Mortal(period, phase) => {
            &&& 2 <= log2(period as nat) <= 16
            &&& pow2(log2(period as nat)) == period
            &&& phase < period
            &&& phase as nat / quantize_factor(period as nat) < 4096
        },
    }
}

proof fn lemma_log2_pow2(k: nat)
    ensures
        log2(pow2(k)) == k,
    decreases k,
{
    lemma_pow2_pos(k);
    if k > 0 {
        lemma_pow2_unfold(k);
        lemma_pow2_pos((k - 1) as nat);
        lemma_log2_pow2((k - 1) as nat);
        assert(pow2(k) / 2 == pow2((k - 1) as nat));
    } else {
        lemma_pow2(0);
        assert(pow(2, 0) == 1) by {
            reveal(pow);
        }
    }
}

/// A power of two at least 4096 is a whole number of 4096-blocks, and the
/// phase granularity is that number.
proof fn lemma_quantize(k: nat)
    requires
        2 <= k <= 16,
    ensures
        pow2(k) <= 4096 * quantize_factor(pow2(k)),
        quantize_factor(pow2(k)) >= 1,
{
    lemma2_to64();
    if k >= 12 {
        lemma_pow2_adds(12, (k - 12) as nat);
        lemma_pow2_pos((k - 12) as nat);
        let m = pow2((k - 12) as nat);
        assert(pow2(k) == 4096 * m);
        assert((4096 * m) / 4096 == m) by (nonlinear_arith);
    } else {
        if k < 12 {
            lemma_pow2_strictly_increases(k, 12);
        }
    }
}

/// The normalized period of a requested length, with its exponent.
fn normalize_period(len: u64) -> (r: (u64, u64))
    ensures
        normalized_period(len as nat, r.0 as nat),
        r.0 as nat == pow2(r.1 as nat),
        2 <= r.1 <= 16,
{
    let mut p: u64 = MIN_PERIOD;
    let mut k: u64 = 2;
    proof {
        lemma2_to64();
    }
    while p < len && k < 16
        invariant
            p as nat == pow2(k as nat),
            2 <= k <= 16,
            k == 2 || pow2((k - 1) as nat) < len,
        decreases 16 - k,
    {
        proof {
            lemma2_to64();
            lemma_pow2_unfold((k + 1) as nat);
            lemma_pow2_strictly_increases(k as nat, 16);
        }
        p = p * 2;
        k = k + 1;
    }
    proof {
        lemma2_to64();
        assert(MAX_PERIOD == pow2(16));
    }
    (p, k)
}

/// At most one period is the normalization of a length.
pub proof fn lemma_normalized_unique(len: nat, p1: nat, p2: nat)
    requires
        normalized_period(len, p1),
        normalized_period(len, p2),
    ensures
        p1 == p2,
{
    let k1 = choose|k: nat|
        #![trigger pow2(k)]
        2 <= k <= 16 && p1 == pow2(k) && (len <= p1 || k == 16) && (k == 2 || pow2(
            (k - 1) as nat,
        ) < len);
    let k2 = choose|k: nat|
        #![trigger pow2(k)]
        2 <= k <= 16 && p2 == pow2(k) && (len <= p2 || k == 16) && (k == 2 || pow2(
            (k - 1) as nat,
        ) < len);
    if k1 < k2 {
        if k1 < (k2 - 1) as nat {
            lemma_pow2_strictly_increases(k1, (k2 - 1) as nat);
        }
    } else if k2 < k1 {
        if k2 < (k1 - 1) as nat {
            lemma_pow2_strictly_increases(k2, (k1 - 1) as nat);
        }
    }
}

/// The checked era for a requested period length anchored at `height`.
pub fn mortal(period: u64, height: u64) -> (r: Era)
    ensures
        normalized_period(period as nat, mortal_period(period as nat)),
        r == mortal_spec(mortal_period(period as nat), height as nat),
        era_wf(r),
{
    let (p, k) = normalize_period(period);
    proof {
        lemma_normalized_unique(period as nat, p as nat, mortal_period(period as nat));
        lemma2_to64();
        lemma_pow2_pos(k as nat);
        lemma_log2_pow2(k as nat);
        lemma_quantize(k as nat);
    }
    let phase = height % p;
    let qf = if p / 4096 >= 1 {
        p / 4096
    } else {
        1
    };
    let x = phase / qf;
    proof {
        assert(x * qf <= phase) by (nonlinear_arith)
            requires
                x == phase / qf,
                qf >= 1,
        ;
    }
    let quantized = x * qf;
    proof {
        assert(((x * qf) as int) / (qf as int) == x as int) by (nonlinear_arith)
            requires
                qf >= 1,
        ;
        assert(x < 4096) by (nonlinear_arith)
            requires
                x == phase / qf,
                phase < p,
                p <= 4096 * qf,
                qf >= 1,
        ;
    }
    let r = Era::Mortal(p, quantized);
    assert(r == mortal_spec(p as nat, height as nat));
    r
}

/// The wire bytes of an era.
pub fn encode_era(e: Era) -> (r: Vec<u8>)
    requires
        era_wf(e),
    ensures
        r@ == era_bytes(e),
{
    match e {
        Era::Immortal => {
            let mut v: Vec<u8> = Vec::new();
            v.push(0u8);
            v
        },
        Era::Mortal(period, phase) => {
            let ghost e = log2(period as nat);
            let mut p: u64 = MIN_PERIOD;
            let mut k: u64 = 2;
            proof {
                lemma2_to64();
            }
            while p != period && k < 16
                invariant
                    p as nat == pow2(k as nat),
                    2 <= k <= 16,
                    k <= e,
                    2 <= e <= 16,
                    pow2(e) == period,
                decreases 16 - k,
            {
                proof {
                    lemma2_to64();
                    lemma_pow2_unfold((k + 1) as nat);
                }
                p = p * 2;
                k = k + 1;
            }
            proof {
                if k < e {
                    lemma_pow2_strictly_increases(k as nat, e);
                }
            }
            assert(k == e);
            let qf: u64 = if period / 4096 >= 1 {
                period / 4096
            } else {
                1
            };
            let q = phase / qf;
            encode_u16(((k - 1) + 16 * q) as u16)
        },
    }
}

} // verus!
