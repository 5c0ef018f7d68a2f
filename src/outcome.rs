use vstd::prelude::*;
use crate::error::DiceError;
use vstd::arithmetic::div_mod::{lemma_mod_add_multiples_vanish, lemma_small_mod};

verus! {

/// House edge in basis points (1.5%).
pub const HOUSE_EDGE: u16 = 150;

/// The SHA-256 digest of `data`.
pub uninterp spec fn sha256_of(data: Seq<u8>) -> Seq<u8>;

/// Relies on solana_program::hash::hash: the SHA-256 digest of `data`,
/// 32 bytes.
#[verifier::external_body]
fn sha256(data: &[u8]) -> (r: Vec<u8>)
    ensures
        r@ == sha256_of(data@),
        r@.len() == 32,
{
    solana_program::hash::hash(data).to_bytes().to_vec()
}

/// `256` to the power `n`.
pub open spec fn pow256(n: nat) -> nat
    decreases n,
{
    if n == 0 {
        1
    } else {
        256 * pow256((n - 1) as nat)
    }
}

/// The unsigned integer that `s` holds little-endian.
pub open spec fn le_value(s: Seq<u8>) -> nat
    decreases s.len(),
{
    if s.len() == 0 {
        0
    } else {
        (s[0] + 256 * le_value(s.drop_first())) as nat
    }
}

/// The roll that a digest gives: its two little-endian 128-bit halves added
/// modulo 2^128, then reduced into `1..=100`.
pub open spec fn roll_of(digest: Seq<u8>) -> u8 {
    (((le_value(digest.subrange(0, 16)) + le_value(digest.subrange(16, 32))) % pow256(16)) % 100
        + 1) as u8
}

proof fn lemma_le_value_bound(s: Seq<u8>)
    ensures
        le_value(s) < pow256(s.len()),
    decreases s.len(),
{
    if s.len() > 0 {
        lemma_le_value_bound(s.drop_first());
        let v = le_value(s.drop_first());
        let p = pow256(s.drop_first().len());
        assert(s[0] + 256 * v < 256 * p) by (nonlinear_arith)
            requires v < p, s[0] < 256;
    }
}

proof fn lemma_pow256_16()
    ensures
        pow256(16) == u128::MAX + 1,
{
    reveal_with_fuel(pow256, 17);
}

/// Reads the 16 bytes of `d` from `start` as a little-endian integer.
fn le_u128(d: &[u8], start: usize) -> (r: u128)
    requires
        start <= 16,
        start + 16 <= d@.len(),
    ensures
        r == le_value(d@.subrange(start as int, start + 16)),
{
    let ghost s = d@.subrange(start as int, start + 16);
    let mut acc: u128 = 0;
    let mut j: usize = 16;
    proof {
        lemma_pow256_16();
        assert(s.subrange(16, 16).len() == 0);
    }
    while j > 0
        invariant
            start <= 16,
            start + 16 <= d@.len(),
            s == d@.subrange(start as int, start + 16),
            j <= 16,
            acc == le_value(s.subrange(j as int, 16)),
            pow256(16) == u128::MAX + 1,
        decreases j,
    {
        let ghost tail = s.subrange(j as int, 16);
        let ghost next = s.subrange(j - 1, 16);
        proof {
            assert(next.drop_first() =~= tail);
            lemma_le_value_bound(next);
            assert(next.len() <= 16);
            lemma_pow256_mono(next.len(), 16);
        }
        let b = d[start + j - 1];
        assert(le_value(next) == b + 256 * acc);
        acc = (b as u128) + 256 * acc;
        j = j - 1;
    }
    assert(s.subrange(0, 16) =~= s);
    acc
}

proof fn lemma_pow256_mono(a: nat, b: nat)
    requires
        a <= b,
    ensures
        pow256(a) <= pow256(b),
    decreases b,
{
    if a < b {
        lemma_pow256_mono(a, (b - 1) as nat);
    }
}

/// The roll in `1..=100` that a 32-byte digest gives.
pub fn roll_from_digest(digest: &[u8]) -> (r: u8)
    requires
        digest@.len() == 32,
    ensures
        r == roll_of(digest@),
        1 <= r <= 100,
{
    let lower = le_u128(digest, 0);
    let upper = le_u128(digest, 16);
    proof {
        lemma_pow256_16();
    }
    let sum = lower.wrapping_add(upper);
    proof {
        let m = pow256(16) as int;
        let x = lower + upper;
        if x < m {
            lemma_small_mod(x as nat, m as nat);
        } else {
            lemma_small_mod((x - m) as nat, m as nat);
            lemma_mod_add_multiples_vanish(x - m, m);
        }
        assert(sum == x % m);
    }
    (sum % 100) as u8 + 1
}

/// The roll that a revealed signature gives: the roll of its SHA-256 digest.
pub fn derive_roll(signature: &[u8]) -> (r: u8)
    ensures
        r == roll_of(sha256_of(signature@)),
        1 <= r <= 100,
{
    let digest = sha256(signature);
    roll_from_digest(digest.as_slice())
}

/// The payout owed on a winning bet, or `None` when a step of the checked
/// computation fails: `amount * (10000 - edge) / (target_roll - 1) / 100`.
pub open spec fn payout_of(amount: u128, target_roll: u8, house_edge_bps: u16) -> Option<u128> {
    if house_edge_bps <= 10000 && target_roll >= 2 && amount * (10000 - house_edge_bps)
        <= u128::MAX {
        Some((amount * (10000 - house_edge_bps) / (target_roll - 1) / 100) as u128)
    } else {
        None
    }
}

/// Computes the payout of a winning bet with every step checked; any failing
/// step is an overflow error.
pub fn compute_payout(amount: u128, target_roll: u8, house_edge_bps: u16) -> (r: Result<
    u128,
    DiceError,
>)
    ensures
        match payout_of(amount, target_roll, house_edge_bps) {
            Some(p) => r == Ok::<u128, DiceError>(p),
            None => r == Err::<u128, DiceError>(DiceError::Overflow),
        },
{
    let margin = match 10000u128.checked_sub(house_edge_bps as u128) {
        Some(m) => m,
        None => return Err(DiceError::Overflow),
    };
    let odds = match (target_roll as u128).checked_sub(1) {
        Some(o) => o,
        None => return Err(DiceError::Overflow),
    };
    let gross = match amount.checked_mul(margin) {
        Some(g) => g,
        None => return Err(DiceError::Overflow),
    };
    let scaled = match gross.checked_div(odds) {
        Some(s) => s,
        None => return Err(DiceError::Overflow),
    };
    match scaled.checked_div(100) {
        Some(p) => Ok(p),
        None => Err(DiceError::Overflow),
    }
}

/// With a valid edge and target, the payout fails exactly when the product
/// of the wager and the edge-reduced multiplier exceeds 128 bits; it never
/// wraps.
pub proof fn lemma_payout_overflow(amount: u128, target_roll: u8, house_edge_bps: u16)
    requires
        house_edge_bps <= 10000,
        target_roll >= 2,
    ensures
        payout_of(amount, target_roll, house_edge_bps) is None <==> amount * (10000
            - house_edge_bps) > u128::MAX,
{
}

/// A signature always gives the same roll: the roll depends on the signature
/// bytes alone.
pub proof fn lemma_roll_deterministic(a: Seq<u8>, b: Seq<u8>)
    requires
        a == b,
    ensures
        roll_of(sha256_of(a)) == roll_of(sha256_of(b)),
{
}

} // verus!
