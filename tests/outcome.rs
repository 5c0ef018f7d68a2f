use soldice::error::DiceError;
use soldice::outcome::{compute_payout, derive_roll, roll_from_digest, HOUSE_EDGE};

#[test]
fn roll_of_zero_signature() {
    assert_eq!(derive_roll(&[0u8; 64]), 73);
}

#[test]
fn roll_is_deterministic() {
    let sig = [2u8; 64];
    assert_eq!(derive_roll(&sig), derive_roll(&sig));
    assert_eq!(derive_roll(&sig), 27);
    assert_eq!(derive_roll(&[9u8; 64]), 99);
}

#[test]
fn roll_from_digest_halves() {
    // low half 1, high half 0: roll 2
    let mut d = [0u8; 32];
    d[0] = 1;
    assert_eq!(roll_from_digest(&d), 2);
    // both halves all ones: sum wraps to 2^128 - 2
    let d = [0xffu8; 32];
    let expected = ((u128::MAX - 1) % 100) as u8 + 1;
    assert_eq!(roll_from_digest(&d), expected);
    // high half only: 256 -> roll 57
    let mut d = [0u8; 32];
    d[17] = 1;
    assert_eq!(roll_from_digest(&d), 57);
}

#[test]
fn payout_formula() {
    assert_eq!(compute_payout(1_000_000, 50, 150), Ok(2010204));
    assert_eq!(compute_payout(1_000_000, 50, 150), Ok(1_000_000 * 9850 / 49 / 100));
    assert_eq!(compute_payout(10_000_000, 2, HOUSE_EDGE), Ok(985_000_000));
}

#[test]
fn payout_overflow_is_an_error() {
    let amount = u128::MAX / 9850 + 1;
    assert_eq!(compute_payout(amount, 50, 150), Err(DiceError::Overflow));
    assert_eq!(compute_payout(amount - 1, 2, 150), Ok((amount - 1) * 9850 / 100));
    assert_eq!(compute_payout(u128::MAX, 96, 150), Err(DiceError::Overflow));
}

#[test]
fn payout_bad_parameters() {
    assert_eq!(compute_payout(1000, 1, 150), Err(DiceError::Overflow));
    assert_eq!(compute_payout(1000, 0, 150), Err(DiceError::Overflow));
    assert_eq!(compute_payout(1000, 50, 10001), Err(DiceError::Overflow));
    assert_eq!(compute_payout(1000, 50, 10000), Ok(0));
}
