use aqueduct::errors::ErrorCode;
use aqueduct::math::{div_rem_u256, get_liquidity_from_token_a, mul_u128, U256};

#[test]
fn mul_u128_small_values() {
    let r = mul_u128(7, 9);
    assert_eq!((r.w0, r.w1, r.w2, r.w3), (63, 0, 0, 0));
}

#[test]
fn mul_u128_crosses_word_boundary() {
    // 2^64 * 2^64 = 2^128: exactly the third word.
    let r = mul_u128(1u128 << 64, 1u128 << 64);
    assert_eq!((r.w0, r.w1, r.w2, r.w3), (0, 0, 1, 0));
}

#[test]
fn mul_u128_max_values() {
    // (2^128 - 1)^2 = 2^256 - 2^129 + 1
    let r = mul_u128(u128::MAX, u128::MAX);
    assert_eq!(r.w0, 1);
    assert_eq!(r.w1, 0);
    assert_eq!(r.w2, u64::MAX - 1);
    assert_eq!(r.w3, u64::MAX);
}

#[test]
fn div_rem_small_dividend() {
    let p = U256 { w0: 1000, w1: 0, w2: 0, w3: 0 };
    let (q, r) = div_rem_u256(&p, 7);
    assert_eq!((q.w0, q.w1, q.w2, q.w3), (142, 0, 0, 0));
    assert_eq!(r, 6);
}

#[test]
fn div_rem_wide_dividend() {
    // (2^128 + 5) / 2 = 2^127 + 2 remainder 1
    let p = U256 { w0: 5, w1: 0, w2: 1, w3: 0 };
    let (q, r) = div_rem_u256(&p, 2);
    assert_eq!((q.w0, q.w1, q.w2, q.w3), (2, 1u64 << 63, 0, 0));
    assert_eq!(r, 1);
}

#[test]
fn div_rem_by_one_is_identity() {
    let p = U256 { w0: 11, w1: 22, w2: 33, w3: 44 };
    let (q, r) = div_rem_u256(&p, 1);
    assert_eq!((q.w0, q.w1, q.w2, q.w3), (11, 22, 33, 44));
    assert_eq!(r, 0);
}

#[test]
fn liquidity_inverted_range_fails() {
    // Equal bounds: an empty range is rejected before any arithmetic.
    assert_eq!(
        get_liquidity_from_token_a(1000, 1 << 64, 1 << 64),
        Err(ErrorCode::RangeInverted)
    );
    assert_eq!(
        get_liquidity_from_token_a(1000, 2 << 64, 1 << 64),
        Err(ErrorCode::RangeInverted)
    );
}

#[test]
fn liquidity_exact_value() {
    // sqrt_lower = 1.0, sqrt_upper = 2.0 in 64.64 fixed point:
    // ratio = (1.0 * 2.0) / 1.0 = 2.0, so liquidity = 2 * amount.
    let one = 1u128 << 64;
    let two = 2u128 << 64;
    assert_eq!(get_liquidity_from_token_a(1000, one, two), Ok(2000));
}

#[test]
fn liquidity_zero_amount_is_zero() {
    let one = 1u128 << 64;
    let two = 2u128 << 64;
    assert_eq!(get_liquidity_from_token_a(0, one, two), Ok(0));
}

#[test]
fn liquidity_truncates_toward_zero() {
    // sqrt_lower = 1.0, sqrt_upper = 3.0: ratio = 3/2 = 1.5,
    // liquidity = floor(1.5 * amount).
    let one = 1u128 << 64;
    let three = 3u128 << 64;
    assert_eq!(get_liquidity_from_token_a(5, one, three), Ok(7));
}

#[test]
fn liquidity_downcast_overflow_fails() {
    // A one-tick-wide range at a huge price: the ratio alone exceeds the
    // 128-bit liquidity width.
    let sl = 1u128 << 127;
    let su = (1u128 << 127) + 1;
    assert_eq!(
        get_liquidity_from_token_a(1, sl, su),
        Err(ErrorCode::WhirlpoolNumberDownCastError)
    );
}

#[test]
fn double_shifts_out_the_top_bit() {
    let mut x = U256 { w0: 3, w1: 0, w2: 0, w3: 1u64 << 63 };
    let carry = aqueduct::math::u256_double(&mut x);
    assert!(carry);
    assert_eq!((x.w0, x.w1, x.w2, x.w3), (6, 0, 0, 0));
}
