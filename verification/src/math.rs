//! Wide fixed-point math for one-sided deposit sizing.
//!
//! Square-root prices are 64.64 fixed point in `u128`. Sizing a one-sided
//! deposit needs `amount * (sqrt_lower * sqrt_upper) / (sqrt_upper -
//! sqrt_lower)`, whose intermediates exceed 128 bits, so products and
//! quotients are computed over a four-word 256-bit representation with
//! truncating (floor) division at each stage.
use vstd::prelude::*;

use vstd::arithmetic::div_mod::{
    lemma_basic_div, lemma_div_denominator, lemma_div_is_ordered,
    lemma_div_is_ordered_by_denominator, lemma_div_multiples_vanish,
    lemma_div_pos_is_pos, lemma_fundamental_div_mod, lemma_fundamental_div_mod_converse,
    lemma_small_mod,
};
use vstd::arithmetic::mul::lemma_mul_inequality;
use vstd::arithmetic::power2::{lemma2_to64, lemma_pow2_adds, lemma_pow2_pos, pow2};

use crate::errors::ErrorCode;

verus! {

/// 2^64 as an integer.
pub open spec fn p64() -> int {
    0x10000000000000000
}

/// 2^128 as an integer.
pub open spec fn p128() -> int {
    p64() * p64()
}

/// 2^192 as an integer.
pub open spec fn p192() -> int {
    p128() * p64()
}

/// 2^256 as an integer.
pub open spec fn p256() -> int {
    p192() * p64()
}

/// An unsigned 256-bit value as four 64-bit words, least significant first.
#[derive(Clone, Copy, Debug, PartialEq, Eq, Structural)]
pub struct U256 {
    pub w0: u64,
    pub w1: u64,
    pub w2: u64,
    pub w3: u64,
}

impl U256 {
    /// The integer this four-word value denotes.
    pub open spec fn val(&self) -> int {
        self.w0 + self.w1 * p64() + self.w2 * p128() + self.w3 * p192()
    }

    /// Every four-word value lies in `[0, 2^256)`.
    pub proof fn lemma_val_bounds(&self)
        ensures
            0 <= self.val() < p256(),
    {
        assert(0 <= self.w1 * p64() <= 0xffffffffffffffff * p64()) by (nonlinear_arith)
            requires self.w1 <= 0xffffffffffffffffu64;
        assert(0 <= self.w2 * p128() <= 0xffffffffffffffff * p128()) by (nonlinear_arith)
            requires self.w2 <= 0xffffffffffffffffu64;
        assert(0 <= self.w3 * p192() <= 0xffffffffffffffff * p192()) by (nonlinear_arith)
            requires self.w3 <= 0xffffffffffffffffu64;
    }
}

/// Ties the symbolic pow2 values used in the division loop to the powers
/// the word representation is built on.
proof fn lemma_pow2_constants()
    ensures
        pow2(0) == 1,
        pow2(1) == 2,
        pow2(64) == p64(),
        pow2(128) == p128(),
        pow2(192) == p192(),
        pow2(255) * 2 == p256(),
        pow2(256) == p256(),
{
    lemma2_to64();
    lemma_pow2_adds(64, 64);
    lemma_pow2_adds(128, 64);
    lemma_pow2_adds(192, 64);
    lemma_pow2_adds(255, 1);
    assert(pow2(128) == p64() * p64());
    assert(pow2(192) == p128() * p64());
    assert(pow2(256) == p192() * p64());
    assert(pow2(255) * pow2(1) == pow2(256));
}

/// The full 256-bit product of two 128-bit values.
pub fn mul_u128(a: u128, b: u128) -> (r: U256)
    ensures
        r.val() == a * b,
{
    let p64c: u128 = 0x10000000000000000;
    let a1 = a / p64c;
    let a0 = a % p64c;
    let b1 = b / p64c;
    let b0 = b % p64c;
    proof {
        lemma_fundamental_div_mod(a as int, p64());
        lemma_fundamental_div_mod(b as int, p64());
        assert(a0 * b0 <= 0xffffffffffffffff * 0xffffffffffffffff
            && a0 * b1 <= 0xffffffffffffffff * 0xffffffffffffffff
            && a1 * b0 <= 0xffffffffffffffff * 0xffffffffffffffff
            && a1 * b1 <= 0xffffffffffffffff * 0xffffffffffffffff) by (nonlinear_arith)
            requires
                a0 <= 0xffffffffffffffffu128,
                b0 <= 0xffffffffffffffffu128,
                a1 <= 0xffffffffffffffffu128,
                b1 <= 0xffffffffffffffffu128;
    }
    let pr00 = a0 * b0;
    let pr01 = a0 * b1;
    let pr10 = a1 * b0;
    let pr11 = a1 * b1;
    let w0 = (pr00 % p64c) as u64;
    let c0 = pr00 / p64c;
    let m1 = c0 + (pr01 % p64c) + (pr10 % p64c);
    let w1 = (m1 % p64c) as u64;
    let m2 = m1 / p64c + pr01 / p64c + pr10 / p64c + (pr11 % p64c);
    let w2 = (m2 % p64c) as u64;
    let m3 = m2 / p64c + pr11 / p64c;
    proof {
        lemma_fundamental_div_mod(pr00 as int, p64());
        lemma_fundamental_div_mod(pr01 as int, p64());
        lemma_fundamental_div_mod(pr10 as int, p64());
        lemma_fundamental_div_mod(pr11 as int, p64());
        lemma_fundamental_div_mod(m1 as int, p64());
        lemma_fundamental_div_mod(m2 as int, p64());
        // The reassembled words denote exactly a * b.
        assert(a * b == pr11 * p128() + pr01 * p64() + pr10 * p64() + pr00) by (nonlinear_arith)
            requires
                a == p64() * (a1 as int) + a0,
                b == p64() * (b1 as int) + b0,
                pr00 == a0 * b0,
                pr01 == a0 * b1,
                pr10 == a1 * b0,
                pr11 == a1 * b1,
                p128() == p64() * p64();
        assert(w0 + w1 * p64() + w2 * p128() + m3 * p192()
            == pr11 * p128() + pr01 * p64() + pr10 * p64() + pr00) by (nonlinear_arith)
            requires
                pr00 == p64() * (c0 as int) + w0,
                w0 == pr00 % p64c,
                c0 == pr00 / p64c,
                pr01 == p64() * ((pr01 / p64c) as int) + (pr01 % p64c),
                pr10 == p64() * ((pr10 / p64c) as int) + (pr10 % p64c),
                pr11 == p64() * ((pr11 / p64c) as int) + (pr11 % p64c),
                m1 == c0 + (pr01 % p64c) + (pr10 % p64c),
                m1 == p64() * ((m1 / p64c) as int) + w1,
                w1 == m1 % p64c,
                m2 == m1 / p64c + pr01 / p64c + pr10 / p64c + (pr11 % p64c),
                m2 == p64() * ((m2 / p64c) as int) + w2,
                w2 == m2 % p64c,
                m3 == m2 / p64c + pr11 / p64c,
                p128() == p64() * p64(),
                p192() == p128() * p64();
        // The top carry fits one word: otherwise the value would reach 2^256.
        assert(a * b < p256()) by (nonlinear_arith)
            requires
                a <= 0xffffffffffffffffffffffffffffffffu128,
                b <= 0xffffffffffffffffffffffffffffffffu128;
        assert(0 <= w1 * p64() && 0 <= w2 * p128() && 0 <= m3 * p192()
            && (m3 >= 0x10000000000000000 ==> m3 * p192() >= p256())) by (nonlinear_arith)
            requires w1 >= 0u64, w2 >= 0u64, m3 >= 0u128;
        assert(m3 < 0x10000000000000000);
    }
    let w3 = m3 as u64;
    U256 { w0, w1, w2, w3 }
}

/// Doubles a four-word value in place; the returned flag is the bit shifted
/// out at the top. The new low word is always even.
pub fn u256_double(x: &mut U256) -> (carry: bool)
    ensures
        (if carry { p256() } else { 0 }) + final(x).val() == 2 * old(x).val(),
        final(x).w0 % 2 == 0,
{
    let p64c: u128 = 0x10000000000000000;
    let t0 = 2 * (x.w0 as u128);
    let n0 = (t0 % p64c) as u64;
    let c0 = (t0 / p64c) as u64;
    let t1 = 2 * (x.w1 as u128) + (c0 as u128);
    let n1 = (t1 % p64c) as u64;
    let c1 = (t1 / p64c) as u64;
    let t2 = 2 * (x.w2 as u128) + (c1 as u128);
    let n2 = (t2 % p64c) as u64;
    let c2 = (t2 / p64c) as u64;
    let t3 = 2 * (x.w3 as u128) + (c2 as u128);
    let n3 = (t3 % p64c) as u64;
    let c3 = (t3 / p64c) as u64;
    proof {
        lemma_fundamental_div_mod(t0 as int, p64());
        lemma_fundamental_div_mod(t1 as int, p64());
        lemma_fundamental_div_mod(t2 as int, p64());
        lemma_fundamental_div_mod(t3 as int, p64());
        assert(n0 + n1 * p64() + n2 * p128() + n3 * p192() + c3 * p256()
            == 2 * (x.w0 + x.w1 * p64() + x.w2 * p128() + x.w3 * p192()))
            by (nonlinear_arith)
            requires
                2 * (x.w0 as int) == p64() * (c0 as int) + n0,
                2 * (x.w1 as int) + c0 == p64() * (c1 as int) + n1,
                2 * (x.w2 as int) + c1 == p64() * (c2 as int) + n2,
                2 * (x.w3 as int) + c2 == p64() * (c3 as int) + n3,
                p128() == p64() * p64(),
                p192() == p128() * p64(),
                p256() == p192() * p64();
        assert(p64() * p64() == p128() && p128() * p64() == p192() && p192() * p64() == p256())
            by (nonlinear_arith);
        assert(c3 <= 1) by (nonlinear_arith)
            requires
                2 * (x.w3 as int) + c2 == p64() * (c3 as int) + n3,
                x.w3 <= 0xffffffffffffffffu64,
                c2 <= 1u64,
                n3 >= 0u64,
                c3 >= 0u64;
        assert(c2 <= 1) by (nonlinear_arith)
            requires
                2 * (x.w2 as int) + c1 == p64() * (c2 as int) + n2,
                x.w2 <= 0xffffffffffffffffu64,
                c1 <= 1u64,
                n2 >= 0u64,
                c2 >= 0u64;
        assert(c1 <= 1) by (nonlinear_arith)
            requires
                2 * (x.w1 as int) + c0 == p64() * (c1 as int) + n1,
                x.w1 <= 0xffffffffffffffffu64,
                c0 <= 1u64,
                n1 >= 0u64,
                c1 >= 0u64;
        assert(c0 <= 1) by (nonlinear_arith)
            requires
                2 * (x.w0 as int) == p64() * (c0 as int) + n0,
                x.w0 <= 0xffffffffffffffffu64,
                n0 >= 0u64,
                c0 >= 0u64;
        assert(n0 % 2 == 0) by (nonlinear_arith)
            requires 2 * (x.w0 as int) == p64() * (c0 as int) + n0, 0 <= n0 < p64(),
                c0 <= 1u64;
    }
    x.w0 = n0;
    x.w1 = n1;
    x.w2 = n2;
    x.w3 = n3;
    c3 == 1
}

/// `p % pow2(m + 1)` split at bit `m`.
proof fn lemma_mod_pow2_split(p: int, m: nat)
    requires
        0 <= p,
    ensures
        p % (pow2((m + 1) as nat) as int) == ((p / (pow2(m) as int)) % 2) * pow2(m)
            + p % (pow2(m) as int),
{
    lemma_pow2_pos(m);
    lemma_pow2_adds(m, 1);
    lemma2_to64();
    let pm = pow2(m) as int;
    let t = p / pm;
    lemma_fundamental_div_mod(p, pm);
    lemma_fundamental_div_mod(t, 2);
    lemma_div_denominator(p, pm, 2);
    assert(p == (t / 2) * (2 * pm) + ((t % 2) * pm + p % pm)) by (nonlinear_arith)
        requires
            p == pm * t + p % pm,
            t == 2 * (t / 2) + t % 2;
    assert(0 <= (t % 2) * pm + p % pm < 2 * pm) by (nonlinear_arith)
        requires 0 <= t % 2 < 2, 0 <= p % pm < pm, pm > 0;
    assert(t / 2 == p / (pm * 2));
    lemma_fundamental_div_mod_converse(p, 2 * pm, t / 2, (t % 2) * pm + p % pm);
    assert(pow2((m + 1) as nat) as int == pm * 2);
}

/// One step of reading a value's bits from the top: dropping `m` low bits
/// gives twice the value with `m + 1` bits dropped, plus the bit in between.
proof fn lemma_div_pow2_step(p: int, m: nat)
    requires
        0 <= p,
    ensures
        p / (pow2(m) as int) == 2 * (p / (pow2((m + 1) as nat) as int))
            + (p / (pow2(m) as int)) % 2,
{
    lemma_pow2_pos(m);
    lemma_pow2_adds(m, 1);
    lemma2_to64();
    let pm = pow2(m) as int;
    let t = p / pm;
    lemma_div_denominator(p, pm, 2);
    lemma_fundamental_div_mod(t, 2);
    assert(pow2((m + 1) as nat) as int == pm * 2);
}

/// Floor division of a 256-bit value by a nonzero 128-bit divisor, with
/// remainder: binary restoring division, consuming the dividend's bits from
/// the top.
pub fn div_rem_u256(p: &U256, d: u128) -> (qr: (U256, u128))
    requires
        d >= 1,
    ensures
        qr.0.val() == p.val() / (d as int),
        qr.1 == p.val() % (d as int),
{
    let mut psh = *p;
    let mut q = U256 { w0: 0, w1: 0, w2: 0, w3: 0 };
    let mut r: u128 = 0;
    let ghost pv = p.val();
    proof {
        p.lemma_val_bounds();
        lemma_pow2_constants();
        lemma_small_mod(pv as nat, pow2(256));
        lemma_basic_div(pv, p256());
        assert(q.val() == 0);
        assert(q.val() * d == 0) by (nonlinear_arith) requires q.val() == 0;
        assert(pv / (pow2(256nat) as int) == 0);
    }
    let mut i: usize = 0;
    while i < 256
        invariant
            i <= 256,
            1 <= d,
            r < d,
            q.val() * d + r == pv / (pow2((256 - i) as nat) as int),
            psh.val() == (pv % (pow2((256 - i) as nat) as int)) * (pow2(i as nat) as int),
            pv == p.val(),
            0 <= pv < p256(),
        decreases 256 - i,
    {
        let ghost m = (255 - i) as nat;
        let ghost prefix_old = pv / (pow2((m + 1) as nat) as int);
        let ghost b = (pv / (pow2(m) as int)) % 2;
        let ghost qv_old = q.val();
        let ghost r_old = r;
        proof {
            lemma_pow2_constants();
            lemma_pow2_pos(m);
            lemma_pow2_pos((m + 1) as nat);
            lemma_pow2_pos(i as nat);
            lemma_pow2_pos((i + 1) as nat);
            q.lemma_val_bounds();
            assert((256 - i) as nat == m + 1);
            lemma_pow2_adds(m, 1);
            lemma_pow2_adds(i as nat, 1);
            assert(pow2((m + 1) as nat) == pow2(m) * 2);
            assert(pow2((m + 1) as nat) >= 2) by (nonlinear_arith)
                requires pow2((m + 1) as nat) == pow2(m) * 2, pow2(m) >= 1;
            assert(pow2((i + 1) as nat) == pow2(i as nat) * 2);
        }
        let bit = u256_double(&mut psh);
        let qc = u256_double(&mut q);
        proof {
            // The doubled quotient cannot spill: it stays below the dividend.
            lemma_div_is_ordered_by_denominator(pv, 2, pow2((m + 1) as nat) as int);
            assert(prefix_old <= pv / 2);
            assert(qv_old <= qv_old * d) by (nonlinear_arith)
                requires qv_old >= 0, d >= 1;
            lemma_fundamental_div_mod(pv, 2);
            assert(2 * qv_old <= pv);
            q.lemma_val_bounds();
            assert(!qc);
            // The bit shifted out of the dividend image is the next bit down.
            lemma_mod_pow2_split(pv, m);
            lemma_pow2_adds(m, i as nat);
            lemma_pow2_adds(m, (i + 1) as nat);
            assert(m + i == 255);
            let pm = pow2(m) as int;
            let rem_old = pv % (pow2((m + 1) as nat) as int);
            let rem_new = pv % pm;
            assert(rem_old == b * pm + rem_new);
            assert(0 <= rem_new < pm) by {
                lemma_fundamental_div_mod(pv, pm);
            }
            assert(2 * (rem_old * (pow2(i as nat) as int))
                == b * p256() + rem_new * (pow2((i + 1) as nat) as int)) by (nonlinear_arith)
                requires
                    rem_old == b * (pow2(m) as int) + rem_new,
                    (pow2(m) as int) * (pow2(i as nat) as int) == pow2((m + i) as nat) as int,
                    pow2((m + i) as nat) == pow2(255),
                    2 * (pow2(255) as int) == p256(),
                    (pow2((i + 1) as nat) as int) == 2 * (pow2(i as nat) as int);
            psh.lemma_val_bounds();
            assert(rem_new * (pow2((i + 1) as nat) as int) < p256()
                && 0 <= rem_new * (pow2((i + 1) as nat) as int)) by (nonlinear_arith)
                requires
                    0 <= rem_new < (pow2(m) as int),
                    (pow2(m) as int) * (pow2((i + 1) as nat) as int)
                        == pow2((m + i + 1) as nat) as int,
                    pow2((m + i + 1) as nat) == p256(),
                    (pow2((i + 1) as nat) as int) > 0;
            // Unique decomposition below 2^256: the carry out is exactly b.
            assert((if bit { p256() } else { 0 }) + psh.val()
                == b * p256() + rem_new * (pow2((i + 1) as nat) as int));
            assert(0 <= b < 2);
            assert(bit == (b == 1));
            assert(psh.val() == rem_new * (pow2((i + 1) as nat) as int));
            // The prefix advances by one bit.
            lemma_div_pow2_step(pv, m);
            assert(pv / (pow2(m) as int) == 2 * prefix_old + b);
        }
        let bitv: u128 = if bit { 1 } else { 0 };
        if r >= 0x80000000000000000000000000000000 {
            // 2r + bit is at least 2^128, hence at least d: subtract.
            let diff = d - r;
            r = (r - diff) + bitv;
            q.w0 = q.w0 + 1;
            proof {
                assert(q.val() == 2 * qv_old + 1);
                assert(q.val() * d + r == 2 * (qv_old * d + r_old) + b) by (nonlinear_arith)
                    requires
                        q.val() == 2 * qv_old + 1,
                        r == 2 * r_old + b - d,
                        b == bitv;
            }
        } else {
            let t = 2 * r + bitv;
            if t >= d {
                r = t - d;
                q.w0 = q.w0 + 1;
                proof {
                    assert(q.val() == 2 * qv_old + 1);
                    assert(q.val() * d + r == 2 * (qv_old * d + r_old) + b) by (nonlinear_arith)
                        requires
                            q.val() == 2 * qv_old + 1,
                            r == 2 * r_old + b - d,
                            b == bitv;
                }
            } else {
                r = t;
                proof {
                    assert(q.val() * d + r == 2 * (qv_old * d + r_old) + b) by (nonlinear_arith)
                        requires
                            q.val() == 2 * qv_old,
                            r == 2 * r_old + b,
                            b == bitv;
                }
            }
        }
        i = i + 1;
        proof {
            assert((256 - i) as nat == m);
            assert(q.val() * d + r == pv / (pow2(m) as int));
        }
    }
    proof {
        lemma_pow2_constants();
        assert(q.val() * d + r == pv / (pow2(0) as int));
        vstd::arithmetic::div_mod::lemma_div_basics(pv);
        assert(q.val() * d + r == pv);
        assert(q.val() >= 0) by (nonlinear_arith)
            requires q.val() * d + r == pv, pv >= 0, 0 <= r < d, d >= 1;
        lemma_fundamental_div_mod_converse(pv, d as int, q.val(), r as int);
    }
    (q, r)
}

/// `floor((sqrt_lower * sqrt_upper) / (sqrt_upper - sqrt_lower))`: the
/// range's liquidity-per-unit ratio, defined for a non-inverted range.
pub open spec fn liquidity_ratio(sl: int, su: int) -> int {
    (sl * su) / (su - sl)
}

/// The liquidity a one-sided deposit of `amount` yields against the range:
/// the ratio times the amount, truncated back out of 64.64 fixed point.
pub open spec fn liquidity_for_amount(amount: int, sl: int, su: int) -> int {
    (liquidity_ratio(sl, su) * amount) / p64()
}

/// Sizes a one-sided deposit of asset A: the liquidity such that depositing
/// `amount` at the current square-root price against the given upper bound
/// yields it. Fails with `RangeInverted` on an empty or inverted range and
/// with `WhirlpoolNumberDownCastError` when the result does not fit the
/// liquidity width after the widen-then-narrow computation.
pub fn get_liquidity_from_token_a(
    amount: u128,
    sqrt_price_lower_x64: u128,
    sqrt_price_upper_x64: u128,
) -> (r: Result<u128, ErrorCode>)
    ensures
        sqrt_price_lower_x64 >= sqrt_price_upper_x64
            ==> r == Err::<u128, ErrorCode>(ErrorCode::RangeInverted),
        (sqrt_price_lower_x64 < sqrt_price_upper_x64
            && liquidity_for_amount(
                amount as int, sqrt_price_lower_x64 as int, sqrt_price_upper_x64 as int,
            ) <= u128::MAX)
            ==> r == Ok::<u128, ErrorCode>(liquidity_for_amount(
                amount as int, sqrt_price_lower_x64 as int, sqrt_price_upper_x64 as int,
            ) as u128),
        (sqrt_price_lower_x64 < sqrt_price_upper_x64
            && liquidity_for_amount(
                amount as int, sqrt_price_lower_x64 as int, sqrt_price_upper_x64 as int,
            ) > u128::MAX)
            ==> r == Err::<u128, ErrorCode>(ErrorCode::WhirlpoolNumberDownCastError),
{
    if sqrt_price_lower_x64 >= sqrt_price_upper_x64 {
        return Err(ErrorCode::RangeInverted);
    }
    let sl = sqrt_price_lower_x64;
    let su = sqrt_price_upper_x64;
    let d = su - sl;
    let prod = mul_u128(sl, su);
    let qr = div_rem_u256(&prod, d);
    let q = qr.0;
    let ghost qv = q.val();
    let p64c: u128 = 0x10000000000000000;
    proof {
        q.lemma_val_bounds();
        assert(sl as int * su as int >= 0) by (nonlinear_arith)
            requires sl >= 0u128, su >= 0u128;
        lemma_div_pos_is_pos(sl as int * su as int, d as int);
        assert(qv == liquidity_ratio(sl as int, su as int));
    }
    if amount == 0 {
        proof {
            assert(qv * 0 == 0) by (nonlinear_arith);
            lemma_basic_div(0, p64());
        }
        return Ok(0);
    }
    // liquidity = floor(qv * amount / 2^64), with qv split at its low word:
    // the high part scales `amount` directly; the low part is truncated by
    // its own division first.
    let a1 = amount / p64c;
    let a0 = amount % p64c;
    let ql = q.w0 as u128;
    proof {
        assert(ql * a1 <= 0xffffffffffffffff * 0xffffffffffffffff
            && ql * a0 <= 0xffffffffffffffff * 0xffffffffffffffff) by (nonlinear_arith)
            requires ql <= 0xffffffffffffffffu128, a1 <= 0xffffffffffffffffu128,
                a0 <= 0xffffffffffffffffu128;
    }
    let low_hi = ql * a1;
    let low_lo = (ql * a0) / p64c;
    let ghost xa = ql as int * amount as int;
    let ghost rem = (ql as int * a0 as int) % p64();
    proof {
        lemma_fundamental_div_mod(amount as int, p64());
        lemma_fundamental_div_mod(ql as int * a0 as int, p64());
        lemma_div_is_ordered(ql as int * a0 as int,
            0xffffffffffffffffint * 0xffffffffffffffffint, p64());
        assert((0xffffffffffffffffint * 0xffffffffffffffffint) / p64() < p64());
        assert(xa == p64() * ((low_hi as int) + (low_lo as int)) + rem) by (nonlinear_arith)
            requires
                xa == ql as int * amount as int,
                amount as int == p64() * (a1 as int) + (a0 as int),
                low_hi as int == ql as int * a1 as int,
                ql as int * a0 as int == p64() * (low_lo as int) + rem,
                rem == (ql as int * a0 as int) % p64();
        lemma_fundamental_div_mod_converse(xa, p64(),
            (low_hi as int) + (low_lo as int), rem);
    }
    let low = low_hi + low_lo;
    let ghost liq = liquidity_for_amount(amount as int, sl as int, su as int);
    proof {
        assert(liq == (qv * amount) / p64());
        assert(low as int == xa / p64());
    }
    if q.w3 != 0 {
        proof {
            // qv is at least 2^192, so the result exceeds the 128-bit width.
            assert(qv >= p192()) by (nonlinear_arith)
                requires
                    qv == q.w0 + q.w1 * p64() + q.w2 * p128() + q.w3 * p192(),
                    q.w3 >= 1u64, q.w0 >= 0u64, q.w1 >= 0u64, q.w2 >= 0u64;
            assert(qv * amount >= p192() * 1) by (nonlinear_arith)
                requires qv >= p192(), amount >= 1u128;
            lemma_div_is_ordered(p192(), qv * (amount as int), p64());
            lemma_div_multiples_vanish(p128(), p64());
            assert(p64() * p128() == p192()) by (nonlinear_arith);
            assert(liq >= p128());
        }
        return Err(ErrorCode::WhirlpoolNumberDownCastError);
    }
    let qh = (q.w1 as u128) + (q.w2 as u128) * p64c;
    let ghost rem2 = xa % p64();
    proof {
        assert((q.w2 as u128) * p64c <= 0xffffffffffffffffint * 0x10000000000000000int)
            by (nonlinear_arith)
            requires q.w2 <= 0xffffffffffffffffu64, p64c == 0x10000000000000000u128;
        // qv splits as qh * 2^64 + ql, hence liquidity == qh * amount + low.
        assert(qv == (qh as int) * p64() + ql) by (nonlinear_arith)
            requires
                qv == q.w0 + q.w1 * p64() + q.w2 * p128() + q.w3 * p192(),
                q.w3 == 0u64,
                qh as int == q.w1 + (q.w2 as int) * p64(),
                ql == q.w0 as u128,
                p128() == p64() * p64();
        lemma_fundamental_div_mod(xa, p64());
        assert(qv * amount == p64() * ((qh as int) * (amount as int) + low) + rem2)
            by (nonlinear_arith)
            requires
                qv == (qh as int) * p64() + ql,
                xa == ql as int * amount as int,
                xa == p64() * (low as int) + rem2,
                rem2 == xa % p64();
        assert(0 <= rem2 < p64());
        assert((qh as int) * (amount as int) >= 0) by (nonlinear_arith)
            requires qh >= 0u128, amount >= 0u128;
        lemma_fundamental_div_mod_converse(qv * (amount as int), p64(),
            (qh as int) * (amount as int) + low, rem2);
        assert(liq == (qh as int) * (amount as int) + low);
    }
    if qh == 0 {
        proof {
            assert(0int * (amount as int) == 0) by (nonlinear_arith);
        }
        return Ok(low);
    }
    let max_over_qh = u128::MAX / qh;
    if amount > max_over_qh {
        proof {
            lemma_fundamental_div_mod(u128::MAX as int, qh as int);
            assert((qh as int) * (amount as int) > u128::MAX) by (nonlinear_arith)
                requires
                    u128::MAX as int == (qh as int) * ((u128::MAX / qh) as int)
                        + u128::MAX as int % (qh as int),
                    u128::MAX as int % (qh as int) < qh,
                    amount as int >= (u128::MAX / qh) as int + 1,
                    qh >= 1u128;
        }
        return Err(ErrorCode::WhirlpoolNumberDownCastError);
    }
    proof {
        lemma_fundamental_div_mod(u128::MAX as int, qh as int);
        assert((qh as int) * (amount as int) <= u128::MAX) by (nonlinear_arith)
            requires
                amount <= u128::MAX / qh,
                u128::MAX as int == (qh as int) * ((u128::MAX / qh) as int)
                    + u128::MAX as int % (qh as int),
                u128::MAX as int % (qh as int) >= 0,
                qh >= 1u128,
                amount >= 0u128;
    }
    let prod_h = qh * amount;
    if low > u128::MAX - prod_h {
        return Err(ErrorCode::WhirlpoolNumberDownCastError);
    }
    Ok(prod_h + low)
}

/// The asset-A amount the AMM's two-sided delta calculator derives from a
/// liquidity value across the range, rounded down:
/// `floor(liquidity * 2^64 * (sqrt_upper - sqrt_lower) / (sqrt_lower * sqrt_upper))`.
pub open spec fn token_a_delta_floor(liquidity: int, sl: int, su: int) -> int {
    (liquidity * p64() * (su - sl)) / (sl * su)
}

/// Law (floor-division monotonicity): for a valid range, feeding the sized
/// liquidity back through the delta formula asks for at most the original
/// one-sided deposit.
pub proof fn lemma_fund_sizing_round_trip(amount: int, sl: int, su: int)
    requires
        1 <= sl,
        sl < su,
        0 <= amount,
    ensures
        0 <= liquidity_for_amount(amount, sl, su),
        token_a_delta_floor(liquidity_for_amount(amount, sl, su), sl, su) <= amount,
{
    let d = su - sl;
    let pr = sl * su;
    let q = liquidity_ratio(sl, su);
    let liq = liquidity_for_amount(amount, sl, su);
    assert(pr >= 2) by (nonlinear_arith) requires sl >= 1, su >= 2, pr == sl * su;
    lemma_div_pos_is_pos(pr, d);
    lemma_fundamental_div_mod(pr, d);
    assert(q * d <= pr) by (nonlinear_arith)
        requires pr == d * q + pr % d, pr % d >= 0;
    assert(q * amount >= 0) by (nonlinear_arith) requires q >= 0, amount >= 0;
    lemma_div_pos_is_pos(q * amount, p64());
    lemma_fundamental_div_mod(q * amount, p64());
    assert(liq * p64() <= q * amount) by (nonlinear_arith)
        requires
            q * amount == p64() * liq + (q * amount) % p64(),
            (q * amount) % p64() >= 0;
    lemma_mul_inequality(liq * p64(), q * amount, d);
    assert((q * amount) * d == (q * d) * amount) by (nonlinear_arith);
    lemma_mul_inequality(q * d, pr, amount);
    assert(liq * p64() * d <= pr * amount) by (nonlinear_arith)
        requires
            (liq * p64()) * d <= (q * amount) * d,
            (q * amount) * d == (q * d) * amount,
            (q * d) * amount <= pr * amount;
    lemma_div_is_ordered(liq * p64() * d, pr * amount, pr);
    lemma_div_multiples_vanish(amount, pr);
    assert(pr * amount == amount * pr) by (nonlinear_arith);
    assert((pr * amount) / pr == amount);
}

} // verus!
