//! Exact 256-bit arithmetic on pairs of 128-bit halves.
//!
//! The fee estimate multiplies table values whose product can leave 128
//! bits, and the host's registers carry 256: these helpers compute the
//! product and the quotient exactly, a value being `lo + hi * 2^128`.

use vstd::prelude::*;
use vstd::arithmetic::div_mod::{
    lemma_basic_div, lemma_div_is_ordered_by_denominator, lemma_fundamental_div_mod,
    lemma_fundamental_div_mod_converse_div, lemma_fundamental_div_mod_converse_mod,
    lemma_small_mod,
};
use vstd::arithmetic::power2::{
    lemma2_to64, lemma2_to64_rest, lemma_pow2_adds, lemma_pow2_pos, pow2,
};

verus! {

/// Two to the sixty-fourth.
pub open spec fn p64() -> int {
    0x10000000000000000int
}

/// Two to the hundred-twenty-eighth: the weight of the high half.
pub open spec fn p128() -> int {
    0x100000000000000000000000000000000int
}

/// Two to the two-hundred-fifty-sixth: past every representable value.
pub open spec fn p256() -> int {
    p128() * p128()
}

/// The value a pair of halves carries.
pub open spec fn wide_val(lo: u128, hi: u128) -> int {
    lo + hi * p128()
}

/// `pow2` agrees with the fixed weights.
proof fn lemma_pow2_constants()
    ensures
        pow2(64) == p64(),
        pow2(127) == 0x80000000000000000000000000000000int,
        pow2(128) == p128(),
        pow2(256) == p256(),
{
    lemma2_to64();
    lemma2_to64_rest();
    lemma_pow2_adds(64, 64);
    lemma_pow2_adds(64, 63);
    lemma_pow2_adds(128, 128);
    assert(pow2(64) * pow2(63) == 0x80000000000000000000000000000000int) by (nonlinear_arith)
        requires
            pow2(64) == 0x10000000000000000nat,
            pow2(63) == 0x8000000000000000nat,
    ;
}

/// Sum of two halves, with its carry: the pair carries exactly `a + b`.
fn add_carry(a: u128, b: u128) -> (r: (u128, u128))
    ensures
        r.0 + r.1 * p128() == a + b,
        r.1 <= 1,
{
    match a.checked_add(b) {
        Some(v) => (v, 0),
        None => ((a - (u128::MAX - b)) - 1, 1),
    }
}

/// The exact 256-bit product of two 128-bit values, as two halves.
pub fn mul_wide(a: u128, b: u128) -> (r: (u128, u128))
    ensures
        wide_val(r.0, r.1) == a * b,
{
    let t: u128 = 0x10000000000000000;
    let a1 = a / t;
    let a0 = a % t;
    let b1 = b / t;
    let b0 = b % t;
    proof {
        assert(a0 < t && b0 < t && a1 < t && b1 < t) by (nonlinear_arith)
            requires
                t == 0x10000000000000000u128,
                a0 == a % t,
                b0 == b % t,
                a1 == a / t,
                b1 == b / t,
                a <= u128::MAX,
                b <= u128::MAX,
        ;
        assert(a0 * b0 <= (t - 1) * (t - 1) && a0 * b1 <= (t - 1) * (t - 1) && a1 * b0 <= (t - 1)
            * (t - 1) && a1 * b1 <= (t - 1) * (t - 1)) by (nonlinear_arith)
            requires
                a0 < t,
                b0 < t,
                a1 < t,
                b1 < t,
                t == 0x10000000000000000u128,
        ;
    }
    let p00 = a0 * b0;
    let p01 = a0 * b1;
    let p10 = a1 * b0;
    let p11 = a1 * b1;
    let (mid, mc) = add_carry(p01, p10);
    let mid1 = mid / t;
    let mid0 = mid % t;
    proof {
        assert(mid0 < t && mid1 < t) by (nonlinear_arith)
            requires
                t == 0x10000000000000000u128,
                mid0 == mid % t,
                mid1 == mid / t,
                mid <= u128::MAX,
        ;
        assert(mid0 * t < t * t) by (nonlinear_arith)
            requires
                mid0 < t,
                t == 0x10000000000000000u128,
        ;
    }
    let (lo, lc) = add_carry(p00, mid0 * t);
    proof {
        // The whole product, collected at the weight of the high half.
        assert((a as int) * (b as int) == p11 * p128() + (p01 + p10) * p64() + p00)
            by (nonlinear_arith)
            requires
                a == a1 * (p64() as int) + a0,
                b == b1 * (p64() as int) + b0,
                p00 == a0 * b0,
                p01 == a0 * b1,
                p10 == a1 * b0,
                p11 == a1 * b1,
                p128() == p64() * p64(),
        ;
        assert((p01 + p10) * p64() == mc * p64() * p128() + mid1 * p128() + mid0 * p64())
            by (nonlinear_arith)
            requires
                p01 + p10 == mc * p128() + mid,
                mid == mid1 * (p64() as int) + mid0,
                p128() == p64() * p64(),
        ;
        assert(a as int * b as int == (p11 + mc * p64() + mid1 + lc) * p128() + lo)
            by (nonlinear_arith)
            requires
                a as int * b as int == p11 * p128() + (p01 + p10) * p64() + p00,
                (p01 + p10) * p64() == mc * p64() * p128() + mid1 * p128() + mid0 * p64(),
                p00 + mid0 * (p64() as int) == lc * p128() + lo,
        ;
        // The high half fits: the product stays below 2^256.
        assert((a as int) * (b as int) <= (p128() - 1) * (p128() - 1)) by (nonlinear_arith)
            requires
                a <= u128::MAX,
                b <= u128::MAX,
                u128::MAX == p128() - 1,
        ;
        assert(p11 + mc * p64() + mid1 + lc <= u128::MAX) by (nonlinear_arith)
            requires
                (p11 + mc * p64() + mid1 + lc) * p128() + lo == a as int * b as int,
                a as int * b as int <= (p128() - 1) * (p128() - 1),
                lo >= 0,
                u128::MAX == p128() - 1,
        ;
    }
    let hi = p11 + mc * t + mid1 + lc;
    (lo, hi)
}

/// One step of binary long division: halving the power splits off the
/// next bit of the dividend.
proof fn lemma_div_step(v: int, n: nat)
    requires
        v >= 0,
        n >= 1,
    ensures
        0 <= (v % pow2(n) as int) / pow2((n - 1) as nat) as int <= 1,
        v % pow2(n) as int == ((v % pow2(n) as int) / pow2((n - 1) as nat) as int) * pow2(
            (n - 1) as nat,
        ) + v % pow2((n - 1) as nat) as int,
        v / pow2((n - 1) as nat) as int == 2 * (v / pow2(n) as int) + (v % pow2(n) as int) / pow2(
            (n - 1) as nat,
        ) as int,
{
    let pn = pow2(n) as int;
    let pn1 = pow2((n - 1) as nat) as int;
    let pre = v / pn;
    let s = v % pn;
    let b = s / pn1;
    let s2 = s % pn1;
    lemma_pow2_pos(n);
    lemma_pow2_pos((n - 1) as nat);
    lemma_pow2_adds((n - 1) as nat, 1);
    lemma2_to64();
    assert(pn == 2 * pn1);
    lemma_fundamental_div_mod(v, pn);
    lemma_fundamental_div_mod(s, pn1);
    assert(0 <= b && b <= 1) by (nonlinear_arith)
        requires
            s == pn1 * b + s2,
            0 <= s2 < pn1,
            0 <= s < 2 * pn1,
            pn1 > 0,
    ;
    assert(v == (2 * pre + b) * pn1 + s2) by (nonlinear_arith)
        requires
            v == pn * pre + s,
            s == pn1 * b + s2,
            pn == 2 * pn1,
    ;
    lemma_fundamental_div_mod_converse_div(v, pn1, 2 * pre + b, s2);
    lemma_fundamental_div_mod_converse_mod(v, pn1, 2 * pre + b, s2);
}

/// The exact floor quotient of a 256-bit value by a nonzero divisor:
/// binary long division, one dividend bit per step.
pub fn div_wide(lo: u128, hi: u128, d: u128) -> (r: (u128, u128))
    requires
        d != 0,
    ensures
        wide_val(r.0, r.1) == wide_val(lo, hi) / (d as int),
{
    let h: u128 = 0x80000000000000000000000000000000;
    let ghost v = wide_val(lo, hi);
    let mut dlo = lo;
    let mut dhi = hi;
    let mut qlo: u128 = 0;
    let mut qhi: u128 = 0;
    let mut rem: u128 = 0;
    let mut k: usize = 0;
    proof {
        lemma_pow2_constants();
        lemma_pow2_pos(256);
        assert(0 <= v < p256()) by (nonlinear_arith)
            requires
                v == lo + hi * p128(),
                lo <= u128::MAX,
                hi <= u128::MAX,
                u128::MAX == p128() - 1,
                p256() == p128() * p128(),
        ;
        lemma_basic_div(v, pow2(256) as int);
        lemma_small_mod(v as nat, pow2(256));
        assert(wide_val(0, 0) * d + 0 == v / pow2(256) as int) by (nonlinear_arith)
            requires
                v / pow2(256) as int == 0,
                wide_val(0, 0) == 0,
        ;
        assert(pow2(0) == 1) by {
            lemma2_to64();
        }
        assert(wide_val(lo, hi) == (v % pow2(256) as int) * pow2(0) as int) by (nonlinear_arith)
            requires
                v % pow2(256) as int == v,
                v == wide_val(lo, hi),
                pow2(0) == 1nat,
        ;
    }
    while k < 256
        invariant
            d > 0,
            k <= 256,
            h == 0x80000000000000000000000000000000u128,
            v == wide_val(lo, hi),
            0 <= v < p256(),
            wide_val(qlo, qhi) * d + rem == v / pow2((256 - k) as nat) as int,
            rem < d,
            wide_val(dlo, dhi) == (v % pow2((256 - k) as nat) as int) * pow2(k as nat) as int,
        decreases 256 - k,
    {
        let ghost n = (256 - k) as nat;
        let ghost pn = pow2(n) as int;
        let ghost pn1 = pow2((n - 1) as nat) as int;
        let ghost pk = pow2(k as nat) as int;
        let ghost pre = v / pn;
        let ghost s = v % pn;
        let ghost b = s / pn1;
        let ghost s2 = s % pn1;
        let ghost qval = wide_val(qlo, qhi);
        let ghost dval = wide_val(dlo, dhi);
        proof {
            lemma_pow2_constants();
            lemma_pow2_pos(n);
            lemma_pow2_pos((n - 1) as nat);
            lemma_pow2_pos(k as nat);
            lemma_div_step(v, n);
            lemma_fundamental_div_mod(s, pn1);
            // the dividend's top bit is the next quotient-input bit
            lemma_pow2_adds((n - 1) as nat, k as nat);
            lemma_pow2_adds(127, 128);
            assert(pn1 * pk == pow2(255));
            assert(dval == b * pow2(255) + s2 * pk) by (nonlinear_arith)
                requires
                    dval == s * pk,
                    s == pn1 * b + s2,
                    pn1 * pk == pow2(255),
            ;
            assert(0 <= s2 * pk < pow2(255)) by (nonlinear_arith)
                requires
                    0 <= s2 < pn1,
                    pk > 0,
                    pn1 * pk == pow2(255),
            ;
            assert(pow2(255) == (h as int) * p128()) by (nonlinear_arith)
                requires
                    pow2(255) == pow2(127) * pow2(128),
                    pow2(127) == h as int,
                    pow2(128) == p128(),
            ;
            assert((dhi >= h) <==> b == 1) by (nonlinear_arith)
                requires
                    dval == dlo + dhi * p128(),
                    dval == b * pow2(255) + s2 * pk,
                    0 <= s2 * pk < pow2(255),
                    0 <= b <= 1,
                    0 <= dlo < p128(),
                    0 <= dhi,
                    h == 0x80000000000000000000000000000000u128,
                    pow2(255) == (h as int) * p128(),
            ;
            // the quotient so far stays below half range
            assert(qval <= pre) by (nonlinear_arith)
                requires
                    qval * d + rem == pre,
                    rem >= 0,
                    d >= 1,
                    qval >= 0,
            ;
            assert(pn >= 2) by {
                lemma2_to64();
                vstd::arithmetic::power2::lemma_pow2_strictly_increases(0, n);
            }
            lemma_div_is_ordered_by_denominator(v, 2, pn);
            assert(v / 2 < pow2(255)) by (nonlinear_arith)
                requires
                    0 <= v < p256(),
                    p256() == 2 * pow2(255),
            ;
            assert(p256() == 2 * pow2(255)) by {
                lemma_pow2_adds(1, 255);
                lemma2_to64();
            }
            assert(qhi < h) by (nonlinear_arith)
                requires
                    qval == qlo + qhi * p128(),
                    qval < pow2(255),
                    pow2(255) == (h as int) * p128(),
                    qlo >= 0,
                    qhi >= 0,
            ;
        }
        // split off the dividend's top bit and shift it left once
        let top = if dhi >= h {
            1u128
        } else {
            0u128
        };
        let dhi2 = if dhi >= h {
            dhi - h
        } else {
            dhi
        };
        let dlo_top = if dlo >= h {
            1u128
        } else {
            0u128
        };
        let dlo2 = if dlo >= h {
            dlo - h
        } else {
            dlo
        };
        let new_dhi = dhi2 * 2 + dlo_top;
        let new_dlo = dlo2 * 2;
        // pull the bit into the remainder; take the divisor out when it fits
        let (new_rem, qbit) = if rem >= h {
            ((((rem - h) * 2 + top) + (u128::MAX - d)) + 1, 1u128)
        } else {
            let r2 = rem * 2 + top;
            if r2 >= d {
                (r2 - d, 1u128)
            } else {
                (r2, 0u128)
            }
        };
        // append the quotient bit
        let qlo_top = if qlo >= h {
            1u128
        } else {
            0u128
        };
        let qlo2 = if qlo >= h {
            qlo - h
        } else {
            qlo
        };
        let new_qlo = qlo2 * 2 + qbit;
        let new_qhi = qhi * 2 + qlo_top;
        proof {
            lemma_pow2_adds(k as nat, 1);
            lemma2_to64();
            // the shifted dividend carries the remaining low bits
            assert(wide_val(new_dlo, new_dhi) == s2 * pow2((k + 1) as nat) as int)
                by (nonlinear_arith)
                requires
                    wide_val(new_dlo, new_dhi) == 2 * dval - (top as int) * p256(),
                    dval == b * pow2(255) + s2 * pk,
                    top == b,
                    p256() == 2 * pow2(255),
                    pow2((k + 1) as nat) == 2 * pk,
                    pow2(255) == (h as int) * p128(),
            ;
            // the quotient and remainder absorb the bit
            assert(wide_val(new_qlo, new_qhi) * d + new_rem == v / pn1) by (nonlinear_arith)
                requires
                    wide_val(new_qlo, new_qhi) == 2 * qval + qbit,
                    new_rem == 2 * rem + b - qbit * d,
                    v / pn1 == 2 * pre + b,
                    qval * d + rem == pre,
            ;
        }
        dlo = new_dlo;
        dhi = new_dhi;
        rem = new_rem;
        qlo = new_qlo;
        qhi = new_qhi;
        k = k + 1;
    }
    proof {
        assert(pow2(0) == 1) by {
            lemma2_to64();
        }
        vstd::arithmetic::div_mod::lemma_div_basics(v);
        assert(wide_val(qlo, qhi) * d + rem == v);
        lemma_fundamental_div_mod_converse_div(v, d as int, wide_val(qlo, qhi), rem as int);
    }
    (qlo, qhi)
}

/// The sum of two 128-bit values as a wide value: it always fits.
pub fn wide_from_add(a: u128, b: u128) -> (r: (u128, u128))
    ensures
        wide_val(r.0, r.1) == a + b,
{
    add_carry(a, b)
}

/// A wide value plus a 128-bit value; `None` when the sum leaves 256
/// bits.
pub fn wide_add_small(lo: u128, hi: u128, b: u128) -> (r: Option<(u128, u128)>)
    ensures
        match r {
            Some(v) => wide_val(v.0, v.1) == wide_val(lo, hi) + b,
            None => wide_val(lo, hi) + b >= p256(),
        },
{
    let (lo2, c) = add_carry(lo, b);
    match hi.checked_add(c) {
        Some(h2) => {
            proof {
                assert(wide_val(lo2, h2) == wide_val(lo, hi) + b) by (nonlinear_arith)
                    requires
                        lo2 + c * p128() == lo + b,
                        h2 == hi + c,
                        wide_val(lo2, h2) == lo2 + h2 * p128(),
                        wide_val(lo, hi) == lo + hi * p128(),
                ;
            }
            Some((lo2, h2))
        },
        None => {
            proof {
                assert(wide_val(lo, hi) + b >= p256()) by (nonlinear_arith)
                    requires
                        lo2 + c * p128() == lo + b,
                        hi + c > u128::MAX,
                        u128::MAX == p128() - 1,
                        lo2 >= 0,
                        wide_val(lo, hi) == lo + hi * p128(),
                        p256() == p128() * p128(),
                ;
            }
            None
        },
    }
}

/// A wide value times a 128-bit value; `None` when the product leaves
/// 256 bits.
pub fn wide_mul_u128(lo: u128, hi: u128, b: u128) -> (r: Option<(u128, u128)>)
    ensures
        match r {
            Some(v) => wide_val(v.0, v.1) == wide_val(lo, hi) * b,
            None => wide_val(lo, hi) * b >= p256(),
        },
{
    let (l1, h1) = mul_wide(lo, b);
    let (l2, h2) = mul_wide(hi, b);
    proof {
        assert(wide_val(lo, hi) * b == l1 + (h1 + l2) * p128() + h2 * p256()) by (nonlinear_arith)
            requires
                l1 + h1 * p128() == lo * b,
                l2 + h2 * p128() == hi * b,
                wide_val(lo, hi) == lo + hi * p128(),
                p256() == p128() * p128(),
        ;
    }
    if h2 > 0 {
        proof {
            assert(wide_val(lo, hi) * b >= p256()) by (nonlinear_arith)
                requires
                    wide_val(lo, hi) * b == l1 + (h1 + l2) * p128() + h2 * p256(),
                    h2 >= 1,
                    l1 >= 0,
                    h1 >= 0,
                    l2 >= 0,
                    p128() > 0,
                    p256() > 0,
            ;
        }
        return None;
    }
    match h1.checked_add(l2) {
        Some(hh) => {
            proof {
                assert(wide_val(l1, hh) == wide_val(lo, hi) * b) by (nonlinear_arith)
                    requires
                        wide_val(lo, hi) * b == l1 + (h1 + l2) * p128() + h2 * p256(),
                        h2 == 0,
                        hh == h1 + l2,
                        wide_val(l1, hh) == l1 + hh * p128(),
                ;
            }
            Some((l1, hh))
        },
        None => {
            proof {
                assert(wide_val(lo, hi) * b >= p256()) by (nonlinear_arith)
                    requires
                        wide_val(lo, hi) * b == l1 + (h1 + l2) * p128() + h2 * p256(),
                        h1 + l2 > u128::MAX,
                        u128::MAX == p128() - 1,
                        l1 >= 0,
                        h2 >= 0,
                        p256() == p128() * p128(),
                        p256() > 0,
                ;
            }
            None
        },
    }
}

/// A wide value back as a single half, when it fits.
pub fn wide_to_u128(lo: u128, hi: u128) -> (r: Option<u128>)
    ensures
        match r {
            Some(v) => v == wide_val(lo, hi),
            None => wide_val(lo, hi) > u128::MAX,
        },
{
    if hi == 0 {
        Some(lo)
    } else {
        proof {
            assert(wide_val(lo, hi) > u128::MAX) by (nonlinear_arith)
                requires
                    wide_val(lo, hi) == lo + hi * p128(),
                    hi >= 1,
                    lo >= 0,
                    u128::MAX == p128() - 1,
            ;
        }
        None
    }
}

} // verus!
