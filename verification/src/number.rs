//! JavaScript numbers.
//!
//! Every JavaScript number is an IEEE-754 binary64 value. The host language
//! has integers beside its doubles, so the bridge needs two conversions: from
//! a 64-bit integer to the nearest double, and from a double back to a 32-bit
//! integer where it holds one. Both work on the bit pattern of the double:
//! one sign bit, eleven exponent bits biased by 1023, and 52 fraction bits
//! below an implicit leading one.

use vstd::arithmetic::div_mod::*;
use vstd::arithmetic::mul::*;
use vstd::arithmetic::power2::*;
use vstd::prelude::*;

verus! {

/// 2^52: the implicit leading bit of a significand.
pub const TWO_52: u64 = 0x10_0000_0000_0000;

/// 2^53: the first integer whose successor has no double of its own.
pub const TWO_53: u64 = 0x20_0000_0000_0000;

/// 2^63: the sign bit.
pub const SIGN_BIT: u64 = 0x8000_0000_0000_0000;

/// The bias of the exponent field.
pub const BIAS: u64 = 1023;

/// The position of the highest set bit of `m`; 0 for 0.
pub open spec fn floor_log2(m: nat) -> nat
    decreases m,
{
    if m <= 1 {
        0
    } else {
        1 + floor_log2(m / 2)
    }
}

/// The significand, in `[2^52, 2^53)`, and the unbiased exponent of the double
/// nearest to the positive integer `mag`: exact below 2^53, rounded to nearest
/// above, a tie going to the even significand.
pub open spec fn significand_and_exponent(mag: nat) -> (nat, nat) {
    let e = floor_log2(mag);
    if e <= 52 {
        (mag * pow2((52 - e) as nat), e)
    } else {
        let d = pow2((e - 52) as nat);
        let q = mag / d;
        let r = mag % d;
        let rounded = if 2 * r > d || (2 * r == d && q % 2 == 1) {
            q + 1
        } else {
            q
        };
        if rounded == TWO_53 {
            (TWO_52 as nat, e + 1)
        } else {
            (rounded, e)
        }
    }
}

/// The bit pattern of the double nearest to the integer `n`.
pub open spec fn double_bits(n: int) -> u64 {
    if n == 0 {
        0
    } else {
        let mag = (if n < 0 { -n } else { n }) as nat;
        let (sig, e) = significand_and_exponent(mag);
        let sign = if n < 0 { SIGN_BIT as int } else { 0 };
        (sign + (e + BIAS) * TWO_52 + (sig - TWO_52)) as u64
    }
}

/// The 32-bit integer that the double with the bit pattern `bits` holds, if it
/// holds one. Negative zero, fractions, infinities and NaN hold none.
pub open spec fn int32_value(bits: u64) -> Option<i32> {
    let negative = bits >= SIGN_BIT;
    let rest = bits % SIGN_BIT;
    let exp = rest / TWO_52;
    let frac = rest % TWO_52;
    if bits == 0 {
        Some(0i32)
    } else if BIAS <= exp <= BIAS + 31 {
        let d = pow2((BIAS + 52 - exp) as nat);
        let sig = TWO_52 + frac;
        let v = sig / d as int;
        let k = if negative { -v } else { v };
        if sig % d as int == 0 && i32::MIN <= k <= i32::MAX {
            Some(k as i32)
        } else {
            None
        }
    } else {
        None
    }
}

/// `2^floor_log2(m) <= m < 2^(floor_log2(m) + 1)` for a positive `m`.
pub proof fn lemma_floor_log2_bounds(m: nat)
    requires
        m >= 1,
    ensures
        pow2(floor_log2(m)) <= m < 2 * pow2(floor_log2(m)),
    decreases m,
{
    reveal(pow2);
    lemma2_to64();
    if m > 1 {
        lemma_floor_log2_bounds(m / 2);
        lemma_pow2_unfold(floor_log2(m));
    }
}

/// A number below `2^k` has its highest bit below position `k`.
pub proof fn lemma_floor_log2_below(m: nat, k: nat)
    requires
        1 <= m < pow2(k),
    ensures
        floor_log2(m) < k,
{
    lemma_floor_log2_bounds(m);
    if floor_log2(m) >= k {
        if floor_log2(m) > k {
            lemma_pow2_strictly_increases(k, floor_log2(m));
        }
    }
}

/// A number from `2^k` on has its highest bit at position `k` or above.
pub proof fn lemma_floor_log2_from(m: nat, k: nat)
    requires
        pow2(k) <= m,
    ensures
        floor_log2(m) >= k,
{
    lemma_pow2_pos(k);
    lemma_floor_log2_bounds(m);
    if floor_log2(m) < k {
        lemma_pow2_unfold((floor_log2(m) + 1) as nat);
        if floor_log2(m) + 1 < k {
            lemma_pow2_strictly_increases((floor_log2(m) + 1) as nat, k);
        }
    }
}

/// `2^k` as a machine integer.
fn pow2_u64(k: u64) -> (p: u64)
    requires
        k <= 63,
    ensures
        p == pow2(k as nat),
{
    let mut p: u64 = 1;
    let mut i: u64 = 0;
    proof {
        lemma2_to64();
    }
    while i < k
        invariant
            i <= k <= 63,
            p == pow2(i as nat),
        decreases k - i,
    {
        proof {
            lemma_pow2_unfold((i + 1) as nat);
            if i + 1 < 63 {
                lemma_pow2_strictly_increases((i + 1) as nat, 63);
            }
            lemma2_to64_rest();
        }
        p = p * 2;
        i = i + 1;
    }
    p
}

/// The position of the highest set bit of a positive `m`.
fn floor_log2_u64(m: u64) -> (e: u64)
    requires
        m >= 1,
    ensures
        e == floor_log2(m as nat),
        e <= 63,
{
    let mut t: u64 = m;
    let mut e: u64 = 0;
    proof {
        lemma2_to64();
        lemma_floor_log2_below(m as nat, 64);
    }
    while t > 1
        invariant
            t >= 1,
            e + floor_log2(t as nat) == floor_log2(m as nat),
            floor_log2(m as nat) <= 63,
        decreases t,
    {
        t = t / 2;
        e = e + 1;
    }
    e
}

/// A double, held by its bit pattern.
#[derive(Clone, Copy, Debug, PartialEq, Eq, Structural)]
pub struct Double {
    pub bits: u64,
}

impl Double {
    /// The double with the given bit pattern.
    pub fn from_bits(bits: u64) -> (d: Double)
        ensures
            d.bits == bits,
    {
        Double { bits }
    }

    /// The bit pattern of the double.
    pub fn to_bits(&self) -> (bits: u64)
        ensures
            bits == self.bits,
    {
        self.bits
    }

    /// The double nearest to `n`, a tie going to the even significand.
    pub fn from_i64(n: i64) -> (d: Double)
        ensures
            d.bits == double_bits(n as int),
    {
        if n == 0 {
            return Double { bits: 0 };
        }
        let mag: u64 = if n < 0 {
            (-(n + 1)) as u64 + 1
        } else {
            n as u64
        };
        let e = floor_log2_u64(mag);
        proof {
            lemma_floor_log2_bounds(mag as nat);
            lemma2_to64();
            lemma2_to64_rest();
        }
        let mut exponent: u64 = e;
        let sig: u64;
        if e <= 52 {
            let p = pow2_u64(52 - e);
            proof {
                lemma_pow2_adds(e as nat, (52 - e) as nat);
                lemma_pow2_pos((52 - e) as nat);
                lemma_mul_strict_inequality(
                    mag as int,
                    2 * pow2(e as nat) as int,
                    p as int,
                );
                lemma_mul_inequality(pow2(e as nat) as int, mag as int, p as int);
                assert(2 * pow2(e as nat) * p == 2 * (pow2(e as nat) * p)) by (nonlinear_arith);
            }
            sig = mag * p;
        } else {
            let d = pow2_u64(e - 52);
            proof {
                lemma_pow2_adds(53, (e - 52) as nat);
                lemma_pow2_adds(52, (e - 52) as nat);
                lemma_pow2_pos((e - 52) as nat);
                lemma_pow2_strictly_increases((e - 52) as nat, 12);
                lemma_pow2_unfold((e + 1) as nat);
                // mag < 2^53 * d, so mag / d < 2^53; mag >= 2^52 * d, so mag / d >= 2^52.
                lemma_multiply_divide_lt(mag as int, d as int, TWO_53 as int);
                lemma_div_is_ordered((TWO_52 * d) as int, mag as int, d as int);
                lemma_div_multiples_vanish(TWO_52 as int, d as int);
            }
            let q = mag / d;
            let r = mag % d;
            let rounded = if 2 * r > d || (2 * r == d && q % 2 == 1) {
                q + 1
            } else {
                q
            };
            if rounded == TWO_53 {
                sig = TWO_52;
                exponent = e + 1;
            } else {
                sig = rounded;
            }
        }
        let sign: u64 = if n < 0 { SIGN_BIT } else { 0 };
        Double { bits: sign + (exponent + BIAS) * TWO_52 + (sig - TWO_52) }
    }

    /// The 32-bit integer that the double holds, if it holds one.
    pub fn as_int32(&self) -> (k: Option<i32>)
        ensures
            k == int32_value(self.bits),
    {
        let bits = self.bits;
        if bits == 0 {
            return Some(0);
        }
        let negative = bits >= SIGN_BIT;
        let rest = bits % SIGN_BIT;
        let exp = rest / TWO_52;
        let frac = rest % TWO_52;
        if exp < BIAS || exp > BIAS + 31 {
            return None;
        }
        let d = pow2_u64(BIAS + 52 - exp);
        let sig = TWO_52 + frac;
        proof {
            lemma_pow2_pos((BIAS + 52 - exp) as nat);
        }
        if sig % d != 0 {
            return None;
        }
        let v = sig / d;
        proof {
            lemma2_to64();
            lemma2_to64_rest();
            lemma_pow2_strictly_increases(20, (BIAS + 52 - exp) as nat);
            lemma_div_is_ordered_by_denominator(sig as int, pow2(21) as int, d as int);
            lemma_div_is_ordered(sig as int, TWO_53 as int, pow2(21) as int);
        }
        if negative {
            if v <= 0x8000_0000 {
                Some((-(v as i64)) as i32)
            } else {
                None
            }
        } else {
            if v <= 0x7fff_ffff {
                Some(v as i32)
            } else {
                None
            }
        }
    }
}

/// A 32-bit integer survives the way to a double and back.
pub proof fn lemma_int32_round_trip(k: i32)
    ensures
        int32_value(double_bits(k as int)) == Some(k),
{
    if k != 0 {
        let mag = (if k < 0 { -k } else { k as int }) as nat;
        lemma2_to64();
        lemma2_to64_rest();
        assert(mag < pow2(32));
        lemma_floor_log2_below(mag, 32);
        lemma_floor_log2_bounds(mag);
        let e = floor_log2(mag);
        let p = pow2((52 - e) as nat);
        let sig = mag * p;
        lemma_pow2_adds(e, (52 - e) as nat);
        lemma_pow2_pos((52 - e) as nat);
        lemma_mul_strict_inequality(mag as int, 2 * pow2(e) as int, p as int);
        lemma_mul_inequality(pow2(e) as int, mag as int, p as int);
        assert(2 * pow2(e) * p == 2 * (pow2(e) * p)) by (nonlinear_arith);
        assert(TWO_52 <= sig < TWO_53);
        let bits = double_bits(k as int);
        let sign = if k < 0 { SIGN_BIT as int } else { 0 };
        assert(bits == sign + (e + BIAS) * TWO_52 + (sig - TWO_52));
        let rest = bits % SIGN_BIT;
        assert(rest == (e + BIAS) * TWO_52 + (sig - TWO_52));
        assert(rest / TWO_52 == e + BIAS);
        assert(rest % TWO_52 == sig - TWO_52);
        assert(sig / p == mag && sig % p == 0) by {
            lemma_mul_is_commutative(mag as int, p as int);
            lemma_div_multiples_vanish(mag as int, p as int);
            lemma_mod_multiples_basic(mag as int, p as int);
        }
        assert((BIAS + 52 - rest / TWO_52) as nat == (52 - e) as nat);
        assert(TWO_52 + rest % TWO_52 == sig);
        assert((bits >= SIGN_BIT) == (k < 0));
        assert(bits != 0);
    }
}

/// A double holds the 32-bit integer `k` exactly where it is the double
/// nearest to `k`.
pub proof fn lemma_int32_value_inverts(bits: u64, k: i32)
    ensures
        int32_value(bits) == Some(k) <==> double_bits(k as int) == bits,
{
    lemma_int32_round_trip(k);
    if int32_value(bits) == Some(k) && bits != 0 {
        lemma2_to64();
        lemma2_to64_rest();
        let negative = bits >= SIGN_BIT;
        let rest = bits % SIGN_BIT;
        let exp = rest / TWO_52;
        let frac = rest % TWO_52;
        let e = (exp - BIAS) as nat;
        let d = pow2((52 - e) as nat);
        let sig = (TWO_52 + frac) as nat;
        let v = sig / d;
        lemma_pow2_pos((52 - e) as nat);
        lemma_pow2_adds(e, (52 - e) as nat);
        assert(sig == d * v) by {
            lemma_fundamental_div_mod(sig as int, d as int);
        }
        assert(pow2(e) <= v < 2 * pow2(e)) by {
            // d * 2^e == 2^52 <= d * v < 2^53 == d * 2^(e + 1)
            if v < pow2(e) {
                lemma_mul_strict_inequality(v as int, pow2(e) as int, d as int);
                lemma_mul_is_commutative(v as int, d as int);
                lemma_mul_is_commutative(pow2(e) as int, d as int);
            }
            if v >= 2 * pow2(e) {
                lemma_mul_inequality(2 * pow2(e) as int, v as int, d as int);
                lemma_mul_is_commutative(v as int, d as int);
                assert((2 * pow2(e)) * d == 2 * (pow2(e) * d)) by (nonlinear_arith);
            }
        }
        assert(floor_log2(v) == e) by {
            lemma_floor_log2_from(v, e);
            lemma_pow2_unfold(e + 1);
            lemma_floor_log2_below(v, e + 1);
        }
        assert(k != 0);
        let mag = (if k < 0 { -k } else { k as int }) as nat;
        assert(mag == v);
        assert(v * d == sig) by {
            lemma_mul_is_commutative(v as int, d as int);
        }
        assert(significand_and_exponent(mag) == (sig, e));
        assert(rest == exp * TWO_52 + frac);
        assert(bits == (if negative { SIGN_BIT as int } else { 0 }) + rest);
        assert(negative == (k < 0));
    }
}

/// Whether `w` is a double at or above 2^52: a significand of 53 bits times a
/// power of two.
pub open spec fn is_double_magnitude(w: nat) -> bool {
    exists|sig: nat, k: nat| TWO_52 <= sig < TWO_53 && w == #[trigger] (sig * pow2(k))
}

/// How far apart two integers are.
pub open spec fn distance(a: int, b: int) -> int {
    if a >= b {
        a - b
    } else {
        b - a
    }
}

/// Below 2^53 the double of a positive integer is the integer itself: the
/// significand is the integer, shifted up until its highest bit is bit 52.
pub proof fn lemma_double_is_exact(mag: nat)
    requires
        1 <= mag < TWO_53,
    ensures
        ({
            let (sig, e) = significand_and_exponent(mag);
            &&& e <= 52
            &&& TWO_52 <= sig < TWO_53
            &&& sig == mag * pow2((52 - e) as nat)
        }),
{
    lemma2_to64();
    lemma2_to64_rest();
    lemma_floor_log2_below(mag, 53);
    lemma_floor_log2_bounds(mag);
    let e = floor_log2(mag);
    let p = pow2((52 - e) as nat);
    lemma_pow2_adds(e, (52 - e) as nat);
    lemma_pow2_pos((52 - e) as nat);
    lemma_mul_strict_inequality(mag as int, 2 * pow2(e) as int, p as int);
    lemma_mul_inequality(pow2(e) as int, mag as int, p as int);
    assert(2 * pow2(e) * p == 2 * (pow2(e) * p)) by (nonlinear_arith);
}

/// Of two powers of two, the one with the smaller exponent is at most half
/// the other.
proof fn lemma_pow2_doubles(a: nat, b: nat)
    requires
        a < b,
    ensures
        2 * pow2(a) <= pow2(b),
{
    lemma_pow2_unfold(a + 1);
    if a + 1 < b {
        lemma_pow2_strictly_increases(a + 1, b);
    }
}

/// From 2^53 on the double of a positive integer is the double nearest to
/// it: no double lies nearer, and where another lies as near, the
/// significand of the chosen one is even.
pub proof fn lemma_double_is_nearest(mag: nat, w: nat)
    requires
        mag >= TWO_53,
        is_double_magnitude(w),
    ensures
        ({
            let (sig, e) = significand_and_exponent(mag);
            let v = sig * pow2((e - 52) as nat);
            &&& e >= 53
            &&& TWO_52 <= sig < TWO_53
            &&& distance(v as int, mag as int) <= distance(w as int, mag as int)
            &&& distance(v as int, mag as int) == distance(w as int, mag as int) && w != v ==> sig
                % 2 == 0
        }),
{
    lemma2_to64();
    lemma2_to64_rest();
    lemma_floor_log2_from(mag, 53);
    lemma_floor_log2_bounds(mag);
    let e = floor_log2(mag);
    let t = (e - 52) as nat;
    let d = pow2(t);
    lemma_pow2_pos(t);
    lemma_pow2_adds(52, t);
    lemma_pow2_unfold(e + 1);
    let q = mag / d;
    let r = mag % d;
    lemma_fundamental_div_mod(mag as int, d as int);
    lemma_mod_bound(mag as int, d as int);
    assert(mag == d * q + r);
    assert(TWO_52 <= q < TWO_53) by {
        // 2^52 * d <= mag < 2^53 * d
        assert(pow2(e) == TWO_52 * d);
        assert(2 * pow2(e) == TWO_53 * d) by (nonlinear_arith)
            requires
                pow2(e) == TWO_52 * d,
                TWO_53 == 2 * TWO_52,
        ;
        if q < TWO_52 {
            assert(d * q + d <= d * TWO_52) by (nonlinear_arith)
                requires
                    q + 1 <= TWO_52,
                    d > 0,
            ;
        }
        if q >= TWO_53 {
            assert(d * q >= d * TWO_53) by (nonlinear_arith)
                requires
                    q >= TWO_53,
                    d > 0,
            ;
        }
    }
    let up = 2 * r > d || (2 * r == d && q % 2 == 1);
    let rounded = if up { q + 1 } else { q };
    let (sig, e2) = significand_and_exponent(mag);
    let v = sig * pow2((e2 - 52) as nat);
    assert(v == rounded * d) by {
        if rounded == TWO_53 {
            lemma_pow2_unfold(t + 1);
            assert(TWO_52 * (2 * d) == TWO_53 * d) by (nonlinear_arith)
                requires
                    TWO_53 == 2 * TWO_52,
            ;
        }
    }
    assert(rounded * d == q * d + (if up { d as int } else { 0 })) by (nonlinear_arith)
        requires
            rounded == q + (if up { 1int } else { 0 }),
    ;
    assert(q * d == d * q) by (nonlinear_arith);
    // How far the chosen double lies from the integer.
    let near = if up { d - r } else { r as int };
    assert(distance(v as int, mag as int) == near);
    assert(2 * near <= d);
    // Any other double lies at or below q * d, or at or above (q + 1) * d.
    let (s, k) = choose|s: nat, k: nat| TWO_52 <= s < TWO_53 && w == #[trigger] (s * pow2(k));
    lemma_pow2_pos(k);
    assert(w <= q * d || w >= q * d + d) by {
        if k == t {
            if s <= q {
                assert(s * d <= q * d) by (nonlinear_arith)
                    requires
                        s <= q,
                        d > 0,
                ;
            } else {
                assert(s * d >= q * d + d) by (nonlinear_arith)
                    requires
                        s >= q + 1,
                        d > 0,
                ;
            }
        } else if k < t {
            lemma_pow2_doubles(k, t);
            assert(s * pow2(k) <= q * d) by (nonlinear_arith)
                requires
                    s < TWO_53,
                    TWO_53 == 2 * TWO_52,
                    TWO_52 <= q,
                    2 * pow2(k) <= d,
                    pow2(k) > 0,
            ;
        } else {
            lemma_pow2_doubles(t, k);
            assert(s * pow2(k) >= q * d + d) by (nonlinear_arith)
                requires
                    s >= TWO_52,
                    TWO_53 == 2 * TWO_52,
                    q < TWO_53,
                    2 * d <= pow2(k),
                    d > 0,
            ;
        }
    }
    if w <= q * d {
        assert(distance(w as int, mag as int) >= r);
    } else {
        assert(distance(w as int, mag as int) >= d - r);
    }
    if distance(v as int, mag as int) == distance(w as int, mag as int) && w != v {
        assert(2 * r == d);
        if rounded == TWO_53 {
            assert(sig == TWO_52);
        } else {
            assert(sig == rounded);
        }
    }
}

} // verus!
