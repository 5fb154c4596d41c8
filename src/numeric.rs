//! Integer division with the machine's truncating semantics, the narrowing
//! conversions from floating-point bit patterns to integers, the
//! floating-point comparisons, and decimal rendering for fault messages.
use vstd::arithmetic::div_mod::lemma_basic_div;
use vstd::arithmetic::power2::{lemma2_to64, lemma2_to64_rest, lemma_pow2_pos, lemma_pow2_strictly_increases, pow2};
use vstd::bits::{lemma_u64_mul_pow2_le_max_iff_max_shr, lemma_u64_shl_is_mul, lemma_u64_shr_is_div};
use vstd::prelude::*;

verus! {

// ---------------------------------------------------------------------------
// Integer division and remainder
// ---------------------------------------------------------------------------

/// Division of mathematical integers rounding toward zero.
pub open spec fn trunc_div(x: int, d: int) -> int {
    if x == 0 {
        0
    } else if x > 0 && d > 0 {
        x / d
    } else if x < 0 && d < 0 {
        (x * -1) / (d * -1)
    } else if x < 0 {
        ((x * -1) / d) * -1
    } else {
        (x / (d * -1)) * -1
    }
}

/// `int` division: truncates toward zero; `MIN / -1` wraps to `MIN`.
pub open spec fn int_div(a: i32, b: i32) -> i32 {
    if b == -1 {
        0i32.wrapping_sub(a)
    } else {
        trunc_div(a as int, b as int) as i32
    }
}

/// `int` remainder, computed as `a - (a / b) * b` with wrapping arithmetic.
pub open spec fn int_rem(a: i32, b: i32) -> i32 {
    a.wrapping_sub(int_div(a, b).wrapping_mul(b))
}

/// `long` division: truncates toward zero; `MIN / -1` wraps to `MIN`.
pub open spec fn long_div(a: i64, b: i64) -> i64 {
    if b == -1 {
        0i64.wrapping_sub(a)
    } else {
        trunc_div(a as int, b as int) as i64
    }
}

/// `long` remainder, computed as `a - (a / b) * b` with wrapping arithmetic.
pub open spec fn long_rem(a: i64, b: i64) -> i64 {
    a.wrapping_sub(long_div(a, b).wrapping_mul(b))
}

proof fn lemma_trunc_div_bounded(x: int, d: int, hi: int)
    requires
        d != 0,
        d != -1,
        hi >= 1,
        -hi - 1 <= x <= hi,
    ensures
        -hi - 1 <= trunc_div(x, d) <= hi,
{
    if x > 0 && d > 0 {
        assert(0 <= x / d <= x) by (nonlinear_arith)
            requires x > 0, d > 0;
    } else if x < 0 && d < 0 {
        assert(0 <= (x * -1) / (d * -1) <= (x * -1) / 2) by (nonlinear_arith)
            requires x < 0, d < -1;
    } else if x < 0 {
        assert(0 <= (x * -1) / d <= x * -1) by (nonlinear_arith)
            requires x < 0, d > 0;
    } else if x > 0 {
        assert(0 <= x / (d * -1) <= x) by (nonlinear_arith)
            requires x > 0, d < -1;
    }
}

/// Truncating `int` division of `a` by a non-zero `b`.
pub fn div_i32(a: i32, b: i32) -> (r: i32)
    requires
        b != 0,
    ensures
        r == int_div(a, b),
{
    if b == -1 {
        0i32.wrapping_sub(a)
    } else {
        proof {
            lemma_trunc_div_bounded(a as int, b as int, i32::MAX as int);
        }
        match a.checked_div(b) {
            Some(q) => q,
            None => 0,
        }
    }
}

/// `int` remainder of `a` by a non-zero `b`; its sign follows the dividend.
pub fn rem_i32(a: i32, b: i32) -> (r: i32)
    requires
        b != 0,
    ensures
        r == int_rem(a, b),
{
    let q = div_i32(a, b);
    a.wrapping_sub(q.wrapping_mul(b))
}

/// Truncating `long` division of `a` by a non-zero `b`.
pub fn div_i64(a: i64, b: i64) -> (r: i64)
    requires
        b != 0,
    ensures
        r == long_div(a, b),
{
    if b == -1 {
        0i64.wrapping_sub(a)
    } else {
        proof {
            lemma_trunc_div_bounded(a as int, b as int, i64::MAX as int);
        }
        match a.checked_div(b) {
            Some(q) => q,
            None => 0,
        }
    }
}

/// `long` remainder of `a` by a non-zero `b`; its sign follows the dividend.
pub fn rem_i64(a: i64, b: i64) -> (r: i64)
    requires
        b != 0,
    ensures
        r == long_rem(a, b),
{
    let q = div_i64(a, b);
    a.wrapping_sub(q.wrapping_mul(b))
}


// ---------------------------------------------------------------------------
// Floating-point bit patterns
// ---------------------------------------------------------------------------

/// The biased exponent field of a single-precision bit pattern.
pub open spec fn f32_exp(b: u32) -> u32 {
    (b >> 23u32) & 0xffu32
}

/// The fraction field of a single-precision bit pattern.
pub open spec fn f32_frac(b: u32) -> u32 {
    b & 0x7f_ffffu32
}

/// The sign bit of a single-precision bit pattern.
pub open spec fn f32_neg(b: u32) -> bool {
    (b >> 31u32) == 1u32
}

pub open spec fn f32_is_nan(b: u32) -> bool {
    f32_exp(b) == 0xff && f32_frac(b) != 0
}

pub open spec fn f32_is_infinite(b: u32) -> bool {
    f32_exp(b) == 0xff && f32_frac(b) == 0
}

/// The biased exponent field of a double-precision bit pattern.
pub open spec fn f64_exp(b: u64) -> u64 {
    (b >> 52u64) & 0x7ffu64
}

/// The fraction field of a double-precision bit pattern.
pub open spec fn f64_frac(b: u64) -> u64 {
    b & 0xf_ffff_ffff_ffffu64
}

/// The sign bit of a double-precision bit pattern.
pub open spec fn f64_neg(b: u64) -> bool {
    (b >> 63u64) == 1u64
}

pub open spec fn f64_is_nan(b: u64) -> bool {
    f64_exp(b) == 0x7ff && f64_frac(b) != 0
}

pub open spec fn f64_is_infinite(b: u64) -> bool {
    f64_exp(b) == 0x7ff && f64_frac(b) == 0
}

/// `sig * 2^(e - shift)`, rounded toward zero.
pub open spec fn scaled(sig: nat, e: int, shift: int) -> nat {
    if e >= shift {
        sig * pow2((e - shift) as nat)
    } else {
        sig / pow2((shift - e) as nat)
    }
}

/// The value of a finite single-precision bit pattern, rounded toward zero.
pub open spec fn f32_trunc(b: u32) -> int {
    let mag: int = if f32_exp(b) == 0 {
        0
    } else {
        scaled(f32_frac(b) as nat + 0x80_0000, f32_exp(b) as int, 150) as int
    };
    if f32_neg(b) { -mag } else { mag }
}

/// The value of a finite double-precision bit pattern, rounded toward zero.
pub open spec fn f64_trunc(b: u64) -> int {
    let mag: int = if f64_exp(b) == 0 {
        0
    } else {
        scaled(f64_frac(b) as nat + 0x10_0000_0000_0000, f64_exp(b) as int, 1075) as int
    };
    if f64_neg(b) { -mag } else { mag }
}

pub open spec fn clamp_i32(x: int) -> i32 {
    if x > i32::MAX { i32::MAX } else if x < i32::MIN { i32::MIN } else { x as i32 }
}

pub open spec fn clamp_i64(x: int) -> i64 {
    if x > i64::MAX { i64::MAX } else if x < i64::MIN { i64::MIN } else { x as i64 }
}

/// `f2i`: NaN gives 0, infinities give the bounds, anything else truncates
/// toward zero and saturates.
pub open spec fn f2i(b: u32) -> i32 {
    if f32_is_nan(b) {
        0
    } else if f32_is_infinite(b) {
        if f32_neg(b) { i32::MIN } else { i32::MAX }
    } else {
        clamp_i32(f32_trunc(b))
    }
}

/// `f2l`, as `f2i` with the bounds of `long`.
pub open spec fn f2l(b: u32) -> i64 {
    if f32_is_nan(b) {
        0
    } else if f32_is_infinite(b) {
        if f32_neg(b) { i64::MIN } else { i64::MAX }
    } else {
        clamp_i64(f32_trunc(b))
    }
}

/// `d2i`, as `f2i` on a double.
pub open spec fn d2i(b: u64) -> i32 {
    if f64_is_nan(b) {
        0
    } else if f64_is_infinite(b) {
        if f64_neg(b) { i32::MIN } else { i32::MAX }
    } else {
        clamp_i32(f64_trunc(b))
    }
}

/// `d2l`, as `f2l` on a double.
pub open spec fn d2l(b: u64) -> i64 {
    if f64_is_nan(b) {
        0
    } else if f64_is_infinite(b) {
        if f64_neg(b) { i64::MIN } else { i64::MAX }
    } else {
        clamp_i64(f64_trunc(b))
    }
}

/// `sig * 2^k` when it does not exceed `i64::MAX`, else `None`.
fn scale_up(sig: u64, k: u64) -> (r: Option<u64>)
    requires
        1 <= sig,
    ensures
        match r {
            Some(m) => m == sig * pow2(k as nat) && m <= i64::MAX,
            None => sig * pow2(k as nat) > i64::MAX,
        },
{
    let max: u64 = 0x7fff_ffff_ffff_ffff;
    if k >= 63 {
        proof {
            lemma2_to64_rest();
            if k > 63 {
                lemma_pow2_strictly_increases(63, k as nat);
            }
            assert(sig * pow2(k as nat) >= pow2(k as nat)) by (nonlinear_arith)
                requires sig >= 1, pow2(k as nat) >= 0;
        }
        None
    } else if sig <= max >> k {
        proof {
            lemma_u64_mul_pow2_le_max_iff_max_shr(sig, k, max);
            lemma_u64_shl_is_mul(sig, k);
        }
        Some(sig << k)
    } else {
        proof {
            lemma_u64_mul_pow2_le_max_iff_max_shr(sig, k, max);
        }
        None
    }
}

/// `sig / 2^k`.
fn scale_down(sig: u64, k: u64) -> (r: u64)
    ensures
        r == sig as nat / pow2(k as nat),
{
    if k >= 64 {
        proof {
            lemma2_to64();
            if k > 64 {
                lemma_pow2_strictly_increases(64, k as nat);
            }
            lemma_basic_div(sig as int, pow2(k as nat) as int);
        }
        0
    } else {
        proof {
            lemma_u64_shr_is_div(sig, k);
        }
        sig >> k
    }
}

/// The magnitude `sig * 2^(e - shift)` rounded toward zero, or `None` when it
/// exceeds `i64::MAX`.
fn magnitude(sig: u64, e: u64, shift: u64) -> (r: Option<u64>)
    requires
        1 <= sig,
    ensures
        match r {
            Some(m) => m == scaled(sig as nat, e as int, shift as int) && m <= i64::MAX,
            None => scaled(sig as nat, e as int, shift as int) > i64::MAX,
        },
{
    if e >= shift {
        scale_up(sig, e - shift)
    } else {
        let m = scale_down(sig, shift - e);
        proof {
            if shift - e >= 1 {
                lemma_pow2_pos((shift - e) as nat);
                assert(sig as nat / pow2((shift - e) as nat) <= sig as nat / 2) by {
                    lemma2_to64();
                    if shift - e > 1 {
                        lemma_pow2_strictly_increases(1, (shift - e) as nat);
                    }
                    vstd::arithmetic::div_mod::lemma_div_is_ordered_by_denominator(
                        sig as int, 2, pow2((shift - e) as nat) as int);
                }
            }
        }
        Some(m)
    }
}

/// Saturates a signed magnitude into `int`.
fn saturate_i32(neg: bool, m: Option<u64>) -> (r: i32)
    ensures
        match m {
            Some(x) => r == clamp_i32(if neg { -(x as int) } else { x as int }),
            None => r == (if neg { i32::MIN } else { i32::MAX }),
        },
{
    match m {
        None => if neg { i32::MIN } else { i32::MAX },
        Some(x) => {
            if neg {
                if x > 0x8000_0000 { i32::MIN } else { (0i64 - x as i64) as i32 }
            } else {
                if x > 0x7fff_ffff { i32::MAX } else { x as i32 }
            }
        },
    }
}

/// Saturates a signed magnitude into `long`.
fn saturate_i64(neg: bool, m: Option<u64>) -> (r: i64)
    requires
        m is Some ==> m->0 <= i64::MAX,
    ensures
        match m {
            Some(x) => r == clamp_i64(if neg { -(x as int) } else { x as int }),
            None => r == (if neg { i64::MIN } else { i64::MAX }),
        },
{
    match m {
        None => if neg { i64::MIN } else { i64::MAX },
        Some(x) => if neg { 0i64 - x as i64 } else { x as i64 },
    }
}

/// Splits a single-precision pattern into sign, exponent and fraction.
fn f32_fields(b: u32) -> (r: (bool, u64, u64))
    ensures
        r.0 == f32_neg(b),
        r.1 == f32_exp(b),
        r.2 == f32_frac(b),
        r.1 <= 0xff,
        r.2 < 0x80_0000,
{
    assert(((b >> 23u32) & 0xffu32) <= 0xff) by (bit_vector);
    assert((b & 0x7f_ffffu32) < 0x80_0000) by (bit_vector);
    (((b >> 31u32) == 1u32), ((b >> 23u32) & 0xffu32) as u64, (b & 0x7f_ffffu32) as u64)
}

/// Splits a double-precision pattern into sign, exponent and fraction.
fn f64_fields(b: u64) -> (r: (bool, u64, u64))
    ensures
        r.0 == f64_neg(b),
        r.1 == f64_exp(b),
        r.2 == f64_frac(b),
        r.1 <= 0x7ff,
        r.2 < 0x10_0000_0000_0000,
{
    assert(((b >> 52u64) & 0x7ffu64) <= 0x7ff) by (bit_vector);
    assert((b & 0xf_ffff_ffff_ffffu64) < 0x10_0000_0000_0000) by (bit_vector);
    (((b >> 63u64) == 1u64), (b >> 52u64) & 0x7ffu64, b & 0xf_ffff_ffff_ffffu64)
}

/// Narrows a `float` (given by its bit pattern) to `int`.
pub fn float_to_int(b: u32) -> (r: i32)
    ensures
        r == f2i(b),
{
    let (neg, exp, frac) = f32_fields(b);
    if exp == 0xff {
        if frac != 0 { 0 } else if neg { i32::MIN } else { i32::MAX }
    } else if exp == 0 {
        0
    } else {
        let m = magnitude(frac + 0x80_0000, exp, 150);
        saturate_i32(neg, m)
    }
}

/// Narrows a `float` (given by its bit pattern) to `long`.
pub fn float_to_long(b: u32) -> (r: i64)
    ensures
        r == f2l(b),
{
    let (neg, exp, frac) = f32_fields(b);
    if exp == 0xff {
        if frac != 0 { 0 } else if neg { i64::MIN } else { i64::MAX }
    } else if exp == 0 {
        0
    } else {
        let m = magnitude(frac + 0x80_0000, exp, 150);
        saturate_i64(neg, m)
    }
}

/// Narrows a `double` (given by its bit pattern) to `int`.
pub fn double_to_int(b: u64) -> (r: i32)
    ensures
        r == d2i(b),
{
    let (neg, exp, frac) = f64_fields(b);
    if exp == 0x7ff {
        if frac != 0 { 0 } else if neg { i32::MIN } else { i32::MAX }
    } else if exp == 0 {
        0
    } else {
        let m = magnitude(frac + 0x10_0000_0000_0000, exp, 1075);
        saturate_i32(neg, m)
    }
}

/// Narrows a `double` (given by its bit pattern) to `long`.
pub fn double_to_long(b: u64) -> (r: i64)
    ensures
        r == d2l(b),
{
    let (neg, exp, frac) = f64_fields(b);
    if exp == 0x7ff {
        if frac != 0 { 0 } else if neg { i64::MIN } else { i64::MAX }
    } else if exp == 0 {
        0
    } else {
        let m = magnitude(frac + 0x10_0000_0000_0000, exp, 1075);
        saturate_i64(neg, m)
    }
}

// ---------------------------------------------------------------------------
// Comparisons
// ---------------------------------------------------------------------------

/// For bit patterns that are not NaN, the order of this key is the numeric
/// order of the values: the magnitude bits grow with the magnitude, the sign
/// flips it, and both zeros map to 0.
pub open spec fn f32_key(b: u32) -> int {
    let mag = (b & 0x7fff_ffffu32) as int;
    if f32_neg(b) { -mag } else { mag }
}

pub open spec fn f64_key(b: u64) -> int {
    let mag = (b & 0x7fff_ffff_ffff_ffffu64) as int;
    if f64_neg(b) { -mag } else { mag }
}

/// -1, 0 or 1 as `x` is below, equal to or above `y`.
pub open spec fn sign_of_cmp(x: int, y: int) -> i32 {
    if x < y { -1i32 } else if x > y { 1i32 } else { 0i32 }
}

/// `fcmpl` (`nan_result == -1`) and `fcmpg` (`nan_result == 1`) of `a`
/// (pushed first) against `b`.
pub open spec fn fcmp(a: u32, b: u32, nan_result: i32) -> i32 {
    if f32_is_nan(a) || f32_is_nan(b) { nan_result } else { sign_of_cmp(f32_key(a), f32_key(b)) }
}

/// `dcmpl` (`nan_result == -1`) and `dcmpg` (`nan_result == 1`).
pub open spec fn dcmp(a: u64, b: u64, nan_result: i32) -> i32 {
    if f64_is_nan(a) || f64_is_nan(b) { nan_result } else { sign_of_cmp(f64_key(a), f64_key(b)) }
}

fn f32_key_of(b: u32) -> (r: i64)
    ensures
        r == f32_key(b),
{
    let mag = (b & 0x7fff_ffffu32) as i64;
    if (b >> 31u32) == 1u32 { 0 - mag } else { mag }
}

fn f64_key_of(b: u64) -> (r: i128)
    ensures
        r == f64_key(b),
{
    let mag = (b & 0x7fff_ffff_ffff_ffffu64) as i128;
    if (b >> 63u64) == 1u64 { 0 - mag } else { mag }
}

/// Compares two `float` bit patterns; `nan_result` is what a NaN operand gives.
pub fn compare_floats(a: u32, b: u32, nan_result: i32) -> (r: i32)
    ensures
        r == fcmp(a, b, nan_result),
{
    let (_, ea, fa) = f32_fields(a);
    let (_, eb, fb) = f32_fields(b);
    if (ea == 0xff && fa != 0) || (eb == 0xff && fb != 0) {
        nan_result
    } else {
        let ka = f32_key_of(a);
        let kb = f32_key_of(b);
        if ka < kb { -1 } else if ka > kb { 1 } else { 0 }
    }
}

/// Compares two `double` bit patterns; `nan_result` is what a NaN operand gives.
pub fn compare_doubles(a: u64, b: u64, nan_result: i32) -> (r: i32)
    ensures
        r == dcmp(a, b, nan_result),
{
    let (_, ea, fa) = f64_fields(a);
    let (_, eb, fb) = f64_fields(b);
    if (ea == 0x7ff && fa != 0) || (eb == 0x7ff && fb != 0) {
        nan_result
    } else {
        let ka = f64_key_of(a);
        let kb = f64_key_of(b);
        if ka < kb { -1 } else if ka > kb { 1 } else { 0 }
    }
}

/// The narrowing conversions at their edges: NaN becomes 0, positive
/// infinity the target's maximum and negative infinity its minimum, for
/// both source widths and both target widths.
pub proof fn lemma_narrowing_edges(f: u32, d: u64)
    ensures
        f32_is_nan(f) ==> f2i(f) == 0 && f2l(f) == 0,
        f32_is_infinite(f) && !f32_neg(f) ==> f2i(f) == i32::MAX && f2l(f) == i64::MAX,
        f32_is_infinite(f) && f32_neg(f) ==> f2i(f) == i32::MIN && f2l(f) == i64::MIN,
        f64_is_nan(d) ==> d2i(d) == 0 && d2l(d) == 0,
        f64_is_infinite(d) && !f64_neg(d) ==> d2i(d) == i32::MAX && d2l(d) == i64::MAX,
        f64_is_infinite(d) && f64_neg(d) ==> d2i(d) == i32::MIN && d2l(d) == i64::MIN,
{
}

/// A NaN operand decides a floating-point comparison by the instruction
/// alone: -1 for the `l` forms and 1 for the `g` forms, whatever the other
/// operand is, NaN included.
pub proof fn lemma_nan_comparisons(a: u32, b: u32, c: u64, d: u64)
    ensures
        f32_is_nan(a) || f32_is_nan(b) ==> fcmp(a, b, -1i32) == -1 && fcmp(a, b, 1i32) == 1,
        f64_is_nan(c) || f64_is_nan(d) ==> dcmp(c, d, -1i32) == -1 && dcmp(c, d, 1i32) == 1,
{
}

// ---------------------------------------------------------------------------
// Decimal rendering
// ---------------------------------------------------------------------------

/// The ASCII decimal digits of `n`, most significant first.
pub open spec fn digits(n: nat) -> Seq<u8>
    decreases n,
{
    if n < 10 {
        seq![(48 + n) as u8]
    } else {
        digits(n / 10).push((48 + n % 10) as u8)
    }
}

/// The ASCII decimal rendering of `n`, with a leading `-` when negative.
pub open spec fn decimal(n: int) -> Seq<u8> {
    if n < 0 { seq![45u8] + digits((-n) as nat) } else { digits(n as nat) }
}

/// Appends the decimal digits of `n` to `out`.
pub fn push_digits(out: &mut Vec<u8>, n: u64)
    ensures
        final(out)@ == old(out)@ + digits(n as nat),
    decreases n,
{
    if n >= 10 {
        push_digits(out, n / 10);
    }
    out.push((48 + n % 10) as u8);
    proof {
        if n < 10 {
            assert(old(out)@ + digits(n as nat) =~= old(out)@.push((48 + n % 10) as u8));
        } else {
            assert(old(out)@ + digits(n as nat) =~= (old(out)@ + digits((n / 10) as nat)).push(
                (48 + n % 10) as u8));
        }
    }
}

/// Appends the decimal rendering of `n` to `out`.
pub fn push_decimal(out: &mut Vec<u8>, n: i64)
    ensures
        final(out)@ == old(out)@ + decimal(n as int),
{
    if n < 0 {
        out.push(45u8);
        let m: u64 = if n == i64::MIN { 0x8000_0000_0000_0000u64 } else { (0 - n) as u64 };
        push_digits(out, m);
        proof {
            assert(old(out)@ + decimal(n as int) =~= old(out)@.push(45u8) + digits(m as nat));
        }
    } else {
        push_digits(out, n as u64);
    }
}

/// Appends the bytes of `s` to `out`.
pub fn push_bytes(out: &mut Vec<u8>, s: &[u8])
    ensures
        final(out)@ == old(out)@ + s@,
{
    let mut i: usize = 0;
    while i < s.len()
        invariant
            i <= s@.len(),
            out@ == old(out)@ + s@.subrange(0, i as int),
        decreases s@.len() - i,
    {
        out.push(s[i]);
        i = i + 1;
        proof {
            assert(s@.subrange(0, i as int) =~= s@.subrange(0, i - 1).push(s@[i - 1]));
        }
    }
    assert(s@.subrange(0, s@.len() as int) =~= s@);
}

/// The message of an index-out-of-bounds fault:
/// `length is {len}, but index is {index}` (in ASCII).
pub open spec fn bounds_message(len: int, index: int) -> Seq<u8> {
    seq![108u8, 101u8, 110u8, 103u8, 116u8, 104u8, 32u8, 105u8, 115u8, 32u8] + decimal(len) + seq![44u8, 32u8, 98u8, 117u8, 116u8, 32u8, 105u8, 110u8, 100u8, 101u8, 120u8, 32u8, 105u8, 115u8, 32u8] + decimal(index)
}

/// The message of an arithmetic fault: `divide by zero` (in ASCII).
pub open spec fn divide_by_zero_message() -> Seq<u8> {
    seq![100u8, 105u8, 118u8, 105u8, 100u8, 101u8, 32u8, 98u8, 121u8, 32u8, 122u8, 101u8, 114u8, 111u8]
}

/// Renders the message of an index-out-of-bounds fault.
pub fn make_bounds_message(len: usize, index: i32) -> (r: Vec<u8>)
    requires
        len <= i64::MAX,
    ensures
        r@ == bounds_message(len as int, index as int),
{
    let mut r: Vec<u8> = Vec::new();
    let head: [u8; 10] = [108u8, 101u8, 110u8, 103u8, 116u8, 104u8, 32u8, 105u8, 115u8, 32u8];
    push_bytes(&mut r, &head);
    push_decimal(&mut r, len as i64);
    let mid: [u8; 15] = [44u8, 32u8, 98u8, 117u8, 116u8, 32u8, 105u8, 110u8, 100u8, 101u8, 120u8, 32u8, 105u8, 115u8, 32u8];
    push_bytes(&mut r, &mid);
    push_decimal(&mut r, index as i64);
    assert(r@ =~= bounds_message(len as int, index as int));
    r
}

/// Renders the message of an arithmetic fault.
pub fn make_divide_by_zero_message() -> (r: Vec<u8>)
    ensures
        r@ == divide_by_zero_message(),
{
    let mut r: Vec<u8> = Vec::new();
    let text: [u8; 14] = [100u8, 105u8, 118u8, 105u8, 100u8, 101u8, 32u8, 98u8, 121u8, 32u8, 122u8, 101u8, 114u8, 111u8];
    push_bytes(&mut r, &text);
    assert(r@ =~= divide_by_zero_message());
    r
}

/// A copy of `s`.
pub fn copy_bytes(s: &Vec<u8>) -> (r: Vec<u8>)
    ensures
        r@ == s@,
{
    let mut r: Vec<u8> = Vec::new();
    push_bytes(&mut r, s.as_slice());
    assert(r@ =~= s@);
    r
}

} // verus!
