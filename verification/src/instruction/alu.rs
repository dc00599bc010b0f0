//! The arithmetic of the instruction set: what each operation computes, as
//! a function of two 32-bit register values.
//!
//! Register values are signed (`i32`). Every definition below is stated over
//! the integers: a result that does not fit is reduced modulo 2 to the power
//! 32, never truncated silently and never a trap.
use crate::instruction::format::twos_complement;
use vstd::prelude::*;

verus! {

/// The signed 32-bit number that is congruent to `x` modulo 2^32.
pub open spec fn wrap(x: int) -> i32 {
    twos_complement(x % 0x1_0000_0000, 0x1_0000_0000) as i32
}

/// The unsigned 32-bit number that is congruent to `x` modulo 2^32: the
/// same bits read without a sign.
pub open spec fn unsigned(x: i32) -> u32 {
    (x as int % 0x1_0000_0000) as u32
}

/// The same bits read with a sign.
pub open spec fn signed(x: u32) -> i32 {
    wrap(x as int)
}

/// The amount by which a shift with operand `x` shifts: its low five bits.
pub open spec fn shamt(x: i32) -> u32 {
    (x as int % 32) as u32
}

/// `a` shifted left by the low five bits of `b`, zeros coming in.
pub open spec fn shift_left(a: i32, b: i32) -> i32 {
    signed(unsigned(a) << shamt(b))
}

/// `a` shifted right by the low five bits of `b`, zeros coming in.
pub open spec fn shift_right_logical(a: i32, b: i32) -> i32 {
    signed(unsigned(a) >> shamt(b))
}

/// `a` shifted right by the low five bits of `b`, copies of the sign coming
/// in.
pub open spec fn shift_right_arithmetic(a: i32, b: i32) -> i32 {
    a >> shamt(b)
}

/// 1 if `a` is below `b` as signed numbers, else 0.
pub open spec fn less_than(a: i32, b: i32) -> i32 {
    if a < b {
        1
    } else {
        0
    }
}

/// 1 if `a` is below `b` as unsigned numbers, else 0.
pub open spec fn less_than_unsigned(a: i32, b: i32) -> i32 {
    if unsigned(a) < unsigned(b) {
        1
    } else {
        0
    }
}

/// The upper 32 bits of the 64-bit product of `a` and `b`, both signed.
pub open spec fn product_high(a: i32, b: i32) -> i32 {
    ((a * b) / 0x1_0000_0000) as i32
}

/// The upper 32 bits of the 64-bit product of signed `a` and unsigned `b`.
pub open spec fn product_high_signed_unsigned(a: i32, b: i32) -> i32 {
    ((a * unsigned(b)) / 0x1_0000_0000) as i32
}

/// The upper 32 bits of the 64-bit product of `a` and `b`, both unsigned.
pub open spec fn product_high_unsigned(a: i32, b: i32) -> i32 {
    signed(((unsigned(a) * unsigned(b)) / 0x1_0000_0000) as u32)
}

/// The quotient of `a` by `b`, rounded towards zero (`b` is not 0).
pub open spec fn truncated_quotient(a: int, b: int) -> int {
    if a >= 0 {
        if b > 0 {
            a / b
        } else {
            -(a / (-b))
        }
    } else {
        if b > 0 {
            -((-a) / b)
        } else {
            (-a) / (-b)
        }
    }
}

/// Signed division. Dividing by zero gives -1; the one quotient that does
/// not fit, that of the least number by -1, gives the least number again.
pub open spec fn quotient(a: i32, b: i32) -> i32 {
    if b == 0 {
        -1i32
    } else {
        wrap(truncated_quotient(a as int, b as int))
    }
}

/// The remainder of signed division: what is left of `a` after taking away
/// `b` times the quotient rounded towards zero. Dividing by zero leaves `a`.
pub open spec fn remainder(a: i32, b: i32) -> i32 {
    if b == 0 {
        a
    } else {
        (a - b * truncated_quotient(a as int, b as int)) as i32
    }
}

/// Unsigned division. Dividing by zero gives all ones.
pub open spec fn quotient_unsigned(a: i32, b: i32) -> i32 {
    if b == 0 {
        -1i32
    } else {
        signed(unsigned(a) / unsigned(b))
    }
}

/// The remainder of unsigned division. Dividing by zero leaves `a`.
pub open spec fn remainder_unsigned(a: i32, b: i32) -> i32 {
    if b == 0 {
        a
    } else {
        signed(unsigned(a) % unsigned(b))
    }
}

/// Reads the bits of a signed register value as an unsigned number.
pub fn to_unsigned(x: i32) -> (r: u32)
    ensures
        r == unsigned(x),
{
    let r: u32 = #[verifier::truncate] (x as u32);
    assert(r == (if x < 0 {
        x + 0x1_0000_0000
    } else {
        x as int
    })) by (bit_vector)
        requires
            r == x as u32,
    ;
    r
}

/// Reads the bits of an unsigned number as a signed register value.
pub fn to_signed(x: u32) -> (r: i32)
    ensures
        r == signed(x),
{
    let r: i32 = #[verifier::truncate] (x as i32);
    assert(r == twos_complement(x as int, 0x1_0000_0000)) by (bit_vector)
        requires
            r == x as i32,
    ;
    r
}

/// The low five bits of `x`.
pub fn shift_amount(x: i32) -> (r: u32)
    ensures
        r == shamt(x),
        r < 32,
{
    to_unsigned(x) % 32
}

/// The sum of `a` and `b`, wrapping.
pub fn sum(a: i32, b: i32) -> (r: i32)
    ensures
        r == wrap(a + b),
{
    a.wrapping_add(b)
}

/// The difference of `a` and `b`, wrapping.
pub fn difference(a: i32, b: i32) -> (r: i32)
    ensures
        r == wrap(a - b),
{
    a.wrapping_sub(b)
}

/// The low 32 bits of the product of `a` and `b`.
pub fn product(a: i32, b: i32) -> (r: i32)
    ensures
        r == wrap(a * b),
{
    a.wrapping_mul(b)
}

/// The upper 32 bits of the signed product of `a` and `b`.
pub fn high_product(a: i32, b: i32) -> (r: i32)
    ensures
        r == product_high(a, b),
{
    assert(-0x4000_0000_0000_0000 <= a * b <= 0x4000_0000_0000_0000) by (nonlinear_arith)
        requires
            -0x8000_0000 <= a <= 0x7fff_ffff,
            -0x8000_0000 <= b <= 0x7fff_ffff,
    ;
    let wide: i64 = (a as i64) * (b as i64);
    let high: i64 = wide >> 32;
    assert(high == wide / 0x1_0000_0000) by (bit_vector)
        requires
            high == wide >> 32,
    ;
    high as i32
}

/// The upper 32 bits of the product of signed `a` and unsigned `b`.
pub fn high_product_signed_unsigned(a: i32, b: i32) -> (r: i32)
    ensures
        r == product_high_signed_unsigned(a, b),
{
    let ub: u32 = to_unsigned(b);
    assert(-0x8000_0000_0000_0000 <= a * ub <= 0x7fff_ffff_ffff_ffff) by (nonlinear_arith)
        requires
            -0x8000_0000 <= a <= 0x7fff_ffff,
            0 <= ub <= 0xffff_ffff,
    ;
    let wide: i64 = (a as i64) * (ub as i64);
    let high: i64 = wide >> 32;
    assert(high == wide / 0x1_0000_0000) by (bit_vector)
        requires
            high == wide >> 32,
    ;
    high as i32
}

/// The upper 32 bits of the unsigned product of `a` and `b`.
pub fn high_product_unsigned(a: i32, b: i32) -> (r: i32)
    ensures
        r == product_high_unsigned(a, b),
{
    let ua: u32 = to_unsigned(a);
    let ub: u32 = to_unsigned(b);
    assert(0 <= ua * ub <= 0xffff_fffe_0000_0001) by (nonlinear_arith)
        requires
            0 <= ua <= 0xffff_ffff,
            0 <= ub <= 0xffff_ffff,
    ;
    let wide: u64 = (ua as u64) * (ub as u64);
    let high: u64 = wide / 0x1_0000_0000;
    to_signed(high as u32)
}

/// Signed division with the two special cases of the instruction set.
pub fn divide(a: i32, b: i32) -> (r: i32)
    ensures
        r == quotient(a, b),
        b == 0 ==> r == -1,
        a == i32::MIN && b == -1 ==> r == i32::MIN,
{
    if b == 0 {
        return -1;
    }
    let exact = a.checked_div(b);
    proof {
        lemma_truncated_quotient(a as int, b as int);
    }
    match exact {
        Some(q) => q,
        None => i32::MIN,
    }
}

/// The remainder of signed division with its two special cases.
pub fn remain(a: i32, b: i32) -> (r: i32)
    ensures
        r == remainder(a, b),
        b == 0 ==> r == a,
        a == i32::MIN && b == -1 ==> r == 0,
{
    if b == 0 {
        return a;
    }
    let exact = a.checked_rem(b);
    proof {
        lemma_truncated_quotient(a as int, b as int);
    }
    match exact {
        Some(q) => q,
        None => 0,
    }
}

/// Unsigned division; all ones when dividing by zero.
pub fn divide_unsigned(a: i32, b: i32) -> (r: i32)
    ensures
        r == quotient_unsigned(a, b),
        b == 0 ==> r == -1,
{
    if b == 0 {
        return -1;
    }
    to_signed(to_unsigned(a) / to_unsigned(b))
}

/// The remainder of unsigned division; the dividend when dividing by zero.
pub fn remain_unsigned(a: i32, b: i32) -> (r: i32)
    ensures
        r == remainder_unsigned(a, b),
        b == 0 ==> r == a,
{
    if b == 0 {
        return a;
    }
    to_signed(to_unsigned(a) % to_unsigned(b))
}

/// How the quotient rounded towards zero relates to the quotient and the
/// remainder of the magnitudes.
proof fn lemma_truncated_quotient(a: int, b: int)
    requires
        -0x8000_0000 <= a <= 0x7fff_ffff,
        -0x8000_0000 <= b <= 0x7fff_ffff,
        b != 0,
    ensures
        -0x8000_0000 <= truncated_quotient(a, b) <= 0x8000_0000,
        truncated_quotient(a, b) == 0x8000_0000 <==> a == -0x8000_0000 && b == -1,
        -0x8000_0000 < a - b * truncated_quotient(a, b) < 0x8000_0000,
        a == 0 ==> truncated_quotient(a, b) == 0,
        a > 0 && b > 0 ==> a - b * truncated_quotient(a, b) == a % b,
        a > 0 && b < 0 ==> a - b * truncated_quotient(a, b) == a % (b * -1),
        a < 0 && b > 0 ==> a - b * truncated_quotient(a, b) == ((a * -1) % b) * -1,
        a < 0 && b < 0 ==> a - b * truncated_quotient(a, b) == ((a * -1) % (b * -1)) * -1,
        a > 0 && b < 0 ==> truncated_quotient(a, b) == (a / (b * -1)) * -1,
        a < 0 && b > 0 ==> truncated_quotient(a, b) == ((a * -1) / b) * -1,
        a < 0 && b < 0 ==> truncated_quotient(a, b) == (a * -1) / (b * -1),
{
    let ma = if a >= 0 { a } else { -a };
    let mb = if b > 0 { b } else { -b };
    let q = ma / mb;
    let p = mb * q;
    assert(a * -1 == -a);
    assert(b * -1 == -b);
    assert(0 <= q <= ma && ma == p + ma % mb && 0 <= ma % mb < mb) by (nonlinear_arith)
        requires
            0 <= ma,
            0 < mb,
            q == ma / mb,
            p == mb * q,
    ;
    assert(mb >= 2 ==> 2 * q <= ma) by (nonlinear_arith)
        requires
            0 <= q,
            p == mb * q,
            p <= ma,
    ;
    assert(mb == 1 ==> q == ma) by (nonlinear_arith)
        requires
            p == mb * q,
            ma == p + ma % mb,
            0 <= ma % mb < mb,
    ;
    assert(b * q == (if b > 0 { p } else { -p }) && b * (-q) == (if b > 0 { -p } else { p }))
        by (nonlinear_arith)
        requires
            p == mb * q,
            mb == (if b > 0 { b } else { -b }),
    ;
}

} // verus!
