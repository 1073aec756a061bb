//! The arithmetic facts behind the two-limb emulation of 32-bit values:
//! why adding and subtracting limb by limb, with the carry or borrow
//! propagated into the high limbs, wraps modulo 2^32, and why flipping
//! the sign bits turns the unsigned order into the signed one.

use vstd::prelude::*;

verus! {

/// Multi-limb addition wraps modulo 2^32: adding the low limbs, then
/// the high limbs together with the low carry, yields exactly
/// `(a + b) mod 2^32` split into two 16-bit limbs. This is the scheme
/// the emitted `ADD` / `ADC` pair computes.
pub proof fn lemma_limb_add(a: u32, b: u32)
    ensures
        ({
            let al = (a as u64) % 0x10000;
            let ah = (a as u64) / 0x10000;
            let bl = (b as u64) % 0x10000;
            let bh = (b as u64) / 0x10000;
            let lo = (al + bl) % 0x10000;
            let carry = (al + bl) / 0x10000;
            let hi = (ah + bh + carry) % 0x10000;
            hi * 0x10000 + lo == ((a as u64) + (b as u64)) % 0x100000000
        }),
{
    let x = a as u64;
    let y = b as u64;
    assert(x < 0x100000000 && y < 0x100000000 ==> ((x / 0x10000) + (y / 0x10000) + ((x % 0x10000)
        + (y % 0x10000)) / 0x10000) % 0x10000 * 0x10000 + ((x % 0x10000) + (y % 0x10000)) % 0x10000
        == (x + y) % 0x100000000) by (bit_vector);
}

/// Multi-limb subtraction wraps modulo 2^32: subtracting the low limbs,
/// then the high limbs together with the low borrow, yields exactly
/// `(a - b) mod 2^32`. This is the scheme the emitted `SBC` pair
/// computes.
pub proof fn lemma_limb_sub(a: u32, b: u32)
    ensures
        ({
            let al = (a as u64) % 0x10000;
            let ah = (a as u64) / 0x10000;
            let bl = (b as u64) % 0x10000;
            let bh = (b as u64) / 0x10000;
            let borrow: u64 = if al < bl {
                1
            } else {
                0
            };
            let lo = (al + 0x10000 - bl) % 0x10000;
            let hi = (ah + 0x20000 - bh - borrow) % 0x10000;
            hi * 0x10000 + lo == ((a as u64) + 0x100000000 - (b as u64)) % 0x100000000
        }),
{
    let x = a as u64;
    let y = b as u64;
    assert(x < 0x100000000 && y < 0x100000000 ==> ((x / 0x10000) + 0x20000 - (y / 0x10000) - (if (x
        % 0x10000) < (y % 0x10000) {
        1u64
    } else {
        0u64
    })) % 0x10000 * 0x10000 + ((x % 0x10000) + 0x10000 - (y % 0x10000)) % 0x10000 == (x
        + 0x100000000 - y) % 0x100000000) by (bit_vector);
}

/// A 32-bit subtraction borrows exactly when the subtrahend is the
/// larger value, so the borrow flag after a full two-limb subtraction
/// decides the unsigned order. This is what the emitted unsigned
/// comparisons read off the carry flag.
pub proof fn lemma_borrow_orders_unsigned(a: u32, b: u32)
    ensures
        ({
            let al = (a as u64) % 0x10000;
            let ah = (a as u64) / 0x10000;
            let bl = (b as u64) % 0x10000;
            let bh = (b as u64) / 0x10000;
            let low_borrow: u64 = if al < bl {
                1
            } else {
                0
            };
            (ah < bh + low_borrow) <==> a < b
        }),
{
    let x = a as u64;
    let y = b as u64;
    assert(x < 0x100000000 && y < 0x100000000 ==> (((x / 0x10000) < (y / 0x10000) + (if (x
        % 0x10000) < (y % 0x10000) {
        1u64
    } else {
        0u64
    })) <==> x < y)) by (bit_vector);
}

/// Flipping the sign bit of both operands turns the unsigned order into
/// the signed order of the same bit patterns. This is why the emitted
/// signed comparison may flip the high limbs' top bits and then reuse
/// the unsigned comparison path.
pub proof fn lemma_sign_flip_orders(a: u32, b: u32)
    ensures
        ((a ^ 0x80000000) > (b ^ 0x80000000)) <==> ((a as i32) > (b as i32)),
{
    assert(((a ^ 0x80000000) > (b ^ 0x80000000)) <==> ((a as i32) > (b as i32))) by (bit_vector);
}

} // verus!
