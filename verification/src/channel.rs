//! From a single-precision channel between 0 and 1 to an 8-bit channel,
//! worked out on the bit pattern of the number.
//!
//! A single-precision number is a sign, an exponent of 8 bits and a fraction
//! of 23 bits; a number with exponent `e` between 1 and 254 is
//! `(2^23 + fraction) * 2^(e - 150)`. The product with 255 is rounded to 24
//! significant bits, a tie going to the even neighbour, as the hardware does.

use vstd::prelude::*;
use vstd::arithmetic::power2::{
    lemma2_to64, lemma2_to64_rest, lemma_pow2_pos, lemma_pow2_strictly_increases,
    lemma_pow2_unfold, pow2,
};

verus! {

/// The exponent bits of a bit pattern.
pub open spec fn exponent(bits: u32) -> nat {
    ((bits / 0x80_0000) % 256) as nat
}

/// The fraction bits of a bit pattern.
pub open spec fn fraction(bits: u32) -> nat {
    (bits % 0x80_0000) as nat
}

/// Whether the sign bit of a bit pattern is set.
pub open spec fn is_negative(bits: u32) -> bool {
    bits >= 0x8000_0000
}

/// Whether the number is at least `2^-26` and below 2, so that its product
/// with 255 may reach a whole number above 0 and stays below 512.
pub open spec fn is_moderate(bits: u32) -> bool {
    !is_negative(bits) && 100 < exponent(bits) < 128
}

/// The binary digits that the rounded product with 255 has behind the point.
pub open spec fn digits_behind_point(bits: u32) -> nat
    recommends
        is_moderate(bits),
{
    let product = 255 * (0x80_0000 + fraction(bits));
    if product >= 0x8000_0000 {
        (142 - exponent(bits)) as nat
    } else {
        (143 - exponent(bits)) as nat
    }
}

/// The 24 significant bits of the product with 255, rounded to nearest, a
/// tie to even: the product is this number over
/// `2^digits_behind_point(bits)`.
pub open spec fn rounded_product(bits: u32) -> nat
    recommends
        is_moderate(bits),
{
    let product = 255 * (0x80_0000 + fraction(bits));
    let unit: nat = if product >= 0x8000_0000 {
        256
    } else {
        128
    };
    let kept = product / unit;
    let rest = product % unit;
    if 2 * rest > unit || (2 * rest == unit && kept % 2 == 1) {
        kept + 1
    } else {
        kept
    }
}

/// The number times 255, cut to a whole number from 0 to 255: what the cast
/// of the single-precision product to `u8` gives. A number that is not a
/// number gives 0, and so does a negative one.
pub open spec fn cut_channel(bits: u32) -> nat {
    if exponent(bits) == 255 {
        if fraction(bits) != 0 || is_negative(bits) {
            0
        } else {
            255
        }
    } else if is_negative(bits) {
        0
    } else if exponent(bits) >= 128 {
        255
    } else if exponent(bits) <= 100 {
        0
    } else {
        let whole = rounded_product(bits) / pow2(digits_behind_point(bits));
        if whole > 255 {
            255
        } else {
            whole
        }
    }
}

/// Whether the number lies between 0 and 1, both included.
pub open spec fn is_unit(bits: u32) -> bool {
    bits <= 0x3f80_0000 || bits == 0x8000_0000
}

/// The number times 255, rounded to the nearest whole number, a half away
/// from zero: the ratio that `css_colors` makes of a number between 0 and 1.
pub open spec fn nearest_channel(bits: u32) -> nat
    recommends
        is_unit(bits),
{
    if is_negative(bits) || exponent(bits) <= 100 {
        0
    } else {
        let unit = pow2(digits_behind_point(bits));
        (2 * rounded_product(bits) + unit) / (2 * unit)
    }
}

/// 2 to the power `e`.
fn power_of_two(e: u32) -> (power: u64)
    requires
        e < 63,
    ensures
        power == pow2(e as nat),
{
    let mut power: u64 = 1;
    let mut i: u32 = 0;
    proof {
        lemma2_to64();
        lemma2_to64_rest();
    }
    while i < e
        invariant
            i <= e < 63,
            power == pow2(i as nat),
            pow2(63) == 0x8000_0000_0000_0000,
        decreases e - i,
    {
        proof {
            lemma_pow2_unfold((i + 1) as nat);
            lemma_pow2_strictly_increases((i + 1) as nat, 63);
        }
        power = power * 2;
        i += 1;
    }
    power
}

/// The rounded product of a moderate number with 255 and its digits behind
/// the point.
fn product_with_255(bits: u32) -> (product: (u64, u32))
    requires
        is_moderate(bits),
    ensures
        product.0 == rounded_product(bits),
        product.1 == digits_behind_point(bits),
        product.0 <= 0x100_0000,
        14 <= product.1 <= 42,
{
    let exp: u32 = (bits / 0x80_0000) % 256;
    let frac: u64 = (bits % 0x80_0000) as u64;
    let exact: u64 = 255 * (0x80_0000 + frac);
    let (unit, digits): (u64, u32) = if exact >= 0x8000_0000 {
        (256, 142 - exp)
    } else {
        (128, 143 - exp)
    };
    let kept: u64 = exact / unit;
    let rest: u64 = exact % unit;
    if 2 * rest > unit || (2 * rest == unit && kept % 2 == 1) {
        (kept + 1, digits)
    } else {
        (kept, digits)
    }
}

/// Cuts the product of a single-precision channel with 255 to an 8-bit
/// channel.
pub fn channel_from_bits(bits: u32) -> (channel: u8)
    ensures
        channel == cut_channel(bits),
{
    let exp: u32 = (bits / 0x80_0000) % 256;
    let frac: u32 = bits % 0x80_0000;
    let negative = bits >= 0x8000_0000;
    if exp == 255 {
        if frac != 0 || negative {
            0
        } else {
            255
        }
    } else if negative {
        0
    } else if exp >= 128 {
        255
    } else if exp <= 100 {
        0
    } else {
        let (sig, digits) = product_with_255(bits);
        let unit = power_of_two(digits);
        proof {
            lemma_pow2_pos(digits as nat);
        }
        let whole = sig / unit;
        if whole > 255 {
            255
        } else {
            whole as u8
        }
    }
}

/// Rounds the product of a single-precision channel between 0 and 1 with 255
/// to an 8-bit channel.
pub fn ratio_from_bits(bits: u32) -> (channel: u8)
    requires
        is_unit(bits),
    ensures
        channel == nearest_channel(bits),
{
    let exp: u32 = (bits / 0x80_0000) % 256;
    if bits >= 0x8000_0000 || exp <= 100 {
        0
    } else {
        assert(exp < 128);
        let (sig, digits) = product_with_255(bits);
        let unit = power_of_two(digits);
        proof {
            lemma_pow2_pos(digits as nat);
            lemma_pow2_strictly_increases(digits as nat, 43);
            lemma2_to64_rest();
        }
        let whole = (2 * sig + unit) / (2 * unit);
        assert(whole <= 255) by {
            lemma_nearest_is_a_channel(bits);
        }
        whole as u8
    }
}

/// A number between 0 and 1 rounds to at most 255.
proof fn lemma_nearest_is_a_channel(bits: u32)
    requires
        is_unit(bits),
    ensures
        nearest_channel(bits) <= 255,
{
    if !(is_negative(bits) || exponent(bits) <= 100) {
        let e = exponent(bits);
        let f = fraction(bits);
        assert(bits == e * 0x80_0000 + f);
        assert(e <= 127);
        assert(e == 127 ==> f == 0);
        let sig = rounded_product(bits);
        let digits = digits_behind_point(bits);
        let unit = pow2(digits);
        lemma_pow2_pos(digits);
        // sig / unit is the rounded product, at most 255; at 255 the sum
        // below stays under 256 units
        lemma_product_at_most_255(bits);
        assert(2 * sig + unit < 512 * unit);
        assert((2 * sig + unit) / (2 * unit) <= 255) by (nonlinear_arith)
            requires
                2 * sig + unit < 512 * unit,
                unit > 0,
                sig >= 0,
        ;
    }
}

/// The rounded product of a number of at most 1 with 255 is at most 255.
proof fn lemma_product_at_most_255(bits: u32)
    requires
        is_moderate(bits),
        exponent(bits) < 127 || (exponent(bits) == 127 && fraction(bits) == 0),
    ensures
        rounded_product(bits) <= 255 * pow2(digits_behind_point(bits)),
{
    let e = exponent(bits);
    let f = fraction(bits);
    let product = 255 * (0x80_0000 + f);
    vstd::arithmetic::power2::lemma2_to64();
    if e == 127 {
        // 255 * 2^23 is below 2^31: 128 units, 16 digits
        assert(product == 255 * 0x80_0000);
        assert(digits_behind_point(bits) == 16);
        assert(pow2(16) == 0x10000);
        assert(rounded_product(bits) == 255 * 0x10000);
    } else {
        let digits = digits_behind_point(bits);
        assert(rounded_product(bits) <= 0x100_0000);
        if digits == 16 {
            // the number is below 1, so the product is below 255 * 2^24
            assert(product >= 0x8000_0000);
            assert(product <= 255 * 0x100_0000 - 255);
            assert(pow2(16) == 0x10000);
            assert(rounded_product(bits) <= 255 * 0x10000);
        } else {
            // 2^24 is below 255 * 2^17
            assert(digits >= 17);
            lemma_pow2_strictly_increases_or_same(17, digits);
            assert(pow2(17) == 0x20000);
            assert(255 * pow2(digits) >= 255 * 0x20000) by (nonlinear_arith)
                requires
                    pow2(digits) >= 0x20000,
            ;
        }
    }
}

proof fn lemma_pow2_strictly_increases_or_same(a: nat, b: nat)
    requires
        a <= b,
    ensures
        pow2(a) <= pow2(b),
{
    if a < b {
        lemma_pow2_strictly_increases(a, b);
    }
}

} // verus!
