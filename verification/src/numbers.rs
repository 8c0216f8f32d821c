//! The single-precision numbers that bit patterns stand for.

use vstd::arithmetic::mul::lemma_mul_inequality;
use vstd::arithmetic::mul::lemma_mul_strict_inequality;
use vstd::arithmetic::power2::lemma_pow2_adds;
use vstd::arithmetic::power2::lemma_pow2_pos;
use vstd::arithmetic::power2::lemma_pow2_unfold;
use vstd::arithmetic::power2::pow2;
use vstd::prelude::*;

use crate::texture::is_number;
use crate::texture::rank;
use crate::texture::within_texture;
use crate::texture::TextureBounds;

verus! {

/// The magnitude that the lower 31 bits of a single-precision number stand for, in multiples of the
/// smallest positive number: the upper 8 of them are the exponent, the lower 23 the mantissa, and a
/// mantissa with an exponent above zero has one more leading bit.
pub open spec fn magnitude(bits: int) -> int {
    let exponent = bits / 0x80_0000;
    let mantissa = bits % 0x80_0000;
    if exponent == 0 {
        mantissa
    } else {
        (0x80_0000 + mantissa) * pow2((exponent - 1) as nat)
    }
}

/// The number that a bit pattern stands for, in the same multiples. The infinite number counts as
/// one that is larger than all others.
pub open spec fn number(bits: u32) -> int {
    if bits < 0x8000_0000 {
        magnitude(bits as int)
    } else {
        -magnitude(bits - 0x8000_0000)
    }
}

/// The number 1 in the same multiples.
pub open spec fn one() -> int {
    pow2(149) as int
}

/// The bit pattern stands for no number: the exponent is the largest one, and the mantissa is not
/// zero.
pub open spec fn is_nan(bits: u32) -> bool {
    0x7f80_0000 < bits < 0x8000_0000 || 0xff80_0000 < bits
}

proof fn lemma_magnitude_bounds(bits: int)
    requires
        0 <= bits,
    ensures
        bits / 0x80_0000 > 0 ==> {
            let power = pow2((bits / 0x80_0000 - 1) as nat);
            0x80_0000 * power <= magnitude(bits) < 0x100_0000 * power
        },
        bits / 0x80_0000 == 0 ==> 0 <= magnitude(bits) < 0x80_0000,
{
    let exponent = bits / 0x80_0000;
    let mantissa = bits % 0x80_0000;
    if exponent > 0 {
        let power = pow2((exponent - 1) as nat) as int;
        lemma_pow2_pos((exponent - 1) as nat);
        lemma_mul_inequality(0x80_0000, 0x80_0000 + mantissa, power);
        lemma_mul_strict_inequality(0x80_0000 + mantissa, 0x100_0000, power);
    }
}

proof fn lemma_pow2_grows(a: nat, b: nat)
    requires
        a <= b,
    ensures
        pow2(a) <= pow2(b),
    decreases b - a,
{
    if a < b {
        lemma_pow2_grows(a, (b - 1) as nat);
        lemma_pow2_unfold(b);
        lemma_pow2_pos((b - 1) as nat);
    }
}

proof fn lemma_magnitude_grows(a: int, b: int)
    requires
        0 <= a < b,
    ensures
        0 <= magnitude(a) < magnitude(b),
{
    let ea = a / 0x80_0000;
    let eb = b / 0x80_0000;
    lemma_magnitude_bounds(a);
    lemma_magnitude_bounds(b);
    if ea == eb {
        if ea > 0 {
            let power = pow2((ea - 1) as nat) as int;
            lemma_pow2_pos((ea - 1) as nat);
            lemma_mul_strict_inequality(
                0x80_0000 + a % 0x80_0000,
                0x80_0000 + b % 0x80_0000,
                power,
            );
        }
    } else {
        assert(ea < eb);
        if ea == 0 {
            lemma_pow2_pos((eb - 1) as nat);
        } else {
            lemma_pow2_pos((ea - 1) as nat);
            lemma_pow2_unfold(ea as nat);
            lemma_pow2_grows(ea as nat, (eb - 1) as nat);
        }
    }
}

proof fn lemma_one()
    ensures
        magnitude(0) == 0,
        magnitude(0x3f80_0000) == one(),
        one() > 0,
{
    assert(0x3f80_0000int / 0x80_0000 == 127);
    assert(0x3f80_0000int % 0x80_0000 == 0);
    lemma_pow2_adds(23, 126);
    vstd::arithmetic::power2::lemma2_to64();
    lemma_pow2_pos(149);
}

/// The order of the ranks is the order of the numbers.
pub proof fn law_ranks_order_the_numbers(a: u32, b: u32)
    ensures
        rank(a) < rank(b) <==> number(a) < number(b),
        rank(a) == rank(b) <==> number(a) == number(b),
{
    lemma_one();
    let (x, y) = (rank(a), rank(b));
    let (ax, ay) = (if x < 0 { -x } else { x }, if y < 0 { -y } else { y });
    if ax < ay {
        lemma_magnitude_grows(ax, ay);
    }
    if ay < ax {
        lemma_magnitude_grows(ay, ax);
    }
    if 0 < ax {
        lemma_magnitude_grows(0, ax);
    }
    if 0 < ay {
        lemma_magnitude_grows(0, ay);
    }
}

proof fn lemma_within(bits: u32)
    ensures
        within_texture(bits) <==> 0 <= number(bits) <= one(),
        is_number(bits) <==> !is_nan(bits),
{
    lemma_one();
    law_ranks_order_the_numbers(bits, 0);
    law_ranks_order_the_numbers(0x3f80_0000, bits);
}

/// Bounds are valid exactly if every coordinate lies between 0 and 1, and those of opposite edges
/// differ, as numbers.
pub proof fn law_valid_bounds_lie_on_the_texture(bounds: TextureBounds, valid: bool)
    requires
        call_ensures(TextureBounds::valid, (&bounds,), valid),
    ensures
        valid <==> {
            &&& 0 <= number(bounds.u_min) <= one()
            &&& 0 <= number(bounds.v_min) <= one()
            &&& 0 <= number(bounds.u_max) <= one()
            &&& 0 <= number(bounds.v_max) <= one()
            &&& number(bounds.u_min) != number(bounds.u_max)
            &&& number(bounds.v_min) != number(bounds.v_max)
        },
        valid ==> !is_nan(bounds.u_min) && !is_nan(bounds.v_min) && !is_nan(bounds.u_max)
            && !is_nan(bounds.v_max),
{
    lemma_within(bounds.u_min);
    lemma_within(bounds.v_min);
    lemma_within(bounds.u_max);
    lemma_within(bounds.v_max);
    law_ranks_order_the_numbers(bounds.u_min, bounds.u_max);
    law_ranks_order_the_numbers(bounds.v_min, bounds.v_max);
}

/// Bounds are flipped exactly if the upper edge is the larger number.
pub proof fn law_flipped_bounds_go_up(bounds: TextureBounds, flipped: bool)
    requires
        call_ensures(TextureBounds::vertically_flipped, (&bounds,), flipped),
    ensures
        flipped <==> {
            &&& !is_nan(bounds.v_min)
            &&& !is_nan(bounds.v_max)
            &&& number(bounds.v_min) > number(bounds.v_max)
        },
{
    lemma_within(bounds.v_min);
    lemma_within(bounds.v_max);
    law_ranks_order_the_numbers(bounds.v_max, bounds.v_min);
}

/// The same for what the contracts call flipped and valid.
pub proof fn law_bounds_mean_numbers(bounds: TextureBounds)
    ensures
        bounds.is_valid() <==> {
            &&& 0 <= number(bounds.u_min) <= one()
            &&& 0 <= number(bounds.v_min) <= one()
            &&& 0 <= number(bounds.u_max) <= one()
            &&& 0 <= number(bounds.v_max) <= one()
            &&& number(bounds.u_min) != number(bounds.u_max)
            &&& number(bounds.v_min) != number(bounds.v_max)
        },
        bounds.is_flipped() <==> {
            &&& !is_nan(bounds.v_min)
            &&& !is_nan(bounds.v_max)
            &&& number(bounds.v_min) > number(bounds.v_max)
        },
{
    lemma_within(bounds.u_min);
    lemma_within(bounds.v_min);
    lemma_within(bounds.u_max);
    lemma_within(bounds.v_max);
    law_ranks_order_the_numbers(bounds.u_min, bounds.u_max);
    law_ranks_order_the_numbers(bounds.v_min, bounds.v_max);
    law_ranks_order_the_numbers(bounds.v_max, bounds.v_min);
}

/// The whole texture goes from 0 to 1 both ways.
pub proof fn law_the_whole_texture_goes_from_0_to_1(bounds: TextureBounds)
    requires
        call_ensures(TextureBounds::full, (), bounds),
    ensures
        number(bounds.u_min) == 0,
        number(bounds.v_min) == 0,
        number(bounds.u_max) == one(),
        number(bounds.v_max) == one(),
        bounds == (TextureBounds { u_min: 0, v_min: 0, u_max: 0x3f80_0000, v_max: 0x3f80_0000 }),
{
    lemma_one();
}

} // verus!
