use vstd::arithmetic::power2::{
    lemma2_to64, lemma2_to64_rest, lemma_pow2_adds, lemma_pow2_pos, lemma_pow2_strictly_increases, pow2,
};
use vstd::prelude::*;

verus! {

/// Two to the power 52: the weight of the lowest exponent bit of a binary64
/// pattern, and the hidden leading bit of a normal number's significand.
pub const FRACTION_RANGE: u64 = 0x10_0000_0000_0000;

/// The binary64 pattern of the number one.
pub const ONE_PATTERN: u64 = 0x3FF0_0000_0000_0000;

/// The binary64 pattern of negative zero.
pub const NEGATIVE_ZERO_PATTERN: u64 = 0x8000_0000_0000_0000;

/// Whether the sign bit of a binary64 pattern is set.
pub open spec fn is_negative(pattern: u64) -> bool {
    pattern >= 0x8000_0000_0000_0000
}

/// The eleven exponent bits of a binary64 pattern.
pub open spec fn exponent_field(pattern: u64) -> nat {
    ((pattern / 0x10_0000_0000_0000) % 0x800) as nat
}

/// The 52 fraction bits of a binary64 pattern.
pub open spec fn fraction_field(pattern: u64) -> nat {
    (pattern % 0x10_0000_0000_0000) as nat
}

/// Whether a binary64 pattern stands for a number, and not for an infinity
/// or a NaN.
pub open spec fn is_finite(pattern: u64) -> bool {
    exponent_field(pattern) < 0x7ff
}

/// The absolute value of the number that a finite binary64 pattern stands
/// for, multiplied by two to the power 1074, which makes it a natural
/// number: the fraction itself for a subnormal, and the significand with its
/// hidden bit, shifted by the exponent, for a normal number.
pub open spec fn scaled_magnitude(pattern: u64) -> nat {
    let e = exponent_field(pattern);
    let f = fraction_field(pattern);
    if e == 0 {
        f
    } else {
        (0x10_0000_0000_0000 + f) * pow2((e - 1) as nat)
    }
}

/// Whether a binary64 pattern stands for a number `x` with `0 <= x <= 1`.
/// Both zeros count as zero, and one is two to the power 1074 on the scale
/// of `scaled_magnitude`.
pub open spec fn in_unit_interval(pattern: u64) -> bool {
    is_finite(pattern) && (scaled_magnitude(pattern) == 0 || (!is_negative(pattern)
        && scaled_magnitude(pattern) <= pow2(1074)))
}

/// A normal significand, shifted by its exponent, compared with one.
proof fn lemma_normal_magnitude(e: nat, f: nat)
    requires
        1 <= e,
        f < 0x10_0000_0000_0000,
    ensures
        (0x10_0000_0000_0000 + f) * pow2((e - 1) as nat) > 0,
        (0x10_0000_0000_0000 + f) * pow2((e - 1) as nat) <= pow2(1074) <==> (e < 1023 || (e
            == 1023 && f == 0)),
{
    let shift = pow2((e - 1) as nat);
    let hidden: nat = 0x10_0000_0000_0000;
    lemma2_to64();
    lemma2_to64_rest();
    lemma_pow2_pos((e - 1) as nat);
    lemma_pow2_adds(52, 1022);
    assert(pow2(1074) == hidden * pow2(1022));
    lemma_pow2_pos(1022);
    assert((hidden + f) * shift > 0) by (nonlinear_arith)
        requires
            shift > 0,
            hidden > 0,
    ;
    if e < 1023 {
        lemma_pow2_adds(1, 1021);
        assert(pow2(1022) == 2 * pow2(1021));
        if e < 1022 {
            lemma_pow2_strictly_increases((e - 1) as nat, 1021);
        }
        assert(shift <= pow2(1021));
        assert((hidden + f) * shift <= hidden * (2 * pow2(1021))) by (nonlinear_arith)
            requires
                f < hidden,
                shift <= pow2(1021),
        ;
    } else if e == 1023 {
        assert((hidden + f) * shift <= hidden * shift <==> f == 0) by (nonlinear_arith)
            requires
                shift > 0,
        ;
    } else {
        lemma_pow2_adds(1, 1022);
        assert(pow2(1023) == 2 * pow2(1022));
        if e > 1024 {
            lemma_pow2_strictly_increases(1023, (e - 1) as nat);
        }
        assert(shift >= 2 * pow2(1022));
        assert((hidden + f) * shift > hidden * pow2(1022)) by (nonlinear_arith)
            requires
                shift >= 2 * pow2(1022),
                pow2(1022) > 0,
                hidden > 0,
        ;
    }
}

/// The numbers from zero to one are the patterns up to that of one, and
/// negative zero.
pub proof fn lemma_unit_interval_patterns(pattern: u64)
    ensures
        in_unit_interval(pattern) <==> (pattern <= ONE_PATTERN || pattern
            == NEGATIVE_ZERO_PATTERN),
{
    let e = exponent_field(pattern);
    let f = fraction_field(pattern);
    let q = pattern / 0x10_0000_0000_0000;
    assert(pattern == q * 0x10_0000_0000_0000 + f);
    assert(q < 0x1000);
    assert(is_negative(pattern) <==> q >= 0x800);
    assert(q == if q >= 0x800 { e + 0x800 } else { e });
    if e >= 1 {
        lemma_normal_magnitude(e, f);
    } else {
        lemma2_to64_rest();
        lemma_pow2_adds(52, 1022);
        lemma_pow2_pos(1022);
        assert(pow2(1074) >= 0x10_0000_0000_0000) by (nonlinear_arith)
            requires
                pow2(1074) == 0x10_0000_0000_0000 * pow2(1022),
                pow2(1022) > 0,
        ;
    }
}

/// Whether a binary64 pattern stands for a number from zero to one.
pub fn channel_in_unit_interval(pattern: u64) -> (ok: bool)
    ensures
        ok == in_unit_interval(pattern),
{
    proof {
        lemma_unit_interval_patterns(pattern);
    }
    pattern <= ONE_PATTERN || pattern == NEGATIVE_ZERO_PATTERN
}

/// A color with opacity. Each channel holds the binary64 pattern of its
/// value, as `f64::to_bits` gives it.
#[derive(Clone, Copy, Debug, PartialEq, Eq, Structural)]
pub struct Color {
    pub red: u64,
    pub green: u64,
    pub blue: u64,
    pub alpha: u64,
}

impl Color {
    /// Whether each of the four channels is a number from zero to one.
    pub open spec fn spec_is_valid(self) -> bool {
        &&& in_unit_interval(self.red)
        &&& in_unit_interval(self.green)
        &&& in_unit_interval(self.blue)
        &&& in_unit_interval(self.alpha)
    }

    /// A color from the binary64 patterns of its four channels.
    pub fn from_patterns(red: u64, green: u64, blue: u64, alpha: u64) -> (color: Color)
        ensures
            color == (Color { red, green, blue, alpha }),
    {
        Color { red, green, blue, alpha }
    }

    /// Opaque yellow: red and green at one, blue at zero.
    pub open spec fn spec_yellow() -> Color {
        Color { red: ONE_PATTERN, green: ONE_PATTERN, blue: 0, alpha: ONE_PATTERN }
    }

    /// Opaque yellow: red and green at one, blue at zero.
    pub fn yellow() -> (color: Color)
        ensures
            color == Color::spec_yellow(),
            color.spec_is_valid(),
    {
        proof {
            lemma_unit_interval_patterns(ONE_PATTERN);
            lemma_unit_interval_patterns(0);
        }
        Color { red: ONE_PATTERN, green: ONE_PATTERN, blue: 0, alpha: ONE_PATTERN }
    }

    /// Whether each of the four channels is a number from zero to one.
    pub fn is_valid(&self) -> (ok: bool)
        ensures
            ok == self.spec_is_valid(),
    {
        channel_in_unit_interval(self.red) && channel_in_unit_interval(self.green)
            && channel_in_unit_interval(self.blue) && channel_in_unit_interval(self.alpha)
    }
}

} // verus!
