//! Numeric values: double-precision numbers without NaN, in their total order.
//!
//! A value is held as the 64 bits of its IEEE 754 binary64 encoding: one sign bit,
//! eleven exponent bits, fifty-two fraction bits. What the bits stand for is
//! written down here as a number, and the comparison is proved to be the order of
//! those numbers.

use crate::codec::Outcome;
use crate::error::ApiError;
use vstd::arithmetic::power2::{lemma_pow2_pos, lemma_pow2_strictly_increases, lemma_pow2_unfold, pow2};
use vstd::prelude::*;

verus! {

/// The sign bit of an encoding.
pub const SIGN_BIT: u64 = 0x8000_0000_0000_0000;

/// The encoding of positive infinity: every exponent bit set, no fraction bit set.
pub const INFINITY_BITS: u64 = 0x7FF0_0000_0000_0000;

/// The number of values that the fraction bits can take: two to the 52nd.
pub const FRACTION_RANGE: u64 = 0x0010_0000_0000_0000;

/// Whether the sign bit is set.
pub open spec fn is_negative(bits: u64) -> bool {
    bits >= SIGN_BIT
}

/// The encoding without its sign bit.
pub open spec fn magnitude(bits: u64) -> int {
    if bits >= SIGN_BIT {
        bits - SIGN_BIT
    } else {
        bits as int
    }
}

/// A NaN has every exponent bit set and some fraction bit set.
pub open spec fn is_nan(bits: u64) -> bool {
    magnitude(bits) > INFINITY_BITS
}

/// An infinity has every exponent bit set and no fraction bit set.
pub open spec fn is_infinite(bits: u64) -> bool {
    magnitude(bits) == INFINITY_BITS
}

/// The eleven exponent bits, as a number.
pub open spec fn exponent_field(bits: u64) -> int {
    magnitude(bits) / (FRACTION_RANGE as int)
}

/// The fifty-two fraction bits, as a number.
pub open spec fn fraction_field(bits: u64) -> int {
    magnitude(bits) % (FRACTION_RANGE as int)
}

/// The significand: the fraction alone for a subnormal number, the fraction under
/// an implied leading one for a normal number.
pub open spec fn significand(bits: u64) -> int {
    if exponent_field(bits) == 0 {
        fraction_field(bits)
    } else {
        FRACTION_RANGE + fraction_field(bits)
    }
}

/// The power of two by which the significand is multiplied, counted from the
/// smallest one, which is two to the -1074th.
pub open spec fn scale(bits: u64) -> nat {
    if exponent_field(bits) <= 1 {
        0
    } else {
        (exponent_field(bits) - 1) as nat
    }
}

/// The absolute value of a finite number, in units of two to the -1074th. Every
/// finite binary64 number is a whole number of these units.
pub open spec fn scaled_magnitude(bits: u64) -> int {
    significand(bits) * pow2(scale(bits))
}

/// A number of the extended real line, finite ones in units of two to the -1074th.
pub enum Extended {
    NegInfinity,
    Finite(int),
    Infinity,
}

impl Extended {
    /// The strict order of the extended real line.
    pub open spec fn lt(self, other: Extended) -> bool {
        match (self, other) {
            (Extended::NegInfinity, Extended::NegInfinity) => false,
            (Extended::NegInfinity, _) => true,
            (Extended::Finite(_), Extended::NegInfinity) => false,
            (Extended::Finite(x), Extended::Finite(y)) => x < y,
            (Extended::Finite(_), Extended::Infinity) => true,
            (Extended::Infinity, _) => false,
        }
    }

    /// How `self` stands to `other` in that order.
    pub open spec fn order(self, other: Extended) -> Outcome {
        if self.lt(other) {
            Outcome::Less
        } else if other.lt(self) {
            Outcome::Greater
        } else {
            Outcome::Equal
        }
    }
}

/// The number that an encoding other than a NaN stands for. The two zeros stand
/// for the same number.
pub open spec fn value_of(bits: u64) -> Extended {
    if is_infinite(bits) {
        if is_negative(bits) {
            Extended::NegInfinity
        } else {
            Extended::Infinity
        }
    } else if is_negative(bits) {
        Extended::Finite(-scaled_magnitude(bits))
    } else {
        Extended::Finite(scaled_magnitude(bits))
    }
}

/// A double-precision number that is not a NaN.
#[derive(Clone, Copy, Debug)]
pub struct NumericValue {
    bits: u64,
}

impl NumericValue {
    /// The encoding of the value.
    pub closed spec fn bits(self) -> u64 {
        self.bits
    }

    /// The value with the encoding `bits`.
    pub closed spec fn of(bits: u64) -> NumericValue {
        NumericValue { bits }
    }

    /// A numeric value never holds the encoding of a NaN.
    pub open spec fn wf(self) -> bool {
        !is_nan(self.bits())
    }

    #[verifier::type_invariant]
    spec fn holds_a_number(self) -> bool {
        self.wf()
    }

    /// The number that the value stands for.
    pub open spec fn value(self) -> Extended {
        value_of(self.bits())
    }

    /// How the value stands to `other`, as numbers.
    pub open spec fn order(self, other: NumericValue) -> Outcome {
        self.value().order(other.value())
    }

    /// Takes the encoding of a number. Every finite number and both infinities are
    /// accepted; a NaN, and nothing else, is rejected.
    pub fn new(bits: u64) -> (made: Result<NumericValue, ApiError>)
        ensures
            made == if is_nan(bits) {
                Err(ApiError::InvalidNumber)
            } else {
                Ok(NumericValue::of(bits))
            },
            made matches Ok(value) ==> value.bits() == bits && value.wf(),
    {
        let magnitude = if bits >= SIGN_BIT {
            bits - SIGN_BIT
        } else {
            bits
        };
        if magnitude > INFINITY_BITS {
            Err(ApiError::InvalidNumber)
        } else {
            Ok(NumericValue { bits })
        }
    }

    /// The encoding of the value.
    pub fn to_bits(&self) -> (bits: u64)
        ensures
            bits == self.bits(),
            !is_nan(bits),
    {
        proof {
            use_type_invariant(self);
        }
        self.bits
    }

    /// Compares two values as numbers: no tolerance, the two zeros equal. The
    /// outcome is also the order of the ranks of the two encodings.
    pub fn compare(&self, other: &NumericValue) -> (outcome: Outcome)
        ensures
            outcome == self.order(*other),
            outcome == rank_order(rank(self.bits()), rank(other.bits())),
    {
        proof {
            use_type_invariant(self);
            use_type_invariant(other);
            lemma_rank_orders_values(self.bits, other.bits);
        }
        let negative = self.bits >= SIGN_BIT;
        let other_negative = other.bits >= SIGN_BIT;
        let size = if negative {
            self.bits - SIGN_BIT
        } else {
            self.bits
        };
        let other_size = if other_negative {
            other.bits - SIGN_BIT
        } else {
            other.bits
        };
        if negative && other_negative {
            three_way(other_size, size)
        } else if negative {
            if size == 0 && other_size == 0 {
                Outcome::Equal
            } else {
                Outcome::Less
            }
        } else if other_negative {
            if size == 0 && other_size == 0 {
                Outcome::Equal
            } else {
                Outcome::Greater
            }
        } else {
            three_way(size, other_size)
        }
    }
}

impl PartialEq for NumericValue {
    /// Two values are equal when they stand for the same number.
    fn eq(&self, other: &NumericValue) -> (equal: bool) {
        proof {
            lemma_order_is_total(self.value(), other.value());
        }
        match self.compare(other) {
            Outcome::Equal => true,
            _ => false,
        }
    }
}

impl vstd::std_specs::cmp::PartialEqSpecImpl for NumericValue {
    open spec fn obeys_eq_spec() -> bool {
        true
    }

    open spec fn eq_spec(&self, other: &NumericValue) -> bool {
        self.value() == other.value()
    }
}

/// How one unsigned integer stands to another.
fn three_way(left: u64, right: u64) -> (outcome: Outcome)
    ensures
        outcome == rank_order(left as int, right as int),
{
    if left < right {
        Outcome::Less
    } else if left > right {
        Outcome::Greater
    } else {
        Outcome::Equal
    }
}

/// How one integer stands to another.
pub open spec fn rank_order(left: int, right: int) -> Outcome {
    if left < right {
        Outcome::Less
    } else if left > right {
        Outcome::Greater
    } else {
        Outcome::Equal
    }
}

/// The place of an encoding among all encodings, ordered as their numbers are: the
/// magnitude for a number that is not negative, its opposite for a negative one.
pub open spec fn rank(bits: u64) -> int {
    if is_negative(bits) {
        -magnitude(bits)
    } else {
        magnitude(bits)
    }
}

proof fn lemma_product_increases(x: int, y: int, p: int)
    requires
        0 <= x < y,
        0 < p,
    ensures
        x * p < y * p,
{
    assert(x * p < y * p) by (nonlinear_arith)
        requires
            0 <= x < y,
            0 < p,
    ;
}

proof fn lemma_product_increases_across_scales(x: int, y: int, p: int, q: int)
    requires
        0 <= x < 2 * y,
        0 < p,
        2 * p <= q,
    ensures
        x * p < y * q,
{
    assert(x * p < y * q) by (nonlinear_arith)
        requires
            0 <= x < 2 * y,
            0 < p,
            2 * p <= q,
    ;
}

/// Among finite numbers that are not negative, the larger encoding stands for the
/// larger number.
pub proof fn lemma_scaled_magnitude_increases(low: u64, high: u64)
    requires
        magnitude(low) < magnitude(high) < INFINITY_BITS,
    ensures
        0 <= scaled_magnitude(low) < scaled_magnitude(high),
{
    let p = pow2(scale(low)) as int;
    let q = pow2(scale(high)) as int;
    lemma_pow2_pos(scale(low));
    lemma_pow2_pos(scale(high));
    assert(0 <= significand(low) < 2 * FRACTION_RANGE);
    assert(0 <= significand(low) * p) by (nonlinear_arith)
        requires
            0 <= significand(low),
            0 < p,
    ;
    assert(exponent_field(low) <= exponent_field(high));
    if scale(low) == scale(high) {
        assert(significand(low) < significand(high));
        lemma_product_increases(significand(low), significand(high), p);
    } else {
        assert(scale(low) < scale(high));
        assert(significand(high) >= FRACTION_RANGE);
        lemma_pow2_unfold((scale(low) + 1) as nat);
        if scale(low) + 1 < scale(high) {
            lemma_pow2_strictly_increases((scale(low) + 1) as nat, scale(high));
        }
        assert(2 * p <= q);
        lemma_product_increases_across_scales(significand(low), significand(high), p, q);
    }
}

/// A finite encoding stands for zero exactly when its magnitude is zero.
proof fn lemma_scaled_magnitude_of_zero(bits: u64)
    requires
        magnitude(bits) == 0,
    ensures
        scaled_magnitude(bits) == 0,
{
    assert(significand(bits) == 0);
    assert(significand(bits) * pow2(scale(bits)) == 0) by (nonlinear_arith)
        requires
            significand(bits) == 0,
    ;
}

/// The order of the ranks of two encodings is the order of the numbers that they
/// stand for.
pub proof fn lemma_rank_orders_values(first: u64, second: u64)
    requires
        !is_nan(first),
        !is_nan(second),
    ensures
        rank_order(rank(first), rank(second)) == value_of(first).order(value_of(second)),
{
    let zero: u64 = 0;
    if !is_infinite(first) && magnitude(first) > 0 {
        lemma_scaled_magnitude_increases(zero, first);
    }
    if !is_infinite(second) && magnitude(second) > 0 {
        lemma_scaled_magnitude_increases(zero, second);
    }
    lemma_scaled_magnitude_of_zero(zero);
    if magnitude(first) == 0 {
        lemma_scaled_magnitude_of_zero(first);
    }
    if magnitude(second) == 0 {
        lemma_scaled_magnitude_of_zero(second);
    }
    if !is_infinite(first) && !is_infinite(second) {
        if magnitude(first) < magnitude(second) {
            lemma_scaled_magnitude_increases(first, second);
        } else if magnitude(second) < magnitude(first) {
            lemma_scaled_magnitude_increases(second, first);
        } else {
            assert(scaled_magnitude(first) == scaled_magnitude(second));
        }
    }
}

/// Of two numbers exactly one holds: the first is less, they are the same, or the
/// second is less.
pub proof fn lemma_order_is_total(first: Extended, second: Extended)
    ensures
        first.order(second) == Outcome::Less <==> first.lt(second),
        first.order(second) == Outcome::Equal <==> first == second,
        first.order(second) == Outcome::Greater <==> second.lt(first),
        !(first.lt(second) && second.lt(first)),
{
}

/// The comparison of two numeric values is the one outcome that agrees with the
/// order of the numbers they stand for, and comparing them the other way round
/// gives the reversed outcome.
pub proof fn lemma_compare_agrees_with_numbers(first: NumericValue, second: NumericValue)
    ensures
        first.order(second) == Outcome::Less <==> first.value().lt(second.value()),
        first.order(second) == Outcome::Equal <==> first.value() == second.value(),
        first.order(second) == Outcome::Greater <==> second.value().lt(first.value()),
        first.order(second) == second.order(first).reversed(),
{
    lemma_order_is_total(first.value(), second.value());
    lemma_order_is_total(second.value(), first.value());
}

} // verus!
