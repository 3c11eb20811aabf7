//! JSON numbers as exact decimals.

use vstd::prelude::*;

verus! {

/// Ten to the power `n`.
pub open spec fn pow10(n: nat) -> nat
    decreases n,
{
    if n == 0 {
        1
    } else {
        10 * pow10((n - 1) as nat)
    }
}

/// A JSON number: sign, decimal mantissa and decimal exponent.
///
/// The number stands for `mantissa * 10^exponent`, negated unless `positive`.
/// The same value has many such representations (`1`, `1.0` and `10e-1`), and
/// zero has both signs; [`JsonNumber::same_value`] compares what they stand
/// for.
#[derive(Clone, Copy, Debug)]
pub struct JsonNumber {
    pub positive: bool,
    pub mantissa: u64,
    pub exponent: i16,
}

impl JsonNumber {
    /// The mantissa written on the decimal scale `10^scale`, for a scale that
    /// is not above the number's own exponent.
    pub open spec fn magnitude_at(self, scale: int) -> nat
        recommends
            scale <= self.exponent,
    {
        self.mantissa as nat * pow10((self.exponent - scale) as nat)
    }

    /// The lower of the two exponents: a scale on which both numbers are
    /// whole.
    pub open spec fn common_scale(self, other: JsonNumber) -> int {
        if self.exponent <= other.exponent {
            self.exponent as int
        } else {
            other.exponent as int
        }
    }

    /// Two numbers denote the same value when both are zero, or when they
    /// have the same sign and the same magnitude on a common scale.
    pub open spec fn denotes_same(self, other: JsonNumber) -> bool {
        ||| self.mantissa == 0 && other.mantissa == 0
        ||| {
            &&& self.positive == other.positive
            &&& self.magnitude_at(self.common_scale(other)) == other.magnitude_at(
                self.common_scale(other),
            )
        }
    }

    /// Compares two numbers by value, exactly.
    pub fn same_value(&self, other: &JsonNumber) -> (same: bool)
        ensures
            same == self.denotes_same(*other),
    {
        if self.mantissa == 0 && other.mantissa == 0 {
            return true;
        }
        if self.positive != other.positive {
            return false;
        }
        if self.exponent >= other.exponent {
            let shift: u32 = (self.exponent as i32 - other.exponent as i32) as u32;
            proof {
                lemma_magnitude_at_own_scale(*other);
            }
            scaled_equals(self.mantissa, shift, other.mantissa)
        } else {
            let shift: u32 = (other.exponent as i32 - self.exponent as i32) as u32;
            proof {
                lemma_magnitude_at_own_scale(*self);
            }
            scaled_equals(other.mantissa, shift, self.mantissa)
        }
    }
}

/// On its own exponent's scale a number's magnitude is its mantissa.
proof fn lemma_magnitude_at_own_scale(number: JsonNumber)
    ensures
        number.magnitude_at(number.exponent as int) == number.mantissa,
{
    assert(pow10(0) == 1);
    assert(number.mantissa as nat * 1 == number.mantissa);
}

/// `pow10` is positive and never decreases.
proof fn lemma_pow10_monotonic(low: nat, high: nat)
    requires
        low <= high,
    ensures
        1 <= pow10(low) <= pow10(high),
    decreases high,
{
    if high == 0 {
    } else if low == high {
        lemma_pow10_monotonic((low - 1) as nat, (high - 1) as nat);
    } else {
        lemma_pow10_monotonic(low, (high - 1) as nat);
    }
}

/// Whether `mantissa * 10^shift` equals `target`, computed without overflow.
fn scaled_equals(mantissa: u64, shift: u32, target: u64) -> (equal: bool)
    ensures
        equal == (mantissa as nat * pow10(shift as nat) == target as nat),
{
    if mantissa == 0 {
        assert(0 * pow10(shift as nat) == 0) by (nonlinear_arith);
        return target == 0;
    }
    if shift >= 20 {
        proof {
            reveal_with_fuel(pow10, 21);
            assert(pow10(20) == 100000000000000000000nat);
            lemma_pow10_monotonic(20, shift as nat);
            assert(mantissa as nat * pow10(shift as nat) >= pow10(shift as nat))
                by (nonlinear_arith)
                requires
                    mantissa >= 1,
            ;
        }
        return false;
    }
    let mut scaled: u128 = mantissa as u128;
    let mut done: u32 = 0;
    assert(scaled as nat == mantissa as nat * pow10(0)) by {
        assert(pow10(0) == 1);
        assert(mantissa as nat * 1 == mantissa);
    }
    while done < shift
        invariant
            done <= shift < 20,
            scaled as nat == mantissa as nat * pow10(done as nat),
        decreases shift - done,
    {
        proof {
            reveal_with_fuel(pow10, 21);
            assert(pow10(18) == 1000000000000000000nat);
            lemma_pow10_monotonic(done as nat, 18);
            assert(mantissa as nat * pow10(done as nat) <= 0xffff_ffff_ffff_ffff
                * 1000000000000000000nat) by (nonlinear_arith)
                requires
                    mantissa <= 0xffff_ffff_ffff_ffff,
                    pow10(done as nat) <= 1000000000000000000nat,
            ;
            assert(mantissa as nat * pow10(done as nat) * 10 == mantissa as nat * (10 * pow10(
                done as nat,
            ))) by (nonlinear_arith);
        }
        scaled = scaled * 10;
        done = done + 1;
    }
    scaled == target as u128
}

/// `pow10` turns sums into products.
proof fn lemma_pow10_adds(a: nat, b: nat)
    ensures
        pow10(a + b) == pow10(a) * pow10(b),
    decreases a,
{
    if a == 0 {
        assert(pow10(0) == 1);
        assert(1 * pow10(b) == pow10(b));
    } else {
        lemma_pow10_adds((a - 1) as nat, b);
        assert(pow10(a + b) == 10 * pow10((a - 1 + b) as nat));
        assert(10 * (pow10((a - 1) as nat) * pow10(b)) == (10 * pow10((a - 1) as nat)) * pow10(b))
            by (nonlinear_arith);
    }
}

/// Writing a magnitude on a finer scale multiplies it by a power of ten.
proof fn lemma_magnitude_on_finer_scale(number: JsonNumber, coarse: int, fine: int)
    requires
        fine <= coarse <= number.exponent,
    ensures
        number.magnitude_at(fine) == number.magnitude_at(coarse) * pow10((coarse - fine) as nat),
{
    let up = (number.exponent - coarse) as nat;
    let down = (coarse - fine) as nat;
    lemma_pow10_adds(up, down);
    assert(number.mantissa as nat * (pow10(up) * pow10(down)) == (number.mantissa as nat * pow10(
        up,
    )) * pow10(down)) by (nonlinear_arith);
}

/// Two numbers of the same magnitude on some scale below both exponents have
/// the same magnitude on every such scale.
proof fn lemma_same_magnitude_on_any_scale(a: JsonNumber, b: JsonNumber, one: int, other: int)
    requires
        one <= a.exponent,
        one <= b.exponent,
        other <= a.exponent,
        other <= b.exponent,
        a.magnitude_at(one) == b.magnitude_at(one),
    ensures
        a.magnitude_at(other) == b.magnitude_at(other),
{
    let top = a.common_scale(b);
    lemma_magnitude_on_finer_scale(a, top, one);
    lemma_magnitude_on_finer_scale(b, top, one);
    lemma_pow10_monotonic(0, (top - one) as nat);
    assert(a.magnitude_at(top) == b.magnitude_at(top)) by (nonlinear_arith)
        requires
            a.magnitude_at(top) * pow10((top - one) as nat) == b.magnitude_at(top) * pow10(
                (top - one) as nat,
            ),
            pow10((top - one) as nat) >= 1,
    ;
    lemma_magnitude_on_finer_scale(a, top, other);
    lemma_magnitude_on_finer_scale(b, top, other);
}

/// A number whose magnitude is zero on some scale is zero.
proof fn lemma_zero_magnitude(number: JsonNumber, scale: int)
    requires
        scale <= number.exponent,
        number.magnitude_at(scale) == 0,
    ensures
        number.mantissa == 0,
{
    lemma_pow10_monotonic(0, (number.exponent - scale) as nat);
    assert(number.mantissa == 0) by (nonlinear_arith)
        requires
            number.mantissa as nat * pow10((number.exponent - scale) as nat) == 0,
            pow10((number.exponent - scale) as nat) >= 1,
    ;
}

/// Every number has the value it has.
pub proof fn lemma_same_value_reflexive(a: JsonNumber)
    ensures
        a.denotes_same(a),
{
}

/// Having the same value does not depend on the side a number stands on.
pub proof fn lemma_same_value_symmetric(a: JsonNumber, b: JsonNumber)
    ensures
        a.denotes_same(b) == b.denotes_same(a),
{
}

/// Two numbers that have the value of a third have the same value.
pub proof fn lemma_same_value_transitive(a: JsonNumber, b: JsonNumber, c: JsonNumber)
    requires
        a.denotes_same(b),
        b.denotes_same(c),
    ensures
        a.denotes_same(c),
{
    let ab = a.common_scale(b);
    let bc = b.common_scale(c);
    let ac = a.common_scale(c);
    let low = if ab <= bc { ab } else { bc };
    if a.mantissa == 0 && b.mantissa == 0 {
        if c.mantissa != 0 {
            assert(b.magnitude_at(bc) == 0) by (nonlinear_arith)
                requires
                    b.magnitude_at(bc) == b.mantissa as nat * pow10((b.exponent - bc) as nat),
                    b.mantissa == 0,
            ;
            lemma_zero_magnitude(c, bc);
        }
    } else if b.mantissa == 0 && c.mantissa == 0 {
        assert(b.magnitude_at(ab) == 0) by (nonlinear_arith)
            requires
                b.magnitude_at(ab) == b.mantissa as nat * pow10((b.exponent - ab) as nat),
                b.mantissa == 0,
        ;
        lemma_zero_magnitude(a, ab);
    } else {
        lemma_same_magnitude_on_any_scale(a, b, ab, low);
        lemma_same_magnitude_on_any_scale(b, c, bc, low);
        lemma_same_magnitude_on_any_scale(a, c, low, ac);
    }
}

} // verus!
