use crate::error::RenderError;
use vstd::arithmetic::power2::{lemma_pow2_strictly_increases, lemma_pow2_unfold, pow2};
use vstd::prelude::*;

verus! {

/// The bit that holds the sign in a binary64 encoding.
pub const SIGN_BIT: u64 = 0x8000_0000_0000_0000;

/// The magnitude bits of an infinity; every larger magnitude is a NaN.
pub const INFINITE: u64 = 0x7FF0_0000_0000_0000;

/// Two to the 52: the number of fractions that share one exponent.
pub const FRACTIONS: u64 = 0x0010_0000_0000_0000;

/// A rectangle of the complex plane. Each bound is a double-precision number,
/// held as its IEEE 754 binary64 encoding.
#[derive(Clone, Copy, Debug, PartialEq, Eq, Structural)]
pub struct Window {
    pub left: u64,
    pub right: u64,
    pub top: u64,
    pub bottom: u64,
}

/// The encoding without its sign bit: exponent and fraction.
pub open spec fn magnitude(bits: u64) -> nat {
    (bits % SIGN_BIT) as nat
}

/// The eleven exponent bits of an encoding.
pub open spec fn exponent(bits: u64) -> nat {
    magnitude(bits) / (FRACTIONS as nat)
}

/// The fifty-two fraction bits of an encoding.
pub open spec fn fraction(bits: u64) -> nat {
    magnitude(bits) % (FRACTIONS as nat)
}

/// The encoding stands for a number: neither an infinity nor a NaN.
pub open spec fn finite(bits: u64) -> bool {
    magnitude(bits) < INFINITE
}

/// The absolute value of the number that a finite encoding stands for,
/// counted in units of 2^-1074, the least positive double. With exponent
/// bits `e` and fraction bits `f` the number is f * 2^-1074 where `e` is 0,
/// and (2^52 + f) * 2^(e - 1075) elsewhere.
pub open spec fn absolute(bits: u64) -> nat {
    if exponent(bits) == 0 {
        fraction(bits)
    } else {
        ((FRACTIONS + fraction(bits)) * pow2((exponent(bits) - 1) as nat)) as nat
    }
}

/// The number that a finite encoding stands for, in units of 2^-1074.
pub open spec fn value(bits: u64) -> int {
    if bits >= SIGN_BIT {
        -(absolute(bits) as int)
    } else {
        absolute(bits) as int
    }
}

/// Where an encoding stands among the others by its bits alone: its
/// magnitude, counted downwards from zero under a sign bit.
pub open spec fn rank(bits: u64) -> int {
    if bits >= SIGN_BIT {
        -(magnitude(bits) as int)
    } else {
        magnitude(bits) as int
    }
}

/// An encoding with exponent bits `e` stands for less than 2^52 * 2^e units.
proof fn absolute_is_below_next_exponent(bits: u64)
    ensures
        absolute(bits) < FRACTIONS * pow2(exponent(bits)),
{
    let e = exponent(bits);
    let f = fraction(bits);
    if e == 0 {
        assert(pow2(0) == 1) by {
            lemma_pow2_unfold(1);
            vstd::arithmetic::power2::lemma2_to64();
        }
    } else {
        let p = pow2((e - 1) as nat);
        lemma_pow2_unfold(e);
        vstd::arithmetic::power2::lemma_pow2_pos((e - 1) as nat);
        assert((FRACTIONS + f) * p < FRACTIONS * (2 * p)) by (nonlinear_arith)
            requires
                f < FRACTIONS,
                p > 0,
        ;
    }
}

/// An encoding with exponent bits `e` above 0 stands for at least
/// 2^52 * 2^(e - 1) units.
proof fn absolute_is_at_least_its_exponent(bits: u64)
    requires
        exponent(bits) > 0,
    ensures
        absolute(bits) >= FRACTIONS * pow2((exponent(bits) - 1) as nat),
{
    let f = fraction(bits);
    let p = pow2((exponent(bits) - 1) as nat);
    assert((FRACTIONS + f) * p >= FRACTIONS * p) by (nonlinear_arith)
        requires
            f >= 0,
            p >= 0,
    ;
}

/// A larger magnitude stands for a larger absolute value.
pub proof fn absolute_grows_with_magnitude(a: u64, b: u64)
    requires
        magnitude(a) < magnitude(b),
    ensures
        absolute(a) < absolute(b),
{
    let (ea, fa) = (exponent(a), fraction(a));
    let (eb, fb) = (exponent(b), fraction(b));
    if ea == eb {
        if ea > 0 {
            let p = pow2((ea - 1) as nat);
            vstd::arithmetic::power2::lemma_pow2_pos((ea - 1) as nat);
            assert((FRACTIONS + fa) * p < (FRACTIONS + fb) * p) by (nonlinear_arith)
                requires
                    fa < fb,
                    p > 0,
            ;
        }
    } else {
        absolute_is_below_next_exponent(a);
        absolute_is_at_least_its_exponent(b);
        let low = pow2(ea);
        let high = pow2((eb - 1) as nat);
        if ea < eb - 1 {
            lemma_pow2_strictly_increases(ea, (eb - 1) as nat);
        }
        assert(FRACTIONS * low <= FRACTIONS * high) by (nonlinear_arith)
            requires
                low <= high,
        ;
    }
}

/// Comparing two encodings by rank is comparing the numbers they stand for:
/// the rank is below, or equal, exactly when the number is. The two zeros
/// share rank 0.
pub proof fn rank_orders_as_value(a: u64, b: u64)
    ensures
        rank(a) < rank(b) <==> value(a) < value(b),
        rank(a) == rank(b) <==> value(a) == value(b),
{
    let zero: u64 = 0;
    if magnitude(a) > 0 {
        absolute_grows_with_magnitude(zero, a);
    }
    if magnitude(b) > 0 {
        absolute_grows_with_magnitude(zero, b);
    }
    if magnitude(a) < magnitude(b) {
        absolute_grows_with_magnitude(a, b);
    } else if magnitude(b) < magnitude(a) {
        absolute_grows_with_magnitude(b, a);
    } else {
    }
}

/// Tells whether an encoding stands for a number.
pub fn is_finite(bits: u64) -> (r: bool)
    ensures
        r == finite(bits),
{
    bits % SIGN_BIT < INFINITE
}

/// The rank of an encoding.
pub fn rank_of(bits: u64) -> (r: i128)
    ensures
        r == rank(bits),
{
    let m: i128 = (bits % SIGN_BIT) as i128;
    if bits >= SIGN_BIT {
        -m
    } else {
        m
    }
}

impl Window {
    /// All four bounds are numbers, the left one is below the right one, and
    /// the vertical ones differ (in either order).
    pub open spec fn valid(&self) -> bool {
        &&& finite(self.left)
        &&& finite(self.right)
        &&& finite(self.top)
        &&& finite(self.bottom)
        &&& value(self.left) < value(self.right)
        &&& value(self.top) != value(self.bottom)
    }

    /// Accepts a window exactly when it is `valid`.
    pub fn validate(&self) -> (r: Result<(), RenderError>)
        ensures
            r is Ok <==> self.valid(),
            r is Err ==> r == Err::<(), RenderError>(RenderError::InvalidViewport),
    {
        proof {
            rank_orders_as_value(self.left, self.right);
            rank_orders_as_value(self.top, self.bottom);
        }
        if is_finite(self.left) && is_finite(self.right) && is_finite(self.top) && is_finite(
            self.bottom,
        ) && rank_of(self.left) < rank_of(self.right) && rank_of(self.top) != rank_of(
            self.bottom,
        ) {
            Ok(())
        } else {
            Err(RenderError::InvalidViewport)
        }
    }
}

} // verus!
