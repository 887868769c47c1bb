use vstd::prelude::*;

verus! {

/// An exact nonnegative rational number `num / den`.
///
/// The inference runtime reports confidence scores and normalized box
/// coordinates as fractions of one (or of the image's height and width).
/// The library represents such a value exactly, as a numerator over a
/// positive denominator, so that the threshold comparison and the
/// denormalize-and-floor step can be stated and proved precisely.
#[derive(Debug, Clone, Copy, PartialEq, Eq, Structural)]
pub struct Fraction {
    pub num: u64,
    pub den: u64,
}

impl Fraction {
    /// A fraction denotes a value only when its denominator is positive.
    pub open spec fn valid(self) -> bool {
        self.den >= 1
    }

    /// What `gt` decides: the denoted rationals compared by
    /// cross-multiplication, `self.num / self.den > other.num / other.den`.
    pub open spec fn gt_spec(self, other: Fraction) -> bool {
        self.num * other.den > other.num * self.den
    }

    /// The mathematical floor of `self * dim`.
    pub open spec fn scaled_floor(self, dim: u64) -> int {
        self.num * dim / (self.den as int)
    }

    /// What `denormalize` returns: `floor(self * dim)`, saturated at
    /// `u32::MAX` where the product does not fit a pixel coordinate.
    pub open spec fn denormalize_spec(self, dim: u64) -> u32 {
        if self.scaled_floor(dim) > u32::MAX {
            u32::MAX
        } else {
            self.scaled_floor(dim) as u32
        }
    }

    /// Creates a new `Fraction` with the given numerator and denominator.
    pub fn new(num: u64, den: u64) -> (r: Fraction)
        requires
            den >= 1,
        ensures
            r.num == num,
            r.den == den,
            r.valid(),
    {
        Fraction { num, den }
    }

    /// Strict `>` on the denoted rational values.
    pub fn gt(&self, other: &Fraction) -> (r: bool)
        ensures
            r == self.gt_spec(*other),
    {
        proof {
            assert(self.num * other.den <= u64::MAX * u64::MAX
                && other.num * self.den <= u64::MAX * u64::MAX) by (nonlinear_arith)
                requires
                    self.num <= u64::MAX,
                    self.den <= u64::MAX,
                    other.num <= u64::MAX,
                    other.den <= u64::MAX,
            ;
        }
        (self.num as u128) * (other.den as u128) > (other.num as u128) * (self.den as u128)
    }

    /// Scales the fraction by a pixel dimension and floors the result:
    /// the denormalization of one normalized box coordinate.
    pub fn denormalize(&self, dim: u64) -> (r: u32)
        requires
            self.valid(),
        ensures
            r == self.denormalize_spec(dim),
    {
        proof {
            assert(self.num * dim <= u64::MAX * u64::MAX) by (nonlinear_arith)
                requires
                    self.num <= u64::MAX,
                    dim <= u64::MAX,
            ;
        }
        let p: u128 = (self.num as u128) * (dim as u128);
        let q: u128 = p / (self.den as u128);
        if q > (u32::MAX as u128) {
            u32::MAX
        } else {
            q as u32
        }
    }
}

} // verus!
