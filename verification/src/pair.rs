//! The generic complex value type.
//!
//! [`ComplexPair`] is a pair of scalar components, real and imaginary, over
//! any [`Real`] scalar. The arithmetic is written once against the scalar
//! capability; each operation's contract pins both components of the result
//! to the textbook formula, stated over the scalar's specification-level
//! operations.

use vstd::prelude::*;

use crate::num::Complex;
use crate::num::Number;
use crate::num::Real;

verus! {

/// A complex number: a real and an imaginary component of the same scalar
/// type, laid out as two consecutive scalars.
#[derive(Clone, Copy, Debug, PartialEq, Eq, Structural)]
pub struct ComplexPair<T> {
    /// The real component.
    pub re: T,
    /// The imaginary component.
    pub im: T,
}

impl<T: Real> Number for ComplexPair<T> {
    /// Componentwise addition.
    open spec fn spec_add(self, rhs: Self) -> Self {
        ComplexPair { re: self.re.spec_add(rhs.re), im: self.im.spec_add(rhs.im) }
    }

    /// Componentwise subtraction.
    open spec fn spec_sub(self, rhs: Self) -> Self {
        ComplexPair { re: self.re.spec_sub(rhs.re), im: self.im.spec_sub(rhs.im) }
    }

    /// The standard complex product:
    /// `(re1*re2 - im1*im2, im1*re2 + re1*im2)`.
    open spec fn spec_mul(self, rhs: Self) -> Self {
        ComplexPair {
            re: self.re.spec_mul(rhs.re).spec_sub(self.im.spec_mul(rhs.im)),
            im: self.im.spec_mul(rhs.re).spec_add(self.re.spec_mul(rhs.im)),
        }
    }

    /// The standard complex quotient: with `d = re2*re2 + im2*im2`,
    /// `((re1*re2 + im1*im2)/d, (im1*re2 - re1*im2)/d)`. What a zero `d`
    /// yields follows the scalar's own division.
    open spec fn spec_div(self, rhs: Self) -> Self {
        let d = rhs.re.spec_mul(rhs.re).spec_add(rhs.im.spec_mul(rhs.im));
        ComplexPair {
            re: self.re.spec_mul(rhs.re).spec_add(self.im.spec_mul(rhs.im)).spec_div(d),
            im: self.im.spec_mul(rhs.re).spec_sub(self.re.spec_mul(rhs.im)).spec_div(d),
        }
    }

    /// Componentwise negation.
    open spec fn spec_neg(self) -> Self {
        ComplexPair { re: self.re.spec_neg(), im: self.im.spec_neg() }
    }

    /// Equality holds exactly when both components are equal under the
    /// scalar's equality.
    open spec fn spec_eq(self, rhs: Self) -> bool {
        self.re.spec_eq(rhs.re) && self.im.spec_eq(rhs.im)
    }

    fn add(self, rhs: Self) -> (r: Self) {
        ComplexPair { re: self.re.add(rhs.re), im: self.im.add(rhs.im) }
    }

    fn sub(self, rhs: Self) -> (r: Self) {
        ComplexPair { re: self.re.sub(rhs.re), im: self.im.sub(rhs.im) }
    }

    fn mul(self, rhs: Self) -> (r: Self) {
        ComplexPair {
            re: self.re.mul(rhs.re).sub(self.im.mul(rhs.im)),
            im: self.im.mul(rhs.re).add(self.re.mul(rhs.im)),
        }
    }

    fn div(self, rhs: Self) -> (r: Self) {
        let d = rhs.re.mul(rhs.re).add(rhs.im.mul(rhs.im));
        ComplexPair {
            re: self.re.mul(rhs.re).add(self.im.mul(rhs.im)).div(d),
            im: self.im.mul(rhs.re).sub(self.re.mul(rhs.im)).div(d),
        }
    }

    fn neg(self) -> (r: Self) {
        ComplexPair { re: self.re.neg(), im: self.im.neg() }
    }

    fn equals(&self, rhs: &Self) -> (r: bool) {
        self.re.equals(&rhs.re) && self.im.equals(&rhs.im)
    }
}

impl<T: Real> Complex for ComplexPair<T> {
    type Real = T;

    open spec fn spec_re(self) -> T {
        self.re
    }

    open spec fn spec_im(self) -> T {
        self.im
    }

    fn new(re: T, im: T) -> (r: Self) {
        ComplexPair { re, im }
    }

    fn re(&self) -> (r: T) {
        self.re
    }

    fn im(&self) -> (r: T) {
        self.im
    }

    fn re_mut(&mut self) -> (r: &mut T) {
        &mut self.re
    }

    fn im_mut(&mut self) -> (r: &mut T) {
        &mut self.im
    }
}

impl<T: Real> ComplexPair<T> {
    /// The value `add_real` returns: the scalar is added to the real
    /// component only.
    pub open spec fn spec_add_real(self, rhs: T) -> Self {
        ComplexPair { re: self.re.spec_add(rhs), im: self.im }
    }

    /// The value `real_add` returns: the scalar, as the left operand, is
    /// added to the real component only.
    pub open spec fn spec_real_add(lhs: T, rhs: Self) -> Self {
        ComplexPair { re: lhs.spec_add(rhs.re), im: rhs.im }
    }

    /// The value `sub_real` returns: the scalar is subtracted from the real
    /// component only.
    pub open spec fn spec_sub_real(self, rhs: T) -> Self {
        ComplexPair { re: self.re.spec_sub(rhs), im: self.im }
    }

    /// The value `real_sub` returns: the real component is subtracted from
    /// the scalar, and the sign of the imaginary component flips.
    pub open spec fn spec_real_sub(lhs: T, rhs: Self) -> Self {
        ComplexPair { re: lhs.spec_sub(rhs.re), im: rhs.im.spec_neg() }
    }

    /// The value `mul_real` returns: both components are scaled.
    pub open spec fn spec_mul_real(self, rhs: T) -> Self {
        ComplexPair { re: self.re.spec_mul(rhs), im: self.im.spec_mul(rhs) }
    }

    /// The value `real_mul` returns: both components are scaled, with the
    /// scalar as the left factor.
    pub open spec fn spec_real_mul(lhs: T, rhs: Self) -> Self {
        ComplexPair { re: lhs.spec_mul(rhs.re), im: lhs.spec_mul(rhs.im) }
    }

    /// The value `div_real` returns: both components are divided by the
    /// scalar.
    pub open spec fn spec_div_real(self, rhs: T) -> Self {
        ComplexPair { re: self.re.spec_div(rhs), im: self.im.spec_div(rhs) }
    }

    /// The value `real_div` returns: with `d = re2*re2 + im2*im2`,
    /// `((lhs*re2)/d, ((-lhs)*im2)/d)`.
    pub open spec fn spec_real_div(lhs: T, rhs: Self) -> Self {
        let d = rhs.re.spec_mul(rhs.re).spec_add(rhs.im.spec_mul(rhs.im));
        ComplexPair {
            re: lhs.spec_mul(rhs.re).spec_div(d),
            im: lhs.spec_neg().spec_mul(rhs.im).spec_div(d),
        }
    }

    /// The spec-level conjugate: the real part unchanged, the imaginary part
    /// negated.
    pub open spec fn spec_conj(self) -> Self {
        ComplexPair { re: self.re, im: self.im.spec_neg() }
    }

    /// Add a real scalar: it lands on the real component only.
    pub fn add_real(self, rhs: T) -> (r: Self)
        ensures
            r == self.spec_add_real(rhs),
    {
        ComplexPair { re: self.re.add(rhs), im: self.im }
    }

    /// Add a complex value to a real scalar, the scalar being the left
    /// operand.
    pub fn real_add(lhs: T, rhs: Self) -> (r: Self)
        ensures
            r == Self::spec_real_add(lhs, rhs),
    {
        ComplexPair { re: lhs.add(rhs.re), im: rhs.im }
    }

    /// Subtract a real scalar: it comes off the real component only.
    pub fn sub_real(self, rhs: T) -> (r: Self)
        ensures
            r == self.spec_sub_real(rhs),
    {
        ComplexPair { re: self.re.sub(rhs), im: self.im }
    }

    /// Subtract a complex value from a real scalar: the sign of the imaginary
    /// component flips.
    pub fn real_sub(lhs: T, rhs: Self) -> (r: Self)
        ensures
            r == Self::spec_real_sub(lhs, rhs),
    {
        ComplexPair { re: lhs.sub(rhs.re), im: rhs.im.neg() }
    }

    /// Multiply by a real scalar: both components are scaled.
    pub fn mul_real(self, rhs: T) -> (r: Self)
        ensures
            r == self.spec_mul_real(rhs),
    {
        ComplexPair { re: self.re.mul(rhs), im: self.im.mul(rhs) }
    }

    /// Multiply a complex value by a real scalar on the left: both components
    /// are scaled.
    pub fn real_mul(lhs: T, rhs: Self) -> (r: Self)
        ensures
            r == Self::spec_real_mul(lhs, rhs),
    {
        ComplexPair { re: lhs.mul(rhs.re), im: lhs.mul(rhs.im) }
    }

    /// Divide by a real scalar: both components are divided.
    pub fn div_real(self, rhs: T) -> (r: Self)
        ensures
            r == self.spec_div_real(rhs),
    {
        ComplexPair { re: self.re.div(rhs), im: self.im.div(rhs) }
    }

    /// Divide a real scalar by a complex value.
    pub fn real_div(lhs: T, rhs: Self) -> (r: Self)
        ensures
            r == Self::spec_real_div(lhs, rhs),
    {
        let d = rhs.re.mul(rhs.re).add(rhs.im.mul(rhs.im));
        ComplexPair { re: lhs.mul(rhs.re).div(d), im: lhs.neg().mul(rhs.im).div(d) }
    }
}

} // verus!
