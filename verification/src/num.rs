//! The numeric capability traits.
//!
//! [`Number`] is the minimal contract a number-like type offers: closure under
//! addition, subtraction, multiplication, division and negation, plus a
//! structural equality test, with value-copy semantics. Each executable
//! operation is pinned to a specification-level counterpart that the
//! implementing type defines, so code written generically over the capability
//! carries exact contracts.
//!
//! [`Real`] refines [`Number`] with no further operations: it is a pure marker
//! separating plain scalars from complex values.
//!
//! [`Complex`] refines [`Number`] with construction from a real and an
//! imaginary part, component accessors (shared and exclusive), and the
//! conjugate, which is derived from construction and scalar negation rather
//! than being a primitive.

use vstd::prelude::*;

verus! {

/// A number: a copyable value closed under the five arithmetic operations,
/// with structural equality.
///
/// Every executable operation returns exactly the value its specification
/// counterpart describes; what that counterpart means is up to the
/// implementing type.
pub trait Number: Sized + Copy {
    /// The value `add` returns.
    spec fn spec_add(self, rhs: Self) -> Self;

    /// The value `sub` returns.
    spec fn spec_sub(self, rhs: Self) -> Self;

    /// The value `mul` returns.
    spec fn spec_mul(self, rhs: Self) -> Self;

    /// The value `div` returns.
    spec fn spec_div(self, rhs: Self) -> Self;

    /// The value `neg` returns.
    spec fn spec_neg(self) -> Self;

    /// Whether two values are equal, component by component.
    spec fn spec_eq(self, rhs: Self) -> bool;

    /// Add `rhs` to `self`.
    fn add(self, rhs: Self) -> (r: Self)
        ensures
            r == self.spec_add(rhs),
    ;

    /// Subtract `rhs` from `self`.
    fn sub(self, rhs: Self) -> (r: Self)
        ensures
            r == self.spec_sub(rhs),
    ;

    /// Multiply `self` by `rhs`.
    fn mul(self, rhs: Self) -> (r: Self)
        ensures
            r == self.spec_mul(rhs),
    ;

    /// Divide `self` by `rhs`. Division is total: what a zero divisor yields
    /// is part of the implementing type's `spec_div`.
    fn div(self, rhs: Self) -> (r: Self)
        ensures
            r == self.spec_div(rhs),
    ;

    /// Negate `self`.
    fn neg(self) -> (r: Self)
        ensures
            r == self.spec_neg(),
    ;

    /// Test `self` and `rhs` for structural equality.
    fn equals(&self, rhs: &Self) -> (r: bool)
        ensures
            r == self.spec_eq(*rhs),
    ;
}

/// A real number: a marker refinement of [`Number`] with no further
/// operations, distinguishing plain scalars from complex values.
pub trait Real: Number {
}

/// A complex number over a real scalar type.
pub trait Complex: Number {
    /// The scalar type of the real and imaginary components.
    type Real: Real;

    /// The real component.
    spec fn spec_re(self) -> Self::Real;

    /// The imaginary component.
    spec fn spec_im(self) -> Self::Real;

    /// Create a complex number from a real and an imaginary part.
    fn new(re: Self::Real, im: Self::Real) -> (r: Self)
        ensures
            r.spec_re() == re,
            r.spec_im() == im,
    ;

    /// Return the real part.
    fn re(&self) -> (r: Self::Real)
        ensures
            r == self.spec_re(),
    ;

    /// Return the imaginary part.
    fn im(&self) -> (r: Self::Real)
        ensures
            r == self.spec_im(),
    ;

    /// Return the real part as a mutable reference: writing through the
    /// reference changes the real component and leaves the imaginary
    /// component untouched.
    fn re_mut(&mut self) -> (r: &mut Self::Real)
        ensures
            *r == old(self).spec_re(),
            final(self).spec_re() == *final(r),
            final(self).spec_im() == old(self).spec_im(),
    ;

    /// Return the imaginary part as a mutable reference: writing through the
    /// reference changes the imaginary component and leaves the real
    /// component untouched.
    fn im_mut(&mut self) -> (r: &mut Self::Real)
        ensures
            *r == old(self).spec_im(),
            final(self).spec_im() == *final(r),
            final(self).spec_re() == old(self).spec_re(),
    ;

    /// Compute the complex conjugate: the real part unchanged, the imaginary
    /// part negated. Derived from construction and scalar negation.
    fn conj(&self) -> (r: Self)
        ensures
            r.spec_re() == self.spec_re(),
            r.spec_im() == self.spec_im().spec_neg(),
    {
        Self::new(self.re(), self.im().neg())
    }
}

} // verus!
