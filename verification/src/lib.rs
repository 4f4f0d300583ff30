//! Complex numbers in Cartesian form, written once against a small numeric
//! capability and instantiated for concrete scalar widths.
//!
//! The crate is organised as follows:
//!
//! - [`num`] holds the capability traits: [`Number`] for anything closed under
//!   the five arithmetic operations, [`Real`] as the marker refinement for
//!   plain scalars, and [`Complex`] for values built from a real and an
//!   imaginary part.
//! - [`pair`] holds [`ComplexPair`], the one generic value type: two scalar
//!   components of the same width, with the full complex operator set and the
//!   mixed operations against a bare real scalar in both orderings.
//! - [`wrap`] holds the bundled scalars, [`W32`] and [`W64`]: fixed-width
//!   integers under wrapping (modular) arithmetic, one per supported width.
//! - [`laws`] states and proves the algebraic identities the arithmetic
//!   satisfies, and offers the difference-of-squares evaluators written once
//!   over the capability.

pub mod laws;
pub mod num;
pub mod pair;
pub mod wrap;

pub use num::Complex;
pub use num::Number;
pub use num::Real;
pub use pair::ComplexPair;
pub use wrap::W32;
pub use wrap::W64;
