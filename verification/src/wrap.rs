//! The bundled scalar types: fixed-width integers under wrapping (modular)
//! arithmetic, one per supported width.
//!
//! Each scalar is a single machine integer; addition, subtraction,
//! multiplication and negation are taken modulo the width's range, so every
//! operation is total and the ring identities hold exactly. Division is
//! truncating integer division, made total by defining a zero divisor to
//! yield zero.

use vstd::arithmetic::div_mod::lemma_mod_add_multiples_vanish;
use vstd::arithmetic::div_mod::lemma_mod_multiples_vanish;
use vstd::arithmetic::div_mod::lemma_mod_sub_multiples_vanish;
use vstd::arithmetic::div_mod::lemma_small_mod;
use vstd::arithmetic::div_mod::lemma_sub_mod_noop;
use vstd::prelude::*;

use crate::num::Number;
use crate::num::Real;

verus! {

/// A 32-bit scalar with wrapping arithmetic: values are integers modulo
/// `0x1_0000_0000`.
#[derive(Clone, Copy, Debug, PartialEq, Eq, Structural)]
pub struct W32 {
    /// The representative in `0 .. 0x1_0000_0000`.
    pub v: u32,
}

/// A 64-bit scalar with wrapping arithmetic: values are integers modulo
/// `0x1_0000_0000_0000_0000`.
#[derive(Clone, Copy, Debug, PartialEq, Eq, Structural)]
pub struct W64 {
    /// The representative in `0 .. 0x1_0000_0000_0000_0000`.
    pub v: u64,
}

impl W32 {
    /// Wrap a machine integer as a scalar.
    pub fn new(v: u32) -> (r: Self)
        ensures
            r.v == v,
    {
        W32 { v }
    }
}

impl W64 {
    /// Wrap a machine integer as a scalar.
    pub fn new(v: u64) -> (r: Self)
        ensures
            r.v == v,
    {
        W64 { v }
    }
}

impl Number for W64 {
    open spec fn spec_add(self, rhs: Self) -> Self {
        W64 { v: (((self.v + rhs.v) % 0x1_0000_0000_0000_0000) as u64) }
    }

    open spec fn spec_sub(self, rhs: Self) -> Self {
        W64 { v: (((self.v - rhs.v) % 0x1_0000_0000_0000_0000) as u64) }
    }

    open spec fn spec_mul(self, rhs: Self) -> Self {
        W64 { v: (((self.v * rhs.v) % 0x1_0000_0000_0000_0000) as u64) }
    }

    open spec fn spec_div(self, rhs: Self) -> Self {
        if rhs.v == 0 {
            W64 { v: 0 }
        } else {
            W64 { v: ((self.v / rhs.v) as u64) }
        }
    }

    open spec fn spec_neg(self) -> Self {
        W64 { v: (((0 - self.v) % 0x1_0000_0000_0000_0000) as u64) }
    }

    open spec fn spec_eq(self, rhs: Self) -> bool {
        self.v == rhs.v
    }

    fn add(self, rhs: Self) -> (r: Self) {
        proof {
            if self.v + rhs.v <= u64::MAX {
                lemma_small_mod((self.v + rhs.v) as nat, 0x1_0000_0000_0000_0000 as nat);
            } else {
                lemma_mod_sub_multiples_vanish(self.v + rhs.v, 0x1_0000_0000_0000_0000);
                lemma_small_mod(
                    (self.v + rhs.v - 0x1_0000_0000_0000_0000) as nat,
                    0x1_0000_0000_0000_0000 as nat,
                );
            }
        }
        W64 { v: self.v.wrapping_add(rhs.v) }
    }

    fn sub(self, rhs: Self) -> (r: Self) {
        proof {
            if self.v >= rhs.v {
                lemma_small_mod((self.v - rhs.v) as nat, 0x1_0000_0000_0000_0000 as nat);
            } else {
                lemma_mod_add_multiples_vanish(self.v - rhs.v, 0x1_0000_0000_0000_0000);
                lemma_small_mod(
                    (self.v - rhs.v + 0x1_0000_0000_0000_0000) as nat,
                    0x1_0000_0000_0000_0000 as nat,
                );
            }
        }
        W64 { v: self.v.wrapping_sub(rhs.v) }
    }

    fn mul(self, rhs: Self) -> (r: Self) {
        W64 { v: self.v.wrapping_mul(rhs.v) }
    }

    fn div(self, rhs: Self) -> (r: Self) {
        if rhs.v == 0 {
            W64 { v: 0 }
        } else {
            W64 { v: self.v / rhs.v }
        }
    }

    fn neg(self) -> (r: Self) {
        (W64 { v: 0 }).sub(self)
    }

    fn equals(&self, rhs: &Self) -> (r: bool) {
        self.v == rhs.v
    }
}

impl Real for W64 {
}

impl Number for W32 {
    open spec fn spec_add(self, rhs: Self) -> Self {
        W32 { v: (((self.v + rhs.v) % 0x1_0000_0000) as u32) }
    }

    open spec fn spec_sub(self, rhs: Self) -> Self {
        W32 { v: (((self.v - rhs.v) % 0x1_0000_0000) as u32) }
    }

    open spec fn spec_mul(self, rhs: Self) -> Self {
        W32 { v: (((self.v * rhs.v) % 0x1_0000_0000) as u32) }
    }

    open spec fn spec_div(self, rhs: Self) -> Self {
        if rhs.v == 0 {
            W32 { v: 0 }
        } else {
            W32 { v: ((self.v / rhs.v) as u32) }
        }
    }

    open spec fn spec_neg(self) -> Self {
        W32 { v: (((0 - self.v) % 0x1_0000_0000) as u32) }
    }

    open spec fn spec_eq(self, rhs: Self) -> bool {
        self.v == rhs.v
    }

    fn add(self, rhs: Self) -> (r: Self) {
        proof {
            if self.v + rhs.v <= u32::MAX {
                lemma_small_mod((self.v + rhs.v) as nat, 0x1_0000_0000 as nat);
            } else {
                lemma_mod_sub_multiples_vanish(self.v + rhs.v, 0x1_0000_0000);
                lemma_small_mod((self.v + rhs.v - 0x1_0000_0000) as nat, 0x1_0000_0000 as nat);
            }
        }
        W32 { v: self.v.wrapping_add(rhs.v) }
    }

    fn sub(self, rhs: Self) -> (r: Self) {
        proof {
            if self.v >= rhs.v {
                lemma_small_mod((self.v - rhs.v) as nat, 0x1_0000_0000 as nat);
            } else {
                lemma_mod_add_multiples_vanish(self.v - rhs.v, 0x1_0000_0000);
                lemma_small_mod((self.v - rhs.v + 0x1_0000_0000) as nat, 0x1_0000_0000 as nat);
            }
        }
        W32 { v: self.v.wrapping_sub(rhs.v) }
    }

    fn mul(self, rhs: Self) -> (r: Self) {
        W32 { v: self.v.wrapping_mul(rhs.v) }
    }

    fn div(self, rhs: Self) -> (r: Self) {
        if rhs.v == 0 {
            W32 { v: 0 }
        } else {
            W32 { v: self.v / rhs.v }
        }
    }

    fn neg(self) -> (r: Self) {
        (W32 { v: 0 }).sub(self)
    }

    fn equals(&self, rhs: &Self) -> (r: bool) {
        self.v == rhs.v
    }
}

impl Real for W32 {
}

/// The 64-bit scalar that acts as minus one: adding one to it wraps to zero,
/// and multiplying by it negates.
pub open spec fn w64_negative_one() -> W64 {
    W64 { v: 0xffff_ffff_ffff_ffff }
}

/// The 32-bit scalar that acts as minus one.
pub open spec fn w32_negative_one() -> W32 {
    W32 { v: 0xffff_ffff }
}

/// Negating a 64-bit scalar twice gives the scalar back.
pub proof fn lemma_w64_neg_involution(x: W64)
    ensures
        x.spec_neg().spec_neg() == x,
{
    let m: int = 0x1_0000_0000_0000_0000;
    lemma_small_mod(0, m as nat);
    lemma_small_mod(x.v as nat, m as nat);
    lemma_sub_mod_noop(0, 0 - x.v, m);
}

/// Negating a 32-bit scalar twice gives the scalar back.
pub proof fn lemma_w32_neg_involution(x: W32)
    ensures
        x.spec_neg().spec_neg() == x,
{
    let m: int = 0x1_0000_0000;
    lemma_small_mod(0, m as nat);
    lemma_small_mod(x.v as nat, m as nat);
    lemma_sub_mod_noop(0, 0 - x.v, m);
}

/// Multiplying a 64-bit scalar by [`w64_negative_one`] negates it.
pub proof fn lemma_w64_mul_negative_one(x: W64)
    ensures
        x.spec_mul(w64_negative_one()) == x.spec_neg(),
{
    let m: int = 0x1_0000_0000_0000_0000;
    assert(x.v * (m - 1) == m * (x.v as int) + (0 - x.v)) by (nonlinear_arith);
    lemma_mod_multiples_vanish(x.v as int, 0 - x.v, m);
}

/// Multiplying a 32-bit scalar by [`w32_negative_one`] negates it.
pub proof fn lemma_w32_mul_negative_one(x: W32)
    ensures
        x.spec_mul(w32_negative_one()) == x.spec_neg(),
{
    let m: int = 0x1_0000_0000;
    assert(x.v * (m - 1) == m * (x.v as int) + (0 - x.v)) by (nonlinear_arith);
    lemma_mod_multiples_vanish(x.v as int, 0 - x.v, m);
}

} // verus!
