//! Algebraic laws of the complex arithmetic, and generic evaluators.
//!
//! The evaluators compute the difference-of-squares expression
//! `(a + b) * (a - b) / c`, and its expanded form `(a * a - b * b) / c`, once
//! over the [`Number`] capability, for single values and element by element
//! over sequences.
//!
//! The laws come in two layers. The generic layer states each law under the
//! scalar-level facts it rests on: the difference-of-squares identity over
//! any scalar satisfying [`scalar_ring_facts`], and the conjugation and
//! negation laws for [`ComplexPair`] over any [`Real`] scalar whose negation
//! behaves as hypothesised. The concrete layer discharges those facts for the
//! bundled scalars, so every law holds of [`W32`] and [`W64`] values with no
//! hypothesis at all.

use vstd::arithmetic::div_mod::lemma_add_mod_noop;
use vstd::arithmetic::div_mod::lemma_add_mod_noop_right;
use vstd::arithmetic::div_mod::lemma_mod_bound;
use vstd::arithmetic::div_mod::lemma_mul_mod_noop_right;
use vstd::arithmetic::div_mod::lemma_small_mod;
use vstd::arithmetic::div_mod::lemma_sub_mod_noop_right;
use vstd::calc;
use vstd::prelude::*;

use crate::num::Number;
use crate::num::Real;
use crate::pair::ComplexPair;
use crate::wrap::lemma_w32_mul_negative_one;
use crate::wrap::lemma_w32_neg_involution;
use crate::wrap::lemma_w64_mul_negative_one;
use crate::wrap::lemma_w64_neg_involution;
use crate::wrap::w32_negative_one;
use crate::wrap::w64_negative_one;
use crate::wrap::W32;
use crate::wrap::W64;

verus! {

/// Evaluate `(a + b) * (a - b) / c` over any number-like type.
pub fn diff_of_squares_quotient<N: Number>(a: N, b: N, c: N) -> (r: N)
    ensures
        r == a.spec_add(b).spec_mul(a.spec_sub(b)).spec_div(c),
{
    a.add(b).mul(a.sub(b)).div(c)
}

/// Evaluate `(a * a - b * b) / c` over any number-like type.
pub fn squares_difference_quotient<N: Number>(a: N, b: N, c: N) -> (r: N)
    ensures
        r == a.spec_mul(a).spec_sub(b.spec_mul(b)).spec_div(c),
{
    a.mul(a).sub(b.mul(b)).div(c)
}

/// Evaluate `(a + b) * (a - b) / c` element by element over three sequences
/// of the same length.
pub fn diff_of_squares_quotient_elementwise<N: Number>(a: &Vec<N>, b: &Vec<N>, c: &Vec<N>) -> (r:
    Vec<N>)
    requires
        a@.len() == b@.len(),
        a@.len() == c@.len(),
    ensures
        r@.len() == a@.len(),
        forall|i: int|
            0 <= i < a@.len() ==> r@[i] == a@[i].spec_add(b@[i]).spec_mul(
                a@[i].spec_sub(b@[i]),
            ).spec_div(c@[i]),
{
    let mut r: Vec<N> = Vec::new();
    let mut k: usize = 0;
    while k < a.len()
        invariant
            a@.len() == b@.len(),
            a@.len() == c@.len(),
            k <= a@.len(),
            r@.len() == k as int,
            forall|i: int|
                0 <= i < k as int ==> r@[i] == a@[i].spec_add(b@[i]).spec_mul(
                    a@[i].spec_sub(b@[i]),
                ).spec_div(c@[i]),
        decreases a@.len() - k,
    {
        let x = diff_of_squares_quotient(a[k], b[k], c[k]);
        r.push(x);
        k = k + 1;
    }
    r
}

/// The scalar facts the generic difference-of-squares law rests on:
/// addition is commutative and associative and cancels against negation,
/// multiplication is commutative and distributes over addition and slides
/// past negation, and subtraction is addition of the negation.
#[verifier::opaque]
pub open spec fn scalar_ring_facts<T: Number>() -> bool {
    &&& forall|x: T, y: T| #[trigger] x.spec_add(y) == y.spec_add(x)
    &&& forall|x: T, y: T, z: T|
        #[trigger] x.spec_add(y).spec_add(z) == x.spec_add(y.spec_add(z))
    &&& forall|x: T, y: T| #[trigger] x.spec_mul(y) == y.spec_mul(x)
    &&& forall|x: T, y: T, z: T|
        #[trigger] x.spec_mul(y.spec_add(z)) == x.spec_mul(y).spec_add(x.spec_mul(z))
    &&& forall|x: T, y: T| #[trigger] x.spec_sub(y) == x.spec_add(y.spec_neg())
    &&& forall|x: T, y: T| #[trigger] x.spec_mul(y.spec_neg()) == x.spec_mul(y).spec_neg()
    &&& forall|x: T, y: T|
        #[trigger] x.spec_add(y).spec_neg() == x.spec_neg().spec_add(y.spec_neg())
    &&& forall|x: T, y: T| #[trigger] x.spec_add(y).spec_add(y.spec_neg()) == x
}

/// One distributivity step: `a * (b + c) == a * b + a * c`.
proof fn lemma_facts_distrib<T: Number>(a: T, b: T, c: T)
    requires
        scalar_ring_facts::<T>(),
    ensures
        a.spec_mul(b.spec_add(c)) == a.spec_mul(b).spec_add(a.spec_mul(c)),
{
    reveal(scalar_ring_facts);
}

/// Multiplying a sum by its first summand: `(a + b) * a == a * a + a * b`.
proof fn lemma_facts_mul_sum_by_first<T: Number>(a: T, b: T)
    requires
        scalar_ring_facts::<T>(),
    ensures
        a.spec_add(b).spec_mul(a) == a.spec_mul(a).spec_add(a.spec_mul(b)),
{
    reveal(scalar_ring_facts);
    assert(a.spec_add(b).spec_mul(a) == a.spec_mul(a.spec_add(b)));
    assert(a.spec_mul(a.spec_add(b)) == a.spec_mul(a).spec_add(a.spec_mul(b)));
}

/// Multiplying a sum by the negation of its second summand:
/// `(a + b) * (-b) == -(a * b) + -(b * b)`.
proof fn lemma_facts_mul_sum_by_neg_second<T: Number>(a: T, b: T)
    requires
        scalar_ring_facts::<T>(),
    ensures
        a.spec_add(b).spec_mul(b.spec_neg()) == a.spec_mul(b).spec_neg().spec_add(
            b.spec_mul(b).spec_neg(),
        ),
{
    reveal(scalar_ring_facts);
    assert(a.spec_add(b).spec_mul(b.spec_neg()) == a.spec_add(b).spec_mul(b).spec_neg());
    assert(a.spec_add(b).spec_mul(b) == b.spec_mul(a.spec_add(b)));
    assert(b.spec_mul(a.spec_add(b)) == b.spec_mul(a).spec_add(b.spec_mul(b)));
    assert(b.spec_mul(a) == a.spec_mul(b));
    assert(a.spec_mul(b).spec_add(b.spec_mul(b)).spec_neg() == a.spec_mul(b).spec_neg().spec_add(
        b.spec_mul(b).spec_neg(),
    ));
}

/// Regrouping and cancelling: `(p + q) + (-q + r) == p + r`.
proof fn lemma_facts_add_then_cancel<T: Number>(p: T, q: T, r: T)
    requires
        scalar_ring_facts::<T>(),
    ensures
        p.spec_add(q).spec_add(q.spec_neg().spec_add(r)) == p.spec_add(r),
{
    reveal(scalar_ring_facts);
    assert(p.spec_add(q).spec_add(q.spec_neg()) == p);
    assert(p.spec_add(q).spec_add(q.spec_neg()).spec_add(r) == p.spec_add(q).spec_add(
        q.spec_neg().spec_add(r),
    ));
}

/// Subtraction is addition of the negation.
proof fn lemma_facts_sub_is_add_neg<T: Number>(a: T, b: T)
    requires
        scalar_ring_facts::<T>(),
    ensures
        a.spec_sub(b) == a.spec_add(b.spec_neg()),
{
    reveal(scalar_ring_facts);
}

/// Adding and then subtracting a scalar cancels.
proof fn lemma_facts_cancel<T: Number>(a: T, b: T)
    requires
        scalar_ring_facts::<T>(),
    ensures
        a.spec_add(b).spec_add(b.spec_neg()) == a,
{
    reveal(scalar_ring_facts);
}

/// Interchanging summands across two sums:
/// `(p + q) + (r + s) == (p + r) + (q + s)`.
proof fn lemma_facts_add_interchange<T: Number>(p: T, q: T, r: T, s: T)
    requires
        scalar_ring_facts::<T>(),
    ensures
        p.spec_add(q).spec_add(r.spec_add(s)) == p.spec_add(r).spec_add(q.spec_add(s)),
{
    reveal(scalar_ring_facts);
    assert(p.spec_add(q).spec_add(r.spec_add(s)) == p.spec_add(q.spec_add(r.spec_add(s))));
    assert(q.spec_add(r.spec_add(s)) == q.spec_add(r).spec_add(s));
    assert(q.spec_add(r) == r.spec_add(q));
    assert(r.spec_add(q).spec_add(s) == r.spec_add(q.spec_add(s)));
    assert(p.spec_add(r.spec_add(q.spec_add(s))) == p.spec_add(r).spec_add(q.spec_add(s)));
}

/// Interchanging summands across a difference of two sums:
/// `(p + q) - (r + s) == (p - r) + (q - s)`.
proof fn lemma_facts_sub_interchange<T: Number>(p: T, q: T, r: T, s: T)
    requires
        scalar_ring_facts::<T>(),
    ensures
        p.spec_add(q).spec_sub(r.spec_add(s)) == p.spec_sub(r).spec_add(q.spec_sub(s)),
{
    lemma_facts_add_interchange(p, q, r.spec_neg(), s.spec_neg());
    reveal(scalar_ring_facts);
    assert(p.spec_add(q).spec_sub(r.spec_add(s)) == p.spec_add(q).spec_add(
        r.spec_add(s).spec_neg(),
    ));
    assert(r.spec_add(s).spec_neg() == r.spec_neg().spec_add(s.spec_neg()));
    assert(p.spec_sub(r) == p.spec_add(r.spec_neg()));
    assert(q.spec_sub(s) == q.spec_add(s.spec_neg()));
}

/// Negation distributes over subtraction: `-(p - q) == -p - -q`.
proof fn lemma_facts_neg_sub<T: Number>(p: T, q: T)
    requires
        scalar_ring_facts::<T>(),
    ensures
        p.spec_sub(q).spec_neg() == p.spec_neg().spec_sub(q.spec_neg()),
{
    reveal(scalar_ring_facts);
    assert(p.spec_sub(q) == p.spec_add(q.spec_neg()));
    assert(p.spec_add(q.spec_neg()).spec_neg() == p.spec_neg().spec_add(
        q.spec_neg().spec_neg(),
    ));
    assert(p.spec_neg().spec_sub(q.spec_neg()) == p.spec_neg().spec_add(
        q.spec_neg().spec_neg(),
    ));
}

/// The difference-of-squares identity over any scalar satisfying
/// [`scalar_ring_facts`]: `(x + y) * (x - y) == x * x - y * y`.
pub proof fn lemma_diff_of_squares_numerator<T: Number>(x: T, y: T)
    requires
        scalar_ring_facts::<T>(),
    ensures
        x.spec_add(y).spec_mul(x.spec_sub(y)) == x.spec_mul(x).spec_sub(y.spec_mul(y)),
{
    let s = x.spec_add(y);
    let xx = x.spec_mul(x);
    let xy = x.spec_mul(y);
    let yy = y.spec_mul(y);
    calc! {
        (==)
        s.spec_mul(x.spec_sub(y)); {
            lemma_facts_sub_is_add_neg(x, y);
        }
        s.spec_mul(x.spec_add(y.spec_neg())); {
            lemma_facts_distrib(s, x, y.spec_neg());
        }
        s.spec_mul(x).spec_add(s.spec_mul(y.spec_neg())); {
            lemma_facts_mul_sum_by_first(x, y);
            lemma_facts_mul_sum_by_neg_second(x, y);
        }
        xx.spec_add(xy).spec_add(xy.spec_neg().spec_add(yy.spec_neg())); {
            lemma_facts_add_then_cancel(xx, xy, yy.spec_neg());
        }
        xx.spec_add(yy.spec_neg()); {
            lemma_facts_sub_is_add_neg(xx, yy);
        }
        xx.spec_sub(yy);
    }
}

/// The difference-of-squares identity over any scalar satisfying
/// [`scalar_ring_facts`], divided through by any third scalar:
/// `(x + y) * (x - y) / z == (x * x - y * y) / z`.
pub proof fn lemma_diff_of_squares<T: Number>(x: T, y: T, z: T)
    requires
        scalar_ring_facts::<T>(),
    ensures
        x.spec_add(y).spec_mul(x.spec_sub(y)).spec_div(z) == x.spec_mul(x).spec_sub(
            y.spec_mul(y),
        ).spec_div(z),
{
    lemma_diff_of_squares_numerator(x, y);
}

/// Pairs add commutatively when the scalar does.
proof fn lemma_pair_add_comm<T: Real>(x: ComplexPair<T>, y: ComplexPair<T>)
    requires
        scalar_ring_facts::<T>(),
    ensures
        x.spec_add(y) == y.spec_add(x),
{
    reveal(scalar_ring_facts);
    assert(x.re.spec_add(y.re) == y.re.spec_add(x.re));
    assert(x.im.spec_add(y.im) == y.im.spec_add(x.im));
}

/// Pairs add associatively when the scalar does.
proof fn lemma_pair_add_assoc<T: Real>(x: ComplexPair<T>, y: ComplexPair<T>, z: ComplexPair<T>)
    requires
        scalar_ring_facts::<T>(),
    ensures
        x.spec_add(y).spec_add(z) == x.spec_add(y.spec_add(z)),
{
    reveal(scalar_ring_facts);
    assert(x.re.spec_add(y.re).spec_add(z.re) == x.re.spec_add(y.re.spec_add(z.re)));
    assert(x.im.spec_add(y.im).spec_add(z.im) == x.im.spec_add(y.im.spec_add(z.im)));
}

/// Pairs multiply commutatively when the scalar does.
proof fn lemma_pair_mul_comm<T: Real>(x: ComplexPair<T>, y: ComplexPair<T>)
    requires
        scalar_ring_facts::<T>(),
    ensures
        x.spec_mul(y) == y.spec_mul(x),
{
    reveal(scalar_ring_facts);
    assert(x.re.spec_mul(y.re) == y.re.spec_mul(x.re));
    assert(x.im.spec_mul(y.im) == y.im.spec_mul(x.im));
    assert(x.im.spec_mul(y.re) == y.re.spec_mul(x.im));
    assert(x.re.spec_mul(y.im) == y.im.spec_mul(x.re));
    assert(y.im.spec_mul(x.re).spec_add(y.re.spec_mul(x.im)) == y.re.spec_mul(x.im).spec_add(
        y.im.spec_mul(x.re),
    ));
}

/// Pair multiplication distributes over pair addition when the scalar's
/// operations satisfy the ring facts.
proof fn lemma_pair_mul_distributes<T: Real>(
    x: ComplexPair<T>,
    y: ComplexPair<T>,
    z: ComplexPair<T>,
)
    requires
        scalar_ring_facts::<T>(),
    ensures
        x.spec_mul(y.spec_add(z)) == x.spec_mul(y).spec_add(x.spec_mul(z)),
{
    lemma_facts_sub_interchange(
        x.re.spec_mul(y.re),
        x.re.spec_mul(z.re),
        x.im.spec_mul(y.im),
        x.im.spec_mul(z.im),
    );
    lemma_facts_add_interchange(
        x.im.spec_mul(y.re),
        x.im.spec_mul(z.re),
        x.re.spec_mul(y.im),
        x.re.spec_mul(z.im),
    );
    reveal(scalar_ring_facts);
    assert(x.re.spec_mul(y.re.spec_add(z.re)) == x.re.spec_mul(y.re).spec_add(
        x.re.spec_mul(z.re),
    ));
    assert(x.im.spec_mul(y.im.spec_add(z.im)) == x.im.spec_mul(y.im).spec_add(
        x.im.spec_mul(z.im),
    ));
    assert(x.im.spec_mul(y.re.spec_add(z.re)) == x.im.spec_mul(y.re).spec_add(
        x.im.spec_mul(z.re),
    ));
    assert(x.re.spec_mul(y.im.spec_add(z.im)) == x.re.spec_mul(y.im).spec_add(
        x.re.spec_mul(z.im),
    ));
}

/// Pair subtraction is pair addition of the negation when the scalar's is.
proof fn lemma_pair_sub_is_add_neg<T: Real>(x: ComplexPair<T>, y: ComplexPair<T>)
    requires
        scalar_ring_facts::<T>(),
    ensures
        x.spec_sub(y) == x.spec_add(y.spec_neg()),
{
    reveal(scalar_ring_facts);
    assert(x.re.spec_sub(y.re) == x.re.spec_add(y.re.spec_neg()));
    assert(x.im.spec_sub(y.im) == x.im.spec_add(y.im.spec_neg()));
}

/// Pair multiplication slides past pair negation when the scalar's does.
proof fn lemma_pair_mul_neg<T: Real>(x: ComplexPair<T>, y: ComplexPair<T>)
    requires
        scalar_ring_facts::<T>(),
    ensures
        x.spec_mul(y.spec_neg()) == x.spec_mul(y).spec_neg(),
{
    lemma_facts_neg_sub(x.re.spec_mul(y.re), x.im.spec_mul(y.im));
    reveal(scalar_ring_facts);
    assert(x.re.spec_mul(y.re.spec_neg()) == x.re.spec_mul(y.re).spec_neg());
    assert(x.im.spec_mul(y.im.spec_neg()) == x.im.spec_mul(y.im).spec_neg());
    assert(x.im.spec_mul(y.re.spec_neg()) == x.im.spec_mul(y.re).spec_neg());
    assert(x.re.spec_mul(y.im.spec_neg()) == x.re.spec_mul(y.im).spec_neg());
    assert(x.im.spec_mul(y.re).spec_add(x.re.spec_mul(y.im)).spec_neg() == x.im.spec_mul(
        y.re,
    ).spec_neg().spec_add(x.re.spec_mul(y.im).spec_neg()));
}

/// Pair negation distributes over pair addition when the scalar's does.
proof fn lemma_pair_neg_add<T: Real>(x: ComplexPair<T>, y: ComplexPair<T>)
    requires
        scalar_ring_facts::<T>(),
    ensures
        x.spec_add(y).spec_neg() == x.spec_neg().spec_add(y.spec_neg()),
{
    reveal(scalar_ring_facts);
    assert(x.re.spec_add(y.re).spec_neg() == x.re.spec_neg().spec_add(y.re.spec_neg()));
    assert(x.im.spec_add(y.im).spec_neg() == x.im.spec_neg().spec_add(y.im.spec_neg()));
}

/// Adding and then subtracting a pair cancels when the scalar's addition
/// cancels against its negation.
proof fn lemma_pair_add_cancels<T: Real>(x: ComplexPair<T>, y: ComplexPair<T>)
    requires
        scalar_ring_facts::<T>(),
    ensures
        x.spec_add(y).spec_add(y.spec_neg()) == x,
{
    lemma_facts_cancel(x.re, y.re);
    lemma_facts_cancel(x.im, y.im);
}

/// Pairs over any scalar satisfying [`scalar_ring_facts`] satisfy the same
/// facts themselves: complex numbers over a commutative ring form a
/// commutative ring, in the fragment the laws need.
pub proof fn lemma_pair_ring_facts<T: Real>()
    requires
        scalar_ring_facts::<T>(),
    ensures
        scalar_ring_facts::<ComplexPair<T>>(),
{
    reveal(scalar_ring_facts);
    assert forall|x: ComplexPair<T>, y: ComplexPair<T>| #[trigger]
        x.spec_add(y) == y.spec_add(x) by {
        lemma_pair_add_comm(x, y);
    }
    assert forall|x: ComplexPair<T>, y: ComplexPair<T>, z: ComplexPair<T>| #[trigger]
        x.spec_add(y).spec_add(z) == x.spec_add(y.spec_add(z)) by {
        lemma_pair_add_assoc(x, y, z);
    }
    assert forall|x: ComplexPair<T>, y: ComplexPair<T>| #[trigger]
        x.spec_mul(y) == y.spec_mul(x) by {
        lemma_pair_mul_comm(x, y);
    }
    assert forall|x: ComplexPair<T>, y: ComplexPair<T>, z: ComplexPair<T>| #[trigger]
        x.spec_mul(y.spec_add(z)) == x.spec_mul(y).spec_add(x.spec_mul(z)) by {
        lemma_pair_mul_distributes(x, y, z);
    }
    assert forall|x: ComplexPair<T>, y: ComplexPair<T>| #[trigger]
        x.spec_sub(y) == x.spec_add(y.spec_neg()) by {
        lemma_pair_sub_is_add_neg(x, y);
    }
    assert forall|x: ComplexPair<T>, y: ComplexPair<T>| #[trigger]
        x.spec_mul(y.spec_neg()) == x.spec_mul(y).spec_neg() by {
        lemma_pair_mul_neg(x, y);
    }
    assert forall|x: ComplexPair<T>, y: ComplexPair<T>| #[trigger]
        x.spec_add(y).spec_neg() == x.spec_neg().spec_add(y.spec_neg()) by {
        lemma_pair_neg_add(x, y);
    }
    assert forall|x: ComplexPair<T>, y: ComplexPair<T>| #[trigger]
        x.spec_add(y).spec_add(y.spec_neg()) == x by {
        lemma_pair_add_cancels(x, y);
    }
}

/// Conjugation is its own inverse over any scalar whose negation is an
/// involution.
pub proof fn lemma_conj_involution<T: Real>(c: ComplexPair<T>)
    requires
        forall|x: T| #[trigger] x.spec_neg().spec_neg() == x,
    ensures
        c.spec_conj().spec_conj() == c,
{
    assert(c.im.spec_neg().spec_neg() == c.im);
}

/// Negating a complex value is the same as multiplying it by a real scalar
/// that negates every scalar it multiplies.
pub proof fn lemma_neg_is_mul_real_negation<T: Real>(c: ComplexPair<T>, m1: T)
    requires
        forall|x: T| #[trigger] x.spec_mul(m1) == x.spec_neg(),
    ensures
        c.spec_neg() == c.spec_mul_real(m1),
{
    assert(c.re.spec_mul(m1) == c.re.spec_neg());
    assert(c.im.spec_mul(m1) == c.im.spec_neg());
}

/// Conjugation of a 64-bit pair is its own inverse.
pub proof fn lemma_w64_conj_involution(c: ComplexPair<W64>)
    ensures
        c.spec_conj().spec_conj() == c,
{
    lemma_w64_neg_involution(c.im);
}

/// Conjugation of a 32-bit pair is its own inverse.
pub proof fn lemma_w32_conj_involution(c: ComplexPair<W32>)
    ensures
        c.spec_conj().spec_conj() == c,
{
    lemma_w32_neg_involution(c.im);
}

/// Negating a 64-bit pair is multiplication by the real scalar minus one.
pub proof fn lemma_w64_neg_is_mul_negative_one(c: ComplexPair<W64>)
    ensures
        c.spec_neg() == c.spec_mul_real(w64_negative_one()),
{
    lemma_w64_mul_negative_one(c.re);
    lemma_w64_mul_negative_one(c.im);
}

/// Negating a 32-bit pair is multiplication by the real scalar minus one.
pub proof fn lemma_w32_neg_is_mul_negative_one(c: ComplexPair<W32>)
    ensures
        c.spec_neg() == c.spec_mul_real(w32_negative_one()),
{
    lemma_w32_mul_negative_one(c.re);
    lemma_w32_mul_negative_one(c.im);
}

/// Addition of 64-bit scalars is associative.
proof fn lemma_w64_add_assoc(x: W64, y: W64, z: W64)
    ensures
        x.spec_add(y).spec_add(z) == x.spec_add(y.spec_add(z)),
{
    let m: int = 0x1_0000_0000_0000_0000;
    lemma_mod_bound(x.v + y.v, m);
    lemma_mod_bound(y.v + z.v, m);
    lemma_add_mod_noop_right(z.v as int, x.v + y.v, m);
    lemma_add_mod_noop_right(x.v as int, y.v + z.v, m);
}

/// Multiplication of 64-bit scalars is commutative.
proof fn lemma_w64_mul_comm(x: W64, y: W64)
    ensures
        x.spec_mul(y) == y.spec_mul(x),
{
    assert(x.v * y.v == y.v * x.v) by (nonlinear_arith);
}

/// Multiplication of 64-bit scalars distributes over addition.
proof fn lemma_w64_mul_distributes(x: W64, y: W64, z: W64)
    ensures
        x.spec_mul(y.spec_add(z)) == x.spec_mul(y).spec_add(x.spec_mul(z)),
{
    let m: int = 0x1_0000_0000_0000_0000;
    lemma_mod_bound(y.v + z.v, m);
    lemma_mod_bound(x.v * y.v, m);
    lemma_mod_bound(x.v * z.v, m);
    lemma_mul_mod_noop_right(x.v as int, y.v + z.v, m);
    lemma_add_mod_noop(x.v * y.v, x.v * z.v, m);
    assert(x.v * (y.v + z.v) == x.v * y.v + x.v * z.v) by (nonlinear_arith);
}

/// Subtraction of 64-bit scalars is addition of the negation.
proof fn lemma_w64_sub_is_add_neg(x: W64, y: W64)
    ensures
        x.spec_sub(y) == x.spec_add(y.spec_neg()),
{
    let m: int = 0x1_0000_0000_0000_0000;
    lemma_mod_bound(0 - y.v, m);
    lemma_add_mod_noop_right(x.v as int, 0 - y.v, m);
}

/// Multiplication of 64-bit scalars slides past negation.
proof fn lemma_w64_mul_neg(x: W64, y: W64)
    ensures
        x.spec_mul(y.spec_neg()) == x.spec_mul(y).spec_neg(),
{
    let m: int = 0x1_0000_0000_0000_0000;
    lemma_mod_bound(0 - y.v, m);
    lemma_mod_bound(x.v * y.v, m);
    lemma_mul_mod_noop_right(x.v as int, 0 - y.v, m);
    lemma_sub_mod_noop_right(0, x.v * y.v, m);
    assert(x.v * (0 - y.v) == 0 - x.v * y.v) by (nonlinear_arith);
}

/// Negation of 64-bit scalars distributes over addition.
proof fn lemma_w64_neg_add(x: W64, y: W64)
    ensures
        x.spec_add(y).spec_neg() == x.spec_neg().spec_add(y.spec_neg()),
{
    let m: int = 0x1_0000_0000_0000_0000;
    lemma_mod_bound(x.v + y.v, m);
    lemma_mod_bound(0 - x.v, m);
    lemma_mod_bound(0 - y.v, m);
    lemma_sub_mod_noop_right(0, x.v + y.v, m);
    lemma_add_mod_noop(0 - x.v, 0 - y.v, m);
}

/// Adding and then subtracting a 64-bit scalar cancels.
proof fn lemma_w64_add_cancels(x: W64, y: W64)
    ensures
        x.spec_add(y).spec_add(y.spec_neg()) == x,
{
    let m: int = 0x1_0000_0000_0000_0000;
    lemma_mod_bound(x.v + y.v, m);
    lemma_mod_bound(0 - y.v, m);
    lemma_add_mod_noop(x.v + y.v, 0 - y.v, m);
    lemma_small_mod(x.v as nat, m as nat);
}

/// The 64-bit scalar satisfies every fact the generic laws rest on.
pub proof fn lemma_w64_scalar_ring_facts()
    ensures
        scalar_ring_facts::<W64>(),
{
    reveal(scalar_ring_facts);
    assert forall|x: W64, y: W64| #[trigger] x.spec_add(y) == y.spec_add(x) by {
    }
    assert forall|x: W64, y: W64, z: W64| #[trigger]
        x.spec_add(y).spec_add(z) == x.spec_add(y.spec_add(z)) by {
        lemma_w64_add_assoc(x, y, z);
    }
    assert forall|x: W64, y: W64| #[trigger] x.spec_mul(y) == y.spec_mul(x) by {
        lemma_w64_mul_comm(x, y);
    }
    assert forall|x: W64, y: W64, z: W64| #[trigger]
        x.spec_mul(y.spec_add(z)) == x.spec_mul(y).spec_add(x.spec_mul(z)) by {
        lemma_w64_mul_distributes(x, y, z);
    }
    assert forall|x: W64, y: W64| #[trigger]
        x.spec_sub(y) == x.spec_add(y.spec_neg()) by {
        lemma_w64_sub_is_add_neg(x, y);
    }
    assert forall|x: W64, y: W64| #[trigger]
        x.spec_mul(y.spec_neg()) == x.spec_mul(y).spec_neg() by {
        lemma_w64_mul_neg(x, y);
    }
    assert forall|x: W64, y: W64| #[trigger]
        x.spec_add(y).spec_neg() == x.spec_neg().spec_add(y.spec_neg()) by {
        lemma_w64_neg_add(x, y);
    }
    assert forall|x: W64, y: W64| #[trigger]
        x.spec_add(y).spec_add(y.spec_neg()) == x by {
        lemma_w64_add_cancels(x, y);
    }
}

/// Addition of 32-bit scalars is associative.
proof fn lemma_w32_add_assoc(x: W32, y: W32, z: W32)
    ensures
        x.spec_add(y).spec_add(z) == x.spec_add(y.spec_add(z)),
{
    let m: int = 0x1_0000_0000;
    lemma_mod_bound(x.v + y.v, m);
    lemma_mod_bound(y.v + z.v, m);
    lemma_add_mod_noop_right(z.v as int, x.v + y.v, m);
    lemma_add_mod_noop_right(x.v as int, y.v + z.v, m);
}

/// Multiplication of 32-bit scalars is commutative.
proof fn lemma_w32_mul_comm(x: W32, y: W32)
    ensures
        x.spec_mul(y) == y.spec_mul(x),
{
    assert(x.v * y.v == y.v * x.v) by (nonlinear_arith);
}

/// Multiplication of 32-bit scalars distributes over addition.
proof fn lemma_w32_mul_distributes(x: W32, y: W32, z: W32)
    ensures
        x.spec_mul(y.spec_add(z)) == x.spec_mul(y).spec_add(x.spec_mul(z)),
{
    let m: int = 0x1_0000_0000;
    lemma_mod_bound(y.v + z.v, m);
    lemma_mod_bound(x.v * y.v, m);
    lemma_mod_bound(x.v * z.v, m);
    lemma_mul_mod_noop_right(x.v as int, y.v + z.v, m);
    lemma_add_mod_noop(x.v * y.v, x.v * z.v, m);
    assert(x.v * (y.v + z.v) == x.v * y.v + x.v * z.v) by (nonlinear_arith);
}

/// Subtraction of 32-bit scalars is addition of the negation.
proof fn lemma_w32_sub_is_add_neg(x: W32, y: W32)
    ensures
        x.spec_sub(y) == x.spec_add(y.spec_neg()),
{
    let m: int = 0x1_0000_0000;
    lemma_mod_bound(0 - y.v, m);
    lemma_add_mod_noop_right(x.v as int, 0 - y.v, m);
}

/// Multiplication of 32-bit scalars slides past negation.
proof fn lemma_w32_mul_neg(x: W32, y: W32)
    ensures
        x.spec_mul(y.spec_neg()) == x.spec_mul(y).spec_neg(),
{
    let m: int = 0x1_0000_0000;
    lemma_mod_bound(0 - y.v, m);
    lemma_mod_bound(x.v * y.v, m);
    lemma_mul_mod_noop_right(x.v as int, 0 - y.v, m);
    lemma_sub_mod_noop_right(0, x.v * y.v, m);
    assert(x.v * (0 - y.v) == 0 - x.v * y.v) by (nonlinear_arith);
}

/// Negation of 32-bit scalars distributes over addition.
proof fn lemma_w32_neg_add(x: W32, y: W32)
    ensures
        x.spec_add(y).spec_neg() == x.spec_neg().spec_add(y.spec_neg()),
{
    let m: int = 0x1_0000_0000;
    lemma_mod_bound(x.v + y.v, m);
    lemma_mod_bound(0 - x.v, m);
    lemma_mod_bound(0 - y.v, m);
    lemma_sub_mod_noop_right(0, x.v + y.v, m);
    lemma_add_mod_noop(0 - x.v, 0 - y.v, m);
}

/// Adding and then subtracting a 32-bit scalar cancels.
proof fn lemma_w32_add_cancels(x: W32, y: W32)
    ensures
        x.spec_add(y).spec_add(y.spec_neg()) == x,
{
    let m: int = 0x1_0000_0000;
    lemma_mod_bound(x.v + y.v, m);
    lemma_mod_bound(0 - y.v, m);
    lemma_add_mod_noop(x.v + y.v, 0 - y.v, m);
    lemma_small_mod(x.v as nat, m as nat);
}

/// The 32-bit scalar satisfies every fact the generic laws rest on.
pub proof fn lemma_w32_scalar_ring_facts()
    ensures
        scalar_ring_facts::<W32>(),
{
    reveal(scalar_ring_facts);
    assert forall|x: W32, y: W32| #[trigger] x.spec_add(y) == y.spec_add(x) by {
    }
    assert forall|x: W32, y: W32, z: W32| #[trigger]
        x.spec_add(y).spec_add(z) == x.spec_add(y.spec_add(z)) by {
        lemma_w32_add_assoc(x, y, z);
    }
    assert forall|x: W32, y: W32| #[trigger] x.spec_mul(y) == y.spec_mul(x) by {
        lemma_w32_mul_comm(x, y);
    }
    assert forall|x: W32, y: W32, z: W32| #[trigger]
        x.spec_mul(y.spec_add(z)) == x.spec_mul(y).spec_add(x.spec_mul(z)) by {
        lemma_w32_mul_distributes(x, y, z);
    }
    assert forall|x: W32, y: W32| #[trigger]
        x.spec_sub(y) == x.spec_add(y.spec_neg()) by {
        lemma_w32_sub_is_add_neg(x, y);
    }
    assert forall|x: W32, y: W32| #[trigger]
        x.spec_mul(y.spec_neg()) == x.spec_mul(y).spec_neg() by {
        lemma_w32_mul_neg(x, y);
    }
    assert forall|x: W32, y: W32| #[trigger]
        x.spec_add(y).spec_neg() == x.spec_neg().spec_add(y.spec_neg()) by {
        lemma_w32_neg_add(x, y);
    }
    assert forall|x: W32, y: W32| #[trigger]
        x.spec_add(y).spec_add(y.spec_neg()) == x by {
        lemma_w32_add_cancels(x, y);
    }
}

/// The difference-of-squares identity for 64-bit scalars:
/// `(x + y) * (x - y) == x * x - y * y`.
pub proof fn lemma_w64_scalar_difference_of_squares(x: W64, y: W64)
    ensures
        x.spec_add(y).spec_mul(x.spec_sub(y)) == x.spec_mul(x).spec_sub(y.spec_mul(y)),
{
    lemma_w64_scalar_ring_facts();
    lemma_diff_of_squares_numerator(x, y);
}

/// The difference-of-squares identity for 32-bit scalars.
pub proof fn lemma_w32_scalar_difference_of_squares(x: W32, y: W32)
    ensures
        x.spec_add(y).spec_mul(x.spec_sub(y)) == x.spec_mul(x).spec_sub(y.spec_mul(y)),
{
    lemma_w32_scalar_ring_facts();
    lemma_diff_of_squares_numerator(x, y);
}

/// The difference-of-squares identity for 64-bit scalars, divided through by
/// any third scalar: `(x + y) * (x - y) / z == (x * x - y * y) / z`.
pub proof fn lemma_w64_scalar_diff_squares_quotient(x: W64, y: W64, z: W64)
    ensures
        x.spec_add(y).spec_mul(x.spec_sub(y)).spec_div(z) == x.spec_mul(x).spec_sub(
            y.spec_mul(y),
        ).spec_div(z),
{
    lemma_w64_scalar_difference_of_squares(x, y);
}

/// The difference-of-squares identity for 32-bit scalars, divided through by
/// any third scalar.
pub proof fn lemma_w32_scalar_diff_squares_quotient(x: W32, y: W32, z: W32)
    ensures
        x.spec_add(y).spec_mul(x.spec_sub(y)).spec_div(z) == x.spec_mul(x).spec_sub(
            y.spec_mul(y),
        ).spec_div(z),
{
    lemma_w32_scalar_difference_of_squares(x, y);
}

/// The difference-of-squares identity for 64-bit pairs:
/// `(a + b) * (a - b) == a * a - b * b`.
pub proof fn lemma_w64_difference_of_squares(a: ComplexPair<W64>, b: ComplexPair<W64>)
    ensures
        a.spec_add(b).spec_mul(a.spec_sub(b)) == a.spec_mul(a).spec_sub(b.spec_mul(b)),
{
    lemma_w64_scalar_ring_facts();
    lemma_pair_ring_facts::<W64>();
    lemma_diff_of_squares_numerator(a, b);
}

/// The difference-of-squares identity for 32-bit pairs.
pub proof fn lemma_w32_difference_of_squares(a: ComplexPair<W32>, b: ComplexPair<W32>)
    ensures
        a.spec_add(b).spec_mul(a.spec_sub(b)) == a.spec_mul(a).spec_sub(b.spec_mul(b)),
{
    lemma_w32_scalar_ring_facts();
    lemma_pair_ring_facts::<W32>();
    lemma_diff_of_squares_numerator(a, b);
}

/// The difference-of-squares identity for 64-bit pairs, divided through by
/// any third pair: `(a + b) * (a - b) / c == (a * a - b * b) / c`.
pub proof fn lemma_w64_diff_squares_quotient(
    a: ComplexPair<W64>,
    b: ComplexPair<W64>,
    c: ComplexPair<W64>,
)
    ensures
        a.spec_add(b).spec_mul(a.spec_sub(b)).spec_div(c) == a.spec_mul(a).spec_sub(
            b.spec_mul(b),
        ).spec_div(c),
{
    lemma_w64_difference_of_squares(a, b);
}

/// The difference-of-squares identity for 32-bit pairs, divided through by
/// any third pair.
pub proof fn lemma_w32_diff_squares_quotient(
    a: ComplexPair<W32>,
    b: ComplexPair<W32>,
    c: ComplexPair<W32>,
)
    ensures
        a.spec_add(b).spec_mul(a.spec_sub(b)).spec_div(c) == a.spec_mul(a).spec_sub(
            b.spec_mul(b),
        ).spec_div(c),
{
    lemma_w32_difference_of_squares(a, b);
}

/// The difference-of-squares identity for 64-bit pairs, element by element
/// over sequences.
pub proof fn lemma_w64_diff_squares_quotient_elementwise(
    a: Seq<ComplexPair<W64>>,
    b: Seq<ComplexPair<W64>>,
    c: Seq<ComplexPair<W64>>,
)
    requires
        a.len() == b.len(),
        a.len() == c.len(),
    ensures
        forall|i: int|
            0 <= i < a.len() ==> #[trigger] a[i].spec_add(b[i]).spec_mul(
                a[i].spec_sub(b[i]),
            ).spec_div(c[i]) == a[i].spec_mul(a[i]).spec_sub(b[i].spec_mul(b[i])).spec_div(c[i]),
{
    assert forall|i: int|
        0 <= i < a.len() implies #[trigger] a[i].spec_add(b[i]).spec_mul(
        a[i].spec_sub(b[i]),
    ).spec_div(c[i]) == a[i].spec_mul(a[i]).spec_sub(b[i].spec_mul(b[i])).spec_div(c[i]) by {
        lemma_w64_diff_squares_quotient(a[i], b[i], c[i]);
    }
}

/// The difference-of-squares identity for 32-bit pairs, element by element
/// over sequences.
pub proof fn lemma_w32_diff_squares_quotient_elementwise(
    a: Seq<ComplexPair<W32>>,
    b: Seq<ComplexPair<W32>>,
    c: Seq<ComplexPair<W32>>,
)
    requires
        a.len() == b.len(),
        a.len() == c.len(),
    ensures
        forall|i: int|
            0 <= i < a.len() ==> #[trigger] a[i].spec_add(b[i]).spec_mul(
                a[i].spec_sub(b[i]),
            ).spec_div(c[i]) == a[i].spec_mul(a[i]).spec_sub(b[i].spec_mul(b[i])).spec_div(c[i]),
{
    assert forall|i: int|
        0 <= i < a.len() implies #[trigger] a[i].spec_add(b[i]).spec_mul(
        a[i].spec_sub(b[i]),
    ).spec_div(c[i]) == a[i].spec_mul(a[i]).spec_sub(b[i].spec_mul(b[i])).spec_div(c[i]) by {
        lemma_w32_diff_squares_quotient(a[i], b[i], c[i]);
    }
}

} // verus!
